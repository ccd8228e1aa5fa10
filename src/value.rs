//! Untyped values as a script hands them over, before validation, and their
//! mathematical models.
use vstd::prelude::*;

use crate::text::str_eq;

verus! {

/// A value held inside a nested table (such as a color table).
pub enum Scalar {
    Bool(bool),
    /// A number, in thousandths.
    Num(i64),
    Str(String),
}

/// A value held under a key of a spawn table.
pub enum RawValue {
    Bool(bool),
    /// A number, in thousandths.
    Num(i64),
    Str(String),
    /// A nested table of scalars, keyed by name.
    Table(Vec<(String, Scalar)>),
}

/// A script-authored table describing one object to create, as a list of
/// key/value pairs. Where a key occurs twice, the first occurrence counts.
pub struct RawSpawnTable {
    pub fields: Vec<(String, RawValue)>,
}

pub enum ScalarModel {
    Bool(bool),
    Num(i64),
    Str(Seq<char>),
}

pub enum RawValueModel {
    Bool(bool),
    Num(i64),
    Str(Seq<char>),
    Table(Seq<(Seq<char>, ScalarModel)>),
}

/// The model of a list of pairs keyed by strings.
pub open spec fn pairs_view<V: View>(s: Seq<(String, V)>) -> Seq<(Seq<char>, V::V)> {
    s.map_values(|p: (String, V)| (p.0@, p.1@))
}

impl View for Scalar {
    type V = ScalarModel;

    open spec fn view(&self) -> ScalarModel {
        match self {
            Scalar::Bool(b) => ScalarModel::Bool(*b),
            Scalar::Num(n) => ScalarModel::Num(*n),
            Scalar::Str(s) => ScalarModel::Str(s@),
        }
    }
}

impl View for RawValue {
    type V = RawValueModel;

    open spec fn view(&self) -> RawValueModel {
        match self {
            RawValue::Bool(b) => RawValueModel::Bool(*b),
            RawValue::Num(n) => RawValueModel::Num(*n),
            RawValue::Str(s) => RawValueModel::Str(s@),
            RawValue::Table(t) => RawValueModel::Table(pairs_view(t@)),
        }
    }
}

impl View for RawSpawnTable {
    type V = Seq<(Seq<char>, RawValueModel)>;

    open spec fn view(&self) -> Seq<(Seq<char>, RawValueModel)> {
        pairs_view(self.fields@)
    }
}

/// The value under `key` in a list of key/value pairs: the first pair whose
/// key it is.
pub open spec fn lookup<V>(fields: Seq<(Seq<char>, V)>, key: Seq<char>) -> Option<V>
    decreases fields.len(),
{
    if fields.len() == 0 {
        None
    } else if fields[0].0 == key {
        Some(fields[0].1)
    } else {
        lookup(fields.drop_first(), key)
    }
}

/// The value under a key whose first occurrence is at position `i`.
pub proof fn lemma_lookup_found<V>(fields: Seq<(Seq<char>, V)>, key: Seq<char>, i: int)
    requires
        0 <= i < fields.len(),
        fields[i].0 == key,
        forall|j: int| 0 <= j < i ==> #[trigger] fields[j].0 != key,
    ensures
        lookup(fields, key) == Some(fields[i].1),
    decreases i,
{
    if i > 0 {
        assert(fields[0].0 != key);
        let rest = fields.drop_first();
        assert forall|j: int| 0 <= j < i - 1 implies #[trigger] rest[j].0 != key by {
            assert(rest[j] == fields[j + 1]);
        }
        lemma_lookup_found(rest, key, i - 1);
    }
}

/// A key that no pair has is absent.
pub proof fn lemma_lookup_absent<V>(fields: Seq<(Seq<char>, V)>, key: Seq<char>)
    requires
        forall|j: int| 0 <= j < fields.len() ==> #[trigger] fields[j].0 != key,
    ensures
        lookup(fields, key) == None::<V>,
    decreases fields.len(),
{
    if fields.len() > 0 {
        assert(fields[0].0 != key);
        let rest = fields.drop_first();
        assert forall|j: int| 0 <= j < rest.len() implies #[trigger] rest[j].0 != key by {
            assert(rest[j] == fields[j + 1]);
        }
        lemma_lookup_absent(rest, key);
    }
}

/// Position of the first pair whose key is `key`.
pub fn find_key<V: View>(fields: &Vec<(String, V)>, key: &str) -> (r: Option<usize>)
    ensures
        match r {
            Some(i) => i < fields@.len() && lookup(pairs_view(fields@), key@) == Some(
                fields@[i as int].1@,
            ),
            None => lookup(pairs_view(fields@), key@) == None::<V::V>,
        },
{
    let mut i: usize = 0;
    assert(pairs_view(fields@).subrange(0, fields@.len() as int) =~= pairs_view(fields@));
    while i < fields.len()
        invariant
            i <= fields@.len(),
            lookup(pairs_view(fields@), key@) == lookup(
                pairs_view(fields@).subrange(i as int, fields@.len() as int),
                key@,
            ),
        decreases fields@.len() - i,
    {
        let ghost rest = pairs_view(fields@).subrange(i as int, fields@.len() as int);
        assert(rest.drop_first() =~= pairs_view(fields@).subrange(i + 1, fields@.len() as int));
        if str_eq(fields[i].0.as_str(), key) {
            return Some(i);
        }
        i = i + 1;
    }
    None
}

} // verus!
