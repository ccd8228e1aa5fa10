//! Writes the scene out as script text that, run again, recreates it.
use vstd::prelude::*;
use vstd::string::StringExecFns;

use crate::scene::{accepted, applied, EntityModel, EntitySnapshot, Scene, SceneModel};
use crate::spawn::{
    lower_of, shape_kind_of, status_of, validated, BodyStatus, Color, Shape, SpawnSpecModel,
};
use crate::value::{
    lemma_lookup_absent, lemma_lookup_found, pairs_view, RawSpawnTable, RawValue, RawValueModel,
    Scalar, ScalarModel,
};

verus! {

pub open spec fn digit_char(d: int) -> char {
    if d == 0 {
        '0'
    } else if d == 1 {
        '1'
    } else if d == 2 {
        '2'
    } else if d == 3 {
        '3'
    } else if d == 4 {
        '4'
    } else if d == 5 {
        '5'
    } else if d == 6 {
        '6'
    } else if d == 7 {
        '7'
    } else if d == 8 {
        '8'
    } else {
        '9'
    }
}

/// The decimal digits of `n`, without leading zeros.
pub open spec fn decimal(n: nat) -> Seq<char>
    decreases n,
{
    if n < 10 {
        seq![digit_char(n as int)]
    } else {
        decimal(n / 10).push(digit_char((n % 10) as int))
    }
}

/// A value in thousandths written as a decimal with exactly three fraction
/// digits: `-1500` is `-1.500`.
pub open spec fn milli_text(v: int) -> Seq<char> {
    let a = if v < 0 {
        -v
    } else {
        v
    };
    let sign = if v < 0 {
        seq!['-']
    } else {
        Seq::empty()
    };
    let f = a % 1000;
    sign + decimal((a / 1000) as nat) + seq![
        '.',
        digit_char(f / 100),
        digit_char((f / 10) % 10),
        digit_char(f % 10),
    ]
}

fn digit_str(d: u64) -> (r: &'static str)
    requires
        d < 10,
    ensures
        r@ == seq![digit_char(d as int)],
{
    proof {
        reveal_strlit("0");
        reveal_strlit("1");
        reveal_strlit("2");
        reveal_strlit("3");
        reveal_strlit("4");
        reveal_strlit("5");
        reveal_strlit("6");
        reveal_strlit("7");
        reveal_strlit("8");
        reveal_strlit("9");
    }
    if d == 0 {
        "0"
    } else if d == 1 {
        "1"
    } else if d == 2 {
        "2"
    } else if d == 3 {
        "3"
    } else if d == 4 {
        "4"
    } else if d == 5 {
        "5"
    } else if d == 6 {
        "6"
    } else if d == 7 {
        "7"
    } else if d == 8 {
        "8"
    } else {
        "9"
    }
}

/// Writes `n` in decimal.
pub fn format_decimal(n: u64) -> (r: String)
    ensures
        r@ == decimal(n as nat),
    decreases n,
{
    if n < 10 {
        String::from_str(digit_str(n))
    } else {
        let mut s = format_decimal(n / 10);
        s.append(digit_str(n % 10));
        s
    }
}

/// Writes a value in thousandths as a decimal with three fraction digits.
pub fn format_milli(v: i64) -> (r: String)
    ensures
        r@ == milli_text(v as int),
{
    let a: u64 = if v < 0 {
        (0 - (v as i128)) as u64
    } else {
        v as u64
    };
    let mut s = if v < 0 {
        String::from_str("-")
    } else {
        String::new()
    };
    proof {
        reveal_strlit("-");
        reveal_strlit(".");
    }
    let whole = format_decimal(a / 1000);
    s.append(whole.as_str());
    s.append(".");
    let f = a % 1000;
    s.append(digit_str(f / 100));
    s.append(digit_str((f / 10) % 10));
    s.append(digit_str(f % 10));
    assert(s@ =~= milli_text(v as int));
    s
}

pub open spec fn quoted(s: Seq<char>) -> Seq<char> {
    "\""@ + s + "\""@
}

pub open spec fn bool_text(b: bool) -> Seq<char> {
    if b {
        "true"@
    } else {
        "false"@
    }
}

/// A value inside a nested table; whole non-negative numbers (color
/// channels) are written without a fraction.
pub open spec fn scalar_text(v: ScalarModel) -> Seq<char> {
    match v {
        ScalarModel::Bool(b) => bool_text(b),
        ScalarModel::Num(n) => if 0 <= n && n % 1000 == 0 {
            decimal((n / 1000) as nat)
        } else {
            milli_text(n as int)
        },
        ScalarModel::Str(s) => quoted(s),
    }
}

/// `k = v` entries of a nested table, separated by `, `.
pub open spec fn scalars_text(fs: Seq<(Seq<char>, ScalarModel)>) -> Seq<char>
    decreases fs.len(),
{
    if fs.len() == 0 {
        Seq::empty()
    } else if fs.len() == 1 {
        fs[0].0 + " = "@ + scalar_text(fs[0].1)
    } else {
        scalars_text(fs.drop_last()) + ", "@ + fs.last().0 + " = "@ + scalar_text(fs.last().1)
    }
}

/// A value of a table; numbers with three fraction digits, strings between
/// double quotes as they are.
pub open spec fn value_text(v: RawValueModel) -> Seq<char> {
    match v {
        RawValueModel::Bool(b) => bool_text(b),
        RawValueModel::Num(n) => milli_text(n as int),
        RawValueModel::Str(s) => quoted(s),
        RawValueModel::Table(c) => "{"@ + scalars_text(c) + "}"@,
    }
}

/// `k = v` entries of a table, separated by `, `.
pub open spec fn fields_text(fs: Seq<(Seq<char>, RawValueModel)>) -> Seq<char>
    decreases fs.len(),
{
    if fs.len() == 0 {
        Seq::empty()
    } else if fs.len() == 1 {
        fs[0].0 + " = "@ + value_text(fs[0].1)
    } else {
        fields_text(fs.drop_last()) + ", "@ + fs.last().0 + " = "@ + value_text(fs.last().1)
    }
}

/// A table written as a table literal, its entries in order.
pub open spec fn table_text(t: Seq<(Seq<char>, RawValueModel)>) -> Seq<char> {
    "{"@ + fields_text(t) + "}"@
}

pub open spec fn shape_word(s: Shape) -> Seq<char> {
    match s {
        Shape::Rectangle { .. } => "Rect"@,
        Shape::Circle { .. } => "Circle"@,
    }
}

pub open spec fn status_word(s: BodyStatus) -> Seq<char> {
    match s {
        BodyStatus::Static => "static"@,
        BodyStatus::Kinematic => "kinematic"@,
        BodyStatus::Dynamic => "dynamic"@,
    }
}

/// The dimension entries of a shape's table.
pub open spec fn dims_fields(s: Shape) -> Seq<(Seq<char>, RawValueModel)> {
    match s {
        Shape::Rectangle { w, h } => seq![("w"@, RawValueModel::Num(w)), ("h"@, RawValueModel::Num(h))],
        Shape::Circle { r } => seq![("r"@, RawValueModel::Num(r))],
    }
}

pub open spec fn color_fields(c: Color) -> Seq<(Seq<char>, ScalarModel)> {
    seq![
        ("r"@, ScalarModel::Num((c.r * 1000) as i64)),
        ("g"@, ScalarModel::Num((c.g * 1000) as i64)),
        ("b"@, ScalarModel::Num((c.b * 1000) as i64)),
    ]
}

/// The table an entity is exported as, keys in their fixed order: shape,
/// position, rotation, velocities, dimensions, material, color, status.
pub open spec fn exported_table(e: EntityModel) -> Seq<(Seq<char>, RawValueModel)> {
    seq![
        ("shape"@, RawValueModel::Str(shape_word(e.shape))),
        ("x"@, RawValueModel::Num(e.x)),
        ("y"@, RawValueModel::Num(e.y)),
        ("rotation"@, RawValueModel::Num(e.rotation)),
        ("x_vel"@, RawValueModel::Num(e.x_vel)),
        ("y_vel"@, RawValueModel::Num(e.y_vel)),
        ("rotvel"@, RawValueModel::Num(e.rotvel)),
    ] + dims_fields(e.shape) + seq![
        ("mass"@, RawValueModel::Num(e.mass)),
        ("friction"@, RawValueModel::Num(e.friction)),
        ("elasticity"@, RawValueModel::Num(e.restitution)),
        ("color"@, RawValueModel::Table(color_fields(e.color))),
        ("status"@, RawValueModel::Str(status_word(e.status))),
    ]
}

/// One entity as a table literal: its exported table, written out.
pub open spec fn entity_text(e: EntityModel) -> Seq<char> {
    table_text(exported_table(e))
}

/// The entity literals, separated by a comma, a newline and a tab.
pub open spec fn joined(es: Seq<EntityModel>) -> Seq<char>
    decreases es.len(),
{
    if es.len() == 0 {
        Seq::empty()
    } else if es.len() == 1 {
        entity_text(es[0])
    } else {
        joined(es.drop_last()) + ", \n\t"@ + entity_text(es.last())
    }
}

/// The whole document: one `add_shapes` call listing every entity, then the
/// gravity assignment.
pub open spec fn scene_text(es: Seq<EntityModel>, gravity: i64) -> Seq<char> {
    "add_shapes(\n\t"@ + joined(es) + "\n)\nGRAVITY = "@ + milli_text(gravity as int) + "\n"@
}

fn quoted_string(s: &str) -> (r: String)
    ensures
        r@ == quoted(s@),
{
    let mut t = String::from_str("\"");
    t.append(s);
    t.append("\"");
    t
}

fn bool_str(b: bool) -> (r: &'static str)
    ensures
        r@ == bool_text(b),
{
    if b {
        "true"
    } else {
        "false"
    }
}

fn scalar_string(v: &Scalar) -> (r: String)
    ensures
        r@ == scalar_text(v@),
{
    match v {
        Scalar::Bool(b) => String::from_str(bool_str(*b)),
        Scalar::Num(n) => if 0 <= *n && *n % 1000 == 0 {
            format_decimal((*n / 1000) as u64)
        } else {
            format_milli(*n)
        },
        Scalar::Str(s) => quoted_string(s.as_str()),
    }
}

fn scalars_string(fs: &Vec<(String, Scalar)>) -> (r: String)
    ensures
        r@ == scalars_text(pairs_view(fs@)),
{
    let ghost v = pairs_view(fs@);
    let mut out = String::new();
    let mut k: usize = 0;
    while k < fs.len()
        invariant
            k <= fs@.len(),
            v == pairs_view(fs@),
            out@ == scalars_text(v.subrange(0, k as int)),
        decreases fs@.len() - k,
    {
        let ghost cur = v.subrange(0, k + 1);
        assert(cur.drop_last() =~= v.subrange(0, k as int));
        if k == 0 {
            out = String::from_str(fs[k].0.as_str());
        } else {
            out.append(", ");
            out.append(fs[k].0.as_str());
        }
        out.append(" = ");
        out.append(scalar_string(&fs[k].1).as_str());
        k = k + 1;
    }
    assert(v.subrange(0, fs@.len() as int) =~= v);
    out
}

fn value_string(v: &RawValue) -> (r: String)
    ensures
        r@ == value_text(v@),
{
    match v {
        RawValue::Bool(b) => String::from_str(bool_str(*b)),
        RawValue::Num(n) => format_milli(*n),
        RawValue::Str(s) => quoted_string(s.as_str()),
        RawValue::Table(c) => {
            let mut t = String::from_str("{");
            t.append(scalars_string(c).as_str());
            t.append("}");
            t
        },
    }
}

/// Writes a table as a table literal, its entries in order.
pub fn table_literal(t: &RawSpawnTable) -> (r: String)
    ensures
        r@ == table_text(t@),
{
    let ghost v = t@;
    let mut out = String::from_str("{");
    let ghost open = out@;
    let mut k: usize = 0;
    while k < t.fields.len()
        invariant
            k <= t.fields@.len(),
            v == t@,
            out@ == open + fields_text(v.subrange(0, k as int)),
        decreases t.fields@.len() - k,
    {
        let ghost cur = v.subrange(0, k + 1);
        assert(cur.drop_last() =~= v.subrange(0, k as int));
        let ghost before = out@;
        if k > 0 {
            out.append(", ");
        }
        out.append(t.fields[k].0.as_str());
        out.append(" = ");
        out.append(value_string(&t.fields[k].1).as_str());
        proof {
            if k == 0 {
                assert(fields_text(v.subrange(0, 0)) =~= Seq::<char>::empty());
                assert(out@ =~= open + fields_text(cur));
            } else {
                assert(out@ =~= open + fields_text(cur));
            }
        }
        k = k + 1;
    }
    assert(v.subrange(0, t.fields@.len() as int) =~= v);
    out.append("}");
    out
}

fn shape_str(s: Shape) -> (r: &'static str)
    ensures
        r@ == shape_word(s),
{
    match s {
        Shape::Rectangle { .. } => "Rect",
        Shape::Circle { .. } => "Circle",
    }
}

fn status_str(s: BodyStatus) -> (r: &'static str)
    ensures
        r@ == status_word(s),
{
    match s {
        BodyStatus::Static => "static",
        BodyStatus::Kinematic => "kinematic",
        BodyStatus::Dynamic => "dynamic",
    }
}

fn entry(key: &str, v: RawValue) -> (r: (String, RawValue))
    ensures
        r.0@ == key@,
        r.1 == v,
{
    (String::from_str(key), v)
}

/// The table an entity is exported as.
pub fn exported_fields(e: &EntitySnapshot) -> (t: RawSpawnTable)
    ensures
        t@ == exported_table(e@),
{
    let mut f: Vec<(String, RawValue)> = Vec::new();
    f.push(entry("shape", RawValue::Str(String::from_str(shape_str(e.shape)))));
    f.push(entry("x", RawValue::Num(e.x)));
    f.push(entry("y", RawValue::Num(e.y)));
    f.push(entry("rotation", RawValue::Num(e.rotation)));
    f.push(entry("x_vel", RawValue::Num(e.x_vel)));
    f.push(entry("y_vel", RawValue::Num(e.y_vel)));
    f.push(entry("rotvel", RawValue::Num(e.rotvel)));
    match e.shape {
        Shape::Rectangle { w, h } => {
            f.push(entry("w", RawValue::Num(w)));
            f.push(entry("h", RawValue::Num(h)));
        },
        Shape::Circle { r } => {
            f.push(entry("r", RawValue::Num(r)));
        },
    }
    f.push(entry("mass", RawValue::Num(e.mass)));
    f.push(entry("friction", RawValue::Num(e.friction)));
    f.push(entry("elasticity", RawValue::Num(e.restitution)));
    let mut c: Vec<(String, Scalar)> = Vec::new();
    c.push((String::from_str("r"), Scalar::Num(e.color.r as i64 * 1000)));
    c.push((String::from_str("g"), Scalar::Num(e.color.g as i64 * 1000)));
    c.push((String::from_str("b"), Scalar::Num(e.color.b as i64 * 1000)));
    assert(pairs_view(c@) =~= color_fields(e.color));
    f.push(entry("color", RawValue::Table(c)));
    f.push(entry("status", RawValue::Str(String::from_str(status_str(e.status)))));
    let t = RawSpawnTable { fields: f };
    assert(t@ =~= exported_table(e@));
    t
}

/// One entity as a table literal that `add_shape` accepts.
pub fn entity_literal(e: &EntitySnapshot) -> (r: String)
    ensures
        r@ == entity_text(e@),
{
    table_literal(&exported_fields(e))
}

fn push_milli(t: &mut String, v: i64)
    ensures
        final(t)@ == old(t)@ + milli_text(v as int),
{
    t.append(format_milli(v).as_str());
}

/// Writes the scene as script text: every entity in one `add_shapes` call,
/// then the gravity. Running the text recreates the entities.
pub fn export_lua(scene: &Scene) -> (r: String)
    ensures
        r@ == scene_text(scene@.entities, scene.gravity),
{
    let mut body = String::new();
    let mut k: usize = 0;
    while k < scene.entities.len()
        invariant
            k <= scene.entities@.len(),
            body@ == joined(scene@.entities.subrange(0, k as int)),
        decreases scene.entities@.len() - k,
    {
        let ghost cur = scene@.entities.subrange(0, k + 1);
        assert(cur.drop_last() =~= scene@.entities.subrange(0, k as int));
        let lit = entity_literal(&scene.entities[k]);
        if k == 0 {
            assert(cur =~= seq![scene@.entities[0]]);
            body = lit;
        } else {
            body.append(", \n\t");
            body.append(lit.as_str());
        }
        k = k + 1;
    }
    assert(scene@.entities.subrange(0, scene.entities@.len() as int) =~= scene@.entities);
    let mut out = String::from_str("add_shapes(\n\t");
    out.append(body.as_str());
    out.append("\n)\nGRAVITY = ");
    push_milli(&mut out, scene.gravity);
    out.append("\n");
    out
}

/// An entity whose state survives export and reload: positive dimensions.
pub open spec fn exportable(e: EntityModel) -> bool {
    match e.shape {
        Shape::Rectangle { w, h } => w > 0 && h > 0,
        Shape::Circle { r } => r > 0,
    }
}

/// Two entities in the same physical state: same shape kind and dimensions,
/// position, velocities, material, color channels and status.
pub open spec fn same_state(a: EntityModel, b: EntityModel) -> bool {
    &&& a.shape == b.shape
    &&& a.x == b.x
    &&& a.y == b.y
    &&& a.rotation == b.rotation
    &&& a.x_vel == b.x_vel
    &&& a.y_vel == b.y_vel
    &&& a.rotvel == b.rotvel
    &&& a.mass == b.mass
    &&& a.friction == b.friction
    &&& a.restitution == b.restitution
    &&& a.color.r == b.color.r
    &&& a.color.g == b.color.g
    &&& a.color.b == b.color.b
    &&& a.status == b.status
}

/// What `str::to_lowercase` makes of the words an export writes: `Circle`
/// and `Rect` become `circle` and `rect`; the status words stay as they are.
pub open spec fn export_words_fold() -> bool {
    &&& lower_of("Circle"@) == "circle"@
    &&& lower_of("Rect"@) == "rect"@
    &&& lower_of("static"@) == "static"@
    &&& lower_of("kinematic"@) == "kinematic"@
    &&& lower_of("dynamic"@) == "dynamic"@
}

/// The spec an exported entity reloads as.
pub open spec fn reloaded_spec(e: EntityModel) -> SpawnSpecModel {
    SpawnSpecModel {
        shape: e.shape,
        x: e.x,
        y: e.y,
        rotation: e.rotation,
        x_vel: e.x_vel,
        y_vel: e.y_vel,
        rotvel: e.rotvel,
        mass: e.mass,
        restitution: e.restitution,
        friction: e.friction,
        status: e.status,
        name: None,
        color: Color { a: 255, ..e.color },
    }
}

proof fn lemma_exported_entity_validates(e: EntityModel)
    requires
        exportable(e),
        export_words_fold(),
    ensures
        validated(exported_table(e)) == Ok::<SpawnSpecModel, crate::spawn::SpawnError>(
            reloaded_spec(e),
        ),
{
    reveal_strlit("shape");
    reveal_strlit("x");
    reveal_strlit("y");
    reveal_strlit("rotation");
    reveal_strlit("x_vel");
    reveal_strlit("y_vel");
    reveal_strlit("rotvel");
    reveal_strlit("w");
    reveal_strlit("h");
    reveal_strlit("r");
    reveal_strlit("g");
    reveal_strlit("b");
    reveal_strlit("a");
    reveal_strlit("mass");
    reveal_strlit("friction");
    reveal_strlit("elasticity");
    reveal_strlit("color");
    reveal_strlit("status");
    reveal_strlit("name");
    reveal_strlit("rect");
    reveal_strlit("Rect");
    reveal_strlit("Circle");
    reveal_strlit("rectangle");
    reveal_strlit("circle");
    reveal_strlit("static");
    reveal_strlit("kinematic");
    reveal_strlit("dynamic");
    let t = exported_table(e);
    let d: int = match e.shape {
        Shape::Rectangle { .. } => 2,
        Shape::Circle { .. } => 1,
    };
    assert(t.len() == 12 + d);
    assert(t[0].0 == "shape"@);
    assert(t[1].0 == "x"@);
    assert(t[2].0 == "y"@);
    assert(t[3].0 == "rotation"@);
    assert(t[4].0 == "x_vel"@);
    assert(t[5].0 == "y_vel"@);
    assert(t[6].0 == "rotvel"@);
    assert(t[7 + d].0 == "mass"@);
    assert(t[8 + d].0 == "friction"@);
    assert(t[9 + d].0 == "elasticity"@);
    assert(t[10 + d].0 == "color"@);
    assert(t[11 + d].0 == "status"@);
    match e.shape {
        Shape::Rectangle { .. } => {
            assert(t[7].0 == "w"@);
            assert(t[8].0 == "h"@);
        },
        Shape::Circle { .. } => {
            assert(t[7].0 == "r"@);
        },
    }
    assert("shape"@[0] == 's');
    assert("x"@[0] == 'x');
    assert("y"@[0] == 'y');
    assert("rotation"@[0] == 'r');
    assert("x_vel"@[0] == 'x');
    assert("y_vel"@[0] == 'y');
    assert("rotvel"@[0] == 'r');
    assert("w"@[0] == 'w');
    assert("h"@[0] == 'h');
    assert("r"@[0] == 'r');
    assert("g"@[0] == 'g');
    assert("b"@[0] == 'b');
    assert("a"@[0] == 'a');
    assert("mass"@[0] == 'm');
    assert("friction"@[0] == 'f');
    assert("elasticity"@[0] == 'e');
    assert("color"@[0] == 'c');
    assert("status"@[0] == 's');
    assert("name"@[0] == 'n');
    lemma_lookup_found(t, "shape"@, 0);
    lemma_lookup_found(t, "x"@, 1);
    lemma_lookup_found(t, "y"@, 2);
    lemma_lookup_found(t, "rotation"@, 3);
    lemma_lookup_found(t, "x_vel"@, 4);
    lemma_lookup_found(t, "y_vel"@, 5);
    lemma_lookup_found(t, "rotvel"@, 6);
    match e.shape {
        Shape::Rectangle { .. } => {
            lemma_lookup_found(t, "w"@, 7);
            lemma_lookup_found(t, "h"@, 8);
            assert(shape_kind_of(lower_of("Rect"@)) == Some(crate::spawn::ShapeKind::Rectangle));
        },
        Shape::Circle { .. } => {
            lemma_lookup_found(t, "r"@, 7);
            assert("circle"@.len() == 6 && "rect"@.len() == 4 && "rectangle"@.len() == 9);
            assert(shape_kind_of(lower_of("Circle"@)) == Some(crate::spawn::ShapeKind::Circle));
        },
    }
    lemma_lookup_found(t, "mass"@, 7 + d);
    lemma_lookup_found(t, "friction"@, 8 + d);
    lemma_lookup_found(t, "elasticity"@, 9 + d);
    lemma_lookup_found(t, "color"@, 10 + d);
    lemma_lookup_found(t, "status"@, 11 + d);
    lemma_lookup_absent(t, "name"@);
    let c = color_fields(e.color);
    lemma_lookup_found(c, "r"@, 0);
    lemma_lookup_found(c, "g"@, 1);
    lemma_lookup_found(c, "b"@, 2);
    lemma_lookup_absent(c, "a"@);
    assert("static"@.len() == 6 && "kinematic"@.len() == 9 && "dynamic"@.len() == 7);
    assert(status_of(lower_of(status_word(e.status))) == e.status);
}

proof fn lemma_exported_all_accepted(s: Seq<EntityModel>)
    requires
        forall|i: int| 0 <= i < s.len() ==> exportable(#[trigger] s[i]),
        export_words_fold(),
    ensures
        accepted(s.map_values(|e: EntityModel| exported_table(e))) == s.map_values(
            |e: EntityModel| reloaded_spec(e),
        ),
    decreases s.len(),
{
    let ts = s.map_values(|e: EntityModel| exported_table(e));
    if s.len() > 0 {
        let init = s.drop_last();
        assert forall|i: int| 0 <= i < init.len() implies exportable(#[trigger] init[i]) by {
            assert(init[i] == s[i]);
        }
        lemma_exported_all_accepted(init);
        assert(ts.drop_last() =~= init.map_values(|e: EntityModel| exported_table(e)));
        assert(exportable(s[s.len() - 1]));
        lemma_exported_entity_validates(s.last());
        assert(s.map_values(|e: EntityModel| reloaded_spec(e)) =~= init.map_values(
            |e: EntityModel| reloaded_spec(e),
        ).push(reloaded_spec(s.last())));
    } else {
        assert(s.map_values(|e: EntityModel| reloaded_spec(e)) =~= Seq::<SpawnSpecModel>::empty());
    }
}

/// Round trip: running the export of entities against an empty host, which
/// hands each exported table to validation, recreates every one of them, in
/// order, in the same state (shape kind and dimensions, position,
/// velocities, material, color channels and status), opaque.
pub proof fn lemma_round_trip(s: Seq<EntityModel>, host: SceneModel)
    requires
        forall|i: int| 0 <= i < s.len() ==> exportable(#[trigger] s[i]),
        export_words_fold(),
        host.entities.len() == 0,
    ensures
        ({
            let back = applied(host, accepted(s.map_values(|e: EntityModel| exported_table(e)))).entities;
            &&& back.len() == s.len()
            &&& forall|i: int| 0 <= i < s.len() ==> same_state(#[trigger] back[i], s[i]) && back[i].color.a == 255
        }),
{
    lemma_exported_all_accepted(s);
}

} // verus!
