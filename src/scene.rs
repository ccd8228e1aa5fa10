//! The host scene as the bridge sees it: simulation-wide scalars and the
//! entities created so far, and the creation of entities from validated specs.
use vstd::prelude::*;

use crate::spawn::{
    name_view, validate, validated, BodyStatus, Color, Shape, SpawnError, SpawnSpec,
    SpawnSpecModel,
};
use crate::value::{RawSpawnTable, RawValueModel};

verus! {

/// The physical state of one entity. Numbers in thousandths.
pub struct EntitySnapshot {
    /// A handle that names this entity for as long as it exists.
    pub id: u64,
    pub name: Option<String>,
    pub shape: Shape,
    pub x: i64,
    pub y: i64,
    pub rotation: i64,
    pub x_vel: i64,
    pub y_vel: i64,
    pub rotvel: i64,
    pub mass: i64,
    pub friction: i64,
    pub restitution: i64,
    pub color: Color,
    pub status: BodyStatus,
}

pub struct EntityModel {
    pub id: u64,
    pub name: Option<Seq<char>>,
    pub shape: Shape,
    pub x: i64,
    pub y: i64,
    pub rotation: i64,
    pub x_vel: i64,
    pub y_vel: i64,
    pub rotvel: i64,
    pub mass: i64,
    pub friction: i64,
    pub restitution: i64,
    pub color: Color,
    pub status: BodyStatus,
}

impl View for EntitySnapshot {
    type V = EntityModel;

    open spec fn view(&self) -> EntityModel {
        EntityModel {
            id: self.id,
            name: name_view(self.name),
            shape: self.shape,
            x: self.x,
            y: self.y,
            rotation: self.rotation,
            x_vel: self.x_vel,
            y_vel: self.y_vel,
            rotvel: self.rotvel,
            mass: self.mass,
            friction: self.friction,
            restitution: self.restitution,
            color: self.color,
            status: self.status,
        }
    }
}

/// The host's state: the bidirectional scalars and the entities.
pub struct Scene {
    /// Vertical gravity, in thousandths.
    pub gravity: i64,
    pub paused: bool,
    pub entities: Vec<EntitySnapshot>,
    /// The handle the next created entity receives.
    pub next_id: u64,
    /// How many batches of creations have been finalized.
    pub batches: u64,
}

pub struct SceneModel {
    pub gravity: i64,
    pub paused: bool,
    pub entities: Seq<EntityModel>,
    pub next_id: u64,
    pub batches: u64,
}

impl View for Scene {
    type V = SceneModel;

    open spec fn view(&self) -> SceneModel {
        SceneModel {
            gravity: self.gravity,
            paused: self.paused,
            entities: self.entities@.map_values(|e: EntitySnapshot| e@),
            next_id: self.next_id,
            batches: self.batches,
        }
    }
}

impl SceneModel {
    /// Handles increase along the entity list and stay below `next_id`.
    pub open spec fn wf(self) -> bool {
        &&& forall|i: int, j: int|
            0 <= i < j < self.entities.len() ==> #[trigger] self.entities[i].id
                < #[trigger] self.entities[j].id
        &&& forall|i: int| 0 <= i < self.entities.len() ==> #[trigger] self.entities[i].id < self.next_id
    }
}

/// The entity that a spec creates under handle `id`.
pub open spec fn entity_of(s: SpawnSpecModel, id: u64) -> EntityModel {
    EntityModel {
        id,
        name: s.name,
        shape: s.shape,
        x: s.x,
        y: s.y,
        rotation: s.rotation,
        x_vel: s.x_vel,
        y_vel: s.y_vel,
        rotvel: s.rotvel,
        mass: s.mass,
        friction: s.friction,
        restitution: s.restitution,
        color: s.color,
        status: s.status,
    }
}

/// The scene after one batch: an entity per spec, in order, under
/// consecutive handles, and one finalization.
pub open spec fn applied(s: SceneModel, specs: Seq<SpawnSpecModel>) -> SceneModel {
    SceneModel {
        entities: s.entities + Seq::new(
            specs.len(),
            |i: int| entity_of(specs[i], (s.next_id + i) as u64),
        ),
        next_id: (s.next_id + specs.len()) as u64,
        batches: (s.batches + 1) as u64,
        ..s
    }
}

pub open spec fn specs_view(specs: Seq<SpawnSpec>) -> Seq<SpawnSpecModel> {
    specs.map_values(|s: SpawnSpec| s@)
}

pub open spec fn tables_view(ts: Seq<RawSpawnTable>) -> Seq<Seq<(Seq<char>, RawValueModel)>> {
    ts.map_values(|t: RawSpawnTable| t@)
}

/// The specs of the tables that pass validation, in order.
pub open spec fn accepted(ts: Seq<Seq<(Seq<char>, RawValueModel)>>) -> Seq<SpawnSpecModel>
    decreases ts.len(),
{
    if ts.len() == 0 {
        Seq::empty()
    } else {
        let prev = accepted(ts.drop_last());
        match validated(ts.last()) {
            Ok(s) => prev.push(s),
            Err(_) => prev,
        }
    }
}

/// What a batch reports for each table: the handle of the entity it created,
/// or why it was rejected. Accepted tables take consecutive handles from `base`.
pub open spec fn batch_outcome(ts: Seq<Seq<(Seq<char>, RawValueModel)>>, base: u64) -> Seq<
    Result<u64, SpawnError>,
>
    decreases ts.len(),
{
    if ts.len() == 0 {
        Seq::empty()
    } else {
        let prev = batch_outcome(ts.drop_last(), base);
        match validated(ts.last()) {
            Ok(_) => prev.push(Ok((base + accepted(ts.drop_last()).len()) as u64)),
            Err(e) => prev.push(Err(e)),
        }
    }
}

/// A rejected table creates nothing: appending it to a batch leaves the
/// specs handed to creation as they were.
pub proof fn lemma_rejected_table_creates_nothing(
    ts: Seq<Seq<(Seq<char>, RawValueModel)>>,
    t: Seq<(Seq<char>, RawValueModel)>,
)
    requires
        validated(t) is Err,
    ensures
        accepted(ts.push(t)) == accepted(ts),
{
    assert(ts.push(t).drop_last() =~= ts);
}

fn create_entity(s: &SpawnSpec, id: u64) -> (e: EntitySnapshot)
    ensures
        e@ == entity_of(s@, id),
{
    EntitySnapshot {
        id,
        name: match &s.name {
            Some(n) => Some(n.clone()),
            None => None,
        },
        shape: s.shape,
        x: s.x,
        y: s.y,
        rotation: s.rotation,
        x_vel: s.x_vel,
        y_vel: s.y_vel,
        rotvel: s.rotvel,
        mass: s.mass,
        friction: s.friction,
        restitution: s.restitution,
        color: s.color,
        status: s.status,
    }
}

impl Scene {
    /// An empty, running scene with the given gravity.
    pub fn new(gravity: i64) -> (r: Scene)
        ensures
            r@.gravity == gravity,
            !r@.paused,
            r@.entities.len() == 0,
            r@.next_id == 0,
            r@.batches == 0,
            r@.wf(),
    {
        Scene { gravity, paused: false, entities: Vec::new(), next_id: 0, batches: 0 }
    }

    /// Creates one entity per spec, in order, then finalizes the batch once.
    /// Returns the handles of the new entities.
    pub fn apply(&mut self, specs: &Vec<SpawnSpec>) -> (r: Vec<u64>)
        requires
            old(self)@.wf(),
            old(self).next_id + specs@.len() <= u64::MAX,
            old(self).batches < u64::MAX,
        ensures
            final(self)@ == applied(old(self)@, specs_view(specs@)),
            final(self)@.wf(),
            r@ == Seq::new(specs@.len(), |i: int| (old(self).next_id + i) as u64),
    {
        let ghost start = self@;
        let mut ids: Vec<u64> = Vec::new();
        let mut k: usize = 0;
        while k < specs.len()
            invariant
                k <= specs@.len(),
                start.wf(),
                start.next_id + specs@.len() <= u64::MAX,
                self@ == (SceneModel {
                    entities: start.entities + Seq::new(
                        k as nat,
                        |i: int| entity_of(specs@[i]@, (start.next_id + i) as u64),
                    ),
                    next_id: (start.next_id + k) as u64,
                    ..start
                }),
                ids@ == Seq::new(k as nat, |i: int| (start.next_id + i) as u64),
            decreases specs@.len() - k,
        {
            let id = self.next_id;
            let e = create_entity(&specs[k], id);
            let ghost prev = self.entities@;
            self.entities.push(e);
            assert(self.entities@.map_values(|e: EntitySnapshot| e@) =~= prev.map_values(
                |e: EntitySnapshot| e@,
            ).push(e@));
            self.next_id = self.next_id + 1;
            ids.push(id);
            k = k + 1;
            assert(self@.entities =~= start.entities + Seq::new(
                k as nat,
                |i: int| entity_of(specs@[i]@, (start.next_id + i) as u64),
            ));
            assert(ids@ =~= Seq::new(k as nat, |i: int| (start.next_id + i) as u64));
        }
        self.batches = self.batches + 1;
        proof {
            let n = start.entities.len();
            assert(self@.entities =~= applied(start, specs_view(specs@)).entities);
            assert forall|i: int, j: int|
                0 <= i < j < self@.entities.len() implies #[trigger] self@.entities[i].id
                < #[trigger] self@.entities[j].id by {
                if j >= n && i < n {
                    assert(start.entities[i].id < start.next_id);
                }
            }
        }
        ids
    }

    /// Validates one table and, if it passes, creates its entity under the
    /// next handle. The batch is not finalized: callers finalize once after
    /// the last table of a batch.
    pub fn process_lua_shape(&mut self, t: &RawSpawnTable) -> (r: Result<u64, SpawnError>)
        requires
            old(self)@.wf(),
            old(self).next_id < u64::MAX,
        ensures
            final(self)@.wf(),
            match validated(t@) {
                Ok(s) => r == Ok::<u64, SpawnError>(old(self).next_id) && final(self)@ == (SceneModel {
                    entities: old(self)@.entities.push(entity_of(s, old(self).next_id)),
                    next_id: (old(self).next_id + 1) as u64,
                    ..old(self)@
                }),
                Err(e) => r == Err::<u64, SpawnError>(e) && final(self)@ == old(self)@,
            },
    {
        match validate(t) {
            Ok(s) => {
                let id = self.next_id;
                let e = create_entity(&s, id);
                let ghost prev = self.entities@;
                self.entities.push(e);
                assert(self.entities@.map_values(|e: EntitySnapshot| e@) =~= prev.map_values(
                    |e: EntitySnapshot| e@,
                ).push(e@));
                self.next_id = self.next_id + 1;
                Ok(id)
            },
            Err(e) => Err(e),
        }
    }

    /// Validates each table; creates the accepted ones, in order, then
    /// finalizes the batch once. A rejected table is reported in its own
    /// entry and does not block the others.
    pub fn process_lua_shapes(&mut self, tables: &Vec<RawSpawnTable>) -> (r: Vec<Result<u64, SpawnError>>)
        requires
            old(self)@.wf(),
            old(self).next_id + tables@.len() <= u64::MAX,
            old(self).batches < u64::MAX,
        ensures
            final(self)@ == applied(old(self)@, accepted(tables_view(tables@))),
            final(self)@.wf(),
            r@ == batch_outcome(tables_view(tables@), old(self).next_id),
    {
        let ghost ts = tables_view(tables@);
        let ghost start = self@;
        let mut out: Vec<Result<u64, SpawnError>> = Vec::new();
        let mut k: usize = 0;
        while k < tables.len()
            invariant
                k <= tables@.len(),
                ts == tables_view(tables@),
                start.next_id + tables@.len() <= u64::MAX,
                start.batches < u64::MAX,
                accepted(ts.subrange(0, k as int)).len() <= k,
                self@.wf(),
                self@ == (SceneModel {
                    entities: start.entities + Seq::new(
                        accepted(ts.subrange(0, k as int)).len(),
                        |i: int| entity_of(accepted(ts.subrange(0, k as int))[i], (start.next_id + i) as u64),
                    ),
                    next_id: (start.next_id + accepted(ts.subrange(0, k as int)).len()) as u64,
                    ..start
                }),
                out@ == batch_outcome(ts.subrange(0, k as int), start.next_id),
            decreases tables@.len() - k,
        {
            let ghost pre = ts.subrange(0, k as int);
            let ghost cur = ts.subrange(0, k + 1);
            assert(cur.drop_last() =~= pre);
            assert(cur.last() == tables@[k as int]@);
            let res = self.process_lua_shape(&tables[k]);
            out.push(res);
            proof {
                let acc = accepted(cur);
                if validated(cur.last()) is Ok {
                    assert(self@.entities =~= start.entities + Seq::new(
                        acc.len(),
                        |i: int| entity_of(acc[i], (start.next_id + i) as u64),
                    ));
                }
            }
            k = k + 1;
        }
        assert(ts.subrange(0, tables@.len() as int) =~= ts);
        self.batches = self.batches + 1;
        proof {
            assert(self@.entities =~= applied(start, accepted(ts)).entities);
        }
        out
    }
}

} // verus!
