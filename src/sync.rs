//! The once-per-frame exchange of global values between the script runtime
//! and the host scene.
use vstd::prelude::*;

use crate::sandbox::ScriptError;
use crate::scene::{accepted, applied, batch_outcome, tables_view, EntityModel, Scene, SceneModel};
use crate::spawn::SpawnError;
use crate::value::{pairs_view, RawSpawnTable};

verus! {

/// The globals through which scripts and host exchange values.
#[derive(PartialEq, Eq, Structural, Clone, Copy, Debug)]
pub enum GlobalSlot {
    Paused,
    Gravity,
    Fps,
    DtMs,
    ScreenX,
    ScreenY,
    MouseX,
    MouseY,
    AddShapes,
    Objects,
}

#[derive(PartialEq, Eq, Structural, Clone, Copy, Debug)]
pub enum Direction {
    HostToScript,
    ScriptToHost,
    Bidirectional,
}

#[derive(PartialEq, Eq, Structural, Clone, Copy, Debug)]
pub enum SlotType {
    Bool,
    Number,
    /// A table from entity names to entity handles.
    Handles,
}

pub open spec fn slot_name(s: GlobalSlot) -> Seq<char> {
    match s {
        GlobalSlot::Paused => "PAUSED"@,
        GlobalSlot::Gravity => "GRAVITY"@,
        GlobalSlot::Fps => "FPS"@,
        GlobalSlot::DtMs => "DT"@,
        GlobalSlot::ScreenX => "SCREEN_X"@,
        GlobalSlot::ScreenY => "SCREEN_Y"@,
        GlobalSlot::MouseX => "MOUSE_X"@,
        GlobalSlot::MouseY => "MOUSE_Y"@,
        GlobalSlot::AddShapes => "ADD_SHAPES"@,
        GlobalSlot::Objects => "OBJECTS"@,
    }
}

pub open spec fn slot_direction(s: GlobalSlot) -> Direction {
    match s {
        GlobalSlot::Paused | GlobalSlot::Gravity => Direction::Bidirectional,
        GlobalSlot::AddShapes => Direction::ScriptToHost,
        _ => Direction::HostToScript,
    }
}

pub open spec fn slot_type(s: GlobalSlot) -> SlotType {
    match s {
        GlobalSlot::Paused | GlobalSlot::AddShapes => SlotType::Bool,
        GlobalSlot::Objects => SlotType::Handles,
        _ => SlotType::Number,
    }
}

impl GlobalSlot {
    /// The name of the global in the script.
    pub fn name(&self) -> (r: &'static str)
        ensures
            r@ == slot_name(*self),
    {
        match self {
            GlobalSlot::Paused => "PAUSED",
            GlobalSlot::Gravity => "GRAVITY",
            GlobalSlot::Fps => "FPS",
            GlobalSlot::DtMs => "DT",
            GlobalSlot::ScreenX => "SCREEN_X",
            GlobalSlot::ScreenY => "SCREEN_Y",
            GlobalSlot::MouseX => "MOUSE_X",
            GlobalSlot::MouseY => "MOUSE_Y",
            GlobalSlot::AddShapes => "ADD_SHAPES",
            GlobalSlot::Objects => "OBJECTS",
        }
    }

    /// Which way values flow through the slot.
    pub fn direction(&self) -> (r: Direction)
        ensures
            r == slot_direction(*self),
    {
        match self {
            GlobalSlot::Paused | GlobalSlot::Gravity => Direction::Bidirectional,
            GlobalSlot::AddShapes => Direction::ScriptToHost,
            _ => Direction::HostToScript,
        }
    }

    /// The type of the values the slot carries.
    pub fn slot_type(&self) -> (r: SlotType)
        ensures
            r == slot_type(*self),
    {
        match self {
            GlobalSlot::Paused | GlobalSlot::AddShapes => SlotType::Bool,
            GlobalSlot::Objects => SlotType::Handles,
            _ => SlotType::Number,
        }
    }
}

/// A script global's value as last read from or written to the runtime.
pub enum ScriptValue {
    Nil,
    Bool(bool),
    /// A number, in thousandths.
    Num(i64),
    Str(String),
    /// A table, function or other value the bridge does not read.
    Other,
}

pub enum ScriptValueModel {
    Nil,
    Bool(bool),
    Num(i64),
    Str(Seq<char>),
    Other,
}

impl View for ScriptValue {
    type V = ScriptValueModel;

    open spec fn view(&self) -> ScriptValueModel {
        match self {
            ScriptValue::Nil => ScriptValueModel::Nil,
            ScriptValue::Bool(b) => ScriptValueModel::Bool(*b),
            ScriptValue::Num(n) => ScriptValueModel::Num(*n),
            ScriptValue::Str(s) => ScriptValueModel::Str(s@),
            ScriptValue::Other => ScriptValueModel::Other,
        }
    }
}

/// The script side of the fixed global slots, and the pending spawn tables
/// queued by `add_shape` / `add_shapes`.
pub struct ScriptGlobals {
    pub paused: ScriptValue,
    pub gravity: ScriptValue,
    pub fps: ScriptValue,
    pub dt_ms: ScriptValue,
    pub screen_x: ScriptValue,
    pub screen_y: ScriptValue,
    pub mouse_x: ScriptValue,
    pub mouse_y: ScriptValue,
    pub add_shapes: ScriptValue,
    /// Entity name to entity handle, valid for the current frame.
    pub objects: Vec<(String, u64)>,
    pub shapes: Vec<RawSpawnTable>,
}

impl ScriptGlobals {
    /// The globals of a fresh runtime: every slot unset and no pending spawns.
    pub fn new() -> (r: ScriptGlobals)
        ensures
            r.paused@ == ScriptValueModel::Nil,
            r.gravity@ == ScriptValueModel::Nil,
            r.fps@ == ScriptValueModel::Nil,
            r.dt_ms@ == ScriptValueModel::Nil,
            r.screen_x@ == ScriptValueModel::Nil,
            r.screen_y@ == ScriptValueModel::Nil,
            r.mouse_x@ == ScriptValueModel::Nil,
            r.mouse_y@ == ScriptValueModel::Nil,
            r.add_shapes@ == ScriptValueModel::Nil,
            r.objects@.len() == 0,
            r.shapes@.len() == 0,
    {
        ScriptGlobals {
            paused: ScriptValue::Nil,
            gravity: ScriptValue::Nil,
            fps: ScriptValue::Nil,
            dt_ms: ScriptValue::Nil,
            screen_x: ScriptValue::Nil,
            screen_y: ScriptValue::Nil,
            mouse_x: ScriptValue::Nil,
            mouse_y: ScriptValue::Nil,
            add_shapes: ScriptValue::Nil,
            objects: Vec::new(),
            shapes: Vec::new(),
        }
    }
}

/// Per-frame values the host offers scripts. Numbers in thousandths, but
/// the screen size in pixels.
pub struct FrameInfo {
    pub fps: i64,
    /// The last frame's duration, in milliseconds.
    pub dt_ms: i64,
    pub screen_w: u16,
    pub screen_h: u16,
    /// The viewport scale along each axis.
    pub scale_x: u32,
    pub scale_y: u32,
    pub mouse_x: i64,
    pub mouse_y: i64,
}

/// The names and handles of the named entities, in entity order.
pub open spec fn named_handles(es: Seq<EntityModel>) -> Seq<(Seq<char>, u64)>
    decreases es.len(),
{
    if es.len() == 0 {
        Seq::empty()
    } else {
        let prev = named_handles(es.drop_last());
        match es.last().name {
            Some(n) => prev.push((n, es.last().id)),
            None => prev,
        }
    }
}

/// A bool read back from a script: the host's value where the global is not a bool.
pub open spec fn pulled_bool(v: ScriptValueModel, host: bool) -> bool {
    match v {
        ScriptValueModel::Bool(b) => b,
        _ => host,
    }
}

/// A number read back from a script: the host's value where the global is not a number.
pub open spec fn pulled_num(v: ScriptValueModel, host: i64) -> i64 {
    match v {
        ScriptValueModel::Num(n) => n,
        _ => host,
    }
}

/// The host scene after reading the bidirectional slots back.
pub open spec fn pulled_scene(s: SceneModel, paused: ScriptValueModel, gravity: ScriptValueModel) -> SceneModel {
    SceneModel { paused: pulled_bool(paused, s.paused), gravity: pulled_num(gravity, s.gravity), ..s }
}

fn named_entities(scene: &Scene) -> (r: Vec<(String, u64)>)
    ensures
        pairs_view(r@) == named_handles(scene@.entities),
{
    let mut out: Vec<(String, u64)> = Vec::new();
    let mut k: usize = 0;
    while k < scene.entities.len()
        invariant
            k <= scene.entities@.len(),
            pairs_view(out@) == named_handles(scene@.entities.subrange(0, k as int)),
        decreases scene.entities@.len() - k,
    {
        let ghost cur = scene@.entities.subrange(0, k + 1);
        assert(cur.drop_last() =~= scene@.entities.subrange(0, k as int));
        let ghost prev = out@;
        let e = &scene.entities[k];
        match &e.name {
            Some(n) => {
                out.push((n.clone(), e.id));
                assert(pairs_view(out@) =~= pairs_view(prev).push((n@, e.id)));
            },
            None => {},
        }
        k = k + 1;
    }
    assert(scene@.entities.subrange(0, scene.entities@.len() as int) =~= scene@.entities);
    out
}

/// Writes the host's values into every slot that flows to the script, and
/// rebuilds `OBJECTS` from the host's named entities. `ADD_SHAPES` and the
/// pending spawns are left as they are.
pub fn push_host_to_script(scene: &Scene, frame: &FrameInfo, g: &mut ScriptGlobals)
    ensures
        final(g).paused@ == ScriptValueModel::Bool(scene.paused),
        final(g).gravity@ == ScriptValueModel::Num(scene.gravity),
        final(g).fps@ == ScriptValueModel::Num(frame.fps),
        final(g).dt_ms@ == ScriptValueModel::Num(frame.dt_ms),
        final(g).screen_x@ == ScriptValueModel::Num((frame.screen_w * frame.scale_x) as i64),
        final(g).screen_y@ == ScriptValueModel::Num((frame.screen_h * frame.scale_y) as i64),
        final(g).mouse_x@ == ScriptValueModel::Num(frame.mouse_x),
        final(g).mouse_y@ == ScriptValueModel::Num(frame.mouse_y),
        pairs_view(final(g).objects@) == named_handles(scene@.entities),
        final(g).add_shapes == old(g).add_shapes,
        final(g).shapes == old(g).shapes,
{
    g.paused = ScriptValue::Bool(scene.paused);
    g.gravity = ScriptValue::Num(scene.gravity);
    g.fps = ScriptValue::Num(frame.fps);
    g.dt_ms = ScriptValue::Num(frame.dt_ms);
    assert(frame.screen_w * frame.scale_x <= 0xffff * 0xffff_ffff) by (nonlinear_arith)
        requires
            frame.screen_w <= 0xffff,
            frame.scale_x <= 0xffff_ffff,
    ;
    assert(frame.screen_h * frame.scale_y <= 0xffff * 0xffff_ffff) by (nonlinear_arith)
        requires
            frame.screen_h <= 0xffff,
            frame.scale_y <= 0xffff_ffff,
    ;
    g.screen_x = ScriptValue::Num((frame.screen_w as u64 * frame.scale_x as u64) as i64);
    g.screen_y = ScriptValue::Num((frame.screen_h as u64 * frame.scale_y as u64) as i64);
    g.mouse_x = ScriptValue::Num(frame.mouse_x);
    g.mouse_y = ScriptValue::Num(frame.mouse_y);
    g.objects = named_entities(scene);
}

/// What a pull hands back: whether the script asked for shapes to be added,
/// and the spawn tables it queued.
pub struct PulledState {
    pub add_shapes: bool,
    pub spawns: Vec<RawSpawnTable>,
}

/// Reads the slots that flow to the host back into the scene, falling back to
/// the host's value where a global is absent or of the wrong type; then sets
/// `ADD_SHAPES` to false and takes the pending spawn tables out of the runtime.
pub fn pull_script_to_host(scene: &mut Scene, g: &mut ScriptGlobals) -> (r: PulledState)
    ensures
        final(scene)@ == pulled_scene(old(scene)@, old(g).paused@, old(g).gravity@),
        final(g).add_shapes@ == ScriptValueModel::Bool(false),
        final(g).shapes@.len() == 0,
        r.add_shapes == (old(g).add_shapes@ == ScriptValueModel::Bool(true)),
        r.spawns@ == old(g).shapes@,
        final(g).paused == old(g).paused,
        final(g).gravity == old(g).gravity,
        final(g).objects == old(g).objects,
{
    match &g.paused {
        ScriptValue::Bool(b) => {
            scene.paused = *b;
        },
        _ => {},
    }
    match &g.gravity {
        ScriptValue::Num(n) => {
            scene.gravity = *n;
        },
        _ => {},
    }
    let add_shapes = match &g.add_shapes {
        ScriptValue::Bool(b) => *b,
        _ => false,
    };
    g.add_shapes = ScriptValue::Bool(false);
    let mut spawns: Vec<RawSpawnTable> = Vec::new();
    std::mem::swap(&mut spawns, &mut g.shapes);
    PulledState { add_shapes, spawns }
}

/// Ends a frame once the script has run: on success, pulls the globals back
/// and creates the entities the script queued, reporting each queued table;
/// on failure, returns the error, leaves the scene untouched and discards
/// what the failed script queued.
pub fn finish_frame(
    scene: &mut Scene,
    g: &mut ScriptGlobals,
    outcome: Result<(), ScriptError>,
) -> (r: Result<Vec<Result<u64, SpawnError>>, ScriptError>)
    requires
        old(scene)@.wf(),
        old(scene).next_id + old(g).shapes@.len() <= u64::MAX,
        old(scene).batches < u64::MAX,
    ensures
        final(scene)@.wf(),
        match outcome {
            Err(e) => {
                &&& r == Err::<Vec<Result<u64, SpawnError>>, ScriptError>(e)
                &&& *final(scene) == *old(scene)
                &&& final(g).shapes@.len() == 0
                &&& final(g).paused == old(g).paused
                &&& final(g).gravity == old(g).gravity
                &&& final(g).fps == old(g).fps
                &&& final(g).dt_ms == old(g).dt_ms
                &&& final(g).screen_x == old(g).screen_x
                &&& final(g).screen_y == old(g).screen_y
                &&& final(g).mouse_x == old(g).mouse_x
                &&& final(g).mouse_y == old(g).mouse_y
                &&& final(g).add_shapes == old(g).add_shapes
                &&& final(g).objects == old(g).objects
            },
            Ok(_) => match r {
                Ok(reports) => {
                    &&& final(scene)@ == applied(
                        pulled_scene(old(scene)@, old(g).paused@, old(g).gravity@),
                        accepted(tables_view(old(g).shapes@)),
                    )
                    &&& reports@ == batch_outcome(tables_view(old(g).shapes@), old(scene).next_id)
                    &&& final(g).add_shapes@ == ScriptValueModel::Bool(false)
                    &&& final(g).shapes@.len() == 0
                },
                Err(_) => false,
            },
        },
{
    match outcome {
        Err(e) => {
            g.shapes = Vec::new();
            Err(e)
        },
        Ok(()) => {
            let pulled = pull_script_to_host(scene, g);
            let reports = scene.process_lua_shapes(&pulled.spawns);
            Ok(reports)
        },
    }
}

} // verus!
