use rlua::{Lua, StdLib, Table, Value};
use script_bridge::codec::export_lua;
use script_bridge::sandbox::{ScriptError, MEMORY_LIMIT};
use script_bridge::scene::{EntitySnapshot, Scene};
use script_bridge::spawn::{BodyStatus, Color, Shape};
use script_bridge::sync::{finish_frame, ScriptGlobals, ScriptValue};
use script_bridge::{RawSpawnTable, RawValue, Scalar};

const PRELUDE: &str = r#"
shapes = {}
function add_shape(shape)
    shapes[#shapes+1] = shape
end
function add_shapes(...)
    for _, shape in ipairs{...} do
        add_shape(shape)
    end
end
"#;

fn sandbox() -> Lua {
    let lua = Lua::new_with(StdLib::BASE | StdLib::TABLE | StdLib::MATH | StdLib::STRING);
    lua.set_memory_limit(Some(MEMORY_LIMIT));
    lua.context(|ctx| ctx.load(PRELUDE).exec()).unwrap();
    lua
}

fn milli(v: &Value) -> Option<i64> {
    match v {
        Value::Integer(i) => Some(i * 1000),
        Value::Number(f) => Some((f * 1000.0).round() as i64),
        _ => None,
    }
}

fn raw(v: Value) -> Option<RawValue> {
    if let Some(n) = milli(&v) {
        return Some(RawValue::Num(n));
    }
    match v {
        Value::Boolean(b) => Some(RawValue::Bool(b)),
        Value::String(s) => Some(RawValue::Str(s.to_str().unwrap().to_string())),
        Value::Table(t) => {
            let mut fields = Vec::new();
            for pair in t.pairs::<String, Value>() {
                let (k, v) = pair.unwrap();
                if let Some(n) = milli(&v) {
                    fields.push((k, Scalar::Num(n)));
                }
            }
            Some(RawValue::Table(fields))
        }
        _ => None,
    }
}

fn spawn_table(t: Table) -> RawSpawnTable {
    let mut fields = Vec::new();
    for pair in t.pairs::<String, Value>() {
        let (k, v) = pair.unwrap();
        if let Some(v) = raw(v) {
            fields.push((k, v));
        }
    }
    RawSpawnTable { fields }
}

/// Runs `source` and reads back the globals the host pulls.
fn run(lua: &Lua, source: &str, g: &mut ScriptGlobals) -> Result<(), rlua::Error> {
    lua.context(|ctx| {
        ctx.load(source).exec()?;
        let globals = ctx.globals();
        g.gravity = match milli(&globals.get::<_, Value>("GRAVITY")?) {
            Some(n) => ScriptValue::Num(n),
            None => ScriptValue::Nil,
        };
        let shapes: Vec<Table> = globals.get("shapes")?;
        g.shapes = shapes.into_iter().map(spawn_table).collect();
        Ok(())
    })
}

#[test]
fn runaway_allocation_is_aborted_and_host_kept() {
    let lua = sandbox();
    let mut scene = Scene::new(-9810);
    scene.process_lua_shapes(&vec![]);
    let mut g = ScriptGlobals::new();
    let r = run(&lua, "GRAVITY = 1\nlocal t = {}\nwhile true do t[#t + 1] = #t end", &mut g);
    assert!(matches!(r, Err(rlua::Error::MemoryError(_))));
    let outcome = Err(ScriptError::ResourceLimitExceeded);
    let reports = finish_frame(&mut scene, &mut g, outcome);
    assert!(matches!(reports, Err(ScriptError::ResourceLimitExceeded)));
    assert_eq!(scene.gravity, -9810);
    assert!(!scene.paused);
    assert!(scene.entities.is_empty());
}

#[test]
fn gravity_and_circle_from_a_script() {
    let lua = sandbox();
    let mut scene = Scene::new(-9810);
    let mut g = ScriptGlobals::new();
    run(&lua, "GRAVITY = -20.5\nadd_shape({shape=\"circle\", x=1.0, y=2.0, r=0.5})", &mut g)
        .unwrap();
    let reports = finish_frame(&mut scene, &mut g, Ok(())).ok().unwrap();
    assert_eq!(reports, vec![Ok(0)]);
    assert_eq!(scene.gravity, -20500);
    assert_eq!(scene.entities.len(), 1);
    let e = &scene.entities[0];
    assert_eq!(e.shape, Shape::Circle { r: 500 });
    assert_eq!((e.x, e.y), (1000, 2000));
    assert_eq!((e.mass, e.friction, e.restitution), (1000, 500, 200));
    assert_eq!(e.status, BodyStatus::Dynamic);
    assert_eq!(e.color, Color { r: 255, g: 255, b: 255, a: 255 });
}

#[test]
fn rejected_entry_leaves_siblings_through_a_script() {
    let lua = sandbox();
    let mut scene = Scene::new(0);
    let mut g = ScriptGlobals::new();
    run(
        &lua,
        "add_shapes({shape=\"circle\", x=0, y=0, r=1}, {shape=\"rect\", x=0, y=0, w=-1, h=2}, \
         {shape=\"rect\", x=3, y=0, w=1, h=1})",
        &mut g,
    )
    .unwrap();
    let reports = finish_frame(&mut scene, &mut g, Ok(())).ok().unwrap();
    assert_eq!(reports.len(), 3);
    assert!(reports[0].is_ok() && reports[1].is_err() && reports[2].is_ok());
    assert_eq!(scene.entities.len(), 2);
}

fn entity(id: u64, shape: Shape, status: BodyStatus, x: i64, rgb: (u8, u8, u8)) -> EntitySnapshot {
    EntitySnapshot {
        id,
        name: None,
        shape,
        x,
        y: -1234,
        rotation: 3141,
        x_vel: -5,
        y_vel: 250,
        rotvel: 1,
        mass: 7500,
        friction: 0,
        restitution: 999,
        color: Color { r: rgb.0, g: rgb.1, b: rgb.2, a: 255 },
        status,
    }
}

#[test]
fn exported_scene_reloads_through_lua() {
    let mut scene = Scene::new(-9810);
    scene.entities.push(entity(0, Shape::Circle { r: 125 }, BodyStatus::Static, 1, (0, 0, 0)));
    scene.entities.push(entity(
        1,
        Shape::Rectangle { w: 4000, h: 1 },
        BodyStatus::Kinematic,
        -99999,
        (255, 1, 128),
    ));
    scene.entities.push(entity(2, Shape::Circle { r: 2000 }, BodyStatus::Dynamic, 0, (9, 8, 7)));
    scene.next_id = 3;
    let text = export_lua(&scene);

    let lua = sandbox();
    let mut g = ScriptGlobals::new();
    run(&lua, &text, &mut g).unwrap();
    let mut fresh = Scene::new(0);
    let reports = finish_frame(&mut fresh, &mut g, Ok(())).ok().unwrap();
    assert_eq!(reports, vec![Ok(0), Ok(1), Ok(2)]);
    assert_eq!(fresh.gravity, -9810);
    for (a, b) in fresh.entities.iter().zip(scene.entities.iter()) {
        assert_eq!(a.shape, b.shape);
        assert_eq!((a.x, a.y, a.rotation), (b.x, b.y, b.rotation));
        assert_eq!((a.x_vel, a.y_vel, a.rotvel), (b.x_vel, b.y_vel, b.rotvel));
        assert_eq!((a.mass, a.friction, a.restitution), (b.mass, b.friction, b.restitution));
        assert_eq!(a.color, b.color);
        assert_eq!(a.status, b.status);
    }
}
