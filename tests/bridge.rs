use script_bridge::codec::{
    entity_literal, export_lua, exported_fields, format_decimal, format_milli, table_literal,
};
use script_bridge::sandbox::{
    allowed_libraries, classify, InstructionBudget, LuaFailure, ScriptError, StdLibrary,
};
use script_bridge::scene::{EntitySnapshot, Scene};
use script_bridge::spawn::{
    shape_kind_of_lowered, status_of_lowered, validate, BodyStatus, Color, Shape,
    ShapeKind, SpawnError,
};
use script_bridge::sync::{
    finish_frame, pull_script_to_host, push_host_to_script, FrameInfo, GlobalSlot, ScriptGlobals,
    ScriptValue,
};
use script_bridge::{RawSpawnTable, RawValue, Scalar};

fn num(k: &str, v: i64) -> (String, RawValue) {
    (k.to_string(), RawValue::Num(v))
}

fn text(k: &str, v: &str) -> (String, RawValue) {
    (k.to_string(), RawValue::Str(v.to_string()))
}

fn table(fields: Vec<(String, RawValue)>) -> RawSpawnTable {
    RawSpawnTable { fields }
}

fn color(channels: &[(&str, i64)]) -> (String, RawValue) {
    let fields = channels.iter().map(|(k, v)| (k.to_string(), Scalar::Num(*v))).collect();
    ("color".to_string(), RawValue::Table(fields))
}

fn circle(x: i64, y: i64, r: i64) -> RawSpawnTable {
    table(vec![text("shape", "circle"), num("x", x), num("y", y), num("r", r)])
}

const WHITE: Color = Color { r: 255, g: 255, b: 255, a: 255 };

#[test]
fn circle_takes_documented_defaults() {
    let spec = validate(&circle(1000, 2000, 500)).unwrap();
    assert_eq!(spec.shape, Shape::Circle { r: 500 });
    assert_eq!((spec.x, spec.y), (1000, 2000));
    assert_eq!((spec.rotation, spec.x_vel, spec.y_vel, spec.rotvel), (0, 0, 0, 0));
    assert_eq!(spec.mass, 1000);
    assert_eq!(spec.restitution, 200);
    assert_eq!(spec.friction, 500);
    assert_eq!(spec.status, BodyStatus::Dynamic);
    assert_eq!(spec.name, None);
    assert_eq!(spec.color, WHITE);
}

#[test]
fn given_optional_keys_override_defaults() {
    let t = table(vec![
        text("shape", "Rectangle"),
        num("x", -3000),
        num("y", 4500),
        num("w", 2000),
        num("h", 1000),
        num("mass", 2500),
        num("elasticity", 900),
        num("friction", 100),
        num("rotation", 1571),
        num("x_vel", 7),
        num("y_vel", -8),
        num("rotvel", 9),
        text("status", "KINEMATIC"),
        text("name", "crate"),
        color(&[("r", 10000), ("g", 20000), ("b", 30000), ("a", 128000)]),
    ]);
    let spec = validate(&t).unwrap();
    assert_eq!(spec.shape, Shape::Rectangle { w: 2000, h: 1000 });
    assert_eq!((spec.x, spec.y), (-3000, 4500));
    assert_eq!((spec.mass, spec.restitution, spec.friction), (2500, 900, 100));
    assert_eq!((spec.rotation, spec.x_vel, spec.y_vel, spec.rotvel), (1571, 7, -8, 9));
    assert_eq!(spec.status, BodyStatus::Kinematic);
    assert_eq!(spec.name, Some("crate".to_string()));
    assert_eq!(spec.color, Color { r: 10, g: 20, b: 30, a: 128 });
}

#[test]
fn optional_keys_of_wrong_type_take_defaults() {
    let t = table(vec![
        text("shape", "circle"),
        num("x", 0),
        num("y", 0),
        num("r", 1000),
        text("mass", "heavy"),
        num("status", 3000),
        num("name", 5000),
        text("color", "red"),
    ]);
    let spec = validate(&t).unwrap();
    assert_eq!(spec.mass, 1000);
    assert_eq!(spec.status, BodyStatus::Dynamic);
    assert_eq!(spec.name, None);
    assert_eq!(spec.color, WHITE);
}

#[test]
fn unknown_status_falls_back_to_dynamic() {
    let mut t = circle(0, 0, 1000);
    t.fields.push(text("status", "floating"));
    assert_eq!(validate(&t).unwrap().status, BodyStatus::Dynamic);
    let mut s = circle(0, 0, 1000);
    s.fields.push(text("status", "Static"));
    assert_eq!(validate(&s).unwrap().status, BodyStatus::Static);
}

#[test]
fn first_occurrence_of_a_key_counts() {
    let mut t = circle(1000, 0, 1000);
    t.fields.push(num("x", 9000));
    assert_eq!(validate(&t).unwrap().x, 1000);
}

#[test]
fn missing_shape_is_rejected() {
    let t = table(vec![num("x", 0), num("y", 0), num("r", 1000)]);
    assert_eq!(validate(&t).err(), Some(SpawnError::MissingShape));
    let u = table(vec![num("shape", 1000), num("x", 0), num("y", 0), num("r", 1000)]);
    assert_eq!(validate(&u).err(), Some(SpawnError::MissingShape));
}

#[test]
fn unknown_shape_is_rejected() {
    let t = table(vec![text("shape", "triangle"), num("x", 0), num("y", 0)]);
    assert_eq!(validate(&t).err(), Some(SpawnError::UnknownShape));
}

#[test]
fn missing_position_is_rejected() {
    let t = table(vec![text("shape", "circle"), num("x", 0), num("r", 1000)]);
    assert_eq!(validate(&t).err(), Some(SpawnError::MissingPosition));
}

#[test]
fn missing_dimensions_are_rejected() {
    let t = table(vec![text("shape", "rect"), num("x", 0), num("y", 0), num("w", 1000)]);
    assert_eq!(validate(&t).err(), Some(SpawnError::MissingDimension));
    let c = table(vec![text("shape", "circle"), num("x", 0), num("y", 0)]);
    assert_eq!(validate(&c).err(), Some(SpawnError::MissingDimension));
}

#[test]
fn non_positive_dimensions_are_rejected() {
    assert_eq!(validate(&circle(0, 0, 0)).err(), Some(SpawnError::NonPositiveDimension));
    assert_eq!(validate(&circle(0, 0, -5)).err(), Some(SpawnError::NonPositiveDimension));
}

#[test]
fn malformed_color_is_rejected() {
    let mut t = circle(0, 0, 1000);
    t.fields.push(color(&[("r", 256000), ("g", 0), ("b", 0)]));
    assert_eq!(validate(&t).err(), Some(SpawnError::BadColor));
    let mut u = circle(0, 0, 1000);
    u.fields.push(color(&[("r", 1500), ("g", 0), ("b", 0)]));
    assert_eq!(validate(&u).err(), Some(SpawnError::BadColor));
    let mut v = circle(0, 0, 1000);
    v.fields.push(color(&[("r", 0), ("g", 0)]));
    assert_eq!(validate(&v).err(), Some(SpawnError::BadColor));
}

#[test]
fn alpha_defaults_to_opaque() {
    let mut t = circle(0, 0, 1000);
    t.fields.push(color(&[("r", 1000), ("g", 2000), ("b", 3000)]));
    assert_eq!(validate(&t).unwrap().color, Color { r: 1, g: 2, b: 3, a: 255 });
    let mut u = circle(0, 0, 1000);
    u.fields.push(color(&[("r", 1000), ("g", 2000), ("b", 3000), ("a", 64000)]));
    assert_eq!(validate(&u).unwrap().color, Color { r: 1, g: 2, b: 3, a: 64 });
}

#[test]
fn invalid_alpha_is_rejected_like_other_channels() {
    let mut t = circle(0, 0, 1000);
    t.fields.push(color(&[("r", 1000), ("g", 2000), ("b", 3000), ("a", 999000)]));
    assert_eq!(validate(&t).err(), Some(SpawnError::BadColor));
    let mut u = circle(0, 0, 1000);
    let fields = vec![
        ("r".to_string(), Scalar::Num(0)),
        ("g".to_string(), Scalar::Num(0)),
        ("b".to_string(), Scalar::Num(0)),
        ("a".to_string(), Scalar::Str("opaque".to_string())),
    ];
    u.fields.push(("color".to_string(), RawValue::Table(fields)));
    assert_eq!(validate(&u).err(), Some(SpawnError::BadColor));
}

#[test]
fn words_match_ignoring_case() {
    let shaped = |w: &str| validate(&table(vec![text("shape", w), num("x", 0), num("y", 0), num("r", 1000), num("w", 1000), num("h", 1000)])).unwrap().shape;
    assert_eq!(shaped("CIRCLE"), Shape::Circle { r: 1000 });
    assert_eq!(shaped("ReCt"), Shape::Rectangle { w: 1000, h: 1000 });
    assert_eq!(shaped("Rectangle"), Shape::Rectangle { w: 1000, h: 1000 });
    let status = |w: &str| {
        let mut t = circle(0, 0, 1000);
        t.fields.push(text("status", w));
        validate(&t).unwrap().status
    };
    assert_eq!(status("STATIC"), BodyStatus::Static);
    assert_eq!(status("\u{212A}inematic"), BodyStatus::Kinematic);
    assert_eq!(status("kinematic!"), BodyStatus::Dynamic);
    assert_eq!(shape_kind_of_lowered("circle"), Some(ShapeKind::Circle));
    assert_eq!(shape_kind_of_lowered("rectangle"), Some(ShapeKind::Rectangle));
    assert_eq!(shape_kind_of_lowered("rect"), Some(ShapeKind::Rectangle));
    assert_eq!(shape_kind_of_lowered("Rect"), None);
    assert_eq!(shape_kind_of_lowered("square"), None);
    assert_eq!(status_of_lowered("static"), BodyStatus::Static);
    assert_eq!(status_of_lowered("kinematic"), BodyStatus::Kinematic);
    assert_eq!(status_of_lowered("Static"), BodyStatus::Dynamic);
    assert_eq!(status_of_lowered(""), BodyStatus::Dynamic);
}

#[test]
fn exported_words_lowercase_to_the_schema_words() {
    assert_eq!("Circle".to_lowercase(), "circle");
    assert_eq!("Rect".to_lowercase(), "rect");
    for w in ["static", "kinematic", "dynamic"] {
        assert_eq!(w.to_lowercase(), w);
    }
}

#[test]
fn negative_width_entry_is_rejected_while_siblings_spawn() {
    let mut scene = Scene::new(-9810);
    let bad = table(vec![
        text("shape", "rect"),
        num("x", 0),
        num("y", 0),
        num("w", -1000),
        num("h", 2000),
    ]);
    let tables = vec![circle(0, 0, 1000), bad, circle(5000, 5000, 2000)];
    let reports = scene.process_lua_shapes(&tables);
    assert_eq!(reports, vec![Ok(0), Err(SpawnError::NonPositiveDimension), Ok(1)]);
    assert_eq!(scene.entities.len(), 2);
    assert_eq!(scene.entities[1].shape, Shape::Circle { r: 2000 });
    assert_eq!(scene.entities[1].id, 1);
    assert_eq!(scene.next_id, 2);
    assert_eq!(scene.batches, 1);
}

#[test]
fn apply_creates_in_order_and_finalizes_once() {
    let mut scene = Scene::new(0);
    let specs = vec![
        validate(&circle(1000, 0, 100)).unwrap(),
        validate(&circle(2000, 0, 200)).unwrap(),
        validate(&circle(3000, 0, 300)).unwrap(),
    ];
    let ids = scene.apply(&specs);
    assert_eq!(ids, vec![0, 1, 2]);
    let xs: Vec<i64> = scene.entities.iter().map(|e| e.x).collect();
    assert_eq!(xs, vec![1000, 2000, 3000]);
    assert_eq!(scene.batches, 1);
    let more = scene.apply(&vec![]);
    assert!(more.is_empty());
    assert_eq!(scene.batches, 2);
}

#[test]
fn script_gravity_and_circle_after_one_cycle() {
    let mut scene = Scene::new(-9810);
    let mut globals = ScriptGlobals::new();
    let frame = FrameInfo {
        fps: 60000,
        dt_ms: 16000,
        screen_w: 800,
        screen_h: 600,
        scale_x: 1000,
        scale_y: 1000,
        mouse_x: 0,
        mouse_y: 0,
    };
    push_host_to_script(&scene, &frame, &mut globals);
    // What the script `GRAVITY = -20.5; add_shape({shape="circle", x=1.0, y=2.0, r=0.5})` leaves.
    globals.gravity = ScriptValue::Num(-20500);
    globals.shapes.push(circle(1000, 2000, 500));
    let reports = finish_frame(&mut scene, &mut globals, Ok(())).ok().unwrap();
    assert_eq!(reports, vec![Ok(0)]);
    assert_eq!(scene.gravity, -20500);
    assert_eq!(scene.entities.len(), 1);
    let e = &scene.entities[0];
    assert_eq!(e.shape, Shape::Circle { r: 500 });
    assert_eq!((e.x, e.y), (1000, 2000));
    assert_eq!((e.mass, e.friction, e.restitution), (1000, 500, 200));
    assert_eq!(e.status, BodyStatus::Dynamic);
    assert_eq!(e.color, WHITE);
}

#[test]
fn add_shapes_is_false_after_pull() {
    for before in [ScriptValue::Bool(true), ScriptValue::Bool(false), ScriptValue::Nil, ScriptValue::Num(3)] {
        let mut scene = Scene::new(0);
        let mut globals = ScriptGlobals::new();
        let was_true = matches!(before, ScriptValue::Bool(true));
        globals.add_shapes = before;
        globals.shapes.push(circle(0, 0, 1000));
        let pulled = pull_script_to_host(&mut scene, &mut globals);
        assert!(matches!(globals.add_shapes, ScriptValue::Bool(false)));
        assert_eq!(pulled.add_shapes, was_true);
        assert_eq!(pulled.spawns.len(), 1);
        assert!(globals.shapes.is_empty());
    }
}

#[test]
fn pull_keeps_host_values_for_missing_or_mistyped_globals() {
    let mut scene = Scene::new(-9810);
    scene.paused = true;
    let mut globals = ScriptGlobals::new();
    globals.gravity = ScriptValue::Str("down".to_string());
    pull_script_to_host(&mut scene, &mut globals);
    assert_eq!(scene.gravity, -9810);
    assert!(scene.paused);
    globals.paused = ScriptValue::Bool(false);
    globals.gravity = ScriptValue::Num(1500);
    pull_script_to_host(&mut scene, &mut globals);
    assert_eq!(scene.gravity, 1500);
    assert!(!scene.paused);
}

#[test]
fn push_writes_host_values_and_rebuilds_objects() {
    let mut scene = Scene::new(-9810);
    let mut named = circle(0, 0, 1000);
    named.fields.push(text("name", "ball"));
    scene.process_lua_shapes(&vec![circle(0, 0, 1000), named]);
    let mut globals = ScriptGlobals::new();
    globals.objects.push(("stale".to_string(), 99));
    globals.add_shapes = ScriptValue::Bool(true);
    let frame = FrameInfo {
        fps: 59500,
        dt_ms: 16000,
        screen_w: 800,
        screen_h: 600,
        scale_x: 1500,
        scale_y: 2000,
        mouse_x: 12000,
        mouse_y: -4000,
    };
    push_host_to_script(&scene, &frame, &mut globals);
    assert!(matches!(globals.paused, ScriptValue::Bool(false)));
    assert!(matches!(globals.gravity, ScriptValue::Num(-9810)));
    assert!(matches!(globals.fps, ScriptValue::Num(59500)));
    assert!(matches!(globals.dt_ms, ScriptValue::Num(16000)));
    assert!(matches!(globals.screen_x, ScriptValue::Num(1_200_000)));
    assert!(matches!(globals.screen_y, ScriptValue::Num(1_200_000)));
    assert!(matches!(globals.mouse_x, ScriptValue::Num(12000)));
    assert!(matches!(globals.mouse_y, ScriptValue::Num(-4000)));
    assert_eq!(globals.objects, vec![("ball".to_string(), 1)]);
    assert!(matches!(globals.add_shapes, ScriptValue::Bool(true)));
}

#[test]
fn failed_run_leaves_host_unchanged() {
    let mut scene = Scene::new(-9810);
    scene.process_lua_shapes(&vec![circle(0, 0, 1000)]);
    let mut globals = ScriptGlobals::new();
    globals.gravity = ScriptValue::Num(5);
    globals.paused = ScriptValue::Bool(true);
    globals.shapes.push(circle(0, 0, 1000));
    let mut budget = InstructionBudget::new(75000);
    let mut outcome = Ok(());
    for _ in 0..10 {
        outcome = budget.charge(75000);
        if outcome.is_err() {
            break;
        }
    }
    assert!(matches!(outcome, Err(ScriptError::ResourceLimitExceeded)));
    let r = finish_frame(&mut scene, &mut globals, outcome);
    assert!(matches!(r, Err(ScriptError::ResourceLimitExceeded)));
    assert_eq!(scene.gravity, -9810);
    assert!(!scene.paused);
    assert_eq!(scene.entities.len(), 1);
    assert!(globals.shapes.is_empty());
    assert!(matches!(globals.gravity, ScriptValue::Num(5)));
}

#[test]
fn budget_counts_until_the_ceiling() {
    let mut budget = InstructionBudget::new(200000);
    assert!(budget.charge(75000).is_ok());
    assert!(budget.charge(75000).is_ok());
    assert_eq!(budget.used, 150000);
    assert!(matches!(budget.charge(75000), Err(ScriptError::ResourceLimitExceeded)));
    assert_eq!(budget.used, 200000);
    assert!(budget.charge(0).is_err());
}

#[test]
fn sandbox_library_allowlist() {
    assert_eq!(
        allowed_libraries(),
        vec![StdLibrary::Base, StdLibrary::Table, StdLibrary::Math, StdLibrary::Strings]
    );
}

#[test]
fn slot_names_and_directions() {
    assert_eq!(GlobalSlot::Gravity.name(), "GRAVITY");
    assert_eq!(GlobalSlot::DtMs.name(), "DT");
    assert_eq!(GlobalSlot::AddShapes.name(), "ADD_SHAPES");
    assert_eq!(GlobalSlot::Paused.direction(), script_bridge::sync::Direction::Bidirectional);
    assert_eq!(GlobalSlot::AddShapes.direction(), script_bridge::sync::Direction::ScriptToHost);
    assert_eq!(GlobalSlot::MouseX.direction(), script_bridge::sync::Direction::HostToScript);
    assert_eq!(GlobalSlot::Objects.slot_type(), script_bridge::sync::SlotType::Handles);
}

#[test]
fn milli_values_format_with_three_decimals() {
    assert_eq!(format_milli(0), "0.000");
    assert_eq!(format_milli(5), "0.005");
    assert_eq!(format_milli(-1500), "-1.500");
    assert_eq!(format_milli(9810), "9.810");
    assert_eq!(format_milli(-20500), "-20.500");
    assert_eq!(format_milli(i64::MIN), "-9223372036854775.808");
    assert_eq!(format_milli(i64::MAX), "9223372036854775.807");
    assert_eq!(format_decimal(0), "0");
    assert_eq!(format_decimal(255), "255");
    assert_eq!(format_decimal(u64::MAX), "18446744073709551615");
}

fn sample_entity(shape: Shape, status: BodyStatus) -> EntitySnapshot {
    EntitySnapshot {
        id: 7,
        name: Some("box".to_string()),
        shape,
        x: 1000,
        y: -2500,
        rotation: 785,
        x_vel: 3000,
        y_vel: 0,
        rotvel: -100,
        mass: 1000,
        friction: 500,
        restitution: 200,
        color: Color { r: 255, g: 128, b: 0, a: 255 },
        status,
    }
}

#[test]
fn entity_literal_has_fixed_key_order() {
    let e = sample_entity(Shape::Rectangle { w: 2000, h: 500 }, BodyStatus::Static);
    assert_eq!(
        entity_literal(&e),
        "{shape = \"Rect\", x = 1.000, y = -2.500, rotation = 0.785, x_vel = 3.000, \
         y_vel = 0.000, rotvel = -0.100, w = 2.000, h = 0.500, mass = 1.000, \
         friction = 0.500, elasticity = 0.200, color = {r = 255, g = 128, b = 0}, \
         status = \"static\"}"
    );
}

#[test]
fn export_lists_entities_then_gravity() {
    let mut scene = Scene::new(-9810);
    scene.entities.push(sample_entity(Shape::Circle { r: 500 }, BodyStatus::Dynamic));
    scene.entities.push(sample_entity(Shape::Circle { r: 250 }, BodyStatus::Kinematic));
    let text = export_lua(&scene);
    let first = entity_literal(&scene.entities[0]);
    let second = entity_literal(&scene.entities[1]);
    assert_eq!(text, format!("add_shapes(\n\t{}, \n\t{}\n)\nGRAVITY = -9.810\n", first, second));
    assert!(second.contains("r = 0.250"));
    assert!(second.contains("status = \"kinematic\""));
    let empty = export_lua(&Scene::new(0));
    assert_eq!(empty, "add_shapes(\n\t\n)\nGRAVITY = 0.000\n");
}

#[test]
fn exported_entity_reloads_in_the_same_state() {
    let e = sample_entity(Shape::Rectangle { w: 2000, h: 500 }, BodyStatus::Kinematic);
    // The table that the exported literal of `e` evaluates to.
    let t = table(vec![
        text("shape", "Rect"),
        num("x", 1000),
        num("y", -2500),
        num("rotation", 785),
        num("x_vel", 3000),
        num("y_vel", 0),
        num("rotvel", -100),
        num("w", 2000),
        num("h", 500),
        num("mass", 1000),
        num("friction", 500),
        num("elasticity", 200),
        color(&[("r", 255000), ("g", 128000), ("b", 0)]),
        text("status", "kinematic"),
    ]);
    let mut scene = Scene::new(0);
    assert_eq!(scene.process_lua_shapes(&vec![t]), vec![Ok(0)]);
    let back = &scene.entities[0];
    assert_eq!(back.shape, e.shape);
    assert_eq!((back.x, back.y, back.rotation), (e.x, e.y, e.rotation));
    assert_eq!((back.x_vel, back.y_vel, back.rotvel), (e.x_vel, e.y_vel, e.rotvel));
    assert_eq!((back.mass, back.friction, back.restitution), (e.mass, e.friction, e.restitution));
    assert_eq!(back.color, e.color);
    assert_eq!(back.status, e.status);
}

#[test]
fn single_shape_is_created_without_finalizing() {
    let mut scene = Scene::new(0);
    assert_eq!(scene.process_lua_shape(&circle(4000, 0, 1000)), Ok(0));
    assert_eq!(scene.entities.len(), 1);
    assert_eq!(scene.entities[0].x, 4000);
    assert_eq!(scene.batches, 0);
    assert_eq!(scene.process_lua_shape(&circle(0, 0, -1)), Err(SpawnError::NonPositiveDimension));
    assert_eq!(scene.entities.len(), 1);
    assert_eq!(scene.next_id, 1);
}

#[test]
fn failures_are_classified() {
    let c = |k, ex| classify(k, "scene.lua".to_string(), "boom".to_string(), ex);
    assert!(matches!(c(LuaFailure::Syntax, false), ScriptError::Syntax { ref chunk, ref message } if chunk == "scene.lua" && message == "boom"));
    assert!(matches!(c(LuaFailure::Other, false), ScriptError::Runtime { ref message } if message == "boom"));
    assert!(matches!(c(LuaFailure::Memory, false), ScriptError::ResourceLimitExceeded));
    assert!(matches!(c(LuaFailure::Other, true), ScriptError::ResourceLimitExceeded));
    assert!(matches!(c(LuaFailure::Syntax, true), ScriptError::ResourceLimitExceeded));
}

#[test]
fn tables_render_as_literals() {
    let t = table(vec![
        ("on".to_string(), RawValue::Bool(true)),
        num("n", -1005),
        text("s", "hi"),
        (
            "c".to_string(),
            RawValue::Table(vec![
                ("w".to_string(), Scalar::Num(7000)),
                ("f".to_string(), Scalar::Num(1500)),
                ("z".to_string(), Scalar::Num(-2000)),
                ("q".to_string(), Scalar::Str("x".to_string())),
                ("b".to_string(), Scalar::Bool(false)),
            ]),
        ),
    ]);
    assert_eq!(
        table_literal(&t),
        "{on = true, n = -1.005, s = \"hi\", c = {w = 7, f = 1.500, z = -2.000, q = \"x\", b = false}}"
    );
    assert_eq!(table_literal(&table(vec![])), "{}");
}

#[test]
fn exported_fields_follow_the_key_order() {
    let e = sample_entity(Shape::Circle { r: 500 }, BodyStatus::Dynamic);
    let keys: Vec<String> = exported_fields(&e).fields.into_iter().map(|(k, _)| k).collect();
    assert_eq!(
        keys,
        vec![
            "shape", "x", "y", "rotation", "x_vel", "y_vel", "rotvel", "r", "mass", "friction",
            "elasticity", "color", "status"
        ]
    );
    assert_eq!(entity_literal(&e), table_literal(&exported_fields(&e)));
}
