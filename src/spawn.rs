//! Validation of script-authored spawn tables into spawn specifications.
use vstd::prelude::*;

use crate::text::str_eq;
use crate::value::{
    find_key, lookup, pairs_view, RawSpawnTable, RawValue, RawValueModel, Scalar, ScalarModel,
};

verus! {

/// Mass given to an object whose table names none (1.0).
pub const DEFAULT_MASS: i64 = 1000;

/// Restitution given to an object whose table names none (0.2).
pub const DEFAULT_RESTITUTION: i64 = 200;

/// Friction given to an object whose table names none (0.5).
pub const DEFAULT_FRICTION: i64 = 500;

/// The largest color channel, as a script number (255).
pub const CHANNEL_MAX: i64 = 255000;

#[derive(PartialEq, Eq, Structural, Clone, Copy, Debug)]
pub enum ShapeKind {
    Rectangle,
    Circle,
}

/// The geometry of an object; dimensions in thousandths.
#[derive(PartialEq, Eq, Structural, Clone, Copy, Debug)]
pub enum Shape {
    Rectangle { w: i64, h: i64 },
    Circle { r: i64 },
}

#[derive(PartialEq, Eq, Structural, Clone, Copy, Debug)]
pub enum BodyStatus {
    Static,
    Kinematic,
    Dynamic,
}

#[derive(PartialEq, Eq, Structural, Clone, Copy, Debug)]
pub struct Color {
    pub r: u8,
    pub g: u8,
    pub b: u8,
    pub a: u8,
}

/// Why a spawn table was rejected.
#[derive(PartialEq, Eq, Structural, Clone, Copy, Debug)]
pub enum SpawnError {
    /// No `shape` key holding a string.
    MissingShape,
    /// A `shape` string that names neither a rectangle nor a circle.
    UnknownShape,
    /// `x` or `y` is absent or not a number.
    MissingPosition,
    /// `w` and `h` of a rectangle, or `r` of a circle, absent or not numbers.
    MissingDimension,
    /// A width, height or radius that is zero or negative.
    NonPositiveDimension,
    /// A `color` table whose `r`, `g` or `b`, or a given `a`, is not a whole
    /// number in 0..=255.
    BadColor,
}

/// A validated description of one object to create. Numbers in thousandths.
pub struct SpawnSpec {
    pub shape: Shape,
    pub x: i64,
    pub y: i64,
    pub rotation: i64,
    pub x_vel: i64,
    pub y_vel: i64,
    pub rotvel: i64,
    pub mass: i64,
    pub restitution: i64,
    pub friction: i64,
    pub status: BodyStatus,
    pub name: Option<String>,
    pub color: Color,
}

pub struct SpawnSpecModel {
    pub shape: Shape,
    pub x: i64,
    pub y: i64,
    pub rotation: i64,
    pub x_vel: i64,
    pub y_vel: i64,
    pub rotvel: i64,
    pub mass: i64,
    pub restitution: i64,
    pub friction: i64,
    pub status: BodyStatus,
    pub name: Option<Seq<char>>,
    pub color: Color,
}

pub open spec fn name_view(n: Option<String>) -> Option<Seq<char>> {
    match n {
        Some(s) => Some(s@),
        None => None,
    }
}

impl View for SpawnSpec {
    type V = SpawnSpecModel;

    open spec fn view(&self) -> SpawnSpecModel {
        SpawnSpecModel {
            shape: self.shape,
            x: self.x,
            y: self.y,
            rotation: self.rotation,
            x_vel: self.x_vel,
            y_vel: self.y_vel,
            rotvel: self.rotvel,
            mass: self.mass,
            restitution: self.restitution,
            friction: self.friction,
            status: self.status,
            name: name_view(self.name),
            color: self.color,
        }
    }
}

pub open spec fn result_view(r: Result<SpawnSpec, SpawnError>) -> Result<SpawnSpecModel, SpawnError> {
    match r {
        Ok(s) => Ok(s@),
        Err(e) => Err(e),
    }
}

pub open spec fn white() -> Color {
    Color { r: 255, g: 255, b: 255, a: 255 }
}

/// What `str::to_lowercase` makes of a string.
pub uninterp spec fn lower_of(s: Seq<char>) -> Seq<char>;

/// Relies on `str::to_lowercase`: the lowercase form of a string, which
/// depends on its characters alone.
#[verifier::external_body]
fn lowercase(s: &str) -> (r: String)
    ensures
        r@ == lower_of(s@),
{
    s.to_lowercase()
}

/// The shape kind that a lowercased `shape` string names.
pub open spec fn shape_kind_of(l: Seq<char>) -> Option<ShapeKind> {
    if l == "rectangle"@ || l == "rect"@ {
        Some(ShapeKind::Rectangle)
    } else if l == "circle"@ {
        Some(ShapeKind::Circle)
    } else {
        None
    }
}

/// The status that a lowercased `status` string names; any other string
/// means dynamic.
pub open spec fn status_of(l: Seq<char>) -> BodyStatus {
    if l == "static"@ {
        BodyStatus::Static
    } else if l == "kinematic"@ {
        BodyStatus::Kinematic
    } else {
        BodyStatus::Dynamic
    }
}

pub open spec fn num_at(t: Seq<(Seq<char>, RawValueModel)>, key: Seq<char>) -> Option<i64> {
    match lookup(t, key) {
        Some(RawValueModel::Num(v)) => Some(v),
        _ => None,
    }
}

pub open spec fn num_or(t: Seq<(Seq<char>, RawValueModel)>, key: Seq<char>, d: i64) -> i64 {
    match num_at(t, key) {
        Some(v) => v,
        None => d,
    }
}

pub open spec fn str_at(t: Seq<(Seq<char>, RawValueModel)>, key: Seq<char>) -> Option<Seq<char>> {
    match lookup(t, key) {
        Some(RawValueModel::Str(s)) => Some(s),
        _ => None,
    }
}

pub open spec fn scalar_num_at(t: Seq<(Seq<char>, ScalarModel)>, key: Seq<char>) -> Option<i64> {
    match lookup(t, key) {
        Some(ScalarModel::Num(v)) => Some(v),
        _ => None,
    }
}

/// A color channel written as a script number: a whole number in 0..=255.
pub open spec fn channel_of(v: Option<i64>) -> Option<u8> {
    match v {
        Some(n) => if 0 <= n <= CHANNEL_MAX && n % 1000 == 0 {
            Some((n / 1000) as u8)
        } else {
            None
        },
        None => None,
    }
}

/// The color that a nested `color` table describes; alpha is opaque where
/// absent, and like the others a whole number in 0..=255 where given.
pub open spec fn color_from(t: Seq<(Seq<char>, ScalarModel)>) -> Option<Color> {
    match (
        channel_of(scalar_num_at(t, "r"@)),
        channel_of(scalar_num_at(t, "g"@)),
        channel_of(scalar_num_at(t, "b"@)),
    ) {
        (Some(r), Some(g), Some(b)) => match lookup(t, "a"@) {
            None => Some(Color { r, g, b, a: 255 }),
            Some(_) => match channel_of(scalar_num_at(t, "a"@)) {
                Some(a) => Some(Color { r, g, b, a }),
                None => None,
            },
        },
        _ => None,
    }
}

/// The color of a spawn table: white where `color` is absent or not a table.
pub open spec fn color_at(t: Seq<(Seq<char>, RawValueModel)>) -> Result<Color, SpawnError> {
    match lookup(t, "color"@) {
        Some(RawValueModel::Table(c)) => match color_from(c) {
            Some(color) => Ok(color),
            None => Err(SpawnError::BadColor),
        },
        _ => Ok(white()),
    }
}

/// The geometry of a spawn table of the given kind.
pub open spec fn shape_at(t: Seq<(Seq<char>, RawValueModel)>, kind: ShapeKind) -> Result<Shape, SpawnError> {
    match kind {
        ShapeKind::Rectangle => match (num_at(t, "w"@), num_at(t, "h"@)) {
            (Some(w), Some(h)) => if w > 0 && h > 0 {
                Ok(Shape::Rectangle { w, h })
            } else {
                Err(SpawnError::NonPositiveDimension)
            },
            _ => Err(SpawnError::MissingDimension),
        },
        ShapeKind::Circle => match num_at(t, "r"@) {
            Some(r) => if r > 0 {
                Ok(Shape::Circle { r })
            } else {
                Err(SpawnError::NonPositiveDimension)
            },
            None => Err(SpawnError::MissingDimension),
        },
    }
}

/// The specification that a spawn table describes, or why it is rejected.
/// The checks come in this order: shape name, position, dimensions, color.
pub open spec fn validated(t: Seq<(Seq<char>, RawValueModel)>) -> Result<SpawnSpecModel, SpawnError> {
    match str_at(t, "shape"@) {
        None => Err(SpawnError::MissingShape),
        Some(s) => match shape_kind_of(lower_of(s)) {
            None => Err(SpawnError::UnknownShape),
            Some(kind) => match (num_at(t, "x"@), num_at(t, "y"@)) {
                (Some(x), Some(y)) => match shape_at(t, kind) {
                    Err(e) => Err(e),
                    Ok(shape) => match color_at(t) {
                        Err(e) => Err(e),
                        Ok(color) => Ok(
                            SpawnSpecModel {
                                shape,
                                x,
                                y,
                                rotation: num_or(t, "rotation"@, 0),
                                x_vel: num_or(t, "x_vel"@, 0),
                                y_vel: num_or(t, "y_vel"@, 0),
                                rotvel: num_or(t, "rotvel"@, 0),
                                mass: num_or(t, "mass"@, DEFAULT_MASS),
                                restitution: num_or(t, "elasticity"@, DEFAULT_RESTITUTION),
                                friction: num_or(t, "friction"@, DEFAULT_FRICTION),
                                status: match str_at(t, "status"@) {
                                    Some(s) => status_of(lower_of(s)),
                                    None => BodyStatus::Dynamic,
                                },
                                name: str_at(t, "name"@),
                                color,
                            },
                        ),
                    },
                },
                _ => Err(SpawnError::MissingPosition),
            },
        },
    }
}

/// The shape kind that a lowercased `shape` string names, if any.
pub fn shape_kind_of_lowered(l: &str) -> (r: Option<ShapeKind>)
    ensures
        r == shape_kind_of(l@),
{
    if str_eq(l, "rectangle") || str_eq(l, "rect") {
        Some(ShapeKind::Rectangle)
    } else if str_eq(l, "circle") {
        Some(ShapeKind::Circle)
    } else {
        None
    }
}

/// The status that a lowercased `status` string names; unrecognized
/// strings mean dynamic.
pub fn status_of_lowered(l: &str) -> (r: BodyStatus)
    ensures
        r == status_of(l@),
{
    if str_eq(l, "static") {
        BodyStatus::Static
    } else if str_eq(l, "kinematic") {
        BodyStatus::Kinematic
    } else {
        BodyStatus::Dynamic
    }
}

fn num_field(t: &RawSpawnTable, key: &str) -> (r: Option<i64>)
    ensures
        r == num_at(t@, key@),
{
    match find_key(&t.fields, key) {
        Some(i) => match &t.fields[i].1 {
            RawValue::Num(v) => Some(*v),
            _ => None,
        },
        None => None,
    }
}

fn num_field_or(t: &RawSpawnTable, key: &str, d: i64) -> (r: i64)
    ensures
        r == num_or(t@, key@, d),
{
    match num_field(t, key) {
        Some(v) => v,
        None => d,
    }
}

fn str_field<'a>(t: &'a RawSpawnTable, key: &str) -> (r: Option<&'a String>)
    ensures
        match r {
            Some(s) => str_at(t@, key@) == Some(s@),
            None => str_at(t@, key@) == None::<Seq<char>>,
        },
{
    match find_key(&t.fields, key) {
        Some(i) => match &t.fields[i].1 {
            RawValue::Str(s) => Some(s),
            _ => None,
        },
        None => None,
    }
}

fn channel(f: &Vec<(String, Scalar)>, key: &str) -> (r: Option<u8>)
    ensures
        r == channel_of(scalar_num_at(pairs_view(f@), key@)),
{
    match find_key(f, key) {
        Some(i) => match &f[i].1 {
            Scalar::Num(v) => {
                let v = *v;
                if 0 <= v && v <= CHANNEL_MAX && v % 1000 == 0 {
                    Some((v / 1000) as u8)
                } else {
                    None
                }
            },
            _ => None,
        },
        None => None,
    }
}

fn color_field(t: &RawSpawnTable) -> (r: Result<Color, SpawnError>)
    ensures
        r == color_at(t@),
{
    match find_key(&t.fields, "color") {
        Some(i) => match &t.fields[i].1 {
            RawValue::Table(f) => {
                let r = channel(f, "r");
                let g = channel(f, "g");
                let b = channel(f, "b");
                match (r, g, b) {
                    (Some(r), Some(g), Some(b)) => match find_key(f, "a") {
                        None => Ok(Color { r, g, b, a: 255 }),
                        Some(_) => match channel(f, "a") {
                            Some(a) => Ok(Color { r, g, b, a }),
                            None => Err(SpawnError::BadColor),
                        },
                    },
                    _ => Err(SpawnError::BadColor),
                }
            },
            _ => Ok(Color { r: 255, g: 255, b: 255, a: 255 }),
        },
        None => Ok(Color { r: 255, g: 255, b: 255, a: 255 }),
    }
}

fn shape_field(t: &RawSpawnTable, kind: ShapeKind) -> (r: Result<Shape, SpawnError>)
    ensures
        r == shape_at(t@, kind),
{
    match kind {
        ShapeKind::Rectangle => match (num_field(t, "w"), num_field(t, "h")) {
            (Some(w), Some(h)) => if w > 0 && h > 0 {
                Ok(Shape::Rectangle { w, h })
            } else {
                Err(SpawnError::NonPositiveDimension)
            },
            _ => Err(SpawnError::MissingDimension),
        },
        ShapeKind::Circle => match num_field(t, "r") {
            Some(r) => if r > 0 {
                Ok(Shape::Circle { r })
            } else {
                Err(SpawnError::NonPositiveDimension)
            },
            None => Err(SpawnError::MissingDimension),
        },
    }
}

/// Checks a spawn table against the schema and fills in the defaults of
/// absent optional keys.
pub fn validate(t: &RawSpawnTable) -> (r: Result<SpawnSpec, SpawnError>)
    ensures
        result_view(r) == validated(t@),
{
    let kind = match str_field(t, "shape") {
        None => {
            return Err(SpawnError::MissingShape);
        },
        Some(s) => match shape_kind_of_lowered(lowercase(s.as_str()).as_str()) {
            None => {
                return Err(SpawnError::UnknownShape);
            },
            Some(k) => k,
        },
    };
    let (x, y) = match (num_field(t, "x"), num_field(t, "y")) {
        (Some(x), Some(y)) => (x, y),
        _ => {
            return Err(SpawnError::MissingPosition);
        },
    };
    let shape = match shape_field(t, kind) {
        Ok(s) => s,
        Err(e) => {
            return Err(e);
        },
    };
    let color = match color_field(t) {
        Ok(c) => c,
        Err(e) => {
            return Err(e);
        },
    };
    let status = match str_field(t, "status") {
        Some(s) => status_of_lowered(lowercase(s.as_str()).as_str()),
        None => BodyStatus::Dynamic,
    };
    let name = match str_field(t, "name") {
        Some(s) => Some(s.clone()),
        None => None,
    };
    Ok(
        SpawnSpec {
            shape,
            x,
            y,
            rotation: num_field_or(t, "rotation", 0),
            x_vel: num_field_or(t, "x_vel", 0),
            y_vel: num_field_or(t, "y_vel", 0),
            rotvel: num_field_or(t, "rotvel", 0),
            mass: num_field_or(t, "mass", DEFAULT_MASS),
            restitution: num_field_or(t, "elasticity", DEFAULT_RESTITUTION),
            friction: num_field_or(t, "friction", DEFAULT_FRICTION),
            status,
            name,
            color,
        },
    )
}

/// A valid spawn table: a `shape` string naming a known kind, numeric `x`
/// and `y`, the kind's dimensions, positive, and no malformed `color` table.
pub open spec fn well_formed_table(t: Seq<(Seq<char>, RawValueModel)>) -> bool {
    match str_at(t, "shape"@) {
        Some(s) => match shape_kind_of(lower_of(s)) {
            Some(kind) => {
                &&& num_at(t, "x"@) is Some
                &&& num_at(t, "y"@) is Some
                &&& shape_at(t, kind) is Ok
                &&& color_at(t) is Ok
            },
            None => false,
        },
        None => false,
    }
}

/// Exactly the valid tables pass validation.
pub proof fn lemma_valid_tables_accepted(t: Seq<(Seq<char>, RawValueModel)>)
    ensures
        well_formed_table(t) <==> validated(t) is Ok,
{
}

/// Defaults: a table that validates receives, for every optional key it
/// lacks, the documented value: no rotation or velocity, mass 1.0,
/// restitution 0.2, friction 0.5, dynamic status, no name, opaque white.
pub proof fn lemma_absent_keys_take_defaults(t: Seq<(Seq<char>, RawValueModel)>)
    ensures
        match validated(t) {
            Ok(s) => {
                &&& lookup(t, "rotation"@) is None ==> s.rotation == 0
                &&& lookup(t, "x_vel"@) is None ==> s.x_vel == 0
                &&& lookup(t, "y_vel"@) is None ==> s.y_vel == 0
                &&& lookup(t, "rotvel"@) is None ==> s.rotvel == 0
                &&& lookup(t, "mass"@) is None ==> s.mass == DEFAULT_MASS
                &&& lookup(t, "elasticity"@) is None ==> s.restitution == DEFAULT_RESTITUTION
                &&& lookup(t, "friction"@) is None ==> s.friction == DEFAULT_FRICTION
                &&& lookup(t, "status"@) is None ==> s.status == BodyStatus::Dynamic
                &&& lookup(t, "name"@) is None ==> s.name is None
                &&& lookup(t, "color"@) is None ==> s.color == white()
            },
            Err(_) => true,
        },
{
}

/// A table without a `shape` string, or without the dimensions its shape
/// needs, is rejected.
pub proof fn lemma_missing_shape_or_dimensions_rejected(t: Seq<(Seq<char>, RawValueModel)>)
    ensures
        str_at(t, "shape"@) is None ==> validated(t) == Err::<SpawnSpecModel, SpawnError>(
            SpawnError::MissingShape,
        ),
        match str_at(t, "shape"@) {
            Some(s) => match shape_kind_of(lower_of(s)) {
                Some(ShapeKind::Rectangle) => num_at(t, "w"@) is None || num_at(t, "h"@) is None,
                Some(ShapeKind::Circle) => num_at(t, "r"@) is None,
                None => false,
            },
            None => false,
        } ==> validated(t) is Err,
{
}

} // verus!
