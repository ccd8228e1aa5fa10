//! A scripting bridge for a 2D physics sandbox: validation of script-authored
//! spawn tables, the per-frame exchange of global values between a script
//! runtime and the host scene, and a serializer that writes the scene back out
//! as loadable script text.
//!
//! Script numbers are held as fixed-point values in thousandths (`1.5` is
//! `1500`), the precision in which scenes are written out.
//!
//! - `value`: untyped script values and their models;
//! - `spawn`: validation of spawn tables into spawn specs;
//! - `scene`: the host scene and the creation of entities in batches;
//! - `sandbox`: the limits scripts run under and how a run fails;
//! - `sync`: the per-frame push and pull of script globals;
//! - `codec`: the scene written out as script text.

mod text;

pub mod codec;
pub mod sandbox;
pub mod scene;
pub mod spawn;
pub mod sync;
pub mod value;

pub use value::{RawSpawnTable, RawValue, Scalar};
