//! A minimal real-time 3D rendering core: typed GPU buffer slots, binding and
//! pipeline descriptors, input tracking, light and instance state, and the
//! per-frame orchestration that sequences resize, update and draw.
//!
//! Floating-point quantities (positions, colors, matrix entries) are carried
//! as their IEEE-754 bit patterns in `u32`/`u64` fields; all arithmetic on
//! them is done by the unverified front end, while this crate owns layout,
//! ordering and state invariants.

pub mod buffers;
pub mod camera;
pub mod codec;
pub mod commands;
pub mod input;
pub mod light;
pub mod quad;
pub mod renderer;
pub mod vertex;
