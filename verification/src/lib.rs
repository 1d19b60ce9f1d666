//! Fixed-point first-person camera for a single-cube rendering demo.
//!
//! The library owns the state and the arithmetic of the demo: keyboard and
//! mouse bookkeeping, camera orientation and movement, and the derivation of
//! the view matrix. All quantities are integers under documented scales, so
//! every update is exact and carries a verified contract. The rendering host
//! (shader compilation, buffer upload, draw calls, event wiring and the
//! floating-point trigonometry that turns angles into a basis) stays outside
//! the library and exchanges plain scaled integers with it.

pub mod camera;
pub mod input_handler;
pub mod vec3;
