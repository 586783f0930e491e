//! Engine-independent core of a small interactive 3D scene viewer: a ground
//! plane, a textured cube, a point light and a free-flying camera.
//!
//! The crate decides; the host engine acts. Every function here maps plain
//! input state (which keys are held, which buttons were just pressed) to a
//! plain description of what the engine should do next, and the scene itself
//! is a list of spawn descriptions. Quantities that the engine treats as
//! real numbers are carried as thousandths in integers, see [`units`].

pub mod camera;
pub mod cursor;
pub mod scene;
pub mod units;
