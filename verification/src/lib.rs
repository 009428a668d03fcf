//! An orbit-camera controller in exact integer arithmetic.
//!
//! Once per frame the controller turns the pointer movement and the scroll
//! events of that frame into the camera's next orientation and position. A
//! drag, which is pointer movement while the primary button is held, changes
//! yaw and pitch; the pitch stops at the ends of a configured range. Each
//! scroll event moves the camera along its view direction.
//!
//! The controller works on plain numbers. It holds an orientation as the
//! three angles of a yaw-pitch-roll decomposition, and is handed the view
//! direction as a vector: taking a rotation apart into these angles, putting
//! it together again and rotating the forward axis are left to the engine
//! that owns the camera.
//!
//! Every quantity that enters the controller is a whole number of millionths
//! of its unit: a pointer movement, a scroll amount, a sensitivity, a
//! component of the view direction. A product of two such numbers is a whole
//! number of millionths of millionths, and that is the resolution of an
//! angle; a product of three is the resolution of a position. Nothing is
//! ever rounded, so what is proved here are equalities.

pub mod angle;
pub mod controller;
pub mod input;
pub mod scale;
pub mod settings;
pub mod theorems;
pub mod transform;
