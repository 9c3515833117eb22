//! The verified core of a wireframe demo: where each vertex of a subdivided
//! triangle stands, how vertices connect into lines and faces, when a
//! device-side buffer has to be refreshed, and what each frame has to do.
//!
//! Everything here works on integers and plain enums. Coordinates, colours
//! and the device itself belong to the program around this library.

pub mod error;
pub mod layout;
pub mod indices;
pub mod mesh;
pub mod sync;
pub mod driver;
pub mod scene;
pub mod timer;
