//! Recording the screen, a camera, or both in one picture.

pub mod camera;
pub mod permissions;
pub mod pip;
pub mod process_manager;
pub mod screen;
pub mod session;
