//! Decision logic of a spatial Wayland compositor: key and button code
//! tables, keyboard focus, camera movement keys, the input routing state
//! machine, crosshair hit selection, texture bookkeeping and the placeholder
//! texture pattern.

pub mod keys;
pub mod texture;
pub mod input;
pub mod movement;
pub mod session;
pub mod crosshair;
