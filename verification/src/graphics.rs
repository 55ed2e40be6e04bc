//! The window, the GPU objects, the commands they record and the state those
//! commands change.

pub mod command;
pub mod context;
pub mod model;
pub mod scene;
pub mod shader_build;
mod slots;
pub mod window;
pub mod wrapper;
