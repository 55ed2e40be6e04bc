//! The GPU objects: each owns one handle and records the commands that act
//! on it.

pub mod buffer_object;
pub mod color;
pub mod shader_program;
pub mod vertex_array_object;
pub mod vertex_attribute_pointer;
