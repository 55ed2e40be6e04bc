//! A verified rendering scaffold: a window, GPU objects, shader programs and
//! a frame loop, with the order of their operations stated in contracts.
//!
//! Nothing in this crate talks to a GPU or to a window system. An operation
//! on a GPU object records the command it stands for in a
//! [`Context`](graphics::context::Context), which keeps the commands in
//! order and follows what they do to the state of the GPU
//! ([`GpuModel`](graphics::model::GpuModel)). A driver outside the crate takes
//! the commands and carries them out. Where the GPU has to answer before the
//! work can go on, as in the building of a shader program, the library asks
//! one question at a time and takes the answer as a value
//! ([`ShaderBuild`](graphics::shader_build::ShaderBuild)).
//!
//! A number in the IEEE 754 binary32 format crosses the boundary of the crate
//! as its 32 bits.

pub mod error;
pub mod graphics;
