use vstd::prelude::*;
use crate::graphics::command::ShaderStage;

verus! {

/// A failure of setup after which no further work is defined.
#[derive(Clone, Copy, Debug, PartialEq, Eq, Structural)]
pub enum FatalSetupError {
    /// The window, or its rendering context, could not be created.
    WindowCreation,
    /// The source text of a shader could not be read.
    ShaderSourceUnreadable(ShaderStage),
    /// The source text of a shader holds a zero byte, which would end the text
    /// early.
    ShaderSourceMalformed(ShaderStage),
    /// The GPU handed out no vertex array, or one that is already in use.
    VertexArrayAllocation,
    /// The GPU handed out no buffer, or one that is already in use.
    BufferAllocation,
    /// The GPU handed out no shader object.
    ShaderAllocation(ShaderStage),
    /// The GPU handed out no program, or one that is already in use.
    ProgramAllocation,
    /// The driver answered a build request with a reply of another kind.
    UnexpectedReply,
}

} // verus!
