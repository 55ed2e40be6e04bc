use vstd::prelude::*;
use crate::error::FatalSetupError;
use crate::graphics::command::{Command, CommandView};
use crate::graphics::context::Context;
use crate::graphics::shader_build::{
    diagnostic_views, DiagnosticView, Phase, ShaderBuild, ShaderBuildDiagnostic,
};

verus! {

/// A program of the GPU, as a build left it: the handle, and what the
/// compiler and the linker had to say where a step failed. A program with a
/// diagnostic can be bound like any other; what the GPU draws with it is
/// not defined.
///
/// The value owns the handle. It cannot be copied, and
/// [`delete`](ShaderProgram::delete) takes it, so a handle is released at
/// most once.
/// A value that is dropped without it leaves its handle with the GPU until
/// the context ends.
#[derive(Debug)]
pub struct ShaderProgram {
    program_handle: u32,
    diagnostics: Vec<ShaderBuildDiagnostic>,
}

impl ShaderProgram {
    #[verifier::type_invariant]
    spec fn owns_a_handle(&self) -> bool {
        self.program_handle != 0
    }

    /// The handle.
    pub closed spec fn id_spec(&self) -> u32 {
        self.program_handle
    }

    /// The handle, which is never 0.
    #[verifier::when_used_as_spec(id_spec)]
    pub fn id(&self) -> (id: u32)
        ensures
            id == self.id_spec(),
            id != 0,
    {
        proof {
            use_type_invariant(self);
        }
        self.program_handle
    }

    /// What went wrong in the build, oldest first.
    pub closed spec fn diagnostics_spec(&self) -> Seq<DiagnosticView> {
        diagnostic_views(self.diagnostics@)
    }

    /// What went wrong in the build, oldest first.
    pub fn diagnostics(&self) -> (diagnostics: &Vec<ShaderBuildDiagnostic>)
        ensures
            diagnostic_views(diagnostics@) == self.diagnostics_spec(),
    {
        &self.diagnostics
    }

    /// Whether every step of the build succeeded.
    pub fn is_usable(&self) -> (usable: bool)
        ensures
            usable == (self.diagnostics_spec().len() == 0),
    {
        self.diagnostics.len() == 0
    }

    /// Takes ownership of the program that `build` has made, and notes in
    /// `gpu` that the program exists.
    ///
    /// The build must have ended. A build that met a fatal error gives that
    /// error. A build that is through gives its program, with its
    /// diagnostics, whether or not a step failed; only a handle that a
    /// program of `gpu` already has is a fatal error. On an error `gpu` stays
    /// as it was.
    pub fn new(gpu: &mut Context, build: ShaderBuild) -> (made: Result<
        ShaderProgram,
        FatalSetupError,
    >)
        requires
            build@.ended(),
        ensures
            made is Ok <==> build@.phase is Finished && !old(gpu).model().programs.contains(
                build@.program,
            ),
            made matches Ok(program) ==> {
                &&& program.id() == build@.program
                &&& program.diagnostics_spec() == build@.diagnostics
                &&& final(gpu).model() == old(gpu).model().with_program(build@.program)
            },
            made matches Err(error) ==> {
                &&& error == match build@.phase {
                    Phase::Failed(failure) => failure,
                    _ => FatalSetupError::ProgramAllocation,
                }
                &&& final(gpu).model() == old(gpu).model()
            },
            final(gpu).pending() == old(gpu).pending(),
    {
        match build.failure() {
            Some(failure) => Err(failure),
            None => {
                let (program_handle, diagnostics) = build.into_parts();
                if gpu.has_program(program_handle) {
                    return Err(FatalSetupError::ProgramAllocation);
                }
                gpu.adopt_program(program_handle);
                Ok(ShaderProgram { program_handle, diagnostics })
            },
        }
    }

    /// Whether this program is the current one.
    pub fn is_bound(&self, gpu: &Context) -> (bound: bool)
        ensures
            self.id() != 0,
            bound == (gpu.model().program == self.id()),
    {
        proof {
            use_type_invariant(self);
        }
        gpu.bound_program() == self.program_handle
    }

    /// Makes this program the one that draws use.
    pub fn bind(&self, gpu: &mut Context)
        ensures
            self.id() != 0,
            final(gpu).model() == old(gpu).model().apply(
                CommandView::UseProgram { program: self.id() },
            ),
            final(gpu).model().program == self.id(),
            final(gpu).pending() == old(gpu).pending().push(
                CommandView::UseProgram { program: self.id() },
            ),
    {
        proof {
            use_type_invariant(self);
        }
        gpu.record(Command::UseProgram { program: self.program_handle });
    }

    /// Leaves the GPU without a current program.
    pub fn unbind(&self, gpu: &mut Context)
        ensures
            final(gpu).model() == old(gpu).model().apply(CommandView::UseProgram { program: 0 }),
            final(gpu).model().program == 0,
            final(gpu).pending() == old(gpu).pending().push(
                CommandView::UseProgram { program: 0 },
            ),
    {
        gpu.record(Command::UseProgram { program: 0 });
    }

    /// Releases the handle. The program exists no longer; where it is the
    /// current one it stays so until another is bound, and no draw is ready
    /// meanwhile.
    pub fn delete(self, gpu: &mut Context)
        ensures
            final(gpu).model() == old(gpu).model().apply(
                CommandView::DeleteProgram { program: self.id() },
            ),
            !final(gpu).model().programs.contains(self.id()),
            final(gpu).pending() == old(gpu).pending().push(
                CommandView::DeleteProgram { program: self.id() },
            ),
    {
        gpu.record(Command::DeleteProgram { program: self.program_handle });
    }
}

} // verus!
