use vstd::prelude::*;
use crate::error::FatalSetupError;
use crate::graphics::command::ShaderStage;

verus! {

/// The most bytes of a diagnostic log that a build keeps. A longer log is cut
/// off there.
pub const LOG_CAPACITY: usize = 1024;

/// The step of a build that a diagnostic log is about.
#[derive(Clone, Copy, Debug, PartialEq, Eq, Structural)]
pub enum BuildStage {
    /// The compilation of the shader of one stage.
    Compile(ShaderStage),
    /// The linking of the program.
    Link,
}

/// What the compiler or the linker of the GPU had to say about a step that
/// failed. It does not end the build.
#[derive(Debug, PartialEq, Eq)]
pub struct ShaderBuildDiagnostic {
    /// The step that failed.
    pub stage: BuildStage,
    /// The log, at most [`LOG_CAPACITY`] bytes of it.
    pub log: Vec<u8>,
}

/// The mathematical value of a [`ShaderBuildDiagnostic`].
pub struct DiagnosticView {
    pub stage: BuildStage,
    pub log: Seq<u8>,
}

impl View for ShaderBuildDiagnostic {
    type V = DiagnosticView;

    open spec fn view(&self) -> DiagnosticView {
        DiagnosticView { stage: self.stage, log: self.log@ }
    }
}

/// The mathematical value of a list of diagnostics.
pub open spec fn diagnostic_views(diagnostics: Seq<ShaderBuildDiagnostic>) -> Seq<DiagnosticView> {
    diagnostics.map_values(|d: ShaderBuildDiagnostic| d@)
}

/// The part of `log` that a build keeps: all of it up to [`LOG_CAPACITY`]
/// bytes, and the first [`LOG_CAPACITY`] bytes of a longer one.
pub open spec fn kept(log: Seq<u8>) -> Seq<u8> {
    if log.len() > LOG_CAPACITY {
        log.subrange(0, LOG_CAPACITY as int)
    } else {
        log
    }
}

/// What a build asks of the driver next.
#[derive(Clone, Copy, Debug, PartialEq, Eq, Structural)]
pub enum BuildRequest {
    /// Make a shader object of `stage`. Answer: its handle.
    CreateShader { stage: ShaderStage },
    /// Give `shader` the source text of `stage`. Answer: done.
    ShaderSource { shader: u32, stage: ShaderStage },
    /// Compile `shader`. Answer: done.
    CompileShader { shader: u32 },
    /// Ask whether `shader` compiled. Answer: the status.
    CompileStatus { shader: u32 },
    /// Fetch at most `capacity` bytes of the compiler's log for `shader`.
    /// Answer: the log.
    ShaderLog { shader: u32, capacity: usize },
    /// Make a program. Answer: its handle.
    CreateProgram,
    /// Attach `shader` to `program`. Answer: done.
    AttachShader { program: u32, shader: u32 },
    /// Link `program`. Answer: done.
    LinkProgram { program: u32 },
    /// Ask whether `program` linked. Answer: the status.
    LinkStatus { program: u32 },
    /// Fetch at most `capacity` bytes of the linker's log for `program`.
    /// Answer: the log.
    ProgramLog { program: u32, capacity: usize },
    /// Release `shader`. Answer: done.
    DeleteShader { shader: u32 },
}

/// What the driver answers a request with.
#[derive(Debug, PartialEq, Eq)]
pub enum BuildReply {
    /// The request was carried out; it has no result.
    Done,
    /// The handle of the object that was made; 0 where none was.
    Handle(u32),
    /// Whether the step succeeded.
    Status(bool),
    /// The log that was fetched.
    Log(Vec<u8>),
}

/// The mathematical value of a [`BuildReply`].
pub enum ReplyView {
    Done,
    Handle(u32),
    Status(bool),
    Log(Seq<u8>),
}

impl View for BuildReply {
    type V = ReplyView;

    open spec fn view(&self) -> ReplyView {
        match self {
            BuildReply::Done => ReplyView::Done,
            BuildReply::Handle(handle) => ReplyView::Handle(*handle),
            BuildReply::Status(ok) => ReplyView::Status(*ok),
            BuildReply::Log(log) => ReplyView::Log(log@),
        }
    }
}

/// Where a build stands: the request it waits for the answer to, or how it
/// ended.
#[derive(Clone, Copy, Debug, PartialEq, Eq, Structural)]
pub enum Phase {
    CreateShader(ShaderStage),
    ShaderSource(ShaderStage),
    CompileShader(ShaderStage),
    CompileStatus(ShaderStage),
    ShaderLog(ShaderStage),
    CreateProgram,
    AttachShader(ShaderStage),
    LinkProgram,
    LinkStatus,
    ProgramLog,
    DeleteShader(ShaderStage),
    /// The build is through: the program is linked, or has a diagnostic that
    /// says why not, and both shaders are released.
    Finished,
    /// The build met a fatal error and stopped.
    Failed(FatalSetupError),
}

impl Phase {
    /// The phase that follows the work on the shader of `stage`.
    pub open spec fn after_shader(stage: ShaderStage) -> Phase {
        match stage {
            ShaderStage::Vertex => Phase::CreateShader(ShaderStage::Fragment),
            ShaderStage::Fragment => Phase::CreateProgram,
        }
    }

    /// The number of answers that a build in this phase takes at most until
    /// it has ended.
    pub open spec fn rank(self) -> nat {
        match self {
            Phase::CreateShader(ShaderStage::Vertex) => 18,
            Phase::ShaderSource(ShaderStage::Vertex) => 17,
            Phase::CompileShader(ShaderStage::Vertex) => 16,
            Phase::CompileStatus(ShaderStage::Vertex) => 15,
            Phase::ShaderLog(ShaderStage::Vertex) => 14,
            Phase::CreateShader(ShaderStage::Fragment) => 13,
            Phase::ShaderSource(ShaderStage::Fragment) => 12,
            Phase::CompileShader(ShaderStage::Fragment) => 11,
            Phase::CompileStatus(ShaderStage::Fragment) => 10,
            Phase::ShaderLog(ShaderStage::Fragment) => 9,
            Phase::CreateProgram => 8,
            Phase::AttachShader(ShaderStage::Vertex) => 7,
            Phase::AttachShader(ShaderStage::Fragment) => 6,
            Phase::LinkProgram => 5,
            Phase::LinkStatus => 4,
            Phase::ProgramLog => 3,
            Phase::DeleteShader(ShaderStage::Vertex) => 2,
            Phase::DeleteShader(ShaderStage::Fragment) => 1,
            Phase::Finished | Phase::Failed(_) => 0,
        }
    }
}

/// The mathematical value of a [`ShaderBuild`].
pub struct BuildState {
    pub phase: Phase,
    /// The handle of the vertex shader; 0 until the GPU has handed one out.
    pub vertex_shader: u32,
    /// The handle of the fragment shader; 0 until the GPU has handed one out.
    pub fragment_shader: u32,
    /// The handle of the program; 0 until the GPU has handed one out.
    pub program: u32,
    /// What went wrong so far, oldest first.
    pub diagnostics: Seq<DiagnosticView>,
}

impl Phase {
    /// The most diagnostics that a build in this phase can hold: one for
    /// each of the three steps that can fail, once the fetching of its log
    /// lies behind.
    pub open spec fn most_diagnostics(self) -> nat {
        if self is Failed || self is Finished || self.rank() <= 2 {
            3
        } else if self.rank() <= 8 {
            2
        } else if self.rank() <= 13 {
            1
        } else {
            0
        }
    }
}

impl BuildState {
    /// The state of a build that has not asked for anything yet.
    pub open spec fn initial() -> BuildState {
        BuildState {
            phase: Phase::CreateShader(ShaderStage::Vertex),
            vertex_shader: 0,
            fragment_shader: 0,
            program: 0,
            diagnostics: Seq::empty(),
        }
    }

    /// The handle of the shader of `stage`.
    pub open spec fn shader(self, stage: ShaderStage) -> u32 {
        match stage {
            ShaderStage::Vertex => self.vertex_shader,
            ShaderStage::Fragment => self.fragment_shader,
        }
    }

    /// The state with `handle` for the shader of `stage`.
    pub open spec fn with_shader(self, stage: ShaderStage, handle: u32) -> BuildState {
        match stage {
            ShaderStage::Vertex => BuildState { vertex_shader: handle, ..self },
            ShaderStage::Fragment => BuildState { fragment_shader: handle, ..self },
        }
    }

    /// The state in `phase`.
    pub open spec fn at(self, phase: Phase) -> BuildState {
        BuildState { phase, ..self }
    }

    /// The state with one more diagnostic: what is kept of `log`, about
    /// `stage`.
    pub open spec fn with_diagnostic(self, stage: BuildStage, log: Seq<u8>) -> BuildState {
        BuildState {
            diagnostics: self.diagnostics.push(DiagnosticView { stage, log: kept(log) }),
            ..self
        }
    }

    /// Whether the build has ended, well or not.
    pub open spec fn ended(self) -> bool {
        self.phase is Finished || self.phase is Failed
    }

    /// What the build asks of the driver in this state; nothing once it has
    /// ended.
    pub open spec fn request(self) -> Option<BuildRequest> {
        match self.phase {
            Phase::CreateShader(stage) => Some(BuildRequest::CreateShader { stage }),
            Phase::ShaderSource(stage) => Some(
                BuildRequest::ShaderSource { shader: self.shader(stage), stage },
            ),
            Phase::CompileShader(stage) => Some(
                BuildRequest::CompileShader { shader: self.shader(stage) },
            ),
            Phase::CompileStatus(stage) => Some(
                BuildRequest::CompileStatus { shader: self.shader(stage) },
            ),
            Phase::ShaderLog(stage) => Some(
                BuildRequest::ShaderLog { shader: self.shader(stage), capacity: LOG_CAPACITY },
            ),
            Phase::CreateProgram => Some(BuildRequest::CreateProgram),
            Phase::AttachShader(stage) => Some(
                BuildRequest::AttachShader { program: self.program, shader: self.shader(stage) },
            ),
            Phase::LinkProgram => Some(BuildRequest::LinkProgram { program: self.program }),
            Phase::LinkStatus => Some(BuildRequest::LinkStatus { program: self.program }),
            Phase::ProgramLog => Some(
                BuildRequest::ProgramLog { program: self.program, capacity: LOG_CAPACITY },
            ),
            Phase::DeleteShader(stage) => Some(
                BuildRequest::DeleteShader { shader: self.shader(stage) },
            ),
            Phase::Finished | Phase::Failed(_) => None,
        }
    }

    /// The state after the driver has answered the request of this state
    /// with `reply`.
    ///
    /// A step that failed leads to the fetching of its log and then on, as
    /// if it had succeeded. Only an object that the GPU does not hand out,
    /// and an answer of the wrong kind, end the build early. A build that has
    /// ended stays as it is.
    pub open spec fn next(self, reply: ReplyView) -> BuildState {
        match (self.phase, reply) {
            (Phase::Finished, _) | (Phase::Failed(_), _) => self,
            (Phase::CreateShader(stage), ReplyView::Handle(handle)) => if handle == 0 {
                self.at(Phase::Failed(FatalSetupError::ShaderAllocation(stage)))
            } else {
                self.with_shader(stage, handle).at(Phase::ShaderSource(stage))
            },
            (Phase::ShaderSource(stage), ReplyView::Done) => self.at(Phase::CompileShader(stage)),
            (Phase::CompileShader(stage), ReplyView::Done) => self.at(Phase::CompileStatus(stage)),
            (Phase::CompileStatus(stage), ReplyView::Status(ok)) => if ok {
                self.at(Phase::after_shader(stage))
            } else {
                self.at(Phase::ShaderLog(stage))
            },
            (Phase::ShaderLog(stage), ReplyView::Log(log)) => self.with_diagnostic(
                BuildStage::Compile(stage),
                log,
            ).at(Phase::after_shader(stage)),
            (Phase::CreateProgram, ReplyView::Handle(handle)) => if handle == 0 {
                self.at(Phase::Failed(FatalSetupError::ProgramAllocation))
            } else {
                BuildState { program: handle, ..self }.at(
                    Phase::AttachShader(ShaderStage::Vertex),
                )
            },
            (Phase::AttachShader(ShaderStage::Vertex), ReplyView::Done) => self.at(
                Phase::AttachShader(ShaderStage::Fragment),
            ),
            (Phase::AttachShader(ShaderStage::Fragment), ReplyView::Done) => self.at(
                Phase::LinkProgram,
            ),
            (Phase::LinkProgram, ReplyView::Done) => self.at(Phase::LinkStatus),
            (Phase::LinkStatus, ReplyView::Status(ok)) => if ok {
                self.at(Phase::DeleteShader(ShaderStage::Vertex))
            } else {
                self.at(Phase::ProgramLog)
            },
            (Phase::ProgramLog, ReplyView::Log(log)) => self.with_diagnostic(
                BuildStage::Link,
                log,
            ).at(Phase::DeleteShader(ShaderStage::Vertex)),
            (Phase::DeleteShader(ShaderStage::Vertex), ReplyView::Done) => self.at(
                Phase::DeleteShader(ShaderStage::Fragment),
            ),
            (Phase::DeleteShader(ShaderStage::Fragment), ReplyView::Done) => self.at(
                Phase::Finished,
            ),
            _ => self.at(Phase::Failed(FatalSetupError::UnexpectedReply)),
        }
    }

    /// What holds of every state that a build passes through: it has the
    /// handle of each object whose making lies behind it, it has at most one
    /// diagnostic for each step that can fail and lies behind it, and no
    /// diagnostic is longer than [`LOG_CAPACITY`] bytes.
    pub open spec fn sound(self) -> bool {
        &&& !(self.phase is Failed) ==> {
            &&& self.phase.rank() <= 17 ==> self.vertex_shader != 0
            &&& self.phase.rank() <= 12 ==> self.fragment_shader != 0
            &&& self.phase.rank() <= 7 ==> self.program != 0
        }
        &&& self.diagnostics.len() <= self.phase.most_diagnostics()
        &&& forall|i: int|
            0 <= i < self.diagnostics.len() ==> (#[trigger] self.diagnostics[i]).log.len()
                <= LOG_CAPACITY
    }

    /// The state after the driver has given the answers of `replies`, in
    /// order.
    pub open spec fn run(self, replies: Seq<ReplyView>) -> BuildState
        decreases replies.len(),
    {
        if replies.len() == 0 {
            self
        } else {
            self.run(replies.drop_last()).next(replies.last())
        }
    }
}

/// Whether the byte 0 occurs in `text`.
pub open spec fn has_zero_byte(text: Seq<u8>) -> bool {
    exists|i: int| 0 <= i < text.len() && text[i] == 0
}

/// Whether the byte 0 occurs in `text`.
pub fn contains_zero_byte(text: &Vec<u8>) -> (found: bool)
    ensures
        found == has_zero_byte(text@),
{
    let mut i: usize = 0;
    while i < text.len()
        invariant
            i <= text@.len(),
            forall|k: int| 0 <= k < i ==> text@[k] != 0,
        decreases text@.len() - i,
    {
        if text[i] == 0 {
            return true;
        }
        i += 1;
    }
    false
}

/// The outcome of reading and checking the two source texts: the first of
/// these that holds, in this order. The vertex text could not be read; the
/// fragment text could not be read; the vertex text holds a zero byte; the
/// fragment text holds one. Where none holds, the texts are fit to build
/// from.
pub open spec fn source_fault(
    vertex_source: Option<Seq<u8>>,
    fragment_source: Option<Seq<u8>>,
) -> Option<FatalSetupError> {
    if vertex_source is None {
        Some(FatalSetupError::ShaderSourceUnreadable(ShaderStage::Vertex))
    } else if fragment_source is None {
        Some(FatalSetupError::ShaderSourceUnreadable(ShaderStage::Fragment))
    } else if has_zero_byte(vertex_source->0) {
        Some(FatalSetupError::ShaderSourceMalformed(ShaderStage::Vertex))
    } else if has_zero_byte(fragment_source->0) {
        Some(FatalSetupError::ShaderSourceMalformed(ShaderStage::Fragment))
    } else {
        None
    }
}

/// The building of a program from the source texts of a vertex and a
/// fragment shader, one request to the driver at a time.
///
/// The build says what it needs next ([`request`](ShaderBuild::request)); the
/// driver does it and answers ([`reply`](ShaderBuild::reply)); and so on
/// until the build has ended ([`has_ended`](ShaderBuild::has_ended)), which
/// it has after at most 18 answers.
#[derive(Debug)]
pub struct ShaderBuild {
    phase: Phase,
    vertex_shader: u32,
    fragment_shader: u32,
    program: u32,
    diagnostics: Vec<ShaderBuildDiagnostic>,
    vertex_source: Vec<u8>,
    fragment_source: Vec<u8>,
}

impl View for ShaderBuild {
    type V = BuildState;

    closed spec fn view(&self) -> BuildState {
        BuildState {
            phase: self.phase,
            vertex_shader: self.vertex_shader,
            fragment_shader: self.fragment_shader,
            program: self.program,
            diagnostics: diagnostic_views(self.diagnostics@),
        }
    }
}

impl ShaderBuild {
    #[verifier::type_invariant]
    spec fn well_formed(&self) -> bool {
        &&& self@.sound()
        &&& !has_zero_byte(self.vertex_source@)
        &&& !has_zero_byte(self.fragment_source@)
    }

    /// The source text of `stage`.
    pub closed spec fn source_spec(&self, stage: ShaderStage) -> Seq<u8> {
        match stage {
            ShaderStage::Vertex => self.vertex_source@,
            ShaderStage::Fragment => self.fragment_source@,
        }
    }

    /// The source text of `stage`, which holds no zero byte.
    pub fn source(&self, stage: ShaderStage) -> (text: &Vec<u8>)
        ensures
            text@ == self.source_spec(stage),
            !has_zero_byte(text@),
    {
        proof {
            use_type_invariant(self);
        }
        match stage {
            ShaderStage::Vertex => &self.vertex_source,
            ShaderStage::Fragment => &self.fragment_source,
        }
    }

    /// A build from the two source texts, each as the attempt to read it
    /// left it: `None` where the text could not be read.
    ///
    /// A text that could not be read, and one that holds a zero byte, is a
    /// fatal error; [`source_fault`] says which one is reported.
    pub fn new(vertex_source: Option<Vec<u8>>, fragment_source: Option<Vec<u8>>) -> (made: Result<
        ShaderBuild,
        FatalSetupError,
    >)
        ensures
            match source_fault(
                match vertex_source {
                    Some(text) => Some(text@),
                    None => None,
                },
                match fragment_source {
                    Some(text) => Some(text@),
                    None => None,
                },
            ) {
                Some(error) => made matches Err(e) && e == error,
                None => {
                    &&& made matches Ok(build)
                    &&& build@ == BuildState::initial()
                    &&& build.source_spec(ShaderStage::Vertex) == vertex_source->0@
                    &&& build.source_spec(ShaderStage::Fragment) == fragment_source->0@
                },
            },
    {
        let vertex_source = match vertex_source {
            Some(text) => text,
            None => {
                return Err(FatalSetupError::ShaderSourceUnreadable(ShaderStage::Vertex));
            },
        };
        let fragment_source = match fragment_source {
            Some(text) => text,
            None => {
                return Err(FatalSetupError::ShaderSourceUnreadable(ShaderStage::Fragment));
            },
        };
        if contains_zero_byte(&vertex_source) {
            return Err(FatalSetupError::ShaderSourceMalformed(ShaderStage::Vertex));
        }
        if contains_zero_byte(&fragment_source) {
            return Err(FatalSetupError::ShaderSourceMalformed(ShaderStage::Fragment));
        }
        let diagnostics: Vec<ShaderBuildDiagnostic> = Vec::new();
        assert(diagnostic_views(diagnostics@) =~= Seq::<DiagnosticView>::empty());
        Ok(
            ShaderBuild {
                phase: Phase::CreateShader(ShaderStage::Vertex),
                vertex_shader: 0,
                fragment_shader: 0,
                program: 0,
                diagnostics,
                vertex_source,
                fragment_source,
            },
        )
    }

    /// Whether the build has ended, well or not.
    pub fn has_ended(&self) -> (ended: bool)
        ensures
            ended == self@.ended(),
    {
        match self.phase {
            Phase::Finished | Phase::Failed(_) => true,
            _ => false,
        }
    }

    /// The fatal error that the build stopped at, if it did.
    pub fn failure(&self) -> (failure: Option<FatalSetupError>)
        ensures
            failure == match self@.phase {
                Phase::Failed(error) => Some(error),
                _ => None,
            },
    {
        match self.phase {
            Phase::Failed(error) => Some(error),
            _ => None,
        }
    }

    /// The handle of the shader of `stage`.
    fn shader(&self, stage: ShaderStage) -> (shader: u32)
        ensures
            shader == self@.shader(stage),
    {
        match stage {
            ShaderStage::Vertex => self.vertex_shader,
            ShaderStage::Fragment => self.fragment_shader,
        }
    }

    /// What the build asks of the driver next; nothing once it has ended.
    pub fn request(&self) -> (request: Option<BuildRequest>)
        ensures
            request == self@.request(),
            self@.sound(),
    {
        proof {
            use_type_invariant(self);
        }
        match self.phase {
            Phase::CreateShader(stage) => Some(BuildRequest::CreateShader { stage }),
            Phase::ShaderSource(stage) => Some(
                BuildRequest::ShaderSource { shader: self.shader(stage), stage },
            ),
            Phase::CompileShader(stage) => Some(
                BuildRequest::CompileShader { shader: self.shader(stage) },
            ),
            Phase::CompileStatus(stage) => Some(
                BuildRequest::CompileStatus { shader: self.shader(stage) },
            ),
            Phase::ShaderLog(stage) => Some(
                BuildRequest::ShaderLog { shader: self.shader(stage), capacity: LOG_CAPACITY },
            ),
            Phase::CreateProgram => Some(BuildRequest::CreateProgram),
            Phase::AttachShader(stage) => Some(
                BuildRequest::AttachShader { program: self.program, shader: self.shader(stage) },
            ),
            Phase::LinkProgram => Some(BuildRequest::LinkProgram { program: self.program }),
            Phase::LinkStatus => Some(BuildRequest::LinkStatus { program: self.program }),
            Phase::ProgramLog => Some(
                BuildRequest::ProgramLog { program: self.program, capacity: LOG_CAPACITY },
            ),
            Phase::DeleteShader(stage) => Some(
                BuildRequest::DeleteShader { shader: self.shader(stage) },
            ),
            Phase::Finished | Phase::Failed(_) => None,
        }
    }

    /// The build after the driver has answered its request with `reply`.
    pub fn reply(self, reply: BuildReply) -> (next: ShaderBuild)
        ensures
            next@ == self@.next(reply@),
            next.source_spec(ShaderStage::Vertex) == self.source_spec(ShaderStage::Vertex),
            next.source_spec(ShaderStage::Fragment) == self.source_spec(ShaderStage::Fragment),
    {
        proof {
            use_type_invariant(&self);
            lemma_next_is_sound(self@, reply@);
        }
        let ghost before = self@;
        let mut phase = self.phase;
        let mut vertex_shader = self.vertex_shader;
        let mut fragment_shader = self.fragment_shader;
        let mut program = self.program;
        let mut diagnostics = self.diagnostics;
        match (phase, reply) {
            (Phase::Finished, _) | (Phase::Failed(_), _) => {},
            (Phase::CreateShader(stage), BuildReply::Handle(handle)) => {
                if handle == 0 {
                    phase = Phase::Failed(FatalSetupError::ShaderAllocation(stage));
                } else {
                    match stage {
                        ShaderStage::Vertex => {
                            vertex_shader = handle;
                        },
                        ShaderStage::Fragment => {
                            fragment_shader = handle;
                        },
                    }
                    phase = Phase::ShaderSource(stage);
                }
            },
            (Phase::ShaderSource(stage), BuildReply::Done) => {
                phase = Phase::CompileShader(stage);
            },
            (Phase::CompileShader(stage), BuildReply::Done) => {
                phase = Phase::CompileStatus(stage);
            },
            (Phase::CompileStatus(stage), BuildReply::Status(ok)) => {
                if ok {
                    phase = after_shader(stage);
                } else {
                    phase = Phase::ShaderLog(stage);
                }
            },
            (Phase::ShaderLog(stage), BuildReply::Log(log)) => {
                note(&mut diagnostics, BuildStage::Compile(stage), log);
                phase = after_shader(stage);
            },
            (Phase::CreateProgram, BuildReply::Handle(handle)) => {
                if handle == 0 {
                    phase = Phase::Failed(FatalSetupError::ProgramAllocation);
                } else {
                    program = handle;
                    phase = Phase::AttachShader(ShaderStage::Vertex);
                }
            },
            (Phase::AttachShader(ShaderStage::Vertex), BuildReply::Done) => {
                phase = Phase::AttachShader(ShaderStage::Fragment);
            },
            (Phase::AttachShader(ShaderStage::Fragment), BuildReply::Done) => {
                phase = Phase::LinkProgram;
            },
            (Phase::LinkProgram, BuildReply::Done) => {
                phase = Phase::LinkStatus;
            },
            (Phase::LinkStatus, BuildReply::Status(ok)) => {
                if ok {
                    phase = Phase::DeleteShader(ShaderStage::Vertex);
                } else {
                    phase = Phase::ProgramLog;
                }
            },
            (Phase::ProgramLog, BuildReply::Log(log)) => {
                note(&mut diagnostics, BuildStage::Link, log);
                phase = Phase::DeleteShader(ShaderStage::Vertex);
            },
            (Phase::DeleteShader(ShaderStage::Vertex), BuildReply::Done) => {
                phase = Phase::DeleteShader(ShaderStage::Fragment);
            },
            (Phase::DeleteShader(ShaderStage::Fragment), BuildReply::Done) => {
                phase = Phase::Finished;
            },
            _ => {
                phase = Phase::Failed(FatalSetupError::UnexpectedReply);
            },
        }
        ShaderBuild {
            phase,
            vertex_shader,
            fragment_shader,
            program,
            diagnostics,
            vertex_source: self.vertex_source,
            fragment_source: self.fragment_source,
        }
    }

    /// Ends the use of a build that is through: the handle of the program,
    /// and what went wrong on the way, oldest first.
    pub(crate) fn into_parts(self) -> (parts: (u32, Vec<ShaderBuildDiagnostic>))
        ensures
            parts.0 == self@.program,
            diagnostic_views(parts.1@) == self@.diagnostics,
            self@.sound(),
    {
        proof {
            use_type_invariant(&self);
        }
        (self.program, self.diagnostics)
    }
}

/// The phase that follows the work on the shader of `stage`.
fn after_shader(stage: ShaderStage) -> (phase: Phase)
    ensures
        phase == Phase::after_shader(stage),
{
    match stage {
        ShaderStage::Vertex => Phase::CreateShader(ShaderStage::Fragment),
        ShaderStage::Fragment => Phase::CreateProgram,
    }
}

/// Adds what fits of `log` to `diagnostics`, as a diagnostic about `stage`.
fn note(diagnostics: &mut Vec<ShaderBuildDiagnostic>, stage: BuildStage, log: Vec<u8>)
    ensures
        diagnostic_views(final(diagnostics)@) == diagnostic_views(old(diagnostics)@).push(
            DiagnosticView { stage, log: kept(log@) },
        ),
{
    let mut cut = log;
    cut.truncate(LOG_CAPACITY);
    assert(cut@ == kept(log@));
    diagnostics.push(ShaderBuildDiagnostic { stage, log: cut });
    assert(diagnostic_views(diagnostics@) =~= diagnostic_views(old(diagnostics)@).push(
        DiagnosticView { stage, log: kept(log@) },
    ));
}

/// The start of a build is sound.
pub proof fn lemma_initial_is_sound()
    ensures
        BuildState::initial().sound(),
{
}

/// An answer leaves a sound build sound, whatever the answer is.
pub proof fn lemma_next_is_sound(state: BuildState, reply: ReplyView)
    requires
        state.sound(),
    ensures
        state.next(reply).sound(),
{
    let next = state.next(reply);
    assert forall|i: int| 0 <= i < next.diagnostics.len() implies (#[trigger] next.diagnostics[i]).log.len()
        <= LOG_CAPACITY by {
        if i < state.diagnostics.len() {
            assert(next.diagnostics[i] == state.diagnostics[i]);
        }
    }
}

/// Every state that a build passes through is sound, whatever the driver
/// answers.
pub proof fn lemma_run_is_sound(replies: Seq<ReplyView>)
    ensures
        BuildState::initial().run(replies).sound(),
    decreases replies.len(),
{
    if replies.len() > 0 {
        lemma_run_is_sound(replies.drop_last());
        lemma_next_is_sound(BuildState::initial().run(replies.drop_last()), replies.last());
    }
}

/// Each answer brings a build nearer to its end: the driver's loop runs at
/// most 18 times.
pub proof fn lemma_next_lowers_rank(state: BuildState, reply: ReplyView)
    requires
        !state.ended(),
    ensures
        state.next(reply).phase.rank() < state.phase.rank(),
        state.phase.rank() <= 18,
{
}

/// A step that failed does not end the build. After a failed compilation
/// the build fetches the compiler's log, keeps it, and goes on as after a
/// compilation that succeeded; after a failed link it fetches the linker's
/// log and keeps it.
pub proof fn lemma_failure_is_logged(state: BuildState, stage: ShaderStage, log: Seq<u8>)
    ensures
        state.phase == Phase::CompileStatus(stage) ==> {
            let failed = state.next(ReplyView::Status(false));
            &&& failed.request() == Some(
                BuildRequest::ShaderLog { shader: state.shader(stage), capacity: LOG_CAPACITY },
            )
            &&& failed.next(ReplyView::Log(log)).phase == state.next(
                ReplyView::Status(true),
            ).phase
            &&& failed.next(ReplyView::Log(log)).diagnostics == state.diagnostics.push(
                DiagnosticView { stage: BuildStage::Compile(stage), log: kept(log) },
            )
            &&& state.next(ReplyView::Status(true)).diagnostics == state.diagnostics
        },
        state.phase == Phase::LinkStatus ==> {
            let failed = state.next(ReplyView::Status(false));
            &&& failed.request() == Some(
                BuildRequest::ProgramLog { program: state.program, capacity: LOG_CAPACITY },
            )
            &&& failed.next(ReplyView::Log(log)).phase == state.next(
                ReplyView::Status(true),
            ).phase
            &&& failed.next(ReplyView::Log(log)).diagnostics == state.diagnostics.push(
                DiagnosticView { stage: BuildStage::Link, log: kept(log) },
            )
            &&& state.next(ReplyView::Status(true)).diagnostics == state.diagnostics
        },
{
}

/// Both shaders are released after the link, whether it succeeded or not.
/// Let `linked` be the state once the outcome of the link is dealt with: the
/// answer to the status where the link succeeded, the answer to the log
/// where it did not. From there the build asks to release the vertex
/// shader, then the fragment shader, and then is through, with the program
/// it linked.
pub proof fn lemma_shaders_released_after_link(state: BuildState, ok: bool, log: Seq<u8>)
    requires
        state.phase == Phase::LinkStatus,
    ensures
        ({
            let linked = if ok {
                state.next(ReplyView::Status(true))
            } else {
                state.next(ReplyView::Status(false)).next(ReplyView::Log(log))
            };
            &&& linked.request() == Some(BuildRequest::DeleteShader { shader: state.vertex_shader })
            &&& linked.next(ReplyView::Done).request() == Some(
                BuildRequest::DeleteShader { shader: state.fragment_shader },
            )
            &&& linked.next(ReplyView::Done).next(ReplyView::Done).phase == Phase::Finished
            &&& linked.next(ReplyView::Done).next(ReplyView::Done).program == state.program
        }),
{
}

/// A build comes to be through in one way only: by the answer to the
/// release of the fragment shader, which it asks for only after the release
/// of the vertex shader.
pub proof fn lemma_finish_follows_release(state: BuildState, reply: ReplyView)
    ensures
        state.next(reply).phase == Phase::Finished && state.phase != Phase::Finished ==> {
            &&& state.phase == Phase::DeleteShader(ShaderStage::Fragment)
            &&& reply == ReplyView::Done
        },
        state.next(reply).phase == Phase::DeleteShader(ShaderStage::Fragment) ==> {
            &&& state.phase == Phase::DeleteShader(ShaderStage::Vertex)
            &&& reply == ReplyView::Done
        },
        state.next(reply).phase == Phase::DeleteShader(ShaderStage::Vertex) ==> {
            ||| state.phase == Phase::LinkStatus && reply == ReplyView::Status(true)
            ||| state.phase == Phase::ProgramLog && reply is Log
        },
{
}

/// The state after the driver has made the shader that `state` asks for,
/// with the handle `handle`, has given it its source and compiled it, and has
/// reported the outcome: a failure with the log `log`, or a success where
/// there is none.
pub open spec fn after_compile(state: BuildState, handle: u32, log: Option<Seq<u8>>) -> BuildState {
    let compiled = state.next(ReplyView::Handle(handle)).next(ReplyView::Done).next(
        ReplyView::Done,
    );
    match log {
        None => compiled.next(ReplyView::Status(true)),
        Some(text) => compiled.next(ReplyView::Status(false)).next(ReplyView::Log(text)),
    }
}

/// The state after the driver has made the program that `state` asks for,
/// with the handle `handle`, has attached both shaders and linked it, has
/// reported the outcome as for a compilation, and has released both shaders.
pub open spec fn after_link(state: BuildState, handle: u32, log: Option<Seq<u8>>) -> BuildState {
    let linked = state.next(ReplyView::Handle(handle)).next(ReplyView::Done).next(
        ReplyView::Done,
    ).next(ReplyView::Done);
    let judged = match log {
        None => linked.next(ReplyView::Status(true)),
        Some(text) => linked.next(ReplyView::Status(false)).next(ReplyView::Log(text)),
    };
    judged.next(ReplyView::Done).next(ReplyView::Done)
}

/// The diagnostics of a build in which the steps with a log failed: one for
/// each log, in the order of the steps, with what is kept of the log.
pub open spec fn diagnostics_of(
    vertex_log: Option<Seq<u8>>,
    fragment_log: Option<Seq<u8>>,
    link_log: Option<Seq<u8>>,
) -> Seq<DiagnosticView> {
    let vertex = match vertex_log {
        Some(log) => seq![
            DiagnosticView { stage: BuildStage::Compile(ShaderStage::Vertex), log: kept(log) },
        ],
        None => Seq::empty(),
    };
    let fragment = match fragment_log {
        Some(log) => seq![
            DiagnosticView { stage: BuildStage::Compile(ShaderStage::Fragment), log: kept(log) },
        ],
        None => Seq::empty(),
    };
    let link = match link_log {
        Some(log) => seq![DiagnosticView { stage: BuildStage::Link, log: kept(log) }],
        None => Seq::empty(),
    };
    vertex + fragment + link
}

/// A build to which the GPU hands out all three objects always comes
/// through, whatever fails on the way. It ends with the program that was
/// handed out, and with one diagnostic for each step that failed: none at
/// all where both shaders compiled and the program linked.
pub proof fn lemma_build_comes_through(
    vertex_shader: u32,
    fragment_shader: u32,
    program: u32,
    vertex_log: Option<Seq<u8>>,
    fragment_log: Option<Seq<u8>>,
    link_log: Option<Seq<u8>>,
)
    requires
        vertex_shader != 0,
        fragment_shader != 0,
        program != 0,
    ensures
        after_link(
            after_compile(
                after_compile(BuildState::initial(), vertex_shader, vertex_log),
                fragment_shader,
                fragment_log,
            ),
            program,
            link_log,
        ) == (BuildState {
            phase: Phase::Finished,
            vertex_shader,
            fragment_shader,
            program,
            diagnostics: diagnostics_of(vertex_log, fragment_log, link_log),
        }),
        vertex_log is None && fragment_log is None && link_log is None ==> diagnostics_of(
            vertex_log,
            fragment_log,
            link_log,
        ).len() == 0,
        vertex_log is Some || fragment_log is Some || link_log is Some ==> diagnostics_of(
            vertex_log,
            fragment_log,
            link_log,
        ).len() > 0,
{
    let vertex = after_compile(BuildState::initial(), vertex_shader, vertex_log);
    let fragment = after_compile(vertex, fragment_shader, fragment_log);
    let done = after_link(fragment, program, link_log);
    assert(vertex.phase == Phase::CreateShader(ShaderStage::Fragment));
    assert(fragment.phase == Phase::CreateProgram);
    assert(done.phase == Phase::Finished);
    assert(done.diagnostics =~= diagnostics_of(vertex_log, fragment_log, link_log));
}

} // verus!
