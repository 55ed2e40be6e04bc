use vstd::prelude::*;

verus! {

/// The binding target of a buffer: what the GPU reads from it.
#[derive(Clone, Copy, Debug, PartialEq, Eq, Structural)]
pub enum BufferKind {
    /// Vertex attributes.
    VertexData,
    /// Indices into the vertex data.
    IndexData,
}

impl BufferKind {
    /// The code by which the graphics interface knows this target.
    pub open spec fn code_spec(self) -> u32 {
        match self {
            BufferKind::VertexData => 0x8892,
            BufferKind::IndexData => 0x8893,
        }
    }

    #[verifier::when_used_as_spec(code_spec)]
    pub fn code(self) -> (code: u32)
        ensures
            code == self.code_spec(),
    {
        match self {
            BufferKind::VertexData => 0x8892,
            BufferKind::IndexData => 0x8893,
        }
    }
}

/// How often, and by whom, the contents of a buffer will be touched. The hint
/// is handed to the GPU as it is; nothing here depends on it.
#[derive(Clone, Copy, Debug, PartialEq, Eq, Structural)]
pub enum UsageHint {
    StreamDraw,
    StreamRead,
    StreamCopy,
    StaticDraw,
    StaticRead,
    StaticCopy,
    DynamicDraw,
    DynamicRead,
    DynamicCopy,
}

impl UsageHint {
    /// The code by which the graphics interface knows this hint.
    pub open spec fn code_spec(self) -> u32 {
        match self {
            UsageHint::StreamDraw => 0x88E0,
            UsageHint::StreamRead => 0x88E1,
            UsageHint::StreamCopy => 0x88E2,
            UsageHint::StaticDraw => 0x88E4,
            UsageHint::StaticRead => 0x88E5,
            UsageHint::StaticCopy => 0x88E6,
            UsageHint::DynamicDraw => 0x88E8,
            UsageHint::DynamicRead => 0x88E9,
            UsageHint::DynamicCopy => 0x88EA,
        }
    }

    #[verifier::when_used_as_spec(code_spec)]
    pub fn code(self) -> (code: u32)
        ensures
            code == self.code_spec(),
    {
        match self {
            UsageHint::StreamDraw => 0x88E0,
            UsageHint::StreamRead => 0x88E1,
            UsageHint::StreamCopy => 0x88E2,
            UsageHint::StaticDraw => 0x88E4,
            UsageHint::StaticRead => 0x88E5,
            UsageHint::StaticCopy => 0x88E6,
            UsageHint::DynamicDraw => 0x88E8,
            UsageHint::DynamicRead => 0x88E9,
            UsageHint::DynamicCopy => 0x88EA,
        }
    }
}

/// The numeric type of one component of a vertex attribute.
#[derive(Clone, Copy, Debug, PartialEq, Eq, Structural)]
pub enum ElementType {
    Byte,
    UnsignedByte,
    Short,
    UnsignedShort,
    Int,
    UnsignedInt,
    Float,
}

impl ElementType {
    /// The code by which the graphics interface knows this type.
    pub open spec fn code_spec(self) -> u32 {
        match self {
            ElementType::Byte => 0x1400,
            ElementType::UnsignedByte => 0x1401,
            ElementType::Short => 0x1402,
            ElementType::UnsignedShort => 0x1403,
            ElementType::Int => 0x1404,
            ElementType::UnsignedInt => 0x1405,
            ElementType::Float => 0x1406,
        }
    }

    #[verifier::when_used_as_spec(code_spec)]
    pub fn code(self) -> (code: u32)
        ensures
            code == self.code_spec(),
    {
        match self {
            ElementType::Byte => 0x1400,
            ElementType::UnsignedByte => 0x1401,
            ElementType::Short => 0x1402,
            ElementType::UnsignedShort => 0x1403,
            ElementType::Int => 0x1404,
            ElementType::UnsignedInt => 0x1405,
            ElementType::Float => 0x1406,
        }
    }

    /// The number of bytes that one component of this type takes in a buffer.
    pub open spec fn size_bytes_spec(self) -> usize {
        match self {
            ElementType::Byte | ElementType::UnsignedByte => 1,
            ElementType::Short | ElementType::UnsignedShort => 2,
            ElementType::Int | ElementType::UnsignedInt | ElementType::Float => 4,
        }
    }

    #[verifier::when_used_as_spec(size_bytes_spec)]
    pub fn size_bytes(self) -> (size: usize)
        ensures
            size == self.size_bytes_spec(),
    {
        match self {
            ElementType::Byte | ElementType::UnsignedByte => 1,
            ElementType::Short | ElementType::UnsignedShort => 2,
            ElementType::Int | ElementType::UnsignedInt | ElementType::Float => 4,
        }
    }
}

/// How the GPU rasterizes a polygon.
#[derive(Clone, Copy, Debug, PartialEq, Eq, Structural)]
pub enum PolygonMode {
    /// Only the corners.
    Point,
    /// Only the edges: a wireframe.
    Line,
    /// The whole face.
    Fill,
}

impl PolygonMode {
    /// The code by which the graphics interface knows this mode.
    pub open spec fn code_spec(self) -> u32 {
        match self {
            PolygonMode::Point => 0x1B00,
            PolygonMode::Line => 0x1B01,
            PolygonMode::Fill => 0x1B02,
        }
    }

    #[verifier::when_used_as_spec(code_spec)]
    pub fn code(self) -> (code: u32)
        ensures
            code == self.code_spec(),
    {
        match self {
            PolygonMode::Point => 0x1B00,
            PolygonMode::Line => 0x1B01,
            PolygonMode::Fill => 0x1B02,
        }
    }

    /// The mode that a value read back from the GPU stands for: the mode
    /// whose code it is, if it is the code of one.
    pub open spec fn from_reading_spec(reading: i32) -> Option<PolygonMode> {
        if reading == PolygonMode::Point.code() {
            Some(PolygonMode::Point)
        } else if reading == PolygonMode::Line.code() {
            Some(PolygonMode::Line)
        } else if reading == PolygonMode::Fill.code() {
            Some(PolygonMode::Fill)
        } else {
            None
        }
    }

    #[verifier::when_used_as_spec(from_reading_spec)]
    pub fn from_reading(reading: i32) -> (mode: Option<PolygonMode>)
        ensures
            mode == PolygonMode::from_reading_spec(reading),
    {
        if reading == 0x1B00 {
            Some(PolygonMode::Point)
        } else if reading == 0x1B01 {
            Some(PolygonMode::Line)
        } else if reading == 0x1B02 {
            Some(PolygonMode::Fill)
        } else {
            None
        }
    }

    /// The mode after one press of the wireframe key: filled faces and
    /// wireframe change places, points stay points.
    pub open spec fn toggled_spec(self) -> PolygonMode {
        match self {
            PolygonMode::Fill => PolygonMode::Line,
            PolygonMode::Line => PolygonMode::Fill,
            PolygonMode::Point => PolygonMode::Point,
        }
    }

    #[verifier::when_used_as_spec(toggled_spec)]
    pub fn toggled(self) -> (mode: PolygonMode)
        ensures
            mode == self.toggled_spec(),
    {
        match self {
            PolygonMode::Fill => PolygonMode::Line,
            PolygonMode::Line => PolygonMode::Fill,
            PolygonMode::Point => PolygonMode::Point,
        }
    }

    /// The mode to switch the GPU to after reading `reading` back from it:
    /// wireframe where it fills, filled where it draws a wireframe, and no
    /// switch at all for any other reading.
    pub open spec fn switch_for_spec(reading: i32) -> Option<PolygonMode> {
        match PolygonMode::from_reading(reading) {
            Some(PolygonMode::Fill) => Some(PolygonMode::Line),
            Some(PolygonMode::Line) => Some(PolygonMode::Fill),
            _ => None,
        }
    }

    #[verifier::when_used_as_spec(switch_for_spec)]
    pub fn switch_for(reading: i32) -> (mode: Option<PolygonMode>)
        ensures
            mode == PolygonMode::switch_for_spec(reading),
    {
        match PolygonMode::from_reading(reading) {
            Some(PolygonMode::Fill) => Some(PolygonMode::Line),
            Some(PolygonMode::Line) => Some(PolygonMode::Fill),
            _ => None,
        }
    }
}

/// Two presses of the wireframe key undo each other: from filled faces one
/// press gives wireframe and the next gives filled faces again, and the same
/// holds from wireframe.
pub proof fn lemma_toggle_twice_restores(mode: PolygonMode)
    ensures
        PolygonMode::Fill.toggled() == PolygonMode::Line,
        PolygonMode::Line.toggled() == PolygonMode::Fill,
        mode.toggled().toggled() == mode,
{
}

/// A driver that reads the mode back and switches as
/// [`PolygonMode::switch_for`] says leaves the GPU in the toggled mode.
pub proof fn lemma_switch_agrees_with_toggle(mode: PolygonMode)
    ensures
        PolygonMode::from_reading(mode.code() as i32) == Some(mode),
        match PolygonMode::switch_for(mode.code() as i32) {
            Some(next) => next,
            None => mode,
        } == mode.toggled(),
{
}

/// The stage of the shader pipeline that a source text is written for.
#[derive(Clone, Copy, Debug, PartialEq, Eq, Structural)]
pub enum ShaderStage {
    Vertex,
    Fragment,
}

impl ShaderStage {
    /// The code by which the graphics interface knows this stage.
    pub open spec fn code_spec(self) -> u32 {
        match self {
            ShaderStage::Vertex => 0x8B31,
            ShaderStage::Fragment => 0x8B30,
        }
    }

    #[verifier::when_used_as_spec(code_spec)]
    pub fn code(self) -> (code: u32)
        ensures
            code == self.code_spec(),
    {
        match self {
            ShaderStage::Vertex => 0x8B31,
            ShaderStage::Fragment => 0x8B30,
        }
    }
}

/// The planes of the framebuffer that a clear wipes.
#[derive(Clone, Copy, Debug, PartialEq, Eq, Structural)]
pub struct ClearMask {
    pub color: bool,
    pub depth: bool,
    pub stencil: bool,
}

impl ClearMask {
    /// The bit of the color plane.
    pub const COLOR_BIT: u32 = 0x4000;

    /// The bit of the depth plane.
    pub const DEPTH_BIT: u32 = 0x0100;

    /// The bit of the stencil plane.
    pub const STENCIL_BIT: u32 = 0x0400;

    /// The mask as the graphics interface takes it: the sum of the bits of
    /// the chosen planes. The three bits are distinct powers of two, so the
    /// sum is their union.
    pub open spec fn bits_spec(self) -> u32 {
        ((if self.color { Self::COLOR_BIT as int } else { 0 })
            + (if self.depth { Self::DEPTH_BIT as int } else { 0 })
            + (if self.stencil { Self::STENCIL_BIT as int } else { 0 })) as u32
    }

    #[verifier::when_used_as_spec(bits_spec)]
    pub fn bits(self) -> (bits: u32)
        ensures
            bits == self.bits_spec(),
    {
        let color: u32 = if self.color { Self::COLOR_BIT } else { 0 };
        let depth: u32 = if self.depth { Self::DEPTH_BIT } else { 0 };
        let stencil: u32 = if self.stencil { Self::STENCIL_BIT } else { 0 };
        color + depth + stencil
    }

    /// The mask that `bits` stands for: `None` where a bit is set that names
    /// no plane.
    pub fn from_bits(bits: u32) -> (mask: Option<ClearMask>)
        ensures
            match mask {
                Some(m) => m.bits_spec() == bits,
                None => forall|m: ClearMask| m.bits_spec() != bits,
            },
    {
        if bits == 0 {
            Some(ClearMask { color: false, depth: false, stencil: false })
        } else if bits == 0x4000 {
            Some(ClearMask { color: true, depth: false, stencil: false })
        } else if bits == 0x0100 {
            Some(ClearMask { color: false, depth: true, stencil: false })
        } else if bits == 0x0400 {
            Some(ClearMask { color: false, depth: false, stencil: true })
        } else if bits == 0x4100 {
            Some(ClearMask { color: true, depth: true, stencil: false })
        } else if bits == 0x4400 {
            Some(ClearMask { color: true, depth: false, stencil: true })
        } else if bits == 0x0500 {
            Some(ClearMask { color: false, depth: true, stencil: true })
        } else if bits == 0x4500 {
            Some(ClearMask { color: true, depth: true, stencil: true })
        } else {
            None
        }
    }
}

/// How the bytes of the bound vertex buffer feed one input of the vertex
/// shader.
#[derive(Clone, Copy, Debug, PartialEq, Eq, Structural)]
pub struct AttributeLayout {
    /// The number of components of one attribute, from 1 to 4.
    pub components: i32,
    /// The type of each component.
    pub element: ElementType,
    /// Whether integer components are scaled into the unit range.
    pub normalized: bool,
    /// The distance in bytes from one attribute to the next; 0 for tightly
    /// packed attributes.
    pub stride: i32,
    /// The position in bytes of the first attribute in the buffer.
    pub offset: usize,
}

impl AttributeLayout {
    /// A layout that the GPU accepts: one to four components, and a stride
    /// that does not run backwards.
    pub open spec fn valid(self) -> bool {
        1 <= self.components <= 4 && self.stride >= 0
    }

    /// Whether the GPU accepts the layout.
    pub fn is_valid(&self) -> (valid: bool)
        ensures
            valid == self.valid(),
    {
        1 <= self.components && self.components <= 4 && self.stride >= 0
    }
}

/// A clear color. Each channel is a single-precision number in the
/// IEEE 754 binary32 format, held as its 32 bits.
#[derive(Clone, Copy, Debug, PartialEq, Eq, Structural)]
pub struct ColorBits {
    pub red: u32,
    pub green: u32,
    pub blue: u32,
    pub alpha: u32,
}

/// What an upload copies into a buffer. Every element takes four bytes.
#[derive(Debug, PartialEq, Eq)]
pub enum Payload {
    /// Single-precision numbers in the IEEE 754 binary32 format, each held
    /// as its 32 bits.
    Floats(Vec<u32>),
    /// Signed 32-bit integers.
    Integers(Vec<i32>),
}

/// The mathematical value of a [`Payload`].
pub enum PayloadView {
    Floats(Seq<u32>),
    Integers(Seq<i32>),
}

impl PayloadView {
    /// The number of elements.
    pub open spec fn len(self) -> nat {
        match self {
            PayloadView::Floats(bits) => bits.len(),
            PayloadView::Integers(values) => values.len(),
        }
    }

    /// The number of bytes that the elements take: four for each.
    pub open spec fn byte_len(self) -> nat {
        self.len() * ELEMENT_BYTES as nat
    }

    /// Whether the number of bytes is one that the graphics interface can be
    /// told: it takes the size of a store as a signed number.
    pub open spec fn fits(self) -> bool {
        self.byte_len() <= isize::MAX
    }
}

impl View for Payload {
    type V = PayloadView;

    open spec fn view(&self) -> PayloadView {
        match self {
            Payload::Floats(bits) => PayloadView::Floats(bits@),
            Payload::Integers(values) => PayloadView::Integers(values@),
        }
    }
}

impl Payload {
    /// The number of elements.
    pub fn len(&self) -> (len: usize)
        ensures
            len == self@.len(),
    {
        match self {
            Payload::Floats(bits) => bits.len(),
            Payload::Integers(values) => values.len(),
        }
    }
}

/// The number of bytes that one uploaded element takes.
pub const ELEMENT_BYTES: usize = 4;

/// The contents of one upload: a payload whose size in bytes the graphics
/// interface can be told.
#[derive(Debug, PartialEq, Eq)]
pub struct Upload {
    data: Payload,
}

impl View for Upload {
    type V = PayloadView;

    closed spec fn view(&self) -> PayloadView {
        self.data@
    }
}

impl Upload {
    #[verifier::type_invariant]
    spec fn size_fits(&self) -> bool {
        self.data@.fits()
    }

    /// Wraps `data` for an upload; `None` where its size in bytes is more
    /// than the graphics interface can be told.
    pub fn new(data: Payload) -> (upload: Option<Upload>)
        ensures
            upload is Some <==> data@.fits(),
            upload matches Some(wrapped) ==> wrapped@ == data@,
    {
        if data.len() <= isize::MAX as usize / ELEMENT_BYTES {
            Some(Upload { data })
        } else {
            None
        }
    }

    /// The elements.
    pub fn data(&self) -> (data: &Payload)
        ensures
            data@ == self@,
            self@.fits(),
    {
        proof {
            use_type_invariant(self);
        }
        &self.data
    }

    /// The size of the elements in bytes: four for each.
    pub fn size(&self) -> (size: isize)
        ensures
            size == self@.byte_len(),
    {
        proof {
            use_type_invariant(self);
        }
        (self.data.len() * ELEMENT_BYTES) as isize
    }
}

/// One request to the driver. The driver carries requests out in the order
/// in which they were recorded.
#[derive(Debug, PartialEq, Eq)]
pub enum Command {
    /// Make `array` the current vertex array; 0 for none.
    BindVertexArray { array: u32 },
    /// Release the vertex array `array`.
    DeleteVertexArray { array: u32 },
    /// Make `buffer` the current buffer of the target `kind`; 0 for none.
    BindBuffer { kind: BufferKind, buffer: u32 },
    /// Give the current buffer of the target `kind` a new store, of the size
    /// of `upload` and filled from it.
    BufferData { kind: BufferKind, upload: Upload, usage: UsageHint },
    /// Release the buffer `buffer`.
    DeleteBuffer { buffer: u32 },
    /// Describe input `slot` of the vertex shader by `layout`, read from the
    /// current vertex buffer, in the current vertex array.
    VertexAttribPointer { slot: u32, layout: AttributeLayout },
    /// Switch input `slot` on in the current vertex array.
    EnableVertexAttribArray { slot: u32 },
    /// Switch input `slot` off in the current vertex array.
    DisableVertexAttribArray { slot: u32 },
    /// Make `program` the current program; 0 for none.
    UseProgram { program: u32 },
    /// Release the program `program`.
    DeleteProgram { program: u32 },
    /// Set the color that a clear fills the color plane with.
    ClearColor { color: ColorBits },
    /// Wipe the planes of `mask`.
    Clear { mask: ClearMask },
    /// Draw into the rectangle of the given size at the window's origin.
    Viewport { width: i32, height: i32 },
    /// Read the rasterization mode back, and switch it to what
    /// [`PolygonMode::switch_for`] gives for the reading, front and back.
    TogglePolygonMode,
    /// Draw `count` indices of the current index buffer, from its start, as
    /// triangles; an index is an unsigned 32-bit integer.
    DrawElements { count: i32 },
    /// Mark the window as due to close.
    CloseWindow,
    /// Collect the input that arrived since the last poll.
    PollEvents,
    /// Present the frame that was drawn.
    SwapBuffers,
}

/// The mathematical value of a [`Command`].
pub enum CommandView {
    BindVertexArray { array: u32 },
    DeleteVertexArray { array: u32 },
    BindBuffer { kind: BufferKind, buffer: u32 },
    BufferData { kind: BufferKind, data: PayloadView, usage: UsageHint },
    DeleteBuffer { buffer: u32 },
    VertexAttribPointer { slot: u32, layout: AttributeLayout },
    EnableVertexAttribArray { slot: u32 },
    DisableVertexAttribArray { slot: u32 },
    UseProgram { program: u32 },
    DeleteProgram { program: u32 },
    ClearColor { color: ColorBits },
    Clear { mask: ClearMask },
    Viewport { width: i32, height: i32 },
    TogglePolygonMode,
    DrawElements { count: i32 },
    CloseWindow,
    PollEvents,
    SwapBuffers,
}

impl View for Command {
    type V = CommandView;

    open spec fn view(&self) -> CommandView {
        match self {
            Command::BindVertexArray { array } => CommandView::BindVertexArray { array: *array },
            Command::DeleteVertexArray { array } => CommandView::DeleteVertexArray {
                array: *array,
            },
            Command::BindBuffer { kind, buffer } => CommandView::BindBuffer {
                kind: *kind,
                buffer: *buffer,
            },
            Command::BufferData { kind, upload, usage } => CommandView::BufferData {
                kind: *kind,
                data: upload@,
                usage: *usage,
            },
            Command::DeleteBuffer { buffer } => CommandView::DeleteBuffer { buffer: *buffer },
            Command::VertexAttribPointer { slot, layout } => CommandView::VertexAttribPointer {
                slot: *slot,
                layout: *layout,
            },
            Command::EnableVertexAttribArray { slot } => CommandView::EnableVertexAttribArray {
                slot: *slot,
            },
            Command::DisableVertexAttribArray { slot } => CommandView::DisableVertexAttribArray {
                slot: *slot,
            },
            Command::UseProgram { program } => CommandView::UseProgram { program: *program },
            Command::DeleteProgram { program } => CommandView::DeleteProgram {
                program: *program,
            },
            Command::ClearColor { color } => CommandView::ClearColor { color: *color },
            Command::Clear { mask } => CommandView::Clear { mask: *mask },
            Command::Viewport { width, height } => CommandView::Viewport {
                width: *width,
                height: *height,
            },
            Command::TogglePolygonMode => CommandView::TogglePolygonMode,
            Command::DrawElements { count } => CommandView::DrawElements { count: *count },
            Command::CloseWindow => CommandView::CloseWindow,
            Command::PollEvents => CommandView::PollEvents,
            Command::SwapBuffers => CommandView::SwapBuffers,
        }
    }
}

/// The mathematical value of a list of commands.
pub open spec fn views(commands: Seq<Command>) -> Seq<CommandView> {
    commands.map_values(|c: Command| c@)
}

} // verus!
