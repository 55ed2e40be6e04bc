use vstd::prelude::*;
use crate::graphics::command::{
    AttributeLayout, BufferKind, ColorBits, CommandView, PayloadView, PolygonMode, UsageHint,
    ELEMENT_BYTES,
};

verus! {

/// What a vertex array holds for one input of the vertex shader.
#[derive(Clone, Copy, Debug, PartialEq, Eq, Structural)]
pub struct AttributeState {
    /// The layout that the input was described by, once it has been.
    pub layout: Option<AttributeLayout>,
    /// The vertex buffer that was current when the input was described.
    pub source: u32,
    /// Whether the GPU reads the input from the buffer.
    pub enabled: bool,
}

impl AttributeState {
    /// The state of an input that nothing has touched.
    pub open spec fn untouched() -> AttributeState {
        AttributeState { layout: None, source: 0, enabled: false }
    }
}

/// The inputs of one vertex array, by slot.
pub type SlotMap = Map<u32, AttributeState>;

/// Whether the GPU can read the input `state`, given the buffers that exist:
/// the input has been described, and the buffer it reads from is among them.
pub open spec fn attribute_readable(buffers: Map<u32, nat>, state: AttributeState) -> bool {
    state.layout is Some && buffers.contains_key(state.source)
}

/// Whether the inputs `slots` make a layout to draw from, given the buffers
/// that exist: at least one input is switched on, and the GPU can read every
/// input that is.
pub open spec fn layout_complete(buffers: Map<u32, nat>, slots: SlotMap) -> bool {
    &&& exists|slot: u32| #[trigger] slots.contains_key(slot) && slots[slot].enabled
    &&& forall|slot: u32| #[trigger]
        slots.contains_key(slot) && slots[slot].enabled ==> attribute_readable(
            buffers,
            slots[slot],
        )
}

/// The part of the GPU's state that the recorded commands read and change.
///
/// A handle of 0 at a binding point stands for "nothing bound".
pub struct GpuModel {
    /// The current vertex array.
    pub vertex_array: u32,
    /// The current buffer of the vertex-data target.
    pub array_buffer: u32,
    /// The current buffer of the index-data target.
    pub element_buffer: u32,
    /// The current program.
    pub program: u32,
    /// The rasterization mode.
    pub polygon_mode: PolygonMode,
    /// The size of the drawing rectangle, once a command has set it.
    pub viewport: Option<(i32, i32)>,
    /// The color that a clear fills the color plane with.
    pub clear_color: ColorBits,
    /// The vertex arrays that exist, each with its inputs.
    pub vertex_arrays: Map<u32, SlotMap>,
    /// The buffers that exist, each with the size of its store in bytes.
    pub buffers: Map<u32, nat>,
    /// The programs that exist.
    pub programs: Set<u32>,
}

impl GpuModel {
    /// The state of a context in which nothing has happened yet.
    pub open spec fn initial() -> GpuModel {
        GpuModel {
            vertex_array: 0,
            array_buffer: 0,
            element_buffer: 0,
            program: 0,
            polygon_mode: PolygonMode::Fill,
            viewport: None,
            clear_color: ColorBits { red: 0, green: 0, blue: 0, alpha: 0 },
            vertex_arrays: Map::empty(),
            buffers: Map::empty(),
            programs: Set::empty(),
        }
    }

    /// The current buffer of the target `kind`.
    pub open spec fn bound_buffer(self, kind: BufferKind) -> u32 {
        match kind {
            BufferKind::VertexData => self.array_buffer,
            BufferKind::IndexData => self.element_buffer,
        }
    }

    /// The state with `buffer` current at the target `kind`.
    pub open spec fn with_bound_buffer(self, kind: BufferKind, buffer: u32) -> GpuModel {
        match kind {
            BufferKind::VertexData => GpuModel { array_buffer: buffer, ..self },
            BufferKind::IndexData => GpuModel { element_buffer: buffer, ..self },
        }
    }

    /// The state after the GPU has handed out the vertex array `array`: it
    /// exists, and has no inputs yet.
    pub open spec fn with_vertex_array(self, array: u32) -> GpuModel {
        GpuModel { vertex_arrays: self.vertex_arrays.insert(array, Map::empty()), ..self }
    }

    /// The state after the GPU has handed out the buffer `buffer`: it exists,
    /// and has an empty store.
    pub open spec fn with_buffer(self, buffer: u32) -> GpuModel {
        GpuModel { buffers: self.buffers.insert(buffer, 0), ..self }
    }

    /// The state after the GPU has handed out the program `program`.
    pub open spec fn with_program(self, program: u32) -> GpuModel {
        GpuModel { programs: self.programs.insert(program), ..self }
    }

    /// What the current vertex array holds for `slot`; the untouched state
    /// where it holds nothing for it.
    pub open spec fn attribute(self, slot: u32) -> AttributeState {
        if self.vertex_arrays.contains_key(self.vertex_array)
            && self.vertex_arrays[self.vertex_array].contains_key(slot) {
            self.vertex_arrays[self.vertex_array][slot]
        } else {
            AttributeState::untouched()
        }
    }

    /// The state with `state` for `slot` in the current vertex array. Where
    /// the current vertex array does not exist, the GPU has nothing to keep
    /// the input in, and the state stays as it is.
    pub open spec fn with_attribute(self, slot: u32, state: AttributeState) -> GpuModel {
        if self.vertex_arrays.contains_key(self.vertex_array) {
            GpuModel {
                vertex_arrays: self.vertex_arrays.insert(
                    self.vertex_array,
                    self.vertex_arrays[self.vertex_array].insert(slot, state),
                ),
                ..self
            }
        } else {
            self
        }
    }

    /// Whether `command` may be recorded in this state. An upload needs a
    /// buffer at its target, and a size that the graphics interface can be
    /// told; the description of an input needs a vertex array, a vertex
    /// buffer and a valid layout; a draw needs all that a draw reads. Every
    /// other command may be recorded in every state.
    pub open spec fn permits(self, command: CommandView) -> bool {
        match command {
            CommandView::BufferData { kind, data, usage } => {
                &&& self.bound_buffer(kind) != 0
                &&& data.fits()
            },
            CommandView::VertexAttribPointer { slot, layout } => {
                &&& self.vertex_array != 0
                &&& self.array_buffer != 0
                &&& layout.valid()
            },
            CommandView::DrawElements { count } => self.draw_ready(count),
            _ => true,
        }
    }

    /// The state after `command`.
    pub open spec fn apply(self, command: CommandView) -> GpuModel {
        match command {
            CommandView::BindVertexArray { array } => GpuModel { vertex_array: array, ..self },
            CommandView::DeleteVertexArray { array } => GpuModel {
                vertex_array: if self.vertex_array == array { 0 } else { self.vertex_array },
                vertex_arrays: self.vertex_arrays.remove(array),
                ..self
            },
            CommandView::BindBuffer { kind, buffer } => self.with_bound_buffer(kind, buffer),
            CommandView::BufferData { kind, data, usage } => {
                if self.buffers.contains_key(self.bound_buffer(kind)) {
                    GpuModel {
                        buffers: self.buffers.insert(self.bound_buffer(kind), data.byte_len()),
                        ..self
                    }
                } else {
                    self
                }
            },
            CommandView::DeleteBuffer { buffer } => GpuModel {
                array_buffer: if self.array_buffer == buffer { 0 } else { self.array_buffer },
                element_buffer: if self.element_buffer == buffer { 0 } else {
                    self.element_buffer
                },
                buffers: self.buffers.remove(buffer),
                ..self
            },
            CommandView::VertexAttribPointer { slot, layout } => self.with_attribute(
                slot,
                AttributeState {
                    layout: Some(layout),
                    source: self.array_buffer,
                    enabled: self.attribute(slot).enabled,
                },
            ),
            CommandView::EnableVertexAttribArray { slot } => self.with_attribute(
                slot,
                AttributeState { enabled: true, ..self.attribute(slot) },
            ),
            CommandView::DisableVertexAttribArray { slot } => self.with_attribute(
                slot,
                AttributeState { enabled: false, ..self.attribute(slot) },
            ),
            CommandView::UseProgram { program } => GpuModel { program, ..self },
            CommandView::DeleteProgram { program } => GpuModel {
                programs: self.programs.remove(program),
                ..self
            },
            CommandView::ClearColor { color } => GpuModel { clear_color: color, ..self },
            CommandView::Viewport { width, height } => GpuModel {
                viewport: Some((width, height)),
                ..self
            },
            CommandView::TogglePolygonMode => GpuModel {
                polygon_mode: self.polygon_mode.toggled(),
                ..self
            },
            CommandView::Clear { .. }
            | CommandView::DrawElements { .. }
            | CommandView::CloseWindow
            | CommandView::PollEvents
            | CommandView::SwapBuffers => self,
        }
    }

    /// The state after the commands of `commands`, in order.
    pub open spec fn apply_all(self, commands: Seq<CommandView>) -> GpuModel
        decreases commands.len(),
    {
        if commands.len() == 0 {
            self
        } else {
            self.apply_all(commands.drop_last()).apply(commands.last())
        }
    }

    /// Whether a draw has all that it reads: a program that exists, and a
    /// vertex array that exists and holds a complete layout.
    pub open spec fn drawable(self) -> bool {
        &&& self.program != 0
        &&& self.programs.contains(self.program)
        &&& self.vertex_array != 0
        &&& self.vertex_arrays.contains_key(self.vertex_array)
        &&& layout_complete(self.buffers, self.vertex_arrays[self.vertex_array])
    }

    /// Whether a draw of `count` indices has all that it reads: what every
    /// draw needs, and an index buffer whose store holds that many indices.
    pub open spec fn draw_ready(self, count: i32) -> bool {
        &&& self.drawable()
        &&& count >= 0
        &&& self.element_buffer != 0
        &&& self.buffers.contains_key(self.element_buffer)
        &&& self.buffers[self.element_buffer] >= count * ELEMENT_BYTES
    }
}

/// To apply a list of one command is to apply the command.
pub proof fn lemma_apply_all_single(model: GpuModel, command: CommandView)
    ensures
        model.apply_all(seq![command]) == model.apply(command),
{
    let one = seq![command];
    assert(one.drop_last() =~= Seq::<CommandView>::empty());
    assert(model.apply_all(one) == model.apply_all(one.drop_last()).apply(one.last()));
}

/// To apply one list of commands and then another is to apply the two lists
/// joined.
pub proof fn lemma_apply_all_joined(
    model: GpuModel,
    first: Seq<CommandView>,
    second: Seq<CommandView>,
)
    ensures
        model.apply_all(first + second) == model.apply_all(first).apply_all(second),
    decreases second.len(),
{
    if second.len() == 0 {
        assert(first + second =~= first);
    } else {
        assert((first + second).drop_last() =~= first + second.drop_last());
        assert((first + second).last() == second.last());
        lemma_apply_all_joined(model, first, second.drop_last());
    }
}

/// The current buffer of a target is the one that the last bind named: after
/// a bind and an unbind it is none, after an unbind and a bind it is the
/// buffer, and a second bind of the same buffer changes nothing. The other
/// target is not touched.
pub proof fn lemma_binding_follows_last_call(model: GpuModel, kind: BufferKind, buffer: u32)
    ensures
        model.apply(CommandView::BindBuffer { kind, buffer }).apply(
            CommandView::BindBuffer { kind, buffer: 0 },
        ).bound_buffer(kind) == 0,
        model.apply(CommandView::BindBuffer { kind, buffer: 0 }).apply(
            CommandView::BindBuffer { kind, buffer },
        ).bound_buffer(kind) == buffer,
        model.apply(CommandView::BindBuffer { kind, buffer }).apply(
            CommandView::BindBuffer { kind, buffer },
        ) == model.apply(CommandView::BindBuffer { kind, buffer }),
        forall|other: BufferKind|
            other != kind ==> model.apply(CommandView::BindBuffer { kind, buffer }).bound_buffer(
                other,
            ) == model.bound_buffer(other),
{
}

/// An upload sizes the store of the current buffer to the bytes it brings,
/// four for each element, and a second upload sizes it anew: the store does
/// not grow by what is uploaded.
pub proof fn lemma_upload_replaces_store(
    model: GpuModel,
    kind: BufferKind,
    first: PayloadView,
    second: PayloadView,
    usage: UsageHint,
)
    requires
        model.buffers.contains_key(model.bound_buffer(kind)),
    ensures
        model.apply(CommandView::BufferData { kind, data: first, usage }).buffers[model.bound_buffer(
            kind,
        )] == first.len() * 4,
        model.apply(CommandView::BufferData { kind, data: first, usage }).apply(
            CommandView::BufferData { kind, data: second, usage },
        ).buffers[model.bound_buffer(kind)] == second.len() * 4,
        forall|other: u32|
            other != model.bound_buffer(kind) && model.buffers.contains_key(other) ==> model.apply(
                CommandView::BufferData { kind, data: first, usage },
            ).buffers[other] == model.buffers[other],
{
}

/// The state after the setup of one input: the vertex array `array` is
/// bound, then the vertex buffer `buffer`, then input `slot` is described by
/// `layout` and switched on.
pub open spec fn after_input_setup(
    model: GpuModel,
    array: u32,
    buffer: u32,
    slot: u32,
    layout: AttributeLayout,
) -> GpuModel {
    model.apply(CommandView::BindVertexArray { array }).apply(
        CommandView::BindBuffer { kind: BufferKind::VertexData, buffer },
    ).apply(CommandView::VertexAttribPointer { slot, layout }).apply(
        CommandView::EnableVertexAttribArray { slot },
    )
}

/// A vertex array with one input described and switched on is fit to draw
/// from. Take a vertex array, a vertex buffer and a program that exist, the
/// vertex array with no input switched on that the GPU cannot read (one just
/// made has none at all). Set up one input as [`after_input_setup`] says;
/// the description is permitted where it stands. Then, once the program and
/// the vertex array are bound, a draw has all that it reads.
pub proof fn lemma_one_input_makes_drawable(
    model: GpuModel,
    array: u32,
    buffer: u32,
    program: u32,
    slot: u32,
    layout: AttributeLayout,
)
    requires
        array != 0,
        buffer != 0,
        program != 0,
        model.vertex_arrays.contains_key(array),
        model.buffers.contains_key(buffer),
        model.programs.contains(program),
        forall|other: u32| #[trigger]
            model.vertex_arrays[array].contains_key(other) && model.vertex_arrays[array][other].enabled
                ==> attribute_readable(model.buffers, model.vertex_arrays[array][other]),
    ensures
        layout.valid() ==> model.apply(CommandView::BindVertexArray { array }).apply(
            CommandView::BindBuffer { kind: BufferKind::VertexData, buffer },
        ).permits(CommandView::VertexAttribPointer { slot, layout }),
        after_input_setup(model, array, buffer, slot, layout).apply(
            CommandView::UseProgram { program },
        ).apply(CommandView::BindVertexArray { array }).drawable(),
{
    let ready = after_input_setup(model, array, buffer, slot, layout).apply(
        CommandView::UseProgram { program },
    ).apply(CommandView::BindVertexArray { array });
    let slots = ready.vertex_arrays[array];
    assert(slots.contains_key(slot) && slots[slot].enabled);
    assert forall|other: u32| #[trigger]
        slots.contains_key(other) && slots[other].enabled implies attribute_readable(
        ready.buffers,
        slots[other],
    ) by {
        if other != slot {
            assert(model.vertex_arrays[array].contains_key(other));
        }
    }
}

/// To switch an input on twice is to switch it on once; and to switch it
/// off leaves its description, and the buffer it reads from, as they were.
pub proof fn lemma_switching_keeps_description(model: GpuModel, slot: u32)
    ensures
        model.apply(CommandView::EnableVertexAttribArray { slot }).apply(
            CommandView::EnableVertexAttribArray { slot },
        ) == model.apply(CommandView::EnableVertexAttribArray { slot }),
        model.apply(CommandView::DisableVertexAttribArray { slot }).attribute(slot).layout
            == model.attribute(slot).layout,
        model.apply(CommandView::DisableVertexAttribArray { slot }).attribute(slot).source
            == model.attribute(slot).source,
        !model.apply(CommandView::DisableVertexAttribArray { slot }).attribute(slot).enabled,
        model.vertex_arrays.contains_key(model.vertex_array) ==> model.apply(
            CommandView::EnableVertexAttribArray { slot },
        ).attribute(slot).enabled,
{
    let once = model.apply(CommandView::EnableVertexAttribArray { slot });
    let twice = once.apply(CommandView::EnableVertexAttribArray { slot });
    assert(twice.vertex_arrays =~= once.vertex_arrays) by {
        if model.vertex_arrays.contains_key(model.vertex_array) {
            assert(twice.vertex_arrays[model.vertex_array] =~= once.vertex_arrays[model.vertex_array]);
        }
    }
}

} // verus!
