use vstd::prelude::*;
use std::collections::HashMap;
use std::collections::HashSet;
use crate::graphics::command::{
    views, BufferKind, ColorBits, Command, CommandView, PolygonMode, ELEMENT_BYTES,
};
use crate::graphics::model::{AttributeState, GpuModel};
use crate::graphics::slots::{store_sizes, SlotTable};

verus! {

broadcast use vstd::std_specs::hash::group_hash_axioms;

/// A rendering context as this library sees it: the state that the commands
/// recorded so far leave the GPU in, and the commands that the driver has not
/// taken yet.
///
/// Every GPU object is made in a context, and every operation on one names
/// the context it acts in. A context comes from
/// [`Window::init_gl`](crate::graphics::window::Window::init_gl) and from
/// nowhere else, so no GPU object exists before the graphics interface is
/// loaded.
pub struct Context {
    vertex_array: u32,
    array_buffer: u32,
    element_buffer: u32,
    program: u32,
    polygon_mode: PolygonMode,
    viewport: Option<(i32, i32)>,
    clear_color: ColorBits,
    vertex_arrays: HashMap<u32, SlotTable>,
    buffers: HashMap<u32, usize>,
    programs: HashSet<u32>,
    queue: Vec<Command>,
}

impl Context {
    /// The state that the recorded commands leave the GPU in.
    pub closed spec fn model(&self) -> GpuModel {
        GpuModel {
            vertex_array: self.vertex_array,
            array_buffer: self.array_buffer,
            element_buffer: self.element_buffer,
            program: self.program,
            polygon_mode: self.polygon_mode,
            viewport: self.viewport,
            clear_color: self.clear_color,
            vertex_arrays: Map::new(
                |array: u32| self.vertex_arrays@.contains_key(array),
                |array: u32| self.vertex_arrays@[array]@,
            ),
            buffers: store_sizes(self.buffers@),
            programs: self.programs@,
        }
    }

    /// The commands that the driver has not taken yet, oldest first.
    pub closed spec fn pending(&self) -> Seq<CommandView> {
        views(self.queue@)
    }

    /// A context in which nothing has happened yet.
    pub(crate) fn new() -> (gpu: Context)
        ensures
            gpu.model() == GpuModel::initial(),
            gpu.pending() == Seq::<CommandView>::empty(),
    {
        let gpu = Context {
            vertex_array: 0,
            array_buffer: 0,
            element_buffer: 0,
            program: 0,
            polygon_mode: PolygonMode::Fill,
            viewport: None,
            clear_color: ColorBits { red: 0, green: 0, blue: 0, alpha: 0 },
            vertex_arrays: HashMap::new(),
            buffers: HashMap::new(),
            programs: HashSet::new(),
            queue: Vec::new(),
        };
        assert(gpu.model().vertex_arrays =~= GpuModel::initial().vertex_arrays);
        assert(gpu.model().buffers =~= GpuModel::initial().buffers);
        assert(gpu.pending() =~= Seq::<CommandView>::empty());
        gpu
    }

    /// The current vertex array; 0 for none.
    pub fn bound_vertex_array(&self) -> (array: u32)
        ensures
            array == self.model().vertex_array,
    {
        self.vertex_array
    }

    /// The current buffer of the target `kind`; 0 for none.
    pub fn bound_buffer(&self, kind: BufferKind) -> (buffer: u32)
        ensures
            buffer == self.model().bound_buffer(kind),
    {
        match kind {
            BufferKind::VertexData => self.array_buffer,
            BufferKind::IndexData => self.element_buffer,
        }
    }

    /// The current program; 0 for none.
    pub fn bound_program(&self) -> (program: u32)
        ensures
            program == self.model().program,
    {
        self.program
    }

    /// The rasterization mode.
    pub fn polygon_mode(&self) -> (mode: PolygonMode)
        ensures
            mode == self.model().polygon_mode,
    {
        self.polygon_mode
    }

    /// The size of the drawing rectangle, once a command has set it.
    pub fn viewport(&self) -> (size: Option<(i32, i32)>)
        ensures
            size == self.model().viewport,
    {
        self.viewport
    }

    /// The color that a clear fills the color plane with.
    pub fn clear_color(&self) -> (color: ColorBits)
        ensures
            color == self.model().clear_color,
    {
        self.clear_color
    }

    /// Whether the vertex array `array` exists.
    pub fn has_vertex_array(&self, array: u32) -> (exists: bool)
        ensures
            exists == self.model().vertex_arrays.contains_key(array),
    {
        self.vertex_arrays.contains_key(&array)
    }

    /// Whether the buffer `buffer` exists.
    pub fn has_buffer(&self, buffer: u32) -> (exists: bool)
        ensures
            exists == self.model().buffers.contains_key(buffer),
    {
        self.buffers.contains_key(&buffer)
    }

    /// Whether the program `program` exists.
    pub fn has_program(&self, program: u32) -> (exists: bool)
        ensures
            exists == self.model().programs.contains(program),
    {
        self.programs.contains(&program)
    }

    /// The size in bytes of the store of `buffer`, if the buffer exists.
    pub fn buffer_size(&self, buffer: u32) -> (size: Option<usize>)
        ensures
            size is Some <==> self.model().buffers.contains_key(buffer),
            size matches Some(bytes) ==> bytes == self.model().buffers[buffer],
    {
        match self.buffers.get(&buffer) {
            Some(size) => Some(*size),
            None => None,
        }
    }

    /// What the current vertex array holds for `slot`; the untouched state
    /// where it holds nothing for it.
    pub fn attribute(&self, slot: u32) -> (state: AttributeState)
        ensures
            state == self.model().attribute(slot),
    {
        match self.vertex_arrays.get(&self.vertex_array) {
            Some(table) => table.get(slot),
            None => AttributeState { layout: None, source: 0, enabled: false },
        }
    }

    /// Whether a draw has all that it reads.
    pub fn is_drawable(&self) -> (drawable: bool)
        ensures
            drawable == self.model().drawable(),
    {
        if self.program == 0 || self.vertex_array == 0 || !self.programs.contains(&self.program) {
            return false;
        }
        match self.vertex_arrays.get(&self.vertex_array) {
            Some(table) => table.is_complete(&self.buffers),
            None => false,
        }
    }

    /// Whether a draw of `count` indices has all that it reads.
    pub fn can_draw(&self, count: i32) -> (ready: bool)
        ensures
            ready == self.model().draw_ready(count),
    {
        if count < 0 || self.element_buffer == 0 || !self.is_drawable() {
            return false;
        }
        let wanted: u64 = count as u64;
        let width: u64 = ELEMENT_BYTES as u64;
        assert(wanted * width == count * ELEMENT_BYTES) by (nonlinear_arith)
            requires
                wanted == count,
                width == ELEMENT_BYTES,
        ;
        assert(count * ELEMENT_BYTES <= u64::MAX) by {
            assert(ELEMENT_BYTES == 4);
        }
        match self.buffers.get(&self.element_buffer) {
            Some(size) => *size as u64 >= wanted * width,
            None => false,
        }
    }

    /// Whether the caller has met what `command` asks of the state before
    /// it.
    pub fn permits(&self, command: &Command) -> (permitted: bool)
        ensures
            permitted == self.model().permits(command@),
    {
        match command {
            Command::BufferData { kind, upload, usage } => {
                // The size of an upload fits by construction.
                upload.data();
                self.bound_buffer(*kind) != 0
            },
            Command::VertexAttribPointer { slot, layout } => {
                self.vertex_array != 0 && self.array_buffer != 0 && layout.is_valid()
            },
            Command::DrawElements { count } => self.can_draw(*count),
            _ => true,
        }
    }

    /// Notes that the GPU has handed out the vertex array `array`.
    pub(crate) fn adopt_vertex_array(&mut self, array: u32)
        ensures
            final(self).model() == old(self).model().with_vertex_array(array),
            final(self).pending() == old(self).pending(),
    {
        self.vertex_arrays.insert(array, SlotTable::new());
        assert(self.model().vertex_arrays =~= old(self).model().with_vertex_array(
            array,
        ).vertex_arrays);
    }

    /// Notes that the GPU has handed out the buffer `buffer`.
    pub(crate) fn adopt_buffer(&mut self, buffer: u32)
        ensures
            final(self).model() == old(self).model().with_buffer(buffer),
            final(self).pending() == old(self).pending(),
    {
        self.buffers.insert(buffer, 0);
        assert(self.model().vertex_arrays =~= old(self).model().vertex_arrays);
        assert(self.model().buffers =~= old(self).model().with_buffer(buffer).buffers);
    }

    /// Notes that the GPU has handed out the program `program`.
    pub(crate) fn adopt_program(&mut self, program: u32)
        ensures
            final(self).model() == old(self).model().with_program(program),
            final(self).pending() == old(self).pending(),
    {
        self.programs.insert(program);
        assert(self.model().vertex_arrays =~= old(self).model().vertex_arrays);
    }

    /// Puts `state` for `slot` into the current vertex array, if that
    /// exists.
    fn set_attribute(&mut self, slot: u32, state: AttributeState)
        ensures
            final(self).model() == old(self).model().with_attribute(slot, state),
            final(self).pending() == old(self).pending(),
    {
        let array = self.vertex_array;
        match self.vertex_arrays.remove(&array) {
            Some(table) => {
                self.vertex_arrays.insert(array, table.with(slot, state));
                assert(self.model().vertex_arrays =~= old(self).model().with_attribute(
                    slot,
                    state,
                ).vertex_arrays);
            },
            None => {
                assert(self.model().vertex_arrays =~= old(self).model().vertex_arrays);
            },
        }
    }

    /// Moves the state on by `command`.
    fn advance(&mut self, command: &Command)
        ensures
            final(self).model() == old(self).model().apply(command@),
            final(self).pending() == old(self).pending(),
    {
        match command {
            Command::BindVertexArray { array } => {
                self.vertex_array = *array;
            },
            Command::DeleteVertexArray { array } => {
                if self.vertex_array == *array {
                    self.vertex_array = 0;
                }
                self.vertex_arrays.remove(array);
                assert(self.model().vertex_arrays =~= old(self).model().vertex_arrays.remove(
                    *array,
                ));
            },
            Command::BindBuffer { kind, buffer } => {
                match kind {
                    BufferKind::VertexData => {
                        self.array_buffer = *buffer;
                    },
                    BufferKind::IndexData => {
                        self.element_buffer = *buffer;
                    },
                }
            },
            Command::BufferData { kind, upload, usage } => {
                let buffer = self.bound_buffer(*kind);
                if self.buffers.contains_key(&buffer) {
                    self.buffers.insert(buffer, upload.size() as usize);
                }
                assert(self.model().vertex_arrays =~= old(self).model().vertex_arrays);
                assert(self.model().buffers =~= old(self).model().apply(command@).buffers);
            },
            Command::DeleteBuffer { buffer } => {
                if self.array_buffer == *buffer {
                    self.array_buffer = 0;
                }
                if self.element_buffer == *buffer {
                    self.element_buffer = 0;
                }
                self.buffers.remove(buffer);
                assert(self.model().vertex_arrays =~= old(self).model().vertex_arrays);
                assert(self.model().buffers =~= old(self).model().buffers.remove(*buffer));
            },
            Command::VertexAttribPointer { slot, layout } => {
                let enabled = self.attribute(*slot).enabled;
                let source = self.array_buffer;
                self.set_attribute(
                    *slot,
                    AttributeState { layout: Some(*layout), source, enabled },
                );
            },
            Command::EnableVertexAttribArray { slot } => {
                let state = self.attribute(*slot);
                self.set_attribute(
                    *slot,
                    AttributeState { layout: state.layout, source: state.source, enabled: true },
                );
            },
            Command::DisableVertexAttribArray { slot } => {
                let state = self.attribute(*slot);
                self.set_attribute(
                    *slot,
                    AttributeState { layout: state.layout, source: state.source, enabled: false },
                );
            },
            Command::UseProgram { program } => {
                self.program = *program;
            },
            Command::DeleteProgram { program } => {
                self.programs.remove(program);
                assert(self.model().vertex_arrays =~= old(self).model().vertex_arrays);
            },
            Command::ClearColor { color } => {
                self.clear_color = *color;
            },
            Command::Viewport { width, height } => {
                self.viewport = Some((*width, *height));
            },
            Command::TogglePolygonMode => {
                self.polygon_mode = self.polygon_mode.toggled();
            },
            Command::Clear { .. }
            | Command::DrawElements { .. }
            | Command::CloseWindow
            | Command::PollEvents
            | Command::SwapBuffers => {},
        }
    }

    /// Records `command`: the state moves on by it, and the driver will find
    /// it behind the commands recorded before.
    pub fn record(&mut self, command: Command)
        requires
            old(self).model().permits(command@),
        ensures
            final(self).model() == old(self).model().apply(command@),
            final(self).pending() == old(self).pending().push(command@),
    {
        self.advance(&command);
        self.queue.push(command);
        assert(self.pending() =~= old(self).pending().push(command@));
    }

    /// Records a draw of `count` indices of the current index buffer, from
    /// its start, as triangles.
    ///
    /// The draw must be ready: a program and a vertex array with a complete
    /// layout are current, and the current index buffer holds `count`
    /// indices.
    pub fn draw_elements(&mut self, count: i32)
        requires
            old(self).model().draw_ready(count),
        ensures
            final(self).model() == old(self).model(),
            final(self).pending() == old(self).pending().push(
                CommandView::DrawElements { count },
            ),
    {
        self.record(Command::DrawElements { count });
    }

    /// Hands the pending commands to the driver, oldest first, and leaves
    /// none pending. The state stays: it already counts them as done.
    pub fn take_commands(&mut self) -> (commands: Vec<Command>)
        ensures
            views(commands@) == old(self).pending(),
            final(self).pending() == Seq::<CommandView>::empty(),
            final(self).model() == old(self).model(),
    {
        let mut commands: Vec<Command> = Vec::new();
        std::mem::swap(&mut self.queue, &mut commands);
        assert(self.pending() =~= Seq::<CommandView>::empty());
        assert(self.model().vertex_arrays =~= old(self).model().vertex_arrays);
        commands
    }
}

} // verus!
