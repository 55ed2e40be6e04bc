use vstd::prelude::*;
use crate::error::FatalSetupError;
use crate::graphics::command::{
    AttributeLayout, BufferKind, CommandView, ElementType, PayloadView, UsageHint,
};
use crate::graphics::context::Context;
use crate::graphics::model::{
    lemma_apply_all_joined, lemma_apply_all_single, AttributeState, GpuModel,
};
use crate::graphics::window::{frame_end, reactions, Event, Window};
use crate::graphics::wrapper::buffer_object::BufferObject;
use crate::graphics::wrapper::color::Color;
use crate::graphics::wrapper::vertex_array_object::VertexArrayObject;
use crate::graphics::wrapper::vertex_attribute_pointer::VertexAttributePointer;

verus! {

/// The slot of the vertex shader that the positions of a mesh feed.
pub const POSITION_SLOT: u32 = 0;

/// The number of components of a position.
pub const POSITION_COMPONENTS: i32 = 3;

/// The distance in bytes from one position to the next: three numbers of
/// four bytes each.
pub const POSITION_STRIDE: i32 = 12;

/// How the positions of a mesh lie in its vertex buffer: three
/// single-precision numbers for each vertex, one vertex after the other from
/// the start of the buffer.
pub open spec fn position_layout() -> AttributeLayout {
    AttributeLayout {
        components: POSITION_COMPONENTS,
        element: ElementType::Float,
        normalized: false,
        stride: POSITION_STRIDE,
        offset: 0,
    }
}

/// The mathematical value of a [`Mesh`]: the handles of its three objects,
/// and the number of its indices.
pub struct MeshView {
    pub vertex_array: u32,
    pub vertex_buffer: u32,
    pub index_buffer: u32,
    pub index_count: i32,
}

/// Whether the three handles can become the objects of a new mesh in
/// `model`: none is 0, none is in use, and the two buffers differ.
pub open spec fn handles_free(
    model: GpuModel,
    vertex_array: u32,
    vertex_buffer: u32,
    index_buffer: u32,
) -> bool {
    &&& vertex_array != 0
    &&& !model.vertex_arrays.contains_key(vertex_array)
    &&& vertex_buffer != 0
    &&& index_buffer != 0
    &&& vertex_buffer != index_buffer
    &&& !model.buffers.contains_key(vertex_buffer)
    &&& !model.buffers.contains_key(index_buffer)
}

/// The commands that set a mesh up, in order: bind the vertex array; bind
/// the vertex buffer and fill it; bind the index buffer and fill it;
/// describe the positions and switch them on; unbind the vertex buffer.
pub open spec fn setup_commands(
    mesh: MeshView,
    usage: UsageHint,
    vertices: Seq<u32>,
    indices: Seq<i32>,
) -> Seq<CommandView> {
    seq![
        CommandView::BindVertexArray { array: mesh.vertex_array },
        CommandView::BindBuffer { kind: BufferKind::VertexData, buffer: mesh.vertex_buffer },
        CommandView::BufferData {
            kind: BufferKind::VertexData,
            data: PayloadView::Floats(vertices),
            usage,
        },
        CommandView::BindBuffer { kind: BufferKind::IndexData, buffer: mesh.index_buffer },
        CommandView::BufferData {
            kind: BufferKind::IndexData,
            data: PayloadView::Integers(indices),
            usage,
        },
        CommandView::VertexAttribPointer { slot: POSITION_SLOT, layout: position_layout() },
        CommandView::EnableVertexAttribArray { slot: POSITION_SLOT },
        CommandView::BindBuffer { kind: BufferKind::VertexData, buffer: 0 },
    ]
}

/// The state after the setup of a mesh with `vertices` numbers and as many
/// indices as the mesh says. The vertex array is current, and holds the
/// positions, switched on and read from the vertex buffer; the index buffer
/// is current; no vertex buffer is; and each buffer has four bytes for each
/// of its elements.
pub open spec fn with_mesh(model: GpuModel, mesh: MeshView, vertices: nat) -> GpuModel {
    GpuModel {
        vertex_array: mesh.vertex_array,
        array_buffer: 0,
        element_buffer: mesh.index_buffer,
        vertex_arrays: model.vertex_arrays.insert(
            mesh.vertex_array,
            Map::<u32, AttributeState>::empty().insert(
                POSITION_SLOT,
                AttributeState {
                    layout: Some(position_layout()),
                    source: mesh.vertex_buffer,
                    enabled: true,
                },
            ),
        ),
        buffers: model.buffers.insert(mesh.vertex_buffer, vertices * 4).insert(
            mesh.index_buffer,
            mesh.index_count as nat * 4,
        ),
        ..model
    }
}

/// A mesh on the GPU: a vertex array, the buffer of its positions and the
/// buffer of its indices, set up to be drawn as triangles.
#[derive(Debug)]
pub struct Mesh {
    vertex_array: VertexArrayObject,
    vertex_buffer: BufferObject,
    index_buffer: BufferObject,
    position: VertexAttributePointer,
    index_count: i32,
}

impl View for Mesh {
    type V = MeshView;

    closed spec fn view(&self) -> MeshView {
        MeshView {
            vertex_array: self.vertex_array.id(),
            vertex_buffer: self.vertex_buffer.id(),
            index_buffer: self.index_buffer.id(),
            index_count: self.index_count,
        }
    }
}

impl Mesh {
    #[verifier::type_invariant]
    spec fn well_formed(&self) -> bool {
        &&& self.index_count >= 0
        &&& self.position.index() == POSITION_SLOT
    }

    /// Makes a mesh of the positions `vertices`, three single-precision
    /// numbers in the IEEE 754 binary32 format for each vertex, each as its
    /// 32 bits, and of the indices `indices`, and records its setup. The
    /// three handles are those that the GPU has just handed out for the
    /// vertex array and the two buffers.
    ///
    /// A handle that is 0 or in use, and one handle given for both buffers,
    /// is a fatal error: for the vertex array if its handle is at fault,
    /// else for a buffer. On an error nothing is recorded, and `gpu` stays
    /// as it was.
    ///
    /// The sizes of `vertices` and of `indices` in bytes must be such as the
    /// graphics interface can be told, and so must the number of indices.
    pub fn new(
        gpu: &mut Context,
        vertex_array: u32,
        vertex_buffer: u32,
        index_buffer: u32,
        usage: UsageHint,
        vertices: &[u32],
        indices: &[i32],
    ) -> (made: Result<Mesh, FatalSetupError>)
        requires
            PayloadView::Floats(vertices@).fits(),
            PayloadView::Integers(indices@).fits(),
            indices@.len() <= i32::MAX,
        ensures
            made is Ok <==> handles_free(
                old(gpu).model(),
                vertex_array,
                vertex_buffer,
                index_buffer,
            ),
            made matches Ok(mesh) ==> {
                &&& mesh@ == (MeshView {
                    vertex_array,
                    vertex_buffer,
                    index_buffer,
                    index_count: indices@.len() as i32,
                })
                &&& final(gpu).model() == with_mesh(old(gpu).model(), mesh@, vertices@.len())
                &&& final(gpu).pending() == old(gpu).pending() + setup_commands(
                    mesh@,
                    usage,
                    vertices@,
                    indices@,
                )
            },
            made matches Err(error) ==> {
                &&& error == if vertex_array == 0 || old(gpu).model().vertex_arrays.contains_key(
                    vertex_array,
                ) {
                    FatalSetupError::VertexArrayAllocation
                } else {
                    FatalSetupError::BufferAllocation
                }
                &&& final(gpu).model() == old(gpu).model()
                &&& final(gpu).pending() == old(gpu).pending()
            },
    {
        if vertex_array == 0 || gpu.has_vertex_array(vertex_array) {
            return Err(FatalSetupError::VertexArrayAllocation);
        }
        if vertex_buffer == 0 || index_buffer == 0 || vertex_buffer == index_buffer
            || gpu.has_buffer(vertex_buffer) || gpu.has_buffer(index_buffer) {
            return Err(FatalSetupError::BufferAllocation);
        }
        let vao = match VertexArrayObject::new(gpu, vertex_array) {
            Ok(vao) => vao,
            Err(error) => {
                return Err(error);
            },
        };
        vao.bind(gpu);

        let vbo = match BufferObject::new(gpu, BufferKind::VertexData, usage, vertex_buffer) {
            Ok(vbo) => vbo,
            Err(error) => {
                return Err(error);
            },
        };
        vbo.bind(gpu);
        vbo.store_f32_data(gpu, vertices);

        let ebo = match BufferObject::new(gpu, BufferKind::IndexData, usage, index_buffer) {
            Ok(ebo) => ebo,
            Err(error) => {
                return Err(error);
            },
        };
        ebo.bind(gpu);
        ebo.store_i32_data(gpu, indices);

        let position = VertexAttributePointer::new(
            gpu,
            POSITION_SLOT,
            POSITION_COMPONENTS,
            ElementType::Float,
            false,
            POSITION_STRIDE,
            0,
        );
        position.enable(gpu);

        vbo.unbind(gpu);

        let mesh = Mesh {
            vertex_array: vao,
            vertex_buffer: vbo,
            index_buffer: ebo,
            position,
            index_count: indices.len() as i32,
        };
        proof {
            let expected = with_mesh(old(gpu).model(), mesh@, vertices@.len());
            assert(gpu.model().vertex_arrays =~= expected.vertex_arrays) by {
                assert(gpu.model().vertex_arrays[vertex_array] =~= expected.vertex_arrays[vertex_array]);
            }
            assert(gpu.model().buffers =~= expected.buffers);
            assert(gpu.pending() =~= old(gpu).pending() + setup_commands(
                mesh@,
                usage,
                vertices@,
                indices@,
            ));
        }
        Ok(mesh)
    }

    /// The number of indices.
    pub fn index_count(&self) -> (count: i32)
        ensures
            count == self@.index_count,
            count >= 0,
    {
        proof {
            use_type_invariant(self);
        }
        self.index_count
    }

    /// Whether a draw of the mesh has all that it reads.
    pub fn is_ready(&self, gpu: &Context) -> (ready: bool)
        ensures
            ready == gpu.model().draw_ready(self@.index_count),
    {
        gpu.can_draw(self.index_count)
    }

    /// Records the draw of the mesh: all its indices, as triangles.
    ///
    /// The draw must be ready.
    pub fn draw(&self, gpu: &mut Context)
        requires
            old(gpu).model().draw_ready(self@.index_count),
        ensures
            final(gpu).model() == old(gpu).model(),
            final(gpu).pending() == old(gpu).pending().push(
                CommandView::DrawElements { count: self@.index_count },
            ),
    {
        gpu.draw_elements(self.index_count);
    }

    /// Releases the three objects of the mesh: the index buffer, the vertex
    /// buffer, the vertex array.
    pub fn delete(self, gpu: &mut Context)
        ensures
            final(gpu).model() == old(gpu).model().apply(
                CommandView::DeleteBuffer { buffer: self@.index_buffer },
            ).apply(CommandView::DeleteBuffer { buffer: self@.vertex_buffer }).apply(
                CommandView::DeleteVertexArray { array: self@.vertex_array },
            ),
            final(gpu).pending() == old(gpu).pending().push(
                CommandView::DeleteBuffer { buffer: self@.index_buffer },
            ).push(CommandView::DeleteBuffer { buffer: self@.vertex_buffer }).push(
                CommandView::DeleteVertexArray { array: self@.vertex_array },
            ),
    {
        self.index_buffer.delete(gpu);
        self.vertex_buffer.delete(gpu);
        self.vertex_array.delete(gpu);
    }
}

/// A mesh that has just been set up is ready to be drawn as soon as a
/// program that exists is current: all of its indices, or fewer.
pub proof fn lemma_mesh_is_ready(model: GpuModel, mesh: MeshView, vertices: nat, count: i32)
    requires
        handles_free(model, mesh.vertex_array, mesh.vertex_buffer, mesh.index_buffer),
        model.program != 0,
        model.programs.contains(model.program),
        0 <= count <= mesh.index_count,
    ensures
        with_mesh(model, mesh, vertices).draw_ready(count),
        with_mesh(model, mesh, vertices).drawable(),
{
    let ready = with_mesh(model, mesh, vertices);
    let slots = ready.vertex_arrays[mesh.vertex_array];
    assert(slots.contains_key(POSITION_SLOT) && slots[POSITION_SLOT].enabled);
}

/// Whether two states hold the same objects and the same bindings.
pub open spec fn same_objects(a: GpuModel, b: GpuModel) -> bool {
    &&& a.vertex_array == b.vertex_array
    &&& a.array_buffer == b.array_buffer
    &&& a.element_buffer == b.element_buffer
    &&& a.program == b.program
    &&& a.vertex_arrays == b.vertex_arrays
    &&& a.buffers == b.buffers
    &&& a.programs == b.programs
}

/// Input never takes a draw apart. What the events of a window call for
/// leaves every object and every binding as it was, so a draw that was ready
/// before the events is ready after them.
pub proof fn lemma_events_keep_objects(model: GpuModel, events: Seq<Event>, count: i32)
    ensures
        same_objects(model, model.apply_all(reactions(events))),
        model.draw_ready(count) == model.apply_all(reactions(events)).draw_ready(count),
    decreases events.len(),
{
    if events.len() > 0 {
        let front = events.drop_last();
        lemma_events_keep_objects(model, front, count);
        lemma_apply_all_joined(model, reactions(front), events.last().reaction());
        if let Some(command) = events.last().command() {
            lemma_apply_all_single(model.apply_all(reactions(front)), command);
        }
    }
}

/// Renders one frame: clears the framebuffer as `color` says, draws `mesh`,
/// then ends the frame as [`Window::update`] does with the events that
/// arrived during it.
///
/// The draw must be ready; it is ready again after the frame, so that a
/// loop of frames never meets a draw that is not.
pub fn render_frame(
    window: &mut Window,
    gpu: &mut Context,
    color: &Color,
    mesh: &Mesh,
    events: &[Event],
)
    requires
        old(gpu).model().draw_ready(mesh@.index_count),
    ensures
        final(window)@ == old(window)@.after_all(events@),
        final(gpu).model() == old(gpu).model().apply(
            CommandView::ClearColor { color: color.channels() },
        ).apply_all(reactions(events@)),
        final(gpu).model().draw_ready(mesh@.index_count),
        final(gpu).pending() == old(gpu).pending().push(
            CommandView::ClearColor { color: color.channels() },
        ).push(CommandView::Clear { mask: color.mask() }).push(
            CommandView::DrawElements { count: mesh@.index_count },
        ) + reactions(events@) + frame_end(),
{
    color.clear(gpu);
    mesh.draw(gpu);
    proof {
        lemma_events_keep_objects(gpu.model(), events@, mesh@.index_count);
    }
    window.update(gpu, events);
}

} // verus!
