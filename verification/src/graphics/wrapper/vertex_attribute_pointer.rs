use vstd::prelude::*;
use crate::graphics::command::{AttributeLayout, Command, CommandView, ElementType};
use crate::graphics::context::Context;

verus! {

/// One input of the vertex shader, as described to the GPU: the slot it was
/// described for. The description itself lives in the vertex array that was
/// current then.
#[derive(Debug)]
pub struct VertexAttributePointer {
    index: u32,
}

impl VertexAttributePointer {
    /// The slot.
    pub closed spec fn index_spec(&self) -> u32 {
        self.index
    }

    /// The slot.
    #[verifier::when_used_as_spec(index_spec)]
    pub fn index(&self) -> (index: u32)
        ensures
            index == self.index_spec(),
    {
        self.index
    }

    /// Describes input `index` of the vertex shader: `size` components of
    /// type `element`, `stride` bytes from one vertex to the next, the first
    /// at byte `offset` of the current vertex buffer. The description goes
    /// into the current vertex array, and leaves the input switched on or
    /// off as it was.
    ///
    /// A vertex array and a vertex buffer must be current.
    pub fn new(
        gpu: &mut Context,
        index: u32,
        size: i32,
        element: ElementType,
        normalized: bool,
        stride: i32,
        offset: usize,
    ) -> (pointer: VertexAttributePointer)
        requires
            old(gpu).model().vertex_array != 0,
            old(gpu).model().array_buffer != 0,
            1 <= size <= 4,
            stride >= 0,
        ensures
            pointer.index() == index,
            final(gpu).model() == old(gpu).model().apply(
                CommandView::VertexAttribPointer {
                    slot: index,
                    layout: AttributeLayout { components: size, element, normalized, stride, offset },
                },
            ),
            final(gpu).pending() == old(gpu).pending().push(
                CommandView::VertexAttribPointer {
                    slot: index,
                    layout: AttributeLayout { components: size, element, normalized, stride, offset },
                },
            ),
    {
        let layout = AttributeLayout { components: size, element, normalized, stride, offset };
        gpu.record(Command::VertexAttribPointer { slot: index, layout });
        VertexAttributePointer { index }
    }

    /// Switches the input on in the current vertex array. Switching on an
    /// input that is on already changes nothing.
    pub fn enable(&self, gpu: &mut Context)
        ensures
            final(gpu).model() == old(gpu).model().apply(
                CommandView::EnableVertexAttribArray { slot: self.index() },
            ),
            final(gpu).pending() == old(gpu).pending().push(
                CommandView::EnableVertexAttribArray { slot: self.index() },
            ),
    {
        gpu.record(Command::EnableVertexAttribArray { slot: self.index });
    }

    /// Switches the input off in the current vertex array. The description
    /// stays.
    pub fn disable(&self, gpu: &mut Context)
        ensures
            final(gpu).model() == old(gpu).model().apply(
                CommandView::DisableVertexAttribArray { slot: self.index() },
            ),
            final(gpu).pending() == old(gpu).pending().push(
                CommandView::DisableVertexAttribArray { slot: self.index() },
            ),
    {
        gpu.record(Command::DisableVertexAttribArray { slot: self.index });
    }
}

} // verus!
