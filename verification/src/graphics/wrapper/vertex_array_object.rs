use vstd::prelude::*;
use crate::error::FatalSetupError;
use crate::graphics::command::{Command, CommandView};
use crate::graphics::context::Context;

verus! {

/// A vertex array of the GPU: the buffers that were bound, and the inputs
/// that were described and switched on, while it was the current one.
///
/// The value owns the handle. It cannot be copied, and
/// [`delete`](VertexArrayObject::delete) takes it, so a handle is released at
/// most once.
/// A value that is dropped without it leaves its handle with the GPU until
/// the context ends.
#[derive(Debug)]
pub struct VertexArrayObject {
    id: u32,
}

impl VertexArrayObject {
    #[verifier::type_invariant]
    spec fn owns_a_handle(&self) -> bool {
        self.id != 0
    }

    /// The handle.
    pub closed spec fn id_spec(&self) -> u32 {
        self.id
    }

    /// The handle, which is never 0.
    #[verifier::when_used_as_spec(id_spec)]
    pub fn id(&self) -> (id: u32)
        ensures
            id == self.id_spec(),
            id != 0,
    {
        proof {
            use_type_invariant(self);
        }
        self.id
    }

    /// Takes ownership of `handle`, which the GPU has just handed out for a
    /// new vertex array, and notes in `gpu` that the vertex array exists,
    /// with no inputs.
    ///
    /// The GPU hands out 0 when it has no vertex array to give. That, and a
    /// handle that a vertex array of `gpu` already has, is a fatal error, and
    /// `gpu` stays as it was.
    pub fn new(gpu: &mut Context, handle: u32) -> (made: Result<VertexArrayObject, FatalSetupError>)
        ensures
            made is Ok <==> handle != 0 && !old(gpu).model().vertex_arrays.contains_key(handle),
            made matches Ok(array) ==> {
                &&& array.id() == handle
                &&& final(gpu).model() == old(gpu).model().with_vertex_array(handle)
            },
            made matches Err(error) ==> {
                &&& error == FatalSetupError::VertexArrayAllocation
                &&& final(gpu).model() == old(gpu).model()
            },
            final(gpu).pending() == old(gpu).pending(),
    {
        if handle == 0 || gpu.has_vertex_array(handle) {
            return Err(FatalSetupError::VertexArrayAllocation);
        }
        gpu.adopt_vertex_array(handle);
        Ok(VertexArrayObject { id: handle })
    }

    /// Whether this vertex array is the current one.
    pub fn is_bound(&self, gpu: &Context) -> (bound: bool)
        ensures
            self.id() != 0,
            bound == (gpu.model().vertex_array == self.id()),
    {
        proof {
            use_type_invariant(self);
        }
        gpu.bound_vertex_array() == self.id
    }

    /// Makes this vertex array the current one: what is described and
    /// switched on from now on goes into it.
    pub fn bind(&self, gpu: &mut Context)
        ensures
            self.id() != 0,
            final(gpu).model() == old(gpu).model().apply(
                CommandView::BindVertexArray { array: self.id() },
            ),
            final(gpu).model().vertex_array == self.id(),
            final(gpu).pending() == old(gpu).pending().push(
                CommandView::BindVertexArray { array: self.id() },
            ),
    {
        proof {
            use_type_invariant(self);
        }
        gpu.record(Command::BindVertexArray { array: self.id });
    }

    /// Leaves the GPU without a current vertex array.
    pub fn unbind(&self, gpu: &mut Context)
        ensures
            final(gpu).model() == old(gpu).model().apply(
                CommandView::BindVertexArray { array: 0 },
            ),
            final(gpu).model().vertex_array == 0,
            final(gpu).pending() == old(gpu).pending().push(
                CommandView::BindVertexArray { array: 0 },
            ),
    {
        gpu.record(Command::BindVertexArray { array: 0 });
    }

    /// Releases the handle. The vertex array exists no longer, and where it
    /// was the current one the GPU is left without one.
    pub fn delete(self, gpu: &mut Context)
        ensures
            final(gpu).model() == old(gpu).model().apply(
                CommandView::DeleteVertexArray { array: self.id() },
            ),
            !final(gpu).model().vertex_arrays.contains_key(self.id()),
            final(gpu).pending() == old(gpu).pending().push(
                CommandView::DeleteVertexArray { array: self.id() },
            ),
    {
        gpu.record(Command::DeleteVertexArray { array: self.id });
    }
}

} // verus!
