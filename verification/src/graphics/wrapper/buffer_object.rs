use vstd::prelude::*;
use vstd::slice::slice_to_vec;
use crate::error::FatalSetupError;
use crate::graphics::command::{
    BufferKind, Command, CommandView, Payload, PayloadView, Upload, UsageHint,
};
use crate::graphics::context::Context;

verus! {

/// A buffer of the GPU: a handle, the target it is bound to, and the usage
/// hint its uploads carry.
///
/// The value owns the handle. It cannot be copied, and
/// [`delete`](BufferObject::delete) takes it, so a handle is released at most
/// once.
/// A value that is dropped without it leaves its handle with the GPU until
/// the context ends.
#[derive(Debug)]
pub struct BufferObject {
    id: u32,
    kind: BufferKind,
    usage: UsageHint,
}

impl BufferObject {
    #[verifier::type_invariant]
    spec fn owns_a_handle(&self) -> bool {
        self.id != 0
    }

    /// The handle.
    pub closed spec fn id_spec(&self) -> u32 {
        self.id
    }

    /// The handle, which is never 0.
    #[verifier::when_used_as_spec(id_spec)]
    pub fn id(&self) -> (id: u32)
        ensures
            id == self.id_spec(),
            id != 0,
    {
        proof {
            use_type_invariant(self);
        }
        self.id
    }

    /// The target.
    pub closed spec fn kind_spec(&self) -> BufferKind {
        self.kind
    }

    /// The target.
    #[verifier::when_used_as_spec(kind_spec)]
    pub fn kind(&self) -> (kind: BufferKind)
        ensures
            kind == self.kind_spec(),
    {
        self.kind
    }

    /// The usage hint.
    pub closed spec fn usage_spec(&self) -> UsageHint {
        self.usage
    }

    /// The usage hint.
    #[verifier::when_used_as_spec(usage_spec)]
    pub fn usage(&self) -> (usage: UsageHint)
        ensures
            usage == self.usage_spec(),
    {
        self.usage
    }

    /// Takes ownership of `handle`, which the GPU has just handed out for a
    /// new buffer, and notes in `gpu` that the buffer exists, with an empty
    /// store.
    ///
    /// The GPU hands out 0 when it has no buffer to give. That, and a handle
    /// that a buffer of `gpu` already has, is a fatal error, and `gpu` stays
    /// as it was.
    pub fn new(gpu: &mut Context, kind: BufferKind, usage: UsageHint, handle: u32) -> (made: Result<
        BufferObject,
        FatalSetupError,
    >)
        ensures
            made is Ok <==> handle != 0 && !old(gpu).model().buffers.contains_key(handle),
            made matches Ok(buffer) ==> {
                &&& buffer.id() == handle
                &&& buffer.kind() == kind
                &&& buffer.usage() == usage
                &&& final(gpu).model() == old(gpu).model().with_buffer(handle)
            },
            made matches Err(error) ==> {
                &&& error == FatalSetupError::BufferAllocation
                &&& final(gpu).model() == old(gpu).model()
            },
            final(gpu).pending() == old(gpu).pending(),
    {
        if handle == 0 || gpu.has_buffer(handle) {
            return Err(FatalSetupError::BufferAllocation);
        }
        gpu.adopt_buffer(handle);
        Ok(BufferObject { id: handle, kind, usage })
    }

    /// Whether this buffer is the current one of its target.
    pub fn is_bound(&self, gpu: &Context) -> (bound: bool)
        ensures
            self.id() != 0,
            bound == (gpu.model().bound_buffer(self.kind()) == self.id()),
    {
        proof {
            use_type_invariant(self);
        }
        gpu.bound_buffer(self.kind) == self.id
    }

    /// Makes this buffer the current one of its target. Binding a buffer
    /// that is bound already changes nothing.
    pub fn bind(&self, gpu: &mut Context)
        ensures
            self.id() != 0,
            final(gpu).model() == old(gpu).model().apply(
                CommandView::BindBuffer { kind: self.kind(), buffer: self.id() },
            ),
            final(gpu).model().bound_buffer(self.kind()) == self.id(),
            final(gpu).pending() == old(gpu).pending().push(
                CommandView::BindBuffer { kind: self.kind(), buffer: self.id() },
            ),
    {
        proof {
            use_type_invariant(self);
        }
        gpu.record(Command::BindBuffer { kind: self.kind, buffer: self.id });
    }

    /// Leaves the target of this buffer without a current buffer.
    pub fn unbind(&self, gpu: &mut Context)
        ensures
            final(gpu).model() == old(gpu).model().apply(
                CommandView::BindBuffer { kind: self.kind(), buffer: 0 },
            ),
            final(gpu).model().bound_buffer(self.kind()) == 0,
            final(gpu).pending() == old(gpu).pending().push(
                CommandView::BindBuffer { kind: self.kind(), buffer: 0 },
            ),
    {
        gpu.record(Command::BindBuffer { kind: self.kind, buffer: 0 });
    }

    /// The command that uploads `data` into the store of this buffer.
    pub open spec fn upload(&self, data: PayloadView) -> CommandView {
        CommandView::BufferData { kind: self.kind(), data, usage: self.usage() }
    }

    /// Records the upload of `data` into the store of this buffer.
    fn store(&self, gpu: &mut Context, data: Payload)
        requires
            old(gpu).model().bound_buffer(self.kind()) == self.id(),
            data@.fits(),
        ensures
            final(gpu).model() == old(gpu).model().apply(self.upload(data@)),
            final(gpu).pending() == old(gpu).pending().push(self.upload(data@)),
    {
        proof {
            use_type_invariant(self);
        }
        match Upload::new(data) {
            Some(upload) => {
                gpu.record(Command::BufferData { kind: self.kind, upload, usage: self.usage });
            },
            None => {},
        }
    }

    /// Replaces the store of this buffer by a copy of `data`, which holds
    /// single-precision numbers in the IEEE 754 binary32 format, each as its
    /// 32 bits. The new store has four bytes for each element, whatever the
    /// store held before.
    ///
    /// The buffer must be the current one of its target, and the size of
    /// `data` in bytes one that the graphics interface can be told.
    pub fn store_f32_data(&self, gpu: &mut Context, data: &[u32])
        requires
            old(gpu).model().bound_buffer(self.kind()) == self.id(),
            PayloadView::Floats(data@).fits(),
        ensures
            final(gpu).model() == old(gpu).model().apply(
                self.upload(PayloadView::Floats(data@)),
            ),
            old(gpu).model().buffers.contains_key(self.id()) ==> final(gpu).model().buffers[self.id()]
                == data@.len() * 4,
            final(gpu).pending() == old(gpu).pending().push(
                self.upload(PayloadView::Floats(data@)),
            ),
    {
        self.store(gpu, Payload::Floats(slice_to_vec(data)));
    }

    /// Replaces the store of this buffer by a copy of `data`. The new store
    /// has four bytes for each element, whatever the store held before.
    ///
    /// The buffer must be the current one of its target, and the size of
    /// `data` in bytes one that the graphics interface can be told.
    pub fn store_i32_data(&self, gpu: &mut Context, data: &[i32])
        requires
            old(gpu).model().bound_buffer(self.kind()) == self.id(),
            PayloadView::Integers(data@).fits(),
        ensures
            final(gpu).model() == old(gpu).model().apply(
                self.upload(PayloadView::Integers(data@)),
            ),
            old(gpu).model().buffers.contains_key(self.id()) ==> final(gpu).model().buffers[self.id()]
                == data@.len() * 4,
            final(gpu).pending() == old(gpu).pending().push(
                self.upload(PayloadView::Integers(data@)),
            ),
    {
        self.store(gpu, Payload::Integers(slice_to_vec(data)));
    }

    /// Releases the handle. The buffer exists no longer, and a target it was
    /// current at is left without a current buffer.
    pub fn delete(self, gpu: &mut Context)
        ensures
            final(gpu).model() == old(gpu).model().apply(
                CommandView::DeleteBuffer { buffer: self.id() },
            ),
            !final(gpu).model().buffers.contains_key(self.id()),
            final(gpu).pending() == old(gpu).pending().push(
                CommandView::DeleteBuffer { buffer: self.id() },
            ),
    {
        gpu.record(Command::DeleteBuffer { buffer: self.id });
    }
}

} // verus!
