//! GPU buffer handles.
//!
//! A buffer handle carries the identity, size and usage of a planned device
//! buffer.  The handle owns its backing store exclusively: growing it
//! requires exclusive access, so a grown buffer can never be observed stale
//! through another handle.

use crate::commands::{CreateAction, CreateActionView};
use crate::context::{context_unchanged, fresh_resource_id, Context};
use crate::types::{BufferBindingType, BufferUsages};
use vstd::prelude::*;

verus! {

/// A handle to a GPU buffer.
#[derive(Debug)]
pub struct Buffer {
    pub(crate) id: u128,
    pub(crate) size: usize,
    pub(crate) usage: BufferUsages,
}

impl PartialEq for Buffer {
    fn eq(&self, other: &Self) -> (r: bool) {
        self.id == other.id
    }
}

impl vstd::std_specs::cmp::PartialEqSpecImpl for Buffer {
    open spec fn obeys_eq_spec() -> bool {
        true
    }

    open spec fn eq_spec(&self, other: &Self) -> bool {
        self.spec_id() == other.spec_id()
    }
}

pub(crate) fn slice_bytes_to_vec(data: &[u8]) -> (r: Vec<u8>)
    ensures
        r@ == data@,
{
    let n = data.len();
    let mut out: Vec<u8> = Vec::new();
    let mut i: usize = 0;
    while i < n
        invariant
            i <= n,
            n == data@.len(),
            out@ == data@.subrange(0, i as int),
        decreases n - i,
    {
        out.push(data[i]);
        proof {
            assert(out@ =~= data@.subrange(0, i + 1));
        }
        i = i + 1;
    }
    proof {
        assert(out@ =~= data@);
    }
    out
}

impl Buffer {
    /// Create an empty buffer of the given size and usage, planning the
    /// device allocation.
    pub fn new(label: Option<&str>, usage: BufferUsages, size: usize, context: &mut Context) -> (r:
        Buffer)
        requires
            old(context).wf(),
        ensures
            final(context).wf(),
            context_unchanged(*old(context), *final(context)),
            final(context).spec_next_id() == old(context).spec_next_id(),
            r.spec_size() == size,
            r.spec_usage() == usage,
            final(context).spec_actions() == old(context).spec_actions().push(
                CreateActionView::Buffer {
                    id: r.spec_id(),
                    label: match label {
                        Some(l) => Some(l@),
                        None => None,
                    },
                    usage,
                    size: size as u64,
                },
            ),
    {
        let id = fresh_resource_id();
        let label_owned: Option<String> = match label {
            Some(l) => Some(l.to_owned()),
            None => None,
        };
        context.push_action(
            CreateAction::Buffer { id, label: label_owned, usage, size: size as u64 },
        );
        Buffer { id, size, usage }
    }

    /// Create a buffer holding the given bytes, planning the device
    /// allocation and upload.
    pub fn with_data(label: Option<&str>, usage: BufferUsages, data: &[u8], context: &mut Context)
        -> (r: Buffer)
        requires
            old(context).wf(),
        ensures
            final(context).wf(),
            context_unchanged(*old(context), *final(context)),
            final(context).spec_next_id() == old(context).spec_next_id(),
            r.spec_size() == data@.len(),
            r.spec_usage() == usage,
            final(context).spec_actions() == old(context).spec_actions().push(
                CreateActionView::BufferInit {
                    id: r.spec_id(),
                    label: match label {
                        Some(l) => Some(l@),
                        None => None,
                    },
                    usage,
                    contents: data@,
                },
            ),
    {
        let id = fresh_resource_id();
        let label_owned: Option<String> = match label {
            Some(l) => Some(l.to_owned()),
            None => None,
        };
        let contents = slice_bytes_to_vec(data);
        context.push_action(CreateAction::BufferInit { id, label: label_owned, usage, contents });
        Buffer { id, size: data.len(), usage }
    }

    /// Grow the buffer to `new_size`, planning the reallocation; a buffer
    /// already at least that large is left untouched.  Growth requires this
    /// exclusive handle, so no other holder can observe a stale size.
    pub fn ensure_capacity(&mut self, new_size: usize, context: &mut Context)
        requires
            old(context).wf(),
        ensures
            final(context).wf(),
            context_unchanged(*old(context), *final(context)),
            final(context).spec_next_id() == old(context).spec_next_id(),
            final(self).spec_id() == old(self).spec_id(),
            final(self).spec_usage() == old(self).spec_usage(),
            new_size <= old(self).spec_size() ==> final(self).spec_size() == old(self).spec_size()
                && final(context).spec_actions() == old(context).spec_actions(),
            new_size > old(self).spec_size() ==> final(self).spec_size() == new_size
                && final(context).spec_actions() == old(context).spec_actions().push(
                CreateActionView::ReallocBuffer {
                    id: old(self).spec_id(),
                    usage: old(self).spec_usage(),
                    size: new_size as u64,
                },
            ),
    {
        if new_size > self.size {
            self.size = new_size;
            context.push_action(
                CreateAction::ReallocBuffer {
                    id: self.id,
                    usage: self.usage,
                    size: new_size as u64,
                },
            );
        }
    }

    /// Plan writing the given bytes to the start of the buffer.
    pub fn write(&self, data: &[u8], context: &mut Context)
        requires
            old(context).wf(),
        ensures
            final(context).wf(),
            context_unchanged(*old(context), *final(context)),
            final(context).spec_next_id() == old(context).spec_next_id(),
            final(context).spec_actions() == old(context).spec_actions().push(
                CreateActionView::WriteBuffer { id: self.spec_id(), offset: 0, data: data@ },
            ),
    {
        let contents = slice_bytes_to_vec(data);
        context.push_action(CreateAction::WriteBuffer { id: self.id, offset: 0, data: contents });
    }

    /// The identity of the underlying device buffer.
    pub closed spec fn spec_id(&self) -> u128 {
        self.id
    }

    /// The current size of the buffer in bytes.
    pub closed spec fn spec_size(&self) -> usize {
        self.size
    }

    /// The usage mask the buffer was created with.
    pub closed spec fn spec_usage(&self) -> BufferUsages {
        self.usage
    }

    /// The identity of the underlying device buffer.
    pub fn id(&self) -> (r: u128)
        ensures
            r == self.spec_id(),
    {
        self.id
    }

    /// The current size of the buffer in bytes.
    pub fn size(&self) -> (r: usize)
        ensures
            r == self.spec_size(),
    {
        self.size
    }

    /// Obtain a slice covering the given bounds, constrained to the buffer's
    /// current size.
    pub fn slice(&self, start_bound: SliceBound, end_bound: SliceBound) -> (r: BufferSlice)
        requires
            bound_value(start_bound) + 1 <= u64::MAX,
            bound_value(end_bound) + 1 <= u64::MAX,
        ensures
            r.buffer == self.spec_id(),
            r.start == resolved_start(start_bound),
            r.end == resolved_end(end_bound, self.spec_size() as u64),
    {
        let bounds = constrain_range_to_container_len(start_bound, end_bound, self.size as u64);
        BufferSlice { buffer: self.id, start: bounds.start, end: bounds.end }
    }

    /// Bind this buffer as a uniform buffer, for use in a bind group.
    #[must_use]
    pub fn uniform_binding(&self) -> (r: BufferBinding)
        ensures
            r == (BufferBinding {
                buffer: self.spec_id(),
                binding_type: BufferBindingType::Uniform,
                has_dynamic_offset: false,
                min_binding_size: None,
            }),
    {
        BufferBinding {
            buffer: self.id,
            binding_type: BufferBindingType::Uniform,
            has_dynamic_offset: false,
            min_binding_size: None,
        }
    }

    /// Bind this buffer as a storage buffer, for use in a bind group.
    #[must_use]
    pub fn storage_binding(&self, read_only: bool) -> (r: BufferBinding)
        ensures
            r == (BufferBinding {
                buffer: self.spec_id(),
                binding_type: BufferBindingType::Storage { read_only },
                has_dynamic_offset: false,
                min_binding_size: None,
            }),
    {
        BufferBinding {
            buffer: self.id,
            binding_type: BufferBindingType::Storage { read_only },
            has_dynamic_offset: false,
            min_binding_size: None,
        }
    }
}

/// How a buffer is attached to a bind group slot.
#[derive(Clone, Copy, Debug)]
pub struct BufferBinding {
    /// The identity of the bound buffer.
    pub buffer: u128,
    pub binding_type: BufferBindingType,
    pub has_dynamic_offset: bool,
    pub min_binding_size: Option<u64>,
}

impl PartialEq for BufferBinding {
    fn eq(&self, other: &Self) -> (r: bool) {
        self.buffer == other.buffer && self.binding_type == other.binding_type
            && self.has_dynamic_offset == other.has_dynamic_offset && self.min_binding_size
            == other.min_binding_size
    }
}

impl vstd::std_specs::cmp::PartialEqSpecImpl for BufferBinding {
    open spec fn obeys_eq_spec() -> bool {
        true
    }

    open spec fn eq_spec(&self, other: &Self) -> bool {
        *self == *other
    }
}

/// A sub-range of a buffer, identified by the buffer and byte bounds.
#[derive(Clone, Copy, Debug)]
pub struct BufferSlice {
    /// The identity of the sliced buffer.
    pub buffer: u128,
    /// The first byte of the slice.
    pub start: u64,
    /// One past the last byte of the slice.
    pub end: u64,
}

/// One endpoint of a requested slice range.
#[derive(Clone, Copy, Debug)]
pub enum SliceBound {
    Included(u64),
    Excluded(u64),
    Unbounded,
}

/// The largest offset a bound mentions, used to state freedom from overflow.
pub open spec fn bound_value(b: SliceBound) -> u64 {
    match b {
        SliceBound::Included(t) => t,
        SliceBound::Excluded(t) => t,
        SliceBound::Unbounded => 0,
    }
}

/// The concrete start offset a slice bound denotes.
pub open spec fn resolved_start(b: SliceBound) -> int {
    match b {
        SliceBound::Included(t) => t as int,
        SliceBound::Excluded(t) => t + 1,
        SliceBound::Unbounded => 0,
    }
}

/// The concrete end offset a slice bound denotes within a container of the
/// given length.
pub open spec fn resolved_end(b: SliceBound, container_len: u64) -> int {
    match b {
        SliceBound::Included(t) => t + 1,
        SliceBound::Excluded(t) => t as int,
        SliceBound::Unbounded => container_len as int,
    }
}

/// Turn a pair of slice bounds into a concrete half-open range within a
/// container of the given length: an unbounded start begins at zero and an
/// unbounded end stops at the container's length.
pub fn constrain_range_to_container_len(
    start_bound: SliceBound,
    end_bound: SliceBound,
    container_len: u64,
) -> (r: core::ops::Range<u64>)
    requires
        bound_value(start_bound) + 1 <= u64::MAX,
        bound_value(end_bound) + 1 <= u64::MAX,
    ensures
        r.start == resolved_start(start_bound),
        r.end == resolved_end(end_bound, container_len),
{
    let start: u64 = match start_bound {
        SliceBound::Included(t) => t,
        SliceBound::Excluded(t) => t + 1,
        SliceBound::Unbounded => 0,
    };
    let end: u64 = match end_bound {
        SliceBound::Included(t) => t + 1,
        SliceBound::Excluded(t) => t,
        SliceBound::Unbounded => container_len,
    };
    start..end
}

} // verus!
