use vstd::prelude::*;

use crate::command::GlCall;
use crate::error::UploadError;
use crate::glenum::{DYNAMIC_COPY, SHADER_STORAGE_BUFFER, WRITE_ONLY};

verus! {

/// The byte size of `count` elements of `T`.
pub open spec fn bytes_of<T>(count: nat) -> nat {
    vstd::layout::size_of::<T>() * count
}

/// Whether `count` elements of `T` fit the backend's signed byte sizes.
pub open spec fn count_fits<T>(count: nat) -> bool {
    bytes_of::<T>(count) <= isize::MAX
}

/// The calls that give buffer `id` storage of `bytes` bytes, filled from the
/// caller's data; the binding is undone at the end.
pub open spec fn allocation_seq(id: u32, bytes: usize) -> Seq<GlCall> {
    seq![
        GlCall::BindBuffer { target: SHADER_STORAGE_BUFFER, buffer: id },
        GlCall::BufferData { target: SHADER_STORAGE_BUFFER, size: bytes, usage: DYNAMIC_COPY },
        GlCall::BindBuffer { target: SHADER_STORAGE_BUFFER, buffer: 0 },
    ]
}

/// The calls that overwrite the `bytes` bytes of buffer `id` with the
/// caller's data through a write-only mapping; the binding is undone at the end.
pub open spec fn mapping_seq(id: u32, bytes: usize) -> Seq<GlCall> {
    seq![
        GlCall::BindBuffer { target: SHADER_STORAGE_BUFFER, buffer: id },
        GlCall::MapBuffer { target: SHADER_STORAGE_BUFFER, access: WRITE_ONLY },
        GlCall::CopyToMapped { bytes },
        GlCall::UnmapBuffer { target: SHADER_STORAGE_BUFFER },
        GlCall::BindBuffer { target: SHADER_STORAGE_BUFFER, buffer: 0 },
    ]
}

/// A GPU storage buffer of `T` elements, mirrored by a structure in shader
/// code. The buffer keeps no CPU copy of its data. Its size is fixed at
/// creation. Not `Clone`: the handle has a single owner.
#[derive(Debug)]
pub struct StructuredBuffer<T> {
    phantom: core::marker::PhantomData<T>,
    id: u32,
    buffer_size: usize,
    elements: usize,
}

impl<T> StructuredBuffer<T> {
    pub closed spec fn handle(&self) -> u32 {
        self.id
    }

    pub closed spec fn count(&self) -> nat {
        self.elements as nat
    }

    pub closed spec fn byte_size(&self) -> nat {
        self.buffer_size as nat
    }

    /// The handle is valid, and the byte size is that of the elements and
    /// fits a signed size.
    pub open spec fn wf(&self) -> bool {
        self.handle() != 0 && self.byte_size() == bytes_of::<T>(self.count()) && count_fits::<T>(
            self.count(),
        )
    }

    /// Wraps `id`, a buffer object that the backend has just created, as a
    /// buffer of `size` elements; `allocation_calls` then gives it storage.
    pub fn new(id: u32, size: usize) -> (b: Self)
        requires
            id != 0,
            count_fits::<T>(size as nat),
        ensures
            b.wf(),
            b.handle() == id,
            b.count() == size,
            b.byte_size() == bytes_of::<T>(size as nat),
    {
        let buffer_size = core::mem::size_of::<T>() * size;
        StructuredBuffer { phantom: core::marker::PhantomData, id, buffer_size, elements: size }
    }

    /// Wraps `id` as a buffer that holds exactly `data`; `allocation_calls`
    /// then gives it storage filled from `data`.
    pub fn from(id: u32, data: &Vec<T>) -> (b: Self)
        requires
            id != 0,
            count_fits::<T>(data@.len()),
        ensures
            b.wf(),
            b.handle() == id,
            b.count() == data@.len(),
            b.byte_size() == bytes_of::<T>(data@.len()),
    {
        StructuredBuffer::new(id, data.len())
    }

    /// The calls that give the buffer its storage, from data of `count()`
    /// elements: `count()` default elements after `new`, the data after `from`.
    pub fn allocation_calls(&self) -> (r: Vec<GlCall>)
        requires
            self.wf(),
        ensures
            r@ == allocation_seq(self.handle(), self.byte_size() as usize),
    {
        vec![
            GlCall::BindBuffer { target: SHADER_STORAGE_BUFFER, buffer: self.id },
            GlCall::BufferData { target: SHADER_STORAGE_BUFFER, size: self.buffer_size, usage: DYNAMIC_COPY },
            GlCall::BindBuffer { target: SHADER_STORAGE_BUFFER, buffer: 0 },
        ]
    }

    /// The calls that copy `data` into the buffer. `data` must have exactly
    /// as many elements as the buffer.
    pub fn map_data(&mut self, data: &Vec<T>) -> (r: Result<Vec<GlCall>, UploadError>)
        requires
            old(self).wf(),
        ensures
            *final(self) == *old(self),
            data@.len() == old(self).count() <==> r is Ok,
            r matches Ok(calls) ==> calls@ == mapping_seq(old(self).handle(), old(self).byte_size() as usize),
            data@.len() != old(self).count() ==> r == Err::<Vec<GlCall>, UploadError>(
                UploadError::SizeMismatch {
                    expected: old(self).count() as u64,
                    actual: data@.len() as u64,
                },
            ),
    {
        if data.len() != self.elements {
            return Err(UploadError::SizeMismatch { expected: self.elements as u64, actual: data.len() as u64 });
        }
        Ok(vec![
            GlCall::BindBuffer { target: SHADER_STORAGE_BUFFER, buffer: self.id },
            GlCall::MapBuffer { target: SHADER_STORAGE_BUFFER, access: WRITE_ONLY },
            GlCall::CopyToMapped { bytes: self.buffer_size },
            GlCall::UnmapBuffer { target: SHADER_STORAGE_BUFFER },
            GlCall::BindBuffer { target: SHADER_STORAGE_BUFFER, buffer: 0 },
        ])
    }

    /// The internal backend handle of the buffer.
    pub fn get_id(&self) -> (r: u32)
        ensures
            r == self.handle(),
    {
        self.id
    }

    /// The size of the buffer in bytes.
    pub fn get_size(&self) -> (r: usize)
        ensures
            r == self.byte_size(),
    {
        self.buffer_size
    }

    /// The number of elements of the buffer.
    pub fn len(&self) -> (r: usize)
        ensures
            r == self.count(),
    {
        self.elements
    }

    /// The call that deletes the buffer. Consuming the buffer, it can be
    /// issued once only.
    pub fn release(self) -> (r: Vec<GlCall>)
        ensures
            r@ == seq![GlCall::DeleteBuffer { buffer: self.handle() }],
    {
        vec![GlCall::DeleteBuffer { buffer: self.id }]
    }
}

} // verus!
