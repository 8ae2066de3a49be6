//! Constant buffers: small buffers in upload memory that the CPU overwrites
//! and the GPU reads directly.
//!
//! A `ConstantBuffer<T>` holds one `T`. Writing copies the bytes of a `T`
//! into the mapped memory, all of them and nothing else. The mapped memory is
//! kept here as a byte vector; the caller copies it to the device's mapping.

use crate::render::buffer::{committed_buffer, spec_committed_buffer, CommittedResource, HeapType};
use crate::render::descriptor_heap::ObjectId;
use crate::render::resource::ResourceState;
use std::marker::PhantomData;
use vstd::prelude::*;

verus! {

/// A value with a fixed byte representation, as the GPU reads it.
pub trait ConstantData {
    /// Number of bytes a value of the type takes.
    spec fn spec_size() -> nat;

    /// The bytes of the value.
    spec fn spec_bytes(&self) -> Seq<u8>;

    /// Every value takes exactly the type's number of bytes.
    proof fn lemma_bytes_len(&self)
        ensures
            self.spec_bytes().len() == Self::spec_size(),
    ;

    /// Number of bytes a value of the type takes.
    fn size() -> (size: usize)
        ensures
            size == Self::spec_size(),
    ;

    /// The bytes of the value.
    fn to_bytes(&self) -> (bytes: Vec<u8>)
        ensures
            bytes@ == self.spec_bytes(),
    ;
}

/// A buffer that holds one `T` for the GPU to read.
pub struct ConstantBuffer<T: ConstantData> {
    buffer: ObjectId,
    gpu_address: u64,
    mapped: Vec<u8>,
    _type: PhantomData<T>,
}

/// What a constant buffer is, as plain values.
pub struct ConstantBufferModel {
    /// Identity of the buffer resource.
    pub buffer: ObjectId,
    /// Address at which the GPU reads the buffer.
    pub gpu_address: u64,
    /// The bytes of the mapped memory.
    pub mapped: Seq<u8>,
}

impl ConstantBufferModel {
    /// The buffer after `bytes` have been written over its memory.
    pub open spec fn write(self, bytes: Seq<u8>) -> ConstantBufferModel {
        ConstantBufferModel { mapped: bytes, ..self }
    }
}

impl<T: ConstantData> View for ConstantBuffer<T> {
    type V = ConstantBufferModel;

    closed spec fn view(&self) -> ConstantBufferModel {
        ConstantBufferModel {
            buffer: self.buffer,
            gpu_address: self.gpu_address,
            mapped: self.mapped@,
        }
    }
}

impl<T: ConstantData> ConstantBuffer<T> {
    /// The invariant of a constant buffer: its memory is as large as a `T`.
    pub open spec fn wf(&self) -> bool {
        self@.mapped.len() == T::spec_size()
    }

    /// The request for the buffer's memory: as many bytes as a `T` takes, in
    /// upload memory on the first node, readable from the start.
    pub fn allocation() -> (request: CommittedResource)
        ensures
            request == spec_committed_buffer(
                HeapType::Upload,
                1,
                T::spec_size() as u64,
                ResourceState::GenericRead,
            ),
    {
        committed_buffer(HeapType::Upload, 1, T::size() as u64, ResourceState::GenericRead)
    }

    /// Takes over the buffer that the device created from `allocation()` and
    /// placed at `gpu_address`. Its memory is zero.
    pub fn create(buffer: ObjectId, gpu_address: u64) -> (created: Self)
        ensures
            created.wf(),
            created@.buffer == buffer,
            created@.gpu_address == gpu_address,
            forall|i: int| 0 <= i < created@.mapped.len() ==> created@.mapped[i] == 0,
    {
        let size: usize = T::size();
        let mut mapped: Vec<u8> = Vec::new();
        let mut i: usize = 0;
        while i < size
            invariant
                i <= size,
                mapped@.len() == i,
                forall|j: int| 0 <= j < i ==> mapped@[j] == 0,
            decreases size - i,
        {
            mapped.push(0);
            i = i + 1;
        }
        ConstantBuffer { buffer, gpu_address, mapped, _type: PhantomData }
    }

    /// Overwrites the buffer's memory with the bytes of `data`.
    pub fn write(&mut self, data: &T)
        ensures
            final(self)@ == old(self)@.write(data.spec_bytes()),
            final(self)@.mapped == data.spec_bytes(),
            final(self).wf(),
    {
        let bytes = data.to_bytes();
        proof {
            data.lemma_bytes_len();
        }
        self.mapped = bytes;
    }

    /// The bytes of the buffer's memory, as a read through the mapping gives
    /// them.
    pub fn mapped(&self) -> (bytes: &Vec<u8>)
        ensures
            bytes@ == self@.mapped,
    {
        &self.mapped
    }

    /// Identity of the buffer resource.
    pub fn buffer(&self) -> (buffer: ObjectId)
        ensures
            buffer == self@.buffer,
    {
        self.buffer
    }

    /// Address at which the GPU reads the buffer.
    pub fn gpu_adress(&self) -> (address: u64)
        ensures
            address == self@.gpu_address,
    {
        self.gpu_address
    }
}

/// What is read back from a constant buffer right after a write is, byte for
/// byte, what was written, whatever the buffer held before.
pub proof fn lemma_write_then_read_back(buffer: ConstantBufferModel, bytes: Seq<u8>)
    ensures
        buffer.write(bytes).mapped == bytes,
        buffer.write(bytes).buffer == buffer.buffer,
        buffer.write(bytes).gpu_address == buffer.gpu_address,
{
}

/// Only the last write counts: nothing of an earlier one is left.
pub proof fn lemma_last_write_wins(buffer: ConstantBufferModel, first: Seq<u8>, second: Seq<u8>)
    ensures
        buffer.write(first).write(second) == buffer.write(second),
{
}

} // verus!
