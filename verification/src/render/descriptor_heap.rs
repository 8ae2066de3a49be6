//! Linear allocation of descriptor slots from a heap of fixed capacity.
//!
//! A descriptor heap is an array of equally sized slots owned by the device.
//! The allocator hands the slots out front to back and never takes one back:
//! a heap is emptied only by creating it anew.

use vstd::prelude::*;

verus! {

/// Identity of a device object: the address of its interface.
pub type ObjectId = usize;

/// What the descriptors of a heap describe.
#[derive(Clone, Copy, Debug, PartialEq, Eq, Structural)]
pub enum DescriptorHeapKind {
    /// Constant-buffer, shader-resource and unordered-access views.
    CbvSrvUav,
    /// Samplers.
    Sampler,
    /// Render-target views.
    Rtv,
    /// Depth-stencil views.
    Dsv,
}

/// CPU-side address of one descriptor slot.
#[derive(Clone, Copy, Debug, PartialEq, Eq, Hash, Structural)]
pub struct CpuDescriptorHandle {
    pub ptr: usize,
}

/// GPU-side address of a descriptor slot, as bound to a pipeline.
#[derive(Clone, Copy, Debug, PartialEq, Eq, Structural)]
pub struct GpuDescriptorHandle {
    pub ptr: u64,
}

/// The request from which the device creates a descriptor heap.
#[derive(Clone, Copy, Debug, PartialEq, Eq, Structural)]
pub struct DescriptorHeapDesc {
    pub kind: DescriptorHeapKind,
    pub num_descriptors: u32,
    pub shader_visible: bool,
    pub node_mask: u32,
}

/// Why a descriptor heap could not be laid out or could not hand out a slot.
#[derive(Clone, Copy, Debug, PartialEq, Eq, Structural)]
pub enum HeapError {
    /// Every slot of the heap has been handed out.
    CapacityExceeded,
    /// The device reported a slot size of zero.
    ZeroStride,
    /// The heap's slots would reach past the end of the address space.
    AddressRange,
}

/// What the device reports of a heap it has created.
#[derive(Clone, Copy, Debug, PartialEq, Eq, Structural)]
pub struct HeapPlacement {
    /// Identity of the heap object.
    pub heap: ObjectId,
    /// CPU handle of the first slot.
    pub cpu_start: CpuDescriptorHandle,
    /// GPU handle of the first slot.
    pub gpu_start: GpuDescriptorHandle,
    /// Distance between two neighbouring slots, in bytes.
    pub increment: u32,
}

/// A descriptor heap together with the position of its next free slot.
#[derive(Clone, Copy, Debug)]
pub struct DescriptorHeap {
    desc: DescriptorHeapDesc,
    heap: ObjectId,
    heap_start: usize,
    gpu_start: u64,
    current_ptr: usize,
    heap_increment: usize,
    allocated: usize,
}

impl DescriptorHeapKind {
    /// The device's number for the kind.
    pub open spec fn spec_code(self) -> i32 {
        match self {
            DescriptorHeapKind::CbvSrvUav => 0i32,
            DescriptorHeapKind::Sampler => 1i32,
            DescriptorHeapKind::Rtv => 2i32,
            DescriptorHeapKind::Dsv => 3i32,
        }
    }

    /// The device's number for the kind.
    pub fn code(self) -> (code: i32)
        ensures
            code == self.spec_code(),
    {
        match self {
            DescriptorHeapKind::CbvSrvUav => 0,
            DescriptorHeapKind::Sampler => 1,
            DescriptorHeapKind::Rtv => 2,
            DescriptorHeapKind::Dsv => 3,
        }
    }
}

impl DescriptorHeapDesc {
    /// The request for a heap of `descriptor_count` slots of `kind` on the
    /// first adapter node.
    pub fn new(kind: DescriptorHeapKind, descriptor_count: u32, shader_visible: bool) -> (desc:
        Self)
        ensures
            desc == (DescriptorHeapDesc {
                kind,
                num_descriptors: descriptor_count,
                shader_visible,
                node_mask: 0,
            }),
    {
        DescriptorHeapDesc { kind, num_descriptors: descriptor_count, shader_visible, node_mask: 0 }
    }

    /// The device's flag bits for the request: 1 when shader visible, else 0.
    pub fn flags(&self) -> (flags: i32)
        ensures
            flags == if self.shader_visible { 1i32 } else { 0i32 },
    {
        if self.shader_visible {
            1
        } else {
            0
        }
    }
}

impl DescriptorHeap {
    /// Number of slots of the heap.
    pub closed spec fn spec_capacity(self) -> nat {
        self.desc.num_descriptors as nat
    }

    /// Number of slots handed out so far.
    pub closed spec fn spec_allocated(self) -> nat {
        self.allocated as nat
    }

    /// Distance between two neighbouring slots.
    pub closed spec fn spec_stride(self) -> nat {
        self.heap_increment as nat
    }

    /// CPU address of the first slot.
    pub closed spec fn spec_start(self) -> nat {
        self.heap_start as nat
    }

    /// GPU address of the first slot.
    pub closed spec fn spec_gpu_start(self) -> u64 {
        self.gpu_start
    }

    /// Identity of the heap object.
    pub closed spec fn spec_heap(self) -> ObjectId {
        self.heap
    }

    /// The request the heap was created from.
    pub closed spec fn spec_desc(self) -> DescriptorHeapDesc {
        self.desc
    }

    /// Distance of the write position from the start of the heap, in bytes.
    pub open spec fn spec_offset(self) -> nat {
        self.spec_allocated() * self.spec_stride()
    }

    /// CPU address of slot `index`.
    pub open spec fn spec_slot(self, index: nat) -> nat {
        self.spec_start() + index * self.spec_stride()
    }

    /// The invariant of an allocator: no more slots are out than the heap
    /// has, the write position is that of the next free slot, and every slot
    /// of the heap has an address.
    pub closed spec fn wf(self) -> bool {
        &&& self.allocated <= self.desc.num_descriptors
        &&& self.heap_increment > 0
        &&& self.heap_start + self.desc.num_descriptors * self.heap_increment <= usize::MAX
        &&& self.current_ptr == self.heap_start + self.allocated * self.heap_increment
    }

    /// The heap after one more slot has been handed out.
    pub closed spec fn spec_advanced(self) -> DescriptorHeap {
        DescriptorHeap {
            current_ptr: (self.current_ptr + self.heap_increment) as usize,
            allocated: (self.allocated + 1) as usize,
            ..self
        }
    }

    /// What `cpu_handle` does: the heap afterwards, and what it returns.
    pub open spec fn spec_cpu_handle(self) -> (DescriptorHeap, Result<
        CpuDescriptorHandle,
        HeapError,
    >) {
        if self.spec_allocated() < self.spec_capacity() {
            (
                self.spec_advanced(),
                Ok(CpuDescriptorHandle { ptr: self.spec_slot(self.spec_allocated()) as usize }),
            )
        } else {
            (self, Err(HeapError::CapacityExceeded))
        }
    }

    /// The heap after `count` calls of `cpu_handle`.
    pub open spec fn spec_after(self, count: nat) -> DescriptorHeap
        decreases count,
    {
        if count == 0 {
            self
        } else {
            self.spec_after((count - 1) as nat).spec_cpu_handle().0
        }
    }

    /// Starts allocating from a heap that the device created from `desc` and
    /// placed as `placement` says.
    ///
    /// Fails with `ZeroStride` when the reported increment is zero, and with
    /// `AddressRange` when the last slot would end past the largest address.
    pub fn new(desc: DescriptorHeapDesc, placement: HeapPlacement) -> (created: Result<
        Self,
        HeapError,
    >)
        ensures
            placement.increment == 0 ==> created == Err::<Self, HeapError>(HeapError::ZeroStride),
            placement.increment != 0 && placement.cpu_start.ptr + desc.num_descriptors
                * placement.increment > usize::MAX ==> created == Err::<Self, HeapError>(
                HeapError::AddressRange,
            ),
            placement.increment != 0 && placement.cpu_start.ptr + desc.num_descriptors
                * placement.increment <= usize::MAX ==> {
                &&& created is Ok
                &&& created->Ok_0.wf()
                &&& created->Ok_0.spec_desc() == desc
                &&& created->Ok_0.spec_capacity() == desc.num_descriptors
                &&& created->Ok_0.spec_allocated() == 0
                &&& created->Ok_0.spec_stride() == placement.increment
                &&& created->Ok_0.spec_start() == placement.cpu_start.ptr
                &&& created->Ok_0.spec_gpu_start() == placement.gpu_start.ptr
                &&& created->Ok_0.spec_heap() == placement.heap
            },
    {
        if placement.increment == 0 {
            return Err(HeapError::ZeroStride);
        }
        assert(desc.num_descriptors * placement.increment <= 0xffff_ffff * 0xffff_ffff)
            by (nonlinear_arith)
            requires
                desc.num_descriptors <= 0xffff_ffff,
                placement.increment <= 0xffff_ffff,
        ;
        let span: u64 = (desc.num_descriptors as u64) * (placement.increment as u64);
        let room: usize = usize::MAX - placement.cpu_start.ptr;
        if span > room as u64 {
            return Err(HeapError::AddressRange);
        }
        Ok(
            DescriptorHeap {
                desc,
                heap: placement.heap,
                heap_start: placement.cpu_start.ptr,
                gpu_start: placement.gpu_start.ptr,
                current_ptr: placement.cpu_start.ptr,
                heap_increment: placement.increment as usize,
                allocated: 0,
            },
        )
    }

    /// Hands out the next free slot and moves the write position one slot on.
    ///
    /// Fails with `CapacityExceeded`, leaving the heap as it was, once as many
    /// slots are out as the heap has.
    pub fn cpu_handle(&mut self) -> (slot: Result<CpuDescriptorHandle, HeapError>)
        requires
            old(self).wf(),
        ensures
            final(self).wf(),
            (*final(self), slot) == old(self).spec_cpu_handle(),
            slot is Ok <==> old(self).spec_allocated() < old(self).spec_capacity(),
            slot is Ok ==> final(self).spec_allocated() == old(self).spec_allocated() + 1,
            final(self).spec_capacity() == old(self).spec_capacity(),
            final(self).spec_stride() == old(self).spec_stride(),
            final(self).spec_start() == old(self).spec_start(),
            final(self).spec_gpu_start() == old(self).spec_gpu_start(),
            final(self).spec_heap() == old(self).spec_heap(),
            final(self).spec_desc() == old(self).spec_desc(),
    {
        if self.allocated >= self.desc.num_descriptors as usize {
            return Err(HeapError::CapacityExceeded);
        }
        proof {
            assert((self.allocated + 1) * self.heap_increment <= self.desc.num_descriptors
                * self.heap_increment) by (nonlinear_arith)
                requires
                    self.allocated + 1 <= self.desc.num_descriptors,
            ;
            assert((self.allocated + 1) * self.heap_increment == self.allocated
                * self.heap_increment + self.heap_increment) by (nonlinear_arith);
        }
        let result = CpuDescriptorHandle { ptr: self.current_ptr };
        self.current_ptr = self.current_ptr + self.heap_increment;
        self.allocated = self.allocated + 1;
        Ok(result)
    }

    /// The heap object, for binding it to a command list.
    pub fn heap(&self) -> (heap: ObjectId)
        ensures
            heap == self.spec_heap(),
    {
        self.heap
    }

    /// GPU handle of the first slot, for binding the heap as a descriptor
    /// table.
    pub fn gpu_handle(&self) -> (handle: GpuDescriptorHandle)
        ensures
            handle.ptr == self.spec_gpu_start(),
    {
        GpuDescriptorHandle { ptr: self.gpu_start }
    }

    /// Number of slots of the heap.
    pub fn capacity(&self) -> (capacity: u32)
        ensures
            capacity == self.spec_capacity(),
    {
        self.desc.num_descriptors
    }

    /// Number of slots handed out so far.
    pub fn allocated(&self) -> (allocated: usize)
        ensures
            allocated == self.spec_allocated(),
    {
        self.allocated
    }

    /// Distance of the write position from the start of the heap, in bytes.
    /// It never exceeds the size of the heap.
    pub fn offset(&self) -> (offset: usize)
        requires
            self.wf(),
        ensures
            offset == self.spec_offset(),
            offset <= self.spec_capacity() * self.spec_stride(),
    {
        proof {
            assert(self.allocated * self.heap_increment <= self.desc.num_descriptors
                * self.heap_increment) by (nonlinear_arith)
                requires
                    self.allocated <= self.desc.num_descriptors,
            ;
        }
        self.current_ptr - self.heap_start
    }

    /// Number of slots that can still be handed out.
    pub fn remaining(&self) -> (remaining: usize)
        requires
            self.wf(),
        ensures
            remaining == self.spec_capacity() - self.spec_allocated(),
    {
        self.desc.num_descriptors as usize - self.allocated
    }

    /// The request the heap was created from.
    pub fn desc(&self) -> (desc: DescriptorHeapDesc)
        ensures
            desc == self.spec_desc(),
    {
        self.desc
    }
}

/// What one request does to the heap's numbers: with a slot free, one more
/// slot is out and the slot handed out is the first free one; with none free,
/// nothing changes. Capacity, slot size and addresses stay, and so does the
/// invariant.
pub proof fn lemma_cpu_handle_effect(heap: DescriptorHeap)
    requires
        heap.wf(),
    ensures
        heap.spec_cpu_handle().0.wf(),
        heap.spec_cpu_handle().0.spec_capacity() == heap.spec_capacity(),
        heap.spec_cpu_handle().0.spec_stride() == heap.spec_stride(),
        heap.spec_cpu_handle().0.spec_start() == heap.spec_start(),
        heap.spec_cpu_handle().0.spec_gpu_start() == heap.spec_gpu_start(),
        heap.spec_cpu_handle().0.spec_heap() == heap.spec_heap(),
        heap.spec_cpu_handle().0.spec_desc() == heap.spec_desc(),
        heap.spec_allocated() < heap.spec_capacity() ==> heap.spec_cpu_handle().0.spec_allocated()
            == heap.spec_allocated() + 1,
        heap.spec_allocated() >= heap.spec_capacity() ==> heap.spec_cpu_handle().0 == heap,
{
    if heap.spec_allocated() < heap.spec_capacity() {
        assert((heap.allocated + 1) * heap.heap_increment <= heap.desc.num_descriptors
            * heap.heap_increment) by (nonlinear_arith)
            requires
                heap.allocated + 1 <= heap.desc.num_descriptors,
        ;
        assert((heap.allocated + 1) * heap.heap_increment == heap.allocated * heap.heap_increment
            + heap.heap_increment) by (nonlinear_arith);
    }
}

/// Requests change nothing about a heap but the number of slots that are
/// out: after any number of them the heap has the capacity, slot size and
/// addresses it had, and as many more slots out as were requested and free.
pub proof fn lemma_after_effect(heap: DescriptorHeap, count: nat)
    requires
        heap.wf(),
    ensures
        heap.spec_after(count).wf(),
        heap.spec_after(count).spec_capacity() == heap.spec_capacity(),
        heap.spec_after(count).spec_stride() == heap.spec_stride(),
        heap.spec_after(count).spec_start() == heap.spec_start(),
        heap.spec_after(count).spec_gpu_start() == heap.spec_gpu_start(),
        heap.spec_after(count).spec_heap() == heap.spec_heap(),
        heap.spec_after(count).spec_desc() == heap.spec_desc(),
        heap.spec_allocated() + count <= heap.spec_capacity() ==> heap.spec_after(
            count,
        ).spec_allocated() == heap.spec_allocated() + count,
        heap.spec_allocated() + count > heap.spec_capacity() ==> heap.spec_after(
            count,
        ).spec_allocated() == heap.spec_capacity(),
    decreases count,
{
    lemma_heap_bounds(heap);
    if count > 0 {
        lemma_after_effect(heap, (count - 1) as nat);
        lemma_cpu_handle_effect(heap.spec_after((count - 1) as nat));
    }
}

/// What the invariant says in terms of the heap's numbers: no more slots are
/// out than the heap has, slots have a size, and every slot of the heap,
/// and the end of the last one, has an address.
pub proof fn lemma_heap_bounds(heap: DescriptorHeap)
    requires
        heap.wf(),
    ensures
        heap.spec_allocated() <= heap.spec_capacity(),
        heap.spec_offset() <= heap.spec_capacity() * heap.spec_stride(),
        heap.spec_capacity() <= u32::MAX,
        heap.spec_stride() > 0,
        heap.spec_slot(heap.spec_capacity()) <= usize::MAX,
        forall|index: nat| index <= heap.spec_capacity() ==> #[trigger] heap.spec_slot(index)
            <= usize::MAX,
{
    assert(heap.spec_allocated() * heap.spec_stride() <= heap.spec_capacity()
        * heap.spec_stride()) by (nonlinear_arith)
        requires
            heap.spec_allocated() <= heap.spec_capacity(),
    ;
    assert forall|index: nat| index <= heap.spec_capacity() implies #[trigger] heap.spec_slot(
        index,
    ) <= usize::MAX by {
        assert(index * heap.spec_stride() <= heap.spec_capacity() * heap.spec_stride())
            by (nonlinear_arith)
            requires
                index <= heap.spec_capacity(),
        ;
    }
}

/// On a well-formed heap from which nothing has been handed out yet, the
/// first `capacity` requests each succeed with the next slot in address
/// order, and the request after them fails with `CapacityExceeded`.
pub proof fn lemma_heap_serves_exactly_its_capacity(heap: DescriptorHeap, count: nat)
    requires
        heap.wf(),
        heap.spec_allocated() == 0,
        count <= heap.spec_capacity(),
    ensures
        heap.spec_after(count).wf(),
        heap.spec_after(count).spec_allocated() == count,
        heap.spec_after(count).spec_capacity() == heap.spec_capacity(),
        heap.spec_after(count).spec_start() == heap.spec_start(),
        heap.spec_after(count).spec_stride() == heap.spec_stride(),
        count < heap.spec_capacity() ==> heap.spec_after(count).spec_cpu_handle().1 == Ok::<
            CpuDescriptorHandle,
            HeapError,
        >(CpuDescriptorHandle { ptr: heap.spec_slot(count) as usize }),
        count == heap.spec_capacity() ==> heap.spec_after(count).spec_cpu_handle().1 == Err::<
            CpuDescriptorHandle,
            HeapError,
        >(HeapError::CapacityExceeded),
    decreases count,
{
    if count > 0 {
        let before = heap.spec_after((count - 1) as nat);
        lemma_heap_serves_exactly_its_capacity(heap, (count - 1) as nat);
        assert((before.allocated + 1) * before.heap_increment <= before.desc.num_descriptors
            * before.heap_increment) by (nonlinear_arith)
            requires
                before.allocated + 1 <= before.desc.num_descriptors,
        ;
        assert((before.allocated + 1) * before.heap_increment == before.allocated
            * before.heap_increment + before.heap_increment) by (nonlinear_arith);
    }
}

/// Slots are distinct: two different indices below the capacity have
/// different addresses.
pub proof fn lemma_slots_are_distinct(heap: DescriptorHeap, first: nat, second: nat)
    requires
        heap.wf(),
        first < second,
    ensures
        heap.spec_slot(first) < heap.spec_slot(second),
{
    assert(first * heap.spec_stride() < second * heap.spec_stride()) by (nonlinear_arith)
        requires
            first < second,
            heap.spec_stride() > 0,
    ;
}

} // verus!
