use bevy_arca::render::descriptor_heap::{
    CpuDescriptorHandle, DescriptorHeap, DescriptorHeapDesc, DescriptorHeapKind,
    GpuDescriptorHandle, HeapError, HeapPlacement,
};

fn placement(cpu_start: usize, increment: u32) -> HeapPlacement {
    HeapPlacement {
        heap: 0x7000,
        cpu_start: CpuDescriptorHandle { ptr: cpu_start },
        gpu_start: GpuDescriptorHandle { ptr: 0x9000_0000 },
        increment,
    }
}

fn heap(kind: DescriptorHeapKind, capacity: u32, cpu_start: usize, increment: u32) -> DescriptorHeap {
    DescriptorHeap::new(DescriptorHeapDesc::new(kind, capacity, false), placement(cpu_start, increment))
        .expect("the heap fits the address space")
}

#[test]
fn heap_request_names_kind_count_and_visibility() {
    let desc = DescriptorHeapDesc::new(DescriptorHeapKind::Rtv, 2, false);
    assert_eq!(desc.kind, DescriptorHeapKind::Rtv);
    assert_eq!(desc.num_descriptors, 2);
    assert!(!desc.shader_visible);
    assert_eq!(desc.node_mask, 0);
    assert_eq!(desc.flags(), 0);
    let visible = DescriptorHeapDesc::new(DescriptorHeapKind::CbvSrvUav, 2, true);
    assert_eq!(visible.flags(), 1);
}

#[test]
fn next_slot_succeeds_exactly_capacity_times() {
    for capacity in [0u32, 1, 2, 3, 17] {
        let mut heap = heap(DescriptorHeapKind::Rtv, capacity, 0x1000, 32);
        for index in 0..capacity {
            let slot = heap.cpu_handle();
            assert_eq!(slot, Ok(CpuDescriptorHandle { ptr: 0x1000 + 32 * index as usize }));
            assert_eq!(heap.allocated(), index as usize + 1);
        }
        assert_eq!(heap.cpu_handle(), Err(HeapError::CapacityExceeded));
        assert_eq!(heap.cpu_handle(), Err(HeapError::CapacityExceeded));
        assert_eq!(heap.allocated(), capacity as usize);
        assert_eq!(heap.capacity(), capacity);
        assert_eq!(heap.remaining(), 0);
    }
}

#[test]
fn slots_are_spaced_by_the_reported_increment() {
    let mut heap = heap(DescriptorHeapKind::CbvSrvUav, 3, 0x4_0000, 64);
    assert_eq!(heap.remaining(), 3);
    assert_eq!(heap.offset(), 0);
    assert_eq!(heap.cpu_handle(), Ok(CpuDescriptorHandle { ptr: 0x4_0000 }));
    assert_eq!(heap.cpu_handle(), Ok(CpuDescriptorHandle { ptr: 0x4_0040 }));
    assert_eq!(heap.offset(), 128);
    assert_eq!(heap.remaining(), 1);
    assert_eq!(heap.cpu_handle(), Ok(CpuDescriptorHandle { ptr: 0x4_0080 }));
    assert_eq!(heap.cpu_handle(), Err(HeapError::CapacityExceeded));
    assert_eq!(heap.offset(), 3 * 64);
}

#[test]
fn heap_reports_what_it_was_created_with() {
    let heap = heap(DescriptorHeapKind::Sampler, 5, 0x2000, 8);
    assert_eq!(heap.heap(), 0x7000);
    assert_eq!(heap.gpu_handle(), GpuDescriptorHandle { ptr: 0x9000_0000 });
    assert_eq!(heap.desc(), DescriptorHeapDesc::new(DescriptorHeapKind::Sampler, 5, false));
    assert_eq!(heap.allocated(), 0);
}

#[test]
fn zero_increment_is_refused() {
    let created = DescriptorHeap::new(
        DescriptorHeapDesc::new(DescriptorHeapKind::Rtv, 2, false),
        placement(0x1000, 0),
    );
    assert_eq!(created.err(), Some(HeapError::ZeroStride));
}

#[test]
fn heap_past_the_address_space_is_refused() {
    let created = DescriptorHeap::new(
        DescriptorHeapDesc::new(DescriptorHeapKind::Rtv, 2, false),
        placement(usize::MAX - 64, 32),
    );
    assert!(created.is_ok());
    let created = DescriptorHeap::new(
        DescriptorHeapDesc::new(DescriptorHeapKind::Rtv, 2, false),
        placement(usize::MAX - 63, 32),
    );
    assert_eq!(created.err(), Some(HeapError::AddressRange));
    let created = DescriptorHeap::new(
        DescriptorHeapDesc::new(DescriptorHeapKind::Rtv, u32::MAX, false),
        placement(usize::MAX, u32::MAX),
    );
    assert_eq!(created.err(), Some(HeapError::AddressRange));
}

#[test]
fn last_slot_may_end_at_the_largest_address() {
    let mut heap = heap(DescriptorHeapKind::Rtv, 2, usize::MAX - 64, 32);
    assert_eq!(heap.cpu_handle(), Ok(CpuDescriptorHandle { ptr: usize::MAX - 64 }));
    assert_eq!(heap.cpu_handle(), Ok(CpuDescriptorHandle { ptr: usize::MAX - 32 }));
    assert_eq!(heap.cpu_handle(), Err(HeapError::CapacityExceeded));
}

#[test]
fn heap_kinds_have_the_device_numbers() {
    assert_eq!(DescriptorHeapKind::CbvSrvUav.code(), 0);
    assert_eq!(DescriptorHeapKind::Sampler.code(), 1);
    assert_eq!(DescriptorHeapKind::Rtv.code(), 2);
    assert_eq!(DescriptorHeapKind::Dsv.code(), 3);
}
