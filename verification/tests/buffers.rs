use bevy_arca::bytes::{push_u32_le, read_u32_le, u32s_to_le};
use bevy_arca::render::buffer::{committed_buffer, HeapType};
use bevy_arca::render::command::{Command, VertexBufferView};
use bevy_arca::render::constant_buffer::{ConstantBuffer, ConstantData};
use bevy_arca::render::descriptor_heap::{
    CpuDescriptorHandle, DescriptorHeap, DescriptorHeapDesc, DescriptorHeapKind,
    GpuDescriptorHandle, HeapError, HeapPlacement,
};
use bevy_arca::render::mesh_data::mesh_buffer::{
    buffer_srv_desc, BufferSrvDesc, MeshBuffer, MeshBufferError, MeshBufferParts,
    ShaderResourceView, StagedMesh,
};
use bevy_arca::render::mesh_data::mesh_list::MeshData;
use bevy_arca::render::pipelines::constants::{CameraData, MeshInfo};
use bevy_arca::render::resource::{transition_barrier, ResourceState};
use bevy_arca::scene::camera::Camera;
use bevy_arca::scene::mesh::{Mesh, PrimitiveTopologyType};
use bevy_arca::scene::vertex_buffer::VertexBuffer;
use bevy_arca::single::Single;

fn single(value: f32) -> Single {
    Single::from_bits(value.to_bits())
}

fn floats(bytes: &[u8]) -> Vec<f32> {
    bytes.chunks(4).map(|word| f32::from_le_bytes([word[0], word[1], word[2], word[3]])).collect()
}

fn matrix() -> [[Single; 4]; 4] {
    let mut columns = [[single(0.0); 4]; 4];
    for column in 0..4 {
        for row in 0..4 {
            columns[column][row] = single(10.0 * column as f32 + row as f32 + 0.5);
        }
    }
    columns
}

fn srv_heap(capacity: u32) -> DescriptorHeap {
    DescriptorHeap::new(
        DescriptorHeapDesc::new(DescriptorHeapKind::CbvSrvUav, capacity, true),
        HeapPlacement {
            heap: 0x22,
            cpu_start: CpuDescriptorHandle { ptr: 0x8000 },
            gpu_start: GpuDescriptorHandle { ptr: 0x9000 },
            increment: 48,
        },
    )
    .expect("the heap fits the address space")
}

fn mesh_buffer() -> MeshBuffer {
    MeshBuffer::new(MeshBufferParts {
        gpu_vertex_buffer: 0x10,
        upload_vertex_buffer: 0x20,
        gpu_index_buffer: 0x30,
        upload_index_buffer: 0x40,
    })
}

fn mesh_of(positions: usize, indices: usize) -> MeshData {
    let mut mesh = Mesh::new(PrimitiveTopologyType::Triangle);
    mesh.insert_positions(vec![[single(1.0), single(2.0), single(3.0)]; positions]);
    mesh.insert_indices(vec![0; indices]);
    let mut data = MeshData::new();
    data.add_mesh(&mesh).expect("a mesh with indices is always added");
    data
}

#[test]
fn words_are_written_least_significant_byte_first() {
    let mut bytes = vec![0xee];
    push_u32_le(&mut bytes, 0x1234_5678);
    assert_eq!(bytes, vec![0xee, 0x78, 0x56, 0x34, 0x12]);
    assert_eq!(read_u32_le(&bytes, 1), 0x1234_5678);
    assert_eq!(u32s_to_le(&vec![1, 0xffff_ffff, 0x0100_0000]), vec![1, 0, 0, 0, 255, 255, 255, 255, 0, 0, 0, 1]);
    assert_eq!(u32s_to_le(&Vec::new()), Vec::<u8>::new());
    for value in [0u32, 1, 255, 256, 65535, 65536, 0x00ff_ffff, 0x0100_0000, u32::MAX] {
        let mut written = Vec::new();
        push_u32_le(&mut written, value);
        assert_eq!(written, value.to_le_bytes().to_vec());
        assert_eq!(read_u32_le(&written, 0), value);
    }
}

#[test]
fn mesh_info_is_the_vertex_count_and_twelve_zero_bytes() {
    let info = MeshInfo::new(0x0102_0304);
    assert_eq!(MeshInfo::size(), 16);
    assert_eq!(info.to_bytes(), vec![4, 3, 2, 1, 0, 0, 0, 0, 0, 0, 0, 0, 0, 0, 0, 0]);
}

#[test]
fn camera_data_is_matrix_aspect_fov_and_padding() {
    let camera = Camera { fov: single(0.785), aspect_ratio: single(1.7777) };
    let data = CameraData::new(matrix(), &camera);
    let bytes = data.to_bytes();
    assert_eq!(CameraData::size(), 80);
    assert_eq!(bytes.len(), 80);
    let numbers = floats(&bytes[..72]);
    for column in 0..4 {
        for row in 0..4 {
            assert_eq!(numbers[4 * column + row], 10.0 * column as f32 + row as f32 + 0.5);
        }
    }
    assert_eq!(numbers[16], 1.7777);
    assert_eq!(numbers[17], 0.785);
    assert_eq!(&bytes[72..], &[0u8; 8]);
}

#[test]
fn constant_buffer_is_requested_in_upload_memory() {
    assert_eq!(
        ConstantBuffer::<CameraData>::allocation(),
        committed_buffer(HeapType::Upload, 1, 80, ResourceState::GenericRead)
    );
    assert_eq!(
        ConstantBuffer::<MeshInfo>::allocation(),
        committed_buffer(HeapType::Upload, 1, 16, ResourceState::GenericRead)
    );
}

#[test]
fn constant_buffer_starts_zeroed() {
    let buffer = ConstantBuffer::<MeshInfo>::create(0xc0, 0xd000);
    assert_eq!(buffer.mapped(), &vec![0u8; 16]);
    assert_eq!(buffer.buffer(), 0xc0);
    assert_eq!(buffer.gpu_adress(), 0xd000);
}

#[test]
fn constant_buffer_reads_back_what_was_written() {
    let mut buffer = ConstantBuffer::<CameraData>::create(0xc0, 0xd000);
    let camera = Camera { fov: single(1.25), aspect_ratio: single(0.75) };
    let data = CameraData::new(matrix(), &camera);
    buffer.write(&data);
    assert_eq!(buffer.mapped(), &data.to_bytes());
    assert_eq!(buffer.mapped().len(), 80);
    assert_eq!(buffer.buffer(), 0xc0);
    assert_eq!(buffer.gpu_adress(), 0xd000);
}

#[test]
fn constant_buffer_keeps_only_the_last_write() {
    let mut buffer = ConstantBuffer::<MeshInfo>::create(0xc0, 0xd000);
    buffer.write(&MeshInfo::new(u32::MAX));
    assert_eq!(&buffer.mapped()[..4], &[255, 255, 255, 255]);
    buffer.write(&MeshInfo::new(3));
    assert_eq!(buffer.mapped(), &vec![3, 0, 0, 0, 0, 0, 0, 0, 0, 0, 0, 0, 0, 0, 0, 0]);
    buffer.write(&MeshInfo::new(3));
    assert_eq!(buffer.mapped(), &MeshInfo::new(3).to_bytes());
}

#[test]
fn fullscreen_quad_is_two_triangles_over_the_screen() {
    let bytes = VertexBuffer::fullscreen_quad_data();
    assert_eq!(bytes.len(), 120);
    let expected: [f32; 30] = [
        -1.0, -1.0, 0.0, 0.0, 1.0, //
        -1.0, 1.0, 0.0, 0.0, 0.0, //
        1.0, -1.0, 0.0, 1.0, 1.0, //
        1.0, -1.0, 0.0, 1.0, 1.0, //
        -1.0, 1.0, 0.0, 0.0, 0.0, //
        1.0, 1.0, 0.0, 1.0, 0.0,
    ];
    assert_eq!(floats(&bytes), expected.to_vec());
    assert_eq!(
        VertexBuffer::fullscreen_quad_allocation(),
        committed_buffer(HeapType::Upload, 0, 120, ResourceState::GenericRead)
    );
    let quad = VertexBuffer::fullscreen_quad(0x77, 0xabc0);
    assert_eq!(quad.buffer(), 0x77);
    assert_eq!(
        *quad.view(),
        VertexBufferView { buffer_location: 0xabc0, size_in_bytes: 120, stride_in_bytes: 20 }
    );
}

#[test]
fn triangle_has_three_coloured_corners() {
    let bytes = VertexBuffer::triangle_data();
    assert_eq!(bytes.len(), 84);
    let expected: [f32; 21] = [
        0.0, 0.25, 0.0, 1.0, 0.0, 0.0, 1.0, //
        0.25, -0.25, 0.0, 0.0, 1.0, 0.0, 1.0, //
        -0.25, -0.25, 0.0, 0.0, 0.0, 1.0, 1.0,
    ];
    assert_eq!(floats(&bytes), expected.to_vec());
    assert_eq!(
        VertexBuffer::triangle_allocation(),
        committed_buffer(HeapType::Upload, 0, 84, ResourceState::GenericRead)
    );
    assert_eq!(
        *VertexBuffer::triangle(0x78, 0xdef0).view(),
        VertexBufferView { buffer_location: 0xdef0, size_in_bytes: 84, stride_in_bytes: 28 }
    );
}

#[test]
fn mesh_buffers_are_one_mebibyte_each() {
    let requests = MeshBuffer::allocations();
    let local = committed_buffer(HeapType::Default, 0, 1024 * 1024, ResourceState::Common);
    let staging = committed_buffer(HeapType::Upload, 0, 1024 * 1024, ResourceState::GenericRead);
    assert_eq!(requests.gpu_vertex_buffer, local);
    assert_eq!(requests.gpu_index_buffer, local);
    assert_eq!(requests.upload_vertex_buffer, staging);
    assert_eq!(requests.upload_index_buffer, staging);
    assert_eq!(mesh_buffer().parts().gpu_index_buffer, 0x30);
}

#[test]
fn staging_lays_positions_and_indices_out_in_bytes() {
    let mut mesh = Mesh::new(PrimitiveTopologyType::Triangle);
    mesh.insert_positions(vec![
        [single(1.0), single(2.0), single(3.0)],
        [single(-4.5), single(0.0), single(6.25)],
    ]);
    mesh.insert_indices(vec![1, 0, 0x0102_0304]);
    let mut data = MeshData::new();
    data.add_mesh(&mesh).expect("a mesh with indices is always added");
    let staged = mesh_buffer().set_new_data(&data).expect("two positions fit");
    assert_eq!(floats(&staged.vertex_data), vec![1.0, 2.0, 3.0, -4.5, 0.0, 6.25]);
    assert_eq!(staged.index_data, vec![1, 0, 0, 0, 0, 0, 0, 0, 4, 3, 2, 1]);
    let empty = mesh_buffer().set_new_data(&MeshData::new());
    assert_eq!(empty, Ok(StagedMesh { vertex_data: Vec::new(), index_data: Vec::new() }));
}

#[test]
fn staging_fails_beyond_the_fixed_capacity() {
    let most_positions = 1024 * 1024 / 12;
    let most_indices = 1024 * 1024 / 4;
    let full = mesh_buffer()
        .set_new_data(&mesh_of(most_positions, most_indices))
        .expect("as much as the buffers hold");
    assert_eq!(full.vertex_data.len(), most_positions * 12);
    assert_eq!(full.index_data.len(), 1024 * 1024);
    assert_eq!(
        mesh_buffer().set_new_data(&mesh_of(most_positions + 1, 0)),
        Err(MeshBufferError::CapacityExceeded)
    );
    assert_eq!(
        mesh_buffer().set_new_data(&mesh_of(0, most_indices + 1)),
        Err(MeshBufferError::CapacityExceeded)
    );
}

#[test]
fn upload_brackets_the_copies_with_barriers() {
    let commands = mesh_buffer().upload();
    assert_eq!(
        commands,
        vec![
            Command::ResourceBarrier(transition_barrier(
                0x10,
                ResourceState::GenericRead,
                ResourceState::CopyDest
            )),
            Command::ResourceBarrier(transition_barrier(
                0x30,
                ResourceState::GenericRead,
                ResourceState::CopyDest
            )),
            Command::CopyResource { destination: 0x10, source: 0x20 },
            Command::CopyResource { destination: 0x30, source: 0x40 },
            Command::ResourceBarrier(transition_barrier(
                0x10,
                ResourceState::CopyDest,
                ResourceState::GenericRead
            )),
            Command::ResourceBarrier(transition_barrier(
                0x30,
                ResourceState::CopyDest,
                ResourceState::GenericRead
            )),
        ]
    );
}

#[test]
fn views_expose_1024_structured_elements() {
    assert_eq!(
        buffer_srv_desc(12),
        BufferSrvDesc {
            format: 0,
            view_dimension: 1,
            shader_4_component_mapping: 5768,
            first_element: 0,
            num_elements: 1024,
            structure_byte_stride: 12,
            flags: 0,
        }
    );
}

#[test]
fn views_take_the_next_two_slots() {
    let mut heap = srv_heap(2);
    let views = mesh_buffer().write_to_descriptor_heap(&mut heap);
    assert_eq!(
        views,
        Ok(vec![
            ShaderResourceView {
                resource: 0x10,
                desc: buffer_srv_desc(12),
                handle: CpuDescriptorHandle { ptr: 0x8000 },
            },
            ShaderResourceView {
                resource: 0x30,
                desc: buffer_srv_desc(4),
                handle: CpuDescriptorHandle { ptr: 0x8030 },
            },
        ])
    );
    assert_eq!(heap.allocated(), 2);
}

#[test]
fn views_need_two_free_slots() {
    let mut heap = srv_heap(1);
    assert_eq!(
        mesh_buffer().write_to_descriptor_heap(&mut heap),
        Err(HeapError::CapacityExceeded)
    );
    assert_eq!(heap.allocated(), 0);
    let mut heap = srv_heap(3);
    assert!(mesh_buffer().write_to_descriptor_heap(&mut heap).is_ok());
    assert_eq!(
        mesh_buffer().write_to_descriptor_heap(&mut heap),
        Err(HeapError::CapacityExceeded)
    );
    assert_eq!(heap.allocated(), 2);
}

#[test]
fn single_views_take_one_slot_each() {
    let mut heap = srv_heap(2);
    let index = mesh_buffer().srv_index(&mut heap).expect("a slot is free");
    assert_eq!(index.resource, 0x30);
    assert_eq!(index.desc.structure_byte_stride, 4);
    assert_eq!(index.handle, CpuDescriptorHandle { ptr: 0x8000 });
    let vertex = mesh_buffer().srv_vertex(&mut heap).expect("a slot is free");
    assert_eq!(vertex.resource, 0x10);
    assert_eq!(vertex.desc.structure_byte_stride, 12);
    assert_eq!(vertex.handle, CpuDescriptorHandle { ptr: 0x8030 });
    assert_eq!(mesh_buffer().srv_vertex(&mut heap), Err(HeapError::CapacityExceeded));
    assert_eq!(mesh_buffer().srv_index(&mut heap), Err(HeapError::CapacityExceeded));
}
