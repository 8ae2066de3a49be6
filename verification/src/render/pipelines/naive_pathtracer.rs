//! The path tracer: one quad over the whole screen whose pixel shader traces
//! the scene's triangles, read from two structured buffers.

use crate::render::command::{Command, PRIMITIVE_TOPOLOGY_TRIANGLELIST};
use crate::render::constant_buffer::{ConstantBuffer, ConstantBufferModel, ConstantData};
use crate::render::descriptor_heap::{
    lemma_after_effect,
    DescriptorHeap,
    DescriptorHeapDesc,
    DescriptorHeapKind,
    GpuDescriptorHandle,
    HeapError,
    ObjectId,
};
use crate::render::mesh_data::mesh_buffer::{
    spec_fits_buffers,
    spec_position_words,
    MeshBuffer,
    MeshBufferError,
    ShaderResourceView,
    StagedMesh,
};
use crate::render::mesh_data::mesh_list::MeshData;
use crate::render::pipelines::constants::{CameraData, MeshInfo};
use crate::render::pipelines::description::{
    pipeline_state_desc,
    spec_is_pipeline_state,
    spec_quad_input_layout,
    vertex_attribute,
    CompiledShaders,
    DescriptorRange,
    GraphicsPipelineStateDesc,
    InputElementDesc,
    RootParameter,
    RootSignatureDesc,
    Semantic,
    APPEND_ALIGNED_ELEMENT,
    DESCRIPTOR_RANGE_OFFSET_APPEND,
    DESCRIPTOR_RANGE_TYPE_SRV,
    FORMAT_R32G32B32_FLOAT,
    FORMAT_R32G32_FLOAT,
    ROOT_SIGNATURE_FLAG_ALLOW_INPUT_ASSEMBLER_INPUT_LAYOUT,
    SHADER_VISIBILITY_PIXEL,
};
use crate::scene::vertex_buffer::VertexBuffer;
use vstd::prelude::*;

verus! {

/// Number of vertices of the quad.
pub const QUAD_VERTICES: u32 = 6;

/// Number of shader-resource views the path tracer reads: positions and
/// indices.
pub const SRV_COUNT: u32 = 2;

/// The path tracer's pipeline with everything it binds.
pub struct PathTracerPipeline {
    root_signature: ObjectId,
    vertex_buffer: VertexBuffer,
    state: ObjectId,
    camera_constant_buffer: ConstantBuffer<CameraData>,
    mesh_info_constant_buffer: ConstantBuffer<MeshInfo>,
    mesh_buffer: MeshBuffer,
    srv_heap: DescriptorHeap,
}

/// What the path tracer was put together from.
pub struct PathTracerParts {
    pub root_signature: ObjectId,
    pub vertex_buffer: VertexBuffer,
    pub state: ObjectId,
    pub camera_constant_buffer: ConstantBuffer<CameraData>,
    pub mesh_info_constant_buffer: ConstantBuffer<MeshInfo>,
    pub mesh_buffer: MeshBuffer,
    pub srv_heap: DescriptorHeap,
}

/// What to do about the path tracer's pipeline in a frame.
#[derive(Clone, Copy, Debug, PartialEq, Eq, Structural)]
pub enum PipelineBuild {
    /// The pipeline exists: nothing to do.
    AlreadyBuilt,
    /// The shader source has not been loaded yet: try again next frame.
    AwaitShader,
    /// Build the pipeline now.
    Build,
}

/// The root signature of the path tracer: the camera's constants in
/// register 0 and the mesh info in register 1, bound by address, and a table
/// of two shader-resource views from register 0 on; all for the pixel
/// shader.
pub open spec fn spec_root_parameters() -> Seq<RootParameter> {
    seq![
        RootParameter::ConstantBufferView {
            shader_register: 0,
            register_space: 0,
            shader_visibility: SHADER_VISIBILITY_PIXEL,
        },
        RootParameter::ConstantBufferView {
            shader_register: 1,
            register_space: 0,
            shader_visibility: SHADER_VISIBILITY_PIXEL,
        },
        RootParameter::DescriptorTable {
            first_range: 0,
            range_count: 1,
            shader_visibility: SHADER_VISIBILITY_PIXEL,
        },
    ]
}

/// The one descriptor range of the path tracer's table.
pub open spec fn spec_root_ranges() -> Seq<DescriptorRange> {
    seq![
        DescriptorRange {
            range_type: DESCRIPTOR_RANGE_TYPE_SRV,
            num_descriptors: SRV_COUNT,
            base_shader_register: 0,
            register_space: 0,
            offset_in_descriptors_from_table_start: DESCRIPTOR_RANGE_OFFSET_APPEND,
        },
    ]
}

/// Describes the root signature of the path tracer.
pub fn create_root_signature() -> (desc: RootSignatureDesc)
    ensures
        desc.parameters@ == spec_root_parameters(),
        desc.ranges@ == spec_root_ranges(),
        desc.num_static_samplers == 0,
        desc.flags == ROOT_SIGNATURE_FLAG_ALLOW_INPUT_ASSEMBLER_INPUT_LAYOUT,
{
    let mut ranges: Vec<DescriptorRange> = Vec::new();
    ranges.push(
        DescriptorRange {
            range_type: DESCRIPTOR_RANGE_TYPE_SRV,
            num_descriptors: SRV_COUNT,
            base_shader_register: 0,
            register_space: 0,
            offset_in_descriptors_from_table_start: DESCRIPTOR_RANGE_OFFSET_APPEND,
        },
    );
    let root_parameter_srv = RootParameter::DescriptorTable {
        first_range: 0,
        range_count: 1,
        shader_visibility: SHADER_VISIBILITY_PIXEL,
    };
    let root_parameter_camera_cbv = RootParameter::ConstantBufferView {
        shader_register: 0,
        register_space: 0,
        shader_visibility: SHADER_VISIBILITY_PIXEL,
    };
    let root_parameter_mesh_info_cbv = RootParameter::ConstantBufferView {
        shader_register: 1,
        register_space: 0,
        shader_visibility: SHADER_VISIBILITY_PIXEL,
    };
    let mut parameters: Vec<RootParameter> = Vec::new();
    parameters.push(root_parameter_camera_cbv);
    parameters.push(root_parameter_mesh_info_cbv);
    parameters.push(root_parameter_srv);
    proof {
        assert(parameters@ =~= spec_root_parameters());
        assert(ranges@ =~= spec_root_ranges());
    }
    RootSignatureDesc {
        parameters,
        ranges,
        num_static_samplers: 0,
        flags: ROOT_SIGNATURE_FLAG_ALLOW_INPUT_ASSEMBLER_INPUT_LAYOUT,
    }
}

/// Describes the pipeline state of the path tracer: the quad's vertex layout
/// with the given shaders and root signature.
pub fn create_pipeline_state(shaders: &CompiledShaders, root_signature: ObjectId) -> (desc:
    GraphicsPipelineStateDesc)
    ensures
        spec_is_pipeline_state(desc, root_signature, *shaders, spec_quad_input_layout()),
{
    let position_element_desc = vertex_attribute(Semantic::Position, FORMAT_R32G32B32_FLOAT, 0);
    let uv_element_desc = vertex_attribute(
        Semantic::TexCoord,
        FORMAT_R32G32_FLOAT,
        APPEND_ALIGNED_ELEMENT,
    );
    let mut input_element_descs: Vec<InputElementDesc> = Vec::new();
    input_element_descs.push(position_element_desc);
    input_element_descs.push(uv_element_desc);
    proof {
        assert(input_element_descs@ =~= spec_quad_input_layout());
    }
    pipeline_state_desc(shaders, root_signature, input_element_descs)
}

/// What is to be done about a pipeline that is `present` or not, whose
/// shader source is loaded or not.
pub open spec fn spec_pipeline_build(present: bool, shader_loaded: bool) -> PipelineBuild {
    if present {
        PipelineBuild::AlreadyBuilt
    } else if !shader_loaded {
        PipelineBuild::AwaitShader
    } else {
        PipelineBuild::Build
    }
}

/// Decides whether the path tracer's pipeline is to be built: not when it
/// is present, and not before its shader source is loaded.
pub fn create_pathtracer_pipeline(present: bool, shader_loaded: bool) -> (build: PipelineBuild)
    ensures
        build == spec_pipeline_build(present, shader_loaded),
{
    if present {
        return PipelineBuild::AlreadyBuilt;
    }
    if !shader_loaded {
        return PipelineBuild::AwaitShader;
    }
    PipelineBuild::Build
}

impl PathTracerPipeline {
    /// The invariant of the pipeline: those of its constant buffers and of
    /// its descriptor heap.
    pub closed spec fn wf(&self) -> bool {
        &&& self.camera_constant_buffer.wf()
        &&& self.mesh_info_constant_buffer.wf()
        &&& self.srv_heap.wf()
    }

    /// Identity of the pipeline state.
    pub closed spec fn spec_state(&self) -> ObjectId {
        self.state
    }

    /// Identity of the root signature.
    pub closed spec fn spec_root_signature(&self) -> ObjectId {
        self.root_signature
    }

    /// The quad's vertex buffer.
    pub closed spec fn spec_vertex_buffer(&self) -> VertexBuffer {
        self.vertex_buffer
    }

    /// The constant buffer that holds the camera.
    pub closed spec fn spec_camera(&self) -> ConstantBufferModel {
        self.camera_constant_buffer@
    }

    /// The constant buffer that holds the mesh info.
    pub closed spec fn spec_mesh_info(&self) -> ConstantBufferModel {
        self.mesh_info_constant_buffer@
    }

    /// The buffers of the scene's geometry.
    pub closed spec fn spec_mesh_buffer(&self) -> MeshBuffer {
        self.mesh_buffer
    }

    /// The heap of the two shader-resource views.
    pub closed spec fn spec_srv_heap(&self) -> DescriptorHeap {
        self.srv_heap
    }

    /// The commands of `populate_command_list`: bind pipeline state, view
    /// heap and root signature; bring the staged geometry to the GPU; bind
    /// the two constant buffers and the view table; and draw the quad as a
    /// list of triangles.
    pub open spec fn spec_populate_command_list(&self) -> Seq<Command> {
        seq![
            Command::SetPipelineState { pipeline_state: self.spec_state() },
            Command::SetDescriptorHeap { heap: self.spec_srv_heap().spec_heap() },
            Command::SetGraphicsRootSignature { root_signature: self.spec_root_signature() },
        ] + self.spec_mesh_buffer().spec_upload() + seq![
            Command::SetGraphicsRootConstantBufferView {
                parameter: 0,
                address: self.spec_camera().gpu_address,
            },
            Command::SetGraphicsRootConstantBufferView {
                parameter: 1,
                address: self.spec_mesh_info().gpu_address,
            },
            Command::SetGraphicsRootDescriptorTable {
                parameter: 2,
                base: GpuDescriptorHandle { ptr: self.spec_srv_heap().spec_gpu_start() },
            },
            Command::SetPrimitiveTopology { topology: PRIMITIVE_TOPOLOGY_TRIANGLELIST },
            Command::SetVertexBuffer { slot: 0, vertices: self.spec_vertex_buffer().spec_view() },
            Command::DrawInstanced {
                vertex_count: QUAD_VERTICES,
                instance_count: 1,
                start_vertex: 0,
                start_instance: 0,
            },
        ]
    }

    /// The request for the heap of the path tracer's views: two
    /// shader-visible slots for shader-resource views.
    pub fn srv_heap_desc() -> (desc: DescriptorHeapDesc)
        ensures
            desc == (DescriptorHeapDesc {
                kind: DescriptorHeapKind::CbvSrvUav,
                num_descriptors: SRV_COUNT,
                shader_visible: true,
                node_mask: 0,
            }),
    {
        DescriptorHeapDesc::new(DescriptorHeapKind::CbvSrvUav, SRV_COUNT, true)
    }

    /// Puts the pipeline together from its parts and takes the first two
    /// slots of the view heap for the views of positions and indices, which
    /// it returns for creation.
    ///
    /// Fails with `CapacityExceeded` when the view heap has fewer than two
    /// free slots.
    pub fn new(parts: PathTracerParts) -> (created: Result<
        (PathTracerPipeline, Vec<ShaderResourceView>),
        HeapError,
    >)
        requires
            parts.camera_constant_buffer.wf(),
            parts.mesh_info_constant_buffer.wf(),
            parts.srv_heap.wf(),
        ensures
            parts.srv_heap.spec_allocated() + 2 > parts.srv_heap.spec_capacity() ==> created
                is Err && created->Err_0 == HeapError::CapacityExceeded,
            parts.srv_heap.spec_allocated() + 2 <= parts.srv_heap.spec_capacity() ==> {
                &&& created is Ok
                &&& created->Ok_0.0.wf()
                &&& created->Ok_0.0.spec_state() == parts.state
                &&& created->Ok_0.0.spec_root_signature() == parts.root_signature
                &&& created->Ok_0.0.spec_vertex_buffer() == parts.vertex_buffer
                &&& created->Ok_0.0.spec_camera() == parts.camera_constant_buffer@
                &&& created->Ok_0.0.spec_mesh_info() == parts.mesh_info_constant_buffer@
                &&& created->Ok_0.0.spec_mesh_buffer() == parts.mesh_buffer
                &&& created->Ok_0.0.spec_srv_heap() == parts.srv_heap.spec_after(2)
                &&& created->Ok_0.0.spec_srv_heap().spec_heap() == parts.srv_heap.spec_heap()
                &&& created->Ok_0.0.spec_srv_heap().spec_gpu_start()
                    == parts.srv_heap.spec_gpu_start()
                &&& created->Ok_0.1@.len() == 2
                &&& created->Ok_0.1@[0] == parts.mesh_buffer.spec_srv_vertex(
                    crate::render::descriptor_heap::CpuDescriptorHandle {
                        ptr: parts.srv_heap.spec_slot(parts.srv_heap.spec_allocated()) as usize,
                    },
                )
                &&& created->Ok_0.1@[1] == parts.mesh_buffer.spec_srv_index(
                    crate::render::descriptor_heap::CpuDescriptorHandle {
                        ptr: parts.srv_heap.spec_slot(
                            parts.srv_heap.spec_allocated() + 1,
                        ) as usize,
                    },
                )
            },
    {
        proof {
            lemma_after_effect(parts.srv_heap, 2);
        }
        let mut srv_heap = parts.srv_heap;
        let views = match parts.mesh_buffer.write_to_descriptor_heap(&mut srv_heap) {
            Ok(views) => views,
            Err(error) => {
                return Err(error);
            },
        };
        let pipeline = PathTracerPipeline {
            state: parts.state,
            root_signature: parts.root_signature,
            vertex_buffer: parts.vertex_buffer,
            camera_constant_buffer: parts.camera_constant_buffer,
            mesh_info_constant_buffer: parts.mesh_info_constant_buffer,
            mesh_buffer: parts.mesh_buffer,
            srv_heap,
        };
        Ok((pipeline, views))
    }

    /// The commands that draw with this pipeline.
    pub fn populate_command_list(&self) -> (commands: Vec<Command>)
        ensures
            commands@ == self.spec_populate_command_list(),
    {
        let mut commands: Vec<Command> = Vec::new();
        commands.push(Command::SetPipelineState { pipeline_state: self.state });
        commands.push(Command::SetDescriptorHeap { heap: self.srv_heap.heap() });
        commands.push(Command::SetGraphicsRootSignature { root_signature: self.root_signature });
        let ghost head = commands@;
        let mut upload = self.mesh_buffer.upload();
        commands.append(&mut upload);
        commands.push(
            Command::SetGraphicsRootConstantBufferView {
                parameter: 0,
                address: self.camera_constant_buffer.gpu_adress(),
            },
        );
        commands.push(
            Command::SetGraphicsRootConstantBufferView {
                parameter: 1,
                address: self.mesh_info_constant_buffer.gpu_adress(),
            },
        );
        commands.push(
            Command::SetGraphicsRootDescriptorTable {
                parameter: 2,
                base: self.srv_heap.gpu_handle(),
            },
        );
        commands.push(Command::SetPrimitiveTopology { topology: PRIMITIVE_TOPOLOGY_TRIANGLELIST });
        commands.push(Command::SetVertexBuffer { slot: 0, vertices: *self.vertex_buffer.view() });
        commands.push(
            Command::DrawInstanced {
                vertex_count: QUAD_VERTICES,
                instance_count: 1,
                start_vertex: 0,
                start_instance: 0,
            },
        );
        proof {
            assert(commands@ =~= self.spec_populate_command_list());
        }
        commands
    }

    /// Writes `data` to the camera's constant buffer and returns the buffer,
    /// whose bytes are then to be copied into its mapping.
    pub fn write_camera_data(&mut self, data: &CameraData) -> (buffer: ObjectId)
        requires
            old(self).wf(),
        ensures
            final(self).wf(),
            buffer == old(self).spec_camera().buffer,
            final(self).spec_camera() == old(self).spec_camera().write(data.spec_bytes()),
            final(self).spec_mesh_info() == old(self).spec_mesh_info(),
            final(self).spec_state() == old(self).spec_state(),
            final(self).spec_root_signature() == old(self).spec_root_signature(),
            final(self).spec_vertex_buffer() == old(self).spec_vertex_buffer(),
            final(self).spec_mesh_buffer() == old(self).spec_mesh_buffer(),
            final(self).spec_srv_heap() == old(self).spec_srv_heap(),
    {
        self.camera_constant_buffer.write(data);
        self.camera_constant_buffer.buffer()
    }

    /// Identity of the pipeline state.
    pub fn state(&self) -> (state: ObjectId)
        ensures
            state == self.spec_state(),
    {
        self.state
    }

    /// The bytes of the camera's constant buffer.
    pub fn camera_bytes(&self) -> (bytes: &Vec<u8>)
        ensures
            bytes@ == self.spec_camera().mapped,
    {
        self.camera_constant_buffer.mapped()
    }

    /// The bytes of the mesh info's constant buffer.
    pub fn mesh_info_bytes(&self) -> (bytes: &Vec<u8>)
        ensures
            bytes@ == self.spec_mesh_info().mapped,
    {
        self.mesh_info_constant_buffer.mapped()
    }

    /// Takes up new geometry: prepares its staging and writes the number of
    /// its vertices to the mesh info.
    ///
    /// Fails with `CapacityExceeded`, changing nothing, when the geometry
    /// does not fit the mesh buffers.
    pub fn set_mesh_data(&mut self, data: &MeshData) -> (staged: Result<
        StagedMesh,
        MeshBufferError,
    >)
        requires
            old(self).wf(),
        ensures
            final(self).wf(),
            final(self).spec_camera() == old(self).spec_camera(),
            final(self).spec_state() == old(self).spec_state(),
            final(self).spec_root_signature() == old(self).spec_root_signature(),
            final(self).spec_vertex_buffer() == old(self).spec_vertex_buffer(),
            final(self).spec_mesh_buffer() == old(self).spec_mesh_buffer(),
            final(self).spec_srv_heap() == old(self).spec_srv_heap(),
            staged is Ok <==> spec_fits_buffers(
                data.spec_positions().len(),
                data.spec_indices().len(),
            ),
            staged is Ok ==> {
                &&& staged->Ok_0.vertex_data@ == crate::bytes::spec_u32s_le(
                    spec_position_words(data.spec_positions()),
                )
                &&& staged->Ok_0.index_data@ == crate::bytes::spec_u32s_le(data.spec_indices())
                &&& final(self).spec_mesh_info().mapped == crate::bytes::spec_u32s_le(
                    seq![data.spec_indices().len() as u32, 0u32, 0u32, 0u32],
                )
                &&& final(self).spec_mesh_info().buffer == old(self).spec_mesh_info().buffer
                &&& final(self).spec_mesh_info().gpu_address == old(
                    self,
                ).spec_mesh_info().gpu_address
            },
            staged is Err ==> {
                &&& staged->Err_0 == MeshBufferError::CapacityExceeded
                &&& final(self).spec_mesh_info() == old(self).spec_mesh_info()
            },
    {
        let staged = match self.mesh_buffer.set_new_data(data) {
            Ok(staged) => staged,
            Err(error) => {
                return Err(error);
            },
        };
        let info = MeshInfo::new(data.vertex_count() as u32);
        self.mesh_info_constant_buffer.write(&info);
        Ok(staged)
    }
}

} // verus!
