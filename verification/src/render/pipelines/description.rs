//! Descriptions from which the device builds root signatures and pipeline
//! states, and the compilation of the shaders that go into them.

use crate::render::descriptor_heap::ObjectId;
use crate::render::render_target::FORMAT_R8G8B8A8_UNORM;
use crate::scene::mesh::PrimitiveTopologyType;
use vstd::prelude::*;

verus! {

/// The range holds shader-resource views.
pub const DESCRIPTOR_RANGE_TYPE_SRV: i32 = 0;

/// The range follows the one before it in the table.
pub const DESCRIPTOR_RANGE_OFFSET_APPEND: u32 = 0xffff_ffff;

/// The parameter is visible to the pixel shader only.
pub const SHADER_VISIBILITY_PIXEL: i32 = 5;

/// The input assembler is used with an input layout.
pub const ROOT_SIGNATURE_FLAG_ALLOW_INPUT_ASSEMBLER_INPUT_LAYOUT: i32 = 1;

/// Version of the root signature layout.
pub const ROOT_SIGNATURE_VERSION_1: i32 = 1;

/// Three single-precision numbers.
pub const FORMAT_R32G32B32_FLOAT: i32 = 6;

/// Two single-precision numbers.
pub const FORMAT_R32G32_FLOAT: i32 = 16;

/// The element follows the one before it without a gap.
pub const APPEND_ALIGNED_ELEMENT: u32 = 0xffff_ffff;

/// Triangles are filled.
pub const FILL_MODE_SOLID: i32 = 3;

/// No triangle is culled.
pub const CULL_MODE_NONE: i32 = 1;

/// Blend factor one.
pub const BLEND_ONE: i32 = 2;

/// Blend factor zero.
pub const BLEND_ZERO: i32 = 1;

/// Source and destination are added.
pub const BLEND_OP_ADD: i32 = 1;

/// The logic operation that leaves the destination as it is.
pub const LOGIC_OP_NOOP: i32 = 4;

/// All four channels are written.
pub const COLOR_WRITE_ENABLE_ALL: u8 = 15;

/// Compile with debug information.
pub const COMPILE_DEBUG: u32 = 1;

/// Compile without optimizing.
pub const COMPILE_SKIP_OPTIMIZATION: u32 = 4;

/// A run of descriptors of one type in a descriptor table.
#[derive(Clone, Copy, Debug, PartialEq, Eq, Structural)]
pub struct DescriptorRange {
    pub range_type: i32,
    pub num_descriptors: u32,
    pub base_shader_register: u32,
    pub register_space: u32,
    pub offset_in_descriptors_from_table_start: u32,
}

/// One parameter of a root signature.
#[derive(Clone, Copy, Debug, PartialEq, Eq, Structural)]
pub enum RootParameter {
    /// A constant-buffer view bound by address.
    ConstantBufferView { shader_register: u32, register_space: u32, shader_visibility: i32 },
    /// A descriptor table made of `range_count` ranges of the signature,
    /// starting with range `first_range`.
    DescriptorTable { first_range: u32, range_count: u32, shader_visibility: i32 },
}

/// The layout of the resources that a pipeline's shaders expect.
pub struct RootSignatureDesc {
    pub parameters: Vec<RootParameter>,
    pub ranges: Vec<DescriptorRange>,
    pub num_static_samplers: u32,
    pub flags: i32,
}

/// What a vertex attribute means to the shader.
#[derive(Clone, Copy, Debug, PartialEq, Eq, Structural)]
pub enum Semantic {
    Position,
    TexCoord,
    Color,
}

/// One attribute of the vertex layout.
#[derive(Clone, Copy, Debug, PartialEq, Eq, Structural)]
pub struct InputElementDesc {
    pub semantic: Semantic,
    pub semantic_index: u32,
    pub format: i32,
    pub input_slot: u32,
    pub aligned_byte_offset: u32,
    pub input_slot_class: i32,
    pub instance_data_step_rate: u32,
}

/// How the output of the pixel shader is combined with a render target.
#[derive(Clone, Copy, Debug, PartialEq, Eq, Structural)]
pub struct RenderTargetBlendDesc {
    pub blend_enable: bool,
    pub logic_op_enable: bool,
    pub src_blend: i32,
    pub dest_blend: i32,
    pub blend_op: i32,
    pub src_blend_alpha: i32,
    pub dest_blend_alpha: i32,
    pub blend_op_alpha: i32,
    pub logic_op: i32,
    pub render_target_write_mask: u8,
}

/// Description of a graphics pipeline state. It names what differs from a
/// description that is zero throughout: every part of the device's
/// description that has no field here is zero, and so are the blend
/// descriptions and formats of the render targets after the first.
pub struct GraphicsPipelineStateDesc {
    pub root_signature: ObjectId,
    pub vertex_shader: ObjectId,
    pub pixel_shader: ObjectId,
    pub input_layout: Vec<InputElementDesc>,
    pub fill_mode: i32,
    pub cull_mode: i32,
    pub alpha_to_coverage_enable: bool,
    pub independent_blend_enable: bool,
    pub render_target_blend: RenderTargetBlendDesc,
    pub sample_mask: u32,
    pub primitive_topology_type: PrimitiveTopologyType,
    pub num_render_targets: u32,
    pub rtv_format: i32,
    pub sample_count: u32,
}

/// The stage a shader is compiled for.
#[derive(Clone, Copy, Debug, PartialEq, Eq, Structural)]
pub enum ShaderStage {
    Vertex,
    Pixel,
}

/// One run of the shader compiler over the shader source.
#[derive(Clone, Copy, Debug, PartialEq, Eq, Structural)]
pub struct CompileRequest {
    pub stage: ShaderStage,
    pub flags: u32,
}

/// What the compiler reports when it fails.
#[derive(Debug)]
pub struct CompileFailure {
    /// The compiler's result code.
    pub code: i32,
    /// The compiler's diagnostics.
    pub message: String,
}

/// Why the shaders of a pipeline could not be had.
#[derive(Debug)]
pub enum ShaderCompilationError {
    /// The compiler failed on the vertex shader.
    Vertex(CompileFailure),
    /// The compiler failed on the pixel shader.
    Pixel(CompileFailure),
    /// The compiler reported success for `stage` and delivered no bytecode.
    MissingBytecode { stage: ShaderStage },
}

/// The compiled shaders of a pipeline, by the identity of their bytecode.
#[derive(Clone, Copy, Debug, PartialEq, Eq, Structural)]
pub struct CompiledShaders {
    pub vertex_shader: ObjectId,
    pub pixel_shader: ObjectId,
}

impl Semantic {
    /// The name by which the shader source refers to the semantic.
    pub fn name(self) -> (name: &'static str)
        ensures
            name@ == match self {
                Semantic::Position => "POSITION"@,
                Semantic::TexCoord => "TEXCOORD"@,
                Semantic::Color => "COLOR"@,
            },
    {
        match self {
            Semantic::Position => "POSITION",
            Semantic::TexCoord => "TEXCOORD",
            Semantic::Color => "COLOR",
        }
    }
}

impl ShaderStage {
    /// The function of the shader source that is the stage's entry point.
    pub fn entry_point(self) -> (name: &'static str)
        ensures
            name@ == match self {
                ShaderStage::Vertex => "VSMain"@,
                ShaderStage::Pixel => "PSMain"@,
            },
    {
        match self {
            ShaderStage::Vertex => "VSMain",
            ShaderStage::Pixel => "PSMain",
        }
    }

    /// The shader model the stage is compiled for.
    pub fn target(self) -> (name: &'static str)
        ensures
            name@ == match self {
                ShaderStage::Vertex => "vs_5_0"@,
                ShaderStage::Pixel => "ps_5_0"@,
            },
    {
        match self {
            ShaderStage::Vertex => "vs_5_0",
            ShaderStage::Pixel => "ps_5_0",
        }
    }
}

/// The compiler flags: debug information and no optimization in a debug
/// build, none otherwise.
pub open spec fn spec_compile_flags(debug: bool) -> u32 {
    if debug {
        5
    } else {
        0
    }
}

/// The compiler flags for a debug or a release build.
pub fn compile_flags(debug: bool) -> (flags: u32)
    ensures
        flags == spec_compile_flags(debug),
{
    if debug {
        COMPILE_DEBUG + COMPILE_SKIP_OPTIMIZATION
    } else {
        0
    }
}

/// The compiler runs a pipeline needs: the vertex shader, then the pixel
/// shader, both with the flags of the build.
pub fn compile_requests(debug: bool) -> (requests: Vec<CompileRequest>)
    ensures
        requests@ == seq![
            CompileRequest { stage: ShaderStage::Vertex, flags: spec_compile_flags(debug) },
            CompileRequest { stage: ShaderStage::Pixel, flags: spec_compile_flags(debug) },
        ],
{
    let flags: u32 = compile_flags(debug);
    let mut requests: Vec<CompileRequest> = Vec::new();
    requests.push(CompileRequest { stage: ShaderStage::Vertex, flags });
    requests.push(CompileRequest { stage: ShaderStage::Pixel, flags });
    proof {
        assert(requests@ =~= seq![
            CompileRequest { stage: ShaderStage::Vertex, flags: spec_compile_flags(debug) },
            CompileRequest { stage: ShaderStage::Pixel, flags: spec_compile_flags(debug) },
        ]);
    }
    requests
}

/// Judges the two compiler runs, each given as the bytecode it delivered, if
/// any, or as its failure. A failure of the vertex shader is reported before
/// one of the pixel shader, and a failure before missing bytecode; of missing
/// bytecode, that of the vertex shader first.
pub fn compile_shaders(
    vertex: Result<Option<ObjectId>, CompileFailure>,
    pixel: Result<Option<ObjectId>, CompileFailure>,
) -> (compiled: Result<CompiledShaders, ShaderCompilationError>)
    ensures
        match (vertex, pixel) {
            (Err(failure), _) => compiled is Err && compiled->Err_0
                == ShaderCompilationError::Vertex(failure),
            (Ok(_), Err(failure)) => compiled is Err && compiled->Err_0
                == ShaderCompilationError::Pixel(failure),
            (Ok(None), Ok(_)) => compiled is Err && compiled->Err_0
                == (ShaderCompilationError::MissingBytecode { stage: ShaderStage::Vertex }),
            (Ok(Some(_)), Ok(None)) => compiled is Err && compiled->Err_0
                == (ShaderCompilationError::MissingBytecode { stage: ShaderStage::Pixel }),
            (Ok(Some(vertex_shader)), Ok(Some(pixel_shader))) => compiled is Ok && compiled->Ok_0
                == (CompiledShaders { vertex_shader, pixel_shader }),
        },
{
    match (vertex, pixel) {
        (Err(failure), _) => Err(ShaderCompilationError::Vertex(failure)),
        (Ok(_), Err(failure)) => Err(ShaderCompilationError::Pixel(failure)),
        (Ok(None), Ok(_)) => Err(
            ShaderCompilationError::MissingBytecode { stage: ShaderStage::Vertex },
        ),
        (Ok(Some(_)), Ok(None)) => Err(
            ShaderCompilationError::MissingBytecode { stage: ShaderStage::Pixel },
        ),
        (Ok(Some(vertex_shader)), Ok(Some(pixel_shader))) => Ok(
            CompiledShaders { vertex_shader, pixel_shader },
        ),
    }
}

/// The blend description that writes the source over the destination, all
/// channels, without blending.
pub open spec fn spec_opaque_blend() -> RenderTargetBlendDesc {
    RenderTargetBlendDesc {
        blend_enable: false,
        logic_op_enable: false,
        src_blend: BLEND_ONE,
        dest_blend: BLEND_ZERO,
        blend_op: BLEND_OP_ADD,
        src_blend_alpha: BLEND_ONE,
        dest_blend_alpha: BLEND_ZERO,
        blend_op_alpha: BLEND_OP_ADD,
        logic_op: LOGIC_OP_NOOP,
        render_target_write_mask: COLOR_WRITE_ENABLE_ALL,
    }
}

/// A per-vertex attribute in input slot 0.
pub open spec fn spec_vertex_attribute(semantic: Semantic, format: i32, offset: u32) -> InputElementDesc {
    InputElementDesc {
        semantic,
        semantic_index: 0,
        format,
        input_slot: 0,
        aligned_byte_offset: offset,
        input_slot_class: 0,
        instance_data_step_rate: 0,
    }
}

/// The vertex layout of the path tracer's quad: a position of three numbers
/// at the start, and a texture coordinate of two right after it.
pub open spec fn spec_quad_input_layout() -> Seq<InputElementDesc> {
    seq![
        spec_vertex_attribute(Semantic::Position, FORMAT_R32G32B32_FLOAT, 0),
        spec_vertex_attribute(Semantic::TexCoord, FORMAT_R32G32_FLOAT, APPEND_ALIGNED_ELEMENT),
    ]
}

/// The vertex layout of the triangle: a position of three numbers at the
/// start, and a colour read as three numbers from byte 12.
pub open spec fn spec_triangle_input_layout() -> Seq<InputElementDesc> {
    seq![
        spec_vertex_attribute(Semantic::Position, FORMAT_R32G32B32_FLOAT, 0),
        spec_vertex_attribute(Semantic::Color, FORMAT_R32G32B32_FLOAT, 12),
    ]
}

/// Whether `desc` is the pipeline state for filled, unculled triangles that
/// are written opaquely to one render target of four 8-bit channels, not
/// multisampled, with the given root signature, shaders and vertex layout.
pub open spec fn spec_is_pipeline_state(
    desc: GraphicsPipelineStateDesc,
    root_signature: ObjectId,
    shaders: CompiledShaders,
    input_layout: Seq<InputElementDesc>,
) -> bool {
    &&& desc.root_signature == root_signature
    &&& desc.vertex_shader == shaders.vertex_shader
    &&& desc.pixel_shader == shaders.pixel_shader
    &&& desc.input_layout@ == input_layout
    &&& desc.fill_mode == FILL_MODE_SOLID
    &&& desc.cull_mode == CULL_MODE_NONE
    &&& !desc.alpha_to_coverage_enable
    &&& !desc.independent_blend_enable
    &&& desc.render_target_blend == spec_opaque_blend()
    &&& desc.sample_mask == u32::MAX
    &&& desc.primitive_topology_type == PrimitiveTopologyType::Triangle
    &&& desc.num_render_targets == 1
    &&& desc.rtv_format == FORMAT_R8G8B8A8_UNORM
    &&& desc.sample_count == 1
}

/// Builds a per-vertex attribute in input slot 0.
pub fn vertex_attribute(semantic: Semantic, format: i32, offset: u32) -> (element:
    InputElementDesc)
    ensures
        element == spec_vertex_attribute(semantic, format, offset),
{
    InputElementDesc {
        semantic,
        semantic_index: 0,
        format,
        input_slot: 0,
        aligned_byte_offset: offset,
        input_slot_class: 0,
        instance_data_step_rate: 0,
    }
}

/// Builds the pipeline state description around `input_layout`.
pub fn pipeline_state_desc(
    shaders: &CompiledShaders,
    root_signature: ObjectId,
    input_layout: Vec<InputElementDesc>,
) -> (desc: GraphicsPipelineStateDesc)
    ensures
        spec_is_pipeline_state(desc, root_signature, *shaders, input_layout@),
{
    GraphicsPipelineStateDesc {
        root_signature,
        vertex_shader: shaders.vertex_shader,
        pixel_shader: shaders.pixel_shader,
        input_layout,
        fill_mode: FILL_MODE_SOLID,
        cull_mode: CULL_MODE_NONE,
        alpha_to_coverage_enable: false,
        independent_blend_enable: false,
        render_target_blend: RenderTargetBlendDesc {
            blend_enable: false,
            logic_op_enable: false,
            src_blend: BLEND_ONE,
            dest_blend: BLEND_ZERO,
            blend_op: BLEND_OP_ADD,
            src_blend_alpha: BLEND_ONE,
            dest_blend_alpha: BLEND_ZERO,
            blend_op_alpha: BLEND_OP_ADD,
            logic_op: LOGIC_OP_NOOP,
            render_target_write_mask: COLOR_WRITE_ENABLE_ALL,
        },
        sample_mask: u32::MAX,
        primitive_topology_type: PrimitiveTopologyType::Triangle,
        num_render_targets: 1,
        rtv_format: FORMAT_R8G8B8A8_UNORM,
        sample_count: 1,
    }
}

} // verus!
