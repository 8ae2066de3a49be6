//! The demonstration pipeline: coloured triangles, drawn without binding any
//! resource.

use crate::render::command::{Command, PRIMITIVE_TOPOLOGY_TRIANGLELIST};
use crate::render::descriptor_heap::ObjectId;
use crate::render::pipelines::description::{
    pipeline_state_desc,
    spec_is_pipeline_state,
    spec_triangle_input_layout,
    vertex_attribute,
    CompiledShaders,
    DescriptorRange,
    GraphicsPipelineStateDesc,
    InputElementDesc,
    RootParameter,
    RootSignatureDesc,
    Semantic,
    FORMAT_R32G32B32_FLOAT,
    ROOT_SIGNATURE_FLAG_ALLOW_INPUT_ASSEMBLER_INPUT_LAYOUT,
};
use crate::scene::vertex_buffer::VertexBuffer;
use vstd::prelude::*;

verus! {

/// Number of vertices of a triangle.
pub const TRIANGLE_VERTICES: u32 = 3;

/// The triangle pipeline and the vertex buffers of the triangles it draws.
pub struct TrianglePipeline {
    root_signature: ObjectId,
    state: ObjectId,
    vertex_buffers: Vec<VertexBuffer>,
}

/// The commands that draw one triangle from `vertex_buffer`.
pub open spec fn spec_draw_triangle(vertex_buffer: VertexBuffer) -> Seq<Command> {
    seq![
        Command::SetPrimitiveTopology { topology: PRIMITIVE_TOPOLOGY_TRIANGLELIST },
        Command::SetVertexBuffer { slot: 0, vertices: vertex_buffer.spec_view() },
        Command::DrawInstanced {
            vertex_count: TRIANGLE_VERTICES,
            instance_count: 1,
            start_vertex: 0,
            start_instance: 0,
        },
    ]
}

/// The commands that draw the first `count` triangles of `vertex_buffers`.
pub open spec fn spec_draw_triangles(vertex_buffers: Seq<VertexBuffer>, count: nat) -> Seq<Command>
    decreases count,
{
    if count == 0 {
        Seq::<Command>::empty()
    } else {
        spec_draw_triangles(vertex_buffers, (count - 1) as nat) + spec_draw_triangle(
            vertex_buffers[count - 1],
        )
    }
}

/// Describes the root signature of the triangle pipeline: no parameters,
/// input assembler allowed.
pub fn create_root_signature() -> (desc: RootSignatureDesc)
    ensures
        desc.parameters@ == Seq::<RootParameter>::empty(),
        desc.ranges@ == Seq::<DescriptorRange>::empty(),
        desc.num_static_samplers == 0,
        desc.flags == ROOT_SIGNATURE_FLAG_ALLOW_INPUT_ASSEMBLER_INPUT_LAYOUT,
{
    RootSignatureDesc {
        parameters: Vec::new(),
        ranges: Vec::new(),
        num_static_samplers: 0,
        flags: ROOT_SIGNATURE_FLAG_ALLOW_INPUT_ASSEMBLER_INPUT_LAYOUT,
    }
}

/// Describes the pipeline state of the triangle pipeline: the triangle's
/// vertex layout with the given shaders and root signature.
pub fn create_pipeline_state(shaders: &CompiledShaders, root_signature: ObjectId) -> (desc:
    GraphicsPipelineStateDesc)
    ensures
        spec_is_pipeline_state(desc, root_signature, *shaders, spec_triangle_input_layout()),
{
    let position_element_desc = vertex_attribute(Semantic::Position, FORMAT_R32G32B32_FLOAT, 0);
    let color_element_desc = vertex_attribute(Semantic::Color, FORMAT_R32G32B32_FLOAT, 12);
    let mut input_element_descs: Vec<InputElementDesc> = Vec::new();
    input_element_descs.push(position_element_desc);
    input_element_descs.push(color_element_desc);
    proof {
        assert(input_element_descs@ =~= spec_triangle_input_layout());
    }
    pipeline_state_desc(shaders, root_signature, input_element_descs)
}

impl TrianglePipeline {
    /// Identity of the pipeline state.
    pub closed spec fn spec_state(&self) -> ObjectId {
        self.state
    }

    /// Identity of the root signature.
    pub closed spec fn spec_root_signature(&self) -> ObjectId {
        self.root_signature
    }

    /// The vertex buffers of the triangles, in the order they are drawn.
    pub closed spec fn spec_vertex_buffers(&self) -> Seq<VertexBuffer> {
        self.vertex_buffers@
    }

    /// The commands of `populate_command_list`: bind the root signature,
    /// then draw each triangle.
    pub open spec fn spec_populate_command_list(&self) -> Seq<Command> {
        seq![Command::SetGraphicsRootSignature { root_signature: self.spec_root_signature() }]
            + spec_draw_triangles(self.spec_vertex_buffers(), self.spec_vertex_buffers().len())
    }

    /// The pipeline with the given state and root signature and no triangle
    /// yet.
    pub fn new(state: ObjectId, root_signature: ObjectId) -> (created: Self)
        ensures
            created.spec_state() == state,
            created.spec_root_signature() == root_signature,
            created.spec_vertex_buffers() == Seq::<VertexBuffer>::empty(),
    {
        TrianglePipeline { root_signature, state, vertex_buffers: Vec::new() }
    }

    /// Adds a triangle, to be drawn after those there are.
    pub fn add_vertex_buffer(&mut self, vertex_buffer: VertexBuffer)
        ensures
            final(self).spec_vertex_buffers() == old(self).spec_vertex_buffers().push(
                vertex_buffer,
            ),
            final(self).spec_state() == old(self).spec_state(),
            final(self).spec_root_signature() == old(self).spec_root_signature(),
    {
        self.vertex_buffers.push(vertex_buffer);
    }

    /// Identity of the pipeline state.
    pub fn state(&self) -> (state: ObjectId)
        ensures
            state == self.spec_state(),
    {
        self.state
    }

    /// The commands that draw with this pipeline.
    pub fn populate_command_list(&self) -> (commands: Vec<Command>)
        ensures
            commands@ == self.spec_populate_command_list(),
    {
        let mut commands: Vec<Command> = Vec::new();
        commands.push(Command::SetGraphicsRootSignature { root_signature: self.root_signature });
        let ghost head = commands@;
        let mut i: usize = 0;
        while i < self.vertex_buffers.len()
            invariant
                i <= self.vertex_buffers@.len(),
                head == seq![
                    Command::SetGraphicsRootSignature {
                        root_signature: self.spec_root_signature(),
                    },
                ],
                commands@ == head + spec_draw_triangles(self.vertex_buffers@, i as nat),
            decreases self.vertex_buffers@.len() - i,
        {
            let vertices = *self.vertex_buffers[i].view();
            commands.push(Command::SetPrimitiveTopology { topology: PRIMITIVE_TOPOLOGY_TRIANGLELIST });
            commands.push(Command::SetVertexBuffer { slot: 0, vertices });
            commands.push(
                Command::DrawInstanced {
                    vertex_count: TRIANGLE_VERTICES,
                    instance_count: 1,
                    start_vertex: 0,
                    start_instance: 0,
                },
            );
            proof {
                assert(commands@ =~= head + spec_draw_triangles(
                    self.vertex_buffers@,
                    (i + 1) as nat,
                ));
            }
            i = i + 1;
        }
        commands
    }
}

} // verus!
