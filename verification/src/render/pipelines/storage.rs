//! The pipelines the renderer knows, by their number.

use crate::render::command::Command;
use crate::render::descriptor_heap::ObjectId;
use crate::render::mesh_data::mesh_buffer::{MeshBufferError, StagedMesh};
use crate::render::mesh_data::mesh_list::MeshData;
use crate::render::pipelines::constants::CameraData;
use crate::render::pipelines::naive_pathtracer::PathTracerPipeline;
use crate::render::pipelines::triangle::TrianglePipeline;
use std::collections::HashMap;
use vstd::prelude::*;

verus! {

broadcast use vstd::std_specs::hash::group_hash_axioms;

/// The number of a pipeline.
pub type PipelineId = usize;

/// The number of the path tracer's pipeline.
pub const PATH_TRACER_PIPELINE_ID: PipelineId = 0;

/// The number of the triangle pipeline.
pub const TRIANGLE_PIPELINE_ID: PipelineId = 1;

/// A pipeline of one of the kinds the renderer has.
pub enum Pipeline {
    PathTracer(PathTracerPipeline),
    Triangle(TrianglePipeline),
}

/// The pipelines that have been built.
pub struct PipelineStorage {
    pipelines: HashMap<PipelineId, Pipeline>,
}

impl Pipeline {
    /// The invariant of the pipeline.
    pub open spec fn wf(&self) -> bool {
        match self {
            Pipeline::PathTracer(pipeline) => pipeline.wf(),
            Pipeline::Triangle(_) => true,
        }
    }

    /// Identity of the pipeline state.
    pub open spec fn spec_state(&self) -> ObjectId {
        match self {
            Pipeline::PathTracer(pipeline) => pipeline.spec_state(),
            Pipeline::Triangle(pipeline) => pipeline.spec_state(),
        }
    }

    /// The commands that draw with the pipeline.
    pub open spec fn spec_populate_command_list(&self) -> Seq<Command> {
        match self {
            Pipeline::PathTracer(pipeline) => pipeline.spec_populate_command_list(),
            Pipeline::Triangle(pipeline) => pipeline.spec_populate_command_list(),
        }
    }

    /// The constant buffer the pipeline reads the camera from, if it reads
    /// one.
    pub open spec fn spec_camera_buffer(&self) -> Option<ObjectId> {
        match self {
            Pipeline::PathTracer(pipeline) => Some(pipeline.spec_camera().buffer),
            Pipeline::Triangle(_) => None,
        }
    }

    /// The commands that draw with the pipeline.
    pub fn populate_command_list(&self) -> (commands: Vec<Command>)
        ensures
            commands@ == self.spec_populate_command_list(),
    {
        match self {
            Pipeline::PathTracer(pipeline) => pipeline.populate_command_list(),
            Pipeline::Triangle(pipeline) => pipeline.populate_command_list(),
        }
    }

    /// Identity of the pipeline state.
    pub fn state(&self) -> (state: ObjectId)
        ensures
            state == self.spec_state(),
    {
        match self {
            Pipeline::PathTracer(pipeline) => pipeline.state(),
            Pipeline::Triangle(pipeline) => pipeline.state(),
        }
    }

    /// Gives the camera to the pipeline. A pipeline that reads a camera
    /// writes it to its constant buffer and returns the buffer; the triangle
    /// pipeline reads none and stays as it is.
    pub fn write_camera_data(&mut self, data: &CameraData) -> (buffer: Option<ObjectId>)
        requires
            old(self).wf(),
        ensures
            final(self).wf(),
            buffer == old(self).spec_camera_buffer(),
            final(self).spec_state() == old(self).spec_state(),
            final(self).spec_populate_command_list() == old(self).spec_populate_command_list(),
            final(self).spec_camera_buffer() == old(self).spec_camera_buffer(),
            match (*old(self), *final(self)) {
                (Pipeline::PathTracer(before), Pipeline::PathTracer(after)) => {
                    &&& after.spec_camera() == before.spec_camera().write(
                        crate::render::constant_buffer::ConstantData::spec_bytes(data),
                    )
                    &&& after.spec_mesh_info() == before.spec_mesh_info()
                },
                (Pipeline::Triangle(before), Pipeline::Triangle(after)) => after == before,
                _ => false,
            },
    {
        match self {
            Pipeline::PathTracer(pipeline) => Some(pipeline.write_camera_data(data)),
            Pipeline::Triangle(_) => None,
        }
    }

    /// Gives new geometry to the pipeline. The path tracer takes it up as
    /// `PathTracerPipeline::set_mesh_data` says; the triangle pipeline has
    /// geometry of its own, stages nothing and stays as it is.
    pub fn set_mesh_data(&mut self, data: &MeshData) -> (staged: Result<
        StagedMesh,
        MeshBufferError,
    >)
        requires
            old(self).wf(),
        ensures
            final(self).wf(),
            final(self).spec_state() == old(self).spec_state(),
            final(self).spec_populate_command_list() == old(self).spec_populate_command_list(),
            final(self).spec_camera_buffer() == old(self).spec_camera_buffer(),
            *old(self) is Triangle ==> {
                &&& *final(self) == *old(self)
                &&& staged is Ok
                &&& staged->Ok_0.vertex_data@ == Seq::<u8>::empty()
                &&& staged->Ok_0.index_data@ == Seq::<u8>::empty()
            },
            *old(self) is PathTracer ==> (staged is Ok
                <==> crate::render::mesh_data::mesh_buffer::spec_fits_buffers(
                data.spec_positions().len(),
                data.spec_indices().len(),
            )),
            *old(self) is PathTracer && staged is Ok ==> {
                &&& staged->Ok_0.vertex_data@ == crate::bytes::spec_u32s_le(
                    crate::render::mesh_data::mesh_buffer::spec_position_words(
                        data.spec_positions(),
                    ),
                )
                &&& staged->Ok_0.index_data@ == crate::bytes::spec_u32s_le(data.spec_indices())
            },
    {
        match self {
            Pipeline::PathTracer(pipeline) => pipeline.set_mesh_data(data),
            Pipeline::Triangle(_) => Ok(
                StagedMesh { vertex_data: Vec::new(), index_data: Vec::new() },
            ),
        }
    }
}

impl View for PipelineStorage {
    type V = Map<PipelineId, Pipeline>;

    closed spec fn view(&self) -> Map<PipelineId, Pipeline> {
        self.pipelines@
    }
}

impl PipelineStorage {
    /// The invariant of the storage: that of every pipeline in it.
    pub open spec fn wf(&self) -> bool {
        forall|id: PipelineId| #[trigger] self@.contains_key(id) ==> self@[id].wf()
    }

    /// A storage without pipelines.
    pub fn new() -> (storage: Self)
        ensures
            storage@ == Map::<PipelineId, Pipeline>::empty(),
            storage.wf(),
    {
        PipelineStorage { pipelines: HashMap::new() }
    }

    /// Whether a pipeline is stored under `id`.
    pub fn contains_key(&self, id: PipelineId) -> (present: bool)
        ensures
            present == self@.contains_key(id),
    {
        self.pipelines.contains_key(&id)
    }

    /// Stores `pipeline` under `id` and returns the pipeline that was stored
    /// there before, if any.
    pub fn insert(&mut self, id: PipelineId, pipeline: Pipeline) -> (replaced: Option<Pipeline>)
        ensures
            final(self)@ == old(self)@.insert(id, pipeline),
            replaced == if old(self)@.contains_key(id) {
                Some(old(self)@[id])
            } else {
                None
            },
    {
        self.pipelines.insert(id, pipeline)
    }

    /// Takes the pipeline stored under `id` out of the storage, if there is
    /// one.
    pub fn remove(&mut self, id: PipelineId) -> (removed: Option<Pipeline>)
        ensures
            final(self)@ == old(self)@.remove(id),
            removed == if old(self)@.contains_key(id) {
                Some(old(self)@[id])
            } else {
                None
            },
    {
        self.pipelines.remove(&id)
    }

    /// The pipeline stored under `id`, if there is one.
    pub fn get(&self, id: PipelineId) -> (found: Option<&Pipeline>)
        ensures
            found == if self@.contains_key(id) {
                Some(&self@[id])
            } else {
                None
            },
    {
        self.pipelines.get(&id)
    }

    /// Number of pipelines stored.
    pub fn len(&self) -> (len: usize)
        ensures
            len == self@.len(),
    {
        self.pipelines.len()
    }
}

} // verus!
