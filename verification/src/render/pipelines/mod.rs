//! The pipelines of the renderer and what they read each frame.

pub mod constants;
pub mod description;
pub mod naive_pathtracer;
pub mod storage;
pub mod triangle;

pub use naive_pathtracer::{create_pathtracer_pipeline, PathTracerPipeline};
pub use storage::{Pipeline, PipelineStorage, PATH_TRACER_PIPELINE_ID};
