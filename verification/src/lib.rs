//! A render pipeline for a single coloured quad, driven by a camera.
//!
//! The camera owns position, orientation and perspective parameters and
//! turns them into view and projection matrices; the pipeline combines a
//! linked shader program, an uploaded vertex buffer and the camera's
//! matrices into the ordered list of backend commands that draws one
//! frame. All transform math is exact: every scalar is a fraction of
//! machine integers, so the matrices a camera state produces are fully
//! determined by that state. The graphics backend itself (buffer and
//! program creation, the draw call) is an external collaborator that
//! executes the commands and reports outcomes back to the build steps.

pub mod camera;
pub mod geometry;
pub mod matrix;
pub mod pipeline;
pub mod rational;
pub mod shader;
