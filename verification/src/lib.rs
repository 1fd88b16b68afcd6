//! Verified core of a skybox render pass: camera resolution, uniform data,
//! cube geometry, per-frame draw recording and cubemap assembly.
//!
//! The crate holds no graphics-API state of its own. GPU resources appear as
//! plain identifiers that the host hands in, and everything the pass would
//! send to the GPU is recorded as a list of commands for the host to replay.

pub mod cam;
pub mod cubemap;
pub mod format;
pub mod matrix;
pub mod mesh;
pub mod pass;
pub mod pipe;
pub mod sky;
pub mod storage;
pub mod tex;
pub mod uniform;
pub mod vertex;
