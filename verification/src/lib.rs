//! A per-frame sprite rendering core: each frame, visible sprite entities are
//! snapshotted into a render-side store, culled and sorted per camera view,
//! staged as GPU-ready instance data and resource bindings, and finally turned
//! into a fixed sequence of bind and draw commands. The host engine owns the
//! scene graph, the GPU device and the per-view visibility tests; this crate
//! owns every per-frame decision and proves it against its contracts.

pub mod draw;
pub mod extract;
pub mod frame;
pub mod ids;
pub mod mesh;
pub mod pipeline;
pub mod prepare;
pub mod queue;
pub mod scalar;
pub mod transform;
