use vstd::prelude::*;

verus! {

/// Handle to a texture asset, as issued by the host's asset system.
#[derive(Clone, Copy, PartialEq, Eq, Structural, Debug, Hash)]
pub struct TextureId(pub u64);

/// Handle to a GPU buffer created by the host's device.
#[derive(Clone, Copy, PartialEq, Eq, Structural, Debug, Hash)]
pub struct BufferId(pub u64);

/// Handle to a GPU bind-group layout created by the host's device.
#[derive(Clone, Copy, PartialEq, Eq, Structural, Debug, Hash)]
pub struct LayoutId(pub u64);

/// Handle to a shader module loaded by the host's asset system.
#[derive(Clone, Copy, PartialEq, Eq, Structural, Debug, Hash)]
pub struct ShaderId(pub u64);

/// Handle to a cached pipeline state object; issued by the pipeline cache in
/// this crate, in order of first specialization.
#[derive(Clone, Copy, PartialEq, Eq, Structural, Debug, Hash)]
pub struct PipelineId(pub u64);

/// Handle to a registered draw function, as issued by the host's render-phase
/// registry.
#[derive(Clone, Copy, PartialEq, Eq, Structural, Debug, Hash)]
pub struct DrawFunctionId(pub u64);

/// Stable identity of a sprite entity: the render-world entity together with
/// the simulation-world entity it was synchronized from. Per-view visibility
/// membership is recorded against this pair.
#[derive(Clone, Copy, PartialEq, Eq, Structural, Debug, Hash)]
pub struct EntityRef {
    pub render: u64,
    pub main: u64,
}

} // verus!
