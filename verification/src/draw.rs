use vstd::prelude::*;

use crate::ids::{BufferId, EntityRef, LayoutId, PipelineId, TextureId};
use crate::mesh::{FixedQuadMesh, QUAD_INDEX_COUNT};
use crate::pipeline::{IndexFormatDesc, SpecializedPipelines};
use crate::prepare::PreparedSprites;
use crate::queue::DrawItem;

verus! {

/// What a bound buffer refers to: the shared quad geometry, or the
/// per-sprite instance buffer staged at prepare time for one entity.
#[derive(Clone, Copy, PartialEq, Eq, Structural, Debug)]
pub enum BufferBinding {
    Shared { buffer: BufferId },
    PerInstance { entity: EntityRef },
}

/// One GPU command recorded into the render pass.
#[derive(Clone, Copy, PartialEq, Eq, Structural, Debug)]
pub enum GpuCommand {
    /// Bind the pipeline state object of a queued item.
    BindPipeline { pipeline: PipelineId },
    /// Bind the view's uniforms at a bind-group slot.
    BindViewBindings { index: usize, bind_group: u64 },
    /// Bind one sprite's resource-binding set at a bind-group slot.
    BindInstanceBindings { index: usize, layout: LayoutId, texture: TextureId },
    /// Bind a vertex buffer at a vertex-buffer slot.
    BindVertexBuffer { slot: u32, buffer: BufferBinding },
    /// Bind the index buffer.
    BindIndexBuffer { buffer: BufferId, format: IndexFormatDesc },
    /// The indexed, instanced draw call.
    DrawIndexed {
        first_index: u32,
        index_count: u32,
        base_vertex: i32,
        first_instance: u32,
        instance_count: u32,
    },
}

/// The render pass as this core sees it: the ordered log of commands
/// recorded during encoding.
#[derive(Clone, Debug)]
pub struct RenderPassLog {
    pub commands: Vec<GpuCommand>,
}

/// Why a draw step failed. Every failure is frame-local: the item is not
/// drawn this frame and nothing else is affected.
#[derive(Clone, Copy, PartialEq, Eq, Structural, Debug)]
pub enum DrawFailure {
    /// The item's prepared data was absent at draw time.
    MissingPreparedData,
    /// The shared quad's index buffer is not uploaded yet.
    MissingIndexBuffer,
    /// The shared quad's vertex buffer is not uploaded yet.
    MissingVertexBuffer,
}

/// The outcome of one draw step, or of one item's whole step sequence.
#[derive(Clone, Copy, PartialEq, Eq, Structural, Debug)]
pub enum RenderCommandResult {
    Success,
    Skip,
    Failure(DrawFailure),
}

/// The draw step that binds one sprite's resource-binding set at bind-group
/// slot `I`.
pub struct SetBindGroup<const I: usize>;

impl<const I: usize> SetBindGroup<I> {
    /// Bind the prepared binding set. Without prepared data the step
    /// reports a skip and records nothing; encoding proceeds to the next
    /// queued item without aborting the frame.
    pub fn render(prepared: Option<&PreparedSprites>, pass: &mut RenderPassLog) -> (r:
        RenderCommandResult)
        ensures
            prepared is None ==> r == RenderCommandResult::Skip && final(pass).commands@ == old(
                pass,
            ).commands@,
            prepared matches Some(p) ==> r == RenderCommandResult::Success && final(pass).commands@
                == old(pass).commands@.push(
                (GpuCommand::BindInstanceBindings {
                    index: I,
                    layout: p.uniform_buffer.layout,
                    texture: p.uniform_buffer.texture,
                }),
            ),
    {
        match prepared {
            None => RenderCommandResult::Skip,
            Some(p) => {
                pass.commands.push(
                    GpuCommand::BindInstanceBindings {
                        index: I,
                        layout: p.uniform_buffer.layout,
                        texture: p.uniform_buffer.texture,
                    },
                );
                RenderCommandResult::Success
            },
        }
    }
}

/// The final draw step: bind the quad's vertex buffer, the sprite's
/// instance buffer and the quad's index buffer, then issue the indexed,
/// instanced draw call over six indices.
pub struct DrawSprite;

impl DrawSprite {
    /// Record the buffer binds and the draw call. Missing prepared data or
    /// a quad buffer not yet uploaded fails this item for the frame; the
    /// pass keeps what earlier steps bound, which is harmless, and nothing
    /// is drawn for the item.
    pub fn render(
        item: &DrawItem,
        prepared: Option<&PreparedSprites>,
        quad: &FixedQuadMesh,
        pass: &mut RenderPassLog,
    ) -> (r: RenderCommandResult)
        ensures
            prepared is None ==> r == RenderCommandResult::Failure(DrawFailure::MissingPreparedData)
                && final(pass).commands@ == old(pass).commands@,
            prepared is Some && quad.index_buffer_gpu is None ==> r == RenderCommandResult::Failure(
                DrawFailure::MissingIndexBuffer,
            ) && final(pass).commands@ == old(pass).commands@,
            prepared is Some && quad.index_buffer_gpu is Some && quad.vertex_buffer_gpu is None
                ==> r == RenderCommandResult::Failure(DrawFailure::MissingVertexBuffer)
                && final(pass).commands@ == old(pass).commands@,
            prepared matches Some(p) ==> quad.index_buffer_gpu matches Some(ib)
                ==> quad.vertex_buffer_gpu matches Some(vb) ==> r == RenderCommandResult::Success
                && final(pass).commands@ == old(pass).commands@.push(
                (GpuCommand::BindVertexBuffer {
                    slot: 0,
                    buffer: BufferBinding::Shared { buffer: vb },
                }),
            ).push(
                (GpuCommand::BindVertexBuffer {
                    slot: 1,
                    buffer: BufferBinding::PerInstance { entity: item.entity },
                }),
            ).push((GpuCommand::BindIndexBuffer { buffer: ib, format: IndexFormatDesc::Uint32 })).push(
                (GpuCommand::DrawIndexed {
                    first_index: 0,
                    index_count: QUAD_INDEX_COUNT,
                    base_vertex: 0,
                    first_instance: 0,
                    instance_count: p.count,
                }),
            ),
    {
        let p = match prepared {
            None => {
                return RenderCommandResult::Failure(DrawFailure::MissingPreparedData);
            },
            Some(p) => p,
        };
        let ib = match quad.index_buffer_gpu {
            None => {
                return RenderCommandResult::Failure(DrawFailure::MissingIndexBuffer);
            },
            Some(ib) => ib,
        };
        let vb = match quad.vertex_buffer_gpu {
            None => {
                return RenderCommandResult::Failure(DrawFailure::MissingVertexBuffer);
            },
            Some(vb) => vb,
        };
        pass.commands.push(
            GpuCommand::BindVertexBuffer { slot: 0, buffer: BufferBinding::Shared { buffer: vb } },
        );
        pass.commands.push(
            GpuCommand::BindVertexBuffer {
                slot: 1,
                buffer: BufferBinding::PerInstance { entity: item.entity },
            },
        );
        pass.commands.push(GpuCommand::BindIndexBuffer { buffer: ib, format: IndexFormatDesc::Uint32 });
        pass.commands.push(
            GpuCommand::DrawIndexed {
                first_index: 0,
                index_count: QUAD_INDEX_COUNT,
                base_vertex: 0,
                first_instance: 0,
                instance_count: p.count,
            },
        );
        RenderCommandResult::Success
    }
}

/// A prepared reference as the step specifications see it.
pub open spec fn opt_prepared(p: Option<&PreparedSprites>) -> Option<PreparedSprites> {
    match p {
        Some(x) => Some(*x),
        None => None,
    }
}

/// The commands one queued item records: nothing if its pipeline is not
/// built; otherwise the pipeline and view binds, then, with prepared data,
/// the sprite's bindings, and, with the quad buffers uploaded too, the
/// buffer binds and the draw call.
pub open spec fn item_commands(
    item: DrawItem,
    pipeline_known: bool,
    view_bind_group: u64,
    prepared: Option<PreparedSprites>,
    vertex_gpu: Option<BufferId>,
    index_gpu: Option<BufferId>,
) -> Seq<GpuCommand> {
    if !pipeline_known {
        Seq::<GpuCommand>::empty()
    } else {
        let head = seq![
            (GpuCommand::BindPipeline { pipeline: item.pipeline }),
            (GpuCommand::BindViewBindings { index: 0, bind_group: view_bind_group }),
        ];
        match prepared {
            None => head,
            Some(p) => {
                let bound = head.push(
                    GpuCommand::BindInstanceBindings {
                        index: 1,
                        layout: p.uniform_buffer.layout,
                        texture: p.uniform_buffer.texture,
                    },
                );
                match (index_gpu, vertex_gpu) {
                    (Some(ib), Some(vb)) => bound.push(
                        GpuCommand::BindVertexBuffer {
                            slot: 0,
                            buffer: BufferBinding::Shared { buffer: vb },
                        },
                    ).push(
                        GpuCommand::BindVertexBuffer {
                            slot: 1,
                            buffer: BufferBinding::PerInstance { entity: item.entity },
                        },
                    ).push(
                        GpuCommand::BindIndexBuffer { buffer: ib, format: IndexFormatDesc::Uint32 },
                    ).push(
                        GpuCommand::DrawIndexed {
                            first_index: 0,
                            index_count: QUAD_INDEX_COUNT,
                            base_vertex: 0,
                            first_instance: 0,
                            instance_count: p.count,
                        },
                    ),
                    _ => bound,
                }
            },
        }
    }
}

/// The outcome one queued item reports.
pub open spec fn item_result(
    pipeline_known: bool,
    prepared: Option<PreparedSprites>,
    vertex_gpu: Option<BufferId>,
    index_gpu: Option<BufferId>,
) -> RenderCommandResult {
    if !pipeline_known {
        RenderCommandResult::Skip
    } else {
        match prepared {
            None => RenderCommandResult::Skip,
            Some(_) => {
                if index_gpu is None {
                    RenderCommandResult::Failure(DrawFailure::MissingIndexBuffer)
                } else if vertex_gpu is None {
                    RenderCommandResult::Failure(DrawFailure::MissingVertexBuffer)
                } else {
                    RenderCommandResult::Success
                }
            },
        }
    }
}

/// One queued item's fixed step sequence, in order: bind pipeline, bind the
/// view's bindings, bind the sprite's bindings, bind the buffers, draw.
/// Each step runs only if every step before it succeeded; a step that finds
/// its data absent reports the skip or failure and encoding proceeds to the
/// next queued item without aborting the frame.
pub fn render_item(
    item: &DrawItem,
    pipelines: &SpecializedPipelines,
    view_bind_group: u64,
    prepared: Option<&PreparedSprites>,
    quad: &FixedQuadMesh,
    pass: &mut RenderPassLog,
) -> (r: RenderCommandResult)
    ensures
        final(pass).commands@ == old(pass).commands@ + item_commands(
            *item,
            pipelines.contains_id(item.pipeline),
            view_bind_group,
            opt_prepared(prepared),
            quad.vertex_buffer_gpu,
            quad.index_buffer_gpu,
        ),
        r == item_result(
            pipelines.contains_id(item.pipeline),
            opt_prepared(prepared),
            quad.vertex_buffer_gpu,
            quad.index_buffer_gpu,
        ),
{
    let ghost pre = pass.commands@;
    let ghost cmds = item_commands(
        *item,
        pipelines.contains_id(item.pipeline),
        view_bind_group,
        opt_prepared(prepared),
        quad.vertex_buffer_gpu,
        quad.index_buffer_gpu,
    );
    if pipelines.get(item.pipeline).is_none() {
        proof {
            assert(pass.commands@ =~= pre + cmds);
        }
        return RenderCommandResult::Skip;
    }
    pass.commands.push(GpuCommand::BindPipeline { pipeline: item.pipeline });
    pass.commands.push(GpuCommand::BindViewBindings { index: 0, bind_group: view_bind_group });
    let bound = SetBindGroup::<1>::render(prepared, pass);
    match bound {
        RenderCommandResult::Success => {},
        _ => {
            proof {
                assert(pass.commands@ =~= pre + cmds);
            }
            return bound;
        },
    }
    let drawn = DrawSprite::render(item, prepared, quad, pass);
    proof {
        assert(pass.commands@ =~= pre + cmds);
    }
    drawn
}

/// Without prepared data an item's step sequence records no draw call: at
/// most the pipeline and view binds run, and the item reports a skip.
pub proof fn lemma_unprepared_item_draws_nothing(
    item: DrawItem,
    pipeline_known: bool,
    view_bind_group: u64,
    vertex_gpu: Option<BufferId>,
    index_gpu: Option<BufferId>,
)
    ensures
        forall|c: int|
            0 <= c < item_commands(item, pipeline_known, view_bind_group, None, vertex_gpu, index_gpu).len()
                ==> !(item_commands(
                item,
                pipeline_known,
                view_bind_group,
                None,
                vertex_gpu,
                index_gpu,
            )[c] is DrawIndexed),
        item_result(pipeline_known, None, vertex_gpu, index_gpu) == RenderCommandResult::Skip,
{
}

} // verus!
