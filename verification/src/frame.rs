use vstd::prelude::*;

use crate::draw::{item_commands, lemma_unprepared_item_draws_nothing, opt_prepared, render_item, GpuCommand, RenderPassLog};
use crate::extract::{
    distinct_entities, distinct_extracted, entry_of, extract, extracted_of_seq,
    lemma_invisible_not_extracted, lemma_visible_extracted, ExtractedEntry, ExtractedSprites,
    SpriteEntity,
};
use crate::ids::{BufferId, DrawFunctionId, EntityRef, LayoutId, PipelineId, TextureId};
use crate::mesh::FixedQuadMesh;
use crate::pipeline::{cache_evolved, CustomPipeline, CustomPipelineKey, SpecializedPipelines};
use crate::prepare::{
    lemma_nonresident_not_prepared, prepare, prepared_lookup, prepared_matches, PreparedEntry,
    PreparedStore,
};
use crate::queue::{
    distinct_views, draw_item_of, lemma_culled_not_queued, lemma_phase_slot,
    lemma_queued_membership, lemma_sort_items_membership, missing_view_diags, queue,
    queued_items_for_view, sort_items_spec, DrawItem, FrameDiagnostic, RenderPhases, ViewInfo,
};

verus! {

/// The commands one view's sorted draw list records, item by item in list
/// order.
pub open spec fn phase_commands(
    items: Seq<DrawItem>,
    cache: SpecializedPipelines,
    view_bind_group: u64,
    prepared: Seq<PreparedEntry>,
    vertex_gpu: Option<BufferId>,
    index_gpu: Option<BufferId>,
) -> Seq<GpuCommand>
    decreases items.len(),
{
    if items.len() == 0 {
        Seq::<GpuCommand>::empty()
    } else {
        phase_commands(items.drop_last(), cache, view_bind_group, prepared, vertex_gpu, index_gpu)
            + item_commands(
            items.last(),
            cache.contains_id(items.last().pipeline),
            view_bind_group,
            prepared_lookup(prepared, items.last().entity),
            vertex_gpu,
            index_gpu,
        )
    }
}

/// The commands a whole frame records: each view with a draw list, in view
/// order, encodes its items in order.
pub open spec fn frame_commands(
    views: Seq<ViewInfo>,
    phases: RenderPhases,
    cache: SpecializedPipelines,
    prepared: Seq<PreparedEntry>,
    vertex_gpu: Option<BufferId>,
    index_gpu: Option<BufferId>,
) -> Seq<GpuCommand>
    decreases views.len(),
{
    if views.len() == 0 {
        Seq::<GpuCommand>::empty()
    } else {
        let rest = frame_commands(
            views.drop_last(),
            phases,
            cache,
            prepared,
            vertex_gpu,
            index_gpu,
        );
        if phases.has_phase(views.last().entity) {
            rest + phase_commands(
                phases.phase_items(views.last().entity),
                cache,
                views.last().view_bind_group,
                prepared,
                vertex_gpu,
                index_gpu,
            )
        } else {
            rest
        }
    }
}

/// Encode one view's draw list: run each item's step sequence in list
/// order, looking its prepared state up by entity. Items whose steps skip
/// or fail leave their binds at most; the loop never aborts the frame.
pub fn encode_phase(
    items: &Vec<DrawItem>,
    pipelines: &SpecializedPipelines,
    view_bind_group: u64,
    prepared: &PreparedStore,
    quad: &FixedQuadMesh,
    pass: &mut RenderPassLog,
)
    ensures
        final(pass).commands@ == old(pass).commands@ + phase_commands(
            items@,
            *pipelines,
            view_bind_group,
            prepared.entries@,
            quad.vertex_buffer_gpu,
            quad.index_buffer_gpu,
        ),
{
    proof {
        assert(items@.take(0) =~= Seq::<DrawItem>::empty());
    }
    let mut i: usize = 0;
    while i < items.len()
        invariant
            i <= items@.len(),
            pass.commands@ == old(pass).commands@ + phase_commands(
                items@.take(i as int),
                *pipelines,
                view_bind_group,
                prepared.entries@,
                quad.vertex_buffer_gpu,
                quad.index_buffer_gpu,
            ),
        decreases items@.len() - i,
    {
        let item = &items[i];
        let p = prepared.get(item.entity);
        render_item(item, pipelines, view_bind_group, p, quad, pass);
        proof {
            assert(items@.take(i + 1).drop_last() =~= items@.take(i as int));
            assert(items@.take(i + 1).last() == items@[i as int]);
            assert(opt_prepared(p) == prepared_lookup(prepared.entries@, items@[i as int].entity));
            assert(pass.commands@ =~= old(pass).commands@ + phase_commands(
                items@.take(i + 1),
                *pipelines,
                view_bind_group,
                prepared.entries@,
                quad.vertex_buffer_gpu,
                quad.index_buffer_gpu,
            ));
        }
        i += 1;
    }
    proof {
        assert(items@.take(items@.len() as int) =~= items@);
    }
}

/// Encode the frame: each view with a draw list, in view order. A view
/// without one records nothing here; queueing already reported it.
pub fn encode_frame(
    views: &Vec<ViewInfo>,
    phases: &RenderPhases,
    pipelines: &SpecializedPipelines,
    prepared: &PreparedStore,
    quad: &FixedQuadMesh,
    pass: &mut RenderPassLog,
)
    requires
        phases.wf(),
    ensures
        final(pass).commands@ == old(pass).commands@ + frame_commands(
            views@,
            *phases,
            *pipelines,
            prepared.entries@,
            quad.vertex_buffer_gpu,
            quad.index_buffer_gpu,
        ),
{
    proof {
        assert(views@.take(0) =~= Seq::<ViewInfo>::empty());
    }
    let mut vi: usize = 0;
    while vi < views.len()
        invariant
            vi <= views@.len(),
            phases.wf(),
            pass.commands@ == old(pass).commands@ + frame_commands(
                views@.take(vi as int),
                *phases,
                *pipelines,
                prepared.entries@,
                quad.vertex_buffer_gpu,
                quad.index_buffer_gpu,
            ),
        decreases views@.len() - vi,
    {
        let v = &views[vi];
        match phases.find_phase(v.entity) {
            None => {
                proof {
                    assert(views@.take(vi + 1).drop_last() =~= views@.take(vi as int));
                    assert(views@.take(vi + 1).last() == views@[vi as int]);
                }
            },
            Some(pi) => {
                let items = &phases.entries[pi].phase.items;
                encode_phase(items, pipelines, v.view_bind_group, prepared, quad, pass);
                proof {
                    lemma_phase_slot(*phases, v.entity, pi as int);
                    assert(items@ == phases.phase_items(v.entity));
                    assert(views@.take(vi + 1).drop_last() =~= views@.take(vi as int));
                    assert(views@.take(vi + 1).last() == views@[vi as int]);
                    assert(pass.commands@ =~= old(pass).commands@ + frame_commands(
                        views@.take(vi + 1),
                        *phases,
                        *pipelines,
                        prepared.entries@,
                        quad.vertex_buffer_gpu,
                        quad.index_buffer_gpu,
                    ));
                }
            },
        }
        vi += 1;
    }
    proof {
        assert(views@.take(views@.len() as int) =~= views@);
    }
}

/// One whole frame, the stages in their fixed order: extraction replaces
/// the snapshot store, queueing fills and sorts each view's draw list,
/// preparation stages GPU-ready state for every resident texture, and
/// encoding records each view's draw commands. Returns the frame's
/// prepared store and the queue diagnostics; every earlier frame's state
/// in the store and the draw lists is discarded first.
pub fn run_frame(
    sprites: &Vec<SpriteEntity>,
    views: &Vec<ViewInfo>,
    resident: &Vec<TextureId>,
    pipeline: &CustomPipeline,
    draw_function: DrawFunctionId,
    pipelines: &mut SpecializedPipelines,
    phases: &mut RenderPhases,
    store: &mut ExtractedSprites,
    quad: &FixedQuadMesh,
    pass: &mut RenderPassLog,
) -> (r: (PreparedStore, Vec<FrameDiagnostic>))
    requires
        old(pipelines).wf(),
        old(pipelines).keys@.len() + 1 < 0x1000_0000,
        old(phases).wf(),
        distinct_views(views@),
    ensures
        final(store).entries@ == extracted_of_seq(sprites@),
        final(phases).wf(),
        final(pipelines).wf(),
        cache_evolved(*old(pipelines), *final(pipelines), *pipeline, CustomPipelineKey),
        final(phases).entries@.len() == old(phases).entries@.len(),
        forall|j: int|
            0 <= j < old(phases).entries@.len() ==> final(phases).entries@[j].view == old(phases).entries@[j].view,
        forall|u: int|
            0 <= u < views@.len() && old(phases).has_phase(views@[u].entity)
                ==> final(phases).phase_items(views@[u].entity) == sort_items_spec(
                queued_items_for_view(
                    extracted_of_seq(sprites@),
                    views@[u].visible@,
                    old(pipelines).resolved_id(CustomPipelineKey),
                    draw_function,
                ),
            ),
        prepared_matches(
            extracted_of_seq(sprites@),
            resident@,
            pipeline.uniform_layout,
            r.0.entries@,
        ),
        r.1@ == missing_view_diags(views@, *old(phases)),
        final(pass).commands@ == old(pass).commands@ + frame_commands(
            views@,
            *final(phases),
            *final(pipelines),
            r.0.entries@,
            quad.vertex_buffer_gpu,
            quad.index_buffer_gpu,
        ),
{
    extract(sprites, store);
    let diags = queue(pipelines, pipeline, draw_function, views, phases, store);
    let prepared = prepare(store, resident, pipeline);
    encode_frame(views, phases, pipelines, &prepared, quad, pass);
    (prepared, diags)
}

/// No stale carry-over: an entity flagged invisible in a frame's snapshot
/// input is absent from every view's sorted draw list of that frame,
/// whatever any earlier frame held, because extraction wholly replaces the
/// store before queueing reads it.
pub proof fn lemma_no_stale_draw_items(
    sprites: Seq<SpriteEntity>,
    j: int,
    visible: Seq<EntityRef>,
    pid: PipelineId,
    df: DrawFunctionId,
    k: int,
)
    requires
        distinct_entities(sprites),
        0 <= j < sprites.len(),
        !sprites[j].visible,
        0 <= k < sort_items_spec(
            queued_items_for_view(extracted_of_seq(sprites), visible, pid, df),
        ).len(),
    ensures
        sort_items_spec(queued_items_for_view(extracted_of_seq(sprites), visible, pid, df))[k].entity
            != sprites[j].entity,
{
    let ex = extracted_of_seq(sprites);
    let q = queued_items_for_view(ex, visible, pid, df);
    let sq = sort_items_spec(q);
    assert(sq.contains(sq[k]));
    lemma_sort_items_membership(q, sq[k]);
    let i = choose|i: int| 0 <= i < q.len() && q[i] == sq[k];
    lemma_queued_membership(ex, visible, pid, df, i);
    let m = choose|m: int|
        0 <= m < ex.len() && visible.contains(ex[m].entity) && q[i] == draw_item_of(ex[m], pid, df);
    lemma_invisible_not_extracted(sprites, j, m);
}

/// Per-view culling is per-view only: a visible sprite outside one view's
/// visible-entity set contributes no draw item to that view's sorted list,
/// while its snapshot entry stands, available to any other view.
pub proof fn lemma_view_culled_but_extracted(
    sprites: Seq<SpriteEntity>,
    i: int,
    visible: Seq<EntityRef>,
    pid: PipelineId,
    df: DrawFunctionId,
)
    requires
        0 <= i < sprites.len(),
        sprites[i].visible,
        !visible.contains(sprites[i].entity),
    ensures
        extracted_of_seq(sprites).contains(entry_of(sprites[i])),
        forall|k: int|
            0 <= k < sort_items_spec(
                queued_items_for_view(extracted_of_seq(sprites), visible, pid, df),
            ).len() ==> sort_items_spec(
                queued_items_for_view(extracted_of_seq(sprites), visible, pid, df),
            )[k].entity != sprites[i].entity,
{
    lemma_visible_extracted(sprites, i);
    let ex = extracted_of_seq(sprites);
    assert forall|k: int|
        0 <= k < sort_items_spec(queued_items_for_view(ex, visible, pid, df)).len() implies sort_items_spec(
        queued_items_for_view(ex, visible, pid, df),
    )[k].entity != sprites[i].entity by {
        lemma_culled_not_queued(ex, visible, pid, df, sprites[i].entity, k);
    }
}

/// A sprite whose texture was not resident at prepare time produces no
/// draw call this frame: its prepared lookup misses, so its item's step
/// sequence records no indexed draw, and the item merely skips.
pub proof fn lemma_nonresident_no_draw_call(
    ex: Seq<ExtractedEntry>,
    resident: Seq<TextureId>,
    layout: LayoutId,
    out: Seq<PreparedEntry>,
    j: int,
    item: DrawItem,
    pipeline_known: bool,
    view_bind_group: u64,
    vertex_gpu: Option<BufferId>,
    index_gpu: Option<BufferId>,
)
    requires
        prepared_matches(ex, resident, layout, out),
        distinct_extracted(ex),
        0 <= j < ex.len(),
        !resident.contains(ex[j].sprite.texture),
        item.entity == ex[j].entity,
    ensures
        prepared_lookup(out, item.entity) is None,
        forall|c: int|
            0 <= c < item_commands(
                item,
                pipeline_known,
                view_bind_group,
                prepared_lookup(out, item.entity),
                vertex_gpu,
                index_gpu,
            ).len() ==> !(item_commands(
                item,
                pipeline_known,
                view_bind_group,
                prepared_lookup(out, item.entity),
                vertex_gpu,
                index_gpu,
            )[c] is DrawIndexed),
{
    lemma_nonresident_not_prepared(ex, resident, layout, out, j);
    lemma_unprepared_item_draws_nothing(item, pipeline_known, view_bind_group, vertex_gpu, index_gpu);
}

} // verus!
