use vstd::prelude::*;

use crate::extract::{ExtractedEntry, ExtractedSprites};
use crate::ids::{DrawFunctionId, EntityRef, PipelineId};
use crate::pipeline::{
    cache_evolved, lemma_cache_evolved_resolved, lemma_cache_evolved_step, CustomPipeline,
    CustomPipelineKey, SpecializedPipelines,
};
use crate::scalar::Scalar;

verus! {

/// One queued draw for one view: the sort key (the sprite's depth), the
/// entity it draws, the pipeline and draw function to run it with, and the
/// instance range.
#[derive(Clone, Copy, PartialEq, Eq, Structural, Debug)]
pub struct DrawItem {
    pub sort_key: Scalar,
    pub entity: EntityRef,
    pub pipeline: PipelineId,
    pub draw_function: DrawFunctionId,
    pub batch_start: u32,
    pub batch_end: u32,
}

/// One view's draw list for the frame, rebuilt from scratch every frame and
/// kept in ascending depth order.
#[derive(Clone, Debug)]
pub struct RenderPhase {
    pub items: Vec<DrawItem>,
}

/// A view's draw list, keyed by the view entity that owns it.
#[derive(Clone, Debug)]
pub struct PhaseEntry {
    pub view: u64,
    pub phase: RenderPhase,
}

/// The draw lists of all views that have one this frame.
#[derive(Clone, Debug)]
pub struct RenderPhases {
    pub entries: Vec<PhaseEntry>,
}

/// One camera view at queue time: its entity, the entities its per-view
/// visibility test admitted, and the bind group carrying its view uniforms.
#[derive(Clone, Debug)]
pub struct ViewInfo {
    pub entity: u64,
    pub visible: Vec<EntityRef>,
    pub view_bind_group: u64,
}

/// A non-fatal, frame-local condition, reported and recovered from by
/// omission.
#[derive(Clone, Copy, PartialEq, Eq, Structural, Debug)]
pub enum FrameDiagnostic {
    /// A view had no draw-item container this frame; that view was skipped,
    /// no other view is affected.
    MissingViewPhase { view: u64 },
}

/// The depth key a draw item sorts by.
pub open spec fn item_key(a: DrawItem) -> int {
    a.sort_key.sort_key_spec()
}

/// Draw order: ascending depth, back to front.
pub open spec fn depth_le(a: DrawItem, b: DrawItem) -> bool {
    item_key(a) <= item_key(b)
}

/// A draw list in ascending depth order.
pub open spec fn sorted_by_depth(s: Seq<DrawItem>) -> bool {
    forall|i: int, j: int| 0 <= i < j < s.len() ==> depth_le(s[i], s[j])
}

/// Where a stable ascending insertion places a new item: after every item
/// already present whose depth is less than or equal to its own.
pub open spec fn insert_position(x: DrawItem, s: Seq<DrawItem>) -> int
    decreases s.len(),
{
    if s.len() == 0 {
        0
    } else if depth_le(s.first(), x) {
        1 + insert_position(x, s.drop_first())
    } else {
        0
    }
}

/// One step of the stable sort: insert an item at its position.
pub open spec fn insert_sorted(x: DrawItem, s: Seq<DrawItem>) -> Seq<DrawItem> {
    s.insert(insert_position(x, s), x)
}

/// The stable ascending sort of a draw list: items are inserted in their
/// original order, each after all earlier items of equal depth, so equal
/// depths keep their original order.
pub open spec fn sort_items_spec(s: Seq<DrawItem>) -> Seq<DrawItem>
    decreases s.len(),
{
    if s.len() == 0 {
        Seq::<DrawItem>::empty()
    } else {
        insert_sorted(s.last(), sort_items_spec(s.drop_last()))
    }
}

/// The subsequence of items with one given depth key, in list order.
pub open spec fn items_with_key(s: Seq<DrawItem>, k: int) -> Seq<DrawItem>
    decreases s.len(),
{
    if s.len() == 0 {
        Seq::<DrawItem>::empty()
    } else if item_key(s.first()) == k {
        seq![s.first()] + items_with_key(s.drop_first(), k)
    } else {
        items_with_key(s.drop_first(), k)
    }
}

/// The insert position is the boundary between items that sort no later
/// than the new one and the rest.
pub proof fn lemma_insert_position_bounds(x: DrawItem, s: Seq<DrawItem>)
    ensures
        0 <= insert_position(x, s) <= s.len(),
        forall|i: int| 0 <= i < insert_position(x, s) ==> depth_le(s[i], x),
        insert_position(x, s) < s.len() ==> !depth_le(s[insert_position(x, s)], x),
    decreases s.len(),
{
    if s.len() == 0 {
    } else if depth_le(s.first(), x) {
        lemma_insert_position_bounds(x, s.drop_first());
        let pos = insert_position(x, s);
        assert forall|i: int| 0 <= i < pos implies depth_le(s[i], x) by {
            if i > 0 {
                assert(s.drop_first()[i - 1] == s[i]);
                assert(depth_le(s.drop_first()[i - 1], x));
            }
        }
        if pos < s.len() {
            assert(s.drop_first()[pos - 1] == s[pos]);
        }
    } else {
    }
}

/// Inserting keeps a sorted list sorted.
pub proof fn lemma_insert_sorted_sorted(x: DrawItem, s: Seq<DrawItem>)
    requires
        sorted_by_depth(s),
    ensures
        sorted_by_depth(insert_sorted(x, s)),
{
    let pos = insert_position(x, s);
    let r = insert_sorted(x, s);
    lemma_insert_position_bounds(x, s);
    s.insert_ensures(pos, x);
    assert forall|i: int, j: int| 0 <= i < j < r.len() implies depth_le(r[i], r[j]) by {
        if i < pos && j < pos {
            assert(r[i] == s[i] && r[j] == s[j]);
        } else if i < pos && j == pos {
            assert(r[i] == s[i] && r[j] == x);
        } else if i < pos && j > pos {
            assert(r[i] == s[i] && r[j] == s[j - 1]);
        } else if i == pos && j > pos {
            assert(r[i] == x && r[j] == s[j - 1]);
            assert(depth_le(x, s[pos]));
            if pos < j - 1 {
                assert(depth_le(s[pos], s[j - 1]));
            }
        } else {
            assert(r[i] == s[i - 1] && r[j] == s[j - 1]);
        }
    }
}

/// A list none of whose items carries the key has an empty key class.
pub proof fn lemma_items_with_key_none(s: Seq<DrawItem>, k: int)
    requires
        forall|i: int| 0 <= i < s.len() ==> item_key(s[i]) != k,
    ensures
        items_with_key(s, k) == Seq::<DrawItem>::empty(),
    decreases s.len(),
{
    if s.len() == 0 {
    } else {
        assert(item_key(s.first()) != k);
        assert(forall|i: int|
            0 <= i < s.drop_first().len() ==> item_key(#[trigger] s.drop_first()[i]) != k);
        lemma_items_with_key_none(s.drop_first(), k);
    }
}

/// Appending an item extends exactly its own key class, at the end.
pub proof fn lemma_items_with_key_push(s: Seq<DrawItem>, x: DrawItem, k: int)
    ensures
        items_with_key(s.push(x), k) == (
        if item_key(x) == k {
            items_with_key(s, k).push(x)
        } else {
            items_with_key(s, k)
        }),
    decreases s.len(),
{
    let t = s.push(x);
    if s.len() == 0 {
        assert(t =~= seq![x]);
        assert(t.first() == x);
        assert(t.drop_first() =~= Seq::<DrawItem>::empty());
        assert(items_with_key(Seq::<DrawItem>::empty(), k) == Seq::<DrawItem>::empty());
        if item_key(x) == k {
            assert(items_with_key(t, k) == seq![t.first()] + items_with_key(t.drop_first(), k));
            assert(items_with_key(t, k) =~= seq![x]);
            assert(items_with_key(s, k).push(x) =~= seq![x]);
        }
    } else {
        assert(t.first() == s.first());
        assert(t.drop_first() =~= s.drop_first().push(x));
        lemma_items_with_key_push(s.drop_first(), x, k);
        if item_key(s.first()) == k {
            if item_key(x) == k {
                assert(seq![s.first()] + items_with_key(s.drop_first(), k).push(x) =~= (seq![
                    s.first(),
                ] + items_with_key(s.drop_first(), k)).push(x));
            }
        }
    }
}

/// An item of a key class belongs to the list and carries the key.
pub proof fn lemma_items_with_key_subset(s: Seq<DrawItem>, k: int, y: DrawItem)
    requires
        items_with_key(s, k).contains(y),
    ensures
        s.contains(y),
        item_key(y) == k,
    decreases s.len(),
{
    if s.len() == 0 {
    } else if item_key(s.first()) == k {
        let f = items_with_key(s, k);
        let i = choose|i: int| 0 <= i < f.len() && f[i] == y;
        if i == 0 {
            assert(s[0] == y);
        } else {
            assert(items_with_key(s.drop_first(), k)[i - 1] == y);
            lemma_items_with_key_subset(s.drop_first(), k, y);
            let j = choose|j: int|
                0 <= j < s.drop_first().len() && s.drop_first()[j] == y;
            assert(s[j + 1] == y);
        }
    } else {
        lemma_items_with_key_subset(s.drop_first(), k, y);
        let j = choose|j: int| 0 <= j < s.drop_first().len() && s.drop_first()[j] == y;
        assert(s[j + 1] == y);
    }
}

/// Every item of a list appears in its own key class.
pub proof fn lemma_items_with_key_contains(s: Seq<DrawItem>, y: DrawItem)
    requires
        s.contains(y),
    ensures
        items_with_key(s, item_key(y)).contains(y),
    decreases s.len(),
{
    let k = item_key(y);
    let i = choose|i: int| 0 <= i < s.len() && s[i] == y;
    if i == 0 {
        assert(items_with_key(s, k)[0] == y);
    } else {
        assert(s.drop_first()[i - 1] == y);
        lemma_items_with_key_contains(s.drop_first(), y);
        let f1 = items_with_key(s.drop_first(), k);
        let j = choose|j: int| 0 <= j < f1.len() && f1[j] == y;
        if item_key(s.first()) == k {
            assert(items_with_key(s, k)[j + 1] == y);
        } else {
            assert(items_with_key(s, k)[j] == y);
        }
    }
}

/// Inserting into a sorted list appends to the item's own key class and
/// leaves every other key class unchanged.
pub proof fn lemma_insert_sorted_filter(x: DrawItem, s: Seq<DrawItem>, k: int)
    requires
        sorted_by_depth(s),
    ensures
        items_with_key(insert_sorted(x, s), k) == (
        if k == item_key(x) {
            items_with_key(s, k).push(x)
        } else {
            items_with_key(s, k)
        }),
    decreases s.len(),
{
    let pos = insert_position(x, s);
    let r = insert_sorted(x, s);
    lemma_insert_position_bounds(x, s);
    s.insert_ensures(pos, x);
    if s.len() == 0 {
        assert(r =~= seq![x]);
        assert(r.first() == x);
        assert(r.drop_first() =~= Seq::<DrawItem>::empty());
        assert(items_with_key(Seq::<DrawItem>::empty(), k) == Seq::<DrawItem>::empty());
        if k == item_key(x) {
            assert(items_with_key(r, k) == seq![r.first()] + items_with_key(r.drop_first(), k));
            assert(items_with_key(r, k) =~= seq![x]);
            assert(items_with_key(s, k).push(x) =~= seq![x]);
        }
    } else if pos == 0 {
        assert(!depth_le(s.first(), x));
        assert(r =~= seq![x] + s);
        assert(r.first() == x);
        assert(r.drop_first() =~= s);
        if k == item_key(x) {
            assert forall|i: int| 0 <= i < s.len() implies item_key(s[i]) != k by {
                if i > 0 {
                    assert(depth_le(s[0], s[i]));
                }
            }
            lemma_items_with_key_none(s, k);
            assert(items_with_key(r, k) =~= items_with_key(s, k).push(x));
        } else {
            assert(items_with_key(r, k) == items_with_key(s, k));
        }
    } else {
        let s1 = s.drop_first();
        assert(depth_le(s.first(), x));
        assert(insert_position(x, s) == 1 + insert_position(x, s1));
        lemma_insert_position_bounds(x, s1);
        s1.insert_ensures(pos - 1, x);
        assert(r.first() == s.first());
        assert forall|i: int| 0 <= i < r.drop_first().len() implies r.drop_first()[i] == s1.insert(
            pos - 1,
            x,
        )[i] by {
            assert(r.drop_first()[i] == r[i + 1]);
            if i + 1 < pos {
                assert(r[i + 1] == s[i + 1]);
                assert(s1.insert(pos - 1, x)[i] == s1[i]);
                assert(s1[i] == s[i + 1]);
            } else if i + 1 == pos {
                assert(r[i + 1] == x);
                assert(s1.insert(pos - 1, x)[pos - 1] == x);
            } else {
                assert(r[i + 1] == s[i]);
                assert(s1.insert(pos - 1, x)[i] == s1[i - 1]);
                assert(s1[i - 1] == s[i]);
            }
        }
        assert(r.drop_first() =~= s1.insert(pos - 1, x));
        assert(r.drop_first() == insert_sorted(x, s1));
        assert(sorted_by_depth(s1)) by {
            assert forall|i: int, j: int| 0 <= i < j < s1.len() implies depth_le(s1[i], s1[j]) by {
                assert(s1[i] == s[i + 1] && s1[j] == s[j + 1]);
            }
        }
        lemma_insert_sorted_filter(x, s1, k);
        if item_key(s.first()) == k {
            assert(items_with_key(r, k) == seq![r.first()] + items_with_key(r.drop_first(), k));
            assert(items_with_key(s, k) == seq![s.first()] + items_with_key(s1, k));
            if k == item_key(x) {
                assert(seq![s.first()] + items_with_key(s1, k).push(x) =~= (seq![s.first()]
                    + items_with_key(s1, k)).push(x));
            }
        }
    }
}

/// The stable sort leaves the list in ascending depth order.
pub proof fn lemma_sort_items_sorted(s: Seq<DrawItem>)
    ensures
        sorted_by_depth(sort_items_spec(s)),
    decreases s.len(),
{
    if s.len() == 0 {
    } else {
        lemma_sort_items_sorted(s.drop_last());
        lemma_insert_sorted_sorted(s.last(), sort_items_spec(s.drop_last()));
    }
}

/// Stability: sorting preserves each key class exactly, so items of equal
/// depth keep their original relative order.
pub proof fn lemma_sort_items_stable(s: Seq<DrawItem>, k: int)
    ensures
        items_with_key(sort_items_spec(s), k) == items_with_key(s, k),
    decreases s.len(),
{
    if s.len() == 0 {
    } else {
        let s0 = s.drop_last();
        lemma_sort_items_stable(s0, k);
        lemma_sort_items_sorted(s0);
        lemma_insert_sorted_filter(s.last(), sort_items_spec(s0), k);
        lemma_items_with_key_push(s0, s.last(), k);
        assert(s0.push(s.last()) =~= s);
    }
}

/// Sorting neither adds nor loses items.
pub proof fn lemma_sort_items_membership(s: Seq<DrawItem>, y: DrawItem)
    ensures
        sort_items_spec(s).contains(y) <==> s.contains(y),
{
    let k = item_key(y);
    lemma_sort_items_stable(s, k);
    if sort_items_spec(s).contains(y) {
        lemma_items_with_key_contains(sort_items_spec(s), y);
        lemma_items_with_key_subset(s, k, y);
    }
    if s.contains(y) {
        lemma_items_with_key_contains(s, y);
        lemma_items_with_key_subset(sort_items_spec(s), k, y);
    }
}

/// The draw item one snapshot entry queues.
pub open spec fn draw_item_of(e: ExtractedEntry, pid: PipelineId, df: DrawFunctionId) -> DrawItem {
    DrawItem {
        sort_key: e.instance.z_order,
        entity: e.entity,
        pipeline: pid,
        draw_function: df,
        batch_start: 0,
        batch_end: 1,
    }
}

/// What queueing appends for one view before sorting: one draw item per
/// snapshot entry the view's visibility test admits, in snapshot order.
/// Queueing never invents an item beyond what extraction provided.
pub open spec fn queued_items_for_view(
    ex: Seq<ExtractedEntry>,
    visible: Seq<EntityRef>,
    pid: PipelineId,
    df: DrawFunctionId,
) -> Seq<DrawItem>
    decreases ex.len(),
{
    if ex.len() == 0 {
        Seq::<DrawItem>::empty()
    } else {
        let rest = queued_items_for_view(ex.drop_last(), visible, pid, df);
        if visible.contains(ex.last().entity) {
            rest.push(draw_item_of(ex.last(), pid, df))
        } else {
            rest
        }
    }
}

/// Every queued item comes from a snapshot entry the view admitted.
pub proof fn lemma_queued_membership(
    ex: Seq<ExtractedEntry>,
    visible: Seq<EntityRef>,
    pid: PipelineId,
    df: DrawFunctionId,
    k: int,
)
    requires
        0 <= k < queued_items_for_view(ex, visible, pid, df).len(),
    ensures
        exists|i: int|
            0 <= i < ex.len() && visible.contains(ex[i].entity) && queued_items_for_view(
                ex,
                visible,
                pid,
                df,
            )[k] == draw_item_of(ex[i], pid, df),
    decreases ex.len(),
{
    let rest = queued_items_for_view(ex.drop_last(), visible, pid, df);
    if k < rest.len() {
        lemma_queued_membership(ex.drop_last(), visible, pid, df, k);
        let i = choose|i: int|
            0 <= i < ex.drop_last().len() && visible.contains(ex.drop_last()[i].entity)
                && rest[k] == draw_item_of(ex.drop_last()[i], pid, df);
        assert(0 <= i < ex.len() && visible.contains(ex[i].entity) && queued_items_for_view(
            ex,
            visible,
            pid,
            df,
        )[k] == draw_item_of(ex[i], pid, df));
    } else {
        let i = ex.len() - 1;
        assert(0 <= i < ex.len() && visible.contains(ex[i].entity) && queued_items_for_view(
            ex,
            visible,
            pid,
            df,
        )[k] == draw_item_of(ex[i], pid, df));
    }
}

/// An entity a view's visibility test does not admit gets no draw item in
/// that view's sorted list, whatever the snapshot holds for other views.
pub proof fn lemma_culled_not_queued(
    ex: Seq<ExtractedEntry>,
    visible: Seq<EntityRef>,
    pid: PipelineId,
    df: DrawFunctionId,
    e: EntityRef,
    k: int,
)
    requires
        !visible.contains(e),
        0 <= k < sort_items_spec(queued_items_for_view(ex, visible, pid, df)).len(),
    ensures
        sort_items_spec(queued_items_for_view(ex, visible, pid, df))[k].entity != e,
{
    let q = queued_items_for_view(ex, visible, pid, df);
    let sq = sort_items_spec(q);
    assert(sq.contains(sq[k]));
    lemma_sort_items_membership(q, sq[k]);
    let i = choose|i: int| 0 <= i < q.len() && q[i] == sq[k];
    lemma_queued_membership(ex, visible, pid, df, i);
}

/// A queued snapshot entry appears in the view's unsorted list.
pub proof fn lemma_admitted_is_queued(
    ex: Seq<ExtractedEntry>,
    visible: Seq<EntityRef>,
    pid: PipelineId,
    df: DrawFunctionId,
    i: int,
)
    requires
        0 <= i < ex.len(),
        visible.contains(ex[i].entity),
    ensures
        queued_items_for_view(ex, visible, pid, df).contains(draw_item_of(ex[i], pid, df)),
    decreases ex.len(),
{
    let q = queued_items_for_view(ex, visible, pid, df);
    if i == ex.len() - 1 {
        let rest = queued_items_for_view(ex.drop_last(), visible, pid, df);
        assert(q[rest.len() as int] == draw_item_of(ex[i], pid, df));
    } else {
        lemma_admitted_is_queued(ex.drop_last(), visible, pid, df, i);
        let rest = queued_items_for_view(ex.drop_last(), visible, pid, df);
        let k = choose|k: int| 0 <= k < rest.len() && rest[k] == draw_item_of(ex.drop_last()[i], pid, df);
        assert(q[k] == draw_item_of(ex[i], pid, df));
    }
}

impl RenderPhases {
    /// At most one draw list per view.
    pub open spec fn wf(self) -> bool {
        forall|i: int, j: int|
            0 <= i < j < self.entries@.len() ==> self.entries@[i].view != self.entries@[j].view
    }

    pub open spec fn has_phase(self, view: u64) -> bool {
        exists|i: int| 0 <= i < self.entries@.len() && self.entries@[i].view == view
    }

    /// The slot a view's draw list occupies; meaningful only when the view
    /// has one (unique then, by well-formedness).
    pub open spec fn phase_slot(self, view: u64) -> int {
        choose|i: int| 0 <= i < self.entries@.len() && self.entries@[i].view == view
    }

    /// The view's draw list.
    pub open spec fn phase_items(self, view: u64) -> Seq<DrawItem> {
        self.entries@[self.phase_slot(view)].phase.items@
    }

    /// Find the slot of a view's draw list, if the view has one.
    pub fn find_phase(&self, view: u64) -> (r: Option<usize>)
        ensures
            match r {
                Some(i) => i < self.entries@.len() && self.entries@[i as int].view == view
                    && self.has_phase(view),
                None => !self.has_phase(view),
            },
    {
        let mut i: usize = 0;
        while i < self.entries.len()
            invariant
                i <= self.entries@.len(),
                forall|j: int| 0 <= j < i ==> self.entries@[j].view != view,
            decreases self.entries@.len() - i,
        {
            if self.entries[i].view == view {
                return Some(i);
            }
            i += 1;
        }
        proof {
            if self.has_phase(view) {
                let j = choose|j: int|
                    0 <= j < self.entries@.len() && self.entries@[j].view == view;
                assert(false);
            }
        }
        None
    }

    /// Replace one view's draw list, leaving every other slot untouched.
    pub fn set_phase_items(&mut self, i: usize, items: Vec<DrawItem>)
        requires
            i < old(self).entries@.len(),
        ensures
            final(self).entries@.len() == old(self).entries@.len(),
            forall|j: int|
                0 <= j < old(self).entries@.len() && j != i ==> final(self).entries@[j] == old(self).entries@[j],
            final(self).entries@[i as int].view == old(self).entries@[i as int].view,
            final(self).entries@[i as int].phase.items@ == items@,
    {
        let view = self.entries[i].view;
        self.entries.set(i, PhaseEntry { view, phase: RenderPhase { items } });
    }
}

/// A view found at a slot of a well-formed phase table has its draw list
/// there.
pub proof fn lemma_phase_slot(p: RenderPhases, view: u64, i: int)
    requires
        p.wf(),
        0 <= i < p.entries@.len(),
        p.entries@[i].view == view,
    ensures
        p.has_phase(view),
        p.phase_slot(view) == i,
{
    assert(p.has_phase(view));
    let s = p.phase_slot(view);
    assert(0 <= s < p.entries@.len() && p.entries@[s].view == view);
    if s != i {
        if s < i {
            assert(p.entries@[s].view != p.entries@[i].view);
        } else {
            assert(p.entries@[i].view != p.entries@[s].view);
        }
        assert(false);
    }
}

/// Two phase tables with the same views have draw lists for the same views.
pub proof fn lemma_has_phase_same(a: RenderPhases, b: RenderPhases, view: u64)
    requires
        a.entries@.len() == b.entries@.len(),
        forall|j: int| 0 <= j < a.entries@.len() ==> a.entries@[j].view == b.entries@[j].view,
    ensures
        a.has_phase(view) == b.has_phase(view),
{
    if a.has_phase(view) {
        let i = choose|i: int| 0 <= i < a.entries@.len() && a.entries@[i].view == view;
        assert(b.entries@[i].view == view);
    }
    if b.has_phase(view) {
        let i = choose|i: int| 0 <= i < b.entries@.len() && b.entries@[i].view == view;
        assert(a.entries@[i].view == view);
    }
}

/// View entities are unique: each camera queues into its own draw list.
pub open spec fn distinct_views(s: Seq<ViewInfo>) -> bool {
    forall|i: int, j: int| 0 <= i < j < s.len() ==> s[i].entity != s[j].entity
}

/// The diagnostics queueing reports: one per view that had no draw-item
/// container, in view order.
pub open spec fn missing_view_diags(views: Seq<ViewInfo>, phases: RenderPhases) -> Seq<
    FrameDiagnostic,
>
    decreases views.len(),
{
    if views.len() == 0 {
        Seq::<FrameDiagnostic>::empty()
    } else {
        let rest = missing_view_diags(views.drop_last(), phases);
        if phases.has_phase(views.last().entity) {
            rest
        } else {
            rest.push(FrameDiagnostic::MissingViewPhase { view: views.last().entity })
        }
    }
}

/// Membership test against a view's admitted entities.
pub fn contains_entity(v: &Vec<EntityRef>, e: EntityRef) -> (b: bool)
    ensures
        b == v@.contains(e),
{
    let mut i: usize = 0;
    while i < v.len()
        invariant
            i <= v@.len(),
            forall|j: int| 0 <= j < i ==> v@[j] != e,
        decreases v@.len() - i,
    {
        if v[i] == e {
            return true;
        }
        i += 1;
    }
    proof {
        if v@.contains(e) {
            let j = choose|j: int| 0 <= j < v@.len() && v@[j] == e;
            assert(false);
        }
    }
    false
}

/// Insert one item into a draw list kept in ascending depth order, after
/// every item of less or equal depth already present.
fn insert_item(r: &mut Vec<DrawItem>, x: DrawItem)
    ensures
        final(r)@ == insert_sorted(x, old(r)@),
{
    let key_x = x.sort_key.sort_key();
    let n = r.len();
    let mut p: usize = 0;
    while p < n
        invariant
            *r == *old(r),
            n == r@.len(),
            p <= n,
            forall|i: int| 0 <= i < p ==> depth_le(r@[i], x),
            key_x as int == x.sort_key.sort_key_spec(),
        ensures
            *r == *old(r),
            p <= r@.len(),
            forall|i: int| 0 <= i < p ==> depth_le(r@[i], x),
            p < r@.len() ==> !depth_le(r@[p as int], x),
        decreases n - p,
    {
        if r[p].sort_key.sort_key() > key_x {
            break;
        }
        p += 1;
    }
    proof {
        lemma_insert_position_bounds(x, r@);
        let pos = insert_position(x, r@);
        if p < pos {
            assert(depth_le(r@[p as int], x));
            assert(false);
        }
        if pos < p {
            assert(depth_le(r@[pos], x));
            assert(false);
        }
    }
    r.insert(p, x);
}

/// Stable ascending sort of a draw list by depth key.
pub fn sorted_items(items: Vec<DrawItem>) -> (r: Vec<DrawItem>)
    ensures
        r@ == sort_items_spec(items@),
{
    let mut r: Vec<DrawItem> = Vec::new();
    let mut i: usize = 0;
    while i < items.len()
        invariant
            i <= items@.len(),
            r@ == sort_items_spec(items@.take(i as int)),
        decreases items@.len() - i,
    {
        insert_item(&mut r, items[i]);
        proof {
            assert(items@.take(i + 1).drop_last() =~= items@.take(i as int));
            assert(items@.take(i + 1).last() == items@[i as int]);
        }
        i += 1;
    }
    proof {
        assert(items@.take(items@.len() as int) =~= items@);
    }
    r
}

/// Queueing: for each view that has a draw-item container, resolve the
/// pipeline handle through the cache (building the pipeline on first use),
/// append one draw item per snapshot entry the view's visibility test
/// admits, and leave that view's list sorted by ascending depth, stably.
/// A view without a container is skipped with a diagnostic; no other view is
/// affected, and views absent from this frame's view set keep their lists.
pub fn queue(
    pipelines: &mut SpecializedPipelines,
    pipeline: &CustomPipeline,
    draw_function: DrawFunctionId,
    views: &Vec<ViewInfo>,
    phases: &mut RenderPhases,
    extracted: &ExtractedSprites,
) -> (diags: Vec<FrameDiagnostic>)
    requires
        old(pipelines).wf(),
        old(pipelines).keys@.len() + 1 < 0x1000_0000,
        old(phases).wf(),
        distinct_views(views@),
    ensures
        final(phases).wf(),
        final(pipelines).wf(),
        cache_evolved(*old(pipelines), *final(pipelines), *pipeline, CustomPipelineKey),
        final(phases).entries@.len() == old(phases).entries@.len(),
        forall|j: int|
            0 <= j < old(phases).entries@.len() ==> final(phases).entries@[j].view == old(phases).entries@[j].view,
        forall|j: int|
            0 <= j < old(phases).entries@.len() && !(exists|u: int|
                0 <= u < views@.len() && views@[u].entity == old(phases).entries@[j].view)
                ==> final(phases).entries@[j] == old(phases).entries@[j],
        forall|u: int|
            0 <= u < views@.len() && old(phases).has_phase(views@[u].entity) ==> final(phases).phase_items(views@[u].entity) == sort_items_spec(
                queued_items_for_view(
                    extracted.entries@,
                    views@[u].visible@,
                    old(pipelines).resolved_id(CustomPipelineKey),
                    draw_function,
                ),
            ),
        diags@ == missing_view_diags(views@, *old(phases)),
{
    let ghost pid_spec = old(pipelines).resolved_id(CustomPipelineKey);
    let mut diags: Vec<FrameDiagnostic> = Vec::new();
    let mut vi: usize = 0;
    while vi < views.len()
        invariant
            old(pipelines).wf(),
            old(pipelines).keys@.len() + 1 < 0x1000_0000,
            old(phases).wf(),
            distinct_views(views@),
            pid_spec == old(pipelines).resolved_id(CustomPipelineKey),
            vi <= views@.len(),
            phases.wf(),
            pipelines.wf(),
            cache_evolved(*old(pipelines), *pipelines, *pipeline, CustomPipelineKey),
            pipelines.keys@.len() <= old(pipelines).keys@.len() + 1,
            phases.entries@.len() == old(phases).entries@.len(),
            forall|j: int|
                0 <= j < old(phases).entries@.len() ==> phases.entries@[j].view == old(phases).entries@[j].view,
            forall|j: int|
                0 <= j < old(phases).entries@.len() && !(exists|u: int|
                    0 <= u < vi && views@[u].entity == old(phases).entries@[j].view)
                    ==> phases.entries@[j] == old(phases).entries@[j],
            forall|u: int|
                0 <= u < vi && old(phases).has_phase(views@[u].entity) ==> phases.phase_items(
                    views@[u].entity,
                ) == sort_items_spec(
                    queued_items_for_view(
                        extracted.entries@,
                        views@[u].visible@,
                        pid_spec,
                        draw_function,
                    ),
                ),
            diags@ == missing_view_diags(views@.take(vi as int), *old(phases)),
        decreases views@.len() - vi,
    {
        let v = &views[vi];
        proof {
            lemma_has_phase_same(*phases, *old(phases), v.entity);
        }
        match phases.find_phase(v.entity) {
            None => {
                diags.push(FrameDiagnostic::MissingViewPhase { view: v.entity });
                proof {
                    assert(views@.take(vi + 1).drop_last() =~= views@.take(vi as int));
                    assert(views@.take(vi + 1).last() == views@[vi as int]);
                }
            },
            Some(pi) => {
                proof {
                    lemma_cache_evolved_resolved(
                        *old(pipelines),
                        *pipelines,
                        *pipeline,
                        CustomPipelineKey,
                    );
                }
                let ghost cache_pre = *pipelines;
                let id = pipelines.specialize(pipeline, CustomPipelineKey);
                proof {
                    lemma_cache_evolved_step(
                        *old(pipelines),
                        cache_pre,
                        *pipelines,
                        *pipeline,
                        CustomPipelineKey,
                    );
                    assert(id == pid_spec);
                }
                let mut items: Vec<DrawItem> = Vec::new();
                let mut si: usize = 0;
                while si < extracted.entries.len()
                    invariant
                        si <= extracted.entries@.len(),
                        id == pid_spec,
                        items@ == queued_items_for_view(
                            extracted.entries@.take(si as int),
                            v.visible@,
                            pid_spec,
                            draw_function,
                        ),
                    decreases extracted.entries@.len() - si,
                {
                    let e = &extracted.entries[si];
                    if contains_entity(&v.visible, e.entity) {
                        items.push(
                            DrawItem {
                                sort_key: e.instance.z_order,
                                entity: e.entity,
                                pipeline: id,
                                draw_function,
                                batch_start: 0,
                                batch_end: 1,
                            },
                        );
                    }
                    proof {
                        assert(extracted.entries@.take(si + 1).drop_last() =~= extracted.entries@
                            .take(si as int));
                        assert(extracted.entries@.take(si + 1).last() == extracted.entries@[si as int]);
                    }
                    si += 1;
                }
                proof {
                    assert(extracted.entries@.take(extracted.entries@.len() as int)
                        =~= extracted.entries@);
                }
                let sorted = sorted_items(items);
                let ghost ph_pre = *phases;
                phases.set_phase_items(pi, sorted);
                proof {
                    lemma_phase_slot(*phases, v.entity, pi as int);
                    assert(phases.phase_items(v.entity) == sort_items_spec(
                        queued_items_for_view(
                            extracted.entries@,
                            v.visible@,
                            pid_spec,
                            draw_function,
                        ),
                    ));
                    assert forall|u: int|
                        0 <= u < vi && old(phases).has_phase(views@[u].entity) implies phases
                        .phase_items(views@[u].entity) == sort_items_spec(
                        queued_items_for_view(
                            extracted.entries@,
                            views@[u].visible@,
                            pid_spec,
                            draw_function,
                        ),
                    ) by {
                        let vu = views@[u].entity;
                        assert(vu != v.entity);
                        lemma_has_phase_same(ph_pre, *old(phases), vu);
                        let j = choose|j: int|
                            0 <= j < ph_pre.entries@.len() && ph_pre.entries@[j].view == vu;
                        lemma_phase_slot(ph_pre, vu, j);
                        assert(ph_pre.entries@[pi as int].view == v.entity);
                        assert(j != pi);
                        assert(phases.entries@[j] == ph_pre.entries@[j]);
                        lemma_phase_slot(*phases, vu, j);
                    }
                    assert(views@.take(vi + 1).drop_last() =~= views@.take(vi as int));
                    assert(views@.take(vi + 1).last() == views@[vi as int]);
                    assert(old(phases).has_phase(views@[vi as int].entity));
                }
            },
        }
        vi += 1;
    }
    proof {
        assert(views@.take(views@.len() as int) =~= views@);
    }
    diags
}

} // verus!
