use vstd::prelude::*;

use crate::extract::{distinct_extracted, ExtractedEntry, ExtractedSprites};
use crate::ids::{EntityRef, LayoutId, TextureId};
use crate::pipeline::CustomPipeline;
use crate::transform::SpriteTransformMatrix;

verus! {

/// The resource-binding set prepared for one sprite: the pipeline's
/// per-sprite layout bound to the sprite's texture, together with the
/// sampler the host's asset system pairs with that texture.
#[derive(Clone, Copy, PartialEq, Eq, Structural, Debug)]
pub struct BindGroupRecord {
    pub layout: LayoutId,
    pub texture: TextureId,
}

/// A per-instance buffer staged for upload: the instance matrix, used
/// verbatim, and its raw bytes as the GPU buffer takes them.
#[derive(Clone, Debug)]
pub struct InstanceBuffer {
    pub contents: SpriteTransformMatrix,
    pub bytes: Vec<u8>,
}

/// The GPU-ready state of one sprite for one frame: the resource-binding
/// set, the 48-byte instance buffer, and the instance count (always one
/// here; the shape supports batching). Built in the prepare stage, consumed
/// by the draw steps, discarded at frame end.
#[derive(Clone, Debug)]
pub struct PreparedSprites {
    pub uniform_buffer: BindGroupRecord,
    pub instance_buffer: InstanceBuffer,
    pub count: u32,
}

/// One prepared sprite, keyed by the entity its snapshot entry carries.
#[derive(Clone, Debug)]
pub struct PreparedEntry {
    pub entity: EntityRef,
    pub prepared: PreparedSprites,
}

/// All sprites prepared this frame.
#[derive(Clone, Debug)]
pub struct PreparedStore {
    pub entries: Vec<PreparedEntry>,
}

/// Relies on bytemuck::cast_slice: it hands back the bytes of the same
/// memory the words occupy, four bytes per word, in the machine's own byte
/// order. Only the length is stated; the byte order is the machine's, so
/// the staged matrix itself travels beside the bytes as the value of
/// record.
#[verifier::external_body]
fn words_to_bytes(words: &Vec<u32>) -> (r: Vec<u8>)
    ensures
        r@.len() == 4 * words@.len(),
{
    bytemuck::cast_slice::<u32, u8>(words.as_slice()).to_vec()
}

impl InstanceBuffer {
    /// Stage one instance matrix for upload: exactly its twelve words, 48
    /// bytes, nothing transformed or reapplied.
    pub fn new(m: &SpriteTransformMatrix) -> (r: InstanceBuffer)
        ensures
            r.contents == *m,
            r.bytes@.len() == 48,
    {
        let words = m.to_words();
        let bytes = words_to_bytes(&words);
        InstanceBuffer { contents: *m, bytes }
    }
}

/// The snapshot entries preparation keeps: those whose texture is resident,
/// in snapshot order.
pub open spec fn kept_of_seq(ex: Seq<ExtractedEntry>, resident: Seq<TextureId>) -> Seq<
    ExtractedEntry,
>
    decreases ex.len(),
{
    if ex.len() == 0 {
        Seq::<ExtractedEntry>::empty()
    } else {
        let rest = kept_of_seq(ex.drop_last(), resident);
        if resident.contains(ex.last().sprite.texture) {
            rest.push(ex.last())
        } else {
            rest
        }
    }
}

/// What preparation owes: one prepared entry per snapshot entry whose
/// texture is resident, in snapshot order, keyed by the same entity, with
/// the snapshot's instance matrix staged verbatim in a 48-byte buffer, the
/// binding set built from the pipeline's per-sprite layout and the
/// sprite's texture, and an instance count of one.
pub open spec fn prepared_matches(
    ex: Seq<ExtractedEntry>,
    resident: Seq<TextureId>,
    layout: LayoutId,
    out: Seq<PreparedEntry>,
) -> bool {
    let kept = kept_of_seq(ex, resident);
    &&& out.len() == kept.len()
    &&& forall|i: int|
        0 <= i < out.len() ==> {
            &&& (#[trigger] out[i]).entity == kept[i].entity
            &&& out[i].prepared.uniform_buffer == (BindGroupRecord {
                layout,
                texture: kept[i].sprite.texture,
            })
            &&& out[i].prepared.count == 1
            &&& out[i].prepared.instance_buffer.contents == kept[i].instance.instance_data
            &&& out[i].prepared.instance_buffer.bytes@.len() == 48
        }
}

/// Residency test against the textures the host reports GPU-resident.
pub fn texture_resident(resident: &Vec<TextureId>, t: TextureId) -> (b: bool)
    ensures
        b == resident@.contains(t),
{
    let mut i: usize = 0;
    while i < resident.len()
        invariant
            i <= resident@.len(),
            forall|j: int| 0 <= j < i ==> resident@[j] != t,
        decreases resident@.len() - i,
    {
        if resident[i] == t {
            return true;
        }
        i += 1;
    }
    proof {
        if resident@.contains(t) {
            let j = choose|j: int| 0 <= j < resident@.len() && resident@[j] == t;
            assert(false);
        }
    }
    false
}

/// Preparation: for each snapshot entry, stage the 48-byte instance buffer
/// holding exactly its instance matrix, and build the resource-binding set
/// from the pipeline's per-sprite layout and the sprite's texture. An entry
/// whose texture is not yet GPU-resident is excluded for this frame only;
/// that is no error, and the sprite returns on a later frame once the asset
/// is ready. Preparation never invents an entry beyond the snapshot.
pub fn prepare(
    extracted: &ExtractedSprites,
    resident: &Vec<TextureId>,
    pipeline: &CustomPipeline,
) -> (out: PreparedStore)
    ensures
        prepared_matches(extracted.entries@, resident@, pipeline.uniform_layout, out.entries@),
{
    let mut entries: Vec<PreparedEntry> = Vec::new();
    let mut i: usize = 0;
    while i < extracted.entries.len()
        invariant
            i <= extracted.entries@.len(),
            prepared_matches(
                extracted.entries@.take(i as int),
                resident@,
                pipeline.uniform_layout,
                entries@,
            ),
        decreases extracted.entries@.len() - i,
    {
        let e = &extracted.entries[i];
        if texture_resident(resident, e.sprite.texture) {
            let instance_buffer = InstanceBuffer::new(&e.instance.instance_data);
            let prepared = PreparedSprites {
                uniform_buffer: BindGroupRecord {
                    layout: pipeline.uniform_layout,
                    texture: e.sprite.texture,
                },
                instance_buffer,
                count: 1,
            };
            entries.push(PreparedEntry { entity: e.entity, prepared });
        }
        proof {
            assert(extracted.entries@.take(i + 1).drop_last() =~= extracted.entries@.take(
                i as int,
            ));
            assert(extracted.entries@.take(i + 1).last() == extracted.entries@[i as int]);
        }
        i += 1;
    }
    proof {
        assert(extracted.entries@.take(extracted.entries@.len() as int) =~= extracted.entries@);
    }
    PreparedStore { entries }
}

/// Every kept entry is a snapshot entry whose texture is resident.
pub proof fn lemma_kept_membership(ex: Seq<ExtractedEntry>, resident: Seq<TextureId>, k: int)
    requires
        0 <= k < kept_of_seq(ex, resident).len(),
    ensures
        exists|i: int|
            0 <= i < ex.len() && resident.contains(ex[i].sprite.texture) && ex[i] == kept_of_seq(
                ex,
                resident,
            )[k],
    decreases ex.len(),
{
    let rest = kept_of_seq(ex.drop_last(), resident);
    if k < rest.len() {
        lemma_kept_membership(ex.drop_last(), resident, k);
        let i = choose|i: int|
            0 <= i < ex.drop_last().len() && resident.contains(ex.drop_last()[i].sprite.texture)
                && ex.drop_last()[i] == rest[k];
        assert(0 <= i < ex.len() && resident.contains(ex[i].sprite.texture) && ex[i]
            == kept_of_seq(ex, resident)[k]);
    } else {
        let i = ex.len() - 1;
        assert(0 <= i < ex.len() && resident.contains(ex[i].sprite.texture) && ex[i]
            == kept_of_seq(ex, resident)[k]);
    }
}

/// First-match lookup of a prepared entry, as the draw steps see the store.
pub open spec fn prepared_lookup(s: Seq<PreparedEntry>, e: EntityRef) -> Option<PreparedSprites>
    decreases s.len(),
{
    if s.len() == 0 {
        None
    } else if s.first().entity == e {
        Some(s.first().prepared)
    } else {
        prepared_lookup(s.drop_first(), e)
    }
}

/// The lookup misses exactly when no entry carries the identity.
pub proof fn lemma_prepared_lookup_none(s: Seq<PreparedEntry>, e: EntityRef)
    ensures
        (prepared_lookup(s, e) is None) <==> (forall|i: int|
            0 <= i < s.len() ==> (#[trigger] s[i]).entity != e),
    decreases s.len(),
{
    if s.len() == 0 {
    } else {
        lemma_prepared_lookup_none(s.drop_first(), e);
        if s.first().entity == e {
        } else {
            assert forall|i: int| 0 <= i < s.len() && (prepared_lookup(s, e) is None) implies (
            #[trigger] s[i]).entity != e by {
                if i > 0 {
                    assert(s.drop_first()[i - 1] == s[i]);
                }
            }
            if forall|i: int| 0 <= i < s.len() ==> (#[trigger] s[i]).entity != e {
                assert(forall|i: int|
                    0 <= i < s.drop_first().len() ==> (#[trigger] s.drop_first()[i]).entity != e);
            }
        }
    }
}

/// A sprite whose texture was not resident at prepare time has no prepared
/// entry this frame: the draw steps will find nothing for it, and nothing
/// fails beyond that one sprite's omission.
pub proof fn lemma_nonresident_not_prepared(
    ex: Seq<ExtractedEntry>,
    resident: Seq<TextureId>,
    layout: LayoutId,
    out: Seq<PreparedEntry>,
    j: int,
)
    requires
        prepared_matches(ex, resident, layout, out),
        distinct_extracted(ex),
        0 <= j < ex.len(),
        !resident.contains(ex[j].sprite.texture),
    ensures
        prepared_lookup(out, ex[j].entity) is None,
{
    assert forall|k: int| 0 <= k < out.len() implies (#[trigger] out[k]).entity != ex[j].entity by {
        lemma_kept_membership(ex, resident, k);
        let i = choose|i: int|
            0 <= i < ex.len() && resident.contains(ex[i].sprite.texture) && ex[i] == kept_of_seq(
                ex,
                resident,
            )[k];
        assert(out[k].entity == ex[i].entity);
        if ex[i].entity == ex[j].entity {
            if i < j {
                assert(ex[i].entity != ex[j].entity);
            } else if j < i {
                assert(ex[j].entity != ex[i].entity);
            }
            assert(i == j);
            assert(false);
        }
    }
    lemma_prepared_lookup_none(out, ex[j].entity);
}

impl PreparedStore {
    /// Look one entity's prepared state up, as each draw step does.
    pub fn get(&self, e: EntityRef) -> (r: Option<&PreparedSprites>)
        ensures
            match r {
                Some(p) => prepared_lookup(self.entries@, e) == Some(*p),
                None => prepared_lookup(self.entries@, e) is None,
            },
    {
        let mut i: usize = 0;
        proof {
            assert(self.entries@.skip(0) =~= self.entries@);
        }
        while i < self.entries.len()
            invariant
                i <= self.entries@.len(),
                prepared_lookup(self.entries@, e) == prepared_lookup(
                    self.entries@.skip(i as int),
                    e,
                ),
            decreases self.entries@.len() - i,
        {
            proof {
                assert(self.entries@.skip(i as int).first() == self.entries@[i as int]);
                assert(self.entries@.skip(i as int).drop_first() =~= self.entries@.skip(i + 1));
            }
            if self.entries[i].entity == e {
                return Some(&self.entries[i].prepared);
            }
            i += 1;
        }
        None
    }
}

} // verus!
