use vstd::prelude::*;

use crate::ids::{EntityRef, TextureId};
use crate::scalar::Scalar;
use crate::transform::{SpriteTransformMatrix, WorldTransform};

verus! {

/// The sprite component a simulation entity carries: the texture its quad is
/// drawn with.
#[derive(Clone, Copy, PartialEq, Eq, Structural, Debug)]
pub struct CustomSprite {
    pub texture: TextureId,
}

/// One sprite entity as the simulation world reports it at the extraction
/// boundary: identity, world transform, the outcome of the global visibility
/// check, and the sprite component.
#[derive(Clone, Copy, PartialEq, Eq, Structural, Debug)]
pub struct SpriteEntity {
    pub entity: EntityRef,
    pub transform: WorldTransform,
    pub visible: bool,
    pub sprite: CustomSprite,
}

/// The render-side snapshot of one visible sprite: its instance matrix and
/// its depth (the world transform's z translation), which orders its draw.
#[derive(Clone, Copy, PartialEq, Eq, Structural, Debug)]
pub struct ExtractedSpriteInstance {
    pub instance_data: SpriteTransformMatrix,
    pub z_order: Scalar,
}

/// One entry of the frame's snapshot store, keyed by the entity it was
/// extracted from.
#[derive(Clone, Copy, PartialEq, Eq, Structural, Debug)]
pub struct ExtractedEntry {
    pub entity: EntityRef,
    pub instance: ExtractedSpriteInstance,
    pub sprite: CustomSprite,
}

/// The frame-scoped store of extracted sprites. It is rebuilt from scratch
/// every frame; nothing in it survives extraction of the next frame.
#[derive(Clone, Debug)]
pub struct ExtractedSprites {
    pub entries: Vec<ExtractedEntry>,
}

/// The snapshot entry a sprite entity extracts to.
pub open spec fn entry_of(s: SpriteEntity) -> ExtractedEntry {
    ExtractedEntry {
        entity: s.entity,
        instance: ExtractedSpriteInstance {
            instance_data: SpriteTransformMatrix::from_transform_spec(s.transform),
            z_order: s.transform.translation.z,
        },
        sprite: s.sprite,
    }
}

/// What extraction produces: one entry per visible input entity, in input
/// order; invisible entities are simply omitted.
pub open spec fn extracted_of_seq(s: Seq<SpriteEntity>) -> Seq<ExtractedEntry>
    decreases s.len(),
{
    if s.len() == 0 {
        Seq::<ExtractedEntry>::empty()
    } else if s.last().visible {
        extracted_of_seq(s.drop_last()).push(entry_of(s.last()))
    } else {
        extracted_of_seq(s.drop_last())
    }
}

/// Entity identities are stable and unique; the host's entity storage
/// guarantees that no two rows of one query carry the same identity.
pub open spec fn distinct_entities(s: Seq<SpriteEntity>) -> bool {
    forall|i: int, j: int| 0 <= i < j < s.len() ==> s[i].entity != s[j].entity
}

/// Extraction: replace the store's previous contents wholly with one entry
/// per visible entity of this frame's snapshot, each holding the instance
/// matrix computed from the entity's world transform and the depth taken
/// from its z translation. Entities whose visibility flag is false leave no
/// entry; nothing of the previous frame survives.
pub fn extract(sprites: &Vec<SpriteEntity>, store: &mut ExtractedSprites)
    ensures
        final(store).entries@ == extracted_of_seq(sprites@),
{
    let mut entries: Vec<ExtractedEntry> = Vec::new();
    let mut i: usize = 0;
    while i < sprites.len()
        invariant
            i <= sprites.len(),
            entries@ == extracted_of_seq(sprites@.take(i as int)),
        decreases sprites.len() - i,
    {
        let s = sprites[i];
        if s.visible {
            let instance = ExtractedSpriteInstance {
                instance_data: SpriteTransformMatrix::from_transform(&s.transform),
                z_order: s.transform.translation.z,
            };
            entries.push(ExtractedEntry { entity: s.entity, instance, sprite: s.sprite });
        }
        proof {
            assert(sprites@.take(i + 1).drop_last() =~= sprites@.take(i as int));
            assert(sprites@.take(i + 1).last() == sprites@[i as int]);
        }
        i += 1;
    }
    proof {
        assert(sprites@.take(sprites@.len() as int) =~= sprites@);
    }
    store.entries = entries;
}

/// Every snapshot entry was extracted from some visible input entity.
pub proof fn lemma_extracted_membership(s: Seq<SpriteEntity>, k: int)
    requires
        0 <= k < extracted_of_seq(s).len(),
    ensures
        exists|i: int| 0 <= i < s.len() && s[i].visible && entry_of(s[i]) == extracted_of_seq(s)[k],
    decreases s.len(),
{
    let rest = extracted_of_seq(s.drop_last());
    if k < rest.len() {
        lemma_extracted_membership(s.drop_last(), k);
        let i = choose|i: int|
            0 <= i < s.drop_last().len() && s.drop_last()[i].visible && entry_of(s.drop_last()[i])
                == rest[k];
        assert(0 <= i < s.len() && s[i].visible && entry_of(s[i]) == extracted_of_seq(s)[k]);
    } else {
        let i = s.len() - 1;
        assert(0 <= i < s.len() && s[i].visible && entry_of(s[i]) == extracted_of_seq(s)[k]);
    }
}

/// A visible input entity always appears in the snapshot.
pub proof fn lemma_visible_extracted(s: Seq<SpriteEntity>, i: int)
    requires
        0 <= i < s.len(),
        s[i].visible,
    ensures
        extracted_of_seq(s).contains(entry_of(s[i])),
    decreases s.len(),
{
    if i == s.len() - 1 {
        let k = extracted_of_seq(s.drop_last()).len() as int;
        assert(extracted_of_seq(s)[k] == entry_of(s[i]));
    } else {
        lemma_visible_extracted(s.drop_last(), i);
        let k = choose|k: int|
            0 <= k < extracted_of_seq(s.drop_last()).len() && extracted_of_seq(s.drop_last())[k]
                == entry_of(s.drop_last()[i]);
        assert(extracted_of_seq(s)[k] == entry_of(s[i]));
    }
}

/// Snapshot entries keep distinct identities.
pub open spec fn distinct_extracted(ex: Seq<ExtractedEntry>) -> bool {
    forall|i: int, j: int| 0 <= i < j < ex.len() ==> ex[i].entity != ex[j].entity
}

/// Extraction of entities with distinct identities yields entries with
/// distinct identities.
pub proof fn lemma_extracted_distinct(s: Seq<SpriteEntity>)
    requires
        distinct_entities(s),
    ensures
        distinct_extracted(extracted_of_seq(s)),
    decreases s.len(),
{
    if s.len() == 0 {
    } else {
        assert(distinct_entities(s.drop_last())) by {
            assert(forall|i: int, j: int|
                0 <= i < j < s.drop_last().len() ==> s.drop_last()[i] == s[i] && s.drop_last()[j]
                    == s[j]);
        }
        lemma_extracted_distinct(s.drop_last());
        let rest = extracted_of_seq(s.drop_last());
        if s.last().visible {
            let r = rest.push(entry_of(s.last()));
            assert forall|i: int, j: int| 0 <= i < j < r.len() implies r[i].entity != r[j].entity by {
                if j < rest.len() {
                    assert(r[i] == rest[i] && r[j] == rest[j]);
                } else {
                    assert(r[j] == entry_of(s.last()));
                    assert(r[i] == rest[i]);
                    lemma_extracted_membership(s.drop_last(), i);
                    let idx = choose|idx: int|
                        0 <= idx < s.drop_last().len() && s.drop_last()[idx].visible && entry_of(
                            s.drop_last()[idx],
                        ) == rest[i];
                    assert(s[idx].entity != s[s.len() - 1].entity);
                }
            }
        }
    }
}

/// An entity whose visibility flag is false leaves no snapshot entry under
/// its identity: omission at extraction is the sole culling at this stage,
/// and it hides the entity from every view of the frame.
pub proof fn lemma_invisible_not_extracted(s: Seq<SpriteEntity>, j: int, k: int)
    requires
        distinct_entities(s),
        0 <= j < s.len(),
        !s[j].visible,
        0 <= k < extracted_of_seq(s).len(),
    ensures
        extracted_of_seq(s)[k].entity != s[j].entity,
{
    lemma_extracted_membership(s, k);
    let i = choose|i: int|
        0 <= i < s.len() && s[i].visible && entry_of(s[i]) == extracted_of_seq(s)[k];
    assert(extracted_of_seq(s)[k].entity == s[i].entity);
    if extracted_of_seq(s)[k].entity == s[j].entity {
        assert(i != j);
        if i < j {
            assert(s[i].entity != s[j].entity);
        } else {
            assert(s[j].entity != s[i].entity);
        }
        assert(false);
    }
}

} // verus!
