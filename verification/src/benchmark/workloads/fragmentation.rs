//! Storage-class fragmentation: the same entities tagged either by marker
//! combination, one storage class per combination, or by a flag byte in a
//! single storage class.

use vstd::prelude::*;

use crate::components::{byte_draw, ratio_draw, EntityVariant, FastRng};

verus! {

/// Number of tag combinations that the fragmented spawn cycles through.
pub const ARCHETYPE_VARIANTS: usize = 8;

/// The tag combination of the entity at `index` of a fragmented spawn:
/// the combinations `A`, `B`, `C`, `D`, `A|B`, `C|D`, `E|F`, `G|H` in turn.
pub open spec fn fragmented_tags(index: int) -> u8 {
    let variant = index % 8;
    if variant == 0 {
        1
    } else if variant == 1 {
        2
    } else if variant == 2 {
        4
    } else if variant == 3 {
        8
    } else if variant == 4 {
        3
    } else if variant == 5 {
        12
    } else if variant == 6 {
        48
    } else {
        192
    }
}

/// The tag combination of the entity at `index` of a fragmented spawn.
pub fn fragmented_variant(index: usize) -> (variant: EntityVariant)
    ensures
        variant.0 == fragmented_tags(index as int),
{
    match index % ARCHETYPE_VARIANTS {
        0 => EntityVariant(1),
        1 => EntityVariant(2),
        2 => EntityVariant(4),
        3 => EntityVariant(8),
        4 => EntityVariant(3),
        5 => EntityVariant(12),
        6 => EntityVariant(48),
        _ => EntityVariant(192),
    }
}

/// The tags of a fragmented spawn of `count` entities, spread evenly over
/// `ARCHETYPE_VARIANTS` combinations.
pub fn spawn_fragmented_entities(count: usize) -> (batch: Vec<EntityVariant>)
    ensures
        batch@.len() == count,
        forall|i: int| 0 <= i < count ==> (#[trigger] batch@[i]).0 == fragmented_tags(i),
{
    let mut batch: Vec<EntityVariant> = Vec::with_capacity(count);
    let mut i: usize = 0;
    while i < count
        invariant
            i <= count,
            batch@.len() == i,
            forall|k: int| 0 <= k < i ==> (#[trigger] batch@[k]).0 == fragmented_tags(k),
        decreases count - i,
    {
        batch.push(fragmented_variant(i));
        i += 1;
    }
    batch
}

/// The tags that `count` entities draw in turn, a byte each, from a
/// generator whose state is `words`, and the state that the draws leave.
pub open spec fn drawn_variants(words: Seq<u64>, count: nat) -> (Seq<EntityVariant>, Seq<u64>)
    decreases count,
{
    if count == 0 {
        (Seq::empty(), words)
    } else {
        let before = drawn_variants(words, (count - 1) as nat);
        let draw = byte_draw(before.1);
        (before.0.push(EntityVariant(draw.0)), draw.1)
    }
}

/// The outcomes of `flips` fair coin flips in turn from a generator whose
/// state is `words`, and the state that the flips leave.
pub open spec fn drawn_flips(words: Seq<u64>, flips: nat) -> (Seq<bool>, Seq<u64>)
    decreases flips,
{
    if flips == 0 {
        (Seq::empty(), words)
    } else {
        let before = drawn_flips(words, (flips - 1) as nat);
        let draw = ratio_draw(before.1, 1, 2);
        (before.0.push(draw.0), draw.1)
    }
}

/// The tags that `count` entities draw in turn, eight coin flips each,
/// from a generator whose state is `words`, and the state that the draws
/// leave.  The first flip of an entity decides its tag `A`, the last its
/// tag `H`.
pub open spec fn flipped_variants(words: Seq<u64>, count: nat) -> (Seq<EntityVariant>, Seq<u64>)
    decreases count,
{
    if count == 0 {
        (Seq::empty(), words)
    } else {
        let before = flipped_variants(words, (count - 1) as nat);
        let flips = drawn_flips(before.1, 8);
        (before.0.push(EntityVariant(EntityVariant::of_flips(flips.0))), flips.1)
    }
}

/// The tags of a unified spawn of `count` entities: the combination that
/// `rng` draws for each in turn, all computed before any entity is handed
/// out.
pub fn spawn_unified_variant_entities(count: usize, rng: &mut FastRng) -> (batch: Vec<
    EntityVariant,
>)
    ensures
        batch@.len() == count,
        (batch@, final(rng)@) == drawn_variants(old(rng)@, count as nat),
{
    let mut batch: Vec<EntityVariant> = Vec::with_capacity(count);
    let mut i: usize = 0;
    while i < count
        invariant
            i <= count,
            batch@.len() == i,
            (batch@, rng@) == drawn_variants(old(rng)@, i as nat),
        decreases count - i,
    {
        batch.push(EntityVariant::random_with(rng));
        i += 1;
    }
    batch
}

/// Eight fair coin flips of `rng` in turn.
fn eight_flips(rng: &mut FastRng) -> (flips: [bool; 8])
    ensures
        (flips@, final(rng)@) == drawn_flips(old(rng)@, 8),
{
    let f0: bool = rng.flip();
    let f1: bool = rng.flip();
    let f2: bool = rng.flip();
    let f3: bool = rng.flip();
    let f4: bool = rng.flip();
    let f5: bool = rng.flip();
    let f6: bool = rng.flip();
    let f7: bool = rng.flip();
    let flips: [bool; 8] = [f0, f1, f2, f3, f4, f5, f6, f7];
    proof {
        reveal_with_fuel(drawn_flips, 9);
        assert(flips@ =~= drawn_flips(old(rng)@, 8).0);
    }
    flips
}

/// The tags of a heavily fragmented spawn of `count` entities: each of
/// the eight tags of each entity is decided by a fair coin flip of `rng`,
/// in turn.
pub fn spawn_heavily_fragmented_entities(count: usize, rng: &mut FastRng) -> (batch: Vec<
    EntityVariant,
>)
    ensures
        batch@.len() == count,
        (batch@, final(rng)@) == flipped_variants(old(rng)@, count as nat),
{
    let mut batch: Vec<EntityVariant> = Vec::with_capacity(count);
    let mut i: usize = 0;
    while i < count
        invariant
            i <= count,
            batch@.len() == i,
            (batch@, rng@) == flipped_variants(old(rng)@, i as nat),
        decreases count - i,
    {
        let flips: [bool; 8] = eight_flips(rng);
        batch.push(EntityVariant::from_flips(&flips));
        i += 1;
    }
    batch
}

/// Tenths by which the unified mutation scales the movement of an entity:
/// 15 for an entity tagged `A`, 10 for any other.
pub fn unified_multiplier_tenths(variant: EntityVariant) -> (tenths: u32)
    ensures
        tenths == if variant.has_flag(EntityVariant::A) {
            15u32
        } else {
            10u32
        },
{
    if variant.has(EntityVariant::A) {
        15
    } else {
        10
    }
}

/// Whether the unified filtered query visits an entity: it visits those
/// tagged `A` or `B`, as the fragmented queries for `A` and for `B` do
/// together.
pub fn unified_filter_matches(variant: EntityVariant) -> (visited: bool)
    ensures
        visited == (variant.has_flag(EntityVariant::A) || variant.has_flag(EntityVariant::B)),
{
    variant.has(EntityVariant::A) || variant.has(EntityVariant::B)
}

} // verus!
