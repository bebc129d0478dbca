//! Integer components of benchmark entities, and the random generator
//! that fills them.

use rand::Rng;
use rand::SeedableRng;
use vstd::prelude::*;

verus! {

/// The generator type of `rand_xoshiro`, opaque to the verifier.
#[verifier::external_type_specification]
#[verifier::external_body]
pub struct ExXoshiro256PlusPlus(rand_xoshiro::Xoshiro256PlusPlus);

/// The state words that a generator holds.
pub uninterp spec fn generator_words(generator: rand_xoshiro::Xoshiro256PlusPlus) -> Seq<u64>;

/// The state words of the generator that
/// `Xoshiro256PlusPlus::seed_from_u64` makes of `seed`.
pub uninterp spec fn seeded_words(seed: u64) -> Seq<u64>;

/// What `Rng::gen::<u8>` makes of a generator whose state is `words`: the
/// byte it draws and the state it leaves.
pub uninterp spec fn byte_draw(words: Seq<u64>) -> (u8, Seq<u64>);

/// What `Rng::gen_ratio` makes of a generator whose state is `words`: the
/// outcome it draws for the ratio and the state it leaves.
pub uninterp spec fn ratio_draw(words: Seq<u64>, numerator: u32, denominator: u32) -> (
    bool,
    Seq<u64>,
);

/// A generator seeded with `seed`, from
/// `Xoshiro256PlusPlus::seed_from_u64`.
///
/// Trusted: the state of the generator is a function of the seed alone.
#[verifier::external_body]
fn seeded_generator(seed: u64) -> (generator: rand_xoshiro::Xoshiro256PlusPlus)
    ensures
        generator_words(generator) == seeded_words(seed),
{
    rand_xoshiro::Xoshiro256PlusPlus::seed_from_u64(seed)
}

/// A generator seeded by the operating system, from
/// `Xoshiro256PlusPlus::from_entropy`.
///
/// Trusted, with no claim about the generator: its state is whatever the
/// operating system gave.  The call does not return normally when the
/// operating system has no entropy to give.
#[verifier::external_body]
fn entropy_generator() -> (generator: rand_xoshiro::Xoshiro256PlusPlus) {
    rand_xoshiro::Xoshiro256PlusPlus::from_entropy()
}

/// The next random byte of `generator`, from `Rng::gen`.
///
/// Trusted: the byte and the state that the draw leaves are functions of
/// the state before the draw alone.
#[verifier::external_body]
fn next_byte(generator: &mut rand_xoshiro::Xoshiro256PlusPlus) -> (byte: u8)
    ensures
        (byte, generator_words(*final(generator))) == byte_draw(generator_words(*old(generator))),
{
    generator.gen()
}

/// A random outcome of `generator` that is `true` with probability
/// `numerator / denominator`, from `Rng::gen_ratio`.
///
/// Trusted: the outcome and the state that the draw leaves are functions
/// of the state before the draw and of the ratio alone; a ratio of one
/// always yields `true` and a ratio of zero always `false`.
#[verifier::external_body]
fn next_ratio(
    generator: &mut rand_xoshiro::Xoshiro256PlusPlus,
    numerator: u32,
    denominator: u32,
) -> (outcome: bool)
    requires
        0 < denominator,
        numerator <= denominator,
    ensures
        (outcome, generator_words(*final(generator))) == ratio_draw(
            generator_words(*old(generator)),
            numerator,
            denominator,
        ),
        numerator == denominator ==> outcome,
        numerator == 0 ==> !outcome,
{
    generator.gen_ratio(numerator, denominator)
}

/// A random byte of the thread-local generator, from `rand::thread_rng`
/// and `Rng::gen`.
///
/// Trusted, with no claim about the byte: the thread-local generator is
/// seeded by the operating system.  The call does not return normally
/// when the operating system has no entropy to seed the generator with.
#[verifier::external_body]
fn thread_byte() -> (byte: u8) {
    rand::thread_rng().gen()
}

/// Seed of the default generator.
pub const DEFAULT_SEED: u64 = 42;

/// A fast seedable generator, shared by all spawn operations.
///
/// Its model is the state that the generator holds: every draw is a
/// function of that state and leaves the next one, so that generators made
/// from equal seeds draw equal values.
pub struct FastRng(pub rand_xoshiro::Xoshiro256PlusPlus);

impl View for FastRng {
    type V = Seq<u64>;

    open spec fn view(&self) -> Seq<u64> {
        generator_words(self.0)
    }
}

impl Default for FastRng {
    fn default() -> (rng: FastRng)
        ensures
            rng@ == seeded_words(DEFAULT_SEED),
    {
        FastRng(seeded_generator(DEFAULT_SEED))
    }
}

impl FastRng {
    /// A generator with a fixed seed, for reproducible runs: its state is
    /// the one that the seed determines.
    pub fn with_seed(seed: u64) -> (rng: FastRng)
        ensures
            rng@ == seeded_words(seed),
    {
        FastRng(seeded_generator(seed))
    }

    /// A generator seeded by the operating system.
    pub fn from_entropy() -> (rng: FastRng) {
        FastRng(entropy_generator())
    }

    /// The next random byte: the one that the state of the generator
    /// determines; the generator moves on to its next state.
    pub fn next_u8(&mut self) -> (byte: u8)
        ensures
            (byte, final(self)@) == byte_draw(old(self)@),
    {
        next_byte(&mut self.0)
    }

    /// A random outcome that is `true` with probability
    /// `numerator / denominator`: always for a ratio of one, never for a
    /// ratio of zero, and else as the state of the generator determines;
    /// the generator moves on to its next state.
    pub fn chance(&mut self, numerator: u32, denominator: u32) -> (outcome: bool)
        requires
            0 < denominator,
            numerator <= denominator,
        ensures
            (outcome, final(self)@) == ratio_draw(old(self)@, numerator, denominator),
            numerator == denominator ==> outcome,
            numerator == 0 ==> !outcome,
    {
        next_ratio(&mut self.0, numerator, denominator)
    }

    /// A fair coin flip: the outcome that the state of the generator
    /// determines for the ratio one to two; the generator moves on to its
    /// next state.
    pub fn flip(&mut self) -> (heads: bool)
        ensures
            (heads, final(self)@) == ratio_draw(old(self)@, 1, 2),
    {
        next_ratio(&mut self.0, 1, 2)
    }
}

/// Eight independent boolean tags of an entity, one per bit.
///
/// All entities that carry their tags this way share one storage class,
/// whatever the combination.
#[derive(Debug, Clone, Copy, PartialEq, Eq, Hash, Structural)]
pub struct EntityVariant(pub u8);

impl Default for EntityVariant {
    fn default() -> (variant: EntityVariant)
        ensures
            variant.0 == EntityVariant::NONE,
    {
        EntityVariant(0)
    }
}

impl EntityVariant {
    pub const NONE: u8 = 0;

    pub const A: u8 = 1;

    pub const B: u8 = 2;

    pub const C: u8 = 4;

    pub const D: u8 = 8;

    pub const E: u8 = 16;

    pub const F: u8 = 32;

    pub const G: u8 = 64;

    pub const H: u8 = 128;

    /// Whether any flag of `flag` is set.
    pub open spec fn has_flag(self, flag: u8) -> bool {
        self.0 & flag != 0
    }

    /// The tags given by eight flips, the first for `A`, the last for `H`.
    pub open spec fn of_flips(flips: Seq<bool>) -> u8 {
        (if flips[0] { 1u8 } else { 0u8 }) | (if flips[1] { 2u8 } else { 0u8 })
            | (if flips[2] { 4u8 } else { 0u8 }) | (if flips[3] { 8u8 } else { 0u8 })
            | (if flips[4] { 16u8 } else { 0u8 }) | (if flips[5] { 32u8 } else { 0u8 })
            | (if flips[6] { 64u8 } else { 0u8 }) | (if flips[7] { 128u8 } else { 0u8 })
    }

    /// A variant with the given flags.
    pub fn new(flags: u8) -> (variant: EntityVariant)
        ensures
            variant.0 == flags,
    {
        EntityVariant(flags)
    }

    /// Whether any flag of `flag` is set.
    pub fn has(&self, flag: u8) -> (set: bool)
        ensures
            set == self.has_flag(flag),
    {
        self.0 & flag != 0
    }

    /// Sets the flags of `flag`.
    pub fn add(&mut self, flag: u8)
        ensures
            final(self).0 == old(self).0 | flag,
    {
        self.0 = self.0 | flag;
    }

    /// Clears the flags of `flag`.
    pub fn remove(&mut self, flag: u8)
        ensures
            final(self).0 == old(self).0 & !flag,
    {
        self.0 = self.0 & !flag;
    }

    /// The variant given by eight flips, the first for `A`, the last for
    /// `H`.
    pub fn from_flips(flips: &[bool; 8]) -> (variant: EntityVariant)
        ensures
            variant.0 == Self::of_flips(flips@),
    {
        let mut variant = EntityVariant(0);
        if flips[0] {
            variant.add(Self::A);
        }
        if flips[1] {
            variant.add(Self::B);
        }
        if flips[2] {
            variant.add(Self::C);
        }
        if flips[3] {
            variant.add(Self::D);
        }
        if flips[4] {
            variant.add(Self::E);
        }
        if flips[5] {
            variant.add(Self::F);
        }
        if flips[6] {
            variant.add(Self::G);
        }
        if flips[7] {
            variant.add(Self::H);
        }
        proof {
            assert(forall|x: u8| #[trigger] (x | 0u8) == x) by (bit_vector);
            assert(forall|x: u8| #[trigger] (0u8 | x) == x) by (bit_vector);
        }
        variant
    }

    /// A random combination of tags from the thread-local generator.
    pub fn random() -> (variant: EntityVariant) {
        EntityVariant(thread_byte())
    }

    /// A random combination of tags from `rng`: the flags are the byte
    /// that `rng` draws next, and `rng` moves on to its next state.
    pub fn random_with(rng: &mut FastRng) -> (variant: EntityVariant)
        ensures
            (variant.0, final(rng)@) == byte_draw(old(rng)@),
    {
        EntityVariant(rng.next_u8())
    }
}

/// Whether `flag` is one of the eight single tags.
pub open spec fn is_single_flag(flag: u8) -> bool {
    flag == 1 || flag == 2 || flag == 4 || flag == 8 || flag == 16 || flag == 32 || flag == 64
        || flag == 128
}

/// A tag that was set is there, and setting it leaves every other tag as
/// it was.
pub proof fn lemma_add_sets_only_flag(flags: u8, flag: u8, other: u8)
    requires
        is_single_flag(flag),
        is_single_flag(other),
        other != flag,
    ensures
        EntityVariant(flags | flag).has_flag(flag),
        EntityVariant(flags | flag).has_flag(other) == EntityVariant(flags).has_flag(other),
{
    assert(is_single_flag(flag) && is_single_flag(other) && other != flag ==> ((flags | flag)
        & flag != 0) && (((flags | flag) & other != 0) == (flags & other != 0)))
        by (bit_vector);
}

/// A tag that was cleared is gone, and clearing it leaves every other tag
/// as it was.
pub proof fn lemma_remove_clears_only_flag(flags: u8, flag: u8, other: u8)
    requires
        is_single_flag(flag),
        is_single_flag(other),
        other != flag,
    ensures
        !EntityVariant(flags & !flag).has_flag(flag),
        EntityVariant(flags & !flag).has_flag(other) == EntityVariant(flags).has_flag(other),
{
    assert(is_single_flag(flag) && is_single_flag(other) && other != flag ==> ((flags & !flag)
        & flag == 0) && (((flags & !flag) & other != 0) == (flags & other != 0)))
        by (bit_vector);
}

/// Component that is added to and removed from entities to move them
/// between storage classes.
#[derive(Debug, Clone, Copy, PartialEq, Eq, Structural)]
pub struct ToggleComponent {
    pub value: u32,
}

/// Second toggled component, for changes of several components at once.
#[derive(Debug, Clone, Copy, PartialEq, Eq, Structural)]
pub struct SecondaryToggle {
    pub active: bool,
}

/// Counter that shows an entity was visited.
#[derive(Debug, Clone, Copy, PartialEq, Eq, Structural)]
pub struct Counter {
    pub value: u64,
}

impl Default for Counter {
    fn default() -> (counter: Counter)
        ensures
            counter.value == 0,
    {
        Counter { value: 0 }
    }
}

impl Counter {
    /// The value after one more visit: it wraps around at `u64::MAX`.
    pub open spec fn incremented(self) -> Counter {
        Counter {
            value: if self.value == u64::MAX {
                0
            } else {
                (self.value + 1) as u64
            },
        }
    }

    /// Counts one visit.
    pub fn increment(&mut self)
        ensures
            *final(self) == old(self).incremented(),
    {
        self.value = self.value.wrapping_add(1);
    }
}

} // verus!
