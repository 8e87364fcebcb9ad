use vstd::prelude::*;
use rand::distributions::Distribution;
use rand::rngs::{OsRng, StdRng};
use rand::SeedableRng;
use rand_distr::{WeightedAliasIndex, WeightedError};

verus! {

/// `rand`'s `WeightedError`, with its four variants.
#[verifier::external_type_specification]
pub struct ExWeightedError(WeightedError);

/// `rand`'s `OsRng`, carried through unread.
#[verifier::external_type_specification]
#[verifier::external_body]
pub struct ExOsRng(OsRng);

/// `rand`'s `StdRng`, carried through unread.
#[verifier::external_type_specification]
#[verifier::external_body]
pub struct ExStdRng(StdRng);

/// An alias table over `u32` weights: `rand_distr`'s `WeightedAliasIndex<u32>`,
/// built once and never changed. The verifier sees nothing inside it; what
/// this library knows of a table it knows through `table_weights`.
#[verifier::external_body]
pub struct AliasTable {
    dist: WeightedAliasIndex<u32>,
}

/// The weights that a table was built from, in the order in which they were
/// given. A draw from the table is an index into them.
pub uninterp spec fn table_weights(table: AliasTable) -> Seq<u32>;

/// Why a list of weights makes no alias table.
#[derive(Clone, Copy, Debug, PartialEq, Eq)]
pub enum TableError {
    /// There is no weight at all.
    NoItem,
    /// Some weight is above the largest that a list of this length may hold.
    InvalidWeight,
    /// Every weight is zero.
    AllWeightsZero,
    /// There are more weights than a `u32` can count.
    TooMany,
}

/// The largest weight that a list of `n` weights may hold: with it the sum of
/// the weights, and each weight times `n`, still fits in a `u32`.
pub open spec fn max_weight(n: nat) -> int
    recommends
        n > 0,
{
    (u32::MAX as int) / (n as int)
}

/// The reason for which `weights` makes no table, or `None` where it makes
/// one. The reasons are tried in this order.
pub open spec fn table_error(weights: Seq<u32>) -> Option<TableError> {
    if weights.len() == 0 {
        Some(TableError::NoItem)
    } else if weights.len() > u32::MAX {
        Some(TableError::TooMany)
    } else if exists|i: int| 0 <= i < weights.len() && weights[i] > max_weight(weights.len()) {
        Some(TableError::InvalidWeight)
    } else if forall|i: int| 0 <= i < weights.len() ==> weights[i] == 0 {
        Some(TableError::AllWeightsZero)
    } else {
        None
    }
}

/// The library's error for each error of `rand`.
pub open spec fn table_error_of(e: WeightedError) -> TableError {
    match e {
        WeightedError::NoItem => TableError::NoItem,
        WeightedError::InvalidWeight => TableError::InvalidWeight,
        WeightedError::AllWeightsZero => TableError::AllWeightsZero,
        WeightedError::TooMany => TableError::TooMany,
    }
}

/// `WeightedAliasIndex::<u32>::new`. It refuses, in this order, an empty
/// list, one longer than `u32::MAX`, one with a weight above `u32::MAX`
/// divided by the length, and one whose sum is zero, which for weights that
/// passed the third test means that each is zero. Any other list gives a
/// table, and that table is built from exactly these weights.
#[verifier::external_body]
fn new_weighted_alias_index(weights: Vec<u32>) -> (r: Result<AliasTable, WeightedError>)
    ensures
        match r {
            Ok(table) => table_error(weights@) is None && table_weights(table) == weights@,
            Err(e) => table_error(weights@) == Some(table_error_of(e)),
        },
{
    match WeightedAliasIndex::new(weights) {
        Ok(dist) => Ok(AliasTable { dist }),
        Err(e) => Err(e),
    }
}

/// What a draw with a seeded generator gives: the index drawn, and the
/// generator as the draw leaves it. A table is built from its weights by a
/// fixed rule and a draw reads nothing but the table and the generator, so
/// both follow from the weights and the generator before the draw.
pub uninterp spec fn seeded_draw(weights: Seq<u32>, rng: StdRng) -> (usize, StdRng);

/// `WeightedAliasIndex::sample` with the operating system's generator. The
/// draw is an index into the weights of the table, and the weight there is
/// positive: with whole numbers the table pairs its odds off exactly, so an
/// index of weight zero keeps the odds zero and is never the alias of
/// another. Which index it is, no contract can say. `OsRng` is a handle
/// without a state, so the draw leaves it as it was. The generator panics
/// where the operating system gives it no random bytes.
#[verifier::external_body]
fn sample_with_os_rng(table: &AliasTable, rng: &mut OsRng) -> (index: usize)
    ensures
        index < table_weights(*table).len(),
        table_weights(*table)[index as int] > 0,
        *final(rng) == *old(rng),
{
    table.dist.sample(rng)
}

/// `WeightedAliasIndex::sample` with a seeded `StdRng`. The draw is an index
/// into the weights of the table, and the weight there is positive, as
/// above. The index and the generator after the draw are those that
/// `seeded_draw` names for the weights and the generator before it.
#[verifier::external_body]
fn sample_with_std_rng(table: &AliasTable, rng: &mut StdRng) -> (index: usize)
    ensures
        index < table_weights(*table).len(),
        table_weights(*table)[index as int] > 0,
        index == seeded_draw(table_weights(*table), *old(rng)).0,
        *final(rng) == seeded_draw(table_weights(*table), *old(rng)).1,
{
    table.dist.sample(rng)
}

/// The handle `OsRng` on the operating system's generator.
#[verifier::external_body]
fn os_rng() -> OsRng {
    OsRng
}

/// The generator that a seed starts: the same seed starts the same
/// generator, wherever and whenever it is asked for.
pub uninterp spec fn seeded_std_rng(seed: u64) -> StdRng;

/// `StdRng::seed_from_u64`. It spreads `seed` over the generator's key by a
/// fixed rule and reads nothing else, so the generator that comes back is a
/// function of `seed` alone: the one that `seeded_std_rng` names.
#[verifier::external_body]
fn std_rng_from_seed(seed: u64) -> (rng: StdRng)
    ensures
        rng == seeded_std_rng(seed),
{
    StdRng::seed_from_u64(seed)
}

impl AliasTable {
    /// The weights of the table.
    pub open spec fn weights(&self) -> Seq<u32> {
        table_weights(*self)
    }

    /// Builds the table for `weights`, or says why there is none.
    pub fn new(weights: Vec<u32>) -> (r: Result<AliasTable, TableError>)
        ensures
            match r {
                Ok(table) => table_error(weights@) is None && table.weights() == weights@,
                Err(e) => table_error(weights@) == Some(e),
            },
    {
        match new_weighted_alias_index(weights) {
            Ok(table) => Ok(table),
            Err(WeightedError::NoItem) => Err(TableError::NoItem),
            Err(WeightedError::InvalidWeight) => Err(TableError::InvalidWeight),
            Err(WeightedError::AllWeightsZero) => Err(TableError::AllWeightsZero),
            Err(WeightedError::TooMany) => Err(TableError::TooMany),
        }
    }
}

/// Where the random numbers come from.
pub enum RandomSource {
    /// The operating system's generator: the source for real runs.
    Os(OsRng),
    /// A generator started from a seed, for runs that must repeat.
    Seeded(StdRng),
}

impl RandomSource {
    /// The operating system's generator.
    pub fn os() -> (source: RandomSource)
        ensures
            source is Os,
    {
        RandomSource::Os(os_rng())
    }

    /// The generator that `seed` starts, fresh: no number has been drawn
    /// from it yet. Two sources made from one seed are the same source.
    pub fn seeded(seed: u64) -> (source: RandomSource)
        ensures
            source == RandomSource::Seeded(seeded_std_rng(seed)),
    {
        RandomSource::Seeded(std_rng_from_seed(seed))
    }

    /// Whether a draw from this source, over a table with these weights, may
    /// give `index`: it is the position of a positive weight, and with a
    /// seeded generator it is the one index that the generator gives next.
    pub open spec fn draws(self, weights: Seq<u32>, index: int) -> bool {
        &&& 0 <= index < weights.len()
        &&& weights[index] > 0
        &&& self matches RandomSource::Seeded(rng) ==> index == seeded_draw(weights, rng).0
    }

    /// The source as one draw over a table with these weights leaves it: the
    /// operating system's generator as it was, a seeded generator moved on by
    /// that draw.
    pub open spec fn after_draw(self, weights: Seq<u32>) -> RandomSource {
        match self {
            RandomSource::Os(rng) => RandomSource::Os(rng),
            RandomSource::Seeded(rng) => RandomSource::Seeded(seeded_draw(weights, rng).1),
        }
    }

    /// Draws one index from `table`. It is the position of a positive
    /// weight; where the table has one weight, it is 0. A seeded source gives
    /// the index that follows from its state and moves on by one draw.
    pub fn sample(&mut self, table: &AliasTable) -> (index: usize)
        ensures
            old(self).draws(table.weights(), index as int),
            table.weights().len() == 1 ==> index == 0,
            *final(self) == old(self).after_draw(table.weights()),
    {
        match self {
            RandomSource::Os(rng) => sample_with_os_rng(table, rng),
            RandomSource::Seeded(rng) => sample_with_std_rng(table, rng),
        }
    }
}

} // verus!
