//! The random choices of the game, drawn from the `rand` crate's thread-local
//! generator.
use vstd::prelude::*;
use crate::enemy::EnemyType;
use rand::Rng;
use rand::seq::SliceRandom;

verus! {

/// Calls `rand::Rng::gen_range` on the inclusive range `lo..=hi` of the thread
/// generator. The rand documentation promises a value inside the range; which
/// one is left to chance. The call panics on an empty range, which `requires`
/// excludes.
#[verifier::external_body]
pub(crate) fn random_range_inclusive(lo: u32, hi: u32) -> (r: u32)
    requires
        lo <= hi,
    ensures
        lo <= r <= hi,
{
    rand::thread_rng().gen_range(lo..=hi)
}

/// Calls `rand::Rng::gen_ratio(numerator, denominator)` on the thread
/// generator: `true` with chance `numerator / denominator`. Its documentation
/// promises `false` for a zero numerator and `true` when numerator and
/// denominator are equal; otherwise the outcome is left to chance. It panics on
/// a zero denominator or a numerator above the denominator, which `requires`
/// excludes.
#[verifier::external_body]
pub(crate) fn random_ratio(numerator: u32, denominator: u32) -> (r: bool)
    requires
        0 < denominator,
        numerator <= denominator,
    ensures
        numerator == 0 ==> !r,
        numerator == denominator ==> r,
{
    rand::thread_rng().gen_ratio(numerator, denominator)
}

/// Calls `rand::seq::SliceRandom::choose` on `types` with the thread
/// generator: `None` exactly when the slice is empty, otherwise one of its
/// elements, which one being left to chance.
#[verifier::external_body]
pub(crate) fn choose_enemy_type(types: &[EnemyType]) -> (r: Option<EnemyType>)
    ensures
        r is None <==> types@.len() == 0,
        r matches Some(t) ==> types@.contains(t),
{
    types.choose(&mut rand::thread_rng()).copied()
}

} // verus!
