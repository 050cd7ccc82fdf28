//! Random utilities: the percentage-chance roll, the ranged-chance roll, and
//! the random precept. The draws themselves come from the `rand` crate
//! through trusted wrappers; everything decided from a draw is verified for
//! every value the draw can take.

use vstd::prelude::*;
use rand::Rng;

verus! {

/// How many precepts the fixed list holds.
pub const PRECEPT_COUNT: usize = 18;

/// Relies on rand::Rng::gen_range over `0..100`: a uniform draw in [0, 100).
#[verifier::external_body]
fn sample_percent() -> (r: i8)
    ensures
        0 <= r < 100,
{
    rand::thread_rng().gen_range(0..100)
}

/// Relies on rand::Rng::gen_range over `min..max`: a uniform draw in
/// [min, max); it panics when the range is empty, so `min < max` is required.
#[verifier::external_body]
fn sample_between(min: i8, max: i8) -> (r: i8)
    requires
        min < max,
    ensures
        min <= r < max,
{
    rand::thread_rng().gen_range(min..max)
}

/// Relies on rand::Rng::gen_range over `0..n`: a uniform draw in [0, n);
/// it panics when the range is empty, so `n > 0` is required.
#[verifier::external_body]
fn sample_index(n: usize) -> (r: usize)
    requires
        n > 0,
    ensures
        r < n,
{
    rand::thread_rng().gen_range(0..n)
}

/// A single randomized trial: succeeds with probability `chance` percent.
/// A chance of zero or less never succeeds; one of a hundred or more always
/// does.
pub fn roll(chance: i8) -> (r: bool)
    ensures
        chance <= 0 ==> !r,
        chance >= 100 ==> r,
{
    sample_percent() < chance
}

/// A two-stage randomized trial: draws a threshold uniformly in
/// [min_chance, max_chance), then rolls against it. Never succeeds when even
/// the largest possible threshold is zero or less; always succeeds when the
/// smallest is a hundred or more.
pub fn roll_range(min_chance: i8, max_chance: i8) -> (r: bool)
    requires
        min_chance < max_chance,
    ensures
        max_chance <= 0 ==> !r,
        min_chance >= 100 ==> r,
{
    let chance = sample_between(min_chance, max_chance);
    roll(chance)
}

/// The text of precept `i` of the fixed list.
pub open spec fn precept_spec(i: int) -> Seq<char> {
    if i == 0 {
        "Accept everything just the way it is."@
    } else if i == 1 {
        "Do not seek pleasure for its own sake."@
    } else if i == 2 {
        "Do not, under any circumstances, depend on a partial feeling."@
    } else if i == 3 {
        "Think lightly about yourself and deeply about the world."@
    } else if i == 4 {
        "Be detached from desire your whole life long."@
    } else if i == 5 {
        "Do not regret what you have done."@
    } else if i == 6 {
        "Never be jealous."@
    } else if i == 7 {
        "Never let yourself be saddened by separation."@
    } else if i == 8 {
        "Resentment and complaint are appropriate neither for oneself nor others."@
    } else if i == 9 {
        "Do not let yourself be guided by the feeling of lust or love."@
    } else if i == 10 {
        "In all things have no preferences."@
    } else if i == 11 {
        "Be indifferent to where you live."@
    } else if i == 12 {
        "Do not pursue the taste of good food."@
    } else if i == 13 {
        "Do not hold on to possessions you no longer need."@
    } else if i == 14 {
        "Do not act following customary beliefs."@
    } else if i == 15 {
        "Do not collect weapons or practice with weapons beyond what is useful."@
    } else if i == 16 {
        "Do not fear death."@
    } else {
        "Do not seek to possess either goods or fiefs for your old age."@
    }
}

/// The text of precept `i` of the fixed list.
pub fn precept(i: usize) -> (s: &'static str)
    requires
        i < PRECEPT_COUNT,
    ensures
        s@ == precept_spec(i as int),
{
    if i == 0 {
        "Accept everything just the way it is."
    } else if i == 1 {
        "Do not seek pleasure for its own sake."
    } else if i == 2 {
        "Do not, under any circumstances, depend on a partial feeling."
    } else if i == 3 {
        "Think lightly about yourself and deeply about the world."
    } else if i == 4 {
        "Be detached from desire your whole life long."
    } else if i == 5 {
        "Do not regret what you have done."
    } else if i == 6 {
        "Never be jealous."
    } else if i == 7 {
        "Never let yourself be saddened by separation."
    } else if i == 8 {
        "Resentment and complaint are appropriate neither for oneself nor others."
    } else if i == 9 {
        "Do not let yourself be guided by the feeling of lust or love."
    } else if i == 10 {
        "In all things have no preferences."
    } else if i == 11 {
        "Be indifferent to where you live."
    } else if i == 12 {
        "Do not pursue the taste of good food."
    } else if i == 13 {
        "Do not hold on to possessions you no longer need."
    } else if i == 14 {
        "Do not act following customary beliefs."
    } else if i == 15 {
        "Do not collect weapons or practice with weapons beyond what is useful."
    } else if i == 16 {
        "Do not fear death."
    } else {
        "Do not seek to possess either goods or fiefs for your old age."
    }
}

/// One of the fixed precepts, chosen uniformly at random.
pub fn random_precept() -> (s: &'static str)
    ensures
        exists|i: int| 0 <= i < PRECEPT_COUNT && s@ == precept_spec(i),
{
    let i = sample_index(PRECEPT_COUNT);
    precept(i)
}

} // verus!
