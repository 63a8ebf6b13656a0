//! The calls into `rand` and `uuid`.
//!
//! What comes back from them depends on chance: each function states only
//! what holds of every outcome.

use vstd::prelude::*;

verus! {

/// `rand::rngs::ThreadRng`: the random number generator of the current
/// thread.
#[verifier::external_type_specification]
#[verifier::external_body]
pub struct ExThreadRng(rand::rngs::ThreadRng);

/// `ThreadRng::default`: a handle to the generator of the current thread.
#[verifier::external_body]
pub(crate) fn thread_rng() -> (rng: rand::rngs::ThreadRng) {
    rand::rngs::ThreadRng::default()
}

/// `SliceRandom::choose` on the words: one of them, or `None` when there is
/// none to choose from.
#[verifier::external_body]
pub(crate) fn pick<'a>(words: &Vec<&'a str>, rng: &mut rand::rngs::ThreadRng) -> (chosen: Option<
    &'a str,
>)
    ensures
        match chosen {
            Some(word) => words@.contains(word),
            None => words@.len() == 0,
        },
{
    rand::seq::SliceRandom::choose(words.as_slice(), rng).copied()
}

/// `Rng::gen_range` over `1..10000`: a number from 1 to 9999.
#[verifier::external_body]
pub(crate) fn rand_num(rng: &mut rand::rngs::ThreadRng) -> (number: u16)
    ensures
        1 <= number < 10000,
{
    rand::Rng::gen_range(rng, 1..10000)
}

/// `Uuid::new_v4`, written out by `to_string`: a random UUID in its
/// hyphenated form.
#[verifier::external_body]
pub(crate) fn uuid_name() -> (name: String) {
    uuid::Uuid::new_v4().to_string()
}

} // verus!
