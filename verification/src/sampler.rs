//! The word sampler: a fixed-size random draw from the dictionary, without
//! repetition, behind a trusted wrapper around the rand crate.

use crate::model::total_chars;
use rand::prelude::SliceRandom;
use std::collections::VecDeque;
use vstd::prelude::*;

verus! {

/// Relies on rand's `SliceRandom::choose_multiple`: it draws `amount`
/// elements of the slice at distinct indices, without repetition — all of
/// them when the slice has fewer than `amount` — in an order chosen by the
/// generator. So the result is a sub-multiset of the dictionary, its length
/// is the smaller of `amount` and the dictionary length, and it cannot hold
/// more characters than the dictionary does.
#[verifier::external_body]
pub(crate) fn choose_random_words(dict: &Vec<String>, amount: usize) -> (r: VecDeque<String>)
    ensures
        r.deep_view().len() == vstd::math::min(amount as int, dict.deep_view().len() as int),
        r.deep_view().to_multiset().subset_of(dict.deep_view().to_multiset()),
        total_chars(r.deep_view()) <= total_chars(dict.deep_view()),
{
    let mut rng = rand::thread_rng();
    dict.choose_multiple(&mut rng, amount).cloned().collect()
}

} // verus!
