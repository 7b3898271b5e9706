//! The derived metrics: words-per-minute figures, the countdown shown during
//! a round, and the split of the word being typed into its rendered parts.
//! Nothing here is stored; everything is a function of the model.

use vstd::math::min;
use vstd::prelude::*;
use vstd::string::StrSliceExecFns;

verus! {

/// Seconds still to run of the 30-second round: elapsed whole seconds since
/// `start_ms`, counted down from 30 and never below zero. A clock that moved
/// backwards counts as no time having passed.
pub open spec fn spec_remaining_seconds(now_ms: int, start_ms: int) -> int {
    if now_ms <= start_ms {
        30
    } else if (now_ms - start_ms) / 1000 >= 30 {
        0
    } else {
        30 - (now_ms - start_ms) / 1000
    }
}

pub fn remaining_seconds(now_ms: u64, start_ms: u64) -> (r: u64)
    ensures
        r == spec_remaining_seconds(now_ms as int, start_ms as int),
{
    if now_ms <= start_ms {
        30
    } else {
        let elapsed = (now_ms - start_ms) / 1000;
        if elapsed >= 30 {
            0
        } else {
            30 - elapsed
        }
    }
}

/// The rough words-per-minute estimate shown while the round runs: five
/// characters count as one word, and the 30-second window is doubled to a
/// per-minute rate, in exactly this order of integer divisions.
pub fn wpm_estimate(chars_correct: usize) -> (r: usize)
    ensures
        r == chars_correct as int / 5 * 2,
{
    chars_correct / 5 * 2
}

/// Gross words per minute over a completed round: every typed-and-scored
/// character counts, correct or not, five characters to a word, doubled to a
/// per-minute rate and truncated.
pub fn gross_wpm(chars_correct: usize, chars_wrong: usize) -> (r: usize)
    ensures
        r == 2 * (chars_correct + chars_wrong) / 5,
{
    let total: u128 = chars_correct as u128 + chars_wrong as u128;
    let scaled: u128 = 2 * total / 5;
    proof {
        assert(2 * total / 5 <= total) by (nonlinear_arith);
    }
    scaled as usize
}

/// The final score of a completed round: gross words per minute times
/// accuracy, truncated to an integer for display. In exact arithmetic
/// `(2 * (correct + wrong) / 5) * (correct / (correct + wrong))` is
/// `2 * correct / 5`, which also settles the round without a single scored
/// character — accuracy has no defined value there, and the score is zero.
pub fn adjusted_wpm(chars_correct: usize, chars_wrong: usize) -> (r: usize)
    ensures
        r == 2 * chars_correct / 5,
{
    let scaled: u128 = 2 * (chars_correct as u128) / 5;
    proof {
        assert(2 * (chars_correct as u128) / 5 <= chars_correct) by (nonlinear_arith);
    }
    scaled as usize
}

/// How the word at the front of the queue is rendered against the buffer
/// typed so far: `None` when some already-typed position disagrees with the
/// target — the whole word is drawn as wrong — and otherwise `Some(k)`,
/// where the first `k` characters of the target are the ones typed and
/// confirmed so far and are drawn as correct.
pub fn word_progress(target: &str, typed: &str) -> (r: Option<usize>)
    ensures
        ({
            let n = min(target@.len() as int, typed@.len() as int);
            match r {
                None => exists|i: int| 0 <= i < n && target@[i] != typed@[i],
                Some(k) => k == n && forall|i: int| 0 <= i < n ==> target@[i] == typed@[i],
            }
        }),
{
    let t_len = target.unicode_len();
    let u_len = typed.unicode_len();
    let n = if t_len < u_len {
        t_len
    } else {
        u_len
    };
    let mut i: usize = 0;
    while i < n
        invariant
            n == min(target@.len() as int, typed@.len() as int),
            i <= n,
            n <= target@.len(),
            n <= typed@.len(),
            forall|j: int| 0 <= j < i ==> target@[j] == typed@[j],
        decreases n - i,
    {
        if target.get_char(i) != typed.get_char(i) {
            return None;
        }
        i = i + 1;
    }
    Some(n)
}

} // verus!
