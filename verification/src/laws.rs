//! Laws of the state machine, stated over its transition functions and
//! proved once and for all.

use crate::controller::{
    lemma_correct_prefix_bounds, spec_backspace, spec_key, spec_submit, spec_tick,
};
use crate::events::KeyInput;
use crate::model::{ModelView, RoundState, ROUND_MILLIS};
use vstd::prelude::*;

verus! {

/// Ticking is idempotent past the deadline: once a tick has completed the
/// round, the state is Completed with an empty queue, and every further
/// tick — however many are delivered, and whatever time they carry —
/// changes nothing at all.
pub proof fn lemma_tick_idempotent(m: ModelView, now1_ms: u64, now2_ms: u64)
    requires
        m.round_state == RoundState::Active,
        now1_ms >= m.start + ROUND_MILLIS,
    ensures
        spec_tick(m, now1_ms).round_state == RoundState::Completed,
        spec_tick(m, now1_ms).word_queue.len() == 0,
        spec_tick(spec_tick(m, now1_ms), now2_ms) == spec_tick(m, now1_ms),
{
}

/// A tick never touches the counters, the logs or the typed buffer.
pub proof fn lemma_tick_preserves_score(m: ModelView, now_ms: u64)
    ensures
        spec_tick(m, now_ms).chars_correct == m.chars_correct,
        spec_tick(m, now_ms).chars_wrong == m.chars_wrong,
        spec_tick(m, now_ms).words_tried == m.words_tried,
        spec_tick(m, now_ms).words_entered == m.words_entered,
        spec_tick(m, now_ms).word_typing == m.word_typing,
{
}

/// Submitting with an empty word queue leaves every counter and both logs
/// unchanged and only clears the typed buffer.
pub proof fn lemma_submit_empty_queue(m: ModelView)
    requires
        m.word_queue.len() == 0,
    ensures
        spec_submit(m) == (ModelView { word_typing: Seq::<char>::empty(), ..m }),
{
}

/// The two attempt logs grow in lockstep: a submission appends exactly one
/// entry to each when a target word existed, and none to either otherwise.
pub proof fn lemma_submit_logs_lockstep(m: ModelView)
    ensures
        m.word_queue.len() > 0 ==> spec_submit(m).words_tried == m.words_tried.push(
            m.word_queue[0],
        ) && spec_submit(m).words_entered == m.words_entered.push(m.word_typing),
        m.word_queue.len() == 0 ==> spec_submit(m).words_tried == m.words_tried && spec_submit(
            m,
        ).words_entered == m.words_entered,
        m.words_tried.len() == m.words_entered.len() ==> spec_submit(m).words_tried.len()
            == spec_submit(m).words_entered.len(),
{
}

/// Within a round the counters never decrease: neither a tick nor any key
/// press outside a confirmation can lower them.
pub proof fn lemma_counters_monotone(m: ModelView, key: KeyInput, shift: bool, now_ms: u64)
    requires
        m.chars_correct >= 0,
        m.chars_wrong >= 0,
    ensures
        spec_tick(m, now_ms).chars_correct >= m.chars_correct,
        spec_tick(m, now_ms).chars_wrong >= m.chars_wrong,
        spec_key(m, key, shift, now_ms).chars_correct >= m.chars_correct,
        spec_key(m, key, shift, now_ms).chars_wrong >= m.chars_wrong,
        spec_backspace(m).chars_correct == m.chars_correct,
        spec_backspace(m).chars_wrong == m.chars_wrong,
{
    if m.word_queue.len() > 0 {
        let target = m.word_queue[0];
        let n = vstd::math::min(target.len() as int, m.word_typing.len() as int);
        lemma_correct_prefix_bounds(target, m.word_typing, n);
    }
}

} // verus!
