//! The typing-test state machine: the controller owns the model and is the
//! only writer of it. Each entry point is specified by a transition function
//! over the mathematical model.

use crate::events::{KeyInput, UIEvent};
use crate::model::{
    lemma_total_chars_nonneg, total_chars, Model, ModelView, RoundState, ROUND_MILLIS, ROUND_WORDS,
};
use vstd::math::min;
use vstd::prelude::*;
use vstd::string::StrSliceExecFns;

verus! {

/// How many of the first `n` positions of `typed` agree with `target`.
pub open spec fn spec_correct_prefix(target: Seq<char>, typed: Seq<char>, n: int) -> int
    decreases n,
{
    if n <= 0 {
        0
    } else {
        spec_correct_prefix(target, typed, n - 1) + if target[n - 1] == typed[n - 1] {
            1int
        } else {
            0int
        }
    }
}

/// Positions scored as correct when `typed` is submitted against `target`:
/// the agreeing positions up to the length of the shorter word. Characters
/// of the longer word past that length are not scored at all.
pub open spec fn spec_correct(target: Seq<char>, typed: Seq<char>) -> int {
    spec_correct_prefix(target, typed, min(target.len() as int, typed.len() as int))
}

/// Positions scored as wrong: the compared positions that disagree.
pub open spec fn spec_wrong(target: Seq<char>, typed: Seq<char>) -> int {
    min(target.len() as int, typed.len() as int) - spec_correct(target, typed)
}

pub proof fn lemma_correct_prefix_bounds(target: Seq<char>, typed: Seq<char>, n: int)
    ensures
        0 <= spec_correct_prefix(target, typed, n),
        n >= 0 ==> spec_correct_prefix(target, typed, n) <= n,
    decreases n,
{
    if n > 0 {
        lemma_correct_prefix_bounds(target, typed, n - 1);
    }
}

/// What a submission does to the model: with an empty queue it only discards
/// the typed buffer; otherwise it scores the buffer against the front word,
/// logs both, pops the front and clears the buffer.
pub open spec fn spec_submit(m: ModelView) -> ModelView {
    if m.word_queue.len() == 0 {
        ModelView { word_typing: Seq::<char>::empty(), ..m }
    } else {
        let target = m.word_queue[0];
        ModelView {
            word_queue: m.word_queue.drop_first(),
            word_typing: Seq::<char>::empty(),
            words_tried: m.words_tried.push(target),
            words_entered: m.words_entered.push(m.word_typing),
            chars_correct: m.chars_correct + spec_correct(target, m.word_typing),
            chars_wrong: m.chars_wrong + spec_wrong(target, m.word_typing),
            ..m
        }
    }
}

/// What a tick does to the model: during an active round whose deadline has
/// passed, the round completes and the queue is drained; in every other case
/// nothing changes.
pub open spec fn spec_tick(m: ModelView, now_ms: u64) -> ModelView {
    if m.round_state == RoundState::Active && now_ms >= m.start + ROUND_MILLIS {
        ModelView {
            round_state: RoundState::Completed,
            word_queue: Seq::<Seq<char>>::empty(),
            ..m
        }
    } else {
        m
    }
}

/// What a backspace does to the model: it removes the last character of the
/// typed buffer, if there is one.
pub open spec fn spec_backspace(m: ModelView) -> ModelView {
    if m.word_typing.len() > 0 {
        ModelView { word_typing: m.word_typing.drop_last(), ..m }
    } else {
        m
    }
}

/// The character actually recorded for a key press: with shift held an ASCII
/// lowercase letter becomes its uppercase counterpart, anything else is
/// unchanged.
pub open spec fn spec_shift_char(c: char, shift: bool) -> char {
    if shift && 97 <= c as u32 && c as u32 <= 122 {
        ((c as u32 - 32) as u8) as char
    } else {
        c
    }
}

/// Whether a key press confirms a completed round; that transition resamples
/// the queue at random and is therefore specified by `spec_confirm_reset`
/// rather than by `spec_key`.
pub open spec fn confirm_case(m: ModelView, key: KeyInput) -> bool {
    key is Enter && m.round_state == RoundState::Completed
}

/// What every key press other than a confirmation does to the model. A
/// character is shifted first; the delimiter submits in any state but
/// Completed; any other character starts the round when none is running —
/// capturing the start instant — and is then appended to the typed buffer.
/// While the round is Completed, characters have no effect.
pub open spec fn spec_key(m: ModelView, key: KeyInput, shift: bool, now_ms: u64) -> ModelView {
    match key {
        KeyInput::Escape => m,
        KeyInput::Backspace => spec_backspace(m),
        KeyInput::Enter => m,
        KeyInput::Character(c) => {
            if m.round_state == RoundState::Completed {
                m
            } else {
                let ch = spec_shift_char(c, shift);
                if ch == ' ' {
                    spec_submit(m)
                } else {
                    let started = if m.round_state == RoundState::Stopped {
                        ModelView { round_state: RoundState::Active, start: now_ms as int, ..m }
                    } else {
                        m
                    };
                    ModelView { word_typing: started.word_typing.push(ch), ..started }
                }
            }
        },
        KeyInput::Other => m,
    }
}

/// What confirming a completed round guarantees: a freshly sampled queue —
/// drawn from the dictionary without repetition, in an order chosen by the
/// generator — and counters, logs and typed buffer all reset, with the round
/// back at Stopped. The dictionary and the old start instant are kept.
pub open spec fn spec_confirm_reset(pre: ModelView, post: ModelView) -> bool {
    &&& post.dict == pre.dict
    &&& post.start == pre.start
    &&& post.round_state == RoundState::Stopped
    &&& post.chars_correct == 0
    &&& post.chars_wrong == 0
    &&& post.words_tried.len() == 0
    &&& post.words_entered.len() == 0
    &&& post.word_typing.len() == 0
    &&& post.word_queue.len() == min(ROUND_WORDS as int, pre.dict.len() as int)
    &&& post.word_queue.to_multiset().subset_of(pre.dict.to_multiset())
}

/// Apply the shift modifier: an ASCII lowercase letter
/// becomes its uppercase counterpart, anything else is unchanged.
pub fn shift_char(c: char, shift: bool) -> (r: char)
    ensures
        r == spec_shift_char(c, shift),
{
    let u = c as u32;
    if shift && u >= 97 && u <= 122 {
        ((u - 32) as u8) as char
    } else {
        c
    }
}

/// The controller is the single interface layer over the game data: the
/// model can be read through it but is modified only by its entry points.
pub struct Controller {
    pub model: Model,
}

impl Controller {
    pub open spec fn wf(self) -> bool {
        self.model@.wf()
    }

    /// Build the controller that owns the game state: the dictionary is held
    /// read-only and a first word queue is sampled from it. The dictionary
    /// must fit the machine word in total characters, so that the score
    /// counters can never overflow.
    pub fn new(dict: Vec<String>) -> (c: Controller)
        requires
            total_chars(dict.deep_view()) <= usize::MAX,
        ensures
            c.wf(),
            c.model@.dict == dict.deep_view(),
            c.model@.word_queue.len() == min(ROUND_WORDS as int, dict.deep_view().len() as int),
            c.model@.word_queue.to_multiset().subset_of(dict.deep_view().to_multiset()),
            c.model@.word_typing.len() == 0,
            c.model@.words_tried.len() == 0,
            c.model@.words_entered.len() == 0,
            c.model@.chars_correct == 0,
            c.model@.chars_wrong == 0,
            c.model@.start == 0,
            c.model@.round_state == RoundState::Stopped,
    {
        let word_queue = Model::new_word_list(&dict, ROUND_WORDS);
        proof {
            lemma_total_chars_nonneg(word_queue.deep_view());
        }
        let model = Model {
            word_queue,
            word_typing: String::new(),
            words_tried: Vec::new(),
            words_entered: Vec::new(),
            chars_correct: 0,
            chars_wrong: 0,
            start: 0,
            round_state: RoundState::Stopped,
            dict,
        };
        Controller { model }
    }

    /// Advance time to `now_ms`: the tick entry point of the event loop.
    /// The counters and the logs are never touched by a tick.
    pub fn update(&mut self, now_ms: u64)
        requires
            old(self).wf(),
        ensures
            final(self).wf(),
            final(self).model@ == spec_tick(old(self).model@, now_ms),
            final(self).model@.chars_correct == old(self).model@.chars_correct,
            final(self).model@.chars_wrong == old(self).model@.chars_wrong,
            final(self).model@.words_tried == old(self).model@.words_tried,
            final(self).model@.words_entered == old(self).model@.words_entered,
    {
        let ghost m0 = self.model@;
        if self.model.round_state == RoundState::Active && now_ms >= ROUND_MILLIS
            && self.model.start <= now_ms - ROUND_MILLIS {
            self.end_round();
            proof {
                assert(self.model@ =~= spec_tick(m0, now_ms));
            }
        } else {
            proof {
                assert(self.model@ == spec_tick(m0, now_ms));
            }
        }
    }

    /// Complete the round: the state becomes Completed and the words still
    /// waiting in the queue are dropped. Logs, counters and the typed buffer
    /// are left intact as final-state evidence.
    pub fn end_round(&mut self)
        requires
            old(self).wf(),
        ensures
            final(self).wf(),
            final(self).model@ == (ModelView {
                round_state: RoundState::Completed,
                word_queue: Seq::<Seq<char>>::empty(),
                ..old(self).model@
            }),
    {
        let ghost m0 = self.model@;
        self.model.round_state = RoundState::Completed;
        self.model.word_queue.clear();
        proof {
            lemma_total_chars_nonneg(m0.word_queue);
            assert(self.model@ =~= (ModelView {
                round_state: RoundState::Completed,
                word_queue: Seq::<Seq<char>>::empty(),
                ..m0
            }));
        }
    }

    /// Submit the typed buffer against the front of the queue. With an empty
    /// queue there is no target to score against and the buffer is simply
    /// discarded. Otherwise each position up to the shorter of the two words
    /// is scored — a match counts as correct, a mismatch as wrong, unscored
    /// past the shorter length — then both words are logged, the front is
    /// popped and the buffer cleared. The counters never decrease.
    pub fn submit_word(&mut self)
        requires
            old(self).wf(),
        ensures
            final(self).wf(),
            final(self).model@ == spec_submit(old(self).model@),
            final(self).model@.chars_correct >= old(self).model@.chars_correct,
            final(self).model@.chars_wrong >= old(self).model@.chars_wrong,
            old(self).model@.word_queue.len() == 0 ==> final(self).model@ == (ModelView {
                word_typing: Seq::<char>::empty(),
                ..old(self).model@
            }),
    {
        let ghost m0 = self.model@;
        let front = self.model.word_queue.pop_front();
        match front {
            None => {
                self.model.word_typing.clear();
                proof {
                    assert(self.model@ =~= spec_submit(m0));
                }
            },
            Some(target) => {
                proof {
                    assert(m0.word_queue.len() > 0);
                    assert(target@ == m0.word_queue[0]);
                    assert(self.model.word_queue.deep_view() =~= m0.word_queue.drop_first());
                    lemma_total_chars_nonneg(m0.word_queue.drop_first());
                    assert(total_chars(m0.word_queue) == m0.word_queue[0].len() + total_chars(
                        m0.word_queue.drop_first(),
                    ));
                }
                let t_len = target.as_str().unicode_len();
                let u_len = self.model.word_typing.as_str().unicode_len();
                let n = if t_len < u_len {
                    t_len
                } else {
                    u_len
                };
                let mut i: usize = 0;
                while i < n
                    invariant
                        n == min(target@.len() as int, m0.word_typing.len() as int),
                        i <= n,
                        n <= target@.len(),
                        n <= m0.word_typing.len(),
                        target@ == m0.word_queue[0],
                        target@.len() <= total_chars(m0.word_queue),
                        self.model.word_typing@ == m0.word_typing,
                        self.model.word_queue.deep_view() == m0.word_queue.drop_first(),
                        self.model.words_tried.deep_view() == m0.words_tried,
                        self.model.words_entered.deep_view() == m0.words_entered,
                        self.model.round_state == m0.round_state,
                        self.model.start == m0.start,
                        self.model.dict.deep_view() == m0.dict,
                        self.model.chars_correct == m0.chars_correct + spec_correct_prefix(
                            target@,
                            m0.word_typing,
                            i as int,
                        ),
                        self.model.chars_correct + self.model.chars_wrong == m0.chars_correct
                            + m0.chars_wrong + i,
                        m0.chars_correct + m0.chars_wrong + total_chars(m0.word_queue)
                            <= usize::MAX,
                        m0.chars_correct >= 0,
                        m0.chars_wrong >= 0,
                    decreases n - i,
                {
                    let tc = target.as_str().get_char(i);
                    let uc = self.model.word_typing.as_str().get_char(i);
                    if tc == uc {
                        self.model.chars_correct = self.model.chars_correct + 1;
                    } else {
                        self.model.chars_wrong = self.model.chars_wrong + 1;
                    }
                    i = i + 1;
                }
                proof {
                    lemma_correct_prefix_bounds(target@, m0.word_typing, n as int);
                    assert(self.model.chars_correct == m0.chars_correct + spec_correct(
                        target@,
                        m0.word_typing,
                    ));
                    assert(self.model.chars_wrong == m0.chars_wrong + spec_wrong(
                        target@,
                        m0.word_typing,
                    ));
                }
                let entered = self.model.word_typing.clone();
                self.model.words_entered.push(entered);
                self.model.word_typing.clear();
                self.model.words_tried.push(target);
                proof {
                    assert(self.model.words_entered.deep_view() =~= m0.words_entered.push(
                        m0.word_typing,
                    ));
                    assert(self.model.words_tried.deep_view() =~= m0.words_tried.push(
                        m0.word_queue[0],
                    ));
                    assert(self.model@ =~= spec_submit(m0));
                }
            },
        }
    }

    /// Apply one key press. `now_ms` is the current time, captured as the
    /// round start when the first character of a round is typed. Returns
    /// true exactly when the key asks the surrounding program to shut down.
    /// Outside a confirmation the counters never decrease; a confirmation
    /// resets them to zero.
    pub fn handle_key_event(&mut self, key: KeyInput, shift: bool, now_ms: u64) -> (exit: bool)
        requires
            old(self).wf(),
        ensures
            final(self).wf(),
            exit == (key is Escape),
            !confirm_case(old(self).model@, key) ==> final(self).model@ == spec_key(
                old(self).model@,
                key,
                shift,
                now_ms,
            ),
            confirm_case(old(self).model@, key) ==> spec_confirm_reset(
                old(self).model@,
                final(self).model@,
            ),
            !confirm_case(old(self).model@, key) ==> {
                &&& final(self).model@.chars_correct >= old(self).model@.chars_correct
                &&& final(self).model@.chars_wrong >= old(self).model@.chars_wrong
            },
            confirm_case(old(self).model@, key) ==> {
                &&& final(self).model@.chars_correct == 0
                &&& final(self).model@.chars_wrong == 0
            },
    {
        let ghost m0 = self.model@;
        match key {
            KeyInput::Escape => true,
            KeyInput::Backspace => {
                self.model.word_typing.pop();
                proof {
                    assert(self.model@ =~= spec_backspace(m0));
                }
                false
            },
            KeyInput::Enter => {
                if self.model.round_state == RoundState::Completed {
                    let fresh = Model::new_word_list(&self.model.dict, ROUND_WORDS);
                    proof {
                        lemma_total_chars_nonneg(fresh.deep_view());
                    }
                    self.model.word_queue = fresh;
                    self.model.chars_correct = 0;
                    self.model.chars_wrong = 0;
                    self.model.words_entered.clear();
                    self.model.words_tried.clear();
                    self.model.word_typing.clear();
                    self.model.round_state = RoundState::Stopped;
                }
                false
            },
            KeyInput::Character(c) => {
                if self.model.round_state != RoundState::Completed {
                    let ch = shift_char(c, shift);
                    if ch == ' ' {
                        self.submit_word();
                    } else {
                        if self.model.round_state == RoundState::Stopped {
                            self.model.round_state = RoundState::Active;
                            self.model.start = now_ms;
                        }
                        self.model.word_typing.push(ch);
                        proof {
                            assert(self.model@ =~= spec_key(m0, key, shift, now_ms));
                        }
                    }
                }
                false
            },
            KeyInput::Other => false,
        }
    }

    /// One step of the dispatch loop: route one consumed event to the state
    /// machine. Returns true when the surrounding program should stop — on
    /// the global kill combination, which is never forwarded to the state
    /// machine, or on an escape request coming back from the key handler.
    pub fn dispatch(&mut self, event: UIEvent, now_ms: u64) -> (quit: bool)
        requires
            old(self).wf(),
        ensures
            final(self).wf(),
            match event {
                UIEvent::Input(kp) => {
                    if kp.ctrl && kp.code == KeyInput::Character('c') {
                        quit && final(self).model@ == old(self).model@
                    } else {
                        &&& quit == (kp.code is Escape)
                        &&& !confirm_case(old(self).model@, kp.code) ==> final(self).model@
                            == spec_key(old(self).model@, kp.code, kp.shift, now_ms)
                        &&& confirm_case(old(self).model@, kp.code) ==> spec_confirm_reset(
                            old(self).model@,
                            final(self).model@,
                        )
                    }
                },
                UIEvent::Tick => !quit && final(self).model@ == spec_tick(
                    old(self).model@,
                    now_ms,
                ),
            },
    {
        match event {
            UIEvent::Input(kp) => {
                if kp.ctrl {
                    if let KeyInput::Character(ch0) = kp.code {
                        if ch0 == 'c' {
                            return true;
                        }
                    }
                }
                self.handle_key_event(kp.code, kp.shift, now_ms)
            },
            UIEvent::Tick => {
                self.update(now_ms);
                false
            },
        }
    }
}

} // verus!
