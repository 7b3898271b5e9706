//! The game data: the word queue, the typed buffer, the attempt logs and the
//! score counters, together with their mathematical model and invariant.

use std::collections::VecDeque;
use vstd::prelude::*;

verus! {

/// Number of words sampled into the queue for each round.
pub const ROUND_WORDS: usize = 200;

/// Length of one round, in milliseconds.
pub const ROUND_MILLIS: u64 = 30000;

/// Where a round stands: not yet started, running, or over.
#[derive(Clone, Copy, PartialEq, Eq, Structural, Debug)]
pub enum RoundState {
    Stopped,
    Active,
    Completed,
}

/// Mathematical model of the game data: words are character sequences,
/// counters and the start instant are unbounded integers.
#[verifier::ext_equal]
pub struct ModelView {
    pub word_queue: Seq<Seq<char>>,
    pub word_typing: Seq<char>,
    pub words_tried: Seq<Seq<char>>,
    pub words_entered: Seq<Seq<char>>,
    pub chars_correct: int,
    pub chars_wrong: int,
    pub start: int,
    pub round_state: RoundState,
    pub dict: Seq<Seq<char>>,
}

/// Total number of characters over a sequence of words.
pub open spec fn total_chars(words: Seq<Seq<char>>) -> int
    decreases words.len(),
{
    if words.len() == 0 {
        0
    } else {
        words[0].len() + total_chars(words.drop_first())
    }
}

pub proof fn lemma_total_chars_nonneg(words: Seq<Seq<char>>)
    ensures
        total_chars(words) >= 0,
    decreases words.len(),
{
    if words.len() > 0 {
        lemma_total_chars_nonneg(words.drop_first());
    }
}

impl ModelView {
    /// The invariant every reachable model satisfies: the two attempt logs
    /// grow in lockstep, the typed buffer never holds the delimiter and is
    /// empty while no round has started, a completed round has a drained
    /// queue, and the counters can never outgrow the machine word, because
    /// they and the characters still waiting in the queue fit it together.
    pub open spec fn wf(self) -> bool {
        &&& self.words_tried.len() == self.words_entered.len()
        &&& forall|i: int| 0 <= i < self.word_typing.len() ==> self.word_typing[i] != ' '
        &&& (self.round_state == RoundState::Stopped ==> self.word_typing.len() == 0)
        &&& (self.round_state == RoundState::Completed ==> self.word_queue.len() == 0)
        &&& 0 <= self.chars_correct
        &&& 0 <= self.chars_wrong
        &&& 0 <= self.start
        &&& self.chars_correct + self.chars_wrong + total_chars(self.word_queue) <= usize::MAX
        &&& total_chars(self.dict) <= usize::MAX
    }
}

/// All the data relevant to the UI and the game state.
pub struct Model {
    /// Words still to be entered by the user, consumed from the front.
    pub word_queue: VecDeque<String>,
    /// Characters entered by the user since the last delimiter.
    pub word_typing: String,
    /// The target words the user attempted, one per submission.
    pub words_tried: Vec<String>,
    /// The words as the user actually typed them, one per submission.
    pub words_entered: Vec<String>,
    pub chars_correct: usize,
    pub chars_wrong: usize,
    /// Time of the round start, in milliseconds.
    pub start: u64,
    /// Current state of the round.
    pub round_state: RoundState,
    /// The dictionary the word queue is sampled from. Only read, never
    /// replaced, once the controller owns the model.
    pub dict: Vec<String>,
}

impl View for Model {
    type V = ModelView;

    open spec fn view(&self) -> ModelView {
        ModelView {
            word_queue: self.word_queue.deep_view(),
            word_typing: self.word_typing@,
            words_tried: self.words_tried.deep_view(),
            words_entered: self.words_entered.deep_view(),
            chars_correct: self.chars_correct as int,
            chars_wrong: self.chars_wrong as int,
            start: self.start as int,
            round_state: self.round_state,
            dict: self.dict.deep_view(),
        }
    }
}

impl Model {
    /// The empty model: nothing sampled, nothing typed, nothing scored.
    pub fn default() -> (m: Model)
        ensures
            m@.wf(),
            m@.word_queue.len() == 0,
            m@.word_typing.len() == 0,
            m@.words_tried.len() == 0,
            m@.words_entered.len() == 0,
            m@.chars_correct == 0,
            m@.chars_wrong == 0,
            m@.start == 0,
            m@.round_state == RoundState::Stopped,
            m@.dict.len() == 0,
    {
        Model {
            word_queue: VecDeque::new(),
            word_typing: String::new(),
            words_tried: Vec::new(),
            words_entered: Vec::new(),
            chars_correct: 0,
            chars_wrong: 0,
            start: 0,
            round_state: RoundState::Stopped,
            dict: Vec::new(),
        }
    }

    /// A fresh ring buffer of words for one round, drawn from the dictionary
    /// at random and without repetition; shorter than asked for when the
    /// dictionary itself is.
    pub fn new_word_list(dict: &Vec<String>, num_words: usize) -> (r: VecDeque<String>)
        ensures
            r.deep_view().len() == vstd::math::min(num_words as int, dict.deep_view().len() as int),
            r.deep_view().to_multiset().subset_of(dict.deep_view().to_multiset()),
            total_chars(r.deep_view()) <= total_chars(dict.deep_view()),
    {
        crate::sampler::choose_random_words(dict, num_words)
    }
}

} // verus!
