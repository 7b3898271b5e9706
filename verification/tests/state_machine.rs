use typing_test::controller::Controller;
use typing_test::events::KeyInput;
use typing_test::model::RoundState;

fn controller_with(words: &[&str]) -> Controller {
    let dict: Vec<String> = words.iter().map(|w| w.to_string()).collect();
    Controller::new(dict)
}

fn type_word(c: &mut Controller, word: &str, now_ms: u64) {
    for ch in word.chars() {
        let exit = c.handle_key_event(KeyInput::Character(ch), false, now_ms);
        assert!(!exit);
    }
}

fn submit(c: &mut Controller, now_ms: u64) {
    let exit = c.handle_key_event(KeyInput::Character(' '), false, now_ms);
    assert!(!exit);
}

#[test]
fn first_character_starts_round() {
    let mut c = controller_with(&["cat"]);
    assert_eq!(c.model.round_state, RoundState::Stopped);
    let exit = c.handle_key_event(KeyInput::Character('h'), false, 5000);
    assert!(!exit);
    assert_eq!(c.model.round_state, RoundState::Active);
    assert_eq!(c.model.start, 5000);
    assert_eq!(c.model.word_typing, "h");
}

#[test]
fn submit_exact_match_scores_all_correct() {
    let mut c = controller_with(&["cat"]);
    type_word(&mut c, "cat", 0);
    submit(&mut c, 10);
    assert_eq!(c.model.chars_correct, 3);
    assert_eq!(c.model.chars_wrong, 0);
    assert!(c.model.word_queue.is_empty());
    assert_eq!(c.model.words_tried, vec!["cat".to_string()]);
    assert_eq!(c.model.words_entered, vec!["cat".to_string()]);
    assert_eq!(c.model.word_typing, "");
}

#[test]
fn submit_with_one_mismatch() {
    let mut c = controller_with(&["cat"]);
    type_word(&mut c, "cag", 0);
    submit(&mut c, 10);
    assert_eq!(c.model.chars_correct, 2);
    assert_eq!(c.model.chars_wrong, 1);
}

#[test]
fn submit_shorter_word_leaves_tail_unscored() {
    let mut c = controller_with(&["cat"]);
    type_word(&mut c, "ca", 0);
    submit(&mut c, 10);
    assert_eq!(c.model.chars_correct, 2);
    assert_eq!(c.model.chars_wrong, 0);
}

#[test]
fn submit_longer_word_leaves_tail_unscored() {
    let mut c = controller_with(&["cat"]);
    type_word(&mut c, "cattle", 0);
    submit(&mut c, 10);
    assert_eq!(c.model.chars_correct, 3);
    assert_eq!(c.model.chars_wrong, 0);
    assert_eq!(c.model.words_entered, vec!["cattle".to_string()]);
}

#[test]
fn submit_with_empty_queue_only_clears_buffer() {
    let mut c = controller_with(&[]);
    assert!(c.model.word_queue.is_empty());
    type_word(&mut c, "ab", 0);
    submit(&mut c, 10);
    assert_eq!(c.model.chars_correct, 0);
    assert_eq!(c.model.chars_wrong, 0);
    assert!(c.model.words_tried.is_empty());
    assert!(c.model.words_entered.is_empty());
    assert_eq!(c.model.word_typing, "");
    assert_eq!(c.model.round_state, RoundState::Active);
}

#[test]
fn tick_before_deadline_changes_nothing() {
    let mut c = controller_with(&["cat"]);
    type_word(&mut c, "c", 1000);
    c.update(1000 + 29_999);
    assert_eq!(c.model.round_state, RoundState::Active);
    assert_eq!(c.model.word_queue.len(), 1);
}

#[test]
fn tick_after_deadline_completes_round() {
    let mut c = controller_with(&["cat", "dog"]);
    type_word(&mut c, "ca", 1000);
    let correct = c.model.chars_correct;
    let wrong = c.model.chars_wrong;
    c.update(1000 + 30_000);
    assert_eq!(c.model.round_state, RoundState::Completed);
    assert!(c.model.word_queue.is_empty());
    assert_eq!(c.model.chars_correct, correct);
    assert_eq!(c.model.chars_wrong, wrong);
    assert!(c.model.words_tried.is_empty());
    assert!(c.model.words_entered.is_empty());
    assert_eq!(c.model.word_typing, "ca");
}

#[test]
fn extra_ticks_after_completion_are_no_ops() {
    let mut c = controller_with(&["cat"]);
    type_word(&mut c, "x", 0);
    c.update(30_000);
    assert_eq!(c.model.round_state, RoundState::Completed);
    for extra in [30_001u64, 45_000, 90_000, 0] {
        c.update(extra);
        assert_eq!(c.model.round_state, RoundState::Completed);
        assert!(c.model.word_queue.is_empty());
        assert_eq!(c.model.word_typing, "x");
    }
}

#[test]
fn tick_in_stopped_state_is_no_op() {
    let mut c = controller_with(&["cat"]);
    c.update(100_000);
    assert_eq!(c.model.round_state, RoundState::Stopped);
    assert_eq!(c.model.word_queue.len(), 1);
}

#[test]
fn characters_have_no_effect_while_completed() {
    let mut c = controller_with(&["cat"]);
    type_word(&mut c, "x", 0);
    c.update(30_000);
    type_word(&mut c, "yz", 40_000);
    submit(&mut c, 40_001);
    assert_eq!(c.model.word_typing, "x");
    assert_eq!(c.model.round_state, RoundState::Completed);
    assert!(c.model.words_entered.is_empty());
}

#[test]
fn backspace_removes_last_character() {
    let mut c = controller_with(&["cat"]);
    type_word(&mut c, "ca", 0);
    c.handle_key_event(KeyInput::Backspace, false, 10);
    assert_eq!(c.model.word_typing, "c");
    c.handle_key_event(KeyInput::Backspace, false, 10);
    c.handle_key_event(KeyInput::Backspace, false, 10);
    assert_eq!(c.model.word_typing, "");
}

#[test]
fn shift_uppercases_ascii_letters() {
    let mut c = controller_with(&["cat"]);
    c.handle_key_event(KeyInput::Character('h'), true, 0);
    c.handle_key_event(KeyInput::Character('1'), true, 0);
    c.handle_key_event(KeyInput::Character('Z'), false, 0);
    assert_eq!(c.model.word_typing, "H1Z");
}

#[test]
fn enter_confirms_only_a_completed_round() {
    let mut c = controller_with(&["cat"]);
    type_word(&mut c, "cat", 0);
    submit(&mut c, 5);
    c.handle_key_event(KeyInput::Enter, false, 10);
    assert_eq!(c.model.round_state, RoundState::Active);
    assert_eq!(c.model.chars_correct, 3);
    c.update(30_000);
    assert_eq!(c.model.round_state, RoundState::Completed);
    let exit = c.handle_key_event(KeyInput::Enter, false, 40_000);
    assert!(!exit);
    assert_eq!(c.model.round_state, RoundState::Stopped);
    assert_eq!(c.model.chars_correct, 0);
    assert_eq!(c.model.chars_wrong, 0);
    assert!(c.model.words_tried.is_empty());
    assert!(c.model.words_entered.is_empty());
    assert_eq!(c.model.word_typing, "");
    assert_eq!(c.model.word_queue.len(), 1);
    assert_eq!(c.model.word_queue.front().unwrap(), "cat");
}

#[test]
fn escape_requests_exit_without_touching_state() {
    let mut c = controller_with(&["cat"]);
    type_word(&mut c, "ca", 0);
    let exit = c.handle_key_event(KeyInput::Escape, false, 10);
    assert!(exit);
    assert_eq!(c.model.word_typing, "ca");
    assert_eq!(c.model.round_state, RoundState::Active);
}

#[test]
fn ignored_keys_change_nothing() {
    let mut c = controller_with(&["cat"]);
    let exit = c.handle_key_event(KeyInput::Other, false, 0);
    assert!(!exit);
    assert_eq!(c.model.round_state, RoundState::Stopped);
    assert_eq!(c.model.word_typing, "");
}

#[test]
fn counters_never_decrease_within_a_round() {
    let mut c = controller_with(&["aa"]);
    let mut last = (0usize, 0usize);
    for (word, now) in [("ab", 10u64), ("aa", 20), ("zz", 30)] {
        type_word(&mut c, word, now);
        submit(&mut c, now + 1);
        let cur = (c.model.chars_correct, c.model.chars_wrong);
        assert!(cur.0 >= last.0 && cur.1 >= last.1);
        last = cur;
    }
}

#[test]
fn attempt_logs_stay_in_lockstep() {
    let mut c = controller_with(&["one", "two", "three"]);
    for (word, now) in [("one", 10u64), ("", 20), ("xxx", 30), ("three", 40)] {
        type_word(&mut c, word, now);
        submit(&mut c, now + 1);
        assert_eq!(c.model.words_tried.len(), c.model.words_entered.len());
    }
}
