use typing_test::dictionary::parse_dictionary;
use typing_test::metrics::{adjusted_wpm, gross_wpm, remaining_seconds, wpm_estimate, word_progress};

#[test]
fn remaining_seconds_counts_down_from_thirty() {
    assert_eq!(remaining_seconds(1000, 1000), 30);
    assert_eq!(remaining_seconds(1999, 1000), 30);
    assert_eq!(remaining_seconds(2000, 1000), 29);
    assert_eq!(remaining_seconds(1000 + 29_999, 1000), 1);
    assert_eq!(remaining_seconds(1000 + 30_000, 1000), 0);
    assert_eq!(remaining_seconds(1000 + 90_000, 1000), 0);
    assert_eq!(remaining_seconds(500, 1000), 30);
}

#[test]
fn wpm_estimate_divides_then_doubles() {
    assert_eq!(wpm_estimate(0), 0);
    assert_eq!(wpm_estimate(23), 8);
    assert_eq!(wpm_estimate(25), 10);
    assert_eq!(wpm_estimate(4), 0);
}

#[test]
fn gross_wpm_counts_wrong_characters_too() {
    assert_eq!(gross_wpm(0, 0), 0);
    assert_eq!(gross_wpm(20, 5), 10);
    assert_eq!(gross_wpm(23, 0), 9);
    assert_eq!(gross_wpm(0, 12), 4);
}

#[test]
fn adjusted_wpm_is_gross_times_accuracy_truncated() {
    assert_eq!(adjusted_wpm(0, 0), 0);
    assert_eq!(adjusted_wpm(25, 0), 10);
    assert_eq!(adjusted_wpm(25, 100), 10);
    assert_eq!(adjusted_wpm(23, 2), 9);
    assert_eq!(adjusted_wpm(2, 0), 0);
}

#[test]
fn word_progress_reports_matched_prefix() {
    assert_eq!(word_progress("cat", ""), Some(0));
    assert_eq!(word_progress("cat", "ca"), Some(2));
    assert_eq!(word_progress("cat", "cat"), Some(3));
    assert_eq!(word_progress("cat", "cattle"), Some(3));
    assert_eq!(word_progress("cat", "cag"), None);
    assert_eq!(word_progress("cat", "x"), None);
}

fn lines(ls: &[&str]) -> Vec<String> {
    ls.iter().map(|l| l.to_string()).collect()
}

#[test]
fn parse_dictionary_drops_header_through_sentinel() {
    let input = lines(&["a word list", "copyright notice", "---", "cat", "dog"]);
    let words = parse_dictionary(&input).unwrap();
    assert_eq!(words, lines(&["cat", "dog"]));
}

#[test]
fn parse_dictionary_without_sentinel_fails() {
    let input = lines(&["cat", "dog"]);
    assert!(parse_dictionary(&input).is_none());
    assert!(parse_dictionary(&lines(&[])).is_none());
}

#[test]
fn parse_dictionary_with_trailing_sentinel_yields_no_words() {
    let input = lines(&["header", "---"]);
    let words = parse_dictionary(&input).unwrap();
    assert!(words.is_empty());
}

#[test]
fn parse_dictionary_splits_at_the_first_sentinel() {
    let input = lines(&["---", "cat", "---", "dog"]);
    let words = parse_dictionary(&input).unwrap();
    assert_eq!(words, lines(&["cat", "---", "dog"]));
}
