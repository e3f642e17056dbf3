use gptcli::mode::RequestMode;
use gptcli::tokenizer::count_tokens;

#[test]
fn empty_text_counts_zero() {
    assert_eq!(count_tokens("", RequestMode::Completion).unwrap(), 0);
    assert_eq!(count_tokens("", RequestMode::Chat).unwrap(), 0);
}

#[test]
fn counting_is_idempotent() {
    let text = "The quick brown fox jumps over the lazy dog.";
    let a = count_tokens(text, RequestMode::Completion).unwrap();
    let b = count_tokens(text, RequestMode::Completion).unwrap();
    assert_eq!(a, b);
    let c = count_tokens(text, RequestMode::Chat).unwrap();
    let d = count_tokens(text, RequestMode::Chat).unwrap();
    assert_eq!(c, d);
}

#[test]
fn hello_world_is_two_tokens() {
    // "Hello" and " world" are single tokens in both vocabularies.
    assert_eq!(count_tokens("Hello world", RequestMode::Completion).unwrap(), 2);
    assert_eq!(count_tokens("Hello world", RequestMode::Chat).unwrap(), 2);
}

#[test]
fn special_tokens_are_counted_not_stripped() {
    // The end-of-text marker is a single token under the with-special-tokens
    // counting rule.
    assert_eq!(count_tokens("<|endoftext|>", RequestMode::Completion).unwrap(), 1);
}

#[test]
fn counts_grow_with_text() {
    let short = count_tokens("one", RequestMode::Completion).unwrap();
    let long = count_tokens("one two three four five six seven", RequestMode::Completion).unwrap();
    assert!(short >= 1);
    assert!(long > short);
}

#[test]
fn zero_count_only_for_empty_text() {
    assert_eq!(count_tokens("", RequestMode::Completion).unwrap(), 0);
    assert!(count_tokens("a", RequestMode::Completion).unwrap() > 0);
    assert!(count_tokens(" ", RequestMode::Completion).unwrap() > 0);
    assert!(count_tokens("a", RequestMode::Chat).unwrap() > 0);
    assert!(count_tokens(" ", RequestMode::Chat).unwrap() > 0);
}
