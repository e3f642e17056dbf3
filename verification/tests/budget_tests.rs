use gptcli::budget::budget_from_count;
use gptcli::budget::compute_max_tokens;
use gptcli::budget::BudgetError;
use gptcli::budget::CHAT_MESSAGE_OVERHEAD;
use gptcli::budget::CHAT_REPLY_PRIMING;
use gptcli::mode::select_mode;
use gptcli::mode::RequestMode;
use gptcli::tokenizer::count_tokens;
use gptcli::window::model_name_to_context_size;

#[test]
fn known_context_windows() {
    assert_eq!(model_name_to_context_size("text-davinci-003"), 4097);
    assert_eq!(model_name_to_context_size("text-curie-001"), 2048);
    assert_eq!(model_name_to_context_size("text-babbage-001"), 2048);
    assert_eq!(model_name_to_context_size("text-ada-001"), 2048);
    assert_eq!(model_name_to_context_size("code-davinci-002"), 8000);
    assert_eq!(model_name_to_context_size("code-cushman-001"), 2048);
}

#[test]
fn unknown_model_gets_default_window() {
    assert_eq!(model_name_to_context_size("gpt-3.5-turbo"), 4096);
    assert_eq!(model_name_to_context_size("made-up-model"), 4096);
    assert_eq!(model_name_to_context_size(""), 4096);
}

#[test]
fn budget_is_window_minus_count() {
    assert_eq!(budget_from_count(2048, 2), Ok(2046));
    assert_eq!(budget_from_count(100, 100), Ok(0));
    assert_eq!(budget_from_count(100, 0), Ok(100));
}

#[test]
fn budget_exhaustion_exactly_when_count_exceeds_window() {
    assert_eq!(budget_from_count(100, 101), Err(BudgetError::Exhausted));
    assert_eq!(budget_from_count(0, 1), Err(BudgetError::Exhausted));
    assert_eq!(budget_from_count(0, 0), Ok(0));
}

#[test]
fn ada_scenario_completion_budget() {
    // Context window 2048, a prompt of two tokens: 2046 remain.
    assert_eq!(select_mode("text-ada-001"), RequestMode::Completion);
    assert_eq!(model_name_to_context_size("text-ada-001"), 2048);
    assert_eq!(budget_from_count(2048, 2), Ok(2046));
}

#[test]
fn override_is_used_verbatim() {
    let r = compute_max_tokens(
        RequestMode::Completion,
        "text-ada-001",
        "some prompt of any length at all",
        None,
        Some(50),
    );
    assert_eq!(r, Ok(50));
    let r = compute_max_tokens(RequestMode::Chat, "gpt-4", "", None, Some(50));
    assert_eq!(r, Ok(50));
    // Even an override larger than the window is passed through unchecked.
    let r = compute_max_tokens(RequestMode::Completion, "text-ada-001", "hi", None, Some(60000));
    assert_eq!(r, Ok(60000));
}

#[test]
fn empty_prompt_budget_is_whole_window() {
    let r = compute_max_tokens(RequestMode::Completion, "text-ada-001", "", None, None);
    assert_eq!(r, Ok(2048));
}

#[test]
fn completion_budget_matches_window_minus_count() {
    let count = count_tokens("Hello world", RequestMode::Completion).unwrap();
    let r = compute_max_tokens(RequestMode::Completion, "text-ada-001", "Hello world", None, None);
    assert_eq!(r, Ok((2048 - count) as u16));
}

#[test]
fn chat_budget_accounts_for_framing() {
    let user = count_tokens("Hi", RequestMode::Chat).unwrap();
    let system = count_tokens("Be terse", RequestMode::Chat).unwrap();
    let overhead = 2 * CHAT_MESSAGE_OVERHEAD as usize + CHAT_REPLY_PRIMING as usize;
    let expected = 4096 - (user + system + overhead);
    let system_message = String::from("Be terse");
    let r = compute_max_tokens(
        RequestMode::Chat,
        "gpt-3.5-turbo",
        "Hi",
        Some(&system_message),
        None,
    );
    assert_eq!(r, Ok(expected as u16));
}

#[test]
fn chat_budget_without_system_message() {
    let user = count_tokens("Hi", RequestMode::Chat).unwrap();
    let overhead = CHAT_MESSAGE_OVERHEAD as usize + CHAT_REPLY_PRIMING as usize;
    let expected = 4096 - (user + overhead);
    let r = compute_max_tokens(RequestMode::Chat, "gpt-3.5-turbo", "Hi", None, None);
    assert_eq!(r, Ok(expected as u16));
}

#[test]
fn oversized_prompt_is_exhaustion() {
    // 5000 words of filler exceed text-ada-001's 2048-token window.
    let mut prompt = String::new();
    for _ in 0..5000 {
        prompt.push_str("tokens ");
    }
    let r = compute_max_tokens(RequestMode::Completion, "text-ada-001", &prompt, None, None);
    assert_eq!(r, Err(BudgetError::Exhausted));
}
