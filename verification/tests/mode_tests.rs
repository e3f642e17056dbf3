use gptcli::mode::should_use_chat_completion;
use gptcli::mode::select_mode;
use gptcli::mode::RequestMode;

#[test]
fn chat_models_are_recognized() {
    assert!(should_use_chat_completion("gpt-4"));
    assert!(should_use_chat_completion("gpt-4-turbo"));
    assert!(should_use_chat_completion("gpt-3.5-turbo"));
    assert!(should_use_chat_completion("gpt-3.5-turbo-0301"));
}

#[test]
fn completion_models_are_not_chat() {
    assert!(!should_use_chat_completion("text-ada-001"));
    assert!(!should_use_chat_completion("text-davinci-003"));
    assert!(!should_use_chat_completion("code-davinci-002"));
    assert!(!should_use_chat_completion("gpt-3"));
}

#[test]
fn unknown_models_default_to_completion() {
    assert_eq!(select_mode("some-unknown-model"), RequestMode::Completion);
    assert_eq!(select_mode(""), RequestMode::Completion);
}

#[test]
fn mode_selection_is_case_insensitive() {
    assert_eq!(select_mode("GPT-4"), RequestMode::Chat);
    assert_eq!(select_mode("GPT-4"), select_mode("gpt-4"));
    assert_eq!(select_mode("Gpt-3.5-Turbo"), RequestMode::Chat);
    assert_eq!(select_mode("GPT-3.5-TURBO"), select_mode("gpt-3.5-turbo"));
}

#[test]
fn mode_selection_is_deterministic() {
    assert_eq!(select_mode("gpt-4"), select_mode("gpt-4"));
    assert_eq!(select_mode("text-ada-001"), select_mode("text-ada-001"));
}
