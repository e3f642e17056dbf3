use gptcli::mode::select_mode;
use gptcli::mode::RequestMode;
use gptcli::request::build_chat_request;
use gptcli::request::build_completion_request;
use gptcli::request::effective_completion_prompt;
use gptcli::request::BuildError;
use gptcli::request::Role;
use gptcli::request::SamplingConfig;

#[test]
fn chat_scenario_system_message_comes_first() {
    // Model gpt-3.5-turbo with a system message: chat mode, two messages,
    // system first.
    assert_eq!(select_mode("gpt-3.5-turbo"), RequestMode::Chat);
    let mut cfg = SamplingConfig::default();
    cfg.system_message = Some(String::from("Be terse"));
    let req = build_chat_request("gpt-3.5-turbo", "Hi", 100, &cfg).unwrap();
    assert_eq!(req.messages.len(), 2);
    assert_eq!(req.messages[0].role, Role::System);
    assert_eq!(req.messages[0].content.as_str(), "Be terse");
    assert_eq!(req.messages[1].role, Role::User);
    assert_eq!(req.messages[1].content.as_str(), "Hi");
    assert!(req.stream);
}

#[test]
fn chat_request_without_system_message() {
    let cfg = SamplingConfig::default();
    let req = build_chat_request("gpt-4", "Hi", 7, &cfg).unwrap();
    assert_eq!(req.messages.len(), 1);
    assert_eq!(req.messages[0].role, Role::User);
    assert_eq!(req.messages[0].content.as_str(), "Hi");
    assert_eq!(req.max_tokens, 7);
    assert_eq!(req.model.as_str(), "gpt-4");
}

#[test]
fn chat_request_carries_sampling_parameters() {
    let mut cfg = SamplingConfig::default();
    cfg.temperature_milli = 200;
    cfg.top_p_milli = 100;
    cfg.stop = vec![String::from("END"), String::from("STOP")];
    let req = build_chat_request("gpt-4", "x", 1, &cfg).unwrap();
    assert_eq!(req.temperature_milli, 200);
    assert_eq!(req.top_p_milli, 100);
    assert_eq!(req.stop.len(), 2);
    assert_eq!(req.stop[0].as_str(), "END");
    assert_eq!(req.stop[1].as_str(), "STOP");
}

#[test]
fn default_sampling_config() {
    let cfg = SamplingConfig::default();
    assert_eq!(cfg.temperature_milli, 700);
    assert_eq!(cfg.top_p_milli, 1000);
    assert!(cfg.system_message.is_none());
    assert!(cfg.stop.is_empty());
    assert!(cfg.max_tokens.is_none());
}

#[test]
fn completion_prompt_prefixes_system_message() {
    let system = String::from("Be terse");
    let p = effective_completion_prompt(Some(&system), "Hi");
    assert_eq!(p.as_str(), "Be terse Hi");
    let p = effective_completion_prompt(None, "Hi");
    assert_eq!(p.as_str(), "Hi");
}

#[test]
fn completion_request_uses_effective_prompt() {
    let mut cfg = SamplingConfig::default();
    cfg.system_message = Some(String::from("Be terse"));
    let req = build_completion_request("text-ada-001", "Hi", 10, &cfg).unwrap();
    assert_eq!(req.prompt.as_str(), "Be terse Hi");
    assert_eq!(req.model.as_str(), "text-ada-001");
    assert_eq!(req.max_tokens, 10);
    assert!(req.stream);
    assert!(req.stop.is_empty());
}

#[test]
fn empty_model_fails_to_build() {
    let cfg = SamplingConfig::default();
    assert_eq!(build_chat_request("", "Hi", 1, &cfg).unwrap_err(), BuildError::EmptyModel);
    assert_eq!(build_completion_request("", "Hi", 1, &cfg).unwrap_err(), BuildError::EmptyModel);
}

#[test]
fn empty_stop_set_is_omitted_not_sent_empty() {
    let none: Vec<String> = vec![];
    assert!(gptcli::request::stop_configuration(&none).is_none());
    let some = vec![String::from("END")];
    let sent = gptcli::request::stop_configuration(&some).unwrap();
    assert_eq!(sent.len(), 1);
    assert_eq!(sent[0].as_str(), "END");
}
