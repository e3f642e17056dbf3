//! The request builder.
//!
//! A provider request is assembled in one place, as an explicit immutable
//! struct, from the prompt, the model identifier, the sampling parameters
//! and the computed token budget. Chat requests carry an ordered message
//! list with the optional system message always first; completion requests
//! carry one flat prompt, with a configured system message prefixed to it
//! with a single separating space. Streaming is always requested. Building
//! fails exactly when the model identifier is empty.
//!
//! Temperature and nucleus top-p are carried in thousandths (700 stands for
//! 0.7, 1000 for 1.0), so that the whole request is made of plain integers
//! and text.

use crate::budget::spec_system_view;
use vstd::prelude::*;
use vstd::string::*;

verus! {

/// Who speaks a chat message.
#[derive(Clone, Copy, PartialEq, Eq, Structural, Debug)]
pub enum Role {
    System,
    User,
}

/// One message of a chat conversation.
#[derive(Clone, Debug)]
pub struct ChatMessage {
    pub role: Role,
    pub content: String,
}

/// Sampling parameters and request options, fixed for one invocation.
/// Temperature and top-p are in thousandths; the defaults are 0.7 and 1.0.
#[derive(Clone, Debug)]
pub struct SamplingConfig {
    pub temperature_milli: u32,
    pub top_p_milli: u32,
    pub system_message: Option<String>,
    pub stop: Vec<String>,
    pub max_tokens: Option<u16>,
}

impl Default for SamplingConfig {
    /// The defaults of the command-line surface: temperature 0.7, top-p 1.0,
    /// no system message, no stop sequences, no override.
    fn default() -> (r: SamplingConfig)
        ensures
            r.temperature_milli == 700,
            r.top_p_milli == 1000,
            r.system_message is None,
            r.stop@.len() == 0,
            r.max_tokens is None,
    {
        SamplingConfig {
            temperature_milli: 700,
            top_p_milli: 1000,
            system_message: None,
            stop: Vec::new(),
            max_tokens: None,
        }
    }
}

/// Why a request could not be assembled.
#[derive(Clone, Copy, PartialEq, Eq, Structural, Debug)]
pub enum BuildError {
    /// The model identifier is empty.
    EmptyModel,
}

/// A chat-style request: ordered messages, always streamed.
#[derive(Clone, Debug)]
pub struct ChatRequest {
    pub model: String,
    pub messages: Vec<ChatMessage>,
    pub max_tokens: u16,
    pub temperature_milli: u32,
    pub top_p_milli: u32,
    pub stop: Vec<String>,
    pub stream: bool,
}

/// A completion-style request: one flat prompt, always streamed.
#[derive(Clone, Debug)]
pub struct CompletionRequest {
    pub model: String,
    pub prompt: String,
    pub max_tokens: u16,
    pub temperature_milli: u32,
    pub top_p_milli: u32,
    pub stop: Vec<String>,
    pub stream: bool,
}

/// The configured system message as text, when present.
pub open spec fn spec_system_opt(system: Option<String>) -> Option<Seq<char>> {
    match system {
        Some(s) => Some(s@),
        None => None,
    }
}

/// The message list of a chat request: the system message, when present, is
/// always the first element, and the user message is always the last.
pub open spec fn spec_message_list(
    system: Option<Seq<char>>,
    user: Seq<char>,
    msgs: Seq<ChatMessage>,
) -> bool {
    match system {
        Some(s) => {
            &&& msgs.len() == 2
            &&& msgs[0].role == Role::System
            &&& msgs[0].content@ == s
            &&& msgs[1].role == Role::User
            &&& msgs[1].content@ == user
        },
        None => {
            &&& msgs.len() == 1
            &&& msgs[0].role == Role::User
            &&& msgs[0].content@ == user
        },
    }
}

/// The flat prompt a completion request sends: the system message, when
/// present, prefixed to the user prompt with a single separating space.
pub open spec fn spec_effective_prompt(system: Option<Seq<char>>, prompt: Seq<char>) -> Seq<char> {
    match system {
        Some(s) => s + seq![' '] + prompt,
        None => prompt,
    }
}

/// Build the flat prompt of a completion request from the optional system
/// message and the user prompt.
pub fn effective_completion_prompt(system: Option<&String>, prompt: &str) -> (r: String)
    ensures
        r@ == spec_effective_prompt(spec_system_view(system), prompt@),
{
    match system {
        Some(s) => {
            let mut out = s.clone();
            out.append(" ");
            out.append(prompt);
            proof {
                reveal_strlit(" ");
                assert(" "@ =~= seq![' ']);
            }
            out
        },
        None => String::from_str(prompt),
    }
}

fn clone_stop(stop: &Vec<String>) -> (r: Vec<String>)
    ensures
        r@ == stop@,
{
    let r = stop.clone();
    proof {
        assert forall|i: int| 0 <= i < stop@.len() implies r@[i] == stop@[i] by {
            assert(cloned::<String>(stop@[i], r@[i]));
        }
        assert(r@ =~= stop@);
    }
    r
}

/// The stop sequences as a request sends them: omitted entirely when none
/// are configured — an empty list is never sent, since the provider may
/// distinguish an omitted field from an empty one.
pub fn stop_configuration(stop: &Vec<String>) -> (r: Option<Vec<String>>)
    ensures
        r is None <==> stop@.len() == 0,
        r matches Some(v) ==> v@ == stop@,
{
    if stop.len() == 0 {
        None
    } else {
        Some(clone_stop(stop))
    }
}

/// Assemble a chat request: the optional system message first, then the user
/// message, the computed budget, and the sampling parameters; streaming is
/// always requested. Fails exactly when the model identifier is empty. Stop
/// sequences are carried as given; an empty list means none are sent.
pub fn build_chat_request(model: &str, prompt: &str, budget: u16, cfg: &SamplingConfig) -> (r:
    Result<ChatRequest, BuildError>)
    ensures
        r is Ok <==> model@.len() > 0,
        r is Err ==> r == Err::<ChatRequest, BuildError>(BuildError::EmptyModel),
        r matches Ok(req) ==> {
            &&& req.model@ == model@
            &&& spec_message_list(spec_system_opt(cfg.system_message), prompt@, req.messages@)
            &&& req.max_tokens == budget
            &&& req.temperature_milli == cfg.temperature_milli
            &&& req.top_p_milli == cfg.top_p_milli
            &&& req.stop@ == cfg.stop@
            &&& req.stream == true
        },
{
    if model.unicode_len() == 0 {
        return Err(BuildError::EmptyModel);
    }
    let mut messages: Vec<ChatMessage> = Vec::new();
    if let Some(s) = cfg.system_message.as_ref() {
        messages.push(ChatMessage { role: Role::System, content: s.clone() });
    }
    messages.push(ChatMessage { role: Role::User, content: String::from_str(prompt) });
    Ok(
        ChatRequest {
            model: String::from_str(model),
            messages,
            max_tokens: budget,
            temperature_milli: cfg.temperature_milli,
            top_p_milli: cfg.top_p_milli,
            stop: clone_stop(&cfg.stop),
            stream: true,
        },
    )
}

/// Assemble a completion request: the flat prompt (system message prefixed
/// when configured), the computed budget, and the sampling parameters;
/// streaming is always requested. Fails exactly when the model identifier is
/// empty. Stop sequences are carried as given; an empty list means none are
/// sent.
pub fn build_completion_request(model: &str, prompt: &str, budget: u16, cfg: &SamplingConfig) -> (
    r: Result<CompletionRequest, BuildError>)
    ensures
        r is Ok <==> model@.len() > 0,
        r is Err ==> r == Err::<CompletionRequest, BuildError>(BuildError::EmptyModel),
        r matches Ok(req) ==> {
            &&& req.model@ == model@
            &&& req.prompt@ == spec_effective_prompt(spec_system_opt(cfg.system_message), prompt@)
            &&& req.max_tokens == budget
            &&& req.temperature_milli == cfg.temperature_milli
            &&& req.top_p_milli == cfg.top_p_milli
            &&& req.stop@ == cfg.stop@
            &&& req.stream == true
        },
{
    if model.unicode_len() == 0 {
        return Err(BuildError::EmptyModel);
    }
    Ok(
        CompletionRequest {
            model: String::from_str(model),
            prompt: effective_completion_prompt(cfg.system_message.as_ref(), prompt),
            max_tokens: budget,
            temperature_milli: cfg.temperature_milli,
            top_p_milli: cfg.top_p_milli,
            stop: clone_stop(&cfg.stop),
            stream: true,
        },
    )
}

} // verus!
