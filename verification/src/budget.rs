//! The token-budget calculator.
//!
//! The budget is the number of tokens the service may spend on generation:
//! what remains of the model's context window after the prompt's own tokens.
//! An explicit override is used verbatim, with no validation against the
//! window. Budgets travel as 16-bit unsigned integers, so a single request
//! never asks for more than 65535 generated tokens.
//!
//! Chat encoding spends hidden tokens beyond the message texts. This crate
//! uses one fixed rule: four tokens of framing per message (covering the role
//! and the message boundaries) and three tokens priming the reply.

use crate::mode::RequestMode;
use crate::tokenizer::chat_encode_ok;
use crate::tokenizer::chat_token_count;
use crate::tokenizer::completion_encode_ok;
use crate::tokenizer::completion_token_count;
use crate::tokenizer::count_tokens;
use crate::window::model_name_to_context_size;
use crate::window::spec_context_window;
use vstd::prelude::*;

verus! {

/// Why no budget could be produced.
#[derive(Clone, Copy, PartialEq, Eq, Structural, Debug)]
pub enum BudgetError {
    /// The prompt's tokens alone exceed the model's context window; nothing
    /// is left for generation. The caller must shorten the prompt.
    Exhausted,
    /// A tokenizer vocabulary could not be loaded, so the prompt could not
    /// be measured.
    TokenizerUnavailable,
}

/// Hidden tokens chat encoding spends framing each message.
pub const CHAT_MESSAGE_OVERHEAD: u16 = 4;

/// Hidden tokens chat encoding spends priming the reply.
pub const CHAT_REPLY_PRIMING: u16 = 3;

/// What remains of `window` after `count` prompt tokens: the difference when
/// the count fits, nothing when the subtraction would go negative.
pub open spec fn spec_budget(window: u16, count: nat) -> Option<u16> {
    if count <= window {
        Some((window - count) as u16)
    } else {
        None
    }
}

/// The tokens a chat request spends before any are generated: each message's
/// content under the chat vocabulary, the framing overhead of each message,
/// and the reply priming.
pub open spec fn spec_chat_prompt_tokens(system: Option<Seq<char>>, user: Seq<char>) -> nat {
    match system {
        Some(s) => (chat_token_count(s) + chat_token_count(user) + 2 * CHAT_MESSAGE_OVERHEAD
            + CHAT_REPLY_PRIMING) as nat,
        None => (chat_token_count(user) + CHAT_MESSAGE_OVERHEAD + CHAT_REPLY_PRIMING) as nat,
    }
}

/// The tokens the effective prompt costs under `mode`: the prompt text alone
/// in completion mode, the framed messages in chat mode.
pub open spec fn spec_prompt_tokens(
    mode: RequestMode,
    prompt: Seq<char>,
    system: Option<Seq<char>>,
) -> nat {
    match mode {
        RequestMode::Completion => completion_token_count(prompt),
        RequestMode::Chat => spec_chat_prompt_tokens(system, prompt),
    }
}

/// The optional system message as text, when present.
pub open spec fn spec_system_view(system: Option<&String>) -> Option<Seq<char>> {
    match system {
        Some(s) => Some(s@),
        None => None,
    }
}

/// Whether every token count the budget needs succeeds: the prompt under the
/// mode's vocabulary, and in chat mode the system message too, when present.
pub open spec fn spec_counts_ok(
    mode: RequestMode,
    prompt: Seq<char>,
    system: Option<Seq<char>>,
) -> bool {
    match mode {
        RequestMode::Completion => completion_encode_ok(prompt),
        RequestMode::Chat => chat_encode_ok(prompt) && (system matches Some(s) ==> chat_encode_ok(
            s,
        )),
    }
}

/// Subtract the prompt's token count from the context window. Exhaustion is
/// reported exactly when the count exceeds the window.
pub fn budget_from_count(window: u16, count: usize) -> (r: Result<u16, BudgetError>)
    ensures
        count <= window ==> r == Ok::<u16, BudgetError>((window - count) as u16),
        count > window ==> r == Err::<u16, BudgetError>(BudgetError::Exhausted),
        r is Ok <==> spec_budget(window, count as nat) is Some,
        r matches Ok(b) ==> spec_budget(window, count as nat) == Some(b),
{
    if count <= window as usize {
        Ok(window - count as u16)
    } else {
        Err(BudgetError::Exhausted)
    }
}

/// The budget partitions the window: either the count fits and budget plus
/// count give back exactly the window, or the subtraction would go negative
/// and exhaustion is reported — each exactly when the other is not.
pub proof fn lemma_budget_exhaustion(window: u16, count: nat)
    ensures
        spec_budget(window, count) is None <==> count > window,
        spec_budget(window, count) matches Some(b) ==> b + count == window,
{
}

/// An empty prompt costs nothing, so the whole window remains as budget.
pub proof fn lemma_empty_prompt_full_window(window: u16)
    ensures
        spec_budget(window, 0) == Some(window),
{
}

/// The generation budget for one invocation.
///
/// An explicit `override_max` is returned verbatim, with no validation
/// against the window (a too-large override is the provider's to reject).
/// Otherwise the budget is the model's context window minus the effective
/// prompt's tokens: the prompt text alone in completion mode (a configured
/// system message must already be folded into `prompt` by the request
/// builder), or the framed system and user messages in chat mode. When every
/// needed count succeeds, a budget is owed exactly when the prompt fits the
/// window, and a prompt that exceeds it is exhaustion, never a tokenizer
/// error; the tokenizer error is returned only when a needed count fails. An
/// empty completion prompt always gets the whole window.
pub fn compute_max_tokens(
    mode: RequestMode,
    model: &str,
    prompt: &str,
    system_message: Option<&String>,
    override_max: Option<u16>,
) -> (r: Result<u16, BudgetError>)
    ensures
        override_max matches Some(v) ==> r == Ok::<u16, BudgetError>(v),
        override_max is None ==> {
            let c = spec_prompt_tokens(mode, prompt@, spec_system_view(system_message));
            let w = spec_context_window(model@);
            let ok = spec_counts_ok(mode, prompt@, spec_system_view(system_message));
            &&& r matches Ok(b) ==> c <= w && b == w - c
            &&& ok ==> (r is Ok <==> c <= w)
            &&& ok && c > w ==> r == Err::<u16, BudgetError>(BudgetError::Exhausted)
            &&& r == Err::<u16, BudgetError>(BudgetError::Exhausted) ==> c > w
            &&& r == Err::<u16, BudgetError>(BudgetError::TokenizerUnavailable) ==> !ok
            &&& !ok ==> r is Err
            &&& !ok && c <= w ==> r == Err::<u16, BudgetError>(BudgetError::TokenizerUnavailable)
        },
        override_max is None && mode is Completion && prompt@.len() == 0 ==> r == Ok::<
            u16,
            BudgetError,
        >(spec_context_window(model@)),
{
    if let Some(v) = override_max {
        return Ok(v);
    }
    let window = model_name_to_context_size(model);
    match mode {
        RequestMode::Completion => {
            let count = match count_tokens(prompt, RequestMode::Completion) {
                Ok(c) => c,
                Err(_) => return Err(BudgetError::TokenizerUnavailable),
            };
            budget_from_count(window, count)
        },
        RequestMode::Chat => {
            let user_count = match count_tokens(prompt, RequestMode::Chat) {
                Ok(c) => c,
                Err(_) => return Err(BudgetError::TokenizerUnavailable),
            };
            if user_count > window as usize {
                return Err(BudgetError::Exhausted);
            }
            let total: usize = match system_message {
                Some(s) => {
                    let system_count = match count_tokens(s.as_str(), RequestMode::Chat) {
                        Ok(c) => c,
                        Err(_) => return Err(BudgetError::TokenizerUnavailable),
                    };
                    if system_count > window as usize {
                        return Err(BudgetError::Exhausted);
                    }
                    user_count + system_count + 2 * CHAT_MESSAGE_OVERHEAD as usize
                        + CHAT_REPLY_PRIMING as usize
                },
                None => user_count + CHAT_MESSAGE_OVERHEAD as usize + CHAT_REPLY_PRIMING as usize,
            };
            budget_from_count(window, total)
        },
    }
}

} // verus!
