//! Token counting.
//!
//! A prompt's size is measured in byte-pair-encoding tokens, under the
//! vocabulary that belongs to the request shape: the legacy completion models
//! share the `r50k` vocabulary, the chat-capable models the `cl100k`
//! vocabulary. Counting follows the with-special-tokens rule: special tokens
//! appearing in the text are counted, not stripped. Both vocabularies are
//! embedded in the tokenizer crate, so whether an encoding succeeds, and the
//! count it yields, are functions of the text alone; an encoding failure is
//! fatal to the invocation. The empty text always encodes, to no tokens, and
//! a nonempty text always yields at least one token.

use crate::mode::RequestMode;
use vstd::prelude::*;

verus! {

/// The vocabulary could not be loaded or applied; no tokenization can
/// proceed.
#[derive(Clone, Copy, PartialEq, Eq, Structural, Debug)]
pub struct TokenizerError;

/// How many tokens the completion-model vocabulary (`r50k`) gives a text.
pub uninterp spec fn completion_token_count(text: Seq<char>) -> nat;

/// How many tokens the chat-model vocabulary (`cl100k`) gives a text.
pub uninterp spec fn chat_token_count(text: Seq<char>) -> nat;

/// Whether encoding a text under the completion-model vocabulary succeeds.
/// The vocabulary is embedded, so this depends on the text alone.
pub uninterp spec fn completion_encode_ok(text: Seq<char>) -> bool;

/// Whether encoding a text under the chat-model vocabulary succeeds.
/// The vocabulary is embedded, so this depends on the text alone.
pub uninterp spec fn chat_encode_ok(text: Seq<char>) -> bool;

/// The count a text gets under the vocabulary belonging to `mode`.
pub open spec fn spec_token_count(mode: RequestMode, text: Seq<char>) -> nat {
    match mode {
        RequestMode::Completion => completion_token_count(text),
        RequestMode::Chat => chat_token_count(text),
    }
}

/// Whether encoding a text under `mode`'s vocabulary succeeds.
pub open spec fn spec_encode_ok(mode: RequestMode, text: Seq<char>) -> bool {
    match mode {
        RequestMode::Completion => completion_encode_ok(text),
        RequestMode::Chat => chat_encode_ok(text),
    }
}

/// Relies on `tiktoken_rs::r50k_base` and `tiktoken_rs::CoreBPE::encode`
/// (with every special token allowed). The vocabulary is an embedded asset,
/// so success and count are functions of the text alone. The empty text
/// encodes to no tokens and cannot fail; a nonempty text yields at least one
/// token, since every character is consumed by some alternative of the split
/// pattern and every piece encodes to at least one token (the vocabulary
/// holds all 256 single-byte tokens).
#[verifier::external_body]
fn encode_count_completion(text: &str) -> (r: Result<usize, TokenizerError>)
    ensures
        r is Ok <==> completion_encode_ok(text@),
        r is Ok ==> r->Ok_0 == completion_token_count(text@),
        text@.len() == 0 ==> r is Ok && r->Ok_0 == 0,
        r is Ok && text@.len() > 0 ==> r->Ok_0 > 0,
{
    let bpe = match tiktoken_rs::r50k_base() {
        Ok(b) => b,
        Err(_) => return Err(TokenizerError),
    };
    let allowed = bpe.special_tokens();
    match bpe.encode(text, &allowed) {
        Ok((tokens, _)) => Ok(tokens.len()),
        Err(_) => Err(TokenizerError),
    }
}

/// Relies on `tiktoken_rs::cl100k_base` and `tiktoken_rs::CoreBPE::encode`
/// (with every special token allowed). The vocabulary is an embedded asset,
/// so success and count are functions of the text alone. The empty text
/// encodes to no tokens and cannot fail; a nonempty text yields at least one
/// token, since every character is consumed by some alternative of the split
/// pattern and every piece encodes to at least one token (the vocabulary
/// holds all 256 single-byte tokens).
#[verifier::external_body]
fn encode_count_chat(text: &str) -> (r: Result<usize, TokenizerError>)
    ensures
        r is Ok <==> chat_encode_ok(text@),
        r is Ok ==> r->Ok_0 == chat_token_count(text@),
        text@.len() == 0 ==> r is Ok && r->Ok_0 == 0,
        r is Ok && text@.len() > 0 ==> r->Ok_0 > 0,
{
    let bpe = match tiktoken_rs::cl100k_base() {
        Ok(b) => b,
        Err(_) => return Err(TokenizerError),
    };
    let allowed = bpe.special_tokens();
    match bpe.encode(text, &allowed) {
        Ok((tokens, _)) => Ok(tokens.len()),
        Err(_) => Err(TokenizerError),
    }
}

/// Count the tokens of `text` under the vocabulary belonging to `mode`.
/// Success is owed exactly when the mode's vocabulary encodes the text; the
/// empty text always succeeds and counts zero, and a successful count is
/// zero only for the empty text.
pub fn count_tokens(text: &str, mode: RequestMode) -> (r: Result<usize, TokenizerError>)
    ensures
        r is Ok <==> spec_encode_ok(mode, text@),
        r is Ok ==> r->Ok_0 == spec_token_count(mode, text@),
        text@.len() == 0 ==> r is Ok && r->Ok_0 == 0,
        r is Ok && text@.len() > 0 ==> r->Ok_0 > 0,
{
    match mode {
        RequestMode::Completion => encode_count_completion(text),
        RequestMode::Chat => encode_count_chat(text),
    }
}

/// Counting is deterministic and idempotent: any two counts of the same text
/// under the same mode succeed or fail together, and when they succeed they
/// are equal, because each is the one count the mode's vocabulary gives that
/// text.
pub proof fn lemma_count_deterministic(
    mode: RequestMode,
    text: Seq<char>,
    r1: Result<usize, TokenizerError>,
    r2: Result<usize, TokenizerError>,
)
    requires
        r1 is Ok <==> spec_encode_ok(mode, text),
        r1 is Ok ==> r1->Ok_0 == spec_token_count(mode, text),
        r2 is Ok <==> spec_encode_ok(mode, text),
        r2 is Ok ==> r2->Ok_0 == spec_token_count(mode, text),
    ensures
        r1 is Ok <==> r2 is Ok,
        r1 is Ok ==> r1->Ok_0 == r2->Ok_0,
{
}

} // verus!
