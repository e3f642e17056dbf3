//! Choosing between the two request shapes.
//!
//! Chat-capable model families are recognized by a case-insensitive prefix of
//! the model identifier; every other identifier falls back to the flat
//! completion shape.

use vstd::prelude::*;
use vstd::string::*;

verus! {

/// The two request shapes the service accepts: a structured multi-message
/// conversation, or a single flat text prompt.
#[derive(Clone, Copy, PartialEq, Eq, Structural, Debug)]
pub enum RequestMode {
    Chat,
    Completion,
}

/// The code point of `c`, with ASCII upper-case letters folded to lower case.
pub open spec fn lower_code(c: char) -> int {
    if 'A' <= c && c <= 'Z' {
        c as int + 32
    } else {
        c as int
    }
}

/// `s` begins with `p`, compared character by character under ASCII case
/// folding.
pub open spec fn is_prefix_ci(p: Seq<char>, s: Seq<char>) -> bool {
    p.len() <= s.len() && forall|i: int|
        0 <= i < p.len() ==> lower_code(s[i]) == lower_code(#[trigger] p[i])
}

/// The identifiers that select the chat shape: anything starting with
/// `gpt-4` or `gpt-3.5-turbo`, in any letter case.
pub open spec fn spec_is_chat_model(model: Seq<char>) -> bool {
    is_prefix_ci("gpt-4"@, model) || is_prefix_ci("gpt-3.5-turbo"@, model)
}

fn lower_code_exec(c: char) -> (r: u32)
    ensures
        r == lower_code(c),
{
    let x: u32 = c as u32;
    if 65 <= x && x <= 90 {
        x + 32
    } else {
        x
    }
}

/// Case-insensitive test that `s` begins with `p`.
fn starts_with_ci(s: &str, p: &str) -> (r: bool)
    ensures
        r == is_prefix_ci(p@, s@),
{
    let sn = s.unicode_len();
    let pn = p.unicode_len();
    if pn > sn {
        return false;
    }
    let mut i: usize = 0;
    while i < pn
        invariant
            0 <= i <= pn,
            pn == p@.len(),
            sn == s@.len(),
            pn <= sn,
            forall|j: int| 0 <= j < i ==> lower_code(s@[j]) == lower_code(#[trigger] p@[j]),
        decreases pn - i,
    {
        let cs = lower_code_exec(s.get_char(i));
        let cp = lower_code_exec(p.get_char(i));
        if cs != cp {
            return false;
        }
        i += 1;
    }
    true
}

/// Whether `model` asks for the chat shape rather than the completion shape.
pub fn should_use_chat_completion(model: &str) -> (r: bool)
    ensures
        r == spec_is_chat_model(model@),
{
    starts_with_ci(model, "gpt-4") || starts_with_ci(model, "gpt-3.5-turbo")
}

/// Choose the request shape for `model`: chat for the chat-capable families,
/// completion for everything else, unknown identifiers included.
pub fn select_mode(model: &str) -> (m: RequestMode)
    ensures
        m == (if spec_is_chat_model(model@) {
            RequestMode::Chat
        } else {
            RequestMode::Completion
        }),
{
    if should_use_chat_completion(model) {
        RequestMode::Chat
    } else {
        RequestMode::Completion
    }
}

proof fn lemma_prefix_ci_respects_folding(p: Seq<char>, a: Seq<char>, b: Seq<char>)
    requires
        a.len() == b.len(),
        forall|i: int| 0 <= i < a.len() ==> lower_code(a[i]) == lower_code(#[trigger] b[i]),
    ensures
        is_prefix_ci(p, a) == is_prefix_ci(p, b),
{
    if is_prefix_ci(p, a) {
        assert forall|i: int| 0 <= i < p.len() implies lower_code(b[i]) == lower_code(
            #[trigger] p[i],
        ) by {
            assert(lower_code(a[i]) == lower_code(p[i]));
            assert(lower_code(a[i]) == lower_code(b[i]));
        }
    }
    if is_prefix_ci(p, b) {
        assert forall|i: int| 0 <= i < p.len() implies lower_code(a[i]) == lower_code(
            #[trigger] p[i],
        ) by {
            assert(lower_code(b[i]) == lower_code(p[i]));
            assert(lower_code(a[i]) == lower_code(b[i]));
        }
    }
}

/// Mode selection is case-insensitive: two identifiers that agree character
/// by character under ASCII case folding select the same shape.
pub proof fn lemma_mode_selection_case_insensitive(a: Seq<char>, b: Seq<char>)
    requires
        a.len() == b.len(),
        forall|i: int| 0 <= i < a.len() ==> lower_code(a[i]) == lower_code(#[trigger] b[i]),
    ensures
        spec_is_chat_model(a) == spec_is_chat_model(b),
{
    lemma_prefix_ci_respects_folding("gpt-4"@, a, b);
    lemma_prefix_ci_respects_folding("gpt-3.5-turbo"@, a, b);
}

} // verus!
