//! The context-window table.
//!
//! Each recognized model identifier maps to the total number of tokens the
//! model can process in one request (prompt plus generation). Unrecognized
//! identifiers fall back to a fixed, documented default.

use vstd::prelude::*;
use vstd::string::*;

verus! {

/// The capacity assumed for a model identifier the table does not list.
pub const DEFAULT_CONTEXT_WINDOW: u16 = 4096;

/// Token capacity of each recognized model; every other identifier gets
/// `DEFAULT_CONTEXT_WINDOW`.
pub open spec fn spec_context_window(model: Seq<char>) -> u16 {
    if model == "text-davinci-003"@ {
        4097u16
    } else if model == "text-curie-001"@ {
        2048u16
    } else if model == "text-babbage-001"@ {
        2048u16
    } else if model == "text-ada-001"@ {
        2048u16
    } else if model == "code-davinci-002"@ {
        8000u16
    } else if model == "code-cushman-001"@ {
        2048u16
    } else {
        DEFAULT_CONTEXT_WINDOW
    }
}

/// Character-by-character string equality.
fn str_eq(s: &str, t: &str) -> (r: bool)
    ensures
        r == (s@ == t@),
{
    let sn = s.unicode_len();
    let tn = t.unicode_len();
    if sn != tn {
        return false;
    }
    let mut i: usize = 0;
    while i < sn
        invariant
            0 <= i <= sn,
            sn == s@.len(),
            sn == t@.len(),
            forall|j: int| 0 <= j < i ==> s@[j] == t@[j],
        decreases sn - i,
    {
        if s.get_char(i) != t.get_char(i) {
            return false;
        }
        i += 1;
    }
    proof {
        assert(s@ =~= t@);
    }
    true
}

/// The total token capacity of `model_name`'s context window.
pub fn model_name_to_context_size(model_name: &str) -> (w: u16)
    ensures
        w == spec_context_window(model_name@),
{
    if str_eq(model_name, "text-davinci-003") {
        4097
    } else if str_eq(model_name, "text-curie-001") {
        2048
    } else if str_eq(model_name, "text-babbage-001") {
        2048
    } else if str_eq(model_name, "text-ada-001") {
        2048
    } else if str_eq(model_name, "code-davinci-002") {
        8000
    } else if str_eq(model_name, "code-cushman-001") {
        2048
    } else {
        DEFAULT_CONTEXT_WINDOW
    }
}

} // verus!
