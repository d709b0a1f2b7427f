//! The request pipeline: classify a raw token stream, check the encoder's
//! input invariant, and encode. Everything here is per request; no state
//! survives a call.

use vstd::prelude::*;

use crate::classify::classified_of;
use crate::classify::classify_tokens;
use crate::encode::encode;
use crate::encode::encodes;
use crate::encode::pos_lt;
use crate::encode::wf_input;
use crate::encode::wf_token;
use crate::tokens::ClassifiedToken;
use crate::tokens::RawToken;
use crate::tokens::WireToken;

verus! {

/// Runtime check of the encoder's input invariant: every token well
/// formed, the stream in strictly increasing source order.
pub fn check_wf(tokens: &Vec<ClassifiedToken>) -> (r: bool)
    ensures
        r == wf_input(tokens@),
{
    let mut i: usize = 0;
    while i < tokens.len()
        invariant
            i <= tokens@.len(),
            forall|j: int| 0 <= j < i ==> wf_token(#[trigger] tokens@[j]),
            forall|j: int| 0 <= j && j + 1 < i ==> pos_lt(tokens@[j], #[trigger] tokens@[j + 1]),
        decreases tokens@.len() - i,
    {
        let t = tokens[i];
        let ok = t.start_line >= 1 && t.start_col >= 1 && t.start_index <= t.end_index
            && t.start_line - 1 <= u32::MAX as usize && t.start_col - 1 <= u32::MAX as usize
            && t.end_index - t.start_index <= u32::MAX as usize;
        if !ok {
            proof {
                assert(!wf_token(tokens@[i as int]));
            }
            return false;
        }
        if i > 0 {
            let p = tokens[i - 1];
            let ordered = p.start_line < t.start_line || (p.start_line == t.start_line
                && p.start_col < t.start_col);
            if !ordered {
                proof {
                    assert(!pos_lt(tokens@[i - 1], tokens@[i - 1 + 1]));
                }
                return false;
            }
        }
        i = i + 1;
    }
    true
}

/// The whole per-request transform: classify and filter the lexer's token
/// stream, then delta-encode it. Returns `None` only when the stream
/// breaks the upstream ordering contract (a programming error between
/// lexer and encoder), never a partial result.
pub fn semantic_tokens(tokens: &Vec<RawToken>) -> (r: Option<Vec<WireToken>>)
    ensures
        r is Some <==> wf_input(classified_of(tokens@)),
        r matches Some(v) ==> encodes(classified_of(tokens@), v@),
{
    let classified = classify_tokens(tokens);
    if check_wf(&classified) {
        Some(encode(&classified))
    } else {
        None
    }
}

} // verus!
