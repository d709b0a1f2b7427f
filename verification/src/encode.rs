//! The delta encoder: a single pass over the ordered, classified token
//! stream that turns absolute 1-based (line, column) start positions into
//! the relative 0-based deltas of the wire format. The column delta is
//! relative to the previous token only while the line delta is zero; on a
//! new line it is the absolute 0-based column again.

use vstd::prelude::*;

use crate::legend::category_id;
use crate::legend::token_type_id;
use crate::tokens::ClassifiedToken;
use crate::tokens::WireToken;

verus! {

/// 0-based line of a token (source lines are 1-based).
pub open spec fn line0(t: ClassifiedToken) -> int {
    t.start_line - 1
}

/// 0-based column of a token (source columns are 1-based).
pub open spec fn col0(t: ClassifiedToken) -> int {
    t.start_col - 1
}

/// Length of a token in characters: the span of its absolute indices.
pub open spec fn length_of(t: ClassifiedToken) -> int {
    t.end_index - t.start_index
}

/// A single token the encoder can take: 1-based line and column, a span
/// that does not run backwards, and values small enough for the 32-bit
/// wire fields.
pub open spec fn wf_token(t: ClassifiedToken) -> bool {
    &&& 1 <= t.start_line
    &&& 1 <= t.start_col
    &&& t.start_index <= t.end_index
    &&& t.start_line - 1 <= u32::MAX
    &&& t.start_col - 1 <= u32::MAX
    &&& t.end_index - t.start_index <= u32::MAX
}

/// Strict source order: `b` starts on a later line than `a`, or further
/// right on the same line.
pub open spec fn pos_lt(a: ClassifiedToken, b: ClassifiedToken) -> bool {
    ||| a.start_line < b.start_line
    ||| (a.start_line == b.start_line && a.start_col < b.start_col)
}

/// Well-formed encoder input: every token well formed, and the stream in
/// strictly increasing source order.
pub open spec fn wf_input(s: Seq<ClassifiedToken>) -> bool {
    &&& forall|i: int| 0 <= i < s.len() ==> wf_token(#[trigger] s[i])
    &&& forall|i: int| 0 <= i && i + 1 < s.len() ==> pos_lt(s[i], #[trigger] s[i + 1])
}

/// The line delta of record `i`: the 0-based line of token `i` minus the
/// 0-based line of the token before it, with the cursor starting at line 0.
pub open spec fn delta_line_at(s: Seq<ClassifiedToken>, i: int) -> int {
    if i == 0 {
        line0(s[0])
    } else {
        line0(s[i]) - line0(s[i - 1])
    }
}

/// The column delta of record `i`: relative to the previous token's column
/// while the line delta is zero, else the absolute 0-based column of the
/// new line. The cursor starts at column 0.
pub open spec fn delta_start_at(s: Seq<ClassifiedToken>, i: int) -> int {
    if delta_line_at(s, i) == 0 {
        col0(s[i]) - (if i == 0 {
            0
        } else {
            col0(s[i - 1])
        })
    } else {
        col0(s[i])
    }
}

/// Record `r` is the correct wire encoding of token `i` of `s`.
pub open spec fn encodes_at(s: Seq<ClassifiedToken>, i: int, r: WireToken) -> bool {
    &&& r.delta_line == delta_line_at(s, i)
    &&& r.delta_start == delta_start_at(s, i)
    &&& r.length == length_of(s[i])
    &&& r.token_type == category_id(s[i].category)
    &&& r.token_modifiers_bitset == 0
}

/// The whole output encodes the whole input, record for record, in order.
pub open spec fn encodes(s: Seq<ClassifiedToken>, r: Seq<WireToken>) -> bool {
    &&& r.len() == s.len()
    &&& forall|i: int| 0 <= i < s.len() ==> encodes_at(s, i, #[trigger] r[i])
}

/// Single-pass delta encoder over an ordered, filtered token stream. The
/// cursor `(prev_line, prev_col)` starts at (0, 0) in 0-based terms and
/// moves to each token's position after its record is emitted.
pub fn encode(tokens: &Vec<ClassifiedToken>) -> (r: Vec<WireToken>)
    requires
        wf_input(tokens@),
    ensures
        encodes(tokens@, r@),
{
    let mut out: Vec<WireToken> = Vec::new();
    let mut prev_line: usize = 0;
    let mut prev_col: usize = 0;
    let mut i: usize = 0;
    while i < tokens.len()
        invariant
            wf_input(tokens@),
            i <= tokens@.len(),
            out@.len() == i,
            forall|j: int| 0 <= j < i ==> encodes_at(tokens@, j, #[trigger] out@[j]),
            i == 0 ==> prev_line == 0 && prev_col == 0,
            i > 0 ==> prev_line == line0(tokens@[i - 1]) && prev_col == col0(tokens@[i - 1]),
        decreases tokens@.len() - i,
    {
        let t = tokens[i];
        proof {
            assert(wf_token(tokens@[i as int]));
            if i > 0 {
                assert(pos_lt(tokens@[i - 1], tokens@[i - 1 + 1]));
            }
        }
        let line: usize = t.start_line - 1;
        let col: usize = t.start_col - 1;
        let delta_line: usize = line - prev_line;
        let delta_start: usize = if delta_line == 0 {
            col - prev_col
        } else {
            col
        };
        let length: usize = t.end_index - t.start_index;
        out.push(
            WireToken {
                delta_line: delta_line as u32,
                delta_start: delta_start as u32,
                length: length as u32,
                token_type: token_type_id(t.category),
                token_modifiers_bitset: 0,
            },
        );
        prev_line = line;
        prev_col = col;
        i = i + 1;
    }
    out
}

/// The line the client's decoder shows for record `i`: the running sum of
/// the line deltas of records 0 through `i`.
pub open spec fn decoded_line(r: Seq<WireToken>, i: int) -> int
    decreases i,
{
    if i <= 0 {
        r[0].delta_line as int
    } else {
        decoded_line(r, i - 1) + r[i].delta_line
    }
}

/// The column the client's decoder shows for record `i`: the previous
/// column plus the column delta while the record stays on the same line,
/// else the column delta alone.
pub open spec fn decoded_col(r: Seq<WireToken>, i: int) -> int
    decreases i,
{
    if i <= 0 {
        r[0].delta_start as int
    } else if r[i].delta_line == 0 {
        decoded_col(r, i - 1) + r[i].delta_start
    } else {
        r[i].delta_start as int
    }
}

proof fn lemma_round_trip_at(s: Seq<ClassifiedToken>, r: Seq<WireToken>, i: int)
    requires
        wf_input(s),
        encodes(s, r),
        0 <= i < s.len(),
    ensures
        decoded_line(r, i) == line0(s[i]),
        decoded_col(r, i) == col0(s[i]),
    decreases i,
{
    assert(encodes_at(s, i, r[i]));
    if i == 0 {
    } else {
        lemma_round_trip_at(s, r, i - 1);
    }
}

/// Round trip: replaying the deltas of a correct encoding, record by
/// record, reconstructs the exact 0-based line and column of every token,
/// in the order they appeared in the source.
pub proof fn lemma_round_trip(s: Seq<ClassifiedToken>, r: Seq<WireToken>)
    requires
        wf_input(s),
        encodes(s, r),
    ensures
        forall|i: int|
            0 <= i < s.len() ==> decoded_line(r, i) == line0(#[trigger] s[i]) && decoded_col(r, i)
                == col0(s[i]),
{
    assert forall|i: int|
        0 <= i < s.len() implies decoded_line(r, i) == line0(#[trigger] s[i]) && decoded_col(r, i)
        == col0(s[i]) by {
        lemma_round_trip_at(s, r, i);
    }
}

} // verus!
