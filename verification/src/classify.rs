//! The lexical classifier: a pure, total mapping from a token kind to at
//! most one semantic category. Kinds with no highlighting value
//! (punctuation, the lambda marker, invalid tokens) map to nothing and are
//! dropped from the output stream.

use vstd::prelude::*;

use crate::legend::category_id;
use crate::legend::legend_seq;
use crate::legend::lemma_legend_stable;
use crate::tokens::ClassifiedToken;
use crate::tokens::RawToken;
use crate::tokens::SemanticCategory;
use crate::tokens::TokenKind;

verus! {

/// The category a token kind is highlighted as, or `None` for the kinds
/// that are dropped. Total over the kind set: every variant is matched, so
/// a new kind added to the grammar without a decision here fails to build.
pub open spec fn classify_spec(kind: TokenKind) -> Option<SemanticCategory> {
    match kind {
        TokenKind::IntLit
        | TokenKind::RatLit
        | TokenKind::FloatLit
        | TokenKind::ImaginaryFloatLit => Some(SemanticCategory::Number),
        TokenKind::StringLit | TokenKind::BytesLit | TokenKind::FormatString => Some(
            SemanticCategory::Str,
        ),
        TokenKind::Ident => Some(SemanticCategory::Function),
        TokenKind::And
        | TokenKind::Or
        | TokenKind::Bang
        | TokenKind::QuestionMark
        | TokenKind::Colon
        | TokenKind::LeftArrow
        | TokenKind::RightArrow
        | TokenKind::DoubleLeftArrow
        | TokenKind::DoubleColon
        | TokenKind::Ellipsis => Some(SemanticCategory::Operator),
        TokenKind::While
        | TokenKind::For
        | TokenKind::If
        | TokenKind::Consume
        | TokenKind::Pop
        | TokenKind::Remove
        | TokenKind::Swap
        | TokenKind::Every
        | TokenKind::Freeze
        | TokenKind::Import
        | TokenKind::Literally
        | TokenKind::Else
        | TokenKind::Switch
        | TokenKind::Case
        | TokenKind::Null
        | TokenKind::Coalesce
        | TokenKind::Yield
        | TokenKind::Into
        | TokenKind::Break
        | TokenKind::Continue
        | TokenKind::Return
        | TokenKind::Throw
        | TokenKind::Try
        | TokenKind::Catch => Some(SemanticCategory::Keyword),
        TokenKind::Comment => Some(SemanticCategory::Comment),
        TokenKind::Struct => Some(SemanticCategory::Struct),
        TokenKind::LeftParen
        | TokenKind::VLeftParen
        | TokenKind::RightParen
        | TokenKind::LeftBracket
        | TokenKind::RightBracket
        | TokenKind::LeftBrace
        | TokenKind::RightBrace
        | TokenKind::Semicolon
        | TokenKind::Lambda
        | TokenKind::Comma
        | TokenKind::Assign
        | TokenKind::Underscore
        | TokenKind::Invalid => None,
    }
}

/// Classifies one token kind. Pure and deterministic: it looks at the kind
/// alone, never at surrounding tokens.
pub fn classify(kind: TokenKind) -> (r: Option<SemanticCategory>)
    ensures
        r == classify_spec(kind),
{
    match kind {
        TokenKind::IntLit
        | TokenKind::RatLit
        | TokenKind::FloatLit
        | TokenKind::ImaginaryFloatLit => Some(SemanticCategory::Number),
        TokenKind::StringLit | TokenKind::BytesLit | TokenKind::FormatString => Some(
            SemanticCategory::Str,
        ),
        TokenKind::Ident => Some(SemanticCategory::Function),
        TokenKind::And
        | TokenKind::Or
        | TokenKind::Bang
        | TokenKind::QuestionMark
        | TokenKind::Colon
        | TokenKind::LeftArrow
        | TokenKind::RightArrow
        | TokenKind::DoubleLeftArrow
        | TokenKind::DoubleColon
        | TokenKind::Ellipsis => Some(SemanticCategory::Operator),
        TokenKind::While
        | TokenKind::For
        | TokenKind::If
        | TokenKind::Consume
        | TokenKind::Pop
        | TokenKind::Remove
        | TokenKind::Swap
        | TokenKind::Every
        | TokenKind::Freeze
        | TokenKind::Import
        | TokenKind::Literally
        | TokenKind::Else
        | TokenKind::Switch
        | TokenKind::Case
        | TokenKind::Null
        | TokenKind::Coalesce
        | TokenKind::Yield
        | TokenKind::Into
        | TokenKind::Break
        | TokenKind::Continue
        | TokenKind::Return
        | TokenKind::Throw
        | TokenKind::Try
        | TokenKind::Catch => Some(SemanticCategory::Keyword),
        TokenKind::Comment => Some(SemanticCategory::Comment),
        TokenKind::Struct => Some(SemanticCategory::Struct),
        TokenKind::LeftParen
        | TokenKind::VLeftParen
        | TokenKind::RightParen
        | TokenKind::LeftBracket
        | TokenKind::RightBracket
        | TokenKind::LeftBrace
        | TokenKind::RightBrace
        | TokenKind::Semicolon
        | TokenKind::Lambda
        | TokenKind::Comma
        | TokenKind::Assign
        | TokenKind::Underscore
        | TokenKind::Invalid => None,
    }
}

/// Classification totality: every token kind maps to exactly one category
/// of the published legend, or to explicit absence — so every retained
/// token carries an id the advertised legend decodes.
pub proof fn lemma_classification_total()
    ensures
        forall|k: TokenKind|
            (#[trigger] classify_spec(k)) matches Some(c) ==> 0 <= category_id(c)
                < legend_seq().len() && legend_seq()[category_id(c)] == c,
{
    lemma_legend_stable();
}

/// The classified form of one raw token: its span, paired with its
/// category, or `None` where the token is dropped.
pub open spec fn classify_token(t: RawToken) -> Option<ClassifiedToken> {
    match classify_spec(t.kind) {
        Some(c) => Some(
            ClassifiedToken {
                category: c,
                start_line: t.start_line,
                start_col: t.start_col,
                start_index: t.start_index,
                end_index: t.end_index,
            },
        ),
        None => None,
    }
}

/// The classified stream of a raw token stream: every retained token in
/// source order, every dropped token absent.
pub open spec fn classified_of(s: Seq<RawToken>) -> Seq<ClassifiedToken>
    decreases s.len(),
{
    if s.len() == 0 {
        Seq::empty()
    } else {
        classified_of(s.drop_last()) + match classify_token(s.last()) {
            Some(ct) => seq![ct],
            None => Seq::empty(),
        }
    }
}

/// Classifies a whole token stream, dropping unhighlighted kinds and
/// keeping source order.
pub fn classify_tokens(tokens: &Vec<RawToken>) -> (r: Vec<ClassifiedToken>)
    ensures
        r@ == classified_of(tokens@),
{
    let mut out: Vec<ClassifiedToken> = Vec::new();
    let mut i: usize = 0;
    while i < tokens.len()
        invariant
            i <= tokens@.len(),
            out@ == classified_of(tokens@.take(i as int)),
        decreases tokens@.len() - i,
    {
        let t = tokens[i];
        match classify(t.kind) {
            Some(c) => {
                out.push(
                    ClassifiedToken {
                        category: c,
                        start_line: t.start_line,
                        start_col: t.start_col,
                        start_index: t.start_index,
                        end_index: t.end_index,
                    },
                );
            },
            None => {},
        }
        proof {
            assert(tokens@.take(i + 1 as int).drop_last() =~= tokens@.take(i as int));
            assert(tokens@.take(i + 1 as int).last() == tokens@[i as int]);
        }
        i = i + 1;
    }
    proof {
        assert(tokens@.take(tokens@.len() as int) =~= tokens@);
    }
    out
}

/// Concatenation distributes over classification: the classified stream of
/// two streams in a row is the two classified streams in a row.
pub proof fn lemma_classified_concat(a: Seq<RawToken>, b: Seq<RawToken>)
    ensures
        classified_of(a + b) == classified_of(a) + classified_of(b),
    decreases b.len(),
{
    if b.len() == 0 {
        assert(a + b =~= a);
        assert(classified_of(a) + classified_of(b) =~= classified_of(a));
    } else {
        lemma_classified_concat(a, b.drop_last());
        assert((a + b).drop_last() =~= a + b.drop_last());
        assert((a + b).last() == b.last());
        match classify_token(b.last()) {
            Some(ct) => {
                assert(classified_of(a + b) =~= classified_of(a) + classified_of(b));
            },
            None => {
                assert(classified_of(a + b) =~= classified_of(a) + classified_of(b));
            },
        }
    }
}

/// Drop correctness: a token that classifies to nothing is inert. Inserting
/// it anywhere in the stream, or removing it, leaves the classified stream
/// — and with it every encoded delta — exactly as it was.
pub proof fn lemma_dropped_token_inert(before: Seq<RawToken>, t: RawToken, after: Seq<RawToken>)
    requires
        classify_spec(t.kind) is None,
    ensures
        classified_of(before + seq![t] + after) == classified_of(before + after),
{
    lemma_classified_concat(before, seq![t]);
    lemma_classified_concat(before + seq![t], after);
    lemma_classified_concat(before, after);
    assert(classify_token(t) is None);
    assert(seq![t].drop_last() =~= Seq::<RawToken>::empty());
    assert(classified_of(Seq::<RawToken>::empty()) == Seq::<ClassifiedToken>::empty());
    assert(classified_of(seq![t]) =~= Seq::<ClassifiedToken>::empty());
    assert(classified_of(before + seq![t]) =~= classified_of(before));
    assert(classified_of(before + seq![t] + after) =~= classified_of(before + after));
}

} // verus!
