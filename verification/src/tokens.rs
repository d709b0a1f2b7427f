//! The data the pipeline runs on: lexical token kinds, raw tokens with
//! source spans, classified tokens, and the wire records sent to the client.

use vstd::prelude::*;

verus! {

/// The lexical token kinds of the language's grammar, one variant per kind
/// the lexer can report.
#[derive(Clone, Copy, PartialEq, Eq, Structural, Debug)]
pub enum TokenKind {
    // numeric literals
    IntLit,
    RatLit,
    FloatLit,
    ImaginaryFloatLit,
    // string-like literals
    StringLit,
    BytesLit,
    FormatString,
    // names and comments
    Ident,
    Comment,
    // operators and symbolic connectives
    And,
    Or,
    Bang,
    QuestionMark,
    Colon,
    LeftArrow,
    RightArrow,
    DoubleLeftArrow,
    DoubleColon,
    Ellipsis,
    // control-flow and declaration keywords
    While,
    For,
    If,
    Else,
    Switch,
    Case,
    Null,
    Coalesce,
    Yield,
    Into,
    Break,
    Continue,
    Return,
    Throw,
    Try,
    Catch,
    Consume,
    Pop,
    Remove,
    Swap,
    Every,
    Freeze,
    Import,
    Literally,
    // the record-declaration keyword
    Struct,
    // structural punctuation, dropped from the highlight output
    LeftParen,
    VLeftParen,
    RightParen,
    LeftBracket,
    RightBracket,
    LeftBrace,
    RightBrace,
    Semicolon,
    Lambda,
    Comma,
    Assign,
    Underscore,
    // anything the lexer could not recognize
    Invalid,
}

/// The fixed, closed set of semantic highlight categories.
#[derive(Clone, Copy, PartialEq, Eq, Structural, Debug)]
pub enum SemanticCategory {
    Number,
    Str,
    Operator,
    Keyword,
    Comment,
    Function,
    Struct,
}

/// One token as the lexer reports it: a kind and a source span.
/// `start_line` and `start_col` are 1-based; `start_index` and `end_index`
/// are absolute character offsets, so `end_index - start_index` is the
/// token's length in characters.
#[derive(Clone, Copy, PartialEq, Eq, Structural, Debug)]
pub struct RawToken {
    pub kind: TokenKind,
    pub start_line: usize,
    pub start_col: usize,
    pub start_index: usize,
    pub end_index: usize,
}

/// A retained token: the span of a raw token paired with the one category
/// it classified to.
#[derive(Clone, Copy, PartialEq, Eq, Structural, Debug)]
pub struct ClassifiedToken {
    pub category: SemanticCategory,
    pub start_line: usize,
    pub start_col: usize,
    pub start_index: usize,
    pub end_index: usize,
}

/// One wire record of the protocol: line and column deltas against the
/// previous record, the token's length, the category id from the legend,
/// and the (always empty) modifier bitset.
#[derive(Clone, Copy, PartialEq, Eq, Structural, Debug)]
pub struct WireToken {
    pub delta_line: u32,
    pub delta_start: u32,
    pub length: u32,
    pub token_type: u32,
    pub token_modifiers_bitset: u32,
}

} // verus!
