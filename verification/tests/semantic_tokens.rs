use noulith_lsp::classify::classify;
use noulith_lsp::legend::legend_categories;
use noulith_lsp::legend::token_type_id;
use noulith_lsp::pipeline::semantic_tokens;
use noulith_lsp::tokens::RawToken;
use noulith_lsp::tokens::SemanticCategory;
use noulith_lsp::tokens::TokenKind;
use noulith_lsp::tokens::WireToken;

fn raw(kind: TokenKind, line: usize, col: usize, start: usize, end: usize) -> RawToken {
    RawToken { kind, start_line: line, start_col: col, start_index: start, end_index: end }
}

fn fields(w: &WireToken) -> (u32, u32, u32, u32, u32) {
    (w.delta_line, w.delta_start, w.length, w.token_type, w.token_modifiers_bitset)
}

#[test]
fn legend_order_is_id_assignment() {
    let legend = legend_categories();
    assert_eq!(legend.len(), 7);
    assert_eq!(legend[0], SemanticCategory::Number);
    assert_eq!(legend[1], SemanticCategory::Str);
    assert_eq!(legend[2], SemanticCategory::Operator);
    assert_eq!(legend[3], SemanticCategory::Keyword);
    assert_eq!(legend[4], SemanticCategory::Comment);
    assert_eq!(legend[5], SemanticCategory::Function);
    assert_eq!(legend[6], SemanticCategory::Struct);
    for (i, c) in legend.iter().enumerate() {
        assert_eq!(token_type_id(*c) as usize, i);
    }
}

#[test]
fn classify_covers_every_category() {
    assert_eq!(classify(TokenKind::IntLit), Some(SemanticCategory::Number));
    assert_eq!(classify(TokenKind::RatLit), Some(SemanticCategory::Number));
    assert_eq!(classify(TokenKind::FloatLit), Some(SemanticCategory::Number));
    assert_eq!(classify(TokenKind::ImaginaryFloatLit), Some(SemanticCategory::Number));
    assert_eq!(classify(TokenKind::StringLit), Some(SemanticCategory::Str));
    assert_eq!(classify(TokenKind::BytesLit), Some(SemanticCategory::Str));
    assert_eq!(classify(TokenKind::FormatString), Some(SemanticCategory::Str));
    assert_eq!(classify(TokenKind::Ident), Some(SemanticCategory::Function));
    let operators = [
        TokenKind::And,
        TokenKind::Or,
        TokenKind::Bang,
        TokenKind::QuestionMark,
        TokenKind::Colon,
        TokenKind::LeftArrow,
        TokenKind::RightArrow,
        TokenKind::DoubleLeftArrow,
        TokenKind::DoubleColon,
        TokenKind::Ellipsis,
    ];
    for kind in operators {
        assert_eq!(classify(kind), Some(SemanticCategory::Operator));
    }
    let keywords = [
        TokenKind::While,
        TokenKind::For,
        TokenKind::If,
        TokenKind::Else,
        TokenKind::Switch,
        TokenKind::Case,
        TokenKind::Null,
        TokenKind::Coalesce,
        TokenKind::Yield,
        TokenKind::Into,
        TokenKind::Break,
        TokenKind::Continue,
        TokenKind::Return,
        TokenKind::Throw,
        TokenKind::Try,
        TokenKind::Catch,
        TokenKind::Consume,
        TokenKind::Pop,
        TokenKind::Remove,
        TokenKind::Swap,
        TokenKind::Every,
        TokenKind::Freeze,
        TokenKind::Import,
        TokenKind::Literally,
    ];
    for kind in keywords {
        assert_eq!(classify(kind), Some(SemanticCategory::Keyword));
    }
    assert_eq!(classify(TokenKind::Comment), Some(SemanticCategory::Comment));
    assert_eq!(classify(TokenKind::Struct), Some(SemanticCategory::Struct));
}

#[test]
fn classify_drops_punctuation_and_invalid() {
    let dropped = [
        TokenKind::LeftParen,
        TokenKind::VLeftParen,
        TokenKind::RightParen,
        TokenKind::LeftBracket,
        TokenKind::RightBracket,
        TokenKind::LeftBrace,
        TokenKind::RightBrace,
        TokenKind::Semicolon,
        TokenKind::Lambda,
        TokenKind::Comma,
        TokenKind::Assign,
        TokenKind::Underscore,
        TokenKind::Invalid,
    ];
    for kind in dropped {
        assert_eq!(classify(kind), None);
    }
}

#[test]
fn struct_ident_number_scenario() {
    // `struct X 5`: three tokens on one line at 1-based columns 1, 8, 10.
    let tokens = vec![
        raw(TokenKind::Struct, 1, 1, 0, 6),
        raw(TokenKind::Ident, 1, 8, 7, 8),
        raw(TokenKind::IntLit, 1, 10, 9, 10),
    ];
    let records = semantic_tokens(&tokens).unwrap();
    assert_eq!(records.len(), 3);
    let struct_id = token_type_id(SemanticCategory::Struct);
    let function_id = token_type_id(SemanticCategory::Function);
    let number_id = token_type_id(SemanticCategory::Number);
    assert_eq!(fields(&records[0]), (0, 0, 6, struct_id, 0));
    assert_eq!(fields(&records[1]), (0, 7, 1, function_id, 0));
    assert_eq!(fields(&records[2]), (0, 2, 1, number_id, 0));
}

#[test]
fn same_line_and_new_line_deltas() {
    // A at (2, 5), B at (2, 9): B is 4 columns right on the same line.
    // C at (3, 2): one line down, so its column delta is the absolute
    // 0-based column 1, not a difference against B's column.
    let tokens = vec![
        raw(TokenKind::Ident, 2, 5, 10, 12),
        raw(TokenKind::Ident, 2, 9, 14, 15),
        raw(TokenKind::Ident, 3, 2, 20, 23),
    ];
    let records = semantic_tokens(&tokens).unwrap();
    assert_eq!(records[0].delta_line, 1);
    assert_eq!(records[0].delta_start, 4);
    assert_eq!(records[1].delta_line, 0);
    assert_eq!(records[1].delta_start, 4);
    assert_eq!(records[2].delta_line, 1);
    assert_eq!(records[2].delta_start, 1);
}

#[test]
fn dropped_comma_leaves_deltas_unchanged() {
    // Two retained tokens at (1, 1) length 3 and (1, 10) length 2; a comma
    // between them at column 5 must not perturb the second token's delta.
    let without_comma = vec![
        raw(TokenKind::Ident, 1, 1, 0, 3),
        raw(TokenKind::Ident, 1, 10, 9, 11),
    ];
    let with_comma = vec![
        raw(TokenKind::Ident, 1, 1, 0, 3),
        raw(TokenKind::Comma, 1, 5, 4, 5),
        raw(TokenKind::Ident, 1, 10, 9, 11),
    ];
    let a = semantic_tokens(&without_comma).unwrap();
    let b = semantic_tokens(&with_comma).unwrap();
    assert_eq!(a.len(), 2);
    assert_eq!(b.len(), 2);
    assert_eq!(fields(&a[0]), fields(&b[0]));
    assert_eq!(fields(&a[1]), fields(&b[1]));
    assert_eq!(a[1].delta_start, 9);
}

#[test]
fn round_trip_reconstructs_positions() {
    let tokens = vec![
        raw(TokenKind::Comment, 1, 1, 0, 20),
        raw(TokenKind::Struct, 3, 1, 30, 36),
        raw(TokenKind::Ident, 3, 8, 37, 42),
        raw(TokenKind::Assign, 3, 14, 43, 44),
        raw(TokenKind::StringLit, 3, 16, 45, 52),
        raw(TokenKind::If, 7, 5, 80, 82),
        raw(TokenKind::IntLit, 7, 8, 83, 84),
    ];
    let records = semantic_tokens(&tokens).unwrap();
    // The Assign token is dropped; every other token must decode back to
    // its exact 0-based position by cumulative summation.
    let expected: Vec<(u32, u32)> = vec![(0, 0), (2, 0), (2, 7), (2, 15), (6, 4), (6, 7)];
    assert_eq!(records.len(), expected.len());
    let mut line: u32 = 0;
    let mut col: u32 = 0;
    for (rec, (want_line, want_col)) in records.iter().zip(expected) {
        line += rec.delta_line;
        col = if rec.delta_line == 0 { col + rec.delta_start } else { rec.delta_start };
        assert_eq!((line, col), (want_line, want_col));
    }
}

#[test]
fn empty_stream_encodes_to_nothing() {
    let tokens: Vec<RawToken> = Vec::new();
    let records = semantic_tokens(&tokens).unwrap();
    assert!(records.is_empty());
}

#[test]
fn only_dropped_tokens_encode_to_nothing() {
    let tokens = vec![
        raw(TokenKind::LeftParen, 1, 1, 0, 1),
        raw(TokenKind::RightParen, 1, 2, 1, 2),
        raw(TokenKind::Semicolon, 1, 3, 2, 3),
    ];
    let records = semantic_tokens(&tokens).unwrap();
    assert!(records.is_empty());
}

#[test]
fn out_of_order_stream_is_rejected() {
    let tokens = vec![
        raw(TokenKind::Ident, 2, 5, 10, 12),
        raw(TokenKind::Ident, 1, 1, 0, 3),
    ];
    assert_eq!(semantic_tokens(&tokens), None);
}

#[test]
fn zero_based_positions_are_rejected() {
    // The lexer reports 1-based lines and columns; a 0 line would underflow
    // the 0-based conversion.
    let tokens = vec![raw(TokenKind::Ident, 0, 1, 0, 3)];
    assert_eq!(semantic_tokens(&tokens), None);
}

#[test]
fn backwards_span_is_rejected() {
    let tokens = vec![raw(TokenKind::Ident, 1, 1, 5, 3)];
    assert_eq!(semantic_tokens(&tokens), None);
}
