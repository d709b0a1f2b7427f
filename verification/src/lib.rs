//! Semantic-token pipeline for a small language server: a fixed legend of
//! highlight categories, a total classifier from lexical token kinds to
//! categories, and a delta encoder that turns absolute token positions into
//! the relative wire records the editor protocol expects.

pub mod classify;
pub mod encode;
pub mod legend;
pub mod pipeline;
pub mod tokens;
