//! Keyword reclassification for the lia front end.
//!
//! A general-purpose tokenizer hands over tokens one at a time. Each token
//! that is a name spelled exactly like one of lia's six reserved words is
//! re-tagged as that keyword; every other token is passed on untouched.

pub mod host;
pub mod laws;
pub mod text;
pub mod token;

pub use host::{HostToken, HostTokenView, Span, TokenKind};
pub use token::{classify, from_rust_tokens, is_reserved, keyword, LiaToken, LiaTokenView};
