//! The tokens that the host tokenizer produces, as far as this crate reads
//! them.

use vstd::prelude::*;

verus! {

/// The lexical category that the tokenizer gave a token.
#[derive(Clone, Copy, Debug, PartialEq, Eq)]
pub enum TokenKind {
    /// A name.
    Identifier,
    /// A number, string or character literal.
    Literal,
    /// An operator, delimiter or other fixed symbol.
    Punctuation,
    /// The marker that ends the stream, where the tokenizer emits one.
    EndOfInput,
    /// Anything else the tokenizer may emit (comments, whitespace, ...).
    Other,
}

/// Where a token stands in the source text: byte offsets of its first byte
/// and of the byte after its last.
#[derive(Clone, Copy, Debug, PartialEq, Eq)]
pub struct Span {
    pub lo: u32,
    pub hi: u32,
}

/// One token as the host tokenizer delivered it.
///
/// Reclassification looks at two things only: whether the token is a name,
/// and how it is spelled. The span is carried along untouched.
#[derive(Debug, PartialEq, Eq)]
pub struct HostToken {
    pub kind: TokenKind,
    pub text: String,
    pub span: Span,
}

/// The mathematical value of a [`HostToken`]: its text as a sequence of
/// characters.
pub struct HostTokenView {
    pub kind: TokenKind,
    pub text: Seq<char>,
    pub span: Span,
}

impl HostTokenView {
    /// Whether the tokenizer marked this token as a name.
    pub open spec fn is_identifier(self) -> bool {
        self.kind is Identifier
    }
}

impl View for HostToken {
    type V = HostTokenView;

    open spec fn view(&self) -> HostTokenView {
        HostTokenView { kind: self.kind, text: self.text@, span: self.span }
    }
}

impl Clone for HostToken {
    /// A second token of the same kind, spelling and span.
    fn clone(&self) -> (copy: HostToken)
        ensures
            copy == *self,
    {
        HostToken { kind: self.kind, text: self.text.clone(), span: self.span }
    }
}

impl HostToken {
    /// Whether the tokenizer marked this token as a name.
    pub fn is_identifier(&self) -> (b: bool)
        ensures
            b == self@.is_identifier(),
    {
        match self.kind {
            TokenKind::Identifier => true,
            _ => false,
        }
    }

    /// The exact spelling of the token.
    pub fn text(&self) -> (s: &str)
        ensures
            s@ == self@.text,
    {
        self.text.as_str()
    }
}

} // verus!
