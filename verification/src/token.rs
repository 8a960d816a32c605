//! lia's tokens and the rule that makes them from host tokens.

use vstd::prelude::*;
use crate::host::{HostToken, HostTokenView};
use crate::text::same_text;

verus! {

/// A token of the lia language: one of the six keywords, or a host token
/// passed through as it came.
#[derive(Debug, PartialEq, Eq)]
pub enum LiaToken {
    /// A host token that is no keyword, exactly as the tokenizer delivered it.
    RustToken(HostToken),
    /// The reserved word `var`.
    Var,
    /// The reserved word `function`.
    Function,
    /// The reserved word `return`.
    Return,
    /// The reserved word `if`.
    If,
    /// The reserved word `while`.
    While,
    /// The reserved word `for`.
    For,
}

/// The mathematical value of a [`LiaToken`].
pub enum LiaTokenView {
    RustToken(HostTokenView),
    Var,
    Function,
    Return,
    If,
    While,
    For,
}

impl View for LiaToken {
    type V = LiaTokenView;

    open spec fn view(&self) -> LiaTokenView {
        match *self {
            LiaToken::RustToken(t) => LiaTokenView::RustToken(t@),
            LiaToken::Var => LiaTokenView::Var,
            LiaToken::Function => LiaTokenView::Function,
            LiaToken::Return => LiaTokenView::Return,
            LiaToken::If => LiaTokenView::If,
            LiaToken::While => LiaTokenView::While,
            LiaToken::For => LiaTokenView::For,
        }
    }
}

impl Clone for LiaToken {
    /// A second token of the same value.
    fn clone(&self) -> (copy: LiaToken)
        ensures
            copy == *self,
    {
        match self {
            LiaToken::RustToken(t) => LiaToken::RustToken(t.clone()),
            LiaToken::Var => LiaToken::Var,
            LiaToken::Function => LiaToken::Function,
            LiaToken::Return => LiaToken::Return,
            LiaToken::If => LiaToken::If,
            LiaToken::While => LiaToken::While,
            LiaToken::For => LiaToken::For,
        }
    }
}

/// Whether a spelling is one of the six reserved words.
pub open spec fn is_reserved(text: Seq<char>) -> bool {
    ||| text == "function"@
    ||| text == "var"@
    ||| text == "return"@
    ||| text == "if"@
    ||| text == "while"@
    ||| text == "for"@
}

/// The keyword table: the keyword that a spelling names, if it names one.
///
/// The match is on the whole text and case-sensitive.
pub open spec fn keyword(text: Seq<char>) -> Option<LiaTokenView> {
    if text == "function"@ {
        Some(LiaTokenView::Function)
    } else if text == "var"@ {
        Some(LiaTokenView::Var)
    } else if text == "return"@ {
        Some(LiaTokenView::Return)
    } else if text == "if"@ {
        Some(LiaTokenView::If)
    } else if text == "while"@ {
        Some(LiaTokenView::While)
    } else if text == "for"@ {
        Some(LiaTokenView::For)
    } else {
        None
    }
}

/// What reclassification makes of a host token: the keyword it spells if it
/// is a name that spells one, else the token itself.
pub open spec fn classify(t: HostTokenView) -> LiaTokenView {
    if t.is_identifier() {
        match keyword(t.text) {
            Some(k) => k,
            None => LiaTokenView::RustToken(t),
        }
    } else {
        LiaTokenView::RustToken(t)
    }
}

impl LiaToken {
    /// Reclassifies one host token.
    ///
    /// A name spelled exactly like a reserved word becomes that keyword and
    /// the host token is dropped. Any other token is moved, unchanged, into
    /// [`LiaToken::RustToken`].
    pub fn from_rust_token(t: HostToken) -> (r: LiaToken)
        ensures
            r@ == classify(t@),
            r matches LiaToken::RustToken(inner) ==> inner == t,
    {
        if t.is_identifier() {
            let s = t.text();
            if same_text(s, "function") {
                return LiaToken::Function;
            } else if same_text(s, "var") {
                return LiaToken::Var;
            } else if same_text(s, "return") {
                return LiaToken::Return;
            } else if same_text(s, "if") {
                return LiaToken::If;
            } else if same_text(s, "while") {
                return LiaToken::While;
            } else if same_text(s, "for") {
                return LiaToken::For;
            }
        }
        LiaToken::RustToken(t)
    }
}

/// Reclassifies a whole stream of host tokens: one lia token per host
/// token, in the order of the input.
pub fn from_rust_tokens(tokens: Vec<HostToken>) -> (r: Vec<LiaToken>)
    ensures
        r@.len() == tokens@.len(),
        forall|i: int| 0 <= i < tokens@.len() ==> (#[trigger] r@[i])@ == classify(tokens@[i]@),
        forall|i: int|
            0 <= i < tokens@.len() ==> (#[trigger] r@[i] matches LiaToken::RustToken(inner)
                ==> inner == tokens@[i]),
{
    let mut out: Vec<LiaToken> = Vec::new();
    for t in it: tokens.into_iter()
        invariant
            it.seq() == tokens@,
            out@.len() == it.index(),
            forall|i: int| 0 <= i < it.index() ==> (#[trigger] out@[i])@ == classify(tokens@[i]@),
            forall|i: int|
                0 <= i < it.index() ==> (#[trigger] out@[i] matches LiaToken::RustToken(inner)
                    ==> inner == tokens@[i]),
    {
        out.push(LiaToken::from_rust_token(t));
    }
    out
}

} // verus!
