//! What holds of reclassification on every input.

use vstd::prelude::*;
use crate::host::{HostToken, HostTokenView};
use crate::token::{classify, is_reserved, keyword, LiaTokenView};

verus! {

/// The six reserved words are pairwise different texts.
proof fn reserved_words_differ()
    ensures
        "function"@ != "var"@,
        "function"@ != "return"@,
        "function"@ != "if"@,
        "function"@ != "while"@,
        "function"@ != "for"@,
        "var"@ != "return"@,
        "var"@ != "if"@,
        "var"@ != "while"@,
        "var"@ != "for"@,
        "return"@ != "if"@,
        "return"@ != "while"@,
        "return"@ != "for"@,
        "if"@ != "while"@,
        "if"@ != "for"@,
        "while"@ != "for"@,
{
    reveal_strlit("function");
    reveal_strlit("var");
    reveal_strlit("return");
    reveal_strlit("if");
    reveal_strlit("while");
    reveal_strlit("for");
    assert("function"@.len() == 8);
    assert("var"@.len() == 3);
    assert("return"@.len() == 6);
    assert("if"@.len() == 2);
    assert("while"@.len() == 5);
    assert("for"@.len() == 3);
    assert("var"@[0] == 'v');
    assert("for"@[0] == 'f');
}

/// The keyword table sends each reserved word to its own keyword, and
/// nothing else to any keyword. What it names is never a host token.
pub proof fn keyword_table(text: Seq<char>)
    ensures
        text == "function"@ <==> keyword(text) == Some(LiaTokenView::Function),
        text == "var"@ <==> keyword(text) == Some(LiaTokenView::Var),
        text == "return"@ <==> keyword(text) == Some(LiaTokenView::Return),
        text == "if"@ <==> keyword(text) == Some(LiaTokenView::If),
        text == "while"@ <==> keyword(text) == Some(LiaTokenView::While),
        text == "for"@ <==> keyword(text) == Some(LiaTokenView::For),
        is_reserved(text) <==> keyword(text) is Some,
        keyword(text) matches Some(k) ==> !(k is RustToken),
{
    reserved_words_differ();
}

/// No two different spellings name the same keyword.
pub proof fn keyword_has_one_spelling(a: Seq<char>, b: Seq<char>)
    requires
        keyword(a) is Some,
        keyword(a) == keyword(b),
    ensures
        a == b,
{
    keyword_table(a);
    keyword_table(b);
}

/// A name spelled like a reserved word becomes the keyword of that word,
/// wherever it stands in the source.
pub proof fn reserved_name_becomes_keyword(t: HostTokenView)
    requires
        t.is_identifier(),
    ensures
        t.text == "function"@ ==> classify(t) == LiaTokenView::Function,
        t.text == "var"@ ==> classify(t) == LiaTokenView::Var,
        t.text == "return"@ ==> classify(t) == LiaTokenView::Return,
        t.text == "if"@ ==> classify(t) == LiaTokenView::If,
        t.text == "while"@ ==> classify(t) == LiaTokenView::While,
        t.text == "for"@ ==> classify(t) == LiaTokenView::For,
{
    keyword_table(t.text);
}

/// A name that is not spelled like a reserved word passes through as it is.
pub proof fn other_name_passes_through(t: HostTokenView)
    requires
        t.is_identifier(),
        !is_reserved(t.text),
    ensures
        classify(t) == LiaTokenView::RustToken(t),
{
}

/// A token that is not a name passes through as it is, whatever its text.
pub proof fn non_name_passes_through(t: HostTokenView)
    requires
        !t.is_identifier(),
    ensures
        classify(t) == LiaTokenView::RustToken(t),
{
}

/// A token becomes a keyword exactly if it is a name spelled like a
/// reserved word; a token that does not is wrapped unchanged.
pub proof fn keyword_iff_reserved_name(t: HostTokenView)
    ensures
        classify(t) is RustToken <==> !(t.is_identifier() && is_reserved(t.text)),
        classify(t) is RustToken ==> classify(t) == LiaTokenView::RustToken(t),
{
    keyword_table(t.text);
}

/// Reserved words are written in the lower-case letters `a` to `z` alone, so
/// a name with a capital letter, a blank or any other character in it is
/// never taken for a keyword.
pub proof fn reserved_words_are_lower_case(text: Seq<char>)
    requires
        is_reserved(text),
    ensures
        forall|i: int| 0 <= i < text.len() ==> 'a' <= #[trigger] text[i] <= 'z',
{
    reveal_strlit("function");
    reveal_strlit("var");
    reveal_strlit("return");
    reveal_strlit("if");
    reveal_strlit("while");
    reveal_strlit("for");
}

/// Two tokens of the same kind, spelling and span are classified alike: the
/// result is a function of the token's value and of nothing else.
pub proof fn classification_is_deterministic(a: HostToken, b: HostToken)
    requires
        a@ == b@,
    ensures
        classify(a@) == classify(b@),
{
}

} // verus!
