use lia::{from_rust_tokens, HostToken, LiaToken, Span, TokenKind};

fn name_at(text: &str, lo: u32) -> HostToken {
    HostToken {
        kind: TokenKind::Identifier,
        text: text.to_string(),
        span: Span { lo, hi: lo + text.len() as u32 },
    }
}

#[test]
fn function_foo_var_x() {
    let stream = vec![name_at("function", 0), name_at("foo", 9), name_at("var", 13), name_at("x", 17)];
    let out = from_rust_tokens(stream);
    assert_eq!(
        out,
        vec![
            LiaToken::Function,
            LiaToken::RustToken(name_at("foo", 9)),
            LiaToken::Var,
            LiaToken::RustToken(name_at("x", 17)),
        ]
    );
}

#[test]
fn empty_stream_gives_empty_stream() {
    assert_eq!(from_rust_tokens(Vec::new()), Vec::<LiaToken>::new());
}

#[test]
fn stream_keeps_length_and_order() {
    let mut stream: Vec<HostToken> = Vec::new();
    for i in 0..50u32 {
        stream.push(name_at(&format!("n{}", i), i * 10));
    }
    let out = from_rust_tokens(stream.clone());
    assert_eq!(out.len(), 50);
    for (i, t) in out.iter().enumerate() {
        assert_eq!(*t, LiaToken::RustToken(stream[i].clone()));
    }
}

#[test]
fn stream_agrees_with_token_by_token() {
    let punct = HostToken {
        kind: TokenKind::Punctuation,
        text: "(".to_string(),
        span: Span { lo: 2, hi: 3 },
    };
    let lit = HostToken {
        kind: TokenKind::Literal,
        text: "10".to_string(),
        span: Span { lo: 8, hi: 10 },
    };
    let stream = vec![
        name_at("if", 0),
        punct.clone(),
        name_at("i", 3),
        lit.clone(),
        name_at("return", 12),
        name_at("for", 19),
        name_at("while", 23),
        name_at("For", 29),
    ];
    let one_by_one: Vec<LiaToken> =
        stream.iter().map(|t| LiaToken::from_rust_token(t.clone())).collect();
    let out = from_rust_tokens(stream);
    assert_eq!(out, one_by_one);
    assert_eq!(
        out,
        vec![
            LiaToken::If,
            LiaToken::RustToken(punct),
            LiaToken::RustToken(name_at("i", 3)),
            LiaToken::RustToken(lit),
            LiaToken::Return,
            LiaToken::For,
            LiaToken::While,
            LiaToken::RustToken(name_at("For", 29)),
        ]
    );
}
