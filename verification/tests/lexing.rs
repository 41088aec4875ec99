use rust_to_wgsl::lexer::{lex, render};
use rust_to_wgsl::token::{Delimiter, Token};
use std::str::FromStr;

fn printed_by_proc_macro2(text: &str) -> String {
    proc_macro2::TokenStream::from_str(text).unwrap().to_string()
}

#[test]
fn render_agrees_with_proc_macro2_display() {
    let samples = [
        "",
        "x",
        "fn example() { let x = radius_input_array[5]; }",
        "mod test { fn example() { atomicAdd(&counter, 1u); if a <= b || c >= d { return; } } }",
        "struct S { a: f32, b: [f32; 2], }",
        "let y: Vec<u32> = a::b::<T>(1.0, -2, 'c', \"s\"); {} () [] x += 1; y -> z",
    ];
    for sample in samples {
        let tokens = lex(sample).unwrap();
        assert_eq!(render(&tokens), printed_by_proc_macro2(sample));
    }
}

#[test]
fn lex_rejects_unbalanced_text() {
    assert!(lex("fn f( {").is_none());
    assert!(lex("a ) b").is_none());
    assert!(lex("\"open").is_none());
}

#[test]
fn lex_builds_token_trees() {
    let tokens = lex("a += [b]").unwrap();
    assert_eq!(tokens.len(), 4);
    assert!(matches!(&tokens[0], Token::Ident(name) if name == "a"));
    assert!(matches!(&tokens[1], Token::Punct('+', true)));
    assert!(matches!(&tokens[2], Token::Punct('=', false)));
    match &tokens[3] {
        Token::Group(Delimiter::Bracket, inner) => {
            assert_eq!(inner.len(), 1);
            assert!(matches!(&inner[0], Token::Ident(name) if name == "b"));
        }
        other => panic!("unexpected token {:?}", other),
    }
}

#[test]
fn render_writes_brace_groups_with_inner_spaces() {
    let empty = vec![Token::Group(Delimiter::Brace, vec![])];
    assert_eq!(render(&empty), "{ }");
    let filled = vec![Token::Group(
        Delimiter::Brace,
        vec![Token::Ident("a".to_string()), Token::Punct(';', false)],
    )];
    assert_eq!(render(&filled), "{ a ; }");
}
