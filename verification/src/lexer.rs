//! Turning source text into token trees, and token trees back into text
//! with one space between any two tokens, as `proc_macro2` displays them.
//! The text that the record of a module keeps is written by `printer`.

use crate::token::{is_joint, stream_view, Delimiter, Token, TokenTree};
use std::str::FromStr;
use vstd::prelude::*;
use vstd::string::StringExecFns;

verus! {

/// `proc_macro2::TokenStream`, a sequence of token trees whose inside is
/// not looked into here.
#[verifier::external_type_specification]
#[verifier::external_body]
pub struct ExTokenStream(proc_macro2::TokenStream);

/// `proc_macro2::LexError`, the error of a text that is not made of tokens.
#[verifier::external_type_specification]
#[verifier::external_body]
pub struct ExLexError(proc_macro2::LexError);

/// The token trees that `proc_macro2` finds in a text, or `None` where it
/// rejects the text. Outside of a procedural macro, which is where this
/// library runs, the lexer is the crate's own and depends on the text
/// alone.
pub uninterp spec fn lexed(text: Seq<char>) -> Option<Seq<TokenTree>>;

/// The token trees that a `proc_macro2::TokenStream` holds, in order.
pub uninterp spec fn stream_tokens(stream: proc_macro2::TokenStream) -> Seq<TokenTree>;

/// Calls `proc_macro2::TokenStream::from_str`. Nothing is claimed about
/// which tokens a text has; the contract only gives the outcome its name:
/// a stream holds the token trees of the text, and an error means that
/// the text has none.
#[verifier::external_body]
fn parse_stream(text: &str) -> (result: Result<proc_macro2::TokenStream, proc_macro2::LexError>)
    ensures
        match result {
            Ok(stream) => lexed(text@) == Some(stream_tokens(stream)),
            Err(_) => lexed(text@) is None,
        },
{
    proc_macro2::TokenStream::from_str(text)
}

/// Walks a `proc_macro2::TokenStream` with `into_iter` and copies each
/// `proc_macro2::TokenTree` into a `Token`, variant by variant: the text of
/// an identifier or literal (`to_string`), the character and spacing of a
/// punctuation mark (`as_char`, `spacing`), the delimiter and inner stream
/// of a group (`delimiter`, `stream`). The contract claims that the copy
/// holds what the stream held.
#[verifier::external_body]
pub(crate) fn stream_to_tokens(stream: proc_macro2::TokenStream) -> (tokens: Vec<Token>)
    ensures
        stream_view(tokens@) == stream_tokens(stream),
{
    stream.into_iter().map(|tree| match tree {
        proc_macro2::TokenTree::Group(g) => Token::Group(match g.delimiter() {
            proc_macro2::Delimiter::Parenthesis => Delimiter::Parenthesis,
            proc_macro2::Delimiter::Brace => Delimiter::Brace,
            proc_macro2::Delimiter::Bracket => Delimiter::Bracket,
            proc_macro2::Delimiter::None => Delimiter::Invisible,
        }, stream_to_tokens(g.stream())),
        proc_macro2::TokenTree::Ident(i) => Token::Ident(i.to_string()),
        proc_macro2::TokenTree::Punct(p) => Token::Punct(p.as_char(), match p.spacing() {
            proc_macro2::Spacing::Alone => false,
            proc_macro2::Spacing::Joint => true,
        }),
        proc_macro2::TokenTree::Literal(l) => Token::Literal(l.to_string()),
    }).collect()
}

/// Copies the token trees of a stream.
pub fn tokens_of(stream: proc_macro2::TokenStream) -> (tokens: Vec<Token>)
    ensures
        stream_view(tokens@) == stream_tokens(stream),
{
    stream_to_tokens(stream)
}

/// Splits a text into token trees. Returns `None` exactly when the lexer
/// rejects the text, as it does for unbalanced delimiters.
pub fn lex(text: &str) -> (result: Option<Vec<Token>>)
    ensures
        match result {
            Some(tokens) => lexed(text@) == Some(stream_view(tokens@)),
            None => lexed(text@) is None,
        },
{
    match parse_stream(text) {
        Ok(stream) => Some(stream_to_tokens(stream)),
        Err(_) => None,
    }
}

/// The opening bracket of a group, as it is written.
pub open spec fn open_text(delimiter: Delimiter) -> Seq<char> {
    match delimiter {
        Delimiter::Parenthesis => seq!['('],
        Delimiter::Brace => seq!['{', ' '],
        Delimiter::Bracket => seq!['['],
        Delimiter::Invisible => seq![],
    }
}

/// The closing bracket of a group, as it is written after its contents.
pub open spec fn close_text(delimiter: Delimiter, empty: bool) -> Seq<char> {
    match delimiter {
        Delimiter::Parenthesis => seq![')'],
        Delimiter::Brace => if empty {
            seq!['}']
        } else {
            seq![' ', '}']
        },
        Delimiter::Bracket => seq![']'],
        Delimiter::Invisible => seq![],
    }
}

/// Whether a space is written in front of the token at `index`: always,
/// except in front of the first token and after a punctuation mark that the
/// next one continues.
pub open spec fn space_before(tokens: Seq<TokenTree>, index: int) -> bool {
    index > 0 && !is_joint(tokens[index - 1])
}

/// The text of one token tree.
pub open spec fn token_text(token: TokenTree) -> Seq<char>
    decreases token, 0nat,
{
    match token {
        TokenTree::Ident(name) => name,
        TokenTree::Punct(c, _) => seq![c],
        TokenTree::Literal(text) => text,
        TokenTree::Group(delimiter, inner) => open_text(delimiter) + prefix_text(
            inner,
            inner.len(),
        ) + close_text(delimiter, inner.len() == 0),
    }
}

/// The text of the first `count` token trees of a sequence.
pub open spec fn prefix_text(tokens: Seq<TokenTree>, count: nat) -> Seq<char>
    decreases tokens, count,
{
    if count == 0 || count > tokens.len() {
        seq![]
    } else {
        let index = (count - 1) as int;
        let separator = if space_before(tokens, index) {
            seq![' ']
        } else {
            seq![]
        };
        prefix_text(tokens, (count - 1) as nat) + separator + token_text(tokens[index])
    }
}

/// The text of a sequence of token trees: the tokens separated by single
/// spaces, groups inside their brackets.
pub open spec fn stream_text(tokens: Seq<TokenTree>) -> Seq<char> {
    prefix_text(tokens, tokens.len())
}

fn render_token_into(token: &Token, out: &mut String)
    ensures
        final(out)@ == old(out)@ + token_text(token@),
    decreases token, 0nat,
{
    match token {
        Token::Ident(name) => {
            out.append(name.as_str());
        },
        Token::Punct(c, _) => {
            out.push(*c);
        },
        Token::Literal(text) => {
            out.append(text.as_str());
        },
        Token::Group(delimiter, inner) => {
            match delimiter {
                Delimiter::Parenthesis => {
                    out.push('(');
                },
                Delimiter::Brace => {
                    out.push('{');
                    out.push(' ');
                },
                Delimiter::Bracket => {
                    out.push('[');
                },
                Delimiter::Invisible => {},
            }
            render_into(inner, out);
            match delimiter {
                Delimiter::Parenthesis => {
                    out.push(')');
                },
                Delimiter::Brace => {
                    if inner.len() != 0 {
                        out.push(' ');
                    }
                    out.push('}');
                },
                Delimiter::Bracket => {
                    out.push(']');
                },
                Delimiter::Invisible => {},
            }
        },
    }
}

fn render_into(tokens: &Vec<Token>, out: &mut String)
    ensures
        final(out)@ == old(out)@ + stream_text(stream_view(tokens@)),
    decreases tokens, 1nat,
{
    let ghost trees = stream_view(tokens@);
    let ghost start = out@;
    let mut joint = false;
    let mut i: usize = 0;
    while i < tokens.len()
        invariant
            i <= tokens.len(),
            trees == stream_view(tokens@),
            out@ == start + prefix_text(trees, i as nat),
            joint == (i > 0 && is_joint(trees[i - 1])),
        decreases tokens.len() - i,
    {
        if i != 0 && !joint {
            out.push(' ');
        }
        render_token_into(&tokens[i], out);
        joint = match &tokens[i] {
            Token::Punct(_, j) => *j,
            _ => false,
        };
        i = i + 1;
    }
}

/// Writes token trees as text.
pub fn render(tokens: &Vec<Token>) -> (text: String)
    ensures
        text@ == stream_text(stream_view(tokens@)),
{
    let mut out = String::new();
    render_into(tokens, &mut out);
    out
}

} // verus!
