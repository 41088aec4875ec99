//! Attributes and visibility have no place in a shader: both are dropped.

use crate::error::UnsupportedSyntax;
use crate::rewrite::{Rule, Step};
use crate::token::{is_group, is_punct, stream_view, Delimiter, Token, TokenTree};
use vstd::prelude::*;

verus! {

/// The number of tokens that the attribute or visibility at position `at`
/// takes up; zero where neither starts there. An attribute is `#[..]` or
/// `#![..]`, a visibility is `pub` with or without a restriction in round
/// brackets.
pub open spec fn annotation_len(tokens: Seq<TokenTree>, at: int) -> int {
    if at < 0 || at >= tokens.len() {
        0
    } else if is_punct(tokens[at], '#') {
        if at + 1 < tokens.len() && is_group(tokens[at + 1], Delimiter::Bracket) {
            2
        } else if at + 2 < tokens.len() && is_punct(tokens[at + 1], '!') && is_group(
            tokens[at + 2],
            Delimiter::Bracket,
        ) {
            3
        } else {
            0
        }
    } else if tokens[at] == TokenTree::Ident("pub"@) {
        if at + 1 < tokens.len() && is_group(tokens[at + 1], Delimiter::Parenthesis) {
            2
        } else {
            1
        }
    } else {
        0
    }
}

/// Measures the attribute or visibility at position `at`.
pub(crate) fn measure_annotation(tokens: &Vec<Token>, at: usize) -> (len: usize)
    requires
        at < tokens.len(),
    ensures
        len == annotation_len(stream_view(tokens@), at as int),
        at + len <= tokens.len(),
{
    let left = tokens.len() - at;
    if tokens[at].is_punct('#') {
        if left > 1 && tokens[at + 1].is_group(Delimiter::Bracket) {
            2
        } else if left > 2 && tokens[at + 1].is_punct('!') && tokens[at + 2].is_group(
            Delimiter::Bracket,
        ) {
            3
        } else {
            0
        }
    } else if tokens[at].is_ident("pub") {
        if left > 1 && tokens[at + 1].is_group(Delimiter::Parenthesis) {
            2
        } else {
            1
        }
    } else {
        0
    }
}

/// Drops attributes and visibility.
pub struct Annotations;

impl View for Annotations {
    type V = ();

    open spec fn view(&self) -> () {
        ()
    }
}

impl Rule for Annotations {
    open spec fn step(rule: (), output: Seq<TokenTree>, tokens: Seq<TokenTree>, at: int) -> Option<
        Result<Step, UnsupportedSyntax>,
    > {
        if annotation_len(tokens, at) > 0 {
            Some(Ok(Step { output, next: at + annotation_len(tokens, at) }))
        } else {
            None
        }
    }

    fn apply(&self, output: &mut Vec<Token>, tokens: &Vec<Token>, at: usize) -> (result: Option<
        Result<usize, UnsupportedSyntax>,
    >) {
        let len = measure_annotation(tokens, at);
        if len > 0 {
            Some(Ok(at + len))
        } else {
            None
        }
    }
}

} // verus!
