//! Local variables: `let mut` becomes `var`; `let` stays.

use crate::error::UnsupportedSyntax;
use crate::rewrite::{Rule, Step};
use crate::token::{lemma_stream_view_push, Token, TokenTree};
use vstd::prelude::*;

verus! {

/// Rewrites the declaration of a mutable local variable.
pub struct MutableLocals;

impl View for MutableLocals {
    type V = ();

    open spec fn view(&self) -> () {
        ()
    }
}

impl Rule for MutableLocals {
    open spec fn step(rule: (), output: Seq<TokenTree>, tokens: Seq<TokenTree>, at: int) -> Option<
        Result<Step, UnsupportedSyntax>,
    > {
        if 0 <= at && at + 1 < tokens.len() && tokens[at] == TokenTree::Ident("let"@) && tokens[at
            + 1] == TokenTree::Ident("mut"@) {
            Some(Ok(Step { output: output.push(TokenTree::Ident("var"@)), next: at + 2 }))
        } else {
            None
        }
    }

    fn apply(&self, output: &mut Vec<Token>, tokens: &Vec<Token>, at: usize) -> (result: Option<
        Result<usize, UnsupportedSyntax>,
    >) {
        if tokens.len() - at < 2 {
            return None;
        }
        if tokens[at].is_ident("let") && tokens[at + 1].is_ident("mut") {
            let token = Token::ident("var");
            proof {
                lemma_stream_view_push(output@, token);
            }
            output.push(token);
            Some(Ok(at + 2))
        } else {
            None
        }
    }
}

} // verus!
