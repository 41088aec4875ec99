//! What shader code cannot say is refused outright: `for` loops over
//! iterators, `match`, macro calls and the like have no counterpart that a
//! rewriting of tokens could reach.

use crate::error::UnsupportedSyntax;
use crate::rewrite::{Rule, Step};
use crate::token::{is_punct, Token, TokenTree};
use vstd::prelude::*;

verus! {

/// The keywords of constructs that shaders do not have.
pub open spec fn is_refused_keyword(name: Seq<char>) -> bool {
    name == "for"@ || name == "match"@ || name == "impl"@ || name == "unsafe"@ || name
        == "async"@ || name == "await"@ || name == "dyn"@ || name == "move"@ || name == "ref"@
        || name == "where"@
}

/// Whether a macro call starts at position `at`: a name, an exclamation
/// mark and a group.
pub open spec fn macro_call_at(tokens: Seq<TokenTree>, at: int) -> bool {
    &&& 0 <= at
    &&& at + 2 < tokens.len()
    &&& tokens[at] is Ident
    &&& is_punct(tokens[at + 1], '!')
    &&& tokens[at + 2] is Group
}

/// Whether something that shaders do not have starts at position `at`.
pub open spec fn refused_at(tokens: Seq<TokenTree>, at: int) -> bool {
    0 <= at < tokens.len() && (macro_call_at(tokens, at) || match tokens[at] {
        TokenTree::Ident(name) => is_refused_keyword(name),
        _ => false,
    })
}

/// Refuses the constructs that shaders do not have.
pub struct ShaderSubset;

impl View for ShaderSubset {
    type V = ();

    open spec fn view(&self) -> () {
        ()
    }
}

impl Rule for ShaderSubset {
    open spec fn step(rule: (), output: Seq<TokenTree>, tokens: Seq<TokenTree>, at: int) -> Option<
        Result<Step, UnsupportedSyntax>,
    > {
        if refused_at(tokens, at) {
            Some(Err(UnsupportedSyntax::UnsupportedExpression))
        } else {
            None
        }
    }

    fn apply(&self, output: &mut Vec<Token>, tokens: &Vec<Token>, at: usize) -> (result: Option<
        Result<usize, UnsupportedSyntax>,
    >) {
        let name = match tokens[at].ident_text() {
            Some(name) => name,
            None => {
                return None;
            },
        };
        if name.eq("for") || name.eq("match") || name.eq("impl") || name.eq("unsafe") || name.eq(
            "async",
        ) || name.eq("await") || name.eq("dyn") || name.eq("move") || name.eq("ref") || name.eq(
            "where",
        ) {
            return Some(Err(UnsupportedSyntax::UnsupportedExpression));
        }
        if tokens.len() - at > 2 {
            let group = match &tokens[at + 2] {
                Token::Group(_, _) => true,
                _ => false,
            };
            if tokens[at + 1].is_punct('!') && group {
                return Some(Err(UnsupportedSyntax::UnsupportedExpression));
            }
        }
        None
    }
}

} // verus!
