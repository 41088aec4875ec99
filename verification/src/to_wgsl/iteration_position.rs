//! The iteration position of the entry point is read-only: an assignment to
//! it, or to one of its components, is refused.

use crate::error::UnsupportedSyntax;
use crate::rewrite::{Rule, Step};
use crate::token::{is_joint, is_punct, stream_view, Token, TokenTree};
use vstd::prelude::*;

verus! {

/// Whether the token can follow the dot of a field access: a field name or
/// the number of a tuple field.
pub open spec fn is_field(token: TokenTree) -> bool {
    token is Ident || token is Literal
}

/// Where the place expression ends that continues at position `at` with
/// field accesses.
pub open spec fn place_end(tokens: Seq<TokenTree>, at: int) -> int
    decreases tokens.len() - at,
{
    if 0 <= at && at + 1 < tokens.len() && is_punct(tokens[at], '.') && is_field(tokens[at + 1]) {
        place_end(tokens, at + 2)
    } else {
        at
    }
}

/// Whether the token is an operator that forms a compound assignment with
/// an equals sign right behind it.
pub open spec fn is_compound_operator(token: TokenTree) -> bool {
    is_joint(token) && (is_punct(token, '+') || is_punct(token, '-') || is_punct(token, '*')
        || is_punct(token, '/') || is_punct(token, '%') || is_punct(token, '^') || is_punct(
        token,
        '&',
    ) || is_punct(token, '|'))
}

/// Whether an assignment operator starts at position `at`: `=` that is not
/// the start of `==` or `=>`, a compound assignment such as `+=`, or a
/// shift assignment `<<=` or `>>=`.
pub open spec fn assignment_at(tokens: Seq<TokenTree>, at: int) -> bool {
    if at < 0 || at >= tokens.len() {
        false
    } else if is_punct(tokens[at], '=') {
        !(is_joint(tokens[at]) && at + 1 < tokens.len() && (is_punct(tokens[at + 1], '=')
            || is_punct(tokens[at + 1], '>')))
    } else if is_compound_operator(tokens[at]) {
        at + 1 < tokens.len() && is_punct(tokens[at + 1], '=')
    } else if is_joint(tokens[at]) && (is_punct(tokens[at], '<') || is_punct(tokens[at], '>')) {
        at + 2 < tokens.len() && tokens[at + 1] == tokens[at] && is_punct(tokens[at + 2], '=')
    } else {
        false
    }
}

/// Whether the variable `name` stands at position `at`, not as a field of
/// something else, and is assigned to there, itself or a component.
pub open spec fn assigned_at(tokens: Seq<TokenTree>, name: Seq<char>, at: int) -> bool {
    &&& 0 <= at < tokens.len()
    &&& tokens[at] == TokenTree::Ident(name)
    &&& !(at >= 1 && is_punct(tokens[at - 1], '.'))
    &&& assignment_at(tokens, place_end(tokens, at + 1))
}

fn token_is_field(token: &Token) -> (found: bool)
    ensures
        found == is_field(token@),
{
    match token {
        Token::Ident(_) => true,
        Token::Literal(_) => true,
        _ => false,
    }
}

fn find_place_end(tokens: &Vec<Token>, from: usize) -> (end: usize)
    requires
        from <= tokens.len(),
    ensures
        end == place_end(stream_view(tokens@), from as int),
        from <= end <= tokens.len(),
{
    let ghost trees = stream_view(tokens@);
    let mut at: usize = from;
    loop
        invariant
            from <= at <= tokens.len(),
            trees == stream_view(tokens@),
            place_end(trees, from as int) == place_end(trees, at as int),
        decreases tokens.len() - at,
    {
        if tokens.len() - at < 2 {
            return at;
        }
        if tokens[at].is_punct('.') && token_is_field(&tokens[at + 1]) {
            at = at + 2;
        } else {
            return at;
        }
    }
}

fn is_assignment(tokens: &Vec<Token>, at: usize) -> (found: bool)
    requires
        at <= tokens.len(),
    ensures
        found == assignment_at(stream_view(tokens@), at as int),
{
    if at >= tokens.len() {
        return false;
    }
    let left = tokens.len() - at;
    let (c, joint) = match &tokens[at] {
        Token::Punct(c, joint) => (*c, *joint),
        _ => {
            return false;
        },
    };
    if c == '=' {
        !(joint && left > 1 && (tokens[at + 1].is_punct('=') || tokens[at + 1].is_punct('>')))
    } else if joint && (c == '+' || c == '-' || c == '*' || c == '/' || c == '%' || c == '^' || c
        == '&' || c == '|') {
        left > 1 && tokens[at + 1].is_punct('=')
    } else if joint && (c == '<' || c == '>') {
        left > 2 && match &tokens[at + 1] {
            Token::Punct(d, j) => *d == c && *j == joint,
            _ => false,
        } && tokens[at + 2].is_punct('=')
    } else {
        false
    }
}

/// Refuses assignments to the variable that it names.
pub struct ReadOnly {
    pub variable: String,
}

impl View for ReadOnly {
    type V = Seq<char>;

    open spec fn view(&self) -> Seq<char> {
        self.variable@
    }
}

impl Rule for ReadOnly {
    open spec fn step(
        rule: Seq<char>,
        output: Seq<TokenTree>,
        tokens: Seq<TokenTree>,
        at: int,
    ) -> Option<
        Result<Step, UnsupportedSyntax>,
    > {
        if assigned_at(tokens, rule, at) {
            Some(Err(UnsupportedSyntax::AssignmentToIterationPosition))
        } else {
            None
        }
    }

    fn apply(&self, output: &mut Vec<Token>, tokens: &Vec<Token>, at: usize) -> (result: Option<
        Result<usize, UnsupportedSyntax>,
    >) {
        if !tokens[at].is_ident(self.variable.as_str()) {
            return None;
        }
        if at >= 1 {
            if tokens[at - 1].is_punct('.') {
                return None;
            }
        }
        let end = find_place_end(tokens, at + 1);
        if is_assignment(tokens, end) {
            Some(Err(UnsupportedSyntax::AssignmentToIterationPosition))
        } else {
            None
        }
    }
}

} // verus!
