//! Casts: `operand as Type` becomes the conversion call `Type(operand)`.
//!
//! As in the source language, `as` binds more tightly than the binary
//! operators and less tightly than the prefix operators, calls, indexing
//! and field access: the operand is a name, a literal or a bracketed
//! expression, with what is applied to it.

use crate::error::UnsupportedSyntax;
use crate::rewrite::{Rule, Step};
use crate::token::{
    duplicate_range, is_joint, is_punct, parenthesized, stream_view, Delimiter, Token, TokenTree,
};
use vstd::prelude::*;

verus! {

/// The words that neither name a value nor a type.
pub open spec fn is_keyword(name: Seq<char>) -> bool {
    name == "return"@ || name == "if"@ || name == "else"@ || name == "while"@ || name == "for"@
        || name == "in"@ || name == "match"@ || name == "let"@ || name == "mut"@ || name
        == "var"@ || name == "break"@ || name == "continue"@ || name == "loop"@ || name == "as"@
}

/// Whether the token is an identifier that names something.
pub open spec fn is_name(token: TokenTree) -> bool {
    match token {
        TokenTree::Ident(name) => !is_keyword(name),
        _ => false,
    }
}

/// Whether an operand can end with the token: a name, a literal, or a
/// group in round or square brackets.
pub open spec fn ends_operand(token: TokenTree) -> bool {
    match token {
        TokenTree::Ident(name) => !is_keyword(name),
        TokenTree::Literal(_) => true,
        TokenTree::Group(delimiter, _) => delimiter == Delimiter::Parenthesis || delimiter
            == Delimiter::Bracket,
        TokenTree::Punct(_, _) => false,
    }
}

/// Where the operand that ends in front of position `end` starts, prefix
/// operators not counted: a name or literal with the path or the field
/// accesses that lead to it, or a bracketed group with what it is applied
/// to. The result is `end` where no operand ends there.
pub open spec fn chain_start(tokens: Seq<TokenTree>, end: int) -> int
    decreases end,
{
    if end <= 0 || end > tokens.len() || !ends_operand(tokens[end - 1]) {
        end
    } else if tokens[end - 1] is Group {
        if end >= 2 && ends_operand(tokens[end - 2]) && !(tokens[end - 2] is Literal) {
            chain_start(tokens, end - 1)
        } else {
            end - 1
        }
    } else if end >= 3 && is_punct(tokens[end - 2], '.') && ends_operand(tokens[end - 3]) {
        chain_start(tokens, end - 2)
    } else if end >= 4 && is_punct(tokens[end - 2], ':') && is_punct(tokens[end - 3], ':')
        && is_name(tokens[end - 4]) {
        chain_start(tokens, end - 3)
    } else {
        end - 1
    }
}

/// Whether the token in front of position `start` is a prefix operator:
/// one of `-`, `!`, `*`, `&` that does not follow an operand and is not the
/// second half of `&&`.
pub open spec fn prefix_before(tokens: Seq<TokenTree>, start: int) -> bool {
    &&& 1 <= start <= tokens.len()
    &&& (is_punct(tokens[start - 1], '-') || is_punct(tokens[start - 1], '!') || is_punct(
        tokens[start - 1],
        '*',
    ) || is_punct(tokens[start - 1], '&'))
    &&& (start >= 2 ==> !ends_operand(tokens[start - 2]))
    &&& !(start >= 2 && is_punct(tokens[start - 1], '&') && is_punct(tokens[start - 2], '&')
        && is_joint(tokens[start - 2]))
}

/// Where the prefix operators in front of position `start` start.
pub open spec fn prefix_start(tokens: Seq<TokenTree>, start: int) -> int
    decreases start,
{
    if prefix_before(tokens, start) {
        prefix_start(tokens, start - 1)
    } else {
        start
    }
}

/// Where the operand at the end of `tokens` starts; the length of `tokens`
/// where they do not end in an operand.
pub open spec fn operand_start(tokens: Seq<TokenTree>) -> int {
    let chain = chain_start(tokens, tokens.len() as int);
    if chain == tokens.len() {
        chain
    } else {
        prefix_start(tokens, chain)
    }
}

/// Where the path ends that continues at position `at` with `::` and a
/// name.
pub open spec fn path_end(tokens: Seq<TokenTree>, at: int) -> int
    decreases tokens.len() - at,
{
    if 0 <= at && at + 2 < tokens.len() && is_punct(tokens[at], ':') && is_punct(
        tokens[at + 1],
        ':',
    ) && is_name(tokens[at + 2]) {
        path_end(tokens, at + 3)
    } else {
        at
    }
}

/// Where the type ends that starts at position `from`: a name or a path of
/// names. The result is `from` where no type starts there.
pub open spec fn cast_type_end(tokens: Seq<TokenTree>, from: int) -> int {
    if 0 <= from < tokens.len() && is_name(tokens[from]) {
        path_end(tokens, from + 1)
    } else {
        from
    }
}

/// Whether `name` is one of the words that neither name a value nor a type.
pub(crate) fn keyword(name: &str) -> (found: bool)
    ensures
        found == is_keyword(name@),
{
    name.eq("return") || name.eq("if") || name.eq("else") || name.eq("while") || name.eq("for")
        || name.eq("in") || name.eq("match") || name.eq("let") || name.eq("mut") || name.eq(
        "var",
    ) || name.eq("break") || name.eq("continue") || name.eq("loop") || name.eq("as")
}

fn token_is_name(token: &Token) -> (found: bool)
    ensures
        found == is_name(token@),
{
    match token {
        Token::Ident(name) => !keyword(name.as_str()),
        _ => false,
    }
}

fn token_ends_operand(token: &Token) -> (found: bool)
    ensures
        found == ends_operand(token@),
{
    match token {
        Token::Ident(name) => !keyword(name.as_str()),
        Token::Literal(_) => true,
        Token::Group(delimiter, _) => *delimiter == Delimiter::Parenthesis || *delimiter
            == Delimiter::Bracket,
        Token::Punct(_, _) => false,
    }
}

fn find_chain_start(tokens: &Vec<Token>) -> (start: usize)
    ensures
        start == chain_start(stream_view(tokens@), tokens@.len() as int),
        start <= tokens.len(),
{
    let ghost trees = stream_view(tokens@);
    let mut end: usize = tokens.len();
    loop
        invariant
            end <= tokens.len(),
            trees == stream_view(tokens@),
            chain_start(trees, tokens@.len() as int) == chain_start(trees, end as int),
        decreases end,
    {
        if end == 0 {
            return end;
        }
        if !token_ends_operand(&tokens[end - 1]) {
            return end;
        }
        let is_group = match &tokens[end - 1] {
            Token::Group(_, _) => true,
            _ => false,
        };
        if is_group {
            let applied = end >= 2 && token_ends_operand(&tokens[end - 2]) && match &tokens[end
                - 2] {
                Token::Literal(_) => false,
                _ => true,
            };
            if applied {
                end = end - 1;
            } else {
                return end - 1;
            }
        } else if end >= 3 && tokens[end - 2].is_punct('.') && token_ends_operand(
            &tokens[end - 3],
        ) {
            end = end - 2;
        } else if end >= 4 && tokens[end - 2].is_punct(':') && tokens[end - 3].is_punct(':')
            && token_is_name(&tokens[end - 4]) {
            end = end - 3;
        } else {
            return end - 1;
        }
    }
}

fn find_prefix_start(tokens: &Vec<Token>, chain: usize) -> (start: usize)
    requires
        chain <= tokens.len(),
    ensures
        start == prefix_start(stream_view(tokens@), chain as int),
        start <= chain,
{
    let ghost trees = stream_view(tokens@);
    let mut start: usize = chain;
    loop
        invariant
            start <= chain <= tokens.len(),
            trees == stream_view(tokens@),
            prefix_start(trees, chain as int) == prefix_start(trees, start as int),
        decreases start,
    {
        if start == 0 {
            return start;
        }
        let operator = &tokens[start - 1];
        let unary = operator.is_punct('-') || operator.is_punct('!') || operator.is_punct('*')
            || operator.is_punct('&');
        if !unary {
            return start;
        }
        if start >= 2 {
            let before = &tokens[start - 2];
            if token_ends_operand(before) {
                return start;
            }
            if operator.is_punct('&') && before.is_punct('&') && before.is_joint() {
                return start;
            }
        }
        start = start - 1;
    }
}

fn find_cast_type_end(tokens: &Vec<Token>, from: usize) -> (end: usize)
    ensures
        end == cast_type_end(stream_view(tokens@), from as int),
        from < tokens.len() ==> from <= end <= tokens.len(),
{
    let ghost trees = stream_view(tokens@);
    if from >= tokens.len() {
        return from;
    }
    if !token_is_name(&tokens[from]) {
        return from;
    }
    let mut at: usize = from + 1;
    loop
        invariant
            from < at <= tokens.len(),
            trees == stream_view(tokens@),
            cast_type_end(trees, from as int) == path_end(trees, at as int),
        decreases tokens.len() - at,
    {
        if tokens.len() - at < 3 {
            return at;
        }
        if tokens[at].is_punct(':') && tokens[at + 1].is_punct(':') && token_is_name(
            &tokens[at + 2],
        ) {
            at = at + 3;
        } else {
            return at;
        }
    }
}

/// Rewrites casts into conversion calls. Refuses an `as` that no operand
/// stands in front of or no type stands behind.
pub struct Casts;

impl View for Casts {
    type V = ();

    open spec fn view(&self) -> () {
        ()
    }
}

impl Rule for Casts {
    open spec fn step(rule: (), output: Seq<TokenTree>, tokens: Seq<TokenTree>, at: int) -> Option<
        Result<Step, UnsupportedSyntax>,
    > {
        if 0 <= at < tokens.len() && tokens[at] == TokenTree::Ident("as"@) {
            let end = cast_type_end(tokens, at + 1);
            let start = operand_start(output);
            if end <= at + 1 || start >= output.len() {
                Some(Err(UnsupportedSyntax::MalformedCast))
            } else {
                Some(
                    Ok(
                        Step {
                            output: output.take(start) + tokens.subrange(at + 1, end) + seq![
                                parenthesized(output.skip(start)),
                            ],
                            next: end,
                        },
                    ),
                )
            }
        } else {
            None
        }
    }

    fn apply(&self, output: &mut Vec<Token>, tokens: &Vec<Token>, at: usize) -> (result: Option<
        Result<usize, UnsupportedSyntax>,
    >) {
        let ghost trees = stream_view(tokens@);
        let ghost before = stream_view(output@);
        if !tokens[at].is_ident("as") {
            return None;
        }
        let end = find_cast_type_end(tokens, at + 1);
        let chain = find_chain_start(output);
        let start = if chain == output.len() {
            chain
        } else {
            find_prefix_start(output, chain)
        };
        if end <= at + 1 || start >= output.len() {
            return Some(Err(UnsupportedSyntax::MalformedCast));
        }
        let ghost given = output@;
        let operand = output.split_off(start);
        let mut target = duplicate_range(tokens, at + 1, end);
        let call = Token::Group(Delimiter::Parenthesis, operand);
        proof {
            let kept = given.subrange(0, start as int);
            assert(stream_view(operand@) =~= before.skip(start as int));
            assert(stream_view((kept + target@).push(call)) =~= before.take(start as int)
                + trees.subrange(at + 1, end as int) + seq![
                parenthesized(before.skip(start as int)),
            ]);
        }
        output.append(&mut target);
        output.push(call);
        Some(Ok(end))
    }
}

} // verus!
