//! Applying a rewriting rule to token trees.
//!
//! A rule looks at one position of a token sequence at a time and either
//! leaves the token there alone, replaces a run of tokens that starts
//! there, or refuses the input. Groups are rewritten from the inside out:
//! a rule sees the tokens of a sequence only after the contents of every
//! group among them have been rewritten.

use crate::error::UnsupportedSyntax;
use crate::token::{lemma_stream_view_push, stream_view, Token, TokenTree};
use vstd::prelude::*;

verus! {

/// What a rule makes of a position: the whole output so far, with its
/// replacement at the end, and the position at which the scan goes on.
pub struct Step {
    pub output: Seq<TokenTree>,
    pub next: int,
}

/// A rewriting rule. What a rule does depends on its value alone.
pub trait Rule: View {
    /// What the rule does at position `at` of `tokens` when `output` is
    /// what the scan has written so far: `None` where the rule leaves the
    /// token alone, an error where it refuses the input, a step otherwise.
    spec fn step(rule: Self::V, output: Seq<TokenTree>, tokens: Seq<TokenTree>, at: int) -> Option<
        Result<Step, UnsupportedSyntax>,
    >;

    /// Carries out `step`: changes `output` and returns the next position.
    fn apply(&self, output: &mut Vec<Token>, tokens: &Vec<Token>, at: usize) -> (result: Option<
        Result<usize, UnsupportedSyntax>,
    >)
        requires
            at < tokens.len(),
        ensures
            match result {
                None => Self::step(
                    self@,
                    stream_view(old(output)@),
                    stream_view(tokens@),
                    at as int,
                ) is None && stream_view(final(output)@) == stream_view(old(output)@),
                Some(Err(error)) => Self::step(
                    self@,
                    stream_view(old(output)@),
                    stream_view(tokens@),
                    at as int,
                ) == Some(Err::<Step, UnsupportedSyntax>(error)),
                Some(Ok(next)) => at < next <= tokens.len() && Self::step(
                    self@,
                    stream_view(old(output)@),
                    stream_view(tokens@),
                    at as int,
                ) == Some(
                    Ok::<Step, UnsupportedSyntax>(
                        Step { output: stream_view(final(output)@), next: next as int },
                    ),
                ),
            },
    ;
}

/// The scan of `tokens` from position `at` on, continuing `output`.
pub open spec fn scanned<R: Rule>(
    rule: R::V,
    output: Seq<TokenTree>,
    tokens: Seq<TokenTree>,
    at: int,
) -> Result<Seq<TokenTree>, UnsupportedSyntax>
    decreases tokens.len() - at,
{
    if at < 0 || at >= tokens.len() {
        Ok(output)
    } else {
        match R::step(rule, output, tokens, at) {
            None => scanned::<R>(rule, output.push(tokens[at]), tokens, at + 1),
            Some(Err(error)) => Err(error),
            Some(Ok(step)) => if at < step.next <= tokens.len() {
                scanned::<R>(rule, step.output, tokens, step.next)
            } else {
                Ok(step.output)
            },
        }
    }
}

/// The first `count` tokens with the contents of every group rewritten, or
/// the first error that rewriting the groups from left to right meets.
pub open spec fn groups_rewritten<R: Rule>(rule: R::V, tokens: Seq<TokenTree>, count: nat) -> Result<
    Seq<TokenTree>,
    UnsupportedSyntax,
>
    decreases tokens, 0nat, count,
{
    if count == 0 || count > tokens.len() {
        Ok(seq![])
    } else {
        match groups_rewritten::<R>(rule, tokens, (count - 1) as nat) {
            Err(error) => Err(error),
            Ok(done) => match tokens[count - 1] {
                TokenTree::Group(delimiter, inner) => match rewritten::<R>(rule, inner) {
                    Err(error) => Err(error),
                    Ok(contents) => Ok(done.push(TokenTree::Group(delimiter, contents))),
                },
                token => Ok(done.push(token)),
            },
        }
    }
}

/// The tokens rewritten by the rule, at every depth.
pub open spec fn rewritten<R: Rule>(rule: R::V, tokens: Seq<TokenTree>) -> Result<
    Seq<TokenTree>,
    UnsupportedSyntax,
>
    decreases tokens, 1nat, 0nat,
{
    match groups_rewritten::<R>(rule, tokens, tokens.len()) {
        Err(error) => Err(error),
        Ok(prepared) => scanned::<R>(rule, seq![], prepared, 0),
    }
}

/// Whether an executable result is the one that a specification gives.
pub open spec fn result_is(
    result: Result<Vec<Token>, UnsupportedSyntax>,
    expected: Result<Seq<TokenTree>, UnsupportedSyntax>,
) -> bool {
    match result {
        Ok(tokens) => expected == Ok::<Seq<TokenTree>, UnsupportedSyntax>(stream_view(tokens@)),
        Err(error) => expected == Err::<Seq<TokenTree>, UnsupportedSyntax>(error),
    }
}

/// Scans prepared tokens with the rule.
pub fn scan<R: Rule>(rule: &R, tokens: &Vec<Token>) -> (result: Result<
    Vec<Token>,
    UnsupportedSyntax,
>)
    ensures
        result_is(result, scanned::<R>(rule@, seq![], stream_view(tokens@), 0)),
{
    let ghost trees = stream_view(tokens@);
    let mut output: Vec<Token> = Vec::new();
    let mut at: usize = 0;
    assert(stream_view(output@) =~= Seq::<TokenTree>::empty());
    while at < tokens.len()
        invariant
            at <= tokens.len(),
            trees == stream_view(tokens@),
            scanned::<R>(rule@, seq![], trees, 0) == scanned::<R>(
                rule@,
                stream_view(output@),
                trees,
                at as int,
            ),
        decreases tokens.len() - at,
    {
        match rule.apply(&mut output, tokens, at) {
            None => {
                let token = tokens[at].clone();
                proof {
                    lemma_stream_view_push(output@, token);
                }
                output.push(token);
                at = at + 1;
            },
            Some(Err(error)) => {
                return Err(error);
            },
            Some(Ok(next)) => {
                at = next;
            },
        }
    }
    Ok(output)
}

/// Rewrites token trees with the rule, at every depth, from the inside out.
pub fn rewrite<R: Rule>(rule: &R, tokens: &Vec<Token>) -> (result: Result<
    Vec<Token>,
    UnsupportedSyntax,
>)
    ensures
        result_is(result, rewritten::<R>(rule@, stream_view(tokens@))),
    decreases tokens,
{
    let ghost trees = stream_view(tokens@);
    let mut prepared: Vec<Token> = Vec::new();
    let mut i: usize = 0;
    assert(stream_view(prepared@) =~= Seq::<TokenTree>::empty());
    while i < tokens.len()
        invariant
            i <= tokens.len(),
            trees == stream_view(tokens@),
            groups_rewritten::<R>(rule@, trees, i as nat) == Ok::<Seq<TokenTree>, UnsupportedSyntax>(
                stream_view(prepared@),
            ),
        decreases tokens.len() - i,
    {
        proof {
            if groups_rewritten::<R>(rule@, trees, (i + 1) as nat) is Err {
                lemma_groups_error::<R>(rule@, trees, (i + 1) as nat, trees.len());
            }
        }
        let token = match &tokens[i] {
            Token::Group(delimiter, inner) => match rewrite(rule, inner) {
                Ok(contents) => Token::Group(*delimiter, contents),
                Err(error) => {
                    return Err(error);
                },
            },
            other => other.clone(),
        };
        proof {
            lemma_stream_view_push(prepared@, token);
        }
        prepared.push(token);
        i = i + 1;
    }
    scan(rule, &prepared)
}

/// An error among the first groups is the error of the whole sequence.
proof fn lemma_groups_error<R: Rule>(rule: R::V, tokens: Seq<TokenTree>, shorter: nat, longer: nat)
    requires
        shorter <= longer <= tokens.len(),
        groups_rewritten::<R>(rule, tokens, shorter) is Err,
    ensures
        groups_rewritten::<R>(rule, tokens, longer) == groups_rewritten::<R>(rule, tokens, shorter),
    decreases longer,
{
    if shorter < longer {
        lemma_groups_error::<R>(rule, tokens, shorter, (longer - 1) as nat);
    }
}

} // verus!
