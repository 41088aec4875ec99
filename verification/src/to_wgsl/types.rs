//! Type names: the vector types and fixed-size arrays of the source become
//! the vector and array types of WGSL. The constructor of a vector is
//! written as one word, `vec3<f32>`, right behind a punctuation character
//! in front of it.

use crate::error::UnsupportedSyntax;
use crate::rewrite::{Rule, Step};
use crate::token::{lemma_stream_view_push, duplicate_range, find_punct, is_punct, punct, punct_from, stream_view, Delimiter, Token,
    TokenTree,};
use vstd::prelude::*;
use vstd::string::{StrSliceExecFns, StringExecFns};

verus! {

/// The WGSL scalar type that the ending of a vector type's name stands for.
pub open spec fn scalar_name(suffix: Seq<char>) -> Option<Seq<char>> {
    if suffix == "I32"@ {
        Some("i32"@)
    } else if suffix == "U32"@ {
        Some("u32"@)
    } else if suffix == "F32"@ {
        Some("f32"@)
    } else if suffix == "F16"@ {
        Some("f16"@)
    } else if suffix == "Bool"@ {
        Some("bool"@)
    } else {
        None
    }
}

/// The parts of a vector type named `Vec`, a size from 2 to 4, and a
/// scalar ending (`Vec3F32`): the WGSL vector (`vec3`) and scalar (`f32`).
pub open spec fn vector_type(name: Seq<char>) -> Option<(Seq<char>, Seq<char>)> {
    if name.len() > 4 && name.subrange(0, 3) == "Vec"@ && '2' <= name[3] && name[3] <= '4' {
        match scalar_name(name.subrange(4, name.len() as int)) {
            Some(scalar) => Some(("vec"@.push(name[3]), scalar)),
            None => None,
        }
    } else {
        None
    }
}

/// The WGSL form of a type that the source language names with one
/// identifier, where it has one.
pub open spec fn wgsl_type(name: Seq<char>) -> Option<Seq<TokenTree>> {
    match vector_type(name) {
        Some((vector, scalar)) => Some(
            seq![TokenTree::Ident(vector), punct('<'), TokenTree::Ident(scalar), punct('>')],
        ),
        None => if name == "WgslIterationPosition"@ {
            Some(
                seq![
                    TokenTree::Ident("vec3"@),
                    punct('<'),
                    TokenTree::Ident("u32"@),
                    punct('>'),
                ],
            )
        } else if name == "PodF16"@ {
            Some(seq![TokenTree::Ident("f16"@)])
        } else {
            None
        },
    }
}

/// The WGSL form of the array type `[item; length]`, given what stands
/// between the square brackets; `None` where that is no item type, a
/// semicolon and a length.
pub open spec fn wgsl_array(contents: Seq<TokenTree>) -> Option<Seq<TokenTree>> {
    let semicolon = punct_from(contents, ';', 0);
    if 0 < semicolon && semicolon + 1 < contents.len() {
        Some(
            seq![TokenTree::Ident("array"@), punct('<')] + contents.take(semicolon) + seq![
                punct(','),
            ] + contents.skip(semicolon + 1) + seq![punct('>')],
        )
    } else {
        None
    }
}

/// The name under which a vector is constructed: vector and scalar written
/// together, as in `vec3<f32>`.
pub open spec fn constructor_name(vector: Seq<char>, scalar: Seq<char>) -> Seq<char> {
    vector + "<"@ + scalar + ">"@
}

/// The tokens with the last one joined to what follows it, where it is a
/// punctuation character.
pub open spec fn glued(output: Seq<TokenTree>) -> Seq<TokenTree> {
    if output.len() > 0 {
        match output.last() {
            TokenTree::Punct(c, _) => output.drop_last().push(TokenTree::Punct(c, true)),
            _ => output,
        }
    } else {
        output
    }
}

/// Whether `::new` follows position `at`.
pub open spec fn constructor_follows(tokens: Seq<TokenTree>, at: int) -> bool {
    &&& at + 3 < tokens.len()
    &&& is_punct(tokens[at + 1], ':')
    &&& is_punct(tokens[at + 2], ':')
    &&& tokens[at + 3] == TokenTree::Ident("new"@)
}

fn scalar_of(suffix: &str) -> (scalar: Option<&'static str>)
    ensures
        match scalar {
            Some(name) => scalar_name(suffix@) == Some(name@),
            None => scalar_name(suffix@) is None,
        },
{
    if suffix.eq("I32") {
        Some("i32")
    } else if suffix.eq("U32") {
        Some("u32")
    } else if suffix.eq("F32") {
        Some("f32")
    } else if suffix.eq("F16") {
        Some("f16")
    } else if suffix.eq("Bool") {
        Some("bool")
    } else {
        None
    }
}

/// Pushes the four tokens `vector < scalar >`.
fn push_generic(output: &mut Vec<Token>, vector: String, scalar: &str)
    ensures
        stream_view(final(output)@) == stream_view(old(output)@) + seq![
            TokenTree::Ident(vector@),
            punct('<'),
            TokenTree::Ident(scalar@),
            punct('>'),
        ],
{
    let first = Token::Ident(vector);
    let second = Token::punct('<');
    let third = Token::ident(scalar);
    let fourth = Token::punct('>');
    output.push(first);
    output.push(second);
    output.push(third);
    output.push(fourth);
}

/// The parts of a vector type.
fn vector_parts(name: &str) -> (parts: Option<(String, &'static str)>)
    ensures
        match parts {
            Some((vector, scalar)) => vector_type(name@) == Some((vector@, scalar@)),
            None => vector_type(name@) is None,
        },
{
    let len = name.unicode_len();
    if len > 4 && name.substring_char(0, 3).eq("Vec") {
        let size = name.get_char(3);
        if '2' <= size && size <= '4' {
            match scalar_of(name.substring_char(4, len)) {
                Some(scalar) => {
                    let mut vector = "vec".to_owned();
                    vector.push(size);
                    return Some((vector, scalar));
                },
                None => {},
            }
        }
    }
    None
}

/// Pushes the WGSL form of the type named `name`, if it has one.
fn push_wgsl_type(output: &mut Vec<Token>, name: &str) -> (found: bool)
    ensures
        match wgsl_type(name@) {
            Some(tokens) => found && stream_view(final(output)@) == stream_view(old(output)@)
                + tokens,
            None => !found && stream_view(final(output)@) == stream_view(old(output)@),
        },
{
    match vector_parts(name) {
        Some((vector, scalar)) => {
            push_generic(output, vector, scalar);
            return true;
        },
        None => {},
    }
    if name.eq("WgslIterationPosition") {
        push_generic(output, "vec3".to_owned(), "u32");
        true
    } else if name.eq("PodF16") {
        let token = Token::ident("f16");
        output.push(token);
        true
    } else {
        false
    }
}

/// Joins the last token to what follows it, where it is a punctuation
/// character.
fn glue(output: &mut Vec<Token>)
    ensures
        stream_view(final(output)@) == glued(stream_view(old(output)@)),
{
    let len = output.len();
    if len > 0 {
        let ghost before = stream_view(output@);
        assert(before[len - 1] == output@[len - 1]@);
        let mark = match &output[len - 1] {
            Token::Punct(c, _) => Some(*c),
            _ => None,
        };
        match mark {
            Some(c) => {
                output.pop();
                output.push(Token::Punct(c, true));
                assert(stream_view(output@) =~= before.drop_last().push(TokenTree::Punct(c, true)));
            },
            None => {},
        }
    }
}

/// Rewrites vector type names, with the `::new` of their constructors, and
/// array types.
pub struct TypeNames;

impl View for TypeNames {
    type V = ();

    open spec fn view(&self) -> () {
        ()
    }
}

impl Rule for TypeNames {
    open spec fn step(rule: (), output: Seq<TokenTree>, tokens: Seq<TokenTree>, at: int) -> Option<
        Result<Step, UnsupportedSyntax>,
    > {
        if at < 0 || at >= tokens.len() {
            None
        } else {
            match tokens[at] {
                TokenTree::Ident(name) => match vector_type(name) {
                    Some((vector, scalar)) if constructor_follows(tokens, at) => Some(
                        Ok(
                            Step {
                                output: glued(output).push(
                                    TokenTree::Ident(constructor_name(vector, scalar)),
                                ),
                                next: at + 4,
                            },
                        ),
                    ),
                    _ => match wgsl_type(name) {
                        Some(replacement) => Some(
                            Ok(Step { output: output + replacement, next: at + 1 }),
                        ),
                        None => None,
                    },
                },
                TokenTree::Group(Delimiter::Bracket, contents) => match wgsl_array(contents) {
                    Some(replacement) => Some(
                        Ok(Step { output: output + replacement, next: at + 1 }),
                    ),
                    None => None,
                },
                _ => None,
            }
        }
    }

    fn apply(&self, output: &mut Vec<Token>, tokens: &Vec<Token>, at: usize) -> (result: Option<
        Result<usize, UnsupportedSyntax>,
    >) {
        let ghost before = stream_view(output@);
        match &tokens[at] {
            Token::Ident(name) => {
                let ghost trees = stream_view(tokens@);
                assert(trees[at as int] == tokens@[at as int]@);
                if tokens.len() - at > 3 {
                    assert(trees[at + 1] == tokens@[at + 1]@);
                    assert(trees[at + 2] == tokens@[at + 2]@);
                    assert(trees[at + 3] == tokens@[at + 3]@);
                    if tokens[at + 1].is_punct(':') && tokens[at + 2].is_punct(':') && tokens[at
                        + 3].is_ident("new") {
                        match vector_parts(name.as_str()) {
                            Some((vector, scalar)) => {
                                let mut called = vector;
                                called.append("<");
                                called.append(scalar);
                                called.append(">");
                                glue(output);
                                let token = Token::Ident(called);
                                proof {
                                    lemma_stream_view_push(output@, token);
                                }
                                output.push(token);
                                return Some(Ok(at + 4));
                            },
                            None => {},
                        }
                    }
                }
                if push_wgsl_type(output, name.as_str()) {
                    Some(Ok(at + 1))
                } else {
                    None
                }
            },
            Token::Group(Delimiter::Bracket, contents) => {
                let semicolon = find_punct(contents, ';', 0);
                if semicolon == 0 || contents.len() - semicolon < 2 {
                    return None;
                }
                let ghost inner = stream_view(contents@);
                let mut item = duplicate_range(contents, 0, semicolon);
                let mut length = duplicate_range(contents, semicolon + 1, contents.len());
                let first = Token::ident("array");
                let second = Token::punct('<');
                let comma = Token::punct(',');
                let close = Token::punct('>');
                proof {
                    let a = output@.push(first).push(second);
                    assert(stream_view(((a + item@).push(comma) + length@).push(close)) =~= before
                        + wgsl_array(inner)->0);
                }
                output.push(first);
                output.push(second);
                output.append(&mut item);
                output.push(comma);
                output.append(&mut length);
                output.push(close);
                Some(Ok(at + 1))
            },
            _ => None,
        }
    }
}

} // verus!
