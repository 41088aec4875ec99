//! The WGSL code of each kind of item: which rules rewrite it, and in
//! which order.

use crate::custom_type::{custom_types_view, CustomType, CustomTypeView};
use crate::error::UnsupportedSyntax;
use crate::helper_methods::{helper_calls_rewritten, transform_wgsl_helper_methods};
use crate::printer::{print, printed_text};
use crate::text::{after, skip_text};
use crate::module_parser::{
    find_attributes_end, keyword_position, measure_visibility, Item, ItemView,
};
use crate::record::{CodeView, NamedCode, NamedCodeView, WgslShaderModuleSectionCode};
use crate::rewrite::{rewrite, rewritten, Rule};
use crate::to_wgsl::attributes::Annotations;
use crate::to_wgsl::casts::Casts;
use crate::to_wgsl::iteration_position::ReadOnly;
use crate::to_wgsl::struct_literals::{StructFieldsView, StructLiterals};
use crate::to_wgsl::subset::ShaderSubset;
use crate::to_wgsl::types::TypeNames;
use crate::to_wgsl::variables::MutableLocals;
use crate::token::{
    duplicate_range, duplicate_stream, group_contents, is_punct, lemma_stream_view_add,
    stream_view, Token, TokenTree,
};
use vstd::prelude::*;
use vstd::string::{StrSliceExecFns, StringExecFns};

verus! {

/// The value of an executable result.
pub open spec fn result_view(result: Result<Vec<Token>, UnsupportedSyntax>) -> Result<
    Seq<TokenTree>,
    UnsupportedSyntax,
> {
    match result {
        Ok(tokens) => Ok(stream_view(tokens@)),
        Err(error) => Err(error),
    }
}

/// Rewrites a successful result with one more rule and passes a failure on.
pub open spec fn then<R: Rule>(input: Result<Seq<TokenTree>, UnsupportedSyntax>, rule: R::V) -> Result<
    Seq<TokenTree>,
    UnsupportedSyntax,
> {
    match input {
        Ok(tokens) => rewritten::<R>(rule, tokens),
        Err(error) => Err(error),
    }
}

/// Rewrites a successful result with one more rule and passes a failure on.
pub(crate) fn then_rewrite<R: Rule>(input: Result<Vec<Token>, UnsupportedSyntax>, rule: &R) -> (output:
    Result<Vec<Token>, UnsupportedSyntax>)
    ensures
        result_view(output) == then::<R>(result_view(input), rule@),
{
    match input {
        Ok(tokens) => rewrite(rule, &tokens),
        Err(error) => Err(error),
    }
}

/// The tokens of an item from its keyword on: the item without its
/// attributes and its visibility.
pub open spec fn item_source(item: ItemView) -> Seq<TokenTree> {
    if 0 <= item.keyword_at <= item.tokens.len() {
        item.tokens.skip(item.keyword_at)
    } else {
        item.tokens
    }
}

/// The tokens of a declaration from its keyword on: the declaration
/// without its attributes and its visibility.
pub open spec fn declaration_source(tokens: Seq<TokenTree>) -> Seq<TokenTree> {
    if 0 <= keyword_position(tokens, 0) <= tokens.len() {
        tokens.skip(keyword_position(tokens, 0))
    } else {
        tokens
    }
}

/// The WGSL tokens of a struct or a type alias, given from its keyword on:
/// attributes and visibility dropped, type names rewritten.
pub open spec fn type_wgsl(source: Seq<TokenTree>) -> Result<Seq<TokenTree>, UnsupportedSyntax> {
    then::<TypeNames>(rewritten::<Annotations>((), source), ())
}

/// The WGSL text of a struct or a type alias. An alias is written with
/// `alias` and a space in place of `type`, in front of what stands behind
/// its name.
pub open spec fn type_text(tokens: Seq<TokenTree>) -> Seq<char> {
    let text = printed_text(tokens);
    if tokens.len() >= 2 && tokens[0] == TokenTree::Ident("type"@) {
        match tokens[1] {
            TokenTree::Ident(name) => "alias "@ + name + " "@ + after(text, 5 + name.len()),
            _ => text,
        }
    } else {
        text
    }
}

/// A declared type in both languages.
pub open spec fn wgsl_type_of(custom_type: CustomTypeView) -> Result<
    NamedCodeView,
    UnsupportedSyntax,
> {
    match type_wgsl(declaration_source(custom_type.rust_code)) {
        Err(error) => Err(error),
        Ok(wgsl) => Ok(
            NamedCodeView {
                name: custom_type.name,
                code: CodeView {
                    rust_code: printed_text(custom_type.rust_code),
                    wgsl_code: type_text(wgsl),
                },
            },
        ),
    }
}

/// The WGSL code of a constant.
pub open spec fn const_wgsl(item: ItemView, structs: Seq<StructFieldsView>) -> Result<
    Seq<TokenTree>,
    UnsupportedSyntax,
> {
    then::<TypeNames>(
        then::<StructLiterals>(
            then::<Casts>(
                then::<ShaderSubset>(rewritten::<Annotations>((), item_source(item)), ()),
                (),
            ),
            structs,
        ),
        (),
    )
}

/// The name of the entry point's parameter, where the parameter list is a
/// single iteration position, with or without a comma behind it.
pub open spec fn iteration_parameter(parameters: Seq<TokenTree>) -> Option<Seq<char>> {
    if (parameters.len() == 3 || (parameters.len() == 4 && is_punct(parameters[3], ',')))
        && is_punct(parameters[1], ':') && parameters[2] == TokenTree::Ident(
        "WgslIterationPosition"@,
    ) {
        match parameters[0] {
            TokenTree::Ident(name) => Some(name),
            _ => None,
        }
    } else {
        None
    }
}

/// The parameter list of a function: the contents of its third token.
pub open spec fn parameters_of(source: Seq<TokenTree>) -> Seq<TokenTree> {
    if source.len() >= 3 {
        group_contents(source[2])
    } else {
        seq![]
    }
}

/// The first line of the entry point: its parameter is bound to the
/// invocation index.
pub open spec fn entry_signature(parameter: Seq<char>) -> Seq<char> {
    "fn main(@builtin(global_invocation_id) "@ + parameter + ": vec3<u32>)"@
}

/// The text of the entry point: what is written of `head` and `rest`
/// together, with the first line in place of what is written of `head`.
pub open spec fn entry_text(
    parameter: Seq<char>,
    head: Seq<TokenTree>,
    rest: Seq<TokenTree>,
) -> Seq<char> {
    entry_signature(parameter) + after(printed_text(head + rest), printed_text(head).len())
}

/// The rules for the body of a function, in order: nothing that shaders do
/// not have, casts, struct literals, mutable locals, type names.
pub open spec fn body_wgsl(
    input: Result<Seq<TokenTree>, UnsupportedSyntax>,
    structs: Seq<StructFieldsView>,
) -> Result<Seq<TokenTree>, UnsupportedSyntax> {
    then::<TypeNames>(
        then::<MutableLocals>(
            then::<StructLiterals>(then::<Casts>(then::<ShaderSubset>(input, ()), ()), structs),
            (),
        ),
        (),
    )
}

/// The source of a function with its helper calls rewritten.
pub open spec fn function_source(item: ItemView, types: Seq<CustomTypeView>) -> Result<
    Seq<TokenTree>,
    UnsupportedSyntax,
> {
    helper_calls_rewritten(item_source(item), types)
}

/// The WGSL text of a function whose helper calls are rewritten. The
/// function named `main` is the entry point: it must take exactly one
/// iteration position, which the body must not assign to; its keyword,
/// name and parameter are laid out as they stand and then written as the
/// first line that binds the parameter to the invocation index.
pub open spec fn function_wgsl(
    name: Seq<char>,
    source: Seq<TokenTree>,
    structs: Seq<StructFieldsView>,
) -> Result<Seq<char>, UnsupportedSyntax> {
    if name == "main"@ {
        match iteration_parameter(parameters_of(source)) {
            None => Err(UnsupportedSyntax::MalformedEntryPoint),
            Some(parameter) => match body_wgsl(
                then::<ReadOnly>(rewritten::<Annotations>((), source.skip(3)), parameter),
                structs,
            ) {
                Err(error) => Err(error),
                Ok(rest) => Ok(entry_text(parameter, source.take(3), rest)),
            },
        }
    } else {
        match body_wgsl(rewritten::<Annotations>((), source), structs) {
            Err(error) => Err(error),
            Ok(tokens) => Ok(printed_text(tokens)),
        }
    }
}

/// Copies the tokens of an item from its keyword on.
pub(crate) fn source_of(item: &Item) -> (source: Vec<Token>)
    ensures
        stream_view(source@) == item_source(item@),
{
    if item.keyword_at <= item.tokens.len() {
        let source = duplicate_range(&item.tokens, item.keyword_at, item.tokens.len());
        source
    } else {
        let source = duplicate_range(&item.tokens, 0, item.tokens.len());
        source
    }
}

/// Writes the WGSL tokens of a struct or a type alias.
pub fn type_to_wgsl(source: &Vec<Token>) -> (result: Result<Vec<Token>, UnsupportedSyntax>)
    ensures
        result_view(result) == type_wgsl(stream_view(source@)),
{
    let stripped = rewrite(&Annotations, source);
    then_rewrite(stripped, &TypeNames)
}

/// Writes the WGSL text of a struct or a type alias.
pub fn write_type(tokens: &Vec<Token>) -> (text: String)
    ensures
        text@ == type_text(stream_view(tokens@)),
{
    let text = print(tokens);
    if tokens.len() >= 2 && tokens[0].is_ident("type") {
        assert(stream_view(tokens@)[0] == tokens@[0]@);
        assert(stream_view(tokens@)[1] == tokens@[1]@);
        match tokens[1].ident_text() {
            Some(name) => {
                proof {
                    reveal_strlit("type ");
                }
                let name_len = name.unicode_len();
                let text_len = text.as_str().unicode_len();
                let rest = if name_len <= text_len && text_len - name_len >= 5 {
                    skip_text(text.as_str(), 5 + name_len)
                } else {
                    String::new()
                };
                let mut written = String::from_str("alias ");
                written.append(name);
                written.append(" ");
                written.append(rest.as_str());
                written
            },
            None => text,
        }
    } else {
        proof {
            if tokens.len() >= 2 {
                assert(stream_view(tokens@)[0] == tokens@[0]@);
            }
        }
        text
    }
}

impl CustomType {
    /// Writes the declared type in both languages: its declaration as it
    /// stands, and its WGSL code.
    pub fn into_wgsl_type(self) -> (result: Result<NamedCode, UnsupportedSyntax>)
        ensures
            match result {
                Ok(code) => wgsl_type_of(self@) == Ok::<NamedCodeView, UnsupportedSyntax>(code@),
                Err(error) => wgsl_type_of(self@) == Err::<NamedCodeView, UnsupportedSyntax>(
                    error,
                ),
            },
    {
        let attributes_end = find_attributes_end(&self.rust_code, 0);
        let keyword_at = attributes_end + measure_visibility(&self.rust_code, attributes_end);
        let source = duplicate_range(&self.rust_code, keyword_at, self.rust_code.len());
        let wgsl = match type_to_wgsl(&source) {
            Ok(wgsl) => wgsl,
            Err(error) => {
                return Err(error);
            },
        };
        Ok(
            NamedCode {
                name: self.name.name().to_owned(),
                code: WgslShaderModuleSectionCode {
                    rust_code: print(&self.rust_code),
                    wgsl_code: write_type(&wgsl),
                },
            },
        )
    }
}

/// Writes the WGSL code of a constant.
pub fn const_to_wgsl(item: &Item, structs: &StructLiterals) -> (result: Result<
    Vec<Token>,
    UnsupportedSyntax,
>)
    ensures
        result_view(result) == const_wgsl(item@, structs@),
{
    let source = source_of(item);
    let stripped = rewrite(&Annotations, &source);
    let checked = then_rewrite(stripped, &ShaderSubset);
    let cast = then_rewrite(checked, &Casts);
    let constructed = then_rewrite(cast, structs);
    then_rewrite(constructed, &TypeNames)
}

fn find_iteration_parameter(parameters: &Vec<Token>) -> (name: Option<String>)
    ensures
        match name {
            Some(found) => iteration_parameter(stream_view(parameters@)) == Some(found@),
            None => iteration_parameter(stream_view(parameters@)) is None,
        },
{
    let len = parameters.len();
    if len != 3 && len != 4 {
        return None;
    }
    if len == 4 {
        if !parameters[3].is_punct(',') {
            return None;
        }
    }
    if !parameters[1].is_punct(':') || !parameters[2].is_ident("WgslIterationPosition") {
        return None;
    }
    match parameters[0].ident_text() {
        Some(name) => Some(name.to_owned()),
        None => None,
    }
}

/// The parameter list of a function.
fn parameters_in(source: &Vec<Token>) -> (parameters: Vec<Token>)
    ensures
        stream_view(parameters@) == parameters_of(stream_view(source@)),
{
    let empty: Vec<Token> = Vec::new();
    if source.len() >= 3 {
        match &source[2] {
            Token::Group(_, contents) => duplicate_stream(contents),
            _ => empty,
        }
    } else {
        empty
    }
}

/// Writes the WGSL text of a function whose helper calls are rewritten.
pub fn function_to_wgsl(name: &str, source: &Vec<Token>, structs: &StructLiterals) -> (result:
    Result<String, UnsupportedSyntax>)
    ensures
        match result {
            Ok(text) => function_wgsl(name@, stream_view(source@), structs@) == Ok::<
                Seq<char>,
                UnsupportedSyntax,
            >(text@),
            Err(error) => function_wgsl(name@, stream_view(source@), structs@) == Err::<
                Seq<char>,
                UnsupportedSyntax,
            >(error),
        },
{
    let ghost trees = stream_view(source@);
    if name.eq("main") {
        let parameters = parameters_in(source);
        let variable = match find_iteration_parameter(&parameters) {
            Some(variable) => variable,
            None => {
                return Err(UnsupportedSyntax::MalformedEntryPoint);
            },
        };
        assert(source.len() >= 3);
        let mut head = duplicate_range(source, 0, 3);
        let body = duplicate_range(source, 3, source.len());
        assert(trees.subrange(0, 3) =~= trees.take(3));
        assert(trees.subrange(3, trees.len() as int) =~= trees.skip(3));
        let stripped = rewrite(&Annotations, &body);
        let checked = then_rewrite(stripped, &ReadOnly { variable: variable.clone() });
        let mut rest = match write_body(checked, structs) {
            Ok(rest) => rest,
            Err(error) => {
                return Err(error);
            },
        };
        let skipped = print(&head).as_str().unicode_len();
        proof {
            lemma_stream_view_add(head@, rest@);
        }
        head.append(&mut rest);
        let laid_out = print(&head);
        let mut text = String::from_str("fn main(@builtin(global_invocation_id) ");
        text.append(variable.as_str());
        text.append(": vec3<u32>)");
        text.append(skip_text(laid_out.as_str(), skipped).as_str());
        Ok(text)
    } else {
        match write_body(rewrite(&Annotations, source), structs) {
            Ok(tokens) => Ok(print(&tokens)),
            Err(error) => Err(error),
        }
    }
}

/// Applies the rules for the body of a function.
fn write_body(input: Result<Vec<Token>, UnsupportedSyntax>, structs: &StructLiterals) -> (result:
    Result<Vec<Token>, UnsupportedSyntax>)
    ensures
        result_view(result) == body_wgsl(result_view(input), structs@),
{
    let supported = then_rewrite(input, &ShaderSubset);
    let cast = then_rewrite(supported, &Casts);
    let constructed = then_rewrite(cast, structs);
    let declared = then_rewrite(constructed, &MutableLocals);
    then_rewrite(declared, &TypeNames)
}

/// Rewrites the helper calls of a function.
pub fn function_to_source(item: &Item, custom_types: &Vec<CustomType>) -> (result: Result<
    Vec<Token>,
    UnsupportedSyntax,
>)
    ensures
        result_view(result) == function_source(item@, custom_types_view(custom_types@)),
{
    let source = source_of(item);
    transform_wgsl_helper_methods(&source, custom_types)
}

} // verus!
