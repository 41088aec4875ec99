//! Rewrites the calls of the buffer helpers into the shader code that reads
//! and writes the buffers.
//!
//! A helper call has the form `Helper::method::<Type>(arguments)`, where
//! `Helper` is one of `WgslVecInput`, `WgslOutput` and `WgslConfigInput`.

use crate::custom_type::{custom_types_view, CustomType, CustomTypeKind, CustomTypeView};
use crate::custom_type_idents::{
    counter_name, index_name, input_array_length_name, input_array_name, output_array_length_name,
    output_array_name, uniform_name, CustomTypeIdents,
};
use crate::error::UnsupportedSyntax;
use crate::rewrite::{result_is, rewrite, rewritten, Rule, Step};
use crate::token::{
    braced, bracketed, duplicate_stream, find_punct, is_punct, lemma_stream_view_add, parenthesized,
    punct, punct_from, stream_view, Delimiter, Token, TokenTree,
};
use vstd::prelude::*;

verus! {

/// The operations that the buffer helpers offer.
#[derive(Clone, Copy, Debug, PartialEq, Eq, Structural)]
pub enum HelperMethod {
    /// `WgslVecInput::vec_len`: the length of an input array.
    VecLen,
    /// `WgslVecInput::vec_val`: one item of an input array.
    VecVal,
    /// `WgslOutput::push`: append to an output vector.
    Push,
    /// `WgslOutput::len`: the number of items pushed so far.
    Len,
    /// `WgslOutput::max_len`: the capacity of an output.
    MaxLen,
    /// `WgslOutput::set`: write one item of an output array.
    SetItem,
    /// `WgslConfigInput::get`: the value of a uniform.
    ConfigGet,
}

/// A helper call as it stands in the source.
pub struct HelperCall {
    pub helper: Seq<char>,
    pub method: Seq<char>,
    pub target: Seq<char>,
    pub arguments: Seq<TokenTree>,
}

/// The number of tokens that a helper call takes up.
pub open spec fn helper_call_len() -> int {
    10
}

/// Whether `name` is one of the three helpers.
pub open spec fn is_helper(name: Seq<char>) -> bool {
    name == "WgslVecInput"@ || name == "WgslOutput"@ || name == "WgslConfigInput"@
}

/// The helper call that starts at position `at`, if one does.
pub open spec fn helper_call_at(tokens: Seq<TokenTree>, at: int) -> Option<HelperCall> {
    if 0 <= at && at + helper_call_len() <= tokens.len() {
        match (tokens[at], tokens[at + 3], tokens[at + 7], tokens[at + 9]) {
            (
                TokenTree::Ident(helper),
                TokenTree::Ident(method),
                TokenTree::Ident(target),
                TokenTree::Group(Delimiter::Parenthesis, arguments),
            ) => if is_helper(helper) && is_punct(tokens[at + 1], ':') && is_punct(
                tokens[at + 2],
                ':',
            ) && is_punct(tokens[at + 4], ':') && is_punct(tokens[at + 5], ':') && is_punct(
                tokens[at + 6],
                '<',
            ) && is_punct(tokens[at + 8], '>') {
                Some(HelperCall { helper, method, target, arguments })
            } else {
                None
            },
            _ => None,
        }
    } else {
        None
    }
}

/// The operation that a helper and a method name select.
pub open spec fn helper_method(helper: Seq<char>, method: Seq<char>) -> Option<HelperMethod> {
    if helper == "WgslVecInput"@ {
        if method == "vec_len"@ {
            Some(HelperMethod::VecLen)
        } else if method == "vec_val"@ {
            Some(HelperMethod::VecVal)
        } else {
            None
        }
    } else if helper == "WgslOutput"@ {
        if method == "push"@ {
            Some(HelperMethod::Push)
        } else if method == "len"@ {
            Some(HelperMethod::Len)
        } else if method == "max_len"@ {
            Some(HelperMethod::MaxLen)
        } else if method == "set"@ {
            Some(HelperMethod::SetItem)
        } else {
            None
        }
    } else if helper == "WgslConfigInput"@ {
        if method == "get"@ {
            Some(HelperMethod::ConfigGet)
        } else {
            None
        }
    } else {
        None
    }
}

/// Whether an operation works on a type of the given role.
pub open spec fn role_allows(method: HelperMethod, kind: CustomTypeKind) -> bool {
    match method {
        HelperMethod::VecLen | HelperMethod::VecVal => kind is InputArray,
        HelperMethod::Push | HelperMethod::Len => kind is OutputVec,
        HelperMethod::MaxLen => kind is OutputArray || kind is OutputVec,
        HelperMethod::SetItem => kind is OutputArray,
        HelperMethod::ConfigGet => kind is Uniform,
    }
}

/// The role of the first declared type named `name` at or after `from`.
pub open spec fn kind_of_type_from(types: Seq<CustomTypeView>, name: Seq<char>, from: int) -> Option<
    CustomTypeKind,
>
    decreases types.len() - from,
{
    if from < 0 || from >= types.len() {
        None
    } else if types[from].name == name {
        Some(types[from].kind)
    } else {
        kind_of_type_from(types, name, from + 1)
    }
}

/// The role of the declared type named `name`.
pub open spec fn kind_of_type(types: Seq<CustomTypeView>, name: Seq<char>) -> Option<
    CustomTypeKind,
> {
    kind_of_type_from(types, name, 0)
}

/// The statements of a push: claim a slot with an atomic increment of the
/// counter, and write the value there if the slot lies within capacity.
pub open spec fn push_block(name: Seq<char>, value: Seq<TokenTree>) -> TokenTree {
    braced(
        seq![
            TokenTree::Ident("let"@),
            TokenTree::Ident(index_name(name)),
            punct('='),
            TokenTree::Ident("atomicAdd"@),
            parenthesized(
                seq![
                    punct('&'),
                    TokenTree::Ident(counter_name(name)),
                    punct(','),
                    TokenTree::Literal("1u"@),
                ],
            ),
            punct(';'),
            TokenTree::Ident("if"@),
            TokenTree::Ident(index_name(name)),
            punct('<'),
            TokenTree::Ident(output_array_length_name(name)),
            braced(
                seq![
                    TokenTree::Ident(output_array_name(name)),
                    bracketed(seq![TokenTree::Ident(index_name(name))]),
                    punct('='),
                ] + value + seq![punct(';')],
            ),
        ],
    )
}

/// The tokens that stand for a helper call on the type `name` with the
/// given arguments.
pub open spec fn helper_replacement(
    method: HelperMethod,
    name: Seq<char>,
    arguments: Seq<TokenTree>,
) -> Result<Seq<TokenTree>, UnsupportedSyntax> {
    match method {
        HelperMethod::VecLen => if arguments.len() == 0 {
            Ok(seq![TokenTree::Ident(input_array_length_name(name))])
        } else {
            Err(UnsupportedSyntax::WrongArguments)
        },
        HelperMethod::VecVal => if arguments.len() > 0 {
            Ok(seq![TokenTree::Ident(input_array_name(name)), bracketed(arguments)])
        } else {
            Err(UnsupportedSyntax::WrongArguments)
        },
        HelperMethod::Push => if arguments.len() > 0 {
            Ok(seq![push_block(name, arguments)])
        } else {
            Err(UnsupportedSyntax::WrongArguments)
        },
        HelperMethod::Len => if arguments.len() == 0 {
            Ok(seq![TokenTree::Ident(counter_name(name))])
        } else {
            Err(UnsupportedSyntax::WrongArguments)
        },
        HelperMethod::MaxLen => if arguments.len() == 0 {
            Ok(seq![TokenTree::Ident(output_array_length_name(name))])
        } else {
            Err(UnsupportedSyntax::WrongArguments)
        },
        HelperMethod::SetItem => {
            let comma = punct_from(arguments, ',', 0);
            if 0 < comma && comma + 1 < arguments.len() {
                Ok(
                    seq![
                        TokenTree::Ident(output_array_name(name)),
                        bracketed(arguments.take(comma)),
                        punct('='),
                    ] + arguments.skip(comma + 1),
                )
            } else {
                Err(UnsupportedSyntax::WrongArguments)
            }
        },
        HelperMethod::ConfigGet => if arguments.len() == 0 {
            Ok(seq![TokenTree::Ident(uniform_name(name))])
        } else {
            Err(UnsupportedSyntax::WrongArguments)
        },
    }
}

/// The tokens that stand for a helper call: the method must exist, the type
/// must be declared with a role that the method works on, and the arguments
/// must be as many as the method takes.
pub open spec fn call_rewritten(call: HelperCall, types: Seq<CustomTypeView>) -> Result<
    Seq<TokenTree>,
    UnsupportedSyntax,
> {
    match helper_method(call.helper, call.method) {
        None => Err(UnsupportedSyntax::UnknownHelperMethod),
        Some(method) => match kind_of_type(types, call.target) {
            None => Err(UnsupportedSyntax::UnknownType),
            Some(kind) => if !role_allows(method, kind) {
                Err(UnsupportedSyntax::WrongRole)
            } else {
                helper_replacement(method, call.target, call.arguments)
            },
        },
    }
}

/// The length of an input array: for every type declared as an input
/// array, `WgslVecInput::vec_len` on it is rewritten into the length
/// constant of the type, the upper-case name with `_INPUT_ARRAY_LENGTH`.
pub proof fn lemma_vec_len(types: Seq<CustomTypeView>, name: Seq<char>)
    requires
        kind_of_type(types, name) == Some(CustomTypeKind::InputArray),
    ensures
        call_rewritten(
            HelperCall {
                helper: "WgslVecInput"@,
                method: "vec_len"@,
                target: name,
                arguments: seq![],
            },
            types,
        ) == Ok::<Seq<TokenTree>, UnsupportedSyntax>(
            seq![TokenTree::Ident(input_array_length_name(name))],
        ),
{
}

/// A push to an output vector: for every type declared as an output vector,
/// `WgslOutput::push` on it is rewritten into a block that increments the
/// counter of the type atomically, compares the slot with the capacity
/// constant of the type, and writes the value into the output array of the
/// type only within capacity.
pub proof fn lemma_push(types: Seq<CustomTypeView>, name: Seq<char>, value: Seq<TokenTree>)
    requires
        kind_of_type(types, name) == Some(CustomTypeKind::OutputVec),
        value.len() > 0,
    ensures
        call_rewritten(
            HelperCall { helper: "WgslOutput"@, method: "push"@, target: name, arguments: value },
            types,
        ) == Ok::<Seq<TokenTree>, UnsupportedSyntax>(seq![push_block(name, value)]),
{
    reveal_strlit("WgslOutput");
    reveal_strlit("WgslVecInput");
    assert("WgslOutput"@.len() != "WgslVecInput"@.len());
}

/// Reading a uniform: for every type declared as a uniform,
/// `WgslConfigInput::get` on it is rewritten into the lower-case name of
/// the type.
pub proof fn lemma_config_get(types: Seq<CustomTypeView>, name: Seq<char>)
    requires
        kind_of_type(types, name) == Some(CustomTypeKind::Uniform),
    ensures
        call_rewritten(
            HelperCall {
                helper: "WgslConfigInput"@,
                method: "get"@,
                target: name,
                arguments: seq![],
            },
            types,
        ) == Ok::<Seq<TokenTree>, UnsupportedSyntax>(seq![TokenTree::Ident(uniform_name(name))]),
{
    reveal_strlit("WgslOutput");
    reveal_strlit("WgslVecInput");
    reveal_strlit("WgslConfigInput");
    assert("WgslConfigInput"@.len() != "WgslOutput"@.len());
}

/// The names in a helper call that was found in the source.
struct FoundCall<'a> {
    helper: &'a str,
    method: &'a str,
    target: &'a str,
}

fn find_helper_call<'a>(tokens: &'a Vec<Token>, at: usize) -> (found: Option<FoundCall<'a>>)
    requires
        at < tokens.len(),
    ensures
        match found {
            Some(call) => at + 10 <= tokens.len() && tokens@[at + 9]@ is Group && helper_call_at(
                stream_view(tokens@),
                at as int,
            ) == Some(
                HelperCall {
                    helper: call.helper@,
                    method: call.method@,
                    target: call.target@,
                    arguments: tokens@[at + 9]@->Group_1,
                },
            ),
            None => helper_call_at(stream_view(tokens@), at as int) is None,
        },
{
    if tokens.len() - at < 10 {
        return None;
    }
    let helper = match tokens[at].ident_text() {
        Some(name) => name,
        None => {
            return None;
        },
    };
    if !(helper.eq("WgslVecInput") || helper.eq("WgslOutput") || helper.eq("WgslConfigInput")) {
        return None;
    }
    let method = match tokens[at + 3].ident_text() {
        Some(name) => name,
        None => {
            return None;
        },
    };
    let target = match tokens[at + 7].ident_text() {
        Some(name) => name,
        None => {
            return None;
        },
    };
    if tokens[at + 9].is_group(Delimiter::Parenthesis) && tokens[at + 1].is_punct(':')
        && tokens[at + 2].is_punct(':') && tokens[at + 4].is_punct(':') && tokens[at
        + 5].is_punct(':') && tokens[at + 6].is_punct('<') && tokens[at + 8].is_punct('>') {
        Some(FoundCall { helper, method, target })
    } else {
        None
    }
}

fn resolve_method(helper: &str, method: &str) -> (resolved: Option<HelperMethod>)
    ensures
        resolved == helper_method(helper@, method@),
{
    if helper.eq("WgslVecInput") {
        if method.eq("vec_len") {
            Some(HelperMethod::VecLen)
        } else if method.eq("vec_val") {
            Some(HelperMethod::VecVal)
        } else {
            None
        }
    } else if helper.eq("WgslOutput") {
        if method.eq("push") {
            Some(HelperMethod::Push)
        } else if method.eq("len") {
            Some(HelperMethod::Len)
        } else if method.eq("max_len") {
            Some(HelperMethod::MaxLen)
        } else if method.eq("set") {
            Some(HelperMethod::SetItem)
        } else {
            None
        }
    } else if helper.eq("WgslConfigInput") {
        if method.eq("get") {
            Some(HelperMethod::ConfigGet)
        } else {
            None
        }
    } else {
        None
    }
}

fn method_allows(method: HelperMethod, kind: CustomTypeKind) -> (allowed: bool)
    ensures
        allowed == role_allows(method, kind),
{
    match method {
        HelperMethod::VecLen | HelperMethod::VecVal => kind == CustomTypeKind::InputArray,
        HelperMethod::Push | HelperMethod::Len => kind == CustomTypeKind::OutputVec,
        HelperMethod::MaxLen => kind == CustomTypeKind::OutputArray || kind
            == CustomTypeKind::OutputVec,
        HelperMethod::SetItem => kind == CustomTypeKind::OutputArray,
        HelperMethod::ConfigGet => kind == CustomTypeKind::Uniform,
    }
}

/// Looks up a declared type by its name; the first declaration counts.
pub fn find_custom_type<'a>(custom_types: &'a Vec<CustomType>, name: &str) -> (found: Option<
    &'a CustomType,
>)
    ensures
        match found {
            Some(custom_type) => custom_type.name@ == name@ && kind_of_type(
                custom_types_view(custom_types@),
                name@,
            ) == Some(custom_type.kind),
            None => kind_of_type(custom_types_view(custom_types@), name@) is None,
        },
{
    let ghost types = custom_types_view(custom_types@);
    let mut i: usize = 0;
    while i < custom_types.len()
        invariant
            i <= custom_types.len(),
            types == custom_types_view(custom_types@),
            kind_of_type(types, name@) == kind_of_type_from(types, name@, i as int),
        decreases custom_types.len() - i,
    {
        if custom_types[i].name.eq(name) {
            return Some(&custom_types[i]);
        }
        i = i + 1;
    }
    None
}

fn build_push_block(idents: &CustomTypeIdents, value: Vec<Token>) -> (block: Token)
    ensures
        block@ == push_block(idents@, stream_view(value@)),
{
    let mut value = value;
    let mut claim: Vec<Token> = Vec::new();
    claim.push(Token::punct('&'));
    claim.push(Token::Ident(idents.counter()));
    claim.push(Token::punct(','));
    claim.push(Token::Literal("1u".to_owned()));
    assert(stream_view(claim@) =~= seq![
        punct('&'),
        TokenTree::Ident(counter_name(idents@)),
        punct(','),
        TokenTree::Literal("1u"@),
    ]);
    let mut slot: Vec<Token> = Vec::new();
    slot.push(Token::Ident(idents.index()));
    assert(stream_view(slot@) =~= seq![TokenTree::Ident(index_name(idents@))]);
    let mut write: Vec<Token> = Vec::new();
    write.push(Token::Ident(idents.output_array()));
    write.push(Token::Group(Delimiter::Bracket, slot));
    write.push(Token::punct('='));
    let ghost head = write@;
    let ghost middle = value@;
    write.append(&mut value);
    write.push(Token::punct(';'));
    proof {
        assert(stream_view(head) =~= seq![
            TokenTree::Ident(output_array_name(idents@)),
            bracketed(seq![TokenTree::Ident(index_name(idents@))]),
            punct('='),
        ]);
        assert(stream_view(write@) =~= stream_view(head) + stream_view(middle) + seq![punct(';')]);
    }
    let mut block: Vec<Token> = Vec::new();
    block.push(Token::ident("let"));
    block.push(Token::Ident(idents.index()));
    block.push(Token::punct('='));
    block.push(Token::ident("atomicAdd"));
    block.push(Token::Group(Delimiter::Parenthesis, claim));
    block.push(Token::punct(';'));
    block.push(Token::ident("if"));
    block.push(Token::Ident(idents.index()));
    block.push(Token::punct('<'));
    block.push(Token::Ident(idents.output_array_length()));
    block.push(Token::Group(Delimiter::Brace, write));
    assert(stream_view(block@) =~= push_block(idents@, stream_view(middle))->Group_1);
    Token::Group(Delimiter::Brace, block)
}

fn build_replacement(method: HelperMethod, idents: &CustomTypeIdents, arguments: Vec<Token>) -> (result:
    Result<Vec<Token>, UnsupportedSyntax>)
    ensures
        result_is(result, helper_replacement(method, idents@, stream_view(arguments@))),
{
    let mut arguments = arguments;
    let ghost given = arguments@;
    let mut out: Vec<Token> = Vec::new();
    match method {
        HelperMethod::VecLen => {
            if arguments.len() != 0 {
                return Err(UnsupportedSyntax::WrongArguments);
            }
            out.push(Token::Ident(idents.input_array_length()));
            assert(stream_view(out@) =~= seq![TokenTree::Ident(input_array_length_name(idents@))]);
        },
        HelperMethod::VecVal => {
            if arguments.len() == 0 {
                return Err(UnsupportedSyntax::WrongArguments);
            }
            out.push(Token::Ident(idents.input_array()));
            out.push(Token::Group(Delimiter::Bracket, arguments));
            assert(stream_view(out@) =~= seq![
                TokenTree::Ident(input_array_name(idents@)),
                bracketed(stream_view(given)),
            ]);
        },
        HelperMethod::Push => {
            if arguments.len() == 0 {
                return Err(UnsupportedSyntax::WrongArguments);
            }
            out.push(build_push_block(idents, arguments));
            assert(stream_view(out@) =~= seq![push_block(idents@, stream_view(given))]);
        },
        HelperMethod::Len => {
            if arguments.len() != 0 {
                return Err(UnsupportedSyntax::WrongArguments);
            }
            out.push(Token::Ident(idents.counter()));
            assert(stream_view(out@) =~= seq![TokenTree::Ident(counter_name(idents@))]);
        },
        HelperMethod::MaxLen => {
            if arguments.len() != 0 {
                return Err(UnsupportedSyntax::WrongArguments);
            }
            out.push(Token::Ident(idents.output_array_length()));
            assert(stream_view(out@) =~= seq![TokenTree::Ident(output_array_length_name(idents@))]);
        },
        HelperMethod::SetItem => {
            let comma = find_punct(&arguments, ',', 0);
            if comma == 0 || arguments.len() - comma < 2 {
                return Err(UnsupportedSyntax::WrongArguments);
            }
            let mut value = arguments.split_off(comma + 1);
            arguments.pop();
            let ghost index = arguments@;
            let ghost tail = value@;
            out.push(Token::Ident(idents.output_array()));
            out.push(Token::Group(Delimiter::Bracket, arguments));
            out.push(Token::punct('='));
            let ghost head = out@;
            out.append(&mut value);
            proof {
                let trees = stream_view(given);
                lemma_stream_view_add(head, tail);
                assert(stream_view(index) =~= trees.take(comma as int));
                assert(stream_view(tail) =~= trees.skip(comma + 1));
                assert(stream_view(head) =~= seq![
                    TokenTree::Ident(output_array_name(idents@)),
                    bracketed(trees.take(comma as int)),
                    punct('='),
                ]);
            }
        },
        HelperMethod::ConfigGet => {
            if arguments.len() != 0 {
                return Err(UnsupportedSyntax::WrongArguments);
            }
            out.push(Token::Ident(idents.uniform()));
            assert(stream_view(out@) =~= seq![TokenTree::Ident(uniform_name(idents@))]);
        },
    }
    Ok(out)
}

/// Rewrites helper calls into shader code for the declared types that it
/// knows.
pub struct HelperCalls<'a> {
    pub custom_types: &'a Vec<CustomType>,
}

impl<'a> View for HelperCalls<'a> {
    type V = Seq<CustomTypeView>;

    open spec fn view(&self) -> Seq<CustomTypeView> {
        custom_types_view(self.custom_types@)
    }
}

impl<'a> Rule for HelperCalls<'a> {
    open spec fn step(
        rule: Seq<CustomTypeView>,
        output: Seq<TokenTree>,
        tokens: Seq<TokenTree>,
        at: int,
    ) -> Option<Result<Step, UnsupportedSyntax>> {
        match helper_call_at(tokens, at) {
            None => None,
            Some(call) => match call_rewritten(call, rule) {
                Err(error) => Some(Err(error)),
                Ok(replacement) => Some(
                    Ok(Step { output: output + replacement, next: at + helper_call_len() }),
                ),
            },
        }
    }

    fn apply(&self, output: &mut Vec<Token>, tokens: &Vec<Token>, at: usize) -> (result: Option<
        Result<usize, UnsupportedSyntax>,
    >) {
        let found = match find_helper_call(tokens, at) {
            Some(found) => found,
            None => {
                return None;
            },
        };
        let method = match resolve_method(found.helper, found.method) {
            Some(method) => method,
            None => {
                return Some(Err(UnsupportedSyntax::UnknownHelperMethod));
            },
        };
        let custom_type = match find_custom_type(self.custom_types, found.target) {
            Some(custom_type) => custom_type,
            None => {
                return Some(Err(UnsupportedSyntax::UnknownType));
            },
        };
        if !method_allows(method, custom_type.kind) {
            return Some(Err(UnsupportedSyntax::WrongRole));
        }
        let arguments = match &tokens[at + 9] {
            Token::Group(_, contents) => duplicate_stream(contents),
            _ => Vec::new(),
        };
        let mut replacement = match build_replacement(method, &custom_type.name, arguments) {
            Ok(replacement) => replacement,
            Err(error) => {
                return Some(Err(error));
            },
        };
        proof {
            lemma_stream_view_add(output@, replacement@);
        }
        output.append(&mut replacement);
        Some(Ok(at + 10))
    }
}

/// The tokens of a module with every helper call rewritten.
pub open spec fn helper_calls_rewritten(tokens: Seq<TokenTree>, types: Seq<CustomTypeView>) -> Result<
    Seq<TokenTree>,
    UnsupportedSyntax,
> {
    rewritten::<HelperCalls>(types, tokens)
}

/// Rewrites every helper call in the tokens of a module, at any depth, into
/// the shader code for the type that the call names. Fails where a call
/// names an unknown method or type, a type of a role that the method does
/// not work on, or the wrong number of arguments. All other tokens are kept
/// as they are.
pub fn transform_wgsl_helper_methods(rust_module: &Vec<Token>, custom_types: &Vec<CustomType>) -> (result:
    Result<Vec<Token>, UnsupportedSyntax>)
    ensures
        result_is(
            result,
            helper_calls_rewritten(stream_view(rust_module@), custom_types_view(custom_types@)),
        ),
{
    rewrite(&HelperCalls { custom_types }, rust_module)
}

} // verus!
