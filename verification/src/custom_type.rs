//! Declared types and the role that each plays in the shader module.

use crate::custom_type_idents::CustomTypeIdents;
use crate::token::{duplicate_stream, is_punct, stream_view, Token, TokenTree};
use vstd::prelude::*;

verus! {

/// The role of a declared type.
#[derive(Clone, Copy, Debug, PartialEq, Eq, Structural)]
pub enum CustomTypeKind {
    GpuOnlyHelperType,
    Uniform,
    InputArray,
    OutputArray,
    OutputVec,
    ArrayLengthVariable,
}

/// An attribute on a declaration: the tokens between its square brackets.
#[derive(Debug)]
pub struct Attribute {
    pub tokens: Vec<Token>,
}

impl View for Attribute {
    type V = Seq<TokenTree>;

    open spec fn view(&self) -> Seq<TokenTree> {
        stream_view(self.tokens@)
    }
}

/// Whether the path of an attribute is the single identifier `name`: the
/// attribute starts with that identifier and no `::` follows it.
pub open spec fn attribute_is_ident(attribute: Seq<TokenTree>, name: Seq<char>) -> bool {
    &&& attribute.len() > 0
    &&& attribute[0] == TokenTree::Ident(name)
    &&& (attribute.len() > 1 ==> !is_punct(attribute[1], ':'))
}

/// The role that an attribute selects, if it is one of the four markers.
pub open spec fn marker_kind(attribute: Seq<TokenTree>) -> Option<CustomTypeKind> {
    if attribute_is_ident(attribute, "wgsl_config"@) {
        Some(CustomTypeKind::Uniform)
    } else if attribute_is_ident(attribute, "wgsl_input_array"@) {
        Some(CustomTypeKind::InputArray)
    } else if attribute_is_ident(attribute, "wgsl_output_array"@) {
        Some(CustomTypeKind::OutputArray)
    } else if attribute_is_ident(attribute, "wgsl_output_vec"@) {
        Some(CustomTypeKind::OutputVec)
    } else {
        None
    }
}

/// The role selected by the first marker at or after `from`; a helper type
/// where there is none.
pub open spec fn kind_from(attributes: Seq<Seq<TokenTree>>, from: int) -> CustomTypeKind
    decreases attributes.len() - from,
{
    if from < 0 || from >= attributes.len() {
        CustomTypeKind::GpuOnlyHelperType
    } else {
        match marker_kind(attributes[from]) {
            Some(kind) => kind,
            None => kind_from(attributes, from + 1),
        }
    }
}

/// The role of a declaration with the given attributes.
pub open spec fn kind_of(attributes: Seq<Seq<TokenTree>>) -> CustomTypeKind {
    kind_from(attributes, 0)
}

/// The values of a list of attributes.
pub open spec fn attributes_view(attributes: Seq<Attribute>) -> Seq<Seq<TokenTree>> {
    Seq::new(attributes.len(), |i: int| attributes[i]@)
}

/// A declaration without any marker is a helper type.
pub proof fn lemma_unmarked_is_helper(attributes: Seq<Seq<TokenTree>>)
    requires
        forall|i: int| 0 <= i < attributes.len() ==> marker_kind(#[trigger] attributes[i]) is None,
    ensures
        kind_of(attributes) == CustomTypeKind::GpuOnlyHelperType,
{
    lemma_kind_from_unmarked(attributes, 0);
}

proof fn lemma_kind_from_unmarked(attributes: Seq<Seq<TokenTree>>, from: int)
    requires
        0 <= from,
        forall|i: int|
            from <= i < attributes.len() ==> marker_kind(#[trigger] attributes[i]) is None,
    ensures
        kind_from(attributes, from) == CustomTypeKind::GpuOnlyHelperType,
    decreases attributes.len() - from,
{
    if from < attributes.len() {
        lemma_kind_from_unmarked(attributes, from + 1);
    }
}

/// The first marker decides: where the attribute at `index` is a marker and
/// none stands before it, the declaration has the role of that marker. In
/// particular a declaration with exactly one marker has its role.
pub proof fn lemma_first_marker_decides(attributes: Seq<Seq<TokenTree>>, index: int)
    requires
        0 <= index < attributes.len(),
        marker_kind(attributes[index]) is Some,
        forall|i: int| 0 <= i < index ==> marker_kind(#[trigger] attributes[i]) is None,
    ensures
        kind_of(attributes) == marker_kind(attributes[index])->0,
{
    lemma_kind_from_first_marker(attributes, 0, index);
}

proof fn lemma_kind_from_first_marker(attributes: Seq<Seq<TokenTree>>, from: int, index: int)
    requires
        0 <= from <= index < attributes.len(),
        marker_kind(attributes[index]) is Some,
        forall|i: int| from <= i < index ==> marker_kind(#[trigger] attributes[i]) is None,
    ensures
        kind_from(attributes, from) == marker_kind(attributes[index])->0,
    decreases index - from,
{
    if from < index {
        lemma_kind_from_first_marker(attributes, from + 1, index);
    }
}

impl Attribute {
    /// Whether the path of the attribute is the single identifier `name`.
    pub fn is_ident(&self, name: &str) -> (found: bool)
        ensures
            found == attribute_is_ident(self@, name@),
    {
        if self.tokens.len() == 0 {
            return false;
        }
        let first = match &self.tokens[0] {
            Token::Ident(text) => text.as_str().eq(name),
            _ => false,
        };
        if !first {
            return false;
        }
        if self.tokens.len() > 1 {
            match &self.tokens[1] {
                Token::Punct(c, _) => *c != ':',
                _ => true,
            }
        } else {
            true
        }
    }

    /// The role that the attribute selects, if it is a marker.
    pub fn marker(&self) -> (kind: Option<CustomTypeKind>)
        ensures
            kind == marker_kind(self@),
    {
        if self.is_ident("wgsl_config") {
            Some(CustomTypeKind::Uniform)
        } else if self.is_ident("wgsl_input_array") {
            Some(CustomTypeKind::InputArray)
        } else if self.is_ident("wgsl_output_array") {
            Some(CustomTypeKind::OutputArray)
        } else if self.is_ident("wgsl_output_vec") {
            Some(CustomTypeKind::OutputVec)
        } else {
            None
        }
    }
}

impl CustomTypeKind {
    /// Classifies a declaration by its attributes: the first marker among
    /// them decides, and without a marker the declaration is a helper type.
    pub fn from(attrs: &Vec<Attribute>) -> (kind: Self)
        ensures
            kind == kind_of(attributes_view(attrs@)),
    {
        let ghost attributes = attributes_view(attrs@);
        let mut i: usize = 0;
        while i < attrs.len()
            invariant
                i <= attrs.len(),
                attributes == attributes_view(attrs@),
                kind_of(attributes) == kind_from(attributes, i as int),
            decreases attrs.len() - i,
        {
            match attrs[i].marker() {
                Some(kind) => {
                    return kind;
                },
                None => {},
            }
            i = i + 1;
        }
        CustomTypeKind::GpuOnlyHelperType
    }
}

/// The value of a declared type: its name, its role and its declaration.
pub struct CustomTypeView {
    pub name: Seq<char>,
    pub kind: CustomTypeKind,
    pub rust_code: Seq<TokenTree>,
}

/// A declared type: its names, its role and the tokens of its declaration.
#[derive(Debug)]
pub struct CustomType {
    pub name: CustomTypeIdents,
    pub kind: CustomTypeKind,
    pub rust_code: Vec<Token>,
}

impl View for CustomType {
    type V = CustomTypeView;

    open spec fn view(&self) -> CustomTypeView {
        CustomTypeView {
            name: self.name@,
            kind: self.kind,
            rust_code: stream_view(self.rust_code@),
        }
    }
}

/// The values of a list of declared types.
pub open spec fn custom_types_view(types: Seq<CustomType>) -> Seq<CustomTypeView> {
    Seq::new(types.len(), |i: int| types[i]@)
}

impl Clone for CustomType {
    /// A copy of the declared type.
    fn clone(&self) -> (copy: Self)
        ensures
            copy@ == self@,
    {
        CustomType {
            name: self.name.clone(),
            kind: self.kind,
            rust_code: duplicate_stream(&self.rust_code),
        }
    }
}

impl CustomType {
    /// A declared type with the given name, role and declaration.
    pub fn new(name: &str, kind: CustomTypeKind, type_def_code: Vec<Token>) -> (custom_type: Self)
        ensures
            custom_type@ == (CustomTypeView {
                name: name@,
                kind,
                rust_code: stream_view(type_def_code@),
            }),
    {
        CustomType { name: CustomTypeIdents::new(name), kind, rust_code: type_def_code }
    }
}

} // verus!
