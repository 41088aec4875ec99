//! Reading a text as a module of the source language, with `syn`.

use crate::lexer::stream_to_tokens;
use crate::module_parser::ItemKind;
use crate::token::{stream_view, Token, TokenTree};
use quote::ToTokens;
use vstd::prelude::*;

verus! {

/// One item of a module as `syn` reads it: its kind, where it is one that a
/// shader module can hold, and its tokens.
#[derive(Debug)]
pub struct ParsedItem {
    pub kind: Option<ItemKind>,
    pub tokens: Vec<Token>,
}

/// The value of a parsed item.
pub struct ParsedItemView {
    pub kind: Option<ItemKind>,
    pub tokens: Seq<TokenTree>,
}

impl View for ParsedItem {
    type V = ParsedItemView;

    open spec fn view(&self) -> ParsedItemView {
        ParsedItemView { kind: self.kind, tokens: stream_view(self.tokens@) }
    }
}

/// The values of a list of parsed items.
pub open spec fn parsed_view(items: Seq<ParsedItem>) -> Seq<ParsedItemView> {
    Seq::new(items.len(), |i: int| items[i]@)
}

/// A module as `syn` reads it: the tokens of its visibility, its name, and
/// the items of its body.
#[derive(Debug)]
pub struct ParsedModule {
    pub visibility: Vec<Token>,
    pub name: String,
    pub items: Vec<ParsedItem>,
}

/// The value of a parsed module.
pub struct ParsedModuleView {
    pub visibility: Seq<TokenTree>,
    pub name: Seq<char>,
    pub items: Seq<ParsedItemView>,
}

impl View for ParsedModule {
    type V = ParsedModuleView;

    open spec fn view(&self) -> ParsedModuleView {
        ParsedModuleView {
            visibility: stream_view(self.visibility@),
            name: self.name@,
            items: parsed_view(self.items@),
        }
    }
}

/// The visibility and the name of the module that `syn` reads in a text,
/// or `None` where the text is not one module of the source language.
pub uninterp spec fn module_header(text: Seq<char>) -> Option<(Seq<TokenTree>, Seq<char>)>;

/// The items of the module that `syn` reads in a text, or `None` where the
/// text is not one module with a body.
pub uninterp spec fn module_items(text: Seq<char>) -> Option<Seq<ParsedItemView>>;

/// The module that `syn` reads in a text.
pub open spec fn module_read(text: Seq<char>) -> Option<ParsedModuleView> {
    match (module_header(text), module_items(text)) {
        (Some((visibility, name)), Some(items)) => Some(
            ParsedModuleView { visibility, name, items },
        ),
        _ => None,
    }
}

/// Calls `syn::parse_str::<syn::ItemMod>` and copies the tokens of the
/// visibility and the name of what it gives. Nothing is claimed about
/// which texts are modules; the contract only gives the outcome its name.
#[verifier::external_body]
fn read_header(text: &str) -> (header: Option<(Vec<Token>, String)>)
    ensures
        match header {
            Some((visibility, name)) => module_header(text@) == Some(
                (stream_view(visibility@), name@),
            ),
            None => module_header(text@) is None,
        },
{
    let module = syn::parse_str::<syn::ItemMod>(text).ok()?;
    Some((stream_to_tokens(module.vis.to_token_stream()), module.ident.to_string()))
}

/// Calls `syn::parse_str::<syn::ItemMod>` and copies, for each item of the
/// body that it gives, the tokens of the item and its kind where it is a
/// constant, a function, a struct, a type alias or a `use`. Nothing is
/// claimed about what the items of a text are; the contract only gives
/// the outcome its name.
#[verifier::external_body]
fn read_body(text: &str) -> (items: Option<Vec<ParsedItem>>)
    ensures
        match items {
            Some(parsed) => module_items(text@) == Some(parsed_view(parsed@)),
            None => module_items(text@) is None,
        },
{
    let module = syn::parse_str::<syn::ItemMod>(text).ok()?;
    Some(module.content?.1.into_iter().map(|item| {
        let kind = match &item {
            syn::Item::Const(_) => Some(ItemKind::Const),
            syn::Item::Fn(_) => Some(ItemKind::Function),
            syn::Item::Struct(_) => Some(ItemKind::Struct),
            syn::Item::Type(_) => Some(ItemKind::TypeAlias),
            syn::Item::Use(_) => Some(ItemKind::Use),
            _ => None,
        };
        ParsedItem { kind, tokens: stream_to_tokens(item.to_token_stream()) }
    }).collect())
}

/// Reads a text as one module of the source language. Returns `None`
/// exactly when `syn` does not read the text as one module with a body.
pub fn parse_module(text: &str) -> (module: Option<ParsedModule>)
    ensures
        match module {
            Some(parsed) => module_read(text@) == Some(parsed@),
            None => module_read(text@) is None,
        },
{
    let (visibility, name) = match read_header(text) {
        Some(header) => header,
        None => {
            return None;
        },
    };
    match read_body(text) {
        Some(items) => Some(ParsedModule { visibility, name, items }),
        None => None,
    }
}

} // verus!
