//! The items of a source module: `use` declarations, constants, type
//! aliases, structs with named fields, and functions, each with its
//! attributes and the place of its keyword among its tokens.

use crate::custom_type::Attribute;
use crate::error::UnsupportedSyntax;
use crate::syntax::{parsed_view, ParsedItem, ParsedItemView};
use crate::token::{
    duplicate_stream, group_contents, is_group, is_punct, stream_view, Delimiter, Token, TokenTree,
};
use vstd::prelude::*;

verus! {

/// The kinds of items that a module can hold.
#[derive(Clone, Copy, Debug, PartialEq, Eq, Structural)]
pub enum ItemKind {
    Use,
    Const,
    TypeAlias,
    Struct,
    Function,
}

/// One item of a module: its kind, its name (empty for a `use`), its
/// attributes, all of its tokens, and where among them its keyword stands.
#[derive(Debug)]
pub struct Item {
    pub kind: ItemKind,
    pub name: String,
    pub attributes: Vec<Attribute>,
    pub tokens: Vec<Token>,
    pub keyword_at: usize,
}

/// The value of an item.
pub struct ItemView {
    pub kind: ItemKind,
    pub name: Seq<char>,
    pub attributes: Seq<Seq<TokenTree>>,
    pub tokens: Seq<TokenTree>,
    pub keyword_at: int,
}

impl View for Item {
    type V = ItemView;

    open spec fn view(&self) -> ItemView {
        ItemView {
            kind: self.kind,
            name: self.name@,
            attributes: Seq::new(self.attributes@.len(), |i: int| self.attributes@[i]@),
            tokens: stream_view(self.tokens@),
            keyword_at: self.keyword_at as int,
        }
    }
}

/// The values of a list of items.
pub open spec fn items_view(items: Seq<Item>) -> Seq<ItemView> {
    Seq::new(items.len(), |i: int| items[i]@)
}

/// Where the outer attributes end that start at position `at`.
pub open spec fn attributes_end(tokens: Seq<TokenTree>, at: int) -> int
    decreases tokens.len() - at,
{
    if 0 <= at && at + 1 < tokens.len() && is_punct(tokens[at], '#') && is_group(
        tokens[at + 1],
        Delimiter::Bracket,
    ) {
        attributes_end(tokens, at + 2)
    } else {
        at
    }
}

/// The attributes that stand from position `from` up to position `to`.
pub open spec fn attributes_between(tokens: Seq<TokenTree>, from: int, to: int) -> Seq<
    Seq<TokenTree>,
> {
    Seq::new(((to - from) / 2) as nat, |i: int| group_contents(tokens[from + 2 * i + 1]))
}

/// The number of tokens of the visibility at position `at`: `pub` with or
/// without a restriction in round brackets, or nothing.
pub open spec fn visibility_len(tokens: Seq<TokenTree>, at: int) -> int {
    if 0 <= at < tokens.len() && tokens[at] == TokenTree::Ident("pub"@) {
        if at + 1 < tokens.len() && is_group(tokens[at + 1], Delimiter::Parenthesis) {
            2
        } else {
            1
        }
    } else {
        0
    }
}

/// Finds the end of the outer attributes that start at `at`.
pub(crate) fn find_attributes_end(tokens: &Vec<Token>, at: usize) -> (end: usize)
    requires
        at <= tokens.len(),
    ensures
        end == attributes_end(stream_view(tokens@), at as int),
        at <= end <= tokens.len(),
        (end - at) % 2 == 0,
        forall|i: int|
            0 <= i < (end - at) / 2 ==> #[trigger] tokens@[at + 2 * i + 1]@ is Group,
{
    let ghost trees = stream_view(tokens@);
    let mut end: usize = at;
    loop
        invariant
            at <= end <= tokens.len(),
            trees == stream_view(tokens@),
            attributes_end(trees, at as int) == attributes_end(trees, end as int),
            (end - at) % 2 == 0,
            forall|i: int|
                0 <= i < (end - at) / 2 ==> #[trigger] tokens@[at + 2 * i + 1]@ is Group,
        decreases tokens.len() - end,
    {
        if tokens.len() - end < 2 {
            return end;
        }
        if tokens[end].is_punct('#') && tokens[end + 1].is_group(Delimiter::Bracket) {
            end = end + 2;
        } else {
            return end;
        }
    }
}

/// Measures the visibility at position `at`.
pub(crate) fn measure_visibility(tokens: &Vec<Token>, at: usize) -> (len: usize)
    requires
        at <= tokens.len(),
    ensures
        len == visibility_len(stream_view(tokens@), at as int),
        at + len <= tokens.len(),
{
    if at >= tokens.len() {
        return 0;
    }
    if tokens[at].is_ident("pub") {
        if tokens.len() - at > 1 {
            if tokens[at + 1].is_group(Delimiter::Parenthesis) {
                return 2;
            }
        }
        1
    } else {
        0
    }
}

/// Copies the attributes that stand from position `from` up to `to`.
fn collect_attributes(tokens: &Vec<Token>, from: usize, to: usize) -> (attributes: Vec<Attribute>)
    requires
        from <= to <= tokens.len(),
        (to - from) % 2 == 0,
        forall|i: int| 0 <= i < (to - from) / 2 ==> #[trigger] tokens@[from + 2 * i + 1]@ is Group,
    ensures
        Seq::new(attributes@.len(), |i: int| attributes@[i]@) == attributes_between(
            stream_view(tokens@),
            from as int,
            to as int,
        ),
{
    let ghost trees = stream_view(tokens@);
    let mut attributes: Vec<Attribute> = Vec::new();
    let mut at: usize = from;
    while at < to
        invariant
            from <= at <= to <= tokens.len(),
            (to - from) % 2 == 0,
            (at - from) % 2 == 0,
            trees == stream_view(tokens@),
            attributes@.len() == (at - from) / 2,
            forall|i: int|
                0 <= i < (to - from) / 2 ==> #[trigger] tokens@[from + 2 * i + 1]@ is Group,
            forall|i: int|
                0 <= i < attributes@.len() ==> (#[trigger] attributes@[i])@ == group_contents(
                    trees[from + 2 * i + 1],
                ),
        decreases to - at,
    {
        let contents = match &tokens[at + 1] {
            Token::Group(_, contents) => duplicate_stream(contents),
            _ => Vec::new(),
        };
        attributes.push(Attribute { tokens: contents });
        at = at + 2;
    }
    attributes
}

/// Where the keyword of the declaration stands whose tokens these are:
/// behind its attributes and its visibility.
pub open spec fn keyword_position(tokens: Seq<TokenTree>, at: int) -> int {
    attributes_end(tokens, at) + visibility_len(tokens, attributes_end(tokens, at))
}

/// The keyword that items of a kind start with; `use` items are not
/// looked into.
pub open spec fn keyword_of(kind: ItemKind) -> Seq<char> {
    match kind {
        ItemKind::Use => "use"@,
        ItemKind::Const => "const"@,
        ItemKind::TypeAlias => "type"@,
        ItemKind::Struct => "struct"@,
        ItemKind::Function => "fn"@,
    }
}

/// Whether the tokens have the shape of an item of the kind: behind
/// attributes and visibility stand the keyword of the kind and a name, and
/// for a struct curly brackets behind the name.
pub open spec fn has_shape(kind: ItemKind, tokens: Seq<TokenTree>) -> bool {
    let keyword_at = keyword_position(tokens, 0);
    &&& keyword_at + 1 < tokens.len()
    &&& tokens[keyword_at] == TokenTree::Ident(keyword_of(kind))
    &&& tokens[keyword_at + 1] is Ident
    &&& (kind is Struct ==> keyword_at + 2 < tokens.len() && is_group(
        tokens[keyword_at + 2],
        Delimiter::Brace,
    ))
}

/// The item that a parsed item is. An item of a kind that shader modules
/// do not hold is refused, and so is a constant, type alias, struct or
/// function whose tokens do not have the shape of its kind, such as a
/// struct without named fields or a function with a qualifier.
pub open spec fn item_read(parsed: ParsedItemView) -> Result<ItemView, UnsupportedSyntax> {
    let keyword_at = keyword_position(parsed.tokens, 0);
    match parsed.kind {
        None => Err(UnsupportedSyntax::UnsupportedItem),
        Some(kind) => if !(kind is Use) && !has_shape(kind, parsed.tokens) {
            Err(UnsupportedSyntax::UnsupportedItem)
        } else {
            Ok(
                ItemView {
                    kind,
                    name: if kind is Use {
                        seq![]
                    } else {
                        parsed.tokens[keyword_at + 1]->Ident_0
                    },
                    attributes: attributes_between(
                        parsed.tokens,
                        0,
                        attributes_end(parsed.tokens, 0),
                    ),
                    tokens: parsed.tokens,
                    keyword_at,
                },
            )
        },
    }
}

/// The items that the first `count` parsed items are, or the error of the
/// first among them that is refused.
pub open spec fn items_read(parsed: Seq<ParsedItemView>, count: nat) -> Result<
    Seq<ItemView>,
    UnsupportedSyntax,
>
    decreases count,
{
    if count == 0 || count > parsed.len() {
        Ok(seq![])
    } else {
        match items_read(parsed, (count - 1) as nat) {
            Err(error) => Err(error),
            Ok(items) => match item_read(parsed[count - 1]) {
                Err(error) => Err(error),
                Ok(item) => Ok(items.push(item)),
            },
        }
    }
}

/// Reads one parsed item.
pub fn read_item(parsed: &ParsedItem) -> (result: Result<Item, UnsupportedSyntax>)
    ensures
        match result {
            Ok(item) => item_read(parsed@) == Ok::<ItemView, UnsupportedSyntax>(item@),
            Err(error) => item_read(parsed@) == Err::<ItemView, UnsupportedSyntax>(error),
        },
{
    let ghost trees = stream_view(parsed.tokens@);
    let kind = match parsed.kind {
        Some(kind) => kind,
        None => {
            return Err(UnsupportedSyntax::UnsupportedItem);
        },
    };
    let tokens = &parsed.tokens;
    let attributes_end = find_attributes_end(tokens, 0);
    let keyword_at = attributes_end + measure_visibility(tokens, attributes_end);
    let mut name = String::new();
    if kind != ItemKind::Use {
        if tokens.len() < 2 || keyword_at > tokens.len() - 2 {
            return Err(UnsupportedSyntax::UnsupportedItem);
        }
        assert(trees[keyword_at as int] == tokens@[keyword_at as int]@);
        assert(trees[keyword_at + 1] == tokens@[keyword_at + 1]@);
        let keyword = match kind {
            ItemKind::Use => "use",
            ItemKind::Const => "const",
            ItemKind::TypeAlias => "type",
            ItemKind::Struct => "struct",
            ItemKind::Function => "fn",
        };
        if !tokens[keyword_at].is_ident(keyword) {
            return Err(UnsupportedSyntax::UnsupportedItem);
        }
        name = match tokens[keyword_at + 1].ident_text() {
            Some(name) => name.to_owned(),
            None => {
                return Err(UnsupportedSyntax::UnsupportedItem);
            },
        };
        if kind == ItemKind::Struct {
            if tokens.len() - keyword_at < 3 {
                return Err(UnsupportedSyntax::UnsupportedItem);
            }
            assert(trees[keyword_at + 2] == tokens@[keyword_at + 2]@);
            if !tokens[keyword_at + 2].is_group(Delimiter::Brace) {
                return Err(UnsupportedSyntax::UnsupportedItem);
            }
        }
    }
    Ok(
        Item {
            kind,
            name,
            attributes: collect_attributes(tokens, 0, attributes_end),
            tokens: duplicate_stream(tokens),
            keyword_at,
        },
    )
}

/// Reads the items of a module, in declaration order.
pub fn read_items(parsed: &Vec<ParsedItem>) -> (result: Result<Vec<Item>, UnsupportedSyntax>)
    ensures
        match result {
            Ok(items) => items_read(parsed_view(parsed@), parsed@.len())
                == Ok::<Seq<ItemView>, UnsupportedSyntax>(items_view(items@)),
            Err(error) => items_read(
                parsed_view(parsed@),
                parsed@.len(),
            ) == Err::<Seq<ItemView>, UnsupportedSyntax>(error),
        },
{
    let ghost views = parsed_view(parsed@);
    let mut items: Vec<Item> = Vec::new();
    let mut i: usize = 0;
    assert(items_view(items@) =~= Seq::<ItemView>::empty());
    while i < parsed.len()
        invariant
            i <= parsed.len(),
            views == parsed_view(parsed@),
            items_read(views, i as nat) == Ok::<Seq<ItemView>, UnsupportedSyntax>(
                items_view(items@),
            ),
        decreases parsed.len() - i,
    {
        assert(views[i as int] == parsed@[i as int]@);
        proof {
            if items_read(views, (i + 1) as nat) is Err {
                lemma_items_error(views, (i + 1) as nat, views.len());
            }
        }
        let item = match read_item(&parsed[i]) {
            Ok(item) => item,
            Err(error) => {
                return Err(error);
            },
        };
        assert(items_view(items@.push(item)) =~= items_view(items@).push(item@));
        items.push(item);
        i = i + 1;
    }
    Ok(items)
}

/// An error among the first items is the error of the whole list.
proof fn lemma_items_error(parsed: Seq<ParsedItemView>, shorter: nat, longer: nat)
    requires
        shorter <= longer <= parsed.len(),
        items_read(parsed, shorter) is Err,
    ensures
        items_read(parsed, longer) == items_read(parsed, shorter),
    decreases longer,
{
    if shorter < longer {
        lemma_items_error(parsed, shorter, (longer - 1) as nat);
    }
}

} // verus!
