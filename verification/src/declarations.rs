//! What the items of a module declare: the types with their roles, and the
//! fields of the structs.

use crate::custom_type::{custom_types_view, kind_of, CustomType, CustomTypeKind, CustomTypeView};
use crate::error::UnsupportedSyntax;
use crate::module_parser::{items_view, Item, ItemKind, ItemView};
use crate::rewrite::{rewrite, rewritten};
use crate::to_wgsl::attributes::Annotations;
use crate::to_wgsl::struct_literals::{structs_view, StructFields, StructFieldsView};
use crate::token::{
    duplicate_stream, find_punct, group_contents, is_punct, punct_from, stream_view, Token,
    TokenTree,
};
use vstd::prelude::*;

verus! {

/// Whether an item of this kind declares a type.
pub open spec fn declares_type(kind: ItemKind) -> bool {
    kind is Struct || kind is TypeAlias
}

/// The type that an item declares: its name, the role that its attributes
/// select, and all of its tokens.
pub open spec fn declared_type(item: ItemView) -> CustomTypeView {
    CustomTypeView { name: item.name, kind: kind_of(item.attributes), rust_code: item.tokens }
}

/// The types that the first `count` items declare, in declaration order.
pub open spec fn declared_types(items: Seq<ItemView>, count: nat) -> Seq<CustomTypeView>
    decreases count,
{
    if count == 0 || count > items.len() {
        seq![]
    } else if declares_type(items[count - 1].kind) {
        declared_types(items, (count - 1) as nat).push(declared_type(items[count - 1]))
    } else {
        declared_types(items, (count - 1) as nat)
    }
}

/// The names of the fields that a struct body declares from position
/// `from` on, added to `names`. Each field is a name, a colon and a type;
/// commas separate the fields and one may follow the last.
pub open spec fn field_names_from(contents: Seq<TokenTree>, from: int, names: Seq<Seq<char>>) -> Option<
    Seq<Seq<char>>,
>
    decreases contents.len() - from,
{
    if from < 0 || from >= contents.len() {
        Some(names)
    } else {
        let end = punct_from(contents, ',', from);
        match contents[from] {
            TokenTree::Ident(name) => if end >= from + 3 && is_punct(contents[from + 1], ':') {
                if end >= contents.len() {
                    Some(names.push(name))
                } else {
                    field_names_from(contents, end + 1, names.push(name))
                }
            } else {
                None
            },
            _ => None,
        }
    }
}

/// The body of a struct item: what stands between its curly brackets.
pub open spec fn struct_body(item: ItemView) -> Seq<TokenTree> {
    if 0 <= item.keyword_at && item.keyword_at + 2 < item.tokens.len() {
        group_contents(item.tokens[item.keyword_at + 2])
    } else {
        seq![]
    }
}

/// The fields of a struct item, read from its body without attributes and
/// visibility.
pub open spec fn struct_fields(item: ItemView) -> Result<StructFieldsView, UnsupportedSyntax> {
    match rewritten::<Annotations>((), struct_body(item)) {
        Err(error) => Err(error),
        Ok(body) => match field_names_from(body, 0, seq![]) {
            None => Err(UnsupportedSyntax::MalformedItem),
            Some(fields) => Ok(StructFieldsView { name: item.name, fields }),
        },
    }
}

/// The structs that the first `count` items declare, or the error of the
/// first struct among them whose body is out of shape.
pub open spec fn declared_structs(items: Seq<ItemView>, count: nat) -> Result<
    Seq<StructFieldsView>,
    UnsupportedSyntax,
>
    decreases count,
{
    if count == 0 || count > items.len() {
        Ok(seq![])
    } else {
        match declared_structs(items, (count - 1) as nat) {
            Err(error) => Err(error),
            Ok(structs) => if items[count - 1].kind is Struct {
                match struct_fields(items[count - 1]) {
                    Err(error) => Err(error),
                    Ok(fields) => Ok(structs.push(fields)),
                }
            } else {
                Ok(structs)
            },
        }
    }
}

/// Classifies the types that the items declare.
pub fn collect_custom_types(items: &Vec<Item>) -> (custom_types: Vec<CustomType>)
    ensures
        custom_types_view(custom_types@) == declared_types(items_view(items@), items@.len()),
{
    let ghost views = items_view(items@);
    let mut custom_types: Vec<CustomType> = Vec::new();
    let mut i: usize = 0;
    while i < items.len()
        invariant
            i <= items.len(),
            views == items_view(items@),
            custom_types_view(custom_types@) == declared_types(views, i as nat),
        decreases items.len() - i,
    {
        let item = &items[i];
        if item.kind == ItemKind::Struct || item.kind == ItemKind::TypeAlias {
            let kind = CustomTypeKind::from(&item.attributes);
            let custom_type = CustomType::new(
                item.name.as_str(),
                kind,
                duplicate_stream(&item.tokens),
            );
            custom_types.push(custom_type);
        }
        i = i + 1;
    }
    custom_types
}

fn parse_field_names(contents: &Vec<Token>) -> (names: Option<Vec<String>>)
    ensures
        match names {
            Some(found) => field_names_from(stream_view(contents@), 0, seq![]) == Some(
                Seq::new(found@.len(), |i: int| found@[i]@),
            ),
            None => field_names_from(stream_view(contents@), 0, seq![]) is None,
        },
{
    let ghost trees = stream_view(contents@);
    let mut names: Vec<String> = Vec::new();
    let mut from: usize = 0;
    assert(Seq::new(names@.len(), |i: int| names@[i]@) =~= Seq::<Seq<char>>::empty());
    while from < contents.len()
        invariant
            trees == stream_view(contents@),
            field_names_from(trees, 0, seq![]) == field_names_from(
                trees,
                from as int,
                Seq::new(names@.len(), |i: int| names@[i]@),
            ),
        decreases contents.len() - from,
    {
        let ghost before = Seq::new(names@.len(), |i: int| names@[i]@);
        let end = find_punct(contents, ',', from);
        let name = match contents[from].ident_text() {
            Some(name) => name,
            None => {
                return None;
            },
        };
        if end - from < 3 {
            return None;
        }
        if !contents[from + 1].is_punct(':') {
            return None;
        }
        names.push(name.to_owned());
        assert(Seq::new(names@.len(), |i: int| names@[i]@) =~= before.push(name@));
        if end == contents.len() {
            from = end;
        } else {
            from = end + 1;
        }
    }
    Some(names)
}

/// Reads the fields of a struct item.
pub fn parse_struct_fields(item: &Item) -> (result: Result<StructFields, UnsupportedSyntax>)
    ensures
        match result {
            Ok(fields) => struct_fields(item@) == Ok::<StructFieldsView, UnsupportedSyntax>(
                fields@,
            ),
            Err(error) => struct_fields(item@) == Err::<StructFieldsView, UnsupportedSyntax>(
                error,
            ),
        },
{
    let empty: Vec<Token> = Vec::new();
    let body = if item.tokens.len() >= 3 && item.keyword_at < item.tokens.len() - 2 {
        match &item.tokens[item.keyword_at + 2] {
            Token::Group(_, contents) => contents,
            _ => &empty,
        }
    } else {
        &empty
    };
    let stripped = match rewrite(&Annotations, body) {
        Ok(stripped) => stripped,
        Err(error) => {
            return Err(error);
        },
    };
    match parse_field_names(&stripped) {
        Some(fields) => {
            let found = StructFields { name: item.name.clone(), fields };
            Ok(found)
        },
        None => Err(UnsupportedSyntax::MalformedItem),
    }
}

/// Reads the fields of every struct that the items declare.
pub fn collect_structs(items: &Vec<Item>) -> (result: Result<
    Vec<StructFields>,
    UnsupportedSyntax,
>)
    ensures
        match result {
            Ok(structs) => declared_structs(items_view(items@), items@.len()) == Ok::<
                Seq<StructFieldsView>,
                UnsupportedSyntax,
            >(structs_view(structs@)),
            Err(error) => declared_structs(items_view(items@), items@.len()) == Err::<
                Seq<StructFieldsView>,
                UnsupportedSyntax,
            >(error),
        },
{
    let ghost views = items_view(items@);
    let mut structs: Vec<StructFields> = Vec::new();
    let mut i: usize = 0;
    assert(structs_view(structs@) =~= Seq::<StructFieldsView>::empty());
    while i < items.len()
        invariant
            i <= items.len(),
            views == items_view(items@),
            declared_structs(views, i as nat) == Ok::<Seq<StructFieldsView>, UnsupportedSyntax>(
                structs_view(structs@),
            ),
        decreases items.len() - i,
    {
        let item = &items[i];
        proof {
            if declared_structs(views, (i + 1) as nat) is Err {
                lemma_structs_error(views, (i + 1) as nat, views.len());
            }
        }
        if item.kind == ItemKind::Struct {
            match parse_struct_fields(item) {
                Ok(fields) => {
                    assert(structs_view(structs@.push(fields)) =~= structs_view(structs@).push(
                        fields@,
                    ));
                    structs.push(fields);
                },
                Err(error) => {
                    return Err(error);
                },
            }
        }
        i = i + 1;
    }
    Ok(structs)
}

/// An error among the first structs is the error of the whole list.
proof fn lemma_structs_error(items: Seq<ItemView>, shorter: nat, longer: nat)
    requires
        shorter <= longer <= items.len(),
        declared_structs(items, shorter) is Err,
    ensures
        declared_structs(items, longer) == declared_structs(items, shorter),
    decreases longer,
{
    if shorter < longer {
        lemma_structs_error(items, shorter, (longer - 1) as nat);
    }
}

} // verus!
