//! Struct literals: `Name { field: value, .. }` becomes the constructor
//! call `Name(value, ..)`, with the values in the order in which the
//! struct declares its fields. A name that stands behind `->` or `struct`
//! starts no literal.

use crate::error::UnsupportedSyntax;
use crate::rewrite::{Rule, Step};
use crate::token::{
    duplicate_range, duplicate_stream, find_punct, is_punct, lemma_punct_from_bounds,
    lemma_stream_view_push, parenthesized, punct, punct_from, stream_view, Delimiter, Token,
    TokenTree,
};
use vstd::prelude::*;

verus! {

/// A struct of the module: its name and the names of its fields, in
/// declaration order.
#[derive(Debug)]
pub struct StructFields {
    pub name: String,
    pub fields: Vec<String>,
}

/// The value of a `StructFields`.
pub struct StructFieldsView {
    pub name: Seq<char>,
    pub fields: Seq<Seq<char>>,
}

impl View for StructFields {
    type V = StructFieldsView;

    open spec fn view(&self) -> StructFieldsView {
        StructFieldsView {
            name: self.name@,
            fields: Seq::new(self.fields@.len(), |i: int| self.fields@[i]@),
        }
    }
}

/// The values of a list of structs.
pub open spec fn structs_view(structs: Seq<StructFields>) -> Seq<StructFieldsView> {
    Seq::new(structs.len(), |i: int| structs[i]@)
}

/// One field of a struct literal: its name and the tokens of its value.
pub struct FieldValueView {
    pub name: Seq<char>,
    pub value: Seq<TokenTree>,
}

/// One field of a struct literal.
pub struct FieldValue {
    pub name: String,
    pub value: Vec<Token>,
}

impl View for FieldValue {
    type V = FieldValueView;

    open spec fn view(&self) -> FieldValueView {
        FieldValueView { name: self.name@, value: stream_view(self.value@) }
    }
}

/// The values of a list of literal fields.
pub open spec fn fields_view(fields: Seq<FieldValue>) -> Seq<FieldValueView> {
    Seq::new(fields.len(), |i: int| fields[i]@)
}

/// The fields that the first struct named `name` at or after `from`
/// declares.
pub open spec fn declared_fields_from(structs: Seq<StructFieldsView>, name: Seq<char>, from: int) -> Option<
    Seq<Seq<char>>,
>
    decreases structs.len() - from,
{
    if from < 0 || from >= structs.len() {
        None
    } else if structs[from].name == name {
        Some(structs[from].fields)
    } else {
        declared_fields_from(structs, name, from + 1)
    }
}

/// Whether what has been written so far ends in `->` or `struct`: a name
/// behind either is a return type or a declaration, and the braces behind
/// the name are a body, not a literal.
pub open spec fn names_a_type(output: Seq<TokenTree>) -> bool {
    ||| (output.len() >= 1 && output.last() == TokenTree::Ident("struct"@))
    ||| (output.len() >= 2 && is_punct(output.last(), '>') && output[output.len() - 2]
        == TokenTree::Punct('-', true))
}

/// The field that one comma-separated part of a literal gives: `name:
/// value`, or just `name` where the value is the variable of that name.
pub open spec fn field_of_part(part: Seq<TokenTree>) -> Option<FieldValueView> {
    if part.len() == 1 {
        match part[0] {
            TokenTree::Ident(name) => Some(FieldValueView { name, value: part }),
            _ => None,
        }
    } else if part.len() >= 3 && is_punct(part[1], ':') && !is_punct(part[2], ':') {
        match part[0] {
            TokenTree::Ident(name) => Some(FieldValueView { name, value: part.skip(2) }),
            _ => None,
        }
    } else {
        None
    }
}

/// The fields of a literal from position `from` on, added to `fields`; a
/// comma may follow the last one. `None` where a part is not a field.
pub open spec fn literal_fields_from(
    contents: Seq<TokenTree>,
    from: int,
    fields: Seq<FieldValueView>,
) -> Option<Seq<FieldValueView>>
    decreases contents.len() - from,
{
    if from < 0 || from >= contents.len() {
        Some(fields)
    } else {
        proof {
            lemma_punct_from_bounds(contents, ',', from);
        }
        let end = punct_from(contents, ',', from);
        match field_of_part(contents.subrange(from, end)) {
            None => None,
            Some(field) => if end >= contents.len() {
                Some(fields.push(field))
            } else {
                literal_fields_from(contents, end + 1, fields.push(field))
            },
        }
    }
}

/// The value that a literal gives to the field `name`: that of the first
/// field of that name at or after `from`.
pub open spec fn value_from(fields: Seq<FieldValueView>, name: Seq<char>, from: int) -> Option<
    Seq<TokenTree>,
>
    decreases fields.len() - from,
{
    if from < 0 || from >= fields.len() {
        None
    } else if fields[from].name == name {
        Some(fields[from].value)
    } else {
        value_from(fields, name, from + 1)
    }
}

/// The constructor arguments for the first `count` declared fields: their
/// values in declaration order, separated by commas. `None` where the
/// literal leaves one of them out.
pub open spec fn arguments(
    declared: Seq<Seq<char>>,
    fields: Seq<FieldValueView>,
    count: nat,
) -> Option<Seq<TokenTree>>
    decreases count,
{
    if count == 0 || count > declared.len() {
        Some(seq![])
    } else {
        match arguments(declared, fields, (count - 1) as nat) {
            None => None,
            Some(done) => match value_from(fields, declared[count - 1], 0) {
                None => None,
                Some(value) => Some(
                    if count == 1 {
                        value
                    } else {
                        done + seq![punct(',')] + value
                    },
                ),
            },
        }
    }
}

/// The constructor call for a literal of a struct with the given fields.
/// The literal must name as many fields as the struct declares, and each
/// declared field among them.
pub open spec fn constructor(
    name: Seq<char>,
    declared: Seq<Seq<char>>,
    contents: Seq<TokenTree>,
) -> Result<Seq<TokenTree>, UnsupportedSyntax> {
    match literal_fields_from(contents, 0, seq![]) {
        None => Err(UnsupportedSyntax::FieldMismatch),
        Some(fields) => if fields.len() != declared.len() {
            Err(UnsupportedSyntax::FieldMismatch)
        } else {
            match arguments(declared, fields, declared.len()) {
                None => Err(UnsupportedSyntax::FieldMismatch),
                Some(values) => Ok(seq![TokenTree::Ident(name), parenthesized(values)]),
            }
        },
    }
}

fn parse_part(contents: &Vec<Token>, from: usize, end: usize) -> (field: Option<FieldValue>)
    requires
        from <= end <= contents.len(),
    ensures
        match field {
            Some(found) => field_of_part(
                stream_view(contents@).subrange(from as int, end as int),
            ) == Some(found@),
            None => field_of_part(stream_view(contents@).subrange(from as int, end as int))
                is None,
        },
{
    let ghost trees = stream_view(contents@);
    let ghost part = trees.subrange(from as int, end as int);
    let len = end - from;
    if len == 0 {
        return None;
    }
    let name = match contents[from].ident_text() {
        Some(name) => name,
        None => {
            return None;
        },
    };
    if len == 1 {
        let value = duplicate_range(contents, from, end);
        return Some(FieldValue { name: name.to_owned(), value });
    }
    if len < 3 {
        return None;
    }
    if contents[from + 1].is_punct(':') && !contents[from + 2].is_punct(':') {
        let value = duplicate_range(contents, from + 2, end);
        assert(trees.subrange(from + 2, end as int) =~= part.skip(2));
        Some(FieldValue { name: name.to_owned(), value })
    } else {
        None
    }
}

fn parse_fields(contents: &Vec<Token>) -> (fields: Option<Vec<FieldValue>>)
    ensures
        match fields {
            Some(found) => literal_fields_from(stream_view(contents@), 0, seq![]) == Some(
                fields_view(found@),
            ),
            None => literal_fields_from(stream_view(contents@), 0, seq![]) is None,
        },
{
    let ghost trees = stream_view(contents@);
    let mut fields: Vec<FieldValue> = Vec::new();
    let mut from: usize = 0;
    assert(fields_view(fields@) =~= Seq::<FieldValueView>::empty());
    while from < contents.len()
        invariant
            trees == stream_view(contents@),
            literal_fields_from(trees, 0, seq![]) == literal_fields_from(
                trees,
                from as int,
                fields_view(fields@),
            ),
        decreases contents.len() - from,
    {
        let end = find_punct(contents, ',', from);
        match parse_part(contents, from, end) {
            None => {
                return None;
            },
            Some(field) => {
                assert(fields_view(fields@.push(field)) =~= fields_view(fields@).push(field@));
                fields.push(field);
            },
        }
        if end == contents.len() {
            from = end;
        } else {
            from = end + 1;
        }
    }
    Some(fields)
}

fn find_value<'a>(fields: &'a Vec<FieldValue>, name: &str) -> (value: Option<&'a Vec<Token>>)
    ensures
        match value {
            Some(found) => value_from(fields_view(fields@), name@, 0) == Some(
                stream_view(found@),
            ),
            None => value_from(fields_view(fields@), name@, 0) is None,
        },
{
    let ghost views = fields_view(fields@);
    let mut i: usize = 0;
    while i < fields.len()
        invariant
            i <= fields.len(),
            views == fields_view(fields@),
            value_from(views, name@, 0) == value_from(views, name@, i as int),
        decreases fields.len() - i,
    {
        if fields[i].name.as_str().eq(name) {
            return Some(&fields[i].value);
        }
        i = i + 1;
    }
    None
}

fn build_arguments(declared: &Vec<String>, fields: &Vec<FieldValue>) -> (values: Option<
    Vec<Token>,
>)
    ensures
        match values {
            Some(found) => arguments(
                Seq::new(declared@.len(), |i: int| declared@[i]@),
                fields_view(fields@),
                declared@.len(),
            ) == Some(stream_view(found@)),
            None => arguments(
                Seq::new(declared@.len(), |i: int| declared@[i]@),
                fields_view(fields@),
                declared@.len(),
            ) is None,
        },
{
    let ghost names = Seq::new(declared@.len(), |i: int| declared@[i]@);
    let ghost views = fields_view(fields@);
    let mut values: Vec<Token> = Vec::new();
    let mut i: usize = 0;
    while i < declared.len()
        invariant
            i <= declared.len(),
            names == Seq::new(declared@.len(), |i: int| declared@[i]@),
            views == fields_view(fields@),
            arguments(names, views, i as nat) == Some(stream_view(values@)),
        decreases declared.len() - i,
    {
        proof {
            if arguments(names, views, (i + 1) as nat) is None {
                lemma_arguments_missing(names, views, (i + 1) as nat, names.len());
            }
        }
        let value = match find_value(fields, declared[i].as_str()) {
            Some(value) => value,
            None => {
                return None;
            },
        };
        let mut copy = duplicate_stream(value);
        if i > 0 {
            let comma = Token::punct(',');
            values.push(comma);
        }
        values.append(&mut copy);
        i = i + 1;
    }
    Some(values)
}

/// A field left out among the first declared fields is left out of all.
proof fn lemma_arguments_missing(
    declared: Seq<Seq<char>>,
    fields: Seq<FieldValueView>,
    shorter: nat,
    longer: nat,
)
    requires
        shorter <= longer <= declared.len(),
        arguments(declared, fields, shorter) is None,
    ensures
        arguments(declared, fields, longer) is None,
    decreases longer,
{
    if shorter < longer {
        lemma_arguments_missing(declared, fields, shorter, (longer - 1) as nat);
    }
}

/// Rewrites the literals of the structs that it knows.
pub struct StructLiterals {
    /// The structs of the module; the first of a name counts.
    pub structs: Vec<StructFields>,
}

impl StructLiterals {
    fn find_struct(&self, name: &str) -> (found: Option<&StructFields>)
        ensures
            match found {
                Some(fields) => declared_fields_from(structs_view(self.structs@), name@, 0)
                    == Some(fields@.fields),
                None => declared_fields_from(structs_view(self.structs@), name@, 0) is None,
            },
    {
        let ghost views = structs_view(self.structs@);
        let mut i: usize = 0;
        while i < self.structs.len()
            invariant
                i <= self.structs.len(),
                views == structs_view(self.structs@),
                declared_fields_from(views, name@, 0) == declared_fields_from(
                    views,
                    name@,
                    i as int,
                ),
            decreases self.structs.len() - i,
        {
            if self.structs[i].name.as_str().eq(name) {
                return Some(&self.structs[i]);
            }
            i = i + 1;
        }
        None
    }
}

impl View for StructLiterals {
    type V = Seq<StructFieldsView>;

    open spec fn view(&self) -> Seq<StructFieldsView> {
        structs_view(self.structs@)
    }
}

impl Rule for StructLiterals {
    open spec fn step(
        rule: Seq<StructFieldsView>,
        output: Seq<TokenTree>,
        tokens: Seq<TokenTree>,
        at: int,
    ) -> Option<
        Result<Step, UnsupportedSyntax>,
    > {
        if 0 <= at && at + 1 < tokens.len() && !names_a_type(output) {
            match (tokens[at], tokens[at + 1]) {
                (
                    TokenTree::Ident(name),
                    TokenTree::Group(Delimiter::Brace, contents),
                ) => match declared_fields_from(rule, name, 0) {
                    None => None,
                    Some(declared) => match constructor(name, declared, contents) {
                        Err(error) => Some(Err(error)),
                        Ok(call) => Some(Ok(Step { output: output + call, next: at + 2 })),
                    },
                },
                _ => None,
            }
        } else {
            None
        }
    }

    fn apply(&self, output: &mut Vec<Token>, tokens: &Vec<Token>, at: usize) -> (result: Option<
        Result<usize, UnsupportedSyntax>,
    >) {
        let ghost before = stream_view(output@);
        if tokens.len() - at < 2 {
            return None;
        }
        let written = output.len();
        if written >= 1 {
            if output[written - 1].is_ident("struct") {
                return None;
            }
            if written >= 2 {
                let arrow = match &output[written - 2] {
                    Token::Punct(c, joint) => *c == '-' && *joint,
                    _ => false,
                };
                if arrow && output[written - 1].is_punct('>') {
                    return None;
                }
            }
        }
        let name = match tokens[at].ident_text() {
            Some(name) => name,
            None => {
                return None;
            },
        };
        let contents = match &tokens[at + 1] {
            Token::Group(Delimiter::Brace, contents) => contents,
            _ => {
                return None;
            },
        };
        let declared = match self.find_struct(name) {
            Some(declared) => declared,
            None => {
                return None;
            },
        };
        let fields = match parse_fields(contents) {
            Some(fields) => fields,
            None => {
                return Some(Err(UnsupportedSyntax::FieldMismatch));
            },
        };
        if fields.len() != declared.fields.len() {
            return Some(Err(UnsupportedSyntax::FieldMismatch));
        }
        let values = match build_arguments(&declared.fields, &fields) {
            Some(values) => values,
            None => {
                return Some(Err(UnsupportedSyntax::FieldMismatch));
            },
        };
        let first = Token::ident(name);
        let second = Token::Group(Delimiter::Parenthesis, values);
        proof {
            lemma_stream_view_push(output@, first);
            lemma_stream_view_push(output@.push(first), second);
            assert(before.push(first@).push(second@) =~= before + seq![first@, second@]);
        }
        output.push(first);
        output.push(second);
        Some(Ok(at + 2))
    }
}

} // verus!
