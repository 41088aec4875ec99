//! Compiling a source module into its record.

use crate::bindings::{binding_table, bound_variables, slots_fit, BindingTable, FIRST_BINDING};
use crate::custom_type::{custom_types_view, kind_of, CustomType, CustomTypeKind, CustomTypeView};
use crate::custom_type_idents::{counter_name, CustomTypeIdents};
use crate::declarations::{
    collect_custom_types, collect_structs, declared_structs, declared_type, declared_types,
};
use crate::error::UnsupportedSyntax;
use crate::lexer::{lex, lexed};
use crate::printer::{print, printed_text};
use crate::module_parser::{items_read, items_view, read_items, Item, ItemKind, ItemView};
use crate::record::{
    views, CodeView, ConstCode, ConstCodeView, NamedCode, NamedCodeView, OutputArrayCode,
    OutputArrayView, Sections, SectionsView, ShaderModule, ShaderModuleView,
    WgslShaderModuleSectionCode,
};
use crate::syntax::{module_read, parse_module, ParsedModule, ParsedModuleView};
use crate::to_wgsl::struct_literals::{StructFieldsView, StructLiterals};
use crate::token::{
    duplicate_range, duplicate_stream, find_punct, lemma_stream_view_add, punct_from, TokenTree,
};
use crate::transpile::{
    const_to_wgsl, const_wgsl, function_source, function_to_source, function_to_wgsl, function_wgsl,
    wgsl_type_of,
};
use vstd::prelude::*;

verus! {

/// No pieces at all.
pub open spec fn no_sections() -> SectionsView {
    SectionsView {
        static_consts: seq![],
        helper_types: seq![],
        uniforms: seq![],
        input_arrays: seq![],
        output_arrays: seq![],
        helper_functions: seq![],
        main_function: None,
    }
}

/// A declared type put into the category of its role.
pub open spec fn with_type(sections: SectionsView, kind: CustomTypeKind, entry: NamedCodeView) -> SectionsView {
    match kind {
        CustomTypeKind::Uniform => SectionsView {
            uniforms: sections.uniforms.push(entry),
            ..sections
        },
        CustomTypeKind::InputArray => SectionsView {
            input_arrays: sections.input_arrays.push(entry),
            ..sections
        },
        CustomTypeKind::OutputArray => SectionsView {
            output_arrays: sections.output_arrays.push(
                OutputArrayView { item_type: entry, atomic_counter_name: None },
            ),
            ..sections
        },
        CustomTypeKind::OutputVec => SectionsView {
            output_arrays: sections.output_arrays.push(
                OutputArrayView {
                    item_type: entry,
                    atomic_counter_name: Some(counter_name(entry.name)),
                },
            ),
            ..sections
        },
        _ => SectionsView { helper_types: sections.helper_types.push(entry), ..sections },
    }
}

/// Where the equals sign of a constant stands: the first one behind its
/// name and colon.
pub open spec fn const_equals(wgsl: Seq<TokenTree>) -> int {
    punct_from(wgsl, '=', 3)
}

/// The tokens of the type of a constant `const name : type = value ;`.
pub open spec fn const_type(wgsl: Seq<TokenTree>) -> Seq<TokenTree> {
    if 3 <= const_equals(wgsl) <= wgsl.len() {
        wgsl.subrange(3, const_equals(wgsl))
    } else {
        seq![]
    }
}

/// The tokens of the value of a constant `const name : type = value ;`.
pub open spec fn const_value(wgsl: Seq<TokenTree>) -> Seq<TokenTree> {
    if 3 <= const_equals(wgsl) && const_equals(wgsl) + 2 <= wgsl.len() {
        wgsl.subrange(const_equals(wgsl) + 1, wgsl.len() - 1)
    } else {
        seq![]
    }
}

/// The text of an item as it was written.
pub open spec fn item_text(item: ItemView) -> Seq<char> {
    printed_text(item.tokens)
}

/// What stands in front of the keyword of an item.
pub open spec fn item_prefix(item: ItemView) -> Seq<TokenTree> {
    if 0 <= item.keyword_at <= item.tokens.len() {
        item.tokens.take(item.keyword_at)
    } else {
        seq![]
    }
}

/// The pieces with one more item compiled and put in its place: a `use`
/// leaves nothing, a constant goes to the constants, a type to the
/// category of its role, the function `main` becomes the entry point and
/// every other function a helper function.
#[verifier::opaque]
pub open spec fn with_item(
    sections: SectionsView,
    item: ItemView,
    types: Seq<CustomTypeView>,
    structs: Seq<StructFieldsView>,
) -> Result<SectionsView, UnsupportedSyntax> {
    match item.kind {
        ItemKind::Use => Ok(sections),
        ItemKind::Const => match const_wgsl(item, structs) {
            Err(error) => Err(error),
            Ok(wgsl) => Ok(
                SectionsView {
                    static_consts: sections.static_consts.push(
                        ConstCodeView {
                            name: item.name,
                            var_type: printed_text(const_type(wgsl)),
                            value: printed_text(const_value(wgsl)),
                            code: CodeView {
                                rust_code: item_text(item),
                                wgsl_code: printed_text(wgsl),
                            },
                        },
                    ),
                    ..sections
                },
            ),
        },
        ItemKind::Struct | ItemKind::TypeAlias => match wgsl_type_of(declared_type(item)) {
            Err(error) => Err(error),
            Ok(entry) => Ok(with_type(sections, kind_of(item.attributes), entry)),
        },
        ItemKind::Function => match function_source(item, types) {
            Err(error) => Err(error),
            Ok(source) => match function_wgsl(item.name, source, structs) {
                Err(error) => Err(error),
                Ok(wgsl) => {
                    let entry = NamedCodeView {
                        name: item.name,
                        code: CodeView {
                            rust_code: printed_text(item_prefix(item) + source),
                            wgsl_code: wgsl,
                        },
                    };
                    if item.name == "main"@ {
                        Ok(SectionsView { main_function: Some(entry), ..sections })
                    } else {
                        Ok(
                            SectionsView {
                                helper_functions: sections.helper_functions.push(entry),
                                ..sections
                            },
                        )
                    }
                },
            },
        },
    }
}

/// The pieces of the first `count` items, or the error of the first item
/// among them that cannot be compiled.
pub open spec fn compiled_sections(
    items: Seq<ItemView>,
    types: Seq<CustomTypeView>,
    structs: Seq<StructFieldsView>,
    count: nat,
) -> Result<SectionsView, UnsupportedSyntax>
    decreases count,
{
    if count == 0 || count > items.len() {
        Ok(no_sections())
    } else {
        match compiled_sections(items, types, structs, (count - 1) as nat) {
            Err(error) => Err(error),
            Ok(sections) => with_item(sections, items[count - 1], types, structs),
        }
    }
}

/// The record of a parsed module. Compilation fails with the first of:
/// an item is of a kind that shader modules do not hold; a struct body is
/// out of shape; there are more buffers than
/// slot numbers; an item, in declaration order, cannot be compiled.
pub open spec fn compiled(module: ParsedModuleView) -> Result<ShaderModuleView, UnsupportedSyntax> {
    match items_read(module.items, module.items.len()) {
        Err(error) => Err(error),
        Ok(items) => {
            let types = declared_types(items, items.len());
            match declared_structs(items, items.len()) {
                Err(error) => Err(error),
                Ok(structs) => if !slots_fit(bound_variables(types).len(), FIRST_BINDING as int) {
                    Err(UnsupportedSyntax::TooManyBindings)
                } else {
                    match compiled_sections(items, types, structs, items.len()) {
                        Err(error) => Err(error),
                        Ok(sections) => Ok(
                            ShaderModuleView {
                                module_visibility: printed_text(module.visibility),
                                module_ident: module.name,
                                sections,
                                binding_numbers_by_variable_name: binding_table(types),
                            },
                        ),
                    }
                },
            }
        },
    }
}

/// Whether an executable result is the one that a specification gives.
pub open spec fn module_is(
    result: Result<ShaderModule, UnsupportedSyntax>,
    expected: Result<ShaderModuleView, UnsupportedSyntax>,
) -> bool {
    match result {
        Ok(module) => expected == Ok::<ShaderModuleView, UnsupportedSyntax>(module@),
        Err(error) => expected == Err::<ShaderModuleView, UnsupportedSyntax>(error),
    }
}

fn add_type(sections: &mut Sections, kind: CustomTypeKind, entry: NamedCode)
    ensures
        final(sections)@ == with_type(old(sections)@, kind, entry@),
{
    match kind {
        CustomTypeKind::Uniform => {
            sections.uniforms.push(entry);
            assert(views(sections.uniforms@) =~= views(old(sections).uniforms@).push(entry@));
        },
        CustomTypeKind::InputArray => {
            sections.input_arrays.push(entry);
            assert(views(sections.input_arrays@) =~= views(old(sections).input_arrays@).push(
                entry@,
            ));
        },
        CustomTypeKind::OutputArray => {
            let array = OutputArrayCode { item_type: entry, atomic_counter_name: None };
            sections.output_arrays.push(array);
            assert(views(sections.output_arrays@) =~= views(old(sections).output_arrays@).push(
                array@,
            ));
        },
        CustomTypeKind::OutputVec => {
            let counter = CustomTypeIdents::new(entry.name.as_str()).counter();
            let array = OutputArrayCode { item_type: entry, atomic_counter_name: Some(counter) };
            sections.output_arrays.push(array);
            assert(views(sections.output_arrays@) =~= views(old(sections).output_arrays@).push(
                array@,
            ));
        },
        _ => {
            sections.helper_types.push(entry);
            assert(views(sections.helper_types@) =~= views(old(sections).helper_types@).push(
                entry@,
            ));
        },
    }
}

fn add_item(
    sections: &mut Sections,
    item: &Item,
    custom_types: &Vec<CustomType>,
    structs: &StructLiterals,
) -> (result: Result<(), UnsupportedSyntax>)
    ensures
        match result {
            Ok(_) => with_item(old(sections)@, item@, custom_types_view(custom_types@), structs@)
                == Ok::<SectionsView, UnsupportedSyntax>(final(sections)@),
            Err(error) => with_item(
                old(sections)@,
                item@,
                custom_types_view(custom_types@),
                structs@,
            ) == Err::<SectionsView, UnsupportedSyntax>(error),
        },
{
    reveal(with_item);
    match item.kind {
        ItemKind::Use => Ok(()),
        ItemKind::Const => {
            let wgsl = match const_to_wgsl(item, structs) {
                Ok(wgsl) => wgsl,
                Err(error) => {
                    return Err(error);
                },
            };
            let equals = find_punct(&wgsl, '=', 3);
            let var_type = if 3 <= equals {
                duplicate_range(&wgsl, 3, equals)
            } else {
                Vec::new()
            };
            let value = if 3 <= equals && wgsl.len() - equals >= 2 {
                duplicate_range(&wgsl, equals + 1, wgsl.len() - 1)
            } else {
                Vec::new()
            };
            let code = ConstCode {
                name: item.name.clone(),
                var_type: print(&var_type),
                value: print(&value),
                code: WgslShaderModuleSectionCode {
                    rust_code: print(&item.tokens),
                    wgsl_code: print(&wgsl),
                },
            };
            sections.static_consts.push(code);
            assert(views(sections.static_consts@) =~= views(old(sections).static_consts@).push(
                code@,
            ));
            Ok(())
        },
        ItemKind::Struct | ItemKind::TypeAlias => {
            let kind = CustomTypeKind::from(&item.attributes);
            let custom_type = CustomType::new(
                item.name.as_str(),
                kind,
                duplicate_stream(&item.tokens),
            );
            let entry = match custom_type.into_wgsl_type() {
                Ok(entry) => entry,
                Err(error) => {
                    return Err(error);
                },
            };
            add_type(sections, kind, entry);
            Ok(())
        },
        ItemKind::Function => {
            let mut source = match function_to_source(item, custom_types) {
                Ok(source) => source,
                Err(error) => {
                    return Err(error);
                },
            };
            let wgsl = match function_to_wgsl(item.name.as_str(), &source, structs) {
                Ok(wgsl) => wgsl,
                Err(error) => {
                    return Err(error);
                },
            };
            let mut written = if item.keyword_at <= item.tokens.len() {
                duplicate_range(&item.tokens, 0, item.keyword_at)
            } else {
                Vec::new()
            };
            proof {
                lemma_stream_view_add(written@, source@);
            }
            written.append(&mut source);
            let entry = NamedCode {
                name: item.name.clone(),
                code: WgslShaderModuleSectionCode {
                    rust_code: print(&written),
                    wgsl_code: wgsl,
                },
            };
            if item.name.as_str().eq("main") {
                sections.main_function = Some(entry);
            } else {
                sections.helper_functions.push(entry);
                assert(views(sections.helper_functions@) =~= views(
                    old(sections).helper_functions@,
                ).push(entry@));
            }
            Ok(())
        },
    }
}

/// Compiles the items of a module, in declaration order.
pub fn compile_items(
    items: &Vec<Item>,
    custom_types: &Vec<CustomType>,
    structs: &StructLiterals,
) -> (result: Result<Sections, UnsupportedSyntax>)
    ensures
        match result {
            Ok(sections) => compiled_sections(
                items_view(items@),
                custom_types_view(custom_types@),
                structs@,
                items@.len(),
            ) == Ok::<SectionsView, UnsupportedSyntax>(sections@),
            Err(error) => compiled_sections(
                items_view(items@),
                custom_types_view(custom_types@),
                structs@,
                items@.len(),
            ) == Err::<SectionsView, UnsupportedSyntax>(error),
        },
{
    let ghost views_of_items = items_view(items@);
    let ghost types = custom_types_view(custom_types@);
    let mut sections = Sections {
        static_consts: Vec::new(),
        helper_types: Vec::new(),
        uniforms: Vec::new(),
        input_arrays: Vec::new(),
        output_arrays: Vec::new(),
        helper_functions: Vec::new(),
        main_function: None,
    };
    assert(sections@ == no_sections()) by {
        assert(views(sections.static_consts@) =~= Seq::<ConstCodeView>::empty());
        assert(views(sections.output_arrays@) =~= Seq::<OutputArrayView>::empty());
        assert(views(sections.helper_functions@) =~= Seq::<NamedCodeView>::empty());
    }
    let mut i: usize = 0;
    while i < items.len()
        invariant
            i <= items.len(),
            views_of_items == items_view(items@),
            types == custom_types_view(custom_types@),
            compiled_sections(views_of_items, types, structs@, i as nat) == Ok::<
                SectionsView,
                UnsupportedSyntax,
            >(sections@),
        decreases items.len() - i,
    {
        proof {
            if compiled_sections(views_of_items, types, structs@, (i + 1) as nat) is Err {
                lemma_sections_error(
                    views_of_items,
                    types,
                    structs@,
                    (i + 1) as nat,
                    views_of_items.len(),
                );
            }
        }
        match add_item(&mut sections, &items[i], custom_types, structs) {
            Ok(_) => {},
            Err(error) => {
                return Err(error);
            },
        }
        i = i + 1;
    }
    Ok(sections)
}

/// An error among the first items is the error of the whole module.
proof fn lemma_sections_error(
    items: Seq<ItemView>,
    types: Seq<CustomTypeView>,
    structs: Seq<StructFieldsView>,
    shorter: nat,
    longer: nat,
)
    requires
        shorter <= longer <= items.len(),
        compiled_sections(items, types, structs, shorter) is Err,
    ensures
        compiled_sections(items, types, structs, longer) == compiled_sections(
            items,
            types,
            structs,
            shorter,
        ),
    decreases longer,
{
    if shorter < longer {
        lemma_sections_error(items, types, structs, shorter, (longer - 1) as nat);
    }
}

/// Compiles one parsed source module into its record.
pub fn parse_shader_module(module: &ParsedModule) -> (result: Result<
    ShaderModule,
    UnsupportedSyntax,
>)
    ensures
        module_is(result, compiled(module@)),
{
    let items = match read_items(&module.items) {
        Ok(items) => items,
        Err(error) => {
            return Err(error);
        },
    };
    let custom_types = collect_custom_types(&items);
    let structs = match collect_structs(&items) {
        Ok(structs) => StructLiterals { structs },
        Err(error) => {
            return Err(error);
        },
    };
    let bindings = match BindingTable::allocate(&custom_types) {
        Ok(bindings) => bindings,
        Err(error) => {
            return Err(error);
        },
    };
    let sections = match compile_items(&items, &custom_types, &structs) {
        Ok(sections) => sections,
        Err(error) => {
            return Err(error);
        },
    };
    Ok(
        ShaderModule {
            module_visibility: print(&module.visibility),
            module_ident: module.name.clone(),
            sections,
            binding_numbers_by_variable_name: bindings,
        },
    )
}

/// What compiling a text gives: the text must be a sequence of tokens and
/// one module of the source language, and the module must compile.
pub open spec fn compiled_text(
    tokens: Option<Seq<TokenTree>>,
    module: Option<ParsedModuleView>,
) -> Result<ShaderModuleView, UnsupportedSyntax> {
    match (tokens, module) {
        (None, _) => Err(UnsupportedSyntax::NotTokens),
        (Some(_), None) => Err(UnsupportedSyntax::NotAModule),
        (Some(_), Some(module)) => compiled(module),
    }
}

/// Compiles the text of one source module into its record.
pub fn shader_module(source: &str) -> (result: Result<ShaderModule, UnsupportedSyntax>)
    ensures
        module_is(result, compiled_text(lexed(source@), module_read(source@))),
{
    if lex(source).is_none() {
        return Err(UnsupportedSyntax::NotTokens);
    }
    match parse_module(source) {
        Some(module) => parse_shader_module(&module),
        None => Err(UnsupportedSyntax::NotAModule),
    }
}

} // verus!
