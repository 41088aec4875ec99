use rust_to_wgsl::components::ShaderText;
use rust_to_wgsl::custom_type::CustomTypeKind;
use rust_to_wgsl::declarations::{collect_custom_types, collect_structs};
use rust_to_wgsl::error::UnsupportedSyntax;
use rust_to_wgsl::lexer::{lex, render};
use rust_to_wgsl::module_parser::{read_items, Item, ItemKind};
use rust_to_wgsl::shader_module::{parse_shader_module, shader_module};
use rust_to_wgsl::syntax::parse_module;

fn spaced(text: &str) -> String {
    render(&lex(text).unwrap())
}

fn error_of(source: &str) -> UnsupportedSyntax {
    shader_module(source).err().unwrap()
}

/// The items of a module with the given body.
fn items_of(body: &str) -> Vec<Item> {
    let module = parse_module(&format!("mod m {{ {} }}", body)).unwrap();
    read_items(&module.items).unwrap()
}

#[test]
fn items_are_split_in_declaration_order() {
    let items = items_of(
        "use a::b; const N: u32 = 1; #[wgsl_config] pub struct S { a: f32 }
         /// documented
         pub(crate) type T = f32; fn f(x: u32) -> u32 { return x; } fn main() {}",
    );
    let kinds: Vec<ItemKind> = items.iter().map(|item| item.kind).collect();
    assert_eq!(
        kinds,
        vec![
            ItemKind::Use,
            ItemKind::Const,
            ItemKind::Struct,
            ItemKind::TypeAlias,
            ItemKind::Function,
            ItemKind::Function
        ]
    );
    let names: Vec<&str> = items.iter().map(|item| item.name.as_str()).collect();
    assert_eq!(names, vec!["", "N", "S", "T", "f", "main"]);
    assert_eq!(render(&items[0].tokens), spaced("use a::b;"));
    assert_eq!(render(&items[2].tokens), spaced("#[wgsl_config] pub struct S { a: f32 }"));
    assert_eq!(items[2].keyword_at, 3);
    assert_eq!(items[2].attributes.len(), 1);
    assert_eq!(render(&items[2].attributes[0].tokens), "wgsl_config");
    assert_eq!(items[3].attributes.len(), 1);
    assert_eq!(items[3].keyword_at, 4);
    assert_eq!(render(&items[4].tokens), spaced("fn f(x: u32) -> u32 { return x; }"));
    assert_eq!(items[5].keyword_at, 0);
}

#[test]
fn declared_types_are_classified_in_declaration_order() {
    let items = items_of(
        "#[wgsl_output_vec] struct Hit { a: u32 } fn f() {} type Plain = f32;
         #[wgsl_input_array] type Radius = f32; const C: u32 = 1; #[wgsl_config] struct Conf { t: f32 }",
    );
    let custom_types = collect_custom_types(&items);
    let found: Vec<(&str, CustomTypeKind)> = custom_types
        .iter()
        .map(|custom_type| (custom_type.name.name(), custom_type.kind))
        .collect();
    assert_eq!(
        found,
        vec![
            ("Hit", CustomTypeKind::OutputVec),
            ("Plain", CustomTypeKind::GpuOnlyHelperType),
            ("Radius", CustomTypeKind::InputArray),
            ("Conf", CustomTypeKind::Uniform),
        ]
    );
    assert_eq!(
        render(&custom_types[0].rust_code),
        spaced("#[wgsl_output_vec] struct Hit { a: u32 }")
    );
}

#[test]
fn struct_fields_are_read_without_attributes_and_visibility() {
    let items = items_of(
        "struct A { pub x: f32, #[doc = \"y\"] y: [f32; 2], pub(crate) z: Vec2F32, }
         type B = f32; struct Empty {}",
    );
    let structs = collect_structs(&items).unwrap();
    assert_eq!(structs.len(), 2);
    assert_eq!(structs[0].name, "A");
    assert_eq!(structs[0].fields, vec!["x", "y", "z"]);
    assert_eq!(structs[1].name, "Empty");
    assert!(structs[1].fields.is_empty());
}

#[test]
fn what_is_not_one_module_is_refused() {
    for source in [
        "",
        "fn main() {}",
        "mod a;",
        "mod a {} mod b {}",
        "mod {}",
        "mod a ()",
        "pub struct a {}",
        "mod a {} ;",
    ] {
        assert_eq!(error_of(source), UnsupportedSyntax::NotAModule, "{}", source);
    }
    assert!(shader_module("mod a {}").is_ok());
    assert!(shader_module("#[wgsl_shader_module] pub(crate) mod a {}").is_ok());
}

#[test]
fn a_text_must_be_a_module_of_the_source_language() {
    for source in [
        "",
        "fn main() {}",
        "mod a {} mod b {}",
        "mod a { fn f() { let = ; } }",
        "mod a { fn f() { 1 + } }",
        "mod a { struct S { a } }",
        "mod a { const N: u32 = as u32; }",
        "mod a { 3 }",
    ] {
        assert_eq!(shader_module(source).err(), Some(UnsupportedSyntax::NotAModule), "{}", source);
    }
    // A module without a body is a module of the language, but not one to compile.
    assert_eq!(shader_module("mod a;").err(), Some(UnsupportedSyntax::NotAModule));
    assert_eq!(shader_module("mod a { fn f( }").err(), Some(UnsupportedSyntax::NotTokens));
    assert_eq!(
        shader_module("mod a { enum E { A } }").err(),
        Some(UnsupportedSyntax::UnsupportedItem)
    );
}

#[test]
fn items_that_shaders_do_not_have_are_refused() {
    for source in [
        "mod m { enum E { A } }",
        "mod m { impl S {} }",
        "mod m { trait T {} }",
        "mod m { static X: u32 = 1; }",
        "mod m { struct Unit; }",
        "mod m { struct Pair(f32, f32); }",
        "mod m { struct G<T> { t: T } }",
        "mod m { mod inner {} }",
        "mod m { fn f(); }",
        "mod m { macro_rules! m { () => {} } }",
    ] {
        assert_eq!(error_of(source), UnsupportedSyntax::UnsupportedItem, "{}", source);
    }
}

#[test]
fn struct_bodies_out_of_shape_are_refused() {
    for source in [
        "mod m { struct S { a: Pair<f32, u32> } }",
        "mod m { fn main(p: WgslIterationPosition) {} struct S { a: f32, b: Map<u32, Pair<u32, f32>> } }",
    ] {
        assert_eq!(error_of(source), UnsupportedSyntax::MalformedItem, "{}", source);
    }
}

#[test]
fn the_entry_point_takes_one_iteration_position() {
    for source in [
        "mod m { fn main() {} }",
        "mod m { fn main(a: u32) {} }",
        "mod m { fn main(p: WgslIterationPosition, q: WgslIterationPosition) {} }",
        "mod m { fn main(mut p: WgslIterationPosition) {} }",
        "mod m { fn main(p: &WgslIterationPosition) {} }",
    ] {
        assert_eq!(error_of(source), UnsupportedSyntax::MalformedEntryPoint, "{}", source);
    }
    let module = shader_module("mod m { fn main(position: WgslIterationPosition,) {} }").unwrap();
    assert_eq!(
        module.sections.main_function.unwrap().code.wgsl_code,
        "fn main(@builtin(global_invocation_id) position: vec3<u32>) {}"
    );
    // Only the function called `main` is the entry point.
    let module = shader_module("mod m { fn helper(p: WgslIterationPosition) { p.x = 1; } }").unwrap();
    assert!(module.sections.main_function.is_none());
    assert_eq!(
        module.sections.helper_functions[0].code.wgsl_code,
        "fn helper(p : vec3 < u32 >) { p.x = 1; }"
    );
}

#[test]
fn the_entry_point_must_not_assign_to_its_position() {
    assert_eq!(
        error_of("mod m { fn main(p: WgslIterationPosition) { p.x = 1; } }"),
        UnsupportedSyntax::AssignmentToIterationPosition
    );
    assert_eq!(
        error_of("mod m { fn main(p: WgslIterationPosition) { if p.x == 0 { p = q; } } }"),
        UnsupportedSyntax::AssignmentToIterationPosition
    );
    assert!(shader_module("mod m { fn main(p: WgslIterationPosition) { let a = p.x; } }").is_ok());
}

#[test]
fn errors_inside_items_are_passed_on() {
    assert_eq!(
        error_of("mod m { fn f() { let a = WgslVecInput::vec_len::<Missing>(); } }"),
        UnsupportedSyntax::UnknownType
    );
    assert_eq!(
        error_of("mod m { struct S { a: f32 } fn f() { let a = WgslVecInput::vec_len::<S>(); } }"),
        UnsupportedSyntax::WrongRole
    );
    assert_eq!(
        error_of("mod m { #[wgsl_config] struct S { a: f32 } fn f() { WgslConfigInput::set::<S>(); } }"),
        UnsupportedSyntax::UnknownHelperMethod
    );
    assert_eq!(
        error_of("mod m { #[wgsl_config] struct S { a: f32 } fn f() { WgslConfigInput::get::<S>(1); } }"),
        UnsupportedSyntax::WrongArguments
    );
    assert_eq!(
        error_of("mod m { struct S { a: f32 } fn f() { let s = S { b: 1.0 }; } }"),
        UnsupportedSyntax::FieldMismatch
    );
    assert_eq!(
        error_of("mod m { const N: f32 = { 1 } as f32; }"),
        UnsupportedSyntax::MalformedCast
    );
    assert_eq!(
        error_of("mod m { fn f() { for i in 0..3 {} } }"),
        UnsupportedSyntax::UnsupportedExpression
    );
    assert_eq!(
        error_of("mod m { const N: u32 = max!(1, 2); }"),
        UnsupportedSyntax::UnsupportedExpression
    );
    assert_eq!(shader_module("mod m { fn f( }").err(), Some(UnsupportedSyntax::NotTokens));
}

#[test]
fn types_declared_later_are_known_to_earlier_functions() {
    let module = shader_module(
        "mod m {
            fn main(p: WgslIterationPosition) {
                WgslOutput::set::<Cell>(p.x, Cell { b: 2 as f32, a: WgslConfigInput::get::<Conf>().scale });
            }
            #[wgsl_output_array] struct Cell { a: f32, b: f32 }
            #[wgsl_config] struct Conf { scale: f32 }
        }",
    )
    .unwrap();
    assert_eq!(
        module.sections.main_function.unwrap().code.wgsl_code,
        "fn main(@builtin(global_invocation_id) p: vec3<u32>)\n{ cell_output_array [p.x] = Cell(conf.scale, f32(2)); }"
    );
    assert_eq!(module.binding_numbers_by_variable_name.get("conf"), Some(1));
    assert_eq!(module.binding_numbers_by_variable_name.get("cell_output_array"), Some(2));
    assert_eq!(module.binding_numbers_by_variable_name.get("cell_counter"), None);
}

#[test]
fn functions_may_return_structs() {
    let module = shader_module(
        "mod m {
            struct Pair { a: f32, b: f32 }
            fn swap(p: Pair) -> Pair { return Pair { b: p.a, a: p.b }; }
            fn first(p: Pair) -> f32 { let q = swap(p); return q.b as f32; }
        }",
    )
    .unwrap();
    assert_eq!(
        module.sections.helper_functions[0].code.wgsl_code,
        "fn swap(p : Pair) -> Pair { return Pair(p.b, p.a); }"
    );
    assert_eq!(
        module.sections.helper_functions[1].code.wgsl_code,
        "fn first(p : Pair) -> f32 { let q = swap(p); return f32(q.b); }"
    );
}

#[test]
fn constants_keep_their_parts() {
    let module = shader_module(
        "mod m { pub const ORIGIN: Vec2F32 = Vec2F32::new(0.0, 1 as f32); const N: [u32; 2] = [1, 2]; }",
    )
    .unwrap();
    let origin = &module.sections.static_consts[0];
    assert_eq!(origin.name, "ORIGIN");
    assert_eq!(origin.var_type, "vec2 < f32 >");
    assert_eq!(origin.value, "vec2<f32>(0.0, f32(1))");
    assert_eq!(
        origin.code.rust_code,
        "pub const ORIGIN : Vec2F32 = Vec2F32 :: new(0.0, 1 as f32);"
    );
    assert_eq!(origin.code.wgsl_code, "const ORIGIN : vec2 < f32 > =vec2<f32>(0.0, f32(1));");
    let n = &module.sections.static_consts[1];
    assert_eq!(n.var_type, "array < u32, 2 >");
    assert_eq!(n.value, "[1, 2]");
}

#[test]
fn the_text_of_a_module_lists_the_categories_in_fixed_order() {
    let module = shader_module(
        "pub mod shader {
            fn main(p: WgslIterationPosition) {}
            fn helper() {}
            #[wgsl_output_vec] struct Out { a: u32 }
            #[wgsl_output_array] struct Grid { a: u32 }
            #[wgsl_input_array] type In = f32;
            #[wgsl_config] struct Conf { a: u32 }
            struct Helper { a: u32 }
            const N: u32 = 1;
        }",
    )
    .unwrap();
    assert_eq!(
        module.to_string(),
        "const N : u32 = 1;\n\
         struct Helper { a : u32 }\n\
         struct Conf { a : u32 }\n\
         alias In  = f32;\n\
         struct Out { a : u32 }\n\
         alias out_counter : atomic<u32>;\n\
         struct Grid { a : u32 }\n\
         fn helper() {}\n\
         fn main(@builtin(global_invocation_id) p: vec3<u32>) {}\n"
    );
    // Compiling the same source again gives the same bytes.
    let again = parse_shader_module(&parse_module(
        "pub mod shader {
            fn main(p: WgslIterationPosition) {}
            fn helper() {}
            #[wgsl_output_vec] struct Out { a: u32 }
            #[wgsl_output_array] struct Grid { a: u32 }
            #[wgsl_input_array] type In = f32;
            #[wgsl_config] struct Conf { a: u32 }
            struct Helper { a: u32 }
            const N: u32 = 1;
        }",
    )
    .unwrap())
    .unwrap();
    assert_eq!(again.to_string(), module.to_string());
}

#[test]
fn arrays_get_their_lengths_in_the_sized_sections() {
    let module = shader_module(
        "pub mod shader {
            const N: u32 = 7;
            struct Helper { a: u32 }
            #[wgsl_config] struct Conf { a: u32 }
            #[wgsl_input_array] type Position = [f32; 2];
            #[wgsl_output_vec] struct Hit { a: u32 }
            #[wgsl_output_array] struct Grid { a: u32 }
            fn helper() {}
            fn main(p: WgslIterationPosition) {}
        }",
    )
    .unwrap();
    assert!(module.user_portion(&vec![], &vec![1, 2]).is_none());
    assert!(module.user_portion(&vec![1], &vec![1]).is_none());
    assert!(module.user_portion(&vec![1, 2], &vec![1, 2]).is_none());
    let portion = module.user_portion(&vec![5], &vec![10, 20]).unwrap();
    assert_eq!(portion.module_visibility, "pub");
    assert_eq!(portion.module_ident, "shader");
    assert_eq!(portion.static_consts[0].to_string(), "const N: u32 = 7;\n");
    let helper_names: Vec<&str> = portion.helper_types.iter().map(|t| t.name.as_str()).collect();
    assert_eq!(helper_names, vec!["Helper", "Position", "Hit", "Grid"]);
    assert_eq!(portion.uniforms.len(), 1);
    assert_eq!(
        portion.input_arrays[0].to_string(),
        "alias position_input_array = array<Position,5>;\n"
    );
    assert_eq!(
        portion.output_arrays[0].to_string(),
        "alias hit_output_array = array<Hit,10>;\nalias hit_counter : atomic<u32>;\n"
    );
    assert_eq!(
        portion.output_arrays[1].to_string(),
        "alias grid_output_array = array<Grid,20>;\n"
    );
    assert_eq!(portion.helper_functions[0].name, "helper");
    assert_eq!(portion.main_function.as_ref().unwrap().name, "main");
}
