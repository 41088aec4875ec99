use rust_to_wgsl::error::UnsupportedSyntax;
use rust_to_wgsl::lexer::{lex, render};
use rust_to_wgsl::rewrite::rewrite;
use rust_to_wgsl::to_wgsl::attributes::Annotations;
use rust_to_wgsl::to_wgsl::casts::Casts;
use rust_to_wgsl::to_wgsl::iteration_position::ReadOnly;
use rust_to_wgsl::to_wgsl::struct_literals::{StructFields, StructLiterals};
use rust_to_wgsl::to_wgsl::subset::ShaderSubset;
use rust_to_wgsl::to_wgsl::types::TypeNames;
use rust_to_wgsl::to_wgsl::variables::MutableLocals;

fn spaced(text: &str) -> String {
    render(&lex(text).unwrap())
}

fn casts(text: &str) -> Result<String, UnsupportedSyntax> {
    rewrite(&Casts, &lex(text).unwrap()).map(|tokens| render(&tokens))
}

fn types(text: &str) -> String {
    render(&rewrite(&TypeNames, &lex(text).unwrap()).unwrap())
}

fn literals(structs: &[(&str, &[&str])], text: &str) -> Result<String, UnsupportedSyntax> {
    let rule = StructLiterals {
        structs: structs
            .iter()
            .map(|(name, fields)| StructFields {
                name: name.to_string(),
                fields: fields.iter().map(|field| field.to_string()).collect(),
            })
            .collect(),
    };
    rewrite(&rule, &lex(text).unwrap()).map(|tokens| render(&tokens))
}

fn read_only(variable: &str, text: &str) -> Result<String, UnsupportedSyntax> {
    let rule = ReadOnly { variable: variable.to_string() };
    rewrite(&rule, &lex(text).unwrap()).map(|tokens| render(&tokens))
}

#[test]
fn mutable_locals_become_var() {
    let tokens = lex("let mut x = 1; let y = 2; { let mut z = x; }").unwrap();
    assert_eq!(
        render(&rewrite(&MutableLocals, &tokens).unwrap()),
        spaced("var x = 1; let y = 2; { var z = x; }")
    );
    let untouched = lex("let (mut a, b) = c; mut_x; letmut").unwrap();
    assert_eq!(
        render(&rewrite(&MutableLocals, &untouched).unwrap()),
        spaced("let (mut a, b) = c; mut_x; letmut")
    );
}

#[test]
fn attributes_and_visibility_are_dropped() {
    let tokens = lex(
        "#[derive(Clone)] pub struct S { #[doc = \"x\"] pub a: f32, pub(crate) b: u32, /// c
         c: i32 } #![inner] fn f() { #[allow(unused)] let x = 1; }",
    )
    .unwrap();
    assert_eq!(
        render(&rewrite(&Annotations, &tokens).unwrap()),
        spaced("struct S { a: f32, b: u32, c: i32 } fn f() { let x = 1; }")
    );
    let kept = lex("a # b; #").unwrap();
    assert_eq!(render(&rewrite(&Annotations, &kept).unwrap()), spaced("a # b; #"));
}

#[test]
fn vector_types_get_their_wgsl_names() {
    assert_eq!(types("Vec2F32"), spaced("vec2<f32>"));
    assert_eq!(types("Vec3U32"), spaced("vec3<u32>"));
    assert_eq!(types("Vec4I32"), spaced("vec4<i32>"));
    assert_eq!(types("Vec2F16"), spaced("vec2<f16>"));
    assert_eq!(types("Vec3Bool"), spaced("vec3<bool>"));
    assert_eq!(types("PodF16"), spaced("f16"));
    assert_eq!(types("WgslIterationPosition"), spaced("vec3<u32>"));
    assert_eq!(
        types("fn f(a: Vec2F32, b: [Vec3F32; 4]) -> Vec4U32 {}"),
        spaced("fn f(a: vec2<f32> , b: array<vec3<f32> , 4>) -> vec4<u32> {}")
    );
}

#[test]
fn names_that_only_look_like_vector_types_are_kept() {
    for name in ["Vec5F32", "Vec1F32", "Vec2F64", "Vec2", "Vec", "Vec2f32", "MyVec2F32", "f32"] {
        assert_eq!(types(name), name);
    }
}

#[test]
fn vector_constructors_lose_their_new() {
    // The constructor is one word, joined to a punctuation mark before it.
    assert_eq!(
        types("let v = Vec3F32::new(2.0, 3.0, 4.0);"),
        "let v =vec3<f32> (2.0 , 3.0 , 4.0) ;"
    );
    assert_eq!(types("f(1.0, Vec2U32::new(1, 2))"), "f (1.0 ,vec2<u32> (1 , 2))");
    assert_eq!(types("return Vec4F16::new(a)"), "return vec4<f16> (a)");
    assert_eq!(types("Vec2U32::splat(1)"), spaced("vec2<u32> ::splat(1)"));
    assert_eq!(types("PodF16::new(1)"), spaced("f16::new(1)"));
}

#[test]
fn array_types_become_wgsl_arrays() {
    assert_eq!(types("[f32; 2]"), spaced("array<f32, 2>"));
    assert_eq!(types("[[u32; 3]; N]"), spaced("array<array<u32, 3> , N>"));
    // No item type, no length, or no semicolon: not an array type.
    assert_eq!(types("a[0]"), spaced("a[0]"));
    assert_eq!(types("[; 2]"), spaced("[; 2]"));
    assert_eq!(types("[f32;]"), spaced("[f32;]"));
    assert_eq!(types("[1, 2]"), spaced("[1, 2]"));
}

#[test]
fn casts_become_conversion_calls() {
    assert_eq!(casts("let x = 1.0 as i32;").unwrap(), spaced("let x = i32(1.0);"));
    assert_eq!(casts("let y = 1 as f32;").unwrap(), spaced("let y = f32(1);"));
    assert_eq!(casts("a as u32").unwrap(), spaced("u32(a)"));
}

#[test]
fn a_cast_takes_the_nearest_operand_only() {
    assert_eq!(casts("a + b as f32").unwrap(), spaced("a + f32(b)"));
    assert_eq!(casts("a * b as f32 - c").unwrap(), spaced("a * f32(b) - c"));
    assert_eq!(casts("return x as u32;").unwrap(), spaced("return u32(x);"));
    assert_eq!(casts("a && b as bool").unwrap(), spaced("a && bool(b)"));
    assert_eq!(casts("x = y as i32").unwrap(), spaced("x = i32(y)"));
}

#[test]
fn a_cast_takes_calls_indexing_fields_and_paths_along() {
    assert_eq!(casts("f(a, b) as f32").unwrap(), spaced("f32(f(a, b))"));
    assert_eq!(casts("1 + p.x.y as f32").unwrap(), spaced("1 + f32(p.x.y)"));
    assert_eq!(casts("c - a[i][j] as u32").unwrap(), spaced("c - u32(a[i][j])"));
    assert_eq!(casts("1 + m::n::K as u32").unwrap(), spaced("1 + u32(m::n::K)"));
    assert_eq!(casts("2 * (a + b) as f32").unwrap(), spaced("2 * f32((a + b))"));
    assert_eq!(casts("1 + t.0 as f32").unwrap(), spaced("1 + f32(t.0)"));
    assert_eq!(casts("g(x).v[2] as i32").unwrap(), spaced("i32(g(x).v[2])"));
}

#[test]
fn a_cast_takes_prefix_operators_along() {
    assert_eq!(casts("a - -b as f32").unwrap(), spaced("a - f32(-b)"));
    assert_eq!(casts("-x as i32").unwrap(), spaced("i32(-x)"));
    assert_eq!(casts("a = !b as u32").unwrap(), spaced("a = u32(!b)"));
    assert_eq!(casts("a - b as f32").unwrap(), spaced("a - f32(b)"));
    assert_eq!(casts("(a) - b as f32").unwrap(), spaced("(a) - f32(b)"));
}

#[test]
fn casts_chain_and_nest() {
    assert_eq!(casts("x as i32 as f32").unwrap(), spaced("f32(i32(x))"));
    assert_eq!(casts("f(a as u32, b) as f32").unwrap(), spaced("f32(f(u32(a), b))"));
    assert_eq!(casts("{ v[i as u32] }").unwrap(), spaced("{ v[u32(i)] }"));
    assert_eq!(casts("x as a::B").unwrap(), spaced("a::B(x)"));
}

#[test]
fn a_cast_without_operand_or_type_is_refused() {
    assert_eq!(casts("as f32"), Err(UnsupportedSyntax::MalformedCast));
    assert_eq!(casts("a + as f32"), Err(UnsupportedSyntax::MalformedCast));
    assert_eq!(casts("x as"), Err(UnsupportedSyntax::MalformedCast));
    assert_eq!(casts("x as (f32)"), Err(UnsupportedSyntax::MalformedCast));
    assert_eq!(casts("x as 3"), Err(UnsupportedSyntax::MalformedCast));
    assert_eq!(casts("{ a } as f32"), Err(UnsupportedSyntax::MalformedCast));
    assert_eq!(casts("return as f32"), Err(UnsupportedSyntax::MalformedCast));
    assert_eq!(casts("f({ x as })"), Err(UnsupportedSyntax::MalformedCast));
}

#[test]
fn struct_literals_become_constructor_calls() {
    let structs: &[(&str, &[&str])] = &[("TStruct", &["x", "y"])];
    assert_eq!(
        literals(structs, "let obj = TStruct { x: 1.0, y: 2.0 };").unwrap(),
        spaced("let obj = TStruct(1.0, 2.0);")
    );
    assert_eq!(
        literals(structs, "TStruct { x: a + b, y: f(c, d), }").unwrap(),
        spaced("TStruct(a + b, f(c, d))")
    );
}

#[test]
fn constructor_arguments_follow_the_declaration_order() {
    let structs: &[(&str, &[&str])] = &[("P", &["a", "b", "c"])];
    assert_eq!(literals(structs, "P { c: 3, a: 1, b: 2 }").unwrap(), spaced("P(1, 2, 3)"));
    assert_eq!(literals(structs, "P { b, c: z, a }").unwrap(), spaced("P(a, b, z)"));
}

#[test]
fn struct_literals_nest() {
    let structs: &[(&str, &[&str])] = &[("Outer", &["inner", "n"]), ("Inner", &["v"])];
    assert_eq!(
        literals(structs, "Outer { n: 1, inner: Inner { v: 2 } }").unwrap(),
        spaced("Outer(Inner(2), 1)")
    );
    assert_eq!(
        literals(structs, "f(Inner { v: g(Inner { v: 0 }) })").unwrap(),
        spaced("f(Inner(g(Inner(0))))")
    );
}

#[test]
fn blocks_and_unknown_structs_are_kept() {
    let structs: &[(&str, &[&str])] = &[("Known", &["a"])];
    assert_eq!(
        literals(structs, "if x { y } Other { a: 1 }").unwrap(),
        spaced("if x { y } Other { a: 1 }")
    );
    let empty: &[(&str, &[&str])] = &[("Unit", &[])];
    assert_eq!(literals(empty, "Unit {}").unwrap(), spaced("Unit()"));
}

#[test]
fn return_types_and_declarations_are_no_literals() {
    let structs: &[(&str, &[&str])] = &[("S", &["a"])];
    assert_eq!(
        literals(structs, "fn make() -> S { return S { a: 1.0 }; }").unwrap(),
        spaced("fn make() -> S { return S(1.0); }")
    );
    assert_eq!(
        literals(structs, "struct S { a: f32 } let s = S { a: 2.0 };").unwrap(),
        spaced("struct S { a: f32 } let s = S(2.0);")
    );
    assert_eq!(literals(structs, "a - > S { a: 1 }").unwrap(), spaced("a - > S(1)"));
}

#[test]
fn a_literal_that_does_not_fit_its_struct_is_refused() {
    let structs: &[(&str, &[&str])] = &[("P", &["a", "b"])];
    for text in [
        "P { a: 1 }",
        "P { a: 1, b: 2, c: 3 }",
        "P { a: 1, c: 2 }",
        "P { a: 1, a: 2 }",
        "P { a: 1, , b: 2 }",
        "P { a: 1, b: }",
        "P { 1, 2 }",
        "P { a::b, b: 1 }",
        "P { a: 1, ..rest }",
    ] {
        assert_eq!(literals(structs, text), Err(UnsupportedSyntax::FieldMismatch), "{}", text);
    }
}

#[test]
fn constructs_that_shaders_do_not_have_are_refused() {
    for text in [
        "for i in 0..n { x += i; }",
        "match a { _ => 1 }",
        "let f = move |x| x;",
        "unsafe { x }",
        "f().await",
        "println!(\"{}\", x)",
        "let v = vec![1, 2];",
        "x = { assert!{ true } };",
        "let ref y = x;",
    ] {
        assert_eq!(
            rewrite(&ShaderSubset, &lex(text).unwrap()).err(),
            Some(UnsupportedSyntax::UnsupportedExpression),
            "{}",
            text
        );
    }
    for text in [
        "while a != b { if !c { break; } else { continue; } }",
        "loop { return; }",
        "let formatted = a ! = b;",
        "foreach(matcher, reference)",
    ] {
        assert_eq!(
            render(&rewrite(&ShaderSubset, &lex(text).unwrap()).unwrap()),
            spaced(text),
            "{}",
            text
        );
    }
}

#[test]
fn reading_the_iteration_position_is_allowed() {
    for text in [
        "let a = iter_pos.x;",
        "if iter_pos.x == 1 { return; }",
        "if iter_pos.y >= n || iter_pos.z <= m || iter_pos.x != 0 {}",
        "f(iter_pos); g(iter_pos.x, iter_pos.y);",
        "other.iter_pos = 1;",
        "other.iter_pos.x += 1;",
        "match a { iter_pos => 1 }",
        "let b = iter_pos.x << 2; let c = iter_pos.x >> 1;",
        "iter_position = 1; my_iter_pos.x = 2;",
    ] {
        assert_eq!(read_only("iter_pos", text).unwrap(), spaced(text), "{}", text);
    }
}

#[test]
fn assigning_to_the_iteration_position_is_refused() {
    for text in [
        "iter_pos = other;",
        "iter_pos.x = 1;",
        "iter_pos.x.y = 1;",
        "iter_pos.y += 1;",
        "iter_pos.z -= 1;",
        "iter_pos.x *= 2; ",
        "iter_pos.x /= 2;",
        "iter_pos.x %= 2;",
        "iter_pos.x ^= 2;",
        "iter_pos.x &= 2;",
        "iter_pos.x |= 2;",
        "iter_pos.x <<= 2;",
        "iter_pos.x >>= 2;",
        "iter_pos.x =-1;",
        "if a { if b { iter_pos.x = 3; } }",
        "f(iter_pos.0 = 1)",
    ] {
        assert_eq!(
            read_only("iter_pos", text),
            Err(UnsupportedSyntax::AssignmentToIterationPosition),
            "{}",
            text
        );
    }
}

#[test]
fn casts_in_longer_expressions() {
    assert_eq!(casts("x.len() as u32").unwrap(), spaced("u32(x.len())"));
    assert_eq!(casts("a < b as f32").unwrap(), spaced("a < f32(b)"));
    assert_eq!(casts("a > b as f32").unwrap(), spaced("a > f32(b)"));
    assert_eq!(casts("a == b as f32 || c").unwrap(), spaced("a == f32(b) || c"));
    assert_eq!(casts("v[i as u32] as f32 * 2.0").unwrap(), spaced("f32(v[u32(i)]) * 2.0"));
    assert_eq!(casts("(a as f32) as i32").unwrap(), spaced("i32((f32(a)))"));
    assert_eq!(casts("a as f32 + b as f32").unwrap(), spaced("f32(a) + f32(b)"));
    assert_eq!(casts("f(a)(b) as u32").unwrap(), spaced("u32(f(a)(b))"));
    assert_eq!(casts("a.0.1 as u32").unwrap(), spaced("u32(a.0.1)"));
    assert_eq!(casts("1..n as u32").unwrap(), spaced("1..u32(n)"));
    assert_eq!(casts("let x = if c { 1 } else { 2 }; y as u32").unwrap(), spaced("let x = if c { 1 } else { 2 }; u32(y)"));
    assert_eq!(casts("x = -a.b as i32;").unwrap(), spaced("x = i32(-a.b);"));
    assert_eq!(casts("x = a * -b as i32;").unwrap(), spaced("x = a * i32(-b);"));
    assert_eq!(casts("x = a & b as u32;").unwrap(), spaced("x = a & u32(b);"));
    assert_eq!(casts("x = & b as u32;").unwrap(), spaced("x = u32(& b);"));
    assert_eq!(casts("1.5 as u32").unwrap(), spaced("u32(1.5)"));
    assert_eq!(casts("if x as u32 > y { }").unwrap(), spaced("if u32(x) > y { }"));
    assert_eq!(casts("while i as f32 <= n { }").unwrap(), spaced("while f32(i) <= n { }"));
    assert_eq!(casts("return -1 as i32;").unwrap(), spaced("return i32(-1);"));
}
