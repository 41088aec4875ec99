use rust_to_wgsl::lexer::lex;
use rust_to_wgsl::printer::print;
use rust_to_wgsl::token::{Delimiter, Token};

fn printed(text: &str) -> String {
    print(&lex(text).unwrap())
}

#[test]
fn a_space_stands_between_tokens_but_for_a_few_pairs() {
    assert_eq!(printed("x.y"), "x.y");
    assert_eq!(printed("tup.0 . len ( )"), "tup.0.len()");
    assert_eq!(printed("f(a,b);"), "f(a, b);");
    assert_eq!(printed("time: f32"), "time : f32");
    assert_eq!(printed("a[0]"), "a [0]");
    assert_eq!(printed("#[derive(Clone)] struct S"), "#[derive(Clone)] struct S");
    assert_eq!(printed("#![allow(x)]"), "#! [allow(x)]");
    assert_eq!(printed("vec2<f32>,"), "vec2 < f32 >,");
    assert_eq!(printed("vec2<f32> ,"), "vec2 < f32 > ,");
    assert_eq!(printed("a>=b||c!=d"), "a >= b || c != d");
    assert_eq!(printed("->f32"), "-> f32");
    assert_eq!(printed("&x"), "& x");
    assert_eq!(printed("1..n"), "1..n");
}

#[test]
fn round_brackets_stand_behind_a_name_but_not_behind_a_reserved_word() {
    assert_eq!(printed("f (x)"), "f(x)");
    assert_eq!(printed("if(x) {}"), "if (x) {}");
    assert_eq!(printed("return(x)"), "return (x)");
    assert_eq!(printed("let(a, b) = c;"), "let (a, b) = c;");
    assert_eq!(printed("fn (x)"), "fn(x)");
    assert_eq!(printed("pub (crate) fn f()"), "pub(crate) fn f()");
    assert_eq!(printed("Self (x)"), "Self(x)");
    assert_eq!(printed("extern (x)"), "extern (x)");
    assert_eq!(printed("r#type (x)"), "r#type(x)");
    assert_eq!(printed("1 (x)"), "1 (x)");
}

#[test]
fn curly_brackets_keep_spaces_inside_unless_empty() {
    assert_eq!(printed("{}"), "{}");
    assert_eq!(printed("{a}"), "{ a }");
    assert_eq!(printed("fn f(){return;}"), "fn f() { return; }");
    let nested = vec![Token::Group(
        Delimiter::Brace,
        vec![Token::Group(Delimiter::Invisible, vec![Token::Ident("a".to_string())])],
    )];
    assert_eq!(print(&nested), "{ a }");
}

#[test]
fn a_line_holds_at_most_the_margin() {
    assert_eq!(
        printed("fn calculate_distance_squared(p1: [f32; 2], p2: [f32; 2]) -> f32 { let dx = p1[0] - p2[0]; let dy = p1[1] - p2[1]; return dx * dx + dy * dy; }"),
        "fn calculate_distance_squared(p1 : [f32; 2], p2 : [f32; 2]) -> f32\n{\n    let dx = p1 [0] - p2 [0]; let dy = p1 [1] - p2 [1]; return dx * dx + dy *\n    dy;\n}"
    );
    assert_eq!(
        printed("fn main(iter_pos: WgslIterationPosition) { let obj = TStruct(1.0, 2.0); return; }"),
        "fn main(iter_pos : WgslIterationPosition)\n{ let obj = TStruct(1.0, 2.0); return; }"
    );
    let exactly = format!("{} {}", "a".repeat(38), "b".repeat(39));
    assert_eq!(printed(&exactly), exactly);
    let one_more = format!("{} {}", "a".repeat(39), "b".repeat(39));
    assert_eq!(printed(&one_more), format!("{}\n{}", "a".repeat(39), "b".repeat(39)));
}

#[test]
fn a_line_is_measured_in_bytes() {
    let letters = "a".repeat(39);
    let accents = format!("\"{}\"", "é".repeat(19));
    assert_eq!(
        printed(&format!("{} {}", letters, accents)),
        format!("{}\n{}", letters, accents)
    );
    let fewer = format!("\"{}\"", "é".repeat(18));
    assert_eq!(printed(&format!("{} {}", letters, fewer)), format!("{} {}", letters, fewer));
}

#[test]
fn nested_blocks_are_indented_by_four() {
    assert_eq!(
        printed("if dist_squared < radius_sum * radius_sum { { let index = atomicAdd(&counter, 1u); if index < OUTPUT_ARRAY_LENGTH { array[index] = value; } }; }"),
        "if dist_squared < radius_sum * radius_sum\n{\n    {\n        let index = atomicAdd(& counter, 1u); if index < OUTPUT_ARRAY_LENGTH\n        { array [index] = value; }\n    };\n}"
    );
}

#[test]
fn nothing_gives_no_text() {
    assert_eq!(printed(""), "");
    assert_eq!(printed("()"), "()");
}
