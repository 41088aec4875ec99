use rust_to_wgsl::custom_type::{CustomType, CustomTypeKind};
use rust_to_wgsl::error::UnsupportedSyntax;
use rust_to_wgsl::helper_methods::{find_custom_type, transform_wgsl_helper_methods};
use rust_to_wgsl::lexer::{lex, render};

fn transform(
    source: &str,
    custom_types: &Vec<CustomType>,
) -> Result<String, UnsupportedSyntax> {
    let input = lex(source).unwrap();
    transform_wgsl_helper_methods(&input, custom_types).map(|tokens| render(&tokens))
}

fn one_type(name: &str, kind: CustomTypeKind) -> Vec<CustomType> {
    vec![CustomType::new(name, kind, Vec::new())]
}

#[test]
fn test_vec_len() {
    let input = "mod test {
            fn example() {
                let x = WgslVecInput::vec_len::<Position>();
            }
        }";
    let expected_output =
        "mod test { fn example () { let x = POSITION_INPUT_ARRAY_LENGTH ; } }";
    let custom_types = one_type("Position", CustomTypeKind::InputArray);
    let result = transform(input, &custom_types).unwrap();
    println!("{}", result);
    assert_eq!(
        result, expected_output,
        "Expected: {}\nGot: {}",
        expected_output, result
    );
}

#[test]
fn test_vec_val() {
    let input = "mod test {

            fn example() {
                let x = WgslVecInput::vec_val::<Radius>(5);
            }
        }";
    let expected_output = "mod test { fn example () { let x = radius_input_array [5] ; } }";
    let custom_types = one_type("Radius", CustomTypeKind::InputArray);
    let result = transform(input, &custom_types).unwrap();
    println!("{}", result);
    assert_eq!(
        result, expected_output,
        "Expected: {}\nGot: {}",
        expected_output, result
    );
}

#[test]
fn test_push() {
    let input = "mod test {
            fn example() {
                WgslOutput::push::<CollisionResult>(value);
            }
        }";
    let expected_output = "mod test { fn example () { { let collisionresult_output_array_index = atomicAdd (& collisionresult_counter , 1u) ; if collisionresult_output_array_index < COLLISIONRESULT_OUTPUT_ARRAY_LENGTH { collisionresult_output_array [collisionresult_output_array_index] = value ; } } ; } }";
    let custom_types = one_type("CollisionResult", CustomTypeKind::OutputVec);
    let result = transform(input, &custom_types).unwrap();
    println!("{}", result);
    assert_eq!(
        result, expected_output,
        "Expected: {}\nGot: {}",
        expected_output, result
    );
}

#[test]
fn test_output_max_len() {
    let input = "mod test {
            fn example() {
                let x = WgslOutput::max_len::<CollisionResult>();
            }
        }";
    let expected_output =
        "mod test { fn example () { let x = COLLISIONRESULT_OUTPUT_ARRAY_LENGTH ; } }";
    let custom_types = one_type("CollisionResult", CustomTypeKind::OutputVec);
    let result = transform(input, &custom_types).unwrap();
    println!("{}", result);
    assert_eq!(
        result, expected_output,
        "Expected: {}\nGot: {}",
        expected_output, result
    );
}

#[test]
fn test_output_len() {
    let input = "mod test {
            fn example() {
                let x = WgslOutput::len::<CollisionResult>();
            }
        }";
    let expected_output = "mod test { fn example () { let x = collisionresult_counter ; } }";
    let custom_types = one_type("CollisionResult", CustomTypeKind::OutputVec);
    let result = transform(input, &custom_types).unwrap();
    println!("{}", result);
    assert_eq!(
        result, expected_output,
        "Expected: {}\nGot: {}",
        expected_output, result
    );
}

#[test]
fn test_output_set() {
    let input = "mod test {
            fn example() {
                WgslOutput::set::<CollisionResult>(idx, val);
            }
        }";
    let expected_output =
        "mod test { fn example () { collisionresult_output_array [idx] = val ; } }";
    let custom_types = one_type("CollisionResult", CustomTypeKind::OutputArray);
    let result = transform(input, &custom_types).unwrap();
    println!("{}", result);
    assert_eq!(
        result, expected_output,
        "Expected: {}\nGot: {}",
        expected_output, result
    );
}

#[test]
fn test_config_get() {
    let input = "mod test {
            fn example() {
                let t = WgslConfigInput::get::<Position>();
            }
        }";
    let expected_output = "mod test { fn example () { let t = position ; } }";
    let custom_types = one_type("Position", CustomTypeKind::Uniform);
    let result = transform(input, &custom_types).unwrap();
    println!("{}", result);
    assert_eq!(
        result, expected_output,
        "Expected: {}\nGot: {}",
        expected_output, result
    );
}

#[test]
fn helper_calls_inside_arguments_are_rewritten() {
    let custom_types = vec![
        CustomType::new("Radius", CustomTypeKind::InputArray, Vec::new()),
        CustomType::new("Hit", CustomTypeKind::OutputArray, Vec::new()),
    ];
    let result = transform(
        "WgslOutput::set::<Hit>(i + 1, WgslVecInput::vec_val::<Radius>(f(i, j)));",
        &custom_types,
    )
    .unwrap();
    assert_eq!(result, "hit_output_array [i + 1] = radius_input_array [f (i , j)] ;");
}

#[test]
fn tokens_without_helper_calls_are_kept() {
    let source = "fn f(a: u32) -> u32 { WgslOutput; g::<T>(a) + h[0] }";
    let expected = render(&lex(source).unwrap());
    assert_eq!(transform(source, &Vec::new()).unwrap(), expected);
}

#[test]
fn unknown_method_is_refused() {
    let custom_types = one_type("Position", CustomTypeKind::InputArray);
    assert_eq!(
        transform("WgslVecInput::first::<Position>()", &custom_types),
        Err(UnsupportedSyntax::UnknownHelperMethod)
    );
    assert_eq!(
        transform("WgslConfigInput::vec_len::<Position>()", &custom_types),
        Err(UnsupportedSyntax::UnknownHelperMethod)
    );
}

#[test]
fn undeclared_type_is_refused() {
    let custom_types = one_type("Position", CustomTypeKind::InputArray);
    assert_eq!(
        transform("WgslVecInput::vec_len::<Radius>()", &custom_types),
        Err(UnsupportedSyntax::UnknownType)
    );
}

#[test]
fn wrong_role_is_refused() {
    let kinds = [
        CustomTypeKind::GpuOnlyHelperType,
        CustomTypeKind::Uniform,
        CustomTypeKind::InputArray,
        CustomTypeKind::OutputArray,
        CustomTypeKind::OutputVec,
    ];
    let calls = [
        ("WgslVecInput::vec_len::<T>()", vec![CustomTypeKind::InputArray]),
        ("WgslVecInput::vec_val::<T>(0)", vec![CustomTypeKind::InputArray]),
        ("WgslOutput::push::<T>(v)", vec![CustomTypeKind::OutputVec]),
        ("WgslOutput::len::<T>()", vec![CustomTypeKind::OutputVec]),
        (
            "WgslOutput::max_len::<T>()",
            vec![CustomTypeKind::OutputArray, CustomTypeKind::OutputVec],
        ),
        ("WgslOutput::set::<T>(0, v)", vec![CustomTypeKind::OutputArray]),
        ("WgslConfigInput::get::<T>()", vec![CustomTypeKind::Uniform]),
    ];
    for (call, allowed) in calls.iter() {
        for kind in kinds.iter() {
            let result = transform(call, &one_type("T", *kind));
            if allowed.contains(kind) {
                assert!(result.is_ok(), "{} on {:?}", call, kind);
            } else {
                assert_eq!(result, Err(UnsupportedSyntax::WrongRole), "{} on {:?}", call, kind);
            }
        }
    }
}

#[test]
fn wrong_argument_count_is_refused() {
    let custom_types = vec![
        CustomType::new("In", CustomTypeKind::InputArray, Vec::new()),
        CustomType::new("Out", CustomTypeKind::OutputArray, Vec::new()),
        CustomType::new("Grow", CustomTypeKind::OutputVec, Vec::new()),
        CustomType::new("Conf", CustomTypeKind::Uniform, Vec::new()),
    ];
    for call in [
        "WgslVecInput::vec_len::<In>(1)",
        "WgslVecInput::vec_val::<In>()",
        "WgslOutput::push::<Grow>()",
        "WgslOutput::len::<Grow>(1)",
        "WgslOutput::max_len::<Grow>(1)",
        "WgslOutput::set::<Out>(1)",
        "WgslOutput::set::<Out>(, 1)",
        "WgslOutput::set::<Out>(1, )",
        "WgslConfigInput::get::<Conf>(1)",
    ] {
        assert_eq!(
            transform(call, &custom_types),
            Err(UnsupportedSyntax::WrongArguments),
            "{}",
            call
        );
    }
}

#[test]
fn first_error_from_the_left_is_reported() {
    let custom_types = one_type("Position", CustomTypeKind::InputArray);
    assert_eq!(
        transform(
            "WgslVecInput::vec_val::<Position>(WgslVecInput::vec_len::<Missing>()); WgslOutput::nothing::<Position>()",
            &custom_types
        ),
        Err(UnsupportedSyntax::UnknownType)
    );
}

#[test]
fn first_declaration_of_a_name_counts() {
    let custom_types = vec![
        CustomType::new("A", CustomTypeKind::Uniform, Vec::new()),
        CustomType::new("A", CustomTypeKind::InputArray, Vec::new()),
    ];
    assert_eq!(find_custom_type(&custom_types, "A").unwrap().kind, CustomTypeKind::Uniform);
    assert!(find_custom_type(&custom_types, "B").is_none());
    assert_eq!(transform("WgslConfigInput::get::<A>()", &custom_types).unwrap(), "a");
}
