use rust_to_wgsl::buffer_builders::{
    create_config_input_data_builder, create_input_data_builder, create_output_data_builder,
    write_piece, Piece,
};
use rust_to_wgsl::custom_type::{CustomType, CustomTypeKind};
use rust_to_wgsl::custom_type_idents::CustomTypeIdents;
use rust_to_wgsl::lexer::lex;

fn types() -> Vec<CustomType> {
    vec![
        CustomType::new("MyPosition", CustomTypeKind::Uniform, Vec::new()),
        CustomType::new("Helper", CustomTypeKind::GpuOnlyHelperType, Vec::new()),
        CustomType::new("MyConfig", CustomTypeKind::Uniform, Vec::new()),
        CustomType::new("Radius", CustomTypeKind::InputArray, Vec::new()),
        CustomType::new("MyPositionOut", CustomTypeKind::OutputArray, Vec::new()),
        CustomType::new("Debug", CustomTypeKind::OutputVec, Vec::new()),
    ]
}

#[test]
fn test_configs_builder() {
    let source = create_config_input_data_builder(&types());
    assert_eq!(
        source,
        "pub struct ConfigInputDataBuilder {\n    \
         bytes_per_wgsl_config_type_name: TypeErasedArrayData,\n\
         }\n\
         impl ConfigInputDataBuilder {\n    \
         pub fn new() -> Self {\n        \
         Self {\n            \
         bytes_per_wgsl_config_type_name: TypeErasedArrayData::new(),\n        \
         }\n    \
         }\n    \
         pub fn set_my_position(mut self, value: MyPosition) -> Self {\n        \
         self.bytes_per_wgsl_config_type_name.insert(\"MyPosition\", ArrayBytes { item_size: core::mem::size_of::<MyPosition>(), bytes: bytemuck::bytes_of(&value).to_vec() });\n        \
         self\n    \
         }\n    \
         pub fn set_my_config(mut self, value: MyConfig) -> Self {\n        \
         self.bytes_per_wgsl_config_type_name.insert(\"MyConfig\", ArrayBytes { item_size: core::mem::size_of::<MyConfig>(), bytes: bytemuck::bytes_of(&value).to_vec() });\n        \
         self\n    \
         }\n    \
         pub fn finish(self) -> TypeErasedArrayData {\n        \
         self.bytes_per_wgsl_config_type_name\n    \
         }\n\
         }\n"
    );
    assert!(lex(&source).is_some());
}

#[test]
fn the_input_builder_has_a_setter_per_input_array() {
    let source = create_input_data_builder(&types());
    assert_eq!(
        source,
        "pub struct InputDataBuilder {\n    \
         bytes_per_wgsl_input_type_name: TypeErasedArrayData,\n\
         }\n\
         impl InputDataBuilder {\n    \
         pub fn new() -> Self {\n        \
         Self {\n            \
         bytes_per_wgsl_input_type_name: TypeErasedArrayData::new(),\n        \
         }\n    \
         }\n    \
         pub fn set_radius(mut self, items: Vec<Radius>) -> Self {\n        \
         self.bytes_per_wgsl_input_type_name.insert(\"Radius\", ArrayBytes { item_size: core::mem::size_of::<Radius>(), bytes: bytemuck::cast_slice(&items).to_vec() });\n        \
         self\n    \
         }\n    \
         pub fn finish(self) -> TypeErasedArrayData {\n        \
         self.bytes_per_wgsl_input_type_name\n    \
         }\n\
         }\n"
    );
    assert!(lex(&source).is_some());
}

#[test]
fn the_output_reader_has_a_field_per_output() {
    let source = create_output_data_builder(&types());
    assert_eq!(
        source,
        "pub struct OutputDataBuilder {\n    \
         pub my_position_out: Option<Vec<MyPositionOut>>,\n    \
         pub debug: Option<Vec<Debug>>,\n\
         }\n\
         impl From<TypeErasedArrayData> for OutputDataBuilder {\n    \
         fn from(data: TypeErasedArrayData) -> Self {\n        \
         Self {\n            \
         my_position_out: data.get(\"MyPositionOut\").map(|array| bytemuck::cast_slice(&array.bytes).to_vec()),\n            \
         debug: data.get(\"Debug\").map(|array| bytemuck::cast_slice(&array.bytes).to_vec()),\n        \
         }\n    \
         }\n\
         }\n"
    );
    assert!(lex(&source).is_some());
}

#[test]
fn builders_of_a_module_without_buffers_are_empty() {
    let helper = vec![CustomType::new("Helper", CustomTypeKind::GpuOnlyHelperType, Vec::new())];
    assert_eq!(create_config_input_data_builder(&helper), create_config_input_data_builder(&[]));
    assert_eq!(create_input_data_builder(&helper), create_input_data_builder(&[]));
    assert_eq!(
        create_output_data_builder(&helper),
        "pub struct OutputDataBuilder {\n\
         }\n\
         impl From<TypeErasedArrayData> for OutputDataBuilder {\n    \
         fn from(data: TypeErasedArrayData) -> Self {\n        \
         Self {\n        \
         }\n    \
         }\n\
         }\n"
    );
}

#[test]
fn each_piece_names_the_type_in_both_forms() {
    let idents = CustomTypeIdents::new("MyPositionOut");
    assert_eq!(
        write_piece(Piece::OutputField, &idents),
        "    pub my_position_out: Option<Vec<MyPositionOut>>,\n"
    );
    assert_eq!(
        write_piece(Piece::OutputInitializer, &idents),
        "            my_position_out: data.get(\"MyPositionOut\").map(|array| bytemuck::cast_slice(&array.bytes).to_vec()),\n"
    );
    assert!(write_piece(Piece::ConfigSetter, &idents)
        .starts_with("    pub fn set_my_position_out(mut self, value: MyPositionOut) -> Self {\n"));
    assert!(write_piece(Piece::InputSetter, &idents)
        .starts_with("    pub fn set_my_position_out(mut self, items: Vec<MyPositionOut>) -> Self {\n"));
}
