//! Generates the sources of the builders through which a caller hands the
//! uniforms and input arrays of a module to a task, and of the reader that
//! gives the outputs back with their types.
//!
//! Every builder keeps the bytes of a value under the name of its type in a
//! `TypeErasedArrayData`; the reader looks each output up under the name of
//! its type.

use crate::custom_type::{custom_types_view, CustomType, CustomTypeKind, CustomTypeView};
use crate::custom_type_idents::{setter_name, CustomTypeIdents};
use crate::text::snake_text;
use vstd::prelude::*;
use vstd::string::StringExecFns;

verus! {

/// The pieces of source that are written once per declared type.
#[derive(Clone, Copy, Debug, PartialEq, Eq, Structural)]
pub enum Piece {
    /// The setter for a uniform in the builder of the configuration.
    ConfigSetter,
    /// The setter for an input array in the builder of the input data.
    InputSetter,
    /// The field for an output in the reader of the output data.
    OutputField,
    /// The line that fills the field for an output.
    OutputInitializer,
}

/// Whether a piece is written for types of the given role.
pub open spec fn piece_is_for(piece: Piece, kind: CustomTypeKind) -> bool {
    match piece {
        Piece::ConfigSetter => kind is Uniform,
        Piece::InputSetter => kind is InputArray,
        Piece::OutputField | Piece::OutputInitializer => kind is OutputArray || kind is OutputVec,
    }
}

/// The source of one piece for the type `name`. Setters are named after the
/// type in snake case, as are the fields of the reader; values are kept
/// and looked up under the type's own name.
pub open spec fn piece_source(piece: Piece, name: Seq<char>) -> Seq<char> {
    match piece {
        Piece::ConfigSetter => "    pub fn "@ + setter_name(name) + "(mut self, value: "@ + name
            + ") -> Self {\n"@ + "        self.bytes_per_wgsl_config_type_name.insert(\""@
            + name + "\", ArrayBytes { item_size: core::mem::size_of::<"@ + name
            + ">(), bytes: bytemuck::bytes_of(&value).to_vec() });\n"@ + "        self\n"@
            + "    }\n"@,
        Piece::InputSetter => "    pub fn "@ + setter_name(name) + "(mut self, items: Vec<"@
            + name + ">) -> Self {\n"@
            + "        self.bytes_per_wgsl_input_type_name.insert(\""@ + name
            + "\", ArrayBytes { item_size: core::mem::size_of::<"@ + name
            + ">(), bytes: bytemuck::cast_slice(&items).to_vec() });\n"@ + "        self\n"@
            + "    }\n"@,
        Piece::OutputField => "    pub "@ + snake_text(name) + ": Option<Vec<"@ + name + ">>,\n"@,
        Piece::OutputInitializer => "            "@ + snake_text(name) + ": data.get(\""@ + name
            + "\").map(|array| bytemuck::cast_slice(&array.bytes).to_vec()),\n"@,
    }
}

/// The sources of a piece for those of the first `count` declared types
/// that it is for, in declaration order.
pub open spec fn pieces_source(piece: Piece, types: Seq<CustomTypeView>, count: nat) -> Seq<char>
    decreases count,
{
    if count == 0 || count > types.len() {
        seq![]
    } else {
        let last = types[count - 1];
        pieces_source(piece, types, (count - 1) as nat) + if piece_is_for(piece, last.kind) {
            piece_source(piece, last.name)
        } else {
            seq![]
        }
    }
}

/// The source of the builder of the configuration: one setter per uniform.
pub open spec fn config_builder_source(types: Seq<CustomTypeView>) -> Seq<char> {
    "pub struct ConfigInputDataBuilder {\n"@
        + "    bytes_per_wgsl_config_type_name: TypeErasedArrayData,\n"@ + "}\n"@
        + "impl ConfigInputDataBuilder {\n"@ + "    pub fn new() -> Self {\n"@
        + "        Self {\n"@
        + "            bytes_per_wgsl_config_type_name: TypeErasedArrayData::new(),\n"@
        + "        }\n"@ + "    }\n"@ + pieces_source(Piece::ConfigSetter, types, types.len())
        + "    pub fn finish(self) -> TypeErasedArrayData {\n"@
        + "        self.bytes_per_wgsl_config_type_name\n"@
        + "    }\n"@ + "}\n"@
}

/// The source of the builder of the input data: one setter per input array.
pub open spec fn input_builder_source(types: Seq<CustomTypeView>) -> Seq<char> {
    "pub struct InputDataBuilder {\n"@
        + "    bytes_per_wgsl_input_type_name: TypeErasedArrayData,\n"@ + "}\n"@
        + "impl InputDataBuilder {\n"@ + "    pub fn new() -> Self {\n"@ + "        Self {\n"@
        + "            bytes_per_wgsl_input_type_name: TypeErasedArrayData::new(),\n"@
        + "        }\n"@ + "    }\n"@ + pieces_source(Piece::InputSetter, types, types.len())
        + "    pub fn finish(self) -> TypeErasedArrayData {\n"@
        + "        self.bytes_per_wgsl_input_type_name\n"@
        + "    }\n"@ + "}\n"@
}

/// The source of the reader of the output data: one field per output array
/// or output vector, filled from the bytes kept under the type's name and
/// empty where there are none.
pub open spec fn output_builder_source(types: Seq<CustomTypeView>) -> Seq<char> {
    "pub struct OutputDataBuilder {\n"@ + pieces_source(Piece::OutputField, types, types.len())
        + "}\n"@ + "impl From<TypeErasedArrayData> for OutputDataBuilder {\n"@
        + "    fn from(data: TypeErasedArrayData) -> Self {\n"@ + "        Self {\n"@
        + pieces_source(Piece::OutputInitializer, types, types.len()) + "        }\n"@
        + "    }\n"@ + "}\n"@
}

fn is_for(piece: Piece, kind: CustomTypeKind) -> (selected: bool)
    ensures
        selected == piece_is_for(piece, kind),
{
    match piece {
        Piece::ConfigSetter => kind == CustomTypeKind::Uniform,
        Piece::InputSetter => kind == CustomTypeKind::InputArray,
        Piece::OutputField | Piece::OutputInitializer => kind == CustomTypeKind::OutputArray
            || kind == CustomTypeKind::OutputVec,
    }
}

/// Writes one piece for one declared type.
pub fn write_piece(piece: Piece, idents: &CustomTypeIdents) -> (source: String)
    ensures
        source@ == piece_source(piece, idents@),
{
    match piece {
        Piece::ConfigSetter => {
            let mut source = String::from_str("    pub fn ");
            source.append(idents.setter().as_str());
            source.append("(mut self, value: ");
            source.append(idents.name());
            source.append(") -> Self {\n");
            source.append("        self.bytes_per_wgsl_config_type_name.insert(\"");
            source.append(idents.name());
            source.append("\", ArrayBytes { item_size: core::mem::size_of::<");
            source.append(idents.name());
            source.append(">(), bytes: bytemuck::bytes_of(&value).to_vec() });\n");
            source.append("        self\n");
            source.append("    }\n");
            source
        },
        Piece::InputSetter => {
            let mut source = String::from_str("    pub fn ");
            source.append(idents.setter().as_str());
            source.append("(mut self, items: Vec<");
            source.append(idents.name());
            source.append(">) -> Self {\n");
            source.append("        self.bytes_per_wgsl_input_type_name.insert(\"");
            source.append(idents.name());
            source.append("\", ArrayBytes { item_size: core::mem::size_of::<");
            source.append(idents.name());
            source.append(">(), bytes: bytemuck::cast_slice(&items).to_vec() });\n");
            source.append("        self\n");
            source.append("    }\n");
            source
        },
        Piece::OutputField => {
            let mut source = String::from_str("    pub ");
            source.append(idents.snake_case());
            source.append(": Option<Vec<");
            source.append(idents.name());
            source.append(">>,\n");
            source
        },
        Piece::OutputInitializer => {
            let mut source = String::from_str("            ");
            source.append(idents.snake_case());
            source.append(": data.get(\"");
            source.append(idents.name());
            source.append("\").map(|array| bytemuck::cast_slice(&array.bytes).to_vec()),\n");
            source
        },
    }
}

/// Appends a piece for every declared type that it is for.
pub fn append_pieces(source: &mut String, piece: Piece, custom_types: &[CustomType])
    ensures
        final(source)@ == old(source)@ + pieces_source(
            piece,
            custom_types_view(custom_types@),
            custom_types@.len(),
        ),
{
    let ghost types = custom_types_view(custom_types@);
    let ghost start = source@;
    let mut i: usize = 0;
    while i < custom_types.len()
        invariant
            i <= custom_types.len(),
            types == custom_types_view(custom_types@),
            source@ == start + pieces_source(piece, types, i as nat),
        decreases custom_types.len() - i,
    {
        let custom_type = &custom_types[i];
        if is_for(piece, custom_type.kind) {
            let written = write_piece(piece, &custom_type.name);
            source.append(written.as_str());
        }
        i = i + 1;
    }
}

/// Writes the source of `ConfigInputDataBuilder` for a module.
pub fn create_config_input_data_builder(custom_types: &[CustomType]) -> (source: String)
    ensures
        source@ == config_builder_source(custom_types_view(custom_types@)),
{
    let mut source = String::from_str("pub struct ConfigInputDataBuilder {\n");
    source.append("    bytes_per_wgsl_config_type_name: TypeErasedArrayData,\n");
    source.append("}\n");
    source.append("impl ConfigInputDataBuilder {\n");
    source.append("    pub fn new() -> Self {\n");
    source.append("        Self {\n");
    source.append("            bytes_per_wgsl_config_type_name: TypeErasedArrayData::new(),\n");
    source.append("        }\n");
    source.append("    }\n");
    append_pieces(&mut source, Piece::ConfigSetter, custom_types);
    source.append("    pub fn finish(self) -> TypeErasedArrayData {\n");
    source.append(
        "        self.bytes_per_wgsl_config_type_name\n",
    );
    source.append("    }\n");
    source.append("}\n");
    source
}

/// Writes the source of `InputDataBuilder` for a module.
pub fn create_input_data_builder(custom_types: &[CustomType]) -> (source: String)
    ensures
        source@ == input_builder_source(custom_types_view(custom_types@)),
{
    let mut source = String::from_str("pub struct InputDataBuilder {\n");
    source.append("    bytes_per_wgsl_input_type_name: TypeErasedArrayData,\n");
    source.append("}\n");
    source.append("impl InputDataBuilder {\n");
    source.append("    pub fn new() -> Self {\n");
    source.append("        Self {\n");
    source.append("            bytes_per_wgsl_input_type_name: TypeErasedArrayData::new(),\n");
    source.append("        }\n");
    source.append("    }\n");
    append_pieces(&mut source, Piece::InputSetter, custom_types);
    source.append("    pub fn finish(self) -> TypeErasedArrayData {\n");
    source.append(
        "        self.bytes_per_wgsl_input_type_name\n",
    );
    source.append("    }\n");
    source.append("}\n");
    source
}

/// Writes the source of `OutputDataBuilder` for a module.
pub fn create_output_data_builder(custom_types: &[CustomType]) -> (source: String)
    ensures
        source@ == output_builder_source(custom_types_view(custom_types@)),
{
    let mut source = String::from_str("pub struct OutputDataBuilder {\n");
    append_pieces(&mut source, Piece::OutputField, custom_types);
    source.append("}\n");
    source.append("impl From<TypeErasedArrayData> for OutputDataBuilder {\n");
    source.append("    fn from(data: TypeErasedArrayData) -> Self {\n");
    source.append("        Self {\n");
    append_pieces(&mut source, Piece::OutputInitializer, custom_types);
    source.append("        }\n");
    source.append("    }\n");
    source.append("}\n");
    source
}

} // verus!
