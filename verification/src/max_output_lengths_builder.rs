//! Generates the source of the builder with which a caller states, per
//! output type of a module, how many items the output may hold.

use crate::custom_type::{custom_types_view, CustomType, CustomTypeKind, CustomTypeView};
use crate::custom_type_idents::{setter_name, CustomTypeIdents};
use vstd::prelude::*;
use vstd::string::StringExecFns;

verus! {

/// The source of the setter for one output type: it is named after the
/// type in snake case and stores the length under the type's own name.
pub open spec fn setter_source(name: Seq<char>) -> Seq<char> {
    "    pub fn "@ + setter_name(name) + "(mut self, length: usize) -> Self {\n"@
        + "        self.length_per_wgsl_output_type_name.insert(\""@ + name
        + "\".to_string(), length);\n"@ + "        self\n"@ + "    }\n"@
}

/// Whether a type of this role has a setter in the builder.
pub open spec fn has_output_length(kind: CustomTypeKind) -> bool {
    kind is OutputArray || kind is OutputVec
}

/// The sources of the setters for the output types among the first `count`
/// declared types, in declaration order.
pub open spec fn setters_source(types: Seq<CustomTypeView>, count: nat) -> Seq<char>
    decreases count,
{
    if count == 0 || count > types.len() {
        seq![]
    } else {
        let last = types[count - 1];
        setters_source(types, (count - 1) as nat) + if has_output_length(last.kind) {
            setter_source(last.name)
        } else {
            seq![]
        }
    }
}

/// What stands in front of the setters.
pub open spec fn builder_head() -> Seq<char> {
    "pub struct MaxOutputLengthsBuilder {\n"@
        + "    length_per_wgsl_output_type_name: HashMap<String, usize>,\n"@ + "}\n"@
        + "impl MaxOutputLengthsBuilder {\n"@ + "    pub fn new() -> Self {\n"@
        + "        Self {\n"@
        + "            length_per_wgsl_output_type_name: HashMap::new(),\n"@ + "        }\n"@
        + "    }\n"@
}

/// What stands behind the setters.
pub open spec fn builder_tail() -> Seq<char> {
    "    pub fn finish(self) -> MaxOutputLengths {\n"@ + "        self.into()\n"@
        + "    }\n"@ + "}\n"@ + "impl Into<MaxOutputLengths> for MaxOutputLengthsBuilder {\n"@
        + "    fn into(self) -> MaxOutputLengths {\n"@
        + "        MaxOutputLengths::new(self.length_per_wgsl_output_type_name)\n"@ + "    }\n"@
        + "}\n"@
}

/// The source of the whole builder for a module with the given types.
pub open spec fn builder_source(types: Seq<CustomTypeView>) -> Seq<char> {
    builder_head() + setters_source(types, types.len()) + builder_tail()
}

/// Writes the setter for one output type.
pub fn single_method(custom_type_name: &CustomTypeIdents) -> (source: String)
    ensures
        source@ == setter_source(custom_type_name@),
{
    let mut source = String::from_str("    pub fn ");
    let method_name = custom_type_name.setter();
    source.append(method_name.as_str());
    source.append("(mut self, length: usize) -> Self {\n");
    source.append("        self.length_per_wgsl_output_type_name.insert(\"");
    source.append(custom_type_name.name());
    source.append("\".to_string(), length);\n");
    source.append("        self\n");
    source.append("    }\n");
    source
}

/// Writes the setters for all output arrays and output vectors among the
/// declared types, in declaration order.
pub fn get_methods(custom_types: &[CustomType]) -> (source: String)
    ensures
        source@ == setters_source(custom_types_view(custom_types@), custom_types@.len()),
{
    let ghost types = custom_types_view(custom_types@);
    let mut source = String::new();
    let mut i: usize = 0;
    while i < custom_types.len()
        invariant
            i <= custom_types.len(),
            types == custom_types_view(custom_types@),
            source@ == setters_source(types, i as nat),
        decreases custom_types.len() - i,
    {
        let custom_type = &custom_types[i];
        if custom_type.kind == CustomTypeKind::OutputArray || custom_type.kind
            == CustomTypeKind::OutputVec {
            let method = single_method(&custom_type.name);
            source.append(method.as_str());
        }
        i = i + 1;
    }
    source
}

/// Writes the source of `MaxOutputLengthsBuilder` for a module: a struct
/// that maps output type names to lengths, a constructor, one setter per
/// output type, each of which hands the builder on, and `finish`, which
/// uses the builder up and gives the `MaxOutputLengths`.
pub fn create_max_output_lengths_builder(custom_types: &[CustomType]) -> (source: String)
    ensures
        source@ == builder_source(custom_types_view(custom_types@)),
{
    let methods = get_methods(custom_types);
    let mut source = String::from_str("pub struct MaxOutputLengthsBuilder {\n");
    source.append("    length_per_wgsl_output_type_name: HashMap<String, usize>,\n");
    source.append("}\n");
    source.append("impl MaxOutputLengthsBuilder {\n");
    source.append("    pub fn new() -> Self {\n");
    source.append("        Self {\n");
    source.append("            length_per_wgsl_output_type_name: HashMap::new(),\n");
    source.append("        }\n");
    source.append("    }\n");
    source.append(methods.as_str());
    source.append("    pub fn finish(self) -> MaxOutputLengths {\n");
    source.append("        self.into()\n");
    source.append("    }\n");
    source.append("}\n");
    source.append("impl Into<MaxOutputLengths> for MaxOutputLengthsBuilder {\n");
    source.append("    fn into(self) -> MaxOutputLengths {\n");
    source.append("        MaxOutputLengths::new(self.length_per_wgsl_output_type_name)\n");
    source.append("    }\n");
    source.append("}\n");
    source
}

} // verus!
