//! Writing a compiled module out: as the text of a shader, and as the
//! sections of a shader whose arrays have their lengths.

use crate::components::{
    append_sections, sections_text, ShaderText, WgslArray, WgslArrayView, WgslConstAssignment,
    WgslConstAssignmentView, WgslFunction, WgslFunctionView, WgslOutputArray, WgslOutputArrayView,
    WgslShaderModuleUserPortion, WgslShaderModuleUserPortionView, WgslType, WgslTypeView,
};
use crate::custom_type_idents::{input_array_name, output_array_name, CustomTypeIdents};
use crate::record::{
    ConstCode, ConstCodeView, NamedCode, NamedCodeView, OutputArrayCode, OutputArrayView, Sections,
    ShaderModule, ShaderModuleView,
};
use vstd::prelude::*;
use vstd::string::StringExecFns;

verus! {

impl ShaderText for ConstCode {
    open spec fn text(&self) -> Seq<char> {
        self.code.wgsl_code@ + "\n"@
    }

    fn to_string(&self) -> (out: String) {
        let mut out = self.code.wgsl_code.clone();
        out.append("\n");
        out
    }
}

impl ShaderText for NamedCode {
    open spec fn text(&self) -> Seq<char> {
        self.code.wgsl_code@ + "\n"@
    }

    fn to_string(&self) -> (out: String) {
        let mut out = self.code.wgsl_code.clone();
        out.append("\n");
        out
    }
}

impl ShaderText for OutputArrayCode {
    /// The item type, and the counter where the output has one.
    open spec fn text(&self) -> Seq<char> {
        match self.atomic_counter_name {
            Some(counter) => self.item_type.text() + ("alias "@ + counter@
                + " : atomic<u32>;\n"@),
            None => self.item_type.text(),
        }
    }

    fn to_string(&self) -> (out: String) {
        let mut out = self.item_type.to_string();
        match &self.atomic_counter_name {
            Some(counter) => {
                let mut line = String::from_str("alias ");
                line.append(counter.as_str());
                line.append(" : atomic<u32>;\n");
                out.append(line.as_str());
            },
            None => {},
        }
        out
    }
}

impl ShaderText for Sections {
    /// The categories in their fixed order: constants, helper types,
    /// uniforms, input arrays, output arrays with their counters, helper
    /// functions, entry point; each category in declaration order.
    open spec fn text(&self) -> Seq<char> {
        sections_text(self.static_consts@, self.static_consts@.len()) + sections_text(
            self.helper_types@,
            self.helper_types@.len(),
        ) + sections_text(self.uniforms@, self.uniforms@.len()) + sections_text(
            self.input_arrays@,
            self.input_arrays@.len(),
        ) + sections_text(self.output_arrays@, self.output_arrays@.len()) + sections_text(
            self.helper_functions@,
            self.helper_functions@.len(),
        ) + match self.main_function {
            Some(main) => main.text(),
            None => seq![],
        }
    }

    fn to_string(&self) -> (out: String) {
        let mut out = String::new();
        append_sections(&mut out, &self.static_consts);
        append_sections(&mut out, &self.helper_types);
        append_sections(&mut out, &self.uniforms);
        append_sections(&mut out, &self.input_arrays);
        append_sections(&mut out, &self.output_arrays);
        append_sections(&mut out, &self.helper_functions);
        match &self.main_function {
            Some(main) => {
                let text = main.to_string();
                out.append(text.as_str());
            },
            None => {},
        }
        out
    }
}

impl ShaderText for ShaderModule {
    open spec fn text(&self) -> Seq<char> {
        self.sections.text()
    }

    fn to_string(&self) -> (out: String) {
        self.sections.to_string()
    }
}

/// A named type as a section.
pub open spec fn type_section(entry: NamedCodeView) -> WgslTypeView {
    WgslTypeView { name: entry.name, wgsl: entry.code.wgsl_code }
}

/// A function as a section.
pub open spec fn function_section(entry: NamedCodeView) -> WgslFunctionView {
    WgslFunctionView { name: entry.name, wgsl_definition: entry.code.wgsl_code }
}

/// A constant as a section.
pub open spec fn const_section(entry: ConstCodeView) -> WgslConstAssignmentView {
    WgslConstAssignmentView {
        assigner_keyword: "const"@,
        var_name: entry.name,
        var_type: WgslTypeView { name: entry.var_type, wgsl: entry.var_type },
        value: entry.value,
    }
}

/// The input array over an item type, with its length.
pub open spec fn input_array_section(entry: NamedCodeView, length: u32) -> WgslArrayView {
    WgslArrayView {
        alias_name: input_array_name(entry.name),
        item_type: type_section(entry),
        length,
    }
}

/// The output array over an item type, with its length.
pub open spec fn output_array_section(entry: OutputArrayView, length: u32) -> WgslOutputArrayView {
    WgslOutputArrayView {
        arr: WgslArrayView {
            alias_name: output_array_name(entry.item_type.name),
            item_type: type_section(entry.item_type),
            length,
        },
        atomic_counter: entry.atomic_counter_name is Some,
    }
}

/// The sections of a module whose arrays have the given lengths. The item
/// types of the arrays are listed with the helper types, behind them: first
/// those of the input arrays, then those of the output arrays.
pub open spec fn sized_sections(
    module: ShaderModuleView,
    input_lengths: Seq<u32>,
    output_lengths: Seq<u32>,
) -> WgslShaderModuleUserPortionView {
    let sections = module.sections;
    WgslShaderModuleUserPortionView {
        module_visibility: module.module_visibility,
        module_ident: module.module_ident,
        static_consts: Seq::new(
            sections.static_consts.len(),
            |i: int| const_section(sections.static_consts[i]),
        ),
        helper_types: Seq::new(
            sections.helper_types.len(),
            |i: int| type_section(sections.helper_types[i]),
        ) + Seq::new(
            sections.input_arrays.len(),
            |i: int| type_section(sections.input_arrays[i]),
        ) + Seq::new(
            sections.output_arrays.len(),
            |i: int| type_section(sections.output_arrays[i].item_type),
        ),
        uniforms: Seq::new(sections.uniforms.len(), |i: int| type_section(sections.uniforms[i])),
        input_arrays: Seq::new(
            sections.input_arrays.len(),
            |i: int| input_array_section(sections.input_arrays[i], input_lengths[i]),
        ),
        output_arrays: Seq::new(
            sections.output_arrays.len(),
            |i: int| output_array_section(sections.output_arrays[i], output_lengths[i]),
        ),
        helper_functions: Seq::new(
            sections.helper_functions.len(),
            |i: int| function_section(sections.helper_functions[i]),
        ),
        main_function: match sections.main_function {
            Some(main) => Some(function_section(main)),
            None => None,
        },
    }
}

fn type_of(entry: &NamedCode) -> (section: WgslType)
    ensures
        section@ == type_section(entry@),
{
    WgslType { name: entry.name.clone(), wgsl: entry.code.wgsl_code.clone() }
}

fn function_of(entry: &NamedCode) -> (section: WgslFunction)
    ensures
        section@ == function_section(entry@),
{
    WgslFunction { name: entry.name.clone(), wgsl_definition: entry.code.wgsl_code.clone() }
}

fn push_types(types: &mut Vec<WgslType>, entries: &Vec<NamedCode>)
    ensures
        Seq::new(final(types)@.len(), |i: int| final(types)@[i]@) == Seq::new(
            old(types)@.len(),
            |i: int| old(types)@[i]@,
        ) + Seq::new(entries@.len(), |i: int| type_section(entries@[i]@)),
{
    let ghost start = Seq::new(types@.len(), |i: int| types@[i]@);
    let mut i: usize = 0;
    while i < entries.len()
        invariant
            i <= entries.len(),
            Seq::new(types@.len(), |k: int| types@[k]@) == start + Seq::new(
                i as nat,
                |k: int| type_section(entries@[k]@),
            ),
        decreases entries.len() - i,
    {
        let ghost before = Seq::new(types@.len(), |k: int| types@[k]@);
        let section = type_of(&entries[i]);
        types.push(section);
        assert(before.push(section@) =~= start + Seq::new(
            (i + 1) as nat,
            |k: int| type_section(entries@[k]@),
        ));
        i = i + 1;
    }
}

fn push_item_types(types: &mut Vec<WgslType>, entries: &Vec<OutputArrayCode>)
    ensures
        Seq::new(final(types)@.len(), |i: int| final(types)@[i]@) == Seq::new(
            old(types)@.len(),
            |i: int| old(types)@[i]@,
        ) + Seq::new(entries@.len(), |i: int| type_section(entries@[i]@.item_type)),
{
    let ghost start = Seq::new(types@.len(), |i: int| types@[i]@);
    let mut i: usize = 0;
    while i < entries.len()
        invariant
            i <= entries.len(),
            Seq::new(types@.len(), |k: int| types@[k]@) == start + Seq::new(
                i as nat,
                |k: int| type_section(entries@[k]@.item_type),
            ),
        decreases entries.len() - i,
    {
        let ghost before = Seq::new(types@.len(), |k: int| types@[k]@);
        let section = type_of(&entries[i].item_type);
        types.push(section);
        assert(before.push(section@) =~= start + Seq::new(
            (i + 1) as nat,
            |k: int| type_section(entries@[k]@.item_type),
        ));
        i = i + 1;
    }
}

impl ShaderModule {
    /// Gives the arrays of the module their lengths: the result holds the
    /// module's constants, types and functions as sections, and one array
    /// per input and output type. Returns `None` exactly when the numbers
    /// of lengths are not the numbers of input and output arrays.
    pub fn user_portion(&self, input_lengths: &Vec<u32>, output_lengths: &Vec<u32>) -> (portion:
        Option<WgslShaderModuleUserPortion>)
        ensures
            portion is Some <==> input_lengths@.len() == self@.sections.input_arrays.len()
                && output_lengths@.len() == self@.sections.output_arrays.len(),
            portion matches Some(sections) ==> sections@ == sized_sections(
                self@,
                input_lengths@,
                output_lengths@,
            ),
    {
        let sections = &self.sections;
        if input_lengths.len() != sections.input_arrays.len() || output_lengths.len()
            != sections.output_arrays.len() {
            return None;
        }
        let mut static_consts: Vec<WgslConstAssignment> = Vec::new();
        let mut i: usize = 0;
        while i < sections.static_consts.len()
            invariant
                i <= sections.static_consts.len(),
                static_consts@.len() == i,
                forall|k: int|
                    0 <= k < i ==> (#[trigger] static_consts@[k])@ == const_section(
                        sections.static_consts@[k]@,
                    ),
            decreases sections.static_consts.len() - i,
        {
            let entry = &sections.static_consts[i];
            static_consts.push(
                WgslConstAssignment {
                    assigner_keyword: "const".to_owned(),
                    var_name: entry.name.clone(),
                    var_type: WgslType {
                        name: entry.var_type.clone(),
                        wgsl: entry.var_type.clone(),
                    },
                    value: entry.value.clone(),
                },
            );
            i = i + 1;
        }
        let mut input_arrays: Vec<WgslArray> = Vec::new();
        i = 0;
        while i < sections.input_arrays.len()
            invariant
                i <= sections.input_arrays.len(),
                input_lengths.len() == sections.input_arrays.len(),
                input_arrays@.len() == i,
                forall|k: int|
                    0 <= k < i ==> (#[trigger] input_arrays@[k])@ == input_array_section(
                        sections.input_arrays@[k]@,
                        input_lengths@[k],
                    ),
            decreases sections.input_arrays.len() - i,
        {
            let entry = &sections.input_arrays[i];
            input_arrays.push(
                WgslArray {
                    alias_name: CustomTypeIdents::new(entry.name.as_str()).input_array(),
                    item_type: type_of(entry),
                    length: input_lengths[i],
                },
            );
            i = i + 1;
        }
        let mut output_arrays: Vec<WgslOutputArray> = Vec::new();
        i = 0;
        while i < sections.output_arrays.len()
            invariant
                i <= sections.output_arrays.len(),
                output_lengths.len() == sections.output_arrays.len(),
                output_arrays@.len() == i,
                forall|k: int|
                    0 <= k < i ==> (#[trigger] output_arrays@[k])@ == output_array_section(
                        sections.output_arrays@[k]@,
                        output_lengths@[k],
                    ),
            decreases sections.output_arrays.len() - i,
        {
            let entry = &sections.output_arrays[i];
            output_arrays.push(
                WgslOutputArray {
                    arr: WgslArray {
                        alias_name: CustomTypeIdents::new(
                            entry.item_type.name.as_str(),
                        ).output_array(),
                        item_type: type_of(&entry.item_type),
                        length: output_lengths[i],
                    },
                    atomic_counter: entry.atomic_counter_name.is_some(),
                },
            );
            i = i + 1;
        }
        let mut helper_functions: Vec<WgslFunction> = Vec::new();
        i = 0;
        while i < sections.helper_functions.len()
            invariant
                i <= sections.helper_functions.len(),
                helper_functions@.len() == i,
                forall|k: int|
                    0 <= k < i ==> (#[trigger] helper_functions@[k])@ == function_section(
                        sections.helper_functions@[k]@,
                    ),
            decreases sections.helper_functions.len() - i,
        {
            helper_functions.push(function_of(&sections.helper_functions[i]));
            i = i + 1;
        }
        let main_function = match &sections.main_function {
            Some(main) => Some(function_of(main)),
            None => None,
        };
        let mut helper_types: Vec<WgslType> = Vec::new();
        push_types(&mut helper_types, &sections.helper_types);
        push_types(&mut helper_types, &sections.input_arrays);
        push_item_types(&mut helper_types, &sections.output_arrays);
        let mut uniforms: Vec<WgslType> = Vec::new();
        push_types(&mut uniforms, &sections.uniforms);
        let portion = WgslShaderModuleUserPortion {
            module_visibility: self.module_visibility.clone(),
            module_ident: self.module_ident.clone(),
            static_consts,
            helper_types,
            uniforms,
            input_arrays,
            output_arrays,
            helper_functions,
            main_function,
        };
        proof {
            let expected = sized_sections(self@, input_lengths@, output_lengths@);
            assert(portion@.static_consts =~= expected.static_consts);
            assert(portion@.helper_types =~= expected.helper_types);
            assert(portion@.uniforms =~= expected.uniforms);
            assert(portion@.input_arrays =~= expected.input_arrays);
            assert(portion@.output_arrays =~= expected.output_arrays);
            assert(portion@.helper_functions =~= expected.helper_functions);
        }
        Some(portion)
    }
}

} // verus!
