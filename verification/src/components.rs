//! The sections of a WGSL shader module and how each is written out.

use crate::text::{decimal_text, lower_text, to_lower, u32_to_decimal};
use vstd::prelude::*;
use vstd::string::StringExecFns;

verus! {

/// A section of a shader module that can be written as WGSL text.
pub trait ShaderText {
    /// The WGSL text of the section.
    spec fn text(&self) -> Seq<char>;

    /// Writes the section as WGSL text.
    fn to_string(&self) -> (out: String)
        ensures
            out@ == self.text(),
    ;
}

/// A named type: a struct or an alias.
#[derive(Debug)]
pub struct WgslType {
    pub name: String,
    pub wgsl: String,
}

/// The value of a named type.
pub struct WgslTypeView {
    pub name: Seq<char>,
    pub wgsl: Seq<char>,
}

impl View for WgslType {
    type V = WgslTypeView;

    open spec fn view(&self) -> WgslTypeView {
        WgslTypeView { name: self.name@, wgsl: self.wgsl@ }
    }
}

impl ShaderText for WgslType {
    open spec fn text(&self) -> Seq<char> {
        self.wgsl@ + "\n"@
    }

    fn to_string(&self) -> (out: String) {
        let mut out = self.wgsl.clone();
        out.append("\n");
        out
    }
}

/// A function, kept with its name.
#[derive(Debug)]
pub struct WgslFunction {
    pub name: String,
    pub wgsl_definition: String,
}

/// The value of a function.
pub struct WgslFunctionView {
    pub name: Seq<char>,
    pub wgsl_definition: Seq<char>,
}

impl View for WgslFunction {
    type V = WgslFunctionView;

    open spec fn view(&self) -> WgslFunctionView {
        WgslFunctionView { name: self.name@, wgsl_definition: self.wgsl_definition@ }
    }
}

impl ShaderText for WgslFunction {
    open spec fn text(&self) -> Seq<char> {
        self.wgsl_definition@ + "\n"@
    }

    fn to_string(&self) -> (out: String) {
        let mut out = self.wgsl_definition.clone();
        out.append("\n");
        out
    }
}

/// A module-level constant: keyword, name, type and value.
#[derive(Debug)]
pub struct WgslConstAssignment {
    pub assigner_keyword: String,
    pub var_name: String,
    pub var_type: WgslType,
    pub value: String,
}

/// The value of a constant.
pub struct WgslConstAssignmentView {
    pub assigner_keyword: Seq<char>,
    pub var_name: Seq<char>,
    pub var_type: WgslTypeView,
    pub value: Seq<char>,
}

impl View for WgslConstAssignment {
    type V = WgslConstAssignmentView;

    open spec fn view(&self) -> WgslConstAssignmentView {
        WgslConstAssignmentView {
            assigner_keyword: self.assigner_keyword@,
            var_name: self.var_name@,
            var_type: self.var_type@,
            value: self.value@,
        }
    }
}

impl ShaderText for WgslConstAssignment {
    open spec fn text(&self) -> Seq<char> {
        self.assigner_keyword@ + " "@ + self.var_name@ + ": "@ + self.var_type.wgsl@ + " = "@
            + self.value@ + ";\n"@
    }

    fn to_string(&self) -> (out: String) {
        let mut out = self.assigner_keyword.clone();
        out.append(" ");
        out.append(self.var_name.as_str());
        out.append(": ");
        out.append(self.var_type.wgsl.as_str());
        out.append(" = ");
        out.append(self.value.as_str());
        out.append(";\n");
        out
    }
}

/// An array type of fixed length over a named item type.
#[derive(Debug)]
pub struct WgslArray {
    pub alias_name: String,
    pub item_type: WgslType,
    pub length: u32,
}

/// The value of an array type.
pub struct WgslArrayView {
    pub alias_name: Seq<char>,
    pub item_type: WgslTypeView,
    pub length: u32,
}

impl View for WgslArray {
    type V = WgslArrayView;

    open spec fn view(&self) -> WgslArrayView {
        WgslArrayView {
            alias_name: self.alias_name@,
            item_type: self.item_type@,
            length: self.length,
        }
    }
}

impl ShaderText for WgslArray {
    open spec fn text(&self) -> Seq<char> {
        "alias "@ + self.alias_name@ + " = array<"@ + self.item_type.name@ + ","@ + decimal_text(
            self.length as nat,
        ) + ">;\n"@
    }

    fn to_string(&self) -> (out: String) {
        let mut out = String::from_str("alias ");
        out.append(self.alias_name.as_str());
        out.append(" = array<");
        out.append(self.item_type.name.as_str());
        out.append(",");
        let length = u32_to_decimal(self.length);
        out.append(length.as_str());
        out.append(">;\n");
        out
    }
}

/// An output array, with or without an atomic counter beside it. The
/// counter is named after the item type in lower case.
#[derive(Debug)]
pub struct WgslOutputArray {
    pub arr: WgslArray,
    pub atomic_counter: bool,
}

/// The value of an output array.
pub struct WgslOutputArrayView {
    pub arr: WgslArrayView,
    pub atomic_counter: bool,
}

impl View for WgslOutputArray {
    type V = WgslOutputArrayView;

    open spec fn view(&self) -> WgslOutputArrayView {
        WgslOutputArrayView { arr: self.arr@, atomic_counter: self.atomic_counter }
    }
}

impl ShaderText for WgslOutputArray {
    open spec fn text(&self) -> Seq<char> {
        if self.atomic_counter {
            self.arr.text() + ("alias "@ + lower_text(self.arr.item_type.name@)
                + "_counter : atomic<u32>;\n"@)
        } else {
            self.arr.text()
        }
    }

    fn to_string(&self) -> (out: String) {
        let mut out = self.arr.to_string();
        if self.atomic_counter {
            let mut counter = String::from_str("alias ");
            counter.append(to_lower(self.arr.item_type.name.as_str()).as_str());
            counter.append("_counter : atomic<u32>;\n");
            out.append(counter.as_str());
        }
        out
    }
}

/// The pipeline stage of a shader. Only compute shaders can be written out.
#[derive(Clone, Copy, Debug, PartialEq, Eq, Structural)]
pub enum WgpuShaderType {
    Compute,
    Vertex,
    Fragment,
}

impl WgpuShaderType {
    /// The stage name as it stands in the entry point's attribute.
    pub fn to_string(&self) -> (out: String)
        requires
            self is Compute,
        ensures
            out@ == "compute"@,
    {
        match self {
            WgpuShaderType::Compute => String::from_str("compute"),
            WgpuShaderType::Vertex => vstd::pervasive::unreached(),
            WgpuShaderType::Fragment => vstd::pervasive::unreached(),
        }
    }
}

/// The stage and workgroup size in front of the entry point.
#[derive(Clone, Copy, Debug, PartialEq, Eq, Structural)]
pub struct WgslWorkgroupDeclaration {
    pub shader_type: WgpuShaderType,
    pub x: u32,
    pub y: u32,
    pub z: u32,
}

impl WgslWorkgroupDeclaration {
    /// The declaration line of a compute entry point.
    pub open spec fn text(&self) -> Seq<char> {
        "@"@ + "compute"@ + " @workgroup_size("@ + decimal_text(self.x as nat) + ", "@
            + decimal_text(self.y as nat) + ", "@ + decimal_text(self.z as nat) + ")\n"@
    }

    /// Writes the declaration line.
    pub fn to_string(&self) -> (out: String)
        requires
            self.shader_type is Compute,
        ensures
            out@ == self.text(),
    {
        let mut out = String::from_str("@");
        let stage = self.shader_type.to_string();
        out.append(stage.as_str());
        out.append(" @workgroup_size(");
        let x = u32_to_decimal(self.x);
        out.append(x.as_str());
        out.append(", ");
        let y = u32_to_decimal(self.y);
        out.append(y.as_str());
        out.append(", ");
        let z = u32_to_decimal(self.z);
        out.append(z.as_str());
        out.append(")\n");
        out
    }
}

/// The texts of the first `count` sections, one after the other.
pub open spec fn sections_text<T: ShaderText>(sections: Seq<T>, count: nat) -> Seq<char>
    decreases count,
{
    if count == 0 || count > sections.len() {
        seq![]
    } else {
        sections_text(sections, (count - 1) as nat) + sections[count - 1].text()
    }
}

/// Appends the texts of all sections to `out`.
pub fn append_sections<T: ShaderText>(out: &mut String, sections: &Vec<T>)
    ensures
        final(out)@ == old(out)@ + sections_text(sections@, sections@.len()),
{
    let ghost start = out@;
    let mut i: usize = 0;
    while i < sections.len()
        invariant
            i <= sections.len(),
            out@ == start + sections_text(sections@, i as nat),
        decreases sections.len() - i,
    {
        let section = sections[i].to_string();
        out.append(section.as_str());
        i = i + 1;
    }
}

/// The part of a shader module that its author wrote: constants, types,
/// buffers-backed arrays and functions, each category in declaration order.
#[derive(Debug)]
pub struct WgslShaderModuleUserPortion {
    pub module_visibility: String,
    pub module_ident: String,
    /// Module-level constants.
    pub static_consts: Vec<WgslConstAssignment>,
    /// Types that exist only on the GPU.
    pub helper_types: Vec<WgslType>,
    /// Types of the uniform (configuration) inputs.
    pub uniforms: Vec<WgslType>,
    /// Input arrays.
    pub input_arrays: Vec<WgslArray>,
    /// Output arrays.
    pub output_arrays: Vec<WgslOutputArray>,
    /// Every function but the entry point.
    pub helper_functions: Vec<WgslFunction>,
    /// The entry point, named `main`.
    pub main_function: Option<WgslFunction>,
}

/// The value of the author's part of a module.
pub struct WgslShaderModuleUserPortionView {
    pub module_visibility: Seq<char>,
    pub module_ident: Seq<char>,
    pub static_consts: Seq<WgslConstAssignmentView>,
    pub helper_types: Seq<WgslTypeView>,
    pub uniforms: Seq<WgslTypeView>,
    pub input_arrays: Seq<WgslArrayView>,
    pub output_arrays: Seq<WgslOutputArrayView>,
    pub helper_functions: Seq<WgslFunctionView>,
    pub main_function: Option<WgslFunctionView>,
}

impl View for WgslShaderModuleUserPortion {
    type V = WgslShaderModuleUserPortionView;

    open spec fn view(&self) -> WgslShaderModuleUserPortionView {
        WgslShaderModuleUserPortionView {
            module_visibility: self.module_visibility@,
            module_ident: self.module_ident@,
            static_consts: Seq::new(
                self.static_consts@.len(),
                |i: int| self.static_consts@[i]@,
            ),
            helper_types: Seq::new(self.helper_types@.len(), |i: int| self.helper_types@[i]@),
            uniforms: Seq::new(self.uniforms@.len(), |i: int| self.uniforms@[i]@),
            input_arrays: Seq::new(self.input_arrays@.len(), |i: int| self.input_arrays@[i]@),
            output_arrays: Seq::new(
                self.output_arrays@.len(),
                |i: int| self.output_arrays@[i]@,
            ),
            helper_functions: Seq::new(
                self.helper_functions@.len(),
                |i: int| self.helper_functions@[i]@,
            ),
            main_function: match self.main_function {
                Some(main) => Some(main@),
                None => None,
            },
        }
    }
}

impl ShaderText for WgslShaderModuleUserPortion {
    /// The categories in their fixed order: constants, helper types,
    /// uniforms, input arrays, output arrays, helper functions, entry point.
    open spec fn text(&self) -> Seq<char> {
        sections_text(self.static_consts@, self.static_consts@.len()) + sections_text(
            self.helper_types@,
            self.helper_types@.len(),
        ) + sections_text(self.uniforms@, self.uniforms@.len()) + sections_text(
            self.input_arrays@,
            self.input_arrays@.len(),
        ) + sections_text(self.output_arrays@, self.output_arrays@.len()) + sections_text(
            self.helper_functions@,
            self.helper_functions@.len(),
        ) + match self.main_function {
            Some(main) => main.text(),
            None => seq![],
        }
    }

    fn to_string(&self) -> (out: String) {
        let mut out = String::new();
        append_sections(&mut out, &self.static_consts);
        append_sections(&mut out, &self.helper_types);
        append_sections(&mut out, &self.uniforms);
        append_sections(&mut out, &self.input_arrays);
        append_sections(&mut out, &self.output_arrays);
        append_sections(&mut out, &self.helper_functions);
        match &self.main_function {
            Some(main) => {
                let text = main.to_string();
                out.append(text.as_str());
            },
            None => {},
        }
        out
    }
}

} // verus!
