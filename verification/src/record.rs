//! The record of a compiled shader module: every constant, type and
//! function in both languages, sorted by the role it plays, and the binding
//! slot of every buffer.

use crate::bindings::{BindingTable, BindingView};
use vstd::prelude::*;

verus! {

/// The values of a sequence of things.
pub open spec fn views<T: View>(things: Seq<T>) -> Seq<T::V> {
    Seq::new(things.len(), |i: int| things[i]@)
}

/// A piece of a module in both languages: as it was written, and as WGSL.
#[derive(Debug)]
pub struct WgslShaderModuleSectionCode {
    pub rust_code: String,
    pub wgsl_code: String,
}

/// The value of a piece of code.
pub struct CodeView {
    pub rust_code: Seq<char>,
    pub wgsl_code: Seq<char>,
}

impl View for WgslShaderModuleSectionCode {
    type V = CodeView;

    open spec fn view(&self) -> CodeView {
        CodeView { rust_code: self.rust_code@, wgsl_code: self.wgsl_code@ }
    }
}

/// A constant of a module: its name, the WGSL text of its type and of its
/// value, and its code.
#[derive(Debug)]
pub struct ConstCode {
    pub name: String,
    pub var_type: String,
    pub value: String,
    pub code: WgslShaderModuleSectionCode,
}

/// The value of a constant.
pub struct ConstCodeView {
    pub name: Seq<char>,
    pub var_type: Seq<char>,
    pub value: Seq<char>,
    pub code: CodeView,
}

impl View for ConstCode {
    type V = ConstCodeView;

    open spec fn view(&self) -> ConstCodeView {
        ConstCodeView {
            name: self.name@,
            var_type: self.var_type@,
            value: self.value@,
            code: self.code@,
        }
    }
}

/// A type or a function of a module, with its name.
#[derive(Debug)]
pub struct NamedCode {
    pub name: String,
    pub code: WgslShaderModuleSectionCode,
}

/// The value of a named piece of code.
pub struct NamedCodeView {
    pub name: Seq<char>,
    pub code: CodeView,
}

impl View for NamedCode {
    type V = NamedCodeView;

    open spec fn view(&self) -> NamedCodeView {
        NamedCodeView { name: self.name@, code: self.code@ }
    }
}

/// The item type of an output array and, for an output vector, the name of
/// the atomic counter that goes with it.
#[derive(Debug)]
pub struct OutputArrayCode {
    pub item_type: NamedCode,
    pub atomic_counter_name: Option<String>,
}

/// The value of an output array.
pub struct OutputArrayView {
    pub item_type: NamedCodeView,
    pub atomic_counter_name: Option<Seq<char>>,
}

impl View for OutputArrayCode {
    type V = OutputArrayView;

    open spec fn view(&self) -> OutputArrayView {
        OutputArrayView {
            item_type: self.item_type@,
            atomic_counter_name: match self.atomic_counter_name {
                Some(name) => Some(name@),
                None => None,
            },
        }
    }
}

/// The compiled pieces of a module, sorted by category; each category is in
/// declaration order.
#[derive(Debug)]
pub struct Sections {
    pub static_consts: Vec<ConstCode>,
    pub helper_types: Vec<NamedCode>,
    pub uniforms: Vec<NamedCode>,
    pub input_arrays: Vec<NamedCode>,
    pub output_arrays: Vec<OutputArrayCode>,
    pub helper_functions: Vec<NamedCode>,
    pub main_function: Option<NamedCode>,
}

/// The value of the compiled pieces.
pub struct SectionsView {
    pub static_consts: Seq<ConstCodeView>,
    pub helper_types: Seq<NamedCodeView>,
    pub uniforms: Seq<NamedCodeView>,
    pub input_arrays: Seq<NamedCodeView>,
    pub output_arrays: Seq<OutputArrayView>,
    pub helper_functions: Seq<NamedCodeView>,
    pub main_function: Option<NamedCodeView>,
}

impl View for Sections {
    type V = SectionsView;

    open spec fn view(&self) -> SectionsView {
        SectionsView {
            static_consts: views(self.static_consts@),
            helper_types: views(self.helper_types@),
            uniforms: views(self.uniforms@),
            input_arrays: views(self.input_arrays@),
            output_arrays: views(self.output_arrays@),
            helper_functions: views(self.helper_functions@),
            main_function: match self.main_function {
                Some(main) => Some(main@),
                None => None,
            },
        }
    }
}

/// The record of a compiled module.
#[derive(Debug)]
pub struct ShaderModule {
    pub module_visibility: String,
    pub module_ident: String,
    pub sections: Sections,
    pub binding_numbers_by_variable_name: BindingTable,
}

/// The value of a compiled module.
pub struct ShaderModuleView {
    pub module_visibility: Seq<char>,
    pub module_ident: Seq<char>,
    pub sections: SectionsView,
    pub binding_numbers_by_variable_name: Seq<BindingView>,
}

impl View for ShaderModule {
    type V = ShaderModuleView;

    open spec fn view(&self) -> ShaderModuleView {
        ShaderModuleView {
            module_visibility: self.module_visibility@,
            module_ident: self.module_ident@,
            sections: self.sections@,
            binding_numbers_by_variable_name: self.binding_numbers_by_variable_name@,
        }
    }
}

} // verus!
