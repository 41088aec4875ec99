//! Allocation of binding slots to the buffers of a shader module.
//!
//! Slots are handed out from one counter, in the order uniforms, input
//! arrays, output arrays; the counter of an output vector takes the slot
//! right after its array.

use crate::custom_type::{custom_types_view, CustomType, CustomTypeKind, CustomTypeView};
use crate::custom_type_idents::{counter_name, input_array_name, output_array_name, uniform_name};
use crate::error::UnsupportedSyntax;
use vstd::prelude::*;

verus! {

/// The slot that the first buffer gets.
pub const FIRST_BINDING: u32 = 1;

/// The three categories of buffers, in the order in which slots are given.
#[derive(Clone, Copy, Debug, PartialEq, Eq, Structural)]
pub enum BufferCategory {
    Uniforms,
    InputArrays,
    OutputArrays,
}

/// One buffer variable and its slot.
#[derive(Debug)]
pub struct Binding {
    pub variable_name: String,
    pub binding_number: u32,
}

/// The value of a binding.
pub struct BindingView {
    pub variable_name: Seq<char>,
    pub binding_number: int,
}

impl View for Binding {
    type V = BindingView;

    open spec fn view(&self) -> BindingView {
        BindingView {
            variable_name: self.variable_name@,
            binding_number: self.binding_number as int,
        }
    }
}

/// The values of a list of bindings.
pub open spec fn bindings_view(bindings: Seq<Binding>) -> Seq<BindingView> {
    Seq::new(bindings.len(), |i: int| bindings[i]@)
}

/// The buffer variables that one declared type has in a category.
pub open spec fn variables_of(custom_type: CustomTypeView, category: BufferCategory) -> Seq<
    Seq<char>,
> {
    match (category, custom_type.kind) {
        (BufferCategory::Uniforms, CustomTypeKind::Uniform) => seq![
            uniform_name(custom_type.name),
        ],
        (BufferCategory::InputArrays, CustomTypeKind::InputArray) => seq![
            input_array_name(custom_type.name),
        ],
        (BufferCategory::OutputArrays, CustomTypeKind::OutputArray) => seq![
            output_array_name(custom_type.name),
        ],
        (BufferCategory::OutputArrays, CustomTypeKind::OutputVec) => seq![
            output_array_name(custom_type.name),
            counter_name(custom_type.name),
        ],
        _ => seq![],
    }
}

/// The buffer variables that the first `count` declared types have in a
/// category, in declaration order.
pub open spec fn category_variables(
    types: Seq<CustomTypeView>,
    category: BufferCategory,
    count: nat,
) -> Seq<Seq<char>>
    decreases count,
{
    if count == 0 || count > types.len() {
        seq![]
    } else {
        category_variables(types, category, (count - 1) as nat) + variables_of(
            types[count - 1],
            category,
        )
    }
}

/// All buffer variables of a module in slot order.
pub open spec fn bound_variables(types: Seq<CustomTypeView>) -> Seq<Seq<char>> {
    category_variables(types, BufferCategory::Uniforms, types.len()) + category_variables(
        types,
        BufferCategory::InputArrays,
        types.len(),
    ) + category_variables(types, BufferCategory::OutputArrays, types.len())
}

/// The table that gives the variable at position `i` the slot `first + i`.
pub open spec fn numbered(variables: Seq<Seq<char>>, first: int) -> Seq<BindingView> {
    Seq::new(
        variables.len(),
        |i: int| BindingView { variable_name: variables[i], binding_number: first + i },
    )
}

/// Whether `count` slots, counted from `first`, are all 32-bit numbers.
pub open spec fn slots_fit(count: nat, first: int) -> bool {
    first + count <= u32::MAX + 1
}

/// The binding table of a module with the given declared types.
pub open spec fn binding_table(types: Seq<CustomTypeView>) -> Seq<BindingView> {
    numbered(bound_variables(types), FIRST_BINDING as int)
}

/// Slot numbers are gapless and strictly increasing in table order, hence
/// no two entries share a slot; and the table lists the uniforms first,
/// then the input arrays, then the output arrays.
pub proof fn lemma_binding_numbers(types: Seq<CustomTypeView>)
    ensures
        forall|i: int|
            0 <= i < binding_table(types).len() ==> (#[trigger] binding_table(
                types,
            )[i]).binding_number == FIRST_BINDING + i,
        forall|i: int, j: int|
            0 <= i < j < binding_table(types).len() ==> (#[trigger] binding_table(
                types,
            )[i]).binding_number < (#[trigger] binding_table(types)[j]).binding_number,
        binding_table(types).len() == bound_variables(types).len(),
        forall|i: int|
            0 <= i < binding_table(types).len() ==> (#[trigger] binding_table(
                types,
            )[i]).variable_name == bound_variables(types)[i],
{
}

/// Within the output category an output vector's counter directly follows
/// its array: the type declared at `index` contributes its variables as one
/// block, after those of the types declared before it.
pub proof fn lemma_category_block(types: Seq<CustomTypeView>, category: BufferCategory, index: int)
    requires
        0 <= index < types.len(),
    ensures
        category_variables(types, category, (index + 1) as nat) == category_variables(
            types,
            category,
            index as nat,
        ) + variables_of(types[index], category),
        category_variables(types, category, (index + 1) as nat).is_prefix_of(
            category_variables(types, category, types.len()),
        ),
{
    lemma_category_prefix(types, category, (index + 1) as nat, types.len());
}

/// The table is complete: every buffer variable of every declared type has
/// an entry in it.
pub proof fn lemma_every_buffer_is_bound(
    types: Seq<CustomTypeView>,
    category: BufferCategory,
    index: int,
    which: int,
)
    requires
        0 <= index < types.len(),
        0 <= which < variables_of(types[index], category).len(),
    ensures
        exists|slot: int|
            0 <= slot < binding_table(types).len() && (#[trigger] binding_table(
                types,
            )[slot]).variable_name == variables_of(types[index], category)[which],
{
    lemma_category_block(types, category, index);
    let uniforms = category_variables(types, BufferCategory::Uniforms, types.len());
    let inputs = category_variables(types, BufferCategory::InputArrays, types.len());
    let within = category_variables(types, category, index as nat).len() + which;
    let block = category_variables(types, category, (index + 1) as nat);
    assert(category_variables(types, category, types.len())[within] == block[within]);
    let slot = match category {
        BufferCategory::Uniforms => within,
        BufferCategory::InputArrays => uniforms.len() + within,
        BufferCategory::OutputArrays => uniforms.len() + inputs.len() + within,
    };
    assert(binding_table(types)[slot].variable_name == bound_variables(types)[slot]);
}

proof fn lemma_category_prefix(
    types: Seq<CustomTypeView>,
    category: BufferCategory,
    shorter: nat,
    longer: nat,
)
    requires
        shorter <= longer <= types.len(),
    ensures
        category_variables(types, category, shorter).is_prefix_of(
            category_variables(types, category, longer),
        ),
    decreases longer,
{
    if shorter < longer {
        lemma_category_prefix(types, category, shorter, (longer - 1) as nat);
    }
}

/// The slots of a module's buffers, in slot order.
#[derive(Debug)]
pub struct BindingTable {
    pub entries: Vec<Binding>,
}

impl View for BindingTable {
    type V = Seq<BindingView>;

    open spec fn view(&self) -> Seq<BindingView> {
        bindings_view(self.entries@)
    }
}

/// The slot of the first entry for `name` at or after `from`.
pub open spec fn slot_from(table: Seq<BindingView>, name: Seq<char>, from: int) -> Option<int>
    decreases table.len() - from,
{
    if from < 0 || from >= table.len() {
        None
    } else if table[from].variable_name == name {
        Some(table[from].binding_number)
    } else {
        slot_from(table, name, from + 1)
    }
}

fn push_category(
    variables: &mut Vec<String>,
    custom_types: &Vec<CustomType>,
    category: BufferCategory,
)
    ensures
        strings_view(final(variables)@) == strings_view(old(variables)@) + category_variables(
            custom_types_view(custom_types@),
            category,
            custom_types@.len(),
        ),
{
    let ghost types = custom_types_view(custom_types@);
    let ghost start = strings_view(variables@);
    let mut i: usize = 0;
    while i < custom_types.len()
        invariant
            i <= custom_types.len(),
            types == custom_types_view(custom_types@),
            strings_view(variables@) == start + category_variables(types, category, i as nat),
        decreases custom_types.len() - i,
    {
        let custom_type = &custom_types[i];
        let ghost before = strings_view(variables@);
        match (category, custom_type.kind) {
            (BufferCategory::Uniforms, CustomTypeKind::Uniform) => {
                variables.push(custom_type.name.uniform());
            },
            (BufferCategory::InputArrays, CustomTypeKind::InputArray) => {
                variables.push(custom_type.name.input_array());
            },
            (BufferCategory::OutputArrays, CustomTypeKind::OutputArray) => {
                variables.push(custom_type.name.output_array());
            },
            (BufferCategory::OutputArrays, CustomTypeKind::OutputVec) => {
                variables.push(custom_type.name.output_array());
                variables.push(custom_type.name.counter());
            },
            _ => {},
        }
        assert(strings_view(variables@) =~= before + variables_of(types[i as int], category));
        i = i + 1;
    }
}

/// The values of a list of strings.
pub open spec fn strings_view(strings: Seq<String>) -> Seq<Seq<char>> {
    Seq::new(strings.len(), |i: int| strings[i]@)
}

impl BindingTable {
    /// Gives every buffer of the module its slot: uniforms first, then input
    /// arrays, then output arrays, each category in declaration order, the
    /// counter of an output vector right after its array. Fails only where
    /// the slot numbers would not fit in 32 bits.
    pub fn allocate(custom_types: &Vec<CustomType>) -> (result: Result<
        BindingTable,
        UnsupportedSyntax,
    >)
        ensures
            result is Ok <==> slots_fit(
                bound_variables(custom_types_view(custom_types@)).len(),
                FIRST_BINDING as int,
            ),
            match result {
                Ok(table) => table@ == binding_table(custom_types_view(custom_types@)),
                Err(error) => error == UnsupportedSyntax::TooManyBindings,
            },
    {
        BindingTable::allocate_from(custom_types, FIRST_BINDING)
    }

    /// Gives every buffer of the module its slot, counting from `first`.
    /// Fails exactly when a slot number would not fit in 32 bits.
    pub fn allocate_from(custom_types: &Vec<CustomType>, first: u32) -> (result: Result<
        BindingTable,
        UnsupportedSyntax,
    >)
        ensures
            result is Ok <==> slots_fit(
                bound_variables(custom_types_view(custom_types@)).len(),
                first as int,
            ),
            match result {
                Ok(table) => table@ == numbered(
                    bound_variables(custom_types_view(custom_types@)),
                    first as int,
                ),
                Err(error) => error == UnsupportedSyntax::TooManyBindings,
            },
    {
        let mut variables: Vec<String> = Vec::new();
        push_category(&mut variables, custom_types, BufferCategory::Uniforms);
        push_category(&mut variables, custom_types, BufferCategory::InputArrays);
        push_category(&mut variables, custom_types, BufferCategory::OutputArrays);
        if variables.len() > 0 && variables.len() - 1 > (u32::MAX - first) as usize {
            return Err(UnsupportedSyntax::TooManyBindings);
        }
        let ghost names = strings_view(variables@);
        let mut entries: Vec<Binding> = Vec::new();
        let mut i: usize = 0;
        while i < variables.len()
            invariant
                i <= variables.len(),
                variables.len() + first <= u32::MAX + 1,
                names == strings_view(variables@),
                entries.len() == i,
                forall|k: int|
                    0 <= k < i ==> (#[trigger] entries@[k])@ == (BindingView {
                        variable_name: names[k],
                        binding_number: first + k,
                    }),
            decreases variables.len() - i,
        {
            let binding = Binding {
                variable_name: variables[i].clone(),
                binding_number: first + i as u32,
            };
            entries.push(binding);
            i = i + 1;
        }
        let table = BindingTable { entries };
        Ok(table)
    }

    /// The slot of the buffer variable `name`; the first entry counts.
    pub fn get(&self, name: &str) -> (slot: Option<u32>)
        ensures
            match slot {
                Some(number) => slot_from(self@, name@, 0) == Some(number as int),
                None => slot_from(self@, name@, 0) is None,
            },
    {
        let mut i: usize = 0;
        while i < self.entries.len()
            invariant
                i <= self.entries.len(),
                slot_from(self@, name@, 0) == slot_from(self@, name@, i as int),
            decreases self.entries.len() - i,
        {
            if self.entries[i].variable_name.as_str().eq(name) {
                return Some(self.entries[i].binding_number);
            }
            i = i + 1;
        }
        None
    }
}

} // verus!
