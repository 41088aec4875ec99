//! The order in which the buffers of a task are bound.
//!
//! The buffers themselves belong to the graphics device; here they are
//! referred to by the list they are in and their position in it.

use vstd::prelude::*;

verus! {

/// The slot of a uniform or of an input array.
#[derive(Clone, Copy, Debug, PartialEq, Eq, Structural)]
pub struct InputBinding {
    pub binding_number: u32,
}

/// The slots of an output array: its own, and that of its counter where it
/// has one.
#[derive(Clone, Copy, Debug, PartialEq, Eq, Structural)]
pub struct OutputBinding {
    pub binding_number: u32,
    pub include_count: bool,
    pub count_binding_number: Option<u32>,
}

/// A buffer of a task: the list that holds it and its position there.
#[derive(Clone, Copy, Debug, PartialEq, Eq, Structural)]
pub enum BufferRef {
    Config(usize),
    Input(usize),
    Output(usize),
    OutputCount(usize),
}

/// One entry of a bind group: a slot and the buffer bound to it.
#[derive(Clone, Copy, Debug, PartialEq, Eq, Structural)]
pub struct BindGroupEntry {
    pub binding: u32,
    pub resource: BufferRef,
}

/// What a task is missing when its bind group cannot be made.
#[derive(Clone, Copy, Debug, PartialEq, Eq, Structural)]
pub enum MissingBinding {
    /// No buffer was set for the uniform at this position.
    ConfigBuffer(usize),
    /// No buffer was set for the input array at this position.
    InputBuffer(usize),
    /// No buffer was set for the output array at this position.
    OutputBuffer(usize),
    /// No count buffer was set for the output array at this position.
    CountBuffer(usize),
    /// The output array at this position has a counter but no slot for it.
    CountBindingNumber(usize),
}

/// What a task declares and what it holds: the slots of its uniforms, input
/// arrays and output arrays, each list in declaration order, and how many
/// buffers each of its four buffer lists holds.
#[derive(Debug)]
pub struct TaskBindings {
    pub configs: Vec<InputBinding>,
    pub arrays: Vec<InputBinding>,
    pub outputs: Vec<OutputBinding>,
    pub config_buffers: usize,
    pub input_buffers: usize,
    pub output_buffers: usize,
    pub count_buffers: usize,
}

/// The entries for the first `count` uniforms.
pub open spec fn config_entries(configs: Seq<InputBinding>, count: nat) -> Seq<BindGroupEntry>
    decreases count,
{
    if count == 0 || count > configs.len() {
        seq![]
    } else {
        config_entries(configs, (count - 1) as nat).push(
            BindGroupEntry {
                binding: configs[count - 1].binding_number,
                resource: BufferRef::Config((count - 1) as usize),
            },
        )
    }
}

/// The entries for the first `count` input arrays.
pub open spec fn input_entries(arrays: Seq<InputBinding>, count: nat) -> Seq<BindGroupEntry>
    decreases count,
{
    if count == 0 || count > arrays.len() {
        seq![]
    } else {
        input_entries(arrays, (count - 1) as nat).push(
            BindGroupEntry {
                binding: arrays[count - 1].binding_number,
                resource: BufferRef::Input((count - 1) as usize),
            },
        )
    }
}

/// What the output array at `index` lacks, if anything.
pub open spec fn output_missing(task: TaskBindings, index: int) -> Option<MissingBinding> {
    let output = task.outputs@[index];
    if index >= task.output_buffers {
        Some(MissingBinding::OutputBuffer(index as usize))
    } else if output.include_count && index >= task.count_buffers {
        Some(MissingBinding::CountBuffer(index as usize))
    } else if output.include_count && output.count_binding_number is None {
        Some(MissingBinding::CountBindingNumber(index as usize))
    } else {
        None
    }
}

/// The entries of the output array at `index`: the array, then its counter.
pub open spec fn output_entries_at(task: TaskBindings, index: int) -> Seq<BindGroupEntry> {
    let output = task.outputs@[index];
    let main = BindGroupEntry {
        binding: output.binding_number,
        resource: BufferRef::Output(index as usize),
    };
    if output.include_count && output.count_binding_number is Some {
        seq![
            main,
            BindGroupEntry {
                binding: output.count_binding_number->0,
                resource: BufferRef::OutputCount(index as usize),
            },
        ]
    } else {
        seq![main]
    }
}

/// The entries for the first `count` output arrays, or what the first of
/// them that lacks something is missing.
pub open spec fn output_entries(task: TaskBindings, count: nat) -> Result<
    Seq<BindGroupEntry>,
    MissingBinding,
>
    decreases count,
{
    if count == 0 || count > task.outputs@.len() {
        Ok(seq![])
    } else {
        match output_entries(task, (count - 1) as nat) {
            Err(missing) => Err(missing),
            Ok(entries) => match output_missing(task, count - 1) {
                Some(missing) => Err(missing),
                None => Ok(entries + output_entries_at(task, count - 1)),
            },
        }
    }
}

/// The bind group of a task: uniforms, then input arrays, then output
/// arrays with their counters; or the first thing that is missing, in that
/// same order.
pub open spec fn bind_group(task: TaskBindings) -> Result<Seq<BindGroupEntry>, MissingBinding> {
    if task.configs@.len() > task.config_buffers {
        Err(MissingBinding::ConfigBuffer(task.config_buffers))
    } else if task.arrays@.len() > task.input_buffers {
        Err(MissingBinding::InputBuffer(task.input_buffers))
    } else {
        match output_entries(task, task.outputs@.len()) {
            Err(missing) => Err(missing),
            Ok(outputs) => Ok(
                config_entries(task.configs@, task.configs@.len()) + input_entries(
                    task.arrays@,
                    task.arrays@.len(),
                ) + outputs,
            ),
        }
    }
}

/// Lists the entries of a task's bind group in binding order, each with the
/// slot that the task declares for it. Fails at the first declared buffer,
/// in that order, that the task does not hold.
pub fn plan_bind_group(task: &TaskBindings) -> (result: Result<
    Vec<BindGroupEntry>,
    MissingBinding,
>)
    ensures
        match result {
            Ok(entries) => bind_group(*task) == Ok::<Seq<BindGroupEntry>, MissingBinding>(
                entries@,
            ),
            Err(missing) => bind_group(*task) == Err::<Seq<BindGroupEntry>, MissingBinding>(
                missing,
            ),
        },
{
    let mut bindings: Vec<BindGroupEntry> = Vec::new();
    let mut i: usize = 0;
    while i < task.configs.len()
        invariant
            i <= task.configs.len(),
            i <= task.config_buffers,
            bindings@ == config_entries(task.configs@, i as nat),
        decreases task.configs.len() - i,
    {
        if i >= task.config_buffers {
            return Err(MissingBinding::ConfigBuffer(i));
        }
        bindings.push(
            BindGroupEntry {
                binding: task.configs[i].binding_number,
                resource: BufferRef::Config(i),
            },
        );
        i = i + 1;
    }
    let ghost configs = bindings@;
    i = 0;
    while i < task.arrays.len()
        invariant
            i <= task.arrays.len(),
            i <= task.input_buffers,
            task.configs@.len() <= task.config_buffers,
            configs == config_entries(task.configs@, task.configs@.len()),
            bindings@ == configs + input_entries(task.arrays@, i as nat),
        decreases task.arrays.len() - i,
    {
        if i >= task.input_buffers {
            return Err(MissingBinding::InputBuffer(i));
        }
        bindings.push(
            BindGroupEntry {
                binding: task.arrays[i].binding_number,
                resource: BufferRef::Input(i),
            },
        );
        i = i + 1;
    }
    let ghost inputs = bindings@;
    i = 0;
    while i < task.outputs.len()
        invariant
            i <= task.outputs.len(),
            task.configs@.len() <= task.config_buffers,
            task.arrays@.len() <= task.input_buffers,
            inputs == config_entries(task.configs@, task.configs@.len()) + input_entries(
                task.arrays@,
                task.arrays@.len(),
            ),
            output_entries(*task, i as nat) is Ok,
            bindings@ == inputs + output_entries(*task, i as nat)->Ok_0,
        decreases task.outputs.len() - i,
    {
        let output = &task.outputs[i];
        proof {
            if output_entries(*task, (i + 1) as nat) is Err {
                lemma_first_missing(*task, (i + 1) as nat, task.outputs@.len() as nat);
            }
        }
        if i >= task.output_buffers {
            return Err(MissingBinding::OutputBuffer(i));
        }
        bindings.push(
            BindGroupEntry { binding: output.binding_number, resource: BufferRef::Output(i) },
        );
        if output.include_count {
            if i >= task.count_buffers {
                return Err(MissingBinding::CountBuffer(i));
            }
            match output.count_binding_number {
                Some(binding) => {
                    bindings.push(
                        BindGroupEntry { binding, resource: BufferRef::OutputCount(i) },
                    );
                },
                None => {
                    return Err(MissingBinding::CountBindingNumber(i));
                },
            }
        }
        i = i + 1;
    }
    Ok(bindings)
}

/// The entries of a task's bind group in binding order. It is to be called
/// only for a task that holds every buffer it declares, and stops the
/// program for any other; `plan_bind_group` is the test to make first.
pub fn create_bind_group(task: &TaskBindings) -> (entries: Vec<BindGroupEntry>)
    requires
        bind_group(*task) is Ok,
    ensures
        bind_group(*task) == Ok::<Seq<BindGroupEntry>, MissingBinding>(entries@),
{
    match plan_bind_group(task) {
        Ok(entries) => entries,
        Err(_) => vstd::pervasive::unreached(),
    }
}

/// A failure among the first outputs is the failure of the whole list.
proof fn lemma_first_missing(task: TaskBindings, shorter: nat, longer: nat)
    requires
        shorter <= longer <= task.outputs@.len(),
        output_entries(task, shorter) is Err,
    ensures
        output_entries(task, longer) == output_entries(task, shorter),
    decreases longer,
{
    if shorter < longer {
        lemma_first_missing(task, shorter, (longer - 1) as nat);
    }
}

} // verus!
