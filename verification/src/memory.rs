//! Preflight memory guard: refuses to start when the declared output buffers
//! of all registered tasks would take more than nine tenths of the memory
//! that is available.

use vstd::prelude::*;

verus! {

/// Total memory, in bytes, that may be used for task outputs.
#[derive(Clone, Copy, Debug, PartialEq, Eq, Structural)]
pub struct RamLimit {
    pub total_mem: u64,
}

/// The two figures reported when the guard refuses.
#[derive(Clone, Copy, Debug, PartialEq, Eq, Structural)]
pub struct NotEnoughMemory {
    pub available_memory: u64,
    pub max_output_bytes: u128,
}

/// Sum of the declared maximum output sizes.
pub open spec fn total_output_bytes(tasks: Seq<usize>) -> nat
    decreases tasks.len(),
{
    if tasks.len() == 0 {
        0
    } else {
        total_output_bytes(tasks.drop_last()) + tasks.last() as nat
    }
}

/// The budget rule: outputs may take at most 90% of the available memory.
pub open spec fn fits_budget(total_bytes: nat, available_memory: nat) -> bool {
    10 * total_bytes <= 9 * available_memory
}

/// The boundary of the budget rule: a total of exactly nine tenths of the
/// available memory is accepted, every larger total is refused, and every
/// smaller total is accepted.
pub proof fn lemma_budget_boundary(total_bytes: nat, other_total: nat, available_memory: nat)
    requires
        10 * total_bytes == 9 * available_memory,
    ensures
        fits_budget(total_bytes, available_memory),
        other_total > total_bytes ==> !fits_budget(other_total, available_memory),
        other_total <= total_bytes ==> fits_budget(other_total, available_memory),
{
}

/// Checks the declared maximum output sizes of all tasks against the memory
/// limit. Succeeds exactly when ten times their sum is at most nine times
/// the available memory; otherwise reports both figures.
pub fn check_enough_memory(tasks: &Vec<usize>, ram_limit: &RamLimit) -> (result: Result<
    (),
    NotEnoughMemory,
>)
    ensures
        result is Ok <==> fits_budget(total_output_bytes(tasks@), ram_limit.total_mem as nat),
        result matches Err(e) ==> e.available_memory == ram_limit.total_mem
            && e.max_output_bytes == total_output_bytes(tasks@),
{
    let mut total_bytes: u128 = 0;
    let mut i: usize = 0;
    while i < tasks.len()
        invariant
            i <= tasks.len(),
            total_bytes == total_output_bytes(tasks@.subrange(0, i as int)),
            total_bytes <= i * usize::MAX,
        decreases tasks.len() - i,
    {
        proof {
            let next = tasks@.subrange(0, i + 1);
            assert(next.drop_last() =~= tasks@.subrange(0, i as int));
        }
        total_bytes = total_bytes + tasks[i] as u128;
        i = i + 1;
    }
    assert(tasks@.subrange(0, i as int) =~= tasks@);
    let available_memory: u64 = ram_limit.total_mem;
    if total_bytes <= available_memory as u128 && 10 * total_bytes <= 9 * (available_memory
        as u128) {
        Ok(())
    } else {
        Err(NotEnoughMemory { available_memory, max_output_bytes: total_bytes })
    }
}

/// The guard itself: it is to be called only where the outputs fit the
/// budget, and stops the program where they do not. `check_enough_memory`
/// is the test to make first.
pub fn verify_have_enough_memory(tasks: &Vec<usize>, ram_limit: &RamLimit)
    requires
        fits_budget(total_output_bytes(tasks@), ram_limit.total_mem as nat),
{
    match check_enough_memory(tasks, ram_limit) {
        Ok(_) => {},
        Err(_) => vstd::pervasive::unreached(),
    }
}

} // verus!
