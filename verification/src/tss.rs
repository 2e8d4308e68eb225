//! Task State Segment construction: a TSS whose interrupt-stack-table slot
//! for double faults holds the provisioned exception-stack top.

use vstd::prelude::*;

use crate::stack::is_canonical;
use crate::stack::spec_stack_top;
use crate::stack::EXCEPTION_STACK_SIZE;
use x86_64::structures::tss::TaskStateSegment;
use x86_64::VirtAddr;

verus! {

/// Interrupt-stack-table index reserved for the double-fault handler. The
/// interrupt-descriptor-table entry for double faults must name this index so
/// the CPU switches to the dedicated stack before the handler runs.
pub const DOUBLE_FAULT_IST_INDEX: u16 = 0;

#[verifier::external_type_specification]
#[verifier::external_body]
pub struct ExTaskStateSegment(TaskStateSegment);

/// The interrupt stack table of a TSS: the seven stack-top addresses the CPU
/// can switch to on an exception, in slot order.
pub uninterp spec fn tss_ist(t: TaskStateSegment) -> Seq<u64>;

/// Relies on x86_64's TaskStateSegment::new: a fresh TSS has every
/// interrupt-stack-table slot zeroed.
#[verifier::external_body]
fn tss_new() -> (r: TaskStateSegment)
    ensures
        tss_ist(r) == seq![0u64, 0, 0, 0, 0, 0, 0],
{
    TaskStateSegment::new()
}

/// Relies on the public interrupt_stack_table field of x86_64's
/// TaskStateSegment and on x86_64's VirtAddr::new, which returns a canonical
/// address unchanged: stores `addr` in the given slot and touches nothing
/// else.
#[verifier::external_body]
fn tss_set_ist(t: &mut TaskStateSegment, index: usize, addr: u64)
    requires
        index < 7,
        is_canonical(addr),
    ensures
        tss_ist(*final(t)) == tss_ist(*old(t)).update(index as int, addr),
{
    t.interrupt_stack_table[index] = VirtAddr::new(addr);
}

/// The interrupt stack table this core's TSS carries: the double-fault slot
/// holds the dedicated stack top, every other slot stays zero and unused.
pub open spec fn spec_tss_ist(stack_top: u64) -> Seq<u64> {
    seq![stack_top, 0, 0, 0, 0, 0, 0]
}

/// Builds the TSS for this core: a fresh TSS whose double-fault
/// interrupt-stack-table slot holds the provisioned exception-stack top.
pub fn build_tss(stack_top: u64) -> (r: TaskStateSegment)
    requires
        is_canonical(stack_top),
    ensures
        tss_ist(r) == spec_tss_ist(stack_top),
        tss_ist(r)[DOUBLE_FAULT_IST_INDEX as int] == stack_top,
{
    let mut tss = tss_new();
    tss_set_ist(&mut tss, DOUBLE_FAULT_IST_INDEX as usize, stack_top);
    proof {
        assert(tss_ist(tss) =~= spec_tss_ist(stack_top));
    }
    tss
}

/// The double-fault slot of the TSS built for a provisioned stack holds
/// exactly (base of the reserved region) + (region size), and that address is
/// 16-byte aligned.
pub proof fn lemma_double_fault_slot(base: u64)
    requires
        base % 16 == 0,
        spec_stack_top(base) <= u64::MAX,
    ensures
        spec_tss_ist(spec_stack_top(base) as u64)[DOUBLE_FAULT_IST_INDEX as int] == base
            + EXCEPTION_STACK_SIZE,
        spec_stack_top(base) % 16 == 0,
{
}

} // verus!
