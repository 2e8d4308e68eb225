//! Exception-stack provisioner: computes the stack-top address for the
//! statically reserved double-fault stack region.

use vstd::prelude::*;

verus! {

/// Size in bytes of the reserved exception-stack region. The figure is a
/// generous fixed margin for a bootstrap fault handler, not a verified bound
/// on handler stack depth; it is a tunable constant.
pub const EXCEPTION_STACK_SIZE: u64 = 4096 * 5;

/// A virtual address is canonical when bits 47 through 63 are all zero or all
/// one; only such addresses may enter hardware address fields.
pub open spec fn is_canonical(a: u64) -> bool {
    a < 0x0000_8000_0000_0000 || a >= 0xffff_8000_0000_0000
}

/// The stack top of the reserved region: its base plus its size, since stacks
/// grow downward from the top.
pub open spec fn spec_stack_top(base: u64) -> int {
    base + EXCEPTION_STACK_SIZE
}

/// Computes the address the CPU will load into its stack pointer when it
/// switches to the dedicated exception stack: one byte past the end of the
/// reserved region that starts at `base`. The base must be 16-byte aligned
/// (so the top is a valid stack pointer) and the whole region must lie within
/// one canonical half of the address space.
pub fn exception_stack_top(base: u64) -> (r: u64)
    requires
        base % 16 == 0,
        spec_stack_top(base) < 0x0000_8000_0000_0000 || (base >= 0xffff_8000_0000_0000
            && spec_stack_top(base) <= u64::MAX),
    ensures
        r == spec_stack_top(base),
        r % 16 == 0,
        is_canonical(r),
{
    base + EXCEPTION_STACK_SIZE
}

/// The reserved exception-stack region is non-empty: with a zero-sized region
/// the "dedicated" stack top would coincide with the region base and the
/// double-fault handler would run without any reserved room at all. A build
/// in which the size constant is set to zero fails verification here.
pub proof fn lemma_exception_stack_nonempty()
    ensures
        EXCEPTION_STACK_SIZE > 0,
        forall|base: u64| spec_stack_top(base) > base,
{
}

/// The provisioned stack top keeps the base's 16-byte alignment: the region
/// size is itself a multiple of 16.
pub proof fn lemma_stack_top_aligned(base: u64)
    requires
        base % 16 == 0,
    ensures
        spec_stack_top(base) % 16 == 0,
{
}

} // verus!
