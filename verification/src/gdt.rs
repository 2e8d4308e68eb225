//! Descriptor-table builder: assembles the Global Descriptor Table and the
//! selector set a minimal 64-bit kernel needs, with the TSS descriptor
//! pointing at the TSS that carries the dedicated double-fault stack.

use vstd::prelude::*;

use x86_64::structures::gdt::Descriptor;
use x86_64::structures::gdt::GlobalDescriptorTable;

verus! {

#[verifier::external_type_specification]
#[verifier::external_body]
pub struct ExGlobalDescriptorTable(GlobalDescriptorTable);

/// The occupied entries of a GDT, in table order, as raw 64-bit descriptor
/// words. Entry order is significant: it determines the selector of each
/// descriptor, so selectors are not portable across differently built tables.
pub uninterp spec fn gdt_entries(g: GlobalDescriptorTable) -> Seq<u64>;

/// Flat 64-bit kernel code segment: present, executable, long mode, ring 0.
pub const KERNEL_CODE_DESCRIPTOR: u64 = 0x00af9b000000ffff;

/// Flat kernel data segment: present, writable, ring 0.
pub const KERNEL_DATA_DESCRIPTOR: u64 = 0x00cf93000000ffff;

/// Flat user data segment: present, writable, ring 3.
pub const USER_DATA_DESCRIPTOR: u64 = 0x00cff3000000ffff;

/// Flat 64-bit user code segment: present, executable, long mode, ring 3.
pub const USER_CODE_DESCRIPTOR: u64 = 0x00affb000000ffff;

/// Descriptor privilege level of a descriptor word: bits 45 and 46.
pub open spec fn spec_dpl(bits: u64) -> u64 {
    (bits & 0x0000_6000_0000_0000) >> 45
}

/// A segment selector as a plain integer: the GDT index in the high bits
/// (index shifted left by three) with the requested privilege level in the
/// low two bits; for a privilege level below four the two parts occupy
/// disjoint bits, so the word equals index * 8 + rpl.
pub open spec fn spec_selector(index: int, rpl: int) -> int {
    index * 8 + rpl
}

/// For a table index below eight and a privilege level below four, the
/// shift-and-or form of a selector coincides with its arithmetic form.
pub proof fn lemma_selector_shift(index: u16, rpl: u16)
    by (bit_vector)
    requires
        index < 8,
        rpl < 4,
    ensures
        (index << 3 | rpl) == index * 8 + rpl,
{
}

/// Relies on x86_64's GlobalDescriptorTable::new: a fresh table holds exactly
/// one entry, the mandatory null descriptor.
#[verifier::external_body]
fn gdt_new() -> (r: GlobalDescriptorTable)
    ensures
        gdt_entries(r) == seq![0u64],
{
    GlobalDescriptorTable::new()
}

/// Relies on x86_64's GlobalDescriptorTable::add_entry for a code or data
/// descriptor: it appends the descriptor word (panicking only on a full
/// table, which the precondition rules out) and returns a selector made of
/// the word's table index and the word's descriptor privilege level.
#[verifier::external_body]
fn gdt_push_segment(g: &mut GlobalDescriptorTable, bits: u64) -> (r: u16)
    requires
        gdt_entries(*old(g)).len() <= 7,
    ensures
        gdt_entries(*final(g)) == gdt_entries(*old(g)).push(bits),
        r == (gdt_entries(*old(g)).len() as u16) << 3 | (spec_dpl(bits) as u16),
{
    g.add_entry(Descriptor::UserSegment(bits)).0
}

/// Relies on x86_64's GlobalDescriptorTable::add_entry for a system
/// descriptor: it appends the two descriptor words (panicking only when two
/// free slots are not left, which the precondition rules out) and returns a
/// selector for the first word, with the privilege level taken from the low
/// word.
#[verifier::external_body]
fn gdt_push_system(g: &mut GlobalDescriptorTable, low: u64, high: u64) -> (r: u16)
    requires
        gdt_entries(*old(g)).len() <= 6,
    ensures
        gdt_entries(*final(g)) == gdt_entries(*old(g)).push(low).push(high),
        r == (gdt_entries(*old(g)).len() as u16) << 3 | (spec_dpl(low) as u16),
{
    g.add_entry(Descriptor::SystemSegment(low, high)).0
}

/// Low word of the 16-byte system descriptor for a 64-bit available TSS at
/// `base`: limit 0x67 (the TSS size less one) in bits 0..16, base bits 0..24
/// in bits 16..40, type 0b1001 plus the present bit in bits 40..48, and base
/// bits 24..32 in bits 56..64.
pub open spec fn spec_tss_descriptor_low(base: u64) -> u64 {
    0x67u64 | ((base & 0xff_ffff) << 16) | (0x89u64 << 40) | (((base >> 24) & 0xff) << 56)
}

/// High word of the TSS system descriptor: base bits 32..64 in bits 0..32.
pub open spec fn spec_tss_descriptor_high(base: u64) -> u64 {
    base >> 32
}

/// Encodes the two words of the system descriptor for a 64-bit available TSS
/// located at virtual address `base`.
pub fn tss_descriptor(base: u64) -> (r: (u64, u64))
    ensures
        r.0 == spec_tss_descriptor_low(base),
        r.1 == spec_tss_descriptor_high(base),
{
    let low: u64 = 0x67u64 | ((base & 0xff_ffff) << 16) | (0x89u64 << 40) | (((base >> 24) & 0xff)
        << 56);
    let high: u64 = base >> 32;
    (low, high)
}

/// The TSS descriptor encoding is faithful: the TSS base address can be read
/// back from the two descriptor words, so distinct TSS addresses always give
/// distinct descriptors.
pub proof fn lemma_tss_descriptor_encodes_base(base: u64)
    ensures
        ((spec_tss_descriptor_low(base) >> 16) & 0xff_ffff) | (((spec_tss_descriptor_low(base)
            >> 56) & 0xff) << 24) | (spec_tss_descriptor_high(base) << 32) == base,
{
    assert(((spec_tss_descriptor_low(base) >> 16) & 0xff_ffff) | (((spec_tss_descriptor_low(base)
        >> 56) & 0xff) << 24) | (spec_tss_descriptor_high(base) << 32) == base) by (bit_vector);
}

/// The selectors for the five descriptors the builder appends, in append
/// order. Consumed read-only by the code that loads the table: the segment
/// registers take the kernel selectors, the task register takes the TSS
/// selector.
#[derive(Clone, Copy, Debug, PartialEq, Eq, Structural)]
pub struct Selectors {
    pub code_selector: u16,
    pub kernel_ds: u16,
    pub user_cs: u16,
    pub user_ds: u16,
    pub tss_selector: u16,
}

/// The selector values the builder returns, fixed by the append order: kernel
/// code at index 1 and kernel data at index 2 with privilege 0, user data at
/// index 3 and user code at index 4 with privilege 3, TSS at index 5 with
/// privilege 0.
pub open spec fn spec_selectors() -> Selectors {
    Selectors {
        code_selector: 8,
        kernel_ds: 16,
        user_ds: 27,
        user_cs: 35,
        tss_selector: 40,
    }
}

/// The full contents of the built table for a TSS at `tss_base`: the null
/// entry, the four segment descriptors in fixed order, then the two words of
/// the TSS descriptor.
pub open spec fn spec_gdt_entries(tss_base: u64) -> Seq<u64> {
    seq![
        0u64,
        KERNEL_CODE_DESCRIPTOR,
        KERNEL_DATA_DESCRIPTOR,
        USER_DATA_DESCRIPTOR,
        USER_CODE_DESCRIPTOR,
        spec_tss_descriptor_low(tss_base),
        spec_tss_descriptor_high(tss_base),
    ]
}

/// Builds the descriptor table and its selector set for the TSS at virtual
/// address `tss_base`. Descriptors are appended in a fixed order — kernel
/// code, kernel data, user data, user code, TSS — and the selector of each is
/// determined by that order; construction is pure data assembly and cannot
/// fail.
pub fn build_gdt(tss_base: u64) -> (r: (GlobalDescriptorTable, Selectors))
    ensures
        gdt_entries(r.0) == spec_gdt_entries(tss_base),
        r.1 == spec_selectors(),
{
    let mut gdt = gdt_new();
    let code_selector = gdt_push_segment(&mut gdt, KERNEL_CODE_DESCRIPTOR);
    let kernel_ds = gdt_push_segment(&mut gdt, KERNEL_DATA_DESCRIPTOR);
    let user_ds = gdt_push_segment(&mut gdt, USER_DATA_DESCRIPTOR);
    let user_cs = gdt_push_segment(&mut gdt, USER_CODE_DESCRIPTOR);
    let (tss_low, tss_high) = tss_descriptor(tss_base);
    let tss_selector = gdt_push_system(&mut gdt, tss_low, tss_high);
    proof {
        assert(spec_dpl(KERNEL_CODE_DESCRIPTOR) == 0) by (bit_vector);
        assert(spec_dpl(KERNEL_DATA_DESCRIPTOR) == 0) by (bit_vector);
        assert(spec_dpl(USER_DATA_DESCRIPTOR) == 3) by (bit_vector);
        assert(spec_dpl(USER_CODE_DESCRIPTOR) == 3) by (bit_vector);
        assert(spec_dpl(spec_tss_descriptor_low(tss_base)) == 0) by (bit_vector);
        lemma_selector_shift(1, 0);
        lemma_selector_shift(2, 0);
        lemma_selector_shift(3, 3);
        lemma_selector_shift(4, 3);
        lemma_selector_shift(5, 0);
        assert(gdt_entries(gdt) =~= spec_gdt_entries(tss_base));
    }
    (
        gdt,
        Selectors {
            code_selector,
            kernel_ds,
            user_cs,
            user_ds,
            tss_selector,
        },
    )
}

/// Selector values follow entry order: kernel code before kernel data before
/// user data before user code before the TSS selector, each selector carrying
/// its descriptor's table index and privilege level.
pub proof fn lemma_selector_order()
    ensures
        spec_selectors().code_selector < spec_selectors().kernel_ds,
        spec_selectors().kernel_ds < spec_selectors().user_ds,
        spec_selectors().user_ds < spec_selectors().user_cs,
        spec_selectors().user_cs < spec_selectors().tss_selector,
        spec_selectors().code_selector == spec_selector(1, 0),
        spec_selectors().kernel_ds == spec_selector(2, 0),
        spec_selectors().user_ds == spec_selector(3, 3),
        spec_selectors().user_cs == spec_selector(4, 3),
        spec_selectors().tss_selector == spec_selector(5, 0),
{
}

/// Each selector indexes its own descriptor in the built table: dividing the
/// selector by eight recovers the table index of the descriptor word it was
/// returned for.
pub proof fn lemma_selectors_index_entries(tss_base: u64)
    ensures
        spec_gdt_entries(tss_base)[spec_selectors().code_selector as int / 8]
            == KERNEL_CODE_DESCRIPTOR,
        spec_gdt_entries(tss_base)[spec_selectors().kernel_ds as int / 8]
            == KERNEL_DATA_DESCRIPTOR,
        spec_gdt_entries(tss_base)[spec_selectors().user_ds as int / 8] == USER_DATA_DESCRIPTOR,
        spec_gdt_entries(tss_base)[spec_selectors().user_cs as int / 8] == USER_CODE_DESCRIPTOR,
        spec_gdt_entries(tss_base)[spec_selectors().tss_selector as int / 8]
            == spec_tss_descriptor_low(tss_base),
{
}

/// Exactly one TSS descriptor exists in the built table: its two words stand
/// at indices five and six and no other entry is a system descriptor (every
/// other occupied entry has the user-segment bit, bit 44, set; a system
/// descriptor has it clear).
pub proof fn lemma_one_tss_descriptor(tss_base: u64)
    ensures
        spec_gdt_entries(tss_base).len() == 7,
        spec_gdt_entries(tss_base)[5] == spec_tss_descriptor_low(tss_base),
        spec_gdt_entries(tss_base)[6] == spec_tss_descriptor_high(tss_base),
        forall|i: int|
            1 <= i < 5 ==> #[trigger] spec_gdt_entries(tss_base)[i] & 0x0000_1000_0000_0000
                == 0x0000_1000_0000_0000,
        spec_tss_descriptor_low(tss_base) & 0x0000_1000_0000_0000 == 0,
{
    assert(KERNEL_CODE_DESCRIPTOR & 0x0000_1000_0000_0000 == 0x0000_1000_0000_0000)
        by (bit_vector);
    assert(KERNEL_DATA_DESCRIPTOR & 0x0000_1000_0000_0000 == 0x0000_1000_0000_0000)
        by (bit_vector);
    assert(USER_DATA_DESCRIPTOR & 0x0000_1000_0000_0000 == 0x0000_1000_0000_0000)
        by (bit_vector);
    assert(USER_CODE_DESCRIPTOR & 0x0000_1000_0000_0000 == 0x0000_1000_0000_0000)
        by (bit_vector);
    assert(spec_tss_descriptor_low(tss_base) & 0x0000_1000_0000_0000 == 0) by (bit_vector);
}

/// Table construction is deterministic: any two results that satisfy the
/// builder's contract for the same TSS base address hold bit-identical
/// entries and identical selectors.
pub proof fn lemma_build_deterministic(
    tss_base: u64,
    entries1: Seq<u64>,
    sels1: Selectors,
    entries2: Seq<u64>,
    sels2: Selectors,
)
    requires
        entries1 == spec_gdt_entries(tss_base),
        sels1 == spec_selectors(),
        entries2 == spec_gdt_entries(tss_base),
        sels2 == spec_selectors(),
    ensures
        entries1 == entries2,
        sels1 == sels2,
{
}

} // verus!
