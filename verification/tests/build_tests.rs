use gdt_boot::gdt::build_gdt;
use gdt_boot::gdt::tss_descriptor;
use gdt_boot::gdt::KERNEL_CODE_DESCRIPTOR;
use gdt_boot::gdt::KERNEL_DATA_DESCRIPTOR;
use gdt_boot::gdt::USER_CODE_DESCRIPTOR;
use gdt_boot::gdt::USER_DATA_DESCRIPTOR;
use gdt_boot::stack::exception_stack_top;
use gdt_boot::stack::EXCEPTION_STACK_SIZE;
use gdt_boot::tss::build_tss;
use gdt_boot::tss::DOUBLE_FAULT_IST_INDEX;
use x86_64::VirtAddr;

#[test]
fn stack_top_is_base_plus_size() {
    let top = exception_stack_top(0x10000);
    assert_eq!(top, 0x10000 + EXCEPTION_STACK_SIZE);
    assert_eq!(top, 0x15000);
    assert_eq!(top % 16, 0);
}

#[test]
fn stack_size_is_positive_and_aligned() {
    assert!(EXCEPTION_STACK_SIZE > 0);
    assert_eq!(EXCEPTION_STACK_SIZE, 4096 * 5);
    assert_eq!(EXCEPTION_STACK_SIZE % 16, 0);
}

#[test]
fn tss_double_fault_slot_holds_stack_top() {
    let top = exception_stack_top(0x4000);
    let tss = build_tss(top);
    let ist = tss.interrupt_stack_table;
    assert_eq!(ist[DOUBLE_FAULT_IST_INDEX as usize], VirtAddr::new(top));
    for slot in 1..7 {
        assert_eq!(ist[slot], VirtAddr::new(0));
    }
}

#[test]
fn selectors_match_entry_order() {
    let (_gdt, selectors) = build_gdt(0x7fff_1234);
    assert_eq!(selectors.code_selector, 0x08);
    assert_eq!(selectors.kernel_ds, 0x10);
    assert_eq!(selectors.user_ds, 0x1b);
    assert_eq!(selectors.user_cs, 0x23);
    assert_eq!(selectors.tss_selector, 0x28);
    assert!(selectors.code_selector < selectors.kernel_ds);
    assert!(selectors.kernel_ds < selectors.user_ds);
    assert!(selectors.user_ds < selectors.user_cs);
    assert!(selectors.user_cs < selectors.tss_selector);
}

#[test]
fn gdt_entries_are_exact() {
    let base: u64 = 0x0000_0012_3456_7890;
    let (gdt, _selectors) = build_gdt(base);
    let (low, high) = tss_descriptor(base);
    assert_eq!(
        gdt.as_raw_slice(),
        &[
            0,
            KERNEL_CODE_DESCRIPTOR,
            KERNEL_DATA_DESCRIPTOR,
            USER_DATA_DESCRIPTOR,
            USER_CODE_DESCRIPTOR,
            low,
            high,
        ]
    );
}

#[test]
fn tss_descriptor_exact_value() {
    let (low, high) = tss_descriptor(0x0000_0012_3456_7890);
    assert_eq!(low, 0x3400_8956_7890_0067);
    assert_eq!(high, 0x0000_0000_0000_0012);
}

#[test]
fn tss_descriptor_of_zero_base() {
    let (low, high) = tss_descriptor(0);
    assert_eq!(low, 0x0000_8900_0000_0067);
    assert_eq!(high, 0);
}

#[test]
fn construction_is_deterministic() {
    let base: u64 = 0x5555_0000;
    let (gdt1, sel1) = build_gdt(base);
    let (gdt2, sel2) = build_gdt(base);
    assert_eq!(gdt1.as_raw_slice(), gdt2.as_raw_slice());
    assert_eq!(sel1, sel2);

    let top = exception_stack_top(0x8000);
    let tss1 = build_tss(top);
    let tss2 = build_tss(top);
    let ist1 = tss1.interrupt_stack_table;
    let ist2 = tss2.interrupt_stack_table;
    assert_eq!(ist1, ist2);
}
