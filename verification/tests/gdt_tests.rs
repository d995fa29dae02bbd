use thompson_rust_os::gdt::{
    build_gdt, build_tss, Descriptor, GlobalDescriptorTable, DOUBLE_FAULT_IST_INDEX, KERNEL_CODE64,
    STACK_SIZE,
};

#[test]
fn kernel_code_descriptor_is_the_architecture_constant() {
    assert_eq!(KERNEL_CODE64, 0x00af9b000000ffffu64);
    assert_eq!(
        Descriptor::kernel_code_segment(),
        Descriptor::UserSegment(0x00af9b000000ffff),
    );
}

#[test]
fn tss_has_the_backup_stack_in_slot_zero() {
    let tss = build_tss(0x0010_0000);
    assert_eq!(STACK_SIZE, 4096 * 5);
    assert_eq!(
        tss.interrupt_stack_table[DOUBLE_FAULT_IST_INDEX as usize],
        0x0010_0000 + STACK_SIZE as u64,
    );
    for i in 1..7 {
        assert_eq!(tss.interrupt_stack_table[i], 0);
    }
    for i in 0..3 {
        assert_eq!(tss.privilege_stack_table[i], 0);
    }
    assert_eq!(tss.iomap_base, 104);
}

#[test]
fn tss_descriptor_packs_base_and_limit() {
    // A base address with bits in every descriptor field of the low and the
    // high quad, packed by hand here for comparison.
    let addr: u64 = 0x1234_5678_9abc_def0;
    let expected_low: u64 = 0x67 // limit: the 104-byte segment, minus one
        | ((addr & 0xFF_FFFF) << 16) // base bits 0..24
        | (0x89u64 << 40) // type 9 (available 64-bit segment) and present
        | (((addr >> 24) & 0xFF) << 56); // base bits 24..32
    let expected_high: u64 = addr >> 32;
    assert_eq!(
        Descriptor::tss_segment(addr),
        Descriptor::SystemSegment(expected_low, expected_high),
    );
}

#[test]
fn descriptor_table_appends_in_selector_order() {
    let mut gdt = GlobalDescriptorTable::new();
    assert_eq!(gdt.quads(), &vec![0u64]);
    let code = gdt.add_entry(Descriptor::kernel_code_segment());
    let tss = gdt.add_entry(Descriptor::tss_segment(0x2000));
    assert_eq!(code.raw_value(), 8); // entry 1, privilege 0
    assert_eq!(tss.raw_value(), 16); // entry 2, privilege 0
    assert_eq!(gdt.quads().len(), 4);
    assert_eq!(gdt.quads()[0], 0);
    assert_eq!(gdt.quads()[1], KERNEL_CODE64);
}

#[test]
fn build_gdt_yields_the_minimal_table() {
    let addr: u64 = 0xdead_0000;
    let (gdt, selectors) = build_gdt(addr);
    let quads = gdt.quads();
    assert_eq!(quads.len(), 4);
    assert_eq!(quads[0], 0);
    assert_eq!(quads[1], KERNEL_CODE64);
    let expected_low: u64 =
        0x67 | ((addr & 0xFF_FFFF) << 16) | (0x89u64 << 40) | (((addr >> 24) & 0xFF) << 56);
    assert_eq!(quads[2], expected_low);
    assert_eq!(quads[3], addr >> 32);
    assert_eq!(selectors.code_selector.raw_value(), 8);
    assert_eq!(selectors.tss_selector.raw_value(), 16);
}
