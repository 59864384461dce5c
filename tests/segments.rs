use nu_kernel::segments::{fault_tss, init, usermode_selectors, SegmentTable, Selectors};
use nu_kernel::syscall::{syscall_selectors, SYSCALL_FLAG_MASK};
use x86_64::structures::tss::TaskStateSegment;

fn leaked_tss(stack_start: u64) -> &'static TaskStateSegment {
    Box::leak(Box::new(fault_tss(stack_start)))
}

#[test]
fn table_holds_five_descriptors_in_order() {
    let table = SegmentTable::new(leaked_tss(0x10_0000));
    let slots = table.table().as_raw_slice();
    assert_eq!(slots.len(), 7);
    assert_eq!(slots[0], 0);
    assert_eq!(slots[1], 0x00af9b000000ffff);
    assert_eq!(slots[2], 0x00cf93000000ffff);
    assert_eq!(slots[5], 0x00cff3000000ffff);
    assert_eq!(slots[6], 0x00affb000000ffff);
    // the task state segment takes two slots and is a present system descriptor
    assert_eq!((slots[3] >> 47) & 1, 1);
    assert_eq!((slots[3] >> 44) & 1, 0);
    assert_eq!((slots[3] >> 45) & 3, 0);
    assert_eq!(slots[3] & 0xffff, 0x67);
    assert_eq!((slots[3] >> 40) & 0xff, 0x89);
}

#[test]
fn selectors_have_fixed_values() {
    let table = SegmentTable::new(leaked_tss(0x10_0000));
    let s = table.selectors();
    assert_eq!(s.code_selector, 8);
    assert_eq!(s.data_selector, 16);
    assert_eq!(s.tss_selector, 24);
    assert_eq!(s.user_data_selector, 0x28);
    assert_eq!(s.user_code_selector, 0x30);
}

#[test]
fn selectors_are_pairwise_distinct() {
    let table = SegmentTable::new(leaked_tss(0x20_0000));
    let s = table.selectors();
    let all = [
        s.code_selector,
        s.data_selector,
        s.tss_selector,
        s.user_data_selector,
        s.user_code_selector,
    ];
    for i in 0..all.len() {
        for j in 0..all.len() {
            if i != j {
                assert_ne!(all[i], all[j]);
            }
        }
    }
    assert_eq!(s.code_selector & 3, 0);
    assert_eq!(s.data_selector & 3, 0);
    assert_eq!(s.tss_selector & 3, 0);
    assert_eq!(s.user_data_selector & 3, 0);
    assert_eq!(s.user_code_selector & 3, 0);
}

#[test]
fn second_init_adds_no_entries() {
    let mut slot: Option<SegmentTable> = None;
    assert!(init(&mut slot, leaked_tss(0x10_0000)));
    let first = slot.as_ref().unwrap().table().as_raw_slice().to_vec();
    assert_eq!(first.len(), 7);
    assert!(!init(&mut slot, leaked_tss(0x30_0000)));
    let again = slot.as_ref().unwrap().table().as_raw_slice().to_vec();
    assert_eq!(again, first);
    assert_eq!(slot.as_ref().unwrap().selectors().user_code_selector, 48);
}

#[test]
fn fault_stack_top_is_recorded() {
    let tss = fault_tss(0x10_0000);
    assert_eq!(tss.interrupt_stack_table[0].as_u64(), 0x10_0000 + 20480);
    for i in 1..7 {
        assert_eq!(tss.interrupt_stack_table[i].as_u64(), 0);
    }
}

#[test]
fn user_selectors_are_tagged_ring3() {
    let s = Selectors {
        code_selector: 8,
        data_selector: 16,
        tss_selector: 24,
        user_data_selector: 40,
        user_code_selector: 48,
    };
    assert_eq!(usermode_selectors(&s), (51, 43));
}

#[test]
fn tagging_built_selectors_leaves_the_stored_ones() {
    let table = SegmentTable::new(leaked_tss(0x10_0000));
    assert_eq!(usermode_selectors(&table.selectors()), (51, 43));
    assert_eq!(table.selectors().user_code_selector, 48);
    assert_eq!(table.selectors().user_data_selector, 40);
}

#[test]
fn syscall_selectors_follow_the_convention() {
    let table = SegmentTable::new(leaked_tss(0x10_0000));
    let s = syscall_selectors(&table);
    assert_eq!(s.cs_sysret, 51);
    assert_eq!(s.ss_sysret, 43);
    assert_eq!(s.cs_syscall, 8);
    assert_eq!(s.ss_syscall, 16);
    assert_eq!(s.cs_sysret - 16, s.ss_sysret - 8);
    assert_eq!(s.cs_syscall, s.ss_syscall - 8);
    assert_eq!(SYSCALL_FLAG_MASK, 0x200);
}
