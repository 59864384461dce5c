use nu_kernel::scheduler::ProcessTable;
use nu_kernel::testing::{test_runner, QemuExitCode, Testable};
use nu_kernel::syscall::syscall_handler;
use std::cell::Cell;
use x86_64::structures::paging::PageTable;

fn page_table() -> Box<PageTable> {
    Box::new(PageTable::new())
}

#[test]
fn create_before_init_is_unavailable() {
    let mut t = ProcessTable::new();
    assert!(!t.is_ready());
    assert_eq!(t.create_thread(page_table()), None);
    assert_eq!(t.len(), 0);
}

#[test]
fn first_pids_are_one_and_two() {
    let mut t = ProcessTable::new();
    t.init_sched();
    assert_eq!(t.create_thread(page_table()), Some(1));
    assert_eq!(t.create_thread(page_table()), Some(2));
    assert_eq!(t.len(), 2);
    assert_eq!(t.process(0).pid(), 1);
    assert_eq!(t.process(1).pid(), 2);
}

#[test]
fn init_sched_twice_keeps_the_table() {
    let mut t = ProcessTable::new();
    t.init_sched();
    assert_eq!(t.create_thread(page_table()), Some(1));
    t.init_sched();
    assert_eq!(t.len(), 1);
    assert_eq!(t.create_thread(page_table()), Some(2));
}

#[test]
fn two_creations_give_two_distinct_pids() {
    let mut t = ProcessTable::new();
    t.init_sched();
    let a = t.create_thread(page_table()).unwrap();
    let b = t.create_thread(page_table()).unwrap();
    assert_ne!(a, b);
    assert_eq!(t.len(), 2);
    let mut pids = vec![t.process(0).pid(), t.process(1).pid()];
    pids.sort();
    assert_eq!(pids, {
        let mut v = vec![a, b];
        v.sort();
        v
    });
}

#[test]
fn pids_increase_and_contexts_start_zeroed() {
    let mut t = ProcessTable::new();
    t.init_sched();
    for _ in 0..5 {
        t.create_thread(page_table());
    }
    for i in 1..t.len() {
        assert!(t.process(i - 1).pid() < t.process(i).pid());
    }
    let c = t.process(4).context();
    assert_eq!(c.rip, 0);
    assert_eq!(c.rsp, 0);
    assert_eq!(c.rax, 0);
}

#[test]
fn process_keeps_its_page_table() {
    let mut t = ProcessTable::new();
    t.init_sched();
    let mut pt = Box::new(PageTable::new());
    pt[0].set_addr(
        x86_64::PhysAddr::new(0x5000),
        x86_64::structures::paging::PageTableFlags::PRESENT,
    );
    t.create_thread(pt);
    assert_eq!(t.process(0).page_table()[0].addr().as_u64(), 0x5000);
}

struct Counting<'a>(&'a Cell<u32>);

impl Testable for Counting<'_> {
    fn run(&self) {
        self.0.set(self.0.get() + 1);
    }
}

#[test]
fn runner_runs_every_test() {
    let n = Cell::new(0);
    let a = Counting(&n);
    let b = Counting(&n);
    let tests: [&dyn Testable; 2] = [&a, &b];
    assert_eq!(test_runner(&tests), QemuExitCode::Success);
    assert_eq!(n.get(), 2);
}

#[test]
fn exit_codes() {
    assert_eq!(QemuExitCode::Success.code(), 0x10);
    assert_eq!(QemuExitCode::Failed.code(), 0x11);
    syscall_handler();
}
