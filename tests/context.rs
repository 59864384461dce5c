use nu_kernel::context::{capture, iret, push_return_frame, restore, Context, ReturnFrame};
use nu_kernel::segments::Selectors;
use nu_kernel::usermode::usermode_entry_frame;

fn sample() -> Context {
    Context {
        rbp: 1,
        rax: 2,
        rbx: 3,
        rcx: 4,
        rdx: 5,
        rsi: 6,
        rdi: 7,
        r8: 8,
        r9: 9,
        r10: 10,
        r11: 11,
        r12: 12,
        r13: 13,
        r14: 14,
        r15: 15,
        rip: 0x40_1000,
        cs: 51,
        rflags: 0x246,
        rsp: 0x7fff_0000,
        ss: 43,
    }
}

fn frame_of(c: &Context) -> ReturnFrame {
    ReturnFrame { rip: c.rip, cs: c.cs, rflags: c.rflags, rsp: c.rsp, ss: c.ss }
}

#[test]
fn default_context_is_zero() {
    let c = Context::default();
    assert_eq!(c.rbp, 0);
    assert_eq!(c.r15, 0);
    assert_eq!(c.rip, 0);
    assert_eq!(c.rflags, 0);
    assert_eq!(c.ss, 0);
}

#[test]
fn capture_pushes_in_fixed_order() {
    let v = sample();
    let mut stack: Vec<u64> = vec![99, 98];
    let frame = capture(&v, &mut stack);
    assert_eq!(frame, 16);
    assert_eq!(stack.len(), 2 + 15 + 128);
    assert_eq!(&stack[2..17], &[15, 14, 13, 12, 11, 10, 9, 8, 7, 6, 5, 4, 3, 2, 1]);
    assert!(stack[17..].iter().all(|w| *w == 0));
}

#[test]
fn restore_after_capture_gives_back_the_registers() {
    let v = sample();
    let mut stack: Vec<u64> = vec![7, 7, 7];
    push_return_frame(&mut stack, &frame_of(&v));
    let frame = capture(&v, &mut stack);
    let back = restore(&mut stack, frame);
    assert_eq!(back, v);
    assert_eq!(stack, vec![7, 7, 7]);
}

#[test]
fn iret_consumes_the_pushed_frame() {
    let f = ReturnFrame { rip: 1, cs: 2, rflags: 3, rsp: 4, ss: 5 };
    let mut stack: Vec<u64> = Vec::new();
    push_return_frame(&mut stack, &f);
    assert_eq!(stack, vec![5, 4, 3, 2, 1]);
    assert_eq!(iret(&mut stack), f);
    assert!(stack.is_empty());
}

#[test]
fn usermode_frame_sets_only_the_interrupt_flag() {
    let s = Selectors {
        code_selector: 8,
        data_selector: 16,
        tss_selector: 24,
        user_data_selector: 40,
        user_code_selector: 48,
    };
    let f = usermode_entry_frame(&s, 0x40_0000, 0x80_0000);
    assert_eq!(f.rip, 0x40_0000);
    assert_eq!(f.rsp, 0x80_0000);
    assert_eq!(f.cs, 51);
    assert_eq!(f.ss, 43);
    assert_eq!(f.rflags, 0x200);
}
