//! The saved register file of a process, and a model of the stack on which
//! it is saved and from which it is restored. The stack is a sequence of
//! 64-bit words; a push appends a word, so a higher index is a lower address.
//! Field `k` of a `Context` whose frame starts at index `f` is the word at
//! index `f - k`, just as it lies at address `frame + 8 * k` in memory.
use vstd::prelude::*;

verus! {

/// The flags value with only the interrupt-enable bit set.
pub const INTERRUPT_FLAG: u64 = 0x200;

/// Words reserved beyond the saved registers as a scratch guard region.
pub const SCRATCH_WORDS: usize = 128;

/// A snapshot of the CPU state: the fifteen general-purpose registers in the
/// order they lie in memory, then the frame of a privileged return.
#[derive(Clone, Copy, Debug, PartialEq, Eq, Structural)]
pub struct Context {
    pub rbp: u64,
    pub rax: u64,
    pub rbx: u64,
    pub rcx: u64,
    pub rdx: u64,
    pub rsi: u64,
    pub rdi: u64,
    pub r8: u64,
    pub r9: u64,
    pub r10: u64,
    pub r11: u64,
    pub r12: u64,
    pub r13: u64,
    pub r14: u64,
    pub r15: u64,
    pub rip: u64,
    pub cs: u64,
    pub rflags: u64,
    pub rsp: u64,
    pub ss: u64,
}

/// The frame a privileged return (`iretq`) consumes.
#[derive(Clone, Copy, Debug, PartialEq, Eq, Structural)]
pub struct ReturnFrame {
    pub rip: u64,
    pub cs: u64,
    pub rflags: u64,
    pub rsp: u64,
    pub ss: u64,
}

/// The context of a process that has never run: every register zero.
pub open spec fn zero_context() -> Context {
    Context {
        rbp: 0,
        rax: 0,
        rbx: 0,
        rcx: 0,
        rdx: 0,
        rsi: 0,
        rdi: 0,
        r8: 0,
        r9: 0,
        r10: 0,
        r11: 0,
        r12: 0,
        r13: 0,
        r14: 0,
        r15: 0,
        rip: 0,
        cs: 0,
        rflags: 0,
        rsp: 0,
        ss: 0,
    }
}

impl Default for Context {
    fn default() -> (r: Context)
        ensures
            r == zero_context(),
    {
        Context {
            rbp: 0,
            rax: 0,
            rbx: 0,
            rcx: 0,
            rdx: 0,
            rsi: 0,
            rdi: 0,
            r8: 0,
            r9: 0,
            r10: 0,
            r11: 0,
            r12: 0,
            r13: 0,
            r14: 0,
            r15: 0,
            rip: 0,
            cs: 0,
            rflags: 0,
            rsp: 0,
            ss: 0,
        }
    }
}

/// The words `capture` pushes, in push order: `r15` first, `rbp` last.
pub open spec fn saved_registers(c: Context) -> Seq<u64> {
    seq![
        c.r15,
        c.r14,
        c.r13,
        c.r12,
        c.r11,
        c.r10,
        c.r9,
        c.r8,
        c.rdi,
        c.rsi,
        c.rdx,
        c.rcx,
        c.rbx,
        c.rax,
        c.rbp,
    ]
}

/// The words of a return frame in push order: `ss` first, `rip` last.
pub open spec fn frame_words(f: ReturnFrame) -> Seq<u64> {
    seq![f.ss, f.rsp, f.rflags, f.cs, f.rip]
}

/// The return frame part of a context.
pub open spec fn frame_of(c: Context) -> ReturnFrame {
    ReturnFrame { rip: c.rip, cs: c.cs, rflags: c.rflags, rsp: c.rsp, ss: c.ss }
}

/// The scratch guard region below the saved registers.
pub open spec fn scratch() -> Seq<u64> {
    Seq::new(SCRATCH_WORDS as nat, |i: int| 0u64)
}

/// The context read from a stack whose frame (the saved `rbp`) is at `f`.
pub open spec fn context_at(s: Seq<u64>, f: int) -> Context {
    Context {
        rbp: s[f],
        rax: s[f - 1],
        rbx: s[f - 2],
        rcx: s[f - 3],
        rdx: s[f - 4],
        rsi: s[f - 5],
        rdi: s[f - 6],
        r8: s[f - 7],
        r9: s[f - 8],
        r10: s[f - 9],
        r11: s[f - 10],
        r12: s[f - 11],
        r13: s[f - 12],
        r14: s[f - 13],
        r15: s[f - 14],
        rip: s[f - 15],
        cs: s[f - 16],
        rflags: s[f - 17],
        rsp: s[f - 18],
        ss: s[f - 19],
    }
}

fn pop_word(stack: &mut Vec<u64>) -> (r: u64)
    requires
        old(stack).len() > 0,
    ensures
        r == old(stack)@.last(),
        final(stack)@ == old(stack)@.drop_last(),
{
    match stack.pop() {
        Some(w) => w,
        None => 0,
    }
}

/// Pushes a return frame, as the CPU does on an interrupt and as the switch
/// to user mode does by hand.
pub fn push_return_frame(stack: &mut Vec<u64>, f: &ReturnFrame)
    ensures
        final(stack)@ == old(stack)@ + frame_words(*f),
{
    stack.push(f.ss);
    stack.push(f.rsp);
    stack.push(f.rflags);
    stack.push(f.cs);
    stack.push(f.rip);
    assert(final(stack)@ =~= old(stack)@ + frame_words(*f));
}

/// Saves the general-purpose registers of `regs` on the stack, `r15` first
/// and `rbp` last, reserves the scratch guard region beyond them, and
/// returns the index of the saved frame (the word holding `rbp`).
pub fn capture(regs: &Context, stack: &mut Vec<u64>) -> (frame: usize)
    requires
        old(stack).len() + 15 + SCRATCH_WORDS <= usize::MAX,
    ensures
        final(stack)@ == old(stack)@ + saved_registers(*regs) + scratch(),
        frame == old(stack).len() + 14,
{
    stack.push(regs.r15);
    stack.push(regs.r14);
    stack.push(regs.r13);
    stack.push(regs.r12);
    stack.push(regs.r11);
    stack.push(regs.r10);
    stack.push(regs.r9);
    stack.push(regs.r8);
    stack.push(regs.rdi);
    stack.push(regs.rsi);
    stack.push(regs.rdx);
    stack.push(regs.rcx);
    stack.push(regs.rbx);
    stack.push(regs.rax);
    stack.push(regs.rbp);
    let frame = stack.len() - 1;
    assert(stack@ =~= old(stack)@ + saved_registers(*regs));
    let ghost base = stack@;
    let mut i: usize = 0;
    while i < SCRATCH_WORDS
        invariant
            i <= SCRATCH_WORDS,
            stack@ =~= base + Seq::new(i as nat, |j: int| 0u64),
        decreases SCRATCH_WORDS - i,
    {
        stack.push(0);
        i = i + 1;
        assert(stack@ =~= base + Seq::new(i as nat, |j: int| 0u64));
    }
    frame
}

/// Consumes a return frame from the top of the stack, as `iretq` does.
pub fn iret(stack: &mut Vec<u64>) -> (r: ReturnFrame)
    requires
        old(stack).len() >= 5,
    ensures
        final(stack)@ == old(stack)@.subrange(0, old(stack).len() - 5),
        frame_words(r) == old(stack)@.subrange(old(stack).len() - 5, old(stack).len() as int),
{
    let rip = pop_word(stack);
    let cs = pop_word(stack);
    let rflags = pop_word(stack);
    let rsp = pop_word(stack);
    let ss = pop_word(stack);
    let r = ReturnFrame { rip, cs, rflags, rsp, ss };
    assert(stack@ =~= old(stack)@.subrange(0, old(stack).len() - 5));
    assert(frame_words(r) =~= old(stack)@.subrange(old(stack).len() - 5, old(stack).len() as int));
    r
}

/// Points the stack at a captured frame, pops the registers in the reverse
/// of the order `capture` pushed them, then consumes the return frame above
/// them. Returns the context thus resumed.
pub fn restore(stack: &mut Vec<u64>, frame: usize) -> (regs: Context)
    requires
        19 <= frame < old(stack).len(),
    ensures
        regs == context_at(old(stack)@, frame as int),
        final(stack)@ == old(stack)@.subrange(0, frame - 19),
{
    stack.truncate(frame + 1);
    let rbp = pop_word(stack);
    let rax = pop_word(stack);
    let rbx = pop_word(stack);
    let rcx = pop_word(stack);
    let rdx = pop_word(stack);
    let rsi = pop_word(stack);
    let rdi = pop_word(stack);
    let r8 = pop_word(stack);
    let r9 = pop_word(stack);
    let r10 = pop_word(stack);
    let r11 = pop_word(stack);
    let r12 = pop_word(stack);
    let r13 = pop_word(stack);
    let r14 = pop_word(stack);
    let r15 = pop_word(stack);
    let f = iret(stack);
    assert(stack@ =~= old(stack)@.subrange(0, frame - 19));
    Context {
        rbp,
        rax,
        rbx,
        rcx,
        rdx,
        rsi,
        rdi,
        r8,
        r9,
        r10,
        r11,
        r12,
        r13,
        r14,
        r15,
        rip: f.rip,
        cs: f.cs,
        rflags: f.rflags,
        rsp: f.rsp,
        ss: f.ss,
    }
}

/// Capture followed by restore, with the stack untouched in between, gives
/// back every register of `v`. `with_frame` is the stack once the return
/// frame of `v` is pushed on `before`; `captured` and `frame` are the stack
/// and the frame index that `capture` then gives; the context `restore`
/// reads there is `v` itself.
pub proof fn lemma_capture_restore(
    before: Seq<u64>,
    with_frame: Seq<u64>,
    captured: Seq<u64>,
    frame: int,
    v: Context,
)
    requires
        with_frame == before + frame_words(frame_of(v)),
        captured == with_frame + saved_registers(v) + scratch(),
        frame == with_frame.len() + 14,
    ensures
        context_at(captured, frame) == v,
{
    let s = before;
    let t = s + frame_words(frame_of(v)) + saved_registers(v) + scratch();
    let n = s.len() as int;
    assert(t[n] == v.ss);
    assert(t[n + 1] == v.rsp);
    assert(t[n + 2] == v.rflags);
    assert(t[n + 3] == v.cs);
    assert(t[n + 4] == v.rip);
    assert(t[n + 5] == v.r15);
    assert(t[n + 6] == v.r14);
    assert(t[n + 7] == v.r13);
    assert(t[n + 8] == v.r12);
    assert(t[n + 9] == v.r11);
    assert(t[n + 10] == v.r10);
    assert(t[n + 11] == v.r9);
    assert(t[n + 12] == v.r8);
    assert(t[n + 13] == v.rdi);
    assert(t[n + 14] == v.rsi);
    assert(t[n + 15] == v.rdx);
    assert(t[n + 16] == v.rcx);
    assert(t[n + 17] == v.rbx);
    assert(t[n + 18] == v.rax);
    assert(t[n + 19] == v.rbp);
}

} // verus!
