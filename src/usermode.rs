//! The one-way switch from the kernel to user mode: the frame that the
//! privileged return consumes.
use vstd::prelude::*;
use crate::context::{ReturnFrame, INTERRUPT_FLAG};
use crate::segments::{ring3, usermode_selectors, Selectors};

verus! {

/// The return frame that resumes user code at `code` with the stack at
/// `stack_end`: the user selectors tagged with ring 3, and a flags value
/// with only the interrupt-enable bit set, so no other kernel flag (the I/O
/// privilege bits among them) reaches user mode.
pub fn usermode_entry_frame(sel: &Selectors, code: u64, stack_end: u64) -> (r: ReturnFrame)
    ensures
        r == (ReturnFrame {
            rip: code,
            cs: ring3(sel.user_code_selector) as u64,
            rflags: INTERRUPT_FLAG,
            rsp: stack_end,
            ss: ring3(sel.user_data_selector) as u64,
        }),
{
    let (cs, ds) = usermode_selectors(sel);
    ReturnFrame { rip: code, cs: cs as u64, rflags: INTERRUPT_FLAG, rsp: stack_end, ss: ds as u64 }
}

} // verus!
