//! The selector layout of the fast system-call path.
use vstd::prelude::*;
use crate::segments::{lemma_standard_selector_values, ring3, usermode_selectors, SegmentTable, RING3};

verus! {

/// The CPU flags cleared on entry to a system call: the interrupt flag, so
/// the entry code runs with interrupts off.
pub const SYSCALL_FLAG_MASK: u64 = 0x200;

/// The four selectors the system-call register is written with.
#[derive(Clone, Copy, Debug, PartialEq, Eq, Structural)]
pub struct StarSelectors {
    pub cs_sysret: u16,
    pub ss_sysret: u16,
    pub cs_syscall: u16,
    pub ss_syscall: u16,
}

/// The hardware convention: on return the stack selector sits 8 below the
/// code selector and requests ring 3; on entry the stack selector sits 8
/// above the code selector and requests ring 0.
pub open spec fn star_layout_ok(s: StarSelectors) -> bool {
    &&& s.cs_sysret >= 16
    &&& s.ss_sysret >= 8
    &&& s.ss_syscall >= 8
    &&& s.cs_sysret - 16 == s.ss_sysret - 8
    &&& s.cs_syscall == s.ss_syscall - 8
    &&& s.ss_sysret & RING3 == RING3
    &&& s.ss_syscall & RING3 == 0
}

/// The selectors for the system-call register: user code and data, tagged
/// with ring 3, for the return; kernel code and data for the entry.
pub fn syscall_selectors(t: &SegmentTable) -> (r: StarSelectors)
    requires
        t.wf(),
    ensures
        r == (StarSelectors {
            cs_sysret: ring3(t.selectors_spec().user_code_selector),
            ss_sysret: ring3(t.selectors_spec().user_data_selector),
            cs_syscall: t.selectors_spec().code_selector,
            ss_syscall: t.selectors_spec().data_selector,
        }),
        star_layout_ok(r),
{
    let sel = t.selectors();
    proof {
        lemma_standard_selector_values();
        assert(43u16 & 3u16 == 3 && 16u16 & 3u16 == 0) by (bit_vector);
    }
    let (user_code, user_data) = usermode_selectors(&sel);
    StarSelectors {
        cs_sysret: user_code,
        ss_sysret: user_data,
        cs_syscall: sel.code_selector,
        ss_syscall: sel.data_selector,
    }
}

/// The kernel's handler for a system call; no call is served yet.
pub fn syscall_handler() {
}

} // verus!
