//! Privilege separation and process context for a small x86-64 kernel:
//! the descriptor table and its selectors, the fast system-call selector
//! layout, the process table, and a model of the register save/restore
//! sequence and of the frame that drops the CPU to user mode.
use vstd::prelude::*;

pub mod context;
pub mod scheduler;
pub mod segments;
pub mod syscall;
pub mod testing;
pub mod usermode;

verus! {

} // verus!
