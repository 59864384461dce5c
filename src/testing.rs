//! Running kernel self-tests and the exit code reported to the emulator.
use vstd::prelude::*;

verus! {

/// A self-test the kernel can run.
pub trait Testable {
    fn run(&self);
}

/// The outcome the kernel reports to the emulator when it stops.
#[derive(Clone, Copy, Debug, PartialEq, Eq, Structural)]
pub enum QemuExitCode {
    Success,
    Failed,
}

impl QemuExitCode {
    /// The value written to the emulator's exit port.
    pub fn code(&self) -> (r: u32)
        ensures
            *self == QemuExitCode::Success ==> r == 0x10,
            *self == QemuExitCode::Failed ==> r == 0x11,
    {
        match self {
            QemuExitCode::Success => 0x10,
            QemuExitCode::Failed => 0x11,
        }
    }
}

/// Runs every test in order and reports success; a failing test panics
/// before this returns, and the panic handler reports the failure.
pub fn test_runner<T: Testable + ?Sized>(tests: &[&T]) -> (r: QemuExitCode)
    ensures
        r == QemuExitCode::Success,
{
    let mut i: usize = 0;
    while i < tests.len()
        invariant
            i <= tests@.len(),
        decreases tests@.len() - i,
    {
        tests[i].run();
        i = i + 1;
    }
    QemuExitCode::Success
}

} // verus!
