//! Core of a minimal bare-metal kernel: CPU descriptor tables with a
//! reserved alternate stack for the one fault that must never itself fault,
//! an interrupt vector table binding the two in-scope exceptions, and a
//! memory-mapped text-console driver with wrapping and scrolling.
//!
//! The privileged CPU facilities (loading table registers, the actual
//! memory-mapped writes, port output) are external collaborators: a thin
//! unverified shell binds the structures built here to the hardware.
use vstd::prelude::*;

pub mod gdt;
pub mod interrupts;
pub mod vga_buffer;

verus! {

/// Exit status reported to the host-side exit-signal observer.
#[derive(Debug, Clone, Copy, PartialEq, Eq, Structural)]
pub enum QemuExitCode {
    Success,
    Failure,
}

impl QemuExitCode {
    /// The wire value written to the exit-signal port for this status.
    pub fn code(self) -> (c: u32)
        ensures
            self is Success ==> c == 0x10,
            self is Failure ==> c == 0x11,
    {
        match self {
            QemuExitCode::Success => 0x10,
            QemuExitCode::Failure => 0x11,
        }
    }
}

} // verus!
