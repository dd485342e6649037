//! Interrupt vector numbering.
//!
//! The two device interrupts the kernel drives: the timer, on the first
//! line after the remapped controller base, and the keyboard on the next.
//! Installing the descriptor table and acknowledging the controller are
//! hardware work and live with the embedding program.

use vstd::prelude::*;

verus! {

/// Vector base the first interrupt controller is remapped to.
pub const PIC_1_OFFSET: u8 = 32;

/// Vector base of the second, chained controller.
pub const PIC_2_OFFSET: u8 = 40;

/// The device interrupts the kernel handles.
#[derive(Debug, Clone, Copy, PartialEq, Eq, Structural)]
pub enum InterruptIndex {
    /// The periodic hardware timer.
    Timer,
    /// The keyboard controller.
    Keyboard,
}

impl InterruptIndex {
    /// The interrupt's vector number.
    pub fn as_u8(self) -> (r: u8)
        ensures
            self is Timer ==> r == PIC_1_OFFSET,
            self is Keyboard ==> r == PIC_1_OFFSET + 1,
    {
        match self {
            InterruptIndex::Timer => PIC_1_OFFSET,
            InterruptIndex::Keyboard => PIC_1_OFFSET + 1,
        }
    }

    /// The interrupt's vector number as a table index.
    pub fn as_usize(self) -> (r: usize)
        ensures
            self is Timer ==> r == PIC_1_OFFSET,
            self is Keyboard ==> r == PIC_1_OFFSET + 1,
    {
        self.as_u8() as usize
    }
}

} // verus!
