use vstd::prelude::*;
use crate::pic::{send_eoi, port_write, PortWrite, PIC1_CMD, EOI};
use crate::ring::{pushed, KeyBuffer};
use crate::scancode::{char_of, handle_scancode, shift_after};

verus! {

/// Divide-error exception vector.
pub const DIVIDE_ERROR_VECTOR: u8 = 0;

/// Breakpoint exception vector.
pub const BREAKPOINT_VECTOR: u8 = 3;

/// Double-fault exception vector.
pub const DOUBLE_FAULT_VECTOR: u8 = 8;

/// General-protection-fault exception vector.
pub const GENERAL_PROTECTION_VECTOR: u8 = 13;

/// Page-fault exception vector.
pub const PAGE_FAULT_VECTOR: u8 = 14;

/// Timer interrupt vector (master line 0).
pub const TIMER_VECTOR: u8 = 32;

/// Keyboard interrupt vector (master line 1).
pub const KEYBOARD_VECTOR: u8 = 33;

/// Keyboard controller data port, read once per keyboard interrupt.
pub const KEYBOARD_DATA_PORT: u16 = 0x60;

/// Slot of the task structure's alternate-stack table used for double faults.
pub const DOUBLE_FAULT_IST_INDEX: u16 = 0;

/// What a vector of the dispatch table is routed to.
#[derive(Debug, Clone, Copy, PartialEq, Eq, Structural)]
pub enum InterruptKind {
    DivideError,
    Breakpoint,
    DoubleFault,
    GeneralProtection,
    PageFault,
    Timer,
    Keyboard,
    /// A vector with no handler of its own.
    Unexpected,
}

/// How handling an interrupt ends.
#[derive(Debug, Clone, Copy, PartialEq, Eq, Structural)]
pub enum Severity {
    /// Reported or serviced; execution continues.
    Recoverable,
    /// Reported, then the machine halts for good.
    Fatal,
}

pub open spec fn kind_of(vector: u8) -> InterruptKind {
    if vector == DIVIDE_ERROR_VECTOR {
        InterruptKind::DivideError
    } else if vector == BREAKPOINT_VECTOR {
        InterruptKind::Breakpoint
    } else if vector == DOUBLE_FAULT_VECTOR {
        InterruptKind::DoubleFault
    } else if vector == GENERAL_PROTECTION_VECTOR {
        InterruptKind::GeneralProtection
    } else if vector == PAGE_FAULT_VECTOR {
        InterruptKind::PageFault
    } else if vector == TIMER_VECTOR {
        InterruptKind::Timer
    } else if vector == KEYBOARD_VECTOR {
        InterruptKind::Keyboard
    } else {
        InterruptKind::Unexpected
    }
}

pub open spec fn severity_of(kind: InterruptKind) -> Severity {
    match kind {
        InterruptKind::Breakpoint | InterruptKind::Timer | InterruptKind::Keyboard => Severity::Recoverable,
        _ => Severity::Fatal,
    }
}

/// The handler that vector `vector` is routed to.
pub fn classify(vector: u8) -> (r: InterruptKind)
    ensures
        r == kind_of(vector),
{
    if vector == DIVIDE_ERROR_VECTOR {
        InterruptKind::DivideError
    } else if vector == BREAKPOINT_VECTOR {
        InterruptKind::Breakpoint
    } else if vector == DOUBLE_FAULT_VECTOR {
        InterruptKind::DoubleFault
    } else if vector == GENERAL_PROTECTION_VECTOR {
        InterruptKind::GeneralProtection
    } else if vector == PAGE_FAULT_VECTOR {
        InterruptKind::PageFault
    } else if vector == TIMER_VECTOR {
        InterruptKind::Timer
    } else if vector == KEYBOARD_VECTOR {
        InterruptKind::Keyboard
    } else {
        InterruptKind::Unexpected
    }
}

/// Whether handling `kind` continues or halts: CPU faults and unexpected
/// vectors are fatal, the breakpoint and the two device interrupts are not.
pub fn severity(kind: InterruptKind) -> (r: Severity)
    ensures
        r == severity_of(kind),
{
    match kind {
        InterruptKind::Breakpoint | InterruptKind::Timer | InterruptKind::Keyboard => Severity::Recoverable,
        _ => Severity::Fatal,
    }
}

/// The alternate-stack slot that a handler runs on, if any: only the double
/// fault has one, so that it never runs on a possibly corrupted stack.
pub fn stack_index(kind: InterruptKind) -> (r: Option<u16>)
    ensures
        kind == InterruptKind::DoubleFault ==> r == Some(DOUBLE_FAULT_IST_INDEX),
        kind != InterruptKind::DoubleFault ==> r == None::<u16>,
{
    match kind {
        InterruptKind::DoubleFault => Some(DOUBLE_FAULT_IST_INDEX),
        _ => None,
    }
}

/// Timer interrupt: acknowledges the interrupt and nothing else.
pub fn timer_handler() -> (r: Vec<PortWrite>)
    ensures
        r@ == seq![port_write(PIC1_CMD, EOI)],
{
    send_eoi(TIMER_VECTOR)
}

/// Keyboard interrupt, given the byte read from the keyboard data port:
/// decodes it into the shift state and key buffer, then returns the
/// end-of-interrupt writes.
pub fn keyboard_handler(shift_held: &mut bool, buffer: &mut KeyBuffer, scancode: u8) -> (r: Vec<PortWrite>)
    requires
        old(buffer).wf(),
    ensures
        final(buffer).wf(),
        *final(shift_held) == shift_after(scancode, *old(shift_held)),
        match char_of(scancode, *old(shift_held)) {
            Some(c) => final(buffer)@ == pushed(old(buffer)@, c),
            None => final(buffer)@ == old(buffer)@,
        },
        r@ == seq![port_write(PIC1_CMD, EOI)],
{
    handle_scancode(shift_held, buffer, scancode);
    send_eoi(KEYBOARD_VECTOR)
}

} // verus!
