//! Core logic of a small x86_64 kernel: keyboard input pipeline, framebuffer
//! text console, interrupt-controller programming and interrupt dispatch,
//! serial framing, a RAM-backed block device and the shell's line handling.
//! Port I/O, descriptor-table loading and the boot handoff live with the
//! caller; this crate computes what to write and keeps the state.

pub mod block_device;
pub mod framebuffer;
pub mod interrupts;
pub mod pic;
pub mod ramdisk;
pub mod ring;
pub mod scancode;
pub mod serial;
pub mod shell;
