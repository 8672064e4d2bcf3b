//! A verified core for an 8-bit handheld console: an SM83-family CPU, its
//! memory-mapped address space and a scanline-timed pixel processing unit.
//!
//! Every function states what it computes over a mathematical model of the
//! machine ([`machine::MachineState`]), and Verus proves that the executable
//! code meets that statement, never panics and never overflows.
//!
//! * [`registers`] holds the register file and its four condition flags,
//!   [`alu`] what the arithmetic and logic operations do to it.
//! * [`mmu`] routes every access to the one backing store that answers the
//!   address; [`gpu`] is the pixel processing unit behind it.
//! * [`machine`] gives each opcode its meaning, [`emulator`] executes it.
//! * [`laws`] holds what follows for every state: round trips, invariants,
//!   the boot lock, the frame hand-off and the end of every run.
//!
//! The core does no input or output. A host loads the boot image and the
//! cartridge as bytes, calls [`emulator::Emulator::run`] until the machine
//! stops, and between two calls carries the published frame to whoever
//! draws it: [`gpu::Gpu::sync`] subscribes the consumer,
//! [`gpu::Gpu::take_frame`] hands the frame out and
//! [`gpu::Gpu::acknowledge`] reports it drawn. At most one frame is in
//! flight; a second one waits, and the machine with it, until the first was
//! acknowledged.

pub mod alu;
pub mod emulator;
pub mod exit;
pub mod gpu;
pub mod laws;
pub mod machine;
pub mod mmu;
pub mod registers;
