//! Contracts of the x86_64 primitive instructions.
//!
//! Each primitive is one machine instruction: halt, no-op, reading the
//! instruction pointer, the emulator breakpoint, and reading or writing the
//! base address of the FS or GS segment. This crate states what each of them
//! asks of its caller and what it does to the registers, which of the two
//! backends can carry it out, and how a build selects its backend. Executing
//! an instruction is left to the code that links this crate.

pub mod backend;
pub mod operation;
pub mod registers;
