//! The primitive operations and what each asks of and gives to its caller.
//!
//! An operation is stateless: it exists for the length of one call. What is
//! fixed about it is its call contract, and that is what this module holds:
//! its name, whether it takes a value and whether it returns one, what kind of
//! effect it has, whether it is safe, and the one instruction it stands for.

use vstd::prelude::*;

verus! {

/// A segment register whose base address has its own read and write
/// instruction.
#[derive(Clone, Copy, Debug, PartialEq, Eq, Structural)]
pub enum Segment {
    Fs,
    Gs,
}

/// What an operation does besides taking up an instruction slot.
#[derive(Clone, Copy, Debug, PartialEq, Eq, Structural)]
pub enum SideEffect {
    /// The processor stops executing until an interrupt is delivered.
    Suspend,
    /// A register receives a new value.
    RegisterWrite,
    /// A register is read out.
    RegisterRead,
    /// An emulator that watches for the instruction stops in its debugger.
    DebuggerTrap,
}

/// Whether an operation may be called freely or rests on something that only
/// its caller can know.
#[derive(Clone, Copy, Debug, PartialEq, Eq, Structural)]
pub enum Safety {
    /// Nothing is asked of the caller.
    Safe,
    /// The caller has made sure that `CR4.FSGSBASE` is set, and that a new
    /// base address does not pull thread-local storage from under its users.
    CallerVerified,
}

/// One primitive: a call that executes exactly one fixed machine instruction.
#[derive(Clone, Copy, Debug, PartialEq, Eq, Structural)]
pub enum Operation {
    /// Suspend the processor until the next interrupt. Any interrupt ends the
    /// halt, not only the one awaited: a caller that waits for an event looks
    /// for it again after the return.
    Halt,
    /// Spend one instruction slot and change nothing. It keeps a loop that
    /// does nothing else from being optimized away.
    NoOp,
    /// Read an approximation of the program counter. The value is stale by a
    /// few instructions and no ground for exact control flow.
    ReadInstructionPointer,
    /// Trap into the debugger of the Bochs emulator. A real processor
    /// executes a harmless instruction.
    DebuggerBreakpoint,
    /// Set the base address of a segment register.
    WriteSegmentBase(Segment),
    /// Read the base address of a segment register, raw.
    ReadSegmentBase(Segment),
}

impl Operation {
    /// The name of the operation, as a sequence of characters.
    pub open spec fn spec_name(self) -> Seq<char> {
        match self {
            Operation::Halt => "halt"@,
            Operation::NoOp => "no_op"@,
            Operation::ReadInstructionPointer => "read_instruction_pointer"@,
            Operation::DebuggerBreakpoint => "debugger_breakpoint"@,
            Operation::WriteSegmentBase(_) => "write_segment_base"@,
            Operation::ReadSegmentBase(_) => "read_segment_base"@,
        }
    }

    /// The mnemonic of the instruction that the operation stands for.
    pub open spec fn spec_mnemonic(self) -> Seq<char> {
        match self {
            Operation::Halt => "hlt"@,
            Operation::NoOp => "nop"@,
            Operation::ReadInstructionPointer => "lea"@,
            Operation::DebuggerBreakpoint => "xchg"@,
            Operation::WriteSegmentBase(Segment::Fs) => "wrfsbase"@,
            Operation::WriteSegmentBase(Segment::Gs) => "wrgsbase"@,
            Operation::ReadSegmentBase(Segment::Fs) => "rdfsbase"@,
            Operation::ReadSegmentBase(Segment::Gs) => "rdgsbase"@,
        }
    }

    /// How many 64-bit values the operation takes: one for a write, else none.
    pub open spec fn spec_input_registers(self) -> nat {
        if self is WriteSegmentBase {
            1
        } else {
            0
        }
    }

    /// Whether the operation hands back a 64-bit value: the reads do.
    pub open spec fn spec_has_output(self) -> bool {
        self is ReadInstructionPointer || self is ReadSegmentBase
    }

    /// The kind of effect, or `None` where there is no effect at all.
    pub open spec fn spec_side_effect(self) -> Option<SideEffect> {
        match self {
            Operation::Halt => Some(SideEffect::Suspend),
            Operation::NoOp => None,
            Operation::ReadInstructionPointer => Some(SideEffect::RegisterRead),
            Operation::DebuggerBreakpoint => Some(SideEffect::DebuggerTrap),
            Operation::WriteSegmentBase(_) => Some(SideEffect::RegisterWrite),
            Operation::ReadSegmentBase(_) => Some(SideEffect::RegisterRead),
        }
    }

    /// The safety class: the segment-base operations rest on the caller.
    pub open spec fn spec_safety(self) -> Safety {
        if self is WriteSegmentBase || self is ReadSegmentBase {
            Safety::CallerVerified
        } else {
            Safety::Safe
        }
    }

    /// The name under which the operation is offered. The two segments share
    /// the name of their read and of their write.
    pub fn name(self) -> (text: &'static str)
        ensures
            text@ == self.spec_name(),
    {
        match self {
            Operation::Halt => "halt",
            Operation::NoOp => "no_op",
            Operation::ReadInstructionPointer => "read_instruction_pointer",
            Operation::DebuggerBreakpoint => "debugger_breakpoint",
            Operation::WriteSegmentBase(_) => "write_segment_base",
            Operation::ReadSegmentBase(_) => "read_segment_base",
        }
    }

    /// The mnemonic of the one instruction that a call of the operation
    /// executes, whichever backend carries it out.
    pub fn mnemonic(self) -> (text: &'static str)
        ensures
            text@ == self.spec_mnemonic(),
    {
        match self {
            Operation::Halt => "hlt",
            Operation::NoOp => "nop",
            Operation::ReadInstructionPointer => "lea",
            Operation::DebuggerBreakpoint => "xchg",
            Operation::WriteSegmentBase(segment) => match segment {
                Segment::Fs => "wrfsbase",
                Segment::Gs => "wrgsbase",
            },
            Operation::ReadSegmentBase(segment) => match segment {
                Segment::Fs => "rdfsbase",
                Segment::Gs => "rdgsbase",
            },
        }
    }

    /// The number of 64-bit values that the operation takes in registers:
    /// 1 for a write of a segment base, 0 for every other operation. The
    /// segment is part of the operation and no such value.
    pub fn input_registers(self) -> (count: usize)
        ensures
            count == self.spec_input_registers(),
    {
        match self {
            Operation::WriteSegmentBase(_) => 1,
            _ => 0,
        }
    }

    /// Whether the operation returns a 64-bit value.
    pub fn has_output(self) -> (yes: bool)
        ensures
            yes == self.spec_has_output(),
    {
        match self {
            Operation::ReadInstructionPointer | Operation::ReadSegmentBase(_) => true,
            _ => false,
        }
    }

    /// The kind of effect that the operation has, `None` for the no-op, whose
    /// whole point is to have none.
    pub fn side_effect(self) -> (effect: Option<SideEffect>)
        ensures
            effect == self.spec_side_effect(),
    {
        match self {
            Operation::Halt => Some(SideEffect::Suspend),
            Operation::NoOp => None,
            Operation::ReadInstructionPointer | Operation::ReadSegmentBase(_) => Some(
                SideEffect::RegisterRead,
            ),
            Operation::DebuggerBreakpoint => Some(SideEffect::DebuggerTrap),
            Operation::WriteSegmentBase(_) => Some(SideEffect::RegisterWrite),
        }
    }

    /// The safety class of the operation: reading and writing a segment base
    /// rest on the caller, every other operation is safe.
    pub fn safety(self) -> (class: Safety)
        ensures
            class == self.spec_safety(),
    {
        match self {
            Operation::WriteSegmentBase(_) | Operation::ReadSegmentBase(_) => Safety::CallerVerified,
            _ => Safety::Safe,
        }
    }
}

/// Each operation stands for an instruction of its own: two operations with
/// the same mnemonic are the same operation.
pub proof fn lemma_mnemonic_identifies_operation(first: Operation, second: Operation)
    requires
        first.spec_mnemonic() == second.spec_mnemonic(),
    ensures
        first == second,
{
    reveal_strlit("hlt");
    reveal_strlit("nop");
    reveal_strlit("lea");
    reveal_strlit("xchg");
    reveal_strlit("wrfsbase");
    reveal_strlit("wrgsbase");
    reveal_strlit("rdfsbase");
    reveal_strlit("rdgsbase");
    // The length and the letters at 0 and 2 tell the eight mnemonics apart.
    let a = first.spec_mnemonic();
    let b = second.spec_mnemonic();
    assert(a.len() == b.len());
    assert(a[0] == b[0]);
    assert(a[2] == b[2]);
}

} // verus!
