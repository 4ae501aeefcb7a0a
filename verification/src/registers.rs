//! The registers that the segment-base operations read and write.
//!
//! `Registers` is the part of a processor's state that the contracts of those
//! two operations speak of: the base addresses of FS and GS, and the bit of
//! CR4 that admits the instructions. The functions here say what a write and
//! a read do to that state; they execute nothing on the processor.

use vstd::prelude::*;
use crate::operation::{Operation, Safety, Segment};

verus! {

/// The FS and GS base addresses, and whether `CR4.FSGSBASE` is set.
#[derive(Clone, Copy, Debug, PartialEq, Eq, Structural)]
pub struct Registers {
    /// `CR4.FSGSBASE`: while clear, reading or writing a base raises an
    /// invalid-opcode fault.
    pub fsgsbase: bool,
    /// The base address of FS.
    pub fs_base: u64,
    /// The base address of GS.
    pub gs_base: u64,
}

impl Registers {
    /// The base address of `segment`.
    pub open spec fn spec_base(self, segment: Segment) -> u64 {
        match segment {
            Segment::Fs => self.fs_base,
            Segment::Gs => self.gs_base,
        }
    }

    /// These registers with the base address of `segment` replaced by `value`.
    pub open spec fn spec_with_base(self, segment: Segment, value: u64) -> Registers {
        match segment {
            Segment::Fs => Registers { fs_base: value, ..self },
            Segment::Gs => Registers { gs_base: value, ..self },
        }
    }

    /// Whether the instruction of `operation` executes in this state. One of a
    /// caller-verified operation does so only while `CR4.FSGSBASE` is set.
    pub open spec fn spec_permits(self, operation: Operation) -> bool {
        operation.spec_safety() is CallerVerified ==> self.fsgsbase
    }

    /// The base address of `segment`, as it stands in this state.
    pub fn base(&self, segment: Segment) -> (value: u64)
        ensures
            value == self.spec_base(segment),
    {
        match segment {
            Segment::Fs => self.fs_base,
            Segment::Gs => self.gs_base,
        }
    }

    /// Whether the instruction of `operation` executes in this state instead
    /// of raising an invalid-opcode fault: always for a safe operation, and
    /// for a caller-verified one exactly while `CR4.FSGSBASE` is set.
    pub fn permits(&self, operation: Operation) -> (yes: bool)
        ensures
            yes == self.spec_permits(operation),
    {
        match operation.safety() {
            Safety::Safe => true,
            Safety::CallerVerified => self.fsgsbase,
        }
    }

    /// What writing a segment base does: the base of `segment` becomes
    /// `value`, raw and whole, and nothing else changes.
    ///
    /// The caller answers for `CR4.FSGSBASE` being set.
    pub fn write_segment_base(&mut self, segment: Segment, value: u64)
        requires
            old(self).fsgsbase,
        ensures
            *final(self) == old(self).spec_with_base(segment, value),
    {
        match segment {
            Segment::Fs => {
                self.fs_base = value;
            },
            Segment::Gs => {
                self.gs_base = value;
            },
        }
    }

    /// What reading a segment base returns: the base of `segment`, raw and
    /// whole.
    ///
    /// The caller answers for `CR4.FSGSBASE` being set.
    pub fn read_segment_base(&self, segment: Segment) -> (value: u64)
        requires
            self.fsgsbase,
        ensures
            value == self.spec_base(segment),
    {
        self.base(segment)
    }
}

/// A base that was written is the base that is read: after a write of
/// `value` to `segment` the instructions are still admitted, and a read of
/// `segment` gives exactly `value`.
pub proof fn lemma_write_then_read(registers: Registers, segment: Segment, value: u64)
    requires
        registers.fsgsbase,
    ensures
        registers.spec_with_base(segment, value).fsgsbase,
        registers.spec_with_base(segment, value).spec_base(segment) == value,
{
}

/// A write touches the base of its own segment only: the base of any other
/// segment, and `CR4.FSGSBASE`, are what they were.
pub proof fn lemma_write_leaves_rest(
    registers: Registers,
    segment: Segment,
    value: u64,
    other: Segment,
)
    requires
        other != segment,
    ensures
        registers.spec_with_base(segment, value).spec_base(other) == registers.spec_base(other),
        registers.spec_with_base(segment, value).fsgsbase == registers.fsgsbase,
{
}

/// Only the caller-verified operations can fault: a safe operation executes
/// in every state, and a caller-verified one exactly where `CR4.FSGSBASE` is
/// set.
pub proof fn lemma_faults_need_caller(registers: Registers, operation: Operation)
    ensures
        operation.spec_safety() is Safe ==> registers.spec_permits(operation),
        operation.spec_safety() is CallerVerified ==> (registers.spec_permits(operation)
            <==> registers.fsgsbase),
{
}

} // verus!
