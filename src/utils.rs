use vstd::prelude::*;
use crate::cpu::Cpu;

verus! {

/// The branch conditions of JP, JR, CALL and RET.
#[derive(Clone, Copy, Debug, PartialEq, Eq)]
pub enum Condition {
    NZ,
    Z,
    NC,
    C,
}

impl Condition {
    pub open spec fn holds(self, z: bool, c: bool) -> bool {
        match self {
            Condition::NZ => !z,
            Condition::Z => z,
            Condition::NC => !c,
            Condition::C => c,
        }
    }

    pub fn check(&self, cpu: &Cpu) -> (r: bool)
        ensures
            r == self.holds(cpu.af.z, cpu.af.c),
    {
        match self {
            Condition::NZ => !cpu.af.z(),
            Condition::Z => cpu.af.z(),
            Condition::NC => !cpu.af.c(),
            Condition::C => cpu.af.c(),
        }
    }
}

/// A register name: the eight bytes, the four pairs, the two 16-bit
/// pointers, and the bytes that a pair points at.
#[derive(Clone, Copy, Debug, PartialEq, Eq)]
pub enum Register {
    A,
    F,
    B,
    C,
    D,
    E,
    H,
    L,
    AF,
    BC,
    DE,
    HL,
    SP,
    PC,
    PAF,
    PBC,
    PDE,
    PHL,
}

impl Register {
    /// One of the eight byte registers.
    pub open spec fn is_byte(self) -> bool {
        matches!(self, Register::A | Register::F | Register::B | Register::C | Register::D | Register::E | Register::H | Register::L)
    }

    /// A byte in memory, addressed by BC, DE or HL.
    pub open spec fn is_indirect(self) -> bool {
        matches!(self, Register::PBC | Register::PDE | Register::PHL)
    }

    /// Any 8-bit operand.
    pub open spec fn is_operand8(self) -> bool {
        self.is_byte() || self.is_indirect()
    }

    /// One of the four pairs or the two 16-bit pointers.
    pub open spec fn is_wide(self) -> bool {
        matches!(self, Register::AF | Register::BC | Register::DE | Register::HL | Register::SP | Register::PC)
    }

    /// The pair that an indirect operand goes through.
    pub open spec fn pointer(self) -> Register {
        match self {
            Register::PBC => Register::BC,
            Register::PDE => Register::DE,
            _ => Register::HL,
        }
    }
}

/// The interrupt master enable, with the one-instruction delays of EI and DI.
#[derive(Clone, Copy, Debug, PartialEq, Eq)]
pub enum InterruptStatus {
    Unset,
    PendingDisable,
    StartDisable,
    PendingEnable,
    StartEnable,
    Enabled,
}

impl InterruptStatus {
    /// The transition made after every executed instruction.
    pub open spec fn advance_spec(self) -> InterruptStatus {
        match self {
            InterruptStatus::StartDisable => InterruptStatus::PendingDisable,
            InterruptStatus::PendingDisable => InterruptStatus::Unset,
            InterruptStatus::StartEnable => InterruptStatus::PendingEnable,
            InterruptStatus::PendingEnable => InterruptStatus::Enabled,
            other => other,
        }
    }

    pub fn advance(&self) -> (r: InterruptStatus)
        ensures
            r == self.advance_spec(),
    {
        match self {
            InterruptStatus::StartDisable => InterruptStatus::PendingDisable,
            InterruptStatus::PendingDisable => InterruptStatus::Unset,
            InterruptStatus::StartEnable => InterruptStatus::PendingEnable,
            InterruptStatus::PendingEnable => InterruptStatus::Enabled,
            InterruptStatus::Unset => InterruptStatus::Unset,
            InterruptStatus::Enabled => InterruptStatus::Enabled,
        }
    }

    pub fn is_set(&self) -> (r: bool)
        ensures
            r == (*self == InterruptStatus::Enabled),
    {
        match self {
            InterruptStatus::Enabled => true,
            _ => false,
        }
    }
}

/// What an outside scheduler tells the core.
#[derive(Clone, Copy, Debug, PartialEq, Eq)]
pub enum Event {
    Clock,
}

} // verus!
