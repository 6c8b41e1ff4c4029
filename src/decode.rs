use vstd::prelude::*;
use crate::alu::{AluOp, ShiftOp};
use crate::utils::{Condition, Register};

verus! {

/// The 8-bit operand matrix shared by the LD, ALU and extended blocks:
/// B, C, D, E, H, L, (HL), A.
pub open spec fn r8_spec(i: u8) -> Register {
    if i == 0 {
        Register::B
    } else if i == 1 {
        Register::C
    } else if i == 2 {
        Register::D
    } else if i == 3 {
        Register::E
    } else if i == 4 {
        Register::H
    } else if i == 5 {
        Register::L
    } else if i == 6 {
        Register::PHL
    } else {
        Register::A
    }
}

pub fn r8(i: u8) -> (r: Register)
    ensures
        r == r8_spec(i),
        r.is_operand8() && r != Register::F,
{
    if i == 0 {
        Register::B
    } else if i == 1 {
        Register::C
    } else if i == 2 {
        Register::D
    } else if i == 3 {
        Register::E
    } else if i == 4 {
        Register::H
    } else if i == 5 {
        Register::L
    } else if i == 6 {
        Register::PHL
    } else {
        Register::A
    }
}

/// The pairs of the 16-bit loads and arithmetic: BC, DE, HL, SP.
pub open spec fn rp_spec(p: u8) -> Register {
    if p == 0 {
        Register::BC
    } else if p == 1 {
        Register::DE
    } else if p == 2 {
        Register::HL
    } else {
        Register::SP
    }
}

pub fn rp(p: u8) -> (r: Register)
    ensures
        r == rp_spec(p),
        r == Register::BC || r == Register::DE || r == Register::HL || r == Register::SP,
{
    if p == 0 {
        Register::BC
    } else if p == 1 {
        Register::DE
    } else if p == 2 {
        Register::HL
    } else {
        Register::SP
    }
}

/// The pairs of PUSH and POP: BC, DE, HL, AF.
pub open spec fn rp2_spec(p: u8) -> Register {
    if p == 0 {
        Register::BC
    } else if p == 1 {
        Register::DE
    } else if p == 2 {
        Register::HL
    } else {
        Register::AF
    }
}

pub fn rp2(p: u8) -> (r: Register)
    ensures
        r == rp2_spec(p),
        r == Register::BC || r == Register::DE || r == Register::HL || r == Register::AF,
{
    if p == 0 {
        Register::BC
    } else if p == 1 {
        Register::DE
    } else if p == 2 {
        Register::HL
    } else {
        Register::AF
    }
}

pub open spec fn cond_spec(y: u8) -> Condition {
    if y == 0 {
        Condition::NZ
    } else if y == 1 {
        Condition::Z
    } else if y == 2 {
        Condition::NC
    } else {
        Condition::C
    }
}

pub fn cond(y: u8) -> (r: Condition)
    ensures
        r == cond_spec(y),
{
    if y == 0 {
        Condition::NZ
    } else if y == 1 {
        Condition::Z
    } else if y == 2 {
        Condition::NC
    } else {
        Condition::C
    }
}

pub open spec fn alu_op_spec(y: u8) -> AluOp {
    if y == 0 {
        AluOp::Add
    } else if y == 1 {
        AluOp::Adc
    } else if y == 2 {
        AluOp::Sub
    } else if y == 3 {
        AluOp::Sbc
    } else if y == 4 {
        AluOp::And
    } else if y == 5 {
        AluOp::Xor
    } else if y == 6 {
        AluOp::Or
    } else {
        AluOp::Cp
    }
}

pub fn alu_op(y: u8) -> (r: AluOp)
    ensures
        r == alu_op_spec(y),
{
    if y == 0 {
        AluOp::Add
    } else if y == 1 {
        AluOp::Adc
    } else if y == 2 {
        AluOp::Sub
    } else if y == 3 {
        AluOp::Sbc
    } else if y == 4 {
        AluOp::And
    } else if y == 5 {
        AluOp::Xor
    } else if y == 6 {
        AluOp::Or
    } else {
        AluOp::Cp
    }
}

pub open spec fn shift_op_spec(y: u8) -> ShiftOp {
    if y == 0 {
        ShiftOp::Rlc
    } else if y == 1 {
        ShiftOp::Rrc
    } else if y == 2 {
        ShiftOp::Rl
    } else if y == 3 {
        ShiftOp::Rr
    } else if y == 4 {
        ShiftOp::Sla
    } else if y == 5 {
        ShiftOp::Sra
    } else if y == 6 {
        ShiftOp::Swap
    } else {
        ShiftOp::Srl
    }
}

pub fn shift_op(y: u8) -> (r: ShiftOp)
    ensures
        r == shift_op_spec(y),
{
    if y == 0 {
        ShiftOp::Rlc
    } else if y == 1 {
        ShiftOp::Rrc
    } else if y == 2 {
        ShiftOp::Rl
    } else if y == 3 {
        ShiftOp::Rr
    } else if y == 4 {
        ShiftOp::Sla
    } else if y == 5 {
        ShiftOp::Sra
    } else if y == 6 {
        ShiftOp::Swap
    } else {
        ShiftOp::Srl
    }
}

/// Primary opcodes with no behaviour here: the eleven holes of the table,
/// and HALT and STOP, which wait on hardware outside this core.
pub open spec fn undefined_opcode(op: u8) -> bool {
    op == 0x10 || op == 0x76 || op == 0xD3 || op == 0xDB || op == 0xDD || op == 0xE3 || op
        == 0xE4 || op == 0xEB || op == 0xEC || op == 0xED || op == 0xF4 || op == 0xFC || op
        == 0xFD
}

} // verus!
