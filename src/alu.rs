use vstd::prelude::*;
use crate::registers::AFReg;

verus! {

/// Half-carry of an 8-bit addition: a carry out of bit 3.
pub open spec fn half_carry_spec(a: u8, b: u8) -> bool {
    (((a & 0xF) + (b & 0xF)) as u8) & 0x10 == 0x10
}

pub fn half_carry(a: u8, b: u8) -> (r: bool)
    ensures
        r == half_carry_spec(a, b),
        r == (a % 16 + b % 16 >= 16),
{
    proof {
        assert(half_carry_spec(a, b) == (a % 16 + b % 16 >= 16)) by (bit_vector);
        assert(a & 0xF <= 15 && b & 0xF <= 15) by (bit_vector);
    }
    ((a & 0xF) + (b & 0xF)) & 0x10 == 0x10
}

/// Carry of an 8-bit addition: the sum does not fit in a byte.
pub fn carry(a: u8, b: u8) -> (r: bool)
    ensures
        r == (a + b > 255),
{
    a as u16 + b as u16 > 255
}

pub open spec fn bit_int(b: bool) -> int {
    if b {
        1
    } else {
        0
    }
}

/// Addition into the accumulator, with an optional carry in (ADD, ADC).
pub open spec fn add_spec(f: AFReg, b: u8, cin: bool) -> AFReg {
    let s = f.a + b + bit_int(cin);
    AFReg {
        a: (s % 256) as u8,
        z: s % 256 == 0,
        n: false,
        h: f.a % 16 + b % 16 + bit_int(cin) >= 16,
        c: s >= 256,
    }
}

/// Subtraction from the accumulator, with an optional borrow in (SUB, SBC).
pub open spec fn sub_spec(f: AFReg, b: u8, cin: bool) -> AFReg {
    let d = f.a - b - bit_int(cin);
    AFReg {
        a: ((d + 256) % 256) as u8,
        z: (d + 256) % 256 == 0,
        n: true,
        h: f.a % 16 < b % 16 + bit_int(cin),
        c: d < 0,
    }
}

/// A comparison: the flags of a subtraction, the accumulator kept.
pub open spec fn cp_spec(f: AFReg, b: u8) -> AFReg {
    AFReg { a: f.a, ..sub_spec(f, b, false) }
}

pub open spec fn and_spec(f: AFReg, b: u8) -> AFReg {
    AFReg { a: f.a & b, z: f.a & b == 0, n: false, h: true, c: false }
}

pub open spec fn or_spec(f: AFReg, b: u8) -> AFReg {
    AFReg { a: f.a | b, z: f.a | b == 0, n: false, h: false, c: false }
}

pub open spec fn xor_spec(f: AFReg, b: u8) -> AFReg {
    AFReg { a: f.a ^ b, z: f.a ^ b == 0, n: false, h: false, c: false }
}

pub fn add(f: AFReg, b: u8) -> (r: AFReg)
    ensures
        r == add_spec(f, b, false),
{
    let s: u16 = f.a as u16 + b as u16;
    let a = (s % 256) as u8;
    AFReg { a, z: a == 0, n: false, h: half_carry(f.a, b), c: carry(f.a, b) }
}

pub fn adc(f: AFReg, b: u8) -> (r: AFReg)
    ensures
        r == add_spec(f, b, f.c),
{
    let cin: u16 = if f.c { 1 } else { 0 };
    let s: u16 = f.a as u16 + b as u16 + cin;
    let a = (s % 256) as u8;
    AFReg { a, z: a == 0, n: false, h: (f.a % 16) as u16 + (b % 16) as u16 + cin >= 16, c: s >= 256 }
}

fn subtract(f: AFReg, b: u8, cin: bool) -> (r: AFReg)
    ensures
        r == sub_spec(f, b, cin),
{
    let ci: i16 = if cin { 1 } else { 0 };
    let d: i16 = f.a as i16 - b as i16 - ci;
    let a = ((d + 256) % 256) as u8;
    AFReg { a, z: a == 0, n: true, h: ((f.a % 16) as i16) < (b % 16) as i16 + ci, c: d < 0 }
}

pub fn sub(f: AFReg, b: u8) -> (r: AFReg)
    ensures
        r == sub_spec(f, b, false),
{
    subtract(f, b, false)
}

pub fn sbc(f: AFReg, b: u8) -> (r: AFReg)
    ensures
        r == sub_spec(f, b, f.c),
{
    subtract(f, b, f.c)
}

pub fn cp(f: AFReg, b: u8) -> (r: AFReg)
    ensures
        r == cp_spec(f, b),
{
    let d = subtract(f, b, false);
    AFReg { a: f.a, ..d }
}

pub fn and(f: AFReg, b: u8) -> (r: AFReg)
    ensures
        r == and_spec(f, b),
{
    let a = f.a & b;
    AFReg { a, z: a == 0, n: false, h: true, c: false }
}

pub fn or(f: AFReg, b: u8) -> (r: AFReg)
    ensures
        r == or_spec(f, b),
{
    let a = f.a | b;
    AFReg { a, z: a == 0, n: false, h: false, c: false }
}

pub fn xor(f: AFReg, b: u8) -> (r: AFReg)
    ensures
        r == xor_spec(f, b),
{
    let a = f.a ^ b;
    AFReg { a, z: a == 0, n: false, h: false, c: false }
}

/// The eight accumulator operations of the ALU blocks, in opcode order.
#[derive(Clone, Copy, Debug, PartialEq, Eq)]
pub enum AluOp {
    Add,
    Adc,
    Sub,
    Sbc,
    And,
    Xor,
    Or,
    Cp,
}

pub open spec fn alu_spec(op: AluOp, f: AFReg, b: u8) -> AFReg {
    match op {
        AluOp::Add => add_spec(f, b, false),
        AluOp::Adc => add_spec(f, b, f.c),
        AluOp::Sub => sub_spec(f, b, false),
        AluOp::Sbc => sub_spec(f, b, f.c),
        AluOp::And => and_spec(f, b),
        AluOp::Xor => xor_spec(f, b),
        AluOp::Or => or_spec(f, b),
        AluOp::Cp => cp_spec(f, b),
    }
}

pub fn alu(op: AluOp, f: AFReg, b: u8) -> (r: AFReg)
    ensures
        r == alu_spec(op, f, b),
{
    match op {
        AluOp::Add => crate::alu::add(f, b),
        AluOp::Adc => adc(f, b),
        AluOp::Sub => crate::alu::sub(f, b),
        AluOp::Sbc => sbc(f, b),
        AluOp::And => and(f, b),
        AluOp::Xor => xor(f, b),
        AluOp::Or => or(f, b),
        AluOp::Cp => cp(f, b),
    }
}

/// INC on a byte: Z and H updated, N cleared, C kept.
pub open spec fn inc_spec(v: u8, f: AFReg) -> (u8, AFReg) {
    let r = ((v + 1) % 256) as u8;
    (r, AFReg { z: r == 0, n: false, h: v % 16 == 15, ..f })
}

/// DEC on a byte: Z and H updated, N set, C kept.
pub open spec fn dec_spec(v: u8, f: AFReg) -> (u8, AFReg) {
    let r = ((v + 255) % 256) as u8;
    (r, AFReg { z: r == 0, n: true, h: v % 16 == 0, ..f })
}

pub fn inc(v: u8, f: AFReg) -> (r: (u8, AFReg))
    ensures
        r == inc_spec(v, f),
{
    let r = v.wrapping_add(1);
    (r, AFReg { z: r == 0, n: false, h: v % 16 == 15, ..f })
}

pub fn dec(v: u8, f: AFReg) -> (r: (u8, AFReg))
    ensures
        r == dec_spec(v, f),
{
    let r = v.wrapping_sub(1);
    (r, AFReg { z: r == 0, n: true, h: v % 16 == 0, ..f })
}

/// The eight rotate and shift operations of the extended table, in opcode order.
#[derive(Clone, Copy, Debug, PartialEq, Eq)]
pub enum ShiftOp {
    Rlc,
    Rrc,
    Rl,
    Rr,
    Sla,
    Sra,
    Swap,
    Srl,
}

/// The byte a rotate or shift gives, and the bit it moves into the carry.
pub open spec fn shift_spec(op: ShiftOp, v: u8, cin: bool) -> (u8, bool) {
    match op {
        ShiftOp::Rlc => (((v * 2) % 256 + v / 128) as u8, v >= 128),
        ShiftOp::Rrc => ((v / 2 + (v % 2) * 128) as u8, v % 2 == 1),
        ShiftOp::Rl => (((v * 2) % 256 + bit_int(cin)) as u8, v >= 128),
        ShiftOp::Rr => ((v / 2 + bit_int(cin) * 128) as u8, v % 2 == 1),
        ShiftOp::Sla => (((v * 2) % 256) as u8, v >= 128),
        ShiftOp::Sra => ((v / 2 + (v / 128) * 128) as u8, v % 2 == 1),
        ShiftOp::Swap => (((v % 16) * 16 + v / 16) as u8, false),
        ShiftOp::Srl => ((v / 2) as u8, v % 2 == 1),
    }
}

/// The extended-table form: Z from the result, N and H cleared, C the bit moved out.
pub open spec fn rotate_spec(op: ShiftOp, v: u8, f: AFReg) -> (u8, AFReg) {
    let (r, out) = shift_spec(op, v, f.c);
    (r, AFReg { a: f.a, z: r == 0, n: false, h: false, c: out })
}

pub fn rotate(op: ShiftOp, v: u8, f: AFReg) -> (r: (u8, AFReg))
    ensures
        r == rotate_spec(op, v, f),
{
    let cin: u8 = if f.c { 1 } else { 0 };
    let (r, out): (u8, bool) = match op {
        ShiftOp::Rlc => ((v % 128) * 2 + v / 128, v >= 128),
        ShiftOp::Rrc => (v / 2 + (v % 2) * 128, v % 2 == 1),
        ShiftOp::Rl => ((v % 128) * 2 + cin, v >= 128),
        ShiftOp::Rr => (v / 2 + cin * 128, v % 2 == 1),
        ShiftOp::Sla => ((v % 128) * 2, v >= 128),
        ShiftOp::Sra => (v / 2 + (v / 128) * 128, v % 2 == 1),
        ShiftOp::Swap => ((v % 16) * 16 + v / 16, false),
        ShiftOp::Srl => (v / 2, v % 2 == 1),
    };
    (r, AFReg { a: f.a, z: r == 0, n: false, h: false, c: out })
}

/// The accumulator rotates RLCA, RRCA, RLA, RRA: as their extended forms, but Z
/// is always cleared.
pub open spec fn rotate_a_spec(op: ShiftOp, f: AFReg) -> AFReg {
    let (r, out) = shift_spec(op, f.a, f.c);
    AFReg { a: r, z: false, n: false, h: false, c: out }
}

pub fn rotate_a(op: ShiftOp, f: AFReg) -> (r: AFReg)
    ensures
        r == rotate_a_spec(op, f),
{
    let (v, g) = rotate(op, f.a, f);
    AFReg { a: v, z: false, ..g }
}

/// BIT: Z is set when the tested bit is clear; N cleared, H set, C kept.
pub open spec fn bit_spec(k: u8, v: u8, f: AFReg) -> AFReg {
    AFReg { z: (v >> k) & 1 == 0, n: false, h: true, ..f }
}

pub fn bit(k: u8, v: u8, f: AFReg) -> (r: AFReg)
    requires
        k < 8,
    ensures
        r == bit_spec(k, v, f),
{
    AFReg { z: (v >> k) & 1 == 0, n: false, h: true, ..f }
}

pub open spec fn set_bit_spec(k: u8, v: u8) -> u8 {
    v | (1u8 << k)
}

pub open spec fn res_bit_spec(k: u8, v: u8) -> u8 {
    v & !(1u8 << k)
}

pub fn set_bit(k: u8, v: u8) -> (r: u8)
    requires
        k < 8,
    ensures
        r == set_bit_spec(k, v),
{
    v | (1u8 << k)
}

pub fn res_bit(k: u8, v: u8) -> (r: u8)
    requires
        k < 8,
    ensures
        r == res_bit_spec(k, v),
{
    v & !(1u8 << k)
}

/// DAA: corrects the accumulator to packed BCD after an addition (N clear) or
/// a subtraction (N set).
pub open spec fn daa_spec(f: AFReg) -> AFReg {
    if !f.n {
        let hi = f.c || f.a > 0x99;
        let lo = f.h || f.a % 16 > 9;
        let r = (f.a + (if hi { 0x60int } else { 0 }) + (if lo { 6int } else { 0 })) % 256;
        AFReg { a: r as u8, z: r == 0, n: false, h: false, c: hi }
    } else {
        let r = (f.a - (if f.c { 0x60int } else { 0 }) - (if f.h { 6int } else { 0 }) + 256)
            % 256;
        AFReg { a: r as u8, z: r == 0, n: true, h: false, c: f.c }
    }
}

pub fn daa(f: AFReg) -> (r: AFReg)
    ensures
        r == daa_spec(f),
{
    if !f.n {
        let hi = f.c || f.a > 0x99;
        let lo = f.h || f.a % 16 > 9;
        let s: u16 = f.a as u16 + (if hi { 0x60u16 } else { 0 }) + (if lo { 6u16 } else { 0 });
        let a = (s % 256) as u8;
        AFReg { a, z: a == 0, n: false, h: false, c: hi }
    } else {
        let d: i16 = f.a as i16 - (if f.c { 0x60i16 } else { 0 }) - (if f.h { 6i16 } else { 0 });
        let a = ((d + 256) % 256) as u8;
        AFReg { a, z: a == 0, n: true, h: false, c: f.c }
    }
}

/// CPL: the accumulator complemented, N and H set.
pub fn cpl(f: AFReg) -> (r: AFReg)
    ensures
        r == (AFReg { a: (255 - f.a) as u8, n: true, h: true, ..f }),
{
    AFReg { a: 255 - f.a, n: true, h: true, ..f }
}

/// SCF: carry set, N and H cleared.
pub fn scf(f: AFReg) -> (r: AFReg)
    ensures
        r == (AFReg { n: false, h: false, c: true, ..f }),
{
    AFReg { n: false, h: false, c: true, ..f }
}

/// CCF: carry complemented, N and H cleared.
pub fn ccf(f: AFReg) -> (r: AFReg)
    ensures
        r == (AFReg { n: false, h: false, c: !f.c, ..f }),
{
    AFReg { n: false, h: false, c: !f.c, ..f }
}

/// ADD HL,rr: N cleared, H from bit 11, C from bit 15, Z kept.
pub open spec fn add16_spec(x: u16, y: u16, f: AFReg) -> (u16, AFReg) {
    (
        ((x + y) % 65536) as u16,
        AFReg { n: false, h: x % 4096 + y % 4096 >= 4096, c: x + y >= 65536, ..f },
    )
}

pub fn add16(x: u16, y: u16, f: AFReg) -> (r: (u16, AFReg))
    ensures
        r == add16_spec(x, y, f),
{
    let s: u32 = x as u32 + y as u32;
    ((s % 65536) as u16, AFReg { n: false, h: x % 4096 + y % 4096 >= 4096, c: s >= 65536, ..f })
}

/// A byte read as a two's-complement displacement.
pub open spec fn signed(e: u8) -> int {
    if e >= 128 {
        e - 256
    } else {
        e as int
    }
}

/// A 16-bit value moved by a signed displacement, wrapping.
pub open spec fn offset_spec(x: u16, e: u8) -> u16 {
    ((x + signed(e) + 65536) % 65536) as u16
}

pub fn offset(x: u16, e: u8) -> (r: u16)
    ensures
        r == offset_spec(x, e),
{
    if e >= 128 {
        x.wrapping_sub(256 - e as u16)
    } else {
        x.wrapping_add(e as u16)
    }
}

/// ADD SP,e and LD HL,SP+e: Z and N cleared, H and C from the unsigned
/// addition of the low byte.
pub open spec fn add_sp_spec(sp: u16, e: u8, f: AFReg) -> (u16, AFReg) {
    (
        offset_spec(sp, e),
        AFReg { a: f.a, z: false, n: false, h: sp % 16 + e % 16 >= 16, c: sp % 256 + e >= 256 },
    )
}

pub fn add_sp(sp: u16, e: u8, f: AFReg) -> (r: (u16, AFReg))
    ensures
        r == add_sp_spec(sp, e, f),
{
    (
        offset(sp, e),
        AFReg {
            a: f.a,
            z: false,
            n: false,
            h: sp % 16 + (e % 16) as u16 >= 16,
            c: sp % 256 + e as u16 >= 256,
        },
    )
}

} // verus!
