use vstd::prelude::*;
use crate::alu;
use crate::alu::{AluOp, ShiftOp};
use crate::cpu::{Cpu, wrap16, wrap64};
use crate::error::EmuError;
use crate::memory::{Bus, lemma_read_after_write, ram_backed};
use crate::registers::{AFReg, pair, hi_byte, lo_byte};
use crate::utils::{InterruptStatus, Register};

verus! {

/// The read-modify-write operations on an 8-bit operand.
#[derive(Clone, Copy, Debug, PartialEq, Eq)]
pub enum Modify {
    Inc,
    Dec,
    Shift(ShiftOp),
    Res(u8),
    SetBit(u8),
}

impl Modify {
    pub open spec fn valid(self) -> bool {
        match self {
            Modify::Res(k) => k < 8,
            Modify::SetBit(k) => k < 8,
            _ => true,
        }
    }
}

/// The byte and the flags a read-modify-write operation gives.
pub open spec fn modify_spec(op: Modify, v: u8, f: AFReg) -> (u8, AFReg) {
    match op {
        Modify::Inc => alu::inc_spec(v, f),
        Modify::Dec => alu::dec_spec(v, f),
        Modify::Shift(s) => alu::rotate_spec(s, v, f),
        Modify::Res(k) => (alu::res_bit_spec(k, v), f),
        Modify::SetBit(k) => (alu::set_bit_spec(k, v), f),
    }
}

pub fn modify(op: Modify, v: u8, f: AFReg) -> (r: (u8, AFReg))
    requires
        op.valid(),
    ensures
        r == modify_spec(op, v, f),
{
    match op {
        Modify::Inc => alu::inc(v, f),
        Modify::Dec => alu::dec(v, f),
        Modify::Shift(s) => alu::rotate(s, v, f),
        Modify::Res(k) => (alu::res_bit(k, v), f),
        Modify::SetBit(k) => (alu::set_bit(k, v), f),
    }
}

impl Cpu {
    /// Whether pushing a word succeeds: both stack bytes must be writable.
    pub open spec fn push_result(self) -> Result<(), EmuError> {
        match self.memory.write_result(wrap16(self.sp - 1)) {
            Err(e) => Err(e),
            Ok(_) => self.memory.write_result(wrap16(self.sp - 2)),
        }
    }

    /// `new` is `self` after pushing `v`: the high byte went to SP-1, the low
    /// byte to SP-2, and SP moved down by two.
    pub open spec fn pushed(self, new: Cpu, v: u16) -> bool {
        &&& exists|m: Bus|
            #![trigger self.memory.written(m, wrap16(self.sp - 1), hi_byte(v))]
            self.memory.written(m, wrap16(self.sp - 1), hi_byte(v)) && m.written(
                new.memory,
                wrap16(self.sp - 2),
                lo_byte(v),
            )
        &&& new == (Cpu { memory: new.memory, sp: wrap16(self.sp - 2), ..self })
    }

    /// What popping a word gives: the low byte at SP, the high byte above it.
    pub open spec fn pop_result(self) -> Result<u16, EmuError> {
        match self.memory.read_spec(self.sp) {
            Err(e) => Err(e),
            Ok(lo) => match self.memory.read_spec(wrap16(self.sp + 1)) {
                Err(e) => Err(e),
                Ok(hi) => Ok(pair(hi, lo)),
            },
        }
    }

    /// `new` is `self` after popping a word into `r`.
    pub open spec fn popped(self, new: Cpu, r: Register) -> bool {
        &&& self.pop_result() is Ok
        &&& new == (Cpu { sp: wrap16(self.sp + 2), ..self }).with_reg16(
            r,
            self.pop_result()->Ok_0,
        )
    }

    /// Pushes a word onto the stack.
    pub fn push(&mut self, v: u16) -> (r: Result<(), EmuError>)
        requires
            old(self).wf(),
        ensures
            final(self).interrupt_enable == old(self).interrupt_enable,
            r is Err ==> r->Err_0.is_bus_fault(),
            final(self).wf(),
            r == old(self).push_result(),
            r is Ok ==> old(self).pushed(*final(self), v),
    {
        let s1 = self.sp.wrapping_sub(1);
        self.memory.write_byte(s1, (v / 256) as u8)?;
        let ghost mid = self.memory;
        let s2 = s1.wrapping_sub(1);
        self.memory.write_byte(s2, (v % 256) as u8)?;
        self.sp = s2;
        proof {
            assert(old(self).memory.written(mid, wrap16(old(self).sp - 1), hi_byte(v)));
        }
        Ok(())
    }

    /// Pops a word off the stack.
    pub fn pop(&mut self) -> (r: Result<u16, EmuError>)
        requires
            old(self).wf(),
        ensures
            r is Err ==> r->Err_0.is_bus_fault(),
            r == old(self).pop_result(),
            r is Ok ==> *final(self) == (Cpu { sp: wrap16(old(self).sp + 2), ..*old(self) }),
            r is Err ==> *final(self) == *old(self),
    {
        let lo = self.memory.get_address(self.sp)?;
        let hi = self.memory.get_address(self.sp.wrapping_add(1))?;
        self.sp = self.sp.wrapping_add(2);
        Ok(hi as u16 * 256 + lo as u16)
    }

    /// POP rr: pops a word into a pair or PC; POP AF keeps only F's high nibble.
    pub fn pop_into(&mut self, reg: Register) -> (r: Result<(), EmuError>)
        requires
            old(self).wf(),
            reg == Register::AF || reg == Register::BC || reg == Register::DE || reg
                == Register::HL || reg == Register::PC,
        ensures
            final(self).interrupt_enable == old(self).interrupt_enable,
            r is Err ==> r->Err_0.is_bus_fault(),
            final(self).wf(),
            r is Ok <==> old(self).pop_result() is Ok,
            r is Err ==> r == Err::<(), EmuError>(old(self).pop_result()->Err_0),
            r is Ok ==> old(self).popped(*final(self), reg),
    {
        let v = self.pop()?;
        self.set_regu16(reg, v);
        Ok(())
    }

    /// A read-modify-write of an 8-bit operand (INC, DEC, the rotates and
    /// shifts, RES and SET).
    pub fn modify8(&mut self, reg: Register, op: Modify) -> (r: Result<(), EmuError>)
        requires
            old(self).wf(),
            reg.is_operand8() && reg != Register::F,
            op.valid(),
        ensures
            final(self).interrupt_enable == old(self).interrupt_enable,
            r is Err ==> r->Err_0.is_bus_fault(),
            final(self).wf(),
            r is Ok <==> (old(self).read8(reg) is Ok && old(self).store8_result(reg) is Ok),
            r is Ok ==> (Cpu {
                af: modify_spec(op, old(self).read8(reg)->Ok_0, old(self).af).1,
                ..*old(self)
            }).stored8(
                *final(self),
                reg,
                modify_spec(op, old(self).read8(reg)->Ok_0, old(self).af).0,
            ),
    {
        let v = self.get_regu8(reg)?;
        let (nv, f) = modify(op, v, self.af);
        self.af = f;
        self.set_regu8(reg, nv)
    }

    /// An accumulator operation of the ALU block with its operand.
    pub fn alu_a(&mut self, op: AluOp, v: u8)
        ensures
            *final(self) == (Cpu { af: alu::alu_spec(op, old(self).af, v), ..*old(self) }),
    {
        self.af = alu::alu(op, self.af, v);
    }

    /// BIT k on an 8-bit operand.
    pub fn bit8(&mut self, k: u8, reg: Register) -> (r: Result<(), EmuError>)
        requires
            old(self).wf(),
            reg.is_operand8(),
            k < 8,
        ensures
            final(self).interrupt_enable == old(self).interrupt_enable,
            r is Err ==> r->Err_0.is_bus_fault(),
            final(self).wf(),
            r is Ok <==> old(self).read8(reg) is Ok,
            r is Err ==> r == Err::<(), EmuError>(old(self).read8(reg)->Err_0),
            r is Ok ==> *final(self) == (Cpu {
                af: alu::bit_spec(k, old(self).read8(reg)->Ok_0, old(self).af),
                ..*old(self)
            }),
    {
        let v = self.get_regu8(reg)?;
        self.af = alu::bit(k, v, self.af);
        Ok(())
    }

    /// INC rr and DEC rr: no flags.
    pub fn step16(&mut self, reg: Register, up: bool)
        requires
            reg == Register::BC || reg == Register::DE || reg == Register::HL || reg
                == Register::SP,
        ensures
            *final(self) == old(self).with_reg16(
                reg,
                wrap16(old(self).reg16(reg) + if up {
                    1int
                } else {
                    -1int
                }),
            ),
    {
        let v = self.get_regu16(reg);
        let n = if up {
            v.wrapping_add(1)
        } else {
            v.wrapping_sub(1)
        };
        self.set_regu16(reg, n);
    }

    /// ADD HL,rr.
    pub fn add_hl(&mut self, reg: Register)
        requires
            reg == Register::BC || reg == Register::DE || reg == Register::HL || reg
                == Register::SP,
        ensures
            *final(self) == (Cpu {
                af: alu::add16_spec(old(self).reg16(Register::HL), old(self).reg16(reg), old(self).af).1,
                ..*old(self)
            }).with_reg16(
                Register::HL,
                alu::add16_spec(old(self).reg16(Register::HL), old(self).reg16(reg), old(self).af).0,
            ),
    {
        let (v, f) = alu::add16(self.get_regu16(Register::HL), self.get_regu16(reg), self.af);
        self.af = f;
        self.set_regu16(Register::HL, v);
    }

    /// CALL, RST and interrupt entry: pushes PC, then jumps.
    pub fn call(&mut self, addr: u16) -> (r: Result<(), EmuError>)
        requires
            old(self).wf(),
        ensures
            final(self).interrupt_enable == old(self).interrupt_enable,
            r is Err ==> r->Err_0.is_bus_fault(),
            final(self).wf(),
            r == old(self).push_result(),
            r is Ok ==> exists|mid: Cpu|
                #![trigger old(self).pushed(mid, old(self).pc)]
                old(self).pushed(mid, old(self).pc) && *final(self) == (Cpu { pc: addr, ..mid }),
    {
        let pc = self.pc;
        self.push(pc)?;
        let ghost mid = *self;
        self.pc = addr;
        proof {
            assert(old(self).pushed(mid, old(self).pc));
        }
        Ok(())
    }

    /// The interrupt service routine: interrupts off, PC pushed, jump to the
    /// vector; five cycles in all.
    pub fn isr(&mut self, vector: u16) -> (r: Result<(), EmuError>)
        requires
            old(self).wf(),
        ensures
            r is Err ==> final(self).interrupt_enable == old(self).interrupt_enable,
            r is Err ==> r->Err_0.is_bus_fault(),
            final(self).wf(),
            r == old(self).push_result(),
            r is Ok ==> exists|mid: Cpu|
                #![trigger old(self).pushed(mid, old(self).pc)]
                old(self).pushed(mid, old(self).pc) && *final(self) == (Cpu {
                    pc: vector,
                    interrupt_enable: InterruptStatus::Unset,
                    clocks: wrap64(old(self).clocks + 5),
                    ..mid
                }),
    {
        let pc = self.pc;
        self.push(pc)?;
        let ghost mid = *self;
        self.pc = vector;
        self.interrupt_enable = InterruptStatus::Unset;
        self.clocks = self.clocks.wrapping_add(5);
        proof {
            assert(old(self).pushed(mid, old(self).pc));
        }
        Ok(())
    }
}

/// Pushing a pair and popping it back restores the pair and the stack
/// pointer, wherever both stack bytes are held by the bus itself.
pub proof fn push_pop_round_trip(c0: Cpu, c1: Cpu, c2: Cpu, reg: Register)
    requires
        c0.wf(),
        reg == Register::BC || reg == Register::DE || reg == Register::HL,
        ram_backed(wrap16(c0.sp - 1)),
        ram_backed(wrap16(c0.sp - 2)),
        c0.pushed(c1, c0.reg16(reg)),
        c1.popped(c2, reg),
    ensures
        c0.push_result() is Ok,
        c1.pop_result() == Ok::<u16, EmuError>(c0.reg16(reg)),
        c2.reg16(reg) == c0.reg16(reg),
        c2.sp == c0.sp,
{
    let v = c0.reg16(reg);
    let s1 = wrap16(c0.sp - 1);
    let s2 = wrap16(c0.sp - 2);
    let m = choose|m: Bus|
        #![trigger c0.memory.written(m, s1, hi_byte(v))]
        c0.memory.written(m, s1, hi_byte(v)) && m.written(c1.memory, s2, lo_byte(v));
    lemma_read_after_write(c0.memory, m, s1, hi_byte(v), s1);
    lemma_read_after_write(m, c1.memory, s2, lo_byte(v), s2);
    lemma_read_after_write(m, c1.memory, s2, lo_byte(v), s1);
    assert(wrap16(c1.sp + 1) == s1);
    assert(pair(hi_byte(v), lo_byte(v)) == v);
}

} // verus!
