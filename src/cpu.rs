use vstd::prelude::*;
use crate::error::EmuError;
use crate::memory::Bus;
use crate::registers::{AFReg, pair, hi_byte, lo_byte, lemma_flags_byte};
use crate::utils::{InterruptStatus, Register};

verus! {

pub open spec fn wrap16(x: int) -> u16 {
    ((x % 65536 + 65536) % 65536) as u16
}

pub open spec fn wrap64(x: int) -> u64 {
    (x % 0x1_0000_0000_0000_0000) as u64
}

/// Adding to a wrapped counter is adding before wrapping.
pub proof fn lemma_wrap64_add(x: u64, a: int, b: int)
    requires
        0 <= a,
        0 <= b,
    ensures
        wrap64(wrap64(x + a) + b) == wrap64(x + a + b),
{
    let m = 0x1_0000_0000_0000_0000int;
    vstd::arithmetic::div_mod::lemma_add_mod_noop(x + a, b, m);
    vstd::arithmetic::div_mod::lemma_add_mod_noop_right(x + a, b, m);
    vstd::arithmetic::div_mod::lemma_mod_twice(x + a, m);
}

/// The processor: its register file, the bus it drives, and the interrupt
/// master enable.
pub struct Cpu {
    pub af: AFReg,
    pub b: u8,
    pub c: u8,
    pub d: u8,
    pub e: u8,
    pub h: u8,
    pub l: u8,
    pub sp: u16,
    pub pc: u16,
    pub memory: Bus,
    pub interrupt_enable: InterruptStatus,
    /// Cycles elapsed since power-on, wrapping.
    pub clocks: u64,
}

impl Bus {
    /// The bus as an instruction fetch at `pc` leaves it: once the byte at
    /// 0x00FF has been fetched, the start-up program is unmapped.
    pub open spec fn latched(self, pc: u16) -> Bus {
        Bus { boot_finished: self.boot_finished || pc == 0xFF, ..self }
    }
}

impl Cpu {
    pub open spec fn wf(self) -> bool {
        self.memory.wf()
    }

    /// The value of a byte register.
    pub open spec fn reg8(self, r: Register) -> u8 {
        match r {
            Register::A => self.af.a,
            Register::F => self.af.f_spec(),
            Register::B => self.b,
            Register::C => self.c,
            Register::D => self.d,
            Register::E => self.e,
            Register::H => self.h,
            _ => self.l,
        }
    }

    /// The value of a pair or a 16-bit pointer.
    pub open spec fn reg16(self, r: Register) -> u16 {
        match r {
            Register::AF | Register::PAF => self.af.af_spec(),
            Register::BC | Register::PBC => pair(self.b, self.c),
            Register::DE | Register::PDE => pair(self.d, self.e),
            Register::HL | Register::PHL => pair(self.h, self.l),
            Register::SP => self.sp,
            _ => self.pc,
        }
    }

    /// The processor with one byte register replaced.
    pub open spec fn with_reg8(self, r: Register, v: u8) -> Cpu {
        match r {
            Register::A => Cpu { af: AFReg { a: v, ..self.af }, ..self },
            Register::F => Cpu { af: AFReg::from_u16_spec(pair(self.af.a, v)), ..self },
            Register::B => Cpu { b: v, ..self },
            Register::C => Cpu { c: v, ..self },
            Register::D => Cpu { d: v, ..self },
            Register::E => Cpu { e: v, ..self },
            Register::H => Cpu { h: v, ..self },
            _ => Cpu { l: v, ..self },
        }
    }

    /// The processor with one pair or pointer replaced.
    pub open spec fn with_reg16(self, r: Register, v: u16) -> Cpu {
        match r {
            Register::AF => Cpu { af: AFReg::from_u16_spec(v), ..self },
            Register::BC => Cpu { b: hi_byte(v), c: lo_byte(v), ..self },
            Register::DE => Cpu { d: hi_byte(v), e: lo_byte(v), ..self },
            Register::HL => Cpu { h: hi_byte(v), l: lo_byte(v), ..self },
            Register::SP => Cpu { sp: v, ..self },
            _ => Cpu { pc: v, ..self },
        }
    }

    /// What reading an 8-bit operand gives.
    pub open spec fn read8(self, r: Register) -> Result<u8, EmuError> {
        if r.is_indirect() {
            self.memory.read_spec(self.reg16(r.pointer()))
        } else {
            Ok(self.reg8(r))
        }
    }

    /// `new` is `self` after `v` went successfully into the 8-bit operand `r`.
    pub open spec fn stored8(self, new: Cpu, r: Register, v: u8) -> bool {
        if r.is_indirect() {
            &&& self.memory.write_result(self.reg16(r.pointer())) is Ok
            &&& self.memory.written(new.memory, self.reg16(r.pointer()), v)
            &&& new == (Cpu { memory: new.memory, ..self })
        } else {
            new == self.with_reg8(r, v)
        }
    }

    /// Whether storing into the 8-bit operand `r` succeeds.
    pub open spec fn store8_result(self, r: Register) -> Result<(), EmuError> {
        if r.is_indirect() {
            self.memory.write_result(self.reg16(r.pointer()))
        } else {
            Ok(())
        }
    }

    /// A processor in its power-on state, around a bus.
    pub fn new(bus: Bus) -> (r: Cpu)
        ensures
            r.memory == bus,
            r.af == AFReg::new_spec(),
            r.b == 0 && r.c == 0 && r.d == 0 && r.e == 0 && r.h == 0 && r.l == 0,
            r.sp == 0 && r.pc == 0 && r.clocks == 0,
            r.interrupt_enable == InterruptStatus::Unset,
    {
        Cpu {
            af: AFReg::new(),
            b: 0,
            c: 0,
            d: 0,
            e: 0,
            h: 0,
            l: 0,
            sp: 0,
            pc: 0,
            memory: bus,
            interrupt_enable: InterruptStatus::Unset,
            clocks: 0,
        }
    }

    fn tick(&mut self, n: u64)
        ensures
            *final(self) == (Cpu { clocks: wrap64(old(self).clocks + n), ..*old(self) }),
    {
        self.clocks = self.clocks.wrapping_add(n);
    }

    /// Fetches the byte at PC and moves PC past it, charging one cycle.
    pub fn fetch(&mut self) -> (r: Result<u8, EmuError>)
        requires
            old(self).wf(),
        ensures
            final(self).interrupt_enable == old(self).interrupt_enable,
            final(self).wf(),
            r == old(self).next_byte(),
            r is Err ==> r->Err_0.is_bus_fault(),
            r is Ok ==> *final(self) == old(self).after_fetch(),
    {
        let opcode = self.memory.get_address(self.pc)?;
        if self.pc == 0xFF {
            self.memory.finish_boot();
        }
        self.pc = self.pc.wrapping_add(1);
        self.tick(1);
        Ok(opcode)
    }

    /// Reads a byte register.
    pub fn reg(&self, r: Register) -> (v: u8)
        requires
            r.is_byte(),
        ensures
            v == self.reg8(r),
    {
        match r {
            Register::A => self.af.a,
            Register::F => self.af.f(),
            Register::B => self.b,
            Register::C => self.c,
            Register::D => self.d,
            Register::E => self.e,
            Register::H => self.h,
            _ => self.l,
        }
    }

    pub fn get_regu16(&self, r: Register) -> (v: u16)
        requires
            r.is_wide(),
        ensures
            v == self.reg16(r),
    {
        match r {
            Register::AF => self.af.to_u16(),
            Register::BC => self.b as u16 * 256 + self.c as u16,
            Register::DE => self.d as u16 * 256 + self.e as u16,
            Register::HL => self.h as u16 * 256 + self.l as u16,
            Register::SP => self.sp,
            _ => self.pc,
        }
    }

    pub fn set_regu16(&mut self, r: Register, v: u16)
        requires
            r.is_wide(),
        ensures
            *final(self) == old(self).with_reg16(r, v),
    {
        match r {
            Register::AF => {
                self.af = AFReg::from_u16(v);
            },
            Register::BC => {
                self.b = (v / 256) as u8;
                self.c = (v % 256) as u8;
            },
            Register::DE => {
                self.d = (v / 256) as u8;
                self.e = (v % 256) as u8;
            },
            Register::HL => {
                self.h = (v / 256) as u8;
                self.l = (v % 256) as u8;
            },
            Register::SP => {
                self.sp = v;
            },
            _ => {
                self.pc = v;
            },
        }
    }

    /// Reads an 8-bit operand: a byte register, or the byte a pair points at.
    pub fn get_regu8(&self, r: Register) -> (v: Result<u8, EmuError>)
        requires
            self.wf(),
            r.is_operand8(),
        ensures
            v == self.read8(r),
            v is Err ==> v->Err_0.is_bus_fault(),
    {
        match r {
            Register::PBC => self.memory.get_address(self.get_regu16(Register::BC)),
            Register::PDE => self.memory.get_address(self.get_regu16(Register::DE)),
            Register::PHL => self.memory.get_address(self.get_regu16(Register::HL)),
            _ => Ok(self.reg(r)),
        }
    }

    /// Writes an 8-bit operand: a byte register, or the byte a pair points at.
    pub fn set_regu8(&mut self, r: Register, v: u8) -> (res: Result<(), EmuError>)
        requires
            old(self).wf(),
            r.is_operand8(),
        ensures
            final(self).wf(),
            res == old(self).store8_result(r),
            res is Err ==> res->Err_0.is_bus_fault(),
            res is Ok ==> old(self).stored8(*final(self), r, v),
            res is Err ==> *final(self) == *old(self),
    {
        match r {
            Register::A => {
                self.af.set_a(v);
            },
            Register::F => {
                self.af.set_f(v);
                proof {
                    assert(pair(self.af.a, v) % 256 == v);
                    assert(pair(self.af.a, v) / 256 == self.af.a);
                }
            },
            Register::B => {
                self.b = v;
            },
            Register::C => {
                self.c = v;
            },
            Register::D => {
                self.d = v;
            },
            Register::E => {
                self.e = v;
            },
            Register::H => {
                self.h = v;
            },
            Register::L => {
                self.l = v;
            },
            Register::PBC => {
                let addr = self.get_regu16(Register::BC);
                return self.memory.write_byte(addr, v);
            },
            Register::PDE => {
                let addr = self.get_regu16(Register::DE);
                return self.memory.write_byte(addr, v);
            },
            _ => {
                let addr = self.get_regu16(Register::HL);
                return self.memory.write_byte(addr, v);
            },
        }
        Ok(())
    }
}

/// The high and the low byte register of a pair.
pub open spec fn halves(wide: Register) -> (Register, Register) {
    match wide {
        Register::BC => (Register::B, Register::C),
        Register::DE => (Register::D, Register::E),
        Register::HL => (Register::H, Register::L),
        _ => (Register::A, Register::F),
    }
}

/// Writing both halves of a pair and then reading the pair gives the value
/// they compose; writing the pair and then reading either half gives that
/// half of the value. F holds only its high nibble, so for AF the law is
/// stated of values whose low nibble is zero.
pub proof fn register_pair_round_trip(cpu: Cpu, wide: Register, hi: u8, lo: u8, v: u16)
    requires
        wide == Register::BC || wide == Register::DE || wide == Register::HL || wide
            == Register::AF,
        wide == Register::AF ==> lo % 16 == 0 && v % 16 == 0,
    ensures
        cpu.with_reg8(halves(wide).0, hi).with_reg8(halves(wide).1, lo).reg16(wide) == pair(
            hi,
            lo,
        ),
        cpu.with_reg16(wide, v).reg8(halves(wide).0) == hi_byte(v),
        cpu.with_reg16(wide, v).reg8(halves(wide).1) == lo_byte(v),
{
    if wide == Register::AF {
        lemma_flags_byte(lo);
        lemma_flags_byte(lo_byte(v));
        assert(pair(hi, lo) % 256 == lo);
        assert(pair(hi, lo) / 256 == hi);
    }
}

} // verus!
