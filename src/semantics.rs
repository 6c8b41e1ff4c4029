use vstd::prelude::*;
use crate::alu;
use crate::cpu::{Cpu, wrap16, wrap64};
use crate::decode::{alu_op_spec, cond_spec, r8_spec, rp_spec, rp2_spec, shift_op_spec};
use crate::error::EmuError;
use crate::instructions::{Modify, modify_spec};
use crate::cartridge::Mapper;
use crate::registers::{AFReg, pair, hi_byte, lo_byte};
use crate::utils::{InterruptStatus, Register};

verus! {

/// The read-modify-write operation of an extended opcode outside the BIT block.
pub open spec fn cb_modify_spec(op: u8) -> Modify {
    if op / 64 == 0 {
        Modify::Shift(shift_op_spec((op / 8) % 8))
    } else if op / 64 == 2 {
        Modify::Res((op / 8) % 8)
    } else {
        Modify::SetBit((op / 8) % 8)
    }
}

impl Cpu {
    /// The byte an instruction fetch at PC gives; the boot latch moves only
    /// after the byte at 0x00FF is read.
    pub open spec fn next_byte(self) -> Result<u8, EmuError> {
        self.memory.read_spec(self.pc)
    }

    /// The processor after a successful fetch at PC.
    pub open spec fn after_fetch(self) -> Cpu {
        Cpu {
            memory: self.memory.latched(self.pc),
            pc: wrap16(self.pc + 1),
            clocks: wrap64(self.clocks + 1),
            ..self
        }
    }

    /// The little-endian word that two fetches at PC give.
    pub open spec fn next_word(self) -> Result<u16, EmuError> {
        match self.next_byte() {
            Err(e) => Err(e),
            Ok(lo) => match self.after_fetch().next_byte() {
                Err(e) => Err(e),
                Ok(hi) => Ok(pair(hi, lo)),
            },
        }
    }

    /// `new` is `self` after a successful write of `v` to `addr`.
    pub open spec fn wrote(self, new: Cpu, addr: u16, v: u8) -> bool {
        &&& self.memory.write_result(addr) is Ok
        &&& self.memory.written(new.memory, addr, v)
        &&& new == (Cpu { memory: new.memory, ..self })
    }

    /// `new` is `self` after a successful read of `addr` into A.
    pub open spec fn loaded_a(self, new: Cpu, addr: u16) -> bool {
        &&& self.memory.read_spec(addr) is Ok
        &&& new == (Cpu { af: AFReg { a: self.memory.read_spec(addr)->Ok_0, ..self.af }, ..self })
    }

    /// `new` is `self` after pushing PC and jumping to `addr`.
    pub open spec fn called(self, new: Cpu, addr: u16) -> bool {
        exists|mid: Cpu|
            #![trigger self.pushed(mid, self.pc)]
            self.pushed(mid, self.pc) && new == (Cpu { pc: addr, ..mid })
    }

    /// `new` is `self` after a successful read-modify-write of an operand.
    pub open spec fn modified(self, new: Cpu, reg: Register, op: Modify) -> bool {
        &&& self.read8(reg) is Ok
        &&& (Cpu { af: modify_spec(op, self.read8(reg)->Ok_0, self.af).1, ..self }).stored8(
            new,
            reg,
            modify_spec(op, self.read8(reg)->Ok_0, self.af).0,
        )
    }

    /// A successful extended opcode.
    pub open spec fn executes_cb(self, new: Cpu, op: u8) -> bool {
        let reg = r8_spec(op % 8);
        if op / 64 == 1 {
            &&& self.read8(reg) is Ok
            &&& new == (Cpu {
                af: alu::bit_spec((op / 8) % 8, self.read8(reg)->Ok_0, self.af),
                ..self
            })
        } else {
            self.modified(new, reg, cb_modify_spec(op))
        }
    }

    /// A successful opcode of the LD block 0x40..=0x7F (HALT aside).
    pub open spec fn executes_ld(self, new: Cpu, op: u8) -> bool {
        &&& self.read8(r8_spec(op % 8)) is Ok
        &&& self.stored8(new, r8_spec((op / 8) % 8), self.read8(r8_spec(op % 8))->Ok_0)
    }

    /// A successful opcode of the ALU block 0x80..=0xBF.
    pub open spec fn executes_alu(self, new: Cpu, op: u8) -> bool {
        &&& self.read8(r8_spec(op % 8)) is Ok
        &&& new == (Cpu {
            af: alu::alu_spec(alu_op_spec((op / 8) % 8), self.af, self.read8(r8_spec(op % 8))->Ok_0),
            ..self
        })
    }

    /// HL after LD (HL+),A / LD A,(HL+) (p = 2) and their (HL-) forms (p = 3).
    pub open spec fn hl_stepped(self, p: u8, addr: u16) -> Cpu {
        if p == 2 {
            self.with_reg16(Register::HL, wrap16(addr + 1))
        } else if p == 3 {
            self.with_reg16(Register::HL, wrap16(addr - 1))
        } else {
            self
        }
    }

    /// A successful opcode 0x00..=0x3F with z = 0: NOP, LD (nn),SP, JR.
    pub open spec fn executes_x0_z0(self, new: Cpu, op: u8) -> bool {
        let y = (op / 8) % 8;
        let s1 = self.after_fetch();
        let s2 = s1.after_fetch();
        if y == 0 {
            new == self
        } else if y == 1 {
            let nn = self.next_word()->Ok_0;
            &&& self.next_word() is Ok
            &&& exists|m: Cpu|
                #![trigger s2.wrote(m, nn, lo_byte(s2.sp))]
                s2.wrote(m, nn, lo_byte(s2.sp)) && m.wrote(new, wrap16(nn + 1), hi_byte(s2.sp))
        } else {
            &&& self.next_byte() is Ok
            &&& new == if y == 3 || cond_spec((y - 4) as u8).holds(self.af.z, self.af.c) {
                Cpu { pc: alu::offset_spec(s1.pc, self.next_byte()->Ok_0), ..s1 }
            } else {
                s1
            }
        }
    }

    /// A successful opcode 0x00..=0x3F with z = 1: LD rr,nn and ADD HL,rr.
    pub open spec fn executes_x0_z1(self, new: Cpu, op: u8) -> bool {
        let y = (op / 8) % 8;
        let rr = rp_spec(y / 2);
        if y % 2 == 0 {
            &&& self.next_word() is Ok
            &&& new == self.after_fetch().after_fetch().with_reg16(rr, self.next_word()->Ok_0)
        } else {
            let (v, f) = alu::add16_spec(self.reg16(Register::HL), self.reg16(rr), self.af);
            new == (Cpu { af: f, ..self }).with_reg16(Register::HL, v)
        }
    }

    /// A successful opcode 0x00..=0x3F with z = 2: A through (BC), (DE), (HL+), (HL-).
    pub open spec fn executes_x0_z2(self, new: Cpu, op: u8) -> bool {
        let y = (op / 8) % 8;
        let p = y / 2;
        let ptr = if p == 0 {
            Register::BC
        } else if p == 1 {
            Register::DE
        } else {
            Register::HL
        };
        let addr = self.reg16(ptr);
        if y % 2 == 0 {
            let m = Cpu { memory: new.memory, ..self };
            self.wrote(m, addr, self.af.a) && new == m.hl_stepped(p, addr)
        } else {
            let m = Cpu { af: AFReg { a: self.memory.read_spec(addr)->Ok_0, ..self.af }, ..self };
            self.loaded_a(m, addr) && new == m.hl_stepped(p, addr)
        }
    }

    /// A successful opcode 0x00..=0x3F with z >= 3: INC/DEC rr, INC/DEC r,
    /// LD r,n, the accumulator rotates, DAA, CPL, SCF and CCF.
    pub open spec fn executes_x0_rest(self, new: Cpu, op: u8) -> bool {
        let y = (op / 8) % 8;
        let z = op % 8;
        if z == 3 {
            let rr = rp_spec(y / 2);
            new == self.with_reg16(
                rr,
                wrap16(self.reg16(rr) + if y % 2 == 0 {
                    1int
                } else {
                    -1int
                }),
            )
        } else if z == 4 {
            self.modified(new, r8_spec(y), Modify::Inc)
        } else if z == 5 {
            self.modified(new, r8_spec(y), Modify::Dec)
        } else if z == 6 {
            &&& self.next_byte() is Ok
            &&& self.after_fetch().stored8(new, r8_spec(y), self.next_byte()->Ok_0)
        } else {
            new == (Cpu {
                af: if y < 4 {
                    alu::rotate_a_spec(shift_op_spec(y), self.af)
                } else if y == 4 {
                    alu::daa_spec(self.af)
                } else if y == 5 {
                    AFReg { a: (255 - self.af.a) as u8, n: true, h: true, ..self.af }
                } else if y == 6 {
                    AFReg { n: false, h: false, c: true, ..self.af }
                } else {
                    AFReg { n: false, h: false, c: !self.af.c, ..self.af }
                },
                ..self
            })
        }
    }

    /// A successful opcode 0xC0..=0xFF with z = 0: RET cc, the high-page
    /// loads through an immediate, ADD SP,e and LD HL,SP+e.
    pub open spec fn executes_x3_z0(self, new: Cpu, op: u8) -> bool {
        let y = (op / 8) % 8;
        let s1 = self.after_fetch();
        let n = self.next_byte()->Ok_0;
        if y < 4 {
            if cond_spec(y).holds(self.af.z, self.af.c) {
                self.popped(new, Register::PC)
            } else {
                new == self
            }
        } else {
            &&& self.next_byte() is Ok
            &&& if y == 4 {
                s1.wrote(new, (0xFF00 + n) as u16, self.af.a)
            } else if y == 5 {
                new == (Cpu {
                    sp: alu::add_sp_spec(s1.sp, n, s1.af).0,
                    af: alu::add_sp_spec(s1.sp, n, s1.af).1,
                    ..s1
                })
            } else if y == 6 {
                s1.loaded_a(new, (0xFF00 + n) as u16)
            } else {
                new == (Cpu { af: alu::add_sp_spec(s1.sp, n, s1.af).1, ..s1 }).with_reg16(
                    Register::HL,
                    alu::add_sp_spec(s1.sp, n, s1.af).0,
                )
            }
        }
    }

    /// A successful opcode 0xC0..=0xFF with z = 1: POP, RET, RETI, JP HL, LD SP,HL.
    pub open spec fn executes_x3_z1(self, new: Cpu, op: u8) -> bool {
        let y = (op / 8) % 8;
        let p = y / 2;
        if y % 2 == 0 {
            self.popped(new, rp2_spec(p))
        } else if p == 0 {
            self.popped(new, Register::PC)
        } else if p == 1 {
            self.popped(new, Register::PC)
        } else if p == 2 {
            new == (Cpu { pc: self.reg16(Register::HL), ..self })
        } else {
            new == (Cpu { sp: self.reg16(Register::HL), ..self })
        }
    }

    /// A successful opcode 0xC0..=0xFF with z = 2: JP cc,nn and the
    /// accumulator loads through C or an address.
    pub open spec fn executes_x3_z2(self, new: Cpu, op: u8) -> bool {
        let y = (op / 8) % 8;
        let s2 = self.after_fetch().after_fetch();
        let nn = self.next_word()->Ok_0;
        let via_c = (0xFF00 + self.c) as u16;
        if y == 4 {
            self.wrote(new, via_c, self.af.a)
        } else if y == 6 {
            self.loaded_a(new, via_c)
        } else {
            &&& self.next_word() is Ok
            &&& if y < 4 {
                new == if cond_spec(y).holds(self.af.z, self.af.c) {
                    Cpu { pc: nn, ..s2 }
                } else {
                    s2
                }
            } else if y == 5 {
                s2.wrote(new, nn, self.af.a)
            } else {
                s2.loaded_a(new, nn)
            }
        }
    }

    /// A successful opcode 0xC0..=0xFF with z >= 3: JP nn, the CB prefix, DI,
    /// EI, CALL, PUSH, immediate ALU operations and RST.
    pub open spec fn executes_x3_rest(self, new: Cpu, op: u8) -> bool {
        let y = (op / 8) % 8;
        let z = op % 8;
        let s1 = self.after_fetch();
        let s2 = s1.after_fetch();
        let nn = self.next_word()->Ok_0;
        if z == 3 {
            if y == 0 {
                self.next_word() is Ok && new == (Cpu { pc: nn, ..s2 })
            } else if y == 1 {
                self.next_byte() is Ok && s1.executes_cb(new, self.next_byte()->Ok_0)
            } else if y == 6 {
                new == (Cpu { interrupt_enable: InterruptStatus::StartDisable, ..self })
            } else {
                new == (Cpu { interrupt_enable: InterruptStatus::StartEnable, ..self })
            }
        } else if z == 4 || (z == 5 && y % 2 == 1) {
            &&& self.next_word() is Ok
            &&& if z == 5 || cond_spec(y).holds(self.af.z, self.af.c) {
                s2.called(new, nn)
            } else {
                new == s2
            }
        } else if z == 5 {
            self.pushed(new, self.reg16(rp2_spec(y / 2)))
        } else if z == 6 {
            &&& self.next_byte() is Ok
            &&& new == (Cpu {
                af: alu::alu_spec(alu_op_spec(y), self.af, self.next_byte()->Ok_0),
                ..s1
            })
        } else {
            self.called(new, (y * 8) as u16)
        }
    }

    /// A successful primary opcode, executed from `self` (PC already past the
    /// opcode), before the per-instruction interrupt-enable transition.
    pub open spec fn executes(self, new: Cpu, op: u8) -> bool {
        let x = op / 64;
        let z = op % 8;
        if x == 1 {
            self.executes_ld(new, op)
        } else if x == 2 {
            self.executes_alu(new, op)
        } else if x == 0 {
            if z == 0 {
                self.executes_x0_z0(new, op)
            } else if z == 1 {
                self.executes_x0_z1(new, op)
            } else if z == 2 {
                self.executes_x0_z2(new, op)
            } else {
                self.executes_x0_rest(new, op)
            }
        } else {
            if z == 0 {
                self.executes_x3_z0(new, op)
            } else if z == 1 {
                self.executes_x3_z1(new, op)
            } else if z == 2 {
                self.executes_x3_z2(new, op)
            } else {
                self.executes_x3_rest(new, op)
            }
        }
    }

    /// Whether an extended opcode fails: its operand cannot be read, or
    /// (outside BIT) written back.
    pub open spec fn fails_cb(self, op: u8) -> bool {
        let reg = r8_spec(op % 8);
        self.read8(reg) is Err || (op / 64 != 1 && self.store8_result(reg) is Err)
    }

    pub open spec fn fails_x0_z0(self, op: u8) -> bool {
        let y = (op / 8) % 8;
        let s2 = self.after_fetch().after_fetch();
        let nn = self.next_word()->Ok_0;
        if y == 0 {
            false
        } else if y == 1 {
            self.next_word() is Err || s2.memory.write_result(nn) is Err
                || s2.memory.write_result(wrap16(nn + 1)) is Err
        } else if y == 2 {
            true
        } else {
            self.next_byte() is Err
        }
    }

    pub open spec fn fails_x0_z1(self, op: u8) -> bool {
        ((op / 8) % 8) % 2 == 0 && self.next_word() is Err
    }

    pub open spec fn fails_x0_z2(self, op: u8) -> bool {
        let y = (op / 8) % 8;
        let p = y / 2;
        let ptr = if p == 0 {
            Register::BC
        } else if p == 1 {
            Register::DE
        } else {
            Register::HL
        };
        if y % 2 == 0 {
            self.memory.write_result(self.reg16(ptr)) is Err
        } else {
            self.memory.read_spec(self.reg16(ptr)) is Err
        }
    }

    pub open spec fn fails_x0_rest(self, op: u8) -> bool {
        let y = (op / 8) % 8;
        let z = op % 8;
        if z == 4 || z == 5 {
            self.read8(r8_spec(y)) is Err || self.store8_result(r8_spec(y)) is Err
        } else if z == 6 {
            self.next_byte() is Err || self.after_fetch().store8_result(r8_spec(y)) is Err
        } else {
            false
        }
    }

    pub open spec fn fails_x3_z0(self, op: u8) -> bool {
        let y = (op / 8) % 8;
        let s1 = self.after_fetch();
        let n = self.next_byte()->Ok_0;
        if y < 4 {
            cond_spec(y).holds(self.af.z, self.af.c) && self.pop_result() is Err
        } else if y == 4 {
            self.next_byte() is Err || s1.memory.write_result((0xFF00 + n) as u16) is Err
        } else if y == 6 {
            self.next_byte() is Err || s1.memory.read_spec((0xFF00 + n) as u16) is Err
        } else {
            self.next_byte() is Err
        }
    }

    pub open spec fn fails_x3_z1(self, op: u8) -> bool {
        let y = (op / 8) % 8;
        (y % 2 == 0 || y / 2 <= 1) && self.pop_result() is Err
    }

    pub open spec fn fails_x3_z2(self, op: u8) -> bool {
        let y = (op / 8) % 8;
        let s2 = self.after_fetch().after_fetch();
        let nn = self.next_word()->Ok_0;
        let via_c = (0xFF00 + self.c) as u16;
        if y < 4 {
            self.next_word() is Err
        } else if y == 4 {
            self.memory.write_result(via_c) is Err
        } else if y == 5 {
            self.next_word() is Err || s2.memory.write_result(nn) is Err
        } else if y == 6 {
            self.memory.read_spec(via_c) is Err
        } else {
            self.next_word() is Err || s2.memory.read_spec(nn) is Err
        }
    }

    pub open spec fn fails_x3_rest(self, op: u8) -> bool {
        let y = (op / 8) % 8;
        let z = op % 8;
        let s1 = self.after_fetch();
        let s2 = s1.after_fetch();
        if z == 3 {
            if y == 0 {
                self.next_word() is Err
            } else if y == 1 {
                self.next_byte() is Err || s1.fails_cb(self.next_byte()->Ok_0)
            } else {
                y != 6 && y != 7
            }
        } else if (z == 4 && y < 4) || (z == 5 && y == 1) {
            self.next_word() is Err || ((z == 5 || cond_spec(y).holds(self.af.z, self.af.c))
                && s2.push_result() is Err)
        } else if z == 4 || (z == 5 && y % 2 == 1) {
            true
        } else if z == 5 {
            self.push_result() is Err
        } else if z == 6 {
            self.next_byte() is Err
        } else {
            self.push_result() is Err
        }
    }

    /// Whether a primary opcode, executed from `self` (PC already past the
    /// opcode), fails: it is undefined, or one of its fetches, reads or writes
    /// faults.
    #[verifier::opaque]
    pub open spec fn fails(self, op: u8) -> bool {
        let x = op / 64;
        let z = op % 8;
        if x == 1 {
            op == 0x76 || self.read8(r8_spec(op % 8)) is Err || self.store8_result(
                r8_spec((op / 8) % 8),
            ) is Err
        } else if x == 2 {
            self.read8(r8_spec(op % 8)) is Err
        } else if x == 0 {
            if z == 0 {
                self.fails_x0_z0(op)
            } else if z == 1 {
                self.fails_x0_z1(op)
            } else if z == 2 {
                self.fails_x0_z2(op)
            } else {
                self.fails_x0_rest(op)
            }
        } else {
            if z == 0 {
                self.fails_x3_z0(op)
            } else if z == 1 {
                self.fails_x3_z1(op)
            } else if z == 2 {
                self.fails_x3_z2(op)
            } else {
                self.fails_x3_rest(op)
            }
        }
    }
}

/// Once an instruction is fetched from 0x00FF the start-up program is gone
/// for good: address 0 then shows a ROM-only cartridge's first byte.
pub proof fn boot_unmaps_at_ff(cpu: Cpu)
    requires
        cpu.wf(),
        cpu.pc == 0xFF,
        cpu.memory.cartridge.mapper == Mapper::RomOnly,
    ensures
        cpu.after_fetch().memory.boot_finished,
        cpu.after_fetch().memory.read_spec(0) == Ok::<u8, EmuError>(cpu.memory.cartridge.data@[0]),
{
}

} // verus!
