use vstd::prelude::*;
use crate::alu;
use crate::cpu::{Cpu, lemma_wrap64_add, wrap64};
use crate::decode::{alu_op, cond, r8, rp, rp2, shift_op, undefined_opcode};
use crate::error::EmuError;
use crate::instructions::Modify;
use crate::interrupt::{interrupt_vector, vector_spec};
use crate::memory::IF_ADDR;
use crate::registers::lo_byte;
use crate::utils::{InterruptStatus, Register};

verus! {

/// The interrupt master enable as an instruction leaves it, before the
/// per-instruction transition: DI and EI start their delays; every other
/// opcode leaves it as it was.
pub open spec fn ime_after(op: u8, s: InterruptStatus) -> InterruptStatus {
    if op == 0xF3 {
        InterruptStatus::StartDisable
    } else if op == 0xFB {
        InterruptStatus::StartEnable
    } else {
        s
    }
}

/// Once DI has run, interrupts stay off until an EI: from a disabling or
/// disabled state, any opcode but EI leaves the state disabling or disabled.
pub proof fn disabled_until_ei(s: InterruptStatus, op: u8)
    requires
        s == InterruptStatus::StartDisable || s == InterruptStatus::PendingDisable || s
            == InterruptStatus::Unset,
        op != 0xFB,
    ensures
        ime_after(op, s).advance_spec() == InterruptStatus::PendingDisable || ime_after(
            op,
            s,
        ).advance_spec() == InterruptStatus::Unset,
{
}

/// The vector to service before the next fetch, if any: only when interrupts
/// are enabled and a request is both flagged in IF and enabled in IE.
pub open spec fn service_vector(cpu: Cpu) -> Option<u16> {
    if cpu.interrupt_enable == InterruptStatus::Enabled {
        vector_spec(cpu.memory.ie_reg & cpu.memory.io_reg@[0x0F])
    } else {
        None
    }
}

impl Cpu {
    /// `new` is what executing `op` from `self` left, with `r` its outcome: on
    /// success, the cycles charged for immediates, and the interrupt enable as
    /// the opcode sets it; on failure, a bus fault unless the opcode is
    /// undefined, and the interrupt enable untouched.
    pub open spec fn stepped(self, new: Cpu, op: u8, r: Result<u64, EmuError>) -> bool {
        &&& new.wf()
        &&& r is Err ==> r->Err_0.is_bus_fault() || undefined_opcode(op)
        &&& r is Err ==> new.interrupt_enable == self.interrupt_enable
        &&& r is Ok ==> r->Ok_0 <= 2 && new.clocks == wrap64(self.clocks + r->Ok_0)
            && new.interrupt_enable == ime_after(op, self.interrupt_enable)
    }

    /// Fetches a little-endian 16-bit immediate, charging two cycles.
    pub fn imm_u16(&mut self) -> (r: Result<u16, EmuError>)
        requires
            old(self).wf(),
        ensures
            final(self).interrupt_enable == old(self).interrupt_enable,
            r is Err ==> r->Err_0.is_bus_fault(),
            final(self).wf(),
            r == old(self).next_word(),
            r is Ok ==> *final(self) == old(self).after_fetch().after_fetch(),
            r is Ok ==> final(self).clocks == wrap64(old(self).clocks + 2),
    {
        let lo = self.fetch()?;
        let hi = self.fetch()?;
        proof {
            lemma_wrap64_add(old(self).clocks, 1, 1);
        }
        Ok(hi as u16 * 256 + lo as u16)
    }

    /// The extended table: rotates and shifts, BIT, RES and SET over the
    /// operand matrix.
    pub fn execute_cb(&mut self, op: u8) -> (r: Result<(), EmuError>)
        requires
            old(self).wf(),
        ensures
            final(self).interrupt_enable == old(self).interrupt_enable,
            r is Err ==> r->Err_0.is_bus_fault(),
            final(self).wf(),
            r is Err <==> old(self).fails_cb(op),
            r is Ok ==> old(self).executes_cb(*final(self), op),
    {
        let x = op / 64;
        let y = (op / 8) % 8;
        let reg = r8(op % 8);
        if x == 0 {
            self.modify8(reg, Modify::Shift(shift_op(y)))
        } else if x == 1 {
            self.bit8(y, reg)
        } else if x == 2 {
            self.modify8(reg, Modify::Res(y))
        } else {
            self.modify8(reg, Modify::SetBit(y))
        }
    }

    /// NOP, LD (nn),SP, STOP and the relative jumps.
    fn execute_x0_z0(&mut self, op: u8, at: u16) -> (r: Result<u64, EmuError>)
        requires
            old(self).wf(),
            op < 0x40,
            op % 8 == 0,
        ensures
            old(self).stepped(*final(self), op, r),
            r is Err <==> old(self).fails_x0_z0(op),
            r is Ok ==> old(self).executes_x0_z0(*final(self), op),
            undefined_opcode(op) ==> r == Err::<u64, EmuError>(
                EmuError::UnimplementedOpcode { opcode: op, pc: at },
            ),
    {
        let y = (op / 8) % 8;
        if y == 0 {
            Ok(0)
        } else if y == 1 {
            let nn = self.imm_u16()?;
            let sp = self.sp;
            self.memory.write_byte(nn, (sp % 256) as u8)?;
            let ghost m = *self;
            self.memory.write_byte(nn.wrapping_add(1), (sp / 256) as u8)?;
            proof {
                let s2 = old(self).after_fetch().after_fetch();
                assert(s2.wrote(m, nn, lo_byte(s2.sp)));
            }
            Ok(2)
        } else if y == 2 {
            Err(EmuError::UnimplementedOpcode { opcode: op, pc: at })
        } else {
            let e = self.fetch()?;
            if y == 3 || cond(y - 4).check(self) {
                self.pc = alu::offset(self.pc, e);
            }
            Ok(1)
        }
    }

    /// 16-bit immediate loads and ADD HL,rr.
    fn execute_x0_z1(&mut self, op: u8, at: u16) -> (r: Result<u64, EmuError>)
        requires
            old(self).wf(),
            op < 0x40,
            op % 8 == 1,
        ensures
            old(self).stepped(*final(self), op, r),
            r is Err <==> old(self).fails_x0_z1(op),
            r is Ok ==> old(self).executes_x0_z1(*final(self), op),
            undefined_opcode(op) ==> r == Err::<u64, EmuError>(
                EmuError::UnimplementedOpcode { opcode: op, pc: at },
            ),
    {
        let y = (op / 8) % 8;
        if y % 2 == 0 {
            let nn = self.imm_u16()?;
            self.set_regu16(rp(y / 2), nn);
            Ok(2)
        } else {
            self.add_hl(rp(y / 2));
            Ok(0)
        }
    }

    /// The accumulator loads through BC, DE and HL, with HL stepped after.
    fn execute_x0_z2(&mut self, op: u8, at: u16) -> (r: Result<u64, EmuError>)
        requires
            old(self).wf(),
            op < 0x40,
            op % 8 == 2,
        ensures
            old(self).stepped(*final(self), op, r),
            r is Err <==> old(self).fails_x0_z2(op),
            r is Ok ==> old(self).executes_x0_z2(*final(self), op),
            undefined_opcode(op) ==> r == Err::<u64, EmuError>(
                EmuError::UnimplementedOpcode { opcode: op, pc: at },
            ),
    {
        let y = (op / 8) % 8;
        let p = y / 2;
        let ptr = if p == 0 {
            Register::BC
        } else if p == 1 {
            Register::DE
        } else {
            Register::HL
        };
        let addr = self.get_regu16(ptr);
        if y % 2 == 0 {
            let a = self.af.a;
            self.memory.write_byte(addr, a)?;
        } else {
            let v = self.memory.get_address(addr)?;
            self.af.a = v;
        }
        let ghost m = *self;
        if p == 2 {
            self.set_regu16(Register::HL, addr.wrapping_add(1));
        } else if p == 3 {
            self.set_regu16(Register::HL, addr.wrapping_sub(1));
        }
        proof {
            assert(*self == m.hl_stepped(p, addr));
        }
        Ok(0)
    }

    /// INC and DEC, 8-bit immediate loads, and the accumulator rotates and flag operations.
    fn execute_x0_rest(&mut self, op: u8, at: u16) -> (r: Result<u64, EmuError>)
        requires
            old(self).wf(),
            op < 0x40,
            op % 8 >= 3,
        ensures
            old(self).stepped(*final(self), op, r),
            r is Err <==> old(self).fails_x0_rest(op),
            r is Ok ==> old(self).executes_x0_rest(*final(self), op),
            undefined_opcode(op) ==> r == Err::<u64, EmuError>(
                EmuError::UnimplementedOpcode { opcode: op, pc: at },
            ),
    {
        let y = (op / 8) % 8;
        let z = op % 8;
        if z == 3 {
            self.step16(rp(y / 2), y % 2 == 0);
            Ok(0)
        } else if z == 4 {
            self.modify8(r8(y), Modify::Inc)?;
            Ok(0)
        } else if z == 5 {
            self.modify8(r8(y), Modify::Dec)?;
            Ok(0)
        } else if z == 6 {
            let n = self.fetch()?;
            self.set_regu8(r8(y), n)?;
            Ok(1)
        } else {
            if y < 4 {
                self.af = alu::rotate_a(shift_op(y), self.af);
            } else if y == 4 {
                self.af = alu::daa(self.af);
            } else if y == 5 {
                self.af = alu::cpl(self.af);
            } else if y == 6 {
                self.af = alu::scf(self.af);
            } else {
                self.af = alu::ccf(self.af);
            }
            Ok(0)
        }
    }

    /// Opcodes 0x00..=0x3F. Returns the cycles charged for immediates.
    fn execute_x0(&mut self, op: u8, at: u16) -> (r: Result<u64, EmuError>)
        requires
            old(self).wf(),
            op < 0x40,
        ensures
            old(self).stepped(*final(self), op, r),
            r is Err <==> old(self).fails(op),
            r is Ok ==> old(self).executes(*final(self), op),
            undefined_opcode(op) ==> r == Err::<u64, EmuError>(
                EmuError::UnimplementedOpcode { opcode: op, pc: at },
            ),
    {
        proof {
            reveal(Cpu::executes);
            reveal(Cpu::fails);
        }
        let z = op % 8;
        if z == 0 {
            self.execute_x0_z0(op, at)
        } else if z == 1 {
            self.execute_x0_z1(op, at)
        } else if z == 2 {
            self.execute_x0_z2(op, at)
        } else {
            self.execute_x0_rest(op, at)
        }
    }

    /// Conditional returns, the high-page loads and the SP-relative adds.
    fn execute_x3_z0(&mut self, op: u8, at: u16) -> (r: Result<u64, EmuError>)
        requires
            old(self).wf(),
            op >= 0xC0,
            op % 8 == 0,
        ensures
            old(self).stepped(*final(self), op, r),
            r is Err <==> old(self).fails_x3_z0(op),
            r is Ok ==> old(self).executes_x3_z0(*final(self), op),
            undefined_opcode(op) ==> r == Err::<u64, EmuError>(
                EmuError::UnimplementedOpcode { opcode: op, pc: at },
            ),
    {
        let y = (op / 8) % 8;
        if y < 4 {
            if cond(y).check(self) {
                self.pop_into(Register::PC)?;
            }
            Ok(0)
        } else if y == 4 {
            let n = self.fetch()?;
            let a = self.af.a;
            self.memory.write_byte(0xFF00 + n as u16, a)?;
            Ok(1)
        } else if y == 5 {
            let e = self.fetch()?;
            let (v, f) = alu::add_sp(self.sp, e, self.af);
            self.sp = v;
            self.af = f;
            Ok(1)
        } else if y == 6 {
            let n = self.fetch()?;
            let v = self.memory.get_address(0xFF00 + n as u16)?;
            self.af.a = v;
            Ok(1)
        } else {
            let e = self.fetch()?;
            let (v, f) = alu::add_sp(self.sp, e, self.af);
            self.af = f;
            self.set_regu16(Register::HL, v);
            Ok(1)
        }
    }

    /// POP, RET, RETI, JP HL and LD SP,HL.
    fn execute_x3_z1(&mut self, op: u8, at: u16) -> (r: Result<u64, EmuError>)
        requires
            old(self).wf(),
            op >= 0xC0,
            op % 8 == 1,
        ensures
            old(self).stepped(*final(self), op, r),
            r is Err <==> old(self).fails_x3_z1(op),
            r is Ok ==> old(self).executes_x3_z1(*final(self), op),
            undefined_opcode(op) ==> r == Err::<u64, EmuError>(
                EmuError::UnimplementedOpcode { opcode: op, pc: at },
            ),
    {
        let y = (op / 8) % 8;
        let p = y / 2;
        if y % 2 == 0 {
            self.pop_into(rp2(p))?;
        } else if p == 0 {
            self.pop_into(Register::PC)?;
        } else if p == 1 {
            self.pop_into(Register::PC)?;
        } else if p == 2 {
            self.pc = self.get_regu16(Register::HL);
        } else {
            self.sp = self.get_regu16(Register::HL);
        }
        Ok(0)
    }

    /// Conditional jumps and the accumulator loads through C or an address.
    fn execute_x3_z2(&mut self, op: u8, at: u16) -> (r: Result<u64, EmuError>)
        requires
            old(self).wf(),
            op >= 0xC0,
            op % 8 == 2,
        ensures
            old(self).stepped(*final(self), op, r),
            r is Err <==> old(self).fails_x3_z2(op),
            r is Ok ==> old(self).executes_x3_z2(*final(self), op),
            undefined_opcode(op) ==> r == Err::<u64, EmuError>(
                EmuError::UnimplementedOpcode { opcode: op, pc: at },
            ),
    {
        let y = (op / 8) % 8;
        if y < 4 {
            let nn = self.imm_u16()?;
            if cond(y).check(self) {
                self.pc = nn;
            }
            Ok(2)
        } else if y == 4 {
            let a = self.af.a;
            self.memory.write_byte(0xFF00 + self.c as u16, a)?;
            Ok(0)
        } else if y == 5 {
            let nn = self.imm_u16()?;
            let a = self.af.a;
            self.memory.write_byte(nn, a)?;
            Ok(2)
        } else if y == 6 {
            let v = self.memory.get_address(0xFF00 + self.c as u16)?;
            self.af.a = v;
            Ok(0)
        } else {
            let nn = self.imm_u16()?;
            let v = self.memory.get_address(nn)?;
            self.af.a = v;
            Ok(2)
        }
    }

    /// JP nn, the CB prefix, DI and EI.
    fn execute_x3_z3(&mut self, op: u8, at: u16) -> (r: Result<u64, EmuError>)
        requires
            old(self).wf(),
            op >= 0xC0,
            op % 8 == 3,
        ensures
            old(self).stepped(*final(self), op, r),
            r is Err <==> old(self).fails_x3_rest(op),
            r is Ok ==> old(self).executes_x3_rest(*final(self), op),
            undefined_opcode(op) ==> r == Err::<u64, EmuError>(
                EmuError::UnimplementedOpcode { opcode: op, pc: at },
            ),
    {
        let y = (op / 8) % 8;
        if y == 0 {
            let nn = self.imm_u16()?;
            self.pc = nn;
            Ok(2)
        } else if y == 1 {
            let cb = self.fetch()?;
            self.execute_cb(cb)?;
            Ok(1)
        } else if y == 6 {
            self.interrupt_enable = InterruptStatus::StartDisable;
            Ok(0)
        } else if y == 7 {
            self.interrupt_enable = InterruptStatus::StartEnable;
            Ok(0)
        } else {
            Err(EmuError::UnimplementedOpcode { opcode: op, pc: at })
        }
    }

    /// PUSH rr.
    fn execute_x3_push(&mut self, op: u8, at: u16) -> (r: Result<u64, EmuError>)
        requires
            old(self).wf(),
            op >= 0xC0,
            op % 8 == 5 && (op / 8) % 2 == 0,
        ensures
            old(self).stepped(*final(self), op, r),
            r is Err <==> old(self).fails_x3_rest(op),
            r is Ok ==> old(self).executes_x3_rest(*final(self), op),
            undefined_opcode(op) ==> r == Err::<u64, EmuError>(
                EmuError::UnimplementedOpcode { opcode: op, pc: at },
            ),
    {
        let y = (op / 8) % 8;
        let v = self.get_regu16(rp2(y / 2));
        self.push(v)?;
        Ok(0)
    }

    /// CALL and CALL cc.
    fn execute_x3_calls(&mut self, op: u8, at: u16) -> (r: Result<u64, EmuError>)
        requires
            old(self).wf(),
            op >= 0xC0,
            op % 8 == 4 || (op % 8 == 5 && (op / 8) % 2 == 1),
        ensures
            old(self).stepped(*final(self), op, r),
            r is Err <==> old(self).fails_x3_rest(op),
            r is Ok ==> old(self).executes_x3_rest(*final(self), op),
            undefined_opcode(op) ==> r == Err::<u64, EmuError>(
                EmuError::UnimplementedOpcode { opcode: op, pc: at },
            ),
    {
        let y = (op / 8) % 8;
        let z = op % 8;
        if (z == 4 && y < 4) || (z == 5 && y == 1) {
            let nn = self.imm_u16()?;
            if z == 5 || cond(y).check(self) {
                self.call(nn)?;
            }
            Ok(2)
        } else {
            Err(EmuError::UnimplementedOpcode { opcode: op, pc: at })
        }
    }

    /// Immediate ALU operations and RST.
    fn execute_x3_last(&mut self, op: u8, at: u16) -> (r: Result<u64, EmuError>)
        requires
            old(self).wf(),
            op >= 0xC0,
            op % 8 >= 6,
        ensures
            old(self).stepped(*final(self), op, r),
            r is Err <==> old(self).fails_x3_rest(op),
            r is Ok ==> old(self).executes_x3_rest(*final(self), op),
            undefined_opcode(op) ==> r == Err::<u64, EmuError>(
                EmuError::UnimplementedOpcode { opcode: op, pc: at },
            ),
    {
        let y = (op / 8) % 8;
        if op % 8 == 6 {
            let n = self.fetch()?;
            self.alu_a(alu_op(y), n);
            Ok(1)
        } else {
            self.call(y as u16 * 8)?;
            Ok(0)
        }
    }

    /// Opcodes 0xC0..=0xFF. Returns the cycles charged for immediates.
    fn execute_x3(&mut self, op: u8, at: u16) -> (r: Result<u64, EmuError>)
        requires
            old(self).wf(),
            op >= 0xC0,
        ensures
            old(self).stepped(*final(self), op, r),
            r is Err <==> old(self).fails(op),
            r is Ok ==> old(self).executes(*final(self), op),
            undefined_opcode(op) ==> r == Err::<u64, EmuError>(
                EmuError::UnimplementedOpcode { opcode: op, pc: at },
            ),
    {
        proof {
            reveal(Cpu::executes);
            reveal(Cpu::fails);
        }
        let z = op % 8;
        if z == 0 {
            self.execute_x3_z0(op, at)
        } else if z == 1 {
            self.execute_x3_z1(op, at)
        } else if z == 2 {
            self.execute_x3_z2(op, at)
        } else if z == 3 {
            self.execute_x3_z3(op, at)
        } else if z == 5 && (op / 8) % 2 == 0 {
            self.execute_x3_push(op, at)
        } else if z <= 5 {
            self.execute_x3_calls(op, at)
        } else {
            self.execute_x3_last(op, at)
        }
    }

    /// Executes one decoded primary opcode fetched from `at`. Returns the
    /// cycles charged for immediates.
    fn execute(&mut self, op: u8, at: u16) -> (r: Result<u64, EmuError>)
        requires
            old(self).wf(),
        ensures
            old(self).stepped(*final(self), op, r),
            r is Err <==> old(self).fails(op),
            r is Ok ==> old(self).executes(*final(self), op),
            undefined_opcode(op) ==> r == Err::<u64, EmuError>(
                EmuError::UnimplementedOpcode { opcode: op, pc: at },
            ),
    {
        proof {
            reveal(Cpu::executes);
            reveal(Cpu::fails);
        }
        let x = op / 64;
        if x == 0 {
            self.execute_x0(op, at)
        } else if x == 1 {
            if op == 0x76 {
                return Err(EmuError::UnimplementedOpcode { opcode: op, pc: at });
            }
            let v = self.get_regu8(r8(op % 8))?;
            self.set_regu8(r8((op / 8) % 8), v)?;
            Ok(0)
        } else if x == 2 {
            let v = self.get_regu8(r8(op % 8))?;
            self.alu_a(alu_op((op / 8) % 8), v);
            Ok(0)
        } else {
            self.execute_x3(op, at)
        }
    }

    /// One fetch-decode-execute step, then the interrupt-enable transition.
    fn step(&mut self) -> (r: Result<u64, EmuError>)
        requires
            old(self).wf(),
        ensures
            final(self).wf(),
            ({
                let fetched = old(self).next_byte();
                &&& fetched is Err ==> r == Err::<u64, EmuError>(fetched->Err_0)
                &&& fetched is Ok && undefined_opcode(fetched->Ok_0) ==> r == Err::<u64, EmuError>(
                    EmuError::UnimplementedOpcode { opcode: fetched->Ok_0, pc: old(self).pc },
                )
                &&& r is Err && !(fetched is Ok && undefined_opcode(fetched->Ok_0))
                    ==> r->Err_0.is_bus_fault()
                &&& r is Err <==> (fetched is Err || old(self).after_fetch().fails(fetched->Ok_0))
                &&& r is Err ==> final(self).interrupt_enable == old(self).interrupt_enable
                &&& r is Ok ==> 1 <= r->Ok_0 <= 3 && final(self).clocks == wrap64(
                    old(self).clocks + r->Ok_0,
                ) && final(self).interrupt_enable == ime_after(
                    fetched->Ok_0,
                    old(self).interrupt_enable,
                ).advance_spec()
                &&& r is Ok ==> old(self).after_fetch().executes(
                    Cpu {
                        interrupt_enable: ime_after(fetched->Ok_0, old(self).interrupt_enable),
                        ..*final(self)
                    },
                    fetched->Ok_0,
                )
            }),
    {
        let at = self.pc;
        let op = self.fetch()?;
        let ghost fetched = *self;
        let k = self.execute(op, at)?;
        let ghost done = *self;
        self.interrupt_enable = self.interrupt_enable.advance();
        proof {
            lemma_wrap64_add(old(self).clocks, 1, k as int);
            assert(done == (Cpu {
                interrupt_enable: ime_after(op, old(self).interrupt_enable),
                ..*self
            }));
        }
        Ok(k + 1)
    }

    /// One unit of CPU work: either the service of a pending interrupt, or
    /// one fetch-decode-execute step. Returns the cycles it took.
    pub fn clock(&mut self) -> (r: Result<u64, EmuError>)
        requires
            old(self).wf(),
        ensures
            final(self).wf(),
            service_vector(*old(self)) matches Some(v) ==> {
                &&& r is Ok <==> old(self).push_result() is Ok
                &&& r is Err ==> r->Err_0.is_bus_fault()
                &&& r is Err ==> r == Err::<u64, EmuError>(old(self).push_result()->Err_0)
                &&& r is Err ==> final(self).interrupt_enable == old(self).interrupt_enable
                &&& r is Ok ==> r->Ok_0 == 5 && exists|mid: Cpu|
                    #![trigger old(self).pushed(mid, old(self).pc)]
                    old(self).pushed(mid, old(self).pc) && *final(self) == (Cpu {
                        pc: v,
                        interrupt_enable: InterruptStatus::Unset,
                        clocks: wrap64(old(self).clocks + 5),
                        ..mid
                    })
            },
            service_vector(*old(self)) is None ==> ({
                let fetched = old(self).next_byte();
                &&& fetched is Err ==> r == Err::<u64, EmuError>(fetched->Err_0)
                &&& fetched is Ok && undefined_opcode(fetched->Ok_0) ==> r == Err::<u64, EmuError>(
                    EmuError::UnimplementedOpcode { opcode: fetched->Ok_0, pc: old(self).pc },
                )
                &&& r is Err && !(fetched is Ok && undefined_opcode(fetched->Ok_0))
                    ==> r->Err_0.is_bus_fault()
                &&& r is Err <==> (fetched is Err || old(self).after_fetch().fails(fetched->Ok_0))
                &&& r is Err ==> final(self).interrupt_enable == old(self).interrupt_enable
                &&& r is Ok ==> 1 <= r->Ok_0 <= 3 && final(self).clocks == wrap64(
                    old(self).clocks + r->Ok_0,
                ) && final(self).interrupt_enable == ime_after(
                    fetched->Ok_0,
                    old(self).interrupt_enable,
                ).advance_spec()
                &&& r is Ok ==> old(self).after_fetch().executes(
                    Cpu {
                        interrupt_enable: ime_after(fetched->Ok_0, old(self).interrupt_enable),
                        ..*final(self)
                    },
                    fetched->Ok_0,
                )
            }),
    {
        if self.interrupt_enable.is_set() {
            let ie = self.memory.ie_reg;
            let iflag = self.memory.io_reg[(IF_ADDR - 0xFF00) as usize];
            if let Some(v) = interrupt_vector(ie & iflag) {
                self.isr(v)?;
                return Ok(5);
            }
        }
        self.step()
    }
}

} // verus!
