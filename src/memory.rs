use vstd::prelude::*;
use crate::bootrom::{boot_rom, boot_rom_image};
use crate::cartridge::{Cartridge, in_ram_window, in_rom_window};
use crate::error::EmuError;

verus! {

pub const BOOTROM_SIZE: usize = 0x100;
pub const VRAM_START: u16 = 0x8000;
pub const VRAM_SIZE: usize = 0x2000;
pub const RAM_START: u16 = 0xC000;
pub const ECHO_START: u16 = 0xE000;
pub const RAM_SIZE: usize = 0x2000;
pub const SPRATTRTABLE_START: u16 = 0xFE00;
pub const SPRATTRTABLE_SIZE: usize = 0xA0;
pub const PROHIBITED_START: u16 = 0xFEA0;
pub const IOREG_START: u16 = 0xFF00;
pub const IOREG_SIZE: usize = 0x80;
pub const HRAM_START: u16 = 0xFF80;
pub const HRAM_SIZE: usize = 0x7F;
pub const IE_ADDR: u16 = 0xFFFF;
pub const IF_ADDR: u16 = 0xFF0F;

pub open spec fn in_boot(addr: u16) -> bool {
    addr < 0x100
}

pub open spec fn in_vram(addr: u16) -> bool {
    0x8000 <= addr < 0xA000
}

/// Work RAM and its echo.
pub open spec fn in_wram(addr: u16) -> bool {
    0xC000 <= addr < 0xFE00
}

pub open spec fn in_oam(addr: u16) -> bool {
    0xFE00 <= addr < 0xFEA0
}

pub open spec fn in_prohibited(addr: u16) -> bool {
    0xFEA0 <= addr < 0xFF00
}

pub open spec fn in_io(addr: u16) -> bool {
    0xFF00 <= addr < 0xFF80
}

pub open spec fn in_hram(addr: u16) -> bool {
    0xFF80 <= addr < 0xFFFF
}

/// The Work RAM cell behind an address of Work RAM or of its echo.
pub open spec fn wram_index(addr: u16) -> int {
    (addr - 0xC000) % 0x2000
}

/// Addresses whose byte is held by the bus itself rather than the cartridge.
pub open spec fn ram_backed(addr: u16) -> bool {
    in_vram(addr) || in_wram(addr) || in_oam(addr) || in_io(addr) || in_hram(addr) || addr
        == 0xFFFF
}

/// The region (numbered in address order) and index of the byte that backs a
/// bus-held address.
pub open spec fn cell(addr: u16) -> (int, int) {
    if in_vram(addr) {
        (0, addr - 0x8000)
    } else if in_wram(addr) {
        (1, wram_index(addr))
    } else if in_oam(addr) {
        (2, addr - 0xFE00)
    } else if in_io(addr) {
        (3, addr - 0xFF00)
    } else if in_hram(addr) {
        (4, addr - 0xFF80)
    } else {
        (5, 0)
    }
}

/// The unified 16-bit address space.
#[derive(Clone, Debug)]
pub struct Bus {
    /// Set once the start-up program has run; from then on the cartridge
    /// shows through at 0x0000..=0x00FF.
    pub boot_finished: bool,
    pub bootrom: Vec<u8>,
    pub cartridge: Cartridge,
    pub vram: Vec<u8>,
    pub ram: Vec<u8>,
    pub spr_attr_table: Vec<u8>,
    pub io_reg: Vec<u8>,
    pub hram: Vec<u8>,
    pub ie_reg: u8,
}

impl Bus {
    pub open spec fn wf(self) -> bool {
        &&& self.bootrom@ == boot_rom()
        &&& self.bootrom@.len() == BOOTROM_SIZE
        &&& self.cartridge.wf()
        &&& self.vram@.len() == VRAM_SIZE
        &&& self.ram@.len() == RAM_SIZE
        &&& self.spr_attr_table@.len() == SPRATTRTABLE_SIZE
        &&& self.io_reg@.len() == IOREG_SIZE
        &&& self.hram@.len() == HRAM_SIZE
    }

    /// What a read of `addr` gives.
    pub open spec fn read_spec(self, addr: u16) -> Result<u8, EmuError> {
        if in_boot(addr) && !self.boot_finished {
            Ok(self.bootrom@[addr as int])
        } else if in_rom_window(addr) || in_ram_window(addr) {
            self.cartridge.read_spec(addr)
        } else if in_vram(addr) {
            Ok(self.vram@[addr - 0x8000])
        } else if in_wram(addr) {
            Ok(self.ram@[wram_index(addr)])
        } else if in_oam(addr) {
            Ok(self.spr_attr_table@[addr - 0xFE00])
        } else if in_prohibited(addr) {
            Err(EmuError::IllegalMemoryAccess { addr })
        } else if in_io(addr) {
            Ok(self.io_reg@[addr - 0xFF00])
        } else if in_hram(addr) {
            Ok(self.hram@[addr - 0xFF80])
        } else {
            Ok(self.ie_reg)
        }
    }

    /// Whether a write of `addr` succeeds.
    pub open spec fn write_result(self, addr: u16) -> Result<(), EmuError> {
        if in_rom_window(addr) || in_ram_window(addr) {
            self.cartridge.write_spec(addr)
        } else if in_prohibited(addr) {
            Err(EmuError::IllegalMemoryAccess { addr })
        } else {
            Ok(())
        }
    }

    /// `new` is `self` after a successful write of `v` to `addr`: the one byte
    /// that backs `addr` (if the bus holds it) now reads `v`, nothing else moved.
    pub open spec fn written(self, new: Bus, addr: u16, v: u8) -> bool {
        &&& new.boot_finished == self.boot_finished
        &&& new.bootrom == self.bootrom
        &&& new.cartridge == self.cartridge
        &&& new.vram@ == if in_vram(addr) {
            self.vram@.update(addr - 0x8000, v)
        } else {
            self.vram@
        }
        &&& new.ram@ == if in_wram(addr) {
            self.ram@.update(wram_index(addr), v)
        } else {
            self.ram@
        }
        &&& new.spr_attr_table@ == if in_oam(addr) {
            self.spr_attr_table@.update(addr - 0xFE00, v)
        } else {
            self.spr_attr_table@
        }
        &&& new.io_reg@ == if in_io(addr) {
            self.io_reg@.update(addr - 0xFF00, v)
        } else {
            self.io_reg@
        }
        &&& new.hram@ == if in_hram(addr) {
            self.hram@.update(addr - 0xFF80, v)
        } else {
            self.hram@
        }
        &&& new.ie_reg == if addr == 0xFFFF {
            v
        } else {
            self.ie_reg
        }
    }

    /// Builds the address space around a cartridge image.
    pub fn new(data: Vec<u8>) -> (r: Result<Bus, EmuError>)
        ensures
            match Cartridge::new_spec(data@) {
                Err(e) => r == Err::<Bus, EmuError>(e),
                Ok(m) => r matches Ok(b) && b.wf() && !b.boot_finished && b.cartridge.data@
                    == data@ && b.cartridge.mapper == m && b.ie_reg == 0 && (forall|i: int|
                    0 <= i < VRAM_SIZE ==> b.vram@[i] == 0) && (forall|i: int|
                    0 <= i < RAM_SIZE ==> b.ram@[i] == 0) && (forall|i: int|
                    0 <= i < SPRATTRTABLE_SIZE ==> b.spr_attr_table@[i] == 0) && (forall|i: int|
                    0 <= i < IOREG_SIZE ==> b.io_reg@[i] == 0) && (forall|i: int|
                    0 <= i < HRAM_SIZE ==> b.hram@[i] == 0),
            },
    {
        let cartridge = match Cartridge::new(data) {
            Ok(c) => c,
            Err(e) => {
                return Err(e);
            },
        };
        Ok(
            Bus {
                boot_finished: false,
                bootrom: boot_rom_image(),
                cartridge,
                vram: vec![0u8; VRAM_SIZE],
                ram: vec![0u8; RAM_SIZE],
                spr_attr_table: vec![0u8; SPRATTRTABLE_SIZE],
                io_reg: vec![0u8; IOREG_SIZE],
                hram: vec![0u8; HRAM_SIZE],
                ie_reg: 0,
            },
        )
    }

    /// Unmaps the start-up program for good.
    pub fn finish_boot(&mut self)
        ensures
            final(self).boot_finished,
            final(self).bootrom == old(self).bootrom,
            final(self).cartridge == old(self).cartridge,
            final(self).vram == old(self).vram,
            final(self).ram == old(self).ram,
            final(self).spr_attr_table == old(self).spr_attr_table,
            final(self).io_reg == old(self).io_reg,
            final(self).hram == old(self).hram,
            final(self).ie_reg == old(self).ie_reg,
    {
        self.boot_finished = true;
    }

    pub fn get_address(&self, addr: u16) -> (r: Result<u8, EmuError>)
        requires
            self.wf(),
        ensures
            r == self.read_spec(addr),
            r is Err ==> r->Err_0.is_bus_fault(),
    {
        if addr < 0x100 && !self.boot_finished {
            Ok(self.bootrom[addr as usize])
        } else if addr < 0x8000 {
            self.cartridge.get_address(addr)
        } else if addr < 0xA000 {
            Ok(self.vram[(addr - VRAM_START) as usize])
        } else if addr < 0xC000 {
            self.cartridge.get_address(addr)
        } else if addr < 0xFE00 {
            Ok(self.ram[((addr - RAM_START) as usize) % RAM_SIZE])
        } else if addr < 0xFEA0 {
            Ok(self.spr_attr_table[(addr - SPRATTRTABLE_START) as usize])
        } else if addr < 0xFF00 {
            Err(EmuError::IllegalMemoryAccess { addr })
        } else if addr < 0xFF80 {
            Ok(self.io_reg[(addr - IOREG_START) as usize])
        } else if addr < 0xFFFF {
            Ok(self.hram[(addr - HRAM_START) as usize])
        } else {
            Ok(self.ie_reg)
        }
    }

    pub fn write_byte(&mut self, addr: u16, byte: u8) -> (r: Result<(), EmuError>)
        requires
            old(self).wf(),
        ensures
            r == old(self).write_result(addr),
            r is Err ==> r->Err_0.is_bus_fault(),
            final(self).wf(),
            r is Ok ==> old(self).written(*final(self), addr, byte),
            r is Err ==> *final(self) == *old(self),
    {
        if addr < 0x8000 || (0xA000 <= addr && addr < 0xC000) {
            self.cartridge.write_address(addr, byte)
        } else if addr < 0xA000 {
            self.vram.set((addr - VRAM_START) as usize, byte);
            Ok(())
        } else if addr < 0xFE00 {
            self.ram.set(((addr - RAM_START) as usize) % RAM_SIZE, byte);
            Ok(())
        } else if addr < 0xFEA0 {
            self.spr_attr_table.set((addr - SPRATTRTABLE_START) as usize, byte);
            Ok(())
        } else if addr < 0xFF00 {
            Err(EmuError::IllegalMemoryAccess { addr })
        } else if addr < 0xFF80 {
            self.io_reg.set((addr - IOREG_START) as usize, byte);
            Ok(())
        } else if addr < 0xFFFF {
            self.hram.set((addr - HRAM_START) as usize, byte);
            Ok(())
        } else {
            self.ie_reg = byte;
            Ok(())
        }
    }
}

/// A byte written through Work RAM reads back through its echo, and a byte
/// written through the echo reads back through Work RAM.
pub proof fn echo_mirror(before: Bus, after_low: Bus, after_high: Bus, k: u16, v: u8)
    requires
        before.wf(),
        k < 0x1E00,
        before.written(after_low, (0xC000 + k) as u16, v),
        before.written(after_high, (0xE000 + k) as u16, v),
    ensures
        before.write_result((0xC000 + k) as u16) == Ok::<(), EmuError>(()),
        before.write_result((0xE000 + k) as u16) == Ok::<(), EmuError>(()),
        after_low.read_spec((0xE000 + k) as u16) == Ok::<u8, EmuError>(v),
        after_high.read_spec((0xC000 + k) as u16) == Ok::<u8, EmuError>(v),
{
}

/// The start-up program covers address 0 until the boot latch is set; after
/// that a ROM-only cartridge's first byte shows there.
pub proof fn boot_overlay(b: Bus)
    requires
        b.wf(),
    ensures
        !b.boot_finished ==> b.read_spec(0) == Ok::<u8, EmuError>(0x31),
        b.boot_finished && b.cartridge.mapper == crate::cartridge::Mapper::RomOnly ==> b.read_spec(
            0,
        ) == Ok::<u8, EmuError>(b.cartridge.data@[0]),
{
    reveal(boot_rom);
}

/// With a ROM-only cartridge, a read or a write fails exactly in the
/// prohibited window.
pub proof fn rom_only_faults(b: Bus, addr: u16)
    requires
        b.wf(),
        b.cartridge.mapper == crate::cartridge::Mapper::RomOnly,
    ensures
        b.read_spec(addr) is Err <==> in_prohibited(addr),
        b.write_result(addr) is Err <==> in_prohibited(addr),
{
}

/// After a write to a bus-held address, a bus-held address reads the written
/// byte if both share their backing cell, and what it read before otherwise.
pub proof fn lemma_read_after_write(before: Bus, after: Bus, w: u16, v: u8, a: u16)
    requires
        before.wf(),
        before.written(after, w, v),
        ram_backed(w),
        ram_backed(a),
    ensures
        after.wf(),
        after.read_spec(a) == if cell(a) == cell(w) {
            Ok::<u8, EmuError>(v)
        } else {
            before.read_spec(a)
        },
{
}

} // verus!
