use vstd::prelude::*;
use crate::error::EmuError;

verus! {

/// Offset of the header byte that names the cartridge's mapper.
pub const MAPPER_HEADER_OFFSET: usize = 0x147;

/// The bank controller fitted to a cartridge, as its header code names it.
#[derive(Clone, Copy, Debug, PartialEq, Eq)]
pub enum Mapper {
    RomOnly,
    Mbc1 { ram: bool, battery: bool },
    Mbc2 { battery: bool },
    Mbc3 { timer: bool, ram: bool, battery: bool },
    Mbc5 { rumble: bool, ram: bool, battery: bool },
    Mbc6,
    Mbc7,
    PocketCamera,
    BandaiTama5,
    HuC3,
    HuC1,
}

/// The header-code table: which mapper each code names, if any.
pub open spec fn mapper_of(code: u8) -> Option<Mapper> {
    if code == 0x00 {
        Some(Mapper::RomOnly)
    } else if 0x01 <= code <= 0x03 {
        Some(Mapper::Mbc1 { ram: code >= 0x02, battery: code == 0x03 })
    } else if code == 0x05 || code == 0x06 {
        Some(Mapper::Mbc2 { battery: code == 0x06 })
    } else if 0x0F <= code <= 0x13 {
        Some(
            Mapper::Mbc3 {
                timer: code <= 0x10,
                ram: code == 0x10 || code == 0x12 || code == 0x13,
                battery: code <= 0x10 || code == 0x13,
            },
        )
    } else if 0x19 <= code <= 0x1E {
        Some(
            Mapper::Mbc5 {
                rumble: code >= 0x1C,
                ram: code == 0x1A || code == 0x1B || code == 0x1D || code == 0x1E,
                battery: code == 0x1B || code == 0x1E,
            },
        )
    } else if code == 0x20 {
        Some(Mapper::Mbc6)
    } else if code == 0x22 {
        Some(Mapper::Mbc7)
    } else if code == 0xFC {
        Some(Mapper::PocketCamera)
    } else if code == 0xFD {
        Some(Mapper::BandaiTama5)
    } else if code == 0xFE {
        Some(Mapper::HuC3)
    } else if code == 0xFF {
        Some(Mapper::HuC1)
    } else {
        None
    }
}

impl Mapper {
    pub fn from_header(code: u8) -> (r: Option<Mapper>)
        ensures
            r == mapper_of(code),
    {
        if code == 0x00 {
            Some(Mapper::RomOnly)
        } else if 0x01 <= code && code <= 0x03 {
            Some(Mapper::Mbc1 { ram: code >= 0x02, battery: code == 0x03 })
        } else if code == 0x05 || code == 0x06 {
            Some(Mapper::Mbc2 { battery: code == 0x06 })
        } else if 0x0F <= code && code <= 0x13 {
            Some(
                Mapper::Mbc3 {
                    timer: code <= 0x10,
                    ram: code == 0x10 || code == 0x12 || code == 0x13,
                    battery: code <= 0x10 || code == 0x13,
                },
            )
        } else if 0x19 <= code && code <= 0x1E {
            Some(
                Mapper::Mbc5 {
                    rumble: code >= 0x1C,
                    ram: code == 0x1A || code == 0x1B || code == 0x1D || code == 0x1E,
                    battery: code == 0x1B || code == 0x1E,
                },
            )
        } else if code == 0x20 {
            Some(Mapper::Mbc6)
        } else if code == 0x22 {
            Some(Mapper::Mbc7)
        } else if code == 0xFC {
            Some(Mapper::PocketCamera)
        } else if code == 0xFD {
            Some(Mapper::BandaiTama5)
        } else if code == 0xFE {
            Some(Mapper::HuC3)
        } else if code == 0xFF {
            Some(Mapper::HuC1)
        } else {
            None
        }
    }

    pub fn is_rom_only(&self) -> (r: bool)
        ensures
            r == (*self == Mapper::RomOnly),
    {
        match self {
            Mapper::RomOnly => true,
            _ => false,
        }
    }
}

/// Addresses of the cartridge's ROM window.
pub open spec fn in_rom_window(addr: u16) -> bool {
    addr < 0x8000
}

/// Addresses of the cartridge's RAM window.
pub open spec fn in_ram_window(addr: u16) -> bool {
    0xA000 <= addr < 0xC000
}

/// A loaded cartridge image and the mapper its header selected.
#[derive(Clone, Debug)]
pub struct Cartridge {
    pub data: Vec<u8>,
    pub mapper: Mapper,
}

impl Cartridge {
    /// The image holds a header, and the mapper is the one its header names.
    pub open spec fn wf(self) -> bool {
        &&& self.data@.len() > MAPPER_HEADER_OFFSET
        &&& mapper_of(self.header_code()) == Some(self.mapper)
    }

    pub open spec fn header_code(self) -> u8 {
        self.data@[MAPPER_HEADER_OFFSET as int]
    }

    /// What a read of `addr` in one of the two windows gives.
    ///
    /// A ROM-only cartridge maps its image one for one onto the ROM window
    /// (bytes past the image's end read as 0xFF) and backs no RAM window.
    /// The banked windows of every other mapper are not modelled.
    pub open spec fn read_spec(self, addr: u16) -> Result<u8, EmuError> {
        if self.mapper != Mapper::RomOnly {
            Err(EmuError::UnsupportedMapper { header_code: self.header_code() })
        } else if in_rom_window(addr) && (addr as int) < self.data@.len() {
            Ok(self.data@[addr as int])
        } else {
            Ok(0xFF)
        }
    }

    /// What a write into one of the two windows gives; a ROM-only cartridge
    /// ignores it.
    pub open spec fn write_spec(self, addr: u16) -> Result<(), EmuError> {
        if self.mapper != Mapper::RomOnly {
            Err(EmuError::UnsupportedMapper { header_code: self.header_code() })
        } else {
            Ok(())
        }
    }

    /// What loading an image gives: the mapper, or why there is none.
    pub open spec fn new_spec(data: Seq<u8>) -> Result<Mapper, EmuError> {
        if data.len() <= MAPPER_HEADER_OFFSET {
            Err(EmuError::CartridgeLoadError { len: data.len() as usize })
        } else {
            match mapper_of(data[MAPPER_HEADER_OFFSET as int]) {
                None => Err(
                    EmuError::UnsupportedMapper { header_code: data[MAPPER_HEADER_OFFSET as int] },
                ),
                Some(m) => Ok(m),
            }
        }
    }

    /// Loads an image; the header byte at 0x147 selects the mapper.
    pub fn new(data: Vec<u8>) -> (r: Result<Cartridge, EmuError>)
        ensures
            match Cartridge::new_spec(data@) {
                Err(e) => r == Err::<Cartridge, EmuError>(e),
                Ok(m) => r matches Ok(c) && c.data@ == data@ && c.mapper == m && c.wf(),
            },
    {
        if data.len() <= MAPPER_HEADER_OFFSET {
            return Err(EmuError::CartridgeLoadError { len: data.len() });
        }
        let code = data[MAPPER_HEADER_OFFSET];
        match Mapper::from_header(code) {
            None => Err(EmuError::UnsupportedMapper { header_code: code }),
            Some(mapper) => Ok(Cartridge { data, mapper }),
        }
    }

    pub fn header(&self) -> (r: u8)
        requires
            self.wf(),
        ensures
            r == self.header_code(),
    {
        self.data[MAPPER_HEADER_OFFSET]
    }

    pub fn get_address(&self, addr: u16) -> (r: Result<u8, EmuError>)
        requires
            self.wf(),
            in_rom_window(addr) || in_ram_window(addr),
        ensures
            r == self.read_spec(addr),
    {
        if !self.mapper.is_rom_only() {
            Err(EmuError::UnsupportedMapper { header_code: self.header() })
        } else if addr < 0x8000 && (addr as usize) < self.data.len() {
            Ok(self.data[addr as usize])
        } else {
            Ok(0xFF)
        }
    }

    /// A write into one of the windows: mapper registers live there, the
    /// image itself is never changed.
    pub fn write_address(&mut self, addr: u16, n: u8) -> (r: Result<(), EmuError>)
        requires
            old(self).wf(),
            in_rom_window(addr) || in_ram_window(addr),
        ensures
            r == old(self).write_spec(addr),
            *final(self) == *old(self),
    {
        if !self.mapper.is_rom_only() {
            Err(EmuError::UnsupportedMapper { header_code: self.header() })
        } else {
            Ok(())
        }
    }
}

} // verus!
