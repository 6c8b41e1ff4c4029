use vstd::prelude::*;

verus! {

/// Everything that can go wrong inside the core.
#[derive(Clone, Copy, Debug, PartialEq, Eq)]
pub enum EmuError {
    /// The opcode fetched at `pc` has no behaviour.
    UnimplementedOpcode { opcode: u8, pc: u16 },
    /// The cartridge's mapper is unknown, or its banked windows are not modelled.
    UnsupportedMapper { header_code: u8 },
    /// An access to the prohibited window 0xFEA0..=0xFEFF.
    IllegalMemoryAccess { addr: u16 },
    /// The cartridge image is too short to hold a header.
    CartridgeLoadError { len: usize },
}

impl EmuError {
    /// An error that a bus access can give.
    pub open spec fn is_bus_fault(self) -> bool {
        self is UnsupportedMapper || self is IllegalMemoryAccess
    }
}

} // verus!
