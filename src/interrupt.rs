use vstd::prelude::*;

verus! {

/// The vector of the interrupt to service for the requests in `pending`
/// (IE & IF): bits 0 to 4 in priority order, VBlank first.
pub open spec fn vector_spec(pending: u8) -> Option<u16> {
    if pending & 0x01 != 0 {
        Some(0x40)
    } else if pending & 0x02 != 0 {
        Some(0x48)
    } else if pending & 0x04 != 0 {
        Some(0x50)
    } else if pending & 0x08 != 0 {
        Some(0x58)
    } else if pending & 0x10 != 0 {
        Some(0x60)
    } else {
        None
    }
}

pub fn interrupt_vector(pending: u8) -> (r: Option<u16>)
    ensures
        r == vector_spec(pending),
{
    if pending & 0x01 != 0 {
        Some(0x40)
    } else if pending & 0x02 != 0 {
        Some(0x48)
    } else if pending & 0x04 != 0 {
        Some(0x50)
    } else if pending & 0x08 != 0 {
        Some(0x58)
    } else if pending & 0x10 != 0 {
        Some(0x60)
    } else {
        None
    }
}

} // verus!
