use vstd::prelude::*;

verus! {

/// The four phases of a scanline.
#[derive(Clone, Copy, Debug, PartialEq, Eq)]
pub enum Mode {
    HBlank,
    VBlank,
    OamScan,
    Drawing,
}

/// The picture processor's timing state; drawing itself lives with the host.
#[derive(Clone, Copy, Debug)]
pub struct Ppu {
    pub mode: Mode,
    /// Dots elapsed, wrapping.
    pub clocks: u32,
}

impl Ppu {
    pub fn new() -> (r: Ppu)
        ensures
            r.mode == Mode::HBlank,
            r.clocks == 0,
    {
        Ppu { mode: Mode::HBlank, clocks: 0 }
    }

    /// Advances by one dot.
    pub fn clock(&mut self)
        ensures
            final(self).mode == old(self).mode,
            final(self).clocks == (old(self).clocks + 1) % 0x1_0000_0000,
    {
        self.clocks = self.clocks.wrapping_add(1);
    }
}

} // verus!
