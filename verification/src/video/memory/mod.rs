//! Video memory: the nine VRAM banks and where each is mapped.
pub mod control;
pub mod vram;
pub mod mapping;

use vstd::prelude::*;

verus! {

/// Graphics power control: swap the two screens.
pub const POWER_DISPLAY_SWAP: u16 = 0x8000;
/// Graphics power control: enable engine B.
pub const POWER_ENABLE_B: u16 = 0x0200;
/// Graphics power control: enable the geometry engine.
pub const POWER_GEOM_3D: u16 = 0x0008;
/// Graphics power control: enable the rendering engine.
pub const POWER_RENDER_3D: u16 = 0x0004;
/// Graphics power control: enable engine A.
pub const POWER_ENABLE_A: u16 = 0x0002;
/// Graphics power control: enable the LCDs.
pub const POWER_ENABLE_LCD: u16 = 0x0001;

/// The nine VRAM banks, A to I.
#[derive(Clone, Copy, PartialEq, Eq, Structural)]
pub enum VRAMRegion {
    A,
    B,
    C,
    D,
    E,
    F,
    G,
    H,
    I,
}

impl VRAMRegion {
    /// The bank's number: A is 0, I is 8.
    pub open spec fn spec_index(self) -> int {
        match self {
            VRAMRegion::A => 0,
            VRAMRegion::B => 1,
            VRAMRegion::C => 2,
            VRAMRegion::D => 3,
            VRAMRegion::E => 4,
            VRAMRegion::F => 5,
            VRAMRegion::G => 6,
            VRAMRegion::H => 7,
            VRAMRegion::I => 8,
        }
    }

    pub fn index(self) -> (r: usize)
        ensures
            r == self.spec_index(),
    {
        match self {
            VRAMRegion::A => 0,
            VRAMRegion::B => 1,
            VRAMRegion::C => 2,
            VRAMRegion::D => 3,
            VRAMRegion::E => 4,
            VRAMRegion::F => 5,
            VRAMRegion::G => 6,
            VRAMRegion::H => 7,
            VRAMRegion::I => 8,
        }
    }

    /// The bank with the given number, if there is one.
    pub fn from_index(value: usize) -> (r: Option<VRAMRegion>)
        ensures
            match r {
                Some(reg) => reg.spec_index() == value,
                None => value > 8,
            },
    {
        match value {
            0 => Some(VRAMRegion::A),
            1 => Some(VRAMRegion::B),
            2 => Some(VRAMRegion::C),
            3 => Some(VRAMRegion::D),
            4 => Some(VRAMRegion::E),
            5 => Some(VRAMRegion::F),
            6 => Some(VRAMRegion::G),
            7 => Some(VRAMRegion::H),
            8 => Some(VRAMRegion::I),
            _ => None,
        }
    }
}

/// Numbering and naming a bank are inverse.
pub proof fn lemma_region_index_roundtrip(r: VRAMRegion)
    ensures
        0 <= r.spec_index() <= 8,
        forall|s: VRAMRegion| s.spec_index() == r.spec_index() ==> s == r,
{
}

} // verus!
