//! VRAM bank control registers: where each bank is mapped.
use vstd::prelude::*;
use crate::video::memory::VRAMRegion;

verus! {

/// Bank control: the bank is enabled.
pub const VRAM_ENABLE: u8 = 0x80;
/// Bank control: the offset field, bits 3 and 4.
pub const VRAM_OFFSET: u8 = 0x18;
/// Bank control: the master select field, bits 0 to 2.
pub const VRAM_MST: u8 = 0x07;

/// Where a bank can be mapped.
#[derive(Clone, Copy, PartialEq, Eq, Structural)]
pub enum Slot {
    LCDC(VRAMRegion),
    ARM7(ARM7),
    EngineA(EngineA),
    EngineB(EngineB),
    Texture(Texture),
}

#[derive(Clone, Copy, PartialEq, Eq, Structural)]
pub enum ARM7 {
    Lo,
    Hi,
}

#[derive(Clone, Copy, PartialEq, Eq, Structural)]
pub enum EngineA {
    Bg0,
    Bg01,
    Bg02,
    Bg03,
    Bg1,
    Bg2,
    Bg3,
    Obj0,
    Obj01,
    Obj02,
    Obj03,
    Obj1,
    BgExtPalette0,
    BgExtPalette2,
    ObjExtPalette,
}

#[derive(Clone, Copy, PartialEq, Eq, Structural)]
pub enum EngineB {
    Bg0,
    Bg01,
    Obj,
    BgExtPalette,
    ObjExtPalette,
}

#[derive(Clone, Copy, PartialEq, Eq, Structural)]
pub enum Texture {
    Tex0,
    Tex1,
    Tex2,
    Tex3,
    Palette0,
    Palette1,
    Palette4,
    Palette5,
}

/// A bank control register.
#[derive(Clone, Copy, PartialEq, Eq, Structural)]
pub struct VRAMControl {
    pub bits: u8,
}

/// One of four choices by the offset field, compared as it stands in the
/// register (bits 3 and 4, not shifted down): only the first and the last
/// choice can be selected.
pub open spec fn by_offset<T>(offset: u8, c0: T, c1: T, c2: T, c3: T) -> T {
    if offset == 0 {
        c0
    } else if offset == 1 {
        c1
    } else if offset == 2 {
        c2
    } else {
        c3
    }
}

impl VRAMControl {
    pub open spec fn mst(self) -> u8 {
        self.bits & VRAM_MST
    }

    pub open spec fn offset(self) -> u8 {
        self.bits & VRAM_OFFSET
    }

    /// Mapping of banks A and B.
    pub open spec fn spec_slot_ab(self, lcdc: VRAMRegion) -> Slot {
        let o = self.offset();
        if self.mst() == 1 {
            Slot::EngineA(by_offset(o, EngineA::Bg0, EngineA::Bg1, EngineA::Bg2, EngineA::Bg3))
        } else if self.mst() == 2 {
            Slot::EngineA(if o == 0 { EngineA::Obj0 } else { EngineA::Obj1 })
        } else if self.mst() == 3 {
            Slot::Texture(by_offset(o, Texture::Tex0, Texture::Tex1, Texture::Tex2, Texture::Tex3))
        } else {
            Slot::LCDC(lcdc)
        }
    }

    /// Mapping of banks C and D, which differ only in their engine B slot.
    pub open spec fn spec_slot_cd(self, lcdc: VRAMRegion, engine_b: EngineB) -> Slot {
        let o = self.offset();
        if self.mst() == 1 {
            Slot::EngineA(by_offset(o, EngineA::Bg0, EngineA::Bg1, EngineA::Bg2, EngineA::Bg3))
        } else if self.mst() == 2 {
            Slot::ARM7(if o == 0 { ARM7::Lo } else { ARM7::Hi })
        } else if self.mst() == 3 {
            Slot::Texture(by_offset(o, Texture::Tex0, Texture::Tex1, Texture::Tex2, Texture::Tex3))
        } else if self.mst() == 4 {
            Slot::EngineB(engine_b)
        } else {
            Slot::LCDC(lcdc)
        }
    }

    /// Mapping of bank E.
    pub open spec fn spec_slot_e(self) -> Slot {
        if self.mst() == 1 {
            Slot::EngineA(EngineA::Bg0)
        } else if self.mst() == 2 {
            Slot::EngineA(EngineA::Obj0)
        } else if self.mst() == 3 {
            Slot::Texture(Texture::Palette0)
        } else if self.mst() == 4 {
            Slot::EngineA(EngineA::BgExtPalette0)
        } else {
            Slot::LCDC(VRAMRegion::E)
        }
    }

    /// Mapping of banks F and G.
    pub open spec fn spec_slot_fg(self, lcdc: VRAMRegion) -> Slot {
        let o = self.offset();
        if self.mst() == 1 {
            Slot::EngineA(by_offset(o, EngineA::Bg0, EngineA::Bg01, EngineA::Bg02, EngineA::Bg03))
        } else if self.mst() == 2 {
            Slot::EngineA(by_offset(o, EngineA::Obj0, EngineA::Obj01, EngineA::Obj02, EngineA::Obj03))
        } else if self.mst() == 3 {
            Slot::Texture(
                by_offset(o, Texture::Palette0, Texture::Palette1, Texture::Palette4, Texture::Palette5),
            )
        } else if self.mst() == 4 {
            Slot::EngineA(if o == 0 { EngineA::BgExtPalette0 } else { EngineA::BgExtPalette2 })
        } else if self.mst() == 5 {
            Slot::EngineA(EngineA::ObjExtPalette)
        } else {
            Slot::LCDC(lcdc)
        }
    }

    /// Mapping of bank H.
    pub open spec fn spec_slot_h(self) -> Slot {
        if self.mst() == 1 {
            Slot::EngineB(EngineB::Bg0)
        } else if self.mst() == 2 {
            Slot::EngineB(EngineB::BgExtPalette)
        } else {
            Slot::LCDC(VRAMRegion::H)
        }
    }

    /// Mapping of bank I.
    pub open spec fn spec_slot_i(self) -> Slot {
        if self.mst() == 1 {
            Slot::EngineB(EngineB::Bg01)
        } else if self.mst() == 2 {
            Slot::EngineB(EngineB::Obj)
        } else if self.mst() == 3 {
            Slot::EngineB(EngineB::ObjExtPalette)
        } else {
            Slot::LCDC(VRAMRegion::I)
        }
    }

    /// Where a bank with this control is mapped.
    pub open spec fn spec_get_slot(self, region: VRAMRegion) -> Slot {
        match region {
            VRAMRegion::A | VRAMRegion::B => self.spec_slot_ab(region),
            VRAMRegion::C => self.spec_slot_cd(VRAMRegion::C, EngineB::Bg0),
            VRAMRegion::D => self.spec_slot_cd(VRAMRegion::D, EngineB::Obj),
            VRAMRegion::E => self.spec_slot_e(),
            VRAMRegion::F | VRAMRegion::G => self.spec_slot_fg(region),
            VRAMRegion::H => self.spec_slot_h(),
            VRAMRegion::I => self.spec_slot_i(),
        }
    }

    /// The slot that this region is mapped to.
    pub fn get_slot(self, region: VRAMRegion) -> (r: Slot)
        ensures
            r == self.spec_get_slot(region),
    {
        match region {
            VRAMRegion::A | VRAMRegion::B => self.slot_ab(region),
            VRAMRegion::C => self.slot_c(),
            VRAMRegion::D => self.slot_d(),
            VRAMRegion::E => self.slot_e(),
            VRAMRegion::F | VRAMRegion::G => self.slot_fg(region),
            VRAMRegion::H => self.slot_h(),
            VRAMRegion::I => self.slot_i(),
        }
    }

    pub fn slot_ab(self, lcdc: VRAMRegion) -> (r: Slot)
        ensures
            r == self.spec_slot_ab(lcdc),
    {
        let offset = self.bits & VRAM_OFFSET;
        match self.bits & VRAM_MST {
            1 => Slot::EngineA(
                match offset {
                    0 => EngineA::Bg0,
                    1 => EngineA::Bg1,
                    2 => EngineA::Bg2,
                    _ => EngineA::Bg3,
                },
            ),
            2 => Slot::EngineA(
                match offset {
                    0 => EngineA::Obj0,
                    _ => EngineA::Obj1,
                },
            ),
            3 => Slot::Texture(
                match offset {
                    0 => Texture::Tex0,
                    1 => Texture::Tex1,
                    2 => Texture::Tex2,
                    _ => Texture::Tex3,
                },
            ),
            _ => Slot::LCDC(lcdc),
        }
    }

    fn slot_cd(self, lcdc: VRAMRegion, engine_b: EngineB) -> (r: Slot)
        ensures
            r == self.spec_slot_cd(lcdc, engine_b),
    {
        let offset = self.bits & VRAM_OFFSET;
        match self.bits & VRAM_MST {
            1 => Slot::EngineA(
                match offset {
                    0 => EngineA::Bg0,
                    1 => EngineA::Bg1,
                    2 => EngineA::Bg2,
                    _ => EngineA::Bg3,
                },
            ),
            2 => Slot::ARM7(
                match offset {
                    0 => ARM7::Lo,
                    _ => ARM7::Hi,
                },
            ),
            3 => Slot::Texture(
                match offset {
                    0 => Texture::Tex0,
                    1 => Texture::Tex1,
                    2 => Texture::Tex2,
                    _ => Texture::Tex3,
                },
            ),
            4 => Slot::EngineB(engine_b),
            _ => Slot::LCDC(lcdc),
        }
    }

    pub fn slot_c(self) -> (r: Slot)
        ensures
            r == self.spec_slot_cd(VRAMRegion::C, EngineB::Bg0),
    {
        self.slot_cd(VRAMRegion::C, EngineB::Bg0)
    }

    pub fn slot_d(self) -> (r: Slot)
        ensures
            r == self.spec_slot_cd(VRAMRegion::D, EngineB::Obj),
    {
        self.slot_cd(VRAMRegion::D, EngineB::Obj)
    }

    pub fn slot_e(self) -> (r: Slot)
        ensures
            r == self.spec_slot_e(),
    {
        match self.bits & VRAM_MST {
            1 => Slot::EngineA(EngineA::Bg0),
            2 => Slot::EngineA(EngineA::Obj0),
            3 => Slot::Texture(Texture::Palette0),
            4 => Slot::EngineA(EngineA::BgExtPalette0),
            _ => Slot::LCDC(VRAMRegion::E),
        }
    }

    pub fn slot_fg(self, lcdc: VRAMRegion) -> (r: Slot)
        ensures
            r == self.spec_slot_fg(lcdc),
    {
        let offset = self.bits & VRAM_OFFSET;
        match self.bits & VRAM_MST {
            1 => Slot::EngineA(
                match offset {
                    0 => EngineA::Bg0,
                    1 => EngineA::Bg01,
                    2 => EngineA::Bg02,
                    _ => EngineA::Bg03,
                },
            ),
            2 => Slot::EngineA(
                match offset {
                    0 => EngineA::Obj0,
                    1 => EngineA::Obj01,
                    2 => EngineA::Obj02,
                    _ => EngineA::Obj03,
                },
            ),
            3 => Slot::Texture(
                match offset {
                    0 => Texture::Palette0,
                    1 => Texture::Palette1,
                    2 => Texture::Palette4,
                    _ => Texture::Palette5,
                },
            ),
            4 => Slot::EngineA(
                match offset {
                    0 => EngineA::BgExtPalette0,
                    _ => EngineA::BgExtPalette2,
                },
            ),
            5 => Slot::EngineA(EngineA::ObjExtPalette),
            _ => Slot::LCDC(lcdc),
        }
    }

    pub fn slot_h(self) -> (r: Slot)
        ensures
            r == self.spec_slot_h(),
    {
        match self.bits & VRAM_MST {
            1 => Slot::EngineB(EngineB::Bg0),
            2 => Slot::EngineB(EngineB::BgExtPalette),
            _ => Slot::LCDC(VRAMRegion::H),
        }
    }

    pub fn slot_i(self) -> (r: Slot)
        ensures
            r == self.spec_slot_i(),
    {
        match self.bits & VRAM_MST {
            1 => Slot::EngineB(EngineB::Bg01),
            2 => Slot::EngineB(EngineB::Obj),
            3 => Slot::EngineB(EngineB::ObjExtPalette),
            _ => Slot::LCDC(VRAMRegion::I),
        }
    }
}

/// The first master select value for which a bank has no slot of its own.
pub open spec fn first_unassigned_mst(region: VRAMRegion) -> u8 {
    match region {
        VRAMRegion::A | VRAMRegion::B | VRAMRegion::I => 4,
        VRAMRegion::C | VRAMRegion::D | VRAMRegion::E => 5,
        VRAMRegion::F | VRAMRegion::G => 6,
        VRAMRegion::H => 3,
    }
}

/// Where a bank is mapped does not depend on its enable bit; and a master
/// select of 0, or one the bank has no slot for, maps it to LCDC.
pub proof fn lemma_slot_ignores_enable(bits: u8, region: VRAMRegion)
    ensures
        (VRAMControl { bits }).spec_get_slot(region) == (VRAMControl { bits: bits ^ VRAM_ENABLE }).spec_get_slot(region),
        (bits & VRAM_MST == 0 || bits & VRAM_MST >= first_unassigned_mst(region))
            ==> (VRAMControl { bits }).spec_get_slot(region) == Slot::LCDC(region),
{
    assert((bits ^ 0x80u8) & 7u8 == bits & 7u8 && (bits ^ 0x80u8) & 0x18u8 == bits & 0x18u8) by (bit_vector);
}

} // verus!

