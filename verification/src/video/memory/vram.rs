//! VRAM banks as the ARM9, the ARM7 and the 2D engines see them.
use vstd::prelude::*;
use crate::ram::{Ram, spec_le16, spec_write_le16};

verus! {

/// ARM7 VRAM status: bank C is mapped to the ARM7.
pub const VRAM_STATUS_C: u8 = 0x01;
/// ARM7 VRAM status: bank D is mapped to the ARM7.
pub const VRAM_STATUS_D: u8 = 0x02;

/// A bank with the offset of the address range it serves.
pub open spec fn at(slot: Option<Ram>, offset: u32) -> Option<(Ram, u32)> {
    match slot {
        Some(v) => Some((v, offset)),
        None => None,
    }
}

/// Lends out a bank, if there is one, with the offset it serves from.
fn slot_mut(slot: &mut Option<Ram>, offset: u32) -> (r: Option<(&mut Ram, u32)>)
    ensures
        match r {
            Some(p) => *old(slot) == Some(*p.0) && p.1 == offset && *final(slot) == Some(*final(p.0)),
            None => *old(slot) is None && *final(slot) == *old(slot),
        },
{
    match slot.as_mut() {
        Some(v) => Some((v, offset)),
        None => None,
    }
}

/// Sizes of banks A to I, in bytes.
pub open spec fn bank_size(i: int) -> nat {
    if i < 4 {
        0x2_0000
    } else if i == 4 {
        0x1_0000
    } else if i == 7 {
        0x8000
    } else {
        0x4000
    }
}

/// The VRAM banks as the ARM9 sees them, while they are mapped to it.
pub struct ARM9VRAM {
    pub lcdc: [Option<Ram>; 9],
}

/// Banks C and D while they are mapped to the ARM7.
pub struct ARM7VRAMSlots {
    pub c: Option<Ram>,
    pub d: Option<Ram>,
}

/// The ARM7's access to banks C and D.
pub struct ARM7VRAM {
    pub mem: ARM7VRAMSlots,
}

impl ARM9VRAM {
    /// All nine banks, zeroed and mapped to the ARM9, with nothing mapped to
    /// the ARM7 or the 2D engines.
    pub fn new() -> (r: (Self, ARM7VRAM, EngineAVRAM, EngineBVRAM))
        ensures
            forall|i: int|
                0 <= i < 9 ==> (#[trigger] r.0.lcdc[i] matches Some(m) && m@ == Seq::new(
                    bank_size(i),
                    |j: int| 0u8,
                )),
            r.1.mem.c is None && r.1.mem.d is None,
            r.2.empty(),
            r.3.empty(),
    {
        let arm9_vram = ARM9VRAM {
            lcdc: [
                Some(Ram::new(128 * 1024)),
                Some(Ram::new(128 * 1024)),
                Some(Ram::new(128 * 1024)),
                Some(Ram::new(128 * 1024)),
                Some(Ram::new(64 * 1024)),
                Some(Ram::new(16 * 1024)),
                Some(Ram::new(16 * 1024)),
                Some(Ram::new(32 * 1024)),
                Some(Ram::new(16 * 1024)),
            ],
        };
        (arm9_vram, ARM7VRAM::new(), EngineAVRAM::new(), EngineBVRAM::new())
    }
}

impl ARM7VRAM {
    pub fn new() -> (r: Self)
        ensures
            r.mem.c is None && r.mem.d is None,
    {
        ARM7VRAM { mem: ARM7VRAMSlots { c: None, d: None } }
    }

    /// Which of banks C and D are mapped to the ARM7.
    pub fn get_status(&self) -> (r: u8)
        ensures
            r == (if self.mem.c is Some { VRAM_STATUS_C } else { 0u8 }) + (if self.mem.d is Some {
                VRAM_STATUS_D
            } else {
                0u8
            }),
    {
        let c = if self.mem.c.is_some() { VRAM_STATUS_C } else { 0 };
        let d = if self.mem.d.is_some() { VRAM_STATUS_D } else { 0 };
        c + d
    }

    /// The bank serving an ARM7 VRAM address, with its offset: C from
    /// 0x0600_0000, D from 0x0602_0000.
    pub open spec fn lookup(&self, addr: u32) -> Option<(Ram, u32)> {
        if 0x0600_0000 <= addr <= 0x0601_FFFF {
            at(self.mem.c, 0x0600_0000)
        } else {
            at(self.mem.d, 0x0602_0000)
        }
    }

    /// The address is ARM7 VRAM and a half-word there lies within the bank.
    pub open spec fn access_ok(&self, addr: u32) -> bool {
        &&& 0x0600_0000 <= addr <= 0x0603_FFFF
        &&& self.lookup(addr) matches Some((v, off)) ==> addr - off + 2 <= v@.len()
    }

    /// Reads a half-word; 0 where no bank is mapped.
    pub fn read_halfword(&self, addr: u32) -> (r: u16)
        requires
            self.access_ok(addr),
        ensures
            r == match self.lookup(addr) {
                Some((v, off)) => spec_le16(v@, addr - off),
                None => 0,
            },
    {
        if addr <= 0x0601_FFFF {
            match &self.mem.c {
                Some(vram) => vram.read_halfword(addr - 0x0600_0000),
                None => 0,
            }
        } else {
            match &self.mem.d {
                Some(vram) => vram.read_halfword(addr - 0x0602_0000),
                None => 0,
            }
        }
    }

    /// Writes a half-word; nothing where no bank is mapped.
    pub fn write_halfword(&mut self, addr: u32, data: u16)
        requires
            old(self).access_ok(addr),
        ensures
            match old(self).lookup(addr) {
                Some((v, off)) => final(self).lookup(addr) matches Some((w, o)) && o == off && w@
                    == spec_write_le16(v@, addr - off, data),
                None => *final(self) == *old(self),
            },
            addr <= 0x0601_FFFF ==> final(self).mem.d == old(self).mem.d,
            addr > 0x0601_FFFF ==> final(self).mem.c == old(self).mem.c,
    {
        if addr <= 0x0601_FFFF {
            match &mut self.mem.c {
                Some(vram) => vram.write_halfword(addr - 0x0600_0000, data),
                None => {},
            }
        } else {
            match &mut self.mem.d {
                Some(vram) => vram.write_halfword(addr - 0x0602_0000, data),
                None => {},
            }
        }
    }
}

/// VRAM that 2D engine A draws from.
pub struct EngineAVRAM {
    /// Up to 128K, from 0x0600_0000.
    pub bg_slot_0: Option<Ram>,
    /// 16K, from 0x0600_4000.
    pub bg_slot_01: Option<Ram>,
    /// 16K, from 0x0601_0000.
    pub bg_slot_02: Option<Ram>,
    /// 16K, from 0x0601_4000.
    pub bg_slot_03: Option<Ram>,
    /// 128K, from 0x0602_0000.
    pub bg_slot_1: Option<Ram>,
    /// 128K, from 0x0604_0000.
    pub bg_slot_2: Option<Ram>,
    /// 128K, from 0x0606_0000.
    pub bg_slot_3: Option<Ram>,
    /// Up to 128K, from 0x0640_0000.
    pub obj_slot_0: Option<Ram>,
    /// 16K, from 0x0640_4000.
    pub obj_slot_01: Option<Ram>,
    /// 16K, from 0x0641_0000.
    pub obj_slot_02: Option<Ram>,
    /// 16K, from 0x0641_4000.
    pub obj_slot_03: Option<Ram>,
    /// 128K, from 0x0642_0000.
    pub obj_slot_1: Option<Ram>,
    pub ext_bg_palette_0: Option<Ram>,
    pub ext_bg_palette_2: Option<Ram>,
    pub ext_obj_palette: Option<Ram>,
    pub ext_bg_palette_dirty: bool,
    pub ext_obj_palette_dirty: bool,
}

impl EngineAVRAM {
    /// Nothing is mapped.
    pub open spec fn empty(&self) -> bool {
        &&& self.bg_slot_0 is None && self.bg_slot_01 is None && self.bg_slot_02 is None
        &&& self.bg_slot_03 is None && self.bg_slot_1 is None && self.bg_slot_2 is None
        &&& self.bg_slot_3 is None && self.obj_slot_0 is None && self.obj_slot_01 is None
        &&& self.obj_slot_02 is None && self.obj_slot_03 is None && self.obj_slot_1 is None
        &&& self.ext_bg_palette_0 is None && self.ext_bg_palette_2 is None
        &&& self.ext_obj_palette is None
        &&& !self.ext_bg_palette_dirty && !self.ext_obj_palette_dirty
    }

    pub fn new() -> (r: Self)
        ensures
            r.empty(),
    {
        EngineAVRAM {
            bg_slot_0: None,
            bg_slot_01: None,
            bg_slot_02: None,
            bg_slot_03: None,
            bg_slot_1: None,
            bg_slot_2: None,
            bg_slot_3: None,
            obj_slot_0: None,
            obj_slot_01: None,
            obj_slot_02: None,
            obj_slot_03: None,
            obj_slot_1: None,
            ext_bg_palette_0: None,
            ext_bg_palette_2: None,
            ext_obj_palette: None,
            ext_bg_palette_dirty: false,
            ext_obj_palette_dirty: false,
        }
    }

    /// The background bank serving an engine address, with its offset: the
    /// 16K banks overlay the first bank where they are mapped.
    pub open spec fn bg_lookup(&self, addr: u32) -> Option<(Ram, u32)> {
        if 0x4000 <= addr <= 0x7FFF && self.bg_slot_01 is Some {
            at(self.bg_slot_01, 0x4000)
        } else if 0x1_0000 <= addr <= 0x1_3FFF && self.bg_slot_02 is Some {
            at(self.bg_slot_02, 0x1_0000)
        } else if 0x1_4000 <= addr <= 0x1_7FFF && self.bg_slot_03 is Some {
            at(self.bg_slot_03, 0x1_4000)
        } else if addr <= 0x1_FFFF {
            at(self.bg_slot_0, 0)
        } else if addr <= 0x3_FFFF {
            at(self.bg_slot_1, 0x2_0000)
        } else if addr <= 0x5_FFFF {
            at(self.bg_slot_2, 0x4_0000)
        } else if addr <= 0x7_FFFF {
            at(self.bg_slot_3, 0x6_0000)
        } else {
            None
        }
    }

    /// The object bank serving an engine address, with its offset.
    pub open spec fn obj_lookup(&self, addr: u32) -> Option<(Ram, u32)> {
        if 0x4000 <= addr <= 0x7FFF && self.obj_slot_01 is Some {
            at(self.obj_slot_01, 0x4000)
        } else if 0x1_0000 <= addr <= 0x1_3FFF && self.obj_slot_02 is Some {
            at(self.obj_slot_02, 0x1_0000)
        } else if 0x1_4000 <= addr <= 0x1_7FFF && self.obj_slot_03 is Some {
            at(self.obj_slot_03, 0x1_4000)
        } else if addr <= 0x1_FFFF {
            at(self.obj_slot_0, 0)
        } else if addr <= 0x3_FFFF {
            at(self.obj_slot_1, 0x2_0000)
        } else {
            None
        }
    }

    /// The background bank for an address, with the offset it serves from.
    pub fn lookup_bg(&self, addr: u32) -> (r: Option<(&Ram, u32)>)
        ensures
            match r {
                Some(p) => self.bg_lookup(addr) == Some((*p.0, p.1)),
                None => self.bg_lookup(addr) is None,
            },
    {
        if 0x4000 <= addr && addr <= 0x7FFF && self.bg_slot_01.is_some() {
            match &self.bg_slot_01 {
                Some(v) => Some((v, 0x4000)),
                None => None,
            }
        } else if 0x1_0000 <= addr && addr <= 0x1_3FFF && self.bg_slot_02.is_some() {
            match &self.bg_slot_02 {
                Some(v) => Some((v, 0x1_0000)),
                None => None,
            }
        } else if 0x1_4000 <= addr && addr <= 0x1_7FFF && self.bg_slot_03.is_some() {
            match &self.bg_slot_03 {
                Some(v) => Some((v, 0x1_4000)),
                None => None,
            }
        } else if addr <= 0x1_FFFF {
            match &self.bg_slot_0 {
                Some(v) => Some((v, 0)),
                None => None,
            }
        } else if addr <= 0x3_FFFF {
            match &self.bg_slot_1 {
                Some(v) => Some((v, 0x2_0000)),
                None => None,
            }
        } else if addr <= 0x5_FFFF {
            match &self.bg_slot_2 {
                Some(v) => Some((v, 0x4_0000)),
                None => None,
            }
        } else if addr <= 0x7_FFFF {
            match &self.bg_slot_3 {
                Some(v) => Some((v, 0x6_0000)),
                None => None,
            }
        } else {
            None
        }
    }

    /// The background bank for an address, lent out for writing.
    pub fn lookup_bg_mut(&mut self, addr: u32) -> (r: Option<(&mut Ram, u32)>)
        ensures
            match r {
                Some(p) => old(self).bg_lookup(addr) == Some((*p.0, p.1)) && final(self).bg_lookup(addr)
                    == Some((*final(p.0), p.1)),
                None => old(self).bg_lookup(addr) is None && *final(self) == *old(self),
            },
    {
        if 0x4000 <= addr && addr <= 0x7FFF && self.bg_slot_01.is_some() {
            slot_mut(&mut self.bg_slot_01, 0x4000)
        } else if 0x1_0000 <= addr && addr <= 0x1_3FFF && self.bg_slot_02.is_some() {
            slot_mut(&mut self.bg_slot_02, 0x1_0000)
        } else if 0x1_4000 <= addr && addr <= 0x1_7FFF && self.bg_slot_03.is_some() {
            slot_mut(&mut self.bg_slot_03, 0x1_4000)
        } else if addr <= 0x1_FFFF {
            slot_mut(&mut self.bg_slot_0, 0)
        } else if addr <= 0x3_FFFF {
            slot_mut(&mut self.bg_slot_1, 0x2_0000)
        } else if addr <= 0x5_FFFF {
            slot_mut(&mut self.bg_slot_2, 0x4_0000)
        } else if addr <= 0x7_FFFF {
            slot_mut(&mut self.bg_slot_3, 0x6_0000)
        } else {
            None
        }
    }

    /// The object bank for an address, with the offset it serves from.
    pub fn lookup_obj(&self, addr: u32) -> (r: Option<(&Ram, u32)>)
        ensures
            match r {
                Some(p) => self.obj_lookup(addr) == Some((*p.0, p.1)),
                None => self.obj_lookup(addr) is None,
            },
    {
        if 0x4000 <= addr && addr <= 0x7FFF && self.obj_slot_01.is_some() {
            match &self.obj_slot_01 {
                Some(v) => Some((v, 0x4000)),
                None => None,
            }
        } else if 0x1_0000 <= addr && addr <= 0x1_3FFF && self.obj_slot_02.is_some() {
            match &self.obj_slot_02 {
                Some(v) => Some((v, 0x1_0000)),
                None => None,
            }
        } else if 0x1_4000 <= addr && addr <= 0x1_7FFF && self.obj_slot_03.is_some() {
            match &self.obj_slot_03 {
                Some(v) => Some((v, 0x1_4000)),
                None => None,
            }
        } else if addr <= 0x1_FFFF {
            match &self.obj_slot_0 {
                Some(v) => Some((v, 0)),
                None => None,
            }
        } else if addr <= 0x3_FFFF {
            match &self.obj_slot_1 {
                Some(v) => Some((v, 0x2_0000)),
                None => None,
            }
        } else {
            None
        }
    }

    /// The object bank for an address, lent out for writing.
    pub fn lookup_obj_mut(&mut self, addr: u32) -> (r: Option<(&mut Ram, u32)>)
        ensures
            match r {
                Some(p) => old(self).obj_lookup(addr) == Some((*p.0, p.1)) && final(self).obj_lookup(
                    addr,
                ) == Some((*final(p.0), p.1)),
                None => old(self).obj_lookup(addr) is None && *final(self) == *old(self),
            },
    {
        if 0x4000 <= addr && addr <= 0x7FFF && self.obj_slot_01.is_some() {
            slot_mut(&mut self.obj_slot_01, 0x4000)
        } else if 0x1_0000 <= addr && addr <= 0x1_3FFF && self.obj_slot_02.is_some() {
            slot_mut(&mut self.obj_slot_02, 0x1_0000)
        } else if 0x1_4000 <= addr && addr <= 0x1_7FFF && self.obj_slot_03.is_some() {
            slot_mut(&mut self.obj_slot_03, 0x1_4000)
        } else if addr <= 0x1_FFFF {
            slot_mut(&mut self.obj_slot_0, 0)
        } else if addr <= 0x3_FFFF {
            slot_mut(&mut self.obj_slot_1, 0x2_0000)
        } else {
            None
        }
    }
}

/// VRAM that 2D engine B draws from.
pub struct EngineBVRAM {
    /// Up to 128K, from 0x0620_0000.
    pub bg_slot_0: Option<Ram>,
    /// 16K, from 0x0620_8000.
    pub bg_slot_01: Option<Ram>,
    /// Up to 128K, from 0x0660_0000.
    pub obj_slot: Option<Ram>,
    pub ext_bg_palette: Option<Ram>,
    pub ext_obj_palette: Option<Ram>,
    pub ext_bg_palette_dirty: bool,
    pub ext_obj_palette_dirty: bool,
}

impl EngineBVRAM {
    /// Nothing is mapped.
    pub open spec fn empty(&self) -> bool {
        &&& self.bg_slot_0 is None && self.bg_slot_01 is None && self.obj_slot is None
        &&& self.ext_bg_palette is None && self.ext_obj_palette is None
        &&& !self.ext_bg_palette_dirty && !self.ext_obj_palette_dirty
    }

    pub fn new() -> (r: Self)
        ensures
            r.empty(),
    {
        EngineBVRAM {
            bg_slot_0: None,
            bg_slot_01: None,
            obj_slot: None,
            ext_bg_palette: None,
            ext_obj_palette: None,
            ext_bg_palette_dirty: false,
            ext_obj_palette_dirty: false,
        }
    }

    /// The background bank serving an engine address, with its offset.
    pub open spec fn bg_lookup(&self, addr: u32) -> Option<(Ram, u32)> {
        if 0x8000 <= addr <= 0xBFFF && self.bg_slot_01 is Some {
            at(self.bg_slot_01, 0x8000)
        } else if addr <= 0x1_FFFF {
            at(self.bg_slot_0, 0)
        } else {
            None
        }
    }

    /// The background bank for an address, with the offset it serves from.
    pub fn lookup_bg(&self, addr: u32) -> (r: Option<(&Ram, u32)>)
        ensures
            match r {
                Some(p) => self.bg_lookup(addr) == Some((*p.0, p.1)),
                None => self.bg_lookup(addr) is None,
            },
    {
        if 0x8000 <= addr && addr <= 0xBFFF && self.bg_slot_01.is_some() {
            match &self.bg_slot_01 {
                Some(v) => Some((v, 0x8000)),
                None => None,
            }
        } else if addr <= 0x1_FFFF {
            match &self.bg_slot_0 {
                Some(v) => Some((v, 0)),
                None => None,
            }
        } else {
            None
        }
    }

    /// The background bank for an address, lent out for writing.
    pub fn lookup_bg_mut(&mut self, addr: u32) -> (r: Option<(&mut Ram, u32)>)
        ensures
            match r {
                Some(p) => old(self).bg_lookup(addr) == Some((*p.0, p.1)) && final(self).bg_lookup(addr)
                    == Some((*final(p.0), p.1)),
                None => old(self).bg_lookup(addr) is None && *final(self) == *old(self),
            },
    {
        if 0x8000 <= addr && addr <= 0xBFFF && self.bg_slot_01.is_some() {
            slot_mut(&mut self.bg_slot_01, 0x8000)
        } else if addr <= 0x1_FFFF {
            slot_mut(&mut self.bg_slot_0, 0)
        } else {
            None
        }
    }
}

} // verus!
