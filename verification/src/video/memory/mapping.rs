//! The video memory as the ARM9 controls it: where each of the nine VRAM
//! banks is mapped, moving banks between the places they can be mapped to,
//! and the palette and object memories of the two 2D engines.
use vstd::prelude::*;
use crate::ram::{Ram, spec_le16, spec_le32, spec_write_le16, spec_write_le32};
use crate::video::memory::VRAMRegion;
use crate::video::memory::control::{Slot, ARM7, EngineA, EngineB, Texture, VRAMControl};
use crate::video::memory::vram::{ARM9VRAM, ARM7VRAMSlots, EngineAVRAM, EngineBVRAM, bank_size, VRAM_STATUS_C, VRAM_STATUS_D};

verus! {

/// Bank control: the bits that are stored.
pub const VRAM_CNT_ALL: u8 = 0x9F;

/// VRAM that the 3D engine reads textures and texture palettes from.
pub struct Engine3DVRAM {
    pub tex_0: Option<Ram>,
    pub tex_1: Option<Ram>,
    pub tex_2: Option<Ram>,
    pub tex_3: Option<Ram>,
    pub tex_palette_0: Option<Ram>,
    pub tex_palette_1: Option<Ram>,
    pub tex_palette_4: Option<Ram>,
    pub tex_palette_5: Option<Ram>,
    /// A texture palette bank was mapped or unmapped.
    pub tex_palette_dirty: bool,
}

impl Engine3DVRAM {
    pub fn new() -> (r: Self)
        ensures
            r.tex_0 is None && r.tex_1 is None && r.tex_2 is None && r.tex_3 is None,
            r.tex_palette_0 is None && r.tex_palette_1 is None,
            r.tex_palette_4 is None && r.tex_palette_5 is None,
            !r.tex_palette_dirty,
    {
        Engine3DVRAM {
            tex_0: None,
            tex_1: None,
            tex_2: None,
            tex_3: None,
            tex_palette_0: None,
            tex_palette_1: None,
            tex_palette_4: None,
            tex_palette_5: None,
            tex_palette_dirty: false,
        }
    }

    /// The texture slot holding texture address `addr`: four 128K slots.
    pub open spec fn tex_slot(&self, addr: u32) -> Option<Ram> {
        let k = addr / 0x2_0000;
        if k == 0 {
            self.tex_0
        } else if k == 1 {
            self.tex_1
        } else if k == 2 {
            self.tex_2
        } else if k == 3 {
            self.tex_3
        } else {
            None
        }
    }

    /// The texture byte at `addr`; 0 where nothing is mapped.
    pub open spec fn tex_byte(&self, addr: u32) -> u8 {
        match self.tex_slot(addr) {
            Some(m) => if (addr % 0x2_0000) < m@.len() { m@[(addr % 0x2_0000) as int] } else { 0 },
            None => 0,
        }
    }

    /// Reads a texture byte.
    pub fn get_tex_byte(&self, addr: u32) -> (r: u8)
        ensures
            r == self.tex_byte(addr),
    {
        let k = addr / 0x2_0000;
        let slot = if k == 0 {
            &self.tex_0
        } else if k == 1 {
            &self.tex_1
        } else if k == 2 {
            &self.tex_2
        } else if k == 3 {
            &self.tex_3
        } else {
            return 0;
        };
        match slot {
            Some(m) => {
                let off = addr % 0x2_0000;
                if (off as usize) < m.len() {
                    m.read_byte(off)
                } else {
                    0
                }
            },
            None => 0,
        }
    }

    /// Reads a texture half-word, little-endian.
    pub fn get_tex_halfword(&self, addr: u32) -> (r: u16)
        requires
            addr < u32::MAX,
        ensures
            r == self.tex_byte(addr) + self.tex_byte((addr + 1) as u32) * 0x100,
    {
        let lo = self.get_tex_byte(addr);
        let hi = self.get_tex_byte(addr + 1);
        (lo as u16) + (hi as u16) * 0x100
    }
}

/// The VRAM banks wherever they are mapped, the bank controls, and the
/// palette and object memories.
pub struct DSVideoMemory {
    pub lcdc_vram: ARM9VRAM,
    pub arm7_mem: ARM7VRAMSlots,
    pub engine_a_mem: EngineAVRAM,
    pub engine_b_mem: EngineBVRAM,
    pub engine_3d_mem: Engine3DVRAM,
    /// The control register of each bank.
    pub mem_control: [VRAMControl; 9],
    /// Where each bank is mapped.
    pub mem_slot: [Slot; 9],
    pub power_cnt: u16,
    pub engine_a_palette: Ram,
    pub engine_a_oam: Ram,
    pub engine_b_palette: Ram,
    pub engine_b_oam: Ram,
}

/// The bank with number `i`.
pub open spec fn region_of(i: int) -> VRAMRegion {
    if i == 0 {
        VRAMRegion::A
    } else if i == 1 {
        VRAMRegion::B
    } else if i == 2 {
        VRAMRegion::C
    } else if i == 3 {
        VRAMRegion::D
    } else if i == 4 {
        VRAMRegion::E
    } else if i == 5 {
        VRAMRegion::F
    } else if i == 6 {
        VRAMRegion::G
    } else if i == 7 {
        VRAMRegion::H
    } else {
        VRAMRegion::I
    }
}

impl DSVideoMemory {
    /// What is mapped at a slot.
    pub open spec fn loc(&self, s: Slot) -> Option<Ram> {
        match s {
            Slot::LCDC(r) => self.lcdc_vram.lcdc@[r.spec_index()],
            Slot::ARM7(a) => match a {
                ARM7::Lo => self.arm7_mem.c,
                ARM7::Hi => self.arm7_mem.d,
            },
            Slot::EngineA(e) => match e {
                EngineA::Bg0 => self.engine_a_mem.bg_slot_0,
                EngineA::Bg01 => self.engine_a_mem.bg_slot_01,
                EngineA::Bg02 => self.engine_a_mem.bg_slot_02,
                EngineA::Bg03 => self.engine_a_mem.bg_slot_03,
                EngineA::Bg1 => self.engine_a_mem.bg_slot_1,
                EngineA::Bg2 => self.engine_a_mem.bg_slot_2,
                EngineA::Bg3 => self.engine_a_mem.bg_slot_3,
                EngineA::Obj0 => self.engine_a_mem.obj_slot_0,
                EngineA::Obj01 => self.engine_a_mem.obj_slot_01,
                EngineA::Obj02 => self.engine_a_mem.obj_slot_02,
                EngineA::Obj03 => self.engine_a_mem.obj_slot_03,
                EngineA::Obj1 => self.engine_a_mem.obj_slot_1,
                EngineA::BgExtPalette0 => self.engine_a_mem.ext_bg_palette_0,
                EngineA::BgExtPalette2 => self.engine_a_mem.ext_bg_palette_2,
                EngineA::ObjExtPalette => self.engine_a_mem.ext_obj_palette,
            },
            Slot::EngineB(e) => match e {
                EngineB::Bg0 => self.engine_b_mem.bg_slot_0,
                EngineB::Bg01 => self.engine_b_mem.bg_slot_01,
                EngineB::Obj => self.engine_b_mem.obj_slot,
                EngineB::BgExtPalette => self.engine_b_mem.ext_bg_palette,
                EngineB::ObjExtPalette => self.engine_b_mem.ext_obj_palette,
            },
            Slot::Texture(t) => match t {
                Texture::Tex0 => self.engine_3d_mem.tex_0,
                Texture::Tex1 => self.engine_3d_mem.tex_1,
                Texture::Tex2 => self.engine_3d_mem.tex_2,
                Texture::Tex3 => self.engine_3d_mem.tex_3,
                Texture::Palette0 => self.engine_3d_mem.tex_palette_0,
                Texture::Palette1 => self.engine_3d_mem.tex_palette_1,
                Texture::Palette4 => self.engine_3d_mem.tex_palette_4,
                Texture::Palette5 => self.engine_3d_mem.tex_palette_5,
            },
        }
    }

    /// Nothing but what is mapped changed, apart from the flags that say
    /// an extended or texture palette was remapped.
    pub open spec fn same_but_slots(&self, other: &Self) -> bool {
        &&& self.mem_control == other.mem_control
        &&& self.mem_slot == other.mem_slot
        &&& self.power_cnt == other.power_cnt
        &&& self.engine_a_palette == other.engine_a_palette
        &&& self.engine_a_oam == other.engine_a_oam
        &&& self.engine_b_palette == other.engine_b_palette
        &&& self.engine_b_oam == other.engine_b_oam
    }

    /// The bank that bank control `i` says where it is.
    pub open spec fn bank(&self, i: int) -> Option<Ram> {
        self.loc(self.mem_slot@[i])
    }

    /// Every bank is where its control says, no two banks share a slot, a
    /// bank in the ARM9's own range is in its own place, and nothing else is
    /// mapped anywhere.
    pub open spec fn wf(&self) -> bool {
        &&& forall|i: int| 0 <= i < 9 ==> #[trigger] self.bank(i) is Some && self.bank(i).unwrap()@.len() == bank_size(i)
        &&& forall|i: int, j: int| 0 <= i < j < 9 ==> #[trigger] self.mem_slot@[i] != #[trigger] self.mem_slot@[j]
        &&& forall|i: int| 0 <= i < 9 ==> (#[trigger] self.mem_slot@[i] matches Slot::LCDC(r) ==> r.spec_index() == i)
        &&& forall|s: Slot| #[trigger] self.loc(s) is Some ==> exists|i: int| 0 <= i < 9 && #[trigger] self.mem_slot@[i] == s
        &&& self.engine_a_palette@.len() == 0x400 && self.engine_a_oam@.len() == 0x400
        &&& self.engine_b_palette@.len() == 0x400 && self.engine_b_oam@.len() == 0x400
    }
}

/// Sizes of the banks, as the address arithmetic needs them.
proof fn lemma_bank_sizes(i: int)
    requires
        0 <= i < 9,
    ensures
        bank_size(i) == 0x2_0000 || bank_size(i) == 0x1_0000 || bank_size(i) == 0x8000 || bank_size(i) == 0x4000,
{
}

/// A slot's value after a swap: `v` at `s`, others unchanged.
pub open spec fn swapped(x: DSVideoMemory, y: DSVideoMemory, s: Slot, v: Option<Ram>) -> bool {
    &&& y.same_but_slots(&x)
    &&& y.loc(s) == v
    &&& forall|t: Slot| t != s ==> #[trigger] y.loc(t) == x.loc(t)
}

/// The flags by which the renderers learn that a palette changed: engine
/// A's extended background and object palettes, engine B's, and the 3D
/// engine's texture palette.
pub open spec fn dirty_flags(v: DSVideoMemory) -> (bool, bool, bool, bool, bool) {
    (
        v.engine_a_mem.ext_bg_palette_dirty,
        v.engine_a_mem.ext_obj_palette_dirty,
        v.engine_b_mem.ext_bg_palette_dirty,
        v.engine_b_mem.ext_obj_palette_dirty,
        v.engine_3d_mem.tex_palette_dirty,
    )
}

/// The flags after mapping or unmapping slot `s`: the flag of the palette
/// that `s` holds is set.
pub open spec fn mark_dirty(f: (bool, bool, bool, bool, bool), s: Slot) -> (bool, bool, bool, bool, bool) {
    match s {
        Slot::EngineA(EngineA::BgExtPalette0) | Slot::EngineA(EngineA::BgExtPalette2) => (true, f.1, f.2, f.3, f.4),
        Slot::EngineA(EngineA::ObjExtPalette) => (f.0, true, f.2, f.3, f.4),
        Slot::EngineB(EngineB::BgExtPalette) => (f.0, f.1, true, f.3, f.4),
        Slot::EngineB(EngineB::ObjExtPalette) => (f.0, f.1, f.2, true, f.4),
        Slot::Texture(Texture::Palette0) | Slot::Texture(Texture::Palette1) | Slot::Texture(Texture::Palette4)
        | Slot::Texture(Texture::Palette5) => (f.0, f.1, f.2, f.3, true),
        _ => f,
    }
}

/// Puts `new` in `slot` and returns what was there.
fn replace_slot(slot: &mut Option<Ram>, new: Option<Ram>) -> (r: Option<Ram>)
    ensures
        r == *old(slot),
        *final(slot) == new,
{
    let mut v = new;
    std::mem::swap(slot, &mut v);
    v
}

impl DSVideoMemory {
    /// Puts `new` at slot `s` and returns what was there; mapping or
    /// unmapping an extended or texture palette marks it changed.
    fn swap_mem(&mut self, s: Slot, new: Option<Ram>) -> (r: Option<Ram>)
        ensures
            r == old(self).loc(s),
            swapped(*old(self), *final(self), s, new),
            dirty_flags(*final(self)) == mark_dirty(dirty_flags(*old(self)), s),
    {
        match s {
            Slot::LCDC(region) => {
                let i = region.index();
                {
                    let mut v = new;
                    std::mem::swap(&mut self.lcdc_vram.lcdc[i], &mut v);
                    v
                }
            },
            Slot::ARM7(a) => match a {
                ARM7::Lo => replace_slot(&mut self.arm7_mem.c, new),
                ARM7::Hi => replace_slot(&mut self.arm7_mem.d, new),
            },
            Slot::EngineA(e) => match e {
                EngineA::Bg0 => replace_slot(&mut self.engine_a_mem.bg_slot_0, new),
                EngineA::Bg01 => replace_slot(&mut self.engine_a_mem.bg_slot_01, new),
                EngineA::Bg02 => replace_slot(&mut self.engine_a_mem.bg_slot_02, new),
                EngineA::Bg03 => replace_slot(&mut self.engine_a_mem.bg_slot_03, new),
                EngineA::Bg1 => replace_slot(&mut self.engine_a_mem.bg_slot_1, new),
                EngineA::Bg2 => replace_slot(&mut self.engine_a_mem.bg_slot_2, new),
                EngineA::Bg3 => replace_slot(&mut self.engine_a_mem.bg_slot_3, new),
                EngineA::Obj0 => replace_slot(&mut self.engine_a_mem.obj_slot_0, new),
                EngineA::Obj01 => replace_slot(&mut self.engine_a_mem.obj_slot_01, new),
                EngineA::Obj02 => replace_slot(&mut self.engine_a_mem.obj_slot_02, new),
                EngineA::Obj03 => replace_slot(&mut self.engine_a_mem.obj_slot_03, new),
                EngineA::Obj1 => replace_slot(&mut self.engine_a_mem.obj_slot_1, new),
                EngineA::BgExtPalette0 => {
                    self.engine_a_mem.ext_bg_palette_dirty = true;
                    replace_slot(&mut self.engine_a_mem.ext_bg_palette_0, new)
                },
                EngineA::BgExtPalette2 => {
                    self.engine_a_mem.ext_bg_palette_dirty = true;
                    replace_slot(&mut self.engine_a_mem.ext_bg_palette_2, new)
                },
                EngineA::ObjExtPalette => {
                    self.engine_a_mem.ext_obj_palette_dirty = true;
                    replace_slot(&mut self.engine_a_mem.ext_obj_palette, new)
                },
            },
            Slot::EngineB(e) => match e {
                EngineB::Bg0 => replace_slot(&mut self.engine_b_mem.bg_slot_0, new),
                EngineB::Bg01 => replace_slot(&mut self.engine_b_mem.bg_slot_01, new),
                EngineB::Obj => replace_slot(&mut self.engine_b_mem.obj_slot, new),
                EngineB::BgExtPalette => {
                    self.engine_b_mem.ext_bg_palette_dirty = true;
                    replace_slot(&mut self.engine_b_mem.ext_bg_palette, new)
                },
                EngineB::ObjExtPalette => {
                    self.engine_b_mem.ext_obj_palette_dirty = true;
                    replace_slot(&mut self.engine_b_mem.ext_obj_palette, new)
                },
            },
            Slot::Texture(t) => match t {
                Texture::Tex0 => replace_slot(&mut self.engine_3d_mem.tex_0, new),
                Texture::Tex1 => replace_slot(&mut self.engine_3d_mem.tex_1, new),
                Texture::Tex2 => replace_slot(&mut self.engine_3d_mem.tex_2, new),
                Texture::Tex3 => replace_slot(&mut self.engine_3d_mem.tex_3, new),
                Texture::Palette0 => {
                    self.engine_3d_mem.tex_palette_dirty = true;
                    replace_slot(&mut self.engine_3d_mem.tex_palette_0, new)
                },
                Texture::Palette1 => {
                    self.engine_3d_mem.tex_palette_dirty = true;
                    replace_slot(&mut self.engine_3d_mem.tex_palette_1, new)
                },
                Texture::Palette4 => {
                    self.engine_3d_mem.tex_palette_dirty = true;
                    replace_slot(&mut self.engine_3d_mem.tex_palette_4, new)
                },
                Texture::Palette5 => {
                    self.engine_3d_mem.tex_palette_dirty = true;
                    replace_slot(&mut self.engine_3d_mem.tex_palette_5, new)
                },
            },
        }
    }
}

/// A control never maps a bank into another bank's place in the ARM9's
/// own range.
proof fn lemma_lcdc_slot_own(c: VRAMControl, region: VRAMRegion)
    ensures
        c.spec_get_slot(region) matches Slot::LCDC(r) ==> r == region,
{
}

/// Bank numbers and banks correspond.
proof fn lemma_region_of(i: int)
    requires
        0 <= i < 9,
    ensures
        region_of(i).spec_index() == i,
        forall|r: VRAMRegion| r.spec_index() == i ==> r == region_of(i),
{
}

impl DSVideoMemory {
    /// The bank, other than bank `except`, that is mapped at `slot`.
    fn lookup_at_slot(&self, slot: Slot, except: usize) -> (r: Option<usize>)
        ensures
            match r {
                Some(n) => n < 9 && n != except && self.mem_slot@[n as int] == slot && forall|k: int|
                    0 <= k < n && k != except ==> self.mem_slot@[k] != slot,
                None => forall|k: int| 0 <= k < 9 && k != except ==> self.mem_slot@[k] != slot,
            },
    {
        let mut n: usize = 0;
        while n < 9
            invariant
                n <= 9,
                forall|k: int| 0 <= k < n && k != except ==> self.mem_slot@[k] != slot,
            decreases 9 - n,
        {
            if n != except && self.mem_slot[n] == slot {
                return Some(n);
            }
            n = n + 1;
        }
        None
    }

    /// The control register of a bank.
    pub fn get_cnt(&self, region: VRAMRegion) -> (r: u8)
        ensures
            r == self.mem_control@[region.spec_index()].bits,
    {
        self.mem_control[region.index()].bits
    }

    /// Writes the control register of a bank, moving the bank to the place
    /// it selects. A bank already mapped there goes back to its own place in
    /// the ARM9's range. No bank's contents change: each is only moved.
    pub fn set_cnt(&mut self, region: VRAMRegion, data: u8)
        requires
            old(self).wf(),
        ensures
            final(self).wf(),
            forall|k: int| 0 <= k < 9 ==> #[trigger] final(self).bank(k) == old(self).bank(k),
            final(self).power_cnt == old(self).power_cnt,
            final(self).engine_a_palette == old(self).engine_a_palette,
            final(self).engine_a_oam == old(self).engine_a_oam,
            final(self).engine_b_palette == old(self).engine_b_palette,
            final(self).engine_b_oam == old(self).engine_b_oam,
            ({
                let i = region.spec_index();
                if old(self).mem_control@[i].bits == data {
                    *final(self) == *old(self)
                } else {
                    let cnt = VRAMControl { bits: data & VRAM_CNT_ALL };
                    let to = cnt.spec_get_slot(region);
                    &&& dirty_flags(*final(self)) == mark_dirty(mark_dirty(dirty_flags(*old(self)), old(self).mem_slot@[i]), to)
                    &&& final(self).mem_control@ == old(self).mem_control@.update(i, cnt)
                    &&& final(self).mem_slot@[i] == to
                    &&& forall|k: int| 0 <= k < 9 && k != i ==> #[trigger] final(self).mem_slot@[k] == (if old(
                        self,
                    ).mem_slot@[k] == to {
                        Slot::LCDC(region_of(k))
                    } else {
                        old(self).mem_slot@[k]
                    })
                }
            }),
    {
        let i = region.index();
        if self.mem_control[i].bits == data {
            return;
        }
        let ghost s0 = *self;
        let from = self.mem_slot[i];
        let mem = self.swap_mem(from, None);
        let ghost s1 = *self;
        let cnt = VRAMControl { bits: data & VRAM_CNT_ALL };
        let to = cnt.get_slot(region);
        proof {
            lemma_lcdc_slot_own(cnt, region);
        }
        self.mem_control[i] = cnt;
        self.mem_slot[i] = to;
        let ghost s2 = *self;
        let prev = self.swap_mem(to, mem);
        let ghost s3 = *self;
        proof {
            lemma_region_of(i as int);
            assert forall|t: Slot| #[trigger] s2.loc(t) == s1.loc(t) by {}
            assert(s1.loc(from) is None);
            // A bank other than this one keeps its place unless it is at `to`.
            assert forall|k: int| 0 <= k < 9 && k != i implies #[trigger] s0.mem_slot@[k] != from by {
                if k < i { assert(s0.mem_slot@[k] != s0.mem_slot@[i as int]); }
                else { assert(s0.mem_slot@[i as int] != s0.mem_slot@[k]); }
            }
        }
        if prev.is_some() {
            proof {
                assert(to != from);
                assert(s0.loc(to) is Some);
                let j0 = choose|j: int| 0 <= j < 9 && #[trigger] s0.mem_slot@[j] == to;
                assert(s0.mem_slot@[j0] == to);
                assert(j0 != i);
                assert(s3.mem_slot@[j0] == to);
            }
            match self.lookup_at_slot(to, i) {
                Some(j) => {
                    let back = match VRAMRegion::from_index(j) {
                        Some(r) => r,
                        None => region,
                    };
                    let ghost lb = Slot::LCDC(back);
                    proof {
                        lemma_region_of(j as int);
                        assert(back == region_of(j as int));
                        assert(s0.mem_slot@[j as int] == to);
                        assert forall|k: int| 0 <= k < 9 && k != j implies #[trigger] s0.mem_slot@[k] != to by {
                            if k < j { assert(s0.mem_slot@[k] != s0.mem_slot@[j as int]); }
                            else { assert(s0.mem_slot@[j as int] != s0.mem_slot@[k]); }
                        }
                        assert(lb != to);
                        assert(lb != from) by {
                            assert(s0.mem_slot@[i as int] matches Slot::LCDC(r) ==> r.spec_index() == i);
                        }
                        assert(s0.loc(lb) is None) by {
                            if s0.loc(lb) is Some {
                                let k = choose|k: int| 0 <= k < 9 && #[trigger] s0.mem_slot@[k] == lb;
                                assert(s0.mem_slot@[k] matches Slot::LCDC(r) ==> r.spec_index() == k);
                            }
                        }
                    }
                    let _ = self.swap_mem(Slot::LCDC(back), prev);
                    let ghost s4 = *self;
                    self.mem_slot[j] = Slot::LCDC(back);
                    proof {
                        let s5 = *self;
                        assert forall|t: Slot| #[trigger] s5.loc(t) == s4.loc(t) by {}
                        assert forall|t: Slot| t != lb && t != to && t != from implies #[trigger] s5.loc(t) == s0.loc(t) by {
                            assert(s4.loc(t) == s3.loc(t));
                            assert(s3.loc(t) == s2.loc(t));
                            assert(s1.loc(t) == s0.loc(t));
                        }
                        assert(s5.loc(to) == s0.loc(from)) by {
                            assert(s4.loc(to) == s3.loc(to));
                        }
                        assert(s5.loc(lb) == s0.loc(to));
                        assert(s5.loc(from) is None) by {
                            assert(s4.loc(from) == s3.loc(from));
                            assert(s3.loc(from) == s2.loc(from));
                        }
                        assert forall|k: int| 0 <= k < 9 implies #[trigger] s5.bank(k) == s0.bank(k) by {
                            if k == i {
                            } else if k == j {
                            } else {
                                assert(s0.mem_slot@[k] != from);
                                assert(s0.mem_slot@[k] != to);
                                assert(s0.mem_slot@[k] != lb) by {
                                    assert(s0.mem_slot@[k] matches Slot::LCDC(r) ==> r.spec_index() == k);
                                }
                            }
                        }
                        assert forall|a: int, b: int| 0 <= a < b < 9 implies #[trigger] s5.mem_slot@[a]
                            != #[trigger] s5.mem_slot@[b] by {
                            assert(s0.mem_slot@[a] != s0.mem_slot@[b]);
                            assert(s0.mem_slot@[a] matches Slot::LCDC(r) ==> r.spec_index() == a);
                            assert(s0.mem_slot@[b] matches Slot::LCDC(r) ==> r.spec_index() == b);
                        }
                        assert forall|t: Slot| #[trigger] s5.loc(t) is Some implies exists|k: int| 0 <= k < 9
                            && #[trigger] s5.mem_slot@[k] == t by {
                            if t == lb {
                                assert(s5.mem_slot@[j as int] == t);
                            } else if t == to {
                                assert(s5.mem_slot@[i as int] == t);
                            } else {
                                assert(s0.loc(t) is Some);
                                let k0 = choose|k: int| 0 <= k < 9 && #[trigger] s0.mem_slot@[k] == t;
                                assert(s5.mem_slot@[k0] == t);
                            }
                        }
                    }
                },
                None => {},
            }
        } else {
            proof {
                let s5 = *self;
                assert forall|k: int| 0 <= k < 9 && k != i implies #[trigger] s0.mem_slot@[k] != to by {
                    if s0.mem_slot@[k] == to {
                        assert(s0.bank(k) is Some);
                        assert(s0.mem_slot@[k] != from);
                        assert(s1.loc(to) == s0.loc(to));
                    }
                }
                assert forall|k: int| 0 <= k < 9 implies #[trigger] s5.bank(k) == s0.bank(k) by {
                    if k != i {
                        assert(s0.mem_slot@[k] != from);
                        assert(s0.mem_slot@[k] != to);
                    }
                }
                assert forall|a: int, b: int| 0 <= a < b < 9 implies #[trigger] s5.mem_slot@[a]
                    != #[trigger] s5.mem_slot@[b] by {
                    assert(s0.mem_slot@[a] != s0.mem_slot@[b]);
                }
                assert forall|t: Slot| #[trigger] s5.loc(t) is Some implies exists|k: int| 0 <= k < 9
                    && #[trigger] s5.mem_slot@[k] == t by {
                    if t == to {
                        assert(s5.mem_slot@[i as int] == t);
                    } else {
                        assert(s0.loc(t) is Some);
                        let k0 = choose|k: int| 0 <= k < 9 && #[trigger] s0.mem_slot@[k] == t;
                        assert(s5.mem_slot@[k0] == t);
                    }
                }
            }
        }
    }
}

impl DSVideoMemory {
    /// All banks in the ARM9's own range with their controls clear, nothing
    /// mapped elsewhere, and zeroed palette and object memories.
    pub fn new() -> (r: Self)
        ensures
            r.wf(),
            forall|i: int| 0 <= i < 9 ==> #[trigger] r.mem_slot@[i] == Slot::LCDC(region_of(i)) && r.mem_control@[i].bits == 0,
            forall|i: int| 0 <= i < 9 ==> #[trigger] r.bank(i).unwrap()@ == Seq::new(bank_size(i), |j: int| 0u8),
            r.power_cnt == 0,
            r.engine_a_palette@ == Seq::new(0x400, |j: int| 0u8) && r.engine_a_oam@ == Seq::new(0x400, |j: int| 0u8),
            r.engine_b_palette@ == Seq::new(0x400, |j: int| 0u8) && r.engine_b_oam@ == Seq::new(0x400, |j: int| 0u8),
    {
        let (lcdc_vram, arm7, engine_a_mem, engine_b_mem) = ARM9VRAM::new();
        let z = VRAMControl { bits: 0 };
        let r = DSVideoMemory {
            lcdc_vram,
            arm7_mem: arm7.mem,
            engine_a_mem,
            engine_b_mem,
            engine_3d_mem: Engine3DVRAM::new(),
            mem_control: [z, z, z, z, z, z, z, z, z],
            mem_slot: [
                Slot::LCDC(VRAMRegion::A),
                Slot::LCDC(VRAMRegion::B),
                Slot::LCDC(VRAMRegion::C),
                Slot::LCDC(VRAMRegion::D),
                Slot::LCDC(VRAMRegion::E),
                Slot::LCDC(VRAMRegion::F),
                Slot::LCDC(VRAMRegion::G),
                Slot::LCDC(VRAMRegion::H),
                Slot::LCDC(VRAMRegion::I),
            ],
            power_cnt: 0,
            engine_a_palette: Ram::new(0x400),
            engine_a_oam: Ram::new(0x400),
            engine_b_palette: Ram::new(0x400),
            engine_b_oam: Ram::new(0x400),
        };
        proof {
            assert forall|i: int| 0 <= i < 9 implies #[trigger] r.mem_slot@[i] == Slot::LCDC(region_of(i)) by {
                lemma_region_of(i);
            }
            assert forall|i: int| 0 <= i < 9 implies #[trigger] r.bank(i) is Some && r.bank(i).unwrap()@.len()
                == bank_size(i) && r.bank(i).unwrap()@ == Seq::new(bank_size(i), |j: int| 0u8) by {
                lemma_region_of(i);
                assert(r.mem_slot@[i] == Slot::LCDC(region_of(i)));
            }
            assert forall|a: int, b: int| 0 <= a < b < 9 implies #[trigger] r.mem_slot@[a] != #[trigger] r.mem_slot@[b] by {
                lemma_region_of(a);
                lemma_region_of(b);
                assert(r.mem_slot@[a] == Slot::LCDC(region_of(a)));
                assert(r.mem_slot@[b] == Slot::LCDC(region_of(b)));
            }
            assert forall|i: int| 0 <= i < 9 implies (#[trigger] r.mem_slot@[i] matches Slot::LCDC(q) ==> q.spec_index() == i) by {
                lemma_region_of(i);
                assert(r.mem_slot@[i] == Slot::LCDC(region_of(i)));
            }
            assert forall|t: Slot| #[trigger] r.loc(t) is Some implies exists|k: int| 0 <= k < 9 && #[trigger] r.mem_slot@[k] == t by {
                match t {
                    Slot::LCDC(q) => {
                        let k = q.spec_index();
                        lemma_region_of(k);
                        assert(r.mem_slot@[k] == t);
                    },
                    _ => {},
                }
            }
        }
        r
    }
}

/// The place that serves a VRAM address, and the address within the window
/// that place spans: the 2D engines' background and object windows (the
/// small banks of engine A overlay its first background and object slots,
/// and a bank at engine B's second background slot overlays its first),
/// and the banks in the ARM9's own range at 0x0680_0000.
pub open spec fn vram_slot(m: &DSVideoMemory, addr: u32) -> Option<(Slot, u32)> {
    if 0x0600_0000 <= addr <= 0x061F_FFFF {
        let a = addr % 0x8_0000;
        let e = m.engine_a_mem;
        if 0x4000 <= a <= 0x7FFF && e.bg_slot_01 is Some {
            Some((Slot::EngineA(EngineA::Bg01), (a - 0x4000) as u32))
        } else if 0x1_0000 <= a <= 0x1_3FFF && e.bg_slot_02 is Some {
            Some((Slot::EngineA(EngineA::Bg02), (a - 0x1_0000) as u32))
        } else if 0x1_4000 <= a <= 0x1_7FFF && e.bg_slot_03 is Some {
            Some((Slot::EngineA(EngineA::Bg03), (a - 0x1_4000) as u32))
        } else if a <= 0x1_FFFF {
            Some((Slot::EngineA(EngineA::Bg0), a as u32))
        } else if a <= 0x3_FFFF {
            Some((Slot::EngineA(EngineA::Bg1), (a - 0x2_0000) as u32))
        } else if a <= 0x5_FFFF {
            Some((Slot::EngineA(EngineA::Bg2), (a - 0x4_0000) as u32))
        } else {
            Some((Slot::EngineA(EngineA::Bg3), (a - 0x6_0000) as u32))
        }
    } else if 0x0620_0000 <= addr <= 0x063F_FFFF {
        let a = addr % 0x2_0000;
        if 0x8000 <= a <= 0xBFFF && m.engine_b_mem.bg_slot_01 is Some {
            Some((Slot::EngineB(EngineB::Bg01), (a - 0x8000) as u32))
        } else {
            Some((Slot::EngineB(EngineB::Bg0), a as u32))
        }
    } else if 0x0640_0000 <= addr <= 0x065F_FFFF {
        let a = addr % 0x4_0000;
        let e = m.engine_a_mem;
        if 0x4000 <= a <= 0x7FFF && e.obj_slot_01 is Some {
            Some((Slot::EngineA(EngineA::Obj01), (a - 0x4000) as u32))
        } else if 0x1_0000 <= a <= 0x1_3FFF && e.obj_slot_02 is Some {
            Some((Slot::EngineA(EngineA::Obj02), (a - 0x1_0000) as u32))
        } else if 0x1_4000 <= a <= 0x1_7FFF && e.obj_slot_03 is Some {
            Some((Slot::EngineA(EngineA::Obj03), (a - 0x1_4000) as u32))
        } else if a <= 0x1_FFFF {
            Some((Slot::EngineA(EngineA::Obj0), a as u32))
        } else {
            Some((Slot::EngineA(EngineA::Obj1), (a - 0x2_0000) as u32))
        }
    } else if 0x0660_0000 <= addr <= 0x067F_FFFF {
        Some((Slot::EngineB(EngineB::Obj), addr % 0x2_0000))
    } else if 0x0680_0000 <= addr <= 0x0687_FFFF {
        let n = (addr - 0x0680_0000) / 0x2_0000;
        Some((Slot::LCDC(region_of(n as int)), ((addr - 0x0680_0000) % 0x2_0000) as u32))
    } else if 0x0688_0000 <= addr <= 0x0688_FFFF {
        Some((Slot::LCDC(VRAMRegion::E), (addr - 0x0688_0000) as u32))
    } else if 0x0689_0000 <= addr <= 0x0689_3FFF {
        Some((Slot::LCDC(VRAMRegion::F), (addr - 0x0689_0000) as u32))
    } else if 0x0689_4000 <= addr <= 0x0689_7FFF {
        Some((Slot::LCDC(VRAMRegion::G), (addr - 0x0689_4000) as u32))
    } else if 0x0689_8000 <= addr <= 0x0689_FFFF {
        Some((Slot::LCDC(VRAMRegion::H), (addr - 0x0689_8000) as u32))
    } else if 0x068A_0000 <= addr <= 0x068A_3FFF {
        Some((Slot::LCDC(VRAMRegion::I), (addr - 0x068A_0000) as u32))
    } else {
        None
    }
}

impl DSVideoMemory {
    /// The bank serving a VRAM address and the byte within it: the window
    /// address wraps at the bank's size.
    pub open spec fn vram_at(&self, addr: u32) -> Option<(Slot, Seq<u8>, int)> {
        match vram_slot(self, addr) {
            Some((s, x)) => match self.loc(s) {
                Some(m) => Some((s, m@, x as int % m@.len() as int)),
                None => None,
            },
            None => None,
        }
    }
}

/// The processors' VRAM windows never reach a palette slot, so writing
/// through them marks no palette changed.
proof fn lemma_window_slot_clean(m: &DSVideoMemory, addr: u32, f: (bool, bool, bool, bool, bool))
    ensures
        vram_slot(m, addr) matches Some((s, _)) ==> mark_dirty(f, s) == f,
        mark_dirty(f, DSVideoMemory::arm7_slot(addr).0) == f,
{
}

/// A window address of an aligned VRAM address is aligned.
#[verifier::rlimit(60)]
proof fn lemma_vram_slot_aligned(m: &DSVideoMemory, addr: u32, k: u32)
    requires
        k == 2 || k == 4,
        addr % k == 0,
    ensures
        vram_slot(m, addr) matches Some((s, x)) ==> x % k == 0,
{
    assert((addr % 0x8_0000) % 4 == addr % 4 && (addr % 0x8_0000) % 2 == addr % 2) by (bit_vector);
    assert((addr % 0x2_0000) % 4 == addr % 4 && (addr % 0x2_0000) % 2 == addr % 2) by (bit_vector);
    assert((addr % 0x4_0000) % 4 == addr % 4 && (addr % 0x4_0000) % 2 == addr % 2) by (bit_vector);
    assert(0x0680_0000 <= addr ==> ((addr - 0x0680_0000) % 0x2_0000) % 4 == addr % 4
        && ((addr - 0x0680_0000) % 0x2_0000) % 2 == addr % 2) by (bit_vector);
}

/// An aligned address within a bank leaves room for the access.
proof fn lemma_room(x: u32, len: int, k: u32)
    requires
        k == 1 || k == 2 || k == 4,
        x % k == 0,
        len == 0x2_0000 || len == 0x1_0000 || len == 0x8000 || len == 0x4000,
    ensures
        x as int % len + k <= len,
        (x as int % len) % (k as int) == 0,
{
    assert(x as int % len + k <= len && (x as int % len) % (k as int) == 0) by (nonlinear_arith)
        requires
            k == 1 || k == 2 || k == 4,
            x % k == 0,
            len == 0x2_0000 || len == 0x1_0000 || len == 0x8000 || len == 0x4000,
    ;
}

impl DSVideoMemory {
    /// Whatever is mapped anywhere is one of the banks, with its size.
    proof fn lemma_loc_size(&self, s: Slot)
        requires
            self.wf(),
            self.loc(s) is Some,
        ensures
            self.loc(s).unwrap()@.len() == 0x2_0000 || self.loc(s).unwrap()@.len() == 0x1_0000
                || self.loc(s).unwrap()@.len() == 0x8000 || self.loc(s).unwrap()@.len() == 0x4000,
    {
        let i = choose|i: int| 0 <= i < 9 && #[trigger] self.mem_slot@[i] == s;
        assert(self.bank(i) is Some);
        lemma_bank_sizes(i);
    }

    /// What is mapped at a slot, lent out.
    fn loc_ref(&self, s: Slot) -> (r: Option<&Ram>)
        ensures
            match r {
                Some(m) => self.loc(s) == Some(*m),
                None => self.loc(s) is None,
            },
    {
        match s {
            Slot::LCDC(region) => self.lcdc_vram.lcdc[region.index()].as_ref(),
            Slot::ARM7(a) => match a {
                ARM7::Lo => self.arm7_mem.c.as_ref(),
                ARM7::Hi => self.arm7_mem.d.as_ref(),
            },
            Slot::EngineA(e) => match e {
                EngineA::Bg0 => self.engine_a_mem.bg_slot_0.as_ref(),
                EngineA::Bg01 => self.engine_a_mem.bg_slot_01.as_ref(),
                EngineA::Bg02 => self.engine_a_mem.bg_slot_02.as_ref(),
                EngineA::Bg03 => self.engine_a_mem.bg_slot_03.as_ref(),
                EngineA::Bg1 => self.engine_a_mem.bg_slot_1.as_ref(),
                EngineA::Bg2 => self.engine_a_mem.bg_slot_2.as_ref(),
                EngineA::Bg3 => self.engine_a_mem.bg_slot_3.as_ref(),
                EngineA::Obj0 => self.engine_a_mem.obj_slot_0.as_ref(),
                EngineA::Obj01 => self.engine_a_mem.obj_slot_01.as_ref(),
                EngineA::Obj02 => self.engine_a_mem.obj_slot_02.as_ref(),
                EngineA::Obj03 => self.engine_a_mem.obj_slot_03.as_ref(),
                EngineA::Obj1 => self.engine_a_mem.obj_slot_1.as_ref(),
                EngineA::BgExtPalette0 => self.engine_a_mem.ext_bg_palette_0.as_ref(),
                EngineA::BgExtPalette2 => self.engine_a_mem.ext_bg_palette_2.as_ref(),
                EngineA::ObjExtPalette => self.engine_a_mem.ext_obj_palette.as_ref(),
            },
            Slot::EngineB(e) => match e {
                EngineB::Bg0 => self.engine_b_mem.bg_slot_0.as_ref(),
                EngineB::Bg01 => self.engine_b_mem.bg_slot_01.as_ref(),
                EngineB::Obj => self.engine_b_mem.obj_slot.as_ref(),
                EngineB::BgExtPalette => self.engine_b_mem.ext_bg_palette.as_ref(),
                EngineB::ObjExtPalette => self.engine_b_mem.ext_obj_palette.as_ref(),
            },
            Slot::Texture(t) => match t {
                Texture::Tex0 => self.engine_3d_mem.tex_0.as_ref(),
                Texture::Tex1 => self.engine_3d_mem.tex_1.as_ref(),
                Texture::Tex2 => self.engine_3d_mem.tex_2.as_ref(),
                Texture::Tex3 => self.engine_3d_mem.tex_3.as_ref(),
                Texture::Palette0 => self.engine_3d_mem.tex_palette_0.as_ref(),
                Texture::Palette1 => self.engine_3d_mem.tex_palette_1.as_ref(),
                Texture::Palette4 => self.engine_3d_mem.tex_palette_4.as_ref(),
                Texture::Palette5 => self.engine_3d_mem.tex_palette_5.as_ref(),
            },
        }
    }

    /// The place that serves a VRAM address, and the window address.
    fn find_vram_slot(&self, addr: u32) -> (r: Option<(Slot, u32)>)
        ensures
            r == vram_slot(self, addr),
    {
        if 0x0600_0000 <= addr && addr <= 0x061F_FFFF {
            let a = addr % 0x8_0000;
            if 0x4000 <= a && a <= 0x7FFF && self.engine_a_mem.bg_slot_01.is_some() {
                Some((Slot::EngineA(EngineA::Bg01), a - 0x4000))
            } else if 0x1_0000 <= a && a <= 0x1_3FFF && self.engine_a_mem.bg_slot_02.is_some() {
                Some((Slot::EngineA(EngineA::Bg02), a - 0x1_0000))
            } else if 0x1_4000 <= a && a <= 0x1_7FFF && self.engine_a_mem.bg_slot_03.is_some() {
                Some((Slot::EngineA(EngineA::Bg03), a - 0x1_4000))
            } else if a <= 0x1_FFFF {
                Some((Slot::EngineA(EngineA::Bg0), a))
            } else if a <= 0x3_FFFF {
                Some((Slot::EngineA(EngineA::Bg1), a - 0x2_0000))
            } else if a <= 0x5_FFFF {
                Some((Slot::EngineA(EngineA::Bg2), a - 0x4_0000))
            } else {
                Some((Slot::EngineA(EngineA::Bg3), a - 0x6_0000))
            }
        } else if 0x0620_0000 <= addr && addr <= 0x063F_FFFF {
            let a = addr % 0x2_0000;
            if 0x8000 <= a && a <= 0xBFFF && self.engine_b_mem.bg_slot_01.is_some() {
                Some((Slot::EngineB(EngineB::Bg01), a - 0x8000))
            } else {
                Some((Slot::EngineB(EngineB::Bg0), a))
            }
        } else if 0x0640_0000 <= addr && addr <= 0x065F_FFFF {
            let a = addr % 0x4_0000;
            if 0x4000 <= a && a <= 0x7FFF && self.engine_a_mem.obj_slot_01.is_some() {
                Some((Slot::EngineA(EngineA::Obj01), a - 0x4000))
            } else if 0x1_0000 <= a && a <= 0x1_3FFF && self.engine_a_mem.obj_slot_02.is_some() {
                Some((Slot::EngineA(EngineA::Obj02), a - 0x1_0000))
            } else if 0x1_4000 <= a && a <= 0x1_7FFF && self.engine_a_mem.obj_slot_03.is_some() {
                Some((Slot::EngineA(EngineA::Obj03), a - 0x1_4000))
            } else if a <= 0x1_FFFF {
                Some((Slot::EngineA(EngineA::Obj0), a))
            } else {
                Some((Slot::EngineA(EngineA::Obj1), a - 0x2_0000))
            }
        } else if 0x0660_0000 <= addr && addr <= 0x067F_FFFF {
            Some((Slot::EngineB(EngineB::Obj), addr % 0x2_0000))
        } else if 0x0680_0000 <= addr && addr <= 0x0687_FFFF {
            let n = (addr - 0x0680_0000) / 0x2_0000;
            let region = if n == 0 {
                VRAMRegion::A
            } else if n == 1 {
                VRAMRegion::B
            } else if n == 2 {
                VRAMRegion::C
            } else {
                VRAMRegion::D
            };
            Some((Slot::LCDC(region), (addr - 0x0680_0000) % 0x2_0000))
        } else if 0x0688_0000 <= addr && addr <= 0x0688_FFFF {
            Some((Slot::LCDC(VRAMRegion::E), addr - 0x0688_0000))
        } else if 0x0689_0000 <= addr && addr <= 0x0689_3FFF {
            Some((Slot::LCDC(VRAMRegion::F), addr - 0x0689_0000))
        } else if 0x0689_4000 <= addr && addr <= 0x0689_7FFF {
            Some((Slot::LCDC(VRAMRegion::G), addr - 0x0689_4000))
        } else if 0x0689_8000 <= addr && addr <= 0x0689_FFFF {
            Some((Slot::LCDC(VRAMRegion::H), addr - 0x0689_8000))
        } else if 0x068A_0000 <= addr && addr <= 0x068A_3FFF {
            Some((Slot::LCDC(VRAMRegion::I), addr - 0x068A_0000))
        } else {
            None
        }
    }

    /// Reads a VRAM byte; 0 where nothing is mapped.
    pub fn read_byte_vram(&self, addr: u32) -> (r: u8)
        requires
            self.wf(),
        ensures
            r == match self.vram_at(addr) {
                Some((_, m, l)) => m[l],
                None => 0,
            },
    {
        match self.find_vram_slot(addr) {
            Some((s, x)) => match self.loc_ref(s) {
                Some(ram) => {
                    proof {
                        self.lemma_loc_size(s);
                        lemma_room(x, ram@.len() as int, 1);
                    }
                    ram.read_byte(x % (ram.len() as u32))
                },
                None => 0,
            },
            None => 0,
        }
    }

    /// Reads a VRAM half-word; 0 where nothing is mapped.
    pub fn read_halfword_vram(&self, addr: u32) -> (r: u16)
        requires
            self.wf(),
            addr % 2 == 0,
        ensures
            r == match self.vram_at(addr) {
                Some((_, m, l)) => spec_le16(m, l),
                None => 0,
            },
    {
        match self.find_vram_slot(addr) {
            Some((s, x)) => match self.loc_ref(s) {
                Some(ram) => {
                    proof {
                        self.lemma_loc_size(s);
                        lemma_vram_slot_aligned(self, addr, 2);
                        lemma_room(x, ram@.len() as int, 2);
                    }
                    ram.read_halfword(x % (ram.len() as u32))
                },
                None => 0,
            },
            None => 0,
        }
    }

    /// Reads a VRAM word; 0 where nothing is mapped.
    pub fn read_word_vram(&self, addr: u32) -> (r: u32)
        requires
            self.wf(),
            addr % 4 == 0,
        ensures
            r == match self.vram_at(addr) {
                Some((_, m, l)) => spec_le32(m, l),
                None => 0,
            },
    {
        match self.find_vram_slot(addr) {
            Some((s, x)) => match self.loc_ref(s) {
                Some(ram) => {
                    proof {
                        self.lemma_loc_size(s);
                        lemma_vram_slot_aligned(self, addr, 4);
                        lemma_room(x, ram@.len() as int, 4);
                    }
                    ram.read_word(x % (ram.len() as u32))
                },
                None => 0,
            },
            None => 0,
        }
    }

    /// Writes a VRAM byte; nothing where nothing is mapped. Only the bank
    /// serving the address changes, and a read of the address then gives
    /// what was written.
    pub fn write_byte_vram(&mut self, addr: u32, data: u8)
        requires
            old(self).wf(),
            
        ensures
            final(self).wf(),
            dirty_flags(*final(self)) == dirty_flags(*old(self)),
            match old(self).vram_at(addr) {
                Some((s, m, l)) => {
                    &&& final(self).loc(s) matches Some(w) && w@ == m.update(l, data)
                    &&& forall|t: Slot| t != s ==> #[trigger] final(self).loc(t) == old(self).loc(t)
                    &&& final(self).same_but_slots(old(self))
                },
                None => *final(self) == *old(self),
            },
            old(self).vram_at(addr) is Some ==> (final(self).vram_at(addr) matches Some((_, m, l)) && m[l] == data),
    {
        let (s, x) = match self.find_vram_slot(addr) {
            Some(p) => p,
            None => return,
        };
        if self.loc_ref(s).is_none() {
            return;
        }
        let ghost pre = *self;
        proof {
            lemma_window_slot_clean(self, addr, dirty_flags(*self));
        }
        proof {
            self.lemma_loc_size(s);
            
        }
        let taken = self.swap_mem(s, None);
        match taken {
            Some(mut ram) => {
                proof {
                    lemma_room(x, ram@.len() as int, 1);
                }
                let l = x % (ram.len() as u32);
                ram.write_byte(l, data);
                let _ = self.swap_mem(s, Some(ram));
                proof {
                    lemma_write_keeps(pre, *self, s);
                    assert(vram_slot(self, addr) == vram_slot(&pre, addr));
                    
                }
            },
            None => {},
        }
    }

    /// Writes a VRAM halfword; nothing where nothing is mapped. Only the bank
    /// serving the address changes, and a read of the address then gives
    /// what was written.
    pub fn write_halfword_vram(&mut self, addr: u32, data: u16)
        requires
            old(self).wf(),
            addr % 2 == 0,
        ensures
            final(self).wf(),
            dirty_flags(*final(self)) == dirty_flags(*old(self)),
            match old(self).vram_at(addr) {
                Some((s, m, l)) => {
                    &&& final(self).loc(s) matches Some(w) && w@ == spec_write_le16(m, l, data)
                    &&& forall|t: Slot| t != s ==> #[trigger] final(self).loc(t) == old(self).loc(t)
                    &&& final(self).same_but_slots(old(self))
                },
                None => *final(self) == *old(self),
            },
            old(self).vram_at(addr) is Some ==> (final(self).vram_at(addr) matches Some((_, m, l)) && spec_le16(m, l) == data),
    {
        let (s, x) = match self.find_vram_slot(addr) {
            Some(p) => p,
            None => return,
        };
        if self.loc_ref(s).is_none() {
            return;
        }
        let ghost pre = *self;
        proof {
            lemma_window_slot_clean(self, addr, dirty_flags(*self));
        }
        proof {
            self.lemma_loc_size(s);
            lemma_vram_slot_aligned(self, addr, 2);
        }
        let taken = self.swap_mem(s, None);
        match taken {
            Some(mut ram) => {
                proof {
                    lemma_room(x, ram@.len() as int, 2);
                }
                let l = x % (ram.len() as u32);
                ram.write_halfword(l, data);
                let _ = self.swap_mem(s, Some(ram));
                proof {
                    lemma_write_keeps(pre, *self, s);
                    assert(vram_slot(self, addr) == vram_slot(&pre, addr));
                    crate::ram::lemma_halfword_write_read(pre.loc(s).unwrap()@, l as int, data);
                }
            },
            None => {},
        }
    }

    /// Writes a VRAM word; nothing where nothing is mapped. Only the bank
    /// serving the address changes, and a read of the address then gives
    /// what was written.
    pub fn write_word_vram(&mut self, addr: u32, data: u32)
        requires
            old(self).wf(),
            addr % 4 == 0,
        ensures
            final(self).wf(),
            dirty_flags(*final(self)) == dirty_flags(*old(self)),
            match old(self).vram_at(addr) {
                Some((s, m, l)) => {
                    &&& final(self).loc(s) matches Some(w) && w@ == spec_write_le32(m, l, data)
                    &&& forall|t: Slot| t != s ==> #[trigger] final(self).loc(t) == old(self).loc(t)
                    &&& final(self).same_but_slots(old(self))
                },
                None => *final(self) == *old(self),
            },
            old(self).vram_at(addr) is Some ==> (final(self).vram_at(addr) matches Some((_, m, l)) && spec_le32(m, l) == data),
    {
        let (s, x) = match self.find_vram_slot(addr) {
            Some(p) => p,
            None => return,
        };
        if self.loc_ref(s).is_none() {
            return;
        }
        let ghost pre = *self;
        proof {
            lemma_window_slot_clean(self, addr, dirty_flags(*self));
        }
        proof {
            self.lemma_loc_size(s);
            lemma_vram_slot_aligned(self, addr, 4);
        }
        let taken = self.swap_mem(s, None);
        match taken {
            Some(mut ram) => {
                proof {
                    lemma_room(x, ram@.len() as int, 4);
                }
                let l = x % (ram.len() as u32);
                ram.write_word(l, data);
                let _ = self.swap_mem(s, Some(ram));
                proof {
                    lemma_write_keeps(pre, *self, s);
                    assert(vram_slot(self, addr) == vram_slot(&pre, addr));
                    crate::ram::lemma_word_write_read(pre.loc(s).unwrap()@, l as int, data);
                }
            },
            None => {},
        }
    }
}

/// Changing the contents of the bank at one slot, keeping its size, keeps
/// the mapping well formed and every address served by the same place.
proof fn lemma_write_keeps(pre: DSVideoMemory, post: DSVideoMemory, s: Slot)
    requires
        pre.wf(),
        pre.loc(s) is Some,
        post.same_but_slots(&pre),
        post.loc(s) matches Some(w) && w@.len() == pre.loc(s).unwrap()@.len(),
        forall|t: Slot| t != s ==> #[trigger] post.loc(t) == pre.loc(t),
    ensures
        post.wf(),
        forall|a: u32| #[trigger] vram_slot(&post, a) == vram_slot(&pre, a),
        forall|t: Slot| (#[trigger] post.loc(t) is Some) == (pre.loc(t) is Some),
{
    assert forall|t: Slot| (#[trigger] post.loc(t) is Some) == (pre.loc(t) is Some) by {
        if t != s {
            assert(post.loc(t) == pre.loc(t));
        }
    }
    assert forall|i: int| 0 <= i < 9 implies #[trigger] post.bank(i) is Some && post.bank(i).unwrap()@.len() == bank_size(i) by {
        assert(pre.bank(i) is Some);
        if post.mem_slot@[i] != s {
            assert(post.loc(post.mem_slot@[i]) == pre.loc(pre.mem_slot@[i]));
        }
    }
    assert forall|t: Slot| #[trigger] post.loc(t) is Some implies exists|k: int| 0 <= k < 9 && #[trigger] post.mem_slot@[k] == t by {
        assert(pre.loc(t) is Some);
        let k = choose|k: int| 0 <= k < 9 && #[trigger] pre.mem_slot@[k] == t;
        assert(post.mem_slot@[k] == t);
    }
    assert(post.engine_a_mem.bg_slot_01 is Some == pre.engine_a_mem.bg_slot_01 is Some) by {
        assert(post.loc(Slot::EngineA(EngineA::Bg01)) is Some == pre.loc(Slot::EngineA(EngineA::Bg01)) is Some);
    }
    assert(post.engine_a_mem.bg_slot_02 is Some == pre.engine_a_mem.bg_slot_02 is Some) by {
        assert(post.loc(Slot::EngineA(EngineA::Bg02)) is Some == pre.loc(Slot::EngineA(EngineA::Bg02)) is Some);
    }
    assert(post.engine_a_mem.bg_slot_03 is Some == pre.engine_a_mem.bg_slot_03 is Some) by {
        assert(post.loc(Slot::EngineA(EngineA::Bg03)) is Some == pre.loc(Slot::EngineA(EngineA::Bg03)) is Some);
    }
    assert(post.engine_a_mem.obj_slot_01 is Some == pre.engine_a_mem.obj_slot_01 is Some) by {
        assert(post.loc(Slot::EngineA(EngineA::Obj01)) is Some == pre.loc(Slot::EngineA(EngineA::Obj01)) is Some);
    }
    assert(post.engine_a_mem.obj_slot_02 is Some == pre.engine_a_mem.obj_slot_02 is Some) by {
        assert(post.loc(Slot::EngineA(EngineA::Obj02)) is Some == pre.loc(Slot::EngineA(EngineA::Obj02)) is Some);
    }
    assert(post.engine_a_mem.obj_slot_03 is Some == pre.engine_a_mem.obj_slot_03 is Some) by {
        assert(post.loc(Slot::EngineA(EngineA::Obj03)) is Some == pre.loc(Slot::EngineA(EngineA::Obj03)) is Some);
    }
    assert(post.engine_b_mem.bg_slot_01 is Some == pre.engine_b_mem.bg_slot_01 is Some) by {
        assert(post.loc(Slot::EngineB(EngineB::Bg01)) is Some == pre.loc(Slot::EngineB(EngineB::Bg01)) is Some);
    }
}

impl DSVideoMemory {
    /// Reads the palette: engine A's below 0x400, engine B's above.
    pub fn read_byte_palette(&self, addr: u32) -> (r: u8)
        requires
            self.wf(),
            
        ensures
            r == (if addr < 0x400 { self.engine_a_palette@[(addr) as int] } else { self.engine_b_palette@[(addr % 0x400) as int] }),
    {
        if addr < 0x400 {
            self.engine_a_palette.read_byte(addr)
        } else {
            self.engine_b_palette.read_byte(addr % 0x400)
        }
    }

    /// Writes the palette: engine A's below 0x400, engine B's above.
    pub fn write_byte_palette(&mut self, addr: u32, data: u8)
        requires
            old(self).wf(),
            
        ensures
            final(self).wf(),
            addr < 0x400 ==> final(self).engine_a_palette@ == old(self).engine_a_palette@.update((addr) as int, data) && final(self).engine_b_palette == old(self).engine_b_palette,
            addr >= 0x400 ==> final(self).engine_b_palette@ == old(self).engine_b_palette@.update((addr % 0x400) as int, data) && final(self).engine_a_palette == old(self).engine_a_palette,
            *final(self) == (DSVideoMemory { engine_a_palette: final(self).engine_a_palette, engine_b_palette: final(self).engine_b_palette, ..*old(self) }),
    {
        let ghost pre = *self;
        if addr < 0x400 {
            self.engine_a_palette.write_byte(addr, data);
        } else {
            self.engine_b_palette.write_byte(addr % 0x400, data);
        }
        proof {
            assert forall|t: Slot| #[trigger] self.loc(t) == pre.loc(t) by {}
            assert forall|i: int| 0 <= i < 9 implies #[trigger] self.bank(i) == pre.bank(i) by {}
        }
    }

    /// Reads the palette: engine A's below 0x400, engine B's above.
    pub fn read_halfword_palette(&self, addr: u32) -> (r: u16)
        requires
            self.wf(),
            addr % 2 == 0,
        ensures
            r == (if addr < 0x400 { spec_le16(self.engine_a_palette@, (addr) as int) } else { spec_le16(self.engine_b_palette@, (addr % 0x400) as int) }),
    {
        if addr < 0x400 {
            self.engine_a_palette.read_halfword(addr)
        } else {
            self.engine_b_palette.read_halfword(addr % 0x400)
        }
    }

    /// Writes the palette: engine A's below 0x400, engine B's above.
    pub fn write_halfword_palette(&mut self, addr: u32, data: u16)
        requires
            old(self).wf(),
            addr % 2 == 0,
        ensures
            final(self).wf(),
            addr < 0x400 ==> final(self).engine_a_palette@ == spec_write_le16(old(self).engine_a_palette@, (addr) as int, data) && final(self).engine_b_palette == old(self).engine_b_palette,
            addr >= 0x400 ==> final(self).engine_b_palette@ == spec_write_le16(old(self).engine_b_palette@, (addr % 0x400) as int, data) && final(self).engine_a_palette == old(self).engine_a_palette,
            *final(self) == (DSVideoMemory { engine_a_palette: final(self).engine_a_palette, engine_b_palette: final(self).engine_b_palette, ..*old(self) }),
    {
        let ghost pre = *self;
        if addr < 0x400 {
            self.engine_a_palette.write_halfword(addr, data);
        } else {
            self.engine_b_palette.write_halfword(addr % 0x400, data);
        }
        proof {
            assert forall|t: Slot| #[trigger] self.loc(t) == pre.loc(t) by {}
            assert forall|i: int| 0 <= i < 9 implies #[trigger] self.bank(i) == pre.bank(i) by {}
        }
    }

    /// Reads the palette: engine A's below 0x400, engine B's above.
    pub fn read_word_palette(&self, addr: u32) -> (r: u32)
        requires
            self.wf(),
            addr % 4 == 0,
        ensures
            r == (if addr < 0x400 { spec_le32(self.engine_a_palette@, (addr) as int) } else { spec_le32(self.engine_b_palette@, (addr % 0x400) as int) }),
    {
        if addr < 0x400 {
            self.engine_a_palette.read_word(addr)
        } else {
            self.engine_b_palette.read_word(addr % 0x400)
        }
    }

    /// Writes the palette: engine A's below 0x400, engine B's above.
    pub fn write_word_palette(&mut self, addr: u32, data: u32)
        requires
            old(self).wf(),
            addr % 4 == 0,
        ensures
            final(self).wf(),
            addr < 0x400 ==> final(self).engine_a_palette@ == spec_write_le32(old(self).engine_a_palette@, (addr) as int, data) && final(self).engine_b_palette == old(self).engine_b_palette,
            addr >= 0x400 ==> final(self).engine_b_palette@ == spec_write_le32(old(self).engine_b_palette@, (addr % 0x400) as int, data) && final(self).engine_a_palette == old(self).engine_a_palette,
            *final(self) == (DSVideoMemory { engine_a_palette: final(self).engine_a_palette, engine_b_palette: final(self).engine_b_palette, ..*old(self) }),
    {
        let ghost pre = *self;
        if addr < 0x400 {
            self.engine_a_palette.write_word(addr, data);
        } else {
            self.engine_b_palette.write_word(addr % 0x400, data);
        }
        proof {
            assert forall|t: Slot| #[trigger] self.loc(t) == pre.loc(t) by {}
            assert forall|i: int| 0 <= i < 9 implies #[trigger] self.bank(i) == pre.bank(i) by {}
        }
    }

    /// Reads the object attribute memory: engine A's below 0x400, engine B's above.
    pub fn read_byte_oam(&self, addr: u32) -> (r: u8)
        requires
            self.wf(),
            
        ensures
            r == (if addr < 0x400 { self.engine_a_oam@[(addr) as int] } else { self.engine_b_oam@[(addr % 0x400) as int] }),
    {
        if addr < 0x400 {
            self.engine_a_oam.read_byte(addr)
        } else {
            self.engine_b_oam.read_byte(addr % 0x400)
        }
    }

    /// Writes the object attribute memory: engine A's below 0x400, engine B's above.
    pub fn write_byte_oam(&mut self, addr: u32, data: u8)
        requires
            old(self).wf(),
            
        ensures
            final(self).wf(),
            addr < 0x400 ==> final(self).engine_a_oam@ == old(self).engine_a_oam@.update((addr) as int, data) && final(self).engine_b_oam == old(self).engine_b_oam,
            addr >= 0x400 ==> final(self).engine_b_oam@ == old(self).engine_b_oam@.update((addr % 0x400) as int, data) && final(self).engine_a_oam == old(self).engine_a_oam,
            *final(self) == (DSVideoMemory { engine_a_oam: final(self).engine_a_oam, engine_b_oam: final(self).engine_b_oam, ..*old(self) }),
    {
        let ghost pre = *self;
        if addr < 0x400 {
            self.engine_a_oam.write_byte(addr, data);
        } else {
            self.engine_b_oam.write_byte(addr % 0x400, data);
        }
        proof {
            assert forall|t: Slot| #[trigger] self.loc(t) == pre.loc(t) by {}
            assert forall|i: int| 0 <= i < 9 implies #[trigger] self.bank(i) == pre.bank(i) by {}
        }
    }

    /// Reads the object attribute memory: engine A's below 0x400, engine B's above.
    pub fn read_halfword_oam(&self, addr: u32) -> (r: u16)
        requires
            self.wf(),
            addr % 2 == 0,
        ensures
            r == (if addr < 0x400 { spec_le16(self.engine_a_oam@, (addr) as int) } else { spec_le16(self.engine_b_oam@, (addr % 0x400) as int) }),
    {
        if addr < 0x400 {
            self.engine_a_oam.read_halfword(addr)
        } else {
            self.engine_b_oam.read_halfword(addr % 0x400)
        }
    }

    /// Writes the object attribute memory: engine A's below 0x400, engine B's above.
    pub fn write_halfword_oam(&mut self, addr: u32, data: u16)
        requires
            old(self).wf(),
            addr % 2 == 0,
        ensures
            final(self).wf(),
            addr < 0x400 ==> final(self).engine_a_oam@ == spec_write_le16(old(self).engine_a_oam@, (addr) as int, data) && final(self).engine_b_oam == old(self).engine_b_oam,
            addr >= 0x400 ==> final(self).engine_b_oam@ == spec_write_le16(old(self).engine_b_oam@, (addr % 0x400) as int, data) && final(self).engine_a_oam == old(self).engine_a_oam,
            *final(self) == (DSVideoMemory { engine_a_oam: final(self).engine_a_oam, engine_b_oam: final(self).engine_b_oam, ..*old(self) }),
    {
        let ghost pre = *self;
        if addr < 0x400 {
            self.engine_a_oam.write_halfword(addr, data);
        } else {
            self.engine_b_oam.write_halfword(addr % 0x400, data);
        }
        proof {
            assert forall|t: Slot| #[trigger] self.loc(t) == pre.loc(t) by {}
            assert forall|i: int| 0 <= i < 9 implies #[trigger] self.bank(i) == pre.bank(i) by {}
        }
    }

    /// Reads the object attribute memory: engine A's below 0x400, engine B's above.
    pub fn read_word_oam(&self, addr: u32) -> (r: u32)
        requires
            self.wf(),
            addr % 4 == 0,
        ensures
            r == (if addr < 0x400 { spec_le32(self.engine_a_oam@, (addr) as int) } else { spec_le32(self.engine_b_oam@, (addr % 0x400) as int) }),
    {
        if addr < 0x400 {
            self.engine_a_oam.read_word(addr)
        } else {
            self.engine_b_oam.read_word(addr % 0x400)
        }
    }

    /// Writes the object attribute memory: engine A's below 0x400, engine B's above.
    pub fn write_word_oam(&mut self, addr: u32, data: u32)
        requires
            old(self).wf(),
            addr % 4 == 0,
        ensures
            final(self).wf(),
            addr < 0x400 ==> final(self).engine_a_oam@ == spec_write_le32(old(self).engine_a_oam@, (addr) as int, data) && final(self).engine_b_oam == old(self).engine_b_oam,
            addr >= 0x400 ==> final(self).engine_b_oam@ == spec_write_le32(old(self).engine_b_oam@, (addr % 0x400) as int, data) && final(self).engine_a_oam == old(self).engine_a_oam,
            *final(self) == (DSVideoMemory { engine_a_oam: final(self).engine_a_oam, engine_b_oam: final(self).engine_b_oam, ..*old(self) }),
    {
        let ghost pre = *self;
        if addr < 0x400 {
            self.engine_a_oam.write_word(addr, data);
        } else {
            self.engine_b_oam.write_word(addr % 0x400, data);
        }
        proof {
            assert forall|t: Slot| #[trigger] self.loc(t) == pre.loc(t) by {}
            assert forall|i: int| 0 <= i < 9 implies #[trigger] self.bank(i) == pre.bank(i) by {}
        }
    }

    /// The graphics power control.
    pub fn read_power_cnt(&self) -> (r: u16)
        ensures
            r == self.power_cnt,
    {
        self.power_cnt
    }

    pub fn write_power_cnt(&mut self, data: u16)
        ensures
            *final(self) == (DSVideoMemory { power_cnt: data, ..*old(self) }),
    {
        self.power_cnt = data;
    }
}


impl DSVideoMemory {
    /// The slot serving an ARM7 VRAM address, and the address within it:
    /// bank C's from 0x0600_0000, bank D's from 0x0602_0000.
    pub open spec fn arm7_slot(addr: u32) -> (Slot, u32) {
        if addr <= 0x0601_FFFF {
            (Slot::ARM7(ARM7::Lo), (addr - 0x0600_0000) as u32)
        } else {
            (Slot::ARM7(ARM7::Hi), (addr - 0x0602_0000) as u32)
        }
    }

    /// The bank serving an ARM7 VRAM address and the byte within it, where
    /// one is mapped there; the address wraps at the bank's size.
    pub open spec fn arm7_vram_at(&self, addr: u32) -> Option<(Slot, Seq<u8>, int)> {
        let (s, x) = Self::arm7_slot(addr);
        match self.loc(s) {
            Some(m) => Some((s, m@, x as int % m@.len() as int)),
            None => None,
        }
    }

    /// Which of banks C and D are mapped to the ARM7.
    pub fn arm7_status(&self) -> (r: u8)
        ensures
            r == (if self.arm7_mem.c is Some { VRAM_STATUS_C } else { 0u8 }) + (if self.arm7_mem.d is Some {
                VRAM_STATUS_D
            } else {
                0u8
            }),
    {
        let c = if self.arm7_mem.c.is_some() { VRAM_STATUS_C } else { 0 };
        let d = if self.arm7_mem.d.is_some() { VRAM_STATUS_D } else { 0 };
        c + d
    }

    fn find_arm7_slot(addr: u32) -> (r: (Slot, u32))
        requires
            0x0600_0000 <= addr <= 0x0603_FFFF,
        ensures
            r == Self::arm7_slot(addr),
            r.1 < 0x2_0000,
            r.1 % 4 == addr % 4,
    {
        if addr <= 0x0601_FFFF {
            (Slot::ARM7(ARM7::Lo), addr - 0x0600_0000)
        } else {
            (Slot::ARM7(ARM7::Hi), addr - 0x0602_0000)
        }
    }

    /// Reads a byte of ARM7 VRAM; 0 where no bank is mapped.
    pub fn read_byte_arm7(&self, addr: u32) -> (r: u8)
        requires
            self.wf(),
            0x0600_0000 <= addr <= 0x0603_FFFF,
        ensures
            r == match self.arm7_vram_at(addr) {
                Some((_, m, l)) => m[l],
                None => 0,
            },
    {
        let (s, x) = Self::find_arm7_slot(addr);
        match self.loc_ref(s) {
            Some(ram) => {
                proof {
                    self.lemma_loc_size(s);
                    lemma_room(x, ram@.len() as int, 1);
                }
                ram.read_byte(x % (ram.len() as u32))
            },
            None => 0,
        }
    }

    /// Reads a half-word of ARM7 VRAM; 0 where no bank is mapped.
    pub fn read_halfword_arm7(&self, addr: u32) -> (r: u16)
        requires
            self.wf(),
            0x0600_0000 <= addr <= 0x0603_FFFF,
            addr % 2 == 0,
        ensures
            r == match self.arm7_vram_at(addr) {
                Some((_, m, l)) => spec_le16(m, l),
                None => 0,
            },
    {
        let (s, x) = Self::find_arm7_slot(addr);
        match self.loc_ref(s) {
            Some(ram) => {
                proof {
                    self.lemma_loc_size(s);
                    lemma_room(x, ram@.len() as int, 2);
                }
                ram.read_halfword(x % (ram.len() as u32))
            },
            None => 0,
        }
    }

    /// Reads a word of ARM7 VRAM; 0 where no bank is mapped.
    pub fn read_word_arm7(&self, addr: u32) -> (r: u32)
        requires
            self.wf(),
            0x0600_0000 <= addr <= 0x0603_FFFF,
            addr % 4 == 0,
        ensures
            r == match self.arm7_vram_at(addr) {
                Some((_, m, l)) => spec_le32(m, l),
                None => 0,
            },
    {
        let (s, x) = Self::find_arm7_slot(addr);
        match self.loc_ref(s) {
            Some(ram) => {
                proof {
                    self.lemma_loc_size(s);
                    lemma_room(x, ram@.len() as int, 4);
                }
                ram.read_word(x % (ram.len() as u32))
            },
            None => 0,
        }
    }

    /// Writes a byte of ARM7 VRAM; nothing where no bank is mapped. Only the
    /// bank serving the address changes, and a read of the address then
    /// gives what was written.
    pub fn write_byte_arm7(&mut self, addr: u32, data: u8)
        requires
            old(self).wf(),
            0x0600_0000 <= addr <= 0x0603_FFFF,
        ensures
            final(self).wf(),
            dirty_flags(*final(self)) == dirty_flags(*old(self)),
            match old(self).arm7_vram_at(addr) {
                Some((s, m, l)) => {
                    &&& final(self).loc(s) matches Some(w) && w@ == m.update(l, data)
                    &&& forall|t: Slot| t != s ==> #[trigger] final(self).loc(t) == old(self).loc(t)
                    &&& final(self).same_but_slots(old(self))
                },
                None => *final(self) == *old(self),
            },
            old(self).arm7_vram_at(addr) is Some ==> (final(self).arm7_vram_at(addr) matches Some((_, m, l)) && m[l] == data),
    {
        let (s, x) = Self::find_arm7_slot(addr);
        if self.loc_ref(s).is_none() {
            return;
        }
        let ghost pre = *self;
        proof {
            lemma_window_slot_clean(self, addr, dirty_flags(*self));
        }
        proof {
            self.lemma_loc_size(s);
        }
        let taken = self.swap_mem(s, None);
        match taken {
            Some(mut ram) => {
                proof {
                    lemma_room(x, ram@.len() as int, 1);
                }
                let l = x % (ram.len() as u32);
                ram.write_byte(l, data);
                let _ = self.swap_mem(s, Some(ram));
                proof {
                    lemma_write_keeps(pre, *self, s);
                }
            },
            None => {},
        }
    }

    /// Writes a half-word of ARM7 VRAM; nothing where no bank is mapped. Only the
    /// bank serving the address changes, and a read of the address then
    /// gives what was written.
    pub fn write_halfword_arm7(&mut self, addr: u32, data: u16)
        requires
            old(self).wf(),
            0x0600_0000 <= addr <= 0x0603_FFFF,
            addr % 2 == 0,
        ensures
            final(self).wf(),
            dirty_flags(*final(self)) == dirty_flags(*old(self)),
            match old(self).arm7_vram_at(addr) {
                Some((s, m, l)) => {
                    &&& final(self).loc(s) matches Some(w) && w@ == spec_write_le16(m, l, data)
                    &&& forall|t: Slot| t != s ==> #[trigger] final(self).loc(t) == old(self).loc(t)
                    &&& final(self).same_but_slots(old(self))
                },
                None => *final(self) == *old(self),
            },
            old(self).arm7_vram_at(addr) is Some ==> (final(self).arm7_vram_at(addr) matches Some((_, m, l)) && spec_le16(m, l) == data),
    {
        let (s, x) = Self::find_arm7_slot(addr);
        if self.loc_ref(s).is_none() {
            return;
        }
        let ghost pre = *self;
        proof {
            lemma_window_slot_clean(self, addr, dirty_flags(*self));
        }
        proof {
            self.lemma_loc_size(s);
        }
        let taken = self.swap_mem(s, None);
        match taken {
            Some(mut ram) => {
                proof {
                    lemma_room(x, ram@.len() as int, 2);
                }
                let l = x % (ram.len() as u32);
                ram.write_halfword(l, data);
                let _ = self.swap_mem(s, Some(ram));
                proof {
                    lemma_write_keeps(pre, *self, s);
                    crate::ram::lemma_halfword_write_read(pre.loc(s).unwrap()@, l as int, data);
                }
            },
            None => {},
        }
    }

    /// Writes a word of ARM7 VRAM; nothing where no bank is mapped. Only the
    /// bank serving the address changes, and a read of the address then
    /// gives what was written.
    pub fn write_word_arm7(&mut self, addr: u32, data: u32)
        requires
            old(self).wf(),
            0x0600_0000 <= addr <= 0x0603_FFFF,
            addr % 4 == 0,
        ensures
            final(self).wf(),
            dirty_flags(*final(self)) == dirty_flags(*old(self)),
            match old(self).arm7_vram_at(addr) {
                Some((s, m, l)) => {
                    &&& final(self).loc(s) matches Some(w) && w@ == spec_write_le32(m, l, data)
                    &&& forall|t: Slot| t != s ==> #[trigger] final(self).loc(t) == old(self).loc(t)
                    &&& final(self).same_but_slots(old(self))
                },
                None => *final(self) == *old(self),
            },
            old(self).arm7_vram_at(addr) is Some ==> (final(self).arm7_vram_at(addr) matches Some((_, m, l)) && spec_le32(m, l) == data),
    {
        let (s, x) = Self::find_arm7_slot(addr);
        if self.loc_ref(s).is_none() {
            return;
        }
        let ghost pre = *self;
        proof {
            lemma_window_slot_clean(self, addr, dirty_flags(*self));
        }
        proof {
            self.lemma_loc_size(s);
        }
        let taken = self.swap_mem(s, None);
        match taken {
            Some(mut ram) => {
                proof {
                    lemma_room(x, ram@.len() as int, 4);
                }
                let l = x % (ram.len() as u32);
                ram.write_word(l, data);
                let _ = self.swap_mem(s, Some(ram));
                proof {
                    lemma_write_keeps(pre, *self, s);
                    crate::ram::lemma_word_write_read(pre.loc(s).unwrap()@, l as int, data);
                }
            },
            None => {},
        }
    }
}

} // verus!
