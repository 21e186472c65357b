//! The ARM9's memory map: which part of the system an address reaches, how
//! many cycles an access takes, and the ARM9's accesses to main RAM, shared
//! WRAM, the VRAM bank controls, palette, VRAM and object memory. I/O
//! registers, engine B's registers, the card data port and the BIOS are
//! served by their owners.
use vstd::prelude::*;
use crate::ram::{spec_le16, spec_le32, spec_write_le16, spec_write_le32};
use crate::memory::DSMemory;
use crate::shared::{SharedWRAM, Bank};
use crate::video::memory::VRAMRegion;
use crate::video::memory::control::{Slot, VRAMControl};
use crate::video::memory::mapping::{DSVideoMemory, VRAM_CNT_ALL, region_of, dirty_flags, mark_dirty};

verus! {

/// What an ARM9 bus address reaches.
#[derive(Debug, Clone, Copy, PartialEq, Eq, Structural)]
pub enum Region9 {
    MainRam,
    SharedWram,
    /// The VRAM bank and WRAM control bytes.
    MemControl,
    /// Engine B's display registers.
    EngineB,
    /// The card's data port (word reads).
    CardData,
    /// Other I/O registers.
    Io,
    Palette,
    Vram,
    Oam,
    /// The BIOS (reads).
    Bios,
    Unused,
}

/// The part of the system an access reaches; `load` for a read, `word` for
/// a 32-bit access.
pub open spec fn region9(addr: u32, load: bool, word: bool) -> Region9 {
    if 0x0200_0000 <= addr <= 0x02FF_FFFF {
        Region9::MainRam
    } else if 0x0300_0000 <= addr <= 0x03FF_FFFF {
        Region9::SharedWram
    } else if 0x0400_0240 <= addr <= 0x0400_024B {
        Region9::MemControl
    } else if 0x0400_1000 <= addr <= 0x0400_106F {
        Region9::EngineB
    } else if load && word && 0x0410_0010 <= addr <= 0x0410_0013 {
        Region9::CardData
    } else if 0x0400_0000 <= addr <= 0x04FF_FFFF {
        Region9::Io
    } else if 0x0500_0000 <= addr <= 0x05FF_FFFF {
        Region9::Palette
    } else if 0x0600_0000 <= addr <= 0x06FF_FFFF {
        Region9::Vram
    } else if 0x0700_0000 <= addr <= 0x07FF_FFFF {
        Region9::Oam
    } else if load && 0xFFFF_0000 <= addr {
        Region9::Bios
    } else {
        Region9::Unused
    }
}

pub fn route9(addr: u32, load: bool, word: bool) -> (r: Region9)
    ensures
        r == region9(addr, load, word),
{
    if 0x0200_0000 <= addr && addr <= 0x02FF_FFFF {
        Region9::MainRam
    } else if 0x0300_0000 <= addr && addr <= 0x03FF_FFFF {
        Region9::SharedWram
    } else if 0x0400_0240 <= addr && addr <= 0x0400_024B {
        Region9::MemControl
    } else if 0x0400_1000 <= addr && addr <= 0x0400_106F {
        Region9::EngineB
    } else if load && word && 0x0410_0010 <= addr && addr <= 0x0410_0013 {
        Region9::CardData
    } else if 0x0400_0000 <= addr && addr <= 0x04FF_FFFF {
        Region9::Io
    } else if 0x0500_0000 <= addr && addr <= 0x05FF_FFFF {
        Region9::Palette
    } else if 0x0600_0000 <= addr && addr <= 0x06FF_FFFF {
        Region9::Vram
    } else if 0x0700_0000 <= addr && addr <= 0x07FF_FFFF {
        Region9::Oam
    } else if load && 0xFFFF_0000 <= addr {
        Region9::Bios
    } else {
        Region9::Unused
    }
}

/// The address as the owner of a region takes it: engine B's registers by
/// their offset in its block, the BIOS by its offset in the 4K it
/// mirrors, everything else unchanged.
pub open spec fn spec_device_addr9(region: Region9, addr: u32) -> u32 {
    match region {
        Region9::EngineB => addr & 0xFF,
        Region9::Bios => addr & 0xFFF,
        _ => addr,
    }
}

pub fn device_addr9(region: Region9, addr: u32) -> (r: u32)
    ensures
        r == spec_device_addr9(region, addr),
{
    match region {
        Region9::EngineB => addr & 0xFF,
        Region9::Bios => addr & 0xFFF,
        _ => addr,
    }
}

/// Main RAM access times of the ARM9: non-sequential and sequential, for
/// bytes and half-words, and for words.
pub const DS9_MAIN_RAM_N: usize = 10;
pub const DS9_MAIN_RAM_S: usize = 2;
pub const DS9_MAIN_RAM_WORD_N: usize = 12;
pub const DS9_MAIN_RAM_WORD_S: usize = 4;

/// The cycles an ARM9 access of `size` bytes (1, 2 or 4) takes.
pub open spec fn cycles9(addr: u32, size: u32, load: bool, nonseq: bool) -> usize {
    let word = size == 4;
    let ns = |n: usize, s: usize| if nonseq { n } else { s };
    match region9(addr, load, word) {
        Region9::MainRam => if word { ns(DS9_MAIN_RAM_WORD_N, DS9_MAIN_RAM_WORD_S) } else { ns(DS9_MAIN_RAM_N, DS9_MAIN_RAM_S) },
        Region9::EngineB => if load && size != 1 { 2 } else { ns(8, 2) },
        Region9::CardData => 10,
        Region9::Palette | Region9::Vram => if word { ns(10, 4) } else { ns(8, 2) },
        Region9::Unused => if load && size == 1 { 2 } else { 1 },
        _ => ns(8, 2),
    }
}

pub fn access_cycles9(addr: u32, size: u32, load: bool, nonseq: bool) -> (r: usize)
    ensures
        r == cycles9(addr, size, load, nonseq),
{
    let word = size == 4;
    match route9(addr, load, word) {
        Region9::MainRam => if word {
            if nonseq { DS9_MAIN_RAM_WORD_N } else { DS9_MAIN_RAM_WORD_S }
        } else {
            if nonseq { DS9_MAIN_RAM_N } else { DS9_MAIN_RAM_S }
        },
        Region9::EngineB => if load && size != 1 {
            2
        } else {
            if nonseq { 8 } else { 2 }
        },
        Region9::CardData => 10,
        Region9::Palette | Region9::Vram => if word {
            if nonseq { 10 } else { 4 }
        } else {
            if nonseq { 8 } else { 2 }
        },
        Region9::Unused => if load && size == 1 { 2 } else { 1 },
        _ => if nonseq { 8 } else { 2 },
    }
}

/// The outcome of a bus access.
#[derive(Debug, Clone, Copy, PartialEq, Eq)]
pub enum BusAccess<T, R> {
    /// Served here, with this value.
    Done(T),
    /// To be served by the owner of this region.
    Device(R),
}


/// The VRAM bank whose control byte is at offset `o` of the control
/// registers (7 is the WRAM control).
pub open spec fn control_bank(o: int) -> int {
    if o <= 6 { o } else { o - 1 }
}

impl DSMemory {
    /// The control byte at offset `o`: the VRAM bank controls A to G, the
    /// WRAM control, then the controls of H and I.
    pub open spec fn mem_control_byte(&self, o: int) -> u8 {
        if o <= 6 || o == 8 || o == 9 {
            self.video_mem.mem_control@[control_bank(o)].bits
        } else if o == 7 {
            self.shared_wram.bank_control
        } else {
            0
        }
    }

    /// What an ARM9 byte read gives.
    pub open spec fn byte9(&self, addr: u32) -> BusAccess<u8, Region9> {
        match region9(addr, true, false) {
            Region9::MainRam => BusAccess::Done(self.main_ram@[(addr & 0x3F_FFFF) as int]),
            Region9::SharedWram => BusAccess::Done(match self.shared_wram.reach(true, addr) {
                Some(b) => self.shared_wram.bank(b)[(addr % 0x4000) as int],
                None => 0,
            }),
            Region9::MemControl => BusAccess::Done(self.mem_control_byte((addr & 0xF) as int)),
            Region9::Palette => BusAccess::Done(palette_byte(self.video_mem, addr & 0x7FF)),
            Region9::Vram => BusAccess::Done(match self.video_mem.vram_at(addr) {
                Some((_, m, l)) => m[l],
                None => 0,
            }),
            Region9::Oam => BusAccess::Done(oam_byte(self.video_mem, addr & 0x7FF)),
            Region9::Unused => BusAccess::Done(0),
            r => BusAccess::Device(r),
        }
    }
}

/// A byte of the palettes: engine A's below 0x400, engine B's above.
pub open spec fn palette_byte(v: DSVideoMemory, a: u32) -> u8 {
    if a < 0x400 { v.engine_a_palette@[a as int] } else { v.engine_b_palette@[(a % 0x400) as int] }
}

/// A byte of the object memories: engine A's below 0x400, engine B's above.
pub open spec fn oam_byte(v: DSVideoMemory, a: u32) -> u8 {
    if a < 0x400 { v.engine_a_oam@[a as int] } else { v.engine_b_oam@[(a % 0x400) as int] }
}


/// The palettes and object memories, read in half-words and words.
pub open spec fn palette_half(v: DSVideoMemory, a: u32) -> u16 {
    if a < 0x400 { spec_le16(v.engine_a_palette@, a as int) } else { spec_le16(v.engine_b_palette@, (a % 0x400) as int) }
}

pub open spec fn palette_word(v: DSVideoMemory, a: u32) -> u32 {
    if a < 0x400 { spec_le32(v.engine_a_palette@, a as int) } else { spec_le32(v.engine_b_palette@, (a % 0x400) as int) }
}

pub open spec fn oam_half(v: DSVideoMemory, a: u32) -> u16 {
    if a < 0x400 { spec_le16(v.engine_a_oam@, a as int) } else { spec_le16(v.engine_b_oam@, (a % 0x400) as int) }
}

pub open spec fn oam_word(v: DSVideoMemory, a: u32) -> u32 {
    if a < 0x400 { spec_le32(v.engine_a_oam@, a as int) } else { spec_le32(v.engine_b_oam@, (a % 0x400) as int) }
}

impl DSMemory {
    /// What an ARM9 half-word read gives.
    pub open spec fn half9(&self, addr: u32) -> BusAccess<u16, Region9> {
        match region9(addr, true, false) {
            Region9::MainRam => BusAccess::Done(spec_le16(self.main_ram@, (addr & 0x3F_FFFF) as int)),
            Region9::SharedWram => BusAccess::Done(match self.shared_wram.reach(true, addr) {
                Some(b) => spec_le16(self.shared_wram.bank(b), (addr % 0x4000) as int),
                None => 0,
            }),
            Region9::MemControl => BusAccess::Done(
                (self.mem_control_byte((addr & 0xF) as int) + self.mem_control_byte((addr & 0xF) + 1) * 0x100) as u16,
            ),
            Region9::Palette => BusAccess::Done(palette_half(self.video_mem, addr & 0x7FF)),
            Region9::Vram => BusAccess::Done(match self.video_mem.vram_at(addr) {
                Some((_, m, l)) => spec_le16(m, l),
                None => 0,
            }),
            Region9::Oam => BusAccess::Done(oam_half(self.video_mem, addr & 0x7FF)),
            Region9::Unused => BusAccess::Done(0),
            r => BusAccess::Device(r),
        }
    }

    /// What an ARM9 word read gives.
    pub open spec fn word9(&self, addr: u32) -> BusAccess<u32, Region9> {
        match region9(addr, true, true) {
            Region9::MainRam => BusAccess::Done(spec_le32(self.main_ram@, (addr & 0x3F_FFFF) as int)),
            Region9::SharedWram => BusAccess::Done(match self.shared_wram.reach(true, addr) {
                Some(b) => spec_le32(self.shared_wram.bank(b), (addr % 0x4000) as int),
                None => 0,
            }),
            Region9::MemControl => BusAccess::Done(
                (self.mem_control_byte((addr & 0xF) as int) + self.mem_control_byte((addr & 0xF) + 1) * 0x100
                    + self.mem_control_byte((addr & 0xF) + 2) * 0x1_0000 + self.mem_control_byte((addr & 0xF) + 3)
                    * 0x100_0000) as u32,
            ),
            Region9::Palette => BusAccess::Done(palette_word(self.video_mem, addr & 0x7FF)),
            Region9::Vram => BusAccess::Done(match self.video_mem.vram_at(addr) {
                Some((_, m, l)) => spec_le32(m, l),
                None => 0,
            }),
            Region9::Oam => BusAccess::Done(oam_word(self.video_mem, addr & 0x7FF)),
            Region9::Unused => BusAccess::Done(0),
            r => BusAccess::Device(r),
        }
    }

    /// Reads a control byte: the VRAM bank controls A to G, the WRAM
    /// control, then the controls of H and I; 0 past them.
    pub fn read_mem_control_byte(&self, o: u32) -> (r: u8)
        ensures
            r == self.mem_control_byte(o as int),
    {
        match o {
            0 => self.video_mem.get_cnt(VRAMRegion::A),
            1 => self.video_mem.get_cnt(VRAMRegion::B),
            2 => self.video_mem.get_cnt(VRAMRegion::C),
            3 => self.video_mem.get_cnt(VRAMRegion::D),
            4 => self.video_mem.get_cnt(VRAMRegion::E),
            5 => self.video_mem.get_cnt(VRAMRegion::F),
            6 => self.video_mem.get_cnt(VRAMRegion::G),
            7 => self.shared_wram.get_bank_control(),
            8 => self.video_mem.get_cnt(VRAMRegion::H),
            9 => self.video_mem.get_cnt(VRAMRegion::I),
            _ => 0,
        }
    }

    /// Reads two control bytes, little-endian.
    pub fn read_mem_control_halfword(&self, o: u32) -> (r: u16)
        requires
            o < 0x10,
        ensures
            r == (self.mem_control_byte(o as int) + self.mem_control_byte(o + 1) * 0x100) as u16,
    {
        let lo = self.read_mem_control_byte(o);
        let hi = self.read_mem_control_byte(o + 1);
        (lo as u16) + (hi as u16) * 0x100
    }

    /// Reads four control bytes, little-endian.
    pub fn read_mem_control_word(&self, o: u32) -> (r: u32)
        requires
            o < 0x10,
        ensures
            r == (self.mem_control_byte(o as int) + self.mem_control_byte(o + 1) * 0x100 + self.mem_control_byte(o + 2) * 0x1_0000 + self.mem_control_byte(o + 3) * 0x100_0000) as u32,
    {
        let b0 = self.read_mem_control_byte(o);
        let b1 = self.read_mem_control_byte(o + 1);
        let b2 = self.read_mem_control_byte(o + 2);
        let b3 = self.read_mem_control_byte(o + 3);
        (b0 as u32) + (b1 as u32) * 0x100 + (b2 as u32) * 0x1_0000 + (b3 as u32) * 0x100_0000
    }
}

/// Offsets inside the 0x0200_0000, 0x0300_0000, palette and object ranges.
proof fn lemma_offsets9(addr: u32)
    ensures
        addr & 0x3F_FFFF < 0x40_0000,
        addr % 2 == 0 ==> (addr & 0x3F_FFFF) + 2 <= 0x40_0000 && (addr & 0x7FF) % 2 == 0,
        addr % 4 == 0 ==> (addr & 0x3F_FFFF) + 4 <= 0x40_0000 && (addr & 0x7FF) % 4 == 0,
        addr % 2 == 0 ==> addr % 0x4000 + 2 <= 0x4000,
        addr % 4 == 0 ==> addr % 0x4000 + 4 <= 0x4000,
        addr & 0x7FF < 0x800,
        addr & 0xF < 0x10,
{
    assert((addr & 0x3F_FFFF < 0x40_0000) &&
        (addr % 2 == 0 ==> (addr & 0x3F_FFFF) + 2 <= 0x40_0000 && (addr & 0x7FF) % 2 == 0) &&
        (addr % 4 == 0 ==> (addr & 0x3F_FFFF) + 4 <= 0x40_0000 && (addr & 0x7FF) % 4 == 0) &&
        (addr & 0x7FF < 0x800) &&
        (addr & 0xF < 0x10)) by (bit_vector);
}

impl DSMemory {
    /// A byte read: its value where the memory is here, else the region to
    /// ask; and the cycles it takes.
    pub fn load_byte9(&self, nonseq: bool, addr: u32) -> (r: (BusAccess<u8, Region9>, usize))
        requires
            self.wf(),
        ensures
            r.0 == self.byte9(addr),
            r.1 == cycles9(addr, 1, true, nonseq),
    {
        proof {
            lemma_offsets9(addr);
        }
        let v = match route9(addr, true, false) {
            Region9::MainRam => BusAccess::Done(self.main_ram.read_byte(addr & 0x3F_FFFF)),
            Region9::SharedWram => BusAccess::Done(self.shared_wram.read_byte(true, addr)),
            Region9::MemControl => BusAccess::Done(self.read_mem_control_byte(addr & 0xF)),
            Region9::Palette => BusAccess::Done(self.video_mem.read_byte_palette(addr & 0x7FF)),
            Region9::Vram => BusAccess::Done(self.video_mem.read_byte_vram(addr)),
            Region9::Oam => BusAccess::Done(self.video_mem.read_byte_oam(addr & 0x7FF)),
            Region9::Unused => BusAccess::Done(0),
            r => BusAccess::Device(r),
        };
        (v, access_cycles9(addr, 1, true, nonseq))
    }

    /// A half-word read, as `load_byte9`.
    pub fn load_halfword9(&self, nonseq: bool, addr: u32) -> (r: (BusAccess<u16, Region9>, usize))
        requires
            self.wf(),
            addr % 2 == 0,
        ensures
            r.0 == self.half9(addr),
            r.1 == cycles9(addr, 2, true, nonseq),
    {
        proof {
            lemma_offsets9(addr);
        }
        let v = match route9(addr, true, false) {
            Region9::MainRam => BusAccess::Done(self.main_ram.read_halfword(addr & 0x3F_FFFF)),
            Region9::SharedWram => BusAccess::Done(self.shared_wram.read_halfword(true, addr)),
            Region9::MemControl => BusAccess::Done(self.read_mem_control_halfword(addr & 0xF)),
            Region9::Palette => BusAccess::Done(self.video_mem.read_halfword_palette(addr & 0x7FF)),
            Region9::Vram => BusAccess::Done(self.video_mem.read_halfword_vram(addr)),
            Region9::Oam => BusAccess::Done(self.video_mem.read_halfword_oam(addr & 0x7FF)),
            Region9::Unused => BusAccess::Done(0),
            r => BusAccess::Device(r),
        };
        (v, access_cycles9(addr, 2, true, nonseq))
    }

    /// A word read, as `load_byte9`.
    pub fn load_word9(&self, nonseq: bool, addr: u32) -> (r: (BusAccess<u32, Region9>, usize))
        requires
            self.wf(),
            addr % 4 == 0,
        ensures
            r.0 == self.word9(addr),
            r.1 == cycles9(addr, 4, true, nonseq),
    {
        proof {
            lemma_offsets9(addr);
        }
        let v = match route9(addr, true, true) {
            Region9::MainRam => BusAccess::Done(self.main_ram.read_word(addr & 0x3F_FFFF)),
            Region9::SharedWram => BusAccess::Done(self.shared_wram.read_word(true, addr)),
            Region9::MemControl => BusAccess::Done(self.read_mem_control_word(addr & 0xF)),
            Region9::Palette => BusAccess::Done(self.video_mem.read_word_palette(addr & 0x7FF)),
            Region9::Vram => BusAccess::Done(self.video_mem.read_word_vram(addr)),
            Region9::Oam => BusAccess::Done(self.video_mem.read_word_oam(addr & 0x7FF)),
            Region9::Unused => BusAccess::Done(0),
            r => BusAccess::Device(r),
        };
        (v, access_cycles9(addr, 4, true, nonseq))
    }
}


/// `post` is `pre` with the VRAM serving `addr` changed by `f` at the
/// address's offset; nothing changes where nothing is mapped.
pub open spec fn vram_changed(pre: DSVideoMemory, post: DSVideoMemory, addr: u32, f: spec_fn(Seq<u8>, int) -> Seq<u8>) -> bool {
    &&& post.wf()
    &&& dirty_flags(post) == dirty_flags(pre)
    &&& match pre.vram_at(addr) {
        Some((s, m, l)) => {
            &&& post.loc(s) matches Some(w) && w@ == f(m, l)
            &&& forall|t: Slot| t != s ==> #[trigger] post.loc(t) == pre.loc(t)
            &&& post.same_but_slots(&pre)
        },
        None => post == pre,
    }
}

/// `post` is `pre` with the palette byte at `a` onwards changed by `f`:
/// engine A's below 0x400, engine B's above.
pub open spec fn palette_changed(pre: DSVideoMemory, post: DSVideoMemory, a: u32, f: spec_fn(Seq<u8>, int) -> Seq<u8>) -> bool {
    &&& post.wf()
    &&& a < 0x400 ==> post.engine_a_palette@ == f(pre.engine_a_palette@, a as int) && post.engine_b_palette == pre.engine_b_palette
    &&& a >= 0x400 ==> post.engine_b_palette@ == f(pre.engine_b_palette@, (a % 0x400) as int) && post.engine_a_palette == pre.engine_a_palette
    &&& post == (DSVideoMemory { engine_a_palette: post.engine_a_palette, engine_b_palette: post.engine_b_palette, ..pre })
}

/// As `palette_changed`, for the object memories.
pub open spec fn oam_changed(pre: DSVideoMemory, post: DSVideoMemory, a: u32, f: spec_fn(Seq<u8>, int) -> Seq<u8>) -> bool {
    &&& post.wf()
    &&& a < 0x400 ==> post.engine_a_oam@ == f(pre.engine_a_oam@, a as int) && post.engine_b_oam == pre.engine_b_oam
    &&& a >= 0x400 ==> post.engine_b_oam@ == f(pre.engine_b_oam@, (a % 0x400) as int) && post.engine_a_oam == pre.engine_a_oam
    &&& post == (DSVideoMemory { engine_a_oam: post.engine_a_oam, engine_b_oam: post.engine_b_oam, ..pre })
}

/// `post` is `pre` with the bank that a processor (the ARM9 where `arm9`)
/// reaches at `addr` changed by `f` at the address's offset.
pub open spec fn wram_changed(pre: SharedWRAM, post: SharedWRAM, arm9: bool, addr: u32, f: spec_fn(Seq<u8>, int) -> Seq<u8>) -> bool {
    &&& post.wf()
    &&& post.bank_control == pre.bank_control
    &&& post.bank_status == pre.bank_status
    &&& match pre.reach(arm9, addr) {
        Some(b) => post.bank(b) == f(pre.bank(b), (addr % 0x4000) as int),
        None => true,
    }
    &&& forall|b: Bank| pre.reach(arm9, addr) != Some(b) ==> #[trigger] post.bank(b) == pre.bank(b)
}

/// `post` is `pre` after writing `data` to the control of VRAM bank `region`.
/// An unchanged value changes nothing; otherwise the bank moves to the place
/// the value selects, a bank that was there goes back to its own place, and
/// a palette mapped or unmapped is marked changed.
pub open spec fn cnt_set(pre: DSVideoMemory, post: DSVideoMemory, region: VRAMRegion, data: u8) -> bool {
    &&& post.wf()
    &&& forall|k: int| 0 <= k < 9 ==> #[trigger] post.bank(k) == pre.bank(k)
    &&& post.power_cnt == pre.power_cnt
    &&& post.engine_a_palette == pre.engine_a_palette
    &&& post.engine_a_oam == pre.engine_a_oam
    &&& post.engine_b_palette == pre.engine_b_palette
    &&& post.engine_b_oam == pre.engine_b_oam
    &&& ({
        let i = region.spec_index();
        if pre.mem_control@[i].bits == data {
            post == pre
        } else {
            let cnt = VRAMControl { bits: data & VRAM_CNT_ALL };
            let to = cnt.spec_get_slot(region);
            &&& dirty_flags(post) == mark_dirty(mark_dirty(dirty_flags(pre), pre.mem_slot@[i]), to)
            &&& post.mem_control@ == pre.mem_control@.update(i, cnt)
            &&& post.mem_slot@[i] == to
            &&& forall|k: int| 0 <= k < 9 && k != i ==> #[trigger] post.mem_slot@[k] == (if pre.mem_slot@[k] == to {
                Slot::LCDC(region_of(k))
            } else {
                pre.mem_slot@[k]
            })
        }
    })
}

/// `post` is `pre` after writing `data` to the control byte at offset `o`.
pub open spec fn control_written(pre: DSMemory, post: DSMemory, o: int, data: u8) -> bool {
    &&& post.wf()
    &&& post.main_ram == pre.main_ram
    &&& if o <= 6 || o == 8 || o == 9 {
        post.shared_wram == pre.shared_wram && cnt_set(pre.video_mem, post.video_mem, region_of(control_bank(o)), data)
    } else if o == 7 {
        &&& post.video_mem == pre.video_mem
        &&& post.shared_wram == (SharedWRAM { bank_control: data, bank_status: data, ..pre.shared_wram })
    } else {
        post == pre
    }
}

/// `post` is `pre` after an ARM9 store whose bytes `f` writes at the
/// address's offset, outside the control registers.
pub open spec fn stored9(pre: DSMemory, post: DSMemory, addr: u32, word: bool, f: spec_fn(Seq<u8>, int) -> Seq<u8>) -> bool {
    &&& post.wf()
    &&& match region9(addr, false, word) {
        Region9::MainRam => post.main_ram@ == f(pre.main_ram@, (addr & 0x3F_FFFF) as int)
            && post.shared_wram == pre.shared_wram && post.video_mem == pre.video_mem,
        Region9::SharedWram => wram_changed(pre.shared_wram, post.shared_wram, true, addr, f)
            && post.main_ram == pre.main_ram && post.video_mem == pre.video_mem,
        Region9::Palette => palette_changed(pre.video_mem, post.video_mem, addr & 0x7FF, f)
            && post.main_ram == pre.main_ram && post.shared_wram == pre.shared_wram,
        Region9::Vram => vram_changed(pre.video_mem, post.video_mem, addr, f)
            && post.main_ram == pre.main_ram && post.shared_wram == pre.shared_wram,
        Region9::Oam => oam_changed(pre.video_mem, post.video_mem, addr & 0x7FF, f)
            && post.main_ram == pre.main_ram && post.shared_wram == pre.shared_wram,
        Region9::MemControl => true,
        _ => post == pre,
    }
}

/// What an ARM9 store answers: the owner serves I/O and engine B's
/// registers; everything else is done here.
pub open spec fn store_answer9(addr: u32, word: bool) -> BusAccess<(), Region9> {
    match region9(addr, false, word) {
        Region9::Io => BusAccess::Device(Region9::Io),
        Region9::EngineB => BusAccess::Device(Region9::EngineB),
        _ => BusAccess::Done(()),
    }
}

impl DSMemory {
    /// Whether memory stands behind `addr` for the ARM9, so that what is
    /// written reads back: main RAM, palette and object memory always, the
    /// shared WRAM and VRAM where a bank is mapped.
    pub open spec fn backed9(&self, addr: u32) -> bool {
        match region9(addr, false, false) {
            Region9::MainRam | Region9::Palette | Region9::Oam => true,
            Region9::SharedWram => self.shared_wram.reach(true, addr) is Some,
            Region9::Vram => self.video_mem.vram_at(addr) is Some,
            _ => false,
        }
    }

    /// Writes a control byte.
    pub fn write_mem_control_byte(&mut self, o: u32, data: u8)
        requires
            old(self).wf(),
        ensures
            control_written(*old(self), *final(self), o as int, data),
    {
        match o {
            0 => self.video_mem.set_cnt(VRAMRegion::A, data),
            1 => self.video_mem.set_cnt(VRAMRegion::B, data),
            2 => self.video_mem.set_cnt(VRAMRegion::C, data),
            3 => self.video_mem.set_cnt(VRAMRegion::D, data),
            4 => self.video_mem.set_cnt(VRAMRegion::E, data),
            5 => self.video_mem.set_cnt(VRAMRegion::F, data),
            6 => self.video_mem.set_cnt(VRAMRegion::G, data),
            7 => self.shared_wram.set_bank_control(data),
            8 => self.video_mem.set_cnt(VRAMRegion::H, data),
            9 => self.video_mem.set_cnt(VRAMRegion::I, data),
            _ => {},
        }
    }

    /// Writes two control bytes, low byte first.
    pub fn write_mem_control_halfword(&mut self, o: u32, data: u16)
        requires
            old(self).wf(),
            o < 0x10,
        ensures
            exists|mid: DSMemory|
                #[trigger] control_written(*old(self), mid, o as int, (data % 0x100) as u8) && control_written(
                    mid,
                    *final(self),
                    o + 1,
                    (data / 0x100) as u8,
                ),
    {
        self.write_mem_control_byte(o, (data % 0x100) as u8);
        let ghost mid = *self;
        self.write_mem_control_byte(o + 1, (data / 0x100) as u8);
        assert(control_written(*old(self), mid, o as int, (data % 0x100) as u8));
    }

    /// Writes four control bytes, lowest first.
    pub fn write_mem_control_word(&mut self, o: u32, data: u32)
        requires
            old(self).wf(),
            o < 0x10,
        ensures
            exists|m1: DSMemory, m2: DSMemory, m3: DSMemory|
                #[trigger] control_written(*old(self), m1, o as int, (data % 0x100) as u8) && #[trigger] control_written(
                    m1,
                    m2,
                    o + 1,
                    ((data / 0x100) % 0x100) as u8,
                ) && #[trigger] control_written(m2, m3, o + 2, ((data / 0x1_0000) % 0x100) as u8) && control_written(
                    m3,
                    *final(self),
                    o + 3,
                    (data / 0x100_0000) as u8,
                ),
    {
        self.write_mem_control_byte(o, (data % 0x100) as u8);
        let ghost m1 = *self;
        self.write_mem_control_byte(o + 1, ((data / 0x100) % 0x100) as u8);
        let ghost m2 = *self;
        self.write_mem_control_byte(o + 2, ((data / 0x1_0000) % 0x100) as u8);
        let ghost m3 = *self;
        self.write_mem_control_byte(o + 3, (data / 0x100_0000) as u8);
        assert(control_written(*old(self), m1, o as int, (data % 0x100) as u8) && control_written(
            m1,
            m2,
            o + 1,
            ((data / 0x100) % 0x100) as u8,
        ) && control_written(m2, m3, o + 2, ((data / 0x1_0000) % 0x100) as u8));
    }
}


impl DSMemory {
    /// A byte store: into the memory here, or the region to
    /// hand it to; and the cycles it takes.
    pub fn store_byte9(&mut self, nonseq: bool, addr: u32, data: u8) -> (r: (BusAccess<(), Region9>, usize))
        requires
            old(self).wf(),
        ensures
            r.0 == store_answer9(addr, false),
            r.1 == cycles9(addr, 1, false, nonseq),
            stored9(*old(self), *final(self), addr, false, |m: Seq<u8>, l: int| m.update(l, data)),
            region9(addr, false, false) == Region9::MemControl ==> control_written(*old(self), *final(self), (addr & 0xF) as int, data),
            old(self).backed9(addr) ==> final(self).byte9(addr) == BusAccess::<u8, Region9>::Done(data),
    {
        proof {
            lemma_offsets9(addr);
        }
        let ghost pre = *self;
        let v = match route9(addr, false, false) {
            Region9::MainRam => {
                self.main_ram.write_byte(addr & 0x3F_FFFF, data);
                BusAccess::Done(())
            },
            Region9::SharedWram => {
                self.shared_wram.write_byte(true, addr, data);
                BusAccess::Done(())
            },
            Region9::MemControl => {
                self.write_mem_control_byte(addr & 0xF, data);
                BusAccess::Done(())
            },
            Region9::Palette => {
                self.video_mem.write_byte_palette(addr & 0x7FF, data);
                BusAccess::Done(())
            },
            Region9::Vram => {
                self.video_mem.write_byte_vram(addr, data);
                BusAccess::Done(())
            },
            Region9::Oam => {
                self.video_mem.write_byte_oam(addr & 0x7FF, data);
                BusAccess::Done(())
            },
            Region9::Io => BusAccess::Device(Region9::Io),
            Region9::EngineB => BusAccess::Device(Region9::EngineB),
            _ => BusAccess::Done(()),
        };
        (v, access_cycles9(addr, 1, false, nonseq))
    }
}


impl DSMemory {
    /// A half-word store, as `store_byte9`.
    pub fn store_halfword9(&mut self, nonseq: bool, addr: u32, data: u16) -> (r: (BusAccess<(), Region9>, usize))
        requires
            old(self).wf(),
            addr % 2 == 0,
        ensures
            r.0 == store_answer9(addr, false),
            r.1 == cycles9(addr, 2, false, nonseq),
            stored9(*old(self), *final(self), addr, false, |m: Seq<u8>, l: int| spec_write_le16(m, l, data)),
            region9(addr, false, false) == Region9::MemControl ==> (exists|mid: DSMemory|
                #[trigger] control_written(*old(self), mid, (addr & 0xF) as int, (data % 0x100) as u8) && control_written(
                    mid,
                    *final(self),
                    (addr & 0xF) + 1,
                    (data / 0x100) as u8,
                )),
            old(self).backed9(addr) ==> final(self).half9(addr) == BusAccess::<u16, Region9>::Done(data),
    {
        proof {
            lemma_offsets9(addr);
        }
        let ghost pre = *self;
        let v = match route9(addr, false, false) {
            Region9::MainRam => {
                self.main_ram.write_halfword(addr & 0x3F_FFFF, data);
                proof {
                    crate::ram::lemma_halfword_write_read(pre.main_ram@, (addr & 0x3F_FFFF) as int, data);
                }
                BusAccess::Done(())
            },
            Region9::SharedWram => {
                self.shared_wram.write_halfword(true, addr, data);
                proof {
                    if let Some(b) = pre.shared_wram.reach(true, addr) {
                        crate::ram::lemma_halfword_write_read(pre.shared_wram.bank(b), (addr % 0x4000) as int, data);
                    }
                }
                BusAccess::Done(())
            },
            Region9::MemControl => {
                self.write_mem_control_halfword(addr & 0xF, data);
                BusAccess::Done(())
            },
            Region9::Palette => {
                self.video_mem.write_halfword_palette(addr & 0x7FF, data);
                proof {
                    let a = addr & 0x7FF;
                    if a < 0x400 {
                        crate::ram::lemma_halfword_write_read(pre.video_mem.engine_a_palette@, a as int, data);
                    } else {
                        crate::ram::lemma_halfword_write_read(pre.video_mem.engine_b_palette@, (a % 0x400) as int, data);
                    }
                }
                BusAccess::Done(())
            },
            Region9::Vram => {
                self.video_mem.write_halfword_vram(addr, data);
                BusAccess::Done(())
            },
            Region9::Oam => {
                self.video_mem.write_halfword_oam(addr & 0x7FF, data);
                proof {
                    let a = addr & 0x7FF;
                    if a < 0x400 {
                        crate::ram::lemma_halfword_write_read(pre.video_mem.engine_a_oam@, a as int, data);
                    } else {
                        crate::ram::lemma_halfword_write_read(pre.video_mem.engine_b_oam@, (a % 0x400) as int, data);
                    }
                }
                BusAccess::Done(())
            },
            Region9::Io => BusAccess::Device(Region9::Io),
            Region9::EngineB => BusAccess::Device(Region9::EngineB),
            _ => BusAccess::Done(()),
        };
        (v, access_cycles9(addr, 2, false, nonseq))
    }
}


impl DSMemory {
    /// A word store, as `store_byte9`.
    pub fn store_word9(&mut self, nonseq: bool, addr: u32, data: u32) -> (r: (BusAccess<(), Region9>, usize))
        requires
            old(self).wf(),
            addr % 4 == 0,
        ensures
            r.0 == store_answer9(addr, true),
            r.1 == cycles9(addr, 4, false, nonseq),
            stored9(*old(self), *final(self), addr, true, |m: Seq<u8>, l: int| spec_write_le32(m, l, data)),
            region9(addr, false, true) == Region9::MemControl ==> (exists|m1: DSMemory, m2: DSMemory, m3: DSMemory|
                #[trigger] control_written(*old(self), m1, (addr & 0xF) as int, (data % 0x100) as u8)
                    && #[trigger] control_written(m1, m2, (addr & 0xF) + 1, ((data / 0x100) % 0x100) as u8)
                    && #[trigger] control_written(m2, m3, (addr & 0xF) + 2, ((data / 0x1_0000) % 0x100) as u8)
                    && control_written(m3, *final(self), (addr & 0xF) + 3, (data / 0x100_0000) as u8)),
            old(self).backed9(addr) ==> final(self).word9(addr) == BusAccess::<u32, Region9>::Done(data),
    {
        proof {
            lemma_offsets9(addr);
        }
        let ghost pre = *self;
        let v = match route9(addr, false, true) {
            Region9::MainRam => {
                self.main_ram.write_word(addr & 0x3F_FFFF, data);
                proof {
                    crate::ram::lemma_word_write_read(pre.main_ram@, (addr & 0x3F_FFFF) as int, data);
                }
                BusAccess::Done(())
            },
            Region9::SharedWram => {
                self.shared_wram.write_word(true, addr, data);
                proof {
                    if let Some(b) = pre.shared_wram.reach(true, addr) {
                        crate::ram::lemma_word_write_read(pre.shared_wram.bank(b), (addr % 0x4000) as int, data);
                    }
                }
                BusAccess::Done(())
            },
            Region9::MemControl => {
                self.write_mem_control_word(addr & 0xF, data);
                BusAccess::Done(())
            },
            Region9::Palette => {
                self.video_mem.write_word_palette(addr & 0x7FF, data);
                proof {
                    let a = addr & 0x7FF;
                    if a < 0x400 {
                        crate::ram::lemma_word_write_read(pre.video_mem.engine_a_palette@, a as int, data);
                    } else {
                        crate::ram::lemma_word_write_read(pre.video_mem.engine_b_palette@, (a % 0x400) as int, data);
                    }
                }
                BusAccess::Done(())
            },
            Region9::Vram => {
                self.video_mem.write_word_vram(addr, data);
                BusAccess::Done(())
            },
            Region9::Oam => {
                self.video_mem.write_word_oam(addr & 0x7FF, data);
                proof {
                    let a = addr & 0x7FF;
                    if a < 0x400 {
                        crate::ram::lemma_word_write_read(pre.video_mem.engine_a_oam@, a as int, data);
                    } else {
                        crate::ram::lemma_word_write_read(pre.video_mem.engine_b_oam@, (a % 0x400) as int, data);
                    }
                }
                BusAccess::Done(())
            },
            Region9::Io => BusAccess::Device(Region9::Io),
            Region9::EngineB => BusAccess::Device(Region9::EngineB),
            _ => BusAccess::Done(()),
        };
        (v, access_cycles9(addr, 4, false, nonseq))
    }
}

} // verus!
