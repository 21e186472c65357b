//! The ARM7's memory map: which part of the system an address reaches, how
//! many cycles an access takes, and the ARM7's accesses to main RAM, shared
//! WRAM, its own WRAM, the memory status bytes and VRAM banks C and D. The
//! BIOS, the I/O registers and the card data port are served by their
//! owners.
use vstd::prelude::*;
use crate::ram::{spec_le16, spec_le32, spec_write_le16, spec_write_le32};
use crate::memory::DSMemory;
use crate::bus9::{BusAccess, Region9, region9, stored9, wram_changed};
use crate::video::memory::control::Slot;
use crate::video::memory::mapping::{DSVideoMemory, dirty_flags};
use crate::video::memory::vram::{VRAM_STATUS_C, VRAM_STATUS_D};

verus! {

/// What an ARM7 bus address reaches.
#[derive(Debug, Clone, Copy, PartialEq, Eq, Structural)]
pub enum Region7 {
    /// The BIOS (reads).
    Bios,
    MainRam,
    SharedWram,
    /// The ARM7's own 64K of WRAM.
    Wram,
    /// Which VRAM banks are mapped to the ARM7 (byte reads).
    VramStatus,
    /// The shared WRAM split (byte reads).
    WramStatus,
    /// The card's data port (word reads).
    CardData,
    /// Other I/O registers.
    Io,
    Vram,
    Unused,
}

/// The part of the system an access reaches; `load` for a read, `size` in
/// bytes.
pub open spec fn region7(addr: u32, load: bool, size: u32) -> Region7 {
    if load && addr <= 0x0000_3FFF {
        Region7::Bios
    } else if 0x0200_0000 <= addr <= 0x02FF_FFFF {
        Region7::MainRam
    } else if 0x0300_0000 <= addr <= 0x037F_FFFF {
        Region7::SharedWram
    } else if 0x0380_0000 <= addr <= 0x03FF_FFFF {
        Region7::Wram
    } else if load && size == 1 && addr == 0x0400_0240 {
        Region7::VramStatus
    } else if load && size == 1 && addr == 0x0400_0241 {
        Region7::WramStatus
    } else if load && size == 4 && 0x0410_0010 <= addr <= 0x0410_0013 {
        Region7::CardData
    } else if 0x0400_0000 <= addr <= 0x04FF_FFFF {
        Region7::Io
    } else if 0x0600_0000 <= addr <= 0x06FF_FFFF {
        Region7::Vram
    } else {
        Region7::Unused
    }
}

pub fn route7(addr: u32, load: bool, size: u32) -> (r: Region7)
    ensures
        r == region7(addr, load, size),
{
    if load && addr <= 0x0000_3FFF {
        Region7::Bios
    } else if 0x0200_0000 <= addr && addr <= 0x02FF_FFFF {
        Region7::MainRam
    } else if 0x0300_0000 <= addr && addr <= 0x037F_FFFF {
        Region7::SharedWram
    } else if 0x0380_0000 <= addr && addr <= 0x03FF_FFFF {
        Region7::Wram
    } else if load && size == 1 && addr == 0x0400_0240 {
        Region7::VramStatus
    } else if load && size == 1 && addr == 0x0400_0241 {
        Region7::WramStatus
    } else if load && size == 4 && 0x0410_0010 <= addr && addr <= 0x0410_0013 {
        Region7::CardData
    } else if 0x0400_0000 <= addr && addr <= 0x04FF_FFFF {
        Region7::Io
    } else if 0x0600_0000 <= addr && addr <= 0x06FF_FFFF {
        Region7::Vram
    } else {
        Region7::Unused
    }
}

/// Main RAM access times of the ARM7: non-sequential and sequential, for
/// bytes and half-words, and for words.
pub const DS7_MAIN_RAM_N: usize = 5;
pub const DS7_MAIN_RAM_S: usize = 1;
pub const DS7_MAIN_RAM_WORD_N: usize = 6;
pub const DS7_MAIN_RAM_WORD_S: usize = 2;

/// The cycles an ARM7 access of `size` bytes (1, 2 or 4) takes.
pub open spec fn cycles7(addr: u32, size: u32, load: bool, nonseq: bool) -> usize {
    match region7(addr, load, size) {
        Region7::MainRam => if size == 4 {
            if nonseq { DS7_MAIN_RAM_WORD_N } else { DS7_MAIN_RAM_WORD_S }
        } else {
            if nonseq { DS7_MAIN_RAM_N } else { DS7_MAIN_RAM_S }
        },
        Region7::CardData => 5,
        Region7::Vram => if size == 4 { 2 } else { 1 },
        _ => 1,
    }
}

pub fn access_cycles7(addr: u32, size: u32, load: bool, nonseq: bool) -> (r: usize)
    ensures
        r == cycles7(addr, size, load, nonseq),
{
    match route7(addr, load, size) {
        Region7::MainRam => if size == 4 {
            if nonseq { DS7_MAIN_RAM_WORD_N } else { DS7_MAIN_RAM_WORD_S }
        } else {
            if nonseq { DS7_MAIN_RAM_N } else { DS7_MAIN_RAM_S }
        },
        Region7::CardData => 5,
        Region7::Vram => if size == 4 { 2 } else { 1 },
        _ => 1,
    }
}

/// The ARM7's VRAM ends at bank D: an access past 0x0603_FFFF is refused.
pub open spec fn access_ok7(addr: u32, load: bool, size: u32) -> bool {
    region7(addr, load, size) == Region7::Vram ==> addr <= 0x0603_FFFF
}

/// The status byte of the banks mapped to the ARM7.
pub open spec fn arm7_status_byte(v: DSVideoMemory) -> u8 {
    ((if v.arm7_mem.c is Some { VRAM_STATUS_C } else { 0u8 }) + (if v.arm7_mem.d is Some { VRAM_STATUS_D } else { 0u8 })) as u8
}

impl DSMemory {
    /// What an ARM7 byte read gives.
    pub open spec fn byte7(&self, addr: u32) -> BusAccess<u8, Region7> {
        match region7(addr, true, 1) {
            Region7::MainRam => BusAccess::Done(self.main_ram@[(addr & 0x3F_FFFF) as int]),
            Region7::SharedWram => BusAccess::Done(match self.shared_wram.reach(false, addr) {
                Some(b) => self.shared_wram.bank(b)[(addr % 0x4000) as int],
                None => 0,
            }),
            Region7::Wram => BusAccess::Done(self.arm7_wram@[(addr & 0xFFFF) as int]),
            Region7::VramStatus => BusAccess::Done(arm7_status_byte(self.video_mem)),
            Region7::WramStatus => BusAccess::Done(self.shared_wram.bank_status),
            Region7::Vram => BusAccess::Done(match self.video_mem.arm7_vram_at(addr) {
                Some((_, m, l)) => m[l],
                None => 0,
            }),
            Region7::Unused => BusAccess::Done(0),
            r => BusAccess::Device(r),
        }
    }
}


impl DSMemory {
    /// What an ARM7 half-word read gives.
    pub open spec fn half7(&self, addr: u32) -> BusAccess<u16, Region7> {
        match region7(addr, true, 2) {
            Region7::MainRam => BusAccess::Done(spec_le16(self.main_ram@, (addr & 0x3F_FFFF) as int)),
            Region7::SharedWram => BusAccess::Done(match self.shared_wram.reach(false, addr) {
                Some(b) => spec_le16(self.shared_wram.bank(b), (addr % 0x4000) as int),
                None => 0,
            }),
            Region7::Wram => BusAccess::Done(spec_le16(self.arm7_wram@, (addr & 0xFFFF) as int)),
            Region7::Vram => BusAccess::Done(match self.video_mem.arm7_vram_at(addr) {
                Some((_, m, l)) => spec_le16(m, l),
                None => 0,
            }),
            Region7::Unused => BusAccess::Done(0),
            r => BusAccess::Device(r),
        }
    }

    /// What an ARM7 word read gives.
    pub open spec fn word7(&self, addr: u32) -> BusAccess<u32, Region7> {
        match region7(addr, true, 4) {
            Region7::MainRam => BusAccess::Done(spec_le32(self.main_ram@, (addr & 0x3F_FFFF) as int)),
            Region7::SharedWram => BusAccess::Done(match self.shared_wram.reach(false, addr) {
                Some(b) => spec_le32(self.shared_wram.bank(b), (addr % 0x4000) as int),
                None => 0,
            }),
            Region7::Wram => BusAccess::Done(spec_le32(self.arm7_wram@, (addr & 0xFFFF) as int)),
            Region7::Vram => BusAccess::Done(match self.video_mem.arm7_vram_at(addr) {
                Some((_, m, l)) => spec_le32(m, l),
                None => 0,
            }),
            Region7::Unused => BusAccess::Done(0),
            r => BusAccess::Device(r),
        }
    }

    /// Whether memory stands behind `addr` for the ARM7, so that what is
    /// written reads back: main RAM and its own WRAM always, the shared WRAM
    /// and VRAM where a bank is mapped.
    pub open spec fn backed7(&self, addr: u32) -> bool {
        match region7(addr, false, 1) {
            Region7::MainRam | Region7::Wram => true,
            Region7::SharedWram => self.shared_wram.reach(false, addr) is Some,
            Region7::Vram => self.video_mem.arm7_vram_at(addr) is Some,
            _ => false,
        }
    }
}

/// `post` is `pre` with ARM7 VRAM at `addr` changed by `f`.
pub open spec fn arm7_vram_changed(pre: DSVideoMemory, post: DSVideoMemory, addr: u32, f: spec_fn(Seq<u8>, int) -> Seq<u8>) -> bool {
    &&& post.wf()
    &&& dirty_flags(post) == dirty_flags(pre)
    &&& match pre.arm7_vram_at(addr) {
        Some((s, m, l)) => {
            &&& post.loc(s) matches Some(w) && w@ == f(m, l)
            &&& forall|t: Slot| t != s ==> #[trigger] post.loc(t) == pre.loc(t)
            &&& post.same_but_slots(&pre)
        },
        None => post == pre,
    }
}

/// `post` is `pre` after an ARM7 store of `size` bytes that `f` writes at
/// the address's offset.
pub open spec fn stored7(pre: DSMemory, post: DSMemory, addr: u32, size: u32, f: spec_fn(Seq<u8>, int) -> Seq<u8>) -> bool {
    &&& post.wf()
    &&& match region7(addr, false, size) {
        Region7::MainRam => post == (DSMemory { main_ram: post.main_ram, ..pre })
            && post.main_ram@ == f(pre.main_ram@, (addr & 0x3F_FFFF) as int),
        Region7::SharedWram => post == (DSMemory { shared_wram: post.shared_wram, ..pre })
            && wram_changed(pre.shared_wram, post.shared_wram, false, addr, f),
        Region7::Wram => post == (DSMemory { arm7_wram: post.arm7_wram, ..pre })
            && post.arm7_wram@ == f(pre.arm7_wram@, (addr & 0xFFFF) as int),
        Region7::Vram => post == (DSMemory { video_mem: post.video_mem, ..pre })
            && arm7_vram_changed(pre.video_mem, post.video_mem, addr, f),
        _ => post == pre,
    }
}

/// What an ARM7 store answers: the owner serves the I/O registers;
/// everything else is done here.
pub open spec fn store_answer7(addr: u32, size: u32) -> BusAccess<(), Region7> {
    match region7(addr, false, size) {
        Region7::Io => BusAccess::Device(Region7::Io),
        _ => BusAccess::Done(()),
    }
}

/// Offsets inside main RAM, the shared and the ARM7's WRAM.
proof fn lemma_offsets7(addr: u32)
    ensures
        addr & 0x3F_FFFF < 0x40_0000,
        addr & 0xFFFF < 0x1_0000,
        addr % 2 == 0 ==> (addr & 0x3F_FFFF) + 2 <= 0x40_0000 && (addr & 0xFFFF) + 2 <= 0x1_0000,
        addr % 4 == 0 ==> (addr & 0x3F_FFFF) + 4 <= 0x40_0000 && (addr & 0xFFFF) + 4 <= 0x1_0000,
        addr % 2 == 0 ==> addr % 0x4000 + 2 <= 0x4000,
        addr % 4 == 0 ==> addr % 0x4000 + 4 <= 0x4000,
{
    assert((addr & 0x3F_FFFF < 0x40_0000) &&
        (addr & 0xFFFF < 0x1_0000) &&
        (addr % 2 == 0 ==> (addr & 0x3F_FFFF) + 2 <= 0x40_0000 && (addr & 0xFFFF) + 2 <= 0x1_0000) &&
        (addr % 4 == 0 ==> (addr & 0x3F_FFFF) + 4 <= 0x40_0000 && (addr & 0xFFFF) + 4 <= 0x1_0000)) by (bit_vector);
}

impl DSMemory {
    /// An ARM7 byte read: its value where the memory is here, else the
    /// region to ask; and the cycles it takes.
    pub fn load_byte7(&self, nonseq: bool, addr: u32) -> (r: (BusAccess<u8, Region7>, usize))
        requires
            self.wf(),
            access_ok7(addr, true, 1),
        ensures
            r.0 == self.byte7(addr),
            r.1 == cycles7(addr, 1, true, nonseq),
    {
        proof {
            lemma_offsets7(addr);
        }
        let v = match route7(addr, true, 1) {
            Region7::MainRam => BusAccess::Done(self.main_ram.read_byte(addr & 0x3F_FFFF)),
            Region7::SharedWram => BusAccess::Done(self.shared_wram.read_byte(false, addr)),
            Region7::Wram => BusAccess::Done(self.arm7_wram.read_byte(addr & 0xFFFF)),
            Region7::VramStatus => BusAccess::Done(self.video_mem.arm7_status()),
            Region7::WramStatus => BusAccess::Done(self.shared_wram.get_bank_status()),
            Region7::Vram => BusAccess::Done(self.video_mem.read_byte_arm7(addr)),
            Region7::Unused => BusAccess::Done(0),
            r => BusAccess::Device(r),
        };
        (v, access_cycles7(addr, 1, true, nonseq))
    }

    /// An ARM7 half-word read, as `load_byte7`.
    pub fn load_halfword7(&self, nonseq: bool, addr: u32) -> (r: (BusAccess<u16, Region7>, usize))
        requires
            self.wf(),
            access_ok7(addr, true, 2),
            addr % 2 == 0,
        ensures
            r.0 == self.half7(addr),
            r.1 == cycles7(addr, 2, true, nonseq),
    {
        proof {
            lemma_offsets7(addr);
        }
        let v = match route7(addr, true, 2) {
            Region7::MainRam => BusAccess::Done(self.main_ram.read_halfword(addr & 0x3F_FFFF)),
            Region7::SharedWram => BusAccess::Done(self.shared_wram.read_halfword(false, addr)),
            Region7::Wram => BusAccess::Done(self.arm7_wram.read_halfword(addr & 0xFFFF)),
            Region7::Vram => BusAccess::Done(self.video_mem.read_halfword_arm7(addr)),
            Region7::Unused => BusAccess::Done(0),
            r => BusAccess::Device(r),
        };
        (v, access_cycles7(addr, 2, true, nonseq))
    }

    /// An ARM7 word read, as `load_byte7`.
    pub fn load_word7(&self, nonseq: bool, addr: u32) -> (r: (BusAccess<u32, Region7>, usize))
        requires
            self.wf(),
            access_ok7(addr, true, 4),
            addr % 4 == 0,
        ensures
            r.0 == self.word7(addr),
            r.1 == cycles7(addr, 4, true, nonseq),
    {
        proof {
            lemma_offsets7(addr);
        }
        let v = match route7(addr, true, 4) {
            Region7::MainRam => BusAccess::Done(self.main_ram.read_word(addr & 0x3F_FFFF)),
            Region7::SharedWram => BusAccess::Done(self.shared_wram.read_word(false, addr)),
            Region7::Wram => BusAccess::Done(self.arm7_wram.read_word(addr & 0xFFFF)),
            Region7::Vram => BusAccess::Done(self.video_mem.read_word_arm7(addr)),
            Region7::Unused => BusAccess::Done(0),
            r => BusAccess::Device(r),
        };
        (v, access_cycles7(addr, 4, true, nonseq))
    }
}

impl DSMemory {
    /// An ARM7 byte store: into the memory here, or the region to hand it
    /// to; and the cycles it takes.
    pub fn store_byte7(&mut self, nonseq: bool, addr: u32, data: u8) -> (r: (BusAccess<(), Region7>, usize))
        requires
            old(self).wf(),
            access_ok7(addr, false, 1),
        ensures
            r.0 == store_answer7(addr, 1),
            r.1 == cycles7(addr, 1, false, nonseq),
            stored7(*old(self), *final(self), addr, 1, |m: Seq<u8>, l: int| m.update(l, data)),
            old(self).backed7(addr) ==> final(self).byte7(addr) == BusAccess::<u8, Region7>::Done(data),
    {
        proof {
            lemma_offsets7(addr);
        }
        let ghost pre = *self;
        let v = match route7(addr, false, 1) {
            Region7::MainRam => {
                self.main_ram.write_byte(addr & 0x3F_FFFF, data);
                BusAccess::Done(())
            },
            Region7::SharedWram => {
                self.shared_wram.write_byte(false, addr, data);
                BusAccess::Done(())
            },
            Region7::Wram => {
                self.arm7_wram.write_byte(addr & 0xFFFF, data);
                BusAccess::Done(())
            },
            Region7::Vram => {
                self.video_mem.write_byte_arm7(addr, data);
                BusAccess::Done(())
            },
            Region7::Io => BusAccess::Device(Region7::Io),
            _ => BusAccess::Done(()),
        };
        (v, access_cycles7(addr, 1, false, nonseq))
    }
}

impl DSMemory {
    /// An ARM7 half-word store, as `store_byte7`.
    pub fn store_halfword7(&mut self, nonseq: bool, addr: u32, data: u16) -> (r: (BusAccess<(), Region7>, usize))
        requires
            old(self).wf(),
            access_ok7(addr, false, 2),
            addr % 2 == 0,
        ensures
            r.0 == store_answer7(addr, 2),
            r.1 == cycles7(addr, 2, false, nonseq),
            stored7(*old(self), *final(self), addr, 2, |m: Seq<u8>, l: int| spec_write_le16(m, l, data)),
            old(self).backed7(addr) ==> final(self).half7(addr) == BusAccess::<u16, Region7>::Done(data),
    {
        proof {
            lemma_offsets7(addr);
        }
        let ghost pre = *self;
        let v = match route7(addr, false, 2) {
            Region7::MainRam => {
                self.main_ram.write_halfword(addr & 0x3F_FFFF, data);
                proof {
                    crate::ram::lemma_halfword_write_read(pre.main_ram@, (addr & 0x3F_FFFF) as int, data);
                }
                BusAccess::Done(())
            },
            Region7::SharedWram => {
                self.shared_wram.write_halfword(false, addr, data);
                proof {
                    if let Some(b) = pre.shared_wram.reach(false, addr) {
                        crate::ram::lemma_halfword_write_read(pre.shared_wram.bank(b), (addr % 0x4000) as int, data);
                    }
                }
                BusAccess::Done(())
            },
            Region7::Wram => {
                self.arm7_wram.write_halfword(addr & 0xFFFF, data);
                proof {
                    crate::ram::lemma_halfword_write_read(pre.arm7_wram@, (addr & 0xFFFF) as int, data);
                }
                BusAccess::Done(())
            },
            Region7::Vram => {
                self.video_mem.write_halfword_arm7(addr, data);
                BusAccess::Done(())
            },
            Region7::Io => BusAccess::Device(Region7::Io),
            _ => BusAccess::Done(()),
        };
        (v, access_cycles7(addr, 2, false, nonseq))
    }
}

impl DSMemory {
    /// An ARM7 word store, as `store_byte7`.
    pub fn store_word7(&mut self, nonseq: bool, addr: u32, data: u32) -> (r: (BusAccess<(), Region7>, usize))
        requires
            old(self).wf(),
            access_ok7(addr, false, 4),
            addr % 4 == 0,
        ensures
            r.0 == store_answer7(addr, 4),
            r.1 == cycles7(addr, 4, false, nonseq),
            stored7(*old(self), *final(self), addr, 4, |m: Seq<u8>, l: int| spec_write_le32(m, l, data)),
            old(self).backed7(addr) ==> final(self).word7(addr) == BusAccess::<u32, Region7>::Done(data),
    {
        proof {
            lemma_offsets7(addr);
        }
        let ghost pre = *self;
        let v = match route7(addr, false, 4) {
            Region7::MainRam => {
                self.main_ram.write_word(addr & 0x3F_FFFF, data);
                proof {
                    crate::ram::lemma_word_write_read(pre.main_ram@, (addr & 0x3F_FFFF) as int, data);
                }
                BusAccess::Done(())
            },
            Region7::SharedWram => {
                self.shared_wram.write_word(false, addr, data);
                proof {
                    if let Some(b) = pre.shared_wram.reach(false, addr) {
                        crate::ram::lemma_word_write_read(pre.shared_wram.bank(b), (addr % 0x4000) as int, data);
                    }
                }
                BusAccess::Done(())
            },
            Region7::Wram => {
                self.arm7_wram.write_word(addr & 0xFFFF, data);
                proof {
                    crate::ram::lemma_word_write_read(pre.arm7_wram@, (addr & 0xFFFF) as int, data);
                }
                BusAccess::Done(())
            },
            Region7::Vram => {
                self.video_mem.write_word_arm7(addr, data);
                BusAccess::Done(())
            },
            Region7::Io => BusAccess::Device(Region7::Io),
            _ => BusAccess::Done(()),
        };
        (v, access_cycles7(addr, 4, false, nonseq))
    }
}


/// Both processors address the same main RAM: a word the ARM9 stores to
/// main RAM is what the ARM7 then reads at that address.
pub proof fn lemma_main_ram_arm9_to_arm7(pre: DSMemory, post: DSMemory, addr: u32, data: u32)
    requires
        pre.wf(),
        addr % 4 == 0,
        region9(addr, false, true) == Region9::MainRam,
        stored9(pre, post, addr, true, |m: Seq<u8>, l: int| spec_write_le32(m, l, data)),
    ensures
        post.word7(addr) == BusAccess::<u32, Region7>::Done(data),
{
    lemma_offsets7(addr);
    crate::ram::lemma_word_write_read(pre.main_ram@, (addr & 0x3F_FFFF) as int, data);
}

/// And the other way: a word the ARM7 stores to main RAM is what the ARM9
/// then reads at that address.
pub proof fn lemma_main_ram_arm7_to_arm9(pre: DSMemory, post: DSMemory, addr: u32, data: u32)
    requires
        pre.wf(),
        addr % 4 == 0,
        region7(addr, false, 4) == Region7::MainRam,
        stored7(pre, post, addr, 4, |m: Seq<u8>, l: int| spec_write_le32(m, l, data)),
    ensures
        post.word9(addr) == BusAccess::<u32, Region9>::Done(data),
{
    lemma_offsets7(addr);
    crate::ram::lemma_word_write_read(pre.main_ram@, (addr & 0x3F_FFFF) as int, data);
}

} // verus!
