//! The ARM9's on-chip memory: instruction and data TCM, instruction and
//! data cache, and the coprocessor that decides where an access goes.
//!
//! An access either completes here, or asks its owner for a line of memory
//! to fill the cache with, or goes to the memory bus: the owner of the bus
//! does the bus work and hands back what it read.
use vstd::prelude::*;
use crate::ram::{Ram, spec_le16, spec_le32, spec_write_le16, spec_write_le32};
use crate::cache::{Cache, SetLine, SETLINE_D_INDEX, SETLINE_SET, line_filled, line_words, lemma_fill_hits};
use crate::cp15::{Cp15, MemTarget, INSTR_TCM_SIZE, DATA_TCM_SIZE, CP15_PRESET};

verus! {

/// The outcome of a memory access.
#[derive(Debug, Clone, Copy, PartialEq, Eq)]
pub enum MemAccess<T> {
    /// Served on chip, with this value.
    Done(T),
    /// A cache miss: the eight words of memory at this line address are
    /// needed to fill the cache before the access is made again.
    Fill(u32),
    /// The access goes to the memory bus.
    Bus,
}

/// What a cache command (coprocessor register 7) asks of the owner of the
/// bus.
#[derive(Debug, Clone, PartialEq, Eq)]
pub enum CacheAction {
    Done,
    /// Halt the processor until an interrupt.
    Halt,
    /// Store these eight words to memory, from this address upwards.
    WriteBack(u32, Vec<u32>),
    /// Load eight words from this address and fill the instruction cache
    /// with them.
    Prefetch(u32),
}

/// The start of the 32-byte line holding an address.
pub open spec fn line_base(addr: u32) -> u32 {
    addr & 0xFFFF_FFE0
}

/// `r` asks to store `words` back from `addr`.
pub open spec fn writes_back(r: CacheAction, addr: u32, words: Seq<u32>) -> bool {
    match r {
        CacheAction::WriteBack(a, w) => a == addr && w@ == words,
        _ => false,
    }
}

/// The cache commands that exist, with a set index that the data cache
/// has where one is named.
pub open spec fn cache_command_ok(op_reg: usize, data: u32, info: u32) -> bool {
    ||| op_reg == 0 && info == 4
    ||| op_reg == 5 && (info == 0 || info == 1)
    ||| op_reg == 6 && (info == 0 || info == 1)
    ||| op_reg == 8 && info == 2
    ||| op_reg == 10 && (info == 1 || info == 4)
    ||| op_reg == 13 && info == 1
    ||| op_reg == 14 && info == 1
    ||| (op_reg == 10 || op_reg == 14) && info == 2 && (data & SETLINE_D_INDEX) >> 5u32 < 32
}

/// `post` is `pre` with every line invalid and clean, the data kept.
pub open spec fn all_invalidated(pre: Cache, post: Cache) -> bool {
    &&& post.wf()
    &&& post.sets() == pre.sets()
    &&& forall|l: int| 0 <= l < 4 * post.sets() ==> #[trigger] post.line_tag(l) == crate::cache::INVALID
        && !post.line_dirty(l)
    &&& forall|l: int| 0 <= l < 4 * post.sets() ==> #[trigger] post.line_data(l) == pre.line_data(l)
    &&& forall|addr: u32| #[trigger] post.find_way(addr) is None
}

/// `post` is `pre` with each line of the address's set that holds the
/// address made invalid and clean.
pub open spec fn line_invalidated(pre: Cache, post: Cache, addr: u32) -> bool {
    let b = 4 * pre.set_of(addr);
    &&& post.wf()
    &&& post.sets() == pre.sets()
    &&& post.find_way(addr) is None
    &&& forall|l: int| 0 <= l < 4 * pre.sets() ==> #[trigger] post.line_tag(l) == (
        if b <= l < b + 4 && pre.line_tag(l) == pre.tag_of(addr) { crate::cache::INVALID } else { pre.line_tag(l) })
    &&& forall|l: int| 0 <= l < 4 * pre.sets() ==> #[trigger] post.line_dirty(l) == (
        if b <= l < b + 4 && pre.line_tag(l) == pre.tag_of(addr) { false } else { pre.line_dirty(l) })
    &&& forall|l: int| 0 <= l < 4 * post.sets() ==> #[trigger] post.line_data(l) == pre.line_data(l)
}

/// `post` is `pre` with line `l` marked clean, everything else kept.
pub open spec fn line_cleaned(pre: Cache, post: Cache, l: int) -> bool {
    &&& post.same_but_line(&pre, l)
    &&& post.line_data(l) == pre.line_data(l)
    &&& !post.line_dirty(l)
}

/// `post` is `pre` with line `l` invalid and clean, everything else kept.
pub open spec fn line_dropped(pre: Cache, post: Cache, l: int) -> bool {
    &&& post.wf()
    &&& post.sets() == pre.sets()
    &&& post.line_tag(l) == crate::cache::INVALID
    &&& !post.line_dirty(l)
    &&& forall|k: int| 0 <= k < 4 * pre.sets() && k != l ==> #[trigger] post.line_tag(k) == pre.line_tag(k)
        && post.line_dirty(k) == pre.line_dirty(k)
    &&& forall|k: int| 0 <= k < 4 * pre.sets() ==> #[trigger] post.line_data(k) == pre.line_data(k)
}

/// The ARM9's on-chip memory.
pub struct DS9InternalMem {
    pub cp15: Cp15,
    pub instr_tcm: Ram,
    pub data_tcm: Ram,
    pub instr_cache: Cache,
    pub data_cache: Cache,
}

impl DS9InternalMem {
    /// TCMs of their sizes; a 32K instruction cache (64 sets) and a 16K
    /// data cache (32 sets).
    pub open spec fn wf(&self) -> bool {
        &&& self.instr_tcm@.len() == INSTR_TCM_SIZE
        &&& self.data_tcm@.len() == DATA_TCM_SIZE
        &&& self.instr_cache.wf()
        &&& self.instr_cache.sets() == 64
        &&& self.data_cache.wf()
        &&& self.data_cache.sets() == 32
    }

    /// Zeroed TCMs, empty caches, the coprocessor at reset.
    pub fn new() -> (r: Self)
        ensures
            r.wf(),
            r.cp15.control_reg == CP15_PRESET,
            r.cp15.masks_set(),
            r.cp15.data_tcm_base == 0,
            r.instr_tcm@ == Seq::new(INSTR_TCM_SIZE as nat, |i: int| 0u8),
            r.data_tcm@ == Seq::new(DATA_TCM_SIZE as nat, |i: int| 0u8),
            forall|addr: u32| #[trigger] r.instr_cache.find_way(addr) is None,
            forall|addr: u32| #[trigger] r.data_cache.find_way(addr) is None,
    {
        assert(64u32 == (1u32 << 6u32) && 32u32 == (1u32 << 5u32)) by (bit_vector);
        let instr_cache = Cache::new(64);
        let data_cache = Cache::new(32);
        DS9InternalMem {
            cp15: Cp15::new(),
            instr_tcm: Ram::new(INSTR_TCM_SIZE as usize),
            data_tcm: Ram::new(DATA_TCM_SIZE as usize),
            instr_cache,
            data_cache,
        }
    }

    /// What an instruction half-word fetch gives.
    pub open spec fn instr_halfword(&self, addr: u32) -> MemAccess<u16> {
        match self.cp15.instr_target(addr) {
            MemTarget::Itcm(o) => MemAccess::Done(spec_le16(self.instr_tcm@, o as int)),
            MemTarget::Cache => match self.instr_cache.hit_line(addr) {
                Some(l) => MemAccess::Done(spec_le16(self.instr_cache.line_data(l), (addr % 32) as int)),
                None => MemAccess::Fill(line_base(addr)),
            },
            _ => MemAccess::Bus,
        }
    }

    /// What an instruction word fetch gives.
    pub open spec fn instr_word(&self, addr: u32) -> MemAccess<u32> {
        match self.cp15.instr_target(addr) {
            MemTarget::Itcm(o) => MemAccess::Done(spec_le32(self.instr_tcm@, o as int)),
            MemTarget::Cache => match self.instr_cache.hit_line(addr) {
                Some(l) => MemAccess::Done(spec_le32(self.instr_cache.line_data(l), (addr % 32) as int)),
                None => MemAccess::Fill(line_base(addr)),
            },
            _ => MemAccess::Bus,
        }
    }

    /// What a data byte load gives.
    pub open spec fn data_byte(&self, addr: u32) -> MemAccess<u8> {
        match self.cp15.data_target(addr) {
            MemTarget::Itcm(o) => MemAccess::Done(self.instr_tcm@[o as int]),
            MemTarget::Dtcm(o) => MemAccess::Done(self.data_tcm@[o as int]),
            MemTarget::Cache => match self.data_cache.hit_line(addr) {
                Some(l) => MemAccess::Done(self.data_cache.line_data(l)[(addr % 32) as int]),
                None => MemAccess::Fill(line_base(addr)),
            },
            MemTarget::Bus => MemAccess::Bus,
        }
    }

    /// What a data half-word load gives.
    pub open spec fn data_halfword(&self, addr: u32) -> MemAccess<u16> {
        match self.cp15.data_target(addr) {
            MemTarget::Itcm(o) => MemAccess::Done(spec_le16(self.instr_tcm@, o as int)),
            MemTarget::Dtcm(o) => MemAccess::Done(spec_le16(self.data_tcm@, o as int)),
            MemTarget::Cache => match self.data_cache.hit_line(addr) {
                Some(l) => MemAccess::Done(spec_le16(self.data_cache.line_data(l), (addr % 32) as int)),
                None => MemAccess::Fill(line_base(addr)),
            },
            MemTarget::Bus => MemAccess::Bus,
        }
    }

    /// What a data word load gives.
    pub open spec fn data_word(&self, addr: u32) -> MemAccess<u32> {
        match self.cp15.data_target(addr) {
            MemTarget::Itcm(o) => MemAccess::Done(spec_le32(self.instr_tcm@, o as int)),
            MemTarget::Dtcm(o) => MemAccess::Done(spec_le32(self.data_tcm@, o as int)),
            MemTarget::Cache => match self.data_cache.hit_line(addr) {
                Some(l) => MemAccess::Done(spec_le32(self.data_cache.line_data(l), (addr % 32) as int)),
                None => MemAccess::Fill(line_base(addr)),
            },
            MemTarget::Bus => MemAccess::Bus,
        }
    }
}

/// A write inside the line an address hits leaves the address hitting that
/// line.
proof fn lemma_hit_kept(pre: Cache, post: Cache, addr: u32)
    requires
        pre.wf(),
        pre.hit_line(addr) is Some,
        post.same_but_line(&pre, pre.hit_line(addr)->0),
    ensures
        post.hit_line(addr) == pre.hit_line(addr),
        pre.line_data(pre.hit_line(addr)->0).len() == 32,
{
    pre.lemma_set_in_range(addr);
    let b = 4 * pre.set_of(addr);
    assert(post.set_of(addr) == pre.set_of(addr) && post.tag_of(addr) == pre.tag_of(addr));
    assert(post.line_tag(b) == pre.line_tag(b));
    assert(post.line_tag(b + 1) == pre.line_tag(b + 1));
    assert(post.line_tag(b + 2) == pre.line_tag(b + 2));
    assert(post.line_tag(b + 3) == pre.line_tag(b + 3));
    pre.lemma_line_len(pre.hit_line(addr)->0);
}

/// Offsets into the instruction TCM, and of aligned accesses into both
/// TCMs, stay inside them.
proof fn lemma_tcm_offsets(addr: u32, base: u32)
    ensures
        addr & 0x7FFF < 0x8000,
        addr % 2 == 0 ==> (addr & 0x7FFF) + 2 <= 0x8000,
        addr % 4 == 0 ==> (addr & 0x7FFF) + 4 <= 0x8000,
        addr & 0xFFFF_C000 == base ==> addr - base == addr & 0x3FFF,
        addr & 0x3FFF < 0x4000,
        addr % 2 == 0 ==> (addr & 0x3FFF) + 2 <= 0x4000,
        addr % 4 == 0 ==> (addr & 0x3FFF) + 4 <= 0x4000,
{
    assert((addr & 0x7FFF < 0x8000) &&
        (addr % 2 == 0 ==> (addr & 0x7FFF) + 2 <= 0x8000) &&
        (addr % 4 == 0 ==> (addr & 0x7FFF) + 4 <= 0x8000) &&
        (addr & 0xFFFF_C000 == base ==> addr - base == addr & 0x3FFF) &&
        (addr & 0x3FFF < 0x4000) &&
        (addr % 2 == 0 ==> (addr & 0x3FFF) + 2 <= 0x4000) &&
        (addr % 4 == 0 ==> (addr & 0x3FFF) + 4 <= 0x4000)) by (bit_vector);
}


impl DS9InternalMem {
    /// Fetch an instruction half-word.
    pub fn fetch_instr_halfword(&self, addr: u32) -> (r: MemAccess<u16>)
        requires
            self.wf(),
            addr % 2 == 0,
        ensures
            r == self.instr_halfword(addr),
    {
        proof {
            lemma_tcm_offsets(addr, self.cp15.data_tcm_base);
        }
        match self.cp15.route_instr(addr) {
            MemTarget::Itcm(o) => MemAccess::Done(self.instr_tcm.read_halfword(o)),
            MemTarget::Cache => match self.instr_cache.read_halfword(addr) {
                Some(v) => MemAccess::Done(v),
                None => MemAccess::Fill(addr & 0xFFFF_FFE0),
            },
            _ => MemAccess::Bus,
        }
    }

    /// Fetch an instruction word.
    pub fn fetch_instr_word(&self, addr: u32) -> (r: MemAccess<u32>)
        requires
            self.wf(),
            addr % 4 == 0,
        ensures
            r == self.instr_word(addr),
    {
        proof {
            lemma_tcm_offsets(addr, self.cp15.data_tcm_base);
        }
        match self.cp15.route_instr(addr) {
            MemTarget::Itcm(o) => MemAccess::Done(self.instr_tcm.read_word(o)),
            MemTarget::Cache => match self.instr_cache.read_word(addr) {
                Some(v) => MemAccess::Done(v),
                None => MemAccess::Fill(addr & 0xFFFF_FFE0),
            },
            _ => MemAccess::Bus,
        }
    }

    /// Load a data byte.
    pub fn load_byte(&self, addr: u32) -> (r: MemAccess<u8>)
        requires
            self.wf(),
        ensures
            r == self.data_byte(addr),
    {
        proof {
            lemma_tcm_offsets(addr, self.cp15.data_tcm_base);
        }
        match self.cp15.route_data(addr) {
            MemTarget::Itcm(o) => MemAccess::Done(self.instr_tcm.read_byte(o)),
            MemTarget::Dtcm(o) => MemAccess::Done(self.data_tcm.read_byte(o)),
            MemTarget::Cache => match self.data_cache.read_byte(addr) {
                Some(v) => MemAccess::Done(v),
                None => MemAccess::Fill(addr & 0xFFFF_FFE0),
            },
            MemTarget::Bus => MemAccess::Bus,
        }
    }

    /// Load a data half-word.
    pub fn load_halfword(&self, addr: u32) -> (r: MemAccess<u16>)
        requires
            self.wf(),
            addr % 2 == 0,
        ensures
            r == self.data_halfword(addr),
    {
        proof {
            lemma_tcm_offsets(addr, self.cp15.data_tcm_base);
        }
        match self.cp15.route_data(addr) {
            MemTarget::Itcm(o) => MemAccess::Done(self.instr_tcm.read_halfword(o)),
            MemTarget::Dtcm(o) => MemAccess::Done(self.data_tcm.read_halfword(o)),
            MemTarget::Cache => match self.data_cache.read_halfword(addr) {
                Some(v) => MemAccess::Done(v),
                None => MemAccess::Fill(addr & 0xFFFF_FFE0),
            },
            MemTarget::Bus => MemAccess::Bus,
        }
    }

    /// Load a data word.
    pub fn load_word(&self, addr: u32) -> (r: MemAccess<u32>)
        requires
            self.wf(),
            addr % 4 == 0,
        ensures
            r == self.data_word(addr),
    {
        proof {
            lemma_tcm_offsets(addr, self.cp15.data_tcm_base);
        }
        match self.cp15.route_data(addr) {
            MemTarget::Itcm(o) => MemAccess::Done(self.instr_tcm.read_word(o)),
            MemTarget::Dtcm(o) => MemAccess::Done(self.data_tcm.read_word(o)),
            MemTarget::Cache => match self.data_cache.read_word(addr) {
                Some(v) => MemAccess::Done(v),
                None => MemAccess::Fill(addr & 0xFFFF_FFE0),
            },
            MemTarget::Bus => MemAccess::Bus,
        }
    }
}


impl DS9InternalMem {
    /// Store a data byte: into a TCM, into the data cache line it hits, or
    /// (changing nothing here) a fill or a bus access is asked for.
    pub fn store_byte(&mut self, addr: u32, data: u8) -> (r: MemAccess<()>)
        requires
            old(self).wf(),
        ensures
            final(self).wf(),
            final(self).cp15 == old(self).cp15,
            r == MemAccess::<()>::Done(()) ==> final(self).data_byte(addr) == MemAccess::Done(data),
            final(self).instr_cache == old(self).instr_cache,
            match old(self).cp15.data_target(addr) {
                MemTarget::Itcm(o) => r == MemAccess::Done(())
                    && final(self).instr_tcm@ == old(self).instr_tcm@.update(o as int, data)
                    && final(self).data_tcm == old(self).data_tcm && final(self).data_cache == old(self).data_cache,
                MemTarget::Dtcm(o) => r == MemAccess::Done(())
                    && final(self).data_tcm@ == old(self).data_tcm@.update(o as int, data)
                    && final(self).instr_tcm == old(self).instr_tcm && final(self).data_cache == old(self).data_cache,
                MemTarget::Cache => match old(self).data_cache.hit_line(addr) {
                    Some(l) => r == MemAccess::Done(())
                        && final(self).instr_tcm == old(self).instr_tcm && final(self).data_tcm == old(self).data_tcm
                        && final(self).data_cache.same_but_line(&old(self).data_cache, l)
                        && final(self).data_cache.line_dirty(l)
                        && final(self).data_cache.line_data(l) == old(self).data_cache.line_data(l).update((addr % 32) as int, data),
                    None => r == MemAccess::<()>::Fill(line_base(addr)) && *final(self) == *old(self),
                },
                MemTarget::Bus => r == MemAccess::<()>::Bus && *final(self) == *old(self),
            },
    {
        proof {
            lemma_tcm_offsets(addr, self.cp15.data_tcm_base);
        }
        let ghost pre = *self;
        match self.cp15.route_data(addr) {
            MemTarget::Itcm(o) => {
                self.instr_tcm.write_byte(o, data);
                MemAccess::Done(())
            },
            MemTarget::Dtcm(o) => {
                self.data_tcm.write_byte(o, data);
                MemAccess::Done(())
            },
            MemTarget::Cache => {
                if self.data_cache.write_byte(addr, data) {
                    proof {
                        lemma_hit_kept(pre.data_cache, self.data_cache, addr);
                    }
                    MemAccess::Done(())
                } else {
                    MemAccess::Fill(addr & 0xFFFF_FFE0)
                }
            },
            MemTarget::Bus => MemAccess::Bus,
        }
    }

    /// Store a data half-word, as `store_byte` does.
    pub fn store_halfword(&mut self, addr: u32, data: u16) -> (r: MemAccess<()>)
        requires
            old(self).wf(),
            addr % 2 == 0,
        ensures
            final(self).wf(),
            final(self).cp15 == old(self).cp15,
            r == MemAccess::<()>::Done(()) ==> final(self).data_halfword(addr) == MemAccess::Done(data),
            final(self).instr_cache == old(self).instr_cache,
            match old(self).cp15.data_target(addr) {
                MemTarget::Itcm(o) => r == MemAccess::Done(())
                    && final(self).instr_tcm@ == spec_write_le16(old(self).instr_tcm@, o as int, data)
                    && final(self).data_tcm == old(self).data_tcm && final(self).data_cache == old(self).data_cache,
                MemTarget::Dtcm(o) => r == MemAccess::Done(())
                    && final(self).data_tcm@ == spec_write_le16(old(self).data_tcm@, o as int, data)
                    && final(self).instr_tcm == old(self).instr_tcm && final(self).data_cache == old(self).data_cache,
                MemTarget::Cache => match old(self).data_cache.hit_line(addr) {
                    Some(l) => r == MemAccess::Done(())
                        && final(self).instr_tcm == old(self).instr_tcm && final(self).data_tcm == old(self).data_tcm
                        && final(self).data_cache.same_but_line(&old(self).data_cache, l)
                        && final(self).data_cache.line_dirty(l)
                        && final(self).data_cache.line_data(l) == spec_write_le16(old(self).data_cache.line_data(l), (addr % 32) as int, data),
                    None => r == MemAccess::<()>::Fill(line_base(addr)) && *final(self) == *old(self),
                },
                MemTarget::Bus => r == MemAccess::<()>::Bus && *final(self) == *old(self),
            },
    {
        proof {
            lemma_tcm_offsets(addr, self.cp15.data_tcm_base);
        }
        let ghost pre = *self;
        match self.cp15.route_data(addr) {
            MemTarget::Itcm(o) => {
                self.instr_tcm.write_halfword(o, data);
                proof {
                    crate::ram::lemma_halfword_write_read(pre.instr_tcm@, o as int, data);
                }
                MemAccess::Done(())
            },
            MemTarget::Dtcm(o) => {
                self.data_tcm.write_halfword(o, data);
                proof {
                    crate::ram::lemma_halfword_write_read(pre.data_tcm@, o as int, data);
                }
                MemAccess::Done(())
            },
            MemTarget::Cache => {
                if self.data_cache.write_halfword(addr, data) {
                    proof {
                        lemma_hit_kept(pre.data_cache, self.data_cache, addr);
                        crate::ram::lemma_halfword_write_read(pre.data_cache.line_data(pre.data_cache.hit_line(addr)->0), (addr % 32) as int, data);
                    }
                    MemAccess::Done(())
                } else {
                    MemAccess::Fill(addr & 0xFFFF_FFE0)
                }
            },
            MemTarget::Bus => MemAccess::Bus,
        }
    }

    /// Store a data word, as `store_byte` does.
    pub fn store_word(&mut self, addr: u32, data: u32) -> (r: MemAccess<()>)
        requires
            old(self).wf(),
            addr % 4 == 0,
        ensures
            final(self).wf(),
            final(self).cp15 == old(self).cp15,
            r == MemAccess::<()>::Done(()) ==> final(self).data_word(addr) == MemAccess::Done(data),
            final(self).instr_cache == old(self).instr_cache,
            match old(self).cp15.data_target(addr) {
                MemTarget::Itcm(o) => r == MemAccess::Done(())
                    && final(self).instr_tcm@ == spec_write_le32(old(self).instr_tcm@, o as int, data)
                    && final(self).data_tcm == old(self).data_tcm && final(self).data_cache == old(self).data_cache,
                MemTarget::Dtcm(o) => r == MemAccess::Done(())
                    && final(self).data_tcm@ == spec_write_le32(old(self).data_tcm@, o as int, data)
                    && final(self).instr_tcm == old(self).instr_tcm && final(self).data_cache == old(self).data_cache,
                MemTarget::Cache => match old(self).data_cache.hit_line(addr) {
                    Some(l) => r == MemAccess::Done(())
                        && final(self).instr_tcm == old(self).instr_tcm && final(self).data_tcm == old(self).data_tcm
                        && final(self).data_cache.same_but_line(&old(self).data_cache, l)
                        && final(self).data_cache.line_dirty(l)
                        && final(self).data_cache.line_data(l) == spec_write_le32(old(self).data_cache.line_data(l), (addr % 32) as int, data),
                    None => r == MemAccess::<()>::Fill(line_base(addr)) && *final(self) == *old(self),
                },
                MemTarget::Bus => r == MemAccess::<()>::Bus && *final(self) == *old(self),
            },
    {
        proof {
            lemma_tcm_offsets(addr, self.cp15.data_tcm_base);
        }
        let ghost pre = *self;
        match self.cp15.route_data(addr) {
            MemTarget::Itcm(o) => {
                self.instr_tcm.write_word(o, data);
                proof {
                    crate::ram::lemma_word_write_read(pre.instr_tcm@, o as int, data);
                }
                MemAccess::Done(())
            },
            MemTarget::Dtcm(o) => {
                self.data_tcm.write_word(o, data);
                proof {
                    crate::ram::lemma_word_write_read(pre.data_tcm@, o as int, data);
                }
                MemAccess::Done(())
            },
            MemTarget::Cache => {
                if self.data_cache.write_word(addr, data) {
                    proof {
                        lemma_hit_kept(pre.data_cache, self.data_cache, addr);
                        crate::ram::lemma_word_write_read(pre.data_cache.line_data(pre.data_cache.hit_line(addr)->0), (addr % 32) as int, data);
                    }
                    MemAccess::Done(())
                } else {
                    MemAccess::Fill(addr & 0xFFFF_FFE0)
                }
            },
            MemTarget::Bus => MemAccess::Bus,
        }
    }
}


impl DS9InternalMem {
    /// Fill the instruction cache line for `addr` with the eight words of
    /// memory at its line; after a miss, the address then hits.
    pub fn fill_instr_line(&mut self, addr: u32, words: &[u32])
        requires
            old(self).wf(),
            words@.len() == 8,
        ensures
            final(self).wf(),
            final(self).cp15 == old(self).cp15,
            final(self).instr_tcm == old(self).instr_tcm,
            final(self).data_tcm == old(self).data_tcm,
            final(self).data_cache == old(self).data_cache,
            line_filled(old(self).instr_cache, final(self).instr_cache, addr, words@),
            old(self).instr_cache.hit_line(addr) is None ==> final(self).instr_cache.hit_line(addr) is Some,
    {
        proof {
            self.instr_cache.lemma_line_base(addr);
        }
        self.instr_cache.fill_line(addr & 0xFFFF_FFE0, words);
        proof {
            if old(self).instr_cache.hit_line(addr) is None {
                lemma_fill_hits(old(self).instr_cache, self.instr_cache, addr, words@);
            }
        }
    }

    /// Fill the data cache line for `addr` with the eight words of memory
    /// at its line. Where the line replaced was dirty, its address and
    /// words come back, to be stored to memory.
    pub fn fill_data_line(&mut self, addr: u32, words: &[u32]) -> (r: Option<(u32, Vec<u32>)>)
        requires
            old(self).wf(),
            words@.len() == 8,
        ensures
            final(self).wf(),
            final(self).cp15 == old(self).cp15,
            final(self).instr_tcm == old(self).instr_tcm,
            final(self).data_tcm == old(self).data_tcm,
            final(self).instr_cache == old(self).instr_cache,
            line_filled(old(self).data_cache, final(self).data_cache, addr, words@),
            old(self).data_cache.hit_line(addr) is None ==> final(self).data_cache.hit_line(addr) is Some,
            ({
                let c = old(self).data_cache;
                let s = c.set_of(addr);
                let l = 4 * s + c.replace_way(s);
                &&& c.line_dirty(l) ==> (r matches Some((a, w)) && a == c.line_tag(l) | ((s as u32) << 5u32)
                    && w@ == line_words(c.line_data(l), 8))
                &&& !c.line_dirty(l) ==> r is None
            }),
    {
        proof {
            self.data_cache.lemma_line_base(addr);
        }
        let mut out: Vec<u32> = vec![0u32; 8];
        let written = self.data_cache.clean_and_fill_line(addr & 0xFFFF_FFE0, words, out.as_mut_slice());
        proof {
            if old(self).data_cache.hit_line(addr) is None {
                lemma_fill_hits(old(self).data_cache, self.data_cache, addr, words@);
            }
        }
        match written {
            Some(a) => Some((a, out)),
            None => None,
        }
    }
}


/// The way, the set index, and the address offset of the line that a cache
/// command's operand names.
pub open spec fn set_line_way(data: u32) -> u32 {
    (data & SETLINE_SET) >> 30u32
}

pub open spec fn set_line_index(data: u32) -> u32 {
    (data & SETLINE_D_INDEX) >> 5u32
}

pub open spec fn set_line_offset(data: u32) -> u32 {
    data & SETLINE_D_INDEX
}

impl DS9InternalMem {
    /// Whether `cache_command` knows the command.
    pub fn is_known_cache_command(op_reg: usize, data: u32, info: u32) -> (r: bool)
        ensures
            r == cache_command_ok(op_reg, data, info),
    {
        (op_reg == 0 && info == 4) || (op_reg == 5 && (info == 0 || info == 1)) || (op_reg == 6 && (info == 0
            || info == 1)) || (op_reg == 8 && info == 2) || (op_reg == 10 && (info == 1 || info == 4)) || (
        op_reg == 13 && info == 1) || (op_reg == 14 && info == 1) || ((op_reg == 10 || op_reg == 14) && info
            == 2 && (data & SETLINE_D_INDEX) >> 5u32 < 32)
    }

    /// A cache or wait command (coprocessor register 7, operand register
    /// `op_reg`, `info` its second operand): invalidations are done here;
    /// cleaning hands back the dirty data to store; waiting halts the
    /// processor; a prefetch asks for a line of memory.
    pub fn cache_command(&mut self, op_reg: usize, data: u32, info: u32) -> (r: CacheAction)
        requires
            old(self).wf(),
            cache_command_ok(op_reg, data, info),
        ensures
            final(self).wf(),
            final(self).cp15 == old(self).cp15,
            final(self).instr_tcm == old(self).instr_tcm,
            final(self).data_tcm == old(self).data_tcm,
            op_reg != 5 ==> final(self).instr_cache == old(self).instr_cache,
            op_reg == 0 || op_reg == 8 || op_reg == 13 || op_reg == 10 && info == 4 ==> *final(self) == *old(self),
            op_reg == 0 || op_reg == 8 ==> r == CacheAction::Halt,
            op_reg == 13 ==> r == CacheAction::Prefetch(data),
            op_reg == 10 && info == 4 ==> r == CacheAction::Done,
            op_reg == 5 || op_reg == 6 ==> r == CacheAction::Done,
            op_reg == 5 ==> final(self).data_cache == old(self).data_cache,
            op_reg == 5 && info == 0 ==> all_invalidated(old(self).instr_cache, final(self).instr_cache),
            op_reg == 5 && info == 1 ==> line_invalidated(old(self).instr_cache, final(self).instr_cache, data),
            op_reg == 6 && info == 0 ==> all_invalidated(old(self).data_cache, final(self).data_cache),
            op_reg == 6 && info == 1 ==> line_invalidated(old(self).data_cache, final(self).data_cache, data),
            (op_reg == 10 || op_reg == 14) && info == 1 ==> {
                let c = old(self).data_cache;
                match c.hit_line(data) {
                    Some(l) => {
                        &&& op_reg == 10 ==> line_cleaned(c, final(self).data_cache, l)
                        &&& op_reg == 14 ==> line_dropped(c, final(self).data_cache, l)
                        &&& c.line_dirty(l) ==> writes_back(r, data, line_words(c.line_data(l), 8))
                        &&& !c.line_dirty(l) ==> r == CacheAction::Done
                    },
                    None => r == CacheAction::Done && final(self).data_cache == c,
                }
            },
            (op_reg == 10 || op_reg == 14) && info == 2 ==> {
                let c = old(self).data_cache;
                let l = 4 * set_line_index(data) + set_line_way(data);
                &&& op_reg == 10 ==> line_cleaned(c, final(self).data_cache, l)
                &&& op_reg == 14 ==> line_dropped(c, final(self).data_cache, l)
                &&& c.line_dirty(l) ==> writes_back(
                    r,
                    c.line_tag(l).wrapping_add(set_line_offset(data)),
                    line_words(c.line_data(l), 8),
                )
                &&& !c.line_dirty(l) ==> r == CacheAction::Done
            },
    {
        if op_reg == 0 || op_reg == 8 {
            CacheAction::Halt
        } else if op_reg == 5 {
            if info == 0 {
                self.instr_cache.invalidate_all();
            } else {
                self.instr_cache.invalidate_line(data);
            }
            CacheAction::Done
        } else if op_reg == 6 {
            if info == 0 {
                self.data_cache.invalidate_all();
            } else {
                self.data_cache.invalidate_line(data);
            }
            CacheAction::Done
        } else if op_reg == 13 {
            CacheAction::Prefetch(data)
        } else if info == 4 {
            CacheAction::Done
        } else {
            let mut buffer: Vec<u32> = vec![0u32; 8];
            if info == 1 {
                let dirty = if op_reg == 10 {
                    self.data_cache.clean_line(data, buffer.as_mut_slice())
                } else {
                    self.data_cache.clean_and_invalidate_line(data, buffer.as_mut_slice())
                };
                if dirty {
                    CacheAction::WriteBack(data, buffer)
                } else {
                    CacheAction::Done
                }
            } else {
                let set_line = SetLine::from_bits_truncate(data);
                let way = set_line.set_idx();
                let index = set_line.data_index();
                let offset = set_line.data_offset();
                assert(((data & (0xC000_0000u32 | 0xFE0u32 | 0x7E0u32)) & 0xC000_0000u32) >> 30u32 == (data
                    & 0xC000_0000u32) >> 30u32 && ((data & (0xC000_0000u32 | 0xFE0u32 | 0x7E0u32)) & 0x7E0u32)
                    == data & 0x7E0u32) by (bit_vector);
                let tag = if op_reg == 10 {
                    self.data_cache.clean_set_line(way, index, buffer.as_mut_slice())
                } else {
                    self.data_cache.clean_and_invalidate_set_line(way, index, buffer.as_mut_slice())
                };
                match tag {
                    Some(t) => CacheAction::WriteBack(t.wrapping_add(offset), buffer),
                    None => CacheAction::Done,
                }
            }
        }
    }
}

} // verus!
