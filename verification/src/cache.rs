//! ARM9 on-chip cache: 4-way set associative, 32-byte lines.
use vstd::prelude::*;
use vstd::arithmetic::power2::pow2;
use crate::ram::{Ram, spec_le16, spec_le32, spec_write_le16, spec_write_le32, lemma_word_write_read};

verus! {

pub const SETLINE_SET: u32 = 0xC000_0000;
pub const SETLINE_I_INDEX: u32 = 0x0000_0FE0;
pub const SETLINE_D_INDEX: u32 = 0x0000_07E0;

/// Operand of the cache commands that name a set and line directly.
#[derive(Clone, Copy, PartialEq, Eq, Structural)]
pub struct SetLine {
    pub bits: u32,
}

impl SetLine {
    pub fn from_bits_truncate(bits: u32) -> (r: Self)
        ensures
            r.bits == bits & (SETLINE_SET | SETLINE_I_INDEX | SETLINE_D_INDEX),
    {
        SetLine { bits: bits & (SETLINE_SET | SETLINE_I_INDEX | SETLINE_D_INDEX) }
    }

    /// The way (0-3).
    pub fn set_idx(&self) -> (r: u32)
        ensures
            r == (self.bits & SETLINE_SET) >> 30,
            r < 4,
    {
        let b = self.bits;
        assert((b & 0xC000_0000u32) >> 30u32 < 4) by (bit_vector);
        (b & SETLINE_SET) >> 30
    }

    /// The instruction cache set index (0-127).
    pub fn instr_index(&self) -> (r: u32)
        ensures
            r == (self.bits & SETLINE_I_INDEX) >> 5,
            r < 128,
    {
        let b = self.bits;
        assert((b & 0xFE0u32) >> 5u32 < 128) by (bit_vector);
        (b & SETLINE_I_INDEX) >> 5
    }

    /// The data cache set index (0-63).
    pub fn data_index(&self) -> (r: u32)
        ensures
            r == (self.bits & SETLINE_D_INDEX) >> 5,
            r < 64,
    {
        let b = self.bits;
        assert((b & 0x7E0u32) >> 5u32 < 64) by (bit_vector);
        (b & SETLINE_D_INDEX) >> 5
    }

    /// The address offset of the line.
    pub fn data_offset(&self) -> (r: u32)
        ensures
            r == self.bits & SETLINE_D_INDEX,
    {
        self.bits & SETLINE_D_INDEX
    }
}

pub const LINE_SIZE: u32 = 32;
pub const LINE_MASK: u32 = 0x1F;
/// An address of all ones is not cacheable, so it marks an invalid line.
pub const INVALID: u32 = 0xFFFF_FFFF;

/// Bytes of a line after filling its first words with `words`.
pub open spec fn filled(old: Seq<u8>, words: Seq<u32>) -> Seq<u8> {
    Seq::new(
        32,
        |b: int|
            if b / 4 < words.len() {
                word_byte(words[b / 4], b % 4)
            } else {
                old[b]
            },
    )
}

/// Byte `k` (0-3) of a word, least significant first.
pub open spec fn word_byte(v: u32, k: int) -> u8 {
    if k == 0 {
        (v % 0x100) as u8
    } else if k == 1 {
        ((v / 0x100) % 0x100) as u8
    } else if k == 2 {
        ((v / 0x1_0000) % 0x100) as u8
    } else {
        (v / 0x100_0000) as u8
    }
}

/// The words of a line, the first `n` of them.
pub open spec fn line_words(data: Seq<u8>, n: nat) -> Seq<u32> {
    Seq::new(n, |i: int| spec_le32(data, 4 * i))
}

/// A set-associative cache of `num_sets` sets with four lines each.
///
/// Line `4 * s + w` is way `w` of set `s`.
pub struct Cache {
    tags: Vec<u32>,
    dirty: Vec<bool>,
    data: Ram,
    replace: Vec<usize>,
    index_mask: u32,
    tag_mask: u32,
    num_sets: usize,
    set_bits: u32,
}

impl Cache {
    pub closed spec fn wf(&self) -> bool {
        &&& self.set_bits <= 24
        &&& self.num_sets == (1u32 << self.set_bits)
        &&& 0 < self.num_sets <= 0x100_0000
        &&& self.index_mask == ((1u32 << self.set_bits) << 5u32) - 1
        &&& self.tag_mask == 0xFFFF_FFFFu32 - self.index_mask
        &&& self.tags@.len() == 4 * self.num_sets
        &&& self.dirty@.len() == 4 * self.num_sets
        &&& self.data@.len() == 128 * self.num_sets
        &&& self.replace@.len() == self.num_sets
        &&& forall|s: int| 0 <= s < self.num_sets ==> #[trigger] self.replace@[s] < 4
    }

    /// Number of sets.
    pub closed spec fn sets(&self) -> nat {
        self.num_sets as nat
    }

    /// Which set an address maps to.
    pub closed spec fn set_of(&self, addr: u32) -> int {
        ((addr & self.index_mask) >> 5u32) as int
    }

    /// The tag an address is stored under.
    pub closed spec fn tag_of(&self, addr: u32) -> u32 {
        addr & self.tag_mask
    }

    /// An address's set is its line number modulo the number of sets, and
    /// its tag the address with the bits below the set's span cleared.
    pub proof fn lemma_set_and_tag(&self, addr: u32)
        requires
            self.wf(),
        ensures
            self.set_of(addr) == (addr as int / 32) % (self.sets() as int),
            self.tag_of(addr) == addr as int - addr as int % (32 * self.sets() as int),
    {
        let b = self.set_bits;
        let n = pow2(b as nat);
        vstd::arithmetic::power2::lemma2_to64();
        vstd::arithmetic::power2::lemma_pow2_pos(b as nat);
        if b < 24 {
            vstd::arithmetic::power2::lemma_pow2_strictly_increases(b as nat, 24);
        }
        vstd::bits::lemma_u32_shl_is_mul(1u32, b);
        assert((1u32 << b) == n);
        vstd::bits::lemma_u32_shl_is_mul(n as u32, 5u32);
        vstd::arithmetic::power2::lemma_pow2_adds(b as nat, 5);
        assert(((1u32 << b) << 5u32) == pow2((b + 5) as nat));
        vstd::bits::lemma_u32_low_bits_mask_is_mod(addr, (b + 5) as nat);
        assert(self.index_mask == vstd::bits::low_bits_mask((b + 5) as nat) as u32);
        let low = addr & self.index_mask;
        assert(low == addr % (32 * n) as u32);
        vstd::bits::lemma_u32_shr_is_div(low, 5u32);
        vstd::arithmetic::div_mod::lemma_mod_breakdown(addr as int, 32, n as int);
        assert(self.set_of(addr) == (addr as int / 32) % (n as int));
        let m = self.index_mask;
        assert(addr & (0xFFFF_FFFFu32 - m) as u32 == addr - (addr & m)) by (bit_vector);
    }

    pub closed spec fn line_tag(&self, line: int) -> u32 {
        self.tags@[line]
    }

    pub closed spec fn line_dirty(&self, line: int) -> bool {
        self.dirty@[line]
    }

    /// The 32 bytes held by a line.
    pub closed spec fn line_data(&self, line: int) -> Seq<u8> {
        self.data@.subrange(32 * line, 32 * line + 32)
    }

    /// The way that the next fill of a set replaces.
    pub closed spec fn replace_way(&self, set: int) -> int {
        self.replace@[set] as int
    }

    /// The first way of the address's set whose tag matches, if any.
    pub open spec fn find_way(&self, addr: u32) -> Option<int> {
        let b = 4 * self.set_of(addr);
        let t = self.tag_of(addr);
        if self.line_tag(b) == t {
            Some(0)
        } else if self.line_tag(b + 1) == t {
            Some(1)
        } else if self.line_tag(b + 2) == t {
            Some(2)
        } else if self.line_tag(b + 3) == t {
            Some(3)
        } else {
            None
        }
    }

    /// The line an address hits, if any.
    pub open spec fn hit_line(&self, addr: u32) -> Option<int> {
        match self.find_way(addr) {
            Some(w) => Some(4 * self.set_of(addr) + w),
            None => None,
        }
    }

    /// Every address maps to an existing set.
    pub proof fn lemma_set_in_range(&self, addr: u32)
        requires
            self.wf(),
        ensures
            0 <= self.set_of(addr) < self.sets(),
    {
        let k = self.set_bits;
        let m = self.index_mask;
        assert(k <= 24 && m == ((1u32 << k) << 5u32) - 1 ==> (addr & m) >> 5u32 < (1u32 << k))
            by (bit_vector);
    }

    /// The tag of an address is never the invalid marker.
    pub proof fn lemma_tag_valid(&self, addr: u32)
        requires
            self.wf(),
        ensures
            self.tag_of(addr) != INVALID,
    {
        let k = self.set_bits;
        let m = self.index_mask;
        let t = self.tag_mask;
        assert(k <= 24 && m == ((1u32 << k) << 5u32) - 1 && t == 0xFFFF_FFFFu32 - m ==> addr & t
            != 0xFFFF_FFFFu32) by (bit_vector);
    }

    /// A cache of `num_lines` sets, every line invalid and clean.
    pub fn new(num_lines: u32) -> (r: Self)
        requires
            exists|k: u32| k <= 24 && num_lines == (1u32 << k),
        ensures
            r.wf(),
            r.sets() == num_lines,
            forall|l: int| 0 <= l < 4 * r.sets() ==> #[trigger] r.line_tag(l) == INVALID && !r.line_dirty(l),
            forall|s: int| 0 <= s < r.sets() ==> #[trigger] r.replace_way(s) == 0,
            forall|addr: u32| #[trigger] r.find_way(addr) is None,
    {
        let ghost k = choose|k: u32| k <= 24 && num_lines == (1u32 << k);
        let mut set_bits: u32 = 0;
        while set_bits < 24 && (1u32 << set_bits) != num_lines
            invariant
                set_bits <= 24,
                k <= 24,
                num_lines == (1u32 << k),
                set_bits <= k,
            decreases 24 - set_bits,
        {
            assert(set_bits < 24 && set_bits <= k && (1u32 << set_bits) != (1u32 << k) ==> set_bits
                < k) by (bit_vector);
            set_bits = set_bits + 1;
        }
        assert(set_bits <= 24 && k <= 24 && set_bits <= k && (set_bits == 24 || (1u32 << set_bits)
            == (1u32 << k)) ==> (1u32 << set_bits) == (1u32 << k)) by (bit_vector);
        assert(set_bits <= 24 ==> (1u32 << set_bits) <= 0x100_0000 && (1u32 << set_bits) > 0
            && ((1u32 << set_bits) << 5u32) >= 32 && ((1u32 << set_bits) << 5u32) == (1u32
            << set_bits) * 32) by (bit_vector);
        let n = num_lines as usize;
        let mut tags: Vec<u32> = Vec::new();
        let mut dirty: Vec<bool> = Vec::new();
        let mut i: usize = 0;
        while i < 4 * n
            invariant
                n <= 0x100_0000,
                i <= 4 * n,
                tags@.len() == i,
                dirty@.len() == i,
                forall|l: int| 0 <= l < i ==> tags@[l] == INVALID && !dirty@[l],
            decreases 4 * n - i,
        {
            tags.push(INVALID);
            dirty.push(false);
            i = i + 1;
        }
        let mut replace: Vec<usize> = Vec::new();
        let mut j: usize = 0;
        while j < n
            invariant
                j <= n,
                replace@.len() == j,
                forall|s: int| 0 <= s < j ==> replace@[s] == 0,
            decreases n - j,
        {
            replace.push(0);
            j = j + 1;
        }
        let data = Ram::new(128 * n);
        let index_mask = (num_lines << 5) - 1;
        let r = Cache {
            tags,
            dirty,
            data,
            replace,
            index_mask,
            tag_mask: 0xFFFF_FFFF - index_mask,
            num_sets: n,
            set_bits,
        };
        assert forall|addr: u32| #[trigger] r.find_way(addr) is None by {
            r.lemma_set_in_range(addr);
            r.lemma_tag_valid(addr);
        }
        r
    }

    /// Locate the line an address hits.
    fn lookup(&self, addr: u32) -> (r: Option<usize>)
        requires
            self.wf(),
        ensures
            match r {
                Some(l) => self.hit_line(addr) == Some(l as int),
                None => self.hit_line(addr) is None,
            },
            0 <= self.set_of(addr) < self.sets(),
    {
        proof {
            self.lemma_set_in_range(addr);
        }
        let index = ((addr & self.index_mask) >> 5) as usize;
        let tag = addr & self.tag_mask;
        let b = 4 * index;
        if self.tags[b] == tag {
            Some(b)
        } else if self.tags[b + 1] == tag {
            Some(b + 1)
        } else if self.tags[b + 2] == tag {
            Some(b + 2)
        } else if self.tags[b + 3] == tag {
            Some(b + 3)
        } else {
            None
        }
    }

    /// Mark a line invalid, without writing it back.
    fn invalidate(&mut self, line: usize)
        requires
            old(self).wf(),
            line < 4 * old(self).sets(),
        ensures
            final(self).wf(),
            final(self).tags@ == old(self).tags@.update(line as int, INVALID),
            final(self).dirty@ == old(self).dirty@.update(line as int, false),
            final(self).data == old(self).data,
            final(self).replace == old(self).replace,
            final(self).index_mask == old(self).index_mask,
            final(self).tag_mask == old(self).tag_mask,
            final(self).num_sets == old(self).num_sets,
            final(self).set_bits == old(self).set_bits,
    {
        self.tags.set(line, INVALID);
        self.dirty.set(line, false);
    }

    /// Set every line to invalid.
    pub fn invalidate_all(&mut self)
        requires
            old(self).wf(),
        ensures
            final(self).wf(),
            final(self).sets() == old(self).sets(),
            forall|l: int| 0 <= l < 4 * final(self).sets() ==> #[trigger] final(self).line_tag(l) == INVALID
                && !final(self).line_dirty(l),
            forall|l: int| 0 <= l < 4 * final(self).sets() ==> #[trigger] final(self).line_data(l) == old(self).line_data(l),
            forall|addr: u32| #[trigger] final(self).find_way(addr) is None,
    {
        let n = self.tags.len();
        let mut i: usize = 0;
        while i < n
            invariant
                self.wf(),
                n == 4 * self.num_sets,
                i <= n,
                self.num_sets == old(self).num_sets,
                self.index_mask == old(self).index_mask,
                self.tag_mask == old(self).tag_mask,
                self.data == old(self).data,
                forall|l: int| 0 <= l < i ==> self.tags@[l] == INVALID && !self.dirty@[l],
            decreases n - i,
        {
            self.invalidate(i);
            i = i + 1;
        }
        assert forall|addr: u32| #[trigger] self.find_way(addr) is None by {
            self.lemma_set_in_range(addr);
            self.lemma_tag_valid(addr);
        }
    }

    /// Invalidate every line of the address's set whose tag matches.
    pub fn invalidate_line(&mut self, addr: u32)
        requires
            old(self).wf(),
        ensures
            final(self).wf(),
            final(self).sets() == old(self).sets(),
            final(self).find_way(addr) is None,
            forall|l: int| 0 <= l < 4 * old(self).sets() ==> #[trigger] final(self).line_tag(l) == (
                if 4 * old(self).set_of(addr) <= l < 4 * old(self).set_of(addr) + 4 && old(self).line_tag(l) == old(self).tag_of(addr) {
                    INVALID
                } else {
                    old(self).line_tag(l)
                }),
            forall|l: int| 0 <= l < 4 * old(self).sets() ==> #[trigger] final(self).line_dirty(l) == (
                if 4 * old(self).set_of(addr) <= l < 4 * old(self).set_of(addr) + 4 && old(self).line_tag(l) == old(self).tag_of(addr) {
                    false
                } else {
                    old(self).line_dirty(l)
                }),
            forall|l: int| 0 <= l < 4 * final(self).sets() ==> #[trigger] final(self).line_data(l) == old(self).line_data(l),
    {
        proof {
            self.lemma_set_in_range(addr);
            self.lemma_tag_valid(addr);
        }
        let index = ((addr & self.index_mask) >> 5) as usize;
        let tag = addr & self.tag_mask;
        let b = 4 * index;
        let mut w: usize = 0;
        while w < 4
            invariant
                self.wf(),
                w <= 4,
                b == 4 * old(self).set_of(addr),
                tag == old(self).tag_of(addr),
                0 <= old(self).set_of(addr) < old(self).sets(),
                self.num_sets == old(self).num_sets,
                self.index_mask == old(self).index_mask,
                self.tag_mask == old(self).tag_mask,
                self.data == old(self).data,
                forall|l: int| 0 <= l < 4 * old(self).sets() ==> #[trigger] self.tags@[l] == (
                    if b <= l < b + w && old(self).tags@[l] == tag { INVALID } else { old(self).tags@[l] }),
                forall|l: int| 0 <= l < 4 * old(self).sets() ==> #[trigger] self.dirty@[l] == (
                    if b <= l < b + w && old(self).tags@[l] == tag { false } else { old(self).dirty@[l] }),
            decreases 4 - w,
        {
            if self.tags[b + w] == tag {
                self.invalidate(b + w);
            }
            w = w + 1;
        }
    }

    /// Invalidate way `set` of set `index`.
    pub fn invalidate_set_line(&mut self, set: u32, index: u32)
        requires
            old(self).wf(),
            set < 4,
            index < old(self).sets(),
        ensures
            final(self).wf(),
            final(self).sets() == old(self).sets(),
            forall|l: int| 0 <= l < 4 * old(self).sets() ==> #[trigger] final(self).line_tag(l) == (
                if l == 4 * index + set { INVALID } else { old(self).line_tag(l) }),
            forall|l: int| 0 <= l < 4 * old(self).sets() ==> #[trigger] final(self).line_dirty(l) == (
                if l == 4 * index + set { false } else { old(self).line_dirty(l) }),
            forall|l: int| 0 <= l < 4 * final(self).sets() ==> #[trigger] final(self).line_data(l) == old(self).line_data(l),
    {
        self.invalidate(4 * (index as usize) + set as usize);
    }

    /// Same geometry, tags, replacement state, and lines other than `l`.
    pub open spec fn same_but_line(&self, old: &Self, l: int) -> bool {
        &&& self.wf()
        &&& self.sets() == old.sets()
        &&& forall|a: u32| #[trigger] self.set_of(a) == old.set_of(a) && self.tag_of(a) == old.tag_of(a)
        &&& forall|s: int| 0 <= s < self.sets() ==> #[trigger] self.replace_way(s) == old.replace_way(s)
        &&& forall|k: int| 0 <= k < 4 * self.sets() ==> #[trigger] self.line_tag(k) == old.line_tag(k)
        &&& forall|k: int| 0 <= k < 4 * self.sets() && k != l ==> #[trigger] self.line_dirty(k) == old.line_dirty(k)
        &&& forall|k: int| 0 <= k < 4 * self.sets() && k != l ==> #[trigger] self.line_data(k) == old.line_data(k)
    }

    /// Write bytes inside line `l` only.
    proof fn lemma_write_in_line(&self, old: &Self, l: int)
        requires
            old.wf(),
            0 <= l < 4 * old.sets(),
            self.data@.len() == old.data@.len(),
            forall|i: int| 0 <= i < old.data@.len() && !(32 * l <= i < 32 * l + 32) ==> #[trigger] self.data@[i] == old.data@[i],
        ensures
            forall|k: int| 0 <= k < 4 * old.sets() && k != l ==> #[trigger] self.line_data(k) == old.line_data(k),
    {
        assert forall|k: int| 0 <= k < 4 * old.sets() && k != l implies #[trigger] self.line_data(k) == old.line_data(k) by {
            assert(self.line_data(k) =~= old.line_data(k));
        }
    }

    pub fn read_byte(&self, addr: u32) -> (r: Option<u8>)
        requires
            self.wf(),
        ensures
            r == match self.hit_line(addr) {
                Some(l) => Some(self.line_data(l)[(addr % 32) as int]),
                None => None,
            },
    {
        match self.lookup(addr) {
            Some(l) => Some(self.data.read_byte((32 * l) as u32 + addr % 32)),
            None => None,
        }
    }

    pub fn write_byte(&mut self, addr: u32, data: u8) -> (r: bool)
        requires
            old(self).wf(),
        ensures
            r == old(self).hit_line(addr) is Some,
            match old(self).hit_line(addr) {
                Some(l) => {
                    &&& final(self).same_but_line(old(self), l)
                    &&& final(self).line_dirty(l)
                    &&& final(self).line_data(l) == old(self).line_data(l).update((addr % 32) as int, data)
                },
                None => *final(self) == *old(self),
            },
    {
        match self.lookup(addr) {
            Some(l) => {
                self.data.write_byte((32 * l) as u32 + addr % 32, data);
                self.dirty.set(l, true);
                proof {
                    self.lemma_write_in_line(old(self), l as int);
                    assert(self.line_data(l as int) =~= old(self).line_data(l as int).update((addr % 32) as int, data));
                }
                true
            },
            None => false,
        }
    }

    pub fn read_halfword(&self, addr: u32) -> (r: Option<u16>)
        requires
            self.wf(),
            addr % 32 <= 30,
        ensures
            r == match self.hit_line(addr) {
                Some(l) => Some(spec_le16(self.line_data(l), (addr % 32) as int)),
                None => None,
            },
    {
        match self.lookup(addr) {
            Some(l) => Some(self.data.read_halfword((32 * l) as u32 + addr % 32)),
            None => None,
        }
    }

    pub fn write_halfword(&mut self, addr: u32, data: u16) -> (r: bool)
        requires
            old(self).wf(),
            addr % 32 <= 30,
        ensures
            r == old(self).hit_line(addr) is Some,
            match old(self).hit_line(addr) {
                Some(l) => {
                    &&& final(self).same_but_line(old(self), l)
                    &&& final(self).line_dirty(l)
                    &&& final(self).line_data(l) == spec_write_le16(old(self).line_data(l), (addr % 32) as int, data)
                },
                None => *final(self) == *old(self),
            },
    {
        match self.lookup(addr) {
            Some(l) => {
                self.data.write_halfword((32 * l) as u32 + addr % 32, data);
                self.dirty.set(l, true);
                proof {
                    self.lemma_write_in_line(old(self), l as int);
                    assert(self.line_data(l as int) =~= spec_write_le16(old(self).line_data(l as int), (addr % 32) as int, data));
                }
                true
            },
            None => false,
        }
    }

    pub fn read_word(&self, addr: u32) -> (r: Option<u32>)
        requires
            self.wf(),
            addr % 32 <= 28,
        ensures
            r == match self.hit_line(addr) {
                Some(l) => Some(spec_le32(self.line_data(l), (addr % 32) as int)),
                None => None,
            },
    {
        match self.lookup(addr) {
            Some(l) => Some(self.data.read_word((32 * l) as u32 + addr % 32)),
            None => None,
        }
    }

    pub fn write_word(&mut self, addr: u32, data: u32) -> (r: bool)
        requires
            old(self).wf(),
            addr % 32 <= 28,
        ensures
            r == old(self).hit_line(addr) is Some,
            match old(self).hit_line(addr) {
                Some(l) => {
                    &&& final(self).same_but_line(old(self), l)
                    &&& final(self).line_dirty(l)
                    &&& final(self).line_data(l) == spec_write_le32(old(self).line_data(l), (addr % 32) as int, data)
                },
                None => *final(self) == *old(self),
            },
    {
        match self.lookup(addr) {
            Some(l) => {
                self.data.write_word((32 * l) as u32 + addr % 32, data);
                self.dirty.set(l, true);
                proof {
                    self.lemma_write_in_line(old(self), l as int);
                    assert(self.line_data(l as int) =~= spec_write_le32(old(self).line_data(l as int), (addr % 32) as int, data));
                }
                true
            },
            None => false,
        }
    }

    /// If line `l` is dirty, mark it clean and copy its first words out.
    /// Returns the tag of the data copied.
    fn ref_dirty_data(&mut self, l: usize, data_out: &mut [u32]) -> (r: Option<u32>)
        requires
            old(self).wf(),
            l < 4 * old(self).sets(),
            old(data_out)@.len() <= 8,
        ensures
            final(self).same_but_line(old(self), l as int),
            final(self).tags@ == old(self).tags@,
            final(self).dirty@ == old(self).dirty@.update(l as int, false),
            final(self).replace == old(self).replace,
            final(self).data == old(self).data,
            final(self).index_mask == old(self).index_mask,
            final(self).tag_mask == old(self).tag_mask,
            final(self).num_sets == old(self).num_sets,
            final(self).set_bits == old(self).set_bits,
            final(self).line_data(l as int) == old(self).line_data(l as int),
            !final(self).line_dirty(l as int),
            final(data_out)@.len() == old(data_out)@.len(),
            old(self).line_dirty(l as int) ==> r == Some(old(self).line_tag(l as int))
                && final(data_out)@ == line_words(old(self).line_data(l as int), old(data_out)@.len()),
            !old(self).line_dirty(l as int) ==> r is None && final(data_out)@ == old(data_out)@,
    {
        if self.dirty[l] {
            self.dirty.set(l, false);
            let n = data_out.len();
            let mut i: usize = 0;
            while i < n
                invariant
                    self.wf(),
                    self.data == old(self).data,
                    l < 4 * self.num_sets,
                    i <= n,
                    n <= 8,
                    data_out@.len() == n,
                    forall|j: int| 0 <= j < i ==> data_out@[j] == spec_le32(old(self).line_data(l as int), 4 * j),
                decreases n - i,
            {
                let w = self.data.read_word((32 * l + 4 * i) as u32);
                data_out[i] = w;
                i = i + 1;
            }
            proof {
                assert(data_out@ =~= line_words(old(self).line_data(l as int), n as nat));
            }
            Some(self.tags[l])
        } else {
            None
        }
    }

    /// Replace line `l` with new data under `tag`.
    fn fill(&mut self, l: usize, tag: u32, words: &[u32])
        requires
            old(self).wf(),
            l < 4 * old(self).sets(),
            words@.len() <= 8,
        ensures
            final(self).wf(),
            final(self).sets() == old(self).sets(),
            final(self).tags@ == old(self).tags@.update(l as int, tag),
            final(self).dirty@ == old(self).dirty@.update(l as int, false),
            final(self).replace == old(self).replace,
            final(self).index_mask == old(self).index_mask,
            final(self).tag_mask == old(self).tag_mask,
            final(self).num_sets == old(self).num_sets,
            final(self).set_bits == old(self).set_bits,
            forall|a: u32| #[trigger] final(self).set_of(a) == old(self).set_of(a) && final(self).tag_of(a) == old(self).tag_of(a),
            forall|s: int| 0 <= s < final(self).sets() ==> #[trigger] final(self).replace_way(s) == old(self).replace_way(s),
            forall|k: int| 0 <= k < 4 * final(self).sets() ==> #[trigger] final(self).line_tag(k) == (if k == l { tag } else { old(self).line_tag(k) }),
            forall|k: int| 0 <= k < 4 * final(self).sets() ==> #[trigger] final(self).line_dirty(k) == (if k == l { false } else { old(self).line_dirty(k) }),
            forall|k: int| 0 <= k < 4 * final(self).sets() && k != l ==> #[trigger] final(self).line_data(k) == old(self).line_data(k),
            final(self).line_data(l as int) == filled(old(self).line_data(l as int), words@),
    {
        self.dirty.set(l, false);
        self.tags.set(l, tag);
        let n = words.len();
        let mut i: usize = 0;
        while i < n
            invariant
                self.wf(),
                self.num_sets == old(self).num_sets,
                self.index_mask == old(self).index_mask,
                self.tag_mask == old(self).tag_mask,
                self.replace == old(self).replace,
                self.set_bits == old(self).set_bits,
                self.tags@ == old(self).tags@.update(l as int, tag),
                self.dirty@ == old(self).dirty@.update(l as int, false),
                l < 4 * self.num_sets,
                i <= n,
                n == words@.len(),
                n <= 8,
                self.data@.len() == old(self).data@.len(),
                self.line_data(l as int) == filled(old(self).line_data(l as int), words@.subrange(0, i as int)),
                forall|j: int| 0 <= j < old(self).data@.len() && !(32 * l <= j < 32 * l + 32) ==> #[trigger] self.data@[j] == old(self).data@[j],
            decreases n - i,
        {
            let ghost before = self.line_data(l as int);
            let ghost before_all = self.data@;
            let a = (32 * l + 4 * i) as u32;
            assert(a as int == 32 * l + 4 * i);
            proof {
                lemma_word_write_read(before_all, a as int, words@[i as int]);
            }
            self.data.write_word(a, words[i]);
            assert(self.data@ == spec_write_le32(before_all, a as int, words@[i as int]));
            assert forall|j: int| 0 <= j < old(self).data@.len() && !(32 * l <= j < 32 * l + 32) implies #[trigger] self.data@[j] == old(self).data@[j] by {
                assert(!(a <= j < a + 4));
                assert(before_all.len() == old(self).data@.len());
                assert(spec_write_le32(before_all, a as int, words@[i as int])[j] == before_all[j]);
            }
            proof {
                assert(self.line_data(l as int) =~= spec_write_le32(before, 4 * i, words@[i as int]));
                assert(filled(old(self).line_data(l as int), words@.subrange(0, i + 1)) =~= spec_write_le32(before, 4 * i, words@[i as int]));
            }
            i = i + 1;
        }
        proof {
            assert(words@.subrange(0, n as int) =~= words@);
            self.lemma_write_in_line(old(self), l as int);
        }
    }

    /// If the address hits a dirty line, mark it clean and copy its words out.
    /// Returns whether data was copied.
    pub fn clean_line(&mut self, addr: u32, buffer: &mut [u32]) -> (r: bool)
        requires
            old(self).wf(),
            old(buffer)@.len() <= 8,
        ensures
            final(buffer)@.len() == old(buffer)@.len(),
            match old(self).hit_line(addr) {
                Some(l) => {
                    &&& final(self).same_but_line(old(self), l)
                    &&& final(self).line_data(l) == old(self).line_data(l)
                    &&& !final(self).line_dirty(l)
                    &&& r == old(self).line_dirty(l)
                    &&& r ==> final(buffer)@ == line_words(old(self).line_data(l), old(buffer)@.len())
                    &&& !r ==> final(buffer)@ == old(buffer)@
                },
                None => !r && *final(self) == *old(self) && final(buffer)@ == old(buffer)@,
            },
    {
        match self.lookup(addr) {
            Some(l) => self.ref_dirty_data(l, buffer).is_some(),
            None => false,
        }
    }

    /// Clean way `set` of set `index`: if dirty, mark it clean, copy its
    /// words out and return its tag.
    pub fn clean_set_line(&mut self, set: u32, index: u32, buffer: &mut [u32]) -> (r: Option<u32>)
        requires
            old(self).wf(),
            set < 4,
            index < old(self).sets(),
            old(buffer)@.len() <= 8,
        ensures
            ({
                let l = 4 * index + set;
                &&& final(self).same_but_line(old(self), l)
                &&& final(self).line_data(l) == old(self).line_data(l)
                &&& !final(self).line_dirty(l)
                &&& final(buffer)@.len() == old(buffer)@.len()
                &&& old(self).line_dirty(l) ==> r == Some(old(self).line_tag(l))
                    && final(buffer)@ == line_words(old(self).line_data(l), old(buffer)@.len())
                &&& !old(self).line_dirty(l) ==> r is None && final(buffer)@ == old(buffer)@
            }),
    {
        self.ref_dirty_data(4 * (index as usize) + set as usize, buffer)
    }

    /// Invalidate the line the address hits, copying its words out first
    /// if it was dirty. Returns whether data was copied.
    pub fn clean_and_invalidate_line(&mut self, addr: u32, buffer: &mut [u32]) -> (r: bool)
        requires
            old(self).wf(),
            old(buffer)@.len() <= 8,
        ensures
            final(buffer)@.len() == old(buffer)@.len(),
            final(self).wf(),
            final(self).sets() == old(self).sets(),
            match old(self).hit_line(addr) {
                Some(l) => {
                    &&& final(self).line_tag(l) == INVALID
                    &&& !final(self).line_dirty(l)
                    &&& forall|k: int| 0 <= k < 4 * old(self).sets() && k != l ==> #[trigger] final(self).line_tag(k) == old(self).line_tag(k)
                        && final(self).line_dirty(k) == old(self).line_dirty(k)
                    &&& forall|k: int| 0 <= k < 4 * old(self).sets() ==> #[trigger] final(self).line_data(k) == old(self).line_data(k)
                    &&& r == old(self).line_dirty(l)
                    &&& r ==> final(buffer)@ == line_words(old(self).line_data(l), old(buffer)@.len())
                    &&& !r ==> final(buffer)@ == old(buffer)@
                },
                None => !r && *final(self) == *old(self) && final(buffer)@ == old(buffer)@,
            },
    {
        match self.lookup(addr) {
            Some(l) => {
                let copied = self.ref_dirty_data(l, buffer);
                self.invalidate(l);
                copied.is_some()
            },
            None => false,
        }
    }

    /// Invalidate way `set` of set `index`, copying its words out first and
    /// returning its tag if it was dirty.
    pub fn clean_and_invalidate_set_line(&mut self, set: u32, index: u32, buffer: &mut [u32]) -> (r: Option<u32>)
        requires
            old(self).wf(),
            set < 4,
            index < old(self).sets(),
            old(buffer)@.len() <= 8,
        ensures
            final(self).wf(),
            final(self).sets() == old(self).sets(),
            final(buffer)@.len() == old(buffer)@.len(),
            ({
                let l = 4 * index + set;
                &&& final(self).line_tag(l) == INVALID
                &&& !final(self).line_dirty(l)
                &&& forall|k: int| 0 <= k < 4 * old(self).sets() && k != l ==> #[trigger] final(self).line_tag(k) == old(self).line_tag(k)
                    && final(self).line_dirty(k) == old(self).line_dirty(k)
                &&& forall|k: int| 0 <= k < 4 * old(self).sets() ==> #[trigger] final(self).line_data(k) == old(self).line_data(k)
                &&& old(self).line_dirty(l) ==> r == Some(old(self).line_tag(l))
                    && final(buffer)@ == line_words(old(self).line_data(l), old(buffer)@.len())
                &&& !old(self).line_dirty(l) ==> r is None && final(buffer)@ == old(buffer)@
            }),
    {
        let l = 4 * (index as usize) + set as usize;
        let copied = self.ref_dirty_data(l, buffer);
        self.invalidate(l);
        copied
    }

    /// Fill the next line to replace in the address's set with new data,
    /// and advance the set's replacement counter.
    pub fn fill_line(&mut self, addr: u32, data: &[u32])
        requires
            old(self).wf(),
            data@.len() <= 8,
        ensures
            final(self).wf(),
            final(self).sets() == old(self).sets(),
            ({
                let s = old(self).set_of(addr);
                let l = 4 * s + old(self).replace_way(s);
                &&& final(self).line_tag(l) == old(self).tag_of(addr)
                &&& !final(self).line_dirty(l)
                &&& final(self).line_data(l) == filled(old(self).line_data(l), data@)
                &&& final(self).replace_way(s) == (old(self).replace_way(s) + 1) % 4
                &&& forall|k: int| 0 <= k < 4 * old(self).sets() && k != l ==> #[trigger] final(self).line_tag(k) == old(self).line_tag(k)
                    && final(self).line_dirty(k) == old(self).line_dirty(k) && final(self).line_data(k) == old(self).line_data(k)
                &&& forall|t: int| 0 <= t < old(self).sets() && t != s ==> #[trigger] final(self).replace_way(t) == old(self).replace_way(t)
            }),
            forall|a: u32| #[trigger] final(self).set_of(a) == old(self).set_of(a) && final(self).tag_of(a) == old(self).tag_of(a),
    {
        proof {
            self.lemma_set_in_range(addr);
        }
        let index = ((addr & self.index_mask) >> 5) as usize;
        let tag = addr & self.tag_mask;
        let way = self.replace[index];
        self.fill(4 * index + way, tag, data);
        let ghost mid = *self;
        self.replace.set(index, (way + 1) % 4);
        assert forall|k: int| 0 <= k < 4 * self.sets() implies #[trigger] self.line_data(k) == mid.line_data(k)
            && self.line_tag(k) == mid.line_tag(k) && self.line_dirty(k) == mid.line_dirty(k) by {}
    }

    /// Fill the next line to replace, first copying out its old words if
    /// dirty. Returns the address of the copied data if there was any.
    pub fn clean_and_fill_line(&mut self, addr: u32, data_in: &[u32], data_out: &mut [u32]) -> (r: Option<u32>)
        requires
            old(self).wf(),
            data_in@.len() <= 8,
            old(data_out)@.len() <= 8,
        ensures
            final(self).wf(),
            final(self).sets() == old(self).sets(),
            final(data_out)@.len() == old(data_out)@.len(),
            ({
                let s = old(self).set_of(addr);
                let l = 4 * s + old(self).replace_way(s);
                &&& final(self).line_tag(l) == old(self).tag_of(addr)
                &&& !final(self).line_dirty(l)
                &&& final(self).line_data(l) == filled(old(self).line_data(l), data_in@)
                &&& final(self).replace_way(s) == (old(self).replace_way(s) + 1) % 4
                &&& forall|k: int| 0 <= k < 4 * old(self).sets() && k != l ==> #[trigger] final(self).line_tag(k) == old(self).line_tag(k)
                    && final(self).line_dirty(k) == old(self).line_dirty(k) && final(self).line_data(k) == old(self).line_data(k)
                &&& forall|t: int| 0 <= t < old(self).sets() && t != s ==> #[trigger] final(self).replace_way(t) == old(self).replace_way(t)
                &&& old(self).line_dirty(l) ==> r == Some(old(self).line_tag(l) | ((s as u32) << 5u32))
                    && final(data_out)@ == line_words(old(self).line_data(l), old(data_out)@.len())
                &&& !old(self).line_dirty(l) ==> r is None && final(data_out)@ == old(data_out)@
            }),
            forall|a: u32| #[trigger] final(self).set_of(a) == old(self).set_of(a) && final(self).tag_of(a) == old(self).tag_of(a),
    {
        proof {
            self.lemma_set_in_range(addr);
        }
        let index = ((addr & self.index_mask) >> 5) as u32;
        let tag = addr & self.tag_mask;
        let way = self.replace[index as usize];
        let l = 4 * (index as usize) + way;
        let dirty_tag = self.ref_dirty_data(l, data_out);
        self.fill(l, tag, data_in);
        let ghost mid = *self;
        self.replace.set(index as usize, (way + 1) % 4);
        assert forall|k: int| 0 <= k < 4 * self.sets() implies #[trigger] self.line_data(k) == mid.line_data(k)
            && self.line_tag(k) == mid.line_tag(k) && self.line_dirty(k) == mid.line_dirty(k) by {}
        match dirty_tag {
            Some(t) => Some(t | (index << 5)),
            None => None,
        }
    }
}


/// A word written to a cache line it hits reads back from the cache: the
/// address still hits the same line, which holds the word.
pub proof fn lemma_cache_write_read(pre: Cache, post: Cache, addr: u32, data: u32, l: int)
    requires
        pre.wf(),
        addr % 32 <= 28,
        pre.hit_line(addr) == Some(l),
        post.same_but_line(&pre, l),
        post.line_data(l) == spec_write_le32(pre.line_data(l), (addr % 32) as int, data),
    ensures
        post.hit_line(addr) == Some(l),
        spec_le32(post.line_data(l), (addr % 32) as int) == data,
{
    pre.lemma_set_in_range(addr);
    assert(post.set_of(addr) == pre.set_of(addr) && post.tag_of(addr) == pre.tag_of(addr));
    let b = 4 * pre.set_of(addr);
    assert(post.line_tag(b) == pre.line_tag(b));
    assert(post.line_tag(b + 1) == pre.line_tag(b + 1));
    assert(post.line_tag(b + 2) == pre.line_tag(b + 2));
    assert(post.line_tag(b + 3) == pre.line_tag(b + 3));
    assert(pre.line_data(l).len() == 32);
    crate::ram::lemma_word_write_read(pre.line_data(l), (addr % 32) as int, data);
}


impl Cache {
    /// An address and the start of its 32-byte line map to the same set
    /// and carry the same tag.
    pub proof fn lemma_line_base(&self, addr: u32)
        requires
            self.wf(),
        ensures
            self.set_of(addr & 0xFFFF_FFE0) == self.set_of(addr),
            self.tag_of(addr & 0xFFFF_FFE0) == self.tag_of(addr),
    {
        let k = self.set_bits;
        let m = self.index_mask;
        let t = self.tag_mask;
        assert(k <= 24 && m == ((1u32 << k) << 5u32) - 1 ==> ((addr & 0xFFFF_FFE0) & m) >> 5u32 == (addr
            & m) >> 5u32) by (bit_vector);
        assert(k <= 24 && m == ((1u32 << k) << 5u32) - 1 && t == 0xFFFF_FFFFu32 - m ==> (addr
            & 0xFFFF_FFE0) & t == addr & t) by (bit_vector);
    }

    /// Every line holds 32 bytes.
    pub proof fn lemma_line_len(&self, l: int)
        requires
            self.wf(),
            0 <= l < 4 * self.sets(),
        ensures
            self.line_data(l).len() == 32,
    {
    }

    /// The replacement way of a set is one of its four ways.
    pub proof fn lemma_replace_way(&self, s: int)
        requires
            self.wf(),
            0 <= s < self.sets(),
        ensures
            0 <= self.replace_way(s) < 4,
    {
    }
}

/// `post` is `pre` with the next line to replace in the set of `addr`
/// filled with `words` under the address's tag, the set's replacement
/// counter advanced, and every other line and set unchanged.
pub open spec fn line_filled(pre: Cache, post: Cache, addr: u32, words: Seq<u32>) -> bool {
    let s = pre.set_of(addr);
    let l = 4 * s + pre.replace_way(s);
    &&& post.wf()
    &&& post.sets() == pre.sets()
    &&& forall|a: u32| #[trigger] post.set_of(a) == pre.set_of(a) && post.tag_of(a) == pre.tag_of(a)
    &&& post.line_tag(l) == pre.tag_of(addr)
    &&& !post.line_dirty(l)
    &&& post.line_data(l) == filled(pre.line_data(l), words)
    &&& post.replace_way(s) == (pre.replace_way(s) + 1) % 4
    &&& forall|k: int| 0 <= k < 4 * pre.sets() && k != l ==> #[trigger] post.line_tag(k) == pre.line_tag(k)
        && post.line_dirty(k) == pre.line_dirty(k) && post.line_data(k) == pre.line_data(k)
    &&& forall|t: int| 0 <= t < pre.sets() && t != s ==> #[trigger] post.replace_way(t) == pre.replace_way(t)
}

/// After a miss, filling the address's line makes the address hit the
/// line that was filled.
pub proof fn lemma_fill_hits(pre: Cache, post: Cache, addr: u32, words: Seq<u32>)
    requires
        pre.wf(),
        pre.hit_line(addr) is None,
        line_filled(pre, post, addr, words),
    ensures
        post.hit_line(addr) == Some(4 * pre.set_of(addr) + pre.replace_way(pre.set_of(addr))),
{
    pre.lemma_set_in_range(addr);
    let s = pre.set_of(addr);
    pre.lemma_replace_way(s);
    let b = 4 * s;
    assert(post.set_of(addr) == s && post.tag_of(addr) == pre.tag_of(addr));
    assert(post.line_tag(b) == pre.line_tag(b) || b == b + pre.replace_way(s));
    assert(post.line_tag(b + 1) == pre.line_tag(b + 1) || b + 1 == b + pre.replace_way(s));
    assert(post.line_tag(b + 2) == pre.line_tag(b + 2) || b + 2 == b + pre.replace_way(s));
    assert(post.line_tag(b + 3) == pre.line_tag(b + 3) || b + 3 == b + pre.replace_way(s));
}


impl Cache {
    /// The addresses of one 32-byte line share its set and tag.
    pub proof fn lemma_same_line(&self, addr: u32, i: u32)
        requires
            self.wf(),
            i < 8,
        ensures
            self.set_of(((addr & 0xFFFF_FFE0) + 4 * i) as u32) == self.set_of(addr),
            self.tag_of(((addr & 0xFFFF_FFE0) + 4 * i) as u32) == self.tag_of(addr),
            ((addr & 0xFFFF_FFE0) + 4 * i) as u32 % 32 == 4 * i,
    {
        let k = self.set_bits;
        let m = self.index_mask;
        let t = self.tag_mask;
        assert(k <= 24 && m == ((1u32 << k) << 5u32) - 1 && t == 0xFFFF_FFFFu32 - m && i < 8 ==> ((((addr
            & 0xFFFF_FFE0) + 4 * i) as u32 & m) >> 5u32 == (addr & m) >> 5u32 && (((addr & 0xFFFF_FFE0) + 4
            * i) as u32 & t) == addr & t && (((addr & 0xFFFF_FFE0) + 4 * i) as u32) % 32 == 4 * i)) by (bit_vector);
    }
}

/// The bytes of a word, least significant first, make up the word.
proof fn lemma_word_bytes(v: u32)
    ensures
        word_byte(v, 0) + word_byte(v, 1) * 0x100 + word_byte(v, 2) * 0x1_0000 + word_byte(v, 3) * 0x100_0000 == v,
{
    assert((v % 0x100) + ((v / 0x100) % 0x100) * 0x100 + ((v / 0x1_0000) % 0x100) * 0x1_0000 + (v / 0x100_0000)
        * 0x100_0000 == v) by (nonlinear_arith);
}

/// After a miss, filling the line of `addr` with eight words makes each
/// word of that line read back from the cache.
pub proof fn lemma_fill_reads_back(pre: Cache, post: Cache, addr: u32, words: Seq<u32>, i: u32)
    requires
        pre.wf(),
        pre.hit_line(addr) is None,
        line_filled(pre, post, addr, words),
        words.len() == 8,
        i < 8,
    ensures
        ({
            let a = ((addr & 0xFFFF_FFE0) + 4 * i) as u32;
            &&& post.hit_line(a) == post.hit_line(addr)
            &&& post.hit_line(a) matches Some(l) && spec_le32(post.line_data(l), (a % 32) as int) == words[i as int]
        }),
{
    let a = ((addr & 0xFFFF_FFE0) + 4 * i) as u32;
    lemma_fill_hits(pre, post, addr, words);
    post.lemma_same_line(addr, i);
    let l = 4 * pre.set_of(addr) + pre.replace_way(pre.set_of(addr));
    let d = post.line_data(l);
    assert(d == filled(pre.line_data(l), words));
    pre.lemma_set_in_range(addr);
    pre.lemma_replace_way(pre.set_of(addr));
    pre.lemma_line_len(l);
    let b = 4 * (i as int);
    assert(d[b] == word_byte(words[i as int], 0));
    assert(d[b + 1] == word_byte(words[i as int], 1));
    assert(d[b + 2] == word_byte(words[i as int], 2));
    assert(d[b + 3] == word_byte(words[i as int], 3));
    lemma_word_bytes(words[i as int]);
}

} // verus!
