//! Little-endian byte-addressed memory.
use vstd::prelude::*;

verus! {

/// Plain memory of a fixed size, read and written little-endian.
pub struct Ram {
    mem: Vec<u8>,
}

impl View for Ram {
    type V = Seq<u8>;

    open spec fn view(&self) -> Seq<u8> {
        self.spec_mem()
    }
}

impl Ram {
    pub closed spec fn spec_mem(&self) -> Seq<u8> {
        self.mem@
    }

    /// New memory of `size` bytes, all zero.
    pub fn new(size: usize) -> (r: Self)
        ensures
            r@ == Seq::new(size as nat, |i: int| 0u8),
    {
        let mut mem: Vec<u8> = Vec::new();
        let mut i: usize = 0;
        while i < size
            invariant
                i <= size,
                mem@ == Seq::new(i as nat, |j: int| 0u8),
            decreases size - i,
        {
            mem.push(0);
            i = i + 1;
        }
        Ram { mem }
    }

    pub fn len(&self) -> (r: usize)
        ensures
            r == self@.len(),
    {
        self.mem.len()
    }

    pub fn read_byte(&self, addr: u32) -> (r: u8)
        requires
            addr < self@.len(),
        ensures
            r == self@[addr as int],
    {
        self.mem[addr as usize]
    }

    pub fn write_byte(&mut self, addr: u32, data: u8)
        requires
            addr < old(self)@.len(),
        ensures
            final(self)@ == old(self)@.update(addr as int, data),
    {
        self.mem.set(addr as usize, data);
    }

    pub fn read_halfword(&self, addr: u32) -> (r: u16)
        requires
            addr as int + 2 <= self@.len(),
        ensures
            r == spec_le16(self@, addr as int),
    {
        let _len = self.mem.len();
        let a = addr as usize;
        (self.mem[a] as u16) + (self.mem[a + 1] as u16) * 0x100
    }

    pub fn write_halfword(&mut self, addr: u32, data: u16)
        requires
            addr as int + 2 <= old(self)@.len(),
        ensures
            final(self)@ == spec_write_le16(old(self)@, addr as int, data),
    {
        let _len = self.mem.len();
        let a = addr as usize;
        self.mem.set(a, (data % 0x100) as u8);
        self.mem.set(a + 1, (data / 0x100) as u8);
    }

    pub fn read_word(&self, addr: u32) -> (r: u32)
        requires
            addr as int + 4 <= self@.len(),
        ensures
            r == spec_le32(self@, addr as int),
    {
        let _len = self.mem.len();
        let a = addr as usize;
        (self.mem[a] as u32) + (self.mem[a + 1] as u32) * 0x100 + (self.mem[a + 2] as u32)
            * 0x1_0000 + (self.mem[a + 3] as u32) * 0x100_0000
    }

    pub fn write_word(&mut self, addr: u32, data: u32)
        requires
            addr as int + 4 <= old(self)@.len(),
        ensures
            final(self)@ == spec_write_le32(old(self)@, addr as int, data),
    {
        let _len = self.mem.len();
        let a = addr as usize;
        self.mem.set(a, (data % 0x100) as u8);
        self.mem.set(a + 1, ((data / 0x100) % 0x100) as u8);
        self.mem.set(a + 2, ((data / 0x1_0000) % 0x100) as u8);
        self.mem.set(a + 3, (data / 0x100_0000) as u8);
    }
}

/// The half-word stored little-endian at `a`.
pub open spec fn spec_le16(s: Seq<u8>, a: int) -> u16 {
    (s[a] + s[a + 1] * 0x100) as u16
}

/// The word stored little-endian at `a`.
pub open spec fn spec_le32(s: Seq<u8>, a: int) -> u32 {
    (s[a] + s[a + 1] * 0x100 + s[a + 2] * 0x1_0000 + s[a + 3] * 0x100_0000) as u32
}

/// Memory after storing a half-word little-endian at `a`.
pub open spec fn spec_write_le16(s: Seq<u8>, a: int, v: u16) -> Seq<u8> {
    s.update(a, (v % 0x100) as u8).update(a + 1, (v / 0x100) as u8)
}

/// Memory after storing a word little-endian at `a`.
pub open spec fn spec_write_le32(s: Seq<u8>, a: int, v: u32) -> Seq<u8> {
    s.update(a, (v % 0x100) as u8).update(a + 1, ((v / 0x100) % 0x100) as u8).update(
        a + 2,
        ((v / 0x1_0000) % 0x100) as u8,
    ).update(a + 3, (v / 0x100_0000) as u8)
}

/// Reading a half-word gives back the half-word last written at that address,
/// and a write leaves every byte outside it unchanged.
pub proof fn lemma_halfword_write_read(s: Seq<u8>, a: int, v: u16)
    requires
        0 <= a,
        a + 2 <= s.len(),
    ensures
        spec_le16(spec_write_le16(s, a, v), a) == v,
        spec_write_le16(s, a, v).len() == s.len(),
        forall|i: int|
            0 <= i < s.len() && !(a <= i < a + 2) ==> #[trigger] spec_write_le16(s, a, v)[i]
                == s[i],
{
}

/// Reading a word gives back the word last written at that address,
/// and a write leaves every byte outside it unchanged.
pub proof fn lemma_word_write_read(s: Seq<u8>, a: int, v: u32)
    requires
        0 <= a,
        a + 4 <= s.len(),
    ensures
        spec_le32(spec_write_le32(s, a, v), a) == v,
        spec_write_le32(s, a, v).len() == s.len(),
        forall|i: int|
            0 <= i < s.len() && !(a <= i < a + 4) ==> #[trigger] spec_write_le32(s, a, v)[i]
                == s[i],
{
}

} // verus!
