//! Per-channel sample FIFO of eight words, read a nybble at a time.
use vstd::prelude::*;

verus! {

pub const FIFO_SIZE: usize = 8;
pub const RELOAD_SIZE: usize = FIFO_SIZE / 2;

/// Ring buffer of sample words. `nybble` is the position inside the oldest word.
pub struct AudioFIFO {
    pub buffer: [u32; 8],
    pub len: usize,
    pub read: usize,
    pub write: usize,
    pub nybble: usize,
}

impl AudioFIFO {
    pub open spec fn wf(&self) -> bool {
        &&& self.len <= FIFO_SIZE
        &&& self.read < FIFO_SIZE
        &&& self.write == (self.read + self.len) % (FIFO_SIZE as int)
        &&& self.nybble < 8
    }

    /// The words held, oldest first.
    pub open spec fn contents(&self) -> Seq<u32> {
        Seq::new(self.len as nat, |i: int| self.buffer@[(self.read + i) % (FIFO_SIZE as int)])
    }

    pub fn new() -> (r: Self)
        ensures
            r.wf(),
            r.contents() == Seq::<u32>::empty(),
            r.nybble == 0,
            r.len == 0 && r.read == 0 && r.write == 0,
            r.buffer@ == Seq::new(8, |i: int| 0u32),
    {
        let r = AudioFIFO { buffer: [0; 8], len: 0, read: 0, write: 0, nybble: 0 };
        assert(r.contents() =~= Seq::<u32>::empty());
        assert(r.buffer@ =~= Seq::new(8, |i: int| 0u32));
        r
    }

    /// Current length of the FIFO.
    pub fn len(&self) -> (r: usize)
        ensures
            r == self.len,
    {
        self.len
    }

    pub fn clear(&mut self)
        ensures
            final(self).wf(),
            final(self).contents() == Seq::<u32>::empty(),
            final(self).nybble == 0,
            final(self).read == 0,
            forall|i: int| 0 <= i < 8 ==> final(self).buffer@[i] == 0,
    {
        let mut i: usize = 0;
        while i < FIFO_SIZE
            invariant
                i <= FIFO_SIZE,
                forall|j: int| 0 <= j < i ==> self.buffer@[j] == 0,
            decreases FIFO_SIZE - i,
        {
            self.buffer.set(i, 0);
            i = i + 1;
        }
        self.len = 0;
        self.read = 0;
        self.write = 0;
        self.nybble = 0;
        assert(self.contents() =~= Seq::<u32>::empty());
    }

    /// Append a word; when full, the oldest word is overwritten.
    #[verifier::spinoff_prover]
    #[verifier::rlimit(40)]
    pub fn push(&mut self, data: u32)
        requires
            old(self).wf(),
        ensures
            final(self).wf(),
            final(self).contents() == (if old(self).len == FIFO_SIZE {
                old(self).contents().drop_first().push(data)
            } else {
                old(self).contents().push(data)
            }),
            final(self).nybble == old(self).nybble,
    {
        let w = self.write;
        self.buffer.set(w, data);
        self.write = (self.write + 1) % FIFO_SIZE;
        if self.len == FIFO_SIZE {
            self.read = self.write;
            let ghost expect = old(self).contents().drop_first().push(data);
            assert forall|i: int| 0 <= i < 8 implies #[trigger] self.contents()[i] == expect[i] by {
                let r = old(self).read as int;
                assert(w == r);
                if i < 7 {
                    assert((r + 1 + i) % 8 != r);
                    assert(self.contents()[i] == self.buffer@[(r + 1 + i) % 8]);
                    assert(expect[i] == old(self).buffer@[(r + (i + 1)) % 8]);
                } else {
                    assert((r + 1 + i) % 8 == r);
                }
            }
            assert(self.contents() =~= expect);
        } else {
            self.len = self.len + 1;
            let ghost expect = old(self).contents().push(data);
            assert forall|i: int| 0 <= i < self.len implies #[trigger] self.contents()[i] == expect[i] by {
                let r = old(self).read as int;
                let n = old(self).len as int;
                if i < n {
                    assert((r + i) % 8 != (r + n) % 8);
                }
            }
            assert(self.contents() =~= expect);
        }
    }

    /// Drop the oldest word.
    fn pop(&mut self)
        requires
            old(self).wf(),
        ensures
            final(self).wf(),
            final(self).contents() == (if old(self).len > 0 {
                old(self).contents().drop_first()
            } else {
                old(self).contents()
            }),
            final(self).nybble == old(self).nybble,
            final(self).buffer == old(self).buffer,
            *final(self) == old(self).spec_pop(),
    {
        if self.len > 0 {
            self.read = (self.read + 1) % FIFO_SIZE;
            self.len = self.len - 1;
            assert(self.contents() =~= old(self).contents().drop_first());
        }
    }

    /// The FIFO after dropping its oldest word.
    pub open spec fn spec_pop(self) -> Self {
        if self.len > 0 {
            AudioFIFO { read: ((self.read + 1) % FIFO_SIZE as int) as usize, len: (self.len - 1) as usize, ..self }
        } else {
            self
        }
    }

    /// The FIFO after reading `step` nybbles of the oldest word.
    pub open spec fn spec_advance(self, step: usize) -> Self {
        if self.nybble + step == 8 {
            AudioFIFO { nybble: 0, ..self }.spec_pop()
        } else {
            AudioFIFO { nybble: (self.nybble + step) as usize, ..self }
        }
    }

    /// The bits `4 * nybble ..` of the oldest word.
    pub open spec fn current_bits(self) -> u32 {
        self.buffer@[self.read as int] >> (4 * self.nybble) as u32
    }

    /// Advance the read position by `step` nybbles, dropping the word when it
    /// is used up.
    pub open spec fn advanced(&self, step: int) -> (Seq<u32>, int) {
        if self.nybble + step == 8 {
            (self.contents().drop_first(), 0)
        } else {
            (self.contents(), self.nybble + step)
        }
    }

    /// Read the oldest value as PCM 8, and advance.
    pub fn sample_pcm_8(&mut self) -> (r: i8)
        requires
            old(self).wf(),
            old(self).nybble % 2 == 0,
        ensures
            final(self).wf(),
            old(self).len == 0 ==> r == 0 && *final(self) == *old(self),
            old(self).len > 0 ==> r == (((old(self).contents()[0] >> (4 * old(self).nybble) as u32) & 0xFF) as u8 as i8)
                && (final(self).contents(), final(self).nybble as int) == old(self).advanced(2),
            old(self).len > 0 ==> r == (old(self).current_bits() & 0xFF) as u8 as i8
                && *final(self) == old(self).spec_advance(2),
    {
        if self.len == 0 {
            0
        } else {
            let shift = (self.nybble * 4) as u32;
            let sample = (self.buffer[self.read] >> shift) & 0xFF;
            self.nybble = self.nybble + 2;
            if self.nybble == 8 {
                self.nybble = 0;
                self.pop();
            }
            sample as u8 as i8
        }
    }

    /// Read the oldest value as PCM 16, and advance.
    pub fn sample_pcm_16(&mut self) -> (r: i16)
        requires
            old(self).wf(),
            old(self).nybble % 4 == 0,
        ensures
            final(self).wf(),
            old(self).len == 0 ==> r == 0 && *final(self) == *old(self),
            old(self).len > 0 ==> r == (((old(self).contents()[0] >> (4 * old(self).nybble) as u32) & 0xFFFF) as u16 as i16)
                && (final(self).contents(), final(self).nybble as int) == old(self).advanced(4),
            old(self).len > 0 ==> r == (old(self).current_bits() & 0xFFFF) as u16 as i16
                && *final(self) == old(self).spec_advance(4),
    {
        if self.len == 0 {
            0
        } else {
            let shift = (self.nybble * 4) as u32;
            let sample = (self.buffer[self.read] >> shift) & 0xFFFF;
            self.nybble = self.nybble + 4;
            if self.nybble == 8 {
                self.nybble = 0;
                self.pop();
            }
            sample as u16 as i16
        }
    }

    /// Read the header of an ADPCM sample, and advance past it.
    /// Returns `None` if there is no data.
    pub fn get_adpcm_header(&mut self) -> (r: Option<u32>)
        requires
            old(self).wf(),
        ensures
            final(self).wf(),
            final(self).nybble == old(self).nybble,
            old(self).len == 0 ==> r is None && *final(self) == *old(self),
            old(self).len > 0 ==> r == Some(old(self).contents()[0])
                && final(self).contents() == old(self).contents().drop_first(),
            old(self).len > 0 ==> r == Some(old(self).buffer@[old(self).read as int])
                && *final(self) == old(self).spec_pop(),
    {
        if self.len == 0 {
            None
        } else {
            let header = self.buffer[self.read];
            self.pop();
            Some(header)
        }
    }

    /// Read the oldest value as a 4-bit ADPCM code, and advance.
    pub fn sample_adpcm(&mut self) -> (r: u8)
        requires
            old(self).wf(),
        ensures
            final(self).wf(),
            old(self).len == 0 ==> r == 0 && *final(self) == *old(self),
            old(self).len > 0 ==> r == (((old(self).contents()[0] >> (4 * old(self).nybble) as u32) & 0xF) as u8)
                && (final(self).contents(), final(self).nybble as int) == old(self).advanced(1),
            old(self).len > 0 ==> r == (old(self).current_bits() & 0xF) as u8
                && *final(self) == old(self).spec_advance(1),
    {
        if self.len == 0 {
            0
        } else {
            let shift = (self.nybble * 4) as u32;
            let sample = (self.buffer[self.read] >> shift) & 0xF;
            self.nybble = self.nybble + 1;
            if self.nybble == 8 {
                self.nybble = 0;
                self.pop();
            }
            sample as u8
        }
    }
}

} // verus!
