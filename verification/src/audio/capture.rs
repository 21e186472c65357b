//! Sound capture: mixer or channel output written back to memory by DMA.
use vstd::prelude::*;
use crate::bits::{spec_lo8, spec_hi8, lo8, hi8};

verus! {

pub const CAPTURE_START: u8 = 1 << 7;
pub const CAPTURE_FORMAT: u8 = 1 << 3;
pub const CAPTURE_ONE_SHOT: u8 = 1 << 2;
pub const CAPTURE_SOURCE: u8 = 1 << 1;
pub const CAPTURE_ADD: u8 = 1 << 0;
/// Every defined control bit.
pub const CAPTURE_ALL: u8 = 0x8F;

pub const CAPTURE_FIFO_SIZE: usize = 32;
pub const DMA_SIZE: usize = CAPTURE_FIFO_SIZE / 2;

/// The FIFO contents after a push: when full, the oldest byte is dropped.
pub open spec fn pushed(c: Seq<u8>, x: u8) -> Seq<u8> {
    if c.len() >= CAPTURE_FIFO_SIZE {
        c.drop_first().push(x)
    } else {
        c.push(x)
    }
}

/// Ring buffer of captured bytes.
pub struct CaptureFIFO {
    pub buffer: [u8; 32],
    pub len: usize,
    pub read: usize,
    pub write: usize,
}

impl CaptureFIFO {
    pub open spec fn wf(&self) -> bool {
        &&& self.len <= CAPTURE_FIFO_SIZE
        &&& self.read < CAPTURE_FIFO_SIZE
        &&& self.write == (self.read + self.len) % (CAPTURE_FIFO_SIZE as int)
    }

    /// The bytes held, oldest first.
    pub open spec fn contents(&self) -> Seq<u8> {
        Seq::new(self.len as nat, |i: int| self.buffer@[(self.read + i) % (CAPTURE_FIFO_SIZE as int)])
    }

    pub fn new() -> (r: Self)
        ensures
            r.wf(),
            r.contents() == Seq::<u8>::empty(),
            r.len == 0 && r.read == 0 && r.write == 0,
            r.buffer@ == Seq::new(32, |i: int| 0u8),
    {
        let r = CaptureFIFO { buffer: [0; 32], len: 0, read: 0, write: 0 };
        assert(r.contents() =~= Seq::<u8>::empty());
        assert(r.buffer@ =~= Seq::new(32, |i: int| 0u8));
        r
    }

    /// Current length of the FIFO.
    pub fn len(&self) -> (r: usize)
        ensures
            r == self.len,
    {
        self.len
    }

    pub fn clear(&mut self)
        ensures
            final(self).wf(),
            final(self).contents() == Seq::<u8>::empty(),
            final(self).read == 0,
            forall|i: int| 0 <= i < 32 ==> final(self).buffer@[i] == 0,
    {
        let mut i: usize = 0;
        while i < CAPTURE_FIFO_SIZE
            invariant
                i <= CAPTURE_FIFO_SIZE,
                forall|j: int| 0 <= j < i ==> self.buffer@[j] == 0,
            decreases CAPTURE_FIFO_SIZE - i,
        {
            self.buffer.set(i, 0);
            i = i + 1;
        }
        self.len = 0;
        self.read = 0;
        self.write = 0;
        assert(self.contents() =~= Seq::<u8>::empty());
    }

    /// Append a byte; when full, the oldest byte is overwritten.
    #[verifier::rlimit(40)]
    pub fn push(&mut self, data: u8)
        requires
            old(self).wf(),
        ensures
            final(self).wf(),
            final(self).contents() == pushed(old(self).contents(), data),
    {
        let w = self.write;
        self.buffer.set(w, data);
        self.write = (self.write + 1) % CAPTURE_FIFO_SIZE;
        if self.len == CAPTURE_FIFO_SIZE {
            self.read = self.write;
            let ghost expect = old(self).contents().drop_first().push(data);
            assert forall|i: int| 0 <= i < 32 implies #[trigger] self.contents()[i] == expect[i] by {
                let r = old(self).read as int;
                if i < 31 {
                    assert((r + 1 + i) % 32 != r);
                    assert(self.contents()[i] == self.buffer@[(r + 1 + i) % 32]);
                    assert(expect[i] == old(self).buffer@[(r + (i + 1)) % 32]);
                } else {
                    assert((r + 1 + i) % 32 == r);
                }
            }
            assert(self.contents() =~= expect);
        } else {
            self.len = self.len + 1;
            let ghost expect = old(self).contents().push(data);
            assert forall|i: int| 0 <= i < self.len implies #[trigger] self.contents()[i] == expect[i] by {
                let r = old(self).read as int;
                let n = old(self).len as int;
                if i < n {
                    assert((r + i) % 32 != (r + n) % 32);
                }
            }
            assert(self.contents() =~= expect);
        }
    }

    /// Remove and return the oldest byte, or zero when empty.
    pub fn pop(&mut self) -> (r: u8)
        requires
            old(self).wf(),
        ensures
            final(self).wf(),
            old(self).len == 0 ==> r == 0 && *final(self) == *old(self),
            old(self).len > 0 ==> r == old(self).contents()[0] && final(self).contents() == old(self).contents().drop_first(),
    {
        if self.len > 0 {
            let data = self.buffer[self.read];
            self.read = (self.read + 1) % CAPTURE_FIFO_SIZE;
            self.len = self.len - 1;
            assert(self.contents() =~= old(self).contents().drop_first());
            data
        } else {
            0
        }
    }
}

/// Sound capture unit.
pub struct AudioCaptureUnit {
    pub control: u8,
    pub dst_addr: u32,
    pub len: u32,
    pub fifo: CaptureFIFO,
    pub current_addr: u32,
    pub count: u32,
    pub end: u32,
}

impl AudioCaptureUnit {
    pub open spec fn wf(&self) -> bool {
        self.fifo.wf() && self.len <= 0xFFFF
    }

    pub fn new() -> (r: Self)
        ensures
            r.wf(),
            r.control == 0 && r.dst_addr == 0 && r.len == 0,
            r.fifo.contents() == Seq::<u8>::empty(),
            r.fifo.len == 0 && r.fifo.read == 0 && r.fifo.write == 0,
            r.fifo.buffer@ == Seq::new(32, |i: int| 0u8),
            r.current_addr == 0 && r.count == 0 && r.end == 0,
    {
        AudioCaptureUnit {
            control: 0,
            dst_addr: 0,
            len: 0,
            fifo: CaptureFIFO::new(),
            current_addr: 0,
            count: 0,
            end: 0,
        }
    }

    /// Restart the capture at the destination.
    fn reset(&mut self)
        requires
            old(self).wf(),
        ensures
            final(self).wf(),
            *final(self) == (AudioCaptureUnit {
                current_addr: old(self).dst_addr,
                count: 0,
                end: (old(self).len * 4) as u32,
                ..*old(self)
            }),
    {
        self.current_addr = self.dst_addr;
        self.count = 0;
        self.end = self.len * 4;
    }

    /// At the end: a one-shot capture stops, else it restarts.
    pub open spec fn spec_stop(self) -> Self {
        if self.control & CAPTURE_ONE_SHOT != 0 {
            AudioCaptureUnit { control: self.control & !CAPTURE_START, ..self }
        } else {
            AudioCaptureUnit { current_addr: self.dst_addr, count: 0, end: (self.len * 4) as u32, ..self }
        }
    }

    fn stop(&mut self)
        requires
            old(self).wf(),
        ensures
            final(self).wf(),
            *final(self) == old(self).spec_stop(),
    {
        if (self.control & CAPTURE_ONE_SHOT) != 0 {
            self.control = self.control & !CAPTURE_START;
        } else {
            self.reset();
        }
    }

    /// What a control write does: setting the start bit empties the FIFO
    /// and restarts the capture at the destination.
    pub open spec fn control_written(pre: Self, post: Self, data: u8) -> bool {
        &&& post.control == data & CAPTURE_ALL
        &&& (data & CAPTURE_ALL & CAPTURE_START) != 0 ==> post.fifo.contents() == Seq::<u8>::empty()
            && post.current_addr == pre.dst_addr && post.count == 0 && post.end == pre.len * 4
            && post.dst_addr == pre.dst_addr && post.len == pre.len
        &&& (data & CAPTURE_ALL & CAPTURE_START) == 0 ==> post == (AudioCaptureUnit {
            control: data & CAPTURE_ALL,
            ..pre
        })
    }

    /// Write the control register.
    pub fn write_control(&mut self, data: u8)
        requires
            old(self).wf(),
        ensures
            final(self).wf(),
            Self::control_written(*old(self), *final(self), data),
    {
        self.control = data & CAPTURE_ALL;
        if (self.control & CAPTURE_START) != 0 {
            self.fifo.clear();
            self.reset();
        }
    }

    pub fn write_dest(&mut self, data: u32)
        ensures
            *final(self) == (AudioCaptureUnit { dst_addr: data & 0x7FF_FFFC, ..*old(self) }),
    {
        self.dst_addr = data & 0x7FF_FFFC;
    }

    /// Write the length in words; zero means one.
    pub fn write_len(&mut self, data: u32)
        requires
            old(self).wf(),
        ensures
            final(self).wf(),
            *final(self) == (AudioCaptureUnit {
                len: if data == 0 { 1 } else { data & 0xFFFF },
                ..*old(self)
            }),
    {
        if data == 0 {
            self.len = 1;
        } else {
            proof {
                crate::bits::lemma_and_le32(data, 0xFFFF);
            }
            self.len = data & 0xFFFF;
        }
    }

    /// Write a PCM 8 sample to the FIFO.
    /// What writing a sample does: the bytes pushed, the count, a stop at
    /// the end, and whether a transfer is wanted.
    pub open spec fn write8_rel(pre: Self, post: Self, data: i8, r: bool) -> bool {
        &&& post.fifo.contents() == pushed(pre.fifo.contents(), data as u8)
        &&& ({
            let counted = AudioCaptureUnit { fifo: post.fifo, count: pre.count.wrapping_add(1), ..pre };
            if counted.count >= counted.end {
                r && post == counted.spec_stop()
            } else {
                r == (post.fifo.len > DMA_SIZE) && post == counted
            }
        })
    }

    /// Returns true if a transfer is needed.
    pub fn write_fifo_pcm_8(&mut self, data: i8) -> (r: bool)
        requires
            old(self).wf(),
        ensures
            final(self).wf(),
            Self::write8_rel(*old(self), *final(self), data, r),
    {
        self.fifo.push(data as u8);
        self.count = self.count.wrapping_add(1);
        if self.count >= self.end {
            self.stop();
            true
        } else {
            self.fifo.len() > DMA_SIZE
        }
    }

    /// Write a PCM 16 sample to the FIFO, low byte first.
    /// What writing a sample does: the bytes pushed, the count, a stop at
    /// the end, and whether a transfer is wanted.
    pub open spec fn write16_rel(pre: Self, post: Self, data: i16, r: bool) -> bool {
        &&& post.fifo.contents() == pushed(pushed(pre.fifo.contents(), spec_lo8(data as u16)), spec_hi8(data as u16))
        &&& ({
            let counted = AudioCaptureUnit { fifo: post.fifo, count: pre.count.wrapping_add(2), ..pre };
            if counted.count >= counted.end {
                r && post == counted.spec_stop()
            } else {
                r == (post.fifo.len > DMA_SIZE) && post == counted
            }
        })
    }

    /// Returns true if a transfer is needed.
    pub fn write_fifo_pcm_16(&mut self, data: i16) -> (r: bool)
        requires
            old(self).wf(),
        ensures
            final(self).wf(),
            Self::write16_rel(*old(self), *final(self), data, r),
    {
        self.fifo.push(lo8(data as u16));
        self.fifo.push(hi8(data as u16));
        self.count = self.count.wrapping_add(2);
        if self.count >= self.end {
            self.stop();
            true
        } else {
            self.fifo.len() > DMA_SIZE
        }
    }

    /// The destination address for a DMA transfer; it advances a word.
    pub fn get_dma_addr(&mut self) -> (r: u32)
        ensures
            r == old(self).current_addr,
            *final(self) == (AudioCaptureUnit { current_addr: old(self).current_addr.wrapping_add(4), ..*old(self) }),
    {
        let addr = self.current_addr;
        self.current_addr = self.current_addr.wrapping_add(4);
        addr
    }

    /// Read a word from the FIFO for DMA: four bytes, oldest lowest; missing
    /// bytes read as zero.
    /// What reading a word does: the four oldest bytes, little-endian
    /// (missing ones read 0), taken out.
    pub open spec fn fifo_read(pre: Self, post: Self, r: u32) -> bool {
        &&& ({
            let c = pre.fifo.contents();
            let b = |i: int| if i < c.len() { c[i] as int } else { 0 };
            &&& r == b(0) + b(1) * 0x100 + b(2) * 0x1_0000 + b(3) * 0x100_0000
            &&& post.fifo.contents() == (if c.len() >= 4 { c.subrange(4, c.len() as int) } else { Seq::<u8>::empty() })
        })
        &&& post == (AudioCaptureUnit { fifo: post.fifo, ..pre })
    }

    pub fn read_fifo(&mut self) -> (r: u32)
        requires
            old(self).wf(),
        ensures
            final(self).wf(),
            Self::fifo_read(*old(self), *final(self), r),
    {
        let ghost c = self.fifo.contents();
        let b0 = self.fifo.pop();
        let b1 = self.fifo.pop();
        let b2 = self.fifo.pop();
        let b3 = self.fifo.pop();
        proof {
            if c.len() >= 4 {
                assert(self.fifo.contents() =~= c.subrange(4, c.len() as int));
            } else {
                assert(self.fifo.contents() =~= Seq::<u8>::empty());
            }
        }
        (b0 as u32) + (b1 as u32) * 0x100 + (b2 as u32) * 0x1_0000 + (b3 as u32) * 0x100_0000
    }
}

} // verus!
