//! Sound: channels, their sample generators, and capture.
pub mod adpcm;
pub mod capture;

pub mod channel;
pub mod fifo;
pub mod noise;
pub mod psg;

use vstd::prelude::*;
use crate::audio::channel::{AudioChannel, ChannelType, CHAN_START, shr_signed};
use crate::audio::capture::{
    AudioCaptureUnit, CAPTURE_START, CAPTURE_FORMAT, CAPTURE_SOURCE, CAPTURE_ADD,
};

verus! {

/// Sound control: master enable.
pub const SOUNDCNT_ENABLE: u32 = 0x8000;
/// Sound control: leave channel 3 out of the mixer.
pub const SOUNDCNT_MIX_CH3: u32 = 0x2000;
/// Sound control: leave channel 1 out of the mixer.
pub const SOUNDCNT_MIX_CH1: u32 = 0x1000;
/// Sound control: right output source, bits 10 and 11.
pub const SOUNDCNT_RIGHT_OUT: u32 = 0x0C00;
/// Sound control: left output source, bits 8 and 9.
pub const SOUNDCNT_LEFT_OUT: u32 = 0x0300;
/// Sound control: master volume, bits 0 to 6.
pub const SOUNDCNT_VOLUME: u32 = 0x007F;
/// Every defined bit of the sound control.
pub const SOUNDCNT_ALL: u32 = 0xBF7F;

/// Samples the audio thread takes at a time.
pub const SAMPLE_PACKET_SIZE: usize = 32;
/// Cycles per output sample.
pub const CYCLES_PER_SAMPLE: usize = 512;

/// A channel's panned sample, while it plays.
pub open spec fn sample_of(c: AudioChannel) -> Option<(i32, i32)> {
    if c.control & CHAN_START != 0 {
        Some(c.current_frame)
    } else {
        None
    }
}

/// The channel goes into the mixer: channels 1 and 3 can be left out.
pub open spec fn mixed_in(control: u32, i: int) -> bool {
    &&& i == 1 ==> control & SOUNDCNT_MIX_CH1 == 0
    &&& i == 3 ==> control & SOUNDCNT_MIX_CH3 == 0
}

/// The sum of the first `n` channels' samples that go into the mixer.
pub open spec fn mix_sum(chs: Seq<AudioChannel>, control: u32, n: nat) -> (int, int)
    decreases n,
{
    if n == 0 {
        (0, 0)
    } else {
        let (l, r) = mix_sum(chs, control, (n - 1) as nat);
        let i = n - 1;
        if mixed_in(control, i) && sample_of(chs[i]) is Some {
            (l + sample_of(chs[i]).unwrap().0, r + sample_of(chs[i]).unwrap().1)
        } else {
            (l, r)
        }
    }
}

/// An output's level before the master volume: the mixer, channel 1,
/// channel 3, or the mean of channels 1 and 3 (rounded down).
pub open spec fn out_level(sel: u32, mixer: int, ch1: int, ch3: int) -> int {
    if sel == 0 {
        mixer
    } else if sel == 1 {
        ch1
    } else if sel == 2 {
        ch3
    } else {
        (ch3 + ch1) / 2
    }
}

/// A level limited to the ten bits of the output.
pub open spec fn clip10(x: int) -> int {
    if x < 0 {
        0
    } else if x > 0x3FF {
        0x3FF
    } else {
        x
    }
}

/// A channel's sample, or silence.
pub open spec fn level_or_zero(s: Option<(i32, i32)>) -> (int, int) {
    match s {
        Some(p) => (p.0 as int, p.1 as int),
        None => (0, 0),
    }
}

/// The sound unit: sixteen channels, the mixer and two capture units.
pub struct DSAudio {
    pub control: u32,
    pub channels: Vec<AudioChannel>,
    pub bias: i32,
    pub capture: Vec<AudioCaptureUnit>,
    pub mixer_sample: (i32, i32),
    pub cycle_count: usize,
}

impl DSAudio {
    pub open spec fn wf(&self) -> bool {
        &&& self.channels@.len() == 16
        &&& self.capture@.len() == 2
        &&& forall|i: int| 0 <= i < 16 ==> #[trigger] self.channels@[i].wf()
        &&& forall|i: int| 0 <= i < 2 ==> #[trigger] self.capture@[i].wf()
        &&& 0 <= self.bias <= 0x3FF
        &&& -0x8000 <= self.mixer_sample.0 <= 0x8000
        &&& -0x8000 <= self.mixer_sample.1 <= 0x8000
    }

    /// Every channel reads its FIFO at a position that suits its format.
    pub open spec fn aligned(&self) -> bool {
        forall|i: int| 0 <= i < self.channels@.len() ==> #[trigger] self.channels@[i].nybble_aligned()
    }

    /// The mixer's output: the sum of the channels it takes, divided by 16
    /// (rounded down).
    pub open spec fn mixed(&self) -> (int, int) {
        let (l, r) = mix_sum(self.channels@, self.control, 16);
        (l / 16, r / 16)
    }

    /// The output levels for the given mixer output, or `None` while sound
    /// is off: the selected level times the master volume, divided by 512
    /// (rounded down), plus the bias, limited to 0 to 0x3FF.
    pub open spec fn output(&self, mixer: (int, int)) -> Option<(i32, i32)> {
        if self.control & SOUNDCNT_ENABLE == 0 {
            None
        } else {
            let c1 = level_or_zero(sample_of(self.channels@[1]));
            let c3 = level_or_zero(sample_of(self.channels@[3]));
            let vol = (self.control % 0x80) as int;
            let left = out_level((self.control / 0x100) % 4, mixer.0, c1.0, c3.0);
            let right = out_level((self.control / 0x400) % 4, mixer.1, c1.1, c3.1);
            Some((clip10(left * vol / 512 + self.bias) as i32, clip10(right * vol / 512 + self.bias) as i32))
        }
    }

    pub fn new() -> (r: Self)
        ensures
            r.wf(),
            r.aligned(),
            r.control == 0,
            r.bias == 0x200,
            r.mixer_sample == (0i32, 0i32),
            r.cycle_count == 0,
            forall|i: int| 0 <= i < 16 ==> (#[trigger] r.channels@[i]).dma_mask == (1u16 << (i as u16)) && r.channels@[i].chan_type == (if i < 8 {
                ChannelType::PCM
            } else if i < 14 {
                ChannelType::PSG
            } else {
                ChannelType::Noise
            }) && r.channels@[i].control == 0,
    {
        let mut channels: Vec<AudioChannel> = Vec::new();
        let mut i: u16 = 0;
        while i < 16
            invariant
                i <= 16,
                channels@.len() == i,
                forall|j: int| 0 <= j < i ==> (#[trigger] channels@[j]).wf() && channels@[j].nybble_aligned()
                    && channels@[j].dma_mask == (1u16 << (j as u16)) && channels@[j].chan_type == (if j < 8 {
                    ChannelType::PCM
                } else if j < 14 {
                    ChannelType::PSG
                } else {
                    ChannelType::Noise
                }) && channels@[j].control == 0,
            decreases 16 - i,
        {
            let t = if i < 8 {
                ChannelType::PCM
            } else if i < 14 {
                ChannelType::PSG
            } else {
                ChannelType::Noise
            };
            channels.push(AudioChannel::new(t, 1u16 << i));
            i = i + 1;
        }
        let mut capture: Vec<AudioCaptureUnit> = Vec::new();
        capture.push(AudioCaptureUnit::new());
        capture.push(AudioCaptureUnit::new());
        DSAudio { control: 0, channels, bias: 0x200, capture, mixer_sample: (0, 0), cycle_count: 0 }
    }

    fn channel_sample(&self, i: usize) -> (r: (i32, i32))
        requires
            self.wf(),
            i < 16,
        ensures
            r.0 == level_or_zero(sample_of(self.channels@[i as int])).0,
            r.1 == level_or_zero(sample_of(self.channels@[i as int])).1,
            -0x8000 <= r.0 <= 0x8000,
            -0x8000 <= r.1 <= 0x8000,
    {
        assert(self.channels@[i as int].wf());
        match self.channels[i].get_sample() {
            Some(p) => p,
            None => (0, 0),
        }
    }

    /// Mixes the channels into the output, or gives `None` while sound is
    /// off; the mixer's output is kept for capture.
    fn generate_sample(&mut self) -> (r: Option<(i32, i32)>)
        requires
            old(self).wf(),
        ensures
            final(self).wf(),
            old(self).control & SOUNDCNT_ENABLE == 0 ==> r is None && *final(self) == *old(self),
            old(self).control & SOUNDCNT_ENABLE != 0 ==> {
                &&& final(self).mixer_sample == (old(self).mixed().0 as i32, old(self).mixed().1 as i32)
                &&& r == old(self).output(old(self).mixed())
                &&& *final(self) == (DSAudio { mixer_sample: final(self).mixer_sample, ..*old(self) })
            },
    {
        if self.control & SOUNDCNT_ENABLE == 0 {
            return None;
        }
        let mut left: i32 = 0;
        let mut right: i32 = 0;
        let mut i: usize = 0;
        while i < 16
            invariant
                i <= 16,
                self.wf(),
                (left as int, right as int) == mix_sum(self.channels@, self.control, i as nat),
                -0x8000 * i <= left <= 0x8000 * i,
                -0x8000 * i <= right <= 0x8000 * i,
            decreases 16 - i,
        {
            let taken = if i == 1 {
                self.control & SOUNDCNT_MIX_CH1 == 0
            } else if i == 3 {
                self.control & SOUNDCNT_MIX_CH3 == 0
            } else {
                true
            };
            assert(self.channels@[i as int].wf());
            if taken {
                match self.channels[i].get_sample() {
                    Some(p) => {
                        left = left + p.0;
                        right = right + p.1;
                    },
                    None => {},
                }
            }
            i = i + 1;
        }
        let ml = shr_signed(left, 16);
        let mr = shr_signed(right, 16);
        self.mixer_sample = (ml, mr);
        let c1 = self.channel_sample(1);
        let c3 = self.channel_sample(3);
        let vol = (self.control % 0x80) as i32;
        let lsel = (self.control / 0x100) % 4;
        let rsel = (self.control / 0x400) % 4;
        let l = if lsel == 0 {
            ml
        } else if lsel == 1 {
            c1.0
        } else if lsel == 2 {
            c3.0
        } else {
            shr_signed(c3.0 + c1.0, 2)
        };
        let r = if rsel == 0 {
            mr
        } else if rsel == 1 {
            c1.1
        } else if rsel == 2 {
            c3.1
        } else {
            shr_signed(c3.1 + c1.1, 2)
        };
        assert(-0x8000 * 0x7F <= l * vol <= 0x8000 * 0x7F) by (nonlinear_arith)
            requires
                -0x8000 <= l <= 0x8000,
                0 <= vol <= 0x7F,
        ;
        assert(-0x8000 * 0x7F <= r * vol <= 0x8000 * 0x7F) by (nonlinear_arith)
            requires
                -0x8000 <= r <= 0x8000,
                0 <= vol <= 0x7F,
        ;
        let al = shr_signed(l * vol, 512) + self.bias;
        let ar = shr_signed(r * vol, 512) + self.bias;
        let cl = if al < 0 { 0 } else if al > 0x3FF { 0x3FF } else { al };
        let cr = if ar < 0 { 0 } else if ar > 0x3FF { 0x3FF } else { ar };
        Some((cl, cr))
    }
}


/// The channels after `cycles` cycles, the first `n` of them clocked: the
/// DMA requests they raise, and whether channel 1 and channel 3 moved to
/// their next sample (their timers overflowed).
pub open spec fn clock_channels(chs: Seq<AudioChannel>, cycles: usize, n: nat) -> (Seq<AudioChannel>, u16, bool, bool)
    decreases n,
{
    if n == 0 {
        (chs, 0, false, false)
    } else {
        let (cs, dma, c0, c1) = clock_channels(chs, cycles, (n - 1) as nat);
        let i = n - 1;
        let over = chs[i].timer_counter + cycles % 0x1_0000 > 0xFFFF;
        let (ch, m) = chs[i].spec_clock(cycles);
        (cs.update(i, ch), dma | m, c0 || (over && i == 1), c1 || (over && i == 3))
    }
}

/// Sum of two samples, wrapping.
pub open spec fn add16(a: i16, b: i16) -> i16 {
    if a + b > 0x7FFF {
        (a + b - 0x1_0000) as i16
    } else if a + b < -0x8000 {
        (a + b + 0x1_0000) as i16
    } else {
        (a + b) as i16
    }
}

/// Addresses of the sound registers.
pub open spec fn sound_addr(addr: u32) -> bool {
    &&& addr % 4 == 0
    &&& 0x0400_0400 <= addr <= 0x0400_051C
}

impl DSAudio {
    /// The sample that capture unit `k` takes: its channel (1, or 3),
    /// optionally plus the channel before it, or the mixer's output.
    pub open spec fn capture_sample(&self, k: int) -> i16 {
        let ctl = self.capture@[k].control;
        let a = if k == 0 { 1int } else { 3int };
        if ctl & CAPTURE_SOURCE != 0 {
            if ctl & CAPTURE_ADD != 0 {
                add16(self.channels@[a].current_sample, self.channels@[a - 1].current_sample)
            } else {
                self.channels@[a].current_sample
            }
        } else {
            (if k == 0 { self.mixer_sample.0 } else { self.mixer_sample.1 }) as i16
        }
    }

    /// The same state with other capture units.
    pub open spec fn with_capture(self, capture: Vec<AudioCaptureUnit>) -> Self {
        DSAudio { capture, ..self }
    }

    /// Capture unit `k` after its channel moved on (`moved`), or unchanged
    /// and asking for nothing.
    pub open spec fn capture_step(pre: Self, post: Self, k: int, moved: bool, r: bool) -> bool {
        if moved {
            Self::captured(pre, post, k, r)
        } else {
            post == pre && !r
        }
    }

    /// The capture units after the channels were clocked: unit 0 if channel 1
    /// moved on (`c0`), then unit 1 if channel 3 did (`c1`).
    pub open spec fn captures_after_clock(pre: Self, post: Self, c0: bool, c1: bool, r0: bool, r1: bool) -> bool {
        exists|mid: DSAudio| #[trigger] Self::capture_step(pre, mid, 0, c0, r0) && Self::capture_step(mid, post, 1, c1, r1)
    }

    /// What capture unit `k` does when its channel moves on: while started
    /// it writes its sample, as 8 bits (the high byte) or 16, and may ask
    /// for a transfer.
    pub open spec fn captured(pre: Self, post: Self, k: int, r: bool) -> bool {
        &&& post == (DSAudio { capture: post.capture, ..pre })
        &&& post.capture@.len() == 2
        &&& post.capture@[1 - k] == pre.capture@[1 - k]
        &&& if pre.capture@[k].control & CAPTURE_START == 0 {
            !r && post.capture@[k] == pre.capture@[k]
        } else if pre.capture@[k].control & CAPTURE_FORMAT != 0 {
            AudioCaptureUnit::write8_rel(
                pre.capture@[k],
                post.capture@[k],
                (pre.capture_sample(k) as int / 256) as i8,
                r,
            )
        } else {
            AudioCaptureUnit::write16_rel(pre.capture@[k], post.capture@[k], pre.capture_sample(k), r)
        }
    }

    fn capture_unit(&mut self, k: usize) -> (r: bool)
        requires
            old(self).wf(),
            k < 2,
        ensures
            final(self).wf(),
            Self::captured(*old(self), *final(self), k as int, r),
    {
        let ctl = self.capture[k].control;
        if ctl & CAPTURE_START == 0 {
            return false;
        }
        let a: usize = if k == 0 { 1 } else { 3 };
        let sample: i16 = if ctl & CAPTURE_SOURCE != 0 {
            if ctl & CAPTURE_ADD != 0 {
                self.channels[a].current_sample.wrapping_add(self.channels[a - 1].current_sample)
            } else {
                self.channels[a].current_sample
            }
        } else {
            (if k == 0 { self.mixer_sample.0 } else { self.mixer_sample.1 }) as i16
        };
        assert(self.capture@[k as int].wf());
        if ctl & CAPTURE_FORMAT != 0 {
            let hi = shr_signed(sample as i32, 256);
            assert(-128 <= hi <= 127) by (nonlinear_arith)
                requires
                    hi == sample as int / 256,
                    -0x8000 <= sample <= 0x7FFF,
            ;
            self.capture[k].write_fifo_pcm_8(hi as i8)
        } else {
            self.capture[k].write_fifo_pcm_16(sample)
        }
    }

    /// Advances the channels by `cycles` cycles and makes an output sample
    /// every 512 cycles. Returns the channels that want a DMA (one bit
    /// each), whether each capture unit wants one, and, when a sample was
    /// due, the output levels (`None` while sound is off).
    pub fn clock(&mut self, cycles: usize) -> (r: (u16, bool, bool, Option<Option<(i32, i32)>>))
        requires
            old(self).wf(),
            old(self).aligned(),
            old(self).cycle_count + cycles <= usize::MAX,
        ensures
            final(self).wf(),
            ({
                let (chs, dma, c0, c1) = clock_channels(old(self).channels@, cycles, 16);
                let clocked = DSAudio { channels: final(self).channels, ..*old(self) };
                let count = old(self).cycle_count + cycles;
                &&& final(self).channels@ == chs
                &&& r.0 == dma
                &&& final(self).cycle_count == (if count >= CYCLES_PER_SAMPLE { count - CYCLES_PER_SAMPLE } else { count })
                &&& (count >= CYCLES_PER_SAMPLE) == (r.3 is Some)
                &&& r.3 matches Some(out) ==> out == clocked.output(clocked.mixed())
                &&& final(self).control == old(self).control
                &&& final(self).bias == old(self).bias
                &&& (count >= CYCLES_PER_SAMPLE && old(self).control & SOUNDCNT_ENABLE != 0) ==> final(self).mixer_sample
                    == (clocked.mixed().0 as i32, clocked.mixed().1 as i32)
                &&& !(count >= CYCLES_PER_SAMPLE && old(self).control & SOUNDCNT_ENABLE != 0) ==> final(self).mixer_sample
                    == old(self).mixer_sample
            }),
            Self::captures_after_clock(
                final(self).with_capture(old(self).capture),
                *final(self),
                clock_channels(old(self).channels@, cycles, 16).2,
                clock_channels(old(self).channels@, cycles, 16).3,
                r.1,
                r.2,
            ),
    {
        let mut dma_req: u16 = 0;
        let mut capture_0 = false;
        let mut capture_1 = false;
        let ghost start = self.channels@;
        let mut i: usize = 0;
        while i < 16
            invariant
                i <= 16,
                self.wf(),
                start.len() == 16,
                forall|j: int| 0 <= j < 16 ==> (#[trigger] start[j]).wf() && start[j].nybble_aligned(),
                forall|j: int| i <= j < 16 ==> #[trigger] self.channels@[j] == start[j],
                (self.channels@, dma_req, capture_0, capture_1) == clock_channels(start, cycles, i as nat),
                *self == (DSAudio { channels: self.channels, ..*old(self) }),
            decreases 16 - i,
        {
            let over = (self.channels[i].timer_counter as u32) + ((cycles % 0x1_0000) as u32) > 0xFFFF;
            let m = self.channels[i].clock(cycles);
            dma_req = dma_req | m;
            capture_0 = capture_0 || (over && i == 1);
            capture_1 = capture_1 || (over && i == 3);
            i = i + 1;
        }
        self.cycle_count = self.cycle_count + cycles;
        let mut sample = None;
        if self.cycle_count >= CYCLES_PER_SAMPLE {
            self.cycle_count = self.cycle_count - CYCLES_PER_SAMPLE;
            sample = Some(self.generate_sample());
        }
        let ghost sampled = *self;
        let capture_0_dma = capture_0 && self.capture_unit(0);
        let ghost mid = *self;
        let capture_1_dma = capture_1 && self.capture_unit(1);
        assert(sampled == self.with_capture(old(self).capture));
        assert(Self::capture_step(sampled, mid, 0, capture_0, capture_0_dma));
        assert(Self::captures_after_clock(self.with_capture(old(self).capture), *self, capture_0, capture_1, capture_0_dma, capture_1_dma));
        (dma_req, capture_0_dma, capture_1_dma, sample)
    }

    /// The source address for channel `chan_idx`'s next DMA transfer.
    pub fn get_dma_addr(&mut self, chan_idx: usize) -> (r: u32)
        requires
            old(self).wf(),
            chan_idx < 16,
        ensures
            final(self).wf(),
            r == old(self).channels@[chan_idx as int].current_addr,
            final(self).channels@ == old(self).channels@.update(chan_idx as int, AudioChannel {
                current_addr: if old(self).channels@[chan_idx as int].current_addr.wrapping_add(4) >= old(
                    self,
                ).channels@[chan_idx as int].loop_end_addr {
                    old(self).channels@[chan_idx as int].loop_start_addr
                } else {
                    old(self).channels@[chan_idx as int].current_addr.wrapping_add(4)
                },
                ..old(self).channels@[chan_idx as int]
            }),
            *final(self) == (DSAudio { channels: final(self).channels, ..*old(self) }),
    {
        assert(self.channels@[chan_idx as int].wf());
        let r = self.channels[chan_idx].get_dma_addr();
        assert forall|i: int| 0 <= i < 16 implies #[trigger] self.channels@[i].wf() by {
            assert(old(self).channels@[i].wf());
        }
        r
    }

    /// The destination address for capture unit `chan_idx`'s next DMA
    /// transfer.
    pub fn get_capture_dma_addr(&mut self, chan_idx: usize) -> (r: u32)
        requires
            old(self).wf(),
            chan_idx < 2,
        ensures
            final(self).wf(),
            r == old(self).capture@[chan_idx as int].current_addr,
            final(self).capture@ == old(self).capture@.update(chan_idx as int, AudioCaptureUnit {
                current_addr: old(self).capture@[chan_idx as int].current_addr.wrapping_add(4),
                ..old(self).capture@[chan_idx as int]
            }),
            *final(self) == (DSAudio { capture: final(self).capture, ..*old(self) }),
    {
        assert(self.capture@[chan_idx as int].wf());
        let r = self.capture[chan_idx].get_dma_addr();
        assert forall|i: int| 0 <= i < 2 implies #[trigger] self.capture@[i].wf() by {
            assert(old(self).capture@[i].wf());
        }
        r
    }

    /// Writes a word to channel `chan_idx`'s FIFO.
    pub fn write_fifo(&mut self, chan_idx: usize, data: u32)
        requires
            old(self).wf(),
            chan_idx < 16,
        ensures
            final(self).wf(),
            final(self).channels@.len() == 16,
            forall|j: int| 0 <= j < 16 && j != chan_idx ==> #[trigger] final(self).channels@[j] == old(self).channels@[j],
            final(self).channels@[chan_idx as int].fifo.contents() == (if old(self).channels@[chan_idx as int].fifo.len == 8 {
                old(self).channels@[chan_idx as int].fifo.contents().drop_first().push(data)
            } else {
                old(self).channels@[chan_idx as int].fifo.contents().push(data)
            }),
            final(self).channels@[chan_idx as int] == (AudioChannel {
                fifo: final(self).channels@[chan_idx as int].fifo,
                ..old(self).channels@[chan_idx as int]
            }),
            final(self).channels@[chan_idx as int].fifo.nybble == old(self).channels@[chan_idx as int].fifo.nybble,
            *final(self) == (DSAudio { channels: final(self).channels, ..*old(self) }),
    {
        assert(self.channels@[chan_idx as int].wf());
        self.channels[chan_idx].write_fifo(data);
    }
}


impl DSAudio {
    /// Reads a word from capture unit `chan_idx`'s FIFO.
    pub fn read_capture_fifo(&mut self, chan_idx: usize) -> (r: u32)
        requires
            old(self).wf(),
            chan_idx < 2,
        ensures
            final(self).wf(),
            final(self).capture@.len() == 2,
            final(self).capture@[1 - chan_idx] == old(self).capture@[1 - chan_idx],
            AudioCaptureUnit::fifo_read(old(self).capture@[chan_idx as int], final(self).capture@[chan_idx as int], r),
            *final(self) == (DSAudio { capture: final(self).capture, ..*old(self) }),
    {
        assert(self.capture@[chan_idx as int].wf());
        let r = self.capture[chan_idx].read_fifo();
        assert forall|i: int| 0 <= i < 2 implies #[trigger] self.capture@[i].wf() by {
            assert(old(self).capture@[i].wf());
        }
        r
    }

    /// Whether every channel reads its FIFO at a position that suits its
    /// format.
    pub fn channels_aligned(&self) -> (r: bool)
        requires
            self.wf(),
        ensures
            r == self.aligned(),
    {
        let mut i: usize = 0;
        while i < 16
            invariant
                i <= 16,
                self.wf(),
                forall|j: int| 0 <= j < i ==> #[trigger] self.channels@[j].nybble_aligned(),
            decreases 16 - i,
        {
            let c = &self.channels[i];
            let f = (c.control / 0x2000_0000) % 4;
            if (f == 0 && c.fifo.nybble % 2 != 0) || (f == 1 && c.fifo.nybble % 4 != 0) {
                assert(!self.channels@[i as int].nybble_aligned());
                return false;
            }
            i = i + 1;
        }
        true
    }

    /// The value a sound register reads.
    pub open spec fn register(&self, addr: u32) -> u32 {
        if addr <= 0x0400_04FF {
            let c = self.channels@[((addr / 16) % 16) as int];
            let reg = addr % 16;
            if reg == 0 {
                c.control
            } else if reg == 4 {
                c.src_addr
            } else if reg == 8 {
                (c.timer + (c.loop_start_pos % 0x1_0000) * 0x1_0000) as u32
            } else {
                c.sound_len
            }
        } else if addr == 0x0400_0500 {
            self.control
        } else if addr == 0x0400_0504 {
            self.bias as u32
        } else if addr == 0x0400_0508 {
            (self.capture@[0].control + self.capture@[1].control * 0x100) as u32
        } else if addr == 0x0400_050C {
            0
        } else if addr == 0x0400_0510 {
            self.capture@[0].dst_addr
        } else if addr == 0x0400_0514 {
            self.capture@[0].len
        } else if addr == 0x0400_0518 {
            self.capture@[1].dst_addr
        } else {
            self.capture@[1].len
        }
    }

    /// Reads a sound register.
    pub fn read_word(&self, addr: u32) -> (r: u32)
        requires
            self.wf(),
            sound_addr(addr),
        ensures
            r == self.register(addr),
    {
        if addr <= 0x0400_04FF {
            let c = &self.channels[((addr / 16) % 16) as usize];
            let reg = addr % 16;
            if reg == 0 {
                c.control
            } else if reg == 4 {
                c.src_addr
            } else if reg == 8 {
                (c.timer as u32) + (c.loop_start_pos % 0x1_0000) * 0x1_0000
            } else {
                c.sound_len
            }
        } else if addr == 0x0400_0500 {
            self.control
        } else if addr == 0x0400_0504 {
            self.bias as u32
        } else if addr == 0x0400_0508 {
            (self.capture[0].control as u32) + (self.capture[1].control as u32) * 0x100
        } else if addr == 0x0400_050C {
            0
        } else if addr == 0x0400_0510 {
            self.capture[0].dst_addr
        } else if addr == 0x0400_0514 {
            self.capture[0].len
        } else if addr == 0x0400_0518 {
            self.capture[1].dst_addr
        } else {
            self.capture[1].len
        }
    }

    /// What a write of a channel register does to the channel.
    pub open spec fn channel_written(pre: AudioChannel, post: AudioChannel, reg: u32, data: u32) -> bool {
        if reg == 0 {
            AudioChannel::control_written(pre, post, data)
        } else if reg == 4 {
            post == (AudioChannel { src_addr: data & 0x7FF_FFFF, current_addr: data & 0x7FF_FFFF, ..pre })
        } else if reg == 8 {
            post == (AudioChannel { timer: (data % 0x1_0000) as u16, loop_start_pos: data / 0x1_0000, ..pre })
        } else {
            post == (AudioChannel { sound_len: data & 0x3F_FFFF, ..pre })
        }
    }

    /// Writes a sound register.
    pub fn write_word(&mut self, addr: u32, data: u32)
        requires
            old(self).wf(),
            sound_addr(addr),
        ensures
            final(self).wf(),
            addr <= 0x0400_04FF ==> ({
                let i = ((addr / 16) % 16) as int;
                &&& final(self).channels@.len() == 16
                &&& forall|j: int| 0 <= j < 16 && j != i ==> #[trigger] final(self).channels@[j] == old(self).channels@[j]
                &&& Self::channel_written(old(self).channels@[i], final(self).channels@[i], addr % 16, data)
                &&& *final(self) == (DSAudio { channels: final(self).channels, ..*old(self) })
            }),
            addr == 0x0400_0500 ==> *final(self) == (DSAudio { control: data & SOUNDCNT_ALL, ..*old(self) }),
            addr == 0x0400_0504 ==> *final(self) == (DSAudio { bias: (data & 0x3FF) as i32, ..*old(self) }),
            addr == 0x0400_0508 ==> final(self).capture@.len() == 2 && AudioCaptureUnit::control_written(
                old(self).capture@[0],
                final(self).capture@[0],
                (data % 0x100) as u8,
            ) && AudioCaptureUnit::control_written(
                old(self).capture@[1],
                final(self).capture@[1],
                ((data / 0x100) % 0x100) as u8,
            ) && *final(self) == (DSAudio { capture: final(self).capture, ..*old(self) }),
            addr == 0x0400_050C ==> *final(self) == *old(self),
            0x0400_0510 <= addr ==> ({
                let k = if addr <= 0x0400_0514 { 0int } else { 1int };
                let u = old(self).capture@[k];
                &&& final(self).capture@ == old(self).capture@.update(
                    k,
                    if addr % 8 == 0 {
                        AudioCaptureUnit { dst_addr: data & 0x7FF_FFFC, ..u }
                    } else {
                        AudioCaptureUnit { len: if data == 0 { 1 } else { data & 0xFFFF }, ..u }
                    },
                )
                &&& *final(self) == (DSAudio { capture: final(self).capture, ..*old(self) })
            }),
    {
        if addr <= 0x0400_04FF {
            let i = ((addr / 16) % 16) as usize;
            let reg = addr % 16;
            assert(self.channels@[i as int].wf());
            if reg == 0 {
                self.channels[i].write_control(data);
            } else if reg == 4 {
                self.channels[i].write_src_addr(data);
            } else if reg == 8 {
                self.channels[i].write_timer((data % 0x1_0000) as u16);
                self.channels[i].write_loop_start((data / 0x1_0000) as u16);
            } else {
                self.channels[i].write_sound_len(data);
            }
            assert forall|j: int| 0 <= j < 16 implies #[trigger] self.channels@[j].wf() by {
                assert(old(self).channels@[j].wf());
            }
        } else if addr == 0x0400_0500 {
            self.control = data & SOUNDCNT_ALL;
        } else if addr == 0x0400_0504 {
            proof {
                crate::bits::lemma_and_le32(data, 0x3FF);
            }
            self.bias = (data & 0x3FF) as i32;
        } else if addr == 0x0400_0508 {
            assert(self.capture@[0].wf() && self.capture@[1].wf());
            self.capture[0].write_control((data % 0x100) as u8);
            self.capture[1].write_control(((data / 0x100) % 0x100) as u8);
            assert forall|j: int| 0 <= j < 2 implies #[trigger] self.capture@[j].wf() by {}
        } else if addr == 0x0400_050C {
        } else {
            let k: usize = if addr <= 0x0400_0514 { 0 } else { 1 };
            assert(self.capture@[k as int].wf());
            if addr % 8 == 0 {
                self.capture[k].write_dest(data);
            } else {
                self.capture[k].write_len(data);
            }
            assert forall|j: int| 0 <= j < 2 implies #[trigger] self.capture@[j].wf() by {
                assert(old(self).capture@[j].wf());
            }
        }
    }
}

} // verus!
