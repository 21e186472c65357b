//! A sound channel: PCM 8, PCM 16 or ADPCM from memory, or (on some
//! channels) square wave or noise.
use vstd::prelude::*;
use super::fifo::{AudioFIFO, RELOAD_SIZE};
use super::adpcm::ADPCMGenerator;

verus! {

pub const SAMPLE_MAX: i16 = 0x7FFF;
pub const SAMPLE_MIN: i16 = -0x7FFF;

pub const CHAN_START: u32 = 1 << 31;
pub const CHAN_FORMAT: u32 = 0x6000_0000;
pub const CHAN_REPEAT: u32 = 0x1800_0000;
pub const CHAN_WAVE_DUTY: u32 = 0x0700_0000;
pub const CHAN_PAN: u32 = 0x007F_0000;
pub const CHAN_HOLD: u32 = 1 << 15;
pub const CHAN_VOL_DIV: u32 = 0x0000_0300;
pub const CHAN_VOLUME: u32 = 0x0000_007F;
/// Every defined control bit.
pub const CHAN_ALL: u32 = 0xFF7F_837F;

/// What a channel can generate besides PCM.
#[derive(Clone, Copy, PartialEq, Eq, Structural)]
pub enum ChannelType {
    PCM,
    PSG,
    Noise,
}

/// Sample format field of a control value (0: PCM 8, 1: PCM 16, 2: ADPCM, 3: PSG/noise).
pub open spec fn format_of(control: u32) -> u32 {
    (control / 0x2000_0000) % 4
}

/// Repeat mode field (0: manual, 1: loop, 2: one-shot, 3: prohibited).
pub open spec fn repeat_of(control: u32) -> u32 {
    (control / 0x0800_0000) % 4
}

pub open spec fn volume_of(control: u32) -> u32 {
    control % 0x80
}

pub open spec fn pan_of(control: u32) -> u32 {
    (control / 0x1_0000) % 0x80
}

/// Right shift applied by the volume divider field.
pub open spec fn vol_shift_of(control: u32) -> int {
    let d = (control / 0x100) % 4;
    if d == 3 {
        4
    } else {
        d as int
    }
}

/// Divisor for a right shift by `shift` (0-14).
pub open spec fn shift_divisor(shift: int) -> int {
    if shift == 0 {
        1
    } else if shift == 1 {
        2
    } else if shift == 2 {
        4
    } else if shift == 4 {
        16
    } else {
        0x4000
    }
}

/// Arithmetic right shift of a signed value: floor division by a power of two.
pub fn shr_signed(x: i32, d: i32) -> (r: i32)
    requires
        d > 0,
    ensures
        r == x as int / d as int,
{
    if x >= 0 {
        let q = x / d;
        assert(q == x as int / d as int) by (nonlinear_arith)
            requires q == x / d, x >= 0, d > 0;
        q
    } else {
        let q = -((-(x as i64) + (d as i64) - 1) / (d as i64));
        assert(q == x as int / d as int && x <= q <= 0) by (nonlinear_arith)
            requires
                q == -((-(x as int) + d - 1) / (d as int)),
                x < 0,
                d > 0,
        ;
        q as i32
    }
}

/// A sound channel.
pub struct AudioChannel {
    pub control: u32,
    pub src_addr: u32,
    pub timer: u16,
    pub loop_start_pos: u32,
    pub sound_len: u32,
    pub chan_type: ChannelType,
    pub dma_mask: u16,
    pub timer_counter: u16,
    pub current_addr: u32,
    pub loop_start_addr: u32,
    pub loop_end_addr: u32,
    /// Counted in nybbles.
    pub sample_count: u32,
    /// Counted in nybbles.
    pub sample_len: u32,
    pub fifo: AudioFIFO,
    pub adpcm_gen: ADPCMGenerator,
    pub current_sample: i16,
    pub current_frame: (i32, i32),
    pub left_vol: i32,
    pub right_vol: i32,
}

impl AudioChannel {
    pub open spec fn wf(&self) -> bool {
        &&& self.fifo.wf()
        &&& self.adpcm_gen.wf()
        &&& self.src_addr <= 0x7FF_FFFF
        &&& self.loop_start_pos <= 0xFFFF
        &&& self.sound_len <= 0x3F_FFFF
        &&& 0 <= self.left_vol <= 127 * 127
        &&& 0 <= self.right_vol <= 127 * 127
        &&& -0x8000 <= self.current_frame.0 <= 0x8000
        &&& -0x8000 <= self.current_frame.1 <= 0x8000
    }

    pub fn new(chan_type: ChannelType, dma_mask: u16) -> (r: Self)
        ensures
            r.wf(),
            r.control == 0 && r.src_addr == 0 && r.timer == 0 && r.loop_start_pos == 0 && r.sound_len == 0,
            r.chan_type == chan_type,
            r.dma_mask == dma_mask,
            r.timer_counter == 0,
            r.fifo.contents() == Seq::<u32>::empty(),
            r.current_frame == (0i32, 0i32),
            r.left_vol == 0 && r.right_vol == 0,
            r.nybble_aligned(),
    {
        AudioChannel {
            control: 0,
            src_addr: 0,
            timer: 0,
            loop_start_pos: 0,
            sound_len: 0,
            chan_type,
            dma_mask,
            timer_counter: 0,
            current_addr: 0,
            loop_start_addr: 0,
            loop_end_addr: 0,
            sample_count: 0,
            sample_len: 0,
            fifo: AudioFIFO::new(),
            adpcm_gen: ADPCMGenerator::new(),
            current_sample: 0,
            current_frame: (0, 0),
            left_vol: 0,
            right_vol: 0,
        }
    }

    /// The state after starting a sound: counters from the registers, the
    /// FIFO emptied and the decoder reset.
    pub open spec fn spec_reset(self) -> Self {
        let loop_start = self.src_addr + self.loop_start_pos * 4;
        AudioChannel {
            timer_counter: self.timer,
            current_addr: self.src_addr,
            loop_start_addr: loop_start as u32,
            loop_end_addr: (loop_start + self.sound_len * 4) as u32,
            sample_count: 0,
            sample_len: ((self.loop_start_pos + self.sound_len) * 8) as u32,
            current_sample: 0,
            current_frame: (0, 0),
            ..self
        }
    }

    /// Reset the current sound.
    fn reset(&mut self)
        requires
            old(self).wf(),
        ensures
            final(self).wf(),
            *final(self) == (AudioChannel { fifo: final(self).fifo, adpcm_gen: final(self).adpcm_gen, ..old(self).spec_reset() }),
            final(self).fifo.contents() == Seq::<u32>::empty(),
            final(self).fifo.nybble == 0,
            !final(self).adpcm_gen.initialised,
            final(self).adpcm_gen.current_value == 0 && final(self).adpcm_gen.current_index == 0,
            final(self).adpcm_gen.loop_value == 0 && final(self).adpcm_gen.loop_index == 0,
    {
        self.timer_counter = self.timer;
        self.current_addr = self.src_addr;
        self.loop_start_addr = self.src_addr + self.loop_start_pos * 4;
        self.loop_end_addr = self.loop_start_addr + self.sound_len * 4;
        self.sample_count = 0;
        self.sample_len = (self.loop_start_pos + self.sound_len) * 8;
        self.current_sample = 0;
        self.current_frame = (0, 0);
        self.fifo.clear();
        self.adpcm_gen.reset();
    }

    /// What a control write does: the register, the output levels from the
    /// volume and pan and, where it starts a stopped channel, the sound
    /// restarted from its registers with the FIFO emptied and the decoder
    /// reset.
    pub open spec fn control_written(pre: Self, post: Self, data: u32) -> bool {
        &&& post.control == data & CHAN_ALL
        &&& post.left_vol == (127 - pan_of(data & CHAN_ALL)) * volume_of(data & CHAN_ALL)
        &&& post.right_vol == pan_of(data & CHAN_ALL) * volume_of(data & CHAN_ALL)
        &&& (pre.control & CHAN_START) == 0 && (data & CHAN_ALL & CHAN_START) != 0 ==> {
            &&& post == (AudioChannel {
                control: post.control,
                left_vol: post.left_vol,
                right_vol: post.right_vol,
                fifo: post.fifo,
                adpcm_gen: post.adpcm_gen,
                ..pre.spec_reset()
            })
            &&& post.fifo.contents() == Seq::<u32>::empty()
            &&& post.fifo.nybble == 0
            &&& !post.adpcm_gen.initialised
            &&& post.adpcm_gen.current_value == 0 && post.adpcm_gen.current_index == 0
            &&& post.adpcm_gen.loop_value == 0 && post.adpcm_gen.loop_index == 0
        }
        &&& !((pre.control & CHAN_START) == 0 && (data & CHAN_ALL & CHAN_START) != 0) ==> post == (AudioChannel {
            control: post.control,
            left_vol: post.left_vol,
            right_vol: post.right_vol,
            ..pre
        })
    }

    /// Write the control register.
    pub fn write_control(&mut self, data: u32)
        requires
            old(self).wf(),
        ensures
            final(self).wf(),
            Self::control_written(*old(self), *final(self), data),
    {
        let running = (self.control & CHAN_START) != 0;
        self.control = data & CHAN_ALL;
        if !running && (self.control & CHAN_START) != 0 {
            self.reset();
        }
        let volume = (self.control % 0x80) as i32;
        let pan = ((self.control / 0x1_0000) % 0x80) as i32;
        assert(0 <= (127 - pan) * volume <= 127 * 127 && 0 <= pan * volume <= 127 * 127) by (nonlinear_arith)
            requires 0 <= pan < 128, 0 <= volume < 128;
        self.left_vol = (127 - pan) * volume;
        self.right_vol = pan * volume;
    }

    pub fn write_src_addr(&mut self, data: u32)
        requires
            old(self).wf(),
        ensures
            final(self).wf(),
            *final(self) == (AudioChannel {
                src_addr: data & 0x7FF_FFFF,
                current_addr: data & 0x7FF_FFFF,
                ..*old(self)
            }),
    {
        proof {
            crate::bits::lemma_and_le32(data, 0x7FF_FFFF);
        }
        self.src_addr = data & 0x7FF_FFFF;
        self.current_addr = self.src_addr;
    }

    pub fn write_timer(&mut self, data: u16)
        ensures
            *final(self) == (AudioChannel { timer: data, ..*old(self) }),
    {
        self.timer = data;
    }

    pub fn write_loop_start(&mut self, data: u16)
        ensures
            *final(self) == (AudioChannel { loop_start_pos: data as u32, ..*old(self) }),
    {
        self.loop_start_pos = data as u32;
    }

    pub fn write_sound_len(&mut self, data: u32)
        requires
            old(self).wf(),
        ensures
            final(self).wf(),
            *final(self) == (AudioChannel { sound_len: data & 0x3F_FFFF, ..*old(self) }),
    {
        proof {
            crate::bits::lemma_and_le32(data, 0x3F_FFFF);
        }
        self.sound_len = data & 0x3F_FFFF;
    }

    /// Whether the FIFO read position suits the sample format.
    pub open spec fn nybble_aligned(&self) -> bool {
        let f = format_of(self.control);
        &&& f == 0 ==> self.fifo.nybble % 2 == 0
        &&& f == 1 ==> self.fifo.nybble % 4 == 0
    }

    /// The state after `nybbles` more nybbles of the sound have played:
    /// at the end it stops, or in loop mode goes back to the loop start; at
    /// the loop start the decoder state is saved.
    pub open spec fn spec_pcm_step(self, nybbles: u32) -> Self {
        let count = self.sample_count.wrapping_add(nybbles);
        let s = AudioChannel { sample_count: count, ..self };
        if count >= self.sample_len {
            if repeat_of(self.control) == 1 {
                AudioChannel {
                    adpcm_gen: ADPCMGenerator {
                        current_value: self.adpcm_gen.loop_value,
                        current_index: self.adpcm_gen.loop_index,
                        ..self.adpcm_gen
                    },
                    sample_count: (self.loop_start_pos * 8) as u32,
                    ..s
                }
            } else {
                AudioChannel { control: self.control & !CHAN_START, ..s }
            }
        } else if count == self.loop_start_pos * 8 {
            AudioChannel {
                adpcm_gen: ADPCMGenerator {
                    loop_value: self.adpcm_gen.current_value,
                    loop_index: self.adpcm_gen.current_index,
                    ..self.adpcm_gen
                },
                ..s
            }
        } else {
            s
        }
    }

    fn pcm_step(&mut self, nybbles: u32)
        requires
            old(self).wf(),
        ensures
            final(self).wf(),
            *final(self) == old(self).spec_pcm_step(nybbles),
    {
        self.sample_count = self.sample_count.wrapping_add(nybbles);
        if self.sample_count >= self.sample_len {
            let repeat = (self.control / 0x0800_0000) % 4;
            if repeat == 1 {
                self.adpcm_gen.restore_loop_values();
                self.sample_count = self.loop_start_pos * 8;
            } else {
                self.control = self.control & !CHAN_START;
            }
        } else if self.sample_count == self.loop_start_pos * 8 {
            self.adpcm_gen.store_loop_values();
        }
    }

    /// The raw sample of the current format and the state after producing it.
    pub open spec fn spec_raw_sample(self) -> (Self, i32) {
        let f = format_of(self.control);
        if f == 0 {
            let s = self.spec_pcm_step(2);
            if s.fifo.len == 0 {
                (s, 0)
            } else {
                (AudioChannel { fifo: s.fifo.spec_advance(2), ..s },
                    (((s.fifo.current_bits() & 0xFF) as u8 as i8) * 256) as i32)
            }
        } else if f == 1 {
            let s = self.spec_pcm_step(4);
            if s.fifo.len == 0 {
                (s, 0)
            } else {
                (AudioChannel { fifo: s.fifo.spec_advance(4), ..s },
                    ((s.fifo.current_bits() & 0xFFFF) as u16 as i16) as i32)
            }
        } else if f == 2 {
            if !self.adpcm_gen.initialised {
                let header = self.fifo.buffer@[self.fifo.read as int];
                let idx = (header / 0x1_0000) % 0x80;
                let value = (header % 0x1_0000) as u16 as i16;
                let s = AudioChannel {
                    fifo: self.fifo.spec_pop(),
                    adpcm_gen: ADPCMGenerator {
                        initialised: true,
                        current_value: value,
                        current_index: if idx > 88 { 88 } else { idx as usize },
                        ..self.adpcm_gen
                    },
                    ..self
                };
                (s.spec_pcm_step(8), value as i32)
            } else {
                let (fifo, code) = if self.fifo.len == 0 {
                    (self.fifo, 0u8)
                } else {
                    (self.fifo.spec_advance(1), (self.fifo.current_bits() & 0xF) as u8)
                };
                let (gen, value) = self.adpcm_gen.spec_generate(code);
                (AudioChannel { fifo, adpcm_gen: gen, ..self }.spec_pcm_step(1), value as i32)
            }
        } else {
            (self, 0)
        }
    }

    /// The sample panned and scaled for the left and right outputs.
    pub open spec fn spec_frame(self, sample: i32) -> (i32, i32) {
        let v = sample as int / shift_divisor(vol_shift_of(self.control));
        ((v * self.left_vol / 0x4000) as i32, (v * self.right_vol / 0x4000) as i32)
    }

    fn get_pcm8(&mut self) -> (r: i32)
        requires
            old(self).wf(),
            format_of(old(self).control) == 0,
            old(self).nybble_aligned(),
        ensures
            final(self).wf(),
            (*final(self), r) == old(self).spec_raw_sample(),
            -0x8000 <= r <= 0x7FFF,
    {
        self.pcm_step(2);
        let s = self.fifo.sample_pcm_8() as i32;
        s * 256
    }

    fn get_pcm16(&mut self) -> (r: i32)
        requires
            old(self).wf(),
            format_of(old(self).control) == 1,
            old(self).nybble_aligned(),
        ensures
            final(self).wf(),
            (*final(self), r) == old(self).spec_raw_sample(),
            -0x8000 <= r <= 0x7FFF,
    {
        self.pcm_step(4);
        self.fifo.sample_pcm_16() as i32
    }

    fn get_adpcm(&mut self) -> (r: i32)
        requires
            old(self).wf(),
            format_of(old(self).control) == 2,
            old(self).fifo.len > 0,
        ensures
            final(self).wf(),
            (*final(self), r) == old(self).spec_raw_sample(),
            -0x8000 <= r <= 0x7FFF,
    {
        if self.adpcm_gen.needs_header() {
            let header = match self.fifo.get_adpcm_header() {
                Some(h) => h,
                None => 0,
            };
            let sample = self.adpcm_gen.set_header(header) as i32;
            self.pcm_step(8);
            sample
        } else {
            let compressed_sample = self.fifo.sample_adpcm();
            let sample = self.adpcm_gen.generate_sample(compressed_sample) as i32;
            self.pcm_step(1);
            sample
        }
    }

    /// Generate a new sample, panned and amplified for each output.
    fn generate_sample(&mut self) -> (r: (i32, i32))
        requires
            old(self).wf(),
            old(self).nybble_aligned(),
            format_of(old(self).control) == 2 ==> old(self).fifo.len > 0,
        ensures
            final(self).wf(),
            ({
                let (s, sample) = old(self).spec_raw_sample();
                *final(self) == s && r == old(self).spec_frame(sample)
            }),
            -0x8000 <= r.0 <= 0x8000,
            -0x8000 <= r.1 <= 0x8000,
    {
        let format = (self.control / 0x2000_0000) % 4;
        let vol_div = (self.control / 0x100) % 4;
        let left_vol = self.left_vol;
        let right_vol = self.right_vol;
        let ghost old_self = *self;
        let sample = if format == 0 {
            self.get_pcm8()
        } else if format == 1 {
            self.get_pcm16()
        } else if format == 2 {
            self.get_adpcm()
        } else {
            0
        };
        let d: i32 = if vol_div == 0 {
            1
        } else if vol_div == 1 {
            2
        } else if vol_div == 2 {
            4
        } else {
            16
        };
        let raw = sample;
        let sample = shr_signed(sample, d);
        assert(-0x8000 <= sample <= 0x7FFF) by (nonlinear_arith)
            requires sample == raw as int / d as int, -0x8000 <= raw <= 0x7FFF, 0 < d;
        assert(-0x8000 * 127 * 127 <= sample * left_vol <= 0x7FFF * 127 * 127) by (nonlinear_arith)
            requires -0x8000 <= sample <= 0x7FFF, 0 <= left_vol <= 127 * 127;
        assert(-0x8000 * 127 * 127 <= sample * right_vol <= 0x7FFF * 127 * 127) by (nonlinear_arith)
            requires -0x8000 <= sample <= 0x7FFF, 0 <= right_vol <= 127 * 127;
        let left = shr_signed(sample * left_vol, 0x4000);
        let right = shr_signed(sample * right_vol, 0x4000);
        assert(-0x8000 <= left <= 0x8000) by (nonlinear_arith)
            requires
                left == (sample * left_vol) as int / 0x4000,
                -0x8000 * 127 * 127 <= sample * left_vol <= 0x7FFF * 127 * 127,
        ;
        assert(-0x8000 <= right <= 0x8000) by (nonlinear_arith)
            requires
                right == (sample * right_vol) as int / 0x4000,
                -0x8000 * 127 * 127 <= sample * right_vol <= 0x7FFF * 127 * 127,
        ;
        (left, right)
    }

    /// The state after `cycles` cycles, and the DMA request bit (the channel's
    /// mask when it needs more data).
    pub open spec fn spec_clock(self, cycles: usize) -> (Self, u16) {
        let sum = self.timer_counter + cycles % 0x1_0000;
        let new = (sum % 0x1_0000) as u16;
        let s = AudioChannel { timer_counter: new, ..self };
        let psg_noise = format_of(self.control) == 3;
        if sum <= 0xFFFF {
            (s, 0)
        } else if !psg_noise && self.fifo.len == 0 {
            (s, self.dma_mask)
        } else {
            let t = AudioChannel { timer_counter: self.timer.wrapping_add(new), ..s };
            let (g, sample) = t.spec_raw_sample();
            let g2 = AudioChannel { current_frame: t.spec_frame(sample), ..g };
            (g2, if !psg_noise && g2.fifo.len <= RELOAD_SIZE { self.dma_mask } else { 0 })
        }
    }

    /// Clock the internal timer; on overflow advance the sample.
    ///
    /// Returns the DMA mask bit if the channel needs more samples (PCM only).
    pub fn clock(&mut self, cycles: usize) -> (r: u16)
        requires
            old(self).wf(),
            old(self).nybble_aligned(),
        ensures
            final(self).wf(),
            (*final(self), r) == old(self).spec_clock(cycles),
    {
        let c = (cycles % 0x1_0000) as u32;
        let sum = self.timer_counter as u32 + c;
        let new = (sum % 0x1_0000) as u16;
        self.timer_counter = new;
        if sum > 0xFFFF {
            let psg_noise = (self.control / 0x2000_0000) % 4 == 3;
            if !psg_noise && self.fifo.len() == 0 {
                return self.dma_mask;
            }
            self.timer_counter = self.timer.wrapping_add(new);
            self.current_frame = self.generate_sample();
            if !psg_noise && self.fifo.len() <= RELOAD_SIZE {
                self.dma_mask
            } else {
                0
            }
        } else {
            0
        }
    }

    /// The current sample, panned and amplified for each output, while the
    /// channel is playing.
    pub fn get_sample(&self) -> (r: Option<(i32, i32)>)
        ensures
            r == (if self.control & CHAN_START != 0 { Some(self.current_frame) } else { None }),
    {
        if (self.control & CHAN_START) != 0 {
            Some(self.current_frame)
        } else {
            None
        }
    }

    /// The source address for a DMA transfer; it advances a word, going back
    /// to the loop start at the loop end.
    pub fn get_dma_addr(&mut self) -> (r: u32)
        ensures
            r == old(self).current_addr,
            *final(self) == (AudioChannel {
                current_addr: if old(self).current_addr.wrapping_add(4) >= old(self).loop_end_addr {
                    old(self).loop_start_addr
                } else {
                    old(self).current_addr.wrapping_add(4)
                },
                ..*old(self)
            }),
    {
        let addr = self.current_addr;
        self.current_addr = self.current_addr.wrapping_add(4);
        if self.current_addr >= self.loop_end_addr {
            self.current_addr = self.loop_start_addr;
        }
        addr
    }

    /// Write a word to the FIFO.
    pub fn write_fifo(&mut self, data: u32)
        requires
            old(self).wf(),
        ensures
            final(self).wf(),
            final(self).fifo.contents() == (if old(self).fifo.len == 8 {
                old(self).fifo.contents().drop_first().push(data)
            } else {
                old(self).fifo.contents().push(data)
            }),
            final(self).fifo.nybble == old(self).fifo.nybble,
            *final(self) == (AudioChannel { fifo: final(self).fifo, ..*old(self) }),
    {
        self.fifo.push(data);
    }
}

/// A channel's output levels: the volume divider field 0 to 3 divides the
/// sample by 1, 2, 4 and 16; the left and right levels share the volume
/// by the pan, together always 127 times the volume, all of it to the left
/// at pan 0 and to the right at pan 127. A sample comes out on each side
/// with its own sign, the louder side never quieter than the other, and
/// alike on both sides where the levels are equal.
pub proof fn lemma_channel_levels(pre: AudioChannel, post: AudioChannel, data: u32, c: AudioChannel, sample: i32)
    requires
        AudioChannel::control_written(pre, post, data),
        0 <= c.left_vol <= 127 * 127,
        0 <= c.right_vol <= 127 * 127,
        -0x8000 <= sample <= 0x7FFF,
    ensures
        ({
            let field = (c.control / 0x100) % 4;
            shift_divisor(vol_shift_of(c.control)) == (if field == 0 {
                1int
            } else if field == 1 {
                2int
            } else if field == 2 {
                4int
            } else {
                16int
            })
        }),
        post.left_vol + post.right_vol == 127 * volume_of(data & CHAN_ALL),
        pan_of(data & CHAN_ALL) == 0 ==> post.right_vol == 0,
        pan_of(data & CHAN_ALL) == 127 ==> post.left_vol == 0,
        ({
            let (l, r) = c.spec_frame(sample);
            &&& sample >= 0 ==> l >= 0 && r >= 0
            &&& sample <= 0 ==> l <= 0 && r <= 0
            &&& c.left_vol == c.right_vol ==> l == r
            &&& c.left_vol <= c.right_vol && sample >= 0 ==> l <= r
            &&& c.left_vol <= c.right_vol && sample <= 0 ==> r <= l
        }),
{
    let v = sample as int / shift_divisor(vol_shift_of(c.control));
    let d = shift_divisor(vol_shift_of(c.control));
    assert(d > 0);
    if sample >= 0 {
        assert(v >= 0) by (nonlinear_arith) requires v == sample as int / d, sample >= 0, d > 0;
        assert(v * c.left_vol >= 0 && v * c.right_vol >= 0) by (nonlinear_arith)
            requires v >= 0, c.left_vol >= 0, c.right_vol >= 0;
        if c.left_vol <= c.right_vol {
            assert(v * c.left_vol <= v * c.right_vol) by (nonlinear_arith)
                requires v >= 0, c.left_vol <= c.right_vol;
            vstd::arithmetic::div_mod::lemma_div_is_ordered(v * c.left_vol, v * c.right_vol, 0x4000);
        }
    }
    if sample <= 0 {
        assert(v <= 0) by (nonlinear_arith) requires v == sample as int / d, sample <= 0, d > 0;
        assert(v * c.left_vol <= 0 && v * c.right_vol <= 0) by (nonlinear_arith)
            requires v <= 0, c.left_vol >= 0, c.right_vol >= 0;
        if c.left_vol <= c.right_vol {
            assert(v * c.right_vol <= v * c.left_vol) by (nonlinear_arith)
                requires v <= 0, c.left_vol <= c.right_vol;
            vstd::arithmetic::div_mod::lemma_div_is_ordered(v * c.right_vol, v * c.left_vol, 0x4000);
        }
    }
    assert(v * c.left_vol / 0x4000 <= 0 || sample > 0) by {
        if sample <= 0 {
            assert(v * c.left_vol <= 0);
        }
    }
    assert(-0x8000 <= v <= 0x7FFF) by (nonlinear_arith)
        requires v == sample as int / d, d >= 1, -0x8000 <= sample <= 0x7FFF;
    assert(-0x8000 * 127 * 127 <= v * c.left_vol <= 0x7FFF * 127 * 127) by (nonlinear_arith)
        requires -0x8000 <= v <= 0x7FFF, 0 <= c.left_vol <= 127 * 127;
    assert(-0x8000 * 127 * 127 <= v * c.right_vol <= 0x7FFF * 127 * 127) by (nonlinear_arith)
        requires -0x8000 <= v <= 0x7FFF, 0 <= c.right_vol <= 127 * 127;
    let p = pan_of(data & CHAN_ALL) as int;
    let vol = volume_of(data & CHAN_ALL) as int;
    assert((127 - p) * vol + p * vol == 127 * vol) by (nonlinear_arith);
    assert(p == 127 ==> (127 - p) * vol == 0) by (nonlinear_arith);
    assert(p == 0 ==> p * vol == 0) by (nonlinear_arith);
}

} // verus!
