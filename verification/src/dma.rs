//! Direct memory access controller.
use vstd::prelude::*;
use crate::bits::{spec_lo16, spec_hi16, spec_make32, lo16, hi16, set_lo16, set_hi16};
use crate::interrupt::{Interrupts, INT_DMA_0, INT_DMA_1, INT_DMA_2, INT_DMA_3};

verus! {

pub const DMA_ENABLE: u32 = 1 << 31;
pub const DMA_END_IRQ: u32 = 1 << 30;
pub const DMA_START_TIMING: u32 = 0x3800_0000;
pub const DMA_WORD_TYPE: u32 = 1 << 26;
pub const DMA_REPEAT: u32 = 1 << 25;
pub const DMA_SRC_ADDR_MODE: u32 = 0x0180_0000;
pub const DMA_DST_ADDR_MODE: u32 = 0x0060_0000;
pub const DMA_WORD_COUNT: u32 = 0x001F_FFFF;

/// Enable bit together with the start timing.
pub const DMA_SHOULD_START: u32 = 0xB800_0000;
pub const DMA_START_IMM: u32 = 0x8000_0000;
pub const DMA_START_VBLANK: u32 = 0x8800_0000;
pub const DMA_START_HBLANK: u32 = 0x9000_0000;
pub const DMA_START_DISPLAY: u32 = 0x9800_0000;
pub const DMA_START_MAIN_D: u32 = 0xA000_0000;
pub const DMA_START_DS_CART: u32 = 0xA800_0000;

pub const WORD_COUNT_MASK: u32 = 0x1F_FFFF;

/// The next pair of addresses of a transfer.
#[derive(Clone, Copy, Debug, PartialEq, Eq, Structural)]
pub enum DMAAddress {
    /// The last pair: the transfer is done, with the interrupt bits to raise.
    Done { source: u32, dest: u32, irq: u16 },
    Addr { source: u32, dest: u32 },
}

/// A single DMA channel.
#[derive(Clone, Copy)]
pub struct DMAChannel {
    pub src_addr: u32,
    pub dst_addr: u32,
    pub control: u32,
    /// Word size in bytes: 2 or 4.
    pub word_size: u32,
    pub current_src_addr: u32,
    pub current_dst_addr: u32,
    pub current_count: u32,
    pub interrupt: Interrupts,
}

/// The next address in a given address mode: increment, decrement or fixed.
pub open spec fn step_addr(addr: u32, mode: u32, size: u32) -> u32 {
    if mode == 1 {
        addr.wrapping_sub(size)
    } else if mode == 2 {
        addr
    } else {
        addr.wrapping_add(size)
    }
}

/// What the last unit of a transfer (the one that comes back `Done`) leaves
/// behind. A repeating channel reloads its count from the control register
/// and stays enabled; in destination mode 3 (increment and reload) its
/// destination goes back to the programmed address, aligned to the unit
/// size, while in the other modes it keeps stepping. A channel that does
/// not repeat is disabled. The interrupt bits come only where the control
/// asks for them.
pub proof fn lemma_last_unit(c: DMAChannel)
    ensures
        ({
            let (next, a) = c.spec_next_addrs();
            a is Done ==> {
                &&& c.control & DMA_REPEAT != 0 ==> {
                    &&& next.control == c.control
                    &&& next.current_count == c.control & DMA_WORD_COUNT
                    &&& c.control & DMA_DST_ADDR_MODE == DMA_DST_ADDR_MODE ==> next.current_dst_addr == (
                    if c.control & DMA_WORD_TYPE != 0 {
                        c.dst_addr & 0x0FFF_FFFC
                    } else {
                        c.dst_addr & 0x0FFF_FFFE
                    })
                    &&& c.control & DMA_DST_ADDR_MODE != DMA_DST_ADDR_MODE ==> next.current_dst_addr
                        == step_addr(c.current_dst_addr, c.dst_mode(), c.word_size)
                }
                &&& c.control & DMA_REPEAT == 0 ==> next.control == c.control & !DMA_ENABLE
                &&& a->Done_irq == (if c.control & DMA_END_IRQ != 0 { c.interrupt.bits as u16 } else { 0u16 })
                &&& a->Done_source == c.current_src_addr && a->Done_dest == c.current_dst_addr
            }
        }),
{
}

/// Every unit moves from the current addresses, and the count goes down by
/// one: a source in mode 0 rises by the unit size, in mode 1 falls by it and
/// in mode 2 stays; a destination does the same, and in mode 3 rises as in
/// mode 0 until the reload at the end.
pub proof fn lemma_unit_steps(c: DMAChannel)
    ensures
        ({
            let (next, a) = c.spec_next_addrs();
            &&& a matches DMAAddress::Addr { source, dest } ==> source == c.current_src_addr && dest
                == c.current_dst_addr
            &&& a is Addr <==> (c.current_count.wrapping_sub(1) & WORD_COUNT_MASK) != 0
            &&& a is Addr ==> {
                &&& next.current_count == c.current_count.wrapping_sub(1) & WORD_COUNT_MASK
                &&& c.src_mode() == 0 ==> next.current_src_addr == c.current_src_addr.wrapping_add(c.word_size)
                &&& c.src_mode() == 1 ==> next.current_src_addr == c.current_src_addr.wrapping_sub(c.word_size)
                &&& c.src_mode() == 2 ==> next.current_src_addr == c.current_src_addr
                &&& (c.dst_mode() == 0 || c.dst_mode() == 3) ==> next.current_dst_addr
                    == c.current_dst_addr.wrapping_add(c.word_size)
                &&& c.dst_mode() == 1 ==> next.current_dst_addr == c.current_dst_addr.wrapping_sub(c.word_size)
                &&& c.dst_mode() == 2 ==> next.current_dst_addr == c.current_dst_addr
                &&& next.control == c.control
            }
        }),
{
}

/// Enabling a disabled channel starts its transfer afresh: the count comes
/// from the control's word count, the unit is a word or a half-word as the
/// control says, and the first unit moves from the programmed source to the
/// programmed destination, each aligned to the unit. Writing the control of
/// a channel already enabled leaves the transfer where it was.
pub proof fn lemma_enable_loads(c: DMAChannel, data: u32)
    ensures
        ({
            let n = c.spec_set_control(data);
            let word = data & DMA_WORD_TYPE != 0;
            &&& n.control == data
            &&& (data & DMA_ENABLE != 0 && c.control & DMA_ENABLE == 0) ==> {
                &&& n.current_count == data & DMA_WORD_COUNT
                &&& n.word_size == (if word { 4u32 } else { 2u32 })
                &&& n.current_src_addr == (if word { c.src_addr & 0x0FFF_FFFC } else { c.src_addr & 0x0FFF_FFFE })
                &&& n.current_dst_addr == (if word { c.dst_addr & 0x0FFF_FFFC } else { c.dst_addr & 0x0FFF_FFFE })
                &&& n.spec_next_addrs().1 matches DMAAddress::Addr { source, dest } ==> source == n.current_src_addr
                    && dest == n.current_dst_addr
            }
            &&& !(data & DMA_ENABLE != 0 && c.control & DMA_ENABLE == 0) ==> {
                &&& n.current_count == c.current_count
                &&& n.current_src_addr == c.current_src_addr
                &&& n.current_dst_addr == c.current_dst_addr
                &&& n.word_size == c.word_size
            }
        }),
{
}

/// Offsets of a channel's registers.
pub open spec fn channel_halfword_reg(addr: u32) -> bool {
    addr == 0x0 || addr == 0x2 || addr == 0x4 || addr == 0x6 || addr == 0x8 || addr == 0xA
}

pub open spec fn channel_word_reg(addr: u32) -> bool {
    addr == 0x0 || addr == 0x4 || addr == 0x8
}

impl DMAChannel {
    pub open spec fn wf(&self) -> bool {
        self.word_size == 2 || self.word_size == 4
    }

    /// A fresh channel raising `interrupt` on completion.
    pub open spec fn new_spec(interrupt: Interrupts) -> Self {
        DMAChannel {
            src_addr: 0,
            dst_addr: 0,
            control: 0,
            word_size: 2,
            current_src_addr: 0,
            current_dst_addr: 0,
            current_count: 0,
            interrupt,
        }
    }

    pub fn new(interrupt: Interrupts) -> (r: Self)
        ensures
            r == Self::new_spec(interrupt),
            r.wf(),
            r.src_addr == 0 && r.dst_addr == 0 && r.control == 0,
            r.word_size == 2,
            r.current_src_addr == 0 && r.current_dst_addr == 0 && r.current_count == 0,
            r.interrupt == interrupt,
    {
        DMAChannel {
            src_addr: 0,
            dst_addr: 0,
            control: 0,
            word_size: 2,
            current_src_addr: 0,
            current_dst_addr: 0,
            current_count: 0,
            interrupt,
        }
    }

    /// Check to see if DMA should start immediately.
    pub fn should_start_now(&self) -> (r: bool)
        ensures
            r == ((self.control & DMA_SHOULD_START) == DMA_START_IMM),
    {
        (self.control & DMA_SHOULD_START) == DMA_START_IMM
    }

    /// Check to see if DMA should start upon v-blank.
    pub fn should_start_vblank(&self) -> (r: bool)
        ensures
            r == ((self.control & DMA_SHOULD_START) == DMA_START_VBLANK),
    {
        (self.control & DMA_SHOULD_START) == DMA_START_VBLANK
    }

    /// Check to see if DMA should start upon h-blank.
    pub fn should_start_hblank(&self) -> (r: bool)
        ensures
            r == ((self.control & DMA_SHOULD_START) == DMA_START_HBLANK),
    {
        (self.control & DMA_SHOULD_START) == DMA_START_HBLANK
    }

    /// Check to see if DMA should start upon screen display.
    pub fn should_start_display(&self) -> (r: bool)
        ensures
            r == ((self.control & DMA_SHOULD_START) == DMA_START_DISPLAY),
    {
        (self.control & DMA_SHOULD_START) == DMA_START_DISPLAY
    }

    /// Check to see if DMA should start when the main memory FIFO requests.
    pub fn should_start_main_mem(&self) -> (r: bool)
        ensures
            r == ((self.control & DMA_SHOULD_START) == DMA_START_MAIN_D),
    {
        (self.control & DMA_SHOULD_START) == DMA_START_MAIN_D
    }

    /// Check to see if DMA should start upon card ready.
    pub fn should_start_card(&self) -> (r: bool)
        ensures
            r == ((self.control & DMA_SHOULD_START) == DMA_START_DS_CART),
    {
        (self.control & DMA_SHOULD_START) == DMA_START_DS_CART
    }

    /// Check to see if a 32-bit word should be transferred.
    pub fn transfer_32bit_word(&self) -> (r: bool)
        ensures
            r == ((self.control & DMA_WORD_TYPE) != 0),
    {
        (self.control & DMA_WORD_TYPE) != 0
    }

    pub open spec fn src_mode(&self) -> u32 {
        (self.control & DMA_SRC_ADDR_MODE) >> 23u32
    }

    pub open spec fn dst_mode(&self) -> u32 {
        (self.control & DMA_DST_ADDR_MODE) >> 21u32
    }

    /// The state after the transfer's last unit: reload the count (and the
    /// destination in reload mode) when repeating, else disable.
    pub open spec fn spec_reset(self) -> (Self, u32) {
        let s = if self.control & DMA_REPEAT != 0 {
            DMAChannel {
                current_count: self.control & DMA_WORD_COUNT,
                current_dst_addr: if self.control & DMA_DST_ADDR_MODE == DMA_DST_ADDR_MODE {
                    if self.control & DMA_WORD_TYPE != 0 {
                        self.dst_addr & 0x0FFF_FFFC
                    } else {
                        self.dst_addr & 0x0FFF_FFFE
                    }
                } else {
                    self.current_dst_addr
                },
                ..self
            }
        } else {
            DMAChannel { control: self.control & !DMA_ENABLE, ..self }
        };
        (s, if self.control & DMA_END_IRQ != 0 { self.interrupt.bits } else { 0 })
    }

    /// Call on completion of a transfer. Returns the interrupts to raise.
    fn reset(&mut self) -> (r: Interrupts)
        ensures
            (*final(self), r.bits) == old(self).spec_reset(),
    {
        let irq_enabled = (self.control & DMA_END_IRQ) != 0;
        if (self.control & DMA_REPEAT) != 0 {
            self.current_count = self.control & DMA_WORD_COUNT;
            if (self.control & DMA_DST_ADDR_MODE) == DMA_DST_ADDR_MODE {
                if self.transfer_32bit_word() {
                    self.current_dst_addr = self.dst_addr & 0x0FFF_FFFC;
                } else {
                    self.current_dst_addr = self.dst_addr & 0x0FFF_FFFE;
                }
            }
        } else {
            self.control = self.control & !DMA_ENABLE;
        }
        if irq_enabled {
            self.interrupt
        } else {
            Interrupts::empty()
        }
    }

    /// The channel after one unit of its transfer, and the addresses of
    /// that unit: both addresses step by the word size in their modes and
    /// the count goes down; on the last unit the channel is reset and its
    /// interrupt bits come with the addresses.
    pub open spec fn spec_next_addrs(self) -> (Self, DMAAddress) {
        let src = step_addr(self.current_src_addr, self.src_mode(), self.word_size);
        let dst = step_addr(self.current_dst_addr, self.dst_mode(), self.word_size);
        let count = self.current_count.wrapping_sub(1) & WORD_COUNT_MASK;
        let stepped = DMAChannel { current_src_addr: src, current_dst_addr: dst, current_count: count, ..self };
        if count == 0 {
            let (done, irq) = stepped.spec_reset();
            (done, DMAAddress::Done { source: self.current_src_addr, dest: self.current_dst_addr, irq: irq as u16 })
        } else {
            (stepped, DMAAddress::Addr { source: self.current_src_addr, dest: self.current_dst_addr })
        }
    }

    /// Get the next pair of addresses, and advance.
    /// If `Done` is returned, the addresses inside are the final ones and the
    /// transfer is complete.
    pub fn next_addrs(&mut self) -> (r: DMAAddress)
        requires
            old(self).wf(),
            old(self).src_mode() != 3,
        ensures
            final(self).wf(),
            (*final(self), r) == old(self).spec_next_addrs(),
    {
        let src_addr = self.current_src_addr;
        let dst_addr = self.current_dst_addr;
        let src_mode = (self.control & DMA_SRC_ADDR_MODE) >> 23;
        self.current_src_addr = if src_mode == 1 {
            self.current_src_addr.wrapping_sub(self.word_size)
        } else if src_mode == 2 {
            self.current_src_addr
        } else {
            self.current_src_addr.wrapping_add(self.word_size)
        };
        let dst_mode = (self.control & DMA_DST_ADDR_MODE) >> 21;
        self.current_dst_addr = if dst_mode == 1 {
            self.current_dst_addr.wrapping_sub(self.word_size)
        } else if dst_mode == 2 {
            self.current_dst_addr
        } else {
            self.current_dst_addr.wrapping_add(self.word_size)
        };
        self.current_count = self.current_count.wrapping_sub(1) & WORD_COUNT_MASK;
        if self.current_count == 0 {
            let irq = self.reset();
            proof {
                crate::bits::lemma_and_le32(self.interrupt.bits, 0xFFFF);
            }
            DMAAddress::Done { source: src_addr, dest: dst_addr, irq: irq.bits as u16 }
        } else {
            DMAAddress::Addr { source: src_addr, dest: dst_addr }
        }
    }

    /// Write the control register; enabling a disabled channel loads the
    /// count and the aligned current addresses.
    pub open spec fn spec_set_control(self, data: u32) -> Self {
        let was_enabled = self.control & DMA_ENABLE != 0;
        let enabled = data & DMA_ENABLE != 0;
        if enabled && !was_enabled {
            if data & DMA_WORD_TYPE != 0 {
                DMAChannel {
                    control: data,
                    current_count: data & DMA_WORD_COUNT,
                    word_size: 4,
                    current_src_addr: self.src_addr & 0x0FFF_FFFC,
                    current_dst_addr: self.dst_addr & 0x0FFF_FFFC,
                    ..self
                }
            } else {
                DMAChannel {
                    control: data,
                    current_count: data & DMA_WORD_COUNT,
                    word_size: 2,
                    current_src_addr: self.src_addr & 0x0FFF_FFFE,
                    current_dst_addr: self.dst_addr & 0x0FFF_FFFE,
                    ..self
                }
            }
        } else {
            DMAChannel { control: data, ..self }
        }
    }

    fn set_control(&mut self, data: u32)
        requires
            old(self).wf(),
        ensures
            *final(self) == old(self).spec_set_control(data),
            final(self).wf(),
    {
        let was_enabled = (self.control & DMA_ENABLE) != 0;
        let enabled = (data & DMA_ENABLE) != 0;
        self.control = data;
        if enabled && !was_enabled {
            self.current_count = self.control & DMA_WORD_COUNT;
            if self.transfer_32bit_word() {
                self.word_size = 4;
                self.current_src_addr = self.src_addr & 0x0FFF_FFFC;
                self.current_dst_addr = self.dst_addr & 0x0FFF_FFFC;
            } else {
                self.word_size = 2;
                self.current_src_addr = self.src_addr & 0x0FFF_FFFE;
                self.current_dst_addr = self.dst_addr & 0x0FFF_FFFE;
            }
        }
    }

    /// The address registers read as zero; the control register reads back.
    pub fn read_halfword(&self, addr: u32) -> (r: u16)
        requires
            channel_halfword_reg(addr),
        ensures
            r == (if addr == 0x8 {
                spec_lo16(self.control)
            } else if addr == 0xA {
                spec_hi16(self.control)
            } else {
                0
            }),
    {
        if addr == 0x8 {
            lo16(self.control)
        } else if addr == 0xA {
            hi16(self.control)
        } else {
            0
        }
    }

    pub fn write_halfword(&mut self, addr: u32, data: u16)
        requires
            old(self).wf(),
            channel_halfword_reg(addr),
        ensures
            final(self).wf(),
            addr == 0x0 ==> *final(self) == (DMAChannel { src_addr: spec_make32(spec_hi16(old(self).src_addr), data), ..*old(self) }),
            addr == 0x2 ==> *final(self) == (DMAChannel { src_addr: spec_make32(data, spec_lo16(old(self).src_addr)), ..*old(self) }),
            addr == 0x4 ==> *final(self) == (DMAChannel { dst_addr: spec_make32(spec_hi16(old(self).dst_addr), data), ..*old(self) }),
            addr == 0x6 ==> *final(self) == (DMAChannel { dst_addr: spec_make32(data, spec_lo16(old(self).dst_addr)), ..*old(self) }),
            addr == 0x8 ==> *final(self) == (DMAChannel { control: spec_make32(spec_hi16(old(self).control), data), ..*old(self) }),
            addr == 0xA ==> *final(self) == old(self).spec_set_control(spec_make32(data, spec_lo16(old(self).control))),
    {
        if addr == 0x0 {
            self.src_addr = set_lo16(self.src_addr, data);
        } else if addr == 0x2 {
            self.src_addr = set_hi16(self.src_addr, data);
        } else if addr == 0x4 {
            self.dst_addr = set_lo16(self.dst_addr, data);
        } else if addr == 0x6 {
            self.dst_addr = set_hi16(self.dst_addr, data);
        } else if addr == 0x8 {
            self.control = set_lo16(self.control, data);
        } else {
            let control = set_hi16(self.control, data);
            self.set_control(control);
        }
    }

    pub fn read_word(&self, addr: u32) -> (r: u32)
        requires
            channel_word_reg(addr),
        ensures
            r == (if addr == 0x8 { self.control } else { 0 }),
    {
        if addr == 0x8 {
            self.control
        } else {
            0
        }
    }

    pub fn write_word(&mut self, addr: u32, data: u32)
        requires
            old(self).wf(),
            channel_word_reg(addr),
        ensures
            final(self).wf(),
            addr == 0x0 ==> *final(self) == (DMAChannel { src_addr: data, ..*old(self) }),
            addr == 0x4 ==> *final(self) == (DMAChannel { dst_addr: data, ..*old(self) }),
            addr == 0x8 ==> *final(self) == old(self).spec_set_control(data),
    {
        if addr == 0x0 {
            self.src_addr = data;
        } else if addr == 0x4 {
            self.dst_addr = data;
        } else {
            self.set_control(data);
        }
    }
}

/// One unit of a transfer for the bus to carry out.
#[derive(Clone, Copy, Debug, PartialEq, Eq, Structural)]
pub struct DmaTransfer {
    pub channel: usize,
    /// The first unit since another channel ran, or since the run began:
    /// the bus clocks 4 cycles first and the accesses are non-sequential.
    pub first: bool,
    pub source: u32,
    pub dest: u32,
    /// A word, else a half-word.
    pub word: bool,
    /// On the last unit, the interrupt bits to raise; the channel is to be
    /// made inactive once the unit is moved.
    pub done: Option<u16>,
}

/// The four DMA channels, which of them are running, and their fill data.
pub struct DMA {
    pub channels: [DMAChannel; 4],
    /// Whether each channel is active.
    pub active: [bool; 4],
    /// Fill data.
    pub fill_data: [u32; 4],
}

pub const DMA_BASE: u32 = 0x0400_00B0;
pub const DMA_FILL_BASE: u32 = 0x0400_00E0;

/// The channel and register offset an address in the channel block names.
pub open spec fn dma_channel_of(addr: u32) -> (int, u32) {
    (((addr - DMA_BASE) / 12) as int, ((addr - DMA_BASE) % 12) as u32)
}

/// Half-word addresses the controller answers.
pub open spec fn dma_halfword_addr(addr: u32) -> bool {
    ||| DMA_BASE <= addr < DMA_FILL_BASE && channel_halfword_reg(dma_channel_of(addr).1)
    ||| DMA_FILL_BASE <= addr <= 0x0400_00EE && addr % 2 == 0
}

/// Word addresses the controller answers.
pub open spec fn dma_word_addr(addr: u32) -> bool {
    ||| DMA_BASE <= addr < DMA_FILL_BASE && channel_word_reg(dma_channel_of(addr).1)
    ||| DMA_FILL_BASE <= addr <= 0x0400_00EC && addr % 4 == 0
}

impl DMA {
    pub open spec fn wf(&self) -> bool {
        forall|i: int| 0 <= i < 4 ==> #[trigger] self.channels@[i].wf()
    }

    pub fn new() -> (r: Self)
        ensures
            r.wf(),
            r.channels@[0] == DMAChannel::new_spec(Interrupts { bits: INT_DMA_0 }),
            r.channels@[1] == DMAChannel::new_spec(Interrupts { bits: INT_DMA_1 }),
            r.channels@[2] == DMAChannel::new_spec(Interrupts { bits: INT_DMA_2 }),
            r.channels@[3] == DMAChannel::new_spec(Interrupts { bits: INT_DMA_3 }),
            forall|i: int| 0 <= i < 4 ==> !r.active@[i] && r.fill_data@[i] == 0,
    {
        DMA {
            channels: [
                DMAChannel::new(Interrupts { bits: INT_DMA_0 }),
                DMAChannel::new(Interrupts { bits: INT_DMA_1 }),
                DMAChannel::new(Interrupts { bits: INT_DMA_2 }),
                DMAChannel::new(Interrupts { bits: INT_DMA_3 }),
            ],
            active: [false, false, false, false],
            fill_data: [0, 0, 0, 0],
        }
    }

    /// Get the index of the highest-priority active channel.
    pub fn get_active(&self) -> (r: Option<usize>)
        ensures
            match r {
                Some(c) => c < 4 && self.active@[c as int] && forall|d: int| 0 <= d < c ==> !self.active@[d],
                None => forall|d: int| 0 <= d < 4 ==> !self.active@[d],
            },
    {
        let mut c: usize = 0;
        while c < 4
            invariant
                c <= 4,
                forall|d: int| 0 <= d < c ==> !self.active@[d],
            decreases 4 - c,
        {
            if self.active[c] {
                return Some(c);
            }
            c = c + 1;
        }
        None
    }

    /// Every active channel has a source address mode it can run in.
    pub open spec fn runnable(&self) -> bool {
        forall|i: int| 0 <= i < 4 && #[trigger] self.active@[i] ==> self.channels@[i].src_mode() != 3
    }

    /// Whether the active channels can run.
    pub fn can_run(&self) -> (r: bool)
        requires
            self.wf(),
        ensures
            r == self.runnable(),
    {
        let mut i: usize = 0;
        while i < 4
            invariant
                i <= 4,
                forall|j: int| 0 <= j < i && #[trigger] self.active@[j] ==> self.channels@[j].src_mode() != 3,
            decreases 4 - i,
        {
            if self.active[i] && (self.channels[i].control & DMA_SRC_ADDR_MODE) >> 23 == 3 {
                return false;
            }
            i = i + 1;
        }
        true
    }

    /// The next unit to move: from the active channel with the lowest
    /// number, which advances; `last_active` is the channel of the unit
    /// before (4 when there was none). `None` when no channel is active.
    pub fn next_transfer(&mut self, last_active: usize) -> (r: Option<DmaTransfer>)
        requires
            old(self).wf(),
            old(self).runnable(),
        ensures
            final(self).wf(),
            final(self).active == old(self).active,
            final(self).fill_data == old(self).fill_data,
            match r {
                None => (forall|d: int| 0 <= d < 4 ==> !old(self).active@[d]) && final(self).channels == old(
                    self,
                ).channels,
                Some(t) => {
                    let c = t.channel as int;
                    let (ch, a) = old(self).channels@[c].spec_next_addrs();
                    &&& t.channel < 4
                    &&& old(self).active@[c]
                    &&& forall|d: int| 0 <= d < c ==> !old(self).active@[d]
                    &&& t.first == (t.channel != last_active)
                    &&& t.word == (old(self).channels@[c].control & DMA_WORD_TYPE != 0)
                    &&& final(self).channels@ == old(self).channels@.update(c, ch)
                    &&& match a {
                        DMAAddress::Addr { source, dest } => t.source == source && t.dest == dest && t.done is None,
                        DMAAddress::Done { source, dest, irq } => t.source == source && t.dest == dest && t.done
                            == Some(irq),
                    }
                },
            },
    {
        match self.get_active() {
            None => None,
            Some(c) => {
                assert(self.channels@[c as int].wf());
                let mut ch = self.channels[c];
                let word = ch.transfer_32bit_word();
                let a = ch.next_addrs();
                self.channels.set(c, ch);
                assert forall|i: int| 0 <= i < 4 implies #[trigger] self.channels@[i].wf() by {
                    assert(old(self).channels@[i].wf());
                }
                let (source, dest, done) = match a {
                    DMAAddress::Addr { source, dest } => (source, dest, None),
                    DMAAddress::Done { source, dest, irq } => (source, dest, Some(irq)),
                };
                Some(DmaTransfer { channel: c, first: c != last_active, source, dest, word, done })
            },
        }
    }

    /// Mark the channel as complete.
    pub fn set_inactive(&mut self, chan: usize)
        requires
            chan < 4,
        ensures
            final(self).active@ == old(self).active@.update(chan as int, false),
            final(self).channels == old(self).channels,
            final(self).fill_data == old(self).fill_data,
    {
        self.active.set(chan, false);
    }

    /// To be called when v-blank occurs.
    pub fn on_vblank(&mut self)
        ensures
            forall|i: int| 0 <= i < 4 ==> #[trigger] final(self).active@[i] == (old(self).active@[i]
                || (old(self).channels@[i].control & DMA_SHOULD_START) == DMA_START_VBLANK),
            final(self).channels == old(self).channels,
            final(self).fill_data == old(self).fill_data,
    {
        let mut i: usize = 0;
        while i < 4
            invariant
                i <= 4,
                self.channels == old(self).channels,
                self.fill_data == old(self).fill_data,
                forall|j: int| 0 <= j < i ==> #[trigger] self.active@[j] == (old(self).active@[j]
                    || (old(self).channels@[j].control & DMA_SHOULD_START) == DMA_START_VBLANK),
                forall|j: int| i <= j < 4 ==> #[trigger] self.active@[j] == old(self).active@[j],
            decreases 4 - i,
        {
            let start = self.channels[i].should_start_vblank();
            let a = self.active[i] || start;
            self.active.set(i, a);
            i = i + 1;
        }
    }

    /// To be called when h-blank occurs.
    pub fn on_hblank(&mut self)
        ensures
            forall|i: int| 0 <= i < 4 ==> #[trigger] final(self).active@[i] == (old(self).active@[i]
                || (old(self).channels@[i].control & DMA_SHOULD_START) == DMA_START_HBLANK),
            final(self).channels == old(self).channels,
            final(self).fill_data == old(self).fill_data,
    {
        let mut i: usize = 0;
        while i < 4
            invariant
                i <= 4,
                self.channels == old(self).channels,
                self.fill_data == old(self).fill_data,
                forall|j: int| 0 <= j < i ==> #[trigger] self.active@[j] == (old(self).active@[j]
                    || (old(self).channels@[j].control & DMA_SHOULD_START) == DMA_START_HBLANK),
                forall|j: int| i <= j < 4 ==> #[trigger] self.active@[j] == old(self).active@[j],
            decreases 4 - i,
        {
            let start = self.channels[i].should_start_hblank();
            let a = self.active[i] || start;
            self.active.set(i, a);
            i = i + 1;
        }
    }

    /// To be called when card data is ready.
    pub fn on_card(&mut self)
        ensures
            forall|i: int| 0 <= i < 4 ==> #[trigger] final(self).active@[i] == (old(self).active@[i]
                || (old(self).channels@[i].control & DMA_SHOULD_START) == DMA_START_DS_CART),
            final(self).channels == old(self).channels,
            final(self).fill_data == old(self).fill_data,
    {
        let mut i: usize = 0;
        while i < 4
            invariant
                i <= 4,
                self.channels == old(self).channels,
                self.fill_data == old(self).fill_data,
                forall|j: int| 0 <= j < i ==> #[trigger] self.active@[j] == (old(self).active@[j]
                    || (old(self).channels@[j].control & DMA_SHOULD_START) == DMA_START_DS_CART),
                forall|j: int| i <= j < 4 ==> #[trigger] self.active@[j] == old(self).active@[j],
            decreases 4 - i,
        {
            let start = self.channels[i].should_start_card();
            let a = self.active[i] || start;
            self.active.set(i, a);
            i = i + 1;
        }
    }

    pub fn read_halfword(&self, addr: u32) -> (r: u16)
        requires
            dma_halfword_addr(addr),
        ensures
            addr < DMA_FILL_BASE ==> ({
                let (c, off) = dma_channel_of(addr);
                r == (if off == 0x8 {
                    spec_lo16(self.channels@[c].control)
                } else if off == 0xA {
                    spec_hi16(self.channels@[c].control)
                } else {
                    0
                })
            }),
            addr >= DMA_FILL_BASE ==> ({
                let v = self.fill_data@[((addr - DMA_FILL_BASE) / 4) as int];
                r == (if addr % 4 == 0 { spec_lo16(v) } else { spec_hi16(v) })
            }),
    {
        if addr < DMA_FILL_BASE {
            let c = ((addr - DMA_BASE) / 12) as usize;
            let off = (addr - DMA_BASE) % 12;
            self.channels[c].read_halfword(off)
        } else {
            let v = self.fill_data[((addr - DMA_FILL_BASE) / 4) as usize];
            if addr % 4 == 0 {
                lo16(v)
            } else {
                hi16(v)
            }
        }
    }

    /// Writing the top half of a channel's control register decides whether
    /// the channel starts immediately.
    pub fn write_halfword(&mut self, addr: u32, data: u16)
        requires
            old(self).wf(),
            dma_halfword_addr(addr),
        ensures
            final(self).wf(),
            addr < DMA_FILL_BASE ==> ({
                let (c, off) = dma_channel_of(addr);
                let ch = old(self).channels@[c];
                let new_ch = if off == 0x0 {
                    DMAChannel { src_addr: spec_make32(spec_hi16(ch.src_addr), data), ..ch }
                } else if off == 0x2 {
                    DMAChannel { src_addr: spec_make32(data, spec_lo16(ch.src_addr)), ..ch }
                } else if off == 0x4 {
                    DMAChannel { dst_addr: spec_make32(spec_hi16(ch.dst_addr), data), ..ch }
                } else if off == 0x6 {
                    DMAChannel { dst_addr: spec_make32(data, spec_lo16(ch.dst_addr)), ..ch }
                } else if off == 0x8 {
                    DMAChannel { control: spec_make32(spec_hi16(ch.control), data), ..ch }
                } else {
                    ch.spec_set_control(spec_make32(data, spec_lo16(ch.control)))
                };
                &&& final(self).channels@ == old(self).channels@.update(c, new_ch)
                &&& final(self).active@ == (if off == 0xA {
                    old(self).active@.update(c, (new_ch.control & DMA_SHOULD_START) == DMA_START_IMM)
                } else {
                    old(self).active@
                })
                &&& final(self).fill_data == old(self).fill_data
            }),
            addr >= DMA_FILL_BASE ==> ({
                let i = ((addr - DMA_FILL_BASE) / 4) as int;
                let v = old(self).fill_data@[i];
                &&& final(self).fill_data@ == old(self).fill_data@.update(i, if addr % 4 == 0 {
                    spec_make32(spec_hi16(v), data)
                } else {
                    spec_make32(data, spec_lo16(v))
                })
                &&& final(self).channels == old(self).channels
                &&& final(self).active == old(self).active
            }),
    {
        if addr < DMA_FILL_BASE {
            let c = ((addr - DMA_BASE) / 12) as usize;
            let off = (addr - DMA_BASE) % 12;
            let mut ch = self.channels[c];
            ch.write_halfword(off, data);
            self.channels.set(c, ch);
            if off == 0xA {
                let start = ch.should_start_now();
                self.active.set(c, start);
            }
        } else {
            let i = ((addr - DMA_FILL_BASE) / 4) as usize;
            let v = self.fill_data[i];
            if addr % 4 == 0 {
                self.fill_data.set(i, set_lo16(v, data));
            } else {
                self.fill_data.set(i, set_hi16(v, data));
            }
        }
    }

    pub fn read_word(&self, addr: u32) -> (r: u32)
        requires
            dma_word_addr(addr),
        ensures
            addr < DMA_FILL_BASE ==> ({
                let (c, off) = dma_channel_of(addr);
                r == (if off == 0x8 { self.channels@[c].control } else { 0 })
            }),
            addr >= DMA_FILL_BASE ==> r == self.fill_data@[((addr - DMA_FILL_BASE) / 4) as int],
    {
        if addr < DMA_FILL_BASE {
            let c = ((addr - DMA_BASE) / 12) as usize;
            let off = (addr - DMA_BASE) % 12;
            self.channels[c].read_word(off)
        } else {
            self.fill_data[((addr - DMA_FILL_BASE) / 4) as usize]
        }
    }

    /// Writing a channel's control word decides whether it starts immediately.
    pub fn write_word(&mut self, addr: u32, data: u32)
        requires
            old(self).wf(),
            dma_word_addr(addr),
        ensures
            final(self).wf(),
            addr < DMA_FILL_BASE ==> ({
                let (c, off) = dma_channel_of(addr);
                let ch = old(self).channels@[c];
                let new_ch = if off == 0x0 {
                    DMAChannel { src_addr: data, ..ch }
                } else if off == 0x4 {
                    DMAChannel { dst_addr: data, ..ch }
                } else {
                    ch.spec_set_control(data)
                };
                &&& final(self).channels@ == old(self).channels@.update(c, new_ch)
                &&& final(self).active@ == (if off == 0x8 {
                    old(self).active@.update(c, (data & DMA_SHOULD_START) == DMA_START_IMM)
                } else {
                    old(self).active@
                })
                &&& final(self).fill_data == old(self).fill_data
            }),
            addr >= DMA_FILL_BASE ==> final(self).fill_data@ == old(self).fill_data@.update(((addr - DMA_FILL_BASE) / 4) as int, data)
                && final(self).channels == old(self).channels && final(self).active == old(self).active,
    {
        if addr < DMA_FILL_BASE {
            let c = ((addr - DMA_BASE) / 12) as usize;
            let off = (addr - DMA_BASE) % 12;
            let mut ch = self.channels[c];
            ch.write_word(off, data);
            self.channels.set(c, ch);
            if off == 0x8 {
                let start = ch.should_start_now();
                self.active.set(c, start);
            }
        } else {
            self.fill_data.set(((addr - DMA_FILL_BASE) / 4) as usize, data);
        }
    }
}


/// How a run of DMA units is clocked: 4 cycles when a channel starts, the
/// cycles of the units gathered until there are more than 8, and those of
/// a channel's last unit at once, when it raises its interrupt.
pub struct DmaRun {
    /// The channel of the unit before; 4 when there was none.
    pub last_active: usize,
    /// Cycles gathered and not yet clocked.
    pub cycles: usize,
}

impl DmaRun {
    pub fn new() -> (r: Self)
        ensures
            r.last_active == 4 && r.cycles == 0,
    {
        DmaRun { last_active: 4, cycles: 0 }
    }

    /// Notes the unit about to move; returns the cycles to clock before it:
    /// 4 where its channel starts, else none.
    pub fn started(&mut self, t: &DmaTransfer) -> (r: usize)
        ensures
            r == (if t.first { 4usize } else { 0usize }),
            final(self).last_active == (if t.first { t.channel } else { old(self).last_active }),
            final(self).cycles == old(self).cycles,
    {
        if t.first {
            self.last_active = t.channel;
            4
        } else {
            0
        }
    }

    /// After a unit moved in `moved` cycles: a channel's last unit makes the
    /// channel inactive and hands back its interrupt, with its cycles to
    /// clock at once; otherwise the cycles gather, and are handed back to
    /// clock once there are more than 8.
    pub fn moved(&mut self, dma: &mut DMA, t: &DmaTransfer, moved: usize) -> (r: (Option<u16>, usize))
        requires
            t.channel < 4,
            old(self).cycles + moved <= usize::MAX,
        ensures
            final(self).last_active == old(self).last_active,
            match t.done {
                Some(irq) => {
                    &&& r == (Some(irq), moved)
                    &&& final(self).cycles == old(self).cycles
                    &&& final(dma).active@ == old(dma).active@.update(t.channel as int, false)
                    &&& final(dma).channels == old(dma).channels
                    &&& final(dma).fill_data == old(dma).fill_data
                },
                None => {
                    &&& *final(dma) == *old(dma)
                    &&& r.0 is None
                    &&& if old(self).cycles + moved > 8 {
                        r.1 == old(self).cycles + moved && final(self).cycles == 0
                    } else {
                        r.1 == 0 && final(self).cycles == old(self).cycles + moved
                    }
                },
            },
    {
        match t.done {
            Some(irq) => {
                dma.set_inactive(t.channel);
                (Some(irq), moved)
            },
            None => {
                self.cycles = self.cycles + moved;
                if self.cycles > 8 {
                    let c = self.cycles;
                    self.cycles = 0;
                    (None, c)
                } else {
                    (None, 0)
                }
            },
        }
    }

    /// At the end of the run: the cycles still to clock.
    pub fn finish(&mut self) -> (r: usize)
        ensures
            r == old(self).cycles,
            final(self).cycles == 0,
            final(self).last_active == old(self).last_active,
    {
        let c = self.cycles;
        self.cycles = 0;
        c
    }
}

} // verus!
