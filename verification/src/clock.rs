//! Time on the buses: the counters by which each processor's thread meets
//! the other's, the ARM7's frame counter, and what the video unit's and the
//! card's signals start on the ARM9's DMA.
use vstd::prelude::*;
use crate::dma::{DMA, DMA_SHOULD_START, DMA_START_VBLANK, DMA_START_HBLANK, DMA_START_DS_CART};
use crate::interrupt::{Interrupts, INT_V_BLANK, INT_V_COUNTER};
use crate::video::Signal;

verus! {

/// How many cycles the ARM7 runs for before the threads meet.
pub const ARM7_THREAD_SYNC_CYCLES: usize = 2000;
/// How many cycles the ARM9 runs for before the threads meet.
pub const ARM9_THREAD_SYNC_CYCLES: usize = 4000;
/// The ARM7's cycles per frame: 355 dots of 6 cycles on each of 263 lines.
pub const ARM7_FRAME_CYCLES: usize = 560_190;

/// Counts cycles towards the end of a period.
pub struct PeriodCounter {
    pub counter: usize,
    pub period: usize,
}

impl PeriodCounter {
    pub fn new(period: usize) -> (r: Self)
        ensures
            r.counter == 0,
            r.period == period,
    {
        PeriodCounter { counter: 0, period }
    }

    /// Adds cycles; at the end of the period, starts the next one, keeping
    /// what ran over, and says so.
    pub fn add(&mut self, cycles: usize) -> (r: bool)
        requires
            old(self).counter + cycles <= usize::MAX,
        ensures
            r == (old(self).counter + cycles >= old(self).period),
            final(self).period == old(self).period,
            final(self).counter == (if r {
                old(self).counter + cycles - old(self).period
            } else {
                old(self).counter + cycles
            }),
    {
        self.counter = self.counter + cycles;
        if self.counter >= self.period {
            self.counter = self.counter - self.period;
            true
        } else {
            false
        }
    }
}

/// The DMA start timing in a channel's control that an event starts.
pub open spec fn starts_on(control: u32, signal: Signal, card: bool) -> bool {
    ||| signal == Signal::VBlank && control & DMA_SHOULD_START == DMA_START_VBLANK
    ||| signal == Signal::HBlank && control & DMA_SHOULD_START == DMA_START_HBLANK
    ||| card && control & DMA_SHOULD_START == DMA_START_DS_CART
}

/// Starts the ARM9's DMA channels that wait for the video unit's signal or,
/// where the card has data ready, for the card. Returns whether the signal
/// was V-blank, which ends a frame.
pub fn on_bus_events(dma: &mut DMA, signal: Signal, card_dma: bool) -> (r: bool)
    ensures
        r == (signal == Signal::VBlank),
        final(dma).channels == old(dma).channels,
        final(dma).fill_data == old(dma).fill_data,
        forall|i: int| 0 <= i < 4 ==> #[trigger] final(dma).active@[i] == (old(dma).active@[i]
            || starts_on(old(dma).channels@[i].control, signal, card_dma)),
{
    let vblank = match signal {
        Signal::VBlank => {
            dma.on_vblank();
            true
        },
        Signal::HBlank => {
            dma.on_hblank();
            false
        },
        Signal::Nothing => false,
    };
    if card_dma {
        dma.on_card();
    }
    vblank
}

/// The ARM7's video interrupts: V-blank at the end of a frame where it is
/// enabled, and the line match where it is raised.
pub fn video_interrupts7(frame_end: bool, v_blank_enabled: bool, v_count_irq: bool) -> (r: Interrupts)
    ensures
        r.bits == (if frame_end && v_blank_enabled { INT_V_BLANK } else { 0 }) | (if v_count_irq {
            INT_V_COUNTER
        } else {
            0
        }),
{
    let v = if frame_end && v_blank_enabled { INT_V_BLANK } else { 0 };
    let c = if v_count_irq { INT_V_COUNTER } else { 0 };
    Interrupts { bits: v | c }
}


/// The cycles a processor's bus gathers before it clocks its devices: the
/// ARM9's 16, the ARM7's 8.
pub const ARM9_CLOCK_BATCH: usize = 16;
pub const ARM7_CLOCK_BATCH: usize = 8;

/// Gathers the processor's cycles until there are enough to clock the
/// devices with.
pub struct CycleBatch {
    pub inner_counter: usize,
    pub threshold: usize,
}

impl CycleBatch {
    pub fn new(threshold: usize) -> (r: Self)
        ensures
            r.inner_counter == 0,
            r.threshold == threshold,
    {
        CycleBatch { inner_counter: 0, threshold }
    }

    /// Adds cycles; once there are at least the threshold's, hands them all
    /// back to clock the devices with and starts again from none.
    pub fn add(&mut self, cycles: usize) -> (r: Option<usize>)
        requires
            old(self).inner_counter + cycles <= usize::MAX,
        ensures
            final(self).threshold == old(self).threshold,
            old(self).inner_counter + cycles < old(self).threshold ==> r is None
                && final(self).inner_counter == old(self).inner_counter + cycles,
            old(self).inner_counter + cycles >= old(self).threshold ==> r == Some(
                (old(self).inner_counter + cycles) as usize,
            ) && final(self).inner_counter == 0,
    {
        self.inner_counter = self.inner_counter + cycles;
        if self.inner_counter < self.threshold {
            None
        } else {
            let n = self.inner_counter;
            self.inner_counter = 0;
            Some(n)
        }
    }
}

} // verus!
