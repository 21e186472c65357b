//! Interrupt controller.
use vstd::prelude::*;

verus! {

pub const INT_WIFI: u32 = 1 << 24;
pub const INT_SPI: u32 = 1 << 23;
pub const INT_SCREEN_UNFOLD: u32 = 1 << 22;
pub const INT_GEOM_FIFO: u32 = 1 << 21;
pub const INT_CARD_IRQ: u32 = 1 << 20;
pub const INT_CARD_COMPLETE: u32 = 1 << 19;
pub const INT_IPC_RECV_NEMPTY: u32 = 1 << 18;
pub const INT_IPC_SEND_EMPTY: u32 = 1 << 17;
pub const INT_IPC_SYNC: u32 = 1 << 16;
pub const INT_GAME_PAK: u32 = 1 << 13;
pub const INT_KEYPAD: u32 = 1 << 12;
pub const INT_DMA_3: u32 = 1 << 11;
pub const INT_DMA_2: u32 = 1 << 10;
pub const INT_DMA_1: u32 = 1 << 9;
pub const INT_DMA_0: u32 = 1 << 8;
pub const INT_RTC: u32 = 1 << 7;
pub const INT_TIMER_3: u32 = 1 << 6;
pub const INT_TIMER_2: u32 = 1 << 5;
pub const INT_TIMER_1: u32 = 1 << 4;
pub const INT_TIMER_0: u32 = 1 << 3;
pub const INT_V_COUNTER: u32 = 1 << 2;
pub const INT_H_BLANK: u32 = 1 << 1;
pub const INT_V_BLANK: u32 = 1 << 0;

/// Every defined interrupt bit.
pub const INT_ALL: u32 = 0x01FF_3FFF;

/// A set of interrupt sources, one bit each.
#[derive(Clone, Copy, PartialEq, Eq, Structural)]
pub struct Interrupts {
    pub bits: u32,
}

impl Interrupts {
    pub fn empty() -> (r: Self)
        ensures
            r.bits == 0,
    {
        Interrupts { bits: 0 }
    }

    /// Keep only the defined interrupt bits.
    pub fn from_bits_truncate(bits: u32) -> (r: Self)
        ensures
            r.bits == bits & INT_ALL,
    {
        Interrupts { bits: bits & INT_ALL }
    }

    pub fn bits(&self) -> (r: u32)
        ensures
            r == self.bits,
    {
        self.bits
    }

    /// The union of two sets.
    pub fn union(self, other: Self) -> (r: Self)
        ensures
            r.bits == self.bits | other.bits,
    {
        Interrupts { bits: self.bits | other.bits }
    }

    pub fn is_empty(&self) -> (r: bool)
        ensures
            r == (self.bits == 0),
    {
        self.bits == 0
    }
}

/// Interrupt controller registers: enable, request and master enable.
pub struct InterruptControl {
    pub interrupt_enable: u32,
    pub interrupt_req: u32,
    pub interrupt_master: bool,
    pub name: String,
}

/// Addresses the controller answers.
pub open spec fn interrupt_addr(addr: u32) -> bool {
    addr == 0x0400_0208 || addr == 0x0400_020C || addr == 0x0400_0210 || addr == 0x0400_0214
}

impl InterruptControl {
    pub fn new(name: &str) -> (r: Self)
        ensures
            r.interrupt_enable == 0,
            r.interrupt_req == 0,
            !r.interrupt_master,
            r.name@ == name@,
    {
        InterruptControl {
            interrupt_enable: 0,
            interrupt_req: 0,
            interrupt_master: false,
            name: name.to_owned(),
        }
    }

    /// Set from other devices when an interrupt should happen.
    pub fn interrupt_request(&mut self, interrupts: Interrupts)
        ensures
            final(self).interrupt_req == old(self).interrupt_req | interrupts.bits,
            final(self).interrupt_enable == old(self).interrupt_enable,
            final(self).interrupt_master == old(self).interrupt_master,
            final(self).name == old(self).name,
    {
        self.interrupt_req = self.interrupt_req | interrupts.bits;
    }

    /// Check if an IRQ should be sent to the CPU.
    pub fn irq(&self) -> (r: bool)
        ensures
            r == (self.interrupt_master && (self.interrupt_enable & self.interrupt_req) != 0),
    {
        self.interrupt_master && (self.interrupt_enable & self.interrupt_req) != 0
    }

    pub fn read_word(&self, addr: u32) -> (r: u32)
        requires
            interrupt_addr(addr),
        ensures
            addr == 0x0400_0208 ==> r == (if self.interrupt_master { 1u32 } else { 0u32 }),
            addr == 0x0400_020C ==> r == 0,
            addr == 0x0400_0210 ==> r == self.interrupt_enable,
            addr == 0x0400_0214 ==> r == self.interrupt_req,
    {
        if addr == 0x0400_0208 {
            if self.interrupt_master { 1 } else { 0 }
        } else if addr == 0x0400_020C {
            0
        } else if addr == 0x0400_0210 {
            self.interrupt_enable
        } else {
            self.interrupt_req
        }
    }

    pub fn write_word(&mut self, addr: u32, data: u32)
        requires
            interrupt_addr(addr),
        ensures
            final(self).name == old(self).name,
            addr == 0x0400_0208 ==> final(self).interrupt_master == ((data & 1) == 1)
                && final(self).interrupt_enable == old(self).interrupt_enable
                && final(self).interrupt_req == old(self).interrupt_req,
            addr == 0x0400_020C ==> final(self).interrupt_master == old(self).interrupt_master
                && final(self).interrupt_enable == old(self).interrupt_enable
                && final(self).interrupt_req == old(self).interrupt_req,
            addr == 0x0400_0210 ==> final(self).interrupt_enable == data & INT_ALL
                && final(self).interrupt_master == old(self).interrupt_master
                && final(self).interrupt_req == old(self).interrupt_req,
            addr == 0x0400_0214 ==> final(self).interrupt_req == old(self).interrupt_req & !(data
                & INT_ALL) && final(self).interrupt_master == old(self).interrupt_master
                && final(self).interrupt_enable == old(self).interrupt_enable,
    {
        if addr == 0x0400_0208 {
            self.interrupt_master = (data & 1) == 1;
        } else if addr == 0x0400_020C {
        } else if addr == 0x0400_0210 {
            self.interrupt_enable = data & INT_ALL;
        } else {
            self.interrupt_req = self.interrupt_req & !(data & INT_ALL);
        }
    }
}

/// A requested interrupt stays requested until acknowledged: a request
/// followed by an acknowledgement of other bits keeps the requested bits.
pub proof fn lemma_request_then_ack_others(req: u32, new: u32, ack: u32)
    requires
        new & ack == 0,
    ensures
        ((req | new) & !ack) & new == new,
{
    assert(new & ack == 0 ==> ((req | new) & !ack) & new == new) by (bit_vector);
}

} // verus!
