//! One processor's end of the inter-processor link: the sync register and
//! the FIFO control. The words travel on a channel between the two
//! processors' threads; this end decides what the registers show and do,
//! given what the channel and the other end report.
use vstd::prelude::*;
use crate::interrupt::{Interrupts, INT_IPC_RECV_NEMPTY, INT_IPC_SEND_EMPTY, INT_IPC_SYNC};

verus! {

pub const IPC_ENABLE_FIFO: u32 = 1 << 15;
pub const IPC_ERROR: u32 = 1 << 14;
pub const IPC_RECV_FIFO_IRQ: u32 = 1 << 10;
pub const IPC_RECV_FIFO_FULL: u32 = 1 << 9;
pub const IPC_RECV_FIFO_EMPTY: u32 = 1 << 8;
pub const IPC_SEND_FIFO_FLUSH: u32 = 1 << 3;
pub const IPC_SEND_FIFO_IRQ: u32 = 1 << 2;
pub const IPC_SEND_FIFO_FULL: u32 = 1 << 1;
pub const IPC_SEND_FIFO_EMPTY: u32 = 1 << 0;
/// The control bits that a write sets.
pub const IPC_WRITE_BITS: u32 = 0x8404;
/// The control bits that are stored: those that writes set, and the error.
pub const IPC_STORED_BITS: u32 = 0xC404;
/// Sync register: raise the other processor's sync interrupt.
pub const SYNC_IRQ_REQUEST: u32 = 0x2000;
/// Sync register: this processor takes sync interrupts.
pub const SYNC_IRQ_ENABLE: u32 = 0x4000;
/// Words the channel holds in each direction.
pub const IPC_FIFO_SIZE: usize = 16;

/// The state of the two directions of the channel as this end sees it.
#[derive(Clone, Copy, PartialEq, Eq, Structural)]
pub struct FifoView {
    pub send_empty: bool,
    pub send_full: bool,
    pub recv_empty: bool,
    pub recv_full: bool,
}

/// One end of the link.
pub struct IPC {
    /// The last word received.
    pub last_word: u32,
    /// The four bits this end shows the other in the sync register.
    pub sync_out: u8,
    /// The FIFO control: enable, error and the two interrupt enables.
    pub control: u32,
    /// The send direction was empty when last looked at, so that the
    /// interrupt is raised on the change only.
    pub was_send_empty: bool,
    pub was_recv_empty: bool,
    pub irq_enable: bool,
    pub name: String,
}

/// The FIFO control with the four channel state bits.
pub open spec fn control_with_view(control: u32, v: FifoView) -> u32 {
    (control & !0x0303u32) | (if v.send_empty { IPC_SEND_FIFO_EMPTY } else { 0 }) | (if v.send_full {
        IPC_SEND_FIFO_FULL
    } else {
        0
    }) | (if v.recv_empty { IPC_RECV_FIFO_EMPTY } else { 0 }) | (if v.recv_full { IPC_RECV_FIFO_FULL } else { 0 })
}

impl IPC {
    /// The control register holds only the bits that writes and errors set.
    pub open spec fn wf(&self) -> bool {
        self.control & !IPC_STORED_BITS == 0
    }

    /// The two ends of a new link, named after their processors: FIFOs off
    /// and empty, no interrupts.
    pub fn new() -> (r: (IPC, IPC))
        ensures
            r.0.wf() && r.1.wf(),
            r.0.name@ == "ARM9"@ && r.1.name@ == "ARM7"@,
            r.0.last_word == 0 && r.0.sync_out == 0 && r.0.control == 0,
            r.0.was_send_empty && r.0.was_recv_empty && !r.0.irq_enable,
            r.1.last_word == 0 && r.1.sync_out == 0 && r.1.control == 0,
            r.1.was_send_empty && r.1.was_recv_empty && !r.1.irq_enable,
    {
        assert(0u32 & !IPC_STORED_BITS == 0) by (bit_vector);
        (
            IPC {
                last_word: 0,
                sync_out: 0,
                control: 0,
                was_send_empty: true,
                was_recv_empty: true,
                irq_enable: false,
                name: "ARM9".to_string(),
            },
            IPC {
                last_word: 0,
                sync_out: 0,
                control: 0,
                was_send_empty: true,
                was_recv_empty: true,
                irq_enable: false,
                name: "ARM7".to_string(),
            },
        )
    }

    /// The interrupts the link raises now: the send FIFO became empty, the
    /// receive FIFO became non-empty (each where enabled, and noted either
    /// way), or the other end asked for a sync interrupt (`sync_requested`,
    /// taken from the other end only while sync interrupts are enabled).
    pub fn get_interrupts(&mut self, send_empty: bool, recv_empty: bool, sync_requested: bool) -> (r: Interrupts)
        ensures
            r.bits == (if old(self).control & IPC_SEND_FIFO_IRQ != 0 && send_empty && !old(self).was_send_empty {
                INT_IPC_SEND_EMPTY
            } else {
                0
            }) | (if old(self).control & IPC_RECV_FIFO_IRQ != 0 && !recv_empty && old(self).was_recv_empty {
                INT_IPC_RECV_NEMPTY
            } else {
                0
            }) | (if old(self).irq_enable && sync_requested { INT_IPC_SYNC } else { 0 }),
            final(self).was_send_empty == (if old(self).control & IPC_SEND_FIFO_IRQ != 0 {
                send_empty
            } else {
                old(self).was_send_empty
            }),
            final(self).was_recv_empty == (if old(self).control & IPC_RECV_FIFO_IRQ != 0 {
                recv_empty
            } else {
                old(self).was_recv_empty
            }),
            final(self).control == old(self).control,
            final(self).last_word == old(self).last_word,
            final(self).sync_out == old(self).sync_out,
            final(self).irq_enable == old(self).irq_enable,
            final(self).name == old(self).name,
    {
        let send_irq = self.control & IPC_SEND_FIFO_IRQ != 0;
        let recv_irq = self.control & IPC_RECV_FIFO_IRQ != 0;
        let a: u32 = if send_irq && send_empty && !self.was_send_empty { INT_IPC_SEND_EMPTY } else { 0 };
        let b: u32 = if recv_irq && !recv_empty && self.was_recv_empty { INT_IPC_RECV_NEMPTY } else { 0 };
        let c: u32 = if self.irq_enable && sync_requested { INT_IPC_SYNC } else { 0 };
        if send_irq {
            self.was_send_empty = send_empty;
        }
        if recv_irq {
            self.was_recv_empty = recv_empty;
        }
        let bits = a | b | c;
        Interrupts { bits }
    }

    /// The sync register: the other end's four bits (`theirs`), this end's
    /// four bits above them, and the interrupt enable.
    pub fn read_sync_reg(&self, theirs: u8) -> (r: u32)
        requires
            theirs < 16,
            self.sync_out < 16,
        ensures
            r == theirs + self.sync_out * 0x100 + (if self.irq_enable { SYNC_IRQ_ENABLE } else { 0 }),
    {
        let out = (theirs as u32) + (self.sync_out as u32) * 0x100;
        assert(out < 0x1000);
        if self.irq_enable {
            out + SYNC_IRQ_ENABLE
        } else {
            out
        }
    }

    /// Writes the sync register: the four bits shown to the other end and
    /// the interrupt enable. Returns whether the other end's sync interrupt
    /// is asked for.
    pub fn write_sync_reg(&mut self, data: u32) -> (r: bool)
        ensures
            final(self).sync_out == (data / 0x100) % 16,
            final(self).irq_enable == (data & SYNC_IRQ_ENABLE != 0),
            r == (data & SYNC_IRQ_REQUEST != 0),
            final(self).control == old(self).control,
            final(self).last_word == old(self).last_word,
            final(self).was_send_empty == old(self).was_send_empty,
            final(self).was_recv_empty == old(self).was_recv_empty,
            final(self).name == old(self).name,
    {
        self.sync_out = ((data / 0x100) % 16) as u8;
        self.irq_enable = data & SYNC_IRQ_ENABLE != 0;
        data & SYNC_IRQ_REQUEST != 0
    }

    /// The FIFO control as read: the stored bits and the channel's state.
    pub fn read_control_reg(&self, view: FifoView) -> (r: u32)
        ensures
            r == control_with_view(self.control, view),
    {
        (self.control & !0x0303u32) | (if view.send_empty { IPC_SEND_FIFO_EMPTY } else { 0 }) | (if view.send_full {
            IPC_SEND_FIFO_FULL
        } else {
            0
        }) | (if view.recv_empty { IPC_RECV_FIFO_EMPTY } else { 0 }) | (if view.recv_full {
            IPC_RECV_FIFO_FULL
        } else {
            0
        })
    }

    /// Writes the FIFO control: the enable and the two interrupt enables
    /// are set; writing the error bit clears the error.
    pub fn write_control_reg(&mut self, data: u32)
        requires
            old(self).wf(),
        ensures
            final(self).wf(),
            final(self).control == (data & IPC_WRITE_BITS) | (if data & IPC_ERROR != 0 {
                0
            } else {
                old(self).control & IPC_ERROR
            }),
            final(self).last_word == old(self).last_word,
            final(self).sync_out == old(self).sync_out,
            final(self).irq_enable == old(self).irq_enable,
            final(self).was_send_empty == old(self).was_send_empty,
            final(self).was_recv_empty == old(self).was_recv_empty,
            final(self).name == old(self).name,
    {
        let prev = self.control;
        let error = if data & IPC_ERROR != 0 { 0 } else { prev & IPC_ERROR };
        assert((prev & IPC_ERROR) == 0u32 || (prev & IPC_ERROR) == IPC_ERROR) by (bit_vector);
        self.control = (data & IPC_WRITE_BITS) | error;
        let c = self.control;
        assert(c & !IPC_STORED_BITS == 0) by (bit_vector)
            requires
                c == (data & IPC_WRITE_BITS) | error,
                error == 0u32 || error == IPC_ERROR,
        ;
    }

    /// The FIFO is on: reads take words from the channel and writes put
    /// them on it.
    pub fn fifo_enabled(&self) -> (r: bool)
        ensures
            r == (self.control & IPC_ENABLE_FIFO != 0),
    {
        self.control & IPC_ENABLE_FIFO != 0
    }

    /// A read of the FIFO, given what the channel gave (`None` where it was
    /// empty; the channel is asked only while the FIFO is on): the word
    /// received, or on an empty channel the error bit and the last word
    /// again.
    pub fn fifo_read(&mut self, received: Option<u32>) -> (r: u32)
        requires
            old(self).wf(),
        ensures
            final(self).wf(),
            old(self).control & IPC_ENABLE_FIFO != 0 && received is Some ==> r == received.unwrap()
                && final(self).last_word == r && final(self).control == old(self).control,
            old(self).control & IPC_ENABLE_FIFO != 0 && received is None ==> r == old(self).last_word
                && final(self).last_word == r && final(self).control == old(self).control | IPC_ERROR,
            old(self).control & IPC_ENABLE_FIFO == 0 ==> r == old(self).last_word
                && final(self).last_word == r && final(self).control == old(self).control,
            final(self).sync_out == old(self).sync_out,
            final(self).irq_enable == old(self).irq_enable,
            final(self).was_send_empty == old(self).was_send_empty,
            final(self).was_recv_empty == old(self).was_recv_empty,
            final(self).name == old(self).name,
    {
        if self.control & IPC_ENABLE_FIFO != 0 {
            match received {
                Some(w) => {
                    self.last_word = w;
                },
                None => {
                    let c = self.control;
                    self.control = c | IPC_ERROR;
                    assert(c & !IPC_STORED_BITS == 0 ==> (c | IPC_ERROR) & !IPC_STORED_BITS == 0)
                        by (bit_vector);
                },
            }
        }
        self.last_word
    }

    /// A write of the FIFO, given whether the channel took the word (it is
    /// offered only while the FIFO is on): a full channel sets the error.
    pub fn fifo_write(&mut self, sent: bool)
        requires
            old(self).wf(),
        ensures
            final(self).wf(),
            final(self).control == (if old(self).control & IPC_ENABLE_FIFO != 0 && !sent {
                old(self).control | IPC_ERROR
            } else {
                old(self).control
            }),
            final(self).last_word == old(self).last_word,
            final(self).sync_out == old(self).sync_out,
            final(self).irq_enable == old(self).irq_enable,
            final(self).was_send_empty == old(self).was_send_empty,
            final(self).was_recv_empty == old(self).was_recv_empty,
            final(self).name == old(self).name,
    {
        if self.control & IPC_ENABLE_FIFO != 0 && !sent {
            let c = self.control;
            self.control = c | IPC_ERROR;
            assert(c & !IPC_STORED_BITS == 0 ==> (c | IPC_ERROR) & !IPC_STORED_BITS == 0)
                by (bit_vector);
        }
    }
}

} // verus!
