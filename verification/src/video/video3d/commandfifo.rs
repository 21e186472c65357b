//! The geometry engine's command FIFO.
use vstd::prelude::*;
use std::collections::VecDeque;

verus! {

/// Geometry engine status: the command FIFO interrupt condition, bits 30 and
/// 31.
pub const GXSTAT_CMD_FIFO_INT: u32 = 0xC000_0000;

pub const COMMAND_FIFO_LEN: usize = 256;

/// Geometry engine status: every defined bit, and the flags set from the
/// engine's state: busy, command FIFO empty, under half full, full, and the
/// matrix stack error.
pub const GXSTAT_DEFINED: u32 = 0xCFFF_FF03;
pub const GXSTAT_GEOM_BUSY: u32 = 0x0800_0000;
pub const GXSTAT_CMD_FIFO_EMPTY: u32 = 0x0400_0000;
pub const GXSTAT_CMD_FIFO_UNDER_HALF: u32 = 0x0200_0000;
pub const GXSTAT_CMD_FIFO_FULL: u32 = 0x0100_0000;
pub const GXSTAT_MAT_STACK_ERROR: u32 = 0x0000_8000;
pub const GXSTAT_STATE_FLAGS: u32 = 0x0F00_8000;

/// The geometry engine status word: the FIFO count at bit 16, the
/// projection and position matrix stack levels at bits 13 and 8, kept to
/// the defined bits; then the state flags.
pub open spec fn spec_geom_status(count: u32, proj_level: u32, pos_level: u32, busy: bool, empty: bool, under_half: bool, full: bool, stack_error: bool) -> u32 {
    let fields = ((count << 16u32) | (proj_level << 13u32) | (pos_level << 8u32)) & GXSTAT_DEFINED;
    (fields & !GXSTAT_STATE_FLAGS) | (if busy { GXSTAT_GEOM_BUSY } else { 0 }) | (if empty {
        GXSTAT_CMD_FIFO_EMPTY
    } else {
        0
    }) | (if under_half { GXSTAT_CMD_FIFO_UNDER_HALF } else { 0 }) | (if full { GXSTAT_CMD_FIFO_FULL } else { 0 }) | (
    if stack_error {
        GXSTAT_MAT_STACK_ERROR
    } else {
        0
    })
}

/// When the command FIFO raises its interrupt.
#[derive(Clone, Copy, PartialEq, Eq, Structural)]
pub enum CommandFifoInterruptCond {
    Never,
    UnderHalf,
    Empty,
}

/// The interrupt condition that a status value selects: 1 in the field is
/// under half full, 2 is empty, and 0 or 3 is never.
pub open spec fn cond_of(status_bits: u32) -> CommandFifoInterruptCond {
    if status_bits / 0x4000_0000 == 1 {
        CommandFifoInterruptCond::UnderHalf
    } else if status_bits / 0x4000_0000 == 2 {
        CommandFifoInterruptCond::Empty
    } else {
        CommandFifoInterruptCond::Never
    }
}

/// The command FIFO: commands and their parameters, in the order written.
pub struct GeomCommandFifo {
    pub command_fifo: VecDeque<u32>,
    /// Parameters still owed to the last command written by address.
    pub current_command_args: usize,
    pub interrupt_cond: CommandFifoInterruptCond,
    pub status_bits: u32,
}

impl GeomCommandFifo {
    pub open spec fn contents(&self) -> Seq<u32> {
        self.command_fifo@
    }

    /// The FIFO holds at most 256 words.
    pub open spec fn wf(&self) -> bool {
        self.contents().len() <= COMMAND_FIFO_LEN
    }

    pub fn new() -> (r: Self)
        ensures
            r.wf(),
            r.contents() == Seq::<u32>::empty(),
            r.current_command_args == 0,
            r.interrupt_cond == CommandFifoInterruptCond::Never,
            r.status_bits == 0,
    {
        GeomCommandFifo {
            command_fifo: VecDeque::with_capacity(COMMAND_FIFO_LEN),
            current_command_args: 0,
            interrupt_cond: CommandFifoInterruptCond::Never,
            status_bits: 0,
        }
    }

    /// Pushes a word straight into the FIFO.
    pub fn push_command_buffer(&mut self, data: u32)
        requires
            old(self).wf(),
            old(self).contents().len() < COMMAND_FIFO_LEN,
        ensures
            final(self).wf(),
            final(self).contents() == old(self).contents().push(data),
            final(self).current_command_args == old(self).current_command_args,
            final(self).interrupt_cond == old(self).interrupt_cond,
            final(self).status_bits == old(self).status_bits,
    {
        self.command_fifo.push_back(data);
    }

    /// Room that a write by address needs: a parameter, or the command, and
    /// its first parameter when it takes any.
    pub open spec fn cpu_push_room(&self, num_args: usize) -> nat {
        if self.current_command_args > 0 || num_args == 0 { 1 } else { 2 }
    }

    /// A write by address: a parameter of the command in progress, or a new
    /// command with its first parameter.
    pub fn push_command_cpu(&mut self, data: u32, command: u32, num_args: usize)
        requires
            old(self).wf(),
            old(self).contents().len() + old(self).cpu_push_room(num_args) <= COMMAND_FIFO_LEN,
        ensures
            final(self).wf(),
            old(self).current_command_args > 0 ==> final(self).contents() == old(self).contents().push(data)
                && final(self).current_command_args == old(self).current_command_args - 1,
            old(self).current_command_args == 0 && num_args > 0 ==> final(self).contents() == old(
                self,
            ).contents().push(command).push(data) && final(self).current_command_args == num_args - 1,
            old(self).current_command_args == 0 && num_args == 0 ==> final(self).contents() == old(
                self,
            ).contents().push(command) && final(self).current_command_args == 0,
            final(self).interrupt_cond == old(self).interrupt_cond,
            final(self).status_bits == old(self).status_bits,
    {
        if self.current_command_args > 0 {
            self.push_command_buffer(data);
            self.current_command_args = self.current_command_args - 1;
        } else {
            self.push_command_buffer(command);
            if num_args > 0 {
                self.push_command_buffer(data);
                self.current_command_args = num_args - 1;
            }
        }
    }

    /// Takes the oldest word.
    pub fn pop(&mut self) -> (r: Option<u32>)
        requires
            old(self).wf(),
        ensures
            final(self).wf(),
            old(self).contents().len() == 0 ==> r is None && final(self).contents() == old(self).contents(),
            old(self).contents().len() > 0 ==> r == Some(old(self).contents()[0]) && final(self).contents()
                == old(self).contents().drop_first(),
            final(self).current_command_args == old(self).current_command_args,
            final(self).interrupt_cond == old(self).interrupt_cond,
            final(self).status_bits == old(self).status_bits,
    {
        self.command_fifo.pop_front()
    }

    /// Takes the `n` oldest words, if there are that many.
    pub fn pop_n(&mut self, n: usize) -> (r: Option<Vec<u32>>)
        requires
            old(self).wf(),
        ensures
            final(self).wf(),
            match r {
                Some(v) => n <= old(self).contents().len() && v@ == old(self).contents().take(n as int)
                    && final(self).contents() == old(self).contents().skip(n as int),
                None => n > old(self).contents().len() && final(self).contents() == old(self).contents(),
            },
            final(self).current_command_args == old(self).current_command_args,
            final(self).interrupt_cond == old(self).interrupt_cond,
            final(self).status_bits == old(self).status_bits,
    {
        if self.command_fifo.len() < n {
            return None;
        }
        let ghost start = self.contents();
        let mut out: Vec<u32> = Vec::new();
        let mut i: usize = 0;
        while i < n
            invariant
                i <= n,
                n <= start.len(),
                out@ == start.take(i as int),
                self.contents() == start.skip(i as int),
                self.current_command_args == old(self).current_command_args,
                self.interrupt_cond == old(self).interrupt_cond,
                self.status_bits == old(self).status_bits,
            decreases n - i,
        {
            let ghost before = self.contents();
            match self.command_fifo.pop_front() {
                Some(w) => {
                    out.push(w);
                },
                None => {},
            }
            proof {
                assert(start.take(i as int + 1) == start.take(i as int).push(start[i as int]));
                assert(start.skip(i as int + 1) == start.skip(i as int).drop_first());
            }
            i = i + 1;
        }
        Some(out)
    }

    pub fn len(&self) -> (r: u32)
        requires
            self.wf(),
        ensures
            r == self.contents().len(),
    {
        self.command_fifo.len() as u32
    }

    pub fn is_empty(&self) -> (r: bool)
        ensures
            r == (self.contents().len() == 0),
    {
        self.command_fifo.len() == 0
    }

    /// Fewer than 128 words are waiting.
    pub fn under_half_full(&self) -> (r: bool)
        ensures
            r == (self.contents().len() < COMMAND_FIFO_LEN / 2),
    {
        self.command_fifo.len() < COMMAND_FIFO_LEN / 2
    }

    pub fn is_full(&self) -> (r: bool)
        ensures
            r == (self.contents().len() == COMMAND_FIFO_LEN),
    {
        self.command_fifo.len() == COMMAND_FIFO_LEN
    }

    /// Sets the interrupt condition from the geometry engine status.
    pub fn set_interrupt_cond(&mut self, val: u32)
        ensures
            final(self).status_bits == val & GXSTAT_CMD_FIFO_INT,
            final(self).interrupt_cond == cond_of(val & GXSTAT_CMD_FIFO_INT),
            final(self).contents() == old(self).contents(),
            final(self).current_command_args == old(self).current_command_args,
    {
        self.status_bits = val & GXSTAT_CMD_FIFO_INT;
        let field = self.status_bits / 0x4000_0000;
        self.interrupt_cond = if field == 1 {
            CommandFifoInterruptCond::UnderHalf
        } else if field == 2 {
            CommandFifoInterruptCond::Empty
        } else {
            CommandFifoInterruptCond::Never
        };
    }

    pub fn get_interrupt_cond(&self) -> (r: u32)
        ensures
            r == self.status_bits,
    {
        self.status_bits
    }

    /// The FIFO's condition for an interrupt holds.
    pub fn interrupt(&self) -> (r: bool)
        ensures
            r == match self.interrupt_cond {
                CommandFifoInterruptCond::Never => false,
                CommandFifoInterruptCond::Empty => self.contents().len() == 0,
                CommandFifoInterruptCond::UnderHalf => self.contents().len() < COMMAND_FIFO_LEN / 2,
            },
    {
        match self.interrupt_cond {
            CommandFifoInterruptCond::Never => false,
            CommandFifoInterruptCond::Empty => self.is_empty(),
            CommandFifoInterruptCond::UnderHalf => self.under_half_full(),
        }
    }
}

impl GeomCommandFifo {
    /// The geometry engine status word, from this FIFO and the engine's
    /// busy flag, matrix stack levels and stack error.
    pub fn geom_engine_status(&self, busy: bool, proj_level: u32, pos_level: u32, stack_error: bool) -> (r: u32)
        requires
            self.wf(),
        ensures
            r == spec_geom_status(
                self.contents().len() as u32,
                proj_level,
                pos_level,
                busy,
                self.contents().len() == 0,
                self.contents().len() < COMMAND_FIFO_LEN / 2,
                self.contents().len() == COMMAND_FIFO_LEN,
                stack_error,
            ),
    {
        let count = self.len();
        let fields = ((count << 16u32) | (proj_level << 13u32) | (pos_level << 8u32)) & GXSTAT_DEFINED;
        let busy_bit = if busy { GXSTAT_GEOM_BUSY } else { 0 };
        let empty_bit = if self.is_empty() { GXSTAT_CMD_FIFO_EMPTY } else { 0 };
        let under_half_bit = if self.under_half_full() { GXSTAT_CMD_FIFO_UNDER_HALF } else { 0 };
        let full_bit = if self.is_full() { GXSTAT_CMD_FIFO_FULL } else { 0 };
        let error_bit = if stack_error { GXSTAT_MAT_STACK_ERROR } else { 0 };
        (fields & !GXSTAT_STATE_FLAGS) | busy_bit | empty_bit | under_half_bit | full_bit | error_bit
    }

    /// A write to the geometry engine status: sets the FIFO's interrupt
    /// condition, and says whether it clears the matrix stack error.
    pub fn write_geom_engine_status(&mut self, data: u32) -> (clear_stack_error: bool)
        ensures
            clear_stack_error == (data & GXSTAT_MAT_STACK_ERROR != 0),
            final(self).status_bits == data & GXSTAT_CMD_FIFO_INT,
            final(self).interrupt_cond == cond_of(data & GXSTAT_CMD_FIFO_INT),
            final(self).contents() == old(self).contents(),
            final(self).current_command_args == old(self).current_command_args,
    {
        self.set_interrupt_cond(data);
        data & GXSTAT_MAT_STACK_ERROR != 0
    }
}

/// The FIFO is first in, first out: after words are pushed onto a FIFO
/// holding `pending`, popping gives back `pending` first, then the words in
/// the order they were pushed.
pub proof fn lemma_fifo_order(pending: Seq<u32>, pushed: Seq<u32>)
    ensures
        (pending + pushed).take(pending.len() as int) == pending,
        (pending + pushed).skip(pending.len() as int) == pushed,
{
    assert((pending + pushed).take(pending.len() as int) =~= pending);
    assert((pending + pushed).skip(pending.len() as int) =~= pushed);
}

} // verus!
