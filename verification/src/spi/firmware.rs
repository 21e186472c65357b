//! Firmware flash on the serial bus.
use vstd::prelude::*;

verus! {

pub const FIRMWARE_SIZE: u32 = 256 * 1024;

/// The command in progress: a read collects three address bytes, then each
/// transfer strobes out a byte.
#[derive(Clone, Copy, PartialEq, Eq, Structural)]
pub enum Instruction {
    Idle,
    Read(u8),
    ReadStatus,
}

/// Internal firmware.
pub struct Firmware {
    pub instr: Instruction,
    pub addr: u32,
    pub data: Vec<u8>,
    pub read_buffer: u8,
    pub can_write: bool,
}

impl Firmware {
    pub open spec fn wf(&self) -> bool {
        match self.instr {
            Instruction::Read(n) => n <= 3,
            _ => true,
        }
    }

    /// Firmware holding the given image (empty when there is none).
    pub fn new(data: Vec<u8>) -> (r: Self)
        ensures
            r.wf(),
            r.instr == Instruction::Idle,
            r.addr == 0,
            r.data@ == data@,
            r.read_buffer == 0,
            !r.can_write,
    {
        Firmware { instr: Instruction::Idle, addr: 0, data, read_buffer: 0, can_write: false }
    }

    pub fn deselect(&mut self)
        requires
            old(self).wf(),
        ensures
            final(self).wf(),
            final(self).instr == Instruction::Idle,
            final(self).addr == 0,
            final(self).data == old(self).data,
            final(self).read_buffer == old(self).read_buffer,
            final(self).can_write == old(self).can_write,
    {
        self.instr = Instruction::Idle;
        self.addr = 0;
    }

    /// The byte the last transfer produced.
    pub fn read(&self) -> (r: u8)
        ensures
            r == self.read_buffer,
    {
        self.read_buffer
    }

    /// Commands the firmware understands: read, read status, write enable
    /// and write disable.
    pub open spec fn command_known(data: u8) -> bool {
        data == 0x03 || data == 0x05 || data == 0x06 || data == 0x04
    }

    /// Inputs the firmware can take in its current state.
    pub open spec fn write_ok(&self, data: u8) -> bool {
        match self.instr {
            Instruction::Idle => Self::command_known(data),
            Instruction::Read(n) => n == 0 ==> self.addr < self.data@.len() && self.addr < u32::MAX,
            Instruction::ReadStatus => true,
        }
    }

    /// How a written byte changes the firmware: a command selects a read,
    /// a status read or the write-enable latch; a read collects three address
    /// bytes, then each byte strobes out the next byte of the image.
    pub open spec fn written(new: &Self, old: &Self, data: u8) -> bool {
        &&& new.wf()
        &&& new.data == old.data
        &&& match old.instr {
            Instruction::Idle => if data == 0x03 {
                new.instr == Instruction::Read(3) && new.can_write == old.can_write
            } else if data == 0x05 {
                new.instr == Instruction::ReadStatus && new.can_write == old.can_write
            } else {
                new.instr == old.instr && new.can_write == (data == 0x06)
            },
            Instruction::ReadStatus => new.read_buffer == (if old.can_write { 1u8 } else { 0u8 })
                && new.instr == old.instr && new.addr == old.addr,
            Instruction::Read(n) => if n == 0 {
                new.read_buffer == old.data@[old.addr as int]
                    && new.addr == old.addr + 1 && new.instr == old.instr
            } else {
                new.addr == old.addr | ((data as u32) << (((n - 1) * 8) as u32))
                    && new.instr == Instruction::Read((n - 1) as u8)
                    && new.read_buffer == old.read_buffer
            },
        }
        &&& old.instr is Idle ==> new.addr == old.addr && new.read_buffer == old.read_buffer
        &&& !(old.instr is Idle) ==> new.can_write == old.can_write
    }

    pub fn write(&mut self, data: u8)
        requires
            old(self).wf(),
            old(self).write_ok(data),
        ensures
            Self::written(final(self), old(self), data),
    {
        match self.instr {
            Instruction::Idle => {
                if data == 0x03 {
                    self.instr = Instruction::Read(3);
                } else if data == 0x05 {
                    self.instr = Instruction::ReadStatus;
                } else if data == 0x06 {
                    self.can_write = true;
                } else {
                    self.can_write = false;
                }
            },
            Instruction::ReadStatus => {
                self.read_buffer = if self.can_write { 1 } else { 0 };
            },
            Instruction::Read(n) => {
                if n == 0 {
                    self.read_buffer = self.data[self.addr as usize];
                    self.addr = self.addr + 1;
                } else {
                    self.addr = self.addr | ((data as u32) << (((n - 1) * 8) as u32));
                    self.instr = Instruction::Read(n - 1);
                }
            },
        }
    }
}

} // verus!
