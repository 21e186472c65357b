//! Save memory on the card's serial bus: a chip of known type, or, until the
//! game shows which it uses, a stand-in that watches the commands.
pub mod file;
pub mod eeprom;

use vstd::prelude::*;
use crate::card::save::file::{SaveFile, SaveType};
use crate::card::save::eeprom::{
    State, SmallEEPROM, MediumEEPROM, LargeEEPROM, LARGE_EEPROM_SIZE, SMALL_EEPROM_SIZE,
    MEDIUM_EEPROM_SIZE, STATUS_SMALL, addr_fits, common_command, write_fits, read_fits,
    is_common_command,
};

verus! {

/// A save chip type, as the commands of a game reveal it.
#[derive(Clone, Copy, PartialEq, Eq, Structural)]
pub enum SaveKind {
    Small,
    Medium,
    Large,
    Flash,
}

/// The save device of a game that has no save file yet: it answers no reads
/// and collects hints about the chip from the commands it sees.
pub struct UnknownDevice {
    pub state: State,
    pub write_enable: bool,
    pub block_bytes_read: u32,
    /// 0xF0 was written to the status register: a 9-bit EEPROM.
    pub small_eeprom_status: bool,
    /// An address above 0x1FFFF was read: a 16-bit EEPROM or a FLASH chip.
    pub large_addr_msb: bool,
    /// Estimated number of address bytes.
    pub estimated_addr_size: usize,
    /// The address of the last read.
    pub previous_addr: u32,
    /// Bytes read by the last read before deselection.
    pub prev_bytes_read: u32,
}

impl UnknownDevice {
    /// An address under assembly has had at most three bytes, and fits.
    pub open spec fn wf(&self) -> bool {
        match self.state {
            State::PrepRead { byte, addr } => byte <= 3 && addr_fits(byte, addr),
            _ => true,
        }
    }

    /// The chip that a command in the idle state reveals: a write (0x02)
    /// tells an EEPROM by its address size, 0x0A a 9-bit EEPROM or a FLASH
    /// chip, and 0x0B only a 9-bit EEPROM.
    pub open spec fn detect(&self, data: u8) -> Option<SaveKind> {
        if !(self.state is Idle) {
            None
        } else if data == 0x02 {
            Some(if self.small_eeprom_status || self.estimated_addr_size == 1 {
                SaveKind::Small
            } else if self.estimated_addr_size == 2 || self.large_addr_msb {
                SaveKind::Medium
            } else {
                SaveKind::Large
            })
        } else if data == 0x0A {
            Some(if self.small_eeprom_status || self.estimated_addr_size < 3 {
                SaveKind::Small
            } else {
                SaveKind::Flash
            })
        } else if data == 0x0B {
            Some(SaveKind::Small)
        } else {
            None
        }
    }

    /// A write command can be told apart: by the status hint, or by an
    /// address size of one to three bytes.
    pub open spec fn write_ok(&self, data: u8) -> bool {
        self.state is Idle && data == 0x02 ==> self.small_eeprom_status || (1 <= self.estimated_addr_size
            <= 3)
    }

    /// What writing `data` does where it reveals no chip.
    pub open spec fn write_step(pre: Self, post: Self, data: u8) -> bool {
        &&& post.state == (match pre.state {
            State::Idle => if data == 0x05 {
                State::ReadStatus
            } else if data == 0x01 {
                State::WriteStatus
            } else if data == 0x03 {
                State::PrepRead { byte: 0, addr: 0 }
            } else {
                State::Idle
            },
            State::PrepRead { byte, addr } => if byte == 3 {
                State::Read(addr)
            } else {
                State::PrepRead { byte: (byte + 1) as u8, addr: (addr * 256 + data) as u32 }
            },
            _ => pre.state,
        })
        &&& post.write_enable == (if pre.state is Idle && data == 0x06 {
            true
        } else if pre.state is Idle && data == 0x04 {
            false
        } else {
            pre.write_enable
        })
        &&& post.block_bytes_read == (if pre.state is Idle && data == 0x03 {
            0
        } else if pre.state is Read {
            (if pre.block_bytes_read == u32::MAX { 0 } else { pre.block_bytes_read + 1 }) as u32
        } else {
            pre.block_bytes_read
        })
        &&& post.small_eeprom_status == (pre.small_eeprom_status || (pre.state is WriteStatus && data
            >= 0xF0))
        &&& post.large_addr_msb == pre.large_addr_msb
        &&& post.estimated_addr_size == pre.estimated_addr_size
        &&& post.previous_addr == pre.previous_addr
        &&& post.prev_bytes_read == pre.prev_bytes_read
    }

    /// A device that has seen nothing yet.
    pub open spec fn new_spec() -> Self {
        UnknownDevice {
            state: State::Idle,
            write_enable: false,
            block_bytes_read: 0,
            small_eeprom_status: false,
            large_addr_msb: false,
            estimated_addr_size: 0,
            previous_addr: 0,
            prev_bytes_read: 0,
        }
    }

    pub fn new() -> (r: Self)
        ensures
            r.wf(),
            r == Self::new_spec(),
    {
        UnknownDevice {
            state: State::Idle,
            write_enable: false,
            block_bytes_read: 0,
            small_eeprom_status: false,
            large_addr_msb: false,
            estimated_addr_size: 0,
            previous_addr: 0,
            prev_bytes_read: 0,
        }
    }

    /// Takes a byte from the game. Where it reveals the chip, returns its
    /// type and changes nothing; otherwise notes what it hints.
    pub fn write_byte(&mut self, data: u8) -> (r: Option<SaveKind>)
        requires
            old(self).wf(),
            old(self).write_ok(data),
        ensures
            final(self).wf(),
            r == old(self).detect(data),
            r is Some ==> *final(self) == *old(self),
            r is None ==> Self::write_step(*old(self), *final(self), data),
    {
        match self.state {
            State::Idle => {
                if data == 0x06 {
                    self.write_enable = true;
                } else if data == 0x04 {
                    self.write_enable = false;
                } else if data == 0x05 {
                    self.state = State::ReadStatus;
                } else if data == 0x01 {
                    self.state = State::WriteStatus;
                } else if data == 0x03 {
                    self.state = State::PrepRead { byte: 0, addr: 0 };
                    self.block_bytes_read = 0;
                } else if data == 0x02 {
                    return Some(
                        if self.small_eeprom_status {
                            SaveKind::Small
                        } else if self.estimated_addr_size == 1 {
                            SaveKind::Small
                        } else if self.estimated_addr_size == 2 {
                            SaveKind::Medium
                        } else if self.large_addr_msb {
                            SaveKind::Medium
                        } else {
                            SaveKind::Large
                        },
                    );
                } else if data == 0x0A {
                    return Some(
                        if self.small_eeprom_status || self.estimated_addr_size < 3 {
                            SaveKind::Small
                        } else {
                            SaveKind::Flash
                        },
                    );
                } else if data == 0x0B {
                    return Some(SaveKind::Small);
                }
            },
            State::WriteStatus => {
                if data >= 0xF0 {
                    self.small_eeprom_status = true;
                }
            },
            State::PrepRead { byte: 3, addr } => {
                self.state = State::Read(addr);
            },
            State::PrepRead { byte, addr } => {
                self.state = State::PrepRead { byte: byte + 1, addr: addr * 256 + data as u32 };
            },
            State::Read(_) => {
                self.block_bytes_read = self.block_bytes_read.wrapping_add(1);
            },
            _ => {},
        }
        None
    }

    /// What ending a command teaches: a read that ended after one address
    /// byte, a dummy byte and a read byte points to a one-byte address; one
    /// that ended after two address bytes, to a two-byte address; a longer
    /// read, to three address bytes, unless it continued the last read
    /// block as a two-byte address would.
    pub open spec fn deselect_step(pre: Self, post: Self) -> bool {
        &&& post.state == State::Idle
        &&& post.write_enable == pre.write_enable
        &&& post.block_bytes_read == pre.block_bytes_read
        &&& post.small_eeprom_status == pre.small_eeprom_status
        &&& match pre.state {
            State::PrepRead { byte, addr } => if byte == 2 || byte == 3 {
                &&& post.estimated_addr_size == (if byte == 2 { 1usize } else { 2usize })
                &&& post.previous_addr == addr / 256
                &&& post.prev_bytes_read == pre.block_bytes_read
                &&& post.large_addr_msb == pre.large_addr_msb
            } else {
                &&& post.estimated_addr_size == pre.estimated_addr_size
                &&& post.previous_addr == pre.previous_addr
                &&& post.prev_bytes_read == pre.prev_bytes_read
                &&& post.large_addr_msb == pre.large_addr_msb
            },
            State::Read(addr) => {
                &&& post.estimated_addr_size == (if pre.estimated_addr_size == 0 {
                    3usize
                } else if pre.estimated_addr_size == 3 && pre.previous_addr / 256
                    + pre.prev_bytes_read + 1 == addr / 256 {
                    2usize
                } else {
                    pre.estimated_addr_size
                })
                &&& post.large_addr_msb == (pre.large_addr_msb || ((pre.estimated_addr_size == 0
                    || pre.estimated_addr_size == 3) && addr / 0x10000 > 1))
                &&& post.previous_addr == addr
                &&& post.prev_bytes_read == pre.block_bytes_read
            },
            _ => {
                &&& post.estimated_addr_size == pre.estimated_addr_size
                &&& post.previous_addr == pre.previous_addr
                &&& post.prev_bytes_read == pre.prev_bytes_read
                &&& post.large_addr_msb == pre.large_addr_msb
            },
        }
    }

    /// Ends the command in progress, and learns from how it ended.
    pub fn deselect(&mut self)
        ensures
            final(self).wf(),
            Self::deselect_step(*old(self), *final(self)),
    {
        match self.state {
            State::PrepRead { byte: 2, addr } => {
                self.estimated_addr_size = 1;
                self.previous_addr = addr / 256;
                self.prev_bytes_read = self.block_bytes_read;
            },
            State::PrepRead { byte: 3, addr } => {
                self.estimated_addr_size = 2;
                self.previous_addr = addr / 256;
                self.prev_bytes_read = self.block_bytes_read;
            },
            State::Read(addr) => {
                if self.estimated_addr_size == 0 {
                    self.estimated_addr_size = 3;
                    if addr / 0x10000 > 1 {
                        self.large_addr_msb = true;
                    }
                } else if self.estimated_addr_size == 3 {
                    let expected: u64 = (self.previous_addr / 256) as u64 + self.prev_bytes_read as u64
                        + 1;
                    if expected == (addr / 256) as u64 {
                        self.estimated_addr_size = 2;
                        self.previous_addr = addr / 256;
                    }
                    if addr / 0x10000 > 1 {
                        self.large_addr_msb = true;
                    }
                }
                self.previous_addr = addr;
                self.prev_bytes_read = self.block_bytes_read;
            },
            _ => {},
        }
        self.state = State::Idle;
    }
}


/// How a fresh device learns its chip from the first read command a game
/// sends (0x03, then bytes, then deselection) and names it at the first
/// write command (0x02): a read stopped after two bytes (one address byte
/// and a dummy) means a 9-bit EEPROM; after three bytes (two address bytes
/// and a dummy), a 16-bit EEPROM; a read that went on to read data after
/// three address bytes, a 24-bit EEPROM, unless its address lay above
/// 0x1FFFF, where only a 16-bit EEPROM would have sent it. A write to the
/// status register of 0xF0 or more names a 9-bit EEPROM at once.
pub proof fn lemma_detect_from_read(
    d0: UnknownDevice,
    d1: UnknownDevice,
    d2: UnknownDevice,
    d3: UnknownDevice,
    d4: UnknownDevice,
    d5: UnknownDevice,
    a: u8,
    b: u8,
    c: u8,
    e: u8,
)
    requires
        d0 == UnknownDevice::new_spec(),
        UnknownDevice::write_step(d0, d1, 0x03),
        UnknownDevice::write_step(d1, d2, a),
        UnknownDevice::write_step(d2, d3, b),
    ensures
        UnknownDevice::deselect_step(d3, d4) ==> d4.detect(0x02) == Some(SaveKind::Small),
        UnknownDevice::write_step(d3, d4, c) && UnknownDevice::deselect_step(d4, d5) ==> d5.detect(0x02) == Some(
            SaveKind::Medium,
        ),
        UnknownDevice::write_step(d3, d4, c) && UnknownDevice::write_step(d4, d5, e) ==> ({
            let addr = ((a * 256 + b) * 256 + c) as u32;
            &&& d5.state == State::Read(addr)
            &&& forall|d6: UnknownDevice| #[trigger] UnknownDevice::deselect_step(d5, d6) ==> d6.detect(0x02) == Some(
                if addr / 0x10000 > 1 { SaveKind::Medium } else { SaveKind::Large },
            )
        }),
{
}

/// A status write of 0xF0 or more marks a 9-bit EEPROM, which every later
/// write command then names.
pub proof fn lemma_detect_from_status(d0: UnknownDevice, d1: UnknownDevice, d2: UnknownDevice, status: u8)
    requires
        d0.state is Idle,
        UnknownDevice::write_step(d0, d1, 0x01),
        UnknownDevice::write_step(d1, d2, status),
        status >= 0xF0,
    ensures
        forall|d3: UnknownDevice| #[trigger] UnknownDevice::deselect_step(d2, d3) ==> d3.detect(0x02) == Some(SaveKind::Small)
            && d3.detect(0x0A) == Some(SaveKind::Small),
{
}

/// The chip behind the save bus.
pub enum Device {
    Small(SmallEEPROM),
    Medium(MediumEEPROM),
    Large(LargeEEPROM),
    /// A FLASH chip: its image is kept; it answers no commands.
    Flash(SaveFile),
    Unknown(UnknownDevice),
}

/// The save bus of the card.
pub struct SPI {
    pub device: Device,
}

impl SPI {
    pub open spec fn wf(&self) -> bool {
        match self.device {
            Device::Small(d) => d.wf(),
            Device::Medium(d) => d.wf(),
            Device::Large(d) => d.wf(),
            Device::Flash(_) => true,
            Device::Unknown(d) => d.wf(),
        }
    }

    /// The chip takes `data` now (a chip stops on commands it does not know,
    /// and on writes past its image).
    pub open spec fn write_ok(&self, data: u8) -> bool {
        match self.device {
            Device::Small(d) => d.write_ok(data),
            Device::Medium(d) => d.write_ok(data),
            Device::Large(d) => d.write_ok(data),
            Device::Flash(_) => true,
            Device::Unknown(d) => d.write_ok(data),
        }
    }

    /// A read now stays within the image.
    pub open spec fn read_ok(&self) -> bool {
        match self.device {
            Device::Small(d) => d.read_ok(),
            Device::Medium(d) => d.read_ok(),
            Device::Large(d) => d.read_ok(),
            _ => true,
        }
    }

    /// The save bus as made from a save file's type and image, or with no
    /// save file.
    pub open spec fn made_from(r: SPI, save: Option<(SaveType, Vec<u8>)>) -> bool {
        &&& r.wf()
        &&& match save {
            None => r.device matches Device::Unknown(d) && d == UnknownDevice::new_spec(),
            Some((SaveType::SmallEEPROM(_), v)) => r.device matches Device::Small(d) && d.file.buffer@
                == v@ && !d.file.dirty && d.status == STATUS_SMALL && d.state == State::Idle
                && !d.can_read,
            Some((SaveType::EEPROM(n), v)) => if n == LARGE_EEPROM_SIZE {
                r.device matches Device::Large(d) && d.file.buffer@ == v@ && !d.file.dirty && d.status
                    == 0 && d.state == State::Idle && !d.can_read
            } else {
                r.device matches Device::Medium(d) && d.file.buffer@ == v@ && !d.file.dirty && d.status
                    == 0 && d.state == State::Idle && !d.can_read
            },
            Some((SaveType::FLASH(_), v)) => r.device matches Device::Flash(f) && f.buffer@ == v@
                && !f.dirty,
        }
    }

    /// The save bus of a game, with the save file's type and image where
    /// there is one: a 128 kB EEPROM file gives the 24-bit chip and any
    /// other EEPROM file the 16-bit one.
    pub fn new(save: Option<(SaveType, Vec<u8>)>) -> (r: Self)
        requires
            save matches Some((t, v)) ==> v@.len() == t.size(),
        ensures
            r.wf(),
            Self::made_from(r, save),
    {
        match save {
            Some((save_type, image)) => {
                let file = SaveFile::from_file(image);
                let device = match save_type {
                    SaveType::SmallEEPROM(_) => Device::Small(SmallEEPROM::new_from_file(file)),
                    SaveType::EEPROM(n) => if n == LARGE_EEPROM_SIZE {
                        Device::Large(LargeEEPROM::new_from_file(file))
                    } else {
                        Device::Medium(MediumEEPROM::new_from_file(file))
                    },
                    SaveType::FLASH(_) => Device::Flash(file),
                };
                SPI { device }
            },
            None => SPI { device: Device::Unknown(UnknownDevice::new()) },
        }
    }

    /// What ending a command does to each kind of chip.
    pub open spec fn deselect_rel(pre: SPI, post: SPI) -> bool {
        match pre.device {
            Device::Small(d) => post.device matches Device::Small(e) && e.state == State::Idle
                && !e.can_read && e.file == d.file && e.status == d.status,
            Device::Medium(d) => post.device matches Device::Medium(e) && e.state == State::Idle
                && !e.can_read && e.file == d.file && e.status == d.status,
            Device::Large(d) => post.device matches Device::Large(e) && e.state == State::Idle
                && !e.can_read && e.file == d.file && e.status == d.status,
            Device::Flash(f) => post.device matches Device::Flash(g) && g == f,
            Device::Unknown(d) => post.device matches Device::Unknown(e)
                && UnknownDevice::deselect_step(d, e),
        }
    }

    /// Ends the command in progress.
    pub fn deselect(&mut self)
        requires
            old(self).wf(),
        ensures
            final(self).wf(),
            Self::deselect_rel(*old(self), *final(self)),
    {
        match &mut self.device {
            Device::Small(d) => d.deselect(),
            Device::Medium(d) => d.deselect(),
            Device::Large(d) => d.deselect(),
            Device::Flash(_) => {},
            Device::Unknown(d) => d.deselect(),
        }
    }

    /// What a read does, and the byte it gives.
    pub open spec fn read_rel(pre: SPI, post: SPI, r: u8) -> bool {
        match pre.device {
            Device::Small(d) => post.device matches Device::Small(e) && SmallEEPROM::read_step(
                d,
                e,
                r,
            ),
            Device::Medium(d) => post.device matches Device::Medium(e)
                && MediumEEPROM::read_step(d, e, r),
            Device::Large(d) => post.device matches Device::Large(e) && LargeEEPROM::read_step(
                d,
                e,
                r,
            ),
            _ => r == 0 && post.device == pre.device,
        }
    }

    /// Reads a byte from the chip; nothing answers until the chip is known.
    pub fn read(&mut self) -> (r: u8)
        requires
            old(self).wf(),
            old(self).read_ok(),
        ensures
            final(self).wf(),
            Self::read_rel(*old(self), *final(self), r),
    {
        match &mut self.device {
            Device::Small(d) => d.read_byte(),
            Device::Medium(d) => d.read_byte(),
            Device::Large(d) => d.read_byte(),
            Device::Flash(_) => 0,
            Device::Unknown(_) => 0,
        }
    }

    /// Writes a byte to the chip. Where the unknown device recognises the
    /// chip from it, a blank chip of that type takes its place and takes the
    /// What writing a byte does.
    pub open spec fn write_rel(pre: SPI, post: SPI, data: u8) -> bool {
        match pre.device {
            Device::Small(d) => post.device matches Device::Small(e) && SmallEEPROM::write_step(
                d,
                e,
                data,
            ),
            Device::Medium(d) => post.device matches Device::Medium(e)
                && MediumEEPROM::write_step(d, e, data),
            Device::Large(d) => post.device matches Device::Large(e)
                && LargeEEPROM::write_step(d, e, data),
            Device::Flash(f) => post.device matches Device::Flash(g) && g == f,
            Device::Unknown(d) => match d.detect(data) {
                None => post.device matches Device::Unknown(e) && UnknownDevice::write_step(
                    d,
                    e,
                    data,
                ),
                Some(SaveKind::Small) => post.device matches Device::Small(e) && exists|b:
                    SmallEEPROM|
                    SmallEEPROM::blank(b, d.write_enable) && #[trigger] SmallEEPROM::write_step(
                        b,
                        e,
                        data,
                    ),
                Some(SaveKind::Medium) => post.device matches Device::Medium(e) && exists|b:
                    MediumEEPROM|
                    MediumEEPROM::blank(b, d.write_enable) && #[trigger] MediumEEPROM::write_step(
                        b,
                        e,
                        data,
                    ),
                Some(SaveKind::Large) => post.device matches Device::Large(e) && exists|b:
                    LargeEEPROM|
                    LargeEEPROM::blank(b, d.write_enable) && #[trigger] LargeEEPROM::write_step(
                        b,
                        e,
                        data,
                    ),
                Some(SaveKind::Flash) => post.device matches Device::Flash(g) && g.buffer@.len()
                    == 0 && !g.dirty,
            },
        }
    }

    /// byte.
    pub fn write(&mut self, data: u8)
        requires
            old(self).wf(),
            old(self).write_ok(data),
        ensures
            final(self).wf(),
            Self::write_rel(*old(self), *final(self), data),
    {
        match &mut self.device {
            Device::Small(d) => d.write_byte(data),
            Device::Medium(d) => d.write_byte(data),
            Device::Large(d) => d.write_byte(data),
            Device::Flash(_) => {},
            Device::Unknown(d) => {
                let write_enable = d.write_enable;
                match d.write_byte(data) {
                    None => {},
                    Some(SaveKind::Small) => {
                        let mut chip = SmallEEPROM::new(write_enable);
                        chip.write_byte(data);
                        self.device = Device::Small(chip);
                    },
                    Some(SaveKind::Medium) => {
                        let mut chip = MediumEEPROM::new(write_enable);
                        chip.write_byte(data);
                        self.device = Device::Medium(chip);
                    },
                    Some(SaveKind::Large) => {
                        let mut chip = LargeEEPROM::new(write_enable);
                        chip.write_byte(data);
                        self.device = Device::Large(chip);
                    },
                    Some(SaveKind::Flash) => {
                        self.device = Device::Flash(SaveFile::from_file(Vec::new()));
                    },
                }
            },
        }
    }

    /// The image to store, if the chip is known and its image changed since
    /// it was last handed out.
    pub fn flush(&mut self) -> (r: Option<Vec<u8>>)
        requires
            old(self).wf(),
        ensures
            final(self).wf(),
            match old(self).image() {
                Some(img) => final(self).image() == Some(img) && !final(self).dirty() && match r {
                    Some(v) => old(self).dirty() && v@ == img,
                    None => !old(self).dirty(),
                },
                None => r is None && final(self).device == old(self).device,
            },
    {
        match &mut self.device {
            Device::Small(d) => d.flush(),
            Device::Medium(d) => d.flush(),
            Device::Large(d) => d.flush(),
            Device::Flash(f) => f.flush(),
            Device::Unknown(_) => None,
        }
    }

    /// The image of the known chip.
    pub open spec fn image(&self) -> Option<Seq<u8>> {
        match self.device {
            Device::Small(d) => Some(d.file.buffer@),
            Device::Medium(d) => Some(d.file.buffer@),
            Device::Large(d) => Some(d.file.buffer@),
            Device::Flash(f) => Some(f.buffer@),
            Device::Unknown(_) => None,
        }
    }

    /// The image changed since it was last handed out.
    pub open spec fn dirty(&self) -> bool {
        match self.device {
            Device::Small(d) => d.file.dirty,
            Device::Medium(d) => d.file.dirty,
            Device::Large(d) => d.file.dirty,
            Device::Flash(f) => f.dirty,
            Device::Unknown(_) => false,
        }
    }

    /// The type of the known chip, sized by its image, as a save file
    /// header names it.
    pub fn save_type(&self) -> (r: Option<SaveType>)
        ensures
            match self.device {
                Device::Small(d) => r == Some(SaveType::SmallEEPROM(d.file.buffer@.len() as usize)),
                Device::Medium(d) => r == Some(SaveType::EEPROM(d.file.buffer@.len() as usize)),
                Device::Large(d) => r == Some(SaveType::EEPROM(d.file.buffer@.len() as usize)),
                Device::Flash(f) => r == Some(SaveType::FLASH(f.buffer@.len() as usize)),
                Device::Unknown(_) => r is None,
            },
    {
        match &self.device {
            Device::Small(d) => Some(SaveType::SmallEEPROM(d.file.buffer.len())),
            Device::Medium(d) => Some(SaveType::EEPROM(d.file.buffer.len())),
            Device::Large(d) => Some(SaveType::EEPROM(d.file.buffer.len())),
            Device::Flash(f) => Some(SaveType::FLASH(f.buffer.len())),
            Device::Unknown(_) => None,
        }
    }

    /// Whether the chip takes `data` now.
    pub fn can_write(&self, data: u8) -> (r: bool)
        ensures
            r == self.write_ok(data),
    {
        match &self.device {
            Device::Small(d) => {
                (d.state != State::Idle || is_common_command(data) || data == 0x0B || data == 0x0A)
                    && write_fits(d.state, d.file.buffer.len())
            },
            Device::Medium(d) => (d.state != State::Idle || is_common_command(data)) && write_fits(
                d.state,
                d.file.buffer.len(),
            ),
            Device::Large(d) => (d.state != State::Idle || is_common_command(data)) && write_fits(
                d.state,
                d.file.buffer.len(),
            ),
            Device::Flash(_) => true,
            Device::Unknown(d) => !(d.state == State::Idle && data == 0x02) || d.small_eeprom_status || (1
                <= d.estimated_addr_size && d.estimated_addr_size <= 3),
        }
    }

    /// Whether a read now stays within the image.
    pub fn can_read(&self) -> (r: bool)
        ensures
            r == self.read_ok(),
    {
        match &self.device {
            Device::Small(d) => read_fits(d.state, d.can_read, d.file.buffer.len()),
            Device::Medium(d) => read_fits(d.state, d.can_read, d.file.buffer.len()),
            Device::Large(d) => read_fits(d.state, d.can_read, d.file.buffer.len()),
            _ => true,
        }
    }
}

} // verus!
