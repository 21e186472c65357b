//! Serial EEPROM save chips with 9-, 16- and 24-bit addresses.
use vstd::prelude::*;
use crate::card::save::file::{SaveFile, SaveType};

verus! {

/// Status register: the bits that mark a 9-bit chip.
pub const STATUS_SMALL: u8 = 0xF0;
/// Status register: block write protection.
pub const STATUS_WRITE_PROTECT: u8 = 0x0C;
/// Status register: writes are enabled.
pub const STATUS_WRITE_ENABLE: u8 = 0x02;
/// Status register: a write is in progress.
pub const STATUS_WRITE_ACTIVE: u8 = 0x01;

pub const SMALL_EEPROM_SIZE: usize = 512;
pub const MEDIUM_EEPROM_SIZE: usize = 64 * 1024;
pub const LARGE_EEPROM_SIZE: usize = 128 * 1024;

/// Where a save chip is in its command.
#[derive(Clone, Copy, PartialEq, Eq, Structural)]
pub enum State {
    Idle,
    ReadStatus,
    WriteStatus,
    /// Collecting the address of a read: `byte` address bytes so far.
    PrepRead { byte: u8, addr: u32 },
    /// Reading from the address.
    Read(u32),
    /// Collecting the address of a write.
    PrepWrite { byte: u8, addr: u32 },
    /// Writing to the address.
    Write(u32),
}

/// An address assembled from `byte` address bytes fits in them.
pub open spec fn addr_fits(byte: u8, addr: u32) -> bool {
    &&& byte == 0 ==> addr == 0
    &&& byte == 1 ==> addr < 0x100
    &&& byte == 2 ==> addr < 0x10000
    &&& byte == 3 ==> addr < 0x1000000
}

/// The status register after a byte is written in `state`: write enable
/// and write disable in the idle state, the whole register in the write
/// status state.
pub open spec fn status_after(state: State, status: u8, data: u8) -> u8 {
    match state {
        State::Idle => if data == 0x06 {
            status | STATUS_WRITE_ENABLE
        } else if data == 0x04 {
            status & !STATUS_WRITE_ENABLE
        } else {
            status
        },
        State::WriteStatus => data,
        _ => status,
    }
}

/// A read is let through once a byte has been written after a read
/// command.
pub open spec fn can_read_after(state: State, can_read: bool) -> bool {
    can_read || state is ReadStatus || state is Read
}

/// The save image after a byte is written in `state`.
pub open spec fn image_after(state: State, image: Seq<u8>, data: u8) -> Seq<u8> {
    match state {
        State::Write(a) => image.update(a as int, data),
        _ => image,
    }
}

/// The state that a command byte starts in the idle state, for chips that
/// take one address form per command.
pub open spec fn command_state(data: u8) -> State {
    if data == 0x05 {
        State::ReadStatus
    } else if data == 0x01 {
        State::WriteStatus
    } else if data == 0x03 {
        State::PrepRead { byte: 0, addr: 0 }
    } else if data == 0x02 {
        State::PrepWrite { byte: 0, addr: 0 }
    } else {
        State::Idle
    }
}

/// Command bytes that every EEPROM takes.
pub open spec fn common_command(data: u8) -> bool {
    data == 0x06 || data == 0x04 || data == 0x05 || data == 0x01 || data == 0x03 || data == 0x02
        || data == 0x00
}

/// The state after a byte is written in the states that all chips share.
pub open spec fn shared_next(state: State) -> State {
    match state {
        State::WriteStatus => State::Idle,
        State::Write(a) => State::Write((a + 1) as u32),
        _ => state,
    }
}

/// What a read gives in `state`, and the state after it.
pub open spec fn read_result(state: State, can_read: bool, status: u8, image: Seq<u8>) -> (u8, State) {
    match state {
        State::ReadStatus => if can_read { (status, State::Idle) } else { (0, state) },
        State::Read(a) => if can_read { (image[a as int], State::Read((a + 1) as u32)) } else { (0, state) },
        _ => (0, state),
    }
}

/// A read in `state` stays within the image.
pub open spec fn read_in_range(state: State, can_read: bool, len: nat) -> bool {
    match state {
        State::Read(a) => can_read ==> a < len && a < u32::MAX,
        _ => true,
    }
}

/// A write in `state` stays within the image.
pub open spec fn write_in_range(state: State, len: nat) -> bool {
    match state {
        State::Write(a) => a < len && a < u32::MAX,
        _ => true,
    }
}


/// Whether a write in `state` stays within an image of `len` bytes.
pub fn write_fits(state: State, len: usize) -> (r: bool)
    ensures
        r == write_in_range(state, len as nat),
{
    match state {
        State::Write(a) => (a as usize) < len && a < u32::MAX,
        _ => true,
    }
}

/// Whether a read in `state` stays within an image of `len` bytes.
pub fn read_fits(state: State, can_read: bool, len: usize) -> (r: bool)
    ensures
        r == read_in_range(state, can_read, len as nat),
{
    match state {
        State::Read(a) => !can_read || ((a as usize) < len && a < u32::MAX),
        _ => true,
    }
}

/// Command bytes that every EEPROM takes.
pub fn is_common_command(data: u8) -> (r: bool)
    ensures
        r == common_command(data),
{
    data == 0x06 || data == 0x04 || data == 0x05 || data == 0x01 || data == 0x03 || data == 0x02
        || data == 0x00
}

/// EEPROM with a 9-bit address (4 kbit, 512 bytes): the ninth bit comes with
/// the command.
pub struct SmallEEPROM {
    pub file: SaveFile,
    pub status: u8,
    pub state: State,
    pub can_read: bool,
}

/// EEPROM with a 16-bit address (8 to 512 kbit, 1 to 64 kB).
pub struct MediumEEPROM {
    pub file: SaveFile,
    pub status: u8,
    pub state: State,
    pub can_read: bool,
}

/// EEPROM with a 24-bit address (1 Mbit, 128 kB).
pub struct LargeEEPROM {
    pub file: SaveFile,
    pub status: u8,
    pub state: State,
    pub can_read: bool,
}


impl SmallEEPROM {
    /// An address under assembly holds only the ninth bit.
    pub open spec fn wf(&self) -> bool {
        match self.state {
            State::PrepRead { byte, addr } => byte == 0 && (addr == 0 || addr == 0x100),
            State::PrepWrite { byte, addr } => byte == 0 && (addr == 0 || addr == 0x100),
            _ => true,
        }
    }

    /// The state after a byte is written: one address byte, whose ninth bit
    /// came with the command (0x0B and 0x0A address the upper half), then data.
    pub open spec fn next_state(state: State, data: u8) -> State {
        match state {
            State::Idle => if data == 0x0B {
                State::PrepRead { byte: 0, addr: 0x100 }
            } else if data == 0x0A {
                State::PrepWrite { byte: 0, addr: 0x100 }
            } else {
                command_state(data)
            },
            State::PrepRead { byte, addr } => State::Read((addr + data) as u32),
            State::PrepWrite { byte, addr } => State::Write((addr + data) as u32),
            _ => shared_next(state),
        }
    }

    /// The chip takes `data` now: a known command when idle, and a write
    /// within the image.
    pub open spec fn write_ok(&self, data: u8) -> bool {
        &&& self.state is Idle ==> (common_command(data) || data == 0x0B || data == 0x0A)
        &&& write_in_range(self.state, self.file.buffer@.len())
    }

    /// A read now stays within the image.
    pub open spec fn read_ok(&self) -> bool {
        read_in_range(self.state, self.can_read, self.file.buffer@.len())
    }

    /// A blank chip as it is made, with writes enabled as given.
    pub open spec fn blank(r: Self, write_enable: bool) -> bool {
        &&& r.wf()
        &&& r.file.buffer@ == Seq::new(SMALL_EEPROM_SIZE as nat, |i: int| 0u8)
        &&& !r.file.dirty
        &&& r.status == (if write_enable { STATUS_SMALL | STATUS_WRITE_ENABLE } else { STATUS_SMALL })
        &&& r.state == State::Idle
        &&& !r.can_read
    }

    /// What writing `data` does: the next state, the status register, the
    /// read gate and the image.
    pub open spec fn write_step(pre: Self, post: Self, data: u8) -> bool {
        &&& post.state == Self::next_state(pre.state, data)
        &&& post.status == status_after(pre.state, pre.status, data)
        &&& post.can_read == can_read_after(pre.state, pre.can_read)
        &&& post.file.buffer@ == image_after(pre.state, pre.file.buffer@, data)
        &&& post.file.dirty == (pre.file.dirty || pre.state is Write)
    }

    /// What a read does: the byte it gives and the state after it.
    pub open spec fn read_step(pre: Self, post: Self, r: u8) -> bool {
        &&& (r, post.state) == read_result(pre.state, pre.can_read, pre.status, pre.file.buffer@)
        &&& post.file == pre.file
        &&& post.status == pre.status
        &&& post.can_read == pre.can_read
    }

    /// A blank chip, with writes enabled as given.
    pub fn new(write_enable: bool) -> (r: Self)
        ensures
            Self::blank(r, write_enable),
    {
        SmallEEPROM {
            file: SaveFile::from_type(SaveType::SmallEEPROM(SMALL_EEPROM_SIZE)),
            status: if write_enable { STATUS_SMALL | STATUS_WRITE_ENABLE } else { STATUS_SMALL },
            state: State::Idle,
            can_read: false,
        }
    }

    /// A chip holding a stored image.
    pub fn new_from_file(file: SaveFile) -> (r: Self)
        ensures
            r.wf(),
            r.file == file,
            r.status == STATUS_SMALL,
            r.state == State::Idle,
            !r.can_read,
    {
        SmallEEPROM { file, status: STATUS_SMALL, state: State::Idle, can_read: false }
    }

    pub fn read_byte(&mut self) -> (r: u8)
        requires
            old(self).wf(),
            old(self).read_ok(),
        ensures
            final(self).wf(),
            Self::read_step(*old(self), *final(self), r),
    {
        if !self.can_read {
            return 0;
        }
        match self.state {
            State::ReadStatus => {
                self.state = State::Idle;
                self.status
            },
            State::Read(addr) => {
                let data = self.file.read_byte(addr);
                self.state = State::Read(addr + 1);
                data
            },
            _ => 0,
        }
    }

    pub fn write_byte(&mut self, data: u8)
        requires
            old(self).wf(),
            old(self).write_ok(data),
        ensures
            final(self).wf(),
            Self::write_step(*old(self), *final(self), data),
    {
        match self.state {
            State::Idle => {
                if data == 0x06 {
                    self.status = self.status | STATUS_WRITE_ENABLE;
                } else if data == 0x04 {
                    self.status = self.status & !STATUS_WRITE_ENABLE;
                } else if data == 0x05 {
                    self.state = State::ReadStatus;
                } else if data == 0x01 {
                    self.state = State::WriteStatus;
                } else if data == 0x03 {
                    self.state = State::PrepRead { byte: 0, addr: 0 };
                } else if data == 0x0B {
                    self.state = State::PrepRead { byte: 0, addr: 0x100 };
                } else if data == 0x02 {
                    self.state = State::PrepWrite { byte: 0, addr: 0 };
                } else if data == 0x0A {
                    self.state = State::PrepWrite { byte: 0, addr: 0x100 };
                }
            },
            State::PrepRead { byte: _, addr } => {
                self.state = State::Read(addr + data as u32);
            },
            State::PrepWrite { byte: _, addr } => {
                self.state = State::Write(addr + data as u32);
            },
            State::WriteStatus => {
                self.status = data;
                self.state = State::Idle;
            },
            State::Write(addr) => {
                self.file.write_byte(addr, data);
                self.state = State::Write(addr + 1);
            },
            _ => {
                self.can_read = true;
            },
        }
    }

    /// Ends the command in progress.
    pub fn deselect(&mut self)
        ensures
            final(self).wf(),
            final(self).state == State::Idle,
            !final(self).can_read,
            final(self).file == old(self).file,
            final(self).status == old(self).status,
    {
        self.state = State::Idle;
        self.can_read = false;
    }

    /// The image to store, if it changed since it was last handed out.
    pub fn flush(&mut self) -> (r: Option<Vec<u8>>)
        ensures
            final(self).file.buffer@ == old(self).file.buffer@,
            !final(self).file.dirty,
            match r {
                Some(v) => old(self).file.dirty && v@ == old(self).file.buffer@,
                None => !old(self).file.dirty,
            },
            final(self).status == old(self).status,
            final(self).state == old(self).state,
            final(self).can_read == old(self).can_read,
    {
        self.file.flush()
    }
}


impl MediumEEPROM {
    /// An address under assembly has had at most one byte, and fits in it.
    pub open spec fn wf(&self) -> bool {
        match self.state {
            State::PrepRead { byte, addr } => byte <= 1 && addr_fits(byte, addr),
            State::PrepWrite { byte, addr } => byte <= 1 && addr_fits(byte, addr),
            _ => true,
        }
    }

    /// The state after a byte is written: two address bytes, most
    /// significant first, then data.
    pub open spec fn next_state(state: State, data: u8) -> State {
        match state {
            State::Idle => command_state(data),
            State::PrepRead { byte, addr } => if byte == 1 {
                State::Read((addr * 256 + data) as u32)
            } else {
                State::PrepRead { byte: 1, addr: data as u32 }
            },
            State::PrepWrite { byte, addr } => if byte == 1 {
                State::Write((addr * 256 + data) as u32)
            } else {
                State::PrepWrite { byte: 1, addr: data as u32 }
            },
            _ => shared_next(state),
        }
    }

    /// The chip takes `data` now: a known command when idle, and a write
    /// within the image.
    pub open spec fn write_ok(&self, data: u8) -> bool {
        &&& self.state is Idle ==> common_command(data)
        &&& write_in_range(self.state, self.file.buffer@.len())
    }

    /// A read now stays within the image.
    pub open spec fn read_ok(&self) -> bool {
        read_in_range(self.state, self.can_read, self.file.buffer@.len())
    }

    /// A blank chip as it is made, with writes enabled as given.
    pub open spec fn blank(r: Self, write_enable: bool) -> bool {
        &&& r.wf()
        &&& r.file.buffer@ == Seq::new(MEDIUM_EEPROM_SIZE as nat, |i: int| 0u8)
        &&& !r.file.dirty
        &&& r.status == (if write_enable { STATUS_WRITE_ENABLE } else { 0u8 })
        &&& r.state == State::Idle
        &&& !r.can_read
    }

    /// What writing `data` does: the next state, the status register, the
    /// read gate and the image.
    pub open spec fn write_step(pre: Self, post: Self, data: u8) -> bool {
        &&& post.state == Self::next_state(pre.state, data)
        &&& post.status == status_after(pre.state, pre.status, data)
        &&& post.can_read == can_read_after(pre.state, pre.can_read)
        &&& post.file.buffer@ == image_after(pre.state, pre.file.buffer@, data)
        &&& post.file.dirty == (pre.file.dirty || pre.state is Write)
    }

    /// What a read does: the byte it gives and the state after it.
    pub open spec fn read_step(pre: Self, post: Self, r: u8) -> bool {
        &&& (r, post.state) == read_result(pre.state, pre.can_read, pre.status, pre.file.buffer@)
        &&& post.file == pre.file
        &&& post.status == pre.status
        &&& post.can_read == pre.can_read
    }

    /// A blank chip, with writes enabled as given.
    pub fn new(write_enable: bool) -> (r: Self)
        ensures
            Self::blank(r, write_enable),
    {
        MediumEEPROM {
            file: SaveFile::from_type(SaveType::EEPROM(MEDIUM_EEPROM_SIZE)),
            status: if write_enable { STATUS_WRITE_ENABLE } else { 0 },
            state: State::Idle,
            can_read: false,
        }
    }

    /// A chip holding a stored image.
    pub fn new_from_file(file: SaveFile) -> (r: Self)
        ensures
            r.wf(),
            r.file == file,
            r.status == 0,
            r.state == State::Idle,
            !r.can_read,
    {
        MediumEEPROM { file, status: 0, state: State::Idle, can_read: false }
    }

    pub fn read_byte(&mut self) -> (r: u8)
        requires
            old(self).wf(),
            old(self).read_ok(),
        ensures
            final(self).wf(),
            Self::read_step(*old(self), *final(self), r),
    {
        if !self.can_read {
            return 0;
        }
        match self.state {
            State::ReadStatus => {
                self.state = State::Idle;
                self.status
            },
            State::Read(addr) => {
                let data = self.file.read_byte(addr);
                self.state = State::Read(addr + 1);
                data
            },
            _ => 0,
        }
    }

    pub fn write_byte(&mut self, data: u8)
        requires
            old(self).wf(),
            old(self).write_ok(data),
        ensures
            final(self).wf(),
            Self::write_step(*old(self), *final(self), data),
    {
        match self.state {
            State::Idle => {
                if data == 0x06 {
                    self.status = self.status | STATUS_WRITE_ENABLE;
                } else if data == 0x04 {
                    self.status = self.status & !STATUS_WRITE_ENABLE;
                } else if data == 0x05 {
                    self.state = State::ReadStatus;
                } else if data == 0x01 {
                    self.state = State::WriteStatus;
                } else if data == 0x03 {
                    self.state = State::PrepRead { byte: 0, addr: 0 };
                } else if data == 0x02 {
                    self.state = State::PrepWrite { byte: 0, addr: 0 };
                }
            },
            State::PrepRead { byte: 1, addr } => {
                self.state = State::Read(addr * 256 + data as u32);
            },
            State::PrepRead { byte: _, addr: _ } => {
                self.state = State::PrepRead { byte: 1, addr: data as u32 };
            },
            State::PrepWrite { byte: 1, addr } => {
                self.state = State::Write(addr * 256 + data as u32);
            },
            State::PrepWrite { byte: _, addr: _ } => {
                self.state = State::PrepWrite { byte: 1, addr: data as u32 };
            },
            State::WriteStatus => {
                self.status = data;
                self.state = State::Idle;
            },
            State::Write(addr) => {
                self.file.write_byte(addr, data);
                self.state = State::Write(addr + 1);
            },
            _ => {
                self.can_read = true;
            },
        }
    }

    /// Ends the command in progress.
    pub fn deselect(&mut self)
        ensures
            final(self).wf(),
            final(self).state == State::Idle,
            !final(self).can_read,
            final(self).file == old(self).file,
            final(self).status == old(self).status,
    {
        self.state = State::Idle;
        self.can_read = false;
    }

    /// The image to store, if it changed since it was last handed out.
    pub fn flush(&mut self) -> (r: Option<Vec<u8>>)
        ensures
            final(self).file.buffer@ == old(self).file.buffer@,
            !final(self).file.dirty,
            match r {
                Some(v) => old(self).file.dirty && v@ == old(self).file.buffer@,
                None => !old(self).file.dirty,
            },
            final(self).status == old(self).status,
            final(self).state == old(self).state,
            final(self).can_read == old(self).can_read,
    {
        self.file.flush()
    }
}


/// On the 9-bit-address EEPROM the command carries the ninth address bit:
/// 0x02 and 0x03 write and read at the address byte `l` in the lower half,
/// 0x0A and 0x0B at `0x100 + l` in the upper half. A byte written that way
/// reads back from the same address, and every other byte stays.
pub proof fn lemma_small_write_then_read(image: Seq<u8>, upper: bool, l: u8, d: u8, status: u8)
    requires
        image.len() == SMALL_EEPROM_SIZE,
    ensures
        ({
            let a = if upper { 0x100 + l as int } else { l as int };
            let w = SmallEEPROM::next_state(SmallEEPROM::next_state(State::Idle, if upper { 0x0Au8 } else { 0x02u8 }), l);
            let r = SmallEEPROM::next_state(SmallEEPROM::next_state(State::Idle, if upper { 0x0Bu8 } else { 0x03u8 }), l);
            let written = image_after(w, image, d);
            &&& w == State::Write(a as u32)
            &&& r == State::Read(a as u32)
            &&& read_result(r, true, status, written).0 == d
            &&& forall|j: int| 0 <= j < image.len() && j != a ==> written[j] == image[j]
        }),
{
}

/// On the 24-bit-address EEPROM a read command 0x03 takes its address
/// bytes high first, as a write does, so it reads from `a2 * 0x1_0000 +
/// a1 * 0x100 + a0` and then on from there.
pub proof fn lemma_large_read_address(a2: u8, a1: u8, a0: u8)
    ensures
        LargeEEPROM::next_state(
            LargeEEPROM::next_state(
                LargeEEPROM::next_state(LargeEEPROM::next_state(State::Idle, 0x03), a2),
                a1,
            ),
            a0,
        ) == State::Read((a2 * 0x1_0000 + a1 * 0x100 + a0) as u32),
{
}

/// On the 16-bit-address EEPROM, a write command 0x02 with address bytes
/// `h` and `l` (high first) writes at `h * 256 + l`, and a read command 0x03
/// with the same bytes reads from there: a byte written that way reads
/// back, while every other byte of the image stays.
pub proof fn lemma_medium_write_then_read(image: Seq<u8>, h: u8, l: u8, d: u8, status: u8)
    requires
        h as int * 256 + l < image.len(),
    ensures
        ({
            let a = h as int * 256 + l as int;
            let w = MediumEEPROM::next_state(
                MediumEEPROM::next_state(MediumEEPROM::next_state(State::Idle, 0x02), h),
                l,
            );
            let r = MediumEEPROM::next_state(
                MediumEEPROM::next_state(MediumEEPROM::next_state(State::Idle, 0x03), h),
                l,
            );
            let written = image_after(w, image, d);
            &&& w == State::Write(a as u32)
            &&& r == State::Read(a as u32)
            &&& read_result(r, true, status, written).0 == d
            &&& forall|j: int| 0 <= j < image.len() && j != a ==> written[j] == image[j]
        }),
{
}

/// A large EEPROM's state and image after the bytes are written in turn.
pub open spec fn large_writes(state: State, image: Seq<u8>, bytes: Seq<u8>) -> (State, Seq<u8>)
    decreases bytes.len(),
{
    if bytes.len() == 0 {
        (state, image)
    } else {
        let (s, i) = large_writes(state, image, bytes.drop_last());
        (LargeEEPROM::next_state(s, bytes.last()), image_after(s, i, bytes.last()))
    }
}

/// Writing two runs of bytes is writing the first, then the second.
pub proof fn lemma_large_writes_append(state: State, image: Seq<u8>, xs: Seq<u8>, ys: Seq<u8>)
    ensures
        large_writes(state, image, xs + ys) == large_writes(
            large_writes(state, image, xs).0,
            large_writes(state, image, xs).1,
            ys,
        ),
    decreases ys.len(),
{
    if ys.len() > 0 {
        lemma_large_writes_append(state, image, xs, ys.drop_last());
        assert((xs + ys).drop_last() =~= xs + ys.drop_last());
        assert((xs + ys).last() == ys.last());
    } else {
        assert(xs + ys =~= xs);
    }
}

/// Data bytes in the write state go to successive addresses.
pub proof fn lemma_large_data_writes(a: u32, image: Seq<u8>, data: Seq<u8>)
    requires
        a + data.len() <= image.len(),
        a + data.len() < u32::MAX,
    ensures
        large_writes(State::Write(a), image, data).0 == State::Write((a + data.len()) as u32),
        large_writes(State::Write(a), image, data).1.len() == image.len(),
        forall|j: int|
            0 <= j < image.len() ==> #[trigger] large_writes(State::Write(a), image, data).1[j] == if a <= j < a
                + data.len() {
                data[j - a]
            } else {
                image[j]
            },
    decreases data.len(),
{
    if data.len() > 0 {
        let rest = data.drop_last();
        lemma_large_data_writes(a, image, rest);
    }
}

/// A write command, three address bytes (most significant first) and `k`
/// data bytes put the data at the address and after it, leave every other
/// byte of the image alone, and leave the chip ready for the byte after
/// them. The status register's write enable bit plays no part.
pub proof fn lemma_large_write_sequence(image: Seq<u8>, a2: u8, a1: u8, a0: u8, data: Seq<u8>)
    requires
        a2 * 0x1_0000 + a1 * 0x100 + a0 + data.len() <= image.len(),
        image.len() <= LARGE_EEPROM_SIZE,
    ensures
        ({
            let a = a2 * 0x1_0000 + a1 * 0x100 + a0;
            let (state, out) = large_writes(State::Idle, image, seq![0x02u8, a2, a1, a0] + data);
            &&& state == State::Write((a + data.len()) as u32)
            &&& out.len() == image.len()
            &&& forall|j: int|
                0 <= j < image.len() ==> #[trigger] out[j] == if a <= j < a + data.len() {
                    data[j - a]
                } else {
                    image[j]
                }
        }),
{
    let prefix = seq![0x02u8, a2, a1, a0];
    let a = a2 * 0x1_0000 + a1 * 0x100 + a0;
    lemma_large_writes_append(State::Idle, image, prefix, data);
    assert(prefix.drop_last() =~= seq![0x02u8, a2, a1]);
    assert(seq![0x02u8, a2, a1].drop_last() =~= seq![0x02u8, a2]);
    assert(seq![0x02u8, a2].drop_last() =~= seq![0x02u8]);
    assert(seq![0x02u8].drop_last() =~= Seq::<u8>::empty());
    assert(large_writes(State::Idle, image, Seq::<u8>::empty()) == (State::Idle, image));
    assert(seq![0x02u8].last() == 0x02u8);
    assert(command_state(0x02u8) == (State::PrepWrite { byte: 0, addr: 0 }));
    assert(large_writes(State::Idle, image, seq![0x02u8]) == (State::PrepWrite { byte: 0, addr: 0 }, image));
    assert(seq![0x02u8, a2].last() == a2);
    assert(seq![0x02u8, a2, a1].last() == a1);
    assert(prefix.last() == a0);
    assert(large_writes(State::Idle, image, seq![0x02u8, a2]) == (State::PrepWrite { byte: 1, addr: a2 as u32 }, image));
    assert(large_writes(State::Idle, image, seq![0x02u8, a2, a1]) == (State::PrepWrite {
        byte: 2,
        addr: (a2 * 0x100 + a1) as u32,
    }, image));
    assert(large_writes(State::Idle, image, prefix) == (State::Write(a as u32), image));
    lemma_large_data_writes(a as u32, image, data);
}

impl LargeEEPROM {
    /// An address under assembly has had at most two bytes, and fits in them.
    pub open spec fn wf(&self) -> bool {
        match self.state {
            State::PrepRead { byte, addr } => byte <= 2 && addr_fits(byte, addr),
            State::PrepWrite { byte, addr } => byte <= 2 && addr_fits(byte, addr),
            _ => true,
        }
    }

    /// The state after a byte is written: three address bytes, most
    /// significant first, then data.
    pub open spec fn next_state(state: State, data: u8) -> State {
        match state {
            State::Idle => command_state(data),
            State::PrepRead { byte, addr } => if byte == 2 {
                State::Read((addr * 256 + data) as u32)
            } else {
                State::PrepRead { byte: (byte + 1) as u8, addr: (addr * 256 + data) as u32 }
            },
            State::PrepWrite { byte, addr } => if byte == 2 {
                State::Write((addr * 256 + data) as u32)
            } else {
                State::PrepWrite { byte: (byte + 1) as u8, addr: (addr * 256 + data) as u32 }
            },
            _ => shared_next(state),
        }
    }

    /// The chip takes `data` now: a known command when idle, and a write
    /// within the image.
    pub open spec fn write_ok(&self, data: u8) -> bool {
        &&& self.state is Idle ==> common_command(data)
        &&& write_in_range(self.state, self.file.buffer@.len())
    }

    /// A read now stays within the image.
    pub open spec fn read_ok(&self) -> bool {
        read_in_range(self.state, self.can_read, self.file.buffer@.len())
    }

    /// A blank chip as it is made, with writes enabled as given.
    pub open spec fn blank(r: Self, write_enable: bool) -> bool {
        &&& r.wf()
        &&& r.file.buffer@ == Seq::new(LARGE_EEPROM_SIZE as nat, |i: int| 0u8)
        &&& !r.file.dirty
        &&& r.status == (if write_enable { STATUS_WRITE_ENABLE } else { 0u8 })
        &&& r.state == State::Idle
        &&& !r.can_read
    }

    /// What writing `data` does: the next state, the status register, the
    /// read gate and the image.
    pub open spec fn write_step(pre: Self, post: Self, data: u8) -> bool {
        &&& post.state == Self::next_state(pre.state, data)
        &&& post.status == status_after(pre.state, pre.status, data)
        &&& post.can_read == can_read_after(pre.state, pre.can_read)
        &&& post.file.buffer@ == image_after(pre.state, pre.file.buffer@, data)
        &&& post.file.dirty == (pre.file.dirty || pre.state is Write)
    }

    /// What a read does: the byte it gives and the state after it.
    pub open spec fn read_step(pre: Self, post: Self, r: u8) -> bool {
        &&& (r, post.state) == read_result(pre.state, pre.can_read, pre.status, pre.file.buffer@)
        &&& post.file == pre.file
        &&& post.status == pre.status
        &&& post.can_read == pre.can_read
    }

    /// A blank chip, with writes enabled as given.
    pub fn new(write_enable: bool) -> (r: Self)
        ensures
            Self::blank(r, write_enable),
    {
        LargeEEPROM {
            file: SaveFile::from_type(SaveType::EEPROM(LARGE_EEPROM_SIZE)),
            status: if write_enable { STATUS_WRITE_ENABLE } else { 0 },
            state: State::Idle,
            can_read: false,
        }
    }

    /// A chip holding a stored image.
    pub fn new_from_file(file: SaveFile) -> (r: Self)
        ensures
            r.wf(),
            r.file == file,
            r.status == 0,
            r.state == State::Idle,
            !r.can_read,
    {
        LargeEEPROM { file, status: 0, state: State::Idle, can_read: false }
    }

    pub fn read_byte(&mut self) -> (r: u8)
        requires
            old(self).wf(),
            old(self).read_ok(),
        ensures
            final(self).wf(),
            Self::read_step(*old(self), *final(self), r),
    {
        if !self.can_read {
            return 0;
        }
        match self.state {
            State::ReadStatus => {
                self.state = State::Idle;
                self.status
            },
            State::Read(addr) => {
                let data = self.file.read_byte(addr);
                self.state = State::Read(addr + 1);
                data
            },
            _ => 0,
        }
    }

    pub fn write_byte(&mut self, data: u8)
        requires
            old(self).wf(),
            old(self).write_ok(data),
        ensures
            final(self).wf(),
            Self::write_step(*old(self), *final(self), data),
    {
        match self.state {
            State::Idle => {
                if data == 0x06 {
                    self.status = self.status | STATUS_WRITE_ENABLE;
                } else if data == 0x04 {
                    self.status = self.status & !STATUS_WRITE_ENABLE;
                } else if data == 0x05 {
                    self.state = State::ReadStatus;
                } else if data == 0x01 {
                    self.state = State::WriteStatus;
                } else if data == 0x03 {
                    self.state = State::PrepRead { byte: 0, addr: 0 };
                } else if data == 0x02 {
                    self.state = State::PrepWrite { byte: 0, addr: 0 };
                }
            },
            State::PrepRead { byte: 2, addr } => {
                self.state = State::Read(addr * 256 + data as u32);
            },
            State::PrepRead { byte: 1, addr } => {
                self.state = State::PrepRead { byte: 2, addr: addr * 256 + data as u32 };
            },
            State::PrepRead { byte: _, addr: _ } => {
                self.state = State::PrepRead { byte: 1, addr: data as u32 };
            },
            State::PrepWrite { byte: 2, addr } => {
                self.state = State::Write(addr * 256 + data as u32);
            },
            State::PrepWrite { byte: 1, addr } => {
                self.state = State::PrepWrite { byte: 2, addr: addr * 256 + data as u32 };
            },
            State::PrepWrite { byte: _, addr: _ } => {
                self.state = State::PrepWrite { byte: 1, addr: data as u32 };
            },
            State::WriteStatus => {
                self.status = data;
                self.state = State::Idle;
            },
            State::Write(addr) => {
                self.file.write_byte(addr, data);
                self.state = State::Write(addr + 1);
            },
            _ => {
                self.can_read = true;
            },
        }
    }

    /// Ends the command in progress.
    pub fn deselect(&mut self)
        ensures
            final(self).wf(),
            final(self).state == State::Idle,
            !final(self).can_read,
            final(self).file == old(self).file,
            final(self).status == old(self).status,
    {
        self.state = State::Idle;
        self.can_read = false;
    }

    /// The image to store, if it changed since it was last handed out.
    pub fn flush(&mut self) -> (r: Option<Vec<u8>>)
        ensures
            final(self).file.buffer@ == old(self).file.buffer@,
            !final(self).file.dirty,
            match r {
                Some(v) => old(self).file.dirty && v@ == old(self).file.buffer@,
                None => !old(self).file.dirty,
            },
            final(self).status == old(self).status,
            final(self).state == old(self).state,
            final(self).can_read == old(self).can_read,
    {
        self.file.flush()
    }
}

} // verus!
