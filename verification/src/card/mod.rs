//! Game card: the card's bus registers and command protocol, header fields,
//! key encryption and save memory.
pub mod crypto;
pub mod header;
pub mod save;
pub mod key2seed;

use vstd::prelude::*;
use crate::card::save::SPI;
use crate::card::save::file::SaveType;
use crate::card::key2seed::{key2_seed, key2_from_seed, le64};
use crate::interrupt::{Interrupts, INT_CARD_COMPLETE};
use crate::bits::lemma_and_le16;
use vstd::arithmetic::power2::{pow2, lemma2_to64};

verus! {

/// Bytes of the card image held at a time.
pub const ROM_BUFFER_SIZE: u32 = 16 * 1024;

/// Card bus control: card slot enable.
pub const SPICNT_SLOT_ENABLE: u16 = 0x8000;
/// Card bus control: interrupt when a transfer completes.
pub const SPICNT_TRANSFER_IRQ: u16 = 0x4000;
/// Card bus control: serial (save memory) mode.
pub const SPICNT_SLOT_MODE: u16 = 0x2000;
/// Card bus control: serial bus busy.
pub const SPICNT_BUSY: u16 = 0x0080;
/// Card bus control: keep the save chip selected after a transfer.
pub const SPICNT_HOLD: u16 = 0x0040;
/// Card bus control: serial baud rate.
pub const SPICNT_BAUDRATE: u16 = 0x0003;
/// Every defined bit of the card bus control.
pub const SPICNT_ALL: u16 = 0xE0C3;

/// ROM control, high half: start a transfer / transfer busy.
pub const ROMCTRL_START_STAT: u16 = 0x8000;
/// ROM control, high half: the data word is ready.
pub const ROMCTRL_DATA_STATUS: u16 = 0x0080;
/// ROM control, high half: the block size field, bits 8 to 10.
pub const ROMCTRL_BLOCK_SIZE: u16 = 0x0700;
/// ROM control, high half: the command is KEY2-encrypted.
pub const ROMCTRL_KEY2_COMMAND: u16 = 0x0040;
/// ROM control, low half: apply the KEY2 seeds.
pub const ROMCTRL_KEY2_APPLY: u16 = 0x8000;
/// ROM control, low half: the KEY1 gap length, bits 0 to 12.
pub const ROMCTRL_KEY1_GAP1_LEN: u16 = 0x1FFF;

/// The marker a decrypted secure area starts with ("encryObj").
pub const ENCRY_OBJ: u64 = 0x6A624F7972636E65;
/// What a dumped secure area starts with when its first block was wiped.
pub const DESTROYED: u64 = 0xE7FFDEFFE7FFDEFF;

/// How incoming commands are encrypted.
#[derive(Clone, Copy, PartialEq, Eq, Structural)]
pub enum CommandEncryptMode {
    Unencrypted,
    Key1,
    Key2,
}

/// What the data port gives, as set by the last command.
#[derive(Clone, Copy, PartialEq, Eq, Structural)]
pub enum DSCardDataState {
    Dummy,
    Header,
    ID,
    Key2,
    Key1ID,
    SecureBlock,
    Key2Disable,
    EnterMain,
    Key2Dummy,
    GetData,
    Key2ID,
}

/// The DS card as its bus registers see it. The card image is held one
/// 16K block at a time; loading a block is asked of the owner through
/// `load_request`.
pub struct DSCard {
    pub rom_buffer: Vec<u8>,
    pub buffer_tag: u32,
    /// The block the owner must load into `rom_buffer`.
    pub load_request: Option<u32>,
    pub read_addr: u32,
    pub secure_block: u32,
    pub spi_control: u16,
    pub spi: SPI,
    pub rom_control_lo: u16,
    pub rom_control_hi: u16,
    pub rom_id: [u8; 4],
    pub command: [u8; 8],
    pub seed_0: [u8; 8],
    pub seed_1: [u8; 8],
    pub key2_0: u64,
    pub key2_1: u64,
    /// Bytes still to transfer.
    pub transfer_count: usize,
    /// Cycles until the data is ready.
    pub transfer_cycles: usize,
    pub cmd_encrypt_mode: CommandEncryptMode,
    pub data_state: DSCardDataState,
    pub dma_ready: bool,
    pub interrupt: bool,
}

/// Bytes that the block size field of the ROM control asks for.
pub open spec fn block_len(hi: u16) -> usize {
    let n = (hi / 0x100) % 8;
    if n == 0 {
        0
    } else if n == 7 {
        4
    } else if n == 1 {
        0x200
    } else if n == 2 {
        0x400
    } else if n == 3 {
        0x800
    } else if n == 4 {
        0x1000
    } else if n == 5 {
        0x2000
    } else {
        0x4000
    }
}

/// Starting a transfer with block-size field `n` (bits 8 to 10 of the ROM
/// control's high half) asks for no bytes when `n` is 0, four bytes when
/// `n` is 7, and `0x100 << n` bytes otherwise; whatever command the
/// transfer runs, that is the length it starts with.
pub proof fn lemma_transfer_length(card: DSCard, data: u16, plain: u64)
    ensures
        ({
            let hi = (data & 0xFF7F) | (card.rom_control_hi & ROMCTRL_DATA_STATUS);
            let n = (hi / 0x100) % 8;
            let after = card.after_rom_control_hi(data, plain);
            hi & ROMCTRL_START_STAT != 0 ==> {
                &&& n == 0 ==> after.transfer_count == 0
                &&& n == 7 ==> after.transfer_count == 4
                &&& 1 <= n <= 6 ==> after.transfer_count == 0x100 * pow2(n as nat)
            }
        }),
{
    lemma2_to64();
}

/// The commands that read the card. With the command bytes taken as a
/// big-endian word (byte 7 the opcode, bytes 6 to 3 the address, most
/// significant first): unencrypted, 0x00 reads the header from the address,
/// 0x9F gives dummy bytes, 0x90 the id, and 0x3C switches to KEY1; in KEY2
/// mode, 0xB7 reads data from the address, where addresses below 0x8000 read
/// from 0x8000 on, repeating every 0x200 bytes, and 0xB8 gives the id; under
/// KEY1, opcode 2 reads the secure-area block numbered in bits 44 to 59 of
/// the decrypted command, 0x1000 bytes to a block. No command changes the
/// length of the transfer.
pub proof fn lemma_read_commands(card: DSCard, plain: u64)
    ensures
        ({
            let after = card.start(plain);
            let op = card.command@[7];
            let addr = ((card.command@[6] * 0x100 + card.command@[5]) * 0x100 + card.command@[4]) * 0x100
                + card.command@[3];
            let unencrypted = card.cmd_encrypt_mode is Unencrypted;
            let key2 = !unencrypted && !card.uses_key1();
            let key1 = !unencrypted && card.uses_key1();
            &&& after.transfer_count == card.transfer_count
            &&& unencrypted && op == 0x00 ==> after.data_state is Header && after.read_addr == addr
            &&& unencrypted && op == 0x9F ==> after.data_state is Dummy
            &&& unencrypted && op == 0x90 ==> after.data_state is ID
            &&& unencrypted && op == 0x3C ==> after.data_state is Dummy && after.cmd_encrypt_mode is Key1
            &&& key2 && op == 0xB7 ==> after.data_state is GetData && after.read_addr == (if addr >= 0x8000 {
                addr
            } else {
                0x8000 + addr % 0x200
            })
            &&& key2 && op == 0xB8 ==> after.data_state is Key2ID
            &&& key1 && plain / 0x1000_0000_0000_0000 == 2 ==> {
                let block = (plain / 0x1000_0000_0000) % 0x1_0000;
                &&& after.data_state is SecureBlock
                &&& after.secure_block == block
                &&& card.secure_block != block ==> after.read_addr == block * 0x1000
            }
        }),
{
}

/// The data port: in a reading state each byte comes from the read address
/// (within the block held), which then moves on by one; the id states give
/// the four id bytes in order. Each byte counts down the transfer, and the
/// last one ends it: the data is no longer ready, the completion interrupt
/// is raised where the card bus control asks for it, and the port falls
/// back to dummy bytes.
pub proof fn lemma_data_port(card: DSCard)
    ensures
        ({
            let (after, byte) = card.after_data_out();
            &&& is_read_state(card.data_state) ==> byte == card.rom_buffer@[(card.read_addr % ROM_BUFFER_SIZE) as int]
            &&& is_read_state(card.data_state) && card.read_addr < u32::MAX ==> after.read_addr == card.read_addr + 1
            &&& is_id_state(card.data_state) && 1 <= card.transfer_count <= 4 ==> byte == card.rom_id@[4 - card.transfer_count]
            &&& !(card.data_state is Key2) && card.transfer_count > 1 ==> after.transfer_count == card.transfer_count - 1
            &&& !(card.data_state is Key2) && card.transfer_count == 1 ==> {
                &&& after.transfer_count == 0
                &&& !after.dma_ready
                &&& after.interrupt == (card.interrupt || card.spi_control & SPICNT_TRANSFER_IRQ != 0)
                &&& (after.data_state is Dummy || after.data_state is Key2Dummy)
            }
        }),
{
}

/// The states in which the data port gives the card id.
pub open spec fn is_id_state(s: DSCardDataState) -> bool {
    s is ID || s is Key1ID || s is Key2ID
}

/// The states in which the data port reads the card image.
pub open spec fn is_read_state(s: DSCardDataState) -> bool {
    s is Header || s is SecureBlock || s is GetData
}

impl DSCard {
    /// The image block is 16K, the save bus is consistent, and a transfer
    /// is at most a block.
    pub open spec fn wf(&self) -> bool {
        &&& self.rom_buffer@.len() == ROM_BUFFER_SIZE
        &&& self.spi.wf()
        &&& self.transfer_count <= 0x4000
        &&& self.transfer_cycles <= 0x1FFF * 5
    }

    /// The command bytes as a number, last byte most significant.
    pub open spec fn command_word(&self) -> nat {
        le64(self.command@)
    }

    /// The address in command bytes 3 to 6.
    pub open spec fn command_addr(&self) -> u32 {
        (self.command[3] + self.command[4] * 0x100 + self.command[5] * 0x1_0000 + self.command[6]
            * 0x100_0000) as u32
    }

    /// A transfer ends: the busy and ready bits clear and, if asked for,
    /// the completion interrupt is raised.
    pub open spec fn complete(self) -> Self {
        DSCard {
            rom_control_hi: self.rom_control_hi & 0x7F7F,
            dma_ready: false,
            interrupt: self.interrupt || self.spi_control & SPICNT_TRANSFER_IRQ != 0,
            ..self
        }
    }

    /// The data is ready; a transfer of nothing completes at once.
    pub open spec fn ready(self) -> Self {
        let s = DSCard { rom_control_hi: self.rom_control_hi | ROMCTRL_DATA_STATUS, dma_ready: true, ..self };
        if s.transfer_count == 0 {
            s.complete()
        } else {
            s
        }
    }

    /// The block holding `addr` is wanted: if it is not the one held, it is
    /// asked for.
    pub open spec fn loaded(self, addr: u32) -> Self {
        let tag = addr / ROM_BUFFER_SIZE;
        if tag != self.buffer_tag {
            DSCard { buffer_tag: tag, load_request: Some(tag), ..self }
        } else {
            self
        }
    }

    /// An unencrypted command: dummy (0x9F), header read (0x00 with an
    /// address), id (0x90), or a switch to KEY1 (0x3C).
    pub open spec fn unencrypted(self) -> Self {
        let s = DSCard { transfer_cycles: 100, ..self };
        let op = self.command[7];
        if op == 0x9F {
            DSCard { data_state: DSCardDataState::Dummy, ..s }
        } else if op == 0x00 {
            DSCard { read_addr: self.command_addr(), data_state: DSCardDataState::Header, ..s }
        } else if op == 0x90 {
            DSCard { data_state: DSCardDataState::ID, ..s }
        } else {
            DSCard { cmd_encrypt_mode: CommandEncryptMode::Key1, data_state: DSCardDataState::Dummy, ..s }
        }
    }

    /// A KEY1 command, given decrypted: KEY2 on (4), id (1), a secure area
    /// block (2, with the block number in bits 44 to 59), back to
    /// unencrypted (6), or into the main data mode (0xA).
    pub open spec fn key1(self, plain: u64) -> Self {
        let s = DSCard { transfer_cycles: ((self.rom_control_lo & ROMCTRL_KEY1_GAP1_LEN) * 5) as usize, ..self };
        let op = plain / 0x1000_0000_0000_0000;
        if op == 4 {
            DSCard { data_state: DSCardDataState::Key2, ..s }
        } else if op == 1 {
            DSCard { data_state: DSCardDataState::Key1ID, ..s }
        } else if op == 2 {
            let block = ((plain / 0x1000_0000_0000) % 0x1_0000) as u32;
            let addr = (block * 0x1000) as u32;
            let l = s.loaded(addr);
            if l.secure_block != block {
                DSCard { read_addr: addr, secure_block: block, data_state: DSCardDataState::SecureBlock, ..l }
            } else {
                DSCard { data_state: DSCardDataState::SecureBlock, ..l }
            }
        } else if op == 6 {
            DSCard {
                cmd_encrypt_mode: CommandEncryptMode::Unencrypted,
                data_state: DSCardDataState::Key2Disable,
                ..s
            }
        } else {
            DSCard { cmd_encrypt_mode: CommandEncryptMode::Key2, data_state: DSCardDataState::EnterMain, ..s }
        }
    }

    /// A KEY2 command: a data read (0xB7; addresses below 0x8000 read from
    /// 0x8000 up, modulo 0x200), the id (0xB8), or a dummy.
    pub open spec fn key2cmd(self) -> Self {
        let s = DSCard { transfer_cycles: 100, ..self };
        let op = self.command[7];
        if op == 0xB7 {
            let a = self.command_addr();
            let addr = if a >= 0x8000 { a } else { (0x8000 + a % 0x200) as u32 };
            DSCard { read_addr: addr, data_state: DSCardDataState::GetData, ..s.loaded(addr) }
        } else if op == 0xB8 {
            DSCard { data_state: DSCardDataState::Key2ID, ..s }
        } else {
            DSCard { data_state: DSCardDataState::Key2Dummy, ..s }
        }
    }

    /// A KEY2-mode command is KEY1-encrypted unless the ROM control says
    /// otherwise.
    pub open spec fn uses_key1(&self) -> bool {
        self.cmd_encrypt_mode is Key1 || (self.cmd_encrypt_mode is Key2 && self.rom_control_hi
            & ROMCTRL_KEY2_COMMAND == 0)
    }

    /// The command that starts a transfer, run in the current encryption
    /// mode; `plain` is the command as KEY1 decrypts it.
    pub open spec fn start(self, plain: u64) -> Self {
        if self.cmd_encrypt_mode is Unencrypted {
            self.unencrypted()
        } else if self.uses_key1() {
            self.key1(plain)
        } else {
            self.key2cmd()
        }
    }

    /// The card knows the command.
    pub open spec fn command_ok(&self, plain: u64) -> bool {
        if self.cmd_encrypt_mode is Unencrypted {
            let op = self.command[7];
            op == 0x9F || op == 0x00 || op == 0x90 || op == 0x3C
        } else if self.uses_key1() {
            let op = plain / 0x1000_0000_0000_0000;
            op == 4 || op == 1 || op == 2 || op == 6 || op == 0xA
        } else {
            true
        }
    }

    /// The ROM control's low half after a write: applying the KEY2 seeds
    /// where asked, which also ends a transfer.
    pub open spec fn after_rom_control_lo(self, data: u16) -> Self {
        if data & ROMCTRL_KEY2_APPLY != 0 {
            DSCard {
                rom_control_lo: data & 0x7FFF,
                key2_0: key2_from_seed(self.seed_0@) as u64,
                key2_1: key2_from_seed(self.seed_1@) as u64,
                ..self
            }.complete()
        } else {
            DSCard { rom_control_lo: data, ..self }
        }
    }

    /// The ROM control's high half after a write (its ready bit kept):
    /// setting the start bit starts a transfer of the block size given.
    pub open spec fn after_rom_control_hi(self, data: u16, plain: u64) -> Self {
        let hi = (data & 0xFF7F) | (self.rom_control_hi & ROMCTRL_DATA_STATUS);
        let s = DSCard { rom_control_hi: hi, ..self };
        if hi & ROMCTRL_START_STAT != 0 {
            DSCard { transfer_count: block_len(hi), ..s }.start(plain)
        } else {
            s
        }
    }

    /// A write of the high half is accepted: a transfer it starts runs a
    /// known command.
    pub open spec fn rom_control_hi_ok(&self, data: u16, plain: u64) -> bool {
        let hi = (data & 0xFF7F) | (self.rom_control_hi & ROMCTRL_DATA_STATUS);
        hi & ROMCTRL_START_STAT != 0 ==> (DSCard { rom_control_hi: hi, ..*self }).command_ok(plain)
    }

    /// A byte from the data port, and the card after it: image bytes from
    /// the read address, the id bytes in order, 0xFF or 0 otherwise; the
    /// last byte of a transfer completes it.
    pub open spec fn after_data_out(self) -> (Self, u8) {
        let (s1, d) = if is_read_state(self.data_state) {
            (
                DSCard { read_addr: (if self.read_addr == u32::MAX { 0 } else { self.read_addr + 1 }) as u32, ..self },
                self.rom_buffer@[(self.read_addr % ROM_BUFFER_SIZE) as int],
            )
        } else if is_id_state(self.data_state) {
            (self, self.rom_id@[4 - self.transfer_count])
        } else if self.data_state is Key2 {
            (DSCard { transfer_count: 1, ..self }, 0xFFu8)
        } else if self.data_state is Dummy {
            (self, 0xFFu8)
        } else {
            (self, 0u8)
        };
        if s1.transfer_count > 0 {
            let s2 = DSCard { transfer_count: (s1.transfer_count - 1) as usize, ..s1 };
            if s2.transfer_count == 0 {
                (
                    DSCard {
                        data_state: if s2.cmd_encrypt_mode is Key2 {
                            DSCardDataState::Key2Dummy
                        } else {
                            DSCardDataState::Dummy
                        },
                        ..s2.complete()
                    },
                    d,
                )
            } else {
                (s2, d)
            }
        } else {
            (s1, d)
        }
    }

    /// Reading the data port is defined: the id is read within its four
    /// bytes.
    pub open spec fn data_out_ok(&self) -> bool {
        is_id_state(self.data_state) ==> 1 <= self.transfer_count <= 4
    }

    /// The card after `cycles` cycles, the interrupts it raises and whether
    /// a DMA should run.
    pub open spec fn after_clock(self, cycles: usize) -> (Self, u32, bool) {
        let s1 = if self.transfer_cycles > 0 {
            let t = if self.transfer_cycles > cycles { (self.transfer_cycles - cycles) as usize } else { 0usize };
            let s = DSCard { transfer_cycles: t, ..self };
            if t == 0 {
                s.ready()
            } else {
                s
            }
        } else {
            self
        };
        (DSCard { interrupt: false, ..s1 }, if s1.interrupt { INT_CARD_COMPLETE } else { 0u32 }, s1.dma_ready)
    }
}


/// The LE bytes of the secure area marker.
pub open spec fn encry_obj_bytes() -> Seq<u8> {
    seq![0x65u8, 0x6E, 0x63, 0x72, 0x79, 0x4F, 0x62, 0x6A]
}

/// The first block of a freshly loaded secure area, made ready to be
/// encrypted: a wiped first block gets the marker back. The flag says
/// whether the area is to be encrypted, as it is where it starts with the
/// marker or was wiped.
pub open spec fn prepared_secure_area(buf: Seq<u8>) -> (Seq<u8>, bool) {
    let id = le64(buf.subrange(0, 8));
    if id == DESTROYED {
        (encry_obj_bytes() + buf.subrange(8, buf.len() as int), true)
    } else {
        (buf, id == ENCRY_OBJ)
    }
}

/// The eight bytes of `v`, least significant first.
pub open spec fn le_bytes64(v: u64) -> Seq<u8> {
    seq![
        (v % 0x100) as u8,
        ((v / 0x100) % 0x100) as u8,
        ((v / 0x1_0000) % 0x100) as u8,
        ((v / 0x100_0000) % 0x100) as u8,
        ((v / 0x1_0000_0000) % 0x100) as u8,
        ((v / 0x100_0000_0000) % 0x100) as u8,
        ((v / 0x1_0000_0000_0000) % 0x100) as u8,
        (v / 0x100_0000_0000_0000) as u8,
    ]
}

/// The number that eight bytes from `at` hold, little-endian.
fn read_le64(b: &Vec<u8>, at: usize) -> (r: u64)
    requires
        at + 8 <= b@.len(),
    ensures
        r == le64(b@.subrange(at as int, at + 8)),
{
    let n = b.len();
    assert(at + 7 < n);
    let x: u64 = (b[at] as u64) + (b[at + 1] as u64) * 0x100 + (b[at + 2] as u64) * 0x1_0000 + (b[at + 3]
        as u64) * 0x100_0000 + (b[at + 4] as u64) * 0x1_0000_0000 + (b[at + 5] as u64) * 0x100_0000_0000 + (
    b[at + 6] as u64) * 0x1_0000_0000_0000 + (b[at + 7] as u64) * 0x100_0000_0000_0000;
    x
}

impl DSCard {
    /// A card whose image starts with `rom_start` (its first 16K) and is
    /// `rom_size` bytes long, with the given save file. The id tells the
    /// size in megabytes less one, and a DSi card.
    pub fn new(rom_start: Vec<u8>, rom_size: u64, save: Option<(SaveType, Vec<u8>)>) -> (r: Self)
        requires
            rom_start@.len() == ROM_BUFFER_SIZE,
            (rom_size / 0x10_0000) % 0x100 >= 1,
            save matches Some((t, v)) ==> v@.len() == t.size(),
        ensures
            r.wf(),
            r.rom_buffer@ == rom_start@,
            r.buffer_tag == 0,
            r.load_request is None,
            r.read_addr == 0 && r.secure_block == 0,
            r.spi_control == 0 && r.rom_control_lo == 0 && r.rom_control_hi == 0,
            ({
                let id_size = ((rom_size / 0x10_0000) % 0x100 - 1) as u8;
                let dsi = (rom_start@[0x12] / 2) % 2 == 1;
                r.rom_id@ == seq![
                    0xC2u8,
                    id_size,
                    0x00u8,
                    (if id_size >= 0x7F { 0x80u8 } else { 0u8 }) | (if dsi { 0xC0u8 } else { 0u8 }),
                ]
            }),
            r.command@ == Seq::new(8, |i: int| 0u8),
            r.seed_0@ == seq![0xE8u8, 0xE0, 0x6D, 0xC5, 0x58, 0, 0, 0],
            r.seed_1@ == seq![0x05u8, 0x9B, 0x9B, 0x87, 0x5C, 0, 0, 0],
            r.key2_0 == 0 && r.key2_1 == 0,
            r.transfer_count == 0 && r.transfer_cycles == 0,
            r.cmd_encrypt_mode == CommandEncryptMode::Unencrypted,
            r.data_state == DSCardDataState::Dummy,
            !r.dma_ready && !r.interrupt,
            SPI::made_from(r.spi, save),
    {
        let unit_code = rom_start[0x12];
        let dsi = (unit_code / 2) % 2 == 1;
        let file_size_mb = ((rom_size / 0x10_0000) % 0x100) as u8;
        let id_size = file_size_mb - 1;
        let id_hi_flags = (if id_size >= 0x7F { 0x80u8 } else { 0u8 }) | (if dsi { 0xC0u8 } else { 0u8 });
        DSCard {
            rom_buffer: rom_start,
            buffer_tag: 0,
            load_request: None,
            read_addr: 0,
            secure_block: 0,
            spi_control: 0,
            spi: SPI::new(save),
            rom_control_lo: 0,
            rom_control_hi: 0,
            rom_id: [0xC2, id_size, 0x00, id_hi_flags],
            command: [0; 8],
            seed_0: [0xE8, 0xE0, 0x6D, 0xC5, 0x58, 0, 0, 0],
            seed_1: [0x05, 0x9B, 0x9B, 0x87, 0x5C, 0, 0, 0],
            key2_0: 0,
            key2_1: 0,
            transfer_count: 0,
            transfer_cycles: 0,
            cmd_encrypt_mode: CommandEncryptMode::Unencrypted,
            data_state: DSCardDataState::Dummy,
            dma_ready: false,
            interrupt: false,
        }
    }

    /// Advances the transfer timer; returns the interrupts raised and
    /// whether a DMA should run.
    pub fn clock(&mut self, cycles: usize) -> (r: (Interrupts, bool))
        requires
            old(self).wf(),
        ensures
            final(self).wf(),
            (*final(self), r.0.bits, r.1) == old(self).after_clock(cycles),
    {
        if self.transfer_cycles > 0 {
            self.transfer_cycles = if self.transfer_cycles > cycles { self.transfer_cycles - cycles } else { 0 };
            if self.transfer_cycles == 0 {
                self.card_ready();
            }
        }
        let irq = self.interrupt;
        self.interrupt = false;
        let interrupt = if irq { Interrupts { bits: INT_CARD_COMPLETE } } else { Interrupts::empty() };
        (interrupt, self.dma_ready)
    }

    /// The save image to store, if it changed.
    pub fn flush_save(&mut self) -> (r: Option<Vec<u8>>)
        requires
            old(self).wf(),
        ensures
            final(self).wf(),
            *final(self) == (DSCard { spi: final(self).spi, ..*old(self) }),
            match old(self).spi.image() {
                Some(img) => final(self).spi.image() == Some(img) && !final(self).spi.dirty() && match r {
                    Some(v) => old(self).spi.dirty() && v@ == img,
                    None => !old(self).spi.dirty(),
                },
                None => r is None && final(self).spi.device == old(self).spi.device,
            },
    {
        self.spi.flush()
    }

    /// Starts as after the boot ROM: KEY2 mode, with the ROM control given.
    pub fn fast_boot(&mut self, rom_ctrl_init: u32)
        ensures
            *final(self) == (DSCard {
                cmd_encrypt_mode: CommandEncryptMode::Key2,
                data_state: DSCardDataState::Key2Dummy,
                rom_control_lo: (rom_ctrl_init % 0x1_0000) as u16,
                rom_control_hi: (rom_ctrl_init / 0x1_0000) as u16,
                ..*old(self)
            }),
    {
        self.cmd_encrypt_mode = CommandEncryptMode::Key2;
        self.data_state = DSCardDataState::Key2Dummy;
        self.rom_control_lo = (rom_ctrl_init % 0x1_0000) as u16;
        self.rom_control_hi = (rom_ctrl_init / 0x1_0000) as u16;
    }

    /// The card id as a word.
    pub fn rom_id_word(&self) -> (r: u32)
        ensures
            r == self.rom_id[0] + self.rom_id[1] * 0x100 + self.rom_id[2] * 0x1_0000 + self.rom_id[3]
                * 0x100_0000,
    {
        (self.rom_id[0] as u32) + (self.rom_id[1] as u32) * 0x100 + (self.rom_id[2] as u32) * 0x1_0000
            + (self.rom_id[3] as u32) * 0x100_0000
    }

    /// Whether writing `data` to the high half of the ROM control is
    /// accepted: a transfer it starts runs a command the card knows, with
    /// `plain` the command as KEY1 decrypts it.
    pub fn can_start(&self, data: u16, plain: u64) -> (r: bool)
        ensures
            r == self.rom_control_hi_ok(data, plain),
    {
        let hi = (data & 0xFF7F) | (self.rom_control_hi & ROMCTRL_DATA_STATUS);
        if hi & ROMCTRL_START_STAT == 0 {
            return true;
        }
        let key2_cmd = hi & ROMCTRL_KEY2_COMMAND != 0;
        match self.cmd_encrypt_mode {
            CommandEncryptMode::Unencrypted => {
                let op = self.command[7];
                op == 0x9F || op == 0x00 || op == 0x90 || op == 0x3C
            },
            CommandEncryptMode::Key2 if key2_cmd => true,
            _ => {
                let op = plain / 0x1000_0000_0000_0000;
                op == 4 || op == 1 || op == 2 || op == 6 || op == 0xA
            },
        }
    }

    /// Whether the data port can be read now: the id is read within its
    /// four bytes.
    pub fn can_read_data(&self) -> (r: bool)
        ensures
            r == self.data_out_ok(),
    {
        match self.data_state {
            DSCardDataState::ID | DSCardDataState::Key1ID | DSCardDataState::Key2ID => 1 <= self.transfer_count
                && self.transfer_count <= 4,
            _ => true,
        }
    }

    /// Takes the request for an image block, if there is one.
    pub fn take_load_request(&mut self) -> (r: Option<u32>)
        ensures
            r == old(self).load_request,
            *final(self) == (DSCard { load_request: None, ..*old(self) }),
    {
        let r = self.load_request;
        self.load_request = None;
        r
    }

    /// Stores a loaded image block. The secure area (block 1) is made ready
    /// to be encrypted; the result says whether it is to be.
    pub fn set_rom_buffer(&mut self, data: Vec<u8>) -> (r: bool)
        requires
            data@.len() == ROM_BUFFER_SIZE,
        ensures
            final(self).rom_buffer@.len() == ROM_BUFFER_SIZE,
            old(self).buffer_tag == 1 ==> (final(self).rom_buffer@, r) == prepared_secure_area(data@),
            old(self).buffer_tag != 1 ==> final(self).rom_buffer@ == data@ && !r,
            *final(self) == (DSCard { rom_buffer: final(self).rom_buffer, ..*old(self) }),
    {
        self.rom_buffer = data;
        if self.buffer_tag != 1 {
            return false;
        }
        let id = read_le64(&self.rom_buffer, 0);
        if id == DESTROYED {
            let ghost before = self.rom_buffer@;
            self.rom_buffer.set(0, 0x65);
            self.rom_buffer.set(1, 0x6E);
            self.rom_buffer.set(2, 0x63);
            self.rom_buffer.set(3, 0x72);
            self.rom_buffer.set(4, 0x79);
            self.rom_buffer.set(5, 0x4F);
            self.rom_buffer.set(6, 0x62);
            self.rom_buffer.set(7, 0x6A);
            assert(self.rom_buffer@ =~= encry_obj_bytes() + before.subrange(8, before.len() as int));
            true
        } else {
            id == ENCRY_OBJ
        }
    }

    /// Block `i` of the secure area, as a number.
    pub fn secure_block(&self, i: usize) -> (r: u64)
        requires
            self.rom_buffer@.len() == ROM_BUFFER_SIZE,
            i < 256,
        ensures
            r == le64(self.rom_buffer@.subrange(i * 8, i * 8 + 8)),
    {
        read_le64(&self.rom_buffer, i * 8)
    }

    /// Stores block `i` of the secure area, little-endian.
    #[verifier::rlimit(30)]
    pub fn set_secure_block(&mut self, i: usize, v: u64)
        requires
            old(self).rom_buffer@.len() == ROM_BUFFER_SIZE,
            i < 256,
        ensures
            final(self).rom_buffer@ == old(self).rom_buffer@.subrange(0, i * 8) + le_bytes64(v) + old(
                self,
            ).rom_buffer@.subrange(i * 8 + 8, ROM_BUFFER_SIZE as int),
            *final(self) == (DSCard { rom_buffer: final(self).rom_buffer, ..*old(self) }),
    {
        let at = i * 8;
        let ghost before = self.rom_buffer@;
        self.rom_buffer.set(at, (v % 0x100) as u8);
        self.rom_buffer.set(at + 1, ((v / 0x100) % 0x100) as u8);
        self.rom_buffer.set(at + 2, ((v / 0x1_0000) % 0x100) as u8);
        self.rom_buffer.set(at + 3, ((v / 0x100_0000) % 0x100) as u8);
        self.rom_buffer.set(at + 4, ((v / 0x1_0000_0000) % 0x100) as u8);
        self.rom_buffer.set(at + 5, ((v / 0x100_0000_0000) % 0x100) as u8);
        self.rom_buffer.set(at + 6, ((v / 0x1_0000_0000_0000) % 0x100) as u8);
        self.rom_buffer.set(at + 7, (v / 0x100_0000_0000_0000) as u8);
        assert(self.rom_buffer@ =~= before.subrange(0, i * 8) + le_bytes64(v) + before.subrange(
            i * 8 + 8,
            ROM_BUFFER_SIZE as int,
        ));
    }

    fn transfer_complete(&mut self)
        ensures
            *final(self) == old(self).complete(),
    {
        self.rom_control_hi = self.rom_control_hi & 0x7F7F;
        self.dma_ready = false;
        if self.spi_control & SPICNT_TRANSFER_IRQ != 0 {
            self.interrupt = true;
        }
    }

    fn card_ready(&mut self)
        ensures
            *final(self) == old(self).ready(),
    {
        self.rom_control_hi = self.rom_control_hi | ROMCTRL_DATA_STATUS;
        self.dma_ready = true;
        if self.transfer_count == 0 {
            self.transfer_complete();
        }
    }

    fn apply_key2_seeds(&mut self)
        ensures
            *final(self) == (DSCard {
                key2_0: key2_from_seed(old(self).seed_0@) as u64,
                key2_1: key2_from_seed(old(self).seed_1@) as u64,
                ..*old(self)
            }).complete(),
    {
        self.key2_0 = key2_seed(&self.seed_0);
        self.key2_1 = key2_seed(&self.seed_1);
        self.transfer_complete();
    }

    fn write_rom_control_lo(&mut self, data: u16)
        requires
            old(self).wf(),
        ensures
            final(self).wf(),
            *final(self) == old(self).after_rom_control_lo(data),
    {
        self.rom_control_lo = data;
        if self.rom_control_lo & ROMCTRL_KEY2_APPLY != 0 {
            self.apply_key2_seeds();
            self.rom_control_lo = self.rom_control_lo & 0x7FFF;
        }
    }

    fn load_block(&mut self, addr: u32)
        ensures
            *final(self) == old(self).loaded(addr),
    {
        let tag = addr / ROM_BUFFER_SIZE;
        if tag != self.buffer_tag {
            self.buffer_tag = tag;
            self.load_request = Some(tag);
        }
    }

    fn command_addr_exec(&self) -> (r: u32)
        ensures
            r == self.command_addr(),
    {
        (self.command[3] as u32) + (self.command[4] as u32) * 0x100 + (self.command[5] as u32) * 0x1_0000
            + (self.command[6] as u32) * 0x100_0000
    }

    fn unencrypted_command(&mut self) -> (r: DSCardDataState)
        requires
            old(self).wf(),
            old(self).cmd_encrypt_mode is Unencrypted,
            old(self).command_ok(0),
        ensures
            final(self).wf(),
            r == old(self).unencrypted().data_state,
            *final(self) == (DSCard { data_state: old(self).data_state, ..old(self).unencrypted() }),
    {
        self.transfer_cycles = 100;
        let op = self.command[7];
        if op == 0x9F {
            DSCardDataState::Dummy
        } else if op == 0x00 {
            self.read_addr = self.command_addr_exec();
            DSCardDataState::Header
        } else if op == 0x90 {
            DSCardDataState::ID
        } else {
            self.cmd_encrypt_mode = CommandEncryptMode::Key1;
            DSCardDataState::Dummy
        }
    }

    fn key1_command(&mut self, plain: u64) -> (r: DSCardDataState)
        requires
            old(self).wf(),
            ({
                let op = plain / 0x1000_0000_0000_0000;
                op == 4 || op == 1 || op == 2 || op == 6 || op == 0xA
            }),
        ensures
            final(self).wf(),
            r == old(self).key1(plain).data_state,
            *final(self) == (DSCard { data_state: old(self).data_state, ..old(self).key1(plain) }),
    {
        let key2_dummy_count = self.rom_control_lo & ROMCTRL_KEY1_GAP1_LEN;
        proof {
            lemma_and_le16(self.rom_control_lo, ROMCTRL_KEY1_GAP1_LEN);
        }
        self.transfer_cycles = (key2_dummy_count as usize) * 5;
        let op = plain / 0x1000_0000_0000_0000;
        if op == 4 {
            DSCardDataState::Key2
        } else if op == 1 {
            DSCardDataState::Key1ID
        } else if op == 2 {
            let block = ((plain / 0x1000_0000_0000) % 0x1_0000) as u32;
            let addr = block * 0x1000;
            self.load_block(addr);
            if self.secure_block != block {
                self.read_addr = addr;
                self.secure_block = block;
            }
            DSCardDataState::SecureBlock
        } else if op == 6 {
            self.cmd_encrypt_mode = CommandEncryptMode::Unencrypted;
            DSCardDataState::Key2Disable
        } else {
            self.cmd_encrypt_mode = CommandEncryptMode::Key2;
            DSCardDataState::EnterMain
        }
    }

    fn key2_command(&mut self) -> (r: DSCardDataState)
        requires
            old(self).wf(),
        ensures
            final(self).wf(),
            r == old(self).key2cmd().data_state,
            *final(self) == (DSCard { data_state: old(self).data_state, ..old(self).key2cmd() }),
    {
        self.transfer_cycles = 100;
        let op = self.command[7];
        if op == 0xB7 {
            let a = self.command_addr_exec();
            let addr = if a >= 0x8000 { a } else { 0x8000 + a % 0x200 };
            self.load_block(addr);
            self.read_addr = addr;
            DSCardDataState::GetData
        } else if op == 0xB8 {
            DSCardDataState::Key2ID
        } else {
            DSCardDataState::Key2Dummy
        }
    }

    fn do_command(&mut self, plain: u64)
        requires
            old(self).wf(),
            old(self).command_ok(plain),
        ensures
            final(self).wf(),
            *final(self) == old(self).start(plain),
    {
        let state = match self.cmd_encrypt_mode {
            CommandEncryptMode::Unencrypted => self.unencrypted_command(),
            CommandEncryptMode::Key1 => self.key1_command(plain),
            CommandEncryptMode::Key2 => {
                if self.rom_control_hi & ROMCTRL_KEY2_COMMAND != 0 {
                    self.key2_command()
                } else {
                    self.key1_command(plain)
                }
            },
        };
        self.data_state = state;
    }

    fn write_rom_control_hi(&mut self, data: u16, plain: u64)
        requires
            old(self).wf(),
            old(self).rom_control_hi_ok(data, plain),
        ensures
            final(self).wf(),
            *final(self) == old(self).after_rom_control_hi(data, plain),
    {
        let data_status = self.rom_control_hi & ROMCTRL_DATA_STATUS;
        self.rom_control_hi = (data & 0xFF7F) | data_status;
        if self.rom_control_hi & ROMCTRL_START_STAT != 0 {
            let n = (self.rom_control_hi / 0x100) % 8;
            self.transfer_count = if n == 0 {
                0
            } else if n == 7 {
                4
            } else if n == 1 {
                0x200
            } else if n == 2 {
                0x400
            } else if n == 3 {
                0x800
            } else if n == 4 {
                0x1000
            } else if n == 5 {
                0x2000
            } else {
                0x4000
            };
            self.do_command(plain);
        }
    }

    fn read_card_byte(&self, addr: u32) -> (r: u8)
        requires
            self.rom_buffer@.len() == ROM_BUFFER_SIZE,
        ensures
            r == self.rom_buffer@[(addr % ROM_BUFFER_SIZE) as int],
    {
        self.rom_buffer[(addr % ROM_BUFFER_SIZE) as usize]
    }

    fn get_data_out(&mut self) -> (r: u8)
        requires
            old(self).rom_buffer@.len() == ROM_BUFFER_SIZE,
            old(self).data_out_ok(),
        ensures
            (*final(self), r) == old(self).after_data_out(),
    {
        let data = match self.data_state {
            DSCardDataState::Dummy => 0xFF,
            DSCardDataState::Header | DSCardDataState::SecureBlock | DSCardDataState::GetData => {
                let addr = self.read_addr;
                self.read_addr = self.read_addr.wrapping_add(1);
                self.read_card_byte(addr)
            },
            DSCardDataState::ID | DSCardDataState::Key1ID | DSCardDataState::Key2ID => {
                let idx = 4 - self.transfer_count;
                self.rom_id[idx]
            },
            DSCardDataState::Key2 => {
                self.transfer_count = 1;
                0xFF
            },
            _ => 0,
        };
        if self.transfer_count > 0 {
            self.transfer_count = self.transfer_count - 1;
            if self.transfer_count == 0 {
                self.transfer_complete();
                self.data_state = if self.cmd_encrypt_mode == CommandEncryptMode::Key2 {
                    DSCardDataState::Key2Dummy
                } else {
                    DSCardDataState::Dummy
                };
            }
        }
        data
    }
}


/// The command as the 64-bit number it spells, byte 0 the lowest.
pub open spec fn command_word(c: Seq<u8>) -> int {
    c[0] + c[1] * 0x100 + c[2] * 0x1_0000 + c[3] * 0x100_0000 + c[4] * 0x1_0000_0000
        + c[5] * 0x100_0000_0000 + c[6] * 0x1_0000_0000_0000 + c[7] * 0x100_0000_0000_0000
}

/// A half-word with its two bytes swapped.
pub open spec fn byte_swapped(h: u16) -> int {
    (h % 0x100) * 0x100 + h / 0x100
}

/// Writing the four command half-words in turn from 0x0400_01A8 up sets the
/// command to those half-words with their bytes swapped, the first one the
/// most significant: the low byte written at 0x0400_01A8 is the command byte,
/// byte 7.
pub proof fn lemma_command_from_halfwords(cmd: Seq<u8>, h0: u16, h1: u16, h2: u16, h3: u16)
    requires
        cmd.len() == 8,
    ensures
        ({
            let c = command_after_halfword(
                command_after_halfword(
                    command_after_halfword(command_after_halfword(cmd, 0x0400_01A8, h0), 0x0400_01AA, h1),
                    0x0400_01AC,
                    h2,
                ),
                0x0400_01AE,
                h3,
            );
            &&& c.len() == 8
            &&& command_word(c) == byte_swapped(h0) * 0x1_0000_0000_0000 + byte_swapped(h1) * 0x1_0000_0000
                + byte_swapped(h2) * 0x1_0000 + byte_swapped(h3)
            &&& c[7] == h0 % 0x100
        }),
{
}

/// The command bytes after a byte write at `addr` (0x0400_01A8 holds the
/// last byte, 0x0400_01AF the first).
pub open spec fn command_after_byte(cmd: Seq<u8>, addr: u32, data: u8) -> Seq<u8> {
    if 0x0400_01A8 <= addr <= 0x0400_01AF {
        cmd.update(0x0400_01AF - addr, data)
    } else {
        cmd
    }
}

/// The command bytes after a half-word write: each half-word holds two
/// bytes, its low byte the later one.
pub open spec fn command_after_halfword(cmd: Seq<u8>, addr: u32, data: u16) -> Seq<u8> {
    let lo = (data % 0x100) as u8;
    let hi = (data / 0x100) as u8;
    if addr == 0x0400_01A8 {
        cmd.update(7, lo).update(6, hi)
    } else if addr == 0x0400_01AA {
        cmd.update(5, lo).update(4, hi)
    } else if addr == 0x0400_01AC {
        cmd.update(3, lo).update(2, hi)
    } else if addr == 0x0400_01AE {
        cmd.update(1, lo).update(0, hi)
    } else {
        cmd
    }
}

/// A seed after a byte write: four low bytes from `base`, the fifth (seven
/// bits) at `top`.
pub open spec fn seed_after_byte(seed: Seq<u8>, base: u32, top: u32, addr: u32, data: u8) -> Seq<u8> {
    if base <= addr < base + 4 {
        seed.update(addr - base, data)
    } else if addr == top {
        seed.update(4, data & 0x7F)
    } else {
        seed
    }
}

/// A seed after a half-word write.
pub open spec fn seed_after_halfword(seed: Seq<u8>, base: u32, top: u32, addr: u32, data: u16) -> Seq<u8> {
    let lo = (data % 0x100) as u8;
    let hi = (data / 0x100) as u8;
    if addr == base {
        seed.update(0, lo).update(1, hi)
    } else if addr == base + 2 {
        seed.update(2, lo).update(3, hi)
    } else if addr == top {
        seed.update(4, lo & 0x7F)
    } else {
        seed
    }
}

/// Addresses the card takes byte writes at.
pub open spec fn byte_write_addr(addr: u32) -> bool {
    addr == 0x0400_01A0 || addr == 0x0400_01A1 || (0x0400_01A8 <= addr <= 0x0400_01B7) || addr
        == 0x0400_01B8 || addr == 0x0400_01BA || addr == 0x0410_0010 || addr == 0x0410_0012
}

/// Addresses the card takes half-word writes at.
pub open spec fn halfword_write_addr(addr: u32) -> bool {
    (0x0400_01A0 <= addr <= 0x0400_01B8 && addr % 2 == 0) || addr == 0x0400_01BA || addr == 0x0410_0010
        || addr == 0x0410_0012
}

/// Addresses the card takes half-word reads at.
pub open spec fn halfword_read_addr(addr: u32) -> bool {
    (0x0400_01A0 <= addr <= 0x0400_01BF) || addr == 0x0410_0010 || addr == 0x0410_0012
}

/// Addresses the card takes word writes at.
pub open spec fn word_write_addr(addr: u32) -> bool {
    addr == 0x0400_01A0 || addr == 0x0400_01A4 || addr == 0x0400_01A8 || addr == 0x0400_01AC || addr
        == 0x0400_01B0 || addr == 0x0400_01B4
}

/// Addresses the card takes word reads at.
pub open spec fn word_read_addr(addr: u32) -> bool {
    addr == 0x0400_01A0 || addr == 0x0400_01A4 || (0x0400_01A8 <= addr <= 0x0400_01BF) || addr
        == 0x0410_0010
}

impl DSCard {
    /// Reading the data port keeps it readable.
    pub proof fn lemma_data_out_ok_kept(self)
        requires
            self.data_out_ok(),
        ensures
            self.after_data_out().0.data_out_ok(),
    {
    }

    /// A save bus read, followed by deselection unless the hold bit is set.
    pub open spec fn spi_read_rel(pre: SPI, post: SPI, hold: bool, r: u8) -> bool {
        exists|mid: SPI| #[trigger] SPI::read_rel(pre, mid, r) && mid.wf() && if hold {
            post == mid
        } else {
            SPI::deselect_rel(mid, post)
        }
    }

    /// The bytes of `n` data port reads, and the card after them.
    pub open spec fn data_out_n(self, n: nat) -> (Self, Seq<u8>)
        decreases n,
    {
        if n == 0 {
            (self, Seq::empty())
        } else {
            let (s, d) = self.after_data_out();
            let (t, ds) = s.data_out_n((n - 1) as nat);
            (t, seq![d] + ds)
        }
    }

    fn spi_read(&mut self) -> (r: u8)
        requires
            old(self).wf(),
            old(self).spi.read_ok(),
        ensures
            final(self).wf(),
            Self::spi_read_rel(old(self).spi, final(self).spi, old(self).spi_control & SPICNT_HOLD != 0, r),
            *final(self) == (DSCard { spi: final(self).spi, ..*old(self) }),
    {
        let data = self.spi.read();
        let ghost mid = self.spi;
        if self.spi_control & SPICNT_HOLD == 0 {
            self.spi.deselect();
        }
        assert(SPI::read_rel(old(self).spi, mid, data));
        data
    }

    /// Two bytes from the data port, the first the low one.
    fn get_data_halfword(&mut self) -> (r: u16)
        requires
            old(self).wf(),
            old(self).data_out_ok(),
        ensures
            final(self).wf(),
            final(self).data_out_ok(),
            ({
                let (s, d) = old(self).data_out_n(2);
                *final(self) == s && r == d[0] + d[1] * 0x100
            }),
    {
        proof {
            old(self).lemma_data_out_ok_kept();
            old(self).after_data_out().0.lemma_data_out_ok_kept();
            reveal_with_fuel(DSCard::data_out_n, 3);
        }
        let lo = self.get_data_out();
        let hi = self.get_data_out();
        (lo as u16) + (hi as u16) * 0x100
    }

    /// Reads a card register half-word; the data port gives two bytes.
    pub fn read_halfword(&mut self, addr: u32) -> (r: u16)
        requires
            old(self).wf(),
            halfword_read_addr(addr),
            addr == 0x0400_01A2 ==> old(self).spi.read_ok(),
            addr >= 0x0410_0010 ==> old(self).data_out_ok(),
        ensures
            final(self).wf(),
            addr == 0x0400_01A0 ==> r == old(self).spi_control && *final(self) == *old(self),
            addr == 0x0400_01A2 ==> r < 0x100 && Self::spi_read_rel(
                old(self).spi,
                final(self).spi,
                old(self).spi_control & SPICNT_HOLD != 0,
                r as u8,
            ) && *final(self) == (DSCard { spi: final(self).spi, ..*old(self) }),
            addr == 0x0400_01A4 ==> r == old(self).rom_control_lo && *final(self) == *old(self),
            addr == 0x0400_01A6 ==> r == old(self).rom_control_hi && *final(self) == *old(self),
            0x0400_01A8 <= addr <= 0x0400_01BF ==> r == 0 && *final(self) == *old(self),
            addr >= 0x0410_0010 ==> ({
                let (s, d) = old(self).data_out_n(2);
                *final(self) == s && r == d[0] + d[1] * 0x100
            }),
    {
        if addr == 0x0400_01A0 {
            self.spi_control
        } else if addr == 0x0400_01A2 {
            self.spi_read() as u16
        } else if addr == 0x0400_01A4 {
            self.rom_control_lo
        } else if addr == 0x0400_01A6 {
            self.rom_control_hi
        } else if addr <= 0x0400_01BF {
            0
        } else {
            self.get_data_halfword()
        }
    }

    /// Writes a card register byte.
    pub fn write_byte(&mut self, addr: u32, data: u8)
        requires
            byte_write_addr(addr),
        ensures
            *final(self) == (DSCard {
                spi_control: final(self).spi_control,
                command: final(self).command,
                seed_0: final(self).seed_0,
                seed_1: final(self).seed_1,
                ..*old(self)
            }),
            final(self).spi_control == (if addr == 0x0400_01A0 {
                ((old(self).spi_control / 0x100) * 0x100 + data) as u16 & SPICNT_ALL
            } else if addr == 0x0400_01A1 {
                (data * 0x100 + old(self).spi_control % 0x100) as u16 & SPICNT_ALL
            } else {
                old(self).spi_control
            }),
            final(self).command@ == command_after_byte(old(self).command@, addr, data),
            final(self).seed_0@ == seed_after_byte(old(self).seed_0@, 0x0400_01B0, 0x0400_01B8, addr, data),
            final(self).seed_1@ == seed_after_byte(old(self).seed_1@, 0x0400_01B4, 0x0400_01BA, addr, data),
    {
        if addr == 0x0400_01A0 {
            self.spi_control = ((self.spi_control / 0x100) * 0x100 + data as u16) & SPICNT_ALL;
        } else if addr == 0x0400_01A1 {
            self.spi_control = ((data as u16) * 0x100 + self.spi_control % 0x100) & SPICNT_ALL;
        } else if 0x0400_01A8 <= addr && addr <= 0x0400_01AF {
            let idx = (0x0400_01AF - addr) as usize;
            self.command[idx] = data;
        } else if 0x0400_01B0 <= addr && addr <= 0x0400_01B3 {
            let idx = (addr - 0x0400_01B0) as usize;
            self.seed_0[idx] = data;
        } else if addr == 0x0400_01B8 {
            self.seed_0[4] = data & 0x7F;
        } else if 0x0400_01B4 <= addr && addr <= 0x0400_01B7 {
            let idx = (addr - 0x0400_01B4) as usize;
            self.seed_1[idx] = data;
        } else if addr == 0x0400_01BA {
            self.seed_1[4] = data & 0x7F;
        }
    }

    /// The card after a half-word write, apart from the command and seed
    /// bytes and the save bus.
    pub open spec fn halfword_written(self, addr: u32, data: u16, plain: u64) -> Self {
        if addr == 0x0400_01A0 {
            DSCard { spi_control: data & SPICNT_ALL, ..self }
        } else if addr == 0x0400_01A4 {
            self.after_rom_control_lo(data)
        } else if addr == 0x0400_01A6 {
            self.after_rom_control_hi(data, plain)
        } else {
            self
        }
    }

    /// Writes a card register half-word. `plain` is the current command as
    /// KEY1 decrypts it, used where the write starts a KEY1 command.
    pub fn write_halfword(&mut self, addr: u32, data: u16, plain: u64)
        requires
            old(self).wf(),
            halfword_write_addr(addr),
            addr == 0x0400_01A2 ==> old(self).spi.write_ok((data % 0x100) as u8),
            addr == 0x0400_01A6 ==> old(self).rom_control_hi_ok(data, plain),
        ensures
            final(self).wf(),
            *final(self) == (DSCard {
                spi: final(self).spi,
                command: final(self).command,
                seed_0: final(self).seed_0,
                seed_1: final(self).seed_1,
                ..old(self).halfword_written(addr, data, plain)
            }),
            addr == 0x0400_01A2 ==> SPI::write_rel(old(self).spi, final(self).spi, (data % 0x100) as u8),
            addr != 0x0400_01A2 ==> final(self).spi == old(self).spi,
            final(self).command@ == command_after_halfword(old(self).command@, addr, data),
            final(self).seed_0@ == seed_after_halfword(old(self).seed_0@, 0x0400_01B0, 0x0400_01B8, addr, data),
            final(self).seed_1@ == seed_after_halfword(old(self).seed_1@, 0x0400_01B4, 0x0400_01BA, addr, data),
    {
        let lo = (data % 0x100) as u8;
        let hi = (data / 0x100) as u8;
        if addr == 0x0400_01A0 {
            self.spi_control = data & SPICNT_ALL;
        } else if addr == 0x0400_01A2 {
            self.spi.write(lo);
        } else if addr == 0x0400_01A4 {
            self.write_rom_control_lo(data);
        } else if addr == 0x0400_01A6 {
            self.write_rom_control_hi(data, plain);
        } else if addr == 0x0400_01A8 {
            self.command[7] = lo;
            self.command[6] = hi;
        } else if addr == 0x0400_01AA {
            self.command[5] = lo;
            self.command[4] = hi;
        } else if addr == 0x0400_01AC {
            self.command[3] = lo;
            self.command[2] = hi;
        } else if addr == 0x0400_01AE {
            self.command[1] = lo;
            self.command[0] = hi;
        } else if addr == 0x0400_01B0 {
            self.seed_0[0] = lo;
            self.seed_0[1] = hi;
        } else if addr == 0x0400_01B2 {
            self.seed_0[2] = lo;
            self.seed_0[3] = hi;
        } else if addr == 0x0400_01B8 {
            self.seed_0[4] = lo & 0x7F;
        } else if addr == 0x0400_01B4 {
            self.seed_1[0] = lo;
            self.seed_1[1] = hi;
        } else if addr == 0x0400_01B6 {
            self.seed_1[2] = lo;
            self.seed_1[3] = hi;
        } else if addr == 0x0400_01BA {
            self.seed_1[4] = lo & 0x7F;
        }
    }
}


/// Byte `k` of a word, least significant first.
pub open spec fn word_byte(data: u32, k: int) -> u8 {
    if k == 0 {
        (data % 0x100) as u8
    } else if k == 1 {
        ((data / 0x100) % 0x100) as u8
    } else if k == 2 {
        ((data / 0x1_0000) % 0x100) as u8
    } else {
        (data / 0x100_0000) as u8
    }
}

/// The command bytes after a word write: four bytes, the word's low byte
/// the latest.
pub open spec fn command_after_word(cmd: Seq<u8>, addr: u32, data: u32) -> Seq<u8> {
    if addr == 0x0400_01A8 {
        cmd.update(7, word_byte(data, 0)).update(6, word_byte(data, 1)).update(5, word_byte(data, 2)).update(
            4,
            word_byte(data, 3),
        )
    } else if addr == 0x0400_01AC {
        cmd.update(3, word_byte(data, 0)).update(2, word_byte(data, 1)).update(1, word_byte(data, 2)).update(
            0,
            word_byte(data, 3),
        )
    } else {
        cmd
    }
}

/// A seed after a word write of its four low bytes.
pub open spec fn seed_after_word(seed: Seq<u8>, base: u32, addr: u32, data: u32) -> Seq<u8> {
    if addr == base {
        seed.update(0, word_byte(data, 0)).update(1, word_byte(data, 1)).update(2, word_byte(data, 2)).update(
            3,
            word_byte(data, 3),
        )
    } else {
        seed
    }
}

impl DSCard {
    /// Reads a card register word; the data port gives four bytes.
    pub fn read_word(&mut self, addr: u32) -> (r: u32)
        requires
            old(self).wf(),
            word_read_addr(addr),
            addr == 0x0400_01A0 ==> old(self).spi.read_ok(),
            addr == 0x0410_0010 ==> old(self).data_out_ok(),
        ensures
            final(self).wf(),
            addr == 0x0400_01A0 ==> r / 0x1_0000 < 0x100 && r % 0x1_0000 == old(self).spi_control
                && Self::spi_read_rel(
                old(self).spi,
                final(self).spi,
                old(self).spi_control & SPICNT_HOLD != 0,
                (r / 0x1_0000) as u8,
            ) && *final(self) == (DSCard { spi: final(self).spi, ..*old(self) }),
            addr == 0x0400_01A4 ==> r == old(self).rom_control_lo + old(self).rom_control_hi * 0x1_0000
                && *final(self) == *old(self),
            0x0400_01A8 <= addr <= 0x0400_01BF ==> r == 0 && *final(self) == *old(self),
            addr == 0x0410_0010 ==> ({
                let (s, d) = old(self).data_out_n(2);
                let (t, e) = s.data_out_n(2);
                *final(self) == t && r == d[0] + d[1] * 0x100 + (e[0] + e[1] * 0x100) * 0x1_0000
            }),
    {
        if addr == 0x0400_01A0 {
            let data = self.spi_read();
            (self.spi_control as u32) + (data as u32) * 0x1_0000
        } else if addr == 0x0400_01A4 {
            (self.rom_control_lo as u32) + (self.rom_control_hi as u32) * 0x1_0000
        } else if addr <= 0x0400_01BF {
            0
        } else {
            let lo = self.get_data_halfword();
            let hi = self.get_data_halfword();
            (lo as u32) + (hi as u32) * 0x1_0000
        }
    }

    /// The card after a word write, apart from the command and seed bytes
    /// and the save bus.
    pub open spec fn word_written(self, addr: u32, data: u32, plain: u64) -> Self {
        if addr == 0x0400_01A0 {
            DSCard { spi_control: (data % 0x1_0000) as u16 & SPICNT_ALL, ..self }
        } else if addr == 0x0400_01A4 {
            self.after_rom_control_lo((data % 0x1_0000) as u16).after_rom_control_hi(
                (data / 0x1_0000) as u16,
                plain,
            )
        } else {
            self
        }
    }

    /// Writes a card register word. `plain` is the current command as KEY1
    /// decrypts it, used where the write starts a KEY1 command.
    pub fn write_word(&mut self, addr: u32, data: u32, plain: u64)
        requires
            old(self).wf(),
            word_write_addr(addr),
            addr == 0x0400_01A0 ==> old(self).spi.write_ok(((data / 0x1_0000) % 0x100) as u8),
            addr == 0x0400_01A4 ==> old(self).after_rom_control_lo((data % 0x1_0000) as u16).rom_control_hi_ok(
                (data / 0x1_0000) as u16,
                plain,
            ),
        ensures
            final(self).wf(),
            *final(self) == (DSCard {
                spi: final(self).spi,
                command: final(self).command,
                seed_0: final(self).seed_0,
                seed_1: final(self).seed_1,
                ..old(self).word_written(addr, data, plain)
            }),
            addr == 0x0400_01A0 ==> SPI::write_rel(
                old(self).spi,
                final(self).spi,
                ((data / 0x1_0000) % 0x100) as u8,
            ),
            addr != 0x0400_01A0 ==> final(self).spi == old(self).spi,
            final(self).command@ == command_after_word(old(self).command@, addr, data),
            final(self).seed_0@ == seed_after_word(old(self).seed_0@, 0x0400_01B0, addr, data),
            final(self).seed_1@ == seed_after_word(old(self).seed_1@, 0x0400_01B4, addr, data),
    {
        let b0 = (data % 0x100) as u8;
        let b1 = ((data / 0x100) % 0x100) as u8;
        let b2 = ((data / 0x1_0000) % 0x100) as u8;
        let b3 = (data / 0x100_0000) as u8;
        if addr == 0x0400_01A0 {
            self.spi_control = ((data % 0x1_0000) as u16) & SPICNT_ALL;
            self.spi.write(b2);
        } else if addr == 0x0400_01A4 {
            self.write_rom_control_lo((data % 0x1_0000) as u16);
            self.write_rom_control_hi((data / 0x1_0000) as u16, plain);
        } else if addr == 0x0400_01A8 {
            self.command[7] = b0;
            self.command[6] = b1;
            self.command[5] = b2;
            self.command[4] = b3;
        } else if addr == 0x0400_01B0 {
            self.seed_0[0] = b0;
            self.seed_0[1] = b1;
            self.seed_0[2] = b2;
            self.seed_0[3] = b3;
        } else if addr == 0x0400_01B4 {
            self.seed_1[0] = b0;
            self.seed_1[1] = b1;
            self.seed_1[2] = b2;
            self.seed_1[3] = b3;
        } else {
            self.command[3] = b0;
            self.command[2] = b1;
            self.command[1] = b2;
            self.command[0] = b3;
        }
    }
}


/// The eight bytes of a number read back as the number: a secure area
/// block stored with `set_secure_block` is what `secure_block` gives.
pub proof fn lemma_le_bytes64_roundtrip(v: u64)
    ensures
        le64(le_bytes64(v)) == v,
{
    assert(v == (v % 0x100) + ((v / 0x100) % 0x100) * 0x100 + ((v / 0x1_0000) % 0x100) * 0x1_0000 + ((v
        / 0x100_0000) % 0x100) * 0x100_0000 + ((v / 0x1_0000_0000) % 0x100) * 0x1_0000_0000 + ((v
        / 0x100_0000_0000) % 0x100) * 0x100_0000_0000 + ((v / 0x1_0000_0000_0000) % 0x100)
        * 0x1_0000_0000_0000 + (v / 0x100_0000_0000_0000) * 0x100_0000_0000_0000) by (bit_vector);
}

/// An id transfer of four bytes gives the card id in order, and then
/// completes: the data port goes back to dummy bytes.
pub proof fn lemma_id_transfer(c: DSCard)
    requires
        is_id_state(c.data_state),
        c.transfer_count == 4,
    ensures
        c.data_out_n(4).1 == c.rom_id@,
        c.data_out_n(4).0.transfer_count == 0,
        !is_id_state(c.data_out_n(4).0.data_state),
{
    reveal_with_fuel(DSCard::data_out_n, 5);
    let s1 = c.after_data_out().0;
    let s2 = s1.after_data_out().0;
    let s3 = s2.after_data_out().0;
    assert(s1.transfer_count == 3 && s2.transfer_count == 2 && s3.transfer_count == 1);
    assert(c.data_out_n(4).1 =~= c.rom_id@);
}

} // verus!
