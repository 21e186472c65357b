//! Main RAM, the memories that the two processors' buses reach, and the
//! paths of the files the system loads.
use vstd::prelude::*;
use std::path::PathBuf;
use crate::ram::{Ram, spec_le16, spec_le32, spec_write_le16, spec_write_le32};
use crate::shared::SharedWRAM;
use crate::video::memory::mapping::DSVideoMemory;

verus! {

#[verifier::external_type_specification]
#[verifier::external_body]
pub struct ExPathBuf(PathBuf);

/// Bytes of main RAM.
pub const MAIN_RAM_SIZE: usize = 4 * 1024 * 1024;

/// Locations of the files that the system uses.
pub struct MemoryConfig {
    pub rom_path: PathBuf,
    pub save_path: Option<PathBuf>,
    pub ds9_bios_path: Option<PathBuf>,
    pub ds7_bios_path: Option<PathBuf>,
    pub firmware_path: Option<PathBuf>,
    pub fast_boot: bool,
}

/// The 4 MB of main RAM, which both processors address.
pub struct MainRAM {
    pub ram: Ram,
}

impl View for MainRAM {
    type V = Seq<u8>;

    open spec fn view(&self) -> Seq<u8> {
        self.ram@
    }
}

impl MainRAM {
    pub fn new() -> (r: Self)
        ensures
            r@ == Seq::new(MAIN_RAM_SIZE as nat, |i: int| 0u8),
    {
        MainRAM { ram: Ram::new(MAIN_RAM_SIZE) }
    }

    pub fn read_byte(&self, addr: u32) -> (r: u8)
        requires
            addr < self@.len(),
        ensures
            r == self@[addr as int],
    {
        self.ram.read_byte(addr)
    }

    pub fn write_byte(&mut self, addr: u32, data: u8)
        requires
            addr < old(self)@.len(),
        ensures
            final(self)@ == old(self)@.update(addr as int, data),
    {
        self.ram.write_byte(addr, data)
    }

    pub fn read_halfword(&self, addr: u32) -> (r: u16)
        requires
            addr + 2 <= self@.len(),
        ensures
            r == spec_le16(self@, addr as int),
    {
        self.ram.read_halfword(addr)
    }

    pub fn write_halfword(&mut self, addr: u32, data: u16)
        requires
            addr + 2 <= old(self)@.len(),
        ensures
            final(self)@ == spec_write_le16(old(self)@, addr as int, data),
    {
        self.ram.write_halfword(addr, data)
    }

    pub fn read_word(&self, addr: u32) -> (r: u32)
        requires
            addr + 4 <= self@.len(),
        ensures
            r == spec_le32(self@, addr as int),
    {
        self.ram.read_word(addr)
    }

    pub fn write_word(&mut self, addr: u32, data: u32)
        requires
            addr + 4 <= old(self)@.len(),
        ensures
            final(self)@ == spec_write_le32(old(self)@, addr as int, data),
    {
        self.ram.write_word(addr, data)
    }
}


/// Bytes of the ARM7's own WRAM.
pub const ARM7_WRAM_SIZE: usize = 64 * 1024;

/// The memories on the processors' buses: main RAM and the shared WRAM,
/// which both reach, the video memory, and the ARM7's own WRAM.
pub struct DSMemory {
    pub main_ram: MainRAM,
    pub shared_wram: SharedWRAM,
    pub video_mem: DSVideoMemory,
    pub arm7_wram: Ram,
}

impl DSMemory {
    pub open spec fn wf(&self) -> bool {
        &&& self.main_ram@.len() == MAIN_RAM_SIZE
        &&& self.shared_wram.wf()
        &&& self.video_mem.wf()
        &&& self.arm7_wram@.len() == ARM7_WRAM_SIZE
    }

    /// Zeroed memories, the VRAM banks all mapped to the ARM9, the shared
    /// WRAM at its power-on setting.
    pub fn new() -> (r: Self)
        ensures
            r.wf(),
            r.main_ram@ == Seq::new(MAIN_RAM_SIZE as nat, |i: int| 0u8),
            r.arm7_wram@ == Seq::new(ARM7_WRAM_SIZE as nat, |i: int| 0u8),
            r.shared_wram.bank_control == 0,
            r.shared_wram.bank_status == 3,
    {
        DSMemory {
            main_ram: MainRAM::new(),
            shared_wram: SharedWRAM::new(),
            video_mem: DSVideoMemory::new(),
            arm7_wram: Ram::new(ARM7_WRAM_SIZE),
        }
    }
}


/// Where the card header is copied in main RAM.
pub const HEADER_COPY: usize = 0x3F_FE00;

/// `m` with the bytes of `h` from `at` on.
pub open spec fn copied_at(m: Seq<u8>, at: int, h: Seq<u8>) -> Seq<u8> {
    Seq::new(m.len(), |i: int| if at <= i < at + h.len() { h[i - at] } else { m[i] })
}

/// Main RAM `m` with what the BIOS leaves there when it boots a card with
/// chip id `rom_id`: the header copy with the autostart flag, the chip ids,
/// the boot status words, and the user settings (birthday, language,
/// touch screen calibration).
pub open spec fn boot_info(m: Seq<u8>, header: Seq<u8>, rom_id: u32) -> Seq<u8> {
    let m = copied_at(m, HEADER_COPY as int, header);
    let m = m.update(0x3F_FE1F, 4);
    let m = spec_write_le32(m, 0x3F_F800, rom_id);
    let m = spec_write_le32(m, 0x3F_F804, rom_id);
    let m = spec_write_le32(m, 0x3F_F880, 7);
    let m = spec_write_le32(m, 0x3F_F884, 6);
    let m = spec_write_le32(m, 0x3F_F890, 0xB000_2A22);
    let m = spec_write_le32(m, 0x3F_FC00, rom_id);
    let m = spec_write_le32(m, 0x3F_FC04, rom_id);
    let m = spec_write_le32(m, 0x3F_FC40, 1);
    let m = m.update(0x3F_FC83, 1);
    let m = m.update(0x3F_FC84, 1);
    let m = spec_write_le16(m, 0x3F_FCE4, 0xEC41);
    let m = spec_write_le16(m, 0x3F_FCD8, 0);
    let m = spec_write_le16(m, 0x3F_FCDA, 0);
    let m = spec_write_le16(m, 0x3F_FCDE, 0xFF0);
    let m = spec_write_le16(m, 0x3F_FCE0, 0xBF0);
    let m = m.update(0x3F_FCDC, 0);
    let m = m.update(0x3F_FCDD, 0);
    let m = m.update(0x3F_FCE2, 255);
    m.update(0x3F_FCE3, 191)
}

impl MainRAM {
    /// Writes what the BIOS leaves in main RAM for the booted card, for
    /// booting without it.
    pub fn write_boot_info(&mut self, header: &[u8], rom_id: u32)
        requires
            old(self)@.len() == MAIN_RAM_SIZE,
            header@.len() <= 0x200,
        ensures
            final(self)@ == boot_info(old(self)@, header@, rom_id),
    {
        let n = header.len();
        let mut i: usize = 0;
        while i < n
            invariant
                n == header@.len(),
                n <= 0x200,
                i <= n,
                self@.len() == MAIN_RAM_SIZE,
                self@ == copied_at(old(self)@, HEADER_COPY as int, header@.subrange(0, i as int)),
            decreases n - i,
        {
            self.write_byte((HEADER_COPY + i) as u32, header[i]);
            assert(self@ =~= copied_at(old(self)@, HEADER_COPY as int, header@.subrange(0, i + 1)));
            i = i + 1;
        }
        assert(header@.subrange(0, n as int) =~= header@);
        self.write_byte(0x3F_FE1F, 4);
        self.write_word(0x3F_F800, rom_id);
        self.write_word(0x3F_F804, rom_id);
        self.write_word(0x3F_F880, 7);
        self.write_word(0x3F_F884, 6);
        self.write_word(0x3F_F890, 0xB000_2A22);
        self.write_word(0x3F_FC00, rom_id);
        self.write_word(0x3F_FC04, rom_id);
        self.write_word(0x3F_FC40, 1);
        self.write_byte(0x3F_FC83, 1);
        self.write_byte(0x3F_FC84, 1);
        self.write_halfword(0x3F_FCE4, 0xEC41);
        self.write_halfword(0x3F_FCD8, 0);
        self.write_halfword(0x3F_FCDA, 0);
        self.write_halfword(0x3F_FCDE, 0xFF0);
        self.write_halfword(0x3F_FCE0, 0xBF0);
        self.write_byte(0x3F_FCDC, 0);
        self.write_byte(0x3F_FCDD, 0);
        self.write_byte(0x3F_FCE2, 255);
        self.write_byte(0x3F_FCE3, 191);
    }
}


/// After booting, main RAM holds the card header at its copy (with the
/// autostart flag set), and the chip id where the boot code leaves it.
pub proof fn lemma_boot_info_reads(m: Seq<u8>, header: Seq<u8>, rom_id: u32)
    requires
        m.len() == MAIN_RAM_SIZE,
        header.len() <= 0x200,
    ensures
        forall|n: int| 0 <= n < header.len() && n != 0x1F ==> #[trigger] boot_info(m, header, rom_id)[HEADER_COPY + n] == header[n],
        boot_info(m, header, rom_id)[0x3F_FE1F] == 4,
        spec_le32(boot_info(m, header, rom_id), 0x3F_FC00) == rom_id,
{
    let b = boot_info(m, header, rom_id);
    let c = copied_at(m, HEADER_COPY as int, header);
    assert forall|n: int| 0 <= n < header.len() && n != 0x1F implies #[trigger] b[HEADER_COPY + n] == header[n] by {
        assert(c[HEADER_COPY + n] == header[n]);
    }
    let w = spec_write_le32(
        spec_write_le32(
            spec_write_le32(
                spec_write_le32(
                    spec_write_le32(
                        spec_write_le32(c.update(0x3F_FE1F, 4), 0x3F_F800, rom_id),
                        0x3F_F804,
                        rom_id,
                    ),
                    0x3F_F880,
                    7,
                ),
                0x3F_F884,
                6,
            ),
            0x3F_F890,
            0xB000_2A22,
        ),
        0x3F_FC00,
        rom_id,
    );
    crate::ram::lemma_word_write_read(
        spec_write_le32(
            spec_write_le32(
                spec_write_le32(
                    spec_write_le32(spec_write_le32(c.update(0x3F_FE1F, 4), 0x3F_F800, rom_id), 0x3F_F804, rom_id),
                    0x3F_F880,
                    7,
                ),
                0x3F_F884,
                6,
            ),
            0x3F_F890,
            0xB000_2A22,
        ),
        0x3F_FC00,
        rom_id,
    );
    assert(spec_le32(w, 0x3F_FC00) == rom_id);
    assert(spec_le32(b, 0x3F_FC00) == spec_le32(w, 0x3F_FC00));
}

} // verus!
