//! The card header.
use vstd::prelude::*;
use vstd::utf8::{valid_utf8, decode_utf8};
use crate::ram::spec_le32;

verus! {

/// Calls `String::from_utf8`, which accepts exactly the byte strings that are
/// valid UTF-8 and then gives the string they encode.
#[verifier::external_body]
fn string_from_utf8(bytes: Vec<u8>) -> (r: Option<String>)
    ensures
        r is Some <==> valid_utf8(bytes@),
        r matches Some(s) ==> s@ == decode_utf8(bytes@),
{
    String::from_utf8(bytes).ok()
}

/// The header of the DS card.
pub struct CardHeader(pub Vec<u8>);

impl CardHeader {
    pub fn new(data: Vec<u8>) -> (r: Self)
        ensures
            r.0@ == data@,
    {
        CardHeader(data)
    }

    /// The little-endian word at `at`.
    pub fn get_u32(&self, at: usize) -> (r: u32)
        requires
            at + 4 <= self.0@.len(),
        ensures
            r == spec_le32(self.0@, at as int),
    {
        let b = &self.0;
        let n = b.len();
        assert(at + 3 < n);
        (b[at] as u32) + (b[at + 1] as u32) * 0x100 + (b[at + 2] as u32) * 0x1_0000 + (b[at + 3] as u32)
            * 0x100_0000
    }

    pub fn as_slice(&self) -> (r: &[u8])
        ensures
            r@ == self.0@,
    {
        self.0.as_slice()
    }

    /// The game name given in the header: its first twelve bytes.
    pub fn game_name(&self) -> (r: String)
        requires
            self.0@.len() >= 12,
            valid_utf8(self.0@.subrange(0, 12)),
        ensures
            r@ == decode_utf8(self.0@.subrange(0, 12)),
    {
        let mut name: Vec<u8> = Vec::new();
        let mut i: usize = 0;
        while i < 12
            invariant
                i <= 12,
                self.0@.len() >= 12,
                name@ == self.0@.subrange(0, i as int),
            decreases 12 - i,
        {
            name.push(self.0[i]);
            i = i + 1;
        }
        match string_from_utf8(name) {
            Some(s) => s,
            None => {
                assert(false);
                String::new()
            },
        }
    }

    /// Offset of the icon and title.
    pub fn icon_title_offset(&self) -> (r: u32)
        requires
            self.0@.len() >= 0x6C,
        ensures
            r == spec_le32(self.0@, 0x68),
    {
        self.get_u32(0x68)
    }

    /// Where the initial ARM9 code is loaded from (card address).
    pub fn arm9_rom_offset(&self) -> (r: u32)
        requires
            self.0@.len() >= 0x24,
        ensures
            r == spec_le32(self.0@, 0x20),
    {
        self.get_u32(0x20)
    }

    /// Where the ARM9 starts executing.
    pub fn arm9_entry_addr(&self) -> (r: u32)
        requires
            self.0@.len() >= 0x28,
        ensures
            r == spec_le32(self.0@, 0x24),
    {
        self.get_u32(0x24)
    }

    /// Where the initial ARM9 code is loaded to (bus address).
    pub fn arm9_ram_addr(&self) -> (r: u32)
        requires
            self.0@.len() >= 0x2C,
        ensures
            r == spec_le32(self.0@, 0x28),
    {
        self.get_u32(0x28)
    }

    /// Bytes of ARM9 code to load from the card.
    pub fn arm9_size(&self) -> (r: u32)
        requires
            self.0@.len() >= 0x30,
        ensures
            r == spec_le32(self.0@, 0x2C),
    {
        self.get_u32(0x2C)
    }

    /// Where the initial ARM7 code is loaded from (card address).
    pub fn arm7_rom_offset(&self) -> (r: u32)
        requires
            self.0@.len() >= 0x34,
        ensures
            r == spec_le32(self.0@, 0x30),
    {
        self.get_u32(0x30)
    }

    /// Where the ARM7 starts executing.
    pub fn arm7_entry_addr(&self) -> (r: u32)
        requires
            self.0@.len() >= 0x38,
        ensures
            r == spec_le32(self.0@, 0x34),
    {
        self.get_u32(0x34)
    }

    /// Where the initial ARM7 code is loaded to (bus address).
    pub fn arm7_ram_addr(&self) -> (r: u32)
        requires
            self.0@.len() >= 0x3C,
        ensures
            r == spec_le32(self.0@, 0x38),
    {
        self.get_u32(0x38)
    }

    /// Bytes of ARM7 code to load from the card.
    pub fn arm7_size(&self) -> (r: u32)
        requires
            self.0@.len() >= 0x40,
        ensures
            r == spec_le32(self.0@, 0x3C),
    {
        self.get_u32(0x3C)
    }

    /// The card read settings.
    pub fn rom_ctrl(&self) -> (r: u32)
        requires
            self.0@.len() >= 0x64,
        ensures
            r == spec_le32(self.0@, 0x60),
    {
        self.get_u32(0x60)
    }
}

} // verus!
