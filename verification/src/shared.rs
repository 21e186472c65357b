//! The two 16K banks of shared WRAM and how the two processors split them.
use vstd::prelude::*;
use crate::ram::{Ram, spec_le16, spec_le32, spec_write_le16, spec_write_le32};

verus! {

pub const BANK_SIZE: usize = 16 * 1024;

/// One of the two shared WRAM banks.
#[derive(Clone, Copy, PartialEq, Eq, Structural)]
pub enum Bank {
    Lo,
    Hi,
}

/// The bank that the ARM9 reaches at `addr` under bank control `control`:
/// both (split at 16K) for 0, the upper for 1, the lower for 2, none for 3.
pub open spec fn spec_arm9_bank(control: u8, addr: u32) -> Option<Bank> {
    if control == 0 {
        Some(if (addr / 0x4000) % 2 == 1 { Bank::Hi } else { Bank::Lo })
    } else if control == 1 {
        Some(Bank::Hi)
    } else if control == 2 {
        Some(Bank::Lo)
    } else {
        None
    }
}

/// The bank that the ARM7 reaches at `addr` under bank control `status`:
/// the rest of what the ARM9 has.
pub open spec fn spec_arm7_bank(status: u8, addr: u32) -> Option<Bank> {
    if status == 1 {
        Some(Bank::Lo)
    } else if status == 2 {
        Some(Bank::Hi)
    } else if status == 3 {
        Some(if (addr / 0x4000) % 2 == 1 { Bank::Hi } else { Bank::Lo })
    } else {
        None
    }
}

pub fn arm9_bank(control: u8, addr: u32) -> (r: Option<Bank>)
    ensures
        r == spec_arm9_bank(control, addr),
{
    if control == 0 {
        Some(if (addr / 0x4000) % 2 == 1 { Bank::Hi } else { Bank::Lo })
    } else if control == 1 {
        Some(Bank::Hi)
    } else if control == 2 {
        Some(Bank::Lo)
    } else {
        None
    }
}

pub fn arm7_bank(status: u8, addr: u32) -> (r: Option<Bank>)
    ensures
        r == spec_arm7_bank(status, addr),
{
    if status == 1 {
        Some(Bank::Lo)
    } else if status == 2 {
        Some(Bank::Hi)
    } else if status == 3 {
        Some(if (addr / 0x4000) % 2 == 1 { Bank::Hi } else { Bank::Lo })
    } else {
        None
    }
}

/// Under any bank control setting with a defined mapping (0 to 3), no bank
/// is reachable from both processors.
pub proof fn lemma_banks_exclusive(control: u8, addr9: u32, addr7: u32)
    requires
        control <= 3,
    ensures
        spec_arm9_bank(control, addr9) matches Some(b9) ==> spec_arm7_bank(control, addr7) != Some(b9),
{
}

/// Shared WRAM: the two banks, the bank control as the ARM9 holds it and
/// the bank status as the ARM7 sees it.
pub struct SharedWRAM {
    pub bank_control: u8,
    pub bank_status: u8,
    pub lo_bank: Ram,
    pub hi_bank: Ram,
}

impl SharedWRAM {
    /// The banks are 16K each.
    pub open spec fn wf(&self) -> bool {
        self.lo_bank@.len() == BANK_SIZE && self.hi_bank@.len() == BANK_SIZE
    }

    pub open spec fn bank(&self, b: Bank) -> Seq<u8> {
        match b {
            Bank::Lo => self.lo_bank@,
            Bank::Hi => self.hi_bank@,
        }
    }

    /// Zeroed banks; at power-on the ARM9's control reads 0 while the ARM7
    /// sees status 3, until the control is first written.
    pub fn new() -> (r: Self)
        ensures
            r.wf(),
            r.bank_control == 0,
            r.bank_status == 3,
            r.lo_bank@ == Seq::new(BANK_SIZE as nat, |i: int| 0u8),
            r.hi_bank@ == Seq::new(BANK_SIZE as nat, |i: int| 0u8),
    {
        SharedWRAM { bank_control: 0, bank_status: 3, lo_bank: Ram::new(BANK_SIZE), hi_bank: Ram::new(BANK_SIZE) }
    }

    /// Sets the bank control, for both processors.
    pub fn set_bank_control(&mut self, data: u8)
        ensures
            final(self).bank_control == data,
            final(self).bank_status == data,
            final(self).lo_bank == old(self).lo_bank,
            final(self).hi_bank == old(self).hi_bank,
    {
        self.bank_control = data;
        self.bank_status = data;
    }

    pub fn get_bank_status(&self) -> (r: u8)
        ensures
            r == self.bank_status,
    {
        self.bank_status
    }

    pub fn get_bank_control(&self) -> (r: u8)
        ensures
            r == self.bank_control,
    {
        self.bank_control
    }

    /// The bank a processor reaches at `addr`.
    pub open spec fn reach(&self, arm9: bool, addr: u32) -> Option<Bank> {
        if arm9 {
            spec_arm9_bank(self.bank_control, addr)
        } else {
            spec_arm7_bank(self.bank_status, addr)
        }
    }

    fn reach_exec(&self, arm9: bool, addr: u32) -> (r: Option<Bank>)
        ensures
            r == self.reach(arm9, addr),
    {
        if arm9 {
            arm9_bank(self.bank_control, addr)
        } else {
            arm7_bank(self.bank_status, addr)
        }
    }

    /// Reads a byte for a processor; 0 where it has no bank.
    pub fn read_byte(&self, arm9: bool, addr: u32) -> (r: u8)
        requires
            self.wf(),
        ensures
            r == match self.reach(arm9, addr) {
                Some(b) => self.bank(b)[(addr % 0x4000) as int],
                None => 0,
            },
    {
        let a = addr % 0x4000;
        match self.reach_exec(arm9, addr) {
            Some(Bank::Lo) => self.lo_bank.read_byte(a),
            Some(Bank::Hi) => self.hi_bank.read_byte(a),
            None => 0,
        }
    }

    /// Writes a byte for a processor; nothing where it has no bank.
    pub fn write_byte(&mut self, arm9: bool, addr: u32, data: u8)
        requires
            old(self).wf(),
        ensures
            final(self).wf(),
            final(self).bank_control == old(self).bank_control,
            final(self).bank_status == old(self).bank_status,
            match old(self).reach(arm9, addr) {
                Some(b) => final(self).bank(b) == old(self).bank(b).update((addr % 0x4000) as int, data),
                None => true,
            },
            forall|b: Bank| old(self).reach(arm9, addr) != Some(b) ==> #[trigger] final(self).bank(b)
                == old(self).bank(b),
    {
        let a = addr % 0x4000;
        match self.reach_exec(arm9, addr) {
            Some(Bank::Lo) => self.lo_bank.write_byte(a, data),
            Some(Bank::Hi) => self.hi_bank.write_byte(a, data),
            None => {},
        }
    }

    /// Reads a half-word for a processor; 0 where it has no bank.
    pub fn read_halfword(&self, arm9: bool, addr: u32) -> (r: u16)
        requires
            self.wf(),
            addr % 0x4000 + 2 <= BANK_SIZE,
        ensures
            r == match self.reach(arm9, addr) {
                Some(b) => spec_le16(self.bank(b), (addr % 0x4000) as int),
                None => 0,
            },
    {
        let a = addr % 0x4000;
        match self.reach_exec(arm9, addr) {
            Some(Bank::Lo) => self.lo_bank.read_halfword(a),
            Some(Bank::Hi) => self.hi_bank.read_halfword(a),
            None => 0,
        }
    }

    /// Writes a half-word for a processor; nothing where it has no bank.
    pub fn write_halfword(&mut self, arm9: bool, addr: u32, data: u16)
        requires
            old(self).wf(),
            addr % 0x4000 + 2 <= BANK_SIZE,
        ensures
            final(self).wf(),
            final(self).bank_control == old(self).bank_control,
            final(self).bank_status == old(self).bank_status,
            match old(self).reach(arm9, addr) {
                Some(b) => final(self).bank(b) == spec_write_le16(old(self).bank(b), (addr % 0x4000) as int, data),
                None => true,
            },
            forall|b: Bank| old(self).reach(arm9, addr) != Some(b) ==> #[trigger] final(self).bank(b)
                == old(self).bank(b),
    {
        let a = addr % 0x4000;
        match self.reach_exec(arm9, addr) {
            Some(Bank::Lo) => self.lo_bank.write_halfword(a, data),
            Some(Bank::Hi) => self.hi_bank.write_halfword(a, data),
            None => {},
        }
    }

    /// Reads a word for a processor; 0 where it has no bank.
    pub fn read_word(&self, arm9: bool, addr: u32) -> (r: u32)
        requires
            self.wf(),
            addr % 0x4000 + 4 <= BANK_SIZE,
        ensures
            r == match self.reach(arm9, addr) {
                Some(b) => spec_le32(self.bank(b), (addr % 0x4000) as int),
                None => 0,
            },
    {
        let a = addr % 0x4000;
        match self.reach_exec(arm9, addr) {
            Some(Bank::Lo) => self.lo_bank.read_word(a),
            Some(Bank::Hi) => self.hi_bank.read_word(a),
            None => 0,
        }
    }

    /// Writes a word for a processor; nothing where it has no bank.
    pub fn write_word(&mut self, arm9: bool, addr: u32, data: u32)
        requires
            old(self).wf(),
            addr % 0x4000 + 4 <= BANK_SIZE,
        ensures
            final(self).wf(),
            final(self).bank_control == old(self).bank_control,
            final(self).bank_status == old(self).bank_status,
            match old(self).reach(arm9, addr) {
                Some(b) => final(self).bank(b) == spec_write_le32(old(self).bank(b), (addr % 0x4000) as int, data),
                None => true,
            },
            forall|b: Bank| old(self).reach(arm9, addr) != Some(b) ==> #[trigger] final(self).bank(b)
                == old(self).bank(b),
    {
        let a = addr % 0x4000;
        match self.reach_exec(arm9, addr) {
            Some(Bank::Lo) => self.lo_bank.write_word(a, data),
            Some(Bank::Hi) => self.hi_bank.write_word(a, data),
            None => {},
        }
    }
}

/// A write by one processor is never seen by the other: once the bank
/// control has been written with a defined mapping, what the ARM7 reads is
/// unchanged by an ARM9 write, and the other way round.
pub proof fn lemma_write_invisible_to_other(pre: SharedWRAM, post: SharedWRAM, arm9: bool, waddr: u32, raddr: u32)
    requires
        pre.bank_control <= 3,
        pre.bank_status == pre.bank_control,
        post.bank_control == pre.bank_control,
        post.bank_status == pre.bank_status,
        forall|b: Bank| pre.reach(arm9, waddr) != Some(b) ==> #[trigger] post.bank(b) == pre.bank(b),
    ensures
        match pre.reach(!arm9, raddr) {
            Some(b) => post.bank(b) == pre.bank(b),
            None => true,
        },
{
    lemma_banks_exclusive(pre.bank_control, if arm9 { waddr } else { raddr }, if arm9 { raddr } else { waddr });
}

} // verus!
