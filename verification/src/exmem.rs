//! External memory control: which processor owns the game card slots.
//!
//! The access-rights register is one register that both sides read: the
//! ARM9's write to it is at once the ARM7's value, so each side's write
//! takes the other side too.
use vstd::prelude::*;

verus! {

pub const GBA_ACCESS_ALL: u16 = 0x7F;
pub const RIGHTS_MAIN_RAM_PRIO: u16 = 1 << 15;
pub const RIGHTS_MAIN_MEM_SYNC: u16 = 1 << 14;
pub const RIGHTS_NDS_SET: u16 = 1 << 13;
pub const RIGHTS_NDS_CARD: u16 = 1 << 11;
pub const RIGHTS_GBA_CART: u16 = 1 << 7;
pub const RIGHTS_ALL: u16 = 0xE880;

/// ARM9 side of the external memory control register.
pub struct ExMemControl {
    pub gba_access: u16,
    pub access_rights: u16,
}

/// ARM7 side of the external memory control register.
pub struct ExMemStatus {
    pub gba_access: u16,
    pub access_rights: u16,
}

/// The two sides hold the same access rights, as the one register they
/// share.
pub open spec fn shared(arm9: ExMemControl, arm7: ExMemStatus) -> bool {
    arm9.access_rights == arm7.access_rights
}

impl ExMemControl {
    pub fn new() -> (r: (Self, ExMemStatus))
        ensures
            r.0.gba_access == 0 && r.0.access_rights == 0,
            r.1.gba_access == 0 && r.1.access_rights == 0,
            shared(r.0, r.1),
    {
        (ExMemControl { gba_access: 0, access_rights: 0 }, ExMemStatus { gba_access: 0, access_rights: 0 })
    }

    /// The ARM9 has the GBA slot unless it was given to the ARM7.
    pub fn has_gba_access(&self) -> (r: bool)
        ensures
            r == ((self.access_rights & RIGHTS_GBA_CART) == 0),
    {
        (self.access_rights & RIGHTS_GBA_CART) == 0
    }

    /// The ARM9 has the DS card slot unless it was given to the ARM7.
    pub fn has_nds_access(&self) -> (r: bool)
        ensures
            r == ((self.access_rights & RIGHTS_NDS_CARD) == 0),
    {
        (self.access_rights & RIGHTS_NDS_CARD) == 0
    }

    pub fn read_halfword(&self, addr: u32) -> (r: u16)
        ensures
            r == (if addr == 0x0400_0204 {
                self.gba_access | self.access_rights | RIGHTS_NDS_SET
            } else {
                0
            }),
    {
        if addr == 0x0400_0204 {
            self.gba_access | self.access_rights | RIGHTS_NDS_SET
        } else {
            0
        }
    }

    /// Writes the register: the ARM9's timing bits, and the access rights,
    /// which the ARM7 side `status` reads too.
    pub fn write_halfword(&mut self, addr: u32, data: u16, status: &mut ExMemStatus)
        ensures
            addr == 0x0400_0204 ==> final(self).gba_access == data & GBA_ACCESS_ALL
                && final(self).access_rights == data & RIGHTS_ALL
                && final(status).access_rights == data & RIGHTS_ALL
                && final(status).gba_access == old(status).gba_access,
            addr != 0x0400_0204 ==> *final(self) == *old(self) && *final(status) == *old(status),
            shared(*old(self), *old(status)) ==> shared(*final(self), *final(status)),
            (*final(self), *final(status)) == arm9_write(*old(self), *old(status), addr, data),
    {
        if addr == 0x0400_0204 {
            self.gba_access = data & GBA_ACCESS_ALL;
            self.access_rights = data & RIGHTS_ALL;
            status.access_rights = data & RIGHTS_ALL;
        }
    }
}

impl ExMemStatus {
    /// The ARM7 has the GBA slot when it was given to it.
    pub fn has_gba_access(&self) -> (r: bool)
        ensures
            r == ((self.access_rights & RIGHTS_GBA_CART) != 0),
    {
        (self.access_rights & RIGHTS_GBA_CART) != 0
    }

    /// The ARM7 has the DS card slot when it was given to it.
    pub fn has_nds_access(&self) -> (r: bool)
        ensures
            r == ((self.access_rights & RIGHTS_NDS_CARD) != 0),
    {
        (self.access_rights & RIGHTS_NDS_CARD) != 0
    }

    pub fn read_halfword(&self, addr: u32) -> (r: u16)
        ensures
            r == (if addr == 0x0400_0204 { self.gba_access | self.access_rights } else { 0 }),
    {
        if addr == 0x0400_0204 {
            self.gba_access | self.access_rights
        } else {
            0
        }
    }

    /// Only the ARM7's own timing bits are writable from its side; the
    /// shared access rights stay.
    pub fn write_halfword(&mut self, addr: u32, data: u16)
        ensures
            addr == 0x0400_0204 ==> final(self).gba_access == data & GBA_ACCESS_ALL
                && final(self).access_rights == old(self).access_rights,
            addr != 0x0400_0204 ==> *final(self) == *old(self),
    {
        if addr == 0x0400_0204 {
            self.gba_access = data & GBA_ACCESS_ALL;
        }
    }
}

/// Both sides of the register after an ARM9 write.
pub open spec fn arm9_write(c: ExMemControl, s: ExMemStatus, addr: u32, data: u16) -> (ExMemControl, ExMemStatus) {
    if addr == 0x0400_0204 {
        (
            ExMemControl { gba_access: data & GBA_ACCESS_ALL, access_rights: data & RIGHTS_ALL },
            ExMemStatus { access_rights: data & RIGHTS_ALL, ..s },
        )
    } else {
        (c, s)
    }
}

/// Both sides after the ARM9 writes `ws` (address, value) in turn.
pub open spec fn after_arm9_writes(c: ExMemControl, s: ExMemStatus, ws: Seq<(u32, u16)>) -> (ExMemControl, ExMemStatus)
    decreases ws.len(),
{
    if ws.len() == 0 {
        (c, s)
    } else {
        let (c1, s1) = after_arm9_writes(c, s, ws.drop_last());
        arm9_write(c1, s1, ws.last().0, ws.last().1)
    }
}

/// The access rights the last write to the register in `ws` set: none
/// before any.
pub open spec fn last_rights(ws: Seq<(u32, u16)>) -> u16
    decreases ws.len(),
{
    if ws.len() == 0 {
        0
    } else if ws.last().0 == 0x0400_0204 {
        ws.last().1 & RIGHTS_ALL
    } else {
        last_rights(ws.drop_last())
    }
}

/// From the register as it starts, after any sequence of ARM9 writes both
/// sides hold the rights of the last write to it (none before any): the
/// ARM9 has a slot exactly when the ARM7 has not, and it has the GBA slot
/// just when that write's bit 7 is clear, the DS card slot just when its
/// bit 11 is clear.
pub proof fn lemma_rights_after_writes(ws: Seq<(u32, u16)>)
    ensures
        ({
            let (c, s) = after_arm9_writes(
                ExMemControl { gba_access: 0, access_rights: 0 },
                ExMemStatus { gba_access: 0, access_rights: 0 },
                ws,
            );
            &&& shared(c, s)
            &&& c.access_rights == last_rights(ws)
            &&& ((c.access_rights & RIGHTS_GBA_CART) == 0) == !((s.access_rights & RIGHTS_GBA_CART) != 0)
            &&& ((c.access_rights & RIGHTS_NDS_CARD) == 0) == !((s.access_rights & RIGHTS_NDS_CARD) != 0)
        }),
    decreases ws.len(),
{
    if ws.len() > 0 {
        lemma_rights_after_writes(ws.drop_last());
    }
}

/// The rights a write sets give the slots: the ARM9 keeps the GBA slot
/// unless bit 7 is set, the DS card slot unless bit 11 is set.
pub proof fn lemma_rights_of_write(data: u16)
    ensures
        ((data & RIGHTS_ALL) & RIGHTS_GBA_CART == 0) == (data & 0x80 == 0),
        ((data & RIGHTS_ALL) & RIGHTS_NDS_CARD == 0) == (data & 0x800 == 0),
        (0u16 & RIGHTS_GBA_CART) == 0 && (0u16 & RIGHTS_NDS_CARD) == 0,
{
    assert(((data & RIGHTS_ALL) & RIGHTS_GBA_CART == 0) == (data & 0x80 == 0) && ((data & RIGHTS_ALL)
        & RIGHTS_NDS_CARD == 0) == (data & 0x800 == 0) && (0u16 & RIGHTS_GBA_CART) == 0 && (0u16 & RIGHTS_NDS_CARD)
        == 0) by (bit_vector);
}

/// Exactly one processor has each card slot at any time: while the two
/// sides share the register, the ARM9 has a slot just when the ARM7 has not.
pub proof fn lemma_slot_owned_once(arm9: ExMemControl, arm7: ExMemStatus)
    requires
        shared(arm9, arm7),
    ensures
        ((arm9.access_rights & RIGHTS_GBA_CART) == 0) == !((arm7.access_rights & RIGHTS_GBA_CART) != 0),
        ((arm9.access_rights & RIGHTS_NDS_CARD) == 0) == !((arm7.access_rights & RIGHTS_NDS_CARD) != 0),
{
}

} // verus!
