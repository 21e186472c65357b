//! Power control registers of the two processors.
use vstd::prelude::*;
use crate::bits::{spec_lo8, spec_hi8, lo8, hi8, set_lo8, set_hi8, spec_make16};

verus! {

pub const POWER_WIFI: u8 = 1 << 1;
pub const POWER_SOUND: u8 = 1 << 0;

/// ARM9 power control register.
/// Holds the post-boot flag, which is set once the BIOS boot procedure is done.
pub struct DS9PowerControl {
    pub post_boot_flag: u8,
}

impl DS9PowerControl {
    pub fn new(fast_boot: bool) -> (r: Self)
        ensures
            r.post_boot_flag == (if fast_boot { 1u8 } else { 0u8 }),
    {
        DS9PowerControl { post_boot_flag: if fast_boot { 1 } else { 0 } }
    }

    pub fn read_byte(&self, addr: u32) -> (r: u8)
        ensures
            r == (if addr == 0x0400_0300 { self.post_boot_flag } else { 0 }),
    {
        if addr == 0x0400_0300 {
            self.post_boot_flag
        } else {
            0
        }
    }

    pub fn write_byte(&mut self, addr: u32, data: u8)
        ensures
            final(self).post_boot_flag == (if addr == 0x0400_0300 {
                data & 1
            } else {
                old(self).post_boot_flag
            }),
    {
        if addr == 0x0400_0300 {
            self.post_boot_flag = data & 1;
        }
    }
}

/// ARM7 internal registers used by the BIOS.
pub struct DS7PowerControl {
    pub post_boot_flag: u8,
    pub halt: bool,
    pub sleep: bool,
    pub sound_wifi_control: u8,
    pub bios_prot: u16,
}

impl DS7PowerControl {
    pub fn new(fast_boot: bool) -> (r: Self)
        ensures
            r.post_boot_flag == (if fast_boot { 1u8 } else { 0u8 }),
            !r.halt,
            !r.sleep,
            r.sound_wifi_control == 0,
            r.bios_prot == 0,
    {
        DS7PowerControl {
            post_boot_flag: if fast_boot { 1 } else { 0 },
            halt: false,
            sleep: false,
            sound_wifi_control: 0,
            bios_prot: 0,
        }
    }

    pub fn read_byte(&self, addr: u32) -> (r: u8)
        ensures
            r == (if addr == 0x0400_0300 {
                self.post_boot_flag
            } else if addr == 0x0400_0301 {
                if self.sleep {
                    0xC0u8
                } else if self.halt {
                    0x80u8
                } else {
                    0u8
                }
            } else if addr == 0x0400_0304 {
                self.sound_wifi_control
            } else if addr == 0x0400_0308 {
                spec_lo8(self.bios_prot)
            } else if addr == 0x0400_0309 {
                spec_hi8(self.bios_prot)
            } else {
                0u8
            }),
    {
        if addr == 0x0400_0300 {
            self.post_boot_flag
        } else if addr == 0x0400_0301 {
            if self.sleep {
                0xC0
            } else if self.halt {
                0x80
            } else {
                0
            }
        } else if addr == 0x0400_0304 {
            self.sound_wifi_control
        } else if addr == 0x0400_0308 {
            lo8(self.bios_prot)
        } else if addr == 0x0400_0309 {
            hi8(self.bios_prot)
        } else {
            0
        }
    }

    pub fn write_byte(&mut self, addr: u32, data: u8)
        ensures
            addr == 0x0400_0300 ==> *final(self) == (DS7PowerControl {
                post_boot_flag: data & 1,
                ..*old(self)
            }),
            addr == 0x0400_0301 ==> *final(self) == (DS7PowerControl {
                sleep: old(self).sleep || (data & 0xC0) == 0xC0,
                halt: old(self).halt || (data & 0xC0) == 0x80,
                ..*old(self)
            }),
            addr == 0x0400_0304 ==> *final(self) == (DS7PowerControl {
                sound_wifi_control: data & 0x3,
                ..*old(self)
            }),
            addr == 0x0400_0308 ==> *final(self) == (DS7PowerControl {
                bios_prot: spec_make16(spec_hi8(old(self).bios_prot), data),
                ..*old(self)
            }),
            addr == 0x0400_0309 ==> *final(self) == (DS7PowerControl {
                bios_prot: spec_make16(data, spec_lo8(old(self).bios_prot)),
                ..*old(self)
            }),
            addr != 0x0400_0300 && addr != 0x0400_0301 && addr != 0x0400_0304 && addr
                != 0x0400_0308 && addr != 0x0400_0309 ==> *final(self) == *old(self),
    {
        if addr == 0x0400_0300 {
            self.post_boot_flag = data & 1;
        } else if addr == 0x0400_0301 {
            if (data & 0x80) != 0 {
                if (data & 0x40) != 0 {
                    self.sleep = true;
                } else {
                    self.halt = true;
                }
            }
            assert(((data & 0x80) != 0 && (data & 0x40) != 0) == ((data & 0xC0) == 0xC0)
                && ((data & 0x80) != 0 && (data & 0x40) == 0) == ((data & 0xC0) == 0x80))
                by (bit_vector);
        } else if addr == 0x0400_0304 {
            self.sound_wifi_control = data & 0x3;
        } else if addr == 0x0400_0308 {
            self.bios_prot = set_lo8(self.bios_prot, data);
        } else if addr == 0x0400_0309 {
            self.bios_prot = set_hi8(self.bios_prot, data);
        }
    }
}

} // verus!
