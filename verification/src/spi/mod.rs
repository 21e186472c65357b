//! Serial peripheral interface: power manager, firmware and touchscreen.
pub mod firmware;
pub mod power;
pub mod touchscreen;

use vstd::prelude::*;
use crate::bits::{lo8, spec_lo8};
use firmware::{Firmware, Instruction};
use power::PowerManager;
use touchscreen::Touchscreen;

verus! {

pub const SPI_ENABLE: u16 = 1 << 15;
pub const SPI_INT_REQ: u16 = 1 << 14;
pub const SPI_CHIP_HOLD: u16 = 1 << 11;
pub const SPI_TRANSFER_SIZE: u16 = 1 << 10;
pub const SPI_DEVICE: u16 = 0x300;
pub const SPI_BUSY: u16 = 1 << 7;
pub const SPI_BAUDRATE: u16 = 0x3;
pub const SPI_CONTROL_ALL: u16 = 0xCF83;

/// The device a control value selects (3 is reserved).
pub open spec fn device_of(control: u16) -> u16 {
    (control / 0x100) % 4
}

/// The serial bus and its three devices.
pub struct SPI {
    pub control: u16,
    pub power_man: PowerManager,
    pub firmware: Firmware,
    pub touchscreen: Touchscreen,
}

impl SPI {
    pub open spec fn wf(&self) -> bool {
        self.firmware.wf()
    }

    pub fn new(firmware: Firmware) -> (r: Self)
        requires
            firmware.wf(),
        ensures
            r.wf(),
            r.control == 0,
            r.firmware == firmware,
    {
        SPI { control: 0, power_man: PowerManager::new(), firmware, touchscreen: Touchscreen::new() }
    }

    /// Offset 0 is the control register, offset 2 the data register.
    pub fn read_halfword(&mut self, addr: u32) -> (r: u16)
        requires
            old(self).wf(),
            addr == 0 || addr == 2,
        ensures
            final(self).wf(),
            addr == 0 ==> r == old(self).control && *final(self) == *old(self),
            addr == 2 ==> final(self).control == old(self).control,
            addr == 2 && device_of(old(self).control) == 0 ==> ({
                let pm = old(self).power_man.after_read();
                &&& r == old(self).power_man.read_value() as u16
                &&& final(self).power_man == (if old(self).control & SPI_CHIP_HOLD != 0 { pm } else { pm.after_deselect() })
                &&& final(self).firmware == old(self).firmware
                &&& final(self).touchscreen == old(self).touchscreen
            }),
            addr == 2 && device_of(old(self).control) == 1 ==> ({
                &&& r == old(self).firmware.read_buffer as u16
                &&& final(self).firmware.data == old(self).firmware.data
                &&& final(self).firmware.read_buffer == old(self).firmware.read_buffer
                &&& final(self).firmware.can_write == old(self).firmware.can_write
                &&& old(self).control & SPI_CHIP_HOLD != 0 ==> final(self).firmware == old(self).firmware
                &&& old(self).control & SPI_CHIP_HOLD == 0 ==> final(self).firmware.instr == Instruction::Idle
                    && final(self).firmware.addr == 0
                &&& final(self).power_man == old(self).power_man
                &&& final(self).touchscreen == old(self).touchscreen
            }),
            addr == 2 && device_of(old(self).control) == 2 ==> ({
                let ts = old(self).touchscreen.after_read();
                &&& r == old(self).touchscreen.read_value() as u16
                &&& final(self).touchscreen == (if old(self).control & SPI_CHIP_HOLD != 0 { ts } else { ts.after_deselect() })
                &&& final(self).firmware == old(self).firmware
                &&& final(self).power_man == old(self).power_man
            }),
            addr == 2 && device_of(old(self).control) == 3 ==> r == 0 && *final(self) == *old(self),
    {
        if addr == 0 {
            self.control
        } else {
            let device = (self.control / 0x100) % 4;
            let hold = (self.control & SPI_CHIP_HOLD) != 0;
            if device == 0 {
                let data = self.power_man.read();
                if !hold {
                    self.power_man.deselect();
                }
                data as u16
            } else if device == 1 {
                let data = self.firmware.read();
                if !hold {
                    self.firmware.deselect();
                }
                data as u16
            } else if device == 2 {
                let data = self.touchscreen.read();
                if !hold {
                    self.touchscreen.deselect();
                }
                data as u16
            } else {
                0
            }
        }
    }

    pub fn read_word(&self, addr: u32) -> (r: u32)
        requires
            addr == 0,
        ensures
            r == self.control as u32,
    {
        self.control as u32
    }

    /// Inputs the selected device can take.
    pub open spec fn write_ok(&self, addr: u32, data: u16) -> bool {
        &&& addr == 0 || addr == 2
        &&& addr == 2 && device_of(self.control) == 1 ==> self.firmware.write_ok(spec_lo8(data))
    }

    pub fn write_halfword(&mut self, addr: u32, data: u16)
        requires
            old(self).wf(),
            old(self).write_ok(addr, data),
        ensures
            final(self).wf(),
            addr == 0 ==> *final(self) == (SPI { control: data & SPI_CONTROL_ALL, ..*old(self) }),
            addr == 2 ==> final(self).control == old(self).control,
            addr == 2 && device_of(old(self).control) == 0 ==> final(self).power_man == old(self).power_man.after_write(spec_lo8(data))
                && final(self).firmware == old(self).firmware && final(self).touchscreen == old(self).touchscreen,
            addr == 2 && device_of(old(self).control) == 1 ==> Firmware::written(&final(self).firmware, &old(self).firmware, spec_lo8(data))
                && final(self).power_man == old(self).power_man && final(self).touchscreen == old(self).touchscreen,
            addr == 2 && device_of(old(self).control) == 2 ==> final(self).touchscreen == old(self).touchscreen.after_write(spec_lo8(data))
                && final(self).firmware == old(self).firmware && final(self).power_man == old(self).power_man,
            addr == 2 && device_of(old(self).control) == 3 ==> *final(self) == *old(self),
    {
        if addr == 0 {
            self.control = data & SPI_CONTROL_ALL;
        } else {
            let device = (self.control / 0x100) % 4;
            let byte = lo8(data);
            if device == 0 {
                self.power_man.write(byte);
            } else if device == 1 {
                self.firmware.write(byte);
            } else if device == 2 {
                self.touchscreen.write(byte);
            }
        }
    }
}

} // verus!
