//! Touchscreen controller on the serial bus.
use vstd::prelude::*;

verus! {

pub const TSC_START: u8 = 1 << 7;
pub const TSC_CHANNEL_SEL: u8 = 0x70;
pub const TSC_CONV_MODE: u8 = 1 << 3;
pub const TSC_REF_SELECT: u8 = 1 << 2;
pub const TSC_POWER_MODE: u8 = 0x3;

/// The converter channel being read.
#[derive(Clone, Copy, PartialEq, Eq, Structural)]
pub enum Channel {
    Idle,
    Temp0,
    TouchscreenY,
    Battery,
    TouchscreenZ1,
    TouchscreenZ2,
    TouchscreenX,
    AUX,
    Temp1,
}

pub const X_RELEASED: u16 = 0x000;
pub const Y_RELEASED: u16 = 0xFFF;

/// The channel a control byte selects.
pub open spec fn channel_of(control: u8) -> Channel {
    let sel = (control / 0x10) % 8;
    if sel == 0 {
        Channel::Temp0
    } else if sel == 1 {
        Channel::TouchscreenY
    } else if sel == 2 {
        Channel::Battery
    } else if sel == 3 {
        Channel::TouchscreenZ1
    } else if sel == 4 {
        Channel::TouchscreenZ2
    } else if sel == 5 {
        Channel::TouchscreenX
    } else if sel == 6 {
        Channel::AUX
    } else {
        Channel::Temp1
    }
}

/// Low part of a 12-bit value as sent first: its low five bits, shifted up.
pub open spec fn low_part(value: u16) -> u8 {
    ((value % 0x20) * 8) as u8
}

/// High part of a 12-bit value as sent second.
pub open spec fn high_part(value: u16) -> u8 {
    ((value / 0x20) % 0x100) as u8
}

pub struct Touchscreen {
    pub control: u8,
    pub channel: Channel,
    pub can_read: bool,
    /// Each 12-bit value takes two byte reads; this selects the first.
    pub read_lo: bool,
    pub x: u16,
    pub y: u16,
    pub aux: u16,
}

impl Touchscreen {
    pub fn new() -> (r: Self)
        ensures
            r.control == 0,
            r.channel == Channel::Temp0,
            !r.can_read,
            r.read_lo,
            r.x == X_RELEASED && r.y == Y_RELEASED && r.aux == 0,
    {
        Touchscreen {
            control: 0,
            channel: Channel::Temp0,
            can_read: false,
            read_lo: true,
            x: X_RELEASED,
            y: Y_RELEASED,
            aux: 0,
        }
    }

    /// Set the touch position in converter units, or release.
    pub fn write_tsc_coords(&mut self, coords: Option<(u16, u16)>)
        ensures
            *final(self) == (match coords {
                Some((x, y)) => Touchscreen { x, y, ..*old(self) },
                None => Touchscreen { x: X_RELEASED, y: Y_RELEASED, ..*old(self) },
            }),
    {
        match coords {
            Some((x, y)) => {
                self.x = x;
                self.y = y;
            },
            None => {
                self.x = X_RELEASED;
                self.y = Y_RELEASED;
            },
        }
    }

    /// Write values from microphone input.
    pub fn write_aux_value(&mut self, aux: u16)
        ensures
            *final(self) == (Touchscreen { aux, ..*old(self) }),
    {
        self.aux = aux;
    }

    pub fn deselect(&mut self)
        ensures
            *final(self) == old(self).after_deselect(),
    {
        self.channel = Channel::Idle;
        self.can_read = false;
    }

    /// Read the upper or lower section of a 12-bit value.
    fn read_12bit(&mut self, value: u16) -> (r: u8)
        ensures
            old(self).read_lo ==> r == low_part(value) && *final(self) == (Touchscreen { read_lo: false, ..*old(self) }),
            !old(self).read_lo ==> r == high_part(value) && *final(self) == *old(self),
    {
        if self.read_lo {
            self.read_lo = false;
            ((value % 0x20) * 8) as u8
        } else {
            ((value / 0x20) % 0x100) as u8
        }
    }

    /// The value a channel converts.
    pub open spec fn channel_value(&self, c: Channel) -> Option<u16> {
        match c {
            Channel::TouchscreenY => Some(self.y),
            Channel::TouchscreenX => Some(self.x),
            Channel::AUX => Some(self.aux),
            _ => None,
        }
    }

    /// The byte a read gives: the low part of the selected channel's value
    /// first, then its high part; other channels read zero.
    pub open spec fn read_value(&self) -> u8 {
        if self.can_read {
            match self.channel_value(self.channel) {
                Some(v) => if self.read_lo { low_part(v) } else { high_part(v) },
                None => 0,
            }
        } else {
            0
        }
    }

    /// The state after a read: once the low part is read, the high part follows.
    pub open spec fn after_read(self) -> Self {
        if self.can_read && self.channel_value(self.channel) is Some && self.read_lo {
            Touchscreen { read_lo: false, ..self }
        } else {
            self
        }
    }

    /// The state after the chip is deselected.
    pub open spec fn after_deselect(self) -> Self {
        Touchscreen { channel: Channel::Idle, can_read: false, ..self }
    }

    /// The state after a byte is written.
    pub open spec fn after_write(self, data: u8) -> Self {
        if data & TSC_START != 0 {
            Touchscreen { control: data, channel: channel_of(data), read_lo: true, can_read: true, ..self }
        } else {
            Touchscreen { can_read: true, ..self }
        }
    }

    /// Read part of the selected channel's value; other channels read zero.
    pub fn read(&mut self) -> (r: u8)
        ensures
            r == old(self).read_value(),
            *final(self) == old(self).after_read(),
    {
        if self.can_read {
            match self.channel {
                Channel::TouchscreenY => {
                    let v = self.y;
                    self.read_12bit(v)
                },
                Channel::TouchscreenX => {
                    let v = self.x;
                    self.read_12bit(v)
                },
                Channel::AUX => {
                    let v = self.aux;
                    self.read_12bit(v)
                },
                _ => 0,
            }
        } else {
            0
        }
    }

    /// A control byte with the start bit selects a channel; any byte allows a read.
    pub fn write(&mut self, data: u8)
        ensures
            *final(self) == old(self).after_write(data),
    {
        if (data & TSC_START) != 0 {
            self.control = data;
            let sel = (data / 0x10) % 8;
            self.channel = if sel == 0 {
                Channel::Temp0
            } else if sel == 1 {
                Channel::TouchscreenY
            } else if sel == 2 {
                Channel::Battery
            } else if sel == 3 {
                Channel::TouchscreenZ1
            } else if sel == 4 {
                Channel::TouchscreenZ2
            } else if sel == 5 {
                Channel::TouchscreenX
            } else if sel == 6 {
                Channel::AUX
            } else {
                Channel::Temp1
            };
            self.read_lo = true;
        }
        self.can_read = true;
    }
}

} // verus!
