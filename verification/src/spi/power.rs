//! Power management chip on the serial bus.
use vstd::prelude::*;

verus! {

pub const PM_DS_SYS_POWER: u8 = 1 << 6;
pub const PM_POWER_LED_ENABLE: u8 = 1 << 5;
pub const PM_POWER_LED_BLINK: u8 = 1 << 4;
pub const PM_UPPER_BACKLIGHT: u8 = 1 << 3;
pub const PM_LOW_BACKLIGHT: u8 = 1 << 2;
pub const PM_SOUND_AMP_MUTE: u8 = 1 << 1;
pub const PM_SOUND_AMP_ENABLE: u8 = 1 << 0;
pub const PM_CONTROL_ALL: u8 = 0x7F;

/// Transfer state: after the index byte, a read or a write of that register.
#[derive(Clone, Copy, PartialEq, Eq, Structural)]
pub enum PowerState {
    Idle,
    /// Read from a register.
    Read(u8),
    /// Write to a register.
    Write(u8),
}

pub struct PowerManager {
    pub state: PowerState,
    pub can_read: bool,
    pub control: u8,
    pub mic_amp_enable: bool,
    pub mic_amp_gain: u8,
}

impl PowerManager {
    pub fn new() -> (r: Self)
        ensures
            r.state == PowerState::Idle,
            !r.can_read,
            r.control == 0,
            !r.mic_amp_enable,
            r.mic_amp_gain == 0,
    {
        PowerManager { state: PowerState::Idle, can_read: false, control: 0, mic_amp_enable: false, mic_amp_gain: 0 }
    }

    pub fn deselect(&mut self)
        ensures
            *final(self) == old(self).after_deselect(),
    {
        self.state = PowerState::Idle;
        self.can_read = false;
    }

    /// The value of a register: control, battery (always fine), microphone
    /// amplifier enable and gain.
    pub open spec fn reg(&self, n: u8) -> u8 {
        if n == 0 {
            self.control
        } else if n == 2 {
            if self.mic_amp_enable { 1 } else { 0 }
        } else if n == 3 {
            self.mic_amp_gain
        } else {
            0
        }
    }

    /// The byte a read gives.
    pub open spec fn read_value(&self) -> u8 {
        if self.can_read {
            match self.state {
                PowerState::Read(n) => self.reg(n),
                _ => 0,
            }
        } else {
            0
        }
    }

    /// The state after a read: the value can be read only once.
    pub open spec fn after_read(self) -> Self {
        PowerManager { can_read: false, ..self }
    }

    /// The state after the chip is deselected.
    pub open spec fn after_deselect(self) -> Self {
        PowerManager { state: PowerState::Idle, can_read: false, ..self }
    }

    /// The state after a byte is written.
    pub open spec fn after_write(self, data: u8) -> Self {
        match self.state {
            PowerState::Idle => PowerManager {
                state: if data & 0x80 != 0 { PowerState::Read(data & 0x3) } else { PowerState::Write(data & 0x3) },
                can_read: false,
                ..self
            },
            PowerState::Read(_) => PowerManager { can_read: true, ..self },
            PowerState::Write(n) => if n == 0 {
                PowerManager { control: data & PM_CONTROL_ALL, ..self }
            } else if n == 2 {
                PowerManager { mic_amp_enable: data & 1 != 0, ..self }
            } else if n == 3 {
                PowerManager { mic_amp_gain: data & 0x3, ..self }
            } else {
                self
            },
        }
    }

    /// Read the selected register once, after the transfer byte that follows
    /// a read command.
    pub fn read(&mut self) -> (r: u8)
        ensures
            r == old(self).read_value(),
            *final(self) == old(self).after_read(),
    {
        if self.can_read {
            self.can_read = false;
            match self.state {
                PowerState::Read(n) => {
                    if n == 0 {
                        self.control
                    } else if n == 2 {
                        if self.mic_amp_enable { 1 } else { 0 }
                    } else if n == 3 {
                        self.mic_amp_gain
                    } else {
                        0
                    }
                },
                _ => 0,
            }
        } else {
            0
        }
    }

    /// The first byte selects a register (bit 7: read); for a write the next
    /// byte is the value.
    pub fn write(&mut self, data: u8)
        ensures
            *final(self) == old(self).after_write(data),
    {
        match self.state {
            PowerState::Idle => {
                self.state = if (data & 0x80) != 0 {
                    PowerState::Read(data & 0x3)
                } else {
                    PowerState::Write(data & 0x3)
                };
                self.can_read = false;
            },
            PowerState::Read(_n) => {
                self.can_read = true;
            },
            PowerState::Write(n) => {
                if n == 0 {
                    self.control = data & PM_CONTROL_ALL;
                } else if n == 2 {
                    self.mic_amp_enable = (data & 1) != 0;
                } else if n == 3 {
                    self.mic_amp_gain = data & 0x3;
                }
            },
        }
    }
}

} // verus!
