//! DS button extensions, and the mapping from user buttons to key registers.
use vstd::prelude::*;

verus! {

pub const DS_HINGE_DOWN: u16 = 1 << 7;
pub const DS_PEN_DOWN: u16 = 1 << 6;
pub const DS_DEBUG: u16 = 1 << 3;
pub const DS_Y: u16 = 1 << 1;
pub const DS_X: u16 = 1 << 0;
/// Every defined extension button bit.
pub const DS_ALL: u16 = 0xCB;

/// Extension key register (X, Y, debug, pen, hinge). A set bit means released.
#[derive(Clone, Copy, PartialEq, Eq, Structural)]
pub struct DSButtons {
    pub bits: u16,
}

impl DSButtons {
    pub fn from_bits_truncate(bits: u16) -> (r: Self)
        ensures
            r.bits == bits & DS_ALL,
    {
        DSButtons { bits: bits & DS_ALL }
    }

    pub fn bits(&self) -> (r: u16)
        ensures
            r == self.bits,
    {
        self.bits
    }

    /// Set or clear the given bits.
    pub fn set(&mut self, flags: u16, value: bool)
        ensures
            final(self).bits == (if value { old(self).bits | flags } else { old(self).bits & !flags }),
    {
        if value {
            self.bits = self.bits | flags;
        } else {
            self.bits = self.bits & !flags;
        }
    }
}

/// DS extension keys: RCNT and the extension key input register.
pub struct DSJoypad {
    pub rcnt: u16,
    pub buttons_pressed: DSButtons,
}

pub open spec fn joypad_addr(addr: u32) -> bool {
    addr == 0x0400_0134 || addr == 0x0400_0136
}

impl DSJoypad {
    pub fn new() -> (r: Self)
        ensures
            r.rcnt == 0,
            r.buttons_pressed.bits == 0x4B,
    {
        let b = DSButtons::from_bits_truncate(0x4B);
        assert(0x4Bu16 & 0xCBu16 == 0x4Bu16) by (bit_vector);
        DSJoypad { rcnt: 0, buttons_pressed: b }
    }

    pub fn set_all_buttons(&mut self, buttons: DSButtons)
        ensures
            final(self).buttons_pressed == buttons,
            final(self).rcnt == old(self).rcnt,
    {
        self.buttons_pressed = buttons;
    }

    pub fn read_halfword(&self, addr: u32) -> (r: u16)
        requires
            joypad_addr(addr),
        ensures
            addr == 0x0400_0134 ==> r == self.rcnt,
            addr == 0x0400_0136 ==> r == self.buttons_pressed.bits,
    {
        if addr == 0x0400_0134 {
            self.rcnt
        } else {
            self.buttons_pressed.bits
        }
    }

    /// Only RCNT is writable; the key register is set with `set_all_buttons`.
    pub fn write_halfword(&mut self, addr: u32, data: u16)
        requires
            joypad_addr(addr),
        ensures
            final(self).rcnt == (if addr == 0x0400_0134 { data } else { old(self).rcnt }),
            final(self).buttons_pressed == old(self).buttons_pressed,
    {
        if addr == 0x0400_0134 {
            self.rcnt = data;
        }
    }
}

/// A button on the console.
#[derive(Clone, Copy, PartialEq, Eq, Structural)]
pub enum Button {
    A,
    B,
    X,
    Y,
    Start,
    Select,
    Left,
    Right,
    Up,
    Down,
    L,
    R,
}

pub const KEY_A: u16 = 1 << 0;
pub const KEY_B: u16 = 1 << 1;
pub const KEY_SELECT: u16 = 1 << 2;
pub const KEY_START: u16 = 1 << 3;
pub const KEY_RIGHT: u16 = 1 << 4;
pub const KEY_LEFT: u16 = 1 << 5;
pub const KEY_UP: u16 = 1 << 6;
pub const KEY_DOWN: u16 = 1 << 7;
pub const KEY_R: u16 = 1 << 8;
pub const KEY_L: u16 = 1 << 9;

/// Which key register holds a button (`true`: the extension register),
/// and its bit there.
pub open spec fn button_bit(button: Button) -> (bool, u16) {
    match button {
        Button::A => (false, KEY_A),
        Button::B => (false, KEY_B),
        Button::X => (true, DS_X),
        Button::Y => (true, DS_Y),
        Button::Start => (false, KEY_START),
        Button::Select => (false, KEY_SELECT),
        Button::Left => (false, KEY_LEFT),
        Button::Right => (false, KEY_RIGHT),
        Button::Up => (false, KEY_UP),
        Button::Down => (false, KEY_DOWN),
        Button::L => (false, KEY_L),
        Button::R => (false, KEY_R),
    }
}

/// The button half of the user input: the key register and the extension
/// key register, active low.
pub struct InputButtons {
    pub buttons: u16,
    pub ds_buttons: DSButtons,
}

impl InputButtons {
    /// All buttons released, pen up, hinge open.
    pub fn new() -> (r: Self)
        ensures
            r.buttons == 0xFFFF,
            r.ds_buttons.bits == 0x4B,
    {
        let b = DSButtons::from_bits_truncate(0x4B);
        assert(0x4Bu16 & 0xCBu16 == 0x4Bu16) by (bit_vector);
        InputButtons { buttons: 0xFFFF, ds_buttons: b }
    }

    /// Press or release a button: its bit is cleared while pressed.
    pub fn set_button(&mut self, button: Button, pressed: bool)
        ensures
            ({
                let (ext, bit) = button_bit(button);
                if ext {
                    &&& final(self).buttons == old(self).buttons
                    &&& final(self).ds_buttons.bits == (if !pressed {
                        old(self).ds_buttons.bits | bit
                    } else {
                        old(self).ds_buttons.bits & !bit
                    })
                } else {
                    &&& final(self).ds_buttons == old(self).ds_buttons
                    &&& final(self).buttons == (if !pressed {
                        old(self).buttons | bit
                    } else {
                        old(self).buttons & !bit
                    })
                }
            }),
    {
        let bit: u16 = match button {
            Button::A => KEY_A,
            Button::B => KEY_B,
            Button::X => DS_X,
            Button::Y => DS_Y,
            Button::Start => KEY_START,
            Button::Select => KEY_SELECT,
            Button::Left => KEY_LEFT,
            Button::Right => KEY_RIGHT,
            Button::Up => KEY_UP,
            Button::Down => KEY_DOWN,
            Button::L => KEY_L,
            Button::R => KEY_R,
        };
        let ext = match button {
            Button::X | Button::Y => true,
            _ => false,
        };
        if ext {
            self.ds_buttons.set(bit, !pressed);
        } else if !pressed {
            self.buttons = self.buttons | bit;
        } else {
            self.buttons = self.buttons & !bit;
        }
    }

    /// The pen-down bit is cleared while the touchscreen is pressed.
    pub fn set_pen(&mut self, touching: bool)
        ensures
            final(self).buttons == old(self).buttons,
            final(self).ds_buttons.bits == (if !touching {
                old(self).ds_buttons.bits | DS_PEN_DOWN
            } else {
                old(self).ds_buttons.bits & !DS_PEN_DOWN
            }),
    {
        self.ds_buttons.set(DS_PEN_DOWN, !touching);
    }
}

} // verus!
