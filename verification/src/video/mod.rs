//! Video: the display status seen by the ARM7, VRAM mapping and the 3D
//! engine's command FIFO and polygon types.
pub mod memory;
pub mod video3d;

use vstd::prelude::*;
use crate::interrupt::Interrupts;

verus! {

/// Signal from the video unit.
#[derive(Clone, Copy, PartialEq, Eq, Structural)]
pub enum Signal {
    Nothing,
    HBlank,
    VBlank,
}

/// Display status: the line to compare with, bits 0 to 7.
pub const LCD_VCOUNT: u16 = 0xFF00;
/// Display status: bit 8 of the line to compare with.
pub const LCD_VCOUNT_HI: u16 = 0x0080;
/// Display status: interrupt on a line match.
pub const LCD_VCOUNT_IRQ: u16 = 0x0020;
/// Display status: interrupt on H-blank.
pub const LCD_HBLANK_IRQ: u16 = 0x0010;
/// Display status: interrupt on V-blank.
pub const LCD_VBLANK_IRQ: u16 = 0x0008;
/// Display status: the current line matches.
pub const LCD_VCOUNT_FLAG: u16 = 0x0004;
/// Display status: in H-blank.
pub const LCD_HBLANK_FLAG: u16 = 0x0002;
/// Display status: in V-blank.
pub const LCD_VBLANK_FLAG: u16 = 0x0001;

/// The 9-bit line number that a display status word compares with.
pub open spec fn spec_lcd_v_count(status: u16) -> u16 {
    (status / 0x100 + ((status / 0x80) % 2) * 0x100) as u16
}

pub fn lcd_v_count(status: u16) -> (r: u16)
    ensures
        r == spec_lcd_v_count(status),
{
    status / 0x100 + ((status / 0x80) % 2) * 0x100
}

/// A display status written by the CPU: its writable bits, with the three
/// read-only flags kept from before.
pub open spec fn spec_set_lcd_status(old_status: u16, data: u16) -> u16 {
    (data & 0xFFF8) | (old_status & 0x0007)
}

/// Display status and line counter, as the ARM7 sees them.
pub struct ARM7Video {
    pub v_count: u16,
    pub lcd_status: u16,
}

impl ARM7Video {
    pub fn new() -> (r: Self)
        ensures
            r.v_count == 0,
            r.lcd_status == 0,
    {
        ARM7Video { v_count: 0, lcd_status: 0 }
    }

    /// The V-blank interrupt is enabled.
    pub fn v_blank_enabled(&self) -> (r: bool)
        ensures
            r == (self.lcd_status & LCD_VBLANK_IRQ != 0),
    {
        self.lcd_status & LCD_VBLANK_IRQ != 0
    }

    /// The line-match interrupt is enabled and the current line matches.
    pub fn v_count_irq(&self) -> (r: bool)
        ensures
            r == (self.lcd_status & LCD_VCOUNT_IRQ != 0 && spec_lcd_v_count(self.lcd_status) == self.v_count),
    {
        self.lcd_status & LCD_VCOUNT_IRQ != 0 && lcd_v_count(self.lcd_status) == self.v_count
    }

    /// Reads the display status (0x0400_0004) or the line counter
    /// (0x0400_0006).
    pub fn read_halfword(&self, addr: u32) -> (r: u16)
        requires
            addr == 0x0400_0004 || addr == 0x0400_0006,
        ensures
            r == (if addr == 0x0400_0004 { self.lcd_status } else { self.v_count }),
    {
        if addr == 0x0400_0004 {
            self.lcd_status
        } else {
            self.v_count
        }
    }

    /// Writes the display status or the line counter.
    pub fn write_halfword(&mut self, addr: u32, data: u16)
        requires
            addr == 0x0400_0004 || addr == 0x0400_0006,
        ensures
            addr == 0x0400_0004 ==> final(self).lcd_status == spec_set_lcd_status(old(self).lcd_status, data)
                && final(self).v_count == old(self).v_count,
            addr == 0x0400_0006 ==> final(self).v_count == data && final(self).lcd_status == old(
                self,
            ).lcd_status,
    {
        if addr == 0x0400_0004 {
            self.set_lcd_status(data);
        } else {
            self.v_count = data;
        }
    }

    fn set_lcd_status(&mut self, data: u16)
        ensures
            final(self).lcd_status == spec_set_lcd_status(old(self).lcd_status, data),
            final(self).v_count == old(self).v_count,
    {
        // The V-blank, H-blank and line-match flags.
        let old_flags = self.lcd_status & 0x0007;
        self.lcd_status = (data & 0xFFF8) | old_flags;
    }
}


/// Cycles of drawing a line before H-blank: 256 dots of 6 cycles, and 70.
pub const H_CYCLES: usize = 256 * 6 + 70;
/// Cycles of H-blank: 99 dots of 6 cycles, less 70.
pub const H_BLANK_CYCLES: usize = 99 * 6 - 70;
/// The last line drawn before V-blank.
pub const V_MAX: u16 = 191;
/// The last line of V-blank before a new frame.
pub const VBLANK_MAX: u16 = 262;

/// Where the display is in a frame.
#[derive(Clone, Copy, PartialEq, Eq, Structural)]
pub enum VideoState {
    Init,
    Drawing,
    HBlank,
    VBlank,
    VHBlank,
}

/// Work for the renderer that a step of the display asks for.
#[derive(Clone, Copy, PartialEq, Eq, Structural)]
pub enum RenderAction {
    Nothing,
    /// Start a frame and draw line 0.
    StartFrame,
    /// Draw this line.
    RenderLine(u16),
    /// Finish the frame, and let the 3D engine know of V-blank.
    FinishFrame,
    /// Render the 3D image for the next frame.
    Render3D,
}

/// The display's timing: its state in the frame, the cycles into that
/// state, the line counter and the display status.
pub struct DisplayTiming {
    pub state: VideoState,
    pub cycle_count: usize,
    pub v_count: u16,
    pub lcd_status: u16,
}

/// The display status with the line-match flag set as the line matches.
pub open spec fn with_vcount_flag(status: u16, v_count: u16) -> u16 {
    if v_count == spec_lcd_v_count(status) {
        status | LCD_VCOUNT_FLAG
    } else {
        status & !LCD_VCOUNT_FLAG
    }
}

/// The line-match interrupt, if enabled and the flag is set.
pub open spec fn vcount_irq(status: u16) -> u32 {
    if status & (LCD_VCOUNT_IRQ | LCD_VCOUNT_FLAG) == (LCD_VCOUNT_IRQ | LCD_VCOUNT_FLAG) {
        crate::interrupt::INT_V_COUNTER
    } else {
        0
    }
}

/// The H-blank interrupt, if enabled and the flag is set.
pub open spec fn hblank_irq(status: u16) -> u32 {
    if status & (LCD_HBLANK_IRQ | LCD_HBLANK_FLAG) == (LCD_HBLANK_IRQ | LCD_HBLANK_FLAG) {
        crate::interrupt::INT_H_BLANK
    } else {
        0
    }
}

/// The V-blank interrupt, if enabled and the flag is set.
pub open spec fn vblank_irq(status: u16) -> u32 {
    if status & (LCD_VBLANK_IRQ | LCD_VBLANK_FLAG) == (LCD_VBLANK_IRQ | LCD_VBLANK_FLAG) {
        crate::interrupt::INT_V_BLANK
    } else {
        0
    }
}

/// A line counter one line on.
pub open spec fn next_line(v: u16) -> u16 {
    if v == u16::MAX { 0 } else { (v + 1) as u16 }
}

impl DisplayTiming {
    /// The display after `cycles` more cycles, the signal it gives, the
    /// interrupts it raises and the renderer's work: a line is drawn until
    /// H-blank; after H-blank the next line is drawn, or after line 191
    /// V-blank starts; V-blank lines have H-blanks too, and after line 262
    /// a new frame starts.
    pub open spec fn after_clock(self, cycles: usize) -> (Self, Signal, u32, RenderAction) {
        let c = self.cycle_count + cycles;
        match self.state {
            VideoState::Init => {
                let st = with_vcount_flag(self.lcd_status & !(LCD_VBLANK_FLAG | LCD_HBLANK_FLAG), 0);
                (
                    DisplayTiming { state: VideoState::Drawing, cycle_count: c as usize, v_count: 0, lcd_status: st },
                    Signal::Nothing,
                    vcount_irq(st),
                    RenderAction::StartFrame,
                )
            },
            VideoState::Drawing => if c >= H_CYCLES {
                let st = self.lcd_status | LCD_HBLANK_FLAG;
                (
                    DisplayTiming { state: VideoState::HBlank, cycle_count: (c - H_CYCLES) as usize, lcd_status: st, ..self },
                    Signal::HBlank,
                    hblank_irq(st),
                    RenderAction::Nothing,
                )
            } else {
                (DisplayTiming { cycle_count: c as usize, ..self }, Signal::Nothing, 0, RenderAction::Nothing)
            },
            VideoState::HBlank => if c >= H_BLANK_CYCLES {
                let v = next_line(self.v_count);
                if self.v_count < V_MAX {
                    let st = with_vcount_flag(self.lcd_status & !LCD_HBLANK_FLAG, v);
                    (
                        DisplayTiming { state: VideoState::Drawing, cycle_count: (c - H_BLANK_CYCLES) as usize, v_count: v, lcd_status: st },
                        Signal::Nothing,
                        vcount_irq(st),
                        RenderAction::RenderLine(v),
                    )
                } else {
                    let st = with_vcount_flag(self.lcd_status | LCD_VBLANK_FLAG, v);
                    (
                        DisplayTiming { state: VideoState::VBlank, cycle_count: (c - H_BLANK_CYCLES) as usize, v_count: v, lcd_status: st },
                        Signal::VBlank,
                        vblank_irq(st),
                        RenderAction::FinishFrame,
                    )
                }
            } else {
                (DisplayTiming { cycle_count: c as usize, ..self }, Signal::Nothing, 0, RenderAction::Nothing)
            },
            VideoState::VHBlank => if c >= H_BLANK_CYCLES {
                if self.v_count < VBLANK_MAX {
                    let v = next_line(self.v_count);
                    let st = with_vcount_flag(self.lcd_status & !LCD_HBLANK_FLAG, v);
                    (
                        DisplayTiming { state: VideoState::VBlank, cycle_count: (c - H_BLANK_CYCLES) as usize, v_count: v, lcd_status: st },
                        Signal::Nothing,
                        vcount_irq(st),
                        if v == 214 { RenderAction::Render3D } else { RenderAction::Nothing },
                    )
                } else {
                    let st = with_vcount_flag(self.lcd_status & !(LCD_VBLANK_FLAG | LCD_HBLANK_FLAG), 0);
                    (
                        DisplayTiming { state: VideoState::Drawing, cycle_count: (c - H_BLANK_CYCLES) as usize, v_count: 0, lcd_status: st },
                        Signal::Nothing,
                        vcount_irq(st),
                        RenderAction::StartFrame,
                    )
                }
            } else {
                (DisplayTiming { cycle_count: c as usize, ..self }, Signal::Nothing, 0, RenderAction::Nothing)
            },
            VideoState::VBlank => if c >= H_CYCLES {
                let st = self.lcd_status | LCD_HBLANK_FLAG;
                (
                    DisplayTiming { state: VideoState::VHBlank, cycle_count: (c - H_CYCLES) as usize, lcd_status: st, ..self },
                    Signal::Nothing,
                    0,
                    RenderAction::Nothing,
                )
            } else {
                (DisplayTiming { cycle_count: c as usize, ..self }, Signal::Nothing, 0, RenderAction::Nothing)
            },
        }
    }

    pub fn new() -> (r: Self)
        ensures
            r == (DisplayTiming { state: VideoState::Init, cycle_count: 0, v_count: 0, lcd_status: 0 }),
    {
        DisplayTiming { state: VideoState::Init, cycle_count: 0, v_count: 0, lcd_status: 0 }
    }

    fn set_vcount_flag(&mut self)
        ensures
            *final(self) == (DisplayTiming {
                lcd_status: with_vcount_flag(old(self).lcd_status, old(self).v_count),
                ..*old(self)
            }),
    {
        if self.v_count == lcd_v_count(self.lcd_status) {
            self.lcd_status = self.lcd_status | LCD_VCOUNT_FLAG;
        } else {
            self.lcd_status = self.lcd_status & !LCD_VCOUNT_FLAG;
        }
    }

    fn irq_if(&self, mask: u16, irq: u32) -> (r: u32)
        ensures
            r == (if self.lcd_status & mask == mask { irq } else { 0 }),
    {
        if self.lcd_status & mask == mask {
            irq
        } else {
            0
        }
    }

    /// Advances the display by `cycles` cycles.
    pub fn clock(&mut self, cycles: usize) -> (r: (Signal, Interrupts, RenderAction))
        requires
            old(self).cycle_count + cycles <= usize::MAX,
        ensures
            (*final(self), r.0, r.1.bits, r.2) == old(self).after_clock(cycles),
    {
        self.cycle_count = self.cycle_count + cycles;
        match self.state {
            VideoState::Init => {
                self.state = VideoState::Drawing;
                self.v_count = 0;
                self.lcd_status = self.lcd_status & !(LCD_VBLANK_FLAG | LCD_HBLANK_FLAG);
                self.set_vcount_flag();
                let irq = self.irq_if(LCD_VCOUNT_IRQ | LCD_VCOUNT_FLAG, crate::interrupt::INT_V_COUNTER);
                (Signal::Nothing, Interrupts { bits: irq }, RenderAction::StartFrame)
            },
            VideoState::Drawing => if self.cycle_count >= H_CYCLES {
                self.cycle_count = self.cycle_count - H_CYCLES;
                self.state = VideoState::HBlank;
                self.lcd_status = self.lcd_status | LCD_HBLANK_FLAG;
                let irq = self.irq_if(LCD_HBLANK_IRQ | LCD_HBLANK_FLAG, crate::interrupt::INT_H_BLANK);
                (Signal::HBlank, Interrupts { bits: irq }, RenderAction::Nothing)
            } else {
                (Signal::Nothing, Interrupts::empty(), RenderAction::Nothing)
            },
            VideoState::HBlank => if self.cycle_count >= H_BLANK_CYCLES {
                self.cycle_count = self.cycle_count - H_BLANK_CYCLES;
                if self.v_count < V_MAX {
                    self.state = VideoState::Drawing;
                    self.v_count = self.v_count.wrapping_add(1);
                    self.lcd_status = self.lcd_status & !LCD_HBLANK_FLAG;
                    self.set_vcount_flag();
                    let irq = self.irq_if(LCD_VCOUNT_IRQ | LCD_VCOUNT_FLAG, crate::interrupt::INT_V_COUNTER);
                    (Signal::Nothing, Interrupts { bits: irq }, RenderAction::RenderLine(self.v_count))
                } else {
                    self.state = VideoState::VBlank;
                    self.v_count = self.v_count.wrapping_add(1);
                    self.lcd_status = self.lcd_status | LCD_VBLANK_FLAG;
                    self.set_vcount_flag();
                    let irq = self.irq_if(LCD_VBLANK_IRQ | LCD_VBLANK_FLAG, crate::interrupt::INT_V_BLANK);
                    (Signal::VBlank, Interrupts { bits: irq }, RenderAction::FinishFrame)
                }
            } else {
                (Signal::Nothing, Interrupts::empty(), RenderAction::Nothing)
            },
            VideoState::VHBlank => if self.cycle_count >= H_BLANK_CYCLES {
                self.cycle_count = self.cycle_count - H_BLANK_CYCLES;
                if self.v_count < VBLANK_MAX {
                    self.state = VideoState::VBlank;
                    self.v_count = self.v_count + 1;
                    self.lcd_status = self.lcd_status & !LCD_HBLANK_FLAG;
                    self.set_vcount_flag();
                    let irq = self.irq_if(LCD_VCOUNT_IRQ | LCD_VCOUNT_FLAG, crate::interrupt::INT_V_COUNTER);
                    let action = if self.v_count == 214 { RenderAction::Render3D } else { RenderAction::Nothing };
                    (Signal::Nothing, Interrupts { bits: irq }, action)
                } else {
                    self.state = VideoState::Drawing;
                    self.v_count = 0;
                    self.lcd_status = self.lcd_status & !(LCD_VBLANK_FLAG | LCD_HBLANK_FLAG);
                    self.set_vcount_flag();
                    let irq = self.irq_if(LCD_VCOUNT_IRQ | LCD_VCOUNT_FLAG, crate::interrupt::INT_V_COUNTER);
                    (Signal::Nothing, Interrupts { bits: irq }, RenderAction::StartFrame)
                }
            } else {
                (Signal::Nothing, Interrupts::empty(), RenderAction::Nothing)
            },
            VideoState::VBlank => if self.cycle_count >= H_CYCLES {
                self.cycle_count = self.cycle_count - H_CYCLES;
                self.state = VideoState::VHBlank;
                self.lcd_status = self.lcd_status | LCD_HBLANK_FLAG;
                (Signal::Nothing, Interrupts::empty(), RenderAction::Nothing)
            } else {
                (Signal::Nothing, Interrupts::empty(), RenderAction::Nothing)
            },
        }
    }

    /// Reads the display status (0x0400_0004) or the line counter
    /// (0x0400_0006).
    pub fn read_halfword(&self, addr: u32) -> (r: u16)
        requires
            addr == 0x0400_0004 || addr == 0x0400_0006,
        ensures
            r == (if addr == 0x0400_0004 { self.lcd_status } else { self.v_count }),
    {
        if addr == 0x0400_0004 {
            self.lcd_status
        } else {
            self.v_count
        }
    }

    /// Writes the display status (its flags kept) or the line counter.
    pub fn write_halfword(&mut self, addr: u32, data: u16)
        requires
            addr == 0x0400_0004 || addr == 0x0400_0006,
        ensures
            addr == 0x0400_0004 ==> *final(self) == (DisplayTiming {
                lcd_status: spec_set_lcd_status(old(self).lcd_status, data),
                ..*old(self)
            }),
            addr == 0x0400_0006 ==> *final(self) == (DisplayTiming { v_count: data, ..*old(self) }),
    {
        if addr == 0x0400_0004 {
            self.lcd_status = (data & 0xFFF8) | (self.lcd_status & 0x0007);
        } else {
            self.v_count = data;
        }
    }

    /// Reads the display status and line counter as one word.
    pub fn read_word(&self) -> (r: u32)
        ensures
            r == self.lcd_status + self.v_count * 0x1_0000,
    {
        (self.lcd_status as u32) + (self.v_count as u32) * 0x1_0000
    }

    /// Writes the display status and line counter as one word.
    pub fn write_word(&mut self, data: u32)
        ensures
            *final(self) == (DisplayTiming {
                lcd_status: spec_set_lcd_status(old(self).lcd_status, (data % 0x1_0000) as u16),
                v_count: (data / 0x1_0000) as u16,
                ..*old(self)
            }),
    {
        let lo = (data % 0x1_0000) as u16;
        self.lcd_status = (lo & 0xFFF8) | (self.lcd_status & 0x0007);
        self.v_count = (data / 0x1_0000) as u16;
    }
}

/// The line counter is within a frame: lines 0 to 262, and at most 191
/// while lines are drawn.
pub open spec fn in_frame(t: DisplayTiming) -> bool {
    &&& t.v_count <= VBLANK_MAX
    &&& (t.state is Drawing || t.state is HBlank) ==> t.v_count <= V_MAX
}

/// The line counter stays within a frame's 263 lines: once it is within
/// them, a step of the display keeps it there.
pub proof fn lemma_v_count_in_frame(t: DisplayTiming, cycles: usize)
    requires
        in_frame(t),
    ensures
        in_frame(t.after_clock(cycles).0),
{
}

/// V-blank starts on line 192: a step gives the V-blank signal exactly
/// when it moves from the H-blank of line 191 or later, and then the
/// counter reads the next line.
pub proof fn lemma_vblank_signal(t: DisplayTiming, cycles: usize)
    ensures
        t.after_clock(cycles).1 == Signal::VBlank <==> (t.state == VideoState::HBlank && t.cycle_count + cycles
            >= H_BLANK_CYCLES && t.v_count >= V_MAX),
        t.after_clock(cycles).1 == Signal::VBlank ==> t.after_clock(cycles).0.v_count == next_line(t.v_count),
{
}

} // verus!
