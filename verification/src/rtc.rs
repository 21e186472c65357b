//! The real time clock on the ARM7's serial port: a bit-serial protocol of
//! commands and BCD registers.
use vstd::prelude::*;
use chrono::{Datelike, Timelike};
use crate::bits::{spec_test_bit8, test_bit8};

verus! {

/// The local date and time, as plain numbers.
#[derive(Clone, Copy)]
pub struct LocalTime {
    pub year: i32,
    pub month: u32,
    pub day: u32,
    /// Days since Sunday.
    pub weekday: u32,
    pub hour: u32,
    pub minute: u32,
    pub second: u32,
}

/// Reads the local time with `chrono::Local::now`. chrono documents the
/// ranges of its fields: month 1 to 12, day 1 to 31, weekday 0 to 6 counted
/// from Sunday, hour 0 to 23, minute and second 0 to 59. Which time it reads
/// is not stated.
#[verifier::external_body]
fn local_now() -> (r: LocalTime)
    ensures
        1 <= r.month <= 12,
        1 <= r.day <= 31,
        r.weekday < 7,
        r.hour < 24,
        r.minute < 60,
        r.second < 60,
{
    let now = chrono::Local::now();
    LocalTime {
        year: now.year(),
        month: now.month(),
        day: now.day(),
        weekday: now.weekday().num_days_from_sunday(),
        hour: now.hour(),
        minute: now.minute(),
        second: now.second(),
    }
}

/// A number below 100 in binary-coded decimal.
pub open spec fn spec_to_bcd(n: u8) -> u8 {
    ((n / 10) * 16 + n % 10) as u8
}

/// Encodes a number below 100 in binary-coded decimal.
pub fn to_bcd(n: u8) -> (r: u8)
    requires
        n < 100,
    ensures
        r == spec_to_bcd(n),
{
    (n / 10) * 16 + n % 10
}

/// Where the clock is in the protocol.
#[derive(Clone, Copy, PartialEq, Eq, Structural)]
pub enum RTCState {
    Idle,
    Ready,
    TransferCommand,
    StatusReg1,
    StatusReg2,
    /// Date and time, with this many bytes still to transfer.
    DateTime(u8),
    /// Alarm 1 (or the frequency interrupt setting), bytes left.
    Int1(u8),
    /// Alarm 2, bytes left.
    Int2(u8),
    ClockAdjust,
    Free,
}

/// Status register 1: power went off.
pub const STATUS1_POWER_OFF: u8 = 0x80;
/// Status register 1: power is low.
pub const STATUS1_POWER_LO: u8 = 0x40;
/// Status register 1: interrupt 2 happened.
pub const STATUS1_INT_2: u8 = 0x20;
/// Status register 1: interrupt 1 happened.
pub const STATUS1_INT_1: u8 = 0x10;
/// Status register 1: 24-hour mode.
pub const STATUS1_HOUR_24: u8 = 0x02;
/// Status register 1: reset.
pub const STATUS1_RESET: u8 = 0x01;
/// Status register 2: test mode.
pub const STATUS2_TEST: u8 = 0x80;
/// Status register 2: interrupt 2 enable.
pub const STATUS2_INT_2_ENABLE: u8 = 0x40;
/// Status register 2: interrupt 1 mode.
pub const STATUS2_INT_1_MODE: u8 = 0x0F;

/// The states in which a parameter byte moves.
pub open spec fn is_data_state(s: RTCState) -> bool {
    !(s is Idle) && !(s is Ready) && !(s is TransferCommand)
}

/// The command in the low byte selects the parameter that follows: bits 1
/// to 3 of a command byte of the form 0110 CCC R.
pub open spec fn command_state(command: u8, status_2: u8) -> RTCState {
    let c = (command / 2) % 8;
    if c == 0 {
        RTCState::StatusReg1
    } else if c == 1 {
        RTCState::StatusReg2
    } else if c == 2 {
        RTCState::DateTime(7)
    } else if c == 3 {
        RTCState::DateTime(3)
    } else if c == 4 {
        RTCState::Int1(if spec_test_bit8(status_2, 2) { 1 } else { 3 })
    } else if c == 5 {
        RTCState::Int2(3)
    } else if c == 6 {
        RTCState::ClockAdjust
    } else {
        RTCState::Free
    }
}

/// The state after a parameter byte: the next byte of a multi-byte
/// parameter, or ready for the next command.
pub open spec fn next_param(s: RTCState) -> RTCState {
    match s {
        RTCState::DateTime(n) => if n <= 1 { RTCState::Ready } else { RTCState::DateTime((n - 1) as u8) },
        RTCState::Int1(n) => if n <= 1 { RTCState::Ready } else { RTCState::Int1((n - 1) as u8) },
        RTCState::Int2(n) => if n <= 1 { RTCState::Ready } else { RTCState::Int2((n - 1) as u8) },
        _ => RTCState::Ready,
    }
}

/// System cycles in one second of the real time clock.
pub const RTC_CYCLES_PER_SECOND: u32 = 33_513_982;

/// The local time's fields are in their ranges.
pub open spec fn time_in_range(t: LocalTime) -> bool {
    1 <= t.month <= 12 && 1 <= t.day <= 31 && t.weekday < 7 && t.hour < 24 && t.minute < 60 && t.second < 60
}

/// A year's place in its century.
fn year_in_century(y: i32) -> (r: u8)
    ensures
        r == (y % 100) as u8,
        r < 100,
{
    let m = y % 100;
    if m < 0 { (m + 100) as u8 } else { m as u8 }
}

/// The number a BCD byte holds, its digits taken as they stand.
pub open spec fn bcd_value(b: u8) -> int {
    (b / 16) * 10 + b % 16
}

fn bcd_value_exec(b: u8) -> (r: u8)
    ensures
        r == bcd_value(b),
{
    (b / 16) * 10 + b % 16
}

/// A BCD counter one step on: back to `first` with a carry once it reaches
/// `limit` (or stands beyond it), else the next number.
pub open spec fn spec_bcd_next(b: u8, limit: u8, first: u8) -> (u8, bool) {
    if bcd_value(b) + 1 >= limit { (spec_to_bcd(first), true) } else { (spec_to_bcd((bcd_value(b) + 1) as u8), false) }
}

fn bcd_next(b: u8, limit: u8, first: u8) -> (r: (u8, bool))
    requires
        limit <= 100,
        first < 100,
    ensures
        r == spec_bcd_next(b, limit, first),
{
    let v = bcd_value_exec(b);
    if v as u16 + 1 >= limit as u16 {
        (to_bcd(first), true)
    } else {
        (to_bcd(v + 1), false)
    }
}

/// Days in the month `month` of the year `year` (both BCD), the years
/// divisible by four leap years.
pub open spec fn days_in_month(month: u8, year: u8) -> u8 {
    let m = bcd_value(month);
    if m == 2 {
        if bcd_value(year) % 4 == 0 { 29 } else { 28 }
    } else if m == 4 || m == 6 || m == 9 || m == 11 {
        30
    } else {
        31
    }
}

fn days_in_month_exec(month: u8, year: u8) -> (r: u8)
    ensures
        r == days_in_month(month, year),
{
    let m = bcd_value_exec(month);
    if m == 2 {
        if bcd_value_exec(year) % 4 == 0 { 29 } else { 28 }
    } else if m == 4 || m == 6 || m == 9 || m == 11 {
        30
    } else {
        31
    }
}

/// An alarm matches: at least one of its weekday, hour and minute bytes
/// has its compare bit (bit 7) set, and each that has matches the time.
pub open spec fn alarm_matches(aw: u8, ah: u8, am: u8, w: u8, h: u8, m: u8) -> bool {
    let on = |a: u8| a / 128 == 1;
    &&& on(aw) || on(ah) || on(am)
    &&& on(aw) ==> aw % 8 == w
    &&& on(ah) ==> ah % 64 == h
    &&& on(am) ==> am % 128 == m
}

fn alarm_exec(aw: u8, ah: u8, am: u8, w: u8, h: u8, m: u8) -> (r: bool)
    ensures
        r == alarm_matches(aw, ah, am, w, h, m),
{
    let (ow, oh, om) = (aw / 128 == 1, ah / 128 == 1, am / 128 == 1);
    (ow || oh || om) && (!ow || aw % 8 == w) && (!oh || ah % 64 == h) && (!om || am % 128 == m)
}

/// One second on: the seconds count, carrying into minutes, hours, the
/// day (and weekday), month and year. At each new minute interrupt 1 is
/// raised in its per-minute mode (2), or in its alarm mode (4) where alarm
/// 1 matches; interrupt 2 where it is enabled and alarm 2 matches. A
/// raised interrupt sets its flag in status register 1. Hours count 0 to
/// 23, as the clock is set.
pub open spec fn tick(r: RealTimeClock) -> (RealTimeClock, bool) {
    let (second, c0) = spec_bcd_next(r.second, 60, 0);
    if !c0 {
        (RealTimeClock { second, ..r }, false)
    } else {
        let (minute, c1) = spec_bcd_next(r.minute, 60, 0);
        let (hour, c2) = if c1 { spec_bcd_next(r.hour, 24, 0) } else { (r.hour, false) };
        let weekday = if c2 { spec_to_bcd(((bcd_value(r.weekday) + 1) % 7) as u8) } else { r.weekday };
        let (day, c3) = if c2 { spec_bcd_next(r.day, (days_in_month(r.month, r.year) + 1) as u8, 1) } else { (r.day, false) };
        let (month, c4) = if c3 { spec_bcd_next(r.month, 13, 1) } else { (r.month, false) };
        let year = if c4 { spec_bcd_next(r.year, 100, 0).0 } else { r.year };
        let mode = r.status_2 % 16;
        let int_1 = mode == 2 || (mode == 4 && alarm_matches(r.alarm1_weekday, r.alarm1_hour, r.alarm1_minute, weekday, hour, minute));
        let int_2 = (r.status_2 / 64) % 2 == 1 && alarm_matches(r.alarm2_weekday, r.alarm2_hour, r.alarm2_minute, weekday, hour, minute);
        let s1 = if int_1 { r.status_1 | STATUS1_INT_1 } else { r.status_1 };
        let status_1 = if int_2 { s1 | STATUS1_INT_2 } else { s1 };
        (RealTimeClock { second, minute, hour, weekday, day, month, year, status_1, ..r }, int_1 || int_2)
    }
}

/// The clock after `n` seconds, and whether an interrupt occurred.
pub open spec fn ticks(r: RealTimeClock, n: nat) -> (RealTimeClock, bool)
    decreases n,
{
    if n == 0 {
        (r, false)
    } else {
        let (a, i) = ticks(r, (n - 1) as nat);
        let (b, j) = tick(a);
        (b, i || j)
    }
}

/// The real time clock.
pub struct RealTimeClock {
    pub state: RTCState,
    /// Bits still to transfer in the current byte.
    pub transfer: u8,
    pub write_buf: u8,
    pub command: u8,
    pub read: bool,
    pub status_1: u8,
    pub status_2: u8,
    pub year: u8,
    pub month: u8,
    pub day: u8,
    pub weekday: u8,
    pub hour: u8,
    pub minute: u8,
    pub second: u8,
    pub alarm1_weekday: u8,
    pub alarm1_hour: u8,
    pub alarm1_minute: u8,
    pub alarm2_weekday: u8,
    pub alarm2_hour: u8,
    pub alarm2_minute: u8,
    pub clock: u8,
    pub free: u8,
    /// System cycles since the last whole second.
    pub second_cycles: u32,
}

impl RealTimeClock {
    /// Multi-byte parameters count down from their length, a byte in
    /// transfer has bits left, and less than a second has gathered.
    pub open spec fn wf(&self) -> bool {
        &&& self.second_cycles < RTC_CYCLES_PER_SECOND
        &&& self.transfer <= 8
        &&& (is_data_state(self.state) || self.state is TransferCommand) ==> self.transfer >= 1
        &&& match self.state {
            RTCState::DateTime(n) => 1 <= n <= 7,
            RTCState::Int1(n) => 1 <= n <= 3,
            RTCState::Int2(n) => 1 <= n <= 3,
            _ => true,
        }
    }

    /// The register that a parameter state reads and writes (all in BCD
    /// but the status, adjust and free registers).
    pub open spec fn register(&self, s: RTCState) -> u8 {
        match s {
            RTCState::StatusReg1 => self.status_1,
            RTCState::StatusReg2 => self.status_2,
            RTCState::DateTime(n) => if n == 7 {
                self.year
            } else if n == 6 {
                self.month
            } else if n == 5 {
                self.day
            } else if n == 4 {
                self.weekday
            } else if n == 3 {
                self.hour
            } else if n == 2 {
                self.minute
            } else {
                self.second
            },
            RTCState::Int1(n) => if n == 3 {
                self.alarm1_weekday
            } else if n == 2 {
                self.alarm1_hour
            } else {
                self.alarm1_minute
            },
            RTCState::Int2(n) => if n == 3 {
                self.alarm2_weekday
            } else if n == 2 {
                self.alarm2_hour
            } else {
                self.alarm2_minute
            },
            RTCState::ClockAdjust => self.clock,
            RTCState::Free => self.free,
            _ => 0,
        }
    }

    /// The clock with the register of parameter state `s` set to `v`.
    pub open spec fn with_register(self, s: RTCState, v: u8) -> Self {
        match s {
            RTCState::StatusReg1 => RealTimeClock { status_1: v, ..self },
            RTCState::StatusReg2 => RealTimeClock { status_2: v, ..self },
            RTCState::DateTime(n) => if n == 7 {
                RealTimeClock { year: v, ..self }
            } else if n == 6 {
                RealTimeClock { month: v, ..self }
            } else if n == 5 {
                RealTimeClock { day: v, ..self }
            } else if n == 4 {
                RealTimeClock { weekday: v, ..self }
            } else if n == 3 {
                RealTimeClock { hour: v, ..self }
            } else if n == 2 {
                RealTimeClock { minute: v, ..self }
            } else {
                RealTimeClock { second: v, ..self }
            },
            RTCState::Int1(n) => if n == 3 {
                RealTimeClock { alarm1_weekday: v, ..self }
            } else if n == 2 {
                RealTimeClock { alarm1_hour: v, ..self }
            } else {
                RealTimeClock { alarm1_minute: v, ..self }
            },
            RTCState::Int2(n) => if n == 3 {
                RealTimeClock { alarm2_weekday: v, ..self }
            } else if n == 2 {
                RealTimeClock { alarm2_hour: v, ..self }
            } else {
                RealTimeClock { alarm2_minute: v, ..self }
            },
            RTCState::ClockAdjust => RealTimeClock { clock: v, ..self },
            RTCState::Free => RealTimeClock { free: v, ..self },
            _ => self,
        }
    }

    /// The clock after a write to its port: bit 0 is data, bit 1 the serial
    /// clock, bit 2 chip select and bit 4 the direction (set: write).
    /// Command bits go in most significant first; parameter bits least
    /// significant first, and each completed byte is stored.
    pub open spec fn after_write(self, data: u8) -> Self {
        let sck = spec_test_bit8(data, 1);
        let cs = spec_test_bit8(data, 2);
        let wr = spec_test_bit8(data, 4);
        let bit = data % 2;
        if self.state is Idle && !cs && sck && wr {
            RealTimeClock { state: RTCState::Ready, ..self }
        } else if self.state is Ready && !cs && sck && wr {
            self
        } else if self.state is Ready && cs && sck && wr {
            RealTimeClock { state: RTCState::TransferCommand, transfer: 8, ..self }
        } else if self.state is Ready && !cs {
            RealTimeClock { state: RTCState::Idle, ..self }
        } else if self.state is TransferCommand {
            if !sck && wr {
                let command = ((self.command % 128) * 2 + bit) as u8;
                if self.transfer == 1 {
                    RealTimeClock {
                        command,
                        state: command_state(command, self.status_2),
                        transfer: 8,
                        ..self
                    }
                } else {
                    RealTimeClock { command, transfer: (self.transfer - 1) as u8, ..self }
                }
            } else {
                self
            }
        } else if !sck && wr {
            let buf = (self.write_buf / 2 + bit * 128) as u8;
            if self.transfer == 1 {
                RealTimeClock {
                    write_buf: 0,
                    state: next_param(self.state),
                    transfer: 8,
                    ..self.with_register(self.state, buf)
                }
            } else {
                RealTimeClock { write_buf: buf, transfer: (self.transfer - 1) as u8, ..self }
            }
        } else if !sck && !wr {
            RealTimeClock { read: true, ..self }
        } else {
            self
        }
    }

    /// The clock can take the write: a parameter bit is written only in a
    /// parameter state.
    pub open spec fn write_ok(&self, data: u8) -> bool {
        let sck = spec_test_bit8(data, 1);
        let cs = spec_test_bit8(data, 2);
        let wr = spec_test_bit8(data, 4);
        let handled = (self.state is Idle && !cs && sck && wr) || (self.state is Ready && (!cs || (sck
            && wr))) || self.state is TransferCommand;
        !handled && !sck && wr ==> is_data_state(self.state)
    }

    /// A read gives the next bit of the current parameter, least significant
    /// first, once a read clock edge has been written.
    pub open spec fn after_read(self) -> (Self, u8) {
        let cleared = RealTimeClock { read: false, ..self };
        if !self.read || self.state is Idle {
            (cleared, 0)
        } else {
            let t = (self.transfer - 1) as u8;
            let b = (self.register(self.state) >> ((7 - t) as u8)) & 1;
            if t == 0 {
                (RealTimeClock { transfer: 8, state: next_param(self.state), ..cleared }, b)
            } else {
                (RealTimeClock { transfer: t, ..cleared }, b)
            }
        }
    }

    /// A read is answered from a parameter state.
    pub open spec fn read_ok(&self) -> bool {
        self.read && !(self.state is Idle) ==> is_data_state(self.state)
    }
}


impl RealTimeClock {
    /// A clock set to the given local time, with everything else clear. The
    /// year is kept modulo 100.
    pub fn new_at(time: LocalTime) -> (r: Self)
        requires
            1 <= time.month <= 12,
            1 <= time.day <= 31,
            time.weekday < 7,
            time.hour < 24,
            time.minute < 60,
            time.second < 60,
        ensures
            Self::set_to(r, time),
    {
        let year = year_in_century(time.year);
        RealTimeClock {
            state: RTCState::Idle,
            transfer: 0,
            write_buf: 0,
            command: 0,
            read: false,
            status_1: 0,
            status_2: 0,
            year: to_bcd(year),
            month: to_bcd(time.month as u8),
            day: to_bcd(time.day as u8),
            weekday: to_bcd(time.weekday as u8),
            hour: to_bcd(time.hour as u8),
            minute: to_bcd(time.minute as u8),
            second: to_bcd(time.second as u8),
            alarm1_weekday: 0,
            alarm1_hour: 0,
            alarm1_minute: 0,
            alarm2_weekday: 0,
            alarm2_hour: 0,
            alarm2_minute: 0,
            clock: 0,
            free: 0,
            second_cycles: 0,
        }
    }

    /// The clock as `new_at` sets it for `time`: idle, status, alarms and
    /// registers clear, the date and time in BCD.
    pub open spec fn set_to(r: Self, time: LocalTime) -> bool {
        &&& r.wf()
        &&& r.state == RTCState::Idle
        &&& r.transfer == 0 && r.write_buf == 0 && r.command == 0 && !r.read
        &&& r.status_1 == 0 && r.status_2 == 0
        &&& r.year == spec_to_bcd((time.year % 100) as u8)
        &&& r.month == spec_to_bcd(time.month as u8)
        &&& r.day == spec_to_bcd(time.day as u8)
        &&& r.weekday == spec_to_bcd(time.weekday as u8)
        &&& r.hour == spec_to_bcd(time.hour as u8)
        &&& r.minute == spec_to_bcd(time.minute as u8)
        &&& r.second == spec_to_bcd(time.second as u8)
        &&& r.alarm1_weekday == 0 && r.alarm1_hour == 0 && r.alarm1_minute == 0
        &&& r.alarm2_weekday == 0 && r.alarm2_hour == 0 && r.alarm2_minute == 0
        &&& r.clock == 0 && r.free == 0 && r.second_cycles == 0
    }

    /// A clock set to the current local time.
    pub fn new() -> (r: Self)
        ensures
            exists|t: LocalTime| #[trigger] time_in_range(t) && Self::set_to(r, t),
    {
        let t = local_now();
        let r = Self::new_at(t);
        assert(time_in_range(t));
        r
    }

    /// Advances the clock by `cycles` system cycles: each whole second
    /// that passes moves the date and time on by a second, and the result
    /// tells whether an interrupt occurred on the way.
    pub fn clock(&mut self, cycles: usize) -> (r: bool)
        requires
            old(self).wf(),
        ensures
            final(self).wf(),
            ({
                let total = old(self).second_cycles + cycles;
                let (after, raised) = ticks(old(self).with_cycles(0), (total / (RTC_CYCLES_PER_SECOND as int)) as nat);
                &&& *final(self) == after.with_cycles((total % (RTC_CYCLES_PER_SECOND as int)) as u32)
                &&& r == raised
            }),
    {
        let rate = RTC_CYCLES_PER_SECOND as usize;
        let extra = (cycles % rate) as u32 + self.second_cycles;
        let mut seconds: usize = cycles / rate;
        let left: u32 = if extra >= RTC_CYCLES_PER_SECOND { extra - RTC_CYCLES_PER_SECOND } else { extra };
        let carry = extra >= RTC_CYCLES_PER_SECOND;
        proof {
            let total = old(self).second_cycles + cycles;
            let r = RTC_CYCLES_PER_SECOND as int;
            vstd::arithmetic::div_mod::lemma_fundamental_div_mod(cycles as int, r);
            vstd::arithmetic::div_mod::lemma_fundamental_div_mod(total, r);
            let q = cycles as int / r + (if carry { 1int } else { 0int });
            assert(total == r * q + left);
            assert(0 <= left < r);
            vstd::arithmetic::div_mod::lemma_fundamental_div_mod_converse(total, r, q, left as int);
        }
        let ghost start = self.with_cycles(0);
        self.second_cycles = 0;
        let mut k: usize = 0;
        let n: usize = cycles / rate;
        let mut raised = false;
        let mut steps: usize = if carry { n + 1 } else { n };
        assert(steps as int == (old(self).second_cycles + cycles) / (RTC_CYCLES_PER_SECOND as int));
        while k < steps
            invariant
                k <= steps,
                self.wf(),
                self.second_cycles == 0,
                (*self, raised) == ticks(start, k as nat),
            decreases steps - k,
        {
            let fired = self.tick();
            raised = raised || fired;
            k = k + 1;
        }
        self.second_cycles = left;
        raised
    }

    /// The clock with `c` cycles gathered toward the next second.
    pub open spec fn with_cycles(self, c: u32) -> Self {
        RealTimeClock { second_cycles: c, ..self }
    }

    /// Moves the date and time on by one second.
    fn tick(&mut self) -> (r: bool)
        requires
            old(self).wf(),
        ensures
            final(self).wf(),
            (*final(self), r) == tick(*old(self)),
    {
        let (second, carry) = bcd_next(self.second, 60, 0);
        self.second = second;
        if !carry {
            return false;
        }
        let (minute, carry) = bcd_next(self.minute, 60, 0);
        self.minute = minute;
        if carry {
            let (hour, carry) = bcd_next(self.hour, 24, 0);
            self.hour = hour;
            if carry {
                self.weekday = to_bcd((bcd_value_exec(self.weekday) + 1) % 7);
                let dim = days_in_month_exec(self.month, self.year);
                let (day, carry) = bcd_next(self.day, dim + 1, 1);
                self.day = day;
                if carry {
                    let (month, carry) = bcd_next(self.month, 13, 1);
                    self.month = month;
                    if carry {
                        let (year, _) = bcd_next(self.year, 100, 0);
                        self.year = year;
                    }
                }
            }
        }
        let mode = self.status_2 % 16;
        let int_1 = mode == 2 || (mode == 4 && alarm_exec(self.alarm1_weekday, self.alarm1_hour, self.alarm1_minute, self.weekday, self.hour, self.minute));
        let int_2 = (self.status_2 / 64) % 2 == 1 && alarm_exec(self.alarm2_weekday, self.alarm2_hour, self.alarm2_minute, self.weekday, self.hour, self.minute);
        if int_1 {
            self.status_1 = self.status_1 | STATUS1_INT_1;
        }
        if int_2 {
            self.status_1 = self.status_1 | STATUS1_INT_2;
        }
        int_1 || int_2
    }

    fn process_command(&mut self)
        ensures
            final(self).state == command_state(old(self).command, old(self).status_2),
            final(self).transfer == 8,
            *final(self) == (RealTimeClock { state: final(self).state, transfer: 8, ..*old(self) }),
    {
        let c = (self.command / 2) % 8;
        self.state = if c == 0 {
            RTCState::StatusReg1
        } else if c == 1 {
            RTCState::StatusReg2
        } else if c == 2 {
            RTCState::DateTime(7)
        } else if c == 3 {
            RTCState::DateTime(3)
        } else if c == 4 {
            if test_bit8(self.status_2, 2) {
                RTCState::Int1(1)
            } else {
                RTCState::Int1(3)
            }
        } else if c == 5 {
            RTCState::Int2(3)
        } else if c == 6 {
            RTCState::ClockAdjust
        } else {
            RTCState::Free
        };
        self.transfer = 8;
    }

    fn read_data(&self) -> (r: u8)
        requires
            is_data_state(self.state),
        ensures
            r == self.register(self.state),
    {
        match self.state {
            RTCState::StatusReg1 => self.status_1,
            RTCState::StatusReg2 => self.status_2,
            RTCState::DateTime(n) => if n == 7 {
                self.year
            } else if n == 6 {
                self.month
            } else if n == 5 {
                self.day
            } else if n == 4 {
                self.weekday
            } else if n == 3 {
                self.hour
            } else if n == 2 {
                self.minute
            } else {
                self.second
            },
            RTCState::Int1(n) => if n == 3 {
                self.alarm1_weekday
            } else if n == 2 {
                self.alarm1_hour
            } else {
                self.alarm1_minute
            },
            RTCState::Int2(n) => if n == 3 {
                self.alarm2_weekday
            } else if n == 2 {
                self.alarm2_hour
            } else {
                self.alarm2_minute
            },
            RTCState::ClockAdjust => self.clock,
            _ => self.free,
        }
    }

    /// Shifts a data bit into the write buffer, least significant first.
    fn write_bit(&mut self, data: u8)
        ensures
            *final(self) == (RealTimeClock {
                write_buf: (old(self).write_buf / 2 + (data % 2) * 128) as u8,
                ..*old(self)
            }),
    {
        self.write_buf = self.write_buf / 2 + (data % 2) * 128;
    }

    /// Stores the write buffer in the register of `state`, and clears it.
    fn writeback_buffer(&mut self, state: RTCState)
        requires
            is_data_state(state),
        ensures
            *final(self) == (RealTimeClock { write_buf: 0, ..old(self).with_register(state, old(self).write_buf) }),
    {
        let v = self.write_buf;
        match state {
            RTCState::StatusReg1 => self.status_1 = v,
            RTCState::StatusReg2 => self.status_2 = v,
            RTCState::DateTime(n) => if n == 7 {
                self.year = v;
            } else if n == 6 {
                self.month = v;
            } else if n == 5 {
                self.day = v;
            } else if n == 4 {
                self.weekday = v;
            } else if n == 3 {
                self.hour = v;
            } else if n == 2 {
                self.minute = v;
            } else {
                self.second = v;
            },
            RTCState::Int1(n) => if n == 3 {
                self.alarm1_weekday = v;
            } else if n == 2 {
                self.alarm1_hour = v;
            } else {
                self.alarm1_minute = v;
            },
            RTCState::Int2(n) => if n == 3 {
                self.alarm2_weekday = v;
            } else if n == 2 {
                self.alarm2_hour = v;
            } else {
                self.alarm2_minute = v;
            },
            RTCState::ClockAdjust => self.clock = v,
            _ => self.free = v,
        }
        self.write_buf = 0;
    }

    /// Moves to the next parameter byte, or to ready.
    fn finish_param(&mut self)
        ensures
            *final(self) == (RealTimeClock { state: next_param(old(self).state), transfer: 8, ..*old(self) }),
    {
        self.state = match self.state {
            RTCState::DateTime(n) => if n <= 1 { RTCState::Ready } else { RTCState::DateTime(n - 1) },
            RTCState::Int1(n) => if n <= 1 { RTCState::Ready } else { RTCState::Int1(n - 1) },
            RTCState::Int2(n) => if n <= 1 { RTCState::Ready } else { RTCState::Int2(n - 1) },
            _ => RTCState::Ready,
        };
        self.transfer = 8;
    }

    /// Reads the port: the next parameter bit, or 0.
    pub fn read_byte(&mut self, addr: u32) -> (r: u8)
        requires
            old(self).wf(),
            old(self).read_ok(),
        ensures
            final(self).wf(),
            (*final(self), r) == old(self).after_read(),
    {
        let can_read = self.read;
        self.read = false;
        if !can_read || self.state == RTCState::Idle {
            return 0;
        }
        let data = self.read_data();
        self.transfer = self.transfer - 1;
        let shift = 7 - self.transfer;
        let b = (data >> shift) & 1;
        if self.transfer == 0 {
            self.finish_param();
        }
        b
    }

    /// Writes the port.
    pub fn write_byte(&mut self, addr: u32, data: u8)
        requires
            old(self).wf(),
            old(self).write_ok(data),
        ensures
            final(self).wf(),
            *final(self) == old(self).after_write(data),
    {
        let sck = test_bit8(data, 1);
        let cs = test_bit8(data, 2);
        let wr = test_bit8(data, 4);
        if self.state == RTCState::Idle && !cs && sck && wr {
            self.state = RTCState::Ready;
        } else if self.state == RTCState::Ready && !cs && sck && wr {
        } else if self.state == RTCState::Ready && cs && sck && wr {
            self.state = RTCState::TransferCommand;
            self.transfer = 8;
        } else if self.state == RTCState::Ready && !cs {
            self.state = RTCState::Idle;
        } else if self.state == RTCState::TransferCommand {
            if !sck && wr {
                let b = data % 2;
                self.command = (self.command % 128) * 2 + b;
                self.transfer = self.transfer - 1;
                if self.transfer == 0 {
                    self.process_command();
                }
            }
        } else if !sck && wr {
            let state = self.state;
            self.write_bit(data);
            self.transfer = self.transfer - 1;
            if self.transfer == 0 {
                self.writeback_buffer(state);
                self.finish_param();
            }
        } else if !sck && !wr {
            self.read = true;
        }
    }

    pub fn read_halfword(&mut self, addr: u32) -> (r: u16)
        requires
            old(self).wf(),
            old(self).read_ok(),
        ensures
            final(self).wf(),
            *final(self) == old(self).after_read().0,
            r == old(self).after_read().1,
    {
        self.read_byte(addr) as u16
    }

    pub fn write_halfword(&mut self, addr: u32, data: u16)
        requires
            old(self).wf(),
            old(self).write_ok((data % 0x100) as u8),
        ensures
            final(self).wf(),
            *final(self) == old(self).after_write((data % 0x100) as u8),
    {
        self.write_byte(addr, (data % 0x100) as u8);
    }
}

} // verus!
