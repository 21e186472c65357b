use spa::rtc::{to_bcd, LocalTime, RTCState, RealTimeClock, RTC_CYCLES_PER_SECOND};

fn time() -> LocalTime {
    LocalTime { year: 2023, month: 7, day: 15, weekday: 6, hour: 13, minute: 45, second: 30 }
}

fn command(rtc: &mut RealTimeClock, cmd: u8) {
    rtc.write_byte(0x0400_0138, 0x12);
    rtc.write_byte(0x0400_0138, 0x16);
    for i in (0..8).rev() {
        rtc.write_byte(0x0400_0138, 0x14 | ((cmd >> i) & 1));
    }
}

fn read_param(rtc: &mut RealTimeClock) -> u8 {
    let mut v = 0;
    for i in 0..8 {
        rtc.write_byte(0x0400_0138, 0x04);
        v |= rtc.read_byte(0x0400_0138) << i;
    }
    v
}

fn write_param(rtc: &mut RealTimeClock, v: u8) {
    for i in 0..8 {
        rtc.write_byte(0x0400_0138, 0x14 | ((v >> i) & 1));
    }
}

fn end(rtc: &mut RealTimeClock) {
    rtc.write_byte(0x0400_0138, 0x10);
}

#[test]
fn bcd_encoding() {
    assert_eq!(to_bcd(0), 0x00);
    assert_eq!(to_bcd(9), 0x09);
    assert_eq!(to_bcd(59), 0x59);
    assert_eq!(to_bcd(99), 0x99);
}

#[test]
fn clock_holds_time_in_bcd() {
    let rtc = RealTimeClock::new_at(time());
    assert_eq!(rtc.year, 0x23);
    assert_eq!(rtc.month, 0x07);
    assert_eq!(rtc.day, 0x15);
    assert_eq!(rtc.weekday, 0x06);
    assert_eq!(rtc.hour, 0x13);
    assert_eq!(rtc.minute, 0x45);
    assert_eq!(rtc.second, 0x30);
    let old = RealTimeClock::new_at(LocalTime { year: -1, ..time() });
    assert_eq!(old.year, 0x99);
}

#[test]
fn read_date_and_time_serially() {
    let mut rtc = RealTimeClock::new_at(time());
    command(&mut rtc, 0x65);
    assert!(rtc.state == RTCState::DateTime(7));
    let bytes: Vec<u8> = (0..7).map(|_| read_param(&mut rtc)).collect();
    assert_eq!(bytes, vec![0x23, 0x07, 0x15, 0x06, 0x13, 0x45, 0x30]);
    assert!(rtc.state == RTCState::Ready);
    end(&mut rtc);
    assert!(rtc.state == RTCState::Idle);
}

#[test]
fn read_time_only() {
    let mut rtc = RealTimeClock::new_at(time());
    command(&mut rtc, 0x67);
    assert_eq!(read_param(&mut rtc), 0x13);
    assert_eq!(read_param(&mut rtc), 0x45);
    assert_eq!(read_param(&mut rtc), 0x30);
}

#[test]
fn status_register_write_then_read() {
    let mut rtc = RealTimeClock::new_at(time());
    command(&mut rtc, 0x60);
    assert!(rtc.state == RTCState::StatusReg1);
    write_param(&mut rtc, 0x02);
    assert_eq!(rtc.status_1, 0x02);
    end(&mut rtc);
    command(&mut rtc, 0x61);
    assert_eq!(read_param(&mut rtc), 0x02);
}

#[test]
fn reads_without_a_clock_edge_give_zero() {
    let mut rtc = RealTimeClock::new_at(time());
    assert_eq!(rtc.read_byte(0x0400_0138), 0);
    assert!(!rtc.clock(100));
    assert_eq!(rtc.read_halfword(0x0400_0138), 0);
}

#[test]
fn clock_from_local_time() {
    let rtc = RealTimeClock::new();
    assert!(rtc.state == RTCState::Idle);
    assert!(rtc.month >= 1 && rtc.month <= 0x12);
}

const SECOND: usize = RTC_CYCLES_PER_SECOND as usize;

#[test]
fn clock_counts_seconds_from_gathered_cycles() {
    let mut rtc = RealTimeClock::new_at(time());
    assert!(!rtc.clock(SECOND - 1));
    assert_eq!(rtc.second, 0x30);
    assert!(!rtc.clock(1));
    assert_eq!(rtc.second, 0x31);
    assert!(!rtc.clock(3 * SECOND + 5));
    assert_eq!(rtc.second, 0x34);
    assert_eq!(rtc.second_cycles, 5);
}

#[test]
fn clock_carries_into_the_next_month_and_leap_day() {
    let end_of_feb = LocalTime { year: 2023, month: 2, day: 28, weekday: 2, hour: 23, minute: 59, second: 59 };
    let mut rtc = RealTimeClock::new_at(end_of_feb);
    rtc.clock(SECOND);
    assert_eq!((rtc.year, rtc.month, rtc.day, rtc.weekday), (0x23, 0x03, 0x01, 0x03));
    assert_eq!((rtc.hour, rtc.minute, rtc.second), (0, 0, 0));
    let mut leap = RealTimeClock::new_at(LocalTime { year: 2024, ..end_of_feb });
    leap.clock(SECOND);
    assert_eq!((leap.month, leap.day), (0x02, 0x29));
    let mut new_year = RealTimeClock::new_at(LocalTime { year: 2099, month: 12, day: 31, ..end_of_feb });
    new_year.clock(SECOND);
    assert_eq!((new_year.year, new_year.month, new_year.day), (0x00, 0x01, 0x01));
}

#[test]
fn clock_raises_minute_and_alarm_interrupts() {
    let mut rtc = RealTimeClock::new_at(LocalTime { second: 59, ..time() });
    rtc.status_2 = 0x02;
    assert!(rtc.clock(SECOND));
    assert_eq!(rtc.status_1 & 0x10, 0x10);
    let mut alarm = RealTimeClock::new_at(LocalTime { second: 59, ..time() });
    alarm.status_2 = 0x40;
    alarm.alarm2_minute = 0x80 | 0x46;
    assert!(alarm.clock(SECOND));
    assert_eq!(alarm.status_1 & 0x20, 0x20);
    let mut other = RealTimeClock::new_at(LocalTime { second: 59, ..time() });
    other.status_2 = 0x40;
    other.alarm2_minute = 0x80 | 0x47;
    assert!(!other.clock(SECOND));
}
