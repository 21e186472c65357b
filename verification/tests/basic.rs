use spa::bits::{hi16, hi32, hi8, lo16, lo32, lo8, make16, make32, make64, set_hi16, set_hi32, set_hi8, set_lo16, set_lo32, set_lo8, test_bit16, test_bit32, test_bit8};
use spa::interrupt::{InterruptControl, Interrupts, INT_ALL, INT_TIMER_0, INT_V_BLANK};
use spa::joypad::{Button, DSButtons, DSJoypad, InputButtons, DS_PEN_DOWN, DS_X, KEY_A};
use spa::maths::{float_sqrt, isqrt, Accelerators, DIV_BUSY, DIV_BY_ZERO, SQRT_BUSY};
use spa::power::{DS7PowerControl, DS9PowerControl};
use spa::ram::Ram;

#[test]
fn halves_and_bytes_split_and_join() {
    assert_eq!(lo16(0x1234_5678), 0x5678);
    assert_eq!(hi16(0x1234_5678), 0x1234);
    assert_eq!(make32(0xABCD, 0x0123), 0xABCD_0123);
    assert_eq!(set_lo16(0x1234_5678, 0xFFFF), 0x1234_FFFF);
    assert_eq!(set_hi16(0x1234_5678, 0x0000), 0x0000_5678);
    assert_eq!(lo8(0xBEEF), 0xEF);
    assert_eq!(hi8(0xBEEF), 0xBE);
    assert_eq!(make16(0x12, 0x34), 0x1234);
    assert_eq!(set_lo8(0x1234, 0xAA), 0x12AA);
    assert_eq!(set_hi8(0x1234, 0xAA), 0xAA34);
    assert_eq!(lo32(0x0123_4567_89AB_CDEF), 0x89AB_CDEF);
    assert_eq!(hi32(0x0123_4567_89AB_CDEF), 0x0123_4567);
    assert_eq!(make64(1, 2), 0x1_0000_0002);
    assert_eq!(set_lo32(0x0123_4567_89AB_CDEF, 0), 0x0123_4567_0000_0000);
    assert_eq!(set_hi32(0x0123_4567_89AB_CDEF, 0), 0x89AB_CDEF);
}

#[test]
fn bit_tests() {
    assert!(test_bit8(0x80, 7));
    assert!(!test_bit8(0x80, 6));
    assert!(test_bit16(0x0100, 8));
    assert!(!test_bit16(0x0100, 0));
    assert!(test_bit32(0x8000_0000, 31));
    assert!(!test_bit32(0x8000_0000, 30));
}

#[test]
fn ram_is_little_endian() {
    let mut ram = Ram::new(16);
    assert_eq!(ram.len(), 16);
    assert_eq!(ram.read_word(0), 0);
    ram.write_word(4, 0x1122_3344);
    assert_eq!(ram.read_byte(4), 0x44);
    assert_eq!(ram.read_byte(7), 0x11);
    assert_eq!(ram.read_halfword(6), 0x1122);
    ram.write_halfword(0, 0xA0B0);
    assert_eq!(ram.read_byte(0), 0xB0);
    ram.write_byte(15, 9);
    assert_eq!(ram.read_word(12), 0x0900_0000);
    assert_eq!(ram.read_word(4), 0x1122_3344);
}

#[test]
fn interrupt_registers() {
    let mut ic = InterruptControl::new("ARM9");
    assert_eq!(ic.name, "ARM9");
    assert!(!ic.irq());
    ic.write_word(0x0400_0210, 0xFFFF_FFFF);
    assert_eq!(ic.read_word(0x0400_0210), INT_ALL);
    ic.interrupt_request(Interrupts::from_bits_truncate(INT_V_BLANK | INT_TIMER_0));
    assert_eq!(ic.read_word(0x0400_0214), INT_V_BLANK | INT_TIMER_0);
    assert!(!ic.irq());
    ic.write_word(0x0400_0208, 1);
    assert_eq!(ic.read_word(0x0400_0208), 1);
    assert!(ic.irq());
    // Writing a one acknowledges that request only.
    ic.write_word(0x0400_0214, INT_V_BLANK);
    assert_eq!(ic.read_word(0x0400_0214), INT_TIMER_0);
    ic.write_word(0x0400_0214, INT_TIMER_0);
    assert!(!ic.irq());
    assert_eq!(ic.read_word(0x0400_020C), 0);
}

#[test]
fn interrupt_sets() {
    let e = Interrupts::empty();
    assert!(e.is_empty());
    let a = Interrupts::from_bits_truncate(0xFFFF_FFFF);
    assert_eq!(a.bits(), INT_ALL);
    let u = Interrupts::from_bits_truncate(1).union(Interrupts::from_bits_truncate(2));
    assert_eq!(u.bits(), 3);
}

#[test]
fn joypad_registers() {
    let mut jp = DSJoypad::new();
    assert_eq!(jp.read_halfword(0x0400_0136), 0x4B);
    jp.write_halfword(0x0400_0134, 0x8000);
    assert_eq!(jp.read_halfword(0x0400_0134), 0x8000);
    jp.write_halfword(0x0400_0136, 0);
    assert_eq!(jp.read_halfword(0x0400_0136), 0x4B);
    let mut b = DSButtons::from_bits_truncate(0xFFFF);
    assert_eq!(b.bits(), 0xCB);
    b.set(DS_X, false);
    jp.set_all_buttons(b);
    assert_eq!(jp.read_halfword(0x0400_0136), 0xCA);
}

#[test]
fn input_buttons_are_active_low() {
    let mut input = InputButtons::new();
    assert_eq!(input.buttons, 0xFFFF);
    input.set_button(Button::A, true);
    assert_eq!(input.buttons, 0xFFFF & !KEY_A);
    input.set_button(Button::X, true);
    assert_eq!(input.ds_buttons.bits(), 0x4B & !DS_X);
    input.set_button(Button::A, false);
    assert_eq!(input.buttons, 0xFFFF);
    input.set_pen(true);
    assert_eq!(input.ds_buttons.bits() & DS_PEN_DOWN, 0);
    input.set_pen(false);
    assert_eq!(input.ds_buttons.bits() & DS_PEN_DOWN, DS_PEN_DOWN);
}

#[test]
fn power_registers() {
    let mut p9 = DS9PowerControl::new(true);
    assert_eq!(p9.read_byte(0x0400_0300), 1);
    p9.write_byte(0x0400_0300, 0xFE);
    assert_eq!(p9.read_byte(0x0400_0300), 0);
    assert_eq!(p9.read_byte(0x0400_0301), 0);
    let mut p7 = DS7PowerControl::new(false);
    assert_eq!(p7.read_byte(0x0400_0300), 0);
    p7.write_byte(0x0400_0301, 0x80);
    assert!(p7.halt);
    assert_eq!(p7.read_byte(0x0400_0301), 0x80);
    p7.write_byte(0x0400_0301, 0xC0);
    assert_eq!(p7.read_byte(0x0400_0301), 0xC0);
    p7.write_byte(0x0400_0304, 0xFF);
    assert_eq!(p7.read_byte(0x0400_0304), 3);
    p7.write_byte(0x0400_0308, 0x34);
    p7.write_byte(0x0400_0309, 0x12);
    assert_eq!(p7.bios_prot, 0x1234);
    assert_eq!(p7.read_byte(0x0400_0309), 0x12);
}

#[test]
fn isqrt_values() {
    assert_eq!(isqrt(0), 0);
    assert_eq!(isqrt(15), 3);
    assert_eq!(isqrt(16), 4);
    assert_eq!(isqrt(u64::MAX), 0xFFFF_FFFF);
}

#[test]
fn divider_32_bit_mode() {
    let mut acc = Accelerators::new();
    acc.write_word(0x0400_0290, (-7i32) as u32);
    acc.write_word(0x0400_0294, 0xFFFF_FFFF);
    acc.write_word(0x0400_0298, 2);
    assert_eq!(acc.read_word(0x0400_02A0) as i32, -3);
    assert_eq!(acc.read_word(0x0400_02A8) as i32, -1);
    assert_ne!(acc.read_word(0x0400_0280) & DIV_BUSY, 0);
    acc.clock(18);
    assert_eq!(acc.read_word(0x0400_0280) & DIV_BUSY, 0);
    assert_eq!(acc.read_word(0x0400_0280) & DIV_BY_ZERO, 0);
}

#[test]
fn divider_by_zero_sets_flag() {
    let mut acc = Accelerators::new();
    acc.write_word(0x0400_0290, 5);
    assert_eq!(acc.read_word(0x0400_02A8), 5);
    assert_eq!(acc.read_word(0x0400_02A0), 0);
    assert_eq!(acc.read_word(0x0400_02A4), 0xFFFF_FFFF);
    acc.write_word(0x0400_0280, 2);
    acc.write_word(0x0400_029C, 0);
    assert_eq!(acc.read_word(0x0400_0280) & 3, 2);
}

#[test]
fn square_root_unit() {
    let mut acc = Accelerators::new();
    acc.write_word(0x0400_02B8, 1_000_000);
    assert_eq!(acc.read_word(0x0400_02B4), 1000);
    assert_ne!(acc.read_word(0x0400_02B0) & SQRT_BUSY, 0);
    acc.clock(13);
    assert_eq!(acc.read_word(0x0400_02B0) & SQRT_BUSY, 0);
    acc.write_word(0x0400_02BC, 1);
    // 32-bit mode: the high word is ignored.
    assert_eq!(acc.read_word(0x0400_02B4), 1000);
    acc.write_word(0x0400_02B0, 1);
    assert_eq!(acc.read_word(0x0400_02B4), isqrt(0x1_000F_4240));
}

#[test]
fn square_root_goes_through_a_float() {
    let mut samples: Vec<u64> = vec![
        0,
        1,
        2,
        3,
        4,
        15,
        16,
        1 << 52,
        (1 << 53) - 1,
        1 << 53,
        (1 << 53) + 1,
        0xFFFF_FFFE_0000_0000,
        0xFFFF_FFFE_0000_0001,
        0xFFFF_FFFF_FFFF_FFFF,
        0xFFFF_FFFF_0000_0000,
        0xFFFF_FFFD_0000_0003,
        0x8000_0000_0000_0000,
        0x7FFF_FFFF_FFFF_FFFF,
    ];
    for k in [0x1234_5678u64, 0xFFFF_FFFF, 0x8000_0000, 0x4000_0001, 0x1F_FFFF] {
        for d in 0..4u64 {
            samples.push((k * k).wrapping_sub(d));
            samples.push((k * k).wrapping_add(d));
        }
    }
    let mut x: u64 = 0x9E37_79B9_7F4A_7C15;
    for _ in 0..20000 {
        x ^= x << 13;
        x ^= x >> 7;
        x ^= x << 17;
        samples.push(x);
        samples.push(x >> (x % 64));
    }
    for v in samples {
        assert_eq!(float_sqrt(v), (v as f64).sqrt() as u32, "root of {:#x}", v);
    }
    assert_eq!(float_sqrt(0xFFFF_FFFE_0000_0000), 0xFFFF_FFFF);
    let mut acc = Accelerators::new();
    acc.write_word(0x0400_02B0, 1);
    acc.write_word(0x0400_02B8, 0);
    acc.write_word(0x0400_02BC, 0xFFFF_FFFE);
    assert_eq!(acc.read_word(0x0400_02B4), 0xFFFF_FFFF);
}
