use spa::spi::firmware::Firmware;
use spa::spi::power::PowerManager;
use spa::spi::touchscreen::Touchscreen;
use spa::spi::{SPI, SPI_CHIP_HOLD, SPI_ENABLE};

fn image() -> Vec<u8> {
    (0..64u32).map(|i| (i * 3) as u8).collect()
}

#[test]
fn firmware_read_command_streams_bytes() {
    let mut spi = SPI::new(Firmware::new(image()));
    spi.write_halfword(0, SPI_ENABLE | SPI_CHIP_HOLD | 0x100);
    assert_eq!(spi.read_word(0), (SPI_ENABLE | SPI_CHIP_HOLD | 0x100) as u32);
    spi.write_halfword(2, 0x03);
    spi.write_halfword(2, 0x00);
    spi.write_halfword(2, 0x00);
    spi.write_halfword(2, 0x05);
    spi.write_halfword(2, 0);
    assert_eq!(spi.read_halfword(2), 15);
    spi.write_halfword(2, 0);
    assert_eq!(spi.read_halfword(2), 18);
    // Releasing the chip select ends the command.
    spi.write_halfword(0, SPI_ENABLE | 0x100);
    assert_eq!(spi.read_halfword(2), 18);
    spi.write_halfword(2, 0x05);
    spi.write_halfword(2, 0);
    assert_eq!(spi.read_halfword(2), 0);
}

#[test]
fn firmware_status_reports_write_enable() {
    let mut fw = Firmware::new(image());
    fw.write(0x06);
    assert!(fw.can_write);
    fw.write(0x05);
    fw.write(0);
    assert_eq!(fw.read(), 1);
    fw.deselect();
    fw.write(0x04);
    assert!(!fw.can_write);
}

#[test]
fn power_manager_register_write_and_read() {
    let mut spi = SPI::new(Firmware::new(Vec::new()));
    spi.write_halfword(0, SPI_ENABLE | SPI_CHIP_HOLD);
    spi.write_halfword(2, 0x00);
    spi.write_halfword(2, 0xFF);
    spi.write_halfword(0, SPI_ENABLE);
    spi.read_halfword(2);
    spi.write_halfword(0, SPI_ENABLE | SPI_CHIP_HOLD);
    spi.write_halfword(2, 0x80);
    spi.write_halfword(2, 0x00);
    assert_eq!(spi.read_halfword(2), 0x7F);
    // The value can be read once.
    assert_eq!(spi.read_halfword(2), 0);
}

#[test]
fn power_manager_microphone_registers() {
    let mut pm = PowerManager::new();
    pm.write(0x02);
    pm.write(0x01);
    pm.deselect();
    pm.write(0x03);
    pm.write(0xFF);
    pm.deselect();
    pm.write(0x82);
    pm.write(0);
    assert_eq!(pm.read(), 1);
    pm.deselect();
    pm.write(0x83);
    pm.write(0);
    assert_eq!(pm.read(), 3);
}

#[test]
fn touchscreen_sends_twelve_bits_in_two_reads() {
    let mut spi = SPI::new(Firmware::new(Vec::new()));
    spi.touchscreen.write_tsc_coords(Some((0x123, 0x456)));
    spi.write_halfword(0, SPI_ENABLE | SPI_CHIP_HOLD | 0x200);
    spi.write_halfword(2, 0xD0);
    assert_eq!(spi.read_halfword(2), 0x18);
    assert_eq!(spi.read_halfword(2), 0x09);
    spi.write_halfword(2, 0x90);
    assert_eq!(spi.read_halfword(2), ((0x456 % 0x20) * 8) as u16);
    assert_eq!(spi.read_halfword(2), (0x456 / 0x20) as u16);
}

#[test]
fn touchscreen_release_and_aux() {
    let mut ts = Touchscreen::new();
    ts.write_tsc_coords(None);
    ts.write(0xD0);
    assert_eq!(ts.read(), 0);
    assert_eq!(ts.read(), 0);
    ts.write_aux_value(0xFFF);
    ts.write(0xE0);
    assert_eq!(ts.read(), 0xF8);
    assert_eq!(ts.read(), 0x7F);
    ts.deselect();
    assert_eq!(ts.read(), 0);
}
