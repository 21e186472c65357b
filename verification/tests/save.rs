use spa::card::save::eeprom::{is_common_command, read_fits, write_fits, LargeEEPROM, MediumEEPROM, SmallEEPROM, State, STATUS_SMALL, STATUS_WRITE_ENABLE};
use spa::card::save::file::{SaveFile, SaveType};
use spa::card::save::{SaveKind, UnknownDevice, SPI};

fn write_all(spi: &mut SPI, bytes: &[u8]) {
    for &b in bytes {
        assert!(spi.can_write(b));
        spi.write(b);
    }
}

#[test]
fn large_eeprom_write_then_read() {
    let mut chip = LargeEEPROM::new(false);
    for b in [0x06u8, 0x02, 0x01, 0x23, 0x45, 0xAA, 0xBB] {
        chip.write_byte(b);
    }
    chip.deselect();
    for b in [0x03u8, 0x01, 0x23, 0x45, 0x00] {
        chip.write_byte(b);
    }
    assert_eq!(chip.read_byte(), 0xAA);
    assert_eq!(chip.read_byte(), 0xBB);
    assert_eq!(chip.read_byte(), 0x00);
    chip.deselect();
    let img = chip.flush().unwrap();
    assert_eq!(img.len(), 128 * 1024);
    assert_eq!(img[0x12345], 0xAA);
    assert!(chip.flush().is_none());
}

#[test]
fn eeprom_status_register() {
    let mut chip = MediumEEPROM::new(false);
    chip.write_byte(0x06);
    chip.write_byte(0x05);
    chip.write_byte(0x00);
    assert_eq!(chip.read_byte(), STATUS_WRITE_ENABLE);
    chip.deselect();
    chip.write_byte(0x04);
    chip.write_byte(0x05);
    chip.write_byte(0x00);
    assert_eq!(chip.read_byte(), 0);
}

#[test]
fn small_eeprom_upper_half_by_command() {
    let mut chip = SmallEEPROM::new(true);
    for b in [0x0Au8, 0x10, 0x77] {
        chip.write_byte(b);
    }
    chip.deselect();
    for b in [0x0Bu8, 0x10, 0x00] {
        chip.write_byte(b);
    }
    assert_eq!(chip.read_byte(), 0x77);
    chip.deselect();
    chip.write_byte(0x05);
    chip.write_byte(0x00);
    assert_eq!(chip.read_byte(), STATUS_SMALL | STATUS_WRITE_ENABLE);
    let img = chip.flush().unwrap();
    assert_eq!(img[0x110], 0x77);
}

#[test]
fn eeprom_from_file_keeps_image() {
    let mut image = vec![0u8; 64 * 1024];
    image[0x1234] = 9;
    let mut chip = MediumEEPROM::new_from_file(SaveFile::from_file(image));
    for b in [0x03u8, 0x12, 0x34, 0x00] {
        chip.write_byte(b);
    }
    assert_eq!(chip.read_byte(), 9);
    assert!(chip.flush().is_none());
    let small = SmallEEPROM::new_from_file(SaveFile::from_file(vec![0; 512]));
    assert!(small.state == State::Idle);
}

#[test]
fn range_checks() {
    assert!(write_fits(State::Write(3), 4));
    assert!(!write_fits(State::Write(4), 4));
    assert!(write_fits(State::Idle, 0));
    assert!(read_fits(State::Read(9), false, 4));
    assert!(!read_fits(State::Read(9), true, 4));
    assert!(is_common_command(0x03));
    assert!(!is_common_command(0x0B));
}

#[test]
fn unknown_device_learns_three_byte_address() {
    let mut spi = SPI::new(None);
    assert!(spi.save_type().is_none());
    write_all(&mut spi, &[0x03, 0x00, 0x00, 0x00, 0x00]);
    assert!(spi.can_read());
    assert_eq!(spi.read(), 0);
    spi.deselect();
    write_all(&mut spi, &[0x06]);
    spi.deselect();
    write_all(&mut spi, &[0x02, 0x00, 0x00, 0x10, 0x5A]);
    spi.deselect();
    assert!(spi.save_type() == Some(SaveType::EEPROM(128 * 1024)));
    let img = spi.flush().unwrap();
    assert_eq!(img[0x10], 0x5A);
}

#[test]
fn unknown_device_learns_one_byte_address() {
    let mut spi = SPI::new(None);
    write_all(&mut spi, &[0x03, 0x00, 0x00]);
    spi.deselect();
    write_all(&mut spi, &[0x02, 0x20, 0x11]);
    spi.deselect();
    assert!(spi.save_type() == Some(SaveType::SmallEEPROM(512)));
    // The chip was made with writes disabled; the write still lands.
    let img = spi.flush().unwrap();
    assert_eq!(img[0x20], 0x11);
}

#[test]
fn unknown_device_read_command_with_ninth_bit_is_small() {
    let mut spi = SPI::new(None);
    write_all(&mut spi, &[0x0B, 0x00, 0x00]);
    assert!(spi.save_type() == Some(SaveType::SmallEEPROM(512)));
}

#[test]
fn unknown_device_flash_is_recognised() {
    let mut spi = SPI::new(None);
    write_all(&mut spi, &[0x03, 0x00, 0x00, 0x00, 0x00]);
    spi.deselect();
    write_all(&mut spi, &[0x0A]);
    assert!(spi.save_type() == Some(SaveType::FLASH(0)));
}

#[test]
fn unknown_write_needs_a_hint() {
    let spi = SPI::new(None);
    assert!(!spi.can_write(0x02));
    assert!(spi.can_write(0x03));
    let mut dev = UnknownDevice::new();
    dev.write_byte(0x01);
    assert!(dev.write_byte(0xF0).is_none());
    dev.deselect();
    assert!(dev.write_byte(0x02) == Some(SaveKind::Small));
}

#[test]
fn save_bus_from_file() {
    let spi = SPI::new(Some((SaveType::EEPROM(64 * 1024), vec![0; 64 * 1024])));
    assert!(spi.save_type() == Some(SaveType::EEPROM(64 * 1024)));
    let spi = SPI::new(Some((SaveType::FLASH(256 * 1024), vec![0; 256 * 1024])));
    assert!(spi.save_type() == Some(SaveType::FLASH(256 * 1024)));
    let mut spi = SPI::new(Some((SaveType::SmallEEPROM(512), vec![3; 512])));
    write_all(&mut spi, &[0x03, 0x05, 0x00]);
    assert_eq!(spi.read(), 3);
    assert!(spi.flush().is_none());
}

#[test]
fn large_eeprom_writes_without_the_enable_bit() {
    let mut chip = LargeEEPROM::new(false);
    for b in [0x02u8, 0x01, 0xFF, 0xFA, 1, 2, 3, 4] {
        chip.write_byte(b);
    }
    assert!(chip.state == State::Write(0x1_FFFE));
    assert_eq!(chip.file.buffer[0x1_FFF9], 0);
    assert_eq!(&chip.file.buffer[0x1_FFFA..0x1_FFFE], &[1, 2, 3, 4]);
    assert_eq!(chip.file.buffer[0x1_FFFE], 0);
}
