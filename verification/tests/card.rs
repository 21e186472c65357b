use spa::card::{CommandEncryptMode, DSCard, DSCardDataState, DESTROYED, ENCRY_OBJ, ROM_BUFFER_SIZE};
use spa::card::save::file::SaveType;
use spa::interrupt::INT_CARD_COMPLETE;

fn rom_block() -> Vec<u8> {
    (0..ROM_BUFFER_SIZE).map(|i| (i % 251) as u8).collect()
}

fn new_card() -> DSCard {
    let mut rom = rom_block();
    rom[0x12] = 0;
    DSCard::new(rom, 16 * 0x10_0000, None)
}

fn write_command(card: &mut DSCard, bytes: [u8; 8]) {
    for (i, b) in bytes.iter().enumerate() {
        card.write_byte(0x0400_01A8 + i as u32, *b);
    }
}

#[test]
fn card_id_follows_rom_size() {
    let card = new_card();
    assert_eq!(card.rom_id_word(), 0x0000_0FC2);
    let mut rom = rom_block();
    rom[0x12] = 2;
    let dsi = DSCard::new(rom, 255 * 0x10_0000, None);
    assert_eq!(dsi.rom_id_word(), 0xC000_FEC2);
}

#[test]
fn id_command_over_the_bus() {
    let mut card = new_card();
    card.write_byte(0x0400_01A1, 0xC0);
    write_command(&mut card, [0x90, 0, 0, 0, 0, 0, 0, 0]);
    // Start, four bytes.
    card.write_word(0x0400_01A4, 0x8700 << 16, 0);
    assert!(card.data_state == DSCardDataState::ID);
    let (irq, dma) = card.clock(99);
    assert_eq!(irq.bits(), 0);
    assert!(!dma);
    let (_, dma) = card.clock(1);
    assert!(dma);
    assert_ne!(card.read_word(0x0400_01A4) & 0x0080_0000, 0);
    assert_eq!(card.read_word(0x0410_0010), 0x0000_0FC2);
    // The transfer completed: start and ready bits clear, interrupt raised.
    assert_eq!(card.read_word(0x0400_01A4) & 0x8080_0000, 0);
    let (irq, _) = card.clock(1);
    assert_eq!(irq.bits(), INT_CARD_COMPLETE);
    let (irq, _) = card.clock(1);
    assert_eq!(irq.bits(), 0);
}

#[test]
fn header_read_gives_image_bytes() {
    let mut card = new_card();
    write_command(&mut card, [0x00, 0, 0, 0, 0, 0, 0, 0]);
    card.write_halfword(0x0400_01A6, 0x8100, 0);
    card.clock(100);
    let w0 = card.read_word(0x0410_0010);
    let w1 = card.read_word(0x0410_0010);
    assert_eq!(w0, u32::from_le_bytes([0, 1, 2, 3]));
    assert_eq!(w1, u32::from_le_bytes([4, 5, 6, 7]));
    assert_eq!(card.read_halfword(0x0410_0010), 0x0908);
}

#[test]
fn key1_mode_secure_area() {
    let mut card = new_card();
    write_command(&mut card, [0x3C, 0, 0, 0, 0, 0, 0, 0]);
    card.write_word(0x0400_01A4, 0x8000 << 16, 0);
    assert!(card.cmd_encrypt_mode == CommandEncryptMode::Key1);
    // KEY1 command 2 for block 4, given decrypted.
    card.write_word(0x0400_01A4, 0x10 | (0x8100 << 16), 0x2000_4000_0000_0000);
    assert!(card.data_state == DSCardDataState::SecureBlock);
    assert_eq!(card.read_addr, 0x4000);
    assert_eq!(card.take_load_request(), Some(1));
    assert_eq!(card.take_load_request(), None);
    let mut block = vec![0u8; ROM_BUFFER_SIZE as usize];
    block[..8].copy_from_slice(&DESTROYED.to_le_bytes());
    block[8] = 0x99;
    assert!(card.set_rom_buffer(block));
    assert_eq!(card.secure_block(0), ENCRY_OBJ);
    card.set_secure_block(1, 0x1122_3344_5566_7788);
    assert_eq!(card.secure_block(1), 0x1122_3344_5566_7788);
    card.clock(0x10 * 5);
    assert_eq!(card.read_word(0x0410_0010), u32::from_le_bytes(*b"encr"));
}

#[test]
fn key1_id_and_unencrypted_blocks_are_not_marked() {
    let mut card = new_card();
    write_command(&mut card, [0x3C, 0, 0, 0, 0, 0, 0, 0]);
    card.write_word(0x0400_01A4, 0x8000 << 16, 0);
    card.write_word(0x0400_01A4, 0x8700 << 16, 0x1000_0000_0000_0000);
    assert!(card.data_state == DSCardDataState::Key1ID);
    assert_eq!(card.read_word(0x0410_0010), 0x0000_0FC2);
    assert!(!card.set_rom_buffer(vec![0; ROM_BUFFER_SIZE as usize]));
}

#[test]
fn key2_seeds_apply() {
    let mut card = new_card();
    card.write_halfword(0x0400_01A4, 0x8000, 0);
    assert_eq!(card.key2_0, 0xB_83DB_518D);
    assert_eq!(card.key2_1, 0x50_6CEC_F09D);
    card.write_byte(0x0400_01B8, 0xFF);
    assert_eq!(card.seed_0[4], 0x7F);
}

#[test]
fn key2_data_read_requests_block() {
    let mut card = new_card();
    card.fast_boot(0x0058_6000);
    assert!(card.cmd_encrypt_mode == CommandEncryptMode::Key2);
    write_command(&mut card, [0xB7, 0x00, 0x00, 0x90, 0x00, 0, 0, 0]);
    card.write_halfword(0x0400_01A6, 0x8140, 0);
    assert_eq!(card.read_addr, 0x9000);
    assert_eq!(card.take_load_request(), Some(2));
    // Below 0x8000 a read is redirected into the first block after it.
    write_command(&mut card, [0xB7, 0x00, 0x00, 0x12, 0x34, 0, 0, 0]);
    card.write_halfword(0x0400_01A6, 0x8140, 0);
    assert_eq!(card.read_addr, 0x8000 + 0x1234 % 0x200);
}

#[test]
fn save_chip_behind_card_spi() {
    let mut rom = rom_block();
    rom[0x12] = 0;
    let mut card = DSCard::new(rom, 0x10_0000, Some((SaveType::EEPROM(64 * 1024), vec![7; 64 * 1024])));
    card.write_halfword(0x0400_01A0, 0xA040, 0);
    for b in [0x03u16, 0x00, 0x10, 0x00] {
        card.write_halfword(0x0400_01A2, b, 0);
    }
    assert_eq!(card.read_halfword(0x0400_01A2), 7);
    assert!(card.flush_save().is_none());
}

#[test]
fn command_halfwords_fill_from_the_top() {
    let mut card = new_card();
    card.write_halfword(0x0400_01A8, 0x1290, 0);
    card.write_halfword(0x0400_01AA, 0x5634, 0);
    card.write_halfword(0x0400_01AC, 0x9A78, 0);
    card.write_halfword(0x0400_01AE, 0xDEBC, 0);
    assert_eq!(u64::from_le_bytes(card.command), 0x9012_3456_789A_BCDE);
    assert_eq!(card.command[7], 0x90);
}
