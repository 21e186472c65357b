use spa::card::crypto::{key1_from_bios, key_1_decrypt, key_1_encrypt, key_1_init, key_2_encrypt, KEY1_BIOS_OFFSET, KEY1_BUF_LEN};
use spa::card::header::CardHeader;
use spa::card::key2seed::key2_seed;
use spa::card::save::file::{type_from_header, SaveFile, SaveType};

fn key_buffer() -> Vec<u32> {
    let mut x: u32 = 0x1234_5678;
    (0..KEY1_BUF_LEN)
        .map(|_| {
            x = x.wrapping_mul(1_103_515_245).wrapping_add(12345);
            x
        })
        .collect()
}

#[test]
fn key1_known_block() {
    let kb = key_buffer();
    assert_eq!(kb[0], 191_992_145);
    assert_eq!(key_1_encrypt(0x0123_4567_89AB_CDEF, &kb), 0xC75B_C2D4_B76E_82E6);
    assert_eq!(key_1_decrypt(0xC75B_C2D4_B76E_82E6, &kb), 0x0123_4567_89AB_CDEF);
}

#[test]
fn key1_decrypt_undoes_encrypt() {
    let kb = key_buffer();
    for block in [0u64, 1, u64::MAX, 0x6A62_4F79_7263_6E65] {
        assert_eq!(key_1_decrypt(key_1_encrypt(block, &kb), &kb), block);
    }
}

#[test]
fn key1_level2_init() {
    let kb = key_buffer();
    let k = key_1_init(0x4A4B_4C41, &kb);
    assert_eq!(k.len(), KEY1_BUF_LEN);
    assert_eq!(k[0], 0xD263_13F1);
    assert_eq!(k[1], 0x5520_C773);
    assert_eq!(k[0x411], 0xA4D5_7111);
}

#[test]
fn key2_stream_byte() {
    assert_eq!(key_2_encrypt(0x5A, 0x58_C56D_E0E8, 0x5C_879B_9B05), (137, 298_196_199_515, 32_675_399_048));
    // Two streams in the same state encrypt and decrypt.
    let (c, x, y) = key_2_encrypt(0x33, 0x1234, 0x5678);
    let (p, x2, y2) = key_2_encrypt(c, 0x1234, 0x5678);
    assert_eq!(x, x2);
    assert_eq!(y, y2);
    assert_eq!(p, 0x33);
}

#[test]
fn key2_seeds_are_bit_reversed() {
    assert_eq!(key2_seed(&[0xE8, 0xE0, 0x6D, 0xC5, 0x58, 0, 0, 0]), 0xB_83DB_518D);
    assert_eq!(key2_seed(&[0x05, 0x9B, 0x9B, 0x87, 0x5C, 0, 0, 0]), 0x50_6CEC_F09D);
    assert_eq!(key2_seed(&[0; 8]), 0);
    assert_eq!(key2_seed(&[0, 0, 0, 0, 0x40, 0, 0, 0]), 1);
}

#[test]
fn header_fields() {
    let mut data = vec![0u8; 0x200];
    data[..12].copy_from_slice(b"POKEMON D\0\0\0");
    data[0x20..0x24].copy_from_slice(&0x4000u32.to_le_bytes());
    data[0x24..0x28].copy_from_slice(&0x0200_0800u32.to_le_bytes());
    data[0x28..0x2C].copy_from_slice(&0x0200_0000u32.to_le_bytes());
    data[0x2C..0x30].copy_from_slice(&0x1234u32.to_le_bytes());
    data[0x30..0x34].copy_from_slice(&0x8000u32.to_le_bytes());
    data[0x34..0x38].copy_from_slice(&0x0238_0000u32.to_le_bytes());
    data[0x38..0x3C].copy_from_slice(&0x0237_F800u32.to_le_bytes());
    data[0x3C..0x40].copy_from_slice(&0x5678u32.to_le_bytes());
    data[0x60..0x64].copy_from_slice(&0x0041_6657u32.to_le_bytes());
    data[0x68..0x6C].copy_from_slice(&0x0009_0000u32.to_le_bytes());
    let h = CardHeader::new(data);
    assert_eq!(h.game_name(), "POKEMON D\0\0\0");
    assert_eq!(h.arm9_rom_offset(), 0x4000);
    assert_eq!(h.arm9_entry_addr(), 0x0200_0800);
    assert_eq!(h.arm9_ram_addr(), 0x0200_0000);
    assert_eq!(h.arm9_size(), 0x1234);
    assert_eq!(h.arm7_rom_offset(), 0x8000);
    assert_eq!(h.arm7_entry_addr(), 0x0238_0000);
    assert_eq!(h.arm7_ram_addr(), 0x0237_F800);
    assert_eq!(h.arm7_size(), 0x5678);
    assert_eq!(h.rom_ctrl(), 0x0041_6657);
    assert_eq!(h.icon_title_offset(), 0x0009_0000);
    assert_eq!(h.get_u32(0), u32::from_le_bytes(*b"POKE"));
    assert_eq!(h.as_slice().len(), 0x200);
}

#[test]
fn save_header_text() {
    assert_eq!(SaveType::EEPROM(65536).to_buffer(), b"E0000064".to_vec());
    assert_eq!(SaveType::SmallEEPROM(512).to_buffer(), b"S0000512".to_vec());
    assert_eq!(SaveType::FLASH(256 * 1024).to_buffer(), b"F0000256".to_vec());
}

#[test]
fn save_header_parsing() {
    assert!(type_from_header(b"E0000064") == Some(SaveType::EEPROM(65536)));
    assert!(type_from_header(b"F+000512") == Some(SaveType::FLASH(512 * 1024)));
    assert!(type_from_header(b"F0000256xyz") == Some(SaveType::FLASH(256 * 1024)));
    // The small EEPROM code reads back as an EEPROM of that many bytes.
    assert!(type_from_header(b"S0000512") == Some(SaveType::EEPROM(512)));
    assert!(type_from_header(b"X0000512") == None);
    assert!(type_from_header(b"E00A0064") == None);
    assert!(type_from_header(b"E000006") == None);
}

#[test]
fn save_file_tracks_changes() {
    let mut f = SaveFile::from_type(SaveType::EEPROM(8 * 1024));
    assert_eq!(f.read_byte(100), 0);
    assert!(f.flush().is_none());
    f.write_byte(100, 0x42);
    assert_eq!(f.read_byte(100), 0x42);
    let out = f.flush().unwrap();
    assert_eq!(out.len(), 8 * 1024);
    assert_eq!(out[100], 0x42);
    assert!(f.flush().is_none());
    let g = SaveFile::from_file(vec![1, 2, 3]);
    assert_eq!(g.read_byte(2), 3);
}

#[test]
fn key1_encrypt_undoes_decrypt() {
    let kb = key_buffer();
    for block in [0u64, 1, 0x0123_4567_89AB_CDEF, u64::MAX, 0xFFFF_FFFE_0000_0000] {
        assert_eq!(key_1_encrypt(key_1_decrypt(block, &kb), &kb), block);
        assert_eq!(key_1_decrypt(key_1_encrypt(block, &kb), &kb), block);
    }
}

#[test]
fn key1_table_is_read_little_endian_from_the_bios() {
    let bios: Vec<u8> = (0..0x4000usize).map(|i| (i * 7 + 3) as u8).collect();
    let key = key1_from_bios(&bios);
    assert_eq!(key.len(), KEY1_BUF_LEN);
    for (n, w) in key.iter().enumerate() {
        let a = KEY1_BIOS_OFFSET + 4 * n;
        assert_eq!(*w, u32::from_le_bytes([bios[a], bios[a + 1], bios[a + 2], bios[a + 3]]));
    }
    // 0x30..0x34 holds 0x53, 0x5A, 0x61, 0x68.
    assert_eq!(key[0], 0x6861_5A53);
}
