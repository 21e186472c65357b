use spa::video::memory::mapping::DSVideoMemory;
use spa::video::memory::VRAMRegion;

#[test]
fn banks_start_in_the_arm9_range() {
    let mut m = DSVideoMemory::new();
    for r in 0..9 {
        assert_eq!(m.get_cnt(VRAMRegion::from_index(r).unwrap()), 0);
    }
    m.write_word_vram(0x0680_0000, 0x1122_3344);
    assert_eq!(m.read_word_vram(0x0680_0000), 0x1122_3344);
    assert_eq!(m.read_halfword_vram(0x0680_0002), 0x1122);
    m.write_byte_vram(0x068A_3FFF, 9);
    assert_eq!(m.read_byte_vram(0x068A_3FFF), 9);
    // Nothing is mapped to engine A yet.
    assert_eq!(m.read_word_vram(0x0600_0000), 0);
    m.write_word_vram(0x0600_0000, 5);
    assert_eq!(m.read_word_vram(0x0600_0000), 0);
    // Beyond the last bank nothing answers.
    assert_eq!(m.read_byte_vram(0x068A_4000), 0);
}

#[test]
fn mapping_a_bank_moves_its_contents() {
    let mut m = DSVideoMemory::new();
    m.write_halfword_vram(0x0680_0010, 0xBEEF);
    m.set_cnt(VRAMRegion::A, 0x81);
    assert_eq!(m.get_cnt(VRAMRegion::A), 0x81);
    assert_eq!(m.read_halfword_vram(0x0600_0010), 0xBEEF);
    assert_eq!(m.read_halfword_vram(0x0680_0010), 0);
    // Engine A's background window repeats every 512K.
    assert_eq!(m.read_halfword_vram(0x0608_0010), 0xBEEF);
    m.write_halfword_vram(0x0600_0020, 0x1234);
    m.set_cnt(VRAMRegion::A, 0x80);
    assert_eq!(m.read_halfword_vram(0x0680_0020), 0x1234);
    assert_eq!(m.read_halfword_vram(0x0600_0020), 0);
}

#[test]
fn a_bank_mapped_over_another_sends_it_back() {
    let mut m = DSVideoMemory::new();
    m.write_byte_vram(0x0680_0000, 0xAA);
    m.write_byte_vram(0x0682_0000, 0xBB);
    m.set_cnt(VRAMRegion::A, 0x81);
    m.set_cnt(VRAMRegion::B, 0x81);
    assert_eq!(m.read_byte_vram(0x0600_0000), 0xBB);
    assert_eq!(m.read_byte_vram(0x0680_0000), 0xAA);
    assert_eq!(m.read_byte_vram(0x0682_0000), 0);
    // Writing the same control again changes nothing.
    m.set_cnt(VRAMRegion::B, 0x81);
    assert_eq!(m.read_byte_vram(0x0600_0000), 0xBB);
}

#[test]
fn small_banks_repeat_within_their_window() {
    let mut m = DSVideoMemory::new();
    m.write_byte_vram(0x0688_0010, 0x5A);
    m.set_cnt(VRAMRegion::E, 0x81);
    assert_eq!(m.read_byte_vram(0x0600_0010), 0x5A);
    assert_eq!(m.read_byte_vram(0x0601_0010), 0x5A);
    // A 16K bank at engine A's second background slot overlays the first.
    m.write_byte_vram(0x0689_0000, 0x77);
    m.set_cnt(VRAMRegion::F, 0x89);
    m.set_cnt(VRAMRegion::G, 0x81);
    assert_eq!(m.get_cnt(VRAMRegion::G), 0x81);
}

#[test]
fn arm7_and_engine_b_slots() {
    let mut m = DSVideoMemory::new();
    m.write_byte_vram(0x0684_0004, 0x42);
    m.set_cnt(VRAMRegion::C, 0x84);
    assert_eq!(m.read_byte_vram(0x0620_0004), 0x42);
    m.set_cnt(VRAMRegion::C, 0x82);
    assert_eq!(m.read_byte_vram(0x0620_0004), 0);
    assert!(m.arm7_mem.c.is_some());
    m.set_cnt(VRAMRegion::D, 0x84);
    m.write_word_vram(0x0660_0008, 0xCAFE_F00D);
    assert_eq!(m.read_word_vram(0x0660_0008), 0xCAFE_F00D);
}

#[test]
fn palette_and_object_memory_of_two_engines() {
    let mut m = DSVideoMemory::new();
    m.write_halfword_palette(0x002, 0x7FFF);
    m.write_halfword_palette(0x402, 0x001F);
    assert_eq!(m.read_halfword_palette(0x002), 0x7FFF);
    assert_eq!(m.read_halfword_palette(0x402), 0x001F);
    assert_eq!(m.read_byte_palette(0x403), 0x00);
    m.write_word_palette(0x7FC, 0x1234_5678);
    assert_eq!(m.read_word_palette(0x7FC), 0x1234_5678);
    m.write_byte_oam(0x10, 3);
    m.write_word_oam(0x410, 0xFFFF_0000);
    assert_eq!(m.read_byte_oam(0x10), 3);
    assert_eq!(m.read_halfword_oam(0x412), 0xFFFF);
    assert_eq!(m.read_word_oam(0x10), 3);
    m.write_halfword_oam(0x0, 0xABCD);
    assert_eq!(m.read_halfword_oam(0x0), 0xABCD);
    m.write_byte_palette(0x5, 1);
    assert_eq!(m.read_byte_palette(0x5), 1);
    m.write_power_cnt(0x8203);
    assert_eq!(m.read_power_cnt(), 0x8203);
}
