use spa::video::memory::control::{EngineA, EngineB, Slot, Texture, VRAMControl, ARM7};
use spa::video::memory::vram::{ARM7VRAM, ARM9VRAM, EngineAVRAM, EngineBVRAM, VRAM_STATUS_C};
use spa::video::memory::VRAMRegion;
use spa::ram::Ram;

#[test]
fn region_index_roundtrip() {
    for i in 0..9 {
        assert_eq!(VRAMRegion::from_index(i).unwrap().index(), i);
    }
    assert!(VRAMRegion::from_index(9).is_none());
    assert_eq!(VRAMRegion::E.index(), 4);
}

#[test]
fn bank_slots_by_master_select() {
    let c = |bits: u8| VRAMControl { bits };
    assert!(c(0x80).get_slot(VRAMRegion::A) == Slot::LCDC(VRAMRegion::A));
    assert!(c(0x81).get_slot(VRAMRegion::B) == Slot::EngineA(EngineA::Bg0));
    assert!(c(0x82).slot_ab(VRAMRegion::A) == Slot::EngineA(EngineA::Obj0));
    assert!(c(0x83).slot_ab(VRAMRegion::A) == Slot::Texture(Texture::Tex0));
    assert!(c(0x82).slot_c() == Slot::ARM7(ARM7::Lo));
    assert!(c(0x8A).slot_c() == Slot::ARM7(ARM7::Hi));
    assert!(c(0x84).slot_c() == Slot::EngineB(EngineB::Bg0));
    assert!(c(0x84).slot_d() == Slot::EngineB(EngineB::Obj));
    assert!(c(0x84).slot_e() == Slot::EngineA(EngineA::BgExtPalette0));
    assert!(c(0x85).slot_fg(VRAMRegion::F) == Slot::EngineA(EngineA::ObjExtPalette));
    assert!(c(0x83).slot_fg(VRAMRegion::G) == Slot::Texture(Texture::Palette0));
    assert!(c(0x82).slot_h() == Slot::EngineB(EngineB::BgExtPalette));
    assert!(c(0x83).slot_i() == Slot::EngineB(EngineB::ObjExtPalette));
    assert!(c(0x80).slot_i() == Slot::LCDC(VRAMRegion::I));
    // The offset field is compared as it stands in the register.
    assert!(c(0x89).slot_ab(VRAMRegion::A) == Slot::EngineA(EngineA::Bg3));
}

#[test]
fn new_vram_is_all_at_the_arm9() {
    let (arm9, arm7, a, b) = ARM9VRAM::new();
    assert!(arm9.lcdc.iter().all(|s| s.is_some()));
    assert_eq!(arm9.lcdc[4].as_ref().unwrap().len(), 64 * 1024);
    assert_eq!(arm7.get_status(), 0);
    assert!(a.lookup_bg(0).is_none());
    assert!(a.lookup_obj(0).is_none());
    assert!(b.lookup_bg(0).is_none());
}

#[test]
fn arm7_vram_banks() {
    let mut arm7 = ARM7VRAM::new();
    assert_eq!(arm7.read_halfword(0x0600_0000), 0);
    arm7.mem.c = Some(Ram::new(128 * 1024));
    assert_eq!(arm7.get_status(), VRAM_STATUS_C);
    arm7.write_halfword(0x0600_0010, 0xBEEF);
    assert_eq!(arm7.read_halfword(0x0600_0010), 0xBEEF);
    arm7.write_halfword(0x0602_0010, 0x1234);
    assert_eq!(arm7.read_halfword(0x0602_0010), 0);
}

#[test]
fn engine_a_small_banks_overlay_the_first() {
    let mut a = EngineAVRAM::new();
    a.bg_slot_0 = Some(Ram::new(128 * 1024));
    a.bg_slot_01 = Some(Ram::new(16 * 1024));
    let (_, off) = a.lookup_bg(0x100).unwrap();
    assert_eq!(off, 0);
    let (ram, off) = a.lookup_bg(0x4010).unwrap();
    assert_eq!(off, 0x4000);
    assert_eq!(ram.len(), 16 * 1024);
    if let Some((ram, off)) = a.lookup_bg_mut(0x4010) {
        ram.write_byte(0x4010 - off, 9);
    }
    assert_eq!(a.bg_slot_01.as_ref().unwrap().read_byte(0x10), 9);
    assert!(a.lookup_obj_mut(0).is_none());
}

#[test]
fn engine_b_lookup() {
    let mut b = EngineBVRAM::new();
    b.bg_slot_0 = Some(Ram::new(128 * 1024));
    assert_eq!(b.lookup_bg(0x100).unwrap().1, 0);
    assert!(b.lookup_bg_mut(0x2_0000).is_none());
}

#[test]
fn slot_ignores_enable_bit() {
    for bits in 0..=0x7Fu8 {
        for region in [VRAMRegion::A, VRAMRegion::C, VRAMRegion::E, VRAMRegion::F, VRAMRegion::H, VRAMRegion::I] {
            assert!(VRAMControl { bits }.get_slot(region) == VRAMControl { bits: bits | 0x80 }.get_slot(region));
        }
    }
    assert!(VRAMControl { bits: 0x84 }.get_slot(VRAMRegion::B) == Slot::LCDC(VRAMRegion::B));
    assert!(VRAMControl { bits: 0x03 }.get_slot(VRAMRegion::H) == Slot::LCDC(VRAMRegion::H));
    assert!(VRAMControl { bits: 0x06 }.get_slot(VRAMRegion::G) == Slot::LCDC(VRAMRegion::G));
}
