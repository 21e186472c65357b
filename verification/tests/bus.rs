use spa::bus7::{access_cycles7, route7, Region7};
use spa::bus9::{access_cycles9, device_addr9, route9, BusAccess, Region9};
use spa::memory::DSMemory;

#[test]
fn arm9_regions() {
    assert_eq!(route9(0x0200_0000, true, false), Region9::MainRam);
    assert_eq!(route9(0x03FF_FFFF, true, false), Region9::SharedWram);
    assert_eq!(route9(0x0400_0240, true, false), Region9::MemControl);
    assert_eq!(route9(0x0400_1000, false, true), Region9::EngineB);
    assert_eq!(route9(0x0410_0010, true, true), Region9::CardData);
    assert_eq!(route9(0x0410_0010, true, false), Region9::Io);
    assert_eq!(route9(0x0410_0010, false, true), Region9::Io);
    assert_eq!(route9(0x0500_0000, true, false), Region9::Palette);
    assert_eq!(route9(0x0600_0000, true, false), Region9::Vram);
    assert_eq!(route9(0x0700_0000, true, false), Region9::Oam);
    assert_eq!(route9(0xFFFF_0000, true, false), Region9::Bios);
    assert_eq!(route9(0xFFFF_0000, false, false), Region9::Unused);
    assert_eq!(route9(0x0800_0000, true, false), Region9::Unused);
}

#[test]
fn arm9_cycles() {
    assert_eq!(access_cycles9(0x0200_0000, 4, true, true), 12);
    assert_eq!(access_cycles9(0x0200_0000, 4, false, false), 4);
    assert_eq!(access_cycles9(0x0200_0000, 1, true, true), 10);
    assert_eq!(access_cycles9(0x0200_0000, 2, false, false), 2);
    assert_eq!(access_cycles9(0x0500_0000, 4, true, true), 10);
    assert_eq!(access_cycles9(0x0600_0000, 4, false, false), 4);
    assert_eq!(access_cycles9(0x0600_0000, 2, true, true), 8);
    assert_eq!(access_cycles9(0x0400_1000, 2, true, true), 2);
    assert_eq!(access_cycles9(0x0400_1000, 1, true, true), 8);
    assert_eq!(access_cycles9(0x0410_0010, 4, true, false), 10);
    assert_eq!(access_cycles9(0x0800_0000, 1, true, true), 2);
    assert_eq!(access_cycles9(0x0800_0000, 4, true, true), 1);
    assert_eq!(access_cycles9(0x0800_0000, 1, false, true), 1);
}

#[test]
fn arm7_regions_and_cycles() {
    assert_eq!(route7(0x0000_0000, true, 4), Region7::Bios);
    assert_eq!(route7(0x0000_0000, false, 4), Region7::Unused);
    assert_eq!(route7(0x0380_0000, true, 1), Region7::Wram);
    assert_eq!(route7(0x0400_0240, true, 1), Region7::VramStatus);
    assert_eq!(route7(0x0400_0241, true, 1), Region7::WramStatus);
    assert_eq!(route7(0x0400_0240, true, 2), Region7::Io);
    assert_eq!(route7(0x0410_0010, true, 4), Region7::CardData);
    assert_eq!(access_cycles7(0x0200_0000, 4, true, true), 6);
    assert_eq!(access_cycles7(0x0200_0000, 4, true, false), 2);
    assert_eq!(access_cycles7(0x0200_0000, 2, false, true), 5);
    assert_eq!(access_cycles7(0x0200_0000, 1, false, false), 1);
    assert_eq!(access_cycles7(0x0410_0010, 4, true, true), 5);
    assert_eq!(access_cycles7(0x0600_0000, 4, false, true), 2);
    assert_eq!(access_cycles7(0x0600_0000, 2, false, true), 1);
}

#[test]
fn main_ram_is_shared_and_mirrored() {
    let mut mem = DSMemory::new();
    assert_eq!(mem.store_word9(true, 0x0200_1000, 0xCAFE_BABE), (BusAccess::Done(()), 12));
    assert_eq!(mem.load_word7(true, 0x0200_1000), (BusAccess::Done(0xCAFE_BABE), 6));
    assert_eq!(mem.load_word9(false, 0x0240_1000), (BusAccess::Done(0xCAFE_BABE), 4));
    assert_eq!(mem.store_byte7(false, 0x02FF_F001, 0x11), (BusAccess::Done(()), 1));
    assert_eq!(mem.load_halfword9(true, 0x023F_F000), (BusAccess::Done(0x1100), 10));
}

#[test]
fn shared_wram_split() {
    let mut mem = DSMemory::new();
    // At power-on the ARM9's control reads 0 and the ARM7 sees status 3:
    // both reach the lower bank at 0x0300_0000.
    mem.store_byte9(true, 0x0300_0000, 5);
    assert_eq!(mem.load_byte7(true, 0x0300_0000), (BusAccess::Done(5), 1));
    // Give everything to the ARM7.
    assert_eq!(mem.store_byte9(true, 0x0400_0247, 3), (BusAccess::Done(()), 8));
    assert_eq!(mem.load_byte9(true, 0x0400_0247), (BusAccess::Done(3), 8));
    assert_eq!(mem.load_byte7(true, 0x0400_0241), (BusAccess::Done(3), 1));
    assert_eq!(mem.load_byte9(true, 0x0300_0000), (BusAccess::Done(0), 8));
    assert_eq!(mem.load_byte7(true, 0x0300_0000), (BusAccess::Done(5), 1));
}

#[test]
fn bank_control_moves_vram() {
    let mut mem = DSMemory::new();
    // Bank A in the LCDC range.
    mem.store_halfword9(true, 0x0680_0000, 0x4321);
    assert_eq!(mem.load_halfword9(true, 0x0680_0000), (BusAccess::Done(0x4321), 8));
    // Bank A to engine A objects.
    mem.store_byte9(true, 0x0400_0240, 0x82);
    assert_eq!(mem.load_byte9(true, 0x0400_0240), (BusAccess::Done(0x82), 8));
    assert_eq!(mem.load_halfword9(true, 0x0640_0000), (BusAccess::Done(0x4321), 8));
    assert_eq!(mem.load_halfword9(true, 0x0680_0000), (BusAccess::Done(0), 8));
    // Two control bytes at once: G, then the WRAM control.
    mem.store_halfword9(true, 0x0400_0246, 0x0281);
    assert_eq!(mem.load_halfword9(true, 0x0400_0246), (BusAccess::Done(0x0281), 8));
    assert_eq!(mem.load_byte7(true, 0x0400_0241), (BusAccess::Done(2), 1));
}

#[test]
fn arm7_vram_banks_c_and_d() {
    let mut mem = DSMemory::new();
    assert_eq!(mem.load_byte7(true, 0x0400_0240), (BusAccess::Done(0), 1));
    // Bank C to the ARM7, at its first half.
    mem.store_byte9(true, 0x0400_0242, 0x82);
    assert_eq!(mem.load_byte7(true, 0x0400_0240), (BusAccess::Done(1), 1));
    assert_eq!(mem.store_word7(true, 0x0600_0010, 0xAABB_CCDD), (BusAccess::Done(()), 2));
    assert_eq!(mem.load_word7(true, 0x0600_0010), (BusAccess::Done(0xAABB_CCDD), 2));
    assert_eq!(mem.load_byte7(true, 0x0600_0011), (BusAccess::Done(0xCC), 1));
    // Bank D is not mapped there.
    assert_eq!(mem.load_word7(true, 0x0602_0010), (BusAccess::Done(0), 2));
}

#[test]
fn palette_and_oam() {
    let mut mem = DSMemory::new();
    mem.store_word9(true, 0x0500_0400, 0x7FFF_001F);
    assert_eq!(mem.load_word9(true, 0x0500_0C00), (BusAccess::Done(0x7FFF_001F), 10));
    assert_eq!(mem.load_word9(true, 0x0500_0000), (BusAccess::Done(0), 10));
    mem.store_halfword9(false, 0x0700_0002, 0xBEEF);
    assert_eq!(mem.load_halfword9(false, 0x0700_0802), (BusAccess::Done(0xBEEF), 2));
}

#[test]
fn devices_and_unused() {
    let mut mem = DSMemory::new();
    assert_eq!(mem.load_word9(true, 0x0400_0000), (BusAccess::Device(Region9::Io), 8));
    assert_eq!(mem.store_word9(true, 0x0400_1000, 1), (BusAccess::Device(Region9::EngineB), 8));
    assert_eq!(mem.load_word9(true, 0x0410_0010), (BusAccess::Device(Region9::CardData), 10));
    assert_eq!(mem.load_byte9(true, 0xFFFF_0000), (BusAccess::Device(Region9::Bios), 8));
    assert_eq!(mem.store_byte9(true, 0xFFFF_0000, 1), (BusAccess::Done(()), 1));
    assert_eq!(mem.load_byte9(true, 0x0800_0000), (BusAccess::Done(0), 2));
    assert_eq!(mem.load_word7(true, 0x0000_0000), (BusAccess::Device(Region7::Bios), 1));
    assert_eq!(mem.load_word7(true, 0x0410_0010), (BusAccess::Device(Region7::CardData), 5));
    assert_eq!(mem.store_halfword7(true, 0x0400_0004, 1), (BusAccess::Device(Region7::Io), 1));
}

#[test]
fn arm7_wram_mirrors() {
    let mut mem = DSMemory::new();
    assert_eq!(mem.store_halfword7(true, 0x0380_FFFE, 7), (BusAccess::Done(()), 1));
    assert_eq!(mem.load_halfword7(true, 0x03FF_FFFE), (BusAccess::Done(7), 1));
}

#[test]
fn device_addresses_of_mirrored_regions() {
    assert_eq!(device_addr9(Region9::EngineB, 0x0400_1008), 0x08);
    assert_eq!(device_addr9(Region9::Bios, 0xFFFF_0ABC), 0xABC);
    assert_eq!(device_addr9(Region9::MainRam, 0x0200_1234), 0x0200_1234);
}
