use spa::cp15::{Cp15, Cp15Op, MemTarget, CACHE_TYPE, CP15_PRESET, MAIN_ID_REG, TCM_SIZE};
use spa::memory::{MainRAM, MAIN_RAM_SIZE};
use spa::shared::{arm7_bank, arm9_bank, Bank, SharedWRAM};

#[test]
fn main_ram_reads_back_writes() {
    let mut ram = MainRAM::new();
    ram.write_word(0x10, 0xCAFE_BABE);
    assert_eq!(ram.read_word(0x10), 0xCAFE_BABE);
    assert_eq!(ram.read_halfword(0x12), 0xCAFE);
    assert_eq!(ram.read_byte(0x10), 0xBE);
    ram.write_halfword(MAIN_RAM_SIZE as u32 - 2, 0x1234);
    assert_eq!(ram.read_byte(MAIN_RAM_SIZE as u32 - 1), 0x12);
    ram.write_byte(0, 7);
    assert_eq!(ram.read_word(0), 7);
}

#[test]
fn shared_wram_bank_split() {
    assert!(arm9_bank(0, 0x0300_0000) == Some(Bank::Lo));
    assert!(arm9_bank(0, 0x0300_4000) == Some(Bank::Hi));
    assert!(arm9_bank(1, 0x0300_0000) == Some(Bank::Hi));
    assert!(arm9_bank(3, 0x0300_0000) == None);
    assert!(arm7_bank(0, 0x0300_0000) == None);
    assert!(arm7_bank(1, 0x0300_0000) == Some(Bank::Lo));
    assert!(arm7_bank(3, 0x0300_4000) == Some(Bank::Hi));
}

#[test]
fn shared_wram_processors_see_their_banks() {
    let mut w = SharedWRAM::new();
    assert_eq!(w.get_bank_control(), 0);
    assert_eq!(w.get_bank_status(), 3);
    w.set_bank_control(1);
    assert_eq!(w.get_bank_status(), 1);
    w.write_word(true, 0x0300_0010, 0x1111_2222);
    w.write_word(false, 0x0300_0010, 0x3333_4444);
    assert_eq!(w.read_word(true, 0x0300_0010), 0x1111_2222);
    assert_eq!(w.read_word(false, 0x0300_0010), 0x3333_4444);
    assert_eq!(w.read_halfword(true, 0x0300_0012), 0x1111);
    assert_eq!(w.read_byte(false, 0x0300_0010), 0x44);
    w.set_bank_control(2);
    // The banks swapped owners.
    assert_eq!(w.read_word(true, 0x0300_0010), 0x3333_4444);
    assert_eq!(w.read_word(false, 0x0300_0010), 0x1111_2222);
    w.set_bank_control(3);
    assert_eq!(w.read_word(true, 0x0300_0010), 0);
    w.write_byte(true, 0x0300_0010, 1);
    w.write_halfword(false, 0x0300_4010, 0xABCD);
    assert_eq!(w.read_halfword(false, 0x0300_4010), 0xABCD);
    w.set_bank_control(0);
    assert_eq!(w.read_halfword(true, 0x0300_4010), 0xABCD);
    assert_eq!(w.read_word(false, 0x0300_0010), 0);
}

#[test]
fn cp15_identification_registers() {
    let cp = Cp15::new();
    assert_eq!(cp.read_id_code(0), MAIN_ID_REG);
    assert_eq!(cp.read_id_code(1), CACHE_TYPE);
    assert_eq!(cp.read_id_code(2), TCM_SIZE);
    assert_eq!(cp.mrc(1, 0, 0), CP15_PRESET);
    assert_eq!(cp.mrc(0, 0, 1), CACHE_TYPE);
}

#[test]
fn cp15_boot_setup_and_routing() {
    let mut cp = Cp15::new();
    cp.setup_init();
    assert_eq!(cp.read_tcm_settings(0), 0x0080_000A);
    assert_eq!(cp.mrc(1, 0, 0), 0x0001_2078);
    assert!(cp.route_data(0x0100_0010) == MemTarget::Itcm(0x10));
    assert!(cp.route_instr(0x0000_8004) == MemTarget::Itcm(0x4));
    cp.write_tcm_settings(0x0270_000A, 0);
    assert!(cp.route_data(0x0270_0010) == MemTarget::Dtcm(0x10));
    assert!(cp.route_data(0x0270_4010) != MemTarget::Dtcm(0x4010));
    assert!(cp.route_data(0x0400_0000) == MemTarget::Bus);
}

#[test]
fn cp15_writes() {
    let mut cp = Cp15::new();
    assert!(cp.mcr(7, 5, 0, 0) == Cp15Op::CacheCommand(5, 0, 0));
    assert!(cp.mcr(3, 0, 0x1FF, 0) == Cp15Op::Done);
    assert_eq!(cp.mrc(3, 0, 0), 0xFF);
    cp.write_cache_bits(0x42, 1);
    assert_eq!(cp.read_cache_bits(1), 0x42);
    assert_eq!(cp.read_cache_bits(0), 0);
    cp.write_access_permission_bits(0x1234_5678, 0);
    assert_eq!(cp.read_access_permission_bits(0), 0x5678);
    cp.write_control_reg(0x2000);
    assert_eq!(cp.mrc(1, 0, 0), 0x2000 | CP15_PRESET);
}

#[test]
fn boot_info_in_main_ram() {
    let mut ram = spa::memory::MainRAM::new();
    let header: Vec<u8> = (0..0x200u32).map(|i| i as u8).collect();
    ram.write_boot_info(&header, 0x0000_1FC2);
    assert_eq!(ram.read_byte(0x3F_FE05), 5);
    assert_eq!(ram.read_byte(0x3F_FFFF), 0xFF);
    assert_eq!(ram.read_byte(0x3F_FE1F), 4);
    assert_eq!(ram.read_word(0x3F_F800), 0x1FC2);
    assert_eq!(ram.read_word(0x3F_FC04), 0x1FC2);
    assert_eq!(ram.read_word(0x3F_F880), 7);
    assert_eq!(ram.read_word(0x3F_F884), 6);
    assert_eq!(ram.read_word(0x3F_F890), 0xB000_2A22);
    assert_eq!(ram.read_word(0x3F_FC40), 1);
    assert_eq!(ram.read_halfword(0x3F_FCE4), 0xEC41);
    assert_eq!(ram.read_halfword(0x3F_FCDE), 0xFF0);
    assert_eq!(ram.read_halfword(0x3F_FCE0), 0xBF0);
    assert_eq!(ram.read_byte(0x3F_FC83), 1);
    assert_eq!(ram.read_byte(0x3F_FCE2), 255);
    assert_eq!(ram.read_byte(0x3F_FCE3), 191);
}
