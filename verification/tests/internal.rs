use spa::internal::{CacheAction, DS9InternalMem, MemAccess};

fn words(base: u32) -> Vec<u32> {
    (0..8u32).map(|i| base + i).collect()
}

/// Instruction cache on for main RAM: region 0 at 0x0200_0000, 4MB,
/// enabled and marked cacheable for instructions.
fn with_instr_cache() -> DS9InternalMem {
    let mut mem = DS9InternalMem::new();
    mem.cp15.write_cache_bits(1, 1);
    mem.cp15.mcr(6, 0, 0x0200_002B, 0);
    mem.cp15.write_control_reg(0x0001_3078);
    mem
}

#[test]
fn itcm_store_then_load() {
    let mut mem = DS9InternalMem::new();
    assert_eq!(mem.load_word(0x100), MemAccess::Done(0));
    assert_eq!(mem.store_word(0x100, 0xDEAD_BEEF), MemAccess::Done(()));
    assert_eq!(mem.load_word(0x100), MemAccess::Done(0xDEAD_BEEF));
    assert_eq!(mem.load_halfword(0x102), MemAccess::Done(0xDEAD));
    assert_eq!(mem.load_byte(0x103), MemAccess::Done(0xDE));
    assert_eq!(mem.fetch_instr_word(0x100), MemAccess::Done(0xDEAD_BEEF));
    assert_eq!(mem.fetch_instr_halfword(0x100), MemAccess::Done(0xBEEF));
}

#[test]
fn itcm_mirrors_every_32k() {
    let mut mem = DS9InternalMem::new();
    assert_eq!(mem.store_halfword(0x0100_8004, 0x1234), MemAccess::Done(()));
    assert_eq!(mem.load_halfword(0x4), MemAccess::Done(0x1234));
    assert_eq!(mem.store_byte(0x01FF_FFFF, 7), MemAccess::Done(()));
    assert_eq!(mem.load_byte(0x7FFF), MemAccess::Done(7));
}

#[test]
fn dtcm_store_then_load() {
    let mut mem = DS9InternalMem::new();
    mem.cp15.write_tcm_settings(0x027C_000A, 0);
    assert_eq!(mem.store_word(0x027C_0010, 5), MemAccess::Done(()));
    assert_eq!(mem.load_word(0x027C_0010), MemAccess::Done(5));
    assert_eq!(mem.load_byte(0x027C_3FFF), MemAccess::Done(0));
    assert_eq!(mem.load_word(0x027C_4010), MemAccess::Bus);
    // The instruction side does not see the data TCM.
    assert_eq!(mem.fetch_instr_word(0x027C_0010), MemAccess::Bus);
}

#[test]
fn low_addresses_are_instruction_tcm() {
    // Below 0x0200_0000 the instruction TCM answers, wherever the data TCM is.
    let mut mem = DS9InternalMem::new();
    mem.cp15.setup_init();
    assert_eq!(mem.store_word(0x0080_0010, 5), MemAccess::Done(()));
    assert_eq!(mem.load_word(0x0000_0010), MemAccess::Done(5));
}

#[test]
fn main_ram_goes_to_the_bus() {
    let mut mem = DS9InternalMem::new();
    assert_eq!(mem.load_word(0x0200_0000), MemAccess::Bus);
    assert_eq!(mem.store_word(0x0200_0000, 1), MemAccess::Bus);
    assert_eq!(mem.fetch_instr_word(0x0200_0000), MemAccess::Bus);
}

#[test]
fn instr_cache_miss_fill_hit() {
    let mut mem = with_instr_cache();
    assert_eq!(mem.fetch_instr_word(0x0200_0044), MemAccess::Fill(0x0200_0040));
    mem.fill_instr_line(0x0200_0044, &words(10));
    assert_eq!(mem.fetch_instr_word(0x0200_0044), MemAccess::Done(11));
    assert_eq!(mem.fetch_instr_halfword(0x0200_005C), MemAccess::Done(17));
    // Outside the region, the bus.
    assert_eq!(mem.fetch_instr_word(0x0240_0000), MemAccess::Bus);
    // Invalidating the whole cache makes it miss again.
    assert_eq!(mem.cache_command(5, 0, 0), CacheAction::Done);
    assert_eq!(mem.fetch_instr_word(0x0200_0044), MemAccess::Fill(0x0200_0040));
}

#[test]
fn instr_cache_invalidate_line() {
    let mut mem = with_instr_cache();
    mem.fill_instr_line(0x0200_0000, &words(0));
    mem.fill_instr_line(0x0200_0020, &words(8));
    assert_eq!(mem.cache_command(5, 0x0200_0004, 1), CacheAction::Done);
    assert_eq!(mem.fetch_instr_word(0x0200_0000), MemAccess::Fill(0x0200_0000));
    assert_eq!(mem.fetch_instr_word(0x0200_0020), MemAccess::Done(8));
}

#[test]
fn wait_and_prefetch_commands() {
    let mut mem = DS9InternalMem::new();
    assert_eq!(mem.cache_command(0, 0, 4), CacheAction::Halt);
    assert_eq!(mem.cache_command(8, 0, 2), CacheAction::Halt);
    assert_eq!(mem.cache_command(13, 0x0200_1000, 1), CacheAction::Prefetch(0x0200_1000));
    assert_eq!(mem.cache_command(10, 0, 4), CacheAction::Done);
}

#[test]
fn known_cache_commands() {
    assert!(DS9InternalMem::is_known_cache_command(5, 0, 1));
    assert!(DS9InternalMem::is_known_cache_command(14, 0x3E0, 2));
    assert!(!DS9InternalMem::is_known_cache_command(14, 0x400, 2));
    assert!(!DS9InternalMem::is_known_cache_command(7, 0, 0));
    assert!(!DS9InternalMem::is_known_cache_command(5, 0, 2));
}

#[test]
fn data_cache_clean_writes_back_dirty_line() {
    let mut mem = DS9InternalMem::new();
    assert_eq!(mem.fill_data_line(0x0200_0000, &words(10)), None);
    assert!(mem.data_cache.write_word(0x0200_0004, 99));
    let expected = vec![10, 99, 12, 13, 14, 15, 16, 17];
    assert_eq!(mem.cache_command(10, 0x0200_0000, 1), CacheAction::WriteBack(0x0200_0000, expected));
    // Clean now: nothing more to write.
    assert_eq!(mem.cache_command(10, 0x0200_0000, 1), CacheAction::Done);
    assert_eq!(mem.data_cache.read_word(0x0200_0004), Some(99));
}

#[test]
fn data_cache_clean_and_invalidate_by_set_and_way() {
    let mut mem = DS9InternalMem::new();
    mem.fill_data_line(0x0200_0420, &words(0));
    assert!(mem.data_cache.write_byte(0x0200_0420, 0xFF));
    // Set 1, way 0: the operand names the line by its offset.
    let expected = vec![0xFF, 1, 2, 3, 4, 5, 6, 7];
    assert_eq!(mem.cache_command(14, 0x0000_0020, 2), CacheAction::WriteBack(0x0200_0420, expected));
    assert_eq!(mem.data_cache.read_word(0x0200_0420), None);
}

#[test]
fn data_fill_replaces_dirty_line() {
    let mut mem = DS9InternalMem::new();
    assert_eq!(mem.fill_data_line(0x0200_0000, &words(0)), None);
    assert!(mem.data_cache.write_word(0x0200_0000, 42));
    assert_eq!(mem.fill_data_line(0x0200_0400, &words(8)), None);
    assert_eq!(mem.fill_data_line(0x0200_0800, &words(16)), None);
    assert_eq!(mem.fill_data_line(0x0200_0C00, &words(24)), None);
    let out = mem.fill_data_line(0x0200_1000, &words(32));
    assert_eq!(out, Some((0x0200_0000, vec![42, 1, 2, 3, 4, 5, 6, 7])));
    assert_eq!(mem.data_cache.read_word(0x0200_1000), Some(32));
}
