use spa::cache::{Cache, SetLine};

fn line_of(base: u32) -> [u32; 8] {
    let mut words = [0u32; 8];
    for (i, w) in words.iter_mut().enumerate() {
        *w = base + i as u32;
    }
    words
}

#[test]
fn empty_cache_misses() {
    let cache = Cache::new(64);
    assert_eq!(cache.read_byte(0x0200_0000), None);
    assert_eq!(cache.read_word(0x0200_0040), None);
}

#[test]
fn fill_then_read_hits() {
    let mut cache = Cache::new(64);
    cache.fill_line(0x0200_0020, &line_of(0x1000));
    assert_eq!(cache.read_word(0x0200_0020), Some(0x1000));
    assert_eq!(cache.read_word(0x0200_003C), Some(0x1007));
    assert_eq!(cache.read_halfword(0x0200_0026), Some(0x0000));
    assert_eq!(cache.read_byte(0x0200_0024), Some(0x01));
    // Another line of the same set is a miss.
    assert_eq!(cache.read_word(0x0200_0820), None);
}

#[test]
fn write_hits_mark_dirty_and_clean_returns_words() {
    let mut cache = Cache::new(64);
    cache.fill_line(0x0200_0000, &line_of(0));
    assert!(!cache.write_word(0x0300_0000, 5));
    assert!(cache.write_word(0x0200_0004, 0xDEAD_BEEF));
    assert_eq!(cache.read_word(0x0200_0004), Some(0xDEAD_BEEF));
    assert!(cache.write_halfword(0x0200_0008, 0x1234));
    assert!(cache.write_byte(0x0200_000C, 0x77));
    assert_eq!(cache.read_word(0x0200_0008), Some(0x1234));
    let mut out = [0u32; 8];
    assert!(cache.clean_line(0x0200_0000, &mut out));
    assert_eq!(out[0], 0);
    assert_eq!(out[1], 0xDEAD_BEEF);
    assert_eq!(out[3], 0x77);
    assert_eq!(out[7], 7);
    // Clean now: a second clean copies nothing.
    let mut again = [9u32; 8];
    assert!(!cache.clean_line(0x0200_0000, &mut again));
    assert_eq!(again, [9u32; 8]);
}

#[test]
fn invalidate_drops_lines() {
    let mut cache = Cache::new(64);
    cache.fill_line(0x0200_0000, &line_of(0));
    cache.invalidate_line(0x0200_0000);
    assert_eq!(cache.read_word(0x0200_0000), None);
    cache.fill_line(0x0200_0000, &line_of(0));
    cache.invalidate_all();
    assert_eq!(cache.read_word(0x0200_0000), None);
}

#[test]
fn four_ways_then_round_robin_replacement() {
    let mut cache = Cache::new(64);
    // Five lines that map to set 0; the fifth replaces the first.
    for i in 0..5u32 {
        cache.fill_line(i * 0x800, &line_of(i * 0x100));
    }
    assert_eq!(cache.read_word(0), None);
    assert_eq!(cache.read_word(0x800), Some(0x100));
    assert_eq!(cache.read_word(0x2000), Some(0x400));
}

#[test]
fn clean_and_invalidate_set_line() {
    let mut cache = Cache::new(64);
    cache.fill_line(0x0200_0040, &line_of(0x50));
    assert!(cache.write_word(0x0200_0040, 1));
    let mut out = [0u32; 8];
    let tag = cache.clean_and_invalidate_set_line(0, 2, &mut out);
    assert_eq!(tag, Some(0x0200_0000));
    assert_eq!(out[0], 1);
    assert_eq!(out[1], 0x51);
    assert_eq!(cache.read_word(0x0200_0040), None);
}

#[test]
fn clean_and_fill_evicts_dirty_line() {
    let mut cache = Cache::new(1);
    for i in 0..4u32 {
        cache.fill_line(i * 0x20, &line_of(i));
    }
    assert!(cache.write_word(0, 0xAA));
    let mut out = [0u32; 8];
    let evicted = cache.clean_and_fill_line(0x100, &line_of(0x99), &mut out);
    assert_eq!(evicted, Some(0));
    assert_eq!(out[0], 0xAA);
    assert_eq!(cache.read_word(0x100), Some(0x99));
    assert_eq!(cache.read_word(0), None);
}

#[test]
fn set_line_operand_fields() {
    let sl = SetLine::from_bits_truncate(0xC000_0FE0 | 0x1F);
    assert_eq!(sl.set_idx(), 3);
    assert_eq!(sl.instr_index(), 127);
    assert_eq!(sl.data_index(), 63);
    assert_eq!(sl.data_offset(), 0x7E0);
}

#[test]
fn fill_reads_back_every_word_of_the_line() {
    let mut cache = Cache::new(64);
    assert_eq!(cache.read_word(0x0200_1234), None);
    cache.fill_line(0x0200_1234, &line_of(0x500));
    for i in 0..8u32 {
        assert_eq!(cache.read_word(0x0200_1220 + 4 * i), Some(0x500 + i));
    }
}

#[test]
fn lines_of_a_set_differ_by_tag() {
    let mut c = Cache::new(32);
    c.fill_line(0x0200_0000, &[1, 2, 3, 4, 5, 6, 7, 8]);
    assert_eq!(c.read_word(0x0200_0004), Some(2));
    assert_eq!(c.read_word(0x0200_001C), Some(8));
    assert_eq!(c.read_word(0x0200_0020), None);
    assert_eq!(c.read_word(0x0300_0000), None);
}

#[test]
fn round_robin_evicts_the_dirty_line() {
    let mut c = Cache::new(2);
    c.fill_line(0x1020, &[0; 8]);
    assert!(c.write_word(0x1024, 7));
    c.fill_line(0x1060, &[0; 8]);
    c.fill_line(0x10A0, &[0; 8]);
    c.fill_line(0x10E0, &[0; 8]);
    let mut out = [0u32; 8];
    assert_eq!(c.clean_and_fill_line(0x1120, &[9; 8], &mut out), Some(0x1020));
    assert_eq!(out, [0, 7, 0, 0, 0, 0, 0, 0]);
    assert_eq!(c.read_word(0x1024), None);
    assert_eq!(c.read_word(0x1124), Some(9));
}
