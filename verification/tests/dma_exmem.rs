use spa::dma::{DmaRun, DmaTransfer, DMAAddress, DMAChannel, DMA, DMA_START_IMM, DMA_START_VBLANK, DMA_END_IRQ, DMA_WORD_TYPE, DMA_REPEAT};
use spa::exmem::{ExMemControl, RIGHTS_GBA_CART, RIGHTS_NDS_CARD, RIGHTS_NDS_SET};
use spa::interrupt::{Interrupts, INT_DMA_0, INT_DMA_1};

#[test]
fn immediate_word_transfer_runs_to_done() {
    let mut dma = DMA::new();
    dma.write_word(0x0400_00B0, 0x0200_0001);
    dma.write_word(0x0400_00B4, 0x0300_0002);
    assert_eq!(dma.get_active(), None);
    dma.write_word(0x0400_00B8, DMA_START_IMM | DMA_WORD_TYPE | DMA_END_IRQ | 3);
    assert_eq!(dma.get_active(), Some(0));
    let ch = &mut dma.channels[0];
    assert!(ch.transfer_32bit_word());
    assert_eq!(ch.next_addrs(), DMAAddress::Addr { source: 0x0200_0000, dest: 0x0300_0000 });
    assert_eq!(ch.next_addrs(), DMAAddress::Addr { source: 0x0200_0004, dest: 0x0300_0004 });
    assert_eq!(
        ch.next_addrs(),
        DMAAddress::Done { source: 0x0200_0008, dest: 0x0300_0008, irq: INT_DMA_0 as u16 }
    );
    // Not repeating: the channel disabled itself.
    assert_eq!(ch.control & 0x8000_0000, 0);
    dma.set_inactive(0);
    assert_eq!(dma.get_active(), None);
}

#[test]
fn decrementing_halfword_transfer() {
    let mut ch = DMAChannel::new(Interrupts::from_bits_truncate(INT_DMA_1));
    ch.write_word(0x0, 0x100);
    ch.write_word(0x4, 0x200);
    // Source decrements, destination fixed, no interrupt.
    ch.write_word(0x8, DMA_START_IMM | (1 << 23) | (2 << 21) | 2);
    assert!(ch.should_start_now());
    assert_eq!(ch.next_addrs(), DMAAddress::Addr { source: 0x100, dest: 0x200 });
    assert_eq!(ch.next_addrs(), DMAAddress::Done { source: 0xFE, dest: 0x200, irq: 0 });
}

#[test]
fn repeating_transfer_reloads_count() {
    let mut ch = DMAChannel::new(Interrupts::from_bits_truncate(INT_DMA_0));
    ch.write_halfword(0x8, 1);
    ch.write_halfword(0xA, ((DMA_START_VBLANK | DMA_REPEAT) >> 16) as u16);
    assert!(ch.should_start_vblank());
    assert_eq!(ch.read_halfword(0x8), 1);
    assert!(matches!(ch.next_addrs(), DMAAddress::Done { .. }));
    assert_eq!(ch.current_count, 1);
    assert_ne!(ch.control & 0x8000_0000, 0);
}

#[test]
fn vblank_starts_waiting_channels() {
    let mut dma = DMA::new();
    dma.write_word(0x0400_00C4, DMA_START_VBLANK | 1);
    assert_eq!(dma.get_active(), None);
    dma.on_hblank();
    assert_eq!(dma.get_active(), None);
    dma.on_vblank();
    assert_eq!(dma.get_active(), Some(1));
    assert_eq!(dma.read_word(0x0400_00C4), DMA_START_VBLANK | 1);
}

#[test]
fn fill_registers() {
    let mut dma = DMA::new();
    dma.write_word(0x0400_00E4, 0xCAFE_F00D);
    assert_eq!(dma.read_word(0x0400_00E4), 0xCAFE_F00D);
    dma.write_halfword(0x0400_00E0, 0x1234);
    assert_eq!(dma.read_halfword(0x0400_00E0), 0x1234);
    assert_eq!(dma.read_halfword(0x0400_00E6), 0xCAFE);
}

#[test]
fn external_memory_rights_are_shared_between_processors() {
    let (mut arm9, mut arm7) = ExMemControl::new();
    assert!(arm9.has_gba_access() && arm9.has_nds_access());
    assert!(!arm7.has_gba_access() && !arm7.has_nds_access());
    arm9.write_halfword(0x0400_0204, RIGHTS_GBA_CART | 0x3, &mut arm7);
    assert!(!arm9.has_gba_access());
    assert!(arm7.has_gba_access());
    assert!(arm9.has_nds_access() && !arm7.has_nds_access());
    assert_eq!(arm9.read_halfword(0x0400_0204), RIGHTS_GBA_CART | RIGHTS_NDS_SET | 0x3);
    arm7.write_halfword(0x0400_0204, 0xFFFF);
    assert_eq!(arm7.read_halfword(0x0400_0204), 0x7F | RIGHTS_GBA_CART);
    assert_eq!(arm7.access_rights & RIGHTS_NDS_CARD, 0);
    arm9.write_halfword(0x0400_0204, 0x80, &mut arm7);
    assert!(!arm9.has_gba_access() && arm7.has_gba_access());
    arm9.write_halfword(0x0400_0204, RIGHTS_NDS_CARD, &mut arm7);
    assert!(arm9.has_gba_access() && !arm7.has_gba_access());
    assert!(!arm9.has_nds_access() && arm7.has_nds_access());
    assert_eq!(arm7.read_halfword(0x0400_0204), 0x7F | RIGHTS_NDS_CARD);
}

#[test]
fn transfers_are_picked_by_channel_number() {
    let mut dma = DMA::new();
    dma.write_word(0x0400_00BC, 0x100);
    dma.write_word(0x0400_00C0, 0x200);
    dma.write_word(0x0400_00C4, DMA_START_IMM | 2);
    dma.write_word(0x0400_00B0, 0x300);
    dma.write_word(0x0400_00B4, 0x400);
    dma.write_word(0x0400_00B8, DMA_START_IMM | DMA_WORD_TYPE | DMA_END_IRQ | 1);
    assert!(dma.can_run());
    let t = dma.next_transfer(4).unwrap();
    assert_eq!(t, DmaTransfer { channel: 0, first: true, source: 0x300, dest: 0x400, word: true, done: Some(INT_DMA_0 as u16) });
    dma.set_inactive(0);
    let t = dma.next_transfer(0).unwrap();
    assert_eq!(t, DmaTransfer { channel: 1, first: true, source: 0x100, dest: 0x200, word: false, done: None });
    let t = dma.next_transfer(1).unwrap();
    assert_eq!(t, DmaTransfer { channel: 1, first: false, source: 0x102, dest: 0x202, word: false, done: Some(0) });
    dma.set_inactive(1);
    assert!(dma.next_transfer(1).is_none());
}

#[test]
fn source_mode_three_cannot_run() {
    let mut dma = DMA::new();
    dma.write_word(0x0400_00B8, DMA_START_IMM | (3 << 23) | 1);
    assert!(!dma.can_run());
}

#[test]
fn dma_run_clocks_starts_batches_and_last_units() {
    let mut dma = DMA::new();
    dma.active = [true, false, false, false];
    let mut run = DmaRun::new();
    let unit = |first: bool, done: Option<u16>| DmaTransfer { channel: 0, first, source: 0, dest: 0, word: true, done };
    assert_eq!(run.started(&unit(true, None)), 4);
    assert_eq!(run.last_active, 0);
    assert_eq!(run.moved(&mut dma, &unit(true, None), 5), (None, 0));
    assert_eq!(run.started(&unit(false, None)), 0);
    assert_eq!(run.moved(&mut dma, &unit(false, None), 5), (None, 10));
    assert_eq!(run.moved(&mut dma, &unit(false, None), 3), (None, 0));
    assert_eq!(run.moved(&mut dma, &unit(false, Some(0x100)), 2), (Some(0x100), 2));
    assert!(!dma.active[0]);
    assert_eq!(run.finish(), 3);
    assert_eq!(run.finish(), 0);
}

#[test]
fn card_slots_follow_the_last_write() {
    let (mut ctrl, mut status) = ExMemControl::new();
    assert!(ctrl.has_gba_access() && ctrl.has_nds_access());
    assert!(!status.has_gba_access() && !status.has_nds_access());
    for d in [0x0080u16, 0x0880, 0x0800, 0xFFFF, 0x0000] {
        ctrl.write_halfword(0x0400_0204, d, &mut status);
        assert_eq!(ctrl.has_gba_access(), d & 0x80 == 0);
        assert_eq!(ctrl.has_nds_access(), d & 0x800 == 0);
        assert_eq!(ctrl.has_gba_access(), !status.has_gba_access());
        assert_eq!(ctrl.has_nds_access(), !status.has_nds_access());
    }
}
