use spa::clock::{
    on_bus_events, video_interrupts7, CycleBatch, PeriodCounter, ARM7_FRAME_CYCLES, ARM9_CLOCK_BATCH,
    ARM9_THREAD_SYNC_CYCLES,
};
use spa::dma::DMA;
use spa::video::Signal;

#[test]
fn period_counter_keeps_the_overrun() {
    let mut c = PeriodCounter::new(ARM9_THREAD_SYNC_CYCLES);
    assert!(!c.add(3000));
    assert_eq!(c.counter, 3000);
    assert!(c.add(1100));
    assert_eq!(c.counter, 100);
    assert!(!c.add(3899));
    assert!(c.add(1));
    assert_eq!(c.counter, 0);
}

#[test]
fn arm7_frame_length() {
    let mut frame = PeriodCounter::new(ARM7_FRAME_CYCLES);
    assert_eq!(ARM7_FRAME_CYCLES, 6 * 355 * 263);
    assert!(!frame.add(560_189));
    assert!(frame.add(1));
}

#[test]
fn video_and_card_start_dma() {
    let mut dma = DMA::new();
    dma.channels[0].control = 0x8800_0000;
    dma.channels[1].control = 0x9000_0000;
    dma.channels[2].control = 0xA800_0000;
    assert!(!on_bus_events(&mut dma, Signal::Nothing, false));
    assert_eq!(dma.active, [false; 4]);
    assert!(!on_bus_events(&mut dma, Signal::HBlank, false));
    assert_eq!(dma.active, [false, true, false, false]);
    assert!(on_bus_events(&mut dma, Signal::VBlank, true));
    assert_eq!(dma.active, [true, true, true, false]);
}

#[test]
fn arm7_video_interrupts() {
    assert_eq!(video_interrupts7(true, true, false).bits, 1);
    assert_eq!(video_interrupts7(true, false, false).bits, 0);
    assert_eq!(video_interrupts7(false, true, true).bits, 4);
    assert_eq!(video_interrupts7(true, true, true).bits, 5);
}

#[test]
fn cycle_batch_hands_back_all_gathered() {
    let mut b = CycleBatch::new(ARM9_CLOCK_BATCH);
    assert_eq!(b.add(10), None);
    assert_eq!(b.add(5), None);
    assert_eq!(b.add(3), Some(18));
    assert_eq!(b.inner_counter, 0);
    assert_eq!(b.add(40), Some(40));
}
