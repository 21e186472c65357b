use spa::interrupt::{INT_H_BLANK, INT_V_BLANK, INT_V_COUNTER};
use spa::video::{lcd_v_count, ARM7Video, DisplayTiming, RenderAction, Signal, H_BLANK_CYCLES, H_CYCLES, LCD_HBLANK_FLAG, LCD_HBLANK_IRQ, LCD_VBLANK_FLAG, LCD_VBLANK_IRQ, LCD_VCOUNT_FLAG, LCD_VCOUNT_IRQ};

#[test]
fn compare_line_has_nine_bits() {
    assert_eq!(lcd_v_count(0x0000), 0);
    assert_eq!(lcd_v_count(0x1200), 0x12);
    assert_eq!(lcd_v_count(0x0380), 0x103);
}

#[test]
fn arm7_view_of_display_status() {
    let mut v = ARM7Video::new();
    v.write_halfword(0x0400_0004, 0xFFFF);
    assert_eq!(v.read_halfword(0x0400_0004), 0xFFF8);
    assert!(v.v_blank_enabled());
    assert!(!v.v_count_irq());
    v.write_halfword(0x0400_0006, 0x1FF);
    assert!(v.v_count_irq());
    v.write_halfword(0x0400_0006, 100);
    assert_eq!(v.read_halfword(0x0400_0006), 100);
}

#[test]
fn one_frame_of_display_timing() {
    let mut t = DisplayTiming::new();
    t.write_halfword(0x0400_0004, LCD_VBLANK_IRQ | LCD_HBLANK_IRQ);
    let (sig, irq, act) = t.clock(0);
    assert!(sig == Signal::Nothing && act == RenderAction::StartFrame);
    assert_eq!(irq.bits(), 0);
    let mut lines_drawn = 0;
    let mut vblank_line = None;
    let mut render_3d_line = None;
    for _ in 0..263 {
        let (sig, irq, act) = t.clock(H_CYCLES);
        if t.read_halfword(0x0400_0006) < 192 {
            assert!(sig == Signal::HBlank);
            assert_eq!(irq.bits(), INT_H_BLANK);
        } else {
            assert!(sig == Signal::Nothing);
        }
        assert!(act == RenderAction::Nothing);
        assert_ne!(t.read_halfword(0x0400_0004) & LCD_HBLANK_FLAG, 0);
        let (sig, irq, act) = t.clock(H_BLANK_CYCLES);
        match act {
            RenderAction::RenderLine(l) => {
                lines_drawn += 1;
                assert_eq!(l, t.read_halfword(0x0400_0006));
            }
            RenderAction::FinishFrame => {
                assert!(sig == Signal::VBlank);
                assert_eq!(irq.bits(), INT_V_BLANK);
                vblank_line = Some(t.read_halfword(0x0400_0006));
            }
            RenderAction::Render3D => render_3d_line = Some(t.read_halfword(0x0400_0006)),
            RenderAction::StartFrame => assert_eq!(t.read_halfword(0x0400_0006), 0),
            RenderAction::Nothing => {}
        }
    }
    assert_eq!(lines_drawn, 191);
    assert_eq!(vblank_line, Some(192));
    assert_eq!(render_3d_line, Some(214));
    assert_eq!(t.read_halfword(0x0400_0006), 0);
    assert_eq!(t.read_halfword(0x0400_0004) & (LCD_VBLANK_FLAG | LCD_HBLANK_FLAG), 0);
}

#[test]
fn line_match_interrupt() {
    let mut t = DisplayTiming::new();
    t.write_halfword(0x0400_0004, LCD_VCOUNT_IRQ | (3 << 8));
    t.clock(0);
    let mut hits = Vec::new();
    for _ in 0..5 {
        t.clock(H_CYCLES);
        let (_, irq, _) = t.clock(H_BLANK_CYCLES);
        if irq.bits() == INT_V_COUNTER {
            hits.push(t.read_halfword(0x0400_0006));
            assert_ne!(t.read_halfword(0x0400_0004) & LCD_VCOUNT_FLAG, 0);
        }
    }
    assert_eq!(hits, vec![3]);
}

#[test]
fn display_timing_word_access() {
    let mut t = DisplayTiming::new();
    t.write_word(0x0012_0038);
    assert_eq!(t.read_word() & 0xFFF8, 0x0038);
    assert_eq!(t.read_word() >> 16, 0x12);
}
