use spa::wifi::{quarter, set_quarter, BasebandChip, RFChip, Wifi, WIFI_IRQ_RXBUF_COUNT_EXPIRED};

#[test]
fn quarters_of_a_counter() {
    let x = 0x1111_2222_3333_4444u64;
    assert_eq!(quarter(x, 0), 0x4444);
    assert_eq!(quarter(x, 3), 0x1111);
    assert_eq!(set_quarter(x, 0xABCD, 1), 0x1111_2222_ABCD_4444);
    assert_eq!(set_quarter(x, 0, 3), 0x0000_2222_3333_4444);
}

#[test]
fn baseband_chip_registers() {
    let mut bb = BasebandChip::new();
    assert_eq!(bb.read_reg(0), 0x6D);
    assert_eq!(bb.read_reg(0x5D), 1);
    assert_eq!(bb.read_reg(0x64), 0xFF);
    bb.write_reg(0x01, 0x42);
    assert_eq!(bb.read_reg(0x01), 0x42);
    // Read-only registers ignore writes.
    bb.write_reg(0x0D, 0x42);
    assert_eq!(bb.read_reg(0x0D), 0);
}

#[test]
fn rf_chip_registers_wrap_index() {
    let mut rf = RFChip::new();
    rf.write_reg(33, 0x1234);
    assert_eq!(rf.read_reg(1), 0x1234);
}

#[test]
fn wifi_id_ram_and_mac() {
    let mut w = Wifi::new();
    assert_eq!(w.read_halfword(0x0480_8000), 0x1440);
    w.write_halfword(0x0480_4000, 0xBEEF);
    assert_eq!(w.read_halfword(0x0480_4000), 0xBEEF);
    w.write_halfword(0x0480_8018, 0x0102);
    assert_eq!(w.read_halfword(0x0480_8018), 0x0102);
}

#[test]
fn wifi_random_register_latches() {
    let mut w = Wifi::new();
    assert_eq!(w.read_halfword(0x0480_8044), 0x07FF);
    w.clock(1);
    // The latch gives the generator value of the previous read.
    assert_eq!(w.read_halfword(0x0480_8044), 0x07FF);
    let third = w.read_halfword(0x0480_8044);
    // One step of the generator from 0x7FF.
    assert_eq!(third, ((0x7FFu16 & 1) ^ ((0x7FFu16 << 1) | (0x7FFu16 >> 10))) & 0x7FF);
}

#[test]
fn wifi_rx_fifo_reads_and_counts_down() {
    let mut w = Wifi::new();
    w.write_halfword(0x0480_4100, 0x1111);
    w.write_halfword(0x0480_4102, 0x2222);
    w.write_halfword(0x0480_8050, 0x0100);
    w.write_halfword(0x0480_8052, 0x0104);
    w.write_halfword(0x0480_8058, 0x0100);
    w.write_halfword(0x0480_805C, 2);
    w.write_halfword(0x0480_8012, WIFI_IRQ_RXBUF_COUNT_EXPIRED);
    assert_eq!(w.read_halfword(0x0480_8060), 0x1111);
    assert_eq!(w.read_halfword(0x0480_8060), 0x2222);
    // The read address wrapped back to the start.
    assert_eq!(w.read_halfword(0x0480_8058), 0x0100);
    assert!(w.clock(1));
    assert_eq!(w.read_halfword(0x0480_8010) & WIFI_IRQ_RXBUF_COUNT_EXPIRED, WIFI_IRQ_RXBUF_COUNT_EXPIRED);
    w.write_halfword(0x0480_8010, WIFI_IRQ_RXBUF_COUNT_EXPIRED);
    assert_eq!(w.read_halfword(0x0480_8010), 0);
}

#[test]
fn wifi_baseband_serial_access() {
    let mut w = Wifi::new();
    w.write_halfword(0x0480_815A, 0x55);
    w.write_halfword(0x0480_8158, 0x5000 | 0x02);
    w.write_halfword(0x0480_8158, 0x6000 | 0x02);
    assert_eq!(w.read_halfword(0x0480_815C), 0x55);
    w.write_halfword(0x0480_8158, 0x6000);
    assert_eq!(w.read_halfword(0x0480_815C), 0x6D);
}

#[test]
fn wifi_fast_boot_values() {
    let mut w = Wifi::new();
    w.fast_boot();
    assert_eq!(w.read_halfword(0x0480_5F70), 0xFFFF);
    assert_eq!(w.rx_fifo_start_addr, 0x4000);
    assert_eq!(w.rf_status, 0x9);
}

#[test]
fn wifi_reset_registers() {
    let mut w = Wifi::new();
    assert_eq!(w.read_halfword(0x0480_8000), 0x1440);
    assert_eq!(w.read_halfword(0x0480_8032), 0x8000);
    assert_eq!(w.read_halfword(0x0480_8044), 0x07FF);
    assert_eq!(w.read_halfword(0x0480_8010), 0);
    assert_eq!(w.read_halfword(0x0480_8012), 0);
    assert_eq!(w.read_halfword(0x0480_802C), 0);
    assert_eq!(w.read_halfword(0x0480_4000), 0);
    assert_eq!(w.read_halfword(0x0480_8018), 0);
}

#[test]
fn wifi_registers_read_back_masked() {
    let mut w = Wifi::new();
    for (addr, mask) in [(0x0480_8006u32, 0x7Fu16), (0x0480_802C, 0xFF), (0x0480_803C, 0xFF), (0x0480_8048, 0x3), (0x0480_806C, 0xFFF), (0x0480_8160, 0x4080), (0x0480_8168, 0x800F), (0x0480_8184, 0x413F), (0x0480_8018, 0xFFFF)] {
        w.write_halfword(addr, 0xFFFF);
        assert_eq!(w.read_halfword(addr), mask);
        w.write_halfword(addr, 0x1234);
        assert_eq!(w.read_halfword(addr), 0x1234 & mask);
    }
    w.write_halfword(0x0480_5FFE, 0xCAFE);
    assert_eq!(w.read_halfword(0x0480_5FFE), 0xCAFE);
}
