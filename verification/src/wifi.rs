//! Wireless controller registers, with the baseband and RF chips behind them.
use vstd::prelude::*;
use crate::bits::{spec_make16, make16, spec_lo16, spec_hi16, lo16, hi16, make32, spec_make32};
use crate::ram::{Ram, spec_le16, spec_write_le16, lemma_halfword_write_read};

verus! {

pub const WIFI_IRQ_RXBUF_COUNT_EXPIRED: u16 = 1 << 9;
pub const WIFI_IRQ_TXBUF_COUNT_EXPIRED: u16 = 1 << 8;
/// Every defined wireless interrupt bit.
pub const WIFI_IRQ_ALL: u16 = 0xFBFF;

/// Half-word `k` (0-3, least significant first) of a double word.
pub open spec fn spec_quarter(x: u64, k: int) -> u16 {
    if k == 0 {
        (x % 0x1_0000) as u16
    } else if k == 1 {
        ((x / 0x1_0000) % 0x1_0000) as u16
    } else if k == 2 {
        ((x / 0x1_0000_0000) % 0x1_0000) as u16
    } else {
        (x / 0x1_0000_0000_0000) as u16
    }
}

/// A double word with half-word `k` replaced.
pub open spec fn spec_set_quarter(x: u64, v: u16, k: int) -> u64 {
    if k == 0 {
        ((x / 0x1_0000) * 0x1_0000 + v) as u64
    } else if k == 1 {
        ((x / 0x1_0000_0000) * 0x1_0000_0000 + v * 0x1_0000 + x % 0x1_0000) as u64
    } else if k == 2 {
        ((x / 0x1_0000_0000_0000) * 0x1_0000_0000_0000 + v * 0x1_0000_0000 + x % 0x1_0000_0000) as u64
    } else {
        (v * 0x1_0000_0000_0000 + x % 0x1_0000_0000_0000) as u64
    }
}

pub fn quarter(x: u64, k: u32) -> (r: u16)
    requires
        k < 4,
    ensures
        r == spec_quarter(x, k as int),
{
    if k == 0 {
        (x % 0x1_0000) as u16
    } else if k == 1 {
        ((x / 0x1_0000) % 0x1_0000) as u16
    } else if k == 2 {
        ((x / 0x1_0000_0000) % 0x1_0000) as u16
    } else {
        (x / 0x1_0000_0000_0000) as u16
    }
}

#[verifier::rlimit(40)]
pub fn set_quarter(x: u64, v: u16, k: u32) -> (r: u64)
    requires
        k < 4,
    ensures
        r == spec_set_quarter(x, v, k as int),
        spec_quarter(r, k as int) == v,
{
    let v = v as u64;
    if k == 0 {
        (x / 0x1_0000) * 0x1_0000 + v
    } else if k == 1 {
        (x / 0x1_0000_0000) * 0x1_0000_0000 + v * 0x1_0000 + x % 0x1_0000
    } else if k == 2 {
        (x / 0x1_0000_0000_0000) * 0x1_0000_0000_0000 + v * 0x1_0000_0000 + x % 0x1_0000_0000
    } else {
        v * 0x1_0000_0000_0000 + x % 0x1_0000_0000_0000
    }
}

/// Baseband chip registers.
pub struct BasebandChip {
    pub regs: [u8; 256],
}

/// Baseband registers that hold what is written.
pub open spec fn baseband_rw(index: u8) -> bool {
    (0x01 <= index <= 0x0C) || (0x13 <= index <= 0x15) || (0x1B <= index <= 0x26) || (0x28
        <= index <= 0x4C) || (0x4E <= index <= 0x5C) || (0x62 <= index <= 0x63) || index == 0x65
        || (0x67 <= index <= 0x68)
}

impl BasebandChip {
    pub fn new() -> (r: Self)
        ensures
            forall|i: int| 0 <= i < 256 ==> r.regs@[i] == 0,
    {
        BasebandChip { regs: [0; 256] }
    }

    pub open spec fn spec_read_reg(&self, index: u8) -> u8 {
        if index == 0x00 {
            0x6D
        } else if baseband_rw(index) {
            self.regs@[index as int]
        } else if index == 0x5D {
            0x1
        } else if index == 0x64 {
            0xFF
        } else {
            0
        }
    }

    /// Register 0 is the chip ID; a few registers read as constants.
    pub fn read_reg(&self, index: u8) -> (r: u8)
        ensures
            r == self.spec_read_reg(index),
    {
        if index == 0x00 {
            0x6D
        } else if (0x01 <= index && index <= 0x0C) || (0x13 <= index && index <= 0x15) || (0x1B
            <= index && index <= 0x26) || (0x28 <= index && index <= 0x4C) || (0x4E <= index
            && index <= 0x5C) || (0x62 <= index && index <= 0x63) || index == 0x65 || (0x67
            <= index && index <= 0x68) {
            self.regs[index as usize]
        } else if index == 0x5D {
            0x1
        } else if index == 0x64 {
            0xFF
        } else {
            0
        }
    }

    pub fn write_reg(&mut self, index: u8, data: u8)
        ensures
            final(self).regs@ == (if baseband_rw(index) {
                old(self).regs@.update(index as int, data)
            } else {
                old(self).regs@
            }),
    {
        if (0x01 <= index && index <= 0x0C) || (0x13 <= index && index <= 0x15) || (0x1B <= index
            && index <= 0x26) || (0x28 <= index && index <= 0x4C) || (0x4E <= index && index
            <= 0x5C) || (0x62 <= index && index <= 0x63) || index == 0x65 || (0x67 <= index
            && index <= 0x68) {
            self.regs.set(index as usize, data);
        }
    }
}

/// RF chip: 32 registers, indexed by the low five bits.
pub struct RFChip {
    pub regs: [u32; 32],
}

impl RFChip {
    pub fn new() -> (r: Self)
        ensures
            forall|i: int| 0 <= i < 32 ==> r.regs@[i] == 0,
    {
        RFChip { regs: [0; 32] }
    }

    pub fn read_reg(&self, index: u8) -> (r: u32)
        ensures
            r == self.regs@[(index % 32) as int],
    {
        self.regs[(index % 32) as usize]
    }

    pub fn write_reg(&mut self, index: u8, data: u32)
        ensures
            final(self).regs@ == old(self).regs@.update((index % 32) as int, data),
    {
        self.regs.set((index % 32) as usize, data);
    }
}

/// The wireless controller's registers and its 8KB of RAM.
pub struct Wifi {
    pub id: u16,
    pub tx_master_enable: bool,
    pub wep_mode: u16,
    pub interrupt_req: u16,
    pub interrupt_enable: u16,
    pub interrupt_latch: u16,
    pub mac_addr: [u16; 3],
    pub bssid: [u16; 3],
    pub aid_low: u16,
    pub aid_full: u16,
    pub wep_enable: bool,
    pub power_us: u16,
    pub power_tx: u16,
    pub power_state: u16,
    pub force_power_state: u16,
    pub unknown_power: u16,
    pub rx_control: u16,
    pub rx_filter: u16,
    pub rx_filter_2: u16,
    pub rx_fifo_start_addr: u16,
    pub rx_fifo_end_addr: u16,
    pub rx_fifo_write_cursor: u16,
    pub rx_fifo_write_latch: u16,
    pub rx_fifo_read_addr: u16,
    pub rx_fifo_read_cursor: u16,
    pub rx_gap_addr: u16,
    pub rx_gap_offset: u16,
    pub rx_buf_count: u16,
    pub rx_len_crop: u16,
    pub rx_stats_inc_flags: u16,
    pub rx_stats_inc_irq: u16,
    pub rx_stats_half_overflow_flags: u16,
    pub rx_stats_half_overflow_irq: u16,
    pub rx_stats: [u8; 16],
    pub rx_ok_count: u8,
    pub rx_err_count: u8,
    pub multiplay_rx_err_count: [u8; 16],
    pub tx_stat_control: u16,
    pub tx_req_flags: u16,
    pub tx_busy: u16,
    pub tx_stat: u16,
    pub tx_header_control: u16,
    pub tx_seq_number: u16,
    pub tx_fifo_write_addr: u16,
    pub tx_gap_addr: u16,
    pub tx_gap_offset: u16,
    pub tx_beacon: u16,
    pub tx_cmd: u16,
    pub tx_loc_1: u16,
    pub tx_loc_2: u16,
    pub tx_loc_3: u16,
    pub tx_tim_loc: u16,
    pub tx_buf_count: u16,
    pub tx_retry_limit: u16,
    pub tx_err_count: u16,
    pub rf_pins: u16,
    pub rf_status: u16,
    pub rxtx_addr: u16,
    pub counter_control: u16,
    pub counter: u64,
    pub counter_compare_control: u16,
    pub counter_compare: u64,
    pub beacon_counter: u16,
    pub post_beacon_counter: u16,
    pub beacon_interval: u16,
    pub pre_beacon_time: u16,
    pub listen_counter: u16,
    pub listen_interval: u16,
    pub content_free: u16,
    pub cmd_count_enable: bool,
    pub cmd_count: u16,
    pub cmd_total_time: u16,
    pub cmd_reply_time: u16,
    pub tx_buf_reply_1: u16,
    pub tx_buf_reply_2: u16,
    pub misc_config: [u16; 19],
    pub rx_mac_addr: [u16; 3],
    pub baseband_write: u16,
    pub baseband_read: u16,
    pub baseband_serial_busy: bool,
    pub baseband_mode: u16,
    pub baseband_power: u16,
    pub baseband_chip: BasebandChip,
    pub rf_data_1: u16,
    pub rf_data_2: u16,
    pub rf_serial_busy: bool,
    pub rf_serial_control: u16,
    pub rf_chip: RFChip,
    pub preamble_control: u16,
    pub random_gen: u16,
    pub random_latch: u16,
    pub ram: Ram,
}

pub const WIFI_RAM_BASE: u32 = 0x0480_4000;
pub const WIFI_RAM_SIZE: u32 = 0x2000;

/// Half-word accesses inside the wireless RAM.
pub open spec fn wifi_ram_addr(addr: u32) -> bool {
    WIFI_RAM_BASE <= addr <= WIFI_RAM_BASE + WIFI_RAM_SIZE - 2
}

impl Wifi {
    pub open spec fn wf(&self) -> bool {
        self.ram@.len() == WIFI_RAM_SIZE
    }

    /// The value of a plain register, one whose read has no side effect.
    pub open spec fn reg(&self, addr: u32) -> Option<u16> {
        if addr == 0x0480_8000 {
            Some(self.id)
        } else if addr == 0x0480_8004 {
            Some(if self.tx_master_enable { 1u16 } else { 0u16 })
        } else if addr == 0x0480_8006 {
            Some(self.wep_mode)
        } else if addr == 0x0480_8008 {
            Some(self.tx_stat_control)
        } else if addr == 0x0480_8010 {
            Some(self.interrupt_req)
        } else if addr == 0x0480_8012 {
            Some(self.interrupt_enable)
        } else if addr == 0x0480_8018 {
            Some(self.mac_addr@[0])
        } else if addr == 0x0480_801A {
            Some(self.mac_addr@[1])
        } else if addr == 0x0480_801C {
            Some(self.mac_addr@[2])
        } else if addr == 0x0480_8020 {
            Some(self.bssid@[0])
        } else if addr == 0x0480_8022 {
            Some(self.bssid@[1])
        } else if addr == 0x0480_8024 {
            Some(self.bssid@[2])
        } else if addr == 0x0480_8028 {
            Some(self.aid_low)
        } else if addr == 0x0480_802A {
            Some(self.aid_full)
        } else if addr == 0x0480_802C {
            Some(self.tx_retry_limit)
        } else if addr == 0x0480_8030 {
            Some(self.rx_control)
        } else if addr == 0x0480_8032 {
            Some(if self.wep_enable { 0x8000u16 } else { 0u16 })
        } else if addr == 0x0480_8036 {
            Some(self.power_us)
        } else if addr == 0x0480_8038 {
            Some(self.power_tx)
        } else if addr == 0x0480_803C {
            Some(self.power_state)
        } else if addr == 0x0480_8040 {
            Some(self.force_power_state)
        } else if addr == 0x0480_8048 {
            Some(self.unknown_power)
        } else if addr == 0x0480_8050 {
            Some(self.rx_fifo_start_addr)
        } else if addr == 0x0480_8052 {
            Some(self.rx_fifo_end_addr)
        } else if addr == 0x0480_8054 {
            Some(self.rx_fifo_write_cursor)
        } else if addr == 0x0480_8056 {
            Some(self.rx_fifo_write_latch)
        } else if addr == 0x0480_8058 {
            Some(self.rx_fifo_read_addr)
        } else if addr == 0x0480_805A {
            Some(self.rx_fifo_read_cursor)
        } else if addr == 0x0480_805C {
            Some(self.rx_buf_count)
        } else if addr == 0x0480_8062 {
            Some(self.rx_gap_addr)
        } else if addr == 0x0480_8064 {
            Some(self.rx_gap_offset)
        } else if addr == 0x0480_8068 {
            Some(self.tx_fifo_write_addr)
        } else if addr == 0x0480_806C {
            Some(self.tx_buf_count)
        } else if addr == 0x0480_8074 {
            Some(self.tx_gap_addr)
        } else if addr == 0x0480_8076 {
            Some(self.tx_gap_offset)
        } else if addr == 0x0480_8080 {
            Some(self.tx_beacon)
        } else if addr == 0x0480_8084 {
            Some(self.tx_tim_loc)
        } else if addr == 0x0480_8088 {
            Some(self.listen_counter)
        } else if addr == 0x0480_808C {
            Some(self.beacon_interval)
        } else if addr == 0x0480_808E {
            Some(self.listen_interval)
        } else if addr == 0x0480_8090 {
            Some(self.tx_cmd)
        } else if addr == 0x0480_8094 {
            Some(self.tx_buf_reply_1)
        } else if addr == 0x0480_8098 {
            Some(self.tx_buf_reply_2)
        } else if addr == 0x0480_80A0 {
            Some(self.tx_loc_1)
        } else if addr == 0x0480_80A4 {
            Some(self.tx_loc_2)
        } else if addr == 0x0480_80A8 {
            Some(self.tx_loc_3)
        } else if addr == 0x0480_80B0 {
            Some(self.tx_req_flags)
        } else if addr == 0x0480_80B6 {
            Some(self.tx_busy)
        } else if addr == 0x0480_80B8 {
            Some(self.tx_stat)
        } else if addr == 0x0480_80BC {
            Some(self.preamble_control)
        } else if addr == 0x0480_80C0 {
            Some(self.cmd_total_time)
        } else if addr == 0x0480_80C4 {
            Some(self.cmd_reply_time)
        } else if addr == 0x0480_80D0 {
            Some(self.rx_filter)
        } else if addr == 0x0480_80DA {
            Some(self.rx_len_crop)
        } else if addr == 0x0480_80E0 {
            Some(self.rx_filter_2)
        } else if addr == 0x0480_80E8 {
            Some(self.counter_control)
        } else if addr == 0x0480_80EA {
            Some(self.counter_compare_control)
        } else if addr == 0x0480_80EC {
            Some(self.misc_config@[15])
        } else if addr == 0x0480_80EE {
            Some(if self.cmd_count_enable { 1u16 } else { 0u16 })
        } else if addr == 0x0480_80F0 {
            Some(spec_quarter(self.counter_compare, 0))
        } else if addr == 0x0480_80F2 {
            Some(spec_quarter(self.counter_compare, 1))
        } else if addr == 0x0480_80F4 {
            Some(spec_quarter(self.counter_compare, 2))
        } else if addr == 0x0480_80F6 {
            Some(spec_quarter(self.counter_compare, 3))
        } else if addr == 0x0480_80F8 {
            Some(spec_quarter(self.counter, 0))
        } else if addr == 0x0480_80FA {
            Some(spec_quarter(self.counter, 1))
        } else if addr == 0x0480_80FC {
            Some(spec_quarter(self.counter, 2))
        } else if addr == 0x0480_80FE {
            Some(spec_quarter(self.counter, 3))
        } else if addr == 0x0480_810C {
            Some(self.content_free)
        } else if addr == 0x0480_8110 {
            Some(self.pre_beacon_time)
        } else if addr == 0x0480_8118 {
            Some(self.cmd_count)
        } else if addr == 0x0480_811C {
            Some(self.beacon_counter)
        } else if addr == 0x0480_8120 {
            Some(self.misc_config@[0])
        } else if addr == 0x0480_8122 {
            Some(self.misc_config@[1])
        } else if addr == 0x0480_8124 {
            Some(self.misc_config@[2])
        } else if addr == 0x0480_8128 {
            Some(self.misc_config@[3])
        } else if addr == 0x0480_8130 {
            Some(self.misc_config@[4])
        } else if addr == 0x0480_8132 {
            Some(self.misc_config@[5])
        } else if addr == 0x0480_8134 {
            Some(self.post_beacon_counter)
        } else if addr == 0x0480_8140 {
            Some(self.misc_config@[6])
        } else if addr == 0x0480_8142 {
            Some(self.misc_config@[7])
        } else if addr == 0x0480_8144 {
            Some(self.misc_config@[8])
        } else if addr == 0x0480_8146 {
            Some(self.misc_config@[9])
        } else if addr == 0x0480_8148 {
            Some(self.misc_config@[10])
        } else if addr == 0x0480_814A {
            Some(self.misc_config@[11])
        } else if addr == 0x0480_814C {
            Some(self.misc_config@[12])
        } else if addr == 0x0480_8150 {
            Some(self.misc_config@[13])
        } else if addr == 0x0480_8154 {
            Some(self.misc_config@[14])
        } else if addr == 0x0480_815C {
            Some(self.baseband_read)
        } else if addr == 0x0480_815E {
            Some(if self.baseband_serial_busy { 1u16 } else { 0u16 })
        } else if addr == 0x0480_8160 {
            Some(self.baseband_mode)
        } else if addr == 0x0480_8168 {
            Some(self.baseband_power)
        } else if addr == 0x0480_817C {
            Some(self.rf_data_2)
        } else if addr == 0x0480_817E {
            Some(self.rf_data_1)
        } else if addr == 0x0480_8180 {
            Some(if self.rf_serial_busy { 1u16 } else { 0u16 })
        } else if addr == 0x0480_8184 {
            Some(self.rf_serial_control)
        } else if addr == 0x0480_8194 {
            Some(self.tx_header_control)
        } else if addr == 0x0480_819C {
            Some(self.rf_pins)
        } else if addr == 0x0480_81A8 {
            Some(self.rx_stats_inc_flags)
        } else if addr == 0x0480_81AA {
            Some(self.rx_stats_inc_irq)
        } else if addr == 0x0480_81AC {
            Some(self.rx_stats_half_overflow_flags)
        } else if addr == 0x0480_81AE {
            Some(self.rx_stats_half_overflow_irq)
        } else if addr == 0x0480_81C0 {
            Some(self.tx_err_count)
        } else if addr == 0x0480_81C4 {
            Some(spec_make16(self.rx_err_count, self.rx_ok_count))
        } else if addr == 0x0480_8210 {
            Some(self.tx_seq_number)
        } else if addr == 0x0480_8214 {
            Some(self.rf_status)
        } else if addr == 0x0480_824C {
            Some(self.rx_mac_addr@[0])
        } else if addr == 0x0480_824E {
            Some(self.rx_mac_addr@[1])
        } else if addr == 0x0480_8250 {
            Some(self.rx_mac_addr@[2])
        } else if addr == 0x0480_8268 {
            Some(self.rxtx_addr)
        } else if 0x0480_81B0 <= addr <= 0x0480_81BE {
            let o = addr - 0x0480_81B0;
            Some(spec_make16(self.rx_stats@[o + 1], self.rx_stats@[o]))
        } else if 0x0480_81D0 <= addr <= 0x0480_81DE {
            let o = addr - 0x0480_81D0;
            Some(spec_make16(self.multiplay_rx_err_count@[o + 1], self.multiplay_rx_err_count@[o]))
        } else {
            None
        }
    }

    fn read_reg(&self, addr: u32) -> (r: u16)
        requires
            self.wf(),
            self.reg(addr) is Some,
        ensures
            Some(r) == self.reg(addr),
    {
        if addr == 0x0480_8000 {
            self.id
        } else if addr == 0x0480_8004 {
            if self.tx_master_enable { 1 } else { 0 }
        } else if addr == 0x0480_8006 {
            self.wep_mode
        } else if addr == 0x0480_8008 {
            self.tx_stat_control
        } else if addr == 0x0480_8010 {
            self.interrupt_req
        } else if addr == 0x0480_8012 {
            self.interrupt_enable
        } else if addr == 0x0480_8018 {
            self.mac_addr[0]
        } else if addr == 0x0480_801A {
            self.mac_addr[1]
        } else if addr == 0x0480_801C {
            self.mac_addr[2]
        } else if addr == 0x0480_8020 {
            self.bssid[0]
        } else if addr == 0x0480_8022 {
            self.bssid[1]
        } else if addr == 0x0480_8024 {
            self.bssid[2]
        } else if addr == 0x0480_8028 {
            self.aid_low
        } else if addr == 0x0480_802A {
            self.aid_full
        } else if addr == 0x0480_802C {
            self.tx_retry_limit
        } else if addr == 0x0480_8030 {
            self.rx_control
        } else if addr == 0x0480_8032 {
            if self.wep_enable { 0x8000 } else { 0 }
        } else if addr == 0x0480_8036 {
            self.power_us
        } else if addr == 0x0480_8038 {
            self.power_tx
        } else if addr == 0x0480_803C {
            self.power_state
        } else if addr == 0x0480_8040 {
            self.force_power_state
        } else if addr == 0x0480_8048 {
            self.unknown_power
        } else if addr == 0x0480_8050 {
            self.rx_fifo_start_addr
        } else if addr == 0x0480_8052 {
            self.rx_fifo_end_addr
        } else if addr == 0x0480_8054 {
            self.rx_fifo_write_cursor
        } else if addr == 0x0480_8056 {
            self.rx_fifo_write_latch
        } else if addr == 0x0480_8058 {
            self.rx_fifo_read_addr
        } else if addr == 0x0480_805A {
            self.rx_fifo_read_cursor
        } else if addr == 0x0480_805C {
            self.rx_buf_count
        } else if addr == 0x0480_8062 {
            self.rx_gap_addr
        } else if addr == 0x0480_8064 {
            self.rx_gap_offset
        } else if addr == 0x0480_8068 {
            self.tx_fifo_write_addr
        } else if addr == 0x0480_806C {
            self.tx_buf_count
        } else if addr == 0x0480_8074 {
            self.tx_gap_addr
        } else if addr == 0x0480_8076 {
            self.tx_gap_offset
        } else if addr == 0x0480_8080 {
            self.tx_beacon
        } else if addr == 0x0480_8084 {
            self.tx_tim_loc
        } else if addr == 0x0480_8088 {
            self.listen_counter
        } else if addr == 0x0480_808C {
            self.beacon_interval
        } else if addr == 0x0480_808E {
            self.listen_interval
        } else if addr == 0x0480_8090 {
            self.tx_cmd
        } else if addr == 0x0480_8094 {
            self.tx_buf_reply_1
        } else if addr == 0x0480_8098 {
            self.tx_buf_reply_2
        } else if addr == 0x0480_80A0 {
            self.tx_loc_1
        } else if addr == 0x0480_80A4 {
            self.tx_loc_2
        } else if addr == 0x0480_80A8 {
            self.tx_loc_3
        } else if addr == 0x0480_80B0 {
            self.tx_req_flags
        } else if addr == 0x0480_80B6 {
            self.tx_busy
        } else if addr == 0x0480_80B8 {
            self.tx_stat
        } else if addr == 0x0480_80BC {
            self.preamble_control
        } else if addr == 0x0480_80C0 {
            self.cmd_total_time
        } else if addr == 0x0480_80C4 {
            self.cmd_reply_time
        } else if addr == 0x0480_80D0 {
            self.rx_filter
        } else if addr == 0x0480_80DA {
            self.rx_len_crop
        } else if addr == 0x0480_80E0 {
            self.rx_filter_2
        } else if addr == 0x0480_80E8 {
            self.counter_control
        } else if addr == 0x0480_80EA {
            self.counter_compare_control
        } else if addr == 0x0480_80EC {
            self.misc_config[15]
        } else if addr == 0x0480_80EE {
            if self.cmd_count_enable { 1 } else { 0 }
        } else if addr == 0x0480_80F0 {
            quarter(self.counter_compare, 0)
        } else if addr == 0x0480_80F2 {
            quarter(self.counter_compare, 1)
        } else if addr == 0x0480_80F4 {
            quarter(self.counter_compare, 2)
        } else if addr == 0x0480_80F6 {
            quarter(self.counter_compare, 3)
        } else if addr == 0x0480_80F8 {
            quarter(self.counter, 0)
        } else if addr == 0x0480_80FA {
            quarter(self.counter, 1)
        } else if addr == 0x0480_80FC {
            quarter(self.counter, 2)
        } else if addr == 0x0480_80FE {
            quarter(self.counter, 3)
        } else if addr == 0x0480_810C {
            self.content_free
        } else if addr == 0x0480_8110 {
            self.pre_beacon_time
        } else if addr == 0x0480_8118 {
            self.cmd_count
        } else if addr == 0x0480_811C {
            self.beacon_counter
        } else if addr == 0x0480_8120 {
            self.misc_config[0]
        } else if addr == 0x0480_8122 {
            self.misc_config[1]
        } else if addr == 0x0480_8124 {
            self.misc_config[2]
        } else if addr == 0x0480_8128 {
            self.misc_config[3]
        } else if addr == 0x0480_8130 {
            self.misc_config[4]
        } else if addr == 0x0480_8132 {
            self.misc_config[5]
        } else if addr == 0x0480_8134 {
            self.post_beacon_counter
        } else if addr == 0x0480_8140 {
            self.misc_config[6]
        } else if addr == 0x0480_8142 {
            self.misc_config[7]
        } else if addr == 0x0480_8144 {
            self.misc_config[8]
        } else if addr == 0x0480_8146 {
            self.misc_config[9]
        } else if addr == 0x0480_8148 {
            self.misc_config[10]
        } else if addr == 0x0480_814A {
            self.misc_config[11]
        } else if addr == 0x0480_814C {
            self.misc_config[12]
        } else if addr == 0x0480_8150 {
            self.misc_config[13]
        } else if addr == 0x0480_8154 {
            self.misc_config[14]
        } else if addr == 0x0480_815C {
            self.baseband_read
        } else if addr == 0x0480_815E {
            if self.baseband_serial_busy { 1 } else { 0 }
        } else if addr == 0x0480_8160 {
            self.baseband_mode
        } else if addr == 0x0480_8168 {
            self.baseband_power
        } else if addr == 0x0480_817C {
            self.rf_data_2
        } else if addr == 0x0480_817E {
            self.rf_data_1
        } else if addr == 0x0480_8180 {
            if self.rf_serial_busy { 1 } else { 0 }
        } else if addr == 0x0480_8184 {
            self.rf_serial_control
        } else if addr == 0x0480_8194 {
            self.tx_header_control
        } else if addr == 0x0480_819C {
            self.rf_pins
        } else if addr == 0x0480_81A8 {
            self.rx_stats_inc_flags
        } else if addr == 0x0480_81AA {
            self.rx_stats_inc_irq
        } else if addr == 0x0480_81AC {
            self.rx_stats_half_overflow_flags
        } else if addr == 0x0480_81AE {
            self.rx_stats_half_overflow_irq
        } else if addr == 0x0480_81C0 {
            self.tx_err_count
        } else if addr == 0x0480_81C4 {
            make16(self.rx_err_count, self.rx_ok_count)
        } else if addr == 0x0480_8210 {
            self.tx_seq_number
        } else if addr == 0x0480_8214 {
            self.rf_status
        } else if addr == 0x0480_824C {
            self.rx_mac_addr[0]
        } else if addr == 0x0480_824E {
            self.rx_mac_addr[1]
        } else if addr == 0x0480_8250 {
            self.rx_mac_addr[2]
        } else if addr == 0x0480_8268 {
            self.rxtx_addr
        } else if 0x0480_81B0 <= addr && addr <= 0x0480_81BE {
            let o = (addr - 0x0480_81B0) as usize;
            make16(self.rx_stats[o + 1], self.rx_stats[o])
        } else {
            let o = (addr - 0x0480_81D0) as usize;
            make16(self.multiplay_rx_err_count[o + 1], self.multiplay_rx_err_count[o])
        }
    }

    /// Registers written by plain assignment.
    pub open spec fn plain_write_addr(addr: u32) -> bool {
        addr == 0x0480_8006
            || addr == 0x0480_8008
            || addr == 0x0480_800A
            || addr == 0x0480_8012
            || addr == 0x0480_8018
            || addr == 0x0480_801A
            || addr == 0x0480_801C
            || addr == 0x0480_8020
            || addr == 0x0480_8022
            || addr == 0x0480_8024
            || addr == 0x0480_8028
            || addr == 0x0480_802A
            || addr == 0x0480_802C
            || addr == 0x0480_8032
            || addr == 0x0480_8036
            || addr == 0x0480_8038
            || addr == 0x0480_803C
            || addr == 0x0480_8048
            || addr == 0x0480_8050
            || addr == 0x0480_8052
            || addr == 0x0480_8054
            || addr == 0x0480_8056
            || addr == 0x0480_8058
            || addr == 0x0480_805A
            || addr == 0x0480_805C
            || addr == 0x0480_8060
            || addr == 0x0480_8062
            || addr == 0x0480_8064
            || addr == 0x0480_8068
            || addr == 0x0480_806C
            || addr == 0x0480_8074
            || addr == 0x0480_8076
            || addr == 0x0480_8080
            || addr == 0x0480_8084
            || addr == 0x0480_8088
            || addr == 0x0480_808C
            || addr == 0x0480_808E
            || addr == 0x0480_8090
            || addr == 0x0480_8094
            || addr == 0x0480_80A0
            || addr == 0x0480_80A4
            || addr == 0x0480_80A8
            || addr == 0x0480_80AC
            || addr == 0x0480_80AE
            || addr == 0x0480_80B4
            || addr == 0x0480_80BC
            || addr == 0x0480_80C0
            || addr == 0x0480_80C4
            || addr == 0x0480_80D0
            || addr == 0x0480_80D4
            || addr == 0x0480_80D8
            || addr == 0x0480_80DA
            || addr == 0x0480_80E0
            || addr == 0x0480_80E8
            || addr == 0x0480_80EA
            || addr == 0x0480_80EC
            || addr == 0x0480_80EE
            || addr == 0x0480_80F0
            || addr == 0x0480_80F2
            || addr == 0x0480_80F4
            || addr == 0x0480_80F6
            || addr == 0x0480_80F8
            || addr == 0x0480_80FA
            || addr == 0x0480_80FC
            || addr == 0x0480_80FE
            || addr == 0x0480_810C
            || addr == 0x0480_8110
            || addr == 0x0480_8118
            || addr == 0x0480_811C
            || addr == 0x0480_8120
            || addr == 0x0480_8122
            || addr == 0x0480_8124
            || addr == 0x0480_8128
            || addr == 0x0480_8130
            || addr == 0x0480_8132
            || addr == 0x0480_8134
            || addr == 0x0480_8140
            || addr == 0x0480_8142
            || addr == 0x0480_8144
            || addr == 0x0480_8146
            || addr == 0x0480_8148
            || addr == 0x0480_814A
            || addr == 0x0480_814C
            || addr == 0x0480_8150
            || addr == 0x0480_8154
            || addr == 0x0480_815A
            || addr == 0x0480_815E
            || addr == 0x0480_8160
            || addr == 0x0480_8168
            || addr == 0x0480_817E
            || addr == 0x0480_8184
            || addr == 0x0480_8194
            || addr == 0x0480_81A0
            || addr == 0x0480_81A2
            || addr == 0x0480_81AA
            || addr == 0x0480_81AE
            || addr == 0x0480_821C
            || addr == 0x0480_824C
            || addr == 0x0480_824E
            || addr == 0x0480_8250
            || addr == 0x0480_8254
            || addr == 0x0480_8290
    }

    /// Registers whose write runs an action.
    pub open spec fn action_write_addr(addr: u32) -> bool {
        addr == 0x0480_8004
            || addr == 0x0480_8010
            || addr == 0x0480_8030
            || addr == 0x0480_8040
            || addr == 0x0480_8070
            || addr == 0x0480_8158
            || addr == 0x0480_817C
    }

    /// How a plain register write changes the state.
    pub open spec fn plain_write_rel(new: &Self, old: &Self, addr: u32, data: u16) -> bool {
        if addr == 0x0480_8006 {
            *new == (Wifi { wep_mode: data & 0x7F, ..*old })
        } else if addr == 0x0480_8008 {
            *new == (Wifi { tx_stat_control: data, ..*old })
        } else if addr == 0x0480_800A {
            *new == *old
        } else if addr == 0x0480_8012 {
            *new == (Wifi { interrupt_enable: data & WIFI_IRQ_ALL, ..*old })
        } else if addr == 0x0480_8018 {
            new.mac_addr@ == old.mac_addr@.update(0, data) && *new == (Wifi { mac_addr: new.mac_addr, ..*old })
        } else if addr == 0x0480_801A {
            new.mac_addr@ == old.mac_addr@.update(1, data) && *new == (Wifi { mac_addr: new.mac_addr, ..*old })
        } else if addr == 0x0480_801C {
            new.mac_addr@ == old.mac_addr@.update(2, data) && *new == (Wifi { mac_addr: new.mac_addr, ..*old })
        } else if addr == 0x0480_8020 {
            new.bssid@ == old.bssid@.update(0, data) && *new == (Wifi { bssid: new.bssid, ..*old })
        } else if addr == 0x0480_8022 {
            new.bssid@ == old.bssid@.update(1, data) && *new == (Wifi { bssid: new.bssid, ..*old })
        } else if addr == 0x0480_8024 {
            new.bssid@ == old.bssid@.update(2, data) && *new == (Wifi { bssid: new.bssid, ..*old })
        } else if addr == 0x0480_8028 {
            *new == (Wifi { aid_low: data, ..*old })
        } else if addr == 0x0480_802A {
            *new == (Wifi { aid_full: data, ..*old })
        } else if addr == 0x0480_802C {
            *new == (Wifi { tx_retry_limit: data & 0xFF, ..*old })
        } else if addr == 0x0480_8032 {
            *new == (Wifi { wep_enable: (data & 0x8000) != 0, ..*old })
        } else if addr == 0x0480_8036 {
            *new == (Wifi { power_us: data, ..*old })
        } else if addr == 0x0480_8038 {
            *new == (Wifi { power_tx: data, ..*old })
        } else if addr == 0x0480_803C {
            *new == (Wifi { power_state: data & 0xFF, ..*old })
        } else if addr == 0x0480_8048 {
            *new == (Wifi { unknown_power: data & 0x3, ..*old })
        } else if addr == 0x0480_8050 {
            *new == (Wifi { rx_fifo_start_addr: data, ..*old })
        } else if addr == 0x0480_8052 {
            *new == (Wifi { rx_fifo_end_addr: data, ..*old })
        } else if addr == 0x0480_8054 {
            *new == *old
        } else if addr == 0x0480_8056 {
            *new == (Wifi { rx_fifo_write_latch: data, ..*old })
        } else if addr == 0x0480_8058 {
            *new == (Wifi { rx_fifo_read_addr: data, ..*old })
        } else if addr == 0x0480_805A {
            *new == (Wifi { rx_fifo_read_cursor: data, ..*old })
        } else if addr == 0x0480_805C {
            *new == (Wifi { rx_buf_count: data, ..*old })
        } else if addr == 0x0480_8060 {
            *new == *old
        } else if addr == 0x0480_8062 {
            *new == (Wifi { rx_gap_addr: data, ..*old })
        } else if addr == 0x0480_8064 {
            *new == (Wifi { rx_gap_offset: data, ..*old })
        } else if addr == 0x0480_8068 {
            *new == (Wifi { tx_fifo_write_addr: data, ..*old })
        } else if addr == 0x0480_806C {
            *new == (Wifi { tx_buf_count: data & 0xFFF, ..*old })
        } else if addr == 0x0480_8074 {
            *new == (Wifi { tx_gap_addr: data, ..*old })
        } else if addr == 0x0480_8076 {
            *new == (Wifi { tx_gap_offset: data, ..*old })
        } else if addr == 0x0480_8080 {
            *new == (Wifi { tx_beacon: data, ..*old })
        } else if addr == 0x0480_8084 {
            *new == (Wifi { tx_tim_loc: data, ..*old })
        } else if addr == 0x0480_8088 {
            *new == (Wifi { listen_counter: data, ..*old })
        } else if addr == 0x0480_808C {
            *new == (Wifi { beacon_interval: data, ..*old })
        } else if addr == 0x0480_808E {
            *new == (Wifi { listen_interval: data, ..*old })
        } else if addr == 0x0480_8090 {
            *new == (Wifi { tx_cmd: data, ..*old })
        } else if addr == 0x0480_8094 {
            *new == (Wifi { tx_buf_reply_1: data, ..*old })
        } else if addr == 0x0480_80A0 {
            *new == (Wifi { tx_loc_1: data, ..*old })
        } else if addr == 0x0480_80A4 {
            *new == (Wifi { tx_loc_2: data, ..*old })
        } else if addr == 0x0480_80A8 {
            *new == (Wifi { tx_loc_3: data, ..*old })
        } else if addr == 0x0480_80AC {
            *new == (Wifi { tx_req_flags: old.tx_req_flags & !(data & 0xF), ..*old })
        } else if addr == 0x0480_80AE {
            *new == (Wifi { tx_req_flags: old.tx_req_flags | (data & 0xF), ..*old })
        } else if addr == 0x0480_80B4 {
            *new == *old
        } else if addr == 0x0480_80BC {
            *new == (Wifi { preamble_control: data, ..*old })
        } else if addr == 0x0480_80C0 {
            *new == (Wifi { cmd_total_time: data, ..*old })
        } else if addr == 0x0480_80C4 {
            *new == (Wifi { cmd_reply_time: data, ..*old })
        } else if addr == 0x0480_80D0 {
            *new == (Wifi { rx_filter: data, ..*old })
        } else if addr == 0x0480_80D4 {
            new.misc_config@ == old.misc_config@.update(16, data) && *new == (Wifi { misc_config: new.misc_config, ..*old })
        } else if addr == 0x0480_80D8 {
            new.misc_config@ == old.misc_config@.update(17, data) && *new == (Wifi { misc_config: new.misc_config, ..*old })
        } else if addr == 0x0480_80DA {
            *new == (Wifi { rx_len_crop: data, ..*old })
        } else if addr == 0x0480_80E0 {
            *new == (Wifi { rx_filter_2: data, ..*old })
        } else if addr == 0x0480_80E8 {
            *new == (Wifi { counter_control: data, ..*old })
        } else if addr == 0x0480_80EA {
            *new == (Wifi { counter_compare_control: data, ..*old })
        } else if addr == 0x0480_80EC {
            new.misc_config@ == old.misc_config@.update(15, data) && *new == (Wifi { misc_config: new.misc_config, ..*old })
        } else if addr == 0x0480_80EE {
            *new == (Wifi { cmd_count_enable: (data & 1) != 0, ..*old })
        } else if addr == 0x0480_80F0 {
            *new == (Wifi { counter_compare: spec_set_quarter(old.counter_compare, data, 0), ..*old })
        } else if addr == 0x0480_80F2 {
            *new == (Wifi { counter_compare: spec_set_quarter(old.counter_compare, data, 1), ..*old })
        } else if addr == 0x0480_80F4 {
            *new == (Wifi { counter_compare: spec_set_quarter(old.counter_compare, data, 2), ..*old })
        } else if addr == 0x0480_80F6 {
            *new == (Wifi { counter_compare: spec_set_quarter(old.counter_compare, data, 3), ..*old })
        } else if addr == 0x0480_80F8 {
            *new == (Wifi { counter: spec_set_quarter(old.counter, data, 0), ..*old })
        } else if addr == 0x0480_80FA {
            *new == (Wifi { counter: spec_set_quarter(old.counter, data, 1), ..*old })
        } else if addr == 0x0480_80FC {
            *new == (Wifi { counter: spec_set_quarter(old.counter, data, 2), ..*old })
        } else if addr == 0x0480_80FE {
            *new == (Wifi { counter: spec_set_quarter(old.counter, data, 3), ..*old })
        } else if addr == 0x0480_810C {
            *new == (Wifi { content_free: data, ..*old })
        } else if addr == 0x0480_8110 {
            *new == (Wifi { pre_beacon_time: data, ..*old })
        } else if addr == 0x0480_8118 {
            *new == (Wifi { cmd_count: data, ..*old })
        } else if addr == 0x0480_811C {
            *new == (Wifi { beacon_counter: data, ..*old })
        } else if addr == 0x0480_8120 {
            new.misc_config@ == old.misc_config@.update(0, data) && *new == (Wifi { misc_config: new.misc_config, ..*old })
        } else if addr == 0x0480_8122 {
            new.misc_config@ == old.misc_config@.update(1, data) && *new == (Wifi { misc_config: new.misc_config, ..*old })
        } else if addr == 0x0480_8124 {
            new.misc_config@ == old.misc_config@.update(2, data) && *new == (Wifi { misc_config: new.misc_config, ..*old })
        } else if addr == 0x0480_8128 {
            new.misc_config@ == old.misc_config@.update(3, data) && *new == (Wifi { misc_config: new.misc_config, ..*old })
        } else if addr == 0x0480_8130 {
            new.misc_config@ == old.misc_config@.update(4, data) && *new == (Wifi { misc_config: new.misc_config, ..*old })
        } else if addr == 0x0480_8132 {
            new.misc_config@ == old.misc_config@.update(5, data) && *new == (Wifi { misc_config: new.misc_config, ..*old })
        } else if addr == 0x0480_8134 {
            *new == (Wifi { post_beacon_counter: data, ..*old })
        } else if addr == 0x0480_8140 {
            new.misc_config@ == old.misc_config@.update(6, data) && *new == (Wifi { misc_config: new.misc_config, ..*old })
        } else if addr == 0x0480_8142 {
            new.misc_config@ == old.misc_config@.update(7, data) && *new == (Wifi { misc_config: new.misc_config, ..*old })
        } else if addr == 0x0480_8144 {
            new.misc_config@ == old.misc_config@.update(8, data) && *new == (Wifi { misc_config: new.misc_config, ..*old })
        } else if addr == 0x0480_8146 {
            new.misc_config@ == old.misc_config@.update(9, data) && *new == (Wifi { misc_config: new.misc_config, ..*old })
        } else if addr == 0x0480_8148 {
            new.misc_config@ == old.misc_config@.update(10, data) && *new == (Wifi { misc_config: new.misc_config, ..*old })
        } else if addr == 0x0480_814A {
            new.misc_config@ == old.misc_config@.update(11, data) && *new == (Wifi { misc_config: new.misc_config, ..*old })
        } else if addr == 0x0480_814C {
            new.misc_config@ == old.misc_config@.update(12, data) && *new == (Wifi { misc_config: new.misc_config, ..*old })
        } else if addr == 0x0480_8150 {
            new.misc_config@ == old.misc_config@.update(13, data) && *new == (Wifi { misc_config: new.misc_config, ..*old })
        } else if addr == 0x0480_8154 {
            new.misc_config@ == old.misc_config@.update(14, data) && *new == (Wifi { misc_config: new.misc_config, ..*old })
        } else if addr == 0x0480_815A {
            *new == (Wifi { baseband_write: data, ..*old })
        } else if addr == 0x0480_815E {
            *new == (Wifi { baseband_serial_busy: (data & 1) != 0, ..*old })
        } else if addr == 0x0480_8160 {
            *new == (Wifi { baseband_mode: data & 0x4080, ..*old })
        } else if addr == 0x0480_8168 {
            *new == (Wifi { baseband_power: data & 0x800F, ..*old })
        } else if addr == 0x0480_817E {
            *new == (Wifi { rf_data_1: data, ..*old })
        } else if addr == 0x0480_8184 {
            *new == (Wifi { rf_serial_control: data & 0x413F, ..*old })
        } else if addr == 0x0480_8194 {
            *new == (Wifi { tx_header_control: data, ..*old })
        } else if addr == 0x0480_81A0 {
            *new == *old
        } else if addr == 0x0480_81A2 {
            *new == *old
        } else if addr == 0x0480_81AA {
            *new == (Wifi { rx_stats_inc_irq: data, ..*old })
        } else if addr == 0x0480_81AE {
            *new == (Wifi { rx_stats_half_overflow_irq: data, ..*old })
        } else if addr == 0x0480_821C {
            *new == (Wifi { interrupt_latch: data & WIFI_IRQ_ALL, ..*old })
        } else if addr == 0x0480_824C {
            new.rx_mac_addr@ == old.rx_mac_addr@.update(0, data) && *new == (Wifi { rx_mac_addr: new.rx_mac_addr, ..*old })
        } else if addr == 0x0480_824E {
            new.rx_mac_addr@ == old.rx_mac_addr@.update(1, data) && *new == (Wifi { rx_mac_addr: new.rx_mac_addr, ..*old })
        } else if addr == 0x0480_8250 {
            new.rx_mac_addr@ == old.rx_mac_addr@.update(2, data) && *new == (Wifi { rx_mac_addr: new.rx_mac_addr, ..*old })
        } else if addr == 0x0480_8254 {
            new.misc_config@ == old.misc_config@.update(18, data) && *new == (Wifi { misc_config: new.misc_config, ..*old })
        } else if addr == 0x0480_8290 {
            *new == *old
        } else {
            *new == *old
        }
    }

    fn write_plain(&mut self, addr: u32, data: u16)
        requires
            old(self).wf(),
            Self::plain_write_addr(addr),
        ensures
            Self::plain_write_rel(final(self), old(self), addr, data),
            final(self).wf(),
    {
        if addr == 0x0480_8006 {
            self.wep_mode = data & 0x7F;
        } else if addr == 0x0480_8008 {
            self.tx_stat_control = data;
        } else if addr == 0x0480_800A {
        } else if addr == 0x0480_8012 {
            self.interrupt_enable = data & WIFI_IRQ_ALL;
        } else if addr == 0x0480_8018 {
            self.mac_addr.set(0, data);
        } else if addr == 0x0480_801A {
            self.mac_addr.set(1, data);
        } else if addr == 0x0480_801C {
            self.mac_addr.set(2, data);
        } else if addr == 0x0480_8020 {
            self.bssid.set(0, data);
        } else if addr == 0x0480_8022 {
            self.bssid.set(1, data);
        } else if addr == 0x0480_8024 {
            self.bssid.set(2, data);
        } else if addr == 0x0480_8028 {
            self.aid_low = data;
        } else if addr == 0x0480_802A {
            self.aid_full = data;
        } else if addr == 0x0480_802C {
            self.tx_retry_limit = data & 0xFF;
        } else if addr == 0x0480_8032 {
            self.wep_enable = (data & 0x8000) != 0;
        } else if addr == 0x0480_8036 {
            self.power_us = data;
        } else if addr == 0x0480_8038 {
            self.power_tx = data;
        } else if addr == 0x0480_803C {
            self.power_state = data & 0xFF;
        } else if addr == 0x0480_8048 {
            self.unknown_power = data & 0x3;
        } else if addr == 0x0480_8050 {
            self.rx_fifo_start_addr = data;
        } else if addr == 0x0480_8052 {
            self.rx_fifo_end_addr = data;
        } else if addr == 0x0480_8054 {
        } else if addr == 0x0480_8056 {
            self.rx_fifo_write_latch = data;
        } else if addr == 0x0480_8058 {
            self.rx_fifo_read_addr = data;
        } else if addr == 0x0480_805A {
            self.rx_fifo_read_cursor = data;
        } else if addr == 0x0480_805C {
            self.rx_buf_count = data;
        } else if addr == 0x0480_8060 {
        } else if addr == 0x0480_8062 {
            self.rx_gap_addr = data;
        } else if addr == 0x0480_8064 {
            self.rx_gap_offset = data;
        } else if addr == 0x0480_8068 {
            self.tx_fifo_write_addr = data;
        } else if addr == 0x0480_806C {
            self.tx_buf_count = data & 0xFFF;
        } else if addr == 0x0480_8074 {
            self.tx_gap_addr = data;
        } else if addr == 0x0480_8076 {
            self.tx_gap_offset = data;
        } else if addr == 0x0480_8080 {
            self.tx_beacon = data;
        } else if addr == 0x0480_8084 {
            self.tx_tim_loc = data;
        } else if addr == 0x0480_8088 {
            self.listen_counter = data;
        } else if addr == 0x0480_808C {
            self.beacon_interval = data;
        } else if addr == 0x0480_808E {
            self.listen_interval = data;
        } else if addr == 0x0480_8090 {
            self.tx_cmd = data;
        } else if addr == 0x0480_8094 {
            self.tx_buf_reply_1 = data;
        } else if addr == 0x0480_80A0 {
            self.tx_loc_1 = data;
        } else if addr == 0x0480_80A4 {
            self.tx_loc_2 = data;
        } else if addr == 0x0480_80A8 {
            self.tx_loc_3 = data;
        } else if addr == 0x0480_80AC {
            self.tx_req_flags = self.tx_req_flags & !(data & 0xF);
        } else if addr == 0x0480_80AE {
            self.tx_req_flags = self.tx_req_flags | (data & 0xF);
        } else if addr == 0x0480_80B4 {
        } else if addr == 0x0480_80BC {
            self.preamble_control = data;
        } else if addr == 0x0480_80C0 {
            self.cmd_total_time = data;
        } else if addr == 0x0480_80C4 {
            self.cmd_reply_time = data;
        } else if addr == 0x0480_80D0 {
            self.rx_filter = data;
        } else if addr == 0x0480_80D4 {
            self.misc_config.set(16, data);
        } else if addr == 0x0480_80D8 {
            self.misc_config.set(17, data);
        } else if addr == 0x0480_80DA {
            self.rx_len_crop = data;
        } else if addr == 0x0480_80E0 {
            self.rx_filter_2 = data;
        } else if addr == 0x0480_80E8 {
            self.counter_control = data;
        } else if addr == 0x0480_80EA {
            self.counter_compare_control = data;
        } else if addr == 0x0480_80EC {
            self.misc_config.set(15, data);
        } else if addr == 0x0480_80EE {
            self.cmd_count_enable = (data & 1) != 0;
        } else if addr == 0x0480_80F0 {
            self.counter_compare = set_quarter(self.counter_compare, data, 0);
        } else if addr == 0x0480_80F2 {
            self.counter_compare = set_quarter(self.counter_compare, data, 1);
        } else if addr == 0x0480_80F4 {
            self.counter_compare = set_quarter(self.counter_compare, data, 2);
        } else if addr == 0x0480_80F6 {
            self.counter_compare = set_quarter(self.counter_compare, data, 3);
        } else if addr == 0x0480_80F8 {
            self.counter = set_quarter(self.counter, data, 0);
        } else if addr == 0x0480_80FA {
            self.counter = set_quarter(self.counter, data, 1);
        } else if addr == 0x0480_80FC {
            self.counter = set_quarter(self.counter, data, 2);
        } else if addr == 0x0480_80FE {
            self.counter = set_quarter(self.counter, data, 3);
        } else if addr == 0x0480_810C {
            self.content_free = data;
        } else if addr == 0x0480_8110 {
            self.pre_beacon_time = data;
        } else if addr == 0x0480_8118 {
            self.cmd_count = data;
        } else if addr == 0x0480_811C {
            self.beacon_counter = data;
        } else if addr == 0x0480_8120 {
            self.misc_config.set(0, data);
        } else if addr == 0x0480_8122 {
            self.misc_config.set(1, data);
        } else if addr == 0x0480_8124 {
            self.misc_config.set(2, data);
        } else if addr == 0x0480_8128 {
            self.misc_config.set(3, data);
        } else if addr == 0x0480_8130 {
            self.misc_config.set(4, data);
        } else if addr == 0x0480_8132 {
            self.misc_config.set(5, data);
        } else if addr == 0x0480_8134 {
            self.post_beacon_counter = data;
        } else if addr == 0x0480_8140 {
            self.misc_config.set(6, data);
        } else if addr == 0x0480_8142 {
            self.misc_config.set(7, data);
        } else if addr == 0x0480_8144 {
            self.misc_config.set(8, data);
        } else if addr == 0x0480_8146 {
            self.misc_config.set(9, data);
        } else if addr == 0x0480_8148 {
            self.misc_config.set(10, data);
        } else if addr == 0x0480_814A {
            self.misc_config.set(11, data);
        } else if addr == 0x0480_814C {
            self.misc_config.set(12, data);
        } else if addr == 0x0480_8150 {
            self.misc_config.set(13, data);
        } else if addr == 0x0480_8154 {
            self.misc_config.set(14, data);
        } else if addr == 0x0480_815A {
            self.baseband_write = data;
        } else if addr == 0x0480_815E {
            self.baseband_serial_busy = (data & 1) != 0;
        } else if addr == 0x0480_8160 {
            self.baseband_mode = data & 0x4080;
        } else if addr == 0x0480_8168 {
            self.baseband_power = data & 0x800F;
        } else if addr == 0x0480_817E {
            self.rf_data_1 = data;
        } else if addr == 0x0480_8184 {
            self.rf_serial_control = data & 0x413F;
        } else if addr == 0x0480_8194 {
            self.tx_header_control = data;
        } else if addr == 0x0480_81A0 {
        } else if addr == 0x0480_81A2 {
        } else if addr == 0x0480_81AA {
            self.rx_stats_inc_irq = data;
        } else if addr == 0x0480_81AE {
            self.rx_stats_half_overflow_irq = data;
        } else if addr == 0x0480_821C {
            self.interrupt_latch = data & WIFI_IRQ_ALL;
        } else if addr == 0x0480_824C {
            self.rx_mac_addr.set(0, data);
        } else if addr == 0x0480_824E {
            self.rx_mac_addr.set(1, data);
        } else if addr == 0x0480_8250 {
            self.rx_mac_addr.set(2, data);
        } else if addr == 0x0480_8254 {
            self.misc_config.set(18, data);
        } else if addr == 0x0480_8290 {
        }
    }

    /// The reset state: every register as `new` leaves it, the arrays of
    /// registers, both chips' registers and the RAM zeroed.
    pub open spec fn is_reset(r: Wifi) -> bool {
        &&& r == (Wifi {
            id: 0x1440,
            tx_master_enable: false,
            wep_mode: 0,
            interrupt_req: 0,
            interrupt_enable: 0,
            interrupt_latch: 0,
            mac_addr: r.mac_addr,
            bssid: r.bssid,
            aid_low: 0,
            aid_full: 0,
            wep_enable: true,
            power_us: 0,
            power_tx: 0,
            power_state: 0,
            force_power_state: 0,
            unknown_power: 0,
            rx_control: 0,
            rx_filter: 0,
            rx_filter_2: 0,
            rx_fifo_start_addr: 0,
            rx_fifo_end_addr: 0,
            rx_fifo_write_cursor: 0,
            rx_fifo_write_latch: 0,
            rx_fifo_read_addr: 0,
            rx_fifo_read_cursor: 0,
            rx_gap_addr: 0,
            rx_gap_offset: 0,
            rx_buf_count: 0,
            rx_len_crop: 0,
            rx_stats_inc_flags: 0,
            rx_stats_inc_irq: 0,
            rx_stats_half_overflow_flags: 0,
            rx_stats_half_overflow_irq: 0,
            rx_stats: r.rx_stats,
            rx_ok_count: 0,
            rx_err_count: 0,
            multiplay_rx_err_count: r.multiplay_rx_err_count,
            tx_stat_control: 0,
            tx_req_flags: 0,
            tx_busy: 0,
            tx_stat: 0,
            tx_header_control: 0,
            tx_seq_number: 0,
            tx_fifo_write_addr: 0,
            tx_gap_addr: 0,
            tx_gap_offset: 0,
            tx_beacon: 0,
            tx_cmd: 0,
            tx_loc_1: 0,
            tx_loc_2: 0,
            tx_loc_3: 0,
            tx_tim_loc: 0,
            tx_buf_count: 0,
            tx_retry_limit: 0,
            tx_err_count: 0,
            rf_pins: 0,
            rf_status: 0,
            rxtx_addr: 0,
            counter_control: 0,
            counter: 0,
            counter_compare_control: 0,
            counter_compare: 0,
            beacon_counter: 0,
            post_beacon_counter: 0,
            beacon_interval: 0,
            pre_beacon_time: 0,
            listen_counter: 0,
            listen_interval: 0,
            content_free: 0,
            cmd_count_enable: false,
            cmd_count: 0,
            cmd_total_time: 0,
            cmd_reply_time: 0,
            tx_buf_reply_1: 0,
            tx_buf_reply_2: 0,
            misc_config: r.misc_config,
            rx_mac_addr: r.rx_mac_addr,
            baseband_write: 0,
            baseband_read: 0,
            baseband_serial_busy: false,
            baseband_mode: 0,
            baseband_power: 0,
            baseband_chip: r.baseband_chip,
            rf_data_1: 0,
            rf_data_2: 0,
            rf_serial_busy: false,
            rf_serial_control: 0,
            rf_chip: r.rf_chip,
            preamble_control: 0,
            random_gen: 0x07FF,
            random_latch: 0x07FF,
            ram: r.ram,
        })
        &&& forall|i: int| 0 <= i < 3 ==> r.mac_addr@[i] == 0
        &&& forall|i: int| 0 <= i < 3 ==> r.bssid@[i] == 0
        &&& forall|i: int| 0 <= i < 16 ==> r.rx_stats@[i] == 0
        &&& forall|i: int| 0 <= i < 16 ==> r.multiplay_rx_err_count@[i] == 0
        &&& forall|i: int| 0 <= i < 19 ==> r.misc_config@[i] == 0
        &&& forall|i: int| 0 <= i < 3 ==> r.rx_mac_addr@[i] == 0
        &&& forall|i: int| 0 <= i < 256 ==> r.baseband_chip.regs@[i] == 0
        &&& forall|i: int| 0 <= i < 32 ==> r.rf_chip.regs@[i] == 0
        &&& r.ram@.len() == WIFI_RAM_SIZE
        &&& forall|i: int| 0 <= i < WIFI_RAM_SIZE ==> r.ram@[i] == 0
    }

    pub fn new() -> (r: Self)
        ensures
            r.wf(),
            r.id == 0x1440,
            r.wep_enable,
            !r.tx_master_enable,
            r.random_gen == 0x07FF,
            r.random_latch == 0x07FF,
            r.interrupt_req == 0 && r.interrupt_enable == 0 && r.interrupt_latch == 0,
            forall|i: int| 0 <= i < WIFI_RAM_SIZE ==> r.ram@[i] == 0,
            Self::is_reset(r),
    {
        Wifi {
            id: 0x1440,
            tx_master_enable: false,
            wep_mode: 0,
            interrupt_req: 0,
            interrupt_enable: 0,
            interrupt_latch: 0,
            mac_addr: [0; 3],
            bssid: [0; 3],
            aid_low: 0,
            aid_full: 0,
            wep_enable: true,
            power_us: 0,
            power_tx: 0,
            power_state: 0,
            force_power_state: 0,
            unknown_power: 0,
            rx_control: 0,
            rx_filter: 0,
            rx_filter_2: 0,
            rx_fifo_start_addr: 0,
            rx_fifo_end_addr: 0,
            rx_fifo_write_cursor: 0,
            rx_fifo_write_latch: 0,
            rx_fifo_read_addr: 0,
            rx_fifo_read_cursor: 0,
            rx_gap_addr: 0,
            rx_gap_offset: 0,
            rx_buf_count: 0,
            rx_len_crop: 0,
            rx_stats_inc_flags: 0,
            rx_stats_inc_irq: 0,
            rx_stats_half_overflow_flags: 0,
            rx_stats_half_overflow_irq: 0,
            rx_stats: [0; 16],
            rx_ok_count: 0,
            rx_err_count: 0,
            multiplay_rx_err_count: [0; 16],
            tx_stat_control: 0,
            tx_req_flags: 0,
            tx_busy: 0,
            tx_stat: 0,
            tx_header_control: 0,
            tx_seq_number: 0,
            tx_fifo_write_addr: 0,
            tx_gap_addr: 0,
            tx_gap_offset: 0,
            tx_beacon: 0,
            tx_cmd: 0,
            tx_loc_1: 0,
            tx_loc_2: 0,
            tx_loc_3: 0,
            tx_tim_loc: 0,
            tx_buf_count: 0,
            tx_retry_limit: 0,
            tx_err_count: 0,
            rf_pins: 0,
            rf_status: 0,
            rxtx_addr: 0,
            counter_control: 0,
            counter: 0,
            counter_compare_control: 0,
            counter_compare: 0,
            beacon_counter: 0,
            post_beacon_counter: 0,
            beacon_interval: 0,
            pre_beacon_time: 0,
            listen_counter: 0,
            listen_interval: 0,
            content_free: 0,
            cmd_count_enable: false,
            cmd_count: 0,
            cmd_total_time: 0,
            cmd_reply_time: 0,
            tx_buf_reply_1: 0,
            tx_buf_reply_2: 0,
            misc_config: [0; 19],
            rx_mac_addr: [0; 3],
            baseband_write: 0,
            baseband_read: 0,
            baseband_serial_busy: false,
            baseband_mode: 0,
            baseband_power: 0,
            baseband_chip: BasebandChip::new(),
            rf_data_1: 0,
            rf_data_2: 0,
            rf_serial_busy: false,
            rf_serial_control: 0,
            rf_chip: RFChip::new(),
            preamble_control: 0,
            random_gen: 0x07FF,
            random_latch: 0x07FF,
            ram: Ram::new(0x2000),
        }
    }

    /// The register values the BIOS leaves behind, for booting without it.
    pub fn fast_boot(&mut self)
        requires
            old(self).wf(),
        ensures
            final(self).wf(),
            final(self).tx_retry_limit == 0x0707,
            final(self).power_us == 1,
            final(self).power_tx == 3,
            final(self).power_state == 0x200,
            final(self).rx_fifo_start_addr == 0x4000,
            final(self).rx_fifo_end_addr == 0x4800,
            final(self).beacon_interval == 0x64,
            final(self).tx_req_flags == 0x50,
            final(self).preamble_control == 1,
            final(self).rx_filter == 0x401,
            final(self).rx_filter_2 == 0x8,
            final(self).cmd_count_enable,
            final(self).counter_compare == 0xFFFF_FFFF_FFFF_FC00,
            final(self).post_beacon_counter == 0xFFFF,
            final(self).baseband_mode == 0x100,
            final(self).baseband_power == 0x800D,
            final(self).rf_serial_control == 0x18,
            final(self).rf_pins == 0x4,
            final(self).rf_status == 0x9,
            final(self).ram@ == spec_write_le16(spec_write_le16(spec_write_le16(spec_write_le16(
                old(self).ram@, 0x1F70, 0xFFFF), 0x1F72, 0xFFFF), 0x1F76, 0xFFFF), 0x1F7E, 0xFFFF),
            final(self).misc_config@ == old(self).misc_config@.update(15, 0x3F03).update(18, 0xFFFF),
            final(self).id == old(self).id,
            final(self).interrupt_req == old(self).interrupt_req,
            final(self).interrupt_enable == old(self).interrupt_enable,
            final(self).interrupt_latch == old(self).interrupt_latch,
            final(self).random_gen == old(self).random_gen,
    {
        self.tx_retry_limit = 0x0707;
        self.power_us = 1;
        self.power_tx = 3;
        self.power_state = 0x200;
        self.rx_fifo_start_addr = 0x4000;
        self.rx_fifo_end_addr = 0x4800;
        self.beacon_interval = 0x64;
        self.tx_req_flags = 0x50;
        self.preamble_control = 1;
        self.rx_filter = 0x401;
        self.rx_filter_2 = 0x8;
        self.cmd_count_enable = true;
        self.counter_compare = 0xFFFF_FFFF_FFFF_FC00;
        self.post_beacon_counter = 0xFFFF;
        self.baseband_mode = 0x100;
        self.baseband_power = 0x800D;
        self.rf_serial_control = 0x18;
        self.rf_pins = 0x4;
        self.rf_status = 0x9;
        self.ram.write_halfword(0x1F70, 0xFFFF);
        self.ram.write_halfword(0x1F72, 0xFFFF);
        self.ram.write_halfword(0x1F76, 0xFFFF);
        self.ram.write_halfword(0x1F7E, 0xFFFF);
        self.misc_config.set(15, 0x3F03);
        self.misc_config.set(18, 0xFFFF);
    }

    /// The next value of the 11-bit random number generator.
    pub open spec fn next_random(x: u16) -> u16 {
        ((x & 1) ^ ((x << 1u16) | (x >> 10u16))) & 0x7FF
    }

    /// Advance the random number generator and move latched interrupts into
    /// the request register. Returns whether a latched interrupt is enabled.
    pub fn clock(&mut self, _cycles: usize) -> (r: bool)
        ensures
            r == ((old(self).interrupt_latch & old(self).interrupt_enable) != 0),
            *final(self) == (Wifi {
                random_gen: Self::next_random(old(self).random_gen),
                interrupt_req: old(self).interrupt_req | old(self).interrupt_latch,
                interrupt_latch: 0,
                ..*old(self)
            }),
    {
        let random_rotate = (self.random_gen << 1u16) | (self.random_gen >> 10u16);
        self.random_gen = ((self.random_gen & 1) ^ random_rotate) & 0x7FF;
        self.interrupt_req = self.interrupt_req | self.interrupt_latch;
        let trigger_irq = (self.interrupt_latch & self.interrupt_enable) != 0;
        self.interrupt_latch = 0;
        trigger_irq
    }

    /// The read address of the receive FIFO after one half-word is read:
    /// it wraps from the end back to the start, and skips the gap.
    pub open spec fn next_rx_read_addr(&self) -> u16 {
        let a1 = ((self.rx_fifo_read_addr + 2) % 0x1_0000) as u16;
        let a2 = if a1 == self.rx_fifo_end_addr { self.rx_fifo_start_addr } else { a1 };
        if a2 == self.rx_gap_addr {
            ((a2 + (self.rx_gap_offset * 2) % 0x1_0000) % 0x1_0000) as u16
        } else {
            a2
        }
    }

    /// The write address of the transmit FIFO after one half-word is
    /// written: it skips the gap.
    pub open spec fn next_tx_write_addr(&self) -> u16 {
        let a1 = ((self.tx_fifo_write_addr + 2) % 0x1_0000) as u16;
        if a1 == self.tx_gap_addr {
            ((a1 + (self.tx_gap_offset * 2) % 0x1_0000) % 0x1_0000) as u16
        } else {
            a1
        }
    }

    /// Read a half-word from the receive FIFO.
    #[verifier::rlimit(60)]
    fn read_rx_fifo(&mut self) -> (r: u16)
        requires
            old(self).wf(),
        ensures
            final(self).wf(),
            r == spec_le16(old(self).ram@, (old(self).rx_fifo_read_addr & 0x1FFE) as int),
            *final(self) == (Wifi {
                rx_fifo_read_addr: old(self).next_rx_read_addr(),
                rx_buf_count: if old(self).rx_buf_count > 0 { (old(self).rx_buf_count - 1) as u16 } else { 0 },
                interrupt_latch: if old(self).rx_buf_count == 1 {
                    old(self).interrupt_latch | WIFI_IRQ_RXBUF_COUNT_EXPIRED
                } else {
                    old(self).interrupt_latch
                },
                ..*old(self)
            }),
    {
        let a = self.rx_fifo_read_addr & 0x1FFE;
        proof {
            crate::bits::lemma_and_le16(self.rx_fifo_read_addr, 0x1FFE);
        }
        let data = self.ram.read_halfword(a as u32);
        self.rx_fifo_read_addr = self.rx_fifo_read_addr.wrapping_add(2);
        if self.rx_fifo_read_addr == self.rx_fifo_end_addr {
            self.rx_fifo_read_addr = self.rx_fifo_start_addr;
        }
        if self.rx_fifo_read_addr == self.rx_gap_addr {
            let gap_size = self.rx_gap_offset.wrapping_mul(2);
            self.rx_fifo_read_addr = self.rx_fifo_read_addr.wrapping_add(gap_size);
        }
        if self.rx_buf_count == 1 {
            self.rx_buf_count = 0;
            self.interrupt_latch = self.interrupt_latch | WIFI_IRQ_RXBUF_COUNT_EXPIRED;
        } else if self.rx_buf_count > 0 {
            self.rx_buf_count = self.rx_buf_count - 1;
        }
        data
    }

    /// Write a half-word into the transmit FIFO.
    #[verifier::rlimit(60)]
    fn write_tx_fifo(&mut self, data: u16)
        requires
            old(self).wf(),
        ensures
            final(self).wf(),
            final(self).ram@ == spec_write_le16(old(self).ram@, (old(self).tx_fifo_write_addr & 0x1FFE) as int, data),
            *final(self) == (Wifi {
                ram: final(self).ram,
                tx_fifo_write_addr: old(self).next_tx_write_addr(),
                tx_buf_count: if old(self).tx_buf_count > 0 { (old(self).tx_buf_count - 1) as u16 } else { 0 },
                interrupt_latch: if old(self).tx_buf_count == 1 {
                    old(self).interrupt_latch | WIFI_IRQ_TXBUF_COUNT_EXPIRED
                } else {
                    old(self).interrupt_latch
                },
                ..*old(self)
            }),
    {
        let a = self.tx_fifo_write_addr & 0x1FFE;
        proof {
            crate::bits::lemma_and_le16(self.tx_fifo_write_addr, 0x1FFE);
        }
        self.ram.write_halfword(a as u32, data);
        self.tx_fifo_write_addr = self.tx_fifo_write_addr.wrapping_add(2);
        if self.tx_fifo_write_addr == self.tx_gap_addr {
            let gap_size = self.tx_gap_offset.wrapping_mul(2);
            self.tx_fifo_write_addr = self.tx_fifo_write_addr.wrapping_add(gap_size);
        }
        if self.tx_buf_count == 1 {
            self.tx_buf_count = 0;
            self.interrupt_latch = self.interrupt_latch | WIFI_IRQ_TXBUF_COUNT_EXPIRED;
        } else if self.tx_buf_count > 0 {
            self.tx_buf_count = self.tx_buf_count - 1;
        }
    }

    /// A baseband serial command: direction 5 writes the write register to the
    /// indexed chip register, direction 6 reads it into the read register.
    fn baseband_control(&mut self, data: u16)
        ensures
            ({
                let index = (data & 0xFF) as u8;
                let direction = data >> 12u16;
                if direction == 5 {
                    final(self).baseband_chip.regs@ == (if baseband_rw(index) {
                        old(self).baseband_chip.regs@.update(index as int, old(self).baseband_write as u8)
                    } else {
                        old(self).baseband_chip.regs@
                    }) && *final(self) == (Wifi { baseband_chip: final(self).baseband_chip, ..*old(self) })
                } else if direction == 6 {
                    *final(self) == (Wifi { baseband_read: old(self).baseband_chip.spec_read_reg(index) as u16, ..*old(self) })
                } else {
                    *final(self) == *old(self)
                }
            }),
    {
        let index = (data & 0xFF) as u8;
        let direction = data >> 12u16;
        if direction == 5 {
            self.baseband_chip.write_reg(index, self.baseband_write as u8);
        } else if direction == 6 {
            self.baseband_read = self.baseband_chip.read_reg(index) as u16;
        }
    }

    /// An RF serial command. Bit 7 selects a read of the indexed RF register
    /// into the two data registers; otherwise the data registers are written to it.
    fn rf_data_command(&mut self, data: u16)
        requires
            old(self).rf_serial_control & 0x100 == 0,
        ensures
            ({
                let index = ((data >> 2u16) & 0x1F) as u8;
                if data & 0x80 != 0 {
                    let v = old(self).rf_chip.regs@[(index % 32) as int];
                    *final(self) == (Wifi {
                        rf_data_2: (data & 0xFFFC) | (spec_hi16(v) & 0x3),
                        rf_data_1: spec_lo16(v),
                        ..*old(self)
                    })
                } else {
                    final(self).rf_chip.regs@ == old(self).rf_chip.regs@.update((index % 32) as int, spec_make32(data & 0x3, old(self).rf_data_1))
                        && *final(self) == (Wifi { rf_data_2: data, rf_chip: final(self).rf_chip, ..*old(self) })
                }
            }),
    {
        self.rf_data_2 = data;
        let index = ((self.rf_data_2 >> 2u16) & 0x1F) as u8;
        if (self.rf_data_2 & 0x80) != 0 {
            let rf_data = self.rf_chip.read_reg(index);
            self.rf_data_2 = (self.rf_data_2 & 0xFFFC) | (hi16(rf_data) & 0x3);
            self.rf_data_1 = lo16(rf_data);
        } else {
            let rf_data = make32(self.rf_data_2 & 0x3, self.rf_data_1);
            self.rf_chip.write_reg(index, rf_data);
        }
    }

    /// Addresses that can be read.
    pub open spec fn readable(&self, addr: u32) -> bool {
        wifi_ram_addr(addr) || self.reg(addr) is Some || addr == 0x0480_8044 || addr == 0x0480_8060
    }

    pub fn read_halfword(&mut self, addr: u32) -> (r: u16)
        requires
            old(self).wf(),
            old(self).readable(addr),
        ensures
            final(self).wf(),
            wifi_ram_addr(addr) ==> r == spec_le16(old(self).ram@, addr - WIFI_RAM_BASE) && *final(self) == *old(self),
            !wifi_ram_addr(addr) && old(self).reg(addr) is Some ==> Some(r) == old(self).reg(addr) && *final(self) == *old(self),
            addr == 0x0480_8044 ==> r == old(self).random_latch
                && *final(self) == (Wifi { random_latch: old(self).random_gen, ..*old(self) }),
            addr == 0x0480_8060 ==> r == spec_le16(old(self).ram@, (old(self).rx_fifo_read_addr & 0x1FFE) as int)
                && *final(self) == (Wifi {
                    rx_fifo_read_addr: old(self).next_rx_read_addr(),
                    rx_buf_count: if old(self).rx_buf_count > 0 { (old(self).rx_buf_count - 1) as u16 } else { 0 },
                    interrupt_latch: if old(self).rx_buf_count == 1 {
                        old(self).interrupt_latch | WIFI_IRQ_RXBUF_COUNT_EXPIRED
                    } else {
                        old(self).interrupt_latch
                    },
                    ..*old(self)
                }),
    {
        if WIFI_RAM_BASE <= addr && addr <= WIFI_RAM_BASE + WIFI_RAM_SIZE - 2 {
            self.ram.read_halfword(addr - WIFI_RAM_BASE)
        } else if addr == 0x0480_8044 {
            let data = self.random_latch;
            self.random_latch = self.random_gen;
            data
        } else if addr == 0x0480_8060 {
            self.read_rx_fifo()
        } else {
            self.read_reg(addr)
        }
    }

    /// Addresses that can be written.
    pub open spec fn writable(&self, addr: u32) -> bool {
        &&& wifi_ram_addr(addr) || Self::plain_write_addr(addr) || Self::action_write_addr(addr)
        &&& addr == 0x0480_817C ==> self.rf_serial_control & 0x100 == 0
    }

    pub fn write_halfword(&mut self, addr: u32, data: u16)
        requires
            old(self).wf(),
            old(self).writable(addr),
        ensures
            final(self).wf(),
            wifi_ram_addr(addr) ==> final(self).ram@ == spec_write_le16(old(self).ram@, addr - WIFI_RAM_BASE, data)
                && *final(self) == (Wifi { ram: final(self).ram, ..*old(self) }),
            Self::plain_write_addr(addr) ==> Self::plain_write_rel(final(self), old(self), addr, data),
            addr == 0x0480_8004 ==> *final(self) == (Wifi { tx_master_enable: (data & 1) != 0, ..*old(self) }),
            addr == 0x0480_8010 ==> *final(self) == (Wifi {
                interrupt_req: old(self).interrupt_req & !(data & WIFI_IRQ_ALL),
                ..*old(self)
            }),
            addr == 0x0480_8030 ==> *final(self) == (Wifi {
                rx_control: data,
                rx_fifo_write_cursor: if data & 1 != 0 { old(self).rx_fifo_write_latch } else { old(self).rx_fifo_write_cursor },
                ..*old(self)
            }),
            addr == 0x0480_8040 ==> *final(self) == (Wifi {
                force_power_state: data,
                power_state: if data & 0x8000 != 0 { ((data & 1) * 0x200) as u16 } else { old(self).power_state },
                ..*old(self)
            }),
            addr == 0x0480_8070 ==> final(self).ram@ == spec_write_le16(old(self).ram@, (old(self).tx_fifo_write_addr & 0x1FFE) as int, data)
                && *final(self) == (Wifi {
                    ram: final(self).ram,
                    tx_fifo_write_addr: old(self).next_tx_write_addr(),
                    tx_buf_count: if old(self).tx_buf_count > 0 { (old(self).tx_buf_count - 1) as u16 } else { 0 },
                    interrupt_latch: if old(self).tx_buf_count == 1 {
                        old(self).interrupt_latch | WIFI_IRQ_TXBUF_COUNT_EXPIRED
                    } else {
                        old(self).interrupt_latch
                    },
                    ..*old(self)
                }),
            addr == 0x0480_8158 ==> ({
                let index = (data & 0xFF) as u8;
                let direction = data >> 12u16;
                if direction == 5 {
                    final(self).baseband_chip.regs@ == (if baseband_rw(index) {
                        old(self).baseband_chip.regs@.update(index as int, old(self).baseband_write as u8)
                    } else {
                        old(self).baseband_chip.regs@
                    }) && *final(self) == (Wifi { baseband_chip: final(self).baseband_chip, ..*old(self) })
                } else if direction == 6 {
                    *final(self) == (Wifi { baseband_read: old(self).baseband_chip.spec_read_reg(index) as u16, ..*old(self) })
                } else {
                    *final(self) == *old(self)
                }
            }),
            addr == 0x0480_817C ==> ({
                let index = ((data >> 2u16) & 0x1F) as u8;
                if data & 0x80 != 0 {
                    let v = old(self).rf_chip.regs@[(index % 32) as int];
                    *final(self) == (Wifi {
                        rf_data_2: (data & 0xFFFC) | (spec_hi16(v) & 0x3),
                        rf_data_1: spec_lo16(v),
                        ..*old(self)
                    })
                } else {
                    final(self).rf_chip.regs@ == old(self).rf_chip.regs@.update((index % 32) as int, spec_make32(data & 0x3, old(self).rf_data_1))
                        && *final(self) == (Wifi { rf_data_2: data, rf_chip: final(self).rf_chip, ..*old(self) })
                }
            }),
    {
        if WIFI_RAM_BASE <= addr && addr <= WIFI_RAM_BASE + WIFI_RAM_SIZE - 2 {
            self.ram.write_halfword(addr - WIFI_RAM_BASE, data);
        } else if addr == 0x0480_8004 {
            self.tx_master_enable = (data & 1) != 0;
        } else if addr == 0x0480_8010 {
            self.interrupt_req = self.interrupt_req & !(data & WIFI_IRQ_ALL);
        } else if addr == 0x0480_8030 {
            if (data & 1) != 0 {
                self.rx_fifo_write_cursor = self.rx_fifo_write_latch;
            }
            self.rx_control = data;
        } else if addr == 0x0480_8040 {
            self.force_power_state = data;
            if (data & 0x8000) != 0 {
                proof {
                    crate::bits::lemma_and_le16(data, 1);
                }
                self.power_state = (data & 0x1) * 0x200;
            }
        } else if addr == 0x0480_8070 {
            self.write_tx_fifo(data);
        } else if addr == 0x0480_8158 {
            self.baseband_control(data);
        } else if addr == 0x0480_817C {
            self.rf_data_command(data);
        } else {
            self.write_plain(addr, data);
        }
    }
}

/// The bits of a register that read back what was written to it, for
/// the registers whose write stores the value and whose read gives it
/// back; none for the others.
pub open spec fn readback_mask(addr: u32) -> Option<u16> {
    if addr == 0x0480_8006 {
        Some(0x7F)
    } else if addr == 0x0480_8008 {
        Some(0xFFFF)
    } else if addr == 0x0480_8012 {
        Some(WIFI_IRQ_ALL)
    } else if addr == 0x0480_8018 {
        Some(0xFFFF)
    } else if addr == 0x0480_801A {
        Some(0xFFFF)
    } else if addr == 0x0480_801C {
        Some(0xFFFF)
    } else if addr == 0x0480_8020 {
        Some(0xFFFF)
    } else if addr == 0x0480_8022 {
        Some(0xFFFF)
    } else if addr == 0x0480_8024 {
        Some(0xFFFF)
    } else if addr == 0x0480_8028 {
        Some(0xFFFF)
    } else if addr == 0x0480_802A {
        Some(0xFFFF)
    } else if addr == 0x0480_802C {
        Some(0xFF)
    } else if addr == 0x0480_8036 {
        Some(0xFFFF)
    } else if addr == 0x0480_8038 {
        Some(0xFFFF)
    } else if addr == 0x0480_803C {
        Some(0xFF)
    } else if addr == 0x0480_8048 {
        Some(0x3)
    } else if addr == 0x0480_8050 {
        Some(0xFFFF)
    } else if addr == 0x0480_8052 {
        Some(0xFFFF)
    } else if addr == 0x0480_8056 {
        Some(0xFFFF)
    } else if addr == 0x0480_8058 {
        Some(0xFFFF)
    } else if addr == 0x0480_805A {
        Some(0xFFFF)
    } else if addr == 0x0480_805C {
        Some(0xFFFF)
    } else if addr == 0x0480_8062 {
        Some(0xFFFF)
    } else if addr == 0x0480_8064 {
        Some(0xFFFF)
    } else if addr == 0x0480_8068 {
        Some(0xFFFF)
    } else if addr == 0x0480_806C {
        Some(0xFFF)
    } else if addr == 0x0480_8074 {
        Some(0xFFFF)
    } else if addr == 0x0480_8076 {
        Some(0xFFFF)
    } else if addr == 0x0480_8080 {
        Some(0xFFFF)
    } else if addr == 0x0480_8084 {
        Some(0xFFFF)
    } else if addr == 0x0480_8088 {
        Some(0xFFFF)
    } else if addr == 0x0480_808C {
        Some(0xFFFF)
    } else if addr == 0x0480_808E {
        Some(0xFFFF)
    } else if addr == 0x0480_8090 {
        Some(0xFFFF)
    } else if addr == 0x0480_8094 {
        Some(0xFFFF)
    } else if addr == 0x0480_80A0 {
        Some(0xFFFF)
    } else if addr == 0x0480_80A4 {
        Some(0xFFFF)
    } else if addr == 0x0480_80A8 {
        Some(0xFFFF)
    } else if addr == 0x0480_80BC {
        Some(0xFFFF)
    } else if addr == 0x0480_80C0 {
        Some(0xFFFF)
    } else if addr == 0x0480_80C4 {
        Some(0xFFFF)
    } else if addr == 0x0480_80D0 {
        Some(0xFFFF)
    } else if addr == 0x0480_80DA {
        Some(0xFFFF)
    } else if addr == 0x0480_80E0 {
        Some(0xFFFF)
    } else if addr == 0x0480_80E8 {
        Some(0xFFFF)
    } else if addr == 0x0480_80EA {
        Some(0xFFFF)
    } else if addr == 0x0480_80EC {
        Some(0xFFFF)
    } else if addr == 0x0480_810C {
        Some(0xFFFF)
    } else if addr == 0x0480_8110 {
        Some(0xFFFF)
    } else if addr == 0x0480_8118 {
        Some(0xFFFF)
    } else if addr == 0x0480_811C {
        Some(0xFFFF)
    } else if addr == 0x0480_8120 {
        Some(0xFFFF)
    } else if addr == 0x0480_8122 {
        Some(0xFFFF)
    } else if addr == 0x0480_8124 {
        Some(0xFFFF)
    } else if addr == 0x0480_8128 {
        Some(0xFFFF)
    } else if addr == 0x0480_8130 {
        Some(0xFFFF)
    } else if addr == 0x0480_8132 {
        Some(0xFFFF)
    } else if addr == 0x0480_8134 {
        Some(0xFFFF)
    } else if addr == 0x0480_8140 {
        Some(0xFFFF)
    } else if addr == 0x0480_8142 {
        Some(0xFFFF)
    } else if addr == 0x0480_8144 {
        Some(0xFFFF)
    } else if addr == 0x0480_8146 {
        Some(0xFFFF)
    } else if addr == 0x0480_8148 {
        Some(0xFFFF)
    } else if addr == 0x0480_814A {
        Some(0xFFFF)
    } else if addr == 0x0480_814C {
        Some(0xFFFF)
    } else if addr == 0x0480_8150 {
        Some(0xFFFF)
    } else if addr == 0x0480_8154 {
        Some(0xFFFF)
    } else if addr == 0x0480_8160 {
        Some(0x4080)
    } else if addr == 0x0480_8168 {
        Some(0x800F)
    } else if addr == 0x0480_817E {
        Some(0xFFFF)
    } else if addr == 0x0480_8184 {
        Some(0x413F)
    } else if addr == 0x0480_8194 {
        Some(0xFFFF)
    } else if addr == 0x0480_81AA {
        Some(0xFFFF)
    } else if addr == 0x0480_81AE {
        Some(0xFFFF)
    } else if addr == 0x0480_824C {
        Some(0xFFFF)
    } else if addr == 0x0480_824E {
        Some(0xFFFF)
    } else if addr == 0x0480_8250 {
        Some(0xFFFF)
    } else {
        None
    }
}

/// `data` kept to the bits of `mask` (all of them for 0xFFFF).
pub open spec fn masked(data: u16, mask: u16) -> u16 {
    if mask == 0xFFFF { data } else { data & mask }
}

/// A register read after a plain write gives the value written, masked to
/// the register's bits; the RAM reads back the half-word written there.
pub proof fn lemma_write_then_read(old: Wifi, new: Wifi, addr: u32, data: u16)
    requires
        old.wf(),
        Wifi::plain_write_addr(addr),
        readback_mask(addr) is Some,
        Wifi::plain_write_rel(&new, &old, addr, data),
    ensures
        new.reg(addr) == Some(masked(data, readback_mask(addr).unwrap())),
        forall|other: u32| other != addr && #[trigger] readback_mask(other) is Some ==> new.reg(other) == old.reg(other),
{
}

/// A half-word written to the RAM window reads back unchanged.
pub proof fn lemma_ram_write_then_read(old: Wifi, new: Wifi, addr: u32, data: u16)
    requires
        old.wf(),
        wifi_ram_addr(addr),
        new.ram@ == spec_write_le16(old.ram@, addr - WIFI_RAM_BASE, data),
    ensures
        spec_le16(new.ram@, addr - WIFI_RAM_BASE) == data,
{
    lemma_halfword_write_read(old.ram@, addr - WIFI_RAM_BASE, data);
}

} // verus!
