use spa::interrupt::{INT_IPC_RECV_NEMPTY, INT_IPC_SEND_EMPTY, INT_IPC_SYNC};
use spa::ipc::{FifoView, IPC, IPC_ENABLE_FIFO, IPC_ERROR, IPC_RECV_FIFO_IRQ, IPC_SEND_FIFO_IRQ};

fn view(send_empty: bool, recv_empty: bool) -> FifoView {
    FifoView { send_empty, send_full: false, recv_empty, recv_full: false }
}

#[test]
fn sync_register_exchange() {
    let (mut arm9, arm7) = IPC::new();
    assert_eq!(arm9.name, "ARM9");
    assert_eq!(arm7.name, "ARM7");
    assert!(!arm9.write_sync_reg(0x0A00 | 0x4000));
    assert_eq!(arm9.sync_out, 0xA);
    assert!(arm9.irq_enable);
    assert_eq!(arm9.read_sync_reg(3), 0x4A03);
    assert_eq!(arm7.read_sync_reg(arm9.sync_out), 0x000A);
    assert!(arm9.write_sync_reg(0x2000));
    assert!(!arm9.irq_enable);
}

#[test]
fn control_register() {
    let (mut a, _) = IPC::new();
    a.write_control_reg(0xFFFF);
    assert_eq!(a.read_control_reg(view(true, true)), 0x8404 | 0x0101);
    assert!(a.fifo_enabled());
    // An empty channel: the error bit, and the last word again.
    assert_eq!(a.fifo_read(None), 0);
    assert_eq!(a.read_control_reg(view(true, true)) & IPC_ERROR, IPC_ERROR);
    assert_eq!(a.fifo_read(Some(0x1234)), 0x1234);
    assert_eq!(a.fifo_read(None), 0x1234);
    // Writing the error bit clears it.
    a.write_control_reg(IPC_ENABLE_FIFO | IPC_ERROR);
    assert_eq!(a.read_control_reg(view(false, false)), IPC_ENABLE_FIFO);
    a.fifo_write(false);
    assert_eq!(a.control & IPC_ERROR, IPC_ERROR);
    a.write_control_reg(0);
    a.fifo_write(false);
    assert_eq!(a.fifo_read(Some(5)), 0x1234);
}

#[test]
fn fifo_interrupts_on_edges() {
    let (mut a, _) = IPC::new();
    a.write_control_reg(IPC_SEND_FIFO_IRQ | IPC_RECV_FIFO_IRQ);
    assert_eq!(a.get_interrupts(false, true, false).bits, 0);
    assert_eq!(a.get_interrupts(true, true, false).bits, INT_IPC_SEND_EMPTY);
    assert_eq!(a.get_interrupts(true, true, false).bits, 0);
    assert_eq!(a.get_interrupts(true, false, false).bits, INT_IPC_RECV_NEMPTY);
    assert_eq!(a.get_interrupts(true, false, false).bits, 0);
    assert_eq!(a.get_interrupts(true, false, true).bits, 0);
    a.write_sync_reg(0x4000);
    assert_eq!(a.get_interrupts(true, false, true).bits, INT_IPC_SYNC);
}
