use uno_wifi_app::hal::gpio::Pin;
use uno_wifi_app::hal::i2c::{
    check_bus_free, enable_qwiic_bus, peripheral_mode, peripheral_select, BusState, I2cBus,
    I2cError, IicInitRegs, Iic0, NoAcknowledgeSource, ReadWait, RxiAction, Transaction, IIC_PSEL,
};

fn idle() -> RxiAction {
    RxiAction { set_wait: false, nack: false, dummy_read: false, store_at: None, clear_wait: false }
}

#[test]
fn qwiic_bus_enable_and_pin_function() {
    let mut b: u32 = 0xFFFF_FFFF;
    enable_qwiic_bus(&mut b);
    assert_eq!(b, 0xFFFF_FDFF);
    let mut pfs: u32 = 0x0300_0044;
    peripheral_mode(&mut pfs);
    assert_eq!(pfs, 0x0301_0044);
    peripheral_select(&mut pfs, IIC_PSEL);
    assert_eq!(pfs, 0x0701_0044);
}

#[test]
fn bus_events() {
    // Reset values of the registers the set-up touches.
    let mut sda: u32 = 0;
    let mut scl: u32 = 0x0000_0005;
    let mut regs = IicInitRegs {
        iccr1: 0x1F,
        icmr1: 0x08,
        icbrh: 0xFF,
        icbrl: 0xFF,
        icier: 0x00,
        iccr1_steps: [0; 3],
    };
    let bus: I2cBus<Iic0> = I2cBus::new(Iic0, Pin::new(), Pin::new(), &mut sda, &mut scl, &mut regs);
    // Open drain, pulled-up input, peripheral mode, IIC function.
    assert_eq!(sda, 0x0701_0050);
    assert_eq!(scl, 0x0701_0050);
    // ICE off, reset on, ICE on under reset; then reset released.
    assert_eq!(regs.iccr1_steps, [0x1F, 0x5F, 0xDF]);
    assert_eq!(regs.iccr1, 0x9F);
    assert_eq!(regs.icmr1, 0x28);
    assert_eq!(regs.icbrh, 0xF6);
    assert_eq!(regs.icbrl, 0xFB);
    assert_eq!(regs.icier, 0xF0);
    let e = bus.events();
    assert_eq!((e.rxi, e.txi, e.tei, e.eei), (0x35, 0x36, 0x37, 0x38));
}

#[test]
fn write_sends_address_then_bytes() {
    let mut t = Transaction::new();
    t.begin_write(0x36, &[0xE1, 0x00, 0xFF]);
    assert_eq!(t.state(), BusState::Writing(0x36, 0, 3));
    assert!(!t.is_finished());
    assert_eq!(t.on_txi(), Some(0x6C));
    assert_eq!(t.on_txi(), Some(0xE1));
    t.on_tei();
    assert_eq!(t.state(), BusState::Writing(0x36, 1, 3));
    assert_eq!(t.on_txi(), Some(0x00));
    assert_eq!(t.on_txi(), Some(0xFF));
    assert_eq!(t.on_txi(), None);
    assert_eq!(t.state(), BusState::Writing(0x36, 3, 3));
    t.on_tei();
    assert_eq!(t.state(), BusState::Complete);
    assert!(t.is_finished());
    assert_eq!(t.finish(), Ok(()));
    assert_eq!(t.state(), BusState::Idle);
}

#[test]
fn empty_write_completes_after_address() {
    let mut t = Transaction::new();
    t.begin_write(0x44, &[]);
    assert_eq!(t.on_txi(), Some(0x88));
    t.on_tei();
    assert_eq!(t.state(), BusState::Complete);
}

#[test]
fn nak_on_address_and_on_data() {
    let mut t = Transaction::new();
    t.begin_write(0x3E, &[1, 2]);
    assert_eq!(t.on_txi(), Some(0x7C));
    t.on_nak();
    assert_eq!(t.state(), BusState::Error(I2cError::NoAcknowledge(NoAcknowledgeSource::Address)));
    // After the error the interrupts leave the state alone.
    assert_eq!(t.on_txi(), None);
    t.on_tei();
    assert_eq!(t.rxi_action(), idle());
    t.on_rxi(9);
    assert!(t.is_finished());
    assert_eq!(t.finish(), Err(I2cError::NoAcknowledge(NoAcknowledgeSource::Address)));
    assert_eq!(t.state(), BusState::Idle);

    t.begin_write(0x3E, &[1, 2]);
    assert_eq!(t.on_txi(), Some(0x7C));
    assert_eq!(t.on_txi(), Some(1));
    t.on_nak();
    assert_eq!(t.finish(), Err(I2cError::NoAcknowledge(NoAcknowledgeSource::Data)));
}

#[test]
fn read_of_one_byte() {
    let mut t = Transaction::new();
    t.begin_read(0x3E, 1);
    assert_eq!(t.on_txi(), Some(0x7D));
    assert_eq!(t.on_txi(), None);
    let a = t.rxi_action();
    assert_eq!(
        a,
        RxiAction { set_wait: true, nack: true, dummy_read: true, store_at: Some(0), clear_wait: false }
    );
    t.on_rxi(0xAB);
    assert_eq!(t.state(), BusState::Complete);
    assert_eq!(got(&t, 1), vec![0xAB]);
}

#[test]
fn read_of_two_bytes() {
    let mut t = Transaction::new();
    t.begin_read(0x44, 2);
    assert_eq!(t.on_txi(), Some(0x89));
    assert_eq!(t.rxi_action(), RxiAction { set_wait: true, dummy_read: true, ..idle() });
    t.on_rxi(0x00);
    assert_eq!(t.state(), BusState::Reading(0x44, 1, 2));
    assert_eq!(t.rxi_action(), RxiAction { nack: true, store_at: Some(0), ..idle() });
    t.on_rxi(0x12);
    assert_eq!(t.rxi_action(), RxiAction { store_at: Some(1), clear_wait: true, ..idle() });
    t.on_rxi(0x34);
    assert_eq!(t.state(), BusState::Complete);
    assert_eq!(got(&t, 2), vec![0x12, 0x34]);
}

#[test]
fn read_of_four_bytes() {
    let mut t = Transaction::new();
    t.begin_read(0x3E, 4);
    assert_eq!(t.on_txi(), Some(0x7D));
    let expected = [
        RxiAction { dummy_read: true, ..idle() },
        RxiAction { store_at: Some(0), ..idle() },
        RxiAction { set_wait: true, store_at: Some(1), ..idle() },
        RxiAction { nack: true, store_at: Some(2), ..idle() },
        RxiAction { store_at: Some(3), clear_wait: true, ..idle() },
    ];
    let data = [0x99, 0x7C, 1, 0, 1];
    for (i, e) in expected.iter().enumerate() {
        assert_eq!(t.rxi_action(), *e);
        t.on_rxi(data[i]);
    }
    assert_eq!(t.state(), BusState::Complete);
    assert_eq!(got(&t, 4), vec![0x7C, 1, 0, 1]);
    assert_eq!(t.finish(), Ok(()));
    assert_eq!(got(&t, 4), vec![0, 0, 0, 0]);
}

#[test]
fn nak_during_read() {
    let mut t = Transaction::new();
    t.begin_read(0x10, 3);
    t.on_nak();
    assert_eq!(t.state(), BusState::Error(I2cError::NoAcknowledge(NoAcknowledgeSource::Address)));
    let mut t = Transaction::new();
    t.begin_read(0x10, 3);
    t.on_rxi(0);
    t.on_nak();
    assert_eq!(t.state(), BusState::Error(I2cError::NoAcknowledge(NoAcknowledgeSource::Data)));
    let mut t = Transaction::new();
    t.on_nak();
    assert_eq!(t.state(), BusState::Error(I2cError::NoAcknowledge(NoAcknowledgeSource::Data)));
}

#[test]
fn reset_clears_everything() {
    let mut t = Transaction::new();
    t.begin_write(1, &[5; 32]);
    assert_eq!(got(&t, 32), vec![5; 32]);
    t.reset();
    assert_eq!(t.state(), BusState::Idle);
    assert_eq!(got(&t, 32), vec![0; 32]);
}

#[test]
fn busy_bus_refuses_a_start() {
    assert_eq!(check_bus_free(0x80), Err(I2cError::Bus));
    assert_eq!(check_bus_free(0xFF), Err(I2cError::Bus));
    assert_eq!(check_bus_free(0x7F), Ok(()));
}

#[test]
fn receive_plans_of_a_two_byte_read() {
    let mut t = Transaction::new();
    t.begin_read(0x44, 2);
    assert_eq!(t.read_wait(), ReadWait::Pending);
    // First interrupt: WAIT, then the dummy read.
    let p = t.rxi_plan(0x00);
    assert_eq!(&p.icmr3_before[..p.icmr3_count], &[0x40]);
    assert!(p.dummy_read && !p.read_byte);
    assert_eq!(p.icmr3_after, None);
    t.on_rxi(0x99);
    // Second: NACK (ACKWP, ACKBT, ACKWP off), then the first byte.
    let p = t.rxi_plan(0x40);
    assert_eq!(&p.icmr3_before[..p.icmr3_count], &[0x50, 0x58, 0x48]);
    assert!(!p.dummy_read && p.read_byte);
    assert_eq!(p.icmr3_after, None);
    t.on_rxi(0xAA);
    // Third: the last byte, then WAIT cleared.
    let p = t.rxi_plan(0x48);
    assert_eq!(p.icmr3_count, 0);
    assert!(p.read_byte);
    assert_eq!(p.icmr3_after, Some(0x08));
    t.on_rxi(0xBB);
    assert_eq!(t.read_wait(), ReadWait::CopyOut);
    assert_eq!(got(&t, 2), vec![0xAA, 0xBB]);
}

#[test]
fn receive_plan_of_a_one_byte_read_and_a_failed_one() {
    let mut t = Transaction::new();
    t.begin_read(0x3E, 1);
    let p = t.rxi_plan(0x00);
    assert_eq!(p.icmr3_before, [0x40, 0x50, 0x58, 0x48]);
    assert_eq!(p.icmr3_count, 4);
    assert!(p.dummy_read && p.read_byte);
    assert_eq!(p.icmr3_after, None);
    t.on_rxi(0x12);
    assert_eq!(t.read_wait(), ReadWait::CopyOut);
    assert_eq!(got(&t, 1), vec![0x12]);
    let mut f = Transaction::new();
    f.begin_read(0x3E, 4);
    f.on_nak();
    assert_eq!(f.read_wait(), ReadWait::Failed);
    let p = f.rxi_plan(0x00);
    assert!(p.icmr3_count == 0 && !p.dummy_read && !p.read_byte);
    assert_eq!(p.icmr3_after, None);
}

/// The first `n` bytes the transaction gives back.
fn got(t: &Transaction, n: usize) -> Vec<u8> {
    let mut out = vec![0u8; n];
    t.received(&mut out);
    out
}
