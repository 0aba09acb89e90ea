use uno_wifi_app::hal::gpio::erased::{AnyPin, Dynamic, DynamicPinErased, PinModeError, Unknown};
use uno_wifi_app::hal::gpio::unor4::port0::{Port0, P003};
use uno_wifi_app::hal::gpio::unor4::port2::Port2;
use uno_wifi_app::hal::gpio::{
    lock_pmnpfs_register, unlock_pmnpfs_register, Drain, GpioExt, Input, Modes, Output,
    OutputOpenDrain, OutputType, Pin, PinExt, PinState, Pull, PushPull, PFS_NCODR, PFS_PCR,
    PFS_PDR, PFS_PIDR, PFS_PMR, PFS_PODR,
};

#[test]
fn pin_register_addresses() {
    assert_eq!(Pin::<0, 3, Input>::register_addr(), 0x4004_080C);
    assert_eq!(Pin::<2, 13, Input>::register_addr(), 0x4004_08B4);
    assert_eq!(Pin::<4, 1, Input>::register_addr(), 0x4004_0904);
    let p: P003<Input> = Pin::new();
    assert_eq!(p.pin_id(), 3);
    assert_eq!(p.port_id(), 0);
    assert_eq!(p.pmnpfs_addr(), 0x4004_080C);
}

#[test]
fn input_levels_read_pidr() {
    let p: Pin<1, 5, Input> = Pin::new();
    assert!(p.is_high(PFS_PIDR));
    assert!(!p.is_low(PFS_PIDR));
    assert!(p.is_low(0));
    assert!(p.is_low(PFS_PODR | PFS_PDR));
}

#[test]
fn push_pull_output_from_input() {
    let p: Pin<0, 12, Input> = Pin::new();
    // Output latch high, open drain set: the pin becomes a push-pull
    // output driven low.
    let mut pfs = PFS_PODR | PFS_NCODR | 0x0100_0000;
    let mut out = p.into_push_pull_output(&mut pfs);
    assert_eq!(pfs, PFS_PDR | 0x0100_0000);
    out.set_high(&mut pfs);
    assert_eq!(pfs, PFS_PDR | PFS_PODR | 0x0100_0000);
    out.set_low(&mut pfs);
    assert_eq!(pfs, PFS_PDR | 0x0100_0000);
}

#[test]
fn open_drain_output_and_back_to_input() {
    let p: Pin<4, 0, Input> = Pin::new();
    let mut pfs = PFS_PODR;
    let od = p.into_open_drain_output(&mut pfs);
    assert_eq!(pfs, PFS_PDR | PFS_NCODR);
    // Output to input: the direction bit is cleared; the open drain bit
    // stays, since input fixes no output type.
    let inp = od.into_pullup_input(&mut pfs);
    assert_eq!(pfs, PFS_NCODR | PFS_PCR);
    let inp = inp.internal_resistor(&mut pfs, Pull::Floating);
    assert_eq!(pfs, PFS_NCODR);
    let _ = inp;
}

#[test]
fn input_to_input_writes_nothing() {
    let p: Pin<0, 4, Input> = Pin::new();
    let mut pfs = PFS_PDR | PFS_PODR;
    let _q = p.into_input(&mut pfs);
    assert_eq!(pfs, PFS_PDR | PFS_PODR);
}

#[test]
fn input_new_sets_pull() {
    let p: Pin<0, 4, Output<PushPull>> = Pin::new();
    let mut pfs = PFS_PDR;
    let _i = Input::new(p, &mut pfs, Pull::Up);
    assert_eq!(pfs, PFS_PCR);
}

#[test]
fn output_in_state_writes_latch_first() {
    let p: Pin<3, 1, Input> = Pin::new();
    let mut pfs = 0;
    let _o = p.into_push_pull_output_in_state(&mut pfs, PinState::High);
    assert_eq!(pfs, PFS_PODR | PFS_PDR);
}

#[test]
fn toggle_and_state_follow_direction_bit() {
    let mut p: Pin<0, 11, Output<PushPull>> = Pin::new();
    // Direction bit clear: the pin reads as set low, toggling drives high.
    let mut pfs = 0;
    assert!(p.is_set_low(pfs));
    assert_eq!(p.get_state(pfs), PinState::Low);
    p.toggle(&mut pfs);
    assert_eq!(pfs, PFS_PODR);
    // Direction bit set: the pin reads as set high, toggling drives low.
    let mut pfs = PFS_PDR | PFS_PODR;
    assert!(p.is_set_high(pfs));
    assert_eq!(p.get_state(pfs), PinState::High);
    p.toggle(&mut pfs);
    assert_eq!(pfs, PFS_PDR);
    p.set_state(&mut pfs, PinState::High);
    assert_eq!(pfs, PFS_PDR | PFS_PODR);
    p.set_state(&mut pfs, PinState::Low);
    assert_eq!(pfs, PFS_PDR);
}

#[test]
fn mode_in_place() {
    let mut p: Pin<0, 13, Input> = Pin::new();
    let mut pfs = 0;
    p.mode::<Output<OutputOpenDrain>>(&mut pfs);
    assert_eq!(pfs, PFS_PDR | PFS_NCODR);
    let q: Pin<0, 13, Output<PushPull>> = Pin::new();
    let _r: Pin<0, 13, Output<OutputOpenDrain>> = q.into_mode(&mut pfs);
    assert_eq!(pfs, PFS_PDR | PFS_NCODR);
}

#[test]
fn pwpr_unlock_then_lock() {
    let mut pwpr: u8 = 0x80;
    unlock_pmnpfs_register(&mut pwpr);
    assert_eq!(pwpr, 0x40);
    lock_pmnpfs_register(&mut pwpr);
    assert_eq!(pwpr, 0x80);
}

#[test]
fn mode_conversions() {
    assert!(bool::from(Modes::Output));
    assert!(!bool::from(Modes::Input));
    assert!(bool::from(OutputType::OpenDrain));
    assert!(!bool::from(OutputType::PushPull));
    assert!(bool::from(Drain::Open));
    assert!(!bool::from(Drain::Cmos));
    assert!(bool::from(Pull::Up));
    assert!(!bool::from(Pull::Floating));
    assert_eq!(PinState::from(true), PinState::High);
    assert_eq!(PinState::from(false), PinState::Low);
}

#[test]
fn erased_pin_keeps_port_and_pin() {
    let p: Pin<2, 12, Input> = Pin::new();
    let a: AnyPin<Input> = p.erase();
    assert_eq!(a.pin_id(), 12);
    assert_eq!(a.port_id(), 2);
    assert_eq!(a.pmnpfs_addr(), 0x4004_08B0);
    assert_eq!(a.into_pin_port(), 0x2C);
    let b: AnyPin<Input> = AnyPin::from(Pin::<1, 15, Input>::new());
    assert_eq!(b.into_pin_port(), 0x1F);
    let c: AnyPin<Unknown> = AnyPin::new(9, 14, 0x1234);
    assert_eq!(c.port_id(), 9);
    assert_eq!(c.pin_id(), 14);
    let d: AnyPin<Unknown> = AnyPin::from_pin_port(0x9E, 0x1234);
    assert_eq!(d.into_pin_port(), 0x9E);
}

#[test]
fn erased_pin_output_latch() {
    let mut a: AnyPin<Output<PushPull>> = AnyPin::new(0, 3, 0);
    let mut pfs = PFS_PDR;
    assert!(a.is_set_low(pfs));
    a.set_high(&mut pfs);
    assert_eq!(pfs, PFS_PDR | PFS_PODR);
    assert!(a.is_set_high(pfs));
    assert_eq!(a.get_state(pfs), PinState::High);
    a.set_low(&mut pfs);
    assert_eq!(a.get_state(pfs), PinState::Low);
}

#[test]
fn erased_pin_into_mode_and_dynamic() {
    let a: AnyPin<Input> = AnyPin::new(2, 5, 0x4004_0894);
    let mut pfs = 0;
    let o: AnyPin<Output<PushPull>> = a.into_mode(&mut pfs);
    assert_eq!(pfs, PFS_PDR);
    let d = o.into_dynamic();
    assert_eq!(d.port_id(), 2);
    assert_eq!(d.pin_id(), 5);
    assert_eq!(d.pmnpfs_addr(), 0x4004_0894);
    assert_eq!(d.into_pin_port(), 0x25);
}

#[test]
fn dynamic_modes() {
    assert!(Dynamic::InputFloating.is_input());
    assert!(Dynamic::InputPullUp.is_input());
    assert!(Dynamic::OutputOpenDrain.is_input());
    assert!(!Dynamic::OutputPushPull.is_input());
    assert!(Dynamic::OutputPushPull.is_output());
    assert!(Dynamic::OutputOpenDrain.is_output());
    assert!(!Dynamic::InputFloating.is_output());
    assert!(!Dynamic::InputPullUp.is_output());
}

#[test]
fn dynamic_pin_refuses_output_as_input() {
    let mut d = DynamicPinErased::new(0, 3, Dynamic::InputFloating, 0x4004_080C);
    let mut pfs = 0;
    assert_eq!(d.set_high(&mut pfs), Err(PinModeError::IncorrectMode));
    assert_eq!(d.set_low(&mut pfs), Err(PinModeError::IncorrectMode));
    assert_eq!(pfs, 0);
    d.make_push_pull_output(&mut pfs);
    assert_eq!(pfs, PFS_PDR);
    assert_eq!(d.set_high(&mut pfs), Ok(()));
    assert_eq!(pfs, PFS_PDR | PFS_PODR);
    assert_eq!(d.set_low(&mut pfs), Ok(()));
    assert_eq!(pfs, PFS_PDR);
    d.make_floating_input(&mut pfs);
    assert_eq!(pfs, 0);
    assert_eq!(d.set_high(&mut pfs), Err(PinModeError::IncorrectMode));
    // A pulled-up output becomes a floating input: direction and pull-up
    // are cleared, the latch and open drain are kept.
    let mut pfs = PFS_PDR | PFS_PCR | PFS_PODR | PFS_NCODR;
    d.make_floating_input(&mut pfs);
    assert_eq!(pfs, PFS_PODR | PFS_NCODR);
}

#[test]
fn dynamic_from_typed_pin() {
    let p: Pin<2, 6, Input> = Pin::new();
    let mut pfs = PFS_PDR | PFS_PCR | PFS_PMR;
    let d = p.into_fully_erased_dynamic(&mut pfs);
    assert_eq!(pfs, PFS_PMR);
    assert_eq!(d.port_id(), 2);
    assert_eq!(d.pin_id(), 6);
    assert_eq!(d.pmnpfs_addr(), 0x4004_0898);
}

#[test]
fn ports_split_into_input_pins() {
    let parts = Port0.split();
    assert_eq!(parts.p015.pin_id(), 15);
    assert_eq!(parts.p000.port_id(), 0);
    let parts2 = Port2.split();
    assert_eq!(parts2.p213.pin_id(), 13);
    assert_eq!(parts2.p213.port_id(), 2);
}
