use uno_wifi_app::hal::gpio::Pin;
use uno_wifi_app::hal::i2c::{I2cBus, IicInitRegs, Iic0};
use uno_wifi_app::modulinos::{
    Button, Modulino, ModulinoButtons, ModulinoPixels, ModulinoThermo, Pixel, ThermoRaw,
};

fn bus() -> I2cBus<Iic0> {
    let (mut sda, mut scl) = (0u32, 0u32);
    let mut regs = IicInitRegs { iccr1: 0, icmr1: 0, icbrh: 0, icbrl: 0, icier: 0, iccr1_steps: [0; 3] };
    I2cBus::new(Iic0, Pin::new(), Pin::new(), &mut sda, &mut scl, &mut regs)
}

#[test]
fn pixel_brightness_scaling() {
    let mut p = Pixel { brightness: 0, b: 0, g: 0, r: 0 };
    p.set(10, 20, 30, 100);
    assert_eq!((p.brightness, p.r, p.b, p.g), (0xFF, 10, 20, 30));
    p.set(0, 0, 0, 50);
    assert_eq!(p.brightness, 0xEF);
    p.set(0, 0, 0, 0);
    assert_eq!(p.brightness, 0xE0);
}

#[test]
fn pixel_strip_buffer_layout() {
    let mut px = ModulinoPixels::new(bus());
    assert_eq!(px.address(), 0x36);
    let fresh = px.as_buffer();
    for i in 0..8 {
        assert_eq!(&fresh[4 * i..4 * i + 4], &[0xE0, 0, 0, 0]);
    }
    px.set(0, 255, 0, 255, 50);
    px.set(7, 1, 2, 3, 100);
    px.set(8, 9, 9, 9, 9);
    let buf = px.as_buffer();
    assert_eq!(&buf[0..4], &[0xEF, 255, 0, 255]);
    assert_eq!(&buf[28..32], &[0xFF, 3, 2, 1]);
    for i in 1..7 {
        assert_eq!(&buf[4 * i..4 * i + 4], &[0xE0, 0, 0, 0]);
    }
    for i in 0..8 {
        assert_eq!(buf[4 * i] & 0xE0, 0xE0);
    }
    px.clear_pixel(7);
    assert_eq!(&px.as_buffer()[28..32], &[0xE0, 0, 0, 0]);
    px.clear_all();
    let buf = px.as_buffer();
    for i in 0..8 {
        assert_eq!(&buf[4 * i..4 * i + 4], &[0xE0, 0, 0, 0]);
    }
}

#[test]
fn thermo_decoding() {
    let mut t = ModulinoThermo::new(bus());
    assert_eq!(t.address(), 0x44);
    t.store_results([0x5A, 0x3C, 0x66, 0x88]);
    assert_eq!(t.stale_bits(), 1);
    assert_eq!(
        t.decode(),
        ThermoRaw { stale: true, raw_humidity: 0x1A3C, raw_temperature: 0x19A2 }
    );
    t.store_results([0x3F, 0xFF, 0xFF, 0xFF]);
    assert_eq!(
        t.decode(),
        ThermoRaw { stale: false, raw_humidity: 0x3FFF, raw_temperature: 0x3FFF }
    );
    t.store_results([0xC0, 0, 0, 0]);
    assert_eq!(t.stale_bits(), 3);
}

#[test]
fn buttons_update_and_pressed() {
    let mut b = ModulinoButtons::new(bus());
    assert_eq!(b.address(), 0x3E);
    assert!(!b.is_pressed(Button::A));
    assert_eq!(b.update([0x7C, 1, 0, 0]), Ok(true));
    assert!(b.is_pressed(Button::A));
    assert!(!b.is_pressed(Button::B));
    assert!(!b.is_pressed(Button::C));
    assert_eq!(b.update([0x00, 1, 0, 0]), Ok(false));
    assert_eq!(b.update([0x7C, 1, 0, 5]), Ok(true));
    assert!(b.is_pressed(Button::C));
    assert_eq!(b.led_payload(true, false, true), [1, 0, 1]);
    assert_eq!(Button::B.index(), 1);
}
