use uno_wifi_app::hal::interrupts::{
    ielsr_address, ielsr_clear_ir, ielsr_event_code, ielsr_link, IRQn_Type as HalIrq,
};
use uno_wifi_app::hal::timer::{AGTimer0, AGTimer1, TimerExt};
use uno_wifi_app::interrupts::IRQn_Type;
use uno_wifi_app::millis_timer::{
    agtcr_clear_underflow, millis_timer_config, MillisCounter, MillisTimer,
};
use uno_wifi_app::{light_snake, pct_humid, scale, snake_tick, temp_c};

#[test]
fn scale_maps_ranges() {
    assert_eq!(scale(50, 0, 100, 0, 31), 15);
    assert_eq!(scale(100, 0, 100, 0, 31), 31);
    assert_eq!(scale(20, 10, 20, 100, 200), 200);
    assert_eq!(scale(15, 10, 20, 100, 200), 150);
}

#[test]
fn snake_wraps_around_the_matrix() {
    let mut map = [0u8; 96];
    light_snake(94, 5, &mut map);
    for (i, v) in map.iter().enumerate() {
        let lit = matches!(i, 94 | 95 | 0 | 1 | 2 | 3);
        assert_eq!(*v, lit as u8, "led {}", i);
    }
    let mut map = [7u8; 96];
    light_snake(10, 0, &mut map);
    assert_eq!(map[10], 1);
    assert_eq!(map[11], 7);
    let mut map = [0u8; 96];
    light_snake(200, 200, &mut map);
    assert!(map.iter().all(|&v| v == 1));
}

#[test]
fn humidity_and_temperature_steps() {
    assert_eq!(pct_humid(0), 0);
    assert_eq!(pct_humid(16382), 0);
    assert_eq!(pct_humid(16383), 100);
    assert_eq!(pct_humid(65535), 400);
    assert_eq!(temp_c(0), -40);
    assert_eq!(temp_c(16383), 125);
    assert_eq!(temp_c(65535), 620);
}

#[test]
fn interrupt_numbers() {
    assert_eq!(HalIrq::FSP_INVALID_VECTOR.number(), -33);
    assert_eq!(HalIrq::SysTick_IRQn.number(), -1);
    assert_eq!(HalIrq::AGT0_INT_IRQn.number(), 17);
    assert_eq!(HalIrq::IIC0_TXI_IRQn.number(), 31);
    assert_eq!(IRQn_Type::USBFS_USBI.number(), 0);
    assert_eq!(IRQn_Type::SCI9_ERI.number(), 7);
}

#[test]
fn icu_registers() {
    assert_eq!(ielsr_address(0), 0x4000_6300);
    assert_eq!(ielsr_address(9), 0x4000_6324);
    assert_eq!(ielsr_event_code(0x0001_006D), 0x6D);
    assert_eq!(ielsr_link(0x1E), 0x1E);
    let mut v: u32 = 0x0101_001E;
    ielsr_clear_ir(&mut v);
    assert_eq!(v, 0x0100_001E);
}

#[test]
fn millis_counting() {
    let mut c = MillisCounter::new();
    assert_eq!(c.get(), 0);
    c.tick();
    c.tick();
    c.tick();
    assert_eq!(c.get(), 3);
    let cfg = millis_timer_config();
    assert_eq!(cfg.counts, 3000);
    let mut agt: u16 = 0;
    let mut mr1: u8 = 0;
    let mut t = MillisTimer::new(AGTimer0.into_timer(), &mut agt, &mut mr1);
    assert_eq!(agt, 3000);
    assert_eq!(mr1, 0x10);
    assert_eq!(t.underflow_event(), 0x1E);
    let mut agtcr: u8 = 0;
    t.start(&mut agtcr);
    assert_eq!(agtcr, 0xF1);
    t.stop(&mut agtcr);
    assert_eq!(agtcr, 0xF4);
    t.clear(&mut agt);
    assert_eq!(agt, 0xFFFF);
    let t1 = MillisTimer::new(AGTimer1.into_timer(), &mut agt, &mut mr1);
    assert_eq!(t1.underflow_event(), 0x21);
    let mut agtcr: u8 = 0x21;
    agtcr_clear_underflow(&mut agtcr);
    assert_eq!(agtcr, 0xD1);
}

#[test]
fn snake_moves_once_its_tick_has_passed() {
    assert_eq!(snake_tick(1249, 1000, 7, 250), None);
    assert_eq!(snake_tick(1250, 1000, 7, 250), Some(8));
    assert_eq!(snake_tick(5000, 1000, 94, 250), Some(95));
    assert_eq!(snake_tick(5000, 1000, 95, 250), Some(0));
    assert_eq!(snake_tick(1000, 1000, 3, 0), Some(4));
}
