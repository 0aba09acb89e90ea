use uno_wifi_app::hal::simple_timer;
use uno_wifi_app::hal::timer::{
    enable_agtimers, enable_gptimers, select_period, AGTCfg, AGTPrescaler, AGTimer0, AGTimer1,
    CountDir, GPTSourceT, GptConfigRegs, Gpt0, Gpt2, Gpt7, PeriodicCounts, Prescaler, TimerError,
    TimerExt, TimerMode, PwmMode,
};

fn zero_regs() -> GptConfigRegs {
    GptConfigRegs { gtcr: 0, gtuddtyc: 0, gtssr: 0, gtpsr: 0, gtcsr: 0, gtpr: 0, gtpbr: 0 }
}

#[test]
fn module_stop_bits() {
    let mut d: u32 = 0xFFFF_FFFF;
    enable_gptimers(&mut d);
    assert_eq!(d, 0xFFFF_FF9F);
    enable_agtimers(&mut d);
    assert_eq!(d, 0xFFFF_FF93);
    let mut d2: u32 = 0xFFFF_FFFF;
    simple_timer::enable_gptimers(&mut d2);
    assert_eq!(d2, 0xFFFF_FF9F);
}

#[test]
fn prescaler_divisors_and_bits() {
    let all = [
        (Prescaler::PCLKD_1, 1, 0),
        (Prescaler::PCLKD_4, 4, 1),
        (Prescaler::PCLKD_16, 16, 2),
        (Prescaler::PCLKD_64, 64, 3),
        (Prescaler::PCLKD_256, 256, 4),
        (Prescaler::PCLKD_1024, 1024, 5),
    ];
    for (p, d, b) in all {
        assert_eq!(p.divisor(), d);
        assert_eq!(p.bits(), b);
    }
    assert_eq!(TimerMode::PERIODIC.bits(), 0);
    assert_eq!(TimerMode::ONE_SHOT.bits(), 1);
    assert_eq!(PwmMode::SAWTOOTH_WAVE_PWM.bits(), 0);
    assert_eq!(PwmMode::TRIANGLE_WAVE_SYMMETRIC_PWM.bits(), 4);
    assert_eq!(PwmMode::TRIANGLE_WAVE_ASYMMETRIC_PWM.bits(), 5);
    assert_eq!(PwmMode::TRIANGLE_WAVE_ASYMMETRIC_PWM_MODE3.bits(), 6);
    assert_eq!(AGTPrescaler::PCLKD_2.bits(), 3);
    assert_eq!(AGTPrescaler::Divided_AGTSCLK.bits(), 6);
}

#[test]
fn source_bits() {
    assert_eq!(GPTSourceT::NONE.bits(), 0);
    assert_eq!(GPTSourceT::GTETRGB_FALLING.bits(), 1 << 3);
    assert_eq!(GPTSourceT::GTIOCA_RISING_WHILE_GTIOCB_LOW.bits(), 1 << 8);
    assert_eq!(GPTSourceT::GPT_H.bits(), 1 << 23);
    assert_eq!(GPTSourceT::SOFTWARE.bits(), 0x8000_0000);
}

#[test]
fn count_dir_conversions() {
    assert_eq!(CountDir::from(true), CountDir::Up);
    assert_eq!(CountDir::from(false), CountDir::Down);
    assert!(bool::from(CountDir::Up));
    assert!(!bool::from(CountDir::Down));
}

#[test]
fn period_selection_picks_smallest_divisor() {
    // 9600 Hz from 48 MHz: 5000 ticks fit a 16-bit counter undivided.
    assert_eq!(select_period(5000, 0xFFFF), Ok((5000, Prescaler::PCLKD_1)));
    // 1 Hz on a 16-bit counter needs /1024 (the /64 divider is skipped).
    assert_eq!(select_period(48_000_000, 0xFFFF), Ok((46875, Prescaler::PCLKD_1024)));
    // 1 Hz on a 32-bit counter fits undivided.
    assert_eq!(select_period(48_000_000, u32::MAX), Ok((48_000_000, Prescaler::PCLKD_1)));
    // Exactly the counter's top does not fit; a quarter of it does.
    assert_eq!(select_period(0xFFFF, 0xFFFF), Ok((0x3FFF, Prescaler::PCLKD_4)));
    assert_eq!(select_period(0x40000, 0xFFFF), Ok((0x4000, Prescaler::PCLKD_16)));
    assert_eq!(select_period(0x200000, 0xFFFF), Ok((0x2000, Prescaler::PCLKD_256)));
}

#[test]
fn period_selection_fails_when_nothing_fits() {
    assert_eq!(select_period(70_000_000, 0xFFFF), Err(TimerError::InvalidFrequencySetting));
    assert_eq!(select_period(u64::MAX, u32::MAX), Err(TimerError::InvalidFrequencySetting));
    // 1024 * 65535 ticks: the /1024 count reaches the top, which does not fit.
    assert_eq!(select_period(1024 * 0xFFFF, 0xFFFF), Err(TimerError::InvalidFrequencySetting));
    assert_eq!(select_period(1024 * 0xFFFF - 1, 0xFFFF), Ok((0xFFFE, Prescaler::PCLKD_1024)));
}

#[test]
fn gpt_periodic_configuration() {
    let t = Gpt2.into_timer();
    assert_eq!(t.get_channel(), 2);
    let mut regs = zero_regs();
    regs.gtcr = 0xFFFF_FFFF;
    let t = t.into_periodic(&mut regs.gtcr);
    assert_eq!(regs.gtcr, 0);
    let cfg = PeriodicCounts {
        gtssr: GPTSourceT::SOFTWARE,
        gtpsr: GPTSourceT::SOFTWARE,
        gtcsr: GPTSourceT::SOFTWARE,
        count_dir: CountDir::Up,
        target_counts: 48_000_000,
    };
    let t = t.configure(cfg, &mut regs);
    assert_eq!(regs.gtuddtyc, 1);
    assert_eq!(regs.gtssr, 0x8000_0000);
    assert_eq!(regs.gtpsr, 0x8000_0000);
    assert_eq!(regs.gtcsr, 0x8000_0000);
    assert_eq!(regs.gtpr, 46875);
    assert_eq!(regs.gtpbr, 46875);
    assert_eq!(regs.gtcr, 5 << 24);

    let mut gtstr: u32 = 0b1000_0001;
    t.start(&mut gtstr);
    assert_eq!(gtstr, 0b1000_0101);
    let mut gtst: u32 = 0x8040;
    assert!(t.has_overflowed(gtst));
    t.clear_overflow_flag(&mut gtst);
    assert_eq!(gtst, 0x8000);
    assert!(!t.has_overflowed(gtst));
    let mut gtstp: u32 = 0;
    let mut gtclr: u32 = 0xFF;
    let _t = t.release(&mut gtstp, &mut gtclr);
    assert_eq!(gtstp, 1 << 2);
    assert_eq!(gtclr, 1 << 2);
}

#[test]
fn gpt_pwm_mode_and_32bit_channel() {
    let t = Gpt0.into_timer();
    let mut gtcr: u32 = 0;
    let _p = t.into_pwm(&mut gtcr);
    assert_eq!(gtcr, 4 << 16);
    let t7 = Gpt7.into_timer().into_periodic(&mut gtcr);
    assert_eq!(gtcr, 0);
    let mut regs = zero_regs();
    let cfg = PeriodicCounts {
        gtssr: GPTSourceT::NONE,
        gtpsr: GPTSourceT::GPT_A,
        gtcsr: GPTSourceT::SOFTWARE,
        count_dir: CountDir::Down,
        target_counts: 0x3_0000,
    };
    let t7 = t7.configure(cfg, &mut regs);
    assert_eq!(regs.gtuddtyc, 0);
    assert_eq!(regs.gtssr, 0);
    assert_eq!(regs.gtpsr, 1 << 16);
    assert_eq!(regs.gtpr, 0xC000);
    assert_eq!(regs.gtcr, 1 << 24);
    let mut gtstp: u32 = 0;
    t7.stop(&mut gtstp);
    assert_eq!(gtstp, 0x80);
    let mut gtclr: u32 = 0;
    t7.clear(&mut gtclr);
    assert_eq!(gtclr, 0x80);
}

#[test]
fn agt_configuration_and_flags() {
    let t = AGTimer0.into_timer();
    let mut agt: u16 = 0;
    let mut agtmr1: u8 = 0x0F;
    let t = t.configure(AGTCfg { counts: 3000, prescaler: AGTPrescaler::PCLKD_8 }, &mut agt, &mut agtmr1);
    assert_eq!(agt, 3000);
    assert_eq!(agtmr1, 0x1F);
    let mut agtcr: u8 = 0;
    t.start(&mut agtcr);
    assert_eq!(agtcr, 0xF1);
    let mut agtcr: u8 = 0x25;
    assert!(t.has_underflowed(agtcr));
    t.clear_underflow_flag(&mut agtcr);
    assert_eq!(agtcr, 0xD5);
    assert!(!t.has_underflowed(agtcr));
    t.stop(&mut agtcr);
    assert_eq!(agtcr, 0xF4);
    t.clear(&mut agt);
    assert_eq!(agt, 0xFFFF);
    let mut agtcr2: u8 = 0x05;
    let _u = t.release(&mut agtcr2, &mut agt);
    assert_eq!(agtcr2, 0xF4);
    let _t1 = AGTimer1.into_timer();
}

#[test]
fn simple_timer_setup_values() {
    let mut gtstr: u32 = 0;
    simple_timer::start_timer(4, &mut gtstr);
    assert_eq!(gtstr, 0x10);
    let mut gtstp: u32 = 1;
    simple_timer::stop_timer(7, &mut gtstp);
    assert_eq!(gtstp, 0x81);
    assert_eq!(simple_timer::get_reg_block_for_gpt16(2), 0x4007_8200);
    assert_eq!(simple_timer::get_reg_block_for_gpt16(7), 0x4007_8700);
    let mut regs = simple_timer::SimpleTimerRegs {
        gtssr: 0,
        gtpsr: 0,
        gtcsr: 0,
        gtuddtyc: 0x0100_0000,
        gtcr: 0,
        gtpr: 0,
        gtpbr: 0,
        gtcnt: 77,
        gtior: 0xFFFF_FFFF,
        gtccra: 0,
        gtccrb: 0,
        gtber: 0,
    };
    let mut mstpcrd: u32 = 0xFFFF_FFFF;
    let mut gtstp: u32 = 0;
    let mut gtstr: u32 = 0b1;
    simple_timer::get_timer(&mut mstpcrd, &mut gtstp, &mut regs, &mut gtstr);
    assert_eq!(mstpcrd, 0xFFFF_FF9F);
    assert_eq!(gtstp, 0b1_0000);
    assert_eq!(gtstr, 0b1_0001);
    assert_eq!(regs.gtssr, 0x8000_0000);
    assert_eq!(regs.gtuddtyc, 0x0100_0001);
    assert_eq!(regs.gtcr, 0x0100_0000);
    assert_eq!(regs.gtpr, 1250);
    assert_eq!(regs.gtpbr, 1250);
    assert_eq!(regs.gtcnt, 0);
    assert_eq!(regs.gtior, 0xFFEC_FFEC);
    assert_eq!(regs.gtccra, 0xFFFF);
    assert_eq!(regs.gtber, 0x0015_0000);
}
