use uno_wifi_app::arduino_led_matrix::ArduinoLEDMatrix;
use uno_wifi_app::light_snake;
use uno_wifi_app::hal::gpio::{Pin, PFS_PCR, PFS_PDR, PFS_PODR};
use uno_wifi_app::hal::timer::{GptConfigRegs, Gpt2, TimerExt};
use uno_wifi_app::led_matrix::{
    flatmap_frame, is_gpt32_channel, led_timer_event, overflow_block_addr, reverse, turn_led, AnimationData,
    DisplayState, LEDMatrix, LedDrive, PINS,
};

const HEART: [u32; 3] = [
    0b00110001100001001010010001000100,
    0b01000010000010000001000100000000,
    0b10100000000001000000000000000000,
];

static FRAMES: [[u32; 4]; 2] = [[0x8000_0000, 0, 0, 100], [0, 0, 1, 200]];
static NO_FRAMES: [[u32; 4]; 0] = [];

fn frame_bit(frame: &[u32; 3], k: usize) -> bool {
    (frame[k / 32] >> (31 - k % 32)) & 1 == 1
}

#[test]
fn reverse_bit_order() {
    assert_eq!(reverse(1), 0x8000_0000);
    assert_eq!(reverse(0x8000_0000), 1);
    assert_eq!(reverse(0x0000_FFFF), 0xFFFF_0000);
    assert_eq!(reverse(0x1234_5678), 0x1E6A_2C48);
    assert_eq!(reverse(reverse(0xDEAD_BEEF)), 0xDEAD_BEEF);
}

#[test]
fn led_pin_pairs() {
    assert_eq!(PINS[0], [7, 3]);
    assert_eq!(PINS[95], [9, 4]);
    for k in 0..96 {
        assert_ne!(PINS[k][0], PINS[k][1]);
        assert!(PINS[k][0] < 11 && PINS[k][1] < 11);
        for j in 0..k {
            assert_ne!(PINS[j], PINS[k]);
        }
    }
}

#[test]
fn turn_led_clears_then_drives_pair() {
    let mut p0: u32 = 0xFFFF_FFFF;
    let mut p2: u32 = 0xFFFF_FFFF;
    let d = turn_led(0, true, &mut p0, &mut p2);
    assert_eq!(p0, 0xFFFF_47E7);
    assert_eq!(p2, 0xFFFF_CF8F);
    assert_eq!(
        d,
        Some(LedDrive { hi_addr: 0x4004_0894, hi_pfs: 5, lo_addr: 0x4004_0830, lo_pfs: 4 })
    );
    let mut p0: u32 = 0;
    let mut p2: u32 = 0;
    assert_eq!(turn_led(95, false, &mut p0, &mut p2), None);
    // LED 95 is driven by pins 9 (P212) and 4 (P013).
    let d = turn_led(95, true, &mut p0, &mut p2).unwrap();
    assert_eq!(d.hi_addr, 0x4004_08B0);
    assert_eq!(d.lo_addr, 0x4004_0834);
}

#[test]
fn timer_event_and_blocks() {
    assert_eq!(led_timer_event(2), 0x6D);
    assert_eq!(led_timer_event(0), 0x5D);
    assert_eq!(overflow_block_addr(3), 0x4007_833C);
    assert!(is_gpt32_channel(1));
    assert!(!is_gpt32_channel(2));
}

#[test]
fn animation_frames() {
    let single = AnimationData::SingleFrame([1, 2, 3, 4]);
    assert_eq!(single.len(), 1);
    assert_eq!(single.get_frame(0), Some([1, 2, 3, 4]));
    assert_eq!(single.get_frame(1), None);
    let anim = AnimationData::Animation(&FRAMES);
    assert_eq!(anim.len(), 2);
    assert_eq!(anim.get_frame(1), Some([0, 0, 1, 200]));
    assert_eq!(anim.get_frame(2), None);
    let empty = AnimationData::Animation(&NO_FRAMES);
    assert_eq!(empty.len(), 0);
    assert_eq!(empty.get_frame(0), None);
}

#[test]
fn loaded_frame_is_shown_by_the_interrupt() {
    let mut s = DisplayState::new();
    s.load_frame(HEART, 7);
    assert_eq!(s.framebuffer(), [reverse(HEART[0]), reverse(HEART[1]), reverse(HEART[2])]);
    assert_eq!(s.frame_duration(), 0);
    assert_eq!(s.frame_start_millis(), 7);
    for k in 0..96 {
        assert_eq!(s.current_pin_idx(), k);
        let (led, on) = s.tick(1_000_000);
        assert_eq!(led, k);
        assert_eq!(on, frame_bit(&HEART, k));
    }
    // After all 96 LEDs the interrupt starts over; the frame stays.
    assert_eq!(s.current_pin_idx(), 0);
    assert_eq!(s.framebuffer(), [reverse(HEART[0]), reverse(HEART[1]), reverse(HEART[2])]);
}

#[test]
fn looping_sequence_advances_after_its_duration() {
    let mut s = DisplayState::new();
    s.load_sequence(&FRAMES, true, 1000);
    assert_eq!(s.framebuffer(), [1, 0, 0]);
    assert_eq!(s.current_frame_idx(), 1);
    assert_eq!(s.frame_duration(), 100);
    assert_eq!(s.tick(1050), (0, true));
    assert_eq!(s.framebuffer(), [1, 0, 0]);
    // 101 ms after the start the frame has run its time.
    assert_eq!(s.tick(1101), (1, false));
    assert_eq!(s.framebuffer(), [0, 0, 0x8000_0000]);
    assert_eq!(s.frame_start_millis(), 1101);
    assert_eq!(s.current_frame_idx(), 0);
    assert_eq!(s.frame_duration(), 200);
    assert_eq!(s.tick(1302), (2, false));
    assert_eq!(s.framebuffer(), [1, 0, 0]);
    assert_eq!(s.frame_duration(), 100);
}

#[test]
fn sequence_without_loop_holds_its_last_frame() {
    let mut s = DisplayState::new();
    s.load_sequence(&FRAMES, false, 0);
    assert_eq!(s.frame_duration(), 100);
    s.tick(101);
    assert_eq!(s.framebuffer(), [0, 0, 0x8000_0000]);
    assert_eq!(s.frame_duration(), 0);
    s.tick(100_000);
    assert_eq!(s.framebuffer(), [0, 0, 0x8000_0000]);
}

#[test]
fn empty_sequence_changes_nothing_shown() {
    let mut s = DisplayState::new();
    s.load_frame(HEART, 0);
    s.load_sequence(&NO_FRAMES, true, 5);
    assert_eq!(s.framebuffer(), [reverse(HEART[0]), reverse(HEART[1]), reverse(HEART[2])]);
    assert_eq!(s.frame_duration(), 0);
    assert_eq!(s.current_frame_idx(), 0);
    s.next();
    assert_eq!(s.current_frame_idx(), 0);
}

#[test]
fn led_matrix_driver_setup() {
    let timer = Gpt2.into_timer();
    let mut regs = GptConfigRegs { gtcr: 0xFFFF_FFFF, gtuddtyc: 0, gtssr: 0, gtpsr: 0, gtcsr: 0, gtpr: 0, gtpbr: 0 };
    let mut gtstr: u32 = 0;
    let mut pfs = [PFS_PDR | PFS_PCR; 11];
    let mut m = LEDMatrix::new(
        Pin::new(), Pin::new(), Pin::new(), Pin::new(), Pin::new(), Pin::new(),
        Pin::new(), Pin::new(), Pin::new(), Pin::new(), Pin::new(), &mut pfs,
        timer, &mut regs, &mut gtstr,
    );
    assert_eq!(pfs, [0; 11]);
    assert_eq!(regs.gtpr, 5000);
    assert_eq!(regs.gtpbr, 5000);
    assert_eq!(regs.gtcr, 0);
    assert_eq!(regs.gtuddtyc, 1);
    assert_eq!(regs.gtssr, 0x8000_0000);
    assert_eq!(gtstr, 0b100);
    assert_eq!(m.channel(), 2);
    assert_eq!(m.timer_event(), 0x6D);
    let mut gtstp: u32 = 0;
    m.stop(&mut gtstp);
    assert_eq!(gtstp, 0b100);
    let mut p0: u32 = 0xFFFF;
    let mut p2: u32 = 0xFFFF;
    assert!(m.on(3, &mut p0, &mut p2).is_some());
    m.off(3, &mut p0, &mut p2);
    assert_eq!(p0, 0x47E7);
    let mut s = DisplayState::new();
    m.load_frame(&mut s, [0x8000_0000, 0, 0], 9);
    assert_eq!(s.tick(9), (0, true));
    m.clear(&mut s, 10);
    assert_eq!(s.framebuffer(), [0, 0, 0]);
    m.load_sequence(&mut s, &FRAMES, false, 11);
    assert_eq!(s.framebuffer(), [1, 0, 0]);
}

#[test]
fn polled_matrix_renders_one_led_per_call() {
    let mut setup = [PFS_PDR | PFS_PODR; 11];
    let mut m = ArduinoLEDMatrix::new(
        Pin::new(), Pin::new(), Pin::new(), Pin::new(), Pin::new(), Pin::new(),
        Pin::new(), Pin::new(), Pin::new(), Pin::new(), Pin::new(), &mut setup,
    );
    assert_eq!(setup, [PFS_PODR; 11]);
    // Only LED 0 (first bit of the frame) and LED 2 are lit.
    m.load_frame([0xA000_0000, 0, 0]);
    let mut pfs = [PFS_PODR; 11];
    m.render_frame(&mut pfs);
    // LED 0: pin 7 high, pin 3 low, the others floating inputs.
    for k in 0..11 {
        let expected = match k {
            7 => PFS_PDR | PFS_PODR,
            3 => PFS_PDR,
            _ => PFS_PODR,
        };
        assert_eq!(pfs[k], expected);
    }
    // LED 1 is dark: every pin is a floating input.
    m.render_frame(&mut pfs);
    assert!(pfs.iter().all(|&v| v & PFS_PDR == 0));
    // LED 2: pin 7 high, pin 4 low.
    m.render_frame(&mut pfs);
    assert_eq!(pfs[7] & (PFS_PDR | PFS_PODR), PFS_PDR | PFS_PODR);
    assert_eq!(pfs[4] & (PFS_PDR | PFS_PODR), PFS_PDR);
    m.on(10, &mut pfs);
    m.off(10, &mut pfs);
    assert!(pfs.iter().all(|&v| v & PFS_PDR == 0));
    m.clear(&mut pfs);
    assert!(pfs.iter().all(|&v| v & PFS_PDR == 0));
}

#[test]
fn flat_map_packs_first_led_into_top_bit() {
    let mut map = [0u8; 96];
    map[0] = 1;
    map[31] = 7;
    map[33] = 1;
    map[95] = 255;
    assert_eq!(flatmap_frame(&map), [0x8000_0001, 0x4000_0000, 0x0000_0001]);
    assert_eq!(flatmap_frame(&[0u8; 96]), [0, 0, 0]);
    assert_eq!(flatmap_frame(&[1u8; 96]), [u32::MAX, u32::MAX, u32::MAX]);
}

#[test]
fn rendered_flat_map_lights_exactly_its_nonzero_leds() {
    let timer = Gpt2.into_timer();
    let mut regs = GptConfigRegs { gtcr: 0, gtuddtyc: 0, gtssr: 0, gtpsr: 0, gtcsr: 0, gtpr: 0, gtpbr: 0 };
    let mut gtstr: u32 = 0;
    let mut pfs = [PFS_PDR | PFS_PCR; 11];
    let mut m = LEDMatrix::new(
        Pin::new(), Pin::new(), Pin::new(), Pin::new(), Pin::new(), Pin::new(),
        Pin::new(), Pin::new(), Pin::new(), Pin::new(), Pin::new(), &mut pfs,
        timer, &mut regs, &mut gtstr,
    );
    let mut map = [0u8; 96];
    light_snake(93, 5, &mut map);
    let mut s = DisplayState::new();
    m.render_flatmap(&mut s, &map, 3);
    assert_eq!(s.frame_duration(), 0);
    for k in 0..96 {
        let (led, on) = s.tick(1_000);
        assert_eq!(led, k);
        assert_eq!(on, map[k] != 0, "led {}", k);
        assert_eq!(on, k >= 93 || k <= 2, "led {}", k);
    }
}
