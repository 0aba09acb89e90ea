//! The 12 x 8 charlieplexed LED matrix of the board.
//!
//! The matrix lights one LED at a time: a timer interrupt steps through the
//! 96 LEDs and lights each one whose bit is set in the frame buffer. The
//! display state and its animation logic live here; the interrupt handler
//! and the register writes it asks for live with the caller.
use vstd::prelude::*;

use crate::hal::gpio::erased::{floating_input_pfs, Dynamic, DynamicPinErased};
use crate::hal::gpio::{Input, Pin};
use crate::hal::timer::{
    channel_bit, gtcr_with_mode, gtcr_with_prescaler, period_selection, Configured, CountDir,
    GPTSourceT, GPTimer, GptConfigRegs, NotSet, Periodic, PeriodicCounts, Prescaler,
    TimerInstance, TimerMode, TimerSize, Unconfigured, GTUDDTYC_UD, MCU_FREQ,
};

verus! {

/// Number of LEDs in the matrix.
pub const NUM_LEDS: u8 = 96;

/// For each LED, counting from the top left, the pair `[HI, LO]` of
/// matrix pins (indices into the eleven driver pins) to drive high and low
/// to light it.
pub const PINS: [[u8; 2]; 96] = [
    [7, 3],
    [3, 7],
    [7, 4],
    [4, 7],
    [3, 4],
    [4, 3],
    [7, 8],
    [8, 7],
    [3, 8],
    [8, 3],
    [4, 8],
    [8, 4],
    [7, 0],
    [0, 7],
    [3, 0],
    [0, 3],
    [4, 0],
    [0, 4],
    [8, 0],
    [0, 8],
    [7, 6],
    [6, 7],
    [3, 6],
    [6, 3],
    [4, 6],
    [6, 4],
    [8, 6],
    [6, 8],
    [0, 6],
    [6, 0],
    [7, 5],
    [5, 7],
    [3, 5],
    [5, 3],
    [4, 5],
    [5, 4],
    [8, 5],
    [5, 8],
    [0, 5],
    [5, 0],
    [6, 5],
    [5, 6],
    [7, 1],
    [1, 7],
    [3, 1],
    [1, 3],
    [4, 1],
    [1, 4],
    [8, 1],
    [1, 8],
    [0, 1],
    [1, 0],
    [6, 1],
    [1, 6],
    [5, 1],
    [1, 5],
    [7, 2],
    [2, 7],
    [3, 2],
    [2, 3],
    [4, 2],
    [2, 4],
    [8, 2],
    [2, 8],
    [0, 2],
    [2, 0],
    [6, 2],
    [2, 6],
    [5, 2],
    [2, 5],
    [1, 2],
    [2, 1],
    [7, 10],
    [10, 7],
    [3, 10],
    [10, 3],
    [4, 10],
    [10, 4],
    [8, 10],
    [10, 8],
    [0, 10],
    [10, 0],
    [6, 10],
    [10, 6],
    [5, 10],
    [10, 5],
    [1, 10],
    [10, 1],
    [2, 10],
    [10, 2],
    [7, 9],
    [9, 7],
    [3, 9],
    [9, 3],
    [4, 9],
    [9, 4]
];

/// PCNTR1 direction bits of the matrix pins on port 0 (3, 4, 11, 12, 13, 15).
pub const LEDPORT0BITMASK: u16 = 0xB818;

/// PCNTR1 direction bits of the matrix pins on port 2 (4, 5, 6, 12, 13).
pub const LEDPORT2BITMASK: u16 = 0x3070;

/// Address of the PmnPFS register block.
pub const PIN_PFS_BASE: usize = 0x4004_0800;

/// Distance between the PFS registers of two neighbouring pins.
pub const PIN_PFS_OFFSET: usize = 0x04;

/// Offset of each matrix pin's PFS register: P003, P004, P011, P012, P013,
/// P015, P204, P205, P206, P212, P213.
pub const PIN_OFFSETS: [usize; 11] = [
    0x0C,
    0x10,
    0x2C,
    0x30,
    0x34,
    0x3C,
    0x90,
    0x94,
    0x98,
    0xB0,
    0xB4,
];

/// PFS value that drives a matrix pin as an output, high (PODR | PDR).
pub const LED_HIGH_PFS: u32 = 0x5;

/// PFS value that drives a matrix pin as an output, low (PDR).
pub const LED_LOW_PFS: u32 = 0x4;

/// The matrix pins that light LED `idx`: `(high, low)`.
pub open spec fn led_pins(idx: int) -> (u8, u8) {
    (PINS[idx][0], PINS[idx][1])
}


/// Every LED is driven by two different pins among the eleven.
pub proof fn lemma_led_pins_valid(idx: int)
    requires
        0 <= idx < 96,
    ensures
        led_pins(idx).0 != led_pins(idx).1,
        led_pins(idx).0 < 11,
        led_pins(idx).1 < 11,
{
}


/// Distinct LEDs are driven by distinct pin pairs.
pub proof fn lemma_led_pins_distinct(i: int, j: int)
    requires
        0 <= i < 96,
        0 <= j < 96,
        i != j,
    ensures
        led_pins(i) != led_pins(j),
{
}

/// ICU interrupt slot the display's timer overflow is linked to.
pub const LED_IRQ_SLOT: usize = 9;

/// Display refresh rate in Hz: each LED gets one of 96 slots.
pub const LED_REFRESH_HZ: u32 = 9600;

/// ICU event of the counter overflow of GPT channel `channel`: the GPT
/// events start at 0x57, eight per channel, overflow being the seventh.
pub fn led_timer_event(channel: u8) -> (r: u8)
    requires
        channel < 8,
    ensures
        r == 0x57 + 8 * channel + 6,
{
    0x57 + 8 * channel + 6
}

/// Address the interrupt handler uses for the status register block of GPT
/// channel `channel`.
pub fn overflow_block_addr(channel: u8) -> (r: usize)
    requires
        channel < 8,
    ensures
        r == 0x4007_803C + 0x100 * channel,
{
    0x4007_803C + 0x100 * (channel as usize)
}

/// Whether GPT channel `channel` is one of the two 32-bit ones.
pub fn is_gpt32_channel(channel: u8) -> (r: bool)
    requires
        channel < 8,
    ensures
        r == (channel <= 1),
{
    channel <= 1
}

/// The register writes that light one LED.
#[derive(Debug, Clone, Copy, PartialEq, Eq, Structural)]
pub struct LedDrive {
    /// Address of the PFS register of the pin driven high.
    pub hi_addr: usize,
    /// Value written there.
    pub hi_pfs: u32,
    /// Address of the PFS register of the pin driven low.
    pub lo_addr: usize,
    /// Value written there.
    pub lo_pfs: u32,
}

/// Address of the PFS register of matrix pin `pin`.
pub open spec fn led_pin_addr(pin: int) -> int {
    PIN_PFS_BASE + PIN_OFFSETS[pin]
}

/// Turns the whole matrix off by making its eleven pins inputs (clearing
/// their direction bits in the PCNTR1 registers of ports 0 and 2), then,
/// when `on`, says which two PFS writes light LED `idx`.
pub fn turn_led(idx: usize, on: bool, port0_pcntr1: &mut u32, port2_pcntr1: &mut u32) -> (r:
    Option<LedDrive>)
    requires
        idx < 96,
    ensures
        *final(port0_pcntr1) == *old(port0_pcntr1) & !(LEDPORT0BITMASK as u32),
        *final(port2_pcntr1) == *old(port2_pcntr1) & !(LEDPORT2BITMASK as u32),
        r is Some <==> on,
        r matches Some(d) ==> {
            &&& d.hi_addr == led_pin_addr(led_pins(idx as int).0 as int)
            &&& d.hi_pfs == LED_HIGH_PFS
            &&& d.lo_addr == led_pin_addr(led_pins(idx as int).1 as int)
            &&& d.lo_pfs == LED_LOW_PFS
        },
{
    *port0_pcntr1 = *port0_pcntr1 & !(LEDPORT0BITMASK as u32);
    *port2_pcntr1 = *port2_pcntr1 & !(LEDPORT2BITMASK as u32);
    let pair = PINS[idx];
    let hi = pair[0];
    let lo = pair[1];
    proof {
        lemma_led_pins_valid(idx as int);
    }
    if on {
        Some(
            LedDrive {
                hi_addr: PIN_PFS_BASE + PIN_OFFSETS[hi as usize],
                hi_pfs: LED_HIGH_PFS,
                lo_addr: PIN_PFS_BASE + PIN_OFFSETS[lo as usize],
                lo_pfs: LED_LOW_PFS,
            },
        )
    } else {
        None
    }
}

/// The bits of `x` in reverse order (bit 0 swapped with bit 31, and so on),
/// by swapping neighbouring bits, pairs, nibbles, bytes and half-words.
pub open spec fn reverse_bits(x: u32) -> u32 {
    let x1 = ((x >> 1u32) & 0x55555555u32) | ((x & 0x55555555u32) << 1u32);
    let x2 = ((x1 >> 2u32) & 0x33333333u32) | ((x1 & 0x33333333u32) << 2u32);
    let x3 = ((x2 >> 4u32) & 0x0f0f0f0fu32) | ((x2 & 0x0f0f0f0fu32) << 4u32);
    let x4 = ((x3 >> 8u32) & 0x00ff00ffu32) | ((x3 & 0x00ff00ffu32) << 8u32);
    ((x4 >> 16u32) & 0x0000ffffu32) | ((x4 & 0x0000ffffu32) << 16u32)
}

/// Bit `i` of `x`.
pub open spec fn bit_of(x: u32, i: u32) -> bool {
    (x >> i) & 1u32 == 1u32
}

/// Reverses the bit order of a frame word.
pub fn reverse(x: u32) -> (r: u32)
    ensures
        r == reverse_bits(x),
{
    let mut x = ((x >> 1) & 0x55555555u32) | ((x & 0x55555555u32) << 1);
    x = ((x >> 2) & 0x33333333u32) | ((x & 0x33333333u32) << 2);
    x = ((x >> 4) & 0x0f0f0f0fu32) | ((x & 0x0f0f0f0fu32) << 4);
    x = ((x >> 8) & 0x00ff00ffu32) | ((x & 0x00ff00ffu32) << 8);
    x = ((x >> 16) & 0x0000ffffu32) | ((x & 0x0000ffffu32) << 16);
    x
}

/// Bit `i` of the reversed word is bit `31 - i` of the word.
pub proof fn lemma_reverse_bit(x: u32, i: u32)
    requires
        i < 32,
    ensures
        bit_of(reverse_bits(x), i) == bit_of(x, (31 - i) as u32),
{
    let x1 = ((x >> 1u32) & 0x55555555u32) | ((x & 0x55555555u32) << 1u32);
    let x2 = ((x1 >> 2u32) & 0x33333333u32) | ((x1 & 0x33333333u32) << 2u32);
    let x3 = ((x2 >> 4u32) & 0x0f0f0f0fu32) | ((x2 & 0x0f0f0f0fu32) << 4u32);
    let x4 = ((x3 >> 8u32) & 0x00ff00ffu32) | ((x3 & 0x00ff00ffu32) << 8u32);
    let x5 = ((x4 >> 16u32) & 0x0000ffffu32) | ((x4 & 0x0000ffffu32) << 16u32);
    assert(((x5 >> i) & 1u32 == 1u32) == ((x >> (31 - i) as u32) & 1u32 == 1u32)) by (bit_vector)
        requires
            i < 32,
            x1 == ((x >> 1u32) & 0x55555555u32) | ((x & 0x55555555u32) << 1u32),
            x2 == ((x1 >> 2u32) & 0x33333333u32) | ((x1 & 0x33333333u32) << 2u32),
            x3 == ((x2 >> 4u32) & 0x0f0f0f0fu32) | ((x2 & 0x0f0f0f0fu32) << 4u32),
            x4 == ((x3 >> 8u32) & 0x00ff00ffu32) | ((x3 & 0x00ff00ffu32) << 8u32),
            x5 == ((x4 >> 16u32) & 0x0000ffffu32) | ((x4 & 0x0000ffffu32) << 16u32),
    ;
}

/// Reversing twice gives the word back.
pub proof fn lemma_reverse_involution(x: u32)
    ensures
        reverse_bits(reverse_bits(x)) == x,
{
    let y = reverse_bits(x);
    let x1 = ((x >> 1u32) & 0x55555555u32) | ((x & 0x55555555u32) << 1u32);
    let x2 = ((x1 >> 2u32) & 0x33333333u32) | ((x1 & 0x33333333u32) << 2u32);
    let x3 = ((x2 >> 4u32) & 0x0f0f0f0fu32) | ((x2 & 0x0f0f0f0fu32) << 4u32);
    let x4 = ((x3 >> 8u32) & 0x00ff00ffu32) | ((x3 & 0x00ff00ffu32) << 8u32);
    let y1 = ((y >> 1u32) & 0x55555555u32) | ((y & 0x55555555u32) << 1u32);
    let y2 = ((y1 >> 2u32) & 0x33333333u32) | ((y1 & 0x33333333u32) << 2u32);
    let y3 = ((y2 >> 4u32) & 0x0f0f0f0fu32) | ((y2 & 0x0f0f0f0fu32) << 4u32);
    let y4 = ((y3 >> 8u32) & 0x00ff00ffu32) | ((y3 & 0x00ff00ffu32) << 8u32);
    let z = ((y4 >> 16u32) & 0x0000ffffu32) | ((y4 & 0x0000ffffu32) << 16u32);
    assert(z == x) by (bit_vector)
        requires
            x1 == ((x >> 1u32) & 0x55555555u32) | ((x & 0x55555555u32) << 1u32),
            x2 == ((x1 >> 2u32) & 0x33333333u32) | ((x1 & 0x33333333u32) << 2u32),
            x3 == ((x2 >> 4u32) & 0x0f0f0f0fu32) | ((x2 & 0x0f0f0f0fu32) << 4u32),
            x4 == ((x3 >> 8u32) & 0x00ff00ffu32) | ((x3 & 0x00ff00ffu32) << 8u32),
            y == ((x4 >> 16u32) & 0x0000ffffu32) | ((x4 & 0x0000ffffu32) << 16u32),
            y1 == ((y >> 1u32) & 0x55555555u32) | ((y & 0x55555555u32) << 1u32),
            y2 == ((y1 >> 2u32) & 0x33333333u32) | ((y1 & 0x33333333u32) << 2u32),
            y3 == ((y2 >> 4u32) & 0x0f0f0f0fu32) | ((y2 & 0x0f0f0f0fu32) << 4u32),
            y4 == ((y3 >> 8u32) & 0x00ff00ffu32) | ((y3 & 0x00ff00ffu32) << 8u32),
            z == ((y4 >> 16u32) & 0x0000ffffu32) | ((y4 & 0x0000ffffu32) << 16u32),
    ;
}


/// Frames shown by the display: one frame, or a sequence held in static
/// memory. A frame is three words of LED bits and a duration in ms.
pub enum AnimationData {
    Animation(&'static [[u32; 4]]),
    SingleFrame([u32; 4]),
}

impl AnimationData {
    /// The frames, in order.
    pub open spec fn frames(self) -> Seq<[u32; 4]> {
        match self {
            AnimationData::Animation(frames) => frames@,
            AnimationData::SingleFrame(frame) => seq![frame],
        }
    }

    /// Frame `idx`, if there is one.
    pub fn get_frame(&self, idx: usize) -> (r: Option<[u32; 4]>)
        ensures
            idx < self.frames().len() ==> r == Some(self.frames()[idx as int]),
            idx >= self.frames().len() ==> r is None,
    {
        match self {
            AnimationData::Animation(frames) => {
                if idx < frames.len() {
                    Some(frames[idx])
                } else {
                    None
                }
            },
            AnimationData::SingleFrame(frame) => {
                if idx == 0 {
                    Some(*frame)
                } else {
                    None
                }
            },
        }
    }

    /// Number of frames.
    pub fn len(&self) -> (r: usize)
        ensures
            r == self.frames().len(),
    {
        match self {
            AnimationData::Animation(frames) => frames.len(),
            AnimationData::SingleFrame(_) => 1,
        }
    }
}

/// The frame buffer that shows `frame`: each word bit-reversed, so that the
/// LED counted first sits in bit 0.
pub open spec fn frame_buffer_for(f0: u32, f1: u32, f2: u32) -> Seq<u32> {
    seq![reverse_bits(f0), reverse_bits(f1), reverse_bits(f2)]
}

/// Whether LED `k` is lit by the frame buffer `fb`: bit `k % 32` of word
/// `k / 32`.
pub open spec fn led_lit(fb: Seq<u32>, k: int) -> bool {
    bit_of(fb[k / 32], (k % 32) as u32)
}

/// State of the display, shared between the driver and its interrupt.
pub struct DisplayState {
    current_pin_idx: usize,
    framebuffer: [u32; 3],
    animation: Option<AnimationData>,
    current_frame_idx: usize,
    curr_frame_duration: u32,
    frame_start_millis: u32,
    should_loop: bool,
}

impl DisplayState {
    #[verifier::type_invariant]
    spec fn inv(self) -> bool {
        self.current_pin_idx < 96
    }

    /// The LED the interrupt handles next.
    pub closed spec fn spec_pin_idx(self) -> int {
        self.current_pin_idx as int
    }

    pub closed spec fn spec_framebuffer(self) -> Seq<u32> {
        self.framebuffer@
    }

    pub closed spec fn spec_animation(self) -> Option<AnimationData> {
        self.animation
    }

    /// Index of the frame that the next advance loads.
    pub closed spec fn spec_frame_idx(self) -> int {
        self.current_frame_idx as int
    }

    /// How long the current frame is shown, in ms; 0 holds it for good.
    pub closed spec fn spec_duration(self) -> u32 {
        self.curr_frame_duration
    }

    /// When the current frame started, in ms.
    pub closed spec fn spec_frame_start(self) -> u32 {
        self.frame_start_millis
    }

    pub closed spec fn spec_should_loop(self) -> bool {
        self.should_loop
    }

    /// The state after loading the next frame of the animation: its words
    /// reversed into the frame buffer, its duration taken, the frame index
    /// advanced (wrapping); the duration drops to 0 at the end of an
    /// animation that does not loop. Without a frame to load nothing changes.
    pub closed spec fn next_state(self) -> DisplayState {
        match self.animation {
            Some(anim) => {
                if (self.current_frame_idx as int) < anim.frames().len() {
                    let frame = anim.frames()[self.current_frame_idx as int];
                    let idx = ((self.current_frame_idx + 1) as int % (anim.frames().len() as int)) as usize;
                    DisplayState {
                        framebuffer: [
                            reverse_bits(frame[0]),
                            reverse_bits(frame[1]),
                            reverse_bits(frame[2]),
                        ],
                        current_frame_idx: idx,
                        curr_frame_duration: if idx == 0 && !self.should_loop {
                            0
                        } else {
                            frame[3]
                        },
                        ..self
                    }
                } else {
                    self
                }
            },
            None => self,
        }
    }

    /// The state with the interrupt moved on to the next LED.
    pub closed spec fn stepped(self) -> DisplayState {
        DisplayState { current_pin_idx: ((self.current_pin_idx + 1) % 96) as usize, ..self }
    }

    /// The state whose frame started at `now`.
    pub closed spec fn restarted(self, now: u32) -> DisplayState {
        DisplayState { frame_start_millis: now, ..self }
    }

    /// What the three state changes of the display do, through the
    /// accessors: moving on to the next LED changes the LED index alone;
    /// restarting the frame changes its start time alone; loading the next
    /// frame of the animation, when there is one at the frame index, puts
    /// its words (reversed) in the frame buffer, advances the frame index
    /// (wrapping), takes the frame's duration (0 at the end of an animation
    /// that does not loop) and keeps the rest, and otherwise changes
    /// nothing.
    pub proof fn lemma_state_changes(self, now: u32)
        ensures
            self.stepped().spec_pin_idx() == (self.spec_pin_idx() + 1) % 96,
            self.stepped().spec_framebuffer() == self.spec_framebuffer(),
            self.stepped().spec_animation() == self.spec_animation(),
            self.stepped().spec_frame_idx() == self.spec_frame_idx(),
            self.stepped().spec_duration() == self.spec_duration(),
            self.stepped().spec_frame_start() == self.spec_frame_start(),
            self.stepped().spec_should_loop() == self.spec_should_loop(),
            self.restarted(now).spec_frame_start() == now,
            self.restarted(now).spec_pin_idx() == self.spec_pin_idx(),
            self.restarted(now).spec_framebuffer() == self.spec_framebuffer(),
            self.restarted(now).spec_animation() == self.spec_animation(),
            self.restarted(now).spec_frame_idx() == self.spec_frame_idx(),
            self.restarted(now).spec_duration() == self.spec_duration(),
            self.restarted(now).spec_should_loop() == self.spec_should_loop(),
            self.next_state().spec_pin_idx() == self.spec_pin_idx(),
            self.next_state().spec_animation() == self.spec_animation(),
            self.next_state().spec_frame_start() == self.spec_frame_start(),
            self.next_state().spec_should_loop() == self.spec_should_loop(),
            (match self.spec_animation() {
                Some(anim) => self.spec_frame_idx() < anim.frames().len(),
                None => false,
            }) ==> {
                let anim = self.spec_animation()->0;
                let frame = anim.frames()[self.spec_frame_idx()];
                let idx = (self.spec_frame_idx() + 1) % (anim.frames().len() as int);
                &&& self.next_state().spec_framebuffer() == frame_buffer_for(
                    frame[0],
                    frame[1],
                    frame[2],
                )
                &&& self.next_state().spec_frame_idx() == idx
                &&& self.next_state().spec_duration() == (if idx == 0 && !self.spec_should_loop() {
                    0
                } else {
                    frame[3]
                })
            },
            !(match self.spec_animation() {
                Some(anim) => self.spec_frame_idx() < anim.frames().len(),
                None => false,
            }) ==> self.next_state() == self,
    {
        if let Some(anim) = self.animation {
            if (self.current_frame_idx as int) < anim.frames().len() {
                let frame = anim.frames()[self.current_frame_idx as int];
                assert(self.next_state().framebuffer@ =~= frame_buffer_for(
                    frame[0],
                    frame[1],
                    frame[2],
                ));
                let idx = (self.current_frame_idx + 1) as int % (anim.frames().len() as int);
                let n = anim.frames().len() as int;
                let c = self.current_frame_idx as int;
                if let AnimationData::Animation(f) = anim {
                    assert(f@.len() == f.len());
                }
                assert(n <= usize::MAX);
                assert(0 <= (c + 1) % n < n) by (nonlinear_arith)
                    requires
                        0 <= c < n,
                ;
                assert(self.next_state().current_frame_idx as int == idx);
            }
        }
    }

    /// Whether the current frame has run its time at `now`.
    pub open spec fn frame_elapsed(self, now: u32) -> bool {
        self.spec_duration() != 0 && now - self.spec_frame_start() > self.spec_duration()
    }

    /// A blank display with nothing to show.
    pub fn new() -> (r: Self)
        ensures
            r.spec_pin_idx() == 0,
            r.spec_framebuffer() == seq![0u32, 0u32, 0u32],
            r.spec_animation() is None,
            r.spec_frame_idx() == 0,
            r.spec_duration() == 0,
            r.spec_frame_start() == 0,
            !r.spec_should_loop(),
    {
        let r = DisplayState {
            current_pin_idx: 0,
            framebuffer: [0, 0, 0],
            animation: None,
            current_frame_idx: 0,
            curr_frame_duration: 0,
            frame_start_millis: 0,
            should_loop: false,
        };
        assert(r.framebuffer@ == seq![0u32, 0u32, 0u32]);
        r
    }

    /// The frame buffer.
    pub fn framebuffer(&self) -> (r: [u32; 3])
        ensures
            r@ == self.spec_framebuffer(),
    {
        self.framebuffer
    }

    /// The LED the interrupt handles next.
    pub fn current_pin_idx(&self) -> (r: usize)
        ensures
            r == self.spec_pin_idx(),
            r < 96,
    {
        proof {
            use_type_invariant(self);
        }
        self.current_pin_idx
    }

    /// Index of the frame that the next advance loads.
    pub fn current_frame_idx(&self) -> (r: usize)
        ensures
            r == self.spec_frame_idx(),
    {
        self.current_frame_idx
    }

    /// Duration of the current frame, in ms.
    pub fn frame_duration(&self) -> (r: u32)
        ensures
            r == self.spec_duration(),
    {
        self.curr_frame_duration
    }

    /// Start of the current frame, in ms.
    pub fn frame_start_millis(&self) -> (r: u32)
        ensures
            r == self.spec_frame_start(),
    {
        self.frame_start_millis
    }

    /// Loads the next frame into the frame buffer (see `next_state`).
    pub fn next(&mut self)
        ensures
            *final(self) == old(self).next_state(),
    {
        proof {
            use_type_invariant(&*self);
        }
        let (frame, num_frames) = match &self.animation {
            None => {
                return ;
            },
            Some(anim) => {
                let num_frames = anim.len();
                match anim.get_frame(self.current_frame_idx) {
                    Some(f) => (f, num_frames),
                    None => {
                        return ;
                    },
                }
            },
        };
        self.framebuffer = [reverse(frame[0]), reverse(frame[1]), reverse(frame[2])];
        self.curr_frame_duration = frame[3];
        self.current_frame_idx = (self.current_frame_idx + 1) % num_frames;
        if self.current_frame_idx == 0 && !self.should_loop {
            self.curr_frame_duration = 0;
        }
    }

    /// Shows one frame for good, starting at `now`.
    pub fn load_frame(&mut self, frame: [u32; 3], now: u32)
        ensures
            final(self).spec_framebuffer() == frame_buffer_for(frame[0], frame[1], frame[2]),
            final(self).spec_animation() == Some(
                AnimationData::SingleFrame([frame[0], frame[1], frame[2], 0]),
            ),
            final(self).spec_frame_idx() == 0,
            final(self).spec_duration() == 0,
            final(self).spec_frame_start() == now,
            !final(self).spec_should_loop(),
            final(self).spec_pin_idx() == old(self).spec_pin_idx(),
    {
        proof {
            use_type_invariant(&*self);
        }
        self.animation = Some(AnimationData::SingleFrame([frame[0], frame[1], frame[2], 0]));
        self.current_frame_idx = 0;
        self.curr_frame_duration = 0;
        self.frame_start_millis = now;
        self.should_loop = false;
        self.next();
        assert(self.framebuffer@ == frame_buffer_for(frame[0], frame[1], frame[2]));
    }

    /// Plays a sequence of frames, each for its duration, starting at `now`;
    /// `should_loop` says whether it starts over after the last frame.
    pub fn load_sequence(&mut self, frames: &'static [[u32; 4]], should_loop: bool, now: u32)
        ensures
            final(self).spec_animation() == Some(AnimationData::Animation(frames)),
            final(self).spec_frame_start() == now,
            final(self).spec_should_loop() == should_loop,
            final(self).spec_pin_idx() == old(self).spec_pin_idx(),
            frames@.len() == 0 ==> {
                &&& final(self).spec_framebuffer() == old(self).spec_framebuffer()
                &&& final(self).spec_frame_idx() == 0
                &&& final(self).spec_duration() == 0
            },
            frames@.len() > 0 ==> {
                &&& final(self).spec_framebuffer() == frame_buffer_for(
                    frames@[0][0],
                    frames@[0][1],
                    frames@[0][2],
                )
                &&& final(self).spec_frame_idx() == 1int % (frames@.len() as int)
                &&& final(self).spec_duration() == if final(self).spec_frame_idx() == 0
                    && !should_loop {
                    0
                } else {
                    frames@[0][3]
                }
            },
            frames@.len() > 0 ==> final(self).spec_duration() == (if frames@.len() == 1
                && !should_loop {
                0
            } else {
                frames@[0][3]
            }),
    {
        proof {
            use_type_invariant(&*self);
        }
        self.animation = Some(AnimationData::Animation(frames));
        self.current_frame_idx = 0;
        self.curr_frame_duration = if frames.len() > 0 {
            frames[0][3]
        } else {
            0
        };
        self.frame_start_millis = now;
        self.should_loop = should_loop;
        self.next();
        proof {
            if frames@.len() > 1 {
                let n = frames@.len() as int;
                assert(1int % n == 1) by (nonlinear_arith)
                    requires
                        n > 1,
                ;
            }
        }
        if frames.len() > 0 {
            assert(self.framebuffer@ == frame_buffer_for(
                frames@[0][0],
                frames@[0][1],
                frames@[0][2],
            ));
        }
    }

    /// One step of the display interrupt at time `now` (ms): reads whether
    /// the current LED is lit, moves on to the next LED, and loads the next
    /// frame when the current one has run its time. Returns the LED to drive
    /// and whether to light it.
    pub fn tick(&mut self, now: u32) -> (r: (usize, bool))
        requires
            old(self).spec_duration() != 0 ==> now >= old(self).spec_frame_start(),
        ensures
            r.0 == old(self).spec_pin_idx(),
            r.0 < 96,
            r.1 == led_lit(old(self).spec_framebuffer(), old(self).spec_pin_idx()),
            final(self).spec_pin_idx() == (old(self).spec_pin_idx() + 1) % 96,
            old(self).frame_elapsed(now) ==> *final(self) == old(self).stepped().restarted(
                now,
            ).next_state(),
            !old(self).frame_elapsed(now) ==> *final(self) == old(self).stepped(),
            !old(self).frame_elapsed(now) ==> {
                &&& final(self).spec_framebuffer() == old(self).spec_framebuffer()
                &&& final(self).spec_animation() == old(self).spec_animation()
                &&& final(self).spec_frame_idx() == old(self).spec_frame_idx()
                &&& final(self).spec_duration() == old(self).spec_duration()
                &&& final(self).spec_frame_start() == old(self).spec_frame_start()
            },
    {
        proof {
            use_type_invariant(&*self);
            old(self).lemma_state_changes(now);
        }
        let curr_idx = self.current_pin_idx;
        let word = curr_idx >> 5;
        let bit = curr_idx & 31;
        assert(curr_idx >> 5 == curr_idx / 32 && curr_idx & 31 == curr_idx % 32) by (bit_vector);
        let is_on = (self.framebuffer[word] >> (bit as u32)) & 1 == 1;
        self.current_pin_idx = (curr_idx + 1) % (NUM_LEDS as usize);
        if self.curr_frame_duration != 0 && now - self.frame_start_millis > self.curr_frame_duration {
            self.frame_start_millis = now;
            self.next();
        }
        (curr_idx, is_on)
    }
}

/// What is loaded is what is shown: after `load_frame(frame, ..)` the
/// interrupt lights LED `k` exactly when bit `31 - k % 32` of word `k / 32`
/// of the frame is set (the first LED is the most significant bit).
pub proof fn lemma_loaded_frame_shown(frame: [u32; 3], k: int)
    requires
        0 <= k < 96,
    ensures
        led_lit(frame_buffer_for(frame[0], frame[1], frame[2]), k) == bit_of(
            frame[k / 32],
            (31 - k % 32) as u32,
        ),
{
    lemma_reverse_bit(frame[k / 32], (k % 32) as u32);
}


/// Shifting a bit in at the bottom moves every bit of `w` up by one.
proof fn lemma_shift_in(w: u32, b: u32, t: u32)
    by (bit_vector)
    requires
        b <= 1,
        t < 31,
    ensures
        (((w << 1u32) | b) >> (t + 1) as u32) & 1u32 == (w >> t) & 1u32,
        (((w << 1u32) | b) >> 0u32) & 1u32 == b,
{
}

/// Packs the 32 LEDs of `map` from `base` on into one frame word, the
/// first LED in the most significant bit.
fn pack_word(map: &[u8; 96], base: usize) -> (w: u32)
    requires
        base + 32 <= 96,
    ensures
        forall|i: int| 0 <= i < 32 ==> #[trigger] bit_of(w, (31 - i) as u32) == (map@[base + i] != 0),
{
    let mut w: u32 = 0;
    let mut i: usize = 0;
    while i < 32
        invariant
            i <= 32,
            base + 32 <= 96,
            forall|j: int|
                0 <= j < i ==> #[trigger] bit_of(w, (i - 1 - j) as u32) == (map@[base + j] != 0),
        decreases 32 - i,
    {
        let b: u32 = if map[base + i] != 0 {
            1
        } else {
            0
        };
        let w2 = (w << 1u32) | b;
        proof {
            assert forall|j: int| 0 <= j < i + 1 implies #[trigger] bit_of(w2, (i + 1 - 1 - j) as u32)
                == (map@[base + j] != 0) by {
                if j < i {
                    let t = (i - 1 - j) as u32;
                    lemma_shift_in(w, b, t);
                    assert(bit_of(w, t) == (map@[base + j] != 0));
                    assert((t + 1) as u32 == (i + 1 - 1 - j) as u32);
                } else {
                    lemma_shift_in(w, b, 0);
                    assert((i + 1 - 1 - j) as u32 == 0u32);
                }
            }
        }
        w = w2;
        i = i + 1;
    }
    assert forall|i: int| 0 <= i < 32 implies #[trigger] bit_of(w, (31 - i) as u32) == (map@[base
        + i] != 0) by {
        assert(bit_of(w, (32 - 1 - i) as u32) == (map@[base + i] != 0));
    }
    w
}

/// Packs a flat map of the 96 LEDs (nonzero: lit) into a frame: LED `k` is
/// bit `31 - k % 32` of word `k / 32`.
pub fn flatmap_frame(map: &[u8; 96]) -> (r: [u32; 3])
    ensures
        forall|k: int|
            0 <= k < 96 ==> #[trigger] bit_of(r[k / 32], (31 - k % 32) as u32) == (map@[k] != 0),
{
    let w0 = pack_word(map, 0);
    let w1 = pack_word(map, 32);
    let w2 = pack_word(map, 64);
    let r = [w0, w1, w2];
    assert forall|k: int| 0 <= k < 96 implies #[trigger] bit_of(r[k / 32], (31 - k % 32) as u32)
        == (map@[k] != 0) by {
        let i = k % 32;
        if k < 32 {
            assert(bit_of(w0, (31 - i) as u32) == (map@[0 + i] != 0));
        } else if k < 64 {
            assert(bit_of(w1, (31 - i) as u32) == (map@[32 + i] != 0));
        } else {
            assert(bit_of(w2, (31 - i) as u32) == (map@[64 + i] != 0));
        }
    }
    r
}

/// Clock ticks per refresh slot: `MCU_FREQ / LED_REFRESH_HZ`.
pub const LED_TIMER_COUNTS: u32 = 5000;

/// The 12 x 8 LED matrix, refreshed from the overflow interrupt of timer
/// `T`. The display state lives apart from the driver, shared with the
/// interrupt; the methods that change it take it.
pub struct LEDMatrix<T: TimerInstance> {
    /// The eleven matrix pins; once in the driver they never come out.
    _dynpins: [DynamicPinErased; 11],
    timer: GPTimer<T, Configured, Periodic>,
}

impl<T: TimerInstance> LEDMatrix<T> {
    pub closed spec fn spec_pins(self) -> Seq<DynamicPinErased> {
        self._dynpins@
    }

    /// Takes the eleven matrix pins, making them floating inputs (`pfs`:
    /// their PFS registers, in the order of the arguments and of
    /// `PIN_OFFSETS`), and the timer, and sets the timer up to
    /// overflow `LED_REFRESH_HZ` times a second (`regs`, written by the
    /// caller in field order) and to start (`gtstr`, written last, once the
    /// display state is reset and `timer_event` is linked to `LED_IRQ_SLOT`).
    pub fn new(
        p003: Pin<0, 3, Input>,
        p004: Pin<0, 4, Input>,
        p011: Pin<0, 11, Input>,
        p012: Pin<0, 12, Input>,
        p013: Pin<0, 13, Input>,
        p015: Pin<0, 15, Input>,
        p204: Pin<2, 4, Input>,
        p205: Pin<2, 5, Input>,
        p206: Pin<2, 6, Input>,
        p212: Pin<2, 12, Input>,
        p213: Pin<2, 13, Input>,
        pfs: &mut [u32; 11],
        timer: GPTimer<T, Unconfigured, NotSet>,
        regs: &mut GptConfigRegs,
        gtstr: &mut u32,
    ) -> (r: Self)
        ensures
            r.spec_pins().len() == 11,
            forall|k: int|
                0 <= k < 11 ==> #[trigger] final(pfs)@[k] == floating_input_pfs(old(pfs)@[k]),
            forall|k: int| 0 <= k < 11 ==> #[trigger] r.spec_pins()[k].spec_mode() == Dynamic::InputFloating,
            final(regs).gtpr == LED_TIMER_COUNTS,
            final(regs).gtpbr == LED_TIMER_COUNTS,
            final(regs).gtcr == gtcr_with_prescaler(
                gtcr_with_mode(TimerMode::PERIODIC.spec_bits()),
                Prescaler::PCLKD_1.spec_bits(),
            ),
            final(regs).gtuddtyc == GTUDDTYC_UD,
            final(regs).gtssr == GPTSourceT::SOFTWARE.spec_bits(),
            final(regs).gtpsr == GPTSourceT::SOFTWARE.spec_bits(),
            final(regs).gtcsr == GPTSourceT::SOFTWARE.spec_bits(),
            *final(gtstr) == *old(gtstr) | channel_bit(T::spec_channel()),
    {
        let mut v0: u32 = pfs[0];
        let d0 = p003.into_fully_erased_dynamic(&mut v0);
        pfs[0] = v0;
        let mut v1: u32 = pfs[1];
        let d1 = p004.into_fully_erased_dynamic(&mut v1);
        pfs[1] = v1;
        let mut v2: u32 = pfs[2];
        let d2 = p011.into_fully_erased_dynamic(&mut v2);
        pfs[2] = v2;
        let mut v3: u32 = pfs[3];
        let d3 = p012.into_fully_erased_dynamic(&mut v3);
        pfs[3] = v3;
        let mut v4: u32 = pfs[4];
        let d4 = p013.into_fully_erased_dynamic(&mut v4);
        pfs[4] = v4;
        let mut v5: u32 = pfs[5];
        let d5 = p015.into_fully_erased_dynamic(&mut v5);
        pfs[5] = v5;
        let mut v6: u32 = pfs[6];
        let d6 = p204.into_fully_erased_dynamic(&mut v6);
        pfs[6] = v6;
        let mut v7: u32 = pfs[7];
        let d7 = p205.into_fully_erased_dynamic(&mut v7);
        pfs[7] = v7;
        let mut v8: u32 = pfs[8];
        let d8 = p206.into_fully_erased_dynamic(&mut v8);
        pfs[8] = v8;
        let mut v9: u32 = pfs[9];
        let d9 = p212.into_fully_erased_dynamic(&mut v9);
        pfs[9] = v9;
        let mut v10: u32 = pfs[10];
        let d10 = p213.into_fully_erased_dynamic(&mut v10);
        pfs[10] = v10;
        let dynpins: [DynamicPinErased; 11] = [d0, d1, d2, d3, d4, d5, d6, d7, d8, d9, d10];
        assert(forall|k: int| 0 <= k < 11 ==> #[trigger] pfs@[k] == floating_input_pfs(old(pfs)@[k]));
        let ledtimercfg = PeriodicCounts {
            gtssr: GPTSourceT::SOFTWARE,
            gtpsr: GPTSourceT::SOFTWARE,
            gtcsr: GPTSourceT::SOFTWARE,
            count_dir: CountDir::Up,
            target_counts: (MCU_FREQ / LED_REFRESH_HZ) as u64,
        };
        assert(MCU_FREQ / LED_REFRESH_HZ == LED_TIMER_COUNTS);
        let max = T::Width::max_value();
        assert(period_selection(LED_TIMER_COUNTS as u64, max) == Ok::<(u32, Prescaler), crate::hal::timer::TimerError>((LED_TIMER_COUNTS, Prescaler::PCLKD_1)));
        let ledtimer = timer.into_periodic(&mut regs.gtcr).configure(ledtimercfg, regs);
        ledtimer.start(gtstr);
        LEDMatrix { _dynpins: dynpins, timer: ledtimer }
    }

    /// The channel of the display's timer.
    pub fn channel(&self) -> (r: u8)
        ensures
            r == T::spec_channel(),
            r < 8,
    {
        self.timer.get_channel()
    }

    /// The ICU event of the display timer's overflow.
    pub fn timer_event(&self) -> (r: u8)
        ensures
            r == 0x57 + 8 * T::spec_channel() + 6,
    {
        led_timer_event(self.timer.get_channel())
    }

    /// Stops the refresh.
    pub fn stop(&self, gtstp: &mut u32)
        ensures
            *final(gtstp) == *old(gtstp) | channel_bit(T::spec_channel()),
    {
        self.timer.stop(gtstp);
    }

    /// Restarts the refresh.
    pub fn start(&self, gtstr: &mut u32)
        ensures
            *final(gtstr) == *old(gtstr) | channel_bit(T::spec_channel()),
    {
        self.timer.start(gtstr);
    }

    /// Lights LED `led_idx` alone (see `turn_led`).
    pub fn on(&mut self, led_idx: usize, port0_pcntr1: &mut u32, port2_pcntr1: &mut u32) -> (r:
        Option<LedDrive>)
        requires
            led_idx < 96,
        ensures
            *final(port0_pcntr1) == *old(port0_pcntr1) & !(LEDPORT0BITMASK as u32),
            *final(port2_pcntr1) == *old(port2_pcntr1) & !(LEDPORT2BITMASK as u32),
            r matches Some(d) && d.hi_addr == led_pin_addr(led_pins(led_idx as int).0 as int)
                && d.hi_pfs == LED_HIGH_PFS && d.lo_addr == led_pin_addr(
                led_pins(led_idx as int).1 as int,
            ) && d.lo_pfs == LED_LOW_PFS,
    {
        turn_led(led_idx, true, port0_pcntr1, port2_pcntr1)
    }

    /// Turns the whole matrix off.
    pub fn off(&mut self, led_idx: usize, port0_pcntr1: &mut u32, port2_pcntr1: &mut u32)
        requires
            led_idx < 96,
        ensures
            *final(port0_pcntr1) == *old(port0_pcntr1) & !(LEDPORT0BITMASK as u32),
            *final(port2_pcntr1) == *old(port2_pcntr1) & !(LEDPORT2BITMASK as u32),
    {
        let _ = turn_led(led_idx, false, port0_pcntr1, port2_pcntr1);
    }

    /// Shows a blank frame.
    pub fn clear(&mut self, state: &mut DisplayState, now: u32)
        ensures
            final(state).spec_framebuffer() == seq![0u32, 0u32, 0u32],
            final(state).spec_animation() == Some(AnimationData::SingleFrame([0u32, 0u32, 0u32, 0u32])),
            final(state).spec_frame_idx() == 0,
            final(state).spec_duration() == 0,
            final(state).spec_frame_start() == now,
            final(state).spec_pin_idx() == old(state).spec_pin_idx(),
    {
        self.load_frame(state, [0, 0, 0], now);
        proof {
            assert(reverse_bits(0u32) == 0u32) by (bit_vector);
        }
    }

    /// Shows one frame for good (see `DisplayState::load_frame`).
    pub fn load_frame(&mut self, state: &mut DisplayState, frame: [u32; 3], now: u32)
        ensures
            final(state).spec_framebuffer() == frame_buffer_for(frame[0], frame[1], frame[2]),
            final(state).spec_animation() == Some(
                AnimationData::SingleFrame([frame[0], frame[1], frame[2], 0]),
            ),
            final(state).spec_frame_idx() == 0,
            final(state).spec_duration() == 0,
            final(state).spec_frame_start() == now,
            !final(state).spec_should_loop(),
            final(state).spec_pin_idx() == old(state).spec_pin_idx(),
    {
        state.load_frame(frame, now);
    }

    /// Shows a flat map of the 96 LEDs for good: LED `k` is lit exactly when
    /// `map[k]` is nonzero.
    pub fn render_flatmap(&mut self, state: &mut DisplayState, map: &[u8; 96], now: u32)
        ensures
            forall|k: int|
                0 <= k < 96 ==> #[trigger] led_lit(final(state).spec_framebuffer(), k) == (map@[k]
                    != 0),
            final(state).spec_frame_idx() == 0,
            final(state).spec_duration() == 0,
            final(state).spec_frame_start() == now,
            !final(state).spec_should_loop(),
            final(state).spec_pin_idx() == old(state).spec_pin_idx(),
    {
        let frame = flatmap_frame(map);
        self.load_frame(state, frame, now);
        proof {
            assert forall|k: int| 0 <= k < 96 implies #[trigger] led_lit(
                final(state).spec_framebuffer(),
                k,
            ) == (map@[k] != 0) by {
                lemma_loaded_frame_shown(frame, k);
            }
        }
    }

    /// Plays a sequence of frames (see `DisplayState::load_sequence`).
    pub fn load_sequence(
        &mut self,
        state: &mut DisplayState,
        frames: &'static [[u32; 4]],
        should_loop: bool,
        now: u32,
    )
        ensures
            final(state).spec_animation() == Some(AnimationData::Animation(frames)),
            final(state).spec_frame_start() == now,
            final(state).spec_should_loop() == should_loop,
            final(state).spec_pin_idx() == old(state).spec_pin_idx(),
            frames@.len() == 0 ==> {
                &&& final(state).spec_framebuffer() == old(state).spec_framebuffer()
                &&& final(state).spec_frame_idx() == 0
                &&& final(state).spec_duration() == 0
            },
            frames@.len() > 0 ==> {
                &&& final(state).spec_framebuffer() == frame_buffer_for(
                    frames@[0][0],
                    frames@[0][1],
                    frames@[0][2],
                )
                &&& final(state).spec_frame_idx() == 1int % (frames@.len() as int)
            },
            frames@.len() > 0 ==> final(state).spec_duration() == (if frames@.len() == 1
                && !should_loop {
                0
            } else {
                frames@[0][3]
            }),
    {
        state.load_sequence(frames, should_loop, now);
    }
}

} // verus!
