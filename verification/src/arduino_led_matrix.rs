//! The LED matrix driven by polling: each `render_frame` call lights the
//! next LED of the frame buffer through the eleven matrix pins, switching
//! their modes as dynamic pins.
//!
//! Every pin operation computes the pin's PFS register; the caller passes
//! the eleven register values (in the order of the pins given to `new`),
//! reads them before and writes them back after.
use vstd::prelude::*;

use crate::hal::gpio::erased::{
    floating_input_pfs, push_pull_output_pfs, Dynamic, DynamicPinErased,
};
use crate::hal::gpio::erased::lemma_dynamic_switches;
use crate::hal::gpio::{pfs_addr, Input, Pin, PFS_NCODR, PFS_PCR, PFS_PDR, PFS_PODR};
use crate::led_matrix::{
    frame_buffer_for, led_lit, led_pins, lemma_led_pins_valid, reverse, NUM_LEDS, PINS,
};

verus! {

/// The PFS value of matrix pin `k` after lighting, or not, an LED: every
/// pin is made a floating input, then the LED's high pin a push-pull output
/// driven high and its low pin a push-pull output driven low.
pub open spec fn lit_pfs(old_pfs: u32, k: int, hi: int, lo: int, on: bool) -> u32 {
    if on && k == hi {
        push_pull_output_pfs(floating_input_pfs(old_pfs)) | PFS_PODR
    } else if on && k == lo {
        push_pull_output_pfs(floating_input_pfs(old_pfs)) & !PFS_PODR
    } else {
        floating_input_pfs(old_pfs)
    }
}

/// Lighting LED `idx` drives the first pin of its `PINS` pair high and the
/// second low, both as push-pull outputs (direction set, open drain off),
/// and leaves every other matrix pin a floating input (direction and
/// pull-up off); lighting nothing leaves every pin a floating input.
pub proof fn lemma_lighting_led(v: u32, k: int, idx: int)
    requires
        0 <= idx < 96,
        0 <= k < 11,
    ensures
        ({
            let p = lit_pfs(v, k, PINS[idx][0] as int, PINS[idx][1] as int, true);
            &&& k == PINS[idx][0] ==> p & PFS_PDR == PFS_PDR && p & PFS_PODR == PFS_PODR && p
                & PFS_NCODR == 0
            &&& k == PINS[idx][1] ==> p & PFS_PDR == PFS_PDR && p & PFS_PODR == 0 && p & PFS_NCODR
                == 0
            &&& k != PINS[idx][0] && k != PINS[idx][1] ==> p & PFS_PDR == 0 && p & PFS_PCR == 0
        }),
        lit_pfs(v, k, PINS[idx][0] as int, PINS[idx][1] as int, false) & PFS_PDR == 0,
        lit_pfs(v, k, PINS[idx][0] as int, PINS[idx][1] as int, false) & PFS_PCR == 0,
{
    lemma_led_pins_valid(idx);
    lemma_dynamic_switches(v);
    let f = v & !(4u32 | 0x10u32);
    lemma_dynamic_switches(f);
    assert({
        &&& ((((v & !(4u32 | 0x10u32)) & !0x40u32) | 4u32) | 1u32) & 4u32 == 4u32
        &&& ((((v & !(4u32 | 0x10u32)) & !0x40u32) | 4u32) | 1u32) & 1u32 == 1u32
        &&& ((((v & !(4u32 | 0x10u32)) & !0x40u32) | 4u32) | 1u32) & 0x40u32 == 0u32
        &&& ((((v & !(4u32 | 0x10u32)) & !0x40u32) | 4u32) & !1u32) & 4u32 == 4u32
        &&& ((((v & !(4u32 | 0x10u32)) & !0x40u32) | 4u32) & !1u32) & 1u32 == 0u32
        &&& ((((v & !(4u32 | 0x10u32)) & !0x40u32) | 4u32) & !1u32) & 0x40u32 == 0u32
        &&& (v & !(4u32 | 0x10u32)) & 4u32 == 0u32
        &&& (v & !(4u32 | 0x10u32)) & 0x10u32 == 0u32
    }) by (bit_vector);
}

/// The 12 x 8 matrix on the polled driver.
pub struct ArduinoLEDMatrix {
    /// The eleven matrix pins; once in the driver they never come out.
    dynpins: [DynamicPinErased; 11],
    /// LEDs 0 to 31, 32 to 63 and 64 to 95, one bit each.
    framebuffer: [u32; 3],
    /// The LED the next `render_frame` handles.
    i_isr: usize,
}

impl ArduinoLEDMatrix {
    /// The next LED is one of the 96.
    pub closed spec fn wf(self) -> bool {
        self.i_isr < 96
    }

    pub closed spec fn spec_pins(self) -> Seq<DynamicPinErased> {
        self.dynpins@
    }

    pub closed spec fn spec_framebuffer(self) -> Seq<u32> {
        self.framebuffer@
    }

    pub closed spec fn spec_next_led(self) -> int {
        self.i_isr as int
    }

    /// Takes the eleven matrix pins and makes them floating inputs (`pfs`:
    /// their PFS registers, in the order of the arguments), with nothing lit.
    pub fn new(
        p003: Pin<0, 3, Input>,
        p004: Pin<0, 4, Input>,
        p011: Pin<0, 11, Input>,
        p012: Pin<0, 12, Input>,
        p013: Pin<0, 13, Input>,
        p015: Pin<0, 15, Input>,
        p204: Pin<2, 4, Input>,
        p205: Pin<2, 5, Input>,
        p206: Pin<2, 6, Input>,
        p212: Pin<2, 12, Input>,
        p213: Pin<2, 13, Input>,
        pfs: &mut [u32; 11],
    ) -> (r: Self)
        ensures
            r.spec_pins().len() == 11,
            forall|k: int|
                0 <= k < 11 ==> #[trigger] final(pfs)@[k] == floating_input_pfs(old(pfs)@[k]),
            forall|k: int| 0 <= k < 11 ==> #[trigger] r.spec_pins()[k].spec_mode() == Dynamic::InputFloating,
            r.spec_pins()[0].spec_pfs_addr() == pfs_addr(0, 3),
            r.spec_pins()[5].spec_pfs_addr() == pfs_addr(0, 15),
            r.spec_pins()[6].spec_pfs_addr() == pfs_addr(2, 4),
            r.spec_pins()[10].spec_pfs_addr() == pfs_addr(2, 13),
            r.spec_framebuffer() == seq![0u32, 0u32, 0u32],
            r.spec_next_led() == 0,
            r.wf(),
    {
        let mut v0: u32 = pfs[0];
        let d0 = p003.into_fully_erased_dynamic(&mut v0);
        pfs[0] = v0;
        let mut v1: u32 = pfs[1];
        let d1 = p004.into_fully_erased_dynamic(&mut v1);
        pfs[1] = v1;
        let mut v2: u32 = pfs[2];
        let d2 = p011.into_fully_erased_dynamic(&mut v2);
        pfs[2] = v2;
        let mut v3: u32 = pfs[3];
        let d3 = p012.into_fully_erased_dynamic(&mut v3);
        pfs[3] = v3;
        let mut v4: u32 = pfs[4];
        let d4 = p013.into_fully_erased_dynamic(&mut v4);
        pfs[4] = v4;
        let mut v5: u32 = pfs[5];
        let d5 = p015.into_fully_erased_dynamic(&mut v5);
        pfs[5] = v5;
        let mut v6: u32 = pfs[6];
        let d6 = p204.into_fully_erased_dynamic(&mut v6);
        pfs[6] = v6;
        let mut v7: u32 = pfs[7];
        let d7 = p205.into_fully_erased_dynamic(&mut v7);
        pfs[7] = v7;
        let mut v8: u32 = pfs[8];
        let d8 = p206.into_fully_erased_dynamic(&mut v8);
        pfs[8] = v8;
        let mut v9: u32 = pfs[9];
        let d9 = p212.into_fully_erased_dynamic(&mut v9);
        pfs[9] = v9;
        let mut v10: u32 = pfs[10];
        let d10 = p213.into_fully_erased_dynamic(&mut v10);
        pfs[10] = v10;
        let dynpins: [DynamicPinErased; 11] = [d0, d1, d2, d3, d4, d5, d6, d7, d8, d9, d10];
        assert(forall|k: int| 0 <= k < 11 ==> #[trigger] pfs@[k] == floating_input_pfs(old(pfs)@[k]));
        let r = ArduinoLEDMatrix { dynpins, framebuffer: [0, 0, 0], i_isr: 0 };
        assert(r.framebuffer@ =~= seq![0u32, 0u32, 0u32]);
        r
    }

    /// Lights LED `led_idx` alone.
    pub fn on(&mut self, led_idx: usize, pfs: &mut [u32; 11])
        requires
            old(self).wf(),
            led_idx < 96,
        ensures
            final(self).wf(),
            forall|k: int|
                0 <= k < 11 ==> #[trigger] final(pfs)@[k] == lit_pfs(
                    old(pfs)@[k],
                    k,
                    led_pins(led_idx as int).0 as int,
                    led_pins(led_idx as int).1 as int,
                    true,
                ),
            ({
                let hi = PINS[led_idx as int][0] as int;
                let lo = PINS[led_idx as int][1] as int;
                &&& final(pfs)@[hi] & PFS_PDR == PFS_PDR
                &&& final(pfs)@[hi] & PFS_PODR == PFS_PODR
                &&& final(pfs)@[lo] & PFS_PDR == PFS_PDR
                &&& final(pfs)@[lo] & PFS_PODR == 0
                &&& forall|k: int|
                    0 <= k < 11 && k != hi && k != lo ==> #[trigger] final(pfs)@[k] & PFS_PDR == 0
            }),
            final(self).spec_framebuffer() == old(self).spec_framebuffer(),
            final(self).spec_next_led() == old(self).spec_next_led(),
    {
        self.turn_led(led_idx, true, pfs);
        proof {
            lemma_led_pins_valid(led_idx as int);
            let hi = PINS[led_idx as int][0] as int;
            let lo = PINS[led_idx as int][1] as int;
            lemma_lighting_led(old(pfs)@[hi], hi, led_idx as int);
            lemma_lighting_led(old(pfs)@[lo], lo, led_idx as int);
            assert forall|k: int| 0 <= k < 11 && k != hi && k != lo implies #[trigger] pfs@[k]
                & PFS_PDR == 0 by {
                lemma_lighting_led(old(pfs)@[k], k, led_idx as int);
            }
        }
    }

    /// Turns the whole matrix off (`led_idx` only selects which pins would
    /// have lit it).
    pub fn off(&mut self, led_idx: usize, pfs: &mut [u32; 11])
        requires
            old(self).wf(),
            led_idx < 96,
        ensures
            final(self).wf(),
            forall|k: int|
                0 <= k < 11 ==> #[trigger] final(pfs)@[k] == floating_input_pfs(old(pfs)@[k]),
            final(self).spec_framebuffer() == old(self).spec_framebuffer(),
            final(self).spec_next_led() == old(self).spec_next_led(),
    {
        self.turn_led(led_idx, false, pfs);
    }

    /// Empties the frame buffer and renders the next LED (which is dark).
    pub fn clear(&mut self, pfs: &mut [u32; 11])
        requires
            old(self).wf(),
        ensures
            final(self).wf(),
            final(self).spec_framebuffer() == seq![0u32, 0u32, 0u32],
            final(self).spec_next_led() == (old(self).spec_next_led() + 1) % 96,
            forall|k: int|
                0 <= k < 11 ==> #[trigger] final(pfs)@[k] == floating_input_pfs(old(pfs)@[k]),
    {
        let frame: [u32; 3] = [0, 0, 0];
        self.framebuffer = frame;
        assert(self.framebuffer@ =~= seq![0u32, 0u32, 0u32]);
        proof {
            assert(!crate::led_matrix::bit_of(0u32, (old(self).i_isr % 32) as u32)) by {
                let s = (old(self).i_isr % 32) as u32;
                assert((0u32 >> s) & 1u32 != 1u32) by (bit_vector);
            }
        }
        self.draw_grid(pfs);
    }

    /// Loads a frame (three words, the first LED in the most significant
    /// bit) into the frame buffer, bit-reversed.
    pub fn load_frame(&mut self, frame: [u32; 3])
        requires
            old(self).wf(),
        ensures
            final(self).wf(),
            final(self).spec_framebuffer() == frame_buffer_for(frame[0], frame[1], frame[2]),
            final(self).spec_next_led() == old(self).spec_next_led(),
            final(self).spec_pins() == old(self).spec_pins(),
    {
        self.framebuffer = frame;
        let this_frame: [u32; 3] = [
            reverse(self.framebuffer[0]),
            reverse(self.framebuffer[1]),
            reverse(self.framebuffer[2]),
        ];
        self.framebuffer = this_frame;
        assert(self.framebuffer@ =~= frame_buffer_for(frame[0], frame[1], frame[2]));
    }

    /// Renders the next LED of the frame buffer.
    pub fn render_frame(&mut self, pfs: &mut [u32; 11])
        requires
            old(self).wf(),
        ensures
            final(self).wf(),
            final(self).spec_framebuffer() == old(self).spec_framebuffer(),
            final(self).spec_next_led() == (old(self).spec_next_led() + 1) % 96,
            forall|k: int|
                0 <= k < 11 ==> #[trigger] final(pfs)@[k] == lit_pfs(
                    old(pfs)@[k],
                    k,
                    led_pins(old(self).spec_next_led()).0 as int,
                    led_pins(old(self).spec_next_led()).1 as int,
                    led_lit(old(self).spec_framebuffer(), old(self).spec_next_led()),
                ),
    {
        self.draw_grid(pfs);
    }

    /// Turns the whole grid off by making every pin a floating input, then
    /// lights LED `idx` if `on`.
    fn turn_led(&mut self, idx: usize, on: bool, pfs: &mut [u32; 11])
        requires
            old(self).wf(),
            idx < 96,
        ensures
            final(self).wf(),
            forall|k: int|
                0 <= k < 11 ==> #[trigger] final(pfs)@[k] == lit_pfs(
                    old(pfs)@[k],
                    k,
                    led_pins(idx as int).0 as int,
                    led_pins(idx as int).1 as int,
                    on,
                ),
            final(self).framebuffer == old(self).framebuffer,
            final(self).i_isr == old(self).i_isr,
            forall|k: int|
                0 <= k < 11 ==> (#[trigger] final(self).dynpins@[k]).spec_pin_port() == old(
                    self,
                ).dynpins@[k].spec_pin_port() && final(self).dynpins@[k].spec_pfs_addr() == old(
                    self,
                ).dynpins@[k].spec_pfs_addr(),
    {
        proof {
            lemma_led_pins_valid(idx as int);
        }
        let ghost old_pfs = pfs@;
        let ghost old_pins = self.dynpins@;
        let mut i: usize = 0;
        while i < 11
            invariant
                i <= 11,
                pfs@.len() == 11,
                self.dynpins@.len() == 11,
                self.framebuffer == old(self).framebuffer,
                self.i_isr == old(self).i_isr,
                forall|k: int| 0 <= k < i ==> #[trigger] pfs@[k] == floating_input_pfs(old_pfs[k]),
                forall|k: int| i <= k < 11 ==> #[trigger] pfs@[k] == old_pfs[k],
                forall|k: int|
                    0 <= k < i ==> (#[trigger] self.dynpins@[k]).spec_mode()
                        == Dynamic::InputFloating,
                forall|k: int|
                    0 <= k < 11 ==> (#[trigger] self.dynpins@[k]).spec_pin_port()
                        == old_pins[k].spec_pin_port() && self.dynpins@[k].spec_pfs_addr()
                        == old_pins[k].spec_pfs_addr(),
            decreases 11 - i,
        {
            self.dynpins[i].make_floating_input(&mut pfs[i]);
            i = i + 1;
        }
        let pair = PINS[idx];
        let hi = pair[0] as usize;
        let lo = pair[1] as usize;
        if on {
            self.dynpins[hi].make_push_pull_output(&mut pfs[hi]);
            self.dynpins[hi].set_high(&mut pfs[hi]).unwrap();
            self.dynpins[lo].make_push_pull_output(&mut pfs[lo]);
            self.dynpins[lo].set_low(&mut pfs[lo]).unwrap();
        }
    }

    /// Lights the next LED if its frame buffer bit is set (else leaves the
    /// matrix dark) and moves on to the LED after it.
    fn draw_grid(&mut self, pfs: &mut [u32; 11])
        requires
            old(self).wf(),
        ensures
            final(self).wf(),
            final(self).framebuffer == old(self).framebuffer,
            final(self).i_isr == (old(self).i_isr + 1) % 96,
            forall|k: int|
                0 <= k < 11 ==> #[trigger] final(pfs)@[k] == lit_pfs(
                    old(pfs)@[k],
                    k,
                    led_pins(old(self).i_isr as int).0 as int,
                    led_pins(old(self).i_isr as int).1 as int,
                    led_lit(old(self).framebuffer@, old(self).i_isr as int),
                ),
    {
        let i_isr = self.i_isr;
        let word = i_isr >> 5;
        let bit = (i_isr & 31) as u32;
        assert(i_isr >> 5 == i_isr / 32 && i_isr & 31 == i_isr % 32) by (bit_vector);
        let w = self.framebuffer[word];
        let is_on = (w & (1u32 << bit)) != 0;
        assert(((w & (1u32 << bit)) != 0) == ((w >> bit) & 1u32 == 1u32)) by (bit_vector)
            requires
                bit < 32,
        ;
        self.turn_led(i_isr, is_on, pfs);
        self.i_isr = (i_isr + 1) % (NUM_LEDS as usize);
    }
}

} // verus!
