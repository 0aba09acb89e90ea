//! Verified logic for the Arduino Uno R4 WiFi board support crate.
pub mod arduino_led_matrix;
pub mod hal;
pub mod interrupts;
pub mod led_matrix;
pub mod millis_timer;
pub mod modulinos;

use vstd::prelude::*;

verus! {

/// Linear rescale of `val` from `[in_min, in_max]` into `[out_min, out_max]`,
/// truncating toward zero.
pub fn scale(val: usize, in_min: usize, in_max: usize, out_min: usize, out_max: usize) -> (r: usize)
    requires
        in_min <= val,
        in_min < in_max,
        out_min <= out_max,
        (val - in_min) * (out_max - out_min) <= usize::MAX,
        (val - in_min) * (out_max - out_min) / ((in_max - in_min) as int) + out_min <= usize::MAX,
    ensures
        r == (val - in_min) * (out_max - out_min) / ((in_max - in_min) as int) + out_min,
{
    (val - in_min) * (out_max - out_min) / (in_max - in_min) + out_min
}


/// Number of LEDs on the board's matrix.
pub const MATRIX_LEDS: usize = 96;

/// Whether the snake whose tail is at `tail` and that runs `len` LEDs past
/// it (wrapping around the 96 LEDs) covers LED `j`.
pub open spec fn snake_covers(tail: int, len: int, j: int) -> bool {
    (j - tail) % 96 <= len
}

/// Lights (sets to 1) the LEDs from `snake_tail` to `snake_tail + snake_len`
/// in the flat 96-LED map, wrapping past the last LED; other LEDs keep their
/// value.
pub fn light_snake(snake_tail: usize, snake_len: usize, map: &mut [u8; 96])
    requires
        snake_tail + snake_len <= usize::MAX,
    ensures
        forall|j: int|
            0 <= j < 96 ==> #[trigger] final(map)@[j] == if snake_covers(
                snake_tail as int,
                snake_len as int,
                j,
            ) {
                1u8
            } else {
                old(map)@[j]
            },
{
    let snake_head = snake_tail + snake_len;
    let ghost old_map = map@;
    let mut i: usize = snake_tail;
    loop
        invariant_except_break
            forall|j: int|
                0 <= j < 96 ==> #[trigger] map@[j] == if (j - snake_tail) % 96 < i - snake_tail {
                    1u8
                } else {
                    old_map[j]
                },
        invariant
            snake_tail <= i <= snake_head,
            snake_head == snake_tail + snake_len,
            map@.len() == 96,
            old_map.len() == 96,
        ensures
            forall|j: int|
                0 <= j < 96 ==> #[trigger] map@[j] == if snake_covers(
                    snake_tail as int,
                    snake_len as int,
                    j,
                ) {
                    1u8
                } else {
                    old_map[j]
                },
        decreases snake_head - i,
    {
        let idx = if i >= 96 {
            i % 96
        } else {
            i
        };
        map[idx] = 1;
        proof {
            let c = i - snake_tail;
            assert(idx == (snake_tail + c) % 96);
            assert forall|j: int| 0 <= j < 96 implies #[trigger] map@[j] == (if (j - snake_tail) % 96
                < c + 1 {
                1u8
            } else {
                old_map[j]
            }) by {
                assert(0 <= (j - snake_tail) % 96 < 96);
                if c < 96 {
                    assert((((snake_tail + c) % 96) - snake_tail) % 96 == c) by (nonlinear_arith)
                        requires
                            0 <= c < 96,
                            snake_tail >= 0,
                    ;
                    if (j - snake_tail) % 96 == c {
                        assert(j == idx) by (nonlinear_arith)
                            requires
                                (j - snake_tail) % 96 == c,
                                0 <= j < 96,
                                idx == (snake_tail + c) % 96,
                                snake_tail >= 0,
                        ;
                    }
                }
            }
        }
        if i == snake_head {
            break ;
        }
        i = i + 1;
    }
}

/// One step of the snake's clock at time `now` (ms): once `tick` ms have
/// passed since `last`, the tail moves on one LED, wrapping after the last
/// of the 96; before that nothing moves.
pub fn snake_tick(now: u32, last: u32, tail: usize, tick: u32) -> (r: Option<usize>)
    requires
        now >= last,
        tail < usize::MAX,
    ensures
        r == (if now - last >= tick {
            Some(
                if tail + 1 >= MATRIX_LEDS {
                    0usize
                } else {
                    (tail + 1) as usize
                },
            )
        } else {
            None
        }),
{
    if now - last >= tick {
        let next = tail + 1;
        if next >= MATRIX_LEDS {
            Some(0)
        } else {
            Some(next)
        }
    } else {
        None
    }
}

/// Relative humidity, in percent, of a 14-bit raw reading, in whole
/// steps of full scale.
pub fn pct_humid(humid: u16) -> (r: u16)
    ensures
        r == (humid / 16383) * 100,
{
    (humid / 16383) * 100
}

/// Temperature, in degrees Celsius, of a 14-bit raw reading, in whole
/// steps of full scale.
pub fn temp_c(temp: u16) -> (r: i32)
    ensures
        r == (temp / 16383) as int * 165 - 40,
{
    ((temp / 16383) as i32) * 165 - 40
}

} // verus!
