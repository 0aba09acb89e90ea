//! Arduino Modulino boards on the Qwiic bus: eight RGB pixels, a humidity
//! and temperature sensor, and three buttons with LEDs.
//!
//! Each driver keeps its state here and builds or decodes the bytes that go
//! over the bus; the caller moves them with the blocking bus operations.
use vstd::prelude::*;

use crate::hal::i2c::{I2cBus, I2cError, I2cInstance};
use crate::scale;

verus! {

/// A Modulino board at a fixed 7-bit bus address.
pub trait Modulino {
    spec fn spec_addr() -> u8;

    /// The board's address.
    fn addr() -> (r: u8)
        ensures
            r == Self::spec_addr(),
    ;

    fn address(&self) -> (r: u8)
        ensures
            r == Self::spec_addr(),
    {
        Self::addr()
    }
}

/// One pixel: brightness byte (0xE0 or-ed with 0 to 31) and colour.
#[derive(Copy, Clone)]
pub struct Pixel {
    pub brightness: u8,
    pub b: u8,
    pub g: u8,
    pub r: u8,
}

/// The brightness byte for a brightness of 0 to 100: the value scaled to
/// 0 to 31, or-ed into 0xE0.
pub open spec fn brightness_byte(brightness: u8) -> u8 {
    0xE0u8 | ((brightness as int * 31 / 100) as u8)
}

impl Pixel {
    /// Sets the colour and the brightness (0 to 100, scaled to 0 to 31).
    pub fn set(&mut self, r: u8, b: u8, g: u8, brightness: u8)
        ensures
            final(self).r == r,
            final(self).g == g,
            final(self).b == b,
            final(self).brightness == brightness_byte(brightness),
    {
        let scaled_bright = scale(brightness as usize, 0, 100, 0, 0x1F) as u8;
        self.r = r;
        self.g = g;
        self.b = b;
        self.brightness = 0xE0 | scaled_bright;
    }
}

/// Every brightness byte carries the marker bits 0xE0, whatever the
/// brightness asked for.
pub proof fn lemma_brightness_marker(brightness: u8)
    ensures
        brightness_byte(brightness) & 0xE0u8 == 0xE0u8,
{
    let s = (brightness as int * 31 / 100) as u8;
    assert((0xE0u8 | s) & 0xE0u8 == 0xE0u8) by (bit_vector);
}

/// The bytes of a pixel on the wire: brightness, blue, green, red.
pub open spec fn pixel_byte(px: Pixel, k: int) -> u8 {
    if k == 0 {
        px.brightness
    } else if k == 1 {
        px.b
    } else if k == 2 {
        px.g
    } else {
        px.r
    }
}

/// The eight-pixel LED strip.
pub struct ModulinoPixels<I: I2cInstance> {
    pub bus: I2cBus<I>,
    pixels: [Pixel; 8],
}

impl<I: I2cInstance> Modulino for ModulinoPixels<I> {
    open spec fn spec_addr() -> u8 {
        0x36
    }

    fn addr() -> (r: u8) {
        0x36
    }
}

impl<I: I2cInstance> ModulinoPixels<I> {
    pub closed spec fn spec_pixels(self) -> Seq<Pixel> {
        self.pixels@
    }

    /// All pixels off: colour 0 and brightness byte 0xE0 (the brightness
    /// marker bits with brightness 0), as `clear_all` leaves them.
    pub fn new(i2cbus: I2cBus<I>) -> (r: Self)
        ensures
            r.spec_pixels().len() == 8,
            forall|i: int|
                0 <= i < 8 ==> #[trigger] r.spec_pixels()[i] == (Pixel {
                    brightness: 0xE0,
                    b: 0,
                    g: 0,
                    r: 0,
                }),
    {
        ModulinoPixels { bus: i2cbus, pixels: [Pixel { brightness: 0xE0, b: 0, g: 0, r: 0 }; 8] }
    }

    /// Sets pixel `idx` (red, green, blue 0 to 255; brightness 0 to 100);
    /// an index past the strip does nothing.
    pub fn set(&mut self, idx: usize, r: u8, g: u8, b: u8, brightness: u8)
        ensures
            idx >= 8 ==> final(self).spec_pixels() == old(self).spec_pixels(),
            idx < 8 ==> final(self).spec_pixels() == old(self).spec_pixels().update(
                idx as int,
                Pixel { brightness: brightness_byte(brightness), b, g, r },
            ),
    {
        if idx >= 8 {
            return ;
        }
        let mut px = self.pixels[idx];
        px.set(r, b, g, brightness);
        self.pixels[idx] = px;
    }

    /// Turns pixel `idx` off (colour 0, brightness byte 0xE0).
    pub fn clear_pixel(&mut self, idx: usize)
        ensures
            idx >= 8 ==> final(self).spec_pixels() == old(self).spec_pixels(),
            idx < 8 ==> final(self).spec_pixels() == old(self).spec_pixels().update(
                idx as int,
                Pixel { brightness: 0xE0, b: 0, g: 0, r: 0 },
            ),
    {
        assert(0xE0u8 | 0u8 == 0xE0u8) by (bit_vector);
        self.set(idx, 0, 0, 0, 0);
    }

    /// Turns every pixel off.
    pub fn clear_all(&mut self)
        ensures
            final(self).spec_pixels().len() == 8,
            forall|i: int|
                0 <= i < 8 ==> #[trigger] final(self).spec_pixels()[i] == (Pixel {
                    brightness: 0xE0,
                    b: 0,
                    g: 0,
                    r: 0,
                }),
    {
        assert(0xE0u8 | 0u8 == 0xE0u8) by (bit_vector);
        let mut i: usize = 0;
        while i < 8
            invariant
                i <= 8,
                self.pixels@.len() == 8,
                brightness_byte(0) == 0xE0,
                forall|k: int|
                    0 <= k < i ==> #[trigger] self.pixels@[k] == (Pixel {
                        brightness: 0xE0,
                        b: 0,
                        g: 0,
                        r: 0,
                    }),
            decreases 8 - i,
        {
            let mut px = self.pixels[i];
            px.set(0, 0, 0, 0);
            self.pixels[i] = px;
            i = i + 1;
        }
    }

    /// The strip as sent on the bus: four bytes per pixel, brightness,
    /// blue, green, red.
    pub fn as_buffer(&self) -> (r: [u8; 32])
        ensures
            forall|i: int|
                0 <= i < 32 ==> #[trigger] r@[i] == pixel_byte(self.spec_pixels()[i / 4], i % 4),
    {
        let mut outbuffer: [u8; 32] = [0; 32];
        let mut i: usize = 0;
        while i < 8
            invariant
                i <= 8,
                self.pixels@.len() == 8,
                outbuffer@.len() == 32,
                forall|k: int|
                    0 <= k < 4 * i ==> #[trigger] outbuffer@[k] == pixel_byte(
                        self.pixels@[k / 4],
                        k % 4,
                    ),
            decreases 8 - i,
        {
            let px = self.pixels[i];
            outbuffer[i * 4] = px.brightness;
            outbuffer[i * 4 + 1] = px.b;
            outbuffer[i * 4 + 2] = px.g;
            outbuffer[i * 4 + 3] = px.r;
            i = i + 1;
        }
        outbuffer
    }
}

/// Unit of a temperature reading.
#[derive(Debug, Clone, Copy, PartialEq, Eq, Structural)]
pub enum TemperatureUnits {
    Celsius,
    Fahrenheit,
}

/// The raw fields of a humidity and temperature measurement.
#[derive(Debug, Clone, Copy, PartialEq, Eq, Structural)]
pub struct ThermoRaw {
    /// No new measurement since the last read.
    pub stale: bool,
    /// 14-bit relative humidity.
    pub raw_humidity: u16,
    /// 14-bit temperature.
    pub raw_temperature: u16,
}

/// The humidity and temperature sensor.
pub struct ModulinoThermo<I: I2cInstance> {
    results: [u8; 4],
    pub bus: I2cBus<I>,
}

impl<I: I2cInstance> Modulino for ModulinoThermo<I> {
    open spec fn spec_addr() -> u8 {
        0x44
    }

    fn addr() -> (r: u8) {
        0x44
    }
}

/// Bytes the sensor wants to be read from (none: a bare address write
/// starts a measurement).
pub const THERMO_MEASURE_COMMAND: [u8; 0] = [];

/// Milliseconds a measurement takes.
pub const HUMID_MEASUREMENT_TIME_MS: u32 = 36;

impl<I: I2cInstance> ModulinoThermo<I> {
    pub closed spec fn spec_results(self) -> Seq<u8> {
        self.results@
    }

    pub fn new(i2cbus: I2cBus<I>) -> (r: Self)
        ensures
            r.spec_results() == seq![0u8, 0u8, 0u8, 0u8],
    {
        let r = ModulinoThermo { results: [0; 4], bus: i2cbus };
        assert(r.results@ =~= seq![0u8, 0u8, 0u8, 0u8]);
        r
    }

    /// Keeps the four bytes read from the sensor.
    pub fn store_results(&mut self, data: [u8; 4])
        ensures
            final(self).spec_results() == data@,
    {
        self.results = data;
    }

    /// The two status bits of the last reading (bits 6 and 7 of byte 0);
    /// a healthy sensor reports 0 or 1.
    pub fn stale_bits(&self) -> (r: u8)
        ensures
            r == self.spec_results()[0] >> 6u8,
            r < 4,
    {
        let b0 = self.results[0];
        assert(b0 >> 6u8 < 4) by (bit_vector);
        b0 >> 6
    }

    /// Decodes the last reading: the stale flag, the humidity in the low 14
    /// bits of bytes 0 and 1 (big endian), the temperature in the high 14
    /// bits of bytes 2 and 3.
    pub fn decode(&self) -> (r: ThermoRaw)
        requires
            self.spec_results()[0] >> 6u8 <= 1,
        ensures
            r.stale == (self.spec_results()[0] >> 6u8 == 1),
            r.raw_humidity == (self.spec_results()[0] & 0x3F) as int * 256 + self.spec_results()[1],
            r.raw_temperature == (self.spec_results()[2] as int * 256 + self.spec_results()[3]) / 4,
    {
        let stale = match self.results[0] >> 6 {
            0 => false,
            _ => true,
        };
        let b0 = self.results[0];
        assert(b0 & 0x3Fu8 <= 0x3F) by (bit_vector);
        let raw_humidity = ((b0 & 0x3F) as u16) * 256 + (self.results[1] as u16);
        let t = (self.results[2] as u16) * 256 + (self.results[3] as u16);
        assert(t >> 2u16 == t / 4) by (bit_vector);
        let temp = t >> 2;
        ThermoRaw { stale, raw_humidity, raw_temperature: temp }
    }
}

/// A button of the button board.
#[derive(Debug, Clone, Copy, PartialEq, Eq, Structural)]
pub enum Button {
    A,
    B,
    C,
}

impl Button {
    pub open spec fn spec_index(self) -> int {
        match self {
            Button::A => 0,
            Button::B => 1,
            Button::C => 2,
        }
    }

    /// Position of the button: A is 0, B is 1, C is 2.
    pub fn index(&self) -> (r: usize)
        ensures
            r == self.spec_index(),
    {
        match self {
            Button::A => 0,
            Button::B => 1,
            Button::C => 2,
        }
    }
}

/// The three-button board.
pub struct ModulinoButtons<I: I2cInstance> {
    last_status: [u8; 3],
    pub bus: I2cBus<I>,
}

impl<I: I2cInstance> Modulino for ModulinoButtons<I> {
    open spec fn spec_addr() -> u8 {
        0x3E
    }

    fn addr() -> (r: u8) {
        0x3E
    }
}

impl<I: I2cInstance> ModulinoButtons<I> {
    pub closed spec fn spec_status(self) -> Seq<u8> {
        self.last_status@
    }

    /// No button pressed.
    pub fn new(i2cbus: I2cBus<I>) -> (r: Self)
        ensures
            r.spec_status() == seq![0u8, 0u8, 0u8],
    {
        let r = ModulinoButtons { last_status: [0; 3], bus: i2cbus };
        assert(r.last_status@ =~= seq![0u8, 0u8, 0u8]);
        r
    }

    /// Whether `button` was down at the last update.
    pub fn is_pressed(&self, button: Button) -> (r: bool)
        ensures
            r == (self.spec_status()[button.spec_index()] != 0),
    {
        self.last_status[button.index()] != 0
    }

    /// Takes in the four bytes read from the board (an address byte, then
    /// one byte per button) and says whether any button changed.
    pub fn update(&mut self, read_buffer: [u8; 4]) -> (r: Result<bool, I2cError>)
        ensures
            final(self).spec_status() == read_buffer@.subrange(1, 4),
            r == Ok::<bool, I2cError>(old(self).spec_status() != read_buffer@.subrange(1, 4)),
    {
        let was_updated: bool = read_buffer[1] != self.last_status[0] || read_buffer[2]
            != self.last_status[1] || read_buffer[3] != self.last_status[2];
        self.last_status[0] = read_buffer[1];
        self.last_status[1] = read_buffer[2];
        self.last_status[2] = read_buffer[3];
        assert(self.last_status@ =~= read_buffer@.subrange(1, 4));
        proof {
            if !was_updated {
                assert(old(self).last_status@ =~= read_buffer@.subrange(1, 4));
            }
        }
        Ok(was_updated)
    }

    /// The bytes that switch the LEDs of buttons A, B and C: 1 for on.
    pub fn led_payload(&self, a: bool, b: bool, c: bool) -> (r: [u8; 3])
        ensures
            r@ == seq![a as u8, b as u8, c as u8],
    {
        let r = [a as u8, b as u8, c as u8];
        assert(r@ =~= seq![a as u8, b as u8, c as u8]);
        r
    }
}

} // verus!
