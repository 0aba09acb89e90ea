# uno_wifi_app

Board support for the Arduino Uno R4 WiFi (Renesas RA4M1): GPIO pins with
typestate modes, GPT and AGT timers, the interrupt driven I2C master of the
Qwiic connector, the 12 x 8 LED matrix, a millisecond counter and drivers
for the Arduino Modulino boards.

The library in `src/` is verified with Verus. It never touches hardware:
each operation takes the register values it reads and gives back the values
to write, and every interrupt handler is a state machine step that says
which register accesses to make. Its contracts state those values exactly.

- `src/hal/gpio.rs`, `src/hal/gpio/`: pins, their modes and PFS register
  values, erased and dynamic pins, the board's ports.
- `src/hal/timer.rs`, `src/hal/simple_timer.rs`: GPT and AGT timers,
  prescaler and period selection.
- `src/hal/i2c.rs`: the I2C transfer state machine.
- `src/hal/interrupts.rs`, `src/interrupts.rs`: IRQ numbers and ICU links.
- `src/led_matrix.rs`, `src/arduino_led_matrix.rs`: the LED matrix, its
  frames and its refresh.
- `src/millis_timer.rs`: the millisecond counter.
- `src/modulinos.rs`: the Modulino boards.

`app/` is the firmware around it: volatile register access, interrupt
binding, blocking bus transfers, floating point conversions and the main
loop. `tests/` runs the library on concrete register values.
