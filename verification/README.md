# cat_scale

The firmware of a Bluetooth cat scale: an nRF52840 with an HX711 load cell, which
broadcasts the weight as a BTHome V2 advertisement every few seconds.

- `src/` is the library: what the scale decides, as functions of plain values, verified
  with Verus.
  - `bytes`: little-endian strings and two's complement
  - `gap`: advertising data as a string of structures
  - `bthome`: the advertisement and the scan response
  - `weigh`: the weighing loop, as a state machine
  - `console`: the commands of the serial console
  - `dfu`: the way into the bootloader
  - `usb`: the USB port, its settings and its power events
  - `softdevice`: the radio stack's settings and the interrupt priorities around it
  - `accel`: the accelerometer's settings and the steps of its set-up
  - `leds`: the heartbeat and the blink after a panic
- `tests/` runs the library on the host.
- `app/` is the firmware itself: it owns the peripherals, hands the library what it read,
  and does what the library tells it. It is meant for the `thumbv7em-none-eabihf` target.

Weights cross the border between the two as hundredths of a kilogram in a `u16`, and as the
raw count of the load cell in an `i32`. The functions whose names begin with `law_` state
what holds of the library as a whole.
