# device_kit

Device-level logic for Raspberry Pi Pico peripherals, verified with Verus.

- `src/` is the library. Every function in it is verified against its contract:
  LED layouts and their transforms, frame and font rendering for LED panels and
  seven-segment displays, the NEC infrared decoder, the flash block format, clock
  arithmetic, and the state machines of the clocks, buttons and display loops. The
  public proof functions state the laws the library keeps (a layout rotated four
  times is unchanged, a block reads back what was written, a decoded frame is the
  frame sent, ...).
- `tests/` runs the library on concrete values.
- `app/` holds the device tasks around the library: the async loops that wait on
  commands, timers and pins, the glue to the graphics and serialization crates, and
  small traits for the hardware they drive.

Calls into outside crates (CRC-32, postcard, the `time` crate, heapless maps, the
system timer) go through a few trusted wrappers in `src/`, each documented with what
its contract claims.
