# opal

Firmware core of OPAL, a galvo-scanner laser marker driven over USB serial
with G-code, written as a Verus library (`src/`) and a thin RTIC
application (`app/`).

## Layout

- `src/gcode.rs`, `src/number.rs`, `src/text.rs`: the G-code line parser,
  number-literal and word scanning, and UTF-8 text helpers.
- `src/serial.rs`, `src/fixed.rs`: assembling lines from USB bytes in a
  fixed-capacity buffer and turning a line into queued commands.
- `src/motion.rs`: motion decisions (command dispatch, move timing, laser
  switching, status replies).
- `src/xy2_100.rs`: the XY2-100 galvo protocol and its double-buffered
  DMA transmission.
- `src/laser.rs`, `src/clocking.rs`: laser status and PWM timer settings,
  and the clock tree.
- `src/freqmeter.rs`, `src/storage.rs`, `src/internal_storage.rs`,
  `src/qspi.rs`, `src/settings.rs`, `src/protocol.rs`: the frequency-meter,
  data-storage, flash, settings and request-protocol rules of the pressure
  recorder that shares this code base.
- `tests/`: tests of the library on concrete values.
- `app/`: peripherals, USB I/O, float motion arithmetic and laser PWM on
  the STM32F103.

Each public function of `src/` states its result in `ensures`; the
`law_*` proof functions state properties that relate several operations.
