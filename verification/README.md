# veml6030

Driver logic for the Vishay VEML6030 ambient light sensor, verified with Verus.

- `src/` is the verified library: the register map and its bit fields, the
  codes of the gain, integration time, persistence and power saving settings,
  the byte layout of register reads and writes, the configuration changes of
  start, stop and interrupt enabling, and the builder that yields the register
  writes that bring a sensor up. The bus is not touched here: each operation
  states which bytes go out and how the bytes that come back are read.
- `app/` carries these transactions out on an `embedded-hal` (blocking) or
  `embedded-hal-async` I2C bus, and holds the floating-point conversion between
  output counts and lux.
- `tests/` runs the library on concrete values.
