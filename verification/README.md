# embedded-qmp6988

A driver for the QMP6988 barometric pressure sensor, verified with Verus.

- `src/` is the library. It does no I/O: `Qmp6988` is a state machine that
  hands out the bus actions of each request (I2C writes, write-then-read
  transactions, waits) and takes their results back. It also decodes the
  calibration coefficients and the raw readings, and selects the register
  values of the filter, oversampling and power mode settings.
  - `settings.rs`: filter, oversampling and power-mode encodings.
  - `calibration.rs`: decoding of the 25 calibration bytes.
  - `device.rs`: the state machine and its transition function.
  - `properties.rs`: proved properties of whole requests.
  - `error.rs`: the error type.
- `app/` is the blocking `embedded-hal` driver that performs those actions on
  a real bus and does the floating-point compensation and altitude
  computation.
- `tests/` drives the state machine through the bus exchanges of each request.
