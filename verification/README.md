# tokio_serial_pacing

Pacing for serial links that must keep a silence between traffic in one
direction and the next operation in the other, as Modbus RTU asks of its
3.5-character inter-frame delay.

- `src/` is the verified library (Verus):
  - `line.rs` computes the inter-frame wait from a line's data bits, stop
    bits, parity and baud rate;
  - `pacing.rs` is the pacing state machine: given "an operation begins",
    "the timer answered", "the stream answered", it says whether to wait on
    the timer, go to the stream, or answer;
  - `time.rs` holds clock readings and lengths of time in nanoseconds;
  - `laws.rs` holds the properties proved of both.
- `app/` holds the tokio side: `SerialReadPacing` and `SerialWritePacing`
  wrap any `AsyncRead + AsyncWrite` stream, own its timer, read the clock and
  carry out what the pacer decides; `wait_time` reads a `tokio_serial` port's
  settings and hands them to the library.
- `tests/` exercises the library on concrete values.
