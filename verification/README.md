# RustyMeter

A desktop front end for OWON bench multimeters (XDM1041, XDM1241) and laboratory power supplies with
an integrated multimeter (SPM series), which it talks to over a serial port.

- `src/` is the library, verified with Verus: command and range tables, reading of replies, the
  choice of a plugin for an instrument, the serial conversation, and the state of a session.
- `app/` is the program around it: windows, the serial port, storage, and floating-point arithmetic.
- `tests/` runs the library.

The library does no floating-point arithmetic. It decides which text is a number and hands the text
out; it holds doubles by their bits and orders them exactly. Where a reply can only be matched to a
range by comparing numbers, it hands the comparison out as a question and takes the answer back.

Properties that span several functions are stated and proved in `range_laws`, `table_laws`, `serial_laws`, and at
the end of `session`, `replies`, `number`, `double` and `plugins::registry`, as functions whose names
begin with `law_`.
