# mpsse

A builder for the command streams of FTDI's MPSSE engine, verified with Verus.

- `src/command.rs`: the commands, their options and pin arrays, and the bytes
  each command stands for (`Command::encoding`, `encode_all`), with the laws
  on them (pin byte round trips, opcode bits, length fields, concatenation).
- `src/builder.rs`: `Builder` and the per-command builders; `build` returns
  exactly `encode_all` of the commands added, in order.
- `app/lib.rs`: `set_frequency`, which turns a frequency into a clock divisor
  in floating point and then calls the verified `set_divisor`.
