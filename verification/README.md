# ner_firmware

Verified decision logic of a student race car's firmware, written in Verus.

- `src/lightning/`: the accumulator fault light — CAN frame classification, the inbox queue
  (`heapless`), the latching red/green state machine and the LED patterns.
- `src/cerberus/`: the ready-to-drive sound (command queue on `embassy_sync`, pin and deadline
  handling), the ADC multiplexer and efuse bookkeeping, and the PHY PLCA register writes.
- `src/shepherd/`: BMS faults (flags, expiry timers, fault queue), job diagnostics, the
  register cache, HV-plate task gating, and the HIL transaction planning and retry rules.
- `src/clock.rs`: time in `embassy_time` ticks.

`app/` holds single passes of the tasks (read the inputs, call the library, act on what it
decides) and the floating-point unit conversions; the task loops themselves, their waits and
the board I/O are not in it. `tests/` runs the library on concrete values.
