# wqxemu

A Wenquxing (文曲星) electronic dictionary emulator whose core is written in
Verus: every register, memory map, flash controller and CPU instruction is
executable Rust with a `requires`/`ensures` contract that Verus proves.

## Layout

- `src/` — the verified core.
  - `cpu.rs`, `cpu_laws.rs`, `alu_laws.rs`: the 6502 core; `step` is specified
    as a relation over the bus accesses it makes, and the laws cover the ALU
    (binary and decimal ADC/SBC, compare), call/return and push/pull.
  - `memory.rs`, `io.rs`, `timer.rs`, `input.rs`, `audio.rs`, `flash.rs`,
    `lcd.rs`: the NC1020 components.
  - `spdc.rs`: the SPDC1016 parts shared by the PC1000, CC800 and NC2000
    (NOR command state machine, periodic timers, zero-page window).
  - `nc1020.rs`, `pc1000.rs`, `cc800.rs`, `nc2000.rs`: the four models.
  - `machine.rs`, `emulator.rs`: models, firmware images, errors, the
    `Machine` trait, the model-agnostic shell and model detection.
  - `save.rs`: save states and session headers (sessions are captured and
    resumed as values through `Emulator::session` / `restore_session`; no
    byte encoding is defined).
  - `host_keys.rs`, `key_ids.rs`: PC keyboard to device key mapping.
  - `bytes.rs`, `bits.rs`: byte-buffer helpers and bit-level lemmas.
- `tests/` — unit and scenario tests, run against the compiled library.
- `app/` — the desktop frontend: argument parsing, file reading, the window
  loop and screenshots.
