# nes_emulator

The verified core of a NES/Famicom emulator, written in Verus.

- `src/apu/` – the console's sound channels (pulse, triangle, noise, DMC),
  the frame sequencer and register writes; `laws.rs` holds the invariants
  every step and write keeps.
- `src/cartridge/` – the iNES loader (`load.rs`), the mapper chips'
  register state machines (`mapper/`), the boards as the CPU and PPU see
  them (`*_board.rs`, `discrete.rs`, `latch_boards.rs`), nametable routing,
  save RAM and reset (`interface.rs`), the entry points that pick the
  board by mapper number (`dispatch.rs`), and the save states
  (`state.rs`, `savestate.rs`).
- `src/audio.rs` – the stereo frame ring between emulator and audio
  device, and the per-sample source that drains it.
- `src/snes_timer.rs` – the S-SMP's 3-stage timers.
- `src/snes_apu.rs` – the S-SMP's memory map: RAM, boot ROM, timers, DSP
  address latch and CPU/APU ports.
- `src/snes_boot.rs` – the CPU side of the sound ports with the optional
  high-level boot handshake.
- `src/bus_timing.rs` – the CPU bus's controller port, OAM DMA and DMC
  stall timing.
- `src/cli.rs` – the front-ends' command-line values (numbers, button
  lists, frame-runner options, RAM dump lines).
- `app/` – ordinary Rust around the library: floating-point mixing and
  filters, the chips' sample levels as floats, audio output, the boot
  options read from the environment and the front-end helpers.
- `tests/` – the test suite, run against the compiled library.
