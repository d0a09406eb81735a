# gameboy_core

A Game Boy / Game Boy Color emulator core whose machine is verified with Verus: the SM83
CPU, the memory bus with its OAM and VRAM DMA, the PPU (timing and line drawing), the sound
unit, timer, serial port, joypad and interrupts, the cartridge header and the MBC0/1/3/5
bank controllers, and the decisions of the debugger and of the front end's run loop.

Layout:

- `src/` — the verified library. Every executable function states in `requires` and
  `ensures` what it does, over spec functions such as `cpu::semantics::outcome` (one
  instruction), `Bus::read_spec` / `Bus::written` and `Ppu::cycled`. `src/laws.rs` holds the
  properties that relate several calls (read-back of RAM, CALL/RET, DAA, PPU line and
  interrupt bounds, echo RAM, palette, length counters, noise generator, serial delivery).
- `tests/` — tests on concrete programs and values.
- `app/` — the desktop front end: window, rendering, sound output, file dialogs and the
  debugger windows, built on egui, wgpu, winit, pixels, cpal and rfd.
