# nes

Parts of a Nintendo Entertainment System emulator, verified with Verus: the CPU bus with its DMA
unit, the master clock, the sound unit, some forty cartridge boards with their EEPROM and flash
chips, save-state snapshots, and the patch format that disk saves use.

- `src/` is the library. Every device has a mathematical state and spec functions that say what each
  access returns and leaves behind; the executable methods are proved to do that. Public proof
  functions state what holds across calls, such as that a snapshot brings back what it was taken
  from.
- `tests/` runs the library on concrete values.
- `app/` is ordinary Rust around the library: floating-point sound, error types, serializable
  copies.

The picture unit is a trait, `nes::ppu::Ppu`; `nes::ppu::HeadlessPpu` is one that draws nothing.
