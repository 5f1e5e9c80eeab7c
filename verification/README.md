# Fairy Lantern

A Game Boy Advance emulator whose core is written and proved in
[Verus](https://github.com/verus-lang/verus).

- `src/` is the core: CPU, bus, DMA, timers, interrupts, PPU, sound, BIOS
  services, save chips, savestates, cartridges, and what the player's keys, pads
  and menus decide. Every function carries its contract. State is modelled by
  plain values (`BusModel`, `EmuModel`, ...), and a contract says which value
  follows from which.
- Properties that span functions are proof functions whose names begin with
  `law_`: what a mode switch keeps, what a savestate gives back, how a flash chip
  programs and erases, in which order sprites cover each other.
- `tests/` runs the core on concrete machines.
- `app/` is the program around it: window, speakers, pads, files and the
  terminal.

A BIOS service that needs floating point (ArcTan, ArcTan2, MidiKey2Freq, the
affine matrices) is left pending on the bus. The run then answers nothing; the
host computes the number, hands it in, and calls again.

The core trusts the ZIP reader of the `zip` crate and a few functions of the
standard library. Each of these stands behind one small function in `cart.rs` or
`text.rs` that says what is taken on trust.
