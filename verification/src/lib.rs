//! Fairy Lantern: a Game Boy Advance emulator core.

pub mod battery;
pub mod battery_laws;
pub mod bios_hle;
pub mod bits;
pub mod bus;
pub mod cart;
pub mod cpu;
pub mod device_laws;
pub mod dma;
pub mod emu;
pub mod fable;
pub mod irq;
pub mod machine_laws;
pub mod mem;
pub mod pad;
pub mod pad_led;
pub mod path;
pub mod play;
pub mod ppu;
pub mod recents;
pub mod rtc;
pub mod savestate;
pub mod sound;
pub mod statedbg;
pub mod text;
pub mod timers;
pub mod trace;
pub mod tui;
pub mod video;
