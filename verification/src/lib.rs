//! A verified CHIP-8 style virtual machine: 16 general 8-bit registers, a
//! 4 KiB address space, a 16-slot call stack, two countdown timers, a 16-key
//! keyboard, and a 64x32 monochrome framebuffer, driven by a fetch-decode-
//! execute engine over big-endian 16-bit instruction words.
//!
//! Every instruction's effect on the machine state is pinned down by the
//! transition relation in [`semantics`], and the engine in [`cpu`] is proved
//! to implement it.

pub mod cpu;
pub mod disk;
pub mod draw;
pub mod laws;
pub mod ops;
pub mod semantics;

pub use cpu::Cpu;
pub use cpu::CpuError;
pub use cpu::Step;
pub use cpu::FONT_SET;
pub use disk::Disk;
