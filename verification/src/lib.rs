//! A verified CHIP-8 interpreter core.
//!
//! The crate holds the fetch-decode-execute engine of the machine: 4 KiB of
//! memory, sixteen byte registers, a call stack, two countdown timers, a
//! 64x32 monochrome framebuffer and a sixteen-key pad. Every instruction is an
//! executable method of [`Chip8`] whose contract equates the new machine state
//! with a function of the old one over the mathematical model [`Machine`].
//!
//! Reading a program image, drawing the framebuffer, polling keys, sound and
//! the two clocks that drive [`Chip8::emulate_cycle`] and
//! [`Chip8::tick_timers`] belong to the host application.

pub mod chip8;
pub mod cycle;
pub mod decode;
pub mod draw;
pub mod error;
pub mod laws;
pub mod machine;
pub mod ops;
pub mod random;

pub use chip8::Chip8;
pub use decode::Instruction;
pub use error::{ExecutionError, RomTooLarge};
