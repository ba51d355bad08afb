//! Boot-time kernel loading and handoff.
//!
//! This library holds the decision logic of a firmware bootloader: parsing
//! and validating a 64-bit executable image, materializing its loadable
//! segments, assembling the handoff record that crosses the firmware/kernel
//! boundary, and the strictly ordered sequence of steps that ends in a
//! one-way jump into the loaded kernel. Everything that talks to the
//! firmware itself (file reads, page allocation, the environment exit) lives
//! outside, driven by the actions this library emits.

pub mod config;
pub mod elf;
pub mod handoff;
pub mod loader;
pub mod sequencer;
pub mod status;
pub mod text;
