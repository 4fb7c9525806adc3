//! Typed values for the WASM-4 fantasy console.
//!
//! The console talks to a cartridge through a fixed memory map and a small
//! table of imported procedures. This crate holds the part of a cartridge
//! that can be reasoned about without the console: the bit-packed register
//! values, the words that the imported procedures take, and the steps that
//! the demo cartridge asks of its host. Every function carries a contract
//! that Verus checks.
//!
//! - [`memory`]: where the registers lie.
//! - [`color`], [`input`], [`system`]: the values of the registers.
//! - [`draw`], [`sound`], [`report`]: the calls of the imported procedures,
//!   each as an [`host::Action`].
//! - [`text`]: text in a fixed buffer.
//! - [`cart`]: the demo cartridge.
//! - [`bits`]: words as sets of bit positions, on which the flag types rest.

pub mod bits;
pub mod cart;
pub mod color;
pub mod draw;
pub mod host;
pub mod input;
pub mod memory;
pub mod report;
pub mod sound;
pub mod system;
pub mod text;
