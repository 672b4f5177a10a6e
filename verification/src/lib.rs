//! Peripherals of a small Z80 single-board computer: a removable-storage
//! card driven through I/O ports, two serial chips and a text terminal.
//!
//! Every peripheral is a plain state machine. Whatever needs the host (files,
//! the keyboard, the screen) is requested from and answered by the embedding
//! program; the decisions are taken here.

pub mod console;
pub mod debugger;
pub mod disasm;
pub mod dma;
pub mod guest;
pub mod host;
pub mod laws;
pub mod model;
pub mod ports;
pub mod sd;
pub mod serial;
pub mod shield;
pub mod storage;
pub mod terminal;
pub mod text;
pub mod web;
