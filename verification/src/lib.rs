//! Protocol driver for the GC9D01 SPI colour LCD controller.
//!
//! The driver is a step machine: every operation hands out the line changes,
//! delays and bus writes it needs, one at a time, and the host that owns the
//! bus, the pins and the timer reports how each one went.

pub mod color;
pub mod config;
pub mod driver;
pub mod error;
pub mod instruction;
pub mod laws;
pub mod program;
pub mod timer;
pub mod wire;

pub use config::{check_buffer, Config, Orientation, BUF_SIZE, MAX_DATA_LEN};
pub use driver::GC9D01;
pub use error::{Error, Event};
pub use instruction::Instruction;
pub use timer::Timer;
pub use wire::Action;
