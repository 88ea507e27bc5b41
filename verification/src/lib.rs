//! Quad Serial Peripheral Interface (QSPI) flash driver.
//!
//! The driver does no input or output of its own. A request to [`Qspi`] gives an
//! [`Operation`], which says step by step which [`Action`] on the hardware is due,
//! and takes the values that reads gave. The caller performs the actions, and
//! chooses between spinning and sleeping only by which request it makes.

pub mod action;
pub mod config;
pub mod driver;
pub mod erase_range;
mod fields;
pub mod interrupt;
pub mod laws;
pub mod operation;
pub mod shutdown;
pub mod values;
pub mod words;

pub use action::{Action, Register, Signal};
pub use config::{
    AddressMode, Config, DeepPowerDownConfig, Error, ErrorKind, Frequency, ReadOpcode, SpiMode,
    WriteOpcode, WritePageSize,
};
pub use driver::{Buffer, PinSelect, Qspi, ERASE_SIZE, READ_SIZE, WRITE_SIZE};
pub use erase_range::EraseRange;
pub use interrupt::InterruptHandler;
pub use operation::{Mode, Operation};
pub use shutdown::Shutdown;
