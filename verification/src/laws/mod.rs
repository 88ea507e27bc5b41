//! What holds of the driver as a whole.

pub mod device;
pub mod effects;
pub mod erasing;
pub mod instructions;
pub mod operations;
pub mod scripts;
pub mod settings;
pub mod shutdowns;
pub mod wakeups;
