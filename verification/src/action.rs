//! The vocabulary in which the driver speaks to the peripheral.
//!
//! The driver never touches the hardware. It says which [`Action`] is due, the
//! caller performs it, and hands back the value that a read gave.

use crate::config::Error;
use vstd::prelude::*;

verus! {

/// A register of the QSPI peripheral.
#[derive(Copy, Clone, Debug, PartialEq, Eq, Structural)]
pub enum Register {
    /// Task that activates the interface.
    TasksActivate,
    /// Task that starts a transfer from flash to RAM.
    TasksReadstart,
    /// Task that starts a transfer from RAM to flash.
    TasksWritestart,
    /// Task that starts an erase.
    TasksErasestart,
    /// Task that deactivates the interface.
    TasksDeactivate,
    /// Event that answers each task; nonzero once it has occurred.
    EventsReady,
    /// Enables interrupts.
    Intenset,
    /// Disables interrupts.
    Intenclr,
    /// Enables the peripheral.
    Enable,
    /// Flash address that a read takes its data from.
    ReadSrc,
    /// RAM address that a read stores its data at.
    ReadDst,
    /// Number of bytes that a read transfers.
    ReadCnt,
    /// Flash address that a write stores its data at.
    WriteDst,
    /// RAM address that a write takes its data from.
    WriteSrc,
    /// Number of bytes that a write transfers.
    WriteCnt,
    /// Flash address of the block to erase.
    ErasePtr,
    /// Size of the block to erase.
    EraseLen,
    /// Pin select of a signal.
    Psel(Signal),
    /// Address offset of execute-in-place accesses.
    Xipoffset,
    /// Interface configuration 0.
    Ifconfig0,
    /// Interface configuration 1.
    Ifconfig1,
    /// Status.
    Status,
    /// Durations of entering and exiting deep power-down mode.
    Dpmdur,
    /// Custom instruction configuration; writing it sends the instruction.
    Cinstrconf,
    /// Custom instruction data, bytes 0 to 3.
    Cinstrdat0,
    /// Custom instruction data, bytes 4 to 7.
    Cinstrdat1,
    /// Interface timing.
    Iftiming,
    /// Undocumented register at offset 0x054, which anomaly 122 of the
    /// nRF52840 asks to be written after the interface was deactivated.
    Anomaly122,
}

/// A signal of the flash interface, each routed to a pin of its own.
#[derive(Copy, Clone, Debug, PartialEq, Eq, Structural)]
pub enum Signal {
    /// Serial clock.
    Sck,
    /// Chip select, active low.
    Csn,
    /// Data line 0.
    Io0,
    /// Data line 1.
    Io1,
    /// Data line 2.
    Io2,
    /// Data line 3.
    Io3,
}

/// What the caller is to do next.
#[derive(Copy, Clone, Debug, PartialEq, Eq)]
pub enum Action {
    /// Write the value to the register.
    Write(Register, u32),
    /// Read the register and hand back its value.
    Read(Register),
    /// Drive the pin of the signal high.
    SetHigh(Signal),
    /// Write the value to the configuration register of the signal's pin.
    ConfigurePin(Signal, u32),
    /// Read the pin select register of the signal, and return the pin that it
    /// names to its unconnected state.
    DeconfigurePin(Signal),
    /// Clear the pending state of the peripheral's interrupt.
    UnpendInterrupt,
    /// Enable the peripheral's interrupt.
    EnableInterrupt,
    /// Register the waker of the current task for the interrupt to wake.
    RegisterWaker,
    /// Wake the task that was registered last, if any.
    Wake,
    /// Give way to other tasks; go on when the task was woken.
    Yield,
    /// Spin for this number of clock cycles.
    Delay(u32),
    /// Nothing is left to do: return the result.
    Return(Result<(), Error>),
}

} // verus!
