//! Configuration of the peripheral and the errors of the driver.

use vstd::prelude::*;

verus! {

/// Addressing mode of the flash memory.
#[derive(Copy, Clone, Debug, PartialEq, Eq, PartialOrd, Ord, Structural)]
pub enum AddressMode {
    /// 24-bit addressing.
    _24BIT,
    /// 32-bit addressing.
    _32BIT,
}

/// Page size of write operations.
#[derive(Copy, Clone, Debug, PartialEq, Eq, PartialOrd, Ord, Structural)]
pub enum WritePageSize {
    /// 256 bytes.
    _256BYTES,
    /// 512 bytes.
    _512BYTES,
}

/// Opcode of read operations.
#[allow(non_camel_case_types)]
#[derive(Copy, Clone, Debug, PartialEq, Eq, PartialOrd, Ord, Structural)]
pub enum ReadOpcode {
    /// Single data line (opcode 0x0B).
    FASTREAD,
    /// Dual data line output (opcode 0x3B).
    READ2O,
    /// Dual data line input and output (opcode 0xBB).
    READ2IO,
    /// Quad data line output (opcode 0x6B).
    READ4O,
    /// Quad data line input and output (opcode 0xEB).
    READ4IO,
    /// Reserved encoding.
    _RESERVED_5,
    /// Reserved encoding.
    _RESERVED_6,
    /// Reserved encoding.
    _RESERVED_7,
}

/// Opcode of write operations.
#[allow(non_camel_case_types)]
#[derive(Copy, Clone, Debug, PartialEq, Eq, PartialOrd, Ord, Structural)]
pub enum WriteOpcode {
    /// Single data line (opcode 0x02).
    PP,
    /// Dual data line output (opcode 0xA2).
    PP2O,
    /// Quad data line output (opcode 0x32).
    PP4O,
    /// Quad data line input and output (opcode 0x38).
    PP4IO,
    /// Reserved encoding.
    _RESERVED_4,
    /// Reserved encoding.
    _RESERVED_5,
    /// Reserved encoding.
    _RESERVED_6,
    /// Reserved encoding.
    _RESERVED_7,
}

/// SPI clock mode.
#[derive(Copy, Clone, Debug, PartialEq, Eq, PartialOrd, Ord, Structural)]
pub enum SpiMode {
    /// Data is captured on the rising clock edge and output on the falling edge.
    MODE0,
    /// Data is captured on the falling clock edge and output on the rising edge.
    MODE3,
}

/// Deep power-down config.
pub struct DeepPowerDownConfig {
    /// Time required for entering DPM, in units of 16us
    pub enter_time: u16,
    /// Time required for exiting DPM, in units of 16us
    pub exit_time: u16,
}

/// QSPI bus frequency.
#[allow(non_camel_case_types)]
pub enum Frequency {
    /// 32 Mhz
    M32,
    /// 16 Mhz
    M16,
    /// 10.7 Mhz
    M10_7,
    /// 8 Mhz
    M8,
    /// 6.4 Mhz
    M6_4,
    /// 5.3 Mhz
    M5_3,
    /// 4.6 Mhz
    M4_6,
    /// 4 Mhz
    M4,
    /// 3.6 Mhz
    M3_6,
    /// 3.2 Mhz
    M3_2,
    /// 2.9 Mhz
    M2_9,
    /// 2.7 Mhz
    M2_7,
    /// 2.5 Mhz
    M2_5,
    /// 2.3 Mhz
    M2_3,
    /// 2.1 Mhz
    M2_1,
    /// 2 Mhz
    M2,
}

/// QSPI config.
#[non_exhaustive]
pub struct Config {
    /// XIP offset.
    pub xip_offset: u32,
    /// Opcode used for read operations.
    pub read_opcode: ReadOpcode,
    /// Opcode used for write operations.
    pub write_opcode: WriteOpcode,
    /// Page size for write operations.
    pub write_page_size: WritePageSize,
    /// Configuration for deep power down. If None, deep power down is disabled.
    pub deep_power_down: Option<DeepPowerDownConfig>,
    /// QSPI bus frequency.
    pub frequency: Frequency,
    /// Value is specified in number of 16 MHz periods (62.5 ns)
    pub sck_delay: u8,
    /// Value is specified in number of 64 MHz periods (15.625 ns), valid values between 0 and 7 (inclusive)
    pub rx_delay: u8,
    /// Whether data is captured on the clock rising edge and data is output on a falling edge (MODE0) or vice-versa (MODE3)
    pub spi_mode: SpiMode,
    /// Addressing mode (24-bit or 32-bit)
    pub address_mode: AddressMode,
    /// Flash memory capacity in bytes. This is the value reported by the `embedded-storage` traits.
    pub capacity: u32,
}

/// Error
#[derive(Debug, Copy, Clone, PartialEq, Eq, Structural)]
#[non_exhaustive]
pub enum Error {
    /// Operation address was out of bounds.
    OutOfBounds,
}

/// The generic kinds of error that a NOR flash reports.
#[derive(Debug, Copy, Clone, PartialEq, Eq, Structural)]
pub enum ErrorKind {
    /// The arguments are not properly aligned.
    NotAligned,
    /// The arguments are out of bounds.
    OutOfBounds,
    /// Error specific to the implementation.
    Other,
}

impl AddressMode {
    /// Encoding of the mode in the `ADDRMODE` field.
    pub open spec fn bits(self) -> u32 {
        match self {
            AddressMode::_24BIT => 0,
            AddressMode::_32BIT => 1,
        }
    }
}

impl WritePageSize {
    /// Encoding of the page size in the `PPSIZE` field.
    pub open spec fn bits(self) -> u32 {
        match self {
            WritePageSize::_256BYTES => 0,
            WritePageSize::_512BYTES => 1,
        }
    }
}

impl ReadOpcode {
    /// Encoding of the opcode in the `READOC` field.
    pub open spec fn bits(self) -> u32 {
        match self {
            ReadOpcode::FASTREAD => 0,
            ReadOpcode::READ2O => 1,
            ReadOpcode::READ2IO => 2,
            ReadOpcode::READ4O => 3,
            ReadOpcode::READ4IO => 4,
            ReadOpcode::_RESERVED_5 => 5,
            ReadOpcode::_RESERVED_6 => 6,
            ReadOpcode::_RESERVED_7 => 7,
        }
    }
}

impl WriteOpcode {
    /// Encoding of the opcode in the `WRITEOC` field.
    pub open spec fn bits(self) -> u32 {
        match self {
            WriteOpcode::PP => 0,
            WriteOpcode::PP2O => 1,
            WriteOpcode::PP4O => 2,
            WriteOpcode::PP4IO => 3,
            WriteOpcode::_RESERVED_4 => 4,
            WriteOpcode::_RESERVED_5 => 5,
            WriteOpcode::_RESERVED_6 => 6,
            WriteOpcode::_RESERVED_7 => 7,
        }
    }
}

impl SpiMode {
    /// Encoding of the mode in the `SPIMODE` field.
    pub open spec fn bits(self) -> u32 {
        match self {
            SpiMode::MODE0 => 0,
            SpiMode::MODE3 => 1,
        }
    }
}

impl Frequency {
    /// Encoding of the frequency in the `SCKFREQ` field: the clock runs at
    /// 32 MHz divided by one more than this.
    pub open spec fn bits(self) -> u8 {
        match self {
            Frequency::M32 => 0,
            Frequency::M16 => 1,
            Frequency::M10_7 => 2,
            Frequency::M8 => 3,
            Frequency::M6_4 => 4,
            Frequency::M5_3 => 5,
            Frequency::M4_6 => 6,
            Frequency::M4 => 7,
            Frequency::M3_6 => 8,
            Frequency::M3_2 => 9,
            Frequency::M2_9 => 10,
            Frequency::M2_7 => 11,
            Frequency::M2_5 => 12,
            Frequency::M2_3 => 13,
            Frequency::M2_1 => 14,
            Frequency::M2 => 15,
        }
    }

    /// The number that stands for this frequency in the `SCKFREQ` field.
    pub fn to_bits(&self) -> (bits: u8)
        ensures
            bits == self.bits(),
            bits <= 15,
    {
        match self {
            Frequency::M32 => 0,
            Frequency::M16 => 1,
            Frequency::M10_7 => 2,
            Frequency::M8 => 3,
            Frequency::M6_4 => 4,
            Frequency::M5_3 => 5,
            Frequency::M4_6 => 6,
            Frequency::M4 => 7,
            Frequency::M3_6 => 8,
            Frequency::M3_2 => 9,
            Frequency::M2_9 => 10,
            Frequency::M2_7 => 11,
            Frequency::M2_5 => 12,
            Frequency::M2_3 => 13,
            Frequency::M2_1 => 14,
            Frequency::M2 => 15,
        }
    }
}

impl Default for Config {
    fn default() -> (config: Self)
        ensures
            config.read_opcode == ReadOpcode::READ4IO,
            config.write_opcode == WriteOpcode::PP4IO,
            config.xip_offset == 0,
            config.write_page_size == WritePageSize::_256BYTES,
            config.deep_power_down is None,
            config.frequency is M8,
            config.sck_delay == 80,
            config.rx_delay == 2,
            config.spi_mode == SpiMode::MODE0,
            config.address_mode == AddressMode::_24BIT,
            config.capacity == 0,
    {
        Self {
            read_opcode: ReadOpcode::READ4IO,
            write_opcode: WriteOpcode::PP4IO,
            xip_offset: 0,
            write_page_size: WritePageSize::_256BYTES,
            deep_power_down: None,
            frequency: Frequency::M8,
            sck_delay: 80,
            rx_delay: 2,
            spi_mode: SpiMode::MODE0,
            address_mode: AddressMode::_24BIT,
            capacity: 0,
        }
    }
}

impl Error {
    /// The generic kind that a NOR flash reports for this error.
    pub fn kind(&self) -> (kind: ErrorKind)
        ensures
            kind == ErrorKind::Other,
    {
        ErrorKind::Other
    }
}

} // verus!
