//! Laws of the configuration registers.

use crate::action::{Action, Register};
use crate::config::{
    AddressMode, Config, DeepPowerDownConfig, Frequency, ReadOpcode, SpiMode, WriteOpcode,
    WritePageSize,
};
use crate::driver::interface_script;
use crate::shutdown::ShutdownState;
use crate::values::{
    dpm_active, dpm_entered, dpmdur_value, ifconfig0_value, ifconfig1_value, iftiming_value,
};
use vstd::prelude::*;

verus! {

/// Whether `bits` is what `IFCONFIG0` is to hold for a configuration: each setting in
/// a field of its own, and nothing elsewhere.
pub open spec fn configures_interface(bits: u32, config: Config) -> bool {
    let n = bits as int;
    &&& n % 8 == 0 <==> config.read_opcode == ReadOpcode::FASTREAD
    &&& n % 8 == 1 <==> config.read_opcode == ReadOpcode::READ2O
    &&& n % 8 == 2 <==> config.read_opcode == ReadOpcode::READ2IO
    &&& n % 8 == 3 <==> config.read_opcode == ReadOpcode::READ4O
    &&& n % 8 == 4 <==> config.read_opcode == ReadOpcode::READ4IO
    &&& n % 8 == 5 <==> config.read_opcode == ReadOpcode::_RESERVED_5
    &&& n % 8 == 6 <==> config.read_opcode == ReadOpcode::_RESERVED_6
    &&& n % 8 == 7 <==> config.read_opcode == ReadOpcode::_RESERVED_7
    &&& n / 8 % 8 == 0 <==> config.write_opcode == WriteOpcode::PP
    &&& n / 8 % 8 == 1 <==> config.write_opcode == WriteOpcode::PP2O
    &&& n / 8 % 8 == 2 <==> config.write_opcode == WriteOpcode::PP4O
    &&& n / 8 % 8 == 3 <==> config.write_opcode == WriteOpcode::PP4IO
    &&& n / 8 % 8 == 4 <==> config.write_opcode == WriteOpcode::_RESERVED_4
    &&& n / 8 % 8 == 5 <==> config.write_opcode == WriteOpcode::_RESERVED_5
    &&& n / 8 % 8 == 6 <==> config.write_opcode == WriteOpcode::_RESERVED_6
    &&& n / 8 % 8 == 7 <==> config.write_opcode == WriteOpcode::_RESERVED_7
    &&& n / 0x40 % 2 == 1 <==> config.address_mode == AddressMode::_32BIT
    &&& n / 0x80 % 2 == 1 <==> config.deep_power_down is Some
    &&& n / 0x100 % 0x10 == 0
    &&& n / 0x1000 % 2 == 1 <==> config.write_page_size == WritePageSize::_512BYTES
    &&& n / 0x2000 == 0
}

/// The frequency that a variant is named for, in units of 100 kHz.
pub open spec fn nominal(frequency: Frequency) -> int {
    match frequency {
        Frequency::M32 => 320,
        Frequency::M16 => 160,
        Frequency::M10_7 => 107,
        Frequency::M8 => 80,
        Frequency::M6_4 => 64,
        Frequency::M5_3 => 53,
        Frequency::M4_6 => 46,
        Frequency::M4 => 40,
        Frequency::M3_6 => 36,
        Frequency::M3_2 => 32,
        Frequency::M2_9 => 29,
        Frequency::M2_7 => 27,
        Frequency::M2_5 => 25,
        Frequency::M2_3 => 23,
        Frequency::M2_1 => 21,
        Frequency::M2 => 20,
    }
}

/// Whether 32 MHz divided by `divisor`, rounded to the nearest 100 kHz, is what
/// `frequency` is named for.
pub open spec fn divides_to(divisor: int, frequency: Frequency) -> bool {
    &&& 1 <= divisor <= 16
    &&& -divisor <= 2 * (nominal(frequency) * divisor - 320) <= divisor
}

/// Whether `bits` is what `IFCONFIG1` is to hold for a configuration: the clock
/// delay, the clock mode, a divisor that gives the frequency, no deep power-down, and
/// nothing elsewhere.
pub open spec fn configures_clock(bits: u32, config: Config) -> bool {
    let n = bits as int;
    &&& n % 0x100 == config.sck_delay
    &&& n / 0x100 % 0x1_0000 == 0
    &&& n / 0x100_0000 % 2 == 0
    &&& n / 0x200_0000 % 2 == 1 <==> config.spi_mode == SpiMode::MODE3
    &&& n / 0x400_0000 % 4 == 0
    &&& divides_to(n / 0x1000_0000 + 1, config.frequency)
}

/// Whether `bits` is what `IFTIMING` is to hold for a configuration: the low three
/// bits of the receive delay from bit 8 on, and nothing elsewhere.
pub open spec fn configures_timing(bits: u32, config: Config) -> bool {
    bits == ((config.rx_delay & 7) as u32) << 8
}

/// Whether `bits` is what `DPMDUR` is to hold for a configuration.
pub open spec fn configures_durations(bits: u32, dpd: DeepPowerDownConfig) -> bool {
    &&& bits as int % 0x1_0000 == dpd.enter_time
    &&& bits as int / 0x1_0000 == dpd.exit_time
}

/// Each field of `IFCONFIG0` holds its own setting.
pub proof fn law_interface_fields(config: Config)
    ensures
        configures_interface(ifconfig0_value(config) as u32, config),
{
    let (a, p, ro, wo) = (
        config.address_mode.bits() as int,
        config.write_page_size.bits() as int,
        config.read_opcode.bits() as int,
        config.write_opcode.bits() as int,
    );
    let d = if config.deep_power_down is Some {
        1int
    } else {
        0
    };
    lemma_interface_fields(a, d, p, ro, wo);
}

proof fn lemma_interface_fields(a: int, d: int, p: int, ro: int, wo: int)
    requires
        0 <= a <= 1,
        0 <= d <= 1,
        0 <= p <= 1,
        0 <= ro <= 7,
        0 <= wo <= 7,
    ensures
        ({
            let n = ro + 0x8 * wo + 0x40 * a + 0x80 * d + 0x1000 * p;
            &&& n % 8 == ro
            &&& n / 8 % 8 == wo
            &&& n / 0x40 % 2 == a
            &&& n / 0x80 % 2 == d
            &&& n / 0x100 % 0x10 == 0
            &&& n / 0x1000 % 2 == p
            &&& n / 0x2000 == 0
        }),
{
}

/// Each field of `IFCONFIG1` holds its own setting.
pub proof fn law_clock_fields(config: Config)
    ensures
        configures_clock(ifconfig1_value(config) as u32, config),
{
    assert(divides_to(config.frequency.bits() + 1, config.frequency)) by {
        match config.frequency {
            Frequency::M32 => {},
            Frequency::M16 => {},
            Frequency::M10_7 => {},
            Frequency::M8 => {},
            Frequency::M6_4 => {},
            Frequency::M5_3 => {},
            Frequency::M4_6 => {},
            Frequency::M4 => {},
            Frequency::M3_6 => {},
            Frequency::M3_2 => {},
            Frequency::M2_9 => {},
            Frequency::M2_7 => {},
            Frequency::M2_5 => {},
            Frequency::M2_3 => {},
            Frequency::M2_1 => {},
            Frequency::M2 => {},
        }
    }
    lemma_clock_fields(
        config.sck_delay as int,
        config.spi_mode.bits() as int,
        config.frequency.bits() as int,
    );
}

proof fn lemma_clock_fields(d: int, m: int, f: int)
    requires
        0 <= d <= 0xff,
        0 <= m <= 1,
        0 <= f <= 15,
    ensures
        ({
            let n = d + 0x200_0000 * m + 0x1000_0000 * f;
            &&& n % 0x100 == d
            &&& n / 0x100 % 0x1_0000 == 0
            &&& n / 0x100_0000 % 2 == 0
            &&& n / 0x200_0000 % 2 == m
            &&& n / 0x400_0000 % 4 == 0
            &&& n / 0x1000_0000 == f
        }),
{
}

/// `IFTIMING` holds the receive delay.
pub proof fn law_timing_field(config: Config)
    ensures
        configures_timing(iftiming_value(config) as u32, config),
{
    let delay = config.rx_delay;
    assert(((delay & 7) as u32) << 8 == 0x100 * (delay % 8)) by (bit_vector);
}

/// `DPMDUR` holds the two durations.
pub proof fn law_duration_fields(dpd: DeepPowerDownConfig)
    ensures
        configures_durations(dpmdur_value(dpd) as u32, dpd),
{
}

/// Every configuration value fits its register.
pub proof fn law_settings_fit(config: Config, dpd: DeepPowerDownConfig)
    ensures
        0 <= ifconfig0_value(config) <= u32::MAX,
        0 <= ifconfig1_value(config) <= u32::MAX,
        0 <= iftiming_value(config) <= u32::MAX,
        0 <= dpmdur_value(dpd) <= u32::MAX,
{
}

/// No setting is lost or mixed with another: the registers determine the
/// configuration, but for the bits of the receive delay above the lowest three.
pub proof fn law_settings_distinct(c1: Config, c2: Config)
    requires
        ifconfig0_value(c1) == ifconfig0_value(c2),
        ifconfig1_value(c1) == ifconfig1_value(c2),
        iftiming_value(c1) == iftiming_value(c2),
    ensures
        c1.read_opcode == c2.read_opcode,
        c1.write_opcode == c2.write_opcode,
        c1.address_mode == c2.address_mode,
        c1.deep_power_down is Some == c2.deep_power_down is Some,
        c1.write_page_size == c2.write_page_size,
        c1.sck_delay == c2.sck_delay,
        c1.spi_mode == c2.spi_mode,
        c1.frequency == c2.frequency,
        c1.rx_delay % 8 == c2.rx_delay % 8,
{
}

/// The durations of deep power-down mode are kept apart too.
pub proof fn law_durations_distinct(d1: DeepPowerDownConfig, d2: DeepPowerDownConfig)
    requires
        dpmdur_value(d1) == dpmdur_value(d2),
    ensures
        d1 == d2,
{
}

/// Bringing the peripheral up does not send the flash into deep power-down mode;
/// entering that mode later changes the one bit and keeps every setting.
pub proof fn law_deep_power_down_bit(config: Config, bits: u32)
    ensures
        ifconfig1_value(config) / 0x100_0000 % 2 == 0,
        dpm_entered(ifconfig1_value(config) as u32) == ifconfig1_value(config) + 0x100_0000,
        0 <= dpm_entered(bits) <= u32::MAX,
        dpm_entered(bits) / 0x100_0000 % 2 == 1,
        dpm_entered(bits) % 0x100_0000 == bits as int % 0x100_0000,
        dpm_entered(bits) / 0x200_0000 == bits as int / 0x200_0000,
{
}

/// Entering deep power-down mode sets bit 24 of `IFCONFIG1` and no other.
pub proof fn law_entering_sets_one_bit(bits: u32)
    ensures
        dpm_entered(bits) == bits | 0x0100_0000u32,
{
    assert(bits | 0x0100_0000u32 == if bits / 0x100_0000 % 2 == 1 {
        bits as int
    } else {
        bits + 0x100_0000
    }) by (bit_vector);
}

/// Deep power-down mode is reported by bit 2 of `STATUS`, whatever the other bits hold.
pub proof fn law_status_bit(status: u32)
    ensures
        dpm_active(status) <==> status & 4 != 0,
{
    assert((status & 4 != 0) == (status / 4 % 2 == 1)) by (bit_vector);
}

/// Deep power-down mode is supported, has its durations set, and is entered at
/// shutdown where the configuration asks for it, and only there.
pub proof fn law_deep_power_down_on_request(config: Config)
    ensures
        ifconfig0_value(config) / 0x80 % 2 == 1 <==> config.deep_power_down is Some,
        (exists|i: int|
            0 <= i < interface_script(config).len() && #[trigger] interface_script(
                config,
            )[i] matches Action::Write(Register::Dpmdur, _)) <==> config.deep_power_down is Some,
        ShutdownState::start(config.deep_power_down is Some).action() == Action::Read(
            Register::Ifconfig1,
        ) <==> config.deep_power_down is Some,
{
    if config.deep_power_down is Some {
        assert(interface_script(config)[1] matches Action::Write(Register::Dpmdur, _));
    }
}

} // verus!
