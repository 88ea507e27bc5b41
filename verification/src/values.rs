//! Values that the driver writes to registers.

use crate::config::{Config, DeepPowerDownConfig};
use crate::fields;
use vstd::prelude::*;

verus! {

/// Pin direction `OUTPUT`.
pub const DIR_OUTPUT: u8 = 1;

/// Drive configuration `H0H1`: high drive at both levels.
pub const DRIVE_H0H1: u8 = 3;

/// Erase length `4KB`.
pub const LEN_4KB: u8 = 0;

/// `IFCONFIG0`: read opcode from bit 0, write opcode from bit 3, addressing
/// mode at bit 6, deep power-down support at bit 7, page size at bit 12.
pub open spec fn ifconfig0_value(config: Config) -> int {
    config.read_opcode.bits() + 0x8 * config.write_opcode.bits() + 0x40
        * config.address_mode.bits() + (if config.deep_power_down is Some {
        0x80int
    } else {
        0
    }) + 0x1000 * config.write_page_size.bits()
}

/// `IFCONFIG1` at start: clock delay from bit 0, clock mode at bit 25, clock
/// frequency from bit 28; bit 24, which enters deep power-down, stays clear.
pub open spec fn ifconfig1_value(config: Config) -> int {
    config.sck_delay + 0x200_0000 * config.spi_mode.bits() + 0x1000_0000
        * config.frequency.bits()
}

/// `IFTIMING`: the low three bits of the receive delay, from bit 8.
pub open spec fn iftiming_value(config: Config) -> int {
    0x100 * (config.rx_delay as int % 8)
}

/// `DPMDUR`: enter time from bit 0, exit time from bit 16.
pub open spec fn dpmdur_value(dpd: DeepPowerDownConfig) -> int {
    dpd.enter_time + 0x1_0000 * dpd.exit_time
}

/// `CINSTRCONF`: opcode from bit 0, length from bit 8, data lines 2 and 3 high
/// (bits 12 and 13), wait for a write in progress (bit 14), and write enable
/// before the instruction (bit 15). Long frame mode (bits 16 and 17) is off.
pub open spec fn cinstrconf_value(opcode: u8, length: int) -> int {
    opcode + 0x100 * (length % 16) + 0xf000
}

/// Byte count of a transfer: a field of 18 bits.
pub open spec fn cnt_value(len: int) -> int {
    len % 0x4_0000
}

/// Pin configuration of every signal: an output (bit 0) that drives both levels
/// high (3 from bit 8).
pub open spec fn pin_cnf_value() -> int {
    0x301
}

/// `IFCONFIG1` with bit 24 set, which makes the flash enter deep power-down, and
/// every other bit as it was.
pub open spec fn dpm_entered(bits: u32) -> int {
    if bits as int / 0x100_0000 % 2 == 1 {
        bits as int
    } else {
        bits + 0x100_0000
    }
}

/// Whether bit 2 of `STATUS` says that the flash is in deep power-down mode.
pub open spec fn dpm_active(status: u32) -> bool {
    status as int / 4 % 2 == 1
}

/// Computes `IFCONFIG0` for a configuration.
pub(crate) fn ifconfig0(config: &Config) -> (r: u32)
    ensures
        r == ifconfig0_value(*config),
{
    let dpm = config.deep_power_down.is_some();
    let r: u32 = fields::ifconfig0_set_addrmode(0, config.address_mode);
    let r: u32 = fields::ifconfig0_set_dpmenable(r, dpm);
    let r: u32 = fields::ifconfig0_set_ppsize(r, config.write_page_size);
    let r: u32 = fields::ifconfig0_set_readoc(r, config.read_opcode);
    let r: u32 = fields::ifconfig0_set_writeoc(r, config.write_opcode);
    proof {
        let (a, d, p, ro, wo) = (
            config.address_mode.bits(),
            fields::flag(dpm),
            config.write_page_size.bits(),
            config.read_opcode.bits(),
            config.write_opcode.bits(),
        );
        assert({
            let r1 = fields::set_field(0, 0x01, 6, a);
            let r2 = fields::set_field(r1, 0x01, 7, d);
            let r3 = fields::set_field(r2, 0x01, 12, p);
            let r4 = fields::set_field(r3, 0x07, 0, ro);
            let r5 = fields::set_field(r4, 0x07, 3, wo);
            r5 == ro + 0x8 * wo + 0x40 * a + 0x80 * d + 0x1000 * p
        }) by (bit_vector)
            requires
                a <= 1,
                d <= 1,
                p <= 1,
                ro <= 7,
                wo <= 7,
        ;
    }
    r
}

/// Computes `IFCONFIG1` for a configuration.
pub(crate) fn ifconfig1(config: &Config) -> (r: u32)
    ensures
        r == ifconfig1_value(*config),
{
    let freq: u8 = config.frequency.to_bits();
    let r: u32 = fields::ifconfig1_set_sckdelay(0, config.sck_delay);
    let r: u32 = fields::ifconfig1_set_dpmen(r, false);
    let r: u32 = fields::ifconfig1_set_spimode(r, config.spi_mode);
    let r: u32 = fields::ifconfig1_set_sckfreq(r, freq);
    proof {
        let (d, m, f) = (config.sck_delay as u32, config.spi_mode.bits(), freq as u32);
        assert({
            let r1 = fields::set_field(0, 0xff, 0, d);
            let r2 = fields::set_field(r1, 0x01, 24, 0);
            let r3 = fields::set_field(r2, 0x01, 25, m);
            let r4 = fields::set_field(r3, 0x0f, 28, f);
            r4 == d + 0x200_0000 * m + 0x1000_0000 * f
        }) by (bit_vector)
            requires
                d <= 0xff,
                m <= 1,
                f <= 15,
        ;
    }
    r
}

/// Computes `IFTIMING` for a configuration.
pub(crate) fn iftiming(config: &Config) -> (r: u32)
    ensures
        r == iftiming_value(*config),
{
    let delay: u8 = config.rx_delay;
    let r: u32 = fields::iftiming_set_rxdelay(0, delay & 0b111);
    assert(fields::set_field(0, 0x07, 8, (delay & 0b111) as u32) == 0x100 * (delay % 8))
        by (bit_vector);
    r
}

/// Computes `DPMDUR` for a deep power-down configuration.
pub(crate) fn dpmdur(dpd: &DeepPowerDownConfig) -> (r: u32)
    ensures
        r == dpmdur_value(*dpd),
{
    let r: u32 = fields::dpmdur_set_enter(0, dpd.enter_time);
    let r: u32 = fields::dpmdur_set_exit(r, dpd.exit_time);
    proof {
        let (enter, exit) = (dpd.enter_time as u32, dpd.exit_time as u32);
        assert({
            let r1 = fields::set_field(0, 0xffff, 0, enter);
            let r2 = fields::set_field(r1, 0xffff, 16, exit);
            r2 == enter + 0x1_0000 * exit
        }) by (bit_vector)
            requires
                enter <= 0xffff,
                exit <= 0xffff,
        ;
    }
    r
}

/// Computes `CINSTRCONF` for an instruction of `length` bytes, opcode included.
pub(crate) fn cinstrconf(opcode: u8, length: u8) -> (r: u32)
    ensures
        r == cinstrconf_value(opcode, length as int),
{
    let r: u32 = fields::cinstrconf_set_opcode(0, opcode);
    let r: u32 = fields::cinstrconf_set_length(r, length);
    let r: u32 = fields::cinstrconf_set_lio2(r, true);
    let r: u32 = fields::cinstrconf_set_lio3(r, true);
    let r: u32 = fields::cinstrconf_set_wipwait(r, true);
    let r: u32 = fields::cinstrconf_set_wren(r, true);
    let r: u32 = fields::cinstrconf_set_lfen(r, false);
    let r: u32 = fields::cinstrconf_set_lfstop(r, false);
    proof {
        let (o, l) = (opcode as u32, length as u32);
        assert({
            let r1 = fields::set_field(0, 0xff, 0, o);
            let r2 = fields::set_field(r1, 0x0f, 8, l);
            let r3 = fields::set_field(r2, 0x01, 12, 1);
            let r4 = fields::set_field(r3, 0x01, 13, 1);
            let r5 = fields::set_field(r4, 0x01, 14, 1);
            let r6 = fields::set_field(r5, 0x01, 15, 1);
            let r7 = fields::set_field(r6, 0x01, 16, 0);
            let r8 = fields::set_field(r7, 0x01, 17, 0);
            r8 == o + 0x100 * (l % 16) + 0xf000
        }) by (bit_vector)
            requires
                o <= 0xff,
                l <= 0xff,
        ;
    }
    r
}

/// Computes `READ.CNT` for a transfer of `len` bytes.
pub(crate) fn read_cnt(len: u32) -> (r: u32)
    ensures
        r == cnt_value(len as int),
{
    assert(fields::set_field(0, 0x0003_ffff, 0, len) == len % 0x4_0000) by (bit_vector);
    fields::read_cnt_set_cnt(0, len)
}

/// Computes `WRITE.CNT` for a transfer of `len` bytes.
pub(crate) fn write_cnt(len: u32) -> (r: u32)
    ensures
        r == cnt_value(len as int),
{
    assert(fields::set_field(0, 0x0003_ffff, 0, len) == len % 0x4_0000) by (bit_vector);
    fields::write_cnt_set_cnt(0, len)
}

/// Computes `ERASE.LEN` for one block of 4096 bytes.
pub(crate) fn erase_len_4kb() -> (r: u32)
    ensures
        r == 0,
{
    assert(fields::set_field(0, 0x03, 0, LEN_4KB as u32) == 0) by (bit_vector);
    fields::len_set_len(0, LEN_4KB)
}

/// Computes `ENABLE`.
pub(crate) fn enable(on: bool) -> (r: u32)
    ensures
        r == (if on { 1int } else { 0 }),
{
    assert(fields::set_field(0, 0x01, 0, 0) == 0 && fields::set_field(0, 0x01, 0, 1) == 1)
        by (bit_vector);
    fields::enable_set_enable(0, on)
}

/// Computes the mask of the READY interrupt in `INTENSET` and `INTENCLR`.
pub(crate) fn int_ready() -> (r: u32)
    ensures
        r == 1,
{
    assert(fields::set_field(0, 0x01, 0, 1) == 1) by (bit_vector);
    fields::int_set_ready(0, true)
}

/// Computes the configuration register of a signal's pin.
pub(crate) fn pin_cnf() -> (r: u32)
    ensures
        r == pin_cnf_value(),
{
    let r: u32 = fields::pin_cnf_set_dir(0, DIR_OUTPUT);
    let r: u32 = fields::pin_cnf_set_drive(r, DRIVE_H0H1);
    assert(fields::set_field(
        fields::set_field(0, 0x01, 0, DIR_OUTPUT as u32),
        0x07,
        8,
        DRIVE_H0H1 as u32,
    ) == 0x301) by (bit_vector);
    r
}

/// Computes `IFCONFIG1` for entering deep power-down, from its current value.
pub(crate) fn enter_dpm(bits: u32) -> (r: u32)
    ensures
        r == dpm_entered(bits),
{
    assert(fields::set_field(bits, 0x01, 24, 1) == if bits / 0x100_0000 % 2 == 1 {
        bits as int
    } else {
        bits + 0x100_0000
    }) by (bit_vector);
    fields::ifconfig1_set_dpmen(bits, true)
}

/// Tells from `STATUS` whether the flash is in deep power-down mode.
pub(crate) fn in_dpm(status: u32) -> (r: bool)
    ensures
        r == dpm_active(status),
{
    assert(((status >> 2) & 0x01 != 0) == (status / 4 % 2 == 1)) by (bit_vector);
    fields::status_dpm(status)
}

} // verus!
