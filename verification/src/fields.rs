//! Bit fields of the registers, as the `nrf_pac` register types lay them out.
//!
//! Each function here takes the whole value of a register and gives it back
//! with one field replaced. The layout itself is not proved: it is what
//! `nrf_pac` says it is, and each contract repeats the mask and the shift of the
//! setter that the function calls.

use crate::config::{AddressMode, ReadOpcode, SpiMode, WriteOpcode, WritePageSize};
use nrf_pac::gpio;
use nrf_pac::qspi::{regs, vals};
use vstd::prelude::*;

verus! {

/// The register value `bits` with the field of `mask` at `shift` replaced by
/// the low bits of `value`.
pub open spec fn set_field(bits: u32, mask: u32, shift: u32, value: u32) -> u32 {
    (bits & !(mask << shift)) | ((value & mask) << shift)
}

/// A flag as the value of a field of one bit.
pub open spec fn flag(value: bool) -> u32 {
    if value {
        1
    } else {
        0
    }
}

/// Calls `nrf_pac::qspi::regs::Ifconfig0::set_readoc` with the `Readoc` variant of
/// the same name, which replaces bits 0 to 2.
#[verifier::external_body]
pub(crate) fn ifconfig0_set_readoc(bits: u32, opcode: ReadOpcode) -> (r: u32)
    ensures
        r == set_field(bits, 0x07, 0, opcode.bits()),
{
    let mut w = regs::Ifconfig0(bits);
    w.set_readoc(match opcode {
        ReadOpcode::FASTREAD => vals::Readoc::FASTREAD,
        ReadOpcode::READ2O => vals::Readoc::READ2O,
        ReadOpcode::READ2IO => vals::Readoc::READ2IO,
        ReadOpcode::READ4O => vals::Readoc::READ4O,
        ReadOpcode::READ4IO => vals::Readoc::READ4IO,
        ReadOpcode::_RESERVED_5 => vals::Readoc::_RESERVED_5,
        ReadOpcode::_RESERVED_6 => vals::Readoc::_RESERVED_6,
        ReadOpcode::_RESERVED_7 => vals::Readoc::_RESERVED_7,
    });
    w.0
}

/// Calls `nrf_pac::qspi::regs::Ifconfig0::set_writeoc` with the `Writeoc` variant of
/// the same name, which replaces bits 3 to 5.
#[verifier::external_body]
pub(crate) fn ifconfig0_set_writeoc(bits: u32, opcode: WriteOpcode) -> (r: u32)
    ensures
        r == set_field(bits, 0x07, 3, opcode.bits()),
{
    let mut w = regs::Ifconfig0(bits);
    w.set_writeoc(match opcode {
        WriteOpcode::PP => vals::Writeoc::PP,
        WriteOpcode::PP2O => vals::Writeoc::PP2O,
        WriteOpcode::PP4O => vals::Writeoc::PP4O,
        WriteOpcode::PP4IO => vals::Writeoc::PP4IO,
        WriteOpcode::_RESERVED_4 => vals::Writeoc::_RESERVED_4,
        WriteOpcode::_RESERVED_5 => vals::Writeoc::_RESERVED_5,
        WriteOpcode::_RESERVED_6 => vals::Writeoc::_RESERVED_6,
        WriteOpcode::_RESERVED_7 => vals::Writeoc::_RESERVED_7,
    });
    w.0
}

/// Calls `nrf_pac::qspi::regs::Ifconfig0::set_addrmode` with the `Addrmode` variant of
/// the same name, which replaces bit 6.
#[verifier::external_body]
pub(crate) fn ifconfig0_set_addrmode(bits: u32, mode: AddressMode) -> (r: u32)
    ensures
        r == set_field(bits, 0x01, 6, mode.bits()),
{
    let mut w = regs::Ifconfig0(bits);
    w.set_addrmode(match mode {
        AddressMode::_24BIT => vals::Addrmode::_24BIT,
        AddressMode::_32BIT => vals::Addrmode::_32BIT,
    });
    w.0
}

/// Calls `nrf_pac::qspi::regs::Ifconfig0::set_dpmenable`, which replaces bit 7.
#[verifier::external_body]
pub(crate) fn ifconfig0_set_dpmenable(bits: u32, enable: bool) -> (r: u32)
    ensures
        r == set_field(bits, 0x01, 7, flag(enable)),
{
    let mut w = regs::Ifconfig0(bits);
    w.set_dpmenable(enable);
    w.0
}

/// Calls `nrf_pac::qspi::regs::Ifconfig0::set_ppsize` with the `Ppsize` variant of
/// the same name, which replaces bit 12.
#[verifier::external_body]
pub(crate) fn ifconfig0_set_ppsize(bits: u32, size: WritePageSize) -> (r: u32)
    ensures
        r == set_field(bits, 0x01, 12, size.bits()),
{
    let mut w = regs::Ifconfig0(bits);
    w.set_ppsize(match size {
        WritePageSize::_256BYTES => vals::Ppsize::_256BYTES,
        WritePageSize::_512BYTES => vals::Ppsize::_512BYTES,
    });
    w.0
}

/// Calls `nrf_pac::qspi::regs::Ifconfig1::set_sckdelay`, which replaces bits 0 to 7.
#[verifier::external_body]
pub(crate) fn ifconfig1_set_sckdelay(bits: u32, delay: u8) -> (r: u32)
    ensures
        r == set_field(bits, 0xff, 0, delay as u32),
{
    let mut w = regs::Ifconfig1(bits);
    w.set_sckdelay(delay);
    w.0
}

/// Calls `nrf_pac::qspi::regs::Ifconfig1::set_dpmen`, which replaces bit 24.
#[verifier::external_body]
pub(crate) fn ifconfig1_set_dpmen(bits: u32, enter: bool) -> (r: u32)
    ensures
        r == set_field(bits, 0x01, 24, flag(enter)),
{
    let mut w = regs::Ifconfig1(bits);
    w.set_dpmen(enter);
    w.0
}

/// Calls `nrf_pac::qspi::regs::Ifconfig1::set_spimode` with the `Spimode` variant of
/// the same name, which replaces bit 25.
#[verifier::external_body]
pub(crate) fn ifconfig1_set_spimode(bits: u32, mode: SpiMode) -> (r: u32)
    ensures
        r == set_field(bits, 0x01, 25, mode.bits()),
{
    let mut w = regs::Ifconfig1(bits);
    w.set_spimode(match mode {
        SpiMode::MODE0 => vals::Spimode::MODE0,
        SpiMode::MODE3 => vals::Spimode::MODE3,
    });
    w.0
}

/// Calls `nrf_pac::qspi::regs::Ifconfig1::set_sckfreq`, which replaces bits 28 to 31.
#[verifier::external_body]
pub(crate) fn ifconfig1_set_sckfreq(bits: u32, freq: u8) -> (r: u32)
    ensures
        r == set_field(bits, 0x0f, 28, freq as u32),
{
    let mut w = regs::Ifconfig1(bits);
    w.set_sckfreq(freq);
    w.0
}

/// Calls `nrf_pac::qspi::regs::Iftiming::set_rxdelay`, which replaces bits 8 to 10.
#[verifier::external_body]
pub(crate) fn iftiming_set_rxdelay(bits: u32, delay: u8) -> (r: u32)
    ensures
        r == set_field(bits, 0x07, 8, delay as u32),
{
    let mut w = regs::Iftiming(bits);
    w.set_rxdelay(delay);
    w.0
}

/// Calls `nrf_pac::qspi::regs::Dpmdur::set_enter`, which replaces bits 0 to 15.
#[verifier::external_body]
pub(crate) fn dpmdur_set_enter(bits: u32, time: u16) -> (r: u32)
    ensures
        r == set_field(bits, 0xffff, 0, time as u32),
{
    let mut w = regs::Dpmdur(bits);
    w.set_enter(time);
    w.0
}

/// Calls `nrf_pac::qspi::regs::Dpmdur::set_exit`, which replaces bits 16 to 31.
#[verifier::external_body]
pub(crate) fn dpmdur_set_exit(bits: u32, time: u16) -> (r: u32)
    ensures
        r == set_field(bits, 0xffff, 16, time as u32),
{
    let mut w = regs::Dpmdur(bits);
    w.set_exit(time);
    w.0
}

/// Calls `nrf_pac::qspi::regs::Enable::set_enable`, which replaces bit 0.
#[verifier::external_body]
pub(crate) fn enable_set_enable(bits: u32, enable: bool) -> (r: u32)
    ensures
        r == set_field(bits, 0x01, 0, flag(enable)),
{
    let mut w = regs::Enable(bits);
    w.set_enable(enable);
    w.0
}

/// Calls `nrf_pac::qspi::regs::Int::set_ready`, which replaces bit 0.
#[verifier::external_body]
pub(crate) fn int_set_ready(bits: u32, ready: bool) -> (r: u32)
    ensures
        r == set_field(bits, 0x01, 0, flag(ready)),
{
    let mut w = regs::Int(bits);
    w.set_ready(ready);
    w.0
}

/// Calls `nrf_pac::qspi::regs::ReadCnt::set_cnt`, which replaces bits 0 to 17.
#[verifier::external_body]
pub(crate) fn read_cnt_set_cnt(bits: u32, count: u32) -> (r: u32)
    ensures
        r == set_field(bits, 0x0003_ffff, 0, count),
{
    let mut w = regs::ReadCnt(bits);
    w.set_cnt(count);
    w.0
}

/// Calls `nrf_pac::qspi::regs::WriteCnt::set_cnt`, which replaces bits 0 to 17.
#[verifier::external_body]
pub(crate) fn write_cnt_set_cnt(bits: u32, count: u32) -> (r: u32)
    ensures
        r == set_field(bits, 0x0003_ffff, 0, count),
{
    let mut w = regs::WriteCnt(bits);
    w.set_cnt(count);
    w.0
}

/// Calls `nrf_pac::qspi::regs::Len::set_len`, which replaces bits 0 and 1.
/// The variant comes from `nrf_pac::qspi::vals::Len::from_bits`, which keeps the
/// low two bits.
#[verifier::external_body]
pub(crate) fn len_set_len(bits: u32, len: u8) -> (r: u32)
    ensures
        r == set_field(bits, 0x03, 0, len as u32),
{
    let mut w = regs::Len(bits);
    w.set_len(vals::Len::from_bits(len));
    w.0
}

/// Calls `nrf_pac::qspi::regs::Cinstrconf::set_opcode`, which replaces bits 0 to 7.
#[verifier::external_body]
pub(crate) fn cinstrconf_set_opcode(bits: u32, opcode: u8) -> (r: u32)
    ensures
        r == set_field(bits, 0xff, 0, opcode as u32),
{
    let mut w = regs::Cinstrconf(bits);
    w.set_opcode(opcode);
    w.0
}

/// Calls `nrf_pac::qspi::regs::Cinstrconf::set_length`, which replaces bits 8 to 11.
/// The variant comes from `nrf_pac::qspi::vals::Length::from_bits`, which keeps
/// the low four bits.
#[verifier::external_body]
pub(crate) fn cinstrconf_set_length(bits: u32, length: u8) -> (r: u32)
    ensures
        r == set_field(bits, 0x0f, 8, length as u32),
{
    let mut w = regs::Cinstrconf(bits);
    w.set_length(vals::Length::from_bits(length));
    w.0
}

/// Calls `nrf_pac::qspi::regs::Cinstrconf::set_lio2`, which replaces bit 12.
#[verifier::external_body]
pub(crate) fn cinstrconf_set_lio2(bits: u32, value: bool) -> (r: u32)
    ensures
        r == set_field(bits, 0x01, 12, flag(value)),
{
    let mut w = regs::Cinstrconf(bits);
    w.set_lio2(value);
    w.0
}

/// Calls `nrf_pac::qspi::regs::Cinstrconf::set_lio3`, which replaces bit 13.
#[verifier::external_body]
pub(crate) fn cinstrconf_set_lio3(bits: u32, value: bool) -> (r: u32)
    ensures
        r == set_field(bits, 0x01, 13, flag(value)),
{
    let mut w = regs::Cinstrconf(bits);
    w.set_lio3(value);
    w.0
}

/// Calls `nrf_pac::qspi::regs::Cinstrconf::set_wipwait`, which replaces bit 14.
#[verifier::external_body]
pub(crate) fn cinstrconf_set_wipwait(bits: u32, value: bool) -> (r: u32)
    ensures
        r == set_field(bits, 0x01, 14, flag(value)),
{
    let mut w = regs::Cinstrconf(bits);
    w.set_wipwait(value);
    w.0
}

/// Calls `nrf_pac::qspi::regs::Cinstrconf::set_wren`, which replaces bit 15.
#[verifier::external_body]
pub(crate) fn cinstrconf_set_wren(bits: u32, value: bool) -> (r: u32)
    ensures
        r == set_field(bits, 0x01, 15, flag(value)),
{
    let mut w = regs::Cinstrconf(bits);
    w.set_wren(value);
    w.0
}

/// Calls `nrf_pac::qspi::regs::Cinstrconf::set_lfen`, which replaces bit 16.
#[verifier::external_body]
pub(crate) fn cinstrconf_set_lfen(bits: u32, value: bool) -> (r: u32)
    ensures
        r == set_field(bits, 0x01, 16, flag(value)),
{
    let mut w = regs::Cinstrconf(bits);
    w.set_lfen(value);
    w.0
}

/// Calls `nrf_pac::qspi::regs::Cinstrconf::set_lfstop`, which replaces bit 17.
#[verifier::external_body]
pub(crate) fn cinstrconf_set_lfstop(bits: u32, value: bool) -> (r: u32)
    ensures
        r == set_field(bits, 0x01, 17, flag(value)),
{
    let mut w = regs::Cinstrconf(bits);
    w.set_lfstop(value);
    w.0
}

/// Calls `nrf_pac::gpio::regs::PinCnf::set_dir`, which replaces bit 0.
/// The variant comes from `nrf_pac::gpio::vals::Dir::from_bits`, which keeps the
/// lowest bit.
#[verifier::external_body]
pub(crate) fn pin_cnf_set_dir(bits: u32, dir: u8) -> (r: u32)
    ensures
        r == set_field(bits, 0x01, 0, dir as u32),
{
    let mut w = gpio::regs::PinCnf(bits);
    w.set_dir(gpio::vals::Dir::from_bits(dir));
    w.0
}

/// Calls `nrf_pac::gpio::regs::PinCnf::set_drive`, which replaces bits 8 to 10.
/// The variant comes from `nrf_pac::gpio::vals::Drive::from_bits`, which keeps
/// the low three bits.
#[verifier::external_body]
pub(crate) fn pin_cnf_set_drive(bits: u32, drive: u8) -> (r: u32)
    ensures
        r == set_field(bits, 0x07, 8, drive as u32),
{
    let mut w = gpio::regs::PinCnf(bits);
    w.set_drive(gpio::vals::Drive::from_bits(drive));
    w.0
}

/// Calls `nrf_pac::qspi::regs::Status::dpm`, which tells whether bit 2 is set.
#[verifier::external_body]
pub(crate) fn status_dpm(bits: u32) -> (r: bool)
    ensures
        r == ((bits >> 2) & 0x01 != 0),
{
    regs::Status(bits).dpm()
}

} // verus!
