//! Bringing the peripheral up.

use nrf_pac::gpio::regs::PinCnf;
use nrf_pac::gpio::vals::{Dir, Drive};
use nrf_pac::qspi::regs::{Dpmdur, Ifconfig0, Ifconfig1, Iftiming};
use nrf_pac::qspi::vals;
use qspi::{
    Action, AddressMode, Config, DeepPowerDownConfig, Error, ErrorKind, Frequency, Operation,
    PinSelect, Qspi, ReadOpcode, Register, Signal, SpiMode, WriteOpcode, WritePageSize,
};

const PINS: PinSelect = PinSelect {
    sck: 19,
    csn: 17,
    io0: 20,
    io1: 21,
    io2: 22,
    io3: 23,
};

/// Performs the operation until it polls for the first time.
fn writes_of(mut op: Operation) -> Vec<Action> {
    let mut actions = Vec::new();
    while op.action() != Action::Read(Register::EventsReady) {
        actions.push(op.action());
        op.advance(0);
    }
    actions
}

/// The value that bringing up with `config` writes to `register`.
fn written(config: Config, register: Register) -> Option<u32> {
    let (_, op) = Qspi::new(PINS, config);
    let mut found = None;
    for action in writes_of(op) {
        if let Action::Write(r, value) = action {
            if r == register {
                found = Some(value);
            }
        }
    }
    found
}

fn ifconfig0(config: Config) -> Ifconfig0 {
    Ifconfig0(written(config, Register::Ifconfig0).unwrap())
}

fn ifconfig1(config: Config) -> Ifconfig1 {
    Ifconfig1(written(config, Register::Ifconfig1).unwrap())
}

#[test]
fn default_config() {
    let config = Config::default();
    assert_eq!(config.read_opcode, ReadOpcode::READ4IO);
    assert_eq!(config.write_opcode, WriteOpcode::PP4IO);
    assert_eq!(config.xip_offset, 0);
    assert_eq!(config.write_page_size, WritePageSize::_256BYTES);
    assert!(config.deep_power_down.is_none());
    assert!(matches!(config.frequency, Frequency::M8));
    assert_eq!(config.sck_delay, 80);
    assert_eq!(config.rx_delay, 2);
    assert_eq!(config.spi_mode, SpiMode::MODE0);
    assert_eq!(config.address_mode, AddressMode::_24BIT);
    assert_eq!(config.capacity, 0);
}

#[test]
fn setup_actions_in_order() {
    let mut config = Config::default();
    config.deep_power_down = Some(DeepPowerDownConfig {
        enter_time: 3,
        exit_time: 5,
    });
    config.xip_offset = 0x1234;
    let (_, op) = Qspi::new(PINS, config);
    let mut expected = Vec::new();
    for (signal, psel) in [
        (Signal::Sck, 19),
        (Signal::Csn, 17),
        (Signal::Io0, 20),
        (Signal::Io1, 21),
        (Signal::Io2, 22),
        (Signal::Io3, 23),
    ] {
        expected.push(Action::SetHigh(signal));
        expected.push(Action::ConfigurePin(signal, 0x301));
        expected.push(Action::Write(Register::Psel(signal), psel));
    }
    expected.push(Action::Write(Register::Ifconfig0, 0x9c));
    expected.push(Action::Write(Register::Dpmdur, 0x0005_0003));
    expected.push(Action::Write(Register::Ifconfig1, 0x3000_0050));
    expected.push(Action::Write(Register::Iftiming, 0x200));
    expected.push(Action::Write(Register::Xipoffset, 0x1234));
    expected.push(Action::UnpendInterrupt);
    expected.push(Action::EnableInterrupt);
    expected.push(Action::Write(Register::Enable, 1));
    expected.push(Action::Write(Register::EventsReady, 0));
    expected.push(Action::Write(Register::Intenset, 1));
    expected.push(Action::Write(Register::TasksActivate, 1));
    assert_eq!(writes_of(op), expected);
}

#[test]
fn setup_spins_until_ready() {
    let (_, mut op) = Qspi::new(PINS, Config::default());
    while op.action() != Action::Read(Register::EventsReady) {
        op.advance(0);
    }
    for _ in 0..5 {
        op.advance(0);
        assert_eq!(op.action(), Action::Read(Register::EventsReady));
    }
    assert!(!op.is_done());
    op.advance(1);
    assert!(op.is_done());
    assert_eq!(op.action(), Action::Return(Ok(())));
}

#[test]
fn no_durations_without_deep_power_down() {
    assert_eq!(written(Config::default(), Register::Dpmdur), None);
    assert!(!ifconfig0(Config::default()).dpmenable());
}

#[test]
fn pin_configuration_fields() {
    let (_, op) = Qspi::new(PINS, Config::default());
    let mut seen = 0;
    for action in writes_of(op) {
        if let Action::ConfigurePin(_, bits) = action {
            assert_eq!(PinCnf(bits).dir(), Dir::OUTPUT);
            assert_eq!(PinCnf(bits).drive(), Drive::H0H1);
            seen += 1;
        }
    }
    assert_eq!(seen, 6);
}

#[test]
fn read_opcodes() {
    for (opcode, expected) in [
        (ReadOpcode::FASTREAD, vals::Readoc::FASTREAD),
        (ReadOpcode::READ2O, vals::Readoc::READ2O),
        (ReadOpcode::READ2IO, vals::Readoc::READ2IO),
        (ReadOpcode::READ4O, vals::Readoc::READ4O),
        (ReadOpcode::READ4IO, vals::Readoc::READ4IO),
        (ReadOpcode::_RESERVED_5, vals::Readoc::_RESERVED_5),
        (ReadOpcode::_RESERVED_6, vals::Readoc::_RESERVED_6),
        (ReadOpcode::_RESERVED_7, vals::Readoc::_RESERVED_7),
    ] {
        let mut config = Config::default();
        config.read_opcode = opcode;
        let bits = ifconfig0(config);
        assert_eq!(bits.readoc(), expected);
        assert_eq!(bits.writeoc(), vals::Writeoc::PP4IO);
    }
}

#[test]
fn write_opcodes() {
    for (opcode, expected) in [
        (WriteOpcode::PP, vals::Writeoc::PP),
        (WriteOpcode::PP2O, vals::Writeoc::PP2O),
        (WriteOpcode::PP4O, vals::Writeoc::PP4O),
        (WriteOpcode::PP4IO, vals::Writeoc::PP4IO),
        (WriteOpcode::_RESERVED_4, vals::Writeoc::_RESERVED_4),
        (WriteOpcode::_RESERVED_5, vals::Writeoc::_RESERVED_5),
        (WriteOpcode::_RESERVED_6, vals::Writeoc::_RESERVED_6),
        (WriteOpcode::_RESERVED_7, vals::Writeoc::_RESERVED_7),
    ] {
        let mut config = Config::default();
        config.write_opcode = opcode;
        let bits = ifconfig0(config);
        assert_eq!(bits.writeoc(), expected);
        assert_eq!(bits.readoc(), vals::Readoc::READ4IO);
    }
}

#[test]
fn address_mode_and_page_size() {
    let mut config = Config::default();
    config.address_mode = AddressMode::_32BIT;
    config.write_page_size = WritePageSize::_512BYTES;
    let bits = ifconfig0(config);
    assert_eq!(bits.0, 0x105c);
    assert_eq!(bits.addrmode(), vals::Addrmode::_32BIT);
    assert_eq!(bits.ppsize(), vals::Ppsize::_512BYTES);
    let bits = ifconfig0(Config::default());
    assert_eq!(bits.0, 0x1c);
    assert_eq!(bits.addrmode(), vals::Addrmode::_24BIT);
    assert_eq!(bits.ppsize(), vals::Ppsize::_256BYTES);
}

#[test]
fn deep_power_down_settings() {
    let mut config = Config::default();
    config.deep_power_down = Some(DeepPowerDownConfig {
        enter_time: 0xffff,
        exit_time: 1,
    });
    let bits = Dpmdur(written(config, Register::Dpmdur).unwrap());
    assert_eq!(bits.enter(), 0xffff);
    assert_eq!(bits.exit(), 1);
    let mut config = Config::default();
    config.deep_power_down = Some(DeepPowerDownConfig {
        enter_time: 0,
        exit_time: 0,
    });
    assert!(ifconfig0(config).dpmenable());
    let mut config = Config::default();
    config.deep_power_down = Some(DeepPowerDownConfig {
        enter_time: 0,
        exit_time: 0,
    });
    let (mut driver, _) = Qspi::new(PINS, config);
    assert_eq!(
        driver.shutdown().action(),
        Action::Read(Register::Ifconfig1)
    );
}

#[test]
fn frequencies() {
    let all = [
        Frequency::M32,
        Frequency::M16,
        Frequency::M10_7,
        Frequency::M8,
        Frequency::M6_4,
        Frequency::M5_3,
        Frequency::M4_6,
        Frequency::M4,
        Frequency::M3_6,
        Frequency::M3_2,
        Frequency::M2_9,
        Frequency::M2_7,
        Frequency::M2_5,
        Frequency::M2_3,
        Frequency::M2_1,
        Frequency::M2,
    ];
    for (i, frequency) in all.into_iter().enumerate() {
        assert_eq!(frequency.to_bits(), i as u8);
        let mut config = Config::default();
        config.frequency = frequency;
        assert_eq!(ifconfig1(config).sckfreq(), i as u8);
    }
}

#[test]
fn timing_settings() {
    let mut config = Config::default();
    config.sck_delay = 0xab;
    config.spi_mode = SpiMode::MODE3;
    config.frequency = Frequency::M2;
    let bits = ifconfig1(config);
    assert_eq!(bits.0, 0xf200_00ab);
    assert_eq!(bits.sckdelay(), 0xab);
    assert_eq!(bits.spimode(), vals::Spimode::MODE3);
    assert!(!bits.dpmen());
    for delay in 0..=255u8 {
        let mut config = Config::default();
        config.rx_delay = delay;
        let bits = Iftiming(written(config, Register::Iftiming).unwrap());
        assert_eq!(bits.rxdelay(), delay % 8);
        assert_eq!(bits.0, (delay as u32 % 8) << 8);
    }
}

#[test]
fn capacity_is_reported() {
    let mut config = Config::default();
    config.capacity = 8 * 1024 * 1024;
    let (driver, _) = Qspi::new(PINS, config);
    assert_eq!(driver.capacity(), 8 * 1024 * 1024);
}

#[test]
fn error_kind() {
    assert_eq!(Error::OutOfBounds.kind(), ErrorKind::Other);
}
