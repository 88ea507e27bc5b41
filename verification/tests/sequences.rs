//! Erasing ranges, and taking the peripheral down.

use nrf_pac::qspi::regs::{Ifconfig1, Status};
use qspi::{
    Action, Config, DeepPowerDownConfig, Error, EraseRange, PinSelect, Qspi, Register, Signal,
    ERASE_SIZE, READ_SIZE, WRITE_SIZE,
};

const POLL: Action = Action::Read(Register::EventsReady);

fn driver_with(config: Config) -> Qspi {
    let pins = PinSelect {
        sck: 0,
        csn: 1,
        io0: 2,
        io1: 3,
        io2: 4,
        io3: 5,
    };
    Qspi::new(pins, config).0
}

fn driver(capacity: u32) -> Qspi {
    let mut config = Config::default();
    config.capacity = capacity;
    driver_with(config)
}

/// Runs an erase with the event found at every second poll; gives the sectors
/// that were erased, the number of actions, and the result.
fn erase(flash: &mut Qspi, mut range: EraseRange) -> (Vec<u32>, usize, Result<(), Error>) {
    let mut sectors = Vec::new();
    let mut polls = 0;
    let mut actions = 0;
    loop {
        let mut value = 0;
        match range.action() {
            Action::Return(result) => return (sectors, actions, result),
            Action::Write(Register::ErasePtr, address) => sectors.push(address),
            Action::Read(Register::EventsReady) => {
                polls += 1;
                value = polls % 2;
            }
            _ => {}
        }
        range.advance(flash, value);
        actions += 1;
    }
}

#[test]
fn sizes() {
    assert_eq!(READ_SIZE, 4);
    assert_eq!(WRITE_SIZE, 4);
    assert_eq!(ERASE_SIZE, 4096);
}

#[test]
fn erases_every_sector_of_the_range() {
    let mut flash = driver(0x1_0000);
    let range = flash.blocking_erase_range(0x2000, 0x5000);
    let (sectors, actions, result) = erase(&mut flash, range);
    assert_eq!(sectors, vec![0x2000, 0x3000, 0x4000]);
    assert_eq!(actions, 6 + 7 + 7);
    assert_eq!(result, Ok(()));
    let range = flash.erase_range(0x2000, 0x5000);
    let (sectors, _, result) = erase(&mut flash, range);
    assert_eq!(sectors, vec![0x2000, 0x3000, 0x4000]);
    assert_eq!(result, Ok(()));
}

#[test]
fn erase_takes_as_many_actions_as_its_sectors() {
    for (mut range, steps) in [
        (driver(0x1_0000).blocking_erase_range(0, 0x3000), 3 * 6),
        (driver(0x1_0000).erase_range(0, 0x3000), 3 * 7),
        (driver(0x1000).blocking_erase_range(0, 0x3000), 6),
    ] {
        let capacity = if steps == 6 { 0x1000 } else { 0x1_0000 };
        let mut flash = driver(capacity);
        for _ in 0..steps {
            assert!(!matches!(range.action(), Action::Return(_)));
            range.advance(&mut flash, 1);
        }
        assert!(matches!(range.action(), Action::Return(_)));
    }
}

#[test]
fn erases_the_last_sector_in_part() {
    let mut flash = driver(0x1_0000);
    let range = flash.blocking_erase_range(0x2000, 0x3001);
    assert_eq!(erase(&mut flash, range).0, vec![0x2000, 0x3000]);
    let range = flash.blocking_erase_range(0x2000, 0x2001);
    assert_eq!(erase(&mut flash, range).0, vec![0x2000]);
}

#[test]
fn empty_range_erases_nothing() {
    let mut flash = driver(0x1_0000);
    for (from, to) in [(0x2000, 0x2000), (0x3000, 0x2000), (u32::MAX, 0), (1, 1)] {
        let range = flash.blocking_erase_range(from, to);
        assert_eq!(erase(&mut flash, range), (vec![], 0, Ok(())));
        let range = flash.erase_range(from, to);
        assert_eq!(erase(&mut flash, range), (vec![], 0, Ok(())));
    }
}

#[test]
fn erase_stops_at_the_end_of_the_flash() {
    let mut flash = driver(0x3000);
    let range = flash.blocking_erase_range(0x1000, 0x5000);
    let (sectors, _, result) = erase(&mut flash, range);
    assert_eq!(sectors, vec![0x1000, 0x2000]);
    assert!(sectors.iter().all(|sector| sector + ERASE_SIZE <= 0x3000));
    assert_eq!(result, Err(Error::OutOfBounds));
    let range = flash.erase_range(0x3000, 0x5000);
    assert_eq!(
        erase(&mut flash, range),
        (vec![], 0, Err(Error::OutOfBounds))
    );
}

#[test]
fn erase_reaches_the_top_of_the_address_space() {
    let mut flash = driver(u32::MAX);
    let range = flash.blocking_erase_range(0xffff_e000, u32::MAX);
    let (sectors, _, result) = erase(&mut flash, range);
    assert_eq!(sectors, vec![0xffff_e000, 0xffff_f000]);
    assert_eq!(result, Ok(()));
}

#[test]
fn next_sector_waits_for_the_one_before() {
    let mut flash = driver(0x1_0000);
    let mut range = flash.blocking_erase_range(0, 0x2000);
    for _ in 0..5 {
        range.advance(&mut flash, 1);
    }
    for _ in 0..3 {
        assert_eq!(range.action(), POLL);
        range.advance(&mut flash, 0);
    }
    range.advance(&mut flash, 1);
    assert_eq!(
        range.action(),
        Action::Write(Register::ErasePtr, 0x1000)
    );
}

#[test]
fn abandoned_erase_begins_no_other_sector() {
    let mut flash = driver(0x1_0000);
    let mut range = flash.erase_range(0, 0x4000);
    for _ in 0..7 {
        range.advance(&mut flash, 0);
    }
    assert_eq!(range.action(), Action::Yield);
    range.cancel();
    assert_eq!(range.action(), POLL);
    range.advance(&mut flash, 0);
    assert_eq!(range.action(), POLL);
    range.advance(&mut flash, 1);
    assert_eq!(range.action(), Action::Return(Ok(())));
}

fn deactivation() -> Vec<Action> {
    vec![
        Action::Write(Register::TasksDeactivate, 1),
        Action::Write(Register::Anomaly122, 1),
        Action::Write(Register::Enable, 0),
        Action::DeconfigurePin(Signal::Sck),
        Action::DeconfigurePin(Signal::Io0),
        Action::DeconfigurePin(Signal::Io1),
        Action::DeconfigurePin(Signal::Io2),
        Action::DeconfigurePin(Signal::Io3),
    ]
}

#[test]
fn plain_shutdown() {
    let mut shutdown = driver(0).shutdown();
    for action in deactivation() {
        assert_eq!(shutdown.action(), action);
        shutdown.advance(0xffff_ffff);
    }
    assert_eq!(shutdown.action(), Action::Return(Ok(())));
}

#[test]
fn shutdown_by_way_of_deep_power_down() {
    let mut config = Config::default();
    config.deep_power_down = Some(DeepPowerDownConfig {
        enter_time: 3,
        exit_time: 3,
    });
    let mut shutdown = driver_with(config).shutdown();
    assert_eq!(shutdown.action(), Action::Read(Register::Ifconfig1));
    shutdown.advance(0x3000_0050);
    assert_eq!(
        shutdown.action(),
        Action::Write(Register::Ifconfig1, 0x3100_0050)
    );
    assert!(Ifconfig1(0x3100_0050).dpmen());
    shutdown.advance(0);
    for status in [0, 1, 0xffff_fffb] {
        assert!(!Status(status).dpm());
        assert_eq!(shutdown.action(), Action::Read(Register::Status));
        shutdown.advance(status);
    }
    assert_eq!(shutdown.action(), Action::Read(Register::Status));
    assert!(Status(4).dpm());
    shutdown.advance(4);
    assert_eq!(shutdown.action(), Action::Delay(4096));
    shutdown.advance(0);
    for action in deactivation() {
        assert_eq!(shutdown.action(), action);
        shutdown.advance(0);
    }
    assert_eq!(shutdown.action(), Action::Return(Ok(())));
}

#[test]
fn entering_deep_power_down_keeps_the_settings() {
    let mut config = Config::default();
    config.deep_power_down = Some(DeepPowerDownConfig {
        enter_time: 0,
        exit_time: 0,
    });
    let mut flash = driver_with(config);
    for bits in [0u32, 0x0100_0000, 0xffff_ffff, 0xfeff_ffff, 0xf200_00ab] {
        let mut shutdown = flash.shutdown();
        shutdown.advance(bits);
        assert_eq!(
            shutdown.action(),
            Action::Write(Register::Ifconfig1, bits | 0x0100_0000)
        );
    }
}
