//! Requests to the driver and the operations that answer them.

use nrf_pac::qspi::regs::{Cinstrconf, Int, Len, ReadCnt, WriteCnt};
use nrf_pac::qspi::vals;
use qspi::{
    Action, Buffer, Config, Error, InterruptHandler, Operation, PinSelect, Qspi, Register,
};

const ADDRESS: u32 = 0x2000_0000;

fn driver(capacity: u32) -> Qspi {
    let mut config = Config::default();
    config.capacity = capacity;
    let pins = PinSelect {
        sck: 0,
        csn: 1,
        io0: 2,
        io1: 3,
        io2: 4,
        io3: 5,
    };
    Qspi::new(pins, config).0
}

fn buffer(len: usize) -> Buffer {
    Buffer {
        address: ADDRESS,
        len,
    }
}

/// Takes the next `n` actions, with 0 for every value read.
fn take(op: &mut Operation, n: usize) -> Vec<Action> {
    let mut actions = Vec::new();
    for _ in 0..n {
        actions.push(op.action());
        op.advance(0);
    }
    actions
}

fn reading(address: u32, len: u32) -> Vec<Action> {
    vec![
        Action::Write(Register::ReadSrc, address),
        Action::Write(Register::ReadDst, ADDRESS),
        Action::Write(Register::ReadCnt, len),
        Action::Write(Register::EventsReady, 0),
        Action::Write(Register::Intenset, 1),
        Action::Write(Register::TasksReadstart, 1),
    ]
}

fn writing(address: u32, len: u32) -> Vec<Action> {
    vec![
        Action::Write(Register::WriteSrc, ADDRESS),
        Action::Write(Register::WriteDst, address),
        Action::Write(Register::WriteCnt, len),
        Action::Write(Register::EventsReady, 0),
        Action::Write(Register::Intenset, 1),
        Action::Write(Register::TasksWritestart, 1),
    ]
}

fn erasing(address: u32) -> Vec<Action> {
    vec![
        Action::Write(Register::ErasePtr, address),
        Action::Write(Register::EraseLen, 0),
        Action::Write(Register::EventsReady, 0),
        Action::Write(Register::Intenset, 1),
        Action::Write(Register::TasksErasestart, 1),
    ]
}

const POLL: Action = Action::Read(Register::EventsReady);

#[test]
fn blocking_read_polls_until_ready() {
    let mut op = driver(0x1_0000).blocking_read(0x100, buffer(64)).unwrap();
    assert_eq!(take(&mut op, 6), reading(0x100, 64));
    assert_eq!(take(&mut op, 4), vec![POLL, POLL, POLL, POLL]);
    op.advance(1);
    assert_eq!(op.action(), Action::Return(Ok(())));
}

#[test]
fn read_registers_waker_before_each_poll() {
    let mut op = driver(0x1_0000).read(0x100, buffer(64)).unwrap();
    assert_eq!(take(&mut op, 6), reading(0x100, 64));
    assert_eq!(
        take(&mut op, 6),
        vec![
            Action::RegisterWaker,
            POLL,
            Action::Yield,
            Action::RegisterWaker,
            POLL,
            Action::Yield,
        ]
    );
    assert_eq!(take(&mut op, 1), vec![Action::RegisterWaker]);
    assert_eq!(op.action(), POLL);
    op.advance(0xffff_ffff);
    assert_eq!(op.action(), Action::Return(Ok(())));
    assert!(op.is_done());
    op.advance(0);
    assert!(op.is_done());
}

#[test]
fn write_and_blocking_write() {
    let mut op = driver(0x1_0000).write(0x200, buffer(8)).unwrap();
    assert_eq!(take(&mut op, 6), writing(0x200, 8));
    assert_eq!(op.action(), Action::RegisterWaker);
    let mut op = driver(0x1_0000).blocking_write(0x200, buffer(8)).unwrap();
    assert_eq!(take(&mut op, 6), writing(0x200, 8));
    assert_eq!(op.action(), POLL);
}

#[test]
fn erase_and_blocking_erase() {
    let mut op = driver(0x1_0000).erase(0x3000).unwrap();
    assert_eq!(take(&mut op, 5), erasing(0x3000));
    assert_eq!(op.action(), Action::RegisterWaker);
    let mut op = driver(0x1_0000).blocking_erase(0x3000).unwrap();
    assert_eq!(take(&mut op, 5), erasing(0x3000));
    assert_eq!(op.action(), POLL);
    assert_eq!(Len(0).len(), vals::Len::_4KB);
}

#[test]
fn checked_transfers_stay_in_bounds() {
    let mut flash = driver(0x1000);
    assert!(flash.read(0, buffer(0x1000)).is_ok());
    assert!(flash.read(0xffc, buffer(4)).is_ok());
    assert_eq!(flash.read(0x1000, buffer(4)).err(), Some(Error::OutOfBounds));
    assert_eq!(flash.read(0xffc, buffer(8)).err(), Some(Error::OutOfBounds));
    assert_eq!(flash.write(4, buffer(0x1000)).err(), Some(Error::OutOfBounds));
    assert_eq!(
        flash.blocking_read(0xffff_fffc, buffer(8)).err(),
        Some(Error::OutOfBounds)
    );
    assert_eq!(
        flash.blocking_write(0xffff_fffc, buffer(4)).err(),
        Some(Error::OutOfBounds)
    );
    assert_eq!(
        flash.blocking_read(0, buffer(usize::MAX)).err(),
        Some(Error::OutOfBounds)
    );
    // Alignment is of no account where the bounds are not met.
    assert_eq!(flash.read(0x1001, buffer(3)).err(), Some(Error::OutOfBounds));
}

#[test]
fn bounds_hold_at_the_top_of_the_address_space() {
    let mut flash = driver(u32::MAX);
    assert!(flash.blocking_read(0xffff_fff8, buffer(4)).is_ok());
    assert_eq!(
        flash.blocking_read(0xffff_fffc, buffer(4)).err(),
        Some(Error::OutOfBounds)
    );
}

#[test]
fn erase_checks_only_the_start() {
    let mut flash = driver(0x1001);
    assert!(flash.erase(0x1000).is_ok());
    assert_eq!(flash.erase(0x2000).err(), Some(Error::OutOfBounds));
    assert_eq!(flash.blocking_erase(0x1001).err(), Some(Error::OutOfBounds));
}

#[test]
fn empty_transfers_do_nothing() {
    let mut flash = driver(0x1000);
    for op in [
        flash.read(0x1000, buffer(0)),
        flash.write(0x1000, buffer(0)),
        flash.blocking_read(1, buffer(0)),
        flash.blocking_write(1, buffer(0)),
        flash.read_raw(u32::MAX, buffer(0)),
        flash.write_raw(u32::MAX, buffer(0)),
        flash.blocking_read_raw(u32::MAX, buffer(0)),
        flash.blocking_write_raw(u32::MAX, buffer(0)),
    ] {
        let op = op.unwrap();
        assert!(op.is_done());
        assert_eq!(op.action(), Action::Return(Ok(())));
    }
    // An empty transfer beyond the flash is refused all the same.
    assert_eq!(flash.read(0x1001, buffer(0)).err(), Some(Error::OutOfBounds));
}

#[test]
fn raw_transfers_ignore_the_capacity() {
    let mut flash = driver(0);
    assert!(flash.read(0, buffer(4)).is_err());
    let mut op = flash.read_raw(0xffff_fffc, buffer(4)).unwrap();
    assert_eq!(take(&mut op, 6), reading(0xffff_fffc, 4));
    assert_eq!(op.action(), Action::RegisterWaker);
    let mut op = flash.write_raw(0xffff_fffc, buffer(4)).unwrap();
    assert_eq!(take(&mut op, 6), writing(0xffff_fffc, 4));
    let mut op = flash.blocking_read_raw(0x40, buffer(12)).unwrap();
    assert_eq!(take(&mut op, 6), reading(0x40, 12));
    assert_eq!(op.action(), POLL);
    let mut op = flash.blocking_write_raw(0x40, buffer(12)).unwrap();
    assert_eq!(take(&mut op, 6), writing(0x40, 12));
    assert_eq!(op.action(), POLL);
}

#[test]
fn byte_count_has_eighteen_bits() {
    let mut flash = driver(u32::MAX);
    for (len, count) in [
        (0x3_fffc, 0x3_fffc),
        (0x4_0000, 0),
        (0x4_0004, 4),
        (0x10_0008, 8),
    ] {
        let mut op = flash.blocking_read(0, buffer(len)).unwrap();
        assert_eq!(take(&mut op, 6), reading(0, count));
        assert_eq!(ReadCnt(count).cnt(), count);
        let mut op = flash.blocking_write(0, buffer(len)).unwrap();
        assert_eq!(take(&mut op, 6), writing(0, count));
        assert_eq!(WriteCnt(count).cnt(), count);
    }
}

#[test]
fn cancelled_read_spins_until_ready() {
    let mut op = driver(0x1000).read(0, buffer(4)).unwrap();
    take(&mut op, 8);
    assert_eq!(op.action(), Action::Yield);
    op.cancel();
    assert_eq!(take(&mut op, 3), vec![POLL, POLL, POLL]);
    op.advance(1);
    assert_eq!(op.action(), Action::Return(Ok(())));
    op.cancel();
    assert!(op.is_done());
}

#[test]
fn custom_instruction_actions() {
    let mut flash = driver(0);
    let mut op = flash.blocking_custom_instruction(0x9f, &[], 3).unwrap();
    assert_eq!(
        take(&mut op, 5),
        vec![
            Action::Write(Register::Cinstrdat0, 0),
            Action::Write(Register::Cinstrdat1, 0),
            Action::Write(Register::EventsReady, 0),
            Action::Write(Register::Intenset, 1),
            Action::Write(Register::Cinstrconf, 0xf49f),
        ]
    );
    assert_eq!(op.action(), POLL);
    op.advance(1);
    assert_eq!(op.action(), Action::Read(Register::Cinstrdat0));
    op.advance(0x0033_2211);
    assert_eq!(op.action(), Action::Read(Register::Cinstrdat1));
    op.advance(0x5544);
    assert_eq!(op.action(), Action::Return(Ok(())));
    assert_eq!(op.data(), (0x0033_2211, 0x5544));
    let mut resp = [0u8; 3];
    assert_eq!(
        flash.custom_instruction_finish(op.data(), &mut resp),
        Ok(())
    );
    assert_eq!(resp, [0x11, 0x22, 0x33]);
}

#[test]
fn custom_instruction_request_words() {
    let mut flash = driver(0);
    let req = [0x01, 0x23, 0x45, 0x67, 0x89, 0xab, 0xcd, 0xef];
    for n in 0..=8 {
        let mut op = flash.custom_instruction(0x01, &req[..n], 0).unwrap();
        let mut padded = [0u8; 8];
        padded[..n].copy_from_slice(&req[..n]);
        let dat0 = u32::from_le_bytes([padded[0], padded[1], padded[2], padded[3]]);
        let dat1 = u32::from_le_bytes([padded[4], padded[5], padded[6], padded[7]]);
        let actions = take(&mut op, 5);
        assert_eq!(actions[0], Action::Write(Register::Cinstrdat0, dat0));
        assert_eq!(actions[1], Action::Write(Register::Cinstrdat1, dat1));
        assert_eq!(
            actions[4],
            Action::Write(Register::Cinstrconf, 0xf001 + 0x100 * (n as u32 + 1))
        );
        assert_eq!(op.action(), Action::RegisterWaker);
    }
}

#[test]
fn custom_instruction_flags() {
    let mut op = driver(0).custom_instruction(0xab, &[1, 2], 5).unwrap();
    let actions = take(&mut op, 5);
    match actions[4] {
        Action::Write(Register::Cinstrconf, bits) => {
            let conf = Cinstrconf(bits);
            assert_eq!(conf.opcode(), 0xab);
            assert_eq!(conf.length(), vals::Length::_6B);
            assert!(conf.lio2());
            assert!(conf.lio3());
            assert!(conf.wipwait());
            assert!(conf.wren());
            assert!(!conf.lfen());
            assert!(!conf.lfstop());
        }
        _ => panic!("unexpected action"),
    }
}

#[test]
fn custom_instruction_length_wraps() {
    let mut flash = driver(0);
    for (resp_len, conf) in [(14, 0xff05), (15, 0xf005), (16, 0xf105), (256, 0xf105), (300, 0xfd05)]
    {
        let mut op = flash.custom_instruction(0x05, &[], resp_len).unwrap();
        assert_eq!(
            take(&mut op, 5)[4],
            Action::Write(Register::Cinstrconf, conf)
        );
    }
}

#[test]
fn custom_instruction_response_bytes() {
    let mut flash = driver(0);
    let data = (0x4433_2211, 0x8877_6655);
    let mut resp = [0u8; 0];
    assert_eq!(flash.custom_instruction_finish(data, &mut resp), Ok(()));
    let mut resp = [0u8; 1];
    assert_eq!(flash.custom_instruction_finish(data, &mut resp), Ok(()));
    assert_eq!(resp, [0x11]);
    let mut resp = [0u8; 4];
    assert_eq!(flash.custom_instruction_finish(data, &mut resp), Ok(()));
    assert_eq!(resp, [0x11, 0x22, 0x33, 0x44]);
    // Beyond four bytes, the second word goes over the first.
    let mut resp = [0xeeu8; 6];
    assert_eq!(flash.custom_instruction_finish(data, &mut resp), Ok(()));
    assert_eq!(resp, [0x55, 0x66, 0x33, 0x44, 0xee, 0xee]);
    let mut resp = [0xeeu8; 9];
    assert_eq!(flash.custom_instruction_finish(data, &mut resp), Ok(()));
    assert_eq!(
        resp,
        [0x55, 0x66, 0x77, 0x88, 0xee, 0xee, 0xee, 0xee, 0xee]
    );
}

#[test]
fn short_request_comes_back_as_response() {
    let mut flash = driver(0);
    let req = [0xde, 0xad, 0xbe, 0xef];
    for n in 0..=4 {
        let mut op = flash.custom_instruction(0, &req[..n], n).unwrap();
        let actions = take(&mut op, 5);
        let (dat0, dat1) = match (actions[0], actions[1]) {
            (Action::Write(_, dat0), Action::Write(_, dat1)) => (dat0, dat1),
            _ => panic!("unexpected action"),
        };
        let mut resp = vec![0u8; n];
        assert_eq!(
            flash.custom_instruction_finish((dat0, dat1), &mut resp),
            Ok(())
        );
        assert_eq!(resp, &req[..n]);
    }
}

#[test]
fn cancelled_custom_instruction_reads_no_data() {
    let mut op = driver(0).custom_instruction(0x9f, &[], 3).unwrap();
    take(&mut op, 7);
    assert_eq!(op.action(), Action::Yield);
    op.cancel();
    assert_eq!(op.action(), POLL);
    op.advance(1);
    assert_eq!(op.action(), Action::Return(Ok(())));
    assert_eq!(op.data(), (0, 0));
}

#[test]
fn interrupt_wakes_and_disables() {
    assert_eq!(InterruptHandler::on_interrupt(0), vec![]);
    for events_ready in [1, 2, u32::MAX] {
        assert_eq!(
            InterruptHandler::on_interrupt(events_ready),
            vec![Action::Wake, Action::Write(Register::Intenclr, 1)]
        );
    }
    assert!(Int(1).ready());
}

/// What the actions of a task act on.
struct Peripheral {
    busy: bool,
    event: bool,
    enabled: bool,
    waker: bool,
    woken: bool,
}

impl Peripheral {
    fn perform(&mut self, action: Action) -> u32 {
        match action {
            Action::Write(Register::EventsReady, value) => self.event = value != 0,
            Action::Write(Register::Intenset, value) => self.enabled |= value & 1 == 1,
            Action::Write(Register::Intenclr, value) => self.enabled &= value & 1 == 0,
            Action::Write(Register::TasksReadstart, _) => self.busy = true,
            Action::RegisterWaker => self.waker = true,
            Action::Wake => self.woken |= self.waker,
            Action::Yield => self.woken = false,
            _ => {}
        }
        self.event as u32
    }

    fn finish(&mut self) {
        if self.busy {
            self.busy = false;
            self.event = true;
        }
    }

    fn interrupt(&mut self) {
        if self.event && self.enabled {
            for action in InterruptHandler::on_interrupt(self.event as u32) {
                self.perform(action);
            }
        }
    }
}

#[test]
fn no_wakeup_is_lost() {
    // The peripheral finishes, and the interrupt comes, at every pair of moments.
    for finish in 0..12 {
        for delay in 0..4 {
            for stale in [false, true] {
                let mut op = driver(0x1000).read(0, buffer(4)).unwrap();
                let mut peripheral = Peripheral {
                    busy: false,
                    event: stale,
                    enabled: stale,
                    waker: false,
                    woken: false,
                };
                let mut moment = 0;
                while !op.is_done() {
                    assert!(moment < 40);
                    if moment >= finish {
                        peripheral.finish();
                    }
                    if moment >= finish + delay {
                        peripheral.interrupt();
                    }
                    if op.action() != Action::Yield || peripheral.woken {
                        let value = peripheral.perform(op.action());
                        op.advance(value);
                    }
                    moment += 1;
                }
                assert!(!peripheral.busy);
                assert!(peripheral.event);
            }
        }
    }
}
