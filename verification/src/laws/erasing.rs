//! Laws of erasing a range of sectors: what holds of every run, whatever the
//! reads give.

use crate::action::{Action, Register};
use crate::config::Error;
use crate::driver::{erase_script, ERASE_SIZE};
use crate::erase_range::{EraseRangeState, RangeProgress};
use crate::laws::device::{lemma_after_step, Device, Job};
use crate::laws::effects::law_erase_one_sector;
use crate::laws::operations::awaits_ready;
use crate::operation::{Mode, OperationState};
use vstd::prelude::*;

verus! {

/// The state that an erase comes to when its first actions give `values`.
pub open spec fn run(range: EraseRangeState, capacity: u32, values: Seq<u32>) -> EraseRangeState
    decreases values.len(),
{
    if values.len() == 0 {
        range
    } else {
        run(range, capacity, values.drop_last()).advance(capacity, values.last())
    }
}

/// The sectors whose erase has begun in a run, in order: the addresses that were
/// written to `ERASE.PTR`.
pub open spec fn erased(range: EraseRangeState, capacity: u32, values: Seq<u32>) -> Seq<u32>
    decreases values.len(),
{
    if values.len() == 0 {
        Seq::empty()
    } else {
        let before = erased(range, capacity, values.drop_last());
        match run(range, capacity, values.drop_last()).action() {
            Action::Write(Register::ErasePtr, address) => before.push(address),
            _ => before,
        }
    }
}

/// Number of reads of `EVENTS_READY` in a run that found the event.
pub open spec fn readies(range: EraseRangeState, capacity: u32, values: Seq<u32>) -> nat
    decreases values.len(),
{
    if values.len() == 0 {
        0
    } else {
        let before = readies(range, capacity, values.drop_last());
        if run(range, capacity, values.drop_last()).action() == Action::Read(Register::EventsReady)
            && values.last() != 0 {
            before + 1
        } else {
            before
        }
    }
}

/// Number of sectors, counted from `from`, that start below `limit`.
pub open spec fn sector_count(from: u32, limit: u32) -> int {
    if from < limit {
        (limit - from + ERASE_SIZE - 1) / ERASE_SIZE as int
    } else {
        0
    }
}

/// The addresses of the first `n` sectors from `from` on.
pub open spec fn sectors(from: u32, n: int) -> Seq<u32> {
    Seq::new(n as nat, |i: int| (from + ERASE_SIZE * i) as u32)
}

/// Number of sectors of `from..to` that are erased: all that start within the flash.
pub open spec fn erasable(capacity: u32, from: u32, to: u32) -> int {
    if sector_count(from, to) <= sector_count(from, capacity) {
        sector_count(from, to)
    } else {
        sector_count(from, capacity)
    }
}

/// What holds after every action of an erase, where `n` sectors are complete.
spec fn consistent(
    capacity: u32,
    from: u32,
    to: u32,
    mode: Mode,
    values: Seq<u32>,
    n: int,
) -> bool {
    let start = EraseRangeState::start(capacity, from, to, mode);
    let s = run(start, capacity, values);
    let log = erased(start, capacity, values);
    &&& s.to == to
    &&& s.mode == mode
    &&& n >= 0
    &&& readies(start, capacity, values) == n
    &&& match s.progress {
        RangeProgress::Erasing(op) => {
            &&& s.address == from + ERASE_SIZE * n
            &&& n < erasable(capacity, from, to)
            &&& awaits_ready(op)
            &&& !op.fetch
            &&& (op.script == erase_script(s.address) && log == sectors(from, n)) || (exists|k: int|
                1 <= k <= erase_script(s.address).len() && op.script == #[trigger] erase_script(
                    s.address,
                ).skip(k) && log == sectors(from, n + 1))
        },
        RangeProgress::Finished(result) => {
            &&& n == erasable(capacity, from, to)
            &&& log == sectors(from, n)
            &&& result == if sector_count(from, to) <= sector_count(from, capacity) {
                Ok(())
            } else {
                Err(Error::OutOfBounds)
            }
        },
    }
}

proof fn lemma_consistent(
    capacity: u32,
    from: u32,
    to: u32,
    mode: Mode,
    values: Seq<u32>,
) -> (n: int)
    ensures
        consistent(capacity, from, to, mode, values, n),
    decreases values.len(),
{
    let start = EraseRangeState::start(capacity, from, to, mode);
    if values.len() == 0 {
        assert(erased(start, capacity, values) =~= sectors(from, 0));
        0
    } else {
        let prefix = values.drop_last();
        let m = lemma_consistent(capacity, from, to, mode, prefix);
        let before = run(start, capacity, prefix);
        match before.progress {
            RangeProgress::Finished(_) => m,
            RangeProgress::Erasing(op) => {
                let script = erase_script(before.address);
                if op.script == script && erased(start, capacity, prefix) == sectors(from, m) {
                    assert(sectors(from, m).push(before.address) =~= sectors(from, m + 1));
                    assert(op.advance(values.last()).script == script.skip(1));
                    m
                } else {
                    let k = choose|k: int|
                        1 <= k <= script.len() && op.script == #[trigger] script.skip(k)
                            && erased(start, capacity, prefix) == sectors(from, m + 1);
                    if op.script.len() > 0 {
                        assert(op.script[0] == script[k]);
                        assert(script.skip(k).skip(1) == script.skip(k + 1));
                        m
                    } else {
                        assert(op.script == script.skip(k));
                        if op.advance(values.last()).done() {
                            m + 1
                        } else {
                            m
                        }
                    }
                }
            },
        }
    }
}

/// The sectors that an erase begins are those of its range, in order and without
/// a gap, as far as they start within the flash.
pub proof fn law_erases_sectors_in_order(
    capacity: u32,
    from: u32,
    to: u32,
    mode: Mode,
    values: Seq<u32>,
)
    ensures
        ({
            let log = erased(EraseRangeState::start(capacity, from, to, mode), capacity, values);
            &&& log.len() <= erasable(capacity, from, to)
            &&& log == sectors(from, log.len() as int)
        }),
{
    let n = lemma_consistent(capacity, from, to, mode, values);
}

/// Every sector that an erase begins starts within the range and within the flash.
pub proof fn law_erases_within_range(
    capacity: u32,
    from: u32,
    to: u32,
    mode: Mode,
    values: Seq<u32>,
    i: int,
)
    requires
        0 <= i < erased(EraseRangeState::start(capacity, from, to, mode), capacity, values).len(),
    ensures
        ({
            let log = erased(EraseRangeState::start(capacity, from, to, mode), capacity, values);
            from <= log[i] && log[i] < to && log[i] < capacity
        }),
{
    law_erases_sectors_in_order(capacity, from, to, mode, values);
}

/// An erase that is over has erased every sector of its range that starts within
/// the flash, and succeeded if and only if that is every sector of the range.
pub proof fn law_erase_result(capacity: u32, from: u32, to: u32, mode: Mode, values: Seq<u32>)
    requires
        run(EraseRangeState::start(capacity, from, to, mode), capacity, values).done(),
    ensures
        ({
            let start = EraseRangeState::start(capacity, from, to, mode);
            let all = sector_count(from, to) <= sector_count(from, capacity);
            &&& erased(start, capacity, values) == sectors(from, erasable(capacity, from, to))
            &&& run(start, capacity, values).action() == Action::Return(
                if all {
                    Ok(())
                } else {
                    Err(Error::OutOfBounds)
                },
            )
        }),
{
    let n = lemma_consistent(capacity, from, to, mode, values);
}

/// One sector at a time: the erase of a sector begins only after the READY event
/// of the one before was found, and the erase is over only after that of the last.
pub proof fn law_one_erase_at_a_time(
    capacity: u32,
    from: u32,
    to: u32,
    mode: Mode,
    values: Seq<u32>,
)
    ensures
        ({
            let start = EraseRangeState::start(capacity, from, to, mode);
            let begun = erased(start, capacity, values).len();
            let found = readies(start, capacity, values);
            &&& found <= begun <= found + 1
            &&& run(start, capacity, values).done() ==> begun == found
        }),
{
    let n = lemma_consistent(capacity, from, to, mode, values);
}

/// An erase that was given up while it waited for a sector begins no other, and is
/// not over before a read of `EVENTS_READY` has found the event.
pub proof fn law_abandoned_erase(range: EraseRangeState, capacity: u32, values: Seq<u32>)
    requires
        range.progress matches RangeProgress::Erasing(op) && op.script.len() == 0 && !op.done(),
    ensures
        erased(range.cancel(), capacity, values).len() == 0,
        run(range.cancel(), capacity, values).done() ==> readies(
            range.cancel(),
            capacity,
            values,
        ) >= 1,
{
    lemma_abandoned(range, capacity, values);
}

proof fn lemma_abandoned(range: EraseRangeState, capacity: u32, values: Seq<u32>)
    requires
        range.progress matches RangeProgress::Erasing(op) && op.script.len() == 0 && !op.done(),
    ensures
        erased(range.cancel(), capacity, values).len() == 0,
        ({
            let s = run(range.cancel(), capacity, values);
            match s.progress {
                RangeProgress::Erasing(op) => {
                    &&& s.to == s.address
                    &&& op.script.len() == 0
                    &&& op.phase is Poll
                    &&& op.mode is Blocking
                    &&& !op.fetch
                },
                RangeProgress::Finished(_) => readies(range.cancel(), capacity, values) >= 1,
            }
        }),
    decreases values.len(),
{
    if values.len() > 0 {
        lemma_abandoned(range, capacity, values.drop_last());
    }
}

/// What the actions of an erase have made of a device.
pub open spec fn device_after(
    range: EraseRangeState,
    capacity: u32,
    values: Seq<u32>,
    d: Device,
) -> Device
    decreases values.len(),
{
    if values.len() == 0 {
        d
    } else {
        device_after(range, capacity, values.drop_last(), d).step(
            run(range, capacity, values.drop_last()).action(),
        )
    }
}

/// Whether one of the jobs erases byte `b` of the flash.
pub open spec fn erases_byte(jobs: Seq<Job>, b: int) -> bool {
    exists|j: int|
        0 <= j < jobs.len() && (#[trigger] jobs[j] matches Job::Erase { start, size } && start <= b
            < start + size)
}

/// Start of the block of 4096 bytes, counted from `from`, that byte `b` is in.
pub open spec fn block_start(from: u32, b: int) -> int {
    from + (b - from) / 4096 * 4096
}

/// The jobs of erasing `n` sectors from `from` on.
spec fn erase_jobs(from: u32, n: int) -> Seq<Job> {
    Seq::new(n as nat, |j: int| Job::Erase { start: (from + 4096 * j) as u32, size: 4096 })
}

/// What an erase has made of a device, where `n` sectors are complete and `k` actions
/// of the next were performed on the device `e`.
spec fn device_consistent(
    capacity: u32,
    from: u32,
    to: u32,
    mode: Mode,
    values: Seq<u32>,
    d: Device,
    n: int,
    k: int,
    e: Device,
) -> bool {
    let start = EraseRangeState::start(capacity, from, to, mode);
    let s = run(start, capacity, values);
    &&& consistent(capacity, from, to, mode, values, n)
    &&& e.jobs == erase_jobs(from, n)
    &&& match s.progress {
        RangeProgress::Erasing(op) => {
            &&& 0 <= k <= erase_script(s.address).len()
            &&& op.script == erase_script(s.address).skip(k)
            &&& device_after(start, capacity, values, d) == e.after(erase_script(s.address).take(k))
        },
        RangeProgress::Finished(_) => device_after(start, capacity, values, d) == e,
    }
}

proof fn lemma_device(
    capacity: u32,
    from: u32,
    to: u32,
    mode: Mode,
    values: Seq<u32>,
    d: Device,
) -> (r: (int, int, Device))
    requires
        d.jobs.len() == 0,
    ensures
        device_consistent(capacity, from, to, mode, values, d, r.0, r.1, r.2),
    decreases values.len(),
{
    let start = EraseRangeState::start(capacity, from, to, mode);
    let n = lemma_consistent(capacity, from, to, mode, values);
    if values.len() == 0 {
        assert(d.jobs == erase_jobs(from, 0));
        assert(erase_script(from).skip(0) == erase_script(from));
        assert(d.after(erase_script(from).take(0)) == d);
        (n, 0, d)
    } else {
        let prefix = values.drop_last();
        let (m, k, e) = lemma_device(capacity, from, to, mode, prefix, d);
        let before = run(start, capacity, prefix);
        match before.progress {
            RangeProgress::Finished(_) => (n, k, e),
            RangeProgress::Erasing(op) => {
                let script = erase_script(before.address);
                if op.script.len() > 0 {
                    assert(op.script[0] == script[k]);
                    assert(script.skip(k).skip(1) == script.skip(k + 1));
                    lemma_after_step(e, script, k);
                    (n, k + 1, e)
                } else {
                    assert(k == script.len());
                    assert(script.take(k) == script);
                    let f = e.after(script);
                    law_erase_one_sector(before.address, e);
                    assert(f.jobs == erase_jobs(from, m + 1));
                    if op.advance(values.last()).done() {
                        let s = run(start, capacity, values);
                        assert(erase_script(s.address).skip(0) == erase_script(s.address));
                        assert(f.after(erase_script(s.address).take(0)) == f);
                        (n, 0, f)
                    } else {
                        (n, k, e)
                    }
                }
            },
        }
    }
}

/// What an erase has erased when it is over: a byte of the flash is erased if and only
/// if it lies in one of the blocks of 4096 bytes that follow one another from `from` on,
/// and that block starts below `to` and within the flash.
pub proof fn law_erased_bytes(
    capacity: u32,
    from: u32,
    to: u32,
    mode: Mode,
    values: Seq<u32>,
    d: Device,
    b: int,
)
    requires
        d.jobs.len() == 0,
        run(EraseRangeState::start(capacity, from, to, mode), capacity, values).done(),
    ensures
        erases_byte(
            device_after(EraseRangeState::start(capacity, from, to, mode), capacity, values, d).jobs,
            b,
        ) <==> (from <= b && block_start(from, b) < to && block_start(from, b) < capacity),
{
    let (n, k, e) = lemma_device(capacity, from, to, mode, values, d);
    lemma_jobs_bytes(capacity, from, to, n, b);
}

proof fn lemma_jobs_bytes(capacity: u32, from: u32, to: u32, n: int, b: int)
    requires
        0 <= n <= erasable(capacity, from, to),
    ensures
        erases_byte(erase_jobs(from, n), b) ==> from <= b && block_start(from, b) < to
            && block_start(from, b) < capacity,
        n == erasable(capacity, from, to) && from <= b && block_start(from, b) < to && block_start(
            from,
            b,
        ) < capacity ==> erases_byte(erase_jobs(from, n), b),
{
    let jobs = erase_jobs(from, n);
    if erases_byte(jobs, b) {
        let j = choose|j: int|
            0 <= j < jobs.len() && (#[trigger] jobs[j] matches Job::Erase { start, size } && start
                <= b < start + size);
        assert((b - from) / 4096 == j);
    }
    if n == erasable(capacity, from, to) && from <= b && block_start(from, b) < to && block_start(
        from,
        b,
    ) < capacity {
        let j = (b - from) / 4096;
        assert(0 <= j < n);
        assert(jobs[j] == Job::Erase { start: (from + 4096 * j) as u32, size: 4096 });
        assert(erases_byte(jobs, b));
    }
}

/// At every moment of an erase, what has been erased or is being erased lies in blocks
/// that start below `to` and within the flash, and the peripheral was set to nothing
/// but erasing.
pub proof fn law_erases_nothing_else(
    capacity: u32,
    from: u32,
    to: u32,
    mode: Mode,
    values: Seq<u32>,
    d: Device,
    b: int,
)
    requires
        d.jobs.len() == 0,
    ensures
        ({
            let jobs = device_after(
                EraseRangeState::start(capacity, from, to, mode),
                capacity,
                values,
                d,
            ).jobs;
            &&& erases_byte(jobs, b) ==> from <= b && block_start(from, b) < to && block_start(
                from,
                b,
            ) < capacity
            &&& forall|j: int| 0 <= j < jobs.len() ==> #[trigger] jobs[j] is Erase
        }),
{
    let (n, k, e) = lemma_device(capacity, from, to, mode, values, d);
    let start = EraseRangeState::start(capacity, from, to, mode);
    let s = run(start, capacity, values);
    let jobs = device_after(start, capacity, values, d).jobs;
    if s.progress is Erasing {
        let script = erase_script(s.address);
        law_erase_one_sector(s.address, e);
        if k < script.len() {
            lemma_unfinished(e, s.address, k);
            lemma_jobs_bytes(capacity, from, to, n, b);
        } else {
            assert(script.take(k) == script);
            assert(jobs == erase_jobs(from, n + 1));
            lemma_jobs_bytes(capacity, from, to, n + 1, b);
        }
    } else {
        lemma_jobs_bytes(capacity, from, to, n, b);
    }
}

/// The erase of a sector begins with its last action.
proof fn lemma_unfinished(e: Device, address: u32, k: int)
    requires
        0 <= k < erase_script(address).len(),
    ensures
        e.after(erase_script(address).take(k)).jobs == e.jobs,
    decreases k,
{
    if k > 0 {
        lemma_unfinished(e, address, k - 1);
        lemma_after_step(e, erase_script(address), k - 1);
    }
}

/// A blocking erase never asks for a waker and never yields, and an asynchronous one
/// registers its waker right before each read of `EVENTS_READY`.
pub proof fn law_erase_waits_by_mode(
    capacity: u32,
    from: u32,
    to: u32,
    mode: Mode,
    values: Seq<u32>,
)
    ensures
        ({
            let start = EraseRangeState::start(capacity, from, to, mode);
            let action = run(start, capacity, values).action();
            &&& mode is Blocking ==> action != Action::RegisterWaker && action != Action::Yield
            &&& mode is Async && action == Action::Read(Register::EventsReady) ==> values.len() > 0
                && run(start, capacity, values.drop_last()).action() == Action::RegisterWaker
        }),
{
    let start = EraseRangeState::start(capacity, from, to, mode);
    lemma_sector_action(capacity, from, to, mode, values);
    lemma_modes(capacity, from, to, mode, values);
    if values.len() > 0 {
        lemma_sector_action(capacity, from, to, mode, values.drop_last());
        lemma_modes(capacity, from, to, mode, values.drop_last());
    }
}

/// The actions that are left of a sector's script are writes.
proof fn lemma_sector_action(capacity: u32, from: u32, to: u32, mode: Mode, values: Seq<u32>)
    ensures
        ({
            let s = run(EraseRangeState::start(capacity, from, to, mode), capacity, values);
            s.progress matches RangeProgress::Erasing(op) ==> op.script.len() > 0 ==> s.action() is Write
        }),
{
    let n = lemma_consistent(capacity, from, to, mode, values);
    let s = run(EraseRangeState::start(capacity, from, to, mode), capacity, values);
    if let RangeProgress::Erasing(op) = s.progress {
        let script = erase_script(s.address);
        if op.script.len() > 0 && op.script != script {
            let k = choose|k: int| 1 <= k <= script.len() && op.script == #[trigger] script.skip(k);
            assert(op.script[0] == script[k]);
        }
    }
}

proof fn lemma_modes(capacity: u32, from: u32, to: u32, mode: Mode, values: Seq<u32>)
    ensures
        ({
            let s = run(EraseRangeState::start(capacity, from, to, mode), capacity, values);
            &&& s.mode == mode
            &&& s.progress matches RangeProgress::Erasing(op) ==> {
                &&& op.mode == mode
                &&& !op.fetch
                &&& mode is Blocking ==> op.phase is Poll
                &&& mode is Async && op.script.len() > 0 ==> op.phase is Register
                &&& awaits_ready(op)
            }
        }),
    decreases values.len(),
{
    if values.len() > 0 {
        lemma_modes(capacity, from, to, mode, values.drop_last());
    }
}

/// An erase that was given up while it waited for a sector reads `EVENTS_READY` until
/// it finds the event, and is over then.
pub proof fn law_abandoned_erase_trace(range: EraseRangeState, capacity: u32, values: Seq<u32>)
    requires
        range.progress matches RangeProgress::Erasing(op) && op.script.len() == 0 && !op.done(),
    ensures
        ({
            let s = run(range.cancel(), capacity, values);
            let found = exists|i: int| 0 <= i < values.len() && #[trigger] values[i] != 0;
            &&& s.action() == if found {
                Action::Return(Ok(()))
            } else {
                Action::Read(Register::EventsReady)
            }
            &&& s.done() <==> found
        }),
    decreases values.len(),
{
    lemma_abandoned(range, capacity, values);
    if values.len() > 0 {
        let prefix = values.drop_last();
        law_abandoned_erase_trace(range, capacity, prefix);
        lemma_abandoned(range, capacity, prefix);
        if exists|i: int| 0 <= i < prefix.len() && #[trigger] prefix[i] != 0 {
            let i = choose|i: int| 0 <= i < prefix.len() && #[trigger] prefix[i] != 0;
            assert(values[i] != 0);
        } else if values.last() != 0 {
            assert(values[values.len() - 1] != 0);
        } else {
            assert forall|i: int| 0 <= i < values.len() implies #[trigger] values[i] == 0 by {
                if i < prefix.len() {
                    assert(prefix[i] == 0);
                }
            }
        }
    }
}

/// Number of actions that the erase of one sector takes if its first read of
/// `EVENTS_READY` finds the event.
pub open spec fn sector_steps(mode: Mode) -> int {
    match mode {
        Mode::Blocking => 6,
        Mode::Async => 7,
    }
}

/// An erase whose every read of `EVENTS_READY` finds the event is over after as
/// many actions as its sectors take.
pub proof fn law_erase_completes(capacity: u32, from: u32, to: u32, mode: Mode, values: Seq<u32>)
    requires
        values.len() == sector_steps(mode) * erasable(capacity, from, to),
        forall|i: int| 0 <= i < values.len() ==> values[i] != 0,
    ensures
        run(EraseRangeState::start(capacity, from, to, mode), capacity, values).done(),
{
    let n = lemma_pace(capacity, from, to, mode, values);
    if !run(EraseRangeState::start(capacity, from, to, mode), capacity, values).done() {
        assert(sector_steps(mode) * (n + 1) <= sector_steps(mode) * erasable(capacity, from, to))
            by (nonlinear_arith)
            requires
                n + 1 <= erasable(capacity, from, to),
                sector_steps(mode) >= 0,
        ;
    }
}

/// Where every read finds the event, the number of actions tells how far an
/// unfinished erase has come.
proof fn lemma_pace(capacity: u32, from: u32, to: u32, mode: Mode, values: Seq<u32>) -> (n: int)
    requires
        forall|i: int| 0 <= i < values.len() ==> values[i] != 0,
    ensures
        consistent(capacity, from, to, mode, values, n),
        ({
            let s = run(EraseRangeState::start(capacity, from, to, mode), capacity, values);
            s.progress matches RangeProgress::Erasing(op) ==> {
                &&& op.mode == mode
                &&& values.len() == sector_steps(mode) * n + 5 - op.script.len() + (
                if mode is Async && op.phase is Poll {
                    1int
                } else {
                    0
                })
                &&& op.script.len() > 0 && mode is Async ==> op.phase is Register
                &&& mode is Blocking ==> op.phase is Poll
                &&& !(op.phase is Parked)
            }
        }),
    decreases values.len(),
{
    let n = lemma_consistent(capacity, from, to, mode, values);
    if values.len() > 0 {
        let m = lemma_pace(capacity, from, to, mode, values.drop_last());
        assert(values.last() != 0);
        assert(sector_steps(mode) * (m + 1) == sector_steps(mode) * m + sector_steps(mode))
            by (nonlinear_arith);
    } else {
        assert(n == 0);
        assert(sector_steps(mode) * n == 0);
    }
    n
}

} // verus!
