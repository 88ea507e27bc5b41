//! Laws of shutdowns: what holds of every run, whatever the reads give.

use crate::action::{Action, Register, Signal};
use crate::laws::device::{lemma_after_six, lemma_after_step, Device, Job};
use crate::laws::settings::{law_entering_sets_one_bit, law_status_bit};
use crate::shutdown::{deactivate_script, Descent, ShutdownState};
use vstd::prelude::*;

verus! {

/// The state that a shutdown comes to when its first actions give `values`.
pub open spec fn run(shutdown: ShutdownState, values: Seq<u32>) -> ShutdownState
    decreases values.len(),
{
    if values.len() == 0 {
        shutdown
    } else {
        run(shutdown, values.drop_last()).advance(values.last())
    }
}

/// The action that is due in the run of a shutdown after `i` of `values`.
pub open spec fn action_at(shutdown: ShutdownState, values: Seq<u32>, i: int) -> Action {
    run(shutdown, values.take(i)).action()
}

/// Whether action `i` is a read of `STATUS` that finds deep power-down mode.
pub open spec fn sees_dpm(shutdown: ShutdownState, values: Seq<u32>, i: int) -> bool {
    &&& 0 <= i < values.len()
    &&& action_at(shutdown, values, i) == Action::Read(Register::Status)
    &&& values[i] & 4 != 0
}

proof fn lemma_step(shutdown: ShutdownState, values: Seq<u32>, i: int)
    requires
        0 <= i < values.len(),
    ensures
        run(shutdown, values.take(i + 1)) == run(shutdown, values.take(i)).advance(values[i]),
{
    assert(values.take(i + 1).drop_last() == values.take(i));
}

/// What is left to do is an end of the deactivation.
proof fn lemma_suffix(dpm_enabled: bool, values: Seq<u32>)
    ensures
        ({
            let s = run(ShutdownState::start(dpm_enabled), values);
            &&& exists|k: int|
                0 <= k <= deactivate_script().len() && s.script == #[trigger] deactivate_script().skip(
                    k,
                )
            &&& !(s.descent is Reached) ==> s.script == deactivate_script()
        }),
    decreases values.len(),
{
    let script = deactivate_script();
    if values.len() == 0 {
        assert(script.skip(0) == script);
    } else {
        lemma_suffix(dpm_enabled, values.drop_last());
        let s = run(ShutdownState::start(dpm_enabled), values.drop_last());
        let k = choose|k: int| 0 <= k <= script.len() && s.script == #[trigger] script.skip(k);
        if s.descent is Reached && s.script.len() > 0 {
            assert(script.skip(k).skip(1) == script.skip(k + 1));
        } else {
            assert(script.skip(k) == s.script);
        }
    }
}

/// The chip select stays connected to its pin: no shutdown deconfigures it.
pub proof fn law_chip_select_kept(dpm_enabled: bool, values: Seq<u32>)
    ensures
        run(ShutdownState::start(dpm_enabled), values).action() != Action::DeconfigurePin(
            Signal::Csn,
        ),
{
    let script = deactivate_script();
    lemma_suffix(dpm_enabled, values);
    let s = run(ShutdownState::start(dpm_enabled), values);
    let k = choose|k: int| 0 <= k <= script.len() && s.script == #[trigger] script.skip(k);
    if s.script.len() > 0 {
        assert(s.script[0] == script[k]);
    }
}

/// Where deep power-down mode is disabled, a shutdown is the deactivation and
/// nothing else.
pub proof fn law_plain_shutdown(values: Seq<u32>)
    requires
        values.len() <= deactivate_script().len(),
    ensures
        values.len() < deactivate_script().len() ==> run(
            ShutdownState::start(false),
            values,
        ).action() == deactivate_script()[values.len() as int],
        values.len() == deactivate_script().len() ==> run(
            ShutdownState::start(false),
            values,
        ).done(),
{
    lemma_deactivation(ShutdownState::start(false), values);
}

/// A shutdown with nothing but deactivation left performs it in order.
proof fn lemma_deactivation(shutdown: ShutdownState, values: Seq<u32>)
    requires
        shutdown.descent is Reached,
        values.len() <= shutdown.script.len(),
    ensures
        run(shutdown, values) == (ShutdownState {
            script: shutdown.script.skip(values.len() as int),
            ..shutdown
        }),
    decreases values.len(),
{
    let script = shutdown.script;
    if values.len() == 0 {
        assert(script.skip(0) == script);
    } else {
        lemma_deactivation(shutdown, values.drop_last());
        assert(script.skip(values.len() - 1).skip(1) == script.skip(values.len() as int));
    }
}

/// Where deep power-down mode is enabled, a shutdown first sets the bit of
/// `IFCONFIG1` that enters it, keeping the others.
pub proof fn law_descent_begins(values: Seq<u32>)
    requires
        values.len() >= 2,
    ensures
        action_at(ShutdownState::start(true), values, 0) == Action::Read(Register::Ifconfig1),
        action_at(ShutdownState::start(true), values, 1) == Action::Write(
            Register::Ifconfig1,
            values[0] | 0x0100_0000,
        ),
        action_at(ShutdownState::start(true), values, 2) == Action::Read(Register::Status),
{
    law_entering_sets_one_bit(values[0]);
    lemma_step(ShutdownState::start(true), values, 0);
    lemma_step(ShutdownState::start(true), values, 1);
}

/// A shutdown that reads `STATUS` goes on to the settling delay if bit 2 is set,
/// whatever the other bits hold, and reads again if it is not.
pub proof fn law_status_decides(values: Seq<u32>, i: int)
    requires
        0 <= i < values.len(),
        action_at(ShutdownState::start(true), values, i) == Action::Read(Register::Status),
    ensures
        action_at(ShutdownState::start(true), values, i + 1) == if values[i] & 4 != 0 {
            Action::Delay(4096)
        } else {
            Action::Read(Register::Status)
        },
{
    law_status_bit(values[i]);
    lemma_poll(values.take(i));
    lemma_step(ShutdownState::start(true), values, i);
}

/// Until `STATUS` reports deep power-down mode, a shutdown by way of it reads
/// `STATUS`, and does nothing else once it has written `IFCONFIG1`.
pub proof fn law_status_polled(values: Seq<u32>)
    requires
        values.len() >= 2,
        forall|i: int| 2 <= i < values.len() ==> #[trigger] values[i] & 4 == 0,
    ensures
        run(ShutdownState::start(true), values).action() == Action::Read(Register::Status),
    decreases values.len(),
{
    if values.len() == 2 {
        law_descent_begins(values);
        assert(values.take(2) == values);
    } else {
        let n = values.len() - 1;
        let prefix = values.drop_last();
        assert forall|i: int| 2 <= i < prefix.len() implies #[trigger] prefix[i] & 4 == 0 by {
            assert(prefix[i] == values[i]);
        }
        law_status_polled(prefix);
        assert(values.take(n) == prefix);
        assert(values.take(n + 1) == values);
        law_status_decides(values, n);
    }
}

/// Deactivation sets the peripheral to one job, the deactivation of the interface;
/// then writes 1 as the anomaly asks; then disables the peripheral, and gives back
/// the pins of the clock and the data lines, but not of the chip select.
pub proof fn law_deactivation_effect(d: Device)
    ensures
        ({
            let script = deactivate_script();
            let e = d.after(script);
            &&& script.len() == 8
            &&& script[0] == Action::Write(Register::TasksDeactivate, 1)
            &&& script[1] == Action::Write(Register::Anomaly122, 1)
            &&& script[2] == Action::Write(Register::Enable, 0)
            &&& forall|i: int| 3 <= i < 8 ==> #[trigger] script[i] is DeconfigurePin
            &&& e.jobs == d.jobs.push(Job::Deactivate)
            &&& e.regs == d.regs.insert(Register::TasksDeactivate, 1).insert(
                Register::Anomaly122,
                1,
            ).insert(Register::Enable, 0)
            &&& e.released =~= d.released.union(
                set![Signal::Sck, Signal::Io0, Signal::Io1, Signal::Io2, Signal::Io3],
            )
        }),
{
    let script = deactivate_script();
    lemma_after_six(d, script.take(6));
    lemma_after_step(d, script, 6);
    lemma_after_step(d, script, 7);
    assert(script.take(8) == script);
}

/// Where deep power-down mode is enabled, nothing is deactivated before `STATUS`
/// has reported that mode and it has settled.
pub proof fn law_dpm_before_deactivation(values: Seq<u32>)
    requires
        run(ShutdownState::start(true), values).descent is Reached,
    ensures
        exists|i: int|
            #![trigger sees_dpm(ShutdownState::start(true), values, i)]
            sees_dpm(ShutdownState::start(true), values, i) && i + 1 < values.len() && action_at(
                ShutdownState::start(true),
                values,
                i + 1,
            ) == Action::Delay(4096),
{
    lemma_descent(values);
}

proof fn lemma_descent(values: Seq<u32>)
    ensures
        ({
            let s = run(ShutdownState::start(true), values);
            &&& s.descent is Settle ==> sees_dpm(
                ShutdownState::start(true),
                values,
                values.len() - 1,
            )
            &&& s.descent is Reached ==> exists|i: int|
                #![trigger sees_dpm(ShutdownState::start(true), values, i)]
                sees_dpm(ShutdownState::start(true), values, i) && i + 1 < values.len()
                    && action_at(ShutdownState::start(true), values, i + 1) == Action::Delay(4096)
        }),
    decreases values.len(),
{
    let start = ShutdownState::start(true);
    if values.len() > 0 {
        let prefix = values.drop_last();
        let n = values.len() - 1;
        lemma_descent(prefix);
        law_status_bit(values[n]);
        assert(values.take(n) == prefix);
        if run(start, prefix).descent is Settle {
            assert(prefix.take(n - 1) == values.take(n - 1));
            assert(sees_dpm(start, values, n - 1));
        } else if run(start, prefix).descent is Reached {
            let i = choose|i: int|
                #![trigger sees_dpm(start, prefix, i)]
                sees_dpm(start, prefix, i) && i + 1 < prefix.len() && action_at(start, prefix, i + 1)
                    == Action::Delay(4096);
            assert(prefix.take(i) == values.take(i));
            assert(prefix.take(i + 1) == values.take(i + 1));
            assert(sees_dpm(start, values, i));
        }
    }
}

/// Once `STATUS` has reported deep power-down mode, a shutdown lets it settle,
/// deactivates the peripheral, and is complete.
pub proof fn law_descent_ends(values: Seq<u32>, i: int, k: int)
    requires
        sees_dpm(ShutdownState::start(true), values, i),
        0 <= k <= deactivate_script().len(),
        values.len() >= i + 2 + k,
    ensures
        action_at(ShutdownState::start(true), values, i + 1) == Action::Delay(4096),
        k < deactivate_script().len() ==> action_at(ShutdownState::start(true), values, i + 2 + k)
            == deactivate_script()[k],
        k == deactivate_script().len() ==> run(
            ShutdownState::start(true),
            values.take(i + 2 + k),
        ).done(),
{
    let start = ShutdownState::start(true);
    lemma_suffix(true, values.take(i));
    lemma_poll(values.take(i));
    law_status_bit(values[i]);
    lemma_step(start, values, i);
    lemma_step(start, values, i + 1);
    lemma_descent_rest(values, i, k);
}

/// `STATUS` is read only on the way down.
proof fn lemma_poll(values: Seq<u32>)
    ensures
        ({
            let s = run(ShutdownState::start(true), values);
            s.action() == Action::Read(Register::Status) ==> s.descent is Poll
        }),
{
    let script = deactivate_script();
    lemma_suffix(true, values);
    let s = run(ShutdownState::start(true), values);
    let k = choose|k: int| 0 <= k <= script.len() && s.script == #[trigger] script.skip(k);
    if s.script.len() > 0 {
        assert(s.script[0] == script[k]);
    }
}

proof fn lemma_descent_rest(values: Seq<u32>, i: int, k: int)
    requires
        0 <= i,
        0 <= k <= deactivate_script().len(),
        values.len() >= i + 2 + k,
        run(ShutdownState::start(true), values.take(i + 2)) == (ShutdownState {
            descent: Descent::Reached,
            script: deactivate_script(),
        }),
    ensures
        run(ShutdownState::start(true), values.take(i + 2 + k)) == (ShutdownState {
            descent: Descent::Reached,
            script: deactivate_script().skip(k),
        }),
    decreases k,
{
    let script = deactivate_script();
    if k == 0 {
        assert(script.skip(0) == script);
    } else {
        lemma_descent_rest(values, i, k - 1);
        lemma_step(ShutdownState::start(true), values, i + 2 + k - 1);
        assert(script.skip(k - 1).skip(1) == script.skip(k));
    }
}

} // verus!
