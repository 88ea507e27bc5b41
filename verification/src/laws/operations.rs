//! Laws of operations: what holds of every run, whatever the reads give.

use crate::action::{Action, Register};
use crate::operation::{Mode, OperationState};
use vstd::prelude::*;

verus! {

/// The state that `op` comes to when its first actions give `values`.
pub open spec fn run(op: OperationState, values: Seq<u32>) -> OperationState
    decreases values.len(),
{
    if values.len() == 0 {
        op
    } else {
        run(op, values.drop_last()).advance(values.last())
    }
}

/// The action that is due in the run of `op` after `i` of `values`.
pub open spec fn action_at(op: OperationState, values: Seq<u32>, i: int) -> Action {
    run(op, values.take(i)).action()
}

/// Whether action `i` in the run of `op` is a read of `EVENTS_READY`, after all
/// writes of `op`, that finds the event.
pub open spec fn sees_ready(op: OperationState, values: Seq<u32>, i: int) -> bool {
    &&& op.script.len() <= i < values.len()
    &&& action_at(op, values, i) == Action::Read(Register::EventsReady)
    &&& values[i] != 0
}

/// Whether an operation waits, or will wait, for the READY event.
pub open spec fn awaits_ready(op: OperationState) -> bool {
    op.phase is Register || op.phase is Poll || op.phase is Parked
}

/// One more action takes the run one step further.
proof fn lemma_step(op: OperationState, values: Seq<u32>, i: int)
    requires
        0 <= i < values.len(),
    ensures
        run(op, values.take(i + 1)) == run(op, values.take(i)).advance(values[i]),
{
    assert(values.take(i + 1).drop_last() == values.take(i));
}

/// Action `i` of an operation is action `i` of its script, as long as there is one.
proof fn lemma_script(op: OperationState, values: Seq<u32>)
    ensures
        values.len() <= op.script.len() ==> run(op, values) == (OperationState {
            script: op.script.skip(values.len() as int),
            ..op
        }),
        values.len() >= op.script.len() ==> run(op, values).script.len() == 0,
    decreases values.len(),
{
    if values.len() == 0 {
        assert(op.script.skip(0) == op.script);
    } else {
        lemma_script(op, values.drop_last());
        if values.len() <= op.script.len() {
            assert(op.script.skip(values.len() - 1).skip(1) == op.script.skip(values.len() as int));
        }
    }
}

/// The script of an operation is performed after as many actions as it has.
pub(crate) proof fn lemma_script_performed(op: OperationState, values: Seq<u32>)
    requires
        values.len() >= op.script.len(),
    ensures
        run(op, values).script.len() == 0,
{
    lemma_script(op, values);
}

/// An operation that awaits the event does so until a read finds it.
proof fn lemma_awaits(op: OperationState, values: Seq<u32>)
    requires
        awaits_ready(op),
    ensures
        awaits_ready(run(op, values)) || exists|i: int| sees_ready(op, values, i),
    decreases values.len(),
{
    if values.len() > 0 {
        let prefix = values.drop_last();
        let n = values.len() - 1;
        lemma_awaits(op, prefix);
        lemma_script(op, prefix);
        assert(values.take(n) == prefix);
        if exists|i: int| sees_ready(op, prefix, i) {
            let i = choose|i: int| sees_ready(op, prefix, i);
            assert(prefix.take(i) == values.take(i));
            assert(sees_ready(op, values, i));
        } else if !awaits_ready(run(op, values)) {
            assert(sees_ready(op, values, n));
        }
    }
}

/// The writes of an operation are performed first and in order, whether it
/// blocks or not.
pub proof fn law_script_in_order(
    script: Seq<Action>,
    mode: Mode,
    fetch: bool,
    values: Seq<u32>,
    i: int,
)
    requires
        0 <= i < script.len(),
        i <= values.len(),
    ensures
        action_at(OperationState::start(script, mode, fetch), values, i) == script[i],
{
    lemma_script(OperationState::start(script, mode, fetch), values.take(i));
}

/// No operation returns, and so none gives its buffer back, before a read of
/// `EVENTS_READY` has found the event, after the task was started.
pub proof fn law_ready_before_return(
    script: Seq<Action>,
    mode: Mode,
    fetch: bool,
    values: Seq<u32>,
)
    requires
        run(OperationState::start(script, mode, fetch), values).done(),
    ensures
        exists|i: int| sees_ready(OperationState::start(script, mode, fetch), values, i),
{
    lemma_awaits(OperationState::start(script, mode, fetch), values);
}

/// An operation that was given up does not return either before a read of
/// `EVENTS_READY` has found the event.
pub proof fn law_ready_before_abandon(op: OperationState, values: Seq<u32>)
    requires
        !op.done(),
        run(op.cancel(), values).done(),
    ensures
        exists|i: int| sees_ready(op.cancel(), values, i),
{
    lemma_awaits(op.cancel(), values);
}

/// A blocking operation never asks for a waker and never yields.
pub proof fn law_blocking_never_suspends(script: Seq<Action>, fetch: bool, values: Seq<u32>)
    requires
        values.len() >= script.len(),
    ensures
        ({
            let action = run(
                OperationState::start(script, Mode::Blocking, fetch),
                values,
            ).action();
            action != Action::RegisterWaker && action != Action::Yield
        }),
{
    lemma_blocking(OperationState::start(script, Mode::Blocking, fetch), values);
}

/// Nor does an operation that was given up.
pub proof fn law_abandoned_never_suspends(op: OperationState, values: Seq<u32>)
    requires
        !op.done(),
        values.len() >= op.script.len(),
    ensures
        run(op.cancel(), values).action() != Action::RegisterWaker,
        run(op.cancel(), values).action() != Action::Yield,
{
    lemma_blocking(op.cancel(), values);
}

proof fn lemma_blocking(op: OperationState, values: Seq<u32>)
    requires
        op.mode is Blocking,
        op.phase is Poll,
    ensures
        run(op, values).mode is Blocking,
        !(run(op, values).phase is Register),
        !(run(op, values).phase is Parked),
        values.len() >= op.script.len() ==> run(op, values).script.len() == 0,
    decreases values.len(),
{
    lemma_script(op, values);
    if values.len() > 0 {
        lemma_blocking(op, values.drop_last());
    }
}

/// An asynchronous operation registers its waker right before each read of
/// `EVENTS_READY`, so that an event after the read finds a waker.
pub proof fn law_waker_before_poll(script: Seq<Action>, fetch: bool, values: Seq<u32>, i: int)
    requires
        script.len() <= i <= values.len(),
        action_at(OperationState::start(script, Mode::Async, fetch), values, i) == Action::Read(
            Register::EventsReady,
        ),
    ensures
        i > script.len(),
        action_at(OperationState::start(script, Mode::Async, fetch), values, i - 1)
            == Action::RegisterWaker,
{
    let op = OperationState::start(script, Mode::Async, fetch);
    lemma_script(op, values.take(i));
    if i > script.len() {
        lemma_script(op, values.take(i - 1));
        lemma_async(op, values.take(i - 1));
        assert(values.take(i).drop_last() == values.take(i - 1));
    }
}

proof fn lemma_async(op: OperationState, values: Seq<u32>)
    requires
        op.mode is Async,
    ensures
        run(op, values).mode is Async,
    decreases values.len(),
{
    if values.len() > 0 {
        lemma_async(op, values.drop_last());
    }
}

/// What an operation does at step `k` of its wait, as long as the event was not found.
pub open spec fn wait_action(mode: Mode, k: int) -> Action {
    if mode is Blocking || k % 3 == 1 {
        Action::Read(Register::EventsReady)
    } else if k % 3 == 0 {
        Action::RegisterWaker
    } else {
        Action::Yield
    }
}

/// Until it finds the event, a blocking operation reads `EVENTS_READY` over and
/// over, and an asynchronous one goes round registering its waker, reading, and
/// yielding.
pub proof fn law_wait_cycle(
    script: Seq<Action>,
    mode: Mode,
    fetch: bool,
    values: Seq<u32>,
)
    requires
        values.len() >= script.len(),
        forall|i: int| !sees_ready(OperationState::start(script, mode, fetch), values, i),
    ensures
        run(OperationState::start(script, mode, fetch), values).action() == wait_action(
            mode,
            values.len() - script.len(),
        ),
{
    lemma_wait_cycle(OperationState::start(script, mode, fetch), values);
}

proof fn lemma_wait_cycle(op: OperationState, values: Seq<u32>)
    requires
        values.len() >= op.script.len(),
        op == OperationState::start(op.script, op.mode, op.fetch),
        forall|i: int| !sees_ready(op, values, i),
    ensures
        run(op, values).script.len() == 0,
        run(op, values).mode == op.mode,
        awaits_ready(run(op, values)),
        run(op, values).action() == wait_action(op.mode, values.len() - op.script.len()),
    decreases values.len(),
{
    lemma_script(op, values);
    if values.len() > op.script.len() {
        let prefix = values.drop_last();
        let n = values.len() - 1;
        assert(values.take(n) == prefix);
        assert forall|i: int| !sees_ready(op, prefix, i) by {
            if sees_ready(op, prefix, i) {
                assert(prefix.take(i) == values.take(i));
                assert(sees_ready(op, values, i));
            }
        }
        lemma_wait_cycle(op, prefix);
        assert(!sees_ready(op, values, n));
    }
}

/// An operation is complete as soon as a read of `EVENTS_READY` has found the
/// event, but for the reads of the data registers, whose values it keeps.
pub proof fn law_completes(
    script: Seq<Action>,
    mode: Mode,
    fetch: bool,
    values: Seq<u32>,
    i: int,
)
    requires
        sees_ready(OperationState::start(script, mode, fetch), values, i),
        values.len() == i + 1 + (if fetch {
            2int
        } else {
            0
        }),
    ensures
        run(OperationState::start(script, mode, fetch), values).done(),
        fetch ==> run(OperationState::start(script, mode, fetch), values).dat0 == values[i + 1],
        fetch ==> run(OperationState::start(script, mode, fetch), values).dat1 == values[i + 2],
{
    let op = OperationState::start(script, mode, fetch);
    lemma_script(op, values.take(i));
    lemma_fetch(op, values.take(i));
    lemma_step(op, values, i);
    if fetch {
        lemma_step(op, values, i + 1);
        lemma_step(op, values, i + 2);
    }
    assert(values.take(values.len() as int) == values);
}

/// Once a read of `EVENTS_READY` has found the event, a custom instruction reads its
/// first and then its second data register; then, as any other operation does at
/// once, it returns success, and nothing else from there on.
pub proof fn law_after_ready(
    script: Seq<Action>,
    mode: Mode,
    fetch: bool,
    values: Seq<u32>,
    i: int,
    k: int,
)
    requires
        sees_ready(OperationState::start(script, mode, fetch), values, i),
        i < k <= values.len(),
    ensures
        ({
            let op = OperationState::start(script, mode, fetch);
            let action = action_at(op, values, k);
            &&& action == if fetch && k == i + 1 {
                Action::Read(Register::Cinstrdat0)
            } else if fetch && k == i + 2 {
                Action::Read(Register::Cinstrdat1)
            } else {
                Action::Return(Ok(()))
            }
            &&& run(op, values.take(k)).done() <==> action == Action::Return(Ok(()))
            &&& fetch && k >= i + 2 ==> run(op, values.take(k)).dat0 == values[i + 1]
            &&& fetch && k >= i + 3 ==> run(op, values.take(k)).dat1 == values[i + 2]
        }),
    decreases k,
{
    let op = OperationState::start(script, mode, fetch);
    if k == i + 1 {
        lemma_script(op, values.take(i));
        lemma_fetch(op, values.take(i));
        lemma_step(op, values, i);
    } else {
        law_after_ready(script, mode, fetch, values, i, k - 1);
        lemma_script(op, values.take(k - 1));
        lemma_fetch(op, values.take(k - 1));
        lemma_step(op, values, k - 1);
    }
}

/// An operation that was given up first performs what is left of its writes, in order.
pub proof fn law_abandon_keeps_script(op: OperationState, values: Seq<u32>, i: int)
    requires
        0 <= i < op.script.len(),
        i <= values.len(),
    ensures
        action_at(op.cancel(), values, i) == op.script[i],
{
    lemma_script(op.cancel(), values.take(i));
}

/// An operation that was given up while it waited reads `EVENTS_READY` until it finds
/// the event, and returns then. It reads no data.
pub proof fn law_abandoned_trace(op: OperationState, values: Seq<u32>)
    requires
        op.script.len() == 0,
        !op.done(),
    ensures
        ({
            let s = run(op.cancel(), values);
            let found = exists|i: int| 0 <= i < values.len() && #[trigger] values[i] != 0;
            &&& s.action() == if found {
                Action::Return(Ok(()))
            } else {
                Action::Read(Register::EventsReady)
            }
            &&& s.done() <==> found
            &&& s.dat0 == op.dat0
            &&& s.dat1 == op.dat1
        }),
    decreases values.len(),
{
    lemma_script(op.cancel(), values);
    if values.len() > 0 {
        let prefix = values.drop_last();
        law_abandoned_trace(op, prefix);
        lemma_script(op.cancel(), prefix);
        lemma_blocking(op.cancel(), prefix);
        lemma_fetch(op.cancel(), prefix);
        if exists|i: int| 0 <= i < prefix.len() && #[trigger] prefix[i] != 0 {
            let i = choose|i: int| 0 <= i < prefix.len() && #[trigger] prefix[i] != 0;
            assert(values[i] != 0);
        } else if values.last() != 0 {
            assert(values[values.len() - 1] != 0);
        } else {
            assert forall|i: int| 0 <= i < values.len() implies #[trigger] values[i] == 0 by {
                if i < prefix.len() {
                    assert(prefix[i] == 0);
                }
            }
        }
    }
}

proof fn lemma_fetch(op: OperationState, values: Seq<u32>)
    ensures
        run(op, values).fetch == op.fetch,
    decreases values.len(),
{
    if values.len() > 0 {
        lemma_fetch(op, values.drop_last());
    }
}

} // verus!
