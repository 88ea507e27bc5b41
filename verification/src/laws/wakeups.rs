//! Laws of the interplay of a waiting task, the peripheral, and the interrupt
//! handler.

use crate::action::{Action, Register};
use crate::interrupt::interrupt_script;
use crate::laws::scripts::{is_arming, is_trigger, well_armed};
use crate::operation::{Mode, OperationState};
use vstd::prelude::*;

verus! {

/// A task that performs an operation, and what its actions act on.
pub struct System {
    /// The operation that the task performs.
    pub op: OperationState,
    /// Whether the peripheral is at work.
    pub busy: bool,
    /// Whether `EVENTS_READY` says that the event has occurred.
    pub event: bool,
    /// Whether the interrupt of the event is enabled.
    pub enabled: bool,
    /// Whether the task's waker is registered.
    pub waker: bool,
    /// Whether the task was woken since it yielded.
    pub woken: bool,
}

/// What can happen next.
pub enum Move {
    /// The task performs the action that is due.
    Task,
    /// The peripheral finishes its work.
    Peripheral,
    /// The interrupt handler runs.
    Interrupt,
    /// The task gives the operation up.
    Abandon,
}

impl System {
    /// What `EVENTS_READY` holds.
    pub open spec fn events_ready(self) -> u32 {
        if self.event {
            1
        } else {
            0
        }
    }

    /// The effect of an action on all but the operation.
    pub open spec fn perform(self, action: Action) -> System {
        match action {
            Action::Write(Register::EventsReady, value) => System { event: value != 0, ..self },
            Action::Write(Register::Intenset, value) => System {
                enabled: self.enabled || value % 2 == 1,
                ..self
            },
            Action::Write(Register::Intenclr, value) => System {
                enabled: self.enabled && value % 2 == 0,
                ..self
            },
            Action::RegisterWaker => System { waker: true, ..self },
            Action::Wake => System { woken: self.woken || self.waker, ..self },
            Action::Yield => System { woken: false, ..self },
            _ => System { busy: self.busy || is_trigger(action), ..self },
        }
    }

    /// The effect of a sequence of actions.
    pub open spec fn perform_all(self, actions: Seq<Action>) -> System
        decreases actions.len(),
    {
        if actions.len() == 0 {
            self
        } else {
            self.perform_all(actions.drop_last()).perform(actions.last())
        }
    }

    /// Whether a move is possible. A task that has yielded goes on only when it
    /// was woken; the interrupt comes when the event has occurred and it is enabled;
    /// and an operation can be given up only where it yields.
    pub open spec fn can(self, m: Move) -> bool {
        match m {
            Move::Task => !self.op.done() && (self.op.action() == Action::Yield ==> self.woken),
            Move::Peripheral => self.busy,
            Move::Interrupt => self.event && self.enabled,
            Move::Abandon => self.parked(),
        }
    }

    /// The effect of a move that is possible. One that is not has no effect.
    pub open spec fn step(self, m: Move) -> System {
        if !self.can(m) {
            self
        } else {
            match m {
                Move::Task => System {
                    op: self.op.advance(self.events_ready()),
                    ..self.perform(self.op.action())
                },
                Move::Peripheral => System { busy: false, event: true, ..self },
                Move::Interrupt => self.perform_all(interrupt_script(self.events_ready())),
                Move::Abandon => System { op: self.op.cancel(), ..self },
            }
        }
    }

    /// The effect of a sequence of moves.
    pub open spec fn run(self, moves: Seq<Move>) -> System
        decreases moves.len(),
    {
        if moves.len() == 0 {
            self
        } else {
            self.run(moves.drop_last()).step(moves.last())
        }
    }

    /// Whether the task has yielded and waits to be woken.
    pub open spec fn parked(self) -> bool {
        self.op.script.len() == 0 && self.op.phase is Parked
    }
}

/// What holds of a system whose task has performed `k` actions of `script`.
spec fn consistent(s: System, script: Seq<Action>, k: int) -> bool {
    let n = script.len();
    &&& 0 <= k <= n
    &&& s.op.script == script.skip(k)
    &&& s.op.mode is Blocking ==> !(s.op.phase is Register) && !(s.op.phase is Parked)
    &&& k < n ==> !s.busy && (if s.op.mode is Async {
        s.op.phase is Register
    } else {
        s.op.phase is Poll
    })
    &&& k == n - 2 || k == n - 1 ==> !s.event
    &&& k == n - 1 ==> s.enabled
    &&& k == n ==> {
        &&& s.busy == !s.event
        &&& !s.event ==> s.enabled
        &&& s.op.mode is Async && s.op.phase is Poll ==> s.waker
        &&& s.op.phase is Parked ==> s.waker
        &&& s.op.phase is Parked && s.event ==> s.enabled || s.woken
        &&& s.op.phase is FetchLow || s.op.phase is FetchHigh || s.op.phase is Done ==> s.event
    }
}

proof fn lemma_interrupt(s: System)
    requires
        s.event,
    ensures
        s.perform_all(interrupt_script(s.events_ready())) == (System {
            woken: s.woken || s.waker,
            enabled: false,
            ..s
        }),
{
    let script = interrupt_script(s.events_ready());
    assert(script.drop_last() == seq![Action::Wake]);
    assert(script.drop_last().drop_last() == Seq::<Action>::empty());
    assert(s.perform_all(Seq::empty()) == s);
    assert(s.perform_all(script.drop_last()) == s.perform(Action::Wake));
}

proof fn lemma_consistent(
    s: System,
    script: Seq<Action>,
    mode: Mode,
    fetch: bool,
    moves: Seq<Move>,
) -> (k: int)
    requires
        well_armed(script),
        s.op == OperationState::start(script, mode, fetch),
        !s.busy,
    ensures
        consistent(s.run(moves), script, k),
    decreases moves.len(),
{
    let n = script.len();
    if moves.len() == 0 {
        assert(script.skip(0) == script);
        0
    } else {
        let j = lemma_consistent(s, script, mode, fetch, moves.drop_last());
        let t = s.run(moves.drop_last());
        if !t.can(moves.last()) {
            j
        } else {
            match moves.last() {
                Move::Interrupt => {
                    lemma_interrupt(t);
                    j
                },
                Move::Peripheral => j,
                Move::Abandon => {
                    assert(script.skip(j).len() == 0);
                    j
                },
                Move::Task => {
                    if j < n {
                        assert(t.op.action() == script[j]);
                        assert(script.skip(j).skip(1) == script.skip(j + 1));
                        if j < n - 3 {
                            assert(!is_trigger(script[j]) && !is_arming(script[j]));
                        }
                        j + 1
                    } else {
                        j
                    }
                },
            }
        }
    }
}

/// No wakeup is lost. In every interleaving of the task, the peripheral and the
/// interrupt handler, a task that has yielded was woken already, or the interrupt
/// that will wake it is still to come: the event has occurred or the peripheral is
/// at work on it, the interrupt is enabled, and the waker is registered.
pub proof fn law_no_lost_wakeup(system: System, script: Seq<Action>, fetch: bool, moves: Seq<Move>)
    requires
        well_armed(script),
        system.op == OperationState::start(script, Mode::Async, fetch),
        !system.busy,
    ensures
        ({
            let s = system.run(moves);
            s.parked() ==> s.woken || ((s.event || s.busy) && s.enabled && s.waker)
        }),
{
    let k = lemma_consistent(system, script, Mode::Async, fetch, moves);
    let s = system.run(moves);
    if s.parked() {
        assert(script.skip(k).len() == 0);
    }
}

/// The interrupt handler makes the wakeup happen: whatever the interleaving, a
/// parked task can go on once the interrupt has run.
pub proof fn law_interrupt_wakes(system: System, script: Seq<Action>, fetch: bool, moves: Seq<Move>)
    requires
        well_armed(script),
        system.op == OperationState::start(script, Mode::Async, fetch),
        !system.busy,
        system.run(moves).parked(),
        system.run(moves).can(Move::Interrupt),
    ensures
        system.run(moves).step(Move::Interrupt).can(Move::Task),
{
    let k = lemma_consistent(system, script, Mode::Async, fetch, moves);
    let s = system.run(moves);
    assert(script.skip(k).len() == 0);
    lemma_interrupt(s);
}

/// A complete operation leaves the peripheral idle, whether it blocked or yielded,
/// and whether or not it was given up: the buffer is free, and the next operation
/// can begin.
pub proof fn law_complete_means_idle(
    system: System,
    script: Seq<Action>,
    mode: Mode,
    fetch: bool,
    moves: Seq<Move>,
)
    requires
        well_armed(script),
        system.op == OperationState::start(script, mode, fetch),
        !system.busy,
        system.run(moves).op.done(),
    ensures
        !system.run(moves).busy,
{
    let k = lemma_consistent(system, script, mode, fetch, moves);
    assert(script.skip(k).len() == 0);
}

/// The interrupt handler does nothing unless `EVENTS_READY` holds something; whatever
/// it holds, the handler wakes the task once, and then disables the READY interrupt and
/// no other.
pub proof fn law_interrupt_acts_on_event(events_ready: u32)
    ensures
        events_ready == 0 ==> interrupt_script(events_ready).len() == 0,
        events_ready != 0 ==> {
            let script = interrupt_script(events_ready);
            &&& script.len() == 2
            &&& script[0] == Action::Wake
            &&& script[1] == Action::Write(Register::Intenclr, 1)
        },
{
}

} // verus!
