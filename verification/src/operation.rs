//! One operation of the peripheral, from the first register write to the result.
//!
//! An [`Operation`] first has its register writes performed, in order; the last
//! of them starts a task of the peripheral. It then waits for the READY event:
//! a blocking operation reads `EVENTS_READY` over and over, an asynchronous one
//! registers a waker, reads `EVENTS_READY` once, and yields until it is woken. A
//! custom instruction reads its two data registers at the end.

use crate::action::{Action, Register};
use vstd::prelude::*;

verus! {

/// How an operation waits for the READY event.
#[derive(Copy, Clone, Debug, PartialEq, Eq, Structural)]
pub enum Mode {
    /// Spin on `EVENTS_READY`.
    Blocking,
    /// Yield until the interrupt wakes the task.
    Async,
}

/// Where an operation stands once its register writes are done.
#[derive(Copy, Clone, Debug, PartialEq, Eq, Structural)]
pub enum Phase {
    /// The waker is to be registered.
    Register,
    /// `EVENTS_READY` is to be read.
    Poll,
    /// The event had not occurred; the task is to be woken.
    Parked,
    /// `CINSTRDAT0` is to be read.
    FetchLow,
    /// `CINSTRDAT1` is to be read.
    FetchHigh,
    /// The operation is complete.
    Done,
}

/// State of an operation.
#[verifier::ext_equal]
pub struct OperationState {
    /// Actions that are still to be performed before the wait.
    pub script: Seq<Action>,
    /// How the operation waits.
    pub mode: Mode,
    /// Where the operation stands once `script` is empty.
    pub phase: Phase,
    /// Whether the data registers are read at the end.
    pub fetch: bool,
    /// The value read from `CINSTRDAT0`.
    pub dat0: u32,
    /// The value read from `CINSTRDAT1`.
    pub dat1: u32,
}

impl OperationState {
    /// An operation that performs `script` and then waits.
    pub open spec fn start(script: Seq<Action>, mode: Mode, fetch: bool) -> OperationState {
        OperationState {
            script,
            mode,
            phase: match mode {
                Mode::Blocking => Phase::Poll,
                Mode::Async => Phase::Register,
            },
            fetch,
            dat0: 0,
            dat1: 0,
        }
    }

    /// An operation with nothing to do.
    pub open spec fn complete(mode: Mode) -> OperationState {
        OperationState {
            phase: Phase::Done,
            ..OperationState::start(Seq::empty(), mode, false)
        }
    }

    /// Whether the operation is complete.
    pub open spec fn done(self) -> bool {
        self.script.len() == 0 && self.phase is Done
    }

    /// The action that is due.
    pub open spec fn action(self) -> Action {
        if self.script.len() > 0 {
            self.script[0]
        } else {
            match self.phase {
                Phase::Register => Action::RegisterWaker,
                Phase::Poll => Action::Read(Register::EventsReady),
                Phase::Parked => Action::Yield,
                Phase::FetchLow => Action::Read(Register::Cinstrdat0),
                Phase::FetchHigh => Action::Read(Register::Cinstrdat1),
                Phase::Done => Action::Return(Ok(())),
            }
        }
    }

    /// The state after the action that is due was performed and gave `value`.
    pub open spec fn advance(self, value: u32) -> OperationState {
        if self.script.len() > 0 {
            OperationState { script: self.script.skip(1), ..self }
        } else {
            match self.phase {
                Phase::Register => OperationState { phase: Phase::Poll, ..self },
                Phase::Poll => OperationState {
                    phase: if value != 0 {
                        if self.fetch {
                            Phase::FetchLow
                        } else {
                            Phase::Done
                        }
                    } else if self.mode is Blocking {
                        Phase::Poll
                    } else {
                        Phase::Parked
                    },
                    ..self
                },
                Phase::Parked => OperationState { phase: Phase::Register, ..self },
                Phase::FetchLow => OperationState { phase: Phase::FetchHigh, dat0: value, ..self },
                Phase::FetchHigh => OperationState { phase: Phase::Done, dat1: value, ..self },
                Phase::Done => self,
            }
        }
    }

    /// The state after the caller gave the operation up.
    ///
    /// The peripheral may still be at work on the caller's buffer, so what is
    /// left is to spin until the READY event; the data registers are not read.
    pub open spec fn cancel(self) -> OperationState {
        if self.done() {
            self
        } else {
            OperationState { mode: Mode::Blocking, phase: Phase::Poll, fetch: false, ..self }
        }
    }
}

/// An operation of the peripheral.
pub struct Operation {
    script: Vec<Action>,
    next: usize,
    mode: Mode,
    phase: Phase,
    fetch: bool,
    dat0: u32,
    dat1: u32,
}

impl View for Operation {
    type V = OperationState;

    closed spec fn view(&self) -> OperationState {
        OperationState {
            script: if self.next <= self.script@.len() {
                self.script@.skip(self.next as int)
            } else {
                Seq::empty()
            },
            mode: self.mode,
            phase: self.phase,
            fetch: self.fetch,
            dat0: self.dat0,
            dat1: self.dat1,
        }
    }
}

impl Operation {
    /// Makes an operation that performs `script`, waits, and reads the data
    /// registers if `fetch` says so.
    pub(crate) fn start(script: Vec<Action>, mode: Mode, fetch: bool) -> (op: Self)
        ensures
            op@ == OperationState::start(script@, mode, fetch),
    {
        let phase = match mode {
            Mode::Blocking => Phase::Poll,
            Mode::Async => Phase::Register,
        };
        let op = Operation { script, next: 0, mode, phase, fetch, dat0: 0, dat1: 0 };
        assert(op@.script == script@);
        op
    }

    /// Makes an operation that is complete from the start.
    pub(crate) fn complete(mode: Mode) -> (op: Self)
        ensures
            op@ == OperationState::complete(mode),
    {
        let op = Operation {
            script: Vec::new(),
            next: 0,
            mode,
            phase: Phase::Done,
            fetch: false,
            dat0: 0,
            dat1: 0,
        };
        assert(op@.script == Seq::<Action>::empty());
        op
    }

    /// Whether the operation is complete.
    pub fn is_done(&self) -> (r: bool)
        ensures
            r == self@.done(),
    {
        self.next >= self.script.len() && self.phase == Phase::Done
    }

    /// The action that is due.
    pub fn action(&self) -> (action: Action)
        ensures
            action == self@.action(),
    {
        if self.next < self.script.len() {
            self.script[self.next]
        } else {
            match self.phase {
                Phase::Register => Action::RegisterWaker,
                Phase::Poll => Action::Read(Register::EventsReady),
                Phase::Parked => Action::Yield,
                Phase::FetchLow => Action::Read(Register::Cinstrdat0),
                Phase::FetchHigh => Action::Read(Register::Cinstrdat1),
                Phase::Done => Action::Return(Ok(())),
            }
        }
    }

    /// Goes on after the action that was due. `value` is what it read, if it
    /// was a read, and is of no account otherwise.
    pub fn advance(&mut self, value: u32)
        ensures
            final(self)@ == old(self)@.advance(value),
    {
        if self.next < self.script.len() {
            self.next = self.next + 1;
            assert(self@.script == old(self)@.script.skip(1));
        } else {
            match self.phase {
                Phase::Register => {
                    self.phase = Phase::Poll;
                },
                Phase::Poll => {
                    self.phase = if value != 0 {
                        if self.fetch {
                            Phase::FetchLow
                        } else {
                            Phase::Done
                        }
                    } else {
                        match self.mode {
                            Mode::Blocking => Phase::Poll,
                            Mode::Async => Phase::Parked,
                        }
                    };
                },
                Phase::Parked => {
                    self.phase = Phase::Register;
                },
                Phase::FetchLow => {
                    self.dat0 = value;
                    self.phase = Phase::FetchHigh;
                },
                Phase::FetchHigh => {
                    self.dat1 = value;
                    self.phase = Phase::Done;
                },
                Phase::Done => {},
            }
        }
    }

    /// Gives the operation up before it is complete, as when the future that
    /// drives it is dropped.
    pub fn cancel(&mut self)
        ensures
            final(self)@ == old(self)@.cancel(),
    {
        if !self.is_done() {
            self.mode = Mode::Blocking;
            self.phase = Phase::Poll;
            self.fetch = false;
        }
    }

    /// The two data words that a custom instruction read, zero before that.
    pub fn data(&self) -> (data: (u32, u32))
        ensures
            data == (self@.dat0, self@.dat1),
    {
        (self.dat0, self.dat1)
    }
}

} // verus!
