//! Taking the peripheral down.

use crate::action::{Action, Register, Signal};
use crate::driver::Qspi;
use crate::values;
use vstd::prelude::*;

verus! {

/// Clock cycles to spin after the flash has reported deep power-down mode. The
/// report alone is not enough: some flash memories need more time.
pub const DPM_SETTLE_CYCLES: u32 = 4096;

/// How far the flash is on its way into deep power-down mode.
#[derive(Copy, Clone, Debug, PartialEq, Eq, Structural)]
pub enum Descent {
    /// `IFCONFIG1` is to be read.
    ReadConfig,
    /// This value is to be written to `IFCONFIG1`.
    Enter(u32),
    /// `STATUS` is to be read. The READY event does not fire on entering deep
    /// power-down mode, so there is nothing to do but spin.
    Poll,
    /// Deep power-down mode was reported; it is to settle.
    Settle,
    /// The flash is where it is to be.
    Reached,
}

/// State of a shutdown.
#[verifier::ext_equal]
pub struct ShutdownState {
    /// The way into deep power-down mode.
    pub descent: Descent,
    /// Actions that are still to be performed once `descent` is over.
    pub script: Seq<Action>,
}

/// Actions that deactivate and disable the peripheral.
///
/// The pin of the chip select stays as it is: a flash in deep power-down mode
/// might take a floating chip select for a request to leave it.
pub open spec fn deactivate_script() -> Seq<Action> {
    seq![
        Action::Write(Register::TasksDeactivate, 1),
        Action::Write(Register::Anomaly122, 1),
        Action::Write(Register::Enable, 0),
        Action::DeconfigurePin(Signal::Sck),
        Action::DeconfigurePin(Signal::Io0),
        Action::DeconfigurePin(Signal::Io1),
        Action::DeconfigurePin(Signal::Io2),
        Action::DeconfigurePin(Signal::Io3),
    ]
}

impl ShutdownState {
    /// A shutdown that has not begun.
    pub open spec fn start(dpm_enabled: bool) -> ShutdownState {
        ShutdownState {
            descent: if dpm_enabled {
                Descent::ReadConfig
            } else {
                Descent::Reached
            },
            script: deactivate_script(),
        }
    }

    /// Whether the shutdown is complete.
    pub open spec fn done(self) -> bool {
        self.descent is Reached && self.script.len() == 0
    }

    /// The action that is due.
    pub open spec fn action(self) -> Action {
        match self.descent {
            Descent::ReadConfig => Action::Read(Register::Ifconfig1),
            Descent::Enter(bits) => Action::Write(Register::Ifconfig1, bits),
            Descent::Poll => Action::Read(Register::Status),
            Descent::Settle => Action::Delay(DPM_SETTLE_CYCLES),
            Descent::Reached => if self.script.len() > 0 {
                self.script[0]
            } else {
                Action::Return(Ok(()))
            },
        }
    }

    /// The state after the action that is due was performed and gave `value`.
    pub open spec fn advance(self, value: u32) -> ShutdownState {
        match self.descent {
            Descent::ReadConfig => ShutdownState {
                descent: Descent::Enter(values::dpm_entered(value) as u32),
                ..self
            },
            Descent::Enter(_) => ShutdownState { descent: Descent::Poll, ..self },
            Descent::Poll => if values::dpm_active(value) {
                ShutdownState { descent: Descent::Settle, ..self }
            } else {
                self
            },
            Descent::Settle => ShutdownState { descent: Descent::Reached, ..self },
            Descent::Reached => if self.script.len() > 0 {
                ShutdownState { script: self.script.skip(1), ..self }
            } else {
                self
            },
        }
    }
}

/// The shutdown of the peripheral, which ends the driver.
pub struct Shutdown {
    descent: Descent,
    script: Vec<Action>,
    next: usize,
}

impl View for Shutdown {
    type V = ShutdownState;

    closed spec fn view(&self) -> ShutdownState {
        ShutdownState {
            descent: self.descent,
            script: if self.next <= self.script@.len() {
                self.script@.skip(self.next as int)
            } else {
                Seq::empty()
            },
        }
    }
}

impl Shutdown {
    /// Begins a shutdown, by way of deep power-down mode if that is enabled.
    pub(crate) fn start(dpm_enabled: bool) -> (shutdown: Self)
        ensures
            shutdown@ == ShutdownState::start(dpm_enabled),
    {
        let mut script: Vec<Action> = Vec::new();
        // The peripheral does not raise the READY event when it is deactivated.
        script.push(Action::Write(Register::TasksDeactivate, 1));
        script.push(Action::Write(Register::Anomaly122, 1));
        script.push(Action::Write(Register::Enable, values::enable(false)));
        script.push(Action::DeconfigurePin(Signal::Sck));
        script.push(Action::DeconfigurePin(Signal::Io0));
        script.push(Action::DeconfigurePin(Signal::Io1));
        script.push(Action::DeconfigurePin(Signal::Io2));
        script.push(Action::DeconfigurePin(Signal::Io3));
        let descent = if dpm_enabled {
            Descent::ReadConfig
        } else {
            Descent::Reached
        };
        let shutdown = Shutdown { descent, script, next: 0 };
        assert(shutdown@.script == deactivate_script());
        shutdown
    }

    /// The action that is due.
    pub fn action(&self) -> (action: Action)
        ensures
            action == self@.action(),
    {
        match self.descent {
            Descent::ReadConfig => Action::Read(Register::Ifconfig1),
            Descent::Enter(bits) => Action::Write(Register::Ifconfig1, bits),
            Descent::Poll => Action::Read(Register::Status),
            Descent::Settle => Action::Delay(DPM_SETTLE_CYCLES),
            Descent::Reached => if self.next < self.script.len() {
                self.script[self.next]
            } else {
                Action::Return(Ok(()))
            },
        }
    }

    /// Goes on after the action that was due. `value` is what it read, if it
    /// was a read, and is of no account otherwise.
    pub fn advance(&mut self, value: u32)
        ensures
            final(self)@ == old(self)@.advance(value),
    {
        match self.descent {
            Descent::ReadConfig => {
                self.descent = Descent::Enter(values::enter_dpm(value));
            },
            Descent::Enter(_) => {
                self.descent = Descent::Poll;
            },
            Descent::Poll => {
                if values::in_dpm(value) {
                    self.descent = Descent::Settle;
                }
            },
            Descent::Settle => {
                self.descent = Descent::Reached;
            },
            Descent::Reached => {
                if self.next < self.script.len() {
                    self.next = self.next + 1;
                    assert(self@.script == old(self)@.script.skip(1));
                }
            },
        }
    }
}

impl Qspi {
    /// Takes the peripheral down. The driver is of no use afterwards.
    pub fn shutdown(&mut self) -> (shutdown: Shutdown)
        ensures
            *final(self) == *old(self),
            shutdown@ == ShutdownState::start(old(self)@.dpm_enabled),
    {
        Shutdown::start(self.dpm_enabled())
    }
}

} // verus!
