//! Erasing a range of sectors, one after the other.

use crate::action::Action;
use crate::config::Error;
use crate::driver::{erase_script, Qspi, ERASE_SIZE};
use crate::operation::{Mode, Operation, OperationState};
use vstd::prelude::*;

verus! {

/// How far the erase of a range has come.
pub enum RangeProgress {
    /// A sector is being erased.
    Erasing(OperationState),
    /// The erase is over.
    Finished(Result<(), Error>),
}

/// State of the erase of a range.
pub struct EraseRangeState {
    /// Address of the sector at hand.
    pub address: u32,
    /// End of the range, exclusive.
    pub to: u32,
    /// How each sector's erase waits.
    pub mode: Mode,
    /// How far the erase has come.
    pub progress: RangeProgress,
}

impl EraseRangeState {
    /// What becomes of the sector at `address`: it is erased if it starts within
    /// the flash, and otherwise the erase fails.
    pub open spec fn sector(capacity: u32, address: u32, mode: Mode) -> RangeProgress {
        if address < capacity {
            RangeProgress::Erasing(OperationState::start(erase_script(address), mode, false))
        } else {
            RangeProgress::Finished(Err(Error::OutOfBounds))
        }
    }

    /// The erase of `from..to`, before its first action.
    pub open spec fn start(capacity: u32, from: u32, to: u32, mode: Mode) -> EraseRangeState {
        EraseRangeState {
            address: from,
            to,
            mode,
            progress: if from < to {
                EraseRangeState::sector(capacity, from, mode)
            } else {
                RangeProgress::Finished(Ok(()))
            },
        }
    }

    /// Whether the sector at hand starts where a sector can start.
    pub open spec fn wf(self) -> bool {
        self.progress is Erasing ==> self.address % ERASE_SIZE == 0
    }

    /// Whether the erase is over.
    pub open spec fn done(self) -> bool {
        self.progress is Finished
    }

    /// The action that is due.
    pub open spec fn action(self) -> Action {
        match self.progress {
            RangeProgress::Erasing(op) => op.action(),
            RangeProgress::Finished(result) => Action::Return(result),
        }
    }

    /// The state after the action that is due was performed and gave `value`,
    /// where the flash holds `capacity` bytes.
    pub open spec fn advance(self, capacity: u32, value: u32) -> EraseRangeState {
        match self.progress {
            RangeProgress::Erasing(op) => {
                if !op.advance(value).done() {
                    EraseRangeState {
                        progress: RangeProgress::Erasing(op.advance(value)),
                        ..self
                    }
                } else if self.address + ERASE_SIZE < self.to {
                    EraseRangeState::start(
                        capacity,
                        (self.address + ERASE_SIZE) as u32,
                        self.to,
                        self.mode,
                    )
                } else {
                    EraseRangeState { progress: RangeProgress::Finished(Ok(())), ..self }
                }
            },
            RangeProgress::Finished(_) => self,
        }
    }

    /// The state after the caller gave the erase up: the sector at hand is
    /// waited for, and no other is begun.
    pub open spec fn cancel(self) -> EraseRangeState {
        match self.progress {
            RangeProgress::Erasing(op) => EraseRangeState {
                to: self.address,
                progress: RangeProgress::Erasing(op.cancel()),
                ..self
            },
            RangeProgress::Finished(_) => self,
        }
    }
}

enum Progress {
    Erasing(Operation),
    Finished(Result<(), Error>),
}

/// The erase of a range of sectors.
pub struct EraseRange {
    address: u32,
    to: u32,
    mode: Mode,
    progress: Progress,
}

impl View for EraseRange {
    type V = EraseRangeState;

    closed spec fn view(&self) -> EraseRangeState {
        EraseRangeState {
            address: self.address,
            to: self.to,
            mode: self.mode,
            progress: match self.progress {
                Progress::Erasing(op) => RangeProgress::Erasing(op@),
                Progress::Finished(result) => RangeProgress::Finished(result),
            },
        }
    }
}

impl EraseRange {
    /// Begins with the sector at `address`.
    fn start(driver: &mut Qspi, address: u32, to: u32, mode: Mode) -> (range: Self)
        requires
            address < to && address < old(driver)@.capacity ==> address % ERASE_SIZE == 0,
        ensures
            *final(driver) == *old(driver),
            range@ == EraseRangeState::start(old(driver)@.capacity, address, to, mode),
            range@.wf(),
    {
        let progress = if address < to {
            let started = match mode {
                Mode::Blocking => driver.blocking_erase(address),
                Mode::Async => driver.erase(address),
            };
            match started {
                Ok(op) => Progress::Erasing(op),
                Err(error) => Progress::Finished(Err(error)),
            }
        } else {
            Progress::Finished(Ok(()))
        };
        EraseRange { address, to, mode, progress }
    }

    /// The action that is due.
    pub fn action(&self) -> (action: Action)
        ensures
            action == self@.action(),
    {
        match &self.progress {
            Progress::Erasing(op) => op.action(),
            Progress::Finished(result) => Action::Return(*result),
        }
    }

    /// Goes on after the action that was due. `value` is what it read, if it
    /// was a read, and is of no account otherwise.
    pub fn advance(&mut self, driver: &mut Qspi, value: u32)
        requires
            old(self)@.wf(),
        ensures
            *final(driver) == *old(driver),
            final(self)@ == old(self)@.advance(old(driver)@.capacity, value),
            final(self)@.wf(),
    {
        let sector_done = match &mut self.progress {
            Progress::Erasing(op) => {
                op.advance(value);
                op.is_done()
            },
            Progress::Finished(_) => false,
        };
        if sector_done {
            if self.address < self.to && self.to - self.address > ERASE_SIZE {
                *self = Self::start(driver, self.address + ERASE_SIZE, self.to, self.mode);
            } else {
                self.progress = Progress::Finished(Ok(()));
            }
        }
    }

    /// Gives the erase up before it is over, as when the future that drives it
    /// is dropped.
    pub fn cancel(&mut self)
        ensures
            final(self)@ == old(self)@.cancel(),
    {
        match &mut self.progress {
            Progress::Erasing(op) => {
                op.cancel();
                self.to = self.address;
            },
            Progress::Finished(_) => {},
        }
    }
}

impl Qspi {
    /// Erases the sectors at `from`, `from + 4096` and so on, up to but not
    /// including `to`, and stops with an error at the first that starts beyond
    /// the flash.
    pub fn erase_range(&mut self, from: u32, to: u32) -> (range: EraseRange)
        requires
            from < to && from < old(self)@.capacity ==> from % ERASE_SIZE == 0,
        ensures
            *final(self) == *old(self),
            range@ == EraseRangeState::start(old(self)@.capacity, from, to, Mode::Async),
            range@.wf(),
    {
        EraseRange::start(self, from, to, Mode::Async)
    }

    /// Erases the sectors at `from`, `from + 4096` and so on, up to but not
    /// including `to`, and stops with an error at the first that starts beyond
    /// the flash. Blocking version.
    pub fn blocking_erase_range(&mut self, from: u32, to: u32) -> (range: EraseRange)
        requires
            from < to && from < old(self)@.capacity ==> from % ERASE_SIZE == 0,
        ensures
            *final(self) == *old(self),
            range@ == EraseRangeState::start(old(self)@.capacity, from, to, Mode::Blocking),
            range@.wf(),
    {
        EraseRange::start(self, from, to, Mode::Blocking)
    }
}

} // verus!
