//! Interrupt handler.

use crate::action::{Action, Register};
use crate::values;
use vstd::prelude::*;

verus! {

/// Interrupt handler.
pub struct InterruptHandler {}

/// What the interrupt handler does when it finds `events_ready` in
/// `EVENTS_READY`: if the event has occurred, wake the waiting task, and disable
/// the interrupt until the next operation; otherwise nothing.
pub open spec fn interrupt_script(events_ready: u32) -> Seq<Action> {
    if events_ready != 0 {
        seq![Action::Wake, Action::Write(Register::Intenclr, 1)]
    } else {
        Seq::empty()
    }
}

impl InterruptHandler {
    /// The actions that the interrupt handler performs, in order, after it has
    /// read `events_ready` from `EVENTS_READY`.
    ///
    /// The event itself is not cleared: it is what tells the woken task that its
    /// operation is complete.
    pub fn on_interrupt(events_ready: u32) -> (script: Vec<Action>)
        ensures
            script@ == interrupt_script(events_ready),
    {
        let mut script: Vec<Action> = Vec::new();
        if events_ready != 0 {
            script.push(Action::Wake);
            script.push(Action::Write(Register::Intenclr, values::int_ready()));
        }
        script
    }
}

} // verus!
