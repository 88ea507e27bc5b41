//! A model of the peripheral: what the actions of the driver make it do.
//!
//! The laws that speak of this model say what happens to the flash and to RAM, and
//! not by which writes it is brought about.

use crate::action::{Action, Register, Signal};
use vstd::prelude::*;

verus! {

/// A piece of work that the peripheral was set to.
pub enum Job {
    /// Activate the interface, as the registers configure it at that moment.
    Activate { regs: Map<Register, u32> },
    /// Copy `count` bytes from `flash` in the flash to `ram` in RAM.
    Read { flash: u32, ram: u32, count: u32 },
    /// Copy `count` bytes from `ram` in RAM to `flash` in the flash.
    Write { flash: u32, ram: u32, count: u32 },
    /// Erase the `size` bytes from `start` on.
    Erase { start: u32, size: int },
    /// Send the instruction that `conf` describes, with the bytes of two words.
    Instruct { conf: u32, dat0: u32, dat1: u32 },
    /// Deactivate the interface.
    Deactivate,
}

/// The peripheral, its pins, and its interrupt line.
pub struct Device {
    /// What was last written to each register.
    pub regs: Map<Register, u32>,
    /// The work that was begun, in order.
    pub jobs: Seq<Job>,
    /// Signals whose pins were driven high.
    pub high: Set<Signal>,
    /// Configuration of the pins.
    pub pin_conf: Map<Signal, u32>,
    /// Signals whose pins were given back.
    pub released: Set<Signal>,
    /// Whether the interrupt line is enabled.
    pub interrupt: bool,
}

/// Number of bytes that a value of `ERASE.LEN` asks to be erased: 4 KiB, 64 KiB,
/// or, with no size of its own, the whole flash.
pub open spec fn block_size(len: u32) -> int {
    if len == 0 {
        0x1000
    } else if len == 1 {
        0x1_0000
    } else {
        0x1_0000_0000
    }
}

impl Device {
    /// The device with one more job begun.
    pub open spec fn begin(self, job: Job) -> Device {
        Device { jobs: self.jobs.push(job), ..self }
    }

    /// The effect of writing a register.
    pub open spec fn write(self, register: Register, value: u32) -> Device {
        let d = Device { regs: self.regs.insert(register, value), ..self };
        match register {
            Register::TasksActivate => if value == 1 {
                d.begin(Job::Activate { regs: self.regs })
            } else {
                d
            },
            Register::TasksReadstart => if value == 1 {
                d.begin(
                    Job::Read {
                        flash: self.regs[Register::ReadSrc],
                        ram: self.regs[Register::ReadDst],
                        count: self.regs[Register::ReadCnt],
                    },
                )
            } else {
                d
            },
            Register::TasksWritestart => if value == 1 {
                d.begin(
                    Job::Write {
                        flash: self.regs[Register::WriteDst],
                        ram: self.regs[Register::WriteSrc],
                        count: self.regs[Register::WriteCnt],
                    },
                )
            } else {
                d
            },
            Register::TasksErasestart => if value == 1 {
                d.begin(
                    Job::Erase {
                        start: self.regs[Register::ErasePtr],
                        size: block_size(self.regs[Register::EraseLen]),
                    },
                )
            } else {
                d
            },
            Register::TasksDeactivate => if value == 1 {
                d.begin(Job::Deactivate)
            } else {
                d
            },
            Register::Cinstrconf => d.begin(
                Job::Instruct {
                    conf: value,
                    dat0: self.regs[Register::Cinstrdat0],
                    dat1: self.regs[Register::Cinstrdat1],
                },
            ),
            _ => d,
        }
    }

    /// The effect of an action.
    pub open spec fn step(self, action: Action) -> Device {
        match action {
            Action::Write(register, value) => self.write(register, value),
            Action::SetHigh(signal) => Device { high: self.high.insert(signal), ..self },
            Action::ConfigurePin(signal, value) => Device {
                pin_conf: self.pin_conf.insert(signal, value),
                ..self
            },
            Action::DeconfigurePin(signal) => Device {
                released: self.released.insert(signal),
                ..self
            },
            Action::EnableInterrupt => Device { interrupt: true, ..self },
            _ => self,
        }
    }

    /// The effect of a sequence of actions.
    pub open spec fn after(self, actions: Seq<Action>) -> Device
        decreases actions.len(),
    {
        if actions.len() == 0 {
            self
        } else {
            self.after(actions.drop_last()).step(actions.last())
        }
    }
}

/// Whether no register is written twice.
pub open spec fn writes_once(script: Seq<Action>) -> bool {
    forall|i: int, j: int|
        #![trigger script[i], script[j]]
        0 <= i < j < script.len() ==> match (script[i], script[j]) {
            (Action::Write(a, _), Action::Write(b, _)) => a != b,
            _ => true,
        }
}

/// Whether every action is the write of a register.
pub open spec fn only_writes(script: Seq<Action>) -> bool {
    forall|i: int| 0 <= i < script.len() ==> #[trigger] script[i] is Write
}

/// One more action is one more step.
pub proof fn lemma_after_step(d: Device, script: Seq<Action>, k: int)
    requires
        0 <= k < script.len(),
    ensures
        d.after(script.take(k + 1)) == d.after(script.take(k)).step(script[k]),
{
    assert(script.take(k + 1).drop_last() == script.take(k));
}

/// The effect of three actions.
pub proof fn lemma_after_three(d: Device, script: Seq<Action>)
    requires
        script.len() == 3,
    ensures
        d.after(script) == d.step(script[0]).step(script[1]).step(script[2]),
{
    assert(d.after(script.take(0)) == d);
    lemma_after_step(d, script, 0);
    lemma_after_step(d, script, 1);
    lemma_after_step(d, script, 2);
    assert(script.take(3) == script);
}

/// The effect of five actions.
pub proof fn lemma_after_five(d: Device, script: Seq<Action>)
    requires
        script.len() == 5,
    ensures
        d.after(script) == d.step(script[0]).step(script[1]).step(script[2]).step(script[3]).step(
            script[4],
        ),
{
    lemma_after_three(d, script.take(3));
    assert(script.take(3).len() == 3);
    lemma_after_step(d, script, 3);
    lemma_after_step(d, script, 4);
    assert(script.take(5) == script);
}

/// The effect of six actions.
pub proof fn lemma_after_six(d: Device, script: Seq<Action>)
    requires
        script.len() == 6,
    ensures
        d.after(script) == d.step(script[0]).step(script[1]).step(script[2]).step(script[3]).step(
            script[4],
        ).step(script[5]),
{
    lemma_after_five(d, script.take(5));
    lemma_after_step(d, script, 5);
    assert(script.take(6) == script);
}

/// The effect of two scripts is that of the second after the first.
pub proof fn lemma_after_concat(d: Device, s1: Seq<Action>, s2: Seq<Action>)
    ensures
        d.after(s1 + s2) == d.after(s1).after(s2),
    decreases s2.len(),
{
    if s2.len() == 0 {
        assert(s1 + s2 == s1);
    } else {
        lemma_after_concat(d, s1, s2.drop_last());
        assert((s1 + s2).drop_last() == s1 + s2.drop_last());
    }
}

} // verus!
