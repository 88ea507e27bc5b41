//! Laws of the actions that start a task of the peripheral.

use crate::action::{Action, Register};
use crate::config::Config;
use crate::driver::{
    activate_script, custom_script, erase_script, in_bounds, interface_script, pins_script,
    read_script, setup_script, write_script, Buffer, PinSelect, ERASE_SIZE,
};
use crate::values::cnt_value;
use vstd::prelude::*;

verus! {

/// Whether the action starts something that the READY event will answer.
pub open spec fn is_trigger(action: Action) -> bool {
    match action {
        Action::Write(Register::TasksActivate, _) => true,
        Action::Write(Register::TasksReadstart, _) => true,
        Action::Write(Register::TasksWritestart, _) => true,
        Action::Write(Register::TasksErasestart, _) => true,
        Action::Write(Register::Cinstrconf, _) => true,
        _ => false,
    }
}

/// Whether the action writes `EVENTS_READY` or changes the enabled interrupts.
pub open spec fn is_arming(action: Action) -> bool {
    match action {
        Action::Write(Register::EventsReady, _) => true,
        Action::Write(Register::Intenset, _) => true,
        Action::Write(Register::Intenclr, _) => true,
        _ => false,
    }
}

/// Whether a script ends by clearing the READY event, enabling its interrupt, and
/// starting one task, in this order, and does nothing of the kind before.
pub open spec fn well_armed(script: Seq<Action>) -> bool {
    let n = script.len();
    &&& n >= 3
    &&& script[n - 3] == Action::Write(Register::EventsReady, 0)
    &&& script[n - 2] == Action::Write(Register::Intenset, 1)
    &&& is_trigger(script[n - 1])
    &&& forall|i: int|
        0 <= i < n - 3 ==> !is_trigger(#[trigger] script[i]) && !is_arming(script[i])
}

/// Every request clears the READY event and enables its interrupt before it
/// starts its one task: neither a stale event nor an early one can mislead the wait.
pub proof fn law_requests_well_armed(
    pins: PinSelect,
    config: Config,
    address: u32,
    data: Buffer,
    opcode: u8,
    req: Seq<u8>,
    len: int,
)
    ensures
        well_armed(setup_script(pins, config)),
        well_armed(read_script(address, data)),
        well_armed(write_script(address, data)),
        well_armed(erase_script(address)),
        well_armed(custom_script(opcode, req, len)),
{
    let head = pins_script(pins) + interface_script(config);
    let setup = setup_script(pins, config);
    assert(setup == head + activate_script());
    assert forall|i: int| 0 <= i < setup.len() - 3 implies !is_trigger(#[trigger] setup[i])
        && !is_arming(setup[i]) by {
        if i < pins_script(pins).len() {
            assert(setup[i] == pins_script(pins)[i]);
        } else if i < head.len() {
            assert(setup[i] == interface_script(config)[i - pins_script(pins).len()]);
        } else {
            assert(setup[i] == activate_script()[i - head.len()]);
        }
    }
}

/// A transfer of less than 256 KiB moves as many bytes as its buffer holds.
pub proof fn law_count_is_length(address: u32, data: Buffer)
    requires
        data.len < 0x4_0000,
    ensures
        read_script(address, data)[2] == Action::Write(Register::ReadCnt, data.len as u32),
        write_script(address, data)[2] == Action::Write(Register::WriteCnt, data.len as u32),
{
}

/// A checked transfer stays within the flash: its byte count fits behind its
/// address, whatever the length of the buffer.
pub proof fn law_checked_transfer_in_flash(capacity: u32, address: u32, data: Buffer)
    requires
        in_bounds(capacity, address, data.len),
    ensures
        address + cnt_value(data.len as int) <= capacity,
{
}

/// In a flash of whole sectors, a sector that starts within the flash ends within it.
pub proof fn law_erase_in_flash(capacity: u32, address: u32)
    requires
        capacity % ERASE_SIZE == 0,
        address % ERASE_SIZE == 0,
        address < capacity,
    ensures
        address + ERASE_SIZE <= capacity,
{
}

} // verus!
