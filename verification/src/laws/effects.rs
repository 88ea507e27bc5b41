//! Laws of what requests make the peripheral do.

use crate::action::{Action, Register, Signal};
use crate::config::Config;
use crate::driver::{
    activate_script, custom_len, custom_script, erase_script, in_bounds, interface_script,
    pin_script, pins_script, read_script, setup_script, transfer_aligned, transfer_state,
    write_script, Buffer, PinSelect,
};
use crate::laws::device::{
    lemma_after_concat, lemma_after_five, lemma_after_six, lemma_after_step, lemma_after_three, only_writes, writes_once, Device, Job,
};
use crate::laws::operations::{law_script_in_order, lemma_script_performed, run};
use crate::laws::settings::{
    configures_clock, configures_durations, configures_interface, configures_timing,
    law_clock_fields, law_duration_fields, law_interface_fields, law_timing_field,
};
use crate::operation::{Mode, OperationState};
use vstd::prelude::*;

verus! {

/// What the actions of an operation have made of a device.
pub open spec fn device_after(op: OperationState, values: Seq<u32>, d: Device) -> Device
    decreases values.len(),
{
    if values.len() == 0 {
        d
    } else {
        device_after(op, values.drop_last(), d).step(run(op, values.drop_last()).action())
    }
}

/// What an operation does to the peripheral is what its script does: the wait, and the
/// reads of the data registers, add nothing.
pub proof fn law_run_effect(
    script: Seq<Action>,
    mode: Mode,
    fetch: bool,
    values: Seq<u32>,
    d: Device,
)
    ensures
        device_after(OperationState::start(script, mode, fetch), values, d) == if values.len()
            < script.len() {
            d.after(script.take(values.len() as int))
        } else {
            d.after(script)
        },
    decreases values.len(),
{
    let op = OperationState::start(script, mode, fetch);
    if values.len() == 0 {
        assert(script.take(0).len() == 0);
        if script.len() == 0 {
            assert(d.after(script) == d);
        }
    } else {
        let prefix = values.drop_last();
        let n = values.len() - 1;
        law_run_effect(script, mode, fetch, prefix, d);
        assert(values.take(n) == prefix);
        if n < script.len() {
            law_script_in_order(script, mode, fetch, values, n);
            lemma_after_step(d, script, n);
            if n + 1 == script.len() {
                assert(script.take(n + 1) == script);
            }
        } else {
            lemma_wait_has_no_effect(op, prefix);
        }
    }
}

/// After its script, an operation performs nothing that changes a device.
proof fn lemma_wait_has_no_effect(op: OperationState, values: Seq<u32>)
    requires
        values.len() >= op.script.len(),
    ensures
        forall|d: Device| #[trigger] d.step(run(op, values).action()) == d,
{
    lemma_script_performed(op, values);
}

/// A read makes the peripheral copy from the flash address to the caller's buffer,
/// once, as many bytes as the count field can hold of the buffer's length, and
/// touches no register beyond those of a read.
pub proof fn law_read_fills_buffer(address: u32, data: Buffer, d: Device)
    ensures
        only_writes(read_script(address, data)),
        writes_once(read_script(address, data)),
        ({
            let e = d.after(read_script(address, data));
            &&& e.jobs == d.jobs.push(
                Job::Read {
                    flash: address,
                    ram: data.address,
                    count: (data.len as int % 0x4_0000) as u32,
                },
            )
            &&& forall|r: Register|
                !(r is ReadSrc || r is ReadDst || r is ReadCnt || r is EventsReady || r is Intenset
                    || r is TasksReadstart) ==> #[trigger] e.regs[r] == d.regs[r]
        }),
{
    lemma_after_six(d, read_script(address, data));
}

/// A write makes the peripheral copy from the caller's buffer to the flash address,
/// once, as many bytes as the count field can hold of the buffer's length, and
/// touches no register beyond those of a write.
pub proof fn law_write_takes_buffer(address: u32, data: Buffer, d: Device)
    ensures
        only_writes(write_script(address, data)),
        writes_once(write_script(address, data)),
        ({
            let e = d.after(write_script(address, data));
            &&& e.jobs == d.jobs.push(
                Job::Write {
                    flash: address,
                    ram: data.address,
                    count: (data.len as int % 0x4_0000) as u32,
                },
            )
            &&& forall|r: Register|
                !(r is WriteSrc || r is WriteDst || r is WriteCnt || r is EventsReady
                    || r is Intenset || r is TasksWritestart) ==> #[trigger] e.regs[r] == d.regs[r]
        }),
{
    lemma_after_six(d, write_script(address, data));
}

/// An erase makes the peripheral erase the 4096 bytes from the address on, once,
/// and touches no register beyond those of an erase.
pub proof fn law_erase_one_sector(address: u32, d: Device)
    ensures
        only_writes(erase_script(address)),
        writes_once(erase_script(address)),
        ({
            let e = d.after(erase_script(address));
            &&& e.jobs == d.jobs.push(Job::Erase { start: address, size: 4096 })
            &&& e.regs[Register::EraseLen] == 0
            &&& forall|r: Register|
                !(r is ErasePtr || r is EraseLen || r is EventsReady || r is Intenset
                    || r is TasksErasestart) ==> #[trigger] e.regs[r] == d.regs[r]
        }),
{
    lemma_after_five(d, erase_script(address));
}

/// A custom instruction sends one instruction: the opcode, a length of one more than
/// `len` modulo 16, data lines 2 and 3 high, a wait for a write in progress and a
/// write enable before it, no long frame mode, and the request's bytes in order, the
/// lowest first, with zeros behind them.
pub proof fn law_instruction_sent(opcode: u8, req: Seq<u8>, len: int, d: Device)
    requires
        req.len() <= 8,
        0 <= len < 255,
    ensures
        only_writes(custom_script(opcode, req, len)),
        writes_once(custom_script(opcode, req, len)),
        ({
            let e = d.after(custom_script(opcode, req, len));
            let job = e.jobs.last();
            &&& e.jobs.len() == d.jobs.len() + 1
            &&& e.jobs.drop_last() == d.jobs
            &&& job matches Job::Instruct { conf, dat0, dat1 } && {
                &&& conf as int % 0x100 == opcode
                &&& conf as int / 0x100 % 0x10 == (len + 1) % 16
                &&& conf as int / 0x1000 == 0xf
                &&& forall|i: u32|
                    i < 4 ==> #[trigger] ((dat0 >> (8u32 * i) as u32) & 0xff) == (if (i as int)
                        < req.len() {
                        req[i as int] as u32
                    } else {
                        0
                    })
                &&& forall|i: u32|
                    i < 4 ==> #[trigger] ((dat1 >> (8u32 * i) as u32) & 0xff) == (if 4 + i
                        < req.len() {
                        req[4 + i] as u32
                    } else {
                        0
                    })
            }
            &&& forall|r: Register|
                !(r is Cinstrdat0 || r is Cinstrdat1 || r is Cinstrconf || r is EventsReady
                    || r is Intenset) ==> #[trigger] e.regs[r] == d.regs[r]
        }),
{
    lemma_after_five(d, custom_script(opcode, req, len));
    lemma_word_bytes(req, 0);
    lemma_word_bytes(req, 4);
    let e = d.after(custom_script(opcode, req, len));
    assert(e.jobs.drop_last() == d.jobs);
}

/// Each byte of a packed word, taken out by shift and mask.
proof fn lemma_word_bytes(req: Seq<u8>, start: int)
    requires
        0 <= start,
    ensures
        ({
            let w = crate::words::word_at(req, start);
            &&& 0 <= w <= u32::MAX
            &&& forall|i: u32|
                i < 4 ==> #[trigger] ((w as u32 >> (8u32 * i) as u32) & 0xff) == (if start + i
                    < req.len() {
                    req[start + i] as u32
                } else {
                    0
                })
        }),
{
    let byte = |i: int| -> u32 { if start + i < req.len() { req[start + i] as u32 } else { 0u32 } };
    let (b0, b1, b2, b3) = (byte(0), byte(1), byte(2), byte(3));
    let sum = b0 + 0x100 * b1 + 0x1_0000 * b2 + 0x100_0000 * b3;
    assert(crate::words::word_at(req, start) == sum);
    let w = sum as u32;
    assert(w == sum);
    assert((w >> 0) & 0xff == b0 && (w >> 8) & 0xff == b1 && (w >> 16) & 0xff == b2 && (w >> 24)
        & 0xff == b3) by (bit_vector)
        requires
            w == b0 + 0x100 * b1 + 0x1_0000 * b2 + 0x100_0000 * b3,
            b0 <= 0xff,
            b1 <= 0xff,
            b2 <= 0xff,
            b3 <= 0xff,
    ;
    assert forall|i: u32| i < 4 implies #[trigger] ((w >> (8u32 * i) as u32) & 0xff) == (if start
        + i < req.len() {
        req[start + i] as u32
    } else {
        0
    }) by {
        if i == 0 {
        } else if i == 1 {
        } else if i == 2 {
        } else {
        }
    }
}

/// A custom instruction carries the longer of request and response.
pub proof fn law_longer_counts(req_len: int, resp_len: int)
    requires
        0 <= req_len,
        0 <= resp_len,
    ensures
        custom_len(req_len, resp_len) == custom_len(resp_len, req_len),
        req_len >= resp_len ==> custom_len(req_len, resp_len) == req_len % 256,
        resp_len >= req_len ==> custom_len(req_len, resp_len) == resp_len % 256,
{
}

/// A transfer is in bounds exactly if each of its bytes is in the flash, and, where
/// it has none, its address is not beyond the end.
pub proof fn law_bounds_are_bytewise(capacity: u32, address: u32, len: usize)
    ensures
        len > 0 ==> (in_bounds(capacity, address, len) <==> forall|i: int|
            0 <= i < len ==> #[trigger] (address + i) < capacity),
        len == 0 ==> (in_bounds(capacity, address, len) <==> address <= capacity),
{
    if len > 0 && !in_bounds(capacity, address, len) {
        let i = len - 1;
        assert(!((address + i) < capacity));
    }
}

/// A transfer is aligned exactly if the two low bits of flash address, RAM address
/// and length are clear.
pub proof fn law_alignment_is_words(address: u32, data: Buffer)
    ensures
        transfer_aligned(address, data) <==> (address & 3 == 0 && data.address & 3 == 0 && data.len
            & 3 == 0),
{
    let (a, b, n) = (address, data.address, data.len);
    assert(a & 3 == a % 4) by (bit_vector);
    assert(b & 3 == b % 4) by (bit_vector);
    assert(n & 3 == n % 4) by (bit_vector);
}

/// A transfer of an empty buffer is over at once; any other performs its script.
pub proof fn law_empty_transfer_idle(script: Seq<Action>, data: Buffer, mode: Mode)
    ensures
        data.len == 0 ==> transfer_state(script, data, mode).action() == Action::Return(Ok(())),
        data.len == 0 ==> transfer_state(script, data, mode).done(),
        data.len > 0 ==> transfer_state(script, data, mode) == OperationState::start(
            script,
            mode,
            false,
        ),
{
}

/// Whether a pin configuration is an output (bit 0) with high drive at both levels
/// (3 from bit 8 on), and nothing else.
pub open spec fn strong_output(conf: u32) -> bool {
    &&& conf as int % 2 == 1
    &&& conf as int / 2 % 0x80 == 0
    &&& conf as int / 0x100 == 3
}

/// Whether a signal is on its pin: driven high, configured, and selected.
pub open spec fn routed(d: Device, signal: Signal, psel: u32) -> bool {
    &&& d.high.contains(signal)
    &&& strong_output(d.pin_conf[signal])
    &&& d.regs[Register::Psel(signal)] == psel
}

proof fn lemma_pin(d: Device, signal: Signal, psel: u32)
    ensures
        ({
            let e = d.after(pin_script(signal, psel));
            &&& routed(e, signal, psel)
            &&& e == Device {
                regs: d.regs.insert(Register::Psel(signal), psel),
                high: d.high.insert(signal),
                pin_conf: d.pin_conf.insert(signal, e.pin_conf[signal]),
                ..d
            }
        }),
{
    lemma_after_three(d, pin_script(signal, psel));
}

proof fn lemma_pins(d: Device, pins: PinSelect)
    ensures
        ({
            let e = d.after(pins_script(pins));
            &&& routed(e, Signal::Sck, pins.sck)
            &&& routed(e, Signal::Csn, pins.csn)
            &&& routed(e, Signal::Io0, pins.io0)
            &&& routed(e, Signal::Io1, pins.io1)
            &&& routed(e, Signal::Io2, pins.io2)
            &&& routed(e, Signal::Io3, pins.io3)
            &&& e.jobs == d.jobs
            &&& e.released == d.released
            &&& e.interrupt == d.interrupt
            &&& forall|r: Register| !(r is Psel) ==> #[trigger] e.regs[r] == d.regs[r]
        }),
{
    let s0 = pin_script(Signal::Sck, pins.sck);
    let s1 = pin_script(Signal::Csn, pins.csn);
    let s2 = pin_script(Signal::Io0, pins.io0);
    let s3 = pin_script(Signal::Io1, pins.io1);
    let s4 = pin_script(Signal::Io2, pins.io2);
    let s5 = pin_script(Signal::Io3, pins.io3);
    lemma_after_concat(d, s0 + s1 + s2 + s3 + s4, s5);
    lemma_after_concat(d, s0 + s1 + s2 + s3, s4);
    lemma_after_concat(d, s0 + s1 + s2, s3);
    lemma_after_concat(d, s0 + s1, s2);
    lemma_after_concat(d, s0, s1);
    let d0 = d.after(s0);
    let d1 = d0.after(s1);
    let d2 = d1.after(s2);
    let d3 = d2.after(s3);
    let d4 = d3.after(s4);
    lemma_pin(d, Signal::Sck, pins.sck);
    lemma_pin(d0, Signal::Csn, pins.csn);
    lemma_pin(d1, Signal::Io0, pins.io0);
    lemma_pin(d2, Signal::Io1, pins.io1);
    lemma_pin(d3, Signal::Io2, pins.io2);
    lemma_pin(d4, Signal::Io3, pins.io3);
}

proof fn lemma_interface(d: Device, config: Config)
    ensures
        ({
            let e = d.after(interface_script(config));
            &&& configures_interface(e.regs[Register::Ifconfig0], config)
            &&& configures_clock(e.regs[Register::Ifconfig1], config)
            &&& configures_timing(e.regs[Register::Iftiming], config)
            &&& e.regs[Register::Xipoffset] == config.xip_offset
            &&& match config.deep_power_down {
                Some(dpd) => configures_durations(e.regs[Register::Dpmdur], dpd),
                None => e.regs[Register::Dpmdur] == d.regs[Register::Dpmdur],
            }
            &&& e == Device { regs: e.regs, ..d }
            &&& forall|r: Register|
                !(r is Ifconfig0 || r is Ifconfig1 || r is Iftiming || r is Xipoffset
                    || r is Dpmdur) ==> #[trigger] e.regs[r] == d.regs[r]
        }),
{
    law_interface_fields(config);
    law_clock_fields(config);
    law_timing_field(config);
    let script = interface_script(config);
    match config.deep_power_down {
        Some(dpd) => {
            law_duration_fields(dpd);
            lemma_after_five(d, script);
        },
        None => {
            lemma_after_three(d, script.take(3));
            lemma_after_step(d, script, 3);
            assert(script.take(4) == script);
        },
    }
}

/// Bringing the peripheral up routes each signal to its pin, puts each setting into
/// its register, enables the interrupt line and the peripheral, and then activates
/// the interface, once, with all of that in place. Nothing else is written.
pub proof fn law_setup_in_place(pins: PinSelect, config: Config, d: Device)
    ensures
        ({
            let e = d.after(setup_script(pins, config));
            let job = e.jobs.last();
            &&& routed(e, Signal::Sck, pins.sck)
            &&& routed(e, Signal::Csn, pins.csn)
            &&& routed(e, Signal::Io0, pins.io0)
            &&& routed(e, Signal::Io1, pins.io1)
            &&& routed(e, Signal::Io2, pins.io2)
            &&& routed(e, Signal::Io3, pins.io3)
            &&& e.interrupt
            &&& e.released == d.released
            &&& e.jobs.len() == d.jobs.len() + 1
            &&& e.jobs.drop_last() == d.jobs
            &&& job matches Job::Activate { regs } && {
                &&& e.regs == regs.insert(Register::TasksActivate, 1)
                &&& regs[Register::Psel(Signal::Sck)] == pins.sck
                &&& regs[Register::Psel(Signal::Csn)] == pins.csn
                &&& regs[Register::Psel(Signal::Io0)] == pins.io0
                &&& regs[Register::Psel(Signal::Io1)] == pins.io1
                &&& regs[Register::Psel(Signal::Io2)] == pins.io2
                &&& regs[Register::Psel(Signal::Io3)] == pins.io3
                &&& configures_interface(regs[Register::Ifconfig0], config)
                &&& configures_clock(regs[Register::Ifconfig1], config)
                &&& configures_timing(regs[Register::Iftiming], config)
                &&& regs[Register::Xipoffset] == config.xip_offset
                &&& match config.deep_power_down {
                    Some(dpd) => configures_durations(regs[Register::Dpmdur], dpd),
                    None => regs[Register::Dpmdur] == d.regs[Register::Dpmdur],
                }
                &&& regs[Register::Enable] == 1
                &&& regs[Register::EventsReady] == 0
                &&& regs[Register::Intenset] == 1
                &&& forall|r: Register|
                    !(r is Psel || r is Ifconfig0 || r is Ifconfig1 || r is Iftiming
                        || r is Xipoffset || r is Dpmdur || r is Enable || r is EventsReady
                        || r is Intenset) ==> #[trigger] regs[r] == d.regs[r]
            }
        }),
{
    let (s1, s2, s3) = (pins_script(pins), interface_script(config), activate_script());
    lemma_after_concat(d, s1 + s2, s3);
    lemma_after_concat(d, s1, s2);
    let d1 = d.after(s1);
    let d2 = d1.after(s2);
    lemma_pins(d, pins);
    lemma_interface(d1, config);
    lemma_after_six(d2, s3);
    let e = d.after(setup_script(pins, config));
    assert(e.jobs.drop_last() == d.jobs);
}

/// Place of a signal in the order in which signals are routed.
pub open spec fn signal_rank(signal: Signal) -> int {
    match signal {
        Signal::Sck => 0,
        Signal::Csn => 1,
        Signal::Io0 => 2,
        Signal::Io1 => 3,
        Signal::Io2 => 4,
        Signal::Io3 => 5,
    }
}

/// Place of an action in the order of bringing the peripheral up, or -1 if it has
/// none: each pin is driven high before it becomes an output, and selected after;
/// the interface is configured next; the interrupt line is cleared and enabled; the
/// peripheral is enabled, the event armed, and the interface activated.
pub open spec fn setup_rank(action: Action) -> int {
    match action {
        Action::SetHigh(signal) => 3 * signal_rank(signal),
        Action::ConfigurePin(signal, _) => 3 * signal_rank(signal) + 1,
        Action::Write(Register::Psel(signal), _) => 3 * signal_rank(signal) + 2,
        Action::Write(Register::Ifconfig0, _) => 18,
        Action::Write(Register::Dpmdur, _) => 19,
        Action::Write(Register::Ifconfig1, _) => 20,
        Action::Write(Register::Iftiming, _) => 21,
        Action::Write(Register::Xipoffset, _) => 22,
        Action::UnpendInterrupt => 23,
        Action::EnableInterrupt => 24,
        Action::Write(Register::Enable, _) => 25,
        Action::Write(Register::EventsReady, _) => 26,
        Action::Write(Register::Intenset, _) => 27,
        Action::Write(Register::TasksActivate, _) => 28,
        _ => -1,
    }
}

/// Bringing the peripheral up takes its actions in order, each once. Only the
/// durations of deep power-down mode are left out where it is disabled.
pub proof fn law_setup_order(pins: PinSelect, config: Config)
    ensures
        ({
            let script = setup_script(pins, config);
            &&& script.len() == if config.deep_power_down is Some {
                29int
            } else {
                28
            }
            &&& forall|i: int|
                0 <= i < script.len() ==> setup_rank(#[trigger] script[i]) == if i < 19
                    || config.deep_power_down is Some {
                    i
                } else {
                    i + 1
                }
        }),
{
    let script = setup_script(pins, config);
    let (s1, s2, s3) = (pins_script(pins), interface_script(config), activate_script());
    assert forall|i: int| 0 <= i < script.len() implies setup_rank(#[trigger] script[i]) == if i
        < 19 || config.deep_power_down is Some {
        i
    } else {
        i + 1
    } by {
        if i < 18 {
            assert(script[i] == s1[i]);
        } else if i < 18 + s2.len() {
            assert(script[i] == s2[i - 18]);
        } else {
            assert(script[i] == s3[i - 18 - s2.len()]);
        }
    }
}

} // verus!
