//! The driver: which operation answers which request.

use crate::action::{Action, Register, Signal};
use crate::config::{Config, Error};
use crate::operation::{Mode, Operation, OperationState};
use crate::values;
use crate::words;
use vstd::prelude::*;

verus! {

/// The least number of bytes that can be read.
pub const READ_SIZE: usize = 4;

/// The least number of bytes that can be written.
pub const WRITE_SIZE: usize = 4;

/// Number of bytes in a sector, the least that can be erased.
pub const ERASE_SIZE: u32 = 4096;

/// A buffer in RAM that the peripheral reads or fills by itself.
#[derive(Copy, Clone, Debug, PartialEq, Eq, Structural)]
pub struct Buffer {
    /// Address of the first byte.
    pub address: u32,
    /// Number of bytes.
    pub len: usize,
}

/// For each signal, the value of the pin select register that names its pin.
#[derive(Copy, Clone, Debug, PartialEq, Eq, Structural)]
pub struct PinSelect {
    /// Pin of the serial clock.
    pub sck: u32,
    /// Pin of the chip select.
    pub csn: u32,
    /// Pin of data line 0.
    pub io0: u32,
    /// Pin of data line 1.
    pub io1: u32,
    /// Pin of data line 2.
    pub io2: u32,
    /// Pin of data line 3.
    pub io3: u32,
}

/// Whether a transfer between `address` in the flash and `data` meets the word
/// alignment of the peripheral.
pub open spec fn transfer_aligned(address: u32, data: Buffer) -> bool {
    &&& data.address % 4 == 0
    &&& data.len % 4 == 0
    &&& address % 4 == 0
}

/// Whether `len` bytes from `address` on lie within a flash of `capacity` bytes.
pub open spec fn in_bounds(capacity: u32, address: u32, len: usize) -> bool {
    address + len <= capacity
}

/// Actions that start a read of the flash.
pub open spec fn read_script(address: u32, data: Buffer) -> Seq<Action> {
    seq![
        Action::Write(Register::ReadSrc, address),
        Action::Write(Register::ReadDst, data.address),
        Action::Write(Register::ReadCnt, values::cnt_value(data.len as int) as u32),
        Action::Write(Register::EventsReady, 0),
        Action::Write(Register::Intenset, 1),
        Action::Write(Register::TasksReadstart, 1),
    ]
}

/// Actions that start a write of the flash.
pub open spec fn write_script(address: u32, data: Buffer) -> Seq<Action> {
    seq![
        Action::Write(Register::WriteSrc, data.address),
        Action::Write(Register::WriteDst, address),
        Action::Write(Register::WriteCnt, values::cnt_value(data.len as int) as u32),
        Action::Write(Register::EventsReady, 0),
        Action::Write(Register::Intenset, 1),
        Action::Write(Register::TasksWritestart, 1),
    ]
}

/// Actions that start the erase of a sector.
pub open spec fn erase_script(address: u32) -> Seq<Action> {
    seq![
        Action::Write(Register::ErasePtr, address),
        Action::Write(Register::EraseLen, 0),
        Action::Write(Register::EventsReady, 0),
        Action::Write(Register::Intenset, 1),
        Action::Write(Register::TasksErasestart, 1),
    ]
}

/// Actions that send a custom instruction of `len` bytes after the opcode.
pub open spec fn custom_script(opcode: u8, req: Seq<u8>, len: int) -> Seq<Action> {
    seq![
        Action::Write(Register::Cinstrdat0, words::word_at(req, 0) as u32),
        Action::Write(Register::Cinstrdat1, words::word_at(req, 4) as u32),
        Action::Write(Register::EventsReady, 0),
        Action::Write(Register::Intenset, 1),
        Action::Write(Register::Cinstrconf, values::cinstrconf_value(opcode, len + 1) as u32),
    ]
}

/// Number of bytes that a custom instruction transfers after the opcode: as many
/// as the longer of request and response holds, modulo 256.
pub open spec fn custom_len(req_len: int, resp_len: int) -> int {
    if req_len >= resp_len {
        req_len % 256
    } else {
        resp_len % 256
    }
}

/// Actions that route a signal to its pin.
pub open spec fn pin_script(signal: Signal, psel: u32) -> Seq<Action> {
    seq![
        Action::SetHigh(signal),
        Action::ConfigurePin(signal, values::pin_cnf_value() as u32),
        Action::Write(Register::Psel(signal), psel),
    ]
}

/// Actions that route all signals to their pins.
pub open spec fn pins_script(pins: PinSelect) -> Seq<Action> {
    pin_script(Signal::Sck, pins.sck) + pin_script(Signal::Csn, pins.csn) + pin_script(
        Signal::Io0,
        pins.io0,
    ) + pin_script(Signal::Io1, pins.io1) + pin_script(Signal::Io2, pins.io2) + pin_script(
        Signal::Io3,
        pins.io3,
    )
}

/// Actions that configure the interface.
pub open spec fn interface_script(config: Config) -> Seq<Action> {
    seq![Action::Write(Register::Ifconfig0, values::ifconfig0_value(config) as u32)] + (
    match config.deep_power_down {
        Some(dpd) => seq![Action::Write(Register::Dpmdur, values::dpmdur_value(dpd) as u32)],
        None => Seq::empty(),
    }) + seq![
        Action::Write(Register::Ifconfig1, values::ifconfig1_value(config) as u32),
        Action::Write(Register::Iftiming, values::iftiming_value(config) as u32),
        Action::Write(Register::Xipoffset, config.xip_offset),
    ]
}

/// Actions that enable the interrupt and the peripheral and activate the interface.
pub open spec fn activate_script() -> Seq<Action> {
    seq![
        Action::UnpendInterrupt,
        Action::EnableInterrupt,
        Action::Write(Register::Enable, 1),
        Action::Write(Register::EventsReady, 0),
        Action::Write(Register::Intenset, 1),
        Action::Write(Register::TasksActivate, 1),
    ]
}

/// Actions that bring the peripheral up.
pub open spec fn setup_script(pins: PinSelect, config: Config) -> Seq<Action> {
    pins_script(pins) + interface_script(config) + activate_script()
}

/// A transfer: nothing for an empty buffer, and otherwise `script` and a wait.
pub open spec fn transfer_state(script: Seq<Action>, data: Buffer, mode: Mode) -> OperationState {
    if data.len == 0 {
        OperationState::complete(mode)
    } else {
        OperationState::start(script, mode, false)
    }
}

/// State of the driver.
pub struct QspiState {
    /// Whether the flash is put into deep power-down mode at the end.
    pub dpm_enabled: bool,
    /// Capacity of the flash in bytes.
    pub capacity: u32,
}

/// QSPI flash driver.
pub struct Qspi {
    dpm_enabled: bool,
    capacity: u32,
}

impl View for Qspi {
    type V = QspiState;

    closed spec fn view(&self) -> QspiState {
        QspiState { dpm_enabled: self.dpm_enabled, capacity: self.capacity }
    }
}

/// Appends the actions that route a signal to its pin.
fn configure_pin(script: &mut Vec<Action>, signal: Signal, psel: u32)
    ensures
        final(script)@ == old(script)@ + pin_script(signal, psel),
{
    script.push(Action::SetHigh(signal));
    script.push(Action::ConfigurePin(signal, values::pin_cnf()));
    script.push(Action::Write(Register::Psel(signal), psel));
}

/// Appends the actions that clear the READY event and enable its interrupt.
fn arm(script: &mut Vec<Action>)
    ensures
        final(script)@ == old(script)@ + seq![
            Action::Write(Register::EventsReady, 0),
            Action::Write(Register::Intenset, 1),
        ],
{
    script.push(Action::Write(Register::EventsReady, 0));
    script.push(Action::Write(Register::Intenset, values::int_ready()));
}

/// The low 32 bits of a length. The byte count fields hold fewer.
fn low_word(len: usize) -> (r: u32)
    ensures
        values::cnt_value(r as int) == values::cnt_value(len as int),
{
    assert(len as u32 % 0x4_0000 == len % 0x4_0000) by (bit_vector);
    #[verifier::truncate]
    let r: u32 = len as u32;
    r
}

/// The low byte of the longer of two lengths.
fn longer_low_byte(req_len: usize, resp_len: usize) -> (r: u8)
    ensures
        r == custom_len(req_len as int, resp_len as int),
{
    let len: usize = if req_len >= resp_len {
        req_len
    } else {
        resp_len
    };
    assert(len as u8 == len % 256) by (bit_vector);
    #[verifier::truncate]
    let r: u8 = len as u8;
    r
}

impl Qspi {
    /// Create a new QSPI driver.
    ///
    /// The driver can be used once the operation that comes with it is complete.
    pub fn new(pins: PinSelect, config: Config) -> (r: (Self, Operation))
        ensures
            r.0@ == (QspiState {
                dpm_enabled: config.deep_power_down is Some,
                capacity: config.capacity,
            }),
            r.1@ == OperationState::start(setup_script(pins, config), Mode::Blocking, false),
    {
        let mut script: Vec<Action> = Vec::new();

        configure_pin(&mut script, Signal::Sck, pins.sck);
        configure_pin(&mut script, Signal::Csn, pins.csn);
        configure_pin(&mut script, Signal::Io0, pins.io0);
        configure_pin(&mut script, Signal::Io1, pins.io1);
        configure_pin(&mut script, Signal::Io2, pins.io2);
        configure_pin(&mut script, Signal::Io3, pins.io3);
        assert(script@ == pins_script(pins));

        script.push(Action::Write(Register::Ifconfig0, values::ifconfig0(&config)));
        if let Some(dpd) = &config.deep_power_down {
            script.push(Action::Write(Register::Dpmdur, values::dpmdur(dpd)));
        }
        script.push(Action::Write(Register::Ifconfig1, values::ifconfig1(&config)));
        script.push(Action::Write(Register::Iftiming, values::iftiming(&config)));
        script.push(Action::Write(Register::Xipoffset, config.xip_offset));
        assert(script@ == pins_script(pins) + interface_script(config));

        script.push(Action::UnpendInterrupt);
        script.push(Action::EnableInterrupt);
        script.push(Action::Write(Register::Enable, values::enable(true)));
        arm(&mut script);
        script.push(Action::Write(Register::TasksActivate, 1));
        assert(script@ == setup_script(pins, config));

        let res = Qspi {
            dpm_enabled: config.deep_power_down.is_some(),
            capacity: config.capacity,
        };
        (res, Self::blocking_wait_ready(script, false))
    }

    /// Performs `script` and then waits for the READY event asynchronously.
    fn wait_ready(script: Vec<Action>, fetch: bool) -> (op: Operation)
        ensures
            op@ == OperationState::start(script@, Mode::Async, fetch),
    {
        Operation::start(script, Mode::Async, fetch)
    }

    /// Performs `script` and then waits for the READY event, spinning.
    fn blocking_wait_ready(script: Vec<Action>, fetch: bool) -> (op: Operation)
        ensures
            op@ == OperationState::start(script@, Mode::Blocking, fetch),
    {
        Operation::start(script, Mode::Blocking, fetch)
    }

    /// Starts a read of the flash.
    fn start_read(&mut self, address: u32, data: Buffer) -> (script: Vec<Action>)
        requires
            transfer_aligned(address, data),
        ensures
            *final(self) == *old(self),
            script@ == read_script(address, data),
    {
        let mut script: Vec<Action> = Vec::new();
        script.push(Action::Write(Register::ReadSrc, address));
        script.push(Action::Write(Register::ReadDst, data.address));
        script.push(Action::Write(Register::ReadCnt, values::read_cnt(low_word(data.len))));

        arm(&mut script);
        script.push(Action::Write(Register::TasksReadstart, 1));

        script
    }

    /// Starts a write of the flash.
    fn start_write(&mut self, address: u32, data: Buffer) -> (script: Vec<Action>)
        requires
            transfer_aligned(address, data),
        ensures
            *final(self) == *old(self),
            script@ == write_script(address, data),
    {
        let mut script: Vec<Action> = Vec::new();
        script.push(Action::Write(Register::WriteSrc, data.address));
        script.push(Action::Write(Register::WriteDst, address));
        script.push(Action::Write(Register::WriteCnt, values::write_cnt(low_word(data.len))));

        arm(&mut script);
        script.push(Action::Write(Register::TasksWritestart, 1));

        script
    }

    /// Starts the erase of a sector.
    fn start_erase(&mut self, address: u32) -> (script: Vec<Action>)
        requires
            address % ERASE_SIZE == 0,
        ensures
            *final(self) == *old(self),
            script@ == erase_script(address),
    {
        let mut script: Vec<Action> = Vec::new();
        script.push(Action::Write(Register::ErasePtr, address));
        script.push(Action::Write(Register::EraseLen, values::erase_len_4kb()));

        arm(&mut script);
        script.push(Action::Write(Register::TasksErasestart, 1));

        script
    }

    /// Sends a custom instruction whose data is `len` bytes long.
    fn custom_instruction_start(&mut self, opcode: u8, req: &[u8], len: u8) -> (script: Vec<Action>)
        requires
            req@.len() <= 8,
            len < 255,
        ensures
            *final(self) == *old(self),
            script@ == custom_script(opcode, req@, len as int),
    {
        let dat0: u32 = words::pack_word(req, 0);
        let dat1: u32 = words::pack_word(req, 4);

        let mut script: Vec<Action> = Vec::new();
        script.push(Action::Write(Register::Cinstrdat0, dat0));
        script.push(Action::Write(Register::Cinstrdat1, dat1));

        arm(&mut script);

        script.push(Action::Write(Register::Cinstrconf, values::cinstrconf(opcode, len + 1)));
        script
    }

    /// Copies the response of a custom instruction to `resp`, from the data words
    /// that its operation read.
    ///
    /// No more than the first four bytes of `resp` are written. In a buffer longer
    /// than four bytes, response byte `4 + i` takes the place of response byte `i`.
    pub fn custom_instruction_finish(&mut self, data: (u32, u32), resp: &mut [u8]) -> (r: Result<
        (),
        Error,
    >)
        ensures
            r is Ok,
            *final(self) == *old(self),
            final(resp)@.len() == old(resp)@.len(),
            forall|i: int|
                0 <= i < old(resp)@.len() ==> final(resp)@[i] == words::response_byte(
                    data.0,
                    data.1,
                    old(resp)@.len() as int,
                    i,
                    old(resp)@[i],
                ),
    {
        words::unpack_words(data.0, data.1, resp);
        Ok(())
    }

    /// Do a custom QSPI instruction.
    ///
    /// Once the operation is complete, `custom_instruction_finish` gives the
    /// `resp_len` bytes of the response.
    pub fn custom_instruction(&mut self, opcode: u8, req: &[u8], resp_len: usize) -> (r: Result<
        Operation,
        Error,
    >)
        requires
            req@.len() <= 8,
            custom_len(req@.len() as int, resp_len as int) < 255,
        ensures
            *final(self) == *old(self),
            r is Ok,
            r->Ok_0@ == OperationState::start(
                custom_script(opcode, req@, custom_len(req@.len() as int, resp_len as int)),
                Mode::Async,
                true,
            ),
    {
        let len: u8 = longer_low_byte(req.len(), resp_len);
        let script = self.custom_instruction_start(opcode, req, len);
        Ok(Self::wait_ready(script, true))
    }

    /// Do a custom QSPI instruction, blocking version.
    ///
    /// Once the operation is complete, `custom_instruction_finish` gives the
    /// `resp_len` bytes of the response.
    pub fn blocking_custom_instruction(&mut self, opcode: u8, req: &[u8], resp_len: usize) -> (r:
        Result<Operation, Error>)
        requires
            req@.len() <= 8,
            custom_len(req@.len() as int, resp_len as int) < 255,
        ensures
            *final(self) == *old(self),
            r is Ok,
            r->Ok_0@ == OperationState::start(
                custom_script(opcode, req@, custom_len(req@.len() as int, resp_len as int)),
                Mode::Blocking,
                true,
            ),
    {
        let len: u8 = longer_low_byte(req.len(), resp_len);
        let script = self.custom_instruction_start(opcode, req, len);
        Ok(Self::blocking_wait_ready(script, true))
    }

    /// Raw QSPI read.
    ///
    /// The difference with `read` is that this does not do bounds checks
    /// against the flash capacity. It is intended for use when QSPI is used as
    /// a raw bus, not with flash memory.
    pub fn read_raw(&mut self, address: u32, data: Buffer) -> (r: Result<Operation, Error>)
        requires
            data.len > 0 ==> transfer_aligned(address, data),
        ensures
            *final(self) == *old(self),
            r is Ok,
            r->Ok_0@ == transfer_state(read_script(address, data), data, Mode::Async),
    {
        // The READY event would never come for a buffer of zero length.
        if data.len == 0 {
            return Ok(Operation::complete(Mode::Async));
        }
        let script = self.start_read(address, data);
        Ok(Self::wait_ready(script, false))
    }

    /// Raw QSPI write.
    ///
    /// The difference with `write` is that this does not do bounds checks
    /// against the flash capacity. It is intended for use when QSPI is used as
    /// a raw bus, not with flash memory.
    pub fn write_raw(&mut self, address: u32, data: Buffer) -> (r: Result<Operation, Error>)
        requires
            data.len > 0 ==> transfer_aligned(address, data),
        ensures
            *final(self) == *old(self),
            r is Ok,
            r->Ok_0@ == transfer_state(write_script(address, data), data, Mode::Async),
    {
        // The READY event would never come for a buffer of zero length.
        if data.len == 0 {
            return Ok(Operation::complete(Mode::Async));
        }
        let script = self.start_write(address, data);
        Ok(Self::wait_ready(script, false))
    }

    /// Raw QSPI read, blocking version.
    ///
    /// The difference with `blocking_read` is that this does not do bounds checks
    /// against the flash capacity. It is intended for use when QSPI is used as
    /// a raw bus, not with flash memory.
    pub fn blocking_read_raw(&mut self, address: u32, data: Buffer) -> (r: Result<Operation, Error>)
        requires
            data.len > 0 ==> transfer_aligned(address, data),
        ensures
            *final(self) == *old(self),
            r is Ok,
            r->Ok_0@ == transfer_state(read_script(address, data), data, Mode::Blocking),
    {
        // The READY event would never come for a buffer of zero length.
        if data.len == 0 {
            return Ok(Operation::complete(Mode::Blocking));
        }
        let script = self.start_read(address, data);
        Ok(Self::blocking_wait_ready(script, false))
    }

    /// Raw QSPI write, blocking version.
    ///
    /// The difference with `blocking_write` is that this does not do bounds checks
    /// against the flash capacity. It is intended for use when QSPI is used as
    /// a raw bus, not with flash memory.
    pub fn blocking_write_raw(&mut self, address: u32, data: Buffer) -> (r: Result<
        Operation,
        Error,
    >)
        requires
            data.len > 0 ==> transfer_aligned(address, data),
        ensures
            *final(self) == *old(self),
            r is Ok,
            r->Ok_0@ == transfer_state(write_script(address, data), data, Mode::Blocking),
    {
        // The READY event would never come for a buffer of zero length.
        if data.len == 0 {
            return Ok(Operation::complete(Mode::Blocking));
        }
        let script = self.start_write(address, data);
        Ok(Self::blocking_wait_ready(script, false))
    }

    /// Checks that `len` bytes from `address` on lie within the flash.
    pub fn bounds_check(&self, address: u32, len: usize) -> (r: Result<(), Error>)
        ensures
            r is Ok <==> in_bounds(self@.capacity, address, len),
            r is Err ==> r->Err_0 == Error::OutOfBounds,
    {
        let len_u32: u32 = match u32::try_from(len) {
            Ok(len_u32) => len_u32,
            Err(_) => return Err(Error::OutOfBounds),
        };
        let end_address: u32 = match address.checked_add(len_u32) {
            Some(end_address) => end_address,
            None => return Err(Error::OutOfBounds),
        };
        if end_address > self.capacity {
            return Err(Error::OutOfBounds);
        }
        Ok(())
    }

    /// Read data from the flash memory.
    pub fn read(&mut self, address: u32, data: Buffer) -> (r: Result<Operation, Error>)
        requires
            in_bounds(old(self)@.capacity, address, data.len) && data.len > 0 ==> transfer_aligned(
                address,
                data,
            ),
        ensures
            *final(self) == *old(self),
            r is Ok <==> in_bounds(old(self)@.capacity, address, data.len),
            r is Ok ==> r->Ok_0@ == transfer_state(read_script(address, data), data, Mode::Async),
            r is Err ==> r->Err_0 == Error::OutOfBounds,
    {
        self.bounds_check(address, data.len)?;
        self.read_raw(address, data)
    }

    /// Write data to the flash memory.
    pub fn write(&mut self, address: u32, data: Buffer) -> (r: Result<Operation, Error>)
        requires
            in_bounds(old(self)@.capacity, address, data.len) && data.len > 0 ==> transfer_aligned(
                address,
                data,
            ),
        ensures
            *final(self) == *old(self),
            r is Ok <==> in_bounds(old(self)@.capacity, address, data.len),
            r is Ok ==> r->Ok_0@ == transfer_state(write_script(address, data), data, Mode::Async),
            r is Err ==> r->Err_0 == Error::OutOfBounds,
    {
        self.bounds_check(address, data.len)?;
        self.write_raw(address, data)
    }

    /// Erase a sector on the flash memory.
    pub fn erase(&mut self, address: u32) -> (r: Result<Operation, Error>)
        requires
            address < old(self)@.capacity ==> address % ERASE_SIZE == 0,
        ensures
            *final(self) == *old(self),
            r is Ok <==> address < old(self)@.capacity,
            r is Ok ==> r->Ok_0@ == OperationState::start(
                erase_script(address),
                Mode::Async,
                false,
            ),
            r is Err ==> r->Err_0 == Error::OutOfBounds,
    {
        if address >= self.capacity {
            return Err(Error::OutOfBounds);
        }
        let script = self.start_erase(address);
        Ok(Self::wait_ready(script, false))
    }

    /// Read data from the flash memory, blocking version.
    pub fn blocking_read(&mut self, address: u32, data: Buffer) -> (r: Result<Operation, Error>)
        requires
            in_bounds(old(self)@.capacity, address, data.len) && data.len > 0 ==> transfer_aligned(
                address,
                data,
            ),
        ensures
            *final(self) == *old(self),
            r is Ok <==> in_bounds(old(self)@.capacity, address, data.len),
            r is Ok ==> r->Ok_0@ == transfer_state(
                read_script(address, data),
                data,
                Mode::Blocking,
            ),
            r is Err ==> r->Err_0 == Error::OutOfBounds,
    {
        self.bounds_check(address, data.len)?;
        self.blocking_read_raw(address, data)
    }

    /// Write data to the flash memory, blocking version.
    pub fn blocking_write(&mut self, address: u32, data: Buffer) -> (r: Result<Operation, Error>)
        requires
            in_bounds(old(self)@.capacity, address, data.len) && data.len > 0 ==> transfer_aligned(
                address,
                data,
            ),
        ensures
            *final(self) == *old(self),
            r is Ok <==> in_bounds(old(self)@.capacity, address, data.len),
            r is Ok ==> r->Ok_0@ == transfer_state(
                write_script(address, data),
                data,
                Mode::Blocking,
            ),
            r is Err ==> r->Err_0 == Error::OutOfBounds,
    {
        self.bounds_check(address, data.len)?;
        self.blocking_write_raw(address, data)
    }

    /// Erase a sector on the flash memory, blocking version.
    pub fn blocking_erase(&mut self, address: u32) -> (r: Result<Operation, Error>)
        requires
            address < old(self)@.capacity ==> address % ERASE_SIZE == 0,
        ensures
            *final(self) == *old(self),
            r is Ok <==> address < old(self)@.capacity,
            r is Ok ==> r->Ok_0@ == OperationState::start(
                erase_script(address),
                Mode::Blocking,
                false,
            ),
            r is Err ==> r->Err_0 == Error::OutOfBounds,
    {
        if address >= self.capacity {
            return Err(Error::OutOfBounds);
        }
        let script = self.start_erase(address);
        Ok(Self::blocking_wait_ready(script, false))
    }

    /// Whether the flash is put into deep power-down mode at the end.
    pub(crate) fn dpm_enabled(&self) -> (r: bool)
        ensures
            r == self@.dpm_enabled,
    {
        self.dpm_enabled
    }

    /// Capacity of the flash memory in bytes.
    pub fn capacity(&self) -> (capacity: usize)
        ensures
            capacity == self@.capacity,
    {
        self.capacity as usize
    }
}

} // verus!
