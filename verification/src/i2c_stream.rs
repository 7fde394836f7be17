//! The production transport: an I2C slave reached through a bus device.
//!
//! This module decides which bus operations each transport operation takes,
//! with which arguments and in which order. Carrying them out is left to
//! whoever holds the device.

use vstd::prelude::*;
use std::time::Duration;
use crate::command::frame;

verus! {

/// Whether a duration spans no time at all.
pub uninterp spec fn spans_no_time(duration: Duration) -> bool;

/// `Duration::is_zero` tells whether the duration spans no time; what it
/// returns depends on the duration alone.
pub assume_specification[ Duration::is_zero ](duration: &Duration) -> (zero: bool)
    ensures
        zero == spans_no_time(*duration),
;

/// One message of a combined bus transaction.
#[derive(Debug, PartialEq, Eq)]
pub enum BusMessage {
    /// Send `data` to the slave at `address`.
    Write { address: u16, tenbit: bool, data: Vec<u8> },
    /// Fill `buffer` with bytes from the slave at `address`.
    Read { address: u16, tenbit: bool, buffer: Vec<u8> },
}

/// A message of a combined bus transaction, as contracts see it.
pub enum BusMessageView {
    Write { address: u16, tenbit: bool, data: Seq<u8> },
    Read { address: u16, tenbit: bool, buffer: Seq<u8> },
}

impl View for BusMessage {
    type V = BusMessageView;

    open spec fn view(&self) -> BusMessageView {
        match *self {
            BusMessage::Write { address, tenbit, data } => BusMessageView::Write {
                address,
                tenbit,
                data: data@,
            },
            BusMessage::Read { address, tenbit, buffer } => BusMessageView::Read {
                address,
                tenbit,
                buffer: buffer@,
            },
        }
    }
}

/// One operation on the bus device.
#[derive(Debug, PartialEq, Eq)]
pub enum BusStep {
    /// Open the device handle at `path`.
    Open { path: String },
    /// Select the slave that the following operations address.
    SetSlaveAddress { address: u16, tenbit: bool },
    /// Bound how long the following operations wait for the slave.
    SetTimeout { timeout: Duration },
    /// Block write of `payload` to `register`.
    WriteBlock { register: u8, payload: Vec<u8> },
    /// Block read from `register` into `buffer`.
    ReadBlock { register: u8, buffer: Vec<u8> },
    /// One transaction of `messages`, joined by repeated START conditions.
    Transact { messages: Vec<BusMessage> },
    /// Wait for at least `delay`.
    Pause { delay: Duration },
}

/// An operation on the bus device, as contracts see it.
pub enum BusStepView {
    Open { path: Seq<char> },
    SetSlaveAddress { address: u16, tenbit: bool },
    SetTimeout { timeout: Duration },
    WriteBlock { register: u8, payload: Seq<u8> },
    ReadBlock { register: u8, buffer: Seq<u8> },
    Transact { messages: Seq<BusMessageView> },
    Pause { delay: Duration },
}

impl View for BusStep {
    type V = BusStepView;

    open spec fn view(&self) -> BusStepView {
        match *self {
            BusStep::Open { path } => BusStepView::Open { path: path@ },
            BusStep::SetSlaveAddress { address, tenbit } => BusStepView::SetSlaveAddress {
                address,
                tenbit,
            },
            BusStep::SetTimeout { timeout } => BusStepView::SetTimeout { timeout },
            BusStep::WriteBlock { register, payload } => BusStepView::WriteBlock {
                register,
                payload: payload@,
            },
            BusStep::ReadBlock { register, buffer } => BusStepView::ReadBlock {
                register,
                buffer: buffer@,
            },
            BusStep::Transact { messages } => BusStepView::Transact {
                messages: messages@.map_values(|message: BusMessage| message@),
            },
            BusStep::Pause { delay } => BusStepView::Pause { delay },
        }
    }
}

/// The steps of a plan, each by its view.
pub open spec fn plan(steps: Seq<BusStep>) -> Seq<BusStepView> {
    steps.map_values(|step: BusStep| step@)
}

/// A receive buffer before the bus has filled it: `len` zero bytes.
pub open spec fn zeros(len: nat) -> Seq<u8> {
    Seq::new(len, |i: int| 0u8)
}

/// The I2C slave at address `slave` on the bus whose device handle is at
/// `path`.
pub struct I2CStream {
    path: String,
    slave: u16,
}

impl I2CStream {
    /// The file-system path of the bus device.
    pub closed spec fn path(&self) -> Seq<char> {
        self.path@
    }

    /// The address of the slave device.
    pub closed spec fn slave(&self) -> u16 {
        self.slave
    }

    /// The two steps that every operation starts with: open the device, then
    /// select the slave, addressed in 7-bit mode.
    pub open spec fn opening(&self) -> Seq<BusStepView> {
        seq![
            BusStepView::Open { path: self.path() },
            BusStepView::SetSlaveAddress { address: self.slave(), tenbit: false },
        ]
    }

    /// The steps of a block write of `buffer`: its first byte is the
    /// register, the rest the payload.
    pub open spec fn write_plan(&self, buffer: Seq<u8>) -> Seq<BusStepView>
        recommends
            buffer.len() > 0,
    {
        self.opening().push(
            BusStepView::WriteBlock { register: buffer[0], payload: buffer.skip(1) },
        )
    }

    /// The steps of a block read of `rx_len` bytes from the register that the
    /// first byte of `buffer` names, into a buffer of zeros.
    pub open spec fn read_plan(&self, buffer: Seq<u8>, rx_len: usize) -> Seq<BusStepView>
        recommends
            buffer.len() > 0,
    {
        self.opening().push(
            BusStepView::ReadBlock { register: buffer[0], buffer: zeros(rx_len as nat) },
        )
    }

    /// The steps of a block read as in `read_plan`, with the wait for the
    /// slave bounded by `timeout` before the read is issued.
    pub open spec fn read_timeout_plan(
        &self,
        buffer: Seq<u8>,
        rx_len: usize,
        timeout: Duration,
    ) -> Seq<BusStepView>
        recommends
            buffer.len() > 0,
    {
        self.opening().push(BusStepView::SetTimeout { timeout }).push(
            BusStepView::ReadBlock { register: buffer[0], buffer: zeros(rx_len as nat) },
        )
    }

    /// The message that sends `buffer` to the slave.
    pub open spec fn outgoing(&self, buffer: Seq<u8>) -> BusMessageView {
        BusMessageView::Write { address: self.slave(), tenbit: false, data: buffer }
    }

    /// The message that reads `rx_len` bytes from the slave into a buffer of
    /// zeros.
    pub open spec fn incoming(&self, rx_len: usize) -> BusMessageView {
        BusMessageView::Read { address: self.slave(), tenbit: false, buffer: zeros(rx_len as nat) }
    }

    /// The steps of a write of `buffer` followed by a read of `rx_len` bytes.
    ///
    /// With no delay asked for, both messages go out in one transaction, so
    /// that no other bus master can come between them. A delay cannot be
    /// placed inside a transaction: with one, the write goes first, then the
    /// pause, then the read.
    pub open spec fn transfer_plan(
        &self,
        buffer: Seq<u8>,
        rx_len: usize,
        delay: Duration,
    ) -> Seq<BusStepView> {
        if spans_no_time(delay) {
            self.opening().push(
                BusStepView::Transact { messages: seq![self.outgoing(buffer), self.incoming(rx_len)] },
            )
        } else {
            self.opening().push(BusStepView::Transact { messages: seq![self.outgoing(buffer)] }).push(
                BusStepView::Pause { delay },
            ).push(BusStepView::Transact { messages: seq![self.incoming(rx_len)] })
        }
    }

    /// Creates a transport for the slave at `slave` on the bus at `path`.
    pub fn new(path: &str, slave: u16) -> (stream: Self)
        ensures
            stream.path() == path@,
            stream.slave() == slave,
    {
        I2CStream { path: path.to_owned(), slave }
    }

    fn opening_steps(&self) -> (steps: Vec<BusStep>)
        ensures
            plan(steps@) == self.opening(),
    {
        let mut steps = Vec::new();
        steps.push(BusStep::Open { path: self.path.clone() });
        steps.push(BusStep::SetSlaveAddress { address: self.slave, tenbit: false });
        assert(plan(steps@) =~= self.opening());
        steps
    }

    /// Plans the block write of `buffer`.
    pub fn write_steps(&self, buffer: Vec<u8>) -> (steps: Vec<BusStep>)
        requires
            buffer@.len() > 0,
        ensures
            plan(steps@) == self.write_plan(buffer@),
    {
        let mut payload = buffer;
        let register = payload.remove(0);
        assert(payload@ =~= buffer@.skip(1));
        let mut steps = self.opening_steps();
        steps.push(BusStep::WriteBlock { register, payload });
        assert(plan(steps@) =~= self.write_plan(buffer@));
        steps
    }

    /// Plans the block read of `rx_len` bytes from the register that the
    /// first byte of `buffer` names.
    pub fn read_steps(&self, buffer: &[u8], rx_len: usize) -> (steps: Vec<BusStep>)
        requires
            buffer@.len() > 0,
        ensures
            plan(steps@) == self.read_plan(buffer@, rx_len),
    {
        let mut steps = self.opening_steps();
        steps.push(BusStep::ReadBlock { register: buffer[0], buffer: zeroed(rx_len) });
        assert(plan(steps@) =~= self.read_plan(buffer@, rx_len));
        steps
    }

    /// Plans the block read of `rx_len` bytes with the wait for the slave
    /// bounded by `timeout`.
    pub fn read_timeout_steps(&self, buffer: Vec<u8>, rx_len: usize, timeout: Duration) -> (steps:
        Vec<BusStep>)
        requires
            buffer@.len() > 0,
        ensures
            plan(steps@) == self.read_timeout_plan(buffer@, rx_len, timeout),
    {
        let mut steps = self.opening_steps();
        steps.push(BusStep::SetTimeout { timeout });
        steps.push(BusStep::ReadBlock { register: buffer[0], buffer: zeroed(rx_len) });
        assert(plan(steps@) =~= self.read_timeout_plan(buffer@, rx_len, timeout));
        steps
    }

    /// Plans the write of `buffer` followed, after `delay`, by the read of
    /// `rx_len` bytes.
    pub fn transfer_steps(&self, buffer: Vec<u8>, rx_len: usize, delay: Duration) -> (steps: Vec<
        BusStep,
    >)
        ensures
            plan(steps@) == self.transfer_plan(buffer@, rx_len, delay),
    {
        let outgoing = BusMessage::Write { address: self.slave, tenbit: false, data: buffer };
        let incoming = BusMessage::Read { address: self.slave, tenbit: false, buffer: zeroed(rx_len) };
        let mut steps = self.opening_steps();
        if delay.is_zero() {
            let mut messages = Vec::new();
            messages.push(outgoing);
            messages.push(incoming);
            assert(messages@.map_values(|message: BusMessage| message@) =~= seq![
                self.outgoing(buffer@),
                self.incoming(rx_len),
            ]);
            steps.push(BusStep::Transact { messages });
        } else {
            let mut first = Vec::new();
            first.push(outgoing);
            assert(first@.map_values(|message: BusMessage| message@) =~= seq![
                self.outgoing(buffer@),
            ]);
            let mut second = Vec::new();
            second.push(incoming);
            assert(second@.map_values(|message: BusMessage| message@) =~= seq![
                self.incoming(rx_len),
            ]);
            steps.push(BusStep::Transact { messages: first });
            steps.push(BusStep::Pause { delay });
            steps.push(BusStep::Transact { messages: second });
        }
        assert(plan(steps@) =~= self.transfer_plan(buffer@, rx_len, delay));
        steps
    }
}

/// A receive buffer of `len` zero bytes.
fn zeroed(len: usize) -> (buffer: Vec<u8>)
    ensures
        buffer@ == zeros(len as nat),
{
    let mut buffer: Vec<u8> = Vec::new();
    let mut filled: usize = 0;
    while filled < len
        invariant
            filled <= len,
            buffer@ == zeros(filled as nat),
        decreases len - filled,
    {
        buffer.push(0);
        filled = filled + 1;
        assert(buffer@ =~= zeros(filled as nat));
    }
    buffer
}

/// Framing and planning undo each other: the block write planned for a framed
/// command names the command's register and carries exactly its payload, and
/// the block read planned for it names the same register whatever the payload.
pub proof fn lemma_plans_of_frame(stream: I2CStream, cmd: u8, data: Seq<u8>, rx_len: usize)
    ensures
        stream.write_plan(frame(cmd, data)) == stream.opening().push(
            BusStepView::WriteBlock { register: cmd, payload: data },
        ),
        stream.read_plan(frame(cmd, data), rx_len) == stream.opening().push(
            BusStepView::ReadBlock { register: cmd, buffer: zeros(rx_len as nat) },
        ),
{
    assert(frame(cmd, data).skip(1) =~= data);
}

} // verus!
