//! The register read: write the register pointer, let the sensor settle,
//! read the data back.
//!
//! A [`Transaction`] performs no bus traffic itself. It names the operation
//! that is due, and is advanced with what came of it. Whoever owns the bus
//! runs the loop: look at [`Transaction::action`], perform it, hand the
//! outcome to [`Transaction::step`].

use crate::error::SoilMoistureSensorError;
use vstd::prelude::*;

verus! {

/// What one register read asks of the device.
#[derive(Copy, Clone, Debug, Eq, PartialEq)]
pub struct Request {
    /// Seven-bit bus address of the device.
    pub address: u8,
    /// The register pointer that selects the data.
    pub register: [u8; 2],
    /// How many bytes the register holds.
    pub len: usize,
    /// Nanoseconds the sensor needs between pointer and data.
    pub delay_ns: u32,
}

/// How far a register read has come; each phase is named after the operation
/// that is due in it.
#[derive(Copy, Clone, Debug, Eq, PartialEq, Structural)]
pub enum Phase {
    Write,
    Delay,
    Read,
}

/// An operation for the owner of the bus and the timer to perform.
#[derive(Copy, Clone, Debug, Eq, PartialEq)]
pub enum Action {
    /// Write `bytes` to the device at `address`.
    Write { address: u8, bytes: [u8; 2] },
    /// Wait for `ns` nanoseconds.
    Delay { ns: u32 },
    /// Read `len` bytes from the device at `address`.
    Read { address: u8, len: usize },
}

/// What came of an operation.
#[derive(Debug)]
pub enum Event<E> {
    /// The bus write returned.
    Written(Result<(), E>),
    /// The wait is over.
    Waited,
    /// The bus read returned, with the bytes it read.
    Received(Result<Vec<u8>, E>),
}

/// Where a state machine of this crate stands after an event.
#[derive(Debug)]
pub enum Step<S, T, E> {
    /// More operations are due; here is the state to go on from.
    Next(S),
    /// All operations succeeded; here is the result.
    Done(T),
    /// An operation failed, which ends the matter.
    Failed(SoilMoistureSensorError<E>),
}

/// The state of a register read in flight.
#[derive(Copy, Clone, Debug, Eq, PartialEq)]
pub struct TransactionState {
    pub request: Request,
    pub phase: Phase,
}

impl TransactionState {
    /// A register read of which nothing has been done yet.
    pub open spec fn start(request: Request) -> TransactionState {
        TransactionState { request, phase: Phase::Write }
    }

    /// The operation that is due.
    pub open spec fn action(self) -> Action {
        match self.phase {
            Phase::Write => Action::Write {
                address: self.request.address,
                bytes: self.request.register,
            },
            Phase::Delay => Action::Delay { ns: self.request.delay_ns },
            Phase::Read => Action::Read { address: self.request.address, len: self.request.len },
        }
    }

    /// The transition function.
    ///
    /// A failed write ends the read with the write error and its cause. A
    /// failed read, or one that brings another number of bytes than the
    /// register holds, ends it with the read error. An event that does not
    /// report on the operation that is due changes nothing.
    pub open spec fn next<E>(self, event: Event<E>) -> Step<TransactionState, Seq<u8>, E> {
        match (self.phase, event) {
            (Phase::Write, Event::Written(Ok(_))) => Step::Next(
                TransactionState { phase: Phase::Delay, ..self },
            ),
            (Phase::Write, Event::Written(Err(cause))) => Step::Failed(
                SoilMoistureSensorError::WriteI2CError(cause),
            ),
            (Phase::Delay, Event::Waited) => Step::Next(
                TransactionState { phase: Phase::Read, ..self },
            ),
            (Phase::Read, Event::Received(Ok(data))) => if data@.len() == self.request.len {
                Step::Done(data@)
            } else {
                Step::Failed(SoilMoistureSensorError::ReadI2CError)
            },
            (Phase::Read, Event::Received(Err(_))) => Step::Failed(
                SoilMoistureSensorError::ReadI2CError,
            ),
            _ => Step::Next(self),
        }
    }

    /// Where the read stands once the first `n` of `events` have been handed
    /// in, one after the other. Once it is over, further events change
    /// nothing.
    pub open spec fn after<E>(self, events: Seq<Event<E>>, n: nat) -> Step<
        TransactionState,
        Seq<u8>,
        E,
    >
        decreases n,
    {
        if n == 0 {
            Step::Next(self)
        } else {
            match self.after(events, (n - 1) as nat) {
                Step::Next(state) => state.next(events[n - 1]),
                over => over,
            }
        }
    }

    /// The operation that is due once the first `n` of `events` have been
    /// handed in; none if the read is over by then.
    pub open spec fn due<E>(self, events: Seq<Event<E>>, n: nat) -> Option<Action> {
        match self.after(events, n) {
            Step::Next(state) => Some(state.action()),
            _ => None,
        }
    }
}

/// A register read in flight.
///
/// A caller gets one from [`Transaction::start`] and can change it through
/// [`Transaction::step`] alone, so that no phase is skipped.
#[derive(Debug)]
pub struct Transaction {
    state: TransactionState,
}

impl View for Transaction {
    type V = TransactionState;

    closed spec fn view(&self) -> TransactionState {
        self.state
    }
}

impl Transaction {
    /// Begins a register read: the pointer write is due.
    pub fn start(request: Request) -> (transaction: Transaction)
        ensures
            transaction@ == TransactionState::start(request),
    {
        Transaction { state: TransactionState { request, phase: Phase::Write } }
    }

    /// Takes a register read up at `phase`.
    pub(crate) fn resume(request: Request, phase: Phase) -> (transaction: Transaction)
        ensures
            transaction@ == (TransactionState { request, phase }),
    {
        Transaction { state: TransactionState { request, phase } }
    }

    /// What this read asks of the device.
    pub fn request(&self) -> (request: Request)
        ensures
            request == self@.request,
    {
        self.state.request
    }

    /// How far this read has come.
    pub fn phase(&self) -> (phase: Phase)
        ensures
            phase == self@.phase,
    {
        self.state.phase
    }

    /// The operation that is due.
    pub fn action(&self) -> (action: Action)
        ensures
            action == self@.action(),
    {
        match self.state.phase {
            Phase::Write => Action::Write {
                address: self.state.request.address,
                bytes: self.state.request.register,
            },
            Phase::Delay => Action::Delay { ns: self.state.request.delay_ns },
            Phase::Read => Action::Read {
                address: self.state.request.address,
                len: self.state.request.len,
            },
        }
    }

    /// Advances the read by what came of the operation that was due.
    pub fn step<E>(self, event: Event<E>) -> (step: Step<Transaction, Vec<u8>, E>)
        ensures
            match step {
                Step::Next(transaction) => self@.next(event) == Step::<
                    TransactionState,
                    Seq<u8>,
                    E,
                >::Next(transaction@),
                Step::Done(data) => self@.next(event) == Step::<TransactionState, Seq<u8>, E>::Done(
                    data@,
                ),
                Step::Failed(error) => self@.next(event) == Step::<
                    TransactionState,
                    Seq<u8>,
                    E,
                >::Failed(error),
            },
    {
        let request = self.state.request;
        match (self.state.phase, event) {
            (Phase::Write, Event::Written(Ok(_))) => Step::Next(
                Transaction::resume(request, Phase::Delay),
            ),
            (Phase::Write, Event::Written(Err(cause))) => Step::Failed(
                SoilMoistureSensorError::WriteI2CError(cause),
            ),
            (Phase::Delay, Event::Waited) => Step::Next(Transaction::resume(request, Phase::Read)),
            (Phase::Read, Event::Received(Ok(data))) => {
                if data.len() == request.len {
                    Step::Done(data)
                } else {
                    Step::Failed(SoilMoistureSensorError::ReadI2CError)
                }
            },
            (Phase::Read, Event::Received(Err(_))) => Step::Failed(
                SoilMoistureSensorError::ReadI2CError,
            ),
            (phase, _) => Step::Next(Transaction::resume(request, phase)),
        }
    }
}

} // verus!
