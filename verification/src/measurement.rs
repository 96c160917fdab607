//! The three measurements, each a state machine over the register read.
//!
//! The register map is fixed by the sensor:
//!
//! | measurement | register pointer | data                          |
//! |-------------|------------------|-------------------------------|
//! | temperature | `00 04`          | 4 bytes, signed, big-endian   |
//! | moisture    | `0F 10`          | 2 bytes, unsigned, big-endian |

use crate::bytes::{be_i32, be_u16, i32_from_be, u16_from_be};
use crate::reading::{Reading, Temperature, TemperatureUnit};
use crate::transaction::{Action, Event, Phase, Request, Step, Transaction, TransactionState};
use vstd::prelude::*;

verus! {

/// The register read that fetches the temperature.
pub open spec fn temperature_request(address: u8, delay_ns: u32) -> Request {
    Request { address, register: [0x00u8, 0x04u8], len: 4, delay_ns }
}

/// The register read that fetches the moisture.
pub open spec fn moisture_request(address: u8, delay_ns: u32) -> Request {
    Request { address, register: [0x0Fu8, 0x10u8], len: 2, delay_ns }
}

/// The state of a temperature measurement in flight.
#[derive(Copy, Clone, Debug, Eq, PartialEq)]
pub struct TemperatureReadState {
    pub address: u8,
    pub unit: TemperatureUnit,
    pub delay_ns: u32,
    pub phase: Phase,
}

impl TemperatureReadState {
    /// A temperature measurement of which nothing has been done yet.
    pub open spec fn start(address: u8, unit: TemperatureUnit, delay_ns: u32) -> Self {
        TemperatureReadState { address, unit, delay_ns, phase: Phase::Write }
    }

    /// The register read that this measurement is.
    pub open spec fn transaction(self) -> TransactionState {
        TransactionState {
            request: temperature_request(self.address, self.delay_ns),
            phase: self.phase,
        }
    }

    /// The operation that is due.
    pub open spec fn action(self) -> Action {
        self.transaction().action()
    }

    /// The transition function: that of the register read, with the four
    /// bytes it ends on read as a signed big-endian count.
    pub open spec fn next<E>(self, event: Event<E>) -> Step<TemperatureReadState, Temperature, E> {
        match self.transaction().next(event) {
            Step::Next(transaction) => Step::Next(
                TemperatureReadState { phase: transaction.phase, ..self },
            ),
            Step::Done(data) => Step::Done(
                Temperature { raw: be_i32(data) as i32, unit: self.unit },
            ),
            Step::Failed(error) => Step::Failed(error),
        }
    }
}

/// The state of a moisture measurement in flight.
#[derive(Copy, Clone, Debug, Eq, PartialEq)]
pub struct MoistureReadState {
    pub address: u8,
    pub delay_ns: u32,
    pub phase: Phase,
}

impl MoistureReadState {
    /// A moisture measurement of which nothing has been done yet.
    pub open spec fn start(address: u8, delay_ns: u32) -> Self {
        MoistureReadState { address, delay_ns, phase: Phase::Write }
    }

    /// The register read that this measurement is.
    pub open spec fn transaction(self) -> TransactionState {
        TransactionState {
            request: moisture_request(self.address, self.delay_ns),
            phase: self.phase,
        }
    }

    /// The operation that is due.
    pub open spec fn action(self) -> Action {
        self.transaction().action()
    }

    /// The transition function: that of the register read, with the two
    /// bytes it ends on read as an unsigned big-endian count.
    pub open spec fn next<E>(self, event: Event<E>) -> Step<MoistureReadState, u16, E> {
        match self.transaction().next(event) {
            Step::Next(transaction) => Step::Next(
                MoistureReadState { phase: transaction.phase, ..self },
            ),
            Step::Done(data) => Step::Done(be_u16(data) as u16),
            Step::Failed(error) => Step::Failed(error),
        }
    }
}

/// The state of a combined measurement in flight: the temperature first,
/// then the moisture.
#[derive(Copy, Clone, Debug, Eq, PartialEq)]
pub enum CombinedReadState {
    /// The temperature is being measured; the moisture will be measured with
    /// a settling time of `moisture_delay_ns`.
    Temperature { temperature_read: TemperatureReadState, moisture_delay_ns: u32 },
    /// The temperature is known and the moisture is being measured.
    Moisture { temperature: Temperature, moisture_read: MoistureReadState },
}

impl CombinedReadState {
    /// A combined measurement of which nothing has been done yet.
    pub open spec fn start(
        address: u8,
        unit: TemperatureUnit,
        temperature_delay_ns: u32,
        moisture_delay_ns: u32,
    ) -> Self {
        CombinedReadState::Temperature {
            temperature_read: TemperatureReadState::start(address, unit, temperature_delay_ns),
            moisture_delay_ns,
        }
    }

    /// The operation that is due.
    pub open spec fn action(self) -> Action {
        match self {
            CombinedReadState::Temperature { temperature_read, .. } => temperature_read.action(),
            CombinedReadState::Moisture { moisture_read, .. } => moisture_read.action(),
        }
    }

    /// The transition function.
    ///
    /// The temperature measurement runs to its end first. If it fails, so
    /// does the combined measurement, and the moisture is not asked for. If
    /// it succeeds, the moisture measurement begins, at the same address.
    pub open spec fn next<E>(self, event: Event<E>) -> Step<CombinedReadState, Reading, E> {
        match self {
            CombinedReadState::Temperature {
                temperature_read,
                moisture_delay_ns,
            } => match temperature_read.next(event) {
                Step::Next(temperature_read) => Step::Next(
                    CombinedReadState::Temperature { temperature_read, moisture_delay_ns },
                ),
                Step::Done(temperature) => Step::Next(
                    CombinedReadState::Moisture {
                        temperature,
                        moisture_read: MoistureReadState::start(
                            temperature_read.address,
                            moisture_delay_ns,
                        ),
                    },
                ),
                Step::Failed(error) => Step::Failed(error),
            },
            CombinedReadState::Moisture { temperature, moisture_read } => match moisture_read.next(
                event,
            ) {
                Step::Next(moisture_read) => Step::Next(
                    CombinedReadState::Moisture { temperature, moisture_read },
                ),
                Step::Done(moisture) => Step::Done(Reading { temperature, moisture }),
                Step::Failed(error) => Step::Failed(error),
            },
        }
    }

    /// Where the measurement stands once the first `n` of `events` have been
    /// handed in, one after the other. Once it is over, further events change
    /// nothing.
    pub open spec fn after<E>(self, events: Seq<Event<E>>, n: nat) -> Step<
        CombinedReadState,
        Reading,
        E,
    >
        decreases n,
    {
        if n == 0 {
            Step::Next(self)
        } else {
            match self.after(events, (n - 1) as nat) {
                Step::Next(state) => state.next(events[n - 1]),
                over => over,
            }
        }
    }

    /// The operation that is due once the first `n` of `events` have been
    /// handed in; none if the measurement is over by then.
    pub open spec fn due<E>(self, events: Seq<Event<E>>, n: nat) -> Option<Action> {
        match self.after(events, n) {
            Step::Next(state) => Some(state.action()),
            _ => None,
        }
    }
}

/// A temperature measurement in flight.
#[derive(Debug)]
pub struct TemperatureRead {
    state: TemperatureReadState,
}

impl View for TemperatureRead {
    type V = TemperatureReadState;

    closed spec fn view(&self) -> TemperatureReadState {
        self.state
    }
}

impl TemperatureRead {
    /// Begins a temperature measurement: the pointer write is due.
    pub fn start(address: u8, unit: TemperatureUnit, delay_ns: u32) -> (read: TemperatureRead)
        ensures
            read@ == TemperatureReadState::start(address, unit, delay_ns),
    {
        TemperatureRead {
            state: TemperatureReadState { address, unit, delay_ns, phase: Phase::Write },
        }
    }

    fn transaction(&self) -> (transaction: Transaction)
        ensures
            transaction@ == self@.transaction(),
    {
        Transaction::resume(
            Request {
                address: self.state.address,
                register: [0x00, 0x04],
                len: 4,
                delay_ns: self.state.delay_ns,
            },
            self.state.phase,
        )
    }

    /// The operation that is due.
    pub fn action(&self) -> (action: Action)
        ensures
            action == self@.action(),
    {
        self.transaction().action()
    }

    /// Advances the measurement by what came of the operation that was due.
    pub fn step<E>(self, event: Event<E>) -> (step: Step<TemperatureRead, Temperature, E>)
        ensures
            match step {
                Step::Next(read) => self@.next(event) == Step::<
                    TemperatureReadState,
                    Temperature,
                    E,
                >::Next(read@),
                Step::Done(temperature) => self@.next(event) == Step::<
                    TemperatureReadState,
                    Temperature,
                    E,
                >::Done(temperature),
                Step::Failed(error) => self@.next(event) == Step::<
                    TemperatureReadState,
                    Temperature,
                    E,
                >::Failed(error),
            },
    {
        let state = self.state;
        match self.transaction().step(event) {
            Step::Next(transaction) => Step::Next(
                TemperatureRead {
                    state: TemperatureReadState {
                        address: state.address,
                        unit: state.unit,
                        delay_ns: state.delay_ns,
                        phase: transaction.phase(),
                    },
                },
            ),
            Step::Done(data) => {
                let bytes: [u8; 4] = [data[0], data[1], data[2], data[3]];
                Step::Done(Temperature { raw: i32_from_be(bytes), unit: state.unit })
            },
            Step::Failed(error) => Step::Failed(error),
        }
    }
}

/// A moisture measurement in flight.
#[derive(Debug)]
pub struct MoistureRead {
    state: MoistureReadState,
}

impl View for MoistureRead {
    type V = MoistureReadState;

    closed spec fn view(&self) -> MoistureReadState {
        self.state
    }
}

impl MoistureRead {
    /// Begins a moisture measurement: the pointer write is due.
    pub fn start(address: u8, delay_ns: u32) -> (read: MoistureRead)
        ensures
            read@ == MoistureReadState::start(address, delay_ns),
    {
        MoistureRead { state: MoistureReadState { address, delay_ns, phase: Phase::Write } }
    }

    fn transaction(&self) -> (transaction: Transaction)
        ensures
            transaction@ == self@.transaction(),
    {
        Transaction::resume(
            Request {
                address: self.state.address,
                register: [0x0F, 0x10],
                len: 2,
                delay_ns: self.state.delay_ns,
            },
            self.state.phase,
        )
    }

    /// The operation that is due.
    pub fn action(&self) -> (action: Action)
        ensures
            action == self@.action(),
    {
        self.transaction().action()
    }

    /// Advances the measurement by what came of the operation that was due.
    pub fn step<E>(self, event: Event<E>) -> (step: Step<MoistureRead, u16, E>)
        ensures
            match step {
                Step::Next(read) => self@.next(event) == Step::<MoistureReadState, u16, E>::Next(
                    read@,
                ),
                Step::Done(moisture) => self@.next(event) == Step::<
                    MoistureReadState,
                    u16,
                    E,
                >::Done(moisture),
                Step::Failed(error) => self@.next(event) == Step::<
                    MoistureReadState,
                    u16,
                    E,
                >::Failed(error),
            },
    {
        let state = self.state;
        match self.transaction().step(event) {
            Step::Next(transaction) => Step::Next(
                MoistureRead {
                    state: MoistureReadState {
                        address: state.address,
                        delay_ns: state.delay_ns,
                        phase: transaction.phase(),
                    },
                },
            ),
            Step::Done(data) => {
                let bytes: [u8; 2] = [data[0], data[1]];
                Step::Done(u16_from_be(bytes))
            },
            Step::Failed(error) => Step::Failed(error),
        }
    }
}

/// A combined measurement in flight.
#[derive(Debug)]
pub struct CombinedRead {
    state: CombinedReadState,
}

impl View for CombinedRead {
    type V = CombinedReadState;

    closed spec fn view(&self) -> CombinedReadState {
        self.state
    }
}

impl CombinedRead {
    /// Begins a combined measurement: the pointer write of the temperature
    /// measurement is due.
    pub fn start(
        address: u8,
        unit: TemperatureUnit,
        temperature_delay_ns: u32,
        moisture_delay_ns: u32,
    ) -> (read: CombinedRead)
        ensures
            read@ == CombinedReadState::start(
                address,
                unit,
                temperature_delay_ns,
                moisture_delay_ns,
            ),
    {
        CombinedRead {
            state: CombinedReadState::Temperature {
                temperature_read: TemperatureReadState {
                    address,
                    unit,
                    delay_ns: temperature_delay_ns,
                    phase: Phase::Write,
                },
                moisture_delay_ns,
            },
        }
    }

    /// The operation that is due.
    pub fn action(&self) -> (action: Action)
        ensures
            action == self@.action(),
    {
        match self.state {
            CombinedReadState::Temperature { temperature_read, .. } => TemperatureRead {
                state: temperature_read,
            }.action(),
            CombinedReadState::Moisture { moisture_read, .. } => MoistureRead {
                state: moisture_read,
            }.action(),
        }
    }

    /// Advances the measurement by what came of the operation that was due.
    pub fn step<E>(self, event: Event<E>) -> (step: Step<CombinedRead, Reading, E>)
        ensures
            match step {
                Step::Next(read) => self@.next(event) == Step::<
                    CombinedReadState,
                    Reading,
                    E,
                >::Next(read@),
                Step::Done(reading) => self@.next(event) == Step::<
                    CombinedReadState,
                    Reading,
                    E,
                >::Done(reading),
                Step::Failed(error) => self@.next(event) == Step::<
                    CombinedReadState,
                    Reading,
                    E,
                >::Failed(error),
            },
    {
        match self.state {
            CombinedReadState::Temperature { temperature_read, moisture_delay_ns } => {
                match (TemperatureRead { state: temperature_read }).step(event) {
                    Step::Next(next) => Step::Next(
                        CombinedRead {
                            state: CombinedReadState::Temperature {
                                temperature_read: next.state,
                                moisture_delay_ns,
                            },
                        },
                    ),
                    Step::Done(temperature) => Step::Next(
                        CombinedRead {
                            state: CombinedReadState::Moisture {
                                temperature,
                                moisture_read: MoistureReadState {
                                    address: temperature_read.address,
                                    delay_ns: moisture_delay_ns,
                                    phase: Phase::Write,
                                },
                            },
                        },
                    ),
                    Step::Failed(error) => Step::Failed(error),
                }
            },
            CombinedReadState::Moisture { temperature, moisture_read } => {
                match (MoistureRead { state: moisture_read }).step(event) {
                    Step::Next(next) => Step::Next(
                        CombinedRead {
                            state: CombinedReadState::Moisture {
                                temperature,
                                moisture_read: next.state,
                            },
                        },
                    ),
                    Step::Done(moisture) => Step::Done(Reading { temperature, moisture }),
                    Step::Failed(error) => Step::Failed(error),
                }
            },
        }
    }
}

} // verus!
