//! What holds of the configuration methods taken together, and of every run
//! of a register read and of a combined measurement.
//!
//! A run is the state that a sensor begins with and the events that the
//! caller hands in, in order. Nothing is assumed of the events: they need
//! not report on the operation that was due. Where a law finds a place in a
//! run, the proof function returns it.

use crate::bytes::{be_i32, be_u16};
use crate::error::SoilMoistureSensorError;
use crate::measurement::{CombinedReadState, TemperatureReadState};
use crate::reading::{Reading, Temperature, TemperatureUnit};
use crate::sensor::SoilSensorView;
use crate::transaction::{Action, Event, Phase, Request, Step, TransactionState};
use vstd::prelude::*;

verus! {

/// The address pins override an address that was set directly: whatever the
/// address was, the pins count from the base address. With both pins set the
/// address is `0x39`.
pub proof fn lemma_pins_override_address<I2C, D>(
    sensor: SoilSensorView<I2C, D>,
    address: u8,
    a0: bool,
    a1: bool,
)
    ensures
        sensor.with_address(address).with_address_pins(a0, a1) == sensor.with_address_pins(a0, a1),
        sensor.with_address_pins(a0, a1).address == 0x36 + (if a0 {
            1int
        } else {
            0int
        }) + (if a1 {
            2int
        } else {
            0int
        }),
        sensor.with_address(address).with_address_pins(true, true).address == 0x39,
{
}

/// The configuration methods that set different things can be applied in
/// either order, and setting both settling times at once is setting one
/// after the other.
pub proof fn lemma_settings_are_independent<I2C, D>(
    sensor: SoilSensorView<I2C, D>,
    unit: TemperatureUnit,
    address: u8,
    temperature_ns: u32,
    moisture_ns: u32,
)
    ensures
        sensor.with_units(unit).with_address(address) == sensor.with_address(address).with_units(
            unit,
        ),
        sensor.with_units(unit).with_delay(temperature_ns, moisture_ns) == sensor.with_delay(
            temperature_ns,
            moisture_ns,
        ).with_units(unit),
        sensor.with_address(address).with_delay(temperature_ns, moisture_ns) == sensor.with_delay(
            temperature_ns,
            moisture_ns,
        ).with_address(address),
        sensor.with_temperature_delay(temperature_ns).with_moisture_delay(moisture_ns)
            == sensor.with_moisture_delay(moisture_ns).with_temperature_delay(temperature_ns),
        sensor.with_delay(temperature_ns, moisture_ns) == sensor.with_temperature_delay(
            temperature_ns,
        ).with_moisture_delay(moisture_ns),
{
}

/// A register read in flight goes by the request it began with.
pub proof fn lemma_request_is_kept<E>(request: Request, events: Seq<Event<E>>, n: nat)
    ensures
        TransactionState::start(request).after(events, n) matches Step::Next(state)
            ==> state.request == request,
    decreases n,
{
    if n > 0 {
        lemma_request_is_kept(request, events, (n - 1) as nat);
    }
}

/// A register read that is over stays as it ended.
pub proof fn lemma_transaction_stays_over<E>(
    start: TransactionState,
    events: Seq<Event<E>>,
    i: nat,
    n: nat,
)
    requires
        i <= n,
        !(start.after(events, i) is Next),
    ensures
        start.after(events, n) == start.after(events, i),
    decreases n,
{
    if i < n {
        lemma_transaction_stays_over(start, events, i, (n - 1) as nat);
    }
}

/// If the pointer write of a register read fails, the read is over at once,
/// with the write error and the cause that the bus gave: no operation is due
/// after it.
pub proof fn lemma_failed_write_ends_transaction<E>(
    start: TransactionState,
    events: Seq<Event<E>>,
    i: nat,
    n: nat,
    cause: E,
)
    requires
        start.due(events, i) matches Some(Action::Write { .. }),
        events[i as int] == Event::<E>::Written(Err(cause)),
        i < n <= events.len(),
    ensures
        start.after(events, n) == Step::<TransactionState, Seq<u8>, E>::Failed(
            SoilMoistureSensorError::WriteI2CError(cause),
        ),
        start.due(events, n) is None,
{
    assert(start.after(events, i + 1) == Step::<TransactionState, Seq<u8>, E>::Failed(
        SoilMoistureSensorError::WriteI2CError(cause),
    ));
    lemma_transaction_stays_over(start, events, i + 1, n);
}

/// If the data read of a register read fails, or brings another number of
/// bytes than the register holds, the read is over at once, with the read
/// error.
pub proof fn lemma_failed_read_ends_transaction<E>(
    start: TransactionState,
    events: Seq<Event<E>>,
    i: nat,
    n: nat,
)
    requires
        start.due(events, i) matches Some(Action::Read { len, .. }) && (events[i as int] matches
        Event::Received(outcome) && (outcome matches Ok(data) ==> data@.len() != len)),
        i < n <= events.len(),
    ensures
        start.after(events, n) == Step::<TransactionState, Seq<u8>, E>::Failed(
            SoilMoistureSensorError::ReadI2CError,
        ),
        start.due(events, n) is None,
{
    assert(start.after(events, i + 1) == Step::<TransactionState, Seq<u8>, E>::Failed(
        SoilMoistureSensorError::ReadI2CError,
    ));
    lemma_transaction_stays_over(start, events, i + 1, n);
}

/// The wait of a register read is only due once the pointer has been
/// written. The result is the place in the run where the write was due and
/// was reported as done.
pub proof fn lemma_delay_follows_write<E>(
    request: Request,
    events: Seq<Event<E>>,
    n: nat,
) -> (written: nat)
    requires
        n <= events.len(),
        TransactionState::start(request).due(events, n) matches Some(Action::Delay { .. }),
    ensures
        written < n,
        TransactionState::start(request).due(events, written) == Some(
            Action::Write { address: request.address, bytes: request.register },
        ),
        events[written as int] matches Event::Written(outcome) && outcome is Ok,
    decreases n,
{
    let before: nat = (n - 1) as nat;
    lemma_request_is_kept(request, events, before);
    match TransactionState::start(request).after(events, before) {
        Step::Next(state) => {
            if state.phase == Phase::Delay {
                lemma_delay_follows_write(request, events, before)
            } else {
                before
            }
        },
        _ => before,
    }
}

/// The data of a register read is only read after the pointer was written
/// and the sensor was given the time to settle that the request names. The
/// result is the place in the run where the write was due and was reported
/// as done, and the later place where the wait was due and was reported as
/// over.
pub proof fn lemma_read_follows_delay<E>(
    request: Request,
    events: Seq<Event<E>>,
    n: nat,
) -> (places: (nat, nat))
    requires
        n <= events.len(),
        TransactionState::start(request).due(events, n) matches Some(Action::Read { .. }),
    ensures
        places.0 < places.1 < n,
        TransactionState::start(request).due(events, places.0) == Some(
            Action::Write { address: request.address, bytes: request.register },
        ),
        events[places.0 as int] matches Event::Written(outcome) && outcome is Ok,
        TransactionState::start(request).due(events, places.1) == Some(
            Action::Delay { ns: request.delay_ns },
        ),
        events[places.1 as int] == Event::<E>::Waited,
    decreases n,
{
    let before: nat = (n - 1) as nat;
    lemma_request_is_kept(request, events, before);
    match TransactionState::start(request).after(events, before) {
        Step::Next(state) => {
            if state.phase == Phase::Read {
                lemma_read_follows_delay(request, events, before)
            } else {
                let written = lemma_delay_follows_write(request, events, before);
                (written, before)
            }
        },
        _ => (before, before),
    }
}

/// The scale that is configured takes no part in the bus traffic and does
/// not change the count that is read: it only labels the sample. Degrees of
/// either scale are computed from the same count.
pub proof fn lemma_unit_only_labels_the_sample<E>(
    state: TemperatureReadState,
    unit: TemperatureUnit,
    event: Event<E>,
)
    ensures
        (TemperatureReadState { unit, ..state }).action() == state.action(),
        match (state.next(event), (TemperatureReadState { unit, ..state }).next(event)) {
            (Step::Next(one), Step::Next(other)) => other == (TemperatureReadState {
                unit,
                ..one
            }),
            (Step::Done(one), Step::Done(other)) => other == (Temperature { unit, ..one }),
            (Step::Failed(one), Step::Failed(other)) => other == one,
            _ => false,
        },
{
}

/// A combined measurement in flight goes by the configuration it began with.
pub proof fn lemma_configuration_is_kept<I2C, D, E>(
    sensor: SoilSensorView<I2C, D>,
    events: Seq<Event<E>>,
    n: nat,
)
    ensures
        match sensor.read().after(events, n) {
            Step::Next(
                CombinedReadState::Temperature { temperature_read, moisture_delay_ns },
            ) => {
                &&& temperature_read.address == sensor.address
                &&& temperature_read.unit == sensor.unit
                &&& temperature_read.delay_ns == sensor.temperature_delay_ns
                &&& moisture_delay_ns == sensor.moisture_delay_ns
            },
            Step::Next(CombinedReadState::Moisture { temperature, moisture_read }) => {
                &&& moisture_read.address == sensor.address
                &&& moisture_read.delay_ns == sensor.moisture_delay_ns
                &&& temperature.unit == sensor.unit
            },
            Step::Done(reading) => reading.temperature.unit == sensor.unit,
            Step::Failed(_) => true,
        },
    decreases n,
{
    if n > 0 {
        lemma_configuration_is_kept(sensor, events, (n - 1) as nat);
    }
}

/// A combined measurement that is over stays as it ended.
pub proof fn lemma_read_stays_over<E>(
    start: CombinedReadState,
    events: Seq<Event<E>>,
    i: nat,
    n: nat,
)
    requires
        i <= n,
        !(start.after(events, i) is Next),
    ensures
        start.after(events, n) == start.after(events, i),
    decreases n,
{
    if i < n {
        lemma_read_stays_over(start, events, i, (n - 1) as nat);
    }
}

/// If a pointer write fails, the combined measurement is over at once, with
/// the write error and the cause that the bus gave: no operation is due
/// after it, and no read in particular.
pub proof fn lemma_failed_write_ends_read<E>(
    start: CombinedReadState,
    events: Seq<Event<E>>,
    i: nat,
    n: nat,
    cause: E,
)
    requires
        start.due(events, i) matches Some(Action::Write { .. }),
        events[i as int] == Event::<E>::Written(Err(cause)),
        i < n <= events.len(),
    ensures
        start.after(events, n) == Step::<CombinedReadState, Reading, E>::Failed(
            SoilMoistureSensorError::WriteI2CError(cause),
        ),
        start.due(events, n) is None,
{
    assert(start.after(events, i + 1) == Step::<CombinedReadState, Reading, E>::Failed(
        SoilMoistureSensorError::WriteI2CError(cause),
    ));
    lemma_read_stays_over(start, events, i + 1, n);
}

/// If the first pointer write of a combined measurement fails, no read is
/// ever due in that run, whatever is handed in afterwards.
pub proof fn lemma_no_read_after_failed_first_write<I2C, D, E>(
    sensor: SoilSensorView<I2C, D>,
    events: Seq<Event<E>>,
    cause: E,
)
    requires
        events.len() > 0,
        events[0] == Event::<E>::Written(Err(cause)),
    ensures
        forall|n: nat|
            n <= events.len() ==> !(#[trigger] sensor.read().due(events, n) matches Some(
                Action::Read { .. },
            )),
{
    let start = sensor.read();
    assert forall|n: nat| n <= events.len() implies !(#[trigger] start.due(events, n) matches Some(
        Action::Read { .. },
    )) by {
        if n > 0 {
            lemma_failed_write_ends_read(start, events, 0, n, cause);
        }
    }
}

/// If a data read fails after its pointer write went through, the combined
/// measurement is over at once, with the read error and not the write error.
/// A read that brings another number of bytes than the register holds has
/// failed too.
pub proof fn lemma_failed_read_ends_read<E>(
    start: CombinedReadState,
    events: Seq<Event<E>>,
    i: nat,
    n: nat,
)
    requires
        start.due(events, i) matches Some(Action::Read { len, .. }) && (events[i as int] matches
        Event::Received(outcome) && (outcome matches Ok(data) ==> data@.len() != len)),
        i < n <= events.len(),
    ensures
        start.after(events, n) == Step::<CombinedReadState, Reading, E>::Failed(
            SoilMoistureSensorError::ReadI2CError,
        ),
        start.due(events, n) is None,
{
    assert(start.after(events, i + 1) == Step::<CombinedReadState, Reading, E>::Failed(
        SoilMoistureSensorError::ReadI2CError,
    ));
    lemma_read_stays_over(start, events, i + 1, n);
}

/// No run of a combined measurement ends with the error of a combined
/// write-read bus operation.
pub proof fn lemma_composite_error_is_not_reported<I2C, D, E>(
    sensor: SoilSensorView<I2C, D>,
    events: Seq<Event<E>>,
    n: nat,
)
    ensures
        sensor.read().after(events, n) != Step::<CombinedReadState, Reading, E>::Failed(
            SoilMoistureSensorError::WriteReadI2CError,
        ),
    decreases n,
{
    if n > 0 {
        lemma_composite_error_is_not_reported(sensor, events, (n - 1) as nat);
    }
}

/// In a combined measurement, the temperature wait is only due once the
/// temperature pointer has been written. The result is the place in the run
/// where that write was due and was reported as done.
pub proof fn lemma_temperature_delay_follows_write<I2C, D, E>(
    sensor: SoilSensorView<I2C, D>,
    events: Seq<Event<E>>,
    n: nat,
) -> (written: nat)
    requires
        n <= events.len(),
        sensor.read().after(events, n) matches Step::Next(
            CombinedReadState::Temperature { temperature_read, .. },
        ) && temperature_read.phase == Phase::Delay,
    ensures
        written < n,
        sensor.read().due(events, written) == Some(
            Action::Write { address: sensor.address, bytes: [0x00u8, 0x04u8] },
        ),
        events[written as int] matches Event::Written(outcome) && outcome is Ok,
    decreases n,
{
    let before: nat = (n - 1) as nat;
    lemma_configuration_is_kept(sensor, events, before);
    match sensor.read().after(events, before) {
        Step::Next(CombinedReadState::Temperature { temperature_read, .. }) => {
            if temperature_read.phase == Phase::Delay {
                lemma_temperature_delay_follows_write(sensor, events, before)
            } else {
                before
            }
        },
        _ => before,
    }
}

/// In a combined measurement, the temperature is only read after its
/// pointer was written and the sensor was given the time to settle that is
/// configured for the temperature. The result is the place in the run where
/// the write was due and was reported as done, and the later place where the
/// wait was due and was reported as over.
pub proof fn lemma_temperature_read_follows_delay<I2C, D, E>(
    sensor: SoilSensorView<I2C, D>,
    events: Seq<Event<E>>,
    n: nat,
) -> (places: (nat, nat))
    requires
        n <= events.len(),
        sensor.read().due(events, n) matches Some(Action::Read { len, .. }) && len == 4,
    ensures
        places.0 < places.1 < n,
        sensor.read().due(events, places.0) == Some(
            Action::Write { address: sensor.address, bytes: [0x00u8, 0x04u8] },
        ),
        events[places.0 as int] matches Event::Written(outcome) && outcome is Ok,
        sensor.read().due(events, places.1) == Some(
            Action::Delay { ns: sensor.temperature_delay_ns },
        ),
        events[places.1 as int] == Event::<E>::Waited,
    decreases n,
{
    let before: nat = (n - 1) as nat;
    lemma_configuration_is_kept(sensor, events, before);
    match sensor.read().after(events, before) {
        Step::Next(CombinedReadState::Temperature { temperature_read, .. }) => {
            if temperature_read.phase == Phase::Read {
                lemma_temperature_read_follows_delay(sensor, events, before)
            } else {
                let written = lemma_temperature_delay_follows_write(sensor, events, before);
                (written, before)
            }
        },
        _ => (before, before),
    }
}

/// In a combined measurement, the moisture wait is only due once the
/// moisture pointer has been written. The result is the place in the run
/// where that write was due and was reported as done.
pub proof fn lemma_moisture_delay_follows_write<I2C, D, E>(
    sensor: SoilSensorView<I2C, D>,
    events: Seq<Event<E>>,
    n: nat,
) -> (written: nat)
    requires
        n <= events.len(),
        sensor.read().after(events, n) matches Step::Next(
            CombinedReadState::Moisture { moisture_read, .. },
        ) && moisture_read.phase == Phase::Delay,
    ensures
        written < n,
        sensor.read().due(events, written) == Some(
            Action::Write { address: sensor.address, bytes: [0x0Fu8, 0x10u8] },
        ),
        events[written as int] matches Event::Written(outcome) && outcome is Ok,
    decreases n,
{
    let before: nat = (n - 1) as nat;
    lemma_configuration_is_kept(sensor, events, before);
    match sensor.read().after(events, before) {
        Step::Next(CombinedReadState::Moisture { moisture_read, .. }) => {
            if moisture_read.phase == Phase::Delay {
                lemma_moisture_delay_follows_write(sensor, events, before)
            } else {
                before
            }
        },
        _ => before,
    }
}

/// In a combined measurement, the moisture is only read after its pointer
/// was written and the sensor was given the time to settle that is
/// configured for the moisture. The result is the place in the run where the
/// write was due and was reported as done, and the later place where the
/// wait was due and was reported as over.
pub proof fn lemma_moisture_read_follows_delay<I2C, D, E>(
    sensor: SoilSensorView<I2C, D>,
    events: Seq<Event<E>>,
    n: nat,
) -> (places: (nat, nat))
    requires
        n <= events.len(),
        sensor.read().due(events, n) matches Some(Action::Read { len, .. }) && len == 2,
    ensures
        places.0 < places.1 < n,
        sensor.read().due(events, places.0) == Some(
            Action::Write { address: sensor.address, bytes: [0x0Fu8, 0x10u8] },
        ),
        events[places.0 as int] matches Event::Written(outcome) && outcome is Ok,
        sensor.read().due(events, places.1) == Some(
            Action::Delay { ns: sensor.moisture_delay_ns },
        ),
        events[places.1 as int] == Event::<E>::Waited,
    decreases n,
{
    let before: nat = (n - 1) as nat;
    lemma_configuration_is_kept(sensor, events, before);
    match sensor.read().after(events, before) {
        Step::Next(CombinedReadState::Moisture { moisture_read, .. }) => {
            if moisture_read.phase == Phase::Read {
                lemma_moisture_read_follows_delay(sensor, events, before)
            } else {
                let written = lemma_moisture_delay_follows_write(sensor, events, before);
                (written, before)
            }
        },
        _ => (before, before),
    }
}

/// When every operation succeeds, a combined measurement asks for six
/// operations in this order: pointer write, wait and data read for the
/// temperature, then the same for the moisture, each wait with the settling
/// time configured for its register. It ends with the two samples, decoded
/// from the bytes that were read.
pub proof fn lemma_successful_read<I2C, D, E>(
    sensor: SoilSensorView<I2C, D>,
    events: Seq<Event<E>>,
    temperature: Vec<u8>,
    moisture: Vec<u8>,
)
    requires
        events.len() == 6,
        events[0] matches Event::Written(outcome) && outcome is Ok,
        events[1] == Event::<E>::Waited,
        events[2] == Event::<E>::Received(Ok(temperature)),
        temperature@.len() == 4,
        events[3] matches Event::Written(outcome) && outcome is Ok,
        events[4] == Event::<E>::Waited,
        events[5] == Event::<E>::Received(Ok(moisture)),
        moisture@.len() == 2,
    ensures
        sensor.read().due(events, 0) == Some(
            Action::Write { address: sensor.address, bytes: [0x00u8, 0x04u8] },
        ),
        sensor.read().due(events, 1) == Some(Action::Delay { ns: sensor.temperature_delay_ns }),
        sensor.read().due(events, 2) == Some(Action::Read { address: sensor.address, len: 4 }),
        sensor.read().due(events, 3) == Some(
            Action::Write { address: sensor.address, bytes: [0x0Fu8, 0x10u8] },
        ),
        sensor.read().due(events, 4) == Some(Action::Delay { ns: sensor.moisture_delay_ns }),
        sensor.read().due(events, 5) == Some(Action::Read { address: sensor.address, len: 2 }),
        sensor.read().after(events, 6) == Step::<CombinedReadState, Reading, E>::Done(
            Reading {
                temperature: Temperature { raw: be_i32(temperature@) as i32, unit: sensor.unit },
                moisture: be_u16(moisture@) as u16,
            },
        ),
{
    reveal_with_fuel(CombinedReadState::after, 7);
}

} // verus!
