//! The sensor: the bus and timer handles it owns, and how it is configured.

use crate::measurement::{
    CombinedRead, CombinedReadState, MoistureRead, MoistureReadState, TemperatureRead,
    TemperatureReadState,
};
use crate::reading::TemperatureUnit;
use crate::transaction::{Request, Transaction, TransactionState};
use vstd::prelude::*;

verus! {

/// Bus address of a sensor with both address pins open.
pub const BASE_ADDRESS: u8 = 0x36;

/// Settling time of the temperature register, in nanoseconds, unless
/// configured otherwise.
pub const TEMPERATURE_DELAY_NS: u32 = 125_000;

/// Settling time of the moisture register, in nanoseconds, unless configured
/// otherwise.
pub const MOISTURE_DELAY_NS: u32 = 5_000_000;

/// The address that the two address pins select: the base address, plus one
/// for `a0`, plus two for `a1`.
pub open spec fn pin_address(a0: bool, a1: bool) -> u8 {
    (BASE_ADDRESS + if a0 { 1int } else { 0int } + if a1 { 2int } else { 0int }) as u8
}

/// A sensor as contracts see it.
pub struct SoilSensorView<I2C, D> {
    pub i2c: I2C,
    pub delay: D,
    pub unit: TemperatureUnit,
    pub temperature_delay_ns: u32,
    pub moisture_delay_ns: u32,
    pub address: u8,
}

impl<I2C, D> SoilSensorView<I2C, D> {
    /// The sensor that `new` makes of two handles.
    pub open spec fn new(i2c: I2C, delay: D) -> Self {
        SoilSensorView {
            i2c,
            delay,
            unit: TemperatureUnit::Fahrenheit,
            temperature_delay_ns: TEMPERATURE_DELAY_NS,
            moisture_delay_ns: MOISTURE_DELAY_NS,
            address: BASE_ADDRESS,
        }
    }

    /// This sensor, reporting in `unit`.
    pub open spec fn with_units(self, unit: TemperatureUnit) -> Self {
        SoilSensorView { unit, ..self }
    }

    /// This sensor, at the address that the two address pins select.
    pub open spec fn with_address_pins(self, a0: bool, a1: bool) -> Self {
        SoilSensorView { address: pin_address(a0, a1), ..self }
    }

    /// This sensor, at `address`.
    pub open spec fn with_address(self, address: u8) -> Self {
        SoilSensorView { address, ..self }
    }

    /// This sensor, with both settling times replaced.
    pub open spec fn with_delay(self, temperature_ns: u32, moisture_ns: u32) -> Self {
        SoilSensorView {
            temperature_delay_ns: temperature_ns,
            moisture_delay_ns: moisture_ns,
            ..self
        }
    }

    /// This sensor, with the settling time of the temperature register
    /// replaced.
    pub open spec fn with_temperature_delay(self, temperature_ns: u32) -> Self {
        SoilSensorView { temperature_delay_ns: temperature_ns, ..self }
    }

    /// This sensor, with the settling time of the moisture register replaced.
    pub open spec fn with_moisture_delay(self, moisture_ns: u32) -> Self {
        SoilSensorView { moisture_delay_ns: moisture_ns, ..self }
    }

    /// The temperature measurement that this sensor begins.
    pub open spec fn temperature(self) -> TemperatureReadState {
        TemperatureReadState::start(self.address, self.unit, self.temperature_delay_ns)
    }

    /// The moisture measurement that this sensor begins.
    pub open spec fn moisture(self) -> MoistureReadState {
        MoistureReadState::start(self.address, self.moisture_delay_ns)
    }

    /// The combined measurement that this sensor begins.
    pub open spec fn read(self) -> CombinedReadState {
        CombinedReadState::start(
            self.address,
            self.unit,
            self.temperature_delay_ns,
            self.moisture_delay_ns,
        )
    }

    /// The register read that this sensor begins.
    pub open spec fn i2c_read(self, bytes: [u8; 2], len: usize, delay_ns: u32) -> TransactionState {
        TransactionState::start(
            Request { address: self.address, register: bytes, len, delay_ns },
        )
    }
}

/// A soil sensor on a two-wire bus, with the timer that paces its reads.
///
/// The sensor owns both handles but never touches them: its measurements
/// are state machines that say which bus or timer operation is due, and
/// the caller performs it on the handles that [`SoilSensor::i2c_mut`] and
/// [`SoilSensor::delay_mut`] lend out.
#[derive(Copy, Clone, Debug)]
pub struct SoilSensor<I2C, D> {
    i2c: I2C,
    delay: D,
    unit: TemperatureUnit,
    temp_delay: u32,
    moisture_delay: u32,
    address: u8,
}

impl<I2C, D> View for SoilSensor<I2C, D> {
    type V = SoilSensorView<I2C, D>;

    closed spec fn view(&self) -> SoilSensorView<I2C, D> {
        SoilSensorView {
            i2c: self.i2c,
            delay: self.delay,
            unit: self.unit,
            temperature_delay_ns: self.temp_delay,
            moisture_delay_ns: self.moisture_delay,
            address: self.address,
        }
    }
}

impl<I2C, D> SoilSensor<I2C, D> {
    /// Takes the two handles. The sensor answers at the base address,
    /// reports in Fahrenheit, and lets the registers settle for their
    /// default times.
    pub fn new(i2c: I2C, delay: D) -> (sensor: Self)
        ensures
            sensor@ == SoilSensorView::new(i2c, delay),
    {
        SoilSensor {
            i2c,
            delay,
            unit: TemperatureUnit::Fahrenheit,
            temp_delay: TEMPERATURE_DELAY_NS,
            moisture_delay: MOISTURE_DELAY_NS,
            address: BASE_ADDRESS,
        }
    }

    /// Sets the scale in which temperatures are reported.
    pub fn with_units(self, unit: TemperatureUnit) -> (sensor: Self)
        ensures
            sensor@ == self@.with_units(unit),
    {
        let mut sensor = self;
        sensor.unit = unit;
        sensor
    }

    /// Sets the address from the state of the two address pins. The address
    /// is counted from the base address, whatever it was before.
    pub fn with_address_pins(self, a0: bool, a1: bool) -> (sensor: Self)
        ensures
            sensor@ == self@.with_address_pins(a0, a1),
    {
        let mut sensor = self;
        sensor.address = BASE_ADDRESS;
        if a0 {
            sensor.address += 1;
        }
        if a1 {
            sensor.address += 2;
        }
        sensor
    }

    /// Sets the address.
    pub fn with_address(self, address: u8) -> (sensor: Self)
        ensures
            sensor@ == self@.with_address(address),
    {
        let mut sensor = self;
        sensor.address = address;
        sensor
    }

    /// Sets both settling times, in nanoseconds.
    pub fn with_delay(self, temp: u32, moisture: u32) -> (sensor: Self)
        ensures
            sensor@ == self@.with_delay(temp, moisture),
    {
        let mut sensor = self;
        sensor.temp_delay = temp;
        sensor.moisture_delay = moisture;
        sensor
    }

    /// Sets the settling time of the temperature register, in nanoseconds.
    pub fn with_temperature_delay(self, temp: u32) -> (sensor: Self)
        ensures
            sensor@ == self@.with_temperature_delay(temp),
    {
        let mut sensor = self;
        sensor.temp_delay = temp;
        sensor
    }

    /// Sets the settling time of the moisture register, in nanoseconds.
    pub fn with_moisture_delay(self, moisture: u32) -> (sensor: Self)
        ensures
            sensor@ == self@.with_moisture_delay(moisture),
    {
        let mut sensor = self;
        sensor.moisture_delay = moisture;
        sensor
    }

    /// The bus address in use.
    pub fn address(&self) -> (address: u8)
        ensures
            address == self@.address,
    {
        self.address
    }

    /// The scale in which temperatures are reported.
    pub fn unit(&self) -> (unit: TemperatureUnit)
        ensures
            unit == self@.unit,
    {
        self.unit
    }

    /// The settling time of the temperature register, in nanoseconds.
    pub fn temperature_delay(&self) -> (ns: u32)
        ensures
            ns == self@.temperature_delay_ns,
    {
        self.temp_delay
    }

    /// The settling time of the moisture register, in nanoseconds.
    pub fn moisture_delay(&self) -> (ns: u32)
        ensures
            ns == self@.moisture_delay_ns,
    {
        self.moisture_delay
    }

    /// Lends out the bus, to perform a write or a read that is due.
    pub fn i2c_mut(&mut self) -> (i2c: &mut I2C)
        ensures
            *i2c == old(self)@.i2c,
            final(self)@ == (SoilSensorView { i2c: *final(i2c), ..old(self)@ }),
    {
        &mut self.i2c
    }

    /// Lends out the timer, to perform a wait that is due.
    pub fn delay_mut(&mut self) -> (delay: &mut D)
        ensures
            *delay == old(self)@.delay,
            final(self)@ == (SoilSensorView { delay: *final(delay), ..old(self)@ }),
    {
        &mut self.delay
    }

    /// Gives the two handles back.
    pub fn release(self) -> (handles: (I2C, D))
        ensures
            handles == (self@.i2c, self@.delay),
    {
        (self.i2c, self.delay)
    }

    /// Begins a temperature measurement with the address, the scale and the
    /// settling time configured now.
    pub fn temperature(&self) -> (read: TemperatureRead)
        ensures
            read@ == self@.temperature(),
    {
        TemperatureRead::start(self.address, self.unit, self.temp_delay)
    }

    /// Begins a moisture measurement with the address and the settling time
    /// configured now.
    pub fn moisture(&self) -> (read: MoistureRead)
        ensures
            read@ == self@.moisture(),
    {
        MoistureRead::start(self.address, self.moisture_delay)
    }

    /// Begins a combined measurement, temperature first, with the
    /// configuration as it is now.
    pub fn read(&self) -> (read: CombinedRead)
        ensures
            read@ == self@.read(),
    {
        CombinedRead::start(self.address, self.unit, self.temp_delay, self.moisture_delay)
    }

    /// Begins a read of `len` bytes from the register that `bytes` points to,
    /// at the address configured now, with a settling time of `delay_ns`.
    pub fn i2c_read(&self, bytes: [u8; 2], len: usize, delay_ns: u32) -> (transaction: Transaction)
        ensures
            transaction@ == self@.i2c_read(bytes, len, delay_ns),
    {
        Transaction::start(Request { address: self.address, register: bytes, len, delay_ns })
    }
}

} // verus!
