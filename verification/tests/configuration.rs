use soil_sensor::error::SoilMoistureSensorError;
use soil_sensor::prelude::{SoilSensor as PreludeSensor, TemperatureUnit as PreludeUnit};
use soil_sensor::transaction::Action;
use soil_sensor::{SoilSensor, TemperatureUnit};

#[test]
fn new_sensor_has_the_defaults() {
    let sensor = SoilSensor::new("bus", "timer");
    assert_eq!(sensor.address(), 0x36);
    assert_eq!(sensor.unit(), TemperatureUnit::Fahrenheit);
    assert_eq!(sensor.temperature_delay(), 125_000);
    assert_eq!(sensor.moisture_delay(), 5_000_000);
}

#[test]
fn new_sensor_owns_the_handles_and_gives_them_back() {
    let sensor = SoilSensor::new(String::from("bus"), vec![1u8, 2, 3]);
    let (bus, timer) = sensor.with_address(0x40).release();
    assert_eq!(bus, "bus");
    assert_eq!(timer, vec![1u8, 2, 3]);
}

#[test]
fn handles_are_lent_out_mutably() {
    let mut sensor = SoilSensor::new(1u32, 10u32).with_address(0x41);
    *sensor.i2c_mut() += 1;
    *sensor.delay_mut() += 5;
    assert_eq!(sensor.address(), 0x41);
    assert_eq!(sensor.release(), (2, 15));
}

#[test]
fn default_unit_is_fahrenheit() {
    assert_eq!(TemperatureUnit::default(), TemperatureUnit::Fahrenheit);
}

#[test]
fn units_are_ordered_celsius_first() {
    assert!(TemperatureUnit::Celsius < TemperatureUnit::Fahrenheit);
}

#[test]
fn with_units_replaces_only_the_unit() {
    let sensor = SoilSensor::new((), ()).with_units(TemperatureUnit::Celsius);
    assert_eq!(sensor.unit(), TemperatureUnit::Celsius);
    assert_eq!(sensor.address(), 0x36);
    assert_eq!(sensor.temperature_delay(), 125_000);
    assert_eq!(sensor.moisture_delay(), 5_000_000);
}

#[test]
fn with_address_replaces_only_the_address() {
    let sensor = SoilSensor::new((), ()).with_address(0x7F);
    assert_eq!(sensor.address(), 0x7F);
    assert_eq!(sensor.unit(), TemperatureUnit::Fahrenheit);
    assert_eq!(sensor.temperature_delay(), 125_000);
    assert_eq!(sensor.moisture_delay(), 5_000_000);
}

#[test]
fn any_byte_is_accepted_as_address() {
    assert_eq!(SoilSensor::new((), ()).with_address(0x00).address(), 0x00);
    assert_eq!(SoilSensor::new((), ()).with_address(0xFF).address(), 0xFF);
}

#[test]
fn address_pins_count_from_the_base_address() {
    assert_eq!(SoilSensor::new((), ()).with_address_pins(false, false).address(), 0x36);
    assert_eq!(SoilSensor::new((), ()).with_address_pins(true, false).address(), 0x37);
    assert_eq!(SoilSensor::new((), ()).with_address_pins(false, true).address(), 0x38);
    assert_eq!(SoilSensor::new((), ()).with_address_pins(true, true).address(), 0x39);
}

#[test]
fn address_pins_discard_a_direct_address() {
    for address in [0x00u8, 0x10, 0x36, 0x39, 0x7F, 0xFF] {
        let sensor = SoilSensor::new((), ()).with_address(address).with_address_pins(true, true);
        assert_eq!(sensor.address(), 0x39);
    }
}

#[test]
fn address_pins_do_not_add_up_over_calls() {
    let sensor = SoilSensor::new((), ())
        .with_address_pins(true, true)
        .with_address_pins(true, false);
    assert_eq!(sensor.address(), 0x37);
}

#[test]
fn direct_address_after_pins_wins() {
    let sensor = SoilSensor::new((), ()).with_address_pins(true, true).with_address(0x12);
    assert_eq!(sensor.address(), 0x12);
}

#[test]
fn with_delay_replaces_both_delays() {
    let sensor = SoilSensor::new((), ()).with_delay(1, 2);
    assert_eq!(sensor.temperature_delay(), 1);
    assert_eq!(sensor.moisture_delay(), 2);
    assert_eq!(sensor.address(), 0x36);
    assert_eq!(sensor.unit(), TemperatureUnit::Fahrenheit);
}

#[test]
fn single_delays_are_replaced_independently() {
    let sensor = SoilSensor::new((), ()).with_temperature_delay(7);
    assert_eq!(sensor.temperature_delay(), 7);
    assert_eq!(sensor.moisture_delay(), 5_000_000);
    let sensor = sensor.with_moisture_delay(9);
    assert_eq!(sensor.temperature_delay(), 7);
    assert_eq!(sensor.moisture_delay(), 9);
    let sensor = SoilSensor::new((), ()).with_moisture_delay(u32::MAX).with_temperature_delay(0);
    assert_eq!(sensor.temperature_delay(), 0);
    assert_eq!(sensor.moisture_delay(), u32::MAX);
}

#[test]
fn setters_compose_in_any_order() {
    let one = SoilSensor::new((), ())
        .with_units(TemperatureUnit::Celsius)
        .with_address(0x44)
        .with_delay(3, 4);
    let other = SoilSensor::new((), ())
        .with_moisture_delay(4)
        .with_address(0x44)
        .with_temperature_delay(3)
        .with_units(TemperatureUnit::Celsius);
    assert_eq!(one.unit(), other.unit());
    assert_eq!(one.address(), other.address());
    assert_eq!(one.temperature_delay(), other.temperature_delay());
    assert_eq!(one.moisture_delay(), other.moisture_delay());
}

#[test]
fn measurements_begin_with_the_configuration_of_the_moment() {
    let sensor = SoilSensor::new((), ()).with_address_pins(false, true).with_delay(11, 22);
    assert_eq!(
        sensor.temperature().action(),
        Action::Write { address: 0x38, bytes: [0x00, 0x04] }
    );
    assert_eq!(sensor.moisture().action(), Action::Write { address: 0x38, bytes: [0x0F, 0x10] });
    assert_eq!(sensor.read().action(), Action::Write { address: 0x38, bytes: [0x00, 0x04] });
    assert_eq!(
        sensor.i2c_read([0xAA, 0xBB], 3, 5).action(),
        Action::Write { address: 0x38, bytes: [0xAA, 0xBB] }
    );
}

#[test]
fn prelude_names_the_same_items() {
    let sensor: SoilSensor<(), ()> = PreludeSensor::new((), ()).with_units(PreludeUnit::Celsius);
    assert_eq!(sensor.unit(), TemperatureUnit::Celsius);
}

#[test]
fn errors_are_ordered_and_comparable() {
    let composite: SoilMoistureSensorError<u8> = SoilMoistureSensorError::WriteReadI2CError;
    let write_low = SoilMoistureSensorError::WriteI2CError(1u8);
    let write_high = SoilMoistureSensorError::WriteI2CError(2u8);
    let read: SoilMoistureSensorError<u8> = SoilMoistureSensorError::ReadI2CError;
    assert!(composite < write_low);
    assert!(write_low < write_high);
    assert!(write_high < read);
    assert_eq!(write_low, SoilMoistureSensorError::WriteI2CError(1u8));
    assert_ne!(write_low, write_high);
    assert_ne!(read, composite);
    let copy = write_low;
    assert_eq!(copy, write_low);
}
