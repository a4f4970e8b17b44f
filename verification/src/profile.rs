//! Fixed configuration data of the provisioning profile: the UUIDs of the
//! services, characteristics and descriptors the machine creates, the
//! descriptor payloads, the device address and the advertised name.
//!
//! Each value exists as a spec function, used by the contracts, and as an
//! executable function proved to return the same value.

use vstd::prelude::*;

use crate::types::Uuid;

verus! {

pub open spec fn spec_acc_service_uuid() -> Uuid {
    Uuid::Uuid128(
        [
            0x02, 0x36, 0x6e, 0x80, 0xcf, 0x3a, 0x11, 0xe1, 0x9a, 0xb4, 0x00, 0x02, 0xa5, 0xd5,
            0xc5, 0x1b,
        ],
    )
}

pub fn acc_service_uuid() -> (u: Uuid)
    ensures
        u == spec_acc_service_uuid(),
{
    Uuid::Uuid128(
        [
            0x02, 0x36, 0x6e, 0x80, 0xcf, 0x3a, 0x11, 0xe1, 0x9a, 0xb4, 0x00, 0x02, 0xa5, 0xd5,
            0xc5, 0x1b,
        ],
    )
}

pub open spec fn spec_acc_free_fall_uuid() -> Uuid {
    Uuid::Uuid128(
        [
            0xe2, 0x3e, 0x78, 0xa0, 0xcf, 0x4a, 0x11, 0xe1, 0x8f, 0xfc, 0x00, 0x02, 0xa5, 0xd5,
            0xc5, 0x1b,
        ],
    )
}

pub fn acc_free_fall_uuid() -> (u: Uuid)
    ensures
        u == spec_acc_free_fall_uuid(),
{
    Uuid::Uuid128(
        [
            0xe2, 0x3e, 0x78, 0xa0, 0xcf, 0x4a, 0x11, 0xe1, 0x8f, 0xfc, 0x00, 0x02, 0xa5, 0xd5,
            0xc5, 0x1b,
        ],
    )
}

pub open spec fn spec_acc_uuid() -> Uuid {
    Uuid::Uuid128(
        [
            0x34, 0x0a, 0x1b, 0x80, 0xcf, 0x4b, 0x11, 0xe1, 0xac, 0x36, 0x00, 0x02, 0xa5, 0xd5,
            0xc5, 0x1b,
        ],
    )
}

pub fn acc_uuid() -> (u: Uuid)
    ensures
        u == spec_acc_uuid(),
{
    Uuid::Uuid128(
        [
            0x34, 0x0a, 0x1b, 0x80, 0xcf, 0x4b, 0x11, 0xe1, 0xac, 0x36, 0x00, 0x02, 0xa5, 0xd5,
            0xc5, 0x1b,
        ],
    )
}

pub open spec fn spec_environmental_sensor_service_uuid() -> Uuid {
    Uuid::Uuid128(
        [
            0x42, 0x82, 0x1a, 0x40, 0xe4, 0x77, 0x11, 0xe2, 0x82, 0xd0, 0x00, 0x02, 0xa5, 0xd5,
            0xc5, 0x1b,
        ],
    )
}

pub fn environmental_sensor_service_uuid() -> (u: Uuid)
    ensures
        u == spec_environmental_sensor_service_uuid(),
{
    Uuid::Uuid128(
        [
            0x42, 0x82, 0x1a, 0x40, 0xe4, 0x77, 0x11, 0xe2, 0x82, 0xd0, 0x00, 0x02, 0xa5, 0xd5,
            0xc5, 0x1b,
        ],
    )
}

pub open spec fn spec_temperature_characteristic_uuid() -> Uuid {
    Uuid::Uuid128(
        [
            0xa3, 0x2e, 0x55, 0x20, 0xe4, 0x77, 0x11, 0xe2, 0xa9, 0xe3, 0x00, 0x02, 0xa5, 0xd5,
            0xc5, 0x1b,
        ],
    )
}

pub fn temperature_characteristic_uuid() -> (u: Uuid)
    ensures
        u == spec_temperature_characteristic_uuid(),
{
    Uuid::Uuid128(
        [
            0xa3, 0x2e, 0x55, 0x20, 0xe4, 0x77, 0x11, 0xe2, 0xa9, 0xe3, 0x00, 0x02, 0xa5, 0xd5,
            0xc5, 0x1b,
        ],
    )
}

pub open spec fn spec_pressure_characteristic_uuid() -> Uuid {
    Uuid::Uuid128(
        [
            0xcd, 0x20, 0xc4, 0x80, 0xe4, 0x8b, 0x11, 0xe2, 0x84, 0x0b, 0x00, 0x02, 0xa5, 0xd5,
            0xc5, 0x1b,
        ],
    )
}

pub fn pressure_characteristic_uuid() -> (u: Uuid)
    ensures
        u == spec_pressure_characteristic_uuid(),
{
    Uuid::Uuid128(
        [
            0xcd, 0x20, 0xc4, 0x80, 0xe4, 0x8b, 0x11, 0xe2, 0x84, 0x0b, 0x00, 0x02, 0xa5, 0xd5,
            0xc5, 0x1b,
        ],
    )
}

pub open spec fn spec_humidity_characteristic_uuid() -> Uuid {
    Uuid::Uuid128(
        [
            0x01, 0xc5, 0x0b, 0x60, 0xe4, 0x8c, 0x11, 0xe2, 0xa0, 0x73, 0x00, 0x02, 0xa5, 0xd5,
            0xc5, 0x1b,
        ],
    )
}

pub fn humidity_characteristic_uuid() -> (u: Uuid)
    ensures
        u == spec_humidity_characteristic_uuid(),
{
    Uuid::Uuid128(
        [
            0x01, 0xc5, 0x0b, 0x60, 0xe4, 0x8c, 0x11, 0xe2, 0xa0, 0x73, 0x00, 0x02, 0xa5, 0xd5,
            0xc5, 0x1b,
        ],
    )
}

pub open spec fn spec_time_service_uuid() -> Uuid {
    Uuid::Uuid128(
        [
            0x08, 0x36, 0x6e, 0x80, 0xcf, 0x3a, 0x11, 0xe1, 0x9a, 0xb4, 0x00, 0x02, 0xa5, 0xd5,
            0xc5, 0x1b,
        ],
    )
}

pub fn time_service_uuid() -> (u: Uuid)
    ensures
        u == spec_time_service_uuid(),
{
    Uuid::Uuid128(
        [
            0x08, 0x36, 0x6e, 0x80, 0xcf, 0x3a, 0x11, 0xe1, 0x9a, 0xb4, 0x00, 0x02, 0xa5, 0xd5,
            0xc5, 0x1b,
        ],
    )
}

pub open spec fn spec_time_characteristic_uuid() -> Uuid {
    Uuid::Uuid128(
        [
            0x09, 0x36, 0x6e, 0x80, 0xcf, 0x3a, 0x11, 0xe1, 0x9a, 0xb4, 0x00, 0x02, 0xa5, 0xd5,
            0xc5, 0x1b,
        ],
    )
}

pub fn time_characteristic_uuid() -> (u: Uuid)
    ensures
        u == spec_time_characteristic_uuid(),
{
    Uuid::Uuid128(
        [
            0x09, 0x36, 0x6e, 0x80, 0xcf, 0x3a, 0x11, 0xe1, 0x9a, 0xb4, 0x00, 0x02, 0xa5, 0xd5,
            0xc5, 0x1b,
        ],
    )
}

pub open spec fn spec_minute_characteristic_uuid() -> Uuid {
    Uuid::Uuid128(
        [
            0x0a, 0x36, 0x6e, 0x80, 0xcf, 0x3a, 0x11, 0xe1, 0x9a, 0xb4, 0x00, 0x02, 0xa5, 0xd5,
            0xc5, 0x1b,
        ],
    )
}

pub fn minute_characteristic_uuid() -> (u: Uuid)
    ensures
        u == spec_minute_characteristic_uuid(),
{
    Uuid::Uuid128(
        [
            0x0a, 0x36, 0x6e, 0x80, 0xcf, 0x3a, 0x11, 0xe1, 0x9a, 0xb4, 0x00, 0x02, 0xa5, 0xd5,
            0xc5, 0x1b,
        ],
    )
}

pub open spec fn spec_led_service_uuid() -> Uuid {
    Uuid::Uuid128(
        [
            0x0b, 0x36, 0x6e, 0x80, 0xcf, 0x3a, 0x11, 0xe1, 0x9a, 0xb4, 0x00, 0x02, 0xa5, 0xd5,
            0xc5, 0x1b,
        ],
    )
}

pub fn led_service_uuid() -> (u: Uuid)
    ensures
        u == spec_led_service_uuid(),
{
    Uuid::Uuid128(
        [
            0x0b, 0x36, 0x6e, 0x80, 0xcf, 0x3a, 0x11, 0xe1, 0x9a, 0xb4, 0x00, 0x02, 0xa5, 0xd5,
            0xc5, 0x1b,
        ],
    )
}

pub open spec fn spec_led_characteristic_uuid() -> Uuid {
    Uuid::Uuid128(
        [
            0x0c, 0x36, 0x6e, 0x80, 0xcf, 0x3a, 0x11, 0xe1, 0x9a, 0xb4, 0x00, 0x02, 0xa5, 0xd5,
            0xc5, 0x1b,
        ],
    )
}

pub fn led_characteristic_uuid() -> (u: Uuid)
    ensures
        u == spec_led_characteristic_uuid(),
{
    Uuid::Uuid128(
        [
            0x0c, 0x36, 0x6e, 0x80, 0xcf, 0x3a, 0x11, 0xe1, 0x9a, 0xb4, 0x00, 0x02, 0xa5, 0xd5,
            0xc5, 0x1b,
        ],
    )
}

/// The presentation-format descriptors share one 16-bit UUID.
pub open spec fn spec_presentation_format_uuid() -> Uuid {
    Uuid::Uuid16(0x2904)
}

pub fn presentation_format_uuid() -> (u: Uuid)
    ensures
        u == spec_presentation_format_uuid(),
{
    Uuid::Uuid16(0x2904)
}

/// Presentation format of the temperature characteristic.
pub open spec fn spec_temperature_format() -> [u8; 7] {
    [0x0E, 0xFF, 0x2F, 0x27, 0, 0, 0]
}

pub fn temperature_format() -> (v: [u8; 7])
    ensures
        v == spec_temperature_format(),
{
    [0x0E, 0xFF, 0x2F, 0x27, 0, 0, 0]
}

/// Presentation format of the pressure characteristic.
pub open spec fn spec_pressure_format() -> [u8; 7] {
    [0x0F, 0xFB, 0x80, 0x27, 0, 0, 0]
}

pub fn pressure_format() -> (v: [u8; 7])
    ensures
        v == spec_pressure_format(),
{
    [0x0F, 0xFB, 0x80, 0x27, 0, 0, 0]
}

/// Presentation format of the humidity characteristic.
pub open spec fn spec_humidity_format() -> [u8; 7] {
    [0x06, 0xFF, 0x00, 0x27, 0, 0, 0]
}

pub fn humidity_format() -> (v: [u8; 7])
    ensures
        v == spec_humidity_format(),
{
    [0x06, 0xFF, 0x00, 0x27, 0, 0, 0]
}

/// The public device address written during the set-address stage.
pub open spec fn spec_device_address() -> [u8; 6] {
    [0x12, 0x34, 0x00, 0xE1, 0x80, 0x02]
}

pub fn device_address() -> (a: [u8; 6])
    ensures
        a == spec_device_address(),
{
    [0x12, 0x34, 0x00, 0xE1, 0x80, 0x02]
}

/// The device name, both written into the name characteristic and
/// advertised as the complete local name: the bytes of `BlueNRG`.
pub open spec fn spec_device_name() -> [u8; 7] {
    [0x42, 0x6C, 0x75, 0x65, 0x4E, 0x52, 0x47]
}

pub fn device_name() -> (n: [u8; 7])
    ensures
        n == spec_device_name(),
{
    [0x42, 0x6C, 0x75, 0x65, 0x4E, 0x52, 0x47]
}

} // verus!
