//! The exact command each stage issues: the profile's UUIDs, payload
//! lengths, properties, permissions and fixed byte values.

use bluenrg_provision::stage::State;
use bluenrg_provision::types::{
    Action, CharacteristicHandle, CharacteristicProperties, Context, GattEventMask,
    ServiceHandle, Uuid, Version,
};

fn populated_context() -> Context {
    let mut c = Context::empty();
    c.fw_version = Some(Version { hw_version: 49, major: 7, minor: 1, patch: 2 });
    c.gap_service_handle = Some(ServiceHandle(0x0005));
    c.dev_name_handle = Some(CharacteristicHandle(0x0006));
    c.appearance_handle = Some(CharacteristicHandle(0x0008));
    c.acc_service_handle = Some(ServiceHandle(0x0010));
    c.environmental_sensor_service_handle = Some(ServiceHandle(0x0020));
    c.temperature_characteristic_handle = Some(CharacteristicHandle(0x0021));
    c.pressure_characteristic_handle = Some(CharacteristicHandle(0x0024));
    c.humidity_characteristic_handle = Some(CharacteristicHandle(0x0027));
    c.time_service_handle = Some(ServiceHandle(0x0030));
    c.led_service_handle = Some(ServiceHandle(0x0040));
    c
}

#[test]
fn first_stages_issue_fixed_commands() {
    let c = populated_context();
    assert_eq!(State::GettingVersionInfo.act(&c), Action::ReadVersion);
    assert_eq!(State::Resetting.act(&c), Action::Reset);
    assert_eq!(
        State::SettingAddress.act(&c),
        Action::WriteConfigData { address: [0x12, 0x34, 0x00, 0xE1, 0x80, 0x02] }
    );
    assert_eq!(State::InitGatt.act(&c), Action::InitGatt);
    assert_eq!(State::InitGap.act(&c), Action::InitGap { privacy: false, device_name_capacity: 7 });
}

#[test]
fn device_name_stage_writes_the_name_under_the_gap_handles() {
    let c = populated_context();
    assert_eq!(
        State::SetDeviceName.act(&c),
        Action::UpdateCharacteristicValue {
            service: ServiceHandle(0x0005),
            characteristic: CharacteristicHandle(0x0006),
            offset: 0,
            value: *b"BlueNRG",
        }
    );
}

#[test]
fn authentication_requirement_uses_the_fixed_policy() {
    let c = populated_context();
    assert_eq!(
        State::SetAuthenticationRequirement.act(&c),
        Action::SetAuthenticationRequirement {
            mitm_protection: true,
            bonding: true,
            encryption_key_size_min: 7,
            encryption_key_size_max: 16,
            fixed_pin: 123456,
        }
    );
}

#[test]
fn service_creations_use_the_profile_uuids_and_budgets() {
    let c = populated_context();
    assert_eq!(
        State::AddAccService.act(&c),
        Action::AddService {
            uuid: Uuid::Uuid128([
                0x02, 0x36, 0x6e, 0x80, 0xcf, 0x3a, 0x11, 0xe1, 0x9a, 0xb4, 0x00, 0x02, 0xa5,
                0xd5, 0xc5, 0x1b,
            ]),
            max_attribute_records: 7,
        }
    );
    assert_eq!(
        State::AddEnvironmentalSensorService.act(&c),
        Action::AddService {
            uuid: Uuid::Uuid128([
                0x42, 0x82, 0x1a, 0x40, 0xe4, 0x77, 0x11, 0xe2, 0x82, 0xd0, 0x00, 0x02, 0xa5,
                0xd5, 0xc5, 0x1b,
            ]),
            max_attribute_records: 10,
        }
    );
    assert_eq!(
        State::AddTimeService.act(&c),
        Action::AddService {
            uuid: Uuid::Uuid128([
                0x08, 0x36, 0x6e, 0x80, 0xcf, 0x3a, 0x11, 0xe1, 0x9a, 0xb4, 0x00, 0x02, 0xa5,
                0xd5, 0xc5, 0x1b,
            ]),
            max_attribute_records: 7,
        }
    );
    assert_eq!(
        State::AddLedService.act(&c),
        Action::AddService {
            uuid: Uuid::Uuid128([
                0x0b, 0x36, 0x6e, 0x80, 0xcf, 0x3a, 0x11, 0xe1, 0x9a, 0xb4, 0x00, 0x02, 0xa5,
                0xd5, 0xc5, 0x1b,
            ]),
            max_attribute_records: 7,
        }
    );
}

#[test]
fn free_fall_characteristic_is_a_one_byte_notification() {
    let c = populated_context();
    assert_eq!(
        State::AddAccFreeFallCharacteristic.act(&c),
        Action::AddCharacteristic {
            service: ServiceHandle(0x0010),
            uuid: Uuid::Uuid128([
                0xe2, 0x3e, 0x78, 0xa0, 0xcf, 0x4a, 0x11, 0xe1, 0x8f, 0xfc, 0x00, 0x02, 0xa5,
                0xd5, 0xc5, 0x1b,
            ]),
            value_len: 1,
            properties: CharacteristicProperties {
                read: false,
                write: false,
                write_without_response: false,
                notify: true,
            },
            events: GattEventMask { attribute_write: false, confirm_read: false },
            encryption_key_size: 16,
            is_variable: false,
            legacy_layout: true,
        }
    );
}

#[test]
fn acceleration_characteristic_reads_six_bytes() {
    let c = populated_context();
    let action = State::AddAccCharacteristic.act(&c);
    match action {
        Action::AddCharacteristic { service, value_len, properties, events, is_variable, .. } => {
            assert_eq!(service, ServiceHandle(0x0010));
            assert_eq!(value_len, 6);
            assert!(properties.read && properties.notify);
            assert!(!properties.write && !properties.write_without_response);
            assert!(events.confirm_read && !events.attribute_write);
            assert!(!is_variable);
        }
        other => panic!("not an add-characteristic command: {:?}", other),
    }
}

#[test]
fn environmental_descriptors_carry_the_presentation_formats() {
    let c = populated_context();
    assert_eq!(
        State::AddTemperatureCharacteristicDescriptor.act(&c),
        Action::AddDescriptor {
            service: ServiceHandle(0x0020),
            characteristic: CharacteristicHandle(0x0021),
            uuid: Uuid::Uuid16(0x2904),
            max_len: 7,
            value: [0x0E, 0xFF, 0x2F, 0x27, 0, 0, 0],
            encryption_key_size: 16,
        }
    );
    assert_eq!(
        State::AddPressureCharacteristicDescriptor.act(&c),
        Action::AddDescriptor {
            service: ServiceHandle(0x0020),
            characteristic: CharacteristicHandle(0x0024),
            uuid: Uuid::Uuid16(0x2904),
            max_len: 7,
            value: [0x0F, 0xFB, 0x80, 0x27, 0, 0, 0],
            encryption_key_size: 16,
        }
    );
    assert_eq!(
        State::AddHumidityCharacteristicDescriptor.act(&c),
        Action::AddDescriptor {
            service: ServiceHandle(0x0020),
            characteristic: CharacteristicHandle(0x0027),
            uuid: Uuid::Uuid16(0x2904),
            max_len: 7,
            value: [0x06, 0xFF, 0x00, 0x27, 0, 0, 0],
            encryption_key_size: 16,
        }
    );
}

#[test]
fn led_characteristic_is_writable_and_variable() {
    let c = populated_context();
    match State::AddLedCharacteristic.act(&c) {
        Action::AddCharacteristic { service, value_len, properties, events, is_variable, .. } => {
            assert_eq!(service, ServiceHandle(0x0040));
            assert_eq!(value_len, 4);
            assert!(properties.write && properties.write_without_response);
            assert!(!properties.read && !properties.notify);
            assert!(events.attribute_write && !events.confirm_read);
            assert!(is_variable);
        }
        other => panic!("not an add-characteristic command: {:?}", other),
    }
}

#[test]
fn minute_characteristic_is_variable_and_notifying() {
    let c = populated_context();
    match State::AddMinuteCharacteristic.act(&c) {
        Action::AddCharacteristic { service, value_len, properties, is_variable, .. } => {
            assert_eq!(service, ServiceHandle(0x0030));
            assert_eq!(value_len, 4);
            assert!(properties.read && properties.notify);
            assert!(is_variable);
        }
        other => panic!("not an add-characteristic command: {:?}", other),
    }
}

#[test]
fn closing_stages_issue_fixed_commands() {
    let c = populated_context();
    assert_eq!(State::SetTxPowerLevel.act(&c), Action::SetTxPowerLevel);
    assert_eq!(State::SetEmptyScanResponse.act(&c), Action::SetEmptyScanResponse);
    assert_eq!(
        State::SetDiscoverable.act(&c),
        Action::SetDiscoverable { local_name: *b"BlueNRG" }
    );
    assert_eq!(State::Complete.act(&c), Action::Park);
    assert_eq!(State::Failed.act(&c), Action::Park);
}
