//! Behavioral properties of the machine: version-gated layout, handle
//! threading, terminal idling, tolerance of unrelated events, fail-stop on
//! failure statuses, and retry on transport errors.

use bluenrg_provision::stage::State;
use bluenrg_provision::types::{
    Action, AddCharacteristicResult, AddServiceResult, CharacteristicHandle, CommandComplete,
    Event, GapInitResult, LocalVersionInfo, ReturnParameters, ServiceHandle, Status,
    TransportError, Version, VendorEvent, VendorReturnParameters,
};
use bluenrg_provision::types::legacy_layout;
use bluenrg_provision::EventLoop;

fn complete(rp: ReturnParameters) -> Event {
    Event::CommandComplete(CommandComplete { num_hci_command_packets: 1, return_params: rp })
}

fn vendor(rp: VendorReturnParameters) -> Event {
    complete(ReturnParameters::Vendor(rp))
}

fn version_event(hw: u8, major: u8, minor: u8, patch: u8) -> Event {
    complete(ReturnParameters::ReadLocalVersionInformation(LocalVersionInfo {
        status: Status::Success,
        hci_version: 6,
        hci_revision: ((hw as u16) << 8) | major as u16,
        lmp_version: 7,
        manufacturer_name: 48,
        lmp_subversion: ((minor as u16) << 4) | patch as u16,
    }))
}

fn add_service(h: u16) -> Event {
    vendor(VendorReturnParameters::GattAddService(AddServiceResult {
        status: Status::Success,
        service_handle: ServiceHandle(h),
    }))
}

fn add_characteristic(h: u16) -> Event {
    vendor(VendorReturnParameters::GattAddCharacteristic(AddCharacteristicResult {
        status: Status::Success,
        characteristic_handle: CharacteristicHandle(h),
    }))
}

fn happy_path_events(major: u8, minor: u8, patch: u8) -> Vec<Event> {
    vec![
        version_event(49, major, minor, patch),
        Event::Vendor(VendorEvent::HalInitialized),
        vendor(VendorReturnParameters::HalWriteConfigData(Status::Success)),
        vendor(VendorReturnParameters::GattInit(Status::Success)),
        vendor(VendorReturnParameters::GapInit(GapInitResult {
            status: Status::Success,
            service_handle: ServiceHandle(0x0005),
            dev_name_handle: CharacteristicHandle(0x0006),
            appearance_handle: CharacteristicHandle(0x0008),
        })),
        vendor(VendorReturnParameters::GattUpdateCharacteristicValue(Status::Success)),
        vendor(VendorReturnParameters::GapSetAuthenticationRequirement(Status::Success)),
        add_service(0x0010),
        add_characteristic(0x0011),
        add_characteristic(0x0013),
        add_service(0x0020),
        add_characteristic(0x0021),
        vendor(VendorReturnParameters::GattAddCharacteristicDescriptor(Status::Success)),
        add_characteristic(0x0024),
        vendor(VendorReturnParameters::GattAddCharacteristicDescriptor(Status::Success)),
        add_characteristic(0x0027),
        vendor(VendorReturnParameters::GattAddCharacteristicDescriptor(Status::Success)),
        add_service(0x0030),
        add_characteristic(0x0031),
        add_characteristic(0x0033),
        add_service(0x0040),
        add_characteristic(0x0041),
        vendor(VendorReturnParameters::HalSetTxPowerLevel(Status::Success)),
        complete(ReturnParameters::LeSetScanResponseData(Status::Success)),
        vendor(VendorReturnParameters::GapSetDiscoverable(Status::Success)),
    ]
}

// Version decoding from the implementation-defined fields.

#[test]
fn vendor_version_unpacks_the_revision_fields() {
    let info = LocalVersionInfo {
        status: Status::Success,
        hci_version: 6,
        hci_revision: 0x3107,
        lmp_version: 7,
        manufacturer_name: 48,
        lmp_subversion: 0x0012,
    };
    assert_eq!(info.vendor_version(), Version { hw_version: 0x31, major: 7, minor: 1, patch: 2 });
}

// Version gating: lexicographic on (major, minor), patch irrelevant.

#[test]
fn version_7_1_uses_legacy_layout() {
    assert!(legacy_layout(&Version { hw_version: 49, major: 7, minor: 1, patch: 0 }));
    assert!(legacy_layout(&Version { hw_version: 49, major: 7, minor: 1, patch: 255 }));
}

#[test]
fn version_7_2_and_8_0_use_new_layout() {
    assert!(!legacy_layout(&Version { hw_version: 49, major: 7, minor: 2, patch: 0 }));
    assert!(!legacy_layout(&Version { hw_version: 49, major: 8, minor: 0, patch: 1 }));
}

#[test]
fn version_6_9_uses_legacy_layout() {
    assert!(legacy_layout(&Version { hw_version: 49, major: 6, minor: 9, patch: 4 }));
}

#[test]
fn all_characteristic_commands_carry_the_version_gated_flag() {
    // Firmware 7.1 predates the layout change; every add-characteristic
    // command must say so.
    let mut machine = EventLoop::new();
    let readings: Vec<Result<Event, TransportError>> =
        happy_path_events(7, 1, 0).into_iter().map(Ok).collect();
    let actions = machine.run(&readings);
    let mut seen = 0;
    for action in &actions {
        if let Action::AddCharacteristic { legacy_layout, .. } = action {
            assert!(*legacy_layout);
            seen += 1;
        }
    }
    assert_eq!(seen, 8);

    // Firmware 7.2 does not.
    let mut machine = EventLoop::new();
    let readings: Vec<Result<Event, TransportError>> =
        happy_path_events(7, 2, 0).into_iter().map(Ok).collect();
    let actions = machine.run(&readings);
    for action in &actions {
        if let Action::AddCharacteristic { legacy_layout, .. } = action {
            assert!(!*legacy_layout);
        }
    }
}

// Handle threading: a handle returned by an add-service completion appears,
// unmodified, in every later command that targets that service.

#[test]
fn commands_carry_the_handles_the_peripheral_assigned() {
    let mut machine = EventLoop::new();
    let readings: Vec<Result<Event, TransportError>> =
        happy_path_events(7, 0, 3).into_iter().map(Ok).collect();
    let actions = machine.run(&readings);

    let service_of = |a: &Action| match a {
        Action::AddCharacteristic { service, .. } => Some(*service),
        Action::AddDescriptor { service, .. } => Some(*service),
        _ => None,
    };
    // Accelerometer service handle 0x0010 from the add-service completion.
    assert_eq!(service_of(&actions[8]), Some(ServiceHandle(0x0010)));
    assert_eq!(service_of(&actions[9]), Some(ServiceHandle(0x0010)));
    // Environmental sensor service handle 0x0020.
    for i in 11..=16 {
        assert_eq!(service_of(&actions[i]), Some(ServiceHandle(0x0020)));
    }
    // Time service handle 0x0030.
    assert_eq!(service_of(&actions[18]), Some(ServiceHandle(0x0030)));
    assert_eq!(service_of(&actions[19]), Some(ServiceHandle(0x0030)));
    // LED service handle 0x0040.
    assert_eq!(service_of(&actions[21]), Some(ServiceHandle(0x0040)));

    // Descriptor commands also carry the characteristic handles assigned by
    // the add-characteristic completions.
    let characteristic_of = |a: &Action| match a {
        Action::AddDescriptor { characteristic, .. } => Some(*characteristic),
        _ => None,
    };
    assert_eq!(characteristic_of(&actions[12]), Some(CharacteristicHandle(0x0021)));
    assert_eq!(characteristic_of(&actions[14]), Some(CharacteristicHandle(0x0024)));
    assert_eq!(characteristic_of(&actions[16]), Some(CharacteristicHandle(0x0027)));
    // The device-name update targets the GAP handles.
    assert_eq!(
        actions[5],
        Action::UpdateCharacteristicValue {
            service: ServiceHandle(0x0005),
            characteristic: CharacteristicHandle(0x0006),
            offset: 0,
            value: *b"BlueNRG",
        }
    );
}

// Idempotent terminal state.

#[test]
fn terminal_stage_idles_forever() {
    let mut machine = EventLoop::new();
    for event in happy_path_events(7, 0, 3) {
        machine.step(Ok(event));
    }
    assert_eq!(machine.state, State::Complete);
    let data_at_completion = machine.data;
    let noise: Vec<Result<Event, TransportError>> = vec![
        Ok(version_event(49, 7, 0, 3)),
        Ok(Event::Vendor(VendorEvent::HalInitialized)),
        Ok(add_service(0x0099)),
        Err(TransportError),
        Ok(vendor(VendorReturnParameters::GapSetDiscoverable(Status::Success))),
        Ok(Event::Other),
    ];
    let actions = machine.run(&noise);
    assert_eq!(machine.state, State::Complete);
    assert_eq!(machine.data, data_at_completion);
    for action in &actions {
        assert_eq!(*action, Action::Park);
    }
}

// Mismatched-event tolerance.

#[test]
fn unrelated_vendor_event_changes_nothing() {
    let mut machine = EventLoop::new();
    let events = happy_path_events(7, 0, 3);
    for event in events {
        let state_before = machine.state;
        let data_before = machine.data;
        // An unrelated vendor event in every stage along the way: stage and
        // context stay as they are.
        machine.step(Ok(Event::Vendor(VendorEvent::Other)));
        assert_eq!(machine.state, state_before);
        assert_eq!(machine.data, data_before);
        machine.step(Ok(event));
    }
    assert_eq!(machine.state, State::Complete);
}

#[test]
fn completion_for_another_stage_changes_nothing() {
    let mut machine = EventLoop::new();
    machine.step(Ok(version_event(49, 7, 0, 3)));
    machine.step(Ok(Event::Vendor(VendorEvent::HalInitialized)));
    assert_eq!(machine.state, State::SettingAddress);
    let data_before = machine.data;
    // A GATT-init completion while waiting for the config-data completion:
    // not this stage's event, so it is ignored, success or not.
    machine.step(Ok(vendor(VendorReturnParameters::GattInit(Status::Success))));
    assert_eq!(machine.state, State::SettingAddress);
    machine.step(Ok(vendor(VendorReturnParameters::GattInit(Status::Failure(0x47)))));
    assert_eq!(machine.state, State::SettingAddress);
    assert_eq!(machine.data, data_before);
}

// Fatal-status halt.

#[test]
fn failure_status_stops_all_further_commands() {
    let mut machine = EventLoop::new();
    machine.step(Ok(version_event(49, 7, 0, 3)));
    machine.step(Ok(Event::Vendor(VendorEvent::HalInitialized)));
    let data_before = machine.data;
    machine.step(Ok(vendor(VendorReturnParameters::HalWriteConfigData(Status::Failure(0x12)))));
    assert_eq!(machine.state, State::Failed);
    assert_eq!(machine.data, data_before);
    // From here on, no command is ever issued again, whatever arrives.
    let noise: Vec<Result<Event, TransportError>> = vec![
        Ok(vendor(VendorReturnParameters::HalWriteConfigData(Status::Success))),
        Ok(Event::Vendor(VendorEvent::HalInitialized)),
        Err(TransportError),
        Ok(version_event(49, 7, 0, 3)),
    ];
    let actions = machine.run(&noise);
    assert_eq!(machine.state, State::Failed);
    for action in &actions {
        assert_eq!(*action, Action::Park);
    }
}

#[test]
fn failure_status_in_version_query_stops_the_machine() {
    let mut machine = EventLoop::new();
    machine.step(Ok(complete(ReturnParameters::ReadLocalVersionInformation(LocalVersionInfo {
        status: Status::Failure(0x0C),
        hci_version: 6,
        hci_revision: 0x3107,
        lmp_version: 7,
        manufacturer_name: 48,
        lmp_subversion: 0x0012,
    }))));
    assert_eq!(machine.state, State::Failed);
    // The version of a failed query is not recorded.
    assert_eq!(machine.data.fw_version, None);
    assert_eq!(machine.act(), Action::Park);
}

#[test]
fn device_name_update_failure_is_fatal_like_any_other() {
    // All status codes are treated uniformly: a failed characteristic-value
    // update fail-stops the machine like every other failed completion.
    let mut machine = EventLoop::new();
    for event in happy_path_events(7, 0, 3).into_iter().take(5) {
        machine.step(Ok(event));
    }
    assert_eq!(machine.state, State::SetDeviceName);
    machine.step(Ok(vendor(VendorReturnParameters::GattUpdateCharacteristicValue(
        Status::Failure(0x1F),
    ))));
    assert_eq!(machine.state, State::Failed);
}

// Transport errors: report and retry in place.

#[test]
fn transport_error_retries_the_same_stage() {
    let mut machine = EventLoop::new();
    machine.step(Ok(version_event(49, 7, 0, 3)));
    assert_eq!(machine.state, State::Resetting);
    let data_before = machine.data;
    let action_first = machine.act();
    machine.step(Err(TransportError));
    assert_eq!(machine.state, State::Resetting);
    assert_eq!(machine.data, data_before);
    // The same command is issued again on the next iteration.
    assert_eq!(machine.act(), action_first);
    machine.step(Ok(Event::Vendor(VendorEvent::HalInitialized)));
    assert_eq!(machine.state, State::SettingAddress);
}
