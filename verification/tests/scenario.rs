//! The full happy-path scenario: starting at the version query, each
//! matching success event advances the machine through every documented
//! stage exactly once, until the terminal stage is reached.

use bluenrg_provision::stage::State;
use bluenrg_provision::types::{
    AddCharacteristicResult, AddServiceResult, CharacteristicHandle, CommandComplete, Event,
    GapInitResult, LocalVersionInfo, ReturnParameters, ServiceHandle, Status, Version,
    VendorEvent, VendorReturnParameters,
};
use bluenrg_provision::EventLoop;

fn complete(rp: ReturnParameters) -> Event {
    Event::CommandComplete(CommandComplete { num_hci_command_packets: 1, return_params: rp })
}

fn vendor(rp: VendorReturnParameters) -> Event {
    complete(ReturnParameters::Vendor(rp))
}

fn version_event(hw: u8, major: u8, minor: u8, patch: u8) -> Event {
    complete(ReturnParameters::ReadLocalVersionInformation(LocalVersionInfo {
        status: Status::Success,
        hci_version: 6,
        hci_revision: ((hw as u16) << 8) | major as u16,
        lmp_version: 7,
        manufacturer_name: 48,
        lmp_subversion: ((minor as u16) << 4) | patch as u16,
    }))
}

fn add_service(h: u16) -> Event {
    vendor(VendorReturnParameters::GattAddService(AddServiceResult {
        status: Status::Success,
        service_handle: ServiceHandle(h),
    }))
}

fn add_characteristic(h: u16) -> Event {
    vendor(VendorReturnParameters::GattAddCharacteristic(AddCharacteristicResult {
        status: Status::Success,
        characteristic_handle: CharacteristicHandle(h),
    }))
}

fn happy_path_events() -> Vec<Event> {
    vec![
        version_event(49, 7, 0, 3),
        Event::Vendor(VendorEvent::HalInitialized),
        vendor(VendorReturnParameters::HalWriteConfigData(Status::Success)),
        vendor(VendorReturnParameters::GattInit(Status::Success)),
        vendor(VendorReturnParameters::GapInit(GapInitResult {
            status: Status::Success,
            service_handle: ServiceHandle(0x0005),
            dev_name_handle: CharacteristicHandle(0x0006),
            appearance_handle: CharacteristicHandle(0x0008),
        })),
        vendor(VendorReturnParameters::GattUpdateCharacteristicValue(Status::Success)),
        vendor(VendorReturnParameters::GapSetAuthenticationRequirement(Status::Success)),
        add_service(0x0010),
        add_characteristic(0x0011),
        add_characteristic(0x0013),
        add_service(0x0020),
        add_characteristic(0x0021),
        vendor(VendorReturnParameters::GattAddCharacteristicDescriptor(Status::Success)),
        add_characteristic(0x0024),
        vendor(VendorReturnParameters::GattAddCharacteristicDescriptor(Status::Success)),
        add_characteristic(0x0027),
        vendor(VendorReturnParameters::GattAddCharacteristicDescriptor(Status::Success)),
        add_service(0x0030),
        add_characteristic(0x0031),
        add_characteristic(0x0033),
        add_service(0x0040),
        add_characteristic(0x0041),
        vendor(VendorReturnParameters::HalSetTxPowerLevel(Status::Success)),
        complete(ReturnParameters::LeSetScanResponseData(Status::Success)),
        vendor(VendorReturnParameters::GapSetDiscoverable(Status::Success)),
    ]
}

fn expected_stage_order() -> Vec<State> {
    vec![
        State::GettingVersionInfo,
        State::Resetting,
        State::SettingAddress,
        State::InitGatt,
        State::InitGap,
        State::SetDeviceName,
        State::SetAuthenticationRequirement,
        State::AddAccService,
        State::AddAccFreeFallCharacteristic,
        State::AddAccCharacteristic,
        State::AddEnvironmentalSensorService,
        State::AddTemperatureCharacteristic,
        State::AddTemperatureCharacteristicDescriptor,
        State::AddPressureCharacteristic,
        State::AddPressureCharacteristicDescriptor,
        State::AddHumidityCharacteristic,
        State::AddHumidityCharacteristicDescriptor,
        State::AddTimeService,
        State::AddTimeCharacteristic,
        State::AddMinuteCharacteristic,
        State::AddLedService,
        State::AddLedCharacteristic,
        State::SetTxPowerLevel,
        State::SetEmptyScanResponse,
        State::SetDiscoverable,
        State::Complete,
    ]
}

#[test]
fn happy_path_visits_every_stage_in_order_once() {
    let mut machine = EventLoop::new();
    let order = expected_stage_order();
    let mut visited = vec![machine.state];
    for event in happy_path_events() {
        machine.step(Ok(event));
        visited.push(machine.state);
    }
    assert_eq!(visited, order);
}

#[test]
fn version_query_success_records_firmware_version() {
    let mut machine = EventLoop::new();
    assert_eq!(machine.state, State::GettingVersionInfo);
    assert_eq!(machine.data.fw_version, None);
    machine.step(Ok(version_event(49, 7, 0, 3)));
    assert_eq!(machine.state, State::Resetting);
    assert_eq!(
        machine.data.fw_version,
        Some(Version { hw_version: 49, major: 7, minor: 0, patch: 3 })
    );
}

#[test]
fn hardware_initialized_event_leaves_reset_stage() {
    let mut machine = EventLoop::new();
    machine.step(Ok(version_event(49, 7, 0, 3)));
    assert_eq!(machine.state, State::Resetting);
    machine.step(Ok(Event::Vendor(VendorEvent::HalInitialized)));
    assert_eq!(machine.state, State::SettingAddress);
    machine.step(Ok(vendor(VendorReturnParameters::HalWriteConfigData(Status::Success))));
    assert_eq!(machine.state, State::InitGatt);
}

#[test]
fn happy_path_run_reaches_terminal_stage_only_at_the_end() {
    let mut machine = EventLoop::new();
    let readings: Vec<Result<Event, bluenrg_provision::types::TransportError>> =
        happy_path_events().into_iter().map(Ok).collect();
    let actions = machine.run(&readings);
    assert_eq!(machine.state, State::Complete);
    assert_eq!(actions.len(), 25);
    // No command before the last one is the idle action: the terminal stage
    // is reached only after every stage has seen its success event.
    for action in &actions {
        assert_ne!(*action, bluenrg_provision::types::Action::Park);
    }
}

#[test]
fn happy_path_records_every_handle() {
    let mut machine = EventLoop::new();
    for event in happy_path_events() {
        machine.step(Ok(event));
    }
    let data = machine.data;
    assert_eq!(data.gap_service_handle, Some(ServiceHandle(0x0005)));
    assert_eq!(data.dev_name_handle, Some(CharacteristicHandle(0x0006)));
    assert_eq!(data.appearance_handle, Some(CharacteristicHandle(0x0008)));
    assert_eq!(data.acc_service_handle, Some(ServiceHandle(0x0010)));
    assert_eq!(data.environmental_sensor_service_handle, Some(ServiceHandle(0x0020)));
    assert_eq!(data.temperature_characteristic_handle, Some(CharacteristicHandle(0x0021)));
    assert_eq!(data.pressure_characteristic_handle, Some(CharacteristicHandle(0x0024)));
    assert_eq!(data.humidity_characteristic_handle, Some(CharacteristicHandle(0x0027)));
    assert_eq!(data.time_service_handle, Some(ServiceHandle(0x0030)));
    assert_eq!(data.led_service_handle, Some(ServiceHandle(0x0040)));
}
