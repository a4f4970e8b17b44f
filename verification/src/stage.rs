//! The stage sequence: which command each stage issues, which completion
//! event ends it, and how the machine moves from stage to stage.
//!
//! The machine holds exactly one stage at a time and never has more than one
//! command outstanding. A stage's command is a pure function of the context
//! ([`spec_act`]); the reaction to an event is a pure function of stage,
//! context and event ([`spec_react`]): an event the stage does not recognize
//! is ignored, a recognized event with a failure status moves the machine to
//! the fail-stop stage, and a recognized success records the event's values
//! and moves to the next stage in order.

use vstd::prelude::*;

use crate::profile;
use crate::types::{
    Action, CharacteristicProperties, Context, Event, GattEventMask, ReturnParameters, Status,
    TransportError, VendorEvent, VendorReturnParameters,
};
use crate::types::{legacy_layout, spec_legacy_layout, spec_vendor_version};

verus! {

/// One stage of the bring-up and provisioning sequence, in the order the
/// machine visits them. `Complete` is the happy terminal stage; `Failed` is
/// the fail-stop terminal stage, entered when a recognized completion
/// reports a failure status. Both are absorbing and issue no commands.
#[derive(Clone, Copy, Debug, PartialEq, Eq, Structural)]
pub enum State {
    GettingVersionInfo,
    Resetting,
    SettingAddress,
    InitGatt,
    InitGap,
    SetDeviceName,
    SetAuthenticationRequirement,
    AddAccService,
    AddAccFreeFallCharacteristic,
    AddAccCharacteristic,
    AddEnvironmentalSensorService,
    AddTemperatureCharacteristic,
    AddTemperatureCharacteristicDescriptor,
    AddPressureCharacteristic,
    AddPressureCharacteristicDescriptor,
    AddHumidityCharacteristic,
    AddHumidityCharacteristicDescriptor,
    AddTimeService,
    AddTimeCharacteristic,
    AddMinuteCharacteristic,
    AddLedService,
    AddLedCharacteristic,
    SetTxPowerLevel,
    SetEmptyScanResponse,
    SetDiscoverable,
    Complete,
    Failed,
}

/// Position of a stage in the sequence. The happy path visits indices 0
/// through 25 in order; the fail-stop stage sits past the end, so that the
/// index never decreases over any transition.
pub open spec fn stage_index(s: State) -> int {
    match s {
        State::GettingVersionInfo => 0,
        State::Resetting => 1,
        State::SettingAddress => 2,
        State::InitGatt => 3,
        State::InitGap => 4,
        State::SetDeviceName => 5,
        State::SetAuthenticationRequirement => 6,
        State::AddAccService => 7,
        State::AddAccFreeFallCharacteristic => 8,
        State::AddAccCharacteristic => 9,
        State::AddEnvironmentalSensorService => 10,
        State::AddTemperatureCharacteristic => 11,
        State::AddTemperatureCharacteristicDescriptor => 12,
        State::AddPressureCharacteristic => 13,
        State::AddPressureCharacteristicDescriptor => 14,
        State::AddHumidityCharacteristic => 15,
        State::AddHumidityCharacteristicDescriptor => 16,
        State::AddTimeService => 17,
        State::AddTimeCharacteristic => 18,
        State::AddMinuteCharacteristic => 19,
        State::AddLedService => 20,
        State::AddLedCharacteristic => 21,
        State::SetTxPowerLevel => 22,
        State::SetEmptyScanResponse => 23,
        State::SetDiscoverable => 24,
        State::Complete => 25,
        State::Failed => 26,
    }
}

/// The stage that follows a stage on the happy path. Both terminal stages
/// are their own successors.
pub open spec fn spec_next(s: State) -> State {
    match s {
        State::GettingVersionInfo => State::Resetting,
        State::Resetting => State::SettingAddress,
        State::SettingAddress => State::InitGatt,
        State::InitGatt => State::InitGap,
        State::InitGap => State::SetDeviceName,
        State::SetDeviceName => State::SetAuthenticationRequirement,
        State::SetAuthenticationRequirement => State::AddAccService,
        State::AddAccService => State::AddAccFreeFallCharacteristic,
        State::AddAccFreeFallCharacteristic => State::AddAccCharacteristic,
        State::AddAccCharacteristic => State::AddEnvironmentalSensorService,
        State::AddEnvironmentalSensorService => State::AddTemperatureCharacteristic,
        State::AddTemperatureCharacteristic => State::AddTemperatureCharacteristicDescriptor,
        State::AddTemperatureCharacteristicDescriptor => State::AddPressureCharacteristic,
        State::AddPressureCharacteristic => State::AddPressureCharacteristicDescriptor,
        State::AddPressureCharacteristicDescriptor => State::AddHumidityCharacteristic,
        State::AddHumidityCharacteristic => State::AddHumidityCharacteristicDescriptor,
        State::AddHumidityCharacteristicDescriptor => State::AddTimeService,
        State::AddTimeService => State::AddTimeCharacteristic,
        State::AddTimeCharacteristic => State::AddMinuteCharacteristic,
        State::AddMinuteCharacteristic => State::AddLedService,
        State::AddLedService => State::AddLedCharacteristic,
        State::AddLedCharacteristic => State::SetTxPowerLevel,
        State::SetTxPowerLevel => State::SetEmptyScanResponse,
        State::SetEmptyScanResponse => State::SetDiscoverable,
        State::SetDiscoverable => State::Complete,
        State::Complete => State::Complete,
        State::Failed => State::Failed,
    }
}

/// Whether an event is the completion the stage is waiting for. Matching is
/// structural: event type, then return-parameter variant, then vendor
/// sub-variant; the status is not consulted here. The terminal stages
/// recognize nothing.
pub open spec fn spec_expects(s: State, e: Event) -> bool {
    match s {
        State::GettingVersionInfo => e matches Event::CommandComplete(cc)
            && cc.return_params matches ReturnParameters::ReadLocalVersionInformation(_),
        State::Resetting => e matches Event::Vendor(VendorEvent::HalInitialized),
        State::SettingAddress => e matches Event::CommandComplete(cc) && cc.return_params
            matches ReturnParameters::Vendor(VendorReturnParameters::HalWriteConfigData(_)),
        State::InitGatt => e matches Event::CommandComplete(cc) && cc.return_params
            matches ReturnParameters::Vendor(VendorReturnParameters::GattInit(_)),
        State::InitGap => e matches Event::CommandComplete(cc) && cc.return_params
            matches ReturnParameters::Vendor(VendorReturnParameters::GapInit(_)),
        State::SetDeviceName => e matches Event::CommandComplete(cc) && cc.return_params matches
            ReturnParameters::Vendor(VendorReturnParameters::GattUpdateCharacteristicValue(_)),
        State::SetAuthenticationRequirement => e matches Event::CommandComplete(cc)
            && cc.return_params matches ReturnParameters::Vendor(
            VendorReturnParameters::GapSetAuthenticationRequirement(_),
        ),
        State::AddAccService => e matches Event::CommandComplete(cc) && cc.return_params
            matches ReturnParameters::Vendor(VendorReturnParameters::GattAddService(_)),
        State::AddAccFreeFallCharacteristic => e matches Event::CommandComplete(cc)
            && cc.return_params matches ReturnParameters::Vendor(
            VendorReturnParameters::GattAddCharacteristic(_),
        ),
        State::AddAccCharacteristic => e matches Event::CommandComplete(cc) && cc.return_params
            matches ReturnParameters::Vendor(VendorReturnParameters::GattAddCharacteristic(_)),
        State::AddEnvironmentalSensorService => e matches Event::CommandComplete(cc)
            && cc.return_params matches ReturnParameters::Vendor(
            VendorReturnParameters::GattAddService(_),
        ),
        State::AddTemperatureCharacteristic => e matches Event::CommandComplete(cc)
            && cc.return_params matches ReturnParameters::Vendor(
            VendorReturnParameters::GattAddCharacteristic(_),
        ),
        State::AddTemperatureCharacteristicDescriptor => e matches Event::CommandComplete(cc)
            && cc.return_params matches ReturnParameters::Vendor(
            VendorReturnParameters::GattAddCharacteristicDescriptor(_),
        ),
        State::AddPressureCharacteristic => e matches Event::CommandComplete(cc)
            && cc.return_params matches ReturnParameters::Vendor(
            VendorReturnParameters::GattAddCharacteristic(_),
        ),
        State::AddPressureCharacteristicDescriptor => e matches Event::CommandComplete(cc)
            && cc.return_params matches ReturnParameters::Vendor(
            VendorReturnParameters::GattAddCharacteristicDescriptor(_),
        ),
        State::AddHumidityCharacteristic => e matches Event::CommandComplete(cc)
            && cc.return_params matches ReturnParameters::Vendor(
            VendorReturnParameters::GattAddCharacteristic(_),
        ),
        State::AddHumidityCharacteristicDescriptor => e matches Event::CommandComplete(cc)
            && cc.return_params matches ReturnParameters::Vendor(
            VendorReturnParameters::GattAddCharacteristicDescriptor(_),
        ),
        State::AddTimeService => e matches Event::CommandComplete(cc) && cc.return_params
            matches ReturnParameters::Vendor(VendorReturnParameters::GattAddService(_)),
        State::AddTimeCharacteristic => e matches Event::CommandComplete(cc) && cc.return_params
            matches ReturnParameters::Vendor(VendorReturnParameters::GattAddCharacteristic(_)),
        State::AddMinuteCharacteristic => e matches Event::CommandComplete(cc)
            && cc.return_params matches ReturnParameters::Vendor(
            VendorReturnParameters::GattAddCharacteristic(_),
        ),
        State::AddLedService => e matches Event::CommandComplete(cc) && cc.return_params
            matches ReturnParameters::Vendor(VendorReturnParameters::GattAddService(_)),
        State::AddLedCharacteristic => e matches Event::CommandComplete(cc) && cc.return_params
            matches ReturnParameters::Vendor(VendorReturnParameters::GattAddCharacteristic(_)),
        State::SetTxPowerLevel => e matches Event::CommandComplete(cc) && cc.return_params
            matches ReturnParameters::Vendor(VendorReturnParameters::HalSetTxPowerLevel(_)),
        State::SetEmptyScanResponse => e matches Event::CommandComplete(cc)
            && cc.return_params matches ReturnParameters::LeSetScanResponseData(_),
        State::SetDiscoverable => e matches Event::CommandComplete(cc) && cc.return_params
            matches ReturnParameters::Vendor(VendorReturnParameters::GapSetDiscoverable(_)),
        State::Complete => false,
        State::Failed => false,
    }
}

/// The status an event carries. Events without a status field — the
/// hardware-initialized notification has none — count as successful.
pub open spec fn spec_event_status(e: Event) -> Status {
    match e {
        Event::CommandComplete(cc) => match cc.return_params {
            ReturnParameters::ReadLocalVersionInformation(info) => info.status,
            ReturnParameters::LeSetScanResponseData(st) => st,
            ReturnParameters::Vendor(v) => match v {
                VendorReturnParameters::HalWriteConfigData(st) => st,
                VendorReturnParameters::HalSetTxPowerLevel(st) => st,
                VendorReturnParameters::GattInit(st) => st,
                VendorReturnParameters::GattAddService(r) => r.status,
                VendorReturnParameters::GattAddCharacteristic(r) => r.status,
                VendorReturnParameters::GattAddCharacteristicDescriptor(st) => st,
                VendorReturnParameters::GattUpdateCharacteristicValue(st) => st,
                VendorReturnParameters::GapInit(r) => r.status,
                VendorReturnParameters::GapSetAuthenticationRequirement(st) => st,
                VendorReturnParameters::GapSetDiscoverable(st) => st,
                VendorReturnParameters::Other => Status::Success,
            },
            ReturnParameters::Other => Status::Success,
        },
        _ => Status::Success,
    }
}

/// The context after a stage absorbs its successful completion event:
/// the stage's own slots are filled from the event's payload and every
/// other slot is left untouched.
pub open spec fn spec_record(s: State, c: Context, e: Event) -> Context
    recommends
        spec_expects(s, e),
{
    match (s, e) {
        (State::GettingVersionInfo, Event::CommandComplete(cc)) => match cc.return_params {
            ReturnParameters::ReadLocalVersionInformation(info) => Context {
                fw_version: Some(spec_vendor_version(info)),
                ..c
            },
            _ => c,
        },
        (State::InitGap, Event::CommandComplete(cc)) => match cc.return_params {
            ReturnParameters::Vendor(VendorReturnParameters::GapInit(r)) => Context {
                gap_service_handle: Some(r.service_handle),
                dev_name_handle: Some(r.dev_name_handle),
                appearance_handle: Some(r.appearance_handle),
                ..c
            },
            _ => c,
        },
        (State::AddAccService, Event::CommandComplete(cc)) => match cc.return_params {
            ReturnParameters::Vendor(VendorReturnParameters::GattAddService(r)) => Context {
                acc_service_handle: Some(r.service_handle),
                ..c
            },
            _ => c,
        },
        (State::AddEnvironmentalSensorService, Event::CommandComplete(cc)) => match cc
            .return_params {
            ReturnParameters::Vendor(VendorReturnParameters::GattAddService(r)) => Context {
                environmental_sensor_service_handle: Some(r.service_handle),
                ..c
            },
            _ => c,
        },
        (State::AddTemperatureCharacteristic, Event::CommandComplete(cc)) => match cc
            .return_params {
            ReturnParameters::Vendor(VendorReturnParameters::GattAddCharacteristic(r)) => Context {
                temperature_characteristic_handle: Some(r.characteristic_handle),
                ..c
            },
            _ => c,
        },
        (State::AddPressureCharacteristic, Event::CommandComplete(cc)) => match cc.return_params {
            ReturnParameters::Vendor(VendorReturnParameters::GattAddCharacteristic(r)) => Context {
                pressure_characteristic_handle: Some(r.characteristic_handle),
                ..c
            },
            _ => c,
        },
        (State::AddHumidityCharacteristic, Event::CommandComplete(cc)) => match cc.return_params {
            ReturnParameters::Vendor(VendorReturnParameters::GattAddCharacteristic(r)) => Context {
                humidity_characteristic_handle: Some(r.characteristic_handle),
                ..c
            },
            _ => c,
        },
        (State::AddTimeService, Event::CommandComplete(cc)) => match cc.return_params {
            ReturnParameters::Vendor(VendorReturnParameters::GattAddService(r)) => Context {
                time_service_handle: Some(r.service_handle),
                ..c
            },
            _ => c,
        },
        (State::AddLedService, Event::CommandComplete(cc)) => match cc.return_params {
            ReturnParameters::Vendor(VendorReturnParameters::GattAddService(r)) => Context {
                led_service_handle: Some(r.service_handle),
                ..c
            },
            _ => c,
        },
        _ => c,
    }
}

/// The machine's reaction to one decoded event: the next stage and the new
/// context. An event the stage does not expect changes nothing; an expected
/// event with a failure status moves to the fail-stop stage and changes no
/// context; an expected success records the payload and advances.
pub open spec fn spec_react(s: State, c: Context, e: Event) -> (State, Context) {
    if !spec_expects(s, e) {
        (s, c)
    } else if spec_event_status(e) is Success {
        (spec_next(s), spec_record(s, c, e))
    } else {
        (State::Failed, c)
    }
}

/// The context slots a stage reads when building its command. A stage never
/// runs before the stages that fill these slots have completed, so the
/// machine's invariant implies this for every reachable stage.
pub open spec fn ctx_ready(s: State, c: Context) -> bool {
    match s {
        State::SetDeviceName => c.gap_service_handle is Some && c.dev_name_handle is Some,
        State::AddAccFreeFallCharacteristic => c.acc_service_handle is Some && c.fw_version
            is Some,
        State::AddAccCharacteristic => c.acc_service_handle is Some && c.fw_version is Some,
        State::AddTemperatureCharacteristic => c.environmental_sensor_service_handle is Some
            && c.fw_version is Some,
        State::AddTemperatureCharacteristicDescriptor => c.environmental_sensor_service_handle
            is Some && c.temperature_characteristic_handle is Some,
        State::AddPressureCharacteristic => c.environmental_sensor_service_handle is Some
            && c.fw_version is Some,
        State::AddPressureCharacteristicDescriptor => c.environmental_sensor_service_handle
            is Some && c.pressure_characteristic_handle is Some,
        State::AddHumidityCharacteristic => c.environmental_sensor_service_handle is Some
            && c.fw_version is Some,
        State::AddHumidityCharacteristicDescriptor => c.environmental_sensor_service_handle
            is Some && c.humidity_characteristic_handle is Some,
        State::AddTimeCharacteristic => c.time_service_handle is Some && c.fw_version is Some,
        State::AddMinuteCharacteristic => c.time_service_handle is Some && c.fw_version is Some,
        State::AddLedCharacteristic => c.led_service_handle is Some && c.fw_version is Some,
        _ => true,
    }
}

/// The machine's invariant: every slot filled by a stage the machine has
/// already passed is populated. The fail-stop stage can be entered from any
/// point, so it promises nothing.
pub open spec fn wf(s: State, c: Context) -> bool {
    s == State::Failed || {
        let i = stage_index(s);
        &&& i >= 1 ==> c.fw_version is Some
        &&& i >= 5 ==> c.gap_service_handle is Some && c.dev_name_handle is Some
            && c.appearance_handle is Some
        &&& i >= 8 ==> c.acc_service_handle is Some
        &&& i >= 11 ==> c.environmental_sensor_service_handle is Some
        &&& i >= 12 ==> c.temperature_characteristic_handle is Some
        &&& i >= 14 ==> c.pressure_characteristic_handle is Some
        &&& i >= 16 ==> c.humidity_characteristic_handle is Some
        &&& i >= 18 ==> c.time_service_handle is Some
        &&& i >= 21 ==> c.led_service_handle is Some
    }
}

/// The command a stage issues, as a pure function of the context. The
/// service and characteristic handles come from the slots earlier stages
/// filled; the legacy-layout flag comes from the recorded firmware version;
/// everything else is the profile's fixed configuration.
pub open spec fn spec_act(s: State, c: Context) -> Action
    recommends
        ctx_ready(s, c),
{
    match s {
        State::GettingVersionInfo => Action::ReadVersion,
        State::Resetting => Action::Reset,
        State::SettingAddress => Action::WriteConfigData {
            address: profile::spec_device_address(),
        },
        State::InitGatt => Action::InitGatt,
        State::InitGap => Action::InitGap { privacy: false, device_name_capacity: 7 },
        State::SetDeviceName => Action::UpdateCharacteristicValue {
            service: c.gap_service_handle.unwrap(),
            characteristic: c.dev_name_handle.unwrap(),
            offset: 0,
            value: profile::spec_device_name(),
        },
        State::SetAuthenticationRequirement => Action::SetAuthenticationRequirement {
            mitm_protection: true,
            bonding: true,
            encryption_key_size_min: 7,
            encryption_key_size_max: 16,
            fixed_pin: 123456,
        },
        State::AddAccService => Action::AddService {
            uuid: profile::spec_acc_service_uuid(),
            max_attribute_records: 7,
        },
        State::AddAccFreeFallCharacteristic => Action::AddCharacteristic {
            service: c.acc_service_handle.unwrap(),
            uuid: profile::spec_acc_free_fall_uuid(),
            value_len: 1,
            properties: CharacteristicProperties {
                read: false,
                write: false,
                write_without_response: false,
                notify: true,
            },
            events: GattEventMask { attribute_write: false, confirm_read: false },
            encryption_key_size: 16,
            is_variable: false,
            legacy_layout: spec_legacy_layout(c.fw_version.unwrap()),
        },
        State::AddAccCharacteristic => Action::AddCharacteristic {
            service: c.acc_service_handle.unwrap(),
            uuid: profile::spec_acc_uuid(),
            value_len: 6,
            properties: CharacteristicProperties {
                read: true,
                write: false,
                write_without_response: false,
                notify: true,
            },
            events: GattEventMask { attribute_write: false, confirm_read: true },
            encryption_key_size: 16,
            is_variable: false,
            legacy_layout: spec_legacy_layout(c.fw_version.unwrap()),
        },
        State::AddEnvironmentalSensorService => Action::AddService {
            uuid: profile::spec_environmental_sensor_service_uuid(),
            max_attribute_records: 10,
        },
        State::AddTemperatureCharacteristic => Action::AddCharacteristic {
            service: c.environmental_sensor_service_handle.unwrap(),
            uuid: profile::spec_temperature_characteristic_uuid(),
            value_len: 2,
            properties: CharacteristicProperties {
                read: true,
                write: false,
                write_without_response: false,
                notify: false,
            },
            events: GattEventMask { attribute_write: false, confirm_read: true },
            encryption_key_size: 16,
            is_variable: false,
            legacy_layout: spec_legacy_layout(c.fw_version.unwrap()),
        },
        State::AddTemperatureCharacteristicDescriptor => Action::AddDescriptor {
            service: c.environmental_sensor_service_handle.unwrap(),
            characteristic: c.temperature_characteristic_handle.unwrap(),
            uuid: profile::spec_presentation_format_uuid(),
            max_len: 7,
            value: profile::spec_temperature_format(),
            encryption_key_size: 16,
        },
        State::AddPressureCharacteristic => Action::AddCharacteristic {
            service: c.environmental_sensor_service_handle.unwrap(),
            uuid: profile::spec_pressure_characteristic_uuid(),
            value_len: 3,
            properties: CharacteristicProperties {
                read: true,
                write: false,
                write_without_response: false,
                notify: false,
            },
            events: GattEventMask { attribute_write: false, confirm_read: true },
            encryption_key_size: 16,
            is_variable: false,
            legacy_layout: spec_legacy_layout(c.fw_version.unwrap()),
        },
        State::AddPressureCharacteristicDescriptor => Action::AddDescriptor {
            service: c.environmental_sensor_service_handle.unwrap(),
            characteristic: c.pressure_characteristic_handle.unwrap(),
            uuid: profile::spec_presentation_format_uuid(),
            max_len: 7,
            value: profile::spec_pressure_format(),
            encryption_key_size: 16,
        },
        State::AddHumidityCharacteristic => Action::AddCharacteristic {
            service: c.environmental_sensor_service_handle.unwrap(),
            uuid: profile::spec_humidity_characteristic_uuid(),
            value_len: 2,
            properties: CharacteristicProperties {
                read: true,
                write: false,
                write_without_response: false,
                notify: false,
            },
            events: GattEventMask { attribute_write: false, confirm_read: true },
            encryption_key_size: 16,
            is_variable: false,
            legacy_layout: spec_legacy_layout(c.fw_version.unwrap()),
        },
        State::AddHumidityCharacteristicDescriptor => Action::AddDescriptor {
            service: c.environmental_sensor_service_handle.unwrap(),
            characteristic: c.humidity_characteristic_handle.unwrap(),
            uuid: profile::spec_presentation_format_uuid(),
            max_len: 7,
            value: profile::spec_humidity_format(),
            encryption_key_size: 16,
        },
        State::AddTimeService => Action::AddService {
            uuid: profile::spec_time_service_uuid(),
            max_attribute_records: 7,
        },
        State::AddTimeCharacteristic => Action::AddCharacteristic {
            service: c.time_service_handle.unwrap(),
            uuid: profile::spec_time_characteristic_uuid(),
            value_len: 4,
            properties: CharacteristicProperties {
                read: true,
                write: false,
                write_without_response: false,
                notify: false,
            },
            events: GattEventMask { attribute_write: false, confirm_read: false },
            encryption_key_size: 16,
            is_variable: false,
            legacy_layout: spec_legacy_layout(c.fw_version.unwrap()),
        },
        State::AddMinuteCharacteristic => Action::AddCharacteristic {
            service: c.time_service_handle.unwrap(),
            uuid: profile::spec_minute_characteristic_uuid(),
            value_len: 4,
            properties: CharacteristicProperties {
                read: true,
                write: false,
                write_without_response: false,
                notify: true,
            },
            events: GattEventMask { attribute_write: false, confirm_read: true },
            encryption_key_size: 16,
            is_variable: true,
            legacy_layout: spec_legacy_layout(c.fw_version.unwrap()),
        },
        State::AddLedService => Action::AddService {
            uuid: profile::spec_led_service_uuid(),
            max_attribute_records: 7,
        },
        State::AddLedCharacteristic => Action::AddCharacteristic {
            service: c.led_service_handle.unwrap(),
            uuid: profile::spec_led_characteristic_uuid(),
            value_len: 4,
            properties: CharacteristicProperties {
                read: false,
                write: true,
                write_without_response: true,
                notify: false,
            },
            events: GattEventMask { attribute_write: true, confirm_read: false },
            encryption_key_size: 16,
            is_variable: true,
            legacy_layout: spec_legacy_layout(c.fw_version.unwrap()),
        },
        State::SetTxPowerLevel => Action::SetTxPowerLevel,
        State::SetEmptyScanResponse => Action::SetEmptyScanResponse,
        State::SetDiscoverable => Action::SetDiscoverable {
            local_name: profile::spec_device_name(),
        },
        State::Complete => Action::Park,
        State::Failed => Action::Park,
    }
}

impl State {
    /// Builds the command this stage issues, reading handles and the
    /// firmware version from the context.
    pub fn act(&self, ctx: &Context) -> (a: Action)
        requires
            ctx_ready(*self, *ctx),
        ensures
            a == spec_act(*self, *ctx),
    {
        match self {
            State::GettingVersionInfo => Action::ReadVersion,
            State::Resetting => Action::Reset,
            State::SettingAddress => Action::WriteConfigData {
                address: profile::device_address(),
            },
            State::InitGatt => Action::InitGatt,
            State::InitGap => Action::InitGap { privacy: false, device_name_capacity: 7 },
            State::SetDeviceName => Action::UpdateCharacteristicValue {
                service: ctx.gap_service_handle.unwrap(),
                characteristic: ctx.dev_name_handle.unwrap(),
                offset: 0,
                value: profile::device_name(),
            },
            State::SetAuthenticationRequirement => Action::SetAuthenticationRequirement {
                mitm_protection: true,
                bonding: true,
                encryption_key_size_min: 7,
                encryption_key_size_max: 16,
                fixed_pin: 123456,
            },
            State::AddAccService => Action::AddService {
                uuid: profile::acc_service_uuid(),
                max_attribute_records: 7,
            },
            State::AddAccFreeFallCharacteristic => Action::AddCharacteristic {
                service: ctx.acc_service_handle.unwrap(),
                uuid: profile::acc_free_fall_uuid(),
                value_len: 1,
                properties: CharacteristicProperties {
                    read: false,
                    write: false,
                    write_without_response: false,
                    notify: true,
                },
                events: GattEventMask { attribute_write: false, confirm_read: false },
                encryption_key_size: 16,
                is_variable: false,
                legacy_layout: legacy_layout(&ctx.fw_version.unwrap()),
            },
            State::AddAccCharacteristic => Action::AddCharacteristic {
                service: ctx.acc_service_handle.unwrap(),
                uuid: profile::acc_uuid(),
                value_len: 6,
                properties: CharacteristicProperties {
                    read: true,
                    write: false,
                    write_without_response: false,
                    notify: true,
                },
                events: GattEventMask { attribute_write: false, confirm_read: true },
                encryption_key_size: 16,
                is_variable: false,
                legacy_layout: legacy_layout(&ctx.fw_version.unwrap()),
            },
            State::AddEnvironmentalSensorService => Action::AddService {
                uuid: profile::environmental_sensor_service_uuid(),
                max_attribute_records: 10,
            },
            State::AddTemperatureCharacteristic => Action::AddCharacteristic {
                service: ctx.environmental_sensor_service_handle.unwrap(),
                uuid: profile::temperature_characteristic_uuid(),
                value_len: 2,
                properties: CharacteristicProperties {
                    read: true,
                    write: false,
                    write_without_response: false,
                    notify: false,
                },
                events: GattEventMask { attribute_write: false, confirm_read: true },
                encryption_key_size: 16,
                is_variable: false,
                legacy_layout: legacy_layout(&ctx.fw_version.unwrap()),
            },
            State::AddTemperatureCharacteristicDescriptor => Action::AddDescriptor {
                service: ctx.environmental_sensor_service_handle.unwrap(),
                characteristic: ctx.temperature_characteristic_handle.unwrap(),
                uuid: profile::presentation_format_uuid(),
                max_len: 7,
                value: profile::temperature_format(),
                encryption_key_size: 16,
            },
            State::AddPressureCharacteristic => Action::AddCharacteristic {
                service: ctx.environmental_sensor_service_handle.unwrap(),
                uuid: profile::pressure_characteristic_uuid(),
                value_len: 3,
                properties: CharacteristicProperties {
                    read: true,
                    write: false,
                    write_without_response: false,
                    notify: false,
                },
                events: GattEventMask { attribute_write: false, confirm_read: true },
                encryption_key_size: 16,
                is_variable: false,
                legacy_layout: legacy_layout(&ctx.fw_version.unwrap()),
            },
            State::AddPressureCharacteristicDescriptor => Action::AddDescriptor {
                service: ctx.environmental_sensor_service_handle.unwrap(),
                characteristic: ctx.pressure_characteristic_handle.unwrap(),
                uuid: profile::presentation_format_uuid(),
                max_len: 7,
                value: profile::pressure_format(),
                encryption_key_size: 16,
            },
            State::AddHumidityCharacteristic => Action::AddCharacteristic {
                service: ctx.environmental_sensor_service_handle.unwrap(),
                uuid: profile::humidity_characteristic_uuid(),
                value_len: 2,
                properties: CharacteristicProperties {
                    read: true,
                    write: false,
                    write_without_response: false,
                    notify: false,
                },
                events: GattEventMask { attribute_write: false, confirm_read: true },
                encryption_key_size: 16,
                is_variable: false,
                legacy_layout: legacy_layout(&ctx.fw_version.unwrap()),
            },
            State::AddHumidityCharacteristicDescriptor => Action::AddDescriptor {
                service: ctx.environmental_sensor_service_handle.unwrap(),
                characteristic: ctx.humidity_characteristic_handle.unwrap(),
                uuid: profile::presentation_format_uuid(),
                max_len: 7,
                value: profile::humidity_format(),
                encryption_key_size: 16,
            },
            State::AddTimeService => Action::AddService {
                uuid: profile::time_service_uuid(),
                max_attribute_records: 7,
            },
            State::AddTimeCharacteristic => Action::AddCharacteristic {
                service: ctx.time_service_handle.unwrap(),
                uuid: profile::time_characteristic_uuid(),
                value_len: 4,
                properties: CharacteristicProperties {
                    read: true,
                    write: false,
                    write_without_response: false,
                    notify: false,
                },
                events: GattEventMask { attribute_write: false, confirm_read: false },
                encryption_key_size: 16,
                is_variable: false,
                legacy_layout: legacy_layout(&ctx.fw_version.unwrap()),
            },
            State::AddMinuteCharacteristic => Action::AddCharacteristic {
                service: ctx.time_service_handle.unwrap(),
                uuid: profile::minute_characteristic_uuid(),
                value_len: 4,
                properties: CharacteristicProperties {
                    read: true,
                    write: false,
                    write_without_response: false,
                    notify: true,
                },
                events: GattEventMask { attribute_write: false, confirm_read: true },
                encryption_key_size: 16,
                is_variable: true,
                legacy_layout: legacy_layout(&ctx.fw_version.unwrap()),
            },
            State::AddLedService => Action::AddService {
                uuid: profile::led_service_uuid(),
                max_attribute_records: 7,
            },
            State::AddLedCharacteristic => Action::AddCharacteristic {
                service: ctx.led_service_handle.unwrap(),
                uuid: profile::led_characteristic_uuid(),
                value_len: 4,
                properties: CharacteristicProperties {
                    read: false,
                    write: true,
                    write_without_response: true,
                    notify: false,
                },
                events: GattEventMask { attribute_write: true, confirm_read: false },
                encryption_key_size: 16,
                is_variable: true,
                legacy_layout: legacy_layout(&ctx.fw_version.unwrap()),
            },
            State::SetTxPowerLevel => Action::SetTxPowerLevel,
            State::SetEmptyScanResponse => Action::SetEmptyScanResponse,
            State::SetDiscoverable => Action::SetDiscoverable {
                local_name: profile::device_name(),
            },
            State::Complete => Action::Park,
            State::Failed => Action::Park,
        }
    }

    /// Dispatches one decoded event: records its payload and advances on a
    /// recognized success, fail-stops on a recognized failure status, and
    /// ignores everything else.
    pub fn react_to_event(&self, ctx: &mut Context, event: Event) -> (next: State)
        ensures
            next == spec_react(*self, *old(ctx), event).0,
            *final(ctx) == spec_react(*self, *old(ctx), event).1,
    {
        match self {
            State::GettingVersionInfo => {
                if let Event::CommandComplete(cc) = event {
                    if let ReturnParameters::ReadLocalVersionInformation(info) = cc.return_params {
                        if info.status.is_success() {
                            ctx.fw_version = Some(info.vendor_version());
                            return State::Resetting;
                        }
                        return State::Failed;
                    }
                }
                *self
            },
            State::Resetting => {
                if let Event::Vendor(VendorEvent::HalInitialized) = event {
                    return State::SettingAddress;
                }
                *self
            },
            State::SettingAddress => {
                if let Event::CommandComplete(cc) = event {
                    if let ReturnParameters::Vendor(VendorReturnParameters::HalWriteConfigData(st))
                        = cc.return_params {
                        if st.is_success() {
                            return State::InitGatt;
                        }
                        return State::Failed;
                    }
                }
                *self
            },
            State::InitGatt => {
                if let Event::CommandComplete(cc) = event {
                    if let ReturnParameters::Vendor(VendorReturnParameters::GattInit(st)) =
                        cc.return_params {
                        if st.is_success() {
                            return State::InitGap;
                        }
                        return State::Failed;
                    }
                }
                *self
            },
            State::InitGap => {
                if let Event::CommandComplete(cc) = event {
                    if let ReturnParameters::Vendor(VendorReturnParameters::GapInit(r)) =
                        cc.return_params {
                        if r.status.is_success() {
                            ctx.gap_service_handle = Some(r.service_handle);
                            ctx.dev_name_handle = Some(r.dev_name_handle);
                            ctx.appearance_handle = Some(r.appearance_handle);
                            return State::SetDeviceName;
                        }
                        return State::Failed;
                    }
                }
                *self
            },
            State::SetDeviceName => {
                if let Event::CommandComplete(cc) = event {
                    if let ReturnParameters::Vendor(
                        VendorReturnParameters::GattUpdateCharacteristicValue(st),
                    ) = cc.return_params {
                        if st.is_success() {
                            return State::SetAuthenticationRequirement;
                        }
                        return State::Failed;
                    }
                }
                *self
            },
            State::SetAuthenticationRequirement => {
                if let Event::CommandComplete(cc) = event {
                    if let ReturnParameters::Vendor(
                        VendorReturnParameters::GapSetAuthenticationRequirement(st),
                    ) = cc.return_params {
                        if st.is_success() {
                            return State::AddAccService;
                        }
                        return State::Failed;
                    }
                }
                *self
            },
            State::AddAccService => {
                if let Event::CommandComplete(cc) = event {
                    if let ReturnParameters::Vendor(VendorReturnParameters::GattAddService(r)) =
                        cc.return_params {
                        if r.status.is_success() {
                            ctx.acc_service_handle = Some(r.service_handle);
                            return State::AddAccFreeFallCharacteristic;
                        }
                        return State::Failed;
                    }
                }
                *self
            },
            State::AddAccFreeFallCharacteristic => {
                if let Event::CommandComplete(cc) = event {
                    if let ReturnParameters::Vendor(
                        VendorReturnParameters::GattAddCharacteristic(r),
                    ) = cc.return_params {
                        if r.status.is_success() {
                            return State::AddAccCharacteristic;
                        }
                        return State::Failed;
                    }
                }
                *self
            },
            State::AddAccCharacteristic => {
                if let Event::CommandComplete(cc) = event {
                    if let ReturnParameters::Vendor(
                        VendorReturnParameters::GattAddCharacteristic(r),
                    ) = cc.return_params {
                        if r.status.is_success() {
                            return State::AddEnvironmentalSensorService;
                        }
                        return State::Failed;
                    }
                }
                *self
            },
            State::AddEnvironmentalSensorService => {
                if let Event::CommandComplete(cc) = event {
                    if let ReturnParameters::Vendor(VendorReturnParameters::GattAddService(r)) =
                        cc.return_params {
                        if r.status.is_success() {
                            ctx.environmental_sensor_service_handle = Some(r.service_handle);
                            return State::AddTemperatureCharacteristic;
                        }
                        return State::Failed;
                    }
                }
                *self
            },
            State::AddTemperatureCharacteristic => {
                if let Event::CommandComplete(cc) = event {
                    if let ReturnParameters::Vendor(
                        VendorReturnParameters::GattAddCharacteristic(r),
                    ) = cc.return_params {
                        if r.status.is_success() {
                            ctx.temperature_characteristic_handle = Some(r.characteristic_handle);
                            return State::AddTemperatureCharacteristicDescriptor;
                        }
                        return State::Failed;
                    }
                }
                *self
            },
            State::AddTemperatureCharacteristicDescriptor => {
                if let Event::CommandComplete(cc) = event {
                    if let ReturnParameters::Vendor(
                        VendorReturnParameters::GattAddCharacteristicDescriptor(st),
                    ) = cc.return_params {
                        if st.is_success() {
                            return State::AddPressureCharacteristic;
                        }
                        return State::Failed;
                    }
                }
                *self
            },
            State::AddPressureCharacteristic => {
                if let Event::CommandComplete(cc) = event {
                    if let ReturnParameters::Vendor(
                        VendorReturnParameters::GattAddCharacteristic(r),
                    ) = cc.return_params {
                        if r.status.is_success() {
                            ctx.pressure_characteristic_handle = Some(r.characteristic_handle);
                            return State::AddPressureCharacteristicDescriptor;
                        }
                        return State::Failed;
                    }
                }
                *self
            },
            State::AddPressureCharacteristicDescriptor => {
                if let Event::CommandComplete(cc) = event {
                    if let ReturnParameters::Vendor(
                        VendorReturnParameters::GattAddCharacteristicDescriptor(st),
                    ) = cc.return_params {
                        if st.is_success() {
                            return State::AddHumidityCharacteristic;
                        }
                        return State::Failed;
                    }
                }
                *self
            },
            State::AddHumidityCharacteristic => {
                if let Event::CommandComplete(cc) = event {
                    if let ReturnParameters::Vendor(
                        VendorReturnParameters::GattAddCharacteristic(r),
                    ) = cc.return_params {
                        if r.status.is_success() {
                            ctx.humidity_characteristic_handle = Some(r.characteristic_handle);
                            return State::AddHumidityCharacteristicDescriptor;
                        }
                        return State::Failed;
                    }
                }
                *self
            },
            State::AddHumidityCharacteristicDescriptor => {
                if let Event::CommandComplete(cc) = event {
                    if let ReturnParameters::Vendor(
                        VendorReturnParameters::GattAddCharacteristicDescriptor(st),
                    ) = cc.return_params {
                        if st.is_success() {
                            return State::AddTimeService;
                        }
                        return State::Failed;
                    }
                }
                *self
            },
            State::AddTimeService => {
                if let Event::CommandComplete(cc) = event {
                    if let ReturnParameters::Vendor(VendorReturnParameters::GattAddService(r)) =
                        cc.return_params {
                        if r.status.is_success() {
                            ctx.time_service_handle = Some(r.service_handle);
                            return State::AddTimeCharacteristic;
                        }
                        return State::Failed;
                    }
                }
                *self
            },
            State::AddTimeCharacteristic => {
                if let Event::CommandComplete(cc) = event {
                    if let ReturnParameters::Vendor(
                        VendorReturnParameters::GattAddCharacteristic(r),
                    ) = cc.return_params {
                        if r.status.is_success() {
                            return State::AddMinuteCharacteristic;
                        }
                        return State::Failed;
                    }
                }
                *self
            },
            State::AddMinuteCharacteristic => {
                if let Event::CommandComplete(cc) = event {
                    if let ReturnParameters::Vendor(
                        VendorReturnParameters::GattAddCharacteristic(r),
                    ) = cc.return_params {
                        if r.status.is_success() {
                            return State::AddLedService;
                        }
                        return State::Failed;
                    }
                }
                *self
            },
            State::AddLedService => {
                if let Event::CommandComplete(cc) = event {
                    if let ReturnParameters::Vendor(VendorReturnParameters::GattAddService(r)) =
                        cc.return_params {
                        if r.status.is_success() {
                            ctx.led_service_handle = Some(r.service_handle);
                            return State::AddLedCharacteristic;
                        }
                        return State::Failed;
                    }
                }
                *self
            },
            State::AddLedCharacteristic => {
                if let Event::CommandComplete(cc) = event {
                    if let ReturnParameters::Vendor(
                        VendorReturnParameters::GattAddCharacteristic(r),
                    ) = cc.return_params {
                        if r.status.is_success() {
                            return State::SetTxPowerLevel;
                        }
                        return State::Failed;
                    }
                }
                *self
            },
            State::SetTxPowerLevel => {
                if let Event::CommandComplete(cc) = event {
                    if let ReturnParameters::Vendor(VendorReturnParameters::HalSetTxPowerLevel(st))
                        = cc.return_params {
                        if st.is_success() {
                            return State::SetEmptyScanResponse;
                        }
                        return State::Failed;
                    }
                }
                *self
            },
            State::SetEmptyScanResponse => {
                if let Event::CommandComplete(cc) = event {
                    if let ReturnParameters::LeSetScanResponseData(st) = cc.return_params {
                        if st.is_success() {
                            return State::SetDiscoverable;
                        }
                        return State::Failed;
                    }
                }
                *self
            },
            State::SetDiscoverable => {
                if let Event::CommandComplete(cc) = event {
                    if let ReturnParameters::Vendor(VendorReturnParameters::GapSetDiscoverable(st))
                        = cc.return_params {
                        if st.is_success() {
                            return State::Complete;
                        }
                        return State::Failed;
                    }
                }
                *self
            },
            State::Complete => *self,
            State::Failed => *self,
        }
    }

    /// Handles the outcome of one wait on the transport. A transport error
    /// leaves the machine where it is — the run loop reissues the command
    /// and waits again; a decoded event is dispatched to the stage.
    pub fn react(&self, ctx: &mut Context, reading: Result<Event, TransportError>) -> (next: State)
        ensures
            reading matches Ok(e) ==> next == spec_react(*self, *old(ctx), e).0 && *final(ctx)
                == spec_react(*self, *old(ctx), e).1,
            reading is Err ==> next == *self && *final(ctx) == *old(ctx),
    {
        match reading {
            Ok(e) => self.react_to_event(ctx, e),
            Err(_) => *self,
        }
    }
}

} // verus!
