//! Plain data carried through the provisioning machine: versions, handles,
//! statuses, command payloads and decoded events.
//!
//! The wire framing of commands and events is the transport's business; the
//! machine works on these already-decoded values and on the command payloads
//! it asks the transport to send.

use vstd::prelude::*;

verus! {

/// Firmware/hardware version reported by the radio during the first stage.
#[derive(Clone, Copy, Debug, PartialEq, Eq, Structural)]
pub struct Version {
    pub hw_version: u8,
    pub major: u8,
    pub minor: u8,
    pub patch: u8,
}

/// Whether a firmware version predates the 7.2 payload layout change.
///
/// Commands that add a characteristic carry a flag selecting between the
/// old and the new payload layout; the comparison is lexicographic on
/// (major, minor) and ignores the patch level.
pub open spec fn spec_legacy_layout(v: Version) -> bool {
    v.major < 7 || (v.major == 7 && v.minor < 2)
}

/// Computes the legacy-layout flag for a recorded firmware version.
pub fn legacy_layout(v: &Version) -> (r: bool)
    ensures
        r == spec_legacy_layout(*v),
{
    v.major < 7 || (v.major == 7 && v.minor < 2)
}

/// Raw local-version fields of the version-query completion, as the host
/// controller interface reports them.
#[derive(Clone, Copy, Debug, PartialEq, Eq, Structural)]
pub struct LocalVersionInfo {
    pub status: Status,
    pub hci_version: u8,
    pub hci_revision: u16,
    pub lmp_version: u8,
    pub manufacturer_name: u16,
    pub lmp_subversion: u16,
}

/// The vendor version encoded in the implementation-defined fields of the
/// local version information: the hardware version and the firmware major in
/// `hci_revision`, the firmware minor and patch in the low byte of
/// `lmp_subversion`.
pub open spec fn spec_vendor_version(info: LocalVersionInfo) -> Version {
    Version {
        hw_version: (info.hci_revision >> 8) as u8,
        major: (info.hci_revision & 0xFF) as u8,
        minor: ((info.lmp_subversion >> 4) & 0xF) as u8,
        patch: (info.lmp_subversion & 0xF) as u8,
    }
}

impl LocalVersionInfo {
    /// Decodes the vendor version from the implementation-defined fields.
    pub fn vendor_version(&self) -> (r: Version)
        ensures
            r == spec_vendor_version(*self),
    {
        Version {
            hw_version: (self.hci_revision >> 8) as u8,
            major: (self.hci_revision & 0xFF) as u8,
            minor: ((self.lmp_subversion >> 4) & 0xF) as u8,
            patch: (self.lmp_subversion & 0xF) as u8,
        }
    }
}

/// Outcome code of a completion event. The machine only distinguishes
/// success from failure; a failure keeps the raw code for diagnostics.
#[derive(Clone, Copy, Debug, PartialEq, Eq, Structural)]
pub enum Status {
    Success,
    Failure(u8),
}

impl Status {
    /// True exactly when the status is the success code.
    pub fn is_success(&self) -> (r: bool)
        ensures
            r == (*self is Success),
    {
        match self {
            Status::Success => true,
            Status::Failure(_) => false,
        }
    }
}

/// Handle the peripheral assigned to a service it created.
#[derive(Clone, Copy, Debug, PartialEq, Eq, Structural)]
pub struct ServiceHandle(pub u16);

/// Handle the peripheral assigned to a characteristic it created.
#[derive(Clone, Copy, Debug, PartialEq, Eq, Structural)]
pub struct CharacteristicHandle(pub u16);

/// UUID of a service, characteristic or descriptor.
#[derive(Clone, Copy, Debug, PartialEq, Eq)]
pub enum Uuid {
    Uuid16(u16),
    Uuid128([u8; 16]),
}

/// Properties of a characteristic being created. Only the properties this
/// provisioning profile uses are carried.
#[derive(Clone, Copy, Debug, PartialEq, Eq, Structural)]
pub struct CharacteristicProperties {
    pub read: bool,
    pub write: bool,
    pub write_without_response: bool,
    pub notify: bool,
}

/// Attribute events the radio should report for a characteristic.
#[derive(Clone, Copy, Debug, PartialEq, Eq, Structural)]
pub struct GattEventMask {
    pub attribute_write: bool,
    pub confirm_read: bool,
}

/// Return parameters of the GAP initialization completion.
#[derive(Clone, Copy, Debug, PartialEq, Eq, Structural)]
pub struct GapInitResult {
    pub status: Status,
    pub service_handle: ServiceHandle,
    pub dev_name_handle: CharacteristicHandle,
    pub appearance_handle: CharacteristicHandle,
}

/// Return parameters of an add-service completion.
#[derive(Clone, Copy, Debug, PartialEq, Eq, Structural)]
pub struct AddServiceResult {
    pub status: Status,
    pub service_handle: ServiceHandle,
}

/// Return parameters of an add-characteristic completion.
#[derive(Clone, Copy, Debug, PartialEq, Eq, Structural)]
pub struct AddCharacteristicResult {
    pub status: Status,
    pub characteristic_handle: CharacteristicHandle,
}

/// Vendor-specific return parameters of a command-completion event.
#[derive(Clone, Copy, Debug, PartialEq, Eq, Structural)]
pub enum VendorReturnParameters {
    HalWriteConfigData(Status),
    HalSetTxPowerLevel(Status),
    GattInit(Status),
    GattAddService(AddServiceResult),
    GattAddCharacteristic(AddCharacteristicResult),
    GattAddCharacteristicDescriptor(Status),
    GattUpdateCharacteristicValue(Status),
    GapInit(GapInitResult),
    GapSetAuthenticationRequirement(Status),
    GapSetDiscoverable(Status),
    /// Any other vendor completion: recognized by no stage.
    Other,
}

/// Return parameters of a command-completion event.
#[derive(Clone, Copy, Debug, PartialEq, Eq, Structural)]
pub enum ReturnParameters {
    ReadLocalVersionInformation(LocalVersionInfo),
    LeSetScanResponseData(Status),
    Vendor(VendorReturnParameters),
    /// Any other standard completion: recognized by no stage.
    Other,
}

/// A command-completion event: the room the controller reports for further
/// command packets, and the command's return parameters.
#[derive(Clone, Copy, Debug, PartialEq, Eq, Structural)]
pub struct CommandComplete {
    pub num_hci_command_packets: u8,
    pub return_params: ReturnParameters,
}

/// Vendor-specific events outside the command-completion flow.
#[derive(Clone, Copy, Debug, PartialEq, Eq, Structural)]
pub enum VendorEvent {
    /// The radio finished its power-on initialization.
    HalInitialized,
    /// Any other vendor event: recognized by no stage.
    Other,
}

/// A decoded event received from the radio.
#[derive(Clone, Copy, Debug, PartialEq, Eq, Structural)]
pub enum Event {
    CommandComplete(CommandComplete),
    Vendor(VendorEvent),
    /// Any other standard event: recognized by no stage.
    Other,
}

/// A failure of the transport itself: the frame never arrived or could not
/// be decoded. The machine reacts to every transport error alike, so the
/// error carries no detail; the caller keeps the underlying error for its
/// diagnostics.
#[derive(Clone, Copy, Debug, PartialEq, Eq, Structural)]
pub struct TransportError;

/// The command a stage asks the transport to carry out, with every payload
/// the peripheral will see. Handles come from the machine's context;
/// everything else is fixed provisioning-profile configuration.
#[derive(Clone, Copy, Debug, PartialEq, Eq)]
pub enum Action {
    /// Query the local version information.
    ReadVersion,
    /// Pulse the reset line and wait the fixed delay.
    Reset,
    /// Write the public device address into the configuration area.
    WriteConfigData { address: [u8; 6] },
    /// Initialize the GATT service table.
    InitGatt,
    /// Initialize the GAP layer in the peripheral role.
    InitGap { privacy: bool, device_name_capacity: u8 },
    /// Write a characteristic value owned by the local GATT server.
    UpdateCharacteristicValue {
        service: ServiceHandle,
        characteristic: CharacteristicHandle,
        offset: u8,
        value: [u8; 7],
    },
    /// Configure the authentication policy.
    SetAuthenticationRequirement {
        mitm_protection: bool,
        bonding: bool,
        encryption_key_size_min: u8,
        encryption_key_size_max: u8,
        fixed_pin: u32,
    },
    /// Create a primary service.
    AddService { uuid: Uuid, max_attribute_records: u8 },
    /// Create a characteristic under a previously created service.
    AddCharacteristic {
        service: ServiceHandle,
        uuid: Uuid,
        value_len: u8,
        properties: CharacteristicProperties,
        events: GattEventMask,
        encryption_key_size: u8,
        is_variable: bool,
        legacy_layout: bool,
    },
    /// Create a descriptor under a previously created characteristic.
    AddDescriptor {
        service: ServiceHandle,
        characteristic: CharacteristicHandle,
        uuid: Uuid,
        max_len: u8,
        value: [u8; 7],
        encryption_key_size: u8,
    },
    /// Set the transmit power level to the profile's fixed -2.1 dBm step.
    SetTxPowerLevel,
    /// Set an empty scan-response payload.
    SetEmptyScanResponse,
    /// Begin advertising as connectable and undirected under the profile's
    /// local name.
    SetDiscoverable { local_name: [u8; 7] },
    /// Do nothing but wait: the machine is in a terminal stage.
    Park,
}

/// Values the machine learns from completion events, threaded into the
/// commands of later stages. Every slot starts empty and is filled at most
/// once, by the stage whose completion carries the value.
#[derive(Clone, Copy, Debug, PartialEq, Eq, Structural)]
pub struct Context {
    pub fw_version: Option<Version>,

    pub gap_service_handle: Option<ServiceHandle>,
    pub dev_name_handle: Option<CharacteristicHandle>,
    pub appearance_handle: Option<CharacteristicHandle>,

    pub acc_service_handle: Option<ServiceHandle>,

    pub environmental_sensor_service_handle: Option<ServiceHandle>,
    pub temperature_characteristic_handle: Option<CharacteristicHandle>,
    pub humidity_characteristic_handle: Option<CharacteristicHandle>,
    pub pressure_characteristic_handle: Option<CharacteristicHandle>,

    pub time_service_handle: Option<ServiceHandle>,
    pub led_service_handle: Option<ServiceHandle>,
}

impl Context {
    /// A context with every slot still empty, as the machine starts.
    pub fn empty() -> (r: Context)
        ensures
            r == Context::spec_empty(),
    {
        Context {
            fw_version: None,
            gap_service_handle: None,
            dev_name_handle: None,
            appearance_handle: None,
            acc_service_handle: None,
            environmental_sensor_service_handle: None,
            temperature_characteristic_handle: None,
            humidity_characteristic_handle: None,
            pressure_characteristic_handle: None,
            time_service_handle: None,
            led_service_handle: None,
        }
    }

    /// The context with every slot empty.
    pub open spec fn spec_empty() -> Context {
        Context {
            fw_version: None,
            gap_service_handle: None,
            dev_name_handle: None,
            appearance_handle: None,
            acc_service_handle: None,
            environmental_sensor_service_handle: None,
            temperature_characteristic_handle: None,
            humidity_characteristic_handle: None,
            pressure_characteristic_handle: None,
            time_service_handle: None,
            led_service_handle: None,
        }
    }
}

} // verus!
