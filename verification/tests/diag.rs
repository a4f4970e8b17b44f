//! The diagnostic text: decimal rendering, the event descriptions, and the
//! transport-error report.

use bluenrg_provision::diag::{decimal_string, print_error, print_event};
use bluenrg_provision::types::{
    AddServiceResult, CommandComplete, Event, LocalVersionInfo, ReturnParameters, ServiceHandle,
    Status, VendorEvent, VendorReturnParameters,
};

#[test]
fn decimal_rendering() {
    assert_eq!(decimal_string(0), "0");
    assert_eq!(decimal_string(7), "7");
    assert_eq!(decimal_string(10), "10");
    assert_eq!(decimal_string(305), "305");
    assert_eq!(decimal_string(65535), "65535");
}

#[test]
fn version_event_report_lists_every_field() {
    // hci_revision 0x3107: hardware version 0x31, firmware major 7;
    // lmp_subversion 0x0012: minor 1, patch 2.
    let event = Event::CommandComplete(CommandComplete {
        num_hci_command_packets: 2,
        return_params: ReturnParameters::ReadLocalVersionInformation(LocalVersionInfo {
            status: Status::Success,
            hci_version: 6,
            hci_revision: 0x3107,
            lmp_version: 7,
            manufacturer_name: 48,
            lmp_subversion: 0x0012,
        }),
    });
    let expected = "Command complete; space left for 2 packets\n\
                    \x20 hci_version = 6\n\
                    \x20 hci_revision = 12551\n\
                    \x20 lmp_version = 7\n\
                    \x20 manufacturer_name = 48\n\
                    \x20 lmp_subversion = 18\n\
                    \x20 HW Version = 49\n\
                    \x20 FW Version = 7.1.2\n";
    assert_eq!(print_event(&event), expected);
}

#[test]
fn add_service_report_names_the_assigned_handle() {
    let event = Event::CommandComplete(CommandComplete {
        num_hci_command_packets: 1,
        return_params: ReturnParameters::Vendor(VendorReturnParameters::GattAddService(
            AddServiceResult { status: Status::Success, service_handle: ServiceHandle(16) },
        )),
    });
    assert_eq!(
        print_event(&event),
        "Command complete; space left for 1 packets\n  service added; handle = 16\n"
    );
}

#[test]
fn vendor_and_unknown_event_reports() {
    assert_eq!(
        print_event(&Event::Vendor(VendorEvent::HalInitialized)),
        "Vendor event: hardware initialized\n"
    );
    assert_eq!(print_event(&Event::Vendor(VendorEvent::Other)), "Vendor event: other\n");
    assert_eq!(print_event(&Event::Other), "Other event\n");
}

#[test]
fn error_report_carries_the_detail() {
    assert_eq!(print_error("would block"), "Error: would block\n");
    assert_eq!(print_error(""), "Error: \n");
}
