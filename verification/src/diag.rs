//! Diagnostic text for the side channel: a description of each received
//! event and a rendering of transport errors. The text has no effect on the
//! machine; the surrounding application writes it to its console.

use vstd::prelude::*;

use crate::types::{Event, ReturnParameters, VendorEvent, VendorReturnParameters};

verus! {

/// The character for one decimal digit.
pub open spec fn spec_digit_char(d: nat) -> char {
    if d == 0 {
        '0'
    } else if d == 1 {
        '1'
    } else if d == 2 {
        '2'
    } else if d == 3 {
        '3'
    } else if d == 4 {
        '4'
    } else if d == 5 {
        '5'
    } else if d == 6 {
        '6'
    } else if d == 7 {
        '7'
    } else if d == 8 {
        '8'
    } else {
        '9'
    }
}

/// The decimal rendering of a number: most significant digit first, no
/// leading zeros except for zero itself.
pub open spec fn spec_decimal(n: nat) -> Seq<char>
    decreases n,
{
    if n < 10 {
        seq![spec_digit_char(n)]
    } else {
        spec_decimal(n / 10).push(spec_digit_char(n % 10))
    }
}

fn digit_str(d: u64) -> (s: &'static str)
    requires
        d < 10,
    ensures
        s@ == seq![spec_digit_char(d as nat)],
{
    proof {
        reveal_strlit("0");
        reveal_strlit("1");
        reveal_strlit("2");
        reveal_strlit("3");
        reveal_strlit("4");
        reveal_strlit("5");
        reveal_strlit("6");
        reveal_strlit("7");
        reveal_strlit("8");
        reveal_strlit("9");
    }
    let s = match d {
        0 => "0",
        1 => "1",
        2 => "2",
        3 => "3",
        4 => "4",
        5 => "5",
        6 => "6",
        7 => "7",
        8 => "8",
        _ => "9",
    };
    proof {
        assert(s@ =~= seq![spec_digit_char(d as nat)]);
    }
    s
}

/// Renders a number in decimal.
pub fn decimal_string(n: u64) -> (s: String)
    ensures
        s@ == spec_decimal(n as nat),
    decreases n,
{
    if n < 10 {
        String::from_str(digit_str(n))
    } else {
        let mut s = decimal_string(n / 10);
        s.append(digit_str(n % 10));
        s
    }
}

/// The description of a received event, one report per event: the
/// command-completion header with the controller's free packet slots, then
/// one line for the return parameters — the full field list for a version
/// query, the assigned handle for creations that return one, a short name
/// otherwise.
pub open spec fn spec_event_text(e: Event) -> Seq<char> {
    match e {
        Event::CommandComplete(cc) => "Command complete; space left for "@ + spec_decimal(
            cc.num_hci_command_packets as nat,
        ) + " packets\n"@ + match cc.return_params {
            ReturnParameters::ReadLocalVersionInformation(info) => "  hci_version = "@
                + spec_decimal(info.hci_version as nat) + "\n  hci_revision = "@ + spec_decimal(
                info.hci_revision as nat,
            ) + "\n  lmp_version = "@ + spec_decimal(info.lmp_version as nat)
                + "\n  manufacturer_name = "@ + spec_decimal(info.manufacturer_name as nat)
                + "\n  lmp_subversion = "@ + spec_decimal(info.lmp_subversion as nat)
                + "\n  HW Version = "@ + spec_decimal(
                crate::types::spec_vendor_version(info).hw_version as nat,
            ) + "\n  FW Version = "@ + spec_decimal(
                crate::types::spec_vendor_version(info).major as nat,
            ) + "."@ + spec_decimal(crate::types::spec_vendor_version(info).minor as nat) + "."@
                + spec_decimal(crate::types::spec_vendor_version(info).patch as nat) + "\n"@,
            ReturnParameters::LeSetScanResponseData(_) => "  scan response data set\n"@,
            ReturnParameters::Vendor(v) => match v {
                VendorReturnParameters::HalWriteConfigData(_) => "  config data written\n"@,
                VendorReturnParameters::HalSetTxPowerLevel(_) => "  tx power level set\n"@,
                VendorReturnParameters::GattInit(_) => "  GATT initialized\n"@,
                VendorReturnParameters::GattAddService(r) => "  service added; handle = "@
                    + spec_decimal(r.service_handle.0 as nat) + "\n"@,
                VendorReturnParameters::GattAddCharacteristic(r) => {
                    "  characteristic added; handle = "@ + spec_decimal(
                        r.characteristic_handle.0 as nat,
                    ) + "\n"@
                },
                VendorReturnParameters::GattAddCharacteristicDescriptor(_) => {
                    "  descriptor added\n"@
                },
                VendorReturnParameters::GattUpdateCharacteristicValue(_) => {
                    "  characteristic value updated\n"@
                },
                VendorReturnParameters::GapInit(r) => "  GAP initialized; service handle = "@
                    + spec_decimal(r.service_handle.0 as nat) + "\n"@,
                VendorReturnParameters::GapSetAuthenticationRequirement(_) => {
                    "  authentication requirement set\n"@
                },
                VendorReturnParameters::GapSetDiscoverable(_) => "  discoverable\n"@,
                VendorReturnParameters::Other => "  other vendor return parameters\n"@,
            },
            ReturnParameters::Other => "  other return parameters\n"@,
        },
        Event::Vendor(VendorEvent::HalInitialized) => "Vendor event: hardware initialized\n"@,
        Event::Vendor(VendorEvent::Other) => "Vendor event: other\n"@,
        Event::Other => "Other event\n"@,
    }
}

/// Renders the description of a received event.
#[verifier::rlimit(60)]
pub fn print_event(event: &Event) -> (r: String)
    ensures
        r@ == spec_event_text(*event),
{
    match event {
        Event::CommandComplete(cc) => {
            let mut s = String::from_str("Command complete; space left for ");
            s.append(decimal_string(cc.num_hci_command_packets as u64).as_str());
            s.append(" packets\n");
            match cc.return_params {
                ReturnParameters::ReadLocalVersionInformation(info) => {
                    let v = info.vendor_version();
                    s.append("  hci_version = ");
                    s.append(decimal_string(info.hci_version as u64).as_str());
                    s.append("\n  hci_revision = ");
                    s.append(decimal_string(info.hci_revision as u64).as_str());
                    s.append("\n  lmp_version = ");
                    s.append(decimal_string(info.lmp_version as u64).as_str());
                    s.append("\n  manufacturer_name = ");
                    s.append(decimal_string(info.manufacturer_name as u64).as_str());
                    s.append("\n  lmp_subversion = ");
                    s.append(decimal_string(info.lmp_subversion as u64).as_str());
                    s.append("\n  HW Version = ");
                    s.append(decimal_string(v.hw_version as u64).as_str());
                    s.append("\n  FW Version = ");
                    s.append(decimal_string(v.major as u64).as_str());
                    s.append(".");
                    s.append(decimal_string(v.minor as u64).as_str());
                    s.append(".");
                    s.append(decimal_string(v.patch as u64).as_str());
                    s.append("\n");
                },
                ReturnParameters::LeSetScanResponseData(_) => {
                    s.append("  scan response data set\n");
                },
                ReturnParameters::Vendor(v) => match v {
                    VendorReturnParameters::HalWriteConfigData(_) => {
                        s.append("  config data written\n");
                    },
                    VendorReturnParameters::HalSetTxPowerLevel(_) => {
                        s.append("  tx power level set\n");
                    },
                    VendorReturnParameters::GattInit(_) => {
                        s.append("  GATT initialized\n");
                    },
                    VendorReturnParameters::GattAddService(r) => {
                        s.append("  service added; handle = ");
                        s.append(decimal_string(r.service_handle.0 as u64).as_str());
                        s.append("\n");
                    },
                    VendorReturnParameters::GattAddCharacteristic(r) => {
                        s.append("  characteristic added; handle = ");
                        s.append(decimal_string(r.characteristic_handle.0 as u64).as_str());
                        s.append("\n");
                    },
                    VendorReturnParameters::GattAddCharacteristicDescriptor(_) => {
                        s.append("  descriptor added\n");
                    },
                    VendorReturnParameters::GattUpdateCharacteristicValue(_) => {
                        s.append("  characteristic value updated\n");
                    },
                    VendorReturnParameters::GapInit(r) => {
                        s.append("  GAP initialized; service handle = ");
                        s.append(decimal_string(r.service_handle.0 as u64).as_str());
                        s.append("\n");
                    },
                    VendorReturnParameters::GapSetAuthenticationRequirement(_) => {
                        s.append("  authentication requirement set\n");
                    },
                    VendorReturnParameters::GapSetDiscoverable(_) => {
                        s.append("  discoverable\n");
                    },
                    VendorReturnParameters::Other => {
                        s.append("  other vendor return parameters\n");
                    },
                },
                ReturnParameters::Other => {
                    s.append("  other return parameters\n");
                },
            }
            proof {
                assert(s@ =~= spec_event_text(*event));
            }
            s
        },
        Event::Vendor(VendorEvent::HalInitialized) => {
            String::from_str("Vendor event: hardware initialized\n")
        },
        Event::Vendor(VendorEvent::Other) => String::from_str("Vendor event: other\n"),
        Event::Other => String::from_str("Other event\n"),
    }
}

/// Renders a transport error report: the fixed prefix, the caller's
/// description of the underlying error, and a line break.
pub fn print_error(detail: &str) -> (r: String)
    ensures
        r@ == "Error: "@ + detail@ + "\n"@,
{
    let mut s = String::from_str("Error: ");
    s.append(detail);
    s.append("\n");
    proof {
        assert(s@ =~= "Error: "@ + detail@ + "\n"@);
    }
    s
}

} // verus!
