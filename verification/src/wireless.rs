//! Wireless bootstrap: the access point's configuration files and
//! credentials, and the checks on each reply of the phone's Bluetooth
//! Wi-Fi handoff.

use vstd::prelude::*;

use crate::error::{CliError, CliErrorView};
use crate::text::{decimal, hex_encode, spec_decimal, spec_hex, spec_trim, trim};

verus! {

/// The port the phone connects back to over Wi-Fi.
pub const ACCESS_POINT_PORT: u32 = 5288;

/// The `hostapd` configuration for a WPA2 access point on `wlan0` in the
/// 5 GHz band, channel 36.
pub open spec fn spec_hostapd_config(ssid: Seq<char>, password: Seq<char>) -> Seq<char> {
    "interface=wlan0\ndriver=nl80211\nssid="@ + ssid
        + "\ncountry_code=GB\nieee80211d=1\nhw_mode=a\nchannel=36\nwpa=2\nwpa_passphrase="@
        + password + "\nwpa_key_mgmt=WPA-PSK\nrsn_pairwise=CCMP\n"@
}

/// The `hostapd` configuration for the access point.
pub fn hostapd_config(ssid: &str, password: &str) -> (r: String)
    ensures
        r@ == spec_hostapd_config(ssid@, password@),
{
    String::from_str("interface=wlan0\ndriver=nl80211\nssid=").concat(ssid).concat(
        "\ncountry_code=GB\nieee80211d=1\nhw_mode=a\nchannel=36\nwpa=2\nwpa_passphrase=",
    ).concat(password).concat("\nwpa_key_mgmt=WPA-PSK\nrsn_pairwise=CCMP\n")
}

/// The `dnsmasq` configuration handing out addresses on `wlan0`, with its
/// leases kept at `lease_path`.
pub open spec fn spec_dnsmasq_config(lease_path: Seq<char>) -> Seq<char> {
    "interface=wlan0\nbind-interfaces\ndhcp-range=192.168.4.10,192.168.4.50,255.255.255.0,12h\ndhcp-leasefile="@
        + lease_path + "\nport=0\n"@
}

/// The `dnsmasq` configuration for the access point.
pub fn dnsmasq_config(lease_path: &str) -> (r: String)
    ensures
        r@ == spec_dnsmasq_config(lease_path@),
{
    String::from_str(
        "interface=wlan0\nbind-interfaces\ndhcp-range=192.168.4.10,192.168.4.50,255.255.255.0,12h\ndhcp-leasefile=",
    ).concat(lease_path).concat("\nport=0\n")
}

/// The access point's name: a fixed prefix and random bytes in
/// hexadecimal.
pub open spec fn spec_access_point_ssid(random: Seq<u8>) -> Seq<char> {
    "aa-headunit-"@ + spec_hex(random)
}

/// The access point's name, from random bytes.
pub fn access_point_ssid(random: &[u8]) -> (r: String)
    ensures
        r@ == spec_access_point_ssid(random@),
{
    let hex = hex_encode(random);
    String::from_str("aa-headunit-").concat(hex.as_str())
}

/// The access point's passphrase: random bytes in hexadecimal.
pub fn access_point_password(random: &[u8]) -> (r: String)
    ensures
        r@ == spec_hex(random@),
{
    hex_encode(random)
}

/// The interface's hardware address, from the contents of its sysfs
/// `address` file.
pub fn mac_address_from(contents: &str) -> (r: String)
    ensures
        r@ == spec_trim(contents@),
{
    String::from_str(trim(contents))
}

/// The replies the bootstrap waits for, in the order they come.
#[derive(Debug, Clone, Copy, PartialEq, Eq, Structural)]
pub enum AawReply {
    WifiInfoRequest,
    WifiStartResponse,
    WifiConnectionStatus,
}

/// A reply's name.
pub open spec fn spec_aaw_reply_name(reply: AawReply) -> Seq<char> {
    match reply {
        AawReply::WifiInfoRequest => "WifiInfoRequest"@,
        AawReply::WifiStartResponse => "WifiStartResponse"@,
        AawReply::WifiConnectionStatus => "WifiConnectionStatus"@,
    }
}

fn aaw_reply_name(reply: AawReply) -> (r: &'static str)
    ensures
        r@ == spec_aaw_reply_name(reply),
{
    match reply {
        AawReply::WifiInfoRequest => "WifiInfoRequest",
        AawReply::WifiStartResponse => "WifiStartResponse",
        AawReply::WifiConnectionStatus => "WifiConnectionStatus",
    }
}

/// The check on a reply's message id: it must be the one awaited, whose
/// wire value is `expected_wire_value`; any other ends the bootstrap.
pub open spec fn spec_expect_aaw_reply(
    expected: AawReply,
    expected_wire_value: u32,
    received_wire_value: u32,
) -> Result<(), CliErrorView> {
    if received_wire_value == expected_wire_value {
        Ok(())
    } else {
        Err(
            CliErrorView::Protocol(
                "expected "@ + spec_aaw_reply_name(expected) + ", got aaw message id "@
                    + spec_decimal(received_wire_value as nat),
            ),
        )
    }
}

/// A check's result as a view.
pub open spec fn check_view(r: Result<(), CliError>) -> Result<(), CliErrorView> {
    match r {
        Ok(()) => Ok(()),
        Err(e) => Err(e@),
    }
}

/// Checks that a reply is the one awaited.
pub fn expect_aaw_reply(expected: AawReply, expected_wire_value: u32, received_wire_value: u32) -> (r:
    Result<(), CliError>)
    ensures
        check_view(r) == spec_expect_aaw_reply(expected, expected_wire_value, received_wire_value),
{
    if received_wire_value == expected_wire_value {
        Ok(())
    } else {
        let id = decimal(received_wire_value as u64);
        Err(
            CliError::Protocol(
                String::from_str("expected ").concat(aaw_reply_name(expected)).concat(
                    ", got aaw message id ",
                ).concat(id.as_str()),
            ),
        )
    }
}

/// The check on the phone's answer to the Wi-Fi start request: anything
/// but success ends the bootstrap, naming the status.
pub open spec fn spec_check_wifi_start_response(success: bool, status_name: Seq<char>) -> Result<
    (),
    CliErrorView,
> {
    if success {
        Ok(())
    } else {
        Err(CliErrorView::Protocol("phone reported WifiStartResponse status "@ + status_name))
    }
}

/// Checks the phone's answer to the Wi-Fi start request.
pub fn check_wifi_start_response(success: bool, status_name: &str) -> (r: Result<(), CliError>)
    ensures
        check_view(r) == spec_check_wifi_start_response(success, status_name@),
{
    if success {
        Ok(())
    } else {
        Err(
            CliError::Protocol(
                String::from_str("phone reported WifiStartResponse status ").concat(status_name),
            ),
        )
    }
}

/// The check on the phone's report of its Wi-Fi connection: anything but
/// success ends the bootstrap, naming the status and the phone's message
/// (empty where it gave none).
pub open spec fn spec_check_wifi_connection_status(
    success: bool,
    status_name: Seq<char>,
    error_message: Option<Seq<char>>,
) -> Result<(), CliErrorView> {
    if success {
        Ok(())
    } else {
        Err(
            CliErrorView::Protocol(
                "phone reported WifiConnectionStatus "@ + status_name + ": "@ + match error_message {
                    Some(m) => m,
                    None => Seq::empty(),
                },
            ),
        )
    }
}

/// Checks the phone's report of its Wi-Fi connection.
pub fn check_wifi_connection_status(
    success: bool,
    status_name: &str,
    error_message: Option<&str>,
) -> (r: Result<(), CliError>)
    ensures
        check_view(r) == spec_check_wifi_connection_status(
            success,
            status_name@,
            match error_message {
                Some(m) => Some(m@),
                None => None,
            },
        ),
{
    if success {
        Ok(())
    } else {
        let text = String::from_str("phone reported WifiConnectionStatus ").concat(
            status_name,
        ).concat(": ");
        match error_message {
            Some(m) => Err(CliError::Protocol(text.concat(m))),
            None => {
                assert(text@ + Seq::<char>::empty() =~= text@);
                Err(CliError::Protocol(text))
            },
        }
    }
}

} // verus!
