use aa_headunit_diagnostics::error::CliError;
use aa_headunit_diagnostics::wireless::{
    access_point_password, access_point_ssid, check_wifi_connection_status,
    check_wifi_start_response, dnsmasq_config, expect_aaw_reply, hostapd_config,
    mac_address_from, AawReply,
};

#[test]
fn access_point_configuration_files() {
    assert_eq!(
        hostapd_config("aa-headunit-beef", "0011223344556677"),
        "interface=wlan0\ndriver=nl80211\nssid=aa-headunit-beef\ncountry_code=GB\nieee80211d=1\nhw_mode=a\nchannel=36\nwpa=2\nwpa_passphrase=0011223344556677\nwpa_key_mgmt=WPA-PSK\nrsn_pairwise=CCMP\n"
    );
    assert_eq!(
        dnsmasq_config("/tmp/leases"),
        "interface=wlan0\nbind-interfaces\ndhcp-range=192.168.4.10,192.168.4.50,255.255.255.0,12h\ndhcp-leasefile=/tmp/leases\nport=0\n"
    );
}

#[test]
fn access_point_credentials_from_random_bytes() {
    assert_eq!(access_point_ssid(&[0xbe, 0x0f]), "aa-headunit-be0f");
    assert_eq!(
        access_point_password(&[0, 1, 0xab, 0xff, 0x10, 0x20, 0x7f, 0x80]),
        "0001abff10207f80"
    );
    assert_eq!(mac_address_from("dc:a6:32:01:02:03\n"), "dc:a6:32:01:02:03");
}

#[test]
fn bootstrap_reply_checks() {
    assert_eq!(expect_aaw_reply(AawReply::WifiInfoRequest, 2, 2), Ok(()));
    assert_eq!(
        expect_aaw_reply(AawReply::WifiStartResponse, 7, 12),
        Err(CliError::Protocol("expected WifiStartResponse, got aaw message id 12".into()))
    );
    assert_eq!(check_wifi_start_response(true, "Success"), Ok(()));
    assert_eq!(
        check_wifi_start_response(false, "Failure"),
        Err(CliError::Protocol("phone reported WifiStartResponse status Failure".into()))
    );
    assert_eq!(
        check_wifi_connection_status(false, "Failure", Some("no lease")),
        Err(CliError::Protocol("phone reported WifiConnectionStatus Failure: no lease".into()))
    );
    assert_eq!(
        check_wifi_connection_status(false, "Failure", None),
        Err(CliError::Protocol("phone reported WifiConnectionStatus Failure: ".into()))
    );
}
