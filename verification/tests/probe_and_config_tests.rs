use gp_supervisor::config::{preferences_of, UserConfig, VpnConfig};
use gp_supervisor::decimal::{i32_decimal, u32_decimal};
use gp_supervisor::probe::derive_csd_wrapper_path;
use gp_supervisor::supervisor::{ConnectError, DisconnectOutcome};

#[test]
fn derive_helper_path_from_typical_lookup_output() {
    let out = "/nix/store/abc-openconnect-9.12/bin/openconnect\n";
    let got = derive_csd_wrapper_path(out);
    assert_eq!(
        got,
        Some("/nix/store/abc-openconnect-9.12/libexec/openconnect/hipreport.sh".to_string())
    );
}

#[test]
fn derive_helper_path_plain_prefix() {
    let got = derive_csd_wrapper_path("/usr/bin/openconnect");
    assert_eq!(got, Some("/usr/libexec/openconnect/hipreport.sh".to_string()));
}

#[test]
fn derive_helper_path_empty_output() {
    assert_eq!(derive_csd_wrapper_path(""), None);
    assert_eq!(derive_csd_wrapper_path("  \n"), None);
}

#[test]
fn derive_helper_path_without_marker() {
    assert_eq!(derive_csd_wrapper_path("/usr/bin/other-tool\n"), None);
}

#[test]
fn derive_helper_path_uses_last_marker() {
    let out = "/a/bin/openconnect/b/bin/openconnect\n";
    let got = derive_csd_wrapper_path(out);
    assert_eq!(
        got,
        Some("/a/bin/openconnect/b/libexec/openconnect/hipreport.sh".to_string())
    );
}

#[test]
fn derive_helper_path_trims_both_ends() {
    let got = derive_csd_wrapper_path("  \t/opt/bin/openconnect\r\n");
    assert_eq!(got, Some("/opt/libexec/openconnect/hipreport.sh".to_string()));
}

#[test]
fn user_config_keeps_its_fields() {
    let c = UserConfig::new("vpn.example.com".to_string(), "alice".to_string());
    assert_eq!(c.vpn_server, "vpn.example.com");
    assert_eq!(c.username, "alice");
}

#[test]
fn default_vpn_config_flags() {
    let c = VpnConfig::default();
    assert_eq!(c.gateway, "");
    assert_eq!(c.username, "");
    assert_eq!(c.password, "");
    assert!(c.authgroup.is_none());
    assert!(c.as_gateway);
    assert!(c.fix_openssl);
    assert!(c.csd_wrapper.is_none());
}

#[test]
fn preferences_carry_gateway_and_username_only() {
    let mut c = VpnConfig::default();
    c.gateway = "vpn.example.com".to_string();
    c.username = "alice".to_string();
    c.password = "hunter2".to_string();
    let p = preferences_of(&c);
    assert_eq!(p.vpn_server, "vpn.example.com");
    assert_eq!(p.username, "alice");
}

#[test]
fn preferences_identical_whatever_the_password() {
    let mut a = VpnConfig::default();
    a.gateway = "gw".to_string();
    a.username = "u".to_string();
    a.password = "secret-one".to_string();
    let mut b = VpnConfig::default();
    b.gateway = "gw".to_string();
    b.username = "u".to_string();
    b.password = "another".to_string();
    let pa = preferences_of(&a);
    let pb = preferences_of(&b);
    assert_eq!(pa.vpn_server, pb.vpn_server);
    assert_eq!(pa.username, pb.username);
}

#[test]
fn decimal_rendering() {
    assert_eq!(u32_decimal(0), "0");
    assert_eq!(u32_decimal(7), "7");
    assert_eq!(u32_decimal(120), "120");
    assert_eq!(u32_decimal(u32::MAX), "4294967295");
    assert_eq!(i32_decimal(0), "0");
    assert_eq!(i32_decimal(255), "255");
    assert_eq!(i32_decimal(-1), "-1");
    assert_eq!(i32_decimal(i32::MIN), "-2147483648");
}

#[test]
fn failure_messages() {
    assert_eq!(ConnectError::SpawnFailed.message(), "Failed to spawn gpclient");
    assert_eq!(ConnectError::AuthWriteFailed.message(), "Failed to write password");
    assert_eq!(
        ConnectError::AuthOrNetworkFailed { code: Some(1) }.message(),
        "Connection failed: Unable to reach VPN server or authentication failed"
    );
    assert_eq!(
        ConnectError::AuthOrNetworkFailed { code: Some(2) }.message(),
        "Connection failed with exit code: 2"
    );
    assert_eq!(
        ConnectError::AuthOrNetworkFailed { code: None }.message(),
        "Connection failed: Process terminated by signal"
    );
    assert_eq!(
        ConnectError::Timeout.message(),
        "Connection timeout: VPN did not establish within 60 seconds"
    );
}

#[test]
fn disconnect_messages() {
    assert_eq!(DisconnectOutcome::Disconnected.message(), "Disconnected successfully");
    assert_eq!(DisconnectOutcome::AlreadyDisconnected.message(), "Already disconnected");
}
