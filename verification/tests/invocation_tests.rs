use gp_supervisor::config::GpclientConfig;
use gp_supervisor::invocation::{
    build_connect_args, build_elevated_args, credential_payload, gpclient_binary,
    is_running_as_root, lock_file_path, plan_invocation, render_command_line,
    resolve_csd_wrapper, sudo_binary,
};

fn sample_config(sudo: Option<&str>) -> GpclientConfig {
    GpclientConfig {
        gateway: "vpn.example.com".to_string(),
        username: "alice".to_string(),
        password: "hunter2".to_string(),
        csd_wrapper: None,
        fix_openssl: true,
        as_gateway: true,
        sudo_password: sudo.map(|s| s.to_string()),
    }
}

#[test]
fn connect_args_full_grammar() {
    let csd = Some("/opt/hipreport.sh".to_string());
    let args = build_connect_args(true, true, &csd, "alice", "vpn.example.com");
    assert_eq!(
        args,
        vec![
            "--fix-openssl".to_string(),
            "connect".to_string(),
            "--as-gateway".to_string(),
            "--csd-wrapper".to_string(),
            "/opt/hipreport.sh".to_string(),
            "--user".to_string(),
            "alice".to_string(),
            "--passwd-on-stdin".to_string(),
            "vpn.example.com".to_string(),
        ]
    );
}

#[test]
fn connect_args_minimal() {
    let args = build_connect_args(false, false, &None, "bob", "gw.host");
    assert_eq!(
        args,
        vec![
            "connect".to_string(),
            "--user".to_string(),
            "bob".to_string(),
            "--passwd-on-stdin".to_string(),
            "gw.host".to_string(),
        ]
    );
}

#[test]
fn empty_csd_wrapper_is_omitted() {
    let csd = Some(String::new());
    let args = build_connect_args(false, false, &csd, "bob", "gw.host");
    assert!(!args.iter().any(|a| a == "--csd-wrapper"));
}

#[test]
fn password_never_in_argument_vector() {
    let config = sample_config(Some("rootpw"));
    let inv = plan_invocation(&config, None, false);
    assert!(!inv.args.iter().any(|a| a.contains("hunter2")));
    assert!(!inv.args.iter().any(|a| a.contains("rootpw")));
    assert!(!inv.program.contains("hunter2"));
}

#[test]
fn elevated_args_wrap_the_client_invocation() {
    let args = build_elevated_args(true, false, &None, "alice", "gw");
    assert_eq!(
        args,
        vec![
            "-S".to_string(),
            "gpclient".to_string(),
            "--fix-openssl".to_string(),
            "connect".to_string(),
            "--user".to_string(),
            "alice".to_string(),
            "--passwd-on-stdin".to_string(),
            "gw".to_string(),
        ]
    );
}

#[test]
fn payload_single_secret_ends_with_newline() {
    let p = credential_payload("hunter2", &None);
    assert_eq!(p, "hunter2\n");
}

#[test]
fn payload_elevation_secret_comes_first() {
    let p = credential_payload("hunter2", &Some("rootpw".to_string()));
    assert_eq!(p, "rootpw\nhunter2\n");
}

#[test]
fn configured_csd_wrapper_wins_over_probe() {
    let configured = Some("/etc/custom.sh".to_string());
    let probed = Some("/usr/libexec/openconnect/hipreport.sh".to_string());
    assert_eq!(resolve_csd_wrapper(&configured, probed.clone()), configured);
    assert_eq!(resolve_csd_wrapper(&None, probed.clone()), probed);
    assert_eq!(resolve_csd_wrapper(&None, None), None);
}

#[test]
fn plan_without_sudo_runs_client_directly() {
    let config = sample_config(None);
    let inv = plan_invocation(&config, None, false);
    assert_eq!(inv.program, "gpclient");
    assert_eq!(inv.stdin_payload, "hunter2\n");
    assert_eq!(inv.args[0], "--fix-openssl");
    assert_eq!(inv.args[1], "connect");
}

#[test]
fn plan_with_sudo_wraps_and_writes_both_secrets() {
    let config = sample_config(Some("rootpw"));
    let inv = plan_invocation(&config, None, false);
    assert_eq!(inv.program, "sudo");
    assert_eq!(inv.args[0], "-S");
    assert_eq!(inv.args[1], "gpclient");
    assert_eq!(inv.stdin_payload, "rootpw\nhunter2\n");
}

#[test]
fn plan_skips_sudo_when_already_root() {
    let config = sample_config(Some("rootpw"));
    let inv = plan_invocation(&config, None, true);
    assert_eq!(inv.program, "gpclient");
    assert_eq!(inv.stdin_payload, "hunter2\n");
}

#[test]
fn plan_uses_probed_csd_when_none_configured() {
    let config = sample_config(None);
    let inv = plan_invocation(&config, Some("/nix/store/oc/libexec/openconnect/hipreport.sh".to_string()), true);
    let pos = inv.args.iter().position(|a| a == "--csd-wrapper").expect("helper flag present");
    assert_eq!(inv.args[pos + 1], "/nix/store/oc/libexec/openconnect/hipreport.sh");
}

#[test]
fn command_line_rendering_omits_the_secret() {
    let config = sample_config(Some("rootpw"));
    let inv = plan_invocation(&config, None, false);
    let line = render_command_line(&inv);
    assert_eq!(
        line,
        "sudo -S gpclient --fix-openssl connect --as-gateway --user alice --passwd-on-stdin vpn.example.com"
    );
    assert!(!line.contains("hunter2"));
    assert!(!line.contains("rootpw"));
}

#[test]
fn fixed_names() {
    assert_eq!(gpclient_binary(), "gpclient");
    assert_eq!(sudo_binary(), "sudo");
    assert_eq!(lock_file_path(), "/var/run/gpclient.lock");
}

#[test]
fn root_is_euid_zero() {
    assert!(is_running_as_root(0));
    assert!(!is_running_as_root(1000));
}
