use vstd::prelude::*;

verus! {

/// Per-attempt connection settings for the plain (non-elevated) client flow.
///
/// The value is built fresh from caller input for each connect request and
/// discarded once the attempt has started; only `gateway` and `username` are
/// ever persisted (see [`preferences_of`]).
#[derive(Clone, Debug)]
pub struct VpnConfig {
    /// VPN gateway address the attempt connects to.
    pub gateway: String,
    /// User name for VPN authentication.
    pub username: String,
    /// Secret read by the external binary from its standard input; never
    /// placed in argument vectors and never persisted.
    pub password: String,
    /// Optional authentication group.
    pub authgroup: Option<String>,
    /// Pass the gateway address as an authentication gateway.
    pub as_gateway: bool,
    /// Ask the external binary to work around OpenSSL incompatibilities.
    pub fix_openssl: bool,
    /// Optional posture-report helper script path; when absent, a best-effort
    /// probe may supply one.
    pub csd_wrapper: Option<String>,
}

impl Default for VpnConfig {
    /// Empty credentials, no optional paths, and both behavioural flags on.
    fn default() -> (c: Self)
        ensures
            c.gateway@ == Seq::<char>::empty(),
            c.username@ == Seq::<char>::empty(),
            c.password@ == Seq::<char>::empty(),
            c.authgroup is None,
            c.as_gateway,
            c.fix_openssl,
            c.csd_wrapper is None,
    {
        VpnConfig {
            gateway: String::new(),
            username: String::new(),
            password: String::new(),
            authgroup: None,
            as_gateway: true,
            fix_openssl: true,
            csd_wrapper: None,
        }
    }
}

/// Per-attempt connection settings for the flow that may run the external
/// binary through a privilege-elevation wrapper.
///
/// When `sudo_password` is present and the process is not already elevated,
/// the invocation is wrapped and the elevation secret is written before the
/// target secret (see [`crate::invocation::plan_invocation`]).
#[derive(Clone, Debug)]
pub struct GpclientConfig {
    /// VPN gateway address the attempt connects to.
    pub gateway: String,
    /// User name for VPN authentication.
    pub username: String,
    /// Secret read by the external binary from its standard input; never
    /// placed in argument vectors and never persisted.
    pub password: String,
    /// Optional posture-report helper script path.
    pub csd_wrapper: Option<String>,
    /// Ask the external binary to work around OpenSSL incompatibilities.
    pub fix_openssl: bool,
    /// Pass the gateway address as an authentication gateway.
    pub as_gateway: bool,
    /// Optional elevation secret, used only when not already elevated.
    pub sudo_password: Option<String>,
}

/// On-disk user preferences: the gateway address and the user name.
///
/// The password field is deliberately absent: a value of this type is the
/// only thing ever handed to the preferences store, so nothing persisted can
/// hold a secret.
#[derive(Clone, Debug)]
pub struct UserConfig {
    /// VPN gateway address (for example "vpn.example.com").
    pub vpn_server: String,
    /// User name for VPN authentication.
    pub username: String,
}

impl UserConfig {
    /// Build a preferences record from a gateway address and a user name.
    pub fn new(vpn_server: String, username: String) -> (c: Self)
        ensures
            c.vpn_server == vpn_server,
            c.username == username,
    {
        UserConfig { vpn_server, username }
    }
}

/// Everything the preferences store is allowed to see of a configuration:
/// the gateway address and the user name, nothing else.
pub open spec fn spec_preferences_of(c: VpnConfig) -> (Seq<char>, Seq<char>) {
    (c.gateway@, c.username@)
}

/// Derive the preferences record that is persisted after a connection
/// attempt starts. The record carries the gateway and the user name only.
pub fn preferences_of(config: &VpnConfig) -> (p: UserConfig)
    ensures
        (p.vpn_server@, p.username@) == spec_preferences_of(*config),
{
    UserConfig { vpn_server: config.gateway.clone(), username: config.username.clone() }
}

/// The persisted preferences depend on the gateway and the user name alone:
/// two configurations that agree on those yield the same preferences record,
/// whatever their passwords or other fields hold. Together with the absence
/// of a password field on [`UserConfig`], no persisted payload can carry the
/// secret.
pub proof fn lemma_preferences_independent_of_password(a: VpnConfig, b: VpnConfig)
    requires
        a.gateway@ == b.gateway@,
        a.username@ == b.username@,
    ensures
        spec_preferences_of(a) == spec_preferences_of(b),
{
}

} // verus!
