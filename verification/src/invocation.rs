use vstd::prelude::*;

use crate::config::GpclientConfig;

verus! {

/// Name of the external VPN client binary, as the driver's command vector.
pub open spec fn spec_gpclient_binary() -> Seq<char> {
    "gpclient"@
}

/// Name of the privilege-elevation wrapper binary.
pub open spec fn spec_sudo_binary() -> Seq<char> {
    "sudo"@
}

/// Filesystem path of the lock-file marker owned by the external binary.
pub open spec fn spec_lock_file_path() -> Seq<char> {
    "/var/run/gpclient.lock"@
}

/// Name of the external VPN client binary.
pub fn gpclient_binary() -> (s: &'static str)
    ensures
        s@ == spec_gpclient_binary(),
{
    "gpclient"
}

/// Name of the privilege-elevation wrapper binary.
pub fn sudo_binary() -> (s: &'static str)
    ensures
        s@ == spec_sudo_binary(),
{
    "sudo"
}

/// Filesystem path of the lock-file marker owned by the external binary.
pub fn lock_file_path() -> (s: &'static str)
    ensures
        s@ == spec_lock_file_path(),
{
    "/var/run/gpclient.lock"
}

/// The argument vector handed to the external binary for one connection
/// attempt:
/// `[--fix-openssl] connect [--as-gateway] [--csd-wrapper <path>]
///  --user <name> --passwd-on-stdin <gateway>`.
/// The helper path is passed only when present and non-empty. No secret
/// appears: the vector is a function of the flags, the helper path, the user
/// name and the gateway alone.
pub open spec fn spec_connect_args(
    fix_openssl: bool,
    as_gateway: bool,
    csd_wrapper: Option<Seq<char>>,
    username: Seq<char>,
    gateway: Seq<char>,
) -> Seq<Seq<char>> {
    (if fix_openssl {
        seq!["--fix-openssl"@]
    } else {
        Seq::<Seq<char>>::empty()
    }) + seq!["connect"@] + (if as_gateway {
        seq!["--as-gateway"@]
    } else {
        Seq::<Seq<char>>::empty()
    }) + (match csd_wrapper {
        Some(w) => if w.len() > 0 {
            seq!["--csd-wrapper"@, w]
        } else {
            Seq::<Seq<char>>::empty()
        },
        None => Seq::<Seq<char>>::empty(),
    }) + seq!["--user"@, username, "--passwd-on-stdin"@, gateway]
}

/// The argument vector when the external binary runs through the
/// privilege-elevation wrapper: `-S` (read the elevation secret from
/// standard input), the client binary's name, then the ordinary connect
/// arguments.
pub open spec fn spec_elevated_args(
    fix_openssl: bool,
    as_gateway: bool,
    csd_wrapper: Option<Seq<char>>,
    username: Seq<char>,
    gateway: Seq<char>,
) -> Seq<Seq<char>> {
    seq!["-S"@, spec_gpclient_binary()] + spec_connect_args(
        fix_openssl,
        as_gateway,
        csd_wrapper,
        username,
        gateway,
    )
}

/// Build the connect argument vector for one attempt.
pub fn build_connect_args(
    fix_openssl: bool,
    as_gateway: bool,
    csd_wrapper: &Option<String>,
    username: &str,
    gateway: &str,
) -> (args: Vec<String>)
    ensures
        args.deep_view() == spec_connect_args(
            fix_openssl,
            as_gateway,
            csd_wrapper.deep_view(),
            username@,
            gateway@,
        ),
{
    let mut args: Vec<String> = Vec::new();
    if fix_openssl {
        args.push("--fix-openssl".to_owned());
    }
    args.push("connect".to_owned());
    if as_gateway {
        args.push("--as-gateway".to_owned());
    }
    match csd_wrapper {
        Some(w) => {
            if !w.as_str().is_empty() {
                args.push("--csd-wrapper".to_owned());
                args.push(w.clone());
            }
        },
        None => {},
    }
    args.push("--user".to_owned());
    args.push(username.to_owned());
    args.push("--passwd-on-stdin".to_owned());
    args.push(gateway.to_owned());
    proof {
        assert(args.deep_view() =~= spec_connect_args(
            fix_openssl,
            as_gateway,
            csd_wrapper.deep_view(),
            username@,
            gateway@,
        ));
    }
    args
}

/// Build the argument vector for the elevated invocation.
pub fn build_elevated_args(
    fix_openssl: bool,
    as_gateway: bool,
    csd_wrapper: &Option<String>,
    username: &str,
    gateway: &str,
) -> (args: Vec<String>)
    ensures
        args.deep_view() == spec_elevated_args(
            fix_openssl,
            as_gateway,
            csd_wrapper.deep_view(),
            username@,
            gateway@,
        ),
{
    let mut args: Vec<String> = Vec::new();
    args.push("-S".to_owned());
    args.push(gpclient_binary().to_owned());
    let mut rest = build_connect_args(fix_openssl, as_gateway, csd_wrapper, username, gateway);
    args.append(&mut rest);
    proof {
        assert(args.deep_view() =~= spec_elevated_args(
            fix_openssl,
            as_gateway,
            csd_wrapper.deep_view(),
            username@,
            gateway@,
        ));
    }
    args
}

/// The helper path used for an attempt: the configured one when present,
/// otherwise whatever the best-effort probe returned.
pub open spec fn spec_resolved_csd(
    configured: Option<Seq<char>>,
    probed: Option<Seq<char>>,
) -> Option<Seq<char>> {
    if configured is Some {
        configured
    } else {
        probed
    }
}

/// Pick the helper path for an attempt: the configured one wins, the probe
/// result fills in when none is configured.
pub fn resolve_csd_wrapper(configured: &Option<String>, probed: Option<String>) -> (r: Option<
    String,
>)
    ensures
        r.deep_view() == spec_resolved_csd(configured.deep_view(), probed.deep_view()),
{
    match configured {
        Some(w) => Some(w.clone()),
        None => probed,
    }
}

/// Exactly what flows to the subprocess's standard input: each secret
/// followed by one line terminator, the elevation secret (when one is
/// needed) strictly before the target secret.
pub open spec fn spec_credential_payload(
    password: Seq<char>,
    elevation: Option<Seq<char>>,
) -> Seq<char> {
    match elevation {
        Some(e) => e + "\n"@ + password + "\n"@,
        None => password + "\n"@,
    }
}

/// Build the standard-input payload for one attempt. The caller writes it,
/// flushes, and closes the stream; this is the only place a secret leaves
/// the in-memory configuration.
pub fn credential_payload(password: &str, elevation: &Option<String>) -> (p: String)
    ensures
        p@ == spec_credential_payload(password@, elevation.deep_view()),
{
    let mut p = String::new();
    match elevation {
        Some(e) => {
            p.append(e.as_str());
            p.append("\n");
        },
        None => {},
    }
    p.append(password);
    p.append("\n");
    proof {
        assert(p@ =~= spec_credential_payload(password@, elevation.deep_view()));
    }
    p
}

/// Whether an effective user id is the elevated (root) one. The driver
/// reads the id from the operating system and hands it in.
pub fn is_running_as_root(euid: u32) -> (b: bool)
    ensures
        b == (euid == 0),
{
    euid == 0
}

/// Everything the driver needs to start one connection attempt: the program
/// to run, its argument vector, and the bytes to write to its standard
/// input before closing it.
pub struct Invocation {
    /// Program name: the client binary, or the elevation wrapper.
    pub program: String,
    /// Argument vector; never carries a secret.
    pub args: Vec<String>,
    /// Standard-input payload; the only carrier of secrets.
    pub stdin_payload: String,
}

/// Whether the attempt must run through the privilege-elevation wrapper: an
/// elevation secret was supplied and the process is not already elevated.
pub open spec fn spec_needs_elevation(c: GpclientConfig, running_as_root: bool) -> bool {
    c.sudo_password is Some && !running_as_root
}

/// The program the planned invocation runs.
pub open spec fn spec_invocation_program(c: GpclientConfig, running_as_root: bool) -> Seq<char> {
    if spec_needs_elevation(c, running_as_root) {
        spec_sudo_binary()
    } else {
        spec_gpclient_binary()
    }
}

/// The argument vector of the planned invocation. It mentions no secret.
pub open spec fn spec_invocation_args(
    c: GpclientConfig,
    probed_csd: Option<Seq<char>>,
    running_as_root: bool,
) -> Seq<Seq<char>> {
    let csd = spec_resolved_csd(c.csd_wrapper.deep_view(), probed_csd);
    if spec_needs_elevation(c, running_as_root) {
        spec_elevated_args(c.fix_openssl, c.as_gateway, csd, c.username@, c.gateway@)
    } else {
        spec_connect_args(c.fix_openssl, c.as_gateway, csd, c.username@, c.gateway@)
    }
}

/// The standard-input payload of the planned invocation.
pub open spec fn spec_invocation_payload(c: GpclientConfig, running_as_root: bool) -> Seq<char> {
    if spec_needs_elevation(c, running_as_root) {
        spec_credential_payload(c.password@, c.sudo_password.deep_view())
    } else {
        spec_credential_payload(c.password@, None)
    }
}

/// Plan one connection attempt from a configuration, the probe's helper-path
/// result, and whether the process is already elevated.
pub fn plan_invocation(
    config: &GpclientConfig,
    probed_csd: Option<String>,
    running_as_root: bool,
) -> (inv: Invocation)
    ensures
        inv.program@ == spec_invocation_program(*config, running_as_root),
        inv.args.deep_view() == spec_invocation_args(
            *config,
            probed_csd.deep_view(),
            running_as_root,
        ),
        inv.stdin_payload@ == spec_invocation_payload(*config, running_as_root),
{
    let csd = resolve_csd_wrapper(&config.csd_wrapper, probed_csd);
    let elevated = match &config.sudo_password {
        Some(_) => !running_as_root,
        None => false,
    };
    if elevated {
        Invocation {
            program: sudo_binary().to_owned(),
            args: build_elevated_args(
                config.fix_openssl,
                config.as_gateway,
                &csd,
                config.username.as_str(),
                config.gateway.as_str(),
            ),
            stdin_payload: credential_payload(config.password.as_str(), &config.sudo_password),
        }
    } else {
        Invocation {
            program: gpclient_binary().to_owned(),
            args: build_connect_args(
                config.fix_openssl,
                config.as_gateway,
                &csd,
                config.username.as_str(),
                config.gateway.as_str(),
            ),
            stdin_payload: credential_payload(config.password.as_str(), &None),
        }
    }
}

/// One blank followed by each argument in turn, appended after a program
/// name to form a printable command line.
pub open spec fn spec_args_blob(args: Seq<Seq<char>>) -> Seq<char>
    decreases args.len(),
{
    if args.len() == 0 {
        Seq::<char>::empty()
    } else {
        spec_args_blob(args.drop_last()) + " "@ + args.last()
    }
}

/// The printable command line of an invocation: the program name and each
/// argument, blank-separated. The standard-input payload takes no part,
/// so the line never carries a secret.
pub open spec fn spec_command_line(program: Seq<char>, args: Seq<Seq<char>>) -> Seq<char> {
    program + spec_args_blob(args)
}

/// Render the printable command line of an invocation, for diagnostics.
/// This is the only rendering of an invocation meant for a log sink.
pub fn render_command_line(inv: &Invocation) -> (line: String)
    ensures
        line@ == spec_command_line(inv.program@, inv.args.deep_view()),
{
    let ghost dv = inv.args.deep_view();
    let mut line = inv.program.clone();
    proof {
        assert(dv.take(0) =~= Seq::<Seq<char>>::empty());
        assert(line@ =~= spec_command_line(inv.program@, dv.take(0)));
    }
    let mut i: usize = 0;
    while i < inv.args.len()
        invariant
            i <= inv.args.len(),
            dv == inv.args.deep_view(),
            dv.len() == inv.args.len(),
            line@ == spec_command_line(inv.program@, dv.take(i as int)),
        decreases inv.args.len() - i,
    {
        line.append(" ");
        line.append(inv.args[i].as_str());
        proof {
            assert(dv.take(i + 1).drop_last() =~= dv.take(i as int));
            assert(dv.take(i + 1).last() == dv[i as int]);
            assert(line@ =~= spec_command_line(inv.program@, dv.take(i + 1)));
        }
        i += 1;
    }
    proof {
        assert(dv.take(dv.len() as int) =~= dv);
    }
    line
}

/// The planned program and argument vector carry no secret: two
/// configurations that agree on everything but their secrets plan the same
/// program and the same argument vector.
pub proof fn lemma_invocation_argv_carries_no_secret(
    a: GpclientConfig,
    b: GpclientConfig,
    probed_csd: Option<Seq<char>>,
    running_as_root: bool,
)
    requires
        a.gateway@ == b.gateway@,
        a.username@ == b.username@,
        a.fix_openssl == b.fix_openssl,
        a.as_gateway == b.as_gateway,
        a.csd_wrapper.deep_view() == b.csd_wrapper.deep_view(),
        a.sudo_password is Some <==> b.sudo_password is Some,
    ensures
        spec_invocation_program(a, running_as_root) == spec_invocation_program(b, running_as_root),
        spec_invocation_args(a, probed_csd, running_as_root) == spec_invocation_args(
            b,
            probed_csd,
            running_as_root,
        ),
{
}

/// The printable command line carries no secret either: it is determined
/// by the planned program and argument vector, which two configurations
/// agreeing on everything but their secrets share.
pub proof fn lemma_command_line_carries_no_secret(
    a: GpclientConfig,
    b: GpclientConfig,
    probed_csd: Option<Seq<char>>,
    running_as_root: bool,
)
    requires
        a.gateway@ == b.gateway@,
        a.username@ == b.username@,
        a.fix_openssl == b.fix_openssl,
        a.as_gateway == b.as_gateway,
        a.csd_wrapper.deep_view() == b.csd_wrapper.deep_view(),
        a.sudo_password is Some <==> b.sudo_password is Some,
    ensures
        spec_command_line(
            spec_invocation_program(a, running_as_root),
            spec_invocation_args(a, probed_csd, running_as_root),
        ) == spec_command_line(
            spec_invocation_program(b, running_as_root),
            spec_invocation_args(b, probed_csd, running_as_root),
        ),
{
    lemma_invocation_argv_carries_no_secret(a, b, probed_csd, running_as_root);
}

} // verus!
