//! The operating system's own trust store: how the root certificate is
//! added to it, removed from it, and found in it, on each system. The
//! application runs the actions and probes; this module decides them.
use vstd::prelude::*;

use sha1::{Digest, Sha1};

use crate::certs::{certificate_der_from_pem, first_pem_certificate};
use crate::dns_sys::{plan_view, push_action, ActionView, SystemAction};
use crate::headers::{contains_text, text_contains};
use crate::platform::{push_text, texts, TargetOs};
use crate::text::push_char;

verus! {

/// The directory Debian-like systems take extra CA certificates from.
pub const DEBIAN_CA_DIR: &'static str = "/usr/local/share/ca-certificates";

/// The directory Fedora-like systems take extra CA certificates from.
pub const FEDORA_CA_DIR: &'static str = "/etc/pki/ca-trust/source/anchors";

/// The directory Arch-like systems take trust sources from.
pub const ARCH_CA_DIR: &'static str = "/etc/ca-certificates/trust-source";

/// Where the certificate is copied on a Debian-like system.
pub const DEBIAN_CA_FILE: &'static str = "/usr/local/share/ca-certificates/sidedns.crt";

/// Where the certificate is copied on a Fedora-like system.
pub const FEDORA_CA_FILE: &'static str = "/etc/pki/ca-trust/source/anchors/sidedns.crt";

/// Where the certificate is copied on an Arch-like system.
pub const ARCH_CA_FILE: &'static str = "/etc/ca-certificates/trust-source/anchors/sidedns.pem";


/// Whether the system store trusts the certificate, given the probe's
/// outcome, the certificate's fingerprint and, on Linux, whether a copy of
/// it is in a family's location.
pub open spec fn trusted_by_system(
    os: TargetOs,
    probe: Option<ProbeResult>,
    fingerprint: Option<String>,
    copy_present: bool,
) -> bool {
    match os {
        TargetOs::Linux => (probe matches Some(p) && p.success) || copy_present,
        TargetOs::MacOs => probe matches Some(p) && fingerprint matches Some(f) && contains_text(
            p.output@,
            f@,
        ),
        TargetOs::Windows => probe matches Some(p) && contains_text(p.output@, WINDOWS_STORE_TAG@),
        TargetOs::Other => false,
    }
}

/// The copies a Linux install may leave, in the order of
/// [`linux_copy_paths`].
pub open spec fn linux_copy_files() -> Seq<Seq<char>> {
    seq![DEBIAN_CA_FILE@, FEDORA_CA_FILE@, ARCH_CA_FILE@]
}

/// The copies that a Linux install may leave (on Debian-like, Fedora-like
/// and Arch-like systems, in that order): the presence of any of them is
/// taken as a sign that the system trusts the certificate, so the check
/// after an install looks exactly where the install copied it.
pub fn linux_copy_paths() -> (r: [&'static str; 3])
    ensures
        r@.len() == 3,
        forall|i: int| 0 <= i < 3 ==> #[trigger] r@[i]@ == linux_copy_files()[i],
{
    [DEBIAN_CA_FILE, FEDORA_CA_FILE, ARCH_CA_FILE]
}

/// The macOS keychain the certificate goes to.
pub const MACOS_KEYCHAIN: &'static str = "/Library/Keychains/System.keychain";

/// The CA bundle of Debian-like systems, used to check the certificate.
pub const LINUX_CA_BUNDLE: &'static str = "/etc/ssl/certs/ca-certificates.crt";

/// What the Windows root store shows for the certificate.
pub const WINDOWS_STORE_TAG: &'static str = "SideDNS";

/// Which Linux families' locations are present: their CA directories (for
/// installing) or the copied certificate (for removing).
#[derive(Clone, Copy, Debug, PartialEq, Eq, Structural)]
pub struct LinuxTrustDirs {
    pub debian: bool,
    pub fedora: bool,
    pub arch: bool,
}

/// `s` as written by `{:?}` for a plain path: between double quotes.
pub open spec fn quoted(s: Seq<char>) -> Seq<char> {
    seq!['"'] + s + seq!['"']
}

/// The message when no Linux family is recognised.
pub open spec fn unsupported_linux_message(cert_path: Seq<char>) -> Seq<char> {
    "unsupported Linux distribution \u{2014} install manually:\ncopy "@ + quoted(cert_path)
        + " to your system CA directory and run the appropriate update command"@
}

/// The actions that add the certificate at `cert_path` to the system trust
/// store: on Linux, copy it to the first family's directory that exists
/// (Debian, then Fedora, then Arch) and refresh the store.
pub open spec fn install_plan(os: TargetOs, cert_path: Seq<char>, dirs: LinuxTrustDirs) -> Seq<
    ActionView,
> {
    match os {
        TargetOs::Linux => if dirs.debian {
            seq![
                ActionView::CopyFile(cert_path, DEBIAN_CA_FILE@),
                ActionView::Run(
                    "sudo"@,
                    seq!["update-ca-certificates"@],
                    "update-ca-certificates failed"@,
                ),
            ]
        } else if dirs.fedora {
            seq![
                ActionView::CopyFile(cert_path, FEDORA_CA_FILE@),
                ActionView::Run(
                    "sudo"@,
                    seq!["update-ca-trust"@, "extract"@],
                    "update-ca-trust extract failed"@,
                ),
            ]
        } else if dirs.arch {
            seq![
                ActionView::CopyFile(cert_path, ARCH_CA_FILE@),
                ActionView::Run(
                    "sudo"@,
                    seq!["trust"@, "anchor"@, "--store"@, cert_path],
                    "trust anchor --store failed"@,
                ),
            ]
        } else {
            seq![ActionView::Fail(unsupported_linux_message(cert_path))]
        },
        TargetOs::MacOs => seq![
            ActionView::Run(
                "sudo"@,
                seq![
                    "security"@,
                    "add-trusted-cert"@,
                    "-d"@,
                    "-r"@,
                    "trustRoot"@,
                    "-k"@,
                    MACOS_KEYCHAIN@,
                    cert_path,
                ],
                "security add-trusted-cert failed"@,
            ),
        ],
        TargetOs::Windows => seq![
            ActionView::Run(
                "certutil.exe"@,
                seq!["-addstore"@, "-f"@, "ROOT"@, cert_path],
                "certutil -addstore failed"@,
            ),
        ],
        TargetOs::Other => seq![
            ActionView::Fail("system trust store installation not supported on this platform"@),
        ],
    }
}

/// The actions that remove the certificate from the system trust store: on
/// Linux, delete the first family's copy that exists and refresh the store
/// (whatever the refresh answers); on Windows, delete it by its
/// fingerprint.
pub open spec fn uninstall_plan(
    os: TargetOs,
    cert_path: Seq<char>,
    copies: LinuxTrustDirs,
    fingerprint: Seq<char>,
) -> Seq<ActionView> {
    match os {
        TargetOs::Linux => if copies.debian {
            seq![
                ActionView::RemoveFile(DEBIAN_CA_FILE@),
                ActionView::RunUnchecked("sudo"@, seq!["update-ca-certificates"@]),
            ]
        } else if copies.fedora {
            seq![
                ActionView::RemoveFile(FEDORA_CA_FILE@),
                ActionView::RunUnchecked("sudo"@, seq!["update-ca-trust"@, "extract"@]),
            ]
        } else if copies.arch {
            seq![
                ActionView::RemoveFile(ARCH_CA_FILE@),
                ActionView::RunUnchecked(
                    "sudo"@,
                    seq!["trust"@, "anchor"@, "--remove"@, ARCH_CA_FILE@],
                ),
            ]
        } else {
            Seq::empty()
        },
        TargetOs::MacOs => seq![
            ActionView::Run(
                "sudo"@,
                seq!["security"@, "remove-trusted-cert"@, "-d"@, cert_path],
                "security remove-trusted-cert failed"@,
            ),
        ],
        TargetOs::Windows => seq![
            ActionView::Run(
                "certutil"@,
                seq!["-delstore"@, "ROOT"@, fingerprint],
                "certutil -delstore failed"@,
            ),
        ],
        TargetOs::Other => Seq::empty(),
    }
}

fn run_action(program: &str, args: Vec<String>, failure: &str) -> (r: SystemAction)
    ensures
        r@ == ActionView::Run(program@, texts(args@), failure@),
{
    SystemAction::Run { program: program.to_string(), args, failure: failure.to_string() }
}

fn run_unchecked(program: &str, args: Vec<String>) -> (r: SystemAction)
    ensures
        r@ == ActionView::RunUnchecked(program@, texts(args@)),
{
    SystemAction::RunUnchecked { program: program.to_string(), args }
}

fn copy_action(from: &str, to: &str) -> (r: SystemAction)
    ensures
        r@ == ActionView::CopyFile(from@, to@),
{
    SystemAction::CopyFile { from: from.to_string(), to: to.to_string() }
}

fn args1(a: &str) -> (r: Vec<String>)
    ensures
        texts(r@) == seq![a@],
{
    let mut r: Vec<String> = Vec::new();
    push_text(&mut r, a);
    r
}

fn args2(a: &str, b: &str) -> (r: Vec<String>)
    ensures
        texts(r@) == seq![a@, b@],
{
    let mut r = args1(a);
    push_text(&mut r, b);
    r
}

fn args3(a: &str, b: &str, c: &str) -> (r: Vec<String>)
    ensures
        texts(r@) == seq![a@, b@, c@],
{
    let mut r = args2(a, b);
    push_text(&mut r, c);
    r
}

fn args4(a: &str, b: &str, c: &str, d: &str) -> (r: Vec<String>)
    ensures
        texts(r@) == seq![a@, b@, c@, d@],
{
    let mut r = args3(a, b, c);
    push_text(&mut r, d);
    r
}

/// The actions that add the certificate to the system trust store.
pub fn system_install_plan(os: TargetOs, cert_path: &str, dirs: LinuxTrustDirs) -> (r: Vec<
    SystemAction,
>)
    ensures
        plan_view(r@) == install_plan(os, cert_path@, dirs),
{
    let mut r: Vec<SystemAction> = Vec::new();
    match os {
        TargetOs::Linux => {
            if dirs.debian {
                push_action(&mut r, copy_action(cert_path, DEBIAN_CA_FILE));
                push_action(
                    &mut r,
                    run_action("sudo", args1("update-ca-certificates"), "update-ca-certificates failed"),
                );
            } else if dirs.fedora {
                push_action(&mut r, copy_action(cert_path, FEDORA_CA_FILE));
                push_action(
                    &mut r,
                    run_action(
                        "sudo",
                        args2("update-ca-trust", "extract"),
                        "update-ca-trust extract failed",
                    ),
                );
            } else if dirs.arch {
                push_action(&mut r, copy_action(cert_path, ARCH_CA_FILE));
                push_action(
                    &mut r,
                    run_action(
                        "sudo",
                        args4("trust", "anchor", "--store", cert_path),
                        "trust anchor --store failed",
                    ),
                );
            } else {
                let mut m = String::from_str(
                    "unsupported Linux distribution \u{2014} install manually:\ncopy ",
                );
                push_char(&mut m, '"');
                m.append(cert_path);
                push_char(&mut m, '"');
                m.append(" to your system CA directory and run the appropriate update command");
                assert(m@ =~= unsupported_linux_message(cert_path@));
                push_action(&mut r, SystemAction::Fail(m));
            }
        },
        TargetOs::MacOs => {
            let mut args = args4("security", "add-trusted-cert", "-d", "-r");
            push_text(&mut args, "trustRoot");
            push_text(&mut args, "-k");
            push_text(&mut args, MACOS_KEYCHAIN);
            push_text(&mut args, cert_path);
            assert(texts(args@) =~= seq![
                "security"@,
                "add-trusted-cert"@,
                "-d"@,
                "-r"@,
                "trustRoot"@,
                "-k"@,
                MACOS_KEYCHAIN@,
                cert_path@,
            ]);
            push_action(&mut r, run_action("sudo", args, "security add-trusted-cert failed"));
        },
        TargetOs::Windows => {
            push_action(
                &mut r,
                run_action(
                    "certutil.exe",
                    args4("-addstore", "-f", "ROOT", cert_path),
                    "certutil -addstore failed",
                ),
            );
        },
        TargetOs::Other => {
            push_action(
                &mut r,
                SystemAction::Fail(
                    String::from_str("system trust store installation not supported on this platform"),
                ),
            );
        },
    }
    assert(plan_view(r@) =~= install_plan(os, cert_path@, dirs));
    r
}

/// The actions that remove the certificate from the system trust store.
pub fn system_uninstall_plan(
    os: TargetOs,
    cert_path: &str,
    copies: LinuxTrustDirs,
    fingerprint: &str,
) -> (r: Vec<SystemAction>)
    ensures
        plan_view(r@) == uninstall_plan(os, cert_path@, copies, fingerprint@),
{
    let mut r: Vec<SystemAction> = Vec::new();
    match os {
        TargetOs::Linux => {
            if copies.debian {
                push_action(&mut r, SystemAction::RemoveFile(String::from_str(DEBIAN_CA_FILE)));
                push_action(&mut r, run_unchecked("sudo", args1("update-ca-certificates")));
            } else if copies.fedora {
                push_action(&mut r, SystemAction::RemoveFile(String::from_str(FEDORA_CA_FILE)));
                push_action(&mut r, run_unchecked("sudo", args2("update-ca-trust", "extract")));
            } else if copies.arch {
                push_action(&mut r, SystemAction::RemoveFile(String::from_str(ARCH_CA_FILE)));
                push_action(
                    &mut r,
                    run_unchecked("sudo", args4("trust", "anchor", "--remove", ARCH_CA_FILE)),
                );
            }
        },
        TargetOs::MacOs => {
            push_action(
                &mut r,
                run_action(
                    "sudo",
                    args4("security", "remove-trusted-cert", "-d", cert_path),
                    "security remove-trusted-cert failed",
                ),
            );
        },
        TargetOs::Windows => {
            push_action(
                &mut r,
                run_action(
                    "certutil",
                    args3("-delstore", "ROOT", fingerprint),
                    "certutil -delstore failed",
                ),
            );
        },
        TargetOs::Other => {},
    }
    assert(plan_view(r@) =~= uninstall_plan(os, cert_path@, copies, fingerprint@));
    r
}

/// The command that shows whether the system trusts the certificate: on
/// Linux, `openssl verify` of it against the CA bundle; on macOS, the
/// certificates of the system keychain with their SHA-1 hashes; on
/// Windows, the root store.
pub fn trust_probe(os: TargetOs, cert_path: &str) -> (r: Option<(String, Vec<String>)>)
    ensures
        match os {
            TargetOs::Linux => r matches Some((p, a)) && p@ == "openssl"@ && texts(a@) == seq![
                "verify"@,
                "-CAfile"@,
                LINUX_CA_BUNDLE@,
                cert_path@,
            ],
            TargetOs::MacOs => r matches Some((p, a)) && p@ == "security"@ && texts(a@) == seq![
                "find-certificate"@,
                "-a"@,
                "-Z"@,
                MACOS_KEYCHAIN@,
            ],
            TargetOs::Windows => r matches Some((p, a)) && p@ == "certutil"@ && texts(a@)
                == seq!["-store"@, "Root"@],
            TargetOs::Other => r is None,
        },
{
    match os {
        TargetOs::Linux => Some(
            (String::from_str("openssl"), args4("verify", "-CAfile", LINUX_CA_BUNDLE, cert_path)),
        ),
        TargetOs::MacOs => Some(
            (String::from_str("security"), args4("find-certificate", "-a", "-Z", MACOS_KEYCHAIN)),
        ),
        TargetOs::Windows => Some((String::from_str("certutil"), args2("-store", "Root"))),
        TargetOs::Other => None,
    }
}

/// What the probe of [`trust_probe`] ran into: whether it succeeded, and
/// its standard output.
pub struct ProbeResult {
    pub success: bool,
    pub output: String,
}

/// Whether the system trusts the certificate, from the probe's result
/// (`None` when it could not run), the certificate's fingerprint (`None`
/// when it could not be read) and, on Linux, whether a copy of it is in a
/// family's location.
pub fn system_trusts(
    os: TargetOs,
    probe: &Option<ProbeResult>,
    fingerprint: &Option<String>,
    copy_present: bool,
) -> (r: bool)
    ensures
        r == trusted_by_system(os, *probe, *fingerprint, copy_present),
{
    match os {
        TargetOs::Linux => {
            let ok = match probe {
                Some(p) => p.success,
                None => false,
            };
            ok || copy_present
        },
        TargetOs::MacOs => match (probe, fingerprint) {
            (Some(p), Some(f)) => text_contains(p.output.as_str(), f.as_str()),
            _ => false,
        },
        TargetOs::Windows => match probe {
            Some(p) => text_contains(p.output.as_str(), WINDOWS_STORE_TAG),
            None => false,
        },
        TargetOs::Other => false,
    }
}

/// The SHA-1 digest of some bytes.
pub uninterp spec fn sha1_digest(data: Seq<u8>) -> Seq<u8>;

/// `Sha1::digest` (the sha1 crate): the SHA-1 digest of `data`.
#[verifier::external_body]
fn sha1_of(data: &[u8]) -> (r: Vec<u8>)
    ensures
        r@ == sha1_digest(data@),
{
    Sha1::digest(data).to_vec()
}

/// An upper-case hexadecimal digit.
pub open spec fn upper_hex_digit(d: u8) -> char {
    if d < 10 {
        (('0' as u8) + d) as char
    } else {
        (('A' as u8) + d - 10) as char
    }
}

/// Each byte as two upper-case hexadecimal digits.
pub open spec fn upper_hex_pairs(bytes: Seq<u8>) -> Seq<char>
    decreases bytes.len(),
{
    if bytes.len() == 0 {
        Seq::empty()
    } else {
        upper_hex_pairs(bytes.drop_last()) + seq![
            upper_hex_digit(bytes.last() / 16),
            upper_hex_digit(bytes.last() % 16),
        ]
    }
}

fn hex_digit(d: u8) -> (c: char)
    requires
        d < 16,
    ensures
        c == upper_hex_digit(d),
{
    if d < 10 {
        (48u8 + d) as char
    } else {
        (65u8 + d - 10) as char
    }
}

/// The text of a digest: each byte as two upper-case hexadecimal digits.
pub fn fingerprint_text(digest: &[u8]) -> (r: String)
    ensures
        r@ == upper_hex_pairs(digest@),
{
    let mut r = String::new();
    let mut i: usize = 0;
    while i < digest.len()
        invariant
            0 <= i <= digest@.len(),
            r@ == upper_hex_pairs(digest@.take(i as int)),
        decreases digest@.len() - i,
    {
        let b = digest[i];
        push_char(&mut r, hex_digit(b / 16));
        push_char(&mut r, hex_digit(b % 16));
        assert(digest@.take(i + 1).drop_last() =~= digest@.take(i as int));
        i = i + 1;
    }
    assert(digest@.take(digest@.len() as int) =~= digest@);
    r
}

/// The SHA-1 fingerprint of the first certificate in PEM text, as
/// upper-case hexadecimal; `None` when the text holds no certificate.
pub fn sha1_fingerprint(cert_pem: &[u8]) -> (r: Option<String>)
    ensures
        match first_pem_certificate(cert_pem@) {
            Some(der) => r matches Some(t) && t@ == upper_hex_pairs(sha1_digest(der)),
            None => r is None,
        },
{
    match certificate_der_from_pem(cert_pem) {
        Ok(der) => {
            let digest = sha1_of(der.as_slice());
            Some(fingerprint_text(digest.as_slice()))
        },
        Err(_) => None,
    }
}

} // verus!
