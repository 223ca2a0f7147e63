//! Trust stores that the root CA can be installed into, and the commands
//! that do it.
use vstd::prelude::*;

use crate::platform::{push_joined, push_text, texts, TargetOs};

verus! {

/// The name under which the CA is stored in NSS databases.
pub const CERT_NAME: &'static str = "SideDNS Local CA";

/// The alias of the CA in the Java keystore.
pub const JAVA_ALIAS: &'static str = "sidedns-local-ca";

/// The password of the Java keystore.
pub const JAVA_STORE_PASS: &'static str = "changeit";

/// A trust store that can install and uninstall a CA certificate.
pub trait TrustStore {
    /// Human-readable name shown in output and used to select stores.
    fn name(&self) -> &str;
}

/// The operating system's own trust store.
pub struct SystemStore;

/// The NSS databases of Firefox and Chrome profiles.
pub struct NssStore;

/// The Java keystore (`cacerts`), through `keytool`.
pub struct JavaStore;

impl TrustStore for SystemStore {
    fn name(&self) -> (r: &str)
        ensures
            r@ == "system"@,
    {
        "system"
    }
}

impl TrustStore for NssStore {
    fn name(&self) -> (r: &str)
        ensures
            r@ == "nss"@,
    {
        "nss"
    }
}

impl TrustStore for JavaStore {
    fn name(&self) -> (r: &str)
        ensures
            r@ == "java"@,
    {
        "java"
    }
}

/// One of the supported trust stores.
#[derive(Clone, Copy, Debug, PartialEq, Eq, Structural)]
pub enum TrustStoreKind {
    System,
    Nss,
    Java,
}

pub open spec fn store_name(k: TrustStoreKind) -> Seq<char> {
    match k {
        TrustStoreKind::System => "system"@,
        TrustStoreKind::Nss => "nss"@,
        TrustStoreKind::Java => "java"@,
    }
}

impl TrustStore for TrustStoreKind {
    fn name(&self) -> (r: &str)
        ensures
            r@ == store_name(*self),
    {
        match self {
            TrustStoreKind::System => SystemStore.name(),
            TrustStoreKind::Nss => NssStore.name(),
            TrustStoreKind::Java => JavaStore.name(),
        }
    }
}

impl SystemStore {
    /// The system store can always be used: its tools come with the
    /// operating system.
    pub fn is_available(&self) -> (r: bool)
        ensures
            r,
    {
        true
    }
}

/// Whether store `k` can be used: the system store always; NSS when
/// `certutil` was found; Java when `keytool` and its keystore were found.
pub open spec fn store_usable(k: TrustStoreKind, certutil_found: bool, java_found: bool) -> bool {
    match k {
        TrustStoreKind::System => true,
        TrustStoreKind::Nss => certutil_found,
        TrustStoreKind::Java => java_found,
    }
}

impl TrustStoreKind {
    /// Whether this store can be used, given whether `certutil` was found
    /// and whether both `keytool` and Java's keystore were found.
    pub fn is_available_with(&self, certutil_found: bool, java_found: bool) -> (r: bool)
        ensures
            r == store_usable(*self, certutil_found, java_found),
    {
        match self {
            TrustStoreKind::System => SystemStore.is_available(),
            TrustStoreKind::Nss => certutil_found,
            TrustStoreKind::Java => java_found,
        }
    }
}

/// All trust stores, in the order they are tried: system, NSS, Java.
pub fn available_stores() -> (r: Vec<TrustStoreKind>)
    ensures
        r@ == seq![TrustStoreKind::System, TrustStoreKind::Nss, TrustStoreKind::Java],
{
    let mut r = Vec::new();
    r.push(TrustStoreKind::System);
    r.push(TrustStoreKind::Nss);
    r.push(TrustStoreKind::Java);
    r
}

/// What to tell a user whose machine lacks `certutil`.
pub fn certutil_missing_hint(os: TargetOs) -> (r: &'static str)
    ensures
        r@ == match os {
            TargetOs::Linux =>
                "certutil not found — install with: sudo apt install libnss3-tools OR sudo dnf install nss-tools OR sudo pacman -S nss"@,
            TargetOs::MacOs => "certutil not found — install with: brew install nss"@,
            TargetOs::Windows => "certutil not found on Windows — NSS trust store not supported"@,
            TargetOs::Other => "certutil not found"@,
        },
{
    match os {
        TargetOs::Linux =>
            "certutil not found — install with: sudo apt install libnss3-tools OR sudo dnf install nss-tools OR sudo pacman -S nss",
        TargetOs::MacOs => "certutil not found — install with: brew install nss",
        TargetOs::Windows => "certutil not found on Windows — NSS trust store not supported",
        TargetOs::Other => "certutil not found",
    }
}

/// Glob patterns of the Firefox profile directories, for a user whose home
/// directory is `home` (and, on Windows, whose roaming application data
/// directory is `appdata`).
pub fn nss_profile_patterns(os: TargetOs, home: &str, appdata: &str) -> (r: Vec<String>)
    ensures
        texts(r@) == match os {
            TargetOs::Linux => seq![
                home@ + "/.mozilla/firefox/*.default*"@,
                home@ + "/.mozilla/firefox/*.dev-edition-default*"@,
                home@ + "/snap/firefox/common/.mozilla/firefox/*.default*"@,
                "/var/snap/firefox/common/.mozilla/firefox/*.default*"@,
            ],
            TargetOs::MacOs => seq![home@ + "/Library/Application Support/Firefox/Profiles/*"@],
            TargetOs::Windows => seq![appdata@ + "\\Mozilla\\Firefox\\Profiles\\*"@],
            TargetOs::Other => Seq::<Seq<char>>::empty(),
        },
{
    let mut r: Vec<String> = Vec::new();
    match os {
        TargetOs::Linux => {
            push_joined(&mut r, home, "/.mozilla/firefox/*.default*");
            push_joined(&mut r, home, "/.mozilla/firefox/*.dev-edition-default*");
            push_joined(&mut r, home, "/snap/firefox/common/.mozilla/firefox/*.default*");
            push_text(&mut r, "/var/snap/firefox/common/.mozilla/firefox/*.default*");
        },
        TargetOs::MacOs => {
            push_joined(&mut r, home, "/Library/Application Support/Firefox/Profiles/*");
        },
        TargetOs::Windows => {
            push_joined(&mut r, appdata, "\\Mozilla\\Firefox\\Profiles\\*");
        },
        TargetOs::Other => {},
    }
    assert(texts(r@) =~= match os {
        TargetOs::Linux => seq![
            home@ + "/.mozilla/firefox/*.default*"@,
            home@ + "/.mozilla/firefox/*.dev-edition-default*"@,
            home@ + "/snap/firefox/common/.mozilla/firefox/*.default*"@,
            "/var/snap/firefox/common/.mozilla/firefox/*.default*"@,
        ],
        TargetOs::MacOs => seq![home@ + "/Library/Application Support/Firefox/Profiles/*"@],
        TargetOs::Windows => seq![appdata@ + "\\Mozilla\\Firefox\\Profiles\\*"@],
        TargetOs::Other => Seq::<Seq<char>>::empty(),
    });
    r
}

/// More NSS database locations (Chrome, Chromium and Firefox forks), on
/// Linux only.
pub fn nss_extra_dirs(os: TargetOs, home: &str) -> (r: Vec<String>)
    ensures
        texts(r@) == match os {
            TargetOs::Linux => seq![
                home@ + "/.pki/nssdb"@,
                home@ + "/snap/chromium/current/.pki/nssdb"@,
                home@ + "/.config/google-chrome/NSSCertificateDatabase"@,
                home@ + "/.config/chromium/NSSCertificateDatabase"@,
                home@ + "/*/.zen"@,
                home@ + "/*/.waterfox"@,
                home@ + "/*/.librewolf"@,
                home@ + "/*/.var/app"@,
                home@ + "/*/snap"@,
            ],
            _ => Seq::<Seq<char>>::empty(),
        },
{
    let mut r: Vec<String> = Vec::new();
    if os == TargetOs::Linux {
        push_joined(&mut r, home, "/.pki/nssdb");
        push_joined(&mut r, home, "/snap/chromium/current/.pki/nssdb");
        push_joined(&mut r, home, "/.config/google-chrome/NSSCertificateDatabase");
        push_joined(&mut r, home, "/.config/chromium/NSSCertificateDatabase");
        push_joined(&mut r, home, "/*/.zen");
        push_joined(&mut r, home, "/*/.waterfox");
        push_joined(&mut r, home, "/*/.librewolf");
        push_joined(&mut r, home, "/*/.var/app");
        push_joined(&mut r, home, "/*/snap");
    }
    assert(texts(r@) =~= match os {
        TargetOs::Linux => seq![
            home@ + "/.pki/nssdb"@,
            home@ + "/snap/chromium/current/.pki/nssdb"@,
            home@ + "/.config/google-chrome/NSSCertificateDatabase"@,
            home@ + "/.config/chromium/NSSCertificateDatabase"@,
            home@ + "/*/.zen"@,
            home@ + "/*/.waterfox"@,
            home@ + "/*/.librewolf"@,
            home@ + "/*/.var/app"@,
            home@ + "/*/snap"@,
        ],
        _ => Seq::<Seq<char>>::empty(),
    });
    r
}

/// `certutil` arguments that check whether the CA is in the database at
/// `profile`.
pub fn certutil_verify_args(profile: &str) -> (r: Vec<String>)
    ensures
        texts(r@) == seq!["-V"@, "-u"@, "L"@, "-d"@, profile@, "-n"@, CERT_NAME@],
{
    let mut r: Vec<String> = Vec::new();
    push_text(&mut r, "-V");
    push_text(&mut r, "-u");
    push_text(&mut r, "L");
    push_text(&mut r, "-d");
    push_text(&mut r, profile);
    push_text(&mut r, "-n");
    push_text(&mut r, CERT_NAME);
    assert(texts(r@) =~= seq!["-V"@, "-u"@, "L"@, "-d"@, profile@, "-n"@, CERT_NAME@]);
    r
}

/// `certutil` arguments that add the CA at `cert_path`, trusted for TLS
/// servers, to the database at `profile`.
pub fn certutil_add_args(profile: &str, cert_path: &str) -> (r: Vec<String>)
    ensures
        texts(r@) == seq![
            "-A"@,
            "-d"@,
            profile@,
            "-t"@,
            "C,,"@,
            "-n"@,
            CERT_NAME@,
            "-i"@,
            cert_path@,
        ],
{
    let mut r: Vec<String> = Vec::new();
    push_text(&mut r, "-A");
    push_text(&mut r, "-d");
    push_text(&mut r, profile);
    push_text(&mut r, "-t");
    push_text(&mut r, "C,,");
    push_text(&mut r, "-n");
    push_text(&mut r, CERT_NAME);
    push_text(&mut r, "-i");
    push_text(&mut r, cert_path);
    assert(texts(r@) =~= seq![
        "-A"@,
        "-d"@,
        profile@,
        "-t"@,
        "C,,"@,
        "-n"@,
        CERT_NAME@,
        "-i"@,
        cert_path@,
    ]);
    r
}

/// `certutil` arguments that delete the CA from the database at `profile`.
pub fn certutil_delete_args(profile: &str) -> (r: Vec<String>)
    ensures
        texts(r@) == seq!["-D"@, "-d"@, profile@, "-n"@, CERT_NAME@],
{
    let mut r: Vec<String> = Vec::new();
    push_text(&mut r, "-D");
    push_text(&mut r, "-d");
    push_text(&mut r, profile);
    push_text(&mut r, "-n");
    push_text(&mut r, CERT_NAME);
    assert(texts(r@) =~= seq!["-D"@, "-d"@, profile@, "-n"@, CERT_NAME@]);
    r
}

/// How an NSS install went, from whether it succeeded in each profile.
#[derive(Clone, Copy, Debug, PartialEq, Eq, Structural)]
pub enum NssInstallOutcome {
    /// No profile was found: nothing to do (the user is told to start the
    /// browser once).
    NoProfiles,
    /// The CA was installed in at least one profile.
    Installed,
    /// Installing failed in every profile.
    FailedEverywhere,
}

pub fn nss_install_outcome(succeeded: &Vec<bool>) -> (r: NssInstallOutcome)
    ensures
        r == if succeeded@.len() == 0 {
            NssInstallOutcome::NoProfiles
        } else if exists|i: int| 0 <= i < succeeded@.len() && succeeded@[i] {
            NssInstallOutcome::Installed
        } else {
            NssInstallOutcome::FailedEverywhere
        },
{
    if succeeded.len() == 0 {
        return NssInstallOutcome::NoProfiles;
    }
    let mut i: usize = 0;
    while i < succeeded.len()
        invariant
            0 <= i <= succeeded.len(),
            forall|j: int| 0 <= j < i ==> !succeeded@[j],
        decreases succeeded.len() - i,
    {
        if succeeded[i] {
            return NssInstallOutcome::Installed;
        }
        i = i + 1;
    }
    NssInstallOutcome::FailedEverywhere
}

/// `keytool` arguments that list the CA in the keystore at `cacerts`.
pub fn keytool_list_args(cacerts: &str) -> (r: Vec<String>)
    ensures
        texts(r@) == seq![
            "-list"@,
            "-keystore"@,
            cacerts@,
            "-storepass"@,
            JAVA_STORE_PASS@,
            "-alias"@,
            JAVA_ALIAS@,
        ],
{
    let mut r: Vec<String> = Vec::new();
    push_text(&mut r, "-list");
    push_text(&mut r, "-keystore");
    push_text(&mut r, cacerts);
    push_text(&mut r, "-storepass");
    push_text(&mut r, JAVA_STORE_PASS);
    push_text(&mut r, "-alias");
    push_text(&mut r, JAVA_ALIAS);
    assert(texts(r@) =~= seq![
        "-list"@,
        "-keystore"@,
        cacerts@,
        "-storepass"@,
        JAVA_STORE_PASS@,
        "-alias"@,
        JAVA_ALIAS@,
    ]);
    r
}

/// `keytool` arguments that import the CA at `cert_path` into the keystore
/// at `cacerts`.
pub fn keytool_import_args(cacerts: &str, cert_path: &str) -> (r: Vec<String>)
    ensures
        texts(r@) == seq![
            "-importcert"@,
            "-noprompt"@,
            "-trustcacerts"@,
            "-alias"@,
            JAVA_ALIAS@,
            "-keystore"@,
            cacerts@,
            "-storepass"@,
            JAVA_STORE_PASS@,
            "-file"@,
            cert_path@,
        ],
{
    let mut r: Vec<String> = Vec::new();
    push_text(&mut r, "-importcert");
    push_text(&mut r, "-noprompt");
    push_text(&mut r, "-trustcacerts");
    push_text(&mut r, "-alias");
    push_text(&mut r, JAVA_ALIAS);
    push_text(&mut r, "-keystore");
    push_text(&mut r, cacerts);
    push_text(&mut r, "-storepass");
    push_text(&mut r, JAVA_STORE_PASS);
    push_text(&mut r, "-file");
    push_text(&mut r, cert_path);
    assert(texts(r@) =~= seq![
        "-importcert"@,
        "-noprompt"@,
        "-trustcacerts"@,
        "-alias"@,
        JAVA_ALIAS@,
        "-keystore"@,
        cacerts@,
        "-storepass"@,
        JAVA_STORE_PASS@,
        "-file"@,
        cert_path@,
    ]);
    r
}

/// `keytool` arguments that delete the CA from the keystore at `cacerts`.
pub fn keytool_delete_args(cacerts: &str) -> (r: Vec<String>)
    ensures
        texts(r@) == seq![
            "-delete"@,
            "-alias"@,
            JAVA_ALIAS@,
            "-keystore"@,
            cacerts@,
            "-storepass"@,
            JAVA_STORE_PASS@,
        ],
{
    let mut r: Vec<String> = Vec::new();
    push_text(&mut r, "-delete");
    push_text(&mut r, "-alias");
    push_text(&mut r, JAVA_ALIAS);
    push_text(&mut r, "-keystore");
    push_text(&mut r, cacerts);
    push_text(&mut r, "-storepass");
    push_text(&mut r, JAVA_STORE_PASS);
    assert(texts(r@) =~= seq![
        "-delete"@,
        "-alias"@,
        JAVA_ALIAS@,
        "-keystore"@,
        cacerts@,
        "-storepass"@,
        JAVA_STORE_PASS@,
    ]);
    r
}

/// Where `cacerts` may be found under a Java home, in the order tried.
pub fn cacerts_candidates() -> (r: Vec<String>)
    ensures
        texts(r@) == seq!["lib/security/cacerts"@, "jre/lib/security/cacerts"@],
{
    let mut r: Vec<String> = Vec::new();
    push_text(&mut r, "lib/security/cacerts");
    push_text(&mut r, "jre/lib/security/cacerts");
    assert(texts(r@) =~= seq!["lib/security/cacerts"@, "jre/lib/security/cacerts"@]);
    r
}

} // verus!
