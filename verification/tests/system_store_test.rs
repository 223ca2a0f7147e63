use sha1::{Digest, Sha1};
use sidedns_core::certs::Ca;
use sidedns_core::dns_sys::SystemAction;
use sidedns_core::platform::TargetOs;
use sidedns_core::process_tree::{family_listeners, process_family, Listener, ProcessEntry};
use sidedns_core::system_store::{
    fingerprint_text, sha1_fingerprint, system_install_plan, system_trusts, system_uninstall_plan,
    trust_probe, LinuxTrustDirs, ProbeResult,
};
use sidedns_core::{IpAddress, SocketTarget};
use tokio_rustls::rustls::pki_types::{pem::PemObject, CertificateDer};

fn dirs(debian: bool, fedora: bool, arch: bool) -> LinuxTrustDirs {
    LinuxTrustDirs { debian, fedora, arch }
}

fn run_of(a: &SystemAction) -> (String, Vec<String>) {
    match a {
        SystemAction::Run { program, args, .. } => (program.clone(), args.clone()),
        SystemAction::RunUnchecked { program, args } => (program.clone(), args.clone()),
        _ => panic!("expected a command"),
    }
}

#[test]
fn linux_install_prefers_debian() {
    let plan = system_install_plan(TargetOs::Linux, "/tmp/ca.crt", dirs(true, true, true));
    assert_eq!(plan.len(), 2);
    assert!(matches!(&plan[0], SystemAction::CopyFile { from, to }
        if from == "/tmp/ca.crt" && to == "/usr/local/share/ca-certificates/sidedns.crt"));
    assert_eq!(run_of(&plan[1]), ("sudo".to_string(), vec!["update-ca-certificates".to_string()]));
}

#[test]
fn linux_install_fedora_then_arch() {
    let plan = system_install_plan(TargetOs::Linux, "/c.crt", dirs(false, true, true));
    assert!(matches!(&plan[0], SystemAction::CopyFile { to, .. }
        if to == "/etc/pki/ca-trust/source/anchors/sidedns.crt"));
    let plan = system_install_plan(TargetOs::Linux, "/c.crt", dirs(false, false, true));
    assert!(matches!(&plan[0], SystemAction::CopyFile { to, .. }
        if to == "/etc/ca-certificates/trust-source/anchors/sidedns.pem"));
    assert_eq!(
        run_of(&plan[1]).1,
        vec!["trust".to_string(), "anchor".into(), "--store".into(), "/c.crt".into()]
    );
}

#[test]
fn linux_install_unknown_family_fails() {
    let plan = system_install_plan(TargetOs::Linux, "/c.crt", dirs(false, false, false));
    assert_eq!(plan.len(), 1);
    match &plan[0] {
        SystemAction::Fail(m) => {
            assert!(m.starts_with("unsupported Linux distribution"));
            assert!(m.contains("\"/c.crt\""));
        },
        _ => panic!("expected a failure"),
    }
}

#[test]
fn macos_and_windows_install() {
    let plan = system_install_plan(TargetOs::MacOs, "/c.crt", dirs(false, false, false));
    let (p, a) = run_of(&plan[0]);
    assert_eq!(p, "sudo");
    assert_eq!(a[0], "security");
    assert_eq!(a.last().unwrap(), "/c.crt");
    let plan = system_install_plan(TargetOs::Windows, "C:\\c.crt", dirs(false, false, false));
    assert_eq!(
        run_of(&plan[0]),
        ("certutil.exe".to_string(), vec!["-addstore".into(), "-f".into(), "ROOT".into(), "C:\\c.crt".into()])
    );
    let plan = system_install_plan(TargetOs::Other, "/c.crt", dirs(true, true, true));
    assert!(matches!(&plan[0], SystemAction::Fail(_)));
}

#[test]
fn uninstall_plans() {
    let plan = system_uninstall_plan(TargetOs::Linux, "/c.crt", dirs(false, true, false), "AB");
    assert!(matches!(&plan[0], SystemAction::RemoveFile(p) if p == "/etc/pki/ca-trust/source/anchors/sidedns.crt"));
    assert!(matches!(&plan[1], SystemAction::RunUnchecked { .. }));
    assert!(system_uninstall_plan(TargetOs::Linux, "/c.crt", dirs(false, false, false), "AB").is_empty());
    let plan = system_uninstall_plan(TargetOs::Windows, "/c.crt", dirs(false, false, false), "AB12");
    assert_eq!(
        run_of(&plan[0]),
        ("certutil".to_string(), vec!["-delstore".into(), "ROOT".into(), "AB12".into()])
    );
    assert!(system_uninstall_plan(TargetOs::Other, "/c.crt", dirs(true, true, true), "AB").is_empty());
}

#[test]
fn probes_and_their_reading() {
    let (p, a) = trust_probe(TargetOs::Linux, "/c.crt").unwrap();
    assert_eq!(p, "openssl");
    assert_eq!(a[0], "verify");
    assert!(trust_probe(TargetOs::Other, "/c.crt").is_none());

    let ok = Some(ProbeResult { success: true, output: String::new() });
    let failed = Some(ProbeResult { success: false, output: String::new() });
    assert!(system_trusts(TargetOs::Linux, &ok, &None, false));
    assert!(system_trusts(TargetOs::Linux, &failed, &None, true));
    assert!(!system_trusts(TargetOs::Linux, &None, &None, false));

    let listing = Some(ProbeResult { success: true, output: "SHA-1 hash: ABCDEF\n".into() });
    assert!(system_trusts(TargetOs::MacOs, &listing, &Some("ABCDEF".into()), false));
    assert!(!system_trusts(TargetOs::MacOs, &listing, &Some("123456".into()), false));
    assert!(!system_trusts(TargetOs::MacOs, &listing, &None, false));

    let store = Some(ProbeResult { success: true, output: "Subject: CN=SideDNS Local CA".into() });
    assert!(system_trusts(TargetOs::Windows, &store, &None, false));
    assert!(!system_trusts(TargetOs::Other, &store, &None, true));
}

#[test]
fn fingerprint_is_upper_hex_of_sha1_of_der() {
    assert_eq!(fingerprint_text(&[0x00, 0xab, 0x10, 0xff]), "00AB10FF");
    let (pem, _) = Ca::generate("tester@host").unwrap();
    let der = CertificateDer::from_pem_slice(pem.cert().as_bytes()).unwrap();
    let expected: String = Sha1::digest(der.as_ref()).iter().map(|b| format!("{:02X}", b)).collect();
    assert_eq!(sha1_fingerprint(pem.cert().as_bytes()), Some(expected));
    assert_eq!(sha1_fingerprint(b"no certificate"), None);
}

#[test]
fn process_family_follows_children() {
    let procs = vec![
        ProcessEntry { pid: 1, parent: None },
        ProcessEntry { pid: 10, parent: Some(1) },
        ProcessEntry { pid: 11, parent: Some(10) },
        ProcessEntry { pid: 12, parent: Some(11) },
        ProcessEntry { pid: 20, parent: Some(1) },
        ProcessEntry { pid: 13, parent: Some(10) },
    ];
    let mut fam = process_family(10, &procs);
    assert_eq!(fam[0], 10);
    fam.sort();
    assert_eq!(fam, vec![10, 11, 12, 13]);
    assert_eq!(process_family(99, &procs), vec![99]);
}

#[test]
fn family_listeners_keep_tcp_of_family() {
    let t = |p: u16| SocketTarget::new(IpAddress::V4([127, 0, 0, 1]), p);
    let ls = vec![
        Listener { pid: 11, process_name: "node".into(), tcp: true, socket: t(3000) },
        Listener { pid: 11, process_name: "node".into(), tcp: false, socket: t(3001) },
        Listener { pid: 20, process_name: "other".into(), tcp: true, socket: t(4000) },
        Listener { pid: 10, process_name: "npm".into(), tcp: true, socket: t(5000) },
    ];
    let found = family_listeners(&vec![10, 11], &ls);
    assert_eq!(found, vec![("node".to_string(), t(3000)), ("npm".to_string(), t(5000))]);
}

#[test]
fn family_listeners_detect_only_ipv4() {
    let v4 = SocketTarget::new(IpAddress::V4([0, 0, 0, 0]), 3000);
    let v6 = SocketTarget::new(IpAddress::V6([0, 0, 0, 0, 0, 0, 0, 1]), 3000);
    let ls = vec![
        Listener { pid: 7, process_name: "srv".into(), tcp: true, socket: v6 },
        Listener { pid: 7, process_name: "srv".into(), tcp: true, socket: v4 },
    ];
    assert_eq!(family_listeners(&vec![7], &ls), vec![("srv".to_string(), v4)]);
}
