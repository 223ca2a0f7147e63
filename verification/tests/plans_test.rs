use sidedns_core::cli::CertTrustArgs;
use sidedns_core::dns_sys::SystemAction;
use sidedns_core::platform::TargetOs;
use sidedns_core::trust::{
    cacerts_candidates, certutil_add_args, certutil_delete_args, certutil_missing_hint,
    certutil_verify_args, keytool_delete_args, keytool_import_args, keytool_list_args,
    nss_extra_dirs, nss_install_outcome, nss_profile_patterns, NssInstallOutcome, TrustStoreKind,
};
use sidedns_core::{
    available_stores, platform_dns_manager, MacOsConfigurator, NoOpConfigurator, SystemDnsManager,
    SystemdConfigurator, TrustStore, WindowsNrptConfigurator,
};

fn strings(v: &[&str]) -> Vec<String> {
    v.iter().map(|s| s.to_string()).collect()
}

#[test]
fn stores_in_order() {
    let names: Vec<String> = available_stores().iter().map(|s| s.name().to_string()).collect();
    assert_eq!(names, strings(&["system", "nss", "java"]));
    assert_eq!(available_stores()[1], TrustStoreKind::Nss);
}

#[test]
fn trust_selection() {
    let all = CertTrustArgs::all_stores();
    assert!(all.selects("java"));
    let only_nss = CertTrustArgs { all: false, system: false, java: false, nss: true };
    assert!(only_nss.selects("nss"));
    assert!(!only_nss.selects("system"));
}

#[test]
fn certutil_arguments() {
    assert_eq!(
        certutil_verify_args("/p"),
        strings(&["-V", "-u", "L", "-d", "/p", "-n", "SideDNS Local CA"])
    );
    assert_eq!(
        certutil_add_args("/p", "/c.crt"),
        strings(&["-A", "-d", "/p", "-t", "C,,", "-n", "SideDNS Local CA", "-i", "/c.crt"])
    );
    assert_eq!(certutil_delete_args("/p"), strings(&["-D", "-d", "/p", "-n", "SideDNS Local CA"]));
}

#[test]
fn keytool_arguments() {
    assert_eq!(
        keytool_list_args("/j/cacerts"),
        strings(&["-list", "-keystore", "/j/cacerts", "-storepass", "changeit", "-alias", "sidedns-local-ca"])
    );
    assert_eq!(
        keytool_import_args("/j/cacerts", "/c.crt"),
        strings(&[
            "-importcert", "-noprompt", "-trustcacerts", "-alias", "sidedns-local-ca", "-keystore",
            "/j/cacerts", "-storepass", "changeit", "-file", "/c.crt",
        ])
    );
    assert_eq!(
        keytool_delete_args("/j/cacerts"),
        strings(&["-delete", "-alias", "sidedns-local-ca", "-keystore", "/j/cacerts", "-storepass", "changeit"])
    );
    assert_eq!(cacerts_candidates(), strings(&["lib/security/cacerts", "jre/lib/security/cacerts"]));
}

#[test]
fn nss_locations() {
    assert_eq!(nss_profile_patterns(TargetOs::Linux, "/home/u", "").len(), 4);
    assert_eq!(nss_profile_patterns(TargetOs::Linux, "/home/u", "")[0], "/home/u/.mozilla/firefox/*.default*");
    assert_eq!(
        nss_profile_patterns(TargetOs::MacOs, "/Users/u", ""),
        strings(&["/Users/u/Library/Application Support/Firefox/Profiles/*"])
    );
    assert_eq!(
        nss_profile_patterns(TargetOs::Windows, "", "C:\\AppData"),
        strings(&["C:\\AppData\\Mozilla\\Firefox\\Profiles\\*"])
    );
    assert!(nss_profile_patterns(TargetOs::Other, "/h", "/a").is_empty());
    assert_eq!(nss_extra_dirs(TargetOs::Linux, "/home/u")[0], "/home/u/.pki/nssdb");
    assert_eq!(nss_extra_dirs(TargetOs::Linux, "/home/u").len(), 9);
    assert!(nss_extra_dirs(TargetOs::MacOs, "/home/u").is_empty());
}

#[test]
fn nss_outcomes_and_hints() {
    assert_eq!(nss_install_outcome(&vec![]), NssInstallOutcome::NoProfiles);
    assert_eq!(nss_install_outcome(&vec![false, true]), NssInstallOutcome::Installed);
    assert_eq!(nss_install_outcome(&vec![false, false]), NssInstallOutcome::FailedEverywhere);
    assert_eq!(certutil_missing_hint(TargetOs::MacOs), "certutil not found — install with: brew install nss");
    assert_eq!(certutil_missing_hint(TargetOs::Other), "certutil not found");
}

#[test]
fn systemd_drop_in() {
    let domains = strings(&["api.local", "*.dev.local"]);
    assert_eq!(SystemdConfigurator::drop_in_path(), "/etc/systemd/resolved.conf.d/sidedns.conf");
    assert_eq!(
        SystemdConfigurator::drop_in_content(&domains),
        "# Managed by SideDNS — do not edit manually\n[Resolve]\nDNS=127.0.53.53\nDomains=~api.local. ~dev.local\n"
    );
    let plan = SystemdConfigurator.apply(&domains);
    assert_eq!(plan.len(), 3);
    assert!(matches!(&plan[0], SystemAction::CreateDirAll(d) if d == "/etc/systemd/resolved.conf.d"));
    assert!(matches!(&plan[2], SystemAction::Run { program, .. } if program == "systemctl"));
}

#[test]
fn macos_resolver_files() {
    assert_eq!(MacOsConfigurator::resolver_path("api.local"), "/etc/resolver/api.local");
    assert_eq!(
        MacOsConfigurator::resolver_content(),
        "# Managed by SideDNS — do not edit manually\nnameserver 127.0.53.53\n"
    );
    let plan = MacOsConfigurator.apply(&strings(&["*.dev.local"]));
    assert!(matches!(plan.last().unwrap(), SystemAction::WriteFile { path, .. } if path == "/etc/resolver/dev.local"));
}

#[test]
fn windows_nrpt_rules() {
    let plan = WindowsNrptConfigurator.apply(&strings(&["*.dev.local"]));
    assert_eq!(plan.len(), 2);
    match &plan[1] {
        SystemAction::Run { program, args, .. } => {
            assert_eq!(program, "powershell");
            assert!(args[3].contains("-Namespace '.dev.local'"));
            assert!(args[3].contains("-NameServers '127.0.53.53'"));
        },
        _ => panic!("expected a PowerShell command"),
    }
    assert_eq!(WindowsNrptConfigurator.revert().len(), 1);
}

#[test]
fn platform_managers() {
    assert!(NoOpConfigurator.apply(&strings(&["a.local"])).is_empty());
    assert!(platform_dns_manager(TargetOs::Other, true).apply(&strings(&["a.local"])).is_empty());
    assert_eq!(platform_dns_manager(TargetOs::Linux, true).apply(&strings(&["a.local"])).len(), 3);
    assert!(platform_dns_manager(TargetOs::Linux, false).revert().is_empty());
}

/// Applies the file actions of a plan to a map of files, as the daemon's
/// executor does on disk (commands and directories leave the files as they are).
fn run_on(files: &mut std::collections::BTreeMap<String, String>, plan: &[SystemAction]) {
    for a in plan {
        match a {
            SystemAction::WriteFile { path, content } => {
                files.insert(path.clone(), content.clone());
            },
            SystemAction::RemoveFileIfExists(p) | SystemAction::RemoveFile(p) => {
                files.remove(p);
            },
            SystemAction::RemoveManagedFiles { dir, marker } => {
                let prefix = format!("{dir}/");
                files.retain(|p, c| {
                    let direct = p.starts_with(&prefix) && !p[prefix.len()..].contains('/') && p.len() > prefix.len();
                    !(direct && c.contains(marker.as_str()))
                });
            },
            SystemAction::CopyFile { from, to } => {
                if let Some(c) = files.get(from).cloned() {
                    files.insert(to.clone(), c);
                }
            },
            SystemAction::Fail(_) => return,
            _ => {},
        }
    }
}

fn sample_files() -> std::collections::BTreeMap<String, String> {
    let mut files = std::collections::BTreeMap::new();
    files.insert("/etc/hosts".to_string(), "127.0.0.1 localhost\n".to_string());
    files.insert("/etc/resolver/corp.example".to_string(), "nameserver 10.0.0.1\n".to_string());
    files.insert("/etc/systemd/resolved.conf".to_string(), "[Resolve]\n".to_string());
    files
}

#[test]
fn systemd_stop_leaves_no_residue() {
    let before = sample_files();
    let mut files = before.clone();
    let domains = strings(&["api.local", "*.myapp.local"]);
    run_on(&mut files, &SystemdConfigurator.apply(&domains));
    assert!(files.contains_key("/etc/systemd/resolved.conf.d/sidedns.conf"));
    run_on(&mut files, &SystemdConfigurator.revert());
    assert_eq!(files, before);
}

#[test]
fn systemd_apply_replaces_earlier_apply() {
    let mut twice = sample_files();
    run_on(&mut twice, &SystemdConfigurator.apply(&strings(&["a.local"])));
    run_on(&mut twice, &SystemdConfigurator.apply(&strings(&["b.local"])));
    let mut once = sample_files();
    run_on(&mut once, &SystemdConfigurator.apply(&strings(&["b.local"])));
    assert_eq!(twice, once);
}

#[test]
fn macos_stop_leaves_no_residue() {
    let before = sample_files();
    let mut files = before.clone();
    let domains = strings(&["api.local", "*.myapp.local"]);
    run_on(&mut files, &MacOsConfigurator.apply(&domains));
    assert!(files.contains_key("/etc/resolver/api.local"));
    assert!(files.contains_key("/etc/resolver/myapp.local"));
    run_on(&mut files, &MacOsConfigurator.revert());
    assert_eq!(files, before);
}

#[test]
fn macos_apply_replaces_earlier_apply() {
    let mut twice = sample_files();
    run_on(&mut twice, &MacOsConfigurator.apply(&strings(&["a.local", "c.test"])));
    run_on(&mut twice, &MacOsConfigurator.apply(&strings(&["b.local"])));
    let mut once = sample_files();
    run_on(&mut once, &MacOsConfigurator.apply(&strings(&["b.local"])));
    assert_eq!(twice, once);
    assert!(!twice.contains_key("/etc/resolver/a.local"));
}

/// Applies the PowerShell actions of a plan to a list of NRPT rules
/// (namespace, comment), as the cmdlets do.
fn run_nrpt(table: &mut Vec<(String, String)>, plan: &[SystemAction]) {
    const MARKER: &str = "Managed by SideDNS — do not edit manually";
    for a in plan {
        if let SystemAction::Run { program, args, .. } = a {
            assert_eq!(program, "powershell");
            let script = args.last().unwrap();
            if script.starts_with("Get-DnsClientNrptRule") {
                table.retain(|(_, c)| c != MARKER);
            } else if let Some(rest) = script.strip_prefix("Add-DnsClientNrptRule -Namespace '") {
                let ns = rest.split('\'').next().unwrap().to_string();
                table.push((ns, MARKER.to_string()));
            }
        }
    }
}

#[test]
fn windows_stop_leaves_no_residue() {
    let before = vec![("corp.example".to_string(), "VPN".to_string())];
    let mut table = before.clone();
    run_nrpt(&mut table, &WindowsNrptConfigurator.apply(&strings(&["api.local", "*.app.local"])));
    assert_eq!(table.len(), 3);
    assert_eq!(table[2].0, ".app.local");
    run_nrpt(&mut table, &WindowsNrptConfigurator.revert());
    assert_eq!(table, before);
}

#[test]
fn windows_apply_replaces_earlier_apply() {
    let start = vec![("corp.example".to_string(), "VPN".to_string())];
    let mut twice = start.clone();
    run_nrpt(&mut twice, &WindowsNrptConfigurator.apply(&strings(&["a.local"])));
    run_nrpt(&mut twice, &WindowsNrptConfigurator.apply(&strings(&["b.local"])));
    let mut once = start.clone();
    run_nrpt(&mut once, &WindowsNrptConfigurator.apply(&strings(&["b.local"])));
    assert_eq!(twice, once);
}

#[test]
fn reverting_twice_is_reverting_once() {
    let mut files = sample_files();
    run_on(&mut files, &MacOsConfigurator.apply(&strings(&["a.local"])));
    run_on(&mut files, &SystemdConfigurator.apply(&strings(&["a.local"])));
    let mut once = files.clone();
    run_on(&mut once, &MacOsConfigurator.revert());
    run_on(&mut once, &SystemdConfigurator.revert());
    let mut twice = once.clone();
    run_on(&mut twice, &MacOsConfigurator.revert());
    run_on(&mut twice, &SystemdConfigurator.revert());
    assert_eq!(once, twice);
    let mut table = vec![("corp.example".to_string(), "VPN".to_string())];
    run_nrpt(&mut table, &WindowsNrptConfigurator.apply(&strings(&["a.local"])));
    run_nrpt(&mut table, &WindowsNrptConfigurator.revert());
    let after_once = table.clone();
    run_nrpt(&mut table, &WindowsNrptConfigurator.revert());
    assert_eq!(table, after_once);
}

#[test]
fn systemd_availability_probes() {
    assert_eq!(
        SystemdConfigurator::probe_paths(),
        ("/run/systemd/resolve/resolv.conf", "/etc/systemd/resolved.conf")
    );
    assert!(SystemdConfigurator::available_from(true, false));
    assert!(SystemdConfigurator::available_from(false, true));
    assert!(!SystemdConfigurator::available_from(false, false));
}

#[test]
fn store_availability() {
    assert!(sidedns_core::SystemStore.is_available());
    assert!(TrustStoreKind::System.is_available_with(false, false));
    assert!(TrustStoreKind::Nss.is_available_with(true, false));
    assert!(!TrustStoreKind::Nss.is_available_with(false, true));
    assert!(TrustStoreKind::Java.is_available_with(false, true));
    assert!(!TrustStoreKind::Java.is_available_with(true, false));
}

#[test]
fn macos_apply_writes_exactly_the_marked_files() {
    let mut files = sample_files();
    files.insert("/etc/resolver/old.local".to_string(), "# Managed by SideDNS — do not edit manually\n".to_string());
    let before = files.clone();
    run_on(&mut files, &MacOsConfigurator.apply(&strings(&["api.local", "*.myapp.local"])));
    let content = "# Managed by SideDNS — do not edit manually\nnameserver 127.0.53.53\n";
    let marked: Vec<&String> = files
        .iter()
        .filter(|(p, c)| p.starts_with("/etc/resolver/") && c.contains("Managed by SideDNS"))
        .map(|(p, _)| p)
        .collect();
    assert_eq!(marked, vec!["/etc/resolver/api.local", "/etc/resolver/myapp.local"]);
    assert_eq!(files["/etc/resolver/api.local"], content);
    assert_eq!(files["/etc/resolver/corp.example"], before["/etc/resolver/corp.example"]);
    assert_eq!(files["/etc/hosts"], before["/etc/hosts"]);
}
