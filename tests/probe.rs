use hsnap_purl_plugin::{
    command_probe_data, file_candidates, join_path, registry_key_target, registry_probe_data,
    resolve_file, shell_invocation, FileLocation, Os, ProbeData, RegistryEntry, RegistryHive,
};

fn strings(v: &[&str]) -> Vec<String> {
    v.iter().map(|s| s.to_string()).collect()
}

fn found_path(d: Option<ProbeData>) -> Option<String> {
    match d {
        Some(ProbeData::File(p)) => Some(p),
        None => None,
        Some(other) => panic!("expected a file result, got {:?}", other),
    }
}

#[test]
fn path_lookup_finds_first_directory_holding_binary() {
    let dirs = strings(&["/usr/local/bin", "/usr/bin/", "/bin"]);
    let cands = file_candidates(&FileLocation::Path("ls".to_string()), &None, &dirs);
    assert_eq!(cands, strings(&["/usr/local/bin/ls", "/usr/bin/ls", "/bin/ls"]));
    let hit = resolve_file(&cands, &vec![false, true, true]);
    assert_eq!(found_path(hit).as_deref(), Some("/usr/bin/ls"));
}

#[test]
fn path_lookup_without_match_gives_nothing() {
    let dirs = strings(&["/usr/local/bin", "/usr/bin"]);
    let cands = file_candidates(&FileLocation::Path("ls".to_string()), &None, &dirs);
    assert!(resolve_file(&cands, &vec![false, false]).is_none());
    let none = file_candidates(&FileLocation::Path("ls".to_string()), &None, &vec![]);
    assert!(none.is_empty());
    assert!(resolve_file(&none, &vec![]).is_none());
}

#[test]
fn relative_path_uses_working_directory() {
    let loc = FileLocation::RelativePath("conf/app.toml".to_string());
    let cands = file_candidates(&loc, &Some("/srv/agent".to_string()), &vec![]);
    assert_eq!(cands, strings(&["/srv/agent/conf/app.toml"]));
    assert!(file_candidates(&loc, &None, &vec![]).is_empty());
}

#[test]
fn absolute_path_is_checked_as_is() {
    let loc = FileLocation::AbsolutePath("/etc/hosts".to_string());
    let cands = file_candidates(&loc, &Some("/tmp".to_string()), &strings(&["/bin"]));
    assert_eq!(cands, strings(&["/etc/hosts"]));
    assert_eq!(found_path(resolve_file(&cands, &vec![true])).as_deref(), Some("/etc/hosts"));
    assert!(resolve_file(&cands, &vec![false]).is_none());
}

#[test]
fn join_path_cases() {
    assert_eq!(join_path("/usr/bin", "ls"), "/usr/bin/ls");
    assert_eq!(join_path("/usr/bin/", "ls"), "/usr/bin/ls");
    assert_eq!(join_path("C:\\Tools\\", "x.exe"), "C:\\Tools\\x.exe");
    assert_eq!(join_path("", "ls"), "ls");
    assert_eq!(join_path("/usr/bin", "/opt/ls"), "/opt/ls");
}

#[test]
fn registry_keys_name_their_hive() {
    let (hive, sub) = registry_key_target("HKLM\\SOFTWARE\\Uninstall", Os::Windows).unwrap();
    assert_eq!(hive, RegistryHive::LocalMachine);
    assert_eq!(sub, "SOFTWARE\\Uninstall");
    let (hive, sub) = registry_key_target("HKCU\\Software\\X", Os::Windows).unwrap();
    assert_eq!(hive, RegistryHive::CurrentUser);
    assert_eq!(sub, "Software\\X");
}

#[test]
fn registry_keys_that_name_nothing() {
    assert!(registry_key_target("HKCR\\Software", Os::Windows).is_none());
    assert!(registry_key_target("HKLM\\", Os::Windows).is_none());
    assert!(registry_key_target("HKLM", Os::Windows).is_none());
    assert!(registry_key_target("HKLM\\SOFTWARE", Os::Linux).is_none());
}

#[test]
fn registry_probe_keeps_named_entries() {
    let e = |n: Option<&str>| RegistryEntry {
        display_name: n.map(|s| s.to_string()),
        display_version: None,
        publisher: None,
    };
    match registry_probe_data(&vec![e(Some("A")), e(None), e(Some("B"))]) {
        Some(ProbeData::RegistryEntries(kept)) => {
            assert_eq!(kept.len(), 2);
            assert_eq!(kept[1].display_name.as_deref(), Some("B"));
        }
        other => panic!("unexpected {:?}", other),
    }
    assert!(registry_probe_data(&vec![e(None)]).is_none());
    assert!(registry_probe_data(&vec![]).is_none());
}

#[test]
fn shell_depends_on_platform() {
    let (prog, args) = shell_invocation(Os::Windows, "ver");
    assert_eq!(prog, "cmd");
    assert_eq!(args, strings(&["/C", "ver"]));
    let (prog, args) = shell_invocation(Os::Linux, "uname -a");
    assert_eq!(prog, "sh");
    assert_eq!(args, strings(&["-c", "uname -a"]));
}

#[test]
fn command_output_is_kept_only_on_success() {
    match command_probe_data(true, b"curl|1|amd64\n") {
        Some(ProbeData::CommandOutput(o)) => assert_eq!(o, "curl|1|amd64\n"),
        other => panic!("unexpected {:?}", other),
    }
    assert!(command_probe_data(false, b"ignored").is_none());
}

#[test]
fn invalid_utf8_is_replaced() {
    match command_probe_data(true, &[b'a', 0xff, b'b']) {
        Some(ProbeData::CommandOutput(o)) => assert_eq!(o, "a\u{FFFD}b"),
        other => panic!("unexpected {:?}", other),
    }
}
