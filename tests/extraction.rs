use hsnap_purl_plugin::{
    split_fields, split_lines, DebianPlugin, Plugin, Probe, ProbeData, ProbeResult, Purl,
    RegistryEntry, RhelPlugin, SoftwareComponent, WindowsRegistryPlugin,
};

fn command_result(output: &str) -> ProbeResult {
    ProbeResult {
        probe: Probe::Command("query".to_string()),
        data: ProbeData::CommandOutput(output.to_string()),
    }
}

fn purl_of(c: &SoftwareComponent) -> &Purl {
    match c {
        SoftwareComponent::Purl(p) => p,
        other => panic!("expected a package URL, got {:?}", other),
    }
}

fn entry(name: Option<&str>, version: Option<&str>, publisher: Option<&str>) -> RegistryEntry {
    RegistryEntry {
        display_name: name.map(|s| s.to_string()),
        display_version: version.map(|s| s.to_string()),
        publisher: publisher.map(|s| s.to_string()),
    }
}

#[test]
fn debian_line_becomes_deb_purl() {
    let out = DebianPlugin.extract(&[command_result("curl|7.81.0-1ubuntu1|amd64\n")]);
    assert_eq!(out.len(), 1);
    let p = purl_of(&out[0]);
    assert_eq!(p.ty, "deb");
    assert_eq!(p.name, "curl");
    assert_eq!(p.namespace, None);
    assert_eq!(p.version.as_deref(), Some("7.81.0-1ubuntu1"));
    assert_eq!(p.qualifiers, vec![("arch".to_string(), "amd64".to_string())]);
}

#[test]
fn rpm_line_becomes_rpm_purl() {
    let out = RhelPlugin.extract(&[command_result("bash|5.1|6.fc35|x86_64\n")]);
    assert_eq!(out.len(), 1);
    let p = purl_of(&out[0]);
    assert_eq!(p.ty, "rpm");
    assert_eq!(p.name, "bash");
    assert_eq!(p.version.as_deref(), Some("5.1-6.fc35"));
    assert_eq!(p.qualifiers, vec![("arch".to_string(), "x86_64".to_string())]);
}

#[test]
fn registry_entries_become_windows_components() {
    let result = ProbeResult {
        probe: Probe::WindowsRegistry("HKLM\\Software\\Uninstall".to_string()),
        data: ProbeData::RegistryEntries(vec![
            entry(Some("7-Zip"), Some("19.00"), Some("Igor Pavlov")),
            entry(None, Some("1.0"), Some("Nobody")),
        ]),
    };
    let out = WindowsRegistryPlugin.extract(&[result]);
    assert_eq!(out.len(), 1);
    match &out[0] {
        SoftwareComponent::WindowsComponent { name, version, publisher } => {
            assert_eq!(name, "7-Zip");
            assert_eq!(version, "19.00");
            assert_eq!(publisher.as_deref(), Some("Igor Pavlov"));
        }
        other => panic!("expected a Windows component, got {:?}", other),
    }
}

#[test]
fn registry_entry_without_version_gets_empty_version() {
    let result = ProbeResult {
        probe: Probe::WindowsRegistry("HKCU\\Software\\Uninstall".to_string()),
        data: ProbeData::RegistryEntries(vec![entry(Some("Tool"), None, None)]),
    };
    let out = WindowsRegistryPlugin.extract(&[result]);
    assert_eq!(out.len(), 1);
    match &out[0] {
        SoftwareComponent::WindowsComponent { name, version, publisher } => {
            assert_eq!(name, "Tool");
            assert_eq!(version, "");
            assert_eq!(*publisher, None);
        }
        other => panic!("expected a Windows component, got {:?}", other),
    }
}

#[test]
fn registry_plugin_ignores_command_output() {
    let out = WindowsRegistryPlugin.extract(&[command_result("curl|1|amd64\n")]);
    assert!(out.is_empty());
}

#[test]
fn debian_malformed_line_is_skipped() {
    let out = DebianPlugin.extract(&[command_result(
        "curl|7.81.0-1ubuntu1|amd64\nbroken\n",
    )]);
    assert_eq!(out.len(), 1);
    assert_eq!(purl_of(&out[0]).name, "curl");
}

#[test]
fn debian_empty_name_is_rejected() {
    let out = DebianPlugin.extract(&[command_result("|1.0|amd64\nzlib1g|1.2|amd64\n")]);
    assert_eq!(out.len(), 1);
    assert_eq!(purl_of(&out[0]).name, "zlib1g");
}

#[test]
fn debian_name_is_lowercased() {
    let out = DebianPlugin.extract(&[command_result("LibFoo|2.0|all\n")]);
    assert_eq!(out.len(), 1);
    assert_eq!(purl_of(&out[0]).name, "libfoo");
}

#[test]
fn rpm_name_keeps_its_case() {
    let out = RhelPlugin.extract(&[command_result("PyYAML|6.0|1.el9|noarch\n")]);
    assert_eq!(out.len(), 1);
    assert_eq!(purl_of(&out[0]).name, "PyYAML");
}

#[test]
fn rpm_line_with_three_fields_is_skipped() {
    let out = RhelPlugin.extract(&[command_result("bash|5.1|x86_64\nzsh|5.8|1|x86_64")]);
    assert_eq!(out.len(), 1);
    let p = purl_of(&out[0]);
    assert_eq!(p.name, "zsh");
    assert_eq!(p.version.as_deref(), Some("5.8-1"));
}

#[test]
fn extra_fields_are_ignored() {
    let out = DebianPlugin.extract(&[command_result("vim|9.0|amd64|extra\n")]);
    assert_eq!(out.len(), 1);
    assert_eq!(purl_of(&out[0]).qualifiers[0].1, "amd64");
}

#[test]
fn crlf_line_endings_are_dropped() {
    let out = DebianPlugin.extract(&[command_result("curl|7.81|amd64\r\nwget|1.21|arm64\r\n")]);
    assert_eq!(out.len(), 2);
    assert_eq!(purl_of(&out[0]).qualifiers[0].1, "amd64");
    assert_eq!(purl_of(&out[1]).qualifiers[0].1, "arm64");
}

#[test]
fn results_of_several_probes_keep_their_order() {
    let out = DebianPlugin.extract(&[
        command_result("b|1|all\n"),
        ProbeResult {
            probe: Probe::Command("other".to_string()),
            data: ProbeData::File("/bin/x".to_string()),
        },
        command_result("a|2|all\n"),
    ]);
    let names: Vec<&str> = out.iter().map(|c| purl_of(c).name.as_str()).collect();
    assert_eq!(names, vec!["b", "a"]);
}

#[test]
fn plugin_names_are_stable() {
    assert_eq!(DebianPlugin.name(), "debian-dpkg");
    assert_eq!(RhelPlugin.name(), "rhel-rpm");
    assert_eq!(WindowsRegistryPlugin.name(), "windows-registry");
}

#[test]
fn lines_follow_str_lines() {
    for text in ["", "a", "a\n", "a\r\nb", "a\n\nb\n", "x\r", "\n", "a\rb\n", "\r\n\r\n"] {
        let expected: Vec<String> = text.lines().map(|l| l.to_string()).collect();
        assert_eq!(split_lines(text), expected, "text {:?}", text);
    }
}

#[test]
fn fields_keep_empty_pieces() {
    assert_eq!(split_fields("a||b", '|'), vec!["a", "", "b"]);
    assert_eq!(split_fields("", '|'), vec![""]);
    assert_eq!(split_fields("|", '|'), vec!["", ""]);
    assert_eq!(split_fields("ü|é", '|'), vec!["ü", "é"]);
}
