use hsnap_purl_plugin::{
    collect_results, get_plugins, plan_probes, plugin_applies, run_plugins, BuiltinPlugin, Os,
    Plugin, Probe, ProbeData, RegistryEntry, SoftwareComponent,
};

fn probe_counts(os: Os) -> Vec<usize> {
    plan_probes(&get_plugins(), os).iter().map(|p| p.len()).collect()
}

fn dpkg_output(text: &str) -> Option<ProbeData> {
    Some(ProbeData::CommandOutput(text.to_string()))
}

fn names(out: &[SoftwareComponent]) -> Vec<String> {
    out.iter()
        .map(|c| match c {
            SoftwareComponent::Purl(p) => format!("{}:{}", p.ty, p.name),
            SoftwareComponent::WindowsComponent { name, .. } => format!("win:{}", name),
        })
        .collect()
}

#[test]
fn registry_order_is_windows_rpm_debian() {
    let plugins = get_plugins();
    let names: Vec<&str> = plugins.iter().map(|p| p.name()).collect();
    assert_eq!(names, vec!["windows-registry", "rhel-rpm", "debian-dpkg"]);
    assert!(matches!(plugins[0], BuiltinPlugin::WindowsRegistry(_)));
}

#[test]
fn unsupported_plugins_get_no_probes() {
    assert_eq!(probe_counts(Os::Linux), vec![0, 1, 1]);
    assert_eq!(probe_counts(Os::Windows), vec![3, 0, 0]);
    assert_eq!(probe_counts(Os::MacOS), vec![0, 0, 0]);
    assert_eq!(probe_counts(Os::Unknown), vec![0, 0, 0]);
}

#[test]
fn plugin_applies_follows_allow_list() {
    assert!(plugin_applies(&None, Os::Unknown));
    assert!(plugin_applies(&Some(vec![Os::MacOS, Os::Linux]), Os::Linux));
    assert!(!plugin_applies(&Some(vec![Os::Windows]), Os::Linux));
    assert!(!plugin_applies(&Some(vec![]), Os::Linux));
}

#[test]
fn unsupported_plugin_output_is_ignored() {
    let plugins = get_plugins();
    let entries = vec![RegistryEntry {
        display_name: Some("7-Zip".to_string()),
        display_version: None,
        publisher: None,
    }];
    let outcomes = vec![
        vec![Some(ProbeData::RegistryEntries(entries)), None, None],
        vec![None],
        vec![dpkg_output("curl|7.81|amd64\n")],
    ];
    let out = run_plugins(&plugins, Os::Linux, &outcomes);
    assert_eq!(names(&out), vec!["deb:curl"]);
}

#[test]
fn failed_probes_produce_nothing() {
    let plugins = get_plugins();
    let outcomes = vec![vec![], vec![None], vec![None]];
    assert!(run_plugins(&plugins, Os::Linux, &outcomes).is_empty());
    assert!(run_plugins(&plugins, Os::Linux, &vec![]).is_empty());
}

#[test]
fn output_is_in_registry_order() {
    let plugins = get_plugins();
    let outcomes = vec![
        vec![],
        vec![dpkg_output("bash|5.1|6.fc35|x86_64\n")],
        vec![dpkg_output("curl|7.81|amd64\nvim|9.0|amd64\n")],
    ];
    let out = run_plugins(&plugins, Os::Linux, &outcomes);
    assert_eq!(names(&out), vec!["rpm:bash", "deb:curl", "deb:vim"]);
}

#[test]
fn both_package_databases_are_reported() {
    let plugins = get_plugins();
    let outcomes = vec![
        vec![],
        vec![dpkg_output("curl|7.81|1|x86_64\n")],
        vec![dpkg_output("curl|7.81|amd64\n")],
    ];
    let out = run_plugins(&plugins, Os::Linux, &outcomes);
    assert_eq!(names(&out), vec!["rpm:curl", "deb:curl"]);
}

#[test]
fn repeated_runs_agree() {
    let plugins = get_plugins();
    let make = || {
        vec![
            vec![],
            vec![None],
            vec![dpkg_output("curl|7.81|amd64\nbroken\nvim|9.0|amd64\n")],
        ]
    };
    let first = run_plugins(&plugins, Os::Linux, &make());
    let second = run_plugins(&plugins, Os::Linux, &make());
    assert_eq!(format!("{:?}", first), format!("{:?}", second));
    assert_eq!(first.len(), 2);
}

#[test]
fn windows_run_reads_all_three_keys() {
    let plugins = get_plugins();
    let named = |n: &str| RegistryEntry {
        display_name: Some(n.to_string()),
        display_version: Some("1".to_string()),
        publisher: None,
    };
    let outcomes = vec![
        vec![
            Some(ProbeData::RegistryEntries(vec![named("A")])),
            None,
            Some(ProbeData::RegistryEntries(vec![named("B"), named("C")])),
        ],
        vec![dpkg_output("bash|5.1|6|x86_64\n")],
        vec![],
    ];
    let out = run_plugins(&plugins, Os::Windows, &outcomes);
    assert_eq!(names(&out), vec!["win:A", "win:B", "win:C"]);
}

#[test]
fn collect_results_keeps_successful_probes() {
    let probes = vec![
        Probe::Command("one".to_string()),
        Probe::Command("two".to_string()),
        Probe::Command("three".to_string()),
    ];
    let outcomes = vec![dpkg_output("1"), None, dpkg_output("3"), dpkg_output("extra")];
    let found = collect_results(&probes, &outcomes);
    assert_eq!(found.len(), 2);
    assert!(matches!(&found[0].probe, Probe::Command(c) if c == "one"));
    assert!(matches!(&found[1].probe, Probe::Command(c) if c == "three"));
    assert!(matches!(&found[1].data, ProbeData::CommandOutput(o) if o == "3"));
    assert!(collect_results(&probes, &vec![]).is_empty());
}
