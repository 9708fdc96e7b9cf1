//! Installed programs as the Windows uninstall registry keys list them.
use vstd::prelude::*;

use crate::model::{
    clone_opt_string, concat_map, lemma_concat_map_push, views, ComponentView, Os,
    Probe, ProbeData, ProbeDataView, ProbeResult, ProbeResultView, ProbeView, RegistryEntryView,
    SoftwareComponent,
};
use crate::plugin::Plugin;

verus! {

/// Lists the programs under the machine-wide, 32-bit and per-user uninstall keys.
pub struct WindowsRegistryPlugin;

pub open spec fn uninstall_keys() -> Seq<Seq<char>> {
    seq![
        "HKLM\\SOFTWARE\\Microsoft\\Windows\\CurrentVersion\\Uninstall"@,
        "HKLM\\SOFTWARE\\Wow6432Node\\Microsoft\\Windows\\CurrentVersion\\Uninstall"@,
        "HKCU\\Software\\Microsoft\\Windows\\CurrentVersion\\Uninstall"@,
    ]
}

/// An entry with a display name gives one component; its version defaults to the
/// empty string and its publisher is passed on as it is.
pub open spec fn entry_components(e: RegistryEntryView) -> Seq<ComponentView> {
    match e.display_name {
        Some(name) => seq![
            ComponentView::WindowsComponent {
                name,
                version: match e.display_version {
                    Some(v) => v,
                    None => Seq::empty(),
                },
                publisher: e.publisher,
            },
        ],
        None => Seq::empty(),
    }
}

pub open spec fn registry_result_components(r: ProbeResultView) -> Seq<ComponentView> {
    match r.data {
        ProbeDataView::RegistryEntries(es) => concat_map(es, |e: RegistryEntryView| entry_components(e)),
        _ => Seq::empty(),
    }
}

pub open spec fn registry_extract_spec(found: Seq<ProbeResultView>) -> Seq<ComponentView> {
    concat_map(found, |r: ProbeResultView| registry_result_components(r))
}

impl Plugin for WindowsRegistryPlugin {
    open spec fn spec_name(&self) -> Seq<char> {
        "windows-registry"@
    }

    open spec fn spec_supported_os(&self) -> Option<Seq<Os>> {
        Some(seq![Os::Windows])
    }

    open spec fn spec_probes(&self) -> Seq<ProbeView> {
        uninstall_keys().map_values(|k: Seq<char>| ProbeView::WindowsRegistry(k))
    }

    open spec fn spec_extract(&self, found: Seq<ProbeResultView>) -> Seq<ComponentView> {
        registry_extract_spec(found)
    }

    fn name(&self) -> (r: &str) {
        "windows-registry"
    }

    fn supported_os(&self) -> (r: Option<Vec<Os>>) {
        let v = vec![Os::Windows];
        assert(v@ =~= seq![Os::Windows]);
        Some(v)
    }

    fn probes(&self) -> (r: Vec<Probe>) {
        let v = vec![
            Probe::WindowsRegistry(
                String::from_str("HKLM\\SOFTWARE\\Microsoft\\Windows\\CurrentVersion\\Uninstall"),
            ),
            Probe::WindowsRegistry(
                String::from_str(
                    "HKLM\\SOFTWARE\\Wow6432Node\\Microsoft\\Windows\\CurrentVersion\\Uninstall",
                ),
            ),
            Probe::WindowsRegistry(
                String::from_str("HKCU\\Software\\Microsoft\\Windows\\CurrentVersion\\Uninstall"),
            ),
        ];
        assert(views(v@) =~= self.spec_probes());
        v
    }

    fn extract(&self, found_probes: &[ProbeResult]) -> (r: Vec<SoftwareComponent>) {
        let mut out: Vec<SoftwareComponent> = Vec::new();
        let ghost fv = views(found_probes@);
        let ghost f = |r: ProbeResultView| registry_result_components(r);
        let mut i: usize = 0;
        assert(fv.take(0) =~= Seq::<ProbeResultView>::empty());
        while i < found_probes.len()
            invariant
                i <= found_probes.len(),
                fv == views(found_probes@),
                f == (|r: ProbeResultView| registry_result_components(r)),
                views(out@) == concat_map(fv.take(i as int), f),
            decreases found_probes.len() - i,
        {
            proof {
                lemma_concat_map_push(fv, f, i as int);
            }
            let ghost before = views(out@);
            assert(fv[i as int] == found_probes@[i as int]@);
            match &found_probes[i].data {
                ProbeData::RegistryEntries(entries) => {
                    let ghost ev = views(entries@);
                    let ghost g = |e: RegistryEntryView| entry_components(e);
                    let mut j: usize = 0;
                    assert(ev.take(0) =~= Seq::<RegistryEntryView>::empty());
                    assert(before + concat_map(ev.take(0), g) =~= before);
                    while j < entries.len()
                        invariant
                            j <= entries.len(),
                            ev == views(entries@),
                            g == (|e: RegistryEntryView| entry_components(e)),
                            views(out@) == before + concat_map(ev.take(j as int), g),
                        decreases entries.len() - j,
                    {
                        proof {
                            lemma_concat_map_push(ev, g, j as int);
                        }
                        let ghost mid = views(out@);
                        let entry = &entries[j];
                        assert(ev[j as int] == entry@);
                        match &entry.display_name {
                            Some(name) => {
                                let version = match &entry.display_version {
                                    Some(v) => v.clone(),
                                    None => String::new(),
                                };
                                let c = SoftwareComponent::WindowsComponent {
                                    name: name.clone(),
                                    version,
                                    publisher: clone_opt_string(&entry.publisher),
                                };
                                out.push(c);
                                assert(views(out@) =~= mid + seq![c@]);
                            },
                            None => {},
                        }
                        assert(views(out@) =~= before + concat_map(ev.take(j + 1), g));
                        j = j + 1;
                    }
                    assert(ev.take(ev.len() as int) =~= ev);
                },
                _ => {
                    assert(views(out@) =~= before + f(fv[i as int]));
                },
            }
            i = i + 1;
        }
        assert(fv.take(fv.len() as int) =~= fv);
        out
    }
}

} // verus!
