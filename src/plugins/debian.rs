//! Installed packages as the Debian package database lists them.
use vstd::prelude::*;

use crate::model::{
    views, ComponentView, Os, Probe, ProbeResult, ProbeResultView, ProbeView, SoftwareComponent,
};
use crate::plugin::Plugin;
use crate::plugins::{extract_lines, extract_lines_spec, opt_component_seq, LineFormat};
use crate::purl::{arch_purl, is_lower_purl_type, new_arch_purl};
use crate::text::{split_fields, split_on};

verus! {

/// Lists the packages that `dpkg-query` knows of, as `deb` package URLs.
pub struct DebianPlugin;

pub open spec fn deb_probe_command() -> Seq<char> {
    "dpkg-query -W -f='${Package}|${Version}|${Architecture}\\n'"@
}

/// A line `name|version|architecture` (more fields are ignored) gives the package
/// URL `pkg:deb/<name>@<version>?arch=<architecture>`; other lines give nothing.
pub open spec fn deb_line_components(line: Seq<char>) -> Seq<ComponentView> {
    let f = split_on(line, '|');
    if f.len() >= 3 {
        match arch_purl("deb"@, f[0], f[1], f[2]) {
            Some(p) => seq![ComponentView::Purl(p)],
            None => Seq::empty(),
        }
    } else {
        Seq::empty()
    }
}

pub(crate) fn deb_line_component(line: &str) -> (r: Option<SoftwareComponent>)
    ensures
        opt_component_seq(r) == deb_line_components(line@),
{
    let fields = split_fields(line, '|');
    let ghost f = split_on(line@, '|');
    if fields.len() >= 3 {
        assert(fields@[0]@ == f[0] && fields@[1]@ == f[1] && fields@[2]@ == f[2]);
        proof {
            reveal_strlit("deb");
            assert(is_lower_purl_type("deb"@));
        }
        match new_arch_purl("deb", fields[0].as_str(), fields[1].clone(), fields[2].clone()) {
            Some(p) => Some(SoftwareComponent::Purl(p)),
            None => None,
        }
    } else {
        None
    }
}

impl Plugin for DebianPlugin {
    open spec fn spec_name(&self) -> Seq<char> {
        "debian-dpkg"@
    }

    open spec fn spec_supported_os(&self) -> Option<Seq<Os>> {
        Some(seq![Os::Linux])
    }

    open spec fn spec_probes(&self) -> Seq<ProbeView> {
        seq![ProbeView::Command(deb_probe_command())]
    }

    open spec fn spec_extract(&self, found: Seq<ProbeResultView>) -> Seq<ComponentView> {
        extract_lines_spec(LineFormat::Dpkg, found)
    }

    fn name(&self) -> (r: &str) {
        "debian-dpkg"
    }

    fn supported_os(&self) -> (r: Option<Vec<Os>>) {
        let v = vec![Os::Linux];
        assert(v@ =~= seq![Os::Linux]);
        Some(v)
    }

    fn probes(&self) -> (r: Vec<Probe>) {
        let v = vec![
            Probe::Command(
                String::from_str("dpkg-query -W -f='${Package}|${Version}|${Architecture}\\n'"),
            ),
        ];
        assert(views(v@) =~= self.spec_probes());
        v
    }

    fn extract(&self, found_probes: &[ProbeResult]) -> (r: Vec<SoftwareComponent>) {
        extract_lines(LineFormat::Dpkg, found_probes)
    }
}

} // verus!
