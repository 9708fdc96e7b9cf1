//! Installed packages as the RPM database lists them.
use vstd::prelude::*;

use crate::model::{
    views, ComponentView, Os, Probe, ProbeResult, ProbeResultView, ProbeView, SoftwareComponent,
};
use crate::plugin::Plugin;
use crate::plugins::{extract_lines, extract_lines_spec, opt_component_seq, LineFormat};
use crate::purl::{arch_purl, new_arch_purl, is_lower_purl_type};
use crate::text::{split_fields, split_on};

verus! {

/// Lists the packages that `rpm` knows of, as `rpm` package URLs.
pub struct RhelPlugin;

pub open spec fn rpm_probe_command() -> Seq<char> {
    "rpm -qa --qf '%{NAME}|%{VERSION}|%{RELEASE}|%{ARCH}\\n'"@
}

/// A line `name|version|release|arch` (more fields are ignored) gives the package
/// URL `pkg:rpm/<name>@<version>-<release>?arch=<arch>`; other lines give nothing.
pub open spec fn rpm_line_components(line: Seq<char>) -> Seq<ComponentView> {
    let f = split_on(line, '|');
    if f.len() >= 4 {
        match arch_purl("rpm"@, f[0], f[1] + "-"@ + f[2], f[3]) {
            Some(p) => seq![ComponentView::Purl(p)],
            None => Seq::empty(),
        }
    } else {
        Seq::empty()
    }
}

pub(crate) fn rpm_line_component(line: &str) -> (r: Option<SoftwareComponent>)
    ensures
        opt_component_seq(r) == rpm_line_components(line@),
{
    let fields = split_fields(line, '|');
    let ghost f = split_on(line@, '|');
    if fields.len() >= 4 {
        assert(fields@[0]@ == f[0] && fields@[1]@ == f[1] && fields@[2]@ == f[2] && fields@[3]@
            == f[3]);
        let mut version = fields[1].clone();
        version.append("-");
        version.append(fields[2].as_str());
        proof {
            reveal_strlit("rpm");
            assert(is_lower_purl_type("rpm"@));
        }
        match new_arch_purl("rpm", fields[0].as_str(), version, fields[3].clone()) {
            Some(p) => Some(SoftwareComponent::Purl(p)),
            None => None,
        }
    } else {
        None
    }
}

impl Plugin for RhelPlugin {
    open spec fn spec_name(&self) -> Seq<char> {
        "rhel-rpm"@
    }

    open spec fn spec_supported_os(&self) -> Option<Seq<Os>> {
        Some(seq![Os::Linux])
    }

    open spec fn spec_probes(&self) -> Seq<ProbeView> {
        seq![ProbeView::Command(rpm_probe_command())]
    }

    open spec fn spec_extract(&self, found: Seq<ProbeResultView>) -> Seq<ComponentView> {
        extract_lines_spec(LineFormat::Rpm, found)
    }

    fn name(&self) -> (r: &str) {
        "rhel-rpm"
    }

    fn supported_os(&self) -> (r: Option<Vec<Os>>) {
        let v = vec![Os::Linux];
        assert(v@ =~= seq![Os::Linux]);
        Some(v)
    }

    fn probes(&self) -> (r: Vec<Probe>) {
        let v = vec![
            Probe::Command(
                String::from_str("rpm -qa --qf '%{NAME}|%{VERSION}|%{RELEASE}|%{ARCH}\\n'"),
            ),
        ];
        assert(views(v@) =~= self.spec_probes());
        v
    }

    fn extract(&self, found_probes: &[ProbeResult]) -> (r: Vec<SoftwareComponent>) {
        extract_lines(LineFormat::Rpm, found_probes)
    }
}

} // verus!
