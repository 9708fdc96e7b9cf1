//! The capability every plugin offers to the engine.
use vstd::prelude::*;

use crate::model::{ComponentView, Os, Probe, ProbeResult, ProbeResultView, ProbeView, SoftwareComponent, views};

verus! {

pub open spec fn opt_os_view(o: Option<Vec<Os>>) -> Option<Seq<Os>> {
    match o {
        Some(v) => Some(v@),
        None => None,
    }
}

/// A named, OS-scoped discovery strategy: which probes to run, and how to turn
/// what they found into components.
pub trait Plugin {
    spec fn spec_name(&self) -> Seq<char>;

    /// `None` for every platform, else the platforms allowed.
    spec fn spec_supported_os(&self) -> Option<Seq<Os>>;

    spec fn spec_probes(&self) -> Seq<ProbeView>;

    spec fn spec_extract(&self, found: Seq<ProbeResultView>) -> Seq<ComponentView>;

    /// A stable identifier for diagnostics.
    fn name(&self) -> (r: &str)
        ensures
            r@ == self.spec_name(),
    ;

    fn supported_os(&self) -> (r: Option<Vec<Os>>)
        ensures
            opt_os_view(r) == self.spec_supported_os(),
    ;

    /// The probes to run, in order.
    fn probes(&self) -> (r: Vec<Probe>)
        ensures
            views(r@) == self.spec_probes(),
    ;

    /// The components found in the results of this plugin's probes; runs nothing.
    /// It is only ever asked about at least one result.
    fn extract(&self, found_probes: &[ProbeResult]) -> (r: Vec<SoftwareComponent>)
        requires
            found_probes@.len() > 0,
        ensures
            views(r@) == self.spec_extract(views(found_probes@)),
    ;
}

} // verus!
