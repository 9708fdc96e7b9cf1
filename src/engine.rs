//! The engine: which plugins run on this platform, which probes they ask for,
//! and how what the probes found becomes the run's ordered list of components.
use vstd::prelude::*;

use crate::model::{
    views, ComponentView, Os, Probe, ProbeData, ProbeDataView, ProbeResult, ProbeResultView,
    ProbeView, SoftwareComponent,
};
use crate::plugin::{opt_os_view, Plugin};
use crate::plugins::{DebianPlugin, RhelPlugin, WindowsRegistryPlugin};

verus! {

/// A plugin runs where it names no platform, or names the current one.
pub open spec fn os_allowed(supported: Option<Seq<Os>>, os: Os) -> bool {
    match supported {
        None => true,
        Some(list) => list.contains(os),
    }
}

/// The probes the engine runs for `p` on `os`: all of them where `p` runs, else none.
pub open spec fn planned<P: Plugin>(p: P, os: Os) -> Seq<ProbeView> {
    if os_allowed(p.spec_supported_os(), os) {
        p.spec_probes()
    } else {
        Seq::empty()
    }
}

pub open spec fn opt_data_views(s: Seq<Option<ProbeData>>) -> Seq<Option<ProbeDataView>> {
    s.map_values(
        |o: Option<ProbeData>|
            match o {
                Some(d) => Some(d@),
                None => None,
            },
    )
}

/// What was observed for the `k`-th probe; nothing where no observation was given.
pub open spec fn outcome_at(outcomes: Seq<Option<ProbeDataView>>, k: int) -> Option<ProbeDataView> {
    if 0 <= k < outcomes.len() {
        outcomes[k]
    } else {
        None
    }
}

/// The successful probes, in order, each with what it found.
pub open spec fn gathered(probes: Seq<ProbeView>, outcomes: Seq<Option<ProbeDataView>>) -> Seq<
    ProbeResultView,
>
    decreases probes.len(),
{
    if probes.len() == 0 {
        Seq::empty()
    } else {
        let prev = gathered(probes.drop_last(), outcomes);
        match outcome_at(outcomes, probes.len() - 1) {
            Some(d) => prev.push(ProbeResultView { probe: probes.last(), data: d }),
            None => prev,
        }
    }
}

/// What one plugin adds to a run: nothing where it does not run on `os` or where
/// none of its probes found anything, else what it extracts from its results.
pub open spec fn plugin_output<P: Plugin>(p: P, os: Os, outcomes: Seq<Option<ProbeDataView>>) -> Seq<
    ComponentView,
> {
    if !os_allowed(p.spec_supported_os(), os) {
        Seq::empty()
    } else {
        let found = gathered(p.spec_probes(), outcomes);
        if found.len() == 0 {
            Seq::empty()
        } else {
            p.spec_extract(found)
        }
    }
}

pub open spec fn outcomes_of(outcomes: Seq<Seq<Option<ProbeDataView>>>, i: int) -> Seq<
    Option<ProbeDataView>,
> {
    if 0 <= i < outcomes.len() {
        outcomes[i]
    } else {
        Seq::empty()
    }
}

/// The components of a run: each plugin's output, in registry order.
pub open spec fn run_output<P: Plugin>(
    plugins: Seq<P>,
    os: Os,
    outcomes: Seq<Seq<Option<ProbeDataView>>>,
) -> Seq<ComponentView>
    decreases plugins.len(),
{
    if plugins.len() == 0 {
        Seq::empty()
    } else {
        run_output(plugins.drop_last(), os, outcomes) + plugin_output(
            plugins.last(),
            os,
            outcomes_of(outcomes, plugins.len() - 1),
        )
    }
}

/// A plugin that does not run on `os` has none of its probes run and adds nothing
/// to the run, whatever the host would have shown.
pub proof fn lemma_unsupported_plugin_is_skipped<P: Plugin>(
    p: P,
    os: Os,
    outcomes: Seq<Option<ProbeDataView>>,
)
    requires
        !os_allowed(p.spec_supported_os(), os),
    ensures
        planned(p, os) == Seq::<ProbeView>::empty(),
        plugin_output(p, os, outcomes) == Seq::<ComponentView>::empty(),
{
}

/// Probes that all failed gather no result.
pub proof fn lemma_failed_probes_gather_nothing(
    probes: Seq<ProbeView>,
    outcomes: Seq<Option<ProbeDataView>>,
)
    requires
        forall|k: int| 0 <= k < outcomes.len() ==> #[trigger] outcomes[k] is None,
    ensures
        gathered(probes, outcomes) == Seq::<ProbeResultView>::empty(),
    decreases probes.len(),
{
    if probes.len() > 0 {
        lemma_failed_probes_gather_nothing(probes.drop_last(), outcomes);
    }
}

/// A plugin whose probes all failed adds nothing: no component is made up from
/// an empty set of results.
pub proof fn lemma_no_results_no_components<P: Plugin>(
    p: P,
    os: Os,
    outcomes: Seq<Option<ProbeDataView>>,
)
    requires
        forall|k: int| 0 <= k < outcomes.len() ==> #[trigger] outcomes[k] is None,
    ensures
        plugin_output(p, os, outcomes) == Seq::<ComponentView>::empty(),
{
    lemma_failed_probes_gather_nothing(p.spec_probes(), outcomes);
}

/// Two runs over the same host observations give the same components in the same order.
pub proof fn lemma_run_is_repeatable<P: Plugin>(
    plugins: Seq<P>,
    os: Os,
    first: Seq<Seq<Option<ProbeDataView>>>,
    second: Seq<Seq<Option<ProbeDataView>>>,
)
    requires
        first == second,
    ensures
        run_output(plugins, os, first) == run_output(plugins, os, second),
{
}

/// Whether a plugin that declares `supported` runs on `os`.
pub fn plugin_applies(supported: &Option<Vec<Os>>, os: Os) -> (r: bool)
    ensures
        r == os_allowed(opt_os_view(*supported), os),
{
    match supported {
        None => true,
        Some(list) => {
            let mut i: usize = 0;
            while i < list.len()
                invariant
                    i <= list.len(),
                    opt_os_view(*supported) == Some(list@),
                    forall|k: int| 0 <= k < i ==> list@[k] != os,
                decreases list.len() - i,
            {
                if list[i] == os {
                    assert(list@[i as int] == os);
                    assert(list@.contains(os));
                    return true;
                }
                i = i + 1;
            }
            false
        },
    }
}

/// For each plugin, in order, the probes to run on `os`.
pub fn plan_probes<P: Plugin>(plugins: &Vec<P>, os: Os) -> (r: Vec<Vec<Probe>>)
    ensures
        r.len() == plugins.len(),
        forall|i: int| 0 <= i < r.len() ==> views(#[trigger] r@[i]@) == planned(plugins@[i], os),
{
    let mut plan: Vec<Vec<Probe>> = Vec::new();
    let mut i: usize = 0;
    while i < plugins.len()
        invariant
            i <= plugins.len(),
            plan.len() == i,
            forall|k: int| 0 <= k < i ==> views(#[trigger] plan@[k]@) == planned(plugins@[k], os),
        decreases plugins.len() - i,
    {
        let p = &plugins[i];
        let supported = p.supported_os();
        if plugin_applies(&supported, os) {
            plan.push(p.probes());
        } else {
            let none: Vec<Probe> = Vec::new();
            assert(views(none@) =~= Seq::<ProbeView>::empty());
            plan.push(none);
        }
        i = i + 1;
    }
    plan
}

/// Pairs each probe with what was observed for it, keeping the successful ones in order.
pub fn collect_results(probes: &Vec<Probe>, outcomes: &Vec<Option<ProbeData>>) -> (r: Vec<
    ProbeResult,
>)
    ensures
        views(r@) == gathered(views(probes@), opt_data_views(outcomes@)),
{
    let mut found: Vec<ProbeResult> = Vec::new();
    let ghost pv = views(probes@);
    let ghost ov = opt_data_views(outcomes@);
    let mut k: usize = 0;
    assert(pv.take(0) =~= Seq::<ProbeView>::empty());
    while k < probes.len()
        invariant
            k <= probes.len(),
            pv == views(probes@),
            ov == opt_data_views(outcomes@),
            views(found@) == gathered(pv.take(k as int), ov),
        decreases probes.len() - k,
    {
        assert(pv.take(k + 1).drop_last() =~= pv.take(k as int));
        let ghost before = views(found@);
        if k < outcomes.len() {
            match &outcomes[k] {
                Some(d) => {
                    let r = ProbeResult { probe: probes[k].clone(), data: d.clone() };
                    found.push(r);
                    assert(views(found@) =~= before.push(r@));
                },
                None => {},
            }
        }
        k = k + 1;
    }
    assert(pv.take(pv.len() as int) =~= pv);
    found
}

pub open spec fn outcome_views(s: Seq<Vec<Option<ProbeData>>>) -> Seq<Seq<Option<ProbeDataView>>> {
    s.map_values(|v: Vec<Option<ProbeData>>| opt_data_views(v@))
}

/// The components found on the host: `outcomes[i][k]` is what the `k`-th probe
/// that `plan_probes` gave for the `i`-th plugin observed (`None` where it failed).
/// Plugins that do not run on `os`, and plugins whose probes all failed, add
/// nothing; the others add what they extract, in registry order.
pub fn run_plugins<P: Plugin>(
    plugins: &Vec<P>,
    os: Os,
    outcomes: &Vec<Vec<Option<ProbeData>>>,
) -> (r: Vec<SoftwareComponent>)
    ensures
        views(r@) == run_output(plugins@, os, outcome_views(outcomes@)),
{
    let mut out: Vec<SoftwareComponent> = Vec::new();
    let ghost ov = outcome_views(outcomes@);
    let no_outcomes: Vec<Option<ProbeData>> = Vec::new();
    assert(opt_data_views(no_outcomes@) =~= Seq::<Option<ProbeDataView>>::empty());
    let mut i: usize = 0;
    assert(views(out@) =~= Seq::<ComponentView>::empty());
    while i < plugins.len()
        invariant
            i <= plugins.len(),
            ov == outcome_views(outcomes@),
            opt_data_views(no_outcomes@) == Seq::<Option<ProbeDataView>>::empty(),
            views(out@) == run_output(plugins@.take(i as int), os, ov),
        decreases plugins.len() - i,
    {
        assert(plugins@.take(i + 1).drop_last() =~= plugins@.take(i as int));
        let ghost before = views(out@);
        let p = &plugins[i];
        let supported = p.supported_os();
        if plugin_applies(&supported, os) {
            let probes = p.probes();
            let outs = if i < outcomes.len() {
                &outcomes[i]
            } else {
                &no_outcomes
            };
            assert(opt_data_views(outs@) == outcomes_of(ov, i as int));
            let found = collect_results(&probes, outs);
            if found.len() > 0 {
                let mut comps = p.extract(found.as_slice());
                let ghost added = comps@;
                out.append(&mut comps);
                assert(views(out@) =~= before + views(added));
            } else {
                assert(views(out@) =~= before + Seq::<ComponentView>::empty());
            }
        } else {
            assert(views(out@) =~= before + Seq::<ComponentView>::empty());
        }
        i = i + 1;
    }
    assert(plugins@.take(plugins.len() as int) =~= plugins@);
    out
}

/// The plugins compiled into the agent.
pub enum BuiltinPlugin {
    WindowsRegistry(WindowsRegistryPlugin),
    Rhel(RhelPlugin),
    Debian(DebianPlugin),
}

impl Plugin for BuiltinPlugin {
    open spec fn spec_name(&self) -> Seq<char> {
        match self {
            BuiltinPlugin::WindowsRegistry(p) => p.spec_name(),
            BuiltinPlugin::Rhel(p) => p.spec_name(),
            BuiltinPlugin::Debian(p) => p.spec_name(),
        }
    }

    open spec fn spec_supported_os(&self) -> Option<Seq<Os>> {
        match self {
            BuiltinPlugin::WindowsRegistry(p) => p.spec_supported_os(),
            BuiltinPlugin::Rhel(p) => p.spec_supported_os(),
            BuiltinPlugin::Debian(p) => p.spec_supported_os(),
        }
    }

    open spec fn spec_probes(&self) -> Seq<ProbeView> {
        match self {
            BuiltinPlugin::WindowsRegistry(p) => p.spec_probes(),
            BuiltinPlugin::Rhel(p) => p.spec_probes(),
            BuiltinPlugin::Debian(p) => p.spec_probes(),
        }
    }

    open spec fn spec_extract(&self, found: Seq<ProbeResultView>) -> Seq<ComponentView> {
        match self {
            BuiltinPlugin::WindowsRegistry(p) => p.spec_extract(found),
            BuiltinPlugin::Rhel(p) => p.spec_extract(found),
            BuiltinPlugin::Debian(p) => p.spec_extract(found),
        }
    }

    fn name(&self) -> (r: &str) {
        match self {
            BuiltinPlugin::WindowsRegistry(p) => p.name(),
            BuiltinPlugin::Rhel(p) => p.name(),
            BuiltinPlugin::Debian(p) => p.name(),
        }
    }

    fn supported_os(&self) -> (r: Option<Vec<Os>>) {
        match self {
            BuiltinPlugin::WindowsRegistry(p) => p.supported_os(),
            BuiltinPlugin::Rhel(p) => p.supported_os(),
            BuiltinPlugin::Debian(p) => p.supported_os(),
        }
    }

    fn probes(&self) -> (r: Vec<Probe>) {
        match self {
            BuiltinPlugin::WindowsRegistry(p) => p.probes(),
            BuiltinPlugin::Rhel(p) => p.probes(),
            BuiltinPlugin::Debian(p) => p.probes(),
        }
    }

    fn extract(&self, found_probes: &[ProbeResult]) -> (r: Vec<SoftwareComponent>) {
        match self {
            BuiltinPlugin::WindowsRegistry(p) => p.extract(found_probes),
            BuiltinPlugin::Rhel(p) => p.extract(found_probes),
            BuiltinPlugin::Debian(p) => p.extract(found_probes),
        }
    }
}

/// The registry: the Windows registry scanner, then RPM, then Debian.
pub fn get_plugins() -> (r: Vec<BuiltinPlugin>)
    ensures
        r@ == seq![
            BuiltinPlugin::WindowsRegistry(WindowsRegistryPlugin),
            BuiltinPlugin::Rhel(RhelPlugin),
            BuiltinPlugin::Debian(DebianPlugin),
        ],
{
    let v = vec![
        BuiltinPlugin::WindowsRegistry(WindowsRegistryPlugin),
        BuiltinPlugin::Rhel(RhelPlugin),
        BuiltinPlugin::Debian(DebianPlugin),
    ];
    assert(v@ =~= seq![
        BuiltinPlugin::WindowsRegistry(WindowsRegistryPlugin),
        BuiltinPlugin::Rhel(RhelPlugin),
        BuiltinPlugin::Debian(DebianPlugin),
    ]);
    v
}

} // verus!
