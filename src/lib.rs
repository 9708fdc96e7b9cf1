//! Software-inventory detection: plugins declare probes, the host runs them,
//! and each plugin turns what its probes found into software components.
use vstd::prelude::*;

pub mod model;
pub mod text;
pub mod purl;
pub mod plugin;
pub mod plugins;
pub mod engine;
pub mod probe;

pub use engine::{collect_results, get_plugins, plan_probes, plugin_applies, run_plugins, BuiltinPlugin};
pub use model::{
    FileLocation, Os, Probe, ProbeData, ProbeResult, Purl, RegistryEntry, SoftwareComponent,
};
pub use plugin::Plugin;
pub use plugins::{DebianPlugin, RhelPlugin, WindowsRegistryPlugin};
pub use probe::{
    command_probe_data, file_candidates, join_path, registry_key_target, registry_probe_data,
    resolve_file, shell_invocation, RegistryHive,
};
pub use text::{split_fields, split_lines};

verus! {

} // verus!
