//! The entities shared by plugins and the engine, with their mathematical views.
use vstd::prelude::*;

verus! {

/// The platform the host runs.
#[derive(PartialEq, Eq, Structural, Clone, Copy, Debug)]
pub enum Os {
    Linux,
    Windows,
    MacOS,
    Unknown,
}

/// Where a file probe looks for its marker.
#[derive(Debug)]
pub enum FileLocation {
    /// A full absolute path to the file (e.g. "/etc/hosts").
    AbsolutePath(String),
    /// A path relative to the working directory of the agent.
    RelativePath(String),
    /// A binary name looked up in each directory of `PATH` (e.g. "nginx").
    Path(String),
}

/// One discovery action a plugin wants performed.
#[derive(Debug)]
pub enum Probe {
    /// Check that a file exists.
    File(FileLocation),
    /// Enumerate the children of a registry key (Windows only).
    WindowsRegistry(String),
    /// Run a shell command and keep its output when it succeeds.
    Command(String),
}

/// The fields of one child of an uninstall registry key.
#[derive(Debug)]
pub struct RegistryEntry {
    pub display_name: Option<String>,
    pub display_version: Option<String>,
    pub publisher: Option<String>,
}

/// What a successful probe found.
#[derive(Debug)]
pub enum ProbeData {
    /// The path of the file that was found.
    File(String),
    /// The standard output of the command.
    CommandOutput(String),
    /// The entries read under the registry key.
    RegistryEntries(Vec<RegistryEntry>),
}

/// A successful probe together with what it found.
#[derive(Debug)]
pub struct ProbeResult {
    pub probe: Probe,
    pub data: ProbeData,
}

/// A package URL held as plain values: `pkg:<ty>/<namespace>/<name>@<version>?<qualifiers>`.
#[derive(Debug)]
pub struct Purl {
    pub ty: String,
    pub namespace: Option<String>,
    pub name: String,
    pub version: Option<String>,
    pub qualifiers: Vec<(String, String)>,
}

/// One piece of installed software.
#[derive(Debug)]
pub enum SoftwareComponent {
    Purl(Purl),
    WindowsComponent { name: String, version: String, publisher: Option<String> },
}

pub enum FileLocationView {
    AbsolutePath(Seq<char>),
    RelativePath(Seq<char>),
    Path(Seq<char>),
}

pub enum ProbeView {
    File(FileLocationView),
    WindowsRegistry(Seq<char>),
    Command(Seq<char>),
}

pub struct RegistryEntryView {
    pub display_name: Option<Seq<char>>,
    pub display_version: Option<Seq<char>>,
    pub publisher: Option<Seq<char>>,
}

pub enum ProbeDataView {
    File(Seq<char>),
    CommandOutput(Seq<char>),
    RegistryEntries(Seq<RegistryEntryView>),
}

pub struct ProbeResultView {
    pub probe: ProbeView,
    pub data: ProbeDataView,
}

pub struct PurlView {
    pub ty: Seq<char>,
    pub namespace: Option<Seq<char>>,
    pub name: Seq<char>,
    pub version: Option<Seq<char>>,
    pub qualifiers: Seq<(Seq<char>, Seq<char>)>,
}

pub enum ComponentView {
    Purl(PurlView),
    WindowsComponent { name: Seq<char>, version: Seq<char>, publisher: Option<Seq<char>> },
}

pub open spec fn opt_str_view(o: Option<String>) -> Option<Seq<char>> {
    match o {
        Some(s) => Some(s@),
        None => None,
    }
}

pub open spec fn pair_view(p: (String, String)) -> (Seq<char>, Seq<char>) {
    (p.0@, p.1@)
}

impl View for FileLocation {
    type V = FileLocationView;

    open spec fn view(&self) -> FileLocationView {
        match self {
            FileLocation::AbsolutePath(p) => FileLocationView::AbsolutePath(p@),
            FileLocation::RelativePath(p) => FileLocationView::RelativePath(p@),
            FileLocation::Path(p) => FileLocationView::Path(p@),
        }
    }
}

impl View for Probe {
    type V = ProbeView;

    open spec fn view(&self) -> ProbeView {
        match self {
            Probe::File(l) => ProbeView::File(l@),
            Probe::WindowsRegistry(k) => ProbeView::WindowsRegistry(k@),
            Probe::Command(c) => ProbeView::Command(c@),
        }
    }
}

impl View for RegistryEntry {
    type V = RegistryEntryView;

    open spec fn view(&self) -> RegistryEntryView {
        RegistryEntryView {
            display_name: opt_str_view(self.display_name),
            display_version: opt_str_view(self.display_version),
            publisher: opt_str_view(self.publisher),
        }
    }
}

impl View for ProbeData {
    type V = ProbeDataView;

    open spec fn view(&self) -> ProbeDataView {
        match self {
            ProbeData::File(p) => ProbeDataView::File(p@),
            ProbeData::CommandOutput(o) => ProbeDataView::CommandOutput(o@),
            ProbeData::RegistryEntries(es) => ProbeDataView::RegistryEntries(
                es@.map_values(|e: RegistryEntry| e@),
            ),
        }
    }
}

impl View for ProbeResult {
    type V = ProbeResultView;

    open spec fn view(&self) -> ProbeResultView {
        ProbeResultView { probe: self.probe@, data: self.data@ }
    }
}

impl View for Purl {
    type V = PurlView;

    open spec fn view(&self) -> PurlView {
        PurlView {
            ty: self.ty@,
            namespace: opt_str_view(self.namespace),
            name: self.name@,
            version: opt_str_view(self.version),
            qualifiers: self.qualifiers@.map_values(|q: (String, String)| pair_view(q)),
        }
    }
}

impl View for SoftwareComponent {
    type V = ComponentView;

    open spec fn view(&self) -> ComponentView {
        match self {
            SoftwareComponent::Purl(p) => ComponentView::Purl(p@),
            SoftwareComponent::WindowsComponent { name, version, publisher } => {
                ComponentView::WindowsComponent {
                    name: name@,
                    version: version@,
                    publisher: opt_str_view(*publisher),
                }
            },
        }
    }
}

/// The views of a sequence of values, in order.
pub open spec fn views<T: View>(s: Seq<T>) -> Seq<T::V> {
    s.map_values(|x: T| x@)
}

/// The concatenation of `f` over `s`, in order.
pub open spec fn concat_map<A, B>(s: Seq<A>, f: spec_fn(A) -> Seq<B>) -> Seq<B>
    decreases s.len(),
{
    if s.len() == 0 {
        Seq::empty()
    } else {
        concat_map(s.drop_last(), f) + f(s.last())
    }
}

/// One more element extends the concatenation by its image.
pub proof fn lemma_concat_map_push<A, B>(s: Seq<A>, f: spec_fn(A) -> Seq<B>, i: int)
    requires
        0 <= i < s.len(),
    ensures
        concat_map(s.take(i + 1), f) == concat_map(s.take(i), f) + f(s[i]),
{
    assert(s.take(i + 1).drop_last() =~= s.take(i));
}

impl Clone for FileLocation {
    fn clone(&self) -> (r: Self)
        ensures
            r == *self,
    {
        match self {
            FileLocation::AbsolutePath(p) => FileLocation::AbsolutePath(p.clone()),
            FileLocation::RelativePath(p) => FileLocation::RelativePath(p.clone()),
            FileLocation::Path(p) => FileLocation::Path(p.clone()),
        }
    }
}

impl Clone for Probe {
    fn clone(&self) -> (r: Self)
        ensures
            r == *self,
    {
        match self {
            Probe::File(l) => Probe::File(l.clone()),
            Probe::WindowsRegistry(k) => Probe::WindowsRegistry(k.clone()),
            Probe::Command(c) => Probe::Command(c.clone()),
        }
    }
}

impl Clone for RegistryEntry {
    fn clone(&self) -> (r: Self)
        ensures
            r == *self,
    {
        RegistryEntry {
            display_name: clone_opt_string(&self.display_name),
            display_version: clone_opt_string(&self.display_version),
            publisher: clone_opt_string(&self.publisher),
        }
    }
}

impl Clone for ProbeData {
    fn clone(&self) -> (r: Self)
        ensures
            r@ == self@,
    {
        match self {
            ProbeData::File(p) => ProbeData::File(p.clone()),
            ProbeData::CommandOutput(o) => ProbeData::CommandOutput(o.clone()),
            ProbeData::RegistryEntries(es) => {
                let mut copy: Vec<RegistryEntry> = Vec::new();
                let mut i: usize = 0;
                while i < es.len()
                    invariant
                        i <= es.len(),
                        copy@ == es@.take(i as int),
                    decreases es.len() - i,
                {
                    copy.push(es[i].clone());
                    assert(copy@ =~= es@.take(i + 1));
                    i = i + 1;
                }
                assert(copy@ =~= es@);
                ProbeData::RegistryEntries(copy)
            },
        }
    }
}

/// A copy of an optional string with the same contents.
pub fn clone_opt_string(o: &Option<String>) -> (r: Option<String>)
    ensures
        r == *o,
{
    match o {
        Some(s) => Some(s.clone()),
        None => None,
    }
}

} // verus!
