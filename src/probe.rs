//! The decisions around running a probe: where a file probe looks, which
//! registry tree a key names, how a command is run, and what of the outcome is kept.
//! The host itself is touched by the caller, which hands the observations back.
use vstd::prelude::*;

use crate::model::{
    views, FileLocation, FileLocationView, Os, ProbeData, ProbeDataView, RegistryEntry,
    RegistryEntryView,
};
use crate::text::{push_char, string_views};
use vstd::utf8::{decode_utf8, valid_utf8};

verus! {

/// `name` looked up in directory `dir`: an absolute name stands for itself, an
/// empty directory adds nothing, and a `/` separates the two unless `dir` already
/// ends with a separator.
pub open spec fn joined(dir: Seq<char>, name: Seq<char>) -> Seq<char> {
    if name.len() > 0 && name[0] == '/' {
        name
    } else if dir.len() == 0 {
        name
    } else if dir.last() == '/' || dir.last() == '\\' {
        dir + name
    } else {
        dir + seq!['/'] + name
    }
}

/// The paths a file probe checks, in order.
pub open spec fn candidate_paths(
    loc: FileLocationView,
    cwd: Option<Seq<char>>,
    path_dirs: Seq<Seq<char>>,
) -> Seq<Seq<char>> {
    match loc {
        FileLocationView::AbsolutePath(p) => seq![p],
        FileLocationView::RelativePath(p) => match cwd {
            Some(c) => seq![joined(c, p)],
            None => Seq::empty(),
        },
        FileLocationView::Path(bin) => path_dirs.map_values(|d: Seq<char>| joined(d, bin)),
    }
}

/// The first candidate that exists; `exists[k]` tells whether `candidates[k]` does.
pub open spec fn first_existing(candidates: Seq<Seq<char>>, exists: Seq<bool>) -> Option<Seq<char>>
    decreases candidates.len(),
{
    if candidates.len() == 0 || exists.len() == 0 {
        None
    } else if exists[0] {
        Some(candidates[0])
    } else {
        first_existing(candidates.drop_first(), exists.drop_first())
    }
}

pub open spec fn file_probe_outcome(candidates: Seq<Seq<char>>, exists: Seq<bool>) -> Option<
    ProbeDataView,
> {
    match first_existing(candidates, exists) {
        Some(p) => Some(ProbeDataView::File(p)),
        None => None,
    }
}

pub open spec fn opt_data_view(d: Option<ProbeData>) -> Option<ProbeDataView> {
    match d {
        Some(d) => Some(d@),
        None => None,
    }
}

/// `name` looked up in directory `dir`.
pub fn join_path(dir: &str, name: &str) -> (r: String)
    ensures
        r@ == joined(dir@, name@),
{
    let name_len = name.unicode_len();
    if name_len > 0 && name.get_char(0) == '/' {
        return name.to_owned();
    }
    let dir_len = dir.unicode_len();
    if dir_len == 0 {
        return name.to_owned();
    }
    let last = dir.get_char(dir_len - 1);
    let mut r = dir.to_owned();
    if last != '/' && last != '\\' {
        push_char(&mut r, '/');
    }
    r.append(name);
    r
}

/// The paths to check for a file probe: the path itself, the path under the
/// working directory (none where it is unknown), or the binary under each
/// directory of `PATH`.
pub fn file_candidates(loc: &FileLocation, cwd: &Option<String>, path_dirs: &Vec<String>) -> (r: Vec<
    String,
>)
    ensures
        string_views(r@) == candidate_paths(
            loc@,
            match cwd {
                Some(c) => Some(c@),
                None => None,
            },
            string_views(path_dirs@),
        ),
{
    let mut r: Vec<String> = Vec::new();
    match loc {
        FileLocation::AbsolutePath(p) => {
            r.push(p.clone());
            assert(string_views(r@) =~= seq![p@]);
        },
        FileLocation::RelativePath(p) => match cwd {
            Some(c) => {
                r.push(join_path(c.as_str(), p.as_str()));
                assert(string_views(r@) =~= seq![joined(c@, p@)]);
            },
            None => {
                assert(string_views(r@) =~= Seq::<Seq<char>>::empty());
            },
        },
        FileLocation::Path(bin) => {
            let ghost dv = string_views(path_dirs@);
            let mut i: usize = 0;
            while i < path_dirs.len()
                invariant
                    i <= path_dirs.len(),
                    dv == string_views(path_dirs@),
                    string_views(r@) == dv.take(i as int).map_values(
                        |d: Seq<char>| joined(d, bin@),
                    ),
                decreases path_dirs.len() - i,
            {
                let ghost prev = string_views(r@);
                let j = join_path(path_dirs[i].as_str(), bin.as_str());
                assert(dv[i as int] == path_dirs@[i as int]@);
                assert(j@ == joined(dv[i as int], bin@));
                r.push(j);
                assert(string_views(r@) =~= prev.push(joined(dv[i as int], bin@)));
                assert(dv.take(i + 1).map_values(|d: Seq<char>| joined(d, bin@)) =~= dv.take(
                    i as int,
                ).map_values(|d: Seq<char>| joined(d, bin@)).push(joined(dv[i as int], bin@)));
                assert(string_views(r@) =~= dv.take(i + 1).map_values(
                    |d: Seq<char>| joined(d, bin@),
                ));
                i = i + 1;
            }
            assert(dv.take(dv.len() as int) =~= dv);
        },
    }
    r
}

/// The result of a file probe: the first candidate that exists, if any.
pub fn resolve_file(candidates: &Vec<String>, exists: &Vec<bool>) -> (r: Option<ProbeData>)
    ensures
        opt_data_view(r) == file_probe_outcome(string_views(candidates@), exists@),
{
    let ghost cv = string_views(candidates@);
    let mut k: usize = 0;
    assert(cv.skip(0) =~= cv);
    assert(exists@.skip(0) =~= exists@);
    while k < candidates.len() && k < exists.len()
        invariant
            k <= candidates.len(),
            k <= exists.len(),
            cv == string_views(candidates@),
            first_existing(cv, exists@) == first_existing(cv.skip(k as int), exists@.skip(k as int)),
        decreases candidates.len() - k,
    {
        assert(cv.skip(k as int).drop_first() =~= cv.skip(k + 1));
        assert(exists@.skip(k as int).drop_first() =~= exists@.skip(k + 1));
        if exists[k] {
            return Some(ProbeData::File(candidates[k].clone()));
        }
        k = k + 1;
    }
    assert(cv.skip(k as int).len() == 0 || exists@.skip(k as int).len() == 0);
    None
}

/// The first candidate that exists is the `k`-th where the `k`-th exists and none before it does.
pub proof fn lemma_first_existing_at(candidates: Seq<Seq<char>>, exists: Seq<bool>, k: int)
    requires
        0 <= k < candidates.len(),
        k < exists.len(),
        exists[k],
        forall|j: int| 0 <= j < k ==> !exists[j],
    ensures
        first_existing(candidates, exists) == Some(candidates[k]),
    decreases k,
{
    if k > 0 {
        assert(!exists[0]);
        assert forall|j: int| 0 <= j < k - 1 implies !exists.drop_first()[j] by {
            assert(!exists[j + 1]);
        }
        lemma_first_existing_at(candidates.drop_first(), exists.drop_first(), k - 1);
    }
}

/// No candidate is found where none of them exists.
pub proof fn lemma_first_existing_none(candidates: Seq<Seq<char>>, exists: Seq<bool>)
    requires
        forall|j: int| 0 <= j < candidates.len() && j < exists.len() ==> !exists[j],
    ensures
        first_existing(candidates, exists) is None,
    decreases candidates.len(),
{
    if candidates.len() > 0 && exists.len() > 0 {
        assert(!exists[0]);
        assert forall|j: int|
            0 <= j < candidates.drop_first().len() && j < exists.drop_first().len() implies !exists.drop_first()[j] by {
            assert(!exists[j + 1]);
        }
        lemma_first_existing_none(candidates.drop_first(), exists.drop_first());
    }
}

/// A binary looked up on `PATH` is found in the first directory that holds it.
pub proof fn lemma_path_lookup_finds_first(
    bin: Seq<char>,
    cwd: Option<Seq<char>>,
    path_dirs: Seq<Seq<char>>,
    exists: Seq<bool>,
    k: int,
)
    requires
        0 <= k < path_dirs.len(),
        k < exists.len(),
        exists[k],
        forall|j: int| 0 <= j < k ==> !exists[j],
    ensures
        file_probe_outcome(candidate_paths(FileLocationView::Path(bin), cwd, path_dirs), exists)
            == Some(ProbeDataView::File(joined(path_dirs[k], bin))),
{
    lemma_first_existing_at(
        candidate_paths(FileLocationView::Path(bin), cwd, path_dirs),
        exists,
        k,
    );
}

/// A binary that no directory of `PATH` holds gives no result.
pub proof fn lemma_path_lookup_misses(
    bin: Seq<char>,
    cwd: Option<Seq<char>>,
    path_dirs: Seq<Seq<char>>,
    exists: Seq<bool>,
)
    requires
        forall|j: int| 0 <= j < path_dirs.len() && j < exists.len() ==> !exists[j],
    ensures
        file_probe_outcome(candidate_paths(FileLocationView::Path(bin), cwd, path_dirs), exists)
            is None,
{
    lemma_first_existing_none(candidate_paths(FileLocationView::Path(bin), cwd, path_dirs), exists);
}

/// A root hive of the registry.
#[derive(PartialEq, Eq, Structural, Clone, Copy, Debug)]
pub enum RegistryHive {
    /// `HKLM\`
    LocalMachine,
    /// `HKCU\`
    CurrentUser,
}

/// The hive and subkey that a registry probe's key names. Registry probes only
/// run on Windows, and a key without a known hive prefix or without a subkey
/// names nothing.
pub open spec fn registry_target(key: Seq<char>, os: Os) -> Option<(RegistryHive, Seq<char>)> {
    if os != Os::Windows || key.len() <= 5 {
        None
    } else if key.take(5) == seq!['H', 'K', 'L', 'M', '\\'] {
        Some((RegistryHive::LocalMachine, key.skip(5)))
    } else if key.take(5) == seq!['H', 'K', 'C', 'U', '\\'] {
        Some((RegistryHive::CurrentUser, key.skip(5)))
    } else {
        None
    }
}

/// Where a registry probe for `key` reads on `os`, if anywhere.
pub fn registry_key_target(key: &str, os: Os) -> (r: Option<(RegistryHive, String)>)
    ensures
        match r {
            Some((hive, sub)) => registry_target(key@, os) == Some((hive, sub@)),
            None => registry_target(key@, os) is None,
        },
{
    if os != Os::Windows {
        return None;
    }
    let n = key.unicode_len();
    if n <= 5 {
        return None;
    }
    let c0 = key.get_char(0);
    let c1 = key.get_char(1);
    let c2 = key.get_char(2);
    let c3 = key.get_char(3);
    let c4 = key.get_char(4);
    assert(key@.take(5) =~= seq![c0, c1, c2, c3, c4]);
    if c0 != 'H' || c1 != 'K' || c4 != '\\' {
        return None;
    }
    let hive = if c2 == 'L' && c3 == 'M' {
        RegistryHive::LocalMachine
    } else if c2 == 'C' && c3 == 'U' {
        RegistryHive::CurrentUser
    } else {
        return None;
    };
    let sub = key.substring_char(5, n).to_owned();
    Some((hive, sub))
}

/// The entries that have a display name, in order.
pub open spec fn named_entries(es: Seq<RegistryEntryView>) -> Seq<RegistryEntryView>
    decreases es.len(),
{
    if es.len() == 0 {
        Seq::empty()
    } else {
        let prev = named_entries(es.drop_last());
        if es.last().display_name is Some {
            prev.push(es.last())
        } else {
            prev
        }
    }
}

/// A registry probe finds something when at least one child has a display name.
pub open spec fn registry_outcome(es: Seq<RegistryEntryView>) -> Option<ProbeDataView> {
    let kept = named_entries(es);
    if kept.len() == 0 {
        None
    } else {
        Some(ProbeDataView::RegistryEntries(kept))
    }
}

/// The result of a registry probe whose key opened, from the entries of its children.
pub fn registry_probe_data(children: &Vec<RegistryEntry>) -> (r: Option<ProbeData>)
    ensures
        opt_data_view(r) == registry_outcome(views(children@)),
{
    let ghost cv = views(children@);
    let mut kept: Vec<RegistryEntry> = Vec::new();
    let mut i: usize = 0;
    assert(cv.take(0) =~= Seq::<RegistryEntryView>::empty());
    while i < children.len()
        invariant
            i <= children.len(),
            cv == views(children@),
            views(kept@) == named_entries(cv.take(i as int)),
        decreases children.len() - i,
    {
        assert(cv.take(i + 1).drop_last() =~= cv.take(i as int));
        let ghost prev = views(kept@);
        let child = &children[i];
        assert(cv[i as int] == child@);
        if child.display_name.is_some() {
            kept.push(child.clone());
            assert(views(kept@) =~= prev.push(child@));
        }
        i = i + 1;
    }
    assert(cv.take(cv.len() as int) =~= cv);
    if kept.len() == 0 {
        None
    } else {
        Some(ProbeData::RegistryEntries(kept))
    }
}

/// The program and arguments that run `command` through the platform shell.
pub fn shell_invocation(os: Os, command: &str) -> (r: (String, Vec<String>))
    ensures
        os == Os::Windows ==> r.0@ == "cmd"@ && string_views(r.1@) == seq!["/C"@, command@],
        os != Os::Windows ==> r.0@ == "sh"@ && string_views(r.1@) == seq!["-c"@, command@],
{
    let mut args: Vec<String> = Vec::new();
    let program = if os == Os::Windows {
        args.push(String::from_str("/C"));
        String::from_str("cmd")
    } else {
        args.push(String::from_str("-c"));
        String::from_str("sh")
    };
    args.push(command.to_owned());
    assert(string_views(args@) =~= seq![args@[0]@, command@]);
    (program, args)
}

/// The text that `String::from_utf8_lossy` makes of `bytes`.
pub uninterp spec fn lossy_utf8(bytes: Seq<u8>) -> Seq<char>;

/// Relies on String::from_utf8_lossy: decodes UTF-8, replacing invalid sequences;
/// valid UTF-8 comes back as the characters it encodes.
#[verifier::external_body]
fn decode_lossy(bytes: &[u8]) -> (r: String)
    ensures
        r@ == lossy_utf8(bytes@),
        valid_utf8(bytes@) ==> r@ == decode_utf8(bytes@),
{
    String::from_utf8_lossy(bytes).into_owned()
}

/// The result of a command probe: its decoded standard output where the
/// command succeeded, else nothing.
pub fn command_probe_data(succeeded: bool, stdout: &[u8]) -> (r: Option<ProbeData>)
    ensures
        opt_data_view(r) == (if succeeded {
            Some(ProbeDataView::CommandOutput(lossy_utf8(stdout@)))
        } else {
            None
        }),
{
    if succeeded {
        Some(ProbeData::CommandOutput(decode_lossy(stdout)))
    } else {
        None
    }
}

} // verus!
