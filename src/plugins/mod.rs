//! The built-in plugins, and the line-oriented extraction that the two package
//! database plugins share.
use vstd::prelude::*;

pub mod debian;
pub mod rhel;
pub mod windows;

pub use debian::DebianPlugin;
pub use rhel::RhelPlugin;
pub use windows::WindowsRegistryPlugin;

use crate::model::{
    concat_map, lemma_concat_map_push, views, ComponentView, ProbeData, ProbeDataView,
    ProbeResult, ProbeResultView, SoftwareComponent,
};
use crate::text::{lines_of, split_lines, string_views};

verus! {

/// The line format of a package database query.
#[derive(PartialEq, Eq, Structural, Clone, Copy, Debug)]
pub enum LineFormat {
    /// `name|version|architecture`
    Dpkg,
    /// `name|version|release|arch`
    Rpm,
}

pub open spec fn line_components(format: LineFormat, line: Seq<char>) -> Seq<ComponentView> {
    match format {
        LineFormat::Dpkg => debian::deb_line_components(line),
        LineFormat::Rpm => rhel::rpm_line_components(line),
    }
}

/// The components of one probe result: the lines of a command's output, each
/// parsed on its own; any other kind of result gives none.
pub open spec fn result_line_components(format: LineFormat, r: ProbeResultView) -> Seq<ComponentView> {
    match r.data {
        ProbeDataView::CommandOutput(out) => concat_map(
            lines_of(out),
            |l: Seq<char>| line_components(format, l),
        ),
        _ => Seq::empty(),
    }
}

pub open spec fn extract_lines_spec(format: LineFormat, found: Seq<ProbeResultView>) -> Seq<ComponentView> {
    concat_map(found, |r: ProbeResultView| result_line_components(format, r))
}

pub open spec fn opt_component_seq(c: Option<SoftwareComponent>) -> Seq<ComponentView> {
    match c {
        Some(c) => seq![c@],
        None => Seq::empty(),
    }
}

fn line_component(format: LineFormat, line: &str) -> (r: Option<SoftwareComponent>)
    ensures
        opt_component_seq(r) == line_components(format, line@),
{
    match format {
        LineFormat::Dpkg => debian::deb_line_component(line),
        LineFormat::Rpm => rhel::rpm_line_component(line),
    }
}

/// Parses every line of every command output among `found`, in order, skipping
/// lines that do not parse.
pub fn extract_lines(format: LineFormat, found: &[ProbeResult]) -> (r: Vec<SoftwareComponent>)
    ensures
        views(r@) == extract_lines_spec(format, views(found@)),
{
    let mut out: Vec<SoftwareComponent> = Vec::new();
    let ghost fv = views(found@);
    let ghost f = |r: ProbeResultView| result_line_components(format, r);
    let mut i: usize = 0;
    assert(fv.take(0) =~= Seq::<ProbeResultView>::empty());
    while i < found.len()
        invariant
            i <= found.len(),
            fv == views(found@),
            f == (|r: ProbeResultView| result_line_components(format, r)),
            views(out@) == concat_map(fv.take(i as int), f),
        decreases found.len() - i,
    {
        proof {
            lemma_concat_map_push(fv, f, i as int);
        }
        let ghost before = views(out@);
        match &found[i].data {
            ProbeData::CommandOutput(text) => {
                let lines = split_lines(text.as_str());
                let ghost lv = string_views(lines@);
                let ghost g = |l: Seq<char>| line_components(format, l);
                let mut j: usize = 0;
                assert(lv.take(0) =~= Seq::<Seq<char>>::empty());
                assert(before + concat_map(lv.take(0), g) =~= before);
                while j < lines.len()
                    invariant
                        j <= lines.len(),
                        lv == string_views(lines@),
                        g == (|l: Seq<char>| line_components(format, l)),
                        views(out@) == before + concat_map(lv.take(j as int), g),
                    decreases lines.len() - j,
                {
                    proof {
                        lemma_concat_map_push(lv, g, j as int);
                    }
                    let ghost mid = views(out@);
                    match line_component(format, lines[j].as_str()) {
                        Some(c) => {
                            out.push(c);
                            assert(views(out@) =~= mid + seq![c@]);
                        },
                        None => {},
                    }
                    assert(views(out@) =~= before + concat_map(lv.take(j + 1), g));
                    j = j + 1;
                }
                assert(lv.take(lv.len() as int) =~= lv);
                assert(fv[i as int] == found@[i as int]@);
            },
            _ => {
                assert(fv[i as int] == found@[i as int]@);
                assert(views(out@) =~= before + f(fv[i as int]));
            },
        }
        i = i + 1;
    }
    assert(fv.take(fv.len() as int) =~= fv);
    out
}

} // verus!
