//! Splitting tool output into lines and `|`-separated fields.
use vstd::prelude::*;

verus! {

/// The pieces of `s` between occurrences of `sep`; `n` separators give `n + 1` pieces.
pub open spec fn split_on(s: Seq<char>, sep: char) -> Seq<Seq<char>>
    decreases s.len(),
{
    if s.len() == 0 {
        seq![Seq::empty()]
    } else {
        let prev = split_on(s.drop_last(), sep);
        if s.last() == sep {
            prev.push(Seq::empty())
        } else {
            prev.update(prev.len() - 1, prev.last().push(s.last()))
        }
    }
}

pub proof fn lemma_split_on_nonempty(s: Seq<char>, sep: char)
    ensures
        split_on(s, sep).len() >= 1,
    decreases s.len(),
{
    if s.len() > 0 {
        lemma_split_on_nonempty(s.drop_last(), sep);
    }
}

/// A line without the carriage return that ended it.
pub open spec fn strip_cr(l: Seq<char>) -> Seq<char> {
    if l.len() > 0 && l.last() == '\r' {
        l.drop_last()
    } else {
        l
    }
}

/// The lines of `s`: each line ends at `\n` (a `\r` just before it is dropped), and
/// a last line without `\n` counts only when it is not empty.
pub open spec fn lines_of(s: Seq<char>) -> Seq<Seq<char>> {
    let pieces = split_on(s, '\n');
    let ended = pieces.drop_last().map_values(|l: Seq<char>| strip_cr(l));
    if pieces.last().len() == 0 {
        ended
    } else {
        ended.push(pieces.last())
    }
}

pub open spec fn string_views(v: Seq<String>) -> Seq<Seq<char>> {
    v.map_values(|s: String| s@)
}

/// Relies on String::push: appends one character at the end.
#[verifier::external_body]
pub(crate) fn push_char(s: &mut String, c: char)
    ensures
        final(s)@ == old(s)@.push(c),
{
    s.push(c)
}

/// Splits `line` at every `sep`, keeping empty pieces.
pub fn split_fields(line: &str, sep: char) -> (r: Vec<String>)
    ensures
        string_views(r@) == split_on(line@, sep),
{
    let mut fields: Vec<String> = Vec::new();
    let mut cur = String::new();
    let ghost text = line@;
    assert(text.take(0) =~= Seq::<char>::empty());
    for c in it: line.chars()
        invariant
            it.seq() == text,
            split_on(text.take(it.index() as int), sep) == string_views(fields@).push(cur@),
    {
        let ghost i = it.index() as int;
        proof {
            lemma_split_on_nonempty(text.take(i), sep);
            assert(text.take(i + 1).drop_last() =~= text.take(i));
        }
        if c == sep {
            let done = cur;
            fields.push(done);
            cur = String::new();
            assert(string_views(fields@).push(cur@) =~= split_on(text.take(i), sep).push(
                Seq::empty(),
            ));
        } else {
            push_char(&mut cur, c);
            assert(string_views(fields@).push(cur@) =~= split_on(text.take(i), sep).update(
                split_on(text.take(i), sep).len() - 1,
                split_on(text.take(i), sep).last().push(c),
            ));
        }
    }
    assert(text.take(text.len() as int) =~= text);
    fields.push(cur);
    assert(string_views(fields@) =~= split_on(text, sep));
    fields
}

/// The lines of `text`, as `str::lines` gives them.
pub fn split_lines(text: &str) -> (r: Vec<String>)
    ensures
        string_views(r@) == lines_of(text@),
{
    let mut lines: Vec<String> = Vec::new();
    let mut cur = String::new();
    let mut pending_cr: bool = false;
    let ghost s = text@;
    assert(s.take(0) =~= Seq::<char>::empty());
    for c in it: text.chars()
        invariant
            it.seq() == s,
            split_on(s.take(it.index() as int), '\n').drop_last().map_values(
                |l: Seq<char>| strip_cr(l),
            ) == string_views(lines@),
            split_on(s.take(it.index() as int), '\n').last() == (if pending_cr {
                cur@.push('\r')
            } else {
                cur@
            }),
            !pending_cr ==> cur@.len() == 0 || cur@.last() != '\r',
    {
        let ghost i = it.index() as int;
        let ghost prev = split_on(s.take(i), '\n');
        proof {
            lemma_split_on_nonempty(s.take(i), '\n');
            assert(s.take(i + 1).drop_last() =~= s.take(i));
        }
        if c == '\n' {
            assert(strip_cr(prev.last()) == cur@);
            let done = cur;
            lines.push(done);
            cur = String::new();
            pending_cr = false;
            assert(prev.push(Seq::empty()).drop_last() =~= prev);
            assert(prev.drop_last().push(prev.last()) =~= prev);
            assert(prev.map_values(|l: Seq<char>| strip_cr(l)) =~= prev.drop_last().map_values(
                |l: Seq<char>| strip_cr(l),
            ).push(strip_cr(prev.last())));
            assert(split_on(s.take(i + 1), '\n') == prev.push(Seq::empty()));
            assert(string_views(lines@) =~= prev.drop_last().map_values(
                |l: Seq<char>| strip_cr(l),
            ).push(strip_cr(prev.last())));
        } else {
            if pending_cr {
                push_char(&mut cur, '\r');
                pending_cr = false;
            }
            if c == '\r' {
                pending_cr = true;
            } else {
                push_char(&mut cur, c);
            }
            let ghost next = prev.update(prev.len() - 1, prev.last().push(c));
            assert(next.drop_last() =~= prev.drop_last());
        }
    }
    assert(s.take(s.len() as int) =~= s);
    if pending_cr {
        push_char(&mut cur, '\r');
    }
    if !cur.as_str().is_empty() {
        lines.push(cur);
    }
    assert(string_views(lines@) =~= lines_of(s));
    lines
}

} // verus!
