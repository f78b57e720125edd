//! The application root: the two table instances and the backing row source.
//! The backing source is an immutable sequence of text lines, split once from
//! a static text asset; line `i` of the asset (0-indexed) becomes row `i`.
use vstd::prelude::*;
use vstd::string::*;

use crate::filter::FilterTable;
use crate::log::LogTable;

verus! {

/// The static text asset behind the log table. Lines are opaque to the
/// engine: they are displayed, never re-tokenized.
pub const TEXT: &'static str = "service booting, reading configuration\n2026-01-07 09:14:02 INFO  listener bound on port 8080\n2026-01-07 09:14:02 INFO  worker pool started with 4 threads\n2026-01-07 09:14:03 DEBUG cache warmed, 1182 entries\n2026-01-07 09:14:05 INFO  accepted connection from 10.0.0.17\n2026-01-07 09:14:05 DEBUG request GET /index took 12ms\n2026-01-07 09:14:06 WARN  slow query on table sessions, 412ms\n2026-01-07 09:14:08 INFO  accepted connection from 10.0.0.31\n2026-01-07 09:14:08 DEBUG request GET /static/app.js took 3ms\n2026-01-07 09:14:09 INFO  checkpoint written, 2041 records\n2026-01-07 09:14:11 ERROR upstream timed out after 2000ms\n2026-01-07 09:14:11 INFO  retrying upstream, attempt 2\n2026-01-07 09:14:12 INFO  upstream recovered\n2026-01-07 09:14:15 DEBUG request POST /login took 48ms\n2026-01-07 09:14:15 INFO  session opened for user 3121\n2026-01-07 09:14:18 DEBUG request GET /inbox took 22ms\n2026-01-07 09:14:21 WARN  memory use above 80 percent\n2026-01-07 09:14:24 INFO  compaction started\n2026-01-07 09:14:26 INFO  compaction finished in 1744ms\n2026-01-07 09:14:29 DEBUG request GET /index took 9ms\n2026-01-07 09:14:31 INFO  session closed for user 3121\n2026-01-07 09:14:33 INFO  idle, awaiting connections\n";

/// Index of the first line break in `s`, or `s.len()` when there is none.
pub open spec fn first_nl(s: Seq<char>) -> int
    decreases s.len(),
{
    if s.len() == 0 {
        0
    } else if s[0] == '\n' {
        0
    } else {
        1 + first_nl(s.drop_first())
    }
}

pub proof fn lemma_first_nl_bounds(s: Seq<char>)
    ensures
        0 <= first_nl(s) <= s.len(),
    decreases s.len(),
{
    if s.len() == 0 {
    } else if s[0] == '\n' {
    } else {
        lemma_first_nl_bounds(s.drop_first());
    }
}

/// `first_nl` is exactly the first position holding a line break: no break
/// before `i`, and a break at `i` unless `i` is the length.
pub proof fn lemma_first_nl_is(s: Seq<char>, i: int)
    requires
        0 <= i <= s.len(),
        forall|k: int| 0 <= k < i ==> s[k] != '\n',
        i < s.len() ==> s[i] == '\n',
    ensures
        first_nl(s) == i,
    decreases s.len(),
{
    if s.len() == 0 {
    } else if s[0] == '\n' {
        assert(i == 0);
    } else {
        assert(i >= 1);
        let t = s.drop_first();
        assert forall|k: int| 0 <= k < i - 1 implies t[k] != '\n' by {
            assert(t[k] == s[k + 1]);
        }
        assert(i - 1 < t.len() ==> t[i - 1] == s[i]);
        lemma_first_nl_is(t, i - 1);
    }
}

/// A line segment with a trailing carriage return removed: a break written
/// as carriage return plus line feed counts as one line ending.
pub open spec fn strip_cr(l: Seq<char>) -> Seq<char> {
    if l.len() > 0 && l.last() == '\r' {
        l.drop_last()
    } else {
        l
    }
}

/// The lines of a text: split at each line feed, with a carriage return
/// immediately before the line feed stripped, and with no empty final line
/// when the text ends in a line ending.
pub open spec fn spec_lines(s: Seq<char>) -> Seq<Seq<char>>
    decreases s.len() via spec_lines_decreases
{
    if s.len() == 0 {
        Seq::empty()
    } else if first_nl(s) == s.len() {
        seq![s]
    } else {
        seq![strip_cr(s.subrange(0, first_nl(s)))] + spec_lines(
            s.subrange(first_nl(s) + 1, s.len() as int),
        )
    }
}

#[via_fn]
proof fn spec_lines_decreases(s: Seq<char>) {
    lemma_first_nl_bounds(s);
}

/// The views of a sequence of string slices.
pub open spec fn views_of(ts: Seq<&str>) -> Seq<Seq<char>> {
    ts.map_values(|t: &str| t@)
}

/// Splits a text into its lines, exactly as `spec_lines` describes them.
pub fn split_lines<'a>(s: &'a str) -> (r: Vec<&'a str>)
    ensures
        views_of(r@) == spec_lines(s@),
{
    let n: usize = s.unicode_len();
    let mut out: Vec<&'a str> = Vec::new();
    let mut start: usize = 0;
    let mut j: usize = 0;
    proof {
        assert(s@.subrange(0, n as int) =~= s@);
        assert(views_of(out@) + spec_lines(s@) =~= spec_lines(s@));
    }
    while j < n
        invariant
            start <= j <= n,
            n == s@.len(),
            forall|k: int| start <= k < j ==> s@[k] != '\n',
            views_of(out@) + spec_lines(s@.subrange(start as int, n as int)) == spec_lines(s@),
        decreases n - j,
    {
        let c = s.get_char(j);
        if c == '\n' {
            let piece: &'a str = if j > start && s.get_char(j - 1) == '\r' {
                s.substring_char(start, j - 1)
            } else {
                s.substring_char(start, j)
            };
            proof {
                let t = s@.subrange(start as int, n as int);
                assert forall|k: int| 0 <= k < j - start implies t[k] != '\n' by {
                    assert(t[k] == s@[start + k]);
                }
                assert(t[j - start] == s@[j as int]);
                lemma_first_nl_is(t, j - start);
                assert(spec_lines(t) == seq![strip_cr(t.subrange(0, j - start))] + spec_lines(
                    t.subrange(j - start + 1, t.len() as int),
                ));
                let seg = s@.subrange(start as int, j as int);
                assert(t.subrange(0, j - start) =~= seg);
                assert(t.subrange(j - start + 1, t.len() as int) =~= s@.subrange(
                    j + 1,
                    n as int,
                ));
                if j > start && s@[j - 1] == '\r' {
                    assert(seg.last() == s@[j - 1]);
                    assert(seg.drop_last() =~= s@.subrange(start as int, j - 1));
                    assert(piece@ == strip_cr(seg));
                } else {
                    assert(piece@ == strip_cr(seg));
                }
            }
            let ghost out0 = out@;
            out.push(piece);
            proof {
                assert(views_of(out@) =~= views_of(out0).push(piece@));
                assert(views_of(out@) + spec_lines(s@.subrange(j + 1, n as int)) =~= views_of(
                    out0,
                ) + spec_lines(s@.subrange(start as int, n as int)));
            }
            start = j + 1;
        }
        j = j + 1;
    }
    if start < n {
        let piece = s.substring_char(start, n);
        proof {
            let t = s@.subrange(start as int, n as int);
            assert forall|k: int| 0 <= k < t.len() implies t[k] != '\n' by {
                assert(t[k] == s@[start + k]);
            }
            lemma_first_nl_is(t, t.len() as int);
            assert(spec_lines(t) == seq![t]);
        }
        let ghost out0 = out@;
        out.push(piece);
        proof {
            assert(views_of(out@) =~= views_of(out0).push(piece@));
            assert(views_of(out@) =~= views_of(out0) + spec_lines(
                s@.subrange(start as int, n as int),
            ));
        }
    } else {
        proof {
            assert(s@.subrange(start as int, n as int) =~= Seq::<char>::empty());
            assert(views_of(out@) + spec_lines(Seq::<char>::empty()) =~= views_of(out@));
        }
    }
    out
}

/// The backing row source of the log table: the lines of the static asset,
/// in order, row `i` holding line `i`.
pub fn lines_text() -> (r: Vec<&'static str>)
    ensures
        views_of(r@) == spec_lines(TEXT@),
{
    split_lines(TEXT)
}

/// The application root: one log table over the backing row source and one
/// filter table over its synthetic row range, with no shared state.
pub struct TextAnalysisTool {
    pub log_table: LogTable,
    pub filter_table: FilterTable,
}

impl Default for TextAnalysisTool {
    /// Both tables start fresh: forward order, empty selections, no pending
    /// scroll targets.
    fn default() -> (t: TextAnalysisTool)
        ensures
            t.log_table.selection@ == Set::<usize>::empty(),
            t.log_table.scroll_to_row is None,
            !t.log_table.reversed,
            t.filter_table.selection@ == Set::<usize>::empty(),
            t.filter_table.scroll_to_row is None,
            !t.filter_table.reversed,
    {
        TextAnalysisTool { log_table: Default::default(), filter_table: Default::default() }
    }
}

} // verus!
