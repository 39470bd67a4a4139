//! The outline grammar. A generated outline is freeform text in which a
//! chapter is announced by a marker line
//!
//! ```text
//! ### Chapter <number>: <title>
//! ```
//!
//! immediately followed (when present) by a duration line
//!
//! ```text
//! **Estimated Duration:** <minutes> minutes
//! ```
//!
//! and by zero or more bullet lines (`* ...`) that form the chapter's
//! summary, up to the next marker line or the end of the text. Parsing is
//! tolerant: a missing or non-numeric duration defaults to 0 (as does one
//! of more than nineteen digits), a chapter without bullet lines has an
//! empty summary, and a trailing chapter lacking its duration or bullets is
//! completed with those defaults rather than dropped. Chapters are returned
//! in order of appearance, even if their numbers are out of order.

use vstd::prelude::*;

use crate::text::{
    dec_val, digit_run_len, line_views, match_at, parse_decimal, scan_digits, scan_white,
    spec_lines, split_lines, starts_with_at, trim, trimmed, white_run_len,
};

verus! {

/// One parsed outline entry: a chapter title, its estimated duration in
/// minutes, and the bullet-point summary in markdown.
#[derive(Clone, Debug)]
pub struct ChapterOutline {
    pub title: String,
    pub estimated_duration: u64,
    pub summary: String,
}

/// The mathematical value of a parsed outline entry.
#[verifier::ext_equal]
pub ghost struct ChapterOutlineView {
    pub title: Seq<char>,
    pub estimated_duration: u64,
    pub summary: Seq<char>,
}

impl View for ChapterOutline {
    type V = ChapterOutlineView;

    open spec fn view(&self) -> ChapterOutlineView {
        ChapterOutlineView {
            title: self.title@,
            estimated_duration: self.estimated_duration,
            summary: self.summary@,
        }
    }
}

/// The views of a sequence of parsed entries.
pub open spec fn entry_views(cs: Seq<ChapterOutline>) -> Seq<ChapterOutlineView> {
    cs.map_values(|c: ChapterOutline| c@)
}

/// Appending an entry appends its view.
pub proof fn lemma_entry_views_push(pre: Seq<ChapterOutline>, e: ChapterOutline)
    ensures
        entry_views(pre.push(e)) == entry_views(pre).push(e@),
{
    assert(entry_views(pre.push(e)) =~= entry_views(pre).push(e@));
}

/// The text that announces a chapter.
pub open spec fn marker_prefix() -> Seq<char> {
    "### Chapter "@
}

/// The text that announces a chapter's estimated duration.
pub open spec fn duration_prefix() -> Seq<char> {
    "**Estimated Duration:**"@
}

/// How many digits follow the marker prefix on line `l`.
pub open spec fn marker_digits(l: Seq<char>) -> int {
    digit_run_len(l, marker_prefix().len() as int)
}

/// Is `l` a chapter marker line: the marker prefix, at least one digit,
/// then a colon?
pub open spec fn is_marker_line(l: Seq<char>) -> bool {
    &&& starts_with_at(l, marker_prefix(), 0)
    &&& marker_digits(l) >= 1
    &&& marker_prefix().len() + marker_digits(l) < l.len()
    &&& l[marker_prefix().len() + marker_digits(l)] == ':'
}

/// The title a marker line carries: everything after the colon, with
/// surrounding whitespace removed.
pub open spec fn marker_title(l: Seq<char>) -> Seq<char> {
    trimmed(l.subrange(marker_prefix().len() + marker_digits(l) + 1, l.len() as int))
}

/// The estimated duration a line carries: the digit run after the duration
/// prefix and any whitespace, or 0 when the line is not a duration line,
/// holds no digits there, or holds more than nineteen.
pub open spec fn duration_of_line(l: Seq<char>) -> u64 {
    if starts_with_at(l, duration_prefix(), 0) {
        let p = duration_prefix().len() as int;
        let w = white_run_len(l, p);
        let d = digit_run_len(l, p + w);
        if 1 <= d <= 19 {
            dec_val(l.subrange(p + w, p + w + d)) as u64
        } else {
            0
        }
    } else {
        0
    }
}

/// Is `l` a bullet line: an asterisk, a space, and at least one more
/// character?
pub open spec fn is_bullet_line(l: Seq<char>) -> bool {
    l.len() >= 3 && l[0] == '*' && l[1] == ' '
}

/// The bullet lines among `ls[from..to]`, in order.
pub open spec fn bullet_lines(ls: Seq<Seq<char>>, from: int, to: int) -> Seq<Seq<char>>
    decreases to - from,
{
    if from < 0 || from >= to || to > ls.len() {
        Seq::empty()
    } else if is_bullet_line(ls[from]) {
        seq![ls[from]] + bullet_lines(ls, from + 1, to)
    } else {
        bullet_lines(ls, from + 1, to)
    }
}

/// The given lines joined by single line feeds.
pub open spec fn join_nl(ls: Seq<Seq<char>>) -> Seq<char>
    decreases ls.len(),
{
    if ls.len() == 0 {
        Seq::empty()
    } else if ls.len() == 1 {
        ls[0]
    } else {
        join_nl(ls.drop_last()) + seq!['\n'] + ls.last()
    }
}

/// The indices of the marker lines among the first `i` lines, ascending.
pub open spec fn markers_upto(ls: Seq<Seq<char>>, i: int) -> Seq<int>
    decreases i,
{
    if i <= 0 {
        Seq::empty()
    } else if is_marker_line(ls[i - 1]) {
        markers_upto(ls, i - 1).push(i - 1)
    } else {
        markers_upto(ls, i - 1)
    }
}

/// The indices of all marker lines, ascending.
pub open spec fn outline_markers(ls: Seq<Seq<char>>) -> Seq<int> {
    markers_upto(ls, ls.len() as int)
}

/// The entry for the chapter announced on line `mi`, whose block runs up to
/// line `next` (the following marker, or the end).
pub open spec fn entry_at(ls: Seq<Seq<char>>, mi: int, next: int) -> ChapterOutlineView {
    ChapterOutlineView {
        title: marker_title(ls[mi]),
        estimated_duration: if mi + 1 < next {
            duration_of_line(ls[mi + 1])
        } else {
            0
        },
        summary: trimmed(join_nl(bullet_lines(ls, mi + 1, next))),
    }
}

/// What parsing an outline text yields: one entry per marker line, in order
/// of appearance.
pub open spec fn outline_view(text: Seq<char>) -> Seq<ChapterOutlineView> {
    let ls = spec_lines(text);
    let ms = outline_markers(ls);
    Seq::new(
        ms.len(),
        |k: int|
            entry_at(
                ls,
                ms[k],
                if k + 1 < ms.len() {
                    ms[k + 1]
                } else {
                    ls.len() as int
                },
            ),
    )
}

/// Check whether a line announces a chapter.
fn is_marker(line: &String) -> (r: bool)
    ensures
        r == is_marker_line(line@),
{
    proof {
        reveal_strlit("### Chapter ");
    }
    if !match_at(line.as_str(), "### Chapter ", 0) {
        return false;
    }
    let d_end = scan_digits(line.as_str(), 12);
    if d_end == 12 {
        return false;
    }
    d_end < line.as_str().unicode_len() && line.as_str().get_char(d_end) == ':'
}

/// Extract the title from a marker line.
fn title_of_marker(line: &String) -> (r: String)
    requires
        is_marker_line(line@),
    ensures
        r@ == marker_title(line@),
{
    proof {
        reveal_strlit("### Chapter ");
    }
    let d_end = scan_digits(line.as_str(), 12);
    let n = line.as_str().unicode_len();
    let rest = line.as_str().substring_char(d_end + 1, n);
    trim(rest)
}

/// Check whether a line is a bullet line.
fn is_bullet(line: &String) -> (r: bool)
    ensures
        r == is_bullet_line(line@),
{
    let s = line.as_str();
    s.unicode_len() >= 3 && s.get_char(0) == '*' && s.get_char(1) == ' '
}

/// Extract the estimated duration from the line after a marker.
fn duration_of(line: &String) -> (r: u64)
    ensures
        r == duration_of_line(line@),
{
    proof {
        reveal_strlit("**Estimated Duration:**");
    }
    if !match_at(line.as_str(), "**Estimated Duration:**", 0) {
        return 0;
    }
    let w_end = scan_white(line.as_str(), 23);
    let d_end = scan_digits(line.as_str(), w_end);
    if d_end - w_end >= 1 && d_end - w_end <= 19 {
        parse_decimal(line.as_str(), w_end, d_end)
    } else {
        0
    }
}

/// The marker indices among the first `i` lines are in range, announce
/// chapters, and ascend.
proof fn lemma_markers_upto_props(ls: Seq<Seq<char>>, i: int)
    requires
        0 <= i <= ls.len(),
    ensures
        forall|k: int|
            0 <= k < markers_upto(ls, i).len() ==> 0 <= #[trigger] markers_upto(ls, i)[k] < i
                && is_marker_line(ls[markers_upto(ls, i)[k]]),
        forall|k: int|
            0 <= k < markers_upto(ls, i).len() - 1 ==> #[trigger] markers_upto(ls, i)[k]
                < markers_upto(ls, i)[k + 1],
    decreases i,
{
    if i > 0 {
        lemma_markers_upto_props(ls, i - 1);
        let prev = markers_upto(ls, i - 1);
        if is_marker_line(ls[i - 1]) {
            let ms = markers_upto(ls, i);
            assert(ms == prev.push(i - 1));
            assert forall|k: int| 0 <= k < ms.len() implies 0 <= #[trigger] ms[k] < i
                && is_marker_line(ls[ms[k]]) by {
                if k < prev.len() {
                    assert(ms[k] == prev[k]);
                }
            }
            assert forall|k: int| 0 <= k < ms.len() - 1 implies #[trigger] ms[k] < ms[k + 1] by {
                if k == prev.len() - 1 {
                    assert(prev[k] < i - 1);
                }
            }
        }
    }
}

/// Extending the right end of a bullet scan by one line appends that line
/// exactly when it is a bullet line.
proof fn lemma_bullets_extend(ls: Seq<Seq<char>>, from: int, j: int)
    requires
        0 <= from <= j < ls.len(),
    ensures
        bullet_lines(ls, from, j + 1) == bullet_lines(ls, from, j) + (if is_bullet_line(ls[j]) {
            seq![ls[j]]
        } else {
            Seq::empty()
        }),
    decreases j - from,
{
    if from == j {
        assert(bullet_lines(ls, from, j) == Seq::<Seq<char>>::empty());
        assert(bullet_lines(ls, j + 1, j + 1) == Seq::<Seq<char>>::empty());
        if is_bullet_line(ls[j]) {
            assert(bullet_lines(ls, from, j + 1) == seq![ls[j]] + bullet_lines(ls, j + 1, j + 1));
            assert(bullet_lines(ls, from, j + 1) =~~= Seq::<Seq<char>>::empty() + seq![ls[j]]);
        } else {
            assert(bullet_lines(ls, from, j + 1) == bullet_lines(ls, j + 1, j + 1));
            assert(bullet_lines(ls, from, j + 1) =~~= Seq::<Seq<char>>::empty()
                + Seq::<Seq<char>>::empty());
        }
    } else {
        lemma_bullets_extend(ls, from + 1, j);
        if is_bullet_line(ls[from]) {
            assert(bullet_lines(ls, from, j + 1) =~~= bullet_lines(ls, from, j) + (
            if is_bullet_line(ls[j]) {
                seq![ls[j]]
            } else {
                Seq::empty()
            }));
        } else {
            assert(bullet_lines(ls, from, j + 1) == bullet_lines(ls, from + 1, j + 1));
        }
    }
}

/// The tolerant outline parser.
pub struct OutlineParser;

/// Build the entry for the chapter announced on line `mi`, whose block runs
/// up to line `next`.
fn build_entry(lines: &Vec<String>, mi: usize, next: usize) -> (r: ChapterOutline)
    requires
        mi < next <= lines.len(),
        is_marker_line(line_views(lines@)[mi as int]),
    ensures
        r@ == entry_at(line_views(lines@), mi as int, next as int),
{
    let ghost ls = line_views(lines@);
    assert(ls[mi as int] == lines@[mi as int]@);
    let title = title_of_marker(&lines[mi]);
    let dur: u64 = if mi + 1 < next {
        assert(lines@[mi as int + 1]@ == ls[mi as int + 1]);
        duration_of(&lines[mi + 1])
    } else {
        0
    };
    let mut joined = String::new();
    let mut got = false;
    let mut j = mi + 1;
    proof {
        assert(bullet_lines(ls, mi + 1, mi + 1) == Seq::<Seq<char>>::empty());
    }
    while j < next
        invariant
            mi + 1 <= j <= next,
            next <= lines.len(),
            line_views(lines@) == ls,
            got == (bullet_lines(ls, mi + 1, j as int).len() > 0),
            joined@ == join_nl(bullet_lines(ls, mi + 1, j as int)),
        decreases next - j,
    {
        assert(lines@[j as int]@ == ls[j as int]);
        let ghost before = bullet_lines(ls, mi + 1, j as int);
        if is_bullet(&lines[j]) {
            if got {
                proof {
                    reveal_strlit("\n");
                }
                joined.append("\n");
                joined.append(lines[j].as_str());
                proof {
                    let after = bullet_lines(ls, mi + 1, j + 1);
                    lemma_bullets_extend(ls, mi + 1, j as int);
                    assert(after.drop_last() =~~= before);
                    assert("\n"@ =~= seq!['\n']);
                    assert(joined@ =~= join_nl(before) + seq!['\n'] + ls[j as int]);
                }
            } else {
                joined = lines[j].clone();
                got = true;
                proof {
                    let after = bullet_lines(ls, mi + 1, j + 1);
                    lemma_bullets_extend(ls, mi + 1, j as int);
                    assert(after =~~= seq![ls[j as int]]);
                    assert(join_nl(after) == ls[j as int]);
                }
            }
        } else {
            proof {
                lemma_bullets_extend(ls, mi + 1, j as int);
                assert(bullet_lines(ls, mi + 1, j + 1) =~~= before);
            }
        }
        j += 1;
    }
    let summary = trim(joined.as_str());
    ChapterOutline { title, estimated_duration: dur, summary }
}

/// The marker indices, as mathematical integers.
pub open spec fn mark_list(us: Seq<usize>) -> Seq<int> {
    us.map_values(|u: usize| u as int)
}

impl OutlineParser {
    /// Parse an outline text into its chapters, in order of appearance.
    #[verifier::rlimit(60)]
    pub fn parse(text: &str) -> (r: Vec<ChapterOutline>)
        ensures
            entry_views(r@) == outline_view(text@),
    {
        let lines = split_lines(text);
        let ghost ls = spec_lines(text@);
        proof {
            assert(line_views(lines@) =~~= ls);
        }
        let mut marks: Vec<usize> = Vec::new();
        let mut i: usize = 0;
        while i < lines.len()
            invariant
                0 <= i <= lines.len(),
                line_views(lines@) == ls,
                mark_list(marks@) =~= markers_upto(ls, i as int),
            decreases lines.len() - i,
        {
            assert(lines@[i as int]@ == ls[i as int]);
            let ghost prev_marks = marks@;
            if is_marker(&lines[i]) {
                marks.push(i);
                proof {
                    assert(mark_list(marks@) =~= mark_list(prev_marks).push(i as int));
                }
            }
            i += 1;
        }
        proof {
            assert(mark_list(marks@) =~= outline_markers(ls));
            lemma_markers_upto_props(ls, ls.len() as int);
        }
        let ghost ms = outline_markers(ls);
        let ghost ov = outline_view(text@);
        proof {
            assert(ov.len() == ms.len());
            assert forall|x: int| 0 <= x < ms.len() implies ov[x] == entry_at(
                ls,
                ms[x],
                if x + 1 < ms.len() {
                    ms[x + 1]
                } else {
                    ls.len() as int
                },
            ) by {
                assert(outline_view(text@)[x] == entry_at(
                    spec_lines(text@),
                    outline_markers(spec_lines(text@))[x],
                    if x + 1 < outline_markers(spec_lines(text@)).len() {
                        outline_markers(spec_lines(text@))[x + 1]
                    } else {
                        spec_lines(text@).len() as int
                    },
                ));
            }
        }
        let mut out: Vec<ChapterOutline> = Vec::new();
        let mut k: usize = 0;
        while k < marks.len()
            invariant
                0 <= k <= marks.len(),
                line_views(lines@) == ls,
                mark_list(marks@) =~= ms,
                marks@.len() == ms.len(),
                ov.len() == ms.len(),
                forall|x: int|
                    0 <= x < ms.len() ==> #[trigger] ov[x] == entry_at(
                        ls,
                        ms[x],
                        if x + 1 < ms.len() {
                            ms[x + 1]
                        } else {
                            ls.len() as int
                        },
                    ),
                forall|x: int|
                    0 <= x < ms.len() ==> 0 <= #[trigger] ms[x] < ls.len() && is_marker_line(
                        ls[ms[x]],
                    ),
                forall|x: int| 0 <= x < ms.len() - 1 ==> #[trigger] ms[x] < ms[x + 1],
                entry_views(out@) =~= ov.subrange(0, k as int),
            decreases marks.len() - k,
        {
            let mi = marks[k];
            let next = if k + 1 < marks.len() {
                marks[k + 1]
            } else {
                lines.len()
            };
            assert(mi as int == mark_list(marks@)[k as int]);
            assert(mi as int == ms[k as int]);
            let entry = build_entry(&lines, mi, next);
            assert(ov[k as int] == entry@);
            let ghost prev = out@;
            proof {
                lemma_entry_views_push(prev, entry);
            }
            out.push(entry);
            proof {
                assert(entry_views(out@) == entry_views(prev).push(entry@));
                assert(ov.subrange(0, k + 1) =~= ov.subrange(0, k as int).push(ov[k as int]));
                assert(entry_views(out@) =~= ov.subrange(0, k + 1));
            }
            k += 1;
        }
        proof {
            assert(ov.subrange(0, ms.len() as int) =~= ov);
        }
        out
    }
}

/// How many chapter marker lines an outline text holds.
pub open spec fn marker_count(text: Seq<char>) -> int {
    outline_markers(spec_lines(text)).len() as int
}

/// A well-formed outline text: every chapter marker line carries a
/// non-empty title.
pub open spec fn well_formed_outline(text: Seq<char>) -> bool {
    forall|j: int|
        0 <= j < spec_lines(text).len() && is_marker_line(#[trigger] spec_lines(text)[j])
            ==> marker_title(spec_lines(text)[j]).len() > 0
}

/// Parsing returns exactly one entry per chapter marker, in source order:
/// entry `k` is titled by the `k`-th marker line. On a well-formed outline
/// every title is non-empty.
pub proof fn lemma_parse_marker_entries(text: Seq<char>)
    ensures
        outline_view(text).len() == marker_count(text),
        forall|k: int|
            0 <= k < outline_view(text).len() ==> #[trigger] outline_view(text)[k].title
                == marker_title(spec_lines(text)[outline_markers(spec_lines(text))[k]]),
        well_formed_outline(text) ==> forall|k: int|
            0 <= k < outline_view(text).len() ==> #[trigger] outline_view(text)[k].title.len() > 0,
{
    let ls = spec_lines(text);
    lemma_markers_upto_props(ls, ls.len() as int);
}

/// An outline text with zero chapter markers parses to the empty sequence;
/// this is a reportable anomaly, not an error.
pub proof fn lemma_parse_empty_on_no_markers(text: Seq<char>)
    ensures
        marker_count(text) == 0 ==> outline_view(text).len() == 0,
{
}

} // verus!

