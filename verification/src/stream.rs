//! Incremental decoding of streamed chat responses. The backend delivers
//! raw chunks in which the generated text stands in a `"text": "..."`
//! field; each chunk is scanned for the first such field, whose value runs
//! to the first unescaped quote (or to the chunk's end if the value is
//! truncated), and the value is unescaped and accumulated. Escapes `\n`,
//! `\t` and `\r` become their control characters; any other escaped
//! character stands for itself.

use vstd::prelude::*;

use crate::text::{match_at, starts_with_at};

verus! {

/// The field marker that announces the text of a chunk.
pub open spec fn text_marker() -> Seq<char> {
    "\"text\": \""@
}

/// The first position at or after `i` where `p` occurs in `s`, or
/// `s.len()` if there is none.
pub open spec fn first_match_from(s: Seq<char>, p: Seq<char>, i: int) -> int
    decreases s.len() - i + 1,
{
    if i < 0 || i + p.len() > s.len() {
        s.len() as int
    } else if starts_with_at(s, p, i) {
        i
    } else {
        first_match_from(s, p, i + 1)
    }
}

/// How many characters the field value spans, starting at `i`: up to the
/// first unescaped quote, a backslash always consuming the character after
/// it; a truncated value runs to the end.
pub open spec fn value_len(s: Seq<char>, i: int) -> int
    decreases s.len() - i,
{
    if i < 0 || i >= s.len() {
        0
    } else if s[i] == '"' {
        0
    } else if s[i] == '\\' && i + 1 < s.len() {
        2 + value_len(s, i + 2)
    } else {
        1 + value_len(s, i + 1)
    }
}

/// What an escaped character stands for.
pub open spec fn unescaped_char(c: char) -> char {
    if c == 'n' {
        '\n'
    } else if c == 't' {
        '\t'
    } else if c == 'r' {
        '\r'
    } else {
        c
    }
}

/// The unescaped form of a raw field value.
pub open spec fn spec_unescape(s: Seq<char>) -> Seq<char>
    decreases s.len(),
{
    if s.len() == 0 {
        Seq::empty()
    } else if s[0] == '\\' && s.len() >= 2 {
        seq![unescaped_char(s[1])] + spec_unescape(s.subrange(2, s.len() as int))
    } else {
        seq![s[0]] + spec_unescape(s.subrange(1, s.len() as int))
    }
}

/// The text fragment a chunk carries: the unescaped value of its first
/// `"text": "` field, or nothing if the chunk holds no such field.
pub open spec fn spec_fragment(chunk: Seq<char>) -> Option<Seq<char>> {
    let m = first_match_from(chunk, text_marker(), 0);
    if m + text_marker().len() <= chunk.len() {
        let start = m + text_marker().len();
        Some(spec_unescape(chunk.subrange(start, start + value_len(chunk, start))))
    } else {
        None
    }
}

/// A found match is a real occurrence, and no occurrence precedes it.
proof fn lemma_first_match_from(s: Seq<char>, p: Seq<char>, i: int, j: int)
    requires
        0 <= i <= j,
        j + p.len() <= s.len(),
        forall|k: int| i <= k < j ==> !starts_with_at(s, p, k),
        starts_with_at(s, p, j),
    ensures
        first_match_from(s, p, i) == j,
    decreases j - i,
{
    if i < j {
        lemma_first_match_from(s, p, i + 1, j);
    }
}

/// When no occurrence exists at or after `i`, the search runs to the end.
proof fn lemma_first_match_from_none(s: Seq<char>, p: Seq<char>, i: int)
    requires
        0 <= i,
        forall|k: int| i <= k && k + p.len() <= s.len() ==> !starts_with_at(s, p, k),
    ensures
        first_match_from(s, p, i) == s.len(),
    decreases s.len() - i + 1,
{
    if !(i + p.len() > s.len()) {
        lemma_first_match_from_none(s, p, i + 1);
    }
}

/// Check one character of an escape.
fn unescape_one(c: char) -> (r: char)
    ensures
        r == unescaped_char(c),
{
    if c == 'n' {
        '\n'
    } else if c == 't' {
        '\t'
    } else if c == 'r' {
        '\r'
    } else {
        c
    }
}

/// Relies on `String::from_iter` (through `collect`): collecting
/// characters yields the string of exactly those characters in order.
#[verifier::external_body]
fn string_from_chars(v: &Vec<char>) -> (r: String)
    ensures
        r@ == v@,
{
    v.iter().copied().collect()
}

/// Unescape the raw field value `s[from..to]`.
fn unescape_fragment(s: &str, from: usize, to: usize) -> (r: String)
    requires
        from <= to <= s@.len(),
    ensures
        r@ == spec_unescape(s@.subrange(from as int, to as int)),
{
    let mut out: Vec<char> = Vec::new();
    let mut j = from;
    while j < to
        invariant
            from <= j <= to <= s@.len(),
            spec_unescape(s@.subrange(from as int, to as int)) == out@ + spec_unescape(
                s@.subrange(j as int, to as int),
            ),
        decreases to - j,
    {
        let ghost rest = s@.subrange(j as int, to as int);
        let c = s.get_char(j);
        assert(rest[0] == s@[j as int]);
        if c == '\\' && j + 1 < to {
            let e = s.get_char(j + 1);
            assert(rest[1] == s@[j as int + 1]);
            out.push(unescape_one(e));
            proof {
                assert(rest.subrange(2, rest.len() as int) =~= s@.subrange(j + 2, to as int));
                assert(out@ + spec_unescape(s@.subrange(j + 2, to as int)) =~= (out@.drop_last()
                    + (seq![unescaped_char(rest[1])] + spec_unescape(
                    rest.subrange(2, rest.len() as int),
                ))));
            }
            j += 2;
        } else {
            out.push(c);
            proof {
                assert(rest.subrange(1, rest.len() as int) =~= s@.subrange(j + 1, to as int));
                assert(out@ + spec_unescape(s@.subrange(j + 1, to as int)) =~= (out@.drop_last()
                    + (seq![rest[0]] + spec_unescape(rest.subrange(1, rest.len() as int)))));
            }
            j += 1;
        }
    }
    proof {
        assert(spec_unescape(s@.subrange(to as int, to as int)) =~= Seq::<char>::empty());
        assert(spec_unescape(s@.subrange(from as int, to as int)) =~= out@);
    }
    string_from_chars(&out)
}

/// Find the first occurrence of the text marker in a chunk.
fn find_marker(chunk: &str) -> (r: Option<usize>)
    ensures
        match r {
            Some(mm) => first_match_from(chunk@, text_marker(), 0) == mm && mm
                + text_marker().len() <= chunk@.len(),
            None => first_match_from(chunk@, text_marker(), 0) == chunk@.len(),
        },
{
    proof {
        reveal_strlit("\"text\": \"");
    }
    let n = chunk.unicode_len();
    if n < 9 {
        proof {
            lemma_first_match_from_none(chunk@, text_marker(), 0);
        }
        return None;
    }
    let mut m: usize = 0;
    while m <= n - 9
        invariant
            0 <= m <= n - 9 + 1,
            n == chunk@.len(),
            n >= 9,
            forall|k: int| 0 <= k < m ==> !starts_with_at(chunk@, text_marker(), k),
        decreases n - m,
    {
        proof {
            reveal_strlit("\"text\": \"");
        }
        if match_at(chunk, "\"text\": \"", m) {
            proof {
                lemma_first_match_from(chunk@, text_marker(), 0, m as int);
            }
            return Some(m);
        }
        m += 1;
    }
    proof {
        lemma_first_match_from_none(chunk@, text_marker(), 0);
    }
    None
}

/// The incremental decoder: it accumulates the text fragments of the
/// chunks it is fed, in order.
#[derive(Debug)]
pub struct StreamDecoder {
    pub text: String,
}

impl StreamDecoder {
    /// A decoder with nothing accumulated.
    pub fn new() -> (r: StreamDecoder)
        ensures
            r.text@.len() == 0,
    {
        StreamDecoder { text: String::new() }
    }

    /// The text accumulated so far.
    pub fn accumulated(&self) -> (r: String)
        ensures
            r@ == self.text@,
    {
        self.text.clone()
    }

    /// Feed one raw chunk: its text fragment, if it has one, is returned
    /// and appended to the accumulated text; a chunk without a `"text": "`
    /// field changes nothing.
    pub fn feed(&mut self, chunk: &str) -> (r: Option<String>)
        ensures
            match spec_fragment(chunk@) {
                Some(f) => r is Some && r->Some_0@ == f && final(self).text@ == old(self).text@
                    + f,
                None => r is None && final(self).text@ == old(self).text@,
            },
    {
        proof {
            reveal_strlit("\"text\": \"");
        }
        let n = chunk.unicode_len();
        let mm = match find_marker(chunk) {
            Some(x) => x,
            None => {
                return None;
            },
        };
        let start = mm + 9;
        // Scan to the first unescaped quote, or the end of the chunk.
        let mut j = start;
        while j < n && chunk.get_char(j) != '"'
            invariant
                start <= j <= n,
                n == chunk@.len(),
                value_len(chunk@, start as int) == (j - start) + value_len(chunk@, j as int),
            decreases n - j,
        {
            if chunk.get_char(j) == '\\' && j + 1 < n {
                j += 2;
            } else {
                j += 1;
            }
        }
        proof {
            assert(value_len(chunk@, j as int) == 0);
            assert(j as int == start + value_len(chunk@, start as int));
        }
        let fragment = unescape_fragment(chunk, start, j);
        self.text.append(fragment.as_str());
        let echo = fragment.clone();
        Some(echo)
    }
}

} // verus!
