//! Plain text utilities over character sequences: pattern matching at a
//! position, whitespace trimming, digit runs and decimal values, and
//! substring containment. These are the building blocks of the outline
//! grammar and of the code-fence stripper.

use vstd::prelude::*;

verus! {

/// Does `p` occur in `s` starting at index `i`?
pub open spec fn starts_with_at(s: Seq<char>, p: Seq<char>, i: int) -> bool {
    0 <= i && i + p.len() <= s.len() && s.subrange(i, i + p.len()) == p
}

/// Does `needle` occur anywhere in `hay` as a contiguous run?
pub open spec fn contains_seq(hay: Seq<char>, needle: Seq<char>) -> bool {
    exists|i: int| starts_with_at(hay, needle, i)
}

/// Compare `p` against the characters of `s` at position `i`.
pub fn match_at(s: &str, p: &str, i: usize) -> (r: bool)
    requires
        i <= s@.len(),
    ensures
        r == starts_with_at(s@, p@, i as int),
{
    let n = s.unicode_len();
    let m = p.unicode_len();
    if m > n - i {
        return false;
    }
    let mut j: usize = 0;
    while j < m
        invariant
            0 <= j <= m,
            i + m <= n,
            n == s@.len(),
            m == p@.len(),
            forall|k: int| 0 <= k < j ==> s@[i + k] == p@[k],
        decreases m - j,
    {
        if s.get_char(i + j) != p.get_char(j) {
            assert(s@.subrange(i as int, i + m) != p@) by {
                assert(s@.subrange(i as int, i + m)[j as int] != p@[j as int]);
            }
            return false;
        }
        j += 1;
    }
    assert(s@.subrange(i as int, i + m) =~= p@);
    true
}

/// Whitespace, for this library's purposes: space, tab, carriage return and
/// line feed.
pub open spec fn is_white(c: char) -> bool {
    c == ' ' || c == '\t' || c == '\r' || c == '\n'
}

/// Check one character for whitespace.
pub fn white(c: char) -> (r: bool)
    ensures
        r == is_white(c),
{
    c == ' ' || c == '\t' || c == '\r' || c == '\n'
}

/// `s` with leading whitespace removed.
pub open spec fn trim_front(s: Seq<char>) -> Seq<char>
    decreases s.len(),
{
    if s.len() > 0 && is_white(s.first()) {
        trim_front(s.drop_first())
    } else {
        s
    }
}

/// `s` with trailing whitespace removed.
pub open spec fn trim_back(s: Seq<char>) -> Seq<char>
    decreases s.len(),
{
    if s.len() > 0 && is_white(s.last()) {
        trim_back(s.drop_last())
    } else {
        s
    }
}

/// `s` with whitespace removed at both ends.
pub open spec fn trimmed(s: Seq<char>) -> Seq<char> {
    trim_back(trim_front(s))
}

/// If the first `k` characters are white and the one after them (if any) is
/// not, trimming the front drops exactly those `k`.
proof fn lemma_trim_front_skip(s: Seq<char>, k: int)
    requires
        0 <= k <= s.len(),
        forall|j: int| 0 <= j < k ==> is_white(s[j]),
        k < s.len() ==> !is_white(s[k]),
    ensures
        trim_front(s) =~= s.subrange(k, s.len() as int),
    decreases k,
{
    if k == 0 {
        if s.len() > 0 {
            assert(!is_white(s.first()));
        }
        assert(trim_front(s) =~= s.subrange(0, s.len() as int));
    } else {
        assert(is_white(s.first()));
        lemma_trim_front_skip(s.drop_first(), k - 1);
        assert(s.drop_first().subrange(k - 1, s.drop_first().len() as int) =~= s.subrange(
            k,
            s.len() as int,
        ));
    }
}

/// If the last `s.len() - k` characters are white and the one before them
/// (if any) is not, trimming the back keeps exactly the first `k`.
proof fn lemma_trim_back_skip(s: Seq<char>, k: int)
    requires
        0 <= k <= s.len(),
        forall|j: int| k <= j < s.len() ==> is_white(s[j]),
        k > 0 ==> !is_white(s[k - 1]),
    ensures
        trim_back(s) =~= s.subrange(0, k),
    decreases s.len() - k,
{
    if k == s.len() {
        if s.len() > 0 {
            assert(!is_white(s.last()));
        }
        assert(trim_back(s) =~= s.subrange(0, k));
    } else {
        assert(is_white(s.last()));
        lemma_trim_back_skip(s.drop_last(), k);
    }
}

/// Remove whitespace at both ends of `s`.
pub fn trim(s: &str) -> (r: String)
    ensures
        r@ == trimmed(s@),
{
    let n = s.unicode_len();
    let mut a: usize = 0;
    while a < n && white(s.get_char(a))
        invariant
            0 <= a <= n,
            n == s@.len(),
            forall|j: int| 0 <= j < a ==> is_white(s@[j]),
        decreases n - a,
    {
        a += 1;
    }
    proof {
        lemma_trim_front_skip(s@, a as int);
    }
    let mut b: usize = n;
    while b > a && white(s.get_char(b - 1))
        invariant
            a <= b <= n,
            n == s@.len(),
            forall|j: int| b <= j < n ==> is_white(s@[j]),
        decreases b,
    {
        b -= 1;
    }
    let ghost front = s@.subrange(a as int, n as int);
    proof {
        lemma_trim_back_skip(front, b - a);
        assert(front.subrange(0, b - a) =~= s@.subrange(a as int, b as int));
    }
    let piece = s.substring_char(a, b);
    String::from_str(piece)
}

/// Is `c` a decimal digit?
pub open spec fn is_digit(c: char) -> bool {
    '0' <= c && c <= '9'
}

/// Check one character for a decimal digit.
pub fn digit(c: char) -> (r: bool)
    ensures
        r == is_digit(c),
{
    '0' <= c && c <= '9'
}

/// The length of the run of decimal digits in `s` starting at `i`.
pub open spec fn digit_run_len(s: Seq<char>, i: int) -> int
    decreases s.len() - i,
{
    if 0 <= i < s.len() && is_digit(s[i]) {
        1 + digit_run_len(s, i + 1)
    } else {
        0
    }
}

/// Find the end of the run of decimal digits starting at `i`.
pub fn scan_digits(s: &str, i: usize) -> (j: usize)
    requires
        i <= s@.len(),
    ensures
        i + digit_run_len(s@, i as int) == j,
        i <= j <= s@.len(),
        forall|k: int| i <= k < j ==> is_digit(s@[k]),
{
    let n = s.unicode_len();
    let mut j: usize = i;
    while j < n && digit(s.get_char(j))
        invariant
            i <= j <= n,
            n == s@.len(),
            forall|k: int| i <= k < j ==> is_digit(s@[k]),
        decreases n - j,
    {
        j += 1;
    }
    proof {
        lemma_digit_run_skip(s@, i as int, j as int);
    }
    j
}

/// A digit run covers exactly the digits that stand between `i` and the
/// first non-digit at or after `i`.
proof fn lemma_digit_run_skip(s: Seq<char>, i: int, j: int)
    requires
        0 <= i <= j <= s.len(),
        forall|k: int| i <= k < j ==> is_digit(s[k]),
        j < s.len() ==> !is_digit(s[j]),
    ensures
        digit_run_len(s, i) == j - i,
    decreases j - i,
{
    if i < j {
        lemma_digit_run_skip(s, i + 1, j);
    }
}

/// The value of a big-endian string of decimal digits.
pub open spec fn dec_val(s: Seq<char>) -> nat
    decreases s.len(),
{
    if s.len() == 0 {
        0
    } else {
        dec_val(s.drop_last()) * 10 + (s.last() as nat - '0' as nat) as nat
    }
}

/// Powers of ten.
pub open spec fn pow10(n: nat) -> nat
    decreases n,
{
    if n == 0 {
        1
    } else {
        10 * pow10((n - 1) as nat)
    }
}

/// A string of `n` decimal digits denotes a value below `10^n`.
proof fn lemma_dec_val_bound(s: Seq<char>)
    requires
        forall|j: int| 0 <= j < s.len() ==> is_digit(s[j]),
    ensures
        dec_val(s) < pow10(s.len()),
    decreases s.len(),
{
    if s.len() > 0 {
        lemma_dec_val_bound(s.drop_last());
    }
}

/// The value of the digit run `s[from..to]`, read as a decimal number.
/// At most nineteen digits always fit in a `u64`.
pub fn parse_decimal(s: &str, from: usize, to: usize) -> (r: u64)
    requires
        from <= to <= s@.len(),
        to - from <= 19,
        forall|k: int| from <= k < to ==> is_digit(s@[k]),
    ensures
        r as nat == dec_val(s@.subrange(from as int, to as int)),
{
    proof {
        lemma_dec_val_bound(s@.subrange(from as int, to as int));
        reveal_with_fuel(pow10, 20);
    }
    let mut acc: u64 = 0;
    let mut k: usize = from;
    while k < to
        invariant
            from <= k <= to <= s@.len(),
            to - from <= 19,
            forall|j: int| from <= j < to ==> is_digit(s@[j]),
            acc as nat == dec_val(s@.subrange(from as int, k as int)),
            (acc as nat) < pow10((k - from) as nat),
        decreases to - k,
    {
        proof {
            reveal_with_fuel(pow10, 20);
            lemma_pow10_mono((k - from) as nat, 18);
            assert(pow10(18) == 1000000000000000000) by {
                reveal_with_fuel(pow10, 20);
            }
        }
        let c = s.get_char(k);
        let d: u64 = (c as u32 as u64) - 48;
        assert(is_digit(s@[k as int]));
        assert(d <= 9);
        let new_acc: u64 = acc * 10 + d;
        proof {
            let pre = s@.subrange(from as int, k as int);
            let post = s@.subrange(from as int, k + 1);
            assert(post.drop_last() =~= pre);
            assert(post.last() == s@[k as int]);
        }
        acc = new_acc;
        k += 1;
    }
    proof {
        assert(s@.subrange(from as int, k as int) =~= s@.subrange(from as int, to as int));
    }
    acc
}

/// Powers of ten grow with the exponent.
proof fn lemma_pow10_mono(a: nat, b: nat)
    requires
        a <= b,
    ensures
        pow10(a) <= pow10(b),
    decreases b,
{
    if a < b {
        lemma_pow10_mono(a, (b - 1) as nat);
        assert(pow10(b) == 10 * pow10((b - 1) as nat));
    }
}

/// The length of the run of whitespace in `s` starting at `i`.
pub open spec fn white_run_len(s: Seq<char>, i: int) -> int
    decreases s.len() - i,
{
    if 0 <= i < s.len() && is_white(s[i]) {
        1 + white_run_len(s, i + 1)
    } else {
        0
    }
}

/// A whitespace run covers exactly the white characters that stand between
/// `i` and the first other character at or after `i`.
proof fn lemma_white_run_skip(s: Seq<char>, i: int, j: int)
    requires
        0 <= i <= j <= s.len(),
        forall|k: int| i <= k < j ==> is_white(s[k]),
        j < s.len() ==> !is_white(s[j]),
    ensures
        white_run_len(s, i) == j - i,
    decreases j - i,
{
    if i < j {
        lemma_white_run_skip(s, i + 1, j);
    }
}

/// Find the end of the run of whitespace starting at `i`.
pub fn scan_white(s: &str, i: usize) -> (j: usize)
    requires
        i <= s@.len(),
    ensures
        i + white_run_len(s@, i as int) == j,
        i <= j <= s@.len(),
        forall|k: int| i <= k < j ==> is_white(s@[k]),
{
    let n = s.unicode_len();
    let mut j: usize = i;
    while j < n && white(s.get_char(j))
        invariant
            i <= j <= n,
            n == s@.len(),
            forall|k: int| i <= k < j ==> is_white(s@[k]),
        decreases n - j,
    {
        j += 1;
    }
    proof {
        lemma_white_run_skip(s@, i as int, j as int);
    }
    j
}

/// The position of the first line feed in `s`, or `s.len()` if none.
pub open spec fn first_nl(s: Seq<char>) -> nat
    decreases s.len(),
{
    if s.len() == 0 {
        0
    } else if s.first() == '\n' {
        0
    } else {
        (1 + first_nl(s.drop_first())) as nat
    }
}

/// The first line feed stands exactly at the first position that holds one.
proof fn lemma_first_nl_skip(s: Seq<char>, j: int)
    requires
        0 <= j <= s.len(),
        forall|k: int| 0 <= k < j ==> s[k] != '\n',
        j < s.len() ==> s[j] == '\n',
    ensures
        first_nl(s) == j,
    decreases j,
{
    if s.len() == 0 {
    } else if j == 0 {
    } else {
        lemma_first_nl_skip(s.drop_first(), j - 1);
    }
}

proof fn lemma_first_nl_bounds(s: Seq<char>)
    ensures
        first_nl(s) <= s.len(),
    decreases s.len(),
{
    if s.len() > 0 && s.first() != '\n' {
        lemma_first_nl_bounds(s.drop_first());
    }
}

/// The lines of `s`: the pieces between line feeds, the separators not
/// included. The empty text has one empty line, and a trailing line feed
/// yields a final empty line.
pub open spec fn spec_lines(s: Seq<char>) -> Seq<Seq<char>>
    decreases s.len(),
{
    if first_nl(s) >= s.len() {
        seq![s]
    } else {
        seq![s.subrange(0, first_nl(s) as int)] + spec_lines(
            s.subrange(first_nl(s) as int + 1, s.len() as int),
        )
    }
}

/// The views of a sequence of strings.
pub open spec fn line_views(ss: Seq<String>) -> Seq<Seq<char>> {
    ss.map_values(|l: String| l@)
}

/// Appending a string appends its view.
pub proof fn lemma_line_views_push(pre: Seq<String>, e: String)
    ensures
        line_views(pre.push(e)) == line_views(pre).push(e@),
{
    assert(line_views(pre.push(e)) =~~= line_views(pre).push(e@));
}

/// Split `s` into its lines.
pub fn split_lines(s: &str) -> (r: Vec<String>)
    ensures
        line_views(r@) =~~= spec_lines(s@),
{
    let n = s.unicode_len();
    let mut r: Vec<String> = Vec::new();
    let mut start: usize = 0;
    let mut i: usize = 0;
    proof {
        assert(s@.subrange(0, n as int) =~= s@);
    }
    while i < n
        invariant
            0 <= start <= i <= n,
            n == s@.len(),
            forall|k: int| start <= k < i ==> s@[k] != '\n',
            spec_lines(s@) =~~= line_views(r@) + spec_lines(
                s@.subrange(start as int, n as int),
            ),
        decreases n - i,
    {
        if s.get_char(i) == '\n' {
            let ghost rest = s@.subrange(start as int, n as int);
            proof {
                lemma_first_nl_skip(rest, i - start);
                assert(rest.subrange(0, i - start) =~= s@.subrange(start as int, i as int));
                assert(rest.subrange(i - start + 1, rest.len() as int) =~= s@.subrange(
                    i + 1,
                    n as int,
                ));
            }
            let piece = s.substring_char(start, i);
            let ghost prev = r@;
            let owned = String::from_str(piece);
            proof {
                lemma_line_views_push(prev, owned);
            }
            r.push(owned);
            start = i + 1;
        }
        i += 1;
    }
    let ghost rest = s@.subrange(start as int, n as int);
    proof {
        lemma_first_nl_skip(rest, rest.len() as int);
    }
    let piece = s.substring_char(start, n);
    let ghost prev = r@;
    let owned = String::from_str(piece);
    proof {
        lemma_line_views_push(prev, owned);
    }
    r.push(owned);
    r
}

/// The decimal digit character for `d` (below ten).
pub open spec fn dec_digit(d: nat) -> char {
    ((48 + d) as u8) as char
}

/// The decimal numeral of `n`, most significant digit first.
pub open spec fn dec_str(n: nat) -> Seq<char>
    decreases n,
{
    if n < 10 {
        seq![dec_digit(n)]
    } else {
        dec_str(n / 10).push(dec_digit(n % 10))
    }
}

/// One decimal digit as text.
fn digit_text(d: u64) -> (r: &'static str)
    requires
        d < 10,
    ensures
        r@ == seq![dec_digit(d as nat)],
{
    proof {
        reveal_strlit("0");
        reveal_strlit("1");
        reveal_strlit("2");
        reveal_strlit("3");
        reveal_strlit("4");
        reveal_strlit("5");
        reveal_strlit("6");
        reveal_strlit("7");
        reveal_strlit("8");
        reveal_strlit("9");
    }
    if d == 0 {
        "0"
    } else if d == 1 {
        "1"
    } else if d == 2 {
        "2"
    } else if d == 3 {
        "3"
    } else if d == 4 {
        "4"
    } else if d == 5 {
        "5"
    } else if d == 6 {
        "6"
    } else if d == 7 {
        "7"
    } else if d == 8 {
        "8"
    } else {
        "9"
    }
}

/// Write `n` in decimal.
pub fn u64_to_string(n: u64) -> (r: String)
    ensures
        r@ == dec_str(n as nat),
    decreases n,
{
    if n < 10 {
        String::from_str(digit_text(n))
    } else {
        let mut s = u64_to_string(n / 10);
        s.append(digit_text(n % 10));
        proof {
            assert(s@ =~= dec_str((n / 10) as nat) + seq![dec_digit((n % 10) as nat)]);
            assert(dec_str(n as nat) =~= dec_str((n / 10) as nat).push(
                dec_digit((n % 10) as nat),
            ));
        }
        s
    }
}

/// `s` with every leading repetition of `p` removed.
pub open spec fn strip_prefix_reps(s: Seq<char>, p: Seq<char>) -> Seq<char>
    decreases s.len(),
{
    if p.len() > 0 && starts_with_at(s, p, 0) && s.len() >= p.len() {
        strip_prefix_reps(s.subrange(p.len() as int, s.len() as int), p)
    } else {
        s
    }
}

/// `s` with every trailing repetition of `p` removed.
pub open spec fn strip_suffix_reps(s: Seq<char>, p: Seq<char>) -> Seq<char>
    decreases s.len(),
{
    if p.len() > 0 && s.len() >= p.len() && starts_with_at(s, p, s.len() - p.len()) {
        strip_suffix_reps(s.subrange(0, s.len() - p.len()), p)
    } else {
        s
    }
}

/// What remains of generated HTML once code fences are stripped: leading
/// ```html fences, then trailing ``` fences, then surrounding whitespace.
pub open spec fn spec_strip_fences(s: Seq<char>) -> Seq<char> {
    trimmed(strip_suffix_reps(strip_prefix_reps(s, "```html"@), "```"@))
}

/// Strip code-fence wrapping from a generated answer: every leading
/// occurrence of ```html, every trailing occurrence of ```, and the
/// whitespace around what remains.
pub fn strip_code_fences(s: &str) -> (r: String)
    ensures
        r@ == spec_strip_fences(s@),
{
    proof {
        reveal_strlit("```html");
        reveal_strlit("```");
    }
    let n = s.unicode_len();
    let mut start: usize = 0;
    proof {
        assert(s@.subrange(0, n as int) =~= s@);
    }
    while n - start >= 7 && match_at(s, "```html", start)
        invariant
            0 <= start <= n,
            n == s@.len(),
            strip_prefix_reps(s@, "```html"@) == strip_prefix_reps(
                s@.subrange(start as int, n as int),
                "```html"@,
            ),
        decreases n - start,
    {
        proof {
            reveal_strlit("```html");
            let rest = s@.subrange(start as int, n as int);
            assert(rest.subrange(0, 7) =~= s@.subrange(start as int, start + 7));
            assert(starts_with_at(rest, "```html"@, 0));
            assert(rest.subrange(7, rest.len() as int) =~= s@.subrange(start + 7, n as int));
        }
        start += 7;
    }
    proof {
        let rest = s@.subrange(start as int, n as int);
        if rest.len() >= 7 && starts_with_at(rest, "```html"@, 0) {
            assert(rest.subrange(0, 7) =~= s@.subrange(start as int, start + 7));
            assert(starts_with_at(s@, "```html"@, start as int));
            assert(false);
        }
        assert(strip_prefix_reps(rest, "```html"@) == rest);
    }
    let ghost mid = s@.subrange(start as int, n as int);
    let mut end: usize = n;
    proof {
        assert(s@.subrange(start as int, end as int) =~= mid);
    }
    while end - start >= 3 && match_at(s, "```", end - 3)
        invariant
            start <= end <= n,
            n == s@.len(),
            mid == s@.subrange(start as int, n as int),
            strip_suffix_reps(mid, "```"@) == strip_suffix_reps(
                s@.subrange(start as int, end as int),
                "```"@,
            ),
        decreases end,
    {
        proof {
            reveal_strlit("```");
            let rest = s@.subrange(start as int, end as int);
            assert(rest.subrange(rest.len() - 3, rest.len() as int) =~= s@.subrange(
                end - 3,
                end as int,
            ));
            assert(starts_with_at(rest, "```"@, rest.len() - 3));
            assert(rest.subrange(0, rest.len() - 3) =~= s@.subrange(start as int, end - 3));
        }
        end -= 3;
    }
    proof {
        let rest = s@.subrange(start as int, end as int);
        if rest.len() >= 3 && starts_with_at(rest, "```"@, rest.len() - 3) {
            assert(rest.subrange(rest.len() - 3, rest.len() as int) =~= s@.subrange(
                end - 3,
                end as int,
            ));
            assert(starts_with_at(s@, "```"@, end - 3));
            assert(false);
        }
        assert(strip_suffix_reps(rest, "```"@) == rest);
    }
    let piece = s.substring_char(start, end);
    trim(piece)
}

/// Compare two pieces of text character by character.
pub fn str_eq(a: &str, b: &str) -> (r: bool)
    ensures
        r == (a@ == b@),
{
    let n = a.unicode_len();
    let m = b.unicode_len();
    if n != m {
        proof {
            assert(a@ != b@);
        }
        return false;
    }
    let mut i: usize = 0;
    while i < n
        invariant
            0 <= i <= n,
            n == a@.len(),
            n == b@.len(),
            forall|k: int| 0 <= k < i ==> a@[k] == b@[k],
        decreases n - i,
    {
        if a.get_char(i) != b.get_char(i) {
            return false;
        }
        i += 1;
    }
    proof {
        assert(a@ =~= b@);
    }
    true
}

} // verus!
