//! Character-level helpers over strings, stated over `Seq<char>` views.

use vstd::prelude::*;

verus! {

/// `pat` occurs in `text` starting at character index `i`.
pub open spec fn occurs_at(text: Seq<char>, pat: Seq<char>, i: int) -> bool {
    0 <= i && i + pat.len() <= text.len() && text.subrange(i, i + pat.len()) == pat
}

/// `pat` occurs somewhere in `text`.
pub open spec fn text_contains(text: Seq<char>, pat: Seq<char>) -> bool {
    exists|i: int| occurs_at(text, pat, i)
}

/// The index of the first `\n` at or after `k`, or the length of `t` when none follows.
pub open spec fn newline_from(t: Seq<char>, k: int) -> int
    decreases t.len() - k,
{
    if k < 0 || k >= t.len() {
        t.len() as int
    } else if t[k] == '\n' {
        k
    } else {
        newline_from(t, k + 1)
    }
}

/// The line from `k` up to the line feed at `e`, without a carriage return
/// just before that line feed; a last line with no line feed is kept whole.
pub open spec fn line_between(t: Seq<char>, k: int, e: int) -> Seq<char> {
    if e < t.len() && e > k && t[e - 1] == '\r' {
        t.subrange(k, e - 1)
    } else {
        t.subrange(k, e)
    }
}

/// The lines of `t` from index `k` on.
pub open spec fn lines_from(t: Seq<char>, k: int) -> Seq<Seq<char>>
    decreases t.len() + 1 - k,
{
    if k < 0 || k >= t.len() {
        Seq::empty()
    } else {
        let e = newline_from(t, k);
        let next: int = if k <= e <= t.len() { e + 1 } else { t.len() + 1int };
        seq![line_between(t, k, e)] + lines_from(t, next)
    }
}

/// The lines of a text: split at each `\n`, a `\r` right before it dropped,
/// and no empty line after a final line feed.
pub open spec fn lines_of(s: Seq<char>) -> Seq<Seq<char>> {
    lines_from(s, 0)
}

proof fn lemma_newline_from_bounds(t: Seq<char>, k: int)
    requires
        0 <= k <= t.len(),
    ensures
        k <= newline_from(t, k) <= t.len(),
        newline_from(t, k) < t.len() ==> t[newline_from(t, k)] == '\n',
    decreases t.len() - k,
{
    if k < t.len() && t[k] != '\n' {
        lemma_newline_from_bounds(t, k + 1);
    }
}

/// The words of a text, as `str::split_whitespace` splits it.
pub uninterp spec fn words_of(s: Seq<char>) -> Seq<Seq<char>>;

/// A text in lower case, as `str::to_lowercase` maps it.
pub uninterp spec fn lower_of(s: Seq<char>) -> Seq<char>;

/// A text without leading and trailing whitespace, as `str::trim` cuts it.
pub uninterp spec fn trimmed(s: Seq<char>) -> Seq<char>;

pub open spec fn strings_view(v: Vec<String>) -> Seq<Seq<char>> {
    v@.map_values(|s: String| s@)
}

pub open spec fn pairs_view(v: Vec<(String, String)>) -> Seq<(Seq<char>, Seq<char>)> {
    v@.map_values(|e: (String, String)| (e.0@, e.1@))
}

/// The first `\n` at or after `k`, or `t.len()`.
fn newline_index_from(t: &Vec<char>, k: usize) -> (r: usize)
    requires
        k <= t.len(),
    ensures
        r == newline_from(t@, k as int),
{
    let mut i: usize = k;
    while i < t.len()
        invariant
            k <= i <= t.len(),
            newline_from(t@, k as int) == newline_from(t@, i as int),
        decreases t.len() - i,
    {
        if t[i] == '\n' {
            return i;
        }
        i = i + 1;
    }
    i
}

/// The lines of `s`: split at each `\n`, a `\r` right before it dropped.
pub fn split_lines(s: &str) -> (r: Vec<String>)
    ensures
        strings_view(r) == lines_of(s@),
{
    let t = chars_of(s);
    let n = t.len();
    let mut lines: Vec<String> = Vec::new();
    let mut k: usize = 0;
    while k < n
        invariant
            n == t.len(),
            t@ == s@,
            k <= n,
            strings_view(lines) + lines_from(t@, k as int) == lines_of(s@),
        decreases n - k,
    {
        let e = newline_index_from(&t, k);
        proof {
            lemma_newline_from_bounds(t@, k as int);
        }
        let end: usize = if e < n && e > k && t[e - 1] == '\r' {
            e - 1
        } else {
            e
        };
        let line = substring(s, k, end);
        let ghost before = strings_view(lines);
        lines.push(line);
        proof {
            assert(line@ == line_between(t@, k as int, e as int));
            assert(strings_view(lines) =~= before.push(line@));
            assert(lines_from(t@, k as int) == seq![line@] + lines_from(t@, e + 1));
            assert(before + lines_from(t@, k as int) =~= before.push(line@) + lines_from(t@, e + 1));
        }
        if e == n {
            assert(lines_from(t@, e + 1) =~= Seq::<Seq<char>>::empty());
            assert(strings_view(lines) =~= strings_view(lines) + lines_from(t@, e + 1));
            return lines;
        }
        k = e + 1;
    }
    assert(lines_from(t@, k as int) =~= Seq::<Seq<char>>::empty());
    assert(strings_view(lines) =~= strings_view(lines) + lines_from(t@, k as int));
    lines
}

/// Relies on `str::split_whitespace`: the words of the text; they depend on
/// the text alone.
#[verifier::external_body]
pub(crate) fn split_words(s: &str) -> (r: Vec<String>)
    ensures
        strings_view(r) == words_of(s@),
{
    s.split_whitespace().map(|w| w.to_string()).collect()
}

/// Relies on `str::to_lowercase`: the result depends on the characters alone.
#[verifier::external_body]
pub(crate) fn lowercase(s: &str) -> (r: String)
    ensures
        r@ == lower_of(s@),
{
    s.to_lowercase()
}

/// Relies on `str::trim`: the result depends on the characters alone.
#[verifier::external_body]
pub(crate) fn trim(s: &str) -> (r: String)
    ensures
        r@ == trimmed(s@),
{
    s.trim().to_string()
}

/// A text in upper case, as `str::to_uppercase` maps it.
pub uninterp spec fn upper_of(s: Seq<char>) -> Seq<char>;

/// Relies on `str::to_uppercase`: the result depends on the characters alone.
#[verifier::external_body]
pub(crate) fn uppercase(s: &str) -> (r: String)
    ensures
        r@ == upper_of(s@),
{
    s.to_uppercase()
}

pub open spec fn is_digit(c: char) -> bool {
    '0' <= c <= '9'
}

/// The value of a sequence of decimal digits, most significant first.
pub open spec fn digits_value(d: Seq<char>) -> nat
    decreases d.len(),
{
    if d.len() == 0 {
        0
    } else {
        (digits_value(d.drop_last()) * 10 + (d.last() as u32 - '0' as u32)) as nat
    }
}

/// The digits of a decimal number: the text without one leading `+`.
pub open spec fn unsigned_digits(s: Seq<char>) -> Seq<char> {
    if s.len() > 0 && s[0] == '+' {
        s.drop_first()
    } else {
        s
    }
}

/// A decimal number as `usize` reads it: an optional `+`, then one or more
/// ASCII digits whose value fits in `usize`; `None` for anything else.
pub open spec fn usize_of(s: Seq<char>) -> Option<usize> {
    let d = unsigned_digits(s);
    if d.len() > 0 && (forall|i: int| 0 <= i < d.len() ==> is_digit(#[trigger] d[i]))
        && digits_value(d) <= usize::MAX {
        Some(digits_value(d) as usize)
    } else {
        None
    }
}

proof fn lemma_digits_value_grows(d: Seq<char>, i: int)
    requires
        0 <= i <= d.len(),
        forall|j: int| 0 <= j < d.len() ==> is_digit(#[trigger] d[j]),
    ensures
        digits_value(d.subrange(0, i)) <= digits_value(d),
    decreases d.len() - i,
{
    if i < d.len() {
        lemma_digits_value_grows(d, i + 1);
        assert(d.subrange(0, i + 1).drop_last() =~= d.subrange(0, i));
    } else {
        assert(d.subrange(0, i) =~= d);
    }
}

/// Reads a decimal number: an optional `+`, then ASCII digits whose value
/// fits in `usize`.
pub fn parse_usize(s: &str) -> (r: Option<usize>)
    ensures
        r == usize_of(s@),
{
    let chars = chars_of(s);
    let n = chars.len();
    let start: usize = if n > 0 && chars[0] == '+' { 1 } else { 0 };
    let ghost d = unsigned_digits(s@);
    assert(d =~= chars@.subrange(start as int, n as int));
    if start == n {
        return None;
    }
    let mut value: usize = 0;
    let mut i: usize = start;
    while i < n
        invariant
            start <= i <= n,
            n == chars.len(),
            chars@ == s@,
            d == unsigned_digits(s@),
            d == chars@.subrange(start as int, n as int),
            forall|j: int| start <= j < i ==> is_digit(#[trigger] chars@[j]),
            value as nat == digits_value(chars@.subrange(start as int, i as int)),
        decreases n - i,
    {
        let c = chars[i];
        if !('0' <= c && c <= '9') {
            assert(!is_digit(d[i - start]));
            return None;
        }
        let digit = (c as u32 - '0' as u32) as usize;
        assert(chars@.subrange(start as int, i + 1).drop_last() =~= chars@.subrange(start as int, i as int));
        if value > (usize::MAX - digit) / 10 {
            proof {
                assert(value * 10 + digit > usize::MAX) by (nonlinear_arith)
                    requires
                        value > (usize::MAX - digit) / 10,
                        digit <= 9,
                ;
                let p = chars@.subrange(start as int, i + 1);
                assert(p.last() == c);
                assert(digits_value(p) == value * 10 + digit);
                if forall|j: int| 0 <= j < d.len() ==> is_digit(#[trigger] d[j]) {
                    lemma_digits_value_grows(d, i + 1 - start);
                    assert(d.subrange(0, i + 1 - start) =~= p);
                }
            }
            return None;
        }
        value = value * 10 + digit;
        i = i + 1;
    }
    proof {
        assert(chars@.subrange(start as int, n as int) =~= d);
    }
    Some(value)
}

/// The view of an optional string.
pub open spec fn opt_view(o: Option<String>) -> Option<Seq<char>> {
    match o {
        Some(s) => Some(s@),
        None => None,
    }
}

/// The characters of `s`, in order.
pub fn chars_of(s: &str) -> (r: Vec<char>)
    ensures
        r@ == s@,
{
    let mut r: Vec<char> = Vec::new();
    for c in it: s.chars()
        invariant
            r@ == it.seq().subrange(0, it.index() as int),
    {
        r.push(c);
    }
    r
}

/// Whether `pat` occurs in `text` at character index `i`.
pub fn occurs_at_index(text: &Vec<char>, pat: &Vec<char>, i: usize) -> (r: bool)
    ensures
        r == occurs_at(text@, pat@, i as int),
{
    if i > text.len() || pat.len() > text.len() - i {
        return false;
    }
    let mut k: usize = 0;
    while k < pat.len()
        invariant
            i + pat.len() <= text.len(),
            k <= pat.len(),
            forall|j: int| 0 <= j < k ==> text@[i + j] == pat@[j],
        decreases pat.len() - k,
    {
        if text[i + k] != pat[k] {
            assert(text@.subrange(i as int, i + pat.len())[k as int] != pat@[k as int]);
            return false;
        }
        k = k + 1;
    }
    assert(text@.subrange(i as int, i + pat.len()) =~= pat@);
    true
}

/// Whether `pat` occurs anywhere in `text`.
pub fn contains_chars(text: &Vec<char>, pat: &Vec<char>) -> (r: bool)
    ensures
        r == text_contains(text@, pat@),
{
    if pat.len() > text.len() {
        return false;
    }
    if pat.len() == 0 {
        assert(text@.subrange(0, 0) =~= pat@);
        assert(occurs_at(text@, pat@, 0));
        return true;
    }
    let last: usize = text.len() - pat.len();
    let mut i: usize = 0;
    while i <= last
        invariant
            last == text.len() - pat.len(),
            pat.len() >= 1,
            i <= last + 1,
            forall|j: int| 0 <= j < i ==> !occurs_at(text@, pat@, j),
        decreases last + 1 - i,
    {
        if occurs_at_index(text, pat, i) {
            return true;
        }
        i = i + 1;
    }
    false
}

/// Whether `pat` occurs anywhere in `text`.
pub fn contains_str(text: &str, pat: &str) -> (r: bool)
    ensures
        r == text_contains(text@, pat@),
{
    let t = chars_of(text);
    let p = chars_of(pat);
    contains_chars(&t, &p)
}

/// The index of the first occurrence of `pat` in `text` at or after `i`, if any.
pub open spec fn first_occurrence_from(text: Seq<char>, pat: Seq<char>, i: int) -> Option<int>
    decreases text.len() + 1 - i,
{
    if i < 0 || i > text.len() {
        None
    } else if occurs_at(text, pat, i) {
        Some(i)
    } else {
        first_occurrence_from(text, pat, i + 1)
    }
}

/// The index of the first occurrence of `pat` in `text`, if any.
pub fn find_chars(text: &Vec<char>, pat: &Vec<char>) -> (r: Option<usize>)
    ensures
        r matches Some(i) ==> i + pat.len() <= text.len(),
        match r {
            Some(i) => first_occurrence_from(text@, pat@, 0) == Some(i as int),
            None => first_occurrence_from(text@, pat@, 0) is None,
        },
{
    if pat.len() > text.len() {
        assert forall|i: int| 0 <= i <= text@.len() implies first_occurrence_from(text@, pat@, i) is None by {
            lemma_no_occurrence_past(text@, pat@, i);
        }
        return None;
    }
    if pat.len() == 0 {
        assert(text@.subrange(0, 0) =~= pat@);
        return Some(0);
    }
    let last: usize = text.len() - pat.len();
    let mut i: usize = 0;
    while i <= last
        invariant
            last == text.len() - pat.len(),
            pat.len() > 0,
            i <= last + 1,
            first_occurrence_from(text@, pat@, 0) == first_occurrence_from(text@, pat@, i as int),
        decreases last + 1 - i,
    {
        if occurs_at_index(text, pat, i) {
            return Some(i);
        }
        i = i + 1;
    }
    proof {
        lemma_no_occurrence_past(text@, pat@, i as int);
    }
    None
}

/// No occurrence starts where too few characters are left for the pattern.
proof fn lemma_no_occurrence_past(text: Seq<char>, pat: Seq<char>, i: int)
    requires
        i + pat.len() > text.len(),
        i >= 0,
    ensures
        first_occurrence_from(text, pat, i) is None,
    decreases text.len() + 1 - i,
{
    if i <= text.len() {
        lemma_no_occurrence_past(text, pat, i + 1);
    }
}

/// The characters of `s` from index `from` up to, not including, `to`.
pub fn substring(s: &str, from: usize, to: usize) -> (r: String)
    requires
        from <= to <= s@.len(),
    ensures
        r@ == s@.subrange(from as int, to as int),
{
    s.substring_char(from, to).to_owned()
}

} // verus!
