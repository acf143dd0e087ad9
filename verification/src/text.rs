//! Text helpers on `Seq<char>` models: equality, trimming, searching, and the
//! unsigned number formats that device names and settings are written in.

use vstd::prelude::*;
use vstd::string::*;
use vstd::utf8::{char_is_scalar, char_u32_cast, encode_utf8_decode_utf8};

verus! {

/// Text that holds the same characters.
pub fn str_eq(a: &str, b: &str) -> (r: bool)
    ensures
        r == (a@ == b@),
{
    let x: &[u8] = a.as_bytes();
    let y: &[u8] = b.as_bytes();
    proof {
        encode_utf8_decode_utf8(a@);
        encode_utf8_decode_utf8(b@);
    }
    if x.len() != y.len() {
        return false;
    }
    let mut i: usize = 0;
    while i < x.len()
        invariant
            i <= x.len(),
            x.len() == y.len(),
            x@ == a.spec_bytes(),
            y@ == b.spec_bytes(),
            forall|j: int| 0 <= j < i ==> x@[j] == y@[j],
        decreases x.len() - i,
    {
        if x[i] != y[i] {
            return false;
        }
        i = i + 1;
    }
    assert(x@ =~= y@);
    true
}

/// How `std` writes a text in debug output: in quotes, with escapes.
pub uninterp spec fn quoted_text(s: Seq<char>) -> Seq<char>;

/// `std`'s `Debug` of a text: the text in quotes, with what needs it escaped.
#[verifier::external_body]
pub(crate) fn quoted(s: &str) -> (r: String)
    ensures
        r@ == quoted_text(s@),
{
    format!("{:?}", s)
}

/// The characters of `s`, one by one.
pub fn chars_of(s: &str) -> (v: Vec<char>)
    ensures
        v@ == s@,
{
    let mut v: Vec<char> = Vec::new();
    for c in it: s.chars()
        invariant
            it.seq() == s@,
            v@ == s@.subrange(0, it.index() as int),
    {
        v.push(c);
        assert(v@ =~= s@.subrange(0, it.index() as int + 1));
    }
    assert(s@.subrange(0, s@.len() as int) =~= s@);
    v
}

/// The code points with the Unicode property White_Space.
pub open spec fn is_space(c: char) -> bool {
    ||| '\u{9}' <= c <= '\u{d}'
    ||| c == '\u{20}'
    ||| c == '\u{85}'
    ||| c == '\u{a0}'
    ||| c == '\u{1680}'
    ||| '\u{2000}' <= c <= '\u{200a}'
    ||| c == '\u{2028}'
    ||| c == '\u{2029}'
    ||| c == '\u{202f}'
    ||| c == '\u{205f}'
    ||| c == '\u{3000}'
}

/// No letter, digit or sign that ASCII prints is space; the blank, the tab, the ends of lines
/// and the blank that keeps words together are.
pub proof fn printed_characters_are_no_space(c: char)
    ensures
        '!' <= c <= '~' ==> !is_space(c),
        c == ' ' || c == '\t' || c == '\n' || c == '\r' || c == '\u{a0}' ==> is_space(c),
{
}

fn space(c: char) -> (r: bool)
    ensures
        r == is_space(c),
{
    ('\u{9}' <= c && c <= '\u{d}') || c == '\u{20}' || c == '\u{85}' || c == '\u{a0}' || c
        == '\u{1680}' || ('\u{2000}' <= c && c <= '\u{200a}') || c == '\u{2028}' || c == '\u{2029}'
        || c == '\u{202f}' || c == '\u{205f}' || c == '\u{3000}'
}

/// `s` without its leading white space.
pub open spec fn trim_left(s: Seq<char>) -> Seq<char>
    decreases s.len(),
{
    if s.len() > 0 && is_space(s[0]) {
        trim_left(s.drop_first())
    } else {
        s
    }
}

/// `s` without its trailing white space.
pub open spec fn trim_right(s: Seq<char>) -> Seq<char>
    decreases s.len(),
{
    if s.len() > 0 && is_space(s.last()) {
        trim_right(s.drop_last())
    } else {
        s
    }
}

/// `s` without white space at either end.
pub open spec fn trimmed(s: Seq<char>) -> Seq<char> {
    trim_right(trim_left(s))
}

/// The part of `s` between its leading and its trailing white space.
pub fn trim(s: &str) -> (r: &str)
    ensures
        r@ == trimmed(s@),
{
    let v: Vec<char> = chars_of(s);
    let mut from: usize = 0;
    assert(s@.subrange(0, s@.len() as int) =~= s@);
    while from < v.len() && space(v[from])
        invariant
            v@ == s@,
            from <= v.len(),
            trim_left(s@) == trim_left(s@.subrange(from as int, s@.len() as int)),
        decreases v.len() - from,
    {
        assert(s@.subrange(from as int, s@.len() as int).drop_first() =~= s@.subrange(
            from + 1,
            s@.len() as int,
        ));
        from = from + 1;
    }
    let ghost rest = s@.subrange(from as int, s@.len() as int);
    assert(trim_left(s@) == rest);
    let mut to: usize = v.len();
    assert(rest == s@.subrange(from as int, to as int));
    while to > from && space(v[to - 1])
        invariant
            v@ == s@,
            from <= to <= v.len(),
            trim_right(rest) == trim_right(s@.subrange(from as int, to as int)),
        decreases to,
    {
        assert(s@.subrange(from as int, to as int).drop_last() =~= s@.subrange(
            from as int,
            to - 1,
        ));
        to = to - 1;
    }
    s.substring_char(from, to)
}

/// `s` starts with `prefix`.
pub open spec fn starts(s: Seq<char>, prefix: Seq<char>) -> bool {
    prefix.len() <= s.len() && s.subrange(0, prefix.len() as int) == prefix
}

/// What follows `prefix` in `s`.
pub open spec fn after_prefix(s: Seq<char>, prefix: Seq<char>) -> Option<Seq<char>> {
    if starts(s, prefix) {
        Some(s.subrange(prefix.len() as int, s.len() as int))
    } else {
        None
    }
}

/// The view of an optional text.
pub open spec fn opt_view(s: Option<&str>) -> Option<Seq<char>> {
    match s {
        Some(t) => Some(t@),
        None => None,
    }
}

/// The view of an optional owned text.
pub open spec fn opt_string(s: Option<String>) -> Option<Seq<char>> {
    match s {
        Some(t) => Some(t@),
        None => None,
    }
}

/// `s` starts with `prefix`.
pub fn starts_with(s: &str, prefix: &str) -> (r: bool)
    ensures
        r == starts(s@, prefix@),
{
    let n: usize = prefix.unicode_len();
    if s.unicode_len() < n {
        return false;
    }
    str_eq(s.substring_char(0, n), prefix)
}

/// What follows `prefix` in `s`, if `s` starts with it.
pub fn strip_prefix<'a>(s: &'a str, prefix: &str) -> (r: Option<&'a str>)
    ensures
        opt_view(r) == after_prefix(s@, prefix@),
{
    let n: usize = prefix.unicode_len();
    let m: usize = s.unicode_len();
    if m < n {
        return None;
    }
    if str_eq(s.substring_char(0, n), prefix) {
        Some(s.substring_char(n, m))
    } else {
        None
    }
}

/// Trimming takes away white space at the two ends and nothing else: what is left is a part
/// of the text with nothing but white space around it and no white space at its ends.
pub proof fn trimming_takes_space_at_the_ends(s: Seq<char>) -> (ends: (int, int))
    ensures
        0 <= ends.0 <= ends.1 <= s.len(),
        trimmed(s) == s.subrange(ends.0, ends.1),
        forall|i: int| 0 <= i < ends.0 ==> is_space(#[trigger] s[i]),
        forall|i: int| ends.1 <= i < s.len() ==> is_space(#[trigger] s[i]),
        trimmed(s).len() > 0 ==> !is_space(trimmed(s)[0]) && !is_space(trimmed(s).last()),
{
    let from = lemma_trim_left(s);
    let rest = trim_left(s);
    let to = lemma_trim_right(rest);
    assert(trimmed(s) =~= s.subrange(from, from + to));
    assert forall|i: int| from + to <= i < s.len() implies is_space(#[trigger] s[i]) by {
        assert(rest[i - from] == s[i]);
    }
    if trimmed(s).len() > 0 {
        assert(trimmed(s)[0] == rest[0]);
    }
    (from, from + to)
}

/// Trimming twice is trimming once.
pub proof fn trimming_is_done_once(s: Seq<char>)
    ensures
        trimmed(trimmed(s)) == trimmed(s),
{
    trimming_takes_space_at_the_ends(s);
    let t = trimmed(s);
    if t.len() > 0 {
        assert(trim_left(t) == t);
        assert(trim_right(t) == t);
    }
}

proof fn lemma_trim_left(s: Seq<char>) -> (from: int)
    ensures
        0 <= from <= s.len(),
        trim_left(s) == s.subrange(from, s.len() as int),
        forall|i: int| 0 <= i < from ==> is_space(#[trigger] s[i]),
        trim_left(s).len() > 0 ==> !is_space(trim_left(s)[0]),
    decreases s.len(),
{
    if s.len() > 0 && is_space(s[0]) {
        let rest = s.drop_first();
        let from = lemma_trim_left(rest);
        assert(rest.subrange(from, rest.len() as int) =~= s.subrange(from + 1, s.len() as int));
        assert forall|i: int| 0 <= i < from + 1 implies is_space(#[trigger] s[i]) by {
            if i > 0 {
                assert(rest[i - 1] == s[i]);
            }
        }
        from + 1
    } else {
        assert(s.subrange(0, s.len() as int) =~= s);
        0
    }
}

proof fn lemma_trim_right(s: Seq<char>) -> (to: int)
    ensures
        0 <= to <= s.len(),
        trim_right(s) == s.subrange(0, to),
        forall|i: int| to <= i < s.len() ==> is_space(#[trigger] s[i]),
        trim_right(s).len() > 0 ==> !is_space(trim_right(s).last()),
    decreases s.len(),
{
    if s.len() > 0 && is_space(s.last()) {
        let rest = s.drop_last();
        let to = lemma_trim_right(rest);
        assert(rest.subrange(0, to) =~= s.subrange(0, to));
        assert forall|i: int| to <= i < s.len() implies is_space(#[trigger] s[i]) by {
            if i < rest.len() {
                assert(rest[i] == s[i]);
            }
        }
        to
    } else {
        assert(s.subrange(0, s.len() as int) =~= s);
        s.len() as int
    }
}

/// A prefix and what follows it make up the text again.
pub proof fn prefix_and_rest_make_the_text(s: Seq<char>, prefix: Seq<char>, rest: Seq<char>)
    ensures
        after_prefix(s, prefix) == Some(rest) <==> s == prefix + rest,
        starts(prefix + rest, prefix),
{
    assert((prefix + rest).subrange(0, prefix.len() as int) =~= prefix);
    assert((prefix + rest).subrange(prefix.len() as int, (prefix + rest).len() as int) =~= rest);
    if after_prefix(s, prefix) == Some(rest) {
        assert(s =~= prefix + rest);
    }
}

/// The place of the first `c` in `s`, or the length of `s`.
pub open spec fn first_at(s: Seq<char>, c: char) -> int
    decreases s.len(),
{
    if s.len() == 0 || s[0] == c {
        0
    } else {
        1 + first_at(s.drop_first(), c)
    }
}

/// `first_at` is the only place that holds `c` with none before it.
pub proof fn lemma_first_at(s: Seq<char>, c: char, i: int)
    requires
        0 <= i <= s.len(),
        forall|j: int| 0 <= j < i ==> s[j] != c,
        i < s.len() ==> s[i] == c,
    ensures
        first_at(s, c) == i,
    decreases s.len(),
{
    if s.len() > 0 && i > 0 {
        assert(forall|j: int| 0 <= j < i - 1 ==> s.drop_first()[j] == s[j + 1]);
        assert(i < s.len() ==> s.drop_first()[i - 1] == s[i]);
        lemma_first_at(s.drop_first(), c, i - 1);
    }
}

/// The two sides of the first `c` in `s`.
pub open spec fn split_at_first(s: Seq<char>, c: char) -> Option<(Seq<char>, Seq<char>)> {
    let i = first_at(s, c);
    if i < s.len() {
        Some((s.subrange(0, i), s.subrange(i + 1, s.len() as int)))
    } else {
        None
    }
}

/// A text is split at the first place of a character: the two sides and the character
/// between them make up the text, and the first side does not hold it. A text is not split
/// exactly if it does not hold the character.
pub proof fn splitting_is_at_the_first(s: Seq<char>, c: char)
    ensures
        split_at_first(s, c) is None <==> !s.contains(c),
        split_at_first(s, c) matches Some(sides) ==> {
            &&& s == sides.0 + seq![c] + sides.1
            &&& !sides.0.contains(c)
        },
{
    lemma_first_at_holds(s, c);
    let i = first_at(s, c);
    if i < s.len() {
        assert(s =~= s.subrange(0, i) + seq![c] + s.subrange(i + 1, s.len() as int));
        assert(s.contains(c));
    }
}

proof fn lemma_first_at_holds(s: Seq<char>, c: char)
    ensures
        0 <= first_at(s, c) <= s.len(),
        first_at(s, c) < s.len() ==> s[first_at(s, c)] == c,
        forall|j: int| 0 <= j < first_at(s, c) ==> s[j] != c,
    decreases s.len(),
{
    if s.len() > 0 && s[0] != c {
        let rest = s.drop_first();
        lemma_first_at_holds(rest, c);
        assert forall|j: int| 0 <= j < first_at(s, c) implies s[j] != c by {
            if j > 0 {
                assert(rest[j - 1] == s[j]);
            }
        }
    }
}

/// Splits `s` at the first `c`.
pub fn split_once<'a>(s: &'a str, c: char) -> (r: Option<(&'a str, &'a str)>)
    ensures
        match r {
            Some(p) => split_at_first(s@, c) == Some((p.0@, p.1@)),
            None => split_at_first(s@, c) is None,
        },
{
    let v: Vec<char> = chars_of(s);
    let mut i: usize = 0;
    while i < v.len()
        invariant
            v@ == s@,
            i <= v.len(),
            forall|j: int| 0 <= j < i ==> v@[j] != c,
        decreases v.len() - i,
    {
        if v[i] == c {
            proof {
                lemma_first_at(s@, c, i as int);
            }
            return Some((s.substring_char(0, i), s.substring_char(i + 1, v.len())));
        }
        i = i + 1;
    }
    proof {
        lemma_first_at(s@, c, i as int);
    }
    None
}

/// `needle` stands in `s` from place `i` on.
pub open spec fn stands_at(s: Seq<char>, needle: Seq<char>, i: int) -> bool {
    0 <= i && i + needle.len() <= s.len() && s.subrange(i, i + needle.len()) == needle
}

/// `needle` stands somewhere in `s`.
pub open spec fn contains_text(s: Seq<char>, needle: Seq<char>) -> bool {
    exists|i: int| stands_at(s, needle, i)
}

/// Whether `needle` stands somewhere in `s`.
pub fn contains(s: &str, needle: &str) -> (r: bool)
    ensures
        r == contains_text(s@, needle@),
{
    let n: usize = needle.unicode_len();
    let m: usize = s.unicode_len();
    if n > m {
        return false;
    }
    let mut i: usize = 0;
    while i <= m - n
        invariant
            n == needle@.len(),
            m == s@.len(),
            n <= m,
            i <= m - n + 1,
            forall|j: int| 0 <= j < i ==> !stands_at(s@, needle@, j),
        decreases m - n + 1 - i,
    {
        if str_eq(s.substring_char(i, i + n), needle) {
            assert(stands_at(s@, needle@, i as int));
            return true;
        }
        if i == m - n {
            assert forall|j: int| !stands_at(s@, needle@, j) by {}
            return false;
        }
        i = i + 1;
    }
    false
}

/// The first place from `from` on at which `needle` stands in `s`.
pub open spec fn text_place(s: Seq<char>, needle: Seq<char>, from: int) -> Option<int>
    decreases s.len() - from + 1,
{
    if from < 0 || from + needle.len() > s.len() {
        None
    } else if stands_at(s, needle, from) {
        Some(from)
    } else {
        text_place(s, needle, from + 1)
    }
}

/// A text is found exactly if it stands somewhere from the given place on, and where it
/// stands first.
pub proof fn texts_are_found_where_they_stand_first(s: Seq<char>, needle: Seq<char>, from: int)
    requires
        0 <= from,
    ensures
        text_place(s, needle, from) matches Some(i) ==> from <= i && stands_at(s, needle, i)
            && forall|j: int| from <= j < i ==> !stands_at(s, needle, j),
        text_place(s, needle, from) is None ==> forall|j: int|
            from <= j ==> !stands_at(s, needle, j),
    decreases s.len() - from + 1,
{
    if from + needle.len() <= s.len() && !stands_at(s, needle, from) {
        texts_are_found_where_they_stand_first(s, needle, from + 1);
    }
}

/// The first place at which `needle` stands in `s`.
pub fn find(s: &str, needle: &str) -> (r: Option<usize>)
    ensures
        match r {
            Some(i) => text_place(s@, needle@, 0) == Some(i as int),
            None => text_place(s@, needle@, 0) is None,
        },
        r matches Some(i) ==> stands_at(s@, needle@, i as int),
{
    let n: usize = needle.unicode_len();
    let m: usize = s.unicode_len();
    let mut i: usize = 0;
    while i <= m && n <= m - i
        invariant
            n == needle@.len(),
            m == s@.len(),
            i <= m + 1,
            text_place(s@, needle@, 0) == text_place(s@, needle@, i as int),
        decreases m + 1 - i,
    {
        if str_eq(s.substring_char(i, i + n), needle) {
            return Some(i);
        }
        if i == m {
            assert(text_place(s@, needle@, i + 1) is None);
            return None;
        }
        i = i + 1;
    }
    None
}

/// How many decimal digits `s` starts with.
pub open spec fn digit_run(s: Seq<char>) -> int
    decreases s.len(),
{
    if s.len() > 0 && '0' <= s[0] <= '9' {
        1 + digit_run(s.drop_first())
    } else {
        0
    }
}

/// The digits that a text starts with are all digits, and what follows them is none.
pub proof fn digits_end_where_they_end(s: Seq<char>)
    ensures
        0 <= digit_run(s) <= s.len(),
        forall|i: int| 0 <= i < digit_run(s) ==> '0' <= #[trigger] s[i] <= '9',
        digit_run(s) < s.len() ==> !('0' <= s[digit_run(s)] <= '9'),
    decreases s.len(),
{
    if s.len() > 0 && '0' <= s[0] <= '9' {
        let rest = s.drop_first();
        digits_end_where_they_end(rest);
        assert forall|i: int| 0 <= i < digit_run(s) implies '0' <= #[trigger] s[i] <= '9' by {
            if i > 0 {
                assert(rest[i - 1] == s[i]);
            }
        }
        if digit_run(s) < s.len() {
            assert(rest[digit_run(rest)] == s[digit_run(s)]);
        }
    }
}

/// How many decimal digits `s` starts with.
pub fn leading_digits(s: &str) -> (r: usize)
    ensures
        r == digit_run(s@),
        r <= s@.len(),
{
    let v: Vec<char> = chars_of(s);
    let mut i: usize = 0;
    assert(s@.subrange(0, s@.len() as int) =~= s@);
    while i < v.len() && '0' <= v[i] && v[i] <= '9'
        invariant
            v@ == s@,
            i <= v.len(),
            digit_run(s@) == i + digit_run(s@.subrange(i as int, s@.len() as int)),
        decreases v.len() - i,
    {
        assert(s@.subrange(i as int, s@.len() as int).drop_first() =~= s@.subrange(
            i + 1,
            s@.len() as int,
        ));
        i = i + 1;
    }
    i
}

/// A single or a double quote.
pub open spec fn is_quote(c: char) -> bool {
    c == '"' || c == '\''
}

/// `s` without leading quotes.
pub open spec fn unquote_left(s: Seq<char>) -> Seq<char>
    decreases s.len(),
{
    if s.len() > 0 && is_quote(s[0]) {
        unquote_left(s.drop_first())
    } else {
        s
    }
}

/// `s` without trailing quotes.
pub open spec fn unquote_right(s: Seq<char>) -> Seq<char>
    decreases s.len(),
{
    if s.len() > 0 && is_quote(s.last()) {
        unquote_right(s.drop_last())
    } else {
        s
    }
}

/// `s` without quotes at either end.
pub open spec fn unquoted(s: Seq<char>) -> Seq<char> {
    unquote_right(unquote_left(s))
}

/// Unquoting takes quotes off the ends and nothing else: what is left is a part of the text,
/// has no quote at either end, and everything around it was quotes.
pub proof fn unquoting_takes_quotes_at_the_ends(s: Seq<char>) -> (ends: (int, int))
    ensures
        0 <= ends.0 <= ends.1 <= s.len(),
        unquoted(s) == s.subrange(ends.0, ends.1),
        forall|i: int| 0 <= i < ends.0 ==> is_quote(#[trigger] s[i]),
        forall|i: int| ends.1 <= i < s.len() ==> is_quote(#[trigger] s[i]),
        unquoted(s).len() > 0 ==> !is_quote(unquoted(s)[0]) && !is_quote(unquoted(s).last()),
{
    let from = lemma_unquote_left(s);
    let rest = unquote_left(s);
    let to = lemma_unquote_right(rest);
    assert(unquoted(s) =~= s.subrange(from, from + to));
    assert forall|i: int| from + to <= i < s.len() implies is_quote(#[trigger] s[i]) by {
        assert(rest[i - from] == s[i]);
    }
    if unquoted(s).len() > 0 {
        assert(unquoted(s)[0] == rest[0]);
    }
    (from, from + to)
}

proof fn lemma_unquote_left(s: Seq<char>) -> (from: int)
    ensures
        0 <= from <= s.len(),
        unquote_left(s) == s.subrange(from, s.len() as int),
        forall|i: int| 0 <= i < from ==> is_quote(#[trigger] s[i]),
        from < s.len() ==> !is_quote(s[from]),
    decreases s.len(),
{
    if s.len() > 0 && is_quote(s[0]) {
        let rest = s.drop_first();
        let from = lemma_unquote_left(rest) + 1;
        assert(unquote_left(s) =~= s.subrange(from, s.len() as int));
        assert forall|i: int| 0 <= i < from implies is_quote(#[trigger] s[i]) by {
            if i > 0 {
                assert(rest[i - 1] == s[i]);
            }
        }
        from
    } else {
        assert(s.subrange(0, s.len() as int) =~= s);
        0
    }
}

proof fn lemma_unquote_right(s: Seq<char>) -> (to: int)
    ensures
        0 <= to <= s.len(),
        unquote_right(s) == s.subrange(0, to),
        forall|i: int| to <= i < s.len() ==> is_quote(#[trigger] s[i]),
        to > 0 ==> !is_quote(s[to - 1]),
    decreases s.len(),
{
    if s.len() > 0 && is_quote(s.last()) {
        let rest = s.drop_last();
        let to = lemma_unquote_right(rest);
        assert(unquote_right(s) =~= s.subrange(0, to));
        assert forall|i: int| to <= i < s.len() implies is_quote(#[trigger] s[i]) by {
            if i < rest.len() {
                assert(rest[i] == s[i]);
            }
        }
        to
    } else {
        assert(s.subrange(0, s.len() as int) =~= s);
        s.len() as int
    }
}

/// The part of `s` between leading and trailing quotes.
pub fn unquote(s: &str) -> (r: &str)
    ensures
        r@ == unquoted(s@),
{
    let v: Vec<char> = chars_of(s);
    let mut from: usize = 0;
    assert(s@.subrange(0, s@.len() as int) =~= s@);
    while from < v.len() && (v[from] == '"' || v[from] == '\'')
        invariant
            v@ == s@,
            from <= v.len(),
            unquote_left(s@) == unquote_left(s@.subrange(from as int, s@.len() as int)),
        decreases v.len() - from,
    {
        assert(s@.subrange(from as int, s@.len() as int).drop_first() =~= s@.subrange(
            from + 1,
            s@.len() as int,
        ));
        from = from + 1;
    }
    let ghost rest = s@.subrange(from as int, s@.len() as int);
    assert(unquote_left(s@) == rest);
    let mut to: usize = v.len();
    while to > from && (v[to - 1] == '"' || v[to - 1] == '\'')
        invariant
            v@ == s@,
            from <= to <= v.len(),
            unquote_right(rest) == unquote_right(s@.subrange(from as int, to as int)),
        decreases to,
    {
        assert(s@.subrange(from as int, to as int).drop_last() =~= s@.subrange(
            from as int,
            to - 1,
        ));
        to = to - 1;
    }
    s.substring_char(from, to)
}

/// The value of `c` as a digit of `radix`, letters of either case above nine.
pub open spec fn digit_value(c: char, radix: int) -> Option<int> {
    let v: int = if '0' <= c <= '9' {
        c as int - '0' as int
    } else if 'a' <= c <= 'f' {
        c as int - 'a' as int + 10
    } else if 'A' <= c <= 'F' {
        c as int - 'A' as int + 10
    } else {
        radix
    };
    if v < radix {
        Some(v)
    } else {
        None
    }
}

/// The value of a run of digits, most significant first.
pub open spec fn digits_value(s: Seq<char>, radix: int) -> Option<int>
    decreases s.len(),
{
    if s.len() == 0 {
        Some(0)
    } else {
        match (digits_value(s.drop_last(), radix), digit_value(s.last(), radix)) {
            (Some(v), Some(d)) => Some(v * radix + d),
            _ => None,
        }
    }
}

/// `s` without a leading plus sign.
pub open spec fn without_plus(s: Seq<char>) -> Seq<char> {
    if s.len() > 0 && s[0] == '+' {
        s.drop_first()
    } else {
        s
    }
}

/// The number `s` writes: an optional plus sign and at least one digit, no more than `max`.
pub open spec fn unsigned_value(s: Seq<char>, radix: int, max: int) -> Option<int> {
    let body = without_plus(s);
    if body.len() == 0 {
        None
    } else {
        match digits_value(body, radix) {
            Some(v) => if v <= max {
                Some(v)
            } else {
                None
            },
            None => None,
        }
    }
}

/// Digits count from zero to nine and letters on from there, the same in either case; a
/// character that is neither, or whose value is not below the radix, is no digit.
pub proof fn digits_have_their_value(c: char, radix: int)
    requires
        2 <= radix <= 16,
    ensures
        '0' <= c <= '9' && c as int - '0' as int <= radix - 1 ==> digit_value(c, radix) == Some(
            c as int - '0' as int,
        ),
        'a' <= c <= 'f' ==> digit_value(c, radix) == digit_value(upper_char(c), radix),
        'a' <= c <= 'f' && radix == 16 ==> digit_value(c, radix) == Some(
            c as int - 'a' as int + 10,
        ),
        digit_value(c, radix) matches Some(v) ==> 0 <= v < radix,
        !('0' <= c <= '9') && !('a' <= c <= 'f') && !('A' <= c <= 'F') ==> digit_value(c, radix)
            is None,
        radix <= 10 && !('0' <= c <= '9') ==> digit_value(c, radix) is None,
{
}

/// A number is read from digits alone, with no more than a plus sign before them. It is never
/// above what is allowed; nothing, and a sign alone, is no number. One more digit multiplies
/// the value by the radix and adds the digit.
pub proof fn numbers_are_read_from_digits(s: Seq<char>, c: char, radix: int, max: int)
    requires
        2 <= radix <= 16,
    ensures
        unsigned_value(s, radix, max) matches Some(v) ==> 0 <= v <= max,
        unsigned_value(s, radix, max) is Some ==> without_plus(s).len() > 0 && forall|i: int|
            0 <= i < without_plus(s).len() ==> digit_value(#[trigger] without_plus(s)[i], radix)
                is Some,
        unsigned_value(seq![], radix, max) is None,
        unsigned_value(seq!['+'], radix, max) is None,
        s.len() > 0 && s[0] != '+' ==> unsigned_value(seq!['+'] + s, radix, max) == unsigned_value(
            s,
            radix,
            max,
        ),
        digits_value(s, radix) matches Some(v) ==> (digit_value(c, radix) matches Some(d)
            ==> digits_value(s.push(c), radix) == Some(v * radix + d)),
        digit_value(c, radix) is None ==> digits_value(s.push(c), radix) is None,
{
    let body = without_plus(s);
    if digits_value(body, radix) is Some {
        lemma_digits_prefix(body, radix, body.len() as int);
        assert(body.subrange(0, body.len() as int) =~= body);
        lemma_all_have_values(body, radix);
    }
    assert(seq!['+'].drop_first() =~= seq![]);
    assert((seq!['+'] + s).drop_first() =~= s);
    assert(s.push(c).drop_last() =~= s);
}

proof fn lemma_all_have_values(s: Seq<char>, radix: int)
    requires
        digits_value(s, radix) is Some,
    ensures
        forall|i: int| 0 <= i < s.len() ==> digit_value(#[trigger] s[i], radix) is Some,
    decreases s.len(),
{
    if s.len() > 0 {
        let rest = s.drop_last();
        lemma_all_have_values(rest, radix);
        assert forall|i: int| 0 <= i < s.len() implies digit_value(#[trigger] s[i], radix)
            is Some by {
            if i < rest.len() {
                assert(rest[i] == s[i]);
            }
        }
    }
}

proof fn lemma_digits_prefix(s: Seq<char>, radix: int, k: int)
    requires
        0 <= k <= s.len(),
        radix >= 1,
        digits_value(s, radix) is Some,
    ensures
        digits_value(s.subrange(0, k), radix) is Some,
        0 <= digits_value(s.subrange(0, k), radix)->0 <= digits_value(s, radix)->0,
    decreases s.len(),
{
    if k == s.len() {
        assert(s.subrange(0, k) =~= s);
        if s.len() > 0 {
            lemma_digits_prefix(s.drop_last(), radix, k - 1);
            let v = digits_value(s.drop_last(), radix)->0;
            assert(v * radix >= 0) by (nonlinear_arith)
                requires
                    v >= 0,
                    radix >= 1,
            ;
        }
    } else {
        lemma_digits_prefix(s.drop_last(), radix, k);
        assert(s.drop_last().subrange(0, k) =~= s.subrange(0, k));
        let v = digits_value(s.drop_last(), radix)->0;
        assert(v * radix >= v) by (nonlinear_arith)
            requires
                v >= 0,
                radix >= 1,
        ;
    }
}

fn digit(c: char, radix: u64) -> (r: Option<u64>)
    requires
        radix <= 16,
    ensures
        match r {
            Some(d) => digit_value(c, radix as int) == Some(d as int) && d < radix,
            None => digit_value(c, radix as int) is None,
        },
{
    let v: u64 = if '0' <= c && c <= '9' {
        c as u64 - '0' as u64
    } else if 'a' <= c && c <= 'f' {
        c as u64 - 'a' as u64 + 10
    } else if 'A' <= c && c <= 'F' {
        c as u64 - 'A' as u64 + 10
    } else {
        radix
    };
    if v < radix {
        Some(v)
    } else {
        None
    }
}

/// Reads an unsigned number of at most `max`, in a radix up to sixteen.
pub fn parse_unsigned(s: &str, radix: u64, max: u64) -> (r: Option<u64>)
    requires
        2 <= radix <= 16,
    ensures
        match r {
            Some(v) => unsigned_value(s@, radix as int, max as int) == Some(v as int),
            None => unsigned_value(s@, radix as int, max as int) is None,
        },
{
    let v: Vec<char> = chars_of(s);
    let start: usize = if v.len() > 0 && v[0] == '+' {
        1
    } else {
        0
    };
    let ghost body = s@.subrange(start as int, s@.len() as int);
    proof {
        if start == 1 {
            assert(body =~= s@.drop_first());
        } else {
            assert(body =~= s@);
        }
    }
    if start == v.len() {
        return None;
    }
    let mut acc: u64 = 0;
    let mut i: usize = start;
    assert(body.subrange(0, 0) =~= Seq::<char>::empty());
    while i < v.len()
        invariant
            v@ == s@,
            2 <= radix <= 16,
            start <= i <= v.len(),
            body == s@.subrange(start as int, s@.len() as int),
            body == without_plus(s@),
            body.len() > 0,
            acc <= max,
            digits_value(body.subrange(0, i - start), radix as int) == Some(acc as int),
        decreases v.len() - i,
    {
        let ghost k = i - start;
        let ghost next = body.subrange(0, k + 1);
        assert(next.drop_last() =~= body.subrange(0, k));
        assert(next.last() == v@[i as int]);
        match digit(v[i], radix) {
            None => {
                proof {
                    if digits_value(body, radix as int) is Some {
                        lemma_digits_prefix(body, radix as int, k + 1);
                    }
                }
                return None;
            },
            Some(d) => {
                assert((acc as u128) * (radix as u128) <= 0xffff_ffff_ffff_ffff * 16)
                    by (nonlinear_arith)
                    requires
                        acc <= 0xffff_ffff_ffff_ffff,
                        radix <= 16,
                ;
                let wide: u128 = (acc as u128) * (radix as u128) + (d as u128);
                if wide > max as u128 {
                    proof {
                        if digits_value(body, radix as int) is Some {
                            lemma_digits_prefix(body, radix as int, k + 1);
                        }
                    }
                    return None;
                }
                acc = wide as u64;
            },
        }
        i = i + 1;
    }
    assert(body.subrange(0, i - start) =~= body);
    Some(acc)
}

/// The decimal digit for `d`.
pub open spec fn digit_char(d: int) -> char {
    (48 + d) as char
}

/// A number in decimal, without leading zeros.
pub open spec fn decimal_text(n: nat) -> Seq<char>
    decreases n,
{
    if n < 10 {
        seq![digit_char(n as int)]
    } else {
        decimal_text(n / 10).push(digit_char((n % 10) as int))
    }
}

fn digit_str(d: u64) -> (s: &'static str)
    requires
        d < 10,
    ensures
        s@ == seq![digit_char(d as int)],
{
    proof {
        reveal_strlit("0");
        reveal_strlit("1");
        reveal_strlit("2");
        reveal_strlit("3");
        reveal_strlit("4");
        reveal_strlit("5");
        reveal_strlit("6");
        reveal_strlit("7");
        reveal_strlit("8");
        reveal_strlit("9");
    }
    if d == 0 {
        "0"
    } else if d == 1 {
        "1"
    } else if d == 2 {
        "2"
    } else if d == 3 {
        "3"
    } else if d == 4 {
        "4"
    } else if d == 5 {
        "5"
    } else if d == 6 {
        "6"
    } else if d == 7 {
        "7"
    } else if d == 8 {
        "8"
    } else {
        "9"
    }
}

/// Writes a number in decimal.
pub fn decimal(n: u64) -> (s: String)
    ensures
        s@ == decimal_text(n as nat),
    decreases n,
{
    if n < 10 {
        digit_str(n).to_owned()
    } else {
        let mut s: String = decimal(n / 10);
        s.append(digit_str(n % 10));
        assert(s@ =~= decimal_text(n as nat));
        s
    }
}

proof fn lemma_decimal_digits(n: nat)
    ensures
        decimal_text(n).len() > 0,
        digits_value(decimal_text(n), 10) == Some(n as int),
        '0' <= decimal_text(n)[0] <= '9',
        n > 0 ==> decimal_text(n)[0] != '0',
    decreases n,
{
    let text = decimal_text(n);
    let d = (n % 10) as int;
    assert(digit_value(digit_char(d), 10) == Some(d));
    if n < 10 {
        assert(text.drop_last() =~= Seq::<char>::empty());
        assert(digits_value(text.drop_last(), 10) == Some(0int));
        assert(text.last() == digit_char(n as int));
    } else {
        lemma_decimal_digits(n / 10);
        assert(text.drop_last() =~= decimal_text(n / 10));
        assert(text.last() == digit_char(d));
        assert(text[0] == decimal_text(n / 10)[0]);
    }
}

/// A number that was written in decimal reads back as itself, wherever it is allowed, and is
/// written without leading zeros.
pub proof fn written_numbers_read_back(n: nat, max: int)
    ensures
        n <= max ==> unsigned_value(decimal_text(n), 10, max) == Some(n as int),
        n > max ==> unsigned_value(decimal_text(n), 10, max) is None,
        n > 0 ==> decimal_text(n)[0] != '0',
        n == 0 ==> decimal_text(n) == seq!['0'],
{
    lemma_decimal_digits(n);
    assert(without_plus(decimal_text(n)) == decimal_text(n));
}

/// A number is written in digits, and in nothing else.
pub proof fn lemma_written_without_space(n: nat)
    ensures
        decimal_text(n).len() > 0,
        forall|i: int| 0 <= i < decimal_text(n).len() ==> '0' <= #[trigger] decimal_text(n)[i] <= '9',
        !is_space(decimal_text(n)[0]),
        !is_space(decimal_text(n).last()),
        digit_run(decimal_text(n)) == decimal_text(n).len(),
    decreases n,
{
    if n >= 10 {
        lemma_written_without_space(n / 10);
    }
    lemma_all_digits(decimal_text(n));
}

proof fn lemma_all_digits(s: Seq<char>)
    requires
        forall|i: int| 0 <= i < s.len() ==> '0' <= #[trigger] s[i] <= '9',
    ensures
        digit_run(s) == s.len(),
    decreases s.len(),
{
    if s.len() > 0 {
        let rest = s.drop_first();
        assert forall|i: int| 0 <= i < rest.len() implies '0' <= #[trigger] rest[i] <= '9' by {
            assert(rest[i] == s[i + 1]);
        }
        lemma_all_digits(rest);
    }
}

/// Two numbers are written alike only if they are the same.
pub proof fn written_numbers_differ(a: nat, b: nat)
    requires
        decimal_text(a) == decimal_text(b),
    ensures
        a == b,
{
    lemma_decimal_digits(a);
    lemma_decimal_digits(b);
}

/// `c` with an ASCII lower-case letter raised to upper case.
pub open spec fn upper_char(c: char) -> char {
    if 'a' <= c <= 'z' {
        (c as int - 32) as char
    } else {
        c
    }
}

/// `s` with its ASCII letters in upper case.
pub open spec fn upper_text(s: Seq<char>) -> Seq<char> {
    s.map_values(|c: char| upper_char(c))
}

/// Whether `s`, with its ASCII letters in upper case, reads as `other`.
pub fn upper_eq(s: &str, other: &str) -> (r: bool)
    ensures
        r == (upper_text(s@) == other@),
{
    let a: Vec<char> = chars_of(s);
    let b: Vec<char> = chars_of(other);
    if a.len() != b.len() {
        return false;
    }
    let mut i: usize = 0;
    while i < a.len()
        invariant
            a@ == s@,
            b@ == other@,
            a.len() == b.len(),
            i <= a.len(),
            forall|j: int| 0 <= j < i ==> upper_text(s@)[j] == other@[j],
        decreases a.len() - i,
    {
        let c: u32 = a[i] as u32;
        let lower: bool = 'a' <= a[i] && a[i] <= 'z';
        let raised: u32 = if lower {
            c - 32
        } else {
            c
        };
        proof {
            char_is_scalar(a@[i as int]);
            char_is_scalar(b@[i as int]);
            char_u32_cast(a@[i as int], a@[i as int] as u32);
            char_u32_cast(b@[i as int], b@[i as int] as u32);
        }
        if raised != b[i] as u32 {
            assert(upper_text(s@)[i as int] != other@[i as int]);
            return false;
        }
        assert(upper_text(s@)[i as int] == other@[i as int]);
        i = i + 1;
    }
    assert(upper_text(s@) =~= other@);
    true
}

/// The lower-case hexadecimal digit for `d`.
pub open spec fn hex_char(d: int) -> char {
    if d < 10 {
        (48 + d) as char
    } else {
        (87 + d) as char
    }
}

/// A number below 2^16 in hexadecimal, four digits wide.
pub open spec fn hex4_text(n: u16) -> Seq<char> {
    seq![
        hex_char(n as int / 4096),
        hex_char(n as int / 256 % 16),
        hex_char(n as int / 16 % 16),
        hex_char(n as int % 16),
    ]
}

fn hex_str(d: u16) -> (s: &'static str)
    requires
        d < 16,
    ensures
        s@ == seq![hex_char(d as int)],
{
    proof {
        reveal_strlit("a");
        reveal_strlit("b");
        reveal_strlit("c");
        reveal_strlit("d");
        reveal_strlit("e");
        reveal_strlit("f");
    }
    if d < 10 {
        digit_str(d as u64)
    } else if d == 10 {
        "a"
    } else if d == 11 {
        "b"
    } else if d == 12 {
        "c"
    } else if d == 13 {
        "d"
    } else if d == 14 {
        "e"
    } else {
        "f"
    }
}

/// Writes a number in hexadecimal, four digits wide.
pub fn hex4(n: u16) -> (s: String)
    ensures
        s@ == hex4_text(n),
{
    let mut s: String = hex_str(n / 4096).to_owned();
    s.append(hex_str(n / 256 % 16));
    s.append(hex_str(n / 16 % 16));
    s.append(hex_str(n % 16));
    assert(s@ =~= hex4_text(n));
    s
}

/// A number that was written in hexadecimal reads back as itself and is free of space.
pub proof fn written_hex_reads_back(n: u16)
    ensures
        unsigned_value(hex4_text(n), 16, 0xffff) == Some(n as int),
        hex4_text(n).len() == 4,
        trimmed(hex4_text(n)) == hex4_text(n),
        !hex4_text(n).contains(':'),
{
    let text = hex4_text(n);
    let a = n as int / 4096;
    let b = n as int / 256 % 16;
    let c = n as int / 16 % 16;
    let d = n as int % 16;
    lemma_hex_digit(a);
    lemma_hex_digit(b);
    lemma_hex_digit(c);
    lemma_hex_digit(d);
    assert(text.drop_last() =~= seq![hex_char(a), hex_char(b), hex_char(c)]);
    assert(text.drop_last().drop_last() =~= seq![hex_char(a), hex_char(b)]);
    assert(text.drop_last().drop_last().drop_last() =~= seq![hex_char(a)]);
    assert(text.drop_last().drop_last().drop_last().drop_last() =~= seq![]);
    reveal_with_fuel(digits_value, 6);
    assert(without_plus(text) == text);
    assert(((a * 16 + b) * 16 + c) * 16 + d == n as int);
    assert(digits_value(text, 16) == Some(n as int));
    lemma_nothing_to_trim(text);
}

proof fn lemma_hex_digit(d: int)
    requires
        0 <= d < 16,
    ensures
        digit_value(hex_char(d), 16) == Some(d),
        !is_space(hex_char(d)),
        hex_char(d) != ':',
        hex_char(d) != '+',
{
}

/// A text that neither starts nor ends with space is trimmed to itself.
pub proof fn lemma_nothing_to_trim(s: Seq<char>)
    requires
        s.len() > 0 ==> !is_space(s[0]) && !is_space(s.last()),
    ensures
        trimmed(s) == s,
{
}

/// Upper-casing changes lower-case ASCII letters alone, each to its upper-case one, and
/// changes nothing when done again.
pub proof fn upper_case_is_for_letters(s: Seq<char>, i: int)
    requires
        0 <= i < s.len(),
    ensures
        upper_text(s).len() == s.len(),
        'a' <= s[i] <= 'z' ==> upper_text(s)[i] as int == s[i] as int - 'a' as int + 'A' as int,
        !('a' <= s[i] <= 'z') ==> upper_text(s)[i] == s[i],
        upper_text(upper_text(s)) == upper_text(s),
{
    assert(upper_text(upper_text(s)) =~= upper_text(s));
}

/// Upper-casing keeps the start of a text the start.
pub proof fn lemma_upper_start(s: Seq<char>, n: int)
    requires
        0 <= n <= s.len(),
    ensures
        upper_text(s).subrange(0, n) == upper_text(s.subrange(0, n)),
{
    assert(upper_text(s).subrange(0, n) =~= upper_text(s.subrange(0, n)));
}

/// Whether `s`, with its ASCII letters in upper case, starts with `prefix`.
pub fn upper_starts_with(s: &str, prefix: &str) -> (r: bool)
    ensures
        r == starts(upper_text(s@), prefix@),
{
    let n: usize = prefix.unicode_len();
    if s.unicode_len() < n {
        return false;
    }
    proof {
        lemma_upper_start(s@, n as int);
    }
    upper_eq(s.substring_char(0, n), prefix)
}

/// `a` followed by `b`.
pub fn joined(a: &str, b: &str) -> (s: String)
    ensures
        s@ == a@ + b@,
{
    let mut s: String = a.to_owned();
    s.append(b);
    s
}

} // verus!
