//! Small verified text helpers shared by the modules that build names, paths
//! and configuration text.

use vstd::prelude::*;
use vstd::string::StringExecFns;

verus! {

/// The character of a decimal digit.
pub open spec fn digit_char(d: nat) -> char
    recommends
        d < 10,
{
    if d == 0 {
        '0'
    } else if d == 1 {
        '1'
    } else if d == 2 {
        '2'
    } else if d == 3 {
        '3'
    } else if d == 4 {
        '4'
    } else if d == 5 {
        '5'
    } else if d == 6 {
        '6'
    } else if d == 7 {
        '7'
    } else if d == 8 {
        '8'
    } else {
        '9'
    }
}

/// The decimal numeral of `n`, without sign or leading zeros.
pub open spec fn decimal(n: nat) -> Seq<char>
    decreases n,
{
    if n < 10 {
        seq![digit_char(n)]
    } else {
        decimal(n / 10).push(digit_char(n % 10))
    }
}

/// A decimal numeral has at least one digit.
pub proof fn lemma_decimal_not_empty(n: nat)
    ensures
        decimal(n).len() >= 1,
    decreases n,
{
    if n >= 10 {
        lemma_decimal_not_empty(n / 10);
    }
}

/// Different numbers have different decimal numerals.
pub proof fn lemma_decimal_injective(a: nat, b: nat)
    requires
        decimal(a) == decimal(b),
    ensures
        a == b,
    decreases a,
{
    if a < 10 && b < 10 {
        assert(decimal(a)[0] == digit_char(a));
        assert(decimal(b)[0] == digit_char(b));
    } else if a < 10 {
        lemma_decimal_not_empty(b / 10);
        assert(decimal(b).len() >= 2);
    } else if b < 10 {
        lemma_decimal_not_empty(a / 10);
        assert(decimal(a).len() >= 2);
    } else {
        let da = decimal(a / 10);
        let db = decimal(b / 10);
        assert(decimal(a).drop_last() =~= da);
        assert(decimal(b).drop_last() =~= db);
        assert(decimal(a).last() == digit_char(a % 10));
        assert(decimal(b).last() == digit_char(b % 10));
        lemma_decimal_injective(a / 10, b / 10);
        assert(a % 10 == b % 10);
        assert(a == 10 * (a / 10) + a % 10);
        assert(b == 10 * (b / 10) + b % 10);
    }
}

fn digit_str(d: u64) -> (s: &'static str)
    requires
        d < 10,
    ensures
        s@ == seq![digit_char(d as nat)],
{
    proof {
        reveal_strlit("0");
        reveal_strlit("1");
        reveal_strlit("2");
        reveal_strlit("3");
        reveal_strlit("4");
        reveal_strlit("5");
        reveal_strlit("6");
        reveal_strlit("7");
        reveal_strlit("8");
        reveal_strlit("9");
    }
    let s = if d == 0 {
        "0"
    } else if d == 1 {
        "1"
    } else if d == 2 {
        "2"
    } else if d == 3 {
        "3"
    } else if d == 4 {
        "4"
    } else if d == 5 {
        "5"
    } else if d == 6 {
        "6"
    } else if d == 7 {
        "7"
    } else if d == 8 {
        "8"
    } else {
        "9"
    };
    assert(s@ =~= seq![digit_char(d as nat)]);
    s
}

/// Appends the decimal numeral of `n` to `out`.
pub fn push_decimal(out: &mut String, n: u64)
    ensures
        final(out)@ == old(out)@ + decimal(n as nat),
    decreases n,
{
    if n >= 10 {
        push_decimal(out, n / 10);
    }
    out.append(digit_str(n % 10));
    assert(out@ =~= old(out)@ + decimal(n as nat));
}

/// The decimal numeral of `n`.
pub fn decimal_string(n: u64) -> (s: String)
    ensures
        s@ == decimal(n as nat),
{
    let mut s = String::new();
    push_decimal(&mut s, n);
    assert(s@ =~= decimal(n as nat));
    s
}


/// The characters of `s`.
pub fn chars_of(s: &str) -> (chars: Vec<char>)
    ensures
        chars@ == s@,
{
    let mut chars: Vec<char> = Vec::new();
    for c in it: s.chars()
        invariant
            chars@ == it.seq().take(it.index() as int),
            it.seq() == s@,
    {
        chars.push(c);
    }
    chars
}

/// Whether two strings hold the same characters.
pub fn str_equal(a: &str, b: &str) -> (equal: bool)
    ensures
        equal == (a@ == b@),
{
    let left = a.to_owned();
    let right = b.to_owned();
    left == right
}


/// Whether `needle` stands in `hay` at index `i`.
pub open spec fn occurs_at(hay: Seq<char>, needle: Seq<char>, i: int) -> bool {
    &&& 0 <= i
    &&& i + needle.len() <= hay.len()
    &&& hay.subrange(i, i + needle.len()) == needle
}

/// The index of the first occurrence of `needle` in `hay` at or after
/// `from`.
pub open spec fn find_from(hay: Seq<char>, needle: Seq<char>, from: int) -> Option<int>
    decreases hay.len() - from + 1,
{
    if from < 0 || from + needle.len() > hay.len() {
        None
    } else if occurs_at(hay, needle, from) {
        Some(from)
    } else {
        find_from(hay, needle, from + 1)
    }
}

/// Whether `needle` occurs in `hay`.
pub open spec fn contains_seq(hay: Seq<char>, needle: Seq<char>) -> bool {
    find_from(hay, needle, 0) is Some
}

/// `find_from` gives the first occurrence at or after `from`, and `None`
/// exactly where there is none.
pub proof fn lemma_find_from_is_first(hay: Seq<char>, needle: Seq<char>, from: int)
    requires
        0 <= from,
    ensures
        match find_from(hay, needle, from) {
            Some(at) => {
                &&& from <= at
                &&& occurs_at(hay, needle, at)
                &&& forall|i: int| from <= i < at ==> !occurs_at(hay, needle, i)
            },
            None => forall|i: int| from <= i ==> !occurs_at(hay, needle, i),
        },
    decreases hay.len() - from + 1,
{
    if from + needle.len() > hay.len() {
    } else if occurs_at(hay, needle, from) {
    } else {
        lemma_find_from_is_first(hay, needle, from + 1);
    }
}

/// Whether `needle` stands in `hay` at index `at`.
pub fn matches_at(hay: &[char], needle: &[char], at: usize) -> (found: bool)
    ensures
        found == occurs_at(hay@, needle@, at as int),
{
    if needle.len() > hay.len() || at > hay.len() - needle.len() {
        return false;
    }
    let mut k: usize = 0;
    while k < needle.len()
        invariant
            k <= needle.len(),
            at + needle.len() <= hay.len(),
            forall|j: int| 0 <= j < k ==> hay@[at + j] == needle@[j],
        decreases needle.len() - k,
    {
        if hay[at + k] != needle[k] {
            assert(hay@.subrange(at as int, at + needle.len())[k as int] == hay@[at + k]);
            return false;
        }
        k = k + 1;
    }
    assert(hay@.subrange(at as int, at + needle.len()) =~= needle@);
    true
}

/// The index of the first occurrence of `needle` in `hay` at or after
/// `from`.
pub fn find_chars(hay: &[char], needle: &[char], from: usize) -> (found: Option<usize>)
    ensures
        found is Some <==> find_from(hay@, needle@, from as int) is Some,
        found matches Some(at) ==> {
            &&& find_from(hay@, needle@, from as int) == Some(at as int)
            &&& from <= at
            &&& at + needle.len() <= hay.len()
        },
{
    proof {
        lemma_find_from_is_first(hay@, needle@, from as int);
    }
    if needle.len() > hay.len() {
        return None;
    }
    let last = hay.len() - needle.len();
    let mut i: usize = from;
    while i <= last
        invariant
            last == hay.len() - needle.len(),
            from <= i,
            find_from(hay@, needle@, from as int) == find_from(hay@, needle@, i as int),
        decreases last + 1 - i,
    {
        if matches_at(hay, needle, i) {
            proof {
                lemma_find_from_is_first(hay@, needle@, i as int);
            }
            return Some(i);
        }
        if i == last {
            assert(find_from(hay@, needle@, i + 1) is None);
            return None;
        }
        i = i + 1;
    }
    None
}

/// Whether `needle` occurs in `hay`.
pub fn contains_chars(hay: &[char], needle: &[char]) -> (found: bool)
    ensures
        found == contains_seq(hay@, needle@),
{
    find_chars(hay, needle, 0).is_some()
}

/// Whether `needle` occurs in `hay`.
pub fn str_contains(hay: &str, needle: &str) -> (found: bool)
    ensures
        found == contains_seq(hay@, needle@),
{
    let hay_chars = chars_of(hay);
    let needle_chars = chars_of(needle);
    contains_chars(hay_chars.as_slice(), needle_chars.as_slice())
}

/// The text of `s` from character `from` up to character `to`.
pub fn substring(s: &str, from: usize, to: usize) -> (part: String)
    requires
        from <= to <= s@.len(),
    ensures
        part@ == s@.subrange(from as int, to as int),
{
    String::from_str(s.substring_char(from, to))
}

/// The lower-case form of a text, as the standard library maps it.
pub uninterp spec fn lowercase(s: Seq<char>) -> Seq<char>;

/// `str::to_lowercase`: the lower-case form of `s`.
#[verifier::external_body]
pub(crate) fn to_lowercase(s: &str) -> (lower: String)
    ensures
        lower@ == lowercase(s@),
{
    s.to_lowercase()
}

/// Whether the standard library counts `c`, a character beyond ASCII, as
/// white space.
pub uninterp spec fn is_wide_whitespace(c: char) -> bool;

/// Whether the standard library counts `c` as white space: the characters
/// with Unicode's property of that name. Of the ASCII characters these are
/// the blank and the five from the tab to the carriage return.
pub open spec fn is_whitespace(c: char) -> bool {
    if (c as u32) < 128 {
        c == ' ' || ('\t' <= c && c <= '\r')
    } else {
        is_wide_whitespace(c)
    }
}

/// `char::is_whitespace`: whether `c` is white space. For an ASCII
/// character the answer is stated; beyond ASCII it is named.
#[verifier::external_body]
pub(crate) fn char_is_whitespace(c: char) -> (white: bool)
    ensures
        white == is_whitespace(c),
        (c as u32) >= 128 ==> white == is_wide_whitespace(c),
{
    c.is_whitespace()
}

/// The index of the first character at or after `from` that is not white
/// space, or the length of `s` where there is none.
pub open spec fn skip_whitespace(s: Seq<char>, from: int) -> int
    decreases s.len() - from,
{
    if from < 0 || from >= s.len() {
        s.len() as int
    } else if is_whitespace(s[from]) {
        skip_whitespace(s, from + 1)
    } else {
        from
    }
}

/// The index of the first white-space character at or after `from`, or the
/// length of `s` where there is none.
pub open spec fn skip_word(s: Seq<char>, from: int) -> int
    decreases s.len() - from,
{
    if from < 0 || from >= s.len() {
        s.len() as int
    } else if is_whitespace(s[from]) {
        from
    } else {
        skip_word(s, from + 1)
    }
}

/// The index one past the last character before `to` that is not white
/// space, or `from` where there is none at or after `from`.
pub open spec fn trim_end(s: Seq<char>, from: int, to: int) -> int
    decreases to - from,
{
    if to <= from || to > s.len() || from < 0 {
        from
    } else if is_whitespace(s[to - 1]) {
        trim_end(s, from, to - 1)
    } else {
        to
    }
}

/// `s` without its leading and trailing white space.
pub open spec fn trimmed(s: Seq<char>) -> Seq<char> {
    let start = skip_whitespace(s, 0);
    s.subrange(start, trim_end(s, start, s.len() as int))
}

/// The index of the first character at or after `from` that is not white
/// space.
pub fn skip_whitespace_in(s: &[char], from: usize) -> (at: usize)
    requires
        from <= s.len(),
    ensures
        at == skip_whitespace(s@, from as int),
        from <= at <= s.len(),
{
    let mut i: usize = from;
    while i < s.len() && char_is_whitespace(s[i])
        invariant
            from <= i <= s.len(),
            skip_whitespace(s@, from as int) == skip_whitespace(s@, i as int),
        decreases s.len() - i,
    {
        i = i + 1;
    }
    i
}

/// The index of the first white-space character at or after `from`.
pub fn skip_word_in(s: &[char], from: usize) -> (at: usize)
    requires
        from <= s.len(),
    ensures
        at == skip_word(s@, from as int),
        from <= at <= s.len(),
{
    let mut i: usize = from;
    while i < s.len() && !char_is_whitespace(s[i])
        invariant
            from <= i <= s.len(),
            skip_word(s@, from as int) == skip_word(s@, i as int),
        decreases s.len() - i,
    {
        i = i + 1;
    }
    i
}

/// The index one past the last character of `s[from..to]` that is not white
/// space.
pub fn trim_end_in(s: &[char], from: usize, to: usize) -> (at: usize)
    requires
        from <= to <= s.len(),
    ensures
        at == trim_end(s@, from as int, to as int),
        from <= at <= to,
{
    let mut i: usize = to;
    while i > from && char_is_whitespace(s[i - 1])
        invariant
            from <= i <= to <= s.len(),
            trim_end(s@, from as int, to as int) == trim_end(s@, from as int, i as int),
        decreases i - from,
    {
        i = i - 1;
    }
    i
}

/// `s` without its leading and trailing white space.
pub fn trim(s: &str) -> (out: String)
    ensures
        out@ == trimmed(s@),
{
    let chars = chars_of(s);
    let start = skip_whitespace_in(chars.as_slice(), 0);
    let end = trim_end_in(chars.as_slice(), start, chars.len());
    substring(s, start, end)
}


/// `String::from_iter` over characters: the string that holds `chars`.
#[verifier::external_body]
pub(crate) fn string_from_chars(chars: &[char]) -> (s: String)
    ensures
        s@ == chars@,
{
    String::from_iter(chars)
}

/// `hay` with every occurrence of `from` replaced by `to`, reading left to
/// right and never looking back into what was replaced. An empty `from`
/// replaces nothing.
pub open spec fn replace_from(hay: Seq<char>, from: Seq<char>, to: Seq<char>, at: int) -> Seq<char>
    decreases hay.len() - at + 1,
{
    if at < 0 || at >= hay.len() || from.len() == 0 {
        if 0 <= at <= hay.len() {
            hay.subrange(at, hay.len() as int)
        } else {
            Seq::empty()
        }
    } else if occurs_at(hay, from, at) {
        to + replace_from(hay, from, to, at + from.len())
    } else {
        seq![hay[at]] + replace_from(hay, from, to, at + 1)
    }
}

/// `hay` with every occurrence of `from` replaced by `to`.
pub open spec fn replaced(hay: Seq<char>, from: Seq<char>, to: Seq<char>) -> Seq<char> {
    replace_from(hay, from, to, 0)
}

/// `hay` with every occurrence of `from` replaced by `to`.
pub fn replace_chars(hay: &[char], from: &[char], to: &[char]) -> (out: Vec<char>)
    ensures
        out@ == replaced(hay@, from@, to@),
{
    let mut out: Vec<char> = Vec::new();
    let mut at: usize = 0;
    if from.len() == 0 {
        while at < hay.len()
            invariant
                at <= hay.len(),
                out@ == hay@.subrange(0, at as int),
            decreases hay.len() - at,
        {
            out.push(hay[at]);
            assert(out@ =~= hay@.subrange(0, at + 1));
            at = at + 1;
        }
        assert(out@ =~= replaced(hay@, from@, to@));
        return out;
    }
    while at < hay.len()
        invariant
            at <= hay.len(),
            from.len() > 0,
            out@ + replace_from(hay@, from@, to@, at as int) == replaced(hay@, from@, to@),
        decreases hay.len() - at,
    {
        let ghost rest = replace_from(hay@, from@, to@, at as int);
        let ghost before = out@;
        if matches_at(hay, from, at) {
            let mut k: usize = 0;
            while k < to.len()
                invariant
                    k <= to.len(),
                    out@ == before + to@.subrange(0, k as int),
                decreases to.len() - k,
            {
                out.push(to[k]);
                assert(out@ =~= before + to@.subrange(0, k + 1));
                k = k + 1;
            }
            assert(to@.subrange(0, to.len() as int) =~= to@);
            assert(out@ + replace_from(hay@, from@, to@, at + from.len()) =~= before + rest);
            at = at + from.len();
        } else {
            out.push(hay[at]);
            assert(out@ + replace_from(hay@, from@, to@, at + 1) =~= before + rest);
            at = at + 1;
        }
    }
    assert(replace_from(hay@, from@, to@, at as int) =~= Seq::<char>::empty());
    assert(out@ =~= out@ + Seq::<char>::empty());
    out
}

/// The index of the first line feed at or after `from`, or the length of
/// `s` where there is none: the end of the line that `from` stands in.
pub open spec fn line_end(s: Seq<char>, from: int) -> int
    decreases s.len() - from,
{
    if from < 0 || from >= s.len() {
        s.len() as int
    } else if s[from] == '\n' {
        from
    } else {
        line_end(s, from + 1)
    }
}

/// The end of the line that `from` stands in.
pub fn line_end_in(s: &[char], from: usize) -> (at: usize)
    requires
        from <= s.len(),
    ensures
        at == line_end(s@, from as int),
        from <= at <= s.len(),
{
    let mut i: usize = from;
    while i < s.len() && s[i] != '\n'
        invariant
            from <= i <= s.len(),
            line_end(s@, from as int) == line_end(s@, i as int),
        decreases s.len() - i,
    {
        i = i + 1;
    }
    i
}


/// The index at which the last word of `s[from..to]` starts, where `to`
/// stands right after a character that is not white space.
pub open spec fn word_start(s: Seq<char>, from: int, to: int) -> int
    decreases to - from,
{
    if to <= from || to > s.len() || from < 0 {
        from
    } else if is_whitespace(s[to - 1]) {
        to
    } else {
        word_start(s, from, to - 1)
    }
}

/// The index at which the last word of `s[from..to]` starts.
pub fn word_start_in(s: &[char], from: usize, to: usize) -> (at: usize)
    requires
        from <= to <= s.len(),
    ensures
        at == word_start(s@, from as int, to as int),
        from <= at <= to,
{
    let mut i: usize = to;
    while i > from && !char_is_whitespace(s[i - 1])
        invariant
            from <= i <= to <= s.len(),
            word_start(s@, from as int, to as int) == word_start(s@, from as int, i as int),
        decreases i - from,
    {
        i = i - 1;
    }
    i
}

} // verus!
