//! Text as sequences of characters: the conversions between `str`, `String`
//! and `Vec<char>`, and the small searches and renderings that the rest of the
//! crate is built from.

use vstd::prelude::*;
use vstd::string::*;

verus! {

/// The views of a sequence of strings, one per string.
pub open spec fn texts(strings: Seq<String>) -> Seq<Seq<char>> {
    Seq::new(strings.len(), |i: int| strings[i]@)
}

/// The characters of an optional string.
pub open spec fn opt_text(s: Option<String>) -> Option<Seq<char>> {
    match s {
        Some(s) => Some(s@),
        None => None,
    }
}

/// The characters of an optional string slice.
pub open spec fn opt_chars(s: Option<&str>) -> Option<Seq<char>> {
    match s {
        Some(s) => Some(s@),
        None => None,
    }
}

/// Appends one character to a string.
///
/// Calls `String::push` of the standard library, which Verus has no
/// specification for; the contract states what its documentation does: the
/// character is added at the end.
#[verifier::external_body]
pub(crate) fn push_char(s: &mut String, c: char)
    ensures
        final(s)@ == old(s)@.push(c),
{
    s.push(c);
}

/// The characters of `s`, in order.
pub fn chars_of(s: &str) -> (v: Vec<char>)
    ensures
        v@ == s@,
{
    let mut v: Vec<char> = Vec::new();
    for c in it: s.chars()
        invariant
            v@ == it.seq().take(it.index() as int),
            it.seq() == s@,
    {
        v.push(c);
    }
    v
}

/// The string made of the characters of `v`, in order.
pub fn string_of(v: &Vec<char>) -> (s: String)
    ensures
        s@ == v@,
{
    let mut s = String::new();
    let mut i: usize = 0;
    while i < v.len()
        invariant
            i <= v.len(),
            s@ == v@.take(i as int),
        decreases v.len() - i,
    {
        push_char(&mut s, v[i]);
        i += 1;
    }
    s
}

/// Whether two strings hold the same characters.
pub fn str_eq(a: &str, b: &str) -> (same: bool)
    ensures
        same == (a@ == b@),
{
    let x = chars_of(a);
    let y = chars_of(b);
    chars_eq(&x, &y)
}

/// Whether two character vectors hold the same characters.
pub fn chars_eq(x: &Vec<char>, y: &Vec<char>) -> (same: bool)
    ensures
        same == (x@ == y@),
{
    if x.len() != y.len() {
        return false;
    }
    let mut i: usize = 0;
    while i < x.len()
        invariant
            i <= x.len(),
            x.len() == y.len(),
            x@.take(i as int) == y@.take(i as int),
        decreases x.len() - i,
    {
        if x[i] != y[i] {
            return false;
        }
        assert(x@.take(i + 1) =~= x@.take(i as int).push(x@[i as int]));
        assert(y@.take(i + 1) =~= y@.take(i as int).push(y@[i as int]));
        i += 1;
    }
    assert(x@ =~= x@.take(x.len() as int));
    assert(y@ =~= y@.take(y.len() as int));
    true
}

/// Whether `c` has the Unicode property White_Space.
pub open spec fn is_whitespace(c: char) -> bool {
    let n = c as u32;
    (0x09 <= n <= 0x0D) || n == 0x20 || n == 0x85 || n == 0xA0 || n == 0x1680 || (0x2000 <= n
        <= 0x200A) || n == 0x2028 || n == 0x2029 || n == 0x202F || n == 0x205F || n == 0x3000
}

/// Whether `c` is a white space character.
pub fn char_is_whitespace(c: char) -> (white: bool)
    ensures
        white == is_whitespace(c),
{
    let n: u32 = c as u32;
    (0x09 <= n && n <= 0x0D) || n == 0x20 || n == 0x85 || n == 0xA0 || n == 0x1680 || (0x2000 <= n
        && n <= 0x200A) || n == 0x2028 || n == 0x2029 || n == 0x202F || n == 0x205F || n == 0x3000
}

/// `s` without its leading white space.
pub open spec fn trim_start(s: Seq<char>) -> Seq<char>
    decreases s.len(),
{
    if s.len() > 0 && is_whitespace(s[0]) {
        trim_start(s.drop_first())
    } else {
        s
    }
}

/// `s` without its trailing white space.
pub open spec fn trim_end(s: Seq<char>) -> Seq<char>
    decreases s.len(),
{
    if s.len() > 0 && is_whitespace(s.last()) {
        trim_end(s.drop_last())
    } else {
        s
    }
}

/// `s` without its leading and trailing white space.
pub open spec fn trim(s: Seq<char>) -> Seq<char> {
    trim_end(trim_start(s))
}

/// The index of the first character of `v` that is no white space, or the
/// length of `v` where every character is.
pub fn skip_whitespace(v: &Vec<char>, from: usize) -> (at: usize)
    requires
        from <= v.len(),
    ensures
        from <= at <= v.len(),
        trim_start(v@.skip(from as int)) == v@.skip(at as int),
{
    let mut i = from;
    while i < v.len() && char_is_whitespace(v[i])
        invariant
            from <= i <= v.len(),
            trim_start(v@.skip(from as int)) == trim_start(v@.skip(i as int)),
        decreases v.len() - i,
    {
        assert(v@.skip(i as int).drop_first() =~= v@.skip(i + 1));
        i += 1;
    }
    i
}

/// The length that `v` keeps once the white space at its end, after `from`,
/// is cut off.
pub fn trimmed_end(v: &Vec<char>, from: usize) -> (to: usize)
    requires
        from <= v.len(),
    ensures
        from <= to <= v.len(),
        trim_end(v@.skip(from as int)) == v@.subrange(from as int, to as int),
{
    let mut j = v.len();
    assert(v@.skip(from as int) =~= v@.subrange(from as int, j as int));
    while j > from && char_is_whitespace(v[j - 1])
        invariant
            from <= j <= v.len(),
            trim_end(v@.skip(from as int)) == trim_end(v@.subrange(from as int, j as int)),
        decreases j,
    {
        assert(v@.subrange(from as int, j as int).drop_last() =~= v@.subrange(
            from as int,
            j - 1,
        ));
        j -= 1;
    }
    j
}

/// The characters of `v` from `from` up to `to`.
pub fn slice_of(v: &Vec<char>, from: usize, to: usize) -> (part: Vec<char>)
    requires
        from <= to <= v.len(),
    ensures
        part@ == v@.subrange(from as int, to as int),
{
    let mut part: Vec<char> = Vec::new();
    let mut i = from;
    while i < to
        invariant
            from <= i <= to <= v.len(),
            part@ == v@.subrange(from as int, i as int),
        decreases to - i,
    {
        part.push(v[i]);
        assert(v@.subrange(from as int, i + 1) =~= v@.subrange(from as int, i as int).push(
            v@[i as int],
        ));
        i += 1;
    }
    part
}

/// `s` with its leading and trailing white space removed.
pub fn trimmed(s: &str) -> (t: String)
    ensures
        t@ == trim(s@),
{
    let v = chars_of(s);
    let from = skip_whitespace(&v, 0);
    let to = trimmed_end(&v, from);
    assert(v@.skip(0) =~= v@);
    let part = slice_of(&v, from, to);
    string_of(&part)
}

/// `s` without its trailing white space.
pub fn trimmed_end_string(s: &str) -> (t: String)
    ensures
        t@ == trim_end(s@),
{
    let v = chars_of(s);
    let to = trimmed_end(&v, 0);
    assert(v@.skip(0) =~= v@);
    let part = slice_of(&v, 0, to);
    string_of(&part)
}

/// Whether `needle` stands in `hay` at index `at`.
pub open spec fn occurs_at(hay: Seq<char>, needle: Seq<char>, at: int) -> bool {
    0 <= at && at + needle.len() <= hay.len() && hay.subrange(at, at + needle.len()) == needle
}

/// Whether `needle` stands somewhere in `hay`.
pub open spec fn contains_text(hay: Seq<char>, needle: Seq<char>) -> bool {
    exists|at: int| occurs_at(hay, needle, at)
}

/// Whether `needle` stands in `hay` at index `at`.
pub fn matches_at(hay: &Vec<char>, needle: &Vec<char>, at: usize) -> (found: bool)
    ensures
        found == occurs_at(hay@, needle@, at as int),
{
    if needle.len() > hay.len() || at > hay.len() - needle.len() {
        return false;
    }
    let mut k: usize = 0;
    while k < needle.len()
        invariant
            k <= needle.len(),
            at + needle.len() <= hay.len(),
            hay@.subrange(at as int, at + k) == needle@.take(k as int),
        decreases needle.len() - k,
    {
        if hay[at + k] != needle[k] {
            assert(hay@.subrange(at as int, at + needle.len())[k as int] != needle@[k as int]);
            return false;
        }
        assert(hay@.subrange(at as int, at + k + 1) =~= hay@.subrange(at as int, at + k).push(
            hay@[at + k],
        ));
        assert(needle@.take(k + 1) =~= needle@.take(k as int).push(needle@[k as int]));
        k += 1;
    }
    assert(needle@.take(needle.len() as int) =~= needle@);
    true
}

/// The index of the first occurrence of `needle` in `hay` at or after `from`.
pub fn find_text(hay: &Vec<char>, needle: &Vec<char>, from: usize) -> (found: Option<usize>)
    ensures
        match found {
            Some(at) => from <= at && occurs_at(hay@, needle@, at as int) && forall|k: int|
                from <= k < at ==> !occurs_at(hay@, needle@, k),
            None => forall|k: int| from <= k ==> !occurs_at(hay@, needle@, k),
        },
{
    if needle.len() > hay.len() {
        return None;
    }
    let last = hay.len() - needle.len();
    let mut i = from;
    while i <= last
        invariant
            from <= i,
            last == hay.len() - needle.len(),
            needle.len() <= hay.len(),
            forall|k: int| from <= k < i ==> !occurs_at(hay@, needle@, k),
        decreases last + 1 - i,
    {
        if matches_at(hay, needle, i) {
            return Some(i);
        }
        if i == last {
            return None;
        }
        i += 1;
    }
    None
}

/// Whether `needle` stands somewhere in `hay`.
pub fn str_contains(hay: &str, needle: &str) -> (found: bool)
    ensures
        found == contains_text(hay@, needle@),
{
    let h = chars_of(hay);
    let n = chars_of(needle);
    find_text(&h, &n, 0).is_some()
}

/// Whether `s` begins with `prefix`.
pub fn str_starts_with(s: &str, prefix: &str) -> (found: bool)
    ensures
        found == prefix@.is_prefix_of(s@),
{
    let h = chars_of(s);
    let n = chars_of(prefix);
    let found = matches_at(&h, &n, 0);
    proof {
        if found {
            assert(h@.subrange(0, n@.len() as int) =~= n@);
        }
        if n@.is_prefix_of(h@) {
            assert(h@.subrange(0, n@.len() as int) =~= n@);
        }
    }
    found
}

/// The decimal digit that stands for `d`.
pub open spec fn digit_char(d: nat) -> char {
    if d == 0 {
        '0'
    } else if d == 1 {
        '1'
    } else if d == 2 {
        '2'
    } else if d == 3 {
        '3'
    } else if d == 4 {
        '4'
    } else if d == 5 {
        '5'
    } else if d == 6 {
        '6'
    } else if d == 7 {
        '7'
    } else if d == 8 {
        '8'
    } else {
        '9'
    }
}

/// `n` written in decimal, without leading zeros.
pub open spec fn decimal(n: nat) -> Seq<char>
    decreases n,
{
    if n < 10 {
        seq![digit_char(n)]
    } else {
        decimal(n / 10).push(digit_char(n % 10))
    }
}

/// `n` written with two decimal digits; a leading zero where `n` is below ten.
pub open spec fn two_digits(n: nat) -> Seq<char> {
    seq![digit_char(n / 10), digit_char(n % 10)]
}

fn digit(d: u64) -> (c: char)
    requires
        d < 10,
    ensures
        c == digit_char(d as nat),
{
    match d {
        0 => '0',
        1 => '1',
        2 => '2',
        3 => '3',
        4 => '4',
        5 => '5',
        6 => '6',
        7 => '7',
        8 => '8',
        _ => '9',
    }
}

/// Appends the decimal form of `n` to `out`.
pub fn push_decimal(out: &mut String, n: u64)
    ensures
        final(out)@ == old(out)@ + decimal(n as nat),
    decreases n,
{
    if n >= 10 {
        push_decimal(out, n / 10);
    }
    push_char(out, digit(n % 10));
    proof {
        if n >= 10 {
            assert(final(out)@ =~= old(out)@ + decimal(n as nat));
        } else {
            assert(final(out)@ =~= old(out)@ + decimal(n as nat));
        }
    }
}

/// `n` in decimal.
pub fn decimal_string(n: u64) -> (s: String)
    ensures
        s@ == decimal(n as nat),
{
    let mut s = String::new();
    push_decimal(&mut s, n);
    assert(s@ =~= decimal(n as nat));
    s
}

/// Appends `n`, below one hundred, to `out` as two decimal digits.
pub fn push_two_digits(out: &mut String, n: u8)
    requires
        n < 100,
    ensures
        final(out)@ == old(out)@ + two_digits(n as nat),
{
    let n: u64 = n as u64;
    push_char(out, digit(n / 10));
    push_char(out, digit(n % 10));
    assert(final(out)@ =~= old(out)@ + two_digits(n as nat));
}

/// `s` with every `c` replaced by `with`.
pub open spec fn replace_char(s: Seq<char>, c: char, with: Seq<char>) -> Seq<char>
    decreases s.len(),
{
    if s.len() == 0 {
        Seq::empty()
    } else {
        (if s[0] == c {
            with
        } else {
            seq![s[0]]
        }) + replace_char(s.drop_first(), c, with)
    }
}

/// Appends `s` to `out`, writing `with` for every `c`.
pub fn push_replaced(out: &mut String, s: &str, c: char, with: &str)
    ensures
        final(out)@ == old(out)@ + replace_char(s@, c, with@),
{
    let v = chars_of(s);
    let mut i: usize = 0;
    assert(v@.skip(0) =~= v@);
    assert(out@ + replace_char(v@, c, with@) =~= old(out)@ + replace_char(v@, c, with@));
    while i < v.len()
        invariant
            i <= v.len(),
            out@ + replace_char(v@.skip(i as int), c, with@) == old(out)@ + replace_char(
                v@,
                c,
                with@,
            ),
        decreases v.len() - i,
    {
        let ghost before = out@;
        let ghost rest = replace_char(v@.skip(i + 1), c, with@);
        assert(v@.skip(i as int).drop_first() =~= v@.skip(i + 1));
        if v[i] == c {
            out.append(with);
            assert(out@ + rest =~= before + (with@ + rest));
        } else {
            push_char(out, v[i]);
            assert(out@ + rest =~= before + (seq![v@[i as int]] + rest));
        }
        i += 1;
    }
    assert(out@ + replace_char(v@.skip(v.len() as int), c, with@) =~= out@);
}

/// The parts in order, with `sep` between each two neighbours.
pub open spec fn joined(parts: Seq<Seq<char>>, sep: Seq<char>) -> Seq<char>
    decreases parts.len(),
{
    if parts.len() == 0 {
        Seq::empty()
    } else if parts.len() == 1 {
        parts[0]
    } else {
        joined(parts.drop_last(), sep) + sep + parts.last()
    }
}

/// The parts in order, with `sep` between each two neighbours.
///
/// Calls `Itertools::join` on the strings. The contract states what its source
/// does for strings: the first element, then for every later element the
/// separator and the element; the empty string where there is no element.
#[verifier::external_body]
pub(crate) fn join_strings(parts: &Vec<String>, sep: &str) -> (all: String)
    ensures
        all@ == joined(texts(parts@), sep@),
{
    itertools::Itertools::join(&mut parts.iter(), sep)
}

/// The lines in order, each closed by a line feed.
pub open spec fn lines_text(lines: Seq<Seq<char>>) -> Seq<char>
    decreases lines.len(),
{
    if lines.len() == 0 {
        Seq::empty()
    } else {
        lines[0] + seq!['\n'] + lines_text(lines.drop_first())
    }
}

/// The parts in order, each with `end` behind it.
pub open spec fn each_followed_by(parts: Seq<Seq<char>>, end: Seq<char>) -> Seq<char>
    decreases parts.len(),
{
    if parts.len() == 0 {
        Seq::empty()
    } else {
        parts[0] + end + each_followed_by(parts.drop_first(), end)
    }
}

/// The parts in order, each with `end` behind it.
///
/// Calls `Itertools::interleave_shortest` with an endless supply of `end`
/// and collects the pieces. The contract states what its source does then:
/// it takes from the parts and from the supply in turn, starting with a
/// part, and stops when the parts have run out.
#[verifier::external_body]
pub(crate) fn interleave(parts: &Vec<String>, end: &str) -> (all: String)
    ensures
        all@ == each_followed_by(texts(parts@), end@),
{
    let parts = parts.iter().map(String::as_str);
    itertools::Itertools::interleave_shortest(parts, std::iter::repeat(end)).collect()
}

/// Lines written out are the lines, each with a line feed behind it.
pub proof fn lemma_lines_text_is_each_followed(lines: Seq<Seq<char>>)
    ensures
        lines_text(lines) == each_followed_by(lines, seq!['\n']),
    decreases lines.len(),
{
    if lines.len() > 0 {
        lemma_lines_text_is_each_followed(lines.drop_first());
    }
}

/// The lines in order, each closed by a line feed.
pub fn join_lines(lines: &Vec<String>) -> (all: String)
    ensures
        all@ == lines_text(texts(lines@)),
{
    proof {
        reveal_strlit("\n");
        assert("\n"@ =~= seq!['\n']);
        lemma_lines_text_is_each_followed(texts(lines@));
    }
    interleave(lines, "\n")
}

/// The number of characters of `s` before its first line feed.
pub open spec fn line_end(s: Seq<char>) -> int
    decreases s.len(),
{
    if s.len() == 0 || s[0] == '\n' {
        0
    } else {
        1 + line_end(s.drop_first())
    }
}

/// `line` without a carriage return at its end.
pub open spec fn without_cr(line: Seq<char>) -> Seq<char> {
    if line.len() > 0 && line.last() == '\r' {
        line.drop_last()
    } else {
        line
    }
}

/// The lines of `text`. A line ends at a line feed, or at a carriage return
/// directly before one; neither belongs to the line. What follows the last
/// line feed is a line only where it is not empty.
pub open spec fn lines_of(text: Seq<char>) -> Seq<Seq<char>>
    decreases text.len(),
    via lines_of_decreases
{
    if text.len() == 0 {
        Seq::empty()
    } else {
        let n = line_end(text);
        if n >= text.len() {
            seq![text]
        } else {
            seq![without_cr(text.take(n))] + lines_of(text.skip(n + 1))
        }
    }
}

#[via_fn]
proof fn lines_of_decreases(text: Seq<char>) {
    lemma_line_end_bounds(text);
}

/// The first line feed of `s`, where it has one, stands at `line_end(s)`, and
/// none stands before.
pub proof fn lemma_line_end_bounds(s: Seq<char>)
    ensures
        0 <= line_end(s) <= s.len(),
        line_end(s) < s.len() ==> s[line_end(s)] == '\n',
        forall|k: int| 0 <= k < line_end(s) ==> s[k] != '\n',
    decreases s.len(),
{
    if s.len() == 0 || s[0] == '\n' {
    } else {
        lemma_line_end_bounds(s.drop_first());
        assert forall|k: int| 0 <= k < line_end(s) implies s[k] != '\n' by {
            if k > 0 {
                assert(s[k] == s.drop_first()[k - 1]);
            }
        }
    }
}

/// The lines of `text`.
pub fn split_lines(text: &str) -> (lines: Vec<String>)
    ensures
        texts(lines@) == lines_of(text@),
{
    let v = chars_of(text);
    let mut lines: Vec<String> = Vec::new();
    let mut start: usize = 0;
    assert(v@.skip(0) =~= v@);
    assert(texts(lines@) + lines_of(v@.skip(0)) =~= lines_of(v@));
    while start < v.len()
        invariant
            start <= v.len(),
            texts(lines@) + lines_of(v@.skip(start as int)) == lines_of(v@),
        decreases v.len() - start,
    {
        let ghost rest = v@.skip(start as int);
        let mut end = start;
        while end < v.len() && v[end] != '\n'
            invariant
                start <= end <= v.len(),
                rest == v@.skip(start as int),
                line_end(rest) == (end - start) + line_end(v@.skip(end as int)),
            decreases v.len() - end,
        {
            assert(v@.skip(end as int).drop_first() =~= v@.skip(end + 1));
            end += 1;
        }
        proof {
            lemma_line_end_bounds(rest);
            assert(line_end(rest) == end - start);
        }
        let ghost before = texts(lines@);
        if end == v.len() {
            let part = slice_of(&v, start, end);
            assert(part@ =~= rest);
            lines.push(string_of(&part));
            assert(texts(lines@) =~= before + seq![rest]);
            start = end;
            assert(lines_of(v@.skip(start as int)) =~= Seq::<Seq<char>>::empty());
        } else {
            let stop = if end > start && v[end - 1] == '\r' {
                end - 1
            } else {
                end
            };
            let part = slice_of(&v, start, stop);
            assert(rest.take(end - start) =~= v@.subrange(start as int, end as int));
            assert(part@ =~= without_cr(rest.take(end - start)));
            lines.push(string_of(&part));
            assert(texts(lines@) =~= before + seq![part@]);
            assert(rest.skip(end - start + 1) =~= v@.skip(end + 1));
            start = end + 1;
        }
    }
    assert(lines_of(v@.skip(start as int)) =~= Seq::<Seq<char>>::empty());
    lines
}

/// Whether `s` ends with `suffix`.
pub fn ends_with_chars(s: &Vec<char>, suffix: &Vec<char>) -> (found: bool)
    ensures
        found == suffix@.is_suffix_of(s@),
{
    if suffix.len() > s.len() {
        return false;
    }
    let at = s.len() - suffix.len();
    let found = matches_at(s, suffix, at);
    proof {
        assert(s@.skip(at as int) =~= s@.subrange(at as int, at + suffix.len()));
    }
    found
}

/// Whether `line` can stand as one line of a text: it holds no line feed
/// and does not end in a carriage return.
pub open spec fn plain_line(line: Seq<char>) -> bool {
    (forall|i: int| 0 <= i < line.len() ==> #[trigger] line[i] != '\n') && !(line.len() > 0
        && line.last() == '\r')
}

/// Whether every one of `lines` can stand as one line of a text.
pub open spec fn plain_lines(lines: Seq<Seq<char>>) -> bool {
    forall|i: int| 0 <= i < lines.len() ==> plain_line(#[trigger] lines[i])
}

/// A text without line feed ends its first line at its own end.
pub proof fn lemma_line_end_of_plain(line: Seq<char>, rest: Seq<char>)
    requires
        forall|i: int| 0 <= i < line.len() ==> #[trigger] line[i] != '\n',
    ensures
        line_end(line + seq!['\n'] + rest) == line.len(),
        line_end(line) == line.len(),
    decreases line.len(),
{
    let all = line + seq!['\n'] + rest;
    if line.len() == 0 {
        assert(all[0] == '\n');
    } else {
        assert(all[0] == line[0]);
        assert(all.drop_first() =~= line.drop_first() + seq!['\n'] + rest);
        assert forall|i: int|
            0 <= i < line.drop_first().len() implies #[trigger] line.drop_first()[i] != '\n' by {
            assert(line.drop_first()[i] == line[i + 1]);
        }
        lemma_line_end_of_plain(line.drop_first(), rest);
    }
}

/// The lines of a text whose first line feed stands behind `line` are
/// `line`, without a carriage return at its end, and the lines of what
/// follows the line feed.
pub proof fn lemma_lines_of_line(line: Seq<char>, rest: Seq<char>)
    requires
        forall|i: int| 0 <= i < line.len() ==> #[trigger] line[i] != '\n',
    ensures
        lines_of(line + seq!['\n'] + rest) == seq![without_cr(line)] + lines_of(rest),
{
    let all = line + seq!['\n'] + rest;
    lemma_line_end_of_plain(line, rest);
    assert(all.take(line.len() as int) =~= line);
    assert(all.skip(line.len() as int + 1) =~= rest);
}

/// The lines of a plain line, a line feed and more text are the line and
/// the lines of that text.
pub proof fn lemma_lines_of_first(line: Seq<char>, rest: Seq<char>)
    requires
        plain_line(line),
    ensures
        lines_of(line + seq!['\n'] + rest) == seq![line] + lines_of(rest),
{
    lemma_lines_of_line(line, rest);
}

/// What is left when white space is cut off the end of a text is how the
/// text begins.
pub proof fn lemma_trim_end_is_prefix(s: Seq<char>)
    ensures
        trim_end(s).is_prefix_of(s),
    decreases s.len(),
{
    if s.len() > 0 && is_whitespace(s.last()) {
        lemma_trim_end_is_prefix(s.drop_last());
        let t = trim_end(s.drop_last());
        assert(s.subrange(0, t.len() as int) =~= s.drop_last().subrange(0, t.len() as int));
    } else {
        assert(s.subrange(0, s.len() as int) =~= s);
    }
}

/// Writing out lines and one more line writes the lines, then the line and
/// a line feed.
pub proof fn lemma_lines_text_push(lines: Seq<Seq<char>>, line: Seq<char>)
    ensures
        lines_text(lines.push(line)) == lines_text(lines) + line + seq!['\n'],
{
    assert(lines.push(line) =~= lines + seq![line]);
    lemma_lines_text_of_both(lines, seq![line]);
    lemma_lines_text_of_one(line);
    assert(lines_text(lines) + (line + seq!['\n']) =~= lines_text(lines) + line + seq!['\n']);
}

/// Appends `line` and a line feed to `out`.
pub fn push_line(out: &mut String, line: &str)
    ensures
        final(out)@ == old(out)@ + line@ + seq!['\n'],
{
    out.append(line);
    push_char(out, '\n');
    assert(out@ =~= old(out)@ + line@ + seq!['\n']);
}

/// Writing out one line writes the line and a line feed.
pub proof fn lemma_lines_text_of_one(line: Seq<char>)
    ensures
        lines_text(seq![line]) == line + seq!['\n'],
{
    assert(seq![line].drop_first() =~= Seq::<Seq<char>>::empty());
    assert(lines_text(Seq::<Seq<char>>::empty()) =~= Seq::<char>::empty());
    assert(seq![line][0] == line);
    assert(lines_text(seq![line]) =~= line + seq!['\n']);
}

/// Lines written out and read again are the same lines, and text that
/// follows them is read as it would be alone.
pub proof fn lemma_lines_written_then_read(lines: Seq<Seq<char>>, rest: Seq<char>)
    requires
        plain_lines(lines),
    ensures
        lines_of(lines_text(lines) + rest) == lines + lines_of(rest),
    decreases lines.len(),
{
    if lines.len() == 0 {
        assert(lines_text(lines) + rest =~= rest);
        assert(lines + lines_of(rest) =~= lines_of(rest));
    } else {
        let tail = lines_text(lines.drop_first()) + rest;
        assert(lines_text(lines) + rest =~= lines[0] + seq!['\n'] + tail);
        lemma_lines_of_first(lines[0], tail);
        assert(plain_lines(lines.drop_first())) by {
            assert forall|i: int| 0 <= i < lines.drop_first().len() implies plain_line(
                #[trigger] lines.drop_first()[i],
            ) by {
                assert(lines.drop_first()[i] == lines[i + 1]);
            }
        }
        lemma_lines_written_then_read(lines.drop_first(), rest);
        assert(seq![lines[0]] + (lines.drop_first() + lines_of(rest)) =~= lines + lines_of(rest));
    }
}

/// Writing out two lists of lines one after the other writes out the lines
/// of both.
pub proof fn lemma_lines_text_of_both(a: Seq<Seq<char>>, b: Seq<Seq<char>>)
    ensures
        lines_text(a + b) == lines_text(a) + lines_text(b),
    decreases a.len(),
{
    if a.len() == 0 {
        assert(a + b =~= b);
        assert(lines_text(a) + lines_text(b) =~= lines_text(b));
    } else {
        assert((a + b)[0] == a[0]);
        assert((a + b).drop_first() =~= a.drop_first() + b);
        lemma_lines_text_of_both(a.drop_first(), b);
        assert(lines_text(a + b) =~= lines_text(a) + lines_text(b));
    }
}

/// Text of several lines that is closed by a line feed and followed by
/// more text is read as its own lines and then the lines of what follows,
/// as long as it does not end in a line feed or a carriage return itself.
pub proof fn lemma_lines_of_closed(text: Seq<char>, rest: Seq<char>)
    requires
        text.len() > 0,
        text.last() != '\n',
        text.last() != '\r',
    ensures
        lines_of(text + seq!['\n'] + rest) == lines_of(text) + lines_of(rest),
    decreases text.len(),
{
    let all = text + seq!['\n'] + rest;
    let n = line_end(text);
    lemma_line_end_bounds(text);
    if n >= text.len() {
        assert(plain_line(text));
        lemma_lines_of_first(text, rest);
    } else {
        let head = text.take(n);
        let tail = text.skip(n + 1);
        assert(n < text.len() - 1) by {
            if n == text.len() - 1 {
                assert(text[n] == '\n');
            }
        }
        assert(tail.len() > 0);
        assert(tail.last() == text.last());
        assert(forall|i: int| 0 <= i < head.len() ==> #[trigger] head[i] != '\n');
        lemma_line_end_of_plain(head, tail + seq!['\n'] + rest);
        assert(all =~= head + seq!['\n'] + (tail + seq!['\n'] + rest));
        assert(all.take(n) =~= head);
        assert(all.skip(n + 1) =~= tail + seq!['\n'] + rest);
        lemma_lines_of_closed(tail, rest);
        assert(lines_of(all) =~= seq![without_cr(head)] + (lines_of(tail) + lines_of(rest)));
        assert(lines_of(text) =~= seq![without_cr(head)] + lines_of(tail));
    }
}

/// Whether `a` comes before `b` in the order of strings: at the first
/// place where they differ `a` has the lower character, or `a` ends there
/// and `b` goes on.
pub open spec fn lex_lt(a: Seq<char>, b: Seq<char>) -> bool
    decreases a.len(),
{
    if b.len() == 0 {
        false
    } else if a.len() == 0 {
        true
    } else if a[0] != b[0] {
        a[0] < b[0]
    } else {
        lex_lt(a.drop_first(), b.drop_first())
    }
}

/// Of two strings one comes before the other, unless they are the same.
pub proof fn lemma_lex_total(a: Seq<char>, b: Seq<char>)
    ensures
        lex_lt(a, b) || a == b || lex_lt(b, a),
        !(lex_lt(a, b) && lex_lt(b, a)),
        a == b ==> !lex_lt(a, b),
    decreases a.len(),
{
    if a.len() == 0 || b.len() == 0 {
        if a.len() == 0 && b.len() == 0 {
            assert(a =~= b);
        }
    } else if a[0] == b[0] {
        lemma_lex_total(a.drop_first(), b.drop_first());
        if a.drop_first() == b.drop_first() {
            assert(a =~= seq![a[0]] + a.drop_first());
            assert(b =~= seq![b[0]] + b.drop_first());
        }
        if a == b {
            assert(a.drop_first() == b.drop_first());
        }
    }
}

/// What comes before a string comes before everything behind that string.
pub proof fn lemma_lex_trans(a: Seq<char>, b: Seq<char>, c: Seq<char>)
    requires
        lex_lt(a, b),
        lex_lt(b, c),
    ensures
        lex_lt(a, c),
    decreases a.len(),
{
    if a.len() > 0 && a[0] == b[0] && b[0] == c[0] {
        lemma_lex_trans(a.drop_first(), b.drop_first(), c.drop_first());
    }
}

/// Whether `a` comes before `b` in the order of strings.
pub fn str_lt(a: &str, b: &str) -> (before: bool)
    ensures
        before == lex_lt(a@, b@),
{
    let x = chars_of(a);
    let y = chars_of(b);
    let mut i: usize = 0;
    assert(x@.skip(0) =~= x@);
    assert(y@.skip(0) =~= y@);
    while i < x.len() && i < y.len()
        invariant
            i <= x.len(),
            i <= y.len(),
            x@ == a@,
            y@ == b@,
            lex_lt(x@.skip(i as int), y@.skip(i as int)) == lex_lt(x@, y@),
        decreases x.len() - i,
    {
        assert(x@.skip(i as int).drop_first() =~= x@.skip(i + 1));
        assert(y@.skip(i as int).drop_first() =~= y@.skip(i + 1));
        if x[i] != y[i] {
            assert(x@.skip(i as int)[0] == x@[i as int]);
            assert(y@.skip(i as int)[0] == y@[i as int]);
            return x[i] < y[i];
        }
        i += 1;
    }
    i < y.len()
}

} // verus!
