//! Reading the first item back out of a systemd setting.
//!
//! An item is either wrapped in double or single quotes, or bare and ended
//! by a space. In both forms a backslash starts an escape: one of the named
//! ones, or a character number in hexadecimal or octal digits.

use vstd::prelude::*;
use crate::text::{chars_of, string_of, skip_whitespace, trimmed_end, slice_of, trim, trim_start,
    trim_end, is_whitespace, replace_char};
use crate::install::init::systemd_escaped_text;

verus! {

/// Why an item could not be read.
#[derive(Debug, Clone, Copy, PartialEq, Eq)]
pub enum UnquoteError {
    /// A backslash is followed by a character that starts no escape.
    UnknownEscape(char),
    /// The text ends before the escape has all its digits.
    EscapeTooShort { expected: u8, got: u8 },
    /// A digit of the escape is none of the escape's base.
    DoesNotFitBase { base: u32, char: char },
    /// The escape gives a number that no character has.
    InvalidUnicode(u32),
    /// The text ends before the quote that would close the item.
    MissingEndQuo(char),
}

/// Whether `n` is the number of a character: at most `0x10FFFF` and no
/// surrogate.
pub open spec fn is_scalar(n: int) -> bool {
    0 <= n <= 0xD7FF || 0xE000 <= n <= 0x10FFFF
}

/// The character with number `n`, if there is one.
///
/// Calls `char::from_u32` of the standard library, which Verus has no
/// specification for. The contract states what its documentation does: `None`
/// for a surrogate and for a number above `0x10FFFF`, else the character.
#[verifier::external_body]
fn char_from_u32(n: u32) -> (c: Option<char>)
    ensures
        c == (if is_scalar(n as int) {
            Some(n as char)
        } else {
            None::<char>
        }),
{
    char::from_u32(n)
}

/// The value of `c` as a digit: `0` to `9`, then the letters of ASCII in
/// either case from ten on.
pub open spec fn digit_number(c: char) -> int {
    if '0' <= c <= '9' {
        c as int - 48
    } else if 'a' <= c <= 'z' {
        c as int - 97 + 10
    } else if 'A' <= c <= 'Z' {
        c as int - 65 + 10
    } else {
        36
    }
}

/// The value of `c` as a digit of `base`, if it is one.
pub open spec fn digit_value(c: char, base: u32) -> Option<u32> {
    if digit_number(c) < base {
        Some(digit_number(c) as u32)
    } else {
        None
    }
}

/// The value of `c` as a digit of `base`, if it is one.
pub fn to_digit(c: char, base: u32) -> (value: Option<u32>)
    ensures
        value == digit_value(c, base),
{
    let n: u32 = c as u32;
    let v: u32 = if '0' <= c && c <= '9' {
        n - 48
    } else if 'a' <= c && c <= 'z' {
        n - 97 + 10
    } else if 'A' <= c && c <= 'Z' {
        n - 65 + 10
    } else {
        36
    };
    if v < base {
        Some(v)
    } else {
        None
    }
}

/// The number that the first `n` characters of `s` write in `base`, read
/// from index `i` on with `acc` for the digits before it; or the first
/// thing that is wrong with them.
pub open spec fn escape_code(s: Seq<char>, i: nat, n: nat, base: u32, acc: nat) -> Result<
    nat,
    UnquoteError,
>
    decreases n - i,
{
    if i >= n {
        Ok(acc)
    } else if i >= s.len() {
        Err(UnquoteError::EscapeTooShort { expected: n as u8, got: i as u8 })
    } else {
        match digit_value(s[i as int], base) {
            None => Err(UnquoteError::DoesNotFitBase { base, char: s[i as int] }),
            Some(d) => escape_code(s, i + 1, n, base, (acc * base + d) as nat),
        }
    }
}

/// The character whose number the first `n` characters of `s` write in
/// `base`.
pub open spec fn escape_char(s: Seq<char>, n: nat, base: u32) -> Result<char, UnquoteError> {
    match escape_code(s, 0, n, base, 0) {
        Err(e) => Err(e),
        Ok(num) => if is_scalar(num as int) {
            Ok(num as char)
        } else {
            Err(UnquoteError::InvalidUnicode(num as u32))
        },
    }
}

/// One more than the largest number that `i` hexadecimal digits write.
pub open spec fn sixteen_to(i: nat) -> nat
    decreases i,
{
    if i == 0 {
        1
    } else {
        16 * sixteen_to((i - 1) as nat)
    }
}

proof fn lemma_sixteen_to_bound(i: nat)
    requires
        i <= 8,
    ensures
        sixteen_to(i) <= 0x1_0000_0000,
{
    reveal_with_fuel(sixteen_to, 10);
}

/// A number is written only where all its digits are there.
pub proof fn lemma_escape_code_needs_digits(s: Seq<char>, i: nat, n: nat, base: u32, acc: nat)
    requires
        i <= n,
        i <= s.len(),
        escape_code(s, i, n, base, acc) is Ok,
    ensures
        n <= s.len(),
    decreases n - i,
{
    if i < n {
        lemma_escape_code_needs_digits(
            s,
            i + 1,
            n,
            base,
            (acc * base + digit_value(s[i as int], base).unwrap()) as nat,
        );
    }
}

/// Reads the character whose number the `n` characters of `chars` from
/// `from` on write in `base`.
pub fn unicode_char_from_char_digits(n: u8, base: u32, chars: &Vec<char>, from: usize) -> (found:
    Result<char, UnquoteError>)
    requires
        n <= 8,
        2 <= base <= 16,
        from <= chars.len(),
    ensures
        found == escape_char(chars@.skip(from as int), n as nat, base),
        found is Ok ==> from + n <= chars.len(),
{
    let ghost s = chars@.skip(from as int);
    let mut num: u32 = 0;
    let mut i: u8 = 0;
    proof {
        reveal_with_fuel(sixteen_to, 1);
    }
    while i < n
        invariant
            i <= n <= 8,
            2 <= base <= 16,
            from <= chars.len(),
            s == chars@.skip(from as int),
            i <= s.len(),
            num < sixteen_to(i as nat),
            escape_code(s, i as nat, n as nat, base, num as nat) == escape_code(
                s,
                0,
                n as nat,
                base,
                0,
            ),
        decreases n - i,
    {
        if from + (i as usize) >= chars.len() {
            return Err(UnquoteError::EscapeTooShort { expected: n, got: i });
        }
        let c = chars[from + (i as usize)];
        assert(s[i as int] == c);
        let digit = match to_digit(c, base) {
            Some(d) => d,
            None => {
                return Err(UnquoteError::DoesNotFitBase { base, char: c });
            },
        };
        proof {
            lemma_sixteen_to_bound(i as nat + 1);
            assert(sixteen_to(i as nat + 1) == 16 * sixteen_to(i as nat));
            assert(num * base + digit < sixteen_to(i as nat + 1)) by (nonlinear_arith)
                requires
                    num < sixteen_to(i as nat),
                    digit < base,
                    base <= 16,
                    sixteen_to(i as nat + 1) == 16 * sixteen_to(i as nat),
            ;
        }
        num = num * base + digit;
        i += 1;
    }
    proof {
        lemma_escape_code_needs_digits(s, i as nat, n as nat, base, num as nat);
    }
    match char_from_u32(num) {
        Some(c) => Ok(c),
        None => Err(UnquoteError::InvalidUnicode(num)),
    }
}

/// Reads the character that two hexadecimal digits number.
pub fn escape_hex2(chars: &Vec<char>, from: usize) -> (found: Result<char, UnquoteError>)
    requires
        from <= chars.len(),
    ensures
        found == escape_char(chars@.skip(from as int), 2, 16),
        found is Ok ==> from + 2 <= chars.len(),
{
    unicode_char_from_char_digits(2, 16, chars, from)
}

/// Reads the character that four hexadecimal digits number.
pub fn escape_hex4(chars: &Vec<char>, from: usize) -> (found: Result<char, UnquoteError>)
    requires
        from <= chars.len(),
    ensures
        found == escape_char(chars@.skip(from as int), 4, 16),
        found is Ok ==> from + 4 <= chars.len(),
{
    unicode_char_from_char_digits(4, 16, chars, from)
}

/// Reads the character that eight hexadecimal digits number.
pub fn escape_hex8(chars: &Vec<char>, from: usize) -> (found: Result<char, UnquoteError>)
    requires
        from <= chars.len(),
    ensures
        found == escape_char(chars@.skip(from as int), 8, 16),
        found is Ok ==> from + 8 <= chars.len(),
{
    unicode_char_from_char_digits(8, 16, chars, from)
}

/// Reads the character that two octal digits number.
pub fn escape_oct2(chars: &Vec<char>, from: usize) -> (found: Result<char, UnquoteError>)
    requires
        from <= chars.len(),
    ensures
        found == escape_char(chars@.skip(from as int), 2, 8),
        found is Ok ==> from + 2 <= chars.len(),
{
    unicode_char_from_char_digits(2, 8, chars, from)
}

/// The character that a backslash and `b` stand for, where the two are a
/// whole escape.
pub open spec fn short_escape(b: char) -> Option<char> {
    if b == 'a' {
        Some('\u{7}')
    } else if b == 'b' {
        Some('\u{8}')
    } else if b == 'f' {
        Some('\u{c}')
    } else if b == 'n' {
        Some('\n')
    } else if b == 'r' {
        Some('\r')
    } else if b == 't' {
        Some('\t')
    } else if b == 'v' {
        Some('\u{b}')
    } else if b == '\\' || b == '"' || b == '\'' {
        Some(b)
    } else if b == 's' {
        Some(' ')
    } else {
        None
    }
}

/// How many digits follow a backslash and `b`, and of which base: two
/// hexadecimal after `x`, two octal after `o`, four hexadecimal after `u`,
/// eight after `U`.
pub open spec fn long_escape(b: char) -> Option<(nat, u32)> {
    if b == 'x' {
        Some((2nat, 16u32))
    } else if b == 'o' {
        Some((2nat, 8u32))
    } else if b == 'u' {
        Some((4nat, 16u32))
    } else if b == 'U' {
        Some((8nat, 16u32))
    } else {
        None
    }
}

/// The character that the escape at the head of `s` stands for, and the
/// number of characters it takes. `s` starts behind the backslash.
pub open spec fn escape_at(s: Seq<char>) -> Result<(char, nat), UnquoteError> {
    match short_escape(s[0]) {
        Some(c) => Ok((c, 1nat)),
        None => match long_escape(s[0]) {
            Some((n, base)) => match escape_char(s.drop_first(), n, base) {
                Ok(c) => Ok((c, 1 + n)),
                Err(e) => Err(e),
            },
            None => Err(UnquoteError::UnknownEscape(s[0])),
        },
    }
}

/// An escape takes at least one character and no more than there are.
pub proof fn lemma_escape_at_length(s: Seq<char>)
    requires
        s.len() >= 1,
        escape_at(s) is Ok,
    ensures
        1 <= escape_at(s).unwrap().1 <= s.len(),
{
    if short_escape(s[0]) is None {
        let (n, base) = long_escape(s[0]).unwrap();
        lemma_escape_code_needs_digits(s.drop_first(), 0, n, base, 0);
    }
}

fn decode_short(b: char) -> (c: Option<char>)
    ensures
        c == short_escape(b),
{
    match b {
        'a' => Some('\u{7}'),
        'b' => Some('\u{8}'),
        'f' => Some('\u{c}'),
        'n' => Some('\n'),
        'r' => Some('\r'),
        't' => Some('\t'),
        'v' => Some('\u{b}'),
        '\\' => Some('\\'),
        '"' => Some('"'),
        '\'' => Some('\''),
        's' => Some(' '),
        _ => None,
    }
}

/// Reads the escape whose backslash stands before index `at`.
fn decode_escape(chars: &Vec<char>, at: usize) -> (found: Result<(char, usize), UnquoteError>)
    requires
        at < chars.len(),
    ensures
        match found {
            Ok((c, used)) => escape_at(chars@.skip(at as int)) == Ok::<
                (char, nat),
                UnquoteError,
            >((c, used as nat)) && 1 <= used && at + used <= chars.len(),
            Err(e) => escape_at(chars@.skip(at as int)) == Err::<(char, nat), UnquoteError>(e),
        },
{
    let b = chars[at];
    let ghost s = chars@.skip(at as int);
    assert(s[0] == b);
    assert(s.drop_first() =~= chars@.skip(at + 1));
    if let Some(c) = decode_short(b) {
        return Ok((c, 1));
    }
    let long = match b {
        'x' => escape_hex2(chars, at + 1),
        'o' => escape_oct2(chars, at + 1),
        'u' => escape_hex4(chars, at + 1),
        'U' => escape_hex8(chars, at + 1),
        _ => {
            return Err(UnquoteError::UnknownEscape(b));
        },
    };
    let ghost n = long_escape(b).unwrap().0;
    match long {
        Ok(c) => {
            let used: usize = match b {
                'x' => 3,
                'o' => 3,
                'u' => 5,
                _ => 9,
            };
            assert(used == 1 + n);
            Ok((c, used))
        },
        Err(e) => Err(e),
    }
}

/// `rest` with `c` put in front, where `rest` is text.
pub open spec fn with_first(c: char, rest: Result<Seq<char>, UnquoteError>) -> Result<
    Seq<char>,
    UnquoteError,
> {
    match rest {
        Ok(t) => Ok(seq![c] + t),
        Err(e) => Err(e),
    }
}

/// `rest` with `front` put before it, where `rest` is text.
pub open spec fn with_front(front: Seq<char>, rest: Result<Seq<char>, UnquoteError>) -> Result<
    Seq<char>,
    UnquoteError,
> {
    match rest {
        Ok(t) => Ok(front + t),
        Err(e) => Err(e),
    }
}

/// The item that ends at the first `end` of `s` that no backslash
/// protects, escapes resolved. `s` starts behind the opening quote.
pub open spec fn quoted_segment(s: Seq<char>, end: char) -> Result<Seq<char>, UnquoteError>
    decreases s.len(),
    via quoted_segment_decreases
{
    if s.len() == 0 {
        Err(UnquoteError::MissingEndQuo(end))
    } else if s[0] == '\\' {
        if s.len() == 1 {
            Err(UnquoteError::MissingEndQuo(end))
        } else {
            match escape_at(s.drop_first()) {
                Ok((c, used)) => with_first(c, quoted_segment(s.skip(1 + used as int), end)),
                Err(e) => Err(e),
            }
        }
    } else if s[0] == end {
        Ok(Seq::empty())
    } else {
        with_first(s[0], quoted_segment(s.drop_first(), end))
    }
}

#[via_fn]
proof fn quoted_segment_decreases(s: Seq<char>, end: char) {
    if s.len() >= 2 && s[0] == '\\' && escape_at(s.drop_first()) is Ok {
        lemma_escape_at_length(s.drop_first());
    }
}

/// A bare item with its escapes resolved. It ends where `s` ends, or at a
/// double quote that no backslash protects.
pub open spec fn bare_decoded(s: Seq<char>) -> Result<Seq<char>, UnquoteError>
    decreases s.len(),
    via bare_decoded_decreases
{
    if s.len() == 0 {
        Ok(Seq::empty())
    } else if s[0] == '\\' {
        if s.len() == 1 {
            Ok(seq!['\\'])
        } else {
            match escape_at(s.drop_first()) {
                Ok((c, used)) => with_first(c, bare_decoded(s.skip(1 + used as int))),
                Err(e) => Err(e),
            }
        }
    } else if s[0] == '"' {
        Ok(Seq::empty())
    } else {
        with_first(s[0], bare_decoded(s.drop_first()))
    }
}

#[via_fn]
proof fn bare_decoded_decreases(s: Seq<char>) {
    if s.len() >= 2 && s[0] == '\\' && escape_at(s.drop_first()) is Ok {
        lemma_escape_at_length(s.drop_first());
    }
}

/// The number of characters of `s` before its first space.
pub open spec fn bare_end(s: Seq<char>) -> int
    decreases s.len(),
{
    if s.len() == 0 || s[0] == ' ' {
        0
    } else {
        1 + bare_end(s.drop_first())
    }
}

/// The bare item at the head of `s`: what stands before the first space,
/// escapes resolved.
pub open spec fn bare_segment(s: Seq<char>) -> Result<Seq<char>, UnquoteError> {
    bare_decoded(s.take(bare_end(s)))
}

/// The first item of a setting's value: the line without the white space
/// around it, read as a quoted item where it starts with a double or a
/// single quote, as a bare item otherwise.
pub open spec fn first_segment(line: Seq<char>) -> Result<Seq<char>, UnquoteError> {
    let t = trim(line);
    if t.len() > 0 && (t[0] == '"' || t[0] == '\'') {
        quoted_segment(t.drop_first(), t[0])
    } else {
        bare_segment(t)
    }
}

/// The characters of the text that was read, or why none was.
pub open spec fn read_text(found: Result<String, UnquoteError>) -> Result<
    Seq<char>,
    UnquoteError,
> {
    match found {
        Ok(s) => Ok(s@),
        Err(e) => Err(e),
    }
}

/// The characters of the text that was read, or why none was.
pub open spec fn read_chars(found: Result<Vec<char>, UnquoteError>) -> Result<
    Seq<char>,
    UnquoteError,
> {
    match found {
        Ok(s) => Ok(s@),
        Err(e) => Err(e),
    }
}

fn decode_bare(chars: &Vec<char>) -> (found: Result<Vec<char>, UnquoteError>)
    ensures
        read_chars(found) == bare_decoded(chars@),
{
    let mut out: Vec<char> = Vec::new();
    let mut i: usize = 0;
    assert(chars@.skip(0) =~= chars@);
    assert(with_front(out@, bare_decoded(chars@)) =~= bare_decoded(chars@)) by {
        if let Ok(t) = bare_decoded(chars@) {
            assert(out@ + t =~= t);
        }
    }
    while i < chars.len()
        invariant
            i <= chars.len(),
            with_front(out@, bare_decoded(chars@.skip(i as int))) == bare_decoded(chars@),
        decreases chars.len() - i,
    {
        let ghost before = out@;
        let ghost rest = chars@.skip(i as int);
        let c = chars[i];
        assert(rest[0] == c);
        assert(rest.drop_first() =~= chars@.skip(i + 1));
        if c == '\\' {
            if i + 1 == chars.len() {
                out.push(c);
                assert(out@ =~= before + seq!['\\']);
                return Ok(out);
            }
            match decode_escape(chars, i + 1) {
                Ok((e, used)) => {
                    out.push(e);
                    assert(rest.skip(1 + used) =~= chars@.skip(i + 1 + used));
                    assert(with_front(out@, bare_decoded(chars@.skip(i + 1 + used)))
                        =~= with_front(
                        before,
                        with_first(e, bare_decoded(chars@.skip(i + 1 + used))),
                    )) by {
                        if let Ok(t) = bare_decoded(chars@.skip(i + 1 + used)) {
                            assert(out@ + t =~= before + (seq![e] + t));
                        }
                    }
                    i = i + 1 + used;
                },
                Err(e) => {
                    return Err(e);
                },
            }
        } else if c == '"' {
            assert(out@ + Seq::<char>::empty() =~= out@);
            return Ok(out);
        } else {
            out.push(c);
            assert(with_front(out@, bare_decoded(chars@.skip(i + 1))) =~= with_front(
                before,
                with_first(c, bare_decoded(chars@.skip(i + 1))),
            )) by {
                if let Ok(t) = bare_decoded(chars@.skip(i + 1)) {
                    assert(out@ + t =~= before + (seq![c] + t));
                }
            }
            i += 1;
        }
    }
    assert(out@ + Seq::<char>::empty() =~= out@);
    Ok(out)
}

fn decode_quoted(chars: &Vec<char>, from: usize, end: char) -> (found: Result<
    Vec<char>,
    UnquoteError,
>)
    requires
        from <= chars.len(),
    ensures
        read_chars(found) == quoted_segment(chars@.skip(from as int), end),
{
    let mut out: Vec<char> = Vec::new();
    let mut i: usize = from;
    let ghost goal = quoted_segment(chars@.skip(from as int), end);
    assert(with_front(out@, goal) =~= goal) by {
        if let Ok(t) = goal {
            assert(out@ + t =~= t);
        }
    }
    while i < chars.len()
        invariant
            from <= i <= chars.len(),
            goal == quoted_segment(chars@.skip(from as int), end),
            with_front(out@, quoted_segment(chars@.skip(i as int), end)) == goal,
        decreases chars.len() - i,
    {
        let ghost before = out@;
        let ghost rest = chars@.skip(i as int);
        let c = chars[i];
        assert(rest[0] == c);
        assert(rest.drop_first() =~= chars@.skip(i + 1));
        if c == '\\' {
            if i + 1 == chars.len() {
                return Err(UnquoteError::MissingEndQuo(end));
            }
            match decode_escape(chars, i + 1) {
                Ok((e, used)) => {
                    out.push(e);
                    assert(rest.skip(1 + used) =~= chars@.skip(i + 1 + used));
                    assert(with_front(out@, quoted_segment(chars@.skip(i + 1 + used), end))
                        =~= with_front(
                        before,
                        with_first(e, quoted_segment(chars@.skip(i + 1 + used), end)),
                    )) by {
                        if let Ok(t) = quoted_segment(chars@.skip(i + 1 + used), end) {
                            assert(out@ + t =~= before + (seq![e] + t));
                        }
                    }
                    i = i + 1 + used;
                },
                Err(e) => {
                    return Err(e);
                },
            }
        } else if c == end {
            assert(out@ + Seq::<char>::empty() =~= out@);
            return Ok(out);
        } else {
            out.push(c);
            assert(with_front(out@, quoted_segment(chars@.skip(i + 1), end)) =~= with_front(
                before,
                with_first(c, quoted_segment(chars@.skip(i + 1), end)),
            )) by {
                if let Ok(t) = quoted_segment(chars@.skip(i + 1), end) {
                    assert(out@ + t =~= before + (seq![c] + t));
                }
            }
            i += 1;
        }
    }
    Err(UnquoteError::MissingEndQuo(end))
}

fn space_index(chars: &Vec<char>) -> (at: usize)
    ensures
        at == bare_end(chars@),
        at <= chars.len(),
{
    let mut i: usize = 0;
    assert(chars@.skip(0) =~= chars@);
    while i < chars.len() && chars[i] != ' '
        invariant
            i <= chars.len(),
            bare_end(chars@) == i + bare_end(chars@.skip(i as int)),
        decreases chars.len() - i,
    {
        assert(chars@.skip(i as int).drop_first() =~= chars@.skip(i + 1));
        i += 1;
    }
    i
}

fn decode_bare_head(chars: &Vec<char>) -> (found: Result<Vec<char>, UnquoteError>)
    ensures
        read_chars(found) == bare_segment(chars@),
{
    let end = space_index(chars);
    let head = slice_of(chars, 0, end);
    assert(chars@.take(end as int) =~= chars@.subrange(0, end as int));
    decode_bare(&head)
}

fn as_text(found: Result<Vec<char>, UnquoteError>) -> (text: Result<String, UnquoteError>)
    ensures
        read_text(text) == read_chars(found),
{
    match found {
        Ok(v) => Ok(string_of(&v)),
        Err(e) => Err(e),
    }
}

/// Reads the bare item at the head of `unquoted_start`: what stands before
/// the first space, with escapes resolved, up to a double quote that no
/// backslash protects.
pub fn decoded_unquoted_first_segment(unquoted_start: &str) -> (found: Result<
    String,
    UnquoteError,
>)
    ensures
        read_text(found) == bare_segment(unquoted_start@),
{
    let chars = chars_of(unquoted_start);
    as_text(decode_bare_head(&chars))
}

/// Reads the first item of a setting's value, which for `ExecStart=` is the
/// path of the executable.
///
/// White space around the line does not count. An item that starts with a
/// double or a single quote runs to the next such quote that no backslash
/// protects; without that quote, `MissingEndQuo`. Any other item runs to the
/// first space. Escapes are resolved in both.
pub fn first_segement(line: &str) -> (found: Result<String, UnquoteError>)
    ensures
        read_text(found) == first_segment(line@),
{
    let v = chars_of(line);
    let from = skip_whitespace(&v, 0);
    let to = trimmed_end(&v, from);
    assert(v@.skip(0) =~= v@);
    let t = slice_of(&v, from, to);
    assert(t@ == trim(line@));
    if t.len() > 0 && (t[0] == '"' || t[0] == '\'') {
        assert(t@.skip(1) =~= t@.drop_first());
        as_text(decode_quoted(&t, 1, t[0]))
    } else {
        as_text(decode_bare_head(&t))
    }
}

/// Whether `s` is free of backslashes.
pub open spec fn no_backslash(s: Seq<char>) -> bool {
    forall|i: int| 0 <= i < s.len() ==> #[trigger] s[i] != '\\'
}

/// Behind text that does not end in white space, trimming the end of the
/// whole is trimming the end of what follows.
pub proof fn lemma_trim_end_after(a: Seq<char>, t: Seq<char>)
    requires
        a.len() > 0,
        !is_whitespace(a.last()),
    ensures
        trim_end(a + t) == a + trim_end(t),
    decreases t.len(),
{
    if t.len() == 0 {
        assert(a + t =~= a);
        assert(a + trim_end(t) =~= a);
    } else {
        assert((a + t).last() == t.last());
        if is_whitespace(t.last()) {
            assert((a + t).drop_last() =~= a + t.drop_last());
            lemma_trim_end_after(a, t.drop_last());
        }
    }
}

/// Behind the opening quote, the escaped form of `x`, the closing quote and
/// anything after it are read back as `x`.
pub proof fn lemma_quoted_body_round_trip(x: Seq<char>, tail: Seq<char>)
    requires
        no_backslash(x),
    ensures
        quoted_segment(replace_char(x, '"', seq!['\\', '"']) + seq!['"'] + tail, '"') == Ok::<
            Seq<char>,
            UnquoteError,
        >(x),
    decreases x.len(),
{
    let with = seq!['\\', '"'];
    let close = seq!['"'];
    let all = replace_char(x, '"', with) + close + tail;
    if x.len() == 0 {
        assert(all =~= close + tail);
        assert(all[0] == '"');
        assert(x =~= Seq::<char>::empty());
    } else {
        let c = x[0];
        let rest = replace_char(x.drop_first(), '"', with) + close + tail;
        assert(no_backslash(x.drop_first())) by {
            assert forall|i: int| 0 <= i < x.drop_first().len() implies #[trigger] x.drop_first()[i]
                != '\\' by {
                assert(x.drop_first()[i] == x[i + 1]);
            }
        }
        lemma_quoted_body_round_trip(x.drop_first(), tail);
        assert(seq![c] + x.drop_first() =~= x);
        if c == '"' {
            assert(all =~= with + rest);
            assert(all[0] == '\\' && all.len() >= 2);
            assert(all.drop_first()[0] == '"');
            assert(escape_at(all.drop_first()) == Ok::<(char, nat), UnquoteError>(('"', 1nat)));
            assert(all.skip(2) =~= rest);
        } else {
            assert(c != '\\');
            assert(all =~= seq![c] + rest);
            assert(all[0] == c);
            assert(all.drop_first() =~= rest);
        }
    }
}

/// Reading the first item undoes systemd quoting: the quoted form of a text
/// without backslashes, alone or followed by anything, is read back as that
/// text.
pub proof fn lemma_systemd_escape_round_trip(x: Seq<char>, tail: Seq<char>)
    requires
        no_backslash(x),
    ensures
        first_segment(systemd_escaped_text(x) + tail) == Ok::<Seq<char>, UnquoteError>(x),
{
    let body = replace_char(x, '"', seq!['\\', '"']);
    let quoted = systemd_escaped_text(x);
    let line = quoted + tail;
    assert(quoted.last() == '"');
    assert(line[0] == '"');
    assert(trim_start(line) == line);
    lemma_trim_end_after(quoted, tail);
    let t = trim(line);
    assert(t == quoted + trim_end(tail));
    assert(t[0] == '"');
    assert(t.drop_first() =~= body + seq!['"'] + trim_end(tail));
    lemma_quoted_body_round_trip(x, trim_end(tail));
}

} // verus!
