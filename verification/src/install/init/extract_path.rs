//! Reading the first word back out of a shell command line.

use vstd::prelude::*;
use vstd::string::*;
use crate::text::{chars_of, push_char, char_is_whitespace, is_whitespace};
use crate::install::init::{all_shell_safe, shell_safe, shell_quoted_body, shell_escaped_text};

pub mod unsystemd_quote;

verus! {

/// The first word that a shell reads from `s`, quotes and escapes resolved.
///
/// `quoted` says whether `s` starts inside single quotes. A single quote
/// opens or closes a quoted run and is not part of the word. Inside quotes
/// every other character stands for itself. Outside quotes a backslash makes
/// the next character stand for itself, and the first white space ends the
/// word.
pub open spec fn shell_word(s: Seq<char>, quoted: bool) -> Seq<char>
    decreases s.len(),
{
    if s.len() == 0 {
        Seq::empty()
    } else if s[0] == '\'' {
        shell_word(s.drop_first(), !quoted)
    } else if quoted {
        seq![s[0]] + shell_word(s.drop_first(), true)
    } else if s[0] == '\\' && s.len() >= 2 {
        seq![s[1]] + shell_word(s.skip(2), false)
    } else if is_whitespace(s[0]) {
        Seq::empty()
    } else {
        seq![s[0]] + shell_word(s.drop_first(), false)
    }
}

/// What one step of reading does to the word, at the head `s` of what is
/// left: the characters that it takes, the characters that it adds to the
/// word, and whether it leaves off inside quotes. A step that takes nothing
/// has found the end of the word.
pub open spec fn head_step(s: Seq<char>, quoted: bool) -> (nat, Seq<char>, bool) {
    if s[0] == '\'' {
        (1, Seq::empty(), !quoted)
    } else if quoted {
        (1, seq![s[0]], true)
    } else if s[0] == '\\' && s.len() >= 2 {
        (2, seq![s[1]], false)
    } else if is_whitespace(s[0]) {
        (0, Seq::empty(), false)
    } else {
        (1, seq![s[0]], false)
    }
}

/// The word is what one step adds to it, and then the word of what the
/// step leaves.
pub proof fn lemma_shell_word_by_steps(s: Seq<char>, quoted: bool)
    requires
        s.len() > 0,
    ensures
        head_step(s, quoted).0 <= s.len(),
        shell_word(s, quoted) == (if head_step(s, quoted).0 == 0 {
            Seq::empty()
        } else {
            head_step(s, quoted).1 + shell_word(
                s.skip(head_step(s, quoted).0 as int),
                head_step(s, quoted).2,
            )
        }),
{
    assert(s.skip(1) =~= s.drop_first());
    let (taken, added, inside) = head_step(s, quoted);
    if taken == 1 && added.len() == 0 {
        assert(added + shell_word(s.skip(1), inside) =~= shell_word(s.skip(1), inside));
    }
}

/// Reads on at the head of what is left of the text, which starts at
/// index `at` of `chars`: takes a quote, a character, or a backslash and
/// the character behind it, adds to `out` what that stands for, and keeps
/// track in `in_quoted` of whether the text goes on inside quotes. It says
/// how many characters it took; none where white space ends the word.
pub fn eat_head(chars: &Vec<char>, at: usize, out: &mut String, in_quoted: &mut bool) -> (eaten:
    usize)
    requires
        at < chars.len(),
    ensures
        eaten == head_step(chars@.skip(at as int), *old(in_quoted)).0,
        final(out)@ == old(out)@ + head_step(chars@.skip(at as int), *old(in_quoted)).1,
        *final(in_quoted) == head_step(chars@.skip(at as int), *old(in_quoted)).2,
        at + eaten <= chars.len(),
{
    let ghost rest = chars@.skip(at as int);
    let c = chars[at];
    assert(rest[0] == c);
    if c == '\'' {
        *in_quoted = !*in_quoted;
        assert(out@ =~= old(out)@ + Seq::<char>::empty());
        1
    } else if *in_quoted {
        push_char(out, c);
        1
    } else if c == '\\' && at + 1 < chars.len() {
        assert(rest[1] == chars[at + 1]);
        push_char(out, chars[at + 1]);
        2
    } else if char_is_whitespace(c) {
        assert(out@ =~= old(out)@ + Seq::<char>::empty());
        0
    } else {
        push_char(out, c);
        1
    }
}

/// Reads the first shell word of what `v` holds from index `from` on.
pub fn shell_word_from(v: &Vec<char>, from: usize) -> (word: String)
    requires
        from <= v.len(),
    ensures
        word@ == shell_word(v@.skip(from as int), false),
{
    let mut out = String::new();
    let mut quoted = false;
    let mut i: usize = from;
    let ghost goal = shell_word(v@.skip(from as int), false);
    assert(out@ + goal =~= goal);
    while i < v.len()
        invariant
            from <= i <= v.len(),
            goal == shell_word(v@.skip(from as int), false),
            out@ + shell_word(v@.skip(i as int), quoted) == goal,
        decreases v.len() - i,
    {
        let ghost before = out@;
        let ghost rest = v@.skip(i as int);
        let ghost step = head_step(rest, quoted);
        proof {
            lemma_shell_word_by_steps(rest, quoted);
        }
        let eaten = eat_head(v, i, &mut out, &mut quoted);
        if eaten == 0 {
            assert(before + Seq::<char>::empty() =~= before);
            return out;
        }
        proof {
            assert(rest.skip(eaten as int) =~= v@.skip(i + eaten));
            assert(out@ + shell_word(v@.skip(i + eaten), quoted) =~= before + (step.1
                + shell_word(v@.skip(i + eaten), quoted)));
        }
        i += eaten;
    }
    assert(out@ =~= goal);
    out
}

/// The first shell word of `line`, with quotes and escapes resolved: the
/// text up to the first white space that is neither quoted nor escaped.
///
/// A single quote opens or closes a quoted run. Inside a quoted run every
/// character but the single quote stands for itself. Outside, a backslash
/// makes the character behind it stand for itself.
pub fn split_unescaped_whitespace_once(line: &str) -> (word: String)
    ensures
        word@ == shell_word(line@, false),
{
    let v = chars_of(line);
    assert(v@.skip(0) =~= v@);
    shell_word_from(&v, 0)
}

/// A word of shell safe characters is read back as it stands, whatever
/// follows its end, as long as white space or nothing does.
pub proof fn lemma_shell_word_of_safe(s: Seq<char>, tail: Seq<char>)
    requires
        all_shell_safe(s),
        tail.len() == 0 || is_whitespace(tail[0]),
    ensures
        shell_word(s + tail, false) == s,
    decreases s.len(),
{
    if s.len() == 0 {
        assert(s + tail =~= tail);
        assert(shell_word(tail, false) =~= s);
    } else {
        let c = s[0];
        assert(shell_safe(c));
        assert((s + tail)[0] == c);
        assert((s + tail).drop_first() =~= s.drop_first() + tail);
        assert(all_shell_safe(s.drop_first())) by {
            assert forall|i: int| 0 <= i < s.drop_first().len() implies shell_safe(
                #[trigger] s.drop_first()[i],
            ) by {
                assert(s.drop_first()[i] == s[i + 1]);
            }
        }
        lemma_shell_word_of_safe(s.drop_first(), tail);
        assert(shell_word(s + tail, false) =~= seq![c] + s.drop_first());
        assert(seq![c] + s.drop_first() =~= s);
    }
}

/// Inside quotes, the quoted form of `s`, the closing quote and then white
/// space or nothing are read back as `s`.
pub proof fn lemma_shell_word_of_quoted(s: Seq<char>, tail: Seq<char>)
    requires
        tail.len() == 0 || is_whitespace(tail[0]),
    ensures
        shell_word(shell_quoted_body(s) + seq!['\''] + tail, true) == s,
    decreases s.len(),
{
    let close = seq!['\''];
    if s.len() == 0 {
        let all = shell_quoted_body(s) + close + tail;
        assert(all =~= close + tail);
        assert(all[0] == '\'');
        assert(all.drop_first() =~= tail);
        assert(shell_word(tail, false) =~= Seq::<char>::empty());
        assert(shell_word(all, true) =~= s);
    } else {
        let c = s[0];
        let rest = shell_quoted_body(s.drop_first()) + close + tail;
        lemma_shell_word_of_quoted(s.drop_first(), tail);
        if c == '\'' || c == '!' {
            let all = seq!['\'', '\\', c, '\''] + rest;
            assert(shell_quoted_body(s) + close + tail =~= all);
            let a1 = all.drop_first();
            assert(all[0] == '\'');
            assert(a1 =~= seq!['\\', c, '\''] + rest);
            assert(a1[0] == '\\' && a1[1] == c && a1.len() >= 2);
            let a2 = a1.skip(2);
            assert(a2 =~= seq!['\''] + rest);
            assert(a2[0] == '\'');
            assert(a2.drop_first() =~= rest);
            assert(shell_word(a2, false) == shell_word(rest, true));
            assert(shell_word(a1, false) == seq![c] + shell_word(a2, false));
            assert(shell_word(all, true) == shell_word(a1, false));
            assert(seq![c] + s.drop_first() =~= s);
        } else {
            let all = seq![c] + rest;
            assert(shell_quoted_body(s) + close + tail =~= all);
            assert(all[0] == c);
            assert(all.drop_first() =~= rest);
            assert(shell_word(all, true) == seq![c] + shell_word(rest, true));
            assert(seq![c] + s.drop_first() =~= s);
        }
    }
}

/// Reading the first shell word undoes shell quoting: whatever `path` holds,
/// its quoted form, alone or followed by white space and more text, is read
/// back as `path`.
pub proof fn lemma_shell_escape_round_trip(path: Seq<char>, tail: Seq<char>)
    requires
        tail.len() == 0 || is_whitespace(tail[0]),
    ensures
        shell_word(shell_escaped_text(path) + tail, false) == path,
{
    if path.len() > 0 && all_shell_safe(path) {
        lemma_shell_word_of_safe(path, tail);
    } else {
        let inner = shell_quoted_body(path) + seq!['\''] + tail;
        let all = shell_escaped_text(path) + tail;
        assert(all =~= seq!['\''] + inner);
        assert(all[0] == '\'');
        assert(all.drop_first() =~= inner);
        lemma_shell_word_of_quoted(path, tail);
    }
}

} // verus!
