//! Text rules of the wire protocol: the prompts that a server asks for the
//! callsign with, and the cleaning of a received line.

use vstd::prelude::*;

verus! {

/// Whether `char::is_whitespace` holds of a character beyond ASCII, that is
/// whether the character has the Unicode property `White_Space`.
pub uninterp spec fn unicode_whitespace(c: char) -> bool;

/// The characters that count as whitespace: among the ASCII characters the
/// space and the five controls from horizontal tab to carriage return, beyond
/// them those with the Unicode property `White_Space`.
pub open spec fn whitespace(c: char) -> bool {
    if c <= '\u{7f}' {
        c == ' ' || ('\t' <= c && c <= '\r')
    } else {
        unicode_whitespace(c)
    }
}

/// `char::is_whitespace` tells whether a character has the Unicode property
/// `White_Space`. The contract spells the property out for the ASCII
/// characters and gives its value on every other character a name.
pub assume_specification[ char::is_whitespace ](c: char) -> (b: bool)
    ensures
        b == whitespace(c),
        c > '\u{7f}' ==> b == unicode_whitespace(c),
;

/// The bell character, which some servers append to a spot.
pub open spec fn bell() -> char {
    '\u{7}'
}

/// `s` without the whitespace at its end.
pub open spec fn trim_whitespace(s: Seq<char>) -> Seq<char>
    decreases s.len(),
{
    if s.len() > 0 && whitespace(s.last()) {
        trim_whitespace(s.drop_last())
    } else {
        s
    }
}

/// `s` without the bell characters at its end.
pub open spec fn trim_bells(s: Seq<char>) -> Seq<char>
    decreases s.len(),
{
    if s.len() > 0 && s.last() == bell() {
        trim_bells(s.drop_last())
    } else {
        s
    }
}

/// A received line as the parser gets it: trailing whitespace is removed
/// first, then the bell characters that end what is left.
pub open spec fn cleaned(s: Seq<char>) -> Seq<char> {
    trim_bells(trim_whitespace(s))
}

/// Clean line from unwanted characters.
/// Remove whitespace characters and bell characters (0x07) from the end of the string.
pub fn clean_line<'a>(line: &'a str) -> (clean: &'a str)
    ensures
        clean@ == cleaned(line@),
{
    let mut end: usize = line.unicode_len();
    assert(line@.take(end as int) == line@);
    while end > 0 && line.get_char(end - 1).is_whitespace()
        invariant
            end <= line@.len(),
            trim_whitespace(line@) == trim_whitespace(line@.take(end as int)),
        decreases end,
    {
        assert(line@.take(end as int).drop_last() == line@.take(end - 1));
        end -= 1;
    }
    let ghost kept = line@.take(end as int);
    assert(trim_whitespace(line@) == kept);
    while end > 0 && line.get_char(end - 1) == '\u{7}'
        invariant
            end <= line@.len(),
            trim_bells(kept) == trim_bells(line@.take(end as int)),
        decreases end,
    {
        assert(line@.take(end as int).drop_last() == line@.take(end - 1));
        end -= 1;
    }
    assert(line@.subrange(0, end as int) == line@.take(end as int));
    line.substring_char(0, end)
}

/// The prompt of most cluster servers.
pub open spec fn login_prompt() -> Seq<char> {
    "login:"@
}

/// The prompt of the servers that ask for the call in words.
pub open spec fn call_prompt() -> Seq<char> {
    "Please enter your call:"@
}

/// Whether `s` ends with one of the prompts that ask for the callsign.
pub open spec fn ends_with_prompt(s: Seq<char>) -> bool {
    login_prompt().is_suffix_of(s) || call_prompt().is_suffix_of(s)
}

/// Whether `text` ends with `suffix`, character by character.
fn ends_with(text: &str, suffix: &str) -> (found: bool)
    ensures
        found == suffix@.is_suffix_of(text@),
{
    let n: usize = text.unicode_len();
    let m: usize = suffix.unicode_len();
    if m > n {
        return false;
    }
    let start: usize = n - m;
    let mut i: usize = 0;
    while i < m
        invariant
            n == text@.len(),
            m == suffix@.len(),
            start + m == n,
            i <= m,
            forall|j: int| 0 <= j < i ==> text@[start + j] == suffix@[j],
        decreases m - i,
    {
        if text.get_char(start + i) != suffix.get_char(i) {
            assert(text@.subrange(start as int, n as int)[i as int] != suffix@[i as int]);
            return false;
        }
        i += 1;
    }
    assert(suffix@ =~= text@.subrange(start as int, n as int));
    true
}

/// Check if a given string ends with one of the authentication tokens.
pub fn is_auth_token(token: &str) -> (found: bool)
    ensures
        found == ends_with_prompt(token@),
{
    ends_with(token, "login:") || ends_with(token, "Please enter your call:")
}

/// A complete line without its line end: without the line feed that ends
/// it, and without the carriage return before that line feed. A text that
/// ends with no line feed is left as it is.
pub open spec fn without_line_end(s: Seq<char>) -> Seq<char> {
    if s.len() > 0 && s.last() == '\n' {
        let text = s.drop_last();
        if text.len() > 0 && text.last() == '\r' {
            text.drop_last()
        } else {
            text
        }
    } else {
        s
    }
}

/// Take the line end off a line: the line feed that ends it, with the
/// carriage return before it where there is one.
pub fn strip_line_end<'a>(line: &'a str) -> (text: &'a str)
    ensures
        text@ == without_line_end(line@),
{
    let n: usize = line.unicode_len();
    if n > 0 && line.get_char(n - 1) == '\n' {
        assert(line@.drop_last() == line@.subrange(0, n - 1));
        if n > 1 && line.get_char(n - 2) == '\r' {
            assert(line@.drop_last().drop_last() == line@.subrange(0, n - 2));
            line.substring_char(0, n - 2)
        } else {
            line.substring_char(0, n - 1)
        }
    } else {
        line
    }
}

/// The line terminator that the client ends its callsign with.
pub open spec fn line_end() -> Seq<char> {
    seq!['\r', '\n']
}

/// The bytes to write for `data`: the text followed by carriage return and
/// line feed.
pub fn terminated(data: &str) -> (out: String)
    ensures
        out@ == data@ + line_end(),
{
    let mut out = String::from_str(data);
    proof {
        reveal_strlit("\r\n");
    }
    out.append("\r\n");
    assert(out@ =~= data@ + line_end());
    out
}

} // verus!
