//! Sanitizing file names that come from an untrusted peer.
//!
//! The rules are the strictest of the desktop platforms the application runs on,
//! applied everywhere: a name that is safe on Windows is safe on macOS and Linux too.
use vstd::prelude::*;

use crate::text::{chars_of, push_char};

verus! {

/// A control character: the Unicode general category `Cc`.
pub open spec fn is_control(c: char) -> bool {
    (c as u32) <= 0x1f || (0x7f <= (c as u32) && (c as u32) <= 0x9f)
}

/// A character with the Unicode `White_Space` property.
pub open spec fn is_white_space(c: char) -> bool {
    let u = c as u32;
    (0x09 <= u && u <= 0x0d) || u == 0x20 || u == 0x85 || u == 0xa0 || u == 0x1680
        || (0x2000 <= u && u <= 0x200a) || u == 0x2028 || u == 0x2029 || u == 0x202f
        || u == 0x205f || u == 0x3000
}

/// A character that may not appear in a file name: path separators, the characters
/// that Windows reserves (a colon would open an NTFS alternate data stream), and
/// every control character.
pub open spec fn is_disallowed(c: char) -> bool {
    c == '\\' || c == '/' || c == ':' || c == '*' || c == '?' || c == '"' || c == '<'
        || c == '>' || c == '|' || is_control(c)
}

/// A name that is empty or holds white space only.
pub open spec fn is_blank(s: Seq<char>) -> bool {
    forall|i: int| 0 <= i < s.len() ==> is_white_space(#[trigger] s[i])
}

pub open spec fn ascii_lower(c: char) -> char {
    if 'A' <= c && c <= 'Z' {
        ((c as u8) + 32) as char
    } else {
        c
    }
}

pub open spec fn lower_seq(s: Seq<char>) -> Seq<char> {
    s.map_values(|c: char| ascii_lower(c))
}

/// A device name that Windows reserves, compared without regard to ASCII case:
/// CON, PRN, AUX, NUL, COM0 to COM9 and LPT0 to LPT9.
pub open spec fn is_reserved(s: Seq<char>) -> bool {
    let l = lower_seq(s);
    l == seq!['c', 'o', 'n'] || l == seq!['p', 'r', 'n'] || l == seq!['a', 'u', 'x']
        || l == seq!['n', 'u', 'l'] || (l.len() == 4 && (l.subrange(0, 3) == seq!['c', 'o', 'm']
        || l.subrange(0, 3) == seq!['l', 'p', 't']) && '0' <= l[3] && l[3] <= '9')
}

/// `s` with each run of disallowed characters replaced by one copy of `r`.
pub open spec fn collapse(s: Seq<char>, r: Seq<char>) -> Seq<char>
    decreases s.len(),
{
    if s.len() == 0 {
        s
    } else {
        let pre = s.drop_last();
        if !is_disallowed(s.last()) {
            collapse(pre, r).push(s.last())
        } else if pre.len() > 0 && is_disallowed(pre.last()) {
            collapse(pre, r)
        } else {
            collapse(pre, r) + r
        }
    }
}

/// What `sanitize_file_name` makes of `name`.
pub open spec fn sanitized(name: Seq<char>, r: Seq<char>) -> Seq<char> {
    if is_blank(name) {
        r
    } else if is_reserved(collapse(name, r)) {
        r + collapse(name, r)
    } else {
        collapse(name, r)
    }
}

pub fn is_disallowed_char(c: char) -> (r: bool)
    ensures
        r == is_disallowed(c),
{
    let u = c as u32;
    c == '\\' || c == '/' || c == ':' || c == '*' || c == '?' || c == '"' || c == '<' || c == '>'
        || c == '|' || u <= 0x1f || (0x7f <= u && u <= 0x9f)
}

pub fn is_white_space_char(c: char) -> (r: bool)
    ensures
        r == is_white_space(c),
{
    let u = c as u32;
    (0x09 <= u && u <= 0x0d) || u == 0x20 || u == 0x85 || u == 0xa0 || u == 0x1680 || (0x2000 <= u
        && u <= 0x200a) || u == 0x2028 || u == 0x2029 || u == 0x202f || u == 0x205f || u == 0x3000
}

fn ascii_lower_char(c: char) -> (r: char)
    ensures
        r == ascii_lower(c),
{
    if 'A' <= c && c <= 'Z' {
        ((c as u8) + 32) as char
    } else {
        c
    }
}

pub(crate) fn is_blank_chars(s: &Vec<char>) -> (r: bool)
    ensures
        r == is_blank(s@),
{
    let mut i: usize = 0;
    while i < s.len()
        invariant
            i <= s.len(),
            forall|j: int| 0 <= j < i ==> is_white_space(#[trigger] s@[j]),
        decreases s.len() - i,
    {
        if !is_white_space_char(s[i]) {
            return false;
        }
        i = i + 1;
    }
    true
}

/// Whether `name` is a device name that Windows reserves.
pub fn is_reserved_file_name(name: &Vec<char>) -> (r: bool)
    ensures
        r == is_reserved(name@),
{
    let ghost l = lower_seq(name@);
    let n = name.len();
    if n != 3 && n != 4 {
        proof {
            assert(l.len() == n);
            assert(seq!['c', 'o', 'n'].len() == 3);
        }
        assert(!(l =~= seq!['c', 'o', 'n'] || l =~= seq!['p', 'r', 'n'] || l =~= seq!['a', 'u', 'x']
            || l =~= seq!['n', 'u', 'l']));
        return false;
    }
    let a = ascii_lower_char(name[0]);
    let b = ascii_lower_char(name[1]);
    let c = ascii_lower_char(name[2]);
    assert(l[0] == a && l[1] == b && l[2] == c);
    if n == 3 {
        let r = (a == 'c' && b == 'o' && c == 'n') || (a == 'p' && b == 'r' && c == 'n') || (a
            == 'a' && b == 'u' && c == 'x') || (a == 'n' && b == 'u' && c == 'l');
        assert(r == (l =~= seq!['c', 'o', 'n'] || l =~= seq!['p', 'r', 'n'] || l =~= seq![
            'a',
            'u',
            'x',
        ] || l =~= seq!['n', 'u', 'l']));
        r
    } else {
        let d = ascii_lower_char(name[3]);
        assert(l[3] == d);
        let prefix = (a == 'c' && b == 'o' && c == 'm') || (a == 'l' && b == 'p' && c == 't');
        assert(prefix == (l.subrange(0, 3) =~= seq!['c', 'o', 'm'] || l.subrange(0, 3) =~= seq![
            'l',
            'p',
            't',
        ]));
        assert(!(l =~= seq!['c', 'o', 'n'] || l =~= seq!['p', 'r', 'n'] || l =~= seq!['a', 'u', 'x']
            || l =~= seq!['n', 'u', 'l']));
        prefix && '0' <= d && d <= '9'
    }
}


proof fn lemma_collapse_step(s: Seq<char>, i: int, r: Seq<char>)
    requires
        0 <= i < s.len(),
    ensures
        collapse(s.subrange(0, i + 1), r) == if !is_disallowed(s[i]) {
            collapse(s.subrange(0, i), r).push(s[i])
        } else if i > 0 && is_disallowed(s[i - 1]) {
            collapse(s.subrange(0, i), r)
        } else {
            collapse(s.subrange(0, i), r) + r
        },
{
    let t = s.subrange(0, i + 1);
    assert(t.drop_last() =~= s.subrange(0, i));
    assert(t.last() == s[i]);
}

/// Replaces each run of disallowed characters in `haystack` by one copy of `replacement`.
pub fn replace_consecutive(haystack: &Vec<char>, replacement: &str) -> (r: String)
    ensures
        r@ == collapse(haystack@, replacement@),
{
    let mut out = String::new();
    let mut i: usize = 0;
    while i < haystack.len()
        invariant
            i <= haystack.len(),
            out@ == collapse(haystack@.subrange(0, i as int), replacement@),
        decreases haystack.len() - i,
    {
        let c = haystack[i];
        proof {
            lemma_collapse_step(haystack@, i as int, replacement@);
        }
        if !is_disallowed_char(c) {
            push_char(&mut out, c);
        } else if i == 0 || !is_disallowed_char(haystack[i - 1]) {
            out.append(replacement);
        }
        i = i + 1;
    }
    assert(haystack@.subrange(0, haystack@.len() as int) =~= haystack@);
    out
}

/// Makes `file_name` safe to use as the name of a file: a blank name becomes
/// `replacement`; otherwise each run of disallowed characters becomes one
/// `replacement`, and a reserved device name is prefixed with `replacement`.
pub fn sanitize_file_name(file_name: &str, replacement: &str) -> (r: String)
    ensures
        r@ == sanitized(file_name@, replacement@),
{
    let chars = chars_of(file_name);
    if is_blank_chars(&chars) {
        return replacement.to_owned();
    }
    let collapsed = replace_consecutive(&chars, replacement);
    let collapsed_chars = chars_of(collapsed.as_str());
    if is_reserved_file_name(&collapsed_chars) {
        let mut prefixed = replacement.to_owned();
        prefixed.append(collapsed.as_str());
        prefixed
    } else {
        collapsed
    }
}

/// No character of `s` is disallowed in a file name; in particular `s` holds no path
/// separator.
pub open spec fn is_clean(s: Seq<char>) -> bool {
    forall|i: int| 0 <= i < s.len() ==> !is_disallowed(#[trigger] s[i])
}

pub(crate) proof fn lemma_collapse_is_clean(s: Seq<char>, r: Seq<char>)
    requires
        is_clean(r),
    ensures
        is_clean(collapse(s, r)),
    decreases s.len(),
{
    if s.len() > 0 {
        lemma_collapse_is_clean(s.drop_last(), r);
        let c = collapse(s.drop_last(), r);
        assert(is_clean(c + r));
        assert(!is_disallowed(s.last()) ==> is_clean(c.push(s.last())));
    }
}

/// Whatever name comes in, a clean replacement makes a sanitized name clean: no
/// disallowed character, and so no path separator, survives.
pub proof fn lemma_sanitized_is_clean(name: Seq<char>, replacement: Seq<char>)
    requires
        is_clean(replacement),
    ensures
        is_clean(sanitized(name, replacement)),
{
    lemma_collapse_is_clean(name, replacement);
    let c = collapse(name, replacement);
    assert(is_clean(replacement + c));
}

} // verus!
