//! Verified operations on text, stated over sequences of characters.
use vstd::prelude::*;
use vstd::string::StringExecFns;
use crate::trusted::push_char;

verus! {

/// The characters of `s`, in order.
pub fn chars_of(s: &str) -> (chars: Vec<char>)
    ensures
        chars@ == s@,
{
    let mut chars: Vec<char> = Vec::new();
    for c in it: s.chars()
        invariant
            chars@ == it.history(),
    {
        chars.push(c);
    }
    chars
}

/// `s` with every `from` turned into `to`.
pub open spec fn char_replaced(s: Seq<char>, from: char, to: char) -> Seq<char> {
    s.map_values(|c: char| if c == from { to } else { c })
}

/// Replaces every occurrence of the character `from` in `s` by `to`.
pub fn replace_char(s: &str, from: char, to: char) -> (out: String)
    ensures
        out@ == char_replaced(s@, from, to),
{
    let chars = chars_of(s);
    let mut out = String::new();
    let mut i: usize = 0;
    while i < chars.len()
        invariant
            i <= chars.len(),
            chars@ == s@,
            out@ == char_replaced(s@.subrange(0, i as int), from, to),
        decreases chars.len() - i,
    {
        let c = chars[i];
        push_char(&mut out, if c == from { to } else { c });
        i += 1;
        assert(out@ =~= char_replaced(s@.subrange(0, i as int), from, to));
    }
    assert(s@.subrange(0, i as int) =~= s@);
    out
}

/// `s` with every non-overlapping occurrence of `pattern`, found from left
/// to right, replaced by `replacement`. The empty pattern occurs before
/// every character and at the end.
pub open spec fn replaced(s: Seq<char>, pattern: Seq<char>, replacement: Seq<char>) -> Seq<char>
    decreases s.len(),
{
    if pattern.len() == 0 {
        if s.len() == 0 {
            replacement
        } else {
            replacement + seq![s[0]] + replaced(s.skip(1), pattern, replacement)
        }
    } else if pattern.is_prefix_of(s) {
        replacement + replaced(s.skip(pattern.len() as int), pattern, replacement)
    } else if s.len() == 0 {
        s
    } else {
        seq![s[0]] + replaced(s.skip(1), pattern, replacement)
    }
}

/// Tells whether `pattern` stands in `s` at position `at`.
fn occurs_at(s: &Vec<char>, at: usize, pattern: &Vec<char>) -> (found: bool)
    requires
        at <= s.len(),
    ensures
        found == pattern@.is_prefix_of(s@.skip(at as int)),
{
    if pattern.len() > s.len() - at {
        return false;
    }
    let mut k: usize = 0;
    while k < pattern.len()
        invariant
            at <= s.len(),
            k <= pattern.len() <= s.len() - at,
            forall|j: int| 0 <= j < k ==> pattern@[j] == s@[at + j],
        decreases pattern.len() - k,
    {
        if pattern[k] != s[at + k] {
            assert(s@.skip(at as int).subrange(0, pattern@.len() as int)[k as int] != pattern@[k as int]);
            return false;
        }
        k += 1;
    }
    assert(pattern@ =~= s@.skip(at as int).subrange(0, pattern@.len() as int));
    true
}

/// Replaces every occurrence of `pattern` in `s` by `replacement`.
pub fn replace_all(s: &str, pattern: &str, replacement: &str) -> (out: String)
    ensures
        out@ == replaced(s@, pattern@, replacement@),
{
    let text = chars_of(s);
    let pat = chars_of(pattern);
    let n = text.len();
    let mut out = String::new();
    let mut i: usize = 0;
    assert(text@.skip(0) =~= text@);
    while i < n
        invariant
            n == text.len(),
            i <= n,
            text@ == s@,
            pat@ == pattern@,
            out@ + replaced(text@.skip(i as int), pat@, replacement@) == replaced(
                s@,
                pattern@,
                replacement@,
            ),
        decreases n - i,
    {
        let ghost rest = text@.skip(i as int);
        let ghost before = out@;
        if pat.len() == 0 {
            out.append(replacement);
            push_char(&mut out, text[i]);
            proof {
                assert(rest.skip(1) =~= text@.skip(i + 1));
                assert(out@ + replaced(rest.skip(1), pat@, replacement@) =~= before + replaced(
                    rest,
                    pat@,
                    replacement@,
                ));
            }
            i += 1;
        } else if occurs_at(&text, i, &pat) {
            out.append(replacement);
            proof {
                assert(rest.skip(pat@.len() as int) =~= text@.skip(i + pat@.len()));
                assert(out@ + replaced(rest.skip(pat@.len() as int), pat@, replacement@)
                    =~= before + replaced(rest, pat@, replacement@));
            }
            i += pat.len();
        } else {
            push_char(&mut out, text[i]);
            proof {
                assert(rest.skip(1) =~= text@.skip(i + 1));
                assert(out@ + replaced(rest.skip(1), pat@, replacement@) =~= before + replaced(
                    rest,
                    pat@,
                    replacement@,
                ));
            }
            i += 1;
        }
    }
    if pat.len() == 0 {
        out.append(replacement);
    }
    assert(out@ =~= replaced(s@, pattern@, replacement@));
    out
}

/// True for the two characters that some platform takes as a path separator.
pub open spec fn is_separator(c: char) -> bool {
    c == '/' || c == '\\'
}

/// No character of `s` is a path separator.
pub open spec fn separator_free(s: Seq<char>) -> bool {
    forall|i: int| 0 <= i < s.len() ==> !is_separator(#[trigger] s[i])
}

/// Tells whether `s` is free of path separators.
pub fn has_no_separator(s: &str) -> (free: bool)
    ensures
        free == separator_free(s@),
{
    let chars = chars_of(s);
    let mut i: usize = 0;
    while i < chars.len()
        invariant
            i <= chars.len(),
            chars@ == s@,
            separator_free(s@.subrange(0, i as int)),
        decreases chars.len() - i,
    {
        if chars[i] == '/' || chars[i] == '\\' {
            assert(is_separator(s@[i as int]));
            return false;
        }
        i += 1;
        assert forall|j: int| 0 <= j < i implies !is_separator(
            #[trigger] s@.subrange(0, i as int)[j],
        ) by {
            if j < i - 1 {
                assert(s@.subrange(0, i as int)[j] == s@.subrange(0, i - 1)[j]);
            }
        }
    }
    assert(s@.subrange(0, i as int) =~= s@);
    true
}

/// The lower-case form of an ASCII capital letter; any other character
/// unchanged.
pub open spec fn lower_ascii_char(c: char) -> char {
    if 'A' <= c && c <= 'Z' {
        ((c as u8) + 32) as char
    } else {
        c
    }
}

/// `s` with its ASCII capital letters in lower case.
pub open spec fn lower_ascii(s: Seq<char>) -> Seq<char> {
    s.map_values(|c: char| lower_ascii_char(c))
}

/// Lower case of one character, for ASCII letters only.
pub fn to_lower_ascii_char(c: char) -> (lower: char)
    ensures
        lower == lower_ascii_char(c),
{
    if 'A' <= c && c <= 'Z' {
        ((c as u8) + 32) as char
    } else {
        c
    }
}

/// Tells whether `a` and `b` are the same text once ASCII capitals are
/// lowered.
pub fn eq_ignore_ascii_case(a: &str, b: &str) -> (same: bool)
    ensures
        same == (lower_ascii(a@) == lower_ascii(b@)),
{
    let x = chars_of(a);
    let y = chars_of(b);
    if x.len() != y.len() {
        assert(lower_ascii(a@).len() != lower_ascii(b@).len());
        return false;
    }
    let mut i: usize = 0;
    while i < x.len()
        invariant
            i <= x.len(),
            x.len() == y.len(),
            x@ == a@,
            y@ == b@,
            forall|j: int| 0 <= j < i ==> lower_ascii_char(a@[j]) == lower_ascii_char(b@[j]),
        decreases x.len() - i,
    {
        if to_lower_ascii_char(x[i]) != to_lower_ascii_char(y[i]) {
            assert(lower_ascii(a@)[i as int] != lower_ascii(b@)[i as int]);
            return false;
        }
        i += 1;
    }
    assert(lower_ascii(a@) =~= lower_ascii(b@));
    true
}

/// `s` without one line feed at its end, if it ends in one.
pub open spec fn without_line_end(s: Seq<char>) -> Seq<char> {
    if s.len() > 0 && s.last() == '\n' {
        s.drop_last()
    } else {
        s
    }
}

/// Removes one trailing line feed from `s`.
pub fn strip_line_end(s: &str) -> (line: String)
    ensures
        line@ == without_line_end(s@),
{
    let chars = chars_of(s);
    let n = chars.len();
    let keep = if n > 0 && chars[n - 1] == '\n' { n - 1 } else { n };
    let mut line = String::new();
    let mut i: usize = 0;
    while i < keep
        invariant
            i <= keep <= chars.len(),
            line@ == chars@.subrange(0, i as int),
        decreases keep - i,
    {
        push_char(&mut line, chars[i]);
        i += 1;
        assert(line@ =~= chars@.subrange(0, i as int));
    }
    assert(chars@.subrange(0, n as int) =~= chars@);
    line
}

/// Tells whether `a` and `b` are the same text.
pub fn same_text(a: &str, b: &str) -> (same: bool)
    ensures
        same == (a@ == b@),
{
    let x = chars_of(a);
    let y = chars_of(b);
    if x.len() != y.len() {
        return false;
    }
    let mut i: usize = 0;
    while i < x.len()
        invariant
            i <= x.len(),
            x.len() == y.len(),
            x@ == a@,
            y@ == b@,
            forall|j: int| 0 <= j < i ==> a@[j] == b@[j],
        decreases x.len() - i,
    {
        if x[i] != y[i] {
            return false;
        }
        i += 1;
    }
    assert(a@ =~= b@);
    true
}

/// The characters with the Unicode property White_Space.
pub open spec fn is_white_space(c: char) -> bool {
    let n = c as u32;
    ||| 0x09 <= n <= 0x0D
    ||| n == 0x20
    ||| n == 0x85
    ||| n == 0xA0
    ||| n == 0x1680
    ||| 0x2000 <= n <= 0x200A
    ||| n == 0x2028
    ||| n == 0x2029
    ||| n == 0x202F
    ||| n == 0x205F
    ||| n == 0x3000
}

/// Tells whether `c` is white space.
pub fn is_white_space_char(c: char) -> (white: bool)
    ensures
        white == is_white_space(c),
{
    let n = c as u32;
    (0x09 <= n && n <= 0x0D) || n == 0x20 || n == 0x85 || n == 0xA0 || n == 0x1680 || (0x2000 <= n
        && n <= 0x200A) || n == 0x2028 || n == 0x2029 || n == 0x202F || n == 0x205F || n == 0x3000
}

/// `s` without the white space at its start.
pub open spec fn trimmed_start(s: Seq<char>) -> Seq<char>
    decreases s.len(),
{
    if s.len() > 0 && is_white_space(s[0]) {
        trimmed_start(s.skip(1))
    } else {
        s
    }
}

/// `s` without the white space at its end.
pub open spec fn trimmed_end(s: Seq<char>) -> Seq<char>
    decreases s.len(),
{
    if s.len() > 0 && is_white_space(s.last()) {
        trimmed_end(s.drop_last())
    } else {
        s
    }
}

/// `s` without the white space at its two ends.
pub open spec fn trimmed(s: Seq<char>) -> Seq<char> {
    trimmed_end(trimmed_start(s))
}

/// Removes the white space at the two ends of `s`.
pub fn trim(s: &str) -> (out: String)
    ensures
        out@ == trimmed(s@),
{
    let chars = chars_of(s);
    let n = chars.len();
    let mut start: usize = 0;
    assert(chars@.skip(0) =~= chars@);
    while start < n && is_white_space_char(chars[start])
        invariant
            n == chars.len(),
            start <= n,
            trimmed_start(chars@) == trimmed_start(chars@.skip(start as int)),
        decreases n - start,
    {
        assert(chars@.skip(start as int).skip(1) =~= chars@.skip(start + 1));
        start += 1;
    }
    assert(trimmed_start(chars@) == chars@.skip(start as int));
    let mut end: usize = n;
    assert(chars@.subrange(start as int, n as int) =~= chars@.skip(start as int));
    while end > start && is_white_space_char(chars[end - 1])
        invariant
            n == chars.len(),
            start <= end <= n,
            trimmed(chars@) == trimmed_end(chars@.subrange(start as int, end as int)),
        decreases end,
    {
        assert(chars@.subrange(start as int, end as int).drop_last() =~= chars@.subrange(
            start as int,
            end - 1,
        ));
        end -= 1;
    }
    assert(trimmed(chars@) == chars@.subrange(start as int, end as int));
    let mut out = String::new();
    let mut i: usize = start;
    while i < end
        invariant
            start <= i <= end <= chars.len(),
            out@ == chars@.subrange(start as int, i as int),
        decreases end - i,
    {
        push_char(&mut out, chars[i]);
        i += 1;
        assert(out@ =~= chars@.subrange(start as int, i as int));
    }
    out
}

} // verus!
