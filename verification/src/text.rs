//! Character-level helpers shared by the passes and the host commands.

use vstd::prelude::*;

verus! {

/// Appends one character to an owned string.
///
/// Wraps `String::push`, which puts the character at the end of the string
/// and leaves what was there before untouched.
#[verifier::external_body]
pub(crate) fn push_char(s: &mut String, c: char)
    ensures
        final(s)@ == old(s)@.push(c),
{
    s.push(c)
}

/// The characters of a string slice, in order.
pub fn chars_of(s: &str) -> (v: Vec<char>)
    ensures
        v@ == s@,
{
    let mut v: Vec<char> = Vec::new();
    for c in it: s.chars()
        invariant
            v@ == it.seq().take(it.index() as int),
            it.seq() == s@,
    {
        v.push(c);
    }
    v
}

/// The string made of the given characters, in order.
pub fn string_of(chars: &Vec<char>) -> (s: String)
    ensures
        s@ == chars@,
{
    let mut s = String::new();
    let mut i: usize = 0;
    while i < chars.len()
        invariant
            i <= chars.len(),
            s@ == chars@.take(i as int),
        decreases chars.len() - i,
    {
        push_char(&mut s, chars[i]);
        i += 1;
    }
    s
}

/// Appends `source[start..end]` to `out`.
pub fn append_range(out: &mut Vec<char>, source: &Vec<char>, start: usize, end: usize)
    requires
        start <= end <= source.len(),
    ensures
        final(out)@ == old(out)@ + source@.subrange(start as int, end as int),
{
    let mut i: usize = start;
    while i < end
        invariant
            start <= i <= end <= source.len(),
            out@ == old(out)@ + source@.subrange(start as int, i as int),
        decreases end - i,
    {
        out.push(source[i]);
        i += 1;
        assert(source@.subrange(start as int, i as int) == source@.subrange(
            start as int,
            i - 1,
        ).push(source@[i - 1]));
    }
}

/// Appends the characters of a string slice to `out`.
pub fn append_str(out: &mut Vec<char>, piece: &str)
    ensures
        final(out)@ == old(out)@ + piece@,
{
    let ghost before = out@;
    for c in it: piece.chars()
        invariant
            out@ == before + it.seq().take(it.index() as int),
            it.seq() == piece@,
    {
        out.push(c);
    }
}

/// Tells whether `source[start..end]` spells the given string slice.
pub fn range_spells(source: &Vec<char>, start: usize, end: usize, word: &str) -> (r: bool)
    requires
        start <= end <= source.len(),
    ensures
        r == (source@.subrange(start as int, end as int) == word@),
{
    let wanted = chars_of(word);
    if wanted.len() != end - start {
        return false;
    }
    let mut i: usize = 0;
    while i < wanted.len()
        invariant
            start <= end <= source.len(),
            wanted.len() == end - start,
            wanted@ == word@,
            i <= wanted.len(),
            forall|k: int| 0 <= k < i ==> source@[start + k] == wanted@[k],
        decreases wanted.len() - i,
    {
        if source[start + i] != wanted[i] {
            assert(source@.subrange(start as int, end as int)[i as int] != wanted@[i as int]);
            return false;
        }
        i += 1;
    }
    assert(source@.subrange(start as int, end as int) =~= wanted@);
    true
}

/// Tells whether two texts hold the same characters.
pub fn same_text(left: &Vec<char>, right: &Vec<char>) -> (r: bool)
    ensures
        r == (left@ == right@),
{
    if left.len() != right.len() {
        return false;
    }
    let mut i: usize = 0;
    while i < left.len()
        invariant
            left.len() == right.len(),
            i <= left.len(),
            forall|k: int| 0 <= k < i ==> left@[k] == right@[k],
        decreases left.len() - i,
    {
        if left[i] != right[i] {
            return false;
        }
        i += 1;
    }
    assert(left@ =~= right@);
    true
}

/// Code points with the Unicode `White_Space` property.
pub open spec fn is_whitespace(c: char) -> bool {
    let code = c as u32;
    (0x09 <= code <= 0x0D) || code == 0x20 || code == 0x85 || code == 0xA0 || code == 0x1680 || (
    0x2000 <= code <= 0x200A) || code == 0x2028 || code == 0x2029 || code == 0x202F || code
        == 0x205F || code == 0x3000
}

/// True when a text is empty or holds white space only.
pub open spec fn is_blank(text: Seq<char>) -> bool {
    forall|i: int| 0 <= i < text.len() ==> is_whitespace(#[trigger] text[i])
}

/// Executable form of [`is_whitespace`].
pub fn is_whitespace_char(c: char) -> (r: bool)
    ensures
        r == is_whitespace(c),
{
    let code: u32 = c as u32;
    (0x09 <= code && code <= 0x0D) || code == 0x20 || code == 0x85 || code == 0xA0 || code
        == 0x1680 || (0x2000 <= code && code <= 0x200A) || code == 0x2028 || code == 0x2029
        || code == 0x202F || code == 0x205F || code == 0x3000
}

/// Tells whether a text is empty or holds white space only.
pub fn is_blank_text(text: &Vec<char>) -> (r: bool)
    ensures
        r == is_blank(text@),
{
    let mut i: usize = 0;
    while i < text.len()
        invariant
            i <= text.len(),
            forall|k: int| 0 <= k < i ==> is_whitespace(#[trigger] text@[k]),
        decreases text.len() - i,
    {
        if !is_whitespace_char(text[i]) {
            return false;
        }
        i += 1;
    }
    true
}

} // verus!
