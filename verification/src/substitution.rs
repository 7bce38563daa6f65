//! Instruction substitution on program text: well-known identifiers are
//! replaced by coded aliases, one whole word at a time.
//!
//! A word is a maximal run of letters, digits, underscores and characters
//! beyond ASCII that are no white space. Only a word
//! that spells a table entry from its first to its last character is
//! replaced, so an identifier that merely contains an entry stays as it is.

use crate::program::names_view;
use crate::text::{append_range, append_str, is_whitespace, is_whitespace_char, range_spells};
use vstd::prelude::*;

verus! {

/// Characters that identifiers are made of: the letters and digits of
/// ASCII, the underscore, and every character beyond ASCII that is no white
/// space, so that an identifier with such a character in it is one word.
pub open spec fn is_word_char(c: char) -> bool {
    let code = c as u32;
    (0x61 <= code <= 0x7A) || (0x41 <= code <= 0x5A) || (0x30 <= code <= 0x39) || code == 0x5F
        || (code >= 0x80 && !is_whitespace(c))
}

/// End of the run of word characters that begins at `start`: the first
/// position from `start` on that holds no word character.
pub open spec fn word_end(text: Seq<char>, start: int) -> int
    decreases text.len() - start,
{
    if 0 <= start < text.len() && is_word_char(text[start]) {
        word_end(text, start + 1)
    } else {
        start
    }
}

/// The alias of a word, if the table holds the word.
pub open spec fn alias_of(word: Seq<char>) -> Option<Seq<char>> {
    if word == "main"@ {
        Some("_0x4d61696e"@)
    } else if word == "cout"@ {
        Some("_0x636f7574"@)
    } else {
        None
    }
}

/// What a word becomes: its alias if it has one, else itself.
pub open spec fn substituted_word(word: Seq<char>) -> Seq<char> {
    match alias_of(word) {
        Some(alias) => alias,
        None => word,
    }
}

/// The text from `start` on with every word replaced by what it becomes.
/// `start` must not lie inside a word.
pub open spec fn substituted_from(text: Seq<char>, start: int) -> Seq<char>
    decreases text.len() - start,
{
    if start < 0 || start >= text.len() {
        Seq::empty()
    } else {
        let end = word_end(text, start);
        if start < end <= text.len() {
            substituted_word(text.subrange(start, end)) + substituted_from(text, end)
        } else {
            seq![text[start]] + substituted_from(text, start + 1)
        }
    }
}

/// The words from `start` on that have an alias, in order of appearance.
pub open spec fn replaced_words_from(text: Seq<char>, start: int) -> Seq<Seq<char>>
    decreases text.len() - start,
{
    if start < 0 || start >= text.len() {
        Seq::empty()
    } else {
        let end = word_end(text, start);
        if start < end <= text.len() {
            let word = text.subrange(start, end);
            if alias_of(word) is Some {
                seq![word] + replaced_words_from(text, end)
            } else {
                replaced_words_from(text, end)
            }
        } else {
            replaced_words_from(text, start + 1)
        }
    }
}

/// The whole text after substitution.
pub open spec fn substituted(text: Seq<char>) -> Seq<char> {
    substituted_from(text, 0)
}

/// The words of the whole text that substitution replaces.
pub open spec fn replaced_words(text: Seq<char>) -> Seq<Seq<char>> {
    replaced_words_from(text, 0)
}

/// A run of word characters ends inside the text and not before its start.
pub proof fn lemma_word_end_bounds(text: Seq<char>, start: int)
    requires
        0 <= start <= text.len(),
    ensures
        start <= word_end(text, start) <= text.len(),
        forall|k: int| start <= k < word_end(text, start) ==> is_word_char(#[trigger] text[k]),
        word_end(text, start) < text.len() ==> !is_word_char(text[word_end(text, start)]),
    decreases text.len() - start,
{
    if start < text.len() && is_word_char(text[start]) {
        lemma_word_end_bounds(text, start + 1);
    }
}

/// Executable form of [`is_word_char`].
pub fn is_word_character(c: char) -> (r: bool)
    ensures
        r == is_word_char(c),
{
    let code: u32 = c as u32;
    (0x61 <= code && code <= 0x7A) || (0x41 <= code && code <= 0x5A) || (0x30 <= code && code
        <= 0x39) || code == 0x5F || (code >= 0x80 && !is_whitespace_char(c))
}

/// Finds the end of the run of word characters that begins at `start`.
pub fn find_word_end(text: &Vec<char>, start: usize) -> (end: usize)
    requires
        start <= text.len(),
    ensures
        end == word_end(text@, start as int),
        start <= end <= text.len(),
{
    let mut end: usize = start;
    while end < text.len() && is_word_character(text[end])
        invariant
            start <= end <= text.len(),
            word_end(text@, end as int) == word_end(text@, start as int),
        decreases text.len() - end,
    {
        end += 1;
    }
    end
}

/// Looks `text[start..end]` up in the alias table.
pub fn find_alias(text: &Vec<char>, start: usize, end: usize) -> (r: Option<&'static str>)
    requires
        start <= end <= text.len(),
    ensures
        match r {
            Some(alias) => alias_of(text@.subrange(start as int, end as int)) == Some(alias@),
            None => alias_of(text@.subrange(start as int, end as int)) is None,
        },
{
    if range_spells(text, start, end, "main") {
        Some("_0x4d61696e")
    } else if range_spells(text, start, end, "cout") {
        Some("_0x636f7574")
    } else {
        None
    }
}

/// Replaces every word of `text` that has an alias and returns the new text
/// together with the former spelling of each word it replaced.
pub fn substitute_identifiers(text: &Vec<char>) -> (r: (Vec<char>, Vec<Vec<char>>))
    ensures
        r.0@ == substituted(text@),
        names_view(r.1@) == replaced_words(text@),
{
    let mut out: Vec<char> = Vec::new();
    let mut names: Vec<Vec<char>> = Vec::new();
    let mut i: usize = 0;
    assert(names_view(names@) =~= Seq::<Seq<char>>::empty());
    while i < text.len()
        invariant
            i <= text.len(),
            out@ + substituted_from(text@, i as int) == substituted(text@),
            names_view(names@) + replaced_words_from(text@, i as int) == replaced_words(text@),
        decreases text.len() - i,
    {
        let end = find_word_end(text, i);
        let ghost out_before = out@;
        let ghost names_before = names_view(names@);
        if end > i {
            let ghost word = text@.subrange(i as int, end as int);
            match find_alias(text, i, end) {
                Some(alias) => {
                    append_str(&mut out, alias);
                    let mut former: Vec<char> = Vec::new();
                    append_range(&mut former, text, i, end);
                    assert(former@ =~= word);
                    names.push(former);
                    assert(names_view(names@) =~= names_before.push(word));
                    assert(names_view(names@) + replaced_words_from(text@, end as int)
                        =~= names_before + replaced_words_from(text@, i as int));
                },
                None => {
                    append_range(&mut out, text, i, end);
                },
            }
            assert(out@ + substituted_from(text@, end as int) =~= out_before + substituted_from(
                text@,
                i as int,
            ));
            i = end;
        } else {
            out.push(text[i]);
            assert(out@ + substituted_from(text@, i + 1) =~= out_before + substituted_from(
                text@,
                i as int,
            ));
            i += 1;
        }
    }
    assert(out@ =~= out@ + substituted_from(text@, i as int));
    assert(names_view(names@) =~= names_view(names@) + replaced_words_from(text@, i as int));
    (out, names)
}

/// True when a word begins at position `i`: a word character that follows
/// no other word character.
pub open spec fn is_word_start(text: Seq<char>, i: int) -> bool {
    0 <= i < text.len() && is_word_char(text[i]) && (i == 0 || !is_word_char(text[i - 1]))
}

/// The word that begins at position `i`.
pub open spec fn word_at(text: Seq<char>, i: int) -> Seq<char> {
    text.subrange(i, word_end(text, i))
}

/// True when no word of the text has an alias.
pub open spec fn free_of_table_words(text: Seq<char>) -> bool {
    forall|i: int| #[trigger] is_word_start(text, i) ==> alias_of(word_at(text, i)) is None
}

/// Every alias is one word, and no alias has an alias of its own.
pub proof fn lemma_aliases_are_final(word: Seq<char>)
    requires
        alias_of(word) is Some,
    ensures
        alias_of(alias_of(word)->0) is None,
        alias_of(word)->0.len() > word.len(),
        forall|k: int| 0 <= k < alias_of(word)->0.len() ==> is_word_char(#[trigger] alias_of(word)->0[k]),
{
    reveal_strlit("main");
    reveal_strlit("cout");
    reveal_strlit("_0x4d61696e");
    reveal_strlit("_0x636f7574");
    assert("main"@.len() == 4 && "cout"@.len() == 4);
    assert("_0x4d61696e"@.len() == 11 && "_0x636f7574"@.len() == 11);
}

/// A run of word characters in the second part of a text ends where it ends
/// in that part alone.
proof fn lemma_word_end_after_prefix(prefix: Seq<char>, rest: Seq<char>, i: int)
    requires
        0 <= i <= rest.len(),
    ensures
        word_end(prefix + rest, prefix.len() + i) == prefix.len() + word_end(rest, i),
    decreases rest.len() - i,
{
    let whole = prefix + rest;
    if i < rest.len() {
        assert(whole[prefix.len() + i] == rest[i]);
        if is_word_char(rest[i]) {
            lemma_word_end_after_prefix(prefix, rest, i + 1);
        }
    }
}

/// A word followed by something that is no word character ends where the
/// word ends.
proof fn lemma_word_end_of_word(word: Seq<char>, rest: Seq<char>, i: int)
    requires
        0 <= i <= word.len(),
        forall|k: int| 0 <= k < word.len() ==> is_word_char(#[trigger] word[k]),
        rest.len() == 0 || !is_word_char(rest[0]),
    ensures
        word_end(word + rest, i) == word.len(),
    decreases word.len() - i,
{
    let whole = word + rest;
    if i < word.len() {
        assert(whole[i] == word[i]);
        lemma_word_end_of_word(word, rest, i + 1);
    } else if rest.len() > 0 {
        assert(whole[i] == rest[0]);
    }
}

/// What holds of the substituted text from a position that does not lie
/// inside a word: none of its words has an alias, and it begins with a word
/// character only if the text does so at that position.
proof fn lemma_substituted_from_is_free(text: Seq<char>, start: int)
    requires
        0 <= start <= text.len(),
        start == 0 || start == text.len() || !is_word_char(text[start - 1]) || !is_word_char(
            text[start],
        ),
    ensures
        free_of_table_words(substituted_from(text, start)),
        start < text.len() && !is_word_char(text[start]) ==> substituted_from(text, start).len()
            > 0 && substituted_from(text, start)[0] == text[start],
    decreases text.len() - start,
{
    let out = substituted_from(text, start);
    if start < text.len() {
        lemma_word_end_bounds(text, start);
        let end = word_end(text, start);
        if is_word_char(text[start]) {
            assert(end > start);
            let word = text.subrange(start, end);
            let piece = substituted_word(word);
            let rest = substituted_from(text, end);
            lemma_substituted_from_is_free(text, end);
            assert(out == piece + rest);
            assert(rest.len() == 0 || !is_word_char(rest[0])) by {
                if end == text.len() {
                    assert(rest.len() == 0);
                }
            }
            assert(alias_of(piece) is None && piece.len() > 0 && forall|k: int|
                0 <= k < piece.len() ==> is_word_char(#[trigger] piece[k])) by {
                if alias_of(word) is Some {
                    lemma_aliases_are_final(word);
                }
            }
            assert forall|i: int| #[trigger] is_word_start(out, i) implies alias_of(
                word_at(out, i),
            ) is None by {
                if i == 0 {
                    lemma_word_end_of_word(piece, rest, 0);
                    assert(word_at(out, 0) =~= piece);
                } else if i < piece.len() {
                    assert(out[i - 1] == piece[i - 1]);
                } else if i == piece.len() {
                    assert(out[i] == rest[0]);
                } else {
                    let j = i - piece.len();
                    assert(out[i] == rest[j]);
                    assert(out[i - 1] == rest[j - 1]);
                    assert(is_word_start(rest, j));
                    lemma_word_end_after_prefix(piece, rest, j);
                    lemma_word_end_bounds(rest, j);
                    assert(word_at(out, i) =~= word_at(rest, j));
                }
            }
        } else {
            assert(end == start);
            let piece = seq![text[start]];
            let rest = substituted_from(text, start + 1);
            lemma_substituted_from_is_free(text, start + 1);
            assert(out == piece + rest);
            assert(out[0] == text[start]);
            assert forall|i: int| #[trigger] is_word_start(out, i) implies alias_of(
                word_at(out, i),
            ) is None by {
                if i >= 1 {
                    let j = i - 1;
                    assert(out[i] == rest[j]);
                    if j > 0 {
                        assert(out[i - 1] == rest[j - 1]);
                    }
                    assert(is_word_start(rest, j));
                    lemma_word_end_after_prefix(piece, rest, j);
                    lemma_word_end_bounds(rest, j);
                    assert(word_at(out, i) =~= word_at(rest, j));
                }
            }
        }
    }
}

/// After substitution no word of the text has an alias: every identifier
/// that the table names is gone from the text as a word of its own.
pub proof fn lemma_substitution_leaves_no_table_word(text: Seq<char>)
    ensures
        free_of_table_words(substituted(text)),
{
    lemma_substituted_from_is_free(text, 0);
}

/// Substitution from a position on never shortens the text, and where it
/// keeps the length it keeps the text and replaces no word.
proof fn lemma_substituted_from_grows(text: Seq<char>, start: int)
    requires
        0 <= start <= text.len(),
    ensures
        substituted_from(text, start).len() >= text.len() - start,
        substituted_from(text, start).len() == text.len() - start ==> substituted_from(text, start)
            == text.subrange(start, text.len() as int) && replaced_words_from(text, start)
            == Seq::<Seq<char>>::empty(),
    decreases text.len() - start,
{
    let out = substituted_from(text, start);
    let tail = text.subrange(start, text.len() as int);
    if start < text.len() {
        lemma_word_end_bounds(text, start);
        let end = word_end(text, start);
        if end > start {
            let word = text.subrange(start, end);
            let rest = substituted_from(text, end);
            lemma_substituted_from_grows(text, end);
            if alias_of(word) is Some {
                lemma_aliases_are_final(word);
            }
            assert(out == substituted_word(word) + rest);
            if out.len() == text.len() - start {
                assert(alias_of(word) is None);
                assert(word + text.subrange(end, text.len() as int) =~= tail);
            }
        } else {
            let rest = substituted_from(text, start + 1);
            lemma_substituted_from_grows(text, start + 1);
            assert(out == seq![text[start]] + rest);
            if out.len() == text.len() - start {
                assert(seq![text[start]] + text.subrange(start + 1, text.len() as int) =~= tail);
            }
        }
    } else {
        assert(tail =~= Seq::<char>::empty());
    }
}

/// Substitution never shortens a text, and a text whose length it keeps is
/// a text that it leaves as it is and of which it records no word.
pub proof fn lemma_substitution_grows(text: Seq<char>)
    ensures
        substituted(text).len() >= text.len(),
        substituted(text).len() == text.len() ==> substituted(text) == text && replaced_words(text)
            == Seq::<Seq<char>>::empty(),
{
    lemma_substituted_from_grows(text, 0);
    assert(text.subrange(0, text.len() as int) =~= text);
}

} // verus!
