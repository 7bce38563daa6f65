//! Bogus-code injection on program text.
//!
//! A statement that ends its line or the text (a semicolon followed by a
//! line feed or by nothing) is an injection point. After each injection point
//! the pass inserts one snippet that changes no result, chosen by the random
//! source, and it puts the declarations that the snippets need in front of
//! the text. A text without an injection point is left as it is, and nothing
//! is drawn for it.

use crate::rng::{next_state, output_of, Rng};
use crate::text::{append_range, append_str};
use vstd::prelude::*;

verus! {

/// Number of snippets to choose from.
pub const SNIPPET_COUNT: u64 = 3;

/// True when a statement ends its line, or the text, at position `i`.
pub open spec fn is_injection_point(text: Seq<char>, i: int) -> bool {
    0 <= i < text.len() && text[i] == ';' && (i + 1 == text.len() || text[i + 1] == '\n')
}

/// True when the text has an injection point at or after `start`.
pub open spec fn has_injection_point_from(text: Seq<char>, start: int) -> bool {
    exists|i: int| start <= i && #[trigger] is_injection_point(text, i)
}

/// True when the text has an injection point.
pub open spec fn has_injection_point(text: Seq<char>) -> bool {
    has_injection_point_from(text, 0)
}

/// The snippet with the given number.
pub open spec fn snippet(choice: u64) -> Seq<char> {
    if choice == 0 {
        " _OBF_NOP();"@
    } else if choice == 1 {
        " _obf_dummy++;"@
    } else {
        " _OBF_NOP(); _OBF_NOP();"@
    }
}

/// The snippet that a generator picks when it moves into `state`.
pub open spec fn drawn_snippet(state: u64) -> Seq<char> {
    snippet(output_of(state) % SNIPPET_COUNT)
}

/// The declarations that the snippets rely on.
pub open spec fn prelude() -> Seq<char> {
    "volatile int _obf_dummy = 0;\n#define _OBF_NOP() do { _obf_dummy++; } while(0)\n\n"@
}

/// The text from `start` on with a snippet after each injection point, the
/// generator being in `state` when the scan reaches `start`.
pub open spec fn injected_from(text: Seq<char>, start: int, state: u64) -> Seq<char>
    decreases text.len() - start,
{
    if start < 0 || start >= text.len() {
        Seq::empty()
    } else if is_injection_point(text, start) {
        seq![text[start]] + drawn_snippet(next_state(state)) + injected_from(
            text,
            start + 1,
            next_state(state),
        )
    } else {
        seq![text[start]] + injected_from(text, start + 1, state)
    }
}

/// The state in which the generator is left by the scan that
/// [`injected_from`] describes: one number is drawn per injection point.
pub open spec fn state_after_injection(text: Seq<char>, start: int, state: u64) -> u64
    decreases text.len() - start,
{
    if start < 0 || start >= text.len() {
        state
    } else if is_injection_point(text, start) {
        state_after_injection(text, start + 1, next_state(state))
    } else {
        state_after_injection(text, start + 1, state)
    }
}

/// The text that bogus-code injection makes of `text` with a generator in
/// `state`.
pub open spec fn with_bogus_code(text: Seq<char>, state: u64) -> Seq<char> {
    if has_injection_point(text) {
        prelude() + injected_from(text, 0, state)
    } else {
        text
    }
}

/// Without an injection point the scan copies the text and draws nothing.
pub proof fn lemma_nothing_to_inject(text: Seq<char>, start: int, state: u64)
    requires
        0 <= start <= text.len(),
        !has_injection_point_from(text, start),
    ensures
        injected_from(text, start, state) == text.subrange(start, text.len() as int),
        state_after_injection(text, start, state) == state,
    decreases text.len() - start,
{
    if start < text.len() {
        assert(!is_injection_point(text, start));
        assert(!has_injection_point_from(text, start + 1)) by {
            if has_injection_point_from(text, start + 1) {
                let i = choose|i: int| start + 1 <= i && #[trigger] is_injection_point(text, i);
                assert(start <= i && is_injection_point(text, i));
            }
        }
        lemma_nothing_to_inject(text, start + 1, state);
        assert(seq![text[start]] + text.subrange(start + 1, text.len() as int) =~= text.subrange(
            start,
            text.len() as int,
        ));
    } else {
        assert(text.subrange(start, text.len() as int) =~= Seq::<char>::empty());
    }
}

/// The scan never shortens a text.
pub proof fn lemma_injection_grows(text: Seq<char>, start: int, state: u64)
    requires
        0 <= start <= text.len(),
    ensures
        injected_from(text, start, state).len() >= text.len() - start,
    decreases text.len() - start,
{
    if start < text.len() {
        if is_injection_point(text, start) {
            lemma_injection_grows(text, start + 1, next_state(state));
        } else {
            lemma_injection_grows(text, start + 1, state);
        }
    }
}

/// Whether injection changes a text depends on the text alone: it changes
/// the text exactly when there is an injection point, whatever the generator
/// holds.
pub proof fn lemma_injection_changes_iff_point(text: Seq<char>, state: u64)
    ensures
        with_bogus_code(text, state) == text <==> !has_injection_point(text),
        with_bogus_code(text, state).len() >= text.len(),
        with_bogus_code(text, state).len() == text.len() ==> with_bogus_code(text, state) == text,
{
    if has_injection_point(text) {
        lemma_injection_grows(text, 0, state);
        reveal_strlit(
            "volatile int _obf_dummy = 0;\n#define _OBF_NOP() do { _obf_dummy++; } while(0)\n\n",
        );
        assert(prelude().len() > 0);
        assert(with_bogus_code(text, state).len() > text.len());
    }
}

/// Hands out the snippet that the generator picks next.
pub fn draw_snippet(rng: &mut Rng) -> (r: &'static str)
    ensures
        final(rng).state == next_state(old(rng).state),
        r@ == drawn_snippet(next_state(old(rng).state)),
{
    let choice: u64 = rng.next_below(SNIPPET_COUNT);
    if choice == 0 {
        " _OBF_NOP();"
    } else if choice == 1 {
        " _obf_dummy++;"
    } else {
        " _OBF_NOP(); _OBF_NOP();"
    }
}

/// Inserts a snippet after each injection point of `text` and, if there was
/// one, puts the prelude in front.
pub fn inject_bogus_code(text: &Vec<char>, rng: &mut Rng) -> (out: Vec<char>)
    ensures
        out@ == with_bogus_code(text@, old(rng).state),
        final(rng).state == state_after_injection(text@, 0, old(rng).state),
{
    let ghost start_state = rng.state;
    let mut body: Vec<char> = Vec::new();
    let mut found: bool = false;
    let mut i: usize = 0;
    while i < text.len()
        invariant
            i <= text.len(),
            body@ + injected_from(text@, i as int, rng.state) == injected_from(
                text@,
                0,
                start_state,
            ),
            state_after_injection(text@, i as int, rng.state) == state_after_injection(
                text@,
                0,
                start_state,
            ),
            found <==> exists|k: int| 0 <= k < i && #[trigger] is_injection_point(text@, k),
            !found ==> rng.state == start_state,
        decreases text.len() - i,
    {
        let ghost body_before = body@;
        let ghost state_before = rng.state;
        let c = text[i];
        body.push(c);
        if c == ';' && (i + 1 == text.len() || text[i + 1] == '\n') {
            assert(is_injection_point(text@, i as int));
            let piece = draw_snippet(rng);
            append_str(&mut body, piece);
            found = true;
        } else {
            assert(!is_injection_point(text@, i as int));
        }
        assert(body@ + injected_from(text@, i + 1, rng.state) =~= body_before + injected_from(
            text@,
            i as int,
            state_before,
        ));
        i += 1;
    }
    assert(body@ =~= body@ + injected_from(text@, i as int, rng.state));
    proof {
        if found {
            let k = choose|k: int| 0 <= k < i && #[trigger] is_injection_point(text@, k);
            assert(0 <= k && is_injection_point(text@, k));
        } else {
            assert(!has_injection_point(text@)) by {
                if has_injection_point(text@) {
                    let k = choose|k: int| 0 <= k && #[trigger] is_injection_point(text@, k);
                    assert(0 <= k < i && is_injection_point(text@, k));
                }
            }
            lemma_nothing_to_inject(text@, 0, start_state);
            assert(text@.subrange(0, text@.len() as int) =~= text@);
        }
    }
    if found {
        let mut out: Vec<char> = Vec::new();
        append_str(
            &mut out,
            "volatile int _obf_dummy = 0;\n#define _OBF_NOP() do { _obf_dummy++; } while(0)\n\n",
        );
        append_range(&mut out, &body, 0, body.len());
        assert(body@.subrange(0, body@.len() as int) =~= body@);
        out
    } else {
        body
    }
}

} // verus!
