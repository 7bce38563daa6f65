//! The common shape of a pass: a program goes in, the next program comes out
//! with a note on what happened.
//!
//! Two techniques rewrite program text: instruction substitution and
//! bogus-code injection. The other four need a structured program to work
//! on; on plain text they find nothing to transform and report a no-op.

use crate::injection::{
    inject_bogus_code, lemma_injection_changes_iff_point, state_after_injection, with_bogus_code,
};
use crate::program::Program;
use crate::rng::Rng;
use crate::substitution::{
    lemma_substitution_grows, replaced_words, substitute_identifiers, substituted,
};
use crate::technique::Technique;
use crate::text::same_text;
use vstd::prelude::*;
use vstd::string::StringExecFns;

verus! {

/// What one pass hands back.
#[derive(Debug)]
pub struct PassResult {
    /// The program after the pass.
    pub program: Program,
    /// Human-readable account of what the pass did.
    pub description: String,
    /// True when the pass left the program text as it was.
    pub no_op: bool,
}

/// The text that a pass of the given technique makes of `text` when the
/// random source is in `state`.
pub open spec fn pass_text(technique: Technique, text: Seq<char>, state: u64) -> Seq<char> {
    match technique {
        Technique::InstructionSubstitution => substituted(text),
        Technique::BogusCodeInjection => with_bogus_code(text, state),
        _ => text,
    }
}

/// The symbol records that a pass of the given technique adds.
pub open spec fn pass_symbols(technique: Technique, text: Seq<char>) -> Seq<Seq<char>> {
    match technique {
        Technique::InstructionSubstitution => replaced_words(text),
        _ => Seq::empty(),
    }
}

/// The state in which a pass of the given technique leaves the random source.
pub open spec fn pass_rng(technique: Technique, text: Seq<char>, state: u64) -> u64 {
    match technique {
        Technique::BogusCodeInjection => state_after_injection(text, 0, state),
        _ => state,
    }
}

/// True when a pass of the given technique leaves `text` as it is.
pub open spec fn pass_is_no_op(technique: Technique, text: Seq<char>, state: u64) -> bool {
    pass_text(technique, text, state) == text
}

/// The account that a pass gives of itself.
pub open spec fn pass_description(technique: Technique, no_op: bool) -> Seq<char> {
    technique.label() + (if no_op {
        ": nothing to transform"@
    } else {
        ": applied"@
    })
}

/// Writes the account of a pass.
pub fn describe_pass(technique: Technique, no_op: bool) -> (description: String)
    ensures
        description@ == pass_description(technique, no_op),
{
    let mut description = String::from_str(technique.name());
    if no_op {
        description.append(": nothing to transform");
    } else {
        description.append(": applied");
    }
    description
}

/// Runs the pass of one technique over a program.
///
/// The pass is total: where it finds nothing to transform it hands the
/// program back unchanged and says so.
pub fn apply_pass(technique: Technique, program: Program, rng: &mut Rng) -> (r: PassResult)
    ensures
        r.program@.text == pass_text(technique, program@.text, old(rng).state),
        r.program@.debug_symbols == program@.debug_symbols + pass_symbols(
            technique,
            program@.text,
        ),
        final(rng).state == pass_rng(technique, program@.text, old(rng).state),
        r.no_op == pass_is_no_op(technique, program@.text, old(rng).state),
        r.description@ == pass_description(technique, r.no_op),
{
    let mut program = program;
    let ghost symbols_before = program@.debug_symbols;
    let ghost text_before = program@.text;
    let no_op = match technique {
        Technique::InstructionSubstitution => {
            let (text, mut names) = substitute_identifiers(&program.text);
            let unchanged = same_text(&text, &program.text);
            program.text = text;
            program.debug_symbols.append(&mut names);
            assert(program@.debug_symbols =~= symbols_before + replaced_words(text_before));
            unchanged
        },
        Technique::BogusCodeInjection => {
            let text = inject_bogus_code(&program.text, rng);
            let unchanged = same_text(&text, &program.text);
            program.text = text;
            assert(program@.debug_symbols =~= symbols_before + Seq::<Seq<char>>::empty());
            unchanged
        },
        _ => {
            assert(program@.debug_symbols =~= symbols_before + Seq::<Seq<char>>::empty());
            true
        },
    };
    let description = describe_pass(technique, no_op);
    PassResult { program, description, no_op }
}

/// A pass that left a text unchanged recorded no symbol, and it leaves the
/// text unchanged when it runs on its own output again, whatever the random
/// source holds by then.
pub proof fn lemma_no_op_pass_repeats(
    technique: Technique,
    text: Seq<char>,
    first_state: u64,
    second_state: u64,
)
    requires
        pass_is_no_op(technique, text, first_state),
    ensures
        pass_symbols(technique, text) == Seq::<Seq<char>>::empty(),
        pass_is_no_op(technique, pass_text(technique, text, first_state), second_state),
        pass_symbols(technique, pass_text(technique, text, first_state)) == Seq::<
            Seq<char>,
        >::empty(),
{
    lemma_injection_changes_iff_point(text, first_state);
    lemma_injection_changes_iff_point(text, second_state);
    lemma_substitution_grows(text);
}

/// No pass shortens a text, and a pass that keeps the length of a text
/// leaves the text as it is, with this state of the random source and with
/// any other.
pub proof fn lemma_pass_never_shrinks(
    technique: Technique,
    text: Seq<char>,
    state: u64,
    other_state: u64,
)
    ensures
        pass_text(technique, text, state).len() >= text.len(),
        pass_text(technique, text, state).len() == text.len() ==> pass_is_no_op(
            technique,
            text,
            state,
        ) && pass_is_no_op(technique, text, other_state),
{
    lemma_substitution_grows(text);
    lemma_injection_changes_iff_point(text, state);
    lemma_injection_changes_iff_point(text, other_state);
}

} // verus!
