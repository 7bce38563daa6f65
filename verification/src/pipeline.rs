//! The transformation pipeline: from a source text and a configuration to the
//! obfuscated program, or to the reason why there is none.
//!
//! A run rejects blank input, validates the configuration, resolves the
//! technique set into passes in canonical order, threads one random source
//! through them, measures the result against the size budget, strips the
//! symbol records unless they are asked for, and hands back the program with
//! an optional report. A run that ends in an error hands back no program:
//! the passes work on a program of their own, which is dropped with them.

use crate::config::{ObfuscationConfig, ValidationError};
use crate::passes::{
    apply_pass, lemma_pass_never_shrinks, pass_description, pass_is_no_op, pass_rng, pass_symbols,
    pass_text,
};
use crate::program::Program;
use crate::rng::Rng;
use crate::substitution::{free_of_table_words, lemma_substitution_leaves_no_table_word};
use crate::technique::{canonical_order, plan_passes, planned_passes, planned_prefix, Technique};
use crate::text::{chars_of, is_blank, is_blank_text};
use std::hash::{BuildHasher, RandomState};
use vstd::prelude::*;

verus! {

/// Why a run of the pipeline produced no program.
#[derive(Debug, Clone, Copy, PartialEq, Eq, Structural)]
pub enum PipelineError {
    /// The source is empty or holds white space only.
    EmptyInput,
    /// The configuration did not pass validation.
    InvalidConfig(ValidationError),
    /// The output is larger than the budget allows.
    BudgetExceeded {
        /// Size of the output in percent of the input, rounded up.
        measured: u128,
        /// The configured `max_size_increase`.
        limit: u32,
    },
}

/// What the passes leave behind, for readers of the output.
#[derive(Debug)]
pub struct Report {
    /// The account of each pass, in the order in which the passes ran.
    pub descriptions: Vec<String>,
    /// Size of the output in percent of the input, rounded up.
    pub size_percent: u128,
}

/// The character sequences that a list of strings stands for.
pub open spec fn lines_view(lines: Seq<String>) -> Seq<Seq<char>> {
    lines.map_values(|line: String| line@)
}

/// What a chain of passes has reached.
pub struct PassState {
    /// The program text.
    pub text: Seq<char>,
    /// The symbol records collected so far.
    pub debug_symbols: Seq<Seq<char>>,
    /// The state of the random source.
    pub rng: u64,
    /// The accounts of the passes that ran.
    pub descriptions: Seq<Seq<char>>,
}

/// The state in which a run starts.
pub open spec fn initial_state(source: Seq<char>, seed: u64) -> PassState {
    PassState { text: source, debug_symbols: Seq::empty(), rng: seed, descriptions: Seq::empty() }
}

/// The state that one pass makes of `state`.
pub open spec fn after_pass(technique: Technique, state: PassState) -> PassState {
    PassState {
        text: pass_text(technique, state.text, state.rng),
        debug_symbols: state.debug_symbols + pass_symbols(technique, state.text),
        rng: pass_rng(technique, state.text, state.rng),
        descriptions: state.descriptions.push(
            pass_description(technique, pass_is_no_op(technique, state.text, state.rng)),
        ),
    }
}

/// The state that a chain of passes makes of `start`, each pass working on
/// what the one before it left.
pub open spec fn after_passes(passes: Seq<Technique>, start: PassState) -> PassState
    decreases passes.len(),
{
    if passes.len() == 0 {
        start
    } else {
        after_pass(passes.last(), after_passes(passes.drop_last(), start))
    }
}

/// Size of the output in percent of the size of the input, rounded up to a
/// whole percent: 100 stands for an output as large as the input.
pub open spec fn size_percent(input_size: nat, output_size: nat) -> nat {
    if input_size == 0 {
        0
    } else {
        ((output_size * 100 + input_size - 1) / (input_size as int)) as nat
    }
}

/// True when a budget is set and the measured size lies above it.
pub open spec fn exceeds_budget(percent: nat, budget: Option<u32>) -> bool {
    match budget {
        Some(limit) => percent > limit,
        None => false,
    }
}

/// What a successful run hands back.
pub struct Outcome {
    /// The text of the program.
    pub text: Seq<char>,
    /// The symbol records of the program.
    pub debug_symbols: Seq<Seq<char>>,
    /// The accounts of the passes, if a report was asked for.
    pub descriptions: Option<Seq<Seq<char>>>,
    /// Size of the output in percent of the input, rounded up.
    pub size_percent: nat,
}

/// The result of a run on `source` under `config` with a random source that
/// starts from `seed`.
pub open spec fn pipeline_outcome(source: Seq<char>, config: ObfuscationConfig, seed: u64) -> Result<
    Outcome,
    PipelineError,
> {
    if is_blank(source) {
        Err(PipelineError::EmptyInput)
    } else {
        match config.validation() {
            Err(reason) => Err(PipelineError::InvalidConfig(reason)),
            Ok(_) => {
                let end = after_passes(
                    planned_passes(config.techniques),
                    initial_state(source, seed),
                );
                let percent = size_percent(source.len(), end.text.len());
                if exceeds_budget(percent, config.max_size_increase) {
                    Err(
                        PipelineError::BudgetExceeded {
                            measured: percent as u128,
                            limit: config.max_size_increase->0,
                        },
                    )
                } else {
                    Ok(
                        Outcome {
                            text: end.text,
                            debug_symbols: if config.preserve_debug_info {
                                end.debug_symbols
                            } else {
                                Seq::empty()
                            },
                            descriptions: if config.generate_report {
                                Some(end.descriptions)
                            } else {
                                None
                            },
                            size_percent: percent,
                        },
                    )
                }
            },
        }
    }
}

/// True when `result` is what a run on `source` under `config` with the
/// given seed hands back.
pub open spec fn is_result_of(
    result: Result<(Program, Option<Report>), PipelineError>,
    source: Seq<char>,
    config: ObfuscationConfig,
    seed: u64,
) -> bool {
    match result {
        Ok((program, report)) => {
            &&& pipeline_outcome(source, config, seed) matches Ok(outcome)
            &&& program@.text == outcome.text
            &&& program@.debug_symbols == outcome.debug_symbols
            &&& match report {
                Some(report) => {
                    &&& outcome.descriptions == Some(lines_view(report.descriptions@))
                    &&& report.size_percent == outcome.size_percent
                },
                None => outcome.descriptions is None,
            }
        },
        Err(error) => pipeline_outcome(source, config, seed) == Err::<Outcome, PipelineError>(
            error,
        ) && carries_its_measure(error, source, config, seed),
    }
}

/// True when a budget error carries the measured size as it is, which lies
/// above the limit that it carries; true of every other error.
pub open spec fn carries_its_measure(
    error: PipelineError,
    source: Seq<char>,
    config: ObfuscationConfig,
    seed: u64,
) -> bool {
    match error {
        PipelineError::BudgetExceeded { measured, limit } => measured == size_percent(
            source.len(),
            produced_text(source, config, seed).len(),
        ) && measured > limit && config.max_size_increase == Some(limit),
        _ => true,
    }
}

/// Computes the size of an output in percent of the size of its input.
pub fn measure_growth(input_size: usize, output_size: usize) -> (percent: u128)
    requires
        input_size > 0,
    ensures
        percent == size_percent(input_size as nat, output_size as nat),
{
    let scaled: u128 = (output_size as u128) * 100;
    (scaled + (input_size as u128) - 1) / (input_size as u128)
}

/// Makes a source of hash keys that differ from one call to the next.
///
/// Wraps `RandomState::new`. Nothing is claimed of the keys: two calls may
/// or may not agree.
#[verifier::external_body]
fn new_random_state() -> RandomState {
    RandomState::new()
}

/// Hashes one number with the keys of `state`.
///
/// Wraps `BuildHasher::hash_one`. Nothing is claimed of the hash.
#[verifier::external_body]
fn hash_number(state: &RandomState, value: u64) -> u64 {
    state.hash_one(value)
}

/// A seed for runs that ask for none: it differs from run to run.
fn fresh_seed() -> u64 {
    let state = new_random_state();
    hash_number(&state, 0)
}

/// Runs the pipeline with a random source that starts from `seed`.
///
/// The seed of the configuration is not consulted: this is the function that
/// [`obfuscate`] calls once it has settled which seed to use.
pub fn obfuscate_with_seed(source: &str, config: &ObfuscationConfig, seed: u64) -> (result: Result<
    (Program, Option<Report>),
    PipelineError,
>)
    ensures
        is_result_of(result, source@, *config, seed),
{
    let text = chars_of(source);
    if is_blank_text(&text) {
        return Err(PipelineError::EmptyInput);
    }
    if let Err(reason) = config.validate() {
        return Err(PipelineError::InvalidConfig(reason));
    }
    let input_size = text.len();
    let passes = plan_passes(&config.techniques);
    let mut rng = Rng::from_seed(seed);
    let mut program = Program::from_text(text);
    let mut descriptions: Vec<String> = Vec::new();
    let ghost start = initial_state(source@, seed);
    assert(lines_view(descriptions@) =~= Seq::<Seq<char>>::empty());
    let mut i: usize = 0;
    while i < passes.len()
        invariant
            i <= passes.len(),
            program@.text == after_passes(passes@.take(i as int), start).text,
            program@.debug_symbols == after_passes(passes@.take(i as int), start).debug_symbols,
            rng.state == after_passes(passes@.take(i as int), start).rng,
            lines_view(descriptions@) == after_passes(passes@.take(i as int), start).descriptions,
        decreases passes.len() - i,
    {
        let ghost lines_before = lines_view(descriptions@);
        assert(passes@.take(i + 1).drop_last() =~= passes@.take(i as int));
        let outcome = apply_pass(passes[i], program, &mut rng);
        program = outcome.program;
        descriptions.push(outcome.description);
        assert(lines_view(descriptions@) =~= lines_before.push(outcome.description@));
        i += 1;
    }
    assert(passes@.take(i as int) =~= passes@);
    let percent = measure_growth(input_size, program.size());
    if let Some(limit) = config.max_size_increase {
        if percent > limit as u128 {
            return Err(PipelineError::BudgetExceeded { measured: percent, limit });
        }
    }
    if !config.preserve_debug_info {
        program.strip_debug_info();
    }
    let report = if config.generate_report {
        Some(Report { descriptions, size_percent: percent })
    } else {
        None
    };
    Ok((program, report))
}

/// Settles the seed of a run: the one that the configuration names, else a
/// fresh one.
pub fn choose_seed(config: &ObfuscationConfig) -> (seed: u64)
    ensures
        config.seed matches Some(named) ==> seed == named,
{
    match config.seed {
        Some(seed) => seed,
        None => fresh_seed(),
    }
}

/// Runs the pipeline on `source` under `config`.
///
/// With a seed in the configuration the result is a function of source and
/// configuration. Without one a fresh seed is drawn, and the result is that
/// of a seeded run with some seed.
pub fn obfuscate(source: &str, config: &ObfuscationConfig) -> (result: Result<
    (Program, Option<Report>),
    PipelineError,
>)
    ensures
        config.seed matches Some(seed) ==> is_result_of(result, source@, *config, seed),
        config.seed is None ==> exists|seed: u64| is_result_of(result, source@, *config, seed),
{
    let seed = choose_seed(config);
    obfuscate_with_seed(source, config, seed)
}

/// The measured size lies above a limit exactly when a hundred times the
/// output size is more than the limit times the input size.
pub proof fn lemma_size_percent_above(input_size: nat, output_size: nat, limit: nat)
    requires
        input_size > 0,
    ensures
        size_percent(input_size, output_size) > limit <==> output_size * 100 > input_size * limit,
{
    let a = input_size as int;
    let x = output_size * 100 + a - 1;
    let q = x / a;
    let l = limit as int;
    vstd::arithmetic::div_mod::lemma_fundamental_div_mod(x, a);
    vstd::arithmetic::div_mod::lemma_mod_bound(x, a);
    assert(x == a * q + x % a);
    assert(q > l <==> x >= a * (l + 1)) by (nonlinear_arith)
        requires
            x == a * q + x % a,
            0 <= x % a < a,
            a > 0,
    ;
    assert(a * (l + 1) == a * l + a) by (nonlinear_arith);
    assert(input_size * limit == a * l) by (nonlinear_arith)
        requires
            a == input_size,
            l == limit,
    ;
}

/// Blank input is rejected as empty under every configuration and seed.
pub proof fn lemma_blank_input_rejected(source: Seq<char>, config: ObfuscationConfig, seed: u64)
    requires
        is_blank(source),
    ensures
        pipeline_outcome(source, config, seed) == Err::<Outcome, PipelineError>(
            PipelineError::EmptyInput,
        ),
{
}

/// Input that is not blank is rejected for its configuration exactly when
/// validation rejects the configuration, with the reason that validation
/// gives, and before any pass has run.
pub proof fn lemma_invalid_config_rejected(source: Seq<char>, config: ObfuscationConfig, seed: u64)
    requires
        !is_blank(source),
    ensures
        config.validation() matches Err(reason) ==> pipeline_outcome(source, config, seed) == Err::<
            Outcome,
            PipelineError,
        >(PipelineError::InvalidConfig(reason)),
        config.is_valid() ==> !(pipeline_outcome(source, config, seed) matches Err(
            PipelineError::InvalidConfig(_),
        )),
{
}

/// The text that the planned passes make of `source`, before the budget is
/// consulted.
pub open spec fn produced_text(source: Seq<char>, config: ObfuscationConfig, seed: u64) -> Seq<
    char,
> {
    after_passes(planned_passes(config.techniques), initial_state(source, seed)).text
}

/// A run never hands back a program that is over budget: with a budget set,
/// a run on valid input succeeds exactly when a hundred times the size of
/// what the passes produce is at most the budget times the size of the
/// input, and fails with a budget error otherwise. Under a budget of 100 any
/// growth is fatal.
pub proof fn lemma_budget_enforced(
    source: Seq<char>,
    config: ObfuscationConfig,
    seed: u64,
    limit: u32,
)
    requires
        !is_blank(source),
        config.is_valid(),
        config.max_size_increase == Some(limit),
    ensures
        pipeline_outcome(source, config, seed) is Ok <==> produced_text(source, config, seed).len()
            * 100 <= source.len() * limit,
        pipeline_outcome(source, config, seed) matches Ok(outcome) ==> outcome.text
            == produced_text(source, config, seed) && outcome.text.len() * 100 <= source.len()
            * limit,
        pipeline_outcome(source, config, seed) matches Err(error) ==> error
            == (PipelineError::BudgetExceeded {
            measured: size_percent(
                source.len(),
                produced_text(source, config, seed).len(),
            ) as u128,
            limit,
        }) && size_percent(source.len(), produced_text(source, config, seed).len()) > limit,
        limit == 100 && produced_text(source, config, seed).len() > source.len()
            ==> pipeline_outcome(source, config, seed) is Err,
        pipeline_outcome(source, config, seed) is Err && size_percent(
            source.len(),
            produced_text(source, config, seed).len(),
        ) <= u128::MAX ==> carries_its_measure(
            pipeline_outcome(source, config, seed)->Err_0,
            source,
            config,
            seed,
        ),
{
    let produced = produced_text(source, config, seed);
    assert(source.len() > 0) by {
        if source.len() == 0 {
            assert(is_blank(source));
        }
    }
    lemma_size_percent_above(source.len(), produced.len(), limit as nat);
    let percent = size_percent(source.len(), produced.len());
    assert(exceeds_budget(percent, config.max_size_increase) <==> produced.len() * 100
        > source.len() * limit);
    assert(config.validation() is Ok);
    if limit == 100 {
        assert(source.len() * limit == source.len() * 100) by (nonlinear_arith)
            requires
                limit == 100,
        ;
    }
    if exceeds_budget(percent, config.max_size_increase) {
        assert(pipeline_outcome(source, config, seed) is Err);
    } else {
        assert(pipeline_outcome(source, config, seed) is Ok);
    }
}

/// Without a budget a run on valid input always succeeds.
pub proof fn lemma_no_budget_no_failure(source: Seq<char>, config: ObfuscationConfig, seed: u64)
    requires
        !is_blank(source),
        config.is_valid(),
        config.max_size_increase is None,
    ensures
        pipeline_outcome(source, config, seed) is Ok,
{
}

/// Two runs on the same source under the same configuration with the same
/// seed end alike: both fail with the same error, or both succeed with the
/// same text, the same symbol records and the same report.
pub proof fn lemma_seeded_runs_agree(
    first: Result<(Program, Option<Report>), PipelineError>,
    second: Result<(Program, Option<Report>), PipelineError>,
    source: Seq<char>,
    config: ObfuscationConfig,
    seed: u64,
)
    requires
        is_result_of(first, source, config, seed),
        is_result_of(second, source, config, seed),
    ensures
        first is Ok <==> second is Ok,
        first matches Err(a) ==> second == Err::<(Program, Option<Report>), PipelineError>(a),
        first matches Ok((p, r)) ==> second matches Ok((q, s)) && p@.text == q@.text
            && p@.debug_symbols == q@.debug_symbols && (r is Some <==> s is Some) && (r matches Some(
            x,
        ) ==> s matches Some(y) && lines_view(x.descriptions@) == lines_view(y.descriptions@)
            && x.size_percent == y.size_percent),
{
}

/// With instruction substitution switched on, the text that a run hands back
/// holds none of the identifiers that the alias table names as a word of its
/// own: no later pass brings one back.
pub proof fn lemma_output_has_no_table_word(
    source: Seq<char>,
    config: ObfuscationConfig,
    seed: u64,
)
    requires
        config.techniques.instruction_substitution,
        pipeline_outcome(source, config, seed) is Ok,
    ensures
        free_of_table_words(pipeline_outcome(source, config, seed)->Ok_0.text),
{
    let start = initial_state(source, seed);
    let upto = planned_prefix(config.techniques, 4);
    let with_substitution = planned_prefix(config.techniques, 5);
    let plan = planned_passes(config.techniques);
    assert(canonical_order()[4] == Technique::InstructionSubstitution);
    assert(canonical_order()[5] == Technique::FunctionManipulation);
    assert(with_substitution == upto.push(Technique::InstructionSubstitution));
    assert(with_substitution.drop_last() =~= upto);
    let before = after_passes(upto, start);
    let after = after_passes(with_substitution, start);
    assert(after == after_pass(Technique::InstructionSubstitution, before));
    lemma_substitution_leaves_no_table_word(before.text);
    if config.techniques.function_manipulation {
        assert(plan == with_substitution.push(Technique::FunctionManipulation));
        assert(plan.drop_last() =~= with_substitution);
        assert(after_passes(plan, start).text == after.text);
    } else {
        assert(plan == with_substitution);
    }
}

/// A chain of passes never shortens a text, and a chain that keeps the
/// length of a text leaves the text as it is, from this state of the random
/// source and from any other.
pub proof fn lemma_chain_never_shrinks(passes: Seq<Technique>, start: PassState, other: PassState)
    requires
        other.text == start.text,
    ensures
        after_passes(passes, start).text.len() >= start.text.len(),
        after_passes(passes, start).text.len() == start.text.len() ==> after_passes(
            passes,
            start,
        ).text == start.text && after_passes(passes, other).text == start.text,
    decreases passes.len(),
{
    if passes.len() > 0 {
        let before = after_passes(passes.drop_last(), start);
        let other_before = after_passes(passes.drop_last(), other);
        lemma_chain_never_shrinks(passes.drop_last(), start, other);
        lemma_pass_never_shrinks(passes.last(), before.text, before.rng, other_before.rng);
    }
}

/// A run that hands its source back unchanged does so under every seed:
/// each pass found nothing to transform, and finds nothing when it is run on
/// that output again.
pub proof fn lemma_unchanged_run_repeats(
    source: Seq<char>,
    config: ObfuscationConfig,
    seed: u64,
    other_seed: u64,
)
    requires
        pipeline_outcome(source, config, seed) is Ok,
        pipeline_outcome(source, config, seed)->Ok_0.text == source,
    ensures
        pipeline_outcome(source, config, other_seed) is Ok,
        pipeline_outcome(source, config, other_seed)->Ok_0.text == source,
{
    let passes = planned_passes(config.techniques);
    lemma_chain_never_shrinks(passes, initial_state(source, seed), initial_state(source, other_seed));
    assert(source.len() > 0) by {
        if source.len() == 0 {
            assert(is_blank(source));
        }
    }
    match config.max_size_increase {
        Some(limit) => {
            lemma_size_percent_above(source.len(), source.len(), limit as nat);
            assert(source.len() * 100 <= source.len() * limit) by (nonlinear_arith)
                requires
                    limit >= 100,
                    source.len() > 0,
            ;
        },
        None => {},
    }
}

} // verus!
