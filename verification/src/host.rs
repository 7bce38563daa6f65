//! The operations that a host offers to its users, as far as they compute:
//! reading and writing files stays with the host, which hands in what it
//! found and acts on what it is told.

use crate::config::{default_config, ObfuscationConfig};
use crate::error::{
    from_pipeline_error, invalid_configuration, pipeline_error_view, ConfigError, ErrorKind,
    ErrorView, ObfuscationError,
};
use crate::pipeline::{
    carries_its_measure, choose_seed, lemma_budget_enforced, lemma_unchanged_run_repeats,
    obfuscate_with_seed, pipeline_outcome, PipelineError,
};
use crate::text::{chars_of, is_blank, is_blank_text, string_of};
use vstd::prelude::*;
use vstd::string::StringExecFns;

verus! {

/// True when `result` is what the host hands out for a run on `code` under
/// `config` with the given seed: the text of the obfuscated program, which
/// is the text that the size budget was measured on, or the error that stands
/// for the failure of the pipeline, whose details give the true measure
/// where the budget was exceeded.
pub open spec fn is_host_result_of(
    result: Result<String, ObfuscationError>,
    code: Seq<char>,
    config: ObfuscationConfig,
    seed: u64,
) -> bool {
    match result {
        Ok(text) => pipeline_outcome(code, config, seed) matches Ok(outcome) && text@
            == outcome.text,
        Err(error) => pipeline_outcome(code, config, seed) matches Err(reason) && error@
            == pipeline_error_view(reason) && carries_its_measure(reason, code, config, seed),
    }
}

/// Runs the pipeline on `code` with a random source that starts from `seed`
/// and hands out the text of the program that comes out.
pub fn mock_obfuscate_with_seed(code: &str, config: &ObfuscationConfig, seed: u64) -> (result:
    Result<String, ObfuscationError>)
    ensures
        is_host_result_of(result, code@, *config, seed),
{
    match obfuscate_with_seed(code, config, seed) {
        Ok((program, _)) => Ok(string_of(&program.text)),
        Err(reason) => Err(from_pipeline_error(reason)),
    }
}

/// Obfuscates `code` under `config` and hands out the text of the program
/// that comes out.
///
/// With a seed in the configuration the result is a function of code and
/// configuration; without one it is that of a seeded run with some seed.
pub fn mock_obfuscate(code: &str, config: &ObfuscationConfig) -> (result: Result<
    String,
    ObfuscationError,
>)
    ensures
        config.seed matches Some(seed) ==> is_host_result_of(result, code@, *config, seed),
        config.seed is None ==> exists|seed: u64| is_host_result_of(result, code@, *config, seed),
{
    let seed = choose_seed(config);
    mock_obfuscate_with_seed(code, config, seed)
}

/// What the host hands out is never over budget: with a budget set, a text
/// that is handed out is at most the budget times the size of the code, in
/// hundredths, and a request for blank code fails as empty input whatever the
/// configuration holds.
pub proof fn lemma_host_result_within_budget(
    result: Result<String, ObfuscationError>,
    code: Seq<char>,
    config: ObfuscationConfig,
    seed: u64,
)
    requires
        is_host_result_of(result, code, config, seed),
    ensures
        is_blank(code) ==> (result matches Err(error) && error@ == pipeline_error_view(
            PipelineError::EmptyInput,
        )),
        result is Ok ==> !is_blank(code) && config.is_valid(),
        result is Ok && config.max_size_increase is Some ==> result->Ok_0@.len() * 100
            <= code.len() * config.max_size_increase->0,
{
    if !is_blank(code) && config.is_valid() {
        match config.max_size_increase {
            Some(limit) => {
                lemma_budget_enforced(code, config, seed, limit);
            },
            None => {},
        }
    }
}

/// A request whose passes all found nothing to transform hands the code back
/// as it came, and a second request on that output, under the same
/// configuration and any seed, hands it back unchanged again.
pub proof fn lemma_unchanged_request_repeats(
    first: Result<String, ObfuscationError>,
    second: Result<String, ObfuscationError>,
    code: Seq<char>,
    config: ObfuscationConfig,
    seed: u64,
    other_seed: u64,
)
    requires
        is_host_result_of(first, code, config, seed),
        first is Ok,
        first->Ok_0@ == code,
        is_host_result_of(second, first->Ok_0@, config, other_seed),
    ensures
        second is Ok,
        second->Ok_0@ == code,
{
    lemma_unchanged_run_repeats(code, config, seed, other_seed);
}

/// The configuration of a request: the one supplied, else the default.
pub open spec fn effective_config(config: Option<ObfuscationConfig>) -> ObfuscationConfig {
    match config {
        Some(config) => config,
        None => default_config(),
    }
}

/// Serves an obfuscation request: settles the configuration and runs the
/// pipeline, which looks at the code first and at the configuration second.
pub fn obfuscate_code(code: &str, config: Option<ObfuscationConfig>) -> (result: Result<
    String,
    ObfuscationError,
>)
    ensures
        effective_config(config).seed matches Some(seed) ==> is_host_result_of(
            result,
            code@,
            effective_config(config),
            seed,
        ),
        effective_config(config).seed is None ==> exists|seed: u64|
            is_host_result_of(result, code@, effective_config(config), seed),
{
    let config = match config {
        Some(config) => config,
        None => ObfuscationConfig::default(),
    };
    mock_obfuscate(code, &config)
}

/// The configuration that a host offers before the user has chosen one.
pub fn get_default_config() -> (config: ObfuscationConfig)
    ensures
        config == default_config(),
{
    ObfuscationConfig::default()
}

/// What the host found at a path.
#[derive(Debug, Clone, Copy, PartialEq, Eq, Structural)]
pub enum PathState {
    /// Nothing is there.
    Missing,
    /// A file is there.
    File,
    /// A directory is there.
    Directory,
}

/// The answer to a request to save to a path in the given state.
pub open spec fn save_target_answer(state: PathState) -> Option<ErrorView> {
    if state == PathState::Directory {
        Some(
            ErrorView {
                kind: ErrorKind::IoError,
                message: "Cannot save: path is a directory"@,
                details: None,
            },
        )
    } else {
        None
    }
}

/// Decides whether a file may be saved to a path in the given state: an
/// existing directory is refused, anything else may be written.
pub fn check_save_target(state: PathState) -> (result: Result<(), ObfuscationError>)
    ensures
        match result {
            Ok(_) => save_target_answer(state) is None,
            Err(error) => save_target_answer(state) == Some(error@),
        },
{
    match state {
        PathState::Directory => Err(
            ObfuscationError::new(ErrorKind::IoError, "Cannot save: path is a directory"),
        ),
        _ => Ok(()),
    }
}

/// The answer to a request to load from a path in the given state.
pub open spec fn load_source_answer(state: PathState, path: Seq<char>) -> Option<ErrorView> {
    match state {
        PathState::Missing => Some(
            ErrorView {
                kind: ErrorKind::IoError,
                message: "File not found"@,
                details: Some("Path: "@ + path),
            },
        ),
        PathState::Directory => Some(
            ErrorView {
                kind: ErrorKind::IoError,
                message: "Cannot load: path is a directory"@,
                details: None,
            },
        ),
        PathState::File => None,
    }
}

/// Decides whether a file may be loaded from a path in the given state: a
/// missing path and a directory are refused, each with its own message.
pub fn check_load_source(state: PathState, path: &str) -> (result: Result<(), ObfuscationError>)
    ensures
        match result {
            Ok(_) => load_source_answer(state, path@) is None,
            Err(error) => load_source_answer(state, path@) == Some(error@),
        },
{
    match state {
        PathState::Missing => Err(
            ObfuscationError::new(ErrorKind::IoError, "File not found").with_details(
                String::from_str("Path: ").concat(path),
            ),
        ),
        PathState::Directory => Err(
            ObfuscationError::new(ErrorKind::IoError, "Cannot load: path is a directory"),
        ),
        PathState::File => Ok(()),
    }
}

/// The error that stands for a failed operation of the file system.
pub fn io_failure(details: String) -> (error: ObfuscationError)
    ensures
        error@ == (ErrorView {
            kind: ErrorKind::IoError,
            message: "I/O operation failed"@,
            details: Some(details@),
        }),
{
    ObfuscationError::new(ErrorKind::IoError, "I/O operation failed").with_details(details)
}

/// The answer to a request to compile `code` into `output_path`.
pub open spec fn compile_answer(code: Seq<char>, output_path: Seq<char>) -> Result<
    Seq<char>,
    ErrorView,
> {
    if is_blank(code) {
        Err(
            ErrorView {
                kind: ErrorKind::CompilationError,
                message: "Cannot compile empty code"@,
                details: None,
            },
        )
    } else {
        Ok("Mock compilation successful: "@ + output_path)
    }
}

/// Answers a request to compile: blank code is refused, anything else is
/// acknowledged with the path that the output would go to. The compiler
/// itself is not part of this library.
pub fn compile_code(code: &str, output_path: &str) -> (result: Result<String, ObfuscationError>)
    ensures
        match result {
            Ok(message) => compile_answer(code@, output_path@) == Ok::<Seq<char>, ErrorView>(
                message@,
            ),
            Err(error) => compile_answer(code@, output_path@) == Err::<Seq<char>, ErrorView>(
                error@,
            ),
        },
{
    let text = chars_of(code);
    if is_blank_text(&text) {
        return Err(
            ObfuscationError::new(ErrorKind::CompilationError, "Cannot compile empty code"),
        );
    }
    Ok(String::from_str("Mock compilation successful: ").concat(output_path))
}

/// The error that stands for a configuration that could not be loaded. Its
/// kind is that of the cause, so that a file that cannot be read and a
/// document that cannot be parsed are told apart without reading the text.
pub fn config_load_failure(cause: &ConfigError) -> (error: ObfuscationError)
    ensures
        error@ == (ErrorView {
            kind: cause.kind(),
            message: "Failed to load configuration"@,
            details: Some(cause.rendered()),
        }),
{
    ObfuscationError::new(cause.error_kind(), "Failed to load configuration").with_details(
        cause.to_text(),
    )
}

/// The error that stands for a configuration that could not be saved. Its
/// kind is that of the cause.
pub fn config_save_failure(cause: &ConfigError) -> (error: ObfuscationError)
    ensures
        error@ == (ErrorView {
            kind: cause.kind(),
            message: "Failed to save configuration"@,
            details: Some(cause.rendered()),
        }),
{
    ObfuscationError::new(cause.error_kind(), "Failed to save configuration").with_details(
        cause.to_text(),
    )
}

/// Decides whether a configuration may be saved: only a valid one may.
pub fn check_config_for_save(config: &ObfuscationConfig) -> (result: Result<(), ObfuscationError>)
    ensures
        match result {
            Ok(_) => config.is_valid(),
            Err(error) => config.validation() matches Err(reason) && error@ == pipeline_error_view(
                PipelineError::InvalidConfig(reason),
            ),
        },
{
    match config.validate() {
        Ok(_) => Ok(()),
        Err(reason) => Err(invalid_configuration(reason)),
    }
}

/// The answer to a request to write a configuration to a path in the given
/// state.
pub open spec fn config_target_answer(state: PathState) -> Option<Seq<char>> {
    if state == PathState::Directory {
        Some("Failed to write config file: path is a directory"@)
    } else {
        None
    }
}

/// Decides whether a configuration may be written to a path in the given
/// state: an existing directory is refused as an I/O error.
pub fn check_config_target(state: PathState) -> (result: Result<(), ConfigError>)
    ensures
        match result {
            Ok(_) => config_target_answer(state) is None,
            Err(error) => error is IoError && config_target_answer(state) == Some(error.message()),
        },
{
    match state {
        PathState::Directory => Err(
            ConfigError::IoError(
                String::from_str("Failed to write config file: path is a directory"),
            ),
        ),
        _ => Ok(()),
    }
}

/// The error that stands for a configuration file that could not be read.
pub fn config_read_failure(cause: &str) -> (error: ConfigError)
    ensures
        error is IoError,
        error.message() == "Failed to read config file: "@ + cause@,
{
    ConfigError::IoError(String::from_str("Failed to read config file: ").concat(cause))
}

/// The error that stands for a configuration file that could not be written.
pub fn config_write_failure(cause: &str) -> (error: ConfigError)
    ensures
        error is IoError,
        error.message() == "Failed to write config file: "@ + cause@,
{
    ConfigError::IoError(String::from_str("Failed to write config file: ").concat(cause))
}

} // verus!
