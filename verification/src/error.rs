//! Errors as the host sees them: a kind to branch on, a message to show and
//! optional details.

use crate::config::ValidationError;
use crate::pipeline::PipelineError;
use crate::text::string_of;
use vstd::prelude::*;
use vstd::string::StringExecFns;

verus! {

/// Machine-checkable class of an error.
#[derive(Debug, Clone, Copy, PartialEq, Eq, Structural)]
pub enum ErrorKind {
    /// The file system refused an operation.
    IoError,
    /// A document is not a valid configuration.
    ParseError,
    /// The downstream compiler refused the code.
    CompilationError,
    /// The pipeline produced no program.
    ObfuscationError,
    /// The configuration is inconsistent or could not be stored or read.
    ConfigurationError,
}

/// An error of an obfuscation request.
#[derive(Debug)]
pub struct ObfuscationError {
    /// Class of the error.
    pub kind: ErrorKind,
    /// What went wrong, in a sentence.
    pub message: String,
    /// Particulars, where there are any.
    pub details: Option<String>,
}

/// Mathematical model of an [`ObfuscationError`].
pub struct ErrorView {
    /// Class of the error.
    pub kind: ErrorKind,
    /// The message.
    pub message: Seq<char>,
    /// The details.
    pub details: Option<Seq<char>>,
}

impl View for ObfuscationError {
    type V = ErrorView;

    open spec fn view(&self) -> ErrorView {
        ErrorView {
            kind: self.kind,
            message: self.message@,
            details: match self.details {
                Some(details) => Some(details@),
                None => None,
            },
        }
    }
}

impl ErrorView {
    /// The text that an error is shown as: the message, then a colon and the
    /// details if there are any.
    pub open spec fn rendered(self) -> Seq<char> {
        match self.details {
            Some(details) => self.message + ": "@ + details,
            None => self.message,
        }
    }
}

impl ObfuscationError {
    /// An error of the given kind without details.
    pub fn new(kind: ErrorKind, message: &str) -> (error: Self)
        ensures
            error@ == (ErrorView { kind, message: message@, details: None }),
    {
        ObfuscationError { kind, message: String::from_str(message), details: None }
    }

    /// The same error with the given details in place of any earlier ones.
    pub fn with_details(self, details: String) -> (error: Self)
        ensures
            error@ == (ErrorView {
                kind: self@.kind,
                message: self@.message,
                details: Some(details@),
            }),
    {
        let mut error = self;
        error.details = Some(details);
        error
    }

    /// The error as one line of text.
    pub fn to_text(&self) -> (text: String)
        ensures
            text@ == self@.rendered(),
    {
        let mut text = self.message.clone();
        match &self.details {
            Some(details) => {
                text.append(": ");
                text.append(details.as_str());
            },
            None => {},
        }
        text
    }
}

/// Errors of configuration handling, each with its message.
#[derive(Debug)]
pub enum ConfigError {
    /// The configuration file could not be read or written.
    IoError(String),
    /// The content is not a valid configuration document.
    ParseError(String),
    /// The configuration could not be turned into a document.
    SerializeError(String),
    /// The configuration is inconsistent.
    ValidationError(String),
}

impl ConfigError {
    /// The words that introduce an error of this class.
    pub open spec fn prefix(self) -> Seq<char> {
        match self {
            ConfigError::IoError(_) => "I/O error: "@,
            ConfigError::ParseError(_) => "Parse error: "@,
            ConfigError::SerializeError(_) => "Serialization error: "@,
            ConfigError::ValidationError(_) => "Validation error: "@,
        }
    }

    /// The message that the error carries.
    pub open spec fn message(self) -> Seq<char> {
        match self {
            ConfigError::IoError(message) => message@,
            ConfigError::ParseError(message) => message@,
            ConfigError::SerializeError(message) => message@,
            ConfigError::ValidationError(message) => message@,
        }
    }

    /// The text that the error is shown as.
    pub open spec fn rendered(self) -> Seq<char> {
        self.prefix() + self.message()
    }

    /// The kind under which the host reports the error: a file that could
    /// not be read or written is an I/O error, a document that is no valid
    /// configuration a parse error, anything else an error of the
    /// configuration.
    pub open spec fn kind(self) -> ErrorKind {
        match self {
            ConfigError::IoError(_) => ErrorKind::IoError,
            ConfigError::ParseError(_) => ErrorKind::ParseError,
            ConfigError::SerializeError(_) => ErrorKind::ConfigurationError,
            ConfigError::ValidationError(_) => ErrorKind::ConfigurationError,
        }
    }

    /// Executable form of [`ConfigError::kind`].
    pub fn error_kind(&self) -> (kind: ErrorKind)
        ensures
            kind == self.kind(),
    {
        match self {
            ConfigError::IoError(_) => ErrorKind::IoError,
            ConfigError::ParseError(_) => ErrorKind::ParseError,
            ConfigError::SerializeError(_) => ErrorKind::ConfigurationError,
            ConfigError::ValidationError(_) => ErrorKind::ConfigurationError,
        }
    }

    /// The error that stands for a rejected configuration.
    pub fn from_validation(reason: ValidationError) -> (error: Self)
        ensures
            error is ValidationError,
            error.message() == validation_message(reason),
    {
        ConfigError::ValidationError(String::from_str(describe_validation(reason)))
    }

    /// The error as one line of text.
    pub fn to_text(&self) -> (text: String)
        ensures
            text@ == self.rendered(),
    {
        match self {
            ConfigError::IoError(message) => {
                String::from_str("I/O error: ").concat(message.as_str())
            },
            ConfigError::ParseError(message) => {
                String::from_str("Parse error: ").concat(message.as_str())
            },
            ConfigError::SerializeError(message) => {
                String::from_str("Serialization error: ").concat(message.as_str())
            },
            ConfigError::ValidationError(message) => {
                String::from_str("Validation error: ").concat(message.as_str())
            },
        }
    }
}

/// What a rejected configuration is told.
pub open spec fn validation_message(reason: ValidationError) -> Seq<char> {
    match reason {
        ValidationError::ImpossibleBudget => "Maximum size increase must be at least 100%"@,
        ValidationError::NoTechniqueEnabled => "At least one obfuscation technique must be enabled"@,
    }
}

/// Executable form of [`validation_message`].
pub fn describe_validation(reason: ValidationError) -> (message: &'static str)
    ensures
        message@ == validation_message(reason),
{
    match reason {
        ValidationError::ImpossibleBudget => "Maximum size increase must be at least 100%",
        ValidationError::NoTechniqueEnabled => "At least one obfuscation technique must be enabled",
    }
}

/// The text that a rejected configuration is shown as.
pub open spec fn validation_text(reason: ValidationError) -> Seq<char> {
    "Validation error: "@ + validation_message(reason)
}

/// The decimal digit for a number below ten.
pub open spec fn digit_char(digit: nat) -> char {
    if digit == 0 {
        '0'
    } else if digit == 1 {
        '1'
    } else if digit == 2 {
        '2'
    } else if digit == 3 {
        '3'
    } else if digit == 4 {
        '4'
    } else if digit == 5 {
        '5'
    } else if digit == 6 {
        '6'
    } else if digit == 7 {
        '7'
    } else if digit == 8 {
        '8'
    } else {
        '9'
    }
}

/// A number in decimal notation, without leading zeros.
pub open spec fn decimal(n: nat) -> Seq<char>
    decreases n,
{
    if n < 10 {
        seq![digit_char(n)]
    } else {
        decimal(n / 10).push(digit_char(n % 10))
    }
}

/// Appends the decimal notation of `n` to `out`.
pub fn append_decimal(out: &mut Vec<char>, n: u128)
    ensures
        final(out)@ == old(out)@ + decimal(n as nat),
    decreases n,
{
    if n >= 10 {
        append_decimal(out, n / 10);
    }
    let digit: u128 = n % 10;
    let c = if digit == 0 {
        '0'
    } else if digit == 1 {
        '1'
    } else if digit == 2 {
        '2'
    } else if digit == 3 {
        '3'
    } else if digit == 4 {
        '4'
    } else if digit == 5 {
        '5'
    } else if digit == 6 {
        '6'
    } else if digit == 7 {
        '7'
    } else if digit == 8 {
        '8'
    } else {
        '9'
    };
    out.push(c);
    assert(out@ =~= old(out)@ + decimal(n as nat));
}

/// What a run over budget is told: the measured size and the limit.
pub open spec fn budget_details(measured: nat, limit: nat) -> Seq<char> {
    "output is "@ + decimal(measured) + "% of the input, limit is "@ + decimal(limit) + "%"@
}

/// Writes the details of a run over budget.
pub fn describe_budget(measured: u128, limit: u32) -> (details: String)
    ensures
        details@ == budget_details(measured as nat, limit as nat),
{
    let mut out: Vec<char> = Vec::new();
    crate::text::append_str(&mut out, "output is ");
    append_decimal(&mut out, measured);
    crate::text::append_str(&mut out, "% of the input, limit is ");
    append_decimal(&mut out, limit as u128);
    crate::text::append_str(&mut out, "%");
    assert(out@ =~= budget_details(measured as nat, limit as nat));
    string_of(&out)
}

/// The error that the host is given for a failed run of the pipeline.
pub open spec fn pipeline_error_view(error: PipelineError) -> ErrorView {
    match error {
        PipelineError::EmptyInput => ErrorView {
            kind: ErrorKind::ObfuscationError,
            message: "Cannot obfuscate empty code"@,
            details: None,
        },
        PipelineError::InvalidConfig(reason) => ErrorView {
            kind: ErrorKind::ConfigurationError,
            message: "Invalid configuration"@,
            details: Some(validation_text(reason)),
        },
        PipelineError::BudgetExceeded { measured, limit } => ErrorView {
            kind: ErrorKind::ObfuscationError,
            message: "Size budget exceeded"@,
            details: Some(budget_details(measured as nat, limit as nat)),
        },
    }
}

/// The error that the host is given for a rejected configuration.
pub fn invalid_configuration(reason: ValidationError) -> (error: ObfuscationError)
    ensures
        error@ == pipeline_error_view(PipelineError::InvalidConfig(reason)),
{
    let details = ConfigError::from_validation(reason).to_text();
    ObfuscationError::new(ErrorKind::ConfigurationError, "Invalid configuration").with_details(
        details,
    )
}

/// Turns a failed run of the pipeline into the error that the host is given.
pub fn from_pipeline_error(error: PipelineError) -> (r: ObfuscationError)
    ensures
        r@ == pipeline_error_view(error),
{
    match error {
        PipelineError::EmptyInput => ObfuscationError::new(
            ErrorKind::ObfuscationError,
            "Cannot obfuscate empty code",
        ),
        PipelineError::InvalidConfig(reason) => invalid_configuration(reason),
        PipelineError::BudgetExceeded { measured, limit } => ObfuscationError::new(
            ErrorKind::ObfuscationError,
            "Size budget exceeded",
        ).with_details(describe_budget(measured, limit)),
    }
}

} // verus!
