//! Obfuscation settings: intensity presets, per-technique switches and the
//! rules a configuration must satisfy before a pipeline may run on it.

use vstd::prelude::*;

verus! {

/// Coarse preset that decides which techniques are switched on.
#[derive(Debug, Clone, Copy, PartialEq, Eq, Structural)]
pub enum ObfuscationIntensity {
    /// Minimal obfuscation with negligible performance impact.
    Low,
    /// Balanced obfuscation suitable for most use cases.
    Medium,
    /// Aggressive obfuscation for maximum protection.
    High,
    /// The technique switches are chosen by the caller.
    Custom,
}

impl ObfuscationIntensity {
    /// The tag that stands for the intensity in documents and messages.
    pub open spec fn label(self) -> Seq<char> {
        match self {
            ObfuscationIntensity::Low => "Low"@,
            ObfuscationIntensity::Medium => "Medium"@,
            ObfuscationIntensity::High => "High"@,
            ObfuscationIntensity::Custom => "Custom"@,
        }
    }

    /// The tag that stands for the intensity in documents and messages.
    pub fn name(self) -> (r: &'static str)
        ensures
            r@ == self.label(),
    {
        match self {
            ObfuscationIntensity::Low => "Low",
            ObfuscationIntensity::Medium => "Medium",
            ObfuscationIntensity::High => "High",
            ObfuscationIntensity::Custom => "Custom",
        }
    }
}

impl Default for ObfuscationIntensity {
    fn default() -> (r: Self)
        ensures
            r == ObfuscationIntensity::Medium,
    {
        ObfuscationIntensity::Medium
    }
}

/// One switch per technique.
#[derive(Debug, Clone, Copy, PartialEq, Eq, Structural)]
pub struct TechniqueConfig {
    /// Flatten control flow to obscure program logic.
    pub control_flow_flattening: bool,
    /// Encode the contents of string literals.
    pub string_encryption: bool,
    /// Inject code that is never needed for the result.
    pub bogus_code_injection: bool,
    /// Replace simple constructs with more complex equivalents.
    pub instruction_substitution: bool,
    /// Inline and outline functions.
    pub function_manipulation: bool,
    /// Add predicates whose outcome is fixed but not obvious.
    pub opaque_predicates: bool,
}

/// The mix that the `Medium` preset stands for: everything but function
/// manipulation.
pub open spec fn balanced_techniques() -> TechniqueConfig {
    TechniqueConfig {
        control_flow_flattening: true,
        string_encryption: true,
        bogus_code_injection: true,
        instruction_substitution: true,
        function_manipulation: false,
        opaque_predicates: true,
    }
}

/// The mix that the `High` preset stands for: all six techniques.
pub open spec fn all_techniques() -> TechniqueConfig {
    TechniqueConfig {
        control_flow_flattening: true,
        string_encryption: true,
        bogus_code_injection: true,
        instruction_substitution: true,
        function_manipulation: true,
        opaque_predicates: true,
    }
}

/// The mix that the `Low` preset stands for: string encryption alone.
pub open spec fn minimal_techniques() -> TechniqueConfig {
    TechniqueConfig {
        control_flow_flattening: false,
        string_encryption: true,
        bogus_code_injection: false,
        instruction_substitution: false,
        function_manipulation: false,
        opaque_predicates: false,
    }
}

/// The technique set that an intensity resolves to, given the set that the
/// configuration held before.
pub open spec fn resolved_techniques(
    intensity: ObfuscationIntensity,
    current: TechniqueConfig,
) -> TechniqueConfig {
    match intensity {
        ObfuscationIntensity::Low => minimal_techniques(),
        ObfuscationIntensity::Medium => balanced_techniques(),
        ObfuscationIntensity::High => all_techniques(),
        ObfuscationIntensity::Custom => current,
    }
}

impl TechniqueConfig {
    /// True when at least one of the six switches is on.
    pub open spec fn any_enabled(self) -> bool {
        self.control_flow_flattening || self.string_encryption || self.bogus_code_injection
            || self.instruction_substitution || self.function_manipulation
            || self.opaque_predicates
    }

    /// Number of switches that are on.
    pub open spec fn enabled_count(self) -> nat {
        (if self.control_flow_flattening { 1nat } else { 0nat })
            + (if self.string_encryption { 1nat } else { 0nat })
            + (if self.bogus_code_injection { 1nat } else { 0nat })
            + (if self.instruction_substitution { 1nat } else { 0nat })
            + (if self.function_manipulation { 1nat } else { 0nat })
            + (if self.opaque_predicates { 1nat } else { 0nat })
    }

    /// Returns a configuration with all techniques enabled.
    pub fn all_enabled() -> (r: Self)
        ensures
            r == all_techniques(),
    {
        TechniqueConfig {
            control_flow_flattening: true,
            string_encryption: true,
            bogus_code_injection: true,
            instruction_substitution: true,
            function_manipulation: true,
            opaque_predicates: true,
        }
    }

    /// Returns a configuration with string encryption alone.
    pub fn minimal() -> (r: Self)
        ensures
            r == minimal_techniques(),
    {
        TechniqueConfig {
            control_flow_flattening: false,
            string_encryption: true,
            bogus_code_injection: false,
            instruction_substitution: false,
            function_manipulation: false,
            opaque_predicates: false,
        }
    }

    /// Executable form of [`TechniqueConfig::any_enabled`].
    pub fn has_any_enabled(&self) -> (r: bool)
        ensures
            r == self.any_enabled(),
    {
        self.control_flow_flattening || self.string_encryption || self.bogus_code_injection
            || self.instruction_substitution || self.function_manipulation
            || self.opaque_predicates
    }
}

impl Default for TechniqueConfig {
    fn default() -> (r: Self)
        ensures
            r == balanced_techniques(),
    {
        TechniqueConfig {
            control_flow_flattening: true,
            string_encryption: true,
            bogus_code_injection: true,
            instruction_substitution: true,
            function_manipulation: false,
            opaque_predicates: true,
        }
    }
}

/// Smallest admissible value of `max_size_increase`: the output may be as
/// large as the input and no larger.
pub const MIN_SIZE_BUDGET: u32 = 100;

/// Size budget of a freshly built configuration, in percent of the input.
pub const DEFAULT_SIZE_BUDGET: u32 = 150;

/// Complete settings of one obfuscation run.
#[derive(Debug, Clone, Copy, PartialEq, Eq, Structural)]
pub struct ObfuscationConfig {
    /// Overall intensity level.
    pub intensity: ObfuscationIntensity,
    /// Individual technique switches.
    pub techniques: TechniqueConfig,
    /// Keep the symbol records that the passes collect.
    pub preserve_debug_info: bool,
    /// Produce a report of what each pass did.
    pub generate_report: bool,
    /// Seed that fixes every randomized choice; `None` asks for a fresh one.
    pub seed: Option<u64>,
    /// Largest admissible output size in percent of the input size.
    pub max_size_increase: Option<u32>,
}

/// The configuration that `ObfuscationConfig::default` builds.
pub open spec fn default_config() -> ObfuscationConfig {
    ObfuscationConfig {
        intensity: ObfuscationIntensity::Medium,
        techniques: balanced_techniques(),
        preserve_debug_info: false,
        generate_report: true,
        seed: None,
        max_size_increase: Some(DEFAULT_SIZE_BUDGET),
    }
}

/// Why a configuration was rejected.
#[derive(Debug, Clone, Copy, PartialEq, Eq, Structural)]
pub enum ValidationError {
    /// `max_size_increase` is below 100 percent: no output could meet it.
    ImpossibleBudget,
    /// The intensity is `Custom` and every technique is switched off.
    NoTechniqueEnabled,
}

impl ObfuscationConfig {
    /// True when the size budget, if any, can be met at all.
    pub open spec fn budget_possible(self) -> bool {
        match self.max_size_increase {
            Some(v) => v >= MIN_SIZE_BUDGET,
            None => true,
        }
    }

    /// What `validate` answers: the budget rule is checked first, the
    /// technique rule second, and the first failure is reported.
    pub open spec fn validation(self) -> Result<(), ValidationError> {
        if !self.budget_possible() {
            Err(ValidationError::ImpossibleBudget)
        } else if self.intensity == ObfuscationIntensity::Custom && !self.techniques.any_enabled() {
            Err(ValidationError::NoTechniqueEnabled)
        } else {
            Ok(())
        }
    }

    /// True when `validate` accepts the configuration.
    pub open spec fn is_valid(self) -> bool {
        self.validation() is Ok
    }

    /// The configuration after its intensity has been resolved.
    pub open spec fn resolved(self) -> ObfuscationConfig {
        ObfuscationConfig {
            techniques: resolved_techniques(self.intensity, self.techniques),
            ..self
        }
    }

    /// Creates a new configuration with default settings.
    pub fn new() -> (r: Self)
        ensures
            r == default_config(),
    {
        ObfuscationConfig {
            intensity: ObfuscationIntensity::Medium,
            techniques: TechniqueConfig::default(),
            preserve_debug_info: false,
            generate_report: true,
            seed: None,
            max_size_increase: Some(DEFAULT_SIZE_BUDGET),
        }
    }

    /// Overwrites the technique switches with those of the intensity preset;
    /// a `Custom` intensity leaves them as they are.
    pub fn apply_intensity(&mut self)
        ensures
            *final(self) == old(self).resolved(),
    {
        match self.intensity {
            ObfuscationIntensity::Low => {
                self.techniques = TechniqueConfig::minimal();
            },
            ObfuscationIntensity::Medium => {
                self.techniques = TechniqueConfig::default();
            },
            ObfuscationIntensity::High => {
                self.techniques = TechniqueConfig::all_enabled();
            },
            ObfuscationIntensity::Custom => {},
        }
    }

    /// Checks the configuration for consistency without changing it.
    pub fn validate(&self) -> (r: Result<(), ValidationError>)
        ensures
            r == self.validation(),
    {
        if let Some(max_increase) = self.max_size_increase {
            if max_increase < MIN_SIZE_BUDGET {
                return Err(ValidationError::ImpossibleBudget);
            }
        }
        if self.intensity != ObfuscationIntensity::Custom {
            return Ok(());
        }
        if !self.techniques.has_any_enabled() {
            return Err(ValidationError::NoTechniqueEnabled);
        }
        Ok(())
    }
}

impl Default for ObfuscationConfig {
    fn default() -> (r: Self)
        ensures
            r == default_config(),
    {
        ObfuscationConfig::new()
    }
}

/// Resolving a `Low`, `Medium` or `High` intensity always yields a technique
/// set with something switched on, whatever the switches were before, so a
/// resolved configuration with a possible budget passes validation.
pub proof fn lemma_resolved_preset_is_valid(config: ObfuscationConfig)
    requires
        config.intensity != ObfuscationIntensity::Custom,
    ensures
        config.resolved().techniques.any_enabled(),
        config.resolved().validation() is Err ==> config.resolved().validation() == Err::<
            (),
            ValidationError,
        >(ValidationError::ImpossibleBudget),
        config.budget_possible() ==> config.resolved().is_valid(),
{
}

/// Resolving twice gives what resolving once gives.
pub proof fn lemma_resolve_idempotent(config: ObfuscationConfig)
    ensures
        config.resolved().resolved() == config.resolved(),
{
}

/// A `Custom` configuration whose budget is possible is rejected exactly when
/// all six switches are off, and then for that reason.
pub proof fn lemma_custom_needs_a_technique(config: ObfuscationConfig)
    requires
        config.intensity == ObfuscationIntensity::Custom,
        config.budget_possible(),
    ensures
        config.validation() is Err <==> !config.techniques.control_flow_flattening
            && !config.techniques.string_encryption && !config.techniques.bogus_code_injection
            && !config.techniques.instruction_substitution
            && !config.techniques.function_manipulation && !config.techniques.opaque_predicates,
        config.validation() is Err ==> config.validation() == Err::<(), ValidationError>(
            ValidationError::NoTechniqueEnabled,
        ),
{
}

/// A configuration with a size budget whose technique rule holds is rejected
/// exactly when the budget is below 100, and a budget below 100 is rejected
/// whatever else the configuration holds.
pub proof fn lemma_budget_below_hundred_rejected(config: ObfuscationConfig, v: u32)
    requires
        config.max_size_increase == Some(v),
    ensures
        v < 100 ==> config.validation() == Err::<(), ValidationError>(
            ValidationError::ImpossibleBudget,
        ),
        config.intensity != ObfuscationIntensity::Custom || config.techniques.any_enabled() ==> (
        config.validation() is Err <==> v < 100),
{
}

} // verus!
