use obfuscator::config::{
    ObfuscationConfig, ObfuscationIntensity, TechniqueConfig, ValidationError,
};

#[test]
fn test_default_config() {
    let config = ObfuscationConfig::default();
    assert_eq!(config.intensity, ObfuscationIntensity::Medium);
    assert!(config.generate_report);
}

#[test]
fn test_intensity_application() {
    let mut config = ObfuscationConfig::new();

    config.intensity = ObfuscationIntensity::Low;
    config.apply_intensity();
    assert!(!config.techniques.control_flow_flattening);

    config.intensity = ObfuscationIntensity::High;
    config.apply_intensity();
    assert!(config.techniques.function_manipulation);
}

#[test]
fn test_validation() {
    let mut config = ObfuscationConfig::new();
    assert!(config.validate().is_ok());

    config.max_size_increase = Some(50);
    assert!(config.validate().is_err());
}

#[test]
fn default_config_has_the_documented_values() {
    let config = ObfuscationConfig::default();
    assert_eq!(config.techniques, TechniqueConfig::default());
    assert!(config.techniques.control_flow_flattening);
    assert!(config.techniques.string_encryption);
    assert!(config.techniques.bogus_code_injection);
    assert!(config.techniques.instruction_substitution);
    assert!(!config.techniques.function_manipulation);
    assert!(config.techniques.opaque_predicates);
    assert!(!config.preserve_debug_info);
    assert_eq!(config.seed, None);
    assert_eq!(config.max_size_increase, Some(150));
    assert_eq!(ObfuscationConfig::new(), config);
}

#[test]
fn impossible_budget_is_reported_first() {
    let mut config = ObfuscationConfig::new();
    config.max_size_increase = Some(50);
    assert_eq!(config.validate(), Err(ValidationError::ImpossibleBudget));
    config.intensity = ObfuscationIntensity::Custom;
    config.techniques = none_enabled();
    assert_eq!(config.validate(), Err(ValidationError::ImpossibleBudget));
}

fn none_enabled() -> TechniqueConfig {
    TechniqueConfig {
        control_flow_flattening: false,
        string_encryption: false,
        bogus_code_injection: false,
        instruction_substitution: false,
        function_manipulation: false,
        opaque_predicates: false,
    }
}
