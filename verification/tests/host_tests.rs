use obfuscator::config::{
    ObfuscationConfig, ObfuscationIntensity, TechniqueConfig, ValidationError,
};
use obfuscator::error::{
    describe_budget, describe_validation, from_pipeline_error, invalid_configuration, ConfigError,
    ErrorKind, ObfuscationError,
};
use obfuscator::host::{
    check_config_for_save, check_config_target, check_load_source, check_save_target,
    compile_code, config_load_failure, config_read_failure, config_save_failure,
    config_write_failure, get_default_config, io_failure,
    mock_obfuscate, mock_obfuscate_with_seed, obfuscate_code, PathState,
};
use obfuscator::pipeline::PipelineError;

fn none_enabled() -> TechniqueConfig {
    TechniqueConfig {
        control_flow_flattening: false,
        string_encryption: false,
        bogus_code_injection: false,
        instruction_substitution: false,
        function_manipulation: false,
        opaque_predicates: false,
    }
}

fn unlimited() -> ObfuscationConfig {
    let mut config = ObfuscationConfig::default();
    config.max_size_increase = None;
    config.seed = Some(42);
    config
}

#[test]
fn error_is_built_from_kind_and_message() {
    let error = ObfuscationError::new(ErrorKind::IoError, "File not found");
    assert_eq!(error.kind, ErrorKind::IoError);
    assert_eq!(error.message, "File not found");
    assert_eq!(error.details, None);
    assert_eq!(error.to_text(), "File not found");
    let detailed = error.with_details("Path: /tmp/x".to_string());
    assert_eq!(detailed.kind, ErrorKind::IoError);
    assert_eq!(detailed.message, "File not found");
    assert_eq!(detailed.details, Some("Path: /tmp/x".to_string()));
    assert_eq!(detailed.to_text(), "File not found: Path: /tmp/x");
    let replaced = detailed.with_details("other".to_string());
    assert_eq!(replaced.to_text(), "File not found: other");
}

#[test]
fn config_errors_name_their_class() {
    assert_eq!(ConfigError::IoError("gone".to_string()).to_text(), "I/O error: gone");
    assert_eq!(ConfigError::ParseError("bad".to_string()).to_text(), "Parse error: bad");
    assert_eq!(
        ConfigError::SerializeError("odd".to_string()).to_text(),
        "Serialization error: odd"
    );
    assert_eq!(
        ConfigError::from_validation(ValidationError::ImpossibleBudget).to_text(),
        "Validation error: Maximum size increase must be at least 100%"
    );
    assert_eq!(
        ConfigError::from_validation(ValidationError::NoTechniqueEnabled).to_text(),
        "Validation error: At least one obfuscation technique must be enabled"
    );
    assert_eq!(
        describe_validation(ValidationError::ImpossibleBudget),
        "Maximum size increase must be at least 100%"
    );
}

#[test]
fn budget_details_are_written_in_decimal() {
    assert_eq!(describe_budget(453, 150), "output is 453% of the input, limit is 150%");
    assert_eq!(describe_budget(0, 100), "output is 0% of the input, limit is 100%");
    assert_eq!(
        describe_budget(u128::MAX, u32::MAX),
        "output is 340282366920938463463374607431768211455% of the input, limit is 4294967295%"
    );
    assert_eq!(describe_budget(1009, 10), "output is 1009% of the input, limit is 10%");
}

#[test]
fn pipeline_errors_become_host_errors() {
    let empty = from_pipeline_error(PipelineError::EmptyInput);
    assert_eq!(empty.kind, ErrorKind::ObfuscationError);
    assert_eq!(empty.to_text(), "Cannot obfuscate empty code");
    let invalid =
        from_pipeline_error(PipelineError::InvalidConfig(ValidationError::NoTechniqueEnabled));
    assert_eq!(invalid.kind, ErrorKind::ConfigurationError);
    assert_eq!(
        invalid.to_text(),
        "Invalid configuration: Validation error: At least one obfuscation technique must be enabled"
    );
    let budget = from_pipeline_error(PipelineError::BudgetExceeded { measured: 130, limit: 100 });
    assert_eq!(budget.kind, ErrorKind::ObfuscationError);
    assert_eq!(budget.message, "Size budget exceeded");
    assert_eq!(
        budget.details,
        Some("output is 130% of the input, limit is 100%".to_string())
    );
    let direct = invalid_configuration(ValidationError::ImpossibleBudget);
    assert_eq!(
        direct.to_text(),
        "Invalid configuration: Validation error: Maximum size increase must be at least 100%"
    );
}

#[test]
fn requests_hand_out_the_program_text() {
    let source = "int main() { return 0; }";
    let text = mock_obfuscate(source, &ObfuscationConfig::default()).expect("within budget");
    assert_eq!(text, "int _0x4d61696e() { return 0; }");
    assert!(!text.is_empty());
    assert!(!text.contains("main"));
    assert!(text.chars().count() * 100 <= source.chars().count() * 150);

    let mut low = ObfuscationConfig::new();
    low.intensity = ObfuscationIntensity::Low;
    low.apply_intensity();
    assert_eq!(mock_obfuscate("return main;", &low).expect("it runs"), "return main;");

    let injected =
        mock_obfuscate_with_seed("a;\nmain;\n", &unlimited(), 42).expect("no budget is set");
    assert_eq!(
        injected,
        "volatile int _obf_dummy = 0;\n\
         #define _OBF_NOP() do { _obf_dummy++; } while(0)\n\
         \n\
         a; _OBF_NOP();\n\
         _0x4d61696e; _OBF_NOP(); _OBF_NOP();\n"
    );
    assert_eq!(mock_obfuscate("a;\nmain;\n", &unlimited()).expect("seeded"), injected);
}

#[test]
fn handed_out_text_is_never_over_budget() {
    let mut config = ObfuscationConfig::default();
    config.intensity = ObfuscationIntensity::Custom;
    config.techniques = none_enabled();
    config.techniques.opaque_predicates = true;
    for limit in [100, 101, 150, 363] {
        config.max_size_increase = Some(limit);
        let source = "int f() { return 0; }";
        let text = obfuscate_code(source, Some(config)).expect("nothing grows");
        assert_eq!(text, source);
        assert!(text.chars().count() * 100 <= source.chars().count() * 100);
    }
    let mut tight = ObfuscationConfig::default();
    tight.max_size_increase = Some(129);
    assert!(obfuscate_code("int main() { return 0; }", Some(tight)).is_err());
    tight.max_size_increase = Some(130);
    let text = obfuscate_code("int main() { return 0; }", Some(tight)).expect("just fits");
    assert!(text.chars().count() * 100 <= 24 * 130);
}

#[test]
fn injected_declarations_are_not_rewritten() {
    let mut config = ObfuscationConfig::default();
    config.max_size_increase = None;
    let text = mock_obfuscate("int x;", &config).expect("no budget is set");
    assert!(text.contains("volatile int _obf_dummy = 0;"));
    assert!(text.contains("#define _OBF_NOP() do { _obf_dummy++; } while(0)"));
    assert!(text.contains("int x;"));
    config.seed = Some(42);
    assert_eq!(
        mock_obfuscate("int x;", &config).expect("no budget is set"),
        "volatile int _obf_dummy = 0;\n\
         #define _OBF_NOP() do { _obf_dummy++; } while(0)\n\
         \n\
         int x; _OBF_NOP();"
    );
    assert_eq!(
        mock_obfuscate("int main;", &config).expect("no budget is set"),
        "volatile int _obf_dummy = 0;\n\
         #define _OBF_NOP() do { _obf_dummy++; } while(0)\n\
         \n\
         int _0x4d61696e; _OBF_NOP();"
    );
    let over = mock_obfuscate("int x;", &ObfuscationConfig::default()).expect_err("too large");
    assert_eq!(over.kind, ErrorKind::ObfuscationError);
    assert_eq!(over.message, "Size budget exceeded");
}

#[test]
fn requests_fall_back_to_the_default_configuration() {
    let text = obfuscate_code("int main() { return 0; }", None).expect("within budget");
    assert_eq!(text, "int _0x4d61696e() { return 0; }");
    assert_eq!(get_default_config(), ObfuscationConfig::default());
    assert_eq!(
        obfuscate_code("f();", Some(unlimited())).expect("it runs"),
        mock_obfuscate("f();", &unlimited()).expect("it runs")
    );
}

#[test]
fn requests_report_their_failures() {
    let empty = obfuscate_code("  \n", None).expect_err("blank code");
    assert_eq!(empty.kind, ErrorKind::ObfuscationError);
    assert_eq!(empty.message, "Cannot obfuscate empty code");
    assert_eq!(empty.details, None);

    let mut impossible = ObfuscationConfig::default();
    impossible.max_size_increase = Some(50);
    let invalid = obfuscate_code("int x;", Some(impossible)).expect_err("invalid configuration");
    assert_eq!(invalid.kind, ErrorKind::ConfigurationError);
    assert_eq!(invalid.message, "Invalid configuration");
    assert_eq!(
        invalid.details,
        Some("Validation error: Maximum size increase must be at least 100%".to_string())
    );

    let mut tight = ObfuscationConfig::default();
    tight.max_size_increase = Some(100);
    let over = obfuscate_code("int main() { return 0; }", Some(tight)).expect_err("it grows");
    assert_eq!(over.kind, ErrorKind::ObfuscationError);
    assert_eq!(over.to_text(), "Size budget exceeded: output is 130% of the input, limit is 100%");
}

#[test]
fn blank_code_is_reported_before_the_configuration() {
    let mut impossible = ObfuscationConfig::default();
    impossible.max_size_increase = Some(50);
    let mut nothing = ObfuscationConfig::default();
    nothing.intensity = ObfuscationIntensity::Custom;
    nothing.techniques = none_enabled();
    for config in [impossible, nothing] {
        for code in ["", " \t\n", "\u{3000}"] {
            let request = obfuscate_code(code, Some(config)).expect_err("blank code");
            assert_eq!(request.kind, ErrorKind::ObfuscationError);
            assert_eq!(request.message, "Cannot obfuscate empty code");
            assert_eq!(request.details, None);
            let direct = mock_obfuscate(code, &config).expect_err("blank code");
            assert_eq!(direct.kind, ErrorKind::ObfuscationError);
            assert_eq!(direct.message, "Cannot obfuscate empty code");
        }
    }
}

#[test]
fn compile_requests_are_acknowledged() {
    assert_eq!(
        compile_code("int main() {}", "/tmp/out/a.out").expect("code is there"),
        "Mock compilation successful: /tmp/out/a.out"
    );
    let refused = compile_code(" \t\n", "/tmp/out/a.out").expect_err("blank code");
    assert_eq!(refused.kind, ErrorKind::CompilationError);
    assert_eq!(refused.message, "Cannot compile empty code");
    assert_eq!(refused.details, None);
}

#[test]
fn file_requests_are_decided_by_what_is_at_the_path() {
    assert!(check_save_target(PathState::Missing).is_ok());
    assert!(check_save_target(PathState::File).is_ok());
    let refused = check_save_target(PathState::Directory).expect_err("a directory");
    assert_eq!(refused.kind, ErrorKind::IoError);
    assert_eq!(refused.to_text(), "Cannot save: path is a directory");

    assert!(check_load_source(PathState::File, "/tmp/a").is_ok());
    let missing = check_load_source(PathState::Missing, "/tmp/a").expect_err("nothing there");
    assert_eq!(missing.kind, ErrorKind::IoError);
    assert_eq!(missing.message, "File not found");
    assert_eq!(missing.details, Some("Path: /tmp/a".to_string()));
    let directory = check_load_source(PathState::Directory, "/tmp").expect_err("a directory");
    assert_eq!(directory.to_text(), "Cannot load: path is a directory");

    let failed = io_failure("permission denied".to_string());
    assert_eq!(failed.kind, ErrorKind::IoError);
    assert_eq!(failed.to_text(), "I/O operation failed: permission denied");
}

#[test]
fn configuration_requests_report_their_failures() {
    assert!(check_config_for_save(&ObfuscationConfig::default()).is_ok());
    let mut config = ObfuscationConfig::default();
    config.intensity = ObfuscationIntensity::Custom;
    config.techniques = none_enabled();
    let refused = check_config_for_save(&config).expect_err("nothing enabled");
    assert_eq!(refused.kind, ErrorKind::ConfigurationError);
    assert_eq!(
        refused.to_text(),
        "Invalid configuration: Validation error: At least one obfuscation technique must be enabled"
    );
    let unreadable =
        config_load_failure(&ConfigError::IoError("Failed to read config file: x".into()));
    assert_eq!(unreadable.kind, ErrorKind::IoError);
    assert_eq!(
        unreadable.to_text(),
        "Failed to load configuration: I/O error: Failed to read config file: x"
    );
    let malformed = config_load_failure(&ConfigError::ParseError(
        "Invalid config format: missing field `intensity`".into(),
    ));
    assert_eq!(malformed.kind, ErrorKind::ParseError);
    assert_eq!(
        malformed.to_text(),
        "Failed to load configuration: Parse error: Invalid config format: missing field `intensity`"
    );
    let unwritable = config_save_failure(&ConfigError::IoError("denied".into()));
    assert_eq!(unwritable.kind, ErrorKind::IoError);
    assert_eq!(unwritable.to_text(), "Failed to save configuration: I/O error: denied");
    let save = config_save_failure(&ConfigError::SerializeError("y".into()));
    assert_eq!(save.kind, ErrorKind::ConfigurationError);
    assert_eq!(save.to_text(), "Failed to save configuration: Serialization error: y");
    let invalid = config_save_failure(&ConfigError::from_validation(
        ValidationError::ImpossibleBudget,
    ));
    assert_eq!(invalid.kind, ErrorKind::ConfigurationError);
    assert_eq!(ConfigError::IoError("a".into()).error_kind(), ErrorKind::IoError);
    assert_eq!(ConfigError::ParseError("a".into()).error_kind(), ErrorKind::ParseError);
}

#[test]
fn configuration_files_report_their_failures() {
    assert!(check_config_target(PathState::Missing).is_ok());
    assert!(check_config_target(PathState::File).is_ok());
    let refused = check_config_target(PathState::Directory).expect_err("a directory");
    assert_eq!(refused.to_text(), "I/O error: Failed to write config file: path is a directory");
    assert_eq!(
        config_read_failure("not found").to_text(),
        "I/O error: Failed to read config file: not found"
    );
    assert_eq!(
        config_write_failure("disk full").to_text(),
        "I/O error: Failed to write config file: disk full"
    );
}

#[test]
fn unchanged_output_stays_unchanged() {
    let mut config = unlimited();
    for seed in [None, Some(1), Some(99)] {
        config.seed = seed;
        let first = mock_obfuscate("{ x = y; f(mainframe); }", &config).expect("it runs");
        assert_eq!(first, "{ x = y; f(mainframe); }");
        config.seed = Some(12345);
        let second = mock_obfuscate(&first, &config).expect("it runs");
        assert_eq!(second, first);
    }
}
