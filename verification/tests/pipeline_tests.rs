use obfuscator::config::{
    ObfuscationConfig, ObfuscationIntensity, TechniqueConfig, ValidationError,
};
use obfuscator::injection::inject_bogus_code;
use obfuscator::passes::{apply_pass, describe_pass};
use obfuscator::pipeline::{
    measure_growth, obfuscate, obfuscate_with_seed, PipelineError,
};
use obfuscator::program::Program;
use obfuscator::rng::Rng;
use obfuscator::substitution::{find_word_end, substitute_identifiers};
use obfuscator::technique::{plan_passes, Technique};
use obfuscator::text::{chars_of, is_blank_text, same_text, string_of};

const PRELUDE: &str =
    "volatile int _obf_dummy = 0;\n#define _OBF_NOP() do { _obf_dummy++; } while(0)\n\n";

fn text_of(program: &Program) -> String {
    string_of(&program.text)
}

fn none_enabled() -> TechniqueConfig {
    TechniqueConfig {
        control_flow_flattening: false,
        string_encryption: false,
        bogus_code_injection: false,
        instruction_substitution: false,
        function_manipulation: false,
        opaque_predicates: false,
    }
}

fn custom(techniques: TechniqueConfig) -> ObfuscationConfig {
    ObfuscationConfig {
        intensity: ObfuscationIntensity::Custom,
        techniques,
        preserve_debug_info: false,
        generate_report: true,
        seed: Some(7),
        max_size_increase: None,
    }
}

#[test]
fn presets_always_validate_after_resolution() {
    for intensity in [
        ObfuscationIntensity::Low,
        ObfuscationIntensity::Medium,
        ObfuscationIntensity::High,
    ] {
        let mut config = ObfuscationConfig::new();
        config.techniques = none_enabled();
        config.intensity = intensity;
        config.apply_intensity();
        assert_eq!(config.validate(), Ok(()));
    }
}

#[test]
fn resolution_gives_the_documented_sets() {
    let mut config = ObfuscationConfig::new();
    config.intensity = ObfuscationIntensity::Low;
    config.apply_intensity();
    assert_eq!(config.techniques, TechniqueConfig::minimal());
    let mut only_strings = none_enabled();
    only_strings.string_encryption = true;
    assert_eq!(config.techniques, only_strings);

    config.intensity = ObfuscationIntensity::Medium;
    config.apply_intensity();
    assert_eq!(config.techniques, TechniqueConfig::default());

    config.intensity = ObfuscationIntensity::High;
    config.apply_intensity();
    assert_eq!(config.techniques, TechniqueConfig::all_enabled());
    let twice = {
        let mut again = config;
        again.apply_intensity();
        again
    };
    assert_eq!(twice, config);

    config.intensity = ObfuscationIntensity::Custom;
    config.techniques = none_enabled();
    config.apply_intensity();
    assert_eq!(config.techniques, none_enabled());
}

#[test]
fn custom_fails_exactly_without_techniques() {
    let mut config = custom(none_enabled());
    assert_eq!(config.validate(), Err(ValidationError::NoTechniqueEnabled));
    config.techniques.function_manipulation = true;
    assert_eq!(config.validate(), Ok(()));
    config.techniques = none_enabled();
    config.techniques.opaque_predicates = true;
    assert_eq!(config.validate(), Ok(()));
    config.techniques = none_enabled();
    config.intensity = ObfuscationIntensity::Medium;
    assert_eq!(config.validate(), Ok(()));
}

#[test]
fn budget_fails_exactly_below_hundred() {
    let mut config = ObfuscationConfig::new();
    config.max_size_increase = Some(99);
    assert_eq!(config.validate(), Err(ValidationError::ImpossibleBudget));
    config.max_size_increase = Some(0);
    assert_eq!(config.validate(), Err(ValidationError::ImpossibleBudget));
    config.max_size_increase = Some(100);
    assert_eq!(config.validate(), Ok(()));
    config.max_size_increase = Some(u32::MAX);
    assert_eq!(config.validate(), Ok(()));
    config.max_size_increase = None;
    assert_eq!(config.validate(), Ok(()));
}

#[test]
fn plan_follows_canonical_order() {
    assert_eq!(
        plan_passes(&TechniqueConfig::all_enabled()),
        vec![
            Technique::StringEncryption,
            Technique::ControlFlowFlattening,
            Technique::OpaquePredicates,
            Technique::BogusCodeInjection,
            Technique::InstructionSubstitution,
            Technique::FunctionManipulation,
        ]
    );
    assert_eq!(
        plan_passes(&TechniqueConfig::default()),
        vec![
            Technique::StringEncryption,
            Technique::ControlFlowFlattening,
            Technique::OpaquePredicates,
            Technique::BogusCodeInjection,
            Technique::InstructionSubstitution,
        ]
    );
    assert_eq!(plan_passes(&TechniqueConfig::minimal()), vec![Technique::StringEncryption]);
    assert_eq!(plan_passes(&none_enabled()), Vec::<Technique>::new());
    let mut two = none_enabled();
    two.function_manipulation = true;
    two.control_flow_flattening = true;
    assert_eq!(
        plan_passes(&two),
        vec![Technique::ControlFlowFlattening, Technique::FunctionManipulation]
    );
}

#[test]
fn scenario_default_config_on_small_program() {
    let source = "int main() { return 0; }";
    let mut config = ObfuscationConfig::default();
    config.seed = Some(1);
    let (program, report) = obfuscate(source, &config).expect("the run succeeds");
    let text = text_of(&program);
    assert!(!text.is_empty());
    assert_eq!(text, "int _0x4d61696e() { return 0; }");
    assert!(!text.contains("main"));
    assert!(program.size() * 100 <= source.chars().count() * 150);
    assert!(program.debug_symbols.is_empty());
    let report = report.expect("a report was asked for");
    assert_eq!(report.size_percent, 130);
    assert_eq!(
        report.descriptions,
        vec![
            "String encryption: nothing to transform".to_string(),
            "Control flow flattening: nothing to transform".to_string(),
            "Opaque predicates: nothing to transform".to_string(),
            "Bogus code injection: nothing to transform".to_string(),
            "Instruction substitution: applied".to_string(),
        ]
    );
}

#[test]
fn scenario_default_config_without_seed() {
    let source = "int main() { return 0; }";
    let (program, _) = obfuscate(source, &ObfuscationConfig::default()).expect("the run succeeds");
    assert_eq!(text_of(&program), "int _0x4d61696e() { return 0; }");
}

#[test]
fn scenario_blank_input_is_rejected() {
    for source in ["", " ", "\n\t  \r\n", "\u{00A0}\u{2003}\u{3000}"] {
        for config in [
            ObfuscationConfig::default(),
            custom(none_enabled()),
            custom(TechniqueConfig::all_enabled()),
        ] {
            assert_eq!(obfuscate(source, &config).err(), Some(PipelineError::EmptyInput));
        }
    }
}

#[test]
fn scenario_impossible_budget_stops_the_run() {
    let mut config = ObfuscationConfig::default();
    config.max_size_increase = Some(50);
    assert_eq!(config.validate(), Err(ValidationError::ImpossibleBudget));
    assert_eq!(
        obfuscate("int main() { return 0; }", &config).err(),
        Some(PipelineError::InvalidConfig(ValidationError::ImpossibleBudget))
    );
}

#[test]
fn scenario_custom_without_techniques() {
    let config = custom(none_enabled());
    assert_eq!(config.validate(), Err(ValidationError::NoTechniqueEnabled));
    assert_eq!(
        obfuscate("int main() { return 0; }", &config).err(),
        Some(PipelineError::InvalidConfig(ValidationError::NoTechniqueEnabled))
    );
}

#[test]
fn budget_of_hundred_forbids_growth() {
    let mut config = ObfuscationConfig::default();
    config.max_size_increase = Some(100);
    assert_eq!(
        obfuscate("int main() { return 0; }", &config).err(),
        Some(PipelineError::BudgetExceeded { measured: 130, limit: 100 })
    );
    let (program, _) = obfuscate("int f() { return 0; }", &config).expect("nothing grows");
    assert_eq!(text_of(&program), "int f() { return 0; }");
}

#[test]
fn injection_is_measured_against_the_budget() {
    let source = "int a = 1;\nint b = 2;\nreturn a + b;\n";
    let mut config = ObfuscationConfig::default();
    config.seed = Some(42);
    assert_eq!(
        obfuscate(source, &config).err(),
        Some(PipelineError::BudgetExceeded { measured: 453, limit: 150 })
    );
    config.max_size_increase = Some(453);
    assert!(obfuscate(source, &config).is_ok());
    config.max_size_increase = Some(452);
    assert_eq!(
        obfuscate(source, &config).err(),
        Some(PipelineError::BudgetExceeded { measured: 453, limit: 452 })
    );
}

#[test]
fn growth_is_rounded_up() {
    assert_eq!(measure_growth(24, 30), 125);
    assert_eq!(measure_growth(24, 31), 130);
    assert_eq!(measure_growth(24, 24), 100);
    assert_eq!(measure_growth(3, 5), 167);
    assert_eq!(measure_growth(3, 1), 34);
    assert_eq!(measure_growth(1, 0), 0);
    assert_eq!(measure_growth(36, 163), 453);
}

#[test]
fn seeded_runs_are_identical() {
    let source = "int a = 1;\nint b = 2;\nreturn a + b;\n";
    let mut config = custom(TechniqueConfig::all_enabled());
    config.seed = Some(7);
    let (first, first_report) = obfuscate(source, &config).expect("no budget is set");
    let (second, second_report) = obfuscate(source, &config).expect("no budget is set");
    assert_eq!(first, second);
    assert_eq!(
        first_report.expect("asked for").descriptions,
        second_report.expect("asked for").descriptions
    );
    assert_eq!(
        text_of(&first),
        format!(
            "{}int a = 1; _obf_dummy++;\nint b = 2; _OBF_NOP(); _OBF_NOP();\nreturn a + b; _OBF_NOP();\n",
            PRELUDE
        )
    );
    let (direct, _) = obfuscate_with_seed(source, &config, 7).expect("no budget is set");
    assert_eq!(direct, first);
    let (other, _) = obfuscate_with_seed(source, &config, 42).expect("no budget is set");
    assert_eq!(
        text_of(&other),
        format!(
            "{}int a = 1; _OBF_NOP();\nint b = 2; _OBF_NOP(); _OBF_NOP();\nreturn a + b; _OBF_NOP();\n",
            PRELUDE
        )
    );
}

#[test]
fn unseeded_runs_differ_only_in_choices() {
    let source = "a;\nb;\nc;\nd;\n";
    let mut config = custom(TechniqueConfig::all_enabled());
    config.seed = None;
    let (program, _) = obfuscate(source, &config).expect("no budget is set");
    let text = text_of(&program);
    assert!(text.starts_with(PRELUDE));
    let body = &text[PRELUDE.len()..];
    let stripped = body
        .replace(" _OBF_NOP(); _OBF_NOP();", "")
        .replace(" _OBF_NOP();", "")
        .replace(" _obf_dummy++;", "");
    assert_eq!(stripped, source);
}

#[test]
fn generator_follows_its_recurrence() {
    let mut rng = Rng::from_seed(0);
    assert_eq!(rng.next_u64(), 1442695040888963407u64 >> 32);
    assert_eq!(rng.state, 1442695040888963407);
    assert_eq!(rng.next_u64(), 1876011003808476466u64 >> 32);
    let mut other = Rng::from_seed(42);
    assert_eq!(other.next_below(3), 0);
    assert_eq!(other.state, 10481999410520546993);
    assert_eq!(other.next_below(3), 2);
    assert_eq!(other.next_below(3), 0);
}

#[test]
fn injection_draws_once_per_point() {
    let text = chars_of("int a = 1;\nint b = 2;\nreturn a + b;\n");
    let mut rng = Rng::from_seed(0);
    let out = inject_bogus_code(&text, &mut rng);
    assert_eq!(
        string_of(&out),
        format!(
            "{}int a = 1; _obf_dummy++;\nint b = 2; _obf_dummy++;\nreturn a + b; _OBF_NOP(); _OBF_NOP();\n",
            PRELUDE
        )
    );
    assert_eq!(rng.state, 11166244414315200793);

    let plain = chars_of("for (;;) { x; }");
    let mut idle = Rng::from_seed(5);
    assert_eq!(string_of(&inject_bogus_code(&plain, &mut idle)), "for (;;) { x; }");
    assert_eq!(idle.state, 5);

    let inline = chars_of("a; b");
    assert_eq!(string_of(&inject_bogus_code(&inline, &mut idle)), "a; b");
    assert_eq!(idle.state, 5);

    let last = chars_of("x;");
    let mut once = Rng::from_seed(42);
    assert_eq!(
        string_of(&inject_bogus_code(&last, &mut once)),
        format!("{}x; _OBF_NOP();", PRELUDE)
    );
    assert_eq!(once.state, 10481999410520546993);

    let both = chars_of("a;\nb;");
    let mut twice = Rng::from_seed(42);
    assert_eq!(
        string_of(&inject_bogus_code(&both, &mut twice)),
        format!("{}a; _OBF_NOP();\nb; _OBF_NOP(); _OBF_NOP();", PRELUDE)
    );
    assert_eq!(twice.state, 4159066171780167020);
}

#[test]
fn substitution_replaces_whole_words_only() {
    let (text, names) = substitute_identifiers(&chars_of(
        "int main() { std::cout << mainframe << remain << main_ << _main; return main; }",
    ));
    assert_eq!(
        string_of(&text),
        "int _0x4d61696e() { std::_0x636f7574 << mainframe << remain << main_ << _main; return _0x4d61696e; }"
    );
    let names: Vec<String> = names.iter().map(string_of).collect();
    assert_eq!(names, vec!["main".to_string(), "cout".to_string(), "main".to_string()]);

    let (same, none) = substitute_identifiers(&chars_of("x = 1 + y2;"));
    assert_eq!(string_of(&same), "x = 1 + y2;");
    assert!(none.is_empty());

    let (edge, _) = substitute_identifiers(&chars_of("main"));
    assert_eq!(string_of(&edge), "_0x4d61696e");
    let (empty, _) = substitute_identifiers(&chars_of(""));
    assert!(empty.is_empty());
    let (unicode, names) = substitute_identifiers(&chars_of("émain main\u{00e9} ma\u{00ef}n"));
    assert_eq!(string_of(&unicode), "émain main\u{00e9} ma\u{00ef}n");
    assert!(names.is_empty());
    let (spaced, _) = substitute_identifiers(&chars_of("main\u{00A0}main\u{3000}cout"));
    assert_eq!(string_of(&spaced), "_0x4d61696e\u{00A0}_0x4d61696e\u{3000}_0x636f7574");
}

#[test]
fn word_end_is_the_first_non_word_character() {
    let text = chars_of("ab_9+c");
    assert_eq!(find_word_end(&text, 0), 4);
    assert_eq!(find_word_end(&text, 2), 4);
    assert_eq!(find_word_end(&text, 4), 4);
    assert_eq!(find_word_end(&text, 5), 6);
    assert_eq!(find_word_end(&text, 6), 6);
    let accented = chars_of("né_1 x");
    assert_eq!(find_word_end(&accented, 0), 4);
    let spaced = chars_of("a\u{2003}b");
    assert_eq!(find_word_end(&spaced, 0), 1);
}

#[test]
fn debug_symbols_are_kept_on_request() {
    let mut config = custom(TechniqueConfig::all_enabled());
    config.preserve_debug_info = true;
    config.generate_report = false;
    let (program, report) =
        obfuscate("int main() { cout; main; }", &config).expect("no budget is set");
    assert!(report.is_none());
    let names: Vec<String> = program.debug_symbols.iter().map(string_of).collect();
    assert_eq!(names, vec!["main".to_string(), "cout".to_string(), "main".to_string()]);

    config.preserve_debug_info = false;
    let (stripped, _) = obfuscate("int main() { cout; main; }", &config).expect("no budget");
    assert!(stripped.debug_symbols.is_empty());
    assert_eq!(stripped.text, program.text);
}

#[test]
fn no_op_pass_stays_a_no_op() {
    for technique in plan_passes(&TechniqueConfig::all_enabled()) {
        let mut rng = Rng::from_seed(3);
        let first = apply_pass(technique, Program::from_text(chars_of("{ x = y; }")), &mut rng);
        assert!(first.no_op);
        assert!(first.program.debug_symbols.is_empty());
        assert_eq!(string_of(&first.program.text), "{ x = y; }");
        let mut later = Rng::from_seed(99);
        let second = apply_pass(technique, first.program, &mut later);
        assert!(second.no_op);
        assert!(second.program.debug_symbols.is_empty());
        assert_eq!(string_of(&second.program.text), "{ x = y; }");
        assert_eq!(second.description, describe_pass(technique, true));
    }
}

#[test]
fn passes_report_what_they_did() {
    let mut rng = Rng::from_seed(3);
    let renamed = apply_pass(
        Technique::InstructionSubstitution,
        Program::from_text(chars_of("main()")),
        &mut rng,
    );
    assert!(!renamed.no_op);
    assert_eq!(renamed.description, "Instruction substitution: applied");
    assert_eq!(rng.state, 3);
    let injected = apply_pass(
        Technique::BogusCodeInjection,
        Program::from_text(chars_of("x;\n")),
        &mut rng,
    );
    assert!(!injected.no_op);
    assert_eq!(injected.description, "Bogus code injection: applied");
    assert!(rng.state != 3);
    assert_eq!(describe_pass(Technique::OpaquePredicates, true), "Opaque predicates: nothing to transform");
}

#[test]
fn text_helpers_agree_with_strings() {
    assert_eq!(string_of(&chars_of("héllo")), "héllo");
    assert_eq!(chars_of("ab"), vec!['a', 'b']);
    assert_eq!(string_of(&vec!['x', 'y', 'z']), "xyz");
    assert!(is_blank_text(&chars_of(" \t\n")));
    assert!(is_blank_text(&chars_of("")));
    assert!(!is_blank_text(&chars_of("  x ")));
    assert!(!is_blank_text(&chars_of("\u{200B}")));
    assert!(same_text(&chars_of("abc"), &chars_of("abc")));
    assert!(!same_text(&chars_of("abc"), &chars_of("abd")));
    assert!(!same_text(&chars_of("abc"), &chars_of("ab")));
}
