//! The configuration as a document: how a configuration is written down as
//! JSON and how it is read back.
//!
//! A configuration document is an object with the members `intensity` (one
//! of the tags `Low`, `Medium`, `High`, `Custom`), `techniques` (an object
//! with one boolean for each of the six techniques), `preserve_debug_info`
//! and `generate_report` (booleans), `seed` (a whole number up to 2^64 - 1)
//! and `max_size_increase` (a whole number up to 2^32 - 1). The last two may
//! be `null` or absent, which both stand for "not set". Every other member
//! must be present. Members that the format does not know are ignored.

use crate::config::{ObfuscationConfig, ObfuscationIntensity, TechniqueConfig};
use crate::error::ConfigError;
use crate::json::{
    as_bool, as_text, as_u64, bool_value, error_message, is_null, is_object, json_of, member,
    new_members, no_members, null_value, number_value, parse_value, parsed_json, printed_json,
    print_value, record_value, set_member, text_value, Json,
};
use vstd::prelude::*;
use vstd::string::StringExecFns;

verus! {

/// The member of the given name, if the document is an object that has one.
pub open spec fn member_of(json: Json, name: Seq<char>) -> Option<Json> {
    match json {
        Json::Record(members) => if members.dom().contains(name) {
            Some(members[name])
        } else {
            None
        },
        _ => None,
    }
}

/// What is said of a member that is required and absent.
pub open spec fn missing_member(name: Seq<char>) -> Seq<char> {
    "missing field `"@ + name + "`"@
}

/// What is said of a member that holds what it must not hold.
pub open spec fn invalid_member(name: Seq<char>) -> Seq<char> {
    "invalid value for field `"@ + name + "`"@
}

/// The message of the error that rejects a document for the given reason.
pub open spec fn rejection(reason: Seq<char>) -> Seq<char> {
    "Invalid config format: "@ + reason
}

/// True when `error` rejects a document for the given reason.
pub open spec fn is_rejection(error: ConfigError, reason: Seq<char>) -> bool {
    error is ParseError && error.message() == rejection(reason)
}

/// The boolean that a required member holds.
pub open spec fn decoded_flag(json: Json, name: Seq<char>) -> Result<bool, Seq<char>> {
    match member_of(json, name) {
        Some(Json::Bool(b)) => Ok(b),
        Some(_) => Err(invalid_member(name)),
        None => Err(missing_member(name)),
    }
}

/// The number that an optional member holds, which must not lie above `max`.
pub open spec fn decoded_number(json: Json, name: Seq<char>, max: u64) -> Result<
    Option<u64>,
    Seq<char>,
> {
    match member_of(json, name) {
        Some(Json::Unsigned(n)) => if n <= max {
            Ok(Some(n))
        } else {
            Err(invalid_member(name))
        },
        Some(Json::Null) => Ok(None),
        Some(_) => Err(invalid_member(name)),
        None => Ok(None),
    }
}

/// The intensity that a tag stands for.
pub open spec fn intensity_of_tag(tag: Seq<char>) -> Option<ObfuscationIntensity> {
    if tag == "Low"@ {
        Some(ObfuscationIntensity::Low)
    } else if tag == "Medium"@ {
        Some(ObfuscationIntensity::Medium)
    } else if tag == "High"@ {
        Some(ObfuscationIntensity::High)
    } else if tag == "Custom"@ {
        Some(ObfuscationIntensity::Custom)
    } else {
        None
    }
}

/// The intensity that a document names.
pub open spec fn decoded_intensity(json: Json) -> Result<ObfuscationIntensity, Seq<char>> {
    match member_of(json, "intensity"@) {
        Some(Json::Text(tag)) => match intensity_of_tag(tag) {
            Some(intensity) => Ok(intensity),
            None => Err(invalid_member("intensity"@)),
        },
        Some(_) => Err(invalid_member("intensity"@)),
        None => Err(missing_member("intensity"@)),
    }
}

/// The technique set that an object of six booleans stands for. The members
/// are read in the order in which the type declares them, and the first one
/// that is absent or no boolean decides the error.
pub open spec fn decoded_switches(json: Json) -> Result<TechniqueConfig, Seq<char>> {
    match decoded_flag(json, "control_flow_flattening"@) {
        Err(reason) => Err(reason),
        Ok(control_flow_flattening) => match decoded_flag(json, "string_encryption"@) {
            Err(reason) => Err(reason),
            Ok(string_encryption) => match decoded_flag(json, "bogus_code_injection"@) {
                Err(reason) => Err(reason),
                Ok(bogus_code_injection) => match decoded_flag(
                    json,
                    "instruction_substitution"@,
                ) {
                    Err(reason) => Err(reason),
                    Ok(instruction_substitution) => match decoded_flag(
                        json,
                        "function_manipulation"@,
                    ) {
                        Err(reason) => Err(reason),
                        Ok(function_manipulation) => match decoded_flag(
                            json,
                            "opaque_predicates"@,
                        ) {
                            Err(reason) => Err(reason),
                            Ok(opaque_predicates) => Ok(
                                TechniqueConfig {
                                    control_flow_flattening,
                                    string_encryption,
                                    bogus_code_injection,
                                    instruction_substitution,
                                    function_manipulation,
                                    opaque_predicates,
                                },
                            ),
                        },
                    },
                },
            },
        },
    }
}

/// The technique set that a document names.
pub open spec fn decoded_techniques(json: Json) -> Result<TechniqueConfig, Seq<char>> {
    match member_of(json, "techniques"@) {
        Some(Json::Record(members)) => decoded_switches(Json::Record(members)),
        Some(_) => Err(invalid_member("techniques"@)),
        None => Err(missing_member("techniques"@)),
    }
}

/// The configuration that a document stands for, or the reason why it stands
/// for none. The members are read in the order intensity, techniques,
/// preserve_debug_info, generate_report, seed, max_size_increase, and the
/// first failure decides the reason.
pub open spec fn decoded_config(json: Json) -> Result<ObfuscationConfig, Seq<char>> {
    if !(json is Record) {
        Err("expected an object"@)
    } else {
        match decoded_intensity(json) {
            Err(reason) => Err(reason),
            Ok(intensity) => match decoded_techniques(json) {
                Err(reason) => Err(reason),
                Ok(techniques) => match decoded_flag(json, "preserve_debug_info"@) {
                    Err(reason) => Err(reason),
                    Ok(preserve_debug_info) => match decoded_flag(json, "generate_report"@) {
                        Err(reason) => Err(reason),
                        Ok(generate_report) => match decoded_number(json, "seed"@, u64::MAX) {
                            Err(reason) => Err(reason),
                            Ok(seed) => match decoded_number(
                                json,
                                "max_size_increase"@,
                                u32::MAX as u64,
                            ) {
                                Err(reason) => Err(reason),
                                Ok(budget) => Ok(
                                    ObfuscationConfig {
                                        intensity,
                                        techniques,
                                        preserve_debug_info,
                                        generate_report,
                                        seed,
                                        max_size_increase: match budget {
                                            Some(n) => Some(n as u32),
                                            None => None,
                                        },
                                    },
                                ),
                            },
                        },
                    },
                },
            },
        }
    }
}

/// The document that stands for a number that may be unset.
pub open spec fn encoded_number(number: Option<u64>) -> Json {
    match number {
        Some(n) => Json::Unsigned(n),
        None => Json::Null,
    }
}

/// The document that stands for a technique set.
pub open spec fn encoded_techniques(techniques: TechniqueConfig) -> Json {
    Json::Record(
        no_members().insert(
            "control_flow_flattening"@,
            Json::Bool(techniques.control_flow_flattening),
        ).insert("string_encryption"@, Json::Bool(techniques.string_encryption)).insert(
            "bogus_code_injection"@,
            Json::Bool(techniques.bogus_code_injection),
        ).insert(
            "instruction_substitution"@,
            Json::Bool(techniques.instruction_substitution),
        ).insert("function_manipulation"@, Json::Bool(techniques.function_manipulation)).insert(
            "opaque_predicates"@,
            Json::Bool(techniques.opaque_predicates),
        ),
    )
}

/// The document that stands for a configuration.
pub open spec fn encoded_config(config: ObfuscationConfig) -> Json {
    Json::Record(
        no_members().insert("intensity"@, Json::Text(config.intensity.label())).insert(
            "techniques"@,
            encoded_techniques(config.techniques),
        ).insert("preserve_debug_info"@, Json::Bool(config.preserve_debug_info)).insert(
            "generate_report"@,
            Json::Bool(config.generate_report),
        ).insert("seed"@, encoded_number(config.seed)).insert(
            "max_size_increase"@,
            encoded_number(
                match config.max_size_increase {
                    Some(n) => Some(n as u64),
                    None => None,
                },
            ),
        ),
    )
}

/// The error that rejects a document for the given reason.
fn reject(reason: String) -> (error: ConfigError)
    ensures
        is_rejection(error, reason@),
{
    ConfigError::ParseError(String::from_str("Invalid config format: ").concat(reason.as_str()))
}

/// The error for a required member that is absent.
fn reject_missing(name: &str) -> (error: ConfigError)
    ensures
        is_rejection(error, missing_member(name@)),
{
    reject(String::from_str("missing field `").concat(name).concat("`"))
}

/// The error for a member that holds what it must not hold.
fn reject_invalid(name: &str) -> (error: ConfigError)
    ensures
        is_rejection(error, invalid_member(name@)),
{
    reject(String::from_str("invalid value for field `").concat(name).concat("`"))
}

/// Reads a required boolean member.
fn read_flag(document: &serde_json::Value, name: &str) -> (result: Result<bool, ConfigError>)
    ensures
        match result {
            Ok(flag) => decoded_flag(json_of(*document), name@) == Ok::<bool, Seq<char>>(flag),
            Err(error) => decoded_flag(json_of(*document), name@) matches Err(reason)
                && is_rejection(error, reason),
        },
{
    match member(document, name) {
        Some(found) => match as_bool(found) {
            Some(flag) => Ok(flag),
            None => Err(reject_invalid(name)),
        },
        None => Err(reject_missing(name)),
    }
}

/// Reads an optional number that must not lie above `max`.
fn read_number(document: &serde_json::Value, name: &str, max: u64) -> (result: Result<
    Option<u64>,
    ConfigError,
>)
    ensures
        match result {
            Ok(number) => decoded_number(json_of(*document), name@, max) == Ok::<
                Option<u64>,
                Seq<char>,
            >(number),
            Err(error) => decoded_number(json_of(*document), name@, max) matches Err(reason)
                && is_rejection(error, reason),
        },
{
    match member(document, name) {
        Some(found) => {
            if is_null(found) {
                Ok(None)
            } else {
                match as_u64(found) {
                    Some(n) => if n <= max {
                        Ok(Some(n))
                    } else {
                        Err(reject_invalid(name))
                    },
                    None => Err(reject_invalid(name)),
                }
            }
        },
        None => Ok(None),
    }
}

/// The intensity that a tag stands for.
pub fn parse_intensity(tag: &str) -> (result: Option<ObfuscationIntensity>)
    ensures
        result == intensity_of_tag(tag@),
{
    let chars = crate::text::chars_of(tag);
    let end = chars.len();
    if crate::text::range_spells(&chars, 0, end, "Low") {
        assert(chars@.subrange(0, end as int) =~= chars@);
        Some(ObfuscationIntensity::Low)
    } else if crate::text::range_spells(&chars, 0, end, "Medium") {
        assert(chars@.subrange(0, end as int) =~= chars@);
        Some(ObfuscationIntensity::Medium)
    } else if crate::text::range_spells(&chars, 0, end, "High") {
        assert(chars@.subrange(0, end as int) =~= chars@);
        Some(ObfuscationIntensity::High)
    } else if crate::text::range_spells(&chars, 0, end, "Custom") {
        assert(chars@.subrange(0, end as int) =~= chars@);
        Some(ObfuscationIntensity::Custom)
    } else {
        assert(chars@.subrange(0, end as int) =~= chars@);
        None
    }
}

/// Reads the intensity of a document.
fn read_intensity(document: &serde_json::Value) -> (result: Result<
    ObfuscationIntensity,
    ConfigError,
>)
    ensures
        match result {
            Ok(intensity) => decoded_intensity(json_of(*document)) == Ok::<
                ObfuscationIntensity,
                Seq<char>,
            >(intensity),
            Err(error) => decoded_intensity(json_of(*document)) matches Err(reason)
                && is_rejection(error, reason),
        },
{
    match member(document, "intensity") {
        Some(found) => match as_text(found) {
            Some(tag) => match parse_intensity(tag) {
                Some(intensity) => Ok(intensity),
                None => Err(reject_invalid("intensity")),
            },
            None => Err(reject_invalid("intensity")),
        },
        None => Err(reject_missing("intensity")),
    }
}

/// Reads the six switches of an object.
fn read_switches(document: &serde_json::Value) -> (result: Result<TechniqueConfig, ConfigError>)
    ensures
        match result {
            Ok(techniques) => decoded_switches(json_of(*document)) == Ok::<
                TechniqueConfig,
                Seq<char>,
            >(techniques),
            Err(error) => decoded_switches(json_of(*document)) matches Err(reason)
                && is_rejection(error, reason),
        },
{
    let control_flow_flattening = match read_flag(document, "control_flow_flattening") {
        Ok(flag) => flag,
        Err(error) => {
            return Err(error);
        },
    };
    let string_encryption = match read_flag(document, "string_encryption") {
        Ok(flag) => flag,
        Err(error) => {
            return Err(error);
        },
    };
    let bogus_code_injection = match read_flag(document, "bogus_code_injection") {
        Ok(flag) => flag,
        Err(error) => {
            return Err(error);
        },
    };
    let instruction_substitution = match read_flag(document, "instruction_substitution") {
        Ok(flag) => flag,
        Err(error) => {
            return Err(error);
        },
    };
    let function_manipulation = match read_flag(document, "function_manipulation") {
        Ok(flag) => flag,
        Err(error) => {
            return Err(error);
        },
    };
    let opaque_predicates = match read_flag(document, "opaque_predicates") {
        Ok(flag) => flag,
        Err(error) => {
            return Err(error);
        },
    };
    Ok(
        TechniqueConfig {
            control_flow_flattening,
            string_encryption,
            bogus_code_injection,
            instruction_substitution,
            function_manipulation,
            opaque_predicates,
        },
    )
}

/// Reads the technique set of a document.
fn read_techniques(document: &serde_json::Value) -> (result: Result<TechniqueConfig, ConfigError>)
    ensures
        match result {
            Ok(techniques) => decoded_techniques(json_of(*document)) == Ok::<
                TechniqueConfig,
                Seq<char>,
            >(techniques),
            Err(error) => decoded_techniques(json_of(*document)) matches Err(reason)
                && is_rejection(error, reason),
        },
{
    match member(document, "techniques") {
        Some(found) => {
            if is_object(found) {
                read_switches(found)
            } else {
                Err(reject_invalid("techniques"))
            }
        },
        None => Err(reject_missing("techniques")),
    }
}

/// Reads a configuration from a document.
pub fn decode_config(document: &serde_json::Value) -> (result: Result<
    ObfuscationConfig,
    ConfigError,
>)
    ensures
        match result {
            Ok(config) => decoded_config(json_of(*document)) == Ok::<ObfuscationConfig, Seq<char>>(
                config,
            ),
            Err(error) => decoded_config(json_of(*document)) matches Err(reason) && is_rejection(
                error,
                reason,
            ),
        },
{
    if !is_object(document) {
        return Err(reject(String::from_str("expected an object")));
    }
    let intensity = match read_intensity(document) {
        Ok(intensity) => intensity,
        Err(error) => {
            return Err(error);
        },
    };
    let techniques = match read_techniques(document) {
        Ok(techniques) => techniques,
        Err(error) => {
            return Err(error);
        },
    };
    let preserve_debug_info = match read_flag(document, "preserve_debug_info") {
        Ok(flag) => flag,
        Err(error) => {
            return Err(error);
        },
    };
    let generate_report = match read_flag(document, "generate_report") {
        Ok(flag) => flag,
        Err(error) => {
            return Err(error);
        },
    };
    let seed = match read_number(document, "seed", u64::MAX) {
        Ok(number) => number,
        Err(error) => {
            return Err(error);
        },
    };
    let budget = match read_number(document, "max_size_increase", u32::MAX as u64) {
        Ok(number) => number,
        Err(error) => {
            return Err(error);
        },
    };
    let max_size_increase = match budget {
        Some(n) => Some(n as u32),
        None => None,
    };
    Ok(
        ObfuscationConfig {
            intensity,
            techniques,
            preserve_debug_info,
            generate_report,
            seed,
            max_size_increase,
        },
    )
}

/// Writes a number that may be unset.
fn write_number(number: Option<u64>) -> (document: serde_json::Value)
    ensures
        json_of(document) == encoded_number(number),
{
    match number {
        Some(n) => number_value(n),
        None => null_value(),
    }
}

/// Writes a technique set as a document.
fn write_techniques(techniques: &TechniqueConfig) -> (document: serde_json::Value)
    ensures
        json_of(document) == encoded_techniques(*techniques),
{
    let mut members = new_members();
    set_member(
        &mut members,
        "control_flow_flattening",
        bool_value(techniques.control_flow_flattening),
    );
    set_member(&mut members, "string_encryption", bool_value(techniques.string_encryption));
    set_member(&mut members, "bogus_code_injection", bool_value(techniques.bogus_code_injection));
    set_member(
        &mut members,
        "instruction_substitution",
        bool_value(techniques.instruction_substitution),
    );
    set_member(
        &mut members,
        "function_manipulation",
        bool_value(techniques.function_manipulation),
    );
    set_member(&mut members, "opaque_predicates", bool_value(techniques.opaque_predicates));
    record_value(members)
}

/// Writes a configuration as a document.
pub fn encode_config(config: &ObfuscationConfig) -> (document: serde_json::Value)
    ensures
        json_of(document) == encoded_config(*config),
{
    let mut members = new_members();
    set_member(&mut members, "intensity", text_value(config.intensity.name()));
    set_member(&mut members, "techniques", write_techniques(&config.techniques));
    set_member(&mut members, "preserve_debug_info", bool_value(config.preserve_debug_info));
    set_member(&mut members, "generate_report", bool_value(config.generate_report));
    set_member(&mut members, "seed", write_number(config.seed));
    let budget = match config.max_size_increase {
        Some(n) => Some(n as u64),
        None => None,
    };
    set_member(&mut members, "max_size_increase", write_number(budget));
    record_value(members)
}

/// Reads a configuration from the text of a document.
///
/// A text that is not JSON is rejected with the words of the parser; a text
/// that is JSON is decoded as [`decode_config`] says.
pub fn parse_config(text: &str) -> (result: Result<ObfuscationConfig, ConfigError>)
    ensures
        match parsed_json(text@) {
            Some(json) => match result {
                Ok(config) => decoded_config(json) == Ok::<ObfuscationConfig, Seq<char>>(config),
                Err(error) => decoded_config(json) matches Err(reason) && is_rejection(
                    error,
                    reason,
                ),
            },
            None => result matches Err(error) && exists|reason: Seq<char>|
                is_rejection(error, reason),
        },
{
    match parse_value(text) {
        Ok(document) => decode_config(&document),
        Err(cause) => {
            let reason = error_message(&cause);
            let error = reject(reason);
            assert(is_rejection(error, reason@));
            Err(error)
        },
    }
}

/// True when `result` is what printing `document` gives: the printed text,
/// or a serialization error where the printer fails.
pub open spec fn is_rendering_of(
    result: Result<String, ConfigError>,
    document: serde_json::Value,
) -> bool {
    match result {
        Ok(text) => printed_json(document) == Some(text@),
        Err(error) => error is SerializeError && printed_json(document) is None,
    }
}

/// Writes a configuration as the text of a document.
///
/// The result is what the printer makes of the document that
/// [`encode_config`] builds: its text where it prints one, and a
/// serialization error with its words exactly where it fails.
pub fn render_config(config: &ObfuscationConfig) -> (result: Result<String, ConfigError>)
    ensures
        exists|document: serde_json::Value|
            json_of(document) == encoded_config(*config) && #[trigger] is_rendering_of(
                result,
                document,
            ),
{
    let document = encode_config(config);
    let result = match print_value(&document) {
        Ok(text) => Ok(text),
        Err(cause) => Err(
            ConfigError::SerializeError(
                String::from_str("Failed to serialize config: ").concat(
                    error_message(&cause).as_str(),
                ),
            ),
        ),
    };
    assert(json_of(document) == encoded_config(*config) && is_rendering_of(result, document));
    result
}

/// The names of the members of a configuration document differ from one
/// another, and so do the names of the six switches.
proof fn lemma_member_names_differ()
    ensures
        "intensity"@ != "techniques"@,
        "intensity"@ != "preserve_debug_info"@,
        "intensity"@ != "generate_report"@,
        "intensity"@ != "seed"@,
        "intensity"@ != "max_size_increase"@,
        "techniques"@ != "preserve_debug_info"@,
        "techniques"@ != "generate_report"@,
        "techniques"@ != "seed"@,
        "techniques"@ != "max_size_increase"@,
        "preserve_debug_info"@ != "generate_report"@,
        "preserve_debug_info"@ != "seed"@,
        "preserve_debug_info"@ != "max_size_increase"@,
        "generate_report"@ != "seed"@,
        "generate_report"@ != "max_size_increase"@,
        "seed"@ != "max_size_increase"@,
        "control_flow_flattening"@ != "string_encryption"@,
        "control_flow_flattening"@ != "bogus_code_injection"@,
        "control_flow_flattening"@ != "instruction_substitution"@,
        "control_flow_flattening"@ != "function_manipulation"@,
        "control_flow_flattening"@ != "opaque_predicates"@,
        "string_encryption"@ != "bogus_code_injection"@,
        "string_encryption"@ != "instruction_substitution"@,
        "string_encryption"@ != "function_manipulation"@,
        "string_encryption"@ != "opaque_predicates"@,
        "bogus_code_injection"@ != "instruction_substitution"@,
        "bogus_code_injection"@ != "function_manipulation"@,
        "bogus_code_injection"@ != "opaque_predicates"@,
        "instruction_substitution"@ != "function_manipulation"@,
        "instruction_substitution"@ != "opaque_predicates"@,
        "function_manipulation"@ != "opaque_predicates"@,
{
    reveal_strlit("intensity");
    reveal_strlit("techniques");
    reveal_strlit("preserve_debug_info");
    reveal_strlit("generate_report");
    reveal_strlit("seed");
    reveal_strlit("max_size_increase");
    reveal_strlit("control_flow_flattening");
    reveal_strlit("string_encryption");
    reveal_strlit("bogus_code_injection");
    reveal_strlit("instruction_substitution");
    reveal_strlit("function_manipulation");
    reveal_strlit("opaque_predicates");
    assert("intensity"@[0] != "techniques"@[0]);
    assert("intensity"@[0] != "preserve_debug_info"@[0]);
    assert("intensity"@[0] != "generate_report"@[0]);
    assert("intensity"@[0] != "seed"@[0]);
    assert("intensity"@[0] != "max_size_increase"@[0]);
    assert("techniques"@[0] != "preserve_debug_info"@[0]);
    assert("techniques"@[0] != "generate_report"@[0]);
    assert("techniques"@[0] != "seed"@[0]);
    assert("techniques"@[0] != "max_size_increase"@[0]);
    assert("preserve_debug_info"@[0] != "generate_report"@[0]);
    assert("preserve_debug_info"@[0] != "seed"@[0]);
    assert("preserve_debug_info"@[0] != "max_size_increase"@[0]);
    assert("generate_report"@[0] != "seed"@[0]);
    assert("generate_report"@[0] != "max_size_increase"@[0]);
    assert("seed"@[0] != "max_size_increase"@[0]);
    assert("control_flow_flattening"@[0] != "string_encryption"@[0]);
    assert("control_flow_flattening"@[0] != "bogus_code_injection"@[0]);
    assert("control_flow_flattening"@[0] != "instruction_substitution"@[0]);
    assert("control_flow_flattening"@[0] != "function_manipulation"@[0]);
    assert("control_flow_flattening"@[0] != "opaque_predicates"@[0]);
    assert("string_encryption"@[0] != "bogus_code_injection"@[0]);
    assert("string_encryption"@[0] != "instruction_substitution"@[0]);
    assert("string_encryption"@[0] != "function_manipulation"@[0]);
    assert("string_encryption"@[0] != "opaque_predicates"@[0]);
    assert("bogus_code_injection"@[0] != "instruction_substitution"@[0]);
    assert("bogus_code_injection"@[0] != "function_manipulation"@[0]);
    assert("bogus_code_injection"@[0] != "opaque_predicates"@[0]);
    assert("instruction_substitution"@[0] != "function_manipulation"@[0]);
    assert("instruction_substitution"@[0] != "opaque_predicates"@[0]);
    assert("function_manipulation"@[0] != "opaque_predicates"@[0]);
}

/// Every intensity is found again from its tag.
pub proof fn lemma_tag_names_intensity(intensity: ObfuscationIntensity)
    ensures
        intensity_of_tag(intensity.label()) == Some(intensity),
{
    reveal_strlit("Low");
    reveal_strlit("Medium");
    reveal_strlit("High");
    reveal_strlit("Custom");
    assert("Low"@[0] != "Medium"@[0]);
    assert("Low"@[0] != "High"@[0]);
    assert("Low"@[0] != "Custom"@[0]);
    assert("Medium"@[0] != "High"@[0]);
    assert("Medium"@[0] != "Custom"@[0]);
    assert("High"@[0] != "Custom"@[0]);
}

/// Reading the document of a technique set gives the technique set back.
pub proof fn lemma_switches_round_trip(techniques: TechniqueConfig)
    ensures
        decoded_switches(encoded_techniques(techniques)) == Ok::<TechniqueConfig, Seq<char>>(
            techniques,
        ),
{
    lemma_member_names_differ();
}

/// Reading the document that was written for a configuration gives the
/// configuration back, equal in every field.
pub proof fn lemma_decode_inverts_encode(config: ObfuscationConfig)
    ensures
        decoded_config(encoded_config(config)) == Ok::<ObfuscationConfig, Seq<char>>(config),
{
    lemma_member_names_differ();
    lemma_tag_names_intensity(config.intensity);
    lemma_switches_round_trip(config.techniques);
    let json = encoded_config(config);
    assert(decoded_intensity(json) == Ok::<ObfuscationIntensity, Seq<char>>(config.intensity));
    assert(decoded_techniques(json) == Ok::<TechniqueConfig, Seq<char>>(config.techniques));
    assert(decoded_flag(json, "preserve_debug_info"@) == Ok::<bool, Seq<char>>(
        config.preserve_debug_info,
    ));
    assert(decoded_flag(json, "generate_report"@) == Ok::<bool, Seq<char>>(
        config.generate_report,
    ));
    assert(decoded_number(json, "seed"@, u64::MAX) == Ok::<Option<u64>, Seq<char>>(config.seed));
}

} // verus!
