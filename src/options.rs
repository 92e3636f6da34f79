//! Turning the editor's per-server settings into the analyzer's
//! initialization options.

use vstd::prelude::*;
use zed_extension_api::serde_json::Value;
use crate::resolver::MtlogAnalyzerExtension;

verus! {

#[verifier::external_type_specification]
#[verifier::external_body]
pub struct ExValue(Value);

/// The member named `key` of a JSON document, as serde_json's `Value::get`
/// with a string index hands it out.
pub uninterp spec fn json_member(doc: Value, key: Seq<char>) -> Option<Value>;

/// Relies on serde_json's `Value::get` with a string index, then `cloned`:
/// the member of that name when `doc` is an object, else `None`.
#[verifier::external_body]
fn member(doc: &Value, key: &str) -> (r: Option<Value>)
    ensures
        r == json_member(*doc, key@),
{
    doc.get(key).cloned()
}

/// The settings that the host holds for the analyzer's server: the
/// initialization options as given, and the older `settings` document.
pub struct LspSettingsSnapshot {
    pub initialization_options: Option<Value>,
    pub settings: Option<Value>,
}

/// The value of one recognized option: taken from the settings, or one of
/// the defaults.
pub enum OptionValue {
    Given(Value),
    EmptyList,
    EmptyMapping,
    False,
}

/// The six options that the analyzer recognizes, each always present.
pub struct AnalyzerOptions {
    pub suppressed_codes: OptionValue,
    pub severity_overrides: OptionValue,
    pub disable_all: OptionValue,
    pub common_keys: OptionValue,
    pub strict_mode: OptionValue,
    pub ignore_dynamic_templates: OptionValue,
}

/// What is sent to the analyzer at startup: the initialization options as the
/// user wrote them, or the six options read from the older settings.
pub enum InitializationOptions {
    PassThrough(Value),
    Flat(AnalyzerOptions),
}

/// The member `key` of the older settings document; an absent document has
/// no members.
pub open spec fn legacy_member(settings: Option<Value>, key: Seq<char>) -> Option<Value> {
    match settings {
        Some(doc) => json_member(doc, key),
        None => None,
    }
}

/// The value found, or `default` where none was.
pub open spec fn given_or(found: Option<Value>, default: OptionValue) -> OptionValue {
    match found {
        Some(v) => OptionValue::Given(v),
        None => default,
    }
}

/// The six options read from the older settings, each at its default where
/// the settings lack it. Other members are dropped.
pub open spec fn flat_options(settings: Option<Value>) -> AnalyzerOptions {
    AnalyzerOptions {
        suppressed_codes: given_or(
            legacy_member(settings, "suppressedCodes"@),
            OptionValue::EmptyList,
        ),
        severity_overrides: given_or(
            legacy_member(settings, "severityOverrides"@),
            OptionValue::EmptyMapping,
        ),
        disable_all: given_or(legacy_member(settings, "disableAll"@), OptionValue::False),
        common_keys: given_or(legacy_member(settings, "commonKeys"@), OptionValue::EmptyList),
        strict_mode: given_or(legacy_member(settings, "strictMode"@), OptionValue::False),
        ignore_dynamic_templates: given_or(
            legacy_member(settings, "ignoreDynamicTemplates"@),
            OptionValue::False,
        ),
    }
}

/// The options for a server with settings `s`: the initialization options
/// when given, whatever the older settings hold; else the six flat options.
pub open spec fn options_for(s: LspSettingsSnapshot) -> InitializationOptions {
    match s.initialization_options {
        Some(v) => InitializationOptions::PassThrough(v),
        None => InitializationOptions::Flat(flat_options(s.settings)),
    }
}

/// The option `key` of the older settings, or `default` where they lack it.
fn option_or(settings: &Option<Value>, key: &str, default: OptionValue) -> (r: OptionValue)
    ensures
        r == given_or(legacy_member(*settings, key@), default),
{
    match settings {
        Some(doc) => match member(doc, key) {
            Some(v) => OptionValue::Given(v),
            None => default,
        },
        None => default,
    }
}

/// Reads the six recognized options from the older settings document.
fn build_flat_options(settings: &Option<Value>) -> (r: AnalyzerOptions)
    ensures
        r == flat_options(*settings),
{
    AnalyzerOptions {
        suppressed_codes: option_or(settings, "suppressedCodes", OptionValue::EmptyList),
        severity_overrides: option_or(settings, "severityOverrides", OptionValue::EmptyMapping),
        disable_all: option_or(settings, "disableAll", OptionValue::False),
        common_keys: option_or(settings, "commonKeys", OptionValue::EmptyList),
        strict_mode: option_or(settings, "strictMode", OptionValue::False),
        ignore_dynamic_templates: option_or(settings, "ignoreDynamicTemplates", OptionValue::False),
    }
}

/// The six options at their defaults.
pub open spec fn default_options() -> AnalyzerOptions {
    AnalyzerOptions {
        suppressed_codes: OptionValue::EmptyList,
        severity_overrides: OptionValue::EmptyMapping,
        disable_all: OptionValue::False,
        common_keys: OptionValue::EmptyList,
        strict_mode: OptionValue::False,
        ignore_dynamic_templates: OptionValue::False,
    }
}

/// The key under which each option is sent, in the order they are sent.
pub open spec fn option_keys() -> Seq<Seq<char>> {
    seq![
        "suppressedCodes"@,
        "severityOverrides"@,
        "disableAll"@,
        "commonKeys"@,
        "strictMode"@,
        "ignoreDynamicTemplates"@,
    ]
}

/// The six options in the order of `option_keys`.
pub open spec fn option_values(o: AnalyzerOptions) -> Seq<OptionValue> {
    seq![
        o.suppressed_codes,
        o.severity_overrides,
        o.disable_all,
        o.common_keys,
        o.strict_mode,
        o.ignore_dynamic_templates,
    ]
}

/// Initialization options given by the user are sent as they are, whatever
/// the older settings hold; they are never merged with them.
pub proof fn lemma_initialization_options_win(v: Value, settings: Option<Value>)
    ensures
        options_for(
            (LspSettingsSnapshot { initialization_options: Some(v), settings }),
        ) == InitializationOptions::PassThrough(v),
{
}

/// With no initialization options and older settings that hold no member,
/// or none at all, all six options are at their defaults.
pub proof fn lemma_empty_settings_give_defaults(settings: Option<Value>)
    requires
        forall|k: Seq<char>| #[trigger] legacy_member(settings, k) is None,
    ensures
        options_for((LspSettingsSnapshot { initialization_options: None, settings })) == (
        InitializationOptions::Flat(default_options())),
{
    assert(legacy_member(settings, "suppressedCodes"@) is None);
    assert(legacy_member(settings, "severityOverrides"@) is None);
    assert(legacy_member(settings, "disableAll"@) is None);
    assert(legacy_member(settings, "commonKeys"@) is None);
    assert(legacy_member(settings, "strictMode"@) is None);
    assert(legacy_member(settings, "ignoreDynamicTemplates"@) is None);
}

/// Older settings that hold `strictMode` and nothing else give that value for
/// `strictMode` and the defaults for the five other options.
pub proof fn lemma_strict_mode_alone(v: Value, settings: Option<Value>)
    requires
        legacy_member(settings, "strictMode"@) == Some(v),
        forall|k: Seq<char>| k != "strictMode"@ ==> #[trigger] legacy_member(settings, k) is None,
    ensures
        options_for((LspSettingsSnapshot { initialization_options: None, settings })) == (
        InitializationOptions::Flat(
            AnalyzerOptions {
                suppressed_codes: OptionValue::EmptyList,
                severity_overrides: OptionValue::EmptyMapping,
                disable_all: OptionValue::False,
                common_keys: OptionValue::EmptyList,
                strict_mode: OptionValue::Given(v),
                ignore_dynamic_templates: OptionValue::False,
            },
        )),
{
    reveal_strlit("strictMode");
    reveal_strlit("suppressedCodes");
    reveal_strlit("severityOverrides");
    reveal_strlit("disableAll");
    reveal_strlit("commonKeys");
    reveal_strlit("ignoreDynamicTemplates");
    assert("suppressedCodes"@[1] != "strictMode"@[1]);
    assert("severityOverrides"@[1] != "strictMode"@[1]);
    assert("disableAll"@ != "strictMode"@);
    assert("commonKeys"@ != "strictMode"@);
    assert("ignoreDynamicTemplates"@ != "strictMode"@);
    assert(legacy_member(settings, "suppressedCodes"@) is None);
    assert(legacy_member(settings, "severityOverrides"@) is None);
    assert(legacy_member(settings, "disableAll"@) is None);
    assert(legacy_member(settings, "commonKeys"@) is None);
    assert(legacy_member(settings, "ignoreDynamicTemplates"@) is None);
}

impl AnalyzerOptions {
    /// The six options as key/value pairs, in the order they are sent.
    pub fn into_entries(self) -> (r: Vec<(String, OptionValue)>)
        ensures
            r@.len() == 6,
            forall|i: int| 0 <= i < 6 ==> (#[trigger] r@[i]).0@ == option_keys()[i],
            forall|i: int| 0 <= i < 6 ==> (#[trigger] r@[i]).1 == option_values(self)[i],
    {
        let mut r: Vec<(String, OptionValue)> = Vec::new();
        r.push((String::from_str("suppressedCodes"), self.suppressed_codes));
        r.push((String::from_str("severityOverrides"), self.severity_overrides));
        r.push((String::from_str("disableAll"), self.disable_all));
        r.push((String::from_str("commonKeys"), self.common_keys));
        r.push((String::from_str("strictMode"), self.strict_mode));
        r.push((String::from_str("ignoreDynamicTemplates"), self.ignore_dynamic_templates));
        r
    }
}

impl MtlogAnalyzerExtension {
    /// The options to send at startup for a server whose settings are
    /// `settings`, computed afresh on every call.
    pub fn language_server_initialization_options(&self, settings: LspSettingsSnapshot) -> (r:
        InitializationOptions)
        ensures
            r == options_for(settings),
    {
        match settings.initialization_options {
            Some(v) => InitializationOptions::PassThrough(v),
            None => InitializationOptions::Flat(build_flat_options(&settings.settings)),
        }
    }
}

} // verus!
