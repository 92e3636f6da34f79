use mtlog_analyzer::options::{InitializationOptions, LspSettingsSnapshot, OptionValue};
use mtlog_analyzer::resolver::MtlogAnalyzerExtension;
use zed_extension_api::serde_json::{self, Value};

fn json(text: &str) -> Value {
    serde_json::from_str(text).unwrap()
}

fn is_default(o: &mtlog_analyzer::options::AnalyzerOptions) -> bool {
    matches!(o.suppressed_codes, OptionValue::EmptyList)
        && matches!(o.severity_overrides, OptionValue::EmptyMapping)
        && matches!(o.disable_all, OptionValue::False)
        && matches!(o.common_keys, OptionValue::EmptyList)
        && matches!(o.strict_mode, OptionValue::False)
        && matches!(o.ignore_dynamic_templates, OptionValue::False)
}

#[test]
fn strict_mode_alone_keeps_other_defaults() {
    let ext = MtlogAnalyzerExtension::new();
    let s = LspSettingsSnapshot { initialization_options: None, settings: Some(json(r#"{"strictMode": true}"#)) };
    match ext.language_server_initialization_options(s) {
        InitializationOptions::Flat(o) => {
            match &o.strict_mode {
                OptionValue::Given(v) => assert_eq!(*v, Value::Bool(true)),
                _ => panic!("strictMode should be taken from the settings"),
            }
            assert!(matches!(o.suppressed_codes, OptionValue::EmptyList));
            assert!(matches!(o.severity_overrides, OptionValue::EmptyMapping));
            assert!(matches!(o.disable_all, OptionValue::False));
            assert!(matches!(o.common_keys, OptionValue::EmptyList));
            assert!(matches!(o.ignore_dynamic_templates, OptionValue::False));
        }
        InitializationOptions::PassThrough(_) => panic!("expected flat options"),
    }
}

#[test]
fn initialization_options_pass_through() {
    let ext = MtlogAnalyzerExtension::new();
    let init = json(r#"{"suppressedCodes": ["MTLOG001"], "custom": 3}"#);
    let s = LspSettingsSnapshot {
        initialization_options: Some(init.clone()),
        settings: Some(json(r#"{"strictMode": true, "disableAll": true}"#)),
    };
    match ext.language_server_initialization_options(s) {
        InitializationOptions::PassThrough(v) => assert_eq!(v, init),
        InitializationOptions::Flat(_) => panic!("expected the initialization options"),
    }
}

#[test]
fn empty_settings_give_defaults() {
    let ext = MtlogAnalyzerExtension::new();
    let s = LspSettingsSnapshot { initialization_options: None, settings: Some(json("{}")) };
    match ext.language_server_initialization_options(s) {
        InitializationOptions::Flat(o) => assert!(is_default(&o)),
        _ => panic!("expected flat options"),
    }
    let s = LspSettingsSnapshot { initialization_options: None, settings: None };
    match ext.language_server_initialization_options(s) {
        InitializationOptions::Flat(o) => assert!(is_default(&o)),
        _ => panic!("expected flat options"),
    }
}

#[test]
fn all_six_options_read_and_others_dropped() {
    let ext = MtlogAnalyzerExtension::new();
    let doc = json(
        r#"{"suppressedCodes": ["A"], "severityOverrides": {"B": "warning"}, "disableAll": true,
            "commonKeys": ["k"], "strictMode": false, "ignoreDynamicTemplates": true, "extra": 1}"#,
    );
    let s = LspSettingsSnapshot { initialization_options: None, settings: Some(doc) };
    let o = match ext.language_server_initialization_options(s) {
        InitializationOptions::Flat(o) => o,
        _ => panic!("expected flat options"),
    };
    let entries = o.into_entries();
    let keys: Vec<&str> = entries.iter().map(|(k, _)| k.as_str()).collect();
    assert_eq!(
        keys,
        vec!["suppressedCodes", "severityOverrides", "disableAll", "commonKeys", "strictMode", "ignoreDynamicTemplates"]
    );
    let values: Vec<Value> = entries
        .into_iter()
        .map(|(_, v)| match v {
            OptionValue::Given(v) => v,
            _ => panic!("every option is given"),
        })
        .collect();
    assert_eq!(values[0], json(r#"["A"]"#));
    assert_eq!(values[1], json(r#"{"B": "warning"}"#));
    assert_eq!(values[2], Value::Bool(true));
    assert_eq!(values[3], json(r#"["k"]"#));
    assert_eq!(values[4], Value::Bool(false));
    assert_eq!(values[5], Value::Bool(true));
}

#[test]
fn non_object_settings_give_defaults() {
    let ext = MtlogAnalyzerExtension::new();
    let s = LspSettingsSnapshot { initialization_options: None, settings: Some(json("[1, 2]")) };
    match ext.language_server_initialization_options(s) {
        InitializationOptions::Flat(o) => assert!(is_default(&o)),
        _ => panic!("expected flat options"),
    }
}
