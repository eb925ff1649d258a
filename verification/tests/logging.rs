use pumpkin_wasm_host::logging::{
    LogFieldValue, LogLevel, PluginLogEvent, format_value, render_plugin_log,
};

fn event(fields: Option<Vec<(String, LogFieldValue)>>) -> PluginLogEvent {
    PluginLogEvent {
        level: LogLevel::Warn,
        target: "my_plugin".to_string(),
        module: Some("my_plugin::net".to_string()),
        file: Some("src/net.rs".to_string()),
        line: Some(42),
        fields,
    }
}

#[test]
fn values_render_as_text() {
    assert_eq!(format_value(&LogFieldValue::I64(-17)), "-17");
    assert_eq!(format_value(&LogFieldValue::U64(18446744073709551615)), "18446744073709551615");
    assert_eq!(format_value(&LogFieldValue::U64(0)), "0");
    assert_eq!(format_value(&LogFieldValue::Bool(true)), "true");
    assert_eq!(format_value(&LogFieldValue::Bool(false)), "false");
    assert_eq!(format_value(&LogFieldValue::Str("hi".to_string())), "hi");
    assert_eq!(format_value(&LogFieldValue::Debug("Some(3)".to_string())), "Some(3)");
    assert_eq!(format_value(&LogFieldValue::F64("1.5".to_string())), "1.5");
    assert_eq!(format_value(&LogFieldValue::Unknown), "<unknown>");
}

#[test]
fn message_and_other_fields_are_separated() {
    let line = render_plugin_log(&event(Some(vec![
        ("count".to_string(), LogFieldValue::U64(3)),
        ("message".to_string(), LogFieldValue::Debug("connected".to_string())),
        ("ok".to_string(), LogFieldValue::Bool(true)),
    ])));
    assert_eq!(line.level, LogLevel::Warn);
    assert_eq!(line.target, "my_plugin");
    assert_eq!(line.module, "my_plugin::net");
    assert_eq!(line.file, "src/net.rs");
    assert_eq!(line.line, 42);
    assert_eq!(line.message, "connected");
    assert_eq!(line.fields.as_deref(), Some("count=3, ok=true"));
}

#[test]
fn message_only_event_has_no_fields() {
    let line = render_plugin_log(&event(Some(vec![(
        "message".to_string(),
        LogFieldValue::Str("hello".to_string()),
    )])));
    assert_eq!(line.message, "hello");
    assert_eq!(line.fields, None);

    let numeric = render_plugin_log(&event(Some(vec![("message".to_string(), LogFieldValue::I64(5))])));
    assert_eq!(numeric.message, "");
}

#[test]
fn missing_metadata_gets_defaults() {
    let line = render_plugin_log(&PluginLogEvent {
        level: LogLevel::Trace,
        target: "t".to_string(),
        module: None,
        file: None,
        line: None,
        fields: None,
    });
    assert_eq!(line.module, "");
    assert_eq!(line.file, "unknown");
    assert_eq!(line.line, 0);
    assert_eq!(line.message, "");
    assert_eq!(line.fields, None);
}
