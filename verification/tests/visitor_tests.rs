use axiom_logging::FieldValue;
use axiom_logging::JsonVisitor;
use axiom_logging::LogEvent;
use axiom_logging::message_of;
use axiom_logging::str_eq;
use axiom_logging::str_starts_with;
use axiom_logging::strip_quotes;

fn kind_name(v: &FieldValue) -> &'static str {
    match v {
        FieldValue::Float(_) => "number",
        FieldValue::Int(_) => "number",
        FieldValue::UInt(_) => "number",
        FieldValue::Bool(_) => "boolean",
        FieldValue::Str(_) => "string",
        FieldValue::Debug(_) => "string",
    }
}

#[test]
fn value_kinds_preserved() {
    let mut v = JsonVisitor::new();
    v.record_f64("ratio", 0.5f64.to_bits());
    v.record_i64("delta", -7);
    v.record_u64("count", 42);
    v.record_bool("ok", true);
    v.record_str("name", "svc");
    v.record_debug("blob", String::from("Blob { a: 1 }"));

    let fields = v.fields();
    assert_eq!(fields.len(), 6);
    assert_eq!(
        fields.get("ratio"),
        Some(&FieldValue::Float(0.5f64.to_bits()))
    );
    assert_eq!(fields.get("delta"), Some(&FieldValue::Int(-7)));
    assert_eq!(fields.get("count"), Some(&FieldValue::UInt(42)));
    assert_eq!(fields.get("ok"), Some(&FieldValue::Bool(true)));
    assert_eq!(fields.get("name"), Some(&FieldValue::Str(String::from("svc"))));
    assert_eq!(kind_name(fields.get("ratio").unwrap()), "number");
    assert_eq!(kind_name(fields.get("delta").unwrap()), "number");
    assert_eq!(kind_name(fields.get("count").unwrap()), "number");
    assert_eq!(kind_name(fields.get("ok").unwrap()), "boolean");
    assert_eq!(kind_name(fields.get("name").unwrap()), "string");
    assert_eq!(kind_name(fields.get("blob").unwrap()), "string");
}

#[test]
fn message_from_string_taken_directly() {
    let mut v = JsonVisitor::new();
    v.record_str("message", "boom");
    assert_eq!(v.message(), &Some(String::from("boom")));
    assert_eq!(v.fields().len(), 0);
}

#[test]
fn message_from_debug_strips_quotes() {
    let mut v = JsonVisitor::new();
    v.record_debug("message", String::from("\"boom\""));
    assert_eq!(v.message(), &Some(String::from("boom")));
    assert_eq!(v.fields().len(), 0);
}

#[test]
fn message_from_number_yields_no_text() {
    let mut v = JsonVisitor::new();
    v.record_i64("message", 3);
    assert_eq!(v.message(), &None);
    assert_eq!(v.fields().len(), 0);
}

#[test]
fn later_message_attribute_wins() {
    let mut v = JsonVisitor::new();
    v.record_str("message", "first");
    v.record_str("message", "second");
    assert_eq!(v.message(), &Some(String::from("second")));
    let mut w = JsonVisitor::new();
    w.record_str("message", "text");
    w.record_i64("message", 3);
    assert_eq!(w.message(), &None);
}

#[test]
fn escape_prefix_only_stripped_at_start() {
    let mut v = JsonVisitor::new();
    v.record_u64("xr#y", 1);
    let fields = v.fields();
    assert_eq!(fields.get("xr#y"), Some(&FieldValue::UInt(1)));
    assert_eq!(fields.get("y"), None);
}

#[test]
fn strip_quotes_edge_cases() {
    assert_eq!(strip_quotes("\"ab\""), String::from("ab"));
    assert_eq!(strip_quotes("\"\""), String::from(""));
    assert_eq!(strip_quotes("\""), String::from("\""));
    assert_eq!(strip_quotes("ab"), String::from("ab"));
    assert_eq!(strip_quotes("\"ab"), String::from("\"ab"));
    assert_eq!(strip_quotes("ab\""), String::from("ab\""));
    assert_eq!(strip_quotes(""), String::from(""));
}

#[test]
fn message_of_per_kind() {
    assert_eq!(
        message_of(&FieldValue::Str(String::from("hi"))),
        Some(String::from("hi"))
    );
    assert_eq!(
        message_of(&FieldValue::Debug(String::from("\"hi\""))),
        Some(String::from("hi"))
    );
    assert_eq!(message_of(&FieldValue::Float(1.0f64.to_bits())), None);
    assert_eq!(message_of(&FieldValue::Int(1)), None);
    assert_eq!(message_of(&FieldValue::UInt(1)), None);
    assert_eq!(message_of(&FieldValue::Bool(true)), None);
}

#[test]
fn same_attributes_give_identical_fields() {
    let mut a = JsonVisitor::new();
    let mut b = JsonVisitor::new();
    for v in [&mut a, &mut b] {
        v.record_str("message", "boom");
        v.record_u64("count", 3);
        v.record_str("r#type", "request");
        v.record_str("log.internal", "dropped");
        v.record_bool("ok", false);
        v.record_u64("count", 4);
    }
    assert_eq!(a.fields(), b.fields());
    assert_eq!(a.message(), b.message());
    assert_eq!(a.log_target(), b.log_target());
}

#[test]
fn keyword_escape_prefix_stripped() {
    let mut v = JsonVisitor::new();
    v.record_str("r#type", "request");
    let fields = v.fields();
    assert_eq!(fields.get("type"), Some(&FieldValue::Str(String::from("request"))));
    assert_eq!(fields.get("r#type"), None);
    assert_eq!(fields.len(), 1);
}

#[test]
fn internal_namespace_never_in_fields() {
    let mut v = JsonVisitor::new();
    v.record_str("log.module_path", "a::b");
    v.record_i64("log.line", 12);
    v.record_u64("log.level", 3);
    v.record_bool("log.flag", true);
    v.record_f64("log.ratio", 1.5f64.to_bits());
    v.record_debug("log.blob", String::from("X"));
    v.record_str("kept", "yes");
    let fields = v.fields();
    assert_eq!(fields.len(), 1);
    assert_eq!(fields.get("kept"), Some(&FieldValue::Str(String::from("yes"))));
    assert_eq!(fields.get("log.module_path"), None);
    assert_eq!(fields.get("log.line"), None);
}

#[test]
fn target_override_consumed_not_inserted() {
    let mut v = JsonVisitor::new();
    v.record_str("log.target", "my::module");
    assert_eq!(v.log_target(), &Some(String::from("my::module")));
    assert_eq!(v.fields().len(), 0);

    let e = LogEvent::build(5, "svc", "prod", String::from("INFO"), "default::target", v);
    assert_eq!(e.target, String::from("my::module"));
}

#[test]
fn last_write_wins_keeps_position() {
    let mut v = JsonVisitor::new();
    v.record_u64("first", 1);
    v.record_u64("count", 2);
    v.record_u64("last", 3);
    v.record_u64("count", 9);
    let fields = v.fields();
    assert_eq!(fields.len(), 3);
    assert_eq!(fields.key_at(0), &String::from("first"));
    assert_eq!(fields.key_at(1), &String::from("count"));
    assert_eq!(fields.key_at(2), &String::from("last"));
    assert_eq!(fields.value_at(1), &FieldValue::UInt(9));
}

#[test]
fn empty_event_defaults() {
    let v = JsonVisitor::new();
    assert_eq!(v.message(), &None);
    assert_eq!(v.log_target(), &None);
    assert_eq!(v.fields().len(), 0);
    let e = LogEvent::build(0, "svc", "prod", String::from("INFO"), "tgt", v);
    assert_eq!(e.message, String::from(""));
    assert_eq!(e.target, String::from("tgt"));
    assert_eq!(e.fields.len(), 0);
}

#[test]
fn string_helpers() {
    assert!(str_eq("abc", "abc"));
    assert!(!str_eq("abc", "abd"));
    assert!(!str_eq("abc", "ab"));
    assert!(str_eq("", ""));
    assert!(str_starts_with("log.target", "log."));
    assert!(!str_starts_with("lo", "log."));
    assert!(!str_starts_with("atarget", "log."));
    assert!(str_starts_with("anything", ""));
}

#[test]
fn default_visitor_is_fresh() {
    let v = JsonVisitor::default();
    assert_eq!(v.message(), &None);
    assert_eq!(v.log_target(), &None);
    assert_eq!(v.fields().len(), 0);
}
