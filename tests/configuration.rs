use lawkit_bridge::host::{HostItems, HostObject};
use lawkit_bridge::options::{build_options, recognize, ConfigError, EngineOptions, OptionKey, OutputFormat};

fn blank() -> HostObject {
    HostObject {
        is_none: false,
        as_bool: None,
        as_int: None,
        as_float: None,
        as_text: None,
        as_size: None,
        items: HostItems::Scalar,
        repr: Ok("object".to_string()),
    }
}

fn text(s: &str) -> HostObject {
    HostObject { as_text: Some(s.to_string()), ..blank() }
}

fn flag(b: bool) -> HostObject {
    let n = if b { 1 } else { 0 };
    HostObject { as_bool: Some(b), as_int: Some(n), as_size: Some(n as usize), as_float: Some((n as f64).to_bits()), ..blank() }
}

fn integer(i: i64) -> HostObject {
    HostObject {
        as_int: Some(i),
        as_float: Some((i as f64).to_bits()),
        as_size: if i >= 0 { Some(i as usize) } else { None },
        ..blank()
    }
}

fn float(f: f64) -> HostObject {
    HostObject { as_float: Some(f.to_bits()), ..blank() }
}

fn build(entries: Vec<(&str, HostObject)>) -> Result<EngineOptions, ConfigError> {
    let entries: Vec<(String, HostObject)> = entries.into_iter().map(|(k, v)| (k.to_string(), v)).collect();
    build_options(&entries)
}

fn same_generic(a: &EngineOptions, b: &EngineOptions) -> bool {
    let (g, h) = (&a.generic, &b.generic);
    g.ignore_keys_regex.as_ref().map(|p| p.source().clone()) == h.ignore_keys_regex.as_ref().map(|p| p.source().clone())
        && g.path_filter == h.path_filter
        && g.output_format == h.output_format
        && g.show_details == h.show_details
        && g.show_recommendations == h.show_recommendations
        && g.use_memory_optimization == h.use_memory_optimization
        && g.batch_size == h.batch_size
}

#[test]
fn no_keywords_give_defaults() {
    let o = build(vec![]).unwrap();
    assert!(o.generic.ignore_keys_regex.is_none());
    assert!(o.generic.output_format.is_none());
    assert!(o.generic.batch_size.is_none());
    assert!(o.domain.is_none());
}

#[test]
fn unknown_keyword_is_ignored() {
    let with_unknown = build(vec![("show_details", flag(true)), ("epsilon", float(0.5))]).unwrap();
    let alone = build(vec![("show_details", flag(true))]).unwrap();
    assert!(same_generic(&with_unknown, &alone));
    assert_eq!(with_unknown.domain, alone.domain);
    assert_eq!(with_unknown.generic.show_details, Some(true));

    let first = build(vec![("array_id_key", text("id")), ("confidence_level", float(0.95))]).unwrap();
    let only = build(vec![("confidence_level", float(0.95))]).unwrap();
    assert!(same_generic(&first, &only));
    assert_eq!(first.domain, only.domain);
}

#[test]
fn bad_regex_is_refused() {
    match build(vec![("ignore_keys_regex", text("(unterminated"))]) {
        Err(ConfigError::InvalidRegex { pattern, message }) => {
            assert_eq!(pattern, "(unterminated");
            assert!(!message.is_empty());
        }
        other => panic!("expected a regex refusal, got {:?}", other.map(|_| ())),
    }
}

#[test]
fn bad_format_is_refused() {
    match build(vec![("output_format", text("not-a-format"))]) {
        Err(ConfigError::InvalidFormat { identifier, message }) => {
            assert_eq!(identifier, "not-a-format");
            assert!(message.contains("not-a-format"));
        }
        other => panic!("expected a format refusal, got {:?}", other.map(|_| ())),
    }
}

#[test]
fn refusal_comes_even_after_good_keywords() {
    let r = build(vec![("show_details", flag(true)), ("output_format", text("pdf")), ("batch_size", integer(3))]);
    assert!(matches!(r, Err(ConfigError::InvalidFormat { .. })));
}

#[test]
fn valid_regex_is_compiled() {
    let o = build(vec![("ignore_keys_regex", text("^tmp_.*"))]).unwrap();
    let p = o.generic.ignore_keys_regex.unwrap();
    assert_eq!(p.source(), "^tmp_.*");
    assert!(p.compiled().is_match("tmp_total"));
    assert!(!p.compiled().is_match("total"));
}

#[test]
fn format_names_are_parsed() {
    let cases = [
        ("json", OutputFormat::Json),
        ("JSON", OutputFormat::Json),
        ("yml", OutputFormat::Yaml),
        ("yaml", OutputFormat::Yaml),
        ("csv", OutputFormat::Csv),
        ("txt", OutputFormat::Text),
        ("Text", OutputFormat::Text),
        ("lawkit", OutputFormat::Lawkit),
    ];
    for (name, expected) in cases {
        let o = build(vec![("output_format", text(name))]).unwrap();
        assert_eq!(o.generic.output_format, Some(expected), "{}", name);
    }
}

#[test]
fn generic_options_are_set() {
    let o = build(vec![
        ("path_filter", text("sales")),
        ("show_details", flag(true)),
        ("show_recommendations", flag(false)),
        ("use_memory_optimization", flag(true)),
        ("batch_size", integer(500)),
    ])
    .unwrap();
    assert_eq!(o.generic.path_filter.as_deref(), Some("sales"));
    assert_eq!(o.generic.show_details, Some(true));
    assert_eq!(o.generic.show_recommendations, Some(false));
    assert_eq!(o.generic.use_memory_optimization, Some(true));
    assert_eq!(o.generic.batch_size, Some(500));
    assert!(o.domain.is_none());
}

#[test]
fn domain_options_are_attached_when_given() {
    let o = build(vec![
        ("risk_threshold", text("high")),
        ("confidence_level", float(0.99)),
        ("analysis_threshold", float(0.5)),
        ("significance_level", float(0.05)),
        ("min_sample_size", integer(10)),
        ("enable_outlier_detection", flag(true)),
        ("enable_japanese_numerals", flag(true)),
        ("enable_international_numerals", flag(false)),
        ("enable_parallel_processing", flag(true)),
        ("memory_limit_mb", integer(256)),
    ])
    .unwrap();
    let d = o.domain.unwrap();
    assert_eq!(d.risk_threshold.as_deref(), Some("high"));
    assert_eq!(d.confidence_level, Some(0.99f64.to_bits()));
    assert_eq!(d.analysis_threshold, Some(0.5f64.to_bits()));
    assert_eq!(d.significance_level, Some(0.05f64.to_bits()));
    assert_eq!(d.min_sample_size, Some(10));
    assert_eq!(d.enable_outlier_detection, Some(true));
    assert_eq!(d.enable_japanese_numerals, Some(true));
    assert_eq!(d.enable_international_numerals, Some(false));
    assert_eq!(d.enable_parallel_processing, Some(true));
    assert_eq!(d.memory_limit_mb, Some(256));
}

#[test]
fn mismatched_types_are_skipped() {
    let o = build(vec![
        ("show_details", text("yes")),
        ("batch_size", integer(-5)),
        ("confidence_level", text("high")),
        ("output_format", integer(3)),
        ("ignore_keys_regex", integer(7)),
    ])
    .unwrap();
    assert_eq!(o.generic.show_details, None);
    assert_eq!(o.generic.batch_size, None);
    assert!(o.generic.output_format.is_none());
    assert!(o.generic.ignore_keys_regex.is_none());
    assert!(o.domain.is_none());
}

#[test]
fn integer_counts_as_a_float_option() {
    let o = build(vec![("confidence_level", integer(1))]).unwrap();
    assert_eq!(o.domain.unwrap().confidence_level, Some(1.0f64.to_bits()));
}

#[test]
fn later_keyword_wins() {
    let o = build(vec![("batch_size", integer(1)), ("batch_size", integer(2))]).unwrap();
    assert_eq!(o.generic.batch_size, Some(2));
}

#[test]
fn option_names_are_recognized() {
    assert_eq!(recognize(&"memory_limit_mb".to_string()), Some(OptionKey::MemoryLimitMb));
    assert_eq!(recognize(&"ignore_keys_regex".to_string()), Some(OptionKey::IgnoreKeysRegex));
    assert_eq!(recognize(&"Show_Details".to_string()), None);
    assert_eq!(recognize(&"".to_string()), None);
}
