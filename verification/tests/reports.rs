use meili_report::{display_key, format_search, format_settings, underscore_to_space, Value};

fn hit(fields: Vec<(&str, Value)>) -> Vec<(String, Value)> {
    fields.into_iter().map(|(k, v)| (k.to_string(), v)).collect()
}

#[test]
fn absent_hits_is_the_fixed_notice() {
    assert_eq!(format_search(0, None, None), "No results found");
    assert_eq!(format_search(12, None, None), "No results found");
    assert_eq!(format_search(usize::MAX, None, None), "No results found");
}

#[test]
fn empty_hits_is_the_header_alone() {
    assert_eq!(
        format_search(12, None, Some(&vec![])),
        "## Hits: ~0 | Search time: 12\n"
    );
    assert_eq!(
        format_search(0, None, Some(&vec![])),
        "## Hits: ~0 | Search time: 0\n"
    );
}

#[test]
fn one_hit_report() {
    let hits = vec![hit(vec![
        ("id", Value::Str("1".to_string())),
        ("title", Value::Str("Foo".to_string())),
    ])];
    let out = format_search(12, Some(5), Some(&hits));
    assert!(out.starts_with("## Hits: ~5 | Search time: 12\n"));
    let lines: Vec<&str> = out.lines().collect();
    let id_at = lines.iter().position(|l| *l == "id: 1").unwrap();
    let title_at = lines.iter().position(|l| *l == "title: Foo").unwrap();
    let rule_at = lines
        .iter()
        .position(|l| *l == "-------------------------------")
        .unwrap();
    assert!(id_at < title_at && title_at < rule_at);
    assert_eq!(
        out,
        "## Hits: ~5 | Search time: 12\n\nid: 1\ntitle: Foo\n-------------------------------"
    );
}

#[test]
fn each_hit_gets_its_own_separator() {
    let hits = vec![
        hit(vec![("id", Value::Int(1))]),
        hit(vec![("id", Value::Int(2))]),
    ];
    let out = format_search(3, Some(2), Some(&hits));
    assert_eq!(
        out,
        "## Hits: ~2 | Search time: 3\n\nid: 1\n-------------------------------\nid: 2\n-------------------------------"
    );
}

#[test]
fn a_hit_without_fields_still_draws_the_separator() {
    let hits = vec![hit(vec![])];
    let out = format_search(1, None, Some(&hits));
    assert_eq!(
        out,
        "## Hits: ~0 | Search time: 1\n\n-------------------------------"
    );
}

#[test]
fn empty_settings_is_the_title_alone() {
    assert_eq!(
        format_settings("movies", &vec![]),
        "# Settings for movies index\n"
    );
}

#[test]
fn one_setting_block() {
    let results = vec![(
        "searchable_attributes".to_string(),
        Value::Str("title".to_string()),
    )];
    let out = format_settings("movies", &results);
    assert!(out.contains("## Searchable Attributes\ntitle"));
    assert_eq!(
        out,
        "# Settings for movies index\n\n## Searchable Attributes\ntitle\n"
    );
}

#[test]
fn settings_keep_the_callers_order() {
    let results = vec![
        ("max_total_hits".to_string(), Value::Int(1000)),
        ("ranking_rules".to_string(), Value::Null),
    ];
    let out = format_settings("books", &results);
    assert_eq!(
        out,
        "# Settings for books index\n\n## Max Total Hits\n1000\n\n## Ranking Rules\nNone\n"
    );
}

#[test]
fn formatting_is_deterministic() {
    let hits = vec![hit(vec![("id", Value::Int(7))])];
    let a = format_search(9, Some(1), Some(&hits));
    let b = format_search(9, Some(1), Some(&hits));
    assert_eq!(a, b);
    let results = vec![("distinct_attribute".to_string(), Value::Null)];
    let c = format_settings("movies", &results);
    let d = format_settings("movies", &results);
    assert_eq!(c, d);
}

#[test]
fn underscores_become_spaces_then_title_case() {
    assert_eq!(underscore_to_space("max_total_hits"), "max total hits");
    assert_eq!(display_key("max_total_hits"), "Max Total Hits");
}

#[test]
fn display_key_edges() {
    assert_eq!(underscore_to_space(""), "");
    assert_eq!(underscore_to_space("__"), "  ");
    assert_eq!(underscore_to_space("plain"), "plain");
    assert_eq!(display_key("faceting"), "Faceting");
}

#[test]
fn values_render_in_their_host_spelling() {
    assert_eq!(Value::Str("abc".to_string()).render(), "abc");
    assert_eq!(Value::Int(0).render(), "0");
    assert_eq!(Value::Int(42).render(), "42");
    assert_eq!(Value::Int(-5).render(), "-5");
    assert_eq!(Value::Int(i64::MIN).render(), "-9223372036854775808");
    assert_eq!(Value::Int(i64::MAX).render(), "9223372036854775807");
    assert_eq!(Value::Bool(true).render(), "True");
    assert_eq!(Value::Bool(false).render(), "False");
    assert_eq!(Value::Null.render(), "None");
}

#[test]
fn nested_values_render_with_commas() {
    let list = Value::List(vec![Value::Int(1), Value::Str("a".to_string()), Value::Null]);
    assert_eq!(list.render(), "[1, a, None]");
    assert_eq!(Value::List(vec![]).render(), "[]");
    let dict = Value::Dict(vec![
        ("k".to_string(), Value::Int(3)),
        ("l".to_string(), Value::List(vec![Value::Bool(true)])),
    ]);
    assert_eq!(dict.render(), "{k: 3, l: [True]}");
    assert_eq!(Value::Dict(vec![]).render(), "{}");
}

#[test]
fn large_counts_render_in_full() {
    let out = format_search(9007199254740993, Some(1234567890), Some(&vec![]));
    assert_eq!(
        out,
        "## Hits: ~1234567890 | Search time: 9007199254740993\n"
    );
}
