use haretropanel::forms::{parse_entity_settings_form, parse_usize, settings_from_pairs, DashboardQuery};

#[test]
fn usize_parsing() {
    assert_eq!(parse_usize("0"), Some(0));
    assert_eq!(parse_usize("42"), Some(42));
    assert_eq!(parse_usize("007"), Some(7));
    assert_eq!(parse_usize("+3"), Some(3));
    assert_eq!(parse_usize(""), None);
    assert_eq!(parse_usize("+"), None);
    assert_eq!(parse_usize("-1"), None);
    assert_eq!(parse_usize(" 1"), None);
    assert_eq!(parse_usize("1 "), None);
    assert_eq!(parse_usize("1_000"), None);
    assert_eq!(parse_usize("++1"), None);
    assert_eq!(parse_usize("١"), None);
    let max = usize::MAX.to_string();
    assert_eq!(parse_usize(&max), Some(usize::MAX));
    let over = format!("{}0", usize::MAX);
    assert_eq!(parse_usize(&over), None);
    for s in ["0", "42", "+3", "-1", "", "99999999999999999999999", "12a"] {
        assert_eq!(parse_usize(s), s.parse::<usize>().ok(), "input {:?}", s);
    }
}

#[test]
fn dashboard_query_defaults() {
    let q = DashboardQuery { page: None, force_refresh: None };
    assert_eq!(q.requested_page(), 1);
    assert!(!q.force_refresh_requested());
    let q2 = DashboardQuery { page: Some(4), force_refresh: Some(String::new()) };
    assert_eq!(q2.requested_page(), 4);
    assert!(q2.force_refresh_requested());
}

#[test]
fn settings_form_from_body() {
    let body = b"visible=light.a&page_light.a=2&visible=switch.b&page_switch.b=0&page_sensor.c=abc&page_script.d=%2B3&other=1";
    let s = parse_entity_settings_form(body);
    let vis: Vec<&str> = s.visible_ids.iter().map(|i| i.0.as_str()).collect();
    assert_eq!(vis, vec!["light.a", "switch.b"]);
    assert_eq!(s.page_assignments.get("light.a"), Some(2));
    assert_eq!(s.page_assignments.get("switch.b"), None);
    assert_eq!(s.page_assignments.get("sensor.c"), None);
    assert_eq!(s.page_assignments.get("script.d"), Some(3));
    assert_eq!(s.page_assignments.get("other"), None);
}

#[test]
fn settings_form_decodes_and_later_page_wins() {
    let body = b"visible=light.my+lamp&visible=switch.%C3%A9&page_light.x=1&page_light.x=5";
    let s = parse_entity_settings_form(body);
    let vis: Vec<&str> = s.visible_ids.iter().map(|i| i.0.as_str()).collect();
    assert_eq!(vis, vec!["light.my lamp", "switch.é"]);
    assert_eq!(s.page_assignments.get("light.x"), Some(5));
}

#[test]
fn empty_settings_form() {
    let s = parse_entity_settings_form(b"");
    assert!(s.visible_ids.is_empty());
    assert_eq!(s.page_assignments.get("x"), None);
}

#[test]
fn settings_from_pairs_directly() {
    let pairs = vec![
        ("visible".to_string(), "a".to_string()),
        ("page_".to_string(), "2".to_string()),
        ("page_b".to_string(), "-2".to_string()),
        ("Visible".to_string(), "c".to_string()),
    ];
    let s = settings_from_pairs(&pairs);
    assert_eq!(s.visible_ids.len(), 1);
    assert_eq!(s.visible_ids[0].0, "a");
    assert_eq!(s.page_assignments.get(""), Some(2));
    assert_eq!(s.page_assignments.get("b"), None);
}
