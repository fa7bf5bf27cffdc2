use haretropanel::domain::{AppError, EntityId};
use haretropanel::layout::{decode_layout, FsDashboardLayoutRepository, LayoutJson, PageMap};

fn pages(items: &[(&str, usize)]) -> PageMap {
    let mut m = PageMap::new();
    for (k, v) in items {
        m.insert(k.to_string(), *v);
    }
    m
}

#[test]
fn page_map_later_assignment_wins() {
    let m = pages(&[("light.a", 2), ("switch.b", 3), ("light.a", 4)]);
    assert_eq!(m.get("light.a"), Some(4));
    assert_eq!(m.get("switch.b"), Some(3));
    assert_eq!(m.get("sensor.c"), None);
    assert_eq!(PageMap::new().get("light.a"), None);
}

#[test]
fn repository_keeps_its_path() {
    let r = FsDashboardLayoutRepository::new("./data/dashboard_layout.json");
    assert_eq!(r.path(), "./data/dashboard_layout.json");
}

#[test]
fn decode_prefers_current_format() {
    let l = LayoutJson {
        visible: vec!["light.a".to_string()],
        entity_pages: pages(&[("light.a", 2)]),
        entity_order: PageMap::new(),
    };
    let d = decode_layout(Some(l), b"[\"ignored\"]").unwrap();
    assert_eq!(d.visible, vec!["light.a".to_string()]);
    assert_eq!(d.entity_pages.get("light.a"), Some(2));
}

#[test]
fn decode_accepts_plain_id_list() {
    let d = decode_layout(None, b"[\"light.a\", \"switch.b\"]").unwrap();
    assert_eq!(d.visible, vec!["light.a".to_string(), "switch.b".to_string()]);
    assert_eq!(d.entity_pages.get("light.a"), None);
    assert_eq!(d.entity_order.get("light.a"), None);
    let e = decode_layout(None, b"[]").unwrap();
    assert!(e.visible.is_empty());
}

#[test]
fn decode_refuses_other_json() {
    for bad in [&b"{\"visible\": 3}"[..], &b"not json"[..], &b"[1, 2]"[..], &b""[..]] {
        match decode_layout(None, bad) {
            Err(AppError::Internal(m)) => assert_eq!(m, "Failed to parse dashboard layout JSON"),
            Ok(_) => panic!("{:?} must be refused", bad),
        }
    }
}

#[test]
fn visible_read_after_write() {
    let l = LayoutJson::empty().with_entity_pages(pages(&[("light.a", 3)]));
    let ids = vec![EntityId("switch.b".to_string()), EntityId("light.a".to_string())];
    let l2 = l.with_visible_entities(ids);
    let read: Vec<String> = l2.visible_entities().into_iter().map(|i| i.0).collect();
    assert_eq!(read, vec!["switch.b".to_string(), "light.a".to_string()]);
    assert_eq!(l2.entity_pages().get("light.a"), Some(3));
}

#[test]
fn stored_pages_raised_to_one() {
    let l = LayoutJson::empty()
        .with_visible_entities(vec![EntityId("light.a".to_string())])
        .with_entity_pages(pages(&[("light.a", 0), ("switch.b", 2)]));
    let p = l.entity_pages();
    assert_eq!(p.get("light.a"), Some(1));
    assert_eq!(p.get("switch.b"), Some(2));
    assert_eq!(l.visible, vec!["light.a".to_string()]);
}

#[test]
fn stored_order_raised_to_one() {
    let l = LayoutJson::empty().with_entity_order(pages(&[("a", 0), ("b", 7)]));
    let o = l.entity_order();
    assert_eq!(o.get("a"), Some(1));
    assert_eq!(o.get("b"), Some(7));
    assert_eq!(l.entity_pages().get("a"), None);
}

#[test]
fn empty_layout_has_nothing() {
    let l = LayoutJson::empty();
    assert!(l.visible_entities().is_empty());
    assert_eq!(l.entity_pages().get("x"), None);
}

#[test]
fn storing_what_was_read_changes_nothing() {
    let l = LayoutJson::empty().with_entity_pages(pages(&[("a", 0), ("b", 2)]));
    let read = l.entity_pages();
    let again = l.with_entity_pages(read);
    assert_eq!(again.entity_pages().get("a"), Some(1));
    assert_eq!(again.entity_pages().get("b"), Some(2));
}

#[test]
fn writes_commute() {
    let ids = || vec![EntityId("x".to_string())];
    let one = LayoutJson::empty().with_visible_entities(ids()).with_entity_pages(pages(&[("x", 4)]));
    let two = LayoutJson::empty().with_entity_pages(pages(&[("x", 4)])).with_visible_entities(ids());
    assert_eq!(one.visible, two.visible);
    assert_eq!(one.entity_pages().get("x"), two.entity_pages().get("x"));
}
