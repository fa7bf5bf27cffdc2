use haretropanel::dashboard::{contains_id, visible_dashboard};
use haretropanel::domain::{DashboardState, Entity, EntityId, EntityKind};

fn entity(id: &str) -> Entity {
    Entity {
        id: EntityId(id.to_string()),
        name: id.to_string(),
        kind: EntityKind::Sensor,
        is_on: false,
        value: Some("1".to_string()),
        brightness: None,
        color_temp_kelvin: None,
        min_color_temp_kelvin: None,
        max_color_temp_kelvin: None,
        rgb_color: None,
    }
}

fn all() -> DashboardState {
    DashboardState { entities: vec![entity("sensor.a"), entity("light.b"), entity("switch.c")] }
}

fn ids(v: &[&str]) -> Vec<EntityId> {
    v.iter().map(|s| EntityId(s.to_string())).collect()
}

#[test]
fn no_selection_shows_everything() {
    let d = visible_dashboard(all(), &vec![]);
    assert_eq!(d.entities.len(), 3);
}

#[test]
fn selection_keeps_state_order() {
    let d = visible_dashboard(all(), &ids(&["switch.c", "sensor.a"]));
    let got: Vec<&str> = d.entities.iter().map(|e| e.id.0.as_str()).collect();
    assert_eq!(got, vec!["sensor.a", "switch.c"]);
}

#[test]
fn selection_of_unknown_ids_shows_nothing() {
    let d = visible_dashboard(all(), &ids(&["climate.z"]));
    assert!(d.entities.is_empty());
}

#[test]
fn membership_is_exact() {
    let v = ids(&["light.b"]);
    assert!(contains_id(&v, "light.b"));
    assert!(!contains_id(&v, "light.bb"));
    assert!(!contains_id(&v, "light."));
}
