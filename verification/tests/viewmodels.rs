use haretropanel::domain::{DashboardState, Entity, EntityId, EntityKind};
use haretropanel::layout::PageMap;
use haretropanel::viewmodels::{
    brightness_pct, rgb_hex, DashboardPageViewModel, EntitiesSettingsPageViewModel, EntityViewModel,
};

fn entity(id: &str, kind: EntityKind) -> Entity {
    Entity {
        id: EntityId(id.to_string()),
        name: format!("{id} name"),
        kind,
        is_on: true,
        value: None,
        brightness: None,
        color_temp_kelvin: None,
        min_color_temp_kelvin: None,
        max_color_temp_kelvin: None,
        rgb_color: None,
    }
}

fn pages(items: &[(&str, usize)]) -> PageMap {
    let mut m = PageMap::new();
    for (k, v) in items {
        m.insert(k.to_string(), *v);
    }
    m
}

fn state() -> DashboardState {
    DashboardState {
        entities: vec![
            entity("light.a", EntityKind::Light),
            entity("switch.b", EntityKind::Switch),
            entity("sensor.c", EntityKind::Sensor),
            entity("script.d", EntityKind::Script),
        ],
    }
}

fn ids(vm: &DashboardPageViewModel) -> Vec<&str> {
    vm.entities.iter().map(|e| e.id.as_str()).collect()
}

#[test]
fn brightness_percent_rounds() {
    assert_eq!(brightness_pct(0), 0);
    assert_eq!(brightness_pct(1), 0);
    assert_eq!(brightness_pct(2), 1);
    assert_eq!(brightness_pct(128), 50);
    assert_eq!(brightness_pct(127), 50);
    assert_eq!(brightness_pct(254), 100);
    assert_eq!(brightness_pct(255), 100);
    let mut last = 0;
    for b in 0..=255u8 {
        let p = brightness_pct(b);
        assert!(p <= 100);
        assert!(p >= last);
        last = p;
    }
}

#[test]
fn card_for_light() {
    let mut e = entity("light.a", EntityKind::Light);
    e.brightness = Some(255);
    let vm = EntityViewModel::from_entity(&e);
    assert_eq!(vm.id, "light.a");
    assert_eq!(vm.name, "light.a name");
    assert_eq!(vm.kind_label, "Light");
    assert!(vm.is_on);
    assert!(!vm.has_value);
    assert_eq!(vm.value, "");
    assert!(vm.can_toggle);
    assert_eq!(vm.brightness_pct, Some(100));
    assert!(!vm.can_run_script);
}

#[test]
fn card_labels_and_capabilities() {
    let mut s = entity("sensor.t", EntityKind::Sensor);
    s.value = Some("21 °C".to_string());
    let vm = EntityViewModel::from_entity(&s);
    assert_eq!(vm.kind_label, "Sensor");
    assert!(vm.has_value);
    assert_eq!(vm.value, "21 °C");
    assert!(!vm.can_toggle);
    let sw = EntityViewModel::from_entity(&entity("switch.x", EntityKind::Switch));
    assert_eq!(sw.kind_label, "Switch");
    assert!(sw.can_toggle);
    let c = EntityViewModel::from_entity(&entity("climate.x", EntityKind::Climate));
    assert_eq!(c.kind_label, "Climate");
    assert!(!c.can_toggle);
    let sc = EntityViewModel::from_entity(&entity("script.x", EntityKind::Script));
    assert_eq!(sc.kind_label, "Script");
    assert!(sc.can_run_script);
    assert!(!sc.can_toggle);
    assert_eq!(sc.brightness_pct, None);
}

#[test]
fn unpaged_dashboard_is_one_page() {
    let vm = DashboardPageViewModel::from_state_and_pages(state(), &PageMap::new(), 3);
    assert_eq!(vm.total_pages, 1);
    assert_eq!(vm.current_page, 1);
    assert_eq!(ids(&vm), vec!["light.a", "switch.b", "sensor.c", "script.d"]);
}

#[test]
fn entities_shown_on_their_page() {
    let p = pages(&[("light.a", 2), ("sensor.c", 3), ("script.d", 0)]);
    let one = DashboardPageViewModel::from_state_and_pages(state(), &p, 1);
    assert_eq!(one.total_pages, 3);
    assert_eq!(one.current_page, 1);
    assert_eq!(ids(&one), vec!["switch.b", "script.d"]);
    let two = DashboardPageViewModel::from_state_and_pages(state(), &p, 2);
    assert_eq!(ids(&two), vec!["light.a"]);
    let three = DashboardPageViewModel::from_state_and_pages(state(), &p, 3);
    assert_eq!(ids(&three), vec!["sensor.c"]);
}

#[test]
fn requested_page_clamped() {
    let p = pages(&[("light.a", 2)]);
    let low = DashboardPageViewModel::from_state_and_pages(state(), &p, 0);
    assert_eq!(low.current_page, 1);
    let high = DashboardPageViewModel::from_state_and_pages(state(), &p, 99);
    assert_eq!(high.current_page, 2);
    assert_eq!(ids(&high), vec!["light.a"]);
}

#[test]
fn empty_page_when_page_has_no_entities() {
    let p = pages(&[("light.a", 3), ("switch.b", 3), ("sensor.c", 3), ("script.d", 3)]);
    let one = DashboardPageViewModel::from_state_and_pages(state(), &p, 1);
    assert_eq!(one.total_pages, 3);
    assert!(one.entities.is_empty());
}

#[test]
fn empty_state_has_one_page() {
    let vm = DashboardPageViewModel::from_state_and_pages(DashboardState { entities: vec![] }, &pages(&[("x", 4)]), 2);
    assert_eq!(vm.total_pages, 1);
    assert_eq!(vm.current_page, 1);
    assert!(vm.entities.is_empty());
}

#[test]
fn settings_rows_mark_selection_and_pages() {
    let selected = vec![EntityId("switch.b".to_string())];
    let p = pages(&[("sensor.c", 4), ("script.d", 0)]);
    let vm = EntitiesSettingsPageViewModel::from_entities(&state(), &selected, &p);
    assert_eq!(vm.entities.len(), 4);
    assert_eq!(vm.entities[0].id, "light.a");
    assert_eq!(vm.entities[0].name, "light.a name");
    assert!(!vm.entities[0].is_selected);
    assert_eq!(vm.entities[0].page, 1);
    assert!(vm.entities[1].is_selected);
    assert_eq!(vm.entities[2].page, 4);
    assert_eq!(vm.entities[3].page, 0);
}

#[test]
fn rgb_hex_text() {
    assert_eq!(rgb_hex([255, 128, 64]), "#ff8040");
    assert_eq!(rgb_hex([0, 0, 0]), "#000000");
    assert_eq!(rgb_hex([1, 171, 239]), "#01abef");
}

#[test]
fn card_colour_support() {
    let mut e = entity("light.a", EntityKind::Light);
    e.color_temp_kelvin = Some(3000);
    e.min_color_temp_kelvin = Some(2200);
    e.max_color_temp_kelvin = Some(6500);
    e.rgb_color = Some([255, 128, 64]);
    let vm = EntityViewModel::from_entity(&e);
    assert!(vm.supports_color_temp);
    assert_eq!(vm.color_temp_kelvin, Some(3000));
    assert_eq!(vm.min_color_temp_kelvin, Some(2200));
    assert_eq!(vm.max_color_temp_kelvin, Some(6500));
    assert!(vm.supports_rgb);
    assert_eq!(vm.rgb_hex, "#ff8040");
    let plain = EntityViewModel::from_entity(&entity("light.b", EntityKind::Light));
    assert!(!plain.supports_color_temp);
    assert!(!plain.supports_rgb);
    assert_eq!(plain.rgb_hex, "");
}

#[test]
fn pages_partition_entities() {
    let p = pages(&[("light.a", 2), ("sensor.c", 3), ("script.d", 0)]);
    let first = DashboardPageViewModel::from_state_and_pages(state(), &p, 1);
    let total = first.total_pages;
    let mut seen: Vec<String> = Vec::new();
    for page in 1..=total {
        let vm = DashboardPageViewModel::from_state_and_pages(state(), &p, page);
        assert_eq!(vm.total_pages, total);
        seen.extend(vm.entities.iter().map(|e| e.id.clone()));
    }
    seen.sort();
    let mut all: Vec<String> = state().entities.iter().map(|e| e.id.0.clone()).collect();
    all.sort();
    assert_eq!(seen, all);
}
