use haretropanel::cache::{DashboardCache, DashboardCacheConfig};
use haretropanel::domain::{DashboardState, Entity, EntityId, EntityKind};

const SEC: u128 = 1_000_000_000;

fn entity(id: &str, kind: EntityKind) -> Entity {
    Entity {
        id: EntityId(id.to_string()),
        name: id.to_string(),
        kind,
        is_on: false,
        value: None,
        brightness: None,
        color_temp_kelvin: None,
        min_color_temp_kelvin: None,
        max_color_temp_kelvin: None,
        rgb_color: None,
    }
}

fn config() -> DashboardCacheConfig {
    DashboardCacheConfig {
        default_ttl_secs: 5,
        light_ttl_secs: Some(2),
        switch_ttl_secs: None,
        sensor_ttl_secs: Some(30),
        climate_ttl_secs: Some(60),
    }
}

#[test]
fn kind_ttl_uses_overrides_or_default() {
    let c = config();
    assert_eq!(c.ttl_secs_for_kind(&EntityKind::Light), 2);
    assert_eq!(c.ttl_secs_for_kind(&EntityKind::Switch), 5);
    assert_eq!(c.ttl_secs_for_kind(&EntityKind::Sensor), 30);
    assert_eq!(c.ttl_secs_for_kind(&EntityKind::Climate), 60);
    assert_eq!(c.ttl_secs_for_kind(&EntityKind::Script), 5);
}

#[test]
fn state_ttl_is_least_of_its_entities() {
    let c = config();
    let s = DashboardState {
        entities: vec![entity("sensor.a", EntityKind::Sensor), entity("climate.b", EntityKind::Climate)],
    };
    assert_eq!(c.ttl_for_state(&s), 30);
    let s2 = DashboardState {
        entities: vec![
            entity("sensor.a", EntityKind::Sensor),
            entity("light.b", EntityKind::Light),
            entity("switch.c", EntityKind::Switch),
        ],
    };
    assert_eq!(c.ttl_for_state(&s2), 2);
}

#[test]
fn empty_state_uses_default_ttl() {
    let c = config();
    assert_eq!(c.ttl_for_state(&DashboardState { entities: vec![] }), 5);
}

#[test]
fn new_cache_misses() {
    let cache = DashboardCache::new(config());
    assert!(cache.lookup(0).is_none());
    assert!(cache.lookup(123 * SEC).is_none());
}

#[test]
fn stored_state_served_until_ttl_passes() {
    let mut cache = DashboardCache::new(config());
    let s = DashboardState { entities: vec![entity("sensor.a", EntityKind::Sensor)] };
    cache.store(s, 100 * SEC);
    assert_eq!(cache.lookup(100 * SEC).unwrap().entities[0].id.0, "sensor.a");
    assert!(cache.lookup(130 * SEC).is_some());
    assert!(cache.lookup(130 * SEC + 1).is_none());
    // A clock reading before the fetch counts as no time elapsed.
    assert!(cache.lookup(50 * SEC).is_some());
}

#[test]
fn invalidated_cache_misses() {
    let mut cache = DashboardCache::new(config());
    cache.store(DashboardState { entities: vec![entity("light.a", EntityKind::Light)] }, 0);
    assert!(cache.lookup(SEC).is_some());
    cache.invalidate();
    assert!(cache.lookup(0).is_none());
    assert!(cache.lookup(SEC).is_none());
}

#[test]
fn store_replaces_previous_state() {
    let mut cache = DashboardCache::new(config());
    cache.store(DashboardState { entities: vec![entity("light.a", EntityKind::Light)] }, 0);
    cache.store(DashboardState { entities: vec![entity("climate.z", EntityKind::Climate)] }, 10 * SEC);
    let got = cache.lookup(60 * SEC).unwrap();
    assert_eq!(got.entities.len(), 1);
    assert_eq!(got.entities[0].id.0, "climate.z");
    assert!(cache.lookup(70 * SEC + 1).is_none());
}

#[test]
fn empty_state_cached_for_default_ttl() {
    let mut cache = DashboardCache::new(config());
    cache.store(DashboardState { entities: vec![] }, 0);
    assert!(cache.lookup(5 * SEC).is_some());
    assert!(cache.lookup(5 * SEC + 1).is_none());
}

#[test]
fn scripts_take_the_default_ttl() {
    let c = DashboardCacheConfig {
        default_ttl_secs: 5,
        light_ttl_secs: None,
        switch_ttl_secs: None,
        sensor_ttl_secs: None,
        climate_ttl_secs: Some(60),
    };
    assert_eq!(c.ttl_secs_for_kind(&EntityKind::Script), 5);
    assert_eq!(c.ttl_secs_for_kind(&EntityKind::Climate), 60);
    let s = DashboardState {
        entities: vec![entity("script.a", EntityKind::Script), entity("climate.b", EntityKind::Climate)],
    };
    assert_eq!(c.ttl_for_state(&s), 5);
}
