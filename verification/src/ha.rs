//! Turning Home Assistant's state payload into dashboard entities, and the
//! service calls that the dashboard sends back.

use vstd::prelude::*;
use vstd::string::StringSliceAdditionalSpecFns;
use vstd::utf8::encode_utf8;
use crate::domain::{AppError, DashboardState, Entity, EntityId, EntityKind, opt_str_view};
use crate::text::{before_char, concat_str, starts_with, str_eq};

verus! {

/// The attributes of one state object; every field may be absent.
#[derive(Debug)]
pub struct HaAttributes {
    pub friendly_name: Option<String>,
    pub unit_of_measurement: Option<String>,
    pub brightness: Option<u8>,
    pub color_temp_kelvin: Option<u16>,
    pub min_color_temp_kelvin: Option<u16>,
    pub max_color_temp_kelvin: Option<u16>,
    pub rgb_color: Option<[u8; 3]>,
}

impl HaAttributes {
    /// Attributes with every field absent (what a payload without
    /// `attributes` yields).
    pub fn empty() -> (r: Self)
        ensures
            r.friendly_name is None,
            r.unit_of_measurement is None,
            r.brightness is None,
            r.color_temp_kelvin is None,
            r.min_color_temp_kelvin is None,
            r.max_color_temp_kelvin is None,
            r.rgb_color is None,
    {
        HaAttributes {
            friendly_name: None,
            unit_of_measurement: None,
            brightness: None,
            color_temp_kelvin: None,
            min_color_temp_kelvin: None,
            max_color_temp_kelvin: None,
            rgb_color: None,
        }
    }
}

/// One element of the `/api/states` payload.
#[derive(Debug)]
pub struct HaStateResponse {
    pub entity_id: String,
    pub state: String,
    pub attributes: HaAttributes,
}

/// The kind of an entity, decided by the prefix of its id.
pub open spec fn kind_for_id(id: Seq<char>) -> EntityKind {
    if "light."@.is_prefix_of(id) {
        EntityKind::Light
    } else if "switch."@.is_prefix_of(id) {
        EntityKind::Switch
    } else if "climate."@.is_prefix_of(id) {
        EntityKind::Climate
    } else if "script."@.is_prefix_of(id) {
        EntityKind::Script
    } else {
        EntityKind::Sensor
    }
}

/// Whether a state string means "on" for an entity of the given kind.
pub open spec fn state_is_on(kind: EntityKind, state: Seq<char>) -> bool {
    match kind {
        EntityKind::Light | EntityKind::Switch => state == "on"@,
        EntityKind::Climate => state == "heat"@ || state == "cool"@ || state == "heat_cool"@
            || state == "auto"@,
        EntityKind::Sensor => state == "on"@ || state == "open"@ || state == "home"@ || state
            == "above_horizon"@,
        EntityKind::Script => state == "on"@,
    }
}

/// The value text shown for an entity: the state (with its unit, for
/// sensors and climates) or nothing for lights and switches.
pub open spec fn value_text(kind: EntityKind, state: Seq<char>, unit: Option<Seq<char>>) -> Option<
    Seq<char>,
> {
    match kind {
        EntityKind::Sensor | EntityKind::Climate => match unit {
            Some(u) => Some(state + " "@ + u),
            None => Some(state),
        },
        EntityKind::Script => Some(state),
        EntityKind::Light | EntityKind::Switch => None,
    }
}

/// The entity that the dashboard derives from one state object.
pub open spec fn entity_of(ha: HaStateResponse) -> crate::domain::EntityView {
    let kind = kind_for_id(ha.entity_id@);
    crate::domain::EntityView {
        id: ha.entity_id@,
        name: match ha.attributes.friendly_name {
            Some(n) => n@,
            None => ha.entity_id@,
        },
        kind: kind,
        is_on: state_is_on(kind, ha.state@),
        value: value_text(kind, ha.state@, opt_str_view(ha.attributes.unit_of_measurement)),
        brightness: if kind == EntityKind::Light {
            ha.attributes.brightness
        } else {
            None
        },
        color_temp_kelvin: if kind == EntityKind::Light {
            ha.attributes.color_temp_kelvin
        } else {
            None
        },
        min_color_temp_kelvin: if kind == EntityKind::Light {
            ha.attributes.min_color_temp_kelvin
        } else {
            None
        },
        max_color_temp_kelvin: if kind == EntityKind::Light {
            ha.attributes.max_color_temp_kelvin
        } else {
            None
        },
        rgb_color: if kind == EntityKind::Light {
            ha.attributes.rgb_color
        } else {
            None
        },
    }
}

/// Classifies an entity id by its prefix.
pub fn map_entity_kind(entity_id: &str) -> (k: EntityKind)
    ensures
        k == kind_for_id(entity_id@),
{
    if starts_with(entity_id, "light.") {
        EntityKind::Light
    } else if starts_with(entity_id, "switch.") {
        EntityKind::Switch
    } else if starts_with(entity_id, "climate.") {
        EntityKind::Climate
    } else if starts_with(entity_id, "script.") {
        EntityKind::Script
    } else {
        EntityKind::Sensor
    }
}

/// Whether `state` means "on" for an entity of kind `kind`.
pub fn is_on_state(kind: &EntityKind, state: &str) -> (r: bool)
    ensures
        r == state_is_on(*kind, state@),
{
    match kind {
        EntityKind::Light | EntityKind::Switch => str_eq(state, "on"),
        EntityKind::Climate => str_eq(state, "heat") || str_eq(state, "cool") || str_eq(
            state,
            "heat_cool",
        ) || str_eq(state, "auto"),
        EntityKind::Sensor => str_eq(state, "on") || str_eq(state, "open") || str_eq(state, "home")
            || str_eq(state, "above_horizon"),
        EntityKind::Script => str_eq(state, "on"),
    }
}

/// The value text of an entity of kind `kind` in state `state`.
pub fn build_value(kind: &EntityKind, state: &str, ha: &HaStateResponse) -> (r: Option<String>)
    ensures
        opt_str_view(r) == value_text(*kind, state@, opt_str_view(ha.attributes.unit_of_measurement)),
{
    match kind {
        EntityKind::Sensor | EntityKind::Climate => {
            match &ha.attributes.unit_of_measurement {
                Some(unit) => {
                    let with_space = concat_str(state, " ");
                    Some(with_space.concat(unit.as_str()))
                },
                None => Some(state.to_owned()),
            }
        },
        EntityKind::Script => Some(state.to_owned()),
        EntityKind::Light | EntityKind::Switch => None,
    }
}

/// The dashboard entity for one state object.
pub fn build_entity(ha: &HaStateResponse) -> (e: Entity)
    ensures
        e@ == entity_of(*ha),
{
    let kind = map_entity_kind(ha.entity_id.as_str());
    let name = match &ha.attributes.friendly_name {
        Some(n) => n.clone(),
        None => ha.entity_id.clone(),
    };
    let is_on = is_on_state(&kind, ha.state.as_str());
    let value = build_value(&kind, ha.state.as_str(), ha);
    let is_light = match kind {
        EntityKind::Light => true,
        _ => false,
    };
    let brightness = if is_light {
        ha.attributes.brightness
    } else {
        None
    };
    let color_temp_kelvin = if is_light {
        ha.attributes.color_temp_kelvin
    } else {
        None
    };
    let min_color_temp_kelvin = if is_light {
        ha.attributes.min_color_temp_kelvin
    } else {
        None
    };
    let max_color_temp_kelvin = if is_light {
        ha.attributes.max_color_temp_kelvin
    } else {
        None
    };
    let rgb_color = if is_light {
        ha.attributes.rgb_color
    } else {
        None
    };
    Entity {
        id: EntityId(ha.entity_id.clone()),
        name,
        kind,
        is_on,
        value,
        brightness,
        color_temp_kelvin,
        min_color_temp_kelvin,
        max_color_temp_kelvin,
        rgb_color,
    }
}

/// The dashboard state for a whole `/api/states` payload, in its order.
pub fn build_dashboard_state(states: &Vec<HaStateResponse>) -> (r: DashboardState)
    ensures
        r@ == states@.map_values(|h: HaStateResponse| entity_of(h)),
{
    let mut entities: Vec<Entity> = Vec::new();
    let n = states.len();
    for i in 0..n
        invariant
            n == states@.len(),
            entities@.len() == i,
            forall|j: int| 0 <= j < i ==> #[trigger] entities@[j]@ == entity_of(states@[j]),
    {
        entities.push(build_entity(&states[i]));
    }
    let r = DashboardState { entities };
    assert(r@ =~= states@.map_values(|h: HaStateResponse| entity_of(h)));
    r
}

/// How a state object becomes an entity: the id keeps its text, the name
/// falls back to the id, only lights carry a brightness, only lights and
/// switches go without a value, and the kind follows the id's prefix.
pub proof fn law_entity_classification(ha: HaStateResponse)
    ensures
        entity_of(ha).id == ha.entity_id@,
        ha.attributes.friendly_name is None ==> entity_of(ha).name == ha.entity_id@,
        entity_of(ha).brightness is Some ==> entity_of(ha).kind == EntityKind::Light,
        entity_of(ha).kind != EntityKind::Light ==> entity_of(ha).color_temp_kelvin is None
            && entity_of(ha).min_color_temp_kelvin is None && entity_of(ha).max_color_temp_kelvin
            is None && entity_of(ha).rgb_color is None,
        entity_of(ha).kind == EntityKind::Light ==> entity_of(ha).brightness == ha.attributes.brightness
            && entity_of(ha).color_temp_kelvin == ha.attributes.color_temp_kelvin
            && entity_of(ha).min_color_temp_kelvin == ha.attributes.min_color_temp_kelvin
            && entity_of(ha).max_color_temp_kelvin == ha.attributes.max_color_temp_kelvin
            && entity_of(ha).rgb_color == ha.attributes.rgb_color,
        entity_of(ha).value is None <==> (entity_of(ha).kind == EntityKind::Light || entity_of(ha).kind
            == EntityKind::Switch),
        "light."@.is_prefix_of(ha.entity_id@) ==> entity_of(ha).kind == EntityKind::Light,
        "switch."@.is_prefix_of(ha.entity_id@) ==> entity_of(ha).kind == EntityKind::Switch,
        "climate."@.is_prefix_of(ha.entity_id@) ==> entity_of(ha).kind == EntityKind::Climate,
        "script."@.is_prefix_of(ha.entity_id@) ==> entity_of(ha).kind == EntityKind::Script,
        !"light."@.is_prefix_of(ha.entity_id@) && !"switch."@.is_prefix_of(ha.entity_id@)
            && !"climate."@.is_prefix_of(ha.entity_id@) && !"script."@.is_prefix_of(ha.entity_id@)
            ==> entity_of(ha).kind == EntityKind::Sensor,
        ha.attributes.friendly_name matches Some(n) ==> entity_of(ha).name == n@,
        entity_of(ha).is_on == state_is_on(entity_of(ha).kind, ha.state@),
        entity_of(ha).value == value_text(
            entity_of(ha).kind,
            ha.state@,
            opt_str_view(ha.attributes.unit_of_measurement),
        ),
{
    reveal_strlit("light.");
    reveal_strlit("switch.");
    reveal_strlit("climate.");
    reveal_strlit("script.");
    let id = ha.entity_id@;
    if "switch."@.is_prefix_of(id) {
        assert(id[0] == "switch."@[0]);
    }
    if "climate."@.is_prefix_of(id) {
        assert(id[0] == "climate."@[0]);
        assert(id[1] == "climate."@[1]);
    }
    if "script."@.is_prefix_of(id) {
        assert(id[0] == "script."@[0]);
        assert(id[1] == "script."@[1]);
    }
}

/// Whether a text holds an ASCII decimal digit.
pub open spec fn has_decimal_digit(s: Seq<char>) -> bool {
    exists|i: int| 0 <= i < s.len() && '0' <= #[trigger] s[i] && s[i] <= '9'
}

/// A literal without decimal digits holds none.
proof fn lemma_no_digit(lit: Seq<char>, s: Seq<char>)
    requires
        s == lit,
        forall|i: int| 0 <= i < lit.len() ==> !('0' <= #[trigger] lit[i] && lit[i] <= '9'),
    ensures
        !has_decimal_digit(s),
{
}

/// Which states mean "on": lights, switches and scripts only in state
/// `on`; climates when heating, cooling, heat-cooling or on `auto`; sensors
/// when `on`, `open`, `home` or `above_horizon`. No state holding a decimal
/// digit (such as a reading `21.5`) is ever "on", whatever the kind.
pub proof fn law_on_states(kind: EntityKind, s: Seq<char>)
    ensures
        state_is_on(EntityKind::Light, s) <==> s == "on"@,
        state_is_on(EntityKind::Switch, s) <==> s == "on"@,
        state_is_on(EntityKind::Script, s) <==> s == "on"@,
        state_is_on(EntityKind::Climate, s) <==> (s == "heat"@ || s == "cool"@ || s == "heat_cool"@
            || s == "auto"@),
        state_is_on(EntityKind::Sensor, s) <==> (s == "on"@ || s == "open"@ || s == "home"@ || s
            == "above_horizon"@),
        has_decimal_digit(s) ==> !state_is_on(kind, s),
{
    if state_is_on(kind, s) {
        reveal_strlit("on");
        reveal_strlit("open");
        reveal_strlit("home");
        reveal_strlit("above_horizon");
        reveal_strlit("heat");
        reveal_strlit("cool");
        reveal_strlit("heat_cool");
        reveal_strlit("auto");
        if s == "on"@ {
            lemma_no_digit("on"@, s);
        } else if s == "open"@ {
            lemma_no_digit("open"@, s);
        } else if s == "home"@ {
            lemma_no_digit("home"@, s);
        } else if s == "above_horizon"@ {
            lemma_no_digit("above_horizon"@, s);
        } else if s == "heat"@ {
            lemma_no_digit("heat"@, s);
        } else if s == "cool"@ {
            lemma_no_digit("cool"@, s);
        } else if s == "heat_cool"@ {
            lemma_no_digit("heat_cool"@, s);
        } else {
            lemma_no_digit("auto"@, s);
        }
    }
}

/// The value text of an entity: sensors and climates show their state,
/// followed by a space and the unit when there is one; scripts show their
/// bare state; lights and switches show nothing.
pub proof fn law_value_text(kind: EntityKind, state: Seq<char>, unit: Option<Seq<char>>)
    ensures
        value_text(kind, state, unit) is None <==> (kind == EntityKind::Light || kind
            == EntityKind::Switch),
        kind == EntityKind::Script ==> value_text(kind, state, unit) == Some(state),
        (kind == EntityKind::Sensor || kind == EntityKind::Climate) && unit is None ==> value_text(
            kind,
            state,
            unit,
        ) == Some(state),
        (kind == EntityKind::Sensor || kind == EntityKind::Climate) && unit is Some ==> value_text(
            kind,
            state,
            unit,
        ) == Some(state + seq![' '] + unit->0),
{
    reveal_strlit(" ");
    assert(" "@ =~= seq![' ']);
}

#[verifier::external_type_specification]
#[verifier::external_body]
pub struct ExHeaderValue(reqwest::header::HeaderValue);

#[verifier::external_type_specification]
#[verifier::external_body]
pub struct ExInvalidHeaderValue(reqwest::header::InvalidHeaderValue);

/// Whether a byte may stand in an HTTP header value: visible ASCII, space,
/// tab, or any byte of 128 and above.
pub open spec fn header_byte_ok(b: u8) -> bool {
    (b >= 32 && b != 127) || b == 9
}

/// Whether every byte may stand in an HTTP header value.
pub open spec fn header_bytes_ok(bytes: Seq<u8>) -> bool {
    forall|i: int| 0 <= i < bytes.len() ==> header_byte_ok(#[trigger] bytes[i])
}

/// Calls `HeaderValue::from_str`, which accepts the text exactly when each of
/// its UTF-8 bytes passes `header_byte_ok`; what the accepted value holds
/// is not stated here.
#[verifier::external_body]
fn header_value_from_str(s: &str) -> (r: Result<reqwest::header::HeaderValue, reqwest::header::InvalidHeaderValue>)
    ensures
        r is Ok <==> header_bytes_ok(s.spec_bytes()),
{
    reqwest::header::HeaderValue::from_str(s)
}

/// The `Authorization` header text for a Home Assistant token.
pub open spec fn bearer_text(token: Seq<char>) -> Seq<char> {
    "Bearer "@ + token
}

/// The `Authorization` header value for the configured token: an error when
/// the token is missing or cannot stand in a header.
pub fn authorization_value(token: &Option<String>) -> (r: Result<String, AppError>)
    ensures
        match *token {
            None => r matches Err(e) && e.message() == "Missing Home Assistant token (HA_TOKEN)"@,
            Some(t) => if header_bytes_ok(encode_utf8(bearer_text(t@))) {
                r matches Ok(v) && v@ == bearer_text(t@)
            } else {
                r matches Err(e) && e.message() == "Invalid Home Assistant token"@
            },
        },
{
    match token {
        None => Err(AppError::Internal("Missing Home Assistant token (HA_TOKEN)".to_owned())),
        Some(t) => {
            let value = concat_str("Bearer ", t.as_str());
            match header_value_from_str(value.as_str()) {
                Ok(_) => Ok(value),
                Err(_) => Err(AppError::Internal("Invalid Home Assistant token".to_owned())),
            }
        },
    }
}

/// A Home Assistant service call: `POST api/services/{domain}/{service}`
/// with the entity id and, where the service takes one, a brightness
/// percentage, a colour temperature or an RGB colour in the body.
#[derive(Debug)]
pub struct ServiceCall {
    pub domain: String,
    pub service: String,
    pub entity_id: String,
    pub brightness_pct: Option<u8>,
    pub color_temp_kelvin: Option<u32>,
    pub rgb_color: Option<(u8, u8, u8)>,
}

/// The request path of a call to `service` in `domain`.
pub open spec fn service_path(domain: Seq<char>, service: Seq<char>) -> Seq<char> {
    "api/services/"@ + domain + "/"@ + service
}

impl ServiceCall {
    /// The body carries nothing but the entity id.
    pub open spec fn only_entity(&self) -> bool {
        &&& self.brightness_pct is None
        &&& self.color_temp_kelvin is None
        &&& self.rgb_color is None
    }

    /// The request path of the call.
    pub fn path(&self) -> (r: String)
        ensures
            r@ == service_path(self.domain@, self.service@),
    {
        let a = concat_str("api/services/", self.domain.as_str());
        let b = a.concat("/");
        b.concat(self.service.as_str())
    }
}

/// `d` is the part of `id` before its first `.` (all of `id` without one).
pub open spec fn is_domain_of(d: Seq<char>, id: Seq<char>) -> bool {
    &&& d.is_prefix_of(id)
    &&& !d.contains('.')
    &&& d.len() < id.len() ==> id[d.len() as int] == '.'
}

/// The error for an empty entity id.
fn empty_id_error() -> (e: AppError)
    ensures
        e.message() == "entity_id must not be empty"@,
{
    AppError::Internal("entity_id must not be empty".to_owned())
}

/// The call that toggles an entity: the `toggle` service of the entity's
/// own domain; refused for an empty id.
pub fn toggle_call(entity_id: &EntityId) -> (r: Result<ServiceCall, AppError>)
    ensures
        entity_id@.len() == 0 ==> (r matches Err(e) && e.message() == "entity_id must not be empty"@),
        entity_id@.len() > 0 ==> (r matches Ok(c) && is_domain_of(c.domain@, entity_id@)
            && c.service@ == "toggle"@ && c.entity_id@ == entity_id@ && c.only_entity()),
{
    if entity_id.as_str().unicode_len() == 0 {
        return Err(empty_id_error());
    }
    let domain = before_char(entity_id.as_str(), '.');
    Ok(
        ServiceCall {
            domain: domain.to_owned(),
            service: "toggle".to_owned(),
            entity_id: entity_id.to_string(),
            brightness_pct: None,
            color_temp_kelvin: None,
            rgb_color: None,
        },
    )
}

/// The call that sets a light's brightness; refused for ids outside the
/// `light.` domain and for percentages above 100.
pub fn brightness_call(entity_id: &EntityId, brightness_pct: u8) -> (r: Result<ServiceCall, AppError>)
    ensures
        !"light."@.is_prefix_of(entity_id@) ==> (r matches Err(e) && e.message()
            == "set_brightness called with non-light entity_id: "@ + entity_id@),
        "light."@.is_prefix_of(entity_id@) && brightness_pct > 100 ==> (r matches Err(e)
            && e.message() == "brightness_pct must be between 0 and 100"@),
        "light."@.is_prefix_of(entity_id@) && brightness_pct <= 100 ==> (r matches Ok(c)
            && c.domain@ == "light"@ && c.service@ == "turn_on"@ && c.entity_id@ == entity_id@
            && c.brightness_pct == Some(brightness_pct) && c.color_temp_kelvin is None
            && c.rgb_color is None),
{
    if !starts_with(entity_id.as_str(), "light.") {
        return Err(
            AppError::Internal(
                concat_str("set_brightness called with non-light entity_id: ", entity_id.as_str()),
            ),
        );
    }
    if brightness_pct > 100 {
        return Err(AppError::Internal("brightness_pct must be between 0 and 100".to_owned()));
    }
    Ok(
        ServiceCall {
            domain: "light".to_owned(),
            service: "turn_on".to_owned(),
            entity_id: entity_id.to_string(),
            brightness_pct: Some(brightness_pct),
            color_temp_kelvin: None,
            rgb_color: None,
        },
    )
}

/// The call that sets a light's colour temperature; refused for ids outside
/// the `light.` domain and for a temperature of 0.
pub fn color_temp_call(entity_id: &EntityId, color_temp_kelvin: u32) -> (r: Result<ServiceCall, AppError>)
    ensures
        !"light."@.is_prefix_of(entity_id@) ==> (r matches Err(e) && e.message()
            == "set_color_temp called with non-light entity_id: "@ + entity_id@),
        "light."@.is_prefix_of(entity_id@) && color_temp_kelvin == 0 ==> (r matches Err(e)
            && e.message() == "color_temp_kelvin must be a positive integer"@),
        "light."@.is_prefix_of(entity_id@) && color_temp_kelvin > 0 ==> (r matches Ok(c)
            && c.domain@ == "light"@ && c.service@ == "turn_on"@ && c.entity_id@ == entity_id@
            && c.color_temp_kelvin == Some(color_temp_kelvin) && c.brightness_pct is None
            && c.rgb_color is None),
{
    if !starts_with(entity_id.as_str(), "light.") {
        return Err(
            AppError::Internal(
                concat_str("set_color_temp called with non-light entity_id: ", entity_id.as_str()),
            ),
        );
    }
    if color_temp_kelvin == 0 {
        return Err(AppError::Internal("color_temp_kelvin must be a positive integer".to_owned()));
    }
    Ok(
        ServiceCall {
            domain: "light".to_owned(),
            service: "turn_on".to_owned(),
            entity_id: entity_id.to_string(),
            brightness_pct: None,
            color_temp_kelvin: Some(color_temp_kelvin),
            rgb_color: None,
        },
    )
}

/// The value of a hexadecimal digit (either case).
pub open spec fn hex_value(c: char) -> Option<u8> {
    if '0' <= c && c <= '9' {
        Some(((c as int) - ('0' as int)) as u8)
    } else if 'a' <= c && c <= 'f' {
        Some(((c as int) - ('a' as int) + 10) as u8)
    } else if 'A' <= c && c <= 'F' {
        Some(((c as int) - ('A' as int) + 10) as u8)
    } else {
        None
    }
}

/// Whether `c` is a hexadecimal digit (either case).
pub open spec fn is_hex_char(c: char) -> bool {
    ('0' <= c && c <= '9') || ('a' <= c && c <= 'f') || ('A' <= c && c <= 'F')
}

/// Every hexadecimal digit has its usual value below 16 (`0`–`9` are 0 to
/// 9, `a`–`f` and `A`–`F` are 10 to 15), and nothing else is a digit.
pub proof fn law_hex_digits(c: char)
    ensures
        '0' <= c && c <= '9' ==> hex_value(c) == Some(((c as int) - ('0' as int)) as u8),
        'a' <= c && c <= 'f' ==> hex_value(c) == Some(((c as int) - ('a' as int) + 10) as u8),
        'A' <= c && c <= 'F' ==> hex_value(c) == Some(((c as int) - ('A' as int) + 10) as u8),
        hex_value(c) is Some <==> is_hex_char(c),
        hex_value(c) matches Some(v) ==> v < 16,
{
}

/// The byte written by two hexadecimal digits.
pub open spec fn hex_byte(hi: char, lo: char) -> Option<u8> {
    match (hex_value(hi), hex_value(lo)) {
        (Some(a), Some(b)) => Some((a * 16 + b) as u8),
        _ => None,
    }
}

/// The colour written as `#rrggbb`, if the text is exactly that.
pub open spec fn parsed_hex_color(s: Seq<char>) -> Option<(u8, u8, u8)> {
    if s.len() == 7 && s[0] == '#' && hex_byte(s[1], s[2]) is Some && hex_byte(s[3], s[4]) is Some
        && hex_byte(s[5], s[6]) is Some {
        Some((hex_byte(s[1], s[2])->0, hex_byte(s[3], s[4])->0, hex_byte(s[5], s[6])->0))
    } else {
        None
    }
}

/// The value of one hexadecimal digit.
fn hex_digit_value(c: char) -> (r: Option<u8>)
    ensures
        r == hex_value(c),
{
    if '0' <= c && c <= '9' {
        Some(((c as u32) - ('0' as u32)) as u8)
    } else if 'a' <= c && c <= 'f' {
        Some(((c as u32) - ('a' as u32) + 10) as u8)
    } else if 'A' <= c && c <= 'F' {
        Some(((c as u32) - ('A' as u32) + 10) as u8)
    } else {
        None
    }
}

/// The byte written by two hexadecimal digits.
fn hex_pair_value(hi: char, lo: char) -> (r: Option<u8>)
    ensures
        r == hex_byte(hi, lo),
{
    match (hex_digit_value(hi), hex_digit_value(lo)) {
        (Some(a), Some(b)) => Some(a * 16 + b),
        _ => None,
    }
}

/// A text is a colour exactly when it is `#` followed by six hexadecimal
/// digits (either case), each channel being the two digits' value.
pub proof fn law_hex_color_parses(s: Seq<char>)
    ensures
        parsed_hex_color(s) is Some <==> (s.len() == 7 && s[0] == '#' && forall|i: int|
            1 <= i < 7 ==> is_hex_char(#[trigger] s[i])),
        parsed_hex_color(s) matches Some((r, g, b)) ==> r == hex_value(s[1])->0 * 16 + hex_value(
            s[2],
        )->0 && g == hex_value(s[3])->0 * 16 + hex_value(s[4])->0 && b == hex_value(s[5])->0 * 16
            + hex_value(s[6])->0,
{
    if s.len() == 7 && s[0] == '#' {
        law_hex_digits(s[1]);
        law_hex_digits(s[2]);
        law_hex_digits(s[3]);
        law_hex_digits(s[4]);
        law_hex_digits(s[5]);
        law_hex_digits(s[6]);
        if forall|i: int| 1 <= i < 7 ==> is_hex_char(#[trigger] s[i]) {
            assert(is_hex_char(s[1]) && is_hex_char(s[2]) && is_hex_char(s[3]));
            assert(is_hex_char(s[4]) && is_hex_char(s[5]) && is_hex_char(s[6]));
        }
        if parsed_hex_color(s) is Some {
            assert forall|i: int| 1 <= i < 7 implies is_hex_char(#[trigger] s[i]) by {
                law_hex_digits(s[i]);
            }
        }
    }
}

/// Reads a colour written `#rrggbb` (hexadecimal digits of either case).
pub fn parse_hex_color(s: &str) -> (r: Option<(u8, u8, u8)>)
    ensures
        r == parsed_hex_color(s@),
{
    if s.unicode_len() != 7 || s.get_char(0) != '#' {
        return None;
    }
    let r = hex_pair_value(s.get_char(1), s.get_char(2));
    let g = hex_pair_value(s.get_char(3), s.get_char(4));
    let b = hex_pair_value(s.get_char(5), s.get_char(6));
    match (r, g, b) {
        (Some(r), Some(g), Some(b)) => Some((r, g, b)),
        _ => None,
    }
}

/// The call that sets a light's RGB colour from a `#rrggbb` text; refused
/// for ids outside the `light.` domain and for other texts.
pub fn color_call(entity_id: &EntityId, color: &str) -> (r: Result<ServiceCall, AppError>)
    ensures
        !"light."@.is_prefix_of(entity_id@) ==> (r matches Err(e) && e.message()
            == "set_color called with non-light entity_id: "@ + entity_id@),
        "light."@.is_prefix_of(entity_id@) && parsed_hex_color(color@) is None ==> (r matches Err(
            e,
        ) && e.message() == "Invalid color: expected #rrggbb"@),
        "light."@.is_prefix_of(entity_id@) && parsed_hex_color(color@) is Some ==> (r matches Ok(c)
            && c.domain@ == "light"@ && c.service@ == "turn_on"@ && c.entity_id@ == entity_id@
            && c.rgb_color == parsed_hex_color(color@) && c.brightness_pct is None
            && c.color_temp_kelvin is None),
{
    if !starts_with(entity_id.as_str(), "light.") {
        return Err(
            AppError::Internal(
                concat_str("set_color called with non-light entity_id: ", entity_id.as_str()),
            ),
        );
    }
    match parse_hex_color(color) {
        None => Err(AppError::Internal("Invalid color: expected #rrggbb".to_owned())),
        Some(rgb) => Ok(
            ServiceCall {
                domain: "light".to_owned(),
                service: "turn_on".to_owned(),
                entity_id: entity_id.to_string(),
                brightness_pct: None,
                color_temp_kelvin: None,
                rgb_color: Some(rgb),
            },
        ),
    }
}

/// The call that runs a script; refused for ids outside the `script.`
/// domain.
pub fn run_script_call(entity_id: &EntityId) -> (r: Result<ServiceCall, AppError>)
    ensures
        "script."@.is_prefix_of(entity_id@) ==> (r matches Ok(c) && c.domain@ == "script"@
            && c.service@ == "turn_on"@ && c.entity_id@ == entity_id@ && c.only_entity()),
        !"script."@.is_prefix_of(entity_id@) ==> (r matches Err(e) && e.message()
            == "run_script called with non-script entity_id: "@ + entity_id@),
{
    if !starts_with(entity_id.as_str(), "script.") {
        return Err(
            AppError::Internal(
                concat_str("run_script called with non-script entity_id: ", entity_id.as_str()),
            ),
        );
    }
    Ok(
        ServiceCall {
            domain: "script".to_owned(),
            service: "turn_on".to_owned(),
            entity_id: entity_id.to_string(),
            brightness_pct: None,
            color_temp_kelvin: None,
            rgb_color: None,
        },
    )
}

#[verifier::external_type_specification]
#[verifier::external_body]
pub struct ExUrlParseError(url::ParseError);

/// The text of the URL that `base` parses to, with its path replaced by
/// `path`, when `base` is a valid absolute URL.
pub uninterp spec fn url_with_path(base: Seq<char>, path: Seq<char>) -> Option<Seq<char>>;

/// Calls `url::Url::parse` on `base`, then `set_path` with `path`, and gives
/// the URL's text; it fails exactly when the parse fails.
#[verifier::external_body]
fn url_join_path(base: &str, path: &str) -> (r: Result<String, url::ParseError>)
    ensures
        r is Ok <==> url_with_path(base@, path@) is Some,
        r matches Ok(u) ==> Some(u@) == url_with_path(base@, path@),
{
    let mut url = url::Url::parse(base)?;
    url.set_path(path);
    Ok(url.to_string())
}

/// Calls `Display` of `url::ParseError`; nothing is stated of the text.
#[verifier::external_body]
fn url_parse_error_text(e: &url::ParseError) -> String {
    e.to_string()
}

/// The URL at `path` under the configured Home Assistant base URL; an error
/// starting `Invalid HA_BASE_URL: ` when the base URL does not parse.
pub fn url_at(base_url: &str, path: &str) -> (r: Result<String, AppError>)
    ensures
        match url_with_path(base_url@, path@) {
            Some(u) => r matches Ok(s) && s@ == u,
            None => r matches Err(e) && "Invalid HA_BASE_URL: "@.is_prefix_of(e.message()),
        },
{
    match url_join_path(base_url, path) {
        Ok(u) => Ok(u),
        Err(e) => {
            let text = url_parse_error_text(&e);
            let msg = concat_str("Invalid HA_BASE_URL: ", text.as_str());
            Err(AppError::Internal(msg))
        },
    }
}

/// The URL of a service call.
pub fn service_url(base_url: &str, call: &ServiceCall) -> (r: Result<String, AppError>)
    ensures
        match url_with_path(base_url@, service_path(call.domain@, call.service@)) {
            Some(u) => r matches Ok(s) && s@ == u,
            None => r matches Err(e) && "Invalid HA_BASE_URL: "@.is_prefix_of(e.message()),
        },
{
    let path = call.path();
    url_at(base_url, path.as_str())
}

/// The URL of the state list.
pub fn states_url(base_url: &str) -> (r: Result<String, AppError>)
    ensures
        match url_with_path(base_url@, "api/states"@) {
            Some(u) => r matches Ok(s) && s@ == u,
            None => r matches Err(e) && "Invalid HA_BASE_URL: "@.is_prefix_of(e.message()),
        },
{
    url_at(base_url, "api/states")
}

/// Whether an HTTP status code means success (200 to 299).
pub fn is_success_status(code: u16) -> (r: bool)
    ensures
        r == (200 <= code && code < 300),
{
    200 <= code && code < 300
}

} // verus!
