//! What the dashboard and settings pages display: per-entity view models,
//! the paging of the dashboard, and the rows of the settings page.

use vstd::prelude::*;
use crate::domain::{DashboardState, Entity, EntityId, EntityKind, EntityView, id_views};
use crate::layout::PageMap;
use crate::dashboard::contains_id;

verus! {

/// One entity card on the dashboard.
#[derive(Debug)]
pub struct EntityViewModel {
    pub id: String,
    pub name: String,
    pub kind_label: String,
    pub is_on: bool,
    pub has_value: bool,
    pub value: String,
    pub can_toggle: bool,
    pub brightness_pct: Option<u8>,
    pub supports_color_temp: bool,
    pub color_temp_kelvin: Option<u16>,
    pub min_color_temp_kelvin: Option<u16>,
    pub max_color_temp_kelvin: Option<u16>,
    pub supports_rgb: bool,
    pub rgb_hex: String,
    pub can_run_script: bool,
}

/// The mathematical content of an [`EntityViewModel`].
pub struct EntityCard {
    pub id: Seq<char>,
    pub name: Seq<char>,
    pub kind_label: Seq<char>,
    pub is_on: bool,
    pub has_value: bool,
    pub value: Seq<char>,
    pub can_toggle: bool,
    pub brightness_pct: Option<u8>,
    pub supports_color_temp: bool,
    pub color_temp_kelvin: Option<u16>,
    pub min_color_temp_kelvin: Option<u16>,
    pub max_color_temp_kelvin: Option<u16>,
    pub supports_rgb: bool,
    pub rgb_hex: Seq<char>,
    pub can_run_script: bool,
}

impl View for EntityViewModel {
    type V = EntityCard;

    open spec fn view(&self) -> EntityCard {
        EntityCard {
            id: self.id@,
            name: self.name@,
            kind_label: self.kind_label@,
            is_on: self.is_on,
            has_value: self.has_value,
            value: self.value@,
            can_toggle: self.can_toggle,
            brightness_pct: self.brightness_pct,
            supports_color_temp: self.supports_color_temp,
            color_temp_kelvin: self.color_temp_kelvin,
            min_color_temp_kelvin: self.min_color_temp_kelvin,
            max_color_temp_kelvin: self.max_color_temp_kelvin,
            supports_rgb: self.supports_rgb,
            rgb_hex: self.rgb_hex@,
            can_run_script: self.can_run_script,
        }
    }
}

/// The lowercase hexadecimal digit of `n` (below 16).
pub open spec fn hex_char(n: u8) -> char {
    match n {
        0 => '0',
        1 => '1',
        2 => '2',
        3 => '3',
        4 => '4',
        5 => '5',
        6 => '6',
        7 => '7',
        8 => '8',
        9 => '9',
        10 => 'a',
        11 => 'b',
        12 => 'c',
        13 => 'd',
        14 => 'e',
        _ => 'f',
    }
}

/// The two lowercase hexadecimal digits of a byte.
pub open spec fn hex2(b: u8) -> Seq<char> {
    seq![hex_char(b / 16), hex_char(b % 16)]
}

/// A colour as `#rrggbb` in lowercase hexadecimal.
pub open spec fn rgb_hex_text(c: [u8; 3]) -> Seq<char> {
    "#"@ + hex2(c[0]) + hex2(c[1]) + hex2(c[2])
}

/// The hexadecimal digit of `n` as text.
fn hex_digit_str(n: u8) -> (r: &'static str)
    requires
        n < 16,
    ensures
        r@ =~= seq![hex_char(n)],
{
    match n {
        0 => {
            proof {
                reveal_strlit("0");
            }
            "0"
        },
        1 => {
            proof {
                reveal_strlit("1");
            }
            "1"
        },
        2 => {
            proof {
                reveal_strlit("2");
            }
            "2"
        },
        3 => {
            proof {
                reveal_strlit("3");
            }
            "3"
        },
        4 => {
            proof {
                reveal_strlit("4");
            }
            "4"
        },
        5 => {
            proof {
                reveal_strlit("5");
            }
            "5"
        },
        6 => {
            proof {
                reveal_strlit("6");
            }
            "6"
        },
        7 => {
            proof {
                reveal_strlit("7");
            }
            "7"
        },
        8 => {
            proof {
                reveal_strlit("8");
            }
            "8"
        },
        9 => {
            proof {
                reveal_strlit("9");
            }
            "9"
        },
        10 => {
            proof {
                reveal_strlit("a");
            }
            "a"
        },
        11 => {
            proof {
                reveal_strlit("b");
            }
            "b"
        },
        12 => {
            proof {
                reveal_strlit("c");
            }
            "c"
        },
        13 => {
            proof {
                reveal_strlit("d");
            }
            "d"
        },
        14 => {
            proof {
                reveal_strlit("e");
            }
            "e"
        },
        _ => {
            proof {
                reveal_strlit("f");
            }
            "f"
        },
    }
}

/// A colour as `#rrggbb` in lowercase hexadecimal.
pub fn rgb_hex(c: [u8; 3]) -> (r: String)
    ensures
        r@ == rgb_hex_text(c),
{
    proof {
        reveal_strlit("#");
    }
    let mut out = "#".to_owned();
    let mut k: usize = 0;
    while k < 3
        invariant
            k <= 3,
            out@ =~= "#"@ + (if k >= 1 { hex2(c[0]) } else { Seq::empty() }) + (if k >= 2 {
                hex2(c[1])
            } else {
                Seq::empty()
            }) + (if k >= 3 { hex2(c[2]) } else { Seq::empty() }),
        decreases 3 - k,
    {
        let b = c[k];
        out.append(hex_digit_str(b / 16));
        out.append(hex_digit_str(b % 16));
        k = k + 1;
    }
    out
}

/// The label shown for each kind.
pub open spec fn kind_label(kind: EntityKind) -> Seq<char> {
    match kind {
        EntityKind::Light => "Light"@,
        EntityKind::Switch => "Switch"@,
        EntityKind::Sensor => "Sensor"@,
        EntityKind::Climate => "Climate"@,
        EntityKind::Script => "Script"@,
    }
}

/// A brightness of 0..=255 as a percentage, rounded to the nearest.
pub open spec fn brightness_percent(b: u8) -> int {
    (b * 100 + 127) / 255
}

/// The card shown for an entity.
pub open spec fn card_of(e: EntityView) -> EntityCard {
    EntityCard {
        id: e.id,
        name: e.name,
        kind_label: kind_label(e.kind),
        is_on: e.is_on,
        has_value: e.value is Some,
        value: match e.value {
            Some(v) => v,
            None => Seq::empty(),
        },
        can_toggle: e.kind == EntityKind::Light || e.kind == EntityKind::Switch,
        brightness_pct: match e.brightness {
            Some(b) => Some(brightness_percent(b) as u8),
            None => None,
        },
        supports_color_temp: e.min_color_temp_kelvin is Some && e.max_color_temp_kelvin is Some,
        color_temp_kelvin: e.color_temp_kelvin,
        min_color_temp_kelvin: e.min_color_temp_kelvin,
        max_color_temp_kelvin: e.max_color_temp_kelvin,
        supports_rgb: e.rgb_color is Some,
        rgb_hex: match e.rgb_color {
            Some(c) => rgb_hex_text(c),
            None => Seq::empty(),
        },
        can_run_script: e.kind == EntityKind::Script,
    }
}

/// The cards of a sequence of view models.
pub open spec fn cards(s: Seq<EntityViewModel>) -> Seq<EntityCard> {
    s.map_values(|v: EntityViewModel| v@)
}

/// A brightness of 0..=255 as a percentage of 0..=100.
pub fn brightness_pct(value: u8) -> (r: u8)
    ensures
        r == brightness_percent(value),
        r <= 100,
{
    let wide: u16 = value as u16;
    let pct: u16 = (wide * 100 + 127) / 255;
    pct as u8
}

impl EntityViewModel {
    /// The card for entity `e`.
    pub fn from_entity(e: &Entity) -> (r: Self)
        ensures
            r@ == card_of(e@),
    {
        let kind_label = match e.kind {
            EntityKind::Light => "Light",
            EntityKind::Switch => "Switch",
            EntityKind::Sensor => "Sensor",
            EntityKind::Climate => "Climate",
            EntityKind::Script => "Script",
        }.to_owned();
        let (has_value, value) = match &e.value {
            Some(v) => (true, v.clone()),
            None => (false, String::new()),
        };
        let can_toggle = match e.kind {
            EntityKind::Light | EntityKind::Switch => true,
            _ => false,
        };
        let brightness_pct = match e.brightness {
            Some(b) => Some(brightness_pct(b)),
            None => None,
        };
        let can_run_script = match e.kind {
            EntityKind::Script => true,
            _ => false,
        };
        let supports_color_temp = e.min_color_temp_kelvin.is_some()
            && e.max_color_temp_kelvin.is_some();
        let supports_rgb = e.rgb_color.is_some();
        let rgb_hex = match e.rgb_color {
            Some(c) => rgb_hex(c),
            None => String::new(),
        };
        EntityViewModel {
            id: e.id.to_string(),
            name: e.name.clone(),
            kind_label,
            is_on: e.is_on,
            has_value,
            value,
            can_toggle,
            brightness_pct,
            supports_color_temp,
            color_temp_kelvin: e.color_temp_kelvin,
            min_color_temp_kelvin: e.min_color_temp_kelvin,
            max_color_temp_kelvin: e.max_color_temp_kelvin,
            supports_rgb,
            rgb_hex,
            can_run_script,
        }
    }
}

/// The page an entity is on: its assigned page raised to at least 1, or 1
/// when none is assigned.
pub open spec fn page_of(pages: Map<Seq<char>, usize>, id: Seq<char>) -> usize {
    if pages.contains_key(id) {
        crate::layout::at_least_one(pages[id])
    } else {
        1
    }
}

/// The number of pages: the highest page of any entity, and 1 when there
/// are none.
pub open spec fn total_pages(pages: Map<Seq<char>, usize>, s: Seq<EntityView>) -> usize
    decreases s.len(),
{
    if s.len() == 0 {
        1
    } else {
        let a = total_pages(pages, s.drop_last());
        let b = page_of(pages, s.last().id);
        if a >= b {
            a
        } else {
            b
        }
    }
}

/// `requested` brought into `1..=total`.
pub open spec fn clamp_page(requested: usize, total: usize) -> usize {
    if requested < 1 {
        1
    } else if requested > total {
        total
    } else {
        requested
    }
}

/// The entities on page `page`.
pub open spec fn on_page(pages: Map<Seq<char>, usize>, page: usize) -> spec_fn(EntityView) -> bool {
    |e: EntityView| page_of(pages, e.id) == page
}

/// The dashboard page: the cards of the entities on the current page, the
/// current page and the number of pages.
#[derive(Debug)]
pub struct DashboardPageViewModel {
    pub entities: Vec<EntityViewModel>,
    pub current_page: usize,
    pub total_pages: usize,
}

/// Looks up the page of one entity.
fn entity_page(entity_pages: &PageMap, id: &str) -> (r: usize)
    ensures
        r == page_of(entity_pages@, id@),
{
    match entity_pages.get(id) {
        Some(p) => if p == 0 {
            1
        } else {
            p
        },
        None => 1,
    }
}

impl DashboardPageViewModel {
    /// The dashboard page for `state`, with entities assigned to pages by
    /// `entity_pages` and `requested_page` brought into the range of pages.
    pub fn from_state_and_pages(state: DashboardState, entity_pages: &PageMap, requested_page: usize) -> (r: Self)
        ensures
            r.total_pages == total_pages(entity_pages@, state@),
            r.current_page == clamp_page(requested_page, total_pages(entity_pages@, state@)),
            cards(r.entities@) == state@.filter(on_page(entity_pages@, r.current_page)).map_values(
                |e: EntityView| card_of(e),
            ),
    {
        let n = state.entities.len();
        let mut total: usize = 1;
        for i in 0..n
            invariant
                n == state.entities@.len(),
                state@.len() == n,
                total == total_pages(entity_pages@, state@.take(i as int)),
        {
            let p = entity_page(entity_pages, state.entities[i].id.as_str());
            proof {
                assert(state@.take(i + 1).drop_last() =~= state@.take(i as int));
                assert(state@.take(i + 1).last() == state@[i as int]);
            }
            if p > total {
                total = p;
            }
        }
        proof {
            assert(state@.take(n as int) =~= state@);
        }
        let page = if requested_page < 1 {
            1
        } else if requested_page > total {
            total
        } else {
            requested_page
        };
        let ghost pred = on_page(entity_pages@, page);
        let ghost f = |e: EntityView| card_of(e);
        let mut entities: Vec<EntityViewModel> = Vec::new();
        for i in 0..n
            invariant
                n == state.entities@.len(),
                state@.len() == n,
                pred == on_page(entity_pages@, page),
                f == |e: EntityView| card_of(e),
                cards(entities@) == state@.take(i as int).filter(pred).map_values(f),
        {
            let e = &state.entities[i];
            let p = entity_page(entity_pages, e.id.as_str());
            proof {
                assert(state@.take(i + 1) =~= state@.take(i as int).push(state@[i as int]));
                state@.take(i as int).lemma_filter_push(state@[i as int], pred);
            }
            if p == page {
                entities.push(EntityViewModel::from_entity(e));
                proof {
                    let fl = state@.take(i as int).filter(pred);
                    assert(fl.push(state@[i as int]).map_values(f) =~= fl.map_values(f).push(
                        card_of(state@[i as int]),
                    ));
                    assert(cards(entities@) =~= fl.map_values(f).push(card_of(state@[i as int])));
                }
            }
        }
        proof {
            assert(state@.take(n as int) =~= state@);
        }
        DashboardPageViewModel { entities, current_page: page, total_pages: total }
    }
}

/// Every entity's page lies between 1 and the number of pages, which is at
/// least 1; it is 1 exactly when no entity is on a later page.
pub proof fn law_pages_in_range(pages: Map<Seq<char>, usize>, s: Seq<EntityView>)
    ensures
        total_pages(pages, s) >= 1,
        forall|i: int| 0 <= i < s.len() ==> 1 <= #[trigger] page_of(pages, s[i].id) <= total_pages(pages, s),
        s.len() > 0 ==> exists|i: int| 0 <= i < s.len() && #[trigger] page_of(pages, s[i].id) == total_pages(pages, s),
    decreases s.len(),
{
    if s.len() > 0 {
        let d = s.drop_last();
        law_pages_in_range(pages, d);
        assert forall|i: int| 0 <= i < s.len() implies 1 <= #[trigger] page_of(pages, s[i].id) <= total_pages(pages, s) by {
            if i < s.len() - 1 {
                assert(d[i] == s[i]);
            }
        }
        if d.len() > 0 && total_pages(pages, d) >= page_of(pages, s.last().id) {
            let j = choose|j: int| 0 <= j < d.len() && #[trigger] page_of(pages, d[j].id) == total_pages(pages, d);
            assert(d[j] == s[j]);
        } else {
            assert(s[s.len() - 1] == s.last());
        }
    }
}

/// The entities shown on pages 1 to `n`, page after page.
pub open spec fn pages_upto(pages: Map<Seq<char>, usize>, s: Seq<EntityView>, n: usize) -> Seq<EntityView>
    decreases n,
{
    if n == 0 {
        Seq::empty()
    } else {
        pages_upto(pages, s, (n - 1) as usize) + s.filter(on_page(pages, n))
    }
}

/// No page shows anything of an empty state.
proof fn lemma_pages_upto_empty(pages: Map<Seq<char>, usize>, s: Seq<EntityView>, n: usize)
    requires
        s.len() == 0,
    ensures
        pages_upto(pages, s, n) =~= Seq::<EntityView>::empty(),
    decreases n,
{
    reveal(Seq::filter);
    if n > 0 {
        lemma_pages_upto_empty(pages, s, (n - 1) as usize);
    }
}

/// One more entity adds itself once to pages 1 to `n` when its page is
/// among them, and nothing otherwise.
proof fn lemma_pages_upto_push(pages: Map<Seq<char>, usize>, t: Seq<EntityView>, e: EntityView, n: usize)
    ensures
        pages_upto(pages, t.push(e), n).to_multiset() =~= (if page_of(pages, e.id) <= n {
            pages_upto(pages, t, n).to_multiset().insert(e)
        } else {
            pages_upto(pages, t, n).to_multiset()
        }),
    decreases n,
{
    broadcast use vstd::multiset::group_multiset_axioms;

    if n > 0 {
        let m = (n - 1) as usize;
        lemma_pages_upto_push(pages, t, e, m);
        let q = on_page(pages, n);
        t.lemma_filter_push(e, q);
        vstd::seq_lib::lemma_multiset_commutative(pages_upto(pages, t.push(e), m), t.push(e).filter(q));
        vstd::seq_lib::lemma_multiset_commutative(pages_upto(pages, t, m), t.filter(q));
        t.filter(q).to_multiset_ensures();
    }
}

/// When every entity's page is at most `n`, pages 1 to `n` together show
/// each entity exactly as often as the state holds it.
proof fn lemma_pages_upto_all(pages: Map<Seq<char>, usize>, s: Seq<EntityView>, n: usize)
    requires
        forall|i: int| 0 <= i < s.len() ==> #[trigger] page_of(pages, s[i].id) <= n,
    ensures
        pages_upto(pages, s, n).to_multiset() =~= s.to_multiset(),
    decreases s.len(),
{
    broadcast use vstd::multiset::group_multiset_axioms;

    if s.len() == 0 {
        lemma_pages_upto_empty(pages, s, n);
        assert(s =~= Seq::<EntityView>::empty());
    } else {
        let t = s.drop_last();
        let e = s.last();
        assert(t.push(e) =~= s);
        assert forall|i: int| 0 <= i < t.len() implies #[trigger] page_of(pages, t[i].id) <= n by {
            assert(t[i] == s[i]);
        }
        lemma_pages_upto_all(pages, t, n);
        assert(page_of(pages, s[s.len() - 1].id) <= n);
        lemma_pages_upto_push(pages, t, e, n);
        t.to_multiset_ensures();
    }
}

/// The pages partition the dashboard: pages 1 to the number of pages,
/// taken together, show every entity of the state exactly once (as often
/// as the state holds it), and each entity is on exactly one page.
pub proof fn law_pages_partition(pages: Map<Seq<char>, usize>, s: Seq<EntityView>)
    ensures
        pages_upto(pages, s, total_pages(pages, s)).to_multiset() == s.to_multiset(),
        forall|i: int, p: usize| #![trigger on_page(pages, p)(s[i])] 0 <= i < s.len() ==> (on_page(pages, p)(s[i]) <==> p
            == page_of(pages, s[i].id)),
{
    law_pages_in_range(pages, s);
    lemma_pages_upto_all(pages, s, total_pages(pages, s));
}

/// An entity is on its assigned page when that page is at least 1, on
/// page 1 when its assignment is 0 or missing.
pub proof fn law_page_of(pages: Map<Seq<char>, usize>, id: Seq<char>)
    ensures
        pages.contains_key(id) && pages[id] >= 1 ==> page_of(pages, id) == pages[id],
        pages.contains_key(id) && pages[id] == 0 ==> page_of(pages, id) == 1,
        !pages.contains_key(id) ==> page_of(pages, id) == 1,
{
}

/// A dashboard without entities has exactly one page.
pub proof fn law_no_entities_one_page(pages: Map<Seq<char>, usize>, s: Seq<EntityView>)
    requires
        s.len() == 0,
    ensures
        total_pages(pages, s) == 1,
{
}

/// The current page always lies between 1 and the number of pages, and is
/// the requested page whenever that one exists.
pub proof fn law_current_page_in_range(requested: usize, total: usize)
    requires
        total >= 1,
    ensures
        1 <= clamp_page(requested, total) <= total,
        1 <= requested <= total ==> clamp_page(requested, total) == requested,
{
}

/// Without page assignments there is one page and it shows every entity,
/// whatever page was requested.
pub proof fn law_unpaged_shows_all(s: Seq<EntityView>, requested: usize)
    ensures
        total_pages(Map::empty(), s) == 1,
        clamp_page(requested, total_pages(Map::empty(), s)) == 1,
        s.filter(on_page(Map::empty(), 1)) == s,
    decreases s.len(),
{
    reveal(Seq::filter);
    if s.len() > 0 {
        law_unpaged_shows_all(s.drop_last(), requested);
        assert(s.drop_last().push(s.last()) =~= s);
    }
}

/// A brightness percentage never exceeds 100, grows with the brightness,
/// and is 0 and 100 at the ends of the scale.
pub proof fn law_brightness_percent(a: u8, b: u8)
    ensures
        0 <= brightness_percent(a) <= 100,
        a <= b ==> brightness_percent(a) <= brightness_percent(b),
        brightness_percent(0) == 0,
        brightness_percent(255) == 100,
{
    assert(0 <= brightness_percent(a) <= 100) by (nonlinear_arith)
        requires
            0 <= a <= 255,
    ;
    assert(a <= b ==> brightness_percent(a) <= brightness_percent(b)) by (nonlinear_arith)
        requires
            0 <= a <= 255,
            0 <= b <= 255,
    ;
}

/// What a card shows of an entity: its id, name and on-state; its value
/// text exactly when it has one, whatever its kind (and an empty text
/// otherwise); the toggle for lights and switches only; the run button for
/// scripts only; the brightness as a rounded percentage; and its kind's
/// label.
pub proof fn law_card_fields(e: EntityView)
    ensures
        card_of(e).id == e.id,
        card_of(e).name == e.name,
        card_of(e).is_on == e.is_on,
        card_of(e).has_value <==> e.value is Some,
        e.value matches Some(v) ==> card_of(e).value == v,
        e.value is None ==> card_of(e).value.len() == 0,
        card_of(e).can_toggle <==> (e.kind == EntityKind::Light || e.kind == EntityKind::Switch),
        card_of(e).can_run_script <==> e.kind == EntityKind::Script,
        card_of(e).brightness_pct is Some <==> e.brightness is Some,
        e.brightness matches Some(b) ==> card_of(e).brightness_pct == Some(((b * 100 + 127) / 255) as u8),
        e.kind == EntityKind::Light ==> card_of(e).kind_label == "Light"@,
        e.kind == EntityKind::Switch ==> card_of(e).kind_label == "Switch"@,
        e.kind == EntityKind::Sensor ==> card_of(e).kind_label == "Sensor"@,
        e.kind == EntityKind::Climate ==> card_of(e).kind_label == "Climate"@,
        e.kind == EntityKind::Script ==> card_of(e).kind_label == "Script"@,
{
}

/// The value of a digit that `hex_char` writes is the number it was
/// written for.
proof fn lemma_hex_char_value(n: u8)
    requires
        n < 16,
    ensures
        crate::ha::hex_value(hex_char(n)) == Some(n),
        crate::ha::is_hex_char(hex_char(n)),
{
}

/// Writing a colour as `#rrggbb` and reading it back gives the colour.
pub proof fn law_hex_round_trip(c: [u8; 3])
    ensures
        crate::ha::parsed_hex_color(rgb_hex_text(c)) == Some((c[0], c[1], c[2])),
{
    reveal_strlit("#");
    let t = rgb_hex_text(c);
    lemma_hex_char_value(c[0] / 16);
    lemma_hex_char_value(c[0] % 16);
    lemma_hex_char_value(c[1] / 16);
    lemma_hex_char_value(c[1] % 16);
    lemma_hex_char_value(c[2] / 16);
    lemma_hex_char_value(c[2] % 16);
    assert(t.len() == 7);
    assert(t[0] == '#');
    assert(t[1] == hex_char(c[0] / 16));
    assert(t[2] == hex_char(c[0] % 16));
    assert(t[3] == hex_char(c[1] / 16));
    assert(t[4] == hex_char(c[1] % 16));
    assert(t[5] == hex_char(c[2] / 16));
    assert(t[6] == hex_char(c[2] % 16));
    assert(((c[0] / 16) * 16 + c[0] % 16) as u8 == c[0]);
    assert(((c[1] / 16) * 16 + c[1] % 16) as u8 == c[1]);
    assert(((c[2] / 16) * 16 + c[2] % 16) as u8 == c[2]);
}

/// One row of the settings page.
#[derive(Debug)]
pub struct EntitySettingsViewModel {
    pub id: String,
    pub name: String,
    pub is_selected: bool,
    pub page: usize,
}

/// The mathematical content of an [`EntitySettingsViewModel`].
pub struct SettingsRow {
    pub id: Seq<char>,
    pub name: Seq<char>,
    pub is_selected: bool,
    pub page: usize,
}

impl View for EntitySettingsViewModel {
    type V = SettingsRow;

    open spec fn view(&self) -> SettingsRow {
        SettingsRow { id: self.id@, name: self.name@, is_selected: self.is_selected, page: self.page }
    }
}

/// The settings row of an entity: selected when its id is among `ids`, on
/// its assigned page or page 1.
pub open spec fn row_of(e: EntityView, ids: Seq<Seq<char>>, pages: Map<Seq<char>, usize>) -> SettingsRow {
    SettingsRow {
        id: e.id,
        name: e.name,
        is_selected: ids.contains(e.id),
        page: if pages.contains_key(e.id) {
            pages[e.id]
        } else {
            1
        },
    }
}

/// A settings row is selected exactly when the entity's id equals one of
/// the selected ids (not merely begins with one), and shows the entity's
/// assigned page as stored, or page 1 without one.
pub proof fn law_settings_row(e: EntityView, ids: Seq<Seq<char>>, pages: Map<Seq<char>, usize>)
    ensures
        row_of(e, ids, pages).id == e.id,
        row_of(e, ids, pages).name == e.name,
        row_of(e, ids, pages).is_selected <==> exists|i: int| 0 <= i < ids.len() && #[trigger] ids[i]
            == e.id,
        pages.contains_key(e.id) ==> row_of(e, ids, pages).page == pages[e.id],
        !pages.contains_key(e.id) ==> row_of(e, ids, pages).page == 1,
{
}

/// The settings page: one row per entity.
#[derive(Debug)]
pub struct EntitiesSettingsPageViewModel {
    pub entities: Vec<EntitySettingsViewModel>,
}

impl EntitiesSettingsPageViewModel {
    /// The rows for every entity of `all`, in its order.
    pub fn from_entities(all: &DashboardState, selected_ids: &Vec<EntityId>, page_map: &PageMap) -> (r: Self)
        ensures
            r.entities@.len() == all@.len(),
            forall|i: int| 0 <= i < all@.len() ==> (#[trigger] r.entities@[i])@ == row_of(
                all@[i],
                id_views(selected_ids@),
                page_map@,
            ),
    {
        let mut rows: Vec<EntitySettingsViewModel> = Vec::new();
        let n = all.entities.len();
        for i in 0..n
            invariant
                n == all.entities@.len(),
                all@.len() == n,
                rows@.len() == i,
                forall|j: int| 0 <= j < i ==> (#[trigger] rows@[j])@ == row_of(
                    all@[j],
                    id_views(selected_ids@),
                    page_map@,
                ),
        {
            let e = &all.entities[i];
            let id = e.id.to_string();
            let is_selected = contains_id(selected_ids, id.as_str());
            let page = match page_map.get(id.as_str()) {
                Some(p) => p,
                None => 1,
            };
            rows.push(EntitySettingsViewModel { id, name: e.name.clone(), is_selected, page });
        }
        EntitiesSettingsPageViewModel { entities: rows }
    }
}

} // verus!
