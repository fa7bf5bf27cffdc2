//! The requests that the web pages send: the dashboard query, the action
//! forms, and the settings form with its page assignments.

use vstd::prelude::*;
use crate::domain::EntityId;
use crate::layout::PageMap;
use crate::text::{str_eq, strip_prefix};

verus! {

/// The query of the dashboard page: `?page=<n>&force_refresh=<any>`.
#[derive(Debug)]
pub struct DashboardQuery {
    pub page: Option<usize>,
    pub force_refresh: Option<String>,
}

impl DashboardQuery {
    /// The requested page; page 1 when none is given.
    pub fn requested_page(&self) -> (r: usize)
        ensures
            r == match self.page {
                Some(p) => p,
                None => 1,
            },
    {
        match self.page {
            Some(p) => p,
            None => 1,
        }
    }

    /// Whether a fresh read from Home Assistant is asked for: whenever the
    /// `force_refresh` parameter is present, whatever its value.
    pub fn force_refresh_requested(&self) -> (r: bool)
        ensures
            r == self.force_refresh is Some,
    {
        self.force_refresh.is_some()
    }
}

/// The form that toggles an entity.
#[derive(Debug)]
pub struct ToggleForm {
    pub entity_id: String,
}

/// The form that sets a light's brightness, in percent.
#[derive(Debug)]
pub struct BrightnessForm {
    pub entity_id: String,
    pub brightness_pct: u8,
}

/// The form that sets a light's colour temperature, in kelvin.
#[derive(Debug)]
pub struct ColorTempForm {
    pub entity_id: String,
    pub color_temp_kelvin: u32,
}

/// The form that sets a light's colour, as `#rrggbb`.
#[derive(Debug)]
pub struct ColorForm {
    pub entity_id: String,
    pub rgb: String,
}

/// The form that runs a script.
#[derive(Debug)]
pub struct RunScriptForm {
    pub entity_id: String,
}

/// Whether `c` is an ASCII decimal digit.
pub open spec fn is_digit(c: char) -> bool {
    '0' <= c && c <= '9'
}

/// The number written by a sequence of decimal digits.
pub open spec fn digits_value(s: Seq<char>) -> nat
    decreases s.len(),
{
    if s.len() == 0 {
        0
    } else {
        digits_value(s.drop_last()) * 10 + ((s.last() as int) - ('0' as int)) as nat
    }
}

/// The digits of a number: the text without one leading `+`.
pub open spec fn unsigned_digits(s: Seq<char>) -> Seq<char> {
    if s.len() > 0 && s[0] == '+' {
        s.drop_first()
    } else {
        s
    }
}

/// The `usize` that a text writes in decimal (an optional `+` and one or
/// more digits, with no other characters), if it fits.
pub open spec fn parsed_usize(s: Seq<char>) -> Option<usize> {
    let d = unsigned_digits(s);
    if d.len() > 0 && (forall|i: int| 0 <= i < d.len() ==> is_digit(#[trigger] d[i]))
        && digits_value(d) <= usize::MAX {
        Some(digits_value(d) as usize)
    } else {
        None
    }
}

/// A number written by digits is at least the number written by any of its
/// prefixes.
proof fn lemma_digits_value_prefix(d: Seq<char>, k: int)
    requires
        0 <= k <= d.len(),
        forall|i: int| 0 <= i < d.len() ==> is_digit(#[trigger] d[i]),
    ensures
        digits_value(d.take(k)) <= digits_value(d),
    decreases d.len(),
{
    if k < d.len() {
        let p = d.drop_last();
        assert forall|i: int| 0 <= i < p.len() implies is_digit(#[trigger] p[i]) by {
            assert(p[i] == d[i]);
        }
        lemma_digits_value_prefix(p, k);
        assert(p.take(k) =~= d.take(k));
        assert(is_digit(d[d.len() - 1]));
    } else {
        assert(d.take(k) =~= d);
    }
}

/// Reads a decimal `usize`: an optional `+` followed by digits only, within
/// range; anything else gives `None`.
pub fn parse_usize(s: &str) -> (r: Option<usize>)
    ensures
        r == parsed_usize(s@),
{
    let n = s.unicode_len();
    let start: usize = if n > 0 && s.get_char(0) == '+' {
        1
    } else {
        0
    };
    let ghost d = unsigned_digits(s@);
    assert(d =~= s@.skip(start as int));
    if start == n {
        return None;
    }
    let mut acc: usize = 0;
    let mut i: usize = start;
    while i < n
        invariant
            n == s@.len(),
            start <= i <= n,
            start < n,
            d == s@.skip(start as int),
            d == unsigned_digits(s@),
            forall|j: int| 0 <= j < i - start ==> is_digit(#[trigger] d[j]),
            acc == digits_value(d.take(i - start)),
        decreases n - i,
    {
        let c = s.get_char(i);
        let ghost k: int = i - start;
        assert(d[k] == c);
        if !('0' <= c && c <= '9') {
            assert(!is_digit(d[k]));
            return None;
        }
        let digit: usize = ((c as u32) - ('0' as u32)) as usize;
        proof {
            assert(d.take(k + 1).drop_last() =~= d.take(k));
            assert(d.take(k + 1).last() == c);
        }
        match acc.checked_mul(10) {
            Some(m) => match m.checked_add(digit) {
                Some(v) => {
                    acc = v;
                },
                None => {
                    proof {
                        lemma_overflow_means_none(s@, d, k + 1);
                    }
                    return None;
                },
            },
            None => {
                proof {
                    lemma_overflow_means_none(s@, d, k + 1);
                }
                return None;
            },
        }
        i = i + 1;
    }
    proof {
        assert(d.take(n - start) =~= d);
    }
    Some(acc)
}

/// When a prefix of the digits already exceeds `usize::MAX`, the text
/// does not denote a `usize`.
proof fn lemma_overflow_means_none(s: Seq<char>, d: Seq<char>, k: int)
    requires
        d == unsigned_digits(s),
        0 < k <= d.len(),
        forall|j: int| 0 <= j < k ==> is_digit(#[trigger] d[j]),
        digits_value(d.take(k)) > usize::MAX,
    ensures
        parsed_usize(s) is None,
{
    if forall|i: int| 0 <= i < d.len() ==> is_digit(#[trigger] d[i]) {
        lemma_digits_value_prefix(d, k);
    }
}

/// The `(name, value)` pairs that an `application/x-www-form-urlencoded`
/// body denotes, names and values percent-decoded.
pub uninterp spec fn form_pairs(body: Seq<u8>) -> Seq<(Seq<char>, Seq<char>)>;

/// The views of a sequence of string pairs.
pub open spec fn pair_views(s: Seq<(String, String)>) -> Seq<(Seq<char>, Seq<char>)> {
    s.map_values(|p: (String, String)| (p.0@, p.1@))
}

/// Calls `form_urlencoded::parse` (through `url`) and collects its pairs as
/// owned strings, in order.
#[verifier::external_body]
fn parse_form_pairs(body: &[u8]) -> (r: Vec<(String, String)>)
    ensures
        pair_views(r@) == form_pairs(body@),
{
    url::form_urlencoded::parse(body).into_owned().collect()
}

/// The values of the `visible` fields, in order.
pub open spec fn submitted_visible(pairs: Seq<(Seq<char>, Seq<char>)>) -> Seq<Seq<char>>
    decreases pairs.len(),
{
    if pairs.len() == 0 {
        Seq::empty()
    } else {
        let r = submitted_visible(pairs.drop_last());
        if pairs.last().0 == "visible"@ {
            r.push(pairs.last().1)
        } else {
            r
        }
    }
}

/// The pages given by `page_<entity id>` fields whose value is a number of
/// at least 1; a later field for the same entity overrides an earlier one.
pub open spec fn submitted_pages(pairs: Seq<(Seq<char>, Seq<char>)>) -> Map<Seq<char>, usize>
    decreases pairs.len(),
{
    if pairs.len() == 0 {
        Map::empty()
    } else {
        let m = submitted_pages(pairs.drop_last());
        let (k, v) = pairs.last();
        if k != "visible"@ && "page_"@.is_prefix_of(k) && parsed_usize(v) is Some && parsed_usize(v)->0 >= 1 {
            m.insert(k.skip("page_"@.len() as int), parsed_usize(v)->0)
        } else {
            m
        }
    }
}

/// Whether a pair is a `visible` field.
pub open spec fn is_visible_field(p: (Seq<char>, Seq<char>)) -> bool {
    p.0 == "visible"@
}

/// The visible ids submitted are the values of the `visible` fields, in
/// their order, and nothing else.
pub proof fn law_submitted_visible(pairs: Seq<(Seq<char>, Seq<char>)>)
    ensures
        submitted_visible(pairs) == pairs.filter(|p: (Seq<char>, Seq<char>)| is_visible_field(p)).map_values(
            |p: (Seq<char>, Seq<char>)| p.1,
        ),
    decreases pairs.len(),
{
    let f = |p: (Seq<char>, Seq<char>)| is_visible_field(p);
    let g = |p: (Seq<char>, Seq<char>)| p.1;
    if pairs.len() > 0 {
        let d = pairs.drop_last();
        law_submitted_visible(d);
        assert(d.push(pairs.last()) =~= pairs);
        d.lemma_filter_push(pairs.last(), f);
        assert(d.filter(f).push(pairs.last()).map_values(g) =~= d.filter(f).map_values(g).push(
            pairs.last().1,
        ));
    } else {
        reveal(Seq::filter);
        assert(pairs.filter(f).map_values(g) =~= Seq::<Seq<char>>::empty());
    }
}

/// An entity gets a page from the settings form exactly when some field
/// `page_<its id>` holds a number of at least 1.
pub proof fn law_submitted_pages_present(pairs: Seq<(Seq<char>, Seq<char>)>, k: Seq<char>)
    ensures
        submitted_pages(pairs).contains_key(k) <==> exists|i: int| 0 <= i < pairs.len()
            && #[trigger] pairs[i].0 == "page_"@ + k && parsed_usize(pairs[i].1) is Some
            && parsed_usize(pairs[i].1)->0 >= 1,
    decreases pairs.len(),
{
    reveal_strlit("page_");
    reveal_strlit("visible");
    if pairs.len() > 0 {
        let d = pairs.drop_last();
        law_submitted_pages_present(d, k);
        let (key, v) = pairs.last();
        let n = pairs.len() - 1;
        assert(pairs[n] == pairs.last());
        let hit = key != "visible"@ && "page_"@.is_prefix_of(key) && parsed_usize(v) is Some
            && parsed_usize(v)->0 >= 1;
        // `page_` followed by `k` is exactly a key with prefix `page_` and rest `k`.
        assert(("page_"@.is_prefix_of(key) && key.skip(5) == k) <==> key == "page_"@ + k) by {
            if "page_"@.is_prefix_of(key) && key.skip(5) == k {
                assert(key =~= "page_"@ + k);
            }
            if key == "page_"@ + k {
                assert(key.subrange(0, 5) =~= "page_"@);
                assert(key.skip(5) =~= k);
            }
        }
        if key == "page_"@ + k {
            assert(key[0] == 'p');
            assert(key != "visible"@) by {
                assert("visible"@[0] == 'v');
            }
        }
        assert forall|i: int| 0 <= i < d.len() implies #[trigger] d[i] == pairs[i] by {}
        if exists|i: int| 0 <= i < pairs.len() && #[trigger] pairs[i].0 == "page_"@ + k
            && parsed_usize(pairs[i].1) is Some && parsed_usize(pairs[i].1)->0 >= 1 {
            let i = choose|i: int| 0 <= i < pairs.len() && #[trigger] pairs[i].0 == "page_"@ + k
                && parsed_usize(pairs[i].1) is Some && parsed_usize(pairs[i].1)->0 >= 1;
            if i < n {
                assert(d[i] == pairs[i]);
            }
        }
        if submitted_pages(d).contains_key(k) {
            let i = choose|i: int| 0 <= i < d.len() && #[trigger] d[i].0 == "page_"@ + k
                && parsed_usize(d[i].1) is Some && parsed_usize(d[i].1)->0 >= 1;
            assert(pairs[i] == d[i]);
        }
    }
}

/// What the settings form submits: the visible entities and the page of
/// each entity.
#[derive(Debug)]
pub struct EntitySettingsSubmission {
    pub visible_ids: Vec<EntityId>,
    pub page_assignments: PageMap,
}

/// Reads the settings form from its `(name, value)` pairs.
pub fn settings_from_pairs(pairs: &Vec<(String, String)>) -> (r: EntitySettingsSubmission)
    ensures
        crate::domain::id_views(r.visible_ids@) == submitted_visible(pair_views(pairs@)),
        r.page_assignments@ == submitted_pages(pair_views(pairs@)),
{
    let ghost pv = pair_views(pairs@);
    let mut visible_ids: Vec<EntityId> = Vec::new();
    let mut page_assignments = PageMap::new();
    let n = pairs.len();
    for i in 0..n
        invariant
            n == pairs@.len(),
            pv == pair_views(pairs@),
            pv.len() == n,
            crate::domain::id_views(visible_ids@) == submitted_visible(pv.take(i as int)),
            page_assignments@ == submitted_pages(pv.take(i as int)),
    {
        let key = pairs[i].0.as_str();
        let value = pairs[i].1.as_str();
        proof {
            assert(pv.take(i + 1).drop_last() =~= pv.take(i as int));
            assert(pv.take(i + 1).last() == pv[i as int]);
            assert(pv[i as int] == (key@, value@));
        }
        if str_eq(key, "visible") {
            visible_ids.push(EntityId(value.to_owned()));
            proof {
                assert(crate::domain::id_views(visible_ids@) =~= submitted_visible(
                    pv.take(i as int),
                ).push(value@));
            }
        } else {
            match strip_prefix(key, "page_") {
                Some(entity_id) => match parse_usize(value) {
                    Some(page) => {
                        if page >= 1 {
                            page_assignments.insert(entity_id.to_owned(), page);
                        }
                    },
                    None => {},
                },
                None => {},
            }
        }
    }
    proof {
        assert(pv.take(n as int) =~= pv);
    }
    EntitySettingsSubmission { visible_ids, page_assignments }
}

/// Reads the settings form from its urlencoded body.
pub fn parse_entity_settings_form(body: &[u8]) -> (r: EntitySettingsSubmission)
    ensures
        crate::domain::id_views(r.visible_ids@) == submitted_visible(form_pairs(body@)),
        r.page_assignments@ == submitted_pages(form_pairs(body@)),
{
    let pairs = parse_form_pairs(body);
    settings_from_pairs(&pairs)
}

/// Every page taken from the settings form is at least 1.
pub proof fn law_submitted_pages_at_least_one(pairs: Seq<(Seq<char>, Seq<char>)>)
    ensures
        forall|k: Seq<char>| #[trigger] submitted_pages(pairs).contains_key(k) ==> submitted_pages(pairs)[k] >= 1,
    decreases pairs.len(),
{
    if pairs.len() > 0 {
        law_submitted_pages_at_least_one(pairs.drop_last());
        let m = submitted_pages(pairs.drop_last());
        let (k, v) = pairs.last();
        assert forall|x: Seq<char>| #[trigger] submitted_pages(pairs).contains_key(x) implies submitted_pages(pairs)[x] >= 1 by {
            if k != "visible"@ && "page_"@.is_prefix_of(k) && parsed_usize(v) is Some && parsed_usize(v)->0 >= 1 {
                if x != k.skip("page_"@.len() as int) {
                    assert(m.contains_key(x));
                }
            } else {
                assert(m.contains_key(x));
            }
        }
    }
}

} // verus!
