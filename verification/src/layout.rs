//! The persisted dashboard layout: which entities are visible, and the page
//! (and order) assigned to each entity.

use vstd::prelude::*;
use crate::domain::{AppError, EntityId, id_views, string_views};

verus! {

/// The map of the given `(key, value)` pairs, a later pair overriding an
/// earlier one with the same key.
pub open spec fn pairs_map(s: Seq<(String, usize)>) -> Map<Seq<char>, usize>
    decreases s.len(),
{
    if s.len() == 0 {
        Map::empty()
    } else {
        pairs_map(s.drop_last()).insert(s.last().0@, s.last().1)
    }
}

/// A map from entity id to a number (a page, or a position), kept as the
/// sequence of assignments made to it.
#[derive(Debug)]
pub struct PageMap {
    pub entries: Vec<(String, usize)>,
}

impl View for PageMap {
    type V = Map<Seq<char>, usize>;

    open spec fn view(&self) -> Map<Seq<char>, usize> {
        pairs_map(self.entries@)
    }
}

/// The lowest page or position is 1: 0 is raised to 1.
pub open spec fn at_least_one(p: usize) -> usize {
    if p == 0 {
        1
    } else {
        p
    }
}

/// Every value of `m` raised to at least 1.
pub open spec fn floor_values(m: Map<Seq<char>, usize>) -> Map<Seq<char>, usize> {
    m.map_values(|p: usize| at_least_one(p))
}

/// Raising every value of a pair sequence commutes with building its map.
proof fn lemma_pairs_map_floor(s: Seq<(String, usize)>, t: Seq<(String, usize)>)
    requires
        s.len() == t.len(),
        forall|i: int| 0 <= i < s.len() ==> (#[trigger] t[i]).0@ == s[i].0@ && t[i].1 == at_least_one(s[i].1),
    ensures
        pairs_map(t) =~= floor_values(pairs_map(s)),
    decreases s.len(),
{
    if s.len() > 0 {
        lemma_pairs_map_floor(s.drop_last(), t.drop_last());
        assert(t.last() == t[t.len() - 1]);
    }
}

impl PageMap {
    /// An empty map.
    pub fn new() -> (r: Self)
        ensures
            r@ == Map::<Seq<char>, usize>::empty(),
    {
        PageMap { entries: Vec::new() }
    }

    /// Assigns `value` to `key`, replacing an earlier assignment.
    pub fn insert(&mut self, key: String, value: usize)
        ensures
            final(self)@ == old(self)@.insert(key@, value),
    {
        self.entries.push((key, value));
        proof {
            assert(final(self).entries@.drop_last() =~= old(self).entries@);
        }
    }

    /// The value assigned to `key`, if any.
    pub fn get(&self, key: &str) -> (r: Option<usize>)
        ensures
            r == (if self@.contains_key(key@) {
                Some(self@[key@])
            } else {
                None
            }),
    {
        let n = self.entries.len();
        let mut i = n;
        while i > 0
            invariant
                n == self.entries@.len(),
                i <= n,
                forall|j: int| i <= j < n ==> (#[trigger] self.entries@[j]).0@ != key@,
            decreases i,
        {
            if crate::text::str_eq(self.entries[i - 1].0.as_str(), key) {
                proof {
                    let s = self.entries@;
                    lemma_pairs_map_later_keys_absent(s, i as int, key@);
                    assert(s.take(i as int).drop_last() =~= s.take(i - 1));
                    assert(s.take(i as int).last() == s[i - 1]);
                }
                return Some(self.entries[i - 1].1);
            }
            i = i - 1;
        }
        proof {
            lemma_pairs_map_later_keys_absent(self.entries@, 0, key@);
            assert(self.entries@.take(0) =~= Seq::<(String, usize)>::empty());
        }
        None
    }

    /// A copy of the map.
    pub fn duplicate(&self) -> (r: Self)
        ensures
            r@ == self@,
    {
        let mut entries: Vec<(String, usize)> = Vec::new();
        let n = self.entries.len();
        for i in 0..n
            invariant
                n == self.entries@.len(),
                entries@.len() == i,
                forall|j: int| 0 <= j < i ==> (#[trigger] entries@[j]).0@ == self.entries@[j].0@
                    && entries@[j].1 == self.entries@[j].1,
        {
            entries.push((self.entries[i].0.clone(), self.entries[i].1));
        }
        proof {
            lemma_pairs_map_same(self.entries@, entries@);
        }
        PageMap { entries }
    }

    /// The map with every value raised to at least 1.
    pub fn with_floor_one(&self) -> (r: Self)
        ensures
            r@ == floor_values(self@),
    {
        let mut entries: Vec<(String, usize)> = Vec::new();
        let n = self.entries.len();
        for i in 0..n
            invariant
                n == self.entries@.len(),
                entries@.len() == i,
                forall|j: int| 0 <= j < i ==> (#[trigger] entries@[j]).0@ == self.entries@[j].0@
                    && entries@[j].1 == at_least_one(self.entries@[j].1),
        {
            let p = self.entries[i].1;
            let clamped = if p == 0 {
                1
            } else {
                p
            };
            entries.push((self.entries[i].0.clone(), clamped));
        }
        proof {
            lemma_pairs_map_floor(self.entries@, entries@);
        }
        PageMap { entries }
    }
}

/// When no pair from index `i` on has key `k`, the map of the whole
/// sequence agrees on `k` with the map of its first `i` pairs.
proof fn lemma_pairs_map_later_keys_absent(s: Seq<(String, usize)>, i: int, k: Seq<char>)
    requires
        0 <= i <= s.len(),
        forall|j: int| i <= j < s.len() ==> (#[trigger] s[j]).0@ != k,
    ensures
        pairs_map(s).contains_key(k) == pairs_map(s.take(i)).contains_key(k),
        pairs_map(s).contains_key(k) ==> pairs_map(s)[k] == pairs_map(s.take(i))[k],
    decreases s.len(),
{
    if i == s.len() {
        assert(s.take(i) =~= s);
    } else {
        let d = s.drop_last();
        assert(s.last() == s[s.len() - 1]);
        assert forall|j: int| i <= j < d.len() implies (#[trigger] d[j]).0@ != k by {
            assert(d[j] == s[j]);
        }
        lemma_pairs_map_later_keys_absent(d, i, k);
        assert(d.take(i) =~= s.take(i));
    }
}

/// Two pair sequences with the same keys and values have the same map.
proof fn lemma_pairs_map_same(s: Seq<(String, usize)>, t: Seq<(String, usize)>)
    requires
        s.len() == t.len(),
        forall|i: int| 0 <= i < s.len() ==> (#[trigger] t[i]).0@ == s[i].0@ && t[i].1 == s[i].1,
    ensures
        pairs_map(t) =~= pairs_map(s),
    decreases s.len(),
{
    if s.len() > 0 {
        lemma_pairs_map_same(s.drop_last(), t.drop_last());
        assert(t.last() == t[t.len() - 1]);
    }
}

/// The layout as it is stored: the visible entity ids, and the page and
/// position assigned to entities.
#[derive(Debug)]
pub struct LayoutJson {
    pub visible: Vec<String>,
    pub entity_pages: PageMap,
    pub entity_order: PageMap,
}

/// The mathematical content of a [`LayoutJson`].
pub struct LayoutView {
    pub visible: Seq<Seq<char>>,
    pub entity_pages: Map<Seq<char>, usize>,
    pub entity_order: Map<Seq<char>, usize>,
}

impl LayoutView {
    /// The layout with its visible ids replaced by `ids`.
    pub open spec fn with_visible(self, ids: Seq<Seq<char>>) -> LayoutView {
        LayoutView { visible: ids, ..self }
    }

    /// The layout with its pages replaced by `m`, each raised to at least 1.
    pub open spec fn with_pages(self, m: Map<Seq<char>, usize>) -> LayoutView {
        LayoutView { entity_pages: floor_values(m), ..self }
    }

    /// The layout with its positions replaced by `m`, each raised to at
    /// least 1.
    pub open spec fn with_order(self, m: Map<Seq<char>, usize>) -> LayoutView {
        LayoutView { entity_order: floor_values(m), ..self }
    }
}

impl View for LayoutJson {
    type V = LayoutView;

    open spec fn view(&self) -> LayoutView {
        LayoutView {
            visible: string_views(self.visible@),
            entity_pages: self.entity_pages@,
            entity_order: self.entity_order@,
        }
    }
}

#[verifier::external_type_specification]
#[verifier::external_body]
pub struct ExJsonError(serde_json::Error);

/// The list of strings that a JSON text denotes, when it is a JSON array
/// of strings.
pub uninterp spec fn json_string_list(bytes: Seq<u8>) -> Option<Seq<Seq<char>>>;

/// Calls `serde_json::from_slice::<Vec<String>>`: the parse succeeds exactly
/// when the bytes denote a list of strings, and gives that list; what the
/// error holds is not stated.
#[verifier::external_body]
fn parse_json_string_list(data: &[u8]) -> (r: Result<Vec<String>, serde_json::Error>)
    ensures
        r is Ok <==> json_string_list(data@) is Some,
        r matches Ok(v) ==> Some(string_views(v@)) == json_string_list(data@),
{
    serde_json::from_slice::<Vec<String>>(data)
}

impl LayoutJson {
    /// The layout used when nothing has been stored yet.
    pub fn empty() -> (r: Self)
        ensures
            r@.visible == Seq::<Seq<char>>::empty(),
            r@.entity_pages == Map::<Seq<char>, usize>::empty(),
            r@.entity_order == Map::<Seq<char>, usize>::empty(),
    {
        LayoutJson { visible: Vec::new(), entity_pages: PageMap::new(), entity_order: PageMap::new() }
    }

    /// The visible entity ids, in their stored order.
    pub fn visible_entities(&self) -> (r: Vec<EntityId>)
        ensures
            id_views(r@) == self@.visible,
    {
        let mut r: Vec<EntityId> = Vec::new();
        let n = self.visible.len();
        for i in 0..n
            invariant
                n == self.visible@.len(),
                r@.len() == i,
                forall|j: int| 0 <= j < i ==> (#[trigger] r@[j])@ == self.visible@[j]@,
        {
            r.push(EntityId(self.visible[i].clone()));
        }
        assert(id_views(r@) =~= self@.visible);
        r
    }

    /// The layout with its visible ids replaced by `ids`.
    pub fn with_visible_entities(self, ids: Vec<EntityId>) -> (r: Self)
        ensures
            r@ == self@.with_visible(id_views(ids@)),
    {
        let mut visible: Vec<String> = Vec::new();
        let n = ids.len();
        for i in 0..n
            invariant
                n == ids@.len(),
                visible@.len() == i,
                forall|j: int| 0 <= j < i ==> (#[trigger] visible@[j])@ == ids@[j]@,
        {
            visible.push(ids[i].to_string());
        }
        assert(string_views(visible@) =~= id_views(ids@));
        LayoutJson { visible, entity_pages: self.entity_pages, entity_order: self.entity_order }
    }

    /// The page assigned to each entity.
    pub fn entity_pages(&self) -> (r: PageMap)
        ensures
            r@ == self@.entity_pages,
    {
        self.entity_pages.duplicate()
    }

    /// The layout with its page assignments replaced by `map`, each page
    /// raised to at least 1.
    pub fn with_entity_pages(self, map: PageMap) -> (r: Self)
        ensures
            r@ == self@.with_pages(map@),
    {
        LayoutJson { visible: self.visible, entity_pages: map.with_floor_one(), entity_order: self.entity_order }
    }

    /// The position assigned to each entity.
    pub fn entity_order(&self) -> (r: PageMap)
        ensures
            r@ == self@.entity_order,
    {
        self.entity_order.duplicate()
    }

    /// The layout with its positions replaced by `map`, each position
    /// raised to at least 1.
    pub fn with_entity_order(self, map: PageMap) -> (r: Self)
        ensures
            r@ == self@.with_order(map@),
    {
        LayoutJson { visible: self.visible, entity_pages: self.entity_pages, entity_order: map.with_floor_one() }
    }
}

/// Decodes a stored layout file. `parsed` is the file read in the current
/// layout format, if it could be; otherwise a plain JSON list of ids (the
/// earlier format) is accepted, and anything else is an error.
pub fn decode_layout(parsed: Option<LayoutJson>, data: &[u8]) -> (r: Result<LayoutJson, AppError>)
    ensures
        parsed matches Some(l) ==> (r matches Ok(v) && v@ == l@),
        parsed is None ==> match json_string_list(data@) {
            Some(ids) => r matches Ok(v) && v@.visible == ids && v@.entity_pages == Map::<
                Seq<char>,
                usize,
            >::empty() && v@.entity_order == Map::<Seq<char>, usize>::empty(),
            None => r matches Err(e) && e.message() == "Failed to parse dashboard layout JSON"@,
        },
{
    match parsed {
        Some(layout) => Ok(layout),
        None => match parse_json_string_list(data) {
            Ok(ids) => Ok(LayoutJson { visible: ids, entity_pages: PageMap::new(), entity_order: PageMap::new() }),
            Err(_) => Err(AppError::Internal("Failed to parse dashboard layout JSON".to_owned())),
        },
    }
}

/// Where the dashboard layout is stored.
#[derive(Debug)]
pub struct FsDashboardLayoutRepository {
    path: String,
}

impl FsDashboardLayoutRepository {
    /// A repository kept in the file at `path`.
    pub fn new(path: &str) -> (r: Self)
        ensures
            r.path_view() == path@,
    {
        FsDashboardLayoutRepository { path: path.to_owned() }
    }

    /// The path of the layout file.
    pub closed spec fn path_view(&self) -> Seq<char> {
        self.path@
    }

    /// The path of the layout file.
    pub fn path(&self) -> (r: &str)
        ensures
            r@ == self.path_view(),
    {
        self.path.as_str()
    }
}

/// What is read back is what was written: the visible ids read after
/// storing `ids` are `ids`, and the pages read after storing `m` are `m`
/// with each page raised to at least 1 (so exactly `m` when all its pages
/// are at least 1).
pub proof fn law_read_after_write(l: LayoutView, ids: Seq<Seq<char>>, m: Map<Seq<char>, usize>)
    ensures
        l.with_visible(ids).visible == ids,
        l.with_pages(m).entity_pages == floor_values(m),
        (forall|k: Seq<char>| #[trigger] m.contains_key(k) ==> m[k] >= 1) ==> l.with_pages(m).entity_pages == m,
        l.with_order(m).entity_order == floor_values(m),
{
    assert((forall|k: Seq<char>| #[trigger] m.contains_key(k) ==> m[k] >= 1) ==> floor_values(m) =~= m);
}

/// Storing the visible ids and storing the pages touch different parts of
/// the layout: each leaves the other's part alone, and their order does not
/// matter.
pub proof fn law_writes_independent(l: LayoutView, ids: Seq<Seq<char>>, m: Map<Seq<char>, usize>)
    ensures
        l.with_visible(ids).entity_pages == l.entity_pages,
        l.with_visible(ids).entity_order == l.entity_order,
        l.with_pages(m).visible == l.visible,
        l.with_pages(m).entity_order == l.entity_order,
        l.with_order(m).visible == l.visible,
        l.with_order(m).entity_pages == l.entity_pages,
        l.with_visible(ids).with_pages(m) == l.with_pages(m).with_visible(ids),
{
}

/// Stored pages are all at least 1, keep every assigned entity, and keep
/// every page that was already at least 1; storing again what was read
/// changes nothing.
pub proof fn law_stored_pages_at_least_one(l: LayoutView, m: Map<Seq<char>, usize>)
    ensures
        floor_values(m).dom() == m.dom(),
        forall|k: Seq<char>| #[trigger] floor_values(m).contains_key(k) ==> floor_values(m)[k] >= 1,
        forall|k: Seq<char>| m.contains_key(k) && m[k] >= 1 ==> #[trigger] floor_values(m)[k] == m[k],
        l.with_pages(m).with_pages(l.with_pages(m).entity_pages) == l.with_pages(m),
{
    assert(floor_values(m).dom() =~= m.dom());
    assert(floor_values(floor_values(m)) =~= floor_values(m));
}

} // verus!
