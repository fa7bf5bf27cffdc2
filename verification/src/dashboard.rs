//! Which entities the dashboard shows: the visible selection stored in the
//! layout, applied to the full state from Home Assistant.

use vstd::prelude::*;
use crate::domain::{DashboardState, Entity, EntityId, EntityView, id_views};

verus! {

/// Whether `id` is one of `ids`.
pub fn contains_id(ids: &Vec<EntityId>, id: &str) -> (r: bool)
    ensures
        r == id_views(ids@).contains(id@),
{
    let n = ids.len();
    for i in 0..n
        invariant
            n == ids@.len(),
            forall|j: int| 0 <= j < i ==> ids@[j]@ != id@,
    {
        if crate::text::str_eq(ids[i].as_str(), id) {
            assert(id_views(ids@)[i as int] == id@);
            return true;
        }
    }
    proof {
        if id_views(ids@).contains(id@) {
            let k = choose|k: int| 0 <= k < id_views(ids@).len() && id_views(ids@)[k] == id@;
            assert(ids@[k]@ == id@);
        }
    }
    false
}

/// The entities whose ids are among `ids`.
pub open spec fn listed(ids: Seq<Seq<char>>) -> spec_fn(EntityView) -> bool {
    |e: EntityView| ids.contains(e.id)
}

/// The entities shown: all of them when no selection was stored, else
/// those selected, in Home Assistant's order.
pub open spec fn visible_view(all: Seq<EntityView>, ids: Seq<Seq<char>>) -> Seq<EntityView> {
    if ids.len() == 0 {
        all
    } else {
        all.filter(listed(ids))
    }
}

/// The dashboard state restricted to the visible selection `visible_ids`
/// (all of it when the selection is empty).
pub fn visible_dashboard(all: DashboardState, visible_ids: &Vec<EntityId>) -> (r: DashboardState)
    ensures
        r@ == visible_view(all@, id_views(visible_ids@)),
{
    if visible_ids.len() == 0 {
        return all;
    }
    let ghost ids = id_views(visible_ids@);
    let ghost pred = listed(ids);
    let mut kept: Vec<Entity> = Vec::new();
    let n = all.entities.len();
    for i in 0..n
        invariant
            n == all.entities@.len(),
            all@.len() == n,
            ids == id_views(visible_ids@),
            pred == listed(ids),
            crate::domain::entity_views(kept@) == all@.take(i as int).filter(pred),
    {
        let e = &all.entities[i];
        proof {
            assert(all@.take(i + 1) =~= all@.take(i as int).push(all@[i as int]));
            all@.take(i as int).lemma_filter_push(all@[i as int], pred);
        }
        if contains_id(visible_ids, e.id.as_str()) {
            let c = e.clone();
            kept.push(c);
            proof {
                assert(crate::domain::entity_views(kept@) =~= all@.take(i as int).filter(pred).push(
                    all@[i as int],
                ));
            }
        }
    }
    proof {
        assert(all@.take(n as int) =~= all@);
    }
    DashboardState { entities: kept }
}

/// With no stored selection every entity is shown; otherwise an entity is
/// shown exactly when it is selected, and the shown entities keep their order.
pub proof fn law_visible_selection(all: Seq<EntityView>, ids: Seq<Seq<char>>)
    ensures
        ids.len() == 0 ==> visible_view(all, ids) == all,
        forall|e: EntityView| #[trigger] visible_view(all, ids).contains(e) <==> (all.contains(e) && (
        ids.len() == 0 || ids.contains(e.id))),
        visible_view(all, ids).len() <= all.len(),
        ids.len() > 0 ==> forall|i: int| 0 <= i < visible_view(all, ids).len() ==> ids.contains(
            (#[trigger] visible_view(all, ids)[i]).id,
        ),
{
    if ids.len() > 0 {
        let p = listed(ids);
        all.lemma_filter_len(p);
        assert forall|e: EntityView| #[trigger] visible_view(all, ids).contains(e) <==> (all.contains(e)
            && ids.contains(e.id)) by {
            if all.filter(p).contains(e) {
                all.lemma_filter_contains_rev(p, e);
                let k = choose|k: int| 0 <= k < all.filter(p).len() && all.filter(p)[k] == e;
                all.lemma_filter_pred(p, k);
            }
            if all.contains(e) && ids.contains(e.id) {
                let k = choose|k: int| 0 <= k < all.len() && all[k] == e;
                all.lemma_filter_contains(p, k);
            }
        }
        assert forall|i: int| 0 <= i < visible_view(all, ids).len() implies ids.contains(
            (#[trigger] visible_view(all, ids)[i]).id,
        ) by {
            all.lemma_filter_pred(p, i);
        }
    }
}

} // verus!
