//! The cache: every order that the store is known to hold, by identifier.

use crate::model::{OrderModel, OrderView, Uid};
use vstd::hash_map::StringHashMap;
use vstd::prelude::*;

verus! {

/// Whether every record is filed under its own identifier, which is not
/// empty.
pub open spec fn keyed_by_uid(orders: Map<Seq<char>, OrderView>) -> bool {
    forall|uid: Seq<char>| #[trigger]
        orders.contains_key(uid) ==> orders[uid].order_uid == uid && uid.len() > 0
}

/// What a cache holds once it has been rebuilt from `snapshot`: each record
/// under its identifier, a later record in place of an earlier one with the
/// same identifier.
pub open spec fn restored(snapshot: Seq<OrderView>) -> Map<Seq<char>, OrderView>
    decreases snapshot.len(),
{
    if snapshot.len() == 0 {
        Map::empty()
    } else {
        restored(snapshot.drop_last()).insert(snapshot.last().order_uid, snapshot.last())
    }
}

/// The views of some records, in their order.
pub open spec fn model_views(models: Seq<OrderModel>) -> Seq<OrderView> {
    Seq::new(models.len(), |i: int| models[i]@)
}

/// The orders that queries see.
///
/// There is no empty cache to start from: one is made by [`Cache::restore`]
/// from what the store holds, so whoever has a cache has one that was
/// rebuilt.
pub struct Cache {
    orders: StringHashMap<OrderModel>,
}

impl View for Cache {
    type V = Map<Seq<char>, OrderView>;

    closed spec fn view(&self) -> Map<Seq<char>, OrderView> {
        views_of(self.orders@)
    }
}

spec fn views_of(orders: Map<Seq<char>, OrderModel>) -> Map<Seq<char>, OrderView> {
    Map::new(|uid: Seq<char>| orders.contains_key(uid), |uid: Seq<char>| orders[uid]@)
}

impl Cache {
    #[verifier::type_invariant]
    spec fn filed(self) -> bool {
        keyed_by_uid(views_of(self.orders@))
    }

    /// Rebuilds the cache from everything the store holds.
    pub fn restore(snapshot: Vec<OrderModel>) -> (cache: Cache)
        ensures
            cache@ == restored(model_views(snapshot@)),
            keyed_by_uid(cache@),
    {
        let ghost all = model_views(snapshot@);
        let mut orders: StringHashMap<OrderModel> = StringHashMap::new();
        for model in it: snapshot.into_iter()
            invariant
                it.seq() == snapshot@,
                all == model_views(snapshot@),
                views_of(orders@) == restored(all.take(it.index())),
                keyed_by_uid(views_of(orders@)),
        {
            let ghost before = orders@;
            let ghost done = it.index();
            proof {
                assert(all.take(done + 1).drop_last() == all.take(done));
            }
            let uid: String = model.uid().to_owned();
            orders.insert(uid, model);
            assert(views_of(orders@) == views_of(before).insert(model@.order_uid, model@));
        }
        assert(all.take(all.len() as int) == all);
        Cache { orders }
    }

    /// Files `order` under its identifier, in place of what was there.
    pub fn add(&mut self, order: OrderModel)
        ensures
            final(self)@ == old(self)@.insert(order@.order_uid, order@),
            keyed_by_uid(final(self)@),
    {
        proof {
            use_type_invariant(&*self);
        }
        let ghost before = self.orders@;
        let uid: String = order.uid().to_owned();
        let mut orders: StringHashMap<OrderModel> = StringHashMap::new();
        std::mem::swap(&mut orders, &mut self.orders);
        orders.insert(uid, order);
        assert(views_of(orders@) == views_of(before).insert(order@.order_uid, order@));
        self.orders = orders;
    }

    /// The record filed under `uid`, if there is one.
    pub fn get_order_by_uid(&self, uid: &str) -> (found: Option<&OrderModel>)
        ensures
            keyed_by_uid(self@),
            match found {
                Some(model) => self@.contains_key(uid@) && model@ == self@[uid@]
                    && model@.order_uid == uid@,
                None => !self@.contains_key(uid@),
            },
    {
        proof {
            use_type_invariant(self);
        }
        self.orders.get(uid)
    }
}

/// Rebuilding is complete: a record of the snapshot that no later record
/// replaces is in the cache, under its identifier and unchanged.
///
/// Where the store keeps one record for each identifier, that is every record.
pub proof fn law_restore_is_complete(snapshot: Seq<OrderView>, at: int)
    requires
        0 <= at < snapshot.len(),
        forall|later: int|
            at < later < snapshot.len() ==> snapshot[later].order_uid != snapshot[at].order_uid,
    ensures
        restored(snapshot).contains_key(snapshot[at].order_uid),
        restored(snapshot)[snapshot[at].order_uid] == snapshot[at],
    decreases snapshot.len(),
{
    if at < snapshot.len() - 1 {
        law_restore_is_complete(snapshot.drop_last(), at);
    }
}

/// Rebuilding adds nothing: the cache knows an identifier exactly when a
/// record of the snapshot has it, and what it holds under it is such a record.
pub proof fn law_restore_holds_only_the_snapshot(snapshot: Seq<OrderView>, uid: Seq<char>)
    ensures
        restored(snapshot).contains_key(uid) <==> exists|at: int|
            0 <= at < snapshot.len() && (#[trigger] snapshot[at]).order_uid == uid,
        restored(snapshot).contains_key(uid) ==> exists|at: int|
            0 <= at < snapshot.len() && #[trigger] snapshot[at] == restored(snapshot)[uid],
    decreases snapshot.len(),
{
    if snapshot.len() > 0 {
        let earlier = snapshot.drop_last();
        let last = snapshot.len() - 1;
        law_restore_holds_only_the_snapshot(earlier, uid);
        if snapshot.last().order_uid != uid && !restored(earlier).contains_key(uid) {
            assert forall|at: int| 0 <= at < snapshot.len() implies (#[trigger] snapshot[at]).order_uid
                != uid by {
                if at < last {
                    assert(earlier[at] == snapshot[at]);
                }
            }
        }
    }
}

/// A rebuilt cache files every record under its own identifier, where no
/// record of the snapshot is without one.
pub proof fn law_restore_files_by_uid(snapshot: Seq<OrderView>)
    requires
        forall|at: int| 0 <= at < snapshot.len() ==> (#[trigger] snapshot[at]).order_uid.len() > 0,
    ensures
        keyed_by_uid(restored(snapshot)),
    decreases snapshot.len(),
{
    if snapshot.len() > 0 {
        law_restore_files_by_uid(snapshot.drop_last());
    }
}

/// The last write wins: of two records filed one after the other under one
/// identifier, the cache holds the second and nothing of the first.
pub proof fn law_last_write_wins(
    cache: Map<Seq<char>, OrderView>,
    first: OrderView,
    second: OrderView,
)
    requires
        first.order_uid == second.order_uid,
    ensures
        cache.insert(first.order_uid, first).insert(second.order_uid, second)[second.order_uid]
            == second,
        cache.insert(first.order_uid, first).insert(second.order_uid, second) == cache.insert(
            second.order_uid,
            second,
        ),
{
}

} // verus!
