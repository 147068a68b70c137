//! The path of one message: parse the payload, hand the order to the store,
//! and make it visible once the store has it.
//!
//! The store lies outside this crate. Between [`receive`] and [`settle`] the
//! caller writes the order to the store and brings back whether that
//! succeeded.

use crate::cache::Cache;
use crate::model::{record_of_payload, OrderModel, OrderView, ParseError};
use vstd::prelude::*;

verus! {

/// How the handling of one message ended.
#[derive(Debug, Clone, Copy, PartialEq, Eq)]
pub enum Outcome {
    /// The order was stored and is in the cache.
    Applied,
    /// The payload was not an order; nothing was stored.
    ParseFailed(ParseError),
    /// The store refused the order; the cache does not have it.
    PersistFailed,
}

/// What a payload asks for.
#[derive(Debug, PartialEq, Eq)]
pub enum Received {
    /// Write this order to the store, then [`settle`] it.
    Persist(OrderModel),
    /// Nothing: the payload is dropped.
    Dropped(ParseError),
}

/// One message as the rules see it: what its payload was read as, and whether
/// the store took the order.
pub struct Message {
    pub parsed: Result<OrderView, ParseError>,
    pub stored: bool,
}

/// The message with this payload and this answer of the store.
pub open spec fn message_of(payload: Seq<char>, stored: bool) -> Message {
    Message { parsed: record_of_payload(payload), stored }
}

/// The cache after one message.
pub open spec fn after_message(cache: Map<Seq<char>, OrderView>, message: Message) -> Map<
    Seq<char>,
    OrderView,
> {
    match message.parsed {
        Ok(order) => if message.stored {
            cache.insert(order.order_uid, order)
        } else {
            cache
        },
        Err(_) => cache,
    }
}

/// How one message ends.
pub open spec fn outcome_of(message: Message) -> Outcome {
    match message.parsed {
        Ok(_) => if message.stored {
            Outcome::Applied
        } else {
            Outcome::PersistFailed
        },
        Err(error) => Outcome::ParseFailed(error),
    }
}

/// The cache after some messages, handled one at a time in their order.
pub open spec fn after_messages(cache: Map<Seq<char>, OrderView>, messages: Seq<Message>) -> Map<
    Seq<char>,
    OrderView,
>
    decreases messages.len(),
{
    if messages.len() == 0 {
        cache
    } else {
        after_message(after_messages(cache, messages.drop_last()), messages.last())
    }
}

/// Takes one payload off the channel.
pub fn receive(payload: &str) -> (received: Received)
    ensures
        match received {
            Received::Persist(order) => record_of_payload(payload@) == Ok::<
                OrderView,
                ParseError,
            >(order@),
            Received::Dropped(error) => record_of_payload(payload@) == Err::<
                OrderView,
                ParseError,
            >(error),
        },
{
    match OrderModel::from_str(payload) {
        Ok(order) => Received::Persist(order),
        Err(error) => Received::Dropped(error),
    }
}

/// Ends the handling of an order that was handed to the store: it enters the
/// cache if the store took it, and is dropped if not.
pub fn settle(cache: &mut Cache, order: OrderModel, stored: bool) -> (outcome: Outcome)
    ensures
        final(cache)@ == after_message(
            old(cache)@,
            (Message { parsed: Ok(order@), stored }),
        ),
        outcome == outcome_of((Message { parsed: Ok(order@), stored })),
{
    if stored {
        cache.add(order);
        Outcome::Applied
    } else {
        Outcome::PersistFailed
    }
}

/// How a dropped payload ends.
pub fn dropped(error: ParseError) -> (outcome: Outcome)
    ensures
        outcome == Outcome::ParseFailed(error),
        forall|stored: bool|
            outcome == #[trigger] outcome_of((Message { parsed: Err(error), stored })),
{
    Outcome::ParseFailed(error)
}

/// The store as the rules see it: what it holds after one message, where it
/// held `store` before. It takes an order exactly when it says so.
pub open spec fn store_after_message(store: Map<Seq<char>, OrderView>, message: Message) -> Map<
    Seq<char>,
    OrderView,
> {
    after_message(store, message)
}

/// Whether everything in the cache is in the store, as the same record.
pub open spec fn follows(cache: Map<Seq<char>, OrderView>, store: Map<Seq<char>, OrderView>) -> bool {
    forall|uid: Seq<char>| #[trigger]
        cache.contains_key(uid) ==> store.contains_key(uid) && store[uid] == cache[uid]
}

/// An order reaches the cache as the payload stated it: once a payload has
/// been parsed, stored and applied, a lookup of its identifier gives the order
/// that the document states, member for member.
pub proof fn law_round_trip(cache: Map<Seq<char>, OrderView>, payload: Seq<char>)
    requires
        record_of_payload(payload) is Ok,
    ensures
        ({
            let doc = crate::json::parsed_document(payload)->0;
            let order = crate::model::order_of(doc, crate::model::created_of(doc)->0);
            let next = after_message(cache, message_of(payload, true));
            &&& crate::json::parsed_document(payload) is Some
            &&& crate::model::created_of(doc) is Some
            &&& crate::model::well_typed(doc)
            &&& order.order_uid.len() > 0
            &&& record_of_payload(payload) == Ok::<OrderView, ParseError>(order)
            &&& next.contains_key(order.order_uid)
            &&& next[order.order_uid] == order
        }),
{
}

/// The last write wins: after two messages with the same identifier, both
/// parsed and stored, the cache holds what the second stated.
pub proof fn law_last_message_wins(
    cache: Map<Seq<char>, OrderView>,
    first: OrderView,
    second: OrderView,
)
    requires
        first.order_uid == second.order_uid,
    ensures
        ({
            let messages = seq![
                Message { parsed: Ok(first), stored: true },
                Message { parsed: Ok(second), stored: true },
            ];
            &&& after_messages(cache, messages).contains_key(second.order_uid)
            &&& after_messages(cache, messages)[second.order_uid] == second
            &&& after_messages(cache, messages) == cache.insert(second.order_uid, second)
        }),
{
    let one = Message { parsed: Ok(first), stored: true };
    let two = Message { parsed: Ok(second), stored: true };
    let messages = seq![one, two];
    assert(messages.drop_last() == seq![one]);
    assert(seq![one].drop_last() == Seq::<Message>::empty());
    assert(after_messages(cache, seq![one]) == after_message(
        after_messages(cache, Seq::<Message>::empty()),
        one,
    ));
    crate::cache::law_last_write_wins(cache, first, second);
}

/// A message that changes nothing can be left out: the cache after the
/// others is the same.
pub proof fn law_idle_message_is_isolated(
    cache: Map<Seq<char>, OrderView>,
    messages: Seq<Message>,
    at: int,
)
    requires
        0 <= at < messages.len(),
        messages[at].parsed is Err || !messages[at].stored,
    ensures
        after_messages(cache, messages) == after_messages(cache, messages.remove(at)),
    decreases messages.len(),
{
    if at < messages.len() - 1 {
        let earlier = messages.drop_last();
        law_idle_message_is_isolated(cache, earlier, at);
        assert(messages.remove(at).drop_last() == earlier.remove(at));
    }
}

/// A malformed payload between two others affects neither: the cache ends as
/// if only the two had come, and each of them ends as it would alone.
pub proof fn law_malformed_payload_is_isolated(
    cache: Map<Seq<char>, OrderView>,
    before: Message,
    malformed: Message,
    after: Message,
)
    requires
        malformed.parsed is Err,
    ensures
        after_messages(cache, seq![before, malformed, after]) == after_messages(
            cache,
            seq![before, after],
        ),
        after_message(cache, malformed) == cache,
        outcome_of(malformed) is ParseFailed,
{
    let all = seq![before, malformed, after];
    law_idle_message_is_isolated(cache, all, 1);
    assert(all.remove(1) == seq![before, after]);
}

/// An order that the store refuses stays out of the cache: what was under its
/// identifier is still there, and what was not is still absent.
pub proof fn law_refused_order_stays_out(cache: Map<Seq<char>, OrderView>, order: OrderView)
    ensures
        after_message(cache, (Message { parsed: Ok(order), stored: false })) == cache,
        outcome_of((Message { parsed: Ok(order), stored: false })) == Outcome::PersistFailed,
{
}

/// The cache follows the store: where everything in the cache is in the
/// store, that is so after every message, and the cache files its records by
/// identifier.
pub proof fn law_cache_follows_store(
    cache: Map<Seq<char>, OrderView>,
    store: Map<Seq<char>, OrderView>,
    payload: Seq<char>,
    stored: bool,
)
    requires
        follows(cache, store),
        crate::cache::keyed_by_uid(cache),
    ensures
        follows(
            after_message(cache, message_of(payload, stored)),
            store_after_message(store, message_of(payload, stored)),
        ),
        crate::cache::keyed_by_uid(after_message(cache, message_of(payload, stored))),
{
}

} // verus!
