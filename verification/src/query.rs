//! Point lookups by order identifier. They read the cache and nothing else.

use crate::cache::Cache;
use crate::model::{OrderModel, OrderView};
use vstd::prelude::*;

verus! {

/// The answer to a lookup.
#[derive(Debug, PartialEq, Eq)]
pub enum QueryReply<'a> {
    /// The order is known.
    Found(&'a OrderModel),
    /// No order has this identifier. This is an answer, not a failure.
    NotFound,
}

/// The answer that a cache gives for `uid`.
pub open spec fn answer_of(cache: Map<Seq<char>, OrderView>, uid: Seq<char>) -> Option<OrderView> {
    if cache.contains_key(uid) {
        Some(cache[uid])
    } else {
        None
    }
}

/// The status of an answer that carries an order.
pub const STATUS_OK: u16 = 200;

/// The status of an answer that carries none.
pub const STATUS_NOT_FOUND: u16 = 404;

impl<'a> QueryReply<'a> {
    /// The order that the answer carries.
    pub open spec fn order(self) -> Option<OrderView> {
        match self {
            QueryReply::Found(model) => Some(model@),
            QueryReply::NotFound => None,
        }
    }

    /// The status to answer with: 200 with an order, 404 without.
    pub fn status(&self) -> (status: u16)
        ensures
            status == (if self.order() is Some {
                STATUS_OK
            } else {
                STATUS_NOT_FOUND
            }),
    {
        match self {
            QueryReply::Found(_) => STATUS_OK,
            QueryReply::NotFound => STATUS_NOT_FOUND,
        }
    }
}

/// Looks `uid` up.
pub fn handle_get_by_uid<'a>(uid: &str, cache: &'a Cache) -> (reply: QueryReply<'a>)
    ensures
        reply.order() == answer_of(cache@, uid@),
        reply.order() is Some ==> reply.order()->0.order_uid == uid@,
{
    match cache.get_order_by_uid(uid) {
        Some(model) => QueryReply::Found(model),
        None => QueryReply::NotFound,
    }
}

} // verus!
