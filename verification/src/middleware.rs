//! The cache-aside step that runs in front of every request handler.
//!
//! Before a handler runs, the request's key is looked up. Where the store
//! holds an answer, that answer is the response and the handler does not
//! run. Otherwise the request goes on to the handler, marked as having no
//! cached answer; a handler that caches then runs a read-through call of its
//! own. Both sides derive the key with [`cache_key`], so what a handler
//! stores under a request is what this step finds for the same request.

use vstd::prelude::*;

use crate::cache::{
    command_view, hit_payload, read_from_redis, read_through_start, Action, ActionView,
    ReadThrough, ReadThroughView, Stage,
};
use crate::error::CacheError;
use crate::key::{cache_key, key_text, keyable};
use crate::store::{delivery_view, CommandView, Response, ResponseView, StoreCommand};

verus! {

/// The status of a response that is served from the cache.
pub const STATUS_OK: u16 = 200;

/// What becomes of a request.
#[derive(Debug, Clone, PartialEq)]
pub enum Interception {
    /// Respond with the cached body; the handler does not run.
    ShortCircuit { status: u16, body: String },
    /// Run the handler. `no_cache` tells it that no cached answer was at
    /// hand.
    Forward { no_cache: bool },
}

/// An interception as plain values.
pub enum InterceptionView {
    ShortCircuit { status: u16, body: Seq<char> },
    Forward { no_cache: bool },
}

impl View for Interception {
    type V = InterceptionView;

    open spec fn view(&self) -> InterceptionView {
        match self {
            Interception::ShortCircuit { status, body } => InterceptionView::ShortCircuit {
                status: *status,
                body: body@,
            },
            Interception::Forward { no_cache } => InterceptionView::Forward {
                no_cache: *no_cache,
            },
        }
    }
}

/// The lookup that precedes the handler of the request for `route` with the
/// raw query string `query`, if the request has a key.
pub open spec fn lookup_for(route: Seq<char>, query: Seq<char>) -> Option<CommandView> {
    if keyable(route) {
        Some(CommandView::Get { key: key_text(route, query) })
    } else {
        None
    }
}

/// The lookup to make before the handler runs. A request without a key is
/// not looked up: it goes to its handler as a miss.
pub fn before_handler(route: &str, query: &str) -> (lookup: Option<StoreCommand>)
    ensures
        command_view(lookup) == lookup_for(route@, query@),
{
    match cache_key(route, query) {
        Some(key) => Some(StoreCommand::Get { key }),
        None => None,
    }
}

/// What the outcome of the lookup means for the request: a hit answers it
/// with status 200 and the stored body, anything else sends it on. `None`
/// stands for a request that was not looked up.
pub open spec fn interception(delivery: Option<Result<ResponseView, CacheError>>) -> InterceptionView {
    match delivery {
        Some(outcome) => match hit_payload(outcome) {
            Some(body) => InterceptionView::ShortCircuit { status: STATUS_OK, body },
            None => InterceptionView::Forward { no_cache: true },
        },
        None => InterceptionView::Forward { no_cache: true },
    }
}

/// The view of a lookup's outcome, if the request was looked up.
pub open spec fn lookup_view(delivery: Option<Result<Response, CacheError>>) -> Option<
    Result<ResponseView, CacheError>,
> {
    match delivery {
        Some(outcome) => Some(delivery_view(outcome)),
        None => None,
    }
}

/// Decides what becomes of the request once the lookup has come back, or
/// where none was made.
pub fn after_lookup(delivery: Option<Result<Response, CacheError>>) -> (decision: Interception)
    ensures
        decision@ == interception(lookup_view(delivery)),
{
    match delivery {
        Some(outcome) => match read_from_redis(outcome) {
            Some(body) => Interception::ShortCircuit { status: STATUS_OK, body },
            None => Interception::Forward { no_cache: true },
        },
        None => Interception::Forward { no_cache: true },
    }
}

/// The key under which a handler caches its answer to the request for
/// `route` with `query`, if the request has one.
pub open spec fn handler_key(route: Seq<char>, query: Seq<char>) -> Option<Seq<char>> {
    if keyable(route) {
        Some(key_text(route, query))
    } else {
        None
    }
}

/// Starts the read-through call with which a handler answers the request for
/// `route` with `query`, and says what to do first. A request without a key
/// is not cached: its call begins with the producer and stores nothing.
pub fn handler_call<V>(route: &str, query: &str, ttl: u64) -> (started: (ReadThrough, Action<V>))
    ensures
        (started.0@, started.1@) == read_through_start::<V>(
            handler_key(route@, query@),
            ttl as nat,
        ),
{
    ReadThrough::begin(cache_key(route, query), ttl)
}

/// The handler writes where the middleware reads: the value that a handler's
/// call stores for a request goes under the very key that the lookup in
/// front of the handler asks for, and under the key of no other request.
pub proof fn law_middleware_and_handler_agree(
    route: Seq<char>,
    query: Seq<char>,
    ttl: nat,
    payload: Seq<char>,
    other_route: Seq<char>,
    other_query: Seq<char>,
)
    requires
        keyable(route),
        keyable(other_route),
    ensures
        read_through_start::<()>(handler_key(route, query), ttl).1 == ActionView::<()>::Lookup(
            CommandView::Get { key: key_text(route, query) },
        ),
        crate::cache::write_behind(
            ReadThroughView {
                key: handler_key(route, query),
                ttl,
                stage: Stage::AwaitingProducer,
            },
            Some(payload),
        ) == Some(CommandView::SetEx { key: key_text(route, query), value: payload, ttl }),
        lookup_for(route, query) == Some(CommandView::Get { key: key_text(route, query) }),
        lookup_for(other_route, other_query) == lookup_for(route, query) ==> route == other_route
            && query == other_query,
{
    if key_text(route, query) == key_text(other_route, other_query) {
        crate::key::law_keys_do_not_collide(route, query, other_route, other_query);
    }
}

} // verus!
