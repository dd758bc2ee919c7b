//! The decision logic of a caching proxy that sits in front of slow,
//! rate-limited or flaky upstream lookups: a video search API, a
//! command-line media resolver and a chart feed that changes once a day.
//!
//! The crate does no I/O and reads no clock. Where work has to be done
//! outside (a command sent to the store, a payload parsed, an upstream
//! called), a step function takes what came back as an event and answers
//! with what to do next, so that every decision is a function from plain
//! values to plain values with a contract that pins it down:
//!
//! * [`dispatcher`]: the single owner of the connection to the backing
//!   store. Credentials first on every connection, replies matched to
//!   commands in the order sent, typed errors instead of panics.
//! * [`exchange`]: one command through a client that keeps its connection
//!   to itself, credentials in front.
//! * [`cache`]: the read-through call. Look up; on a hit hand the payload
//!   out, on a miss have the value produced and store it behind the
//!   caller's back.
//! * [`middleware`]: the cache-aside step in front of request handlers.
//! * [`key`]: the one derivation of cache keys that all of them share.
//! * [`freshness`]: time-to-live rules; [`billboard`]: the single in-memory
//!   slot of the chart feed, refreshed by one download at a time.
//! * [`store`]: the commands and replies of the store's protocol.
//! * [`session`]: saved playlists and their identifiers.
//! * [`youtube`], [`relay`]: what is sent to the upstream collaborators and
//!   what their answers mean.
//! * [`error`]: the failures, and which of them a caller ever sees.
//! * [`trusted`]: what is assumed of the standard library and of the `csv`
//!   crate.

pub mod billboard;
pub mod cache;
pub mod dispatcher;
pub mod error;
pub mod exchange;
pub mod freshness;
pub mod key;
pub mod middleware;
pub mod relay;
pub mod session;
pub mod store;
pub mod text;
pub mod trusted;
pub mod youtube;
