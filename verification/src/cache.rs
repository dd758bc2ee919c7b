//! The read-through cache: look the key up in the store; on a hit, hand the
//! stored payload out to be read; on a miss, or where the payload cannot be
//! read, have the value produced, answer with it, and store it behind the
//! caller's back.
//!
//! Failures of the store and unreadable payloads are absorbed here: they
//! turn the call into a miss and are told to the caller's log, never to the
//! caller. Only a failure of the producer ends a call without a value.
//!
//! Nothing here talks to the store, reads a payload or calls the producer.
//! [`get_or_compute`] is a step function: the caller reports what came back
//! and is told what to do next. One [`ReadThrough`] coordinates one call,
//! from the first action that [`ReadThrough::begin`] hands out to the
//! answer. A call without a key asks for the producer at once and stores
//! nothing.
//! Two calls for the same key do not know of each other: both may miss, both
//! may produce, and the later write wins.

use vstd::prelude::*;

use crate::error::CacheError;
use crate::store::{delivery_view, CommandView, Response, ResponseView, StoreCommand};

verus! {

/// The payload that counts as a hit, if the lookup gave one: a stored text
/// that is not empty. Every failure of the store counts as a miss.
pub open spec fn hit_payload(delivery: Result<ResponseView, CacheError>) -> Option<Seq<char>> {
    match delivery {
        Ok(ResponseView::Value(Some(payload))) => if payload.len() > 0 {
            Some(payload)
        } else {
            None
        },
        _ => None,
    }
}

/// Reads the outcome of a `GET` as a hit or a miss.
pub fn read_from_redis(delivery: Result<Response, CacheError>) -> (payload: Option<String>)
    ensures
        crate::store::text_view(payload) == hit_payload(delivery_view(delivery)),
{
    match delivery {
        Ok(Response::Value(Some(payload))) => if payload.as_str().is_empty() {
            None
        } else {
            Some(payload)
        },
        _ => None,
    }
}

/// The failure behind a lookup that is no hit, if there is one: an error of
/// the store, or an answer that is no answer to a lookup. A key that is
/// simply absent, or holds an empty text, is a miss without a failure.
pub open spec fn absorbed_error(delivery: Result<ResponseView, CacheError>) -> Option<CacheError> {
    match delivery {
        Err(error) => Some(error),
        Ok(ResponseView::Value(_)) => None,
        Ok(_) => Some(CacheError::StoreMalformed),
    }
}

fn failure_of(delivery: &Result<Response, CacheError>) -> (failure: Option<CacheError>)
    ensures
        failure == absorbed_error(delivery_view(*delivery)),
{
    match delivery {
        Err(error) => Some(*error),
        Ok(Response::Value(_)) => None,
        Ok(_) => Some(CacheError::StoreMalformed),
    }
}

/// The command that stores `data` under `key` for `ttl` seconds. It is meant
/// to be sent without waiting for its outcome: a failed write costs a later
/// miss and nothing else.
pub fn write_to_redis(key: String, data: String, ttl: u64) -> (command: StoreCommand)
    ensures
        command@ == (CommandView::SetEx { key: key@, value: data@, ttl: ttl as nat }),
{
    StoreCommand::SetEx { key, value: data, ttl }
}

/// How far a call has come.
#[derive(Clone, Copy, Debug, PartialEq, Eq, Structural)]
pub enum Stage {
    /// The lookup was sent; its outcome is awaited.
    AwaitingStore,
    /// A payload was handed out to be read; the reading is awaited.
    AwaitingDecode,
    /// The producer was asked for the value; its result is awaited.
    AwaitingProducer,
    /// The caller has its answer.
    Finished,
}

/// The coordinator of one call.
pub struct ReadThrough {
    key: Option<String>,
    ttl: u64,
    stage: Stage,
}

/// A coordinator as plain values.
pub struct ReadThroughView {
    /// The key of the call; `None` for a call that is not cached.
    pub key: Option<Seq<char>>,
    pub ttl: nat,
    pub stage: Stage,
}

impl ReadThroughView {
    /// The same call at another stage.
    pub open spec fn at(self, stage: Stage) -> ReadThroughView {
        ReadThroughView { key: self.key, ttl: self.ttl, stage }
    }
}

impl View for ReadThrough {
    type V = ReadThroughView;

    closed spec fn view(&self) -> ReadThroughView {
        ReadThroughView {
            key: crate::store::text_view(self.key),
            ttl: self.ttl as nat,
            stage: self.stage,
        }
    }
}

/// What the caller reports.
#[derive(Debug, PartialEq)]
pub enum Event<V> {
    /// The outcome of the lookup.
    Looked(Result<Response, CacheError>),
    /// The reading of the payload: the value, or `None` where the payload is
    /// not a value.
    Decoded(Option<V>),
    /// The producer's result, with the payload that stands for it in the
    /// store (`None` where it has none).
    Produced { value: V, payload: Option<String> },
    /// The producer failed.
    Failed,
}

/// An event as plain values.
pub enum EventView<V> {
    Looked(Result<ResponseView, CacheError>),
    Decoded(Option<V>),
    Produced { value: V, payload: Option<Seq<char>> },
    Failed,
}

impl<V> View for Event<V> {
    type V = EventView<V>;

    open spec fn view(&self) -> EventView<V> {
        match self {
            Event::Looked(delivery) => EventView::Looked(delivery_view(*delivery)),
            Event::Decoded(value) => EventView::Decoded(*value),
            Event::Produced { value, payload } => EventView::Produced {
                value: *value,
                payload: crate::store::text_view(*payload),
            },
            Event::Failed => EventView::Failed,
        }
    }
}

/// What the caller is told to do.
#[derive(Debug, PartialEq)]
pub enum Action<V> {
    /// Send this lookup to the store and report `Looked`.
    Lookup(StoreCommand),
    /// Read this payload and report `Decoded`.
    Decode(String),
    /// Call the producer and report `Produced` or `Failed`. `because` is
    /// the failure that made a miss of this call, for the log; it is `None`
    /// where the key was simply absent.
    Produce { because: Option<CacheError> },
    /// Answer with `value`. Where `write` holds a command, send it to the
    /// store without waiting for its outcome.
    Return { value: V, write: Option<StoreCommand> },
    /// Answer that no value could be had.
    Fail(CacheError),
    /// The event does not belong to this stage of the call: do nothing.
    Ignore,
}

/// An action as plain values.
pub enum ActionView<V> {
    Lookup(CommandView),
    Decode(Seq<char>),
    Produce { because: Option<CacheError> },
    Return { value: V, write: Option<CommandView> },
    Fail(CacheError),
    Ignore,
}

/// The view of an optional command.
pub open spec fn command_view(command: Option<StoreCommand>) -> Option<CommandView> {
    match command {
        Some(c) => Some(c@),
        None => None,
    }
}

impl<V> View for Action<V> {
    type V = ActionView<V>;

    open spec fn view(&self) -> ActionView<V> {
        match self {
            Action::Lookup(command) => ActionView::Lookup(command@),
            Action::Decode(payload) => ActionView::Decode(payload@),
            Action::Produce { because } => ActionView::Produce { because: *because },
            Action::Return { value, write } => ActionView::Return {
                value: *value,
                write: command_view(*write),
            },
            Action::Fail(error) => ActionView::Fail(*error),
            Action::Ignore => ActionView::Ignore,
        }
    }
}

/// The write that follows a produced value: the payload goes to the store
/// under the call's key with the call's time to live. A value without a
/// payload is not stored, and a call without a key stores nothing.
pub open spec fn write_behind(call: ReadThroughView, payload: Option<Seq<char>>) -> Option<
    CommandView,
> {
    match (call.key, payload) {
        (Some(key), Some(text)) => Some(CommandView::SetEx { key, value: text, ttl: call.ttl }),
        _ => None,
    }
}

/// How a call begins: with the lookup of its key, or, where it has no key,
/// with the producer.
pub open spec fn read_through_start<V>(key: Option<Seq<char>>, ttl: nat) -> (
    ReadThroughView,
    ActionView<V>,
) {
    match key {
        Some(text) => (
            ReadThroughView { key, ttl, stage: Stage::AwaitingStore },
            ActionView::Lookup(CommandView::Get { key: text }),
        ),
        None => (
            ReadThroughView { key, ttl, stage: Stage::AwaitingProducer },
            ActionView::Produce { because: None },
        ),
    }
}

/// The transition function of a call.
///
/// * The lookup came back. A hit hands the payload out to be read; anything
///   else asks for the producer.
/// * The payload was read. A value is the answer, and nothing is written; a
///   payload that is no value asks for the producer.
/// * The producer returned. Its value is the answer, and its payload is
///   written behind.
/// * The producer failed. The caller is told so, and nothing is written.
/// * An event that the stage does not await changes nothing.
pub open spec fn read_through_step<V>(call: ReadThroughView, event: EventView<V>) -> (
    ReadThroughView,
    ActionView<V>,
) {
    match (call.stage, event) {
        (Stage::AwaitingStore, EventView::Looked(delivery)) => match hit_payload(delivery) {
            Some(payload) => (call.at(Stage::AwaitingDecode), ActionView::Decode(payload)),
            None => (
                call.at(Stage::AwaitingProducer),
                ActionView::Produce { because: absorbed_error(delivery) },
            ),
        },
        (Stage::AwaitingDecode, EventView::Decoded(Some(value))) => (
            call.at(Stage::Finished),
            ActionView::Return { value, write: None },
        ),
        (Stage::AwaitingDecode, EventView::Decoded(None)) => (
            call.at(Stage::AwaitingProducer),
            ActionView::Produce { because: Some(CacheError::SerializationFailure) },
        ),
        (Stage::AwaitingProducer, EventView::Produced { value, payload }) => (
            call.at(Stage::Finished),
            ActionView::Return { value, write: write_behind(call, payload) },
        ),
        (Stage::AwaitingProducer, EventView::Failed) => (
            call.at(Stage::Finished),
            ActionView::Fail(CacheError::UpstreamFailure),
        ),
        _ => (call, ActionView::Ignore),
    }
}

impl ReadThrough {
    /// Starts a call, for `key` where there is one, and says what to do
    /// first.
    pub fn begin<V>(key: Option<String>, ttl: u64) -> (started: (ReadThrough, Action<V>))
        ensures
            (started.0@, started.1@) == read_through_start::<V>(
                crate::store::text_view(key),
                ttl as nat,
            ),
    {
        match &key {
            Some(text) => {
                let lookup = StoreCommand::Get { key: text.clone() };
                (ReadThrough { key, ttl, stage: Stage::AwaitingStore }, Action::Lookup(lookup))
            },
            None => (
                ReadThrough { key, ttl, stage: Stage::AwaitingProducer },
                Action::Produce { because: None },
            ),
        }
    }

    /// How far the call has come.
    pub fn stage(&self) -> (stage: Stage)
        ensures
            stage == self@.stage,
    {
        self.stage
    }
}

/// Advances a call by one event and says what to do next.
pub fn get_or_compute<V>(call: &mut ReadThrough, event: Event<V>) -> (action: Action<V>)
    ensures
        (final(call)@, action@) == read_through_step(old(call)@, event@),
{
    match call.stage {
        Stage::AwaitingStore => match event {
            Event::Looked(delivery) => {
                let because = failure_of(&delivery);
                match read_from_redis(delivery) {
                    Some(payload) => {
                        call.stage = Stage::AwaitingDecode;
                        Action::Decode(payload)
                    },
                    None => {
                        call.stage = Stage::AwaitingProducer;
                        Action::Produce { because }
                    },
                }
            },
            _ => Action::Ignore,
        },
        Stage::AwaitingDecode => match event {
            Event::Decoded(Some(value)) => {
                call.stage = Stage::Finished;
                Action::Return { value, write: None }
            },
            Event::Decoded(None) => {
                call.stage = Stage::AwaitingProducer;
                Action::Produce { because: Some(CacheError::SerializationFailure) }
            },
            _ => Action::Ignore,
        },
        Stage::AwaitingProducer => match event {
            Event::Produced { value, payload } => {
                call.stage = Stage::Finished;
                let write = match (&call.key, payload) {
                    (Some(key), Some(text)) => Some(write_to_redis(key.clone(), text, call.ttl)),
                    _ => None,
                };
                Action::Return { value, write }
            },
            Event::Failed => {
                call.stage = Stage::Finished;
                Action::Fail(CacheError::UpstreamFailure)
            },
            _ => Action::Ignore,
        },
        Stage::Finished => Action::Ignore,
    }
}

/// The actions that a call issues in answer to a sequence of events, and the
/// call as it stands afterwards.
pub open spec fn run<V>(call: ReadThroughView, events: Seq<EventView<V>>) -> (
    ReadThroughView,
    Seq<ActionView<V>>,
)
    decreases events.len(),
{
    if events.len() == 0 {
        (call, Seq::empty())
    } else {
        let (before, actions) = run(call, events.drop_last());
        let (after, action) = read_through_step(before, events.last());
        (after, actions.push(action))
    }
}

/// How many times the actions ask for the producer.
pub open spec fn producer_calls<V>(actions: Seq<ActionView<V>>) -> nat {
    actions.filter(|action: ActionView<V>| action is Produce).len()
}

/// How many times the actions answer the caller.
pub open spec fn answers<V>(actions: Seq<ActionView<V>>) -> nat {
    actions.filter(|action: ActionView<V>| action is Return || action is Fail).len()
}

/// How many calls of the producer a call at this stage may still make.
pub open spec fn producer_calls_left(stage: Stage) -> nat {
    match stage {
        Stage::AwaitingStore | Stage::AwaitingDecode => 1,
        Stage::AwaitingProducer | Stage::Finished => 0,
    }
}

/// How many answers a call at this stage may still give.
pub open spec fn answers_left(stage: Stage) -> nat {
    match stage {
        Stage::Finished => 0,
        _ => 1,
    }
}

proof fn lemma_count_after_push<A>(items: Seq<A>, item: A, wanted: spec_fn(A) -> bool)
    ensures
        items.push(item).filter(wanted).len() == items.filter(wanted).len() + (if wanted(item) {
            1nat
        } else {
            0nat
        }),
{
    reveal(Seq::filter);
    assert(items.push(item).drop_last() == items);
}

/// A miss makes exactly one call of the producer, and the caller gets what
/// the producer returned. This holds of every outcome of the lookup that is
/// no hit: an absent key, an empty payload, and every failure of the store.
pub proof fn law_miss_calls_producer_once<V>(
    call: ReadThroughView,
    delivery: Result<ResponseView, CacheError>,
    value: V,
    payload: Option<Seq<char>>,
)
    requires
        call.stage is AwaitingStore,
        hit_payload(delivery) is None,
    ensures
        ({
            let events = seq![EventView::Looked(delivery), EventView::Produced { value, payload }];
            let (end, actions) = run(call, events);
            &&& actions == seq![
                ActionView::Produce { because: absorbed_error(delivery) },
                ActionView::Return { value, write: write_behind(call, payload) },
            ]
            &&& producer_calls(actions) == 1
            &&& end.stage is Finished
        }),
{
    reveal_with_fuel(run, 3);
    let answer = ActionView::Return { value, write: write_behind(call, payload) };
    let wanted = |action: ActionView<V>| action is Produce;
    let none = Seq::<ActionView<V>>::empty();
    assert(none.filter(wanted).len() == 0) by {
        reveal(Seq::filter);
    }
    let ask = ActionView::<V>::Produce { because: absorbed_error(delivery) };
    lemma_count_after_push(none, ask, wanted);
    lemma_count_after_push(none.push(ask), answer, wanted);
}

/// A hit makes no call of the producer and writes nothing: the payload that
/// is handed out to be read is the stored one, character for character, and
/// the caller gets the value it reads as.
pub proof fn law_hit_skips_producer<V>(
    call: ReadThroughView,
    delivery: Result<ResponseView, CacheError>,
    stored: Seq<char>,
    value: V,
)
    requires
        call.stage is AwaitingStore,
        delivery == Ok::<ResponseView, CacheError>(ResponseView::Value(Some(stored))),
        stored.len() > 0,
    ensures
        ({
            let events = seq![EventView::Looked(delivery), EventView::Decoded(Some(value))];
            let (end, actions) = run(call, events);
            &&& actions == seq![
                ActionView::Decode(stored),
                ActionView::Return { value, write: None },
            ]
            &&& producer_calls(actions) == 0
            &&& end.stage is Finished
        }),
{
    reveal_with_fuel(run, 3);
    let hand_out = ActionView::<V>::Decode(stored);
    let answer = ActionView::Return { value, write: None };
    let wanted = |action: ActionView<V>| action is Produce;
    let none = Seq::<ActionView<V>>::empty();
    assert(none.filter(wanted).len() == 0) by {
        reveal(Seq::filter);
    }
    lemma_count_after_push(none, hand_out, wanted);
    lemma_count_after_push(none.push(hand_out), answer, wanted);
}

/// What one call stores, the next call for the same key returns: after a
/// miss the payload of the produced value is written under the call's key
/// with the call's time to live, and while the store still holds that payload
/// a later call hands exactly it out to be read and answers with the value it
/// reads as, provided that this is the value it was written for.
pub proof fn law_stored_value_is_read_back<V>(
    call: ReadThroughView,
    key: Seq<char>,
    miss: Result<ResponseView, CacheError>,
    value: V,
    payload: Seq<char>,
)
    requires
        call.stage is AwaitingStore,
        call.key == Some(key),
        hit_payload(miss) is None,
        payload.len() > 0,
    ensures
        run(
            call,
            seq![EventView::Looked(miss), EventView::Produced { value, payload: Some(payload) }],
        ).1 == seq![
            ActionView::Produce { because: absorbed_error(miss) },
            ActionView::Return {
                value,
                write: Some(CommandView::SetEx { key, value: payload, ttl: call.ttl }),
            },
        ],
        run(
            call,
            seq![
                EventView::Looked(Ok(ResponseView::Value(Some(payload)))),
                EventView::Decoded(Some(value)),
            ],
        ).1 == seq![ActionView::Decode(payload), ActionView::Return { value, write: None }],
{
    law_miss_calls_producer_once(call, miss, value, Some(payload));
    law_hit_skips_producer(call, Ok(ResponseView::Value(Some(payload))), payload, value);
}

/// A stored payload that cannot be read is treated as a miss: the producer
/// is called once, its value is the answer, and the payload is replaced.
pub proof fn law_unreadable_payload_is_recomputed<V>(
    call: ReadThroughView,
    delivery: Result<ResponseView, CacheError>,
    value: V,
    payload: Option<Seq<char>>,
)
    requires
        call.stage is AwaitingStore,
        hit_payload(delivery) is Some,
    ensures
        ({
            let events = seq![
                EventView::Looked(delivery),
                EventView::Decoded(None),
                EventView::Produced { value, payload },
            ];
            run(call, events).1 == seq![
                ActionView::Decode(hit_payload(delivery).unwrap()),
                ActionView::Produce { because: Some(CacheError::SerializationFailure) },
                ActionView::Return { value, write: write_behind(call, payload) },
            ]
        }),
{
    reveal_with_fuel(run, 4);
}

/// No failure of the store and no unreadable payload ever reaches the
/// caller: whatever the lookup or the reading gave, the call goes on to a
/// payload or to the producer. A call fails only where the producer failed,
/// and then with `UpstreamFailure`; what it absorbed on the way is an error
/// that may be absorbed.
pub proof fn law_only_upstream_failures_surface<V>(call: ReadThroughView, event: EventView<V>)
    ensures
        call.stage is AwaitingStore && event is Looked ==> read_through_step(call, event).1
            is Decode || read_through_step(call, event).1 is Produce,
        call.stage is AwaitingDecode && event is Decoded ==> read_through_step(call, event).1
            is Return || read_through_step(call, event).1 is Produce,
        read_through_step(call, event).1 is Fail ==> call.stage is AwaitingProducer && event
            is Failed && read_through_step(call, event).1 == ActionView::<V>::Fail(
            CacheError::UpstreamFailure,
        ),
        call.stage is AwaitingDecode ==> (read_through_step(call, event).1
            matches ActionView::Produce { because: Some(error) } ==> error.absorbed()),
{
}

/// A call without a key asks for the producer at once, never looks anything
/// up, and stores nothing: the producer's value is its answer.
pub proof fn law_call_without_key_only_produces<V>(ttl: nat, value: V, payload: Option<Seq<char>>)
    ensures
        ({
            let (call, first) = read_through_start::<V>(None, ttl);
            &&& first == ActionView::<V>::Produce { because: None }
            &&& read_through_step(call, EventView::Produced { value, payload }).1
                == (ActionView::Return { value, write: None })
            &&& producer_calls_left(call.stage) == 0
        }),
{
}

/// Whatever is reported to a call, in whatever order, it asks for the
/// producer at most once and answers the caller at most once. (The count is
/// of what follows the first action; only a call without a key begins with
/// the producer, and it has no call of the producer left.)
pub proof fn law_at_most_one_producer_call<V>(call: ReadThroughView, events: Seq<EventView<V>>)
    ensures
        producer_calls(run(call, events).1) + producer_calls_left(run(call, events).0.stage)
            <= producer_calls_left(call.stage),
        answers(run(call, events).1) + answers_left(run(call, events).0.stage) <= answers_left(
            call.stage,
        ),
        producer_calls(run(call, events).1) <= 1,
        answers(run(call, events).1) <= 1,
    decreases events.len(),
{
    let produce = |action: ActionView<V>| action is Produce;
    let answer = |action: ActionView<V>| action is Return || action is Fail;
    if events.len() == 0 {
        reveal(Seq::filter);
    } else {
        law_at_most_one_producer_call(call, events.drop_last());
        let (before, actions) = run(call, events.drop_last());
        let (after, action) = read_through_step(before, events.last());
        lemma_count_after_push(actions, action, produce);
        lemma_count_after_push(actions, action, answer);
    }
}

} // verus!
