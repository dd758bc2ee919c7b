use songcache::cache::{
    get_or_compute, read_from_redis, write_to_redis, Action, Event, ReadThrough, Stage,
};
use songcache::dispatcher::{Dispatch, Dispatcher, Submission};
use songcache::error::CacheError;
use songcache::freshness::{CacheEntry, SEARCH_TTL};
use songcache::key::cache_key;
use songcache::store::{interpret, Credentials, Response, StoreCommand, StoreReply};

/// A store that keeps entries with their time to live, as the backing store
/// does.
struct MemoryStore {
    entries: Vec<CacheEntry>,
}

impl MemoryStore {
    fn new() -> MemoryStore {
        MemoryStore { entries: Vec::new() }
    }

    fn apply(&mut self, command: &StoreCommand, now: u64) -> StoreReply {
        match command {
            StoreCommand::Get { key } => {
                match self.entries.iter().find(|e| e.key == *key).and_then(|e| e.read(now)) {
                    Some(value) => StoreReply::Bulk(value.clone().into_bytes()),
                    None => StoreReply::Nil,
                }
            }
            StoreCommand::SetEx { key, value, ttl } => {
                self.entries.retain(|e| e.key != *key);
                self.entries.push(CacheEntry::new(key.clone(), value.clone(), now, *ttl));
                StoreReply::Status("OK".to_string())
            }
            StoreCommand::Auth { .. } => StoreReply::Status("OK".to_string()),
            StoreCommand::Info => StoreReply::Bulk(b"# Memory".to_vec()),
        }
    }
}

fn encode(value: &Vec<String>) -> String {
    value.join("|")
}

fn decode(payload: &str) -> Option<Vec<String>> {
    if payload.starts_with('!') {
        None
    } else {
        Some(payload.split('|').map(|s| s.to_string()).collect())
    }
}

/// Runs one call to its end against `store`, counting the producer's calls.
fn run_call(
    store: &mut MemoryStore,
    key: &str,
    ttl: u64,
    now: u64,
    produced: &Vec<String>,
    calls: &mut u32,
) -> Vec<String> {
    let (mut call, mut action) = ReadThrough::begin(Some(key.to_string()), ttl);
    loop {
        action = match action {
            Action::Lookup(lookup) => {
                let reply = store.apply(&lookup, now);
                get_or_compute(&mut call, Event::Looked(interpret(lookup.kind(), reply)))
            }
            Action::Decode(payload) => get_or_compute(&mut call, Event::Decoded(decode(&payload))),
            Action::Produce { .. } => {
                *calls += 1;
                let event = Event::Produced {
                    value: produced.clone(),
                    payload: Some(encode(produced)),
                };
                get_or_compute(&mut call, event)
            }
            Action::Return { value, write } => {
                if let Some(command) = write {
                    store.apply(&command, now);
                }
                assert_eq!(call.stage(), Stage::Finished);
                return value;
            }
            Action::Fail(error) => panic!("the call failed with {:?}", error),
            Action::Ignore => panic!("the call ignored an event it had asked for"),
        };
    }
}

fn begun(key: &str, ttl: u64) -> ReadThrough {
    ReadThrough::begin::<u32>(Some(key.to_string()), ttl).0
}

fn looked(delivery: Result<Response, CacheError>) -> Event<u32> {
    Event::Looked(delivery)
}

#[test]
fn hit_is_a_stored_text_that_is_not_empty() {
    assert_eq!(
        read_from_redis(Ok(Response::Value(Some("body".to_string())))),
        Some("body".to_string())
    );
    assert_eq!(read_from_redis(Ok(Response::Value(Some(String::new())))), None);
    assert_eq!(read_from_redis(Ok(Response::Value(None))), None);
    assert_eq!(read_from_redis(Ok(Response::Done)), None);
    assert_eq!(read_from_redis(Ok(Response::Info(Some("x".to_string())))), None);
    assert_eq!(read_from_redis(Err(CacheError::StoreUnavailable)), None);
    assert_eq!(read_from_redis(Err(CacheError::StoreMalformed)), None);
}

#[test]
fn write_is_a_set_with_expiry() {
    assert_eq!(
        write_to_redis("k".to_string(), "v".to_string(), 864_000),
        StoreCommand::SetEx { key: "k".to_string(), value: "v".to_string(), ttl: 864_000 }
    );
    assert_eq!(
        write_to_redis("k".to_string(), "v".to_string(), 864_000).words(),
        vec!["SET", "k", "v", "EX", "864000"]
    );
}

#[test]
fn call_begins_with_a_lookup_of_its_key() {
    let (call, first) = ReadThrough::begin::<u32>(Some("search:piano".to_string()), 60);
    assert_eq!(first, Action::Lookup(StoreCommand::Get { key: "search:piano".to_string() }));
    assert_eq!(call.stage(), Stage::AwaitingStore);
}

#[test]
fn miss_calls_the_producer_once_and_returns_its_value() {
    let mut call = begun("k", 60);
    assert_eq!(
        get_or_compute(&mut call, looked(Ok(Response::Value(None)))),
        Action::Produce { because: None }
    );
    assert_eq!(call.stage(), Stage::AwaitingProducer);
    assert_eq!(
        get_or_compute(&mut call, Event::Produced { value: 7u32, payload: Some("7".to_string()) }),
        Action::Return {
            value: 7,
            write: Some(StoreCommand::SetEx {
                key: "k".to_string(),
                value: "7".to_string(),
                ttl: 60
            })
        }
    );
    assert_eq!(call.stage(), Stage::Finished);
    assert_eq!(
        get_or_compute(&mut call, Event::Produced { value: 8u32, payload: None }),
        Action::Ignore
    );
    assert_eq!(get_or_compute(&mut call, looked(Ok(Response::Value(None)))), Action::Ignore);
}

#[test]
fn hit_returns_the_stored_value_without_the_producer() {
    let mut call = begun("k", 60);
    assert_eq!(
        get_or_compute(&mut call, looked(Ok(Response::Value(Some("41".to_string()))))),
        Action::Decode("41".to_string())
    );
    assert_eq!(call.stage(), Stage::AwaitingDecode);
    assert_eq!(
        get_or_compute(&mut call, Event::Decoded(Some(41u32))),
        Action::Return { value: 41, write: None }
    );
    assert_eq!(call.stage(), Stage::Finished);
}

#[test]
fn unreadable_payload_is_recomputed() {
    let mut call = begun("k", 60);
    assert_eq!(
        get_or_compute(&mut call, looked(Ok(Response::Value(Some("garbage".to_string()))))),
        Action::Decode("garbage".to_string())
    );
    assert_eq!(
        get_or_compute(&mut call, Event::<u32>::Decoded(None)),
        Action::Produce { because: Some(CacheError::SerializationFailure) }
    );
    assert_eq!(
        get_or_compute(&mut call, Event::Produced { value: 5u32, payload: Some("5".to_string()) }),
        Action::Return {
            value: 5,
            write: Some(StoreCommand::SetEx {
                key: "k".to_string(),
                value: "5".to_string(),
                ttl: 60
            })
        }
    );
}

#[test]
fn every_store_failure_is_a_miss() {
    for (failure, because) in [
        (Err(CacheError::StoreUnavailable), Some(CacheError::StoreUnavailable)),
        (Err(CacheError::StoreMalformed), Some(CacheError::StoreMalformed)),
        (Ok(Response::Done), Some(CacheError::StoreMalformed)),
        (Ok(Response::Info(Some("i".to_string()))), Some(CacheError::StoreMalformed)),
        (Ok(Response::Value(Some(String::new()))), None),
        (Ok(Response::Value(None)), None),
    ] {
        let mut call = begun("k", 60);
        assert_eq!(get_or_compute(&mut call, looked(failure)), Action::Produce { because });
        assert_eq!(call.stage(), Stage::AwaitingProducer);
    }
}

#[test]
fn failed_producer_is_the_only_failure_that_surfaces() {
    let mut call = begun("k", 60);
    get_or_compute(&mut call, looked(Err(CacheError::StoreUnavailable)));
    assert_eq!(
        get_or_compute(&mut call, Event::<u32>::Failed),
        Action::Fail(CacheError::UpstreamFailure)
    );
    assert_eq!(call.stage(), Stage::Finished);
    assert_eq!(get_or_compute(&mut call, Event::<u32>::Failed), Action::Ignore);

    let mut early = begun("k", 60);
    assert_eq!(get_or_compute(&mut early, Event::<u32>::Failed), Action::Ignore);
    assert_eq!(early.stage(), Stage::AwaitingStore);
}

#[test]
fn value_without_payload_is_returned_and_not_stored() {
    let mut call = begun("k", 60);
    get_or_compute(&mut call, looked(Ok(Response::Value(None))));
    assert_eq!(
        get_or_compute(&mut call, Event::Produced { value: 3u32, payload: None }),
        Action::Return { value: 3, write: None }
    );
}

#[test]
fn events_out_of_turn_change_nothing() {
    let mut call = begun("k", 60);
    assert_eq!(get_or_compute(&mut call, Event::Decoded(Some(1u32))), Action::Ignore);
    assert_eq!(
        get_or_compute(&mut call, Event::Produced { value: 1u32, payload: None }),
        Action::Ignore
    );
    assert_eq!(call.stage(), Stage::AwaitingStore);
    get_or_compute(&mut call, looked(Ok(Response::Value(Some("x".to_string())))));
    assert_eq!(get_or_compute(&mut call, looked(Ok(Response::Value(None)))), Action::Ignore);
    assert_eq!(
        get_or_compute(&mut call, Event::Produced { value: 1u32, payload: None }),
        Action::Ignore
    );
    assert_eq!(call.stage(), Stage::AwaitingDecode);
}

#[test]
fn search_piano_on_an_empty_store() {
    let mut store = MemoryStore::new();
    let key = cache_key("search", "piano").unwrap();
    assert_eq!(key, "search:piano");
    let r1 = vec!["Moonlight Sonata".to_string(), "Clair de Lune".to_string()];
    let mut calls = 0;
    let got = run_call(&mut store, &key, SEARCH_TTL, 1_000, &r1, &mut calls);
    assert_eq!(got, r1);
    assert_eq!(calls, 1);
    assert_eq!(
        store.entries,
        vec![CacheEntry {
            key: "search:piano".to_string(),
            value: encode(&r1),
            stored_at: 1_000,
            ttl: 86_400
        }]
    );
}

#[test]
fn second_call_is_served_from_the_store_until_the_ttl_runs_out() {
    let mut store = MemoryStore::new();
    let r1 = vec!["first".to_string()];
    let r2 = vec!["second".to_string()];
    let mut calls = 0;
    assert_eq!(run_call(&mut store, "k", 60, 1_000, &r1, &mut calls), r1);
    assert_eq!(calls, 1);
    assert_eq!(run_call(&mut store, "k", 60, 1_059, &r2, &mut calls), r1);
    assert_eq!(calls, 1);
    assert_eq!(run_call(&mut store, "k", 60, 1_060, &r2, &mut calls), r2);
    assert_eq!(calls, 2);
    assert_eq!(run_call(&mut store, "k", 60, 1_061, &r1, &mut calls), r2);
    assert_eq!(calls, 2);
}

#[test]
fn stored_garbage_is_replaced_by_a_fresh_value() {
    let mut store = MemoryStore::new();
    store.apply(
        &StoreCommand::SetEx { key: "k".to_string(), value: "!broken".to_string(), ttl: 60 },
        0,
    );
    let fresh = vec!["fresh".to_string()];
    let mut calls = 0;
    assert_eq!(run_call(&mut store, "k", 60, 1, &fresh, &mut calls), fresh);
    assert_eq!(calls, 1);
    assert_eq!(store.entries.len(), 1);
    assert_eq!(store.entries[0].value, "fresh");
    assert_eq!(run_call(&mut store, "k", 60, 2, &vec![], &mut calls), fresh);
    assert_eq!(calls, 1);
}

#[test]
fn failed_auth_disables_the_cache_without_failing_the_calls() {
    let credentials = Credentials { user: None, password: "wrong".to_string() };
    let mut dispatcher = Dispatcher::new(Some(credentials), 4);
    assert!(dispatcher.on_connected().is_some());
    assert_eq!(
        dispatcher.on_reply(StoreReply::Error("WRONGPASS invalid password".to_string())),
        Dispatch::Denied
    );
    let mut calls = 0;
    for round in 0..3u32 {
        let (mut call, first) = ReadThrough::begin::<u32>(Some("search:piano".to_string()), SEARCH_TTL);
        let lookup = match first {
            Action::Lookup(lookup) => lookup,
            other => panic!("unexpected action {:?}", other),
        };
        let delivery = match dispatcher.submit(&lookup) {
            Submission::Refused(error) => Err(error),
            Submission::Sent { .. } => panic!("a denied connection sent a command"),
        };
        assert_eq!(delivery, Err(CacheError::StoreUnavailable));
        assert_eq!(
            get_or_compute(&mut call, Event::<u32>::Looked(delivery)),
            Action::Produce { because: Some(CacheError::StoreUnavailable) }
        );
        calls += 1;
        let answer = get_or_compute(
            &mut call,
            Event::Produced { value: round, payload: Some(round.to_string()) },
        );
        match answer {
            Action::Return { value, write: Some(command) } => {
                assert_eq!(value, round);
                assert_eq!(
                    dispatcher.submit(&command),
                    Submission::Refused(CacheError::StoreUnavailable)
                );
            }
            other => panic!("unexpected action {:?}", other),
        }
    }
    assert_eq!(calls, 3);
}

#[test]
fn search_results_survive_the_trip_through_the_store_as_json() {
    let results: Vec<(String, String, String)> = vec![
        ("Clair de Lune \"live\"".to_string(), "Debussy | fan".to_string(), "v1".to_string()),
        ("Gymnopédie No.1".to_string(), "Satie".to_string(), "v2".to_string()),
    ];
    let mut store = MemoryStore::new();
    let mut answers = Vec::new();
    let mut calls = 0;
    for now in [10, 20] {
        let (mut call, mut action) =
            ReadThrough::begin(Some("search:piano".to_string()), SEARCH_TTL);
        let answer = loop {
            action = match action {
                Action::Lookup(lookup) => {
                    let reply = store.apply(&lookup, now);
                    get_or_compute(&mut call, Event::Looked(interpret(lookup.kind(), reply)))
                }
                Action::Decode(payload) => {
                    let read = serde_json::from_str::<Vec<(String, String, String)>>(&payload).ok();
                    get_or_compute(&mut call, Event::Decoded(read))
                }
                Action::Produce { .. } => {
                    calls += 1;
                    let payload = serde_json::to_string(&results).ok();
                    get_or_compute(&mut call, Event::Produced { value: results.clone(), payload })
                }
                Action::Return { value, write } => {
                    if let Some(command) = write {
                        store.apply(&command, now);
                    }
                    break value;
                }
                Action::Fail(error) => panic!("the call failed with {:?}", error),
                Action::Ignore => panic!("the call ignored an event it had asked for"),
            };
        };
        answers.push(answer);
    }
    assert_eq!(calls, 1);
    assert_eq!(answers, vec![results.clone(), results.clone()]);
    assert_eq!(store.entries[0].value, serde_json::to_string(&results).unwrap());
}

#[test]
fn call_without_key_produces_at_once_and_stores_nothing() {
    let (mut call, first) = ReadThrough::begin::<u32>(None, 60);
    assert_eq!(first, Action::Produce { because: None });
    assert_eq!(call.stage(), Stage::AwaitingProducer);
    assert_eq!(get_or_compute(&mut call, looked(Ok(Response::Value(None)))), Action::Ignore);
    assert_eq!(
        get_or_compute(&mut call, Event::Produced { value: 9u32, payload: Some("9".to_string()) }),
        Action::Return { value: 9, write: None }
    );
    assert_eq!(call.stage(), Stage::Finished);
}
