use songcache::dispatcher::{Dispatch, Dispatcher, Phase, Submission};
use songcache::error::CacheError;
use songcache::store::{Credentials, Response, StoreCommand, StoreReply};

fn get(key: &str) -> StoreCommand {
    StoreCommand::Get { key: key.to_string() }
}

fn set(key: &str, value: &str) -> StoreCommand {
    StoreCommand::SetEx { key: key.to_string(), value: value.to_string(), ttl: 86_400 }
}

fn bulk(text: &str) -> StoreReply {
    StoreReply::Bulk(text.as_bytes().to_vec())
}

fn ok() -> StoreReply {
    StoreReply::Status("OK".to_string())
}

fn secret() -> Option<Credentials> {
    Some(Credentials { user: None, password: "secret".to_string() })
}

#[test]
fn dispatcher_starts_without_connection() {
    let mut dispatcher = Dispatcher::new(None, 8);
    assert_eq!(dispatcher.phase(), Phase::Disconnected);
    assert_eq!(dispatcher.waiting(), 0);
    assert_eq!(
        dispatcher.submit(&get("k")),
        Submission::Refused(CacheError::StoreUnavailable)
    );
    assert_eq!(dispatcher.on_reply(bulk("x")), Dispatch::Unexpected);
    assert_eq!(dispatcher.on_disconnected(), Vec::<u64>::new());
}

#[test]
fn connection_without_credentials_is_ready_at_once() {
    let mut dispatcher = Dispatcher::new(None, 8);
    assert_eq!(dispatcher.on_connected(), None);
    assert_eq!(dispatcher.phase(), Phase::Ready);
    assert_eq!(dispatcher.on_connected(), None);
    assert_eq!(dispatcher.phase(), Phase::Ready);
}

#[test]
fn auth_is_sent_first_on_every_connection() {
    let mut dispatcher = Dispatcher::new(secret(), 8);
    let auth = StoreCommand::Auth { user: None, password: "secret".to_string() };
    assert_eq!(dispatcher.on_connected(), Some(auth.clone()));
    assert_eq!(dispatcher.phase(), Phase::Authenticating);
    assert_eq!(dispatcher.on_reply(ok()), Dispatch::Authenticated);
    assert_eq!(dispatcher.phase(), Phase::Ready);
    assert_eq!(dispatcher.on_disconnected(), Vec::<u64>::new());
    assert_eq!(dispatcher.phase(), Phase::Disconnected);
    assert_eq!(dispatcher.on_connected(), Some(auth));
    assert_eq!(dispatcher.phase(), Phase::Authenticating);
}

#[test]
fn replies_are_matched_to_commands_in_order() {
    let mut dispatcher = Dispatcher::new(None, 8);
    dispatcher.on_connected();
    assert_eq!(dispatcher.submit(&get("a")), Submission::Sent { ticket: 0 });
    assert_eq!(dispatcher.submit(&set("b", "1")), Submission::Sent { ticket: 1 });
    assert_eq!(dispatcher.submit(&StoreCommand::Info), Submission::Sent { ticket: 2 });
    assert_eq!(dispatcher.waiting(), 3);
    assert_eq!(
        dispatcher.on_reply(bulk("alpha")),
        Dispatch::Deliver { ticket: 0, result: Ok(Response::Value(Some("alpha".to_string()))) }
    );
    assert_eq!(dispatcher.submit(&get("c")), Submission::Sent { ticket: 3 });
    assert_eq!(dispatcher.on_reply(ok()), Dispatch::Deliver { ticket: 1, result: Ok(Response::Done) });
    assert_eq!(
        dispatcher.on_reply(bulk("# Server")),
        Dispatch::Deliver { ticket: 2, result: Ok(Response::Info(Some("# Server".to_string()))) }
    );
    assert_eq!(
        dispatcher.on_reply(StoreReply::Nil),
        Dispatch::Deliver { ticket: 3, result: Ok(Response::Value(None)) }
    );
    assert_eq!(dispatcher.waiting(), 0);
    assert_eq!(dispatcher.on_reply(StoreReply::Nil), Dispatch::Unexpected);
}

#[test]
fn reply_of_wrong_shape_fails_only_its_own_command() {
    let mut dispatcher = Dispatcher::new(None, 8);
    dispatcher.on_connected();
    dispatcher.submit(&get("a"));
    dispatcher.submit(&get("b"));
    assert_eq!(
        dispatcher.on_reply(StoreReply::Integer(3)),
        Dispatch::Deliver { ticket: 0, result: Err(CacheError::StoreMalformed) }
    );
    assert_eq!(
        dispatcher.on_reply(bulk("beta")),
        Dispatch::Deliver { ticket: 1, result: Ok(Response::Value(Some("beta".to_string()))) }
    );
}

#[test]
fn no_more_commands_wait_than_the_limit_allows() {
    let mut dispatcher = Dispatcher::new(None, 2);
    dispatcher.on_connected();
    assert_eq!(dispatcher.submit(&get("a")), Submission::Sent { ticket: 0 });
    assert_eq!(dispatcher.submit(&get("b")), Submission::Sent { ticket: 1 });
    assert_eq!(
        dispatcher.submit(&get("c")),
        Submission::Refused(CacheError::StoreUnavailable)
    );
    assert_eq!(dispatcher.waiting(), 2);
    dispatcher.on_reply(StoreReply::Nil);
    assert_eq!(dispatcher.submit(&get("c")), Submission::Sent { ticket: 2 });
    let none = Dispatcher::new(None, 0).submit(&get("a"));
    assert_eq!(none, Submission::Refused(CacheError::StoreUnavailable));
}

#[test]
fn commands_are_sent_behind_an_unanswered_auth() {
    let mut dispatcher = Dispatcher::new(secret(), 8);
    dispatcher.on_connected();
    assert_eq!(dispatcher.submit(&get("a")), Submission::Sent { ticket: 0 });
    assert_eq!(dispatcher.on_reply(ok()), Dispatch::Authenticated);
    assert_eq!(
        dispatcher.on_reply(bulk("alpha")),
        Dispatch::Deliver { ticket: 0, result: Ok(Response::Value(Some("alpha".to_string()))) }
    );
}

#[test]
fn refused_credentials_close_the_connection_to_all_callers() {
    let mut dispatcher = Dispatcher::new(secret(), 8);
    dispatcher.on_connected();
    assert_eq!(dispatcher.submit(&get("early")), Submission::Sent { ticket: 0 });
    assert_eq!(
        dispatcher.on_reply(StoreReply::Error("WRONGPASS invalid password".to_string())),
        Dispatch::Denied
    );
    assert_eq!(dispatcher.phase(), Phase::Rejected);
    assert_eq!(
        dispatcher.submit(&get("k")),
        Submission::Refused(CacheError::StoreUnavailable)
    );
    assert_eq!(
        dispatcher.submit(&set("k", "v")),
        Submission::Refused(CacheError::StoreUnavailable)
    );
    assert_eq!(
        dispatcher.on_reply(bulk("even a good reply")),
        Dispatch::Deliver { ticket: 0, result: Err(CacheError::StoreUnavailable) }
    );
    assert_eq!(dispatcher.phase(), Phase::Rejected);
}

#[test]
fn auth_answered_by_anything_but_ok_is_refused() {
    for reply in [StoreReply::Nil, bulk("OK"), StoreReply::Status("NO".to_string()), StoreReply::Integer(1)] {
        let mut dispatcher = Dispatcher::new(secret(), 8);
        dispatcher.on_connected();
        assert_eq!(dispatcher.on_reply(reply), Dispatch::Denied);
        assert_eq!(dispatcher.phase(), Phase::Rejected);
    }
}

#[test]
fn lost_connection_abandons_all_waiting_commands() {
    let mut dispatcher = Dispatcher::new(None, 8);
    dispatcher.on_connected();
    dispatcher.submit(&get("a"));
    dispatcher.submit(&get("b"));
    dispatcher.on_reply(StoreReply::Nil);
    dispatcher.submit(&get("c"));
    assert_eq!(dispatcher.on_disconnected(), vec![1, 2]);
    assert_eq!(dispatcher.phase(), Phase::Disconnected);
    assert_eq!(dispatcher.waiting(), 0);
    assert_eq!(
        dispatcher.submit(&get("d")),
        Submission::Refused(CacheError::StoreUnavailable)
    );
    dispatcher.on_connected();
    assert_eq!(dispatcher.submit(&get("d")), Submission::Sent { ticket: 3 });
}

#[test]
fn new_connection_after_refusal_serves_again() {
    let mut dispatcher = Dispatcher::new(secret(), 8);
    dispatcher.on_connected();
    dispatcher.on_reply(StoreReply::Error("WRONGPASS".to_string()));
    dispatcher.on_disconnected();
    assert!(dispatcher.on_connected().is_some());
    assert_eq!(dispatcher.on_reply(ok()), Dispatch::Authenticated);
    assert_eq!(dispatcher.submit(&get("k")), Submission::Sent { ticket: 0 });
}

#[test]
fn info_resolves_to_its_reply() {
    let answer = |reply: StoreReply| {
        let mut dispatcher = Dispatcher::new(None, 8);
        dispatcher.on_connected();
        assert_eq!(dispatcher.submit(&StoreCommand::Info), Submission::Sent { ticket: 0 });
        songcache::store::info_text(dispatcher.on_reply(reply).into_delivery())
    };
    assert_eq!(answer(bulk("# Server\r\nredis_version:7")), Ok(Some("# Server\r\nredis_version:7".to_string())));
    assert_eq!(answer(StoreReply::Nil), Ok(None));
    assert_eq!(answer(ok()), Ok(Some("OK".to_string())));
    assert_eq!(answer(StoreReply::Integer(-12)), Ok(Some("-12".to_string())));
    assert_eq!(answer(StoreReply::Error("ERR".to_string())), Err(CacheError::StoreUnavailable));
    assert_eq!(answer(StoreReply::Array), Err(CacheError::StoreMalformed));
    assert_eq!(answer(StoreReply::Bulk(vec![0xff])), Err(CacheError::StoreMalformed));
}

#[test]
fn dispatch_without_delivery_tells_the_caller_the_store_is_unavailable() {
    assert_eq!(Dispatch::Unexpected.into_delivery(), Err(CacheError::StoreUnavailable));
    assert_eq!(Dispatch::Denied.into_delivery(), Err(CacheError::StoreUnavailable));
    assert_eq!(Dispatch::Authenticated.into_delivery(), Err(CacheError::StoreUnavailable));
    assert_eq!(
        Dispatch::Deliver { ticket: 4, result: Ok(Response::Done) }.into_delivery(),
        Ok(Response::Done)
    );
    assert_eq!(
        Dispatch::Deliver { ticket: 4, result: Err(CacheError::StoreMalformed) }.into_delivery(),
        Err(CacheError::StoreMalformed)
    );
}
