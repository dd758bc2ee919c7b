use songcache::freshness::SESSION_TTL;
use songcache::session::{
    load_command, requested_id, save_command, session_id, session_key, Session, ID_LENGTH,
};
use songcache::store::StoreCommand;
use songcache::youtube::PlaylistEntry;

#[test]
fn identifier_is_base64url_of_byte_and_time() {
    assert_eq!(session_id(0, 0), "AAAAAAAAAAAA");
    assert_eq!(session_id(255, u64::MAX), "____________");
    assert_eq!(session_id(1, 1_700_000_000_000), "AQAAAYvP5WgA");
    assert_eq!(session_id(2, 1_700_000_000_000), "AgAAAYvP5WgA");
    assert_eq!(session_id(1, 1_700_000_000_001), "AQAAAYvP5WgB");
    assert_eq!(session_id(0x5a, 0x0123_4567_89ab_cdef), "WgEjRWeJq83v");
    assert_eq!(session_id(0, 63), "AAAAAAAAAAA_");
    assert_eq!(session_id(0, 64), "AAAAAAAAAABA");
    assert_eq!(session_id(0, 62), "AAAAAAAAAAA-");
}

#[test]
fn identifier_has_twelve_url_safe_characters() {
    assert_eq!(ID_LENGTH, 12);
    let mut millis: u64 = 1;
    for random in 0..=255u8 {
        let id = session_id(random, millis);
        assert_eq!(id.chars().count(), 12);
        assert!(id.chars().all(|c| c.is_ascii_alphanumeric() || c == '-' || c == '_'));
        millis = millis.wrapping_mul(6364136223846793005).wrapping_add(1442695040888963407);
    }
}

#[test]
fn identifiers_differ_when_byte_or_time_differs() {
    let base = session_id(7, 1_000);
    assert_ne!(base, session_id(8, 1_000));
    assert_ne!(base, session_id(7, 1_001));
    assert_ne!(session_id(1, 0), session_id(0, 1));
    assert_eq!(base, session_id(7, 1_000));
}

#[test]
fn new_asks_for_a_generated_identifier() {
    assert_eq!(requested_id("new", 1, 1_700_000_000_000), "AQAAAYvP5WgA");
    assert_eq!(requested_id("AQAAAYvP5WgA", 9, 9), "AQAAAYvP5WgA");
    assert_eq!(requested_id("New", 1, 2), "New");
    assert_eq!(requested_id("", 1, 2), "");
}

#[test]
fn sessions_are_kept_under_their_own_key_for_ten_days() {
    assert_eq!(session_key("abc"), "session:abc");
    assert_eq!(
        save_command("abc", "[1]".to_string()),
        StoreCommand::SetEx {
            key: "session:abc".to_string(),
            value: "[1]".to_string(),
            ttl: 864_000
        }
    );
    assert_eq!(save_command("abc", String::new()).words()[4], SESSION_TTL.to_string());
    assert_eq!(load_command("abc"), StoreCommand::Get { key: "session:abc".to_string() });
}

#[test]
fn two_new_sessions_in_rapid_succession_are_kept_apart() {
    let now_millis = 1_700_000_000_000u64;
    let first = requested_id("new", 17, now_millis);
    let second = requested_id("new", 201, now_millis);
    assert_ne!(first, second);

    let mut store: Vec<(String, String)> = Vec::new();
    for (id, payload) in [(&first, "[\"a\"]"), (&second, "[\"b\"]")] {
        match save_command(id, payload.to_string()) {
            StoreCommand::SetEx { key, value, ttl } => {
                assert_eq!(ttl, 864_000);
                store.retain(|(k, _)| *k != key);
                store.push((key, value));
            }
            other => panic!("unexpected command {:?}", other),
        }
    }
    let fetch = |id: &str| match load_command(id) {
        StoreCommand::Get { key } => {
            store.iter().find(|(k, _)| *k == key).map(|(_, v)| v.clone())
        }
        other => panic!("unexpected command {:?}", other),
    };
    assert_eq!(fetch(&first), Some("[\"a\"]".to_string()));
    assert_eq!(fetch(&second), Some("[\"b\"]".to_string()));
    assert_eq!(fetch("new"), None);
}

#[test]
fn session_holds_its_playlist() {
    let entry = PlaylistEntry {
        id: "v".to_string(),
        title: "T".to_string(),
        uploader: "U".to_string(),
        extractor: "youtube".to_string(),
    };
    let session = Session { id: session_id(3, 4), playlist: vec![entry.clone()] };
    assert_eq!(session.clone(), session);
    assert_eq!(session.playlist, vec![entry]);
}
