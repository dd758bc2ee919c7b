use songcache::billboard::{
    get_top_songs, parse_chart, songs_from_records, ChartAction, ChartEvent, ChartFeed,
    SingleSlot, Song, ONE_DAY,
};

const CHART: &str = ",,note\nPosition,Track Name,Artist\n1,Song A,Artist A\n2,Song B,Artist B\n";

fn song(title: &str, artist: &str) -> Song {
    Song { title: title.to_string(), artist: artist.to_string() }
}

#[test]
fn chart_is_read_from_csv() {
    let mut feed = ChartFeed::new();
    assert_eq!(get_top_songs(&mut feed, ChartEvent::Requested { now: 10 }), ChartAction::Fetch);
    let action =
        get_top_songs(&mut feed, ChartEvent::Fetched { payload: CHART.to_string(), now: 11 });
    assert_eq!(
        action,
        ChartAction::Serve(Ok(vec![song("Song A", "Artist A"), song("Song B", "Artist B")]))
    );
}

#[test]
fn test_get_top_song() {
    let mut feed = ChartFeed::new();
    println!("First Test {}", feed.is_cached(100));
    assert!(!feed.is_cached(100));
    assert_eq!(get_top_songs(&mut feed, ChartEvent::Requested { now: 100 }), ChartAction::Fetch);
    let _ = get_top_songs(&mut feed, ChartEvent::Fetched { payload: CHART.to_string(), now: 100 });
    println!("Second Test {}", feed.is_cached(101));
    assert!(feed.is_cached(101));
    let second = get_top_songs(&mut feed, ChartEvent::Requested { now: 101 });
    assert!(matches!(second, ChartAction::Serve(Ok(_))));
    println!("Third Test {}", feed.is_cached(102));
    assert!(feed.is_cached(102));
    let third = get_top_songs(&mut feed, ChartEvent::Requested { now: 102 });
    assert_eq!(second, third);
}

#[test]
fn one_day_is_86400_seconds() {
    assert_eq!(ONE_DAY, 86_400);
}

#[test]
fn slot_is_empty_at_startup() {
    let slot = SingleSlot::new();
    assert!(!slot.is_cached(0));
    assert_eq!(slot.read_cache(0), None);
}

#[test]
fn slot_is_fresh_for_less_than_a_day() {
    let mut slot = SingleSlot::new();
    slot.write_cache("data", 1_000);
    assert!(slot.is_cached(1_000));
    assert!(slot.is_cached(1_000 + ONE_DAY - 1));
    assert!(!slot.is_cached(1_000 + ONE_DAY));
    assert!(!slot.is_cached(1_000 + ONE_DAY + 1));
    assert_eq!(slot.read_cache(1_000 + ONE_DAY - 1), Some("data".to_string()));
    assert_eq!(slot.read_cache(1_000 + ONE_DAY), None);
}

#[test]
fn slot_with_empty_payload_is_never_fresh() {
    let mut slot = SingleSlot::new();
    slot.write_cache("", 1_000);
    assert!(!slot.is_cached(1_000));
    assert_eq!(slot.read_cache(1_001), None);
}

#[test]
fn slot_read_before_its_fetch_time_counts_as_age_zero() {
    let mut slot = SingleSlot::new();
    slot.write_cache("data", 5_000);
    assert!(slot.is_cached(4_000));
    assert_eq!(slot.read_cache(0), Some("data".to_string()));
}

#[test]
fn slot_is_replaced_wholesale() {
    let mut slot = SingleSlot::new();
    slot.write_cache("old", 0);
    slot.write_cache("new", ONE_DAY);
    assert_eq!(slot.read_cache(ONE_DAY + 5), Some("new".to_string()));
    assert_eq!(slot.read_cache(2 * ONE_DAY), None);
}

#[test]
fn second_request_in_window_does_not_fetch() {
    let mut feed = ChartFeed::new();
    assert_eq!(get_top_songs(&mut feed, ChartEvent::Requested { now: 50 }), ChartAction::Fetch);
    let first = get_top_songs(&mut feed, ChartEvent::Fetched { payload: CHART.to_string(), now: 50 });
    let second = get_top_songs(&mut feed, ChartEvent::Requested { now: 50 + ONE_DAY - 1 });
    assert_eq!(first, second);
    assert!(!feed.is_refreshing());
}

#[test]
fn request_after_window_fetches_exactly_once() {
    let mut feed = ChartFeed::new();
    let _ = get_top_songs(&mut feed, ChartEvent::Requested { now: 0 });
    let _ = get_top_songs(&mut feed, ChartEvent::Fetched { payload: CHART.to_string(), now: 0 });
    assert_eq!(
        get_top_songs(&mut feed, ChartEvent::Requested { now: ONE_DAY }),
        ChartAction::Fetch
    );
    assert!(feed.is_refreshing());
    assert_eq!(
        get_top_songs(&mut feed, ChartEvent::Requested { now: ONE_DAY + 1 }),
        ChartAction::Wait
    );
    assert_eq!(
        get_top_songs(&mut feed, ChartEvent::Requested { now: ONE_DAY + 2 }),
        ChartAction::Wait
    );
    let served = get_top_songs(
        &mut feed,
        ChartEvent::Fetched { payload: "h,h,h\nx,y,z\n1,New,Singer\n".to_string(), now: ONE_DAY + 3 },
    );
    assert_eq!(served, ChartAction::Serve(Ok(vec![song("New", "Singer")])));
    assert!(!feed.is_refreshing());
    assert_eq!(
        get_top_songs(&mut feed, ChartEvent::Requested { now: ONE_DAY + 4 }),
        ChartAction::Serve(Ok(vec![song("New", "Singer")]))
    );
}

#[test]
fn failed_fetch_is_answered_with_error_and_keeps_the_slot() {
    let mut feed = ChartFeed::new();
    assert_eq!(get_top_songs(&mut feed, ChartEvent::Requested { now: 7 }), ChartAction::Fetch);
    assert_eq!(
        get_top_songs(&mut feed, ChartEvent::FetchFailed),
        ChartAction::Serve(Err(false))
    );
    assert!(!feed.is_refreshing());
    assert!(!feed.is_cached(8));
    assert_eq!(get_top_songs(&mut feed, ChartEvent::Requested { now: 8 }), ChartAction::Fetch);
}

#[test]
fn empty_download_is_stored_but_never_served() {
    let mut feed = ChartFeed::new();
    let _ = get_top_songs(&mut feed, ChartEvent::Requested { now: 1 });
    assert_eq!(
        get_top_songs(&mut feed, ChartEvent::Fetched { payload: String::new(), now: 1 }),
        ChartAction::Serve(Ok(vec![]))
    );
    assert_eq!(get_top_songs(&mut feed, ChartEvent::Requested { now: 2 }), ChartAction::Fetch);
}

#[test]
fn chart_skips_heading_lines() {
    assert_eq!(
        parse_chart("a,b,c\nPosition,Track Name,Artist\n1,T,A\n"),
        Ok(vec![song("T", "A")])
    );
    assert_eq!(parse_chart("a,b,c\nPosition,Track Name,Artist\n"), Ok(vec![]));
    assert_eq!(parse_chart("a,b,c\n"), Ok(vec![]));
    assert_eq!(parse_chart(""), Ok(vec![]));
}

#[test]
fn chart_reads_quoted_fields() {
    assert_eq!(
        parse_chart("n,n,n,n\nh,h,h,h\n1,\"Hello, World\",\"A \"\"B\"\" C\",99\n"),
        Ok(vec![song("Hello, World", "A \"B\" C")])
    );
}

#[test]
fn chart_with_uneven_record_is_an_error() {
    assert_eq!(parse_chart("a,b,c\nh,h,h\n1,T,A\n2,T2\n"), Err(false));
    assert_eq!(parse_chart("a,b,c\nh,h,h\n1,T,A,extra\n"), Err(false));
}

#[test]
fn chart_passes_over_its_first_record_even_if_unreadable() {
    assert_eq!(parse_chart("a,b,c\nbroken\n1,T,A\n"), Ok(vec![song("T", "A")]));
}

#[test]
fn chart_with_too_few_columns_is_an_error() {
    assert_eq!(parse_chart("a,b\nh,h\n1,T\n"), Err(false));
    assert_eq!(parse_chart("a,b\nh,h\n"), Ok(vec![]));
}

#[test]
fn songs_come_from_second_and_third_column() {
    let row = |fields: &[&str]| -> Result<Vec<String>, ()> {
        Ok(fields.iter().map(|f| f.to_string()).collect())
    };
    let records = vec![
        Err(()),
        row(&["1", "One", "First", "x"]),
        row(&["2", "Two", "Second"]),
    ];
    assert_eq!(
        songs_from_records(&records),
        Ok(vec![song("One", "First"), song("Two", "Second")])
    );
    let broken = vec![row(&["h"]), row(&["1", "One", "First"]), Err(())];
    assert_eq!(songs_from_records(&broken), Err(false));
    let short = vec![row(&["h"]), row(&["1", "One"])];
    assert_eq!(songs_from_records(&short), Err(false));
    let none: Vec<Result<Vec<String>, ()>> = vec![];
    assert_eq!(songs_from_records(&none), Ok(vec![]));
}
