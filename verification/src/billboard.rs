//! The chart feed: a single in-memory slot that holds the last downloaded
//! chart for a day, the rule that decides when to download again, and the
//! reading of the chart's CSV text into songs.
//!
//! Downloading is not done here. [`get_top_songs`] is a step function: the
//! caller reports what happened (a request came in, a download finished or
//! failed) and is told what to do next. While one download is under way, later
//! requests are told to wait for it, so a stale slot causes one download, not
//! one per caller.

use vstd::prelude::*;

use crate::freshness::{age, elapsed};
use crate::trusted::{csv_records, read_records, records_view};

verus! {

/// How long a downloaded chart stays usable, in seconds.
pub const ONE_DAY: u64 = 24 * 60 * 60;

/// One line of the chart.
#[derive(Debug, Clone, PartialEq)]
pub struct Song {
    pub title: String,
    pub artist: String,
}

/// A song as plain text values.
pub struct SongView {
    pub title: Seq<char>,
    pub artist: Seq<char>,
}

impl View for Song {
    type V = SongView;

    open spec fn view(&self) -> SongView {
        SongView { title: self.title@, artist: self.artist@ }
    }
}

/// The views of a list of songs, in order.
pub open spec fn songs_view(songs: Seq<Song>) -> Seq<SongView> {
    Seq::new(songs.len(), |i: int| songs[i]@)
}

/// A slot is fresh when it holds a non-empty payload younger than a day.
pub open spec fn fresh(slot: Option<(Seq<char>, nat)>, now: nat) -> bool {
    slot matches Some((payload, fetched_at)) && payload.len() > 0 && age(fetched_at, now)
        < ONE_DAY
}

/// At most one downloaded payload together with the time it was fetched.
pub struct SingleSlot {
    cached: Option<(String, u64)>,
}

impl View for SingleSlot {
    type V = Option<(Seq<char>, nat)>;

    closed spec fn view(&self) -> Option<(Seq<char>, nat)> {
        match self.cached {
            Some((payload, fetched_at)) => Some((payload@, fetched_at as nat)),
            None => None,
        }
    }
}

impl SingleSlot {
    /// The slot at startup: empty.
    pub fn new() -> (slot: SingleSlot)
        ensures
            slot@ is None,
    {
        SingleSlot { cached: None }
    }

    /// Whether the slot can be served at time `now`.
    pub fn is_cached(&self, now: u64) -> (yes: bool)
        ensures
            yes == fresh(self@, now as nat),
    {
        match &self.cached {
            None => false,
            Some((payload, fetched_at)) => {
                !(elapsed(*fetched_at, now) >= ONE_DAY || payload.as_str().is_empty())
            },
        }
    }

    /// Replaces whatever the slot held by `data`, fetched at `now`.
    pub fn write_cache(&mut self, data: &str, now: u64)
        ensures
            final(self)@ == Some((data@, now as nat)),
    {
        self.cached = Some((data.to_owned(), now));
    }

    /// The payload, if the slot is fresh at `now`.
    pub fn read_cache(&self, now: u64) -> (payload: Option<String>)
        ensures
            payload is Some <==> fresh(self@, now as nat),
            payload matches Some(text) ==> text@ == self@.unwrap().0,
    {
        if self.is_cached(now) {
            match &self.cached {
                Some((payload, _)) => Some(payload.clone()),
                None => None,
            }
        } else {
            None
        }
    }
}

/// Whether a record was read without error and has a title and an artist
/// column.
pub open spec fn usable(record: Option<Seq<Seq<char>>>) -> bool {
    record matches Some(fields) && fields.len() >= 3
}

/// Whether every record after the first is usable. The first record is the
/// chart's column heading and is passed over whatever it holds.
pub open spec fn chart_readable(records: Seq<Option<Seq<Seq<char>>>>) -> bool {
    forall|i: int| 1 <= i < records.len() ==> usable(#[trigger] records[i])
}

/// The songs of a readable chart: one per record after the first, title from
/// the second column and artist from the third.
pub open spec fn chart_songs(records: Seq<Option<Seq<Seq<char>>>>) -> Seq<SongView> {
    Seq::new(
        if records.len() >= 1 {
            (records.len() - 1) as nat
        } else {
            0
        },
        |i: int|
            SongView { title: records[i + 1].unwrap()[1], artist: records[i + 1].unwrap()[2] },
    )
}

/// What a chart reads as: its songs, or `Err(false)` when a record is
/// unreadable or too short.
pub open spec fn chart_of(records: Seq<Option<Seq<Seq<char>>>>) -> Result<Seq<SongView>, bool> {
    if chart_readable(records) {
        Ok(chart_songs(records))
    } else {
        Err(false)
    }
}

/// The plain value of a parse result.
pub open spec fn chart_view(chart: Result<Vec<Song>, bool>) -> Result<Seq<SongView>, bool> {
    match chart {
        Ok(songs) => Ok(songs_view(songs@)),
        Err(flag) => Err(flag),
    }
}

/// Turns the records of a chart into songs.
pub fn songs_from_records<E>(records: &Vec<Result<Vec<String>, E>>) -> (chart: Result<
    Vec<Song>,
    bool,
>)
    ensures
        chart_view(chart) == chart_of(records_view(records@)),
{
    let ghost plain = records_view(records@);
    let mut songs: Vec<Song> = Vec::new();
    let mut i: usize = 1;
    while i < records.len()
        invariant
            plain == records_view(records@),
            1 <= i,
            i <= records.len() || i == 1,
            songs.len() == i - 1,
            forall|k: int| 1 <= k < i ==> usable(#[trigger] plain[k]),
            forall|k: int|
                0 <= k < i - 1 ==> (#[trigger] songs[k])@ == (SongView {
                    title: plain[k + 1].unwrap()[1],
                    artist: plain[k + 1].unwrap()[2],
                }),
        decreases records.len() - i,
    {
        match &records[i] {
            Err(_) => {
                assert(!usable(plain[i as int]));
                return Err(false);
            },
            Ok(fields) => {
                if fields.len() < 3 {
                    return Err(false);
                }
                let song = Song { title: fields[1].clone(), artist: fields[2].clone() };
                songs.push(song);
            },
        }
        i += 1;
    }
    assert(songs_view(songs@) =~= chart_songs(plain));
    Ok(songs)
}

/// Reads the CSV text of a chart.
pub fn parse_chart(data: &str) -> (chart: Result<Vec<Song>, bool>)
    ensures
        chart_view(chart) == chart_of(csv_records(data@)),
{
    let records = read_records(data);
    songs_from_records(&records)
}

/// The chart feed's whole state: the slot, and whether a download that this
/// feed asked for is still under way.
pub struct ChartFeed {
    slot: SingleSlot,
    refreshing: bool,
}

/// A feed as plain values.
pub struct FeedView {
    pub slot: Option<(Seq<char>, nat)>,
    pub refreshing: bool,
}

impl View for ChartFeed {
    type V = FeedView;

    closed spec fn view(&self) -> FeedView {
        FeedView { slot: self.slot@, refreshing: self.refreshing }
    }
}

/// What the caller reports to the feed.
#[derive(Debug, Clone, PartialEq)]
pub enum ChartEvent {
    /// Someone asks for the chart at time `now`.
    Requested { now: u64 },
    /// The download that the feed asked for delivered `payload` at time `now`.
    Fetched { payload: String, now: u64 },
    /// The download that the feed asked for failed.
    FetchFailed,
}

/// An event as plain values.
pub enum ChartEventView {
    Requested { now: nat },
    Fetched { payload: Seq<char>, now: nat },
    FetchFailed,
}

impl View for ChartEvent {
    type V = ChartEventView;

    open spec fn view(&self) -> ChartEventView {
        match self {
            ChartEvent::Requested { now } => ChartEventView::Requested { now: *now as nat },
            ChartEvent::Fetched { payload, now } => ChartEventView::Fetched {
                payload: payload@,
                now: *now as nat,
            },
            ChartEvent::FetchFailed => ChartEventView::FetchFailed,
        }
    }
}

/// What the feed tells the caller to do.
#[derive(Debug, PartialEq)]
pub enum ChartAction {
    /// Answer with this result.
    Serve(Result<Vec<Song>, bool>),
    /// Download the chart and report `Fetched` or `FetchFailed`.
    Fetch,
    /// A download is under way: wait until it has ended, then ask again.
    Wait,
}

/// An action as plain values.
pub enum ChartActionView {
    Serve(Result<Seq<SongView>, bool>),
    Fetch,
    Wait,
}

impl View for ChartAction {
    type V = ChartActionView;

    open spec fn view(&self) -> ChartActionView {
        match self {
            ChartAction::Serve(chart) => ChartActionView::Serve(chart_view(*chart)),
            ChartAction::Fetch => ChartActionView::Fetch,
            ChartAction::Wait => ChartActionView::Wait,
        }
    }
}

/// The feed's transition function.
///
/// * A request is served from the slot while the slot is fresh. Otherwise it
///   starts a download, unless one is under way already: then it waits.
/// * A finished download replaces the slot wholesale and is served at once,
///   readable or not.
/// * A failed download leaves the slot as it was and is answered `Err(false)`.
pub open spec fn chart_step(feed: FeedView, event: ChartEventView) -> (FeedView, ChartActionView) {
    match event {
        ChartEventView::Requested { now } => {
            if fresh(feed.slot, now) {
                (feed, ChartActionView::Serve(chart_of(csv_records(feed.slot.unwrap().0))))
            } else if feed.refreshing {
                (feed, ChartActionView::Wait)
            } else {
                (FeedView { slot: feed.slot, refreshing: true }, ChartActionView::Fetch)
            }
        },
        ChartEventView::Fetched { payload, now } => (
            FeedView { slot: Some((payload, now)), refreshing: false },
            ChartActionView::Serve(chart_of(csv_records(payload))),
        ),
        ChartEventView::FetchFailed => (
            FeedView { slot: feed.slot, refreshing: false },
            ChartActionView::Serve(Err(false)),
        ),
    }
}

impl ChartFeed {
    /// The feed at startup: empty slot, nothing under way.
    pub fn new() -> (feed: ChartFeed)
        ensures
            feed@ == (FeedView { slot: None, refreshing: false }),
    {
        ChartFeed { slot: SingleSlot::new(), refreshing: false }
    }

    /// Whether a download that the feed asked for has not ended yet.
    pub fn is_refreshing(&self) -> (yes: bool)
        ensures
            yes == self@.refreshing,
    {
        self.refreshing
    }

    /// Whether the slot can be served at time `now`.
    pub fn is_cached(&self, now: u64) -> (yes: bool)
        ensures
            yes == fresh(self@.slot, now as nat),
    {
        self.slot.is_cached(now)
    }
}

/// Advances the chart feed by one event and says what to do next.
pub fn get_top_songs(feed: &mut ChartFeed, event: ChartEvent) -> (action: ChartAction)
    ensures
        (final(feed)@, action@) == chart_step(old(feed)@, event@),
{
    match event {
        ChartEvent::Requested { now } => {
            match feed.slot.read_cache(now) {
                Some(data) => ChartAction::Serve(parse_chart(data.as_str())),
                None => {
                    if feed.refreshing {
                        ChartAction::Wait
                    } else {
                        feed.refreshing = true;
                        ChartAction::Fetch
                    }
                },
            }
        },
        ChartEvent::Fetched { payload, now } => {
            feed.slot.write_cache(payload.as_str(), now);
            feed.refreshing = false;
            ChartAction::Serve(parse_chart(payload.as_str()))
        },
        ChartEvent::FetchFailed => {
            feed.refreshing = false;
            ChartAction::Serve(Err(false))
        },
    }
}

/// After a download of a non-empty chart, every request inside the freshness
/// window is served from the slot: it starts no download and leaves the feed
/// as it is.
pub proof fn law_request_in_window_is_served(
    feed: FeedView,
    payload: Seq<char>,
    fetched_at: nat,
    now: nat,
)
    requires
        payload.len() > 0,
        age(fetched_at, now) < ONE_DAY,
    ensures
        ({
            let filled = chart_step(feed, ChartEventView::Fetched { payload, now: fetched_at }).0;
            let (next, action) = chart_step(filled, ChartEventView::Requested { now });
            &&& action == ChartActionView::Serve(chart_of(csv_records(payload)))
            &&& next == filled
        }),
{
}

/// Once the freshness window has elapsed (or the slot is empty), the next
/// request starts a download, and until that download has ended no other
/// request starts a second one.
pub proof fn law_stale_slot_downloads_once(feed: FeedView, now: nat, later: nat)
    requires
        !fresh(feed.slot, now),
        !feed.refreshing,
    ensures
        chart_step(feed, ChartEventView::Requested { now }).1 is Fetch,
        !(chart_step(
            chart_step(feed, ChartEventView::Requested { now }).0,
            ChartEventView::Requested { now: later },
        ).1 is Fetch),
{
}

/// A download is asked for only by a feed that has none under way, and the
/// feed then remembers it until `Fetched` or `FetchFailed` is reported.
pub proof fn law_single_flight(feed: FeedView, event: ChartEventView)
    ensures
        chart_step(feed, event).1 is Fetch ==> !feed.refreshing && chart_step(
            feed,
            event,
        ).0.refreshing,
        feed.refreshing && event is Requested ==> chart_step(feed, event).0.refreshing,
{
}

} // verus!
