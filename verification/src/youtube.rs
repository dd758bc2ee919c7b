//! The upstream collaborators: the video search API and the command-line
//! media resolver. Talking to them is the caller's business; this module
//! builds what is sent (request addresses, resolver arguments) and decides
//! what the answers mean.

use vstd::prelude::*;
use vstd::string::StringExecFns;
use vstd::utf8::{decode_utf8, valid_utf8};

use crate::error::stringify_error;
use crate::text::{strip_line_feeds, without_line_feeds};

verus! {

/// The body of a search answer.
#[derive(Default, Debug, Clone, PartialEq)]
pub struct YoutubeSearchResult {
    pub kind: String,
    pub etag: String,
    pub next_page_token: String,
    pub region_code: String,
    pub page_info: PageInfo,
    pub items: Vec<Item>,
}

#[derive(Default, Debug, Clone, PartialEq)]
pub struct PageInfo {
    pub total_results: i64,
    pub results_per_page: i64,
}

/// One hit of a search answer. Hits without a snippet carry no title and are
/// left out of what the caller gets.
#[derive(Default, Debug, Clone, PartialEq)]
pub struct Item {
    pub id: Id,
    pub snippet: Option<Snippet>,
}

#[derive(Default, Debug, Clone, PartialEq)]
pub struct Id {
    pub kind: String,
    pub video_id: String,
}

#[derive(Default, Debug, Clone, PartialEq)]
pub struct Snippet {
    pub title: String,
    pub description: String,
    pub channel_title: String,
}

/// What the resolver reports for a playlist address.
#[derive(Default, Debug, Clone, PartialEq)]
pub struct Playlist {
    pub entries: Vec<PlaylistEntry>,
}

#[derive(Default, Debug, Clone, PartialEq)]
pub struct PlaylistEntry {
    pub id: String,
    pub title: String,
    pub uploader: String,
    pub extractor: String,
}

/// One search result as the caller gets it.
#[derive(Default, Debug, Clone, PartialEq)]
pub struct SearchEntry {
    pub title: String,
    pub uploader: String,
    pub id: String,
}

/// A search entry as plain text values.
pub struct SearchEntryView {
    pub title: Seq<char>,
    pub uploader: Seq<char>,
    pub id: Seq<char>,
}

impl View for SearchEntry {
    type V = SearchEntryView;

    open spec fn view(&self) -> SearchEntryView {
        SearchEntryView { title: self.title@, uploader: self.uploader@, id: self.id@ }
    }
}

/// The views of a list of entries, in order.
pub open spec fn entries_view(entries: Seq<SearchEntry>) -> Seq<SearchEntryView> {
    Seq::new(entries.len(), |i: int| entries[i]@)
}

/// The entry that a hit gives, if it has a snippet.
pub open spec fn entry_of(item: Item) -> Option<SearchEntryView> {
    match item.snippet {
        Some(snippet) => Some(
            SearchEntryView {
                title: snippet.title@,
                uploader: snippet.channel_title@,
                id: item.id.video_id@,
            },
        ),
        None => None,
    }
}

/// The entries of a list of hits: those with a snippet, in their order.
pub open spec fn entries_of(items: Seq<Item>) -> Seq<SearchEntryView> {
    items.filter_map(|item: Item| entry_of(item))
}

/// Keeps the hits that have a snippet and reduces each to title, uploader
/// and video id.
pub fn search_entries(items: &Vec<Item>) -> (entries: Vec<SearchEntry>)
    ensures
        entries_view(entries@) == entries_of(items@),
{
    let mut entries: Vec<SearchEntry> = Vec::new();
    let mut i: usize = 0;
    while i < items.len()
        invariant
            i <= items.len(),
            entries_view(entries@) == entries_of(items@.take(i as int)),
        decreases items.len() - i,
    {
        let item = &items[i];
        proof {
            assert(items@.take(i + 1).drop_last() == items@.take(i as int));
        }
        match &item.snippet {
            Some(snippet) => {
                let entry = SearchEntry {
                    title: snippet.title.clone(),
                    uploader: snippet.channel_title.clone(),
                    id: item.id.video_id.clone(),
                };
                entries.push(entry);
            },
            None => {},
        }
        i += 1;
    }
    proof {
        assert(items@.take(items@.len() as int) == items@);
    }
    entries
}

/// The address of a search for `input`, made with the API key `key`.
pub open spec fn search_url(input: Seq<char>, key: Seq<char>) -> Seq<char> {
    "https://youtube.googleapis.com/youtube/v3/search?part=snippet&order=relevance&q="@ + input
        + "&type=video&key="@ + key + "&maxResults=50"@
}

/// The address that lists songs related to the video `id`.
pub open spec fn related_url(id: Seq<char>, key: Seq<char>) -> Seq<char> {
    "https://youtube.googleapis.com/youtube/v3/search?part=snippet&order=relevance&type=video&key="@
        + key + "&maxResults=30&relatedToVideoId="@ + id
}

/// The address of the page of the video `id`.
pub open spec fn watch_url(id: Seq<char>) -> Seq<char> {
    "https://youtube.com/watch?v="@ + id
}

/// The request to send for a search: its address, or the reason why no API
/// key is at hand.
pub fn search_request(input: &str, key: Result<String, String>) -> (request: Result<
    String,
    String,
>)
    ensures
        (match key {
            Ok(k) => request matches Ok(url) && url@ == search_url(input@, k@),
            Err(reason) => request == Err::<String, String>(reason),
        }),
{
    match key {
        Err(reason) => Err(reason),
        Ok(k) => {
            let mut url = String::from_str(
                "https://youtube.googleapis.com/youtube/v3/search?part=snippet&order=relevance&q=",
            );
            url.append(input);
            url.append("&type=video&key=");
            url.append(k.as_str());
            url.append("&maxResults=50");
            Ok(url)
        },
    }
}

/// The request to send for the songs related to `id`.
pub fn similar_request(id: &str, key: Result<String, String>) -> (request: Result<String, String>)
    ensures
        (match key {
            Ok(k) => request matches Ok(url) && url@ == related_url(id@, k@),
            Err(reason) => request == Err::<String, String>(reason),
        }),
{
    match key {
        Err(reason) => Err(reason),
        Ok(k) => {
            let mut url = String::from_str(
                "https://youtube.googleapis.com/youtube/v3/search?part=snippet&order=relevance&type=video&key=",
            );
            url.append(k.as_str());
            url.append("&maxResults=30&relatedToVideoId=");
            url.append(id);
            Ok(url)
        },
    }
}

/// What an exchange with the search API gives the caller.
///
/// `answer` is `Err` with the reason when the request itself failed,
/// `Ok(None)` when an answer came whose body could not be read, and
/// `Ok(Some(..))` with the body otherwise.
pub open spec fn search_outcome(answer: Result<Option<YoutubeSearchResult>, String>) -> Result<
    Seq<SearchEntryView>,
    Seq<char>,
> {
    match answer {
        Err(reason) => Err(reason@),
        Ok(None) => Ok(Seq::empty()),
        Ok(Some(body)) => Ok(entries_of(body.items@)),
    }
}

/// The plain value of a search result.
pub open spec fn search_view(found: Result<Vec<SearchEntry>, String>) -> Result<
    Seq<SearchEntryView>,
    Seq<char>,
> {
    match found {
        Ok(entries) => Ok(entries_view(entries@)),
        Err(reason) => Err(reason@),
    }
}

/// Decides what a search returns once the request has run: a failed request
/// is an error, an unreadable body counts as no results.
pub fn search_song(answer: Result<Option<YoutubeSearchResult>, String>) -> (found: Result<
    Vec<SearchEntry>,
    String,
>)
    ensures
        search_view(found) == search_outcome(answer),
{
    match answer {
        Err(reason) => Err(reason),
        Ok(None) => {
            let none: Vec<SearchEntry> = Vec::new();
            assert(entries_view(none@) =~= Seq::empty());
            Ok(none)
        },
        Ok(Some(body)) => Ok(search_entries(&body.items)),
    }
}

/// Decides what a lookup of related songs returns once the request has run.
pub fn similar_songs(answer: Result<Option<YoutubeSearchResult>, String>) -> (found: Result<
    Vec<SearchEntry>,
    String,
>)
    ensures
        search_view(found) == search_outcome(answer),
{
    search_song(answer)
}

/// What a run of the resolver left behind.
#[derive(Debug, Clone, PartialEq)]
pub struct ResolverOutput {
    /// Whether the process exited with status zero.
    pub success: bool,
    pub stdout: Vec<u8>,
    pub stderr: Vec<u8>,
}

/// The arguments that make the resolver print the audio stream address of
/// the video `id`.
pub fn song_url_arguments(id: &str) -> (arguments: Vec<String>)
    ensures
        arguments.deep_view() == seq!["--get-url"@, "-f bestaudio"@, watch_url(id@)],
{
    let mut url = String::from_str("https://youtube.com/watch?v=");
    url.append(id);
    let mut arguments: Vec<String> = Vec::new();
    arguments.push(String::from_str("--get-url"));
    arguments.push(String::from_str("-f bestaudio"));
    arguments.push(url);
    arguments
}

/// The arguments that make the resolver describe the playlist at
/// `playlist_url` as JSON.
pub fn playlist_arguments(playlist_url: &str) -> (arguments: Vec<String>)
    ensures
        arguments.deep_view() == seq!["-J"@, playlist_url@],
{
    let mut arguments: Vec<String> = Vec::new();
    arguments.push(String::from_str("-J"));
    arguments.push(String::from_str(playlist_url));
    arguments
}

/// Reads bytes as UTF-8 text, or says why they are none.
fn decoded(bytes: Vec<u8>) -> (text: Result<String, String>)
    ensures
        text is Ok <==> valid_utf8(bytes@),
        text matches Ok(t) ==> t@ == decode_utf8(bytes@),
{
    match String::from_utf8(bytes) {
        Ok(t) => Ok(t),
        Err(e) => Err(stringify_error(e)),
    }
}

/// The stream address that a resolver run printed: its standard output
/// without line feeds.
///
/// * `Err(reason)`, the process could not be started: the same reason.
/// * Standard output or standard error is not UTF-8: an error that names the
///   first offending stream's defect.
/// * The process exited with a non-zero status: an error whose text is what
///   the process wrote to standard error.
pub fn get_song_url(output: Result<ResolverOutput, String>) -> (url: Result<String, String>)
    ensures
        (match output {
            Err(reason) => url == Err::<String, String>(reason),
            Ok(run) => if !valid_utf8(run.stdout@) || !valid_utf8(run.stderr@) {
                url is Err
            } else if run.success {
                url matches Ok(address) && address@ == without_line_feeds(
                    decode_utf8(run.stdout@),
                )
            } else {
                url matches Err(reason) && reason@ == decode_utf8(run.stderr@)
            },
        }),
{
    match output {
        Err(reason) => Err(reason),
        Ok(run) => {
            let ResolverOutput { success, stdout, stderr } = run;
            match decoded(stdout) {
                Err(reason) => Err(reason),
                Ok(printed) => match decoded(stderr) {
                    Err(reason) => Err(reason),
                    Ok(complaints) => {
                        if success {
                            Ok(strip_line_feeds(printed.as_str()))
                        } else {
                            Err(complaints)
                        }
                    },
                },
            }
        },
    }
}

/// The text that a resolver run printed, for the caller to read as JSON.
///
/// It is an error if the process could not be started (the same reason), if
/// it exited with a non-zero status, or if its standard output is not UTF-8.
pub fn playlist_text(output: Result<ResolverOutput, String>) -> (text: Result<String, String>)
    ensures
        (match output {
            Err(reason) => text == Err::<String, String>(reason),
            Ok(run) => if !valid_utf8(run.stdout@) {
                text is Err
            } else if run.success {
                text matches Ok(printed) && printed@ == decode_utf8(run.stdout@)
            } else {
                text matches Err(reason) && reason@ == "Error running the resolver"@
            },
        }),
{
    match output {
        Err(reason) => Err(reason),
        Ok(run) => {
            let ResolverOutput { success, stdout, stderr: _ } = run;
            match decoded(stdout) {
                Err(reason) => Err(reason),
                Ok(printed) => {
                    if success {
                        Ok(printed)
                    } else {
                        Err(String::from_str("Error running the resolver"))
                    }
                },
            }
        },
    }
}

/// Chooses the playlist out of the two readings of the resolver's text: as
/// a whole playlist, or else as a single entry, which then is the playlist's
/// only entry. With neither reading the text is not a playlist.
pub fn get_songs_in_playlist(as_playlist: Option<Playlist>, as_entry: Option<PlaylistEntry>) -> (out:
    Result<Playlist, String>)
    ensures
        (match (as_playlist, as_entry) {
            (Some(playlist), _) => out == Ok::<Playlist, String>(playlist),
            (None, Some(entry)) => out matches Ok(playlist) && playlist.entries@ == seq![entry],
            (None, None) => out matches Err(reason) && reason@ == "Error parsing data"@,
        }),
{
    match as_playlist {
        Some(playlist) => Ok(playlist),
        None => match as_entry {
            Some(entry) => {
                let mut entries: Vec<PlaylistEntry> = Vec::new();
                entries.push(entry);
                Ok(Playlist { entries })
            },
            None => Err(String::from_str("Error parsing data")),
        },
    }
}

} // verus!
