//! Preview sources: a channel whose current video has to be looked up on the
//! channel's page before the room can be polled.
//!
//! The caller fetches the page; this module says where the page is and reads
//! the video id out of it.

use crate::json::{descend, json_at, json_document, json_text, parse_document, Step};
use crate::markup::{keeps_depth, prettified, tidy};
use crate::pattern::{first_capture, first_capture_of};
use crate::text::{chars_of, find, find_from};
use vstd::prelude::*;
use vstd::string::StrSliceExecFns;
use vstd::string::StringExecFns;

verus! {

/// Address of a channel's page, up to the channel id.
pub const CHANNEL_PAGE: &'static str = "https://www.youtube.com/channel/";

/// Address of a channel's page by name, up to the name.
pub const CHANNEL_BY_NAME: &'static str = "https://www.youtube.com/c/";

/// What stands before a channel id in a channel's page.
pub const CHANNEL_ID_MARKER: &'static str = "\"channelId\":\"";

/// The script that holds the page's state: group 1 is the state, a JSON
/// document.
pub const STATE_PATTERN: &'static str =
    r#"\s*<script nonce=".*">var ytInitialData = (.*);\s*?</script>"#;

/// Why no video id could be read out of a page.
#[derive(Clone, Copy, Debug, PartialEq, Eq, Structural)]
pub enum ResolveError {
    /// The page closes more tags than it opened, so it cannot be laid out.
    PageUnbalanced,
    /// No script in the page holds the state.
    StateMissing,
    /// The state is not a JSON document.
    StateUnreadable,
    /// The state lists no first video with an id.
    VideoMissing,
}

/// The address of the page of channel `channel_id`.
pub open spec fn channel_page_of(channel_id: Seq<char>) -> Seq<char> {
    CHANNEL_PAGE@ + channel_id
}

/// The address of the page of the channel called `name`.
pub open spec fn channel_by_name_of(name: Seq<char>) -> Seq<char> {
    CHANNEL_BY_NAME@ + name
}

/// The address of the page of channel `channel_id`.
pub fn channel_url(channel_id: &str) -> (url: String)
    ensures
        url@ == channel_page_of(channel_id@),
{
    let mut url = String::from_str(CHANNEL_PAGE);
    url.append(channel_id);
    url
}

/// The address of the page of the channel called `name`.
pub fn channel_lookup_url(name: &str) -> (url: String)
    ensures
        url@ == channel_by_name_of(name@),
{
    let mut url = String::from_str(CHANNEL_BY_NAME);
    url.append(name);
    url
}

/// The channel id in a channel's page: what follows the first marker, up to
/// the next double quote or, where none follows, to the end of the page.
/// `None` where the page holds no marker.
pub open spec fn channel_id_of(page: Seq<char>) -> Option<Seq<char>> {
    match find_from(page, CHANNEL_ID_MARKER@, 0) {
        None => None,
        Some(at) => {
            let start = at + CHANNEL_ID_MARKER@.len();
            match find_from(page, seq!['"'], start) {
                Some(end) => Some(page.subrange(start, end)),
                None => Some(page.subrange(start, page.len() as int)),
            }
        },
    }
}

/// Reads the channel id out of a channel's page.
pub fn get_channel_id(page: &str) -> (channel_id: Option<String>)
    ensures
        channel_id.deep_view() == channel_id_of(page@),
{
    let text = chars_of(page);
    let marker = chars_of(CHANNEL_ID_MARKER);
    let quote = ['"'];
    assert(quote@ =~= seq!['"']);
    match find(text.as_slice(), marker.as_slice(), 0) {
        None => None,
        Some(at) => {
            proof {
                crate::text::lemma_find_from_is_first(page@, CHANNEL_ID_MARKER@, 0);
            }
            let start: usize = at + marker.len();
            let end: usize = match find(text.as_slice(), quote.as_slice(), start) {
                Some(end) => {
                    proof {
                        crate::text::lemma_find_from_is_first(page@, seq!['"'], start as int);
                    }
                    end
                },
                None => text.len(),
            };
            Some(String::from_str(page.substring_char(start, end)))
        },
    }
}

/// Where the id of the first listed video stands in the state of a channel's
/// page.
pub open spec fn first_video_path() -> Seq<Step<'static>> {
    seq![
        Step::Key("contents"),
        Step::Key("twoColumnBrowseResultsRenderer"),
        Step::Key("tabs"),
        Step::Index(0),
        Step::Key("tabRenderer"),
        Step::Key("content"),
        Step::Key("sectionListRenderer"),
        Step::Key("contents"),
        Step::Index(1),
        Step::Key("itemSectionRenderer"),
        Step::Key("contents"),
        Step::Index(0),
        Step::Key("shelfRenderer"),
        Step::Key("content"),
        Step::Key("horizontalListRenderer"),
        Step::Key("items"),
        Step::Index(0),
        Step::Key("gridVideoRenderer"),
        Step::Key("videoId"),
    ]
}

/// The id of the first listed video in `state`, the state of a channel's page.
pub open spec fn video_id_of_state(state: Seq<char>) -> Result<Seq<char>, ResolveError> {
    match json_document(state) {
        None => Err(ResolveError::StateUnreadable),
        Some(document) => match json_at(document, first_video_path()) {
            None => Err(ResolveError::VideoMissing),
            Some(value) => match json_text(value) {
                None => Err(ResolveError::VideoMissing),
                Some(id) => Ok(id),
            },
        },
    }
}

/// The id of the video that a channel's page lists first: the page is laid
/// out one tag to a line, the state is taken from the script that holds it,
/// and the id is read at its place in the state.
pub open spec fn live_id_of(page: Seq<char>) -> Result<Seq<char>, ResolveError> {
    if !keeps_depth(page) {
        Err(ResolveError::PageUnbalanced)
    } else {
        match first_capture_of(STATE_PATTERN@, prettified(page), 1) {
            None => Err(ResolveError::StateMissing),
            Some(state) => video_id_of_state(state),
        }
    }
}

/// A result with its text as characters.
pub open spec fn id_view(outcome: Result<String, ResolveError>) -> Result<Seq<char>, ResolveError> {
    match outcome {
        Ok(id) => Ok(id@),
        Err(error) => Err(error),
    }
}

/// Reads the id of the first listed video out of the state of a channel's
/// page.
pub fn first_video_id(state: &str) -> (outcome: Result<String, ResolveError>)
    ensures
        id_view(outcome) == video_id_of_state(state@),
{
    let document = match parse_document(state) {
        Some(document) => document,
        None => {
            return Err(ResolveError::StateUnreadable);
        },
    };
    let path = [
        Step::Key("contents"),
        Step::Key("twoColumnBrowseResultsRenderer"),
        Step::Key("tabs"),
        Step::Index(0),
        Step::Key("tabRenderer"),
        Step::Key("content"),
        Step::Key("sectionListRenderer"),
        Step::Key("contents"),
        Step::Index(1),
        Step::Key("itemSectionRenderer"),
        Step::Key("contents"),
        Step::Index(0),
        Step::Key("shelfRenderer"),
        Step::Key("content"),
        Step::Key("horizontalListRenderer"),
        Step::Key("items"),
        Step::Index(0),
        Step::Key("gridVideoRenderer"),
        Step::Key("videoId"),
    ];
    assert(path@ =~= first_video_path());
    match descend(&document, path.as_slice()) {
        None => Err(ResolveError::VideoMissing),
        Some(value) => match value.as_str() {
            None => Err(ResolveError::VideoMissing),
            Some(id) => Ok(String::from_str(id)),
        },
    }
}

/// Reads the id of the live video out of a channel's page.
pub fn get_live_id(page: &str) -> (outcome: Result<String, ResolveError>)
    ensures
        id_view(outcome) == live_id_of(page@),
{
    let pretty = match tidy(page) {
        Some(pretty) => pretty,
        None => {
            return Err(ResolveError::PageUnbalanced);
        },
    };
    match first_capture(STATE_PATTERN, pretty.as_str(), 1) {
        None => Err(ResolveError::StateMissing),
        Some(state) => first_video_id(state.as_str()),
    }
}

} // verus!
