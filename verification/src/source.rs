//! The source of the broadcast: which platform it is on, and what a source
//! has to offer to be mirrored.

use crate::text::same_text;
use vstd::prelude::*;

verus! {

/// The platforms that a source can be on.
#[derive(Clone, Copy, Debug, PartialEq, Eq, Structural)]
pub enum Platform {
    /// A fixed video on YouTube.
    Youtube,
    /// A channel on Twitch.
    Twitch,
    /// A YouTube channel whose current video is looked up on its page.
    YoutubePreviewLive,
}

/// Why no platform was selected.
#[derive(Clone, Copy, Debug, PartialEq, Eq, Structural)]
pub enum SelectError {
    /// The name is none of the platform names.
    UnknownPlatform,
}

impl SelectError {
    /// The error in words.
    pub fn message(&self) -> (text: &'static str)
        ensures
            text@ == "unknown platform"@,
    {
        "unknown platform"
    }
}

/// The platform that a configuration names: `Youtube`, `Twitch` or
/// `YoutubePreviewLive`, letter for letter.
pub open spec fn platform_named(name: Seq<char>) -> Option<Platform> {
    if name == "Youtube"@ {
        Some(Platform::Youtube)
    } else if name == "Twitch"@ {
        Some(Platform::Twitch)
    } else if name == "YoutubePreviewLive"@ {
        Some(Platform::YoutubePreviewLive)
    } else {
        None
    }
}

/// A selection as an option.
pub open spec fn selected(outcome: Result<Platform, SelectError>) -> Option<Platform> {
    match outcome {
        Ok(platform) => Some(platform),
        Err(_) => None,
    }
}

/// Selects the platform that the configuration names.
pub fn select_live(platform: &str) -> (outcome: Result<Platform, SelectError>)
    ensures
        selected(outcome) == platform_named(platform@),
{
    if same_text(platform, "Youtube") {
        Ok(Platform::Youtube)
    } else if same_text(platform, "Twitch") {
        Ok(Platform::Twitch)
    } else if same_text(platform, "YoutubePreviewLive") {
        Ok(Platform::YoutubePreviewLive)
    } else {
        Err(SelectError::UnknownPlatform)
    }
}

impl Platform {
    /// Whether the room of a source on this platform has to be looked up
    /// again after every tick.
    pub fn is_preview(&self) -> (preview: bool)
        ensures
            preview == (*self == Platform::YoutubePreviewLive),
    {
        match self {
            Platform::YoutubePreviewLive => true,
            _ => false,
        }
    }
}

/// The room that the configuration gives a source on `platform`: the YouTube
/// room or the Twitch room. A preview source is given none: its room is
/// looked up on the channel's page.
pub open spec fn configured_room(
    platform: Platform,
    youtube_room: Seq<char>,
    twitch_room: Seq<char>,
) -> Option<Seq<char>> {
    match platform {
        Platform::Youtube => Some(youtube_room),
        Platform::Twitch => Some(twitch_room),
        Platform::YoutubePreviewLive => None,
    }
}

/// Picks the room that the configuration gives a source on `platform`.
pub fn select_room<'a>(platform: Platform, youtube_room: &'a str, twitch_room: &'a str) -> (room:
    Option<&'a str>)
    ensures
        match room {
            Some(id) => configured_room(platform, youtube_room@, twitch_room@) == Some(id@),
            None => configured_room(platform, youtube_room@, twitch_room@) is None,
        },
{
    match platform {
        Platform::Youtube => Some(youtube_room),
        Platform::Twitch => Some(twitch_room),
        Platform::YoutubePreviewLive => None,
    }
}

/// What a source offers: its status, its room and the address of its media.
///
/// How a source finds its status and its media address, and how it keeps its
/// room, is its own affair: nothing is promised of what these return.
pub trait Live {
    /// What goes wrong when the source is asked.
    type Error;

    /// Whether the room is live.
    fn get_status(&self) -> Result<bool, Self::Error>;

    /// The room that the source tracks.
    fn room(&self) -> &str;

    /// The address of the media that plays best right now. It may differ from
    /// one call to the next.
    fn get_real_m3u8_url(&self) -> Result<String, Self::Error>;

    /// Replaces the room that the source tracks.
    fn set_room(&mut self, room: &str);
}

} // verus!
