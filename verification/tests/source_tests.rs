use bilistream::source::{select_live, select_room, Live, Platform, SelectError};

struct FixedSource {
    room: String,
    live: Result<bool, String>,
}

impl Live for FixedSource {
    type Error = String;

    fn get_status(&self) -> Result<bool, String> {
        self.live.clone()
    }

    fn room(&self) -> &str {
        &self.room
    }

    fn get_real_m3u8_url(&self) -> Result<String, String> {
        Ok(format!("https://media/{}.m3u8", self.room))
    }

    fn set_room(&mut self, room: &str) {
        self.room = String::from(room);
    }
}

#[test]
fn the_three_platform_names_are_selected() {
    assert_eq!(select_live("Youtube"), Ok(Platform::Youtube));
    assert_eq!(select_live("Twitch"), Ok(Platform::Twitch));
    assert_eq!(select_live("YoutubePreviewLive"), Ok(Platform::YoutubePreviewLive));
}

#[test]
fn any_other_name_is_an_unknown_platform() {
    assert_eq!(select_live(""), Err(SelectError::UnknownPlatform));
    assert_eq!(select_live("youtube"), Err(SelectError::UnknownPlatform));
    assert_eq!(select_live("Youtube "), Err(SelectError::UnknownPlatform));
    assert_eq!(select_live("Bilibili"), Err(SelectError::UnknownPlatform));
    assert_eq!(select_live("YoutubePreview"), Err(SelectError::UnknownPlatform));
    assert_eq!(SelectError::UnknownPlatform.message(), "unknown platform");
}

#[test]
fn only_the_preview_platform_is_looked_up_again() {
    assert!(Platform::YoutubePreviewLive.is_preview());
    assert!(!Platform::Youtube.is_preview());
    assert!(!Platform::Twitch.is_preview());
}

#[test]
fn each_platform_gets_its_configured_room() {
    assert_eq!(select_room(Platform::Youtube, "video", "channel"), Some("video"));
    assert_eq!(select_room(Platform::Twitch, "video", "channel"), Some("channel"));
    assert_eq!(select_room(Platform::YoutubePreviewLive, "video", "channel"), None);
    assert_eq!(select_room(Platform::Youtube, "", "channel"), Some(""));
}

#[test]
fn a_source_is_asked_through_the_trait() {
    let mut source = FixedSource { room: String::from("abc"), live: Ok(true) };
    assert_eq!(source.get_status(), Ok(true));
    assert_eq!(source.room(), "abc");
    source.set_room("xyz");
    assert_eq!(source.room(), "xyz");
    assert_eq!(source.get_real_m3u8_url(), Ok(String::from("https://media/xyz.m3u8")));
}
