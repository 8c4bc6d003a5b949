use bilistream::preview::{
    channel_lookup_url, channel_url, first_video_id, get_channel_id, get_live_id, ResolveError,
};

fn state_with(video: &str) -> String {
    let mut state = String::from(
        r#"{"contents":{"twoColumnBrowseResultsRenderer":{"tabs":[{"tabRenderer":{"content":{"sectionListRenderer":{"contents":[{"other":1},{"itemSectionRenderer":{"contents":[{"shelfRenderer":{"content":{"horizontalListRenderer":{"items":[{"gridVideoRenderer":{"videoId":"#,
    );
    state.push_str(video);
    state.push_str(r#","title":"t"}}]}}}}]}}]}}}}]}}}"#);
    state
}

fn page_with(state: &str) -> String {
    let mut page = String::from(
        "<!DOCTYPE html><html><head><title>channel</title><script nonce=\"n1\">var first = 1;</script>",
    );
    page.push_str("<script nonce=\"n2\">var ytInitialData = ");
    page.push_str(state);
    page.push_str(";</script><script nonce=\"n3\">var last = 2;</script></head><body></body></html>");
    page
}

#[test]
fn test_get_live_id() {
    let channel_id = "UC1zFJrfEKvCixhsjNSb1toQ";
    assert_eq!(channel_url(channel_id), "https://www.youtube.com/channel/UC1zFJrfEKvCixhsjNSb1toQ");
    let page = page_with(&state_with("\"dQw4w9WgXcQ\""));
    let r = get_live_id(&page).unwrap();
    println!("id:{}", r);
    assert_eq!(r, "dQw4w9WgXcQ");
}

#[test]
fn test_get_room_id() {
    let channel_id = "GameSpun";
    assert_eq!(channel_lookup_url(channel_id), "https://www.youtube.com/c/GameSpun");
    let page = "<html><script>{\"channelId\":\"UC1zFJrfEKvCixhsjNSb1toQ\",\"title\":\"GameSpun\"}</script></html>";
    let r = get_channel_id(page).unwrap();
    println!("id:{}", r);
    assert_eq!(r, "UC1zFJrfEKvCixhsjNSb1toQ");
}

#[test]
fn channel_id_is_what_follows_the_first_marker() {
    let page = "x\"channelId\":\"first\" y \"channelId\":\"second\"";
    assert_eq!(get_channel_id(page), Some(String::from("first")));
    assert_eq!(get_channel_id("\"channelId\":\"\""), Some(String::new()));
}

#[test]
fn channel_id_runs_to_the_end_without_a_closing_quote() {
    assert_eq!(get_channel_id("a\"channelId\":\"tail"), Some(String::from("tail")));
    assert_eq!(get_channel_id("a\"channelId\":\""), Some(String::new()));
    assert_eq!(get_channel_id("\"channelId\":\"号x"), Some(String::from("号x")));
}

#[test]
fn channel_id_is_none_without_the_marker() {
    assert_eq!(get_channel_id(""), None);
    assert_eq!(get_channel_id("<html></html>"), None);
    assert_eq!(get_channel_id("\"channelId\": \"spaced\""), None);
}

#[test]
fn live_id_is_read_from_a_page_on_one_line() {
    let page = page_with(&state_with("\"abc123\""));
    assert!(!page.contains('\n'));
    assert_eq!(get_live_id(&page), Ok(String::from("abc123")));
}

#[test]
fn page_that_closes_too_much_is_unbalanced() {
    assert_eq!(get_live_id("</html>"), Err(ResolveError::PageUnbalanced));
    let mut page = String::from("</div>");
    page.push_str(&page_with(&state_with("\"abc123\"")));
    assert_eq!(get_live_id(&page), Err(ResolveError::PageUnbalanced));
}

#[test]
fn page_without_the_script_has_no_state() {
    assert_eq!(get_live_id(""), Err(ResolveError::StateMissing));
    assert_eq!(get_live_id("<html><body>nothing</body></html>"), Err(ResolveError::StateMissing));
    assert_eq!(
        get_live_id("<html><script>var ytInitialData = {};</script></html>"),
        Err(ResolveError::StateMissing)
    );
}

#[test]
fn state_that_is_not_json_is_unreadable() {
    assert_eq!(get_live_id(&page_with("{oops")), Err(ResolveError::StateUnreadable));
    assert_eq!(first_video_id("{oops"), Err(ResolveError::StateUnreadable));
    assert_eq!(first_video_id(""), Err(ResolveError::StateUnreadable));
}

#[test]
fn state_without_a_first_video_has_no_id() {
    assert_eq!(get_live_id(&page_with("{}")), Err(ResolveError::VideoMissing));
    assert_eq!(first_video_id("{}"), Err(ResolveError::VideoMissing));
    assert_eq!(first_video_id("[]"), Err(ResolveError::VideoMissing));
    assert_eq!(first_video_id(&state_with("17")), Err(ResolveError::VideoMissing));
    assert_eq!(first_video_id(&state_with("null")), Err(ResolveError::VideoMissing));
}

#[test]
fn first_video_id_reads_the_id_without_quotes() {
    assert_eq!(first_video_id(&state_with("\"xyz\"")), Ok(String::from("xyz")));
}
