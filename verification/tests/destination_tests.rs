use bilistream::destination::{
    is_live, live_field, read_reply, read_status, session_cookie, start, status_query, stop,
    LiveField, Method, ReplyError, SessionCredentials,
};
use bilistream::status::Status;

fn credentials() -> SessionCredentials {
    SessionCredentials {
        session_token: String::from("sess"),
        csrf_token: String::from("jct"),
        user_id: String::from("1001"),
        user_id_checksum: String::from("abcd"),
    }
}

fn form_headers() -> Vec<(String, String)> {
    vec![
        (String::from("Accept"), String::from("application/json, text/plain, */*")),
        (
            String::from("content-type"),
            String::from("application/x-www-form-urlencoded; charset=UTF-8"),
        ),
    ]
}

#[test]
fn status_query_asks_for_the_room() {
    let request = status_query(123);
    assert_eq!(request.method, Method::Get);
    assert_eq!(
        request.url,
        "https://api.live.bilibili.com/xlive/web-room/v2/index/getRoomPlayInfo?room_id=123&platform=web"
    );
    assert!(request.headers.is_empty());
    assert_eq!(request.cookie, None);
    assert_eq!(request.body, None);
}

#[test]
fn session_cookie_names_the_four_credentials() {
    assert_eq!(
        session_cookie(&credentials()),
        "SESSDATA=sess;bili_jct=jct;DedeUserID=1001;DedeUserID__ckMd5=abcd"
    );
}

#[test]
fn start_builds_the_start_request() {
    let request = start(22, &credentials());
    assert_eq!(request.method, Method::Post);
    assert_eq!(request.url, "https://api.live.bilibili.com/room/v1/Room/startLive");
    assert_eq!(request.headers, form_headers());
    assert_eq!(
        request.cookie,
        Some(String::from("SESSDATA=sess;bili_jct=jct;DedeUserID=1001;DedeUserID__ckMd5=abcd"))
    );
    assert_eq!(
        request.body,
        Some(String::from("room_id=22&platform=pc&area_v2=433&csrf_token=jct&csrf=jct"))
    );
}

#[test]
fn stop_builds_the_stop_request() {
    let request = stop(22, &credentials());
    assert_eq!(request.method, Method::Post);
    assert_eq!(request.url, "https://api.live.bilibili.com/room/v1/Room/stopLive");
    assert_eq!(request.headers, form_headers());
    assert_eq!(
        request.cookie,
        Some(String::from("SESSDATA=sess;bili_jct=jct;DedeUserID=1001;DedeUserID__ckMd5=abcd"))
    );
    assert_eq!(request.body, Some(String::from("room_id=22&platform=pc&csrf_token=jct&csrf=jct")));
}

#[test]
fn start_twice_builds_the_same_request() {
    let first = start(5, &credentials());
    let second = start(5, &credentials());
    assert_eq!(first.url, second.url);
    assert_eq!(first.headers, second.headers);
    assert_eq!(first.cookie, second.cookie);
    assert_eq!(first.body, second.body);
}

#[test]
fn stop_twice_builds_the_same_request() {
    let first = stop(5, &credentials());
    let second = stop(5, &credentials());
    assert_eq!(first.url, second.url);
    assert_eq!(first.headers, second.headers);
    assert_eq!(first.cookie, second.cookie);
    assert_eq!(first.body, second.body);
}

#[test]
fn live_status_zero_is_offline() {
    let reply = r#"{"code":0,"data":{"room_id":1,"live_status":0}}"#;
    assert_eq!(live_field(reply), LiveField::Integer(0));
    assert_eq!(read_status(reply), Status::Offline);
    assert!(!is_live(reply));
}

#[test]
fn any_other_live_status_is_live() {
    assert_eq!(read_status(r#"{"data":{"live_status":1}}"#), Status::Online);
    assert_eq!(read_status(r#"{"data":{"live_status":2}}"#), Status::Online);
    assert_eq!(read_status(r#"{"data":{"live_status":-1}}"#), Status::Online);
    assert_eq!(read_status(r#"{"data":{"live_status":"1"}}"#), Status::Online);
    assert_eq!(read_status(r#"{"data":{"live_status":0.5}}"#), Status::Online);
    assert_eq!(read_status(r#"{"data":{"live_status":null}}"#), Status::Online);
    assert!(is_live(r#"{"data":{"live_status":1}}"#));
    assert_eq!(live_field(r#"{"data":{"live_status":7}}"#), LiveField::Integer(7));
    assert_eq!(live_field(r#"{"data":{"live_status":"1"}}"#), LiveField::Other);
}

#[test]
fn malformed_reply_is_unknown() {
    assert_eq!(live_field("<html>502</html>"), LiveField::Unreadable);
    assert_eq!(read_status("<html>502</html>"), Status::Unknown);
    assert_eq!(read_status(""), Status::Unknown);
    assert_eq!(read_status(r#"{"data":{"live_status":0}"#), Status::Unknown);
    assert!(!is_live("not json"));
}

#[test]
fn reply_without_the_field_is_unknown() {
    assert_eq!(live_field("{}"), LiveField::Missing);
    assert_eq!(read_status("{}"), Status::Unknown);
    assert_eq!(read_status(r#"{"data":{}}"#), Status::Unknown);
    assert_eq!(read_status(r#"{"data":[0]}"#), Status::Unknown);
    assert_eq!(read_status(r#"{"live_status":0}"#), Status::Unknown);
    assert_eq!(read_status("[]"), Status::Unknown);
    assert!(!is_live("{}"));
}

#[test]
fn every_field_has_its_status() {
    assert_eq!(LiveField::Unreadable.to_status(), Status::Unknown);
    assert_eq!(LiveField::Missing.to_status(), Status::Unknown);
    assert_eq!(LiveField::Integer(0).to_status(), Status::Offline);
    assert_eq!(LiveField::Integer(1).to_status(), Status::Online);
    assert_eq!(LiveField::Integer(i64::MIN).to_status(), Status::Online);
    assert_eq!(LiveField::Other.to_status(), Status::Online);
}

#[test]
fn negative_room_is_written_with_its_sign() {
    let request = status_query(-7);
    assert_eq!(
        request.url,
        "https://api.live.bilibili.com/xlive/web-room/v2/index/getRoomPlayInfo?room_id=-7&platform=web"
    );
}

#[test]
fn a_reply_that_is_json_is_taken() {
    assert_eq!(read_reply(r#"{"code":0,"message":"0","data":{"change":1}}"#), Ok(()));
    assert_eq!(read_reply("{}"), Ok(()));
    assert_eq!(read_reply("null"), Ok(()));
}

#[test]
fn a_reply_that_is_no_json_is_a_failure() {
    assert_eq!(read_reply(""), Err(ReplyError::Unreadable));
    assert_eq!(read_reply("<html>502 Bad Gateway</html>"), Err(ReplyError::Unreadable));
    assert_eq!(read_reply(r#"{"code":0"#), Err(ReplyError::Unreadable));
}
