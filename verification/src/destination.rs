//! The destination room: how its status is asked for and read, and the
//! requests that start and stop its broadcast.
//!
//! Nothing here talks to the network. Each operation builds the request that
//! the caller sends, from the room and the credentials alone, or reads the
//! reply that the caller received.

use crate::json::{descend, json_at, json_document, json_integer, parse_document, Step};
use crate::status::Status;
use crate::text::{append_decimal, decimal};
use vstd::prelude::*;
use vstd::string::StringExecFns;

verus! {

/// Address of the status query, up to the room number.
pub const ROOM_INFO_URL: &'static str =
    "https://api.live.bilibili.com/xlive/web-room/v2/index/getRoomPlayInfo?room_id=";

/// What follows the room number in the status query.
pub const ROOM_INFO_SUFFIX: &'static str = "&platform=web";

/// Address that starts the broadcast.
pub const START_URL: &'static str = "https://api.live.bilibili.com/room/v1/Room/startLive";

/// Address that stops the broadcast.
pub const STOP_URL: &'static str = "https://api.live.bilibili.com/room/v1/Room/stopLive";

/// What authenticates a call to the destination platform.
#[derive(Clone, Debug)]
pub struct SessionCredentials {
    /// The session token.
    pub session_token: String,
    /// The token that guards against forged requests.
    pub csrf_token: String,
    /// The user's id.
    pub user_id: String,
    /// The checksum of the user's id.
    pub user_id_checksum: String,
}

/// How a request is sent.
#[derive(Clone, Copy, Debug, PartialEq, Eq, Structural)]
pub enum Method {
    Get,
    Post,
}

/// A request to the destination platform, ready to be sent.
#[derive(Clone, Debug)]
pub struct Request {
    pub method: Method,
    pub url: String,
    /// Header names and values, in the order in which they are set.
    pub headers: Vec<(String, String)>,
    /// What the `Cookie` header holds, where the call is authenticated.
    pub cookie: Option<String>,
    /// The form body, where there is one.
    pub body: Option<String>,
}

/// A request as plain text.
pub struct RequestText {
    pub method: Method,
    pub url: Seq<char>,
    pub headers: Seq<(Seq<char>, Seq<char>)>,
    pub cookie: Option<Seq<char>>,
    pub body: Option<Seq<char>>,
}

impl View for Request {
    type V = RequestText;

    open spec fn view(&self) -> RequestText {
        RequestText {
            method: self.method,
            url: self.url@,
            headers: self.headers.deep_view(),
            cookie: self.cookie.deep_view(),
            body: self.body.deep_view(),
        }
    }
}

/// The session cookie: the four credentials under their cookie names,
/// separated by semicolons.
pub open spec fn cookie_text(credentials: SessionCredentials) -> Seq<char> {
    "SESSDATA="@ + credentials.session_token@ + ";bili_jct="@ + credentials.csrf_token@
        + ";DedeUserID="@ + credentials.user_id@ + ";DedeUserID__ckMd5="@
        + credentials.user_id_checksum@
}

/// The address that reports the status of `room`.
pub open spec fn status_url(room: int) -> Seq<char> {
    ROOM_INFO_URL@ + decimal(room) + ROOM_INFO_SUFFIX@
}

/// The form that starts the broadcast of `room`: the room, the platform, the
/// area, and the CSRF token under both of its names.
pub open spec fn start_form(room: int, csrf_token: Seq<char>) -> Seq<char> {
    "room_id="@ + decimal(room) + "&platform=pc&area_v2=433&csrf_token="@ + csrf_token
        + "&csrf="@ + csrf_token
}

/// The form that stops the broadcast of `room`.
pub open spec fn stop_form(room: int, csrf_token: Seq<char>) -> Seq<char> {
    "room_id="@ + decimal(room) + "&platform=pc&csrf_token="@ + csrf_token + "&csrf="@
        + csrf_token
}

/// The headers of a form post.
pub open spec fn form_headers() -> Seq<(Seq<char>, Seq<char>)> {
    seq![
        ("Accept"@, "application/json, text/plain, */*"@),
        ("content-type"@, "application/x-www-form-urlencoded; charset=UTF-8"@),
    ]
}

/// The request that asks for the status of `room`.
pub open spec fn status_request(room: int) -> RequestText {
    RequestText {
        method: Method::Get,
        url: status_url(room),
        headers: Seq::empty(),
        cookie: None,
        body: None,
    }
}

/// The request that starts the broadcast of `room`.
pub open spec fn start_request(room: int, credentials: SessionCredentials) -> RequestText {
    RequestText {
        method: Method::Post,
        url: START_URL@,
        headers: form_headers(),
        cookie: Some(cookie_text(credentials)),
        body: Some(start_form(room, credentials.csrf_token@)),
    }
}

/// The request that stops the broadcast of `room`.
pub open spec fn stop_request(room: int, credentials: SessionCredentials) -> RequestText {
    RequestText {
        method: Method::Post,
        url: STOP_URL@,
        headers: form_headers(),
        cookie: Some(cookie_text(credentials)),
        body: Some(stop_form(room, credentials.csrf_token@)),
    }
}

/// Builds the session cookie.
pub fn session_cookie(credentials: &SessionCredentials) -> (cookie: String)
    ensures
        cookie@ == cookie_text(*credentials),
{
    let mut cookie = String::from_str("SESSDATA=");
    cookie.append(credentials.session_token.as_str());
    cookie.append(";bili_jct=");
    cookie.append(credentials.csrf_token.as_str());
    cookie.append(";DedeUserID=");
    cookie.append(credentials.user_id.as_str());
    cookie.append(";DedeUserID__ckMd5=");
    cookie.append(credentials.user_id_checksum.as_str());
    cookie
}

fn post_headers() -> (headers: Vec<(String, String)>)
    ensures
        headers.deep_view() == form_headers(),
{
    let mut headers: Vec<(String, String)> = Vec::new();
    headers.push((String::from_str("Accept"), String::from_str("application/json, text/plain, */*")));
    headers.push(
        (
            String::from_str("content-type"),
            String::from_str("application/x-www-form-urlencoded; charset=UTF-8"),
        ),
    );
    assert(headers.deep_view() =~= form_headers());
    headers
}

/// The query for the status of `room`.
pub fn status_query(room: i32) -> (request: Request)
    ensures
        request@ == status_request(room as int),
{
    let mut url = String::from_str(ROOM_INFO_URL);
    append_decimal(&mut url, room);
    url.append(ROOM_INFO_SUFFIX);
    let request = Request { method: Method::Get, url, headers: Vec::new(), cookie: None, body: None };
    assert(request.headers.deep_view() =~= Seq::empty());
    request
}

/// The request that starts the broadcast of `room`. It depends on the room
/// and the credentials alone: nothing is kept from one call to the next.
pub fn start(room: i32, credentials: &SessionCredentials) -> (request: Request)
    ensures
        request@ == start_request(room as int, *credentials),
{
    let mut body = String::from_str("room_id=");
    append_decimal(&mut body, room);
    body.append("&platform=pc&area_v2=433&csrf_token=");
    body.append(credentials.csrf_token.as_str());
    body.append("&csrf=");
    body.append(credentials.csrf_token.as_str());
    Request {
        method: Method::Post,
        url: String::from_str(START_URL),
        headers: post_headers(),
        cookie: Some(session_cookie(credentials)),
        body: Some(body),
    }
}

/// The request that stops the broadcast of `room`. It depends on the room and
/// the credentials alone: nothing is kept from one call to the next.
pub fn stop(room: i32, credentials: &SessionCredentials) -> (request: Request)
    ensures
        request@ == stop_request(room as int, *credentials),
{
    let mut body = String::from_str("room_id=");
    append_decimal(&mut body, room);
    body.append("&platform=pc&csrf_token=");
    body.append(credentials.csrf_token.as_str());
    body.append("&csrf=");
    body.append(credentials.csrf_token.as_str());
    Request {
        method: Method::Post,
        url: String::from_str(STOP_URL),
        headers: post_headers(),
        cookie: Some(session_cookie(credentials)),
        body: Some(body),
    }
}

/// What a status reply holds where the live status of the room belongs.
#[derive(Clone, Copy, Debug, PartialEq, Eq, Structural)]
pub enum LiveField {
    /// The reply is not a JSON document.
    Unreadable,
    /// The document has no `data.live_status`.
    Missing,
    /// An integer stands there.
    Integer(i64),
    /// Something else stands there.
    Other,
}

impl LiveField {
    /// The status that the field reports: `0` is offline and any other value
    /// is live. Where the reply cannot be read, or has no such field, the
    /// status is unknown, never offline.
    pub open spec fn status(self) -> Status {
        match self {
            LiveField::Unreadable => Status::Unknown,
            LiveField::Missing => Status::Unknown,
            LiveField::Integer(value) => if value == 0 {
                Status::Offline
            } else {
                Status::Online
            },
            LiveField::Other => Status::Online,
        }
    }

    /// The status that the field reports.
    pub fn to_status(&self) -> (status: Status)
        ensures
            status == self.status(),
    {
        match self {
            LiveField::Unreadable => Status::Unknown,
            LiveField::Missing => Status::Unknown,
            LiveField::Integer(value) => if *value == 0 {
                Status::Offline
            } else {
                Status::Online
            },
            LiveField::Other => Status::Online,
        }
    }
}

/// Where the live status stands in a status reply.
pub open spec fn live_status_path() -> Seq<Step<'static>> {
    seq![Step::Key("data"), Step::Key("live_status")]
}

/// What `reply` holds at `data.live_status`.
pub open spec fn live_field_of(reply: Seq<char>) -> LiveField {
    match json_document(reply) {
        None => LiveField::Unreadable,
        Some(document) => match json_at(document, live_status_path()) {
            None => LiveField::Missing,
            Some(value) => match json_integer(value) {
                Some(number) => LiveField::Integer(number),
                None => LiveField::Other,
            },
        },
    }
}

/// Reads the live status field out of a status reply.
pub fn live_field(reply: &str) -> (field: LiveField)
    ensures
        field == live_field_of(reply@),
{
    let document = match parse_document(reply) {
        Some(document) => document,
        None => {
            return LiveField::Unreadable;
        },
    };
    let path = [Step::Key("data"), Step::Key("live_status")];
    assert(path@ =~= live_status_path());
    match descend(&document, path.as_slice()) {
        None => LiveField::Missing,
        Some(value) => match value.as_i64() {
            Some(number) => LiveField::Integer(number),
            None => LiveField::Other,
        },
    }
}

/// The status of the room that a status reply reports.
pub fn read_status(reply: &str) -> (status: Status)
    ensures
        status == live_field_of(reply@).status(),
{
    live_field(reply).to_status()
}

/// Whether a status reply reports the room as live. An unknown status counts
/// as not live.
pub fn is_live(reply: &str) -> (live: bool)
    ensures
        live == (live_field_of(reply@).status() == Status::Online),
{
    read_status(reply).is_live()
}

/// Why the reply to a start or stop request was not taken.
#[derive(Clone, Copy, Debug, PartialEq, Eq, Structural)]
pub enum ReplyError {
    /// The reply is not a JSON document.
    Unreadable,
}

/// What the reply to a start or stop request amounts to: it is taken where
/// it is a JSON document, and is a failure where it is none.
pub open spec fn reply_outcome(reply: Seq<char>) -> Result<(), ReplyError> {
    if json_document(reply) is Some {
        Ok(())
    } else {
        Err(ReplyError::Unreadable)
    }
}

/// Reads the reply to a start or stop request.
pub fn read_reply(reply: &str) -> (outcome: Result<(), ReplyError>)
    ensures
        outcome == reply_outcome(reply@),
{
    match parse_document(reply) {
        Some(_) => Ok(()),
        None => Err(ReplyError::Unreadable),
    }
}

} // verus!
