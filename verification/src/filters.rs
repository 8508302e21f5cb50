use vstd::prelude::*;
use crate::paths::{path_segments, segment_at, ends_after, segments, segment_is, segment_nonempty, segment_string};
use crate::text::str_eq;

verus! {

/// The largest JSON body, in bytes, that the API reads.
pub const JSON_BODY_LIMIT: u64 = 16384;

/// The method of an HTTP request.
#[derive(Clone, Copy, PartialEq, Eq, Structural, Debug)]
pub enum Method {
    Get,
    Head,
    Post,
    Put,
    Patch,
    Delete,
    Options,
    Other,
}

/// A request header that routing looks at.
#[derive(Clone, Copy, PartialEq, Eq, Structural, Debug)]
pub enum HeaderName {
    WwwAuthenticate,
    Authorization,
    Cookie,
}

/// Why a request was turned away, in the terms of the HTTP framework.
#[derive(Clone, Copy, PartialEq, Eq, Structural, Debug)]
pub enum Rejection {
    NotFound,
    MethodNotAllowed,
    MissingHeader(HeaderName),
    InvalidHeader(HeaderName),
    MissingCookie,
    LengthRequired,
    PayloadTooLarge,
    UnsupportedMediaType,
    BodyDeserialize,
}

/// The HTTP status that answers a rejection.
pub open spec fn status_of(r: Rejection) -> u16 {
    match r {
        Rejection::NotFound => 404,
        Rejection::MethodNotAllowed => 405,
        Rejection::MissingHeader(_) => 400,
        Rejection::InvalidHeader(_) => 400,
        Rejection::MissingCookie => 400,
        Rejection::LengthRequired => 411,
        Rejection::PayloadTooLarge => 413,
        Rejection::UnsupportedMediaType => 415,
        Rejection::BodyDeserialize => 400,
    }
}

/// The plain-text body that answers a rejection; a failed JSON body is
/// answered with this text followed by the parser's account of the failure.
pub open spec fn message_of(r: Rejection) -> Seq<char> {
    match r {
        Rejection::NotFound => ""@,
        Rejection::MethodNotAllowed => "HTTP method not allowed"@,
        Rejection::MissingHeader(HeaderName::WwwAuthenticate) =>
            "Missing request header \"WWW-Authenticate\""@,
        Rejection::MissingHeader(HeaderName::Authorization) =>
            "Missing request header \"Authorization\""@,
        Rejection::MissingHeader(HeaderName::Cookie) => "Missing request header \"cookie\""@,
        Rejection::InvalidHeader(HeaderName::WwwAuthenticate) =>
            "Invalid request header \"WWW-Authenticate\""@,
        Rejection::InvalidHeader(HeaderName::Authorization) =>
            "Invalid request header \"Authorization\""@,
        Rejection::InvalidHeader(HeaderName::Cookie) => "Invalid request header \"cookie\""@,
        Rejection::MissingCookie => "Missing request cookie \"session\""@,
        Rejection::LengthRequired => "A content-length header is required"@,
        Rejection::PayloadTooLarge => "The request payload is too large"@,
        Rejection::UnsupportedMediaType => "The request's content-type is not supported"@,
        Rejection::BodyDeserialize => "Request body deserialize error: "@,
    }
}

impl Rejection {
    /// The plain-text body that answers this rejection.
    pub fn message(&self) -> (m: &'static str)
        ensures
            m@ == message_of(*self),
    {
        match self {
            Rejection::NotFound => "",
            Rejection::MethodNotAllowed => "HTTP method not allowed",
            Rejection::MissingHeader(HeaderName::WwwAuthenticate) =>
                "Missing request header \"WWW-Authenticate\"",
            Rejection::MissingHeader(HeaderName::Authorization) =>
                "Missing request header \"Authorization\"",
            Rejection::MissingHeader(HeaderName::Cookie) => "Missing request header \"cookie\"",
            Rejection::InvalidHeader(HeaderName::WwwAuthenticate) =>
                "Invalid request header \"WWW-Authenticate\"",
            Rejection::InvalidHeader(HeaderName::Authorization) =>
                "Invalid request header \"Authorization\"",
            Rejection::InvalidHeader(HeaderName::Cookie) => "Invalid request header \"cookie\"",
            Rejection::MissingCookie => "Missing request cookie \"session\"",
            Rejection::LengthRequired => "A content-length header is required",
            Rejection::PayloadTooLarge => "The request payload is too large",
            Rejection::UnsupportedMediaType => "The request's content-type is not supported",
            Rejection::BodyDeserialize => "Request body deserialize error: ",
        }
    }

    /// The HTTP status that answers this rejection.
    pub fn status(&self) -> (s: u16)
        ensures
            s == status_of(*self),
    {
        match self {
            Rejection::NotFound => 404,
            Rejection::MethodNotAllowed => 405,
            Rejection::MissingHeader(_) => 400,
            Rejection::InvalidHeader(_) => 400,
            Rejection::MissingCookie => 400,
            Rejection::LengthRequired => 411,
            Rejection::PayloadTooLarge => 413,
            Rejection::UnsupportedMediaType => 415,
            Rejection::BodyDeserialize => 400,
        }
    }
}

/// Of two rejections from alternative routes, the one that answers the
/// request: "not found" gives way to anything, "method not allowed" to any
/// other rejection, and otherwise the higher status wins, the first on a tie.
pub open spec fn combined(a: Rejection, b: Rejection) -> Rejection {
    if b == Rejection::NotFound {
        a
    } else if a == Rejection::NotFound {
        b
    } else if b == Rejection::MethodNotAllowed {
        a
    } else if a == Rejection::MethodNotAllowed {
        b
    } else if status_of(a) < status_of(b) {
        b
    } else {
        a
    }
}

/// Combines the rejections of two alternative routes.
pub fn combine(a: Rejection, b: Rejection) -> (r: Rejection)
    ensures
        r == combined(a, b),
{
    if b == Rejection::NotFound {
        a
    } else if a == Rejection::NotFound {
        b
    } else if b == Rejection::MethodNotAllowed {
        a
    } else if a == Rejection::MethodNotAllowed {
        b
    } else if a.status() < b.status() {
        b
    } else {
        a
    }
}

/// A request header as it arrived: absent, readable text, or bytes that are
/// not visible ASCII.
#[derive(Debug)]
pub enum HeaderField {
    Absent,
    Text(String),
    Opaque,
}

pub enum HeaderFieldView {
    Absent,
    Text(Seq<char>),
    Opaque,
}

impl View for HeaderField {
    type V = HeaderFieldView;

    open spec fn view(&self) -> HeaderFieldView {
        match self {
            HeaderField::Absent => HeaderFieldView::Absent,
            HeaderField::Text(s) => HeaderFieldView::Text(s@),
            HeaderField::Opaque => HeaderFieldView::Opaque,
        }
    }
}

/// The `session` cookie of a request.
#[derive(Debug)]
pub enum SessionCookie {
    /// The request has no readable `Cookie` header.
    NoCookieHeader,
    /// The `Cookie` header names no `session` cookie.
    Missing,
    Value(String),
}

pub enum SessionCookieView {
    NoCookieHeader,
    Missing,
    Value(Seq<char>),
}

impl View for SessionCookie {
    type V = SessionCookieView;

    open spec fn view(&self) -> SessionCookieView {
        match self {
            SessionCookie::NoCookieHeader => SessionCookieView::NoCookieHeader,
            SessionCookie::Missing => SessionCookieView::Missing,
            SessionCookie::Value(s) => SessionCookieView::Value(s@),
        }
    }
}

/// What routing reads of a request to the API.
#[derive(Debug)]
pub struct ApiRequest {
    pub method: Method,
    pub path: String,
    pub www_authenticate: HeaderField,
    pub authorization: HeaderField,
    pub user_agent: HeaderField,
    pub content_length: Option<u64>,
    pub content_type: HeaderField,
    pub session_cookie: SessionCookie,
}

pub struct ApiRequestView {
    pub method: Method,
    pub path: Seq<char>,
    pub www_authenticate: HeaderFieldView,
    pub authorization: HeaderFieldView,
    pub user_agent: HeaderFieldView,
    pub content_length: Option<u64>,
    pub content_type: HeaderFieldView,
    pub session_cookie: SessionCookieView,
}

impl View for ApiRequest {
    type V = ApiRequestView;

    open spec fn view(&self) -> ApiRequestView {
        ApiRequestView {
            method: self.method,
            path: self.path@,
            www_authenticate: self.www_authenticate@,
            authorization: self.authorization@,
            user_agent: self.user_agent@,
            content_length: self.content_length,
            content_type: self.content_type@,
            session_cookie: self.session_cookie@,
        }
    }
}

/// The handler that a request reaches, with what the route extracted for it.
/// The two routes with a body take it as JSON: a `Player` for `Register`, a
/// `PlayerUpdateForm` for `PlayerUpdate`.
#[derive(Debug, PartialEq, Eq)]
pub enum Endpoint {
    Register { agent: String },
    PlayerInfo { nickname: String },
    PlayerUpdate { nickname: String, session_hash: String },
    PlayerDelete { nickname: String },
    Login { authorization: String, agent: String },
}

pub enum EndpointView {
    Register { agent: Seq<char> },
    PlayerInfo { nickname: Seq<char> },
    PlayerUpdate { nickname: Seq<char>, session_hash: Seq<char> },
    PlayerDelete { nickname: Seq<char> },
    Login { authorization: Seq<char>, agent: Seq<char> },
}

impl View for Endpoint {
    type V = EndpointView;

    open spec fn view(&self) -> EndpointView {
        match self {
            Endpoint::Register { agent } => EndpointView::Register { agent: agent@ },
            Endpoint::PlayerInfo { nickname } => EndpointView::PlayerInfo { nickname: nickname@ },
            Endpoint::PlayerUpdate { nickname, session_hash } => EndpointView::PlayerUpdate {
                nickname: nickname@,
                session_hash: session_hash@,
            },
            Endpoint::PlayerDelete { nickname } => EndpointView::PlayerDelete {
                nickname: nickname@,
            },
            Endpoint::Login { authorization, agent } => EndpointView::Login {
                authorization: authorization@,
                agent: agent@,
            },
        }
    }
}

/// The outcome of routing: a handler to run, with the rejection that answers
/// the request if that handler turns it away, or the rejection of every route.
#[derive(Debug, PartialEq, Eq)]
pub enum Routed {
    Matched { endpoint: Endpoint, fallback: Rejection },
    Rejected(Rejection),
}

pub enum RoutedView {
    Matched { endpoint: EndpointView, fallback: Rejection },
    Rejected(Rejection),
}

impl View for Routed {
    type V = RoutedView;

    open spec fn view(&self) -> RoutedView {
        match self {
            Routed::Matched { endpoint, fallback } => RoutedView::Matched {
                endpoint: endpoint@,
                fallback: *fallback,
            },
            Routed::Rejected(r) => RoutedView::Rejected(*r),
        }
    }
}

/// Tries route `a`, then route `b`: the first route that matches runs, and the
/// rejections of the others are combined in order.
pub open spec fn spec_either(a: RoutedView, b: RoutedView) -> RoutedView {
    match a {
        RoutedView::Matched { endpoint, fallback } => match b {
            RoutedView::Rejected(rb) => RoutedView::Matched {
                endpoint,
                fallback: combined(fallback, rb),
            },
            RoutedView::Matched { .. } => a,
        },
        RoutedView::Rejected(ra) => match b {
            RoutedView::Rejected(rb) => RoutedView::Rejected(combined(ra, rb)),
            RoutedView::Matched { endpoint, fallback } => RoutedView::Matched {
                endpoint,
                fallback: combined(ra, fallback),
            },
        },
    }
}

/// A route that matches, with nothing behind it to fall back on.
pub open spec fn spec_matched(endpoint: EndpointView) -> RoutedView {
    RoutedView::Matched { endpoint, fallback: Rejection::NotFound }
}

/// The user agent that a request announces; none reads as the empty text.
pub open spec fn spec_agent(user_agent: HeaderFieldView) -> Seq<char> {
    match user_agent {
        HeaderFieldView::Text(s) => s,
        _ => Seq::empty(),
    }
}

/// The size check on a JSON body: the length must be given and at most
/// `JSON_BODY_LIMIT` bytes.
pub open spec fn spec_content_length_limit(content_length: Option<u64>) -> Option<Rejection> {
    match content_length {
        None => Some(Rejection::LengthRequired),
        Some(n) => if n <= JSON_BODY_LIMIT {
            None
        } else {
            Some(Rejection::PayloadTooLarge)
        },
    }
}

/// The media type and subtype that the `mime` crate reads in a `Content-Type`
/// value, or `None` where it does not parse.
pub uninterp spec fn parsed_media_type(value: Seq<char>) -> Option<(Seq<char>, Seq<char>)>;

/// Whether a parsed media type is JSON: type `application`, subtype `json`.
pub open spec fn spec_is_json_media_type(parsed: Option<(Seq<char>, Seq<char>)>) -> bool {
    parsed == Some(("application"@, "json"@))
}

/// Whether a request's content type admits a JSON body: none given, or
/// `application/json` with any parameters.
pub open spec fn spec_is_json_content_type(content_type: HeaderFieldView) -> bool {
    match content_type {
        HeaderFieldView::Absent => true,
        HeaderFieldView::Text(v) => spec_is_json_media_type(parsed_media_type(v)),
        HeaderFieldView::Opaque => false,
    }
}

/// The checks on a JSON body before it is read: its size, then its content type.
pub open spec fn spec_json_body(r: ApiRequestView) -> Option<Rejection> {
    match spec_content_length_limit(r.content_length) {
        Some(rej) => Some(rej),
        None => if spec_is_json_content_type(r.content_type) {
            None
        } else {
            Some(Rejection::UnsupportedMediaType)
        },
    }
}

/// `POST /api/player/register` with a JSON body.
pub open spec fn spec_player_register(r: ApiRequestView) -> RoutedView {
    let segs = path_segments(r.path);
    if segment_at(segs, 2) == "register"@ && ends_after(segs, 3) {
        if r.method == Method::Post {
            match spec_json_body(r) {
                Some(rej) => RoutedView::Rejected(rej),
                None => spec_matched(EndpointView::Register { agent: spec_agent(r.user_agent) }),
            }
        } else {
            RoutedView::Rejected(Rejection::MethodNotAllowed)
        }
    } else {
        RoutedView::Rejected(Rejection::NotFound)
    }
}

/// `GET /api/player/{nickname}`.
pub open spec fn spec_player_info_by_nickname(r: ApiRequestView) -> RoutedView {
    let segs = path_segments(r.path);
    if segment_at(segs, 2).len() > 0 && ends_after(segs, 3) {
        if r.method == Method::Get {
            spec_matched(EndpointView::PlayerInfo { nickname: segment_at(segs, 2) })
        } else {
            RoutedView::Rejected(Rejection::MethodNotAllowed)
        }
    } else {
        RoutedView::Rejected(Rejection::NotFound)
    }
}

/// `PATCH /api/player/{nickname}/update` with the `session` cookie and a
/// JSON body.
pub open spec fn spec_player_update(r: ApiRequestView) -> RoutedView {
    let segs = path_segments(r.path);
    if segment_at(segs, 2).len() > 0 && segment_at(segs, 3) == "update"@ && ends_after(segs, 4) {
        if r.method == Method::Patch {
            match r.session_cookie {
                SessionCookieView::NoCookieHeader => RoutedView::Rejected(
                    Rejection::InvalidHeader(HeaderName::Cookie),
                ),
                SessionCookieView::Missing => RoutedView::Rejected(Rejection::MissingCookie),
                SessionCookieView::Value(session_hash) => match spec_json_body(r) {
                    Some(rej) => RoutedView::Rejected(rej),
                    None => spec_matched(
                        EndpointView::PlayerUpdate { nickname: segment_at(segs, 2), session_hash },
                    ),
                },
            }
        } else {
            RoutedView::Rejected(Rejection::MethodNotAllowed)
        }
    } else {
        RoutedView::Rejected(Rejection::NotFound)
    }
}

/// `DELETE /api/player/{nickname}/delete`; the method is checked before the
/// last segment.
pub open spec fn spec_player_delete(r: ApiRequestView) -> RoutedView {
    let segs = path_segments(r.path);
    if segment_at(segs, 2).len() > 0 {
        if r.method == Method::Delete {
            if segment_at(segs, 3) == "delete"@ && ends_after(segs, 4) {
                spec_matched(EndpointView::PlayerDelete { nickname: segment_at(segs, 2) })
            } else {
                RoutedView::Rejected(Rejection::NotFound)
            }
        } else {
            RoutedView::Rejected(Rejection::MethodNotAllowed)
        }
    } else {
        RoutedView::Rejected(Rejection::NotFound)
    }
}

/// The routes under `/api/player/{nickname}`, in order.
pub open spec fn spec_player_nickname(r: ApiRequestView) -> RoutedView {
    spec_either(
        spec_either(spec_player_info_by_nickname(r), spec_player_update(r)),
        spec_player_delete(r),
    )
}

/// The routes under `/api/player`, in order.
pub open spec fn spec_player(r: ApiRequestView) -> RoutedView {
    if segment_at(path_segments(r.path), 1) == "player"@ {
        spec_either(spec_player_register(r), spec_player_nickname(r))
    } else {
        RoutedView::Rejected(Rejection::NotFound)
    }
}

/// `GET /api/login` with `WWW-Authenticate: Basic` and an `Authorization`
/// header.
pub open spec fn spec_login(r: ApiRequestView) -> RoutedView {
    let segs = path_segments(r.path);
    if segment_at(segs, 1) == "login"@ && ends_after(segs, 2) {
        if r.method == Method::Get {
            match r.www_authenticate {
                HeaderFieldView::Absent => RoutedView::Rejected(
                    Rejection::MissingHeader(HeaderName::WwwAuthenticate),
                ),
                HeaderFieldView::Opaque => RoutedView::Rejected(
                    Rejection::InvalidHeader(HeaderName::WwwAuthenticate),
                ),
                HeaderFieldView::Text(v) => if v == "Basic"@ {
                    match r.authorization {
                        HeaderFieldView::Absent => RoutedView::Rejected(
                            Rejection::MissingHeader(HeaderName::Authorization),
                        ),
                        HeaderFieldView::Opaque => RoutedView::Rejected(
                            Rejection::InvalidHeader(HeaderName::Authorization),
                        ),
                        HeaderFieldView::Text(authorization) => spec_matched(
                            EndpointView::Login { authorization, agent: spec_agent(r.user_agent) },
                        ),
                    }
                } else {
                    RoutedView::Rejected(Rejection::InvalidHeader(HeaderName::WwwAuthenticate))
                },
            }
        } else {
            RoutedView::Rejected(Rejection::MethodNotAllowed)
        }
    } else {
        RoutedView::Rejected(Rejection::NotFound)
    }
}

/// The routes under `/api`, in order.
pub open spec fn spec_api(r: ApiRequestView) -> RoutedView {
    if segment_at(path_segments(r.path), 0) == "api"@ {
        spec_either(spec_player(r), spec_login(r))
    } else {
        RoutedView::Rejected(Rejection::NotFound)
    }
}

/// Tries route `a`, then route `b`.
pub fn either(a: Routed, b: Routed) -> (r: Routed)
    ensures
        r@ == spec_either(a@, b@),
{
    match a {
        Routed::Matched { endpoint, fallback } => match b {
            Routed::Rejected(rb) => Routed::Matched { endpoint, fallback: combine(fallback, rb) },
            Routed::Matched { .. } => Routed::Matched { endpoint, fallback },
        },
        Routed::Rejected(ra) => match b {
            Routed::Rejected(rb) => Routed::Rejected(combine(ra, rb)),
            Routed::Matched { endpoint, fallback } => Routed::Matched {
                endpoint,
                fallback: combine(ra, fallback),
            },
        },
    }
}

fn matched(endpoint: Endpoint) -> (r: Routed)
    ensures
        r@ == spec_matched(endpoint@),
{
    Routed::Matched { endpoint, fallback: Rejection::NotFound }
}

/// The user agent that a request announces, or the empty text.
pub fn agent_of(user_agent: &HeaderField) -> (s: String)
    ensures
        s@ == spec_agent(user_agent@),
{
    match user_agent {
        HeaderField::Text(s) => s.clone(),
        _ => String::new(),
    }
}

/// The size check on a JSON body.
pub fn content_length_limit(content_length: Option<u64>) -> (r: Option<Rejection>)
    ensures
        r == spec_content_length_limit(content_length),
{
    match content_length {
        None => Some(Rejection::LengthRequired),
        Some(n) => if n <= JSON_BODY_LIMIT {
            None
        } else {
            Some(Rejection::PayloadTooLarge)
        },
    }
}

/// `s.parse::<mime::Mime>()` from mime, read back as its type and subtype
/// (`type_().as_str()`, `subtype().as_str()`). The result is named by
/// `parsed_media_type` and not spelled out: mime's grammar is its own.
#[verifier::external_body]
fn media_type(value: &str) -> (r: Option<(String, String)>)
    ensures
        media_type_view(r) == parsed_media_type(value@),
{
    match value.parse::<mime::Mime>() {
        Ok(m) => Some((m.type_().as_str().to_owned(), m.subtype().as_str().to_owned())),
        Err(_) => None,
    }
}

/// The view of a parsed media type.
pub open spec fn media_type_view(parsed: Option<(String, String)>) -> Option<(Seq<char>, Seq<char>)> {
    match parsed {
        Some((t, s)) => Some((t@, s@)),
        None => None,
    }
}

/// Whether a parsed media type (type, subtype) is JSON.
pub fn is_json_media_type(parsed: &Option<(String, String)>) -> (b: bool)
    ensures
        b == spec_is_json_media_type(media_type_view(*parsed)),
{
    match parsed {
        Some((t, s)) => str_eq(t.as_str(), "application") && str_eq(s.as_str(), "json"),
        None => false,
    }
}

/// Whether a request's content type admits a JSON body.
pub fn is_json_content_type(content_type: &HeaderField) -> (b: bool)
    ensures
        b == spec_is_json_content_type(content_type@),
{
    match content_type {
        HeaderField::Absent => true,
        HeaderField::Text(v) => is_json_media_type(&media_type(v.as_str())),
        HeaderField::Opaque => false,
    }
}

/// The checks on a JSON body before it is read.
fn json_body(r: &ApiRequest) -> (out: Option<Rejection>)
    ensures
        out == spec_json_body(r@),
{
    match content_length_limit(r.content_length) {
        Some(rej) => Some(rej),
        None => if is_json_content_type(&r.content_type) {
            None
        } else {
            Some(Rejection::UnsupportedMediaType)
        },
    }
}

/// The checks on the JSON body that carries a `Player`, before it is read.
pub fn json_body_player(r: &ApiRequest) -> (out: Option<Rejection>)
    ensures
        out == spec_json_body(r@),
{
    json_body(r)
}

/// The checks on the JSON body that carries a `PlayerUpdateForm`, before it
/// is read.
pub fn json_body_player_update_form(r: &ApiRequest) -> (out: Option<Rejection>)
    ensures
        out == spec_json_body(r@),
{
    json_body(r)
}

/// Routes `POST /api/player/register`.
pub fn player_register(r: &ApiRequest) -> (out: Routed)
    ensures
        out@ == spec_player_register(r@),
{
    let segs = segments(r.path.as_str());
    if segment_is(&segs, 2, "register") && segs.len() <= 3 {
        if r.method == Method::Post {
            match json_body_player(r) {
                Some(rej) => Routed::Rejected(rej),
                None => matched(Endpoint::Register { agent: agent_of(&r.user_agent) }),
            }
        } else {
            Routed::Rejected(Rejection::MethodNotAllowed)
        }
    } else {
        Routed::Rejected(Rejection::NotFound)
    }
}

/// Routes `GET /api/player/{nickname}`.
pub fn player_info_by_nickname(r: &ApiRequest) -> (out: Routed)
    ensures
        out@ == spec_player_info_by_nickname(r@),
{
    let segs = segments(r.path.as_str());
    if segment_nonempty(&segs, 2) && segs.len() <= 3 {
        if r.method == Method::Get {
            matched(Endpoint::PlayerInfo { nickname: segment_string(&segs, 2) })
        } else {
            Routed::Rejected(Rejection::MethodNotAllowed)
        }
    } else {
        Routed::Rejected(Rejection::NotFound)
    }
}

/// Routes `PATCH /api/player/{nickname}/update`.
pub fn player_update(r: &ApiRequest) -> (out: Routed)
    ensures
        out@ == spec_player_update(r@),
{
    let segs = segments(r.path.as_str());
    if segment_nonempty(&segs, 2) && segment_is(&segs, 3, "update") && segs.len() <= 4 {
        if r.method == Method::Patch {
            match &r.session_cookie {
                SessionCookie::NoCookieHeader => Routed::Rejected(
                    Rejection::InvalidHeader(HeaderName::Cookie),
                ),
                SessionCookie::Missing => Routed::Rejected(Rejection::MissingCookie),
                SessionCookie::Value(session_hash) => match json_body_player_update_form(r) {
                    Some(rej) => Routed::Rejected(rej),
                    None => matched(
                        Endpoint::PlayerUpdate {
                            nickname: segment_string(&segs, 2),
                            session_hash: session_hash.clone(),
                        },
                    ),
                },
            }
        } else {
            Routed::Rejected(Rejection::MethodNotAllowed)
        }
    } else {
        Routed::Rejected(Rejection::NotFound)
    }
}

/// Routes `DELETE /api/player/{nickname}/delete`.
pub fn player_delete(r: &ApiRequest) -> (out: Routed)
    ensures
        out@ == spec_player_delete(r@),
{
    let segs = segments(r.path.as_str());
    if segment_nonempty(&segs, 2) {
        if r.method == Method::Delete {
            if segment_is(&segs, 3, "delete") && segs.len() <= 4 {
                matched(Endpoint::PlayerDelete { nickname: segment_string(&segs, 2) })
            } else {
                Routed::Rejected(Rejection::NotFound)
            }
        } else {
            Routed::Rejected(Rejection::MethodNotAllowed)
        }
    } else {
        Routed::Rejected(Rejection::NotFound)
    }
}

/// Routes the requests under `/api/player/{nickname}`.
pub fn player_nickname(r: &ApiRequest) -> (out: Routed)
    ensures
        out@ == spec_player_nickname(r@),
{
    either(either(player_info_by_nickname(r), player_update(r)), player_delete(r))
}

/// Routes the requests under `/api/player`.
pub fn player(r: &ApiRequest) -> (out: Routed)
    ensures
        out@ == spec_player(r@),
{
    let segs = segments(r.path.as_str());
    if segment_is(&segs, 1, "player") {
        either(player_register(r), player_nickname(r))
    } else {
        Routed::Rejected(Rejection::NotFound)
    }
}

/// Routes `GET /api/login`.
pub fn login(r: &ApiRequest) -> (out: Routed)
    ensures
        out@ == spec_login(r@),
{
    let segs = segments(r.path.as_str());
    if segment_is(&segs, 1, "login") && segs.len() <= 2 {
        if r.method == Method::Get {
            match &r.www_authenticate {
                HeaderField::Absent => Routed::Rejected(
                    Rejection::MissingHeader(HeaderName::WwwAuthenticate),
                ),
                HeaderField::Opaque => Routed::Rejected(
                    Rejection::InvalidHeader(HeaderName::WwwAuthenticate),
                ),
                HeaderField::Text(v) => if str_eq(v.as_str(), "Basic") {
                    match &r.authorization {
                        HeaderField::Absent => Routed::Rejected(
                            Rejection::MissingHeader(HeaderName::Authorization),
                        ),
                        HeaderField::Opaque => Routed::Rejected(
                            Rejection::InvalidHeader(HeaderName::Authorization),
                        ),
                        HeaderField::Text(authorization) => matched(
                            Endpoint::Login {
                                authorization: authorization.clone(),
                                agent: agent_of(&r.user_agent),
                            },
                        ),
                    }
                } else {
                    Routed::Rejected(Rejection::InvalidHeader(HeaderName::WwwAuthenticate))
                },
            }
        } else {
            Routed::Rejected(Rejection::MethodNotAllowed)
        }
    } else {
        Routed::Rejected(Rejection::NotFound)
    }
}

/// Routes a request under `/api`: which handler answers it, or why every
/// API route turned it away.
pub fn api(r: &ApiRequest) -> (out: Routed)
    ensures
        out@ == spec_api(r@),
{
    let segs = segments(r.path.as_str());
    if segment_is(&segs, 0, "api") {
        either(player(r), login(r))
    } else {
        Routed::Rejected(Rejection::NotFound)
    }
}

/// Whether a routing outcome runs a handler.
pub open spec fn is_matched(o: RoutedView) -> bool {
    o is Matched
}

/// How many of the API's routes take the request.
pub open spec fn matching_routes(r: ApiRequestView) -> nat {
    (if is_matched(spec_player_register(r)) { 1nat } else { 0nat })
    + (if is_matched(spec_player_info_by_nickname(r)) { 1nat } else { 0nat })
    + (if is_matched(spec_player_update(r)) { 1nat } else { 0nat })
    + (if is_matched(spec_player_delete(r)) { 1nat } else { 0nat })
    + (if is_matched(spec_login(r)) { 1nat } else { 0nat })
}

/// No request is taken by two API routes: which handler runs never depends
/// on the order in which the routes are tried.
pub proof fn lemma_at_most_one_route(r: ApiRequestView)
    ensures
        matching_routes(r) <= 1,
{
}

/// A request with a JSON body reaches its handler only when its announced
/// length is given and at most `JSON_BODY_LIMIT` bytes and its content type
/// admits JSON, so a larger payload is turned away on its headers alone. And
/// if the body then fails to parse, that failure is what answers the request.
pub proof fn lemma_body_within_limit(r: ApiRequestView)
    ensures
        spec_api(r) is Matched && (spec_api(r)->endpoint is Register
            || spec_api(r)->endpoint is PlayerUpdate) ==> {
            &&& r.content_length is Some
            &&& r.content_length->0 <= JSON_BODY_LIMIT
            &&& spec_is_json_content_type(r.content_type)
            &&& combined(Rejection::BodyDeserialize, spec_api(r)->fallback)
                == Rejection::BodyDeserialize
        },
{
    lemma_at_most_one_route(r);
}

/// The profile update handler only runs for a request that carries a
/// `session` cookie, and receives that cookie's value.
pub proof fn lemma_update_needs_session_cookie(r: ApiRequestView)
    ensures
        spec_api(r) is Matched && spec_api(r)->endpoint is PlayerUpdate ==> r.session_cookie
            == SessionCookieView::Value(spec_api(r)->endpoint->session_hash),
{
    lemma_at_most_one_route(r);
}

/// A request outside `/api` is left to the other routes.
pub proof fn lemma_outside_api_not_found(r: ApiRequestView)
    requires
        segment_at(path_segments(r.path), 0) != "api"@,
    ensures
        spec_api(r) == RoutedView::Rejected(Rejection::NotFound),
{
}

/// "Not found" never decides between two rejections: a handler that turns a
/// request away leaves the answer to the other routes.
pub proof fn lemma_not_found_is_neutral(a: Rejection)
    ensures
        combined(a, Rejection::NotFound) == a,
        combined(Rejection::NotFound, a) == a,
{
}

} // verus!
