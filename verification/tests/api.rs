use balamut::db::{DbReply, DbRequest, PlayerField, ReplyShape, SqlValue};
use balamut::filters::{
    api, combine, is_json_content_type, is_json_media_type, Endpoint, HeaderField, HeaderName, Method, Rejection,
    Routed, SessionCookie, ApiRequest, JSON_BODY_LIMIT,
};
use balamut::handlers::{
    address_to_record, create_new_session_for_player, create_new_session_for_player_next, generate_hash, player_delete, player_delete_next, player_info,
    player_info_next, player_login, player_login_next, player_logout, player_logout_next,
    player_register, player_register_next, player_update, player_update_next, player_whoami,
    player_whoami_next, recover, set_session_cookie, Outcome, Response, Step, SESSION_HASH_LEN,
};
use balamut::models::{is_reserved_nickname, Player, PlayerUpdateForm, RESERVED_NICKNAMES};
use balamut::paths::segments;
use rusqlite::Connection;
use std::hash::{DefaultHasher, Hash, Hasher};

// ----- a database to run the handlers against -----

fn open_test_db() -> Connection {
    let conn = Connection::open_in_memory().unwrap();
    conn.execute_batch(
        "create table players (nickname text primary key, email text not null, \
         password_hash text not null, has_avatar integer not null, rating integer);
         create table sessions (hash text primary key, address text, agent text, \
         player text, is_active integer);",
    )
    .unwrap();
    conn
}

fn run(conn: &Connection, request: DbRequest) -> DbReply {
    let params: Vec<rusqlite::types::Value> = request
        .params()
        .into_iter()
        .map(|v| match v {
            SqlValue::Text(s) => rusqlite::types::Value::Text(s),
            SqlValue::Bool(b) => rusqlite::types::Value::Integer(b as i64),
        })
        .collect();
    let params = rusqlite::params_from_iter(params);
    let sql = request.sql();
    match request.shape() {
        ReplyShape::Text => conn
            .query_row(sql, params, |row| row.get::<usize, String>(0))
            .map(DbReply::Text)
            .unwrap_or(DbReply::Failed),
        ReplyShape::Flag => conn
            .query_row(sql, params, |row| row.get::<usize, bool>(0))
            .map(DbReply::Flag)
            .unwrap_or(DbReply::Failed),
        ReplyShape::PlayerRow => conn
            .query_row(sql, params, |row| {
                Ok(DbReply::PlayerRow {
                    nickname: row.get::<usize, String>(0)?,
                    email: row.get::<usize, String>(1)?,
                    has_avatar: row.get::<usize, bool>(2)?,
                    rating: row.get::<usize, u32>(3).ok(),
                })
            })
            .unwrap_or(DbReply::Failed),
        ReplyShape::Executed => conn
            .execute(sql, params)
            .map(|_| DbReply::Executed)
            .unwrap_or(DbReply::Failed),
    }
}

fn drive<F>(conn: &Connection, start: (F, Step), next: impl Fn(F, DbReply) -> (F, Step)) -> Outcome {
    let (mut flow, mut step) = start;
    loop {
        match step {
            Step::Query(request) => {
                let reply = run(conn, request);
                let (f, s) = next(flow, reply);
                flow = f;
                step = s;
            }
            Step::Finish(outcome) => return outcome,
        }
    }
}

fn request(method: Method, path: &str) -> ApiRequest {
    ApiRequest {
        method,
        path: path.to_string(),
        www_authenticate: HeaderField::Absent,
        authorization: HeaderField::Absent,
        user_agent: HeaderField::Absent,
        content_length: None,
        content_type: HeaderField::Absent,
        session_cookie: SessionCookie::NoCookieHeader,
    }
}

fn json_request(method: Method, path: &str, length: u64) -> ApiRequest {
    let mut r = request(method, path);
    r.content_length = Some(length);
    r.content_type = HeaderField::Text("application/json".to_string());
    r
}

fn cookie_of(outcome: &Outcome) -> (u16, String) {
    match outcome {
        Outcome::Reply(Response::SessionCookie { status, cookie }) => (*status, cookie.clone()),
        _ => panic!("expected a session cookie"),
    }
}

fn text_of(outcome: &Outcome) -> (u16, String) {
    match outcome {
        Outcome::Reply(Response::Text { status, body }) => (*status, body.clone()),
        _ => panic!("expected a text answer"),
    }
}

fn hash_from_cookie(cookie: &str) -> String {
    cookie.strip_prefix("session=").unwrap().strip_suffix("; path=/").unwrap().to_string()
}

fn register(conn: &Connection, player: Player) -> Outcome {
    drive(
        conn,
        player_register(Some("127.0.0.1:4000".to_string()), "tests".to_string(), player),
        player_register_next,
    )
}

fn player(nickname: &str, password_hash: &str) -> Player {
    Player {
        nickname: nickname.to_string(),
        email: format!("{nickname}@gmail.com"),
        password_hash: password_hash.to_string(),
        has_avatar: false,
        rating: None,
    }
}

// ----- the original's scenarios -----

#[test]
fn test_player_register() {
    let conn = open_test_db();
    let names: [&str; 6] = ["daniel", "nikita", "ivan", "denis", "serega", "misha"];
    for name in names {
        let mut hasher = DefaultHasher::new();
        name.hash(&mut hasher);
        let form = Player {
            nickname: String::from(name),
            email: format!("{name}@gmail.com"),
            password_hash: hasher.finish().to_string(),
            has_avatar: false,
            rating: None,
        };
        let routed = api(&json_request(Method::Post, "/api/player/register", 128));
        let agent = match routed {
            Routed::Matched { endpoint: Endpoint::Register { agent }, .. } => agent,
            _ => panic!("register route did not match"),
        };
        // The test requests carry no remote address.
        let outcome = drive(&conn, player_register(None, agent, form), player_register_next);
        assert_eq!(cookie_of(&outcome).0, 201);
    }
}

#[test]
fn test_clear_players() {
    // The table holds the players that earlier runs left in it.
    let conn = open_test_db();
    for name in ["daniel", "nikita", "ivan", "denis", "serega", "misha"] {
        conn.execute(
            "insert into players (nickname, email, password_hash, has_avatar) values (?1, ?2, ?3, ?4)",
            (name, format!("{name}@gmail.com"), name, false),
        )
        .unwrap();
    }
    let mut players_nicknames: Vec<String> = Vec::new();
    {
        let mut statement = conn.prepare("select nickname from players").unwrap();
        let rows = statement.query_map([], |row| row.get(0)).unwrap();
        for nickname in rows {
            players_nicknames.push(nickname.unwrap());
        }
    }
    assert_eq!(players_nicknames.len(), 6);
    for nickname in &players_nicknames {
        let routed = api(&request(Method::Delete, &format!("/api/player/{nickname}/delete")));
        let nickname = match routed {
            Routed::Matched { endpoint: Endpoint::PlayerDelete { nickname }, .. } => nickname,
            _ => panic!("delete route did not match"),
        };
        let outcome = drive(&conn, player_delete(nickname), player_delete_next);
        assert_eq!(text_of(&outcome), (200, "DELETED".to_string()));
    }
    let left: i64 = conn.query_row("select count(*) from players", [], |r| r.get(0)).unwrap();
    assert_eq!(left, 0);
}

// ----- paths -----

fn segs(path: &str) -> Vec<String> {
    segments(path).into_iter().map(|s| s.into_iter().collect()).collect()
}

#[test]
fn segments_follow_the_path() {
    assert_eq!(segs("/api/player/bob"), vec!["api", "player", "bob"]);
    assert_eq!(segs("/api/player/bob/"), vec!["api", "player", "bob"]);
    assert_eq!(segs("/"), Vec::<String>::new());
    assert_eq!(segs(""), Vec::<String>::new());
    assert_eq!(segs("//"), vec![""]);
    assert_eq!(segs("/a//b"), vec!["a", "", "b"]);
    assert_eq!(segs("/a//"), vec!["a", ""]);
    assert_eq!(segs("a/b"), vec!["a", "b"]);
}

// ----- routing -----

#[test]
fn info_route_takes_the_nickname() {
    match api(&request(Method::Get, "/api/player/bob")) {
        Routed::Matched { endpoint: Endpoint::PlayerInfo { nickname }, fallback } => {
            assert_eq!(nickname, "bob");
            assert_eq!(fallback, Rejection::MethodNotAllowed);
        }
        _ => panic!("info route did not match"),
    }
    match api(&request(Method::Get, "/api/player/bob/")) {
        Routed::Matched { endpoint: Endpoint::PlayerInfo { nickname }, .. } => {
            assert_eq!(nickname, "bob")
        }
        _ => panic!("info route did not match a trailing slash"),
    }
}

#[test]
fn reserved_nickname_falls_back_to_method_not_allowed() {
    match api(&request(Method::Get, "/api/player/register")) {
        Routed::Matched { endpoint: Endpoint::PlayerInfo { nickname }, fallback } => {
            assert_eq!(nickname, "register");
            assert_eq!(fallback, Rejection::MethodNotAllowed);
            assert_eq!(fallback.status(), 405);
        }
        _ => panic!("info route did not match"),
    }
}

#[test]
fn outside_api_is_not_found() {
    assert_eq!(api(&request(Method::Get, "/pages/home.html")), Routed::Rejected(Rejection::NotFound));
    assert_eq!(api(&request(Method::Get, "/")), Routed::Rejected(Rejection::NotFound));
    assert_eq!(api(&request(Method::Get, "/api//player/bob")), Routed::Rejected(Rejection::NotFound));
}

#[test]
fn wrong_method_is_method_not_allowed() {
    let r = api(&request(Method::Put, "/api/player/bob/update"));
    assert_eq!(r, Routed::Rejected(Rejection::MethodNotAllowed));
    assert_eq!(Rejection::MethodNotAllowed.status(), 405);
    // The delete route checks the method before its last segment.
    let r = api(&request(Method::Get, "/api/player/bob/whatever"));
    assert_eq!(r, Routed::Rejected(Rejection::MethodNotAllowed));
    let r = api(&request(Method::Delete, "/api/player/bob/whatever"));
    assert_eq!(r, Routed::Rejected(Rejection::NotFound));
}

#[test]
fn register_route_checks_the_body() {
    let mut r = request(Method::Post, "/api/player/register");
    assert_eq!(api(&r), Routed::Rejected(Rejection::LengthRequired));
    r.content_length = Some(JSON_BODY_LIMIT + 1);
    assert_eq!(api(&r), Routed::Rejected(Rejection::PayloadTooLarge));
    assert_eq!(Rejection::PayloadTooLarge.status(), 413);
    r.content_length = Some(JSON_BODY_LIMIT);
    match api(&r) {
        Routed::Matched { endpoint: Endpoint::Register { agent }, fallback } => {
            assert_eq!(agent, "");
            assert_eq!(fallback, Rejection::MethodNotAllowed);
        }
        _ => panic!("register route did not match"),
    }
    r.content_type = HeaderField::Text("text/plain".to_string());
    assert_eq!(api(&r), Routed::Rejected(Rejection::UnsupportedMediaType));
    r.content_type = HeaderField::Text("Application/JSON; charset=utf-8".to_string());
    r.user_agent = HeaderField::Text("curl/8".to_string());
    match api(&r) {
        Routed::Matched { endpoint: Endpoint::Register { agent }, .. } => assert_eq!(agent, "curl/8"),
        _ => panic!("register route did not match"),
    }
}

#[test]
fn json_content_types() {
    assert!(is_json_content_type(&HeaderField::Absent));
    assert!(is_json_content_type(&HeaderField::Text("application/json".to_string())));
    assert!(is_json_content_type(&HeaderField::Text("application/json; charset=utf-8".to_string())));
    assert!(!is_json_content_type(&HeaderField::Text("text/json".to_string())));
    assert!(!is_json_content_type(&HeaderField::Text("application/xml".to_string())));
    assert!(!is_json_content_type(&HeaderField::Text("json".to_string())));
    assert!(!is_json_content_type(&HeaderField::Opaque));
}

#[test]
fn update_route_needs_the_session_cookie() {
    let mut r = json_request(Method::Patch, "/api/player/bob/update", 64);
    assert_eq!(api(&r), Routed::Rejected(Rejection::InvalidHeader(HeaderName::Cookie)));
    r.session_cookie = SessionCookie::Missing;
    assert_eq!(api(&r), Routed::Rejected(Rejection::MissingCookie));
    r.session_cookie = SessionCookie::Value("abc".to_string());
    match api(&r) {
        Routed::Matched { endpoint: Endpoint::PlayerUpdate { nickname, session_hash }, fallback } => {
            assert_eq!(nickname, "bob");
            assert_eq!(session_hash, "abc");
            assert_eq!(fallback, Rejection::MethodNotAllowed);
        }
        _ => panic!("update route did not match"),
    }
    r.content_length = None;
    assert_eq!(api(&r), Routed::Rejected(Rejection::LengthRequired));
}

#[test]
fn login_route_needs_its_headers() {
    let mut r = request(Method::Get, "/api/login");
    assert_eq!(api(&r), Routed::Rejected(Rejection::MissingHeader(HeaderName::WwwAuthenticate)));
    r.www_authenticate = HeaderField::Text("Bearer".to_string());
    assert_eq!(api(&r), Routed::Rejected(Rejection::InvalidHeader(HeaderName::WwwAuthenticate)));
    r.www_authenticate = HeaderField::Text("Basic".to_string());
    assert_eq!(api(&r), Routed::Rejected(Rejection::MissingHeader(HeaderName::Authorization)));
    r.authorization = HeaderField::Opaque;
    assert_eq!(api(&r), Routed::Rejected(Rejection::InvalidHeader(HeaderName::Authorization)));
    r.authorization = HeaderField::Text("12345".to_string());
    match api(&r) {
        Routed::Matched { endpoint: Endpoint::Login { authorization, agent }, fallback } => {
            assert_eq!(authorization, "12345");
            assert_eq!(agent, "");
            assert_eq!(fallback, Rejection::NotFound);
        }
        _ => panic!("login route did not match"),
    }
    assert_eq!(api(&request(Method::Post, "/api/login")), Routed::Rejected(Rejection::MethodNotAllowed));
}

#[test]
fn rejections_combine_by_priority() {
    assert_eq!(combine(Rejection::NotFound, Rejection::MethodNotAllowed), Rejection::MethodNotAllowed);
    assert_eq!(combine(Rejection::MethodNotAllowed, Rejection::NotFound), Rejection::MethodNotAllowed);
    assert_eq!(combine(Rejection::MethodNotAllowed, Rejection::LengthRequired), Rejection::LengthRequired);
    assert_eq!(combine(Rejection::PayloadTooLarge, Rejection::MissingCookie), Rejection::PayloadTooLarge);
    assert_eq!(combine(Rejection::MissingCookie, Rejection::PayloadTooLarge), Rejection::PayloadTooLarge);
    assert_eq!(combine(Rejection::MissingCookie, Rejection::BodyDeserialize), Rejection::MissingCookie);
    assert_eq!(combine(Rejection::BodyDeserialize, Rejection::MethodNotAllowed), Rejection::BodyDeserialize);
    assert_eq!(combine(Rejection::NotFound, Rejection::NotFound), Rejection::NotFound);
}

#[test]
fn rejection_messages() {
    assert_eq!(Rejection::NotFound.message(), "");
    assert_eq!(Rejection::MethodNotAllowed.message(), "HTTP method not allowed");
    assert_eq!(
        Rejection::MissingHeader(HeaderName::Authorization).message(),
        "Missing request header \"Authorization\""
    );
    assert_eq!(Rejection::MissingCookie.message(), "Missing request cookie \"session\"");
    assert_eq!(Rejection::UnsupportedMediaType.status(), 415);
    assert_eq!(Rejection::LengthRequired.status(), 411);
}

// ----- models -----

#[test]
fn reserved_nicknames() {
    for n in RESERVED_NICKNAMES {
        assert!(is_reserved_nickname(n));
    }
    assert!(!is_reserved_nickname("bob"));
    assert!(!is_reserved_nickname("Register"));
    assert!(!is_reserved_nickname("logi"));
    assert!(!is_reserved_nickname(""));
}

// ----- sessions -----

#[test]
fn session_hashes_are_sixteen_alphanumerics() {
    for _ in 0..50 {
        let h = generate_hash();
        assert_eq!(h.chars().count(), SESSION_HASH_LEN);
        assert!(h.chars().all(|c| c.is_ascii_alphanumeric()));
    }
}

#[test]
fn session_cookie_text() {
    assert_eq!(set_session_cookie("abc"), "session=abc; path=/");
    let (hash, request) = create_new_session_for_player("bob".to_string(), "1.2.3.4:5".to_string(), "agent".to_string());
    assert_eq!(hash.len(), 16);
    match request {
        DbRequest::InsertSession { session_hash, address, agent, player } => {
            assert_eq!(session_hash, hash);
            assert_eq!(address, "1.2.3.4:5");
            assert_eq!(agent, "agent");
            assert_eq!(player, "bob");
        }
        _ => panic!("expected a session insert"),
    }
}

// ----- statements -----

#[test]
fn statements_carry_their_parameters() {
    let r = DbRequest::DeactivateSession { session_hash: "h".to_string() };
    assert_eq!(r.sql(), "update sessions set is_active=?1 where hash = ?2;");
    assert_eq!(r.params(), vec![SqlValue::Bool(false), SqlValue::Text("h".to_string())]);
    assert_eq!(r.shape(), ReplyShape::Executed);
    let r = DbRequest::UpdatePlayerField {
        field: PlayerField::PasswordHash,
        value: "x".to_string(),
        nickname: "bob".to_string(),
    };
    assert_eq!(r.sql(), "update players set password_hash=?1 where nickname=?2");
    assert_eq!(r.params(), vec![SqlValue::Text("x".to_string()), SqlValue::Text("bob".to_string())]);
    let r = DbRequest::PlayerInfo { nickname: "bob".to_string() };
    assert_eq!(r.shape(), ReplyShape::PlayerRow);
    assert_eq!(r.sql(), "select nickname, email, has_avatar, rating from players where nickname = ?1;");
}

// ----- handlers, step by step -----

#[test]
fn login_steps() {
    let (flow, step) = player_login(Some("1.1.1.1:1".to_string()), "ua".to_string(), "pw".to_string());
    match step {
        Step::Query(DbRequest::NicknameByPasswordHash { password_hash }) => assert_eq!(password_hash, "pw"),
        _ => panic!("expected a lookup"),
    }
    let (flow, step) = player_login_next(flow, DbReply::Text("bob".to_string()));
    let hash = match step {
        Step::Query(DbRequest::InsertSession { session_hash, address, agent, player }) => {
            assert_eq!(address, "1.1.1.1:1");
            assert_eq!(agent, "ua");
            assert_eq!(player, "bob");
            session_hash
        }
        _ => panic!("expected a session insert"),
    };
    let (_, step) = player_login_next(flow, DbReply::Executed);
    match step {
        Step::Finish(outcome) => assert_eq!(cookie_of(&outcome), (200, format!("session={hash}; path=/"))),
        _ => panic!("expected an answer"),
    }
}

#[test]
fn login_failures() {
    let (flow, _) = player_login(Some("a".to_string()), String::new(), "pw".to_string());
    let (_, step) = player_login_next(flow, DbReply::Failed);
    assert!(matches!(step, Step::Finish(Outcome::Reject)));
    // Without a known remote address the session records the empty text.
    let (flow, _) = player_login(None, String::new(), "pw".to_string());
    let (_, step) = player_login_next(flow, DbReply::Text("bob".to_string()));
    match step {
        Step::Query(DbRequest::InsertSession { address, player, .. }) => {
            assert_eq!(address, "");
            assert_eq!(player, "bob");
        }
        _ => panic!("expected a session insert"),
    }
    let (flow, _) = player_login(Some("a".to_string()), String::new(), "pw".to_string());
    let (flow, _) = player_login_next(flow, DbReply::Text("bob".to_string()));
    let (_, step) = player_login_next(flow, DbReply::Failed);
    assert!(matches!(step, Step::Finish(Outcome::Reject)));
}

#[test]
fn info_masks_the_password_hash() {
    let (flow, step) = player_info("bob".to_string());
    assert!(matches!(step, Step::Query(DbRequest::PlayerInfo { .. })));
    let row = DbReply::PlayerRow {
        nickname: "bob".to_string(),
        email: "bob@x".to_string(),
        has_avatar: true,
        rating: Some(7),
    };
    match player_info_next(flow, row) {
        (_, Step::Finish(Outcome::Reply(Response::PlayerJson(p)))) => {
            assert_eq!(p.nickname, "bob");
            assert_eq!(p.email, "bob@x");
            assert_eq!(p.password_hash, "---");
            assert!(p.has_avatar);
            assert_eq!(p.rating, Some(7));
        }
        _ => panic!("expected the player"),
    }
    for reserved in ["register", "login", "whoami"] {
        let (_, step) = player_info(reserved.to_string());
        assert!(matches!(step, Step::Finish(Outcome::Reject)));
    }
}

#[test]
fn update_only_by_the_owner() {
    let form = PlayerUpdateForm {
        email: Some("new@x".to_string()),
        password_hash: Some("h2".to_string()),
        has_avatar: false,
    };
    let (flow, step) = player_update("bob".to_string(), "s1".to_string(), form);
    match step {
        Step::Query(DbRequest::SessionOwner { session_hash }) => assert_eq!(session_hash, "s1"),
        _ => panic!("expected an owner lookup"),
    }
    let (_, step) = player_update_next(flow, DbReply::Text("eve".to_string()));
    assert!(matches!(step, Step::Finish(Outcome::Reject)));

    let form = PlayerUpdateForm {
        email: Some("new@x".to_string()),
        password_hash: Some("h2".to_string()),
        has_avatar: false,
    };
    let (flow, _) = player_update("bob".to_string(), "s1".to_string(), form);
    let (flow, step) = player_update_next(flow, DbReply::Text("bob".to_string()));
    match step {
        Step::Query(DbRequest::UpdatePlayerField { field, value, nickname }) => {
            assert_eq!(field, PlayerField::Email);
            assert_eq!(value, "new@x");
            assert_eq!(nickname, "bob");
        }
        _ => panic!("expected the email write"),
    }
    let (flow, step) = player_update_next(flow, DbReply::Executed);
    match step {
        Step::Query(DbRequest::UpdatePlayerField { field, value, nickname }) => {
            assert_eq!(field, PlayerField::PasswordHash);
            assert_eq!(value, "h2");
            assert_eq!(nickname, "bob");
        }
        _ => panic!("expected the password write"),
    }
    let (_, step) = player_update_next(flow, DbReply::Executed);
    match step {
        Step::Finish(o) => assert_eq!(text_of(&o), (200, "UPDATED".to_string())),
        _ => panic!("expected the answer"),
    }
}

#[test]
fn update_write_failure_and_empty_form() {
    let form = PlayerUpdateForm { email: None, password_hash: Some("h".to_string()), has_avatar: true };
    let (flow, _) = player_update("bob".to_string(), "s".to_string(), form);
    let (flow, step) = player_update_next(flow, DbReply::Text("bob".to_string()));
    assert!(matches!(
        step,
        Step::Query(DbRequest::UpdatePlayerField { field: PlayerField::PasswordHash, .. })
    ));
    let (_, step) = player_update_next(flow, DbReply::Failed);
    match step {
        Step::Finish(o) => assert_eq!(text_of(&o), (500, "ERROR_WITH_DB".to_string())),
        _ => panic!("expected the error"),
    }
    let form = PlayerUpdateForm { email: None, password_hash: None, has_avatar: true };
    let (flow, _) = player_update("bob".to_string(), "s".to_string(), form);
    let (_, step) = player_update_next(flow, DbReply::Text("bob".to_string()));
    match step {
        Step::Finish(o) => assert_eq!(text_of(&o), (200, "UPDATED".to_string())),
        _ => panic!("expected the answer"),
    }
}

#[test]
fn delete_failure_is_a_server_error() {
    let (flow, _) = player_delete("bob".to_string());
    let (_, step) = player_delete_next(flow, DbReply::Failed);
    match step {
        Step::Finish(o) => assert_eq!(text_of(&o), (500, "ERROR_WITH_DB".to_string())),
        _ => panic!("expected the error"),
    }
}

#[test]
fn logout_expires_the_cookie() {
    let (flow, step) = player_logout("s".to_string());
    assert!(matches!(step, Step::Query(DbRequest::DeactivateSession { .. })));
    let (_, step) = player_logout_next(flow, DbReply::Executed);
    match step {
        Step::Finish(o) => assert_eq!(
            cookie_of(&o),
            (201, "session=deleted; path=/; expires=Thu, 01 Jan 1970 00:00:00 GMT".to_string())
        ),
        _ => panic!("expected the answer"),
    }
    let (flow, _) = player_logout("s".to_string());
    let (_, step) = player_logout_next(flow, DbReply::Failed);
    assert!(matches!(step, Step::Finish(Outcome::Reject)));
}

#[test]
fn recover_reports_the_rejection() {
    match recover("Rejection(NotFound)") {
        Response::Text { status, body } => {
            assert_eq!(status, 500);
            assert_eq!(body, "some error :( info-Rejection(NotFound)");
        }
        _ => panic!("expected text"),
    }
}

// ----- handlers against a database -----

#[test]
fn register_login_whoami_update_logout() {
    let conn = open_test_db();
    let outcome = register(&conn, player("bob", "hash-1"));
    let (status, cookie) = cookie_of(&outcome);
    assert_eq!(status, 201);
    let first = hash_from_cookie(&cookie);
    assert_eq!(first.len(), 16);
    let (owner, active, address): (String, bool, String) = conn
        .query_row("select player, is_active, address from sessions where hash = ?1", [&first], |r| {
            Ok((r.get(0)?, r.get(1)?, r.get(2)?))
        })
        .unwrap();
    assert_eq!(owner, "bob");
    assert!(active);
    assert_eq!(address, "127.0.0.1:4000");

    // The same nickname cannot register twice.
    let again = register(&conn, player("bob", "hash-2"));
    assert!(matches!(again, Outcome::Reject));

    let outcome = drive(
        &conn,
        player_login(Some("10.0.0.1:80".to_string()), "ua".to_string(), "hash-1".to_string()),
        player_login_next,
    );
    let (status, cookie) = cookie_of(&outcome);
    assert_eq!(status, 200);
    let session = hash_from_cookie(&cookie);
    let (owner, active): (String, bool) = conn
        .query_row("select player, is_active from sessions where hash = ?1", [&session], |r| {
            Ok((r.get(0)?, r.get(1)?))
        })
        .unwrap();
    assert_eq!(owner, "bob");
    assert!(active);

    let wrong = drive(
        &conn,
        player_login(Some("10.0.0.1:80".to_string()), "ua".to_string(), "nope".to_string()),
        player_login_next,
    );
    assert!(matches!(wrong, Outcome::Reject));

    match drive(&conn, player_whoami(session.clone()), player_whoami_next) {
        Outcome::Reply(Response::WhoAmI(w)) => {
            assert_eq!(w.nickname, "bob");
            assert!(!w.has_avatar);
        }
        _ => panic!("expected whoami"),
    }

    let form = PlayerUpdateForm { email: Some("bob@new".to_string()), password_hash: None, has_avatar: false };
    let outcome = drive(&conn, player_update("bob".to_string(), session.clone(), form), player_update_next);
    assert_eq!(text_of(&outcome), (200, "UPDATED".to_string()));
    match drive(&conn, player_info("bob".to_string()), player_info_next) {
        Outcome::Reply(Response::PlayerJson(p)) => {
            assert_eq!(p.email, "bob@new");
            assert_eq!(p.password_hash, "---");
            assert_eq!(p.rating, None);
        }
        _ => panic!("expected the player"),
    }

    // Someone else's session cannot change bob's profile.
    assert_eq!(cookie_of(&register(&conn, player("eve", "hash-e"))).0, 201);
    let eve_session = {
        let outcome = drive(
            &conn,
            player_login(Some("10.0.0.2:80".to_string()), "ua".to_string(), "hash-e".to_string()),
            player_login_next,
        );
        hash_from_cookie(&cookie_of(&outcome).1)
    };
    let form = PlayerUpdateForm { email: Some("evil@x".to_string()), password_hash: None, has_avatar: false };
    let outcome = drive(&conn, player_update("bob".to_string(), eve_session, form), player_update_next);
    assert!(matches!(outcome, Outcome::Reject));
    let email: String = conn.query_row("select email from players where nickname = 'bob'", [], |r| r.get(0)).unwrap();
    assert_eq!(email, "bob@new");

    let outcome = drive(&conn, player_logout(session.clone()), player_logout_next);
    assert_eq!(cookie_of(&outcome).0, 201);
    let active: bool = conn
        .query_row("select is_active from sessions where hash = ?1", [&session], |r| r.get(0))
        .unwrap();
    assert!(!active);

    assert!(matches!(drive(&conn, player_info("nobody".to_string()), player_info_next), Outcome::Reject));
}

#[test]
fn session_insert_reply() {
    assert_eq!(
        create_new_session_for_player_next("h1".to_string(), DbReply::Executed),
        Ok("h1".to_string())
    );
    assert_eq!(
        create_new_session_for_player_next("h1".to_string(), DbReply::Failed),
        Err(Rejection::NotFound)
    );
    assert_eq!(
        create_new_session_for_player_next("h1".to_string(), DbReply::Text("x".to_string())),
        Err(Rejection::NotFound)
    );
    assert_eq!(address_to_record(None), "");
    assert_eq!(address_to_record(Some("1.2.3.4:5".to_string())), "1.2.3.4:5");
}

#[test]
fn json_media_types() {
    assert!(is_json_media_type(&Some(("application".to_string(), "json".to_string()))));
    assert!(!is_json_media_type(&Some(("application".to_string(), "xml".to_string()))));
    assert!(!is_json_media_type(&Some(("text".to_string(), "json".to_string()))));
    assert!(!is_json_media_type(&None));
}

#[test]
fn register_without_address_then_whoami() {
    let conn = open_test_db();
    let outcome = drive(&conn, player_register(None, String::new(), player("ann", "h-ann")), player_register_next);
    let (status, cookie) = cookie_of(&outcome);
    assert_eq!(status, 201);
    let session = hash_from_cookie(&cookie);
    let address: String = conn
        .query_row("select address from sessions where hash = ?1", [&session], |r| r.get(0))
        .unwrap();
    assert_eq!(address, "");
    match drive(&conn, player_whoami(session), player_whoami_next) {
        Outcome::Reply(Response::WhoAmI(w)) => assert_eq!(w.nickname, "ann"),
        _ => panic!("expected whoami"),
    }
}

#[test]
fn logout_twice_and_update_twice() {
    let conn = open_test_db();
    let session = hash_from_cookie(&cookie_of(&register(&conn, player("kim", "h-kim"))).1);
    for _ in 0..2 {
        let outcome = drive(&conn, player_logout(session.clone()), player_logout_next);
        assert_eq!(cookie_of(&outcome).0, 201);
        let active: bool = conn
            .query_row("select is_active from sessions where hash = ?1", [&session], |r| r.get(0))
            .unwrap();
        assert!(!active);
    }
    for _ in 0..2 {
        let form = PlayerUpdateForm { email: Some("kim@new".to_string()), password_hash: None, has_avatar: false };
        let outcome = drive(&conn, player_update("kim".to_string(), session.clone(), form), player_update_next);
        assert_eq!(text_of(&outcome), (200, "UPDATED".to_string()));
        let email: String = conn.query_row("select email from players where nickname = 'kim'", [], |r| r.get(0)).unwrap();
        assert_eq!(email, "kim@new");
    }
}
