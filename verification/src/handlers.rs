use vstd::prelude::*;
use rand::distributions::{Alphanumeric, DistString};
use crate::filters::Rejection;
use crate::db::{DbReply, DbReplyView, DbRequest, DbRequestView, PlayerField};
use crate::models::{
    is_reserved, is_reserved_nickname, Player, PlayerUpdateForm, PlayerUpdateFormView,
    PlayerView, WhoAmIJSON, WhoAmIView,
};

verus! {

/// Whether `c` is an ASCII letter or digit.
pub open spec fn is_alphanumeric(c: char) -> bool {
    ||| ('A' <= c && c <= 'Z')
    ||| ('a' <= c && c <= 'z')
    ||| ('0' <= c && c <= '9')
}

/// The number of characters in a session hash.
pub const SESSION_HASH_LEN: usize = 16;

/// Whether `h` has the form of a session hash: sixteen ASCII letters and digits.
pub open spec fn is_session_hash(h: Seq<char>) -> bool {
    &&& h.len() == SESSION_HASH_LEN
    &&& forall|i: int| 0 <= i < h.len() ==> is_alphanumeric(#[trigger] h[i])
}

/// `Alphanumeric.sample_string(&mut rand::thread_rng(), len)` from rand: a
/// string of exactly `len` characters, each drawn from `A`-`Z`, `a`-`z` and
/// `0`-`9`. Which characters come out is up to the thread's random number
/// generator and is not stated.
#[verifier::external_body]
fn sample_alphanumeric(len: usize) -> (s: String)
    ensures
        s@.len() == len,
        forall|i: int| 0 <= i < len ==> is_alphanumeric(#[trigger] s@[i]),
{
    Alphanumeric.sample_string(&mut rand::thread_rng(), len)
}

/// A fresh random session hash.
pub fn generate_hash() -> (h: String)
    ensures
        is_session_hash(h@),
{
    sample_alphanumeric(SESSION_HASH_LEN)
}

/// The value of the `set-cookie` header that opens the session `hash`.
pub open spec fn session_cookie(hash: Seq<char>) -> Seq<char> {
    "session="@ + hash + "; path=/"@
}

/// The value of the `set-cookie` header that ends a session in the browser.
pub open spec fn expired_session_cookie() -> Seq<char> {
    "session=deleted; path=/; expires=Thu, 01 Jan 1970 00:00:00 GMT"@
}

/// The `set-cookie` value that opens the session `hash`.
pub fn set_session_cookie(hash: &str) -> (c: String)
    ensures
        c@ == session_cookie(hash@),
{
    "session=".to_owned().concat(hash).concat("; path=/")
}

/// What a handler answers.
#[derive(Debug)]
pub enum Response {
    /// An empty body with the status and a `set-cookie` header.
    SessionCookie { status: u16, cookie: String },
    /// The player as JSON, status 200.
    PlayerJson(Player),
    /// The `whoami` answer as JSON, status 200.
    WhoAmI(WhoAmIJSON),
    /// A plain-text body with the status.
    Text { status: u16, body: String },
}

pub enum ResponseView {
    SessionCookie { status: u16, cookie: Seq<char> },
    PlayerJson(PlayerView),
    WhoAmI(WhoAmIView),
    Text { status: u16, body: Seq<char> },
}

impl View for Response {
    type V = ResponseView;

    open spec fn view(&self) -> ResponseView {
        match self {
            Response::SessionCookie { status, cookie } => ResponseView::SessionCookie {
                status: *status,
                cookie: cookie@,
            },
            Response::PlayerJson(p) => ResponseView::PlayerJson(p@),
            Response::WhoAmI(w) => ResponseView::WhoAmI(w@),
            Response::Text { status, body } => ResponseView::Text { status: *status, body: body@ },
        }
    }
}

/// How a handler ends.
#[derive(Debug)]
pub enum Outcome {
    /// It answers.
    Reply(Response),
    /// It turns the request away ("not found"), so that other routes may take it.
    Reject,
}

pub enum OutcomeView {
    Reply(ResponseView),
    Reject,
}

impl View for Outcome {
    type V = OutcomeView;

    open spec fn view(&self) -> OutcomeView {
        match self {
            Outcome::Reply(r) => OutcomeView::Reply(r@),
            Outcome::Reject => OutcomeView::Reject,
        }
    }
}

/// What a handler does next: run a statement and come back with its reply, or end.
#[derive(Debug)]
pub enum Step {
    Query(DbRequest),
    Finish(Outcome),
}

pub enum StepView {
    Query(DbRequestView),
    Finish(OutcomeView),
}

impl View for Step {
    type V = StepView;

    open spec fn view(&self) -> StepView {
        match self {
            Step::Query(q) => StepView::Query(q@),
            Step::Finish(o) => StepView::Finish(o@),
        }
    }
}

pub open spec fn spec_reject() -> StepView {
    StepView::Finish(OutcomeView::Reject)
}

pub open spec fn spec_reply(r: ResponseView) -> StepView {
    StepView::Finish(OutcomeView::Reply(r))
}

pub open spec fn spec_text(status: u16, body: Seq<char>) -> StepView {
    spec_reply(ResponseView::Text { status, body })
}

fn reject() -> (s: Step)
    ensures
        s@ == spec_reject(),
{
    Step::Finish(Outcome::Reject)
}

fn text(status: u16, body: &str) -> (s: Step)
    ensures
        s@ == spec_text(status, body@),
{
    Step::Finish(Outcome::Reply(Response::Text { status, body: body.to_owned() }))
}

/// What `create_new_session_for_player` asks of the database: record the
/// active session `session_hash` of `player`.
pub open spec fn spec_insert_session(
    session_hash: Seq<char>,
    address: Seq<char>,
    agent: Seq<char>,
    player: Seq<char>,
) -> DbRequestView {
    DbRequestView::InsertSession { session_hash, address, agent, player }
}

/// Draws a session hash for `nickname` and the statement that records it as
/// an active session opened from `address` with `agent`.
pub fn create_new_session_for_player(nickname: String, address: String, agent: String) -> (r: (
    String,
    DbRequest,
))
    ensures
        is_session_hash(r.0@),
        r.1@ == spec_insert_session(r.0@, address@, agent@, nickname@),
{
    let session_hash = generate_hash();
    let request = DbRequest::InsertSession {
        session_hash: session_hash.clone(),
        address,
        agent,
        player: nickname,
    };
    (session_hash, request)
}

/// The remote address that a session records: the connection's, or the
/// empty text where it is unknown.
pub open spec fn recorded_address(address: Option<Seq<char>>) -> Seq<char> {
    match address {
        Some(a) => a,
        None => Seq::empty(),
    }
}

/// The remote address that a session records.
pub fn address_to_record(address: Option<String>) -> (a: String)
    ensures
        a@ == recorded_address(address.deep_view()),
{
    match address {
        Some(a) => a,
        None => String::new(),
    }
}

/// Once the player is known: a session with the drawn hash `fresh` for it.
pub open spec fn spec_open_session(
    address: Option<Seq<char>>,
    agent: Seq<char>,
    nickname: Seq<char>,
    fresh: Seq<char>,
) -> StepView {
    StepView::Query(spec_insert_session(fresh, recorded_address(address), agent, nickname))
}

/// What the reply to the session insert means: the session's hash when it
/// was recorded, and otherwise a rejection.
pub open spec fn spec_session_recorded(session_hash: Seq<char>, reply: DbReplyView) -> Result<
    Seq<char>,
    Rejection,
> {
    match reply {
        DbReplyView::Executed => Ok(session_hash),
        _ => Err(Rejection::NotFound),
    }
}

/// Reads the reply to the session insert of `create_new_session_for_player`:
/// the session's hash when it was recorded, and otherwise a rejection.
pub fn create_new_session_for_player_next(session_hash: String, reply: DbReply) -> (r: Result<
    String,
    Rejection,
>)
    ensures
        match r {
            Ok(h) => spec_session_recorded(session_hash@, reply@) == Ok::<Seq<char>, Rejection>(h@),
            Err(e) => spec_session_recorded(session_hash@, reply@) == Err::<Seq<char>, Rejection>(e),
        },
{
    match reply {
        DbReply::Executed => Ok(session_hash),
        _ => Err(Rejection::NotFound),
    }
}

// ----- login -----

/// Where `player_login` stands.
pub enum LoginFlow {
    AwaitNickname { address: Option<String>, agent: String },
    AwaitSession { session_hash: String },
    Done,
}

pub enum LoginFlowView {
    AwaitNickname { address: Option<Seq<char>>, agent: Seq<char> },
    AwaitSession { session_hash: Seq<char> },
    Done,
}

impl View for LoginFlow {
    type V = LoginFlowView;

    open spec fn view(&self) -> LoginFlowView {
        match self {
            LoginFlow::AwaitNickname { address, agent } => LoginFlowView::AwaitNickname {
                address: address.deep_view(),
                agent: agent@,
            },
            LoginFlow::AwaitSession { session_hash } => LoginFlowView::AwaitSession {
                session_hash: session_hash@,
            },
            LoginFlow::Done => LoginFlowView::Done,
        }
    }
}

/// Login looks up the player by the password hash that the request carries.
pub open spec fn spec_player_login(
    address: Option<Seq<char>>,
    agent: Seq<char>,
    auth: Seq<char>,
) -> (LoginFlowView, StepView) {
    (
        LoginFlowView::AwaitNickname { address, agent },
        StepView::Query(DbRequestView::NicknameByPasswordHash { password_hash: auth }),
    )
}

/// Login, on a reply: a found player gets a new session (hash `fresh`), and a
/// recorded session is answered with its cookie; anything else is turned away.
pub open spec fn spec_player_login_next(
    flow: LoginFlowView,
    reply: DbReplyView,
    fresh: Seq<char>,
) -> (LoginFlowView, StepView) {
    match flow {
        LoginFlowView::AwaitNickname { address, agent } => match reply {
            DbReplyView::Text(nickname) => (
                LoginFlowView::AwaitSession { session_hash: fresh },
                spec_open_session(address, agent, nickname, fresh),
            ),
            _ => (LoginFlowView::Done, spec_reject()),
        },
        LoginFlowView::AwaitSession { session_hash } => match reply {
            DbReplyView::Executed => (
                LoginFlowView::Done,
                spec_reply(
                    ResponseView::SessionCookie { status: 200, cookie: session_cookie(session_hash) },
                ),
            ),
            _ => (LoginFlowView::Done, spec_reject()),
        },
        LoginFlowView::Done => (LoginFlowView::Done, spec_reject()),
    }
}

/// The session hash that a login flow holds, if it holds one.
pub open spec fn login_hash(flow: LoginFlowView) -> Seq<char> {
    match flow {
        LoginFlowView::AwaitSession { session_hash } => session_hash,
        _ => Seq::empty(),
    }
}

/// Starts a login: `auth` is the password hash from the `Authorization`
/// header, `address` the remote address of the connection, `agent` its user agent.
pub fn player_login(address: Option<String>, agent: String, auth: String) -> (r: (LoginFlow, Step))
    ensures
        (r.0@, r.1@) == spec_player_login(address.deep_view(), agent@, auth@),
{
    (
        LoginFlow::AwaitNickname { address, agent },
        Step::Query(DbRequest::NicknameByPasswordHash { password_hash: auth }),
    )
}

/// Continues a login with the reply to its last statement.
pub fn player_login_next(flow: LoginFlow, reply: DbReply) -> (r: (LoginFlow, Step))
    ensures
        (r.0@, r.1@) == spec_player_login_next(flow@, reply@, login_hash(r.0@)),
        r.0@ is AwaitSession ==> is_session_hash(login_hash(r.0@)),
{
    match flow {
        LoginFlow::AwaitNickname { address, agent } => match reply {
            DbReply::Text(nickname) => {
                let (session_hash, request) = create_new_session_for_player(
                    nickname,
                    address_to_record(address),
                    agent,
                );
                (LoginFlow::AwaitSession { session_hash }, Step::Query(request))
            },
            _ => (LoginFlow::Done, reject()),
        },
        LoginFlow::AwaitSession { session_hash } => match create_new_session_for_player_next(
            session_hash,
            reply,
        ) {
            Ok(session_hash) => {
                let cookie = set_session_cookie(session_hash.as_str());
                (
                    LoginFlow::Done,
                    Step::Finish(Outcome::Reply(Response::SessionCookie { status: 200, cookie })),
                )
            },
            Err(_) => (LoginFlow::Done, reject()),
        },
        LoginFlow::Done => (LoginFlow::Done, reject()),
    }
}

// ----- register -----

/// Where `player_register` stands.
pub enum RegisterFlow {
    AwaitInsert { address: Option<String>, agent: String, nickname: String },
    AwaitSession { session_hash: String },
    Done,
}

pub enum RegisterFlowView {
    AwaitInsert { address: Option<Seq<char>>, agent: Seq<char>, nickname: Seq<char> },
    AwaitSession { session_hash: Seq<char> },
    Done,
}

impl View for RegisterFlow {
    type V = RegisterFlowView;

    open spec fn view(&self) -> RegisterFlowView {
        match self {
            RegisterFlow::AwaitInsert { address, agent, nickname } => RegisterFlowView::AwaitInsert {
                address: address.deep_view(),
                agent: agent@,
                nickname: nickname@,
            },
            RegisterFlow::AwaitSession { session_hash } => RegisterFlowView::AwaitSession {
                session_hash: session_hash@,
            },
            RegisterFlow::Done => RegisterFlowView::Done,
        }
    }
}

/// Registration records the new player; its rating is not stored.
pub open spec fn spec_player_register(
    address: Option<Seq<char>>,
    agent: Seq<char>,
    new_player: PlayerView,
) -> (RegisterFlowView, StepView) {
    (
        RegisterFlowView::AwaitInsert { address, agent, nickname: new_player.nickname },
        StepView::Query(
            DbRequestView::InsertPlayer {
                nickname: new_player.nickname,
                email: new_player.email,
                password_hash: new_player.password_hash,
                has_avatar: new_player.has_avatar,
            },
        ),
    )
}

/// Registration, on a reply: a recorded player gets a new session (hash
/// `fresh`), and a recorded session is answered "201 Created" with its cookie;
/// anything else is turned away.
pub open spec fn spec_player_register_next(
    flow: RegisterFlowView,
    reply: DbReplyView,
    fresh: Seq<char>,
) -> (RegisterFlowView, StepView) {
    match flow {
        RegisterFlowView::AwaitInsert { address, agent, nickname } => match reply {
            DbReplyView::Executed => (
                RegisterFlowView::AwaitSession { session_hash: fresh },
                spec_open_session(address, agent, nickname, fresh),
            ),
            _ => (RegisterFlowView::Done, spec_reject()),
        },
        RegisterFlowView::AwaitSession { session_hash } => match reply {
            DbReplyView::Executed => (
                RegisterFlowView::Done,
                spec_reply(
                    ResponseView::SessionCookie { status: 201, cookie: session_cookie(session_hash) },
                ),
            ),
            _ => (RegisterFlowView::Done, spec_reject()),
        },
        RegisterFlowView::Done => (RegisterFlowView::Done, spec_reject()),
    }
}

/// The session hash that a registration flow holds, if it holds one.
pub open spec fn register_hash(flow: RegisterFlowView) -> Seq<char> {
    match flow {
        RegisterFlowView::AwaitSession { session_hash } => session_hash,
        _ => Seq::empty(),
    }
}

/// Starts a registration of `new_player`.
pub fn player_register(address: Option<String>, agent: String, new_player: Player) -> (r: (
    RegisterFlow,
    Step,
))
    ensures
        (r.0@, r.1@) == spec_player_register(address.deep_view(), agent@, new_player@),
{
    let nickname = new_player.nickname.clone();
    (
        RegisterFlow::AwaitInsert { address, agent, nickname },
        Step::Query(
            DbRequest::InsertPlayer {
                nickname: new_player.nickname,
                email: new_player.email,
                password_hash: new_player.password_hash,
                has_avatar: new_player.has_avatar,
            },
        ),
    )
}

/// Continues a registration with the reply to its last statement.
pub fn player_register_next(flow: RegisterFlow, reply: DbReply) -> (r: (RegisterFlow, Step))
    ensures
        (r.0@, r.1@) == spec_player_register_next(flow@, reply@, register_hash(r.0@)),
        r.0@ is AwaitSession ==> is_session_hash(register_hash(r.0@)),
{
    match flow {
        RegisterFlow::AwaitInsert { address, agent, nickname } => match reply {
            DbReply::Executed => {
                let (session_hash, request) = create_new_session_for_player(
                    nickname,
                    address_to_record(address),
                    agent,
                );
                (RegisterFlow::AwaitSession { session_hash }, Step::Query(request))
            },
            _ => (RegisterFlow::Done, reject()),
        },
        RegisterFlow::AwaitSession { session_hash } => match create_new_session_for_player_next(
            session_hash,
            reply,
        ) {
            Ok(session_hash) => {
                let cookie = set_session_cookie(session_hash.as_str());
                (
                    RegisterFlow::Done,
                    Step::Finish(Outcome::Reply(Response::SessionCookie { status: 201, cookie })),
                )
            },
            Err(_) => (RegisterFlow::Done, reject()),
        },
        RegisterFlow::Done => (RegisterFlow::Done, reject()),
    }
}

// ----- player info -----

/// Where `player_info` stands.
#[derive(Clone, Copy, PartialEq, Eq, Structural, Debug)]
pub enum InfoFlow {
    AwaitPlayer,
    Done,
}

/// The password hash shown in place of the real one.
pub open spec fn masked_password_hash() -> Seq<char> {
    "---"@
}

/// Player info: a reserved nickname is turned away without a statement;
/// any other is looked up.
pub open spec fn spec_player_info(nickname: Seq<char>) -> (InfoFlow, StepView) {
    if is_reserved(nickname) {
        (InfoFlow::Done, spec_reject())
    } else {
        (InfoFlow::AwaitPlayer, StepView::Query(DbRequestView::PlayerInfo { nickname }))
    }
}

/// Player info, on a reply: the player's public columns as JSON, with the
/// password hash masked; anything else is turned away.
pub open spec fn spec_player_info_next(flow: InfoFlow, reply: DbReplyView) -> (InfoFlow, StepView) {
    match flow {
        InfoFlow::AwaitPlayer => match reply {
            DbReplyView::PlayerRow { nickname, email, has_avatar, rating } => (
                InfoFlow::Done,
                spec_reply(
                    ResponseView::PlayerJson(
                        PlayerView {
                            nickname,
                            email,
                            password_hash: masked_password_hash(),
                            has_avatar,
                            rating,
                        },
                    ),
                ),
            ),
            _ => (InfoFlow::Done, spec_reject()),
        },
        InfoFlow::Done => (InfoFlow::Done, spec_reject()),
    }
}

/// Starts answering `GET /api/player/{nickname}`.
pub fn player_info(nickname: String) -> (r: (InfoFlow, Step))
    ensures
        (r.0, r.1@) == spec_player_info(nickname@),
{
    if is_reserved_nickname(nickname.as_str()) {
        (InfoFlow::Done, reject())
    } else {
        (InfoFlow::AwaitPlayer, Step::Query(DbRequest::PlayerInfo { nickname }))
    }
}

/// Continues answering player info with the reply to its statement.
pub fn player_info_next(flow: InfoFlow, reply: DbReply) -> (r: (InfoFlow, Step))
    ensures
        (r.0, r.1@) == spec_player_info_next(flow, reply@),
{
    match flow {
        InfoFlow::AwaitPlayer => match reply {
            DbReply::PlayerRow { nickname, email, has_avatar, rating } => {
                let player = Player {
                    nickname,
                    email,
                    password_hash: "---".to_owned(),
                    has_avatar,
                    rating,
                };
                (InfoFlow::Done, Step::Finish(Outcome::Reply(Response::PlayerJson(player))))
            },
            _ => (InfoFlow::Done, reject()),
        },
        InfoFlow::Done => (InfoFlow::Done, reject()),
    }
}

// ----- whoami -----

/// Where `player_whoami` stands.
pub enum WhoAmIFlow {
    AwaitOwner,
    AwaitAvatar { nickname: String },
    Done,
}

pub enum WhoAmIFlowView {
    AwaitOwner,
    AwaitAvatar { nickname: Seq<char> },
    Done,
}

impl View for WhoAmIFlow {
    type V = WhoAmIFlowView;

    open spec fn view(&self) -> WhoAmIFlowView {
        match self {
            WhoAmIFlow::AwaitOwner => WhoAmIFlowView::AwaitOwner,
            WhoAmIFlow::AwaitAvatar { nickname } => WhoAmIFlowView::AwaitAvatar {
                nickname: nickname@,
            },
            WhoAmIFlow::Done => WhoAmIFlowView::Done,
        }
    }
}

/// Who-am-I looks up the player that the session belongs to.
pub open spec fn spec_player_whoami(session_hash: Seq<char>) -> (WhoAmIFlowView, StepView) {
    (WhoAmIFlowView::AwaitOwner, StepView::Query(DbRequestView::SessionOwner { session_hash }))
}

/// Who-am-I, on a reply: the owner's avatar flag is read, then both are
/// answered as JSON; anything else is turned away.
pub open spec fn spec_player_whoami_next(flow: WhoAmIFlowView, reply: DbReplyView) -> (
    WhoAmIFlowView,
    StepView,
) {
    match flow {
        WhoAmIFlowView::AwaitOwner => match reply {
            DbReplyView::Text(nickname) => (
                WhoAmIFlowView::AwaitAvatar { nickname },
                StepView::Query(DbRequestView::HasAvatar { nickname }),
            ),
            _ => (WhoAmIFlowView::Done, spec_reject()),
        },
        WhoAmIFlowView::AwaitAvatar { nickname } => match reply {
            DbReplyView::Flag(has_avatar) => (
                WhoAmIFlowView::Done,
                spec_reply(ResponseView::WhoAmI(WhoAmIView { nickname, has_avatar })),
            ),
            _ => (WhoAmIFlowView::Done, spec_reject()),
        },
        WhoAmIFlowView::Done => (WhoAmIFlowView::Done, spec_reject()),
    }
}

/// Starts answering who the holder of `session_hash` is.
pub fn player_whoami(session_hash: String) -> (r: (WhoAmIFlow, Step))
    ensures
        (r.0@, r.1@) == spec_player_whoami(session_hash@),
{
    (WhoAmIFlow::AwaitOwner, Step::Query(DbRequest::SessionOwner { session_hash }))
}

/// Continues who-am-I with the reply to its last statement.
pub fn player_whoami_next(flow: WhoAmIFlow, reply: DbReply) -> (r: (WhoAmIFlow, Step))
    ensures
        (r.0@, r.1@) == spec_player_whoami_next(flow@, reply@),
{
    match flow {
        WhoAmIFlow::AwaitOwner => match reply {
            DbReply::Text(nickname) => {
                let looked_up = nickname.clone();
                (
                    WhoAmIFlow::AwaitAvatar { nickname },
                    Step::Query(DbRequest::HasAvatar { nickname: looked_up }),
                )
            },
            _ => (WhoAmIFlow::Done, reject()),
        },
        WhoAmIFlow::AwaitAvatar { nickname } => match reply {
            DbReply::Flag(has_avatar) => (
                WhoAmIFlow::Done,
                Step::Finish(Outcome::Reply(Response::WhoAmI(WhoAmIJSON { nickname, has_avatar }))),
            ),
            _ => (WhoAmIFlow::Done, reject()),
        },
        WhoAmIFlow::Done => (WhoAmIFlow::Done, reject()),
    }
}

// ----- logout -----

/// Where `player_logout` stands.
#[derive(Clone, Copy, PartialEq, Eq, Structural, Debug)]
pub enum LogoutFlow {
    AwaitDeactivate,
    Done,
}

/// Logout marks the session inactive.
pub open spec fn spec_player_logout(session_hash: Seq<char>) -> (LogoutFlow, StepView) {
    (
        LogoutFlow::AwaitDeactivate,
        StepView::Query(DbRequestView::DeactivateSession { session_hash }),
    )
}

/// Logout, on a reply: "201 Created" with the cookie that ends the session in
/// the browser; a failed statement is turned away.
pub open spec fn spec_player_logout_next(flow: LogoutFlow, reply: DbReplyView) -> (
    LogoutFlow,
    StepView,
) {
    match flow {
        LogoutFlow::AwaitDeactivate => match reply {
            DbReplyView::Executed => (
                LogoutFlow::Done,
                spec_reply(
                    ResponseView::SessionCookie { status: 201, cookie: expired_session_cookie() },
                ),
            ),
            _ => (LogoutFlow::Done, spec_reject()),
        },
        LogoutFlow::Done => (LogoutFlow::Done, spec_reject()),
    }
}

/// Starts a logout of the session `session_hash`.
pub fn player_logout(session_hash: String) -> (r: (LogoutFlow, Step))
    ensures
        (r.0, r.1@) == spec_player_logout(session_hash@),
{
    (LogoutFlow::AwaitDeactivate, Step::Query(DbRequest::DeactivateSession { session_hash }))
}

/// Continues a logout with the reply to its statement.
pub fn player_logout_next(flow: LogoutFlow, reply: DbReply) -> (r: (LogoutFlow, Step))
    ensures
        (r.0, r.1@) == spec_player_logout_next(flow, reply@),
{
    match flow {
        LogoutFlow::AwaitDeactivate => match reply {
            DbReply::Executed => {
                let cookie = "session=deleted; path=/; expires=Thu, 01 Jan 1970 00:00:00 GMT".to_owned();
                (
                    LogoutFlow::Done,
                    Step::Finish(Outcome::Reply(Response::SessionCookie { status: 201, cookie })),
                )
            },
            _ => (LogoutFlow::Done, reject()),
        },
        LogoutFlow::Done => (LogoutFlow::Done, reject()),
    }
}

// ----- delete -----

/// Where `player_delete` stands.
#[derive(Clone, Copy, PartialEq, Eq, Structural, Debug)]
pub enum DeleteFlow {
    AwaitDelete,
    Done,
}

/// Deletion removes the player.
pub open spec fn spec_player_delete(nickname: Seq<char>) -> (DeleteFlow, StepView) {
    (DeleteFlow::AwaitDelete, StepView::Query(DbRequestView::DeletePlayer { nickname }))
}

/// Deletion, on a reply: "200 DELETED", or "500 ERROR_WITH_DB" when the
/// statement failed.
pub open spec fn spec_player_delete_next(flow: DeleteFlow, reply: DbReplyView) -> (
    DeleteFlow,
    StepView,
) {
    match flow {
        DeleteFlow::AwaitDelete => match reply {
            DbReplyView::Executed => (DeleteFlow::Done, spec_text(200, "DELETED"@)),
            _ => (DeleteFlow::Done, spec_text(500, "ERROR_WITH_DB"@)),
        },
        DeleteFlow::Done => (DeleteFlow::Done, spec_reject()),
    }
}

/// Starts deleting the player `nickname`.
pub fn player_delete(nickname: String) -> (r: (DeleteFlow, Step))
    ensures
        (r.0, r.1@) == spec_player_delete(nickname@),
{
    (DeleteFlow::AwaitDelete, Step::Query(DbRequest::DeletePlayer { nickname }))
}

/// Continues a deletion with the reply to its statement.
pub fn player_delete_next(flow: DeleteFlow, reply: DbReply) -> (r: (DeleteFlow, Step))
    ensures
        (r.0, r.1@) == spec_player_delete_next(flow, reply@),
{
    match flow {
        DeleteFlow::AwaitDelete => match reply {
            DbReply::Executed => (DeleteFlow::Done, text(200, "DELETED")),
            _ => (DeleteFlow::Done, text(500, "ERROR_WITH_DB")),
        },
        DeleteFlow::Done => (DeleteFlow::Done, reject()),
    }
}

// ----- recover -----

/// The answer to a request that no route took: "500" with the rejection's
/// debug text `info`.
pub open spec fn spec_recover(info: Seq<char>) -> ResponseView {
    ResponseView::Text { status: 500, body: "some error :( info-"@ + info }
}

/// Answers a request that no route took; `info` is the debug text of the
/// rejection.
pub fn recover(info: &str) -> (r: Response)
    ensures
        r@ == spec_recover(info@),
{
    Response::Text { status: 500, body: "some error :( info-".to_owned().concat(info) }
}

// ----- update -----

/// Where `player_update` stands.
pub enum UpdateFlow {
    /// Waiting to learn whose session the request carries.
    AwaitOwner { nickname: String, form: PlayerUpdateForm },
    /// Writing the fields in `writes`; the one before position `next` is in flight.
    AwaitWrite { nickname: String, writes: Vec<(PlayerField, String)>, next: usize },
    Done,
}

pub enum UpdateFlowView {
    AwaitOwner { nickname: Seq<char>, form: PlayerUpdateFormView },
    AwaitWrite { nickname: Seq<char>, writes: Seq<(PlayerField, Seq<char>)>, next: int },
    Done,
}

/// The column writes in `writes`, by the text of their values.
pub open spec fn writes_view(writes: Seq<(PlayerField, String)>) -> Seq<(PlayerField, Seq<char>)> {
    writes.map_values(|w: (PlayerField, String)| (w.0, w.1@))
}

impl View for UpdateFlow {
    type V = UpdateFlowView;

    open spec fn view(&self) -> UpdateFlowView {
        match self {
            UpdateFlow::AwaitOwner { nickname, form } => UpdateFlowView::AwaitOwner {
                nickname: nickname@,
                form: form@,
            },
            UpdateFlow::AwaitWrite { nickname, writes, next } => UpdateFlowView::AwaitWrite {
                nickname: nickname@,
                writes: writes_view(writes@),
                next: *next as int,
            },
            UpdateFlow::Done => UpdateFlowView::Done,
        }
    }
}

/// The columns that an update form sets, in order: the email, then the
/// password hash, each only where the form gives one.
pub open spec fn spec_field_writes(form: PlayerUpdateFormView) -> Seq<(PlayerField, Seq<char>)> {
    let email = match form.email {
        Some(e) => seq![(PlayerField::Email, e)],
        None => Seq::empty(),
    };
    let password_hash = match form.password_hash {
        Some(p) => seq![(PlayerField::PasswordHash, p)],
        None => Seq::empty(),
    };
    email + password_hash
}

/// The statement that writes one column of `nickname`.
pub open spec fn spec_write(nickname: Seq<char>, write: (PlayerField, Seq<char>)) -> StepView {
    StepView::Query(DbRequestView::UpdatePlayerField { field: write.0, value: write.1, nickname })
}

/// The answer once every column is written.
pub open spec fn spec_updated() -> StepView {
    spec_text(200, "UPDATED"@)
}

/// An update first looks up whose session the request carries.
pub open spec fn spec_player_update(
    nickname: Seq<char>,
    session_hash: Seq<char>,
    form: PlayerUpdateFormView,
) -> (UpdateFlowView, StepView) {
    (
        UpdateFlowView::AwaitOwner { nickname, form },
        StepView::Query(DbRequestView::SessionOwner { session_hash }),
    )
}

/// An update, on a reply: only the owner of the session may change the
/// profile, one column at a time; a failed write ends with
/// "500 ERROR_WITH_DB", and the last with "200 UPDATED".
pub open spec fn spec_player_update_next(flow: UpdateFlowView, reply: DbReplyView) -> (
    UpdateFlowView,
    StepView,
) {
    match flow {
        UpdateFlowView::AwaitOwner { nickname, form } => match reply {
            DbReplyView::Text(caller) => if caller == nickname {
                let writes = spec_field_writes(form);
                if writes.len() > 0 {
                    (
                        UpdateFlowView::AwaitWrite { nickname, writes, next: 1 },
                        spec_write(nickname, writes[0]),
                    )
                } else {
                    (UpdateFlowView::Done, spec_updated())
                }
            } else {
                (UpdateFlowView::Done, spec_reject())
            },
            _ => (UpdateFlowView::Done, spec_reject()),
        },
        UpdateFlowView::AwaitWrite { nickname, writes, next } => match reply {
            DbReplyView::Executed => if 0 <= next < writes.len() {
                (
                    UpdateFlowView::AwaitWrite { nickname, writes, next: next + 1 },
                    spec_write(nickname, writes[next]),
                )
            } else {
                (UpdateFlowView::Done, spec_updated())
            },
            _ => (UpdateFlowView::Done, spec_text(500, "ERROR_WITH_DB"@)),
        },
        UpdateFlowView::Done => (UpdateFlowView::Done, spec_reject()),
    }
}

/// The columns that `form` sets, in order.
fn field_writes(form: PlayerUpdateForm) -> (w: Vec<(PlayerField, String)>)
    ensures
        writes_view(w@) == spec_field_writes(form@),
{
    let mut w: Vec<(PlayerField, String)> = Vec::new();
    match form.email {
        Some(e) => w.push((PlayerField::Email, e)),
        None => {},
    }
    match form.password_hash {
        Some(p) => w.push((PlayerField::PasswordHash, p)),
        None => {},
    }
    assert(writes_view(w@) =~= spec_field_writes(form@));
    w
}

/// Starts an update of the profile `nickname` by the holder of `session_hash`.
pub fn player_update(nickname: String, session_hash: String, player: PlayerUpdateForm) -> (r: (
    UpdateFlow,
    Step,
))
    ensures
        (r.0@, r.1@) == spec_player_update(nickname@, session_hash@, player@),
{
    (
        UpdateFlow::AwaitOwner { nickname, form: player },
        Step::Query(DbRequest::SessionOwner { session_hash }),
    )
}

/// Continues an update with the reply to its last statement.
pub fn player_update_next(flow: UpdateFlow, reply: DbReply) -> (r: (UpdateFlow, Step))
    ensures
        (r.0@, r.1@) == spec_player_update_next(flow@, reply@),
{
    match flow {
        UpdateFlow::AwaitOwner { nickname, form } => match reply {
            DbReply::Text(caller) => if caller == nickname {
                let writes = field_writes(form);
                if writes.len() > 0 {
                    let request = DbRequest::UpdatePlayerField {
                        field: writes[0].0,
                        value: writes[0].1.clone(),
                        nickname: nickname.clone(),
                    };
                    (UpdateFlow::AwaitWrite { nickname, writes, next: 1 }, Step::Query(request))
                } else {
                    (UpdateFlow::Done, text(200, "UPDATED"))
                }
            } else {
                (UpdateFlow::Done, reject())
            },
            _ => (UpdateFlow::Done, reject()),
        },
        UpdateFlow::AwaitWrite { nickname, writes, next } => match reply {
            DbReply::Executed => if next < writes.len() {
                let request = DbRequest::UpdatePlayerField {
                    field: writes[next].0,
                    value: writes[next].1.clone(),
                    nickname: nickname.clone(),
                };
                (
                    UpdateFlow::AwaitWrite { nickname, writes, next: next + 1 },
                    Step::Query(request),
                )
            } else {
                (UpdateFlow::Done, text(200, "UPDATED"))
            },
            _ => (UpdateFlow::Done, text(500, "ERROR_WITH_DB")),
        },
        UpdateFlow::Done => (UpdateFlow::Done, reject()),
    }
}

// ----- laws -----

/// A reserved nickname is never looked up: player info turns it away before
/// any statement runs.
pub proof fn lemma_reserved_nickname_never_queried(nickname: Seq<char>)
    ensures
        is_reserved(nickname) ==> spec_player_info(nickname) == (InfoFlow::Done, spec_reject()),
        spec_player_info(nickname).1 is Query ==> !is_reserved(nickname),
{
}

/// Player info never shows a password hash: whatever the database holds, the
/// answer carries the mask in its place.
pub proof fn lemma_player_info_masks_password(flow: InfoFlow, reply: DbReplyView)
    ensures
        spec_player_info_next(flow, reply).1 matches StepView::Finish(
            OutcomeView::Reply(ResponseView::PlayerJson(p)),
        ) ==> p.password_hash == masked_password_hash(),
{
}

/// Only the owner of the session changes a profile: a column is written
/// only after the session was found to belong to the player named in the
/// request, and every write names that player.
pub proof fn lemma_update_only_by_owner(flow: UpdateFlowView, reply: DbReplyView)
    ensures
        ({
            let (next, step) = spec_player_update_next(flow, reply);
            step matches StepView::Query(DbRequestView::UpdatePlayerField { nickname: written, .. })
                ==> match flow {
                UpdateFlowView::AwaitOwner { nickname, .. } => reply == DbReplyView::Text(nickname)
                    && written == nickname && next is AwaitWrite && next->AwaitWrite_nickname
                    == nickname,
                UpdateFlowView::AwaitWrite { nickname, .. } => written == nickname && next
                    is AwaitWrite && next->AwaitWrite_nickname == nickname,
                UpdateFlowView::Done => false,
            }
        }),
{
}

/// A login answers with the cookie of exactly the session it recorded: the
/// session `fresh` of the player found, opened from the request's address
/// (the empty text where it is unknown) and user agent.
pub proof fn lemma_login_cookie_is_recorded_session(
    address: Option<Seq<char>>,
    agent: Seq<char>,
    nickname: Seq<char>,
    fresh: Seq<char>,
    later: Seq<char>,
)
    ensures
        ({
            let (flow, step) = spec_player_login_next(
                LoginFlowView::AwaitNickname { address, agent },
                DbReplyView::Text(nickname),
                fresh,
            );
            &&& step == StepView::Query(
                spec_insert_session(fresh, recorded_address(address), agent, nickname),
            )
            &&& spec_player_login_next(flow, DbReplyView::Executed, later).1 == spec_reply(
                ResponseView::SessionCookie { status: 200, cookie: session_cookie(fresh) },
            )
        }),
{
}

/// A registration answers "201 Created" with the cookie of exactly the session
/// it recorded for the new player, whether or not the remote address is known.
pub proof fn lemma_register_cookie_is_recorded_session(
    address: Option<Seq<char>>,
    agent: Seq<char>,
    new_player: PlayerView,
    fresh: Seq<char>,
    later: Seq<char>,
)
    ensures
        ({
            let (flow0, _) = spec_player_register(address, agent, new_player);
            let (flow1, step1) = spec_player_register_next(flow0, DbReplyView::Executed, fresh);
            &&& step1 == StepView::Query(
                spec_insert_session(fresh, recorded_address(address), agent, new_player.nickname),
            )
            &&& spec_player_register_next(flow1, DbReplyView::Executed, later).1 == spec_reply(
                ResponseView::SessionCookie { status: 201, cookie: session_cookie(fresh) },
            )
        }),
{
}

/// How many more statements a login may run.
pub open spec fn login_budget(flow: LoginFlowView) -> nat {
    match flow {
        LoginFlowView::AwaitNickname { .. } => 2,
        LoginFlowView::AwaitSession { .. } => 1,
        LoginFlowView::Done => 0,
    }
}

/// How many more statements a registration may run.
pub open spec fn register_budget(flow: RegisterFlowView) -> nat {
    match flow {
        RegisterFlowView::AwaitInsert { .. } => 2,
        RegisterFlowView::AwaitSession { .. } => 1,
        RegisterFlowView::Done => 0,
    }
}

/// How many more statements an update may run.
pub open spec fn update_budget(flow: UpdateFlowView) -> nat {
    match flow {
        UpdateFlowView::AwaitOwner { form, .. } => 1 + spec_field_writes(form).len(),
        UpdateFlowView::AwaitWrite { writes, next, .. } => if next <= writes.len() {
            (writes.len() - next + 1) as nat
        } else {
            1
        },
        UpdateFlowView::Done => 0,
    }
}

/// How many more statements who-am-I may run.
pub open spec fn whoami_budget(flow: WhoAmIFlowView) -> nat {
    match flow {
        WhoAmIFlowView::AwaitOwner => 2,
        WhoAmIFlowView::AwaitAvatar { .. } => 1,
        WhoAmIFlowView::Done => 0,
    }
}

/// Every handler comes to an answer: each reply either ends the handler or
/// moves it to a state with fewer statements left to run, and a state with
/// none left has ended.
pub proof fn lemma_handlers_terminate(
    login: LoginFlowView,
    register: RegisterFlowView,
    update: UpdateFlowView,
    whoami: WhoAmIFlowView,
    info: InfoFlow,
    logout: LogoutFlow,
    delete: DeleteFlow,
    reply: DbReplyView,
    fresh: Seq<char>,
)
    ensures
        ({
            let (n, s) = spec_player_login_next(login, reply, fresh);
            s is Query ==> login_budget(n) < login_budget(login) && !(n is Done)
        }),
        ({
            let (n, s) = spec_player_register_next(register, reply, fresh);
            s is Query ==> register_budget(n) < register_budget(register) && !(n is Done)
        }),
        ({
            let (n, s) = spec_player_update_next(update, reply);
            s is Query ==> update_budget(n) < update_budget(update) && !(n is Done)
        }),
        ({
            let (n, s) = spec_player_whoami_next(whoami, reply);
            s is Query ==> whoami_budget(n) < whoami_budget(whoami) && !(n is Done)
        }),
        spec_player_login_next(login, reply, fresh).1 is Finish ==> spec_player_login_next(
            login,
            reply,
            fresh,
        ).0 is Done,
        spec_player_register_next(register, reply, fresh).1 is Finish
            ==> spec_player_register_next(register, reply, fresh).0 is Done,
        spec_player_update_next(update, reply).1 is Finish ==> spec_player_update_next(
            update,
            reply,
        ).0 is Done,
        spec_player_whoami_next(whoami, reply).1 is Finish ==> spec_player_whoami_next(
            whoami,
            reply,
        ).0 is Done,
        spec_player_info_next(info, reply).1 is Finish,
        spec_player_logout_next(logout, reply).1 is Finish,
        spec_player_delete_next(delete, reply).1 is Finish,
{
}

} // verus!
