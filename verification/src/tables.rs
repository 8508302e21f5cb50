use vstd::prelude::*;
use crate::db::{DbReplyView, DbRequestView, PlayerField};
use crate::handlers::{
    expired_session_cookie, masked_password_hash, recorded_address, session_cookie,
    spec_player_delete, spec_player_delete_next, spec_player_info, spec_player_info_next,
    spec_player_login, spec_player_login_next, spec_player_logout, spec_player_logout_next,
    spec_player_register, spec_player_register_next, spec_player_update,
    spec_player_update_next, spec_player_whoami, spec_player_whoami_next, DeleteFlow, InfoFlow,
    LoginFlowView, LogoutFlow, OutcomeView, RegisterFlowView, ResponseView, StepView,
    UpdateFlowView, WhoAmIFlowView,
};
use crate::models::{
    is_reserved, lemma_reserved_exactly_listed, PlayerUpdateFormView, PlayerView, WhoAmIView,
    RESERVED_NICKNAMES,
};

verus! {

/// A row of `players`, apart from its key, the nickname.
pub struct PlayerRecord {
    pub email: Seq<char>,
    pub password_hash: Seq<char>,
    pub has_avatar: bool,
    pub rating: Option<u32>,
}

/// A row of `sessions`, apart from its key, the session hash.
pub struct SessionRecord {
    pub address: Seq<char>,
    pub agent: Seq<char>,
    pub player: Seq<char>,
    pub is_active: bool,
}

/// The two tables of the game's database: players by nickname, sessions by hash.
pub struct Tables {
    pub players: Map<Seq<char>, PlayerRecord>,
    pub sessions: Map<Seq<char>, SessionRecord>,
}

/// Whether some player has this password hash.
pub open spec fn has_password_hash(t: Tables, password_hash: Seq<char>) -> bool {
    exists|n: Seq<char>| t.players.contains_key(n) && #[trigger] t.players[n].password_hash
        == password_hash
}

/// A player with this password hash (which one, where several share it, is
/// left open).
pub open spec fn player_with_password_hash(t: Tables, password_hash: Seq<char>) -> Seq<char> {
    choose|n: Seq<char>| t.players.contains_key(n) && #[trigger] t.players[n].password_hash
        == password_hash
}

/// `r` with one column set to `value`.
pub open spec fn with_field(r: PlayerRecord, field: PlayerField, value: Seq<char>) -> PlayerRecord {
    match field {
        PlayerField::Email => PlayerRecord { email: value, ..r },
        PlayerField::PasswordHash => PlayerRecord { password_hash: value, ..r },
    }
}

/// What each statement does to the tables and gives back, on a database that
/// answers: an insert whose key is taken fails, a lookup that finds no row
/// fails, and the statements that change rows succeed whether or not a row
/// matches.
pub open spec fn apply(t: Tables, q: DbRequestView) -> (Tables, DbReplyView) {
    match q {
        DbRequestView::NicknameByPasswordHash { password_hash } => if has_password_hash(
            t,
            password_hash,
        ) {
            (t, DbReplyView::Text(player_with_password_hash(t, password_hash)))
        } else {
            (t, DbReplyView::Failed)
        },
        DbRequestView::InsertSession { session_hash, address, agent, player } => if t.sessions.contains_key(
            session_hash,
        ) {
            (t, DbReplyView::Failed)
        } else {
            (
                Tables {
                    players: t.players,
                    sessions: t.sessions.insert(
                        session_hash,
                        SessionRecord { address, agent, player, is_active: true },
                    ),
                },
                DbReplyView::Executed,
            )
        },
        DbRequestView::SessionOwner { session_hash } => if t.sessions.contains_key(session_hash) {
            (t, DbReplyView::Text(t.sessions[session_hash].player))
        } else {
            (t, DbReplyView::Failed)
        },
        DbRequestView::InsertPlayer { nickname, email, password_hash, has_avatar } => if t.players.contains_key(
            nickname,
        ) {
            (t, DbReplyView::Failed)
        } else {
            (
                Tables {
                    players: t.players.insert(
                        nickname,
                        PlayerRecord { email, password_hash, has_avatar, rating: None },
                    ),
                    sessions: t.sessions,
                },
                DbReplyView::Executed,
            )
        },
        DbRequestView::PlayerInfo { nickname } => if t.players.contains_key(nickname) {
            let r = t.players[nickname];
            (
                t,
                DbReplyView::PlayerRow {
                    nickname,
                    email: r.email,
                    has_avatar: r.has_avatar,
                    rating: r.rating,
                },
            )
        } else {
            (t, DbReplyView::Failed)
        },
        DbRequestView::HasAvatar { nickname } => if t.players.contains_key(nickname) {
            (t, DbReplyView::Flag(t.players[nickname].has_avatar))
        } else {
            (t, DbReplyView::Failed)
        },
        DbRequestView::DeactivateSession { session_hash } => if t.sessions.contains_key(
            session_hash,
        ) {
            (
                Tables {
                    players: t.players,
                    sessions: t.sessions.insert(
                        session_hash,
                        SessionRecord { is_active: false, ..t.sessions[session_hash] },
                    ),
                },
                DbReplyView::Executed,
            )
        } else {
            (t, DbReplyView::Executed)
        },
        DbRequestView::UpdatePlayerField { field, value, nickname } => if t.players.contains_key(
            nickname,
        ) {
            (
                Tables {
                    players: t.players.insert(
                        nickname,
                        with_field(t.players[nickname], field, value),
                    ),
                    sessions: t.sessions,
                },
                DbReplyView::Executed,
            )
        } else {
            (t, DbReplyView::Executed)
        },
        DbRequestView::DeletePlayer { nickname } => (
            Tables { players: t.players.remove(nickname), sessions: t.sessions },
            DbReplyView::Executed,
        ),
    }
}

/// How a handler ended; a handler that would still run a statement has not.
pub open spec fn finished(step: StepView) -> OutcomeView {
    match step {
        StepView::Finish(o) => o,
        StepView::Query(_) => OutcomeView::Reject,
    }
}

/// Runs a handler on the tables: each statement it asks for is applied and
/// its reply handed back, for at most `fuel` statements.
pub open spec fn run<F>(
    t: Tables,
    flow: F,
    step: StepView,
    next: spec_fn(F, DbReplyView) -> (F, StepView),
    fuel: nat,
) -> (Tables, OutcomeView)
    decreases fuel,
{
    match step {
        StepView::Finish(o) => (t, o),
        StepView::Query(q) => if fuel == 0 {
            (t, OutcomeView::Reject)
        } else {
            let (t1, reply) = apply(t, q);
            let (f1, s1) = next(flow, reply);
            run(t1, f1, s1, next, (fuel - 1) as nat)
        },
    }
}

/// A login on the tables; `fresh` is the session hash it draws.
pub open spec fn run_login(
    t: Tables,
    address: Option<Seq<char>>,
    agent: Seq<char>,
    auth: Seq<char>,
    fresh: Seq<char>,
) -> (Tables, OutcomeView) {
    let (f, s) = spec_player_login(address, agent, auth);
    run(t, f, s, |f: LoginFlowView, r: DbReplyView| spec_player_login_next(f, r, fresh), 2)
}

/// A registration on the tables; `fresh` is the session hash it draws.
pub open spec fn run_register(
    t: Tables,
    address: Option<Seq<char>>,
    agent: Seq<char>,
    new_player: PlayerView,
    fresh: Seq<char>,
) -> (Tables, OutcomeView) {
    let (f, s) = spec_player_register(address, agent, new_player);
    run(
        t,
        f,
        s,
        |f: RegisterFlowView, r: DbReplyView| spec_player_register_next(f, r, fresh),
        2,
    )
}

/// Player info on the tables.
pub open spec fn run_info(t: Tables, nickname: Seq<char>) -> (Tables, OutcomeView) {
    let (f, s) = spec_player_info(nickname);
    run(t, f, s, |f: InfoFlow, r: DbReplyView| spec_player_info_next(f, r), 1)
}

/// Who-am-I on the tables.
pub open spec fn run_whoami(t: Tables, session_hash: Seq<char>) -> (Tables, OutcomeView) {
    let (f, s) = spec_player_whoami(session_hash);
    run(t, f, s, |f: WhoAmIFlowView, r: DbReplyView| spec_player_whoami_next(f, r), 2)
}

/// A logout on the tables.
pub open spec fn run_logout(t: Tables, session_hash: Seq<char>) -> (Tables, OutcomeView) {
    let (f, s) = spec_player_logout(session_hash);
    run(t, f, s, |f: LogoutFlow, r: DbReplyView| spec_player_logout_next(f, r), 1)
}

/// A deletion on the tables.
pub open spec fn run_delete(t: Tables, nickname: Seq<char>) -> (Tables, OutcomeView) {
    let (f, s) = spec_player_delete(nickname);
    run(t, f, s, |f: DeleteFlow, r: DbReplyView| spec_player_delete_next(f, r), 1)
}

/// A profile update on the tables.
pub open spec fn run_update(
    t: Tables,
    nickname: Seq<char>,
    session_hash: Seq<char>,
    form: PlayerUpdateFormView,
) -> (Tables, OutcomeView) {
    let (f, s) = spec_player_update(nickname, session_hash, form);
    run(t, f, s, |f: UpdateFlowView, r: DbReplyView| spec_player_update_next(f, r), 3)
}

/// The row that registration records for `p`.
pub open spec fn registered_record(p: PlayerView) -> PlayerRecord {
    PlayerRecord {
        email: p.email,
        password_hash: p.password_hash,
        has_avatar: p.has_avatar,
        rating: None,
    }
}

/// What player info shows of a registered player.
pub open spec fn shown_player(p: PlayerView) -> PlayerView {
    PlayerView {
        nickname: p.nickname,
        email: p.email,
        password_hash: masked_password_hash(),
        has_avatar: p.has_avatar,
        rating: None,
    }
}

/// Registering a new player records it and an active session under the
/// drawn hash, and answers "201 Created" with that session's cookie; player
/// info then shows the player with its password masked, and who-am-I on the
/// cookie's session names it.
pub proof fn lemma_register_round_trip(
    t: Tables,
    address: Option<Seq<char>>,
    agent: Seq<char>,
    p: PlayerView,
    fresh: Seq<char>,
)
    requires
        !t.players.contains_key(p.nickname),
        !t.sessions.contains_key(fresh),
        !is_reserved(p.nickname),
    ensures
        ({
            let (t1, o) = run_register(t, address, agent, p, fresh);
            &&& o == OutcomeView::Reply(
                ResponseView::SessionCookie { status: 201, cookie: session_cookie(fresh) },
            )
            &&& t1.players == t.players.insert(p.nickname, registered_record(p))
            &&& t1.sessions == t.sessions.insert(
                fresh,
                SessionRecord {
                    address: recorded_address(address),
                    agent,
                    player: p.nickname,
                    is_active: true,
                },
            )
            &&& run_info(t1, p.nickname) == (t1, OutcomeView::Reply(
                ResponseView::PlayerJson(shown_player(p)),
            ))
            &&& run_whoami(t1, fresh) == (t1, OutcomeView::Reply(
                ResponseView::WhoAmI(WhoAmIView { nickname: p.nickname, has_avatar: p.has_avatar }),
            ))
        }),
{
    reveal_with_fuel(run, 3);
}

/// A login with a password hash that exactly one player has records an
/// active session of that player under the drawn hash and answers with its
/// cookie.
pub proof fn lemma_login_finds_the_player(
    t: Tables,
    nickname: Seq<char>,
    address: Option<Seq<char>>,
    agent: Seq<char>,
    fresh: Seq<char>,
)
    requires
        t.players.contains_key(nickname),
        forall|n: Seq<char>|
            t.players.contains_key(n) && #[trigger] t.players[n].password_hash
                == t.players[nickname].password_hash ==> n == nickname,
        !t.sessions.contains_key(fresh),
    ensures
        run_login(t, address, agent, t.players[nickname].password_hash, fresh) == (
            Tables {
                players: t.players,
                sessions: t.sessions.insert(
                    fresh,
                    SessionRecord {
                        address: recorded_address(address),
                        agent,
                        player: nickname,
                        is_active: true,
                    },
                ),
            },
            OutcomeView::Reply(
                ResponseView::SessionCookie { status: 200, cookie: session_cookie(fresh) },
            ),
        ),
{
    reveal_with_fuel(run, 3);
    let ph = t.players[nickname].password_hash;
    assert(has_password_hash(t, ph));
    assert(player_with_password_hash(t, ph) == nickname);
}

/// From `t` to `t1` no session was removed and none that was inactive became
/// active again.
pub open spec fn sessions_kept(t: Tables, t1: Tables) -> bool {
    &&& forall|h: Seq<char>| #[trigger]
        t.sessions.contains_key(h) ==> t1.sessions.contains_key(h)
    &&& forall|h: Seq<char>|
        #![trigger t1.sessions.contains_key(h)]
        t.sessions.contains_key(h) && !t.sessions[h].is_active ==> !t1.sessions[h].is_active
}

/// No statement removes a session or makes an inactive one active again,
/// and a session comes into being active.
pub proof fn lemma_statement_keeps_sessions(t: Tables, q: DbRequestView)
    ensures
        sessions_kept(t, apply(t, q).0),
        forall|h: Seq<char>|
            #![trigger apply(t, q).0.sessions.contains_key(h)]
            !t.sessions.contains_key(h) && apply(t, q).0.sessions.contains_key(h) ==> apply(
                t,
                q,
            ).0.sessions[h].is_active,
{
}

/// Whatever a handler does, a logged-out session stays logged out and no
/// session disappears: each of its statements keeps the sessions.
pub proof fn lemma_handler_keeps_sessions<F>(
    t: Tables,
    flow: F,
    step: StepView,
    next: spec_fn(F, DbReplyView) -> (F, StepView),
    fuel: nat,
)
    ensures
        sessions_kept(t, run(t, flow, step, next, fuel).0),
    decreases fuel,
{
    match step {
        StepView::Finish(_) => {},
        StepView::Query(q) => if fuel > 0 {
            let (t1, reply) = apply(t, q);
            let (f1, s1) = next(flow, reply);
            lemma_statement_keeps_sessions(t, q);
            lemma_handler_keeps_sessions(t1, f1, s1, next, (fuel - 1) as nat);
        },
    }
}

/// A logout marks its session inactive, changes nothing else, and answers
/// with the cookie that ends the session; a second logout changes nothing
/// more and answers the same.
pub proof fn lemma_logout(t: Tables, session_hash: Seq<char>)
    ensures
        ({
            let (t1, o) = run_logout(t, session_hash);
            &&& o == OutcomeView::Reply(
                ResponseView::SessionCookie { status: 201, cookie: expired_session_cookie() },
            )
            &&& t1.players == t.players
            &&& t1.sessions.dom() == t.sessions.dom()
            &&& t1.sessions.contains_key(session_hash) ==> !t1.sessions[session_hash].is_active
            &&& forall|h: Seq<char>|
                h != session_hash && #[trigger] t.sessions.contains_key(h) ==> t1.sessions[h]
                    == t.sessions[h]
            &&& run_logout(t1, session_hash) == (t1, o)
        }),
{
    reveal_with_fuel(run, 2);
    let t1 = run_logout(t, session_hash).0;
    if t.sessions.contains_key(session_hash) {
        assert(t1.sessions.dom() =~= t.sessions.dom());
        let r = t1.sessions[session_hash];
        assert(SessionRecord { is_active: false, ..r } == r);
        assert(t1.sessions.insert(session_hash, SessionRecord { is_active: false, ..r })
            =~= t1.sessions);
    }
}

/// Player info only reads: the tables are left as they were.
pub proof fn lemma_player_info_only_reads(t: Tables, nickname: Seq<char>)
    ensures
        run_info(t, nickname).0 == t,
{
    reveal_with_fuel(run, 2);
}

/// Whether two databases differ at most in the players' password hashes.
pub open spec fn same_but_passwords(t1: Tables, t2: Tables) -> bool {
    &&& t1.sessions == t2.sessions
    &&& t1.players.dom() == t2.players.dom()
    &&& forall|n: Seq<char>| #[trigger]
        t1.players.contains_key(n) ==> PlayerRecord {
            password_hash: t2.players[n].password_hash,
            ..t1.players[n]
        } == t2.players[n]
}

/// A stored password hash never reaches player info: on databases that
/// differ only in password hashes it answers the same.
pub proof fn lemma_player_info_ignores_passwords(t1: Tables, t2: Tables, nickname: Seq<char>)
    requires
        same_but_passwords(t1, t2),
    ensures
        run_info(t1, nickname).1 == run_info(t2, nickname).1,
{
    reveal_with_fuel(run, 2);
    if t1.players.contains_key(nickname) {
        assert(t2.players.contains_key(nickname));
        assert(PlayerRecord {
            password_hash: t2.players[nickname].password_hash,
            ..t1.players[nickname]
        } == t2.players[nickname]);
    }
}

/// What an update with `form` leaves of the player `nickname`'s row.
pub open spec fn updated_record(r: PlayerRecord, form: PlayerUpdateFormView) -> PlayerRecord {
    let r1 = match form.email {
        Some(e) => with_field(r, PlayerField::Email, e),
        None => r,
    };
    match form.password_hash {
        Some(p) => with_field(r1, PlayerField::PasswordHash, p),
        None => r1,
    }
}

/// The owner of a session updates its own profile: the columns of the form
/// are set, "200 UPDATED" is answered, and doing it again changes nothing
/// more and answers the same.
pub proof fn lemma_update_idempotent(
    t: Tables,
    nickname: Seq<char>,
    session_hash: Seq<char>,
    form: PlayerUpdateFormView,
)
    requires
        t.sessions.contains_key(session_hash),
        t.sessions[session_hash].player == nickname,
    ensures
        ({
            let (t1, o) = run_update(t, nickname, session_hash, form);
            &&& o == OutcomeView::Reply(ResponseView::Text { status: 200, body: "UPDATED"@ })
            &&& t1.sessions == t.sessions
            &&& t1.players == if t.players.contains_key(nickname) {
                t.players.insert(nickname, updated_record(t.players[nickname], form))
            } else {
                t.players
            }
            &&& run_update(t1, nickname, session_hash, form) == (t1, o)
        }),
{
    reveal_with_fuel(run, 4);
    let (t1, o) = run_update(t, nickname, session_hash, form);
    if t.players.contains_key(nickname) {
        let r = t1.players[nickname];
        assert(updated_record(r, form) == r);
        assert(t1.players.insert(nickname, r) =~= t1.players);
        let r1 = match form.email {
            Some(e) => with_field(r, PlayerField::Email, e),
            None => r,
        };
        assert(r1 == r || form.email is None);
    }
}

/// Deleting a player removes exactly its row and answers "200 DELETED".
pub proof fn lemma_delete(t: Tables, nickname: Seq<char>)
    ensures
        run_delete(t, nickname) == (
            Tables { players: t.players.remove(nickname), sessions: t.sessions },
            OutcomeView::Reply(ResponseView::Text { status: 200, body: "DELETED"@ }),
        ),
{
    reveal_with_fuel(run, 2);
}

/// Deletes the players `nicknames` one after another, with each answer.
pub open spec fn delete_each(t: Tables, nicknames: Seq<Seq<char>>) -> (Tables, Seq<OutcomeView>)
    decreases nicknames.len(),
{
    if nicknames.len() == 0 {
        (t, Seq::empty())
    } else {
        let (t1, o) = run_delete(t, nicknames[0]);
        let (t2, os) = delete_each(t1, nicknames.drop_first());
        (t2, seq![o] + os)
    }
}

/// Deleting players one after another leaves exactly the others, answering
/// "200 DELETED" to each; deleting every nickname empties the table.
pub proof fn lemma_delete_each(t: Tables, nicknames: Seq<Seq<char>>)
    ensures
        ({
            let (t1, os) = delete_each(t, nicknames);
            &&& os.len() == nicknames.len()
            &&& forall|i: int|
                0 <= i < os.len() ==> #[trigger] os[i] == OutcomeView::Reply(
                    ResponseView::Text { status: 200, body: "DELETED"@ },
                )
            &&& forall|n: Seq<char>| #[trigger]
                t1.players.contains_key(n) <==> t.players.contains_key(n) && !nicknames.contains(n)
            &&& t1.sessions == t.sessions
            &&& (forall|n: Seq<char>| #[trigger]
                t.players.contains_key(n) ==> nicknames.contains(n)) ==> t1.players.dom()
                =~= Set::<Seq<char>>::empty()
        }),
    decreases nicknames.len(),
{
    if nicknames.len() > 0 {
        lemma_delete(t, nicknames[0]);
        let (t1, o) = run_delete(t, nicknames[0]);
        let rest = nicknames.drop_first();
        lemma_delete_each(t1, rest);
        let (t2, os) = delete_each(t1, rest);
        assert forall|n: Seq<char>| #[trigger]
            t2.players.contains_key(n) <==> t.players.contains_key(n) && !nicknames.contains(n) by {
            if nicknames.contains(n) && n != nicknames[0] {
                let i = choose|i: int| 0 <= i < nicknames.len() && nicknames[i] == n;
                assert(rest[i - 1] == n);
            }
            if rest.contains(n) {
                let i = choose|i: int| 0 <= i < rest.len() && rest[i] == n;
                assert(nicknames[i + 1] == n);
            }
            assert(nicknames[0] == nicknames[0]);
        }
        let os_all = seq![o] + os;
        assert forall|i: int| 0 <= i < os_all.len() implies #[trigger] os_all[i]
            == OutcomeView::Reply(ResponseView::Text { status: 200, body: "DELETED"@ }) by {
            if i > 0 {
                assert(os_all[i] == os[i - 1]);
            }
        }
    }
}

/// An update answers "200 UPDATED" exactly when the session it carries
/// belongs to the player named in the request; any other update, one whose
/// session is in no row of `sessions` among them, is turned away and writes
/// nothing.
pub proof fn lemma_update_needs_owner(
    t: Tables,
    nickname: Seq<char>,
    session_hash: Seq<char>,
    form: PlayerUpdateFormView,
)
    ensures
        !(t.sessions.contains_key(session_hash) && t.sessions[session_hash].player == nickname)
            ==> run_update(t, nickname, session_hash, form) == (t, OutcomeView::Reject),
        run_update(t, nickname, session_hash, form).1 == OutcomeView::Reply(
            ResponseView::Text { status: 200, body: "UPDATED"@ },
        ) <==> t.sessions.contains_key(session_hash) && t.sessions[session_hash].player
            == nickname,
{
    reveal_with_fuel(run, 2);
    if t.sessions.contains_key(session_hash) && t.sessions[session_hash].player == nickname {
        lemma_update_idempotent(t, nickname, session_hash, form);
    }
}

/// Player info on a nickname that is none of `RESERVED_NICKNAMES` looks the
/// player up: a registered player is shown with the password hash masked,
/// an unknown nickname is turned away, and nothing is written.
pub proof fn lemma_player_info_on_unreserved(t: Tables, nickname: Seq<char>)
    requires
        forall|j: int| 0 <= j < 3 ==> nickname != #[trigger] RESERVED_NICKNAMES@[j]@,
    ensures
        run_info(t, nickname) == (
            t,
            if t.players.contains_key(nickname) {
                OutcomeView::Reply(
                    ResponseView::PlayerJson(
                        PlayerView {
                            nickname,
                            email: t.players[nickname].email,
                            password_hash: masked_password_hash(),
                            has_avatar: t.players[nickname].has_avatar,
                            rating: t.players[nickname].rating,
                        },
                    ),
                )
            } else {
                OutcomeView::Reject
            },
        ),
{
    reveal_with_fuel(run, 2);
    lemma_reserved_exactly_listed(nickname);
}

/// The active session that a login or a registration records for `player`.
pub open spec fn new_session(
    address: Option<Seq<char>>,
    agent: Seq<char>,
    player: Seq<char>,
) -> SessionRecord {
    SessionRecord { address: recorded_address(address), agent, player, is_active: true }
}

/// A login is turned away, writing nothing, when no player has the password
/// hash or the drawn session hash is taken; otherwise it records an active
/// session of a player with that password hash and answers with its cookie.
pub proof fn lemma_login_answers(
    t: Tables,
    address: Option<Seq<char>>,
    agent: Seq<char>,
    auth: Seq<char>,
    fresh: Seq<char>,
)
    ensures
        run_login(t, address, agent, auth, fresh) == if !has_password_hash(t, auth)
            || t.sessions.contains_key(fresh) {
            (t, OutcomeView::Reject)
        } else {
            (
                Tables {
                    players: t.players,
                    sessions: t.sessions.insert(
                        fresh,
                        new_session(address, agent, player_with_password_hash(t, auth)),
                    ),
                },
                OutcomeView::Reply(
                    ResponseView::SessionCookie { status: 200, cookie: session_cookie(fresh) },
                ),
            )
        },
{
    reveal_with_fuel(run, 3);
}

/// A registration under a taken nickname is turned away and writes nothing;
/// otherwise the player is recorded, and then either the drawn session hash
/// is free, a session is recorded and "201 Created" answered with its
/// cookie, or it is taken and the request is turned away with the player
/// left recorded.
pub proof fn lemma_register_answers(
    t: Tables,
    address: Option<Seq<char>>,
    agent: Seq<char>,
    p: PlayerView,
    fresh: Seq<char>,
)
    ensures
        run_register(t, address, agent, p, fresh) == if t.players.contains_key(p.nickname) {
            (t, OutcomeView::Reject)
        } else {
            let players = t.players.insert(p.nickname, registered_record(p));
            if t.sessions.contains_key(fresh) {
                (Tables { players, sessions: t.sessions }, OutcomeView::Reject)
            } else {
                (
                    Tables {
                        players,
                        sessions: t.sessions.insert(fresh, new_session(address, agent, p.nickname)),
                    },
                    OutcomeView::Reply(
                        ResponseView::SessionCookie { status: 201, cookie: session_cookie(fresh) },
                    ),
                )
            }
        },
{
    reveal_with_fuel(run, 3);
}

/// Who-am-I only reads, and names the owner of the session with its avatar
/// flag when the session and its player are both on record; anything else is
/// turned away.
pub proof fn lemma_whoami_answers(t: Tables, session_hash: Seq<char>)
    ensures
        run_whoami(t, session_hash) == (
            t,
            if t.sessions.contains_key(session_hash) && t.players.contains_key(
                t.sessions[session_hash].player,
            ) {
                OutcomeView::Reply(
                    ResponseView::WhoAmI(
                        WhoAmIView {
                            nickname: t.sessions[session_hash].player,
                            has_avatar: t.players[t.sessions[session_hash].player].has_avatar,
                        },
                    ),
                )
            } else {
                OutcomeView::Reject
            },
        ),
{
    reveal_with_fuel(run, 3);
}

/// A session that a login or a registration opens over a known connection
/// records that connection's address and the request's user agent.
pub proof fn lemma_session_records_connection(
    t: Tables,
    address: Seq<char>,
    agent: Seq<char>,
    auth: Seq<char>,
    p: PlayerView,
    fresh: Seq<char>,
)
    requires
        !t.sessions.contains_key(fresh),
    ensures
        ({
            let t1 = run_login(t, Some(address), agent, auth, fresh).0;
            t1.sessions.contains_key(fresh) ==> t1.sessions[fresh].address == address
                && t1.sessions[fresh].agent == agent
        }),
        ({
            let t1 = run_register(t, Some(address), agent, p, fresh).0;
            t1.sessions.contains_key(fresh) ==> t1.sessions[fresh].address == address
                && t1.sessions[fresh].agent == agent
        }),
{
    lemma_login_answers(t, Some(address), agent, auth, fresh);
    lemma_register_answers(t, Some(address), agent, p, fresh);
}

} // verus!
