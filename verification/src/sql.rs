use vstd::prelude::*;
use crate::db::{
    params_of, shape_of, sql_of, DbReplyView, DbRequestView, PlayerField, ReplyShape, SqlValueView,
};
use crate::tables::{
    apply, has_password_hash, player_with_password_hash, PlayerRecord, SessionRecord, Tables,
};

verus! {

/// What one column of a row holds, as SQL sees it.
pub enum Cell {
    Text(Seq<char>),
    Bool(bool),
    Int(u32),
    Null,
    /// The table has no column of that name.
    NoColumn,
}

/// The value that a bound parameter puts in a column.
pub open spec fn cell_of_param(v: SqlValueView) -> Cell {
    match v {
        SqlValueView::Text(s) => Cell::Text(s),
        SqlValueView::Bool(b) => Cell::Bool(b),
    }
}

/// The column `col` of the row of `players` whose nickname is `nickname`.
pub open spec fn player_cell(nickname: Seq<char>, r: PlayerRecord, col: Seq<char>) -> Cell {
    if col == "nickname"@ {
        Cell::Text(nickname)
    } else if col == "email"@ {
        Cell::Text(r.email)
    } else if col == "password_hash"@ {
        Cell::Text(r.password_hash)
    } else if col == "has_avatar"@ {
        Cell::Bool(r.has_avatar)
    } else if col == "rating"@ {
        match r.rating {
            Some(v) => Cell::Int(v),
            None => Cell::Null,
        }
    } else {
        Cell::NoColumn
    }
}

/// The column `col` of the row of `sessions` whose hash is `hash`.
pub open spec fn session_cell(hash: Seq<char>, r: SessionRecord, col: Seq<char>) -> Cell {
    if col == "hash"@ {
        Cell::Text(hash)
    } else if col == "address"@ {
        Cell::Text(r.address)
    } else if col == "agent"@ {
        Cell::Text(r.agent)
    } else if col == "player"@ {
        Cell::Text(r.player)
    } else if col == "is_active"@ {
        Cell::Bool(r.is_active)
    } else {
        Cell::NoColumn
    }
}

/// The column that keys the rows of `table`.
pub open spec fn key_column(table: Seq<char>) -> Seq<char> {
    if table == "players"@ {
        "nickname"@
    } else {
        "hash"@
    }
}

/// Whether `table` has a row keyed by `k`.
pub open spec fn has_row(t: Tables, table: Seq<char>, k: Seq<char>) -> bool {
    if table == "players"@ {
        t.players.contains_key(k)
    } else if table == "sessions"@ {
        t.sessions.contains_key(k)
    } else {
        false
    }
}

/// The column `col` of the row of `table` keyed by `k`.
pub open spec fn cell(t: Tables, table: Seq<char>, k: Seq<char>, col: Seq<char>) -> Cell {
    if table == "players"@ {
        player_cell(k, t.players[k], col)
    } else if table == "sessions"@ {
        session_cell(k, t.sessions[k], col)
    } else {
        Cell::NoColumn
    }
}

/// Whether the row of `table` keyed by `k` exists and holds `v` in `col`.
pub open spec fn matches_row(
    t: Tables,
    table: Seq<char>,
    k: Seq<char>,
    col: Seq<char>,
    v: SqlValueView,
) -> bool {
    has_row(t, table, k) && cell(t, table, k, col) == cell_of_param(v)
}

/// The columns `cols` of the row of `table` keyed by `k`, in order.
pub open spec fn row_cells(t: Tables, table: Seq<char>, k: Seq<char>, cols: Seq<Seq<char>>) -> Seq<
    Cell,
> {
    cols.map_values(|c: Seq<char>| cell(t, table, k, c))
}

/// The columns that a reply carries, in order.
pub open spec fn reply_cells(reply: DbReplyView) -> Seq<Cell> {
    match reply {
        DbReplyView::Text(s) => seq![Cell::Text(s)],
        DbReplyView::Flag(b) => seq![Cell::Bool(b)],
        DbReplyView::PlayerRow { nickname, email, has_avatar, rating } => seq![
            Cell::Text(nickname),
            Cell::Text(email),
            Cell::Bool(has_avatar),
            match rating {
                Some(v) => Cell::Int(v),
                None => Cell::Null,
            },
        ],
        _ => Seq::empty(),
    }
}

/// `items` separated by ", ".
pub open spec fn join(items: Seq<Seq<char>>) -> Seq<char>
    decreases items.len(),
{
    if items.len() == 0 {
        Seq::empty()
    } else if items.len() == 1 {
        items[0]
    } else {
        items[0] + ", "@ + join(items.drop_first())
    }
}

/// `select cols from table where key = ?1;`
pub open spec fn select_sql(cols: Seq<Seq<char>>, table: Seq<char>, key: Seq<char>) -> Seq<char> {
    "select "@ + join(cols) + " from "@ + table + " where "@ + key + " = ?1;"@
}

/// Whether `q` is the statement `select cols from table where key = ?1;`,
/// with its one parameter, and the tables answer it as SQL would: they are
/// left as they were, a row whose `key` holds the parameter gives its
/// columns `cols`, and where there is none the statement fails.
pub open spec fn is_select(
    t: Tables,
    q: DbRequestView,
    table: Seq<char>,
    cols: Seq<Seq<char>>,
    key: Seq<char>,
) -> bool {
    let p = params_of(q);
    let (t1, reply) = apply(t, q);
    &&& sql_of(q) == select_sql(cols, table, key)
    &&& p.len() == 1
    &&& t1 == t
    &&& (exists|k: Seq<char>| #[trigger] matches_row(t, table, k, key, p[0])) ==> exists|
        k: Seq<char>,
    |
        #[trigger] matches_row(t, table, k, key, p[0]) && reply_cells(reply) == row_cells(
            t,
            table,
            k,
            cols,
        )
    &&& !(exists|k: Seq<char>| #[trigger] matches_row(t, table, k, key, p[0])) ==> reply
        == DbReplyView::Failed
}

/// `count` placeholders `?1, ?2, ...`, in order (up to nine).
pub open spec fn placeholders(count: nat) -> Seq<Seq<char>> {
    Seq::new(count, |i: int| seq!['?', "123456789"@[i]])
}

/// `insert into table (cols) values (?1, ?2, ...);`
pub open spec fn insert_sql(table: Seq<char>, cols: Seq<Seq<char>>) -> Seq<char> {
    "insert into "@ + table + " ("@ + join(cols) + ") values ("@ + join(placeholders(cols.len()))
        + ");"@
}

/// `update table set col=?1 where key = ?2;`, or, unspaced and without the
/// semicolon, `update table set col=?1 where key=?2`.
pub open spec fn update_sql(table: Seq<char>, col: Seq<char>, key: Seq<char>, spaced: bool) -> Seq<
    char,
> {
    "update "@ + table + " set "@ + col + "=?1 where "@ + key + if spaced {
        " = ?2;"@
    } else {
        "=?2"@
    }
}

/// `delete from table where key = ?1;`
pub open spec fn delete_sql(table: Seq<char>, key: Seq<char>) -> Seq<char> {
    "delete from "@ + table + " where "@ + key + " = ?1;"@
}

/// Whether `t1` and `reply` are what inserting the row keyed by `k`, with
/// the parameters `p` bound to the columns `cols`, makes of `t`: where the
/// key is taken the statement fails and changes nothing; else exactly that
/// row is added, holding each parameter in its column and NULL in the
/// columns not named.
pub open spec fn inserts_row(
    t: Tables,
    t1: Tables,
    reply: DbReplyView,
    table: Seq<char>,
    k: Seq<char>,
    cols: Seq<Seq<char>>,
    p: Seq<SqlValueView>,
) -> bool {
    if has_row(t, table, k) {
        t1 == t && reply == DbReplyView::Failed
    } else {
        &&& reply == DbReplyView::Executed
        &&& forall|tb: Seq<char>, k2: Seq<char>| #[trigger]
            has_row(t1, tb, k2) == (has_row(t, tb, k2) || (tb == table && k2 == k))
        &&& forall|tb: Seq<char>, k2: Seq<char>, c: Seq<char>|
            has_row(t, tb, k2) ==> #[trigger] cell(t1, tb, k2, c) == cell(t, tb, k2, c)
        &&& forall|i: int|
            0 <= i < cols.len() ==> cell(t1, table, k, #[trigger] cols[i]) == cell_of_param(p[i])
        &&& forall|c: Seq<char>|
            !cols.contains(c) ==> (#[trigger] cell(t1, table, k, c) == Cell::Null || cell(
                t1,
                table,
                k,
                c,
            ) == Cell::NoColumn)
    }
}

/// Whether `q` is the statement `insert into table (cols) values (?1, ...);`,
/// one parameter to each column, the first the table's key, and the tables
/// take it as SQL would.
pub open spec fn is_insert(t: Tables, q: DbRequestView, table: Seq<char>, cols: Seq<Seq<char>>) -> bool {
    let p = params_of(q);
    let (t1, reply) = apply(t, q);
    &&& sql_of(q) == insert_sql(table, cols)
    &&& 0 < cols.len() <= 9
    &&& p.len() == cols.len()
    &&& cols[0] == key_column(table)
    &&& match p[0] {
        SqlValueView::Text(k) => inserts_row(t, t1, reply, table, k, cols, p),
        SqlValueView::Bool(_) => false,
    }
}

/// Whether `q` is the statement `update table set col=?1 where key = ?2`,
/// with its two parameters, and the tables take it as SQL would: no row
/// comes or goes, and in each row whose `key` holds the second parameter,
/// and only there, `col` takes the first.
pub open spec fn is_update(
    t: Tables,
    q: DbRequestView,
    table: Seq<char>,
    col: Seq<char>,
    key: Seq<char>,
    spaced: bool,
) -> bool {
    let p = params_of(q);
    let (t1, reply) = apply(t, q);
    &&& sql_of(q) == update_sql(table, col, key, spaced)
    &&& p.len() == 2
    &&& reply == DbReplyView::Executed
    &&& forall|tb: Seq<char>, k: Seq<char>| #[trigger] has_row(t1, tb, k) == has_row(t, tb, k)
    &&& forall|tb: Seq<char>, k: Seq<char>, c: Seq<char>|
        has_row(t, tb, k) ==> #[trigger] cell(t1, tb, k, c) == if tb == table && c == col
            && matches_row(t, tb, k, key, p[1]) {
            cell_of_param(p[0])
        } else {
            cell(t, tb, k, c)
        }
}

/// Whether `q` is the statement `delete from table where key = ?1;`, with
/// its one parameter, and the tables take it as SQL would: exactly the rows
/// whose `key` holds the parameter go, and the others stay as they were.
pub open spec fn is_delete(t: Tables, q: DbRequestView, table: Seq<char>, key: Seq<char>) -> bool {
    let p = params_of(q);
    let (t1, reply) = apply(t, q);
    &&& sql_of(q) == delete_sql(table, key)
    &&& p.len() == 1
    &&& reply == DbReplyView::Executed
    &&& forall|tb: Seq<char>, k: Seq<char>| #[trigger]
        has_row(t1, tb, k) == (has_row(t, tb, k) && !(tb == table && matches_row(
            t,
            tb,
            k,
            key,
            p[0],
        )))
    &&& forall|tb: Seq<char>, k: Seq<char>, c: Seq<char>|
        has_row(t1, tb, k) ==> #[trigger] cell(t1, tb, k, c) == cell(t, tb, k, c)
}

/// Every statement that reads is a `select` of some columns of the row
/// whose key column holds its parameter, and what the tables answer is what
/// that `select` gives.
#[verifier::rlimit(40)]
pub proof fn lemma_reads_are_selects(t: Tables, q: DbRequestView)
    requires
        q is NicknameByPasswordHash || q is SessionOwner || q is PlayerInfo || q is HasAvatar,
    ensures
        exists|table: Seq<char>, cols: Seq<Seq<char>>, key: Seq<char>|
            #[trigger] is_select(t, q, table, cols, key),
{
    reveal_strlit("select ");
    reveal_strlit(" from ");
    reveal_strlit(" where ");
    reveal_strlit(" = ?1;");
    reveal_strlit(", ");
    reveal_strlit("players");
    reveal_strlit("sessions");
    reveal_strlit("nickname");
    reveal_strlit("email");
    reveal_strlit("password_hash");
    reveal_strlit("has_avatar");
    reveal_strlit("rating");
    reveal_strlit("hash");
    reveal_strlit("address");
    reveal_strlit("agent");
    reveal_strlit("player");
    reveal_strlit("is_active");
    let p = params_of(q);
    let reply = apply(t, q).1;
    match q {
        DbRequestView::NicknameByPasswordHash { password_hash } => {
            reveal_strlit("select nickname from players where password_hash = ?1;");
            let cols = seq!["nickname"@];
            assert(join(cols) == "nickname"@);
            assert(sql_of(q) =~= select_sql(cols, "players"@, "password_hash"@));
            if exists|k: Seq<char>| #[trigger] matches_row(t, "players"@, k, "password_hash"@, p[0]) {
                let k = choose|k: Seq<char>| #[trigger]
                    matches_row(t, "players"@, k, "password_hash"@, p[0]);
                assert(t.players.contains_key(k) && t.players[k].password_hash == password_hash);
                assert(has_password_hash(t, password_hash));
                let n = player_with_password_hash(t, password_hash);
                assert(matches_row(t, "players"@, n, "password_hash"@, p[0]));
                assert(row_cells(t, "players"@, n, cols) =~= reply_cells(reply));
            } else {
                if has_password_hash(t, password_hash) {
                    let n = player_with_password_hash(t, password_hash);
                    assert(matches_row(t, "players"@, n, "password_hash"@, p[0]));
                }
            }
            assert(is_select(t, q, "players"@, cols, "password_hash"@));
        },
        DbRequestView::SessionOwner { session_hash } => {
            reveal_strlit("select player from sessions where hash = ?1;");
            let cols = seq!["player"@];
            assert(join(cols) == "player"@);
            assert(sql_of(q) =~= select_sql(cols, "sessions"@, "hash"@));
            if t.sessions.contains_key(session_hash) {
                assert(matches_row(t, "sessions"@, session_hash, "hash"@, p[0]));
                assert(row_cells(t, "sessions"@, session_hash, cols) =~= reply_cells(reply));
            }
            assert(is_select(t, q, "sessions"@, cols, "hash"@));
        },
        DbRequestView::PlayerInfo { nickname } => {
            reveal_strlit("select nickname, email, has_avatar, rating from players where nickname = ?1;");
            let cols = seq!["nickname"@, "email"@, "has_avatar"@, "rating"@];
            reveal_with_fuel(join, 4);
            assert(cols.drop_first() =~= seq!["email"@, "has_avatar"@, "rating"@]);
            assert(cols.drop_first().drop_first() =~= seq!["has_avatar"@, "rating"@]);
            assert(cols.drop_first().drop_first().drop_first() =~= seq!["rating"@]);
            assert(join(cols) =~= "nickname, email, has_avatar, rating"@) by {
                reveal_strlit("nickname, email, has_avatar, rating");
            }
            assert(sql_of(q) =~= select_sql(cols, "players"@, "nickname"@));
            if t.players.contains_key(nickname) {
                assert(matches_row(t, "players"@, nickname, "nickname"@, p[0]));
                assert(row_cells(t, "players"@, nickname, cols) =~= reply_cells(reply));
            }
            assert(is_select(t, q, "players"@, cols, "nickname"@));
        },
        DbRequestView::HasAvatar { nickname } => {
            reveal_strlit("select has_avatar from players where nickname = ?1;");
            let cols = seq!["has_avatar"@];
            assert(join(cols) == "has_avatar"@);
            assert(sql_of(q) =~= select_sql(cols, "players"@, "nickname"@));
            if t.players.contains_key(nickname) {
                assert(matches_row(t, "players"@, nickname, "nickname"@, p[0]));
                assert(row_cells(t, "players"@, nickname, cols) =~= reply_cells(reply));
            }
            assert(is_select(t, q, "players"@, cols, "nickname"@));
        },
        _ => {},
    }
}

/// Both inserts name their columns and bind, in the same order, the
/// request's own values to them: the row that the tables add is the one
/// that the SQL text with its parameters adds.
#[verifier::rlimit(40)]
pub proof fn lemma_inserts(t: Tables, q: DbRequestView)
    requires
        q is InsertPlayer || q is InsertSession,
    ensures
        exists|table: Seq<char>, cols: Seq<Seq<char>>| #[trigger] is_insert(t, q, table, cols),
{
    reveal_strlit("insert into ");
    reveal_strlit(" (");
    reveal_strlit(") values (");
    reveal_strlit(");");
    reveal_strlit(", ");
    reveal_strlit("123456789");
    reveal_strlit("players");
    reveal_strlit("sessions");
    reveal_strlit("nickname");
    reveal_strlit("email");
    reveal_strlit("password_hash");
    reveal_strlit("has_avatar");
    reveal_strlit("rating");
    reveal_strlit("hash");
    reveal_strlit("address");
    reveal_strlit("agent");
    reveal_strlit("player");
    reveal_strlit("is_active");
    reveal_with_fuel(join, 5);
    let p = params_of(q);
    let (t1, reply) = apply(t, q);
    match q {
        DbRequestView::InsertPlayer { nickname, email, password_hash, has_avatar } => {
            reveal_strlit(
                "insert into players (nickname, email, password_hash, has_avatar) values (?1, ?2, ?3, ?4);",
            );
            reveal_strlit("nickname, email, password_hash, has_avatar");
            reveal_strlit("?1, ?2, ?3, ?4");
            let cols = seq!["nickname"@, "email"@, "password_hash"@, "has_avatar"@];
            assert(cols.drop_first() =~= seq!["email"@, "password_hash"@, "has_avatar"@]);
            assert(cols.drop_first().drop_first() =~= seq!["password_hash"@, "has_avatar"@]);
            assert(cols.drop_first().drop_first().drop_first() =~= seq!["has_avatar"@]);
            assert(join(cols) =~= "nickname, email, password_hash, has_avatar"@);
            let ph = placeholders(4);
            assert(ph[0] =~= "?1"@) by { reveal_strlit("?1"); }
            assert(ph[1] =~= "?2"@) by { reveal_strlit("?2"); }
            assert(ph[2] =~= "?3"@) by { reveal_strlit("?3"); }
            assert(ph[3] =~= "?4"@) by { reveal_strlit("?4"); }
            assert(ph.drop_first() =~= seq![ph[1], ph[2], ph[3]]);
            assert(ph.drop_first().drop_first() =~= seq![ph[2], ph[3]]);
            assert(ph.drop_first().drop_first().drop_first() =~= seq![ph[3]]);
            assert(join(ph) =~= "?1, ?2, ?3, ?4"@);
            assert(sql_of(q) =~= insert_sql("players"@, cols));
            if !t.players.contains_key(nickname) {
                assert forall|i: int| 0 <= i < cols.len() implies cell(
                    t1,
                    "players"@,
                    nickname,
                    #[trigger] cols[i],
                ) == cell_of_param(p[i]) by {}
                assert forall|c: Seq<char>| !cols.contains(c) implies (#[trigger] cell(
                    t1,
                    "players"@,
                    nickname,
                    c,
                ) == Cell::Null || cell(t1, "players"@, nickname, c) == Cell::NoColumn) by {
                    assert(c != cols[0] && c != cols[1] && c != cols[2] && c != cols[3]);
                }
            }
            assert(is_insert(t, q, "players"@, cols));
        },
        DbRequestView::InsertSession { session_hash, address, agent, player } => {
            reveal_strlit(
                "insert into sessions (hash, address, agent, player, is_active) values (?1, ?2, ?3, ?4, ?5);",
            );
            reveal_strlit("hash, address, agent, player, is_active");
            reveal_strlit("?1, ?2, ?3, ?4, ?5");
            let cols = seq!["hash"@, "address"@, "agent"@, "player"@, "is_active"@];
            assert(cols.drop_first() =~= seq!["address"@, "agent"@, "player"@, "is_active"@]);
            assert(cols.drop_first().drop_first() =~= seq!["agent"@, "player"@, "is_active"@]);
            assert(cols.drop_first().drop_first().drop_first() =~= seq!["player"@, "is_active"@]);
            assert(cols.drop_first().drop_first().drop_first().drop_first() =~= seq!["is_active"@]);
            assert(join(cols) =~= "hash, address, agent, player, is_active"@);
            let ph = placeholders(5);
            assert(ph[0] =~= "?1"@) by { reveal_strlit("?1"); }
            assert(ph[1] =~= "?2"@) by { reveal_strlit("?2"); }
            assert(ph[2] =~= "?3"@) by { reveal_strlit("?3"); }
            assert(ph[3] =~= "?4"@) by { reveal_strlit("?4"); }
            assert(ph[4] =~= "?5"@) by { reveal_strlit("?5"); }
            assert(ph.drop_first() =~= seq![ph[1], ph[2], ph[3], ph[4]]);
            assert(ph.drop_first().drop_first() =~= seq![ph[2], ph[3], ph[4]]);
            assert(ph.drop_first().drop_first().drop_first() =~= seq![ph[3], ph[4]]);
            assert(ph.drop_first().drop_first().drop_first().drop_first() =~= seq![ph[4]]);
            assert(join(ph) =~= "?1, ?2, ?3, ?4, ?5"@);
            assert(sql_of(q) =~= insert_sql("sessions"@, cols));
            if !t.sessions.contains_key(session_hash) {
                assert forall|i: int| 0 <= i < cols.len() implies cell(
                    t1,
                    "sessions"@,
                    session_hash,
                    #[trigger] cols[i],
                ) == cell_of_param(p[i]) by {}
                assert forall|c: Seq<char>| !cols.contains(c) implies (#[trigger] cell(
                    t1,
                    "sessions"@,
                    session_hash,
                    c,
                ) == Cell::Null || cell(t1, "sessions"@, session_hash, c) == Cell::NoColumn) by {
                    assert(c != cols[0] && c != cols[1] && c != cols[2] && c != cols[3] && c
                        != cols[4]);
                }
            }
            assert(is_insert(t, q, "sessions"@, cols));
        },
        _ => {},
    }
}

/// Both updates set one column, to their first parameter, in exactly the
/// rows whose key holds their second.
#[verifier::rlimit(40)]
pub proof fn lemma_updates(t: Tables, q: DbRequestView)
    requires
        q is DeactivateSession || q is UpdatePlayerField,
    ensures
        exists|table: Seq<char>, col: Seq<char>, key: Seq<char>, spaced: bool|
            #[trigger] is_update(t, q, table, col, key, spaced),
{
    reveal_strlit("update ");
    reveal_strlit(" set ");
    reveal_strlit("=?1 where ");
    reveal_strlit(" = ?2;");
    reveal_strlit("=?2");
    reveal_strlit("players");
    reveal_strlit("sessions");
    reveal_strlit("nickname");
    reveal_strlit("email");
    reveal_strlit("password_hash");
    reveal_strlit("has_avatar");
    reveal_strlit("rating");
    reveal_strlit("hash");
    reveal_strlit("address");
    reveal_strlit("agent");
    reveal_strlit("player");
    reveal_strlit("is_active");
    match q {
        DbRequestView::DeactivateSession { session_hash } => {
            reveal_strlit("update sessions set is_active=?1 where hash = ?2;");
            assert(sql_of(q) =~= update_sql("sessions"@, "is_active"@, "hash"@, true));
            assert(is_update(t, q, "sessions"@, "is_active"@, "hash"@, true));
        },
        DbRequestView::UpdatePlayerField { field, value, nickname } => {
            let col = match field {
                PlayerField::Email => "email"@,
                PlayerField::PasswordHash => "password_hash"@,
            };
            reveal_strlit("update players set email=?1 where nickname=?2");
            reveal_strlit("update players set password_hash=?1 where nickname=?2");
            assert(sql_of(q) =~= update_sql("players"@, col, "nickname"@, false));
            assert(is_update(t, q, "players"@, col, "nickname"@, false));
        },
        _ => {},
    }
}

/// Deleting a player removes exactly the row whose nickname is the one
/// given, and no other.
pub proof fn lemma_deletes(t: Tables, q: DbRequestView)
    requires
        q is DeletePlayer,
    ensures
        exists|table: Seq<char>, key: Seq<char>| #[trigger] is_delete(t, q, table, key),
{
    reveal_strlit("delete from ");
    reveal_strlit(" where ");
    reveal_strlit(" = ?1;");
    reveal_strlit("players");
    reveal_strlit("sessions");
    reveal_strlit("nickname");
    reveal_strlit("delete from players where nickname = ?1;");
    assert(sql_of(q) =~= delete_sql("players"@, "nickname"@));
    assert(is_delete(t, q, "players"@, "nickname"@));
}

/// The kind of row that a reply carries; `None` for a failure.
pub open spec fn shape_of_reply(reply: DbReplyView) -> Option<ReplyShape> {
    match reply {
        DbReplyView::Failed => None,
        DbReplyView::Text(_) => Some(ReplyShape::Text),
        DbReplyView::Flag(_) => Some(ReplyShape::Flag),
        DbReplyView::PlayerRow { .. } => Some(ReplyShape::PlayerRow),
        DbReplyView::Executed => Some(ReplyShape::Executed),
    }
}

/// A statement that does not fail gives back the kind of row that its
/// shape announces, so its reply is read the way the handler expects.
pub proof fn lemma_shape_announces_reply(t: Tables, q: DbRequestView)
    ensures
        apply(t, q).1 is Failed || shape_of_reply(apply(t, q).1) == Some(shape_of(q)),
{
}

} // verus!
