use vstd::prelude::*;

verus! {

/// A column of `players` that a player may change.
#[derive(Clone, Copy, PartialEq, Eq, Structural, Debug)]
pub enum PlayerField {
    Email,
    PasswordHash,
}

/// One statement on the database, with its parameters.
#[derive(Debug)]
pub enum DbRequest {
    /// The nickname of the player with this password hash.
    NicknameByPasswordHash { password_hash: String },
    /// Records an active session of `player`.
    InsertSession { session_hash: String, address: String, agent: String, player: String },
    /// The player that a session belongs to.
    SessionOwner { session_hash: String },
    /// Records a new player.
    InsertPlayer { nickname: String, email: String, password_hash: String, has_avatar: bool },
    /// The public columns of a player.
    PlayerInfo { nickname: String },
    /// Whether a player has an avatar.
    HasAvatar { nickname: String },
    /// Marks a session inactive.
    DeactivateSession { session_hash: String },
    /// Sets one column of a player.
    UpdatePlayerField { field: PlayerField, value: String, nickname: String },
    /// Removes a player.
    DeletePlayer { nickname: String },
}

pub enum DbRequestView {
    NicknameByPasswordHash { password_hash: Seq<char> },
    InsertSession { session_hash: Seq<char>, address: Seq<char>, agent: Seq<char>, player: Seq<char> },
    SessionOwner { session_hash: Seq<char> },
    InsertPlayer { nickname: Seq<char>, email: Seq<char>, password_hash: Seq<char>, has_avatar: bool },
    PlayerInfo { nickname: Seq<char> },
    HasAvatar { nickname: Seq<char> },
    DeactivateSession { session_hash: Seq<char> },
    UpdatePlayerField { field: PlayerField, value: Seq<char>, nickname: Seq<char> },
    DeletePlayer { nickname: Seq<char> },
}

impl View for DbRequest {
    type V = DbRequestView;

    open spec fn view(&self) -> DbRequestView {
        match self {
            DbRequest::NicknameByPasswordHash { password_hash } =>
                DbRequestView::NicknameByPasswordHash { password_hash: password_hash@ },
            DbRequest::InsertSession { session_hash, address, agent, player } =>
                DbRequestView::InsertSession {
                    session_hash: session_hash@,
                    address: address@,
                    agent: agent@,
                    player: player@,
                },
            DbRequest::SessionOwner { session_hash } =>
                DbRequestView::SessionOwner { session_hash: session_hash@ },
            DbRequest::InsertPlayer { nickname, email, password_hash, has_avatar } =>
                DbRequestView::InsertPlayer {
                    nickname: nickname@,
                    email: email@,
                    password_hash: password_hash@,
                    has_avatar: *has_avatar,
                },
            DbRequest::PlayerInfo { nickname } => DbRequestView::PlayerInfo { nickname: nickname@ },
            DbRequest::HasAvatar { nickname } => DbRequestView::HasAvatar { nickname: nickname@ },
            DbRequest::DeactivateSession { session_hash } =>
                DbRequestView::DeactivateSession { session_hash: session_hash@ },
            DbRequest::UpdatePlayerField { field, value, nickname } =>
                DbRequestView::UpdatePlayerField {
                    field: *field,
                    value: value@,
                    nickname: nickname@,
                },
            DbRequest::DeletePlayer { nickname } => DbRequestView::DeletePlayer {
                nickname: nickname@,
            },
        }
    }
}

/// What a statement gives back: the row it read, or that it ran.
#[derive(Debug)]
pub enum DbReply {
    /// The statement failed, or read no row, or a column did not convert.
    Failed,
    /// A single text column.
    Text(String),
    /// A single boolean column.
    Flag(bool),
    /// The public columns of a player; a rating that does not read as a
    /// `u32` is `None`.
    PlayerRow { nickname: String, email: String, has_avatar: bool, rating: Option<u32> },
    /// A statement that changes rows ran.
    Executed,
}

pub enum DbReplyView {
    Failed,
    Text(Seq<char>),
    Flag(bool),
    PlayerRow { nickname: Seq<char>, email: Seq<char>, has_avatar: bool, rating: Option<u32> },
    Executed,
}

impl View for DbReply {
    type V = DbReplyView;

    open spec fn view(&self) -> DbReplyView {
        match self {
            DbReply::Failed => DbReplyView::Failed,
            DbReply::Text(s) => DbReplyView::Text(s@),
            DbReply::Flag(b) => DbReplyView::Flag(*b),
            DbReply::PlayerRow { nickname, email, has_avatar, rating } => DbReplyView::PlayerRow {
                nickname: nickname@,
                email: email@,
                has_avatar: *has_avatar,
                rating: *rating,
            },
            DbReply::Executed => DbReplyView::Executed,
        }
    }
}

/// What a statement is expected to give back.
#[derive(Clone, Copy, PartialEq, Eq, Structural, Debug)]
pub enum ReplyShape {
    Text,
    Flag,
    PlayerRow,
    Executed,
}

/// A parameter of a statement.
#[derive(Debug, PartialEq, Eq)]
pub enum SqlValue {
    Text(String),
    Bool(bool),
}

pub enum SqlValueView {
    Text(Seq<char>),
    Bool(bool),
}

impl View for SqlValue {
    type V = SqlValueView;

    open spec fn view(&self) -> SqlValueView {
        match self {
            SqlValue::Text(s) => SqlValueView::Text(s@),
            SqlValue::Bool(b) => SqlValueView::Bool(*b),
        }
    }
}

/// The SQL text of a statement.
pub open spec fn sql_of(req: DbRequestView) -> Seq<char> {
    match req {
        DbRequestView::NicknameByPasswordHash { .. } =>
            "select nickname from players where password_hash = ?1;"@,
        DbRequestView::InsertSession { .. } =>
            "insert into sessions (hash, address, agent, player, is_active) values (?1, ?2, ?3, ?4, ?5);"@,
        DbRequestView::SessionOwner { .. } => "select player from sessions where hash = ?1;"@,
        DbRequestView::InsertPlayer { .. } =>
            "insert into players (nickname, email, password_hash, has_avatar) values (?1, ?2, ?3, ?4);"@,
        DbRequestView::PlayerInfo { .. } =>
            "select nickname, email, has_avatar, rating from players where nickname = ?1;"@,
        DbRequestView::HasAvatar { .. } => "select has_avatar from players where nickname = ?1;"@,
        DbRequestView::DeactivateSession { .. } =>
            "update sessions set is_active=?1 where hash = ?2;"@,
        DbRequestView::UpdatePlayerField { field, .. } => match field {
            PlayerField::Email => "update players set email=?1 where nickname=?2"@,
            PlayerField::PasswordHash => "update players set password_hash=?1 where nickname=?2"@,
        },
        DbRequestView::DeletePlayer { .. } => "delete from players where nickname = ?1;"@,
    }
}

/// The parameters of a statement, in the order of its placeholders.
pub open spec fn params_of(req: DbRequestView) -> Seq<SqlValueView> {
    match req {
        DbRequestView::NicknameByPasswordHash { password_hash } => seq![SqlValueView::Text(password_hash)],
        DbRequestView::InsertSession { session_hash, address, agent, player } => seq![
            SqlValueView::Text(session_hash),
            SqlValueView::Text(address),
            SqlValueView::Text(agent),
            SqlValueView::Text(player),
            SqlValueView::Bool(true),
        ],
        DbRequestView::SessionOwner { session_hash } => seq![SqlValueView::Text(session_hash)],
        DbRequestView::InsertPlayer { nickname, email, password_hash, has_avatar } => seq![
            SqlValueView::Text(nickname),
            SqlValueView::Text(email),
            SqlValueView::Text(password_hash),
            SqlValueView::Bool(has_avatar),
        ],
        DbRequestView::PlayerInfo { nickname } => seq![SqlValueView::Text(nickname)],
        DbRequestView::HasAvatar { nickname } => seq![SqlValueView::Text(nickname)],
        DbRequestView::DeactivateSession { session_hash } => seq![
            SqlValueView::Bool(false),
            SqlValueView::Text(session_hash),
        ],
        DbRequestView::UpdatePlayerField { value, nickname, .. } => seq![
            SqlValueView::Text(value),
            SqlValueView::Text(nickname),
        ],
        DbRequestView::DeletePlayer { nickname } => seq![SqlValueView::Text(nickname)],
    }
}

/// What a statement gives back when it succeeds.
pub open spec fn shape_of(req: DbRequestView) -> ReplyShape {
    match req {
        DbRequestView::NicknameByPasswordHash { .. } => ReplyShape::Text,
        DbRequestView::SessionOwner { .. } => ReplyShape::Text,
        DbRequestView::PlayerInfo { .. } => ReplyShape::PlayerRow,
        DbRequestView::HasAvatar { .. } => ReplyShape::Flag,
        _ => ReplyShape::Executed,
    }
}

impl DbRequest {
    /// The SQL text of this statement.
    pub fn sql(&self) -> (s: &'static str)
        ensures
            s@ == sql_of(self@),
    {
        match self {
            DbRequest::NicknameByPasswordHash { .. } =>
                "select nickname from players where password_hash = ?1;",
            DbRequest::InsertSession { .. } =>
                "insert into sessions (hash, address, agent, player, is_active) values (?1, ?2, ?3, ?4, ?5);",
            DbRequest::SessionOwner { .. } => "select player from sessions where hash = ?1;",
            DbRequest::InsertPlayer { .. } =>
                "insert into players (nickname, email, password_hash, has_avatar) values (?1, ?2, ?3, ?4);",
            DbRequest::PlayerInfo { .. } =>
                "select nickname, email, has_avatar, rating from players where nickname = ?1;",
            DbRequest::HasAvatar { .. } => "select has_avatar from players where nickname = ?1;",
            DbRequest::DeactivateSession { .. } =>
                "update sessions set is_active=?1 where hash = ?2;",
            DbRequest::UpdatePlayerField { field, .. } => match field {
                PlayerField::Email => "update players set email=?1 where nickname=?2",
                PlayerField::PasswordHash =>
                    "update players set password_hash=?1 where nickname=?2",
            },
            DbRequest::DeletePlayer { .. } => "delete from players where nickname = ?1;",
        }
    }

    /// The parameters of this statement, in the order of its placeholders.
    pub fn params(&self) -> (p: Vec<SqlValue>)
        ensures
            p@.map_values(|v: SqlValue| v@) == params_of(self@),
    {
        let mut p: Vec<SqlValue> = Vec::new();
        match self {
            DbRequest::NicknameByPasswordHash { password_hash } => {
                p.push(SqlValue::Text(password_hash.clone()));
            },
            DbRequest::InsertSession { session_hash, address, agent, player } => {
                p.push(SqlValue::Text(session_hash.clone()));
                p.push(SqlValue::Text(address.clone()));
                p.push(SqlValue::Text(agent.clone()));
                p.push(SqlValue::Text(player.clone()));
                p.push(SqlValue::Bool(true));
            },
            DbRequest::SessionOwner { session_hash } => {
                p.push(SqlValue::Text(session_hash.clone()));
            },
            DbRequest::InsertPlayer { nickname, email, password_hash, has_avatar } => {
                p.push(SqlValue::Text(nickname.clone()));
                p.push(SqlValue::Text(email.clone()));
                p.push(SqlValue::Text(password_hash.clone()));
                p.push(SqlValue::Bool(*has_avatar));
            },
            DbRequest::PlayerInfo { nickname } => {
                p.push(SqlValue::Text(nickname.clone()));
            },
            DbRequest::HasAvatar { nickname } => {
                p.push(SqlValue::Text(nickname.clone()));
            },
            DbRequest::DeactivateSession { session_hash } => {
                p.push(SqlValue::Bool(false));
                p.push(SqlValue::Text(session_hash.clone()));
            },
            DbRequest::UpdatePlayerField { value, nickname, .. } => {
                p.push(SqlValue::Text(value.clone()));
                p.push(SqlValue::Text(nickname.clone()));
            },
            DbRequest::DeletePlayer { nickname } => {
                p.push(SqlValue::Text(nickname.clone()));
            },
        }
        assert(p@.map_values(|v: SqlValue| v@) =~= params_of(self@));
        p
    }

    /// What this statement gives back when it succeeds.
    pub fn shape(&self) -> (s: ReplyShape)
        ensures
            s == shape_of(self@),
    {
        match self {
            DbRequest::NicknameByPasswordHash { .. } => ReplyShape::Text,
            DbRequest::SessionOwner { .. } => ReplyShape::Text,
            DbRequest::PlayerInfo { .. } => ReplyShape::PlayerRow,
            DbRequest::HasAvatar { .. } => ReplyShape::Flag,
            _ => ReplyShape::Executed,
        }
    }
}

} // verus!
