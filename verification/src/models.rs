use vstd::prelude::*;
use crate::text::str_eq;

verus! {

/// Nicknames that name API routes and can never belong to a player.
pub const RESERVED_NICKNAMES: [&'static str; 3] = ["register", "login", "whoami"];

/// A registered player, as it is stored and as the API shows it.
#[derive(Debug)]
pub struct Player {
    pub nickname: String,
    pub email: String,
    pub password_hash: String,
    pub has_avatar: bool,
    pub rating: Option<u32>,
}

/// The fields that a player may change on their own profile.
#[derive(Debug)]
pub struct PlayerUpdateForm {
    pub email: Option<String>,
    pub password_hash: Option<String>,
    pub has_avatar: bool,
}

/// What the `whoami` answer tells about the player behind a session.
#[derive(Debug)]
pub struct WhoAmIJSON {
    pub nickname: String,
    pub has_avatar: bool,
}

pub struct PlayerView {
    pub nickname: Seq<char>,
    pub email: Seq<char>,
    pub password_hash: Seq<char>,
    pub has_avatar: bool,
    pub rating: Option<u32>,
}

impl View for Player {
    type V = PlayerView;

    open spec fn view(&self) -> PlayerView {
        PlayerView {
            nickname: self.nickname@,
            email: self.email@,
            password_hash: self.password_hash@,
            has_avatar: self.has_avatar,
            rating: self.rating,
        }
    }
}

pub struct PlayerUpdateFormView {
    pub email: Option<Seq<char>>,
    pub password_hash: Option<Seq<char>>,
    pub has_avatar: bool,
}

impl View for PlayerUpdateForm {
    type V = PlayerUpdateFormView;

    open spec fn view(&self) -> PlayerUpdateFormView {
        PlayerUpdateFormView {
            email: self.email.deep_view(),
            password_hash: self.password_hash.deep_view(),
            has_avatar: self.has_avatar,
        }
    }
}

pub struct WhoAmIView {
    pub nickname: Seq<char>,
    pub has_avatar: bool,
}

impl View for WhoAmIJSON {
    type V = WhoAmIView;

    open spec fn view(&self) -> WhoAmIView {
        WhoAmIView { nickname: self.nickname@, has_avatar: self.has_avatar }
    }
}

/// Whether `nickname` is one of the reserved nicknames.
pub open spec fn is_reserved(nickname: Seq<char>) -> bool {
    ||| nickname == "register"@
    ||| nickname == "login"@
    ||| nickname == "whoami"@
}

/// Whether `nickname` is reserved for a route, so that no player can have it.
pub fn is_reserved_nickname(nickname: &str) -> (r: bool)
    ensures
        r == is_reserved(nickname@),
        r <==> exists|j: int| 0 <= j < 3 && nickname@ == #[trigger] RESERVED_NICKNAMES@[j]@,
{
    let reserved = RESERVED_NICKNAMES;
    let mut i: usize = 0;
    while i < 3
        invariant
            i <= 3,
            reserved@ == RESERVED_NICKNAMES@,
            forall|j: int| 0 <= j < i ==> nickname@ != reserved@[j]@,
        decreases 3 - i,
    {
        if str_eq(nickname, reserved[i]) {
            return true;
        }
        i = i + 1;
    }
    false
}

/// Exactly the listed nicknames are reserved: a nickname is reserved if and
/// only if it equals one of `RESERVED_NICKNAMES`, whatever it starts or
/// ends with.
pub proof fn lemma_reserved_exactly_listed(nickname: Seq<char>)
    ensures
        is_reserved(nickname) <==> exists|j: int|
            0 <= j < 3 && nickname == #[trigger] RESERVED_NICKNAMES@[j]@,
{
    assert(RESERVED_NICKNAMES@[0]@ == "register"@);
    assert(RESERVED_NICKNAMES@[1]@ == "login"@);
    assert(RESERVED_NICKNAMES@[2]@ == "whoami"@);
}

} // verus!
