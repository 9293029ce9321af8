//! The authentication lesson: users who register and log in, JSON Web Tokens
//! whose subject is the user's id, and a middleware that admits the bearer of
//! a valid token.
use vstd::prelude::*;
use crate::ids::{clock_span, fresh_uuid, one_hour_after, parse_uuid, parsed_uuid, unix_now, uuid_text, uuid_to_text};
use crate::text::{join2, same_text};

verus! {

/// A stored user.
#[derive(Debug, Clone, PartialEq, Eq)]
pub struct UserRecord {
    pub id: u128,
    pub username: String,
    pub password: String,
}

/// The body of a register or login request.
#[derive(Debug, Clone, PartialEq, Eq)]
pub struct LoginPayload {
    pub username: String,
    pub password: String,
}

/// The claims a token carries: the user's id as text, and the expiry time.
#[derive(Debug, Clone, PartialEq, Eq)]
pub struct Claims {
    pub sub: String,
    pub exp: usize,
}

/// The user a request was admitted as.
#[derive(Debug, Clone, PartialEq, Eq)]
pub struct CurrentUser {
    pub user_id: u128,
}

/// The errors of the database calls of the lesson.
#[derive(Debug, Clone, PartialEq, Eq)]
pub enum DbError {
    NotFound,
    Sqlx(String),
}

impl DbError {
    /// The text of the error, as its `Display` writes it.
    pub open spec fn spec_message(&self) -> Seq<char> {
        match self {
            DbError::NotFound => "User not found"@,
            DbError::Sqlx(detail) => "Database error: "@ + detail@,
        }
    }

    /// The HTTP status that answers the error.
    pub open spec fn spec_status(&self) -> u16 {
        match self {
            DbError::NotFound => 404,
            DbError::Sqlx(_) => 500,
        }
    }

    /// The answer to the error: its status and its text.
    pub fn into_response(self) -> (r: (u16, String))
        ensures
            r.0 == self.spec_status(),
            r.1@ == self.spec_message(),
    {
        match self {
            DbError::NotFound => (404, String::from_str("User not found")),
            DbError::Sqlx(detail) => (500, join2("Database error: ", detail.as_str())),
        }
    }
}

/// The row a registration of `payload` stores under the id `id`.
pub open spec fn registered_row(payload: LoginPayload, id: u128) -> UserRecord {
    UserRecord { id, username: payload.username, password: payload.password }
}

/// The row a registration inserts: a new random id (a version 4 UUID), and
/// the name and password as they were sent.
pub fn new_user(payload: LoginPayload) -> (r: UserRecord)
    ensures
        r == registered_row(payload, r.id),
        (r.id >> 76u128) & 0xf == 4,
        (r.id >> 62u128) & 0x3 == 2,
{
    UserRecord { id: fresh_uuid(), username: payload.username, password: payload.password }
}

/// The answer to a registration, from the outcome of the insertion.
pub fn register_outcome(inserted: Result<(), String>) -> (r: Result<u16, DbError>)
    ensures
        inserted is Ok ==> r == Ok::<u16, DbError>(201),
        inserted matches Err(e) ==> r == Err::<u16, DbError>(DbError::Sqlx(e)),
{
    match inserted {
        Ok(()) => Ok(201),
        Err(e) => Err(DbError::Sqlx(e)),
    }
}

/// Checks a login against the lookup of the user by name: a failed lookup
/// answers 500, an unknown name or a wrong password 401.
pub fn check_credentials(lookup: Result<Option<UserRecord>, String>, password: &str) -> (r: Result<
    UserRecord,
    u16,
>)
    ensures
        lookup is Err ==> r == Err::<UserRecord, u16>(500),
        lookup == Ok::<Option<UserRecord>, String>(None) ==> r == Err::<UserRecord, u16>(401),
        lookup matches Ok(Some(u)) ==> (if u.password@ == password@ {
            r == Ok::<UserRecord, u16>(u)
        } else {
            r == Err::<UserRecord, u16>(401)
        }),
{
    match lookup {
        Err(_) => Err(500),
        Ok(None) => Err(401),
        Ok(Some(user)) => {
            if same_text(user.password.as_str(), password) {
                Ok(user)
            } else {
                Err(401)
            }
        },
    }
}

/// The claims of a token issued at `now` for the user: the subject is the
/// user's id as hyphenated text, and the token expires one hour later (the
/// timestamp taken as `usize`). `None` only where chrono cannot represent the
/// expiry; the login then fails.
pub fn issue_claims(user_id: u128, now: i64) -> (r: Option<Claims>)
    ensures
        r matches Some(c) ==> c.sub@ == uuid_text(user_id) && c.exp == (now + 3600) as usize,
        -clock_span() <= now <= clock_span() ==> r is Some,
{
    match one_hour_after(now) {
        Some(later) => {
            let sub = uuid_to_text(user_id);
            #[verifier::truncate]
            let exp = later as usize;
            Some(Claims { sub, exp })
        },
        None => None,
    }
}

/// The verdict of a login on the lookup of the user by name: the id of the
/// user to issue a token for, or the status that refuses the login (500 when
/// the lookup failed, 401 for an unknown name or a wrong password).
pub open spec fn login_verdict(lookup: Result<Option<UserRecord>, String>, password: Seq<char>) -> Result<u128, u16> {
    match lookup {
        Err(_) => Err(500),
        Ok(None) => Err(401),
        Ok(Some(u)) => if u.password@ == password {
            Ok(u.id)
        } else {
            Err(401)
        },
    }
}

/// The login at time `now`: the credentials are checked against the lookup,
/// then a token is issued for the user. `Ok(None)` where chrono cannot carry
/// `now` one hour further, so that no token can be issued.
pub fn login_at(lookup: Result<Option<UserRecord>, String>, password: &str, now: i64) -> (r: Result<
    Option<Claims>,
    u16,
>)
    ensures
        match login_verdict(lookup, password@) {
            Err(code) => r == Err::<Option<Claims>, u16>(code),
            Ok(id) => {
                &&& r matches Ok(claims)
                &&& claims matches Some(c) ==> c.sub@ == uuid_text(id) && c.exp == (now + 3600) as usize
                &&& -clock_span() <= now <= clock_span() ==> claims is Some
            },
        },
{
    let user = check_credentials(lookup, password)?;
    Ok(issue_claims(user.id, now))
}

/// The login now; see `login_at`. The time is read from the clock.
pub fn login(lookup: Result<Option<UserRecord>, String>, password: &str) -> (r: Result<
    Option<Claims>,
    u16,
>)
    ensures
        match login_verdict(lookup, password@) {
            Err(code) => r == Err::<Option<Claims>, u16>(code),
            Ok(id) => r matches Ok(claims) && (claims matches Some(c) ==> c.sub@ == uuid_text(id)),
        },
{
    let now = unix_now();
    login_at(lookup, password, now)
}

/// Logging in with the name and password that a registration stored, when
/// the lookup by name finds that row, is granted for the id the registration
/// drew; by `login_at`, within the clock span it issues a token whose subject
/// is that id's text.
pub proof fn law_registered_user_logs_in(payload: LoginPayload, id: u128)
    ensures
        login_verdict(Ok(Some(registered_row(payload, id))), payload.password@) == Ok::<u128, u16>(id),
{
}

/// What is left of an `Authorization` header once its `Bearer ` prefix is
/// removed, or `None` when it has no such prefix.
pub open spec fn strip_bearer(header: Seq<char>) -> Option<Seq<char>> {
    if header.len() >= 7 && header.subrange(0, 7) == "Bearer "@ {
        Some(header.subrange(7, header.len() as int))
    } else {
        None
    }
}

/// The text of an optional piece of text.
pub open spec fn text_of(t: Option<&str>) -> Option<Seq<char>> {
    match t {
        Some(s) => Some(s@),
        None => None,
    }
}

/// The token of an `Authorization: Bearer <token>` header.
pub fn bearer_token(header: Option<&str>) -> (r: Option<&str>)
    ensures
        text_of(r) == match header {
            Some(h) => strip_bearer(h@),
            None => None::<Seq<char>>,
        },
{
    match header {
        None => None,
        Some(h) => {
            let n = h.unicode_len();
            if n < 7 {
                return None;
            }
            let head = h.substring_char(0, 7);
            if same_text(head, "Bearer ") {
                Some(h.substring_char(7, n))
            } else {
                None
            }
        },
    }
}

/// The answer to a token subject, once parsed: an id admits the request as
/// that user, anything else answers 401.
pub open spec fn spec_user_from_subject(parsed: Option<u128>) -> Result<CurrentUser, u16> {
    match parsed {
        Some(v) => Ok(CurrentUser { user_id: v }),
        None => Err(401),
    }
}

/// Admits the request as the user that the parsed subject names.
pub fn user_from_subject(parsed: Option<u128>) -> (r: Result<CurrentUser, u16>)
    ensures
        r == spec_user_from_subject(parsed),
{
    match parsed {
        Some(v) => Ok(CurrentUser { user_id: v }),
        None => Err(401),
    }
}

/// Admits the request as the user whose id is the token's subject. The
/// subject of a token issued for a user admits that very user.
pub fn current_user(subject: &str) -> (r: Result<CurrentUser, u16>)
    ensures
        r == spec_user_from_subject(parsed_uuid(subject@)),
        forall|v: u128| #[trigger] uuid_text(v) == subject@ ==> r == Ok::<CurrentUser, u16>(
            CurrentUser { user_id: v },
        ),
{
    let parsed = parse_uuid(subject);
    user_from_subject(parsed)
}

/// The middleware's decision once the token was decoded: no valid token
/// answers 401, and a valid one admits the user its subject names.
pub fn authorize_claims(decoded: Option<Claims>) -> (r: Result<CurrentUser, u16>)
    ensures
        decoded is None ==> r == Err::<CurrentUser, u16>(401),
        decoded matches Some(c) ==> r == spec_user_from_subject(parsed_uuid(c.sub@)),
        decoded matches Some(c) ==> forall|v: u128| #[trigger] uuid_text(v) == c.sub@ ==> r
            == Ok::<CurrentUser, u16>(CurrentUser { user_id: v }),
{
    match decoded {
        None => Err(401),
        Some(claims) => current_user(claims.sub.as_str()),
    }
}

/// The page of the protected dashboard, which greets the user by id.
pub fn secret_dashboard(user: &CurrentUser) -> (r: String)
    ensures
        r@ == "Chào sếp có ID là: "@ + uuid_text(user.user_id) + ". Đây là dữ liệu tối mật!"@,
{
    let id = uuid_to_text(user.user_id);
    let head = join2("Chào sếp có ID là: ", id.as_str());
    join2(head.as_str(), ". Đây là dữ liệu tối mật!")
}

/// A header made of `Bearer ` and a token gives back that token.
pub proof fn law_bearer_round_trip(token: Seq<char>)
    ensures
        strip_bearer("Bearer "@ + token) == Some(token),
{
    reveal_strlit("Bearer ");
    let h = "Bearer "@ + token;
    assert(h.subrange(0, 7) =~= "Bearer "@);
    assert(h.subrange(7, h.len() as int) =~= token);
}

} // verus!
