//! Users: records and their rows.

use crate::organization::Organization;
use crate::rows::{take_big, take_key, take_text, SqlValue};
use crate::save::Save;
use crate::text::{fresh_key, key_parse_of, key_text, key_text_of, now_seconds, parse_key, LAST_TIMESTAMP};
use vstd::prelude::*;

verus! {

/// A person who signs in, with the chat account they signed in with.
#[derive(Clone, Debug)]
pub struct User {
    pub key: u128,
    pub organization_key: u128,
    pub email: String,
    pub matrix_user_id: String,
    pub matrix_home_server: String,
    pub created: i64,
    pub updated: i64,
}

impl User {
    /// The row stored for this record, in the column order of the `users` table.
    pub open spec fn row_spec(self) -> Seq<SqlValue> {
        seq![
            SqlValue::Key(self.key),
            SqlValue::Key(self.organization_key),
            SqlValue::Text(self.email),
            SqlValue::Text(self.matrix_user_id),
            SqlValue::Text(self.matrix_home_server),
            SqlValue::BigInt(self.created),
            SqlValue::BigInt(self.updated),
        ]
    }

    /// The record a stored row reads as, if every column holds a value of its type.
    pub open spec fn spec_from_row(row: Seq<SqlValue>) -> Option<User> {
        if row.len() == 7
            && row[0] is Key
            && row[1] is Key
            && row[2] is Text
            && row[3] is Text
            && row[4] is Text
            && row[5] is BigInt
            && row[6] is BigInt {
            Some(User {
                key: row[0]->Key_0,
                organization_key: row[1]->Key_0,
                email: row[2]->Text_0,
                matrix_user_id: row[3]->Text_0,
                matrix_home_server: row[4]->Text_0,
                created: row[5]->BigInt_0,
                updated: row[6]->BigInt_0,
            })
        } else {
            None
        }
    }

    /// The row stored for this record, in the column order of the `users` table.
    pub fn to_row(self) -> (r: Vec<SqlValue>)
        ensures
            r@ == self.row_spec(),
    {
        let mut row: Vec<SqlValue> = Vec::new();
        row.push(SqlValue::Key(self.key));
        row.push(SqlValue::Key(self.organization_key));
        row.push(SqlValue::Text(self.email));
        row.push(SqlValue::Text(self.matrix_user_id));
        row.push(SqlValue::Text(self.matrix_home_server));
        row.push(SqlValue::BigInt(self.created));
        row.push(SqlValue::BigInt(self.updated));
        proof {
            assert(row@ =~= self.row_spec());
        }
        row
    }

    /// Reads a stored row back; `None` when a column is missing or of another type.
    pub fn from_row(row: Vec<SqlValue>) -> (r: Option<User>)
        ensures
            r == User::spec_from_row(row@),
    {
        let mut row = row;
        if row.len() != 7 {
            return None;
        }
        let updated = match take_big(&mut row) {
            Some(v) => v,
            None => return None,
        };
        let created = match take_big(&mut row) {
            Some(v) => v,
            None => return None,
        };
        let matrix_home_server = match take_text(&mut row) {
            Some(v) => v,
            None => return None,
        };
        let matrix_user_id = match take_text(&mut row) {
            Some(v) => v,
            None => return None,
        };
        let email = match take_text(&mut row) {
            Some(v) => v,
            None => return None,
        };
        let organization_key = match take_key(&mut row) {
            Some(v) => v,
            None => return None,
        };
        let key = match take_key(&mut row) {
            Some(v) => v,
            None => return None,
        };
        Some(User {
            key,
            organization_key,
            email,
            matrix_user_id,
            matrix_home_server,
            created,
            updated,
        })
    }

    /// A new record: created now, never updated.
    pub fn new(
        key: u128,
        organization_key: u128,
        email: String,
        matrix_user_id: String,
        matrix_home_server: String,
    ) -> (r: User)
        ensures
            r.key == key,
            r.organization_key == organization_key,
            r.email == email,
            r.matrix_user_id == matrix_user_id,
            r.matrix_home_server == matrix_home_server,
            r.updated == 0,
    {
        let created = now_seconds();
        User {
            key,
            organization_key,
            email,
            matrix_user_id,
            matrix_home_server,
            created,
            updated: 0,
        }
    }
}

/// A User written as a row reads back as the same User, field for field.
pub proof fn lemma_user_row_round_trip(x: User)
    ensures
        User::spec_from_row(x.row_spec()) == Some(x),
{
}

impl User {
    /// A copy of this user, field for field.
    pub fn copied(&self) -> (r: User)
        ensures
            r == *self,
    {
        User {
            key: self.key,
            organization_key: self.organization_key,
            email: self.email.clone(),
            matrix_user_id: self.matrix_user_id.clone(),
            matrix_home_server: self.matrix_home_server.clone(),
            created: self.created,
            updated: self.updated,
        }
    }

    /// The text a user is shown as: their email.
    pub fn to_string(&self) -> (r: String)
        ensures
            r == self.email,
    {
        self.email.clone()
    }
}

/// A password sign-in form.
#[derive(Clone, Debug)]
pub struct LoginPostRequest {
    pub uid: String,
    pub secret: String,
    pub homeserver: String,
}

/// A sign-up form.
#[derive(Clone, Debug)]
pub struct RegisterUser {
    pub email: String,
    pub organization: String,
}

/// A sign-in by email.
#[derive(Clone, Debug)]
pub struct LoginData {
    pub email: String,
}

/// Seconds a session stays valid after it is issued: two hours.
pub const SESSION_SECONDS: i64 = 7200;

/// The claims a signed session token carries: who the caller is, and the
/// chat credentials bound to the session.
#[derive(Clone, Debug)]
pub struct UserJwtState {
    pub key: String,
    pub organization_key: String,
    pub email: String,
    pub created: i64,
    pub matrix_user_id: String,
    pub matrix_access_token: String,
    pub matrix_device_id: String,
    pub matrix_refresh_token: String,
    pub matrix_home_server: String,
    pub updated: i64,
    pub exp: i64,
}

/// Why a request is not signed in. All three are the same outcome to the
/// caller: unauthenticated.
#[derive(Clone, Copy, Debug, PartialEq, Eq, Structural)]
pub enum AuthError {
    /// No session token, or one whose signature or shape is wrong.
    Missing,
    /// A well-signed session whose expiry time has passed.
    Expired,
    /// A well-signed session whose keys are not keys.
    Malformed,
}

/// Whether claims were issued for this user with these chat credentials.
pub open spec fn issued_for(
    c: UserJwtState,
    u: User,
    access_token: Seq<char>,
    device_id: Seq<char>,
    refresh_token: Seq<char>,
) -> bool {
    &&& c.key@ == key_text_of(u.key)
    &&& c.organization_key@ == key_text_of(u.organization_key)
    &&& c.email == u.email
    &&& c.matrix_user_id == u.matrix_user_id
    &&& c.matrix_home_server == u.matrix_home_server
    &&& c.matrix_access_token@ == access_token
    &&& c.matrix_device_id@ == device_id
    &&& c.matrix_refresh_token@ == refresh_token
    &&& c.created == u.created
    &&& c.updated == u.updated
}

impl UserJwtState {
    /// Claims for a user, issued at `now`, that expire two hours later.
    pub fn for_user(
        u: &User,
        matrix_access_token: String,
        matrix_device_id: String,
        matrix_refresh_token: String,
        now: i64,
    ) -> (r: UserJwtState)
        requires
            now <= i64::MAX - SESSION_SECONDS,
        ensures
            issued_for(r, *u, matrix_access_token@, matrix_device_id@, matrix_refresh_token@),
            r.exp == now + SESSION_SECONDS,
    {
        UserJwtState {
            key: key_text(u.key),
            organization_key: key_text(u.organization_key),
            email: u.email.clone(),
            created: u.created,
            matrix_user_id: u.matrix_user_id.clone(),
            matrix_access_token,
            matrix_device_id,
            matrix_refresh_token,
            matrix_home_server: u.matrix_home_server.clone(),
            updated: u.updated,
            exp: now + SESSION_SECONDS,
        }
    }
}

/// Claims for a user, issued now: they expire two hours from now.
pub fn issue_claims(
    u: &User,
    matrix_access_token: String,
    matrix_device_id: String,
    matrix_refresh_token: String,
) -> (r: UserJwtState)
    ensures
        issued_for(r, *u, matrix_access_token@, matrix_device_id@, matrix_refresh_token@),
        SESSION_SECONDS <= r.exp <= LAST_TIMESTAMP + SESSION_SECONDS,
{
    let now = now_seconds();
    UserJwtState::for_user(u, matrix_access_token, matrix_device_id, matrix_refresh_token, now)
}

/// Whether a session's expiry time has passed at `now`.
pub fn user_jwt_state_invalid(claims: &UserJwtState, now: i64) -> (r: bool)
    ensures
        r == (claims.exp < now),
{
    claims.exp < now
}

/// Why a request is refused, if it is: no valid session, or an expired one.
pub fn jwt_invalid(claims: &Option<UserJwtState>, now: i64) -> (r: Option<AuthError>)
    ensures
        claims is None ==> r == Some(AuthError::Missing),
        claims matches Some(c) ==> r == (if c.exp < now {
            Some(AuthError::Expired)
        } else {
            None::<AuthError>
        }),
{
    match claims {
        None => Some(AuthError::Missing),
        Some(c) => {
            if user_jwt_state_invalid(c, now) {
                Some(AuthError::Expired)
            } else {
                None
            }
        },
    }
}

/// The signed-in user a request's session names at `now`, or why there is none.
pub open spec fn session_user(claims: Option<UserJwtState>, now: i64) -> Result<User, AuthError> {
    match claims {
        None => Err(AuthError::Missing),
        Some(c) => if c.exp < now {
            Err(AuthError::Expired)
        } else if key_parse_of(c.key@) is Some && key_parse_of(c.organization_key@) is Some {
            Ok(
                User {
                    key: key_parse_of(c.key@)->0,
                    organization_key: key_parse_of(c.organization_key@)->0,
                    email: c.email,
                    matrix_user_id: c.matrix_user_id,
                    matrix_home_server: c.matrix_home_server,
                    created: c.created,
                    updated: c.updated,
                },
            )
        } else {
            Err(AuthError::Malformed)
        },
    }
}

/// The signed-in user of a request whose session token decoded to `claims`
/// (`None` when the token is absent or its signature or shape is wrong). A
/// session whose expiry time has passed is refused like a missing one.
pub fn user_or_error(claims: Option<UserJwtState>, now: i64) -> (r: Result<User, AuthError>)
    ensures
        r == session_user(claims, now),
        claims is None ==> r == Err::<User, AuthError>(AuthError::Missing),
        claims matches Some(c) && c.exp < now ==> r == Err::<User, AuthError>(AuthError::Expired),
{
    match claims {
        None => Err(AuthError::Missing),
        Some(c) => {
            if user_jwt_state_invalid(&c, now) {
                return Err(AuthError::Expired);
            }
            let key = parse_key(c.key.as_str());
            let organization_key = parse_key(c.organization_key.as_str());
            match (key, organization_key) {
                (Some(key), Some(organization_key)) => Ok(
                    User {
                        key,
                        organization_key,
                        email: c.email,
                        matrix_user_id: c.matrix_user_id,
                        matrix_home_server: c.matrix_home_server,
                        created: c.created,
                        updated: c.updated,
                    },
                ),
                _ => Err(AuthError::Malformed),
            }
        },
    }
}

/// A request without a session, or with one whose expiry time has passed,
/// is not signed in: every path that asks for the signed-in user refuses it.
pub proof fn lemma_no_valid_session_is_unauthenticated(claims: Option<UserJwtState>, now: i64)
    requires
        claims is None || claims->0.exp < now,
    ensures
        session_user(claims, now) is Err,
{
}

/// Saves a user's changes sent by a client: refused without a signed-in
/// user, a bad request without a readable body, and otherwise the stored
/// user with that key is replaced. Users are never created here.
pub fn update(session: &Result<User, AuthError>, body: Option<User>) -> (r: Save<User>)
    ensures
        session is Err ==> r is Unauthenticated,
        session is Ok && body is None ==> r is BadRequest,
        session is Ok && body is Some ==> r == Save::Update(body->0),
{
    if let Err(_) = session {
        return Save::Unauthenticated;
    }
    match body {
        None => Save::BadRequest,
        Some(u) => Save::Update(u),
    }
}

/// A new user together with the organization made for them.
#[derive(Clone, Debug)]
pub struct Signup {
    pub user: User,
    pub organization: Organization,
}

/// Signs up a chat account: a new user, owner of a new organization named
/// "Welcome Inc." whose chat home server is `organization_home_server`.
pub fn signup(
    email: String,
    matrix_user_id: String,
    matrix_home_server: String,
    organization_home_server: String,
) -> (r: Signup)
    ensures
        r.user.key != 0,
        r.user.organization_key == r.organization.key,
        r.user.email == email,
        r.user.matrix_user_id == matrix_user_id,
        r.user.matrix_home_server == matrix_home_server,
        r.user.updated == 0,
        r.organization.owner_key == r.user.key,
        r.organization.name@ == "Welcome Inc."@,
        r.organization.matrix_home_server == organization_home_server,
        r.organization.external_accounting_id@ == Seq::<char>::empty(),
        r.organization.external_accounting_url@ == Seq::<char>::empty(),
        r.organization.description@ == Seq::<char>::empty(),
        r.organization.matrix_live_support_room_url@ == Seq::<char>::empty(),
        r.organization.matrix_general_room_url@ == Seq::<char>::empty(),
        r.organization.domain@ == Seq::<char>::empty(),
        r.organization.contact_email@ == Seq::<char>::empty(),
        r.organization.updated == 0,
{
    let organization_key = fresh_key();
    let key = fresh_key();
    let user = User::new(key, organization_key, email, matrix_user_id, matrix_home_server);
    let organization = Organization::new(
        organization_key,
        String::new(),
        String::new(),
        key,
        "Welcome Inc.".to_owned(),
        String::new(),
        organization_home_server,
        String::new(),
        String::new(),
        String::new(),
        String::new(),
    );
    Signup { user, organization }
}

/// Why a password sign-in is refused.
#[derive(Clone, Copy, Debug, PartialEq, Eq, Structural)]
pub enum LoginError {
    /// The chat server answered without an access token.
    NoAccessToken,
}

/// Who a password sign-in signs in: the known user of that chat account, or
/// a new user with a new organization when the account is not known yet.
/// Refused when the chat server gave no access token.
pub fn login_post(
    access_token: &str,
    known: Option<User>,
    email: String,
    matrix_user_id: String,
    home_server: String,
) -> (r: Result<(User, Option<Organization>), LoginError>)
    ensures
        access_token@.len() == 0 ==> r == Err::<(User, Option<Organization>), LoginError>(
            LoginError::NoAccessToken,
        ),
        access_token@.len() > 0 && known is Some ==> r == Ok::<(User, Option<Organization>), LoginError>(
            (known->0, None),
        ),
        access_token@.len() > 0 && known is None ==> (r matches Ok((u, Some(o))) && u.key != 0
            && u.organization_key == o.key && o.owner_key == u.key && u.email == email
            && u.matrix_user_id == matrix_user_id && u.matrix_home_server == home_server
            && o.matrix_home_server == home_server && o.name@ == "Welcome Inc."@),
{
    if access_token.unicode_len() == 0 {
        return Err(LoginError::NoAccessToken);
    }
    match known {
        Some(u) => Ok((u, None)),
        None => {
            let hs = home_server.clone();
            let s = signup(email, matrix_user_id, home_server, hs);
            Ok((s.user, Some(s.organization)))
        },
    }
}

/// Who a single-sign-on sign-in signs in: the known user of that chat
/// account, with the chat identity the server just confirmed; `None` when the
/// account is not known, and the caller is sent to sign up.
pub fn login_matrix(known: Option<User>, matrix_user_id: String, matrix_home_server: String) -> (r: Option<User>)
    ensures
        known is None ==> r is None,
        known matches Some(u) ==> r == Some(
            User { matrix_user_id: matrix_user_id, matrix_home_server: matrix_home_server, ..u },
        ),
{
    match known {
        None => None,
        Some(u) => Some(User { matrix_user_id, matrix_home_server, ..u }),
    }
}

} // verus!
