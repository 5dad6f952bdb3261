//! The decision cores of the auth endpoints and the auth gate. Each
//! function takes what the surrounding request handler has already
//! fetched (the parsed body, the store's answer, the clock) and decides
//! the outcome; the handler only performs the store calls and
//! serializes the result.

use vstd::prelude::*;

use crate::carrier;
use crate::carrier::{extracted_token_spec, login_cookie_spec};
use crate::email::{ascii_lower, normalize_email};
use crate::envelope::{is_unauthorized, ApiError, Status};
use crate::guest::{Guest, NewGuest};
use crate::password;
use crate::password::argon2_verifies;
use crate::schema::RegisterGuestSchema;
use crate::text::lemma_parse_dec_rep;
use crate::token;
use crate::token::{issued_token, validate_spec, TOKEN_LIFETIME_SECS};

verus! {

/// The view of an optional header value.
pub open spec fn opt_view(o: Option<&str>) -> Option<Seq<char>> {
    match o {
        Some(s) => Some(s@),
        None => None,
    }
}

/// Decides a registration request, given whether a guest with the
/// normalized email already exists. A duplicate is rejected as a
/// conflict; otherwise the password is hashed and the row to insert is
/// returned, its email normalized. Only a hashing failure is an
/// internal error.
pub fn register_guest(body: &RegisterGuestSchema, email_exists: bool) -> (r: Result<
    NewGuest,
    ApiError,
>)
    ensures
        email_exists ==> (r matches Err(e) && e.status == Status::ClientError && e.code == 409
            && e.message@ == "Guest with that email already exists"@),
        !email_exists ==> (r matches Ok(g) ==> {
            &&& g.first_name@ == body.first_name@
            &&& g.last_name@ == body.last_name@
            &&& g.email_address@ == ascii_lower(body.email_address@)
            &&& g.phone_number@ == body.phone_number@
            &&& argon2_verifies(body.password@, g.password@)
        }),
        !email_exists ==> (r matches Err(e) ==> e.status == Status::InternalError && e.code
            == 500),
{
    if email_exists {
        return Err(ApiError::fail(409, "Guest with that email already exists"));
    }
    let hashed = match password::hash(body.password.as_str()) {
        Ok(h) => h,
        Err(_) => {
            return Err(ApiError::internal("Error while hashing password"));
        },
    };
    Ok(
        NewGuest {
            first_name: body.first_name.clone(),
            last_name: body.last_name.clone(),
            email_address: normalize_email(body.email_address.as_str()),
            password: hashed,
            phone_number: body.phone_number.clone(),
        },
    )
}

/// A successful login: the signed token, and the Set-Cookie value that
/// carries it.
#[derive(Debug)]
pub struct LoginSuccess {
    pub token: String,
    pub cookie: String,
}

/// Decides a login request, given the guest the store found under the
/// normalized email (if any) and the submitted password. An unknown
/// email and a wrong password are rejected with the identical status,
/// code and message, so a caller cannot enumerate accounts. Valid
/// credentials always succeed: a token is issued for the guest at
/// `now` and wrapped in the login cookie, and it validates to the
/// guest's id until it expires.
pub fn login_guest(guest: Option<&Guest>, password: &str, now: usize, secret: &[u8]) -> (r: Result<
    LoginSuccess,
    ApiError,
>)
    requires
        now + TOKEN_LIFETIME_SECS <= usize::MAX,
    ensures
        (guest is None || !argon2_verifies(password@, guest->Some_0.password@)) ==> (r matches Err(
            e,
        ) && e.status == Status::ClientError && e.code == 400 && e.message@
            == "Invalid email or password"@),
        guest matches Some(g) ==> argon2_verifies(password@, g.password@) ==> (r matches Ok(s)
            && {
            &&& s.token@ == issued_token(g.id, now, secret@)
            &&& s.cookie@ == login_cookie_spec(s.token@)
            &&& validate_spec(s.token@, now, secret@) == Some(g.id)
        }),
{
    let g = match guest {
        Some(g) => g,
        None => {
            return Err(ApiError::fail(400, "Invalid email or password"));
        },
    };
    if !password::verify(password, g.password.as_str()) {
        return Err(ApiError::fail(400, "Invalid email or password"));
    }
    let t = token::issue(g.id, now, secret);
    proof {
        lemma_parse_dec_rep(g.id as int);
    }
    let cookie = carrier::login_cookie(t.as_str());
    Ok(LoginSuccess { token: t, cookie })
}

/// The token half of the auth gate: extract the carried token and
/// validate it.
/// A missing token and an invalid one (bad signature, malformed,
/// expired) are both rejected with the uniform 401 shape; a valid one
/// yields the subject id for the store lookup.
pub fn authenticate_request(
    auth_header: Option<&str>,
    cookie_header: Option<&str>,
    now: usize,
    secret: &[u8],
) -> (r: Result<i32, ApiError>)
    ensures
        extracted_token_spec(opt_view(auth_header), opt_view(cookie_header)) is None ==> (r matches
        Err(e) && e.message@ == "You are not logged in, please provide token"@),
        extracted_token_spec(opt_view(auth_header), opt_view(cookie_header)) matches Some(t) ==> {
            &&& validate_spec(t, now, secret@) is None ==> (r matches Err(e) && e.message@
                == "Invalid token"@)
            &&& validate_spec(t, now, secret@) matches Some(id) ==> r == Ok::<i32, ApiError>(id)
        },
        r matches Err(e) ==> is_unauthorized(e),
{
    match carrier::extract_token(auth_header, cookie_header) {
        None => Err(ApiError::fail(401, "You are not logged in, please provide token")),
        Some(t) => match token::validate(t.as_str(), now, secret) {
            Some(id) => Ok(id),
            None => Err(ApiError::fail(401, "Invalid token")),
        },
    }
}

/// The lookup half of the auth gate: the store's answer to the
/// subject lookup.
/// A token whose guest no longer exists is rejected with the same
/// uniform 401 shape; otherwise the resolved identity is attached for
/// the downstream handler.
pub fn resolve_guest(found: Option<Guest>) -> (r: Result<Guest, ApiError>)
    ensures
        found is None ==> (r matches Err(e) && e.message@
            == "The guest belonging to this token no longer exists"@),
        found matches Some(g) ==> r matches Ok(out) && out == g,
        r matches Err(e) ==> is_unauthorized(e),
{
    match found {
        Some(g) => Ok(g),
        None => Err(ApiError::fail(401, "The guest belonging to this token no longer exists")),
    }
}

/// What logout answers: a success status and the clearing cookie.
pub struct LogoutResponse {
    pub status: String,
    pub cookie: String,
}

pub fn logout_response() -> (r: LogoutResponse)
    ensures
        r.status@ == "success"@,
        r.cookie@ == "token=; HttpOnly; SameSite=Lax; Path=/; Max-Age=-3600"@,
{
    LogoutResponse { status: "success".to_owned(), cookie: carrier::logout_cookie() }
}

} // verus!
