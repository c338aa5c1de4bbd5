//! The request authenticator: once per request it turns the token that the
//! request presents into the identity that handlers work with, or rejects
//! the request.

use vstd::prelude::*;
use crate::clock::unix_now;
use crate::config::JwtSecret;
use crate::http::{ErrorKind, ErrorResponse, ErrorView, Status, SuccessResponse};
use crate::text::{decimal, join, render_u32};
use crate::token::{validate, validate_spec, Claims, TokenError};

verus! {

/// The name of the request header that carries the token.
pub const TOKEN_HEADER: &'static str = "token";

/// Who makes a request, as established by the authenticator. It holds
/// nothing of the token but the user's id, lives for one request and is
/// never stored.
#[derive(Clone, Copy, Debug, PartialEq, Eq, Structural)]
pub struct AuthenticatedUser {
    pub id: u32,
}

/// A signed number of 32 bits read as an unsigned one with the same bits.
pub open spec fn as_unsigned(x: int) -> int {
    if x >= 0 {
        x
    } else {
        x + 0x1_0000_0000
    }
}

/// An unsigned number of 32 bits read as a signed one with the same bits.
pub open spec fn as_signed(x: int) -> int {
    if x <= i32::MAX {
        x
    } else {
        x - 0x1_0000_0000
    }
}

/// Reads a signed number as the unsigned number with the same bits.
pub fn to_unsigned(x: i32) -> (r: u32)
    ensures
        r == as_unsigned(x as int),
{
    if x >= 0 {
        x as u32
    } else {
        let wide: i64 = x as i64 + 0x1_0000_0000i64;
        wide as u32
    }
}

/// Reads an unsigned number as the signed number with the same bits.
pub fn to_signed(x: u32) -> (r: i32)
    ensures
        r == as_signed(x as int),
{
    if x <= 0x7fff_ffff {
        x as i32
    } else {
        let wide: i64 = x as i64 - 0x1_0000_0000i64;
        wide as i32
    }
}

/// Reading a user id as unsigned and back as signed gives the id again.
pub proof fn lemma_id_round_trip(id: int)
    requires
        i32::MIN <= id <= i32::MAX,
    ensures
        as_signed(as_unsigned(id)) == id,
        0 <= as_unsigned(id) <= u32::MAX,
{
}

/// The rejection of a request that presents no token.
pub open spec fn token_absent() -> ErrorView {
    ErrorView { kind: ErrorKind::Unauthenticated, message: "Token absent"@ }
}

/// The rejection of a request whose token is not accepted. It is the same
/// whether the token is forged, expired or cannot be decoded.
pub open spec fn token_invalid() -> ErrorView {
    ErrorView { kind: ErrorKind::Unauthenticated, message: "Invalid token"@ }
}

/// What the authenticator decides for the content of the token header (if the request
/// has one), the configured secret and the time.
pub open spec fn authenticate_spec(header: Option<Seq<char>>, secret: Seq<char>, now: int) -> Result<
    AuthenticatedUser,
    ErrorView,
> {
    match header {
        None => Err(token_absent()),
        Some(token) => match validate_spec(token, secret, now) {
            Ok(claims) => Ok(AuthenticatedUser { id: as_unsigned(claims.sub) as u32 }),
            Err(_) => Err(token_invalid()),
        },
    }
}

/// The view of what the authenticator returns.
pub open spec fn admitted_view(res: Result<AuthenticatedUser, ErrorResponse>) -> Result<
    AuthenticatedUser,
    ErrorView,
> {
    match res {
        Ok(user) => Ok(user),
        Err(e) => Err(e@),
    }
}

/// The view of an optional header value.
pub open spec fn header_view(header: Option<&str>) -> Option<Seq<char>> {
    match header {
        Some(token) => Some(token@),
        None => None,
    }
}

/// The identity that validated claims stand for: the subject, nothing else.
pub fn identity_of(claims: &Claims) -> (user: AuthenticatedUser)
    ensures
        user.id == as_unsigned(claims.sub as int),
{
    AuthenticatedUser { id: to_unsigned(claims.sub) }
}

/// Decides on what the codec said of a token: the identity for accepted
/// claims, and one and the same rejection for every reason of refusal.
pub fn admit_validated(validated: Result<Claims, TokenError>) -> (res: Result<
    AuthenticatedUser,
    ErrorResponse,
>)
    ensures
        match validated {
            Ok(claims) => res == Ok::<AuthenticatedUser, ErrorResponse>(
                AuthenticatedUser { id: as_unsigned(claims.sub as int) as u32 },
            ),
            Err(_) => res is Err && res->Err_0@ == token_invalid(),
        },
{
    match validated {
        Ok(claims) => Ok(identity_of(&claims)),
        Err(_) => Err(ErrorResponse::new(ErrorKind::Unauthenticated, "Invalid token")),
    }
}

impl AuthenticatedUser {
    /// Authenticates a request at a given time, from the content of its token
    /// header. A request without a token is rejected; a token is validated
    /// under the configured secret at `now`; accepted claims give the identity
    /// of their subject and every refusal gives the same rejection.
    pub fn from_request_at(header: Option<&str>, secret: &JwtSecret, now: u64) -> (res: Result<
        AuthenticatedUser,
        ErrorResponse,
    >)
        ensures
            admitted_view(res) == authenticate_spec(
                header_view(header),
                secret.jwt_secret@,
                now as int,
            ),
    {
        match header {
            None => Err(ErrorResponse::new(ErrorKind::Unauthenticated, "Token absent")),
            Some(token) => admit_validated(validate(token, secret.jwt_secret.as_str(), now)),
        }
    }

    /// Authenticates a request at the time the clock shows. Where the clock
    /// cannot be read the token counts as not accepted.
    pub fn from_request(header: Option<&str>, secret: &JwtSecret) -> (res: Result<
        AuthenticatedUser,
        ErrorResponse,
    >)
        ensures
            header is None ==> admitted_view(res) == Err::<AuthenticatedUser, ErrorView>(
                token_absent(),
            ),
            header is Some ==> admitted_view(res) == Err::<AuthenticatedUser, ErrorView>(
                token_invalid(),
            ) || exists|now: int|
                0 <= now <= u64::MAX && admitted_view(res) == #[trigger] authenticate_spec(
                    header_view(header),
                    secret.jwt_secret@,
                    now,
                ),
    {
        match header {
            None => Err(ErrorResponse::new(ErrorKind::Unauthenticated, "Token absent")),
            Some(token) => match unix_now() {
                Ok(now) => {
                    let res = AuthenticatedUser::from_request_at(header, secret, now);
                    assert(admitted_view(res) == authenticate_spec(
                        header_view(header),
                        secret.jwt_secret@,
                        now as int,
                    ));
                    res
                },
                Err(_) => Err(ErrorResponse::new(ErrorKind::Unauthenticated, "Invalid token")),
            },
        }
    }
}

/// The text that tells a user their own id.
pub open spec fn identity_text(user: AuthenticatedUser) -> Seq<char> {
    "My user ID is: "@ + decimal(user.id as nat)
}

/// Answers an authenticated request with the user's own id.
pub fn whoami(user: AuthenticatedUser) -> (res: SuccessResponse<String>)
    ensures
        res.status == Status::Success,
        res.body@ == identity_text(user),
{
    let id = render_u32(user.id);
    SuccessResponse { status: Status::Success, body: join("My user ID is: ", id.as_str()) }
}

/// Every refusal of the codec gives the same rejection: a caller cannot tell
/// an expired token from a forged or an undecodable one.
pub proof fn lemma_rejections_collapse(
    first: Seq<char>,
    second: Seq<char>,
    secret: Seq<char>,
    now_first: int,
    now_second: int,
)
    requires
        validate_spec(first, secret, now_first) is Err,
        validate_spec(second, secret, now_second) is Err,
    ensures
        authenticate_spec(Some(first), secret, now_first) == authenticate_spec(
            Some(second),
            secret,
            now_second,
        ),
{
}

} // verus!
