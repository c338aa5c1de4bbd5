//! The token codec: claims, how a token is issued for them and how a
//! presented token is validated. Encoding, signing (HMAC with SHA-256) and
//! decoding are done by the `jsonwebtoken` crate; the expiry rule is this
//! library's own and is checked here against a time that the caller gives.

use vstd::prelude::*;

verus! {

/// `jsonwebtoken::errors::Error`, read only for the text it displays as.
#[verifier::external_type_specification]
#[verifier::external_body]
pub struct ExJwtError(jsonwebtoken::errors::Error);

/// The signed payload of a token: whom it was issued for, an opaque role and
/// the time, in seconds since the Unix epoch, from which it is no longer
/// valid.
#[derive(Debug)]
pub struct Claims {
    pub sub: i32,
    pub role: String,
    pub exp: u64,
}

/// `Claims` as a plain value.
pub struct ClaimsView {
    pub sub: int,
    pub role: Seq<char>,
    pub exp: int,
}

impl View for Claims {
    type V = ClaimsView;

    open spec fn view(&self) -> ClaimsView {
        ClaimsView { sub: self.sub as int, role: self.role@, exp: self.exp as int }
    }
}

/// What a decoded payload holds under the names `sub`, `role` and `exp`: a
/// field is `None` where the payload lacks it or holds a value of another
/// type there (`sub` a signed integer of 64 bits, `role` a string, `exp` an
/// unsigned integer of 64 bits).
#[derive(Debug)]
pub struct RawClaims {
    pub sub: Option<i64>,
    pub role: Option<String>,
    pub exp: Option<u64>,
}

/// `RawClaims` as a plain value.
pub struct RawClaimsView {
    pub sub: Option<int>,
    pub role: Option<Seq<char>>,
    pub exp: Option<int>,
}

impl View for RawClaims {
    type V = RawClaimsView;

    open spec fn view(&self) -> RawClaimsView {
        RawClaimsView {
            sub: match self.sub {
                Some(sub) => Some(sub as int),
                None => None,
            },
            role: match self.role {
                Some(role) => Some(role@),
                None => None,
            },
            exp: match self.exp {
                Some(exp) => Some(exp as int),
                None => None,
            },
        }
    }
}

/// Why a token could not be decoded under a secret.
#[derive(Clone, Copy, Debug, PartialEq, Eq, Structural)]
pub enum DecodeFailure {
    /// The signature is not the one that the secret gives for the token's
    /// header and payload.
    InvalidSignature,
    /// The token is not three parts of the expected encoding, names another
    /// algorithm, or its payload cannot be read.
    Malformed,
}

/// Why a presented token was not accepted.
#[derive(Clone, Copy, Debug, PartialEq, Eq, Structural)]
pub enum TokenError {
    InvalidSignature,
    Expired,
    Malformed,
}

/// The codec could not produce a token.
#[derive(Debug)]
pub struct IssueError {
    pub detail: String,
}

/// How long a token is valid after it was issued: four hours, in seconds.
pub const TOKEN_VALIDITY_SECS: u64 = 14400;

/// The view of what a decoder hands back.
pub open spec fn decoded_view(decoded: Result<RawClaims, DecodeFailure>) -> Result<
    RawClaimsView,
    DecodeFailure,
> {
    match decoded {
        Ok(raw) => Ok(raw@),
        Err(failure) => Err(failure),
    }
}

/// The payload that claims are written as.
pub open spec fn raw_of(claims: ClaimsView) -> RawClaimsView {
    RawClaimsView { sub: Some(claims.sub), role: Some(claims.role), exp: Some(claims.exp) }
}

/// The token that `jsonwebtoken::encode` returns for a default header
/// (algorithm HS256), a payload of the three fields and a secret; `None` where
/// it returns an error.
pub uninterp spec fn jwt_encode_spec(sub: int, role: Seq<char>, exp: int, secret: Seq<char>)
    -> Option<Seq<char>>;

/// What `jsonwebtoken::decode` returns for a token and a secret when it
/// accepts only HS256 and leaves the expiry unchecked: the three fields of
/// the payload, or why the token was refused.
pub uninterp spec fn jwt_decode_spec(token: Seq<char>, secret: Seq<char>) -> Result<
    RawClaimsView,
    DecodeFailure,
>;

/// Calls `jsonwebtoken::encode` with the default header (HS256) on a JSON
/// object of the three fields, signed with the secret's bytes. The result
/// depends on the arguments alone. A token that it returns carries a valid
/// signature under the same secret and the payload it was given, so
/// `jsonwebtoken::decode` reads the three fields back from it.
#[verifier::external_body]
fn jwt_encode(sub: i32, role: &str, exp: u64, secret: &str) -> (res: Result<
    String,
    jsonwebtoken::errors::Error,
>)
    ensures
        match res {
            Ok(token) => {
                &&& jwt_encode_spec(sub as int, role@, exp as int, secret@) == Some(token@)
                &&& jwt_decode_spec(token@, secret@) == Ok::<RawClaimsView, DecodeFailure>(
                    RawClaimsView { sub: Some(sub as int), role: Some(role@), exp: Some(exp as int) },
                )
            },
            Err(_) => jwt_encode_spec(sub as int, role@, exp as int, secret@) is None,
        },
{
    let mut payload = serde_json::Map::new();
    payload.insert("sub".to_string(), serde_json::Value::from(sub));
    payload.insert("role".to_string(), serde_json::Value::from(role));
    payload.insert("exp".to_string(), serde_json::Value::from(exp));
    let key = jsonwebtoken::EncodingKey::from_secret(secret.as_bytes());
    jsonwebtoken::encode(&jsonwebtoken::Header::default(), &payload, &key)
}

/// Calls `jsonwebtoken::decode` with the secret's bytes and the crate's
/// default validation for HS256, but for `validate_exp`, which is off: the
/// crate checks the signature, wants `exp` present as a number and refuses a
/// payload that names an audience, and it does not look at the clock. The
/// result depends on the arguments alone. The three fields are read from the
/// decoded JSON value; of the crate's error only the kind `InvalidSignature`
/// is told apart.
#[verifier::external_body]
fn jwt_decode(token: &str, secret: &str) -> (res: Result<RawClaims, DecodeFailure>)
    ensures
        decoded_view(res) == jwt_decode_spec(token@, secret@),
{
    let mut rules = jsonwebtoken::Validation::new(jsonwebtoken::Algorithm::HS256);
    rules.validate_exp = false;
    let key = jsonwebtoken::DecodingKey::from_secret(secret.as_bytes());
    match jsonwebtoken::decode::<serde_json::Value>(token, &key, &rules) {
        Ok(data) => Ok(RawClaims {
            sub: data.claims.get("sub").and_then(serde_json::Value::as_i64),
            role: data.claims.get("role").and_then(serde_json::Value::as_str).map(String::from),
            exp: data.claims.get("exp").and_then(serde_json::Value::as_u64),
        }),
        Err(error) => match error.kind() {
            jsonwebtoken::errors::ErrorKind::InvalidSignature => Err(DecodeFailure::InvalidSignature),
            _ => Err(DecodeFailure::Malformed),
        },
    }
}

/// Whether a token is one that carries exactly these claims under this
/// secret.
pub open spec fn carries(token: Seq<char>, claims: ClaimsView, secret: Seq<char>) -> bool {
    jwt_decode_spec(token, secret) == Ok::<RawClaimsView, DecodeFailure>(raw_of(claims))
}

/// What the validation of a decoded token gives at the time `now`.
///
/// A token that could not be decoded is refused for the decoder's reason. A
/// payload that lacks one of the three claims, or whose subject does not fit
/// 32 bits, is malformed. Claims are accepted while `now` lies before their
/// expiry, and are expired from the expiry on.
pub open spec fn checked(decoded: Result<RawClaimsView, DecodeFailure>, now: int) -> Result<
    ClaimsView,
    TokenError,
> {
    match decoded {
        Err(DecodeFailure::InvalidSignature) => Err(TokenError::InvalidSignature),
        Err(DecodeFailure::Malformed) => Err(TokenError::Malformed),
        Ok(raw) => {
            if raw.sub is Some && raw.role is Some && raw.exp is Some && i32::MIN <= raw.sub->0
                <= i32::MAX {
                if now < raw.exp->0 {
                    Ok(ClaimsView { sub: raw.sub->0, role: raw.role->0, exp: raw.exp->0 })
                } else {
                    Err(TokenError::Expired)
                }
            } else {
                Err(TokenError::Malformed)
            }
        },
    }
}

/// The view of a validation's result.
pub open spec fn validated_view(res: Result<Claims, TokenError>) -> Result<ClaimsView, TokenError> {
    match res {
        Ok(claims) => Ok(claims@),
        Err(error) => Err(error),
    }
}

/// What `validate` gives for a token, a secret and a time.
pub open spec fn validate_spec(token: Seq<char>, secret: Seq<char>, now: int) -> Result<
    ClaimsView,
    TokenError,
> {
    checked(jwt_decode_spec(token, secret), now)
}

/// The claims of a token issued at `now` for a user: valid for four hours.
pub open spec fn claims_at(sub: int, role: Seq<char>, now: int) -> ClaimsView {
    ClaimsView { sub, role, exp: now + TOKEN_VALIDITY_SECS }
}

/// Decides on a decoded token at the time `now`: the claims where they are
/// complete and not yet expired, else why the token is refused.
pub fn check_decoded(decoded: Result<RawClaims, DecodeFailure>, now: u64) -> (res: Result<
    Claims,
    TokenError,
>)
    ensures
        validated_view(res) == checked(decoded_view(decoded), now as int),
{
    match decoded {
        Err(DecodeFailure::InvalidSignature) => Err(TokenError::InvalidSignature),
        Err(DecodeFailure::Malformed) => Err(TokenError::Malformed),
        Ok(raw) => {
            match (raw.sub, raw.role, raw.exp) {
                (Some(sub), Some(role), Some(exp)) => {
                    if sub < -2147483648 || sub > 2147483647 {
                        Err(TokenError::Malformed)
                    } else if now < exp {
                        Ok(Claims { sub: sub as i32, role, exp })
                    } else {
                        Err(TokenError::Expired)
                    }
                },
                _ => Err(TokenError::Malformed),
            }
        },
    }
}

/// Issues a token for the claims, signed with the secret. The same claims and
/// secret always give the same token. A token that comes back carries
/// exactly these claims under this secret.
pub fn issue(claims: &Claims, secret: &str) -> (res: Result<String, IssueError>)
    ensures
        match res {
            Ok(token) => {
                &&& jwt_encode_spec(claims@.sub, claims@.role, claims@.exp, secret@) == Some(token@)
                &&& carries(token@, claims@, secret@)
            },
            Err(_) => jwt_encode_spec(claims@.sub, claims@.role, claims@.exp, secret@) is None,
        },
{
    match jwt_encode(claims.sub, claims.role.as_str(), claims.exp, secret) {
        Ok(token) => Ok(token),
        Err(error) => Err(IssueError { detail: error.to_string() }),
    }
}

/// Validates a presented token at the time `now`: its signature under the
/// secret, the shape of its claims, and that `now` lies before its expiry.
pub fn validate(token: &str, secret: &str, now: u64) -> (res: Result<Claims, TokenError>)
    ensures
        validated_view(res) == validate_spec(token@, secret@, now as int),
{
    check_decoded(jwt_decode(token, secret), now)
}

/// A token that carries claims is accepted at every time before the claims'
/// expiry and refused as expired at the expiry and at every time after it.
pub proof fn lemma_expiry_edge(token: Seq<char>, claims: ClaimsView, secret: Seq<char>, now: int)
    requires
        carries(token, claims, secret),
        i32::MIN <= claims.sub <= i32::MAX,
    ensures
        now < claims.exp ==> validate_spec(token, secret, now) == Ok::<ClaimsView, TokenError>(
            claims,
        ),
        now >= claims.exp ==> validate_spec(token, secret, now) == Err::<ClaimsView, TokenError>(
            TokenError::Expired,
        ),
{
}

/// A token issued at `issued_at` is accepted throughout the four hours that
/// follow and at no time from then on: at three hours and fifty-nine minutes
/// it is valid, at four hours it is expired.
pub proof fn lemma_valid_for_four_hours(
    token: Seq<char>,
    sub: int,
    role: Seq<char>,
    secret: Seq<char>,
    issued_at: int,
    now: int,
)
    requires
        carries(token, claims_at(sub, role, issued_at), secret),
        i32::MIN <= sub <= i32::MAX,
    ensures
        validate_spec(token, secret, now) is Ok <==> now < issued_at + 4 * 60 * 60,
        validate_spec(token, secret, issued_at + 3 * 60 * 60 + 59 * 60) is Ok,
        validate_spec(token, secret, issued_at + 4 * 60 * 60) == Err::<ClaimsView, TokenError>(
            TokenError::Expired,
        ),
{
}

/// A token whose signature does not check under the configured secret is
/// refused at every time, whatever its payload holds.
pub proof fn lemma_bad_signature_refused(token: Seq<char>, secret: Seq<char>, now: int)
    requires
        jwt_decode_spec(token, secret) == Err::<RawClaimsView, DecodeFailure>(
            DecodeFailure::InvalidSignature,
        ),
    ensures
        validate_spec(token, secret, now) == Err::<ClaimsView, TokenError>(
            TokenError::InvalidSignature,
        ),
{
}

} // verus!
