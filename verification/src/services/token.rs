//! Tokens: the claims made about a user who signed in, and their signing.

use vstd::prelude::*;
use jsonwebtoken::{encode, EncodingKey, Header};
use serde_json::Value;
use crate::models::user::{now, uuid_text, User, UserView};
use crate::services::errors::{ServiceErrorView, UsersServiceError};

verus! {

/// The number of seconds for which a token is valid: seven days.
pub const TOKEN_LIFETIME_SECS: i64 = 604_800;

/// What a token says: whom it is about, their address, and when it stops
/// being valid, in seconds since the epoch.
#[derive(Debug, Clone, PartialEq, Eq)]
pub struct Claims {
    pub sub: String,
    pub email: String,
    pub exp: usize,
}

/// The mathematical content of [`Claims`].
pub ghost struct ClaimsView {
    pub sub: Seq<char>,
    pub email: Seq<char>,
    pub exp: usize,
}

impl View for Claims {
    type V = ClaimsView;

    open spec fn view(&self) -> ClaimsView {
        ClaimsView { sub: self.sub@, email: self.email@, exp: self.exp }
    }
}

/// The token that states the three claims, signed with HMAC-SHA256 under
/// `secret`, or the reason why none could be made. The encoding is that of
/// the `jsonwebtoken` crate; left uninterpreted.
pub uninterp spec fn signed_token(
    sub: Seq<char>,
    email: Seq<char>,
    exp: usize,
    secret: Seq<char>,
) -> Result<Seq<char>, Seq<char>>;

/// The mathematical content of a text that may have failed to be made.
pub open spec fn text_result(res: Result<String, String>) -> Result<Seq<char>, Seq<char>> {
    match res {
        Ok(s) => Ok(s@),
        Err(e) => Err(e@),
    }
}

/// Trusted: `encode` of `jsonwebtoken`, with `Header::default()`, the key
/// `EncodingKey::from_secret` of the bytes of `secret`, and the claims as a
/// JSON object with the members `sub`, `email` and `exp` in this order. The
/// contract only names the result, the error taken as its text.
#[verifier::external_body]
fn sign(claims: &Claims, secret: &str) -> (res: Result<String, String>)
    ensures
        text_result(res) == signed_token(claims@.sub, claims@.email, claims@.exp, secret@),
{
    let mut object = serde_json::Map::new();
    object.insert("sub".to_string(), Value::from(claims.sub.as_str()));
    object.insert("email".to_string(), Value::from(claims.email.as_str()));
    object.insert("exp".to_string(), Value::from(claims.exp));
    match encode(&Header::default(), &object, &EncodingKey::from_secret(secret.as_bytes())) {
        Ok(token) => Ok(token),
        Err(e) => Err(e.to_string()),
    }
}

/// When a token issued at `now` stops being valid, where that instant can
/// be written in a claim: not before the epoch, and within `usize`.
pub open spec fn expiry(now: i64) -> Option<usize> {
    if 0 <= now + TOKEN_LIFETIME_SECS <= usize::MAX {
        Some((now + TOKEN_LIFETIME_SECS) as usize)
    } else {
        None
    }
}

/// The claims of a token issued for `user` that stops being valid at `exp`.
pub open spec fn claims_of(user: UserView, exp: usize) -> ClaimsView {
    ClaimsView { sub: uuid_text(user.id.value), email: user.email, exp }
}

/// What the signing of a token comes to: the token, or the error that says
/// why there is none.
pub open spec fn issued(signed: Result<Seq<char>, Seq<char>>) -> Result<
    Seq<char>,
    ServiceErrorView,
> {
    match signed {
        Ok(token) => Ok(token),
        Err(reason) => Err(ServiceErrorView::DatabaseError("Failed to generate token: "@ + reason)),
    }
}

/// What minting a token for `user` at `now` gives: the signed token, or the
/// error that says why there is none.
pub open spec fn minted(secret: Seq<char>, user: UserView, now: i64) -> Result<
    Seq<char>,
    ServiceErrorView,
> {
    match expiry(now) {
        None => issued(Err("expiry out of range"@)),
        Some(exp) => issued(
            signed_token(
                claims_of(user, exp).sub,
                claims_of(user, exp).email,
                claims_of(user, exp).exp,
                secret,
            ),
        ),
    }
}

/// The mathematical content of a token that may have failed to be made.
pub open spec fn token_view(res: Result<String, UsersServiceError>) -> Result<
    Seq<char>,
    ServiceErrorView,
> {
    match res {
        Ok(token) => Ok(token@),
        Err(e) => Err(e@),
    }
}

/// When a token issued at `now` stops being valid: seven days later.
pub fn expiry_at(now: i64) -> (exp: Option<usize>)
    ensures
        exp == expiry(now),
{
    let at: i128 = now as i128 + TOKEN_LIFETIME_SECS as i128;
    if at < 0 || at > usize::MAX as i128 {
        return None;
    }
    Some(at as usize)
}

/// Makes the result of minting a token of what signing it gave.
pub fn issue(signed: Result<String, String>) -> (res: Result<String, UsersServiceError>)
    ensures
        token_view(res) == issued(text_result(signed)),
{
    match signed {
        Ok(token) => Ok(token),
        Err(reason) => {
            let mut message = String::from_str("Failed to generate token: ");
            message.append(reason.as_str());
            Err(UsersServiceError::DatabaseError(message))
        },
    }
}

/// Mints the token for `user` as of the instant `now`, signed under
/// `secret`: its subject is the identifier of the user, and it stops being
/// valid seven days after `now`.
pub fn mint_at(secret: &str, user: &User, now: i64) -> (res: Result<String, UsersServiceError>)
    ensures
        token_view(res) == minted(secret@, user@, now),
{
    match expiry_at(now) {
        None => issue(Err(String::from_str("expiry out of range"))),
        Some(exp) => {
            let claims = Claims { sub: user.id.to_string(), email: user.email.clone(), exp };
            issue(sign(&claims, secret))
        },
    }
}

/// Mints the token for `user` as of now. Whatever the clock says, the token
/// is the one that [`mint_at`] gives for that instant, which is not before
/// the epoch.
pub fn mint(secret: &str, user: &User) -> (res: Result<String, UsersServiceError>)
    ensures
        exists|at: i64| 0 <= at && token_view(res) == #[trigger] minted(secret@, user@, at),
{
    let at = now().secs;
    let res = mint_at(secret, user, at);
    assert(0 <= at && token_view(res) == minted(secret@, user@, at));
    res
}

} // verus!
