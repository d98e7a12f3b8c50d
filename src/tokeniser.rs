use vstd::prelude::*;
use crate::error::{Error, TokenError};
use crate::id::Id;

verus! {

/// How long a session token stays valid after it is issued, in seconds.
pub const TOKEN_LIFETIME: i64 = 900;

/// The issuer written into, and expected of, every session token.
pub const ISSUER: &'static str = "api";

/// The claims a session token carries. Times are Unix seconds.
#[derive(Debug)]
pub struct Claims {
    /// When the token expires.
    pub exp: i64,
    /// When the token was issued.
    pub iat: i64,
    /// The service that issued the token.
    pub iss: String,
    /// A unique identifier of this token.
    pub jti: Id,
    /// The user the token speaks for.
    pub sub: Id,
}

/// `c` are the claims issued by `issuer` for `user` at `issued_at`, with token id `jti`.
pub open spec fn issued_claims(c: Claims, issuer: Seq<char>, user: Id, issued_at: i64, jti: Id) -> bool {
    &&& c.sub == user
    &&& c.iat == issued_at
    &&& c.exp == issued_at + TOKEN_LIFETIME
    &&& c.iss@ == issuer
    &&& c.jti == jti
}

/// The verdict on a token whose claims read as `payload` (`None` where they
/// cannot be read) and whose signature does or does not check, at `now`.
/// Expiry is decided first, whatever the signature.
pub open spec fn token_verdict(
    payload: Option<Claims>,
    signature_valid: bool,
    issuer: Seq<char>,
    now: i64,
) -> Result<Claims, TokenError> {
    match payload {
        None => Err(TokenError::Malformed),
        Some(c) => if now >= c.exp {
            Err(TokenError::Expired)
        } else if !signature_valid {
            Err(TokenError::BadSignature)
        } else if c.iss@ != issuer {
            Err(TokenError::IssuerMismatch)
        } else {
            Ok(c)
        },
    }
}

/// Message of an issuance at a clock reading too late for its expiry.
pub const CLOCK_OUT_OF_RANGE: &'static str = "System clock out of range";

/// `r` is the outcome of issuing claims for `user` at the clock reading
/// `now` with token id `jti`: the issued claims, unless the reading is so
/// late that the expiry cannot be written.
pub open spec fn issuance(r: Result<Claims, Error>, issuer: Seq<char>, user: Id, now: i64, jti: Id) -> bool {
    if now > i64::MAX - TOKEN_LIFETIME {
        r == Err::<Claims, Error>(Error::Str(CLOCK_OUT_OF_RANGE))
    } else {
        r matches Ok(c) && issued_claims(c, issuer, user, now, jti)
    }
}

/// A token verdict as a result of the service.
pub open spec fn service_verdict(v: Result<Claims, TokenError>) -> Result<Claims, Error> {
    match v {
        Ok(c) => Ok(c),
        Err(k) => Err(Error::Token(k)),
    }
}

/// Relies on chrono::Utc::now for the current time in Unix seconds; nothing
/// is promised of the value.
#[verifier::external_body]
pub(crate) fn now_seconds() -> (r: i64) {
    chrono::Utc::now().timestamp()
}

/// Whether `token` is an HS256 JSON web token whose signature checks
/// against `secret` and whose payload is a JSON object, as jsonwebtoken
/// decides it with every claim check switched off.
pub uninterp spec fn hs256_signature_valid(token: Seq<char>, secret: Seq<char>) -> bool;

/// Message of a token that could not be signed.
pub const SIGNING_FAILED: &'static str = "Token signing failed";

/// Relies on jsonwebtoken::encode with the default (HS256) header: the
/// claims are written as a JSON object, ids as hyphenated UUID text. A
/// token it signs with a secret checks against that secret.
#[verifier::external_body]
fn hs256_sign(claims: &Claims, secret: &str) -> (r: Option<String>)
    ensures
        r matches Some(t) ==> hs256_signature_valid(t@, secret@),
{
    let mut payload = serde_json::Map::new();
    payload.insert("exp".to_string(), claims.exp.into());
    payload.insert("iat".to_string(), claims.iat.into());
    payload.insert("iss".to_string(), claims.iss.clone().into());
    payload.insert("jti".to_string(), uuid::Uuid::from_bytes(claims.jti.0.to_be_bytes()).to_string().into());
    payload.insert("sub".to_string(), uuid::Uuid::from_bytes(claims.sub.0.to_be_bytes()).to_string().into());
    let key = jsonwebtoken::EncodingKey::from_secret(secret.as_bytes());
    jsonwebtoken::encode(&jsonwebtoken::Header::default(), &payload, &key).ok()
}

/// Relies on jsonwebtoken::decode (HS256, no claim checks) for whether the
/// signature of `token` checks against `secret`.
#[verifier::external_body]
fn hs256_signature_checks(token: &str, secret: &str) -> (r: bool)
    ensures
        r == hs256_signature_valid(token@, secret@),
{
    let mut validation = jsonwebtoken::Validation::new(jsonwebtoken::Algorithm::HS256);
    validation.validate_exp = false;
    validation.required_spec_claims.clear();
    let key = jsonwebtoken::DecodingKey::from_secret(secret.as_bytes());
    jsonwebtoken::decode::<serde_json::Map<String, serde_json::Value>>(token, &key, &validation).is_ok()
}

/// Issues the claims of session tokens and decides whether a presented token
/// is accepted. The signing secret is fixed when the tokeniser is made.
pub struct Tokeniser {
    secret: String,
    issuer: String,
}

impl Tokeniser {
    /// The signing secret.
    pub closed spec fn secret_view(&self) -> Seq<char> {
        self.secret@
    }

    /// The issuer of this tokeniser's tokens.
    pub closed spec fn issuer_view(&self) -> Seq<char> {
        self.issuer@
    }

    /// A tokeniser signing with `secret`, issuing as this service.
    pub fn new(secret: String) -> (t: Tokeniser)
        ensures
            t.secret_view() == secret@,
            t.issuer_view() == ISSUER@,
    {
        Tokeniser { secret, issuer: String::from_str(ISSUER) }
    }

    /// The signing secret, for the code that signs and checks tokens.
    pub fn secret(&self) -> (r: &str)
        ensures
            r@ == self.secret_view(),
    {
        self.secret.as_str()
    }

    /// The issuer written into this tokeniser's tokens.
    pub fn issuer(&self) -> (r: &str)
        ensures
            r@ == self.issuer_view(),
    {
        self.issuer.as_str()
    }

    /// The claims of a token for `user_id` issued at `issued_at`.
    pub fn claims(&self, user_id: Id, issued_at: i64, jti: Id) -> (c: Claims)
        requires
            issued_at <= i64::MAX - TOKEN_LIFETIME,
        ensures
            issued_claims(c, self.issuer_view(), user_id, issued_at, jti),
    {
        Claims {
            exp: issued_at + TOKEN_LIFETIME,
            iat: issued_at,
            iss: self.issuer.clone(),
            jti,
            sub: user_id,
        }
    }

    /// The claims of a token for `user_id` issued at the clock reading `now`
    /// with token id `jti`. Fails exactly where the reading is so late that
    /// the expiry cannot be written.
    pub fn claims_at(&self, user_id: Id, now: i64, jti: Id) -> (r: Result<Claims, Error>)
        ensures
            issuance(r, self.issuer_view(), user_id, now, jti),
            now <= i64::MAX - TOKEN_LIFETIME ==> (r matches Ok(c) && issued_claims(
                c,
                self.issuer_view(),
                user_id,
                now,
                jti,
            )),
            now > i64::MAX - TOKEN_LIFETIME ==> r == Err::<Claims, Error>(Error::Str(CLOCK_OUT_OF_RANGE)),
    {
        if now > i64::MAX - TOKEN_LIFETIME {
            return Err(Error::Str(CLOCK_OUT_OF_RANGE));
        }
        Ok(self.claims(user_id, now, jti))
    }

    /// The claims of a fresh token for `user_id`, issued now with a random
    /// token id: what `claims_at` gives for the clock reading and that id.
    pub fn generate(&self, user_id: Id) -> (r: Result<Claims, Error>)
        ensures
            exists|now: i64, jti: Id| #[trigger] issuance(r, self.issuer_view(), user_id, now, jti),
            r matches Ok(c) ==> issued_claims(c, self.issuer_view(), user_id, c.iat, c.jti),
            r matches Err(e) ==> e == Error::Str(CLOCK_OUT_OF_RANGE),
    {
        let now = now_seconds();
        let jti = Id::new_v4();
        self.claims_at(user_id, now, jti)
    }

    /// The signed token carrying `claims`; fails only where signing fails.
    pub fn sign(&self, claims: &Claims) -> (r: Result<String, Error>)
        ensures
            r matches Ok(t) ==> hs256_signature_valid(t@, self.secret_view()),
            r matches Err(e) ==> e == Error::Str(SIGNING_FAILED),
    {
        match hs256_sign(claims, self.secret.as_str()) {
            Some(t) => Ok(t),
            None => Err(Error::Str(SIGNING_FAILED)),
        }
    }

    /// Whether the signature of `token` checks against this tokeniser's secret.
    pub fn signature_checks(&self, token: &str) -> (r: bool)
        ensures
            r == hs256_signature_valid(token@, self.secret_view()),
    {
        hs256_signature_checks(token, self.secret.as_str())
    }

    /// The verdict at `now` on a token whose claims read as `payload` and
    /// whose signature does or does not check against this tokeniser's secret.
    pub fn check(&self, payload: Option<Claims>, signature_valid: bool, now: i64) -> (r: Result<
        Claims,
        TokenError,
    >)
        ensures
            r == token_verdict(payload, signature_valid, self.issuer_view(), now),
    {
        match payload {
            None => Err(TokenError::Malformed),
            Some(c) => {
                if now >= c.exp {
                    Err(TokenError::Expired)
                } else if !signature_valid {
                    Err(TokenError::BadSignature)
                } else if !c.iss.eq(&self.issuer) {
                    Err(TokenError::IssuerMismatch)
                } else {
                    Ok(c)
                }
            },
        }
    }

    /// The verdict on a token now, as an error of the service.
    pub fn verify(&self, payload: Option<Claims>, signature_valid: bool) -> (r: Result<Claims, Error>)
        ensures
            exists|now: i64|
                r == #[trigger] service_verdict(
                    token_verdict(payload, signature_valid, self.issuer_view(), now),
                ),
    {
        let now = now_seconds();
        let v = self.check(payload, signature_valid, now);
        let r = match v {
            Ok(c) => Ok(c),
            Err(k) => Err(Error::Token(k)),
        };
        assert(r == service_verdict(token_verdict(payload, signature_valid, self.issuer_view(), now)));
        r
    }
}

/// A token issued for `user` and signed by the tokeniser is accepted, and
/// speaks for `user`, at every instant from its issue until its expiry.
pub proof fn lemma_fresh_token_accepted(
    t: Tokeniser,
    token: Seq<char>,
    c: Claims,
    user: Id,
    issued_at: i64,
    jti: Id,
    now: i64,
)
    requires
        issued_claims(c, t.issuer_view(), user, issued_at, jti),
        hs256_signature_valid(token, t.secret_view()),
        issued_at <= now < issued_at + TOKEN_LIFETIME,
    ensures
        token_verdict(Some(c), hs256_signature_valid(token, t.secret_view()), t.issuer_view(), now)
            == Ok::<Claims, TokenError>(c),
        c.sub == user,
{
}

/// At or after its expiry instant a token is refused as expired, never
/// accepted and never refused for another reason.
pub proof fn lemma_expired_token_refused(c: Claims, signature_valid: bool, issuer: Seq<char>, now: i64)
    requires
        now >= c.exp,
    ensures
        token_verdict(Some(c), signature_valid, issuer, now) == Err::<Claims, TokenError>(
            TokenError::Expired,
        ),
{
}

/// A token whose signature does not check against the secret is never accepted.
pub proof fn lemma_bad_signature_refused(payload: Option<Claims>, issuer: Seq<char>, now: i64)
    ensures
        token_verdict(payload, false, issuer, now) is Err,
{
}

} // verus!
