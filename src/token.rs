use vstd::prelude::*;
use crate::config::JwtConfig;

verus! {

/// Every instant that the clock can report lies strictly within this many
/// seconds of the Unix epoch (years -262144 to 262143).
pub const CLOCK_LIMIT_SECONDS: i64 = 9_000_000_000_000;

/// The largest lifetime, in seconds, that a token may be issued with.
pub const TTL_LIMIT_SECONDS: i64 = 9_223_372_036_854_775;

/// The token that HS256 signing gives for these claims under this secret.
pub uninterp spec fn jwt_signed(sub: Seq<char>, exp: int, iat: int, secret: Seq<char>) -> Seq<char>;

/// What HS256 decoding, with the signature checked and no time checked,
/// reads from a token under a secret: the payload's `sub`, `exp` and `iat`,
/// each where present with its type; nothing where the token is refused.
pub uninterp spec fn jwt_opened(token: Seq<char>, secret: Seq<char>) -> Option<(Option<Seq<char>>, Option<i64>, Option<i64>)>;

/// Why a token was turned away.
#[derive(Debug, Clone, Copy, PartialEq, Eq, Structural)]
pub enum TokenError {
    /// The signature does not match the secret.
    InvalidSignature,
    /// The token's lifetime is over.
    Expired,
    /// The token is not a well-formed signed token with a subject and both times.
    Malformed,
}

/// What a token states: its subject, its expiry and its issue time, in
/// seconds since the Unix epoch.
#[derive(Debug)]
pub struct Claims {
    pub sub: String,
    pub exp: i64,
    pub iat: i64,
}

/// The fields of a token's payload that the claims are read from, each
/// where present with its type.
pub struct TokenFields {
    pub sub: Option<String>,
    pub exp: Option<i64>,
    pub iat: Option<i64>,
}

/// The payload fields as plain values.
pub open spec fn fields_view(f: TokenFields) -> (Option<Seq<char>>, Option<i64>, Option<i64>) {
    (crate::forms::opt_text(f.sub), f.exp, f.iat)
}

/// A lifetime that a token may be issued with.
pub open spec fn valid_ttl(ttl: int) -> bool {
    -TTL_LIMIT_SECONDS <= ttl <= TTL_LIMIT_SECONDS
}

/// An instant that the clock can report.
pub open spec fn clock_instant(t: int) -> bool {
    -CLOCK_LIMIT_SECONDS < t < CLOCK_LIMIT_SECONDS
}

/// The signed form of a set of claims.
pub open spec fn token_of(c: Claims, secret: Seq<char>) -> Seq<char> {
    jwt_signed(c.sub@, c.exp as int, c.iat as int, secret)
}

/// The claims as the fields a token is signed with.
pub open spec fn claims_fields(c: Claims) -> (Seq<char>, i64, i64) {
    (c.sub@, c.exp, c.iat)
}

/// The claims a token carries under a secret: its signature matches and its
/// payload holds a subject and both times.
pub open spec fn opened_claims(token: Seq<char>, secret: Seq<char>) -> Option<(Seq<char>, i64, i64)> {
    match jwt_opened(token, secret) {
        Some((Some(sub), Some(exp), Some(iat))) => Some((sub, exp, iat)),
        _ => None,
    }
}

/// How many dots a text holds; a signed token holds two.
pub open spec fn dot_count(s: Seq<char>) -> nat
    decreases s.len(),
{
    if s.len() == 0 {
        0
    } else {
        dot_count(s.drop_last()) + if s.last() == '.' {
            1nat
        } else {
            0nat
        }
    }
}

/// A text without the two dots of a signed token is refused as malformed.
pub open spec fn refuses_undotted(r: Result<TokenFields, TokenError>, token: Seq<char>) -> bool {
    dot_count(token) < 2 ==> r == Err::<TokenFields, TokenError>(TokenError::Malformed)
}

/// The verdict on claims read back from a token, at time `now`.
pub open spec fn claims_verdict(sub: Seq<char>, exp: int, now: int) -> Result<Seq<char>, TokenError> {
    if now >= exp {
        Err(TokenError::Expired)
    } else {
        Ok(sub)
    }
}

/// The verdict of verification at time `now` on a token that carries
/// claims under `secret`: its subject while it lasts, expired from its
/// expiry on.
pub open spec fn token_verdict(token: Seq<char>, secret: Seq<char>, now: int) -> Option<Result<Seq<char>, TokenError>> {
    match opened_claims(token, secret) {
        Some(c) => Some(claims_verdict(c.0, c.1 as int, now)),
        None => None,
    }
}

/// What a verification outcome says: the subject, or why the token was turned away.
pub open spec fn outcome(r: Result<Claims, TokenError>) -> Result<Seq<char>, TokenError> {
    match r {
        Ok(c) => Ok(c.sub@),
        Err(e) => Err(e),
    }
}

/// Relies on chrono's `Utc::now` and `DateTime::timestamp`: the current time
/// in whole seconds since the Unix epoch, within chrono's range of dates.
#[verifier::external_body]
pub(crate) fn unix_now() -> (r: i64)
    ensures
        clock_instant(r as int),
{
    chrono::Utc::now().timestamp()
}

/// Relies on jsonwebtoken's `encode` with the default (HS256) header and a
/// key made from the secret's bytes: an HMAC key fits the HS256 header and a
/// map of three values always serialises, so it returns the signed token,
/// which `decode` under the same secret reads back as it was signed.
#[verifier::external_body]
fn jwt_sign(sub: &str, exp: i64, iat: i64, secret: &str) -> (r: Result<String, jsonwebtoken::errors::Error>)
    ensures
        r is Ok,
        r matches Ok(t) ==> t@ == jwt_signed(sub@, exp as int, iat as int, secret@),
        r matches Ok(t) ==> jwt_opened(t@, secret@) == Some((Some(sub@), Some(exp), Some(iat))),
{
    let mut claims = std::collections::BTreeMap::new();
    claims.insert("sub", serde_json::Value::from(sub));
    claims.insert("exp", serde_json::Value::from(exp));
    claims.insert("iat", serde_json::Value::from(iat));
    let key = jsonwebtoken::EncodingKey::from_secret(secret.as_bytes());
    jsonwebtoken::encode(&jsonwebtoken::Header::default(), &claims, &key)
}

/// Relies on jsonwebtoken's `decode` with HS256, the signature checked and no
/// time checked: the payload's `sub`, `exp` and `iat`, each where present with
/// its type; with no time checked, this depends on the token and the secret
/// alone. A text without the two dots of a signed token is refused as invalid.
#[verifier::external_body]
fn jwt_open(token: &str, secret: &str) -> (r: Result<TokenFields, TokenError>)
    ensures
        r matches Ok(f) ==> jwt_opened(token@, secret@) == Some(fields_view(f)),
        r is Ok <==> jwt_opened(token@, secret@) is Some,
        r matches Err(e) ==> e != TokenError::Expired,
        refuses_undotted(r, token@),
{
    let key = jsonwebtoken::DecodingKey::from_secret(secret.as_bytes());
    let mut validation = jsonwebtoken::Validation::new(jsonwebtoken::Algorithm::HS256);
    validation.validate_exp = false;
    validation.required_spec_claims.clear();
    match jsonwebtoken::decode::<std::collections::BTreeMap<String, serde_json::Value>>(token, &key, &validation) {
        Ok(d) => Ok(TokenFields {
            sub: d.claims.get("sub").and_then(|v| v.as_str()).map(String::from),
            exp: d.claims.get("exp").and_then(|v| v.as_i64()),
            iat: d.claims.get("iat").and_then(|v| v.as_i64()),
        }),
        Err(e) => match e.kind() {
            jsonwebtoken::errors::ErrorKind::InvalidSignature => Err(TokenError::InvalidSignature),
            _ => Err(TokenError::Malformed),
        },
    }
}

impl Claims {
    /// The claims of a token issued at `now` for `user_id`, valid for `ttl` seconds.
    pub fn issued_at(user_id: String, now: i64, ttl: i64) -> (r: Claims)
        requires
            clock_instant(now as int),
            valid_ttl(ttl as int),
        ensures
            r.sub@ == user_id@,
            r.iat == now,
            r.exp == now + ttl,
    {
        Claims { sub: user_id, exp: now + ttl, iat: now }
    }

    /// The claims of a token issued now for `user_id`, valid for `expiration_seconds`.
    pub fn new(user_id: String, expiration_seconds: i64) -> (r: Claims)
        requires
            valid_ttl(expiration_seconds as int),
        ensures
            r.sub@ == user_id@,
            clock_instant(r.iat as int),
            r.exp == r.iat + expiration_seconds,
    {
        Claims::issued_at(user_id, unix_now(), expiration_seconds)
    }

    /// Whether the claims still hold at time `now`: they do until their expiry.
    pub fn check_at(self, now: i64) -> (r: Result<Claims, TokenError>)
        ensures
            now >= self.exp ==> r == Err::<Claims, TokenError>(TokenError::Expired),
            now < self.exp ==> (r matches Ok(c) && c.sub@ == self.sub@ && c.exp == self.exp
                && c.iat == self.iat),
    {
        if now >= self.exp {
            Err(TokenError::Expired)
        } else {
            Ok(self)
        }
    }
}

/// Signs a set of claims with the secret.
pub fn sign_claims(claims: &Claims, secret: &str) -> (r: Result<String, jsonwebtoken::errors::Error>)
    ensures
        r is Ok,
        r matches Ok(t) ==> t@ == token_of(*claims, secret@),
        r matches Ok(t) ==> opened_claims(t@, secret@) == Some(claims_fields(*claims)),
{
    jwt_sign(claims.sub.as_str(), claims.exp, claims.iat, secret)
}

/// Issues a token for `user_id` valid for `ttl` seconds from now.
pub fn issue_token(user_id: String, ttl: i64, secret: &str) -> (r: Result<String, jsonwebtoken::errors::Error>)
    requires
        valid_ttl(ttl as int),
    ensures
        r is Ok,
        r matches Ok(t) ==> exists|iat: i64|
            clock_instant(iat as int) && t@ == #[trigger] jwt_signed(user_id@, iat + ttl, iat as int, secret@)
                && opened_claims(t@, secret@) == Some((user_id@, (iat + ttl) as i64, iat)),
{
    let claims = Claims::new(user_id, ttl);
    let r = sign_claims(&claims, secret);
    assert(r matches Ok(t) && t@ == jwt_signed(claims.sub@, claims.iat + ttl, claims.iat as int, secret@));
    r
}

/// Issues a short-lived access token for `user_id`.
pub fn create_token(user_id: String, config: &JwtConfig) -> (r: Result<String, jsonwebtoken::errors::Error>)
    requires
        valid_ttl(config.expiration as int),
    ensures
        r is Ok,
        r matches Ok(t) ==> exists|iat: i64|
            clock_instant(iat as int) && t@ == #[trigger] jwt_signed(user_id@, iat + config.expiration, iat as int, config.secret@)
                && opened_claims(t@, config.secret@) == Some((user_id@, (iat + config.expiration) as i64, iat)),
{
    issue_token(user_id, config.expiration, config.secret.as_str())
}

/// Issues a long-lived refresh token for `user_id`: the access token's form
/// with the refresh lifetime.
pub fn create_refresh_token(user_id: String, config: &JwtConfig) -> (r: Result<String, jsonwebtoken::errors::Error>)
    requires
        valid_ttl(config.refresh_expiration as int),
    ensures
        r is Ok,
        r matches Ok(t) ==> exists|iat: i64|
            clock_instant(iat as int) && t@ == #[trigger] jwt_signed(user_id@, iat + config.refresh_expiration, iat as int, config.secret@)
                && opened_claims(t@, config.secret@) == Some((user_id@, (iat + config.refresh_expiration) as i64, iat)),
{
    issue_token(user_id, config.refresh_expiration, config.secret.as_str())
}

/// Reads a token's claims after checking its signature, without looking at the time.
pub fn decode_token(token: &str, secret: &str) -> (r: Result<Claims, TokenError>)
    ensures
        opened_claims(token@, secret@) matches Some(c) ==> (r matches Ok(d) && claims_fields(d) == c),
        opened_claims(token@, secret@) is None ==> (r matches Err(e) && e != TokenError::Expired),
        dot_count(token@) < 2 ==> r == Err::<Claims, TokenError>(TokenError::Malformed),
{
    match jwt_open(token, secret) {
        Ok(TokenFields { sub: Some(sub), exp: Some(exp), iat: Some(iat) }) => Ok(Claims { sub, exp, iat }),
        Ok(_) => Err(TokenError::Malformed),
        Err(e) => Err(e),
    }
}

/// Checks a token at time `now`: its signature must match the secret, its
/// payload must hold the claims, and its lifetime must not be over.
pub fn verify_token_at(token: &str, secret: &str, now: i64) -> (r: Result<Claims, TokenError>)
    ensures
        opened_claims(token@, secret@) is None ==> (r matches Err(e) && e != TokenError::Expired),
        opened_claims(token@, secret@) matches Some(c) ==> {
            &&& now >= c.1 ==> r == Err::<Claims, TokenError>(TokenError::Expired)
            &&& now < c.1 ==> (r matches Ok(d) && claims_fields(d) == c)
        },
        dot_count(token@) < 2 ==> r == Err::<Claims, TokenError>(TokenError::Malformed),
        token_verdict(token@, secret@, now as int) matches Some(v) ==> outcome(r) == v,
{
    match decode_token(token, secret) {
        Ok(c) => c.check_at(now),
        Err(e) => Err(e),
    }
}

/// Checks a token against the secret and the current time.
pub fn verify_token(token: &str, secret: &str) -> (r: Result<Claims, TokenError>)
    ensures
        opened_claims(token@, secret@) is None ==> (r matches Err(e) && e != TokenError::Expired),
        opened_claims(token@, secret@) matches Some(c) ==> (r == Err::<Claims, TokenError>(TokenError::Expired)
            || (r matches Ok(d) && claims_fields(d) == c)),
        opened_claims(token@, secret@) matches Some(c) ==> (c.1 >= CLOCK_LIMIT_SECONDS ==> (r matches Ok(d)
            && claims_fields(d) == c)),
        dot_count(token@) < 2 ==> r == Err::<Claims, TokenError>(TokenError::Malformed),
{
    verify_token_at(token, secret, unix_now())
}

/// A token issued at `iat` for `ttl > 0` seconds is accepted at `iat` with
/// its subject, and turned away as expired at every time from `iat + ttl` on.
pub proof fn lemma_issue_then_verify(token: Seq<char>, secret: Seq<char>, sub: Seq<char>, iat: i64, ttl: i64, later: int)
    requires
        clock_instant(iat as int),
        valid_ttl(ttl as int),
        ttl > 0,
        opened_claims(token, secret) == Some((sub, (iat + ttl) as i64, iat)),
        later >= iat + ttl,
    ensures
        token_verdict(token, secret, iat as int) == Some(Ok::<Seq<char>, TokenError>(sub)),
        token_verdict(token, secret, later) == Some(Err::<Seq<char>, TokenError>(TokenError::Expired)),
{
}

} // verus!
