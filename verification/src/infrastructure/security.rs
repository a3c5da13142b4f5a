//! Signed identity tokens and password hashing.

use vstd::prelude::*;

use crate::clock::unix_now;
use crate::ids::{uuid_parsed, uuid_text, UserId};
use crate::text::join2;

verus! {

/// For how many seconds past its expiry a token is still accepted: none.
pub const EXPIRY_LEEWAY: u64 = 0;

/// The payload of a token: the subject's identifier as text, and the times
/// of expiry and of issue in seconds since the Unix epoch.
#[derive(Debug)]
pub struct Claims {
    pub sub: String,
    pub exp: usize,
    pub iat: usize,
}

/// `Claims` as plain values.
pub struct ClaimsView {
    pub sub: Seq<char>,
    pub exp: u64,
    pub iat: u64,
}

impl View for Claims {
    type V = ClaimsView;

    open spec fn view(&self) -> ClaimsView {
        ClaimsView { sub: self.sub@, exp: self.exp as u64, iat: self.iat as u64 }
    }
}

/// The three claims as they were found in a verified token's payload; a
/// claim that is absent, or not of the expected JSON type, is `None`.
#[derive(Debug)]
pub struct DecodedClaims {
    pub sub: Option<String>,
    pub exp: Option<u64>,
    pub iat: Option<u64>,
}

/// Why a token was not issued or not accepted.
#[derive(Debug)]
pub enum TokenError {
    /// The token is malformed, wrongly signed, expired or lacks a claim.
    InvalidToken,
    /// The signing library failed; its message.
    Signing(String),
    /// The time of issue or of expiry is not a non-negative timestamp.
    ExpiryOutOfRange,
}

/// Why a password was not hashed or not checked.
#[derive(Debug)]
pub enum PasswordError {
    /// The stored hash is not a PHC string; the parser's message.
    Malformed(String),
    /// The hashing library failed; its message.
    Hashing(String),
}

/// The error of `jsonwebtoken::encode` and `decode`, carried through as it
/// is.
#[verifier::external_type_specification]
#[verifier::external_body]
pub struct ExJwtError(jsonwebtoken::errors::Error);

/// The error of the password hashing functions of `argon2`, carried
/// through as it is.
#[verifier::external_type_specification]
#[verifier::external_body]
pub struct ExPasswordHashError(argon2::password_hash::Error);

/// The token that `jsonwebtoken::encode` makes with the default header
/// (HS256) for the claims `sub`, `exp` and `iat` under the HMAC secret
/// `secret`, or `None` where it fails.
pub uninterp spec fn signed_token(secret: Seq<char>, sub: Seq<char>, exp: u64, iat: u64) -> Option<
    Seq<char>,
>;

/// Whether `argon2::password_hash::PasswordHash::new` accepts `hash` as a
/// PHC string.
pub uninterp spec fn phc_valid(hash: Seq<char>) -> bool;

/// Whether `hash` is a PHC string against which Argon2 with default
/// settings verifies `password`.
pub uninterp spec fn argon2_accepts(password: Seq<char>, hash: Seq<char>) -> bool;

/// Whether `claims` is what every token equal to `token` was signed for
/// under `secret`.
pub open spec fn faithful(secret: Seq<char>, token: Seq<char>, claims: ClaimsView) -> bool {
    forall|sub: Seq<char>, exp: u64, iat: u64| #[trigger]
        signed_token(secret, sub, exp, iat) == Some(token) ==> claims == (ClaimsView {
            sub,
            exp,
            iat,
        })
}

/// Trusted: `jsonwebtoken::encode` with `Header::default()` and
/// `EncodingKey::from_secret`, on a JSON object of the three claims. The
/// result depends on the arguments alone, so it is named: `signed_token`.
/// (It is computed by the crate's built-in provider of HMAC; this crate
/// installs no other.)
#[verifier::external_body]
fn jwt_encode(secret: &str, sub: &str, exp: u64, iat: u64) -> (r: Result<
    String,
    jsonwebtoken::errors::Error,
>)
    ensures
        match r {
            Ok(token) => signed_token(secret@, sub@, exp, iat) == Some(token@),
            Err(_) => signed_token(secret@, sub@, exp, iat) is None,
        },
{
    let mut claims = serde_json::Map::new();
    claims.insert(String::from("sub"), serde_json::Value::from(sub));
    claims.insert(String::from("exp"), serde_json::Value::from(exp));
    claims.insert(String::from("iat"), serde_json::Value::from(iat));
    let key = jsonwebtoken::EncodingKey::from_secret(secret.as_bytes());
    jsonwebtoken::encode(&jsonwebtoken::Header::default(), &claims, &key)
}

/// Trusted: `jsonwebtoken::decode` with `DecodingKey::from_secret` and
/// `Validation::default()` with its `leeway` set to `leeway` seconds, which
/// checks the HS256 signature and, against the machine's clock, the
/// expiry. Whether it accepts depends on the time, so only this is claimed:
/// what it accepts carries the payload that was signed. The payload is read
/// back from the very text that `encode` wrote, so a token made by `encode`
/// under the same secret yields its own claims. The leeway is held to
/// `EXPIRY_LEEWAY`: the validation subtracts it from the current time in
/// unsigned arithmetic, which a leeway greater than that time would
/// overflow.
#[verifier::external_body]
fn jwt_decode(token: &str, secret: &str, leeway: u64) -> (r: Result<
    DecodedClaims,
    jsonwebtoken::errors::Error,
>)
    requires
        leeway == EXPIRY_LEEWAY,
    ensures
        r matches Ok(found) ==> forall|sub: Seq<char>, exp: u64, iat: u64| #[trigger]
            signed_token(secret@, sub, exp, iat) == Some(token@) ==> {
                &&& found.sub matches Some(s) && s@ == sub
                &&& found.exp == Some(exp)
                &&& found.iat == Some(iat)
            },
{
    let key = jsonwebtoken::DecodingKey::from_secret(secret.as_bytes());
    let mut validation = jsonwebtoken::Validation::default();
    validation.leeway = leeway;
    let claims = jsonwebtoken::decode::<serde_json::Value>(token, &key, &validation)?.claims;
    Ok(
        DecodedClaims {
            sub: claims["sub"].as_str().map(String::from),
            exp: claims["exp"].as_u64(),
            iat: claims["iat"].as_u64(),
        },
    )
}

/// Trusted: `Display` of `jsonwebtoken::errors::Error`.
#[verifier::external_body]
fn jwt_error_text(e: &jsonwebtoken::errors::Error) -> String {
    e.to_string()
}

/// Trusted: `Argon2::default().hash_password` with a salt from
/// `SaltString::generate(&mut OsRng)`, written as a PHC string. The salt is
/// random, so the hash has no name; as the crate documents, the string
/// parses as a PHC string and verifies against the same password.
#[verifier::external_body]
fn argon2_hash(password: &str) -> (r: Result<String, argon2::password_hash::Error>)
    ensures
        r matches Ok(hash) ==> phc_valid(hash@) && argon2_accepts(password@, hash@),
{
    let salt = argon2::password_hash::SaltString::generate(
        &mut argon2::password_hash::rand_core::OsRng,
    );
    let hasher = argon2::Argon2::default();
    let hash = argon2::PasswordHasher::hash_password(&hasher, password.as_bytes(), &salt)?;
    Ok(hash.to_string())
}

/// Trusted: `PasswordHash::new`, the PHC string parser. The result depends
/// on the text alone, so it is named: `phc_valid`.
#[verifier::external_body]
fn phc_parse(hash: &str) -> (r: Result<(), argon2::password_hash::Error>)
    ensures
        r is Ok == phc_valid(hash@),
{
    argon2::PasswordHash::new(hash).map(|_| ())
}

/// Trusted: `Argon2::default().verify_password` on the parsed `hash`, which
/// recomputes the hash of `password` with the salt and the parameters that
/// `hash` holds and compares. The result depends on the two texts alone, so
/// it is named: `argon2_accepts`. A text that does not parse is not accepted.
#[verifier::external_body]
fn argon2_verify(password: &str, hash: &str) -> (r: bool)
    ensures
        r == argon2_accepts(password@, hash@),
        r ==> phc_valid(hash@),
{
    match argon2::PasswordHash::new(hash) {
        Ok(parsed) => argon2::PasswordVerifier::verify_password(
            &argon2::Argon2::default(),
            password.as_bytes(),
            &parsed,
        ).is_ok(),
        Err(_) => false,
    }
}

/// Trusted: `Display` of `argon2::password_hash::Error`.
#[verifier::external_body]
fn password_error_text(e: &argon2::password_hash::Error) -> String {
    e.to_string()
}

impl TokenError {
    /// The text of the error.
    pub fn message(&self) -> (r: String)
        ensures
            r@ == match self {
                TokenError::InvalidToken => "InvalidToken"@,
                TokenError::Signing(m) => "Signing failed: "@ + m@,
                TokenError::ExpiryOutOfRange => "Expiry out of range"@,
            },
    {
        match self {
            TokenError::InvalidToken => "InvalidToken".to_owned(),
            TokenError::Signing(m) => join2("Signing failed: ", m.as_str()),
            TokenError::ExpiryOutOfRange => "Expiry out of range".to_owned(),
        }
    }
}

impl PasswordError {
    /// The text of the error: the library's message.
    pub fn message(&self) -> (r: String)
        ensures
            r@ == match self {
                PasswordError::Malformed(m) => m@,
                PasswordError::Hashing(m) => m@,
            },
    {
        match self {
            PasswordError::Malformed(m) => m.clone(),
            PasswordError::Hashing(m) => m.clone(),
        }
    }
}

/// The claims of a token issued at `now` for `subject`, valid for `minutes`
/// minutes: `None` unless both the time of issue and the time of expiry are
/// non-negative timestamps that fit the claims' fields.
pub open spec fn claims_at(subject: UserId, now: i64, minutes: i64) -> Option<ClaimsView> {
    if 0 <= now <= usize::MAX && 0 <= now + 60 * minutes <= i64::MAX && now + 60 * minutes
        <= usize::MAX {
        Some(
            ClaimsView {
                sub: uuid_text(subject.0),
                exp: (now + 60 * minutes) as u64,
                iat: now as u64,
            },
        )
    } else {
        None
    }
}

/// The claims of a token issued at `now` for `subject` that expires
/// `minutes` minutes later.
pub fn claims_for(subject: UserId, now: i64, minutes: i64) -> (r: Result<Claims, TokenError>)
    ensures
        match r {
            Ok(c) => claims_at(subject, now, minutes) == Some(c@) && uuid_parsed(c@.sub) == Some(
                subject.0,
            ),
            Err(e) => claims_at(subject, now, minutes) is None && e is ExpiryOutOfRange,
        },
{
    if now < 0 {
        return Err(TokenError::ExpiryOutOfRange);
    }
    let span: i64 = match minutes.checked_mul(60) {
        Some(s) => s,
        None => {
            return Err(TokenError::ExpiryOutOfRange);
        },
    };
    let exp: i64 = match now.checked_add(span) {
        Some(e) => e,
        None => {
            return Err(TokenError::ExpiryOutOfRange);
        },
    };
    if exp < 0 || exp as u64 > usize::MAX as u64 || now as u64 > usize::MAX as u64 {
        return Err(TokenError::ExpiryOutOfRange);
    }
    Ok(Claims { sub: subject.to_text(), exp: exp as usize, iat: now as usize })
}

/// The claims of a verified token, if all three were found and fit.
pub open spec fn accepted(found: DecodedClaims) -> Option<ClaimsView> {
    match (found.sub, found.exp, found.iat) {
        (Some(sub), Some(exp), Some(iat)) => if exp <= usize::MAX && iat <= usize::MAX {
            Some(ClaimsView { sub: sub@, exp, iat })
        } else {
            None
        },
        _ => None,
    }
}

/// Accepts the claims of a verified token: all three must be there.
pub fn accept_claims(found: DecodedClaims) -> (r: Result<Claims, TokenError>)
    ensures
        match r {
            Ok(c) => accepted(found) == Some(c@),
            Err(e) => accepted(found) is None && e is InvalidToken,
        },
{
    match (found.sub, found.exp, found.iat) {
        (Some(sub), Some(exp), Some(iat)) => {
            if exp <= usize::MAX as u64 && iat <= usize::MAX as u64 {
                Ok(Claims { sub, exp: exp as usize, iat: iat as usize })
            } else {
                Err(TokenError::InvalidToken)
            }
        },
        _ => Err(TokenError::InvalidToken),
    }
}

/// Issues and verifies tokens under one secret.
#[derive(Clone)]
pub struct JwtService {
    secret: String,
    expiration_minuts: i64,
}

impl JwtService {
    /// The signing secret.
    pub closed spec fn secret(&self) -> Seq<char> {
        self.secret@
    }

    /// The lifetime of a token, in minutes.
    pub closed spec fn expiration(&self) -> i64 {
        self.expiration_minuts
    }

    /// Whether `token` is one that this service signs for `subject`: the
    /// encoding of claims that expire the configured number of minutes
    /// after their issue and whose subject is the text of `subject`, which
    /// reads back as `subject`.
    pub open spec fn issues(&self, subject: UserId, token: Seq<char>) -> bool {
        exists|now: i64|
            {
                &&& #[trigger] claims_at(subject, now, self.expiration()) matches Some(c)
                &&& signed_token(self.secret(), c.sub, c.exp, c.iat) == Some(token)
                &&& uuid_parsed(c.sub) == Some(subject.0)
            }
    }

    /// Whether `token` carries claims whose subject reads as `subject`:
    /// some claims are what every such token was signed for under this
    /// service's secret, and they name `subject`.
    pub open spec fn names(&self, token: Seq<char>, subject: UserId) -> bool {
        exists|c: ClaimsView| #[trigger]
            faithful(self.secret(), token, c) && uuid_parsed(c.sub) == Some(subject.0)
    }

    /// A service that signs with `secret` tokens valid for
    /// `expiration_minuts` minutes.
    pub fn new(secret: String, expiration_minuts: i64) -> (r: JwtService)
        ensures
            r.secret() == secret@,
            r.expiration() == expiration_minuts,
    {
        JwtService { secret, expiration_minuts }
    }

    /// A copy of the service.
    pub fn duplicate(&self) -> (r: JwtService)
        ensures
            r.secret() == self.secret(),
            r.expiration() == self.expiration(),
    {
        JwtService { secret: self.secret.clone(), expiration_minuts: self.expiration_minuts }
    }

    /// Signs `claims`.
    pub fn sign(&self, claims: &Claims) -> (r: Result<String, TokenError>)
        ensures
            match r {
                Ok(token) => signed_token(self.secret(), claims@.sub, claims@.exp, claims@.iat)
                    == Some(token@),
                Err(e) => signed_token(self.secret(), claims@.sub, claims@.exp, claims@.iat)
                    is None && e is Signing,
            },
    {
        match jwt_encode(
            self.secret.as_str(),
            claims.sub.as_str(),
            claims.exp as u64,
            claims.iat as u64,
        ) {
            Ok(token) => Ok(token),
            Err(e) => Err(TokenError::Signing(jwt_error_text(&e))),
        }
    }

    /// Issues a token for `user_id`, from now until the configured number of
    /// minutes later.
    pub fn generate_token(&self, user_id: UserId) -> (r: Result<String, TokenError>)
        ensures
            match r {
                Ok(token) => self.issues(user_id, token@),
                Err(e) => e is ExpiryOutOfRange || e is Signing,
            },
    {
        let now = unix_now();
        let claims = claims_for(user_id, now, self.expiration_minuts)?;
        let token = self.sign(&claims)?;
        assert(claims_at(user_id, now, self.expiration()) is Some);
        Ok(token)
    }

    /// Verifies the signature and the expiry of `token`, with no leeway
    /// past the expiry, and returns its claims. Every failure is
    /// `InvalidToken`.
    pub fn verify_token(&self, token: &str) -> (r: Result<Claims, TokenError>)
        ensures
            match r {
                Ok(c) => faithful(self.secret(), token@, c@),
                Err(e) => e is InvalidToken,
            },
    {
        match jwt_decode(token, self.secret.as_str(), EXPIRY_LEEWAY) {
            Ok(found) => accept_claims(found),
            Err(_) => Err(TokenError::InvalidToken),
        }
    }
}

/// A token that a service issued for one actor names no other actor:
/// whatever a verification of it under the same secret returns, the subject
/// reads as the actor that it was issued for.
pub proof fn lemma_token_names_its_subject(
    keys: JwtService,
    issued_for: UserId,
    named: UserId,
    token: Seq<char>,
)
    requires
        keys.issues(issued_for, token),
        keys.names(token, named),
    ensures
        named == issued_for,
{
    let now = choose|now: i64|
        {
            &&& #[trigger] claims_at(issued_for, now, keys.expiration()) matches Some(c)
            &&& signed_token(keys.secret(), c.sub, c.exp, c.iat) == Some(token)
            &&& uuid_parsed(c.sub) == Some(issued_for.0)
        };
    let signed = claims_at(issued_for, now, keys.expiration())->0;
    let found = choose|c: ClaimsView| #[trigger]
        faithful(keys.secret(), token, c) && uuid_parsed(c.sub) == Some(named.0);
    assert(signed_token(keys.secret(), signed.sub, signed.exp, signed.iat) == Some(token));
    assert(found == signed);
}

/// Hashes `password` with Argon2 under a fresh random salt.
pub fn password_hash(password: &str) -> (r: Result<String, PasswordError>)
    ensures
        match r {
            Ok(hash) => phc_valid(hash@) && argon2_accepts(password@, hash@),
            Err(e) => e is Hashing,
        },
{
    match argon2_hash(password) {
        Ok(hash) => Ok(hash),
        Err(e) => Err(PasswordError::Hashing(password_error_text(&e))),
    }
}

/// Whether `password` is the one that `hash` was made of. A mismatch is
/// `Ok(false)`; a `hash` that is no PHC string is an error.
pub fn password_verify(password: &str, hash: &str) -> (r: Result<bool, PasswordError>)
    ensures
        match r {
            Ok(valid) => phc_valid(hash@) && valid == argon2_accepts(password@, hash@),
            Err(e) => !phc_valid(hash@) && e is Malformed,
        },
{
    match phc_parse(hash) {
        Ok(_) => Ok(argon2_verify(password, hash)),
        Err(e) => Err(PasswordError::Malformed(password_error_text(&e))),
    }
}

} // verus!
