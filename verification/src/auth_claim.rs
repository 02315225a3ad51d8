//! Claims, signing keys and the token codec.
//!
//! A token is a compact HS256-signed JSON Web Token whose payload carries the
//! three claims `sub`, `company` and `exp`. Signing and signature checking are
//! done by the `jsonwebtoken` crate; everything around them, including the
//! expiry rule, is verified here.

use crate::bearer::{
    bearer_credentials, bearer_token, is_token_text, lemma_bearer_header_carries_token,
};
use crate::decimal::{decimal, push_decimal};
use crate::token_shape::{dots, last_dot, lemma_last_dot, lemma_same_message, message_part, signature_part};
use vstd::prelude::*;
use vstd::slice::slice_to_vec;

verus! {

/// The ways in which authentication can fail.
#[derive(Debug, Clone, Copy, PartialEq, Eq, Structural)]
pub enum AuthError {
    /// The credentials do not match the accepted identity.
    WrongCredentials,
    /// A credential field is empty.
    MissingCredentials,
    /// The token could not be signed.
    TokenCreation,
    /// The token is absent, malformed, wrongly signed or expired.
    InvalidToken,
}

/// The claims carried by a token.
#[derive(Debug, Clone, PartialEq, Eq)]
pub struct Claims {
    /// Subject, typically a user identifier.
    pub sub: String,
    /// Company or organization label.
    pub company: String,
    /// Expiry, in seconds since the Unix epoch.
    pub exp: usize,
}

/// The mathematical content of [`Claims`].
pub struct ClaimSet {
    pub sub: Seq<char>,
    pub company: Seq<char>,
    pub exp: nat,
}

impl View for Claims {
    type V = ClaimSet;

    open spec fn view(&self) -> ClaimSet {
        ClaimSet { sub: self.sub@, company: self.company@, exp: self.exp as nat }
    }
}

/// What a correctly signed token holds, before it is known to be a complete
/// and current claim set: each member is present only if the token's payload
/// has it with the right JSON type.
#[derive(Debug, Clone, PartialEq, Eq)]
pub struct Payload {
    /// The `sub` member, if it is a string.
    pub sub: Option<String>,
    /// The `company` member, if it is a string.
    pub company: Option<String>,
    /// The `exp` member, if it is a non-negative integer below 2^64.
    pub exp: Option<u64>,
}

/// The mathematical content of a [`Payload`].
pub struct PayloadView {
    pub sub: Option<Seq<char>>,
    pub company: Option<Seq<char>>,
    pub exp: Option<u64>,
}

impl View for Payload {
    type V = PayloadView;

    open spec fn view(&self) -> PayloadView {
        PayloadView {
            sub: match self.sub {
                Some(s) => Some(s@),
                None => None,
            },
            company: match self.company {
                Some(s) => Some(s@),
                None => None,
            },
            exp: self.exp,
        }
    }
}

/// The signing secret, shared by encoding and decoding.
pub struct Keys {
    secret: Vec<u8>,
}

impl View for Keys {
    type V = Seq<u8>;

    closed spec fn view(&self) -> Seq<u8> {
        self.secret@
    }
}

impl Keys {
    /// Keeps a copy of `secret` as the key for signing and for checking
    /// signatures.
    pub fn new(secret: &[u8]) -> (keys: Keys)
        ensures
            keys@ == secret@,
    {
        Keys { secret: slice_to_vec(secret) }
    }
}

/// `jsonwebtoken::errors::Error`, the error of the token crate. Nothing is
/// read from it: every error is mapped to one of [`AuthError`].
#[verifier::external_type_specification]
#[verifier::external_body]
pub struct ExTokenError(jsonwebtoken::errors::Error);

/// The token that `jsonwebtoken::encode` returns for the default header
/// (HS256), a payload with exactly the members `sub`, `company` and `exp`, and
/// an HMAC key made from `secret`; `None` where it returns an error.
pub uninterp spec fn signed_token(sub: Seq<char>, company: Seq<char>, exp: u64, secret: Seq<u8>) -> Option<
    Seq<char>,
>;

/// What `jsonwebtoken::decode` reads from `token` under an HMAC key made from
/// `secret`, with the default validation rules except that expiry is not
/// compared with the clock; `None` where it returns an error.
pub uninterp spec fn token_payload(token: Seq<char>, secret: Seq<u8>) -> Option<PayloadView>;

/// The signature that `jsonwebtoken::crypto::sign` computes for `message`
/// with HS256 under an HMAC key made from `secret`: the base64url text of the
/// HMAC-SHA256 of the message.
pub uninterp spec fn signature_of(message: Seq<char>, secret: Seq<u8>) -> Seq<char>;

/// Whether `token` is a header, a payload and a signature, joined by dots,
/// with the signature that belongs to the message under `secret`.
pub open spec fn well_signed(token: Seq<char>, secret: Seq<u8>) -> bool {
    &&& dots(token) == 2
    &&& signature_part(token) == signature_of(message_part(token), secret)
}

/// The payload that signing the claims `c` puts into a token.
pub open spec fn payload_of(c: ClaimSet) -> PayloadView {
    PayloadView { sub: Some(c.sub), company: Some(c.company), exp: Some(c.exp as u64) }
}

/// Calls `jsonwebtoken::encode` with the default header on a JSON object made
/// of the three claims, and `EncodingKey::from_secret(secret)`.
///
/// Trusted, of a token that comes out:
/// - it depends on the arguments alone;
/// - it is well signed: `encode` joins the base64url texts of the header and
///   of the payload by a dot, signs that message with `crypto::sign`, and
///   appends a dot and the signature; base64url text holds no dot;
/// - it is token text: the three parts are base64url text without padding,
///   which is made of letters, digits, hyphens and underscores;
/// - [`read_token`] accepts it under the same secret and reads back the same
///   three members: `decode` recomputes the signature over the same message
///   and compares, and the payload is the JSON text of the object.
#[verifier::external_body]
fn sign_claims(sub: &str, company: &str, exp: u64, secret: &[u8]) -> (r: Result<
    String,
    jsonwebtoken::errors::Error,
>)
    ensures
        match r {
            Ok(t) => {
                &&& signed_token(sub@, company@, exp, secret@) == Some(t@)
                &&& is_token_text(t@)
                &&& dots(t@) == 2
                &&& signature_part(t@) == signature_of(message_part(t@), secret@)
                &&& token_payload(t@, secret@) == Some(
                    PayloadView { sub: Some(sub@), company: Some(company@), exp: Some(exp) },
                )
            },
            Err(_) => signed_token(sub@, company@, exp, secret@) is None,
        },
{
    let mut claims = serde_json::Map::new();
    claims.insert("sub".to_owned(), serde_json::Value::from(sub));
    claims.insert("company".to_owned(), serde_json::Value::from(company));
    claims.insert("exp".to_owned(), serde_json::Value::from(exp));
    let key = jsonwebtoken::EncodingKey::from_secret(secret);
    jsonwebtoken::encode(&jsonwebtoken::Header::default(), &claims, &key)
}

/// Calls `jsonwebtoken::decode` with `DecodingKey::from_secret(secret)` and
/// `Validation::default()` with `validate_exp` switched off, and picks the
/// three members out of the payload.
///
/// Trusted:
/// - the outcome depends on the arguments alone. With `validate_exp` off the
///   crate does not read the clock; the caller compares the expiry with the
///   time it was given. The signature, the algorithm and the presence of
///   `exp` are still checked by the crate;
/// - a token that is accepted is well signed: `decode` splits the token at
///   its last dot into message and signature, and the message at its last dot
///   into header and payload; the header must be base64url text, which holds
///   no dot; for HS256 `crypto::verify` signs the message anew and accepts
///   only a signature equal to the result.
#[verifier::external_body]
fn read_token(token: &str, secret: &[u8]) -> (r: Result<Payload, jsonwebtoken::errors::Error>)
    ensures
        match r {
            Ok(p) => {
                &&& token_payload(token@, secret@) == Some(p@)
                &&& dots(token@) == 2
                &&& signature_part(token@) == signature_of(message_part(token@), secret@)
            },
            Err(_) => token_payload(token@, secret@) is None,
        },
{
    let mut rules = jsonwebtoken::Validation::default();
    rules.validate_exp = false;
    let key = jsonwebtoken::DecodingKey::from_secret(secret);
    let claims = jsonwebtoken::decode::<serde_json::Value>(token, &key, &rules)?.claims;
    Ok(Payload {
        sub: claims.get("sub").and_then(|v| v.as_str()).map(|s| s.to_owned()),
        company: claims.get("company").and_then(|v| v.as_str()).map(|s| s.to_owned()),
        exp: claims.get("exp").and_then(|v| v.as_u64()),
    })
}

/// The claim set that a payload stands for at time `now`: all three members
/// must be present, the expiry must fit the machine word, and it must lie
/// after `now`.
pub open spec fn accepted(p: PayloadView, now: u64) -> Option<ClaimSet> {
    if p.sub is Some && p.company is Some && p.exp is Some && p.exp->0 <= usize::MAX && now
        < p.exp->0 {
        Some(ClaimSet { sub: p.sub->0, company: p.company->0, exp: p.exp->0 as nat })
    } else {
        None
    }
}

/// What decoding `token` under `secret` at time `now` yields: the claims of
/// a well-signed token whose payload is complete and not expired, and
/// `InvalidToken` for everything else.
pub open spec fn decoded(token: Seq<char>, secret: Seq<u8>, now: u64) -> Result<
    ClaimSet,
    AuthError,
> {
    if !well_signed(token, secret) {
        Err(AuthError::InvalidToken)
    } else {
        match token_payload(token, secret) {
            Some(p) => match accepted(p, now) {
                Some(c) => Ok(c),
                None => Err(AuthError::InvalidToken),
            },
            None => Err(AuthError::InvalidToken),
        }
    }
}

/// Round trip: a well-signed token whose payload is that of the claims `c`
/// decodes to `c` at every time before the expiry of `c`.
pub proof fn lemma_round_trip(c: ClaimSet, token: Seq<char>, secret: Seq<u8>, now: u64)
    requires
        well_signed(token, secret),
        token_payload(token, secret) == Some(payload_of(c)),
        c.exp <= usize::MAX,
        now < c.exp,
    ensures
        decoded(token, secret, now) == Ok::<ClaimSet, AuthError>(c),
{
}

/// Expiry: a token that carries an expiry at or before `now` is rejected,
/// however good its signature.
pub proof fn lemma_expired_is_rejected(token: Seq<char>, secret: Seq<u8>, now: u64)
    ensures
        token_payload(token, secret) matches Some(p) && p.exp matches Some(e) && e <= now
            ==> decoded(token, secret, now) == Err::<ClaimSet, AuthError>(
            AuthError::InvalidToken,
        ),
{
}

/// Tampering: replacing the signature of a well-signed token by anything
/// else gives a token that is rejected: `forged` agrees with `token` up to and including
/// its last dot, and differs from it.
pub proof fn lemma_replaced_signature_is_rejected(
    token: Seq<char>,
    forged: Seq<char>,
    secret: Seq<u8>,
    now: u64,
)
    requires
        well_signed(token, secret),
        forged.len() > last_dot(token),
        forged.take(last_dot(token) + 1) == token.take(last_dot(token) + 1),
        forged != token,
    ensures
        decoded(forged, secret, now) == Err::<ClaimSet, AuthError>(AuthError::InvalidToken),
{
    lemma_last_dot(token);
    if well_signed(forged, secret) {
        lemma_same_message(token, forged);
        let k = last_dot(token) + 1;
        assert(token =~= token.take(k) + signature_part(token));
        assert(forged =~= forged.take(k) + signature_part(forged));
        assert(false);
    }
}

/// Tampering: changing any one character of the signature of a well-signed
/// token gives a token that is rejected.
pub proof fn lemma_flipped_signature_is_rejected(
    token: Seq<char>,
    i: int,
    c: char,
    secret: Seq<u8>,
    now: u64,
)
    requires
        well_signed(token, secret),
        last_dot(token) < i < token.len(),
        c != token[i],
    ensures
        decoded(token.update(i, c), secret, now) == Err::<ClaimSet, AuthError>(
            AuthError::InvalidToken,
        ),
{
    lemma_last_dot(token);
    let forged = token.update(i, c);
    assert(forged[i] != token[i]);
    assert(forged.take(last_dot(token) + 1) =~= token.take(last_dot(token) + 1));
    lemma_replaced_signature_is_rejected(token, forged, secret, now);
}

/// Turns the payload of a correctly signed token into claims, or rejects it.
///
/// The token is rejected when a member is missing or when `exp <= now`.
pub fn validate(payload: Payload, now: u64) -> (r: Result<Claims, AuthError>)
    ensures
        match r {
            Ok(c) => accepted(payload@, now) == Some(c@),
            Err(e) => e == AuthError::InvalidToken && accepted(payload@, now) is None,
        },
        payload.exp matches Some(e) && e <= now ==> r is Err,
{
    let Payload { sub, company, exp } = payload;
    match (sub, company, exp) {
        (Some(sub), Some(company), Some(exp)) => {
            if exp <= now || exp > usize::MAX as u64 {
                Err(AuthError::InvalidToken)
            } else {
                Ok(Claims { sub, company, exp: exp as usize })
            }
        },
        _ => Err(AuthError::InvalidToken),
    }
}

/// Signs `claims` into a token.
///
/// The same claims and key always give the same token. A token that comes
/// out decodes, under the same key, to the same claims at every time before
/// the expiry, and to `InvalidToken` from the expiry on. Changing any one
/// character of its signature gives a token that never decodes. Behind
/// `Bearer` and a space, the token is what a request's header carries.
pub fn encode(claims: &Claims, keys: &Keys) -> (r: Result<String, AuthError>)
    ensures
        match r {
            Ok(t) => {
                &&& signed_token(claims@.sub, claims@.company, claims.exp as u64, keys@) == Some(t@)
                &&& well_signed(t@, keys@)
                &&& is_token_text(t@)
                &&& bearer_credentials("Bearer "@ + t@) == Some(t@)
                &&& forall|now: u64|
                    now < claims.exp ==> #[trigger] decoded(t@, keys@, now) == Ok::<
                        ClaimSet,
                        AuthError,
                    >(claims@)
                &&& forall|now: u64|
                    now >= claims.exp ==> #[trigger] decoded(t@, keys@, now) == Err::<
                        ClaimSet,
                        AuthError,
                    >(AuthError::InvalidToken)
                &&& forall|i: int, c: char, now: u64|
                    last_dot(t@) < i < t@.len() && c != t@[i] ==> #[trigger] decoded(
                        t@.update(i, c),
                        keys@,
                        now,
                    ) == Err::<ClaimSet, AuthError>(AuthError::InvalidToken)
            },
            Err(e) => {
                &&& e == AuthError::TokenCreation
                &&& signed_token(claims@.sub, claims@.company, claims.exp as u64, keys@) is None
            },
        },
{
    match sign_claims(
        claims.sub.as_str(),
        claims.company.as_str(),
        claims.exp as u64,
        keys.secret.as_slice(),
    ) {
        Ok(token) => {
            proof {
                lemma_bearer_header_carries_token(token@);
            }
            assert forall|now: u64| now < claims.exp implies #[trigger] decoded(
                token@,
                keys@,
                now,
            ) == Ok::<ClaimSet, AuthError>(claims@) by {
                lemma_round_trip(claims@, token@, keys@, now);
            }
            assert forall|i: int, c: char, now: u64|
                last_dot(token@) < i < token@.len() && c != token@[i] implies #[trigger] decoded(
                token@.update(i, c),
                keys@,
                now,
            ) == Err::<ClaimSet, AuthError>(AuthError::InvalidToken) by {
                lemma_flipped_signature_is_rejected(token@, i, c, keys@, now);
            }
            Ok(token)
        },
        Err(_) => Err(AuthError::TokenCreation),
    }
}

/// Checks the signature and structure of `token` under `keys` and its expiry
/// against `now`, and returns the claims it carries.
///
/// Every failure is `InvalidToken`: a malformed token, a signature that does
/// not match, a missing claim, or `exp <= now`.
pub fn decode(token: &str, keys: &Keys, now: u64) -> (r: Result<Claims, AuthError>)
    ensures
        match r {
            Ok(c) => decoded(token@, keys@, now) == Ok::<ClaimSet, AuthError>(c@),
            Err(e) => e == AuthError::InvalidToken && decoded(token@, keys@, now) is Err,
        },
{
    match read_token(token, keys.secret.as_slice()) {
        Ok(payload) => validate(payload, now),
        Err(_) => Err(AuthError::InvalidToken),
    }
}

/// The credentials presented at login.
#[derive(Debug, Clone, PartialEq, Eq)]
pub struct AuthPayload {
    /// Client identifier.
    pub client_id: String,
    /// Client secret.
    pub client_secret: String,
}

/// The body of a successful login response.
#[derive(Debug, Clone, PartialEq, Eq)]
pub struct AuthBody {
    /// The signed access token.
    pub access_token: String,
    /// The type of the token, always `"Bearer"`.
    pub token_type: String,
}

impl AuthBody {
    /// Wraps `access_token` as a bearer token.
    pub fn new(access_token: String) -> (body: AuthBody)
        ensures
            body.access_token@ == access_token@,
            body.token_type@ == "Bearer"@,
    {
        AuthBody { access_token, token_type: String::from_str("Bearer") }
    }
}

/// Whether the credential pair is the accepted identity.
pub open spec fn is_accepted_identity(client_id: Seq<char>, client_secret: Seq<char>) -> bool {
    client_id == "foo"@ && client_secret == "bar"@
}

/// The claims issued to the accepted identity.
pub open spec fn issued_claims() -> ClaimSet {
    ClaimSet { sub: "b@b.com"@, company: "ACME"@, exp: 2000000000 }
}

/// The verdict on a credential pair: empty fields are reported before a
/// mismatch, and a match yields the issued claims.
pub open spec fn credentials_verdict(client_id: Seq<char>, client_secret: Seq<char>) -> Result<
    ClaimSet,
    AuthError,
> {
    if client_id.len() == 0 || client_secret.len() == 0 {
        Err(AuthError::MissingCredentials)
    } else if !is_accepted_identity(client_id, client_secret) {
        Err(AuthError::WrongCredentials)
    } else {
        Ok(issued_claims())
    }
}

/// Validates a credential pair and names the claims to issue for it.
pub fn check_credentials(payload: &AuthPayload) -> (r: Result<Claims, AuthError>)
    ensures
        match r {
            Ok(c) => credentials_verdict(payload.client_id@, payload.client_secret@) == Ok::<
                ClaimSet,
                AuthError,
            >(c@),
            Err(e) => credentials_verdict(payload.client_id@, payload.client_secret@) == Err::<
                ClaimSet,
                AuthError,
            >(e),
        },
{
    if payload.client_id.as_str().is_empty() || payload.client_secret.as_str().is_empty() {
        return Err(AuthError::MissingCredentials);
    }
    if payload.client_id != String::from_str("foo") || payload.client_secret != String::from_str(
        "bar",
    ) {
        return Err(AuthError::WrongCredentials);
    }
    Ok(
        Claims {
            sub: String::from_str("b@b.com"),
            company: String::from_str("ACME"),
            exp: 2000000000,
        },
    )
}

/// The audit line for a successful login: it names the organization that was
/// authorized.
pub fn audit_line(claims: &Claims) -> (line: String)
    ensures
        line@ == "Client Authorised: "@ + claims.company@,
{
    let mut line = String::from_str("Client Authorised: ");
    line.append(claims.company.as_str());
    line
}

/// Turns the outcome of signing into the login response.
pub fn grant(signed: Result<String, AuthError>) -> (r: Result<AuthBody, AuthError>)
    ensures
        match signed {
            Ok(t) => r matches Ok(body) && body.access_token@ == t@ && body.token_type@
                == "Bearer"@,
            Err(_) => r == Err::<AuthBody, AuthError>(AuthError::TokenCreation),
        },
{
    match signed {
        Ok(token) => Ok(AuthBody::new(token)),
        Err(_) => Err(AuthError::TokenCreation),
    }
}

/// The token that a login under `secret` issues, if signing succeeds.
pub open spec fn issued_token(secret: Seq<u8>) -> Option<Seq<char>> {
    signed_token(
        issued_claims().sub,
        issued_claims().company,
        issued_claims().exp as u64,
        secret,
    )
}

/// What holds of the token `t` that a login under `secret` issued: in a
/// header it is carried behind `Bearer` and a space; it yields the issued
/// claims, from such a header as by itself, at every time before their expiry,
/// and `InvalidToken` from then on.
pub open spec fn serves_as_issued(t: Seq<char>, secret: Seq<u8>) -> bool {
    &&& bearer_credentials("Bearer "@ + t) == Some(t)
    &&& forall|now: u64|
        #[trigger] decoded(t, secret, now) == if now < issued_claims().exp {
            Ok::<ClaimSet, AuthError>(issued_claims())
        } else {
            Err::<ClaimSet, AuthError>(AuthError::InvalidToken)
        }
    &&& forall|now: u64|
        #[trigger] extracted(Some("Bearer "@ + t), secret, now) == if now < issued_claims().exp {
            Ok::<ClaimSet, AuthError>(issued_claims())
        } else {
            Err::<ClaimSet, AuthError>(AuthError::InvalidToken)
        }
}

/// Validates the credentials, issues a bearer token for them, and names the
/// audit line to emit for the login.
///
/// Empty fields give `MissingCredentials`, whatever the other field holds;
/// non-empty fields that are not the accepted identity give
/// `WrongCredentials`; for the accepted identity the issued claims are signed
/// with `keys`, and `TokenCreation` is returned only if signing fails. There
/// is an audit line only where the login succeeds: it names the organization
/// of the issued claims.
pub fn authorize_audited(payload: AuthPayload, keys: &Keys) -> (r: Result<
    (AuthBody, String),
    AuthError,
>)
    ensures
        payload.client_id@.len() == 0 || payload.client_secret@.len() == 0 ==> r == Err::<
            (AuthBody, String),
            AuthError,
        >(AuthError::MissingCredentials),
        payload.client_id@.len() > 0 && payload.client_secret@.len() > 0 && !is_accepted_identity(
            payload.client_id@,
            payload.client_secret@,
        ) ==> r == Err::<(AuthBody, String), AuthError>(AuthError::WrongCredentials),
        is_accepted_identity(payload.client_id@, payload.client_secret@) ==> match issued_token(
            keys@,
        ) {
            Some(t) => {
                &&& r matches Ok(granted)
                &&& granted.0.access_token@ == t
                &&& granted.0.token_type@ == "Bearer"@
                &&& granted.1@ == "Client Authorised: "@ + issued_claims().company
                &&& serves_as_issued(t, keys@)
            },
            None => r == Err::<(AuthBody, String), AuthError>(AuthError::TokenCreation),
        },
{
    proof {
        reveal_strlit("foo");
        reveal_strlit("bar");
    }
    match check_credentials(&payload) {
        Ok(claims) => {
            let line = audit_line(&claims);
            match grant(encode(&claims, keys)) {
                Ok(body) => {
                    assert forall|now: u64| #[trigger]
                        extracted(Some("Bearer "@ + body.access_token@), keys@, now) == decoded(
                            body.access_token@,
                            keys@,
                            now,
                        ) by {
                        lemma_extraction_decodes_the_token(body.access_token@, keys@, now);
                    }
                    Ok((body, line))
                },
                Err(e) => Err(e),
            }
        },
        Err(e) => Err(e),
    }
}

/// Validates the credentials and issues a bearer token for them.
///
/// Empty fields give `MissingCredentials`, whatever the other field holds;
/// non-empty fields that are not the accepted identity give
/// `WrongCredentials`; for the accepted identity the issued claims are signed
/// with `keys`, and `TokenCreation` is returned only if signing fails.
pub fn authorize(payload: AuthPayload, keys: &Keys) -> (r: Result<AuthBody, AuthError>)
    ensures
        payload.client_id@.len() == 0 || payload.client_secret@.len() == 0 ==> r == Err::<
            AuthBody,
            AuthError,
        >(AuthError::MissingCredentials),
        payload.client_id@.len() > 0 && payload.client_secret@.len() > 0 && !is_accepted_identity(
            payload.client_id@,
            payload.client_secret@,
        ) ==> r == Err::<AuthBody, AuthError>(AuthError::WrongCredentials),
        is_accepted_identity(payload.client_id@, payload.client_secret@) ==> match issued_token(
            keys@,
        ) {
            Some(t) => {
                &&& r matches Ok(body)
                &&& body.access_token@ == t
                &&& body.token_type@ == "Bearer"@
                &&& serves_as_issued(t, keys@)
            },
            None => r == Err::<AuthBody, AuthError>(AuthError::TokenCreation),
        },
{
    proof {
        reveal_strlit("foo");
        reveal_strlit("bar");
    }
    match authorize_audited(payload, keys) {
        Ok(granted) => Ok(granted.0),
        Err(e) => Err(e),
    }
}

/// HTTP status for a malformed or unacceptable request.
pub const BAD_REQUEST: u16 = 400;

/// HTTP status for a request that lacks valid authentication.
pub const UNAUTHORIZED: u16 = 401;

/// HTTP status for a fault on the server's side.
pub const INTERNAL_SERVER_ERROR: u16 = 500;

/// The HTTP status with which an error is reported.
pub open spec fn status_of(e: AuthError) -> u16 {
    match e {
        AuthError::WrongCredentials => 401,
        AuthError::MissingCredentials => 400,
        AuthError::TokenCreation => 500,
        AuthError::InvalidToken => 400,
    }
}

/// The message with which an error is reported.
pub open spec fn message_of(e: AuthError) -> Seq<char> {
    match e {
        AuthError::WrongCredentials => "Wrong credentials"@,
        AuthError::MissingCredentials => "Missing credentials"@,
        AuthError::TokenCreation => "Token creation error"@,
        AuthError::InvalidToken => "Invalid token"@,
    }
}

impl AuthError {
    /// The status and the message of the error response; the message is the
    /// value of the member `error` of the response body.
    pub fn into_response(self) -> (r: (u16, &'static str))
        ensures
            r.0 == status_of(self),
            r.1@ == message_of(self),
    {
        match self {
            AuthError::WrongCredentials => (UNAUTHORIZED, "Wrong credentials"),
            AuthError::MissingCredentials => (BAD_REQUEST, "Missing credentials"),
            AuthError::TokenCreation => (INTERNAL_SERVER_ERROR, "Token creation error"),
            AuthError::InvalidToken => (BAD_REQUEST, "Invalid token"),
        }
    }
}

/// The one-line rendering of a claim set.
pub open spec fn claims_text(c: ClaimSet) -> Seq<char> {
    "sub:"@ + c.sub + " Company:"@ + c.company + ", exp:"@ + decimal(c.exp)
}

/// The text of a request's `Authorization` header, if it has one.
pub open spec fn header_text(authorization: Option<&str>) -> Option<Seq<char>> {
    match authorization {
        Some(value) => Some(value@),
        None => None,
    }
}

/// What extracting the identity from a request yields, given the text of its
/// `Authorization` header: the header must be there, be of scheme `Bearer`,
/// and carry a token that decodes.
pub open spec fn extracted(authorization: Option<Seq<char>>, secret: Seq<u8>, now: u64) -> Result<
    ClaimSet,
    AuthError,
> {
    match authorization {
        Some(value) => match bearer_credentials(value) {
            Some(token) => decoded(token, secret, now),
            None => Err(AuthError::InvalidToken),
        },
        None => Err(AuthError::InvalidToken),
    }
}

/// Extraction from a header made of `Bearer`, a space and token text yields
/// what decoding that token yields: what holds of a token at `decode` holds
/// of it in a request's header.
pub proof fn lemma_extraction_decodes_the_token(t: Seq<char>, secret: Seq<u8>, now: u64)
    requires
        is_token_text(t),
    ensures
        extracted(Some("Bearer "@ + t), secret, now) == decoded(t, secret, now),
{
    lemma_bearer_header_carries_token(t);
}

impl Claims {
    /// Renders the claims as `sub:<sub> Company:<company>, exp:<exp>`.
    pub fn to_text(&self) -> (text: String)
        ensures
            text@ == claims_text(self@),
    {
        let mut text = String::from_str("sub:");
        text.append(self.sub.as_str());
        text.append(" Company:");
        text.append(self.company.as_str());
        text.append(", exp:");
        push_decimal(&mut text, self.exp as u64);
        text
    }

    /// Extracts the verified claims from a request, given the value of its
    /// first `Authorization` header, if it has one.
    ///
    /// A missing header, another scheme than `Bearer` and every failure to
    /// decode the token are all reported as `InvalidToken`.
    pub fn from_request_parts(authorization: Option<&str>, keys: &Keys, now: u64) -> (r: Result<
        Claims,
        AuthError,
    >)
        ensures
            match r {
                Ok(c) => extracted(header_text(authorization), keys@, now) == Ok::<
                    ClaimSet,
                    AuthError,
                >(c@),
                Err(e) => e == AuthError::InvalidToken && extracted(
                    header_text(authorization),
                    keys@,
                    now,
                ) is Err,
            },
            authorization is None ==> r is Err,
            authorization matches Some(value) && bearer_credentials(value@) is None ==> r is Err,
    {
        match authorization {
            Some(value) => match bearer_token(value) {
                Some(token) => decode(token, keys, now),
                None => Err(AuthError::InvalidToken),
            },
            None => Err(AuthError::InvalidToken),
        }
    }
}

} // verus!
