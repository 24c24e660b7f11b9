//! PASETO v4 token construction and validation.
//!
//! Two token kinds are issued, both carrying an issuer, an audience, a
//! subject (the user id in text form) and an expiry: signed public access
//! tokens (adding a `username` claim, 15 minutes of life) and encrypted
//! local refresh tokens (adding a `jti` and a `version` claim, 14 days of
//! life). Each token's footer carries the identifier of the issuing key.
//!
//! Cryptographic operations go through trusted wrappers around pasetors;
//! everything a wrapper returns is modelled by `public_verify_of` and
//! `local_decrypt_of`, deterministic functions of key and token. All claim
//! checks (issuer, audience, subject, expiry against an injected clock,
//! version) are verified code in this module.

use vstd::prelude::*;
use vstd::string::StrSliceExecFns;

use chrono::DateTime;
use pasetors::claims::{Claims, ClaimsValidationRules};
use pasetors::footer::Footer;
use pasetors::keys::{AsymmetricPublicKey, AsymmetricSecretKey, SymmetricKey};
use pasetors::paserk::Id;
use pasetors::token::UntrustedToken;
use pasetors::version4::V4;
use pasetors::{local, public, Local, Public};

use crate::errors::AuthError;
use crate::ids::{random_uuid, uuid_str_of, uuid_to_string};
use crate::keys::{local_kid_of, public_kid_of, KeyPair, SymmetricKeyBytes};
use crate::text::str_eq;

verus! {

/// Seconds of life of an access token: 15 minutes.
pub const ACCESS_TOKEN_TTL: i64 = 900;

/// Seconds of life of a refresh token: 336 hours (14 days).
pub const REFRESH_TOKEN_TTL: i64 = 1209600;

/// The largest timestamp the token wrappers accept (9999-12-31T23:59:59Z),
/// so that the RFC 3339 rendering of an expiry always exists.
pub const MAX_TIMESTAMP: i64 = 253402300799;

/// The fixed issuer claim of this service.
pub open spec fn issuer_name() -> Seq<char> {
    "crabby-auth"@
}

/// The fixed audience claim of access tokens.
pub open spec fn access_audience() -> Seq<char> {
    "crabby-gateway"@
}

/// The fixed audience claim of refresh tokens.
pub open spec fn refresh_audience() -> Seq<char> {
    "crabby-auth"@
}

/// Claims extracted from a cryptographically verified token.
pub struct TokenClaims {
    pub issuer: Option<String>,
    pub audience: Option<String>,
    pub subject: Option<String>,
    pub username: Option<String>,
    pub jti: Option<String>,
    pub version: Option<i64>,
    pub expiry: i64,
}

/// The mathematical model of a token's claims.
pub struct ClaimsModel {
    pub issuer: Option<Seq<char>>,
    pub audience: Option<Seq<char>>,
    pub subject: Option<Seq<char>>,
    pub username: Option<Seq<char>>,
    pub jti: Option<Seq<char>>,
    pub version: Option<int>,
    pub expiry: int,
}

/// The view of an optional string.
pub open spec fn view_opt(o: Option<String>) -> Option<Seq<char>> {
    match o {
        Some(s) => Some(s@),
        None => None,
    }
}

/// The view of an optional version counter.
pub open spec fn view_opt_version(o: Option<i64>) -> Option<int> {
    match o {
        Some(v) => Some(v as int),
        None => None,
    }
}

impl TokenClaims {
    /// Bundles extracted claim fields.
    pub fn make(
        issuer: Option<String>,
        audience: Option<String>,
        subject: Option<String>,
        username: Option<String>,
        jti: Option<String>,
        version: Option<i64>,
        expiry: i64,
    ) -> (r: Self)
        ensures
            r == (TokenClaims { issuer, audience, subject, username, jti, version, expiry }),
    {
        TokenClaims { issuer, audience, subject, username, jti, version, expiry }
    }
}

impl View for TokenClaims {
    type V = ClaimsModel;

    open spec fn view(&self) -> ClaimsModel {
        ClaimsModel {
            issuer: view_opt(self.issuer),
            audience: view_opt(self.audience),
            subject: view_opt(self.subject),
            username: view_opt(self.username),
            jti: view_opt(self.jti),
            version: view_opt_version(self.version),
            expiry: self.expiry as int,
        }
    }
}

/// The claims of a freshly minted access token.
pub open spec fn access_claims(
    issuer: Seq<char>,
    audience: Seq<char>,
    subject: Seq<char>,
    username: Seq<char>,
    expiry: int,
) -> ClaimsModel {
    ClaimsModel {
        issuer: Some(issuer),
        audience: Some(audience),
        subject: Some(subject),
        username: Some(username),
        jti: None,
        version: None,
        expiry: expiry,
    }
}

/// The claims of a freshly minted refresh token.
pub open spec fn refresh_claims(
    issuer: Seq<char>,
    audience: Seq<char>,
    subject: Seq<char>,
    jti: Seq<char>,
    version: int,
    expiry: int,
) -> ClaimsModel {
    ClaimsModel {
        issuer: Some(issuer),
        audience: Some(audience),
        subject: Some(subject),
        username: None,
        jti: Some(jti),
        version: Some(version),
        expiry: expiry,
    }
}

/// The claim content that pasetors' `public::verify` recovers from `token`
/// under the 32-byte public key `pk`: `Some` exactly when the signature
/// verifies, the payload parses as claims, and the `exp` claim is an
/// RFC 3339 timestamp; the model keeps the claims this service reads.
/// Time-based acceptance is not part of this function: the library checks
/// expiry against its own clock.
pub uninterp spec fn public_verify_of(pk: Seq<u8>, token: Seq<char>) -> Option<ClaimsModel>;

/// The claim content that pasetors' `local::decrypt` recovers from `token`
/// under the 32-byte symmetric key `key`, in the same sense as
/// `public_verify_of`.
pub uninterp spec fn local_decrypt_of(key: Seq<u8>, token: Seq<char>) -> Option<ClaimsModel>;

/// The `kid` claim of the token's footer: the token's fourth dot-separated
/// segment, base64url-decoded and read as a JSON object, when the header
/// matches the requested purpose (`local` or `public`). A deterministic
/// function of the token text.
pub uninterp spec fn footer_kid_of(token: Seq<char>, local: bool) -> Option<Seq<char>>;

/// pasetors' error type, carried out of the signing and encryption
/// wrappers and mapped to this crate's errors by their callers.
#[verifier::external_type_specification]
#[verifier::external_body]
pub struct ExPasetorsError(pasetors::errors::Error);

/// The RFC 3339 rendering (integer seconds, `Z` offset) of a Unix
/// timestamp: a deterministic function of the value.
pub uninterp spec fn rfc3339_str_of(t: int) -> Seq<char>;

/// Relies on chrono's RFC 3339 formatting; every timestamp up to
/// `MAX_TIMESTAMP` has a rendering.
#[verifier::external_body]
fn to_rfc3339(t: i64) -> (r: String)
    requires
        0 <= t <= MAX_TIMESTAMP,
    ensures
        r@ == rfc3339_str_of(t as int),
{
    DateTime::<chrono::Utc>::from_timestamp(t, 0).unwrap().to_rfc3339_opts(chrono::SecondsFormat::Secs, true)
}

/// Relies on pasetors' `public::sign`: an Ed25519 signature over the claims
/// built from the given fields, with the issuing key's paserk identifier in
/// the footer. The result verifies under the pair's public key and carries
/// exactly these claims; the `v4.public.` header makes its version and type
/// markers parse accordingly.
#[verifier::external_body]
fn paseto_sign_access(
    kp: &KeyPair,
    issuer: &str,
    audience: &str,
    subject: &str,
    username: &str,
    exp: &str,
    expiry: i64,
) -> (r: Result<String, pasetors::errors::Error>)
    requires
        0 <= expiry <= MAX_TIMESTAMP,
        exp@ == rfc3339_str_of(expiry as int),
    ensures
        r matches Ok(t) ==> public_verify_of(kp.spec_public(), t@) == Some(
            access_claims(issuer@, audience@, subject@, username@, expiry as int),
        ),
        r matches Ok(t) ==> footer_kid_of(t@, false) == Some(public_kid_of(kp.spec_public())),
        r matches Ok(t) ==> spec_token_version(t@) == Some(TokenVersion::V4)
            && spec_token_type(t@) == Some(TokenType::Public),
{
    let sk = AsymmetricSecretKey::from(kp.secret_bytes().as_slice())?;
    let pk = AsymmetricPublicKey::from(kp.public_bytes().as_slice())?;
    let mut claims = Claims::new()?;
    claims.expiration(exp)?;
    claims.issuer(issuer)?;
    claims.audience(audience)?;
    claims.subject(subject)?;
    claims.add_additional("username", username)?;
    let mut footer = Footer::new();
    footer.key_id(&Id::from(&pk));
    public::sign(&sk, &claims, Some(&footer), None)
}

/// Relies on pasetors' `local::encrypt`: an XChaCha20 encryption of the
/// claims built from the given fields, with the issuing key's paserk
/// identifier in the footer. The result decrypts under the same key to
/// exactly these claims; the `v4.local.` header makes its version and type
/// markers parse accordingly.
#[verifier::external_body]
fn paseto_encrypt_refresh(
    key: &SymmetricKeyBytes,
    issuer: &str,
    audience: &str,
    subject: &str,
    jti: &str,
    version: i64,
    exp: &str,
    expiry: i64,
) -> (r: Result<String, pasetors::errors::Error>)
    requires
        0 <= expiry <= MAX_TIMESTAMP,
        exp@ == rfc3339_str_of(expiry as int),
    ensures
        r matches Ok(t) ==> local_decrypt_of(key.spec_bytes(), t@) == Some(
            refresh_claims(issuer@, audience@, subject@, jti@, version as int, expiry as int),
        ),
        r matches Ok(t) ==> footer_kid_of(t@, true) == Some(local_kid_of(key.spec_bytes())),
        r matches Ok(t) ==> spec_token_version(t@) == Some(TokenVersion::V4)
            && spec_token_type(t@) == Some(TokenType::Local),
{
    let sk = SymmetricKey::from(key.as_bytes().as_slice())?;
    let mut claims = Claims::new()?;
    claims.expiration(exp)?;
    claims.issuer(issuer)?;
    claims.audience(audience)?;
    claims.subject(subject)?;
    claims.token_identifier(jti)?;
    claims.add_additional("version", version.to_string())?;
    let mut footer = Footer::new();
    footer.key_id(&Id::from(&sk));
    local::encrypt(&sk, &claims, Some(&footer), None)
}

/// Relies on pasetors' `public::verify`: when it accepts, the returned
/// claims are exactly the content `public_verify_of` models; when that
/// content does not exist, it never accepts. (It may additionally reject a
/// token whose `exp` lies in the machine's past; the library re-checks
/// expiry against its own clock.)
#[verifier::external_body]
fn paseto_verify_access(pk: &Vec<u8>, token: &str) -> (r: Option<TokenClaims>)
    requires
        pk@.len() == 32,
    ensures
        r matches Some(c) ==> public_verify_of(pk@, token@) == Some(c@),
        public_verify_of(pk@, token@) is None ==> r is None,
{
    let key = AsymmetricPublicKey::from(pk.as_slice()).ok()?;
    let untrusted = UntrustedToken::<Public, V4>::try_from(token).ok()?;
    let mut rules = ClaimsValidationRules::new();
    rules.disable_valid_at();
    let c = public::verify(&key, &untrusted, &rules, None, None).ok()?.payload_claims()?.clone();
    let exp = DateTime::parse_from_rfc3339(c.get_claim("exp")?.as_str()?).ok()?.timestamp();
    let g = |k| c.get_claim(k)?.as_str().map(String::from);
    Some(TokenClaims::make(g("iss"), g("aud"), g("sub"), g("username"), g("jti"),
        g("version").and_then(|s| s.parse().ok()), exp))
}

/// Relies on pasetors' `local::decrypt`, in the same sense as the access
/// verification wrapper: accepted claims are exactly the modelled content,
/// and absent content is never accepted.
#[verifier::external_body]
fn paseto_decrypt_refresh(key: &SymmetricKeyBytes, token: &str) -> (r: Option<TokenClaims>)
    ensures
        r matches Some(c) ==> local_decrypt_of(key.spec_bytes(), token@) == Some(c@),
        local_decrypt_of(key.spec_bytes(), token@) is None ==> r is None,
{
    let sk = SymmetricKey::from(key.as_bytes().as_slice()).ok()?;
    let untrusted = UntrustedToken::<Local, V4>::try_from(token).ok()?;
    let mut rules = ClaimsValidationRules::new();
    rules.disable_valid_at();
    let c = local::decrypt(&sk, &untrusted, &rules, None, None).ok()?.payload_claims()?.clone();
    let exp = DateTime::parse_from_rfc3339(c.get_claim("exp")?.as_str()?).ok()?.timestamp();
    let g = |k| c.get_claim(k)?.as_str().map(String::from);
    Some(TokenClaims::make(g("iss"), g("aud"), g("sub"), g("username"), g("jti"),
        g("version").and_then(|s| s.parse().ok()), exp))
}

/// Relies on pasetors' token and footer parsing: reads the untrusted
/// footer of a token with the requested purpose header and returns its
/// `kid` claim. Nothing about the token is trusted at this point.
#[verifier::external_body]
pub fn extract_footer_kid(token: &str, local: bool) -> (r: Option<String>)
    ensures
        r matches Some(s) ==> footer_kid_of(token@, local) == Some(s@),
        r is None ==> footer_kid_of(token@, local) is None,
{
    let fb: Vec<u8> = if local {
        UntrustedToken::<Local, V4>::try_from(token).ok()?.untrusted_footer().to_vec()
    } else {
        UntrustedToken::<Public, V4>::try_from(token).ok()?.untrusted_footer().to_vec()
    };
    let mut f = Footer::new();
    f.parse_bytes(&fb).ok()?;
    f.get_claim("kid").and_then(|v| v.as_str()).map(|s| s.to_string())
}

/// The purpose marker of a token: encrypted (`local`) or signed (`public`).
#[derive(Clone, Copy, Debug, PartialEq, Eq, Structural)]
pub enum TokenType {
    Local,
    Public,
}

/// The format version marker of a token. Only v4 tokens are issued; the
/// other markers exist so that a valid marker of an unsupported version is
/// distinguished from garbage.
#[derive(Clone, Copy, Debug, PartialEq, Eq, Structural)]
pub enum TokenVersion {
    V4,
    V3,
    V2,
    V1,
}

/// The index of the first `.` in `s` at or after `from`, or the length if
/// there is none.
pub open spec fn dot_index_from(s: Seq<char>, from: int) -> int
    decreases s.len() - from,
{
    if from < 0 || from >= s.len() {
        s.len() as int
    } else if s[from] == '.' {
        from
    } else {
        dot_index_from(s, from + 1)
    }
}

/// The version marker of a token: its first dot-separated segment, when it
/// is one of `v1` to `v4`.
pub open spec fn spec_token_version(s: Seq<char>) -> Option<TokenVersion> {
    if dot_index_from(s, 0) == 2 && s[0] == 'v' {
        if s[1] == '4' {
            Some(TokenVersion::V4)
        } else if s[1] == '3' {
            Some(TokenVersion::V3)
        } else if s[1] == '2' {
            Some(TokenVersion::V2)
        } else if s[1] == '1' {
            Some(TokenVersion::V1)
        } else {
            None
        }
    } else {
        None
    }
}

/// The purpose marker of a token: its second dot-separated segment, when
/// it is `local` or `public`.
pub open spec fn spec_token_type(s: Seq<char>) -> Option<TokenType> {
    let d1 = dot_index_from(s, 0);
    if d1 < s.len() {
        let seg = s.subrange(d1 + 1, dot_index_from(s, d1 + 1));
        if seg == seq!['l', 'o', 'c', 'a', 'l'] {
            Some(TokenType::Local)
        } else if seg == seq!['p', 'u', 'b', 'l', 'i', 'c'] {
            Some(TokenType::Public)
        } else {
            None
        }
    } else {
        None
    }
}

/// A token whose version marker parses is non-empty: the marker itself
/// occupies the first two characters.
pub proof fn lemma_marked_token_nonempty(s: Seq<char>)
    requires
        spec_token_version(s) is Some,
    ensures
        s.len() >= 2,
{
    if s.len() == 0 {
        assert(dot_index_from(s, 0) == 0);
    } else if s.len() == 1 {
        assert(dot_index_from(s, 1) == 1);
        assert(dot_index_from(s, 0) != 2);
    }
}

/// Finds the first `.` at or after `from`, matching `dot_index_from`.
fn find_dot_from(s: &str, from: usize) -> (r: usize)
    requires
        from <= s@.len(),
    ensures
        r == dot_index_from(s@, from as int),
        from <= r <= s@.len(),
{
    let n = s.unicode_len();
    let mut i: usize = from;
    while i < n
        invariant
            n == s@.len(),
            from <= i <= n,
            dot_index_from(s@, from as int) == dot_index_from(s@, i as int),
        decreases n - i,
    {
        if s.get_char(i) == '.' {
            return i;
        }
        proof {
            assert(dot_index_from(s@, i as int) == dot_index_from(s@, i + 1));
        }
        i = i + 1;
    }
    proof {
        assert(dot_index_from(s@, i as int) == s@.len());
    }
    n
}

/// Reads the version marker of an untrusted token; a missing or unknown
/// marker is rejected as an invalid token.
pub fn verify_version(token: &str) -> (r: Result<TokenVersion, AuthError>)
    ensures
        match spec_token_version(token@) {
            Some(v) => r == Ok::<TokenVersion, AuthError>(v),
            None => r == Err::<TokenVersion, AuthError>(AuthError::AuthenticationFailure),
        },
{
    let d = find_dot_from(token, 0);
    if d == 2 && token.get_char(0) == 'v' {
        let c = token.get_char(1);
        if c == '4' {
            Ok(TokenVersion::V4)
        } else if c == '3' {
            Ok(TokenVersion::V3)
        } else if c == '2' {
            Ok(TokenVersion::V2)
        } else if c == '1' {
            Ok(TokenVersion::V1)
        } else {
            Err(AuthError::AuthenticationFailure)
        }
    } else {
        Err(AuthError::AuthenticationFailure)
    }
}

/// Reads the purpose marker of an untrusted token; a missing or unknown
/// marker is rejected as an invalid token.
pub fn verify_type(token: &str) -> (r: Result<TokenType, AuthError>)
    ensures
        match spec_token_type(token@) {
            Some(t) => r == Ok::<TokenType, AuthError>(t),
            None => r == Err::<TokenType, AuthError>(AuthError::AuthenticationFailure),
        },
{
    let n = token.unicode_len();
    let d1 = find_dot_from(token, 0);
    if d1 >= n {
        return Err(AuthError::AuthenticationFailure);
    }
    let start = d1 + 1;
    let end = find_dot_from(token, start);
    let ghost seg = token@.subrange(start as int, end as int);
    let len = end - start;
    if len == 5 && token.get_char(start) == 'l' && token.get_char(start + 1) == 'o'
        && token.get_char(start + 2) == 'c' && token.get_char(start + 3) == 'a' && token.get_char(
        start + 4,
    ) == 'l' {
        proof {
            assert(seg =~= seq!['l', 'o', 'c', 'a', 'l']);
        }
        Ok(TokenType::Local)
    } else if len == 6 && token.get_char(start) == 'p' && token.get_char(start + 1) == 'u'
        && token.get_char(start + 2) == 'b' && token.get_char(start + 3) == 'l' && token.get_char(
        start + 4,
    ) == 'i' && token.get_char(start + 5) == 'c' {
        proof {
            assert(seg =~= seq!['p', 'u', 'b', 'l', 'i', 'c']);
        }
        Ok(TokenType::Public)
    } else {
        proof {
            if seg == seq!['l', 'o', 'c', 'a', 'l'] {
                assert(seg.len() == 5);
                assert(token@[start as int] == seg[0]);
                assert(token@[start + 1] == seg[1]);
                assert(token@[start + 2] == seg[2]);
                assert(token@[start + 3] == seg[3]);
                assert(token@[start + 4] == seg[4]);
            }
            if seg == seq!['p', 'u', 'b', 'l', 'i', 'c'] {
                assert(seg.len() == 6);
                assert(token@[start as int] == seg[0]);
                assert(token@[start + 1] == seg[1]);
                assert(token@[start + 2] == seg[2]);
                assert(token@[start + 3] == seg[3]);
                assert(token@[start + 4] == seg[4]);
                assert(token@[start + 5] == seg[5]);
            }
        }
        Err(AuthError::AuthenticationFailure)
    }
}

/// A refresh token together with the metadata persisted for it.
pub struct RefreshTokenWithMetadata {
    pub token: String,
    pub user_id: u128,
    pub jti: String,
    pub issued_at: i64,
    pub exp: i64,
}

impl RefreshTokenWithMetadata {
    /// The token text.
    pub fn token(&self) -> (r: String)
        ensures
            r@ == self.token@,
    {
        self.token.clone()
    }
}

/// The pair of tokens minted for a user.
pub struct UserTokens {
    pub refresh: RefreshTokenWithMetadata,
    pub bearer: String,
}

impl UserTokens {
    /// Bundles an access token with a refresh token.
    pub fn new(bearer: String, refresh: RefreshTokenWithMetadata) -> (r: Self)
        ensures
            r.bearer == bearer,
            r.refresh == refresh,
    {
        Self { refresh, bearer }
    }
}

/// A refresh token as presented by a caller, before any verification.
pub struct UnverifiedRefreshToken {
    token: String,
}

impl UnverifiedRefreshToken {
    /// The token text.
    pub closed spec fn spec_token(self) -> Seq<char> {
        self.token@
    }

    /// Wraps the raw text of a presented refresh token.
    pub fn new(token: String) -> (r: Self)
        ensures
            r.spec_token() == token@,
    {
        Self { token }
    }

    /// The token text.
    pub fn token(&self) -> (r: &String)
        ensures
            r@ == self.spec_token(),
    {
        &self.token
    }
}

/// Mints a signed access token for a user: issuer and audience are fixed
/// service policy, the subject is the user id in text form, and the expiry
/// lies 15 minutes past `now`.
pub fn bearer(username: &str, id: &str, kp: &KeyPair, now: i64) -> (r: Result<String, AuthError>)
    requires
        0 <= now,
        now + ACCESS_TOKEN_TTL <= MAX_TIMESTAMP,
    ensures
        r matches Ok(t) ==> public_verify_of(kp.spec_public(), t@) == Some(
            access_claims(
                issuer_name(),
                access_audience(),
                id@,
                username@,
                now + ACCESS_TOKEN_TTL,
            ),
        ),
        r matches Ok(t) ==> footer_kid_of(t@, false) == Some(public_kid_of(kp.spec_public())),
        r matches Ok(t) ==> spec_token_version(t@) == Some(TokenVersion::V4)
            && spec_token_type(t@) == Some(TokenType::Public),
        r matches Err(e) ==> e == AuthError::Storage,
{
    let expiry = now + ACCESS_TOKEN_TTL;
    let exp = to_rfc3339(expiry);
    match paseto_sign_access(kp, "crabby-auth", "crabby-gateway", id, username, exp.as_str(), expiry) {
        Ok(t) => Ok(t),
        Err(_) => Err(AuthError::Storage),
    }
}

/// Mints an encrypted refresh token for a user, carrying a fresh random
/// token identifier and the given version counter; the expiry lies 14 days
/// past `now`.
pub fn refresh(key: &SymmetricKeyBytes, user_id: u128, version: i64, now: i64) -> (r: Result<
    RefreshTokenWithMetadata,
    AuthError,
>)
    requires
        0 <= now,
        now + REFRESH_TOKEN_TTL <= MAX_TIMESTAMP,
    ensures
        r matches Ok(m) ==> local_decrypt_of(key.spec_bytes(), m.token@) == Some(
            refresh_claims(
                issuer_name(),
                refresh_audience(),
                uuid_str_of(user_id),
                m.jti@,
                version as int,
                now + REFRESH_TOKEN_TTL,
            ),
        ),
        r matches Ok(m) ==> footer_kid_of(m.token@, true) == Some(local_kid_of(key.spec_bytes()))
            && m.user_id == user_id && m.issued_at == now && m.exp == now + REFRESH_TOKEN_TTL
            && m.jti@.len() == 36,
        r matches Ok(m) ==> spec_token_version(m.token@) == Some(TokenVersion::V4)
            && spec_token_type(m.token@) == Some(TokenType::Local),
        r matches Err(e) ==> e == AuthError::Storage,
{
    let subject = uuid_to_string(user_id);
    let jti = uuid_to_string(random_uuid());
    let expiry = now + REFRESH_TOKEN_TTL;
    let exp = to_rfc3339(expiry);
    let token = match paseto_encrypt_refresh(
        key,
        "crabby-auth",
        "crabby-auth",
        subject.as_str(),
        jti.as_str(),
        version,
        exp.as_str(),
        expiry,
    ) {
        Ok(t) => t,
        Err(_) => {
            return Err(AuthError::Storage);
        },
    };
    Ok(RefreshTokenWithMetadata { token, user_id, jti, issued_at: now, exp: expiry })
}

/// Whether a token's claims have expired at the injected clock `now`.
pub open spec fn spec_expired(m: ClaimsModel, now: int) -> bool {
    m.expiry < now
}

/// Decides `spec_expired` on extracted claims.
pub fn expired(claims: &TokenClaims, now: i64) -> (r: bool)
    ensures
        r == spec_expired(claims@, now as int),
{
    claims.expiry < now
}

/// What the common claim checks of a verified token demand: the fixed
/// issuer, and an expiry not before the injected clock.
pub open spec fn common_claims_ok(m: ClaimsModel, now: int) -> bool {
    m.issuer == Some(issuer_name()) && !spec_expired(m, now)
}

/// What an access token's claims must satisfy: the common checks and the
/// fixed access audience.
pub open spec fn access_claims_ok(m: ClaimsModel, now: int) -> bool {
    common_claims_ok(m, now) && m.audience == Some(access_audience())
}

/// What a refresh token's claims must satisfy for a user whose stored
/// record carries `version`: the common checks, the subject naming that
/// user, and the claimed version equal to the stored one.
pub open spec fn refresh_claims_ok(
    m: ClaimsModel,
    subject: Seq<char>,
    version: int,
    now: int,
) -> bool {
    common_claims_ok(m, now) && m.subject == Some(subject) && m.version == Some(version)
}

/// Whether an optional string claim holds exactly this text.
fn opt_str_is(o: &Option<String>, expected: &str) -> (r: bool)
    ensures
        r == (view_opt(*o) == Some(expected@)),
{
    match o {
        Some(s) => str_eq(s.as_str(), expected),
        None => false,
    }
}

/// Decrypts a presented refresh token and applies the common claim checks
/// (issuer, expiry against the injected clock). Claims are returned only
/// when decryption succeeds and the checks pass; content that cannot be
/// decrypted under `key` is always rejected.
pub fn validate_token(key: &SymmetricKeyBytes, token: &str, now: i64) -> (r: Result<
    TokenClaims,
    AuthError,
>)
    ensures
        r matches Ok(c) ==> local_decrypt_of(key.spec_bytes(), token@) == Some(c@)
            && common_claims_ok(c@, now as int),
        local_decrypt_of(key.spec_bytes(), token@) is None ==> r is Err,
        (local_decrypt_of(key.spec_bytes(), token@) matches Some(m) && !common_claims_ok(
            m,
            now as int,
        )) ==> r is Err,
        r matches Err(e) ==> e == AuthError::AuthenticationFailure,
{
    let claims = match paseto_decrypt_refresh(key, token) {
        Some(c) => c,
        None => {
            return Err(AuthError::AuthenticationFailure);
        },
    };
    if !opt_str_is(&claims.issuer, "crabby-auth") {
        return Err(AuthError::AuthenticationFailure);
    }
    if expired(&claims, now) {
        return Err(AuthError::AuthenticationFailure);
    }
    Ok(claims)
}

/// Validates a presented refresh token for a user: the common checks, the
/// subject, and the stored version counter must all match. A mismatched
/// version is a hard rejection even though decryption succeeded: it
/// signals reuse of a superseded token.
pub fn validate_refresh(
    key: &SymmetricKeyBytes,
    unverified: &UnverifiedRefreshToken,
    subject: &str,
    version: i64,
    now: i64,
) -> (r: Result<TokenClaims, AuthError>)
    ensures
        r matches Ok(c) ==> local_decrypt_of(key.spec_bytes(), unverified.spec_token()) == Some(c@)
            && refresh_claims_ok(c@, subject@, version as int, now as int),
        local_decrypt_of(key.spec_bytes(), unverified.spec_token()) is None ==> r is Err,
        (local_decrypt_of(key.spec_bytes(), unverified.spec_token()) matches Some(m)
            && !refresh_claims_ok(m, subject@, version as int, now as int)) ==> r is Err,
        r matches Err(e) ==> e == AuthError::AuthenticationFailure,
{
    let claims = validate_token(key, unverified.token().as_str(), now)?;
    if !opt_str_is(&claims.subject, subject) {
        return Err(AuthError::AuthenticationFailure);
    }
    let version_matches = match claims.version {
        Some(v) => v == version,
        None => false,
    };
    if !version_matches {
        return Err(AuthError::AuthenticationFailure);
    }
    Ok(claims)
}

/// Verifies a presented access token under a resolved public key and
/// applies the access claim checks (issuer, audience, expiry against the
/// injected clock).
pub fn verify_bearer(pk: &Vec<u8>, token: &str, now: i64) -> (r: Result<TokenClaims, AuthError>)
    requires
        pk@.len() == 32,
    ensures
        r matches Ok(c) ==> public_verify_of(pk@, token@) == Some(c@) && access_claims_ok(
            c@,
            now as int,
        ),
        public_verify_of(pk@, token@) is None ==> r is Err,
        (public_verify_of(pk@, token@) matches Some(m) && !access_claims_ok(m, now as int)) ==> r
            is Err,
        r matches Err(e) ==> e == AuthError::AuthenticationFailure,
{
    let claims = match paseto_verify_access(pk, token) {
        Some(c) => c,
        None => {
            return Err(AuthError::AuthenticationFailure);
        },
    };
    if !opt_str_is(&claims.issuer, "crabby-auth") {
        return Err(AuthError::AuthenticationFailure);
    }
    if !opt_str_is(&claims.audience, "crabby-gateway") {
        return Err(AuthError::AuthenticationFailure);
    }
    if expired(&claims, now) {
        return Err(AuthError::AuthenticationFailure);
    }
    Ok(claims)
}

/// An access token minted for a subject and then accepted by the token
/// validator under the matching key yields exactly the minted claims: the
/// returned subject is the one the token was minted for, and acceptance
/// with expiry checking on bounds the clock by the minted expiry.
pub proof fn lemma_minted_token_validates_subject(
    pk: Seq<u8>,
    t: Seq<char>,
    subject: Seq<char>,
    username: Seq<char>,
    expiry: int,
    c: ClaimsModel,
    now: int,
    check_expiry: bool,
    leeway: int,
)
    requires
        public_verify_of(pk, t) == Some(
            access_claims(issuer_name(), access_audience(), subject, username, expiry),
        ),
        public_verify_of(pk, t) == Some(c),
        verifier_access_ok(c, now, check_expiry, leeway),
    ensures
        c.subject == Some(subject),
        c.username == Some(username),
        check_expiry ==> now <= expiry + leeway,
{
}

/// An access token is rejected once its expiry has elapsed: no claim model
/// passes the access checks at a clock past its expiry.
pub proof fn lemma_expired_access_rejected(m: ClaimsModel, now: int)
    requires
        now > m.expiry,
    ensures
        !access_claims_ok(m, now),
{
}

/// Refresh rotation is monotonic: claims that validated against a stored
/// version counter can never validate against any other counter value, at
/// any clock. Once the stored counter has advanced, the superseded token
/// is permanently invalid even though its decryption still succeeds.
pub proof fn lemma_rotation_invalidates(m: ClaimsModel, subject: Seq<char>, version: int, now: int)
    requires
        refresh_claims_ok(m, subject, version, now),
    ensures
        forall|later: int, v2: int| v2 != version ==> !refresh_claims_ok(m, subject, v2, later),
{
    assert forall|later: int, v2: int|
        v2 != version implies !refresh_claims_ok(m, subject, v2, later) by {
        assert(m.version == Some(version));
    }
}


/// A key a token may be verified with: the symmetric key for encrypted
/// local tokens, or public key bytes for signed public tokens.
pub enum VerificationKey {
    Symmetric(SymmetricKeyBytes),
    Asymmetric(Vec<u8>),
}

/// The mathematical model of a verification key.
pub enum VerificationKeyModel {
    Symmetric(Seq<u8>),
    Asymmetric(Seq<u8>),
}

impl View for VerificationKey {
    type V = VerificationKeyModel;

    open spec fn view(&self) -> VerificationKeyModel {
        match self {
            VerificationKey::Symmetric(k) => VerificationKeyModel::Symmetric(k.spec_bytes()),
            VerificationKey::Asymmetric(b) => VerificationKeyModel::Asymmetric(b@),
        }
    }
}

/// The key a token validator is configured with.
pub struct TokenVerificationConfig {
    key: VerificationKey,
}

impl TokenVerificationConfig {
    /// The configured key.
    pub closed spec fn spec_key(self) -> VerificationKeyModel {
        self.key@
    }

    /// A configuration verifying encrypted local tokens.
    pub fn symmetric(key: SymmetricKeyBytes) -> (r: Self)
        ensures
            r.spec_key() == VerificationKeyModel::Symmetric(key.spec_bytes()),
    {
        Self { key: VerificationKey::Symmetric(key) }
    }

    /// A configuration verifying signed public tokens.
    pub fn asymmetric(key: Vec<u8>) -> (r: Self)
        ensures
            r.spec_key() == VerificationKeyModel::Asymmetric(key@),
    {
        Self { key: VerificationKey::Asymmetric(key) }
    }

    /// Replaces the key with a public key.
    pub fn with_asymmetric_key(&mut self, key: Vec<u8>)
        ensures
            final(self).spec_key() == VerificationKeyModel::Asymmetric(key@),
    {
        self.key = VerificationKey::Asymmetric(key);
    }

    /// Replaces the key with a symmetric key.
    pub fn with_symmetric_key(&mut self, key: SymmetricKeyBytes)
        ensures
            final(self).spec_key() == VerificationKeyModel::Symmetric(key.spec_bytes()),
    {
        self.key = VerificationKey::Symmetric(key);
    }
}

/// What a public-token verifier accepts: the issuer and access audience
/// must match, and, when expiry checking is on, the expiry (plus leeway)
/// must not lie before the clock.
pub open spec fn verifier_access_ok(m: ClaimsModel, now: int, check_expiry: bool, leeway: int) -> bool {
    m.issuer == Some(issuer_name()) && m.audience == Some(access_audience()) && (check_expiry
        ==> now <= m.expiry + leeway)
}

/// What a local-token verifier accepts: the issuer must match and the
/// expiry constraint must hold; audience, subject and version checks
/// belong to the orchestrator.
pub open spec fn verifier_local_ok(m: ClaimsModel, now: int, check_expiry: bool, leeway: int) -> bool {
    m.issuer == Some(issuer_name()) && (check_expiry ==> now <= m.expiry + leeway)
}

/// A validator for untrusted tokens: parses the version and purpose
/// markers, verifies or decrypts under the configured key, and checks the
/// claims against an injected clock.
pub struct AuthTokenVerifier {
    config: TokenVerificationConfig,
    check_expiry: bool,
    leeway: i64,
}

impl AuthTokenVerifier {
    /// The configured key.
    pub closed spec fn spec_key(self) -> VerificationKeyModel {
        self.config.spec_key()
    }

    /// Whether expiry is checked.
    pub closed spec fn spec_check_expiry(self) -> bool {
        self.check_expiry
    }

    /// The accepted clock slack, in seconds.
    pub closed spec fn spec_leeway(self) -> int {
        self.leeway as int
    }

    /// A validator over the given configuration, checking expiry with no
    /// leeway.
    pub fn verification_config(config: TokenVerificationConfig) -> (r: Self)
        ensures
            r.spec_key() == config.spec_key(),
            r.spec_check_expiry() == true,
            r.spec_leeway() == 0,
    {
        Self { config, check_expiry: true, leeway: 0 }
    }

    /// The same validator with a clock slack for expiry checking.
    pub fn with_leeway(self, leeway: i64) -> (r: Self)
        requires
            0 <= leeway,
        ensures
            r.spec_key() == self.spec_key(),
            r.spec_check_expiry() == self.spec_check_expiry(),
            r.spec_leeway() == leeway as int,
    {
        Self { config: self.config, check_expiry: self.check_expiry, leeway }
    }

    /// The same validator with expiry checking switched on or off.
    pub fn expiry(self, expiry: bool) -> (r: Self)
        ensures
            r.spec_key() == self.spec_key(),
            r.spec_check_expiry() == expiry,
            r.spec_leeway() == self.spec_leeway(),
    {
        Self { config: self.config, check_expiry: expiry, leeway: self.leeway }
    }

    /// Reads the version marker of an untrusted token.
    pub fn verify_version(&self, token: &str) -> (r: Result<TokenVersion, AuthError>)
        ensures
            match spec_token_version(token@) {
                Some(v) => r == Ok::<TokenVersion, AuthError>(v),
                None => r == Err::<TokenVersion, AuthError>(AuthError::AuthenticationFailure),
            },
    {
        verify_version(token)
    }

    /// Reads the purpose marker of an untrusted token.
    pub fn verify_type(&self, token: &str) -> (r: Result<TokenType, AuthError>)
        ensures
            match spec_token_type(token@) {
                Some(t) => r == Ok::<TokenType, AuthError>(t),
                None => r == Err::<TokenType, AuthError>(AuthError::AuthenticationFailure),
            },
    {
        verify_type(token)
    }

    /// Whether claims pass the expiry constraint under this validator's
    /// settings.
    fn time_ok(&self, claims: &TokenClaims, now: i64) -> (r: bool)
        ensures
            r == (self.spec_check_expiry() ==> now <= claims@.expiry + self.spec_leeway()),
    {
        if self.check_expiry {
            (now as i128) <= (claims.expiry as i128) + (self.leeway as i128)
        } else {
            true
        }
    }

    /// Verifies a signed public token under the configured key. A
    /// configuration holding a symmetric key cannot verify one and is an
    /// internal error.
    pub fn verify_public(&self, token: &str, now: i64) -> (r: Result<TokenClaims, AuthError>)
        ensures
            r matches Ok(c) ==> (self.spec_key() matches VerificationKeyModel::Asymmetric(pk)
                && pk.len() == 32 && public_verify_of(pk, token@) == Some(c@)
                && verifier_access_ok(c@, now as int, self.spec_check_expiry(), self.spec_leeway())),
            (self.spec_key() matches VerificationKeyModel::Asymmetric(pk) && pk.len() == 32
                && public_verify_of(pk, token@) is None) ==> r is Err,
            (self.spec_key() matches VerificationKeyModel::Asymmetric(pk) && pk.len() == 32 && (
            public_verify_of(pk, token@) matches Some(m) && !verifier_access_ok(
                m,
                now as int,
                self.spec_check_expiry(),
                self.spec_leeway(),
            ))) ==> r is Err,
            self.spec_key() matches VerificationKeyModel::Symmetric(k) ==> r == Err::<
                TokenClaims,
                AuthError,
            >(AuthError::Storage),
            (self.spec_key() matches VerificationKeyModel::Asymmetric(pk) && pk.len() != 32) ==> r
                == Err::<TokenClaims, AuthError>(AuthError::AuthenticationFailure),
            r matches Err(e) ==> e == AuthError::AuthenticationFailure || e == AuthError::Storage,
    {
        match &self.config.key {
            VerificationKey::Asymmetric(pk) => {
                if pk.len() != 32 {
                    return Err(AuthError::AuthenticationFailure);
                }
                let claims = match paseto_verify_access(pk, token) {
                    Some(c) => c,
                    None => {
                        return Err(AuthError::AuthenticationFailure);
                    },
                };
                if !opt_str_is(&claims.issuer, "crabby-auth") {
                    return Err(AuthError::AuthenticationFailure);
                }
                if !opt_str_is(&claims.audience, "crabby-gateway") {
                    return Err(AuthError::AuthenticationFailure);
                }
                if !self.time_ok(&claims, now) {
                    return Err(AuthError::AuthenticationFailure);
                }
                Ok(claims)
            },
            VerificationKey::Symmetric(_) => Err(AuthError::Storage),
        }
    }

    /// Decrypts an encrypted local token under the configured key. A
    /// configuration holding a public key cannot decrypt one and is an
    /// internal error.
    pub fn verify_local(&self, token: &str, now: i64) -> (r: Result<TokenClaims, AuthError>)
        ensures
            r matches Ok(c) ==> (self.spec_key() matches VerificationKeyModel::Symmetric(k)
                && local_decrypt_of(k, token@) == Some(c@) && verifier_local_ok(
                c@,
                now as int,
                self.spec_check_expiry(),
                self.spec_leeway(),
            )),
            (self.spec_key() matches VerificationKeyModel::Symmetric(k) && local_decrypt_of(
                k,
                token@,
            ) is None) ==> r is Err,
            (self.spec_key() matches VerificationKeyModel::Symmetric(k) && (local_decrypt_of(
                k,
                token@,
            ) matches Some(m) && !verifier_local_ok(
                m,
                now as int,
                self.spec_check_expiry(),
                self.spec_leeway(),
            ))) ==> r is Err,
            self.spec_key() matches VerificationKeyModel::Asymmetric(pk) ==> r == Err::<
                TokenClaims,
                AuthError,
            >(AuthError::Storage),
            r matches Err(e) ==> e == AuthError::AuthenticationFailure || e == AuthError::Storage,
    {
        match &self.config.key {
            VerificationKey::Symmetric(key) => {
                let claims = match paseto_decrypt_refresh(key, token) {
                    Some(c) => c,
                    None => {
                        return Err(AuthError::AuthenticationFailure);
                    },
                };
                if !opt_str_is(&claims.issuer, "crabby-auth") {
                    return Err(AuthError::AuthenticationFailure);
                }
                if !self.time_ok(&claims, now) {
                    return Err(AuthError::AuthenticationFailure);
                }
                Ok(claims)
            },
            VerificationKey::Asymmetric(_) => Err(AuthError::Storage),
        }
    }

    /// Verifies an untrusted token of either purpose: reads its markers
    /// and dispatches to signature verification or decryption. Anything
    /// the validator accepts passed the checks of its purpose.
    pub fn verify(&self, token: &str, now: i64) -> (r: Result<TokenClaims, AuthError>)
        ensures
            spec_token_type(token@) is None ==> r == Err::<TokenClaims, AuthError>(
                AuthError::AuthenticationFailure,
            ),
            r matches Ok(c) ==> ({
                ||| spec_token_type(token@) == Some(TokenType::Public) && (
                self.spec_key() matches VerificationKeyModel::Asymmetric(pk) && pk.len() == 32
                    && public_verify_of(pk, token@) == Some(c@) && verifier_access_ok(
                    c@,
                    now as int,
                    self.spec_check_expiry(),
                    self.spec_leeway(),
                ))
                ||| spec_token_type(token@) == Some(TokenType::Local) && (
                self.spec_key() matches VerificationKeyModel::Symmetric(k) && local_decrypt_of(
                    k,
                    token@,
                ) == Some(c@) && verifier_local_ok(
                    c@,
                    now as int,
                    self.spec_check_expiry(),
                    self.spec_leeway(),
                ))
            }),
    {
        match verify_type(token)? {
            TokenType::Local => self.verify_local(token, now),
            TokenType::Public => self.verify_public(token, now),
        }
    }
}

} // verus!
