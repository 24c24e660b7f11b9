//! The authenticator: the orchestrator of registration, login, refresh
//! rotation and public-key disclosure.
//!
//! State is per-process: the user repository, the key repository, the
//! credential hasher and the two pieces of key material, all created at
//! startup. Every operation takes the current time as an argument, so
//! expiry is checked against an injected clock. No operation leaves
//! partial state behind: either it succeeds with all its effects, or the
//! repositories are exactly as before.

use vstd::prelude::*;
use vstd::utf8::encode_utf8;

use crate::domain::{valid_email, valid_password, valid_register_request, valid_username,
    RegisterRequestData};
use crate::errors::AuthError;
use crate::hasher::{argon_verifies, CredentialHasher};
use crate::ids::{random_uuid, uuid_str_of, uuid_to_string};
use crate::keys::{derive_public_kid, generate_keypair, generate_symmetric_key, local_kid_of,
    public_kid_of, public_paserk_of, serialize_public_key, KeyPair, SymmetricKeyBytes};
use crate::keys_repo::{current_record, hmac_tag_of, key_lookup, KeyRepo, RefreshRecord,
    RefreshRecordModel, StoredKeyModel};
use crate::text::str_eq;
use crate::token::{access_audience, access_claims, access_claims_ok, bearer, extract_footer_kid,
    footer_kid_of, issuer_name, lemma_marked_token_nonempty, local_decrypt_of, public_verify_of,
    refresh, refresh_audience, refresh_claims, refresh_claims_ok, spec_token_type,
    spec_token_version, validate_refresh, verify_bearer, TokenClaims, TokenType, TokenVersion,
    UnverifiedRefreshToken, UserTokens, ACCESS_TOKEN_TTL, MAX_TIMESTAMP, REFRESH_TOKEN_TTL};
use crate::users::{contains_email, contains_id, contains_username, lookup_id, lookup_username,
    UserRepo, UserRow, UserRowModel};

verus! {

/// What a successful registration returns.
#[derive(Debug)]
pub struct RegisterOutput {
    pub bearer: String,
    pub refresh: String,
    pub username: String,
    pub user_id: u128,
}

/// What a successful login returns: a fresh access token and the stored
/// reference to the user's current refresh token (its identifier, version
/// and expiry; the token text itself is never stored).
#[derive(Debug)]
pub struct LoginOutput {
    pub user_id: u128,
    pub username: String,
    pub bearer: String,
    pub refresh_jti: String,
    pub refresh_version: i64,
    pub refresh_expires_at: i64,
}

/// What a successful refresh rotation returns.
#[derive(Debug)]
pub struct RefreshOutput {
    pub bearer: String,
    pub refresh: String,
}

/// The user row a registration appends.
pub open spec fn new_user_row(
    user_id: u128,
    username: Seq<char>,
    email: Seq<char>,
    password_hash: Seq<char>,
    now: int,
) -> UserRowModel {
    UserRowModel { user_id, username, email, password_hash, created_at: now }
}

/// The refresh record an issuance appends.
pub open spec fn new_refresh_record(
    user_id: u128,
    jti: Seq<char>,
    token_hash: Seq<u8>,
    now: int,
    version: int,
) -> RefreshRecordModel {
    RefreshRecordModel {
        jti,
        user_id,
        token_hash,
        issued_at: now,
        expires_at: now + REFRESH_TOKEN_TTL,
        version,
    }
}

/// Whether a presented refresh token is accepted against stored state: its
/// footer's key identifier must resolve in the key store, the token must
/// decrypt under the resolved key, and the claims must pass the refresh
/// checks for this subject and stored version.
pub open spec fn refresh_token_accepted(
    local_keys: Seq<StoredKeyModel>,
    token: Seq<char>,
    subject: Seq<char>,
    version: int,
    now: int,
) -> bool {
    match footer_kid_of(token, true) {
        Some(kid) => match key_lookup(local_keys, kid) {
            Some(kb) => match local_decrypt_of(kb, token) {
                Some(m) => refresh_claims_ok(m, subject, version, now),
                None => false,
            },
            None => false,
        },
        None => false,
    }
}

/// Whether a presented access token is accepted against stored state: its
/// footer's key identifier must resolve to a stored public key, the
/// signature must verify under the resolved key, and the claims must pass
/// the access checks at the given clock.
pub open spec fn access_token_accepted(
    public_keys: Seq<StoredKeyModel>,
    token: Seq<char>,
    now: int,
) -> bool {
    match footer_kid_of(token, false) {
        Some(kid) => match key_lookup(public_keys, kid) {
            Some(pk) => match public_verify_of(pk, token) {
                Some(m) => access_claims_ok(m, now),
                None => false,
            },
            None => false,
        },
        None => false,
    }
}

/// Rotation yields a textually different refresh token when the key store
/// holds exactly the active symmetric key (as it does after construction):
/// an accepted token decrypts under that key to the stored version, while
/// the reissued token decrypts to the advanced version, so the two texts
/// cannot coincide.
pub proof fn lemma_rotated_token_differs(
    local_keys: Seq<StoredKeyModel>,
    sym: Seq<u8>,
    old_token: Seq<char>,
    new_token: Seq<char>,
    subject: Seq<char>,
    jti: Seq<char>,
    version: int,
    now: int,
    expiry: int,
)
    requires
        local_keys == Seq::<StoredKeyModel>::empty().push(
            (StoredKeyModel { kid: local_kid_of(sym), bytes: sym }),
        ),
        refresh_token_accepted(local_keys, old_token, subject, version, now),
        local_decrypt_of(sym, new_token) == Some(
            refresh_claims(issuer_name(), refresh_audience(), subject, jti, version + 1, expiry),
        ),
    ensures
        new_token != old_token,
{
    match footer_kid_of(old_token, true) {
        Some(kid) => {
            assert(local_keys.len() == 1);
            assert(local_keys[0] == (StoredKeyModel { kid: local_kid_of(sym), bytes: sym }));
            assert(local_keys.drop_first() =~= Seq::<StoredKeyModel>::empty());
            assert(key_lookup(Seq::<StoredKeyModel>::empty(), kid) is None);
            assert(key_lookup(local_keys, kid) is Some);
            assert(key_lookup(local_keys, kid) == Some(sym));
            let m = local_decrypt_of(sym, old_token);
            assert(m matches Some(c) && c.version == Some(version));
            if new_token == old_token {
                assert(m == Some(
                    refresh_claims(
                        issuer_name(),
                        refresh_audience(),
                        subject,
                        jti,
                        version + 1,
                        expiry,
                    ),
                ));
                assert(false);
            }
        },
        None => {
            assert(false);
        },
    }
}

/// The authenticator. Operations are per-request; the only mutable state
/// is in the two repositories.
pub struct Authenticator {
    users: UserRepo,
    keys: KeyRepo,
    hasher: CredentialHasher,
    keypair: KeyPair,
    symmetric: SymmetricKeyBytes,
}

impl Authenticator {
    /// The stored user rows.
    pub closed spec fn users_view(self) -> Seq<UserRowModel> {
        self.users@
    }

    /// The stored refresh records.
    pub closed spec fn refresh_view(self) -> Seq<RefreshRecordModel> {
        self.keys@.refresh
    }

    /// The stored symmetric keys, by identifier.
    pub closed spec fn local_keys_view(self) -> Seq<StoredKeyModel> {
        self.keys@.local_keys
    }

    /// The stored public keys, by identifier.
    pub closed spec fn public_keys_view(self) -> Seq<StoredKeyModel> {
        self.keys@.public_keys
    }

    /// The bytes of the active signing key's public half.
    pub closed spec fn spec_public_key(self) -> Seq<u8> {
        self.keypair.spec_public()
    }

    /// The bytes of the active symmetric key.
    pub closed spec fn spec_symmetric(self) -> Seq<u8> {
        self.symmetric.spec_bytes()
    }

    /// Builds an authenticator around the given key material, registering
    /// both keys in the key repository under their derived identifiers.
    pub fn with_keys(keypair: KeyPair, symmetric: SymmetricKeyBytes) -> (r: Self)
        ensures
            r.users_view() == Seq::<UserRowModel>::empty(),
            r.refresh_view() == Seq::<RefreshRecordModel>::empty(),
            r.spec_public_key() == keypair.spec_public(),
            r.spec_symmetric() == symmetric.spec_bytes(),
            r.public_keys_view() == Seq::<StoredKeyModel>::empty().push(
                (StoredKeyModel {
                    kid: public_kid_of(keypair.spec_public()),
                    bytes: keypair.spec_public(),
                }),
            ),
            r.local_keys_view() == Seq::<StoredKeyModel>::empty().push(
                (StoredKeyModel {
                    kid: local_kid_of(symmetric.spec_bytes()),
                    bytes: symmetric.spec_bytes(),
                }),
            ),
            key_lookup(r.local_keys_view(), local_kid_of(symmetric.spec_bytes())) == Some(
                symmetric.spec_bytes(),
            ),
    {
        let mut keys = KeyRepo::new();
        keys.store_public_key(keypair.public_bytes());
        keys.store_local_key(symmetric.as_bytes());
        Authenticator {
            users: UserRepo::new(),
            keys,
            hasher: CredentialHasher::new(),
            keypair,
            symmetric,
        }
    }

    /// Builds an authenticator with freshly generated key material.
    pub fn new() -> (r: Result<Self, AuthError>)
        ensures
            r matches Ok(a) ==> a.users_view() == Seq::<UserRowModel>::empty()
                && a.refresh_view() == Seq::<RefreshRecordModel>::empty(),
            r matches Err(e) ==> e == AuthError::Storage,
    {
        let keypair = generate_keypair()?;
        let symmetric = generate_symmetric_key()?;
        Ok(Self::with_keys(keypair, symmetric))
    }

    /// Hashes a password with the service's credential hasher.
    pub fn hash_password(&self, password: &str) -> (r: Result<String, AuthError>)
        requires
            valid_password(password@),
        ensures
            r matches Ok(h) ==> argon_verifies(encode_utf8(password@), h@),
            r matches Err(e) ==> e == AuthError::Storage,
    {
        self.hasher.hash(password)
    }

    /// Whether a username is still free; a taken one is a credential
    /// conflict.
    pub fn check_username(&self, username: &str) -> (r: Result<(), AuthError>)
        ensures
            r is Ok <==> !contains_username(self.users_view(), username@),
            r is Err ==> r == Err::<(), AuthError>(AuthError::CredentialConflict),
    {
        if self.users.has_username(username) {
            Err(AuthError::CredentialConflict)
        } else {
            Ok(())
        }
    }

    /// Whether an email address is still free.
    pub fn email_available(&self, email: &str) -> (r: bool)
        ensures
            r == !contains_email(self.users_view(), email@),
    {
        !self.users.has_email(email)
    }

    /// How many users are registered.
    pub fn user_count(&self) -> (r: usize)
        ensures
            r == self.users_view().len(),
    {
        self.users.count()
    }

    /// Finds a user by identifier.
    pub fn user_from_id(&self, user_id: u128) -> (r: Option<&UserRow>)
        ensures
            match r {
                Some(u) => lookup_id(self.users_view(), user_id) == Some(u@),
                None => lookup_id(self.users_view(), user_id) is None,
            },
    {
        self.users.get_user_from_id(user_id)
    }

    /// Finds a user by username.
    pub fn user_from_username(&self, username: &str) -> (r: Option<&UserRow>)
        ensures
            match r {
                Some(u) => lookup_username(self.users_view(), username@) == Some(u@),
                None => lookup_username(self.users_view(), username@) is None,
            },
    {
        self.users.get_user_from_username(username)
    }

    /// The current refresh record of a user, if any.
    pub fn get_refresh_token_from_user_id(&self, user_id: u128) -> (r: Option<&RefreshRecord>)
        ensures
            match r {
                Some(rec) => current_record(self.refresh_view(), user_id) == Some(rec@),
                None => current_record(self.refresh_view(), user_id) is None,
            },
    {
        self.keys.get_refresh_record(user_id)
    }

    /// Mints the pair of tokens for a user: a signed access token carrying
    /// the username, and an encrypted refresh token carrying a fresh token
    /// identifier and the given version counter.
    fn generate_tokens(&self, username: &str, user_id: u128, version: i64, now: i64) -> (r: Result<
        UserTokens,
        AuthError,
    >)
        requires
            0 <= now,
            now + REFRESH_TOKEN_TTL <= MAX_TIMESTAMP,
        ensures
            r matches Ok(t) ==> public_verify_of(self.spec_public_key(), t.bearer@) == Some(
                access_claims(
                    issuer_name(),
                    access_audience(),
                    uuid_str_of(user_id),
                    username@,
                    now + ACCESS_TOKEN_TTL,
                ),
            ),
            r matches Ok(t) ==> local_decrypt_of(self.spec_symmetric(), t.refresh.token@) == Some(
                refresh_claims(
                    issuer_name(),
                    refresh_audience(),
                    uuid_str_of(user_id),
                    t.refresh.jti@,
                    version as int,
                    now + REFRESH_TOKEN_TTL,
                ),
            ) && t.refresh.user_id == user_id && t.refresh.issued_at == now && t.refresh.exp == now
                + REFRESH_TOKEN_TTL,
            r matches Ok(t) ==> spec_token_version(t.bearer@) == Some(TokenVersion::V4)
                && spec_token_type(t.bearer@) == Some(TokenType::Public) && spec_token_version(
                t.refresh.token@,
            ) == Some(TokenVersion::V4) && spec_token_type(t.refresh.token@) == Some(
                TokenType::Local,
            ),
            r matches Err(e) ==> e == AuthError::Storage,
    {
        let id_str = uuid_to_string(user_id);
        let bearer_token = bearer(username, id_str.as_str(), &self.keypair, now)?;
        let refresh_meta = refresh(&self.symmetric, user_id, version, now)?;
        Ok(UserTokens::new(bearer_token, refresh_meta))
    }

    /// Registers a user: validates the request shape, hashes the password,
    /// inserts the user row and the initial refresh record atomically, and
    /// returns both freshly minted tokens. On any failure nothing is
    /// created.
    pub fn register(&mut self, req: RegisterRequestData, now: i64) -> (r: Result<
        RegisterOutput,
        AuthError,
    >)
        requires
            0 <= now,
            now + REFRESH_TOKEN_TTL <= MAX_TIMESTAMP,
        ensures
            r matches Ok(out) ==> ({
                &&& valid_register_request(req)
                &&& out.username@ == req.username.username@
                &&& !contains_username(old(self).users_view(), req.username.username@)
                &&& !contains_email(old(self).users_view(), req.email.email@)
                &&& !contains_id(old(self).users_view(), out.user_id)
                &&& exists|h: Seq<char>|
                    #![auto]
                    final(self).users_view() == old(self).users_view().push(
                        new_user_row(
                            out.user_id,
                            req.username.username@,
                            req.email.email@,
                            h,
                            now as int,
                        ),
                    ) && argon_verifies(encode_utf8(req.password.password@), h)
                &&& public_verify_of(old(self).spec_public_key(), out.bearer@) == Some(
                    access_claims(
                        issuer_name(),
                        access_audience(),
                        uuid_str_of(out.user_id),
                        req.username.username@,
                        now + ACCESS_TOKEN_TTL,
                    ),
                )
                &&& spec_token_version(out.bearer@) == Some(TokenVersion::V4) && spec_token_type(
                    out.bearer@,
                ) == Some(TokenType::Public) && out.bearer@.len() > 0
                &&& spec_token_version(out.refresh@) == Some(TokenVersion::V4) && spec_token_type(
                    out.refresh@,
                ) == Some(TokenType::Local) && out.refresh@.len() > 0
                &&& exists|jti: Seq<char>|
                    #![trigger refresh_claims(
                        issuer_name(),
                        refresh_audience(),
                        uuid_str_of(out.user_id),
                        jti,
                        1,
                        now + REFRESH_TOKEN_TTL,
                    )]
                    local_decrypt_of(old(self).spec_symmetric(), out.refresh@) == Some(
                        refresh_claims(
                            issuer_name(),
                            refresh_audience(),
                            uuid_str_of(out.user_id),
                            jti,
                            1,
                            now + REFRESH_TOKEN_TTL,
                        ),
                    ) && final(self).refresh_view() == old(self).refresh_view().push(
                        new_refresh_record(
                            out.user_id,
                            jti,
                            hmac_tag_of(old(self).spec_symmetric(), encode_utf8(out.refresh@)),
                            now as int,
                            1,
                        ),
                    )
            }),
            !valid_username(req.username.username@) ==> r == Err::<RegisterOutput, AuthError>(
                AuthError::Validation(crate::errors::ValidationKind::UsernameLength),
            ),
            valid_username(req.username.username@) && !valid_email(req.email.email@) ==> r == Err::<
                RegisterOutput,
                AuthError,
            >(AuthError::Validation(crate::errors::ValidationKind::EmailFormat)),
            valid_username(req.username.username@) && valid_email(req.email.email@)
                && !valid_password(req.password.password@) ==> r == Err::<
                RegisterOutput,
                AuthError,
            >(AuthError::Validation(crate::errors::ValidationKind::PasswordLength)),
            valid_register_request(req) && (contains_username(
                old(self).users_view(),
                req.username.username@,
            ) || contains_email(old(self).users_view(), req.email.email@)) ==> (r == Err::<
                RegisterOutput,
                AuthError,
            >(AuthError::CredentialConflict) || r == Err::<RegisterOutput, AuthError>(
                AuthError::Storage,
            )),
            r == Err::<RegisterOutput, AuthError>(AuthError::CredentialConflict) ==> (
            contains_username(old(self).users_view(), req.username.username@) || contains_email(
                old(self).users_view(),
                req.email.email@,
            )),
            valid_register_request(req) && !contains_username(
                old(self).users_view(),
                req.username.username@,
            ) && !contains_email(old(self).users_view(), req.email.email@) ==> (r is Ok || r
                == Err::<RegisterOutput, AuthError>(AuthError::Storage)),
            r == Err::<RegisterOutput, AuthError>(
                AuthError::Validation(crate::errors::ValidationKind::UsernameLength),
            ) ==> !valid_username(req.username.username@),
            r == Err::<RegisterOutput, AuthError>(
                AuthError::Validation(crate::errors::ValidationKind::EmailFormat),
            ) ==> valid_username(req.username.username@) && !valid_email(req.email.email@),
            r == Err::<RegisterOutput, AuthError>(
                AuthError::Validation(crate::errors::ValidationKind::PasswordLength),
            ) ==> valid_username(req.username.username@) && valid_email(req.email.email@)
                && !valid_password(req.password.password@),
            r is Err ==> final(self).users_view() == old(self).users_view() && final(self).refresh_view() == old(self).refresh_view(),
            final(self).spec_public_key() == old(self).spec_public_key() && final(self).spec_symmetric() == old(self).spec_symmetric() && final(self).local_keys_view()
                == old(self).local_keys_view(),
    {
        req.validate()?;
        let hash = self.hasher.hash(req.password.password.as_str())?;
        let ghost hash_view = hash@;
        let user_id = random_uuid();
        if self.keys.get_refresh_record(user_id).is_some() {
            return Err(AuthError::Storage);
        }
        let tokens = self.generate_tokens(req.username.username.as_str(), user_id, 1, now)?;
        let ghost jti_view = tokens.refresh.jti@;
        let hashed_req = RegisterRequestData::new(
            req.username.username.clone(),
            req.email.email.clone(),
            hash,
        );
        let resp = self.users.register_user(hashed_req, user_id, now)?;
        match self.keys.store_refresh_info(&tokens.refresh, 1, &self.symmetric) {
            Ok(_) => {},
            Err(_) => {
                proof {
                    assert(false);
                }
                return Err(AuthError::Storage);
            },
        }
        proof {
            lemma_marked_token_nonempty(tokens.bearer@);
            lemma_marked_token_nonempty(tokens.refresh.token@);
            assert(exists|h: Seq<char>|
                #![auto]
                self.users_view() == old(self).users_view().push(
                    new_user_row(
                        user_id,
                        req.username.username@,
                        req.email.email@,
                        h,
                        now as int,
                    ),
                ) && argon_verifies(encode_utf8(req.password.password@), h)) by {
                assert(self.users_view() == old(self).users_view().push(
                    new_user_row(
                        user_id,
                        req.username.username@,
                        req.email.email@,
                        hash_view,
                        now as int,
                    ),
                ) && argon_verifies(encode_utf8(req.password.password@), hash_view));
            }
            assert(exists|jti: Seq<char>|
                #![trigger refresh_claims(
                    issuer_name(),
                    refresh_audience(),
                    uuid_str_of(user_id),
                    jti,
                    1,
                    now + REFRESH_TOKEN_TTL,
                )]
                local_decrypt_of(old(self).spec_symmetric(), tokens.refresh.token@) == Some(
                    refresh_claims(
                        issuer_name(),
                        refresh_audience(),
                        uuid_str_of(user_id),
                        jti,
                        1,
                        now + REFRESH_TOKEN_TTL,
                    ),
                ) && self.refresh_view() == old(self).refresh_view().push(
                    new_refresh_record(
                        user_id,
                        jti,
                        hmac_tag_of(old(self).spec_symmetric(), encode_utf8(tokens.refresh.token@)),
                        now as int,
                        1,
                    ),
                )) by {
                assert(local_decrypt_of(old(self).spec_symmetric(), tokens.refresh.token@) == Some(
                    refresh_claims(
                        issuer_name(),
                        refresh_audience(),
                        uuid_str_of(user_id),
                        jti_view,
                        1,
                        now + REFRESH_TOKEN_TTL,
                    ),
                ) && self.refresh_view() == old(self).refresh_view().push(
                    new_refresh_record(
                        user_id,
                        jti_view,
                        hmac_tag_of(old(self).spec_symmetric(), encode_utf8(tokens.refresh.token@)),
                        now as int,
                        1,
                    ),
                ));
            }
        }
        Ok(
            RegisterOutput {
                bearer: tokens.bearer,
                refresh: tokens.refresh.token,
                username: resp.username,
                user_id,
            },
        )
    }

    /// Logs a user in: resolves the username, verifies the password
    /// against the stored hash, and returns a fresh access token together
    /// with the stored reference to the current refresh token. An unknown
    /// username and a wrong password collapse to the identical outward
    /// error.
    pub fn login(&self, username: &str, password: &str, now: i64) -> (r: Result<
        LoginOutput,
        AuthError,
    >)
        requires
            0 <= now,
            now + ACCESS_TOKEN_TTL <= MAX_TIMESTAMP,
        ensures
            r matches Ok(out) ==> ({
                &&& lookup_username(self.users_view(), username@) matches Some(u)
                    && argon_verifies(encode_utf8(password@), u.password_hash) && out.user_id
                    == u.user_id && (current_record(self.refresh_view(), u.user_id) matches Some(
                    rec,
                ) && out.refresh_jti@ == rec.jti && out.refresh_version as int == rec.version
                    && out.refresh_expires_at as int == rec.expires_at) && public_verify_of(
                    self.spec_public_key(),
                    out.bearer@,
                ) == Some(
                    access_claims(
                        issuer_name(),
                        access_audience(),
                        uuid_str_of(u.user_id),
                        u.username,
                        now + ACCESS_TOKEN_TTL,
                    ),
                )
                &&& out.username@ == username@
            }),
            lookup_username(self.users_view(), username@) is None ==> r == Err::<
                LoginOutput,
                AuthError,
            >(AuthError::AuthenticationFailure),
            (lookup_username(self.users_view(), username@) matches Some(u) && !argon_verifies(
                encode_utf8(password@),
                u.password_hash,
            )) ==> r == Err::<LoginOutput, AuthError>(AuthError::AuthenticationFailure),
            (lookup_username(self.users_view(), username@) matches Some(u) && argon_verifies(
                encode_utf8(password@),
                u.password_hash,
            ) && current_record(self.refresh_view(), u.user_id) is None) ==> r == Err::<
                LoginOutput,
                AuthError,
            >(AuthError::Storage),
            (lookup_username(self.users_view(), username@) matches Some(u) && argon_verifies(
                encode_utf8(password@),
                u.password_hash,
            ) && current_record(self.refresh_view(), u.user_id) is Some) ==> (r is Ok || r
                == Err::<LoginOutput, AuthError>(AuthError::Storage)),
            r matches Err(e) ==> e == AuthError::AuthenticationFailure || e == AuthError::Storage,
    {
        let user = match self.users.get_user_from_username(username) {
            Some(u) => u,
            None => {
                return Err(AuthError::AuthenticationFailure);
            },
        };
        if !self.hasher.verify(password, user.password_hash.as_str()) {
            return Err(AuthError::AuthenticationFailure);
        }
        let rec = match self.keys.get_refresh_record(user.user_id) {
            Some(r) => r,
            None => {
                return Err(AuthError::Storage);
            },
        };
        let id_str = uuid_to_string(user.user_id);
        let bearer_token = bearer(user.username.as_str(), id_str.as_str(), &self.keypair, now)?;
        Ok(
            LoginOutput {
                user_id: user.user_id,
                username: username.to_owned(),
                bearer: bearer_token,
                refresh_jti: rec.jti.clone(),
                refresh_version: rec.version,
                refresh_expires_at: rec.expires_at,
            },
        )
    }

    /// Rotates a user's refresh token: the presented token must resolve
    /// its footer's key identifier, decrypt under the resolved key, and
    /// carry the stored version; then both tokens are reissued with the
    /// version advanced by one and the new record is persisted. The prior
    /// version can never validate again. On any failure nothing changes.
    pub fn refresh(&mut self, user_id: u128, token: &UnverifiedRefreshToken, now: i64) -> (r:
        Result<RefreshOutput, AuthError>)
        requires
            0 <= now,
            now + REFRESH_TOKEN_TTL <= MAX_TIMESTAMP,
        ensures
            r matches Ok(out) ==> ({
                &&& current_record(old(self).refresh_view(), user_id) matches Some(rec)
                    && refresh_token_accepted(
                    old(self).local_keys_view(),
                    token.spec_token(),
                    uuid_str_of(user_id),
                    rec.version,
                    now as int,
                ) && rec.version < i64::MAX && (exists|jti: Seq<char>|
                    #![trigger refresh_claims(
                        issuer_name(),
                        refresh_audience(),
                        uuid_str_of(user_id),
                        jti,
                        rec.version + 1,
                        now + REFRESH_TOKEN_TTL,
                    )]
                    final(self).refresh_view() == old(self).refresh_view().push(
                        new_refresh_record(
                            user_id,
                            jti,
                            hmac_tag_of(old(self).spec_symmetric(), encode_utf8(out.refresh@)),
                            now as int,
                            rec.version + 1,
                        ),
                    ) && local_decrypt_of(old(self).spec_symmetric(), out.refresh@) == Some(
                        refresh_claims(
                            issuer_name(),
                            refresh_audience(),
                            uuid_str_of(user_id),
                            jti,
                            rec.version + 1,
                            now + REFRESH_TOKEN_TTL,
                        ),
                    ))
                &&& lookup_id(old(self).users_view(), user_id) matches Some(u)
                    && public_verify_of(old(self).spec_public_key(), out.bearer@) == Some(
                    access_claims(
                        issuer_name(),
                        access_audience(),
                        uuid_str_of(user_id),
                        u.username,
                        now + ACCESS_TOKEN_TTL,
                    ),
                )
                &&& spec_token_version(out.bearer@) == Some(TokenVersion::V4) && spec_token_type(
                    out.bearer@,
                ) == Some(TokenType::Public) && out.bearer@.len() > 0
                &&& spec_token_version(out.refresh@) == Some(TokenVersion::V4) && spec_token_type(
                    out.refresh@,
                ) == Some(TokenType::Local) && out.refresh@.len() > 0
            }),
            current_record(old(self).refresh_view(), user_id) is None ==> r == Err::<
                RefreshOutput,
                AuthError,
            >(AuthError::AuthenticationFailure),
            (current_record(old(self).refresh_view(), user_id) matches Some(rec)
                && !refresh_token_accepted(
                old(self).local_keys_view(),
                token.spec_token(),
                uuid_str_of(user_id),
                rec.version,
                now as int,
            )) ==> r is Err,
            r == Err::<RefreshOutput, AuthError>(AuthError::KeyResolution) ==> (footer_kid_of(
                token.spec_token(),
                true,
            ) matches Some(kid) && key_lookup(old(self).local_keys_view(), kid) is None),
            r == Err::<RefreshOutput, AuthError>(AuthError::Storage) ==> (current_record(
                old(self).refresh_view(),
                user_id,
            ) matches Some(rec) && refresh_token_accepted(
                old(self).local_keys_view(),
                token.spec_token(),
                uuid_str_of(user_id),
                rec.version,
                now as int,
            )),
            r matches Err(e) ==> e == AuthError::AuthenticationFailure || e
                == AuthError::KeyResolution || e == AuthError::Storage,
            r is Err ==> final(self).users_view() == old(self).users_view() && final(self).refresh_view() == old(self).refresh_view(),
            final(self).users_view() == old(self).users_view(),
            final(self).spec_public_key() == old(self).spec_public_key() && final(self).spec_symmetric() == old(self).spec_symmetric() && final(self).local_keys_view()
                == old(self).local_keys_view(),
    {
        let rec_version: i64 = match self.keys.get_refresh_record(user_id) {
            Some(rec) => rec.version,
            None => {
                return Err(AuthError::AuthenticationFailure);
            },
        };
        let username: String = match self.users.get_user_from_id(user_id) {
            Some(u) => u.username.clone(),
            None => {
                return Err(AuthError::AuthenticationFailure);
            },
        };
        let kid = match extract_footer_kid(token.token().as_str(), true) {
            Some(k) => k,
            None => {
                return Err(AuthError::AuthenticationFailure);
            },
        };
        let key = match self.keys.fetch_local_key(kid.as_str()) {
            Some(k) => k,
            None => {
                return Err(AuthError::KeyResolution);
            },
        };
        let subject = uuid_to_string(user_id);
        validate_refresh(&key, token, subject.as_str(), rec_version, now)?;
        if rec_version == i64::MAX {
            return Err(AuthError::Storage);
        }
        let new_version = rec_version + 1;
        let tokens = self.generate_tokens(username.as_str(), user_id, new_version, now)?;
        match self.keys.store_refresh_info(&tokens.refresh, new_version, &self.symmetric) {
            Ok(_) => {},
            Err(_) => {
                proof {
                    assert(false);
                }
                return Err(AuthError::Storage);
            },
        }
        proof {
            lemma_marked_token_nonempty(tokens.bearer@);
            lemma_marked_token_nonempty(tokens.refresh.token@);
        }
        Ok(RefreshOutput { bearer: tokens.bearer, refresh: tokens.refresh.token })
    }

    /// Validates a presented access token: extracts the footer's key
    /// identifier without trusting it, resolves it to a stored public key,
    /// verifies the signature under exactly that key, and checks issuer,
    /// audience and expiry against the injected clock. Claims are trusted
    /// only when everything passed; an unknown key identifier is reported
    /// outward exactly like a bad signature.
    pub fn verify_access(&self, token: &str, now: i64) -> (r: Result<TokenClaims, AuthError>)
        ensures
            r matches Ok(c) ==> access_token_accepted(self.public_keys_view(), token@, now as int)
                && (footer_kid_of(token@, false) matches Some(kid) && (key_lookup(
                self.public_keys_view(),
                kid,
            ) matches Some(pk) && public_verify_of(pk, token@) == Some(c@))),
            !access_token_accepted(self.public_keys_view(), token@, now as int) ==> r is Err,
            footer_kid_of(token@, false) is None ==> r == Err::<TokenClaims, AuthError>(
                AuthError::AuthenticationFailure,
            ),
            r == Err::<TokenClaims, AuthError>(AuthError::KeyResolution) ==> (footer_kid_of(
                token@,
                false,
            ) matches Some(kid) && key_lookup(self.public_keys_view(), kid) is None),
            r matches Err(e) ==> e == AuthError::AuthenticationFailure || e
                == AuthError::KeyResolution,
    {
        let kid = match extract_footer_kid(token, false) {
            Some(k) => k,
            None => {
                return Err(AuthError::AuthenticationFailure);
            },
        };
        let pk = match self.keys.fetch_public_key(kid.as_str()) {
            Some(p) => p,
            None => {
                return Err(AuthError::KeyResolution);
            },
        };
        verify_bearer(pk, token, now)
    }

    /// Serves the active public key, but only to a caller who already
    /// knows its exact identifier; any other identifier is a permission
    /// failure.
    pub fn public_key(&self, kid: &str) -> (r: Result<String, AuthError>)
        ensures
            kid@ == public_kid_of(self.spec_public_key()) ==> (r matches Ok(s) && s@
                == public_paserk_of(self.spec_public_key())),
            kid@ != public_kid_of(self.spec_public_key()) ==> r == Err::<String, AuthError>(
                AuthError::AuthenticationFailure,
            ),
    {
        let my_kid = derive_public_kid(self.keypair.public_bytes());
        if str_eq(kid, my_kid.as_str()) {
            Ok(serialize_public_key(self.keypair.public_bytes()))
        } else {
            Err(AuthError::AuthenticationFailure)
        }
    }
}

} // verus!
