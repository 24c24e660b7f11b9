//! The key repository: persistence of verification keys by identifier,
//! and of refresh-token records.
//!
//! Keys are content-addressed: every stored entry's identifier is the
//! paserk identifier of its own bytes, so resolving a token's embedded
//! identifier yields exactly the key that must verify it. Refresh records
//! hold a keyed hash of the token text, never the raw token, and carry a
//! version counter that only ever advances by one; at most one record per
//! user is current.

use vstd::prelude::*;
use vstd::string::StringSliceAdditionalSpecFns;

use hmac::{KeyInit, Mac};

use crate::errors::AuthError;
use crate::keys::{derive_local_kid, derive_public_kid, local_kid_of, public_kid_of,
    SymmetricKeyBytes};
use crate::text::str_eq;
use crate::token::RefreshTokenWithMetadata;

verus! {

/// The HMAC-SHA-256 tag of `msg` under `key`: a deterministic function of
/// the two arguments.
pub uninterp spec fn hmac_tag_of(key: Seq<u8>, msg: Seq<u8>) -> Seq<u8>;

/// Relies on hmac's `Hmac<Sha256>`: a 32-byte tag computed from the key
/// and the message alone. Keys of any length are accepted.
#[verifier::external_body]
fn hmac_sha256(key: &Vec<u8>, msg: &[u8]) -> (r: Vec<u8>)
    ensures
        r@ == hmac_tag_of(key@, msg@),
        r@.len() == 32,
{
    let mut mac = hmac::Hmac::<sha2::Sha256>::new_from_slice(key.as_slice()).unwrap();
    mac.update(msg);
    mac.finalize().into_bytes().to_vec()
}

/// A stored verification key: its paserk identifier and its bytes.
pub struct StoredKey {
    pub kid: String,
    pub bytes: Vec<u8>,
}

/// The mathematical model of a stored key.
pub struct StoredKeyModel {
    pub kid: Seq<char>,
    pub bytes: Seq<u8>,
}

impl View for StoredKey {
    type V = StoredKeyModel;

    open spec fn view(&self) -> StoredKeyModel {
        StoredKeyModel { kid: self.kid@, bytes: self.bytes@ }
    }
}

/// A stored refresh-token record: the token's identifier, its owner, the
/// keyed hash of the token text (never the raw token), its lifetime, and
/// the version counter.
pub struct RefreshRecord {
    pub jti: String,
    pub user_id: u128,
    pub token_hash: Vec<u8>,
    pub issued_at: i64,
    pub expires_at: i64,
    pub version: i64,
}

/// The mathematical model of a refresh record.
pub struct RefreshRecordModel {
    pub jti: Seq<char>,
    pub user_id: u128,
    pub token_hash: Seq<u8>,
    pub issued_at: int,
    pub expires_at: int,
    pub version: int,
}

impl View for RefreshRecord {
    type V = RefreshRecordModel;

    open spec fn view(&self) -> RefreshRecordModel {
        RefreshRecordModel {
            jti: self.jti@,
            user_id: self.user_id,
            token_hash: self.token_hash@,
            issued_at: self.issued_at as int,
            expires_at: self.expires_at as int,
            version: self.version as int,
        }
    }
}

/// The bytes stored under a key identifier: the first matching entry.
pub open spec fn key_lookup(keys: Seq<StoredKeyModel>, kid: Seq<char>) -> Option<Seq<u8>>
    decreases keys.len(),
{
    if keys.len() == 0 {
        None
    } else if keys[0].kid == kid {
        Some(keys[0].bytes)
    } else {
        key_lookup(keys.drop_first(), kid)
    }
}

/// The current refresh record of a user: the last one stored for them.
pub open spec fn current_record(recs: Seq<RefreshRecordModel>, user: u128) -> Option<
    RefreshRecordModel,
>
    decreases recs.len(),
{
    if recs.len() == 0 {
        None
    } else if recs.last().user_id == user {
        Some(recs.last())
    } else {
        current_record(recs.drop_last(), user)
    }
}

/// The version a user's next refresh record must carry: one past the
/// current record's, or the initial version when there is none.
pub open spec fn expected_next_version(recs: Seq<RefreshRecordModel>, user: u128) -> int {
    match current_record(recs, user) {
        Some(r) => r.version + 1,
        None => 1,
    }
}

/// Whether each user's versions strictly increase along the store.
pub open spec fn versions_increasing(recs: Seq<RefreshRecordModel>) -> bool {
    forall|i: int, j: int|
        0 <= i < j < recs.len() && (#[trigger] recs[i]).user_id == (#[trigger] recs[j]).user_id
            ==> recs[i].version < recs[j].version
}

/// Pushing a record for one user leaves every other user's current record
/// unchanged, and becomes the pushing user's current record.
pub proof fn lemma_current_after_push(recs: Seq<RefreshRecordModel>, rec: RefreshRecordModel)
    ensures
        current_record(recs.push(rec), rec.user_id) == Some(rec),
        forall|u: u128| u != rec.user_id ==> current_record(recs.push(rec), u) == current_record(
            recs,
            u,
        ),
{
    assert(recs.push(rec).last() == rec);
    assert forall|u: u128| u != rec.user_id implies current_record(recs.push(rec), u)
        == current_record(recs, u) by {
        assert(recs.push(rec).drop_last() =~= recs);
    }
}

/// The model of the key repository's whole state.
pub struct KeyRepoModel {
    pub public_keys: Seq<StoredKeyModel>,
    pub local_keys: Seq<StoredKeyModel>,
    pub refresh: Seq<RefreshRecordModel>,
}

/// The in-memory key repository.
pub struct KeyRepo {
    public_keys: Vec<StoredKey>,
    local_keys: Vec<StoredKey>,
    refresh: Vec<RefreshRecord>,
}

impl View for KeyRepo {
    type V = KeyRepoModel;

    closed spec fn view(&self) -> KeyRepoModel {
        KeyRepoModel {
            public_keys: Seq::new(self.public_keys@.len(), |i: int| self.public_keys@[i]@),
            local_keys: Seq::new(self.local_keys@.len(), |i: int| self.local_keys@[i]@),
            refresh: Seq::new(self.refresh@.len(), |i: int| self.refresh@[i]@),
        }
    }
}

impl KeyRepo {
    /// Keys are content-addressed 32-byte keys under distinct identifiers,
    /// and each user's refresh versions strictly increase along the store.
    #[verifier::type_invariant]
    spec fn wf(self) -> bool {
        &&& forall|i: int|
            0 <= i < self.public_keys@.len() ==> (#[trigger] self.public_keys@[i])@.kid
                == public_kid_of(self.public_keys@[i]@.bytes) && self.public_keys@[i]@.bytes.len()
                == 32
        &&& forall|i: int, j: int|
            0 <= i < j < self.public_keys@.len() ==> (#[trigger] self.public_keys@[i])@.kid
                != (#[trigger] self.public_keys@[j])@.kid
        &&& forall|i: int|
            0 <= i < self.local_keys@.len() ==> (#[trigger] self.local_keys@[i])@.kid
                == local_kid_of(self.local_keys@[i]@.bytes) && self.local_keys@[i]@.bytes.len()
                == 32
        &&& forall|i: int, j: int|
            0 <= i < j < self.local_keys@.len() ==> (#[trigger] self.local_keys@[i])@.kid
                != (#[trigger] self.local_keys@[j])@.kid
        &&& versions_increasing(self.view().refresh)
    }

    /// An empty repository.
    pub fn new() -> (r: Self)
        ensures
            r@.public_keys == Seq::<StoredKeyModel>::empty(),
            r@.local_keys == Seq::<StoredKeyModel>::empty(),
            r@.refresh == Seq::<RefreshRecordModel>::empty(),
    {
        let r = KeyRepo { public_keys: Vec::new(), local_keys: Vec::new(), refresh: Vec::new() };
        proof {
            assert(r@.public_keys =~= Seq::<StoredKeyModel>::empty());
            assert(r@.local_keys =~= Seq::<StoredKeyModel>::empty());
            assert(r@.refresh =~= Seq::<RefreshRecordModel>::empty());
        }
        r
    }

    /// Stores a public key under its derived identifier. A key already
    /// stored (same identifier) is left as it is; every other identifier
    /// resolves as before.
    pub fn store_public_key(&mut self, key: &Vec<u8>)
        requires
            key@.len() == 32,
        ensures
            key_lookup(old(self)@.public_keys, public_kid_of(key@)) is None ==> final(self)@.public_keys == old(self)@.public_keys.push(
                (StoredKeyModel { kid: public_kid_of(key@), bytes: key@ }),
            ) && key_lookup(final(self)@.public_keys, public_kid_of(key@)) == Some(key@),
            key_lookup(old(self)@.public_keys, public_kid_of(key@)) is Some ==> final(self)@.public_keys == old(self)@.public_keys,
            forall|k: Seq<char>|
                k != public_kid_of(key@) ==> key_lookup(final(self)@.public_keys, k) == key_lookup(
                    old(self)@.public_keys,
                    k,
                ),
            final(self)@.local_keys == old(self)@.local_keys,
            final(self)@.refresh == old(self)@.refresh,
    {
        proof {
            use_type_invariant(&*self);
        }
        let kid = derive_public_kid(key);
        let n = self.public_keys.len();
        let mut i: usize = 0;
        while i < n
            invariant
                n == self.public_keys@.len(),
                i <= n,
                kid@ == public_kid_of(key@),
                forall|j: int|
                    0 <= j < i ==> (#[trigger] self.public_keys@[j])@.kid != kid@,
            decreases n - i,
        {
            if str_eq(self.public_keys[i].kid.as_str(), kid.as_str()) {
                proof {
                    assert(self@.public_keys[i as int] == self.public_keys@[i as int]@);
                    lemma_key_lookup_first(self@.public_keys, kid@, i as int);
                }
                return ;
            }
            assert(self@.public_keys[i as int] == self.public_keys@[i as int]@);
            i = i + 1;
        }
        proof {
            lemma_key_lookup_none(self@.public_keys, kid@);
        }
        let entry = StoredKey { kid, bytes: copy_bytes(key) };
        let ghost old_keys = self@.public_keys;
        let mut keys: Vec<StoredKey> = Vec::new();
        std::mem::swap(&mut keys, &mut self.public_keys);
        keys.push(entry);
        std::mem::swap(&mut keys, &mut self.public_keys);
        proof {
            assert(self@.public_keys =~= old_keys.push(entry@));
            lemma_key_lookup_push(old_keys, entry@, public_kid_of(key@));
            assert forall|k: Seq<char>| k != public_kid_of(key@) implies key_lookup(
                self@.public_keys,
                k,
            ) == key_lookup(old_keys, k) by {
                lemma_key_lookup_push(old_keys, entry@, k);
            }
            assert(self@.local_keys =~= old(self)@.local_keys);
            assert(self@.refresh =~= old(self)@.refresh);
        }
    }

    /// Stores a symmetric key under its derived identifier, as
    /// `store_public_key` does for public keys.
    pub fn store_local_key(&mut self, key: &Vec<u8>)
        requires
            key@.len() == 32,
        ensures
            key_lookup(old(self)@.local_keys, local_kid_of(key@)) is None ==> final(self)@.local_keys == old(self)@.local_keys.push(
                (StoredKeyModel { kid: local_kid_of(key@), bytes: key@ }),
            ) && key_lookup(final(self)@.local_keys, local_kid_of(key@)) == Some(key@),
            key_lookup(old(self)@.local_keys, local_kid_of(key@)) is Some ==> final(self)@.local_keys == old(self)@.local_keys,
            forall|k: Seq<char>|
                k != local_kid_of(key@) ==> key_lookup(final(self)@.local_keys, k) == key_lookup(
                    old(self)@.local_keys,
                    k,
                ),
            final(self)@.public_keys == old(self)@.public_keys,
            final(self)@.refresh == old(self)@.refresh,
    {
        proof {
            use_type_invariant(&*self);
        }
        let kid = derive_local_kid(key);
        let n = self.local_keys.len();
        let mut i: usize = 0;
        while i < n
            invariant
                n == self.local_keys@.len(),
                i <= n,
                kid@ == local_kid_of(key@),
                forall|j: int| 0 <= j < i ==> (#[trigger] self.local_keys@[j])@.kid != kid@,
            decreases n - i,
        {
            if str_eq(self.local_keys[i].kid.as_str(), kid.as_str()) {
                proof {
                    assert(self@.local_keys[i as int] == self.local_keys@[i as int]@);
                    lemma_key_lookup_first(self@.local_keys, kid@, i as int);
                }
                return ;
            }
            assert(self@.local_keys[i as int] == self.local_keys@[i as int]@);
            i = i + 1;
        }
        proof {
            lemma_key_lookup_none(self@.local_keys, kid@);
        }
        let entry = StoredKey { kid, bytes: copy_bytes(key) };
        let ghost old_keys = self@.local_keys;
        let mut keys: Vec<StoredKey> = Vec::new();
        std::mem::swap(&mut keys, &mut self.local_keys);
        keys.push(entry);
        std::mem::swap(&mut keys, &mut self.local_keys);
        proof {
            assert(self@.local_keys =~= old_keys.push(entry@));
            lemma_key_lookup_push(old_keys, entry@, local_kid_of(key@));
            assert forall|k: Seq<char>| k != local_kid_of(key@) implies key_lookup(
                self@.local_keys,
                k,
            ) == key_lookup(old_keys, k) by {
                lemma_key_lookup_push(old_keys, entry@, k);
            }
            assert(self@.public_keys =~= old(self)@.public_keys);
            assert(self@.refresh =~= old(self)@.refresh);
        }
    }

    /// Fetches a public key by identifier. A returned key's identifier is
    /// always the identifier derived from its own bytes: a token's
    /// embedded identifier resolves the exact key that must verify it.
    pub fn fetch_public_key(&self, kid: &str) -> (r: Option<&Vec<u8>>)
        ensures
            match r {
                Some(b) => key_lookup(self@.public_keys, kid@) == Some(b@) && kid@ == public_kid_of(
                    b@,
                ) && b@.len() == 32,
                None => key_lookup(self@.public_keys, kid@) is None,
            },
    {
        proof {
            use_type_invariant(&*self);
        }
        let n = self.public_keys.len();
        let mut i: usize = 0;
        while i < n
            invariant
                n == self.public_keys@.len(),
                i <= n,
                forall|j: int| 0 <= j < i ==> (#[trigger] self.public_keys@[j])@.kid != kid@,
            decreases n - i,
        {
            if str_eq(self.public_keys[i].kid.as_str(), kid) {
                proof {
                    use_type_invariant(&*self);
                    lemma_key_lookup_first(self@.public_keys, kid@, i as int);
                    assert(self@.public_keys[i as int] == self.public_keys@[i as int]@);
                }
                return Some(&self.public_keys[i].bytes);
            }
            assert(self@.public_keys[i as int] == self.public_keys@[i as int]@);
            i = i + 1;
        }
        proof {
            lemma_key_lookup_none(self@.public_keys, kid@);
        }
        None
    }

    /// Fetches a symmetric key by identifier, with the same content
    /// addressing as `fetch_public_key`.
    pub fn fetch_local_key(&self, kid: &str) -> (r: Option<SymmetricKeyBytes>)
        ensures
            match r {
                Some(k) => key_lookup(self@.local_keys, kid@) == Some(k.spec_bytes()) && kid@
                    == local_kid_of(k.spec_bytes()),
                None => key_lookup(self@.local_keys, kid@) is None,
            },
    {
        proof {
            use_type_invariant(&*self);
        }
        let n = self.local_keys.len();
        let mut i: usize = 0;
        while i < n
            invariant
                n == self.local_keys@.len(),
                i <= n,
                forall|j: int| 0 <= j < i ==> (#[trigger] self.local_keys@[j])@.kid != kid@,
            decreases n - i,
        {
            if str_eq(self.local_keys[i].kid.as_str(), kid) {
                proof {
                    use_type_invariant(&*self);
                    lemma_key_lookup_first(self@.local_keys, kid@, i as int);
                    assert(self@.local_keys[i as int] == self.local_keys@[i as int]@);
                }
                let bytes = copy_bytes(&self.local_keys[i].bytes);
                match SymmetricKeyBytes::from_bytes(bytes) {
                    Ok(k) => {
                        return Some(k);
                    },
                    Err(_) => {
                        proof {
                            assert(false);
                        }
                        return None;
                    },
                }
            }
            assert(self@.local_keys[i as int] == self.local_keys@[i as int]@);
            i = i + 1;
        }
        proof {
            lemma_key_lookup_none(self@.local_keys, kid@);
        }
        None
    }

    /// The current refresh record of a user, if any.
    pub fn get_refresh_record(&self, user_id: u128) -> (r: Option<&RefreshRecord>)
        ensures
            match r {
                Some(rec) => current_record(self@.refresh, user_id) == Some(rec@),
                None => current_record(self@.refresh, user_id) is None,
            },
    {
        let n = self.refresh.len();
        let mut i: usize = n;
        proof {
            assert(self@.refresh.take(n as int) =~= self@.refresh);
        }
        while i > 0
            invariant
                n == self.refresh@.len(),
                i <= n,
                current_record(self@.refresh, user_id) == current_record(
                    self@.refresh.take(i as int),
                    user_id,
                ),
            decreases i,
    {
            i = i - 1;
            if self.refresh[i].user_id == user_id {
                proof {
                    assert(self@.refresh.take(i + 1).last() == self@.refresh[i as int]);
                    assert(self@.refresh[i as int] == self.refresh@[i as int]@);
                }
                return Some(&self.refresh[i]);
            }
            proof {
                assert(self@.refresh.take(i + 1).last() == self@.refresh[i as int]);
                assert(self@.refresh[i as int] == self.refresh@[i as int]@);
                assert(self@.refresh.take(i + 1).drop_last() =~= self@.refresh.take(i as int));
            }
        }
        proof {
            assert(self@.refresh.take(0) =~= Seq::<RefreshRecordModel>::empty());
        }
        None
    }

    /// Persists the record of a freshly minted refresh token, storing a
    /// keyed hash of the token text rather than the token. The record is
    /// accepted exactly when its version is the next one for its user
    /// (one past the current record's, or the initial version 1); an
    /// out-of-order version changes nothing and is an internal error.
    pub fn store_refresh_info(
        &mut self,
        meta: &RefreshTokenWithMetadata,
        version: i64,
        hmac_key: &SymmetricKeyBytes,
    ) -> (r: Result<(), AuthError>)
        ensures
            version == expected_next_version(old(self)@.refresh, meta.user_id) <==> r is Ok,
            r is Ok ==> final(self)@.refresh == old(self)@.refresh.push(
                (RefreshRecordModel {
                    jti: meta.jti@,
                    user_id: meta.user_id,
                    token_hash: hmac_tag_of(hmac_key.spec_bytes(), vstd::utf8::encode_utf8(meta.token@)),
                    issued_at: meta.issued_at as int,
                    expires_at: meta.exp as int,
                    version: version as int,
                }),
            ),
            r is Err ==> final(self)@.refresh == old(self)@.refresh && r == Err::<(), AuthError>(
                AuthError::Storage,
            ),
            final(self)@.public_keys == old(self)@.public_keys,
            final(self)@.local_keys == old(self)@.local_keys,
    {
        proof {
            use_type_invariant(&*self);
        }
        let current = self.get_refresh_record(meta.user_id);
        let version_ok = match current {
            Some(rec) => rec.version < i64::MAX && version == rec.version + 1,
            None => version == 1,
        };
        if !version_ok {
            proof {
                assert(self@.public_keys =~= old(self)@.public_keys);
                assert(self@.local_keys =~= old(self)@.local_keys);
                assert(self@.refresh =~= old(self)@.refresh);
            }
            return Err(AuthError::Storage);
        }
        let hash = hmac_sha256(hmac_key.as_bytes(), meta.token.as_str().as_bytes());
        let record = RefreshRecord {
            jti: meta.jti.clone(),
            user_id: meta.user_id,
            token_hash: hash,
            issued_at: meta.issued_at,
            expires_at: meta.exp,
            version,
        };
        let ghost old_recs = self@.refresh;
        proof {
            match current_record(old_recs, meta.user_id) {
                Some(_) => lemma_current_version_bounds(old_recs, meta.user_id),
                None => lemma_current_none(old_recs, meta.user_id),
            }
            assert(forall|i: int|
                0 <= i < old_recs.len() && (#[trigger] old_recs[i]).user_id == meta.user_id
                    ==> old_recs[i].version < version as int);
        }
        let mut recs: Vec<RefreshRecord> = Vec::new();
        std::mem::swap(&mut recs, &mut self.refresh);
        recs.push(record);
        proof {
            assert(Seq::new(recs@.len(), |i: int| recs@[i]@) =~= old_recs.push(record@));
            assert forall|i: int, j: int|
                0 <= i < j < recs@.len() && (#[trigger] recs@[i])@.user_id
                    == (#[trigger] recs@[j])@.user_id implies recs@[i]@.version
                < recs@[j]@.version by {
                if j < recs@.len() - 1 {
                    assert(old_recs[i] == recs@[i]@);
                    assert(old_recs[j] == recs@[j]@);
                } else {
                    assert(recs@[j]@ == record@);
                    assert(old_recs[i] == recs@[i]@);
                }
            }
        }
        std::mem::swap(&mut recs, &mut self.refresh);
        proof {
            assert(self@.refresh =~= old_recs.push(record@));
            assert(self@.public_keys =~= old(self)@.public_keys);
            assert(self@.local_keys =~= old(self)@.local_keys);
        }
        Ok(())
    }
}

/// When versions increase along the store, every record of a user has a
/// version at most the current record's.
proof fn lemma_current_version_bounds(recs: Seq<RefreshRecordModel>, user: u128)
    requires
        versions_increasing(recs),
    ensures
        forall|i: int|
            0 <= i < recs.len() && (#[trigger] recs[i]).user_id == user ==> (
            current_record(recs, user) matches Some(c) && recs[i].version <= c.version),
    decreases recs.len(),
{
    if recs.len() > 0 {
        assert forall|i: int, j: int|
            0 <= i < j < recs.drop_last().len() && (#[trigger] recs.drop_last()[i]).user_id
                == (#[trigger] recs.drop_last()[j]).user_id implies recs.drop_last()[i].version
            < recs.drop_last()[j].version by {
            assert(recs.drop_last()[i] == recs[i]);
            assert(recs.drop_last()[j] == recs[j]);
        }
        lemma_current_version_bounds(recs.drop_last(), user);
        assert forall|i: int|
            0 <= i < recs.len() && (#[trigger] recs[i]).user_id == user implies (
            current_record(recs, user) matches Some(c) && recs[i].version <= c.version) by {
            if recs.last().user_id == user {
                if i < recs.len() - 1 {
                    assert(recs[i].version < recs.last().version);
                } else {
                    assert(recs[i] == recs.last());
                }
            } else {
                assert(i < recs.len() - 1);
                assert(recs.drop_last()[i] == recs[i]);
            }
        }
    }
}

/// A user without a current record has no record at all.
proof fn lemma_current_none(recs: Seq<RefreshRecordModel>, user: u128)
    requires
        current_record(recs, user) is None,
    ensures
        forall|i: int| 0 <= i < recs.len() ==> (#[trigger] recs[i]).user_id != user,
    decreases recs.len(),
{
    if recs.len() > 0 {
        lemma_current_none(recs.drop_last(), user);
        assert forall|i: int| 0 <= i < recs.len() implies (#[trigger] recs[i]).user_id != user by {
            if i < recs.len() - 1 {
                assert(recs.drop_last()[i] == recs[i]);
            }
        }
    }
}

/// If no entry before `i` carries the identifier and entry `i` does,
/// `key_lookup` returns entry `i`'s bytes.
proof fn lemma_key_lookup_first(keys: Seq<StoredKeyModel>, kid: Seq<char>, i: int)
    requires
        0 <= i < keys.len(),
        forall|j: int| 0 <= j < i ==> (#[trigger] keys[j]).kid != kid,
        keys[i].kid == kid,
    ensures
        key_lookup(keys, kid) == Some(keys[i].bytes),
    decreases i,
{
    if i > 0 {
        assert forall|j: int| 0 <= j < i - 1 implies (#[trigger] keys.drop_first()[j]).kid
            != kid by {
            assert(keys.drop_first()[j] == keys[j + 1]);
        }
        assert(keys.drop_first()[i - 1] == keys[i]);
        lemma_key_lookup_first(keys.drop_first(), kid, i - 1);
    }
}

/// If no entry carries the identifier, `key_lookup` finds nothing.
proof fn lemma_key_lookup_none(keys: Seq<StoredKeyModel>, kid: Seq<char>)
    requires
        forall|j: int| 0 <= j < keys.len() ==> (#[trigger] keys[j]).kid != kid,
    ensures
        key_lookup(keys, kid) is None,
    decreases keys.len(),
{
    if keys.len() > 0 {
        assert forall|j: int| 0 <= j < keys.drop_first().len() implies (#[trigger] keys.drop_first()[j]).kid
            != kid by {
            assert(keys.drop_first()[j] == keys[j + 1]);
        }
        lemma_key_lookup_none(keys.drop_first(), kid);
    }
}

/// Appending an entry leaves every identifier's lookup unchanged, except
/// a previously absent identifier that the new entry carries.
proof fn lemma_key_lookup_push(keys: Seq<StoredKeyModel>, e: StoredKeyModel, kid: Seq<char>)
    ensures
        key_lookup(keys.push(e), kid) == (if key_lookup(keys, kid) is Some {
            key_lookup(keys, kid)
        } else if e.kid == kid {
            Some(e.bytes)
        } else {
            None
        }),
    decreases keys.len(),
{
    if keys.len() == 0 {
        assert(keys.push(e)[0] == e);
        assert(keys.push(e).drop_first() =~= Seq::<StoredKeyModel>::empty());
    } else {
        assert(keys.push(e)[0] == keys[0]);
        assert(keys.push(e).drop_first() =~= keys.drop_first().push(e));
        lemma_key_lookup_push(keys.drop_first(), e, kid);
    }
}

/// Byte-wise copy of a byte vector.
fn copy_bytes(v: &Vec<u8>) -> (r: Vec<u8>)
    ensures
        r@ == v@,
{
    let n = v.len();
    let mut out: Vec<u8> = Vec::new();
    let mut i: usize = 0;
    while i < n
        invariant
            n == v@.len(),
            i <= n,
            out@ == v@.take(i as int),
        decreases n - i,
    {
        out.push(v[i]);
        proof {
            assert(out@ =~= v@.take(i + 1));
        }
        i = i + 1;
    }
    proof {
        assert(v@.take(n as int) =~= v@);
    }
    out
}

/// Retrieval of a verification key by its identifier, the capability a
/// token validator needs from key storage. An implementation says through
/// `stores` and `absent` what a returned key, or the lack of one, means
/// of its state.
pub trait KeyRetrieval<K> {
    /// What it means for `key` to be stored under `kid`.
    spec fn stores(&self, kid: Seq<char>, key: &K) -> bool;

    /// What it means for no key to be stored under `kid`.
    spec fn absent(&self, kid: Seq<char>) -> bool;

    /// Looks up the key stored under `kid`.
    fn get_key(&self, kid: &str) -> (r: Option<K>)
        ensures
            r matches Some(k) ==> self.stores(kid@, &k),
            r is None ==> self.absent(kid@),
    ;
}

impl KeyRetrieval<Vec<u8>> for KeyRepo {
    /// A public key is stored when the public-key lookup yields its bytes.
    open spec fn stores(&self, kid: Seq<char>, key: &Vec<u8>) -> bool {
        key_lookup(self@.public_keys, kid) == Some(key@)
    }

    open spec fn absent(&self, kid: Seq<char>) -> bool {
        key_lookup(self@.public_keys, kid) is None
    }

    fn get_key(&self, kid: &str) -> (r: Option<Vec<u8>>) {
        match self.fetch_public_key(kid) {
            Some(b) => Some(copy_bytes(b)),
            None => None,
        }
    }
}

impl KeyRetrieval<SymmetricKeyBytes> for KeyRepo {
    /// A symmetric key is stored when the local-key lookup yields its
    /// bytes.
    open spec fn stores(&self, kid: Seq<char>, key: &SymmetricKeyBytes) -> bool {
        key_lookup(self@.local_keys, kid) == Some(key.spec_bytes())
    }

    open spec fn absent(&self, kid: Seq<char>) -> bool {
        key_lookup(self@.local_keys, kid) is None
    }

    fn get_key(&self, kid: &str) -> (r: Option<SymmetricKeyBytes>) {
        self.fetch_local_key(kid)
    }
}

} // verus!
