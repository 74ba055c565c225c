//! API keys: issuance of opaque tokens, their HMAC-SHA256 hashes, and the
//! lifecycle of a stored key: active, expiring after a rotation, revoked.
use vstd::prelude::*;
use vstd::utf8::encode_utf8;
use hmac::Mac;
use rand::Rng;
use crate::scheduler::valid_time;
use crate::text::str_eq;

verus! {

/// The namespace every issued token starts with.
pub const API_KEY_PREFIX: &'static str = "dodo_live_";

/// Number of random characters after the prefix.
pub const API_KEY_RANDOM_LEN: usize = 48;

/// Seconds a rotated key keeps working.
pub const ROTATION_GRACE_SECS: i64 = 7 * 24 * 60 * 60;

/// The HMAC-SHA256 tag of a message under a key.
pub uninterp spec fn hmac_sha256_of(key: Seq<u8>, msg: Seq<u8>) -> Seq<u8>;

pub open spec fn api_key_prefix() -> Seq<char> {
    seq!['d', 'o', 'd', 'o', '_', 'l', 'i', 'v', 'e', '_']
}

pub open spec fn is_ascii_alphanumeric(c: char) -> bool {
    ('A' <= c && c <= 'Z') || ('a' <= c && c <= 'z') || ('0' <= c && c <= '9')
}

/// A lowercase hexadecimal digit.
pub open spec fn hex_digit(n: int) -> char {
    if n < 10 {
        (('0' as int) + n) as char
    } else {
        (('a' as int) + n - 10) as char
    }
}

/// Two lowercase hexadecimal digits per byte, high nibble first.
pub open spec fn hex_text(b: Seq<u8>) -> Seq<char>
    decreases b.len(),
{
    if b.len() == 0 {
        seq![]
    } else {
        hex_text(b.drop_last()) + seq![hex_digit(b.last() as int / 16), hex_digit(b.last() as int % 16)]
    }
}

proof fn lemma_hex_text_len(b: Seq<u8>)
    ensures
        hex_text(b).len() == 2 * b.len(),
    decreases b.len(),
{
    if b.len() > 0 {
        lemma_hex_text_len(b.drop_last());
    }
}

/// The stored hash of a token: hex of its HMAC-SHA256 under the server secret,
/// both taken as UTF-8.
pub open spec fn key_hash_text(secret: Seq<char>, token: Seq<char>) -> Seq<char> {
    hex_text(hmac_sha256_of(encode_utf8(secret), encode_utf8(token)))
}

/// Relies on `hmac::Hmac<sha2::Sha256>` through `Mac::new_from_slice`,
/// `Mac::update` and `Mac::finalize`: the tag of `msg` under `key`, as long as
/// SHA-256's output, 32 bytes. `new_from_slice` takes keys of any length, so it
/// never fails.
#[verifier::external_body]
fn hmac_sha256(key: &[u8], msg: &[u8]) -> (r: Vec<u8>)
    ensures
        r@ == hmac_sha256_of(key@, msg@),
        r@.len() == 32,
{
    let mut mac = hmac::Hmac::<sha2::Sha256>::new_from_slice(key).expect("any key length");
    mac.update(msg);
    mac.finalize().into_bytes().to_vec()
}

/// Relies on `hex::encode`: two lowercase digits per byte, high nibble first.
#[verifier::external_body]
fn hex_encode(b: &[u8]) -> (r: String)
    ensures
        r@ == hex_text(b@),
{
    hex::encode(b)
}

/// Relies on rand's `thread_rng` sampled with `distributions::Alphanumeric`:
/// `len` characters, each one of `A-Z`, `a-z`, `0-9`.
#[verifier::external_body]
fn random_alphanumeric(len: usize) -> (r: String)
    ensures
        r@.len() == len,
        forall|i: int| 0 <= i < len ==> is_ascii_alphanumeric(#[trigger] r@[i]),
{
    rand::thread_rng().sample_iter(&rand::distributions::Alphanumeric).take(len).map(
        char::from,
    ).collect()
}

/// The hash under which a token is stored and looked up.
pub fn hash_api_key(secret: &str, raw_key: &str) -> (r: String)
    ensures
        r@ == key_hash_text(secret@, raw_key@),
        r@.len() == 64,
{
    let tag = hmac_sha256(secret.as_bytes(), raw_key.as_bytes());
    proof {
        lemma_hex_text_len(tag@);
    }
    hex_encode(tag.as_slice())
}

/// A fresh token, returned once to the caller, and the hash to store for it.
pub fn generate_api_key(secret: &str) -> (r: (String, String))
    ensures
        r.0@.len() == api_key_prefix().len() + API_KEY_RANDOM_LEN,
        r.0@.subrange(0, api_key_prefix().len() as int) == api_key_prefix(),
        forall|i: int|
            api_key_prefix().len() <= i < r.0@.len() ==> is_ascii_alphanumeric(#[trigger] r.0@[i]),
        r.1@ == key_hash_text(secret@, r.0@),
        r.1@.len() == 64,
{
    let random_part = random_alphanumeric(API_KEY_RANDOM_LEN);
    let mut raw_key = String::from_str(API_KEY_PREFIX);
    proof {
        reveal_strlit("dodo_live_");
    }
    assert(raw_key@ =~= api_key_prefix());
    raw_key.append(random_part.as_str());
    assert(raw_key@.subrange(0, 10) =~= api_key_prefix());
    assert forall|i: int| 10 <= i < raw_key@.len() implies is_ascii_alphanumeric(
        #[trigger] raw_key@[i],
    ) by {
        assert(raw_key@[i] == random_part@[i - 10]);
    }
    let hashed = hash_api_key(secret, raw_key.as_str());
    (raw_key, hashed)
}

#[derive(Clone, Copy, Debug, PartialEq, Eq, Structural)]
pub enum KeyStatus {
    Active,
    /// Rotated away; works until its expiry.
    Expiring,
    Revoked,
}

/// The status a stored text names.
pub open spec fn key_status_of(s: Seq<char>) -> Option<KeyStatus> {
    if s == seq!['a', 'c', 't', 'i', 'v', 'e'] {
        Some(KeyStatus::Active)
    } else if s == seq!['e', 'x', 'p', 'i', 'r', 'i', 'n', 'g'] {
        Some(KeyStatus::Expiring)
    } else if s == seq!['r', 'e', 'v', 'o', 'k', 'e', 'd'] {
        Some(KeyStatus::Revoked)
    } else {
        None
    }
}

impl KeyStatus {
    /// Reads the stored text of a status.
    pub fn from_text(s: &str) -> (r: Option<KeyStatus>)
        ensures
            r == key_status_of(s@),
    {
        let t0 = "active";
        let t1 = "expiring";
        let t2 = "revoked";
        proof {
            reveal_strlit("active");
            reveal_strlit("expiring");
            reveal_strlit("revoked");
        }
        assert(t0@ =~= seq!['a', 'c', 't', 'i', 'v', 'e']);
        assert(t1@ =~= seq!['e', 'x', 'p', 'i', 'r', 'i', 'n', 'g']);
        assert(t2@ =~= seq!['r', 'e', 'v', 'o', 'k', 'e', 'd']);
        if str_eq(s, t0) {
            Some(KeyStatus::Active)
        } else if str_eq(s, t1) {
            Some(KeyStatus::Expiring)
        } else if str_eq(s, t2) {
            Some(KeyStatus::Revoked)
        } else {
            None
        }
    }
}

/// A stored key of a tenant or of an admin; the token itself is never kept.
#[derive(Clone, Debug)]
pub struct ApiKey {
    pub id: i64,
    pub owner_id: i64,
    pub key_hash: String,
    pub status: KeyStatus,
    /// Unix seconds.
    pub expires_at: Option<i64>,
}

/// A key authenticates while it is not revoked and not past its expiry.
pub open spec fn key_valid(k: ApiKey, now: i64) -> bool {
    k.status != KeyStatus::Revoked && match k.expires_at {
        None => true,
        Some(t) => t > now,
    }
}

/// A key rotated at `now` still authenticates at `now`, and stops once the
/// grace period has run out.
pub proof fn lemma_rotated_key_grace(k: ApiKey, now: i64)
    requires
        valid_time(now),
    ensures
        ({
            let rotated = ApiKey {
                status: KeyStatus::Expiring,
                expires_at: Some((now + ROTATION_GRACE_SECS) as i64),
                ..k
            };
            key_valid(rotated, now) && forall|t: i64|
                t >= now + ROTATION_GRACE_SECS ==> !key_valid(rotated, t)
        }),
{
}

/// A revoked key never authenticates again.
pub proof fn lemma_revoked_never_valid(k: ApiKey, at: i64, t: i64)
    ensures
        !key_valid(ApiKey { status: KeyStatus::Revoked, expires_at: Some(at), ..k }, t),
{
}

pub fn is_key_valid(k: &ApiKey, now: i64) -> (r: bool)
    ensures
        r == key_valid(*k, now),
{
    k.status != KeyStatus::Revoked && match k.expires_at {
        None => true,
        Some(t) => t > now,
    }
}

/// The owner of the first valid key stored under `hash`.
pub open spec fn resolve_hash(keys: Seq<ApiKey>, hash: Seq<char>, now: i64) -> Option<i64>
    decreases keys.len(),
{
    if keys.len() == 0 {
        None
    } else {
        match resolve_hash(keys.drop_last(), hash, now) {
            Some(o) => Some(o),
            None => if keys.last().key_hash@ == hash && key_valid(keys.last(), now) {
                Some(keys.last().owner_id)
            } else {
                None
            },
        }
    }
}

proof fn lemma_resolve_prefix(keys: Seq<ApiKey>, hash: Seq<char>, now: i64, k: int)
    requires
        0 <= k <= keys.len(),
        resolve_hash(keys.subrange(0, k), hash, now) is Some,
    ensures
        resolve_hash(keys, hash, now) == resolve_hash(keys.subrange(0, k), hash, now),
    decreases keys.len(),
{
    if k < keys.len() {
        assert(keys.drop_last().subrange(0, k) =~= keys.subrange(0, k));
        lemma_resolve_prefix(keys.drop_last(), hash, now, k);
    } else {
        assert(keys.subrange(0, k) =~= keys);
    }
}

/// The stored keys of one namespace (tenant keys, or admin keys); the key of
/// id `k` is at index `k - 1`.
pub struct KeyStore {
    pub keys: Vec<ApiKey>,
}

impl KeyStore {
    pub open spec fn wf(&self) -> bool {
        &&& self.keys@.len() < i64::MAX - 1
        &&& forall|i: int| 0 <= i < self.keys@.len() ==> (#[trigger] self.keys@[i]).id == i + 1
    }

    pub open spec fn has(&self, id: i64) -> bool {
        1 <= id <= self.keys@.len()
    }

    pub open spec fn key(&self, id: i64) -> ApiKey {
        self.keys@[id - 1]
    }

    pub open spec fn resolves(&self, hash: Seq<char>, now: i64) -> Option<i64> {
        resolve_hash(self.keys@, hash, now)
    }

    pub fn new() -> (r: KeyStore)
        ensures
            r.wf(),
            r.keys@.len() == 0,
    {
        KeyStore { keys: Vec::new() }
    }

    /// Stores an active key with no expiry; returns its id.
    pub fn store_api_key(&mut self, owner_id: i64, key_hash: String) -> (id: i64)
        requires
            old(self).wf(),
            old(self).keys@.len() < i64::MAX - 2,
        ensures
            final(self).wf(),
            id == old(self).keys@.len() + 1,
            final(self).keys@ == old(self).keys@.push(
                ApiKey { id, owner_id, key_hash, status: KeyStatus::Active, expires_at: None },
            ),
    {
        let id = self.keys.len() as i64 + 1;
        self.keys.push(
            ApiKey { id, owner_id, key_hash, status: KeyStatus::Active, expires_at: None },
        );
        id
    }

    /// Rotation: an active key `old_id` starts expiring and keeps working for
    /// the grace period; a new active key is stored for `owner_id`. Both
    /// happen together. Returns the new key's id.
    pub fn rotate_api_key(&mut self, old_id: i64, owner_id: i64, new_hash: String, now: i64) -> (id:
        i64)
        requires
            old(self).wf(),
            old(self).keys@.len() < i64::MAX - 2,
            valid_time(now),
        ensures
            final(self).wf(),
            id == old(self).keys@.len() + 1,
            ({
                let expired = if old(self).has(old_id) && old(self).key(old_id).status
                    == KeyStatus::Active {
                    old(self).keys@.update(
                        old_id - 1,
                        ApiKey {
                            status: KeyStatus::Expiring,
                            expires_at: Some((now + ROTATION_GRACE_SECS) as i64),
                            ..old(self).key(old_id)
                        },
                    )
                } else {
                    old(self).keys@
                };
                final(self).keys@ == expired.push(
                    ApiKey {
                        id,
                        owner_id,
                        key_hash: new_hash,
                        status: KeyStatus::Active,
                        expires_at: None,
                    },
                )
            }),
    {
        if 1 <= old_id && old_id <= self.keys.len() as i64 {
            let i = (old_id - 1) as usize;
            if self.keys[i].status == KeyStatus::Active {
                let ghost before = self.keys@;
                self.keys[i].status = KeyStatus::Expiring;
                self.keys[i].expires_at = Some(now + ROTATION_GRACE_SECS);
                assert(self.keys@ =~= before.update(
                    i as int,
                    (ApiKey {
                        status: KeyStatus::Expiring,
                        expires_at: Some((now + ROTATION_GRACE_SECS) as i64),
                        ..before[i as int]
                    }),
                ));
            }
        }
        self.store_api_key(owner_id, new_hash)
    }

    /// Revokes a key as of `now`; it never authenticates again. Returns
    /// whether a key had the id.
    pub fn revoke_api_key(&mut self, id: i64, now: i64) -> (found: bool)
        requires
            old(self).wf(),
        ensures
            final(self).wf(),
            found == old(self).has(id),
            found ==> final(self).keys@ == old(self).keys@.update(
                id - 1,
                ApiKey { status: KeyStatus::Revoked, expires_at: Some(now), ..old(self).key(id) },
            ),
            !found ==> final(self).keys@ == old(self).keys@,
    {
        if 1 <= id && id <= self.keys.len() as i64 {
            let i = (id - 1) as usize;
            let ghost before = self.keys@;
            self.keys[i].status = KeyStatus::Revoked;
            self.keys[i].expires_at = Some(now);
            assert(self.keys@ =~= before.update(
                i as int,
                (ApiKey { status: KeyStatus::Revoked, expires_at: Some(now), ..before[i as int] }),
            ));
            true
        } else {
            false
        }
    }

    /// The owner of a valid key stored under `key_hash`, if any.
    pub fn verify_api_key(&self, key_hash: &str, now: i64) -> (r: Option<i64>)
        ensures
            r == self.resolves(key_hash@, now),
    {
        let mut i: usize = 0;
        while i < self.keys.len()
            invariant
                i <= self.keys@.len(),
                resolve_hash(self.keys@.subrange(0, i as int), key_hash@, now) == None::<i64>,
            decreases self.keys@.len() - i,
        {
            let k = &self.keys[i];
            assert(self.keys@.subrange(0, i + 1).drop_last() =~= self.keys@.subrange(0, i as int));
            if str_eq(k.key_hash.as_str(), key_hash) && is_key_valid(k, now) {
                proof {
                    lemma_resolve_prefix(self.keys@, key_hash@, now, i + 1);
                }
                return Some(k.owner_id);
            }
            i = i + 1;
        }
        assert(self.keys@.subrange(0, i as int) =~= self.keys@);
        None
    }
}

} // verus!
