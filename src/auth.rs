//! The authentication gate: from an `Authorization` header to the owner of a
//! valid API key.
use vstd::prelude::*;
use crate::keys::{hash_api_key, key_hash_text, KeyStore};
use crate::text::has_prefix;
use crate::accounts::{is_tenant_active, tenant_active, BusinessState};

verus! {

pub open spec fn bearer_prefix() -> Seq<char> {
    seq!['B', 'e', 'a', 'r', 'e', 'r', ' ']
}

/// The token of a `Bearer <token>` header value.
pub open spec fn bearer_token(h: Seq<char>) -> Option<Seq<char>> {
    if h.len() >= 7 && h.subrange(0, 7) == bearer_prefix() {
        Some(h.subrange(7, h.len() as int))
    } else {
        None
    }
}

/// The token of an `Authorization` header value, if it has the `Bearer ` form.
pub fn extract_bearer_token(header: Option<&str>) -> (r: Option<String>)
    ensures
        match header {
            None => r is None,
            Some(h) => match bearer_token(h@) {
                None => r is None,
                Some(t) => r is Some && r->Some_0@ == t,
            },
        },
{
    let h = match header {
        Some(h) => h,
        None => return None,
    };
    let prefix = "Bearer ";
    proof {
        reveal_strlit("Bearer ");
    }
    assert(prefix@ =~= bearer_prefix());
    if !has_prefix(h, prefix) {
        return None;
    }
    let len = h.unicode_len();
    let token = h.substring_char(7, len);
    Some(String::from_str(token))
}

/// The owner of the valid key that a header's bearer token hashes to; `None`
/// for a missing or malformed header and for a token that does not
/// authenticate, alike.
pub fn authenticate(store: &KeyStore, header: Option<&str>, secret: &str, now: i64) -> (r:
    Option<i64>)
    ensures
        r == match header {
            None => None,
            Some(h) => match bearer_token(h@) {
                None => None,
                Some(t) => store.resolves(key_hash_text(secret@, t), now),
            },
        },
{
    let token = match extract_bearer_token(header) {
        Some(t) => t,
        None => return None,
    };
    let key_hash = hash_api_key(secret, token.as_str());
    store.verify_api_key(key_hash.as_str(), now)
}

/// Tenant authentication: the owner of the valid key that the bearer token
/// hashes to, provided that tenant is active among `tenants`; `None` in every
/// other case alike.
pub fn authenticate_tenant(
    store: &KeyStore,
    tenants: &Vec<BusinessState>,
    header: Option<&str>,
    secret: &str,
    now: i64,
) -> (r: Option<i64>)
    ensures
        r == match header {
            None => None,
            Some(h) => match bearer_token(h@) {
                None => None,
                Some(t) => match store.resolves(key_hash_text(secret@, t), now) {
                    Some(o) => if tenant_active(tenants@, o) {
                        Some(o)
                    } else {
                        None
                    },
                    None => None,
                },
            },
        },
{
    match authenticate(store, header, secret, now) {
        Some(owner) => {
            if is_tenant_active(tenants, owner) {
                Some(owner)
            } else {
                None
            }
        },
        None => None,
    }
}

} // verus!
