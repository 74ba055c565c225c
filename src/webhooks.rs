//! Webhook endpoints: the URLs events are delivered to.
use vstd::prelude::*;
use crate::text::str_eq;

verus! {

#[derive(Clone, Copy, Debug, PartialEq, Eq, Structural)]
pub enum EndpointStatus {
    Active,
    Disabled,
}

/// A registered endpoint of a tenant.
#[derive(Clone, Debug)]
pub struct WebhookRow {
    pub id: i64,
    pub business_id: i64,
    pub url: String,
    /// Reserved for signing payloads; not used in delivery.
    pub secret: String,
    pub status: EndpointStatus,
}

pub struct CreateWebhookRequest {
    pub url: String,
}

/// Fields to change on an endpoint; `None` keeps the current value. The status
/// is the text `active` or `disabled`.
pub struct UpdateWebhookRequest {
    pub url: Option<String>,
    pub status: Option<String>,
}

impl EndpointStatus {
    /// Reads the stored text of a status.
    pub fn from_text(s: &str) -> (r: Option<EndpointStatus>)
        ensures
            r == endpoint_status_of(s@),
    {
        let active = "active";
        let disabled = "disabled";
        proof {
            reveal_strlit("active");
            reveal_strlit("disabled");
        }
        assert(active@ =~= seq!['a', 'c', 't', 'i', 'v', 'e']);
        assert(disabled@ =~= seq!['d', 'i', 's', 'a', 'b', 'l', 'e', 'd']);
        if str_eq(s, active) {
            Some(EndpointStatus::Active)
        } else if str_eq(s, disabled) {
            Some(EndpointStatus::Disabled)
        } else {
            None
        }
    }
}

pub open spec fn endpoint_status_of(s: Seq<char>) -> Option<EndpointStatus> {
    if s == seq!['a', 'c', 't', 'i', 'v', 'e'] {
        Some(EndpointStatus::Active)
    } else if s == seq!['d', 'i', 's', 'a', 'b', 'l', 'e', 'd'] {
        Some(EndpointStatus::Disabled)
    } else {
        None
    }
}

/// The first active endpoint of a tenant, by id.
pub open spec fn first_active_endpoint(ws: Seq<WebhookRow>, tenant: i64) -> Option<i64>
    decreases ws.len(),
{
    if ws.len() == 0 {
        None
    } else {
        match first_active_endpoint(ws.drop_last(), tenant) {
            Some(id) => Some(id),
            None => if ws.last().business_id == tenant && ws.last().status == EndpointStatus::Active {
                Some(ws.last().id)
            } else {
                None
            },
        }
    }
}

pub fn find_active_endpoint(ws: &Vec<WebhookRow>, tenant: i64) -> (r: Option<i64>)
    ensures
        r == first_active_endpoint(ws@, tenant),
{
    let mut i: usize = 0;
    while i < ws.len()
        invariant
            i <= ws@.len(),
            first_active_endpoint(ws@.subrange(0, i as int), tenant) == None::<i64>,
        decreases ws@.len() - i,
    {
        assert(ws@.subrange(0, i + 1).drop_last() =~= ws@.subrange(0, i as int));
        if ws[i].business_id == tenant && ws[i].status == EndpointStatus::Active {
            proof {
                lemma_first_active_prefix(ws@, tenant, i + 1);
            }
            return Some(ws[i].id);
        }
        i = i + 1;
    }
    assert(ws@.subrange(0, i as int) =~= ws@);
    None
}

/// Once a prefix holds an active endpoint of the tenant, the whole list
/// answers the same.
proof fn lemma_first_active_prefix(ws: Seq<WebhookRow>, tenant: i64, k: int)
    requires
        0 <= k <= ws.len(),
        first_active_endpoint(ws.subrange(0, k), tenant) is Some,
    ensures
        first_active_endpoint(ws, tenant) == first_active_endpoint(ws.subrange(0, k), tenant),
    decreases ws.len(),
{
    if k < ws.len() {
        assert(ws.drop_last().subrange(0, k) =~= ws.subrange(0, k));
        lemma_first_active_prefix(ws.drop_last(), tenant, k);
    } else {
        assert(ws.subrange(0, k) =~= ws);
    }
}

} // verus!
