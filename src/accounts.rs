//! Tenants and their accounts: the checks on a new account.
use vstd::prelude::*;
use crate::text::str_eq;

verus! {

/// A tenant, as named at creation.
pub struct Business {
    pub name: String,
}

#[derive(Clone, Copy, Debug, PartialEq, Eq, Structural)]
pub enum TenantStatus {
    Active,
    Disabled,
}

/// The status a stored text names.
pub open spec fn tenant_status_of(s: Seq<char>) -> Option<TenantStatus> {
    if s == seq!['a', 'c', 't', 'i', 'v', 'e'] {
        Some(TenantStatus::Active)
    } else if s == seq!['d', 'i', 's', 'a', 'b', 'l', 'e', 'd'] {
        Some(TenantStatus::Disabled)
    } else {
        None
    }
}

impl TenantStatus {
    /// Reads the stored text of a status.
    pub fn from_text(s: &str) -> (r: Option<TenantStatus>)
        ensures
            r == tenant_status_of(s@),
    {
        let active = "active";
        let disabled = "disabled";
        proof {
            reveal_strlit("active");
            reveal_strlit("disabled");
        }
        assert(active@ =~= seq!['a', 'c', 't', 'i', 'v', 'e']);
        assert(disabled@ =~= seq!['d', 'i', 's', 'a', 'b', 'l', 'e', 'd']);
        if str_eq(s, active) {
            Some(TenantStatus::Active)
        } else if str_eq(s, disabled) {
            Some(TenantStatus::Disabled)
        } else {
            None
        }
    }
}

/// A stored tenant; only active tenants authenticate.
#[derive(Clone, Debug)]
pub struct BusinessState {
    pub id: i64,
    pub name: String,
    pub status: TenantStatus,
    /// Unix seconds.
    pub created_at: i64,
}

/// Some row of `tenants` is the tenant `id`, active.
pub open spec fn tenant_active(tenants: Seq<BusinessState>, id: i64) -> bool {
    exists|i: int|
        0 <= i < tenants.len() && (#[trigger] tenants[i]).id == id && tenants[i].status
            == TenantStatus::Active
}

/// Whether the tenant `id` is active among the rows given.
pub fn is_tenant_active(tenants: &Vec<BusinessState>, id: i64) -> (r: bool)
    ensures
        r == tenant_active(tenants@, id),
{
    let mut i: usize = 0;
    while i < tenants.len()
        invariant
            i <= tenants@.len(),
            forall|j: int|
                0 <= j < i ==> !((#[trigger] tenants@[j]).id == id && tenants@[j].status
                    == TenantStatus::Active),
        decreases tenants@.len() - i,
    {
        if tenants[i].id == id && tenants[i].status == TenantStatus::Active {
            return true;
        }
        i = i + 1;
    }
    false
}

/// The fields of an account to open.
pub struct NewAccount {
    pub name: String,
    pub currency: String,
}

/// Why a new account was refused.
#[derive(Clone, Copy, Debug, PartialEq, Eq, Structural)]
pub enum AccountError {
    NameRequired,
    InvalidCurrency,
}

/// The reason text of each refusal.
pub open spec fn account_reason_text(e: AccountError) -> Seq<char> {
    match e {
        AccountError::NameRequired => seq!['A', 'c', 'c', 'o', 'u', 'n', 't', ' ', 'n', 'a', 'm', 'e', ' ', 'i', 's', ' ', 'r', 'e', 'q', 'u', 'i', 'r', 'e', 'd'],
        AccountError::InvalidCurrency => seq!['I', 'n', 'v', 'a', 'l', 'i', 'd', ' ', 'c', 'u', 'r', 'r', 'e', 'n', 'c', 'y', ' ', 'c', 'o', 'd', 'e'],
    }
}

impl AccountError {
    pub fn reason(&self) -> (r: &'static str)
        ensures
            r@ == account_reason_text(*self),
    {
        proof {
            reveal_strlit("Account name is required");
            reveal_strlit("Invalid currency code");
        }
        match self {
            AccountError::NameRequired => "Account name is required",
            AccountError::InvalidCurrency => "Invalid currency code",
        }
    }
}

/// The characters Unicode calls white space, which trimming removes.
pub open spec fn is_white_space(c: char) -> bool {
    ('\u{9}' <= c && c <= '\u{d}') || c == ' ' || c == '\u{85}' || c == '\u{a0}' || c
        == '\u{1680}' || ('\u{2000}' <= c && c <= '\u{200a}') || c == '\u{2028}' || c
        == '\u{2029}' || c == '\u{202f}' || c == '\u{205f}' || c == '\u{3000}'
}

/// Whether a name is empty once trimmed.
pub open spec fn is_blank(s: Seq<char>) -> bool {
    forall|i: int| 0 <= i < s.len() ==> is_white_space(#[trigger] s[i])
}

pub open spec fn new_account_check(name: Seq<char>, currency: Seq<char>) -> Result<(), AccountError> {
    if is_blank(name) {
        Err(AccountError::NameRequired)
    } else if currency.len() != 3 {
        Err(AccountError::InvalidCurrency)
    } else {
        Ok(())
    }
}

fn white_space(c: char) -> (r: bool)
    ensures
        r == is_white_space(c),
{
    ('\u{9}' <= c && c <= '\u{d}') || c == ' ' || c == '\u{85}' || c == '\u{a0}' || c
        == '\u{1680}' || ('\u{2000}' <= c && c <= '\u{200a}') || c == '\u{2028}' || c
        == '\u{2029}' || c == '\u{202f}' || c == '\u{205f}' || c == '\u{3000}'
}

/// Whether a string holds only white space.
pub fn blank(s: &str) -> (r: bool)
    ensures
        r == is_blank(s@),
{
    let n = s.unicode_len();
    let mut i: usize = 0;
    while i < n
        invariant
            n == s@.len(),
            i <= n,
            forall|j: int| 0 <= j < i ==> is_white_space(#[trigger] s@[j]),
        decreases n - i,
    {
        if !white_space(s.get_char(i)) {
            return false;
        }
        i = i + 1;
    }
    true
}

/// Checks a new account: its name must hold more than white space, and its
/// currency code must be three characters.
pub fn validate_new_account(new_account: &NewAccount) -> (r: Result<(), AccountError>)
    ensures
        r == new_account_check(new_account.name@, new_account.currency@),
{
    if blank(new_account.name.as_str()) {
        Err(AccountError::NameRequired)
    } else if new_account.currency.as_str().unicode_len() != 3 {
        Err(AccountError::InvalidCurrency)
    } else {
        Ok(())
    }
}

} // verus!
