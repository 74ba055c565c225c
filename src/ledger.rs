//! The money-movement engine: validation of credits, debits and transfers,
//! the balances they write, and the order in which account rows are locked.
use vstd::prelude::*;
use crate::text::str_eq;

verus! {

/// The kind of a money movement.
#[derive(Clone, Copy, Debug, PartialEq, Eq, Structural)]
pub enum TransactionType {
    Credit,
    Debit,
    Transfer,
}

#[derive(Clone, Copy, Debug, PartialEq, Eq, Structural)]
pub enum TransactionStatus {
    Pending,
    Succeeded,
    Failed,
}

#[derive(Clone, Copy, Debug, PartialEq, Eq, Structural)]
pub enum AccountStatus {
    Active,
    Frozen,
}

/// An account row as read under its row lock. Balances are in minor
/// currency units.
#[derive(Clone, Copy, Debug, PartialEq, Eq, Structural)]
pub struct LockedAccount {
    pub id: i64,
    pub balance: u64,
    pub status: AccountStatus,
}

/// The text under which a value is stored.
pub open spec fn transaction_type_text(k: TransactionType) -> Seq<char> {
    if k == TransactionType::Credit {
        seq!['c', 'r', 'e', 'd', 'i', 't']
    } else if k == TransactionType::Debit {
        seq!['d', 'e', 'b', 'i', 't']
    } else {
        seq!['t', 'r', 'a', 'n', 's', 'f', 'e', 'r']
    }
}

impl TransactionType {
    /// The text under which the value is stored.
    pub fn as_text(&self) -> (r: &'static str)
        ensures
            r@ == transaction_type_text(*self),
    {
        proof {
            reveal_strlit("credit");
            reveal_strlit("debit");
            reveal_strlit("transfer");
        }
        match self {
            TransactionType::Credit => "credit",
            TransactionType::Debit => "debit",
            TransactionType::Transfer => "transfer",
        }
    }
}

/// The text under which a value is stored.
pub open spec fn transaction_status_text(k: TransactionStatus) -> Seq<char> {
    if k == TransactionStatus::Pending {
        seq!['p', 'e', 'n', 'd', 'i', 'n', 'g']
    } else if k == TransactionStatus::Succeeded {
        seq!['s', 'u', 'c', 'c', 'e', 'e', 'd', 'e', 'd']
    } else {
        seq!['f', 'a', 'i', 'l', 'e', 'd']
    }
}

impl TransactionStatus {
    /// The text under which the value is stored.
    pub fn as_text(&self) -> (r: &'static str)
        ensures
            r@ == transaction_status_text(*self),
    {
        proof {
            reveal_strlit("pending");
            reveal_strlit("succeeded");
            reveal_strlit("failed");
        }
        match self {
            TransactionStatus::Pending => "pending",
            TransactionStatus::Succeeded => "succeeded",
            TransactionStatus::Failed => "failed",
        }
    }
}

/// The status a stored text names.
pub open spec fn account_status_of(s: Seq<char>) -> Option<AccountStatus> {
    if s == seq!['a', 'c', 't', 'i', 'v', 'e'] {
        Some(AccountStatus::Active)
    } else if s == seq!['f', 'r', 'o', 'z', 'e', 'n'] {
        Some(AccountStatus::Frozen)
    } else {
        None
    }
}

impl AccountStatus {
    /// Reads the stored text of a status.
    pub fn from_text(s: &str) -> (r: Option<AccountStatus>)
        ensures
            r == account_status_of(s@),
    {
        let t0 = "active";
        let t1 = "frozen";
        proof {
            reveal_strlit("active");
            reveal_strlit("frozen");
        }
        assert(t0@ =~= seq!['a', 'c', 't', 'i', 'v', 'e']);
        assert(t1@ =~= seq!['f', 'r', 'o', 'z', 'e', 'n']);
        if str_eq(s, t0) {
            Some(AccountStatus::Active)
        } else if str_eq(s, t1) {
            Some(AccountStatus::Frozen)
        } else {
            None
        }
    }
}

/// Why a money movement was refused.
#[derive(Clone, Copy, Debug, PartialEq, Eq, Structural)]
pub enum LedgerError {
    /// The amount is zero.
    InvalidAmount,
    /// A transfer names the same account on both ends.
    SameAccount,
    /// The destination of a credit is frozen.
    AccountFrozen,
    /// The source lacks the funds, or an account is frozen.
    InsufficientOrFrozen,
    /// The new balance would not fit.
    BalanceOverflow,
    /// The tenant has no active webhook endpoint.
    NoWebhookEndpoint,
    /// No account of the tenant has the given id.
    AccountNotFound,
}

/// The stable reason text of each refusal.
pub open spec fn ledger_reason_text(e: LedgerError) -> Seq<char> {
    match e {
        LedgerError::InvalidAmount => seq!['A', 'm', 'o', 'u', 'n', 't', ' ', 'm', 'u', 's', 't', ' ', 'b', 'e', ' ', 'p', 'o', 's', 'i', 't', 'i', 'v', 'e'],
        LedgerError::SameAccount => seq!['S', 'o', 'u', 'r', 'c', 'e', ' ', 'a', 'n', 'd', ' ', 'd', 'e', 's', 't', 'i', 'n', 'a', 't', 'i', 'o', 'n', ' ', 'a', 'c', 'c', 'o', 'u', 'n', 't', 's', ' ', 'm', 'u', 's', 't', ' ', 'd', 'i', 'f', 'f', 'e', 'r'],
        LedgerError::AccountFrozen => seq!['A', 'c', 'c', 'o', 'u', 'n', 't', ' ', 'i', 's', ' ', 'f', 'r', 'o', 'z', 'e', 'n'],
        LedgerError::InsufficientOrFrozen => seq!['I', 'n', 's', 'u', 'f', 'f', 'i', 'c', 'i', 'e', 'n', 't', ' ', 'b', 'a', 'l', 'a', 'n', 'c', 'e', ' ', 'o', 'r', ' ', 'f', 'r', 'o', 'z', 'e', 'n', ' ', 'a', 'c', 'c', 'o', 'u', 'n', 't'],
        LedgerError::BalanceOverflow => seq!['B', 'a', 'l', 'a', 'n', 'c', 'e', ' ', 'l', 'i', 'm', 'i', 't', ' ', 'e', 'x', 'c', 'e', 'e', 'd', 'e', 'd'],
        LedgerError::NoWebhookEndpoint => seq!['R', 'e', 'g', 'i', 's', 't', 'e', 'r', ' ', 'a', ' ', 'W', 'e', 'b', 'h', 'o', 'o', 'k', ' ', 'F', 'i', 'r', 's', 't'],
        LedgerError::AccountNotFound => seq!['A', 'c', 'c', 'o', 'u', 'n', 't', ' ', 'n', 'o', 't', ' ', 'f', 'o', 'u', 'n', 'd'],
    }
}

impl LedgerError {
    /// The stable reason shown to the caller.
    pub fn reason(&self) -> (r: &'static str)
        ensures
            r@ == ledger_reason_text(*self),
    {
        proof {
            reveal_strlit("Amount must be positive");
            reveal_strlit("Source and destination accounts must differ");
            reveal_strlit("Account is frozen");
            reveal_strlit("Insufficient balance or frozen account");
            reveal_strlit("Balance limit exceeded");
            reveal_strlit("Register a Webhook First");
            reveal_strlit("Account not found");
        }
        match self {
            LedgerError::InvalidAmount => "Amount must be positive",
            LedgerError::SameAccount => "Source and destination accounts must differ",
            LedgerError::AccountFrozen => "Account is frozen",
            LedgerError::InsufficientOrFrozen => "Insufficient balance or frozen account",
            LedgerError::BalanceOverflow => "Balance limit exceeded",
            LedgerError::NoWebhookEndpoint => "Register a Webhook First",
            LedgerError::AccountNotFound => "Account not found",
        }
    }

    /// The HTTP status the error surfaces as.
    pub fn http_status(&self) -> (r: u16)
        ensures
            r == match *self {
                LedgerError::NoWebhookEndpoint => 404u16,
                LedgerError::AccountNotFound => 404u16,
                _ => 400u16,
            },
    {
        match self {
            LedgerError::NoWebhookEndpoint => 404,
            LedgerError::AccountNotFound => 404,
            _ => 400,
        }
    }
}

pub open spec fn fits(n: int) -> bool {
    0 <= n <= u64::MAX
}

/// The new balance of the destination of a credit, or why it is refused.
pub open spec fn credit_result(dest: LockedAccount, amount: u64, endpoint: Option<i64>) -> Result<
    u64,
    LedgerError,
> {
    if amount == 0 {
        Err(LedgerError::InvalidAmount)
    } else if dest.status != AccountStatus::Active {
        Err(LedgerError::AccountFrozen)
    } else if !fits(dest.balance + amount) {
        Err(LedgerError::BalanceOverflow)
    } else if endpoint.is_none() {
        Err(LedgerError::NoWebhookEndpoint)
    } else {
        Ok((dest.balance + amount) as u64)
    }
}

/// The new balance of the source of a debit, or why it is refused.
pub open spec fn debit_result(src: LockedAccount, amount: u64, endpoint: Option<i64>) -> Result<
    u64,
    LedgerError,
> {
    if amount == 0 {
        Err(LedgerError::InvalidAmount)
    } else if src.status != AccountStatus::Active || src.balance < amount {
        Err(LedgerError::InsufficientOrFrozen)
    } else if endpoint.is_none() {
        Err(LedgerError::NoWebhookEndpoint)
    } else {
        Ok((src.balance - amount) as u64)
    }
}

/// The new balances of source and destination of a transfer, or why it is refused.
pub open spec fn transfer_result(
    src: LockedAccount,
    dest: LockedAccount,
    amount: u64,
    endpoint: Option<i64>,
) -> Result<(u64, u64), LedgerError> {
    if amount == 0 {
        Err(LedgerError::InvalidAmount)
    } else if src.id == dest.id {
        Err(LedgerError::SameAccount)
    } else if src.status != AccountStatus::Active || dest.status != AccountStatus::Active
        || src.balance < amount {
        Err(LedgerError::InsufficientOrFrozen)
    } else if !fits(dest.balance + amount) {
        Err(LedgerError::BalanceOverflow)
    } else if endpoint.is_none() {
        Err(LedgerError::NoWebhookEndpoint)
    } else {
        Ok(((src.balance - amount) as u64, (dest.balance + amount) as u64))
    }
}

/// The two account ids of a transfer in the order their rows are locked:
/// ascending.
pub open spec fn lock_order_spec(a: i64, b: i64) -> (i64, i64) {
    if a <= b {
        (a, b)
    } else {
        (b, a)
    }
}

/// Validates a credit against its locked destination row and the tenant's
/// active endpoint, and gives the destination's new balance.
pub fn plan_credit(dest: LockedAccount, amount: u64, endpoint: Option<i64>) -> (r: Result<
    u64,
    LedgerError,
>)
    ensures
        r == credit_result(dest, amount, endpoint),
{
    if amount == 0 {
        Err(LedgerError::InvalidAmount)
    } else if dest.status != AccountStatus::Active {
        Err(LedgerError::AccountFrozen)
    } else if dest.balance > u64::MAX - amount {
        Err(LedgerError::BalanceOverflow)
    } else if endpoint.is_none() {
        Err(LedgerError::NoWebhookEndpoint)
    } else {
        Ok(dest.balance + amount)
    }
}

/// Validates a debit against its locked source row and the tenant's active
/// endpoint, and gives the source's new balance.
pub fn plan_debit(src: LockedAccount, amount: u64, endpoint: Option<i64>) -> (r: Result<
    u64,
    LedgerError,
>)
    ensures
        r == debit_result(src, amount, endpoint),
{
    if amount == 0 {
        Err(LedgerError::InvalidAmount)
    } else if src.status != AccountStatus::Active || src.balance < amount {
        Err(LedgerError::InsufficientOrFrozen)
    } else if endpoint.is_none() {
        Err(LedgerError::NoWebhookEndpoint)
    } else {
        Ok(src.balance - amount)
    }
}

/// Validates a transfer against both locked rows and the tenant's active
/// endpoint, and gives the new balances of source and destination.
pub fn plan_transfer(
    src: LockedAccount,
    dest: LockedAccount,
    amount: u64,
    endpoint: Option<i64>,
) -> (r: Result<(u64, u64), LedgerError>)
    ensures
        r == transfer_result(src, dest, amount, endpoint),
{
    if amount == 0 {
        Err(LedgerError::InvalidAmount)
    } else if src.id == dest.id {
        Err(LedgerError::SameAccount)
    } else if src.status != AccountStatus::Active || dest.status != AccountStatus::Active
        || src.balance < amount {
        Err(LedgerError::InsufficientOrFrozen)
    } else if dest.balance > u64::MAX - amount {
        Err(LedgerError::BalanceOverflow)
    } else if endpoint.is_none() {
        Err(LedgerError::NoWebhookEndpoint)
    } else {
        Ok((src.balance - amount, dest.balance + amount))
    }
}

/// The order in which a transfer locks its two account rows.
pub fn lock_order(from_account_id: i64, to_account_id: i64) -> (r: (i64, i64))
    ensures
        r == lock_order_spec(from_account_id, to_account_id),
        r.0 <= r.1,
{
    if from_account_id <= to_account_id {
        (from_account_id, to_account_id)
    } else {
        (to_account_id, from_account_id)
    }
}

/// The account ids a movement locks, in the order it locks them.
pub open spec fn lock_sequence_spec(from: Option<i64>, to: Option<i64>) -> Seq<i64> {
    match (from, to) {
        (Some(f), Some(t)) => seq![lock_order_spec(f, t).0, lock_order_spec(f, t).1],
        (Some(f), None) => seq![f],
        (None, Some(t)) => seq![t],
        (None, None) => seq![],
    }
}

/// The balance writes of a movement, as (account id, new balance), or why it
/// is refused. A credit needs its destination row, a debit its source row, a
/// transfer both; a missing row means the account was not found.
pub open spec fn movement_writes(
    kind: TransactionType,
    src: Option<LockedAccount>,
    dest: Option<LockedAccount>,
    amount: u64,
    endpoint: Option<i64>,
) -> Result<Seq<(i64, u64)>, LedgerError> {
    match kind {
        TransactionType::Credit => match dest {
            None => Err(LedgerError::AccountNotFound),
            Some(d) => match credit_result(d, amount, endpoint) {
                Ok(b) => Ok(seq![(d.id, b)]),
                Err(e) => Err(e),
            },
        },
        TransactionType::Debit => match src {
            None => Err(LedgerError::AccountNotFound),
            Some(a) => match debit_result(a, amount, endpoint) {
                Ok(b) => Ok(seq![(a.id, b)]),
                Err(e) => Err(e),
            },
        },
        TransactionType::Transfer => match (src, dest) {
            (Some(a), Some(d)) => match transfer_result(a, d, amount, endpoint) {
                Ok((x, y)) => Ok(seq![(a.id, x), (d.id, y)]),
                Err(e) => Err(e),
            },
            _ => Err(LedgerError::AccountNotFound),
        },
    }
}

/// The rows a movement locks, ascending by id for a transfer.
pub fn lock_sequence(from: Option<i64>, to: Option<i64>) -> (r: Vec<i64>)
    ensures
        r@ == lock_sequence_spec(from, to),
{
    match (from, to) {
        (Some(f), Some(t)) => {
            let (a, b) = lock_order(f, t);
            let r = vec![a, b];
            assert(r@ =~= seq![a, b]);
            r
        },
        (Some(f), None) => {
            let r = vec![f];
            assert(r@ =~= seq![f]);
            r
        },
        (None, Some(t)) => {
            let r = vec![t];
            assert(r@ =~= seq![t]);
            r
        },
        (None, None) => {
            let r: Vec<i64> = Vec::new();
            assert(r@ =~= Seq::<i64>::empty());
            r
        },
    }
}

/// Validates a movement of any kind against its locked rows and the tenant's
/// active endpoint, and gives the balances to write.
pub fn plan_movement(
    kind: TransactionType,
    src: Option<LockedAccount>,
    dest: Option<LockedAccount>,
    amount: u64,
    endpoint: Option<i64>,
) -> (r: Result<Vec<(i64, u64)>, LedgerError>)
    ensures
        match r {
            Ok(w) => movement_writes(kind, src, dest, amount, endpoint) == Ok::<
                Seq<(i64, u64)>,
                LedgerError,
            >(w@),
            Err(e) => movement_writes(kind, src, dest, amount, endpoint) == Err::<
                Seq<(i64, u64)>,
                LedgerError,
            >(e),
        },
{
    match kind {
        TransactionType::Credit => match dest {
            None => Err(LedgerError::AccountNotFound),
            Some(d) => match plan_credit(d, amount, endpoint) {
                Ok(b) => {
                    let w = vec![(d.id, b)];
                    assert(w@ =~= seq![(d.id, b)]);
                    Ok(w)
                },
                Err(e) => Err(e),
            },
        },
        TransactionType::Debit => match src {
            None => Err(LedgerError::AccountNotFound),
            Some(a) => match plan_debit(a, amount, endpoint) {
                Ok(b) => {
                    let w = vec![(a.id, b)];
                    assert(w@ =~= seq![(a.id, b)]);
                    Ok(w)
                },
                Err(e) => Err(e),
            },
        },
        TransactionType::Transfer => match (src, dest) {
            (Some(a), Some(d)) => match plan_transfer(a, d, amount, endpoint) {
                Ok((x, y)) => {
                    let w = vec![(a.id, x), (d.id, y)];
                    assert(w@ =~= seq![(a.id, x), (d.id, y)]);
                    Ok(w)
                },
                Err(e) => Err(e),
            },
            _ => Err(LedgerError::AccountNotFound),
        },
    }
}

/// Two transfers between the same pair of accounts, in opposite directions,
/// lock the rows in the same order, so neither waits on a row the other
/// holds while it waits itself.
pub proof fn lemma_cross_transfers_lock_alike(a: i64, b: i64)
    ensures
        lock_order_spec(a, b) == lock_order_spec(b, a),
{
}

/// A transfer of `x` from A to B followed by one of `x` from B to A both
/// succeed, and leave both balances where they started.
pub proof fn lemma_cross_transfers_cancel(
    a: LockedAccount,
    b: LockedAccount,
    x: u64,
    endpoint: Option<i64>,
)
    requires
        transfer_result(a, b, x, endpoint) is Ok,
    ensures
        ({
            let (a1, b1) = transfer_result(a, b, x, endpoint)->Ok_0;
            transfer_result(
                LockedAccount { balance: b1, ..b },
                LockedAccount { balance: a1, ..a },
                x,
                endpoint,
            ) == Ok::<(u64, u64), LedgerError>((b.balance, a.balance))
        }),
{
}

} // verus!
