//! Issuance: accepting an order, and the settlement that mints tokens only
//! against a matching confirmed fiat deposit and an allowed gate decision.

use crate::address::{address_text_bytes, normalize_address, normalized_address};

use crate::domain::{IssuanceOrder, IssuanceStatus};
use crate::errors::{prefixed, IssuanceError};
use crate::text::{
    decimal_string, decimal_text, parse_u64, text_eq, trim, trimmed, u64_text_value,
};
use vstd::prelude::*;
use vstd::string::*;

verus! {

/// Raw token units (six decimals) per USD cent.
pub const TOKEN_UNITS_PER_USD_CENT: u64 = 10_000;

/// A request to issue tokens against a fiat deposit.
#[derive(Debug, Clone)]
pub struct CreateIssuance {
    pub operation_id: String,
    pub recipient_address: String,
    pub amount_usd_minor: String,
}

/// A bank transaction as the bank confirmed it.
#[derive(Debug, Clone)]
pub struct ConfirmedBankTransaction {
    pub operation_type: String,
    pub amount_minor: String,
    pub reference: String,
}

/// The outcome of a mint on chain; no hash when the chain had already
/// processed the operation.
#[derive(Debug, Clone)]
pub struct MintResult {
    pub transaction_hash: Option<String>,
}

/// Persistence of issuance orders.
pub trait IssuanceStore {
    fn create(&self, order: &IssuanceOrder) -> Result<IssuanceOrder, IssuanceError>;

    fn get(&self, operation_id: &str) -> Result<Option<IssuanceOrder>, IssuanceError>;

    fn claim_for_mint(&self, operation_id: &str) -> Result<IssuanceOrder, IssuanceError>;

    fn complete(&self, operation_id: &str, transaction_hash: Option<&str>) -> Result<
        IssuanceOrder,
        IssuanceError,
    >;

    fn fail(&self, operation_id: &str, message: &str) -> Result<(), IssuanceError>;
}

/// An operation identifier after trimming: 1 to 128 characters.
pub open spec fn valid_operation_id(id: Seq<char>) -> bool {
    id.len() > 0 && id.len() <= 128
}

/// `Invalid` carrying exactly `text`.
pub open spec fn is_invalid_issuance(e: IssuanceError, text: Seq<char>) -> bool {
    e matches IssuanceError::Invalid(m) && m@ == text
}

/// The message of the `Invalid` error that rejects an issuance request,
/// `None` for a valid request.
pub open spec fn issuance_request_error(command: CreateIssuance) -> Option<Seq<char>> {
    let amount = u64_text_value(command.amount_usd_minor@);
    if !valid_operation_id(trimmed(command.operation_id@)) {
        Some("operationId must contain 1-128 characters"@)
    } else if normalized_address(command.recipient_address@) is None {
        Some("recipientAddress is not a valid Ethereum address"@)
    } else if amount is None || amount->0 == 0 {
        Some("amountUsdMinor must be a positive integer string"@)
    } else if amount->0 * TOKEN_UNITS_PER_USD_CENT > u64::MAX {
        Some("amountUsdMinor is too large"@)
    } else {
        None
    }
}

/// What creating an issuance order from `command` at `now` gives.
pub open spec fn new_issuance_result(
    command: CreateIssuance,
    now: u64,
    r: Result<IssuanceOrder, IssuanceError>,
) -> bool {
    let id = trimmed(command.operation_id@);
    match issuance_request_error(command) {
        Some(m) => r matches Err(e) && is_invalid_issuance(e, m),
        None => {
            let amount = u64_text_value(command.amount_usd_minor@)->0;
            r matches Ok(o) && {
                &&& o.operation_id@ == id
                &&& Some(o.recipient_address@) == normalized_address(command.recipient_address@)
                &&& address_text_bytes(o.recipient_address@) is Some
                &&& address_text_bytes(o.recipient_address@) == address_text_bytes(
                    command.recipient_address@,
                )
                &&& o.amount_usd_minor@ == decimal_text(amount as nat)
                &&& o.token_amount_raw@ == decimal_text((amount * TOKEN_UNITS_PER_USD_CENT) as nat)
                &&& o.bank_idempotency_key@ == "issuance-"@ + id
                &&& o.status == IssuanceStatus::AwaitingFiat
                &&& o.transaction_hash is None
                &&& o.last_error is None
                &&& o.created_at_unix_ms == now
                &&& o.updated_at_unix_ms == now
            }
        },
    }
}

fn invalid(text: &str) -> (e: IssuanceError)
    ensures
        is_invalid_issuance(e, text@),
{
    IssuanceError::Invalid(String::from_str(text))
}

/// Validates an issuance request and builds the order created at `now`.
pub fn new_issuance_order(command: &CreateIssuance, now: u64) -> (r: Result<
    IssuanceOrder,
    IssuanceError,
>)
    ensures
        new_issuance_result(*command, now, r),
{
    let operation_id = trim(command.operation_id.as_str());
    if operation_id.is_empty() || operation_id.unicode_len() > 128 {
        return Err(invalid("operationId must contain 1-128 characters"));
    }
    let recipient = match normalize_address(command.recipient_address.as_str()) {
        Some(a) => a,
        None => return Err(invalid("recipientAddress is not a valid Ethereum address")),
    };
    let amount = match parse_u64(command.amount_usd_minor.as_str()) {
        Some(v) => if v > 0 {
            v
        } else {
            return Err(invalid("amountUsdMinor must be a positive integer string"));
        },
        None => return Err(invalid("amountUsdMinor must be a positive integer string")),
    };
    let token_amount = match amount.checked_mul(TOKEN_UNITS_PER_USD_CENT) {
        Some(v) => v,
        None => return Err(invalid("amountUsdMinor is too large")),
    };
    Ok(
        IssuanceOrder {
            operation_id: String::from_str(operation_id),
            recipient_address: recipient,
            amount_usd_minor: decimal_string(amount as u128),
            token_amount_raw: decimal_string(token_amount as u128),
            bank_idempotency_key: prefixed("issuance-", operation_id),
            status: IssuanceStatus::AwaitingFiat,
            transaction_hash: None,
            last_error: None,
            created_at_unix_ms: now,
            updated_at_unix_ms: now,
        },
    )
}

/// What creating `order` answers when `existing` is already stored under its
/// operation: the stored order when the request repeats it (same recipient
/// and amount), an idempotency conflict otherwise.
pub open spec fn issuance_replay_result(
    existing: IssuanceOrder,
    order: IssuanceOrder,
    r: Result<IssuanceOrder, IssuanceError>,
) -> bool {
    if existing.recipient_address@ == order.recipient_address@ && existing.amount_usd_minor@
        == order.amount_usd_minor@ {
        r == Ok::<IssuanceOrder, IssuanceError>(existing)
    } else {
        r == Err::<IssuanceOrder, IssuanceError>(IssuanceError::IdempotencyConflict)
    }
}

/// Answers a create for `order` when `existing` is already stored under its
/// operation.
pub fn replay_issuance(existing: IssuanceOrder, order: &IssuanceOrder) -> (r: Result<
    IssuanceOrder,
    IssuanceError,
>)
    ensures
        issuance_replay_result(existing, *order, r),
{
    if text_eq(existing.recipient_address.as_str(), order.recipient_address.as_str()) && text_eq(
        existing.amount_usd_minor.as_str(),
        order.amount_usd_minor.as_str(),
    ) {
        Ok(existing)
    } else {
        Err(IssuanceError::IdempotencyConflict)
    }
}

/// Repeating an issuance request, at any later time, replays the order that
/// the first request created.
pub proof fn law_repeated_issuance_replays(
    command: CreateIssuance,
    first_at: u64,
    again_at: u64,
    existing: IssuanceOrder,
    order: IssuanceOrder,
)
    requires
        new_issuance_result(command, first_at, Ok(existing)),
        new_issuance_result(command, again_at, Ok(order)),
    ensures
        issuance_replay_result(existing, order, Ok(existing)),
{
}

/// A create that reuses a stored operation is answered with the stored
/// order only when it repeats the stored request: a different recipient or
/// a different amount is an idempotency conflict, and nothing else can come
/// back.
pub proof fn law_issuance_replay_needs_same_request(
    existing: IssuanceOrder,
    order: IssuanceOrder,
    r: Result<IssuanceOrder, IssuanceError>,
)
    requires
        issuance_replay_result(existing, order, r),
    ensures
        existing.recipient_address@ != order.recipient_address@ ==> r == Err::<
            IssuanceOrder,
            IssuanceError,
        >(IssuanceError::IdempotencyConflict),
        existing.amount_usd_minor@ != order.amount_usd_minor@ ==> r == Err::<
            IssuanceOrder,
            IssuanceError,
        >(IssuanceError::IdempotencyConflict),
        existing.recipient_address@ == order.recipient_address@ && existing.amount_usd_minor@
            == order.amount_usd_minor@ ==> r == Ok::<IssuanceOrder, IssuanceError>(existing),
{
}

/// Validates an issuance request and creates the order in the store: a
/// refused request reaches no store, and for a valid one the store's answer
/// for the order that `new_issuance_order` builds is returned (the store
/// answers with the order already stored when the request repeats it).
pub fn create_issuance<S: IssuanceStore + ?Sized>(store: &S, command: &CreateIssuance) -> (r: Result<
    IssuanceOrder,
    IssuanceError,
>)
    ensures
        issuance_request_error(*command) matches Some(m) ==> r matches Err(e)
            && is_invalid_issuance(e, m),
        issuance_request_error(*command) is None ==> exists|now: u64, o: IssuanceOrder|
            #![trigger new_issuance_result(*command, now, Ok(o)), call_ensures(S::create, (store, &o), r)]
            new_issuance_result(*command, now, Ok(o)) && call_ensures(S::create, (store, &o), r),
{
    let order = match new_issuance_order(command, crate::clock::current_unix_ms()) {
        Ok(o) => o,
        Err(e) => return Err(e),
    };
    store.create(&order)
}

} // verus!
