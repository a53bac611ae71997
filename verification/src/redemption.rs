//! Redemption: accepting an order, and the settlement that burns the tokens
//! once and pays the holder out at par.

use crate::address::{address_text_bytes, normalize_address, normalized_address, parse_address};
use crate::domain::{
    AssetState, IssuanceOrder, OperationDecision, OperationDecisionOutcome, RedemptionOrder,
    RedemptionStatus,
};
use crate::issuance::{new_issuance_result, CreateIssuance, TOKEN_UNITS_PER_USD_CENT};
use crate::errors::{
    asset_state_error_text, operation_gate_error_text, prefixed, redemption_error_text,
    AssetStateError, OperationGateError, RedemptionError,
};
use crate::text::{
    decimal_string, decimal_text, parse_u64, text_eq, trim, trimmed, u64_text_value,
};
use vstd::prelude::*;
use vstd::string::*;

verus! {

/// Raw token units (six decimals) per USD cent.
pub const TOKEN_UNITS_PER_CENT: u64 = 10_000;

/// Persistence of redemption orders.
pub trait RedemptionStore {
    fn create(&self, order: &RedemptionOrder) -> Result<RedemptionOrder, RedemptionError>;

    fn get(&self, id: &str) -> Result<Option<RedemptionOrder>, RedemptionError>;

    fn mark_burned(&self, id: &str, hash: Option<&str>) -> Result<RedemptionOrder, RedemptionError>;

    fn complete(&self, id: &str) -> Result<RedemptionOrder, RedemptionError>;

    fn fail(&self, id: &str, message: &str) -> Result<(), RedemptionError>;
}

/// `Invalid` carrying exactly `text`.
pub open spec fn is_invalid_redemption(e: RedemptionError, text: Seq<char>) -> bool {
    e matches RedemptionError::Invalid(m) && m@ == text
}

/// The message of the `Invalid` error that rejects a redemption request,
/// `None` for a valid request.
pub open spec fn redemption_request_error(id: Seq<char>, holder: Seq<char>, amount_raw: Seq<char>) -> Option<
    Seq<char>,
> {
    let t = trimmed(id);
    let amount = u64_text_value(amount_raw);
    if !(t.len() > 0 && t.len() <= 128) {
        Some("operationId must contain 1-128 characters"@)
    } else if normalized_address(holder) is None {
        Some("holderAddress is invalid"@)
    } else if amount is None || amount->0 == 0 {
        Some("tokenAmountRaw must be positive"@)
    } else if amount->0 % TOKEN_UNITS_PER_CENT != 0 {
        Some("tokenAmountRaw must represent whole USD cents"@)
    } else {
        None
    }
}

/// What creating a redemption order at `now` gives.
pub open spec fn new_redemption_result(
    id: Seq<char>,
    holder: Seq<char>,
    amount_raw: Seq<char>,
    now: u64,
    r: Result<RedemptionOrder, RedemptionError>,
) -> bool {
    match redemption_request_error(id, holder, amount_raw) {
        Some(m) => r matches Err(e) && is_invalid_redemption(e, m),
        None => {
            let amount = u64_text_value(amount_raw)->0;
            r matches Ok(o) && {
                &&& o.operation_id@ == trimmed(id)
                &&& Some(o.holder_address@) == normalized_address(holder)
                &&& address_text_bytes(o.holder_address@) is Some
                &&& address_text_bytes(o.holder_address@) == address_text_bytes(holder)
                &&& o.token_amount_raw@ == decimal_text(amount as nat)
                &&& o.payout_usd_minor@ == decimal_text((amount / TOKEN_UNITS_PER_CENT) as nat)
                &&& o.status == RedemptionStatus::Created
                &&& o.burn_transaction_hash is None
                &&& o.payout_reference@ == "redemption-"@ + trimmed(id)
                &&& o.last_error is None
                &&& o.created_at_unix_ms == now
                &&& o.updated_at_unix_ms == now
            }
        },
    }
}

fn invalid(text: &str) -> (e: RedemptionError)
    ensures
        is_invalid_redemption(e, text@),
{
    RedemptionError::Invalid(String::from_str(text))
}

/// Validates a redemption request and builds the order created at `now`.
pub fn new_redemption_order(id: &str, holder: &str, amount_raw: &str, now: u64) -> (r: Result<
    RedemptionOrder,
    RedemptionError,
>)
    ensures
        new_redemption_result(id@, holder@, amount_raw@, now, r),
{
    let id = trim(id);
    if id.is_empty() || id.unicode_len() > 128 {
        return Err(invalid("operationId must contain 1-128 characters"));
    }
    let address = match normalize_address(holder) {
        Some(a) => a,
        None => return Err(invalid("holderAddress is invalid")),
    };
    let amount = match parse_u64(amount_raw) {
        Some(v) => if v > 0 {
            v
        } else {
            return Err(invalid("tokenAmountRaw must be positive"));
        },
        None => return Err(invalid("tokenAmountRaw must be positive")),
    };
    if amount % TOKEN_UNITS_PER_CENT != 0 {
        return Err(invalid("tokenAmountRaw must represent whole USD cents"));
    }
    Ok(
        RedemptionOrder {
            operation_id: String::from_str(id),
            holder_address: address,
            token_amount_raw: decimal_string(amount as u128),
            payout_usd_minor: decimal_string((amount / TOKEN_UNITS_PER_CENT) as u128),
            status: RedemptionStatus::Created,
            burn_transaction_hash: None,
            payout_reference: prefixed("redemption-", id),
            last_error: None,
            created_at_unix_ms: now,
            updated_at_unix_ms: now,
        },
    )
}

/// What creating `order` answers when `existing` is already stored under its
/// operation: the stored order when the request repeats it (same holder and
/// amount), an idempotency conflict otherwise.
pub open spec fn redemption_replay_result(
    existing: RedemptionOrder,
    order: RedemptionOrder,
    r: Result<RedemptionOrder, RedemptionError>,
) -> bool {
    if existing.holder_address@ == order.holder_address@ && existing.token_amount_raw@
        == order.token_amount_raw@ {
        r == Ok::<RedemptionOrder, RedemptionError>(existing)
    } else {
        r == Err::<RedemptionOrder, RedemptionError>(RedemptionError::IdempotencyConflict)
    }
}

/// Answers a create for `order` when `existing` is already stored under its
/// operation.
pub fn replay_redemption(existing: RedemptionOrder, order: &RedemptionOrder) -> (r: Result<
    RedemptionOrder,
    RedemptionError,
>)
    ensures
        redemption_replay_result(existing, *order, r),
{
    if text_eq(existing.holder_address.as_str(), order.holder_address.as_str()) && text_eq(
        existing.token_amount_raw.as_str(),
        order.token_amount_raw.as_str(),
    ) {
        Ok(existing)
    } else {
        Err(RedemptionError::IdempotencyConflict)
    }
}

/// Repeating a redemption request, at any later time, replays the order
/// that the first request created.
pub proof fn law_repeated_redemption_replays(
    id: Seq<char>,
    holder: Seq<char>,
    amount_raw: Seq<char>,
    first_at: u64,
    again_at: u64,
    existing: RedemptionOrder,
    order: RedemptionOrder,
)
    requires
        new_redemption_result(id, holder, amount_raw, first_at, Ok(existing)),
        new_redemption_result(id, holder, amount_raw, again_at, Ok(order)),
    ensures
        redemption_replay_result(existing, order, Ok(existing)),
{
}

/// A create that reuses a stored operation is answered with the stored
/// order only when it repeats the stored request: a different holder or a
/// different token amount is an idempotency conflict, and nothing else can
/// come back.
pub proof fn law_redemption_replay_needs_same_request(
    existing: RedemptionOrder,
    order: RedemptionOrder,
    r: Result<RedemptionOrder, RedemptionError>,
)
    requires
        redemption_replay_result(existing, order, r),
    ensures
        existing.holder_address@ != order.holder_address@ ==> r == Err::<
            RedemptionOrder,
            RedemptionError,
        >(RedemptionError::IdempotencyConflict),
        existing.token_amount_raw@ != order.token_amount_raw@ ==> r == Err::<
            RedemptionOrder,
            RedemptionError,
        >(RedemptionError::IdempotencyConflict),
        existing.holder_address@ == order.holder_address@ && existing.token_amount_raw@
            == order.token_amount_raw@ ==> r == Ok::<RedemptionOrder, RedemptionError>(existing),
{
}

/// Validates a redemption request and creates the order in the store: a
/// refused request reaches no store, and for a valid one the store's answer
/// for the order that `new_redemption_order` builds is returned (the store
/// answers with the order already stored when the request repeats it).
pub fn create_redemption<S: RedemptionStore + ?Sized>(
    store: &S,
    id: &str,
    holder: &str,
    amount_raw: &str,
) -> (r: Result<RedemptionOrder, RedemptionError>)
    ensures
        redemption_request_error(id@, holder@, amount_raw@) matches Some(m) ==> r matches Err(e)
            && is_invalid_redemption(e, m),
        redemption_request_error(id@, holder@, amount_raw@) is None ==> exists|
            now: u64,
            o: RedemptionOrder,
        |
            #![trigger new_redemption_result(id@, holder@, amount_raw@, now, Ok(o)), call_ensures(S::create, (store, &o), r)]
            new_redemption_result(id@, holder@, amount_raw@, now, Ok(o)) && call_ensures(
                S::create,
                (store, &o),
                r,
            ),
{
    let order = match new_redemption_order(id, holder, amount_raw, crate::clock::current_unix_ms()) {
        Ok(o) => o,
        Err(e) => return Err(e),
    };
    store.create(&order)
}

/// A created order pays out exactly its tokens at par: one USD cent per
/// `TOKEN_UNITS_PER_CENT` raw units, with nothing left over.
pub proof fn law_redemption_pays_at_par(
    id: Seq<char>,
    holder: Seq<char>,
    amount_raw: Seq<char>,
    now: u64,
    order: RedemptionOrder,
)
    requires
        new_redemption_result(id, holder, amount_raw, now, Ok(order)),
    ensures
        u64_text_value(order.token_amount_raw@) is Some,
        u64_text_value(order.payout_usd_minor@) is Some,
        u64_text_value(order.payout_usd_minor@)->0 * TOKEN_UNITS_PER_CENT == u64_text_value(
            order.token_amount_raw@,
        )->0,
        address_text_bytes(order.holder_address@) is Some,
{
    let amount = u64_text_value(amount_raw)->0;
    crate::text::law_decimal_round_trip(amount as nat);
    crate::text::law_decimal_round_trip((amount / TOKEN_UNITS_PER_CENT) as nat);
}

/// Where a redemption settlement stands; each phase waits for the answer to
/// one action.
pub enum RedemptionSettlementPhase {
    LoadingOrder,
    LoadingAssetState { order: RedemptionOrder },
    Deciding { order: RedemptionOrder },
    Burning { order: RedemptionOrder },
    RecordingBurn,
    RecordingBurnFailure { error: RedemptionError },
    Paying { order: RedemptionOrder },
    Completing,
    RecordingPayoutFailure { error: RedemptionError },
    Finished,
}

/// What the runtime must do next for the settlement.
pub enum RedemptionSettlementAction {
    /// Read the order from the store.
    LoadOrder,
    /// Read the current asset state.
    LoadAssetState,
    /// Ask the operation gate to decide this redemption in this asset state.
    DecideRedemption { state: AssetState },
    /// Burn the tokens on chain from the 20-byte holder.
    Burn { holder: Vec<u8>, amount_raw: u64 },
    /// Record the burn with its transaction hash, if one was sent.
    MarkBurned { transaction_hash: Option<String> },
    /// Pay the holder out, in USD cents.
    PayUsd { amount_minor: u64 },
    /// Mark the order completed.
    Complete,
    /// Record a failure with this message.
    RecordFailure { message: String },
    /// Settlement is over; this is its result.
    Finish { result: Result<RedemptionOrder, RedemptionError> },
}

/// The answer to the last action.
pub enum RedemptionSettlementEvent {
    OrderLoaded(Result<Option<RedemptionOrder>, RedemptionError>),
    AssetStateLoaded(Result<AssetState, AssetStateError>),
    RedemptionDecided(Result<OperationDecision, OperationGateError>),
    TokensBurned(Result<Option<String>, RedemptionError>),
    BurnRecorded(Result<RedemptionOrder, RedemptionError>),
    PaidOut(Result<(), RedemptionError>),
    Completed(Result<RedemptionOrder, RedemptionError>),
    FailureRecorded(Result<(), RedemptionError>),
}

/// A settlement of one redemption operation.
pub struct RedemptionSettlement {
    pub operation_id: String,
    pub phase: RedemptionSettlementPhase,
}

/// The event answers the action that the phase waits for.
pub open spec fn redemption_answers(phase: RedemptionSettlementPhase, event: RedemptionSettlementEvent) -> bool {
    match phase {
        RedemptionSettlementPhase::LoadingOrder => event is OrderLoaded,
        RedemptionSettlementPhase::LoadingAssetState { .. } => event is AssetStateLoaded,
        RedemptionSettlementPhase::Deciding { .. } => event is RedemptionDecided,
        RedemptionSettlementPhase::Burning { .. } => event is TokensBurned,
        RedemptionSettlementPhase::RecordingBurn => event is BurnRecorded,
        RedemptionSettlementPhase::RecordingBurnFailure { .. } => event is FailureRecorded,
        RedemptionSettlementPhase::Paying { .. } => event is PaidOut,
        RedemptionSettlementPhase::Completing => event is Completed,
        RedemptionSettlementPhase::RecordingPayoutFailure { .. } => event is FailureRecorded,
        RedemptionSettlementPhase::Finished => false,
    }
}

/// The settlement is over with this result.
pub open spec fn redemption_finished_with(
    next: RedemptionSettlement,
    action: RedemptionSettlementAction,
    result: Result<RedemptionOrder, RedemptionError>,
) -> bool {
    next.phase is Finished && action == RedemptionSettlementAction::Finish { result }
}

/// The settlement is over with an error of this variant and payload.
pub open spec fn redemption_finished_with_error(
    next: RedemptionSettlement,
    action: RedemptionSettlementAction,
    expected: spec_fn(RedemptionError) -> bool,
) -> bool {
    &&& next.phase is Finished
    &&& action matches RedemptionSettlementAction::Finish { result }
    &&& result matches Err(e)
    &&& expected(e)
}

/// The next phase and action once the operation gate allowed the redemption of
/// `order`: burn unless the order is already burned, then pay out.
pub open spec fn after_allowed(
    order: RedemptionOrder,
    next: RedemptionSettlement,
    action: RedemptionSettlementAction,
) -> bool {
    if order.status != RedemptionStatus::Burned {
        match address_text_bytes(order.holder_address@) {
            None => redemption_finished_with_error(
                next,
                action,
                |e: RedemptionError| e matches RedemptionError::Storage(m) && m@ == "stored holder is invalid"@,
            ),
            Some(holder) => match u64_text_value(order.token_amount_raw@) {
                None => redemption_finished_with_error(
                    next,
                    action,
                    |e: RedemptionError| e matches RedemptionError::Storage(m) && m@ == "stored amount is invalid"@,
                ),
                Some(amount) => {
                    &&& next.phase == RedemptionSettlementPhase::Burning { order }
                    &&& action matches RedemptionSettlementAction::Burn { holder: h, amount_raw }
                    &&& h@ == holder
                    &&& amount_raw == amount
                },
            },
        }
    } else {
        pays_out(order, next, action)
    }
}

/// The next phase and action to pay `order` out.
pub open spec fn pays_out(
    order: RedemptionOrder,
    next: RedemptionSettlement,
    action: RedemptionSettlementAction,
) -> bool {
    match u64_text_value(order.payout_usd_minor@) {
        None => redemption_finished_with_error(
            next,
            action,
            |e: RedemptionError| e matches RedemptionError::Storage(m) && m@ == "stored payout is invalid"@,
        ),
        Some(payout) => next.phase == RedemptionSettlementPhase::Paying { order } && action
            == RedemptionSettlementAction::PayUsd { amount_minor: payout },
    }
}

/// One step of the settlement: the next phase and action for each answer.
pub open spec fn redemption_step(
    settlement: RedemptionSettlement,
    event: RedemptionSettlementEvent,
    next: RedemptionSettlement,
    action: RedemptionSettlementAction,
) -> bool {
    &&& next.operation_id == settlement.operation_id
    &&& match (settlement.phase, event) {
        (RedemptionSettlementPhase::LoadingOrder, RedemptionSettlementEvent::OrderLoaded(r)) => match r {
            Err(e) => redemption_finished_with(next, action, Err(e)),
            Ok(None) => redemption_finished_with(next, action, Err(RedemptionError::NotFound)),
            Ok(Some(order)) => if order.status == RedemptionStatus::Completed {
                redemption_finished_with(next, action, Ok(order))
            } else {
                next.phase == RedemptionSettlementPhase::LoadingAssetState { order }
                    && action is LoadAssetState
            },
        },
        (
            RedemptionSettlementPhase::LoadingAssetState { order },
            RedemptionSettlementEvent::AssetStateLoaded(r),
        ) => match r {
            Err(e) => redemption_finished_with_error(
                next,
                action,
                |x: RedemptionError| x matches RedemptionError::Gate(m) && m@ == asset_state_error_text(e),
            ),
            Ok(state) => next.phase == RedemptionSettlementPhase::Deciding { order } && action
                == RedemptionSettlementAction::DecideRedemption { state },
        },
        (
            RedemptionSettlementPhase::Deciding { order },
            RedemptionSettlementEvent::RedemptionDecided(r),
        ) => match r {
            Err(e) => redemption_finished_with_error(
                next,
                action,
                |x: RedemptionError| x matches RedemptionError::Gate(m) && m@ == operation_gate_error_text(e),
            ),
            Ok(decision) => if decision.outcome == OperationDecisionOutcome::Rejected {
                redemption_finished_with_error(
                    next,
                    action,
                    |x: RedemptionError| x matches RedemptionError::Gate(m) && m@ == decision.reason@,
                )
            } else {
                after_allowed(order, next, action)
            },
        },
        (RedemptionSettlementPhase::Burning { .. }, RedemptionSettlementEvent::TokensBurned(r)) => match r {
            Ok(hash) => next.phase is RecordingBurn && action
                == RedemptionSettlementAction::MarkBurned { transaction_hash: hash },
            Err(e) => {
                &&& next.phase == RedemptionSettlementPhase::RecordingBurnFailure { error: e }
                &&& action matches RedemptionSettlementAction::RecordFailure { message }
                &&& message@ == redemption_error_text(e)
            },
        },
        (RedemptionSettlementPhase::RecordingBurn, RedemptionSettlementEvent::BurnRecorded(r)) => match r {
            Err(e) => redemption_finished_with(next, action, Err(e)),
            Ok(order) => pays_out(order, next, action),
        },
        (
            RedemptionSettlementPhase::RecordingBurnFailure { error },
            RedemptionSettlementEvent::FailureRecorded(_),
        ) => redemption_finished_with(next, action, Err(error)),
        (RedemptionSettlementPhase::Paying { .. }, RedemptionSettlementEvent::PaidOut(r)) => match r {
            Ok(()) => next.phase is Completing && action is Complete,
            Err(e) => {
                &&& next.phase == RedemptionSettlementPhase::RecordingPayoutFailure { error: e }
                &&& action matches RedemptionSettlementAction::RecordFailure { message }
                &&& message@ == redemption_error_text(e)
            },
        },
        (RedemptionSettlementPhase::Completing, RedemptionSettlementEvent::Completed(r)) => redemption_finished_with(
            next,
            action,
            r,
        ),
        (
            RedemptionSettlementPhase::RecordingPayoutFailure { error },
            RedemptionSettlementEvent::FailureRecorded(_),
        ) => redemption_finished_with(next, action, Err(error)),
        _ => false,
    }
}

fn finished(operation_id: String, result: Result<RedemptionOrder, RedemptionError>) -> (r: (
    RedemptionSettlement,
    RedemptionSettlementAction,
))
    ensures
        r.0.operation_id == operation_id,
        r.0.phase is Finished,
        r.1 == (RedemptionSettlementAction::Finish { result }),
{
    (
        RedemptionSettlement { operation_id, phase: RedemptionSettlementPhase::Finished },
        RedemptionSettlementAction::Finish { result },
    )
}

fn storage(operation_id: String, text: &str) -> (r: (RedemptionSettlement, RedemptionSettlementAction))
    ensures
        r.0.operation_id == operation_id,
        r.0.phase is Finished,
        r.1 matches RedemptionSettlementAction::Finish { result } && result matches Err(
            RedemptionError::Storage(m),
        ) && m@ == text@,
{
    finished(operation_id, Err(RedemptionError::Storage(String::from_str(text))))
}

fn pay_out(operation_id: String, order: RedemptionOrder) -> (r: (RedemptionSettlement, RedemptionSettlementAction))
    ensures
        r.0.operation_id == operation_id,
        pays_out(order, r.0, r.1),
{
    match parse_u64(order.payout_usd_minor.as_str()) {
        None => storage(operation_id, "stored payout is invalid"),
        Some(payout) => (
            RedemptionSettlement { operation_id, phase: RedemptionSettlementPhase::Paying { order } },
            RedemptionSettlementAction::PayUsd { amount_minor: payout },
        ),
    }
}

impl RedemptionSettlement {
    /// The settlement waits for this event.
    pub open spec fn awaits(&self, event: RedemptionSettlementEvent) -> bool {
        redemption_answers(self.phase, event)
    }

    /// Whether the settlement waits for this event.
    pub fn is_awaiting(&self, event: &RedemptionSettlementEvent) -> (b: bool)
        ensures
            b == self.awaits(*event),
    {
        match (&self.phase, event) {
            (RedemptionSettlementPhase::LoadingOrder, RedemptionSettlementEvent::OrderLoaded(_)) => true,
            (
                RedemptionSettlementPhase::LoadingAssetState { .. },
                RedemptionSettlementEvent::AssetStateLoaded(_),
            ) => true,
            (
                RedemptionSettlementPhase::Deciding { .. },
                RedemptionSettlementEvent::RedemptionDecided(_),
            ) => true,
            (
                RedemptionSettlementPhase::Burning { .. },
                RedemptionSettlementEvent::TokensBurned(_),
            ) => true,
            (RedemptionSettlementPhase::RecordingBurn, RedemptionSettlementEvent::BurnRecorded(_)) => true,
            (
                RedemptionSettlementPhase::RecordingBurnFailure { .. },
                RedemptionSettlementEvent::FailureRecorded(_),
            ) => true,
            (RedemptionSettlementPhase::Paying { .. }, RedemptionSettlementEvent::PaidOut(_)) => true,
            (RedemptionSettlementPhase::Completing, RedemptionSettlementEvent::Completed(_)) => true,
            (
                RedemptionSettlementPhase::RecordingPayoutFailure { .. },
                RedemptionSettlementEvent::FailureRecorded(_),
            ) => true,
            _ => false,
        }
    }

    /// Starts settling `operation_id`: the first action reads the order.
    pub fn start(operation_id: &str) -> (r: (RedemptionSettlement, RedemptionSettlementAction))
        ensures
            r.0.operation_id@ == operation_id@,
            r.0.phase is LoadingOrder,
            r.1 is LoadOrder,
    {
        (
            RedemptionSettlement {
                operation_id: String::from_str(operation_id),
                phase: RedemptionSettlementPhase::LoadingOrder,
            },
            RedemptionSettlementAction::LoadOrder,
        )
    }

    /// Advances the settlement with the answer to its last action.
    pub fn step(self, event: RedemptionSettlementEvent) -> (r: (
        RedemptionSettlement,
        RedemptionSettlementAction,
    ))
        requires
            self.awaits(event),
        ensures
            redemption_step(self, event, r.0, r.1),
    {
        let operation_id = self.operation_id;
        match (self.phase, event) {
            (RedemptionSettlementPhase::LoadingOrder, RedemptionSettlementEvent::OrderLoaded(r)) => match r {
                Err(e) => finished(operation_id, Err(e)),
                Ok(None) => finished(operation_id, Err(RedemptionError::NotFound)),
                Ok(Some(order)) => if order.status == RedemptionStatus::Completed {
                    finished(operation_id, Ok(order))
                } else {
                    (
                        RedemptionSettlement {
                            operation_id,
                            phase: RedemptionSettlementPhase::LoadingAssetState { order },
                        },
                        RedemptionSettlementAction::LoadAssetState,
                    )
                },
            },
            (
                RedemptionSettlementPhase::LoadingAssetState { order },
                RedemptionSettlementEvent::AssetStateLoaded(r),
            ) => match r {
                Err(e) => finished(operation_id, Err(RedemptionError::Gate(e.message()))),
                Ok(state) => (
                    RedemptionSettlement {
                        operation_id,
                        phase: RedemptionSettlementPhase::Deciding { order },
                    },
                    RedemptionSettlementAction::DecideRedemption { state },
                ),
            },
            (
                RedemptionSettlementPhase::Deciding { order },
                RedemptionSettlementEvent::RedemptionDecided(r),
            ) => match r {
                Err(e) => finished(operation_id, Err(RedemptionError::Gate(e.message()))),
                Ok(decision) => {
                    if decision.outcome == OperationDecisionOutcome::Rejected {
                        return finished(operation_id, Err(RedemptionError::Gate(decision.reason)));
                    }
                    if order.status != RedemptionStatus::Burned {
                        match parse_address(order.holder_address.as_str()) {
                            None => storage(operation_id, "stored holder is invalid"),
                            Some(holder) => match parse_u64(order.token_amount_raw.as_str()) {
                                None => storage(operation_id, "stored amount is invalid"),
                                Some(amount_raw) => (
                                    RedemptionSettlement {
                                        operation_id,
                                        phase: RedemptionSettlementPhase::Burning { order },
                                    },
                                    RedemptionSettlementAction::Burn { holder, amount_raw },
                                ),
                            },
                        }
                    } else {
                        pay_out(operation_id, order)
                    }
                },
            },
            (RedemptionSettlementPhase::Burning { .. }, RedemptionSettlementEvent::TokensBurned(r)) => match r {
                Ok(hash) => (
                    RedemptionSettlement { operation_id, phase: RedemptionSettlementPhase::RecordingBurn },
                    RedemptionSettlementAction::MarkBurned { transaction_hash: hash },
                ),
                Err(e) => {
                    let message = e.message();
                    (
                        RedemptionSettlement {
                            operation_id,
                            phase: RedemptionSettlementPhase::RecordingBurnFailure { error: e },
                        },
                        RedemptionSettlementAction::RecordFailure { message },
                    )
                },
            },
            (RedemptionSettlementPhase::RecordingBurn, RedemptionSettlementEvent::BurnRecorded(r)) => match r {
                Err(e) => finished(operation_id, Err(e)),
                Ok(order) => pay_out(operation_id, order),
            },
            (
                RedemptionSettlementPhase::RecordingBurnFailure { error },
                RedemptionSettlementEvent::FailureRecorded(_),
            ) => finished(operation_id, Err(error)),
            (RedemptionSettlementPhase::Paying { .. }, RedemptionSettlementEvent::PaidOut(r)) => match r {
                Ok(()) => (
                    RedemptionSettlement { operation_id, phase: RedemptionSettlementPhase::Completing },
                    RedemptionSettlementAction::Complete,
                ),
                Err(e) => {
                    let message = e.message();
                    (
                        RedemptionSettlement {
                            operation_id,
                            phase: RedemptionSettlementPhase::RecordingPayoutFailure { error: e },
                        },
                        RedemptionSettlementAction::RecordFailure { message },
                    )
                },
            },
            (RedemptionSettlementPhase::Completing, RedemptionSettlementEvent::Completed(r)) => finished(
                operation_id,
                r,
            ),
            (
                RedemptionSettlementPhase::RecordingPayoutFailure { error },
                RedemptionSettlementEvent::FailureRecorded(_),
            ) => finished(operation_id, Err(error)),
            _ => {
                assert(false);
                finished(operation_id, Err(RedemptionError::NotFound))
            },
        }
    }
}

/// Tokens are burned at most once: an order already recorded as burned goes
/// straight to payout, and a burn is requested only for an order that the
/// gate allowed and that is not yet burned.
pub proof fn law_burn_at_most_once(
    settlement: RedemptionSettlement,
    event: RedemptionSettlementEvent,
    next: RedemptionSettlement,
    action: RedemptionSettlementAction,
)
    requires
        redemption_step(settlement, event, next, action),
        (action is Burn),
    ensures
        burn_is_backed(settlement, event),
{
}

/// A burn request: the operation gate allowed the redemption of an order not yet
/// burned.
pub open spec fn burn_is_backed(settlement: RedemptionSettlement, event: RedemptionSettlementEvent) -> bool {
    &&& settlement.phase matches RedemptionSettlementPhase::Deciding { order }
    &&& order.status != RedemptionStatus::Burned
    &&& event matches RedemptionSettlementEvent::RedemptionDecided(r)
    &&& r matches Ok(decision)
    &&& decision.outcome == OperationDecisionOutcome::Allowed
}

/// The burn of `order` was recorded by the event just handed to the
/// settlement.
pub open spec fn burn_just_recorded(
    settlement: RedemptionSettlement,
    event: RedemptionSettlementEvent,
    order: RedemptionOrder,
) -> bool {
    &&& settlement.phase is RecordingBurn
    &&& event matches RedemptionSettlementEvent::BurnRecorded(r)
    &&& r == Ok::<RedemptionOrder, RedemptionError>(order)
}

/// The settlement was deciding on `order`, which was already recorded as
/// burned.
pub open spec fn burned_before(settlement: RedemptionSettlement, order: RedemptionOrder) -> bool {
    &&& settlement.phase == (RedemptionSettlementPhase::Deciding { order })
    &&& order.status == RedemptionStatus::Burned
}

/// A payout request: it follows either a burn recorded in this settlement or
/// an order already recorded as burned, and pays the order's payout amount.
pub open spec fn payout_is_backed(
    settlement: RedemptionSettlement,
    event: RedemptionSettlementEvent,
    next: RedemptionSettlement,
    action: RedemptionSettlementAction,
) -> bool {
    &&& next.phase matches RedemptionSettlementPhase::Paying { order }
    &&& action matches RedemptionSettlementAction::PayUsd { amount_minor }
    &&& u64_text_value(order.payout_usd_minor@) == Some(amount_minor)
    &&& burn_just_recorded(settlement, event, order) || burned_before(settlement, order)
}

/// The holder is paid only after the tokens are burned, and exactly the
/// order's payout amount.
pub proof fn law_payout_follows_burn(
    settlement: RedemptionSettlement,
    event: RedemptionSettlementEvent,
    next: RedemptionSettlement,
    action: RedemptionSettlementAction,
)
    requires
        redemption_step(settlement, event, next, action),
        (action is PayUsd),
    ensures
        payout_is_backed(settlement, event, next, action),
{
}

/// Tokens issued for a USD amount redeem at par for the same amount: the
/// raw tokens of an issuance order, redeemed, pay out its cents exactly.
pub proof fn law_issued_tokens_redeem_at_par(
    command: CreateIssuance,
    now: u64,
    issued: IssuanceOrder,
    id: Seq<char>,
    holder: Seq<char>,
    later: u64,
    redeemed: RedemptionOrder,
)
    requires
        new_issuance_result(command, now, Ok(issued)),
        new_redemption_result(id, holder, issued.token_amount_raw@, later, Ok(redeemed)),
    ensures
        redeemed.payout_usd_minor@ == issued.amount_usd_minor@,
        redeemed.token_amount_raw@ == issued.token_amount_raw@,
{
    let amount = u64_text_value(command.amount_usd_minor@)->0;
    let raw = (amount * TOKEN_UNITS_PER_USD_CENT) as nat;
    crate::text::law_decimal_round_trip(raw);
    assert(raw <= u64::MAX);
    let raw64: u64 = raw as u64;
    assert(raw64 == raw);
    assert(u64_text_value(issued.token_amount_raw@) == Some(raw64));
    assert(raw64 / 10_000 == amount) by (nonlinear_arith)
        requires
            raw64 == amount * 10_000,
    ;
    assert(TOKEN_UNITS_PER_CENT == 10_000);
}

} // verus!
