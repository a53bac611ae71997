//! Settlement of an issuance order, as a state machine: each step takes the
//! answer to the previous action and names the next action for the runtime
//! to perform (read the store, ask the bank, ask the operation gate, refund, mint).

use crate::address::{address_text_bytes, parse_address};

use crate::domain::{
    AssetState, IssuanceOrder, IssuanceStatus, OperationDecision, OperationDecisionOutcome,
};
use crate::errors::{
    asset_state_error_text, issuance_error_text, operation_gate_error_text, prefixed,
    AssetStateError, IssuanceError, OperationGateError,
};
use crate::issuance::{ConfirmedBankTransaction, MintResult};
use crate::text::{has_prefix, parse_u64, text_eq, text_starts_with, u64_text_value};
use vstd::prelude::*;
use vstd::string::*;

verus! {

/// Prefix of the failure message of an order whose fiat was refunded.
pub open spec fn refunded_marker() -> Seq<char> {
    "fiat_refunded_to_casp:"@
}

/// The order's fiat deposit was already refunded to the CASP.
pub open spec fn was_refunded(order: IssuanceOrder) -> bool {
    order.last_error matches Some(m) && has_prefix(m@, refunded_marker())
}

/// The confirmed bank transaction is the deposit that the order expects.
pub open spec fn deposit_matches(order: IssuanceOrder, bank: ConfirmedBankTransaction) -> bool {
    &&& bank.operation_type@ == "deposit"@
    &&& bank.amount_minor@ == order.amount_usd_minor@
    &&& bank.reference@ == order.operation_id@
}

/// Where a settlement stands; each phase waits for the answer to one action.
pub enum IssuanceSettlementPhase {
    LoadingOrder,
    FindingDeposit { order: IssuanceOrder },
    LoadingAssetState { order: IssuanceOrder, deposit: ConfirmedBankTransaction },
    Deciding { order: IssuanceOrder, deposit: ConfirmedBankTransaction },
    Refunding { order: IssuanceOrder, deposit: ConfirmedBankTransaction, reason: String },
    RecordingRefund { reason: String },
    Claiming { order: IssuanceOrder, deposit: ConfirmedBankTransaction, decision: OperationDecision },
    Minting {
        order: IssuanceOrder,
        deposit: ConfirmedBankTransaction,
        decision: OperationDecision,
        claimed: IssuanceOrder,
    },
    Completing,
    RecordingMintFailure { error: IssuanceError },
    Finished,
}

/// What the runtime must do next for the settlement.
pub enum IssuanceSettlementAction {
    /// Read the order from the store.
    LoadOrder,
    /// Look up the confirmed bank transaction under this idempotency key.
    FindDeposit { idempotency_key: String },
    /// Read the current asset state.
    LoadAssetState,
    /// Ask the operation gate to decide this issuance in this asset state.
    DecideIssuance { state: AssetState },
    /// Refund the confirmed deposit to the CASP.
    RefundToCasp { amount_minor: u64 },
    /// Mark the order failed with this message.
    RecordFailure { message: String },
    /// Claim the order for minting.
    ClaimForMint,
    /// Mint tokens on chain to the 20-byte recipient.
    Mint { recipient: Vec<u8>, amount_raw: u64 },
    /// Mark the order completed with the mint transaction hash.
    Complete { transaction_hash: Option<String> },
    /// Settlement is over; this is its result.
    Finish { result: Result<IssuanceOrder, IssuanceError> },
}

/// The answer to the last action.
pub enum IssuanceSettlementEvent {
    OrderLoaded(Result<Option<IssuanceOrder>, IssuanceError>),
    DepositFound(Result<Option<ConfirmedBankTransaction>, IssuanceError>),
    AssetStateLoaded(Result<AssetState, AssetStateError>),
    IssuanceDecided(Result<OperationDecision, OperationGateError>),
    Refunded(Result<(), IssuanceError>),
    FailureRecorded(Result<(), IssuanceError>),
    Claimed(Result<IssuanceOrder, IssuanceError>),
    Minted(Result<MintResult, IssuanceError>),
    Completed(Result<IssuanceOrder, IssuanceError>),
}

/// A settlement of one issuance operation.
pub struct IssuanceSettlement {
    pub operation_id: String,
    pub phase: IssuanceSettlementPhase,
}

/// The event answers the action that the phase waits for.
pub open spec fn answers(phase: IssuanceSettlementPhase, event: IssuanceSettlementEvent) -> bool {
    match phase {
        IssuanceSettlementPhase::LoadingOrder => event is OrderLoaded,
        IssuanceSettlementPhase::FindingDeposit { .. } => event is DepositFound,
        IssuanceSettlementPhase::LoadingAssetState { .. } => event is AssetStateLoaded,
        IssuanceSettlementPhase::Deciding { .. } => event is IssuanceDecided,
        IssuanceSettlementPhase::Refunding { .. } => event is Refunded,
        IssuanceSettlementPhase::RecordingRefund { .. } => event is FailureRecorded,
        IssuanceSettlementPhase::Claiming { .. } => event is Claimed,
        IssuanceSettlementPhase::Minting { .. } => event is Minted,
        IssuanceSettlementPhase::Completing => event is Completed,
        IssuanceSettlementPhase::RecordingMintFailure { .. } => event is FailureRecorded,
        IssuanceSettlementPhase::Finished => false,
    }
}

/// The evidence that every phase after the deposit check carries: the
/// deposit matches the order, and from the claim on, the operation gate allowed it.
pub open spec fn phase_evidence_holds(operation_id: Seq<char>, phase: IssuanceSettlementPhase) -> bool {
    match phase {
        IssuanceSettlementPhase::LoadingAssetState { order, deposit } => deposit_matches(
            order,
            deposit,
        ),
        IssuanceSettlementPhase::Deciding { order, deposit } => deposit_matches(order, deposit),
        IssuanceSettlementPhase::Refunding { order, deposit, .. } => deposit_matches(order, deposit),
        IssuanceSettlementPhase::Claiming { order, deposit, decision } => deposit_matches(
            order,
            deposit,
        ) && decision.outcome == OperationDecisionOutcome::Allowed,
        IssuanceSettlementPhase::Minting { order, deposit, decision, .. } => deposit_matches(
            order,
            deposit,
        ) && decision.outcome == OperationDecisionOutcome::Allowed,
        _ => true,
    }
}


fn finished(operation_id: String, result: Result<IssuanceOrder, IssuanceError>) -> (r: (
    IssuanceSettlement,
    IssuanceSettlementAction,
))
    ensures
        r.0.operation_id == operation_id,
        r.0.phase is Finished,
        r.1 == (IssuanceSettlementAction::Finish { result }),
{
    (
        IssuanceSettlement { operation_id, phase: IssuanceSettlementPhase::Finished },
        IssuanceSettlementAction::Finish { result },
    )
}

/// The settlement is over with this result.
pub open spec fn finished_with(
    next: IssuanceSettlement,
    action: IssuanceSettlementAction,
    result: Result<IssuanceOrder, IssuanceError>,
) -> bool {
    next.phase is Finished && action == IssuanceSettlementAction::Finish { result }
}

/// The settlement is over with an error of exactly this message.
pub open spec fn finished_with_error_text(
    next: IssuanceSettlement,
    action: IssuanceSettlementAction,
    text: Seq<char>,
) -> bool {
    &&& next.phase is Finished
    &&& action matches IssuanceSettlementAction::Finish { result }
    &&& result matches Err(e)
    &&& issuance_error_text(e) == text
}

/// One step of the settlement: the next phase and action for each answer.
pub open spec fn settlement_step(
    settlement: IssuanceSettlement,
    event: IssuanceSettlementEvent,
    next: IssuanceSettlement,
    action: IssuanceSettlementAction,
) -> bool {
    &&& next.operation_id == settlement.operation_id
    &&& match (settlement.phase, event) {
        (IssuanceSettlementPhase::LoadingOrder, IssuanceSettlementEvent::OrderLoaded(r)) => match r {
            Err(e) => finished_with(next, action, Err(e)),
            Ok(None) => finished_with(next, action, Err(IssuanceError::NotFound)),
            Ok(Some(order)) => if order.status == IssuanceStatus::Completed {
                finished_with(next, action, Ok(order))
            } else if was_refunded(order) {
                action matches IssuanceSettlementAction::Finish { result } && result matches Err(
                    IssuanceError::IssuanceBlocked(m),
                ) && m@ == "wpłata fiat została już zwrócona CASP; wymagane jest nowe zlecenie"@
                    && next.phase is Finished
            } else {
                &&& next.phase == IssuanceSettlementPhase::FindingDeposit { order }
                &&& action matches IssuanceSettlementAction::FindDeposit { idempotency_key }
                &&& idempotency_key@ == order.bank_idempotency_key@
            },
        },
        (
            IssuanceSettlementPhase::FindingDeposit { order },
            IssuanceSettlementEvent::DepositFound(r),
        ) => match r {
            Err(e) => finished_with(next, action, Err(e)),
            Ok(None) => finished_with(next, action, Err(IssuanceError::FiatNotConfirmed)),
            Ok(Some(deposit)) => if !deposit_matches(order, deposit) {
                finished_with(next, action, Err(IssuanceError::BankMismatch))
            } else {
                next.phase == IssuanceSettlementPhase::LoadingAssetState { order, deposit }
                    && action is LoadAssetState
            },
        },
        (
            IssuanceSettlementPhase::LoadingAssetState { order, deposit },
            IssuanceSettlementEvent::AssetStateLoaded(r),
        ) => match r {
            Err(e) => action matches IssuanceSettlementAction::Finish { result } && result matches Err(
                IssuanceError::IssuanceBlocked(m),
            ) && m@ == "asset state is unavailable: "@ + asset_state_error_text(e)
                && next.phase is Finished,
            Ok(state) => next.phase == IssuanceSettlementPhase::Deciding { order, deposit }
                && action == IssuanceSettlementAction::DecideIssuance { state },
        },
        (
            IssuanceSettlementPhase::Deciding { order, deposit },
            IssuanceSettlementEvent::IssuanceDecided(r),
        ) => match r {
            Err(e) => action matches IssuanceSettlementAction::Finish { result } && result matches Err(
                IssuanceError::Storage(m),
            ) && m@ == operation_gate_error_text(e) && next.phase is Finished,
            Ok(decision) => if decision.outcome == OperationDecisionOutcome::Rejected {
                match u64_text_value(order.amount_usd_minor@) {
                    None => action matches IssuanceSettlementAction::Finish { result }
                        && result matches Err(IssuanceError::Storage(m))
                        && m@ == "stored fiat amount is invalid"@ && next.phase is Finished,
                    Some(amount) => next.phase matches IssuanceSettlementPhase::Refunding {
                        order: o,
                        deposit: d,
                        reason,
                    } && o == order && d == deposit && reason@ == decision.reason@
                        && action == IssuanceSettlementAction::RefundToCasp { amount_minor: amount },
                }
            } else {
                next.phase == IssuanceSettlementPhase::Claiming { order, deposit, decision }
                    && action is ClaimForMint
            },
        },
        (
            IssuanceSettlementPhase::Refunding { reason, .. },
            IssuanceSettlementEvent::Refunded(r),
        ) => match r {
            Err(e) => finished_with(next, action, Err(e)),
            Ok(()) => {
                &&& next.phase matches IssuanceSettlementPhase::RecordingRefund { reason: kept }
                &&& kept@ == reason@
                &&& action matches IssuanceSettlementAction::RecordFailure { message }
                &&& message@ == refunded_marker() + " "@ + reason@
            },
        },
        (
            IssuanceSettlementPhase::RecordingRefund { reason },
            IssuanceSettlementEvent::FailureRecorded(r),
        ) => match r {
            Err(e) => finished_with(next, action, Err(e)),
            Ok(()) => action matches IssuanceSettlementAction::Finish { result } && result matches Err(
                IssuanceError::IssuanceBlocked(m),
            ) && m@ == reason@ + "; wpłata fiat została zwrócona CASP"@ && next.phase is Finished,
        },
        (
            IssuanceSettlementPhase::Claiming { order, deposit, decision },
            IssuanceSettlementEvent::Claimed(r),
        ) => match r {
            Err(e) => finished_with(next, action, Err(e)),
            Ok(claimed) => match address_text_bytes(claimed.recipient_address@) {
                None => action matches IssuanceSettlementAction::Finish { result } && result matches Err(
                    IssuanceError::Storage(m),
                ) && m@ == "stored recipient address is invalid"@ && next.phase is Finished,
                Some(recipient) => match u64_text_value(claimed.token_amount_raw@) {
                    None => action matches IssuanceSettlementAction::Finish { result }
                        && result matches Err(IssuanceError::Storage(m))
                        && m@ == "stored token amount is invalid"@ && next.phase is Finished,
                    Some(amount) => {
                        &&& next.phase == IssuanceSettlementPhase::Minting {
                            order,
                            deposit,
                            decision,
                            claimed,
                        }
                        &&& action matches IssuanceSettlementAction::Mint { recipient: to, amount_raw }
                        &&& to@ == recipient
                        &&& amount_raw == amount
                    },
                },
            },
        },
        (IssuanceSettlementPhase::Minting { .. }, IssuanceSettlementEvent::Minted(r)) => match r {
            Ok(minted) => next.phase is Completing && action
                == IssuanceSettlementAction::Complete { transaction_hash: minted.transaction_hash },
            Err(e) => {
                &&& next.phase == IssuanceSettlementPhase::RecordingMintFailure { error: e }
                &&& action matches IssuanceSettlementAction::RecordFailure { message }
                &&& message@ == issuance_error_text(e)
            },
        },
        (IssuanceSettlementPhase::Completing, IssuanceSettlementEvent::Completed(r)) => finished_with(
            next,
            action,
            r,
        ),
        (
            IssuanceSettlementPhase::RecordingMintFailure { error },
            IssuanceSettlementEvent::FailureRecorded(_),
        ) => finished_with(next, action, Err(error)),
        _ => false,
    }
}

/// A mint action backed by its evidence: the minting phase holds a claimed
/// order, the deposit that matches the order and an allowed decision, and
/// the mint sends the claimed recipient and token amount.
pub open spec fn mint_is_backed(next: IssuanceSettlement, action: IssuanceSettlementAction) -> bool {
    &&& next.phase matches IssuanceSettlementPhase::Minting { order, deposit, decision, claimed }
    &&& deposit_matches(order, deposit)
    &&& decision.outcome == OperationDecisionOutcome::Allowed
    &&& action matches IssuanceSettlementAction::Mint { recipient, amount_raw }
    &&& address_text_bytes(claimed.recipient_address@) == Some(recipient@)
    &&& u64_text_value(claimed.token_amount_raw@) == Some(amount_raw)
}

/// Tokens are minted only for a claimed order whose confirmed bank
/// transaction is exactly the deposit the order expects (type `deposit`,
/// same amount, same reference), after the operation gate allowed the issuance; the
/// mint sends the claimed recipient and token amount.
pub proof fn law_mint_needs_matching_deposit_and_allowed_gate(
    settlement: IssuanceSettlement,
    event: IssuanceSettlementEvent,
    next: IssuanceSettlement,
    action: IssuanceSettlementAction,
)
    requires
        settlement.wf(),
        settlement_step(settlement, event, next, action),
        (action is Mint),
    ensures
        mint_is_backed(next, action),
{
}

/// A refund backed by its evidence: the operation gate rejected an issuance whose
/// deposit matched, and the refund is the order's amount.
pub open spec fn refund_is_backed(
    settlement: IssuanceSettlement,
    event: IssuanceSettlementEvent,
    action: IssuanceSettlementAction,
) -> bool {
    &&& settlement.phase matches IssuanceSettlementPhase::Deciding { order, deposit }
    &&& deposit_matches(order, deposit)
    &&& event matches IssuanceSettlementEvent::IssuanceDecided(r)
    &&& r matches Ok(decision)
    &&& decision.outcome == OperationDecisionOutcome::Rejected
    &&& action matches IssuanceSettlementAction::RefundToCasp { amount_minor }
    &&& u64_text_value(order.amount_usd_minor@) == Some(amount_minor)
}

/// Fiat is refunded to the CASP only after the operation gate rejected an issuance
/// whose deposit matched, and exactly the order's amount is refunded.
pub proof fn law_refund_follows_rejection(
    settlement: IssuanceSettlement,
    event: IssuanceSettlementEvent,
    next: IssuanceSettlement,
    action: IssuanceSettlementAction,
)
    requires
        settlement.wf(),
        settlement_step(settlement, event, next, action),
        (action is RefundToCasp),
    ensures
        refund_is_backed(settlement, event, action),
{
}

/// Settling a completed order again returns it unchanged and does nothing
/// else; settling an order whose fiat was refunded is refused at once.
pub proof fn law_settlement_is_idempotent(
    settlement: IssuanceSettlement,
    order: IssuanceOrder,
    next: IssuanceSettlement,
    action: IssuanceSettlementAction,
)
    requires
        (settlement.phase is LoadingOrder),
        settlement_step(
            settlement,
            IssuanceSettlementEvent::OrderLoaded(Ok(Some(order))),
            next,
            action,
        ),
    ensures
        order.status == IssuanceStatus::Completed ==> action == (IssuanceSettlementAction::Finish {
            result: Ok(order),
        }),
        order.status != IssuanceStatus::Completed && was_refunded(order) ==> finishes_blocked(action),
        (next.phase is Finished || next.phase is FindingDeposit),
{
}

/// The settlement finishes with an `IssuanceBlocked` error.
pub open spec fn finishes_blocked(action: IssuanceSettlementAction) -> bool {
    &&& action matches IssuanceSettlementAction::Finish { result }
    &&& result matches Err(IssuanceError::IssuanceBlocked(_))
}

/// An order as `new_issuance_order` creates it never fails settlement on
/// its stored values: its fiat amount, token amount and recipient all read
/// back.
pub proof fn law_created_order_reads_back(
    command: crate::issuance::CreateIssuance,
    now: u64,
    order: IssuanceOrder,
)
    requires
        crate::issuance::new_issuance_result(command, now, Ok(order)),
    ensures
        u64_text_value(order.amount_usd_minor@) is Some,
        u64_text_value(order.token_amount_raw@) is Some,
        u64_text_value(order.token_amount_raw@)->0 == u64_text_value(order.amount_usd_minor@)->0
            * crate::issuance::TOKEN_UNITS_PER_USD_CENT,
        address_text_bytes(order.recipient_address@) is Some,
{
    let amount = u64_text_value(command.amount_usd_minor@)->0;
    crate::text::law_decimal_round_trip(amount as nat);
    crate::text::law_decimal_round_trip((amount * crate::issuance::TOKEN_UNITS_PER_USD_CENT) as nat);
}

impl IssuanceSettlement {
    /// The settlement carries the evidence of its phase.
    pub open spec fn wf(&self) -> bool {
        phase_evidence_holds(self.operation_id@, self.phase)
    }

    /// The settlement waits for this event.
    pub open spec fn awaits(&self, event: IssuanceSettlementEvent) -> bool {
        answers(self.phase, event)
    }

    /// Whether the settlement waits for this event.
    pub fn is_awaiting(&self, event: &IssuanceSettlementEvent) -> (b: bool)
        ensures
            b == self.awaits(*event),
    {
        match (&self.phase, event) {
            (IssuanceSettlementPhase::LoadingOrder, IssuanceSettlementEvent::OrderLoaded(_)) => true,
            (
                IssuanceSettlementPhase::FindingDeposit { .. },
                IssuanceSettlementEvent::DepositFound(_),
            ) => true,
            (
                IssuanceSettlementPhase::LoadingAssetState { .. },
                IssuanceSettlementEvent::AssetStateLoaded(_),
            ) => true,
            (
                IssuanceSettlementPhase::Deciding { .. },
                IssuanceSettlementEvent::IssuanceDecided(_),
            ) => true,
            (IssuanceSettlementPhase::Refunding { .. }, IssuanceSettlementEvent::Refunded(_)) => true,
            (
                IssuanceSettlementPhase::RecordingRefund { .. },
                IssuanceSettlementEvent::FailureRecorded(_),
            ) => true,
            (IssuanceSettlementPhase::Claiming { .. }, IssuanceSettlementEvent::Claimed(_)) => true,
            (IssuanceSettlementPhase::Minting { .. }, IssuanceSettlementEvent::Minted(_)) => true,
            (IssuanceSettlementPhase::Completing, IssuanceSettlementEvent::Completed(_)) => true,
            (
                IssuanceSettlementPhase::RecordingMintFailure { .. },
                IssuanceSettlementEvent::FailureRecorded(_),
            ) => true,
            _ => false,
        }
    }


    /// Advances the settlement with the answer to its last action.
    pub fn step(self, event: IssuanceSettlementEvent) -> (r: (IssuanceSettlement, IssuanceSettlementAction))
        requires
            self.wf(),
            self.awaits(event),
        ensures
            r.0.wf(),
            settlement_step(self, event, r.0, r.1),
    {
        let operation_id = self.operation_id;
        match (self.phase, event) {
            (IssuanceSettlementPhase::LoadingOrder, IssuanceSettlementEvent::OrderLoaded(r)) => {
                match r {
                    Err(e) => finished(operation_id, Err(e)),
                    Ok(None) => finished(operation_id, Err(IssuanceError::NotFound)),
                    Ok(Some(order)) => {
                        if order.status == IssuanceStatus::Completed {
                            return finished(operation_id, Ok(order));
                        }
                        let refunded = match &order.last_error {
                            Some(m) => text_starts_with(m.as_str(), "fiat_refunded_to_casp:"),
                            None => false,
                        };
                        if refunded {
                            return finished(
                                operation_id,
                                Err(
                                    IssuanceError::IssuanceBlocked(
                                        String::from_str(
                                            "wpłata fiat została już zwrócona CASP; wymagane jest nowe zlecenie",
                                        ),
                                    ),
                                ),
                            );
                        }
                        let idempotency_key = order.bank_idempotency_key.clone();
                        (
                            IssuanceSettlement {
                                operation_id,
                                phase: IssuanceSettlementPhase::FindingDeposit { order },
                            },
                            IssuanceSettlementAction::FindDeposit { idempotency_key },
                        )
                    },
                }
            },
            (
                IssuanceSettlementPhase::FindingDeposit { order },
                IssuanceSettlementEvent::DepositFound(r),
            ) => match r {
                Err(e) => finished(operation_id, Err(e)),
                Ok(None) => finished(operation_id, Err(IssuanceError::FiatNotConfirmed)),
                Ok(Some(deposit)) => {
                    if !text_eq(deposit.operation_type.as_str(), "deposit") || !text_eq(
                        deposit.amount_minor.as_str(),
                        order.amount_usd_minor.as_str(),
                    ) || !text_eq(deposit.reference.as_str(), order.operation_id.as_str()) {
                        return finished(operation_id, Err(IssuanceError::BankMismatch));
                    }
                    (
                        IssuanceSettlement {
                            operation_id,
                            phase: IssuanceSettlementPhase::LoadingAssetState { order, deposit },
                        },
                        IssuanceSettlementAction::LoadAssetState,
                    )
                },
            },
            (
                IssuanceSettlementPhase::LoadingAssetState { order, deposit },
                IssuanceSettlementEvent::AssetStateLoaded(r),
            ) => match r {
                Err(e) => {
                    let m = prefixed("asset state is unavailable: ", e.message().as_str());
                    finished(operation_id, Err(IssuanceError::IssuanceBlocked(m)))
                },
                Ok(state) => (
                    IssuanceSettlement {
                        operation_id,
                        phase: IssuanceSettlementPhase::Deciding { order, deposit },
                    },
                    IssuanceSettlementAction::DecideIssuance { state },
                ),
            },
            (
                IssuanceSettlementPhase::Deciding { order, deposit },
                IssuanceSettlementEvent::IssuanceDecided(r),
            ) => match r {
                Err(e) => finished(operation_id, Err(IssuanceError::Storage(e.message()))),
                Ok(decision) => {
                    if decision.outcome == OperationDecisionOutcome::Rejected {
                        match parse_u64(order.amount_usd_minor.as_str()) {
                            None => finished(
                                operation_id,
                                Err(
                                    IssuanceError::Storage(
                                        String::from_str("stored fiat amount is invalid"),
                                    ),
                                ),
                            ),
                            Some(amount) => (
                                IssuanceSettlement {
                                    operation_id,
                                    phase: IssuanceSettlementPhase::Refunding {
                                        order,
                                        deposit,
                                        reason: decision.reason,
                                    },
                                },
                                IssuanceSettlementAction::RefundToCasp { amount_minor: amount },
                            ),
                        }
                    } else {
                        (
                            IssuanceSettlement {
                                operation_id,
                                phase: IssuanceSettlementPhase::Claiming { order, deposit, decision },
                            },
                            IssuanceSettlementAction::ClaimForMint,
                        )
                    }
                },
            },
            (
                IssuanceSettlementPhase::Refunding { reason, .. },
                IssuanceSettlementEvent::Refunded(r),
            ) => match r {
                Err(e) => finished(operation_id, Err(e)),
                Ok(()) => {
                    let mut message = String::from_str("fiat_refunded_to_casp:");
                    message.append(" ");
                    message.append(reason.as_str());
                    (
                        IssuanceSettlement {
                            operation_id,
                            phase: IssuanceSettlementPhase::RecordingRefund { reason },
                        },
                        IssuanceSettlementAction::RecordFailure { message },
                    )
                },
            },
            (
                IssuanceSettlementPhase::RecordingRefund { reason },
                IssuanceSettlementEvent::FailureRecorded(r),
            ) => match r {
                Err(e) => finished(operation_id, Err(e)),
                Ok(()) => {
                    let mut m = reason;
                    m.append("; wpłata fiat została zwrócona CASP");
                    finished(operation_id, Err(IssuanceError::IssuanceBlocked(m)))
                },
            },
            (
                IssuanceSettlementPhase::Claiming { order, deposit, decision },
                IssuanceSettlementEvent::Claimed(r),
            ) => match r {
                Err(e) => finished(operation_id, Err(e)),
                Ok(claimed) => match parse_address(claimed.recipient_address.as_str()) {
                    None => finished(
                        operation_id,
                        Err(
                            IssuanceError::Storage(
                                String::from_str("stored recipient address is invalid"),
                            ),
                        ),
                    ),
                    Some(recipient) => match parse_u64(claimed.token_amount_raw.as_str()) {
                        None => finished(
                            operation_id,
                            Err(
                                IssuanceError::Storage(
                                    String::from_str("stored token amount is invalid"),
                                ),
                            ),
                        ),
                        Some(amount_raw) => (
                            IssuanceSettlement {
                                operation_id,
                                phase: IssuanceSettlementPhase::Minting {
                                    order,
                                    deposit,
                                    decision,
                                    claimed,
                                },
                            },
                            IssuanceSettlementAction::Mint { recipient, amount_raw },
                        ),
                    },
                },
            },
            (IssuanceSettlementPhase::Minting { .. }, IssuanceSettlementEvent::Minted(r)) => match r {
                Ok(minted) => (
                    IssuanceSettlement { operation_id, phase: IssuanceSettlementPhase::Completing },
                    IssuanceSettlementAction::Complete { transaction_hash: minted.transaction_hash },
                ),
                Err(e) => {
                    let message = e.message();
                    (
                        IssuanceSettlement {
                            operation_id,
                            phase: IssuanceSettlementPhase::RecordingMintFailure { error: e },
                        },
                        IssuanceSettlementAction::RecordFailure { message },
                    )
                },
            },
            (IssuanceSettlementPhase::Completing, IssuanceSettlementEvent::Completed(r)) => finished(
                operation_id,
                r,
            ),
            (
                IssuanceSettlementPhase::RecordingMintFailure { error },
                IssuanceSettlementEvent::FailureRecorded(_),
            ) => finished(operation_id, Err(error)),
            _ => {
                assert(false);
                finished(operation_id, Err(IssuanceError::NotFound))
            },
        }
    }

    /// Starts settling `operation_id`: the first action reads the order.
    pub fn start(operation_id: &str) -> (r: (IssuanceSettlement, IssuanceSettlementAction))
        ensures
            r.0.operation_id@ == operation_id@,
            r.0.phase is LoadingOrder,
            r.0.wf(),
            r.1 is LoadOrder,
    {
        (
            IssuanceSettlement {
                operation_id: String::from_str(operation_id),
                phase: IssuanceSettlementPhase::LoadingOrder,
            },
            IssuanceSettlementAction::LoadOrder,
        )
    }
}

} // verus!
