use crypto_asset_backend::asset_state::{evaluate, repeats_wind_down};
use crypto_asset_backend::domain::{
    AssetState, CoverageRatio, IssuanceOrder, IssuanceStatus, IssuerOperationKind,
    OperationDecision, RedemptionOrder, RedemptionStatus,
};
use crypto_asset_backend::errors::{IssuanceError, OperationGateError, RedemptionError};
use crypto_asset_backend::issuance::{
    create_issuance, replay_issuance, ConfirmedBankTransaction, CreateIssuance, IssuanceStore,
    MintResult,
};
use crypto_asset_backend::issuance_settlement::{
    IssuanceSettlement, IssuanceSettlementAction, IssuanceSettlementEvent,
};
use crypto_asset_backend::operation_gate::{
    IssuanceRestriction, OperationDecisionStore, OperationGate,
};
use crypto_asset_backend::redemption::{
    create_redemption, replay_redemption, RedemptionSettlement, RedemptionSettlementAction,
    RedemptionSettlementEvent, RedemptionStore,
};
use std::sync::Mutex;

struct Decisions;

impl OperationDecisionStore for Decisions {
    fn append(&self, _: &OperationDecision) -> Result<(), OperationGateError> {
        Ok(())
    }
}

struct NoRestriction;

impl IssuanceRestriction for NoRestriction {
    fn block_reason(&self) -> Result<Option<String>, OperationGateError> {
        Ok(None)
    }
}

type Gate = OperationGate<Decisions, NoRestriction>;

fn asset_state(percent: u128) -> AssetState {
    evaluate(
        Some(CoverageRatio {
            reserve_raw: percent,
            supply_raw: 100,
        }),
        Some(1),
    )
}

struct MemoryStore(Mutex<Option<IssuanceOrder>>);

impl IssuanceStore for MemoryStore {
    fn create(&self, order: &IssuanceOrder) -> Result<IssuanceOrder, IssuanceError> {
        let mut stored = self.0.lock().unwrap();
        if let Some(existing) = stored.as_ref() {
            return replay_issuance(existing.clone(), order);
        }
        *stored = Some(order.clone());
        Ok(order.clone())
    }
    fn get(&self, _: &str) -> Result<Option<IssuanceOrder>, IssuanceError> {
        Ok(self.0.lock().unwrap().clone())
    }
    fn claim_for_mint(&self, _: &str) -> Result<IssuanceOrder, IssuanceError> {
        let mut value = self.0.lock().unwrap();
        let order = value.as_mut().unwrap();
        order.status = IssuanceStatus::Minting;
        Ok(order.clone())
    }
    fn complete(&self, _: &str, hash: Option<&str>) -> Result<IssuanceOrder, IssuanceError> {
        let mut value = self.0.lock().unwrap();
        let order = value.as_mut().unwrap();
        order.status = IssuanceStatus::Completed;
        order.transaction_hash = hash.map(str::to_owned);
        Ok(order.clone())
    }
    fn fail(&self, _: &str, message: &str) -> Result<(), IssuanceError> {
        let mut value = self.0.lock().unwrap();
        let order = value.as_mut().unwrap();
        order.status = IssuanceStatus::Failed;
        order.last_error = Some(message.to_owned());
        Ok(())
    }
}

struct Bank {
    transaction: Option<ConfirmedBankTransaction>,
    refunds: Mutex<Vec<(String, u64)>>,
}

impl Bank {
    fn new(transaction: Option<ConfirmedBankTransaction>) -> Self {
        Self {
            transaction,
            refunds: Mutex::new(Vec::new()),
        }
    }
}

struct Token(Mutex<u8>);

fn command() -> CreateIssuance {
    CreateIssuance {
        operation_id: "order-1".to_owned(),
        recipient_address: "0x0000000000000000000000000000000000000001".to_owned(),
        amount_usd_minor: "2500".to_owned(),
    }
}

fn deposit(amount: &str) -> ConfirmedBankTransaction {
    ConfirmedBankTransaction {
        operation_type: "deposit".to_owned(),
        amount_minor: amount.to_owned(),
        reference: "order-1".to_owned(),
    }
}

fn settle_issuance(
    store: &MemoryStore,
    bank: &Bank,
    token: &Token,
    state: &AssetState,
    gate: &Gate,
    id: &str,
) -> Result<IssuanceOrder, IssuanceError> {
    let (mut settlement, mut action) = IssuanceSettlement::start(id);
    loop {
        let event = match action {
            IssuanceSettlementAction::LoadOrder => {
                IssuanceSettlementEvent::OrderLoaded(store.get(id))
            }
            IssuanceSettlementAction::FindDeposit { .. } => {
                IssuanceSettlementEvent::DepositFound(Ok(bank.transaction.clone()))
            }
            IssuanceSettlementAction::LoadAssetState => {
                IssuanceSettlementEvent::AssetStateLoaded(Ok(state.clone()))
            }
            IssuanceSettlementAction::DecideIssuance { state } => {
                IssuanceSettlementEvent::IssuanceDecided(gate.decide(
                    id,
                    IssuerOperationKind::Issuance,
                    &state,
                ))
            }
            IssuanceSettlementAction::RefundToCasp { amount_minor } => {
                let mut refunds = bank.refunds.lock().unwrap();
                let refund = (id.to_owned(), amount_minor);
                if !refunds.contains(&refund) {
                    refunds.push(refund);
                }
                IssuanceSettlementEvent::Refunded(Ok(()))
            }
            IssuanceSettlementAction::RecordFailure { message } => {
                IssuanceSettlementEvent::FailureRecorded(store.fail(id, &message))
            }
            IssuanceSettlementAction::ClaimForMint => {
                IssuanceSettlementEvent::Claimed(store.claim_for_mint(id))
            }
            IssuanceSettlementAction::Mint { .. } => {
                *token.0.lock().unwrap() += 1;
                IssuanceSettlementEvent::Minted(Ok(MintResult {
                    transaction_hash: Some("0xabc".to_owned()),
                }))
            }
            IssuanceSettlementAction::Complete { transaction_hash } => {
                IssuanceSettlementEvent::Completed(store.complete(id, transaction_hash.as_deref()))
            }
            IssuanceSettlementAction::Finish { result } => return result,
        };
        assert!(settlement.is_awaiting(&event));
        let (next, next_action) = settlement.step(event);
        settlement = next;
        action = next_action;
    }
}

#[test]
fn create_is_idempotent_and_converts_usd_cents_to_six_decimal_token_units() {
    let store = MemoryStore(Mutex::new(None));
    let first = create_issuance(&store, &command()).unwrap();
    let second = create_issuance(&store, &command()).unwrap();
    assert_eq!(first, second);
    assert_eq!(first.token_amount_raw, "25000000");
    assert_eq!(first.bank_idempotency_key, "issuance-order-1");
}

#[test]
fn create_rejects_invalid_requests_before_storing() {
    let store = MemoryStore(Mutex::new(None));
    let mut bad = command();
    bad.amount_usd_minor = "0".into();
    assert_eq!(
        create_issuance(&store, &bad),
        Err(IssuanceError::Invalid(
            "amountUsdMinor must be a positive integer string".into()
        ))
    );
    bad = command();
    bad.recipient_address = "0x12".into();
    assert_eq!(
        create_issuance(&store, &bad),
        Err(IssuanceError::Invalid(
            "recipientAddress is not a valid Ethereum address".into()
        ))
    );
    assert!(store.0.lock().unwrap().is_none());
}

#[test]
fn settlement_requires_matching_fiat_before_minting_once() {
    let store = MemoryStore(Mutex::new(None));
    let bank = Bank::new(Some(deposit("2500")));
    let token = Token(Mutex::new(0));
    let gate = Gate::new(Decisions);
    let state = asset_state(110);
    create_issuance(&store, &command()).unwrap();
    let result = settle_issuance(&store, &bank, &token, &state, &gate, "order-1").unwrap();
    assert_eq!(result.status, IssuanceStatus::Completed);
    assert_eq!(*token.0.lock().unwrap(), 1);
    assert_eq!(
        settle_issuance(&store, &bank, &token, &state, &gate, "order-1")
            .unwrap()
            .transaction_hash
            .as_deref(),
        Some("0xabc")
    );
    assert_eq!(*token.0.lock().unwrap(), 1);
}

#[test]
fn settlement_does_not_mint_before_fiat_confirmation() {
    let store = MemoryStore(Mutex::new(None));
    let bank = Bank::new(None);
    let token = Token(Mutex::new(0));
    let gate = Gate::new(Decisions);
    create_issuance(&store, &command()).unwrap();
    assert!(matches!(
        settle_issuance(&store, &bank, &token, &asset_state(110), &gate, "order-1"),
        Err(IssuanceError::FiatNotConfirmed)
    ));
    assert_eq!(*token.0.lock().unwrap(), 0);
}

#[test]
fn mismatched_confirmed_fiat_does_not_mint() {
    let store = MemoryStore(Mutex::new(None));
    let bank = Bank::new(Some(deposit("2499")));
    let token = Token(Mutex::new(0));
    let gate = Gate::new(Decisions);
    create_issuance(&store, &command()).unwrap();
    assert!(matches!(
        settle_issuance(&store, &bank, &token, &asset_state(110), &gate, "order-1"),
        Err(IssuanceError::BankMismatch)
    ));
    assert_eq!(*token.0.lock().unwrap(), 0);
}

#[test]
fn blocked_state_prevents_claim_and_mint_after_confirmed_fiat() {
    let store = MemoryStore(Mutex::new(None));
    let bank = Bank::new(Some(deposit("2500")));
    let token = Token(Mutex::new(0));
    let gate = Gate::new(Decisions);
    let state = asset_state(99);
    create_issuance(&store, &command()).unwrap();
    assert!(matches!(
        settle_issuance(&store, &bank, &token, &state, &gate, "order-1"),
        Err(IssuanceError::IssuanceBlocked(_))
    ));
    assert_eq!(
        store.get("order-1").unwrap().unwrap().status,
        IssuanceStatus::Failed
    );
    assert_eq!(*token.0.lock().unwrap(), 0);
    assert_eq!(
        *bank.refunds.lock().unwrap(),
        vec![("order-1".to_owned(), 2500)]
    );
    assert!(matches!(
        settle_issuance(&store, &bank, &token, &state, &gate, "order-1"),
        Err(IssuanceError::IssuanceBlocked(_))
    ));
    assert_eq!(bank.refunds.lock().unwrap().len(), 1);
}

struct Redemptions(Mutex<Option<RedemptionOrder>>);

impl RedemptionStore for Redemptions {
    fn create(&self, order: &RedemptionOrder) -> Result<RedemptionOrder, RedemptionError> {
        let mut stored = self.0.lock().unwrap();
        if let Some(existing) = stored.as_ref() {
            return Ok(existing.clone());
        }
        *stored = Some(order.clone());
        Ok(order.clone())
    }
    fn get(&self, _: &str) -> Result<Option<RedemptionOrder>, RedemptionError> {
        Ok(self.0.lock().unwrap().clone())
    }
    fn mark_burned(&self, _: &str, hash: Option<&str>) -> Result<RedemptionOrder, RedemptionError> {
        let mut value = self.0.lock().unwrap();
        let order = value.as_mut().unwrap();
        order.status = RedemptionStatus::Burned;
        if let Some(hash) = hash {
            order.burn_transaction_hash = Some(hash.to_owned());
        }
        Ok(order.clone())
    }
    fn complete(&self, _: &str) -> Result<RedemptionOrder, RedemptionError> {
        let mut value = self.0.lock().unwrap();
        let order = value.as_mut().unwrap();
        order.status = RedemptionStatus::Completed;
        Ok(order.clone())
    }
    fn fail(&self, _: &str, message: &str) -> Result<(), RedemptionError> {
        let mut value = self.0.lock().unwrap();
        let order = value.as_mut().unwrap();
        order.status = RedemptionStatus::Failed;
        order.last_error = Some(message.to_owned());
        Ok(())
    }
}

fn settle_redemption(
    store: &Redemptions,
    burns: &Mutex<u8>,
    payouts: &Mutex<Vec<u64>>,
    state: &AssetState,
    gate: &Gate,
    id: &str,
) -> Result<RedemptionOrder, RedemptionError> {
    let (mut settlement, mut action) = RedemptionSettlement::start(id);
    loop {
        let event = match action {
            RedemptionSettlementAction::LoadOrder => {
                RedemptionSettlementEvent::OrderLoaded(store.get(id))
            }
            RedemptionSettlementAction::LoadAssetState => {
                RedemptionSettlementEvent::AssetStateLoaded(Ok(state.clone()))
            }
            RedemptionSettlementAction::DecideRedemption { state } => {
                RedemptionSettlementEvent::RedemptionDecided(gate.decide(
                    id,
                    IssuerOperationKind::Redemption,
                    &state,
                ))
            }
            RedemptionSettlementAction::Burn { .. } => {
                *burns.lock().unwrap() += 1;
                RedemptionSettlementEvent::TokensBurned(Ok(Some("0xburn".into())))
            }
            RedemptionSettlementAction::MarkBurned { transaction_hash } => {
                RedemptionSettlementEvent::BurnRecorded(
                    store.mark_burned(id, transaction_hash.as_deref()),
                )
            }
            RedemptionSettlementAction::PayUsd { amount_minor } => {
                payouts.lock().unwrap().push(amount_minor);
                RedemptionSettlementEvent::PaidOut(Ok(()))
            }
            RedemptionSettlementAction::Complete => {
                RedemptionSettlementEvent::Completed(store.complete(id))
            }
            RedemptionSettlementAction::RecordFailure { message } => {
                RedemptionSettlementEvent::FailureRecorded(store.fail(id, &message))
            }
            RedemptionSettlementAction::Finish { result } => return result,
        };
        assert!(settlement.is_awaiting(&event));
        let (next, next_action) = settlement.step(event);
        settlement = next;
        action = next_action;
    }
}

#[test]
fn shortfall_does_not_block_redemption_and_payout_stays_at_par() {
    let store = Redemptions(Mutex::new(None));
    let burns = Mutex::new(0u8);
    let payouts = Mutex::new(Vec::new());
    let gate = Gate::new(Decisions);
    create_redemption(
        &store,
        "redemption-1",
        "0x0000000000000000000000000000000000000001",
        "25000000",
    )
    .unwrap();

    let settled =
        settle_redemption(&store, &burns, &payouts, &asset_state(99), &gate, "redemption-1")
            .unwrap();

    assert_eq!(settled.status, RedemptionStatus::Completed);
    assert_eq!(*burns.lock().unwrap(), 1);
    assert_eq!(*payouts.lock().unwrap(), vec![2500]);
}

#[test]
fn a_burned_order_is_paid_without_a_second_burn() {
    let store = Redemptions(Mutex::new(None));
    let burns = Mutex::new(0u8);
    let payouts = Mutex::new(Vec::new());
    let gate = Gate::new(Decisions);
    create_redemption(
        &store,
        "redemption-2",
        "0x0000000000000000000000000000000000000001",
        "10000",
    )
    .unwrap();
    store.mark_burned("redemption-2", Some("0xburn")).unwrap();
    let settled =
        settle_redemption(&store, &burns, &payouts, &asset_state(110), &gate, "redemption-2")
            .unwrap();
    assert_eq!(settled.status, RedemptionStatus::Completed);
    assert_eq!(*burns.lock().unwrap(), 0);
    assert_eq!(*payouts.lock().unwrap(), vec![1]);
}

#[test]
fn redemption_amounts_must_be_whole_cents() {
    let store = Redemptions(Mutex::new(None));
    assert!(matches!(
        create_redemption(
            &store,
            "redemption-3",
            "0x0000000000000000000000000000000000000001",
            "12345"
        ),
        Err(RedemptionError::Invalid(_))
    ));
}

#[test]
fn issuance_operation_id_limit_counts_characters() {
    let store = MemoryStore(Mutex::new(None));
    let mut long = command();
    long.operation_id = "ą".repeat(128);
    let order = create_issuance(&store, &long).unwrap();
    assert_eq!(order.operation_id, "ą".repeat(128));
    let other = MemoryStore(Mutex::new(None));
    long.operation_id = "ą".repeat(129);
    assert_eq!(
        create_issuance(&other, &long),
        Err(IssuanceError::Invalid(
            "operationId must contain 1-128 characters".into()
        ))
    );
    assert!(other.0.lock().unwrap().is_none());
}

#[test]
fn a_valid_issuance_request_returns_what_the_store_answers() {
    let store = MemoryStore(Mutex::new(None));
    let mut first = command();
    first.amount_usd_minor = "100".into();
    create_issuance(&store, &first).unwrap();
    assert_eq!(
        create_issuance(&store, &command()),
        Err(IssuanceError::IdempotencyConflict)
    );
}

#[test]
fn redemption_operation_id_limit_counts_characters() {
    let store = Redemptions(Mutex::new(None));
    let holder = "0x0000000000000000000000000000000000000001";
    let order = create_redemption(&store, &"é".repeat(128), holder, "10000").unwrap();
    assert_eq!(order.payout_reference, format!("redemption-{}", "é".repeat(128)));
    let other = Redemptions(Mutex::new(None));
    assert_eq!(
        create_redemption(&other, &"é".repeat(129), holder, "10000"),
        Err(RedemptionError::Invalid(
            "operationId must contain 1-128 characters".into()
        ))
    );
    assert!(other.0.lock().unwrap().is_none());
}

struct FailingLog;

impl OperationDecisionStore for FailingLog {
    fn append(&self, _: &OperationDecision) -> Result<(), OperationGateError> {
        Err(OperationGateError::Storage("log is full".into()))
    }
}

struct FailingRestriction;

impl IssuanceRestriction for FailingRestriction {
    fn block_reason(&self) -> Result<Option<String>, OperationGateError> {
        Err(OperationGateError::Storage("restriction unreadable".into()))
    }
}

#[test]
fn a_failing_record_or_restriction_fails_the_decision_with_its_error() {
    let gate: OperationGate<FailingLog, NoRestriction> = OperationGate::new(FailingLog);
    assert_eq!(
        gate.decide("op-1", IssuerOperationKind::Redemption, &asset_state(110)),
        Err(OperationGateError::Storage("log is full".into()))
    );
    let restricted = OperationGate::with_issuance_restriction(Decisions, FailingRestriction);
    assert_eq!(
        restricted.decide("op-2", IssuerOperationKind::Issuance, &asset_state(110)),
        Err(OperationGateError::Storage("restriction unreadable".into()))
    );
    let decision = restricted
        .decide("op-3", IssuerOperationKind::Redemption, &asset_state(110))
        .unwrap();
    assert_eq!(decision.operation_id, "op-3");
}

#[test]
fn a_repeated_create_replays_and_a_different_one_conflicts() {
    let store = MemoryStore(Mutex::new(None));
    let existing = create_issuance(&store, &command()).unwrap();
    let mut again = existing.clone();
    again.created_at_unix_ms += 5;
    assert_eq!(replay_issuance(existing.clone(), &again), Ok(existing.clone()));
    again.amount_usd_minor = "2501".into();
    assert_eq!(
        replay_issuance(existing, &again),
        Err(IssuanceError::IdempotencyConflict)
    );

    let redemptions = Redemptions(Mutex::new(None));
    let stored = create_redemption(
        &redemptions,
        "redemption-9",
        "0x0000000000000000000000000000000000000001",
        "10000",
    )
    .unwrap();
    let mut other = stored.clone();
    assert_eq!(replay_redemption(stored.clone(), &other), Ok(stored.clone()));
    other.holder_address = "0x0000000000000000000000000000000000000002".into();
    assert_eq!(
        replay_redemption(stored, &other),
        Err(RedemptionError::IdempotencyConflict)
    );
}

#[test]
fn a_wind_down_repeats_only_with_the_recorded_reason() {
    assert!(repeats_wind_down("authority decision", "authority decision"));
    assert!(!repeats_wind_down("authority decision", "another reason"));
}
