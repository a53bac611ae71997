use crypto_asset_backend::asset_state::{
    after_coverage, evaluate, parse_state_code, state_code, state_from_load, AssetStateService,
    AssetStateStore,
};
use crypto_asset_backend::domain::{
    AssetState, AssetStateCode, CoverageRatio, CoverageStatus, IssuerOperationKind,
    OperationDecision, OperationDecisionOutcome, ReserveCoverage,
};
use crypto_asset_backend::errors::{AssetStateError, OperationGateError};
use crypto_asset_backend::operation_gate::{
    evaluate_operation, IssuanceRestriction, OperationDecisionStore, OperationGate,
};
use std::sync::Mutex;

fn percent(value: u128, scale: u128) -> Option<CoverageRatio> {
    Some(CoverageRatio {
        reserve_raw: value,
        supply_raw: 100 * scale,
    })
}

#[test]
fn evaluates_all_coverage_boundaries_deterministically() {
    assert_eq!(evaluate(percent(105, 1), Some(1)).state, AssetStateCode::Active);
    assert_eq!(
        evaluate(percent(104_999, 1_000), Some(1)).state,
        AssetStateCode::Warning
    );
    assert_eq!(evaluate(percent(100, 1), Some(1)).state, AssetStateCode::Warning);
    assert_eq!(
        evaluate(percent(99_999, 1_000), Some(1)).state,
        AssetStateCode::MintBlocked
    );
    assert_eq!(evaluate(None, None).state, AssetStateCode::DataUnavailable);
}

#[test]
fn evaluation_records_reason_evidence_and_policy() {
    let state = evaluate(percent(99, 1), Some(5));
    assert_eq!(
        state.reason,
        "Reserve coverage is below 100%; issuance must be blocked"
    );
    assert_eq!(state.evidence_at_unix_ms, Some(5));
    assert_eq!(state.policy_version, "reserve-coverage-v1");
}

struct MemoryStore(Mutex<Option<AssetState>>);

impl AssetStateStore for MemoryStore {
    fn load(&self) -> Result<Option<AssetState>, AssetStateError> {
        Ok(self.0.lock().unwrap().clone())
    }
    fn save(&self, state: &AssetState) -> Result<(), AssetStateError> {
        *self.0.lock().unwrap() = Some(state.clone());
        Ok(())
    }
}

fn coverage(ratio: Option<CoverageRatio>) -> ReserveCoverage {
    ReserveCoverage {
        observed_at_unix_ms: 2,
        bank_as_of_unix_ms: 2,
        reserve_account_id: "reserve-rusd".into(),
        currency: "USD".into(),
        reserve_balance_minor: "11000".into(),
        reserve_balance_usd: "110.00".into(),
        token_supply_raw: "100000000".into(),
        liability_usd: "100".into(),
        surplus_usd: "10".into(),
        ratio,
        status: CoverageStatus::Covered,
    }
}

#[test]
fn wind_down_is_manual_persisted_and_not_reversed_by_polling() {
    let initial = evaluate(percent(110, 1), Some(1));
    let service = AssetStateService::new(MemoryStore(Mutex::new(Some(initial))));
    service.enter_wind_down("authority decision").unwrap();

    assert_eq!(
        service
            .evaluate_coverage(&coverage(percent(110, 1)))
            .unwrap()
            .state
            .state,
        AssetStateCode::WindDown
    );
    assert_eq!(service.current().unwrap().reason, "authority decision");
}

#[test]
fn wind_down_is_not_left_by_outages_or_mint_blocks() {
    let service = AssetStateService::new(MemoryStore(Mutex::new(Some(evaluate(None, None)))));
    let down = service.enter_wind_down("authority decision").unwrap();
    assert!(down.persisted);
    let outage = service.mark_data_unavailable("bank down").unwrap();
    assert!(!outage.persisted);
    assert_eq!(outage.state.state, AssetStateCode::WindDown);
    let block = service.block_mint("shortfall", None, None).unwrap();
    assert!(!block.persisted);
    assert_eq!(service.current().unwrap().state, AssetStateCode::WindDown);
}

#[test]
fn coverage_readings_move_an_active_asset() {
    let service = AssetStateService::new(MemoryStore(Mutex::new(Some(evaluate(
        percent(110, 1),
        Some(1),
    )))));
    let update = service.evaluate_coverage(&coverage(percent(99, 1))).unwrap();
    assert!(update.persisted);
    assert_eq!(update.state.state, AssetStateCode::MintBlocked);
    assert_eq!(update.state.evidence_at_unix_ms, Some(2));
    assert_eq!(service.current().unwrap().state, AssetStateCode::MintBlocked);
    let outage = service.mark_data_unavailable("bank down").unwrap();
    assert_eq!(outage.state.state, AssetStateCode::DataUnavailable);
    assert_eq!(outage.state.reason, "bank down");
    assert_eq!(outage.state.reserve_coverage, None);
}

#[test]
fn an_uninitialized_store_is_an_error() {
    let service = AssetStateService::new(MemoryStore(Mutex::new(None)));
    assert_eq!(
        service.current(),
        Err(AssetStateError::Storage(
            "asset state was not initialized".into()
        ))
    );
}

#[test]
fn after_coverage_keeps_wind_down() {
    let mut current = evaluate(percent(110, 1), Some(1));
    current.state = AssetStateCode::WindDown;
    assert!(after_coverage(&current, &coverage(percent(90, 1)), 9).is_none());
}

#[test]
fn state_codes_round_trip_and_unknown_reads_as_unavailable() {
    for code in [
        AssetStateCode::Active,
        AssetStateCode::Warning,
        AssetStateCode::MintBlocked,
        AssetStateCode::DataUnavailable,
        AssetStateCode::WindDown,
    ] {
        assert_eq!(parse_state_code(state_code(code)), code);
    }
    assert_eq!(state_code(AssetStateCode::MintBlocked), "mint_blocked");
    assert_eq!(
        parse_state_code("something"),
        AssetStateCode::DataUnavailable
    );
}

fn state(code: AssetStateCode) -> AssetState {
    AssetState {
        state: code,
        reason: "test evidence".into(),
        reserve_coverage: percent(99, 1),
        evidence_at_unix_ms: Some(1),
        policy_version: "reserve-coverage-v1".into(),
        updated_at_unix_ms: 1,
    }
}

#[test]
fn issuance_policy_allows_covered_states_and_zero_supply_bootstrap() {
    for code in [AssetStateCode::Active, AssetStateCode::Warning] {
        assert_eq!(
            evaluate_operation(IssuerOperationKind::Issuance, &state(code)).0,
            OperationDecisionOutcome::Allowed
        );
    }
    let zero_supply = AssetState {
        state: AssetStateCode::DataUnavailable,
        reason: "Reserve coverage cannot be calculated without token supply".into(),
        reserve_coverage: None,
        evidence_at_unix_ms: None,
        policy_version: "reserve-coverage-v1".into(),
        updated_at_unix_ms: 1,
    };
    assert_eq!(
        evaluate_operation(IssuerOperationKind::Issuance, &zero_supply).0,
        OperationDecisionOutcome::Allowed
    );
    for code in [AssetStateCode::MintBlocked, AssetStateCode::WindDown] {
        assert_eq!(
            evaluate_operation(IssuerOperationKind::Issuance, &state(code)).0,
            OperationDecisionOutcome::Rejected
        );
    }
    let unavailable = state(AssetStateCode::DataUnavailable);
    assert_eq!(
        evaluate_operation(IssuerOperationKind::Issuance, &unavailable).0,
        OperationDecisionOutcome::Rejected
    );
}

#[test]
fn redemption_policy_allows_every_asset_state() {
    for code in [
        AssetStateCode::Active,
        AssetStateCode::Warning,
        AssetStateCode::MintBlocked,
        AssetStateCode::DataUnavailable,
        AssetStateCode::WindDown,
    ] {
        assert_eq!(
            evaluate_operation(IssuerOperationKind::Redemption, &state(code)).0,
            OperationDecisionOutcome::Allowed
        );
    }
}

#[test]
fn decision_reasons_name_the_state() {
    assert_eq!(
        evaluate_operation(IssuerOperationKind::Issuance, &state(AssetStateCode::Active)).1,
        "issuance is allowed in active"
    );
    assert_eq!(
        evaluate_operation(IssuerOperationKind::Issuance, &state(AssetStateCode::MintBlocked)).1,
        "issuance is blocked in mint_blocked: test evidence"
    );
    assert_eq!(
        evaluate_operation(IssuerOperationKind::Redemption, &state(AssetStateCode::WindDown)).1,
        "redemption at par remains allowed in wind_down"
    );
}

struct Decisions(Mutex<Vec<OperationDecision>>);

impl OperationDecisionStore for Decisions {
    fn append(&self, decision: &OperationDecision) -> Result<(), OperationGateError> {
        self.0.lock().unwrap().push(decision.clone());
        Ok(())
    }
}

struct ActivityBlock;

impl IssuanceRestriction for ActivityBlock {
    fn block_reason(&self) -> Result<Option<String>, OperationGateError> {
        Ok(Some("Article 23 threshold evidence".into()))
    }
}

#[test]
fn persisted_activity_restriction_blocks_issuance_even_when_reserves_are_active() {
    let gate = OperationGate::with_issuance_restriction(
        Decisions(Mutex::new(Vec::new())),
        ActivityBlock,
    );
    let decision = gate
        .decide(
            "issuance",
            IssuerOperationKind::Issuance,
            &state(AssetStateCode::Active),
        )
        .unwrap();
    assert_eq!(decision.outcome, OperationDecisionOutcome::Rejected);
    assert_eq!(decision.reason, "Article 23 threshold evidence");
}

#[test]
fn restriction_does_not_touch_redemptions_and_decisions_are_recorded() {
    let gate = OperationGate::with_issuance_restriction(
        Decisions(Mutex::new(Vec::new())),
        ActivityBlock,
    );
    let decision = gate
        .decide(
            "redeem-1",
            IssuerOperationKind::Redemption,
            &state(AssetStateCode::Active),
        )
        .unwrap();
    assert_eq!(decision.outcome, OperationDecisionOutcome::Allowed);
    assert_eq!(decision.operation_id, "redeem-1");
    assert_eq!(decision.asset_state, "active");
    let plain: OperationGate<Decisions, ActivityBlock> =
        OperationGate::new(Decisions(Mutex::new(Vec::new())));
    let allowed = plain
        .decide(
            "issue-1",
            IssuerOperationKind::Issuance,
            &state(AssetStateCode::Warning),
        )
        .unwrap();
    assert_eq!(allowed.outcome, OperationDecisionOutcome::Allowed);
}

#[test]
fn what_the_store_loaded_decides_the_current_state() {
    let stored = evaluate(percent(110, 1), Some(4));
    assert_eq!(state_from_load(Ok(Some(stored.clone()))), Ok(stored));
    assert_eq!(
        state_from_load(Ok(None)),
        Err(AssetStateError::Storage(
            "asset state was not initialized".into()
        ))
    );
    assert_eq!(
        state_from_load(Err(AssetStateError::Storage("disk".into()))),
        Err(AssetStateError::Storage("disk".into()))
    );
}
