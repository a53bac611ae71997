use crypto_asset_backend::chain::{
    contract_reserve_state, count_unique_transaction_hashes, desired_reserve_state, freeze_write,
    reserve_state_write, restriction_write,
};
use crypto_asset_backend::codes::{
    decision_code, issuance_status_code, operation_kind, outcome, parse_redemption_status,
    parse_status, redemption_status_code,
};
use crypto_asset_backend::compliance::{
    usd_minor_to_eur_minor, EUR_MINOR_UNITS, EUR_USD_RATE_VERSION, USD_MINOR_UNITS,
};
use crypto_asset_backend::domain::{
    AssetStateCode, CoverageDecisionCode, IssuanceStatus, IssuerOperationKind,
    OperationDecisionOutcome, RedemptionStatus,
};
use crypto_asset_backend::esg::{
    advance_checkpoint, data_origin_label, estimate, estimate_status, observation_increment,
    resume_block,
};

#[test]
fn applies_the_explicit_demo_only_parity_rate() {
    assert_eq!(usd_minor_to_eur_minor(20_000_000_001), Some(20_000_000_001));
    assert_eq!(USD_MINOR_UNITS, EUR_MINOR_UNITS);
    assert!(EUR_USD_RATE_VERSION.contains("fixed-parity-demo"));
}

#[test]
fn parity_conversion_keeps_the_largest_value() {
    assert_eq!(usd_minor_to_eur_minor(u128::MAX), Some(u128::MAX));
    assert_eq!(usd_minor_to_eur_minor(0), Some(0));
}

#[test]
fn applies_the_documented_per_transaction_baseline() {
    let result = estimate("2026-08-22".to_owned(), 2, "provisional");
    assert_eq!(result.energy_lower_milliwh as f64 / 1_000.0, 6.3);
    assert_eq!(result.energy_best_guess_milliwh as f64 / 1_000.0, 39.35);
    assert_eq!(result.energy_upper_milliwh as f64 / 1_000.0, 57.45);
    assert_eq!(result.emissions_milligram_co2e as f64 / 1_000.0, 11.85);
    assert_eq!(result.renewable_energy_microwh as f64 / 1_000_000.0, 15.46455);
}

#[test]
fn estimate_keeps_integer_units_and_saturates() {
    let result = estimate("2026-08-22".to_owned(), 2, "finalized");
    assert_eq!(result.energy_best_guess_milliwh, 39_350);
    assert_eq!(result.nuclear_energy_microwh, 39_350 * 170);
    assert_eq!(result.fossil_energy_microwh, 39_350 * 436);
    assert_eq!(result.status, "finalized");
    assert_eq!(result.data_origin, "observed");
    let huge = estimate("2026-08-22".to_owned(), u64::MAX, "provisional");
    assert_eq!(huge.energy_upper_milliwh, u64::MAX);
    assert_eq!(huge.renewable_energy_microwh, u64::MAX);
}

#[test]
fn polling_resumes_after_the_checkpoint() {
    assert_eq!(resume_block(None), 0);
    assert_eq!(resume_block(Some(40)), 41);
    assert_eq!(resume_block(Some(u64::MAX)), u64::MAX);
}

#[test]
fn replayed_blocks_add_nothing_and_checkpoint_never_regresses() {
    assert_eq!(observation_increment(None, 40, 3), 3);
    assert_eq!(observation_increment(Some(40), 42, 2), 2);
    assert_eq!(observation_increment(Some(42), 42, 2), 0);
    assert_eq!(observation_increment(Some(42), 41, 5), 0);
    assert_eq!(advance_checkpoint(Some(42), 41), 42);
    assert_eq!(advance_checkpoint(Some(40), 42), 42);
    assert_eq!(advance_checkpoint(None, 7), 7);
}

#[test]
fn estimate_labels_follow_storage() {
    assert_eq!(estimate_status(true), "finalized");
    assert_eq!(estimate_status(false), "provisional");
    assert_eq!(data_origin_label("demo_seed"), "demoSeed");
    assert_eq!(data_origin_label("observed"), "observed");
}

#[test]
fn maps_missing_evidence_to_fail_closed_contract_state() {
    assert_eq!(contract_reserve_state(AssetStateCode::Active), 0);
    assert_eq!(contract_reserve_state(AssetStateCode::Warning), 1);
    assert_eq!(contract_reserve_state(AssetStateCode::MintBlocked), 2);
    assert_eq!(contract_reserve_state(AssetStateCode::DataUnavailable), 2);
}

#[test]
fn wind_down_is_left_to_the_lifecycle_and_equal_states_are_not_rewritten() {
    assert_eq!(desired_reserve_state(AssetStateCode::WindDown), None);
    assert_eq!(desired_reserve_state(AssetStateCode::Warning), Some(1));
    assert_eq!(reserve_state_write(2, 2), None);
    assert_eq!(reserve_state_write(2, 0), Some(2));
    assert_eq!(freeze_write(true, true), None);
    assert_eq!(freeze_write(false, true), Some(true));
}

#[test]
fn restriction_is_rewritten_only_when_flag_or_evidence_changes() {
    let a = [1u8; 32];
    let b = [2u8; 32];
    assert_eq!(restriction_write(true, &a, true, &a), None);
    assert_eq!(restriction_write(true, &a, true, &b), Some(true));
    assert_eq!(restriction_write(true, &a, false, &a), Some(false));
    assert_eq!(restriction_write(false, &b, true, &b), Some(true));
}

#[test]
fn counts_each_transaction_once_and_ignores_logs_without_a_hash() {
    let first = alloy::primitives::B256::repeat_byte(1);
    let second = alloy::primitives::B256::repeat_byte(2);
    assert_eq!(
        count_unique_transaction_hashes(&vec![
            Some(first.0),
            Some(first.0),
            None,
            Some(second.0)
        ]),
        2
    );
}

#[test]
fn counts_no_transactions_without_logs() {
    assert_eq!(count_unique_transaction_hashes(&Vec::new()), 0);
    assert_eq!(count_unique_transaction_hashes(&vec![None, None]), 0);
}

#[test]
fn stored_codes_round_trip() {
    for status in [
        IssuanceStatus::AwaitingFiat,
        IssuanceStatus::Minting,
        IssuanceStatus::Completed,
        IssuanceStatus::Failed,
    ] {
        assert_eq!(parse_status(issuance_status_code(status)), status);
    }
    for status in [
        RedemptionStatus::Created,
        RedemptionStatus::Burned,
        RedemptionStatus::Completed,
        RedemptionStatus::Failed,
    ] {
        assert_eq!(parse_redemption_status(redemption_status_code(status)), status);
    }
    assert_eq!(parse_status("unknown"), IssuanceStatus::Failed);
    assert_eq!(decision_code(CoverageDecisionCode::DataUnavailable), "data_unavailable");
    assert_eq!(operation_kind(IssuerOperationKind::Redemption), "redemption");
    assert_eq!(outcome(OperationDecisionOutcome::Allowed), "allowed");
}
