use crypto_asset_backend::domain::{BankReserve, CoverageStatus};
use crypto_asset_backend::errors::{ReserveAdjustmentError, ReserveError};
use crypto_asset_backend::monitors::{unavailable_reason, ReserveMonitorState};
use crypto_asset_backend::reserve_adjustment::{
    parse_usd_minor, AdjustReserve, ReserveAdjustmentDirection, ReserveAdjustmentService,
};
use crypto_asset_backend::reserves::{calculate_coverage, initial_reserve_target_minor};

fn bank(balance_minor: &str) -> BankReserve {
    BankReserve {
        account_id: "reserve-rusd".to_owned(),
        currency: "USD".to_owned(),
        balance_minor: balance_minor.to_owned(),
        version: 1,
        as_of_unix_ms: 1,
    }
}

#[test]
fn calculates_initial_reserve_at_110_percent_and_rounds_up() {
    assert_eq!(
        initial_reserve_target_minor("10250000000", 6).unwrap(),
        1_127_500
    );
    assert_eq!(initial_reserve_target_minor("1", 6).unwrap(), 1)
}

#[test]
fn initial_reserve_rejects_too_few_decimals_and_bad_supply() {
    assert_eq!(
        initial_reserve_target_minor("100", 1),
        Err(ReserveError::InvalidValue(
            "token must expose at least two decimals".into()
        ))
    );
    assert_eq!(
        initial_reserve_target_minor("12a", 6),
        Err(ReserveError::InvalidValue("12a".into()))
    );
    assert_eq!(initial_reserve_target_minor("0", 2), Ok(0));
    assert_eq!(initial_reserve_target_minor("100", 2), Ok(110));
}

#[test]
fn calculates_coverage_with_integer_money_units() {
    let covered = calculate_coverage("4300000000", 6, bank("450000")).unwrap();
    assert_eq!(covered.reserve_balance_usd, "4500.00");
    assert_eq!(covered.liability_usd, "4300");
    assert_eq!(covered.surplus_usd, "200");
    assert_eq!(covered.status, CoverageStatus::Covered);
    let ratio = covered.ratio.unwrap();
    let percent = ratio.reserve_raw as f64 * 100.0 / ratio.supply_raw as f64;
    assert!((percent - 104.65116279).abs() < 0.000001);
    let missing = calculate_coverage("4300000000", 6, bank("390000")).unwrap();
    assert_eq!(missing.surplus_usd, "-400");
    assert_eq!(missing.status, CoverageStatus::Undercollateralized);
}

#[test]
fn rejects_wrong_currency_and_handles_zero_supply() {
    let mut eur = bank("100");
    eur.currency = "EUR".to_owned();
    assert!(matches!(
        calculate_coverage("0", 6, eur),
        Err(ReserveError::Currency(_))
    ));
    assert_eq!(calculate_coverage("0", 6, bank("100")).unwrap().ratio, None);
}

#[test]
fn startup_without_token_does_not_invalidate_last_valid_coverage() {
    let mut monitor = ReserveMonitorState::new();
    let coverage = calculate_coverage("4000000000", 6, bank("500000")).unwrap();
    monitor.success(coverage.clone());

    monitor.record_poll_failure(&ReserveError::TokenUnavailable);

    assert_eq!(monitor.latest().unwrap(), coverage);
}

#[test]
fn bank_failure_marks_reserve_data_as_unavailable() {
    let mut monitor = ReserveMonitorState::new();
    monitor.success(calculate_coverage("4000000000", 6, bank("500000")).unwrap());

    monitor.record_poll_failure(&ReserveError::Bank("connection refused".to_owned()));

    assert!(matches!(monitor.latest(), Err(ReserveError::Bank(_))));
}

#[test]
fn reserve_monitor_reports_no_reading_before_the_first_success() {
    let monitor = ReserveMonitorState::new();
    assert_eq!(monitor.latest(), Err(ReserveError::TokenUnavailable));
    assert_eq!(
        unavailable_reason(&ReserveError::TokenUnavailable),
        "Token supply is unavailable, so reserve coverage cannot be evaluated"
    );
    assert_eq!(
        unavailable_reason(&ReserveError::Bank("down".into())),
        "mock bank request failed: down"
    );
}

#[test]
fn converts_usd_exactly_and_passes_auditable_context() {
    let service = ReserveAdjustmentService::new(());
    let adjustment = service
        .prepare(&AdjustReserve {
            operation_id: "test-1".into(),
            direction: ReserveAdjustmentDirection::Withdrawal,
            amount_usd: "12.30".into(),
            reason: "shortfall test".into(),
        })
        .unwrap();
    assert_eq!(
        (
            adjustment.operation_id,
            adjustment.direction,
            adjustment.amount_minor,
            adjustment.reason
        ),
        (
            "test-1".to_owned(),
            ReserveAdjustmentDirection::Withdrawal,
            1230,
            "shortfall test".to_owned()
        )
    );
}

#[test]
fn rejects_zero_negative_and_excess_precision() {
    for value in ["0", "-1", "1.001", "", ".50"] {
        assert!(parse_usd_minor(value).is_err(), "{value}");
    }
}

#[test]
fn parses_whole_one_and_two_digit_fractions() {
    assert_eq!(parse_usd_minor("12"), Ok(1200));
    assert_eq!(parse_usd_minor(" 12.3 "), Ok(1230));
    assert_eq!(parse_usd_minor("0.05"), Ok(5));
    assert_eq!(
        parse_usd_minor("12."),
        Err(ReserveAdjustmentError::Invalid(
            "amountUsd must be a positive decimal with at most two fractional digits".into()
        ))
    );
    assert!(parse_usd_minor("1.2.3").is_err());
    assert!(parse_usd_minor("184467440737095516.16").is_err());
    assert_eq!(parse_usd_minor("184467440737095516.15"), Ok(u64::MAX));
}

#[test]
fn adjustment_requires_identifier_and_reason() {
    let service = ReserveAdjustmentService::new(());
    let mut command = AdjustReserve {
        operation_id: "   ".into(),
        direction: ReserveAdjustmentDirection::Deposit,
        amount_usd: "1".into(),
        reason: "r".into(),
    };
    assert_eq!(
        service.prepare(&command).unwrap_err(),
        ReserveAdjustmentError::Invalid("operationId must contain 1-128 characters".into())
    );
    command.operation_id = "op".into();
    command.reason = "r".repeat(501);
    assert_eq!(
        service.prepare(&command).unwrap_err(),
        ReserveAdjustmentError::Invalid("reason must contain 1-500 characters".into())
    );
}
