use crypto_asset_backend::api::{
    api_error_from_casp_reporting, api_error_from_issuance, api_error_from_redemption,
    api_error_from_reserve_adjustment, health_check, parse_evm_address, parse_generic_id,
    parse_reason, validate_iso_date, validate_minor_amount, ApiError, CaspRangeQuery,
    QuarterQuery,
};
use crypto_asset_backend::errors::{
    CaspReportingError, IssuanceError, RedemptionError, ReserveAdjustmentError,
};
use crypto_asset_backend::monitors::PollingStatus;

#[test]
fn rejects_malformed_reporting_date_before_calling_the_service() {
    let query = CaspRangeQuery {
        from: "2026/09/04".into(),
        to: "2026-09-04".into(),
    };
    assert!(query.validate().is_err());
}

#[test]
fn rejects_quarter_outside_the_calendar_range() {
    let query = QuarterQuery {
        year: 2026,
        quarter: 5,
    };
    assert!(query.validate().is_err());
}

#[test]
fn operation_id_accepts_128_characters() {
    assert!(parse_generic_id("a".repeat(128)).is_ok());
}

#[test]
fn operation_id_rejects_more_than_128_characters() {
    let error = match parse_generic_id("a".repeat(129)) {
        Ok(_) => panic!("an identifier longer than 128 characters was accepted"),
        Err(error) => error,
    };
    assert!(error.contains("od 1 do 128 znaków"));
}

#[test]
fn operation_id_limit_counts_characters_not_utf8_bytes() {
    assert!(parse_generic_id("ą".repeat(128)).is_ok());
}

#[test]
fn ethereum_address_is_parsed_and_normalized() {
    let normalized =
        parse_evm_address("0x0000000000000000000000000000000000000001".to_owned()).unwrap();
    assert_eq!(normalized, "0x0000000000000000000000000000000000000001");
}

#[test]
fn evm_address_is_trimmed_and_checksummed() {
    let normalized =
        parse_evm_address("  0x5aaeb6053f3e94c9b9a09f33669435e7ef1beaed ".to_owned()).unwrap();
    assert_eq!(normalized, "0x5aAeb6053F3E94C9b9A09f33669435E7Ef1BeAed");
}

#[test]
fn evm_address_rejects_invalid_text() {
    assert_eq!(
        parse_evm_address("0x12".to_owned()),
        Err("adres musi być poprawnym adresem Ethereum".to_owned())
    );
}

#[test]
fn text_fields_are_trimmed_and_reasons_allow_500_characters() {
    let id = parse_generic_id("  order-1  ".to_owned()).unwrap();
    assert_eq!(id.as_str(), "order-1");
    assert!(parse_reason("r".repeat(500)).is_ok());
    assert_eq!(
        parse_reason("   ".to_owned()).err().unwrap(),
        "reason musi zawierać od 1 do 500 znaków"
    );
}

#[test]
fn minor_amount_must_be_a_positive_integer() {
    assert!(validate_minor_amount("amountUsdMinor", "2500").is_ok());
    assert_eq!(
        validate_minor_amount("amountUsdMinor", "0").unwrap_err().0,
        "amountUsdMinor musi być dodatnią liczbą całkowitą"
    );
    assert!(validate_minor_amount("amountUsdMinor", "-1").is_err());
    assert!(validate_minor_amount("amountUsdMinor", "1.5").is_err());
    assert!(validate_minor_amount("amountUsdMinor", "18446744073709551616").is_err());
}

#[test]
fn iso_date_shape_is_checked_character_by_character() {
    assert!(validate_iso_date("from", "2026-09-04").is_ok());
    assert_eq!(
        validate_iso_date("to", "2026-9-04").unwrap_err().0,
        "to musi mieć format RRRR-MM-DD"
    );
    assert!(validate_iso_date("to", "2026-09-0a").is_err());
    let both = CaspRangeQuery {
        from: "x".into(),
        to: "y".into(),
    };
    assert_eq!(
        both.validate().unwrap_err().0,
        "from musi mieć format RRRR-MM-DD"
    );
}

#[test]
fn quarter_query_accepts_the_four_quarters() {
    for quarter in 1..=4 {
        assert!(QuarterQuery {
            year: 2026,
            quarter
        }
        .validate()
        .is_ok());
    }
    assert_eq!(
        QuarterQuery {
            year: 2026,
            quarter: 0
        }
        .validate()
        .unwrap_err()
        .0,
        "quarter musi należeć do zakresu 1–4"
    );
}

#[test]
fn blocked_issuance_has_a_stable_code_and_polish_user_message() {
    let error = api_error_from_issuance(IssuanceError::IssuanceBlocked("wind-down".into()));
    assert_eq!(error.status_code(), 409);
    assert_eq!(error.code(), "issuance_blocked");
    assert_eq!(
        error.user_message(),
        Some("Emisja rUSD jest obecnie zablokowana przez emitenta.")
    );
    assert_eq!(error.message(), "issuance is blocked: wind-down");
}

#[test]
fn service_errors_map_to_http_answers() {
    let invalid = api_error_from_issuance(IssuanceError::Invalid("x".into()));
    assert_eq!((invalid.status_code(), invalid.code()), (400, "bad_request"));
    assert_eq!(invalid.user_message(), None);
    let missing = api_error_from_issuance(IssuanceError::NotFound);
    assert_eq!(missing.status_code(), 404);
    assert_eq!(
        api_error_from_issuance(IssuanceError::FiatNotConfirmed).status_code(),
        409
    );
    assert_eq!(
        api_error_from_issuance(IssuanceError::Bank("down".into())).status_code(),
        503
    );
    assert_eq!(
        api_error_from_issuance(IssuanceError::Storage("disk".into())).status_code(),
        500
    );
    assert_eq!(
        api_error_from_redemption(RedemptionError::IdempotencyConflict).status_code(),
        409
    );
    assert_eq!(
        api_error_from_redemption(RedemptionError::Bank("x".into())).status_code(),
        500
    );
    assert_eq!(
        api_error_from_reserve_adjustment(ReserveAdjustmentError::Bank("x".into())).code(),
        "service_unavailable"
    );
    let range = api_error_from_casp_reporting(CaspReportingError::InvalidRange);
    assert_eq!(range.status_code(), 400);
    assert_eq!(range.message(), "invalid CASP reporting date range");
    assert_eq!(
        api_error_from_casp_reporting(CaspReportingError::Source("x".into())).status_code(),
        503
    );
    assert_eq!(
        api_error_from_casp_reporting(CaspReportingError::Overflow).status_code(),
        500
    );
}

#[test]
fn health_reports_the_polling_error_when_unhealthy() {
    let healthy = PollingStatus {
        is_healthy: true,
        last_success_at_unix_ms: Some(7),
        last_error: None,
    };
    assert_eq!(health_check(&healthy), Ok(Some(7)));
    let failed = PollingStatus {
        is_healthy: false,
        last_success_at_unix_ms: Some(7),
        last_error: Some("rpc down".into()),
    };
    assert_eq!(
        health_check(&failed),
        Err(ApiError::Unavailable("rpc down".into()))
    );
    let stale = PollingStatus {
        is_healthy: false,
        last_success_at_unix_ms: None,
        last_error: None,
    };
    assert_eq!(
        health_check(&stale),
        Err(ApiError::Unavailable(
            "poller has no recent successful read".into()
        ))
    );
}
