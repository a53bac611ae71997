use crypto_asset_backend::casp_reporting::{
    assess_quarter, check_report_days, demo_threshold_report, exact_quarter, quarter_range,
    standing_issuance_block, valid_date, validate_range, CaspReportStore, CaspReportingService,
    DAILY_TRANSACTION_THRESHOLD, QUARTERLY_METHODOLOGY_VERSION,
};
use crypto_asset_backend::domain::{
    CaspDailyAggregate, CaspDailyReport, ClassificationAggregate, QuarterlyTransactionAssessment,
};
use crypto_asset_backend::errors::CaspReportingError;
use std::sync::Mutex;

#[derive(Default)]
struct Store {
    days: Mutex<Vec<CaspDailyAggregate>>,
    imports: Mutex<Vec<(String, String)>>,
    block: Mutex<Option<String>>,
}

impl Store {
    fn block_reason(&self) -> Option<String> {
        self.block.lock().unwrap().clone()
    }
}

impl CaspReportStore for Store {
    fn import(&self, report: &CaspDailyReport) -> Result<(), CaspReportingError> {
        let mut days = self.days.lock().unwrap();
        for day in &report.days {
            days.retain(|d| d.date_utc != day.date_utc);
            days.push(day.clone());
        }
        days.sort_by(|a, b| a.date_utc.cmp(&b.date_utc));
        self.imports
            .lock()
            .unwrap()
            .push((report.from_date_utc.clone(), report.to_date_utc.clone()));
        Ok(())
    }
    fn daily(&self, from: &str, to: &str) -> Result<Vec<CaspDailyAggregate>, CaspReportingError> {
        Ok(self
            .days
            .lock()
            .unwrap()
            .iter()
            .filter(|d| d.date_utc.as_str() >= from && d.date_utc.as_str() <= to)
            .cloned()
            .collect())
    }
    fn range_was_imported(&self, from: &str, to: &str) -> Result<bool, CaspReportingError> {
        Ok(self
            .imports
            .lock()
            .unwrap()
            .iter()
            .any(|(f, t)| f.as_str() <= from && t.as_str() >= to))
    }
    fn save_assessment(
        &self,
        assessment: &QuarterlyTransactionAssessment,
    ) -> Result<(), CaspReportingError> {
        *self.block.lock().unwrap() = standing_issuance_block(assessment);
        Ok(())
    }
}

fn day(count: u64) -> CaspDailyAggregate {
    CaspDailyAggregate {
        date_utc: "2026-01-01".into(),
        asset_symbol: "rUSD".into(),
        currency_area: "USD".into(),
        total_operation_count: count,
        total_value_raw: "18000000000900000".into(),
        total_value_usd_minor: "1800000000090".into(),
        means_of_exchange_count: count,
        means_of_exchange_value_raw: "18000000000900000".into(),
        means_of_exchange_value_usd_minor: "1800000000090".into(),
        means_of_exchange_value_eur_minor: "1800000000090".into(),
        excluded_operation_count: 0,
        known_onchain_overlap_count: 0,
        known_onchain_overlap_value_raw: "0".into(),
        classifications: vec![ClassificationAggregate {
            classification: "goods_or_services".into(),
            operation_count: count,
            value_raw: "18000000000900000".into(),
        }],
        methodology_version: "casp-daily-activity-v1".into(),
        conversion_methodology: "demo-usd-eur-parity-v1".into(),
    }
}

fn average_daily_operation_count(a: &QuarterlyTransactionAssessment) -> f64 {
    a.means_of_exchange_operation_count as f64 / a.calendar_day_count as f64
}

fn average_daily_value_eur(a: &QuarterlyTransactionAssessment) -> f64 {
    a.means_of_exchange_value_eur_minor.parse::<u64>().unwrap() as f64
        / 100.0
        / a.calendar_day_count as f64
}

#[test]
fn full_quarter_import_makes_threshold_evidence_enforceable() {
    let report = CaspDailyReport {
        from_date_utc: "2026-01-01".into(),
        to_date_utc: "2026-03-31".into(),
        days: vec![day(90_000_090)],
    };
    let service = CaspReportingService::new(Store::default());
    validate_range("2026-01-01", "2026-03-31").unwrap();
    service
        .ingest_fetched("2026-01-01", "2026-03-31", report)
        .unwrap();
    let assessment = service.quarterly(2026, 1).unwrap();
    assert!(assessment.complete_source_range);
    assert!(assessment.threshold_breached);
    assert!(assessment.threshold_enforceable);
    assert!(average_daily_operation_count(&assessment) > 1_000_000.0);
    assert!(service.store.block_reason().is_some());
}

#[test]
fn incomplete_range_never_becomes_enforceable() {
    let report = CaspDailyReport {
        from_date_utc: "2026-01-01".into(),
        to_date_utc: "2026-01-01".into(),
        days: vec![day(90_000_090)],
    };
    let service = CaspReportingService::new(Store::default());
    let imported = service
        .ingest_fetched("2026-01-01", "2026-01-01", report)
        .unwrap();
    assert!(imported.assessment.is_none());
    let assessment = service.quarterly(2026, 1).unwrap();
    assert!(assessment.threshold_breached);
    assert!(!assessment.complete_source_range);
    assert!(!assessment.threshold_enforceable);
}

#[test]
fn demo_scenario_exceeds_both_thresholds_and_invokes_onchain_control() {
    let service = CaspReportingService::new(Store::default());
    let mut controller = false;

    let imported = service.import_demo_threshold_breach(2026, 2).unwrap();
    if let Some(a) = &imported.assessment {
        controller = a.threshold_enforceable;
    }
    let assessment = service.quarterly(2026, 2).unwrap();

    assert_eq!(assessment.calendar_day_count, 91);
    assert_eq!(average_daily_operation_count(&assessment), 1_000_001.0);
    assert!(average_daily_value_eur(&assessment) > 200_000_000.0);
    assert!(assessment.threshold_enforceable);
    assert!(controller);
    assert!(service.store.block_reason().is_some());

    let mut recovery_day = day(1);
    recovery_day.date_utc = "2026-04-01".into();
    let recovery = service
        .ingest_fetched(
            "2026-04-01",
            "2026-06-30",
            CaspDailyReport {
                from_date_utc: "2026-04-01".into(),
                to_date_utc: "2026-06-30".into(),
                days: vec![recovery_day],
            },
        )
        .unwrap();
    if let Some(a) = &recovery.assessment {
        controller = a.threshold_enforceable;
    }

    assert!(!controller);
    assert!(service.store.block_reason().is_none());
}

#[test]
fn quarter_ranges_follow_the_calendar() {
    assert_eq!(
        quarter_range(2024, 1).unwrap(),
        ("2024-01-01".to_owned(), "2024-03-31".to_owned(), 91)
    );
    assert_eq!(
        quarter_range(2026, 1).unwrap(),
        ("2026-01-01".to_owned(), "2026-03-31".to_owned(), 90)
    );
    assert_eq!(
        quarter_range(2026, 2).unwrap(),
        ("2026-04-01".to_owned(), "2026-06-30".to_owned(), 91)
    );
    assert_eq!(
        quarter_range(2026, 3).unwrap(),
        ("2026-07-01".to_owned(), "2026-09-30".to_owned(), 92)
    );
    assert_eq!(
        quarter_range(2026, 4).unwrap(),
        ("2026-10-01".to_owned(), "2026-12-31".to_owned(), 92)
    );
    assert_eq!(
        quarter_range(1900, 1).unwrap().2,
        90,
        "1900 is not a leap year"
    );
    assert_eq!(quarter_range(2000, 1).unwrap().2, 91);
    assert_eq!(quarter_range(-5, 4).unwrap().0, "-005-10-01");
    assert_eq!(quarter_range(7, 1).unwrap().0, "0007-01-01");
    assert_eq!(quarter_range(2026, 0), Err(CaspReportingError::InvalidRange));
    assert_eq!(quarter_range(2026, 5), Err(CaspReportingError::InvalidRange));
}

#[test]
fn exact_quarter_recognises_only_whole_quarters() {
    assert_eq!(exact_quarter("2026-04-01", "2026-06-30"), Some((2026, 2)));
    assert_eq!(exact_quarter("2024-01-01", "2024-03-31"), Some((2024, 1)));
    assert_eq!(exact_quarter("2026-01-01", "2026-03-30"), None);
    assert_eq!(exact_quarter("2026-01-01", "2026-01-01"), None);
    assert_eq!(exact_quarter("-005-01-01", "-005-03-31"), Some((-5, 1)));
    assert_eq!(exact_quarter("+026-01-01", "+026-03-31"), None);
    assert_eq!(exact_quarter("12345-01-01", "12345-03-31"), None);
    assert_eq!(exact_quarter("x", "y"), None);
}

#[test]
fn dates_must_exist_in_the_calendar() {
    assert!(valid_date("2024-02-29"));
    assert!(!valid_date("2023-02-29"));
    assert!(!valid_date("2026-13-01"));
    assert!(!valid_date("2026-04-31"));
    assert!(!valid_date("2026-04-00"));
    assert!(!valid_date("2026/04/01"));
    assert!(!valid_date("2026-4-01"));
    assert_eq!(validate_range("2026-01-02", "2026-01-01"), Err(CaspReportingError::InvalidRange));
    assert_eq!(validate_range("2026-01-01", "2026-01-01"), Ok(()));
}

#[test]
fn reports_outside_the_contract_are_refused() {
    let service = CaspReportingService::new(Store::default());
    let mut foreign = day(1);
    foreign.asset_symbol = "rEUR".into();
    let refused = service.import_report("2026-01-01", "2026-01-31", CaspDailyReport {
        from_date_utc: "2026-01-01".into(),
        to_date_utc: "2026-01-31".into(),
        days: vec![foreign],
    });
    assert_eq!(
        refused.err(),
        Some(CaspReportingError::SourceContract(
            "CASP aggregate violates the rUSD reporting contract".into()
        ))
    );
    let mut late = day(1);
    late.date_utc = "2026-02-01".into();
    assert!(check_report_days("2026-01-01", "2026-01-31", &vec![late]).is_err());
    let wrong_range = service.ingest_fetched("2026-01-01", "2026-01-31", CaspDailyReport {
        from_date_utc: "2026-01-02".into(),
        to_date_utc: "2026-01-31".into(),
        days: Vec::new(),
    });
    assert_eq!(
        wrong_range.err(),
        Some(CaspReportingError::SourceContract(
            "CASP returned a different date range".into()
        ))
    );
    assert_eq!(
        service.ingest_fetched("2026-02-30", "2026-03-01", CaspDailyReport {
            from_date_utc: "2026-02-30".into(),
            to_date_utc: "2026-03-01".into(),
            days: Vec::new(),
        }).err(),
        Some(CaspReportingError::InvalidRange)
    );
    assert_eq!(service.daily("2026-03-01", "2026-02-01").err(), Some(CaspReportingError::InvalidRange));
}

#[test]
fn assessment_sums_counts_and_values_and_reports_the_thresholds() {
    let mut second = day(5);
    second.date_utc = "2026-01-02".into();
    second.means_of_exchange_value_eur_minor = "10".into();
    let a = assess_quarter(2026, 1, &vec![day(7), second], false).unwrap();
    assert_eq!(a.means_of_exchange_operation_count, 12);
    assert_eq!(a.means_of_exchange_value_eur_minor, "1800000000100");
    assert_eq!(a.imported_activity_day_count, 2);
    assert_eq!(a.transaction_count_threshold, DAILY_TRANSACTION_THRESHOLD);
    assert_eq!(a.transaction_value_threshold_eur, "200000000");
    assert_eq!(a.methodology_version, QUARTERLY_METHODOLOGY_VERSION);
    assert_eq!((a.from_date_utc.as_str(), a.to_date_utc.as_str()), ("2026-01-01", "2026-03-31"));
    assert!(!a.threshold_breached);
}

#[test]
fn assessment_thresholds_are_strict_averages() {
    let mut exact = day(90_000_000);
    exact.means_of_exchange_value_eur_minor = "1800000000001".into();
    let a = assess_quarter(2026, 1, &vec![exact], true).unwrap();
    assert!(!a.threshold_breached, "an average equal to the threshold is not above it");
    let mut above = day(90_000_001);
    above.means_of_exchange_value_eur_minor = "1800000000001".into();
    let b = assess_quarter(2026, 1, &vec![above], true).unwrap();
    assert!(b.threshold_breached && b.threshold_enforceable);
}

#[test]
fn assessment_reports_invalid_values_and_overflow() {
    let mut bad = day(1);
    bad.means_of_exchange_value_eur_minor = "12.5".into();
    assert_eq!(
        assess_quarter(2026, 1, &vec![bad], true).err(),
        Some(CaspReportingError::SourceContract("invalid EUR value".into()))
    );
    let mut big = day(1);
    big.means_of_exchange_value_eur_minor = u64::MAX.to_string();
    assert_eq!(
        assess_quarter(2026, 1, &vec![big.clone(), big], true).err(),
        Some(CaspReportingError::Overflow)
    );
    assert_eq!(
        assess_quarter(2026, 1, &vec![day(u64::MAX), day(1)], true).err(),
        Some(CaspReportingError::Overflow)
    );
    assert_eq!(
        assess_quarter(2026, 7, &Vec::new(), true).err(),
        Some(CaspReportingError::InvalidRange)
    );
}

#[test]
fn demo_report_is_one_synthetic_quarter_total() {
    let report = demo_threshold_report(2026, 2).unwrap();
    assert_eq!(report.from_date_utc, "2026-04-01");
    assert_eq!(report.to_date_utc, "2026-06-30");
    assert_eq!(report.days.len(), 1);
    let d = &report.days[0];
    assert_eq!(d.date_utc, "2026-04-01");
    assert_eq!(d.means_of_exchange_count, 1_000_001 * 91);
    assert_eq!(d.means_of_exchange_value_eur_minor, (20_000_000_001u64 * 91).to_string());
    assert_eq!(d.total_value_raw, (20_000_000_001u64 * 91 * 10_000).to_string());
    assert_eq!(d.classifications[0].classification, "goods_or_services");
    assert_eq!(d.methodology_version, "casp-daily-activity-v1-demo-threshold-seed");
    assert_eq!(demo_threshold_report(2026, 9).err(), Some(CaspReportingError::InvalidRange));
}

#[test]
fn an_enforceable_breach_sets_the_standing_block_and_lifts_it_otherwise() {
    let days = vec![day(90_000_090)];
    let mut assessment = assess_quarter(2026, 1, &days, true).unwrap();
    assessment.threshold_enforceable = true;
    assert_eq!(
        standing_issuance_block(&assessment).as_deref(),
        Some("issuance is blocked because complete Q1 2026 evidence exceeds both Article 23 demo thresholds")
    );
    assessment.year = -44;
    assessment.quarter = 3;
    assert_eq!(
        standing_issuance_block(&assessment).as_deref(),
        Some("issuance is blocked because complete Q3 -44 evidence exceeds both Article 23 demo thresholds")
    );
    assessment.threshold_enforceable = false;
    assert_eq!(standing_issuance_block(&assessment), None);
}

struct UnreadableStore;

impl CaspReportStore for UnreadableStore {
    fn import(&self, _: &CaspDailyReport) -> Result<(), CaspReportingError> {
        Ok(())
    }
    fn daily(&self, _: &str, _: &str) -> Result<Vec<CaspDailyAggregate>, CaspReportingError> {
        Err(CaspReportingError::Storage("days unreadable".into()))
    }
    fn range_was_imported(&self, _: &str, _: &str) -> Result<bool, CaspReportingError> {
        Ok(true)
    }
    fn save_assessment(&self, _: &QuarterlyTransactionAssessment) -> Result<(), CaspReportingError> {
        Ok(())
    }
}

#[test]
fn quarterly_passes_on_the_store_read_failure() {
    let service = CaspReportingService::new(UnreadableStore);
    assert_eq!(
        service.quarterly(2026, 1),
        Err(CaspReportingError::Storage("days unreadable".into()))
    );
    assert_eq!(service.quarterly(2026, 5), Err(CaspReportingError::InvalidRange));
}

struct RefusingStore;

impl CaspReportStore for RefusingStore {
    fn import(&self, _: &CaspDailyReport) -> Result<(), CaspReportingError> {
        Err(CaspReportingError::Storage("import refused".into()))
    }
    fn daily(&self, _: &str, _: &str) -> Result<Vec<CaspDailyAggregate>, CaspReportingError> {
        Ok(Vec::new())
    }
    fn range_was_imported(&self, _: &str, _: &str) -> Result<bool, CaspReportingError> {
        Ok(false)
    }
    fn save_assessment(&self, _: &QuarterlyTransactionAssessment) -> Result<(), CaspReportingError> {
        Ok(())
    }
}

#[test]
fn store_failures_are_what_an_import_answers() {
    let refusing = CaspReportingService::new(RefusingStore);
    let report = CaspDailyReport {
        from_date_utc: "2026-01-01".into(),
        to_date_utc: "2026-01-01".into(),
        days: vec![day(1)],
    };
    assert_eq!(
        refusing.import_report("2026-01-01", "2026-01-01", report).err(),
        Some(CaspReportingError::Storage("import refused".into()))
    );
    assert_eq!(
        refusing.import_demo_threshold_breach(2026, 2).err(),
        Some(CaspReportingError::Storage("import refused".into()))
    );
    let unreadable = CaspReportingService::new(UnreadableStore);
    assert_eq!(
        unreadable.import_demo_threshold_breach(2026, 2).err(),
        Some(CaspReportingError::Storage("days unreadable".into()))
    );
    assert_eq!(
        unreadable.daily("2026-01-01", "2026-01-31"),
        Err(CaspReportingError::Storage("days unreadable".into()))
    );
    assert_eq!(
        unreadable.daily("2026-02-01", "2026-01-31"),
        Err(CaspReportingError::InvalidRange)
    );
}
