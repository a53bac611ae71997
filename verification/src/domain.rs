//! The records that the issuer backend computes, stores and publishes.

use vstd::prelude::*;

verus! {

/// Operating state of the crypto-asset, decided from reserve coverage.
#[derive(Debug, Clone, Copy, PartialEq, Eq, Structural)]
pub enum AssetStateCode {
    Active,
    Warning,
    MintBlocked,
    DataUnavailable,
    WindDown,
}

/// Reserve coverage as an exact ratio of two amounts in raw token units:
/// the reserve and the token supply. Only formed for a positive supply.
#[derive(Debug, Clone, Copy, PartialEq, Eq, Structural)]
pub struct CoverageRatio {
    pub reserve_raw: u128,
    pub supply_raw: u128,
}

/// The persisted asset state and the evidence it was decided from.
#[derive(Debug, Clone, PartialEq, Eq)]
pub struct AssetState {
    pub state: AssetStateCode,
    pub reason: String,
    pub reserve_coverage: Option<CoverageRatio>,
    pub evidence_at_unix_ms: Option<u64>,
    pub policy_version: String,
    pub updated_at_unix_ms: u64,
}

/// One classification line of a CASP daily aggregate.
#[derive(Debug, Clone, PartialEq, Eq)]
pub struct ClassificationAggregate {
    pub classification: String,
    pub operation_count: u64,
    pub value_raw: String,
}

/// CASP-reported activity of one UTC day.
#[derive(Debug, Clone, PartialEq, Eq)]
pub struct CaspDailyAggregate {
    pub date_utc: String,
    pub asset_symbol: String,
    pub currency_area: String,
    pub total_operation_count: u64,
    pub total_value_raw: String,
    pub total_value_usd_minor: String,
    pub means_of_exchange_count: u64,
    pub means_of_exchange_value_raw: String,
    pub means_of_exchange_value_usd_minor: String,
    pub means_of_exchange_value_eur_minor: String,
    pub excluded_operation_count: u64,
    pub known_onchain_overlap_count: u64,
    pub known_onchain_overlap_value_raw: String,
    pub classifications: Vec<ClassificationAggregate>,
    pub methodology_version: String,
    pub conversion_methodology: String,
}

/// A CASP report over a date range.
#[derive(Debug, Clone, PartialEq, Eq)]
pub struct CaspDailyReport {
    pub from_date_utc: String,
    pub to_date_utc: String,
    pub days: Vec<CaspDailyAggregate>,
}

/// Quarterly assessment of means-of-exchange activity against the daily
/// thresholds. The daily averages are the exact quotients
/// `means_of_exchange_operation_count / calendar_day_count` and
/// `means_of_exchange_value_eur_minor / (100 * calendar_day_count)`.
#[derive(Debug, Clone, PartialEq, Eq)]
pub struct QuarterlyTransactionAssessment {
    pub year: i32,
    pub quarter: u8,
    pub from_date_utc: String,
    pub to_date_utc: String,
    pub calendar_day_count: u64,
    pub imported_activity_day_count: u64,
    pub complete_source_range: bool,
    pub means_of_exchange_operation_count: u64,
    pub means_of_exchange_value_eur_minor: String,
    pub transaction_count_threshold: u64,
    pub transaction_value_threshold_eur: String,
    pub threshold_breached: bool,
    pub threshold_enforceable: bool,
    pub methodology_version: String,
}

/// An issuance order: fiat in, tokens minted.
#[derive(Debug, Clone, PartialEq, Eq)]
pub struct IssuanceOrder {
    pub operation_id: String,
    pub recipient_address: String,
    pub amount_usd_minor: String,
    pub token_amount_raw: String,
    pub bank_idempotency_key: String,
    pub status: IssuanceStatus,
    pub transaction_hash: Option<String>,
    pub last_error: Option<String>,
    pub created_at_unix_ms: u64,
    pub updated_at_unix_ms: u64,
}

#[derive(Debug, Clone, Copy, PartialEq, Eq, Structural)]
pub enum IssuanceStatus {
    AwaitingFiat,
    Minting,
    Completed,
    Failed,
}

#[derive(Debug, Clone, Copy, PartialEq, Eq, Structural)]
pub enum CoverageDecisionCode {
    Accepted,
    Rejected,
    DataUnavailable,
}

/// Audit record of a coverage check made for an issuance.
#[derive(Debug, Clone, PartialEq, Eq)]
pub struct IssuanceCoverageDecision {
    pub operation_id: String,
    pub decision: CoverageDecisionCode,
    pub reason: String,
    pub current_reserve_minor: Option<String>,
    pub pre_operation_reserve_minor: Option<String>,
    pub confirmed_incoming_minor: String,
    pub current_supply_raw: Option<String>,
    pub proposed_mint_raw: String,
    pub current_coverage_bps: Option<String>,
    pub projected_coverage_bps: Option<String>,
    pub evidence_block_number: Option<u64>,
    pub bank_as_of_unix_ms: Option<u64>,
    pub policy_version: String,
    pub evaluated_at_unix_ms: u64,
}

#[derive(Debug, Clone, Copy, PartialEq, Eq, Structural)]
pub enum IssuerOperationKind {
    Issuance,
    Redemption,
}

#[derive(Debug, Clone, Copy, PartialEq, Eq, Structural)]
pub enum OperationDecisionOutcome {
    Allowed,
    Rejected,
}

/// Audit record of one issuer operation decision.
#[derive(Debug, Clone, PartialEq, Eq)]
pub struct OperationDecision {
    pub operation_id: String,
    pub operation_kind: IssuerOperationKind,
    pub asset_state: String,
    pub outcome: OperationDecisionOutcome,
    pub reason: String,
    pub evidence_at_unix_ms: Option<u64>,
    pub policy_version: String,
    pub decided_at_unix_ms: u64,
}

#[derive(Debug, Clone, Copy, PartialEq, Eq, Structural)]
pub enum RedemptionStatus {
    Created,
    Burned,
    Completed,
    Failed,
}

/// A redemption order: tokens burned, fiat paid out at par.
#[derive(Debug, Clone, PartialEq, Eq)]
pub struct RedemptionOrder {
    pub operation_id: String,
    pub holder_address: String,
    pub token_amount_raw: String,
    pub payout_usd_minor: String,
    pub status: RedemptionStatus,
    pub burn_transaction_hash: Option<String>,
    pub payout_reference: String,
    pub last_error: Option<String>,
    pub created_at_unix_ms: u64,
    pub updated_at_unix_ms: u64,
}

/// The fiat reserve account as the bank reports it.
#[derive(Debug, Clone, PartialEq, Eq)]
pub struct BankReserve {
    pub account_id: String,
    pub currency: String,
    pub balance_minor: String,
    pub version: u64,
    pub as_of_unix_ms: u64,
}

#[derive(Debug, Clone, Copy, PartialEq, Eq, Structural)]
pub enum CoverageStatus {
    Covered,
    Undercollateralized,
}

/// Reserve coverage of the token supply. `ratio` is the exact coverage,
/// absent for a zero supply.
#[derive(Debug, Clone, PartialEq, Eq)]
pub struct ReserveCoverage {
    pub observed_at_unix_ms: u64,
    pub bank_as_of_unix_ms: u64,
    pub reserve_account_id: String,
    pub currency: String,
    pub reserve_balance_minor: String,
    pub reserve_balance_usd: String,
    pub token_supply_raw: String,
    pub liability_usd: String,
    pub surplus_usd: String,
    pub ratio: Option<CoverageRatio>,
    pub status: CoverageStatus,
}

/// Read-only token state. The raw supply is a string because token
/// integers can exceed JavaScript's safe range.
#[derive(Debug, Clone, PartialEq, Eq)]
pub struct TokenSnapshot {
    pub chain_id: u64,
    pub block_number: u64,
    pub contract_address: String,
    pub name: String,
    pub symbol: String,
    pub decimals: u8,
    pub total_supply_raw: String,
}

/// A token snapshot with the time it was observed.
#[derive(Debug, Clone, PartialEq, Eq)]
pub struct TokenObservation {
    pub observed_at_unix_ms: u64,
    pub snapshot: TokenSnapshot,
}

/// Daily ESG estimate in integer units: energy in milliwatt-hours, emissions
/// in milligrams CO2e, and the energy mix split in microwatt-hours.
#[derive(Debug, Clone, PartialEq, Eq)]
pub struct EsgEstimate {
    pub date_utc: String,
    pub status: String,
    pub transaction_count: u64,
    pub data_origin: String,
    pub energy_lower_milliwh: u64,
    pub energy_best_guess_milliwh: u64,
    pub energy_upper_milliwh: u64,
    pub emissions_milligram_co2e: u64,
    pub renewable_energy_microwh: u64,
    pub nuclear_energy_microwh: u64,
    pub fossil_energy_microwh: u64,
}

} // verus!
