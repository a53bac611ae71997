//! The library's error types and the messages that describe them.

use vstd::prelude::*;

verus! {

/// `prefix` followed by `detail`.
pub fn prefixed(prefix: &str, detail: &str) -> (s: String)
    ensures
        s@ == prefix@ + detail@,
{
    let mut s = String::from_str(prefix);
    s.append(detail);
    s
}

/// Failure of the asset state store.
#[derive(Debug, Clone, PartialEq, Eq)]
pub enum AssetStateError {
    Storage(String),
}

/// The message of a `AssetStateError`.
pub open spec fn asset_state_error_text(e: AssetStateError) -> Seq<char> {
    match e {
        AssetStateError::Storage(m) => "asset state storage failed: "@ + m@,
    }
}

impl AssetStateError {
    /// The human-readable message of this error.
    pub fn message(&self) -> (s: String)
        ensures
            s@ == asset_state_error_text(*self),
    {
        match self {
            AssetStateError::Storage(m) => prefixed("asset state storage failed: ", m.as_str()),
        }
    }
}

/// Failure of CASP report ingestion or assessment.
#[derive(Debug, Clone, PartialEq, Eq)]
pub enum CaspReportingError {
    InvalidRange,
    Source(String),
    SourceContract(String),
    Storage(String),
    Overflow,
    Enforcement(String),
}

/// The message of a `CaspReportingError`.
pub open spec fn casp_reporting_error_text(e: CaspReportingError) -> Seq<char> {
    match e {
        CaspReportingError::InvalidRange => "invalid CASP reporting date range"@,
        CaspReportingError::Source(m) => "CASP reporting source failed: "@ + m@,
        CaspReportingError::SourceContract(m) => "CASP reporting source contract failed: "@ + m@,
        CaspReportingError::Storage(m) => "CASP reporting storage failed: "@ + m@,
        CaspReportingError::Overflow => "CASP reporting calculation overflow"@,
        CaspReportingError::Enforcement(m) => "on-chain issuance restriction failed: "@ + m@,
    }
}

impl CaspReportingError {
    /// The human-readable message of this error.
    pub fn message(&self) -> (s: String)
        ensures
            s@ == casp_reporting_error_text(*self),
    {
        match self {
            CaspReportingError::InvalidRange => String::from_str("invalid CASP reporting date range"),
            CaspReportingError::Source(m) => prefixed("CASP reporting source failed: ", m.as_str()),
            CaspReportingError::SourceContract(m) => prefixed("CASP reporting source contract failed: ", m.as_str()),
            CaspReportingError::Storage(m) => prefixed("CASP reporting storage failed: ", m.as_str()),
            CaspReportingError::Overflow => String::from_str("CASP reporting calculation overflow"),
            CaspReportingError::Enforcement(m) => prefixed("on-chain issuance restriction failed: ", m.as_str()),
        }
    }
}

/// Failure of an issuance request or settlement.
#[derive(Debug, Clone, PartialEq, Eq)]
pub enum IssuanceError {
    Invalid(String),
    NotFound,
    IdempotencyConflict,
    FiatNotConfirmed,
    BankMismatch,
    SettlementInProgress,
    IssuanceBlocked(String),
    Storage(String),
    Bank(String),
    Blockchain(String),
}

/// The message of a `IssuanceError`.
pub open spec fn issuance_error_text(e: IssuanceError) -> Seq<char> {
    match e {
        IssuanceError::Invalid(m) => "invalid issuance request: "@ + m@,
        IssuanceError::NotFound => "issuance operation was not found"@,
        IssuanceError::IdempotencyConflict => "operationId is already associated with a different request"@,
        IssuanceError::FiatNotConfirmed => "fiat deposit has not been confirmed yet"@,
        IssuanceError::BankMismatch => "confirmed bank transaction does not match the issuance order"@,
        IssuanceError::SettlementInProgress => "issuance operation is already being settled"@,
        IssuanceError::IssuanceBlocked(m) => "issuance is blocked: "@ + m@,
        IssuanceError::Storage(m) => "issuance persistence failed: "@ + m@,
        IssuanceError::Bank(m) => "mock bank request failed: "@ + m@,
        IssuanceError::Blockchain(m) => "token mint failed: "@ + m@,
    }
}

impl IssuanceError {
    /// The human-readable message of this error.
    pub fn message(&self) -> (s: String)
        ensures
            s@ == issuance_error_text(*self),
    {
        match self {
            IssuanceError::Invalid(m) => prefixed("invalid issuance request: ", m.as_str()),
            IssuanceError::NotFound => String::from_str("issuance operation was not found"),
            IssuanceError::IdempotencyConflict => String::from_str("operationId is already associated with a different request"),
            IssuanceError::FiatNotConfirmed => String::from_str("fiat deposit has not been confirmed yet"),
            IssuanceError::BankMismatch => String::from_str("confirmed bank transaction does not match the issuance order"),
            IssuanceError::SettlementInProgress => String::from_str("issuance operation is already being settled"),
            IssuanceError::IssuanceBlocked(m) => prefixed("issuance is blocked: ", m.as_str()),
            IssuanceError::Storage(m) => prefixed("issuance persistence failed: ", m.as_str()),
            IssuanceError::Bank(m) => prefixed("mock bank request failed: ", m.as_str()),
            IssuanceError::Blockchain(m) => prefixed("token mint failed: ", m.as_str()),
        }
    }
}

/// Failure to record an operation decision.
#[derive(Debug, Clone, PartialEq, Eq)]
pub enum OperationGateError {
    Storage(String),
}

/// The message of a `OperationGateError`.
pub open spec fn operation_gate_error_text(e: OperationGateError) -> Seq<char> {
    match e {
        OperationGateError::Storage(m) => "operation decision persistence failed: "@ + m@,
    }
}

impl OperationGateError {
    /// The human-readable message of this error.
    pub fn message(&self) -> (s: String)
        ensures
            s@ == operation_gate_error_text(*self),
    {
        match self {
            OperationGateError::Storage(m) => prefixed("operation decision persistence failed: ", m.as_str()),
        }
    }
}

/// Failure of the ESG store.
#[derive(Debug, Clone, PartialEq, Eq)]
pub enum EsgStoreError {
    Storage(String),
}

/// The message of a `EsgStoreError`.
pub open spec fn esg_store_error_text(e: EsgStoreError) -> Seq<char> {
    match e {
        EsgStoreError::Storage(m) => "ESG persistence failed: "@ + m@,
    }
}

impl EsgStoreError {
    /// The human-readable message of this error.
    pub fn message(&self) -> (s: String)
        ensures
            s@ == esg_store_error_text(*self),
    {
        match self {
            EsgStoreError::Storage(m) => prefixed("ESG persistence failed: ", m.as_str()),
        }
    }
}

/// Failure to read the token from the chain.
#[derive(Debug, Clone, PartialEq, Eq)]
pub enum TokenReadError {
    Rpc(String),
}

/// The message of a `TokenReadError`.
pub open spec fn token_read_error_text(e: TokenReadError) -> Seq<char> {
    match e {
        TokenReadError::Rpc(m) => "blockchain RPC request failed: "@ + m@,
    }
}

impl TokenReadError {
    /// The human-readable message of this error.
    pub fn message(&self) -> (s: String)
        ensures
            s@ == token_read_error_text(*self),
    {
        match self {
            TokenReadError::Rpc(m) => prefixed("blockchain RPC request failed: ", m.as_str()),
        }
    }
}

/// Failure of the snapshot cache.
#[derive(Debug, Clone, PartialEq, Eq)]
pub enum CacheError {
    Storage(String),
}

/// The message of a `CacheError`.
pub open spec fn cache_error_text(e: CacheError) -> Seq<char> {
    match e {
        CacheError::Storage(m) => "snapshot cache failed: "@ + m@,
    }
}

impl CacheError {
    /// The human-readable message of this error.
    pub fn message(&self) -> (s: String)
        ensures
            s@ == cache_error_text(*self),
    {
        match self {
            CacheError::Storage(m) => prefixed("snapshot cache failed: ", m.as_str()),
        }
    }
}

/// Failure of a redemption request or settlement.
#[derive(Debug, Clone, PartialEq, Eq)]
pub enum RedemptionError {
    Invalid(String),
    NotFound,
    IdempotencyConflict,
    Storage(String),
    Blockchain(String),
    Bank(String),
    Gate(String),
}

/// The message of a `RedemptionError`.
pub open spec fn redemption_error_text(e: RedemptionError) -> Seq<char> {
    match e {
        RedemptionError::Invalid(m) => "invalid redemption request: "@ + m@,
        RedemptionError::NotFound => "redemption order was not found"@,
        RedemptionError::IdempotencyConflict => "operationId is already associated with a different redemption"@,
        RedemptionError::Storage(m) => "redemption persistence failed: "@ + m@,
        RedemptionError::Blockchain(m) => "redemption burn failed: "@ + m@,
        RedemptionError::Bank(m) => "redemption payout failed: "@ + m@,
        RedemptionError::Gate(m) => "redemption operation gate failed: "@ + m@,
    }
}

impl RedemptionError {
    /// The human-readable message of this error.
    pub fn message(&self) -> (s: String)
        ensures
            s@ == redemption_error_text(*self),
    {
        match self {
            RedemptionError::Invalid(m) => prefixed("invalid redemption request: ", m.as_str()),
            RedemptionError::NotFound => String::from_str("redemption order was not found"),
            RedemptionError::IdempotencyConflict => String::from_str("operationId is already associated with a different redemption"),
            RedemptionError::Storage(m) => prefixed("redemption persistence failed: ", m.as_str()),
            RedemptionError::Blockchain(m) => prefixed("redemption burn failed: ", m.as_str()),
            RedemptionError::Bank(m) => prefixed("redemption payout failed: ", m.as_str()),
            RedemptionError::Gate(m) => prefixed("redemption operation gate failed: ", m.as_str()),
        }
    }
}

/// Failure of a reserve adjustment.
#[derive(Debug, Clone, PartialEq, Eq)]
pub enum ReserveAdjustmentError {
    Invalid(String),
    Bank(String),
}

/// The message of a `ReserveAdjustmentError`.
pub open spec fn reserve_adjustment_error_text(e: ReserveAdjustmentError) -> Seq<char> {
    match e {
        ReserveAdjustmentError::Invalid(m) => "invalid reserve adjustment: "@ + m@,
        ReserveAdjustmentError::Bank(m) => "mock bank reserve adjustment failed: "@ + m@,
    }
}

impl ReserveAdjustmentError {
    /// The human-readable message of this error.
    pub fn message(&self) -> (s: String)
        ensures
            s@ == reserve_adjustment_error_text(*self),
    {
        match self {
            ReserveAdjustmentError::Invalid(m) => prefixed("invalid reserve adjustment: ", m.as_str()),
            ReserveAdjustmentError::Bank(m) => prefixed("mock bank reserve adjustment failed: ", m.as_str()),
        }
    }
}

/// Failure of reserve reading, coverage calculation or synchronisation.
#[derive(Debug, Clone, PartialEq, Eq)]
pub enum ReserveError {
    Bank(String),
    Cache(String),
    TokenUnavailable,
    Currency(String),
    InvalidValue(String),
    Blockchain(String),
}

/// The message of a `ReserveError`.
pub open spec fn reserve_error_text(e: ReserveError) -> Seq<char> {
    match e {
        ReserveError::Bank(m) => "mock bank request failed: "@ + m@,
        ReserveError::Cache(m) => "token cache failed: "@ + m@,
        ReserveError::TokenUnavailable => "token cache has no observation yet"@,
        ReserveError::Currency(m) => "unsupported reserve currency: "@ + m@,
        ReserveError::InvalidValue(m) => "invalid monetary value: "@ + m@,
        ReserveError::Blockchain(m) => "on-chain reserve state update failed: "@ + m@,
    }
}

impl ReserveError {
    /// The human-readable message of this error.
    pub fn message(&self) -> (s: String)
        ensures
            s@ == reserve_error_text(*self),
    {
        match self {
            ReserveError::Bank(m) => prefixed("mock bank request failed: ", m.as_str()),
            ReserveError::Cache(m) => prefixed("token cache failed: ", m.as_str()),
            ReserveError::TokenUnavailable => String::from_str("token cache has no observation yet"),
            ReserveError::Currency(m) => prefixed("unsupported reserve currency: ", m.as_str()),
            ReserveError::InvalidValue(m) => prefixed("invalid monetary value: ", m.as_str()),
            ReserveError::Blockchain(m) => prefixed("on-chain reserve state update failed: ", m.as_str()),
        }
    }
}

/// Invalid process configuration.
#[derive(Debug, Clone, PartialEq, Eq)]
pub enum ConfigError {
    MissingTokenAddress,
    InvalidTokenAddress(String),
    InvalidHttpAddress(String),
    InvalidPollInterval(String),
    MissingIssuerPrivateKey,
    InvalidReserveInitializationFlag(String),
}

/// The message of a `ConfigError`.
pub open spec fn config_error_text(e: ConfigError) -> Seq<char> {
    match e {
        ConfigError::MissingTokenAddress => "TOKEN_ADDRESS is required and must contain a deployed contract address"@,
        ConfigError::InvalidTokenAddress(m) => "TOKEN_ADDRESS is not a valid Ethereum address: "@ + m@,
        ConfigError::InvalidHttpAddress(m) => "HTTP_ADDRESS is not a valid socket address: "@ + m@,
        ConfigError::InvalidPollInterval(m) => "POLL_INTERVAL_SECONDS must be an integer from 1 to 10, got: "@ + m@,
        ConfigError::MissingIssuerPrivateKey => "ISSUER_PRIVATE_KEY is required for issuance settlement"@,
        ConfigError::InvalidReserveInitializationFlag(m) => "INITIALIZE_RESERVE_ON_STARTUP must be true or false, got: "@ + m@,
    }
}

impl ConfigError {
    /// The human-readable message of this error.
    pub fn message(&self) -> (s: String)
        ensures
            s@ == config_error_text(*self),
    {
        match self {
            ConfigError::MissingTokenAddress => String::from_str("TOKEN_ADDRESS is required and must contain a deployed contract address"),
            ConfigError::InvalidTokenAddress(m) => prefixed("TOKEN_ADDRESS is not a valid Ethereum address: ", m.as_str()),
            ConfigError::InvalidHttpAddress(m) => prefixed("HTTP_ADDRESS is not a valid socket address: ", m.as_str()),
            ConfigError::InvalidPollInterval(m) => prefixed("POLL_INTERVAL_SECONDS must be an integer from 1 to 10, got: ", m.as_str()),
            ConfigError::MissingIssuerPrivateKey => String::from_str("ISSUER_PRIVATE_KEY is required for issuance settlement"),
            ConfigError::InvalidReserveInitializationFlag(m) => prefixed("INITIALIZE_RESERVE_ON_STARTUP must be true or false, got: ", m.as_str()),
        }
    }
}

/// Failure of one chain polling round.
#[derive(Debug, Clone, PartialEq, Eq)]
pub enum PollingError {
    Read(TokenReadError),
    Cache(CacheError),
    Esg(EsgStoreError),
}

/// The message of a `PollingError`: that of the error it carries.
pub open spec fn polling_error_text(e: PollingError) -> Seq<char> {
    match e {
        PollingError::Read(r) => token_read_error_text(r),
        PollingError::Cache(c) => cache_error_text(c),
        PollingError::Esg(s) => esg_store_error_text(s),
    }
}

impl PollingError {
    /// The human-readable message of this error.
    pub fn message(&self) -> (s: String)
        ensures
            s@ == polling_error_text(*self),
    {
        match self {
            PollingError::Read(r) => r.message(),
            PollingError::Cache(c) => c.message(),
            PollingError::Esg(e) => e.message(),
        }
    }
}

/// A cache failure seen by the reserve poller.
pub fn reserve_error_from_cache(value: CacheError) -> (r: ReserveError)
    ensures
        r matches ReserveError::Cache(m) && m@ == cache_error_text(value),
{
    ReserveError::Cache(value.message())
}

} // verus!
