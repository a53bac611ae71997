//! Verified core of the research stablecoin issuer backend: reserve coverage,
//! asset state policy, the issuer operation gate, issuance and redemption
//! settlement, CASP activity reporting and the supporting text handling.

pub mod text;
pub mod address;
pub mod clock;
pub mod domain;
pub mod errors;
pub mod money;
pub mod reserves;
pub mod asset_state;
pub mod operation_gate;
pub mod copies;
pub mod issuance;
pub mod issuance_settlement;
pub mod redemption;
pub mod casp_reporting;
pub mod reserve_adjustment;
pub mod compliance;
pub mod esg;
pub mod chain;
pub mod monitors;
pub mod config;
pub mod api;
pub mod codes;
