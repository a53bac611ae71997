//! The texts under which statuses and decisions are stored, and how stored
//! texts are read back.

use crate::domain::{
    CoverageDecisionCode, IssuanceStatus, IssuerOperationKind, OperationDecisionOutcome,
    RedemptionStatus,
};
use crate::text::text_eq;
use vstd::prelude::*;

verus! {

/// The stored text of an issuance status.
pub open spec fn issuance_status_text(s: IssuanceStatus) -> Seq<char> {
    match s {
        IssuanceStatus::AwaitingFiat => "awaiting_fiat"@,
        IssuanceStatus::Minting => "minting"@,
        IssuanceStatus::Completed => "completed"@,
        IssuanceStatus::Failed => "failed"@,
    }
}

/// The stored text of an issuance status.
pub fn issuance_status_code(s: IssuanceStatus) -> (t: &'static str)
    ensures
        t@ == issuance_status_text(s),
{
    match s {
        IssuanceStatus::AwaitingFiat => "awaiting_fiat",
        IssuanceStatus::Minting => "minting",
        IssuanceStatus::Completed => "completed",
        IssuanceStatus::Failed => "failed",
    }
}

/// A stored issuance status; unknown text reads as failed.
pub open spec fn parsed_issuance_status(text: Seq<char>) -> IssuanceStatus {
    if text == "awaiting_fiat"@ {
        IssuanceStatus::AwaitingFiat
    } else if text == "minting"@ {
        IssuanceStatus::Minting
    } else if text == "completed"@ {
        IssuanceStatus::Completed
    } else {
        IssuanceStatus::Failed
    }
}

/// Reads a stored issuance status.
pub fn parse_status(text: &str) -> (s: IssuanceStatus)
    ensures
        s == parsed_issuance_status(text@),
{
    if text_eq(text, "awaiting_fiat") {
        IssuanceStatus::AwaitingFiat
    } else if text_eq(text, "minting") {
        IssuanceStatus::Minting
    } else if text_eq(text, "completed") {
        IssuanceStatus::Completed
    } else {
        IssuanceStatus::Failed
    }
}

/// Storing an issuance status and reading it back gives the same status.
pub proof fn law_issuance_status_round_trip(s: IssuanceStatus)
    ensures
        parsed_issuance_status(issuance_status_text(s)) == s,
{
    reveal_strlit("awaiting_fiat");
    reveal_strlit("minting");
    reveal_strlit("completed");
    reveal_strlit("failed");
    assert("awaiting_fiat"@.len() == 13);
    assert("minting"@.len() == 7);
    assert("completed"@.len() == 9);
    assert("failed"@.len() == 6);
}

/// The stored text of a redemption status.
pub open spec fn redemption_status_text(s: RedemptionStatus) -> Seq<char> {
    match s {
        RedemptionStatus::Created => "created"@,
        RedemptionStatus::Burned => "burned"@,
        RedemptionStatus::Completed => "completed"@,
        RedemptionStatus::Failed => "failed"@,
    }
}

/// The stored text of a redemption status.
pub fn redemption_status_code(s: RedemptionStatus) -> (t: &'static str)
    ensures
        t@ == redemption_status_text(s),
{
    match s {
        RedemptionStatus::Created => "created",
        RedemptionStatus::Burned => "burned",
        RedemptionStatus::Completed => "completed",
        RedemptionStatus::Failed => "failed",
    }
}

/// A stored redemption status; unknown text reads as failed.
pub open spec fn parsed_redemption_status(text: Seq<char>) -> RedemptionStatus {
    if text == "created"@ {
        RedemptionStatus::Created
    } else if text == "burned"@ {
        RedemptionStatus::Burned
    } else if text == "completed"@ {
        RedemptionStatus::Completed
    } else {
        RedemptionStatus::Failed
    }
}

/// Reads a stored redemption status.
pub fn parse_redemption_status(text: &str) -> (s: RedemptionStatus)
    ensures
        s == parsed_redemption_status(text@),
{
    if text_eq(text, "created") {
        RedemptionStatus::Created
    } else if text_eq(text, "burned") {
        RedemptionStatus::Burned
    } else if text_eq(text, "completed") {
        RedemptionStatus::Completed
    } else {
        RedemptionStatus::Failed
    }
}

/// Storing a redemption status and reading it back gives the same status.
pub proof fn law_redemption_status_round_trip(s: RedemptionStatus)
    ensures
        parsed_redemption_status(redemption_status_text(s)) == s,
{
    reveal_strlit("created");
    reveal_strlit("burned");
    reveal_strlit("completed");
    reveal_strlit("failed");
    assert("created"@.len() == 7);
    assert("burned"@.len() == 6);
    assert("completed"@.len() == 9);
    assert("failed"@.len() == 6);
    assert("burned"@[0] != "failed"@[0]);
}

/// The stored text of a coverage decision.
pub fn decision_code(d: CoverageDecisionCode) -> (t: &'static str)
    ensures
        t@ == match d {
            CoverageDecisionCode::Accepted => "accepted"@,
            CoverageDecisionCode::Rejected => "rejected"@,
            CoverageDecisionCode::DataUnavailable => "data_unavailable"@,
        },
{
    match d {
        CoverageDecisionCode::Accepted => "accepted",
        CoverageDecisionCode::Rejected => "rejected",
        CoverageDecisionCode::DataUnavailable => "data_unavailable",
    }
}

/// The stored text of an operation kind.
pub fn operation_kind(k: IssuerOperationKind) -> (t: &'static str)
    ensures
        t@ == match k {
            IssuerOperationKind::Issuance => "issuance"@,
            IssuerOperationKind::Redemption => "redemption"@,
        },
{
    match k {
        IssuerOperationKind::Issuance => "issuance",
        IssuerOperationKind::Redemption => "redemption",
    }
}

/// The stored text of a gate outcome.
pub fn outcome(o: OperationDecisionOutcome) -> (t: &'static str)
    ensures
        t@ == match o {
            OperationDecisionOutcome::Allowed => "allowed"@,
            OperationDecisionOutcome::Rejected => "rejected"@,
        },
{
    match o {
        OperationDecisionOutcome::Allowed => "allowed",
        OperationDecisionOutcome::Rejected => "rejected",
    }
}

} // verus!
