//! The issuer operation gate: which operations the asset state allows, and
//! the audited decision for each settlement.

use crate::asset_state::{state_code, state_code_text};
use crate::domain::{
    AssetState, AssetStateCode, IssuerOperationKind, OperationDecision, OperationDecisionOutcome,
};
use crate::errors::{prefixed, OperationGateError};
use crate::text::opt_text;
use vstd::prelude::*;
use vstd::string::*;

verus! {

/// Version tag recorded with every operation decision.
pub open spec fn operation_gate_policy_version() -> Seq<char> {
    "issuer-operation-gate-v1"@
}

/// Append-only audit log of operation decisions.
pub trait OperationDecisionStore {
    fn append(&self, decision: &OperationDecision) -> Result<(), OperationGateError>;
}

/// A standing restriction on issuance, independent of reserve coverage
/// (such as CASP activity threshold evidence).
pub trait IssuanceRestriction {
    fn block_reason(&self) -> Result<Option<String>, OperationGateError>;
}

/// The asset state before the first issuance: no supply, so coverage is
/// undefined. Issuance pairs a confirmed deposit with the same amount of
/// new tokens and therefore does not reduce coverage.
pub open spec fn is_zero_supply_bootstrap(state: AssetState) -> bool {
    &&& state.state == AssetStateCode::DataUnavailable
    &&& state.reserve_coverage is None
    &&& state.reason@ == "Reserve coverage cannot be calculated without token supply"@
}

/// The outcome that the asset state alone decides for an operation.
pub open spec fn operation_outcome(kind: IssuerOperationKind, state: AssetState) -> OperationDecisionOutcome {
    match kind {
        IssuerOperationKind::Issuance => if state.state == AssetStateCode::Active || state.state
            == AssetStateCode::Warning || is_zero_supply_bootstrap(state) {
            OperationDecisionOutcome::Allowed
        } else {
            OperationDecisionOutcome::Rejected
        },
        IssuerOperationKind::Redemption => OperationDecisionOutcome::Allowed,
    }
}

/// The reason recorded with that outcome.
pub open spec fn operation_reason(kind: IssuerOperationKind, state: AssetState) -> Seq<char> {
    match kind {
        IssuerOperationKind::Issuance => if state.state == AssetStateCode::Active || state.state
            == AssetStateCode::Warning {
            "issuance is allowed in "@ + state_code_text(state.state)
        } else if is_zero_supply_bootstrap(state) {
            "initial issuance is allowed after the matching fiat deposit"@
        } else {
            "issuance is blocked in "@ + state_code_text(state.state) + ": "@ + state.reason@
        },
        IssuerOperationKind::Redemption => "redemption at par remains allowed in "@
            + state_code_text(state.state),
    }
}

/// Decides an operation from the asset state alone.
pub fn evaluate_operation(operation_kind: IssuerOperationKind, state: &AssetState) -> (r: (
    OperationDecisionOutcome,
    String,
))
    ensures
        r.0 == operation_outcome(operation_kind, *state),
        r.1@ == operation_reason(operation_kind, *state),
        operation_kind == IssuerOperationKind::Redemption ==> r.0 == OperationDecisionOutcome::Allowed,
{
    match operation_kind {
        IssuerOperationKind::Issuance => {
            if state.state == AssetStateCode::Active || state.state == AssetStateCode::Warning {
                (
                    OperationDecisionOutcome::Allowed,
                    prefixed("issuance is allowed in ", state_code(state.state)),
                )
            } else if state.state == AssetStateCode::DataUnavailable && state.reserve_coverage.is_none()
                && crate::text::text_eq(
                state.reason.as_str(),
                "Reserve coverage cannot be calculated without token supply",
            ) {
                (
                    OperationDecisionOutcome::Allowed,
                    String::from_str("initial issuance is allowed after the matching fiat deposit"),
                )
            } else {
                let mut reason = prefixed("issuance is blocked in ", state_code(state.state));
                reason.append(": ");
                reason.append(state.reason.as_str());
                (OperationDecisionOutcome::Rejected, reason)
            }
        },
        IssuerOperationKind::Redemption => (
            OperationDecisionOutcome::Allowed,
            prefixed("redemption at par remains allowed in ", state_code(state.state)),
        ),
    }
}

/// The outcome once a standing issuance restriction (`block`) is taken into
/// account: it rejects an issuance that the asset state allows.
pub open spec fn gated_outcome(
    kind: IssuerOperationKind,
    state: AssetState,
    block: Option<Seq<char>>,
) -> (OperationDecisionOutcome, Seq<char>) {
    if kind == IssuerOperationKind::Issuance && operation_outcome(kind, state)
        == OperationDecisionOutcome::Allowed && block is Some {
        (OperationDecisionOutcome::Rejected, block->0)
    } else {
        (operation_outcome(kind, state), operation_reason(kind, state))
    }
}

/// Decides an operation from the asset state and the standing issuance
/// restriction, if there is one.
pub fn gate_outcome(
    operation_kind: IssuerOperationKind,
    state: &AssetState,
    block: Option<String>,
) -> (r: (OperationDecisionOutcome, String))
    ensures
        (r.0, r.1@) == gated_outcome(
            operation_kind,
            *state,
            opt_text(block),
        ),
{
    let (outcome, reason) = evaluate_operation(operation_kind, state);
    if operation_kind == IssuerOperationKind::Issuance && outcome == OperationDecisionOutcome::Allowed {
        match block {
            Some(b) => return (OperationDecisionOutcome::Rejected, b),
            None => {},
        }
    }
    (outcome, reason)
}

/// The recorded fields of a decision that do not depend on the outcome.
pub open spec fn decision_header_holds(
    d: OperationDecision,
    operation_id: Seq<char>,
    kind: IssuerOperationKind,
    state: AssetState,
) -> bool {
    &&& d.operation_id@ == operation_id
    &&& d.operation_kind == kind
    &&& d.asset_state@ == state_code_text(state.state)
    &&& d.evidence_at_unix_ms == state.evidence_at_unix_ms
    &&& d.policy_version@ == operation_gate_policy_version()
}

/// Builds the decision record decided at `now_unix_ms`.
pub fn decision_record(
    operation_id: &str,
    operation_kind: IssuerOperationKind,
    state: &AssetState,
    block: Option<String>,
    now_unix_ms: u64,
) -> (d: OperationDecision)
    ensures
        decision_header_holds(d, operation_id@, operation_kind, *state),
        (d.outcome, d.reason@) == gated_outcome(
            operation_kind,
            *state,
            opt_text(block),
        ),
        d.decided_at_unix_ms == now_unix_ms,
{
    let (outcome, reason) = gate_outcome(operation_kind, state, block);
    OperationDecision {
        operation_id: String::from_str(operation_id),
        operation_kind,
        asset_state: String::from_str(state_code(state.state)),
        outcome,
        reason,
        evidence_at_unix_ms: state.evidence_at_unix_ms,
        policy_version: String::from_str("issuer-operation-gate-v1"),
        decided_at_unix_ms: now_unix_ms,
    }
}

/// Decides issuer operations against the asset state and records every
/// decision.
pub struct OperationGate<S, R> {
    store: S,
    issuance_restriction: Option<R>,
}

impl<S: OperationDecisionStore, R: IssuanceRestriction> OperationGate<S, R> {
    /// The audit log that receives each decision of this operation gate.
    pub closed spec fn decision_store(&self) -> S {
        self.store
    }

    /// The standing issuance restriction of this operation gate, if any.
    pub closed spec fn restriction(&self) -> Option<R> {
        self.issuance_restriction
    }

    /// The operation gate consults a standing issuance restriction.
    pub open spec fn restricts_issuance(&self) -> bool {
        self.restriction() is Some
    }

    /// The restriction is asked for a block reason: an issuance that the
    /// asset state allows, on a gate with a restriction.
    pub open spec fn consults_restriction(
        &self,
        kind: IssuerOperationKind,
        state: AssetState,
    ) -> bool {
        &&& kind == IssuerOperationKind::Issuance
        &&& operation_outcome(kind, state) == OperationDecisionOutcome::Allowed
        &&& self.restricts_issuance()
    }

    /// `block` is what this operation gate took as the block reason: the
    /// restriction's answer when it was consulted, none otherwise.
    pub open spec fn block_taken(
        &self,
        kind: IssuerOperationKind,
        state: AssetState,
        block: Option<String>,
    ) -> bool {
        if self.consults_restriction(kind, state) {
            call_ensures(
                R::block_reason,
                (&self.restriction()->0,),
                Ok::<Option<String>, OperationGateError>(block),
            )
        } else {
            block is None
        }
    }

    /// `d` is the decision that this operation gate builds for the operation.
    pub open spec fn decided(
        &self,
        d: OperationDecision,
        operation_id: Seq<char>,
        kind: IssuerOperationKind,
        state: AssetState,
    ) -> bool {
        &&& decision_header_holds(d, operation_id, kind, state)
        &&& exists|block: Option<String>|
            #[trigger] self.block_taken(kind, state, block) && (d.outcome, d.reason@)
                == gated_outcome(kind, state, opt_text(block))
    }

    /// `e` is how the decision failed: the consulted restriction failed
    /// with it, or the audit log failed with it to record the decision.
    pub open spec fn failed_with(
        &self,
        e: OperationGateError,
        operation_id: Seq<char>,
        kind: IssuerOperationKind,
        state: AssetState,
    ) -> bool {
        ||| self.consults_restriction(kind, state) && call_ensures(
            R::block_reason,
            (&self.restriction()->0,),
            Err::<Option<String>, OperationGateError>(e),
        )
        ||| exists|d: OperationDecision|
            #![trigger self.decided(d, operation_id, kind, state)]
            self.decided(d, operation_id, kind, state) && call_ensures(
                S::append,
                (&self.decision_store(), &d),
                Err::<(), OperationGateError>(e),
            )
    }

    /// A gate decided by the asset state alone.
    pub fn new(store: S) -> (g: Self)
        ensures
            g.decision_store() == store,
            g.restriction() is None,
    {
        OperationGate { store, issuance_restriction: None }
    }

    /// A gate that also honours a standing issuance restriction.
    pub fn with_issuance_restriction(store: S, issuance_restriction: R) -> (g: Self)
        ensures
            g.decision_store() == store,
            g.restriction() == Some(issuance_restriction),
    {
        OperationGate { store, issuance_restriction: Some(issuance_restriction) }
    }

    /// Decides an operation and appends the decision to the audit log.
    /// The restriction is consulted only for an issuance that the asset state
    /// allows; its failure, or a failure to record, fails the decision.
    pub fn decide(
        &self,
        operation_id: &str,
        operation_kind: IssuerOperationKind,
        state: &AssetState,
    ) -> (r: Result<OperationDecision, OperationGateError>)
        ensures
            r matches Ok(d) ==> {
                &&& self.decided(d, operation_id@, operation_kind, *state)
                &&& call_ensures(
                    S::append,
                    (&self.decision_store(), &d),
                    Ok::<(), OperationGateError>(()),
                )
            },
            r matches Err(e) ==> self.failed_with(e, operation_id@, operation_kind, *state),
    {
        let (outcome, _) = evaluate_operation(operation_kind, state);
        let block = if operation_kind == IssuerOperationKind::Issuance && outcome
            == OperationDecisionOutcome::Allowed {
            match &self.issuance_restriction {
                Some(restriction) => {
                    match restriction.block_reason() {
                        Ok(b) => b,
                        Err(e) => {
                            assert(self.failed_with(e, operation_id@, operation_kind, *state));
                            return Err(e);
                        },
                    }
                },
                None => None,
            }
        } else {
            None
        };
        assert(self.block_taken(operation_kind, *state, block));
        let decision = decision_record(
            operation_id,
            operation_kind,
            state,
            block,
            crate::clock::current_unix_ms(),
        );
        assert(self.decided(decision, operation_id@, operation_kind, *state));
        let recorded = self.store.append(&decision);
        match recorded {
            Ok(_u) => {
                assert(recorded == Ok::<(), OperationGateError>(()));
                Ok(decision)
            },
            Err(e) => {
                assert(self.failed_with(e, operation_id@, operation_kind, *state));
                Err(e)
            },
        }
    }
}

/// An operation decided `Allowed` by the operation gate is one that the asset state
/// allows: a standing restriction can only reject.
pub proof fn law_restriction_only_rejects(
    kind: IssuerOperationKind,
    state: AssetState,
    block: Option<Seq<char>>,
)
    ensures
        gated_outcome(kind, state, block).0 == OperationDecisionOutcome::Allowed
            ==> operation_outcome(kind, state) == OperationDecisionOutcome::Allowed,
        operation_outcome(kind, state) == OperationDecisionOutcome::Rejected ==> gated_outcome(
            kind,
            state,
            block,
        ) == (operation_outcome(kind, state), operation_reason(kind, state)),
{
}

/// In a data-unavailable state issuance is allowed only at the zero-supply
/// bootstrap: no coverage, and exactly the reason recorded when there is no
/// token supply. Any other unavailable state, such as a failed bank
/// request, rejects issuance with the state's own reason.
pub proof fn law_outage_rejects_issuance(state: AssetState)
    requires
        state.state == AssetStateCode::DataUnavailable,
    ensures
        operation_outcome(IssuerOperationKind::Issuance, state) == OperationDecisionOutcome::Allowed
            <==> (state.reserve_coverage is None && state.reason@
            == "Reserve coverage cannot be calculated without token supply"@),
        state.reason@ != "Reserve coverage cannot be calculated without token supply"@ ==> (
        operation_outcome(IssuerOperationKind::Issuance, state)
            == OperationDecisionOutcome::Rejected && operation_reason(
            IssuerOperationKind::Issuance,
            state,
        ) == "issuance is blocked in data_unavailable: "@ + state.reason@),
{
    reveal_strlit("data_unavailable");
    reveal_strlit("issuance is blocked in ");
    reveal_strlit("issuance is blocked in data_unavailable: ");
    reveal_strlit(": ");
    assert("issuance is blocked in "@ + "data_unavailable"@ + ": "@
        =~= "issuance is blocked in data_unavailable: "@);
}

/// Redemption at par is allowed in every asset state, restriction or not.
pub proof fn law_redemption_always_allowed(state: AssetState, block: Option<Seq<char>>)
    ensures
        gated_outcome(IssuerOperationKind::Redemption, state, block).0
            == OperationDecisionOutcome::Allowed,
{
}

/// Issuance is allowed only in the covered states or at the zero-supply
/// bootstrap, and never in wind-down.
pub proof fn law_issuance_needs_coverage(state: AssetState, block: Option<Seq<char>>)
    ensures
        gated_outcome(IssuerOperationKind::Issuance, state, block).0
            == OperationDecisionOutcome::Allowed ==> (state.state == AssetStateCode::Active
            || state.state == AssetStateCode::Warning || is_zero_supply_bootstrap(state)),
        state.state == AssetStateCode::WindDown ==> gated_outcome(
            IssuerOperationKind::Issuance,
            state,
            block,
        ).0 == OperationDecisionOutcome::Rejected,
{
}

} // verus!
