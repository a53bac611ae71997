//! The asset state policy: how reserve coverage decides the operating state,
//! and how each event moves the persisted state.


use crate::domain::{AssetState, AssetStateCode, CoverageRatio, ReserveCoverage};
use crate::errors::AssetStateError;
use vstd::prelude::*;
use vstd::string::*;

verus! {

/// Version tag recorded with every asset state decision.
pub open spec fn asset_state_policy_version() -> Seq<char> {
    "reserve-coverage-v1"@
}

/// The asset state policy version as a `String`.
pub fn asset_state_policy_version_string() -> (s: String)
    ensures
        s@ == asset_state_policy_version(),
{
    String::from_str("reserve-coverage-v1")
}

/// Coverage is at or above the 105% safety margin.
pub open spec fn covers_safety_margin(r: CoverageRatio) -> bool {
    20 * (r.reserve_raw as int) >= 21 * (r.supply_raw as int)
}

/// Coverage is at or above 100%.
pub open spec fn covers_supply(r: CoverageRatio) -> bool {
    r.reserve_raw >= r.supply_raw
}

/// The state that a coverage reading decides.
pub open spec fn coverage_state(ratio: Option<CoverageRatio>) -> AssetStateCode {
    match ratio {
        None => AssetStateCode::DataUnavailable,
        Some(r) => if covers_safety_margin(r) {
            AssetStateCode::Active
        } else if covers_supply(r) {
            AssetStateCode::Warning
        } else {
            AssetStateCode::MintBlocked
        },
    }
}

/// The reason recorded with a coverage decision.
pub open spec fn coverage_reason(ratio: Option<CoverageRatio>) -> Seq<char> {
    match ratio {
        None => "Reserve coverage cannot be calculated without token supply"@,
        Some(r) => if covers_safety_margin(r) {
            "Reserve coverage is at or above the 105% demo safety margin"@
        } else if covers_supply(r) {
            "Reserve coverage is below the 105% demo safety margin"@
        } else {
            "Reserve coverage is below 100%; issuance must be blocked"@
        },
    }
}

/// `20 * reserve >= 21 * supply`, without overflow.
pub fn meets_safety_margin(r: CoverageRatio) -> (b: bool)
    ensures
        b == covers_safety_margin(r),
{
    if r.reserve_raw < r.supply_raw {
        return false;
    }
    let surplus = r.reserve_raw - r.supply_raw;
    let needed = r.supply_raw / 20 + if r.supply_raw % 20 == 0 {
        0
    } else {
        1
    };
    let ghost s = r.supply_raw as int;
    let ghost x = surplus as int;
    assert((x >= s / 20 + (if s % 20 == 0 {
        0int
    } else {
        1int
    })) == (20 * x >= s)) by (nonlinear_arith)
        requires
            s >= 0,
            x >= 0,
    ;
    surplus >= needed
}

/// The state evaluated from a coverage reading, decided at `now_unix_ms`.
pub fn evaluate_at(
    ratio: Option<CoverageRatio>,
    evidence_at_unix_ms: Option<u64>,
    now_unix_ms: u64,
) -> (s: AssetState)
    ensures
        s.state == coverage_state(ratio),
        s.reason@ == coverage_reason(ratio),
        s.reserve_coverage == ratio,
        s.evidence_at_unix_ms == evidence_at_unix_ms,
        s.policy_version@ == asset_state_policy_version(),
        s.updated_at_unix_ms == now_unix_ms,
{
    let (state, reason) = match ratio {
        None => (
            AssetStateCode::DataUnavailable,
            String::from_str("Reserve coverage cannot be calculated without token supply"),
        ),
        Some(r) => if meets_safety_margin(r) {
            (
                AssetStateCode::Active,
                String::from_str("Reserve coverage is at or above the 105% demo safety margin"),
            )
        } else if r.reserve_raw >= r.supply_raw {
            (
                AssetStateCode::Warning,
                String::from_str("Reserve coverage is below the 105% demo safety margin"),
            )
        } else {
            (
                AssetStateCode::MintBlocked,
                String::from_str("Reserve coverage is below 100%; issuance must be blocked"),
            )
        },
    };
    AssetState {
        state,
        reason,
        reserve_coverage: ratio,
        evidence_at_unix_ms,
        policy_version: asset_state_policy_version_string(),
        updated_at_unix_ms: now_unix_ms,
    }
}

/// The state evaluated from a coverage reading, decided now.
pub fn evaluate(ratio: Option<CoverageRatio>, evidence_at_unix_ms: Option<u64>) -> (s: AssetState)
    ensures
        s.state == coverage_state(ratio),
        s.reason@ == coverage_reason(ratio),
        s.reserve_coverage == ratio,
        s.evidence_at_unix_ms == evidence_at_unix_ms,
        s.policy_version@ == asset_state_policy_version(),
{
    evaluate_at(ratio, evidence_at_unix_ms, crate::clock::current_unix_ms())
}

/// What can happen to the persisted asset state.
pub enum AssetStateEvent {
    /// A fresh reserve coverage reading.
    Coverage(Option<CoverageRatio>),
    /// Reserve or supply evidence could not be read.
    DataUnavailable,
    /// Issuance is blocked by an explicit decision.
    BlockMint,
    /// The issuer enters the terminal wind-down.
    WindDown,
}

/// The state code after `event`, starting from `current`.
pub open spec fn next_state_code(current: AssetStateCode, event: AssetStateEvent) -> AssetStateCode {
    match event {
        AssetStateEvent::WindDown => AssetStateCode::WindDown,
        AssetStateEvent::Coverage(ratio) => if current == AssetStateCode::WindDown {
            current
        } else {
            coverage_state(ratio)
        },
        AssetStateEvent::DataUnavailable => if current == AssetStateCode::WindDown {
            current
        } else {
            AssetStateCode::DataUnavailable
        },
        AssetStateEvent::BlockMint => if current == AssetStateCode::WindDown {
            current
        } else {
            AssetStateCode::MintBlocked
        },
    }
}

/// The state code after a sequence of events.
pub open spec fn state_code_after(current: AssetStateCode, events: Seq<AssetStateEvent>) -> AssetStateCode
    decreases events.len(),
{
    if events.len() == 0 {
        current
    } else {
        state_code_after(next_state_code(current, events[0]), events.drop_first())
    }
}

/// Wind-down is manual and terminal: no later coverage reading, data outage
/// or mint block moves the asset out of it.
pub proof fn law_wind_down_is_terminal(events: Seq<AssetStateEvent>)
    ensures
        state_code_after(AssetStateCode::WindDown, events) == AssetStateCode::WindDown,
    decreases events.len(),
{
    if events.len() > 0 {
        law_wind_down_is_terminal(events.drop_first());
    }
}

/// The new state to persist after a coverage reading, or `None` when the
/// current state stays (wind-down).
pub fn after_coverage(current: &AssetState, coverage: &ReserveCoverage, now_unix_ms: u64) -> (r:
    Option<AssetState>)
    ensures
        current.state == AssetStateCode::WindDown <==> r is None,
        r matches Some(s) ==> {
            &&& s.state == next_state_code(current.state, AssetStateEvent::Coverage(coverage.ratio))
            &&& s.reason@ == coverage_reason(coverage.ratio)
            &&& s.reserve_coverage == coverage.ratio
            &&& s.evidence_at_unix_ms == Some(coverage.observed_at_unix_ms)
            &&& s.policy_version@ == asset_state_policy_version()
            &&& s.updated_at_unix_ms == now_unix_ms
        },
{
    if current.state == AssetStateCode::WindDown {
        return None;
    }
    Some(evaluate_at(coverage.ratio, Some(coverage.observed_at_unix_ms), now_unix_ms))
}

/// The new state to persist when evidence is unavailable, or `None` when
/// the current state stays (wind-down).
pub fn after_data_unavailable(current: &AssetState, reason: &str, now_unix_ms: u64) -> (r: Option<
    AssetState,
>)
    ensures
        current.state == AssetStateCode::WindDown <==> r is None,
        r matches Some(s) ==> {
            &&& s.state == next_state_code(current.state, AssetStateEvent::DataUnavailable)
            &&& s.reason@ == reason@
            &&& s.reserve_coverage is None
            &&& s.evidence_at_unix_ms is None
            &&& s.policy_version@ == asset_state_policy_version()
            &&& s.updated_at_unix_ms == now_unix_ms
        },
{
    if current.state == AssetStateCode::WindDown {
        return None;
    }
    Some(
        AssetState {
            state: AssetStateCode::DataUnavailable,
            reason: String::from_str(reason),
            reserve_coverage: None,
            evidence_at_unix_ms: None,
            policy_version: asset_state_policy_version_string(),
            updated_at_unix_ms: now_unix_ms,
        },
    )
}

/// The wind-down state; it keeps the last coverage evidence.
pub fn after_wind_down(current: &AssetState, reason: &str, now_unix_ms: u64) -> (s: AssetState)
    ensures
        s.state == next_state_code(current.state, AssetStateEvent::WindDown),
        s.reason@ == reason@,
        s.reserve_coverage == current.reserve_coverage,
        s.evidence_at_unix_ms == current.evidence_at_unix_ms,
        s.policy_version@ == asset_state_policy_version(),
        s.updated_at_unix_ms == now_unix_ms,
{
    AssetState {
        state: AssetStateCode::WindDown,
        reason: String::from_str(reason),
        reserve_coverage: current.reserve_coverage,
        evidence_at_unix_ms: current.evidence_at_unix_ms,
        policy_version: asset_state_policy_version_string(),
        updated_at_unix_ms: now_unix_ms,
    }
}

/// The new state to persist when minting is blocked explicitly, or `None`
/// when the current state stays (wind-down).
pub fn after_block_mint(
    current: &AssetState,
    reason: &str,
    projected_coverage: Option<CoverageRatio>,
    evidence_at_unix_ms: Option<u64>,
    now_unix_ms: u64,
) -> (r: Option<AssetState>)
    ensures
        current.state == AssetStateCode::WindDown <==> r is None,
        r matches Some(s) ==> {
            &&& s.state == next_state_code(current.state, AssetStateEvent::BlockMint)
            &&& s.reason@ == reason@
            &&& s.reserve_coverage == projected_coverage
            &&& s.evidence_at_unix_ms == evidence_at_unix_ms
            &&& s.policy_version@ == asset_state_policy_version()
            &&& s.updated_at_unix_ms == now_unix_ms
        },
{
    if current.state == AssetStateCode::WindDown {
        return None;
    }
    Some(
        AssetState {
            state: AssetStateCode::MintBlocked,
            reason: String::from_str(reason),
            reserve_coverage: projected_coverage,
            evidence_at_unix_ms,
            policy_version: asset_state_policy_version_string(),
            updated_at_unix_ms: now_unix_ms,
        },
    )
}

/// The state code's text, as stored and published.
pub open spec fn state_code_text(code: AssetStateCode) -> Seq<char> {
    match code {
        AssetStateCode::Active => "active"@,
        AssetStateCode::Warning => "warning"@,
        AssetStateCode::MintBlocked => "mint_blocked"@,
        AssetStateCode::DataUnavailable => "data_unavailable"@,
        AssetStateCode::WindDown => "wind_down"@,
    }
}

/// The state code's text, as stored and published.
pub fn state_code(code: AssetStateCode) -> (t: &'static str)
    ensures
        t@ == state_code_text(code),
{
    match code {
        AssetStateCode::Active => "active",
        AssetStateCode::Warning => "warning",
        AssetStateCode::MintBlocked => "mint_blocked",
        AssetStateCode::DataUnavailable => "data_unavailable",
        AssetStateCode::WindDown => "wind_down",
    }
}

/// Reads a stored state code; any unknown text reads as data unavailable.
pub open spec fn parsed_state_code(text: Seq<char>) -> AssetStateCode {
    if text == "active"@ {
        AssetStateCode::Active
    } else if text == "warning"@ {
        AssetStateCode::Warning
    } else if text == "mint_blocked"@ {
        AssetStateCode::MintBlocked
    } else if text == "wind_down"@ {
        AssetStateCode::WindDown
    } else {
        AssetStateCode::DataUnavailable
    }
}

/// Reads a stored state code; any unknown text reads as data unavailable.
pub fn parse_state_code(text: &str) -> (code: AssetStateCode)
    ensures
        code == parsed_state_code(text@),
{
    if crate::text::text_eq(text, "active") {
        AssetStateCode::Active
    } else if crate::text::text_eq(text, "warning") {
        AssetStateCode::Warning
    } else if crate::text::text_eq(text, "mint_blocked") {
        AssetStateCode::MintBlocked
    } else if crate::text::text_eq(text, "wind_down") {
        AssetStateCode::WindDown
    } else {
        AssetStateCode::DataUnavailable
    }
}

/// Storing a state code and reading it back gives the same code.
pub proof fn law_state_code_round_trip(code: AssetStateCode)
    ensures
        parsed_state_code(state_code_text(code)) == code,
{
    reveal_strlit("active");
    reveal_strlit("warning");
    reveal_strlit("mint_blocked");
    reveal_strlit("data_unavailable");
    reveal_strlit("wind_down");
    assert("active"@.len() == 6);
    assert("warning"@.len() == 7);
    assert("mint_blocked"@.len() == 12);
    assert("data_unavailable"@.len() == 16);
    assert("wind_down"@.len() == 9);
}

/// `r` is the current state that the store's answer `loaded` gives: a
/// stored state is returned, an empty store is an error, a storage failure
/// passes through.
pub open spec fn state_loaded(
    loaded: Result<Option<AssetState>, AssetStateError>,
    r: Result<AssetState, AssetStateError>,
) -> bool {
    match loaded {
        Ok(Some(s)) => r == Ok::<AssetState, AssetStateError>(s),
        Ok(None) => r matches Err(AssetStateError::Storage(m)) && m@
            == "asset state was not initialized"@,
        Err(e) => r == Err::<AssetState, AssetStateError>(e),
    }
}

/// `s` is the state that a coverage reading decides.
pub open spec fn covered_state(s: AssetState, coverage: ReserveCoverage) -> bool {
    &&& s.state == coverage_state(coverage.ratio)
    &&& s.reason@ == coverage_reason(coverage.ratio)
    &&& s.reserve_coverage == coverage.ratio
    &&& s.evidence_at_unix_ms == Some(coverage.observed_at_unix_ms)
    &&& s.policy_version@ == asset_state_policy_version()
}

/// `s` is the state that records unavailable evidence for `reason`.
pub open spec fn unavailable_state(s: AssetState, reason: Seq<char>) -> bool {
    &&& s.state == AssetStateCode::DataUnavailable
    &&& s.reason@ == reason
    &&& s.reserve_coverage is None
    &&& s.evidence_at_unix_ms is None
    &&& s.policy_version@ == asset_state_policy_version()
}

/// `s` is the wind-down state entered from `current` for `reason`.
pub open spec fn wind_down_state(s: AssetState, current: AssetState, reason: Seq<char>) -> bool {
    &&& s.state == AssetStateCode::WindDown
    &&& s.reason@ == reason
    &&& s.reserve_coverage == current.reserve_coverage
    &&& s.evidence_at_unix_ms == current.evidence_at_unix_ms
    &&& s.policy_version@ == asset_state_policy_version()
}

/// `s` is the state that blocks minting for `reason` with the given
/// projected coverage and evidence time.
pub open spec fn mint_blocked_state(
    s: AssetState,
    reason: Seq<char>,
    projected_coverage: Option<CoverageRatio>,
    evidence_at_unix_ms: Option<u64>,
) -> bool {
    &&& s.state == AssetStateCode::MintBlocked
    &&& s.reason@ == reason
    &&& s.reserve_coverage == projected_coverage
    &&& s.evidence_at_unix_ms == evidence_at_unix_ms
    &&& s.policy_version@ == asset_state_policy_version()
}

/// The persisted state read from what the store loaded: a stored state is
/// returned, an empty store is an error, a storage failure passes through.
pub fn state_from_load(loaded: Result<Option<AssetState>, AssetStateError>) -> (r: Result<
    AssetState,
    AssetStateError,
>)
    ensures
        state_loaded(loaded, r),
{
    match loaded {
        Ok(Some(state)) => Ok(state),
        Ok(None) => Err(AssetStateError::Storage(String::from_str("asset state was not initialized"))),
        Err(e) => Err(e),
    }
}

/// A wind-down request under an operation that was already recorded
/// repeats it when it gives the recorded reason; any other reason is a
/// conflicting reuse of the operation.
pub fn repeats_wind_down(recorded_reason: &str, reason: &str) -> (r: bool)
    ensures
        r == (recorded_reason@ == reason@),
{
    crate::text::text_eq(recorded_reason, reason)
}

/// Persistence of the single asset state.
pub trait AssetStateStore {
    fn load(&self) -> Result<Option<AssetState>, AssetStateError>;

    fn save(&self, state: &AssetState) -> Result<(), AssetStateError>;
}

/// A state returned by the service, and whether it was newly persisted
/// (and is therefore to be published to subscribers).
#[derive(Debug, Clone)]
pub struct StateUpdate {
    pub state: AssetState,
    pub persisted: bool,
}

/// The asset state, kept in a store and moved by coverage readings,
/// outages, mint blocks and the wind-down.
pub struct AssetStateService<S> {
    pub store: S,
}

impl<S: AssetStateStore> AssetStateService<S> {
    /// `r` is the current state that the store's `load` answer gives.
    pub open spec fn read_current(&self, r: Result<AssetState, AssetStateError>) -> bool {
        exists|loaded: Result<Option<AssetState>, AssetStateError>|
            #[trigger] call_ensures(S::load, (&self.store,), loaded) && state_loaded(loaded, r)
    }

    /// The store's `save` accepted `s`.
    pub open spec fn saved(&self, s: AssetState) -> bool {
        call_ensures(S::save, (&self.store, &s), Ok::<(), AssetStateError>(()))
    }

    /// The store's `save` refused `s` with `e`.
    pub open spec fn save_failed(&self, s: AssetState, e: AssetStateError) -> bool {
        call_ensures(S::save, (&self.store, &s), Err::<(), AssetStateError>(e))
    }

    /// What an update of the loaded state answers. When `keeps_wind_down`
    /// and the loaded state is the wind-down, nothing is saved and the state
    /// is read once more and returned as it stands; otherwise a state that
    /// `next` allows from the loaded one is saved and returned. A failure is
    /// the store's: loading, or saving that state.
    pub open spec fn update_outcome(
        &self,
        r: Result<StateUpdate, AssetStateError>,
        keeps_wind_down: bool,
        next: spec_fn(AssetState, AssetState) -> bool,
    ) -> bool {
        match r {
            Ok(u) => exists|loaded: AssetState|
                #[trigger] self.read_current(Ok::<AssetState, AssetStateError>(loaded)) && if keeps_wind_down
                    && loaded.state == AssetStateCode::WindDown {
                    !u.persisted && self.read_current(Ok::<AssetState, AssetStateError>(u.state))
                } else {
                    u.persisted && self.saved(u.state) && next(loaded, u.state)
                },
            Err(e) => {
                ||| self.read_current(Err::<AssetState, AssetStateError>(e))
                ||| exists|loaded: AssetState, s: AssetState|
                    #![trigger self.read_current(Ok::<AssetState, AssetStateError>(loaded)), self.save_failed(s, e)]
                    {
                        &&& self.read_current(Ok::<AssetState, AssetStateError>(loaded))
                        &&& !(keeps_wind_down && loaded.state == AssetStateCode::WindDown)
                        &&& next(loaded, s)
                        &&& self.save_failed(s, e)
                    }
            },
        }
    }

    pub fn new(store: S) -> (service: Self)
        ensures
            service.store == store,
    {
        AssetStateService { store }
    }

    /// The persisted state, read by `state_from_load` from what the store
    /// loads; an error when none was ever stored.
    pub fn current(&self) -> (r: Result<AssetState, AssetStateError>)
        ensures
            self.read_current(r),
    {
        let loaded = self.store.load();
        let r = state_from_load(loaded);
        assert(call_ensures(S::load, (&self.store,), loaded) && state_loaded(loaded, r));
        r
    }

    /// The state as it stands, read again and not persisted.
    fn current_unchanged(&self) -> (r: Result<StateUpdate, AssetStateError>)
        ensures
            r matches Ok(u) ==> !u.persisted && self.read_current(
                Ok::<AssetState, AssetStateError>(u.state),
            ),
            r matches Err(e) ==> self.read_current(Err::<AssetState, AssetStateError>(e)),
    {
        match self.current() {
            Ok(state) => Ok(StateUpdate { state, persisted: false }),
            Err(e) => Err(e),
        }
    }

    fn persist(&self, state: AssetState) -> (r: Result<StateUpdate, AssetStateError>)
        ensures
            r matches Ok(u) ==> u.state == state && u.persisted && self.saved(state),
            r matches Err(e) ==> self.save_failed(state, e),
    {
        let saved = self.store.save(&state);
        match saved {
            Ok(_u) => {
                assert(saved == Ok::<(), AssetStateError>(()));
                Ok(StateUpdate { state, persisted: true })
            },
            Err(e) => Err(e),
        }
    }

    /// Applies a coverage reading: the evaluated state is persisted unless
    /// the asset is in wind-down, which stays as it is.
    pub fn evaluate_coverage(&self, coverage: &ReserveCoverage) -> (r: Result<
        StateUpdate,
        AssetStateError,
    >)
        ensures
            self.update_outcome(
                r,
                true,
                |loaded: AssetState, s: AssetState| covered_state(s, *coverage),
            ),
    {
        let current = match self.current() {
            Ok(s) => s,
            Err(e) => {
                return Err(e);
            },
        };
        match after_coverage(&current, coverage, crate::clock::current_unix_ms()) {
            None => {
                assert(self.read_current(Ok::<AssetState, AssetStateError>(current)));
                self.current_unchanged()
            },
            Some(next) => {
                let r = self.persist(next);
                assert(self.read_current(Ok::<AssetState, AssetStateError>(current)));
                r
            },
        }
    }

    /// Records that the reserve evidence is unavailable, unless the asset
    /// is in wind-down.
    pub fn mark_data_unavailable(&self, reason: &str) -> (r: Result<StateUpdate, AssetStateError>)
        ensures
            self.update_outcome(
                r,
                true,
                |loaded: AssetState, s: AssetState| unavailable_state(s, reason@),
            ),
    {
        let current = match self.current() {
            Ok(s) => s,
            Err(e) => {
                return Err(e);
            },
        };
        match after_data_unavailable(&current, reason, crate::clock::current_unix_ms()) {
            None => {
                assert(self.read_current(Ok::<AssetState, AssetStateError>(current)));
                self.current_unchanged()
            },
            Some(next) => {
                let r = self.persist(next);
                assert(self.read_current(Ok::<AssetState, AssetStateError>(current)));
                r
            },
        }
    }

    /// Enters the terminal wind-down, keeping the last coverage evidence.
    pub fn enter_wind_down(&self, reason: &str) -> (r: Result<StateUpdate, AssetStateError>)
        ensures
            self.update_outcome(
                r,
                false,
                |loaded: AssetState, s: AssetState| wind_down_state(s, loaded, reason@),
            ),
    {
        let current = match self.current() {
            Ok(s) => s,
            Err(e) => {
                return Err(e);
            },
        };
        let next = after_wind_down(&current, reason, crate::clock::current_unix_ms());
        let r = self.persist(next);
        assert(self.read_current(Ok::<AssetState, AssetStateError>(current)));
        r
    }

    /// Blocks minting with the projected coverage as evidence, unless the
    /// asset is in wind-down.
    pub fn block_mint(
        &self,
        reason: &str,
        projected_coverage: Option<CoverageRatio>,
        evidence_at_unix_ms: Option<u64>,
    ) -> (r: Result<StateUpdate, AssetStateError>)
        ensures
            self.update_outcome(
                r,
                true,
                |loaded: AssetState, s: AssetState|
                    mint_blocked_state(s, reason@, projected_coverage, evidence_at_unix_ms),
            ),
    {
        let current = match self.current() {
            Ok(s) => s,
            Err(e) => {
                return Err(e);
            },
        };
        match after_block_mint(
            &current,
            reason,
            projected_coverage,
            evidence_at_unix_ms,
            crate::clock::current_unix_ms(),
        ) {
            None => {
                assert(self.read_current(Ok::<AssetState, AssetStateError>(current)));
                self.current_unchanged()
            },
            Some(next) => {
                let r = self.persist(next);
                assert(self.read_current(Ok::<AssetState, AssetStateError>(current)));
                r
            },
        }
    }
}

} // verus!
