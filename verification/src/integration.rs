//! Integration states: the internal kind, the schema state, the contents of a
//! provider's status file, and the built-in recommendations.
use vstd::prelude::*;
use crate::schema::{opt_string_view, IntegrationInfo, IntegrationState, IntegrationTarget};

verus! {

/// Installation state of an integration, as the integration code tracks it.
#[derive(Debug, Clone, Copy, PartialEq, Eq, Structural)]
pub enum IntegrationStatusKind {
    NotInstalled,
    Current,
    Outdated,
}

/// The schema state that stands for a status kind.
pub open spec fn schema_state(state: IntegrationStatusKind) -> IntegrationState {
    match state {
        IntegrationStatusKind::NotInstalled => IntegrationState::NotInstalled,
        IntegrationStatusKind::Current => IntegrationState::Current,
        IntegrationStatusKind::Outdated => IntegrationState::Outdated,
    }
}

/// Converts a status kind to the state that the API reports.
pub fn state_to_schema(state: IntegrationStatusKind) -> (r: IntegrationState)
    ensures
        r == schema_state(state),
{
    match state {
        IntegrationStatusKind::NotInstalled => IntegrationState::NotInstalled,
        IntegrationStatusKind::Current => IntegrationState::Current,
        IntegrationStatusKind::Outdated => IntegrationState::Outdated,
    }
}

/// The state that a provider's status file declares.
#[derive(Debug, Clone, Copy, PartialEq, Eq, Structural)]
pub enum StateFileState {
    NotInstalled,
    Current,
    Outdated,
}

/// The parsed contents of a provider's status file.
#[derive(Debug, Clone, PartialEq, Eq)]
pub struct StateFile {
    pub state: StateFileState,
    pub available: Option<bool>,
    pub message: Option<String>,
}

/// The status kind that a status file state stands for.
pub open spec fn file_state_kind(state: StateFileState) -> IntegrationStatusKind {
    match state {
        StateFileState::NotInstalled => IntegrationStatusKind::NotInstalled,
        StateFileState::Current => IntegrationStatusKind::Current,
        StateFileState::Outdated => IntegrationStatusKind::Outdated,
    }
}

/// What a status file says: its state, its availability where it gives one
/// (else `default_available`), and its message.
pub open spec fn spec_state_from_file(parsed: StateFile, default_available: bool) -> (
    IntegrationStatusKind,
    bool,
    Option<Seq<char>>,
) {
    (
        file_state_kind(parsed.state),
        match parsed.available {
            Some(a) => a,
            None => default_available,
        },
        opt_string_view(parsed.message),
    )
}

/// Reads the state, availability and message out of a parsed status file.
/// An availability in the file overrides `default_available`.
pub fn state_from_file(parsed: StateFile, default_available: bool) -> (r: (
    IntegrationStatusKind,
    bool,
    Option<String>,
))
    ensures
        (r.0, r.1, opt_string_view(r.2)) == spec_state_from_file(parsed, default_available),
        r.2 == parsed.message,
{
    let state = match parsed.state {
        StateFileState::NotInstalled => IntegrationStatusKind::NotInstalled,
        StateFileState::Current => IntegrationStatusKind::Current,
        StateFileState::Outdated => IntegrationStatusKind::Outdated,
    };
    let available = match parsed.available {
        Some(a) => a,
        None => default_available,
    };
    (state, available, parsed.message)
}

/// A built-in integration target as the recommendation scan found it.
#[derive(Debug, Clone, PartialEq, Eq)]
pub struct IntegrationRecommendation {
    pub target: IntegrationTarget,
    pub label: String,
    pub command: String,
    pub available: bool,
    pub state: IntegrationStatusKind,
}

/// The API entry that stands for a recommendation.
pub open spec fn recommendation_info_matches(
    info: IntegrationInfo,
    recommendation: IntegrationRecommendation,
) -> bool {
    &&& info.target == recommendation.target
    &&& info.label@ == recommendation.label@
    &&& info.command@ == recommendation.command@
    &&& info.available == recommendation.available
    &&& info.state == schema_state(recommendation.state)
}

/// The API entries for the recommendations, one for each, in their order.
pub fn integration_infos(recommendations: &[IntegrationRecommendation]) -> (r: Vec<IntegrationInfo>)
    ensures
        r.len() == recommendations.len(),
        forall|k: int|
            0 <= k < r.len() ==> recommendation_info_matches(
                #[trigger] r[k],
                recommendations[k],
            ),
{
    let mut out: Vec<IntegrationInfo> = Vec::new();
    let mut i: usize = 0;
    while i < recommendations.len()
        invariant
            i <= recommendations.len(),
            out.len() == i,
            forall|k: int|
                0 <= k < i ==> recommendation_info_matches(#[trigger] out[k], recommendations[k]),
        decreases recommendations.len() - i,
    {
        let recommendation = &recommendations[i];
        out.push(
            IntegrationInfo {
                target: recommendation.target,
                label: recommendation.label.clone(),
                command: recommendation.command.clone(),
                available: recommendation.available,
                state: state_to_schema(recommendation.state),
            },
        );
        i = i + 1;
    }
    out
}

} // verus!
