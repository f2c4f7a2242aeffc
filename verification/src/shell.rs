//! The interface as a state machine: from a state and an event to the next
//! state and the action the surrounding event loop must perform. The loop
//! itself (widgets, the HTTP call, the runtime) lives outside the library;
//! every decision it takes is made here.
use crate::report::render_outcome;
use crate::report::spec_render;
use crate::report::FetchError;
use crate::report::WeatherResponse;
use vstd::prelude::*;
use vstd::string::StringExecFns;

verus! {

/// The interface states: showing the startup placeholder, waiting on a
/// fetch, showing a report, or showing the fallback message.
#[derive(Clone, Copy, PartialEq, Eq, Structural, Debug)]
pub enum UiState {
    Idle,
    Fetching,
    ShowingReport,
    ShowingError,
}

/// What the event loop reports to the state machine.
pub enum UiEvent {
    /// The entry field was submitted with a location query.
    Submit(String),
    /// The pending fetch finished, successfully or not.
    FetchDone(Result<WeatherResponse, FetchError>),
    /// The user asked to quit.
    Quit,
}

/// What the event loop must do after a step.
pub enum UiAction {
    /// Begin a fetch-and-render cycle for this query.
    StartFetch(String),
    /// Replace the display region's content with this text.
    Show(String),
    /// Terminate the interface.
    Exit,
    /// Nothing to do.
    Ignore,
}

/// The sentinel query: the provider resolves the location from the caller's
/// network address.
pub open spec fn spec_sentinel_query() -> Seq<char> {
    "auto:ip"@
}

/// The next state for a state and an event. A submission always leads to
/// `Fetching`; a finished fetch is only consumed in `Fetching` and shows the
/// report or the error; quitting leaves the state as it was, since the loop
/// exits.
pub open spec fn spec_next_state(state: UiState, event: UiEvent) -> UiState {
    match event {
        UiEvent::Submit(_) => UiState::Fetching,
        UiEvent::FetchDone(outcome) => if state is Fetching {
            if outcome is Ok {
                UiState::ShowingReport
            } else {
                UiState::ShowingError
            }
        } else {
            state
        },
        UiEvent::Quit => state,
    }
}

/// Advance the interface by one event.
///
/// While a fetch is pending no second fetch is started: a submission that
/// arrives in `Fetching` is ignored, so no two fetches ever run
/// concurrently. A finished fetch shows the rendered outcome: the report on
/// success, the fallback message on any failure.
pub fn step(state: UiState, event: UiEvent) -> (r: (UiState, UiAction))
    ensures
        r.0 == spec_next_state(state, event),
        match event {
            UiEvent::Submit(q) => if state is Fetching {
                r.1 is Ignore
            } else {
                r.1 matches UiAction::StartFetch(u) && u@ == q@
            },
            UiEvent::FetchDone(outcome) => if state is Fetching {
                r.1 matches UiAction::Show(t) && t@ == spec_render(outcome)
            } else {
                r.1 is Ignore
            },
            UiEvent::Quit => r.1 is Exit,
        },
{
    match event {
        UiEvent::Submit(q) => {
            if state == UiState::Fetching {
                (UiState::Fetching, UiAction::Ignore)
            } else {
                (UiState::Fetching, UiAction::StartFetch(q))
            }
        },
        UiEvent::FetchDone(outcome) => {
            if state == UiState::Fetching {
                let next = if outcome.is_ok() {
                    UiState::ShowingReport
                } else {
                    UiState::ShowingError
                };
                (next, UiAction::Show(render_outcome(outcome)))
            } else {
                (state, UiAction::Ignore)
            }
        },
        UiEvent::Quit => (state, UiAction::Exit),
    }
}

/// The initial step: the interface starts in `Fetching`, with one automatic
/// fetch for the sentinel query.
pub fn init() -> (r: (UiState, UiAction))
    ensures
        r.0 is Fetching,
        r.1 matches UiAction::StartFetch(q) && q@ == spec_sentinel_query(),
{
    (UiState::Fetching, UiAction::StartFetch(String::from_str("auto:ip")))
}

/// Whatever was shown before — a report, the fallback message, or the
/// startup placeholder — a submission is accepted and starts a fresh fetch:
/// an error leaves the interface able to take the next query.
pub proof fn lemma_submission_always_accepted(state: UiState, q: String)
    ensures
        spec_next_state(state, UiEvent::Submit(q)) is Fetching,
{
}

} // verus!
