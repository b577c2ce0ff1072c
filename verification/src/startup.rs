//! The startup policy: the catalog is fetched at most three times, one
//! attempt straight after the other. The first success fills the registry
//! and makes the process ready; when the budget is spent without a success
//! the process has to terminate rather than serve from an empty registry.
//!
//! The fetch itself is outside work. This module holds the decisions only:
//! the caller performs the action that a phase asks for and reports the
//! outcome of each fetch to [`advance`].

use vstd::prelude::*;

use crate::catalog::{Language, LanguageView};
use crate::registry::RuntimeRegistry;

verus! {

/// How many fetch attempts the startup makes before it gives up.
pub const MAX_FETCH_ATTEMPTS: u32 = 3;

/// Why a fetch of the catalog failed.
#[derive(Clone, Copy, Debug, PartialEq, Eq, Structural)]
pub enum FetchError {
    /// The catalog endpoint could not be reached, or timed out.
    Transport,
    /// The endpoint answered, but not with a well-formed catalog.
    Decode,
}

/// Where the startup stands.
#[derive(Clone, Copy, Debug, PartialEq, Eq, Structural)]
pub enum StartupPhase {
    /// No fetch has succeeded yet; `failures` attempts have failed.
    Fetching { failures: u32 },
    /// A fetch succeeded and the registry holds its records.
    Ready,
    /// The budget is spent without a success.
    Terminated,
}

/// What the caller has to do in a phase.
#[derive(Clone, Copy, Debug, PartialEq, Eq, Structural)]
pub enum StartupAction {
    /// Fetch the catalog once and report the outcome.
    Fetch,
    /// Start serving requests.
    Serve,
    /// Exit the process with a failure status.
    Exit,
}

/// The phase and the registry's records, taken together.
pub struct StartupModel {
    pub phase: StartupPhase,
    pub records: Seq<LanguageView>,
}

/// Mathematical value of the outcome of one fetch.
pub open spec fn outcome_view(outcome: Result<Vec<Language>, FetchError>) -> Result<
    Seq<LanguageView>,
    FetchError,
> {
    match outcome {
        Ok(entries) => Ok(entries.deep_view()),
        Err(error) => Err(error),
    }
}

/// The state in which every startup begins: nothing fetched, nothing held.
pub open spec fn initial_model() -> StartupModel {
    StartupModel {
        phase: StartupPhase::Fetching { failures: 0 },
        records: Seq::<LanguageView>::empty(),
    }
}

/// The action that a phase asks for.
pub open spec fn action_of(phase: StartupPhase) -> StartupAction {
    match phase {
        StartupPhase::Fetching { failures } => if failures < MAX_FETCH_ATTEMPTS {
            StartupAction::Fetch
        } else {
            StartupAction::Exit
        },
        StartupPhase::Ready => StartupAction::Serve,
        StartupPhase::Terminated => StartupAction::Exit,
    }
}

/// One transition. While the budget lasts, a success makes the startup ready
/// with exactly the fetched records, and a failure counts against the budget
/// and leaves the records as they are; the failure that spends the budget
/// terminates. A startup that is ready or terminated stays as it is.
pub open spec fn step(state: StartupModel, outcome: Result<Seq<LanguageView>, FetchError>)
    -> StartupModel {
    match state.phase {
        StartupPhase::Fetching { failures } => if failures >= MAX_FETCH_ATTEMPTS {
            StartupModel { phase: StartupPhase::Terminated, records: state.records }
        } else {
            match outcome {
                Ok(entries) => StartupModel { phase: StartupPhase::Ready, records: entries },
                Err(_) => if failures + 1 == MAX_FETCH_ATTEMPTS {
                    StartupModel { phase: StartupPhase::Terminated, records: state.records }
                } else {
                    StartupModel {
                        phase: StartupPhase::Fetching { failures: (failures + 1) as u32 },
                        records: state.records,
                    }
                },
            }
        },
        StartupPhase::Ready => state,
        StartupPhase::Terminated => state,
    }
}

/// The state after a whole sequence of fetch outcomes, reported in order.
pub open spec fn run(state: StartupModel, outcomes: Seq<Result<Seq<LanguageView>, FetchError>>)
    -> StartupModel
    decreases outcomes.len(),
{
    if outcomes.len() == 0 {
        state
    } else {
        run(step(state, outcomes.first()), outcomes.drop_first())
    }
}

impl StartupPhase {
    /// The phase in which every startup begins.
    pub fn initial() -> (phase: StartupPhase)
        ensures
            phase == initial_model().phase,
    {
        StartupPhase::Fetching { failures: 0 }
    }

    /// What the caller has to do next.
    pub fn action(&self) -> (action: StartupAction)
        ensures
            action == action_of(*self),
    {
        match self {
            StartupPhase::Fetching { failures } => {
                if *failures < MAX_FETCH_ATTEMPTS {
                    StartupAction::Fetch
                } else {
                    StartupAction::Exit
                }
            },
            StartupPhase::Ready => StartupAction::Serve,
            StartupPhase::Terminated => StartupAction::Exit,
        }
    }
}

/// Takes the outcome of one fetch and moves the startup on. On the first
/// success within the budget the registry's whole record set is replaced by
/// the fetched one; in every other case the registry is left untouched.
pub fn advance(
    phase: StartupPhase,
    outcome: Result<Vec<Language>, FetchError>,
    registry: &mut RuntimeRegistry,
) -> (next: StartupPhase)
    ensures
        (StartupModel { phase: next, records: final(registry)@ }) == step(
            StartupModel { phase, records: old(registry)@ },
            outcome_view(outcome),
        ),
{
    match phase {
        StartupPhase::Fetching { failures } => {
            if failures >= MAX_FETCH_ATTEMPTS {
                StartupPhase::Terminated
            } else {
                match outcome {
                    Ok(entries) => {
                        registry.replace_all(entries);
                        StartupPhase::Ready
                    },
                    Err(_) => {
                        if failures + 1 == MAX_FETCH_ATTEMPTS {
                            StartupPhase::Terminated
                        } else {
                            StartupPhase::Fetching { failures: failures + 1 }
                        }
                    },
                }
            }
        },
        StartupPhase::Ready => StartupPhase::Ready,
        StartupPhase::Terminated => StartupPhase::Terminated,
    }
}

/// Every outcome in the sequence is a failure.
pub open spec fn all_failed(outcomes: Seq<Result<Seq<LanguageView>, FetchError>>) -> bool {
    forall|i: int| 0 <= i < outcomes.len() ==> (#[trigger] outcomes[i]) is Err
}

/// A startup that is ready stays ready, with the same records, whatever is
/// reported to it afterwards.
pub proof fn lemma_ready_is_final(
    records: Seq<LanguageView>,
    outcomes: Seq<Result<Seq<LanguageView>, FetchError>>,
)
    ensures
        run(StartupModel { phase: StartupPhase::Ready, records }, outcomes) == (StartupModel {
            phase: StartupPhase::Ready,
            records,
        }),
    decreases outcomes.len(),
{
    if outcomes.len() > 0 {
        lemma_ready_is_final(records, outcomes.drop_first());
    }
}

/// A startup that has terminated stays terminated, with the same records,
/// whatever is reported to it afterwards.
pub proof fn lemma_terminated_is_final(
    records: Seq<LanguageView>,
    outcomes: Seq<Result<Seq<LanguageView>, FetchError>>,
)
    ensures
        run(StartupModel { phase: StartupPhase::Terminated, records }, outcomes) == (
        StartupModel { phase: StartupPhase::Terminated, records }),
    decreases outcomes.len(),
{
    if outcomes.len() > 0 {
        lemma_terminated_is_final(records, outcomes.drop_first());
    }
}

/// Running over a sequence of outcomes and then over one more is running
/// over the sequence with that one appended.
pub proof fn lemma_run_push(
    state: StartupModel,
    outcomes: Seq<Result<Seq<LanguageView>, FetchError>>,
    last: Result<Seq<LanguageView>, FetchError>,
)
    ensures
        run(state, outcomes.push(last)) == step(run(state, outcomes), last),
    decreases outcomes.len(),
{
    let extended = outcomes.push(last);
    if outcomes.len() == 0 {
        assert(extended.first() == last);
        assert(extended.drop_first() =~= outcomes);
        assert(run(state, extended) == run(step(state, last), outcomes));
    } else {
        assert(extended.first() == outcomes.first());
        assert(extended.drop_first() =~= outcomes.drop_first().push(last));
        lemma_run_push(step(state, outcomes.first()), outcomes.drop_first(), last);
    }
}

/// After fewer failures than the budget allows, and nothing else, the
/// startup is still fetching, has counted each failure, and holds nothing.
pub proof fn lemma_failures_are_counted(outcomes: Seq<Result<Seq<LanguageView>, FetchError>>)
    requires
        outcomes.len() < MAX_FETCH_ATTEMPTS,
        all_failed(outcomes),
    ensures
        run(initial_model(), outcomes) == (StartupModel {
            phase: StartupPhase::Fetching { failures: outcomes.len() as u32 },
            records: Seq::<LanguageView>::empty(),
        }),
    decreases outcomes.len(),
{
    if outcomes.len() > 0 {
        let earlier = outcomes.drop_last();
        assert(all_failed(earlier)) by {
            assert forall|i: int| 0 <= i < earlier.len() implies (#[trigger] earlier[i]) is Err by {
                assert(earlier[i] == outcomes[i]);
            }
        }
        lemma_failures_are_counted(earlier);
        assert(outcomes =~= earlier.push(outcomes.last()));
        lemma_run_push(initial_model(), earlier, outcomes.last());
        assert(outcomes[outcomes.len() - 1] is Err);
    }
}

/// Retry within the budget. When fewer fetches than the budget allows have
/// failed and the next one succeeds, the startup is ready and the registry
/// holds exactly the records of that success; whatever is reported after
/// that changes nothing.
pub proof fn lemma_success_within_budget_makes_ready(
    failures: Seq<Result<Seq<LanguageView>, FetchError>>,
    entries: Seq<LanguageView>,
    later: Seq<Result<Seq<LanguageView>, FetchError>>,
)
    requires
        failures.len() < MAX_FETCH_ATTEMPTS,
        all_failed(failures),
    ensures
        run(initial_model(), failures.push(Ok(entries)) + later) == (StartupModel {
            phase: StartupPhase::Ready,
            records: entries,
        }),
{
    lemma_failures_are_counted(failures);
    lemma_run_push(initial_model(), failures, Ok(entries));
    lemma_run_concat(initial_model(), failures.push(Ok(entries)), later);
    lemma_ready_is_final(entries, later);
}

/// Exhausted budget. When the first fetches, as many as the budget allows,
/// have all failed, the startup has terminated and the registry still holds
/// nothing; whatever is reported after that, a success included, changes
/// nothing.
pub proof fn lemma_exhausted_budget_terminates(
    failures: Seq<Result<Seq<LanguageView>, FetchError>>,
    later: Seq<Result<Seq<LanguageView>, FetchError>>,
)
    requires
        failures.len() == MAX_FETCH_ATTEMPTS,
        all_failed(failures),
    ensures
        run(initial_model(), failures + later) == (StartupModel {
            phase: StartupPhase::Terminated,
            records: Seq::<LanguageView>::empty(),
        }),
{
    let earlier = failures.drop_last();
    assert(all_failed(earlier)) by {
        assert forall|i: int| 0 <= i < earlier.len() implies (#[trigger] earlier[i]) is Err by {
            assert(earlier[i] == failures[i]);
        }
    }
    lemma_failures_are_counted(earlier);
    assert(failures =~= earlier.push(failures.last()));
    lemma_run_push(initial_model(), earlier, failures.last());
    assert(failures[failures.len() - 1] is Err);
    lemma_run_concat(initial_model(), failures, later);
    lemma_terminated_is_final(Seq::<LanguageView>::empty(), later);
}

/// Running over two sequences in turn is running over their concatenation.
pub proof fn lemma_run_concat(
    state: StartupModel,
    first: Seq<Result<Seq<LanguageView>, FetchError>>,
    second: Seq<Result<Seq<LanguageView>, FetchError>>,
)
    ensures
        run(state, first + second) == run(run(state, first), second),
    decreases first.len(),
{
    if first.len() == 0 {
        assert(first + second =~= second);
    } else {
        assert((first + second).drop_first() =~= first.drop_first() + second);
        lemma_run_concat(step(state, first.first()), first.drop_first(), second);
    }
}

/// The registry is never partly updated: after a transition it holds either
/// the records it held before, or the whole record set of the reported
/// success.
pub proof fn lemma_records_are_old_or_new(
    state: StartupModel,
    outcome: Result<Seq<LanguageView>, FetchError>,
)
    ensures
        step(state, outcome).records == state.records || (outcome matches Ok(entries) && step(
            state,
            outcome,
        ).records == entries),
{
}

} // verus!
