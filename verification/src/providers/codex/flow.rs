//! The order of a usage fetch: a weekly drop is confirmed before it is published.
//!
//! A first observation is published, or set aside in favour of the weekly window
//! that was published before, or confirmed by a second observation that decides
//! between the two.
use crate::snapshot::{CostSnapshot, UsageSnapshot};
use vstd::prelude::*;

verus! {

/// What the first observation calls for.
#[derive(Clone, Copy, PartialEq, Eq, Structural, Debug)]
pub enum InitialDecision {
    Publish,
    Preserve,
    RequiresConfirmation,
}

/// What the second observation calls for.
#[derive(Clone, Copy, PartialEq, Eq, Structural, Debug)]
pub enum ConfirmationDecision {
    Publish,
    Preserve,
}

/// One of the two observations of a fetch.
#[derive(Clone, Copy, PartialEq, Eq, Structural, Debug)]
pub enum Observation {
    First,
    Confirmation,
}

/// How a fetch ends.
#[derive(Clone, Copy, PartialEq, Eq, Structural, Debug)]
pub enum Outcome {
    /// The observation becomes the published one; its usage and its cost are shown.
    Publish(Observation),
    /// The first observation is shown with the weekly window that was published
    /// before, and with its own cost.
    Preserve,
    /// The first observation failed; its error is reported and nothing is kept.
    Fail,
}

/// Where a fetch stands.
#[derive(Clone, Copy, PartialEq, Eq, Structural, Debug)]
pub enum FetchState {
    /// The first observation is to be made.
    Observing,
    /// The first observation is to be judged.
    Judging,
    /// The second observation is to be made.
    Confirming,
    /// Both observations are to be judged.
    JudgingBoth,
    Done(Outcome),
}

/// What happened.
#[derive(Clone, Copy, PartialEq, Eq, Structural, Debug)]
pub enum FetchEvent {
    Observed,
    ObservationFailed,
    Judged(InitialDecision),
    JudgedBoth(ConfirmationDecision),
}

/// The event answers what the state asks for.
pub open spec fn answers(state: FetchState, event: FetchEvent) -> bool {
    match state {
        FetchState::Observing => event is Observed || event is ObservationFailed,
        FetchState::Judging => event is Judged,
        FetchState::Confirming => event is Observed || event is ObservationFailed,
        FetchState::JudgingBoth => event is JudgedBoth,
        FetchState::Done(_) => false,
    }
}

/// The state that an event leads to.
pub open spec fn next_state(state: FetchState, event: FetchEvent) -> FetchState {
    match (state, event) {
        (FetchState::Observing, FetchEvent::Observed) => FetchState::Judging,
        (FetchState::Observing, FetchEvent::ObservationFailed) => FetchState::Done(Outcome::Fail),
        (FetchState::Judging, FetchEvent::Judged(InitialDecision::Publish)) => FetchState::Done(
            Outcome::Publish(Observation::First),
        ),
        (FetchState::Judging, FetchEvent::Judged(InitialDecision::Preserve)) => FetchState::Done(Outcome::Preserve),
        (FetchState::Judging, FetchEvent::Judged(InitialDecision::RequiresConfirmation)) => FetchState::Confirming,
        (FetchState::Confirming, FetchEvent::Observed) => FetchState::JudgingBoth,
        (FetchState::Confirming, FetchEvent::ObservationFailed) => FetchState::Done(Outcome::Preserve),
        (FetchState::JudgingBoth, FetchEvent::JudgedBoth(ConfirmationDecision::Publish)) => FetchState::Done(
            Outcome::Publish(Observation::Confirmation),
        ),
        (FetchState::JudgingBoth, FetchEvent::JudgedBoth(ConfirmationDecision::Preserve)) => FetchState::Done(
            Outcome::Preserve,
        ),
        _ => state,
    }
}

/// Takes a fetch one step further.
pub fn advance(state: FetchState, event: FetchEvent) -> (r: FetchState)
    requires
        answers(state, event),
    ensures
        r == next_state(state, event),
{
    match event {
        FetchEvent::Observed => match state {
            FetchState::Observing => FetchState::Judging,
            _ => FetchState::JudgingBoth,
        },
        FetchEvent::ObservationFailed => match state {
            FetchState::Observing => FetchState::Done(Outcome::Fail),
            _ => FetchState::Done(Outcome::Preserve),
        },
        FetchEvent::Judged(decision) => match decision {
            InitialDecision::Publish => FetchState::Done(Outcome::Publish(Observation::First)),
            InitialDecision::Preserve => FetchState::Done(Outcome::Preserve),
            InitialDecision::RequiresConfirmation => FetchState::Confirming,
        },
        FetchEvent::JudgedBoth(decision) => match decision {
            ConfirmationDecision::Publish => FetchState::Done(Outcome::Publish(Observation::Confirmation)),
            ConfirmationDecision::Preserve => FetchState::Done(Outcome::Preserve),
        },
    }
}

/// What an outcome shows of two observations and a preserved snapshot.
pub open spec fn chosen(
    outcome: Outcome,
    first: (UsageSnapshot, Option<CostSnapshot>),
    confirmation: Option<(UsageSnapshot, Option<CostSnapshot>)>,
    preserved: Option<UsageSnapshot>,
) -> (UsageSnapshot, Option<CostSnapshot>) {
    match outcome {
        Outcome::Publish(Observation::First) => first,
        Outcome::Publish(Observation::Confirmation) => confirmation->0,
        _ => (preserved->0, first.1),
    }
}

/// What is shown at the end of a fetch that did not fail: usage and cost of the
/// published observation, or the preserved usage with the cost of the first one.
/// `preserved` is the first observation with the weekly window published before.
pub fn shown(
    outcome: Outcome,
    first: (UsageSnapshot, Option<CostSnapshot>),
    confirmation: Option<(UsageSnapshot, Option<CostSnapshot>)>,
    preserved: Option<UsageSnapshot>,
) -> (r: (UsageSnapshot, Option<CostSnapshot>))
    requires
        outcome != Outcome::Fail,
        outcome == Outcome::Publish(Observation::Confirmation) ==> confirmation is Some,
        outcome == Outcome::Preserve ==> preserved is Some,
    ensures
        r == chosen(outcome, first, confirmation, preserved),
{
    match outcome {
        Outcome::Publish(Observation::Confirmation) => match confirmation {
            Some(confirmation) => confirmation,
            None => first,
        },
        Outcome::Preserve => match preserved {
            Some(usage) => (usage, first.1),
            None => first,
        },
        _ => first,
    }
}

/// A row of events, each of which answers the state before it.
pub open spec fn is_run(events: Seq<FetchEvent>) -> bool
    decreases events.len(),
{
    events.len() == 0 || (is_run(events.drop_last()) && answers(state_after(events.drop_last()), events.last()))
}

/// The state after a row of events.
pub open spec fn state_after(events: Seq<FetchEvent>) -> FetchState
    decreases events.len(),
{
    if events.len() == 0 {
        FetchState::Observing
    } else {
        next_state(state_after(events.drop_last()), events.last())
    }
}

/// How many observations a row of events made or tried.
pub open spec fn observations(events: Seq<FetchEvent>) -> nat
    decreases events.len(),
{
    if events.len() == 0 {
        0
    } else {
        observations(events.drop_last()) + (if events.last() is Observed || events.last() is ObservationFailed {
            1nat
        } else {
            0nat
        })
    }
}

/// Where a run stands after its events.
proof fn lemma_run(events: Seq<FetchEvent>)
    requires
        is_run(events),
    ensures
        match state_after(events) {
            FetchState::Observing => events =~= seq![],
            FetchState::Judging => events =~= seq![FetchEvent::Observed],
            FetchState::Confirming => events =~= seq![
                FetchEvent::Observed,
                FetchEvent::Judged(InitialDecision::RequiresConfirmation),
            ],
            FetchState::JudgingBoth => events =~= seq![
                FetchEvent::Observed,
                FetchEvent::Judged(InitialDecision::RequiresConfirmation),
                FetchEvent::Observed,
            ],
            FetchState::Done(_) => events.len() > 0 && !(state_after(events.drop_last()) is Done),
        },
    decreases events.len(),
{
    if events.len() > 0 {
        lemma_run(events.drop_last());
        assert(events =~= events.drop_last().push(events.last()));
    }
}

/// A fetch ends after at most four events and observes at most twice.
pub proof fn law_fetches_are_bounded(events: Seq<FetchEvent>)
    requires
        is_run(events),
    ensures
        events.len() <= 4,
        observations(events) <= 2,
{
    lemma_run(events);
    lemma_observation_count(events);
    if events.len() > 0 {
        lemma_observation_count(events.drop_last());
    }
}

proof fn lemma_observation_count(events: Seq<FetchEvent>)
    requires
        is_run(events),
    ensures
        !(state_after(events) is Done) ==> {
            &&& events.len() <= 3
            &&& observations(events) == (match state_after(events) {
                FetchState::Observing => 0nat,
                FetchState::Judging => 1nat,
                FetchState::Confirming => 1nat,
                _ => 2nat,
            })
        },
    decreases events.len(),
{
    lemma_run(events);
    if events.len() > 0 {
        lemma_observation_count(events.drop_last());
    }
}

/// An observation is only published when its own judgement said so; a drop that
/// calls for confirmation is never published on the first observation alone.
pub proof fn law_publication_needs_its_judgement(events: Seq<FetchEvent>)
    requires
        is_run(events),
    ensures
        state_after(events) == FetchState::Done(Outcome::Publish(Observation::First)) ==> events =~= seq![
            FetchEvent::Observed,
            FetchEvent::Judged(InitialDecision::Publish),
        ],
        state_after(events) == FetchState::Done(Outcome::Publish(Observation::Confirmation)) ==> events =~= seq![
            FetchEvent::Observed,
            FetchEvent::Judged(InitialDecision::RequiresConfirmation),
            FetchEvent::Observed,
            FetchEvent::JudgedBoth(ConfirmationDecision::Publish),
        ],
{
    if events.len() > 0 {
        lemma_run(events.drop_last());
        lemma_run(events);
        assert(events =~= events.drop_last().push(events.last()));
    }
}

/// Once the first observation has succeeded the fetch cannot fail any more: a
/// confirmation that fails keeps the first observation.
pub proof fn law_a_failed_confirmation_keeps_the_first_observation(events: Seq<FetchEvent>)
    requires
        is_run(events),
        events.len() > 0,
        events.first() is Observed,
    ensures
        state_after(events) != FetchState::Done(Outcome::Fail),
        state_after(events.drop_last()) is Confirming && events.last() is ObservationFailed ==> state_after(events)
            == FetchState::Done(Outcome::Preserve),
{
    lemma_run(events.drop_last());
    lemma_run(events);
}

/// A published observation is shown with its own usage and its own cost, and a preserved one
/// with the preserved usage and the cost of the first observation.
pub proof fn law_what_is_published_is_shown(
    first: (UsageSnapshot, Option<CostSnapshot>),
    second: (UsageSnapshot, Option<CostSnapshot>),
    preserved: UsageSnapshot,
)
    ensures
        ({
            let shown_first = chosen(Outcome::Publish(Observation::First), first, Some(second), Some(preserved));
            let shown_second = chosen(Outcome::Publish(Observation::Confirmation), first, Some(second), Some(preserved));
            let kept = chosen(Outcome::Preserve, first, Some(second), Some(preserved));
            &&& shown_first.0 == first.0 && shown_first.1 == first.1
            &&& shown_second.0 == second.0 && shown_second.1 == second.1
            &&& kept.0 == preserved && kept.1 == first.1
        }),
{
}

/// A fetch goes from the first observation to its judgement, and only a call for confirmation
/// leads to a second one.
pub proof fn law_fetches_follow_their_judgements(decision: InitialDecision, last: ConfirmationDecision)
    ensures
        state_after(seq![]) == FetchState::Observing,
        next_state(FetchState::Observing, FetchEvent::Observed) == FetchState::Judging,
        next_state(FetchState::Observing, FetchEvent::ObservationFailed) == FetchState::Done(Outcome::Fail),
        next_state(FetchState::Judging, FetchEvent::Judged(decision)) == (if decision
            == InitialDecision::RequiresConfirmation {
            FetchState::Confirming
        } else if decision == InitialDecision::Publish {
            FetchState::Done(Outcome::Publish(Observation::First))
        } else {
            FetchState::Done(Outcome::Preserve)
        }),
        next_state(FetchState::JudgingBoth, FetchEvent::JudgedBoth(last)) == (if last
            == ConfirmationDecision::Publish {
            FetchState::Done(Outcome::Publish(Observation::Confirmation))
        } else {
            FetchState::Done(Outcome::Preserve)
        }),
{
}

/// Both observations may succeed or fail, a judgement answers the question that was asked, and
/// nothing comes after the end.
pub proof fn law_states_ask_for_their_events(a: InitialDecision, b: ConfirmationDecision, event: FetchEvent)
    ensures
        answers(FetchState::Observing, event) <==> event is Observed || event is ObservationFailed,
        answers(FetchState::Confirming, event) <==> event == FetchEvent::Observed || event
            == FetchEvent::ObservationFailed,
        answers(FetchState::Judging, FetchEvent::Judged(a)) && !answers(FetchState::Judging, FetchEvent::JudgedBoth(b)),
        answers(FetchState::JudgingBoth, FetchEvent::JudgedBoth(b)) && !answers(
            FetchState::JudgingBoth,
            FetchEvent::Judged(a),
        ),
        forall|state: FetchState| #[trigger] answers(state, event) ==> !(state is Done),
{
}

} // verus!
