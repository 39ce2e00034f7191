//! The event-loop driver: polls until the cancellation signal or a transport
//! error ends the loop, and tells the two apart.

use vstd::prelude::*;

verus! {

/// A transport event as `rumqttc` hands it out; its content is not read.
#[verifier::external_type_specification]
#[verifier::external_body]
pub struct ExEvent(rumqttc::Event);

/// A transport error as `rumqttc` hands it out.
#[verifier::external_type_specification]
#[verifier::external_body]
pub struct ExConnectionError(rumqttc::ConnectionError);

/// How the run ended.
#[derive(Clone, Copy, Debug, PartialEq, Eq, Structural)]
pub enum ExitOutcome {
    Success,
    Failure,
}

/// What one poll of the transport gave.
#[derive(Clone, Copy, Debug, PartialEq, Eq, Structural)]
pub enum PollOutcome {
    /// An event arrived; the connection is alive.
    Event,
    /// The cancellation signal: the session asked the loop to stop.
    Cancelled,
    /// Any other transport error.
    Failed,
}

/// Where the driver stands.
#[derive(Clone, Copy, Debug, PartialEq, Eq, Structural)]
pub enum DriverState {
    /// Polling while commands may be in flight.
    Polling,
    /// Still polling, after the driver was told that cancellation was
    /// requested and before the signal was observed.
    Draining,
    /// The loop is over.
    Terminated(ExitOutcome),
}

/// What the loop does after a poll.
#[derive(Clone, Copy, Debug, PartialEq, Eq, Structural)]
pub enum LoopDecision {
    Continue,
    Stop(ExitOutcome),
}

/// The state after a poll: an event changes nothing, the cancellation
/// signal ends the loop in success, any other error ends it in failure, and
/// a terminated driver stays as it is.
pub open spec fn after_poll(state: DriverState, outcome: PollOutcome) -> DriverState {
    match state {
        DriverState::Terminated(_) => state,
        _ => match outcome {
            PollOutcome::Event => state,
            PollOutcome::Cancelled => DriverState::Terminated(ExitOutcome::Success),
            PollOutcome::Failed => DriverState::Terminated(ExitOutcome::Failure),
        },
    }
}

/// The state once cancellation is known to be requested.
pub open spec fn after_cancel_request(state: DriverState) -> DriverState {
    match state {
        DriverState::Polling => DriverState::Draining,
        _ => state,
    }
}

/// What the loop does in a state.
pub open spec fn decision_in(state: DriverState) -> LoopDecision {
    match state {
        DriverState::Terminated(outcome) => LoopDecision::Stop(outcome),
        _ => LoopDecision::Continue,
    }
}

/// The process exit code of an outcome.
pub open spec fn exit_code_of(outcome: ExitOutcome) -> i32 {
    match outcome {
        ExitOutcome::Success => 0i32,
        ExitOutcome::Failure => 1i32,
    }
}

/// The state after a whole sequence of polls.
pub open spec fn after_polls(state: DriverState, outcomes: Seq<PollOutcome>) -> DriverState
    decreases outcomes.len(),
{
    if outcomes.len() == 0 {
        state
    } else {
        after_polls(after_poll(state, outcomes[0]), outcomes.drop_first())
    }
}

/// Whether a transport error is the cancellation signal: `rumqttc`'s
/// `ConnectionError::Cancel`, the error that a poll returns after the client
/// asked for cancellation.
pub uninterp spec fn cancellation_of(error: rumqttc::ConnectionError) -> bool;

/// What a poll's result stands for: an event, the cancellation signal, or a
/// failure for every other error.
pub open spec fn outcome_of(
    result: Result<rumqttc::Event, rumqttc::ConnectionError>,
) -> PollOutcome {
    match result {
        Ok(_) => PollOutcome::Event,
        Err(error) => if cancellation_of(error) {
            PollOutcome::Cancelled
        } else {
            PollOutcome::Failed
        },
    }
}

/// Tells whether a transport error is the variant `ConnectionError::Cancel`
/// of `rumqttc`. Trusted: the answer depends on the error alone, and is the
/// one that `cancellation_of` names.
#[verifier::external_body]
fn is_cancellation(error: &rumqttc::ConnectionError) -> (answer: bool)
    ensures
        answer == cancellation_of(*error),
{
    matches!(error, rumqttc::ConnectionError::Cancel)
}

/// The outcome that stands for an error, given whether it is the
/// cancellation signal.
pub fn error_outcome(cancellation: bool) -> (outcome: PollOutcome)
    ensures
        outcome == if cancellation {
            PollOutcome::Cancelled
        } else {
            PollOutcome::Failed
        },
{
    if cancellation {
        PollOutcome::Cancelled
    } else {
        PollOutcome::Failed
    }
}

/// Sorts what a poll returned: an event, the cancellation signal, or a
/// failure for every other error.
pub fn classify(result: &Result<rumqttc::Event, rumqttc::ConnectionError>) -> (outcome:
    PollOutcome)
    ensures
        outcome == outcome_of(*result),
{
    match result {
        Ok(_) => PollOutcome::Event,
        Err(error) => error_outcome(is_cancellation(error)),
    }
}

/// The process exit code: zero for success, one for failure.
pub fn exit_code(outcome: ExitOutcome) -> (code: i32)
    ensures
        code == exit_code_of(outcome),
        code == 0 <==> outcome == ExitOutcome::Success,
{
    match outcome {
        ExitOutcome::Success => 0,
        ExitOutcome::Failure => 1,
    }
}

/// Drives the poll loop of one session.
#[derive(Debug)]
pub struct EventLoopDriver {
    state: DriverState,
}

impl View for EventLoopDriver {
    type V = DriverState;

    closed spec fn view(&self) -> DriverState {
        self.state
    }
}

impl EventLoopDriver {
    /// A driver that polls.
    pub fn new() -> (driver: Self)
        ensures
            driver@ == DriverState::Polling,
    {
        EventLoopDriver { state: DriverState::Polling }
    }

    /// The state the driver is in.
    pub fn state(&self) -> (state: DriverState)
        ensures
            state == self@,
    {
        self.state
    }

    /// The outcome of the loop, once it is over.
    pub fn outcome(&self) -> (outcome: Option<ExitOutcome>)
        ensures
            outcome == match self@ {
                DriverState::Terminated(o) => Some(o),
                _ => None,
            },
    {
        match self.state {
            DriverState::Terminated(o) => Some(o),
            _ => None,
        }
    }

    /// Notes that the session has asked for cancellation.
    pub fn cancel_requested(&mut self)
        ensures
            final(self)@ == after_cancel_request(old(self)@),
    {
        match self.state {
            DriverState::Polling => {
                self.state = DriverState::Draining;
            },
            _ => {},
        }
    }

    /// Takes in the outcome of one poll and says whether the loop goes on.
    pub fn on_poll(&mut self, outcome: PollOutcome) -> (decision: LoopDecision)
        ensures
            final(self)@ == after_poll(old(self)@, outcome),
            decision == decision_in(final(self)@),
    {
        match self.state {
            DriverState::Terminated(ended) => LoopDecision::Stop(ended),
            _ => match outcome {
                PollOutcome::Event => LoopDecision::Continue,
                PollOutcome::Cancelled => {
                    self.state = DriverState::Terminated(ExitOutcome::Success);
                    LoopDecision::Stop(ExitOutcome::Success)
                },
                PollOutcome::Failed => {
                    self.state = DriverState::Terminated(ExitOutcome::Failure);
                    LoopDecision::Stop(ExitOutcome::Failure)
                },
            },
        }
    }

    /// Takes in what a poll of the transport returned. An event keeps the
    /// loop going; an error ends it, in success if it is the cancellation
    /// signal and in failure otherwise.
    pub fn observe(
        &mut self,
        result: &Result<rumqttc::Event, rumqttc::ConnectionError>,
    ) -> (decision: LoopDecision)
        ensures
            final(self)@ == after_poll(old(self)@, outcome_of(*result)),
            decision == decision_in(final(self)@),
    {
        let outcome = classify(result);
        self.on_poll(outcome)
    }
}

/// The cancellation signal and a transport error end a running loop
/// differently: the one in success with exit code zero, the other in
/// failure with another exit code.
pub proof fn lemma_cancellation_is_not_failure(state: DriverState)
    requires
        !(state is Terminated),
    ensures
        after_poll(state, PollOutcome::Cancelled) == DriverState::Terminated(ExitOutcome::Success),
        after_poll(state, PollOutcome::Failed) == DriverState::Terminated(ExitOutcome::Failure),
        after_poll(state, PollOutcome::Cancelled) != after_poll(state, PollOutcome::Failed),
        exit_code_of(ExitOutcome::Success) == 0,
        exit_code_of(ExitOutcome::Failure) != 0,
{
}

/// A running loop that polls an error ends: in success exactly when the
/// error is the cancellation signal, in failure for every other error. A
/// poll that returns an event leaves it running.
pub proof fn lemma_errors_are_told_apart(
    state: DriverState,
    event: rumqttc::Event,
    error: rumqttc::ConnectionError,
)
    requires
        !(state is Terminated),
    ensures
        after_poll(state, outcome_of(Ok(event))) == state,
        cancellation_of(error) ==> after_poll(state, outcome_of(Err(error)))
            == DriverState::Terminated(ExitOutcome::Success),
        !cancellation_of(error) ==> after_poll(state, outcome_of(Err(error)))
            == DriverState::Terminated(ExitOutcome::Failure),
{
}

/// The loop ends once: a terminated driver keeps its outcome whatever is
/// polled afterwards.
pub proof fn lemma_terminated_is_final(state: DriverState, outcomes: Seq<PollOutcome>)
    requires
        state is Terminated,
    ensures
        after_polls(state, outcomes) == state,
    decreases outcomes.len(),
{
    if outcomes.len() > 0 {
        lemma_terminated_is_final(state, outcomes.drop_first());
    }
}

/// A loop that only sees events keeps running, and the first poll that is
/// no event ends it: in success exactly when it is the cancellation signal.
pub proof fn lemma_loop_ends_at_first_error(
    state: DriverState,
    events: nat,
    last: PollOutcome,
    later: Seq<PollOutcome>,
)
    requires
        !(state is Terminated),
        last != PollOutcome::Event,
    ensures
        after_polls(state, Seq::new(events, |i: int| PollOutcome::Event)) == state,
        after_polls(state, Seq::new(events, |i: int| PollOutcome::Event) + seq![last] + later)
            == after_poll(state, last),
        after_poll(state, last) == DriverState::Terminated(
            if last == PollOutcome::Cancelled {
                ExitOutcome::Success
            } else {
                ExitOutcome::Failure
            },
        ),
    decreases events,
{
    let quiet = Seq::new(events, |i: int| PollOutcome::Event);
    let all = quiet + seq![last] + later;
    if events == 0 {
        assert(all[0] == last);
        assert(all.drop_first() =~= later);
        lemma_terminated_is_final(after_poll(state, last), later);
    } else {
        let fewer = Seq::new((events - 1) as nat, |i: int| PollOutcome::Event);
        assert(quiet[0] == PollOutcome::Event);
        assert(all[0] == PollOutcome::Event);
        assert(quiet.drop_first() =~= fewer);
        assert(all.drop_first() =~= fewer + seq![last] + later);
        lemma_loop_ends_at_first_error(state, (events - 1) as nat, last, later);
    }
}

} // verus!
