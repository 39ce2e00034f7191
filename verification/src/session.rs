//! The publishing session: one command per device, in order, then the
//! request to shut the connection down.
//!
//! The session performs no network operation itself. It is told what happened
//! and answers with what has to be done next; the caller performs that action
//! and reports its outcome as the next event.

use vstd::prelude::*;
use vstd::string::*;
use crate::command::{command_of, encode_in, ActuationState, Command, CommandModel};

verus! {

/// Where the session stands.
#[derive(Clone, Copy, Debug, PartialEq, Eq, Structural)]
pub enum SessionPhase {
    /// No command has been asked for yet.
    Connecting,
    /// A publish is in flight.
    Active,
    /// Every command is acknowledged and the shutdown request is in flight.
    Cancelling,
    /// The shutdown request was accepted.
    Closed,
    /// A publish or the shutdown request failed.
    Failed,
}

/// What the caller reports to the session.
#[derive(Clone, Copy, Debug, PartialEq, Eq, Structural)]
pub enum SessionEvent {
    /// The client handle is there: publishing may begin.
    Started,
    /// The publish last asked for was acknowledged.
    PublishAcked,
    /// The publish last asked for failed.
    PublishFailed,
    /// The shutdown request was accepted.
    CancelAccepted,
    /// The shutdown request failed.
    CancelFailed,
}

/// What the session asks of the caller.
#[derive(Debug, PartialEq, Eq)]
pub enum SessionAction {
    /// Publish this command and report `PublishAcked` or `PublishFailed`.
    Publish(Command),
    /// Send the shutdown request and report `CancelAccepted` or `CancelFailed`.
    RequestCancel,
    /// The run succeeded; nothing is left to do.
    Complete,
    /// The run failed; nothing more is to be sent.
    Fail,
    /// The event answers nothing that was asked for; nothing changes.
    Wait,
}

/// Mathematical content of a [`SessionAction`].
pub enum ActionModel {
    Publish(CommandModel),
    RequestCancel,
    Complete,
    Fail,
    Wait,
}

impl View for SessionAction {
    type V = ActionModel;

    open spec fn view(&self) -> ActionModel {
        match self {
            SessionAction::Publish(command) => ActionModel::Publish(command@),
            SessionAction::RequestCancel => ActionModel::RequestCancel,
            SessionAction::Complete => ActionModel::Complete,
            SessionAction::Fail => ActionModel::Fail,
            SessionAction::Wait => ActionModel::Wait,
        }
    }
}

/// Mathematical content of an [`ActuationSession`].
pub struct SessionModel {
    pub namespace: Seq<char>,
    pub devices: Seq<Seq<char>>,
    pub state: ActuationState,
    pub phase: SessionPhase,
    /// How many publishes have been acknowledged.
    pub acked: nat,
}

impl SessionModel {
    /// A session before its first event.
    pub open spec fn initial(
        namespace: Seq<char>,
        devices: Seq<Seq<char>>,
        state: ActuationState,
    ) -> SessionModel {
        SessionModel { namespace, devices, state, phase: SessionPhase::Connecting, acked: 0 }
    }

    /// The phase and the count of acknowledged publishes agree.
    pub open spec fn wf(self) -> bool {
        &&& self.acked <= self.devices.len()
        &&& (self.phase == SessionPhase::Connecting ==> self.acked == 0)
        &&& (self.phase == SessionPhase::Active ==> self.acked < self.devices.len())
        &&& (self.phase == SessionPhase::Cancelling || self.phase == SessionPhase::Closed
            ==> self.acked == self.devices.len())
    }

    /// The command of the device at `index`.
    pub open spec fn command(self, index: int) -> CommandModel {
        command_of(self.namespace, self.devices[index], self.state)
    }

    /// The same session in another phase, with `acked` publishes acknowledged.
    pub open spec fn at(self, phase: SessionPhase, acked: nat) -> SessionModel {
        SessionModel {
            namespace: self.namespace,
            devices: self.devices,
            state: self.state,
            phase,
            acked,
        }
    }

    /// What follows once `acked` publishes are acknowledged: the next
    /// device's command, or the shutdown request when none is left.
    pub open spec fn proceed(self, acked: nat) -> (SessionModel, ActionModel) {
        if acked < self.devices.len() {
            (self.at(SessionPhase::Active, acked), ActionModel::Publish(self.command(acked as int)))
        } else {
            (self.at(SessionPhase::Cancelling, acked), ActionModel::RequestCancel)
        }
    }

    /// The transition function: the session after `event`, and what it asks.
    pub open spec fn step(self, event: SessionEvent) -> (SessionModel, ActionModel) {
        match (self.phase, event) {
            (SessionPhase::Connecting, SessionEvent::Started) => self.proceed(0),
            (SessionPhase::Active, SessionEvent::PublishAcked) => self.proceed(self.acked + 1),
            (SessionPhase::Active, SessionEvent::PublishFailed) => (
                self.at(SessionPhase::Failed, self.acked),
                ActionModel::Fail,
            ),
            (SessionPhase::Cancelling, SessionEvent::CancelAccepted) => (
                self.at(SessionPhase::Closed, self.acked),
                ActionModel::Complete,
            ),
            (SessionPhase::Cancelling, SessionEvent::CancelFailed) => (
                self.at(SessionPhase::Failed, self.acked),
                ActionModel::Fail,
            ),
            (SessionPhase::Closed, _) => (self, ActionModel::Complete),
            (SessionPhase::Failed, _) => (self, ActionModel::Fail),
            _ => (self, ActionModel::Wait),
        }
    }

    /// No publish will be asked for any more.
    pub open spec fn publishing_over(self) -> bool {
        self.phase == SessionPhase::Cancelling || self.phase == SessionPhase::Closed || self.phase
            == SessionPhase::Failed
    }
}

/// The names held by a vector of devices.
pub open spec fn device_names(devices: Seq<String>) -> Seq<Seq<char>> {
    Seq::new(devices.len(), |i: int| devices[i]@)
}

/// Publishes one command per configured device, then asks for shutdown.
#[derive(Debug)]
pub struct ActuationSession {
    namespace: String,
    devices: Vec<String>,
    state: ActuationState,
    phase: SessionPhase,
    acked: usize,
}

impl View for ActuationSession {
    type V = SessionModel;

    closed spec fn view(&self) -> SessionModel {
        SessionModel {
            namespace: self.namespace@,
            devices: device_names(self.devices@),
            state: self.state,
            phase: self.phase,
            acked: self.acked as nat,
        }
    }
}

impl ActuationSession {
    /// A session for `devices`, in order, under the topic prefix `namespace`.
    pub fn new(namespace: String, devices: Vec<String>, state: ActuationState) -> (session: Self)
        ensures
            session@ == SessionModel::initial(namespace@, device_names(devices@), state),
            session@.wf(),
    {
        ActuationSession { namespace, devices, state, phase: SessionPhase::Connecting, acked: 0 }
    }

    /// The phase the session is in.
    pub fn phase(&self) -> (phase: SessionPhase)
        ensures
            phase == self@.phase,
    {
        self.phase
    }

    /// The state that the commands carry.
    pub fn state(&self) -> (state: ActuationState)
        ensures
            state == self@.state,
    {
        self.state
    }

    /// How many publishes have been acknowledged.
    pub fn acknowledged(&self) -> (count: usize)
        ensures
            count == self@.acked,
    {
        self.acked
    }

    /// How many devices the session was made for.
    pub fn device_count(&self) -> (count: usize)
        ensures
            count == self@.devices.len(),
    {
        self.devices.len()
    }

    /// Whether the run is over, and how: `Some(true)` once the shutdown
    /// request was accepted, `Some(false)` after a failure, `None` before.
    pub fn outcome(&self) -> (outcome: Option<bool>)
        ensures
            outcome == match self@.phase {
                SessionPhase::Closed => Some(true),
                SessionPhase::Failed => Some(false),
                _ => None,
            },
    {
        match self.phase {
            SessionPhase::Closed => Some(true),
            SessionPhase::Failed => Some(false),
            _ => None,
        }
    }

    fn proceed(&mut self, acked: usize) -> (action: SessionAction)
        requires
            acked <= old(self).devices.len(),
        ensures
            final(self)@ == old(self)@.proceed(acked as nat).0,
            action@ == old(self)@.proceed(acked as nat).1,
    {
        self.acked = acked;
        if acked < self.devices.len() {
            self.phase = SessionPhase::Active;
            SessionAction::Publish(
                encode_in(self.namespace.as_str(), self.devices[acked].as_str(), self.state),
            )
        } else {
            self.phase = SessionPhase::Cancelling;
            SessionAction::RequestCancel
        }
    }

    /// Takes in `event` and answers with what to do next.
    ///
    /// The first failed publish ends the run: no later device is published
    /// and no shutdown request is sent.
    pub fn step(&mut self, event: SessionEvent) -> (action: SessionAction)
        requires
            old(self)@.wf(),
        ensures
            final(self)@ == old(self)@.step(event).0,
            action@ == old(self)@.step(event).1,
            final(self)@.wf(),
    {
        match self.phase {
            SessionPhase::Connecting => match event {
                SessionEvent::Started => self.proceed(0),
                _ => SessionAction::Wait,
            },
            SessionPhase::Active => match event {
                SessionEvent::PublishAcked => {
                    let count: usize = self.devices.len();
                    assert(self@.devices.len() == count);
                    let next: usize = self.acked + 1;
                    self.proceed(next)
                },
                SessionEvent::PublishFailed => {
                    self.phase = SessionPhase::Failed;
                    SessionAction::Fail
                },
                _ => SessionAction::Wait,
            },
            SessionPhase::Cancelling => match event {
                SessionEvent::CancelAccepted => {
                    self.phase = SessionPhase::Closed;
                    SessionAction::Complete
                },
                SessionEvent::CancelFailed => {
                    self.phase = SessionPhase::Failed;
                    SessionAction::Fail
                },
                _ => SessionAction::Wait,
            },
            SessionPhase::Closed => SessionAction::Complete,
            SessionPhase::Failed => SessionAction::Fail,
        }
    }
}

/// The session after a whole sequence of events, and every action it asked
/// for on the way, in order.
pub open spec fn run(m: SessionModel, events: Seq<SessionEvent>) -> (SessionModel, Seq<ActionModel>)
    decreases events.len(),
{
    if events.len() == 0 {
        (m, Seq::empty())
    } else {
        let first = m.step(events[0]);
        let rest = run(first.0, events.drop_first());
        (rest.0, seq![first.1] + rest.1)
    }
}

/// `count` acknowledgements in a row.
pub open spec fn acks(count: nat) -> Seq<SessionEvent> {
    Seq::new(count, |i: int| SessionEvent::PublishAcked)
}

/// The publishes of the devices from index `from` on, in order.
pub open spec fn publishes(m: SessionModel, from: nat) -> Seq<ActionModel> {
    Seq::new(
        (m.devices.len() - from) as nat,
        |i: int| ActionModel::Publish(m.command(from + i)),
    )
}

/// The events of a run in which everything succeeds.
pub open spec fn successful_events(count: nat) -> Seq<SessionEvent> {
    seq![SessionEvent::Started] + acks(count) + seq![SessionEvent::CancelAccepted]
}

/// A step keeps a well-formed session well-formed, and never lowers the
/// count of acknowledged publishes.
pub proof fn lemma_step_keeps_wf(m: SessionModel, event: SessionEvent)
    requires
        m.wf(),
    ensures
        m.step(event).0.wf(),
        m.step(event).0.acked >= m.acked,
        m.step(event).0.devices == m.devices,
        m.step(event).0.namespace == m.namespace,
        m.step(event).0.state == m.state,
{
}

/// The shutdown request is asked for only when every device's publish has
/// been acknowledged, and a publish only for the device whose turn it is.
pub proof fn lemma_step_order(m: SessionModel, event: SessionEvent)
    requires
        m.wf(),
    ensures
        m.step(event).1 == ActionModel::RequestCancel ==> m.step(event).0.acked
            == m.devices.len() && !m.publishing_over(),
        m.step(event).1 is Publish ==> m.step(event).1 == ActionModel::Publish(
            m.command(m.step(event).0.acked as int),
        ) && m.step(event).0.acked < m.devices.len(),
        m.step(event).1 == ActionModel::Complete ==> m.step(event).0.phase == SessionPhase::Closed,
{
}

proof fn lemma_run_after(m: SessionModel, acked: nat)
    requires
        acked <= m.devices.len(),
    ensures
        run(
            m.proceed(acked).0,
            acks((m.devices.len() - acked) as nat) + seq![SessionEvent::CancelAccepted],
        ).0 == m.at(SessionPhase::Closed, m.devices.len()),
        seq![m.proceed(acked).1] + run(
            m.proceed(acked).0,
            acks((m.devices.len() - acked) as nat) + seq![SessionEvent::CancelAccepted],
        ).1 =~= publishes(m, acked) + seq![ActionModel::RequestCancel, ActionModel::Complete],
    decreases m.devices.len() - acked,
{
    let total = m.devices.len();
    let here = m.proceed(acked).0;
    let events = acks((total - acked) as nat) + seq![SessionEvent::CancelAccepted];
    let tail = events.drop_first();
    let after = here.step(events[0]);
    assert(run(here, events) == (run(after.0, tail).0, seq![after.1] + run(after.0, tail).1));
    if acked < total {
        assert(events[0] == SessionEvent::PublishAcked);
        assert(after == m.proceed(acked + 1));
        assert(tail =~= acks((total - (acked + 1)) as nat) + seq![SessionEvent::CancelAccepted]);
        lemma_run_after(m, acked + 1);
    } else {
        assert(events =~= seq![SessionEvent::CancelAccepted]);
        assert(tail =~= Seq::<SessionEvent>::empty());
        assert(after == (m.at(SessionPhase::Closed, total), ActionModel::Complete));
        assert(run(after.0, tail) == (after.0, Seq::<ActionModel>::empty()));
    }
}

/// When every publish is acknowledged and the shutdown request is accepted,
/// a session for N devices asks for exactly N publishes, one per device and
/// in the devices' order, then for the shutdown request, then reports
/// completion; it ends closed, with N publishes acknowledged.
pub proof fn lemma_successful_run(m: SessionModel)
    requires
        m.wf(),
        m.phase == SessionPhase::Connecting,
    ensures
        run(m, successful_events(m.devices.len())).0 == m.at(
            SessionPhase::Closed,
            m.devices.len(),
        ),
        run(m, successful_events(m.devices.len())).1 == publishes(m, 0) + seq![
            ActionModel::RequestCancel,
            ActionModel::Complete,
        ],
        publishes(m, 0).len() == m.devices.len(),
        forall|i: int|
            0 <= i < m.devices.len() ==> #[trigger] publishes(m, 0)[i] == ActionModel::Publish(
                command_of(m.namespace, m.devices[i], m.state),
            ),
{
    let events = successful_events(m.devices.len());
    let tail = events.drop_first();
    assert(events[0] == SessionEvent::Started);
    assert(m.step(events[0]) == m.proceed(0));
    assert(tail =~= acks(m.devices.len()) + seq![SessionEvent::CancelAccepted]);
    lemma_run_after(m, 0);
    assert(run(m, events).1 =~= publishes(m, 0) + seq![
        ActionModel::RequestCancel,
        ActionModel::Complete,
    ]);
}

/// Once publishing is over (the shutdown request is out, or the run has
/// ended either way), no event makes the session ask for a publish again.
pub proof fn lemma_no_publish_once_over(m: SessionModel, events: Seq<SessionEvent>)
    requires
        m.publishing_over(),
    ensures
        run(m, events).0.publishing_over(),
        run(m, events).1.len() == events.len(),
        forall|i: int| 0 <= i < events.len() ==> !(#[trigger] run(m, events).1[i] is Publish),
    decreases events.len(),
{
    if events.len() > 0 {
        let first = m.step(events[0]);
        lemma_no_publish_once_over(first.0, events.drop_first());
        let rest = run(first.0, events.drop_first());
        assert forall|i: int| 0 <= i < events.len() implies !(#[trigger] run(m, events).1[i]
            is Publish) by {
            if i > 0 {
                assert(run(m, events).1[i] == rest.1[i - 1]);
            }
        }
    }
}

/// A failed session stays failed: whatever is reported to it, it asks for
/// nothing but `Fail`, so neither a publish nor the shutdown request follows.
pub proof fn lemma_failed_is_final(m: SessionModel, events: Seq<SessionEvent>)
    requires
        m.phase == SessionPhase::Failed,
    ensures
        run(m, events).0 == m,
        run(m, events).1.len() == events.len(),
        forall|i: int| 0 <= i < events.len() ==> #[trigger] run(m, events).1[i] == ActionModel::Fail,
    decreases events.len(),
{
    if events.len() > 0 {
        let first = m.step(events[0]);
        lemma_failed_is_final(m, events.drop_first());
        let rest = run(m, events.drop_first());
        assert(first.0 == m);
        assert forall|i: int| 0 <= i < events.len() implies #[trigger] run(m, events).1[i]
            == ActionModel::Fail by {
            if i > 0 {
                assert(run(m, events).1[i] == rest.1[i - 1]);
            }
        }
    }
}

/// A publish that fails ends the run: the session reports failure at once,
/// and whatever is reported later, it asks for no further publish and never
/// for the shutdown request.
pub proof fn lemma_publish_failure_aborts(m: SessionModel, later: Seq<SessionEvent>)
    requires
        m.wf(),
        m.phase == SessionPhase::Active,
    ensures
        run(m, seq![SessionEvent::PublishFailed] + later).0 == m.at(SessionPhase::Failed, m.acked),
        run(m, seq![SessionEvent::PublishFailed] + later).1.len() == later.len() + 1,
        forall|i: int|
            0 <= i <= later.len() ==> #[trigger] run(
                m,
                seq![SessionEvent::PublishFailed] + later,
            ).1[i] == ActionModel::Fail,
{
    let events = seq![SessionEvent::PublishFailed] + later;
    let failed = m.at(SessionPhase::Failed, m.acked);
    assert(events[0] == SessionEvent::PublishFailed);
    assert(events.drop_first() =~= later);
    assert(m.step(events[0]) == (failed, ActionModel::Fail));
    lemma_failed_is_final(failed, later);
    assert forall|i: int| 0 <= i <= later.len() implies #[trigger] run(m, events).1[i]
        == ActionModel::Fail by {
        if i > 0 {
            assert(run(m, events).1[i] == run(failed, later).1[i - 1]);
        }
    }
}

/// How many of the actions are publishes.
pub open spec fn publish_count(actions: Seq<ActionModel>) -> nat
    decreases actions.len(),
{
    if actions.len() == 0 {
        0
    } else {
        (if actions[0] is Publish {
            1nat
        } else {
            0nat
        }) + publish_count(actions.drop_first())
    }
}

/// How many of the actions are shutdown requests.
pub open spec fn cancel_count(actions: Seq<ActionModel>) -> nat
    decreases actions.len(),
{
    if actions.len() == 0 {
        0
    } else {
        (if actions[0] == ActionModel::RequestCancel {
            1nat
        } else {
            0nat
        }) + cancel_count(actions.drop_first())
    }
}

/// How many publishes a session in this state has asked for so far.
pub open spec fn issued(m: SessionModel) -> nat {
    match m.phase {
        SessionPhase::Connecting => 0,
        SessionPhase::Active => m.acked + 1,
        SessionPhase::Cancelling => m.devices.len(),
        SessionPhase::Closed => m.devices.len(),
        SessionPhase::Failed => if m.acked == m.devices.len() {
            m.devices.len()
        } else {
            m.acked + 1
        },
    }
}

/// How many shutdown requests a session in this state has asked for so far:
/// one once every publish is acknowledged, none before.
pub open spec fn cancels_issued(m: SessionModel) -> nat {
    if m.publishing_over() && m.acked == m.devices.len() {
        1
    } else {
        0
    }
}

/// Whatever is reported, in whatever order: the publishes and the shutdown
/// requests that a run asks for are those by which the session's state has
/// moved on.
pub proof fn lemma_run_counts(m: SessionModel, events: Seq<SessionEvent>)
    requires
        m.wf(),
    ensures
        run(m, events).0.wf(),
        run(m, events).0.devices == m.devices,
        publish_count(run(m, events).1) == issued(run(m, events).0) - issued(m),
        cancel_count(run(m, events).1) == cancels_issued(run(m, events).0) - cancels_issued(m),
    decreases events.len(),
{
    if events.len() > 0 {
        let first = m.step(events[0]);
        let rest = run(first.0, events.drop_first());
        lemma_step_keeps_wf(m, events[0]);
        lemma_run_counts(first.0, events.drop_first());
        let actions = seq![first.1] + rest.1;
        assert(actions[0] == first.1);
        assert(actions.drop_first() =~= rest.1);
    }
}

/// Whatever is reported, in whatever order: a run that ends closed has asked
/// for exactly one publish per device and exactly one shutdown request; a
/// run that ends failed on a publish has asked for no shutdown request; and
/// no run asks for more publishes than there are devices, or for more than
/// one shutdown request.
pub proof fn lemma_run_totals(m: SessionModel, events: Seq<SessionEvent>)
    requires
        m.wf(),
        m.phase == SessionPhase::Connecting,
    ensures
        publish_count(run(m, events).1) <= m.devices.len(),
        cancel_count(run(m, events).1) <= 1,
        run(m, events).0.phase == SessionPhase::Closed ==> publish_count(run(m, events).1)
            == m.devices.len() && cancel_count(run(m, events).1) == 1,
        run(m, events).0.phase == SessionPhase::Failed && run(m, events).0.acked
            < m.devices.len() ==> cancel_count(run(m, events).1) == 0,
        cancel_count(run(m, events).1) == 1 ==> publish_count(run(m, events).1)
            == m.devices.len(),
{
    lemma_run_counts(m, events);
}

} // verus!
