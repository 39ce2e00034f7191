//! The session and the event loop side by side: what ties the end of the
//! loop to the end of publishing.
//!
//! The two run concurrently and share nothing but the cancellation signal.
//! The transport hands that signal to the loop only after the session has
//! asked for it, and the session asks for it only when every command is
//! acknowledged. This module states that as a model and proves what follows.

use vstd::prelude::*;
use crate::driver::{after_poll, DriverState, ExitOutcome, PollOutcome};
use crate::session::{SessionEvent, SessionModel, SessionPhase};

verus! {

/// The state of both sides.
pub struct Handshake {
    pub session: SessionModel,
    pub driver: DriverState,
}

/// One thing that happens: an outcome is reported to the session, or the
/// loop polls.
pub enum Move {
    Report(SessionEvent),
    Poll(PollOutcome),
}

impl Handshake {
    /// Both sides at the start: the given session, and a polling driver.
    pub open spec fn initial(session: SessionModel) -> Handshake {
        Handshake { session, driver: DriverState::Polling }
    }

    /// The session has asked for the shutdown request.
    pub open spec fn cancel_requested(self) -> bool {
        self.session.publishing_over() && self.session.acked == self.session.devices.len()
    }

    /// Whether a move can happen: the loop sees the cancellation signal only
    /// once the session has asked for it.
    pub open spec fn admits(self, m: Move) -> bool {
        m == Move::Poll(PollOutcome::Cancelled) ==> self.cancel_requested()
    }

    /// Both sides after a move.
    pub open spec fn next(self, m: Move) -> Handshake {
        match m {
            Move::Report(event) => Handshake {
                session: self.session.step(event).0,
                driver: self.driver,
            },
            Move::Poll(outcome) => Handshake {
                session: self.session,
                driver: after_poll(self.driver, outcome),
            },
        }
    }

    /// The session is well-formed, and the loop has ended in success only
    /// if the session had asked for shutdown.
    pub open spec fn ordered(self) -> bool {
        &&& self.session.wf()
        &&& (self.driver == DriverState::Terminated(ExitOutcome::Success)
            ==> self.cancel_requested())
    }
}

/// Whether each move of a sequence can happen in its turn.
pub open spec fn admissible(h: Handshake, moves: Seq<Move>) -> bool
    decreases moves.len(),
{
    moves.len() == 0 || (h.admits(moves[0]) && admissible(h.next(moves[0]), moves.drop_first()))
}

/// Both sides after a sequence of moves.
pub open spec fn play(h: Handshake, moves: Seq<Move>) -> Handshake
    decreases moves.len(),
{
    if moves.len() == 0 {
        h
    } else {
        play(h.next(moves[0]), moves.drop_first())
    }
}

/// A move that can happen keeps the two sides in order.
pub proof fn lemma_move_keeps_order(h: Handshake, m: Move)
    requires
        h.ordered(),
        h.admits(m),
    ensures
        h.next(m).ordered(),
{
}

/// Moves that can happen keep the two sides in order.
pub proof fn lemma_play_keeps_order(h: Handshake, moves: Seq<Move>)
    requires
        h.ordered(),
        admissible(h, moves),
    ensures
        play(h, moves).ordered(),
    decreases moves.len(),
{
    if moves.len() > 0 {
        lemma_move_keeps_order(h, moves[0]);
        lemma_play_keeps_order(h.next(moves[0]), moves.drop_first());
    }
}

/// However reports and polls interleave, the loop ends in success only
/// after the publish of every device has been acknowledged, and then no
/// publish is asked for any more.
pub proof fn lemma_success_follows_every_publish(session: SessionModel, moves: Seq<Move>)
    requires
        session.wf(),
        session.phase == SessionPhase::Connecting,
        admissible(Handshake::initial(session), moves),
    ensures
        play(Handshake::initial(session), moves).driver == DriverState::Terminated(
            ExitOutcome::Success,
        ) ==> play(Handshake::initial(session), moves).session.acked
            == play(Handshake::initial(session), moves).session.devices.len()
            && play(Handshake::initial(session), moves).session.publishing_over(),
        play(Handshake::initial(session), moves).session.devices == session.devices,
{
    lemma_play_keeps_order(Handshake::initial(session), moves);
    lemma_play_keeps_devices(Handshake::initial(session), moves);
}

proof fn lemma_play_keeps_devices(h: Handshake, moves: Seq<Move>)
    ensures
        play(h, moves).session.devices == h.session.devices,
    decreases moves.len(),
{
    if moves.len() > 0 {
        lemma_play_keeps_devices(h.next(moves[0]), moves.drop_first());
    }
}

} // verus!
