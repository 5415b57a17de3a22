//! Lifecycle of a session: the states that a peer connection reports, and
//! the completion signal that a failure or a stop request raises once.

use vstd::prelude::*;

verus! {

/// The states that a peer connection reports.
#[derive(Clone, Copy, Debug, PartialEq, Eq, Structural)]
pub enum ConnectionState {
    Unspecified,
    New,
    Connecting,
    Connected,
    Disconnected,
    Failed,
    Closed,
}

impl ConnectionState {
    /// Only `Failed` ends a session: a disconnected peer may come back.
    pub open spec fn is_terminal_failure(self) -> bool {
        self == ConnectionState::Failed
    }

    /// Whether a connection in state `self` may report `next` after it.
    pub open spec fn may_precede(self, next: ConnectionState) -> bool {
        match (self, next) {
            (ConnectionState::New, ConnectionState::Connecting) => true,
            (ConnectionState::Connecting, ConnectionState::Connected) => true,
            (ConnectionState::Connected, ConnectionState::Disconnected) => true,
            (ConnectionState::Connected, ConnectionState::Failed) => true,
            (ConnectionState::Disconnected, ConnectionState::Connected) => true,
            (ConnectionState::Disconnected, ConnectionState::Failed) => true,
            (_, ConnectionState::Closed) => self != ConnectionState::Closed,
            _ => false,
        }
    }

    pub fn can_precede(self, next: ConnectionState) -> (ok: bool)
        ensures
            ok == self.may_precede(next),
    {
        match (self, next) {
            (ConnectionState::New, ConnectionState::Connecting) => true,
            (ConnectionState::Connecting, ConnectionState::Connected) => true,
            (ConnectionState::Connected, ConnectionState::Disconnected) => true,
            (ConnectionState::Connected, ConnectionState::Failed) => true,
            (ConnectionState::Disconnected, ConnectionState::Connected) => true,
            (ConnectionState::Disconnected, ConnectionState::Failed) => true,
            (ConnectionState::Closed, ConnectionState::Closed) => false,
            (_, ConnectionState::Closed) => true,
            _ => false,
        }
    }
}

/// Whether one of the first `n` states of `states` is `Failed`.
pub open spec fn failed_within(states: Seq<ConnectionState>, n: int) -> bool {
    exists|j: int| 0 <= j < n && (#[trigger] states[j]).is_terminal_failure()
}

/// The completion signal of a session: a channel that holds at most one
/// unit. A unit sent while one is held is discarded.
#[derive(Debug)]
pub struct CompletionSignal {
    raised: bool,
}

impl CompletionSignal {
    /// Whether a unit waits to be received.
    pub closed spec fn is_raised(self) -> bool {
        self.raised
    }

    pub fn new() -> (signal: CompletionSignal)
        ensures
            !signal.is_raised(),
    {
        CompletionSignal { raised: false }
    }

    pub fn raised(&self) -> (raised: bool)
        ensures
            raised == self.is_raised(),
    {
        self.raised
    }

    /// Offers a unit without waiting. It is taken if none is held, and the
    /// answer says whether it was.
    pub fn try_send(&mut self) -> (accepted: bool)
        ensures
            final(self).is_raised(),
            accepted == !old(self).is_raised(),
    {
        let accepted = !self.raised;
        self.raised = true;
        accepted
    }

    /// Takes the unit, if one is held.
    pub fn try_recv(&mut self) -> (received: bool)
        ensures
            !final(self).is_raised(),
            received == old(self).is_raised(),
    {
        let received = self.raised;
        self.raised = false;
        received
    }

    /// A state change of the connection: `Failed` offers a unit, every other
    /// state leaves the signal alone. The answer says whether a unit was
    /// taken.
    pub fn on_state_change(&mut self, state: ConnectionState) -> (accepted: bool)
        ensures
            final(self).is_raised() == (old(self).is_raised() || state.is_terminal_failure()),
            accepted == (state.is_terminal_failure() && !old(self).is_raised()),
    {
        match state {
            ConnectionState::Failed => self.try_send(),
            _ => false,
        }
    }

    /// A run of state changes with nobody receiving in between. The answer
    /// counts the units taken: at most one, however many failures come.
    pub fn on_state_changes(&mut self, states: &Vec<ConnectionState>) -> (accepted: usize)
        ensures
            accepted <= 1,
            accepted == 1 <==> !old(self).is_raised() && failed_within(
                states@,
                states@.len() as int,
            ),
            final(self).is_raised() == (old(self).is_raised() || failed_within(
                states@,
                states@.len() as int,
            )),
    {
        let ghost before = self.is_raised();
        let mut accepted: usize = 0;
        let mut i: usize = 0;
        while i < states.len()
            invariant
                i <= states@.len(),
                accepted <= 1,
                accepted == 1 <==> !before && failed_within(states@, i as int),
                self.is_raised() == (before || failed_within(states@, i as int)),
            decreases states@.len() - i,
        {
            let ghost held = self.is_raised();
            let taken = self.on_state_change(states[i]);
            proof {
                if states@[i as int].is_terminal_failure() {
                    assert(failed_within(states@, i + 1));
                } else if failed_within(states@, i + 1) {
                    let j = choose|j: int|
                        0 <= j < i + 1 && (#[trigger] states@[j]).is_terminal_failure();
                    assert(j < i);
                    assert(failed_within(states@, i as int));
                } else if failed_within(states@, i as int) {
                    let j = choose|j: int|
                        0 <= j < i && (#[trigger] states@[j]).is_terminal_failure();
                    assert(0 <= j < i + 1);
                }
            }
            if taken {
                accepted = accepted + 1;
            }
            i = i + 1;
        }
        accepted
    }
}

/// Why the wait for the end of a session was over.
#[derive(Clone, Copy, Debug, PartialEq, Eq, Structural)]
pub enum StopReason {
    /// The completion signal was received.
    Completed,
    /// The process was interrupted.
    Interrupted,
}

/// The wait for the end of a session: it is over as soon as the completion
/// signal is held or an interrupt has come. Where both have, the signal is
/// named, and it is received.
pub fn poll_stop(signal: &mut CompletionSignal, interrupted: bool) -> (reason: Option<StopReason>)
    ensures
        reason is Some <==> old(signal).is_raised() || interrupted,
        reason == Some(StopReason::Completed) <==> old(signal).is_raised(),
        !final(signal).is_raised(),
{
    if signal.try_recv() {
        Some(StopReason::Completed)
    } else if interrupted {
        Some(StopReason::Interrupted)
    } else {
        None
    }
}

} // verus!
