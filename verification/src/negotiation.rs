//! The negotiation that both session paths share, as a state machine.
//!
//! The caller owns the peer connection. It performs the step that the
//! machine names, reports how the step went, and is told the next step. The
//! machine sees to it that the steps come in their order, that the first
//! failure ends the attempt, and that the connection is closed on every way
//! out.

use vstd::prelude::*;
use crate::whip::SignalingError;

verus! {

/// The step that is due.
#[derive(Clone, Copy, Debug, PartialEq, Eq, Structural)]
pub enum Phase {
    /// Construct the local offer.
    CreateOffer,
    /// Obtain the notification that candidate gathering is complete.
    WatchGathering,
    /// Commit the offer as the local description.
    SetLocalDescription,
    /// Wait until candidate gathering is complete.
    AwaitGathering,
    /// Read the committed local description back.
    ReadLocalDescription,
    /// Hand the local description to the signaling exchange.
    Exchange,
    /// Commit the remote description.
    SetRemoteDescription,
    /// Wait for the completion signal or an interrupt.
    AwaitStop,
    /// Close the connection.
    Close,
    /// Nothing is left to do.
    Done,
}

/// How the step that was due went.
#[derive(Clone, Copy, Debug, PartialEq, Eq, Structural)]
pub enum Event {
    /// The step was carried out.
    Succeeded,
    /// The step failed.
    Failed,
    /// The signaling exchange failed, and why.
    SignalingFailed(SignalingError),
}

/// Why an attempt ended without a session.
#[derive(Clone, Copy, Debug, PartialEq, Eq, Structural)]
pub enum Failure {
    Offer,
    LocalDescription,
    NoLocalDescription,
    Signaling(SignalingError),
    RemoteDescription,
    Close,
}

impl Phase {
    /// The place of a step in the order of steps.
    pub open spec fn rank(self) -> int {
        match self {
            Phase::CreateOffer => 0,
            Phase::WatchGathering => 1,
            Phase::SetLocalDescription => 2,
            Phase::AwaitGathering => 3,
            Phase::ReadLocalDescription => 4,
            Phase::Exchange => 5,
            Phase::SetRemoteDescription => 6,
            Phase::AwaitStop => 7,
            Phase::Close => 8,
            Phase::Done => 9,
        }
    }

    /// The step after `self` in the order of steps.
    pub open spec fn successor(self) -> Phase {
        match self {
            Phase::CreateOffer => Phase::WatchGathering,
            Phase::WatchGathering => Phase::SetLocalDescription,
            Phase::SetLocalDescription => Phase::AwaitGathering,
            Phase::AwaitGathering => Phase::ReadLocalDescription,
            Phase::ReadLocalDescription => Phase::Exchange,
            Phase::Exchange => Phase::SetRemoteDescription,
            Phase::SetRemoteDescription => Phase::AwaitStop,
            Phase::AwaitStop => Phase::Close,
            Phase::Close => Phase::Done,
            Phase::Done => Phase::Done,
        }
    }

    /// Steps that only wait or subscribe: they have no failure to report, so
    /// whatever is reported of them, the next step follows.
    pub open spec fn cannot_fail(self) -> bool {
        self == Phase::WatchGathering || self == Phase::AwaitGathering || self == Phase::AwaitStop
    }

    /// The failure that a step stands for when it does not succeed.
    pub open spec fn failure_on(self, event: Event) -> Failure {
        match self {
            Phase::CreateOffer => Failure::Offer,
            Phase::SetLocalDescription => Failure::LocalDescription,
            Phase::ReadLocalDescription => Failure::NoLocalDescription,
            Phase::Exchange => match event {
                Event::SignalingFailed(e) => Failure::Signaling(e),
                _ => Failure::Signaling(SignalingError::Transport),
            },
            Phase::SetRemoteDescription => Failure::RemoteDescription,
            _ => Failure::Close,
        }
    }
}

/// The step that follows when `event` is reported of `phase`.
pub open spec fn next_phase(phase: Phase, event: Event) -> Phase {
    if phase == Phase::Done {
        Phase::Done
    } else if phase == Phase::Close {
        Phase::Done
    } else if event == Event::Succeeded || phase.cannot_fail() {
        phase.successor()
    } else {
        Phase::Close
    }
}

/// The failure on record when `event` has been reported of `phase`: the
/// first one stays.
pub open spec fn next_failure(phase: Phase, failure: Option<Failure>, event: Event) -> Option<
    Failure,
> {
    if phase == Phase::Done || event == Event::Succeeded || phase.cannot_fail()
        || failure is Some {
        failure
    } else {
        Some(phase.failure_on(event))
    }
}

/// One negotiation attempt.
#[derive(Debug)]
pub struct Negotiation {
    phase: Phase,
    failure: Option<Failure>,
}

impl Negotiation {
    /// The step that is due.
    pub closed spec fn phase(self) -> Phase {
        self.phase
    }

    /// The first failure, if a step has failed.
    pub closed spec fn failure(self) -> Option<Failure> {
        self.failure
    }

    /// A failure is on record only where the attempt is being wound up.
    pub closed spec fn wf(self) -> bool {
        self.failure is Some ==> self.phase == Phase::Close || self.phase == Phase::Done
    }

    /// A fresh attempt: the offer is due, nothing has failed.
    pub fn new() -> (attempt: Negotiation)
        ensures
            attempt.wf(),
            attempt.phase() == Phase::CreateOffer,
            attempt.failure() is None,
    {
        Negotiation { phase: Phase::CreateOffer, failure: None }
    }

    pub fn current(&self) -> (phase: Phase)
        ensures
            phase == self.phase(),
    {
        self.phase
    }

    pub fn first_failure(&self) -> (failure: Option<Failure>)
        ensures
            failure == self.failure(),
    {
        self.failure
    }

    /// The result of the attempt, once nothing is left to do.
    pub fn outcome(&self) -> (result: Option<Result<(), Failure>>)
        ensures
            result is Some <==> self.phase() == Phase::Done,
            result matches Some(Ok(_)) ==> self.failure() is None,
            result matches Some(Err(e)) ==> self.failure() == Some(e),
    {
        match self.phase {
            Phase::Done => match self.failure {
                Some(e) => Some(Err(e)),
                None => Some(Ok(())),
            },
            _ => None,
        }
    }

    /// Takes the report of the step that was due and names the next one.
    pub fn advance(&mut self, event: Event) -> (next: Phase)
        requires
            old(self).wf(),
        ensures
            final(self).wf(),
            next == final(self).phase(),
            final(self).phase() == next_phase(old(self).phase(), event),
            final(self).failure() == next_failure(old(self).phase(), old(self).failure(), event),
    {
        let succeeded = match event {
            Event::Succeeded => true,
            _ => false,
        };
        let next = match self.phase {
            Phase::Done => Phase::Done,
            Phase::Close => {
                if !succeeded && self.failure.is_none() {
                    self.failure = Some(Failure::Close);
                }
                Phase::Done
            },
            Phase::WatchGathering => Phase::SetLocalDescription,
            Phase::AwaitGathering => Phase::ReadLocalDescription,
            Phase::AwaitStop => Phase::Close,
            Phase::CreateOffer => if succeeded {
                Phase::WatchGathering
            } else {
                self.failure = Some(Failure::Offer);
                Phase::Close
            },
            Phase::SetLocalDescription => if succeeded {
                Phase::AwaitGathering
            } else {
                self.failure = Some(Failure::LocalDescription);
                Phase::Close
            },
            Phase::ReadLocalDescription => if succeeded {
                Phase::Exchange
            } else {
                self.failure = Some(Failure::NoLocalDescription);
                Phase::Close
            },
            Phase::Exchange => match event {
                Event::Succeeded => Phase::SetRemoteDescription,
                Event::SignalingFailed(e) => {
                    self.failure = Some(Failure::Signaling(e));
                    Phase::Close
                },
                Event::Failed => {
                    self.failure = Some(Failure::Signaling(SignalingError::Transport));
                    Phase::Close
                },
            },
            Phase::SetRemoteDescription => if succeeded {
                Phase::AwaitStop
            } else {
                self.failure = Some(Failure::RemoteDescription);
                Phase::Close
            },
        };
        self.phase = next;
        next
    }

    /// Takes a whole run of reports, one step after the other, and lists the
    /// steps that were named in answer.
    pub fn advance_all(&mut self, events: &Vec<Event>) -> (steps: Vec<Phase>)
        requires
            old(self).wf(),
        ensures
            final(self).wf(),
            steps@.len() == events@.len(),
            final(self).phase() == phase_after(old(self).phase(), events@, events@.len() as int),
            final(self).failure() == failure_after(
                old(self).phase(),
                old(self).failure(),
                events@,
                events@.len() as int,
            ),
            forall|i: int|
                0 <= i < events@.len() ==> #[trigger] steps@[i] == phase_after(
                    old(self).phase(),
                    events@,
                    i + 1,
                ),
    {
        let ghost start = self.phase();
        let ghost failed = self.failure();
        let mut steps: Vec<Phase> = Vec::new();
        let mut i: usize = 0;
        while i < events.len()
            invariant
                self.wf(),
                i <= events@.len(),
                steps@.len() == i,
                self.phase() == phase_after(start, events@, i as int),
                self.failure() == failure_after(start, failed, events@, i as int),
                forall|k: int|
                    0 <= k < i ==> #[trigger] steps@[k] == phase_after(start, events@, k + 1),
            decreases events@.len() - i,
        {
            let next = self.advance(events[i]);
            steps.push(next);
            i = i + 1;
        }
        steps
    }
}

/// The step that is due when the first `n` reports of a run have been taken.
pub open spec fn phase_after(start: Phase, events: Seq<Event>, n: int) -> Phase
    decreases n,
{
    if n <= 0 {
        start
    } else {
        next_phase(phase_after(start, events, n - 1), events[n - 1])
    }
}

/// The failure on record when the first `n` reports of a run have been
/// taken.
pub open spec fn failure_after(
    start: Phase,
    failure: Option<Failure>,
    events: Seq<Event>,
    n: int,
) -> Option<Failure>
    decreases n,
{
    if n <= 0 {
        failure
    } else {
        next_failure(
            phase_after(start, events, n - 1),
            failure_after(start, failure, events, n - 1),
            events[n - 1],
        )
    }
}

/// Every report moves an attempt that is not done one step on or to the
/// close, never back: each step is due at most once.
pub proof fn lemma_steps_only_go_forward(phase: Phase, event: Event)
    requires
        phase != Phase::Done,
    ensures
        next_phase(phase, event).rank() > phase.rank(),
{
}

/// The connection is closed on every way out: an attempt is done only when
/// the close was the step just reported.
pub proof fn lemma_done_only_after_close(phase: Phase, event: Event)
    requires
        phase != Phase::Done,
        next_phase(phase, event) == Phase::Done,
    ensures
        phase == Phase::Close,
{
}

/// Whatever is reported, ten reports bring any attempt to its end.
pub proof fn lemma_run_ends(start: Phase, events: Seq<Event>, n: int)
    requires
        0 <= n <= events.len(),
    ensures
        phase_after(start, events, n).rank() >= start.rank(),
        phase_after(start, events, n).rank() >= (if start.rank() + n < 9 {
            start.rank() + n
        } else {
            9
        }),
    decreases n,
{
    if n > 0 {
        lemma_run_ends(start, events, n - 1);
        let before = phase_after(start, events, n - 1);
        if before != Phase::Done {
            lemma_steps_only_go_forward(before, events[n - 1]);
        }
    }
}

/// A run that has come to its end passed through the close: some report of
/// the run was taken while the close was due.
pub proof fn lemma_finished_run_closed(start: Phase, events: Seq<Event>, n: int)
    requires
        0 <= n <= events.len(),
        start != Phase::Done,
        phase_after(start, events, n) == Phase::Done,
    ensures
        exists|k: int| 0 <= k < n && #[trigger] phase_after(start, events, k) == Phase::Close,
    decreases n,
{
    if n > 0 {
        let before = phase_after(start, events, n - 1);
        if before == Phase::Done {
            lemma_finished_run_closed(start, events, n - 1);
            let k = choose|k: int|
                0 <= k < n - 1 && #[trigger] phase_after(start, events, k) == Phase::Close;
            assert(0 <= k < n && phase_after(start, events, k) == Phase::Close);
        } else {
            lemma_done_only_after_close(before, events[n - 1]);
            assert(phase_after(start, events, n - 1) == Phase::Close);
        }
    }
}

/// A failed signaling exchange ends the attempt: the close is due next, the
/// failure is on record, and it is still there when the attempt is done.
pub proof fn lemma_signaling_failure_closes(error: SignalingError, closed: Event)
    ensures
        next_phase(Phase::Exchange, Event::SignalingFailed(error)) == Phase::Close,
        next_failure(Phase::Exchange, None, Event::SignalingFailed(error)) == Some(
            Failure::Signaling(error),
        ),
        next_phase(Phase::Close, closed) == Phase::Done,
        next_failure(Phase::Close, Some(Failure::Signaling(error)), closed) == Some(
            Failure::Signaling(error),
        ),
{
}

/// The first failure of a run stays on record to its end: later reports
/// neither erase it nor put another in its place.
pub proof fn lemma_first_failure_stays(
    start: Phase,
    failure: Option<Failure>,
    events: Seq<Event>,
    i: int,
    n: int,
)
    requires
        0 <= i <= n,
        failure_after(start, failure, events, i) is Some,
    ensures
        failure_after(start, failure, events, n) == failure_after(start, failure, events, i),
    decreases n - i,
{
    if i < n {
        lemma_first_failure_stays(start, failure, events, i, n - 1);
    }
}

} // verus!
