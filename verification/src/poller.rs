//! The schedule of the vehicle poll, as a state machine. The caller does the
//! outside work (it waits at the readiness gate, fetches the feed, sleeps) and
//! reports each outcome; the machine decides what follows and appends to the
//! history.

use crate::error::{Error, ErrorView};
use crate::feed::{get_location, polled, FeedResponse};
use crate::gate::{GateState, ReadinessGate};
use crate::history::{appended, HistoryBuffer};
use crate::model::{strings_view, RecordView};
use crate::snapshot::RouteSnapshot;
use vstd::prelude::*;

verus! {

/// The time between two polls of the feed, in seconds.
pub const POLL_PERIOD_SECS: u64 = 30;

/// Where the poller stands.
#[derive(Clone, Copy, PartialEq, Eq, Structural, Debug)]
pub enum PollerPhase {
    /// Held back until the directory has been loaded once.
    AwaitingReadiness,
    /// The feed is being fetched.
    Polling,
    /// Between two polls.
    Sleeping,
}

/// The outside work that a poller waits for.
#[derive(Clone, Copy, PartialEq, Eq, Structural, Debug)]
pub enum PollerAction {
    /// Wait at the readiness gate.
    AwaitGate,
    /// Fetch the vehicle feed.
    Fetch,
    /// Sleep the given number of seconds.
    Sleep { secs: u64 },
}

/// How one poll ended.
#[derive(Debug)]
pub enum PollOutcome {
    /// The record of the poll was appended to the history.
    Recorded,
    /// The poll failed; nothing was appended.
    Degraded(Error),
    /// No poll was under way; nothing was done.
    Ignored,
}

/// The view of a [`PollOutcome`].
pub enum PollOutcomeView {
    Recorded,
    Degraded(ErrorView),
    Ignored,
}

impl View for PollOutcome {
    type V = PollOutcomeView;

    open spec fn view(&self) -> PollOutcomeView {
        match self {
            PollOutcome::Recorded => PollOutcomeView::Recorded,
            PollOutcome::Degraded(e) => PollOutcomeView::Degraded(e@),
            PollOutcome::Ignored => PollOutcomeView::Ignored,
        }
    }
}

/// The schedule of the vehicle poll.
pub struct Poller {
    phase: PollerPhase,
}

impl View for Poller {
    type V = PollerPhase;

    closed spec fn view(&self) -> PollerPhase {
        self.phase
    }
}

/// The outside work that a phase waits for.
pub open spec fn awaited_in(phase: PollerPhase) -> PollerAction {
    match phase {
        PollerPhase::AwaitingReadiness => PollerAction::AwaitGate,
        PollerPhase::Polling => PollerAction::Fetch,
        PollerPhase::Sleeping => PollerAction::Sleep { secs: POLL_PERIOD_SECS },
    }
}

/// The phase after a look at the readiness gate: a poller that was held back
/// starts to poll once the readiness gate has fired; any other is as before.
pub open spec fn released(phase: PollerPhase, gate: GateState) -> PollerPhase {
    if phase == PollerPhase::AwaitingReadiness && gate == GateState::Fired {
        PollerPhase::Polling
    } else {
        phase
    }
}

/// The phase after the sleep has ended: a sleeping poller polls again; any
/// other is as before.
pub open spec fn woken(phase: PollerPhase) -> PollerPhase {
    if phase == PollerPhase::Sleeping {
        PollerPhase::Polling
    } else {
        phase
    }
}

/// The phase after a fetch has ended: a polling poller sleeps, whether the
/// poll succeeded or not; any other is as before.
pub open spec fn completed(phase: PollerPhase) -> PollerPhase {
    if phase == PollerPhase::Polling {
        PollerPhase::Sleeping
    } else {
        phase
    }
}

/// The history after a fetch has ended: the record of a successful poll is
/// appended; a failed poll, or a report while no poll was under way, leaves
/// the history as it was.
pub open spec fn history_after_poll(
    phase: PollerPhase,
    history: Seq<RecordView>,
    poll: Result<RecordView, ErrorView>,
) -> Seq<RecordView> {
    match poll {
        Ok(record) => if phase == PollerPhase::Polling {
            appended(history, record)
        } else {
            history
        },
        Err(_) => history,
    }
}

/// How a poll ended.
pub open spec fn outcome_of(phase: PollerPhase, poll: Result<RecordView, ErrorView>) -> PollOutcomeView {
    if phase == PollerPhase::Polling {
        match poll {
            Ok(_) => PollOutcomeView::Recorded,
            Err(e) => PollOutcomeView::Degraded(e),
        }
    } else {
        PollOutcomeView::Ignored
    }
}

impl Poller {
    /// The poller at startup: held back at the readiness gate.
    pub fn new() -> (poller: Poller)
        ensures
            poller@ == PollerPhase::AwaitingReadiness,
    {
        Poller { phase: PollerPhase::AwaitingReadiness }
    }

    /// Where the poller stands.
    pub fn phase(&self) -> (phase: PollerPhase)
        ensures
            phase == self@,
    {
        self.phase
    }

    /// The outside work that the poller waits for.
    pub fn awaited(&self) -> (action: PollerAction)
        ensures
            action == awaited_in(self@),
    {
        match self.phase {
            PollerPhase::AwaitingReadiness => PollerAction::AwaitGate,
            PollerPhase::Polling => PollerAction::Fetch,
            PollerPhase::Sleeping => PollerAction::Sleep { secs: POLL_PERIOD_SECS },
        }
    }

    /// Looks at the readiness gate: a poller that is held back starts to poll
    /// if the readiness gate has fired, and stays held back if not.
    pub fn release(&mut self, gate: &ReadinessGate)
        ensures
            final(self)@ == released(old(self)@, gate@),
    {
        match self.phase {
            PollerPhase::AwaitingReadiness => {
                if gate.is_fired() {
                    self.phase = PollerPhase::Polling;
                }
            },
            _ => {},
        }
    }

    /// Takes note that the sleep has ended.
    pub fn wake(&mut self)
        ensures
            final(self)@ == woken(old(self)@),
    {
        match self.phase {
            PollerPhase::Sleeping => {
                self.phase = PollerPhase::Polling;
            },
            _ => {},
        }
    }

    /// Takes note that the fetch has ended, at `now` seconds since the
    /// epoch, with a response. The response is turned into the record of the
    /// poll against a snapshot of the directory and the watch list, and the
    /// record is appended to the history. A failed poll appends nothing.
    /// Either way the poller sleeps its period next.
    pub fn complete(
        &mut self,
        now: i64,
        response: FeedResponse,
        routes: &RouteSnapshot,
        watched: &Vec<String>,
        history: &mut HistoryBuffer,
    ) -> (outcome: PollOutcome)
        ensures
            final(self)@ == completed(old(self)@),
            final(history)@ == history_after_poll(
                old(self)@,
                old(history)@,
                polled(now as int, response@, routes@, strings_view(watched@)),
            ),
            outcome@ == outcome_of(
                old(self)@,
                polled(now as int, response@, routes@, strings_view(watched@)),
            ),
    {
        match self.phase {
            PollerPhase::Polling => {
                self.phase = PollerPhase::Sleeping;
                match get_location(now, response, routes, watched) {
                    Ok(record) => {
                        history.append(record);
                        PollOutcome::Recorded
                    },
                    Err(e) => PollOutcome::Degraded(e),
                }
            },
            _ => PollOutcome::Ignored,
        }
    }
}

} // verus!
