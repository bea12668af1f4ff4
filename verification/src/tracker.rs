//! The tracker as a whole: the readiness gate, the directory, the history and
//! the two schedules side by side, and what holds of every run of them.
//!
//! A run is a sequence of events. Each event is one call of a method of
//! [`Refresher`](crate::refresher::Refresher) or of
//! [`Poller`](crate::poller::Poller), and [`step`] composes the very
//! functions that the contracts of those methods are stated with.

use crate::error::ErrorView;
use crate::feed::{polled, FeedView, RATE_LIMIT_STATUS};
use crate::gate::GateState;
use crate::history::CAP;
use crate::model::{RecordView, RouteInfoView};
use crate::poller::{completed, history_after_poll, released, woken, PollerPhase};
use crate::refresher::{
    after_fetch, after_parse, after_publish, begun, directory_after_publish, gate_after_publish,
    initial_refresher, RefreshPhase, RefresherView,
};
use crate::snapshot::described_by_read;
use vstd::prelude::*;

verus! {

/// The state of the tracker.
pub struct TrackerView {
    pub gate: GateState,
    pub directory: Map<Seq<char>, RouteInfoView>,
    pub history: Seq<RecordView>,
    pub refresher: RefresherView,
    pub poller: PollerPhase,
}

/// One event of a run.
pub enum TrackerEvent {
    /// `Refresher::begin`.
    RefreshBegins,
    /// `Refresher::fetched`.
    ArchiveFetched { arrived: bool },
    /// `Refresher::parsed`, with the table that the unpacked text holds.
    TableParsed { table: Result<Seq<Seq<Seq<char>>>, Seq<char>> },
    /// `Refresher::publish`, on the directory and the readiness gate of the
    /// tracker.
    Publishes,
    /// `Poller::release`, at the readiness gate of the tracker.
    PollerLooks,
    /// `Poller::wake`.
    PollerWakes,
    /// `Poller::complete`, on the history of the tracker, with a snapshot
    /// that the caller took of the directory at some time before.
    FeedFetched {
        now: int,
        feed: FeedView,
        routes: Map<Seq<char>, RouteInfoView>,
        watched: Seq<Seq<char>>,
    },
}

/// The tracker at startup: the readiness gate pending, directory and history
/// empty, the refresher idle, the poller held back.
pub open spec fn initial() -> TrackerView {
    TrackerView {
        gate: GateState::Pending,
        directory: Map::empty(),
        history: Seq::empty(),
        refresher: initial_refresher(),
        poller: PollerPhase::AwaitingReadiness,
    }
}

/// The tracker after one event.
pub open spec fn step(t: TrackerView, event: TrackerEvent) -> TrackerView {
    match event {
        TrackerEvent::RefreshBegins => TrackerView {
            gate: t.gate,
            directory: t.directory,
            history: t.history,
            refresher: begun(t.refresher),
            poller: t.poller,
        },
        TrackerEvent::ArchiveFetched { arrived } => TrackerView {
            gate: t.gate,
            directory: t.directory,
            history: t.history,
            refresher: after_fetch(t.refresher, arrived),
            poller: t.poller,
        },
        TrackerEvent::TableParsed { table } => TrackerView {
            gate: t.gate,
            directory: t.directory,
            history: t.history,
            refresher: after_parse(t.refresher, table),
            poller: t.poller,
        },
        TrackerEvent::Publishes => TrackerView {
            gate: gate_after_publish(t.refresher, t.gate),
            directory: directory_after_publish(t.refresher, t.directory),
            history: t.history,
            refresher: after_publish(t.refresher),
            poller: t.poller,
        },
        TrackerEvent::PollerLooks => TrackerView {
            gate: t.gate,
            directory: t.directory,
            history: t.history,
            refresher: t.refresher,
            poller: released(t.poller, t.gate),
        },
        TrackerEvent::PollerWakes => TrackerView {
            gate: t.gate,
            directory: t.directory,
            history: t.history,
            refresher: t.refresher,
            poller: woken(t.poller),
        },
        TrackerEvent::FeedFetched { now, feed, routes, watched } => TrackerView {
            gate: t.gate,
            directory: t.directory,
            history: history_after_poll(t.poller, t.history, polled(now, feed, routes, watched)),
            refresher: t.refresher,
            poller: completed(t.poller),
        },
    }
}

/// The tracker after a run.
pub open spec fn run(t: TrackerView, events: Seq<TrackerEvent>) -> TrackerView
    decreases events.len(),
{
    if events.len() == 0 {
        t
    } else {
        step(run(t, events.drop_last()), events.last())
    }
}

/// Whether an event is the end of a decoding whose table describes a given
/// snapshot.
pub open spec fn describes(event: TrackerEvent, snapshot: Map<Seq<char>, RouteInfoView>) -> bool {
    match event {
        TrackerEvent::TableParsed { table } => described_by_read(table) == Ok::<
            Map<Seq<char>, RouteInfoView>,
            ErrorView,
        >(snapshot),
        _ => false,
    }
}

/// Whether a snapshot is what one refresh of a run has built.
pub open spec fn built_in(events: Seq<TrackerEvent>, snapshot: Map<Seq<char>, RouteInfoView>) -> bool {
    exists|i: int| 0 <= i < events.len() && describes(#[trigger] events[i], snapshot)
}

/// Whether an event is a fetch of the feed that came back throttled.
pub open spec fn throttled(event: TrackerEvent) -> bool {
    match event {
        TrackerEvent::FeedFetched { feed, .. } => match feed {
            FeedView::Arrived { status, .. } => status == Some(RATE_LIMIT_STATUS),
            FeedView::Unreachable(_) => false,
        },
        _ => false,
    }
}

/// Whether an event is the end of an attempt to refresh that has failed: a
/// fetch that brought nothing, or a decoding that describes no snapshot.
pub open spec fn refresh_fails(event: TrackerEvent) -> bool {
    match event {
        TrackerEvent::ArchiveFetched { arrived } => !arrived,
        TrackerEvent::TableParsed { table } => described_by_read(table) is Err,
        _ => false,
    }
}

/// A readiness gate that has fired stays fired through every run.
pub proof fn lemma_gate_never_reverses(t: TrackerView, events: Seq<TrackerEvent>)
    requires
        t.gate == GateState::Fired,
    ensures
        run(t, events).gate == GateState::Fired,
    decreases events.len(),
{
    if events.len() > 0 {
        lemma_gate_never_reverses(t, events.drop_last());
    }
}

/// In every run from startup, the poller fetches the feed only once the
/// readiness gate has fired, and that fires only by a publication: as long
/// as nothing has been published, the poller is held back and the history is
/// empty.
pub proof fn lemma_no_poll_before_readiness(events: Seq<TrackerEvent>)
    ensures
        run(initial(), events).poller != PollerPhase::AwaitingReadiness ==> run(
            initial(),
            events,
        ).gate == GateState::Fired,
        run(initial(), events).gate == GateState::Fired <==> run(
            initial(),
            events,
        ).refresher.published,
        !run(initial(), events).refresher.published ==> run(initial(), events).history
            == Seq::<RecordView>::empty(),
    decreases events.len(),
{
    if events.len() > 0 {
        lemma_no_poll_before_readiness(events.drop_last());
    }
}

/// In every run from startup, the history holds no more records than its
/// capacity.
pub proof fn lemma_history_stays_bounded(events: Seq<TrackerEvent>)
    ensures
        run(initial(), events).history.len() <= CAP,
    decreases events.len(),
{
    if events.len() > 0 {
        lemma_history_stays_bounded(events.drop_last());
    }
}

/// In every run from startup, the directory holds one snapshot in whole:
/// the empty one of startup, or exactly what one refresh of the run has
/// built. It never mixes the entries of two.
pub proof fn lemma_directory_is_whole(events: Seq<TrackerEvent>)
    ensures
        run(initial(), events).directory == Map::<Seq<char>, RouteInfoView>::empty() || built_in(
            events,
            run(initial(), events).directory,
        ),
        run(initial(), events).refresher.pending matches Some(snapshot) ==> built_in(
            events,
            snapshot,
        ),
        run(initial(), events).refresher.phase == RefreshPhase::Publishing ==> run(
            initial(),
            events,
        ).refresher.pending is Some,
    decreases events.len(),
{
    if events.len() > 0 {
        let front = events.drop_last();
        let before = run(initial(), front);
        let after = run(initial(), events);
        lemma_directory_is_whole(front);
        assert forall|snapshot: Map<Seq<char>, RouteInfoView>|
            built_in(front, snapshot) implies built_in(events, snapshot) by {
            let i = choose|i: int| 0 <= i < front.len() && describes(#[trigger] front[i], snapshot);
            assert(describes(events[i], snapshot));
        }
        if after.refresher.pending is Some && before.refresher.pending != after.refresher.pending {
            assert(describes(events[events.len() - 1], after.refresher.pending->0));
        }
    }
}

/// A response that signals throttling appends nothing: the poll ends in a
/// rate limit failure and the history is as it was, whatever the state of
/// the tracker and whatever else the response holds.
pub proof fn lemma_rate_limit_appends_nothing(t: TrackerView, event: TrackerEvent)
    requires
        throttled(event),
    ensures
        step(t, event).history == t.history,
        event matches TrackerEvent::FeedFetched { now, feed, routes, watched } && polled(
            now,
            feed,
            routes,
            watched,
        ) matches Err(ErrorView::RateLimited(_)),
{
}

/// A failed attempt to refresh leaves the directory as it was: stale routes
/// are kept rather than none.
pub proof fn lemma_failed_refresh_keeps_directory(t: TrackerView, event: TrackerEvent)
    requires
        refresh_fails(event),
    ensures
        step(t, event).directory == t.directory,
{
}

/// A failed attempt to refresh leaves nothing pending: a publication that
/// follows it finds nothing to put in the directory's place.
pub proof fn lemma_failed_refresh_publishes_nothing(t: TrackerView, event: TrackerEvent)
    requires
        refresh_fails(event),
        t.refresher.phase != RefreshPhase::Publishing,
    ensures
        step(step(t, event), TrackerEvent::Publishes).directory == t.directory,
        step(step(t, event), TrackerEvent::Publishes).gate == t.gate,
{
}

/// Only a publication changes the directory.
pub proof fn lemma_only_publication_changes_directory(t: TrackerView, event: TrackerEvent)
    requires
        event != TrackerEvent::Publishes,
    ensures
        step(t, event).directory == t.directory,
{
}

} // verus!
