//! The schedule of the directory refresh, as a state machine. The caller
//! does the outside work (it fetches the archive, decodes it into a table,
//! sleeps) and reports each outcome; the machine decides what follows and
//! publishes the new snapshot.

use crate::directory::RouteDirectory;
use crate::error::{Error, ErrorView};
use crate::gate::{GateState, ReadinessGate};
use crate::model::RouteInfoView;
use crate::snapshot::{described_by_read, route_records, RouteSnapshot};
use vstd::prelude::*;

verus! {

/// The time between two refreshes of the directory, in seconds: one hour.
pub const REFRESH_PERIOD_SECS: u64 = 3600;

/// Where a refresh stands.
#[derive(Clone, Copy, PartialEq, Eq, Structural, Debug)]
pub enum RefreshPhase {
    /// Between two refreshes.
    Idle,
    /// The archive is being fetched.
    Fetching,
    /// The archive is being decoded into a table.
    Parsing,
    /// A new snapshot is ready to be published.
    Publishing,
}

/// The outside work that a refresher waits for.
#[derive(Clone, Copy, PartialEq, Eq, Structural, Debug)]
pub enum RefreshAction {
    /// Sleep the given number of seconds, then begin the next refresh.
    Sleep { secs: u64 },
    /// Fetch the archive of the route table.
    Fetch,
    /// Decode the archive into the table of routes.
    Parse,
    /// Take exclusive access to the directory and publish.
    Publish,
}

/// The schedule of the directory refresh.
pub struct Refresher {
    phase: RefreshPhase,
    published: bool,
    pending: RouteSnapshot,
}

/// The view of a [`Refresher`]: its phase, whether it has published before,
/// and the snapshot that it is about to publish.
pub struct RefresherView {
    pub phase: RefreshPhase,
    pub published: bool,
    pub pending: Option<Map<Seq<char>, RouteInfoView>>,
}

impl View for Refresher {
    type V = RefresherView;

    closed spec fn view(&self) -> RefresherView {
        RefresherView {
            phase: self.phase,
            published: self.published,
            pending: if self.phase == RefreshPhase::Publishing {
                Some(self.pending@)
            } else {
                None
            },
        }
    }
}

/// The refresher before its first refresh.
pub open spec fn initial_refresher() -> RefresherView {
    RefresherView { phase: RefreshPhase::Idle, published: false, pending: None }
}

/// The outside work that a phase waits for.
pub open spec fn awaited_in(phase: RefreshPhase) -> RefreshAction {
    match phase {
        RefreshPhase::Idle => RefreshAction::Sleep { secs: REFRESH_PERIOD_SECS },
        RefreshPhase::Fetching => RefreshAction::Fetch,
        RefreshPhase::Parsing => RefreshAction::Parse,
        RefreshPhase::Publishing => RefreshAction::Publish,
    }
}

/// The refresher after a refresh has begun: an idle one is fetching, any
/// other is as before.
pub open spec fn begun(r: RefresherView) -> RefresherView {
    if r.phase == RefreshPhase::Idle {
        RefresherView { phase: RefreshPhase::Fetching, published: r.published, pending: None }
    } else {
        r
    }
}

/// The refresher after a fetch has ended: a fetching one goes on to parse
/// what arrived, or is idle again where nothing arrived; any other is as
/// before.
pub open spec fn after_fetch(r: RefresherView, arrived: bool) -> RefresherView {
    if r.phase == RefreshPhase::Fetching {
        RefresherView {
            phase: if arrived {
                RefreshPhase::Parsing
            } else {
                RefreshPhase::Idle
            },
            published: r.published,
            pending: None,
        }
    } else {
        r
    }
}

/// The table that the outcome of unpacking the archive holds: the records
/// that the text of the route table is read into, or the message of the
/// failure to unpack.
pub open spec fn table_of(text: Result<Seq<char>, Seq<char>>) -> Result<
    Seq<Seq<Seq<char>>>,
    Seq<char>,
> {
    match text {
        Ok(t) => route_records(t),
        Err(m) => Err(m),
    }
}

/// The refresher after a decoding has ended: a parsing one is ready to
/// publish the snapshot that the table describes, or is idle again where it
/// describes none; any other is as before.
pub open spec fn after_parse(
    r: RefresherView,
    table: Result<Seq<Seq<Seq<char>>>, Seq<char>>,
) -> RefresherView {
    if r.phase == RefreshPhase::Parsing {
        match described_by_read(table) {
            Ok(snapshot) => RefresherView {
                phase: RefreshPhase::Publishing,
                published: r.published,
                pending: Some(snapshot),
            },
            Err(_) => RefresherView {
                phase: RefreshPhase::Idle,
                published: r.published,
                pending: None,
            },
        }
    } else {
        r
    }
}

/// The failure that a refresher reports after a decoding has ended: that of
/// a parsing one whose table describes no snapshot.
pub open spec fn parse_report(
    r: RefresherView,
    table: Result<Seq<Seq<Seq<char>>>, Seq<char>>,
) -> Option<ErrorView> {
    if r.phase == RefreshPhase::Parsing {
        match described_by_read(table) {
            Ok(_) => None,
            Err(e) => Some(e),
        }
    } else {
        None
    }
}

/// The refresher after a publication: one that was ready to publish has
/// published and is idle; any other is as before.
pub open spec fn after_publish(r: RefresherView) -> RefresherView {
    if r.phase == RefreshPhase::Publishing {
        RefresherView { phase: RefreshPhase::Idle, published: true, pending: None }
    } else {
        r
    }
}

/// The directory after a publication: the pending snapshot of a refresher
/// that was ready to publish; the directory as it was for any other.
pub open spec fn directory_after_publish(
    r: RefresherView,
    directory: Map<Seq<char>, RouteInfoView>,
) -> Map<Seq<char>, RouteInfoView> {
    if r.phase == RefreshPhase::Publishing && r.pending is Some {
        r.pending->0
    } else {
        directory
    }
}

/// The readiness gate after a publication: fired by the first publication of a
/// refresher; as it was in every other case.
pub open spec fn gate_after_publish(r: RefresherView, gate: GateState) -> GateState {
    if r.phase == RefreshPhase::Publishing && !r.published {
        GateState::Fired
    } else {
        gate
    }
}

/// The view of the outcome of unpacking the archive.
pub open spec fn unpacked_view(text: Result<String, String>) -> Result<Seq<char>, Seq<char>> {
    match text {
        Ok(t) => Ok(t@),
        Err(m) => Err(m@),
    }
}

/// The view of an optional failure.
pub open spec fn failure_view(failure: Option<Error>) -> Option<ErrorView> {
    match failure {
        Some(e) => Some(e@),
        None => None,
    }
}

impl Refresher {
    /// The refresher before its first refresh: idle, with nothing published.
    pub fn new() -> (refresher: Refresher)
        ensures
            refresher@ == initial_refresher(),
    {
        Refresher { phase: RefreshPhase::Idle, published: false, pending: RouteSnapshot::new() }
    }

    /// Where the refresh stands.
    pub fn phase(&self) -> (phase: RefreshPhase)
        ensures
            phase == self@.phase,
    {
        self.phase
    }

    /// Whether a snapshot has been published before.
    pub fn has_published(&self) -> (published: bool)
        ensures
            published == self@.published,
    {
        self.published
    }

    /// The outside work that the refresher waits for.
    pub fn awaited(&self) -> (action: RefreshAction)
        ensures
            action == awaited_in(self@.phase),
    {
        match self.phase {
            RefreshPhase::Idle => RefreshAction::Sleep { secs: REFRESH_PERIOD_SECS },
            RefreshPhase::Fetching => RefreshAction::Fetch,
            RefreshPhase::Parsing => RefreshAction::Parse,
            RefreshPhase::Publishing => RefreshAction::Publish,
        }
    }

    /// Begins a refresh: at the start, and whenever the period has passed.
    pub fn begin(&mut self)
        ensures
            final(self)@ == begun(old(self)@),
    {
        match self.phase {
            RefreshPhase::Idle => {
                self.phase = RefreshPhase::Fetching;
            },
            _ => {},
        }
    }

    /// Takes note that the fetch has ended, and whether the archive arrived.
    /// A failed fetch ends the refresh: what was published stays.
    pub fn fetched(&mut self, arrived: bool)
        ensures
            final(self)@ == after_fetch(old(self)@, arrived),
    {
        match self.phase {
            RefreshPhase::Fetching => {
                if arrived {
                    self.phase = RefreshPhase::Parsing;
                } else {
                    self.phase = RefreshPhase::Idle;
                }
            },
            _ => {},
        }
    }

    /// Takes note that the archive has been unpacked: with the text of the
    /// route table, or with the message of the failure to unpack. A text that
    /// describes a snapshot makes the refresher ready to publish it. Anything
    /// else ends the refresh with the failure that is returned: what was
    /// published stays.
    pub fn parsed(&mut self, text: Result<String, String>) -> (failure: Option<Error>)
        ensures
            final(self)@ == after_parse(old(self)@, table_of(unpacked_view(text))),
            failure_view(failure) == parse_report(old(self)@, table_of(unpacked_view(text))),
    {
        match self.phase {
            RefreshPhase::Parsing => {
                let built = match text {
                    Ok(t) => RouteSnapshot::from_csv(t.as_str()),
                    Err(m) => Err(Error::Parse(m)),
                };
                match built {
                    Ok(snapshot) => {
                        self.pending = snapshot;
                        self.phase = RefreshPhase::Publishing;
                        None
                    },
                    Err(e) => {
                        self.phase = RefreshPhase::Idle;
                        Some(e)
                    },
                }
            },
            _ => None,
        }
    }

    /// Publishes the pending snapshot: exchanges the directory's mapping for
    /// it, whole, and fires the readiness gate if this is the first
    /// publication. The result says whether the readiness gate has fired by
    /// this call. A refresher that is not ready to publish leaves directory
    /// and gate as they are.
    pub fn publish(&mut self, directory: &mut RouteDirectory, gate: &mut ReadinessGate) -> (released:
        bool)
        ensures
            final(self)@ == after_publish(old(self)@),
            final(directory)@ == directory_after_publish(old(self)@, old(directory)@),
            final(gate)@ == gate_after_publish(old(self)@, old(gate)@),
            released == (final(gate)@ != old(gate)@),
    {
        match self.phase {
            RefreshPhase::Publishing => {
                let mut snapshot = RouteSnapshot::new();
                core::mem::swap(&mut self.pending, &mut snapshot);
                directory.replace(snapshot);
                let first = !self.published;
                self.published = true;
                self.phase = RefreshPhase::Idle;
                if first {
                    gate.fire()
                } else {
                    false
                }
            },
            _ => false,
        }
    }
}

} // verus!
