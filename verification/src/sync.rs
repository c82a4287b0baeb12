//! One synchronization cycle, as a state machine.
//!
//! A cycle fetches the remote index, walks the new commits pair by pair in
//! history order, and moves the checked-out position (the cursor) past a pair
//! only once that pair is dealt with. The machine decides; its driver does
//! the work. Each [`SyncAction`] names the work to do next, and the driver
//! answers with the [`SyncEvent`] that says how it went.

use crate::commit::Commit;
use crate::diff::DiffLine;
use crate::extract::{extract, extraction, outcome_view, EventView, ExtractError, LifecycleEvent};
use vstd::prelude::*;

verus! {

/// The number of events that may wait between the synchronizer and the
/// dispatcher. The synchronizer cannot run ahead of the dispatcher by more.
pub const HANDOFF_CAPACITY: usize = 2;

/// Where a cycle stands.
#[derive(Debug, Clone, Copy, PartialEq, Eq, Structural)]
pub enum Phase {
    /// Waiting for the remote to be fetched and the new commits listed.
    Fetching,
    /// Waiting for the difference of the pair at the cursor.
    Diffing,
    /// The pair's event is handed off; waiting for its token to be released.
    AwaitingAck,
    /// Waiting to learn how the pair's newer commit relates to the cursor.
    Analyzing,
    /// Waiting for the branch to be moved to the pair's newer commit.
    Moving,
    /// Every pair is dealt with.
    Done,
    /// The cycle was abandoned.
    Failed,
}

impl Phase {
    /// The phases in which a pair of commits is being dealt with.
    pub open spec fn in_pair(self) -> bool {
        self is Diffing || self is AwaitingAck || self is Analyzing || self is Moving
    }
}

/// Why the cursor moves past a pair that gave no event.
#[derive(Debug, Clone, Copy, PartialEq, Eq, Structural)]
pub enum Skip {
    /// The newer commit is not canonical.
    ForeignAuthor,
    /// The extraction found nothing to report.
    NoEvent,
    /// The commit changes files only in ways that are not analyzed.
    UnsupportedDelta,
}

/// Why a cycle was abandoned.
#[derive(Debug, Clone, Copy, PartialEq, Eq, Structural)]
pub enum SyncError {
    /// Work on the repository or the hand-off failed.
    Outside,
    /// The pair at the cursor could not be analyzed.
    Extract(ExtractError),
    /// The newer commit does not descend from the cursor.
    NotFastForward,
}

/// What the driver reports back.
#[derive(Debug, PartialEq, Eq)]
pub enum SyncEvent {
    /// The remote was fetched. The commits run from the checked-out one to
    /// the fetched tip, in history order, oldest first.
    Fetched(Vec<Commit>),
    /// The pair at the cursor was analyzed.
    Extracted(Result<Option<LifecycleEvent>, ExtractError>),
    /// The token of the event handed off last was released.
    Acknowledged,
    /// How the pair's newer commit relates to the checked-out position.
    Analyzed { up_to_date: bool, fast_forward: bool },
    /// The branch was moved and checked out.
    Moved,
    /// The work asked for failed.
    Failed,
}

/// The mathematical value of a [`SyncEvent`].
pub enum EventSeen {
    Fetched(Seq<Commit>),
    Extracted(Result<Option<EventView>, ExtractError>),
    Acknowledged,
    Analyzed { up_to_date: bool, fast_forward: bool },
    Moved,
    Failed,
}

impl View for SyncEvent {
    type V = EventSeen;

    open spec fn view(&self) -> EventSeen {
        match *self {
            SyncEvent::Fetched(commits) => EventSeen::Fetched(commits@),
            SyncEvent::Extracted(outcome) => EventSeen::Extracted(outcome_view(outcome)),
            SyncEvent::Acknowledged => EventSeen::Acknowledged,
            SyncEvent::Analyzed { up_to_date, fast_forward } => EventSeen::Analyzed {
                up_to_date,
                fast_forward,
            },
            SyncEvent::Moved => EventSeen::Moved,
            SyncEvent::Failed => EventSeen::Failed,
        }
    }
}

/// What the driver is to do next. Commits are named by their place in the
/// list that came with [`SyncEvent::Fetched`].
#[derive(Debug, PartialEq, Eq)]
pub enum SyncAction {
    /// Fetch the remote and list the new commits; answer `Fetched`.
    Fetch,
    /// Compute the difference between two commits; answer `Extracted` with
    /// what [`extract`] makes of it.
    Diff { prev: usize, next: usize },
    /// Hand the event to the dispatcher with a fresh token and wait until the
    /// token is released; answer `Acknowledged`.
    HandOff(LifecycleEvent),
    /// Find out how the commit relates to the checked-out position; answer
    /// `Analyzed`.
    Analyze { target: usize, skipped: Option<Skip> },
    /// Move the branch to the commit and check it out; answer `Moved`.
    MoveRef { target: usize },
    /// The cycle is complete.
    Finish,
    /// The cycle is abandoned: report the error.
    Abort(SyncError),
    /// The event does not answer the last action; nothing has changed.
    Reject,
}

/// The mathematical value of a [`SyncAction`].
pub enum ActionView {
    Fetch,
    Diff { prev: nat, next: nat },
    HandOff(EventView),
    Analyze { target: nat, skipped: Option<Skip> },
    MoveRef { target: nat },
    Finish,
    Abort(SyncError),
    Reject,
}

impl View for SyncAction {
    type V = ActionView;

    open spec fn view(&self) -> ActionView {
        match *self {
            SyncAction::Fetch => ActionView::Fetch,
            SyncAction::Diff { prev, next } => ActionView::Diff {
                prev: prev as nat,
                next: next as nat,
            },
            SyncAction::HandOff(event) => ActionView::HandOff(event@),
            SyncAction::Analyze { target, skipped } => ActionView::Analyze {
                target: target as nat,
                skipped,
            },
            SyncAction::MoveRef { target } => ActionView::MoveRef { target: target as nat },
            SyncAction::Finish => ActionView::Finish,
            SyncAction::Abort(e) => ActionView::Abort(e),
            SyncAction::Reject => ActionView::Reject,
        }
    }
}

/// The mathematical value of a [`SyncCycle`]: the commits that the fetch
/// listed, the place of the checked-out commit among them, and the phase.
pub struct SyncView {
    pub commits: Seq<Commit>,
    pub cursor: nat,
    pub phase: Phase,
}

impl SyncView {
    /// While a pair is dealt with, the pair exists: the cursor has a
    /// successor in the list.
    pub open spec fn wf(self) -> bool {
        self.phase.in_pair() ==> self.cursor + 1 < self.commits.len()
    }

    /// The same cycle in another phase.
    pub open spec fn at(self, phase: Phase) -> SyncView {
        SyncView { phase, ..self }
    }
}

/// Takes up the pair at `cursor`, if there is one: a canonical commit is
/// analyzed, any other is passed over; with no pair left the cycle is done.
pub open spec fn take_up(commits: Seq<Commit>, cursor: nat) -> (SyncView, ActionView) {
    if cursor + 1 < commits.len() {
        if commits[cursor + 1 as int].is_canonical() {
            (
                SyncView { commits, cursor, phase: Phase::Diffing },
                ActionView::Diff { prev: cursor, next: cursor + 1 },
            )
        } else {
            (
                SyncView { commits, cursor, phase: Phase::Analyzing },
                ActionView::Analyze {
                    target: cursor + 1,
                    skipped: Some(Skip::ForeignAuthor),
                },
            )
        }
    } else {
        (SyncView { commits, cursor, phase: Phase::Done }, ActionView::Finish)
    }
}

/// The next state and the next action, for every state and event.
pub open spec fn transition(s: SyncView, e: EventSeen) -> (SyncView, ActionView) {
    let target = s.cursor + 1;
    match (s.phase, e) {
        (Phase::Fetching, EventSeen::Fetched(commits)) => take_up(commits, 0),
        (Phase::Diffing, EventSeen::Extracted(Ok(Some(event)))) => (
            s.at(Phase::AwaitingAck),
            ActionView::HandOff(event),
        ),
        (Phase::Diffing, EventSeen::Extracted(Ok(None))) => (
            s.at(Phase::Analyzing),
            ActionView::Analyze { target, skipped: Some(Skip::NoEvent) },
        ),
        (Phase::Diffing, EventSeen::Extracted(Err(ExtractError::UnsupportedDelta))) => (
            s.at(Phase::Analyzing),
            ActionView::Analyze { target, skipped: Some(Skip::UnsupportedDelta) },
        ),
        (Phase::Diffing, EventSeen::Extracted(Err(e))) => (
            s.at(Phase::Failed),
            ActionView::Abort(SyncError::Extract(e)),
        ),
        (Phase::AwaitingAck, EventSeen::Acknowledged) => (
            s.at(Phase::Analyzing),
            ActionView::Analyze { target, skipped: None },
        ),
        (Phase::Analyzing, EventSeen::Analyzed { up_to_date, fast_forward }) => if up_to_date {
            take_up(s.commits, target)
        } else if fast_forward {
            (s.at(Phase::Moving), ActionView::MoveRef { target })
        } else {
            (s.at(Phase::Failed), ActionView::Abort(SyncError::NotFastForward))
        },
        (Phase::Moving, EventSeen::Moved) => take_up(s.commits, target),
        (_, EventSeen::Failed) => if s.phase is Done || s.phase is Failed {
            (s, ActionView::Reject)
        } else {
            (s.at(Phase::Failed), ActionView::Abort(SyncError::Outside))
        },
        _ => (s, ActionView::Reject),
    }
}

/// A synchronization cycle.
#[derive(Debug)]
pub struct SyncCycle {
    commits: Vec<Commit>,
    cursor: usize,
    phase: Phase,
}

impl View for SyncCycle {
    type V = SyncView;

    closed spec fn view(&self) -> SyncView {
        SyncView { commits: self.commits@, cursor: self.cursor as nat, phase: self.phase }
    }
}

impl SyncCycle {
    #[verifier::type_invariant]
    spec fn inv(&self) -> bool {
        self.phase.in_pair() ==> self.cursor + 1 < self.commits.len()
    }

    /// Begins a cycle: nothing is known yet, and the first thing to do is to
    /// fetch.
    pub fn begin() -> (r: (SyncCycle, SyncAction))
        ensures
            r.0@ == (SyncView { commits: Seq::empty(), cursor: 0, phase: Phase::Fetching }),
            r.1@ == ActionView::Fetch,
    {
        (SyncCycle { commits: Vec::new(), cursor: 0, phase: Phase::Fetching }, SyncAction::Fetch)
    }

    /// The phase the cycle is in.
    pub fn phase(&self) -> (r: Phase)
        ensures
            r == self@.phase,
    {
        self.phase
    }

    /// The place of the checked-out commit in the list of commits.
    pub fn cursor(&self) -> (r: usize)
        ensures
            r == self@.cursor,
    {
        self.cursor
    }

    /// The commits that the fetch listed.
    pub fn commits(&self) -> (r: &Vec<Commit>)
        ensures
            r@ == self@.commits,
    {
        &self.commits
    }

    fn take_up(commits: Vec<Commit>, cursor: usize) -> (r: (SyncCycle, SyncAction))
        requires
            cursor <= commits.len(),
        ensures
            (r.0@, r.1@) == take_up(commits@, cursor as nat),
    {
        if cursor < commits.len() && cursor + 1 < commits.len() {
            if commits[cursor + 1].canonical() {
                (
                    SyncCycle { commits, cursor, phase: Phase::Diffing },
                    SyncAction::Diff { prev: cursor, next: cursor + 1 },
                )
            } else {
                (
                    SyncCycle { commits, cursor, phase: Phase::Analyzing },
                    SyncAction::Analyze {
                        target: cursor + 1,
                        skipped: Some(Skip::ForeignAuthor),
                    },
                )
            }
        } else {
            (SyncCycle { commits, cursor, phase: Phase::Done }, SyncAction::Finish)
        }
    }

    fn enter(self, phase: Phase) -> (r: SyncCycle)
        requires
            phase.in_pair() ==> self@.cursor + 1 < self@.commits.len(),
        ensures
            r@ == self@.at(phase),
    {
        SyncCycle { commits: self.commits, cursor: self.cursor, phase }
    }

    /// Takes the driver's report and says what to do next.
    ///
    /// A report that does not answer the last action is rejected and changes
    /// nothing.
    pub fn step(self, event: SyncEvent) -> (r: (SyncCycle, SyncAction))
        ensures
            (r.0@, r.1@) == transition(self@, event@),
            r.0@.wf(),
    {
        proof {
            use_type_invariant(&self);
        }
        let phase = self.phase;
        let cursor = self.cursor;
        match (phase, event) {
            (Phase::Fetching, SyncEvent::Fetched(commits)) => Self::take_up(commits, 0),
            (Phase::Diffing, SyncEvent::Extracted(Ok(Some(found)))) => (
                self.enter(Phase::AwaitingAck),
                SyncAction::HandOff(found),
            ),
            (Phase::Diffing, SyncEvent::Extracted(Ok(None))) => (
                self.enter(Phase::Analyzing),
                SyncAction::Analyze { target: cursor + 1, skipped: Some(Skip::NoEvent) },
            ),
            (Phase::Diffing, SyncEvent::Extracted(Err(ExtractError::UnsupportedDelta))) => (
                self.enter(Phase::Analyzing),
                SyncAction::Analyze { target: cursor + 1, skipped: Some(Skip::UnsupportedDelta) },
            ),
            (Phase::Diffing, SyncEvent::Extracted(Err(e))) => (
                self.enter(Phase::Failed),
                SyncAction::Abort(SyncError::Extract(e)),
            ),
            (Phase::AwaitingAck, SyncEvent::Acknowledged) => (
                self.enter(Phase::Analyzing),
                SyncAction::Analyze { target: cursor + 1, skipped: None },
            ),
            (Phase::Analyzing, SyncEvent::Analyzed { up_to_date, fast_forward }) => {
                if up_to_date {
                    Self::take_up(self.commits, cursor + 1)
                } else if fast_forward {
                    (self.enter(Phase::Moving), SyncAction::MoveRef { target: cursor + 1 })
                } else {
                    (self.enter(Phase::Failed), SyncAction::Abort(SyncError::NotFastForward))
                }
            },
            (Phase::Moving, SyncEvent::Moved) => Self::take_up(self.commits, cursor + 1),
            (Phase::Done, SyncEvent::Failed) => (self, SyncAction::Reject),
            (Phase::Failed, SyncEvent::Failed) => (self, SyncAction::Reject),
            (_, SyncEvent::Failed) => (
                self.enter(Phase::Failed),
                SyncAction::Abort(SyncError::Outside),
            ),
            _ => (self, SyncAction::Reject),
        }
    }

    /// Analyzes the difference of the pair at the cursor and takes the
    /// outcome as the driver's report.
    ///
    /// Outside the phase that waits for a difference, the call is rejected
    /// and changes nothing.
    pub fn on_diff(self, diff: &[DiffLine]) -> (r: (SyncCycle, SyncAction))
        ensures
            (r.0@, r.1@) == if self@.phase is Diffing {
                transition(
                    self@,
                    EventSeen::Extracted(
                        extraction(self@.commits[self@.cursor + 1 as int].is_canonical(), diff@),
                    ),
                )
            } else {
                (self@, ActionView::Reject)
            },
            r.0@.wf(),
    {
        proof {
            use_type_invariant(&self);
        }
        match self.phase {
            Phase::Diffing => {
                let outcome = extract(&self.commits[self.cursor + 1], diff);
                self.step(SyncEvent::Extracted(outcome))
            },
            _ => (self, SyncAction::Reject),
        }
    }
}

/// The state that a cycle is in after a run of events.
pub open spec fn run(s: SyncView, events: Seq<EventSeen>) -> SyncView
    decreases events.len(),
{
    if events.len() == 0 {
        s
    } else {
        run(transition(s, events[0]).0, events.drop_first())
    }
}

/// Every step leaves the cycle well formed.
pub proof fn lemma_step_keeps_wf(s: SyncView, e: EventSeen)
    requires
        s.wf(),
    ensures
        transition(s, e).0.wf(),
{
}

/// A step moves the cursor by one pair or not at all, and it moves it only
/// when the driver reports that the checked-out position has reached the
/// pair's newer commit.
pub proof fn lemma_cursor_moves_by_one_pair(s: SyncView, e: EventSeen)
    requires
        s.wf(),
        !(s.phase is Fetching),
    ensures
        ({
            let next = transition(s, e).0;
            &&& next.commits == s.commits
            &&& next.cursor == s.cursor || next.cursor == s.cursor + 1
            &&& next.cursor != s.cursor ==> (s.phase is Analyzing && e matches EventSeen::Analyzed {
                up_to_date: true,
                ..
            }) || (s.phase is Moving && e is Moved)
        }),
{
}

/// While an event awaits its acknowledgement, nothing but the
/// acknowledgement leads on: every other report leaves the cursor where it
/// is, and is either rejected or ends the cycle. In particular no move of the
/// checked-out position is asked for, and no later event is handed off.
pub proof fn lemma_unacknowledged_step_holds_cursor(s: SyncView, e: EventSeen)
    requires
        s.phase is AwaitingAck,
        !(e is Acknowledged),
    ensures
        ({
            let (next, action) = transition(s, e);
            &&& next.cursor == s.cursor
            &&& next.phase is AwaitingAck || next.phase is Failed
            &&& action is Reject || action is Abort
        }),
{
}

/// The cursor never moves past a pair whose event is not acknowledged:
/// however long the acknowledgement is delayed, and whatever else is
/// reported meanwhile, the cursor stays on the pair.
pub proof fn lemma_cursor_waits_for_ack(s: SyncView, events: Seq<EventSeen>)
    requires
        s.phase is AwaitingAck,
        forall|i: int| 0 <= i < events.len() ==> !(#[trigger] events[i] is Acknowledged),
    ensures
        run(s, events).cursor == s.cursor,
        run(s, events).phase is AwaitingAck || run(s, events).phase is Failed,
{
    lemma_cursor_held(s, events);
}

proof fn lemma_cursor_held(s: SyncView, events: Seq<EventSeen>)
    requires
        s.phase is AwaitingAck || s.phase is Failed,
        forall|i: int| 0 <= i < events.len() ==> !(#[trigger] events[i] is Acknowledged),
    ensures
        run(s, events).cursor == s.cursor,
        run(s, events).phase is AwaitingAck || run(s, events).phase is Failed,
    decreases events.len(),
{
    if events.len() > 0 {
        let rest = events.drop_first();
        assert(!(events[0] is Acknowledged));
        assert forall|i: int| 0 <= i < rest.len() implies !(#[trigger] rest[i] is Acknowledged) by {
            assert(rest[i] == events[i + 1]);
        }
        lemma_cursor_held(transition(s, events[0]).0, rest);
    }
}

/// Once the acknowledgement comes, the cycle turns to moving the cursor at
/// once, and the cursor arrives on the pair's newer commit as soon as the
/// driver reports the checked-out position there.
pub proof fn lemma_ack_releases_cursor(s: SyncView)
    requires
        s.wf(),
        s.phase is AwaitingAck,
    ensures
        ({
            let (acked, action) = transition(s, EventSeen::Acknowledged);
            let moving = transition(
                acked,
                EventSeen::Analyzed { up_to_date: false, fast_forward: true },
            );
            &&& acked == s.at(Phase::Analyzing)
            &&& action == ActionView::Analyze { target: s.cursor + 1, skipped: None }
            &&& moving.1 == ActionView::MoveRef { target: s.cursor + 1 }
            &&& transition(moving.0, EventSeen::Moved).0.cursor == s.cursor + 1
            &&& transition(
                acked,
                EventSeen::Analyzed { up_to_date: true, fast_forward: false },
            ).0.cursor == s.cursor + 1
        }),
{
}

/// What is left to do in a cycle, counted in reports: four for each pair
/// that is not yet taken up, and as many for the pair in hand as its phase
/// still needs.
pub open spec fn work_left(s: SyncView) -> nat {
    let pairs_ahead = if s.cursor + 1 < s.commits.len() {
        (s.commits.len() - s.cursor - 2) as nat
    } else {
        0
    };
    match s.phase {
        Phase::Fetching => 1 + 4 * s.commits.len(),
        Phase::Diffing => 4 * pairs_ahead + 4,
        Phase::AwaitingAck => 4 * pairs_ahead + 3,
        Phase::Analyzing => 4 * pairs_ahead + 2,
        Phase::Moving => 4 * pairs_ahead + 1,
        Phase::Done | Phase::Failed => 0,
    }
}

/// A cycle comes to an end: every report that is not rejected leaves less to
/// do, except the one that brings the list of commits.
pub proof fn lemma_accepted_report_makes_progress(s: SyncView, e: EventSeen)
    requires
        s.wf(),
        !(s.phase is Fetching),
        !(transition(s, e).1 is Reject),
    ensures
        work_left(transition(s, e).0) < work_left(s),
{
}

/// Pairs are taken up strictly in history order: whenever a difference is
/// asked for, it is that of the commit at the cursor and its successor.
pub proof fn lemma_pairs_in_order(s: SyncView, e: EventSeen)
    requires
        s.wf(),
    ensures
        ({
            let (next, action) = transition(s, e);
            action matches ActionView::Diff { prev, next: newer } ==> prev == next.cursor && newer
                == next.cursor + 1 && next.phase is Diffing
        }),
{
}

} // verus!
