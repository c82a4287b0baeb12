//! From a difference between two commits to the event it stands for.

use crate::commit::Commit;
use crate::diff::{additions, removals, shape_of, unsupported, DiffLine};
use crate::record::{parse_record, record_of_line, IndexRecord, RecordView};
use vstd::prelude::*;

verus! {

/// What happened to a package version.
#[derive(Debug, Clone, Copy, PartialEq, Eq, Structural)]
pub enum EventKind {
    NewVersion,
    Yanked,
    Unyanked,
}

/// Why a difference yields no event.
#[derive(Debug, Clone, Copy, PartialEq, Eq, Structural)]
pub enum ExtractError {
    /// A changed line is not a record of the index.
    MalformedRecord,
    /// The difference does not remove at most one line and add exactly one.
    ShapeViolation,
    /// The yanked flags before and after fit no event.
    AmbiguousTransition,
    /// The difference changes files only in ways that are not analyzed.
    /// Nothing is wrong with the index: the commit is passed over.
    UnsupportedDelta,
}

/// A package version and what happened to it.
#[derive(Debug, Clone, PartialEq, Eq)]
pub struct LifecycleEvent {
    pub record: IndexRecord,
    pub kind: EventKind,
}

/// The mathematical value of a [`LifecycleEvent`].
pub struct EventView {
    pub record: RecordView,
    pub kind: EventKind,
}

impl View for LifecycleEvent {
    type V = EventView;

    open spec fn view(&self) -> EventView {
        EventView { record: self.record@, kind: self.kind }
    }
}

/// The event that a change of the yanked flag stands for. `prev_yanked` is
/// the flag of the removed record, `None` where no line was removed.
pub open spec fn transition(prev_yanked: Option<bool>, next_yanked: bool) -> Result<
    EventKind,
    ExtractError,
> {
    match (prev_yanked, next_yanked) {
        (None, false) => Ok(EventKind::NewVersion),
        (Some(false), true) => Ok(EventKind::Yanked),
        (Some(true), false) => Ok(EventKind::Unyanked),
        _ => Err(ExtractError::AmbiguousTransition),
    }
}

/// Classifies a change of the yanked flag.
pub fn classify(prev_yanked: Option<bool>, next_yanked: bool) -> (r: Result<
    EventKind,
    ExtractError,
>)
    ensures
        r == transition(prev_yanked, next_yanked),
{
    match (prev_yanked, next_yanked) {
        (None, false) => Ok(EventKind::NewVersion),
        (Some(false), true) => Ok(EventKind::Yanked),
        (Some(true), false) => Ok(EventKind::Unyanked),
        _ => Err(ExtractError::AmbiguousTransition),
    }
}

/// The event that a removed record (if any) and the added record stand for:
/// the added record, with the kind that the yanked flags give.
pub open spec fn event_of_records(prev: Option<RecordView>, next: RecordView) -> Result<
    EventView,
    ExtractError,
> {
    let prev_yanked = match prev {
        Some(record) => Some(record.yanked),
        None => None,
    };
    match transition(prev_yanked, next.yanked) {
        Ok(kind) => Ok(EventView { record: next, kind }),
        Err(e) => Err(e),
    }
}

/// The view of the outcome of an extraction step that yields an event.
pub open spec fn event_result_view(r: Result<LifecycleEvent, ExtractError>) -> Result<
    EventView,
    ExtractError,
> {
    match r {
        Ok(event) => Ok(event@),
        Err(e) => Err(e),
    }
}

/// Builds the event from the removed record (if any) and the added record.
pub fn event_from_records(prev: Option<IndexRecord>, next: IndexRecord) -> (r: Result<
    LifecycleEvent,
    ExtractError,
>)
    ensures
        event_result_view(r) == event_of_records(
            match prev {
                Some(record) => Some(record@),
                None => None,
            },
            next@,
        ),
{
    let prev_yanked = match prev {
        Some(record) => Some(record.yanked),
        None => None,
    };
    match classify(prev_yanked, next.yanked) {
        Ok(kind) => Ok(LifecycleEvent { record: next, kind }),
        Err(e) => Err(e),
    }
}

/// The view of the outcome of an extraction.
pub open spec fn outcome_view(r: Result<Option<LifecycleEvent>, ExtractError>) -> Result<
    Option<EventView>,
    ExtractError,
> {
    match r {
        Ok(Some(event)) => Ok(Some(event@)),
        Ok(None) => Ok(None),
        Err(e) => Err(e),
    }
}

/// What a difference yields, given whether the newer commit is canonical.
///
/// - A commit that is not canonical is not analyzed: no event.
/// - Lines of files changed in a way that is not analyzed are passed over. If
///   nothing else is in the difference, the whole commit is passed over
///   (`UnsupportedDelta`).
/// - Otherwise the difference must remove at most one line and add exactly
///   one (`ShapeViolation`), those lines must be records
///   (`MalformedRecord`), and their yanked flags decide the event.
pub open spec fn extraction(canonical: bool, diff: Seq<DiffLine>) -> Result<
    Option<EventView>,
    ExtractError,
> {
    let removed = removals(diff);
    let added = additions(diff);
    if !canonical {
        Ok(None)
    } else if removed.len() == 0 && added.len() == 0 && unsupported(diff).len() > 0 {
        Err(ExtractError::UnsupportedDelta)
    } else if removed.len() > 1 || added.len() != 1 {
        Err(ExtractError::ShapeViolation)
    } else {
        let next = record_of_line(added[0].content@);
        let prev = if removed.len() == 1 {
            record_of_line(removed[0].content@)
        } else {
            None
        };
        if next is None || (removed.len() == 1 && prev is None) {
            Err(ExtractError::MalformedRecord)
        } else {
            match event_of_records(prev, next->0) {
                Ok(event) => Ok(Some(event)),
                Err(e) => Err(e),
            }
        }
    }
}

/// Reconstructs the event that the commit `next` stands for from `diff`, the
/// difference between its predecessor and it.
pub fn extract(next: &Commit, diff: &[DiffLine]) -> (r: Result<
    Option<LifecycleEvent>,
    ExtractError,
>)
    ensures
        outcome_view(r) == extraction(next.is_canonical(), diff@),
{
    if !next.canonical() {
        return Ok(None);
    }
    let shape = shape_of(diff);
    if shape.removed == 0 && shape.added == 0 && shape.unsupported > 0 {
        return Err(ExtractError::UnsupportedDelta);
    }
    if shape.removed > 1 {
        return Err(ExtractError::ShapeViolation);
    }
    let added_at = match shape.first_added {
        Some(at) if shape.added == 1 => at,
        _ => {
            return Err(ExtractError::ShapeViolation);
        },
    };
    let prev = match shape.first_removed {
        Some(at) => match parse_record(diff[at].content.as_slice()) {
            Some(record) => Some(record),
            None => {
                return Err(ExtractError::MalformedRecord);
            },
        },
        None => None,
    };
    let next_record = match parse_record(diff[added_at].content.as_slice()) {
        Some(record) => record,
        None => {
            return Err(ExtractError::MalformedRecord);
        },
    };
    match event_from_records(prev, next_record) {
        Ok(event) => Ok(Some(event)),
        Err(e) => Err(e),
    }
}

/// Two lines that agree in kind of change, origin and bytes.
pub open spec fn same_line(a: DiffLine, b: DiffLine) -> bool {
    a.delta == b.delta && a.origin == b.origin && a.content@ == b.content@
}

/// Two differences that agree line by line.
pub open spec fn same_diff(a: Seq<DiffLine>, b: Seq<DiffLine>) -> bool {
    a.len() == b.len() && forall|i: int| 0 <= i < a.len() ==> same_line(#[trigger] a[i], b[i])
}

/// A difference that removes nothing and adds one record that is not yanked
/// announces a new version: no earlier record is needed.
pub proof fn lemma_added_only_is_new_version(diff: Seq<DiffLine>)
    requires
        removals(diff).len() == 0,
        additions(diff).len() == 1,
        record_of_line(additions(diff)[0].content@) matches Some(record) && !record.yanked,
    ensures
        extraction(true, diff) == Ok::<Option<EventView>, ExtractError>(
            Some(
                EventView {
                    record: record_of_line(additions(diff)[0].content@)->0,
                    kind: EventKind::NewVersion,
                },
            ),
        ),
{
}

/// Where one record replaces another, the yanked flags decide: from not
/// yanked to yanked is `Yanked`, from yanked to not yanked is `Unyanked`, and
/// every other pair of flags is an `AmbiguousTransition`.
pub proof fn lemma_replacement_follows_flags(diff: Seq<DiffLine>)
    requires
        removals(diff).len() == 1,
        additions(diff).len() == 1,
        record_of_line(removals(diff)[0].content@) is Some,
        record_of_line(additions(diff)[0].content@) is Some,
    ensures
        ({
            let prev = record_of_line(removals(diff)[0].content@)->0;
            let next = record_of_line(additions(diff)[0].content@)->0;
            extraction(true, diff) == if !prev.yanked && next.yanked {
                Ok::<Option<EventView>, ExtractError>(
                    Some(EventView { record: next, kind: EventKind::Yanked }),
                )
            } else if prev.yanked && !next.yanked {
                Ok(Some(EventView { record: next, kind: EventKind::Unyanked }))
            } else {
                Err(ExtractError::AmbiguousTransition)
            }
        }),
{
}

/// A difference that removes two or more lines, adds two or more, or adds
/// none fails with `ShapeViolation`, whatever its lines hold. The one
/// exception is a difference with nothing in it but lines that are passed
/// over, which is an `UnsupportedDelta`.
pub proof fn lemma_bad_shape_is_rejected(diff: Seq<DiffLine>)
    requires
        removals(diff).len() >= 2 || additions(diff).len() != 1,
        removals(diff).len() > 0 || additions(diff).len() > 0 || unsupported(diff).len() == 0,
    ensures
        extraction(true, diff) == Err::<Option<EventView>, ExtractError>(
            ExtractError::ShapeViolation,
        ),
{
}

/// A commit that is not canonical yields no event and no error.
pub proof fn lemma_foreign_commit_is_skipped(diff: Seq<DiffLine>)
    ensures
        extraction(false, diff) == Ok::<Option<EventView>, ExtractError>(None),
{
}

proof fn lemma_same_diff_filters(a: Seq<DiffLine>, b: Seq<DiffLine>, pred: spec_fn(DiffLine) -> bool)
    requires
        same_diff(a, b),
        forall|x: DiffLine, y: DiffLine| same_line(x, y) ==> pred(x) == pred(y),
    ensures
        same_diff(a.filter(pred), b.filter(pred)),
    decreases a.len(),
{
    reveal(Seq::filter);
    if a.len() > 0 {
        assert(same_line(a.last(), b.last()));
        assert(same_diff(a.drop_last(), b.drop_last())) by {
            assert forall|i: int| 0 <= i < a.drop_last().len() implies same_line(
                #[trigger] a.drop_last()[i],
                b.drop_last()[i],
            ) by {
                assert(same_line(a[i], b[i]));
            }
        }
        lemma_same_diff_filters(a.drop_last(), b.drop_last(), pred);
    }
}

/// Extraction depends on nothing but the lines' kinds of change, origins and
/// bytes: two differences that agree line by line yield the same outcome,
/// down to the bytes of the record.
pub proof fn lemma_extraction_replays(canonical: bool, first: Seq<DiffLine>, second: Seq<DiffLine>)
    requires
        same_diff(first, second),
    ensures
        extraction(canonical, first) == extraction(canonical, second),
{
    lemma_same_diff_filters(first, second, |line: DiffLine| line.is_removal());
    lemma_same_diff_filters(first, second, |line: DiffLine| line.is_addition());
    lemma_same_diff_filters(first, second, |line: DiffLine| line.is_unsupported());
    if removals(first).len() > 0 {
        assert(same_line(removals(first)[0], removals(second)[0]));
    }
    if additions(first).len() > 0 {
        assert(same_line(additions(first)[0], additions(second)[0]));
    }
}

} // verus!
