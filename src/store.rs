use vstd::prelude::*;
use crate::aggregate::{Event, EventView};

verus! {

/// One persisted row of the event log.
#[derive(Clone, Debug, PartialEq, Eq)]
pub struct EventRecord {
    pub stream: String,
    pub version: i64,
    pub event_type: String,
    pub payload: Vec<u8>,
}

/// What a persisted row is, in contracts.
pub struct RecordView {
    pub stream: Seq<char>,
    pub version: int,
    pub event_type: Seq<char>,
    pub payload: Seq<u8>,
}

impl View for EventRecord {
    type V = RecordView;

    open spec fn view(&self) -> RecordView {
        RecordView {
            stream: self.stream@,
            version: self.version as int,
            event_type: self.event_type@,
            payload: self.payload@,
        }
    }
}

/// One event of a stream as read back from the log: version, type, body.
#[derive(Clone, Debug, PartialEq, Eq)]
pub struct StoredEvent {
    pub version: i64,
    pub event_type: String,
    pub body: Vec<u8>,
}

/// The highest persisted version of a stream, or -1 for a stream with no
/// events, given the maximum that the log reports.
pub open spec fn version_of(max: Option<i64>) -> int {
    match max {
        Some(v) => v as int,
        None => -1,
    }
}

/// The views of a run of records.
pub open spec fn record_views(rs: Seq<EventRecord>) -> Seq<RecordView> {
    rs.map_values(|r: EventRecord| r@)
}

/// The views of a run of events.
pub open spec fn event_views(es: Seq<Event>) -> Seq<EventView> {
    es.map_values(|e: Event| e@)
}

/// The rows that an append of `events` to `stream` writes when the stream's
/// current version is `current`: consecutive versions from `current + 1`, in
/// the order of the events.
pub open spec fn assigned(stream: Seq<char>, current: int, events: Seq<EventView>) -> Seq<
    RecordView,
> {
    Seq::new(
        events.len(),
        |i: int|
            RecordView {
                stream: stream,
                version: current + 1 + i,
                event_type: events[i].event_type,
                payload: events[i].payload,
            },
    )
}

/// The rows of a stream carry the versions 0, 1, 2, ... in order, with no
/// gaps.
pub open spec fn contiguous(rows: Seq<RecordView>) -> bool {
    forall|i: int| 0 <= i < rows.len() ==> #[trigger] rows[i].version == i
}

/// No two rows of a stream share a version.
pub open spec fn unique_versions(rows: Seq<RecordView>) -> bool {
    forall|i: int, j: int|
        0 <= i < rows.len() && 0 <= j < rows.len() && i != j ==> #[trigger] rows[i].version
            != #[trigger] rows[j].version
}

/// The current version of a stream, from the maximum version that the log
/// reports for it (`None` when it holds no row of the stream).
pub fn current_version(max: Option<i64>) -> (r: i64)
    ensures
        r == version_of(max),
{
    match max {
        Some(v) => v,
        None => -1,
    }
}

/// Builds the rows that append `events` to `stream` after version `current`.
pub fn assign_versions(stream: &str, current: i64, events: &Vec<Event>) -> (r: Vec<EventRecord>)
    requires
        current >= -1,
        current + events@.len() <= i64::MAX,
    ensures
        record_views(r@) == assigned(stream@, current as int, event_views(events@)),
{
    let mut out: Vec<EventRecord> = Vec::new();
    let mut i: usize = 0;
    while i < events.len()
        invariant
            i <= events@.len(),
            current >= -1,
            current + events@.len() <= i64::MAX,
            out@.len() == i,
            forall|k: int|
                0 <= k < i ==> #[trigger] out@[k]@ == assigned(
                    stream@,
                    current as int,
                    event_views(events@),
                )[k],
        decreases events@.len() - i,
    {
        let e = &events[i];
        let record = EventRecord {
            stream: stream.to_owned(),
            version: current + 1 + i as i64,
            event_type: e.event_type.clone(),
            payload: vstd::slice::slice_to_vec(e.payload.as_slice()),
        };
        out.push(record);
        i = i + 1;
    }
    assert(record_views(out@) =~= assigned(stream@, current as int, event_views(events@)));
    out
}

/// What a row read back from the log is, in contracts.
pub struct StoredView {
    pub version: int,
    pub event_type: Seq<char>,
    pub body: Seq<u8>,
}

impl View for StoredEvent {
    type V = StoredView;

    open spec fn view(&self) -> StoredView {
        StoredView { version: self.version as int, event_type: self.event_type@, body: self.body@ }
    }
}

/// The views of a run of rows read back from the log.
pub open spec fn stored_views(rs: Seq<StoredEvent>) -> Seq<StoredView> {
    rs.map_values(|r: StoredEvent| r@)
}

/// Holds of a row at version `from` or later.
pub open spec fn at_or_after(from: int) -> spec_fn(StoredView) -> bool {
    |r: StoredView| r.version >= from
}

/// The rows of a stream that a read from `from_version` returns: all of them
/// for a negative `from_version`, else those at `from_version` or later.
pub open spec fn from_version_filter(rows: Seq<StoredView>, from_version: int) -> Seq<StoredView> {
    if from_version < 0 {
        rows
    } else {
        rows.filter(at_or_after(from_version))
    }
}

/// Keeps, in order, the rows that a read from `from_version` returns.
pub fn select_from_version(rows: &Vec<StoredEvent>, from_version: i64) -> (r: Vec<StoredEvent>)
    ensures
        stored_views(r@) == from_version_filter(stored_views(rows@), from_version as int),
{
    let ghost all = stored_views(rows@);
    let ghost keep = at_or_after(from_version as int);
    let mut out: Vec<StoredEvent> = Vec::new();
    let mut i: usize = 0;
    while i < rows.len()
        invariant
            i <= rows@.len(),
            all == stored_views(rows@),
            keep == at_or_after(from_version as int),
            from_version < 0 ==> stored_views(out@) == all.subrange(0, i as int),
            from_version >= 0 ==> stored_views(out@) == all.subrange(0, i as int).filter(keep),
        decreases rows@.len() - i,
    {
        let row = &rows[i];
        proof {
            assert(all.subrange(0, i + 1) =~= all.subrange(0, i as int).push(all[i as int]));
            reveal(Seq::filter);
            assert(all.subrange(0, i + 1).drop_last() =~= all.subrange(0, i as int));
            assert(all[i as int] == rows@[i as int]@);
            let ghost sub = all.subrange(0, i + 1);
            assert(sub.last() == all[i as int]);
            assert(sub.filter(keep) == if keep(all[i as int]) {
                all.subrange(0, i as int).filter(keep).push(all[i as int])
            } else {
                all.subrange(0, i as int).filter(keep)
            });
        }
        if from_version < 0 || row.version >= from_version {
            let copy = StoredEvent {
                version: row.version,
                event_type: row.event_type.clone(),
                body: vstd::slice::slice_to_vec(row.body.as_slice()),
            };
            let ghost prev = out@;
            let ghost cv = copy@;
            out.push(copy);
            assert(stored_views(out@) =~= stored_views(prev).push(cv));
            assert(cv == all[i as int]);
        } else {
            assert(!keep(all[i as int]));
        }
        i = i + 1;
    }
    assert(all.subrange(0, rows@.len() as int) =~= all);
    out
}

/// The highest version among the rows, or -1 when there are none: what the
/// log reports as the current version of a stream whose versions ascend.
pub open spec fn max_version(rows: Seq<RecordView>) -> int {
    if rows.len() == 0 {
        -1
    } else {
        rows.last().version
    }
}

/// An append that takes its first version from the current version of a
/// stream whose versions run 0, 1, 2, ... keeps them so: reading the stream
/// back gives strictly ascending versions from 0 with no gaps.
pub proof fn lemma_append_keeps_versions_contiguous(
    history: Seq<RecordView>,
    stream: Seq<char>,
    events: Seq<EventView>,
)
    requires
        contiguous(history),
    ensures
        contiguous(history + assigned(stream, max_version(history), events)),
        forall|i: int, j: int|
            0 <= i < j < history.len() + events.len() ==> (#[trigger] (history + assigned(
                stream,
                max_version(history),
                events,
            ))[i]).version < #[trigger] (history + assigned(
                stream,
                max_version(history),
                events,
            ))[j].version,
{
    let all = history + assigned(stream, max_version(history), events);
    assert(max_version(history) == history.len() - 1);
    assert forall|i: int| 0 <= i < all.len() implies #[trigger] all[i].version == i by {
        if i >= history.len() {
            assert(all[i] == assigned(stream, max_version(history), events)[i - history.len()]);
        }
    }
}

/// Two appends to one stream that both read the same current version collide:
/// each alone keeps versions unique, but once either is in, the other would
/// put a second row at a version already taken. Under a unique key on
/// `(stream, version)` exactly one of them is accepted.
pub proof fn lemma_colliding_appends_conflict(
    history: Seq<RecordView>,
    stream: Seq<char>,
    first: Seq<EventView>,
    second: Seq<EventView>,
)
    requires
        contiguous(history),
        first.len() > 0,
        second.len() > 0,
    ensures
        unique_versions(history + assigned(stream, max_version(history), first)),
        unique_versions(history + assigned(stream, max_version(history), second)),
        !unique_versions(
            history + assigned(stream, max_version(history), first) + assigned(
                stream,
                max_version(history),
                second,
            ),
        ),
        !unique_versions(
            history + assigned(stream, max_version(history), second) + assigned(
                stream,
                max_version(history),
                first,
            ),
        ),
{
    let cur = max_version(history);
    lemma_append_keeps_versions_contiguous(history, stream, first);
    lemma_append_keeps_versions_contiguous(history, stream, second);
    lemma_contiguous_unique(history + assigned(stream, cur, first));
    lemma_contiguous_unique(history + assigned(stream, cur, second));
    let ab = history + assigned(stream, cur, first) + assigned(stream, cur, second);
    let n = history.len() as int;
    assert(ab[n].version == n);
    assert(ab[n + first.len()].version == n);
    let ba = history + assigned(stream, cur, second) + assigned(stream, cur, first);
    assert(ba[n].version == n);
    assert(ba[n + second.len()].version == n);
}

/// Versions 0, 1, 2, ... are pairwise distinct.
proof fn lemma_contiguous_unique(rows: Seq<RecordView>)
    requires
        contiguous(rows),
    ensures
        unique_versions(rows),
{
}

/// An append of no events writes no row: the stream's rows, and so its
/// current version, stay as they were.
pub proof fn lemma_empty_append_keeps_version(history: Seq<RecordView>, stream: Seq<char>)
    ensures
        history + assigned(stream, max_version(history), Seq::empty()) == history,
        max_version(history + assigned(stream, max_version(history), Seq::empty()))
            == max_version(history),
{
    assert(history + assigned(stream, max_version(history), Seq::empty()) =~= history);
}

} // verus!
