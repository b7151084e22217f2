use vstd::prelude::*;
use crate::aggregate::{error_text, Error, Event, EventParam, EventResult, EventView};
use crate::codec::{stage_error, text_bytes};
use crate::scratch::EventsScratch;
use crate::store::{
    assign_versions, assigned, current_version, event_views, record_views, stored_views, version_of,
    EventRecord, StoredEvent, StoredView,
};

verus! {

/// One running aggregate: the stream identity it was initialized for and the
/// state that the guest's operations produced for it. The state changes only
/// through a successful replay.
pub struct ModuleInstance {
    id: String,
    state: Vec<u8>,
}

/// Why an instance can no longer be trusted.
#[derive(Clone, Debug, PartialEq, Eq)]
pub enum InstanceFault {
    /// The guest refused to replay events that were persisted or that it had
    /// just proposed itself.
    ReplayFailed(Error),
}

/// What to do after the guest has decided on a command.
pub enum CommandStep {
    /// The guest refused the command: the error's text is staged for the
    /// guest to read, and the call reports -1.
    Rejected(EventsScratch),
    /// The guest proposed no event: nothing is replayed or persisted, and the
    /// call reports 0.
    Unchanged,
    /// Replay these events into the instance, then append them to the stream.
    Apply(Vec<Event>),
}

/// The views of the events returned by the guest's `decide`.
pub open spec fn result_views(es: Seq<EventResult>) -> Seq<EventView> {
    es.map_values(|e: EventResult| e@)
}

/// The views of the events handed to the guest's `replay`.
pub open spec fn param_views<'a>(es: Seq<EventParam<'a>>) -> Seq<EventView> {
    es.map_values(|e: EventParam<'a>| e@)
}

/// A stored row as the event it records.
pub open spec fn stored_event_view(r: StoredView) -> EventView {
    EventView { event_type: r.event_type, payload: r.body }
}

impl ModuleInstance {
    /// The stream identity of the instance.
    pub closed spec fn id_view(&self) -> Seq<char> {
        self.id@
    }

    /// The instance's current state.
    pub closed spec fn state_view(&self) -> Seq<u8> {
        self.state@
    }

    /// Makes an instance for `id` from the outcome of the guest's
    /// `initialize(id)`: its state on success; the guest's error otherwise.
    pub fn init(id: String, outcome: Result<Vec<u8>, Error>) -> (r: Result<ModuleInstance, Error>)
        ensures
            match outcome {
                Ok(s) => r matches Ok(inst) && inst.id_view() == id@ && inst.state_view() == s@,
                Err(e) => r == Err::<ModuleInstance, Error>(e),
            },
    {
        match outcome {
            Ok(state) => Ok(ModuleInstance { id, state }),
            Err(e) => Err(e),
        }
    }

    /// The stream identity of the instance.
    pub fn id(&self) -> (r: &str)
        ensures
            r@ == self.id_view(),
    {
        self.id.as_str()
    }

    /// The instance's current state.
    pub fn state(&self) -> (r: &[u8])
        ensures
            r@ == self.state_view(),
    {
        self.state.as_slice()
    }

    /// Takes in the outcome of the guest's `replay` on this instance's state:
    /// the new state on success. A refusal is a fault, and the state stays.
    pub fn apply(&mut self, outcome: Result<Vec<u8>, Error>) -> (r: Result<(), InstanceFault>)
        ensures
            final(self).id_view() == old(self).id_view(),
            match outcome {
                Ok(s) => r is Ok && final(self).state_view() == s@,
                Err(e) => r == Err::<(), InstanceFault>(InstanceFault::ReplayFailed(e))
                    && final(self).state_view() == old(self).state_view(),
            },
    {
        match outcome {
            Ok(state) => {
                self.state = state;
                Ok(())
            },
            Err(e) => Err(InstanceFault::ReplayFailed(e)),
        }
    }

    /// Takes in the outcome of the guest's `decide`: the proposed events, in
    /// order, or the guest's error. The state is not touched.
    pub fn handle(&self, outcome: Result<Vec<EventResult>, Error>) -> (r: Result<Vec<Event>, Error>)
        ensures
            match outcome {
                Ok(es) => r matches Ok(v) && event_views(v@) == result_views(es@),
                Err(e) => r == Err::<Vec<Event>, Error>(e),
            },
    {
        match outcome {
            Ok(results) => Ok(events_from_results(results)),
            Err(e) => Err(e),
        }
    }
}

impl ModuleInstance {
    /// Finishes a command whose `decide` proposed `events`: takes in the
    /// outcome of the guest's `replay` of those events, and on success
    /// returns the rows that append them to `stream` after the current
    /// version that the log reports (`max`). The rows hold exactly the events
    /// that were folded into the state, in the same order. A refused replay
    /// is a fault: the state stays and nothing is to be appended.
    pub fn commit(
        &mut self,
        stream: &str,
        events: &Vec<Event>,
        replayed: Result<Vec<u8>, Error>,
        max: Option<i64>,
    ) -> (r: Result<Vec<EventRecord>, InstanceFault>)
        requires
            version_of(max) >= -1,
            version_of(max) + events@.len() <= i64::MAX,
        ensures
            final(self).id_view() == old(self).id_view(),
            match replayed {
                Ok(s) => r matches Ok(rows) && final(self).state_view() == s@ && record_views(
                    rows@,
                ) == assigned(stream@, version_of(max), event_views(events@)),
                Err(e) => r == Err::<Vec<EventRecord>, InstanceFault>(
                    InstanceFault::ReplayFailed(e),
                ) && final(self).state_view() == old(self).state_view(),
            },
    {
        match self.apply(replayed) {
            Ok(()) => Ok(assign_versions(stream, current_version(max), events)),
            Err(f) => Err(f),
        }
    }
}

/// Turns the events returned by `decide` into events, keeping the order.
pub fn events_from_results(results: Vec<EventResult>) -> (r: Vec<Event>)
    ensures
        event_views(r@) == result_views(results@),
{
    let mut rest = results;
    let ghost all = rest@;
    let mut rev: Vec<Event> = Vec::new();
    while rest.len() > 0
        invariant
            rest@ == all.subrange(0, rest@.len() as int),
            rev@.len() + rest@.len() == all.len(),
            forall|k: int|
                0 <= k < rev@.len() ==> #[trigger] rev@[k]@ == all[all.len() - 1 - k]@,
        decreases rest@.len(),
    {
        let e = rest.pop().unwrap();
        rev.push(Event::from(e));
    }
    let mut out: Vec<Event> = Vec::new();
    while rev.len() > 0
        invariant
            rev@.len() + out@.len() == all.len(),
            forall|k: int|
                0 <= k < rev@.len() ==> #[trigger] rev@[k]@ == all[all.len() - 1 - k]@,
            forall|k: int| 0 <= k < out@.len() ==> #[trigger] out@[k]@ == all[k]@,
        decreases rev@.len(),
    {
        let e = rev.pop().unwrap();
        out.push(e);
    }
    assert(event_views(out@) =~= result_views(all));
    out
}

/// Borrows events as the arguments of the guest's `replay`, in order.
pub fn replay_params(events: &Vec<Event>) -> (r: Vec<EventParam<'_>>)
    ensures
        param_views(r@) == event_views(events@),
{
    let mut out: Vec<EventParam<'_>> = Vec::new();
    let mut i: usize = 0;
    while i < events.len()
        invariant
            i <= events@.len(),
            out@.len() == i,
            forall|k: int| 0 <= k < i ==> #[trigger] out@[k]@ == events@[k]@,
        decreases events@.len() - i,
    {
        let e = &events[i];
        out.push(EventParam::from(e.as_ref()));
        i = i + 1;
    }
    assert(param_views(out@) =~= event_views(events@));
    out
}

/// Borrows a stream's persisted rows as the arguments of the guest's
/// `replay`, in order.
pub fn history_params(rows: &Vec<StoredEvent>) -> (r: Vec<EventParam<'_>>)
    ensures
        param_views(r@) == stored_views(rows@).map_values(|v: StoredView| stored_event_view(v)),
{
    let mut out: Vec<EventParam<'_>> = Vec::new();
    let mut i: usize = 0;
    while i < rows.len()
        invariant
            i <= rows@.len(),
            out@.len() == i,
            forall|k: int| 0 <= k < i ==> #[trigger] out@[k]@ == stored_event_view(rows@[k]@),
        decreases rows@.len() - i,
    {
        let row = &rows[i];
        out.push(EventParam { event_type: row.event_type.as_str(), payload: row.body.as_slice() });
        i = i + 1;
    }
    assert(param_views(out@) =~= stored_views(rows@).map_values(
        |v: StoredView| stored_event_view(v),
    ));
    out
}

/// Decides what follows the guest's `decide` on a command: a refusal is
/// staged and reported; no events leave the instance and the stream as they
/// are; otherwise the events are to be replayed and appended.
pub fn plan_command(decided: Result<Vec<Event>, Error>) -> (r: CommandStep)
    ensures
        match decided {
            Err(e) => r matches CommandStep::Rejected(s) && s.read_ptr == 0 && s.buffer@
                == text_bytes(error_text(e)),
            Ok(es) => if es@.len() == 0 {
                r is Unchanged
            } else {
                r matches CommandStep::Apply(v) && v@ == es@
            },
        },
{
    match decided {
        Err(e) => CommandStep::Rejected(stage_error(&e)),
        Ok(events) => {
            if events.len() == 0 {
                CommandStep::Unchanged
            } else {
                CommandStep::Apply(events)
            }
        },
    }
}

/// The code that a command execution reports to the guest for a step: -1 for
/// a refusal, else the number of events.
pub fn step_code(step: &CommandStep) -> (r: i64)
    ensures
        match step {
            CommandStep::Rejected(_) => r == -1,
            CommandStep::Unchanged => r == 0,
            CommandStep::Apply(v) => r == v@.len() as i64,
        },
{
    match step {
        CommandStep::Rejected(_) => -1,
        CommandStep::Unchanged => 0,
        CommandStep::Apply(v) => v.len() as i64,
    }
}

/// Holds of a replay operation that is a deterministic fold: replaying no
/// events changes nothing, and replaying two runs one after the other is
/// replaying them joined.
pub open spec fn is_fold(replay: spec_fn(Seq<u8>, Seq<EventView>) -> Seq<u8>) -> bool {
    &&& forall|s: Seq<u8>| #[trigger] replay(s, Seq::empty()) == s
    &&& forall|s: Seq<u8>, a: Seq<EventView>, b: Seq<EventView>|
        #[trigger] replay(replay(s, a), b) == replay(s, a + b)
}

/// The live state of an instance that started from `state` and committed the
/// batches in order, each by replaying its events into the current state.
pub open spec fn live_state(
    replay: spec_fn(Seq<u8>, Seq<EventView>) -> Seq<u8>,
    state: Seq<u8>,
    batches: Seq<Seq<EventView>>,
) -> Seq<u8>
    decreases batches.len(),
{
    if batches.len() == 0 {
        state
    } else {
        live_state(replay, replay(state, batches[0]), batches.drop_first())
    }
}

/// Replaying the whole persisted history (the committed batches, joined in
/// order) into the initial state gives exactly the live state that the
/// commits produced one by one.
pub proof fn lemma_history_replay_matches_live_state(
    replay: spec_fn(Seq<u8>, Seq<EventView>) -> Seq<u8>,
    initial: Seq<u8>,
    batches: Seq<Seq<EventView>>,
)
    requires
        is_fold(replay),
    ensures
        replay(initial, batches.flatten()) == live_state(replay, initial, batches),
    decreases batches.len(),
{
    if batches.len() == 0 {
        assert(batches.flatten() =~= Seq::<EventView>::empty());
    } else {
        lemma_history_replay_matches_live_state(
            replay,
            replay(initial, batches[0]),
            batches.drop_first(),
        );
        assert(batches.flatten() =~= batches[0] + batches.drop_first().flatten());
        assert(replay(replay(initial, batches[0]), batches.drop_first().flatten()) == replay(
            initial,
            batches[0] + batches.drop_first().flatten(),
        ));
    }
}

} // verus!
