//! A bounded, in-memory record of events that takes each event id once.
use crate::event::{AirwallexEventEnvelope, EventView, RecordedWebhookEvent};
use crate::response::WebhookError;
use std::collections::VecDeque;
use vstd::hash_set::StringHashSet;
use vstd::prelude::*;

verus! {

/// What a recorder holds: at most `capacity` events, the oldest first.
#[verifier::ext_equal]
pub struct RecorderView {
    pub capacity: nat,
    pub events: Seq<EventView>,
}

/// Whether one of `events` has this id.
pub open spec fn has_id(events: Seq<EventView>, id: Seq<char>) -> bool {
    exists|i: int| 0 <= i < events.len() && #[trigger] events[i].event_id == id
}

/// Whether no two of `events` have the same id.
pub open spec fn distinct_ids(events: Seq<EventView>) -> bool {
    forall|i: int, j: int|
        0 <= i < j < events.len() ==> (#[trigger] events[i]).event_id != (
        #[trigger] events[j]).event_id
}

/// The last `limit` of `events`, or all of them where they are fewer.
pub open spec fn newest(events: Seq<EventView>, limit: nat) -> Seq<EventView> {
    if events.len() > limit {
        events.subrange(events.len() - limit, events.len() as int)
    } else {
        events
    }
}

/// Another event at the end adds its own id, and no other.
proof fn lemma_has_id_push(events: Seq<EventView>, event: EventView, id: Seq<char>)
    ensures
        has_id(events.push(event), id) <==> has_id(events, id) || event.event_id == id,
{
    let more = events.push(event);
    if has_id(events, id) {
        let i = choose|i: int| 0 <= i < events.len() && #[trigger] events[i].event_id == id;
        assert(more[i].event_id == id);
    }
    if event.event_id == id {
        assert(more[events.len() as int].event_id == id);
    }
    if has_id(more, id) {
        let i = choose|i: int| 0 <= i < more.len() && #[trigger] more[i].event_id == id;
        if i < events.len() {
            assert(events[i].event_id == id);
        }
    }
}

/// Where ids are distinct, the first event takes its own id away, and no other.
proof fn lemma_has_id_rest(events: Seq<EventView>, id: Seq<char>)
    requires
        events.len() > 0,
        distinct_ids(events),
    ensures
        has_id(events.subrange(1, events.len() as int), id) <==> has_id(events, id)
            && events[0].event_id != id,
{
    let rest = events.subrange(1, events.len() as int);
    if has_id(events, id) && events[0].event_id != id {
        let i = choose|i: int| 0 <= i < events.len() && #[trigger] events[i].event_id == id;
        assert(rest[i - 1].event_id == id);
    }
    if has_id(rest, id) {
        let i = choose|i: int| 0 <= i < rest.len() && #[trigger] rest[i].event_id == id;
        assert(events[i + 1].event_id == id);
        assert(events[0].event_id != events[i + 1].event_id);
    }
}

impl RecorderView {
    /// What the recorder holds once it was offered `event`: an id that it holds already
    /// changes nothing; a new event comes last and displaces the oldest beyond the capacity.
    pub open spec fn offered(self, event: EventView) -> RecorderView {
        if has_id(self.events, event.event_id) {
            self
        } else {
            RecorderView {
                capacity: self.capacity,
                events: newest(self.events.push(event), self.capacity),
            }
        }
    }

    /// How the recorder answers the offer of `event`.
    pub open spec fn outcome(self, event: EventView) -> RecordOutcome {
        if has_id(self.events, event.event_id) {
            RecordOutcome::Duplicate
        } else {
            RecordOutcome::Recorded
        }
    }

    /// Every event id occurs once, and the events fit the capacity.
    pub open spec fn valid(self) -> bool {
        &&& self.events.len() <= self.capacity
        &&& distinct_ids(self.events)
    }
}

/// How an event was taken.
#[derive(Clone, Copy, Debug, PartialEq, Eq, Structural)]
pub enum RecordOutcome {
    Recorded,
    Duplicate,
}

impl RecordOutcome {
    /// The outcome in one word.
    pub open spec fn word(self) -> Seq<char> {
        match self {
            RecordOutcome::Recorded => "recorded"@,
            RecordOutcome::Duplicate => "duplicate"@,
        }
    }

    /// The outcome in one word.
    pub fn as_str(self) -> (word: &'static str)
        ensures
            word@ == self.word(),
            word@ == (if self == RecordOutcome::Recorded {
                "recorded"@
            } else {
                "duplicate"@
            }),
    {
        match self {
            RecordOutcome::Recorded => "recorded",
            RecordOutcome::Duplicate => "duplicate",
        }
    }
}

/// What came of taking the lock that guards a shared recorder.
#[derive(Clone, Copy, Debug, PartialEq, Eq, Structural)]
pub enum RecorderLock {
    Held,
    /// A holder of the lock panicked earlier.
    Poisoned,
}

/// The recorded events, with their ids in a set to find them by and in a queue to expire them.
pub struct BoundedWebhookRecorderState {
    capacity: usize,
    seen_event_ids: StringHashSet,
    event_id_order: VecDeque<String>,
    recorded_events: VecDeque<RecordedWebhookEvent>,
}

impl View for BoundedWebhookRecorderState {
    type V = RecorderView;

    closed spec fn view(&self) -> RecorderView {
        RecorderView {
            capacity: self.capacity as nat,
            events: self.recorded_events@.map_values(|event: RecordedWebhookEvent| event@),
        }
    }
}

impl BoundedWebhookRecorderState {
    /// The set and the queue hold the ids of the recorded events, the queue in their order.
    spec fn indexed(self) -> bool {
        &&& self.event_id_order@.len() == self.recorded_events@.len()
        &&& forall|i: int|
            0 <= i < self.recorded_events@.len() ==> self.recorded_events@[i].event_id@
                == #[trigger] self.event_id_order@[i]@
        &&& forall|id: Seq<char>|
            #[trigger] self.seen_event_ids@.contains(id) <==> has_id(self@.events, id)
    }

    /// The three collections agree, and hold no more than the capacity.
    pub closed spec fn wf(self) -> bool {
        &&& self.indexed()
        &&& self@.valid()
    }

    /// Makes an empty record for at most `capacity` events.
    pub fn new(capacity: usize) -> (state: Self)
        ensures
            state.wf(),
            state@.capacity == capacity,
            state@.events == Seq::<EventView>::empty(),
    {
        let state = BoundedWebhookRecorderState {
            capacity,
            seen_event_ids: StringHashSet::new(),
            event_id_order: VecDeque::new(),
            recorded_events: VecDeque::new(),
        };
        assert(state@.events =~= Seq::<EventView>::empty());
        state
    }
}

/// Records each authenticated event once, and forgets the oldest beyond its capacity.
pub struct BoundedWebhookRecorder {
    inner: BoundedWebhookRecorderState,
}

impl View for BoundedWebhookRecorder {
    type V = RecorderView;

    closed spec fn view(&self) -> RecorderView {
        self.inner@
    }
}

impl BoundedWebhookRecorder {
    /// The recorder is consistent and has room for an event.
    pub closed spec fn wf(self) -> bool {
        &&& self.inner.wf()
        &&& self@.capacity >= 1
    }

    /// Makes an empty recorder for `capacity` events, and for one where that is none.
    pub fn new(capacity: usize) -> (recorder: Self)
        ensures
            recorder.wf(),
            recorder@.capacity == (if capacity == 0 { 1 } else { capacity as nat }),
            recorder@.events == Seq::<EventView>::empty(),
    {
        let capacity: usize = if capacity < 1 { 1 } else { capacity };
        BoundedWebhookRecorder { inner: BoundedWebhookRecorderState::new(capacity) }
    }

    /// Records an event whose id the recorder does not hold. Fails where the lock on the
    /// recorder was not had.
    pub fn record(&mut self, lock: RecorderLock, event: AirwallexEventEnvelope) -> (result: Result<
        RecordOutcome,
        WebhookError,
    >)
        requires
            lock == RecorderLock::Held ==> old(self).wf(),
        ensures
            old(self).wf() ==> final(self).wf(),
            lock == RecorderLock::Held ==> final(self)@ == old(self)@.offered(event@),
            lock == RecorderLock::Held ==> result == Ok::<RecordOutcome, WebhookError>(
                old(self)@.outcome(event@),
            ),
            final(self)@.capacity == old(self)@.capacity,
            lock == RecorderLock::Held ==> (result == Ok::<RecordOutcome, WebhookError>(
                RecordOutcome::Duplicate,
            ) <==> exists|i: int|
                0 <= i < old(self)@.events.len() && (#[trigger] old(self)@.events[i]).event_id
                    == event.id@),
            result == Ok::<RecordOutcome, WebhookError>(RecordOutcome::Duplicate) ==> final(self)@
                == old(self)@,
            result == Ok::<RecordOutcome, WebhookError>(RecordOutcome::Recorded) ==> {
                let before = old(self)@.events;
                let after = final(self)@.events;
                &&& after.len() == (if before.len() < old(self)@.capacity {
                    before.len() + 1
                } else {
                    old(self)@.capacity
                })
                &&& after.len() > 0
                &&& after.last().event_id == event.id@
                &&& after.last().event_type == event.event_type@
                &&& after.last() == event@
                &&& forall|i: int|
                    0 <= i < after.len() - 1 ==> #[trigger] after[i] == before[before.len() + 1
                        - after.len() + i]
            },
            lock == RecorderLock::Poisoned ==> *final(self) == *old(self),
            lock == RecorderLock::Poisoned ==> (result matches Err(
                WebhookError::Persistence(detail),
            ) && detail@ == "webhook recorder lock poisoned"@),
    {
        match lock {
            RecorderLock::Poisoned => {
                return Err(
                    WebhookError::Persistence("webhook recorder lock poisoned".to_owned()),
                );
            },
            RecorderLock::Held => {},
        }

        if self.inner.seen_event_ids.contains(event.id.as_str()) {
            return Ok(RecordOutcome::Duplicate);
        }
        let ghost all = self@.events.push(event@);

        self.inner.seen_event_ids.insert(event.id.clone());
        self.inner.recorded_events.push_back(
            RecordedWebhookEvent {
                event_id: event.id.clone(),
                event_type: event.event_type,
                created_at: event.created_at,
                request_id: event.request_id,
            },
        );
        self.inner.event_id_order.push_back(event.id);

        assert(self@.events =~= all);
        assert(distinct_ids(all));
        assert(self.inner.indexed()) by {
            assert forall|id: Seq<char>| #[trigger]
                self.inner.seen_event_ids@.contains(id) <==> has_id(all, id) by {
                lemma_has_id_push(old(self)@.events, event@, id);
            }
        }

        let ghost mut dropped: int = 0;
        while self.inner.event_id_order.len() > self.inner.capacity
            invariant
                self.inner.indexed(),
                self.inner.capacity == old(self).inner.capacity,
                distinct_ids(all),
                0 <= dropped <= all.len(),
                dropped > 0 ==> all.len() - dropped >= self.inner.capacity,
                self@.events == all.subrange(dropped, all.len() as int),
            decreases self.inner.event_id_order@.len(),
        {
            let ghost before = *self;
            if let Some(expired_event_id) = self.inner.event_id_order.pop_front() {
                self.inner.seen_event_ids.remove(expired_event_id.as_str());
            }
            self.inner.recorded_events.pop_front();
            proof {
                dropped = dropped + 1;
                let rest = before@.events.subrange(1, before@.events.len() as int);
                assert(self@.events =~= rest);
                assert(rest =~= all.subrange(dropped, all.len() as int));
                assert forall|id: Seq<char>| #[trigger]
                    self.inner.seen_event_ids@.contains(id) <==> has_id(rest, id) by {
                    lemma_has_id_rest(before@.events, id);
                }
            }
        }
        Ok(RecordOutcome::Recorded)
    }

    /// The recorded events, the oldest first.
    pub fn recorded_events(&self) -> (events: Vec<RecordedWebhookEvent>)
        ensures
            events@.map_values(|event: RecordedWebhookEvent| event@) == self@.events,
            events@.len() == self@.events.len(),
            forall|i: int|
                0 <= i < events@.len() ==> (#[trigger] events@[i]).event_id@
                    == self@.events[i].event_id && events@[i]@ == self@.events[i],
    {
        let mut events: Vec<RecordedWebhookEvent> = Vec::new();
        let mut i: usize = 0;
        while i < self.inner.recorded_events.len()
            invariant
                i <= self.inner.recorded_events@.len(),
                events@ == self.inner.recorded_events@.take(i as int),
            decreases self.inner.recorded_events@.len() - i,
        {
            events.push(self.inner.recorded_events[i].clone());
            i += 1;
        }
        assert(events@ =~= self.inner.recorded_events@);
        events
    }
}

/// A recorder holds no event id twice and no more events than its capacity, which is not zero.
pub proof fn law_recorder_is_valid(recorder: BoundedWebhookRecorder)
    requires
        recorder.wf(),
    ensures
        recorder@.valid(),
        recorder@.capacity >= 1,
        recorder@.events.len() <= recorder@.capacity,
        forall|i: int, j: int|
            0 <= i < j < recorder@.events.len() ==> (#[trigger] recorder@.events[i]).event_id != (
            #[trigger] recorder@.events[j]).event_id,
{
}

} // verus!
