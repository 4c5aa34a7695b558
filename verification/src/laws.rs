//! What holds of the receiver as a whole.
use crate::event::{AirwallexEventEnvelope, EventView};
use crate::meaning;
use crate::recorder;
use crate::recorder::{RecordOutcome, RecorderLock, RecorderView};
use crate::response;
use crate::response::ResponseView;
use crate::server::Delivery;
use crate::signature;
use crate::text;
use vstd::prelude::*;

verus! {

/// The receiver accepts the signature that the holder of the secret makes: the hexadecimal
/// text of the tag, in either case, with any white space around it.
pub proof fn law_signer_is_accepted(
    secret: Seq<char>,
    timestamp: Seq<char>,
    raw_body: Seq<u8>,
    before: Seq<char>,
    digits: Seq<char>,
    after: Seq<char>,
)
    requires
        text::is_blank(before),
        text::is_blank(after),
        text::ascii_lowercase(digits) == text::lower_hex(
            signature::notification_tag(secret, timestamp, raw_body),
        ),
    ensures
        signature::is_authentic(secret, timestamp, raw_body, before + digits + after),
{
    text::lemma_hex_is_visible(digits, signature::notification_tag(secret, timestamp, raw_body));
    text::lemma_trimmed_core(before, digits, after);
}

/// Every accepted signature is the hexadecimal text of the tag, up to its case and the white
/// space around it.
pub proof fn law_accepted_signature_writes_tag(
    secret: Seq<char>,
    timestamp: Seq<char>,
    raw_body: Seq<u8>,
    signed: Seq<char>,
)
    requires
        signature::is_authentic(secret, timestamp, raw_body, signed),
    ensures
        exists|before: Seq<char>, digits: Seq<char>, after: Seq<char>|
            {
                &&& #[trigger] (before + digits + after) == signed
                &&& text::is_blank(before)
                &&& text::is_blank(after)
                &&& text::ascii_lowercase(digits) == text::lower_hex(
                    signature::notification_tag(secret, timestamp, raw_body),
                )
            },
{
    let parts = text::lemma_trimmed_parts(signed);
    assert(parts.0 + text::trimmed(signed) + parts.1 == signed);
}

/// A signature that is accepted for one notification is accepted for another, under the same
/// or another secret, exactly where the two have the same tag: a changed body or timestamp
/// is refused unless the tag is the same.
pub proof fn law_signature_belongs_to_one_tag(
    secret: Seq<char>,
    timestamp: Seq<char>,
    raw_body: Seq<u8>,
    other_secret: Seq<char>,
    other_timestamp: Seq<char>,
    other_body: Seq<u8>,
    signed: Seq<char>,
)
    requires
        signature::is_authentic(secret, timestamp, raw_body, signed),
    ensures
        signature::is_authentic(other_secret, other_timestamp, other_body, signed) <==> (
        signature::notification_tag(other_secret, other_timestamp, other_body)
            == signature::notification_tag(secret, timestamp, raw_body)),
{
    let tag = signature::notification_tag(secret, timestamp, raw_body);
    let other_tag = signature::notification_tag(other_secret, other_timestamp, other_body);
    if text::lower_hex(other_tag) == text::lower_hex(tag) {
        text::lemma_lower_hex_injective(other_tag, tag);
    }
}

/// What a recorder holds once it was offered all of `events` in turn.
pub open spec fn offered_all(recorder: RecorderView, events: Seq<EventView>) -> RecorderView
    decreases events.len(),
{
    if events.len() == 0 {
        recorder
    } else {
        offered_all(recorder, events.drop_last()).offered(events.last())
    }
}

/// However many events it is offered, a recorder holds no more than its capacity and no id
/// twice, and its capacity stays.
pub proof fn law_recorder_stays_valid(recorder: RecorderView, events: Seq<EventView>)
    requires
        recorder.valid(),
    ensures
        offered_all(recorder, events).valid(),
        offered_all(recorder, events).capacity == recorder.capacity,
    decreases events.len(),
{
    if events.len() > 0 {
        law_recorder_stays_valid(recorder, events.drop_last());
        let before = offered_all(recorder, events.drop_last());
        let event = events.last();
        let all = before.events.push(event);
        if !recorder::has_id(before.events, event.event_id) {
            assert(recorder::distinct_ids(all)) by {
                assert forall|i: int, j: int| 0 <= i < j < all.len() implies (
                #[trigger] all[i]).event_id != (#[trigger] all[j]).event_id by {
                    if j == before.events.len() {
                        assert(all[i] == before.events[i]);
                    }
                }
            }
        }
    }
}

/// An event id that the recorder holds is answered as a duplicate, and nothing changes, whatever
/// else the event says.
pub proof fn law_held_id_is_a_duplicate(recorder: RecorderView, event: EventView)
    requires
        recorder::has_id(recorder.events, event.event_id),
    ensures
        recorder.outcome(event) == RecordOutcome::Duplicate,
        recorder.offered(event) == recorder,
{
}

/// An event with a new id is recorded as the newest, and what else is held keeps its order:
/// at a full recorder the oldest event alone is forgotten.
pub proof fn law_new_event_is_kept(recorder: RecorderView, event: EventView)
    requires
        recorder.valid(),
        recorder.capacity >= 1,
        !recorder::has_id(recorder.events, event.event_id),
    ensures
        recorder.outcome(event) == RecordOutcome::Recorded,
        recorder.offered(event).events == (if recorder.events.len() == recorder.capacity {
            recorder.events.drop_first().push(event)
        } else {
            recorder.events.push(event)
        }),
{
    assert(recorder.offered(event).events =~= if recorder.events.len() == recorder.capacity {
        recorder.events.drop_first().push(event)
    } else {
        recorder.events.push(event)
    });
}

/// A forgotten event can be recorded again: a full recorder that takes a new event no longer
/// holds the id of the oldest.
pub proof fn law_forgotten_event_is_new(recorder: RecorderView, event: EventView)
    requires
        recorder.valid(),
        recorder.capacity >= 1,
        recorder.events.len() == recorder.capacity,
        !recorder::has_id(recorder.events, event.event_id),
    ensures
        recorder.offered(event).outcome(recorder.events.first()) == RecordOutcome::Recorded,
{
    law_new_event_is_kept(recorder, event);
    let after = recorder.offered(event).events;
    let oldest = recorder.events.first();
    assert forall|i: int| 0 <= i < after.len() implies #[trigger] after[i].event_id
        != oldest.event_id by {
        if i < after.len() - 1 {
            assert(after[i] == recorder.events[i + 1]);
        } else {
            assert(recorder.events[0].event_id == oldest.event_id);
        }
    }
}

/// Of events with different ids, an empty recorder holds the newest, as many as fit, in the
/// order in which they came.
pub proof fn law_recorder_holds_the_newest(capacity: nat, events: Seq<EventView>)
    requires
        recorder::distinct_ids(events),
    ensures
        offered_all(RecorderView { capacity, events: Seq::empty() }, events).events
            == recorder::newest(events, capacity),
        offered_all(RecorderView { capacity, events: Seq::empty() }, events).capacity == capacity,
    decreases events.len(),
{
    let empty = RecorderView { capacity, events: Seq::<EventView>::empty() };
    if events.len() > 0 {
        let earlier = events.drop_last();
        let event = events.last();
        assert(recorder::distinct_ids(earlier)) by {
            assert forall|i: int, j: int| 0 <= i < j < earlier.len() implies (
            #[trigger] earlier[i]).event_id != (#[trigger] earlier[j]).event_id by {
                assert(events[i].event_id != events[j].event_id);
            }
        }
        law_recorder_holds_the_newest(capacity, earlier);
        let held = recorder::newest(earlier, capacity);
        assert forall|i: int| 0 <= i < held.len() implies #[trigger] held[i].event_id
            != event.event_id by {
            let k = i + earlier.len() - held.len();
            assert(held[i] == events[k]);
            assert(events[k].event_id != events[events.len() - 1].event_id);
        }
        assert(!recorder::has_id(held, event.event_id));
        assert(recorder::newest(held.push(event), capacity) =~= recorder::newest(
            events,
            capacity,
        ));
    } else {
        assert(recorder::newest(events, capacity) =~= Seq::<EventView>::empty());
    }
}

/// Whether the id is held with at most `newer` events behind it.
spec fn held_within(events: Seq<EventView>, id: Seq<char>, newer: int) -> bool {
    exists|i: int|
        events.len() - 1 - newer <= i && 0 <= i < events.len() && #[trigger] events[i].event_id
            == id
}

/// A recorded event is known for as long as fewer further events than the capacity were
/// offered: delivered again within that window, it is a duplicate.
pub proof fn law_deduplication_window(
    recorder: RecorderView,
    event: EventView,
    later: Seq<EventView>,
)
    requires
        recorder.valid(),
        !recorder::has_id(recorder.events, event.event_id),
        later.len() < recorder.capacity,
    ensures
        offered_all(recorder.offered(event), later).outcome(event) == RecordOutcome::Duplicate,
{
    lemma_held_within(recorder, event, later);
}

proof fn lemma_held_within(recorder: RecorderView, event: EventView, later: Seq<EventView>)
    requires
        recorder.valid(),
        !recorder::has_id(recorder.events, event.event_id),
        later.len() < recorder.capacity,
    ensures
        held_within(
            offered_all(recorder.offered(event), later).events,
            event.event_id,
            later.len() as int,
        ),
        recorder::has_id(
            offered_all(recorder.offered(event), later).events,
            event.event_id,
        ),
    decreases later.len(),
{
    let first = recorder.offered(event);
    law_new_event_is_kept(recorder, event);
    let after = offered_all(first, later).events;
    if later.len() == 0 {
        assert(after[after.len() - 1].event_id == event.event_id);
    } else {
        lemma_held_within(recorder, event, later.drop_last());
        law_recorder_stays_valid(recorder, seq![event]);
        assert(seq![event].drop_last() =~= Seq::<EventView>::empty());
        reveal_with_fuel(offered_all, 2);
        assert(offered_all(recorder, seq![event]) == first);
        law_recorder_stays_valid(first, later.drop_last());
        let before = offered_all(first, later.drop_last());
        let newer = later.len() - 1;
        let i = choose|i: int|
            before.events.len() - 1 - newer <= i && 0 <= i < before.events.len()
                && #[trigger] before.events[i].event_id == event.event_id;
        if recorder::has_id(before.events, later.last().event_id) {
            assert(after[i].event_id == event.event_id);
        } else {
            law_new_event_is_kept(before, later.last());
            let k = if before.events.len() == before.capacity { i - 1 } else { i };
            assert(after[k].event_id == event.event_id);
        }
    }
}

/// The words for the two outcomes differ.
proof fn lemma_outcome_words_differ()
    ensures
        RecordOutcome::Recorded.word() != RecordOutcome::Duplicate.word(),
{
    reveal_strlit("recorded");
    reveal_strlit("duplicate");
    assert("recorded"@[0] != "duplicate"@[0]);
}

/// Nothing is recorded but the event of an authentic notification, and then the answer says
/// so: whatever else is sent to the receiver leaves its record as it was.
pub proof fn law_only_authentic_events_are_recorded(
    delivery: Delivery,
    secret: Seq<char>,
    recorder: RecorderView,
)
    requires
        delivery.recorder_after(secret, recorder) != recorder,
    ensures
        delivery.is_authentic(secret),
        delivery.method == "POST"@,
        delivery.path == "/webhooks/airwallex"@,
        delivery.event matches Some(event) && delivery.recorder_after(secret, recorder)
            == recorder.offered(event),
        delivery.answer(secret, recorder) == response::plain_text(200, "recorded"@),
{
}

/// A request that is answered with an error changes nothing.
pub proof fn law_refused_request_changes_nothing(
    delivery: Delivery,
    secret: Seq<char>,
    recorder: RecorderView,
)
    requires
        delivery.answer(secret, recorder).status != 200,
    ensures
        delivery.recorder_after(secret, recorder) == recorder,
{
}

/// A request is answered with success exactly where it is an authentic notification, its
/// payload is an event, and the receiver's lock was had.
pub proof fn law_success_is_owed(delivery: Delivery, secret: Seq<char>, recorder: RecorderView)
    ensures
        delivery.answer(secret, recorder).status == 200 <==> delivery.is_authentic(secret)
            && delivery.event is Some && delivery.lock == RecorderLock::Held,
{
}

/// A notification without the signature headers, or with a signature that was not made with
/// the secret for its timestamp and its raw body, is unauthorized.
pub proof fn law_unsigned_notification_is_unauthorized(
    delivery: Delivery,
    secret: Seq<char>,
    recorder: RecorderView,
)
    requires
        delivery.method == "POST"@,
        delivery.path == "/webhooks/airwallex"@,
        delivery.timestamp is None || delivery.signature is None || (delivery.body is Some
            && !delivery.is_authentic(secret)),
    ensures
        delivery.answer(secret, recorder).status == 401,
        delivery.recorder_after(secret, recorder) == recorder,
{
}

/// A notification that the holder of the secret signed, with an event whose id is new, is
/// recorded as the newest event and answered so.
pub proof fn law_signed_event_is_recorded(
    delivery: Delivery,
    before: Seq<char>,
    digits: Seq<char>,
    after: Seq<char>,
    secret: Seq<char>,
    recorder: RecorderView,
)
    requires
        recorder.valid(),
        recorder.capacity >= 1,
        delivery.method == "POST"@,
        delivery.path == "/webhooks/airwallex"@,
        delivery.timestamp is Some,
        delivery.body is Some,
        text::is_blank(before),
        text::is_blank(after),
        text::ascii_lowercase(digits) == text::lower_hex(
            signature::notification_tag(
                secret,
                delivery.timestamp->Some_0,
                delivery.body->Some_0,
            ),
        ),
        delivery.signature == Some(before + digits + after),
        delivery.event is Some,
        !recorder::has_id(recorder.events, delivery.event->Some_0.event_id),
        delivery.lock == RecorderLock::Held,
    ensures
        delivery.answer(secret, recorder) == response::plain_text(200, "recorded"@),
        delivery.recorder_after(secret, recorder).events.len() > 0,
        delivery.recorder_after(secret, recorder).events.last() == delivery.event->Some_0,
{
    law_signer_is_accepted(
        secret,
        delivery.timestamp->Some_0,
        delivery.body->Some_0,
        before,
        digits,
        after,
    );
    law_new_event_is_kept(recorder, delivery.event->Some_0);
}

/// A notification with an event that was delivered before is answered as a duplicate and
/// changes nothing, whatever else it says of the event.
pub proof fn law_redelivery_is_idempotent(
    first: Delivery,
    again: Delivery,
    secret: Seq<char>,
    recorder: RecorderView,
)
    requires
        recorder.valid(),
        recorder.capacity >= 1,
        first.answer(secret, recorder).status == 200,
        again.is_authentic(secret),
        again.lock == RecorderLock::Held,
        again.event is Some,
        again.event->Some_0.event_id == first.event->Some_0.event_id,
    ensures
        ({
            let after = first.recorder_after(secret, recorder);
            &&& again.answer(secret, after) == response::plain_text(200, "duplicate"@)
            &&& again.recorder_after(secret, after) == after
        }),
{
    let event = first.event->Some_0;
    if !recorder::has_id(recorder.events, event.event_id) {
        law_new_event_is_kept(recorder, event);
        let after = recorder.offered(event).events;
        assert(after[after.len() - 1].event_id == event.event_id);
    }
}

/// The answer to an authentic event tells whether its id was new: it is `recorded` exactly
/// where the recorder did not hold the id.
pub proof fn law_answer_tells_the_outcome(
    delivery: Delivery,
    secret: Seq<char>,
    recorder: RecorderView,
)
    requires
        delivery.is_authentic(secret),
        delivery.event is Some,
        delivery.lock == RecorderLock::Held,
    ensures
        delivery.answer(secret, recorder) == response::plain_text(200, "recorded"@)
            <==> !recorder::has_id(recorder.events, delivery.event->Some_0.event_id),
        delivery.answer(secret, recorder) == response::plain_text(200, "duplicate"@)
            <==> recorder::has_id(recorder.events, delivery.event->Some_0.event_id),
{
    lemma_outcome_words_differ();
}

/// A request that is no post is told that its method is not allowed, whatever its path, its
/// headers and its body are, and changes nothing.
pub proof fn law_only_posts_are_allowed(
    delivery: Delivery,
    secret: Seq<char>,
    recorder: RecorderView,
)
    requires
        delivery.method != "POST"@,
    ensures
        delivery.answer(secret, recorder) == (ResponseView {
            status: 405,
            content_type: "text/plain; charset=utf-8"@,
            body: "method not allowed"@,
        }),
        delivery.recorder_after(secret, recorder) == recorder,
{
}

/// A post to any path but the webhook's is told that there is nothing, whatever its headers and
/// its body are, and changes nothing.
pub proof fn law_other_paths_are_not_found(
    delivery: Delivery,
    secret: Seq<char>,
    recorder: RecorderView,
)
    requires
        delivery.method == "POST"@,
        delivery.path != "/webhooks/airwallex"@,
    ensures
        delivery.answer(secret, recorder) == (ResponseView {
            status: 404,
            content_type: "text/plain; charset=utf-8"@,
            body: "not found"@,
        }),
        delivery.recorder_after(secret, recorder) == recorder,
{
}

/// A notification that lacks the timestamp or the signature is told so before its body is
/// looked at, and changes nothing.
pub proof fn law_missing_headers_are_reported(
    delivery: Delivery,
    secret: Seq<char>,
    recorder: RecorderView,
)
    requires
        delivery.method == "POST"@,
        delivery.path == "/webhooks/airwallex"@,
        delivery.timestamp is None || delivery.signature is None,
    ensures
        delivery.answer(secret, recorder) == (ResponseView {
            status: 401,
            content_type: "text/plain; charset=utf-8"@,
            body: "missing signature headers"@,
        }),
        delivery.recorder_after(secret, recorder) == recorder,
{
}

/// A notification whose body could not be read is a bad request and changes nothing.
pub proof fn law_unread_body_is_reported(
    delivery: Delivery,
    secret: Seq<char>,
    recorder: RecorderView,
)
    requires
        delivery.method == "POST"@,
        delivery.path == "/webhooks/airwallex"@,
        delivery.timestamp is Some,
        delivery.signature is Some,
        delivery.body is None,
    ensures
        delivery.answer(secret, recorder) == (ResponseView {
            status: 400,
            content_type: "text/plain; charset=utf-8"@,
            body: "failed to read request body"@,
        }),
        delivery.recorder_after(secret, recorder) == recorder,
{
}

/// A notification whose signature is not the hexadecimal text of the tag of its timestamp and
/// its whole body is refused, whatever event it holds, and changes nothing.
pub proof fn law_wrong_signature_is_refused(
    delivery: Delivery,
    timestamp: Seq<char>,
    signed: Seq<char>,
    raw_body: Seq<u8>,
    secret: Seq<char>,
    recorder: RecorderView,
)
    requires
        delivery.method == "POST"@,
        delivery.path == "/webhooks/airwallex"@,
        delivery.timestamp == Some(timestamp),
        delivery.signature == Some(signed),
        delivery.body == Some(raw_body),
        text::ascii_lowercase(text::trimmed(signed)) != text::lower_hex(
            signature::hmac_sha256_tag(
                vstd::utf8::encode_utf8(secret),
                vstd::utf8::encode_utf8(timestamp) + raw_body,
            ),
        ),
    ensures
        delivery.answer(secret, recorder) == (ResponseView {
            status: 401,
            content_type: "text/plain; charset=utf-8"@,
            body: "invalid signature"@,
        }),
        delivery.recorder_after(secret, recorder) == recorder,
{
}

/// A signed payload that is no event is malformed, with or without the lock, and changes
/// nothing.
pub proof fn law_signed_payload_without_event_is_malformed(
    delivery: Delivery,
    timestamp: Seq<char>,
    signed: Seq<char>,
    raw_body: Seq<u8>,
    secret: Seq<char>,
    recorder: RecorderView,
)
    requires
        delivery.method == "POST"@,
        delivery.path == "/webhooks/airwallex"@,
        delivery.timestamp == Some(timestamp),
        delivery.signature == Some(signed),
        delivery.body == Some(raw_body),
        text::ascii_lowercase(text::trimmed(signed)) == text::lower_hex(
            signature::hmac_sha256_tag(
                vstd::utf8::encode_utf8(secret),
                vstd::utf8::encode_utf8(timestamp) + raw_body,
            ),
        ),
        delivery.event is None,
    ensures
        delivery.answer(secret, recorder) == (ResponseView {
            status: 400,
            content_type: "text/plain; charset=utf-8"@,
            body: "malformed payload"@,
        }),
        delivery.recorder_after(secret, recorder) == recorder,
{
}

/// A signed event that comes without the lock is not recorded, and the answer says so.
pub proof fn law_event_without_the_lock_is_not_recorded(
    delivery: Delivery,
    timestamp: Seq<char>,
    signed: Seq<char>,
    raw_body: Seq<u8>,
    secret: Seq<char>,
    recorder: RecorderView,
)
    requires
        delivery.method == "POST"@,
        delivery.path == "/webhooks/airwallex"@,
        delivery.timestamp == Some(timestamp),
        delivery.signature == Some(signed),
        delivery.body == Some(raw_body),
        text::ascii_lowercase(text::trimmed(signed)) == text::lower_hex(
            signature::hmac_sha256_tag(
                vstd::utf8::encode_utf8(secret),
                vstd::utf8::encode_utf8(timestamp) + raw_body,
            ),
        ),
        delivery.event is Some,
        delivery.lock == RecorderLock::Poisoned,
    ensures
        delivery.answer(secret, recorder) == (ResponseView {
            status: 500,
            content_type: "text/plain; charset=utf-8"@,
            body: "failed to record webhook"@,
        }),
        delivery.recorder_after(secret, recorder) == recorder,
{
}

/// A signed event whose whole id some recorded event has is a duplicate and changes nothing.
pub proof fn law_signed_event_with_a_held_id_is_a_duplicate(
    delivery: Delivery,
    timestamp: Seq<char>,
    signed: Seq<char>,
    raw_body: Seq<u8>,
    event: EventView,
    i: int,
    secret: Seq<char>,
    recorder: RecorderView,
)
    requires
        delivery.method == "POST"@,
        delivery.path == "/webhooks/airwallex"@,
        delivery.timestamp == Some(timestamp),
        delivery.signature == Some(signed),
        delivery.body == Some(raw_body),
        text::ascii_lowercase(text::trimmed(signed)) == text::lower_hex(
            signature::hmac_sha256_tag(
                vstd::utf8::encode_utf8(secret),
                vstd::utf8::encode_utf8(timestamp) + raw_body,
            ),
        ),
        delivery.event == Some(event),
        delivery.lock == RecorderLock::Held,
        0 <= i < recorder.events.len(),
        recorder.events[i].event_id == event.event_id,
    ensures
        delivery.answer(secret, recorder) == (ResponseView {
            status: 200,
            content_type: "text/plain; charset=utf-8"@,
            body: "duplicate"@,
        }),
        delivery.recorder_after(secret, recorder) == recorder,
{
}

/// A signed event whose id no recorded event has is recorded as it is, behind those that are
/// held; as many of the oldest go as do not fit, and the rest stay as they were.
pub proof fn law_signed_event_with_a_new_id_is_recorded(
    delivery: Delivery,
    timestamp: Seq<char>,
    signed: Seq<char>,
    raw_body: Seq<u8>,
    event: EventView,
    secret: Seq<char>,
    recorder: RecorderView,
)
    requires
        delivery.method == "POST"@,
        delivery.path == "/webhooks/airwallex"@,
        delivery.timestamp == Some(timestamp),
        delivery.signature == Some(signed),
        delivery.body == Some(raw_body),
        text::ascii_lowercase(text::trimmed(signed)) == text::lower_hex(
            signature::hmac_sha256_tag(
                vstd::utf8::encode_utf8(secret),
                vstd::utf8::encode_utf8(timestamp) + raw_body,
            ),
        ),
        delivery.event == Some(event),
        delivery.lock == RecorderLock::Held,
        recorder.capacity >= 1,
        forall|i: int|
            0 <= i < recorder.events.len() ==> (#[trigger] recorder.events[i]).event_id
                != event.event_id,
    ensures
        delivery.answer(secret, recorder) == (ResponseView {
            status: 200,
            content_type: "text/plain; charset=utf-8"@,
            body: "recorded"@,
        }),
        ({
            let after = delivery.recorder_after(secret, recorder);
            &&& after.capacity == recorder.capacity
            &&& after.events.len() == (if recorder.events.len() < recorder.capacity {
                recorder.events.len() + 1
            } else {
                recorder.capacity
            })
            &&& after.events.last() == event
            &&& forall|i: int|
                0 <= i < after.events.len() - 1 ==> #[trigger] after.events[i]
                    == recorder.events[recorder.events.len() + 1 - after.events.len() + i]
        }),
{
}

/// Two authentic notifications whose envelopes have different ids are both recorded by an empty
/// receiver that has room for two, each as its envelope says, in the order in which they came.
pub proof fn law_different_ids_are_both_recorded(
    first: Delivery,
    first_event: AirwallexEventEnvelope,
    second: Delivery,
    second_event: AirwallexEventEnvelope,
    secret: Seq<char>,
    capacity: nat,
)
    requires
        capacity >= 2,
        first.is_authentic(secret),
        first.lock == RecorderLock::Held,
        first.event == Some(first_event@),
        second.is_authentic(secret),
        second.lock == RecorderLock::Held,
        second.event == Some(second_event@),
        first_event.id@ != second_event.id@,
    ensures
        ({
            let empty = RecorderView { capacity, events: Seq::empty() };
            let between = first.recorder_after(secret, empty);
            let after = second.recorder_after(secret, between);
            &&& first.answer(secret, empty).status == 200
            &&& first.answer(secret, empty).body == "recorded"@
            &&& second.answer(secret, between).status == 200
            &&& second.answer(secret, between).body == "recorded"@
            &&& after.events == seq![first_event@, second_event@]
            &&& after.events[0].event_id == first_event.id@
            &&& after.events[1].event_id == second_event.id@
        }),
{
    let empty = RecorderView { capacity, events: Seq::<EventView>::empty() };
    assert(!recorder::has_id(empty.events, first_event@.event_id));
    let between = first.recorder_after(secret, empty);
    assert(between.events =~= seq![first_event@]);
    assert(!recorder::has_id(between.events, second_event@.event_id));
    assert(second.recorder_after(secret, between).events =~= seq![
        first_event@,
        second_event@,
    ]);
}

/// Events are offered one after another: none changes nothing, and one more is offered to what
/// the others left.
pub proof fn law_offered_in_turn(recorder: RecorderView, events: Seq<EventView>, event: EventView)
    ensures
        offered_all(recorder, Seq::empty()) == recorder,
        offered_all(recorder, events.push(event)) == offered_all(recorder, events).offered(event),
{
    assert(events.push(event).drop_last() =~= events);
}

/// A signature that is accepted for one body is accepted for another one, with the same secret
/// and timestamp, only where HMAC-SHA256 gives two different messages one tag.
pub proof fn law_signature_covers_the_whole_body(
    secret: Seq<char>,
    timestamp: Seq<char>,
    raw_body: Seq<u8>,
    other_body: Seq<u8>,
    signed: Seq<char>,
)
    requires
        raw_body != other_body,
        signature::is_authentic(secret, timestamp, raw_body, signed),
        signature::is_authentic(secret, timestamp, other_body, signed),
    ensures
        ({
            let key = vstd::utf8::encode_utf8(secret);
            let stamp = vstd::utf8::encode_utf8(timestamp);
            &&& stamp + raw_body != stamp + other_body
            &&& signature::hmac_sha256_tag(key, stamp + raw_body) == signature::hmac_sha256_tag(
                key,
                stamp + other_body,
            )
        }),
{
    meaning::law_different_notifications_sign_differently(
        timestamp,
        raw_body,
        timestamp,
        other_body,
    );
    text::lemma_lower_hex_injective(
        signature::notification_tag(secret, timestamp, raw_body),
        signature::notification_tag(secret, timestamp, other_body),
    );
}

/// The type of an event does not decide how it is answered: events of types that were never
/// seen are taken like any other.
pub proof fn law_event_type_does_not_matter(
    delivery: Delivery,
    event_type: Seq<char>,
    secret: Seq<char>,
    recorder: RecorderView,
)
    requires
        delivery.event is Some,
    ensures
        (Delivery {
            event: Some(EventView { event_type, ..delivery.event->Some_0 }),
            ..delivery
        }).answer(secret, recorder) == delivery.answer(secret, recorder),
{
}

} // verus!
