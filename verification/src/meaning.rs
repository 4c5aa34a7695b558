//! What the notions of the contracts mean, each fixed by what it must satisfy on every input.
use crate::config;
use crate::config::{AirwallexWebhookConfig, ConfigError};
use crate::event;
use crate::event::{AirwallexEventEnvelope, EventView, JsonValue, RecordedWebhookEvent};
use crate::headers;
use crate::recorder;
use crate::recorder::{RecordOutcome, RecorderLock, RecorderView};
use crate::response;
use crate::response::{RequestError, ResponseView, WebhookError, WebhookResponse};
use crate::server;
use crate::server::{AirwallexWebhookServer, AuthenticatedPayload, Delivery};
use crate::signature;
use crate::text;
use hyper::header::{HeaderMap, HeaderValue};
use vstd::prelude::*;

verus! {

/// A text that is there is taken as it is, whatever its length; only a missing one is missing.
pub proof fn law_optional_text_is_kept(given: String)
    ensures
        text::text_of(Some(given)) == Some(given@),
        text::text_of(None::<String>) is None,
{
}

/// White space is the ASCII tab to carriage return, the space, and the other characters of the
/// Unicode property; no other character is.
pub proof fn law_white_space(c: char)
    ensures
        text::is_white_space(c) <==> {
            ||| c == '\t' || c == '\n' || c == '\u{b}' || c == '\u{c}' || c == '\r' || c == ' '
            ||| c == '\u{85}' || c == '\u{a0}' || c == '\u{1680}'
            ||| '\u{2000}' <= c && c <= '\u{200a}'
            ||| c == '\u{2028}' || c == '\u{2029}' || c == '\u{202f}'
            ||| c == '\u{205f}' || c == '\u{3000}'
        },
{
}

/// A text is blank exactly where none of its characters is anything but white space.
pub proof fn law_blank(s: Seq<char>)
    ensures
        text::is_blank(s) <==> !exists|i: int|
            0 <= i < s.len() && !text::is_white_space(#[trigger] s[i]),
{
}

/// Trimming cuts white space, and nothing else, off both ends, until each end is something
/// else.
pub proof fn law_trimmed(s: Seq<char>) -> (ends: (int, int))
    ensures
        0 <= ends.0 <= ends.1 <= s.len(),
        text::trimmed(s) == s.subrange(ends.0, ends.1),
        forall|i: int| 0 <= i < ends.0 ==> text::is_white_space(#[trigger] s[i]),
        forall|i: int| ends.1 <= i < s.len() ==> text::is_white_space(#[trigger] s[i]),
        ends.0 < ends.1 ==> !text::is_white_space(s[ends.0]),
        ends.0 < ends.1 ==> !text::is_white_space(s[ends.1 - 1]),
{
    text::lemma_trimmed_ends(s)
}

/// Lower-casing keeps every character but the twenty-six capital letters, which move up by
/// thirty-two.
pub proof fn law_ascii_lowercase(s: Seq<char>, i: int)
    requires
        0 <= i < s.len(),
    ensures
        text::ascii_lowercase(s).len() == s.len(),
        65 <= s[i] as u32 <= 90 ==> text::ascii_lowercase(s)[i] as u32 == s[i] as u32 + 32,
        !(65 <= s[i] as u32 <= 90) ==> text::ascii_lowercase(s)[i] == s[i],
{
}

/// Each byte is written as two characters `0` to `9` or `a` to `f`, and the two digits' values
/// give the byte back.
pub proof fn law_lower_hex(bytes: Seq<u8>, i: int)
    requires
        0 <= i < bytes.len(),
    ensures
        text::lower_hex(bytes).len() == 2 * bytes.len(),
        ({
            let high = text::lower_hex(bytes)[2 * i] as int;
            let low = text::lower_hex(bytes)[2 * i + 1] as int;
            &&& 48 <= high <= 57 || 97 <= high <= 102
            &&& 48 <= low <= 57 || 97 <= low <= 102
            &&& bytes[i] == 16 * (if high <= 57 {
                high - 48
            } else {
                high - 87
            }) + (if low <= 57 {
                low - 48
            } else {
                low - 87
            })
        }),
{
    let digits = text::lower_hex(bytes);
    assert(digits[2 * i] == text::hex_digit(bytes[i] / 16));
    assert(digits[2 * i + 1] == text::hex_digit(bytes[i] % 16));
}

/// A signature is authentic exactly where, trimmed and in lower case, it is the hexadecimal
/// text of the HMAC-SHA256, under all of the secret, of all of the timestamp followed by all of
/// the body.
pub proof fn law_authentic(
    secret: Seq<char>,
    timestamp: Seq<char>,
    raw_body: Seq<u8>,
    signed: Seq<char>,
)
    ensures
        signature::is_authentic(secret, timestamp, raw_body, signed) <==> text::ascii_lowercase(
            text::trimmed(signed),
        ) == text::lower_hex(
            signature::hmac_sha256_tag(
                vstd::utf8::encode_utf8(secret),
                vstd::utf8::encode_utf8(timestamp) + raw_body,
            ),
        ),
        signature::notification_tag(secret, timestamp, raw_body) == signature::hmac_sha256_tag(
            vstd::utf8::encode_utf8(secret),
            vstd::utf8::encode_utf8(timestamp) + raw_body,
        ),
{
}

/// A signature writes a tag exactly where, trimmed and in lower case, it is the tag's
/// hexadecimal text.
pub proof fn law_writes_tag(signed: Seq<char>, tag: Seq<u8>)
    ensures
        signature::normalized_signature(signed) == text::ascii_lowercase(text::trimmed(signed)),
        signature::writes_tag(signed, tag) <==> text::ascii_lowercase(text::trimmed(signed))
            == text::lower_hex(tag),
{
}

/// The signed bytes are the timestamp's bytes and then the body's, every one of them.
pub proof fn law_signed_message(timestamp: Seq<char>, raw_body: Seq<u8>)
    ensures
        ({
            let message = signature::signed_message(timestamp, raw_body);
            let stamp = vstd::utf8::encode_utf8(timestamp);
            &&& message.len() == stamp.len() + raw_body.len()
            &&& forall|i: int| 0 <= i < stamp.len() ==> #[trigger] message[i] == stamp[i]
            &&& forall|i: int|
                0 <= i < raw_body.len() ==> message[stamp.len() + i] == #[trigger] raw_body[i]
        }),
{
}

/// With one timestamp, bodies that differ anywhere are signed as different messages; with one
/// body, so are timestamps that differ anywhere.
pub proof fn law_different_notifications_sign_differently(
    timestamp: Seq<char>,
    raw_body: Seq<u8>,
    other_timestamp: Seq<char>,
    other_body: Seq<u8>,
)
    ensures
        raw_body != other_body ==> signature::signed_message(timestamp, raw_body)
            != signature::signed_message(timestamp, other_body),
        timestamp != other_timestamp ==> signature::signed_message(timestamp, raw_body)
            != signature::signed_message(other_timestamp, raw_body),
{
    let message = signature::signed_message(timestamp, raw_body);
    let stamp = vstd::utf8::encode_utf8(timestamp);
    if message == signature::signed_message(timestamp, other_body) {
        assert(message.skip(stamp.len() as int) =~= raw_body);
        assert(message.skip(stamp.len() as int) =~= other_body);
    }
    if message == signature::signed_message(other_timestamp, raw_body) {
        let other_stamp = vstd::utf8::encode_utf8(other_timestamp);
        assert((stamp + raw_body).len() == (other_stamp + raw_body).len());
        assert(message.take(stamp.len() as int) =~= stamp);
        assert(message.take(stamp.len() as int) =~= other_stamp);
        text::lemma_same_bytes_same_text(timestamp, other_timestamp);
    }
}

/// An envelope is its id, its type, its time and its request, each as it was sent.
pub proof fn law_envelope(envelope: AirwallexEventEnvelope)
    ensures
        envelope@.event_id == envelope.id@,
        envelope@.event_type == envelope.event_type@,
        match envelope.created_at {
            Some(time) => envelope@.created_at == Some(time@),
            None => envelope@.created_at is None,
        },
        match envelope.request_id {
            Some(request) => envelope@.request_id == Some(request@),
            None => envelope@.request_id is None,
        },
{
}

/// A recorded event is its id, its type, its time and its request, each as it is held.
pub proof fn law_recorded_event(recorded: RecordedWebhookEvent)
    ensures
        recorded@.event_id == recorded.event_id@,
        recorded@.event_type == recorded.event_type@,
        match recorded.created_at {
            Some(time) => recorded@.created_at == Some(time@),
            None => recorded@.created_at is None,
        },
        match recorded.request_id {
            Some(request) => recorded@.request_id == Some(request@),
            None => recorded@.request_id is None,
        },
{
}

/// A string and a number are read as their own text, whatever it is; a boolean as its word; and
/// nothing else as a text.
pub proof fn law_optional_field(value: Option<JsonValue>)
    ensures
        value matches Some(JsonValue::Text(t)) ==> event::optional_text(value) == Some(t@),
        value matches Some(JsonValue::Number(t)) ==> event::optional_text(value) == Some(t@),
        value matches Some(JsonValue::Bool(flag)) ==> event::optional_text(value) == Some(
            if flag {
                "true"@
            } else {
                "false"@
            },
        ),
        value is None ==> event::optional_text(value) is None,
        value matches Some(v) ==> v is Null || v is Array || v is Object
            ==> event::optional_text(value) is None,
{
}

/// An id is held exactly where some event has it, character for character, and ids are
/// distinct exactly where no two events share one.
pub proof fn law_ids(events: Seq<EventView>, id: Seq<char>)
    ensures
        recorder::has_id(events, id) <==> events.map_values(
            |event: EventView| event.event_id,
        ).contains(id),
        recorder::distinct_ids(events) <==> events.map_values(
            |event: EventView| event.event_id,
        ).no_duplicates(),
{
    let ids = events.map_values(|event: EventView| event.event_id);
    if recorder::has_id(events, id) {
        let i = choose|i: int| 0 <= i < events.len() && #[trigger] events[i].event_id == id;
        assert(ids[i] == id);
    }
    if ids.contains(id) {
        let i = ids.index_of(id);
        assert(events[i].event_id == id);
    }
    if recorder::distinct_ids(events) {
        assert forall|i: int, j: int|
            0 <= i < ids.len() && 0 <= j < ids.len() && i != j implies ids[i] != ids[j] by {
            if i < j {
                assert(events[i].event_id != events[j].event_id);
            } else {
                assert(events[j].event_id != events[i].event_id);
            }
        }
    }
    if ids.no_duplicates() {
        assert forall|i: int, j: int| 0 <= i < j < events.len() implies (
        #[trigger] events[i]).event_id != (#[trigger] events[j]).event_id by {
            assert(ids[i] != ids[j]);
        }
    }
}

/// The newest events are the last ones, in their order, as many as the limit lets through.
pub proof fn law_newest(events: Seq<EventView>, limit: nat, i: int)
    ensures
        recorder::newest(events, limit).len() == (if events.len() < limit {
            events.len()
        } else {
            limit
        }),
        0 <= i < recorder::newest(events, limit).len() ==> recorder::newest(events, limit)[i]
            == events[events.len() - recorder::newest(events, limit).len() + i],
{
}

/// A recorder is valid exactly where its events fit and no two share an id.
pub proof fn law_valid(recorder: RecorderView)
    ensures
        recorder.valid() <==> {
            &&& recorder.events.len() <= recorder.capacity
            &&& recorder.events.map_values(|event: EventView| event.event_id).no_duplicates()
        },
{
    law_ids(recorder.events, Seq::empty());
}

/// An offered event is a duplicate exactly where its whole id is held, and then nothing
/// changes; any other event is recorded as it is, behind the events that were held, and only
/// as many of the oldest go as do not fit.
pub proof fn law_offer(recorder: RecorderView, event: EventView)
    ensures
        ({
            let after = recorder.offered(event);
            let held = exists|i: int|
                0 <= i < recorder.events.len() && (#[trigger] recorder.events[i]).event_id
                    == event.event_id;
            &&& held <==> recorder.outcome(event) == RecordOutcome::Duplicate
            &&& !held <==> recorder.outcome(event) == RecordOutcome::Recorded
            &&& held ==> after == recorder
            &&& after.capacity == recorder.capacity
            &&& !held ==> after.events.len() == (if recorder.events.len() < recorder.capacity {
                recorder.events.len() + 1
            } else {
                recorder.capacity
            })
            &&& !held && recorder.capacity > 0 ==> after.events.last() == event
            &&& !held ==> forall|i: int|
                0 <= i < after.events.len() - 1 ==> #[trigger] after.events[i]
                    == recorder.events[recorder.events.len() + 1 - after.events.len() + i]
        }),
{
}

/// Two events with different ids are told apart: recording one leaves the other as new as it
/// was, wherever the ids differ.
pub proof fn law_different_ids_are_told_apart(
    recorder: RecorderView,
    first: EventView,
    second: EventView,
)
    requires
        first.event_id != second.event_id,
        forall|i: int|
            0 <= i < recorder.events.len() ==> (#[trigger] recorder.events[i]).event_id
                != second.event_id,
    ensures
        recorder.offered(first).outcome(second) == RecordOutcome::Recorded,
{
    law_offer(recorder, first);
    let after = recorder.offered(first);
    assert forall|i: int| 0 <= i < after.events.len() implies (
    #[trigger] after.events[i]).event_id != second.event_id by {
        let all = recorder.events.push(first);
        let k = all.len() - after.events.len() + i;
        if recorder::has_id(recorder.events, first.event_id) {
            assert(after.events[i] == recorder.events[i]);
        } else {
            assert(after.events[i] == all[k]);
        }
    }
}

/// A new id is answered with `recorded`, a held one with `duplicate`.
pub proof fn law_outcome_word(outcome: RecordOutcome)
    ensures
        outcome == RecordOutcome::Recorded ==> outcome.word() == "recorded"@,
        outcome == RecordOutcome::Duplicate ==> outcome.word() == "duplicate"@,
{
}

/// A plain-text answer has the status and the body that it is given, and is UTF-8 text.
pub proof fn law_plain_text(status: u16, body: Seq<char>, answer: WebhookResponse)
    ensures
        response::plain_text(status, body) == (ResponseView {
            status,
            content_type: "text/plain; charset=utf-8"@,
            body,
        }),
        answer@ == (ResponseView {
            status: answer.status,
            content_type: answer.content_type@,
            body: answer.body@,
        }),
{
}

/// The answers to requests that are refused at their head or for their body.
pub proof fn law_request_error_answers(error: RequestError)
    ensures
        error.answer().content_type == "text/plain; charset=utf-8"@,
        error is MethodNotAllowed ==> error.answer().status == 405 && error.answer().body
            == "method not allowed"@,
        error is NotFound ==> error.answer().status == 404 && error.answer().body == "not found"@,
        error is MissingTimestamp || error is MissingSignature ==> error.answer().status == 401
            && error.answer().body == "missing signature headers"@,
        error is BodyReadFailed ==> error.answer().status == 400 && error.answer().body
            == "failed to read request body"@,
{
}

/// The answers to payloads that are refused, and the words for the errors.
pub proof fn law_webhook_error_answers(error: WebhookError)
    ensures
        error.answer().content_type == "text/plain; charset=utf-8"@,
        error is InvalidSignature ==> error.answer().status == 401 && error.answer().body
            == "invalid signature"@ && error.words() == "missing or invalid webhook signature"@,
        error matches WebhookError::MalformedPayload(detail) ==> error.answer().status == 400
            && error.answer().body == "malformed payload"@ && error.words()
            == "malformed payload: "@ + detail@,
        error matches WebhookError::Persistence(detail) ==> error.answer().status == 500
            && error.answer().body == "failed to record webhook"@ && error.words()
            == "failed to record webhook: "@ + detail@,
{
}

/// A setting that is there is taken as it is, whatever its length; the default stands for a
/// missing one alone.
pub proof fn law_setting(given: String, default: Seq<char>)
    ensures
        config::setting_or(Some(given), default) == given@,
        config::setting_or(None::<String>, default) == default,
{
}

/// The words for the errors in the settings.
pub proof fn law_config_error_words(error: ConfigError)
    ensures
        error is MissingWebhookSecret ==> error.words()
            == "AIRWALLEX_WEBHOOK_SECRET must be configured"@,
        error matches ConfigError::InvalidBindAddress(detail) ==> error.words()
            == "Invalid Airwallex webhook bind address: "@ + detail@,
{
}

/// A header is text exactly where each of its bytes is a visible ASCII character, a space or a
/// tab, and then its characters are its bytes.
pub proof fn law_header_text(bytes: Seq<u8>)
    ensures
        headers::header_text(bytes) is Some <==> forall|i: int|
            0 <= i < bytes.len() ==> 32 <= #[trigger] bytes[i] <= 126 || bytes[i] == 9,
        headers::header_text(bytes) matches Some(found) ==> found.len() == bytes.len() && forall|
            i: int,
        |
            0 <= i < bytes.len() ==> #[trigger] found[i] == bytes[i] as char,
{
    if headers::header_text(bytes) is Some {
        assert(forall|i: int|
            0 <= i < bytes.len() ==> headers::is_header_text_byte(#[trigger] bytes[i]));
    }
}

/// A header is found by its name in any case, and read where its first value is text.
pub proof fn law_header_named(headers: HeaderMap<HeaderValue>, name: Seq<char>)
    ensures
        ({
            let key = text::ascii_lowercase(name);
            let values = headers::first_values(headers);
            &&& !values.dom().contains(key) ==> headers::header_named(headers, name) is None
            &&& values.dom().contains(key) ==> headers::header_named(headers, name)
                == headers::header_text(values[key])
        }),
{
}

/// The head of a request is refused for its method, then for its path, then for a missing
/// timestamp, then for a missing signature, and for nothing else.
pub proof fn law_refusal(
    method: Seq<char>,
    path: Seq<char>,
    timestamp: Option<Seq<char>>,
    signature: Option<Seq<char>>,
)
    ensures
        ({
            let refused = server::refusal(method, path, timestamp, signature);
            &&& method != "POST"@ <==> refused == Some(RequestError::MethodNotAllowed)
            &&& method == "POST"@ && path != "/webhooks/airwallex"@ <==> refused == Some(
                RequestError::NotFound,
            )
            &&& method == "POST"@ && path == "/webhooks/airwallex"@ && timestamp is None
                <==> refused == Some(RequestError::MissingTimestamp)
            &&& method == "POST"@ && path == "/webhooks/airwallex"@ && timestamp is Some
                && signature is None <==> refused == Some(RequestError::MissingSignature)
            &&& method == "POST"@ && path == "/webhooks/airwallex"@ && timestamp is Some
                && signature is Some <==> refused is None
        }),
{
}

/// A payload counts as authenticated exactly where its signature writes the tag of its own
/// timestamp and its whole body.
pub proof fn law_authenticated_payload(payload: AuthenticatedPayload, secret: Seq<char>)
    ensures
        payload.authenticated_by(secret) <==> text::ascii_lowercase(
            text::trimmed(payload.signed_with()),
        ) == text::lower_hex(
            signature::hmac_sha256_tag(
                vstd::utf8::encode_utf8(secret),
                vstd::utf8::encode_utf8(payload.signed_at()) + payload.body()@,
            ),
        ),
{
}

/// The head of a delivery is refused unless it is a post to the webhook's path with both
/// signature headers, and the delivery is authentic exactly where it is not refused, its body
/// was read, and its signature writes the tag of its timestamp and its whole body.
pub proof fn law_authentic_delivery(delivery: Delivery, secret: Seq<char>)
    ensures
        delivery.refusal() is None <==> delivery.method == "POST"@ && delivery.path
            == "/webhooks/airwallex"@ && delivery.timestamp is Some && delivery.signature is Some,
        delivery.is_authentic(secret) <==> {
            &&& delivery.method == "POST"@
            &&& delivery.path == "/webhooks/airwallex"@
            &&& delivery.timestamp matches Some(timestamp)
            &&& delivery.signature matches Some(signed)
            &&& delivery.body matches Some(raw_body)
            &&& text::ascii_lowercase(text::trimmed(signed)) == text::lower_hex(
                signature::hmac_sha256_tag(
                    vstd::utf8::encode_utf8(secret),
                    vstd::utf8::encode_utf8(timestamp) + raw_body,
                ),
            )
        },
{
}

/// What was parsed and what was read is handed on as it is.
pub proof fn law_parsed_and_read(
    parsed: Result<AirwallexEventEnvelope, String>,
    read: Result<Vec<u8>, String>,
)
    ensures
        match parsed {
            Ok(envelope) => server::parsed_event(parsed) matches Some(event) && event
                == envelope@ && event.event_id == envelope.id@ && event.event_type
                == envelope.event_type@,
            Err(_) => server::parsed_event(parsed) is None,
        },
        match read {
            Ok(bytes) => server::read_bytes(read) == Some(bytes@),
            Err(_) => server::read_bytes(read) is None,
        },
{
}

/// The event of an authentic payload is offered to the recorder where the lock is held, and
/// not otherwise.
pub proof fn law_recorder_after(
    recorder: RecorderView,
    lock: RecorderLock,
    event: Option<EventView>,
)
    ensures
        event matches Some(e) ==> lock == RecorderLock::Held ==> server::recorder_after(
            recorder,
            lock,
            event,
        ) == recorder.offered(e),
        event is None || lock == RecorderLock::Poisoned ==> server::recorder_after(
            recorder,
            lock,
            event,
        ) == recorder,
{
}

/// What comes of an authentic payload: a malformed one is refused with the reason it was given,
/// an event without the lock is not recorded, and an event with it is answered by whether its
/// whole id was held.
pub proof fn law_handled(
    recorder: RecorderView,
    lock: RecorderLock,
    parsed: Result<AirwallexEventEnvelope, String>,
    result: Result<WebhookResponse, WebhookError>,
)
    requires
        server::handled(recorder, lock, parsed, result),
    ensures
        parsed matches Err(detail) ==> (result matches Err(WebhookError::MalformedPayload(why))
            && why@ == detail@),
        parsed is Ok && lock == RecorderLock::Poisoned ==> (result matches Err(
            WebhookError::Persistence(why),
        ) && why@ == "webhook recorder lock poisoned"@),
        parsed matches Ok(envelope) ==> lock == RecorderLock::Held ==> {
            &&& result matches Ok(answer)
            &&& answer.status == 200
            &&& answer.content_type@ == "text/plain; charset=utf-8"@
            &&& answer.body@ == (if exists|i: int|
                0 <= i < recorder.events.len() && (#[trigger] recorder.events[i]).event_id
                    == envelope.id@ {
                "duplicate"@
            } else {
                "recorded"@
            })
        },
{
    if let Ok(envelope) = parsed {
        law_offer(recorder, envelope@);
    }
}

/// A delivery is the request itself: its own method and path, the text of its two signature
/// headers, the body that was read, the event that was parsed and the lock.
pub proof fn law_delivery(
    method: Seq<char>,
    path: Seq<char>,
    headers: HeaderMap<HeaderValue>,
    body: Result<Vec<u8>, String>,
    event: Result<AirwallexEventEnvelope, String>,
    lock: RecorderLock,
)
    ensures
        ({
            let delivery = server::delivery_of(method, path, headers, body, event, lock);
            &&& delivery.method == method
            &&& delivery.path == path
            &&& delivery.timestamp == headers::header_named(headers, "x-timestamp"@)
            &&& delivery.signature == headers::header_named(headers, "x-signature"@)
            &&& body matches Ok(bytes) ==> delivery.body == Some(bytes@)
            &&& body is Err ==> delivery.body is None
            &&& event matches Ok(envelope) ==> delivery.event == Some(envelope@)
            &&& event is Err ==> delivery.event is None
            &&& delivery.lock == lock
        }),
{
}

/// The receiver checks signatures with the secret that it was configured with.
pub proof fn law_receiver_secret(receiver: AirwallexWebhookServer, config: AirwallexWebhookConfig)
    requires
        receiver.config() == config,
    ensures
        receiver.secret() == config.secret(),
{
}

} // verus!
