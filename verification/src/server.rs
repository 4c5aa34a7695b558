//! The webhook receiver. A request passes through it in steps: its head is admitted, its body
//! is authenticated, and the event that the body holds is recorded. Reading the body and
//! parsing the event are the caller's work between the steps.
use crate::config::{AirwallexWebhookConfig, ConfigError, SocketAddress};
use crate::event::{AirwallexEventEnvelope, EventView, RecordedWebhookEvent};
use crate::headers;
use crate::headers::read_header;
use crate::recorder::{BoundedWebhookRecorder, RecorderLock, RecorderView};
use crate::response;
use crate::response::{RequestError, ResponseView, WebhookError, WebhookResponse, STATUS_OK};
use crate::signature;
use crate::signature::verify_signature;
use crate::text;
use crate::text::same_text;
use hyper::header::{HeaderMap, HeaderValue};
use vstd::prelude::*;

verus! {

/// The header that holds the signature.
pub const AIRWALLEX_SIGNATURE_HEADER: &'static str = "x-signature";

/// The header that holds the timestamp.
pub const AIRWALLEX_TIMESTAMP_HEADER: &'static str = "x-timestamp";

/// The path that notifications are posted to.
pub const AIRWALLEX_WEBHOOK_PATH: &'static str = "/webhooks/airwallex";

/// How many events a receiver holds that is set up from the gateway's settings.
pub const DEFAULT_MAX_RECORDED_EVENTS: usize = 1024;

/// The headers of an admitted request that its signature is checked with.
#[derive(Debug)]
pub struct SignedHeaders {
    pub timestamp: String,
    pub signature: String,
}

/// Why a request with this head is refused, if it is: the method, the path and the two
/// signature headers are looked at in this order.
pub open spec fn refusal(
    method: Seq<char>,
    path: Seq<char>,
    timestamp: Option<Seq<char>>,
    signature: Option<Seq<char>>,
) -> Option<RequestError> {
    if method != "POST"@ {
        Some(RequestError::MethodNotAllowed)
    } else if path != "/webhooks/airwallex"@ {
        Some(RequestError::NotFound)
    } else if timestamp is None {
        Some(RequestError::MissingTimestamp)
    } else if signature is None {
        Some(RequestError::MissingSignature)
    } else {
        None
    }
}

/// Admits a notification by its method, its path and its signature headers.
pub fn admit_request(
    method: &str,
    path: &str,
    timestamp: Option<String>,
    signature: Option<String>,
) -> (result: Result<SignedHeaders, RequestError>)
    ensures
        match refusal(method@, path@, text::text_of(timestamp), text::text_of(signature)) {
            Some(error) => result == Err::<SignedHeaders, RequestError>(error),
            None => {
                &&& result is Ok
                &&& Some(result->Ok_0.timestamp@) == text::text_of(timestamp)
                &&& Some(result->Ok_0.signature@) == text::text_of(signature)
            },
        },
        method@ != "POST"@ ==> result == Err::<SignedHeaders, RequestError>(
            RequestError::MethodNotAllowed,
        ),
        method@ == "POST"@ && path@ != "/webhooks/airwallex"@ ==> result == Err::<
            SignedHeaders,
            RequestError,
        >(RequestError::NotFound),
        method@ == "POST"@ && path@ == "/webhooks/airwallex"@ ==> match (timestamp, signature) {
            (None, _) => result == Err::<SignedHeaders, RequestError>(
                RequestError::MissingTimestamp,
            ),
            (Some(_), None) => result == Err::<SignedHeaders, RequestError>(
                RequestError::MissingSignature,
            ),
            (Some(timestamp), Some(signature)) => {
                &&& result matches Ok(signed)
                &&& signed.timestamp@ == timestamp@
                &&& signed.signature@ == signature@
            },
        },
{
    if !same_text(method, "POST") {
        return Err(RequestError::MethodNotAllowed);
    }
    if !same_text(path, AIRWALLEX_WEBHOOK_PATH) {
        return Err(RequestError::NotFound);
    }
    let timestamp = match timestamp {
        Some(timestamp) => timestamp,
        None => {
            return Err(RequestError::MissingTimestamp);
        },
    };
    let signature = match signature {
        Some(signature) => signature,
        None => {
            return Err(RequestError::MissingSignature);
        },
    };
    Ok(SignedHeaders { timestamp, signature })
}

/// A payload whose signature was checked.
#[derive(Debug)]
pub struct AuthenticatedPayload {
    timestamp: String,
    signature: String,
    raw_body: Vec<u8>,
}

impl AuthenticatedPayload {
    /// The timestamp that was signed with the body.
    pub closed spec fn signed_at(self) -> Seq<char> {
        self.timestamp@
    }

    /// The signature as it was sent.
    pub closed spec fn signed_with(self) -> Seq<char> {
        self.signature@
    }

    /// The body as it was sent.
    pub closed spec fn body(self) -> Vec<u8> {
        self.raw_body
    }

    /// Whether the payload was signed with `secret`.
    pub open spec fn authenticated_by(self, secret: Seq<char>) -> bool {
        signature::is_authentic(secret, self.signed_at(), self.body()@, self.signed_with())
    }

    /// The body as it was sent.
    pub fn raw_body(&self) -> (bytes: &Vec<u8>)
        ensures
            *bytes == self.body(),
    {
        &self.raw_body
    }
}

/// What is recorded once the event of an authentic payload was handled; `None` stands for a
/// payload that is no event.
pub open spec fn recorder_after(
    recorder: RecorderView,
    lock: RecorderLock,
    event: Option<EventView>,
) -> RecorderView {
    match event {
        Some(event) => if lock == RecorderLock::Held {
            recorder.offered(event)
        } else {
            recorder
        },
        None => recorder,
    }
}

/// Whether `result` is what comes of the event of an authentic payload: a payload that is no
/// event is malformed, an event is not recorded without the lock, and otherwise the answer
/// tells the outcome.
pub open spec fn handled(
    recorder: RecorderView,
    lock: RecorderLock,
    event: Result<AirwallexEventEnvelope, String>,
    result: Result<WebhookResponse, WebhookError>,
) -> bool {
    match event {
        Err(detail) => result == Err::<WebhookResponse, WebhookError>(
            WebhookError::MalformedPayload(detail),
        ),
        Ok(event) => match lock {
            RecorderLock::Poisoned => result matches Err(WebhookError::Persistence(detail))
                && detail@ == "webhook recorder lock poisoned"@,
            RecorderLock::Held => result matches Ok(answer)
                && answer@ == response::plain_text(200, recorder.outcome(event@).word()),
        },
    }
}

/// The event that was parsed, if one was.
pub open spec fn parsed_event(event: Result<AirwallexEventEnvelope, String>) -> Option<EventView> {
    match event {
        Ok(event) => Some(event@),
        Err(_) => None,
    }
}

/// One request as the receiver meets it.
pub struct Delivery {
    pub method: Seq<char>,
    pub path: Seq<char>,
    /// The text of the timestamp header.
    pub timestamp: Option<Seq<char>>,
    /// The text of the signature header.
    pub signature: Option<Seq<char>>,
    /// The body, unless it could not be read.
    pub body: Option<Seq<u8>>,
    /// The event in the body, unless it holds none.
    pub event: Option<EventView>,
    /// What came of taking the lock on the receiver.
    pub lock: RecorderLock,
}

impl Delivery {
    /// Why the head of the request is refused, if it is.
    pub open spec fn refusal(self) -> Option<RequestError> {
        refusal(self.method, self.path, self.timestamp, self.signature)
    }

    /// Whether the request is a notification that the holder of `secret` signed.
    pub open spec fn is_authentic(self, secret: Seq<char>) -> bool {
        &&& self.refusal() is None
        &&& self.body is Some
        &&& signature::is_authentic(
            secret,
            self.timestamp->Some_0,
            self.body->Some_0,
            self.signature->Some_0,
        )
    }

    /// What a receiver with this secret and these events answers.
    pub open spec fn answer(self, secret: Seq<char>, recorder: RecorderView) -> ResponseView {
        match self.refusal() {
            Some(error) => error.answer(),
            None => if self.body is None {
                response::plain_text(400, "failed to read request body"@)
            } else if !self.is_authentic(secret) {
                response::plain_text(401, "invalid signature"@)
            } else if self.event is None {
                response::plain_text(400, "malformed payload"@)
            } else if self.lock == RecorderLock::Poisoned {
                response::plain_text(500, "failed to record webhook"@)
            } else {
                response::plain_text(200, recorder.outcome(self.event->Some_0).word())
            },
        }
    }

    /// What the receiver holds afterwards.
    pub open spec fn recorder_after(
        self,
        secret: Seq<char>,
        recorder: RecorderView,
    ) -> RecorderView {
        if self.is_authentic(secret) {
            recorder_after(recorder, self.lock, self.event)
        } else {
            recorder
        }
    }
}

/// The body that was read, if one was.
pub open spec fn read_bytes(body: Result<Vec<u8>, String>) -> Option<Seq<u8>> {
    match body {
        Ok(bytes) => Some(bytes@),
        Err(_) => None,
    }
}

/// A request with this head, from which this body was read and this event was parsed.
pub open spec fn delivery_of(
    method: Seq<char>,
    path: Seq<char>,
    headers: HeaderMap<HeaderValue>,
    body: Result<Vec<u8>, String>,
    event: Result<AirwallexEventEnvelope, String>,
    lock: RecorderLock,
) -> Delivery {
    Delivery {
        method,
        path,
        timestamp: headers::header_named(headers, "x-timestamp"@),
        signature: headers::header_named(headers, "x-signature"@),
        body: read_bytes(body),
        event: parsed_event(event),
        lock,
    }
}

/// Receives Airwallex notifications and records those that are authentic.
pub struct AirwallexWebhookServer {
    config: AirwallexWebhookConfig,
    recorder: BoundedWebhookRecorder,
}

impl AirwallexWebhookServer {
    /// The settings.
    pub closed spec fn config(self) -> AirwallexWebhookConfig {
        self.config
    }

    /// The secret that notifications are signed with.
    pub open spec fn secret(self) -> Seq<char> {
        self.config().secret()
    }

    /// What is recorded.
    pub closed spec fn recorder(self) -> RecorderView {
        self.recorder@
    }

    /// The recorder is consistent.
    pub closed spec fn wf(self) -> bool {
        self.recorder.wf()
    }

    /// Makes a receiver that holds up to `max_recorded_events` events, but at least one.
    pub fn new(config: AirwallexWebhookConfig, max_recorded_events: usize) -> (server: Self)
        ensures
            server.wf(),
            server.config() == config,
            server.recorder().capacity == (if max_recorded_events == 0 {
                1
            } else {
                max_recorded_events as nat
            }),
            server.recorder().events == Seq::<EventView>::empty(),
            server.secret() == config.secret(),
    {
        AirwallexWebhookServer {
            config,
            recorder: BoundedWebhookRecorder::new(max_recorded_events),
        }
    }

    /// Makes a receiver from the gateway's settings, under the rules of
    /// [`AirwallexWebhookConfig::from_settings`].
    pub fn from_settings(
        bind_address: Result<SocketAddress, String>,
        webhook_secret: Option<String>,
    ) -> (result: Result<Self, ConfigError>)
        ensures
            bind_address matches Err(detail) ==> result == Err::<Self, ConfigError>(
                ConfigError::InvalidBindAddress(detail),
            ),
            bind_address is Ok && (webhook_secret matches Some(secret) ==> text::is_blank(
                secret@,
            )) ==> result == Err::<Self, ConfigError>(ConfigError::MissingWebhookSecret),
            bind_address matches Ok(address) ==> webhook_secret matches Some(secret)
                ==> !text::is_blank(secret@) ==> {
                &&& result matches Ok(server)
                &&& server.wf()
                &&& server.config().address() == address
                &&& server.secret() == secret@
                &&& server.recorder().capacity == 1024
                &&& server.recorder().events == Seq::<EventView>::empty()
            },
            result is Ok <==> bind_address is Ok && webhook_secret is Some && exists|i: int|
                0 <= i < webhook_secret->Some_0@.len() && !text::is_white_space(
                    #[trigger] webhook_secret->Some_0@[i],
                ),
    {
        match AirwallexWebhookConfig::from_settings(bind_address, webhook_secret) {
            Ok(config) => Ok(AirwallexWebhookServer::new(config, DEFAULT_MAX_RECORDED_EVENTS)),
            Err(error) => Err(error),
        }
    }

    /// The address to listen on.
    pub fn bind_address(&self) -> (address: SocketAddress)
        ensures
            address == self.config().address(),
    {
        self.config.bind_address()
    }

    /// Looks at the head of a request: a notification is posted to the webhook's path, and
    /// its timestamp and its signature come as headers. The caller reads the body of a request
    /// that is admitted.
    pub fn handle_request(
        method: &str,
        path: &str,
        headers: &HeaderMap<HeaderValue>,
    ) -> (result: Result<SignedHeaders, RequestError>)
        ensures
            ({
                let timestamp = headers::header_named(*headers, "x-timestamp"@);
                let signature = headers::header_named(*headers, "x-signature"@);
                match refusal(method@, path@, timestamp, signature) {
                    Some(error) => result == Err::<SignedHeaders, RequestError>(error),
                    None => {
                        &&& result is Ok
                        &&& Some(result->Ok_0.timestamp@) == timestamp
                        &&& Some(result->Ok_0.signature@) == signature
                    },
                }
            }),
            method@ != "POST"@ ==> result == Err::<SignedHeaders, RequestError>(
                RequestError::MethodNotAllowed,
            ),
            method@ == "POST"@ && path@ != "/webhooks/airwallex"@ ==> result == Err::<
                SignedHeaders,
                RequestError,
            >(RequestError::NotFound),
            result matches Ok(signed) ==> method@ == "POST"@ && path@ == "/webhooks/airwallex"@
                && headers::header_named(*headers, "x-timestamp"@) == Some(signed.timestamp@)
                && headers::header_named(*headers, "x-signature"@) == Some(signed.signature@),
            method@ == "POST"@ && path@ == "/webhooks/airwallex"@ && result is Err ==> (
            headers::header_named(*headers, "x-timestamp"@) is None && result->Err_0
                == RequestError::MissingTimestamp) || (headers::header_named(
                *headers,
                "x-timestamp"@,
            ) is Some && headers::header_named(*headers, "x-signature"@) is None
                && result->Err_0 == RequestError::MissingSignature),
    {
        let timestamp = read_header(headers, AIRWALLEX_TIMESTAMP_HEADER);
        let signature = read_header(headers, AIRWALLEX_SIGNATURE_HEADER);
        admit_request(method, path, timestamp, signature)
    }

    /// Checks the signature of an admitted request over its body. The caller parses the event
    /// in a payload that is authentic.
    pub fn authenticate(&self, headers: SignedHeaders, raw_body: Vec<u8>) -> (result: Result<
        AuthenticatedPayload,
        WebhookError,
    >)
        ensures
            ({
                let authentic = signature::is_authentic(
                    self.secret(),
                    headers.timestamp@,
                    raw_body@,
                    headers.signature@,
                );
                if authentic {
                    &&& result is Ok
                    &&& result->Ok_0.authenticated_by(self.secret())
                    &&& result->Ok_0.signed_at() == headers.timestamp@
                    &&& result->Ok_0.signed_with() == headers.signature@
                    &&& result->Ok_0.body() == raw_body
                } else {
                    result == Err::<AuthenticatedPayload, WebhookError>(
                        WebhookError::InvalidSignature,
                    )
                }
            }),
            result is Ok <==> text::ascii_lowercase(text::trimmed(headers.signature@))
                == text::lower_hex(
                signature::hmac_sha256_tag(
                    vstd::utf8::encode_utf8(self.config().secret()),
                    vstd::utf8::encode_utf8(headers.timestamp@) + raw_body@,
                ),
            ),
    {
        match verify_signature(
            self.config.webhook_secret(),
            headers.timestamp.as_str(),
            raw_body.as_slice(),
            headers.signature.as_str(),
        ) {
            Ok(()) => Ok(
                AuthenticatedPayload {
                    timestamp: headers.timestamp,
                    signature: headers.signature,
                    raw_body,
                },
            ),
            Err(error) => Err(error),
        }
    }

    /// Records the event of an authentic payload and answers with the outcome. `event` is what
    /// was parsed out of the payload, or why it is no event; `lock` is what came of taking the
    /// lock on the receiver.
    pub fn record_event(
        &mut self,
        lock: RecorderLock,
        payload: AuthenticatedPayload,
        event: Result<AirwallexEventEnvelope, String>,
    ) -> (result: Result<WebhookResponse, WebhookError>)
        requires
            lock == RecorderLock::Held ==> old(self).wf(),
            payload.authenticated_by(old(self).secret()),
        ensures
            old(self).wf() ==> final(self).wf(),
            final(self).config() == old(self).config(),
            final(self).recorder() == recorder_after(
                old(self).recorder(),
                lock,
                parsed_event(event),
            ),
            handled(old(self).recorder(), lock, event, result),
            event matches Err(detail) ==> final(self).recorder() == old(self).recorder()
                && result == Err::<WebhookResponse, WebhookError>(
                WebhookError::MalformedPayload(detail),
            ),
            event is Ok && lock == RecorderLock::Poisoned ==> final(self).recorder() == old(
                self,
            ).recorder() && (result matches Err(WebhookError::Persistence(detail)) && detail@
                == "webhook recorder lock poisoned"@),
            event matches Ok(given) ==> lock == RecorderLock::Held ==> {
                let before = old(self).recorder();
                let after = final(self).recorder();
                let held = exists|i: int|
                    0 <= i < before.events.len() && (#[trigger] before.events[i]).event_id
                        == given.id@;
                &&& after == before.offered(given@)
                &&& result matches Ok(answer)
                &&& answer.status == 200
                &&& answer.content_type@ == "text/plain; charset=utf-8"@
                &&& answer.body@ == before.outcome(given@).word()
                &&& held ==> answer.body@ == "duplicate"@ && after == before
                &&& !held ==> {
                    &&& answer.body@ == "recorded"@
                    &&& after.capacity == before.capacity
                    &&& after.events.len() > 0
                    &&& after.events.last().event_id == given.id@
                    &&& after.events.last().event_type == given.event_type@
                    &&& after.events.last() == given@
                }
            },
    {
        let event = match event {
            Ok(event) => event,
            Err(detail) => {
                return Err(WebhookError::MalformedPayload(detail));
            },
        };
        match self.recorder.record(lock, event) {
            Ok(outcome) => Ok(response::response(STATUS_OK, outcome.as_str())),
            Err(error) => Err(error),
        }
    }

    /// Handles the body of an admitted request: checks its signature, parses the event with
    /// `parse`, which is not called on a body that is not authentic, and records the event.
    pub fn handle_signed_payload<P: FnOnce(&Vec<u8>) -> Result<AirwallexEventEnvelope, String>>(
        &mut self,
        lock: RecorderLock,
        headers: SignedHeaders,
        raw_body: Vec<u8>,
        parse: P,
    ) -> (result: Result<WebhookResponse, WebhookError>)
        requires
            lock == RecorderLock::Held ==> old(self).wf(),
            signature::is_authentic(
                old(self).secret(),
                headers.timestamp@,
                raw_body@,
                headers.signature@,
            ) ==> call_requires(parse, (&raw_body,)),
        ensures
            old(self).wf() ==> final(self).wf(),
            final(self).config() == old(self).config(),
            ({
                let authentic = signature::is_authentic(
                    old(self).secret(),
                    headers.timestamp@,
                    raw_body@,
                    headers.signature@,
                );
                if authentic {
                    exists|event: Result<AirwallexEventEnvelope, String>|
                        {
                            &&& #[trigger] call_ensures(parse, (&raw_body,), event)
                            &&& handled(old(self).recorder(), lock, event, result)
                            &&& final(self).recorder() == recorder_after(
                                old(self).recorder(),
                                lock,
                                parsed_event(event),
                            )
                        }
                } else {
                    &&& result == Err::<WebhookResponse, WebhookError>(
                        WebhookError::InvalidSignature,
                    )
                    &&& *final(self) == *old(self)
                }
            }),
    {
        match self.authenticate(headers, raw_body) {
            Ok(payload) => {
                let event = parse(payload.raw_body());
                self.record_event(lock, payload, event)
            },
            Err(error) => Err(error),
        }
    }

    /// Handles a request from its head to its answer. `read_body` is called on a request that
    /// is admitted, and `parse` on a body that is authentic.
    pub fn handle_delivery<
        B: FnOnce() -> Result<Vec<u8>, String>,
        P: FnOnce(&Vec<u8>) -> Result<AirwallexEventEnvelope, String>,
    >(
        &mut self,
        lock: RecorderLock,
        method: &str,
        path: &str,
        headers: &HeaderMap<HeaderValue>,
        read_body: B,
        parse: P,
    ) -> (answer: WebhookResponse)
        requires
            lock == RecorderLock::Held ==> old(self).wf(),
            refusal(
                method@,
                path@,
                headers::header_named(*headers, "x-timestamp"@),
                headers::header_named(*headers, "x-signature"@),
            ) is None ==> call_requires(read_body, ()),
            forall|bytes: Vec<u8>|
                signature::is_authentic(
                    old(self).secret(),
                    headers::header_named(*headers, "x-timestamp"@)->Some_0,
                    bytes@,
                    headers::header_named(*headers, "x-signature"@)->Some_0,
                ) ==> #[trigger] call_requires(parse, (&bytes,)),
        ensures
            old(self).wf() ==> final(self).wf(),
            final(self).config() == old(self).config(),
            exists|
                body: Result<Vec<u8>, String>,
                event: Result<AirwallexEventEnvelope, String>,
            |
                {
                    let delivery = #[trigger] delivery_of(
                        method@,
                        path@,
                        *headers,
                        body,
                        event,
                        lock,
                    );
                    let secret = old(self).secret();
                    &&& delivery.refusal() is None ==> call_ensures(read_body, (), body)
                    &&& delivery.is_authentic(secret) ==> call_ensures(
                        parse,
                        (&body->Ok_0,),
                        event,
                    )
                    &&& answer@ == delivery.answer(secret, old(self).recorder())
                    &&& final(self).recorder() == delivery.recorder_after(
                        secret,
                        old(self).recorder(),
                    )
                },
            method@ != "POST"@ ==> answer.status == 405 && answer.body@ == "method not allowed"@
                && final(self).recorder() == old(self).recorder(),
            method@ == "POST"@ && path@ != "/webhooks/airwallex"@ ==> answer.status == 404
                && answer.body@ == "not found"@ && final(self).recorder() == old(self).recorder(),
            answer.content_type@ == "text/plain; charset=utf-8"@,
    {
        let ghost before = *self;
        let ghost no_event: Result<AirwallexEventEnvelope, String> = arbitrary();
        let signed = match Self::handle_request(method, path, headers) {
            Ok(signed) => signed,
            Err(error) => {
                let ghost no_body: Result<Vec<u8>, String> = arbitrary();
                assert(delivery_of(
                    method@,
                    path@,
                    *headers,
                    no_body,
                    no_event,
                    lock,
                ).refusal() == Some(error));
                return error.into_response();
            },
        };
        let body = read_body();
        let ghost delivered = body;
        let raw_body = match body {
            Ok(raw_body) => raw_body,
            Err(detail) => {
                assert(delivery_of(
                    method@,
                    path@,
                    *headers,
                    delivered,
                    no_event,
                    lock,
                ).body is None);
                return RequestError::BodyReadFailed(detail).into_response();
            },
        };
        let result = self.handle_signed_payload(lock, signed, raw_body, parse);
        proof {
            let unparsed = delivery_of(method@, path@, *headers, delivered, no_event, lock);
            if unparsed.is_authentic(before.secret()) {
                let event = choose|event: Result<AirwallexEventEnvelope, String>|
                    {
                        &&& #[trigger] call_ensures(parse, (&raw_body,), event)
                        &&& handled(before.recorder(), lock, event, result)
                        &&& self.recorder() == recorder_after(
                            before.recorder(),
                            lock,
                            parsed_event(event),
                        )
                    };
                assert(delivery_of(
                    method@,
                    path@,
                    *headers,
                    delivered,
                    event,
                    lock,
                ).is_authentic(before.secret()));
            }
        }
        match result {
            Ok(answer) => answer,
            Err(error) => error.into_response(),
        }
    }

    /// Handles a request whose body was read, or could not be, and whose event was parsed out
    /// of the body, or could not be, beforehand.
    pub fn handle_parsed_delivery(
        &mut self,
        lock: RecorderLock,
        method: &str,
        path: &str,
        headers: &HeaderMap<HeaderValue>,
        body: Result<Vec<u8>, String>,
        event: Result<AirwallexEventEnvelope, String>,
    ) -> (answer: WebhookResponse)
        requires
            lock == RecorderLock::Held ==> old(self).wf(),
        ensures
            old(self).wf() ==> final(self).wf(),
            final(self).config() == old(self).config(),
            answer@ == delivery_of(method@, path@, *headers, body, event, lock).answer(
                old(self).secret(),
                old(self).recorder(),
            ),
            final(self).recorder() == delivery_of(
                method@,
                path@,
                *headers,
                body,
                event,
                lock,
            ).recorder_after(old(self).secret(), old(self).recorder()),
            method@ != "POST"@ ==> answer.status == 405 && answer.body@ == "method not allowed"@
                && final(self).recorder() == old(self).recorder(),
            method@ == "POST"@ && path@ != "/webhooks/airwallex"@ ==> answer.status == 404
                && answer.body@ == "not found"@ && final(self).recorder() == old(self).recorder(),
            answer.content_type@ == "text/plain; charset=utf-8"@,
    {
        let read_body = move || -> (read: Result<Vec<u8>, String>)
            ensures
                read == body,
            { body };
        let parse = move |_bytes: &Vec<u8>| -> (parsed: Result<AirwallexEventEnvelope, String>)
            ensures
                parsed == event,
            { event };
        self.handle_delivery(lock, method, path, headers, read_body, parse)
    }

    /// The recorded events, the oldest first.
    pub fn recorded_events(&self) -> (events: Vec<RecordedWebhookEvent>)
        ensures
            events@.map_values(|event: RecordedWebhookEvent| event@) == self.recorder().events,
            events@.len() == self.recorder().events.len(),
            forall|i: int|
                0 <= i < events@.len() ==> (#[trigger] events@[i]).event_id@
                    == self.recorder().events[i].event_id && events@[i]@
                    == self.recorder().events[i],
    {
        self.recorder.recorded_events()
    }
}

/// A receiver holds no event id twice and no more events than its capacity, which is not zero.
pub proof fn law_server_is_valid(server: AirwallexWebhookServer)
    requires
        server.wf(),
    ensures
        server.recorder().valid(),
        server.recorder().capacity >= 1,
        server.recorder().events.len() <= server.recorder().capacity,
        forall|i: int, j: int|
            0 <= i < j < server.recorder().events.len() ==> (
            #[trigger] server.recorder().events[i]).event_id != (
            #[trigger] server.recorder().events[j]).event_id,
{
    crate::recorder::law_recorder_is_valid(server.recorder);
}

} // verus!
