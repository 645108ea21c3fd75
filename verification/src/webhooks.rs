//! The webhook gateway: authenticating a pushed notification against the
//! shared secret, and deciding what becomes of it.
//!
//! The gateway is a pipeline of three decisions. [`verify_request_body`]
//! authenticates what was read from the wire, [`handle_invoice`] turns the
//! authenticated body into an event for the application, and [`conclude`]
//! answers the sender once the event was handed over or given up. Reading the
//! request, parsing JSON and the channel to the application are the caller's.

use vstd::prelude::*;

use vstd::string::StringExecFns;

use crate::hex;
use crate::signature::{fits_hmac, hmac_sha256, signature_valid, verify_hmac};
use crate::{is_call_to, ApiRequest, Error, Method, Strike};

verus! {

/// Name of the request header that carries the hexadecimal HMAC-SHA256 tag.
pub const SIGNATURE_HEADER: &'static str = "X-Webhook-Signature";

/// Largest body, in bytes, that a gateway accepts unless told otherwise.
pub const DEFAULT_MAX_BODY_SIZE: usize = 1_048_576;

/// Longest wait, in milliseconds, for room in the channel to the application
/// unless told otherwise.
pub const DEFAULT_SEND_TIMEOUT_MS: u64 = 5_000;

/// What a gateway needs to know to judge a request.
#[derive(Debug, Clone, PartialEq, Eq)]
pub struct WebhookState {
    /// Webhook secret
    pub webhook_secret: String,
    /// Largest accepted body, in bytes
    pub max_body_size: usize,
    /// Longest wait for the application to take an event, in milliseconds
    pub send_timeout_ms: u64,
}

/// Webhook data
#[derive(Debug, Clone, Hash, PartialEq, Eq)]
pub struct WebhookRequest {
    /// Webhook url
    pub webhook_url: String,
    /// Webhook version
    pub webhook_version: String,
    /// Secret
    pub secret: String,
    /// Enabled
    pub enabled: bool,
    /// Event Types
    pub event_types: Vec<String>,
}

/// Webhook response
#[derive(Debug, Clone, Hash, PartialEq, Eq)]
pub struct WebhookInfoResponse {
    /// Webhook id
    pub id: String,
    /// Webhook url
    pub webhook_url: String,
    /// Webhook Version
    pub webhook_version: String,
    /// Enabled
    pub enabled: bool,
    /// Event types
    pub event_types: Vec<String>,
}

/// Webhook data
#[derive(Debug, Clone, Hash, PartialEq, Eq)]
pub struct WebHookData {
    /// Entity Id
    pub entity_id: String,
    /// Changes
    pub changes: Vec<String>,
}

/// The envelope that the service posts to describe one event.
#[derive(Debug, Clone, Hash, PartialEq, Eq)]
pub struct WebHookResponse {
    /// Webhook id
    pub id: String,
    /// Event type
    pub event_type: String,
    /// Webhook version
    pub webhook_version: String,
    /// Webhook data
    pub data: WebHookData,
    /// Created
    pub created: String,
    /// Delivery Success
    pub delivery_success: Option<bool>,
}

/// Why a request was turned away.
#[derive(Debug, Clone, Copy, PartialEq, Eq, Structural)]
pub enum RejectReason {
    /// The request has no signature header.
    MissingSignatureHeader,
    /// The signature header is not hexadecimal text.
    MalformedSignatureHeader,
    /// The signature is not the tag of the body under the shared secret.
    SignatureMismatch,
    /// The body could not be read to its end, or is not an event envelope.
    UnreadableBody,
    /// The body is larger than the gateway accepts.
    BodyTooLarge,
}

/// The kind of failure a rejection is, which decides how it is answered.
#[derive(Debug, Clone, Copy, PartialEq, Eq, Structural)]
pub enum FailureClass {
    /// The sender did not prove that it holds the secret.
    Auth,
    /// The sender is authentic but what it sent is not an event.
    Protocol,
    /// The request asks for more than the gateway is willing to spend.
    Resource,
}

/// What the reading of a request body came to.
#[derive(Debug, Clone, PartialEq, Eq)]
pub enum ReceivedBody {
    /// Every byte of the body, as it came over the wire.
    Complete(Vec<u8>),
    /// Reading stopped because the body went beyond the accepted size.
    TooLarge,
    /// Reading stopped before the end of the body, as when the sender hangs up.
    Interrupted,
}

/// A request body whose signature was found valid. Only
/// [`verify_request_body`] makes one, so holding one is the proof that the
/// bytes are authentic.
#[derive(Debug)]
pub struct VerifiedBody {
    bytes: Vec<u8>,
}

/// Result of authenticating a request.
#[derive(Debug)]
pub enum VerificationOutcome {
    /// The signature is valid; the body is handed on untouched.
    Verified(VerifiedBody),
    /// The request is turned away.
    Rejected(RejectReason),
}

/// What the gateway does with an authenticated request.
#[derive(Debug, Clone, PartialEq, Eq)]
pub enum Dispatch {
    /// Hand `entity_id` to the application, waiting at most `timeout_ms`
    /// milliseconds for room in the channel.
    Forward { entity_id: String, timeout_ms: u64 },
    /// Answer with the status of the reason; nothing is handed on.
    Refuse(RejectReason),
}

/// What became of an event that was to be handed to the application.
#[derive(Debug, Clone, Copy, PartialEq, Eq, Structural)]
pub enum Delivery {
    /// The channel took the event.
    Enqueued,
    /// The channel had no room within the allowed wait.
    TimedOut,
    /// The application no longer listens.
    Closed,
}

/// The answer to the sender of a request.
#[derive(Debug, Clone, Copy, PartialEq, Eq, Structural)]
pub struct Reply {
    /// HTTP status code
    pub status: u16,
    /// An authentic event was given up and must be logged as dropped
    pub dropped: bool,
}

/// The class of failure that `reason` belongs to.
pub open spec fn class_of(reason: RejectReason) -> FailureClass {
    match reason {
        RejectReason::MissingSignatureHeader => FailureClass::Auth,
        RejectReason::MalformedSignatureHeader => FailureClass::Auth,
        RejectReason::SignatureMismatch => FailureClass::Auth,
        RejectReason::UnreadableBody => FailureClass::Protocol,
        RejectReason::BodyTooLarge => FailureClass::Resource,
    }
}

/// The HTTP status that answers a failure of `class`.
pub open spec fn status_of(class: FailureClass) -> u16 {
    match class {
        FailureClass::Auth => 401,
        FailureClass::Protocol => 422,
        FailureClass::Resource => 413,
    }
}

/// The bytes of the shared secret, which key the HMAC.
pub open spec fn secret_bytes(state: WebhookState) -> Seq<u8> {
    vstd::utf8::encode_utf8(state.webhook_secret@)
}

/// What a signature header says of a body: `None` when it is the hexadecimal
/// tag of exactly these bytes under `secret`, else why it is not.
pub open spec fn signature_rejection(signature: Seq<u8>, body: Seq<u8>, secret: Seq<u8>) -> Option<
    RejectReason,
> {
    if !hex::is_hex(signature) {
        Some(RejectReason::MalformedSignatureHeader)
    } else if !signature_valid(body, secret, hex::decoded(signature)) {
        Some(RejectReason::SignatureMismatch)
    } else {
        None
    }
}

/// The gateway's verdict on a request: `None` when it is authentic, else the
/// one reason for which it is turned away. The body is judged first, then the
/// presence of the header, then its form, then the tag.
pub open spec fn rejection(
    state: WebhookState,
    signature: Option<Seq<u8>>,
    body: ReceivedBody,
) -> Option<RejectReason> {
    match body {
        ReceivedBody::TooLarge => Some(RejectReason::BodyTooLarge),
        ReceivedBody::Interrupted => Some(RejectReason::UnreadableBody),
        ReceivedBody::Complete(bytes) => if bytes@.len() > state.max_body_size {
            Some(RejectReason::BodyTooLarge)
        } else {
            match signature {
                None => Some(RejectReason::MissingSignatureHeader),
                Some(text) => signature_rejection(text, bytes@, secret_bytes(state)),
            }
        },
    }
}

impl RejectReason {
    /// The kind of failure this is.
    pub fn class(&self) -> (class: FailureClass)
        ensures
            class == class_of(*self),
    {
        match self {
            RejectReason::MissingSignatureHeader => FailureClass::Auth,
            RejectReason::MalformedSignatureHeader => FailureClass::Auth,
            RejectReason::SignatureMismatch => FailureClass::Auth,
            RejectReason::UnreadableBody => FailureClass::Protocol,
            RejectReason::BodyTooLarge => FailureClass::Resource,
        }
    }

    /// The HTTP status that answers a request turned away for this reason.
    /// Every authentication failure has the same one, so that the answer does
    /// not tell which check failed.
    pub fn status(&self) -> (status: u16)
        ensures
            status == status_of(class_of(*self)),
    {
        match self.class() {
            FailureClass::Auth => 401,
            FailureClass::Protocol => 422,
            FailureClass::Resource => 413,
        }
    }
}

/// The value of the signature header as the bytes it holds.
pub open spec fn header_text(signature: Option<&[u8]>) -> Option<Seq<u8>> {
    match signature {
        Some(text) => Some(text@),
        None => None,
    }
}

impl VerificationOutcome {
    /// What is held against the request: nothing when it was verified.
    pub open spec fn verdict(&self) -> Option<RejectReason> {
        match self {
            VerificationOutcome::Verified(_) => None,
            VerificationOutcome::Rejected(reason) => Some(*reason),
        }
    }
}

impl VerifiedBody {
    /// The authenticated bytes.
    pub closed spec fn view(&self) -> Seq<u8> {
        self.bytes@
    }

    /// The authenticated bytes, for the parser.
    pub fn as_bytes(&self) -> (bytes: &[u8])
        ensures
            bytes@ == self@,
    {
        self.bytes.as_slice()
    }
}

impl WebhookState {
    /// A gateway for `webhook_secret` with the default limits.
    pub fn new(webhook_secret: String) -> (state: WebhookState)
        ensures
            state.webhook_secret == webhook_secret,
            state.max_body_size == DEFAULT_MAX_BODY_SIZE,
            state.send_timeout_ms == DEFAULT_SEND_TIMEOUT_MS,
    {
        WebhookState {
            webhook_secret,
            max_body_size: DEFAULT_MAX_BODY_SIZE,
            send_timeout_ms: DEFAULT_SEND_TIMEOUT_MS,
        }
    }
}

/// Checks a hexadecimal signature against the body it came with.
pub fn verify_request_signature(request_signature: &[u8], body: &[u8], secret: &[u8]) -> (result:
    Result<(), RejectReason>)
    ensures
        match result {
            Ok(()) => signature_rejection(request_signature@, body@, secret@) is None,
            Err(reason) => signature_rejection(request_signature@, body@, secret@) == Some(reason),
        },
{
    match hex::decode(request_signature) {
        Err(_) => Err(RejectReason::MalformedSignatureHeader),
        Ok(tag) => {
            if verify_hmac(body, secret, tag.as_slice()) {
                Ok(())
            } else {
                Err(RejectReason::SignatureMismatch)
            }
        },
    }
}

/// Authenticates a request from what was read of it: the value of its
/// signature header, if it has one, and its body. The tag is checked against
/// the bytes of the body as they are; on success they are handed on unchanged.
pub fn verify_request_body(
    state: &WebhookState,
    signature: Option<&[u8]>,
    body: ReceivedBody,
) -> (outcome: VerificationOutcome)
    ensures
        outcome.verdict() == rejection(*state, header_text(signature), body),
        outcome matches VerificationOutcome::Verified(verified) ==> {
            &&& body matches ReceivedBody::Complete(bytes)
            &&& verified@ == bytes@
        },
{
    let bytes = match body {
        ReceivedBody::TooLarge => {
            return VerificationOutcome::Rejected(RejectReason::BodyTooLarge);
        },
        ReceivedBody::Interrupted => {
            return VerificationOutcome::Rejected(RejectReason::UnreadableBody);
        },
        ReceivedBody::Complete(bytes) => bytes,
    };
    if bytes.len() > state.max_body_size {
        return VerificationOutcome::Rejected(RejectReason::BodyTooLarge);
    }
    let text = match signature {
        None => {
            return VerificationOutcome::Rejected(RejectReason::MissingSignatureHeader);
        },
        Some(text) => text,
    };
    let secret = state.webhook_secret.as_str().as_bytes();
    match verify_request_signature(text, bytes.as_slice(), secret) {
        Ok(()) => VerificationOutcome::Verified(VerifiedBody { bytes }),
        Err(reason) => VerificationOutcome::Rejected(reason),
    }
}

/// Reference to the webhook subscriptions of an account.
pub const SUBSCRIPTIONS: &'static str = "/v1/subscriptions";

/// Reference to the directory in which each subscription stands under its id.
pub const SUBSCRIPTION_DIRECTORY: &'static str = "/v1/subscriptions/";

/// Version of the webhook protocol that the gateway speaks.
pub const WEBHOOK_VERSION: &'static str = "v1";

/// The kind of event that the gateway subscribes to.
pub const INVOICE_UPDATED: &'static str = "invoice.updated";

/// Reference to the subscription `webhook_id`.
pub open spec fn subscription_reference(webhook_id: Seq<char>) -> Seq<char> {
    SUBSCRIPTION_DIRECTORY@ + webhook_id
}

/// `subscription` asks the service to post invoice updates to `webhook_url`,
/// signed with `secret`, from now on.
pub open spec fn is_invoice_subscription(
    subscription: WebhookRequest,
    webhook_url: Seq<char>,
    secret: Seq<char>,
) -> bool {
    &&& subscription.webhook_url@ == webhook_url
    &&& subscription.webhook_version@ == WEBHOOK_VERSION@
    &&& subscription.secret@ == secret
    &&& subscription.enabled
    &&& subscription.event_types@.len() == 1
    &&& subscription.event_types@[0]@ == INVOICE_UPDATED@
}

impl Strike {
    /// The gateway for the notifications that the service signs with this
    /// client's secret, with the default limits.
    pub fn webhook_state(&self) -> (state: WebhookState)
        ensures
            state.webhook_secret@ == self.webhook_secret@,
            state.max_body_size == DEFAULT_MAX_BODY_SIZE,
            state.send_timeout_ms == DEFAULT_SEND_TIMEOUT_MS,
    {
        WebhookState::new(self.webhook_secret.clone())
    }

    /// The subscription to invoice updates for a gateway at `webhook_url`; it
    /// hands the service this client's secret to sign with.
    pub fn invoice_subscription(&self, webhook_url: String) -> (subscription: WebhookRequest)
        ensures
            is_invoice_subscription(subscription, webhook_url@, self.webhook_secret@),
    {
        let mut event_types: Vec<String> = Vec::new();
        event_types.push(INVOICE_UPDATED.to_owned());
        WebhookRequest {
            webhook_url,
            webhook_version: WEBHOOK_VERSION.to_owned(),
            secret: self.webhook_secret.clone(),
            enabled: true,
            event_types,
        }
    }

    /// The call that registers a subscription; the subscription goes with it.
    pub fn subscribe_to_invoice_webhook_request(&self) -> (result: Result<ApiRequest, Error>)
        ensures
            is_call_to(result, *self, Method::Post, self.resource(SUBSCRIPTIONS@), true),
    {
        self.call(Method::Post, SUBSCRIPTIONS, true)
    }

    /// The call that lists the subscriptions of the account.
    pub fn get_current_subscriptions_request(&self) -> (result: Result<ApiRequest, Error>)
        ensures
            is_call_to(result, *self, Method::Get, self.resource(SUBSCRIPTIONS@), false),
    {
        self.call(Method::Get, SUBSCRIPTIONS, false)
    }

    /// The call that removes a subscription.
    pub fn delete_subscription_request(&self, webhook_id: &str) -> (result: Result<
        ApiRequest,
        Error,
    >)
        ensures
            is_call_to(
                result,
                *self,
                Method::Delete,
                self.resource(subscription_reference(webhook_id@)),
                false,
            ),
    {
        let reference = String::from_str(SUBSCRIPTION_DIRECTORY).concat(webhook_id);
        self.call(Method::Delete, reference.as_str(), false)
    }
}

/// Turns an authenticated request into the event for the application.
/// `payload` is what parsing the authenticated bytes as an envelope gave, `None`
/// when they are no envelope. The verified body is used up: one authentic
/// request gives at most one event.
pub fn handle_invoice(
    state: &WebhookState,
    body: VerifiedBody,
    payload: Option<WebHookResponse>,
) -> (dispatch: Dispatch)
    ensures
        dispatch == match payload {
            Some(envelope) => (Dispatch::Forward {
                entity_id: envelope.data.entity_id,
                timeout_ms: state.send_timeout_ms,
            }),
            None => Dispatch::Refuse(RejectReason::UnreadableBody),
        },
{
    match payload {
        Some(envelope) => Dispatch::Forward {
            entity_id: envelope.data.entity_id,
            timeout_ms: state.send_timeout_ms,
        },
        None => Dispatch::Refuse(RejectReason::UnreadableBody),
    }
}

/// The answer to a request that was turned away.
pub fn reject(reason: RejectReason) -> (reply: Reply)
    ensures
        reply == (Reply { status: status_of(class_of(reason)), dropped: false }),
{
    Reply { status: reason.status(), dropped: false }
}

/// The answer to a request whose event was to be handed to the application.
/// The sender is told that the event was accepted whatever became of it: it
/// cannot act on a slow or absent consumer. An event that was not taken is
/// marked as dropped.
pub fn conclude(delivery: Delivery) -> (reply: Reply)
    ensures
        reply == (Reply { status: 200, dropped: delivery != Delivery::Enqueued }),
{
    match delivery {
        Delivery::Enqueued => Reply { status: 200, dropped: false },
        Delivery::TimedOut => Reply { status: 200, dropped: true },
        Delivery::Closed => Reply { status: 200, dropped: true },
    }
}

/// A request signed by the holder of the secret is let through: when the
/// header is the hexadecimal form of the tag of exactly the bytes received,
/// and the body is within the accepted size, nothing is held against it.
pub proof fn signed_request_is_verified(state: WebhookState, bytes: Vec<u8>)
    requires
        bytes@.len() <= state.max_body_size,
        fits_hmac(secret_bytes(state).len()),
        fits_hmac(bytes@.len()),
    ensures
        rejection(
            state,
            Some(hex::encoded(hmac_sha256(secret_bytes(state), bytes@))),
            ReceivedBody::Complete(bytes),
        ) is None,
{
    hex::decoded_encoded(hmac_sha256(secret_bytes(state), bytes@));
}

/// The signature is bound to the bytes on the wire: the tag of one byte string
/// does not let another through, however alike the two read, provided the
/// two do not collide under HMAC-SHA256 with the gateway's secret.
pub proof fn signature_of_other_bytes_is_rejected(
    state: WebhookState,
    signed: Seq<u8>,
    received: Vec<u8>,
)
    requires
        received@.len() <= state.max_body_size,
        hmac_sha256(secret_bytes(state), received@) != hmac_sha256(secret_bytes(state), signed),
    ensures
        rejection(
            state,
            Some(hex::encoded(hmac_sha256(secret_bytes(state), signed))),
            ReceivedBody::Complete(received),
        ) == Some(RejectReason::SignatureMismatch),
{
    hex::decoded_encoded(hmac_sha256(secret_bytes(state), signed));
}

/// A request without a signature header whose body was read whole and is
/// within the accepted size is turned away as unauthenticated, and no
/// verified body comes of it for a parser to read.
pub proof fn unsigned_request_is_unauthorized(state: WebhookState, bytes: Vec<u8>)
    requires
        bytes@.len() <= state.max_body_size,
    ensures
        rejection(state, None, ReceivedBody::Complete(bytes)) == Some(
            RejectReason::MissingSignatureHeader,
        ),
        status_of(class_of(RejectReason::MissingSignatureHeader)) == 401,
{
}

/// Every rejection is answered with a client error, the same one for all
/// authentication failures, and never with the status of an accepted event.
pub proof fn rejections_are_client_errors(reason: RejectReason)
    ensures
        400 <= status_of(class_of(reason)) < 500,
        class_of(reason) == FailureClass::Auth <==> status_of(class_of(reason)) == 401,
        class_of(reason) == FailureClass::Protocol <==> status_of(class_of(reason)) == 422,
{
}

} // verus!
