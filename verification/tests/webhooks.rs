use serde_json::Value;
use strike_rs::hex;
use strike_rs::signature::compute_hmac;
use strike_rs::webhooks::{
    conclude, handle_invoice, reject, verify_request_body, verify_request_signature, Delivery,
    Dispatch, FailureClass, ReceivedBody, RejectReason, Reply, VerificationOutcome, VerifiedBody,
    WebHookData, WebHookResponse, WebhookState, DEFAULT_MAX_BODY_SIZE, DEFAULT_SEND_TIMEOUT_MS,
    SIGNATURE_HEADER,
};

const BODY: &[u8] = br#"{"id":"abc","eventType":"invoice.updated","webhookVersion":"v1","data":{"entityId":"inv_1","changes":["state"]},"created":"2024-01-01T00:00:00Z"}"#;
const REORDERED: &[u8] = br#"{"eventType":"invoice.updated","id":"abc","webhookVersion":"v1","data":{"entityId":"inv_1","changes":["state"]},"created":"2024-01-01T00:00:00Z"}"#;
const SIGNATURE: &str = "14b312e089cba078a5fe1e03244326c10fcc9dc96f02f875c2d8a5a05c1ddf0b";

fn gateway() -> WebhookState {
    WebhookState::new("s3cr3t".to_string())
}

fn sign(state: &WebhookState, body: &[u8]) -> String {
    hex::encode(&compute_hmac(body, state.webhook_secret.as_bytes()))
}

fn text(value: &Value, key: &str) -> Option<String> {
    value.get(key)?.as_str().map(str::to_string)
}

fn parse(bytes: &[u8]) -> Option<WebHookResponse> {
    let value: Value = serde_json::from_slice(bytes).ok()?;
    let data = value.get("data")?;
    let mut changes = Vec::new();
    for change in data.get("changes")?.as_array()? {
        changes.push(change.as_str()?.to_string());
    }
    Some(WebHookResponse {
        id: text(&value, "id")?,
        event_type: text(&value, "eventType")?,
        webhook_version: text(&value, "webhookVersion")?,
        data: WebHookData { entity_id: text(data, "entityId")?, changes },
        created: text(&value, "created")?,
        delivery_success: value.get("deliverySuccess").and_then(Value::as_bool),
    })
}

fn verified(state: &WebhookState, body: &[u8]) -> VerifiedBody {
    let signature = sign(state, body);
    match verify_request_body(state, Some(signature.as_bytes()), ReceivedBody::Complete(body.to_vec())) {
        VerificationOutcome::Verified(body) => body,
        VerificationOutcome::Rejected(reason) => panic!("rejected: {:?}", reason),
    }
}

fn rejection(state: &WebhookState, signature: Option<&[u8]>, body: ReceivedBody) -> RejectReason {
    match verify_request_body(state, signature, body) {
        VerificationOutcome::Verified(_) => panic!("verified"),
        VerificationOutcome::Rejected(reason) => reason,
    }
}

fn receive(state: &WebhookState, signature: Option<&[u8]>, body: &[u8]) -> Result<String, u16> {
    match verify_request_body(state, signature, ReceivedBody::Complete(body.to_vec())) {
        VerificationOutcome::Rejected(reason) => Err(reject(reason).status),
        VerificationOutcome::Verified(body) => {
            let payload = parse(body.as_bytes());
            match handle_invoice(state, body, payload) {
                Dispatch::Forward { entity_id, .. } => Ok(entity_id),
                Dispatch::Refuse(reason) => Err(reject(reason).status),
            }
        }
    }
}

#[test]
fn signed_event_is_accepted_and_its_entity_forwarded() {
    let state = gateway();
    assert_eq!(sign(&state, BODY), SIGNATURE);
    let body = verified(&state, BODY);
    assert_eq!(body.as_bytes(), BODY);
    let payload = parse(body.as_bytes());
    assert!(payload.is_some());
    let dispatch = handle_invoice(&state, body, payload);
    assert_eq!(
        dispatch,
        Dispatch::Forward { entity_id: "inv_1".to_string(), timeout_ms: DEFAULT_SEND_TIMEOUT_MS }
    );
    assert_eq!(conclude(Delivery::Enqueued), Reply { status: 200, dropped: false });
}

#[test]
fn signature_in_upper_case_is_accepted() {
    let state = gateway();
    let signature = SIGNATURE.to_uppercase();
    assert_eq!(receive(&state, Some(signature.as_bytes()), BODY), Ok("inv_1".to_string()));
}

#[test]
fn reordered_keys_fail_verification() {
    let state = gateway();
    assert_eq!(parse(BODY), parse(REORDERED));
    assert_eq!(
        rejection(&state, Some(SIGNATURE.as_bytes()), ReceivedBody::Complete(REORDERED.to_vec())),
        RejectReason::SignatureMismatch
    );
    assert_eq!(receive(&state, Some(SIGNATURE.as_bytes()), REORDERED), Err(401));
}

#[test]
fn added_whitespace_fails_verification() {
    let state = gateway();
    let mut spaced = BODY.to_vec();
    spaced.push(b'\n');
    assert_eq!(receive(&state, Some(SIGNATURE.as_bytes()), &spaced), Err(401));
}

#[test]
fn missing_signature_is_unauthorized() {
    let state = gateway();
    assert_eq!(
        rejection(&state, None, ReceivedBody::Complete(BODY.to_vec())),
        RejectReason::MissingSignatureHeader
    );
    assert_eq!(receive(&state, None, BODY), Err(401));
    assert_eq!(receive(&state, None, b"not json"), Err(401));
}

#[test]
fn malformed_signature_is_unauthorized() {
    let state = gateway();
    let cases: [&[u8]; 5] = [b"zz", b"abc", &SIGNATURE.as_bytes()[..63], &[0xff, 0xfe], b"0x12"];
    for signature in cases {
        assert_eq!(
            rejection(&state, Some(signature), ReceivedBody::Complete(BODY.to_vec())),
            RejectReason::MalformedSignatureHeader
        );
    }
    assert_eq!(receive(&state, Some(b"zz"), BODY), Err(401));
}

#[test]
fn wrong_signature_is_unauthorized() {
    let state = gateway();
    let other = WebhookState::new("other".to_string());
    let signature = sign(&other, BODY);
    assert_eq!(
        rejection(&state, Some(signature.as_bytes()), ReceivedBody::Complete(BODY.to_vec())),
        RejectReason::SignatureMismatch
    );
    assert_eq!(
        rejection(&state, Some(b""), ReceivedBody::Complete(BODY.to_vec())),
        RejectReason::SignatureMismatch
    );
    assert_eq!(
        rejection(&state, Some(&SIGNATURE.as_bytes()[..62]), ReceivedBody::Complete(BODY.to_vec())),
        RejectReason::SignatureMismatch
    );
}

#[test]
fn signed_body_that_is_not_json_is_unprocessable() {
    let state = gateway();
    let body = b"this is not json";
    let signature = sign(&state, body);
    assert_eq!(receive(&state, Some(signature.as_bytes()), body), Err(422));
    let dispatch = handle_invoice(&state, verified(&state, body), None);
    assert_eq!(dispatch, Dispatch::Refuse(RejectReason::UnreadableBody));
}

#[test]
fn signed_json_that_is_no_envelope_is_unprocessable() {
    let state = gateway();
    let bodies: [&[u8]; 3] = [b"{}", b"[1,2,3]", br#"{"id":"abc","data":{"entityId":7}}"#];
    for body in bodies {
        let signature = sign(&state, body);
        assert_eq!(receive(&state, Some(signature.as_bytes()), body), Err(422));
    }
}

#[test]
fn body_beyond_the_cap_is_refused() {
    let mut state = gateway();
    state.max_body_size = 8;
    let body = b"123456789";
    let signature = sign(&state, body);
    assert_eq!(
        rejection(&state, Some(signature.as_bytes()), ReceivedBody::Complete(body.to_vec())),
        RejectReason::BodyTooLarge
    );
    assert_eq!(rejection(&state, Some(signature.as_bytes()), ReceivedBody::TooLarge), RejectReason::BodyTooLarge);
    assert_eq!(reject(RejectReason::BodyTooLarge).status, 413);
    let fits = b"12345678";
    let signature = sign(&state, fits);
    assert_eq!(verified(&state, fits).as_bytes(), fits);
    assert!(matches!(
        verify_request_body(&state, Some(signature.as_bytes()), ReceivedBody::Complete(fits.to_vec())),
        VerificationOutcome::Verified(_)
    ));
}

#[test]
fn body_too_large_is_judged_before_the_header() {
    let state = gateway();
    assert_eq!(rejection(&state, None, ReceivedBody::TooLarge), RejectReason::BodyTooLarge);
}

#[test]
fn interrupted_body_is_never_verified() {
    let state = gateway();
    assert_eq!(
        rejection(&state, Some(SIGNATURE.as_bytes()), ReceivedBody::Interrupted),
        RejectReason::UnreadableBody
    );
    assert_eq!(rejection(&state, None, ReceivedBody::Interrupted), RejectReason::UnreadableBody);
    assert_eq!(reject(RejectReason::UnreadableBody).status, 422);
}

#[test]
fn empty_body_can_be_signed() {
    let state = gateway();
    let signature = sign(&state, b"");
    assert_eq!(receive(&state, Some(signature.as_bytes()), b""), Err(422));
}

#[test]
fn verify_request_signature_tells_the_three_cases() {
    assert_eq!(verify_request_signature(SIGNATURE.as_bytes(), BODY, b"s3cr3t"), Ok(()));
    assert_eq!(
        verify_request_signature(SIGNATURE.as_bytes(), BODY, b"s3cr3T"),
        Err(RejectReason::SignatureMismatch)
    );
    assert_eq!(
        verify_request_signature(b"nothex", BODY, b"s3cr3t"),
        Err(RejectReason::MalformedSignatureHeader)
    );
}

#[test]
fn statuses_follow_the_failure_class() {
    let reasons = [
        (RejectReason::MissingSignatureHeader, FailureClass::Auth, 401),
        (RejectReason::MalformedSignatureHeader, FailureClass::Auth, 401),
        (RejectReason::SignatureMismatch, FailureClass::Auth, 401),
        (RejectReason::UnreadableBody, FailureClass::Protocol, 422),
        (RejectReason::BodyTooLarge, FailureClass::Resource, 413),
    ];
    for (reason, class, status) in reasons {
        assert_eq!(reason.class(), class);
        assert_eq!(reason.status(), status);
        assert_eq!(reject(reason), Reply { status, dropped: false });
    }
}

#[test]
fn undelivered_event_is_answered_as_accepted_and_marked_dropped() {
    assert_eq!(conclude(Delivery::TimedOut), Reply { status: 200, dropped: true });
    assert_eq!(conclude(Delivery::Closed), Reply { status: 200, dropped: true });
}

#[test]
fn forward_carries_the_configured_wait() {
    let mut state = gateway();
    state.send_timeout_ms = 25;
    let body = verified(&state, BODY);
    let payload = parse(BODY);
    assert_eq!(
        handle_invoice(&state, body, payload),
        Dispatch::Forward { entity_id: "inv_1".to_string(), timeout_ms: 25 }
    );
}

#[test]
fn gateway_defaults() {
    let state = gateway();
    assert_eq!(state.webhook_secret, "s3cr3t");
    assert_eq!(state.max_body_size, DEFAULT_MAX_BODY_SIZE);
    assert_eq!(state.send_timeout_ms, DEFAULT_SEND_TIMEOUT_MS);
    assert_eq!(SIGNATURE_HEADER, "X-Webhook-Signature");
}
