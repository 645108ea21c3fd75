use std::time::Duration;

use strike_rs::hex;
use strike_rs::signature::compute_hmac;
use strike_rs::webhooks::{
    conclude, handle_invoice, verify_request_body, Delivery, Dispatch, ReceivedBody, Reply,
    VerificationOutcome, WebHookData, WebHookResponse, WebhookState,
};
use tokio::sync::mpsc::error::SendTimeoutError;
use tokio::sync::mpsc::{channel, Sender};

fn envelope(entity_id: &str) -> WebHookResponse {
    WebHookResponse {
        id: "abc".to_string(),
        event_type: "invoice.updated".to_string(),
        webhook_version: "v1".to_string(),
        data: WebHookData { entity_id: entity_id.to_string(), changes: vec!["state".to_string()] },
        created: "2024-01-01T00:00:00Z".to_string(),
        delivery_success: None,
    }
}

fn body_for(entity_id: &str) -> Vec<u8> {
    format!(
        "{{\"id\":\"abc\",\"eventType\":\"invoice.updated\",\"webhookVersion\":\"v1\",\"data\":{{\"entityId\":\"{}\",\"changes\":[\"state\"]}},\"created\":\"2024-01-01T00:00:00Z\"}}",
        entity_id
    )
    .into_bytes()
}

async fn deliver(state: WebhookState, sender: Sender<String>, entity_id: String) -> Reply {
    let body = body_for(&entity_id);
    let signature = hex::encode(&compute_hmac(&body, state.webhook_secret.as_bytes()));
    let verified = match verify_request_body(&state, Some(signature.as_bytes()), ReceivedBody::Complete(body)) {
        VerificationOutcome::Verified(body) => body,
        VerificationOutcome::Rejected(reason) => panic!("rejected: {:?}", reason),
    };
    match handle_invoice(&state, verified, Some(envelope(&entity_id))) {
        Dispatch::Forward { entity_id, timeout_ms } => {
            let delivery = match sender.send_timeout(entity_id, Duration::from_millis(timeout_ms)).await {
                Ok(()) => Delivery::Enqueued,
                Err(SendTimeoutError::Timeout(_)) => Delivery::TimedOut,
                Err(SendTimeoutError::Closed(_)) => Delivery::Closed,
            };
            conclude(delivery)
        }
        Dispatch::Refuse(reason) => panic!("refused: {:?}", reason),
    }
}

fn runtime() -> tokio::runtime::Runtime {
    tokio::runtime::Builder::new_current_thread().enable_time().build().unwrap()
}

#[test]
fn concurrent_events_are_each_observed_once() {
    let count = 32;
    let state = WebhookState::new("s3cr3t".to_string());
    let (sender, mut receiver) = channel::<String>(count);
    let mut observed = runtime().block_on(async {
        let mut tasks = Vec::new();
        for index in 0..count {
            tasks.push(tokio::spawn(deliver(state.clone(), sender.clone(), format!("inv_{}", index))));
        }
        for task in tasks {
            assert_eq!(task.await.unwrap(), Reply { status: 200, dropped: false });
        }
        drop(sender);
        let mut observed = Vec::new();
        while let Some(entity_id) = receiver.recv().await {
            observed.push(entity_id);
        }
        observed
    });
    observed.sort();
    let mut expected: Vec<String> = (0..count).map(|index| format!("inv_{}", index)).collect();
    expected.sort();
    assert_eq!(observed, expected);
}

#[test]
fn saturated_channel_drops_the_event_and_answers_ok() {
    let mut state = WebhookState::new("s3cr3t".to_string());
    state.send_timeout_ms = 20;
    let (sender, mut receiver) = channel::<String>(1);
    let (first, second) = runtime().block_on(async {
        let first = deliver(state.clone(), sender.clone(), "inv_1".to_string()).await;
        let second = deliver(state.clone(), sender.clone(), "inv_2".to_string()).await;
        (first, second)
    });
    assert_eq!(first, Reply { status: 200, dropped: false });
    assert_eq!(second, Reply { status: 200, dropped: true });
    assert_eq!(receiver.try_recv().ok(), Some("inv_1".to_string()));
    assert!(receiver.try_recv().is_err());
}

#[test]
fn closed_channel_drops_the_event_and_answers_ok() {
    let state = WebhookState::new("s3cr3t".to_string());
    let (sender, receiver) = channel::<String>(1);
    drop(receiver);
    let reply = runtime().block_on(deliver(state, sender, "inv_1".to_string()));
    assert_eq!(reply, Reply { status: 200, dropped: true });
}
