use push_dispatch::Action;
use push_dispatch::Classification;
use push_dispatch::DeliveryError;
use push_dispatch::ExecutorState;
use push_dispatch::Message;
use push_dispatch::NotificationPayload;
use push_dispatch::NotificationTask;
use push_dispatch::Recipient;
use push_dispatch::delivery::classify;
use push_dispatch::delivery::provider_error;
use push_dispatch::delivery::provider_status;
use push_dispatch::executor::backoff_ms;
use push_dispatch::executor::initial_state;
use push_dispatch::executor::launch;
use push_dispatch::executor::on_outcome;
use push_dispatch::message::build_message;

fn payload(title: &str) -> NotificationPayload {
    NotificationPayload { title: Some(title.to_string()), body: None, image: None }
}

fn provider_err(status: u16) -> Result<(), DeliveryError> {
    Err(DeliveryError::Provider { status, body: String::new() })
}

#[test]
fn build_for_token_sets_token_only() {
    let task = NotificationTask::new(Recipient::Token("abc".to_string()), payload("hi"));
    let m: Message = build_message(task);
    assert_eq!(m.token, Some("abc".to_string()));
    assert_eq!(m.topic, None);
    assert!(m.priority_high);
    assert_eq!(m.payload, payload("hi"));
}

#[test]
fn build_for_topic_sets_topic_only() {
    let task = NotificationTask::new(Recipient::Topic("news".to_string()), payload("hi"));
    let m = build_message(task);
    assert_eq!(m.topic, Some("news".to_string()));
    assert_eq!(m.token, None);
    assert!(m.priority_high);
}

#[test]
fn classification_table() {
    assert_eq!(classify(&Ok(())), Classification::TerminalSuccess);
    assert_eq!(classify(&provider_err(400)), Classification::StaleRecipient);
    assert_eq!(classify(&provider_err(404)), Classification::StaleRecipient);
    assert_eq!(classify(&provider_err(500)), Classification::TransientServer);
    assert_eq!(classify(&provider_err(503)), Classification::TransientServer);
    assert_eq!(classify(&provider_err(403)), Classification::PermanentClientError);
    assert_eq!(classify(&provider_err(418)), Classification::PermanentClientError);
    assert_eq!(classify(&Err(DeliveryError::Timeout)), Classification::TransientTimeout);
    assert_eq!(classify(&Err(DeliveryError::Other)), Classification::Unclassified);
}

#[test]
fn server_error_retries_once_after_1500ms_then_succeeds() {
    let s0 = initial_state();
    assert_eq!(s0, ExecutorState::Pending);
    let (s1, a1) = launch(s0);
    assert_eq!(s1, ExecutorState::Attempting { attempt: 0 });
    assert_eq!(a1, Action::Send { delay_ms: 0 });
    let (s2, a2) = on_outcome(s1, &provider_err(500));
    assert_eq!(s2, ExecutorState::Attempting { attempt: 1 });
    assert_eq!(a2, Action::Send { delay_ms: 1500 });
    let (s3, a3) = on_outcome(s2, &Ok(()));
    assert_eq!(s3, ExecutorState::Delivered);
    assert_eq!(a3, Action::Finish);
}

#[test]
fn transient_faults_exhaust_after_six_attempts() {
    let (mut state, mut action) = launch(initial_state());
    let mut sends: u32 = 0;
    let mut delays: Vec<u64> = Vec::new();
    loop {
        match action {
            Action::Send { delay_ms } => {
                sends += 1;
                delays.push(delay_ms);
                let outcome = if sends % 2 == 0 {
                    Err(DeliveryError::Timeout)
                } else {
                    provider_err(503)
                };
                let (s, a) = on_outcome(state, &outcome);
                state = s;
                action = a;
            }
            _ => break,
        }
    }
    assert_eq!(sends, 6);
    assert_eq!(delays, vec![0, 1500, 3000, 4500, 6000, 7500]);
    assert_eq!(state, ExecutorState::Exhausted);
    assert_eq!(action, Action::Finish);
}

#[test]
fn stale_recipient_terminates_after_one_attempt() {
    let (s1, _) = launch(initial_state());
    let (s2, a2) = on_outcome(s1, &provider_err(404));
    assert_eq!(s2, ExecutorState::Invalidating);
    assert_eq!(a2, Action::InvalidateToken);
}

#[test]
fn permanent_error_terminates_after_one_attempt() {
    let (s1, _) = launch(initial_state());
    let (s2, a2) = on_outcome(s1, &provider_err(403));
    assert_eq!(s2, ExecutorState::PermanentlyFailed);
    assert_eq!(a2, Action::ReportError);
}

#[test]
fn unclassified_error_terminates_after_one_attempt() {
    let (s1, _) = launch(initial_state());
    let (s2, a2) = on_outcome(s1, &Err(DeliveryError::Other));
    assert_eq!(s2, ExecutorState::PermanentlyFailed);
    assert_eq!(a2, Action::ReportError);
}

#[test]
fn backoff_is_linear() {
    assert_eq!(backoff_ms(1), 1500);
    assert_eq!(backoff_ms(2), 3000);
    assert_eq!(backoff_ms(3), 4500);
    assert_eq!(backoff_ms(4), 6000);
    assert_eq!(backoff_ms(5), 7500);
}

#[test]
fn provider_status_reads_leading_code() {
    assert_eq!(provider_status(b"error code 404 (Not Found): gone"), Some(404));
    assert_eq!(provider_status(b"error code 500 (Internal Server Error): oops"), Some(500));
    assert_eq!(provider_status(b"error code 503"), Some(503));
}

#[test]
fn provider_status_rejects_malformed_text() {
    assert_eq!(provider_status(b""), None);
    assert_eq!(provider_status(b"server said no"), None);
    assert_eq!(provider_status(b"error code "), None);
    assert_eq!(provider_status(b"error code x (Teapot): no digits"), None);
    assert_eq!(provider_status(b"error code 123456 (too long)"), None);
    assert_eq!(provider_status(b"error code 70000 (too large)"), None);
}

#[test]
fn provider_status_boundary_values() {
    assert_eq!(provider_status(b"error code 65535 (edge)"), Some(65535));
    assert_eq!(provider_status(b"error code 65536 (past it)"), None);
    assert_eq!(provider_status(b"error code 0 (zero)"), Some(0));
}

#[test]
fn provider_error_carries_status_or_falls_back() {
    let text = "error code 403 (Forbidden): denied";
    let e = provider_error(text.as_bytes(), text.to_string());
    assert_eq!(e, DeliveryError::Provider { status: 403, body: text.to_string() });
    let odd = "connection reset";
    let e2 = provider_error(odd.as_bytes(), odd.to_string());
    assert_eq!(e2, DeliveryError::Other);
}
