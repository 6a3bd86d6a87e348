use push_dispatch::Action;
use push_dispatch::ClientHandle;
use push_dispatch::DeliveryClientProvider;
use push_dispatch::ExecutorState;
use push_dispatch::NotificationPayload;
use push_dispatch::NotificationTask;
use push_dispatch::Recipient;
use push_dispatch::TaskQueue;
use push_dispatch::executor::initial_state;
use push_dispatch::executor::launch;
use push_dispatch::executor::on_outcome;
use push_dispatch::message::build_message;

fn task(recipient: Recipient) -> NotificationTask {
    NotificationTask::new(
        recipient,
        NotificationPayload { title: Some("t".to_string()), body: None, image: None },
    )
}

fn handle(project: &str) -> ClientHandle {
    ClientHandle { project_id: project.to_string(), validate_only: false, timeout_ms: 5000 }
}

#[test]
fn queue_is_fifo_and_loses_nothing() {
    let mut q = TaskQueue::new();
    assert_eq!(q.len(), 0);
    assert!(q.pop().is_none());
    q.push(task(Recipient::Token("a".to_string())));
    q.push(task(Recipient::Topic("b".to_string())));
    q.push(task(Recipient::Token("c".to_string())));
    assert_eq!(q.len(), 3);
    let first = q.pop().unwrap();
    assert_eq!(first.recipient, Recipient::Token("a".to_string()));
    let second = q.pop().unwrap();
    assert_eq!(second.recipient, Recipient::Topic("b".to_string()));
    let third = q.pop().unwrap();
    assert_eq!(third.recipient, Recipient::Token("c".to_string()));
    assert!(q.pop().is_none());
    assert_eq!(q.len(), 0);
}

#[test]
fn client_is_constructed_at_most_once() {
    let mut provider = DeliveryClientProvider::new();
    assert!(provider.needs_init());
    let first = provider.get_or_install(handle("one"));
    assert_eq!(first, handle("one"));
    assert!(!provider.needs_init());
    let second = provider.get_or_install(handle("two"));
    assert_eq!(second, handle("one"));
    let third = provider.get_or_install(handle("three"));
    assert_eq!(third, handle("one"));
}

#[test]
fn three_tasks_all_delivered_after_one_attempt_each() {
    let mut q = TaskQueue::new();
    q.push(task(Recipient::Token("a".to_string())));
    q.push(task(Recipient::Topic("b".to_string())));
    q.push(task(Recipient::Token("c".to_string())));

    let mut delivered: Vec<Option<String>> = Vec::new();
    while let Some(t) = q.pop() {
        let message = build_message(t);
        let (state, action) = launch(initial_state());
        assert_eq!(action, Action::Send { delay_ms: 0 });
        let mut attempts: u32 = 0;
        let (mut state, mut action) = (state, action);
        while let Action::Send { .. } = action {
            attempts += 1;
            let (s, a) = on_outcome(state, &Ok(()));
            state = s;
            action = a;
        }
        assert_eq!(attempts, 1);
        assert_eq!(state, ExecutorState::Delivered);
        assert_eq!(action, Action::Finish);
        delivered.push(message.token.clone().or(message.topic.clone()));
    }
    assert_eq!(
        delivered,
        vec![
            Some("a".to_string()),
            Some("b".to_string()),
            Some("c".to_string()),
        ]
    );
}
