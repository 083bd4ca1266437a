use cm_push::model::token::TokenKey as Addressee;
use cm_push::rpc::cm::notification_broadcast::Operation;
use cm_push::rpc::cm::notification_subscribe_filter::Predicate;
use cm_push::rpc::cm::{
    Message, NotificationBroadcast, NotificationSendRequest, NotificationSendResponse,
    NotificationSubscribeFilter, NotificationSubscribeRequest, Timestamp, TokenKey, TokenKeys,
};
use cm_push::rpc::cm_message::{
    notification_broadcast_passes, notification_subscribe_filter, notification_subscribe_step,
    notifications_subscribe_filter, push_reply, push_targets, send_reply, CmMessageService,
    NotificationSubscription, Unheard,
};
use cm_push::rpc::status::{Code, Status};
use cm_push::rpc::subscription::{SubscriptionAction, SubscriptionEvent, SubscriptionState};
use std::collections::HashMap;
use tokio::sync::broadcast::error::TryRecvError;

fn address(text: &str) -> TokenKey {
    TokenKey { key: text.to_string() }
}

fn addresses(texts: &[&str]) -> Vec<TokenKey> {
    texts.iter().map(|text| address(text)).collect()
}

fn interest(predicate: Predicate) -> NotificationSubscribeRequest {
    NotificationSubscribeRequest {
        filter: Some(NotificationSubscribeFilter { predicate: Some(predicate) }),
    }
}

fn inside(texts: &[&str]) -> NotificationSubscribeRequest {
    interest(Predicate::Intersection(TokenKeys { keys: addresses(texts) }))
}

fn outside(texts: &[&str]) -> NotificationSubscribeRequest {
    interest(Predicate::Complement(TokenKeys { keys: addresses(texts) }))
}

fn everything() -> NotificationSubscribeRequest {
    interest(Predicate::Union(TokenKeys { keys: Vec::new() }))
}

fn message_to(texts: &[&str], number: i64) -> Message {
    let mut content = HashMap::new();
    content.insert("number".to_string(), number.to_string());
    Message {
        content,
        codomain: Some(TokenKeys { keys: addresses(texts) }),
        timestamp: Some(Timestamp { seconds: number, nanos: 0 }),
    }
}

fn send_request(message: Message) -> NotificationSendRequest {
    NotificationSendRequest { inner: Some(message) }
}

/// Runs the subscription over everything that is waiting on the bus and
/// returns what it writes to its client, in order, with the lags it met.
fn drain_messages(
    subscription: &mut NotificationSubscription,
) -> (Vec<NotificationBroadcast>, Vec<u64>) {
    let mut written = Vec::new();
    let mut lags = Vec::new();
    let mut state = SubscriptionState::Receiving;
    loop {
        let event = match subscription.receiver.try_recv() {
            Ok(broadcast) => SubscriptionEvent::Received(broadcast),
            Err(TryRecvError::Lagged(skipped)) => {
                lags.push(skipped);
                SubscriptionEvent::Lagged(skipped)
            }
            Err(TryRecvError::Closed) => SubscriptionEvent::BusClosed,
            Err(TryRecvError::Empty) => break,
        };
        let (next_state, action) = notification_subscribe_step(&subscription.request, state, event);
        state = next_state;
        match action {
            SubscriptionAction::Receive => {}
            SubscriptionAction::Write(broadcast) => {
                written.push(broadcast);
                let (after_write, _) = notification_subscribe_step(
                    &subscription.request,
                    state,
                    SubscriptionEvent::Written,
                );
                state = after_write;
            }
            SubscriptionAction::Exit => break,
        }
    }
    (written, lags)
}

fn sent(message: Message) -> NotificationBroadcast {
    NotificationBroadcast { operation: Some(Operation::Send(message)) }
}

#[test]
fn message_with_an_addressee_outside_the_intersection_is_not_delivered() {
    let mut service = CmMessageService::default();
    let mut subscription = service.notification_subscribe(inside(&["a", "b"]));
    assert!(service.notification_send(send_request(message_to(&["a", "c"], 1))).is_ok());
    assert!(drain_messages(&mut subscription).0.is_empty());
}

#[test]
fn message_with_all_addressees_inside_the_intersection_is_delivered() {
    let mut service = CmMessageService::default();
    let mut subscription = service.notification_subscribe(inside(&["a", "b"]));
    let response = service.notification_send(send_request(message_to(&["a"], 1)));
    assert_eq!(response, Ok(NotificationSendResponse { sent: Some(message_to(&["a"], 1)) }));
    assert_eq!(drain_messages(&mut subscription).0, vec![sent(message_to(&["a"], 1))]);
}

#[test]
fn slow_subscriber_lags_alone() {
    let mut service = CmMessageService::default();
    let mut reader = service.notification_subscribe(everything());
    let mut sleeper = service.notification_subscribe(everything());
    let mut read = Vec::new();
    for number in 0..64 {
        assert!(service.notification_send(send_request(message_to(&["a"], number))).is_ok());
        let (written, lags) = drain_messages(&mut reader);
        assert!(lags.is_empty());
        read.extend(written);
    }
    let expected: Vec<NotificationBroadcast> =
        (0..64).map(|number| sent(message_to(&["a"], number))).collect();
    assert_eq!(read, expected);
    assert_eq!(read[48..].to_vec(), expected[48..].to_vec());

    assert_eq!(sleeper.receiver.try_recv(), Err(TryRecvError::Lagged(48)));
    let (kept, lags) = drain_messages(&mut sleeper);
    assert!(lags.is_empty());
    assert_eq!(kept, expected[48..].to_vec());
}

#[test]
fn lagging_subscription_reports_the_lag_and_goes_on() {
    let mut service = CmMessageService::default();
    let mut sleeper = service.notification_subscribe(everything());
    for number in 0..20 {
        service.notification_send(send_request(message_to(&["a"], number))).unwrap();
    }
    let (kept, lags) = drain_messages(&mut sleeper);
    assert_eq!(lags, vec![4]);
    assert_eq!(kept.len(), 16);
    assert_eq!(kept[0], sent(message_to(&["a"], 4)));
    assert_eq!(kept[15], sent(message_to(&["a"], 19)));
}

#[test]
fn send_without_message_is_refused_and_publishes_nothing() {
    let mut service = CmMessageService::default();
    let mut subscription = service.notification_subscribe(everything());
    assert_eq!(
        service.notification_send(NotificationSendRequest { inner: None }),
        Err(Status {
            code: Code::InvalidArgument,
            message: "inner notification not present".to_string(),
        })
    );
    assert!(drain_messages(&mut subscription).0.is_empty());
}

#[test]
fn send_publishes_exactly_one_event() {
    let (tx, rx) = tokio::sync::broadcast::channel(16);
    let mut listener = tx.subscribe();
    let mut service = CmMessageService::new((tx, rx));
    service.notification_send(send_request(message_to(&["a", "b"], 3))).unwrap();
    assert_eq!(listener.try_recv(), Ok(sent(message_to(&["a", "b"], 3))));
    assert_eq!(listener.try_recv(), Err(TryRecvError::Empty));
}

#[test]
fn send_that_nobody_hears_follows_the_policy() {
    assert_eq!(
        send_reply(message_to(&["a"], 1), false, Unheard::Refuse),
        Err(Status { code: Code::Internal, message: "channel broken".to_string() })
    );
    assert_eq!(
        send_reply(message_to(&["a"], 1), false, Unheard::Accept),
        Ok(NotificationSendResponse { sent: Some(message_to(&["a"], 1)) })
    );
    assert_eq!(
        send_reply(message_to(&["a"], 1), true, Unheard::Refuse),
        Ok(NotificationSendResponse { sent: Some(message_to(&["a"], 1)) })
    );
    assert_eq!(
        send_reply(message_to(&["a"], 1), true, Unheard::Accept),
        Ok(NotificationSendResponse { sent: Some(message_to(&["a"], 1)) })
    );
}

#[test]
fn service_with_another_policy_still_sends() {
    let mut service = CmMessageService::default().with_unheard(Unheard::Accept);
    let mut subscription = service.notification_subscribe(everything());
    assert!(service.notification_send(send_request(message_to(&["a"], 1))).is_ok());
    assert_eq!(drain_messages(&mut subscription).0.len(), 1);
}

#[test]
fn sink_failure_becomes_an_internal_status() {
    let response = NotificationSendResponse { sent: Some(message_to(&["a"], 1)) };
    assert_eq!(
        push_reply(response, Err("provider unreachable".to_string())),
        Err(Status { code: Code::Internal, message: "provider unreachable".to_string() })
    );
    let response = NotificationSendResponse { sent: Some(message_to(&["a"], 1)) };
    assert_eq!(
        push_reply(response, Ok(())),
        Ok(NotificationSendResponse { sent: Some(message_to(&["a"], 1)) })
    );
}

#[test]
fn single_key_filter_follows_the_predicate() {
    assert!(notification_subscribe_filter(&inside(&["a", "b"]), &address("a")));
    assert!(!notification_subscribe_filter(&inside(&["a", "b"]), &address("c")));
    assert!(!notification_subscribe_filter(&outside(&["a", "b"]), &address("a")));
    assert!(notification_subscribe_filter(&outside(&["a", "b"]), &address("c")));
    assert!(notification_subscribe_filter(&everything(), &address("c")));
    assert!(!notification_subscribe_filter(
        &NotificationSubscribeRequest { filter: None },
        &address("a")
    ));
    assert!(!notification_subscribe_filter(
        &NotificationSubscribeRequest {
            filter: Some(NotificationSubscribeFilter { predicate: None }),
        },
        &address("a")
    ));
}

#[test]
fn intersection_wants_every_addressee_inside() {
    let request = inside(&["a", "b"]);
    assert!(notifications_subscribe_filter(&request, addresses(&["a"])));
    assert!(notifications_subscribe_filter(&request, addresses(&["a", "b"])));
    assert!(notifications_subscribe_filter(&request, addresses(&["b", "a", "b"])));
    assert!(!notifications_subscribe_filter(&request, addresses(&["a", "c"])));
    assert!(!notifications_subscribe_filter(&request, addresses(&["c"])));
}

#[test]
fn complement_wants_every_addressee_outside() {
    let request = outside(&["a", "b"]);
    assert!(notifications_subscribe_filter(&request, addresses(&["c"])));
    assert!(notifications_subscribe_filter(&request, addresses(&["c", "d"])));
    assert!(!notifications_subscribe_filter(&request, addresses(&["a", "c"])));
    assert!(!notifications_subscribe_filter(&request, addresses(&["b"])));
}

#[test]
fn message_to_nobody_passes_only_the_union() {
    assert!(!notifications_subscribe_filter(&inside(&["a"]), Vec::new()));
    assert!(!notifications_subscribe_filter(&outside(&["a"]), Vec::new()));
    assert!(!notifications_subscribe_filter(&inside(&[]), Vec::new()));
    assert!(notifications_subscribe_filter(&everything(), Vec::new()));
}

#[test]
fn union_passes_every_message() {
    assert!(notifications_subscribe_filter(&everything(), addresses(&["a"])));
    assert!(notifications_subscribe_filter(&everything(), addresses(&["x", "y", "z"])));
    assert!(notifications_subscribe_filter(
        &interest(Predicate::Union(TokenKeys { keys: addresses(&["q"]) })),
        addresses(&["a"])
    ));
}

#[test]
fn request_without_predicate_passes_no_message() {
    let silent = NotificationSubscribeRequest { filter: None };
    let no_predicate = NotificationSubscribeRequest {
        filter: Some(NotificationSubscribeFilter { predicate: None }),
    };
    assert!(!notifications_subscribe_filter(&silent, addresses(&["a"])));
    assert!(!notifications_subscribe_filter(&no_predicate, addresses(&["a"])));
    assert!(!notifications_subscribe_filter(&silent, Vec::new()));
}

#[test]
fn message_without_addressee_list_or_operation_is_sent_to_nobody() {
    let unaddressed = Message { content: HashMap::new(), codomain: None, timestamp: None };
    assert!(!notification_broadcast_passes(&everything(), &sent(unaddressed)));
    assert!(!notification_broadcast_passes(
        &everything(),
        &NotificationBroadcast { operation: None }
    ));
    assert!(notification_broadcast_passes(&everything(), &sent(message_to(&[], 1))));
}

#[test]
fn silent_subscriber_receives_no_message() {
    let mut service = CmMessageService::default();
    let mut silent =
        service.notification_subscribe(NotificationSubscribeRequest { filter: None });
    for number in 0..5 {
        service.notification_send(send_request(message_to(&["a"], number))).unwrap();
    }
    assert!(drain_messages(&mut silent).0.is_empty());
}

#[test]
fn message_subscriber_does_not_see_earlier_messages() {
    let mut service = CmMessageService::default();
    service.notification_send(send_request(message_to(&["a"], 1))).unwrap();
    let mut subscription = service.notification_subscribe(everything());
    service.notification_send(send_request(message_to(&["a"], 2))).unwrap();
    assert_eq!(drain_messages(&mut subscription).0, vec![sent(message_to(&["a"], 2))]);
}

#[test]
fn message_step_writes_what_passes() {
    let request = outside(&["a"]);
    assert_eq!(
        notification_subscribe_step(
            &request,
            SubscriptionState::Receiving,
            SubscriptionEvent::Received(sent(message_to(&["b"], 1)))
        ),
        (SubscriptionState::Writing, SubscriptionAction::Write(sent(message_to(&["b"], 1))))
    );
    assert_eq!(
        notification_subscribe_step(
            &request,
            SubscriptionState::Receiving,
            SubscriptionEvent::Received(sent(message_to(&["a", "b"], 1)))
        ),
        (SubscriptionState::Receiving, SubscriptionAction::Receive)
    );
    assert_eq!(
        notification_subscribe_step(
            &request,
            SubscriptionState::Receiving,
            SubscriptionEvent::Lagged(9)
        ),
        (SubscriptionState::Receiving, SubscriptionAction::Receive)
    );
    assert_eq!(
        notification_subscribe_step(
            &request,
            SubscriptionState::Writing,
            SubscriptionEvent::ClientGone
        ),
        (SubscriptionState::Finished, SubscriptionAction::Exit)
    );
}

#[test]
fn message_is_pushed_to_the_keys_of_its_codomain() {
    let response = NotificationSendResponse { sent: Some(message_to(&["a", "b", "a"], 1)) };
    assert_eq!(
        push_targets(&response),
        vec![Addressee::new("a"), Addressee::new("b"), Addressee::new("a")]
    );
    let unaddressed = Message { content: HashMap::new(), codomain: None, timestamp: None };
    assert!(push_targets(&NotificationSendResponse { sent: Some(unaddressed) }).is_empty());
    assert!(push_targets(&NotificationSendResponse { sent: None }).is_empty());
}
