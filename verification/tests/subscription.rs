use cm_push::rpc::subscription::{
    advance, SubscriptionAction, SubscriptionEvent, SubscriptionState, CLIENT_QUEUE_CAPACITY,
};

#[test]
fn client_queue_holds_four_events() {
    assert_eq!(CLIENT_QUEUE_CAPACITY, 4);
}

#[test]
fn passing_event_is_written() {
    assert_eq!(
        advance(SubscriptionState::Receiving, SubscriptionEvent::Received(7u8), true),
        (SubscriptionState::Writing, SubscriptionAction::Write(7u8))
    );
}

#[test]
fn failing_event_is_dropped() {
    assert_eq!(
        advance(SubscriptionState::Receiving, SubscriptionEvent::Received(7u8), false),
        (SubscriptionState::Receiving, SubscriptionAction::Receive)
    );
}

#[test]
fn lag_is_survived() {
    assert_eq!(
        advance(SubscriptionState::Receiving, SubscriptionEvent::<u8>::Lagged(48), true),
        (SubscriptionState::Receiving, SubscriptionAction::Receive)
    );
}

#[test]
fn closed_bus_ends_the_subscription() {
    assert_eq!(
        advance(SubscriptionState::Receiving, SubscriptionEvent::<u8>::BusClosed, true),
        (SubscriptionState::Finished, SubscriptionAction::Exit)
    );
}

#[test]
fn written_event_leads_back_to_the_bus() {
    assert_eq!(
        advance(SubscriptionState::Writing, SubscriptionEvent::<u8>::Written, false),
        (SubscriptionState::Receiving, SubscriptionAction::Receive)
    );
}

#[test]
fn client_gone_ends_the_subscription() {
    assert_eq!(
        advance(SubscriptionState::Writing, SubscriptionEvent::<u8>::ClientGone, true),
        (SubscriptionState::Finished, SubscriptionAction::Exit)
    );
}

#[test]
fn report_that_answers_another_wait_ends_the_subscription() {
    assert_eq!(
        advance(SubscriptionState::Receiving, SubscriptionEvent::<u8>::Written, true),
        (SubscriptionState::Finished, SubscriptionAction::Exit)
    );
    assert_eq!(
        advance(SubscriptionState::Writing, SubscriptionEvent::Received(1u8), true),
        (SubscriptionState::Finished, SubscriptionAction::Exit)
    );
}

#[test]
fn finished_stays_finished() {
    assert_eq!(
        advance(SubscriptionState::Finished, SubscriptionEvent::Received(1u8), true),
        (SubscriptionState::Finished, SubscriptionAction::Exit)
    );
    assert_eq!(
        advance(SubscriptionState::Finished, SubscriptionEvent::<u8>::Written, true),
        (SubscriptionState::Finished, SubscriptionAction::Exit)
    );
}
