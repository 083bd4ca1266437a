use cm_push::model::message::Message;
use cm_push::model::token::{tokens_from_wire, Token, TokenKey, TokenUpdate};
use cm_push::rpc::cm;
use std::collections::HashMap;

fn on_wire(text: &str, seconds: i64) -> cm::Token {
    cm::Token {
        key: Some(cm::TokenKey { key: text.to_string() }),
        timestamp: Some(cm::Timestamp { seconds, nanos: 0 }),
    }
}

/// The wall clock in whole seconds, read as the library reads it.
fn model_clock() -> i64 {
    chrono::DateTime::<chrono::Utc>::from(std::time::SystemTime::now()).timestamp()
}

#[test]
fn key_keeps_its_text() {
    assert_eq!(TokenKey::new("abc").key, "abc");
    assert_eq!(TokenKey::new("").key, "");
    assert!(TokenKey::new("a").same(&TokenKey::new("a")));
    assert!(!TokenKey::new("a").same(&TokenKey::new("b")));
    assert_eq!(TokenKey::new("a").clone(), TokenKey::new("a"));
}

#[test]
fn key_goes_to_the_wire_and_back() {
    assert_eq!(cm::TokenKey::from(TokenKey::new("k")), cm::TokenKey { key: "k".to_string() });
    assert_eq!(cm::TokenKey::from(&TokenKey::new("k")), cm::TokenKey { key: "k".to_string() });
    assert_eq!(TokenKey::from(cm::TokenKey { key: "k".to_string() }), TokenKey::new("k"));
}

#[test]
fn token_is_stamped_as_told() {
    assert_eq!(
        Token::stamped(TokenKey::new("k"), 42),
        Token { key: TokenKey::new("k"), timestamp: 42 }
    );
}

#[test]
fn new_token_reads_the_clock() {
    let before = model_clock();
    let token = Token::new(TokenKey::new("k"));
    let other = Token::from(TokenKey::new("j"));
    let after = model_clock();
    assert_eq!(token.key, TokenKey::new("k"));
    assert_eq!(other.key, TokenKey::new("j"));
    assert!(before <= token.timestamp && token.timestamp <= after);
    assert!(before <= other.timestamp && other.timestamp <= after);
}

#[test]
fn token_goes_to_the_wire_with_no_fraction() {
    let token = Token::stamped(TokenKey::new("k"), 42);
    assert_eq!(cm::Token::from(&token), on_wire("k", 42));
    assert_eq!(cm::Token::from(token), on_wire("k", 42));
}

#[test]
fn token_comes_off_the_wire_without_its_fraction() {
    let source = cm::Token {
        key: Some(cm::TokenKey { key: "k".to_string() }),
        timestamp: Some(cm::Timestamp { seconds: 42, nanos: 999 }),
    };
    assert_eq!(Token::from_wire(source), Token::stamped(TokenKey::new("k"), 42));
}

#[test]
fn update_goes_to_the_wire_and_back() {
    let update = TokenUpdate {
        original: Token::stamped(TokenKey::new("k"), 1),
        delta: Token::stamped(TokenKey::new("k"), 2),
    };
    let wire = cm::TokenUpdate::from(update.clone());
    assert_eq!(
        wire,
        cm::TokenUpdate { original: Some(on_wire("k", 1)), delta: Some(on_wire("k", 2)) }
    );
    assert_eq!(TokenUpdate::from_wire(wire), update);
}

#[test]
fn key_lists_go_to_the_wire_and_back() {
    let keys = vec![TokenKey::new("a"), TokenKey::new("b"), TokenKey::new("a")];
    let wire = cm::TokenKeys::from(keys.as_slice());
    assert_eq!(
        wire,
        cm::TokenKeys {
            keys: vec![
                cm::TokenKey { key: "a".to_string() },
                cm::TokenKey { key: "b".to_string() },
                cm::TokenKey { key: "a".to_string() },
            ],
        }
    );
    assert_eq!(Vec::<TokenKey>::from(wire), keys);
    assert_eq!(Vec::<TokenKey>::from(cm::TokenKeys { keys: Vec::new() }), Vec::new());
}

#[test]
fn token_lists_go_to_the_wire_and_back() {
    let tokens = vec![Token::stamped(TokenKey::new("a"), 1), Token::stamped(TokenKey::new("b"), 2)];
    let wire = cm::Tokens::from(tokens.as_slice());
    assert_eq!(wire, cm::Tokens { tokens: vec![on_wire("a", 1), on_wire("b", 2)] });
    assert_eq!(tokens_from_wire(wire), tokens);
}

#[test]
fn wire_key_list_knows_its_keys() {
    let keys = cm::TokenKeys {
        keys: vec![cm::TokenKey { key: "a".to_string() }, cm::TokenKey { key: "b".to_string() }],
    };
    assert!(keys.contains(&cm::TokenKey { key: "a".to_string() }));
    assert!(keys.contains(&cm::TokenKey { key: "b".to_string() }));
    assert!(!keys.contains(&cm::TokenKey { key: "c".to_string() }));
    assert!(!cm::TokenKeys { keys: Vec::new() }.contains(&cm::TokenKey { key: "a".to_string() }));
}

#[test]
fn message_goes_to_the_wire_and_back() {
    let mut content = HashMap::new();
    content.insert("title".to_string(), "hello".to_string());
    let message = Message {
        content: content.clone(),
        codomain: vec![TokenKey::new("a"), TokenKey::new("b")],
        timestamp: 77,
    };
    let expected = cm::Message {
        content: content.clone(),
        codomain: Some(cm::TokenKeys {
            keys: vec![
                cm::TokenKey { key: "a".to_string() },
                cm::TokenKey { key: "b".to_string() },
            ],
        }),
        timestamp: Some(cm::Timestamp { seconds: 77, nanos: 0 }),
    };
    assert_eq!(cm::Message::from(&message), expected);
    let back = Message::from_wire_ref(&expected);
    assert_eq!(back.content, content);
    assert_eq!(back.codomain, vec![TokenKey::new("a"), TokenKey::new("b")]);
    assert_eq!(back.timestamp, 77);
    assert_eq!(cm::Message::from(message), expected);
    let moved = Message::from_wire(expected);
    assert_eq!(moved.content, content);
    assert_eq!(moved.timestamp, 77);
}

#[test]
fn wire_clones_are_equal_to_their_source() {
    let mut content = HashMap::new();
    content.insert("a".to_string(), "b".to_string());
    let message = cm::Message {
        content,
        codomain: Some(cm::TokenKeys { keys: vec![cm::TokenKey { key: "k".to_string() }] }),
        timestamp: Some(cm::Timestamp { seconds: 1, nanos: 2 }),
    };
    assert_eq!(message.clone(), message);
    let broadcast = cm::NotificationBroadcast {
        operation: Some(cm::notification_broadcast::Operation::Send(message)),
    };
    assert_eq!(broadcast.clone(), broadcast);
    let update = cm::TokenUpdate { original: Some(on_wire("k", 1)), delta: None };
    assert_eq!(update.clone(), update);
    let event = cm::TokenBroadcast {
        operation: Some(cm::token_broadcast::Operation::Update(update)),
    };
    assert_eq!(event.clone(), event);
    let request = cm::TokenSubscribeRequest {
        filter: Some(cm::TokenSubscribeFilter {
            predicate: Some(cm::token_subscribe_filter::Predicate::Complement(cm::TokenKeys {
                keys: vec![cm::TokenKey { key: "k".to_string() }],
            })),
        }),
    };
    assert_eq!(request.clone(), request);
    let request = cm::NotificationSubscribeRequest {
        filter: Some(cm::NotificationSubscribeFilter {
            predicate: Some(cm::notification_subscribe_filter::Predicate::Union(cm::TokenKeys {
                keys: Vec::new(),
            })),
        }),
    };
    assert_eq!(request.clone(), request);
}
