use cm_push::rpc::cm::token_subscribe_filter;
use cm_push::rpc::cm::TokenKey;
use cm_push::rpc::cm::TokenKeys;
use cm_push::rpc::cm::TokenSubscribeFilter;
use cm_push::rpc::cm::TokenSubscribeRequest;
use cm_push::rpc::cm_token::token_subscribe_filter;

#[test]
fn filter_complement() {
    let set0: Vec<TokenKey> = vec![
        TokenKey {
            key: "a".to_string(),
        },
        TokenKey {
            key: "b".to_string(),
        },
    ];
    let set1: Vec<TokenKey> = vec![
        TokenKey {
            key: "c".to_string(),
        },
        TokenKey {
            key: "d".to_string(),
        },
    ];

    let set2: Vec<TokenKey> = vec![
        TokenKey {
            key: "a".to_string(),
        },
        TokenKey {
            key: "c".to_string(),
        },
    ];

    let req0 = TokenSubscribeRequest {
        filter: Some(TokenSubscribeFilter {
            predicate: Some(token_subscribe_filter::Predicate::Complement(TokenKeys {
                keys: set0.clone(),
            })),
        }),
    };

    {
        let mut pass = true;
        set0.iter().for_each(|key| {
            if !token_subscribe_filter(&req0, key) {
                pass = false;
            }
        });

        assert_eq!(pass, false);
    }

    {
        let mut pass = true;
        set1.iter().for_each(|key| {
            if !token_subscribe_filter(&req0, key) {
                pass = false;
            }
        });

        assert_eq!(pass, true);
    }

    {
        let mut pass = true;
        set2.iter().for_each(|key| {
            if !token_subscribe_filter(&req0, key) {
                pass = false;
            }
        });

        assert_eq!(pass, false);
    }
}

#[test]
fn filter_intersection() {
    let set0: Vec<TokenKey> = vec![
        TokenKey {
            key: "a".to_string(),
        },
        TokenKey {
            key: "b".to_string(),
        },
    ];
    let set1: Vec<TokenKey> = vec![
        TokenKey {
            key: "c".to_string(),
        },
        TokenKey {
            key: "d".to_string(),
        },
    ];

    let set2: Vec<TokenKey> = vec![
        TokenKey {
            key: "a".to_string(),
        },
        TokenKey {
            key: "c".to_string(),
        },
    ];

    let req0 = TokenSubscribeRequest {
        filter: Some(TokenSubscribeFilter {
            predicate: Some(token_subscribe_filter::Predicate::Intersection(TokenKeys {
                keys: set0.clone(),
            })),
        }),
    };

    {
        let mut pass = true;
        set0.iter().for_each(|key| {
            if !token_subscribe_filter(&req0, key) {
                pass = false;
            }
        });

        assert_eq!(pass, true);
    }

    {
        let mut pass = true;
        set1.iter().for_each(|key| {
            if !token_subscribe_filter(&req0, key) {
                pass = false;
            }
        });

        assert_eq!(pass, false);
    }

    {
        let mut pass = true;
        set2.iter().for_each(|key| {
            if !token_subscribe_filter(&req0, key) {
                pass = false;
            }
        });

        assert_eq!(pass, false);
    }
}
