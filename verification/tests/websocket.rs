use api_gateway::websocket::{
    broadcast_match_notification, broadcast_order_book_update, broadcast_p2p_order_update, broadcast_settlement_complete,
    broadcast_transaction_status_update, create_sample_order_book, websocket_auth_refusal, ConnectionManager,
    WsMessage,
};

#[test]
fn sample_order_book_contents() {
    let book = create_sample_order_book();
    assert_eq!(book.buys.len(), 2);
    assert_eq!(book.buys[0].price, "0.095");
    assert_eq!(book.buys[0].quantity, "100");
    assert_eq!(book.buys[0].order_count, 2);
    assert_eq!(book.buys[1].price, "0.090");
    assert_eq!(book.sells[0].quantity, "200");
    assert_eq!(book.sells[1].price, "0.105");
    assert_eq!(book.sells[1].order_count, 1);
}

#[test]
fn websocket_authentication() {
    assert_eq!(websocket_auth_refusal(false, false), Some("Token is required"));
    assert_eq!(websocket_auth_refusal(true, false), Some("Invalid or expired token"));
    assert_eq!(websocket_auth_refusal(true, true), None);
}

#[test]
fn connections_are_tracked_per_user() {
    let mut manager = ConnectionManager::new();
    assert_eq!(manager.connection_count(), 0);
    let mut rx = manager.add_connection(7);
    let _rx2 = manager.add_connection(8);
    let _rx3 = manager.add_connection(7);
    assert_eq!(manager.connection_count(), 2);
    // Sending to a user that is not connected does nothing.
    assert!(broadcast_transaction_status_update(&mut manager, 99, 1, "TokenMint".to_string(), "a".to_string(),
        "b".to_string(), None, None).is_ok());
    // The first receiver of user 7 was replaced: the message reaches the new one.
    assert!(broadcast_transaction_status_update(&mut manager, 7, 1, "TokenMint".to_string(), "a".to_string(),
        "b".to_string(), None, None).is_ok());
    assert!(rx.try_recv().is_err());
    manager.remove_connection(&7);
    assert_eq!(manager.connection_count(), 1);
}

#[test]
fn messages_reach_connected_users() {
    let mut manager = ConnectionManager::new();
    let mut buyer = manager.add_connection(1);
    let mut seller = manager.add_connection(2);
    assert!(broadcast_settlement_complete(&mut manager, 5, 1, 2, "10".to_string(), "1.5".to_string(), None).is_ok());
    match buyer.try_recv().unwrap() {
        WsMessage::SettlementComplete { settlement_id, seller_id, .. } => {
            assert_eq!(settlement_id, 5);
            assert_eq!(seller_id, 2);
        }
        other => panic!("unexpected {:?}", other),
    }
    assert!(matches!(seller.try_recv().unwrap(), WsMessage::SettlementComplete { buyer_id: 1, .. }));
    // Broadcasts never fail, even without listeners.
    assert!(broadcast_order_book_update(&mut manager, 3, create_sample_order_book()).is_ok());
    assert!(broadcast_match_notification(&mut manager, 1, 2, 3, "5".to_string(), "0.1".to_string()).is_ok());
}

#[test]
fn dropped_receiver_makes_delivery_fail() {
    let mut manager = ConnectionManager::new();
    let rx = manager.add_connection(4);
    drop(rx);
    let r = broadcast_transaction_status_update(&mut manager, 4, 9, "Stake".to_string(), "a".to_string(),
        "b".to_string(), None, None);
    match r {
        Err(e) => assert!(matches!(e.undelivered, WsMessage::TransactionStatusUpdate { operation_id: 9, .. })),
        Ok(()) => panic!("expected a delivery failure"),
    }
}

#[test]
fn undelivered_messages_keep_their_content() {
    let mut manager = ConnectionManager::new();
    drop(manager.add_connection(4));
    let r = broadcast_p2p_order_update(&mut manager, 11, 4, "sell".to_string(), "open".to_string(), "10".to_string(),
        "4".to_string(), "6".to_string(), "0.12".to_string());
    match r {
        Err(e) => match e.undelivered {
            WsMessage::P2POrderUpdate { order_id, user_id, side, filled_amount, remaining_amount, price_per_kwh, .. } => {
                assert_eq!((order_id, user_id), (11, 4));
                assert_eq!(side, "sell");
                assert_eq!(filled_amount, "4");
                assert_eq!(remaining_amount, "6");
                assert_eq!(price_per_kwh, "0.12");
            }
            other => panic!("unexpected {:?}", other),
        },
        Ok(()) => panic!("expected a delivery failure"),
    }
    // The buyer cannot be reached: the seller is not told either.
    let mut seller = manager.add_connection(5);
    let r = broadcast_settlement_complete(&mut manager, 8, 4, 5, "10".to_string(), "1.2".to_string(), Some("sig".to_string()));
    match r {
        Err(e) => match e.undelivered {
            WsMessage::SettlementComplete { settlement_id, energy_amount, total_cost, transaction_signature, .. } => {
                assert_eq!(settlement_id, 8);
                assert_eq!(energy_amount, "10");
                assert_eq!(total_cost, "1.2");
                assert_eq!(transaction_signature, Some("sig".to_string()));
            }
            other => panic!("unexpected {:?}", other),
        },
        Ok(()) => panic!("expected a delivery failure"),
    }
    assert!(seller.try_recv().is_err());
}

#[test]
fn order_book_update_reaches_shared_channel_listeners() {
    let mut manager = ConnectionManager::new();
    // The shared channel has no listener here: the update is dropped, yet the
    // broadcast succeeds.
    assert!(broadcast_order_book_update(&mut manager, 7, create_sample_order_book()).is_ok());
    assert_eq!(manager.connection_count(), 0);
}

#[test]
fn sample_book_is_not_crossed() {
    let book = create_sample_order_book();
    let price = |s: &str| s.parse::<f64>().unwrap();
    assert!(price(&book.buys[0].price) > price(&book.buys[1].price));
    assert!(price(&book.sells[0].price) < price(&book.sells[1].price));
    assert!(price(&book.buys[0].price) < price(&book.sells[0].price));
}
