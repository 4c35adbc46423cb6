use api_gateway::models::{
    DecimalAmount, OrderSide, OrderStatus, OrderType, TradingOrder, TradingOrderDb, TriggerStatus, TriggerType,
};

fn db_order(filled: Option<DecimalAmount>) -> TradingOrderDb {
    TradingOrderDb {
        id: 1,
        user_id: 2,
        order_type: OrderType::Limit,
        side: OrderSide::Sell,
        energy_amount: DecimalAmount { mantissa: 105, scale: 1 },
        price_per_kwh: DecimalAmount { mantissa: 15, scale: 2 },
        filled_amount: filled,
        status: OrderStatus::PartiallyFilled,
        expires_at: Some(10),
        created_at: None,
        filled_at: None,
        epoch_id: Some(3),
        zone_id: Some(4),
        meter_id: None,
        refund_tx_signature: None,
        order_pda: Some("pda".to_string()),
    }
}

#[test]
fn missing_filled_amount_reads_as_zero() {
    let o: TradingOrder = TradingOrder::from(db_order(None));
    assert!(o.filled_amount.is_zero());
    assert_eq!(o.id, 1);
    assert_eq!(o.side, OrderSide::Sell);
    assert_eq!(o.status, OrderStatus::PartiallyFilled);
    assert_eq!(o.order_pda.as_deref(), Some("pda"));
    let o: TradingOrder = db_order(Some(DecimalAmount { mantissa: 25, scale: 1 })).into();
    assert_eq!(o.filled_amount, DecimalAmount { mantissa: 25, scale: 1 });
    assert_eq!(o.energy_amount, DecimalAmount { mantissa: 105, scale: 1 });
}

#[test]
fn trigger_names() {
    assert_eq!(TriggerType::StopLoss.to_string(), "stop_loss");
    assert_eq!(TriggerType::TakeProfit.to_string(), "take_profit");
    assert_eq!(TriggerType::TrailingStop.to_string(), "trailing_stop");
    assert_eq!(TriggerStatus::Pending.to_string(), "pending");
    assert_eq!(TriggerStatus::Triggered.to_string(), "triggered");
    assert_eq!(TriggerStatus::Cancelled.to_string(), "cancelled");
    assert_eq!(TriggerStatus::Expired.to_string(), "expired");
}

#[test]
fn decimal_signs() {
    assert!(DecimalAmount::zero().is_zero());
    assert!(DecimalAmount { mantissa: 1, scale: 28 }.is_positive());
    assert!(!DecimalAmount { mantissa: -1, scale: 0 }.is_positive());
    assert!(!DecimalAmount { mantissa: 0, scale: 3 }.is_positive());
}
