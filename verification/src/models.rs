//! Trading data model: order and role enumerations, decimal amounts and the
//! order records exchanged with storage.

use vstd::prelude::*;

verus! {

/// Outcome of looking something up in storage.
#[derive(Debug, Clone)]
pub enum Lookup<T> {
    Found(T),
    NotFound,
    Failed,
}

/// Roles a user account can hold.
#[derive(Debug, Clone, Copy, PartialEq, Eq, Structural)]
pub enum UserRole {
    User,
    Admin,
    Ami,
    Producer,
    Consumer,
}

#[derive(Debug, Clone, Copy, PartialEq, Eq, Structural)]
pub enum OrderType {
    Market,
    Limit,
}

#[derive(Debug, Clone, Copy, PartialEq, Eq, Structural)]
pub enum OrderSide {
    Buy,
    Sell,
}

#[derive(Debug, Clone, Copy, PartialEq, Eq, Structural)]
pub enum OrderStatus {
    Pending,
    Active,
    PartiallyFilled,
    Filled,
    Settled,
    Cancelled,
    Expired,
}

/// Type of conditional order trigger.
#[derive(Debug, Clone, Copy, PartialEq, Eq, Structural)]
pub enum TriggerType {
    /// Sell when price drops below trigger_price (to limit losses)
    StopLoss,
    /// Sell when price rises above trigger_price (to lock in profits)
    TakeProfit,
    /// Dynamic stop that follows price movements
    TrailingStop,
}

/// Status of a conditional order trigger.
#[derive(Debug, Clone, Copy, PartialEq, Eq, Structural)]
pub enum TriggerStatus {
    /// Waiting for trigger condition to be met
    Pending,
    /// Trigger condition met, order executed
    Triggered,
    /// Order cancelled by user
    Cancelled,
    /// Order expired before trigger
    Expired,
}

/// Snake-case name of a trigger type.
pub open spec fn trigger_type_name(t: TriggerType) -> Seq<char> {
    match t {
        TriggerType::StopLoss => "stop_loss"@,
        TriggerType::TakeProfit => "take_profit"@,
        TriggerType::TrailingStop => "trailing_stop"@,
    }
}

/// Snake-case name of a trigger status.
pub open spec fn trigger_status_name(s: TriggerStatus) -> Seq<char> {
    match s {
        TriggerStatus::Pending => "pending"@,
        TriggerStatus::Triggered => "triggered"@,
        TriggerStatus::Cancelled => "cancelled"@,
        TriggerStatus::Expired => "expired"@,
    }
}

impl TriggerType {
    /// The snake-case name used when the trigger type is displayed.
    pub fn to_string(&self) -> (s: String)
        ensures s@ == trigger_type_name(*self),
    {
        match self {
            TriggerType::StopLoss => String::from_str("stop_loss"),
            TriggerType::TakeProfit => String::from_str("take_profit"),
            TriggerType::TrailingStop => String::from_str("trailing_stop"),
        }
    }
}

impl TriggerStatus {
    /// The snake-case name used when the trigger status is displayed.
    pub fn to_string(&self) -> (s: String)
        ensures s@ == trigger_status_name(*self),
    {
        match self {
            TriggerStatus::Pending => String::from_str("pending"),
            TriggerStatus::Triggered => String::from_str("triggered"),
            TriggerStatus::Cancelled => String::from_str("cancelled"),
            TriggerStatus::Expired => String::from_str("expired"),
        }
    }
}

/// A decimal number `mantissa * 10^-scale`.
#[derive(Debug, Clone, Copy, PartialEq, Eq, Structural)]
pub struct DecimalAmount {
    pub mantissa: i128,
    pub scale: u32,
}

impl DecimalAmount {
    /// Zero, as a decimal.
    pub fn zero() -> (d: Self)
        ensures d.mantissa == 0, d.scale == 0,
    {
        DecimalAmount { mantissa: 0, scale: 0 }
    }

    pub fn is_zero(&self) -> (b: bool)
        ensures b == (self.mantissa == 0),
    {
        self.mantissa == 0
    }

    /// Whether the amount is greater than zero.
    pub fn is_positive(&self) -> (b: bool)
        ensures b == (self.mantissa > 0),
    {
        self.mantissa > 0
    }
}

/// A trading order as stored, where the filled amount may be missing.
#[derive(Debug, Clone)]
pub struct TradingOrderDb {
    pub id: u128,
    pub user_id: u128,
    pub order_type: OrderType,
    pub side: OrderSide,
    pub energy_amount: DecimalAmount,
    pub price_per_kwh: DecimalAmount,
    pub filled_amount: Option<DecimalAmount>,
    pub status: OrderStatus,
    /// Unix time in milliseconds.
    pub expires_at: Option<i64>,
    pub created_at: Option<i64>,
    pub filled_at: Option<i64>,
    pub epoch_id: Option<u128>,
    pub zone_id: Option<i32>,
    pub meter_id: Option<u128>,
    pub refund_tx_signature: Option<String>,
    pub order_pda: Option<String>,
}

/// A trading order as reported to clients.
#[derive(Debug, Clone)]
pub struct TradingOrder {
    pub id: u128,
    pub user_id: u128,
    pub order_type: OrderType,
    pub side: OrderSide,
    pub energy_amount: DecimalAmount,
    pub price_per_kwh: DecimalAmount,
    pub filled_amount: DecimalAmount,
    pub status: OrderStatus,
    /// Unix time in milliseconds.
    pub expires_at: Option<i64>,
    pub created_at: Option<i64>,
    pub filled_at: Option<i64>,
    pub epoch_id: Option<u128>,
    pub zone_id: Option<i32>,
    pub meter_id: Option<u128>,
    pub refund_tx_signature: Option<String>,
    pub order_pda: Option<String>,
}

/// The reported order of a stored one: every field carried over, a missing
/// filled amount reading as zero.
pub open spec fn order_from_db(db: TradingOrderDb) -> TradingOrder {
    TradingOrder {
        id: db.id,
        user_id: db.user_id,
        order_type: db.order_type,
        side: db.side,
        energy_amount: db.energy_amount,
        price_per_kwh: db.price_per_kwh,
        filled_amount: match db.filled_amount {
            Some(f) => f,
            None => DecimalAmount { mantissa: 0, scale: 0 },
        },
        status: db.status,
        expires_at: db.expires_at,
        created_at: db.created_at,
        filled_at: db.filled_at,
        epoch_id: db.epoch_id,
        zone_id: db.zone_id,
        meter_id: db.meter_id,
        refund_tx_signature: db.refund_tx_signature,
        order_pda: db.order_pda,
    }
}

impl From<TradingOrderDb> for TradingOrder {
    fn from(db: TradingOrderDb) -> (o: Self) {
        let filled_amount = match db.filled_amount {
            Some(f) => f,
            None => DecimalAmount::zero(),
        };
        TradingOrder {
            id: db.id,
            user_id: db.user_id,
            order_type: db.order_type,
            side: db.side,
            energy_amount: db.energy_amount,
            price_per_kwh: db.price_per_kwh,
            filled_amount,
            status: db.status,
            expires_at: db.expires_at,
            created_at: db.created_at,
            filled_at: db.filled_at,
            epoch_id: db.epoch_id,
            zone_id: db.zone_id,
            meter_id: db.meter_id,
            refund_tx_signature: db.refund_tx_signature,
            order_pda: db.order_pda,
        }
    }
}

impl vstd::std_specs::convert::FromSpecImpl<TradingOrderDb> for TradingOrder {
    open spec fn obeys_from_spec() -> bool {
        true
    }

    open spec fn from_spec(db: TradingOrderDb) -> Self {
        order_from_db(db)
    }
}

} // verus!

verus! {

/// Funds locked for an order.
#[derive(Debug, Clone)]
pub struct EscrowRecord {
    pub id: u128,
    pub user_id: u128,
    pub order_id: Option<u128>,
    pub amount: DecimalAmount,
    /// `"currency"` or `"energy"`.
    pub asset_type: String,
    /// `"buy_lock"` or `"sell_lock"`.
    pub escrow_type: String,
    /// `"locked"`, `"released"` or `"refunded"`.
    pub status: String,
    pub description: Option<String>,
    /// Unix time in milliseconds.
    pub created_at: i64,
    pub updated_at: i64,
}

/// A request to place an order.
#[derive(Debug, Clone)]
pub struct CreateOrderRequest {
    pub side: OrderSide,
    pub energy_amount: DecimalAmount,
    pub price_per_kwh: Option<DecimalAmount>,
    pub order_type: OrderType,
    /// Unix time in milliseconds.
    pub expiry_time: Option<i64>,
    pub zone_id: Option<i32>,
    pub meter_id: Option<u128>,
    /// HMAC-SHA256 signature of the order parameters.
    pub signature: Option<String>,
    /// When the signature was created.
    pub timestamp: Option<i64>,
}

/// A request to change the amount or price of an order.
#[derive(Debug, Clone)]
pub struct UpdateOrderRequest {
    pub energy_amount: Option<DecimalAmount>,
    pub price_per_kwh: Option<DecimalAmount>,
}

/// The pending orders of both sides.
#[derive(Debug, Clone)]
pub struct OrderBook {
    pub sell_orders: Vec<TradingOrder>,
    pub buy_orders: Vec<TradingOrder>,
}

/// An executed trade.
#[derive(Debug, Clone)]
pub struct Trade {
    pub id: u128,
    pub price: DecimalAmount,
    pub amount: DecimalAmount,
    /// Unix time in milliseconds.
    pub executed_at: i64,
}

/// The state of the market in the current epoch.
#[derive(Debug, Clone)]
pub struct MarketData {
    pub current_epoch: u64,
    /// Unix time in milliseconds.
    pub epoch_start_time: i64,
    pub epoch_end_time: i64,
    pub status: String,
    pub order_book: OrderBook,
    pub recent_trades: Vec<Trade>,
}

/// A request to create a conditional (stop-loss/take-profit) order.
#[derive(Debug, Clone)]
pub struct CreateConditionalOrderRequest {
    pub side: OrderSide,
    /// Amount of energy to trade.
    pub energy_amount: DecimalAmount,
    /// Price that triggers the order execution.
    pub trigger_price: DecimalAmount,
    pub trigger_type: TriggerType,
    /// Limit price of the order once triggered (a market order when absent).
    pub limit_price: Option<DecimalAmount>,
    /// For a trailing stop: the offset from the peak price.
    pub trailing_offset: Option<DecimalAmount>,
    /// Unix time in milliseconds.
    pub expiry_time: Option<i64>,
}

/// Answer to the creation of a conditional order.
#[derive(Debug, Clone)]
pub struct ConditionalOrderResponse {
    pub id: u128,
    pub trigger_type: TriggerType,
    pub trigger_status: TriggerStatus,
    pub trigger_price: DecimalAmount,
    /// Unix time in milliseconds.
    pub created_at: i64,
    pub message: String,
}

/// A conditional order as stored.
#[derive(Debug, Clone)]
pub struct ConditionalOrder {
    pub id: u128,
    pub user_id: u128,
    pub side: OrderSide,
    pub energy_amount: DecimalAmount,
    pub trigger_price: DecimalAmount,
    pub trigger_type: TriggerType,
    pub trigger_status: TriggerStatus,
    pub limit_price: Option<DecimalAmount>,
    pub trailing_offset: Option<DecimalAmount>,
    /// Unix time in milliseconds.
    pub expires_at: Option<i64>,
    pub created_at: i64,
    pub triggered_at: Option<i64>,
}

} // verus!
