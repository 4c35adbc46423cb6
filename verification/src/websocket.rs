//! WebSocket messaging: message types, the per-user connection registry and
//! the notifications sent through it.

use vstd::prelude::*;
use std::collections::HashMap;
use tokio::sync::broadcast::{Receiver, Sender};
use crate::clock::utc_now_millis;
use crate::text::copy_optional;

verus! {

broadcast use vstd::std_specs::hash::group_hash_axioms;

/// Order book entry.
#[derive(Debug, Clone)]
pub struct OrderBookEntry {
    pub price: String,
    pub quantity: String,
    pub order_count: i32,
}

/// WebSocket connection parameters.
#[derive(Debug, Clone)]
pub struct WsParams {
    /// Subscribe to specific channels (comma-separated)
    pub channels: Option<String>,
    /// Subscribe to specific epoch
    pub epoch: Option<i32>,
    /// Authentication token
    pub token: Option<String>,
}

/// Order book data structure.
#[derive(Debug, Clone)]
pub struct OrderBookData {
    pub buys: Vec<OrderBookEntry>,
    pub sells: Vec<OrderBookEntry>,
}

/// WebSocket message types. Times are Unix milliseconds; identifiers are the
/// 128-bit values of UUIDs.
#[derive(Debug, Clone)]
pub enum WsMessage {
    OrderBookUpdate { epoch_number: i32, buys: Vec<OrderBookEntry>, sells: Vec<OrderBookEntry>, timestamp: i64 },
    OrderUpdate { order_id: u128, status: String, timestamp: i64 },
    MatchNotification {
        match_id: u128,
        buy_order_id: u128,
        sell_order_id: u128,
        matched_amount: String,
        match_price: String,
        timestamp: i64,
    },
    EpochTransition { old_epoch: i32, new_epoch: i32, clearing_price: Option<String>, total_volume: String, timestamp: i64 },
    Error { code: String, message: String, timestamp: i64 },
    Ping { timestamp: i64 },
    Pong { timestamp: i64 },
    TransactionStatusUpdate {
        operation_id: u128,
        transaction_type: String,
        old_status: String,
        new_status: String,
        signature: Option<String>,
        error_message: Option<String>,
        timestamp: i64,
    },
    P2POrderUpdate {
        order_id: u128,
        user_id: u128,
        side: String,
        status: String,
        original_amount: String,
        filled_amount: String,
        remaining_amount: String,
        price_per_kwh: String,
        timestamp: i64,
    },
    SettlementComplete {
        settlement_id: u128,
        buyer_id: u128,
        seller_id: u128,
        energy_amount: String,
        total_cost: String,
        transaction_signature: Option<String>,
        timestamp: i64,
    },
}

fn entry(price: &str, quantity: &str, order_count: i32) -> (e: OrderBookEntry)
    ensures e.price@ == price@, e.quantity@ == quantity@, e.order_count == order_count,
{
    OrderBookEntry { price: String::from_str(price), quantity: String::from_str(quantity), order_count }
}

/// Whether `e` is the entry `(price, quantity, order_count)`.
pub open spec fn is_entry(e: OrderBookEntry, price: Seq<char>, quantity: Seq<char>, order_count: i32) -> bool {
    e.price@ == price && e.quantity@ == quantity && e.order_count == order_count
}

/// The sample order book: two bids and two asks.
pub open spec fn is_sample_book(b: OrderBookData) -> bool {
    &&& b.buys@.len() == 2
    &&& is_entry(b.buys@[0], "0.095"@, "100"@, 2)
    &&& is_entry(b.buys@[1], "0.090"@, "150"@, 1)
    &&& b.sells@.len() == 2
    &&& is_entry(b.sells@[0], "0.100"@, "200"@, 3)
    &&& is_entry(b.sells@[1], "0.105"@, "75"@, 1)
}

/// Sample order book data for testing: two bids and two asks.
pub fn create_sample_order_book() -> (b: OrderBookData)
    ensures
        is_sample_book(b),
{
    let mut buys: Vec<OrderBookEntry> = Vec::new();
    buys.push(entry("0.095", "100", 2));
    buys.push(entry("0.090", "150", 1));
    let mut sells: Vec<OrderBookEntry> = Vec::new();
    sells.push(entry("0.100", "200", 3));
    sells.push(entry("0.105", "75", 1));
    OrderBookData { buys, sells }
}

/// The value of a decimal digit.
pub open spec fn digit_value(c: char) -> int {
    (c as int) - ('0' as int)
}

/// A price written `0.ddd`, in thousandths; `-1` for any other text.
pub open spec fn price_thousandths(p: Seq<char>) -> int {
    if p.len() == 5 && p[0] == '0' && p[1] == '.'
        && '0' <= p[2] <= '9' && '0' <= p[3] <= '9' && '0' <= p[4] <= '9' {
        100 * digit_value(p[2]) + 10 * digit_value(p[3]) + digit_value(p[4])
    } else {
        -1
    }
}

/// The sample book is ordered as an order book is: bids from the highest
/// price down, asks from the lowest up, and the best bid below the best ask
/// (the book is not crossed).
pub proof fn law_sample_book_ordered(b: OrderBookData)
    requires
        is_sample_book(b),
    ensures
        price_thousandths(b.buys@[0].price@) > price_thousandths(b.buys@[1].price@) >= 0,
        0 <= price_thousandths(b.sells@[0].price@) < price_thousandths(b.sells@[1].price@),
        price_thousandths(b.buys@[0].price@) < price_thousandths(b.sells@[0].price@),
{
    reveal_strlit("0.095");
    reveal_strlit("0.090");
    reveal_strlit("0.100");
    reveal_strlit("0.105");
    assert(price_thousandths("0.095"@) == 95);
    assert(price_thousandths("0.090"@) == 90);
    assert(price_thousandths("0.100"@) == 100);
    assert(price_thousandths("0.105"@) == 105);
}

/// Why an authenticated WebSocket connection is refused, if it is.
pub fn websocket_auth_refusal(token_present: bool, token_valid: bool) -> (m: Option<&'static str>)
    ensures
        !token_present ==> (m matches Some(t) && t@ == "Token is required"@),
        token_present && !token_valid ==> (m matches Some(t) && t@ == "Invalid or expired token"@),
        token_present && token_valid ==> m is None,
{
    if !token_present {
        Some("Token is required")
    } else if !token_valid {
        Some("Invalid or expired token")
    } else {
        None
    }
}

#[verifier::external_type_specification]
#[verifier::external_body]
#[verifier::reject_recursive_types(T)]
pub struct ExSender<T>(Sender<T>);

#[verifier::external_type_specification]
#[verifier::external_body]
#[verifier::reject_recursive_types(T)]
pub struct ExReceiver<T>(Receiver<T>);

/// The messages written into a channel through `sender`, oldest first: each
/// one that `Sender::send` accepted, including those that receivers have
/// since read or that newer messages have since overwritten.
pub uninterp spec fn channel_queue(sender: Sender<WsMessage>) -> Seq<WsMessage>;

/// `tokio::sync::broadcast::channel`: a new channel with room for `capacity`
/// messages (the call panics for 0 and for more than `usize::MAX / 2`);
/// nothing has been written into it yet.
#[verifier::external_body]
fn message_channel(capacity: usize) -> (c: (Sender<WsMessage>, Receiver<WsMessage>))
    requires
        0 < capacity <= usize::MAX / 2,
    ensures
        channel_queue(c.0) == Seq::<WsMessage>::empty(),
{
    tokio::sync::broadcast::channel(capacity)
}

/// `Sender::send`: writes `message` into the channel for every subscribed
/// receiver and reports how many (at least one) there are. When no receiver
/// is subscribed it writes nothing and gives the message back.
#[verifier::external_body]
fn send_message(sender: &mut Sender<WsMessage>, message: WsMessage) -> (r: Result<usize, WsMessage>)
    ensures
        match r {
            Ok(n) => n > 0 && channel_queue(*final(sender)) == channel_queue(*old(sender)).push(message),
            Err(m) => m == message && channel_queue(*final(sender)) == channel_queue(*old(sender)),
        },
{
    match sender.send(message) {
        Ok(n) => Ok(n),
        Err(e) => Err(e.0),
    }
}

/// A message that could not be delivered because nobody was listening.
#[derive(Debug, Clone)]
pub struct DeliveryError {
    pub undelivered: WsMessage,
}

/// Capacity of the channel shared by all connections.
pub const BROADCAST_CAPACITY: usize = 1000;

/// Capacity of the channel of one user.
pub const USER_CHANNEL_CAPACITY: usize = 100;

/// WebSocket connection manager: one channel per connected user, and one
/// channel for messages to everybody.
pub struct ConnectionManager {
    connections: HashMap<u128, Sender<WsMessage>>,
    broadcaster: Sender<WsMessage>,
}

impl ConnectionManager {
    /// The users with an open connection.
    pub closed spec fn connected(&self) -> Set<u128> {
        self.connections@.dom()
    }

    /// The messages written into the channel of `user` (meaningful for a
    /// connected user).
    pub closed spec fn queue(&self, user: u128) -> Seq<WsMessage> {
        channel_queue(self.connections@[user])
    }

    /// The messages written into the channel shared by all connections.
    pub closed spec fn shared_queue(&self) -> Seq<WsMessage> {
        channel_queue(self.broadcaster)
    }

    /// The channels of the connected users other than `user` hold what they
    /// held in `before`.
    pub open spec fn others_unchanged(&self, before: ConnectionManager, user: u128) -> bool {
        forall|u: u128| u != user && #[trigger] before.connected().contains(u) ==> self.queue(u) == before.queue(u)
    }

    /// Sending `message` to `user` took `before` to `self` with outcome `r`:
    /// nothing happens for a user who is not connected; for a connected user
    /// the message is written into the user's channel, or, when nobody
    /// listens there, given back. No other channel changes.
    pub open spec fn sent_to_user(&self, before: ConnectionManager, user: u128, message: WsMessage, r: Result<(), DeliveryError>) -> bool {
        &&& self.connected() == before.connected()
        &&& self.shared_queue() == before.shared_queue()
        &&& self.others_unchanged(before, user)
        &&& !before.connected().contains(user) ==> r is Ok
        &&& before.connected().contains(user) ==> match r {
            Ok(()) => self.queue(user) == before.queue(user).push(message),
            Err(e) => e.undelivered == message && self.queue(user) == before.queue(user),
        }
    }

    /// Broadcasting `message` took `before` to `self`: the message is written
    /// into the shared channel, unless nobody listens there; no user channel
    /// changes.
    pub open spec fn broadcast_to_all(&self, before: ConnectionManager, message: WsMessage) -> bool {
        &&& self.connected() == before.connected()
        &&& forall|u: u128| #[trigger] before.connected().contains(u) ==> self.queue(u) == before.queue(u)
        &&& (self.shared_queue() == before.shared_queue().push(message) || self.shared_queue() == before.shared_queue())
    }

    pub fn new() -> (m: Self)
        ensures
            m.connected() == Set::<u128>::empty(),
            m.shared_queue() == Seq::<WsMessage>::empty(),
    {
        let (broadcaster, _) = message_channel(BROADCAST_CAPACITY);
        let connections: HashMap<u128, Sender<WsMessage>> = HashMap::new();
        let m = ConnectionManager { connections, broadcaster };
        assert(m.connected() =~= Set::<u128>::empty());
        m
    }

    /// Opens a connection for `user_id` with a fresh channel, replacing any
    /// previous one, and gives the receiving end of the user's channel.
    pub fn add_connection(&mut self, user_id: u128) -> (rx: Receiver<WsMessage>)
        ensures
            final(self).connected() == old(self).connected().insert(user_id),
            final(self).queue(user_id) == Seq::<WsMessage>::empty(),
            final(self).others_unchanged(*old(self), user_id),
            final(self).shared_queue() == old(self).shared_queue(),
    {
        let (tx, rx) = message_channel(USER_CHANNEL_CAPACITY);
        self.connections.insert(user_id, tx);
        rx
    }

    /// Closes the connection of `user_id`.
    pub fn remove_connection(&mut self, user_id: &u128)
        ensures
            final(self).connected() == old(self).connected().remove(*user_id),
            final(self).others_unchanged(*old(self), *user_id),
            final(self).shared_queue() == old(self).shared_queue(),
    {
        self.connections.remove(user_id);
    }

    /// Sends `message` to `user_id`: it is written into the user's channel
    /// when the user is connected and somebody listens there; nothing happens
    /// for a user who is not connected. Delivery fails only when the user's
    /// connection has no receiver left, giving the message back.
    pub fn send_to_user(&mut self, user_id: u128, message: WsMessage) -> (r: Result<(), DeliveryError>)
        ensures
            final(self).sent_to_user(*old(self), user_id, message, r),
    {
        match self.connections.remove(&user_id) {
            Some(mut sender) => {
                let ghost taken = sender;
                assert(old(self).connections@.contains_key(user_id));
                assert(taken == old(self).connections@[user_id]);
                let sent = send_message(&mut sender, message);
                self.connections.insert(user_id, sender);
                assert(self.connections@ == old(self).connections@.insert(user_id, sender));
                assert(self.connected() =~= old(self).connected());
                match sent {
                    Ok(_) => Ok(()),
                    Err(back) => Err(DeliveryError { undelivered: back }),
                }
            },
            None => {
                assert(self.connections@ =~= old(self).connections@);
                Ok(())
            },
        }
    }

    /// Offers `message` to the channel shared by all connections; a message
    /// nobody listens to is dropped, and the broadcast still succeeds.
    pub fn broadcast(&mut self, message: WsMessage) -> (r: Result<(), DeliveryError>)
        ensures
            r is Ok,
            final(self).broadcast_to_all(*old(self), message),
    {
        let _ = send_message(&mut self.broadcaster, message);
        Ok(())
    }

    /// Number of users with an open connection.
    pub fn connection_count(&self) -> (n: usize)
        ensures n == self.connected().len(),
    {
        self.connections.len()
    }
}

/// The order book announcement for `epoch_number`.
pub open spec fn order_book_update(epoch_number: i32, order_book: OrderBookData, timestamp: i64) -> WsMessage {
    WsMessage::OrderBookUpdate { epoch_number, buys: order_book.buys, sells: order_book.sells, timestamp }
}

/// The announcement of a match.
pub open spec fn match_notification(
    match_id: u128,
    buy_order_id: u128,
    sell_order_id: u128,
    matched_amount: String,
    match_price: String,
    timestamp: i64,
) -> WsMessage {
    WsMessage::MatchNotification { match_id, buy_order_id, sell_order_id, matched_amount, match_price, timestamp }
}

/// The notice that a blockchain operation changed status.
pub open spec fn transaction_status_update(
    operation_id: u128,
    transaction_type: String,
    old_status: String,
    new_status: String,
    signature: Option<String>,
    error_message: Option<String>,
    timestamp: i64,
) -> WsMessage {
    WsMessage::TransactionStatusUpdate {
        operation_id,
        transaction_type,
        old_status,
        new_status,
        signature,
        error_message,
        timestamp,
    }
}

/// The notice that an order changed.
pub open spec fn p2p_order_update(
    order_id: u128,
    user_id: u128,
    side: String,
    status: String,
    original_amount: String,
    filled_amount: String,
    remaining_amount: String,
    price_per_kwh: String,
    timestamp: i64,
) -> WsMessage {
    WsMessage::P2POrderUpdate {
        order_id,
        user_id,
        side,
        status,
        original_amount,
        filled_amount,
        remaining_amount,
        price_per_kwh,
        timestamp,
    }
}

/// The notice that a settlement completed.
pub open spec fn settlement_complete(
    settlement_id: u128,
    buyer_id: u128,
    seller_id: u128,
    energy_amount: String,
    total_cost: String,
    transaction_signature: Option<String>,
    timestamp: i64,
) -> WsMessage {
    WsMessage::SettlementComplete {
        settlement_id,
        buyer_id,
        seller_id,
        energy_amount,
        total_cost,
        transaction_signature,
        timestamp,
    }
}

/// Announces a new order book for `epoch_number` on the shared channel,
/// stamped with the current time.
pub fn broadcast_order_book_update(manager: &mut ConnectionManager, epoch_number: i32, order_book: OrderBookData) -> (r: Result<(), DeliveryError>)
    ensures
        r is Ok,
        exists|t: i64| final(manager).broadcast_to_all(*old(manager), #[trigger] order_book_update(epoch_number, order_book, t)),
{
    let timestamp = utc_now_millis();
    let message = WsMessage::OrderBookUpdate {
        epoch_number,
        buys: order_book.buys,
        sells: order_book.sells,
        timestamp,
    };
    let r = manager.broadcast(message);
    assert(manager.broadcast_to_all(*old(manager), order_book_update(epoch_number, order_book, timestamp)));
    r
}

/// Announces a match on the shared channel, stamped with the current time.
pub fn broadcast_match_notification(
    manager: &mut ConnectionManager,
    match_id: u128,
    buy_order_id: u128,
    sell_order_id: u128,
    matched_amount: String,
    match_price: String,
) -> (r: Result<(), DeliveryError>)
    ensures
        r is Ok,
        exists|t: i64| final(manager).broadcast_to_all(*old(manager),
            #[trigger] match_notification(match_id, buy_order_id, sell_order_id, matched_amount, match_price, t)),
{
    let timestamp = utc_now_millis();
    let ghost expected = match_notification(match_id, buy_order_id, sell_order_id, matched_amount, match_price, timestamp);
    let message = WsMessage::MatchNotification {
        match_id,
        buy_order_id,
        sell_order_id,
        matched_amount,
        match_price,
        timestamp,
    };
    let r = manager.broadcast(message);
    assert(manager.broadcast_to_all(*old(manager), expected));
    r
}

/// Tells `user_id` that one of its blockchain operations changed status,
/// stamped with the current time.
pub fn broadcast_transaction_status_update(
    manager: &mut ConnectionManager,
    user_id: u128,
    operation_id: u128,
    transaction_type: String,
    old_status: String,
    new_status: String,
    signature: Option<String>,
    error_message: Option<String>,
) -> (r: Result<(), DeliveryError>)
    ensures
        exists|t: i64| final(manager).sent_to_user(*old(manager), user_id,
            #[trigger] transaction_status_update(operation_id, transaction_type, old_status, new_status,
                signature, error_message, t), r),
{
    let timestamp = utc_now_millis();
    let ghost expected = transaction_status_update(operation_id, transaction_type, old_status, new_status,
        signature, error_message, timestamp);
    let message = WsMessage::TransactionStatusUpdate {
        operation_id,
        transaction_type,
        old_status,
        new_status,
        signature,
        error_message,
        timestamp,
    };
    let r = manager.send_to_user(user_id, message);
    assert(manager.sent_to_user(*old(manager), user_id, expected, r));
    r
}

/// Tells the owner of an order that the order changed, stamped with the
/// current time.
pub fn broadcast_p2p_order_update(
    manager: &mut ConnectionManager,
    order_id: u128,
    user_id: u128,
    side: String,
    status: String,
    original_amount: String,
    filled_amount: String,
    remaining_amount: String,
    price_per_kwh: String,
) -> (r: Result<(), DeliveryError>)
    ensures
        exists|t: i64| final(manager).sent_to_user(*old(manager), user_id,
            #[trigger] p2p_order_update(order_id, user_id, side, status, original_amount, filled_amount,
                remaining_amount, price_per_kwh, t), r),
{
    let timestamp = utc_now_millis();
    let ghost expected = p2p_order_update(order_id, user_id, side, status, original_amount, filled_amount,
        remaining_amount, price_per_kwh, timestamp);
    let message = WsMessage::P2POrderUpdate {
        order_id,
        user_id,
        side,
        status,
        original_amount,
        filled_amount,
        remaining_amount,
        price_per_kwh,
        timestamp,
    };
    let r = manager.send_to_user(user_id, message);
    assert(manager.sent_to_user(*old(manager), user_id, expected, r));
    r
}

/// Tells buyer and seller, in that order, that a settlement completed, with
/// one message stamped with the current time; when delivery to the buyer
/// fails the seller is not told.
pub fn broadcast_settlement_complete(
    manager: &mut ConnectionManager,
    settlement_id: u128,
    buyer_id: u128,
    seller_id: u128,
    energy_amount: String,
    total_cost: String,
    transaction_signature: Option<String>,
) -> (r: Result<(), DeliveryError>)
    ensures
        exists|t: i64, mid: ConnectionManager, first: Result<(), DeliveryError>|
            #![trigger mid.sent_to_user(*old(manager), buyer_id, settlement_complete(settlement_id, buyer_id, seller_id,
                energy_amount, total_cost, transaction_signature, t), first)]
        {
            let m = settlement_complete(settlement_id, buyer_id, seller_id, energy_amount, total_cost,
                transaction_signature, t);
            &&& mid.sent_to_user(*old(manager), buyer_id, m, first)
            &&& first is Err ==> *final(manager) == mid && r == first
            &&& first is Ok ==> final(manager).sent_to_user(mid, seller_id, m, r)
        },
{
    let timestamp = utc_now_millis();
    let ghost expected = settlement_complete(settlement_id, buyer_id, seller_id, energy_amount, total_cost,
        transaction_signature, timestamp);
    let for_buyer = WsMessage::SettlementComplete {
        settlement_id,
        buyer_id,
        seller_id,
        energy_amount: energy_amount.clone(),
        total_cost: total_cost.clone(),
        transaction_signature: copy_optional(&transaction_signature),
        timestamp,
    };
    let first = manager.send_to_user(buyer_id, for_buyer);
    let ghost mid = *manager;
    assert(mid.sent_to_user(*old(manager), buyer_id, expected, first));
    match first {
        Err(e) => {
            return Err(e);
        },
        Ok(()) => {},
    }
    let for_seller = WsMessage::SettlementComplete {
        settlement_id,
        buyer_id,
        seller_id,
        energy_amount,
        total_cost,
        transaction_signature,
        timestamp,
    };
    let r = manager.send_to_user(seller_id, for_seller);
    assert(manager.sent_to_user(mid, seller_id, expected, r));
    r
}

} // verus!
