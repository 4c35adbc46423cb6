//! Price alerts: validation of new alerts and the answers of the alert
//! endpoints.

use vstd::prelude::*;
use crate::error::ApiError;
use crate::models::DecimalAmount;
use crate::text::concat_str;

verus! {

/// Alert condition type.
#[derive(Debug, Clone, Copy, PartialEq, Eq, Structural)]
pub enum AlertCondition {
    /// Trigger when price goes above target
    Above,
    /// Trigger when price goes below target
    Below,
    /// Trigger when price crosses target in either direction
    Crosses,
}

/// Alert status.
#[derive(Debug, Clone, Copy, PartialEq, Eq, Structural)]
pub enum AlertStatus {
    Active,
    Triggered,
    Cancelled,
}

/// Price alert record.
#[derive(Debug, Clone)]
pub struct PriceAlert {
    pub id: u128,
    pub user_id: u128,
    pub target_price: DecimalAmount,
    pub condition: AlertCondition,
    pub status: AlertStatus,
    /// Unix time in milliseconds.
    pub triggered_at: Option<i64>,
    pub triggered_price: Option<DecimalAmount>,
    pub repeat: bool,
    pub note: Option<String>,
    pub created_at: i64,
}

/// Request to create a price alert.
#[derive(Debug, Clone)]
pub struct CreatePriceAlertRequest {
    pub target_price: DecimalAmount,
    pub condition: AlertCondition,
    /// Re-arm alert after triggering
    pub repeat: Option<bool>,
    pub note: Option<String>,
}

/// Response for price alert creation.
#[derive(Debug, Clone)]
pub struct PriceAlertResponse {
    pub id: u128,
    pub target_price: DecimalAmount,
    pub condition: AlertCondition,
    pub status: AlertStatus,
    pub created_at: i64,
    pub message: String,
}

/// How the condition reads in the confirmation message.
pub open spec fn condition_word(c: AlertCondition) -> Seq<char> {
    match c {
        AlertCondition::Above => "above"@,
        AlertCondition::Below => "below"@,
        AlertCondition::Crosses => "to"@,
    }
}

/// Only alerts with a positive target price are accepted.
pub fn validate_target_price(target_price: &DecimalAmount) -> (r: Result<(), ApiError>)
    ensures
        target_price.mantissa > 0 ==> r is Ok,
        target_price.mantissa <= 0 ==> (r matches Err(ApiError::BadRequest(m)) && m@ == "Target price must be positive"@),
{
    if target_price.is_positive() {
        Ok(())
    } else {
        Err(ApiError::BadRequest(String::from_str("Target price must be positive")))
    }
}

/// Whether the new alert re-arms after triggering (no by default).
pub fn repeats(request: &CreatePriceAlertRequest) -> (b: bool)
    ensures b == (request.repeat == Some(true)),
{
    match request.repeat {
        Some(r) => r,
        None => false,
    }
}

/// The insertion of an alert must have stored a row.
pub fn insert_outcome(rows_affected: u64) -> (r: Result<(), ApiError>)
    ensures
        rows_affected > 0 ==> r is Ok,
        rows_affected == 0 ==> (r matches Err(ApiError::Internal(m)) && m@ == "Failed to insert alert"@),
{
    if rows_affected == 0 {
        Err(ApiError::Internal(String::from_str("Failed to insert alert")))
    } else {
        Ok(())
    }
}

/// Deleting an alert that is not the caller's (or does not exist) is refused.
pub fn delete_outcome(rows_affected: u64) -> (r: Result<(), ApiError>)
    ensures
        rows_affected > 0 ==> r is Ok,
        rows_affected == 0 ==> (r matches Err(ApiError::NotFound(m)) && m@ == "Alert not found"@),
{
    if rows_affected == 0 {
        Err(ApiError::NotFound(String::from_str("Alert not found")))
    } else {
        Ok(())
    }
}

/// The confirmation of a created alert, with the target price as displayed
/// (`price_text`).
pub fn alert_created_response(id: u128, request: &CreatePriceAlertRequest, created_at: i64, price_text: &str) -> (r: PriceAlertResponse)
    ensures
        r.id == id,
        r.target_price == request.target_price,
        r.condition == request.condition,
        r.status == AlertStatus::Active,
        r.created_at == created_at,
        r.message@ == "Alert created. You'll be notified when price goes "@ + condition_word(request.condition) + " "@ + price_text@,
{
    let word = match request.condition {
        AlertCondition::Above => "above",
        AlertCondition::Below => "below",
        AlertCondition::Crosses => "to",
    };
    let mut message = concat_str("Alert created. You'll be notified when price goes ", word);
    message.append(" ");
    message.append(price_text);
    PriceAlertResponse {
        id,
        target_price: request.target_price,
        condition: request.condition,
        status: AlertStatus::Active,
        created_at,
        message,
    }
}

} // verus!
