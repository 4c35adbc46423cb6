//! Meter readings: who may submit them, which wallet and meter a submission
//! belongs to, how it is verified, what happens on chain, and which stored
//! readings are reported.

use vstd::prelude::*;
use crate::auth::require_role;
use crate::error::ApiError;
use crate::models::{DecimalAmount, Lookup};
use crate::text::{concat_str, copy_optional, str_eq};

verus! {

/// A reading as stored; older rows may lack some fields.
#[derive(Debug, Clone)]
pub struct MeterReadingRecord {
    pub id: u128,
    pub user_id: Option<u128>,
    pub wallet_address: String,
    pub kwh_amount: Option<DecimalAmount>,
    /// Unix time in milliseconds.
    pub reading_timestamp: Option<i64>,
    pub submitted_at: Option<i64>,
    pub minted: Option<bool>,
    pub mint_tx_signature: Option<String>,
}

/// A reading as reported to clients.
#[derive(Debug, Clone)]
pub struct MeterReadingResponse {
    pub id: u128,
    pub user_id: u128,
    pub wallet_address: String,
    pub kwh_amount: DecimalAmount,
    pub reading_timestamp: i64,
    pub submitted_at: i64,
    pub minted: bool,
    pub mint_tx_signature: Option<String>,
}

/// The report of a stored reading that has every required field.
pub open spec fn reported_reading(r: MeterReadingRecord) -> Option<MeterReadingResponse> {
    match (r.user_id, r.kwh_amount, r.reading_timestamp, r.submitted_at) {
        (Some(user_id), Some(kwh_amount), Some(reading_timestamp), Some(submitted_at)) => Some(MeterReadingResponse {
            id: r.id,
            user_id,
            wallet_address: r.wallet_address,
            kwh_amount,
            reading_timestamp,
            submitted_at,
            minted: match r.minted { Some(m) => m, None => false },
            mint_tx_signature: r.mint_tx_signature,
        }),
        _ => None,
    }
}

/// The report of a stored reading, or `None` when a required field is missing.
pub fn complete_reading(r: &MeterReadingRecord) -> (out: Option<MeterReadingResponse>)
    ensures out == reported_reading(*r),
{
    match (r.user_id, r.kwh_amount, r.reading_timestamp, r.submitted_at) {
        (Some(user_id), Some(kwh_amount), Some(reading_timestamp), Some(submitted_at)) => Some(MeterReadingResponse {
            id: r.id,
            user_id,
            wallet_address: r.wallet_address.clone(),
            kwh_amount,
            reading_timestamp,
            submitted_at,
            minted: match r.minted { Some(m) => m, None => false },
            mint_tx_signature: copy_optional(&r.mint_tx_signature),
        }),
        _ => None,
    }
}

/// The reports of the stored readings that have every required field, in order.
pub fn complete_readings(records: &Vec<MeterReadingRecord>) -> (out: Vec<MeterReadingResponse>)
    ensures out@ == records@.filter_map(|r: MeterReadingRecord| reported_reading(r)),
{
    let ghost f = |r: MeterReadingRecord| reported_reading(r);
    let mut out: Vec<MeterReadingResponse> = Vec::new();
    let mut i: usize = 0;
    proof {
        assert(records@.take(0) =~= Seq::<MeterReadingRecord>::empty());
    }
    while i < records.len()
        invariant
            i <= records.len(),
            out@ == records@.take(i as int).filter_map(f),
            f == (|r: MeterReadingRecord| reported_reading(r)),
        decreases records.len() - i,
    {
        proof {
            assert(records@.take(i + 1).drop_last() =~= records@.take(i as int));
            assert(records@.take(i + 1).last() == records@[i as int]);
        }
        match complete_reading(&records[i]) {
            Some(resp) => {
                out.push(resp);
            },
            None => {},
        }
        i = i + 1;
    }
    proof {
        assert(records@.take(i as int) =~= records@);
    }
    out
}

/// The report of a freshly stored reading; a missing required field is an
/// internal error, checked in the order user, amount, reading time, submission
/// time.
pub fn reading_response(r: MeterReadingRecord) -> (out: Result<MeterReadingResponse, ApiError>)
    ensures
        match reported_reading(r) {
            Some(resp) => out == Ok::<MeterReadingResponse, ApiError>(resp),
            None => out matches Err(ApiError::Internal(m)) && m@ == (
                if r.user_id is None { "Missing user_id"@ }
                else if r.kwh_amount is None { "Missing kwh_amount"@ }
                else if r.reading_timestamp is None { "Missing reading_timestamp"@ }
                else { "Missing submitted_at"@ }),
        },
{
    if r.user_id.is_none() {
        return Err(ApiError::Internal(String::from_str("Missing user_id")));
    }
    if r.kwh_amount.is_none() {
        return Err(ApiError::Internal(String::from_str("Missing kwh_amount")));
    }
    if r.reading_timestamp.is_none() {
        return Err(ApiError::Internal(String::from_str("Missing reading_timestamp")));
    }
    if r.submitted_at.is_none() {
        return Err(ApiError::Internal(String::from_str("Missing submitted_at")));
    }
    match complete_reading(&r) {
        Some(resp) => Ok(resp),
        None => Err(ApiError::Internal(String::from_str("Missing submitted_at"))),
    }
}

/// Who submits a reading.
#[derive(Debug, Clone, Copy, PartialEq, Eq, Structural)]
pub enum Submitter {
    Prosumer,
    Admin,
    /// The metering infrastructure (or its simulator), trusted to submit for
    /// any meter.
    Ami,
}

/// The submitter kind of a role name, if that role may submit readings.
pub open spec fn submitter_of(role: Seq<char>) -> Option<Submitter> {
    if role == "prosumer"@ { Some(Submitter::Prosumer) }
    else if role == "admin"@ { Some(Submitter::Admin) }
    else if role == "ami"@ { Some(Submitter::Ami) }
    else { None }
}

/// Only prosumers, administrators and the metering infrastructure may submit
/// readings.
pub fn authorize_submitter(role: &str) -> (r: Result<Submitter, ApiError>)
    ensures
        r is Ok <==> (role@ == "prosumer"@ || role@ == "admin"@ || role@ == "ami"@),
        r is Err ==> (r matches Err(ApiError::Forbidden(m)) && m@ == "Only prosumers or AMI can submit meter readings"@),
        role@ == "ami"@ ==> r == Ok::<Submitter, ApiError>(Submitter::Ami),
        match submitter_of(role@) {
            Some(s) => r == Ok::<Submitter, ApiError>(s),
            None => r matches Err(ApiError::Forbidden(m)) && m@ == "Only prosumers or AMI can submit meter readings"@,
        },
{
    proof { law_only_three_roles_submit(role@); }
    if str_eq(role, "prosumer") {
        Ok(Submitter::Prosumer)
    } else if str_eq(role, "admin") {
        Ok(Submitter::Admin)
    } else if str_eq(role, "ami") {
        Ok(Submitter::Ami)
    } else {
        Err(ApiError::Forbidden(String::from_str("Only prosumers or AMI can submit meter readings")))
    }
}

/// Exactly the roles `"prosumer"`, `"admin"` and `"ami"` may submit readings,
/// and only `"ami"` submits as the metering infrastructure.
pub proof fn law_only_three_roles_submit(role: Seq<char>)
    ensures
        submitter_of(role) is Some <==> (role == "prosumer"@ || role == "admin"@ || role == "ami"@),
        submitter_of(role) == Some(Submitter::Ami) <==> role == "ami"@,
{
    reveal_strlit("prosumer");
    reveal_strlit("admin");
    reveal_strlit("ami");
    assert("ami"@.len() != "admin"@.len() && "ami"@.len() != "prosumer"@.len());
}

/// The wallet a reading is credited to: the one named in the request for the
/// metering infrastructure, otherwise the submitter's own stored wallet
/// (`account_wallet`, looked up only for them).
pub fn submission_wallet(submitter: Submitter, request_wallet: Option<String>, account_wallet: Lookup<Option<String>>) -> (r: Result<String, ApiError>)
    ensures
        submitter == Submitter::Ami ==> match request_wallet {
            Some(w) => r == Ok::<String, ApiError>(w),
            None => r matches Err(ApiError::BadRequest(m)) && m@ == "Wallet address required for AMI submission"@,
        },
        submitter != Submitter::Ami ==> match account_wallet {
            Lookup::Found(Some(w)) => r == Ok::<String, ApiError>(w),
            Lookup::Found(None) => r matches Err(ApiError::BadRequest(m)) && m@ == "Wallet address not set for user"@,
            _ => r matches Err(ApiError::Internal(m)) && m@ == "Failed to fetch user data"@,
        },
{
    if submitter == Submitter::Ami {
        match request_wallet {
            Some(w) => Ok(w),
            None => Err(ApiError::BadRequest(String::from_str("Wallet address required for AMI submission"))),
        }
    } else {
        match account_wallet {
            Lookup::Found(Some(w)) => Ok(w),
            Lookup::Found(None) => Err(ApiError::BadRequest(String::from_str("Wallet address not set for user"))),
            _ => Err(ApiError::Internal(String::from_str("Failed to fetch user data"))),
        }
    }
}

/// A meter as registered.
#[derive(Debug, Clone)]
pub struct RegisteredMeter {
    pub id: u128,
    pub public_key: Option<String>,
    pub owner_id: u128,
    pub verification_status: String,
}

/// A signed reading from a registered meter is accepted only when the meter
/// is verified and its owner's stored wallet (`owner_wallet`) is the wallet
/// the reading is credited to.
pub fn check_registered_meter(meter: &RegisteredMeter, owner_wallet: &Lookup<Option<String>>, wallet: &str) -> (r: Result<(), ApiError>)
    ensures
        meter.verification_status@ != "verified"@ ==> (r matches Err(ApiError::Forbidden(m))
            && m@ == "Meter is not verified. Please wait for admin approval."@),
        meter.verification_status@ == "verified"@ ==> match *owner_wallet {
            Lookup::Found(Some(w)) => if w@ == wallet@ {
                r is Ok
            } else {
                r matches Err(ApiError::Forbidden(m)) && m@ == "Wallet address does not match meter owner"@
            },
            Lookup::Found(None) => r matches Err(ApiError::BadRequest(m))
                && m@ == "Meter owner has not initialized their wallet. Please login to the dashboard first."@,
            _ => r matches Err(ApiError::Internal(m)) && m@ == "Failed to verify meter ownership"@,
        },
{
    if !str_eq(meter.verification_status.as_str(), "verified") {
        return Err(ApiError::Forbidden(String::from_str("Meter is not verified. Please wait for admin approval.")));
    }
    match owner_wallet {
        Lookup::Found(Some(w)) => {
            if str_eq(w.as_str(), wallet) {
                Ok(())
            } else {
                Err(ApiError::Forbidden(String::from_str("Wallet address does not match meter owner")))
            }
        },
        Lookup::Found(None) => Err(ApiError::BadRequest(String::from_str(
            "Meter owner has not initialized their wallet. Please login to the dashboard first.",
        ))),
        _ => Err(ApiError::Internal(String::from_str("Failed to verify meter ownership"))),
    }
}

/// The meter a signed reading is attributed to: the requested one, or the
/// registered meter when none was requested and the meter has a public key.
pub fn resolve_meter_id(requested: Option<u128>, meter: &RegisteredMeter) -> (id: Option<u128>)
    ensures
        id == (if requested is None && meter.public_key is Some { Some(meter.id) } else { requested }),
{
    if requested.is_none() && meter.public_key.is_some() {
        Some(meter.id)
    } else {
        requested
    }
}

/// The outcome of checking a reading's signature (`Ok(valid)`, or the text
/// of the error that prevented checking it).
pub fn signature_outcome(checked: Result<bool, String>) -> (r: Result<(), ApiError>)
    ensures
        match checked {
            Ok(true) => r is Ok,
            Ok(false) => r matches Err(ApiError::Unauthorized(m)) && m@ == "Invalid meter signature"@,
            Err(e) => r matches Err(ApiError::BadRequest(m)) && m@ == "Signature verification failed: "@ + e@,
        },
{
    match checked {
        Ok(true) => Ok(()),
        Ok(false) => Err(ApiError::Unauthorized(String::from_str("Invalid meter signature"))),
        Err(e) => Err(ApiError::BadRequest(concat_str("Signature verification failed: ", e.as_str()))),
    }
}

/// How the owner of a submitted reading is established.
#[derive(Debug, Clone, Copy, PartialEq, Eq, Structural)]
pub enum OwnershipPlan {
    /// Ask the verification service whether the submitter owns the meter; the
    /// submitter is the owner.
    VerifySubmitterOwns(u128),
    /// The metering infrastructure submits for a known meter: its owner is
    /// looked up.
    LookUpMeterOwner(u128),
    /// The metering infrastructure submits without a meter id: the owner of
    /// the meter with the submitted serial is looked up.
    LookUpSerialOwner,
    /// A submission without a meter: the submitter is the owner.
    SubmitterIsOwner,
}

/// How the owner of a reading is found, given who submits it, the meter it
/// was attributed to, and whether a meter serial was submitted.
pub fn ownership_plan(submitter: Submitter, meter_id: Option<u128>, has_serial: bool) -> (r: Result<OwnershipPlan, ApiError>)
    ensures
        match meter_id {
            Some(id) => r == Ok::<OwnershipPlan, ApiError>(if submitter == Submitter::Ami {
                OwnershipPlan::LookUpMeterOwner(id)
            } else {
                OwnershipPlan::VerifySubmitterOwns(id)
            }),
            None => if submitter != Submitter::Ami {
                r == Ok::<OwnershipPlan, ApiError>(OwnershipPlan::SubmitterIsOwner)
            } else if has_serial {
                r == Ok::<OwnershipPlan, ApiError>(OwnershipPlan::LookUpSerialOwner)
            } else {
                r matches Err(ApiError::BadRequest(m)) && m@ == "AMI must provide meter_id or serial"@
            },
        },
{
    match meter_id {
        Some(id) => {
            if submitter == Submitter::Ami {
                Ok(OwnershipPlan::LookUpMeterOwner(id))
            } else {
                Ok(OwnershipPlan::VerifySubmitterOwns(id))
            }
        },
        None => {
            if submitter != Submitter::Ami {
                Ok(OwnershipPlan::SubmitterIsOwner)
            } else if has_serial {
                Ok(OwnershipPlan::LookUpSerialOwner)
            } else {
                Err(ApiError::BadRequest(String::from_str("AMI must provide meter_id or serial")))
            }
        },
    }
}

/// The verification status a reading is stored with: verified when it is
/// attributed to a meter, legacy otherwise.
pub fn verification_status(meter_id: Option<u128>) -> (s: &'static str)
    ensures s@ == (if meter_id is Some { "verified"@ } else { "legacy_unverified"@ }),
{
    if meter_id.is_some() { "verified" } else { "legacy_unverified" }
}

/// A submitter that does not own the meter is refused.
pub fn ownership_outcome(is_owner: bool) -> (r: Result<(), ApiError>)
    ensures
        is_owner ==> r is Ok,
        !is_owner ==> (r matches Err(ApiError::Forbidden(m)) && m@ == "You do not own this meter or it is not verified"@),
{
    if is_owner {
        Ok(())
    } else {
        Err(ApiError::Forbidden(String::from_str("You do not own this meter or it is not verified")))
    }
}

/// The owner of a meter looked up by the metering infrastructure.
pub fn meter_owner(found: Option<u128>) -> (r: Result<u128, ApiError>)
    ensures
        match found {
            Some(o) => r == Ok::<u128, ApiError>(o),
            None => r matches Err(ApiError::BadRequest(m)) && m@ == "Meter not found"@,
        },
{
    match found {
        Some(o) => Ok(o),
        None => Err(ApiError::BadRequest(String::from_str("Meter not found"))),
    }
}

/// What happens on chain after a reading is stored.
#[derive(Debug, Clone, Copy, PartialEq, Eq, Structural)]
pub enum ReadingAction {
    /// Nothing: the reading is zero.
    Nothing,
    /// Surplus energy: tokens are minted to the wallet.
    Mint,
    /// Consumed energy: tokens are burned from the wallet.
    Burn,
}

/// The on-chain action for a reading of `kwh`.
pub fn reading_action(kwh: &DecimalAmount) -> (a: ReadingAction)
    ensures
        a == (if kwh.mantissa == 0 {
            ReadingAction::Nothing
        } else if kwh.mantissa > 0 {
            ReadingAction::Mint
        } else {
            ReadingAction::Burn
        }),
{
    if kwh.is_zero() {
        ReadingAction::Nothing
    } else if kwh.is_positive() {
        ReadingAction::Mint
    } else {
        ReadingAction::Burn
    }
}

/// The amount to mint for a stored reading: refused when it was already
/// minted, an internal error when it has no amount.
pub fn check_mintable(r: &MeterReadingRecord) -> (out: Result<DecimalAmount, ApiError>)
    ensures
        r.minted == Some(true) ==> (out matches Err(ApiError::BadRequest(m)) && m@ == "Reading has already been minted"@),
        r.minted != Some(true) ==> match r.kwh_amount {
            Some(k) => out == Ok::<DecimalAmount, ApiError>(k),
            None => out matches Err(ApiError::Internal(m)) && m@ == "Missing kwh_amount"@,
        },
{
    let minted = match r.minted { Some(m) => m, None => false };
    if minted {
        return Err(ApiError::BadRequest(String::from_str("Reading has already been minted")));
    }
    match r.kwh_amount {
        Some(k) => Ok(k),
        None => Err(ApiError::Internal(String::from_str("Missing kwh_amount"))),
    }
}


/// A request of a caller with `role` to mint the tokens of a stored reading,
/// after looking the reading up: only administrators may mint, a reading that
/// could not be read is not found, and otherwise the reading must be mintable.
pub fn check_mint_request(role: &str, reading: &Lookup<MeterReadingRecord>) -> (out: Result<DecimalAmount, ApiError>)
    ensures
        role@ != "admin"@ ==> out matches Err(ApiError::Forbidden(_)),
        role@ == "admin"@ ==> match *reading {
            Lookup::Found(r) => if r.minted == Some(true) {
                out matches Err(ApiError::BadRequest(m)) && m@ == "Reading has already been minted"@
            } else {
                match r.kwh_amount {
                    Some(k) => out == Ok::<DecimalAmount, ApiError>(k),
                    None => out matches Err(ApiError::Internal(m)) && m@ == "Missing kwh_amount"@,
                }
            },
            _ => out matches Err(ApiError::NotFound(m)) && m@ == "Reading not found"@,
        },
{
    require_role(role, "admin")?;
    match reading {
        Lookup::Found(r) => check_mintable(r),
        _ => Err(ApiError::NotFound(String::from_str("Reading not found"))),
    }
}

} // verus!

verus! {

/// Response after minting tokens.
#[derive(Debug, Clone)]
pub struct MintResponse {
    pub message: String,
    pub transaction_signature: String,
    pub kwh_amount: DecimalAmount,
    pub wallet_address: String,
}

/// The answer after minting `kwh_amount` for a reading credited to
/// `wallet_address`.
pub fn mint_response(transaction_signature: String, kwh_amount: DecimalAmount, wallet_address: String) -> (r: MintResponse)
    ensures
        r.message@ == "Tokens minted successfully"@,
        r.transaction_signature == transaction_signature,
        r.kwh_amount == kwh_amount,
        r.wallet_address == wallet_address,
{
    MintResponse {
        message: String::from_str("Tokens minted successfully"),
        transaction_signature,
        kwh_amount,
        wallet_address,
    }
}

} // verus!
