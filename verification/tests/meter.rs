use api_gateway::error::ApiError;
use api_gateway::meter::{
    authorize_submitter, check_mint_request, check_mintable, check_registered_meter, complete_readings, meter_owner, ownership_outcome,
    ownership_plan, reading_action, reading_response, resolve_meter_id, signature_outcome, submission_wallet,
    verification_status, MeterReadingRecord, OwnershipPlan, ReadingAction, RegisteredMeter, Submitter,
};
use api_gateway::models::{DecimalAmount, Lookup};

fn kwh(m: i128) -> DecimalAmount {
    DecimalAmount { mantissa: m, scale: 2 }
}

fn record(id: u128, user: Option<u128>, amount: Option<DecimalAmount>, minted: Option<bool>) -> MeterReadingRecord {
    MeterReadingRecord {
        id,
        user_id: user,
        wallet_address: format!("wallet{}", id),
        kwh_amount: amount,
        reading_timestamp: Some(1000),
        submitted_at: Some(2000),
        minted,
        mint_tx_signature: None,
    }
}

fn message(e: ApiError) -> String {
    match e {
        ApiError::BadRequest(m)
        | ApiError::Unauthorized(m)
        | ApiError::Forbidden(m)
        | ApiError::NotFound(m)
        | ApiError::Internal(m) => m,
        ApiError::RateLimitExceeded { .. } => String::new(),
    }
}

#[test]
fn incomplete_readings_are_not_reported() {
    let records = vec![
        record(1, Some(7), Some(kwh(150)), None),
        record(2, None, Some(kwh(1)), Some(true)),
        record(3, Some(7), None, Some(false)),
        record(4, Some(8), Some(kwh(-20)), Some(true)),
    ];
    let out = complete_readings(&records);
    assert_eq!(out.len(), 2);
    assert_eq!(out[0].id, 1);
    assert!(!out[0].minted);
    assert_eq!(out[0].wallet_address, "wallet1");
    assert_eq!(out[1].id, 4);
    assert!(out[1].minted);
    assert_eq!(out[1].kwh_amount, kwh(-20));
}

#[test]
fn missing_fields_of_a_new_reading_are_internal_errors() {
    assert_eq!(message(reading_response(record(1, None, None, None)).unwrap_err()), "Missing user_id");
    assert_eq!(message(reading_response(record(1, Some(1), None, None)).unwrap_err()), "Missing kwh_amount");
    let mut r = record(1, Some(1), Some(kwh(5)), None);
    r.reading_timestamp = None;
    assert_eq!(message(reading_response(r).unwrap_err()), "Missing reading_timestamp");
    let mut r = record(1, Some(1), Some(kwh(5)), None);
    r.submitted_at = None;
    assert_eq!(message(reading_response(r).unwrap_err()), "Missing submitted_at");
    assert_eq!(reading_response(record(1, Some(1), Some(kwh(5)), None)).unwrap().submitted_at, 2000);
}

#[test]
fn submitters_and_wallets() {
    assert_eq!(authorize_submitter("prosumer").unwrap(), Submitter::Prosumer);
    assert_eq!(authorize_submitter("admin").unwrap(), Submitter::Admin);
    assert_eq!(authorize_submitter("ami").unwrap(), Submitter::Ami);
    assert_eq!(
        message(authorize_submitter("consumer").unwrap_err()),
        "Only prosumers or AMI can submit meter readings"
    );
    assert_eq!(submission_wallet(Submitter::Ami, Some("w1".to_string()), Lookup::Failed).unwrap(), "w1");
    assert_eq!(
        message(submission_wallet(Submitter::Ami, None, Lookup::Found(Some("x".to_string()))).unwrap_err()),
        "Wallet address required for AMI submission"
    );
    assert_eq!(
        submission_wallet(Submitter::Prosumer, Some("ignored".to_string()), Lookup::Found(Some("mine".to_string())))
            .unwrap(),
        "mine"
    );
    assert_eq!(
        message(submission_wallet(Submitter::Admin, None, Lookup::Found(None)).unwrap_err()),
        "Wallet address not set for user"
    );
    assert_eq!(
        message(submission_wallet(Submitter::Admin, None, Lookup::NotFound).unwrap_err()),
        "Failed to fetch user data"
    );
}

#[test]
fn registered_meters_must_be_verified_and_owned() {
    let meter = RegisteredMeter {
        id: 9,
        public_key: Some("pk".to_string()),
        owner_id: 3,
        verification_status: "pending".to_string(),
    };
    assert_eq!(
        message(check_registered_meter(&meter, &Lookup::Found(Some("w".to_string())), "w").unwrap_err()),
        "Meter is not verified. Please wait for admin approval."
    );
    let meter = RegisteredMeter { verification_status: "verified".to_string(), ..meter };
    assert!(check_registered_meter(&meter, &Lookup::Found(Some("w".to_string())), "w").is_ok());
    assert_eq!(
        message(check_registered_meter(&meter, &Lookup::Found(Some("v".to_string())), "w").unwrap_err()),
        "Wallet address does not match meter owner"
    );
    assert_eq!(
        message(check_registered_meter(&meter, &Lookup::Found(None), "w").unwrap_err()),
        "Meter owner has not initialized their wallet. Please login to the dashboard first."
    );
    assert_eq!(
        message(check_registered_meter(&meter, &Lookup::Failed, "w").unwrap_err()),
        "Failed to verify meter ownership"
    );
    assert_eq!(resolve_meter_id(None, &meter), Some(9));
    assert_eq!(resolve_meter_id(Some(4), &meter), Some(4));
    let keyless = RegisteredMeter { public_key: None, ..meter };
    assert_eq!(resolve_meter_id(None, &keyless), None);
}

#[test]
fn signatures_and_ownership() {
    assert!(signature_outcome(Ok(true)).is_ok());
    assert!(matches!(signature_outcome(Ok(false)), Err(ApiError::Unauthorized(m)) if m == "Invalid meter signature"));
    assert_eq!(
        message(signature_outcome(Err("bad key".to_string())).unwrap_err()),
        "Signature verification failed: bad key"
    );
    assert_eq!(ownership_plan(Submitter::Prosumer, Some(5), false).unwrap(), OwnershipPlan::VerifySubmitterOwns(5));
    assert_eq!(ownership_plan(Submitter::Ami, Some(5), false).unwrap(), OwnershipPlan::LookUpMeterOwner(5));
    assert_eq!(ownership_plan(Submitter::Admin, None, false).unwrap(), OwnershipPlan::SubmitterIsOwner);
    assert_eq!(ownership_plan(Submitter::Ami, None, true).unwrap(), OwnershipPlan::LookUpSerialOwner);
    assert_eq!(
        message(ownership_plan(Submitter::Ami, None, false).unwrap_err()),
        "AMI must provide meter_id or serial"
    );
    assert_eq!(verification_status(Some(1)), "verified");
    assert_eq!(verification_status(None), "legacy_unverified");
    assert!(ownership_outcome(true).is_ok());
    assert_eq!(message(ownership_outcome(false).unwrap_err()), "You do not own this meter or it is not verified");
    assert_eq!(meter_owner(Some(12)).unwrap(), 12);
    assert_eq!(message(meter_owner(None).unwrap_err()), "Meter not found");
}

#[test]
fn readings_mint_burn_or_do_nothing() {
    assert_eq!(reading_action(&kwh(0)), ReadingAction::Nothing);
    assert_eq!(reading_action(&kwh(125)), ReadingAction::Mint);
    assert_eq!(reading_action(&kwh(-3)), ReadingAction::Burn);
}

#[test]
fn minting_requires_unminted_reading_with_amount() {
    assert_eq!(check_mintable(&record(1, Some(1), Some(kwh(7)), None)).unwrap(), kwh(7));
    assert_eq!(check_mintable(&record(1, Some(1), Some(kwh(7)), Some(false))).unwrap(), kwh(7));
    assert_eq!(
        message(check_mintable(&record(1, Some(1), Some(kwh(7)), Some(true))).unwrap_err()),
        "Reading has already been minted"
    );
    assert_eq!(message(check_mintable(&record(1, Some(1), None, None)).unwrap_err()), "Missing kwh_amount");
}

#[test]
fn mint_requests_are_for_administrators() {
    let unminted = record(1, Some(2), Some(kwh(500)), Some(false));
    assert!(matches!(check_mint_request("user", &Lookup::Found(unminted.clone())), Err(ApiError::Forbidden(_))));
    assert_eq!(check_mint_request("admin", &Lookup::Found(unminted)).unwrap(), kwh(500));
    let minted = record(1, Some(2), Some(kwh(500)), Some(true));
    assert_eq!(message(check_mint_request("admin", &Lookup::Found(minted)).unwrap_err()), "Reading has already been minted");
    match check_mint_request("admin", &Lookup::NotFound) {
        Err(ApiError::NotFound(m)) => assert_eq!(m, "Reading not found"),
        other => panic!("unexpected {:?}", other),
    }
    assert!(matches!(check_mint_request("admin", &Lookup::Failed), Err(ApiError::NotFound(_))));
}
