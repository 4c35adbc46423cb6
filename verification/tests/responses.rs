use api_gateway::auth::{registration_failed, registration_succeeded, registration_token, stored_bytes, wallet_secret_columns};
use api_gateway::error::ApiError;
use api_gateway::registration::{
    new_wallet_info, provided_wallet_info, wallet_login_response, wallet_registration_response, RegistrationAction,
    RegistrationEvent, RegistrationField, WalletPlan, WalletRegistrationFields, WalletRegistrationFlow,
};

#[test]
fn registration_success_response() {
    let r = registration_succeeded(7, "alice".to_string(), "a@x.io".to_string(), "Al".to_string(),
        "Ice".to_string(), "W1".to_string(), "tok".to_string());
    assert_eq!(r.message, "Registration successful");
    assert!(!r.email_verification_sent);
    let auth = r.auth.unwrap();
    assert_eq!(auth.access_token, "tok");
    assert_eq!(auth.expires_in, 86400);
    assert_eq!(auth.user.id, 7);
    assert_eq!(auth.user.role, "user");
    assert_eq!(auth.user.username, "alice");
    assert_eq!(auth.user.wallet_address, Some("W1".to_string()));
}

#[test]
fn registration_failure_response() {
    let r = registration_failed("duplicate key");
    assert_eq!(r.message, "Registration failed: duplicate key");
    assert!(!r.email_verification_sent);
    assert!(r.auth.is_none());
}

#[test]
fn registration_token_falls_back() {
    assert_eq!(registration_token(Some("jwt".to_string()), "bob", "9"), "jwt");
    assert_eq!(registration_token(None, "bob", "9"), "token_bob_9");
}

#[test]
fn wallet_registration_response_fields() {
    let info = new_wallet_info("Addr".to_string(), 5, "key".to_string(), Some("sig".to_string()));
    assert!(info.created_new);
    let r = wallet_registration_response("tok".to_string(), "carol".to_string(), "c@x.io".to_string(),
        "user".to_string(), &Some("Addr".to_string()), Some(info));
    assert_eq!(r.token_type, "Bearer");
    assert_eq!(r.expires_in, 86400);
    assert_eq!(r.user.username, "carol");
    assert_eq!(r.user.role, "user");
    assert!(r.user.blockchain_registered);
    assert_eq!(r.wallet_info.unwrap().airdrop_signature, Some("sig".to_string()));

    let provided = provided_wallet_info("Mine".to_string(), 0);
    assert!(!provided.created_new);
    assert_eq!(provided.private_key, "Not available (user provided address)");
    let r = wallet_registration_response("tok".to_string(), "dan".to_string(), "d@x.io".to_string(),
        "producer".to_string(), &None, None);
    assert!(!r.user.blockchain_registered);
    assert!(r.wallet_info.is_none());
}

#[test]
fn wallet_login_response_fields() {
    let r = wallet_login_response("tok".to_string(), "erin".to_string(), "e@x.io".to_string(), None, &None, None);
    assert_eq!(r.token_type, "Bearer");
    assert_eq!(r.expires_in, 86400);
    assert_eq!(r.user.role, "");
    assert!(!r.user.blockchain_registered);
}

fn request(create_wallet: Option<bool>, wallet_address: Option<&str>) -> WalletRegistrationFields {
    WalletRegistrationFields {
        username: "alice".to_string(),
        email: "alice@example.com".to_string(),
        password: "password123".to_string(),
        role: "user".to_string(),
        first_name: "Alice".to_string(),
        last_name: "Smith".to_string(),
        create_wallet,
        wallet_address: wallet_address.map(|w| w.to_string()),
    }
}

fn respond(a: RegistrationAction) -> api_gateway::registration::WalletRegistrationResponse {
    match a {
        RegistrationAction::Respond(r) => r,
        other => panic!("unexpected {:?}", other),
    }
}

fn rejected(a: RegistrationAction) -> ApiError {
    match a {
        RegistrationAction::Reject(e) => e,
        other => panic!("unexpected {:?}", other),
    }
}

#[test]
fn wallet_registration_creates_a_wallet() {
    let (mut flow, a) = WalletRegistrationFlow::start(request(Some(true), None));
    assert!(matches!(a, RegistrationAction::CheckRole));
    assert_eq!(flow.plan, WalletPlan::CreateNew);
    assert!(matches!(flow.step(RegistrationEvent::RoleChecked(true)), RegistrationAction::CountExisting));
    assert!(matches!(flow.step(RegistrationEvent::Existing(Ok(0))), RegistrationAction::CheckRpc));
    assert!(matches!(flow.step(RegistrationEvent::RpcHealthy(true)), RegistrationAction::CreateWallet));
    let a = flow.step(RegistrationEvent::WalletCreated {
        address: "NewAddr".to_string(),
        balance_lamports: 1_000_000_000,
        keypair_bytes: vec![0x04, 0x30, 0x5e, 0x2b, 0x24, 0x73, 0xf0, 0x58],
        airdrop_signature: Some("air".to_string()),
    });
    assert!(matches!(a, RegistrationAction::HashPassword));
    match flow.step(RegistrationEvent::PasswordHashed(Ok(()))) {
        RegistrationAction::InsertUser(w) => assert_eq!(w, Some("NewAddr".to_string())),
        other => panic!("unexpected {:?}", other),
    }
    assert!(matches!(flow.step(RegistrationEvent::Inserted(Ok(()))), RegistrationAction::IssueToken));
    let r = respond(flow.step(RegistrationEvent::Token(Ok("tok".to_string()))));
    assert_eq!(r.token_type, "Bearer");
    assert_eq!(r.expires_in, 86400);
    assert_eq!(r.user.username, "alice");
    assert!(r.user.blockchain_registered);
    let info = r.wallet_info.unwrap();
    assert!(info.created_new);
    assert_eq!(info.address, "NewAddr");
    assert_eq!(info.private_key, "he11owor1d");
}

#[test]
fn wallet_registration_with_provided_address() {
    let addr = "11111111111111111111111111111111";
    let (mut flow, _) = WalletRegistrationFlow::start(request(Some(true), Some(addr)));
    flow.step(RegistrationEvent::RoleChecked(true));
    match flow.step(RegistrationEvent::Existing(Ok(0))) {
        RegistrationAction::CheckAddress(a) => assert_eq!(a, addr),
        other => panic!("unexpected {:?}", other),
    }
    assert!(matches!(flow.step(RegistrationEvent::AddressValid(true)), RegistrationAction::FetchBalance(_)));
    flow.step(RegistrationEvent::ProvidedBalance(Some(5)));
    flow.step(RegistrationEvent::PasswordHashed(Ok(())));
    flow.step(RegistrationEvent::Inserted(Ok(())));
    let r = respond(flow.step(RegistrationEvent::Token(Ok("tok".to_string()))));
    let info = r.wallet_info.unwrap();
    assert!(!info.created_new);
    assert_eq!(info.balance_lamports, 5);
    assert!(r.user.blockchain_registered);
}

#[test]
fn wallet_registration_refusals_in_order() {
    let (_, a) = WalletRegistrationFlow::start(WalletRegistrationFields {
        username: "al".to_string(),
        ..request(None, None)
    });
    match a {
        RegistrationAction::RejectFields(v) => assert_eq!(v, vec![RegistrationField::Username]),
        other => panic!("unexpected {:?}", other),
    }
    let (mut flow, _) = WalletRegistrationFlow::start(request(None, None));
    match rejected(flow.step(RegistrationEvent::RoleChecked(false))) {
        ApiError::BadRequest(m) => assert_eq!(m, "Invalid role"),
        e => panic!("unexpected {:?}", e),
    }
    let (mut flow, _) = WalletRegistrationFlow::start(request(None, None));
    flow.step(RegistrationEvent::RoleChecked(true));
    match rejected(flow.step(RegistrationEvent::Existing(Ok(1)))) {
        ApiError::BadRequest(m) => assert_eq!(m, "Username or email already exists"),
        e => panic!("unexpected {:?}", e),
    }
    let (mut flow, _) = WalletRegistrationFlow::start(request(Some(true), None));
    flow.step(RegistrationEvent::RoleChecked(true));
    flow.step(RegistrationEvent::Existing(Ok(0)));
    match rejected(flow.step(RegistrationEvent::RpcHealthy(false))) {
        ApiError::Internal(m) => assert_eq!(m, "Solana RPC not available. Please ensure solana-test-validator is running."),
        e => panic!("unexpected {:?}", e),
    }
    let (mut flow, _) = WalletRegistrationFlow::start(request(None, Some("bad")));
    flow.step(RegistrationEvent::RoleChecked(true));
    flow.step(RegistrationEvent::Existing(Ok(0)));
    match rejected(flow.step(RegistrationEvent::AddressValid(false))) {
        ApiError::BadRequest(m) => assert_eq!(m, "Invalid Solana wallet address format"),
        e => panic!("unexpected {:?}", e),
    }
    let (mut flow, _) = WalletRegistrationFlow::start(request(None, None));
    flow.step(RegistrationEvent::RoleChecked(true));
    assert!(matches!(flow.step(RegistrationEvent::Existing(Ok(0))), RegistrationAction::HashPassword));
    flow.step(RegistrationEvent::PasswordHashed(Ok(())));
    match rejected(flow.step(RegistrationEvent::Inserted(Err("dup".to_string())))) {
        ApiError::Internal(m) => assert_eq!(m, "Failed to create user: dup"),
        e => panic!("unexpected {:?}", e),
    }
}

#[test]
fn wallet_secrets_are_decoded_from_base64() {
    let (key, salt, iv) = wallet_secret_columns("aGk=", "", "not base64!");
    assert_eq!(key, b"hi".to_vec());
    assert!(salt.is_empty());
    assert!(iv.is_empty());
    assert_eq!(stored_bytes(Some(vec![1, 2])), vec![1, 2]);
    assert!(stored_bytes(None).is_empty());
}
