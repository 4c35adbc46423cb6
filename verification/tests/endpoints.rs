use api_gateway::analytics::{count_query, paging_clause, transaction_filter, transaction_page};
use api_gateway::blockchain::{compute_units_recorded, token_account_label, network_health, program_signature, validate_program_interaction};
use api_gateway::database::{is_http_endpoint, ssl_mode};
use api_gateway::error::ApiError;
use api_gateway::faucet::FaucetResponse;
use api_gateway::metrics::{classify_request, extract_or_generate_request_id, extract_path_from_uri};
use api_gateway::models::DecimalAmount;
use api_gateway::price_alerts::{
    alert_created_response, delete_outcome, insert_outcome, repeats, validate_target_price, AlertCondition,
    AlertStatus, CreatePriceAlertRequest,
};
use api_gateway::registration::{
    check_login_account, check_login_password, check_unique_account, token_lifetime_seconds, validate_registration,
    wallet_plan, RegistrationField, WalletPlan, WalletRegistrationFields,
};

#[test]
fn price_alert_rules() {
    assert!(validate_target_price(&DecimalAmount { mantissa: 15, scale: 2 }).is_ok());
    assert!(matches!(validate_target_price(&DecimalAmount { mantissa: 0, scale: 2 }),
        Err(ApiError::BadRequest(m)) if m == "Target price must be positive"));
    assert!(validate_target_price(&DecimalAmount { mantissa: -1, scale: 0 }).is_err());
    assert!(insert_outcome(1).is_ok());
    assert!(matches!(insert_outcome(0), Err(ApiError::Internal(m)) if m == "Failed to insert alert"));
    assert!(delete_outcome(2).is_ok());
    assert!(matches!(delete_outcome(0), Err(ApiError::NotFound(m)) if m == "Alert not found"));
    let request = CreatePriceAlertRequest {
        target_price: DecimalAmount { mantissa: 15, scale: 2 },
        condition: AlertCondition::Crosses,
        repeat: None,
        note: None,
    };
    assert!(!repeats(&request));
    let r = alert_created_response(7, &request, 100, "0.15");
    assert_eq!(r.message, "Alert created. You'll be notified when price goes to 0.15");
    assert_eq!(r.status, AlertStatus::Active);
    let above = CreatePriceAlertRequest { condition: AlertCondition::Above, repeat: Some(true), ..request };
    assert!(repeats(&above));
    assert_eq!(alert_created_response(7, &above, 100, "1").message, "Alert created. You'll be notified when price goes above 1");
}

#[test]
fn program_interactions() {
    assert!(validate_program_interaction("trading", "place_order").is_ok());
    assert!(matches!(validate_program_interaction("bank", "x"),
        Err(ApiError::BadRequest(m)) if m == "Invalid program name: bank"));
    assert!(matches!(validate_program_interaction("oracle", ""),
        Err(ApiError::BadRequest(m)) if m == "Instruction cannot be empty"));
    assert_eq!(compute_units_recorded(None), 10000);
    assert_eq!(compute_units_recorded(Some(5000)), 5000);
    assert_eq!(compute_units_recorded(Some(u32::MAX)), -1);
    assert_eq!(
        program_signature("registry", "123e4567-e89b-12d3-a456-426614174000"),
        "prog_registry_123e4567e89b12d3a456426614174000"
    );
    assert_eq!(network_health(true), "ok");
    assert_eq!(network_health(false), "degraded");
}

#[test]
fn faucet_messages() {
    let none = FaucetResponse::completed(&vec![], None, None);
    assert!(none.success);
    assert_eq!(none.message, "No actions requested");
    let both = FaucetResponse::completed(
        &vec!["Airdropped 1 SOL".to_string(), "Minted 5 kWh tokens".to_string()],
        Some("s1".to_string()),
        None,
    );
    assert_eq!(both.message, "Airdropped 1 SOL, Minted 5 kWh tokens");
    assert_eq!(both.sol_tx_signature.as_deref(), Some("s1"));
}

#[test]
fn database_urls() {
    assert_eq!(ssl_mode("postgres://u@h/db?sslmode=require"), "SSL enabled");
    assert_eq!(ssl_mode("postgres://u@h/db?sslmode=verify-full"), "SSL enabled");
    assert_eq!(ssl_mode("postgres://u@h/db?sslmode=disable"), "SSL not enforced");
    assert_eq!(ssl_mode(""), "SSL not enforced");
    assert!(is_http_endpoint("http://localhost:8086"));
    assert!(is_http_endpoint("https://influx"));
    assert!(!is_http_endpoint("postgres://h/db"));
}

#[test]
fn request_metrics() {
    assert_eq!(extract_or_generate_request_id(Some("abc"), "fresh".to_string()), "abc");
    assert_eq!(extract_or_generate_request_id(None, "fresh".to_string()), "fresh");
    assert_eq!(extract_path_from_uri(Some("/api/health")), "/api/health");
    assert_eq!(extract_path_from_uri(None), "/");
    let r = classify_request(1001, 404);
    assert!(r.slow && r.error);
    let r = classify_request(1000, 399);
    assert!(!r.slow && !r.error);
}

#[test]
fn transaction_queries() {
    assert_eq!(transaction_page(None, None), (50, 0));
    assert_eq!(transaction_page(Some(500), Some(20)), (100, 20));
    assert_eq!(transaction_page(Some(10), None), (10, 0));
    let f = transaction_filter(false, false);
    assert_eq!(f.where_clause, "user_id = $1");
    assert_eq!(f.next_param, 2);
    let f = transaction_filter(false, true);
    assert_eq!(f.where_clause, "user_id = $1 AND operation_status = $2");
    assert_eq!(f.next_param, 3);
    let f = transaction_filter(true, true);
    assert_eq!(f.where_clause, "user_id = $1 AND operation_type = $2 AND operation_status = $3");
    assert_eq!(f.next_param, 4);
    assert_eq!(
        count_query(&f),
        "SELECT COUNT(*) FROM blockchain_operations WHERE user_id = $1 AND operation_type = $2 AND operation_status = $3"
    );
    assert_eq!(paging_clause(&f), " ORDER BY created_at DESC LIMIT $4 OFFSET $5");
}

fn fields() -> WalletRegistrationFields {
    WalletRegistrationFields {
        username: "alice".to_string(),
        email: "alice@example.com".to_string(),
        password: "password123".to_string(),
        role: "user".to_string(),
        first_name: "Alice".to_string(),
        last_name: "Smith".to_string(),
        create_wallet: None,
        wallet_address: None,
    }
}

#[test]
fn registration_rules() {
    assert!(validate_registration(&fields()).is_ok());
    assert_eq!(validate_registration(&WalletRegistrationFields { username: "al".to_string(), ..fields() }),
        Err(vec![RegistrationField::Username]));
    assert_eq!(validate_registration(&WalletRegistrationFields { email: "not-an-email".to_string(), ..fields() }),
        Err(vec![RegistrationField::Email]));
    assert_eq!(validate_registration(&WalletRegistrationFields { password: "short".to_string(), ..fields() }),
        Err(vec![RegistrationField::Password]));
    assert_eq!(validate_registration(&WalletRegistrationFields { role: String::new(), ..fields() }),
        Err(vec![RegistrationField::Role]));
    assert_eq!(validate_registration(&WalletRegistrationFields { last_name: String::new(), ..fields() }),
        Err(vec![RegistrationField::LastName]));
    assert_eq!(validate_registration(&WalletRegistrationFields { wallet_address: Some("short".to_string()), ..fields() }),
        Err(vec![RegistrationField::WalletAddress]));
    assert!(validate_registration(&WalletRegistrationFields {
        wallet_address: Some("11111111111111111111111111111111".to_string()),
        ..fields()
    }).is_ok());
    assert_eq!(validate_registration(&WalletRegistrationFields {
        username: "al".to_string(),
        password: "short".to_string(),
        wallet_address: Some("short".to_string()),
        ..fields()
    }), Err(vec![RegistrationField::Username, RegistrationField::Password, RegistrationField::WalletAddress]));
    assert!(check_unique_account(0).is_ok());
    assert!(matches!(check_unique_account(1), Err(ApiError::BadRequest(m)) if m == "Username or email already exists"));
    assert_eq!(wallet_plan(Some(true), None), WalletPlan::CreateNew);
    assert_eq!(wallet_plan(Some(true), Some("w".to_string())), WalletPlan::UseProvided("w".to_string()));
    assert_eq!(wallet_plan(None, None), WalletPlan::NoWallet);
    assert!(matches!(check_login_account(None), Err(ApiError::Unauthorized(m)) if m == "Invalid username or password"));
    assert!(matches!(check_login_account(Some(Some(false))), Err(ApiError::Unauthorized(m)) if m == "Account is deactivated"));
    assert!(check_login_account(Some(None)).is_ok());
    assert!(check_login_account(Some(Some(true))).is_ok());
    assert!(check_login_password(true).is_ok());
    assert!(check_login_password(false).is_err());
    assert_eq!(token_lifetime_seconds(), 86400);
}

#[test]
fn token_account_labels() {
    assert_eq!(token_account_label("7xKXtg2CW87d97TXJSDpbD5jBkheTqA83TZRuJosgAsU"), "7xKXtg2C...token");
    assert_eq!(token_account_label("short"), "short...token");
    assert_eq!(token_account_label(""), "...token");
}
