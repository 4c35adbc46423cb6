use api_gateway::auth::{
    bearer_token, change_password_outcome, check_current_password, check_password_change, check_reset_request,
    check_reset_token, fallback_token, forgot_password_lookup, forgot_password_outcome, get_ip_address,
    lock_all_outcome, lock_outcome, placeholder_password_hash, registration_failed_message,
    resend_verification_response, reset_password_outcome, reset_token_expiry, unlock_failed, unlock_rate_limited,
    require_role, unlock_succeeded, apply_password_reset, find_reset_account, ResetAccount,
};
use api_gateway::models::Lookup;

#[test]
fn reset_request_needs_token_and_long_password() {
    let r = check_reset_request("", "longenough").unwrap();
    assert!(!r.success);
    assert_eq!(r.message, "Reset token is required.");
    let r = check_reset_request("tok", "short").unwrap();
    assert_eq!(r.message, "Password must be at least 8 characters long.");
    // Length counts bytes: four two-byte characters are enough.
    assert!(check_reset_request("tok", "éééé").is_none());
    assert!(check_reset_request("tok", "12345678").is_none());
    assert!(check_reset_request("tok", "1234567").is_some());
}

#[test]
fn reset_token_must_exist_and_be_unexpired() {
    let r = check_reset_token(&Lookup::NotFound, 10).unwrap();
    assert_eq!(r.message, "Invalid or expired reset token.");
    let r = check_reset_token(&Lookup::Failed, 10).unwrap();
    assert_eq!(r.message, "An error occurred. Please try again.");
    let r = check_reset_token(&Lookup::Found(9), 10).unwrap();
    assert_eq!(r.message, "Reset token has expired. Please request a new one.");
    assert!(check_reset_token(&Lookup::Found(10), 10).is_none());
    let ok = reset_password_outcome(true);
    assert!(ok.success);
    assert_eq!(ok.message, "Password has been reset successfully. You can now login with your new password.");
    assert_eq!(reset_password_outcome(false).message, "Failed to reset password. Please try again.");
}

#[test]
fn forgot_password_does_not_reveal_accounts() {
    let missing = forgot_password_lookup::<u8>(&Lookup::NotFound).unwrap();
    assert!(missing.success);
    let sent = forgot_password_outcome(true);
    assert_eq!(missing.message, sent.message);
    assert_eq!(sent.message, "If an account with that email exists, a password reset link has been sent.");
    assert!(forgot_password_lookup(&Lookup::Found(1u8)).is_none());
    assert!(!forgot_password_lookup::<u8>(&Lookup::Failed).unwrap().success);
    assert_eq!(forgot_password_outcome(false).message, "Failed to generate reset token. Please try again.");
    assert_eq!(reset_token_expiry(1_000), 3_601_000);
}

#[test]
fn change_password_steps() {
    assert_eq!(bearer_token("Bearer abc.def"), "abc.def");
    assert_eq!(bearer_token("abc.def"), "abc.def");
    assert_eq!(bearer_token(""), "");
    assert_eq!(bearer_token("bearer x"), "bearer x");
    assert_eq!(
        check_password_change(false, "whatever1").unwrap().message,
        "Invalid or expired token. Please log in again."
    );
    assert_eq!(
        check_password_change(true, "short").unwrap().message,
        "New password must be at least 8 characters long."
    );
    assert!(check_password_change(true, "password1").is_none());
    assert_eq!(check_current_password::<u8>(&Lookup::NotFound, None).unwrap().message, "User not found.");
    assert_eq!(
        check_current_password(&Lookup::Found(0u8), Some(false)).unwrap().message,
        "Current password is incorrect."
    );
    assert_eq!(
        check_current_password(&Lookup::Found(0u8), None).unwrap().message,
        "An error occurred. Please try again."
    );
    assert!(check_current_password(&Lookup::Found(0u8), Some(true)).is_none());
    assert_eq!(change_password_outcome(true).message, "Password changed successfully.");
    assert_eq!(change_password_outcome(false).message, "Failed to change password. Please try again.");
}

#[test]
fn registration_texts() {
    assert_eq!(placeholder_password_hash("secret"), "hash_secret");
    assert_eq!(fallback_token("alice", "42"), "token_alice_42");
    assert_eq!(registration_failed_message("duplicate key"), "Registration failed: duplicate key");
    let r = resend_verification_response("a@b.c");
    assert!(r.success);
    assert_eq!(r.message, "Verification email sent to a@b.c. Check your inbox.");
}

#[test]
fn wallet_session_answers() {
    let limited = unlock_rate_limited();
    assert!(!limited.success);
    assert_eq!(limited.message, "Too many failed attempts. Please try again in 15 minutes.");
    assert_eq!(limited.revoked_sessions, 0);
    let ok = unlock_succeeded("tok".to_string(), 99, 2, 30);
    assert!(ok.success);
    assert_eq!(ok.message, "Wallet unlocked successfully. Session valid for 30 days.");
    assert_eq!(ok.session_token.as_deref(), Some("tok"));
    assert_eq!(ok.expires_at, Some(99));
    assert_eq!(ok.revoked_sessions, 2);
    assert_eq!(unlock_succeeded("t".to_string(), 0, 0, -7).message, "Wallet unlocked successfully. Session valid for -7 days.");
    let failed = unlock_failed("Invalid wallet password".to_string());
    assert!(!failed.success);
    assert_eq!(failed.message, "Invalid wallet password");
    assert_eq!(lock_outcome(true).message, "Wallet locked successfully.");
    assert_eq!(lock_outcome(false).message, "Wallet is not unlocked or session already expired.");
    assert!(lock_outcome(false).success);
    assert_eq!(lock_all_outcome(0).message, "Locked 0 sessions.");
    assert_eq!(lock_all_outcome(1234).message, "Locked 1234 sessions.");
}

#[test]
fn client_address_prefers_forwarded_header() {
    assert_eq!(get_ip_address(Some(" 203.0.113.5 , 10.0.0.1"), "127.0.0.1").as_deref(), Some("203.0.113.5"));
    assert_eq!(get_ip_address(Some("198.51.100.7"), "127.0.0.1").as_deref(), Some("198.51.100.7"));
    assert_eq!(get_ip_address(Some(""), "127.0.0.1").as_deref(), Some(""));
    assert_eq!(get_ip_address(None, "127.0.0.1").as_deref(), Some("127.0.0.1"));
}

#[test]
fn roles_are_required() {
    assert!(require_role("admin", "admin").is_ok());
    assert!(matches!(require_role("user", "admin"), Err(api_gateway::error::ApiError::Forbidden(_))));
}

#[test]
fn reset_token_works_once() {
    let account = |id: u128, token: Option<&str>| ResetAccount {
        id,
        is_active: true,
        password_hash: "old".to_string(),
        reset_token: token.map(|t| t.to_string()),
        reset_expires_at: Some(1000),
    };
    let mut accounts = vec![account(1, Some("t1")), account(2, Some("t2")), account(3, None)];
    assert_eq!(find_reset_account(&accounts, "t2"), Some(1));
    assert_eq!(find_reset_account(&accounts, "nope"), None);
    apply_password_reset(&mut accounts[1], "new".to_string());
    assert_eq!(accounts[1].password_hash, "new");
    assert_eq!(accounts[1].reset_token, None);
    assert_eq!(accounts[1].reset_expires_at, None);
    assert_eq!(find_reset_account(&accounts, "t2"), None);
    assert_eq!(find_reset_account(&accounts, "t1"), Some(0));
}
