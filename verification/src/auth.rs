//! Account flows: registration, password reset and change, and wallet
//! session locking. The handlers look users up and update them in storage;
//! these functions decide, from what storage answered, what to reply.

use vstd::prelude::*;
use crate::error::ApiError;
use base64::{engine::general_purpose, Engine as _};
use crate::models::Lookup;
use crate::text::{concat_str, str_eq, i64_to_decimal, signed_decimal, u64_to_decimal, decimal, strip_prefix, seq_starts_with, trim, trimmed, first_segment, before_first};

verus! {

/// A handler reserved for the role `required` refuses a caller with any other
/// role as forbidden.
pub fn require_role(role: &str, required: &str) -> (r: Result<(), ApiError>)
    ensures
        r is Ok <==> role@ == required@,
        r is Err ==> r matches Err(ApiError::Forbidden(_)),
{
    if str_eq(role, required) {
        Ok(())
    } else {
        Err(ApiError::Forbidden(concat_str("This action requires the role ", required)))
    }
}

/// Fewest bytes a new password may have.
pub const MIN_PASSWORD_BYTES: usize = 8;

/// Validity of an issued access token, in seconds.
pub const TOKEN_LIFETIME_SECONDS: u64 = 86400;

/// Validity of a password reset token, in milliseconds (one hour).
pub const RESET_TOKEN_LIFETIME_MS: i64 = 3600000;

/// Answer of the email and password endpoints.
#[derive(Debug, Clone)]
pub struct VerifyEmailResponse {
    pub success: bool,
    pub message: String,
}

/// Whether `r` answers with `success` and exactly `message`.
pub open spec fn answers(r: VerifyEmailResponse, success: bool, message: Seq<char>) -> bool {
    r.success == success && r.message@ == message
}

impl VerifyEmailResponse {
    pub fn simple(success: bool, message: &str) -> (r: Self)
        ensures answers(r, success, message@),
    {
        VerifyEmailResponse { success, message: String::from_str(message) }
    }
}

/// The generic answer to a password reset request, which does not reveal
/// whether the address belongs to an account.
pub open spec fn reset_link_sent_message() -> Seq<char> {
    "If an account with that email exists, a password reset link has been sent."@
}

/// Forgot password, after looking up the active account with the given email:
/// `None` to go on and issue a reset token, or the final answer.
pub fn forgot_password_lookup<T>(lookup: &Lookup<T>) -> (r: Option<VerifyEmailResponse>)
    ensures
        match lookup {
            Lookup::Found(_) => r is None,
            Lookup::NotFound => r matches Some(a) && answers(a, true, reset_link_sent_message()),
            Lookup::Failed => r matches Some(a) && answers(a, false, "An error occurred. Please try again."@),
        },
{
    match lookup {
        Lookup::Found(_) => None,
        Lookup::NotFound => Some(VerifyEmailResponse::simple(
            true,
            "If an account with that email exists, a password reset link has been sent.",
        )),
        Lookup::Failed => Some(VerifyEmailResponse::simple(false, "An error occurred. Please try again.")),
    }
}

/// When a reset token issued at `now_ms` expires.
pub fn reset_token_expiry(now_ms: i64) -> (e: i64)
    requires now_ms <= i64::MAX - RESET_TOKEN_LIFETIME_MS,
    ensures e == now_ms + RESET_TOKEN_LIFETIME_MS,
{
    now_ms + RESET_TOKEN_LIFETIME_MS
}

/// Forgot password, after storing the reset token (`stored`) : the answer.
/// Whether the email could be sent does not change it.
pub fn forgot_password_outcome(stored: bool) -> (r: VerifyEmailResponse)
    ensures
        stored ==> answers(r, true, reset_link_sent_message()),
        !stored ==> answers(r, false, "Failed to generate reset token. Please try again."@),
{
    if stored {
        VerifyEmailResponse::simple(true, "If an account with that email exists, a password reset link has been sent.")
    } else {
        VerifyEmailResponse::simple(false, "Failed to generate reset token. Please try again.")
    }
}

/// Reset password, before any lookup: `None` when the request may go on, or
/// the refusal.
pub fn check_reset_request(token: &str, new_password: &str) -> (r: Option<VerifyEmailResponse>)
    ensures
        token@.len() == 0 ==> (r matches Some(a) && answers(a, false, "Reset token is required."@)),
        token@.len() != 0 && new_password.len() < 8 ==> (r matches Some(a)
            && answers(a, false, "Password must be at least 8 characters long."@)),
        token@.len() != 0 && new_password.len() >= 8 ==> r is None,
{
    if token.is_empty() {
        return Some(VerifyEmailResponse::simple(false, "Reset token is required."));
    }
    if new_password.len() < MIN_PASSWORD_BYTES {
        return Some(VerifyEmailResponse::simple(false, "Password must be at least 8 characters long."));
    }
    None
}

/// Reset password, after looking up the account holding the token, whose
/// token expires at the found time: `None` to go on and store the new
/// password, or the refusal.
pub fn check_reset_token(lookup: &Lookup<i64>, now_ms: i64) -> (r: Option<VerifyEmailResponse>)
    ensures
        match *lookup {
            Lookup::Found(expires_at) => if now_ms > expires_at {
                r matches Some(a) && answers(a, false, "Reset token has expired. Please request a new one."@)
            } else {
                r is None
            },
            Lookup::NotFound => r matches Some(a) && answers(a, false, "Invalid or expired reset token."@),
            Lookup::Failed => r matches Some(a) && answers(a, false, "An error occurred. Please try again."@),
        },
{
    match lookup {
        Lookup::Found(expires_at) => {
            if now_ms > *expires_at {
                Some(VerifyEmailResponse::simple(false, "Reset token has expired. Please request a new one."))
            } else {
                None
            }
        },
        Lookup::NotFound => Some(VerifyEmailResponse::simple(false, "Invalid or expired reset token.")),
        Lookup::Failed => Some(VerifyEmailResponse::simple(false, "An error occurred. Please try again.")),
    }
}

/// The password and reset fields of a stored account.
#[derive(Debug, Clone)]
pub struct ResetAccount {
    pub id: u128,
    pub is_active: bool,
    pub password_hash: String,
    pub reset_token: Option<String>,
    /// Unix time in milliseconds.
    pub reset_expires_at: Option<i64>,
}

/// Whether a reset with `token` finds the account `a`: it is active, holds
/// that token, and the token has an expiry.
pub open spec fn holds_reset_token(a: ResetAccount, token: Seq<char>) -> bool {
    &&& a.is_active
    &&& a.reset_token matches Some(t) && t@ == token
    &&& a.reset_expires_at is Some
}

/// The account after a reset to `password_hash`: the new hash, and the token
/// and its expiry cleared.
pub open spec fn after_reset(a: ResetAccount, password_hash: String) -> ResetAccount {
    ResetAccount { password_hash, reset_token: None, reset_expires_at: None, ..a }
}

/// Reset password: the first stored account that a reset with `token` finds.
pub fn find_reset_account(accounts: &Vec<ResetAccount>, token: &str) -> (r: Option<usize>)
    ensures
        r matches Some(i) ==> (i < accounts@.len() && accounts@[i as int].is_active
            && accounts@[i as int].reset_token == Some(accounts@[i as int].reset_token.unwrap())
            && accounts@[i as int].reset_token.unwrap()@ == token@
            && accounts@[i as int].reset_expires_at is Some),
        r is None ==> forall|j: int| 0 <= j < accounts@.len() && #[trigger] accounts@[j].is_active
            && accounts@[j].reset_token is Some && accounts@[j].reset_expires_at is Some
            ==> accounts@[j].reset_token.unwrap()@ != token@,
        match r {
            Some(i) => i < accounts@.len() && holds_reset_token(accounts@[i as int], token@)
                && forall|j: int| 0 <= j < i ==> !holds_reset_token(#[trigger] accounts@[j], token@),
            None => forall|j: int| 0 <= j < accounts@.len() ==> !holds_reset_token(#[trigger] accounts@[j], token@),
        },
{
    let mut i: usize = 0;
    while i < accounts.len()
        invariant
            i <= accounts@.len(),
            forall|j: int| 0 <= j < i ==> !holds_reset_token(#[trigger] accounts@[j], token@),
        decreases accounts@.len() - i,
    {
        let a = &accounts[i];
        let found = match &a.reset_token {
            Some(t) => a.is_active && a.reset_expires_at.is_some() && str_eq(t.as_str(), token),
            None => false,
        };
        if found {
            return Some(i);
        }
        i = i + 1;
    }
    None
}

/// Reset password, the storage update: the new password hash is stored and
/// the reset token and its expiry are cleared.
pub fn apply_password_reset(account: &mut ResetAccount, password_hash: String)
    ensures
        *final(account) == after_reset(*old(account), password_hash),
{
    account.password_hash = password_hash;
    account.reset_token = None;
    account.reset_expires_at = None;
}

/// Reset password, after storing the new password (`updated`): the answer.
pub fn reset_password_outcome(updated: bool) -> (r: VerifyEmailResponse)
    ensures
        updated ==> answers(r, true, "Password has been reset successfully. You can now login with your new password."@),
        !updated ==> answers(r, false, "Failed to reset password. Please try again."@),
{
    if updated {
        VerifyEmailResponse::simple(true, "Password has been reset successfully. You can now login with your new password.")
    } else {
        VerifyEmailResponse::simple(false, "Failed to reset password. Please try again.")
    }
}

/// The bearer token of an `Authorization` header value (empty when the
/// header is absent): the value without a leading `"Bearer "`, or the whole
/// value.
pub fn bearer_token(auth_header: &str) -> (t: String)
    ensures
        t@ == (if seq_starts_with(auth_header@, "Bearer "@) {
            auth_header@.subrange(7, auth_header@.len() as int)
        } else {
            auth_header@
        }),
{
    proof { reveal_strlit("Bearer "); }
    match strip_prefix(auth_header, "Bearer ") {
        Some(rest) => String::from_str(rest),
        None => String::from_str(auth_header),
    }
}

/// Change password, after decoding the caller's token (`token_valid`): `None`
/// to go on and look up the account, or the refusal.
pub fn check_password_change(token_valid: bool, new_password: &str) -> (r: Option<VerifyEmailResponse>)
    ensures
        !token_valid ==> (r matches Some(a) && answers(a, false, "Invalid or expired token. Please log in again."@)),
        token_valid && new_password.len() < 8 ==> (r matches Some(a)
            && answers(a, false, "New password must be at least 8 characters long."@)),
        token_valid && new_password.len() >= 8 ==> r is None,
{
    if !token_valid {
        return Some(VerifyEmailResponse::simple(false, "Invalid or expired token. Please log in again."));
    }
    if new_password.len() < MIN_PASSWORD_BYTES {
        return Some(VerifyEmailResponse::simple(false, "New password must be at least 8 characters long."));
    }
    None
}

/// Change password, after looking up the caller's password hash and checking
/// the current password against it (`verified`: `Some(matches)`, or `None`
/// when checking failed): `None` to go on and store the new password, or the
/// refusal.
pub fn check_current_password<T>(lookup: &Lookup<T>, verified: Option<bool>) -> (r: Option<VerifyEmailResponse>)
    ensures
        match lookup {
            Lookup::Found(_) => match verified {
                Some(true) => r is None,
                Some(false) => r matches Some(a) && answers(a, false, "Current password is incorrect."@),
                None => r matches Some(a) && answers(a, false, "An error occurred. Please try again."@),
            },
            Lookup::NotFound => r matches Some(a) && answers(a, false, "User not found."@),
            Lookup::Failed => r matches Some(a) && answers(a, false, "An error occurred. Please try again."@),
        },
{
    match lookup {
        Lookup::Found(_) => match verified {
            Some(true) => None,
            Some(false) => Some(VerifyEmailResponse::simple(false, "Current password is incorrect.")),
            None => Some(VerifyEmailResponse::simple(false, "An error occurred. Please try again.")),
        },
        Lookup::NotFound => Some(VerifyEmailResponse::simple(false, "User not found.")),
        Lookup::Failed => Some(VerifyEmailResponse::simple(false, "An error occurred. Please try again.")),
    }
}

/// Change password, after storing the new password (`updated`): the answer.
pub fn change_password_outcome(updated: bool) -> (r: VerifyEmailResponse)
    ensures
        updated ==> answers(r, true, "Password changed successfully."@),
        !updated ==> answers(r, false, "Failed to change password. Please try again."@),
{
    if updated {
        VerifyEmailResponse::simple(true, "Password changed successfully.")
    } else {
        VerifyEmailResponse::simple(false, "Failed to change password. Please try again.")
    }
}

/// The stand-in password hash stored at registration: `"hash_" + password`.
pub fn placeholder_password_hash(password: &str) -> (h: String)
    ensures h@ == "hash_"@ + password@,
{
    concat_str("hash_", password)
}

/// The token handed out when signing one fails: `"token_<username>_<id>"`.
pub fn fallback_token(username: &str, id: &str) -> (t: String)
    ensures t@ == "token_"@ + username@ + "_"@ + id@,
{
    let mut t = concat_str("token_", username);
    t.append("_");
    t.append(id);
    t
}

/// The message of a registration that storage refused.
pub fn registration_failed_message(reason: &str) -> (m: String)
    ensures m@ == "Registration failed: "@ + reason@,
{
    concat_str("Registration failed: ", reason)
}

/// `base64::engine::general_purpose::STANDARD.decode` on the bytes of a text:
/// the decoded bytes, or `None` when the text is not valid standard base64.
pub uninterp spec fn standard_base64(text: Seq<char>) -> Option<Seq<u8>>;

/// Calls `base64::engine::general_purpose::STANDARD.decode`; its error becomes
/// `None`. The result is named, not stated.
#[verifier::external_body]
fn base64_decode(text: &str) -> (r: Option<Vec<u8>>)
    ensures
        match r {
            Some(b) => standard_base64(text@) == Some(b@),
            None => standard_base64(text@) is None,
        },
{
    match general_purpose::STANDARD.decode(text) {
        Ok(b) => Some(b),
        Err(_) => None,
    }
}

/// The bytes stored for a base64 text: its decoding, or nothing when it does
/// not decode.
pub open spec fn decoded_or_empty(text: Seq<char>) -> Seq<u8> {
    match standard_base64(text) {
        Some(b) => b,
        None => Seq::empty(),
    }
}

/// The bytes stored for a decoded text: the bytes, or nothing when decoding
/// failed.
pub fn stored_bytes(decoded: Option<Vec<u8>>) -> (b: Vec<u8>)
    ensures
        b@ == (match decoded { Some(v) => v@, None => Seq::<u8>::empty() }),
{
    match decoded {
        Some(v) => v,
        None => Vec::new(),
    }
}

/// Registration, the wallet secret columns of a new account: the encrypted
/// private key, its salt and its IV, each decoded from base64 (nothing for a
/// text that does not decode).
pub fn wallet_secret_columns(encrypted_key: &str, salt: &str, iv: &str) -> (r: (Vec<u8>, Vec<u8>, Vec<u8>))
    ensures
        r.0@ == decoded_or_empty(encrypted_key@),
        r.1@ == decoded_or_empty(salt@),
        r.2@ == decoded_or_empty(iv@),
{
    let key = stored_bytes(base64_decode(encrypted_key));
    let salt_bytes = stored_bytes(base64_decode(salt));
    let iv_bytes = stored_bytes(base64_decode(iv));
    (key, salt_bytes, iv_bytes)
}

/// The account fields reported after registration.
#[derive(Debug, Clone)]
pub struct UserResponse {
    pub id: u128,
    pub username: String,
    pub email: String,
    pub role: String,
    pub first_name: String,
    pub last_name: String,
    pub wallet_address: Option<String>,
}

/// A token issued at registration.
#[derive(Debug, Clone)]
pub struct AuthResponse {
    pub access_token: String,
    /// Seconds.
    pub expires_in: u64,
    pub user: UserResponse,
}

/// Answer to a registration.
#[derive(Debug, Clone)]
pub struct RegistrationResponse {
    pub message: String,
    pub email_verification_sent: bool,
    pub auth: Option<AuthResponse>,
}

/// The answer to a registration that storage refused for `reason`.
pub fn registration_failed(reason: &str) -> (r: RegistrationResponse)
    ensures
        r.message@ == "Registration failed: "@ + reason@,
        !r.email_verification_sent,
        r.auth is None,
{
    RegistrationResponse { message: registration_failed_message(reason), email_verification_sent: false, auth: None }
}

/// The token of a new account: the signed one, or the fallback
/// `"token_<username>_<id>"` when signing failed.
pub fn registration_token(signed: Option<String>, username: &str, id: &str) -> (t: String)
    ensures
        t@ == (match signed { Some(s) => s@, None => "token_"@ + username@ + "_"@ + id@ }),
{
    match signed {
        Some(s) => s,
        None => fallback_token(username, id),
    }
}

/// The answer to a successful registration: the account was stored with the
/// role `"user"` and the wallet created for it, and a token valid for a day
/// was issued; no verification email is sent.
pub fn registration_succeeded(
    id: u128,
    username: String,
    email: String,
    first_name: String,
    last_name: String,
    wallet_address: String,
    access_token: String,
) -> (r: RegistrationResponse)
    ensures
        r.message@ == "Registration successful"@,
        !r.email_verification_sent,
        r.auth matches Some(a) && {
            &&& a.access_token == access_token
            &&& a.expires_in == 86400
            &&& a.user.id == id
            &&& a.user.username == username
            &&& a.user.email == email
            &&& a.user.role@ == "user"@
            &&& a.user.first_name == first_name
            &&& a.user.last_name == last_name
            &&& a.user.wallet_address == Some(wallet_address)
        },
{
    let user = UserResponse {
        id,
        username,
        email,
        role: String::from_str("user"),
        first_name,
        last_name,
        wallet_address: Some(wallet_address),
    };
    RegistrationResponse {
        message: String::from_str("Registration successful"),
        email_verification_sent: false,
        auth: Some(AuthResponse { access_token, expires_in: TOKEN_LIFETIME_SECONDS, user }),
    }
}

/// The answer to a request to resend the verification email.
pub fn resend_verification_response(email: &str) -> (r: VerifyEmailResponse)
    ensures
        r.success,
        r.message@ == "Verification email sent to "@ + email@ + ". Check your inbox."@,
{
    let mut message = concat_str("Verification email sent to ", email);
    message.append(". Check your inbox.");
    VerifyEmailResponse { success: true, message }
}

/// Answer to a wallet unlock request.
#[derive(Debug, Clone)]
pub struct UnlockWalletResponse {
    pub success: bool,
    pub message: String,
    pub session_token: Option<String>,
    /// Unix time in milliseconds.
    pub expires_at: Option<i64>,
    pub revoked_sessions: u64,
}

/// Answer to a wallet lock request.
#[derive(Debug, Clone)]
pub struct LockWalletResponse {
    pub success: bool,
    pub message: String,
}

/// Unlock refused because of too many failed attempts.
pub fn unlock_rate_limited() -> (r: UnlockWalletResponse)
    ensures
        !r.success,
        r.message@ == "Too many failed attempts. Please try again in 15 minutes."@,
        r.session_token is None,
        r.expires_at is None,
        r.revoked_sessions == 0,
{
    UnlockWalletResponse {
        success: false,
        message: String::from_str("Too many failed attempts. Please try again in 15 minutes."),
        session_token: None,
        expires_at: None,
        revoked_sessions: 0,
    }
}

/// Unlock that created a session valid for `ttl_days` days and revoked the
/// sessions of other devices.
pub fn unlock_succeeded(session_token: String, expires_at: i64, revoked_sessions: u64, ttl_days: i64) -> (r: UnlockWalletResponse)
    ensures
        r.success,
        r.message@ == "Wallet unlocked successfully. Session valid for "@ + signed_decimal(ttl_days as int) + " days."@,
        r.session_token == Some(session_token),
        r.expires_at == Some(expires_at),
        r.revoked_sessions == revoked_sessions,
{
    let mut message = String::from_str("Wallet unlocked successfully. Session valid for ");
    let days = i64_to_decimal(ttl_days);
    message.append(days.as_str());
    message.append(" days.");
    UnlockWalletResponse {
        success: true,
        message,
        session_token: Some(session_token),
        expires_at: Some(expires_at),
        revoked_sessions,
    }
}

/// Unlock that failed, reporting the failure's message.
pub fn unlock_failed(reason: String) -> (r: UnlockWalletResponse)
    ensures
        !r.success,
        r.message == reason,
        r.session_token is None,
        r.expires_at is None,
        r.revoked_sessions == 0,
{
    UnlockWalletResponse { success: false, message: reason, session_token: None, expires_at: None, revoked_sessions: 0 }
}

/// Answer to a lock request: it always succeeds; `revoked` tells whether a
/// session of the caller was found and revoked.
pub fn lock_outcome(revoked: bool) -> (r: LockWalletResponse)
    ensures
        r.success,
        revoked ==> r.message@ == "Wallet locked successfully."@,
        !revoked ==> r.message@ == "Wallet is not unlocked or session already expired."@,
{
    if revoked {
        LockWalletResponse { success: true, message: String::from_str("Wallet locked successfully.") }
    } else {
        LockWalletResponse { success: true, message: String::from_str("Wallet is not unlocked or session already expired.") }
    }
}

/// Answer to a request to lock every session, `count` of which were revoked.
pub fn lock_all_outcome(count: u64) -> (r: LockWalletResponse)
    ensures
        r.success,
        r.message@ == "Locked "@ + decimal(count as nat) + " sessions."@,
{
    let mut message = String::from_str("Locked ");
    let n = u64_to_decimal(count);
    message.append(n.as_str());
    message.append(" sessions.");
    LockWalletResponse { success: true, message }
}

/// The client address of a request: the first entry of its `X-Forwarded-For`
/// header, trimmed, when the header is present, otherwise the peer address.
pub fn get_ip_address(forwarded_for: Option<&str>, peer_ip: &str) -> (ip: Option<String>)
    ensures
        ip matches Some(a) && a@ == match forwarded_for {
            Some(f) => trimmed(before_first(f@, ',')),
            None => peer_ip@,
        },
{
    match forwarded_for {
        Some(f) => {
            let first = first_segment(f, ',');
            Some(trim(first.as_str()))
        },
        None => Some(String::from_str(peer_ip)),
    }
}

} // verus!

verus! {

/// A password reset request for an address without an account is answered
/// exactly like one for an account whose reset token was issued, so the
/// answer does not reveal which addresses have accounts.
pub proof fn law_forgot_password_hides_accounts(unknown: VerifyEmailResponse, known: VerifyEmailResponse)
    requires
        answers(unknown, true, reset_link_sent_message()),
        answers(known, true, reset_link_sent_message()),
    ensures
        unknown.success == known.success,
        unknown.message@ == known.message@,
{
}

/// A reset token works once: after the account it found has been reset, no
/// account is found by that token any more (provided no other account held
/// the same token).
pub proof fn law_reset_token_single_use(before: Seq<ResetAccount>, i: int, token: Seq<char>, password_hash: String)
    requires
        0 <= i < before.len(),
        holds_reset_token(before[i], token),
        forall|j: int| 0 <= j < before.len() && j != i ==> !holds_reset_token(#[trigger] before[j], token),
    ensures
        forall|j: int| 0 <= j < before.len() ==>
            !holds_reset_token(#[trigger] before.update(i, after_reset(before[i], password_hash))[j], token),
{
}

/// A reset token never finds a deactivated account, an account without that
/// token, or a token without an expiry: whatever a reset finds is active and
/// holds exactly that token, with an expiry.
pub proof fn law_reset_finds_only_active_holders(a: ResetAccount, token: Seq<char>)
    ensures
        !a.is_active ==> !holds_reset_token(a, token),
        a.reset_token is None ==> !holds_reset_token(a, token),
        a.reset_expires_at is None ==> !holds_reset_token(a, token),
        holds_reset_token(a, token) ==> a.reset_token.unwrap()@ == token,
        (a.is_active && a.reset_token is Some && a.reset_token.unwrap()@ == token && a.reset_expires_at is Some)
            ==> holds_reset_token(a, token),
{
}

} // verus!
