//! Registration and login with wallets: the field rules of a registration,
//! the choice of wallet, and the checks of a login.

use vstd::prelude::*;
use crate::error::{is_error, ApiError, ErrorKind};
use crate::text::{concat_str, copy_optional};
use validator::ValidateEmail;

verus! {

/// `validator::ValidateEmail::validate_email` on a text: whether it is an
/// email address in the HTML5 sense (user part of allowed characters, domain
/// of valid labels or an address literal, international domains allowed).
pub uninterp spec fn valid_email(s: Seq<char>) -> bool;

/// Calls `validator::ValidateEmail::validate_email`. Besides naming the result,
/// this states what its source shows plainly: an empty text or one without
/// `@` is not an email address.
#[verifier::external_body]
fn check_email(email: &str) -> (b: bool)
    ensures
        b == valid_email(email@),
        (email@.len() == 0 || !email@.contains('@')) ==> !b,
{
    email.validate_email()
}

/// `bs58::encode(bytes).into_string()`: the Base58 text of some bytes.
pub uninterp spec fn base58_text(bytes: Seq<u8>) -> Seq<char>;

/// Calls `bs58::encode(..).into_string()`. The result is named, not stated.
#[verifier::external_body]
fn base58_encode(bytes: &[u8]) -> (s: String)
    ensures
        s@ == base58_text(bytes@),
{
    bs58::encode(bytes).into_string()
}

/// The fields of a registration that are subject to rules.
#[derive(Debug, Clone)]
pub struct WalletRegistrationFields {
    pub username: String,
    pub email: String,
    pub password: String,
    pub role: String,
    pub first_name: String,
    pub last_name: String,
    /// Create a new wallet for this user.
    pub create_wallet: Option<bool>,
    /// Optional wallet address chosen by the user.
    pub wallet_address: Option<String>,
}

/// A registration field that breaks its rule.
#[derive(Debug, Clone, Copy, PartialEq, Eq, Structural)]
pub enum RegistrationField {
    Username,
    Email,
    Password,
    Role,
    FirstName,
    LastName,
    WalletAddress,
}

/// Whether a text has between `min` and `max` characters.
pub open spec fn length_within(s: Seq<char>, min: nat, max: nat) -> bool {
    min <= s.len() && s.len() <= max
}

/// `field` alone when `invalid`, nothing otherwise.
pub open spec fn flagged(invalid: bool, field: RegistrationField) -> Seq<RegistrationField> {
    if invalid { seq![field] } else { Seq::empty() }
}

/// Every field that breaks its rule, in declaration order.
pub open spec fn invalid_fields(f: WalletRegistrationFields) -> Seq<RegistrationField> {
    flagged(!length_within(f.username@, 3, 50), RegistrationField::Username)
        + flagged(!valid_email(f.email@), RegistrationField::Email)
        + flagged(!length_within(f.password@, 8, 128), RegistrationField::Password)
        + flagged(!length_within(f.role@, 1, 20), RegistrationField::Role)
        + flagged(!length_within(f.first_name@, 1, 100), RegistrationField::FirstName)
        + flagged(!length_within(f.last_name@, 1, 100), RegistrationField::LastName)
        + flagged(f.wallet_address matches Some(w) && !length_within(w@, 32, 44), RegistrationField::WalletAddress)
}

fn within(s: &str, min: usize, max: usize) -> (b: bool)
    ensures b == length_within(s@, min as nat, max as nat),
{
    let n = s.unicode_len();
    min <= n && n <= max
}

proof fn lemma_concat_contains(a: Seq<RegistrationField>, b: Seq<RegistrationField>)
    ensures
        forall|x: RegistrationField| #[trigger] (a + b).contains(x) <==> (a.contains(x) || b.contains(x)),
{
    assert forall|x: RegistrationField| #[trigger] (a + b).contains(x) <==> (a.contains(x) || b.contains(x)) by {
        if (a + b).contains(x) {
            let i = choose|i: int| 0 <= i < (a + b).len() && (a + b)[i] == x;
            if i < a.len() {
                assert(a[i] == x);
            } else {
                assert(b[i - a.len()] == x);
            }
        }
        if a.contains(x) {
            let i = choose|i: int| 0 <= i < a.len() && a[i] == x;
            assert((a + b)[i] == x);
        }
        if b.contains(x) {
            let j = choose|j: int| 0 <= j < b.len() && b[j] == x;
            assert((a + b)[a.len() + j] == x);
        }
    }
}

proof fn lemma_flagged_contains(invalid: bool, field: RegistrationField)
    ensures
        forall|x: RegistrationField| #[trigger] flagged(invalid, field).contains(x) <==> (invalid && x == field),
{
    assert forall|x: RegistrationField| #[trigger] flagged(invalid, field).contains(x) <==> (invalid && x == field) by {
        if invalid && x == field {
            assert(flagged(invalid, field)[0] == x);
        }
    }
}

/// A registration field is reported exactly when it breaks its rule: the user
/// name unless it has 3 to 50 characters, the email unless it is valid, the
/// password unless 8 to 128, the role unless 1 to 20, each name unless 1 to
/// 100, and a given wallet address unless 32 to 44.
pub proof fn law_bad_fields_reported(f: WalletRegistrationFields)
    ensures
        invalid_fields(f).contains(RegistrationField::Username) <==> (f.username@.len() < 3 || f.username@.len() > 50),
        invalid_fields(f).contains(RegistrationField::Email) <==> !valid_email(f.email@),
        invalid_fields(f).contains(RegistrationField::Password) <==> (f.password@.len() < 8 || f.password@.len() > 128),
        invalid_fields(f).contains(RegistrationField::Role) <==> (f.role@.len() < 1 || f.role@.len() > 20),
        invalid_fields(f).contains(RegistrationField::FirstName) <==> (f.first_name@.len() < 1 || f.first_name@.len() > 100),
        invalid_fields(f).contains(RegistrationField::LastName) <==> (f.last_name@.len() < 1 || f.last_name@.len() > 100),
        invalid_fields(f).contains(RegistrationField::WalletAddress) <==> (f.wallet_address is Some
            && (f.wallet_address.unwrap()@.len() < 32 || f.wallet_address.unwrap()@.len() > 44)),
        invalid_fields(f).len() == 0 <==> {
            &&& 3 <= f.username@.len() <= 50
            &&& valid_email(f.email@)
            &&& 8 <= f.password@.len() <= 128
            &&& 1 <= f.role@.len() <= 20
            &&& 1 <= f.first_name@.len() <= 100
            &&& 1 <= f.last_name@.len() <= 100
            &&& f.wallet_address is Some ==> 32 <= f.wallet_address.unwrap()@.len() <= 44
        },
{
    let p1 = flagged(!length_within(f.username@, 3, 50), RegistrationField::Username);
    let p2 = flagged(!valid_email(f.email@), RegistrationField::Email);
    let p3 = flagged(!length_within(f.password@, 8, 128), RegistrationField::Password);
    let p4 = flagged(!length_within(f.role@, 1, 20), RegistrationField::Role);
    let p5 = flagged(!length_within(f.first_name@, 1, 100), RegistrationField::FirstName);
    let p6 = flagged(!length_within(f.last_name@, 1, 100), RegistrationField::LastName);
    let p7 = flagged(f.wallet_address matches Some(w) && !length_within(w@, 32, 44), RegistrationField::WalletAddress);
    lemma_flagged_contains(!length_within(f.username@, 3, 50), RegistrationField::Username);
    lemma_flagged_contains(!valid_email(f.email@), RegistrationField::Email);
    lemma_flagged_contains(!length_within(f.password@, 8, 128), RegistrationField::Password);
    lemma_flagged_contains(!length_within(f.role@, 1, 20), RegistrationField::Role);
    lemma_flagged_contains(!length_within(f.first_name@, 1, 100), RegistrationField::FirstName);
    lemma_flagged_contains(!length_within(f.last_name@, 1, 100), RegistrationField::LastName);
    lemma_flagged_contains(f.wallet_address matches Some(w) && !length_within(w@, 32, 44), RegistrationField::WalletAddress);
    lemma_concat_contains(p1, p2);
    lemma_concat_contains(p1 + p2, p3);
    lemma_concat_contains(p1 + p2 + p3, p4);
    lemma_concat_contains(p1 + p2 + p3 + p4, p5);
    lemma_concat_contains(p1 + p2 + p3 + p4 + p5, p6);
    lemma_concat_contains(p1 + p2 + p3 + p4 + p5 + p6, p7);
    let all = invalid_fields(f);
    assert(all == p1 + p2 + p3 + p4 + p5 + p6 + p7);
    if all.len() == 0 {
        assert(!all.contains(RegistrationField::Username));
        assert(!all.contains(RegistrationField::Email));
        assert(!all.contains(RegistrationField::Password));
        assert(!all.contains(RegistrationField::Role));
        assert(!all.contains(RegistrationField::FirstName));
        assert(!all.contains(RegistrationField::LastName));
        assert(!all.contains(RegistrationField::WalletAddress));
    } else {
        assert(all.contains(all[0]));
        match all[0] {
            RegistrationField::Username => {},
            RegistrationField::Email => {},
            RegistrationField::Password => {},
            RegistrationField::Role => {},
            RegistrationField::FirstName => {},
            RegistrationField::LastName => {},
            RegistrationField::WalletAddress => {},
        }
    }
}

fn flag(out: &mut Vec<RegistrationField>, invalid: bool, field: RegistrationField)
    ensures
        final(out)@ == old(out)@ + flagged(invalid, field),
{
    if invalid {
        out.push(field);
    }
    proof {
        assert(final(out)@ =~= old(out)@ + flagged(invalid, field));
    }
}

/// Checks the field rules of a registration: user name of 3 to 50
/// characters, a valid email, password of 8 to 128, role of 1 to 20, names of
/// 1 to 100, and a wallet address, when given, of 32 to 44. Every field that
/// breaks its rule is reported, in declaration order.
pub fn validate_registration(f: &WalletRegistrationFields) -> (r: Result<(), Vec<RegistrationField>>)
    ensures
        r is Ok <==> invalid_fields(*f).len() == 0,
        r matches Err(v) ==> v@ == invalid_fields(*f),
        (f.username@.len() < 3 || f.username@.len() > 50)
            ==> (r matches Err(v) && v@.contains(RegistrationField::Username)),
        !valid_email(f.email@) ==> (r matches Err(v) && v@.contains(RegistrationField::Email)),
        (f.password@.len() < 8 || f.password@.len() > 128)
            ==> (r matches Err(v) && v@.contains(RegistrationField::Password)),
        (f.role@.len() < 1 || f.role@.len() > 20) ==> (r matches Err(v) && v@.contains(RegistrationField::Role)),
        (f.first_name@.len() < 1 || f.first_name@.len() > 100)
            ==> (r matches Err(v) && v@.contains(RegistrationField::FirstName)),
        (f.last_name@.len() < 1 || f.last_name@.len() > 100)
            ==> (r matches Err(v) && v@.contains(RegistrationField::LastName)),
        (f.wallet_address is Some && (f.wallet_address.unwrap()@.len() < 32 || f.wallet_address.unwrap()@.len() > 44))
            ==> (r matches Err(v) && v@.contains(RegistrationField::WalletAddress)),
        r is Ok ==> {
            &&& 3 <= f.username@.len() <= 50
            &&& valid_email(f.email@)
            &&& 8 <= f.password@.len() <= 128
            &&& 1 <= f.role@.len() <= 20
            &&& 1 <= f.first_name@.len() <= 100
            &&& 1 <= f.last_name@.len() <= 100
            &&& f.wallet_address is Some ==> 32 <= f.wallet_address.unwrap()@.len() <= 44
        },
{
    proof { law_bad_fields_reported(*f); }
    let mut out: Vec<RegistrationField> = Vec::new();
    flag(&mut out, !within(f.username.as_str(), 3, 50), RegistrationField::Username);
    flag(&mut out, !check_email(f.email.as_str()), RegistrationField::Email);
    flag(&mut out, !within(f.password.as_str(), 8, 128), RegistrationField::Password);
    flag(&mut out, !within(f.role.as_str(), 1, 20), RegistrationField::Role);
    flag(&mut out, !within(f.first_name.as_str(), 1, 100), RegistrationField::FirstName);
    flag(&mut out, !within(f.last_name.as_str(), 1, 100), RegistrationField::LastName);
    let bad_wallet = match &f.wallet_address {
        Some(w) => !within(w.as_str(), 32, 44),
        None => false,
    };
    flag(&mut out, bad_wallet, RegistrationField::WalletAddress);
    proof {
        assert(out@ =~= invalid_fields(*f));
    }
    if out.len() == 0 {
        Ok(())
    } else {
        Err(out)
    }
}

/// A user name or email that is already taken is refused.
pub fn check_unique_account(existing: i64) -> (r: Result<(), ApiError>)
    ensures
        existing > 0 ==> (r matches Err(ApiError::BadRequest(m)) && m@ == "Username or email already exists"@),
        existing <= 0 ==> r is Ok,
{
    if existing > 0 {
        Err(ApiError::BadRequest(String::from_str("Username or email already exists")))
    } else {
        Ok(())
    }
}

/// Which wallet a new account gets.
#[derive(Debug, Clone, PartialEq, Eq)]
pub enum WalletPlan {
    /// A new wallet is created (and funded on development networks).
    CreateNew,
    /// The user's own address is used.
    UseProvided(String),
    /// The account has no wallet.
    NoWallet,
}

/// A new wallet is created when asked for and no address was given;
/// otherwise a given address is used.
pub fn wallet_plan(create_wallet: Option<bool>, wallet_address: Option<String>) -> (p: WalletPlan)
    ensures
        p == (if create_wallet == Some(true) && wallet_address is None {
            WalletPlan::CreateNew
        } else {
            match wallet_address {
                Some(a) => WalletPlan::UseProvided(a),
                None => WalletPlan::NoWallet,
            }
        }),
{
    let create = match create_wallet {
        Some(c) => c,
        None => false,
    };
    if create && wallet_address.is_none() {
        WalletPlan::CreateNew
    } else {
        match wallet_address {
            Some(a) => WalletPlan::UseProvided(a),
            None => WalletPlan::NoWallet,
        }
    }
}

/// Login, after looking up the account by user name (`found`: whether it
/// exists, and its active flag): unknown users and deactivated accounts are
/// refused.
pub fn check_login_account(found: Option<Option<bool>>) -> (r: Result<(), ApiError>)
    ensures
        match found {
            None => r matches Err(ApiError::Unauthorized(m)) && m@ == "Invalid username or password"@,
            Some(Some(false)) => r matches Err(ApiError::Unauthorized(m)) && m@ == "Account is deactivated"@,
            Some(_) => r is Ok,
        },
{
    match found {
        None => Err(ApiError::Unauthorized(String::from_str("Invalid username or password"))),
        Some(is_active) => {
            let active = match is_active {
                Some(a) => a,
                None => true,
            };
            if !active {
                Err(ApiError::Unauthorized(String::from_str("Account is deactivated")))
            } else {
                Ok(())
            }
        },
    }
}

/// Login, after checking the password: a wrong password is refused.
pub fn check_login_password(password_matches: bool) -> (r: Result<(), ApiError>)
    ensures
        password_matches ==> r is Ok,
        !password_matches ==> (r matches Err(ApiError::Unauthorized(m)) && m@ == "Invalid username or password"@),
{
    if password_matches {
        Ok(())
    } else {
        Err(ApiError::Unauthorized(String::from_str("Invalid username or password")))
    }
}

/// Validity of tokens issued at registration and login, in seconds (a day).
pub fn token_lifetime_seconds() -> (s: u64)
    ensures s == 86400,
{
    24 * 60 * 60
}

/// The account fields reported with an issued token.
#[derive(Debug, Clone)]
pub struct SecureUserInfo {
    pub username: String,
    pub email: String,
    pub role: String,
    /// Whether the account has a wallet.
    pub blockchain_registered: bool,
}

/// The wallet of a new account (development networks). Its balance in SOL is
/// the lamport balance converted to floating point by the caller.
#[derive(Debug, Clone)]
pub struct DevWalletInfo {
    pub address: String,
    pub balance_lamports: u64,
    pub private_key: String,
    pub airdrop_signature: Option<String>,
    /// Whether the wallet was created for this registration.
    pub created_new: bool,
}

/// Answer to a registration with a wallet.
#[derive(Debug, Clone)]
pub struct WalletRegistrationResponse {
    pub access_token: String,
    pub token_type: String,
    pub expires_in: u64,
    pub user: SecureUserInfo,
    pub wallet_info: Option<DevWalletInfo>,
}

/// The wallet of an account that logs in. Its balance in SOL is the lamport
/// balance converted to floating point by the caller.
#[derive(Debug, Clone)]
pub struct UserWalletInfo {
    pub address: String,
    pub balance_lamports: Option<u64>,
}

/// Answer to a login with wallet information.
#[derive(Debug, Clone)]
pub struct WalletLoginResponse {
    pub access_token: String,
    pub token_type: String,
    pub expires_in: u64,
    pub user: SecureUserInfo,
    pub wallet_info: Option<UserWalletInfo>,
}

/// The wallet information of a wallet created at registration.
pub fn new_wallet_info(address: String, balance_lamports: u64, private_key: String, airdrop_signature: Option<String>) -> (w: DevWalletInfo)
    ensures
        w.address == address,
        w.balance_lamports == balance_lamports,
        w.private_key == private_key,
        w.airdrop_signature == airdrop_signature,
        w.created_new,
{
    DevWalletInfo { address, balance_lamports, private_key, airdrop_signature, created_new: true }
}

/// The wallet information of an address the user provided: its private key
/// is not known and nothing was airdropped.
pub fn provided_wallet_info(address: String, balance_lamports: u64) -> (w: DevWalletInfo)
    ensures
        w.address == address,
        w.balance_lamports == balance_lamports,
        w.private_key@ == "Not available (user provided address)"@,
        w.airdrop_signature is None,
        !w.created_new,
{
    DevWalletInfo {
        address,
        balance_lamports,
        private_key: String::from_str("Not available (user provided address)"),
        airdrop_signature: None,
        created_new: false,
    }
}

/// The answer to a successful registration: a bearer token valid for a day,
/// the account's fields, and whether it has a wallet (`wallet_address`, the
/// address stored for the account).
pub fn wallet_registration_response(
    access_token: String,
    username: String,
    email: String,
    role: String,
    wallet_address: &Option<String>,
    wallet_info: Option<DevWalletInfo>,
) -> (r: WalletRegistrationResponse)
    ensures
        r.access_token == access_token,
        r.token_type@ == "Bearer"@,
        r.expires_in == 86400,
        r.user.username == username,
        r.user.email == email,
        r.user.role == role,
        r.user.blockchain_registered == wallet_address is Some,
        r.wallet_info == wallet_info,
{
    WalletRegistrationResponse {
        access_token,
        token_type: String::from_str("Bearer"),
        expires_in: token_lifetime_seconds(),
        user: SecureUserInfo { username, email, role, blockchain_registered: wallet_address.is_some() },
        wallet_info,
    }
}

/// The answer to a successful login: a bearer token valid for a day and the
/// account's fields (an unknown role reads as empty).
pub fn wallet_login_response(
    access_token: String,
    username: String,
    email: String,
    role: Option<String>,
    wallet_address: &Option<String>,
    wallet_info: Option<UserWalletInfo>,
) -> (r: WalletLoginResponse)
    ensures
        r.access_token == access_token,
        r.token_type@ == "Bearer"@,
        r.expires_in == 86400,
        r.user.username == username,
        r.user.email == email,
        r.user.role@ == (match role { Some(x) => x@, None => Seq::<char>::empty() }),
        r.user.blockchain_registered == wallet_address is Some,
        r.wallet_info == wallet_info,
{
    let role = match role {
        Some(x) => x,
        None => String::new(),
    };
    WalletLoginResponse {
        access_token,
        token_type: String::from_str("Bearer"),
        expires_in: token_lifetime_seconds(),
        user: SecureUserInfo { username, email, role, blockchain_registered: wallet_address.is_some() },
        wallet_info,
    }
}

} // verus!

verus! {

/// Where a registration with a wallet stands.
#[derive(Debug, Clone, Copy, PartialEq, Eq, Structural)]
pub enum RegistrationStage {
    /// Waiting for the role to be recognised.
    AwaitRole,
    /// Waiting for the count of accounts with the user name or email.
    AwaitExisting,
    /// Waiting for the health of the chain's RPC service.
    AwaitRpc,
    /// Waiting for the new wallet.
    AwaitNewWallet,
    /// Waiting for the check of the provided address.
    AwaitAddressCheck,
    /// Waiting for the balance of the provided address.
    AwaitProvidedBalance,
    /// Waiting for the password hash.
    AwaitPasswordHash,
    /// Waiting for the account to be stored.
    AwaitInsert,
    /// Waiting for the access token.
    AwaitToken,
    /// Decided.
    Done,
}

/// What the handler must do next for a registration with a wallet.
#[derive(Debug, Clone)]
pub enum RegistrationAction {
    /// Refuse: these fields break their rules (answered as a validation error).
    RejectFields(Vec<RegistrationField>),
    /// Refuse with this error.
    Reject(ApiError),
    /// Check that the role names a known role; answer with `RoleChecked`.
    CheckRole,
    /// Count the accounts with the user name or email; answer with `Existing`.
    CountExisting,
    /// Check the chain's RPC service; answer with `RpcHealthy`.
    CheckRpc,
    /// Create a wallet (with a development airdrop) and read its balance;
    /// answer with `WalletCreated`.
    CreateWallet,
    /// Check that this is a well-formed wallet address; answer with
    /// `AddressValid`.
    CheckAddress(String),
    /// Read the balance of this address; answer with `ProvidedBalance`.
    FetchBalance(String),
    /// Hash the password; answer with `PasswordHashed`.
    HashPassword,
    /// Store the account with this wallet address; answer with `Inserted`.
    InsertUser(Option<String>),
    /// Issue the access token; answer with `Token`.
    IssueToken,
    /// Answer the registration.
    Respond(WalletRegistrationResponse),
}

/// The answer to the last registration action.
#[derive(Debug)]
pub enum RegistrationEvent {
    RoleChecked(bool),
    /// The count, or the storage error.
    Existing(Result<i64, String>),
    RpcHealthy(bool),
    /// The new wallet: its address, balance, the bytes of its keypair and the
    /// signature of its airdrop, if any.
    WalletCreated { address: String, balance_lamports: u64, keypair_bytes: Vec<u8>, airdrop_signature: Option<String> },
    AddressValid(bool),
    /// The balance (zero when it could not be read), or `None` when the
    /// address does not read as a public key.
    ProvidedBalance(Option<u64>),
    /// Whether hashing succeeded, or its error.
    PasswordHashed(Result<(), ApiError>),
    /// Whether the account was stored, or the storage error.
    Inserted(Result<(), String>),
    /// The access token, or the error of issuing it.
    Token(Result<String, ApiError>),
}

/// A registration with a wallet in progress.
#[derive(Debug)]
pub struct WalletRegistrationFlow {
    pub username: String,
    pub email: String,
    pub role: String,
    pub plan: WalletPlan,
    /// The wallet address the account is stored with.
    pub wallet_address: Option<String>,
    pub wallet_info: Option<DevWalletInfo>,
    pub stage: RegistrationStage,
}

/// Whether `r` refuses with an error of `kind` and exactly `message`.
pub open spec fn rejects(a: RegistrationAction, kind: ErrorKind, message: Seq<char>) -> bool {
    a matches RegistrationAction::Reject(e) && is_error(e, kind, message)
}

/// The account's wallet follows the plan: a created wallet is reported as
/// new and stored; a provided address is stored, and reported (when it reads
/// as a public key) as not new; without a wallet nothing is stored.
pub open spec fn wallet_follows_plan(f: WalletRegistrationFlow) -> bool {
    match f.plan {
        WalletPlan::CreateNew => f.wallet_info matches Some(i) && i.created_new && f.wallet_address == Some(i.address),
        WalletPlan::UseProvided(a) => f.wallet_address == Some(a)
            && (f.wallet_info matches Some(i) ==> !i.created_new && i.address == a),
        WalletPlan::NoWallet => f.wallet_address is None && f.wallet_info is None,
    }
}

impl WalletRegistrationFlow {
    /// Whether the flow is in a state that `start` and `step` can reach.
    pub open spec fn consistent(self) -> bool {
        &&& (self.stage == RegistrationStage::AwaitRpc || self.stage == RegistrationStage::AwaitNewWallet)
            ==> self.plan == WalletPlan::CreateNew && self.wallet_info is None
        &&& (self.stage == RegistrationStage::AwaitAddressCheck || self.stage == RegistrationStage::AwaitProvidedBalance)
            ==> (self.plan matches WalletPlan::UseProvided(a) && self.wallet_address == Some(a) && self.wallet_info is None)
        &&& (self.stage == RegistrationStage::AwaitPasswordHash || self.stage == RegistrationStage::AwaitInsert
            || self.stage == RegistrationStage::AwaitToken) ==> wallet_follows_plan(self)
        &&& (self.stage == RegistrationStage::AwaitRole || self.stage == RegistrationStage::AwaitExisting)
            ==> self.wallet_info is None && (self.plan matches WalletPlan::UseProvided(a) ==> self.wallet_address == Some(a))
                && (self.plan == WalletPlan::NoWallet ==> self.wallet_address is None)
                && (self.plan == WalletPlan::CreateNew ==> self.wallet_address is None)
    }

    /// Whether `event` answers the action the flow waits on.
    pub open spec fn awaits(self, event: RegistrationEvent) -> bool {
        match event {
            RegistrationEvent::RoleChecked(_) => self.stage == RegistrationStage::AwaitRole,
            RegistrationEvent::Existing(_) => self.stage == RegistrationStage::AwaitExisting,
            RegistrationEvent::RpcHealthy(_) => self.stage == RegistrationStage::AwaitRpc,
            RegistrationEvent::WalletCreated { .. } => self.stage == RegistrationStage::AwaitNewWallet,
            RegistrationEvent::AddressValid(_) => self.stage == RegistrationStage::AwaitAddressCheck,
            RegistrationEvent::ProvidedBalance(_) => self.stage == RegistrationStage::AwaitProvidedBalance,
            RegistrationEvent::PasswordHashed(_) => self.stage == RegistrationStage::AwaitPasswordHash,
            RegistrationEvent::Inserted(_) => self.stage == RegistrationStage::AwaitInsert,
            RegistrationEvent::Token(_) => self.stage == RegistrationStage::AwaitToken,
        }
    }

    /// Starts the registration of `fields`: every field that breaks its rule
    /// refuses it; otherwise the role is checked next.
    pub fn start(fields: WalletRegistrationFields) -> (r: (Self, RegistrationAction))
        ensures
            r.0.consistent(),
            r.0.username == fields.username,
            r.0.email == fields.email,
            r.0.role == fields.role,
            r.0.plan == (if fields.create_wallet == Some(true) && fields.wallet_address is None {
                WalletPlan::CreateNew
            } else {
                match fields.wallet_address {
                    Some(a) => WalletPlan::UseProvided(a),
                    None => WalletPlan::NoWallet,
                }
            }),
            invalid_fields(fields).len() > 0 ==> r.0.stage == RegistrationStage::Done,
            invalid_fields(fields).len() > 0 ==> (r.1 matches RegistrationAction::RejectFields(v) && v@ == invalid_fields(fields)),
            invalid_fields(fields).len() == 0 ==> r.0.stage == RegistrationStage::AwaitRole && r.1 is CheckRole,
    {
        let checked = validate_registration(&fields);
        let plan = wallet_plan(fields.create_wallet, copy_optional(&fields.wallet_address));
        let wallet_address = match &plan {
            WalletPlan::UseProvided(a) => Some(a.clone()),
            _ => None,
        };
        let mut flow = WalletRegistrationFlow {
            username: fields.username,
            email: fields.email,
            role: fields.role,
            plan,
            wallet_address,
            wallet_info: None,
            stage: RegistrationStage::AwaitRole,
        };
        match checked {
            Err(v) => {
                flow.stage = RegistrationStage::Done;
                (flow, RegistrationAction::RejectFields(v))
            },
            Ok(()) => (flow, RegistrationAction::CheckRole),
        }
    }

    /// The next step once the account is known to be new: the wallet the
    /// plan asks for.
    fn after_existing(&mut self) -> (a: RegistrationAction)
        requires
            old(self).wallet_info is None,
            old(self).plan matches WalletPlan::UseProvided(x) ==> old(self).wallet_address == Some(x),
            old(self).plan == WalletPlan::NoWallet ==> old(self).wallet_address is None,
        ensures
            final(self).consistent(),
            final(self).username == old(self).username,
            final(self).email == old(self).email,
            final(self).role == old(self).role,
            final(self).plan == old(self).plan,
            match old(self).plan {
                WalletPlan::CreateNew => final(self).stage == RegistrationStage::AwaitRpc && a is CheckRpc,
                WalletPlan::UseProvided(x) => final(self).stage == RegistrationStage::AwaitAddressCheck
                    && a == RegistrationAction::CheckAddress(x),
                WalletPlan::NoWallet => final(self).stage == RegistrationStage::AwaitPasswordHash && a is HashPassword,
            },
    {
        match &self.plan {
            WalletPlan::CreateNew => {
                self.stage = RegistrationStage::AwaitRpc;
                RegistrationAction::CheckRpc
            },
            WalletPlan::UseProvided(x) => {
                let address = x.clone();
                self.stage = RegistrationStage::AwaitAddressCheck;
                RegistrationAction::CheckAddress(address)
            },
            WalletPlan::NoWallet => {
                self.stage = RegistrationStage::AwaitPasswordHash;
                RegistrationAction::HashPassword
            },
        }
    }

    /// Takes the answer to the last action and decides the next one.
    pub fn step(&mut self, event: RegistrationEvent) -> (a: RegistrationAction)
        requires
            old(self).awaits(event),
            old(self).consistent(),
        ensures
            final(self).consistent(),
            final(self).username == old(self).username,
            final(self).email == old(self).email,
            final(self).role == old(self).role,
            final(self).plan == old(self).plan,
            match event {
                RegistrationEvent::RoleChecked(ok) => if ok {
                    final(self).stage == RegistrationStage::AwaitExisting && a is CountExisting
                } else {
                    final(self).stage == RegistrationStage::Done && rejects(a, ErrorKind::BadRequest, "Invalid role"@)
                },
                RegistrationEvent::Existing(count) => match count {
                    Err(e) => final(self).stage == RegistrationStage::Done
                        && rejects(a, ErrorKind::Internal, "Database error: "@ + e@),
                    Ok(n) => if n > 0 {
                        final(self).stage == RegistrationStage::Done
                            && rejects(a, ErrorKind::BadRequest, "Username or email already exists"@)
                    } else {
                        match old(self).plan {
                            WalletPlan::CreateNew => final(self).stage == RegistrationStage::AwaitRpc && a is CheckRpc,
                            WalletPlan::UseProvided(x) => final(self).stage == RegistrationStage::AwaitAddressCheck
                                && a == RegistrationAction::CheckAddress(x),
                            WalletPlan::NoWallet => final(self).stage == RegistrationStage::AwaitPasswordHash
                                && a is HashPassword,
                        }
                    },
                },
                RegistrationEvent::RpcHealthy(ok) => if ok {
                    final(self).stage == RegistrationStage::AwaitNewWallet && a is CreateWallet
                } else {
                    final(self).stage == RegistrationStage::Done && rejects(a, ErrorKind::Internal,
                        "Solana RPC not available. Please ensure solana-test-validator is running."@)
                },
                RegistrationEvent::WalletCreated { address, balance_lamports, keypair_bytes, airdrop_signature } => {
                    &&& final(self).stage == RegistrationStage::AwaitPasswordHash && a is HashPassword
                    &&& final(self).wallet_address == Some(address)
                    &&& final(self).wallet_info matches Some(i) && i.address == address && i.balance_lamports == balance_lamports
                        && i.private_key@ == base58_text(keypair_bytes@) && i.airdrop_signature == airdrop_signature
                        && i.created_new
                },
                RegistrationEvent::AddressValid(ok) => if ok {
                    final(self).stage == RegistrationStage::AwaitProvidedBalance
                        && a == RegistrationAction::FetchBalance(old(self).wallet_address.unwrap())
                } else {
                    final(self).stage == RegistrationStage::Done
                        && rejects(a, ErrorKind::BadRequest, "Invalid Solana wallet address format"@)
                },
                RegistrationEvent::ProvidedBalance(balance) => {
                    &&& final(self).stage == RegistrationStage::AwaitPasswordHash && a is HashPassword
                    &&& final(self).wallet_address == old(self).wallet_address
                    &&& match balance {
                        Some(b) => final(self).wallet_info matches Some(i) && Some(i.address) == old(self).wallet_address
                            && i.balance_lamports == b && !i.created_new,
                        None => final(self).wallet_info is None,
                    }
                },
                RegistrationEvent::PasswordHashed(hashed) => match hashed {
                    Err(e) => final(self).stage == RegistrationStage::Done && a == RegistrationAction::Reject(e),
                    Ok(()) => final(self).stage == RegistrationStage::AwaitInsert
                        && a == RegistrationAction::InsertUser(old(self).wallet_address),
                },
                RegistrationEvent::Inserted(stored) => match stored {
                    Err(e) => final(self).stage == RegistrationStage::Done
                        && rejects(a, ErrorKind::Internal, "Failed to create user: "@ + e@),
                    Ok(()) => final(self).stage == RegistrationStage::AwaitToken && a is IssueToken,
                },
                RegistrationEvent::Token(issued) => match issued {
                    Err(e) => final(self).stage == RegistrationStage::Done && a == RegistrationAction::Reject(e),
                    Ok(t) => {
                        &&& final(self).stage == RegistrationStage::Done
                        &&& a matches RegistrationAction::Respond(resp)
                        &&& resp.access_token == t
                        &&& resp.token_type@ == "Bearer"@
                        &&& resp.expires_in == 86400
                        &&& resp.user.username == old(self).username
                        &&& resp.user.email == old(self).email
                        &&& resp.user.role == old(self).role
                        &&& resp.user.blockchain_registered == old(self).wallet_address is Some
                        &&& resp.wallet_info == old(self).wallet_info
                    },
                },
            },
    {
        match event {
            RegistrationEvent::RoleChecked(ok) => {
                if ok {
                    self.stage = RegistrationStage::AwaitExisting;
                    RegistrationAction::CountExisting
                } else {
                    self.stage = RegistrationStage::Done;
                    RegistrationAction::Reject(ApiError::BadRequest(String::from_str("Invalid role")))
                }
            },
            RegistrationEvent::Existing(count) => match count {
                Err(e) => {
                    self.stage = RegistrationStage::Done;
                    RegistrationAction::Reject(ApiError::Internal(concat_str("Database error: ", e.as_str())))
                },
                Ok(n) => match check_unique_account(n) {
                    Err(e) => {
                        self.stage = RegistrationStage::Done;
                        RegistrationAction::Reject(e)
                    },
                    Ok(()) => self.after_existing(),
                },
            },
            RegistrationEvent::RpcHealthy(ok) => {
                if ok {
                    self.stage = RegistrationStage::AwaitNewWallet;
                    RegistrationAction::CreateWallet
                } else {
                    self.stage = RegistrationStage::Done;
                    RegistrationAction::Reject(ApiError::Internal(String::from_str(
                        "Solana RPC not available. Please ensure solana-test-validator is running.",
                    )))
                }
            },
            RegistrationEvent::WalletCreated { address, balance_lamports, keypair_bytes, airdrop_signature } => {
                let private_key = base58_encode(keypair_bytes.as_slice());
                self.wallet_address = Some(address.clone());
                self.wallet_info = Some(new_wallet_info(address, balance_lamports, private_key, airdrop_signature));
                self.stage = RegistrationStage::AwaitPasswordHash;
                RegistrationAction::HashPassword
            },
            RegistrationEvent::AddressValid(ok) => {
                if ok {
                    let address = match &self.wallet_address {
                        Some(x) => x.clone(),
                        None => String::new(),
                    };
                    self.stage = RegistrationStage::AwaitProvidedBalance;
                    RegistrationAction::FetchBalance(address)
                } else {
                    self.stage = RegistrationStage::Done;
                    RegistrationAction::Reject(ApiError::BadRequest(String::from_str("Invalid Solana wallet address format")))
                }
            },
            RegistrationEvent::ProvidedBalance(balance) => {
                match balance {
                    Some(b) => {
                        let address = match &self.wallet_address {
                            Some(x) => x.clone(),
                            None => String::new(),
                        };
                        self.wallet_info = Some(provided_wallet_info(address, b));
                    },
                    None => {},
                }
                self.stage = RegistrationStage::AwaitPasswordHash;
                RegistrationAction::HashPassword
            },
            RegistrationEvent::PasswordHashed(hashed) => match hashed {
                Err(e) => {
                    self.stage = RegistrationStage::Done;
                    RegistrationAction::Reject(e)
                },
                Ok(()) => {
                    self.stage = RegistrationStage::AwaitInsert;
                    RegistrationAction::InsertUser(copy_optional(&self.wallet_address))
                },
            },
            RegistrationEvent::Inserted(stored) => match stored {
                Err(e) => {
                    self.stage = RegistrationStage::Done;
                    RegistrationAction::Reject(ApiError::Internal(concat_str("Failed to create user: ", e.as_str())))
                },
                Ok(()) => {
                    self.stage = RegistrationStage::AwaitToken;
                    RegistrationAction::IssueToken
                },
            },
            RegistrationEvent::Token(issued) => match issued {
                Err(e) => {
                    self.stage = RegistrationStage::Done;
                    RegistrationAction::Reject(e)
                },
                Ok(t) => {
                    let info = self.wallet_info.take();
                    let resp = wallet_registration_response(
                        t,
                        self.username.clone(),
                        self.email.clone(),
                        self.role.clone(),
                        &self.wallet_address,
                        info,
                    );
                    self.stage = RegistrationStage::Done;
                    RegistrationAction::Respond(resp)
                },
            },
        }
    }
}

/// A registration that is answered gets a new wallet exactly when it asked
/// for one and gave no address of its own.
pub proof fn law_new_wallet_iff_requested(f: WalletRegistrationFlow, create_wallet: Option<bool>, wallet_address: Option<String>)
    requires
        f.plan == (if create_wallet == Some(true) && wallet_address is None {
            WalletPlan::CreateNew
        } else {
            match wallet_address {
                Some(a) => WalletPlan::UseProvided(a),
                None => WalletPlan::NoWallet,
            }
        }),
        wallet_follows_plan(f),
    ensures
        (f.wallet_info matches Some(i) && i.created_new) <==> (create_wallet == Some(true) && wallet_address is None),
        f.wallet_address is Some <==> (create_wallet == Some(true) || wallet_address is Some),
{
}

} // verus!
