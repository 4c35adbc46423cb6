//! The meter reading submission procedure as a state machine: from the
//! submitter and the request it tells the handler which lookup to make next,
//! and from each answer it decides whether to refuse, look further, or store
//! the reading (and for whom, with which meter and verification status).
//! Once stored, a second state machine settles the reading on chain.

use vstd::prelude::*;
use crate::error::{is_error, ApiError, ErrorKind};
use crate::meter::{
    authorize_submitter, check_registered_meter, meter_owner, ownership_outcome, ownership_plan, resolve_meter_id,
    signature_outcome, submission_wallet, submitter_of, OwnershipPlan, ReadingAction, RegisteredMeter, Submitter,
    reading_action,
};
use crate::models::{DecimalAmount, Lookup};
use crate::text::{concat_str, str_eq};

verus! {

/// Where the submission procedure stands.
#[derive(Debug, Clone, Copy, PartialEq, Eq, Structural)]
pub enum SubmitStage {
    /// Waiting for the submitter's stored wallet.
    AwaitAccountWallet,
    /// Waiting for the registered meter with the submitted serial.
    AwaitMeter,
    /// Waiting for the stored wallet of the meter's owner.
    AwaitOwnerWallet,
    /// Waiting for the signature check.
    AwaitSignature,
    /// Waiting for the ownership verification service.
    AwaitOwnership,
    /// Waiting for the owner of the meter.
    AwaitMeterOwner,
    /// Decided.
    Done,
}

/// The reading to store once the submission is accepted.
#[derive(Debug, Clone)]
pub struct ReadingSubmission {
    /// The account the reading is stored for.
    pub owner: u128,
    pub wallet_address: String,
    pub meter_id: Option<u128>,
    /// Stored as `"verified"` when true, `"legacy_unverified"` otherwise.
    pub verified: bool,
}

/// What the handler must do next.
#[derive(Debug, Clone)]
pub enum SubmitAction {
    /// Fetch the submitter's stored wallet; answer with `AccountWallet`.
    FetchAccountWallet,
    /// Look up the registered meter with the submitted serial; answer with `Meter`.
    LookUpMeter,
    /// Fetch the stored wallet of this account (the meter's owner); answer
    /// with `OwnerWallet`.
    FetchOwnerWallet(u128),
    /// Check the reading's signature against this public key and wallet;
    /// answer with `Signature`.
    VerifySignature { public_key: String, wallet_address: String },
    /// Ask whether the submitter owns this meter; answer with `Ownership`.
    VerifyOwnership(u128),
    /// Look up the owner of this meter; answer with `MeterOwner`.
    LookUpMeterOwner(u128),
    /// Look up the owner of the meter with the submitted serial; answer with
    /// `MeterOwner`.
    LookUpSerialOwner,
    /// Store the reading.
    Store(ReadingSubmission),
    /// Refuse the submission with this error.
    Refuse(ApiError),
}

/// The answer to the last action.
#[derive(Debug)]
pub enum SubmitEvent {
    AccountWallet(Lookup<Option<String>>),
    Meter(Lookup<RegisteredMeter>),
    OwnerWallet(Lookup<Option<String>>),
    /// `Ok(valid)`, or the error that prevented checking.
    Signature(Result<bool, String>),
    /// `Ok(owns)`, or the error of the verification service.
    Ownership(Result<bool, String>),
    /// `Ok(owner)` (`None`: no such meter), or the storage error.
    MeterOwner(Result<Option<u128>, String>),
}

/// A submission in progress.
#[derive(Debug, Clone)]
pub struct SubmitReadingFlow {
    pub submitter: Submitter,
    /// The submitting account.
    pub user_id: u128,
    /// The wallet the reading is credited to, once known.
    pub wallet_address: Option<String>,
    /// The meter the reading is attributed to, if any.
    pub meter_id: Option<u128>,
    pub has_serial: bool,
    /// Both a meter serial and a signature were submitted.
    pub signed: bool,
    /// The registered meter with the submitted serial, once found.
    pub meter: Option<RegisteredMeter>,
    pub stage: SubmitStage,
}

/// Whether `a` refuses with an error of `kind` and `message`.
pub open spec fn refuses(a: SubmitAction, kind: ErrorKind, message: Seq<char>) -> bool {
    a matches SubmitAction::Refuse(e) && is_error(e, kind, message)
}

/// Whether `a` stores the reading for `owner`, credited to `wallet`,
/// attributed to `meter_id`, with verification status `verified`.
pub open spec fn stores(a: SubmitAction, owner: u128, wallet: Option<String>, meter_id: Option<u128>, verified: bool) -> bool {
    a matches SubmitAction::Store(s) && wallet == Some(s.wallet_address) && s.owner == owner
        && s.meter_id == meter_id && s.verified == verified
}

/// The step after the wallet is known: look up the signing meter when the
/// reading is signed, otherwise establish the owner.
pub open spec fn after_wallet(flow: SubmitReadingFlow, next: SubmitReadingFlow, a: SubmitAction) -> bool {
    if flow.signed {
        next.stage == SubmitStage::AwaitMeter && a is LookUpMeter
    } else {
        establishes_owner(flow, next, a)
    }
}

/// The step that establishes the owner of the reading, following the
/// ownership plan for the flow's submitter, meter and serial.
pub open spec fn establishes_owner(flow: SubmitReadingFlow, next: SubmitReadingFlow, a: SubmitAction) -> bool {
    match flow.meter_id {
        Some(id) => if flow.submitter == Submitter::Ami {
            next.stage == SubmitStage::AwaitMeterOwner && a == SubmitAction::LookUpMeterOwner(id)
        } else {
            next.stage == SubmitStage::AwaitOwnership && a == SubmitAction::VerifyOwnership(id)
        },
        None => if flow.submitter != Submitter::Ami {
            next.stage == SubmitStage::Done && stores(a, flow.user_id, flow.wallet_address, None, false)
        } else if flow.has_serial {
            next.stage == SubmitStage::AwaitMeterOwner && a is LookUpSerialOwner
        } else {
            next.stage == SubmitStage::Done && refuses(a, ErrorKind::BadRequest, "AMI must provide meter_id or serial"@)
        },
    }
}

/// A reading is stored under the submitting account unless the metering
/// infrastructure submitted it, and it is stored as verified exactly when it
/// is attributed to a meter.
pub open spec fn stored_for(submitter: Submitter, user_id: u128, a: SubmitAction) -> bool {
    a matches SubmitAction::Store(s) ==> {
        &&& submitter != Submitter::Ami ==> s.owner == user_id
        &&& s.verified == s.meter_id is Some
    }
}

/// The fields of a flow that a step leaves as they were.
pub open spec fn same_request(flow: SubmitReadingFlow, next: SubmitReadingFlow) -> bool {
    &&& next.submitter == flow.submitter
    &&& next.user_id == flow.user_id
    &&& next.has_serial == flow.has_serial
    &&& next.signed == flow.signed
}

impl SubmitReadingFlow {
    /// Continues once the wallet is known.
    fn continue_after_wallet(&mut self) -> (a: SubmitAction)
        requires old(self).wallet_address is Some,
        ensures
            after_wallet(*old(self), *final(self), a),
            same_request(*old(self), *final(self)),
            final(self).wallet_address == old(self).wallet_address,
            final(self).meter_id == old(self).meter_id,
            final(self).meter == old(self).meter,
    {
        if self.signed {
            self.stage = SubmitStage::AwaitMeter;
            SubmitAction::LookUpMeter
        } else {
            self.establish_owner()
        }
    }

    /// Establishes the owner of the reading.
    fn establish_owner(&mut self) -> (a: SubmitAction)
        requires old(self).wallet_address is Some,
        ensures
            establishes_owner(*old(self), *final(self), a),
            same_request(*old(self), *final(self)),
            final(self).wallet_address == old(self).wallet_address,
            final(self).meter_id == old(self).meter_id,
            final(self).meter == old(self).meter,
    {
        match ownership_plan(self.submitter, self.meter_id, self.has_serial) {
            Ok(OwnershipPlan::VerifySubmitterOwns(id)) => {
                self.stage = SubmitStage::AwaitOwnership;
                SubmitAction::VerifyOwnership(id)
            },
            Ok(OwnershipPlan::LookUpMeterOwner(id)) => {
                self.stage = SubmitStage::AwaitMeterOwner;
                SubmitAction::LookUpMeterOwner(id)
            },
            Ok(OwnershipPlan::LookUpSerialOwner) => {
                self.stage = SubmitStage::AwaitMeterOwner;
                SubmitAction::LookUpSerialOwner
            },
            Ok(OwnershipPlan::SubmitterIsOwner) => {
                self.stage = SubmitStage::Done;
                self.store(self.user_id)
            },
            Err(e) => {
                self.stage = SubmitStage::Done;
                SubmitAction::Refuse(e)
            },
        }
    }

    /// Accepts the submission for `owner`.
    fn store(&self, owner: u128) -> (a: SubmitAction)
        requires self.wallet_address is Some,
        ensures stores(a, owner, self.wallet_address, self.meter_id, self.meter_id is Some),
    {
        let wallet_address = match &self.wallet_address {
            Some(w) => w.clone(),
            None => String::new(),
        };
        SubmitAction::Store(ReadingSubmission {
            owner,
            wallet_address,
            meter_id: self.meter_id,
            verified: self.meter_id.is_some(),
        })
    }


    /// Starts the submission of a reading by an account with `role`, with the
    /// wallet and meter named in the request and whether it carries a meter
    /// serial and a signature.
    pub fn start(
        role: &str,
        user_id: u128,
        request_wallet: Option<String>,
        meter_id: Option<u128>,
        has_serial: bool,
        has_signature: bool,
    ) -> (r: (Self, SubmitAction))
        ensures
            r.0.user_id == user_id,
            r.0.has_serial == has_serial,
            r.0.signed == (has_serial && has_signature),
            r.0.meter_id == meter_id,
            r.0.meter is None,
            r.0.consistent(),
            stored_for(r.0.submitter, user_id, r.1),
            match submitter_of(role@) {
                None => r.0.stage == SubmitStage::Done
                    && refuses(r.1, ErrorKind::Forbidden, "Only prosumers or AMI can submit meter readings"@),
                Some(Submitter::Ami) => {
                    &&& r.0.submitter == Submitter::Ami
                    &&& match request_wallet {
                        Some(w) => r.0.wallet_address == Some(w) && after_wallet(r.0, r.0, r.1),
                        None => r.0.stage == SubmitStage::Done
                            && refuses(r.1, ErrorKind::BadRequest, "Wallet address required for AMI submission"@),
                    }
                },
                Some(s) => r.0.submitter == s && r.0.stage == SubmitStage::AwaitAccountWallet
                    && r.1 is FetchAccountWallet && r.0.wallet_address is None,
            },
    {
        let submitter = match authorize_submitter(role) {
            Ok(s) => s,
            Err(e) => {
                let flow = SubmitReadingFlow {
                    submitter: Submitter::Prosumer,
                    user_id,
                    wallet_address: None,
                    meter_id,
                    has_serial,
                    signed: has_serial && has_signature,
                    meter: None,
                    stage: SubmitStage::Done,
                };
                return (flow, SubmitAction::Refuse(e));
            },
        };
        let mut flow = SubmitReadingFlow {
            submitter,
            user_id,
            wallet_address: None,
            meter_id,
            has_serial,
            signed: has_serial && has_signature,
            meter: None,
            stage: SubmitStage::AwaitAccountWallet,
        };
        if submitter != Submitter::Ami {
            return (flow, SubmitAction::FetchAccountWallet);
        }
        match submission_wallet(submitter, request_wallet, Lookup::NotFound) {
            Ok(w) => {
                flow.wallet_address = Some(w);
                let a = flow.continue_after_wallet();
                (flow, a)
            },
            Err(e) => {
                flow.stage = SubmitStage::Done;
                (flow, SubmitAction::Refuse(e))
            },
        }
    }
    /// Whether `event` answers the action the flow is waiting on.
    pub open spec fn awaits(self, event: SubmitEvent) -> bool {
        match event {
            SubmitEvent::AccountWallet(_) => self.stage == SubmitStage::AwaitAccountWallet,
            SubmitEvent::Meter(_) => self.stage == SubmitStage::AwaitMeter,
            SubmitEvent::OwnerWallet(_) => self.stage == SubmitStage::AwaitOwnerWallet && self.meter is Some,
            SubmitEvent::Signature(_) => self.stage == SubmitStage::AwaitSignature,
            SubmitEvent::Ownership(_) => self.stage == SubmitStage::AwaitOwnership,
            SubmitEvent::MeterOwner(_) => self.stage == SubmitStage::AwaitMeterOwner,
        }
    }

    /// Whether the flow is in a state that `start` and `step` can reach: the
    /// stored wallet is only fetched for a submitter other than AMI, and the
    /// wallet is known in every stage that follows.
    pub open spec fn consistent(self) -> bool {
        &&& self.stage == SubmitStage::AwaitAccountWallet ==> self.submitter != Submitter::Ami
        &&& self.stage == SubmitStage::AwaitOwnership ==> self.submitter != Submitter::Ami
        &&& self.stage == SubmitStage::AwaitMeterOwner ==> self.submitter == Submitter::Ami
        &&& self.stage != SubmitStage::AwaitAccountWallet && self.stage != SubmitStage::Done
            ==> self.wallet_address is Some
    }

    /// Takes the answer to the last action and decides the next one.
    pub fn step(&mut self, event: SubmitEvent) -> (a: SubmitAction)
        requires
            old(self).awaits(event),
            old(self).consistent(),
        ensures
            same_request(*old(self), *final(self)),
            final(self).consistent(),
            stored_for(old(self).submitter, old(self).user_id, a),
            match event {
                SubmitEvent::AccountWallet(lookup) => match lookup {
                    Lookup::Found(Some(w)) => {
                        let mid = SubmitReadingFlow { wallet_address: Some(w), ..*old(self) };
                        final(self).wallet_address == Some(w) && after_wallet(mid, *final(self), a)
                    },
                    Lookup::Found(None) => final(self).stage == SubmitStage::Done
                        && refuses(a, ErrorKind::BadRequest, "Wallet address not set for user"@),
                    _ => final(self).stage == SubmitStage::Done
                        && refuses(a, ErrorKind::Internal, "Failed to fetch user data"@),
                },
                SubmitEvent::Meter(lookup) => match lookup {
                    Lookup::Found(meter) => if meter.verification_status@ != "verified"@ {
                        final(self).stage == SubmitStage::Done
                            && refuses(a, ErrorKind::Forbidden, "Meter is not verified. Please wait for admin approval."@)
                    } else {
                        final(self).meter == Some(meter)
                            && final(self).stage == SubmitStage::AwaitOwnerWallet
                            && a == SubmitAction::FetchOwnerWallet(meter.owner_id)
                    },
                    Lookup::NotFound => establishes_owner(*old(self), *final(self), a),
                    Lookup::Failed => final(self).stage == SubmitStage::Done
                        && refuses(a, ErrorKind::Internal, "Failed to verify meter"@),
                },
                SubmitEvent::OwnerWallet(lookup) => {
                    let meter = old(self).meter.unwrap();
                    let wallet = old(self).wallet_address.unwrap();
                    if meter.verification_status@ != "verified"@ {
                        final(self).stage == SubmitStage::Done
                            && refuses(a, ErrorKind::Forbidden, "Meter is not verified. Please wait for admin approval."@)
                    } else {
                        match lookup {
                            Lookup::Found(Some(owner_wallet)) => if owner_wallet@ != wallet@ {
                                final(self).stage == SubmitStage::Done
                                    && refuses(a, ErrorKind::Forbidden, "Wallet address does not match meter owner"@)
                            } else {
                                match meter.public_key {
                                    Some(key) => {
                                        &&& final(self).meter_id == (if old(self).meter_id is None { Some(meter.id) } else { old(self).meter_id })
                                        &&& final(self).stage == SubmitStage::AwaitSignature
                                        &&& a matches SubmitAction::VerifySignature { public_key, wallet_address }
                                        &&& public_key == key && wallet_address == wallet
                                    },
                                    None => establishes_owner(*old(self), *final(self), a),
                                }
                            },
                            Lookup::Found(None) => final(self).stage == SubmitStage::Done && refuses(a, ErrorKind::BadRequest,
                                "Meter owner has not initialized their wallet. Please login to the dashboard first."@),
                            _ => final(self).stage == SubmitStage::Done
                                && refuses(a, ErrorKind::Internal, "Failed to verify meter ownership"@),
                        }
                    }
                },
                SubmitEvent::Signature(checked) => match checked {
                    Ok(true) => establishes_owner(*old(self), *final(self), a),
                    Ok(false) => final(self).stage == SubmitStage::Done
                        && refuses(a, ErrorKind::Unauthorized, "Invalid meter signature"@),
                    Err(e) => final(self).stage == SubmitStage::Done
                        && refuses(a, ErrorKind::BadRequest, "Signature verification failed: "@ + e@),
                },
                SubmitEvent::Ownership(answer) => match answer {
                    Ok(true) => final(self).stage == SubmitStage::Done
                        && stores(a, old(self).user_id, old(self).wallet_address, old(self).meter_id, old(self).meter_id is Some),
                    Ok(false) => final(self).stage == SubmitStage::Done
                        && refuses(a, ErrorKind::Forbidden, "You do not own this meter or it is not verified"@),
                    Err(e) => final(self).stage == SubmitStage::Done
                        && refuses(a, ErrorKind::Internal, "Failed to verify meter ownership: "@ + e@),
                },
                SubmitEvent::MeterOwner(answer) => match answer {
                    Ok(Some(owner)) => final(self).stage == SubmitStage::Done
                        && stores(a, owner, old(self).wallet_address, old(self).meter_id, old(self).meter_id is Some),
                    Ok(None) => final(self).stage == SubmitStage::Done
                        && refuses(a, ErrorKind::BadRequest, "Meter not found"@),
                    Err(e) => final(self).stage == SubmitStage::Done
                        && refuses(a, ErrorKind::Internal, e@),
                },
            },
    {
        match event {
            SubmitEvent::AccountWallet(lookup) => {
                match submission_wallet(self.submitter, None, lookup) {
                    Ok(w) => {
                        self.wallet_address = Some(w);
                        self.continue_after_wallet()
                    },
                    Err(e) => {
                        self.stage = SubmitStage::Done;
                        SubmitAction::Refuse(e)
                    },
                }
            },
            SubmitEvent::Meter(lookup) => {
                match lookup {
                    Lookup::Found(meter) => {
                        if !str_eq(meter.verification_status.as_str(), "verified") {
                            self.stage = SubmitStage::Done;
                            return SubmitAction::Refuse(ApiError::Forbidden(String::from_str(
                                "Meter is not verified. Please wait for admin approval.",
                            )));
                        }
                        let owner = meter.owner_id;
                        self.meter = Some(meter);
                        self.stage = SubmitStage::AwaitOwnerWallet;
                        SubmitAction::FetchOwnerWallet(owner)
                    },
                    Lookup::NotFound => self.establish_owner(),
                    Lookup::Failed => {
                        self.stage = SubmitStage::Done;
                        SubmitAction::Refuse(ApiError::Internal(String::from_str("Failed to verify meter")))
                    },
                }
            },
            SubmitEvent::OwnerWallet(lookup) => {
                let meter = match self.meter.take() {
                    Some(m) => m,
                    None => {
                        self.stage = SubmitStage::Done;
                        return SubmitAction::Refuse(ApiError::Internal(String::from_str("Failed to verify meter")));
                    },
                };
                let wallet = match &self.wallet_address {
                    Some(w) => w.clone(),
                    None => String::new(),
                };
                let checked = check_registered_meter(&meter, &lookup, wallet.as_str());
                let key = match &meter.public_key {
                    Some(k) => Some(k.clone()),
                    None => None,
                };
                let resolved = resolve_meter_id(self.meter_id, &meter);
                self.meter = Some(meter);
                match checked {
                    Err(e) => {
                        self.stage = SubmitStage::Done;
                        SubmitAction::Refuse(e)
                    },
                    Ok(()) => match key {
                        Some(public_key) => {
                            self.meter_id = resolved;
                            self.stage = SubmitStage::AwaitSignature;
                            SubmitAction::VerifySignature { public_key, wallet_address: wallet }
                        },
                        None => self.establish_owner(),
                    },
                }
            },
            SubmitEvent::Signature(checked) => {
                match signature_outcome(checked) {
                    Ok(()) => self.establish_owner(),
                    Err(e) => {
                        self.stage = SubmitStage::Done;
                        SubmitAction::Refuse(e)
                    },
                }
            },
            SubmitEvent::Ownership(answer) => {
                self.stage = SubmitStage::Done;
                match answer {
                    Ok(owns) => match ownership_outcome(owns) {
                        Ok(()) => self.store(self.user_id),
                        Err(e) => SubmitAction::Refuse(e),
                    },
                    Err(e) => SubmitAction::Refuse(ApiError::Internal(
                        concat_str("Failed to verify meter ownership: ", e.as_str()),
                    )),
                }
            },
            SubmitEvent::MeterOwner(answer) => {
                self.stage = SubmitStage::Done;
                match answer {
                    Ok(found) => match meter_owner(found) {
                        Ok(owner) => self.store(owner),
                        Err(e) => SubmitAction::Refuse(e),
                    },
                    Err(e) => SubmitAction::Refuse(ApiError::Internal(e)),
                }
            },
        }
    }
}

} // verus!

verus! {

/// Where the on-chain settlement of a stored reading stands.
#[derive(Debug, Clone, Copy, PartialEq, Eq, Structural)]
pub enum ChainStage {
    /// Waiting for the authority keypair.
    AwaitAuthority,
    /// Waiting for the token mint and the wallet to be read as public keys.
    AwaitAddresses,
    /// Waiting for the wallet's token account.
    AwaitTokenAccount,
    /// Waiting for the mint.
    AwaitMint,
    /// Waiting for the burn.
    AwaitBurn,
    /// Waiting for the reading to be marked with the transaction signature.
    AwaitMark,
    /// Waiting for the corporate buyer that takes surplus energy.
    AwaitCorporate,
    /// Waiting for the corporate buyer's token account.
    AwaitCorporateAccount,
    /// Waiting for the transfer to the corporate buyer.
    AwaitTransfer,
    /// Nothing more is done on chain.
    Done,
}

/// What the handler must do next for a stored reading.
#[derive(Debug, Clone)]
pub enum ChainAction {
    /// Get the authority keypair; answer with `Authority`.
    FetchAuthority,
    /// Read the token mint and the wallet as public keys; answer with `Addresses`.
    ParseAddresses,
    /// Make sure the wallet's token account exists; answer with `TokenAccount`.
    EnsureTokenAccount,
    /// Mint tokens for the reading's amount; answer with `Minted`.
    MintTokens,
    /// Burn tokens for the reading's amount; answer with `Burned`.
    BurnTokens,
    /// Record on the reading (this id) the signature of its transaction; answer
    /// with `Marked`.
    MarkAsMinted(u128, String),
    /// Look up a corporate buyer with a wallet; answer with `Corporate`.
    FindCorporate,
    /// Make sure this corporate wallet has a token account; answer with
    /// `CorporateAccount`.
    EnsureCorporateAccount(String),
    /// Transfer the minted tokens to the corporate buyer; answer with
    /// `Transferred`.
    TransferToCorporate,
    /// Answer the submission with the stored reading as it now is.
    Respond,
}

/// The answer to the last chain action. A `false` or `Err` is a failure of
/// that step.
#[derive(Debug)]
pub enum ChainEvent {
    Authority(bool),
    Addresses(bool),
    TokenAccount(bool),
    /// The mint's signature, or its error.
    Minted(Result<String, String>),
    /// The burn's signature, or its error.
    Burned(Result<String, String>),
    Marked,
    /// The wallet of a corporate buyer, if any.
    Corporate(Lookup<String>),
    CorporateAccount(bool),
    Transferred(Result<String, String>),
}

/// The on-chain settlement of a stored reading: a positive reading mints
/// tokens, a negative one burns them, zero does nothing. A step that fails
/// ends the settlement, and the submission is still answered with the
/// reading.
#[derive(Debug, Clone)]
pub struct ChainSettlement {
    pub reading_id: u128,
    pub action: ReadingAction,
    pub stage: ChainStage,
}

impl ChainSettlement {
    /// Whether `event` answers the action the settlement waits on.
    pub open spec fn awaits(self, event: ChainEvent) -> bool {
        match event {
            ChainEvent::Authority(_) => self.stage == ChainStage::AwaitAuthority,
            ChainEvent::Addresses(_) => self.stage == ChainStage::AwaitAddresses,
            ChainEvent::TokenAccount(_) => self.stage == ChainStage::AwaitTokenAccount,
            ChainEvent::Minted(_) => self.stage == ChainStage::AwaitMint,
            ChainEvent::Burned(_) => self.stage == ChainStage::AwaitBurn,
            ChainEvent::Marked => self.stage == ChainStage::AwaitMark,
            ChainEvent::Corporate(_) => self.stage == ChainStage::AwaitCorporate,
            ChainEvent::CorporateAccount(_) => self.stage == ChainStage::AwaitCorporateAccount,
            ChainEvent::Transferred(_) => self.stage == ChainStage::AwaitTransfer,
        }
    }

    /// Starts the settlement of the reading `reading_id` of `kwh`.
    pub fn start(reading_id: u128, kwh: &DecimalAmount) -> (r: (Self, ChainAction))
        ensures
            r.0.reading_id == reading_id,
            r.0.action == (if kwh.mantissa == 0 {
                ReadingAction::Nothing
            } else if kwh.mantissa > 0 {
                ReadingAction::Mint
            } else {
                ReadingAction::Burn
            }),
            kwh.mantissa == 0 ==> r.0.stage == ChainStage::Done && r.1 is Respond,
            kwh.mantissa != 0 ==> r.0.stage == ChainStage::AwaitAuthority && r.1 is FetchAuthority,
    {
        let action = reading_action(kwh);
        match action {
            ReadingAction::Nothing => (ChainSettlement { reading_id, action, stage: ChainStage::Done }, ChainAction::Respond),
            _ => (ChainSettlement { reading_id, action, stage: ChainStage::AwaitAuthority }, ChainAction::FetchAuthority),
        }
    }

    /// Takes the answer to the last chain action and decides the next one.
    pub fn step(&mut self, event: ChainEvent) -> (a: ChainAction)
        requires
            old(self).awaits(event),
        ensures
            final(self).reading_id == old(self).reading_id,
            final(self).action == old(self).action,
            final(self).stage == ChainStage::Done <==> a is Respond,
            match event {
                ChainEvent::Authority(ok) => if ok {
                    final(self).stage == ChainStage::AwaitAddresses && a is ParseAddresses
                } else {
                    a is Respond
                },
                ChainEvent::Addresses(ok) => if ok {
                    final(self).stage == ChainStage::AwaitTokenAccount && a is EnsureTokenAccount
                } else {
                    a is Respond
                },
                ChainEvent::TokenAccount(ok) => if !ok {
                    a is Respond
                } else if old(self).action == ReadingAction::Mint {
                    final(self).stage == ChainStage::AwaitMint && a is MintTokens
                } else if old(self).action == ReadingAction::Burn {
                    final(self).stage == ChainStage::AwaitBurn && a is BurnTokens
                } else {
                    a is Respond
                },
                ChainEvent::Minted(res) | ChainEvent::Burned(res) => match res {
                    Ok(sig) => final(self).stage == ChainStage::AwaitMark
                        && a == ChainAction::MarkAsMinted(old(self).reading_id, sig),
                    Err(_) => a is Respond,
                },
                ChainEvent::Marked => if old(self).action == ReadingAction::Mint {
                    final(self).stage == ChainStage::AwaitCorporate && a is FindCorporate
                } else {
                    a is Respond
                },
                ChainEvent::Corporate(found) => match found {
                    Lookup::Found(wallet) => final(self).stage == ChainStage::AwaitCorporateAccount
                        && a == ChainAction::EnsureCorporateAccount(wallet),
                    _ => a is Respond,
                },
                ChainEvent::CorporateAccount(ok) => if ok {
                    final(self).stage == ChainStage::AwaitTransfer && a is TransferToCorporate
                } else {
                    a is Respond
                },
                ChainEvent::Transferred(_) => a is Respond,
            },
    {
        let next = match event {
            ChainEvent::Authority(ok) => {
                if ok { (ChainStage::AwaitAddresses, ChainAction::ParseAddresses) } else { (ChainStage::Done, ChainAction::Respond) }
            },
            ChainEvent::Addresses(ok) => {
                if ok { (ChainStage::AwaitTokenAccount, ChainAction::EnsureTokenAccount) } else { (ChainStage::Done, ChainAction::Respond) }
            },
            ChainEvent::TokenAccount(ok) => {
                if !ok {
                    (ChainStage::Done, ChainAction::Respond)
                } else {
                    match self.action {
                        ReadingAction::Mint => (ChainStage::AwaitMint, ChainAction::MintTokens),
                        ReadingAction::Burn => (ChainStage::AwaitBurn, ChainAction::BurnTokens),
                        ReadingAction::Nothing => (ChainStage::Done, ChainAction::Respond),
                    }
                }
            },
            ChainEvent::Minted(res) | ChainEvent::Burned(res) => match res {
                Ok(sig) => (ChainStage::AwaitMark, ChainAction::MarkAsMinted(self.reading_id, sig)),
                Err(_) => (ChainStage::Done, ChainAction::Respond),
            },
            ChainEvent::Marked => {
                if self.action == ReadingAction::Mint {
                    (ChainStage::AwaitCorporate, ChainAction::FindCorporate)
                } else {
                    (ChainStage::Done, ChainAction::Respond)
                }
            },
            ChainEvent::Corporate(found) => match found {
                Lookup::Found(wallet) => (ChainStage::AwaitCorporateAccount, ChainAction::EnsureCorporateAccount(wallet)),
                _ => (ChainStage::Done, ChainAction::Respond),
            },
            ChainEvent::CorporateAccount(ok) => {
                if ok { (ChainStage::AwaitTransfer, ChainAction::TransferToCorporate) } else { (ChainStage::Done, ChainAction::Respond) }
            },
            ChainEvent::Transferred(_) => (ChainStage::Done, ChainAction::Respond),
        };
        self.stage = next.0;
        next.1
    }
}

} // verus!
