//! Records held by the ledger. Addresses are the textual form of the
//! host's account addresses; two records name the same account exactly
//! when their address strings are equal.
use vstd::prelude::*;

verus! {

/// A registered participant.
#[derive(Debug, PartialEq, Eq)]
pub struct User {
    pub wallet: String,
    pub role: u32,
    pub registered: bool,
    pub name: String,
    pub location: String,
    pub contact: String,
    pub registered_at: u64,
}

/// An insurable product of the catalog.
#[derive(Debug, PartialEq, Eq)]
pub struct Policy {
    pub policy_id: u64,
    pub title: String,
    pub description: String,
    pub policy_type: u32,
    pub monthly_premium: i128,
    pub yearly_premium: i128,
    pub coverage_amount: i128,
    pub min_age: u64,
    pub max_age: u64,
    pub duration_days: u64,
    pub waiting_period_days: u64,
    pub created_at: u64,
    pub created_by: String,
}

/// One purchase of a policy by an account.
#[derive(Debug, PartialEq, Eq)]
pub struct UserPolicy {
    pub policy_id: u64,
    pub user_address: String,
    pub purchase_date: u64,
    pub expiry_date: u64,
    pub premium_paid_xlm: i128,
    pub monthly_premium_xlm: i128,
    pub active: bool,
    pub token_id: String,
    pub metadata_uri: String,
    pub escrow_id: u64,
    pub holder_name: String,
    pub holder_age: u64,
    pub holder_gender: String,
    pub holder_blood_group: String,
}

/// Descriptive record of the token minted for a purchase.
#[derive(Debug, PartialEq, Eq)]
pub struct PolicyNFTMetadata {
    pub name: String,
    pub description: String,
    pub image_uri: String,
    pub coverage_amount: i128,
    pub validity_start: u64,
    pub validity_end: u64,
    pub premium_amount: i128,
    pub policy_type: u32,
    pub holder_name: String,
    pub holder_age: u64,
    pub holder_gender: String,
    pub holder_blood_group: String,
}

/// Recurring-premium schedule of a purchase.
#[derive(Debug, PartialEq, Eq)]
pub struct PaymentEscrow {
    pub user_address: String,
    pub policy_id: u64,
    pub monthly_premium_xlm: i128,
    pub next_payment_due: u64,
    pub payments_made: u64,
    pub total_payments_required: u64,
    pub escrow_balance: i128,
    pub active: bool,
}

/// A request for payout under an owned policy.
#[derive(Debug, PartialEq, Eq)]
pub struct PolicyClaim {
    pub claim_id: u64,
    pub policy_id: u64,
    pub user_address: String,
    pub claim_amount: i128,
    pub aggregate_score: u32,
    pub status: u32,
    pub claimed_at: u64,
    pub processed_at: u64,
    /// Health-id reference used to verify the claimant.
    pub abha_id: String,
    /// Content reference of the supporting document.
    pub ipfs_cid: String,
    /// Identifier of the off-chain verification request.
    pub oracle_request_id: String,
    pub claim_description: String,
    pub hospital_name: String,
}

/// What an administrator supplies to create a policy.
#[derive(Debug, PartialEq, Eq)]
pub struct PolicyParams {
    pub title: String,
    pub description: String,
    pub policy_type: u32,
    pub monthly_premium: i128,
    pub yearly_premium: i128,
    pub coverage_amount: i128,
    pub min_age: u64,
    pub max_age: u64,
    pub duration_days: u64,
    pub waiting_period_days: u64,
}

/// Correlation between a claim and an outstanding verification request.
/// Status 0 is pending, 1 completed, 2 failed.
#[derive(Debug, PartialEq, Eq)]
pub struct OracleRequest {
    pub request_id: String,
    pub claim_id: u64,
    pub abha_id: String,
    pub ipfs_cid: String,
    pub requested_at: u64,
    pub status: u32,
}

/// Why an operation was refused. A refused operation changes nothing.
#[derive(Clone, Copy, Debug, PartialEq, Eq, Structural)]
pub enum PortalError {
    NotAdmin,
    NotPolicyholder,
    PolicyNotFound,
    AlreadyRegistered,
    InvalidRole,
    NotRegistered,
    InsufficientPayment,
    ClaimNotFound,
    ClaimNotPending,
    /// A counter, balance or timestamp would leave its integer range.
    Overflow,
}

impl PortalError {
    /// Numeric code of the error as reported to callers; 0 for the
    /// refusals that carry no code of their own.
    pub fn code(&self) -> (r: u32)
        ensures
            r == error_code(*self),
    {
        match self {
            PortalError::NotAdmin => 1,
            PortalError::NotPolicyholder => 2,
            PortalError::PolicyNotFound => 3,
            PortalError::AlreadyRegistered => 4,
            PortalError::InvalidRole => 5,
            PortalError::NotRegistered => 6,
            PortalError::InsufficientPayment => 10,
            PortalError::ClaimNotFound => 11,
            PortalError::ClaimNotPending => 0,
            PortalError::Overflow => 0,
        }
    }
}

/// Numeric code of an error.
pub open spec fn error_code(e: PortalError) -> u32 {
    match e {
        PortalError::NotAdmin => 1,
        PortalError::NotPolicyholder => 2,
        PortalError::PolicyNotFound => 3,
        PortalError::AlreadyRegistered => 4,
        PortalError::InvalidRole => 5,
        PortalError::NotRegistered => 6,
        PortalError::InsufficientPayment => 10,
        PortalError::ClaimNotFound => 11,
        PortalError::ClaimNotPending => 0,
        PortalError::Overflow => 0,
    }
}

/// A movement of the payment asset that the host performs for an
/// operation to take effect. With `into_custody` the amount goes from
/// `account` to the ledger's own custodial address; otherwise it goes
/// from the custodial address to `account`.
#[derive(Debug, PartialEq, Eq)]
pub struct Transfer {
    pub into_custody: bool,
    pub account: String,
    pub amount: i128,
}

/// Outcome of an accepted purchase.
#[derive(Debug, PartialEq, Eq)]
pub struct PurchaseReceipt {
    /// Id of the escrow opened for the purchase.
    pub escrow_id: u64,
    /// Identifier of the token minted for the purchase.
    pub token_id: String,
    /// The premium payment into custody.
    pub payment: Transfer,
}

/// Outcome of an accepted claim submission.
#[derive(Debug, PartialEq, Eq)]
pub struct ClaimReceipt {
    pub claim_id: u64,
    pub status: u32,
    /// The payout, present exactly when the claim was approved.
    pub payout: Option<Transfer>,
}

impl Clone for User {
    fn clone(&self) -> (r: Self)
        ensures
            r == *self,
    {
        User {
            wallet: self.wallet.clone(),
            role: self.role,
            registered: self.registered,
            name: self.name.clone(),
            location: self.location.clone(),
            contact: self.contact.clone(),
            registered_at: self.registered_at,
        }
    }
}

impl Clone for Policy {
    fn clone(&self) -> (r: Self)
        ensures
            r == *self,
    {
        Policy {
            policy_id: self.policy_id,
            title: self.title.clone(),
            description: self.description.clone(),
            policy_type: self.policy_type,
            monthly_premium: self.monthly_premium,
            yearly_premium: self.yearly_premium,
            coverage_amount: self.coverage_amount,
            min_age: self.min_age,
            max_age: self.max_age,
            duration_days: self.duration_days,
            waiting_period_days: self.waiting_period_days,
            created_at: self.created_at,
            created_by: self.created_by.clone(),
        }
    }
}

impl Clone for UserPolicy {
    fn clone(&self) -> (r: Self)
        ensures
            r == *self,
    {
        UserPolicy {
            policy_id: self.policy_id,
            user_address: self.user_address.clone(),
            purchase_date: self.purchase_date,
            expiry_date: self.expiry_date,
            premium_paid_xlm: self.premium_paid_xlm,
            monthly_premium_xlm: self.monthly_premium_xlm,
            active: self.active,
            token_id: self.token_id.clone(),
            metadata_uri: self.metadata_uri.clone(),
            escrow_id: self.escrow_id,
            holder_name: self.holder_name.clone(),
            holder_age: self.holder_age,
            holder_gender: self.holder_gender.clone(),
            holder_blood_group: self.holder_blood_group.clone(),
        }
    }
}

impl Clone for PolicyNFTMetadata {
    fn clone(&self) -> (r: Self)
        ensures
            r == *self,
    {
        PolicyNFTMetadata {
            name: self.name.clone(),
            description: self.description.clone(),
            image_uri: self.image_uri.clone(),
            coverage_amount: self.coverage_amount,
            validity_start: self.validity_start,
            validity_end: self.validity_end,
            premium_amount: self.premium_amount,
            policy_type: self.policy_type,
            holder_name: self.holder_name.clone(),
            holder_age: self.holder_age,
            holder_gender: self.holder_gender.clone(),
            holder_blood_group: self.holder_blood_group.clone(),
        }
    }
}

impl Clone for PaymentEscrow {
    fn clone(&self) -> (r: Self)
        ensures
            r == *self,
    {
        PaymentEscrow {
            user_address: self.user_address.clone(),
            policy_id: self.policy_id,
            monthly_premium_xlm: self.monthly_premium_xlm,
            next_payment_due: self.next_payment_due,
            payments_made: self.payments_made,
            total_payments_required: self.total_payments_required,
            escrow_balance: self.escrow_balance,
            active: self.active,
        }
    }
}

impl Clone for PolicyClaim {
    fn clone(&self) -> (r: Self)
        ensures
            r == *self,
    {
        PolicyClaim {
            claim_id: self.claim_id,
            policy_id: self.policy_id,
            user_address: self.user_address.clone(),
            claim_amount: self.claim_amount,
            aggregate_score: self.aggregate_score,
            status: self.status,
            claimed_at: self.claimed_at,
            processed_at: self.processed_at,
            abha_id: self.abha_id.clone(),
            ipfs_cid: self.ipfs_cid.clone(),
            oracle_request_id: self.oracle_request_id.clone(),
            claim_description: self.claim_description.clone(),
            hospital_name: self.hospital_name.clone(),
        }
    }
}

impl Clone for OracleRequest {
    fn clone(&self) -> (r: Self)
        ensures
            r == *self,
    {
        OracleRequest {
            request_id: self.request_id.clone(),
            claim_id: self.claim_id,
            abha_id: self.abha_id.clone(),
            ipfs_cid: self.ipfs_cid.clone(),
            requested_at: self.requested_at,
            status: self.status,
        }
    }
}

} // verus!
