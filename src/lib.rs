//! Ledger state machine of an insurance marketplace: account registry,
//! policy catalog, purchases with escrowed premiums, claims adjudicated
//! from an oracle risk score, and oracle request tracking.

pub mod rules;
pub mod types;
pub mod portal;
pub mod claims;
pub mod oracle;
pub mod queries;
pub mod laws;
pub mod integrity;

pub use portal::InsurancePortal;
pub use types::{
    ClaimReceipt, OracleRequest, PaymentEscrow, Policy, PolicyClaim, PolicyNFTMetadata,
    PolicyParams, PortalError, PurchaseReceipt, Transfer, User, UserPolicy,
};
