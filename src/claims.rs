//! Claims: submission with adjudication from the oracle's risk score, and
//! manual approval of claims held for an administrator.
use vstd::prelude::*;
use crate::portal::InsurancePortal;
use crate::rules::{
    claim_status_for_score, status_for_score, CLAIM_STATUS_APPROVED, CLAIM_STATUS_PENDING,
    ROLE_POLICYHOLDER,
};
use crate::types::{ClaimReceipt, PolicyClaim, PortalError, Transfer};

verus! {

impl InsurancePortal {
    /// `user` holds an active purchase of policy `policy_id`.
    pub open spec fn holds_active(&self, user: Seq<char>, policy_id: u64) -> bool {
        exists|k: int|
            0 <= k < self.user_policies@.len() && #[trigger] self.user_policies@[k].user_address@
                == user && self.user_policies@[k].policy_id == policy_id
                && self.user_policies@[k].active
    }

    /// The claim with id `id`, where there is one.
    pub open spec fn claim_spec(&self, id: u64) -> Option<PolicyClaim> {
        if 1 <= id <= self.claims@.len() {
            Some(self.claims@[id - 1])
        } else {
            None
        }
    }

    /// Whether `user` holds an active purchase of policy `policy_id`.
    fn find_active_purchase(&self, user: &String, policy_id: u64) -> (r: bool)
        ensures
            r == self.holds_active(user@, policy_id),
    {
        let mut i: usize = 0;
        while i < self.user_policies.len()
            invariant
                i <= self.user_policies@.len(),
                forall|k: int|
                    0 <= k < i ==> !(#[trigger] self.user_policies@[k].user_address@ == user@
                        && self.user_policies@[k].policy_id == policy_id
                        && self.user_policies@[k].active),
            decreases self.user_policies@.len() - i,
        {
            if self.user_policies[i].policy_id == policy_id && self.user_policies[i].active
                && self.user_policies[i].user_address == *user {
                return true;
            }
            i += 1;
        }
        false
    }

    /// Outcome of `claim_policy`: which refusal comes, if any.
    pub open spec fn claim_error(&self, user: Seq<char>, policy_id: u64) -> Option<PortalError> {
        if !self.is_registered(user) {
            Some(PortalError::NotRegistered)
        } else if self.role_of(user) != ROLE_POLICYHOLDER {
            Some(PortalError::NotPolicyholder)
        } else if !self.has_policy(policy_id) {
            Some(PortalError::PolicyNotFound)
        } else if !self.holds_active(user, policy_id) {
            Some(PortalError::PolicyNotFound)
        } else if self.claim_counter == u64::MAX {
            Some(PortalError::Overflow)
        } else {
            None
        }
    }

    /// What `claim_policy` guarantees of the ledger before (`s`) and
    /// after (`t`) the call.
    pub open spec fn claim_post(
        s: Self,
        t: Self,
        user: String,
        policy_id: u64,
        aggregate_score: u32,
        abha_id: String,
        ipfs_cid: String,
        oracle_request_id: String,
        claim_description: String,
        hospital_name: String,
        now: u64,
        r: Result<ClaimReceipt, PortalError>,
    ) -> bool {
        let amount = s.policy_spec(policy_id).coverage_amount;
        let status = status_for_score(aggregate_score);
        &&& t.wf()
        &&& r is Err <==> s.claim_error(user@, policy_id) is Some
        &&& r matches Err(e) ==> s.claim_error(user@, policy_id) == Some(e) && t == s
        &&& r matches Ok(receipt) ==> {
            &&& receipt.claim_id == s.claim_counter + 1
            &&& receipt.status == status
            &&& receipt.payout == if status == CLAIM_STATUS_APPROVED {
                Some(Transfer { into_custody: false, account: user, amount })
            } else {
                None
            }
            &&& t.claim_counter == receipt.claim_id
            &&& t.claims@ == s.claims@.push(
                PolicyClaim {
                    claim_id: receipt.claim_id,
                    policy_id,
                    user_address: user,
                    claim_amount: amount,
                    aggregate_score,
                    status,
                    claimed_at: now,
                    processed_at: now,
                    abha_id,
                    ipfs_cid,
                    oracle_request_id,
                    claim_description,
                    hospital_name,
                },
            )
            &&& t == InsurancePortal { claims: t.claims, claim_counter: t.claim_counter, ..s }
        }
    }

    /// Files a claim by policyholder `user` under policy `policy_id`, which
    /// `user` must hold, at time `now`. The claim is for the policy's whole
    /// coverage and its status follows from `aggregate_score`. An approved
    /// claim comes with its payout, which the host moves out of custody to
    /// `user`.
    pub fn claim_policy(
        &mut self,
        user: String,
        policy_id: u64,
        aggregate_score: u32,
        abha_id: String,
        ipfs_cid: String,
        oracle_request_id: String,
        claim_description: String,
        hospital_name: String,
        now: u64,
    ) -> (r: Result<ClaimReceipt, PortalError>)
        requires
            old(self).wf(),
        ensures
            Self::claim_post(
                *old(self),
                *final(self),
                user,
                policy_id,
                aggregate_score,
                abha_id,
                ipfs_cid,
                oracle_request_id,
                claim_description,
                hospital_name,
                now,
                r,
            ),
    {
        if !self.get_user_registered(&user) {
            return Err(PortalError::NotRegistered);
        }
        if self.get_user_role(&user) != ROLE_POLICYHOLDER {
            return Err(PortalError::NotPolicyholder);
        }
        if policy_id == 0 || policy_id > self.policy_counter {
            return Err(PortalError::PolicyNotFound);
        }
        assert(policy_id - 1 < self.policies.len());
        let pidx = (policy_id - 1) as usize;
        if !self.find_active_purchase(&user, policy_id) {
            return Err(PortalError::PolicyNotFound);
        }
        if self.claim_counter == u64::MAX {
            return Err(PortalError::Overflow);
        }
        let claim_id = self.claim_counter + 1;
        let status = claim_status_for_score(aggregate_score);
        let amount = self.policies[pidx].coverage_amount;
        let payout = if status == CLAIM_STATUS_APPROVED {
            Some(Transfer { into_custody: false, account: user.clone(), amount })
        } else {
            None
        };
        let ghost before = self.claims@;
        self.claims.push(
            PolicyClaim {
                claim_id,
                policy_id,
                user_address: user,
                claim_amount: amount,
                aggregate_score,
                status,
                claimed_at: now,
                processed_at: now,
                abha_id,
                ipfs_cid,
                oracle_request_id,
                claim_description,
                hospital_name,
            },
        );
        self.claim_counter = claim_id;
        assert forall|i: int| 0 <= i < self.claims@.len() implies #[trigger] self.claims@[i].claim_id
            == i + 1 by {
            if i < before.len() {
                assert(self.claims@[i] == before[i]);
            }
        }
        Ok(ClaimReceipt { claim_id, status, payout })
    }

    /// Outcome of `approve_claim`: which refusal comes, if any.
    pub open spec fn approve_error(&self, admin: Seq<char>, claim_id: u64) -> Option<PortalError> {
        if !self.is_admin_spec(admin) {
            Some(PortalError::NotAdmin)
        } else if self.claim_spec(claim_id) is None {
            Some(PortalError::ClaimNotFound)
        } else if self.claim_spec(claim_id)->Some_0.status != CLAIM_STATUS_PENDING {
            Some(PortalError::ClaimNotPending)
        } else {
            None
        }
    }

    /// What `approve_claim` guarantees of the ledger before (`s`) and
    /// after (`t`) the call.
    pub open spec fn approve_post(
        s: Self,
        t: Self,
        admin: Seq<char>,
        claim_id: u64,
        now: u64,
        r: Result<Transfer, PortalError>,
    ) -> bool {
        let c = s.claims@[claim_id - 1];
        &&& t.wf()
        &&& r is Err <==> s.approve_error(admin, claim_id) is Some
        &&& r matches Err(e) ==> s.approve_error(admin, claim_id) == Some(e) && t == s
        &&& r matches Ok(payout) ==> {
            &&& payout == Transfer {
                into_custody: false,
                account: c.user_address,
                amount: c.claim_amount,
            }
            &&& t.claims@ == s.claims@.update(
                claim_id - 1,
                PolicyClaim { status: CLAIM_STATUS_APPROVED, processed_at: now, ..c },
            )
            &&& t == InsurancePortal { claims: t.claims, ..s }
        }
    }

    /// Approves, on behalf of administrator `admin` at time `now`, the
    /// claim `claim_id` held for an administrator. Returns the payout of the claim's
    /// amount, which the host moves out of custody to the claimant.
    pub fn approve_claim(&mut self, admin: &String, claim_id: u64, now: u64) -> (r: Result<
        Transfer,
        PortalError,
    >)
        requires
            old(self).wf(),
        ensures
            Self::approve_post(*old(self), *final(self), admin@, claim_id, now, r),
    {
        if !self.is_admin(admin) {
            return Err(PortalError::NotAdmin);
        }
        if claim_id == 0 || claim_id > self.claim_counter {
            return Err(PortalError::ClaimNotFound);
        }
        assert(claim_id - 1 < self.claims.len());
        let cidx = (claim_id - 1) as usize;
        if self.claims[cidx].status != CLAIM_STATUS_PENDING {
            return Err(PortalError::ClaimNotPending);
        }
        let payout = Transfer {
            into_custody: false,
            account: self.claims[cidx].user_address.clone(),
            amount: self.claims[cidx].claim_amount,
        };
        let ghost before = self.claims@;
        self.claims[cidx].status = CLAIM_STATUS_APPROVED;
        self.claims[cidx].processed_at = now;
        assert(self.claims@ =~= before.update(
            cidx as int,
            PolicyClaim { status: CLAIM_STATUS_APPROVED, processed_at: now, ..before[cidx as int] },
        ));
        assert forall|i: int| 0 <= i < self.claims@.len() implies #[trigger] self.claims@[i].claim_id
            == i + 1 by {
            assert(before[i].claim_id == i + 1);
        }
        Ok(payout)
    }
}

} // verus!
