//! Read-only views of the ledger. None of them changes anything.
use vstd::prelude::*;
use crate::portal::InsurancePortal;
use crate::types::{Policy, PolicyClaim, PolicyNFTMetadata, PortalError, User, UserPolicy};

verus! {

/// The purchases in `s` made by `a`, in order.
pub open spec fn records_of(s: Seq<UserPolicy>, a: Seq<char>) -> Seq<UserPolicy>
    decreases s.len(),
{
    if s.len() == 0 {
        Seq::empty()
    } else {
        let r = records_of(s.drop_last(), a);
        if s.last().user_address@ == a {
            r.push(s.last())
        } else {
            r
        }
    }
}

/// Token ids of the purchases in `s` made by `a`, in order.
pub open spec fn tokens_of_user(s: Seq<UserPolicy>, a: Seq<char>) -> Seq<String>
    decreases s.len(),
{
    if s.len() == 0 {
        Seq::empty()
    } else {
        let r = tokens_of_user(s.drop_last(), a);
        if s.last().user_address@ == a {
            r.push(s.last().token_id)
        } else {
            r
        }
    }
}

/// Token ids of the purchases in `s` of policy `policy_id`, in order.
pub open spec fn tokens_of_policy(s: Seq<UserPolicy>, policy_id: u64) -> Seq<String>
    decreases s.len(),
{
    if s.len() == 0 {
        Seq::empty()
    } else {
        let r = tokens_of_policy(s.drop_last(), policy_id);
        if s.last().policy_id == policy_id {
            r.push(s.last().token_id)
        } else {
            r
        }
    }
}

/// The claims in `s` filed by `a`, in order.
pub open spec fn claims_of(s: Seq<PolicyClaim>, a: Seq<char>) -> Seq<PolicyClaim>
    decreases s.len(),
{
    if s.len() == 0 {
        Seq::empty()
    } else {
        let r = claims_of(s.drop_last(), a);
        if s.last().user_address@ == a {
            r.push(s.last())
        } else {
            r
        }
    }
}

/// The claims in `s` that cite health id `abha`, in order.
pub open spec fn claims_with_abha(s: Seq<PolicyClaim>, abha: Seq<char>) -> Seq<PolicyClaim>
    decreases s.len(),
{
    if s.len() == 0 {
        Seq::empty()
    } else {
        let r = claims_with_abha(s.drop_last(), abha);
        if s.last().abha_id@ == abha {
            r.push(s.last())
        } else {
            r
        }
    }
}

impl InsurancePortal {
    /// Status, amount and risk score of claim `claim_id`.
    pub fn get_claim_status(&self, claim_id: u64) -> (r: Result<(u32, i128, u32), PortalError>)
        requires
            self.wf(),
        ensures
            r is Err <==> self.claim_spec(claim_id) is None,
            r matches Err(e) ==> e == PortalError::ClaimNotFound,
            r matches Ok(v) ==> {
                let c = self.claim_spec(claim_id)->Some_0;
                v == (c.status, c.claim_amount, c.aggregate_score)
            },
    {
        if claim_id == 0 || claim_id > self.claim_counter {
            return Err(PortalError::ClaimNotFound);
        }
        assert(claim_id - 1 < self.claims.len());
        let c = &self.claims[(claim_id - 1) as usize];
        Ok((c.status, c.claim_amount, c.aggregate_score))
    }

    /// Every claim, by increasing id.
    pub fn get_all_claims(&self) -> (r: Vec<PolicyClaim>)
        requires
            self.wf(),
        ensures
            r@ == self.claims@,
    {
        let mut r: Vec<PolicyClaim> = Vec::new();
        let mut i: usize = 0;
        while i < self.claims.len()
            invariant
                i <= self.claims@.len(),
                r@ == self.claims@.take(i as int),
            decreases self.claims@.len() - i,
        {
            r.push(self.claims[i].clone());
            i += 1;
            assert(r@ =~= self.claims@.take(i as int));
        }
        assert(self.claims@.take(i as int) =~= self.claims@);
        r
    }

    /// The claims filed by `user_address`, by increasing id.
    pub fn get_user_claims(&self, user_address: &String) -> (r: Vec<PolicyClaim>)
        requires
            self.wf(),
        ensures
            r@ == claims_of(self.claims@, user_address@),
    {
        let mut r: Vec<PolicyClaim> = Vec::new();
        let mut i: usize = 0;
        while i < self.claims.len()
            invariant
                i <= self.claims@.len(),
                r@ == claims_of(self.claims@.take(i as int), user_address@),
            decreases self.claims@.len() - i,
        {
            assert(self.claims@.take(i + 1).drop_last() =~= self.claims@.take(i as int));
            if self.claims[i].user_address == *user_address {
                r.push(self.claims[i].clone());
            }
            i += 1;
        }
        assert(self.claims@.take(i as int) =~= self.claims@);
        r
    }

    /// The claims that cite health id `abha_id`, by increasing id.
    pub fn get_claims_by_abha_id(&self, abha_id: &String) -> (r: Vec<PolicyClaim>)
        requires
            self.wf(),
        ensures
            r@ == claims_with_abha(self.claims@, abha_id@),
    {
        let mut r: Vec<PolicyClaim> = Vec::new();
        let mut i: usize = 0;
        while i < self.claims.len()
            invariant
                i <= self.claims@.len(),
                r@ == claims_with_abha(self.claims@.take(i as int), abha_id@),
            decreases self.claims@.len() - i,
        {
            assert(self.claims@.take(i + 1).drop_last() =~= self.claims@.take(i as int));
            if self.claims[i].abha_id == *abha_id {
                r.push(self.claims[i].clone());
            }
            i += 1;
        }
        assert(self.claims@.take(i as int) =~= self.claims@);
        r
    }

    /// Whether some claim cites the document `ipfs_cid`.
    pub fn verify_ipfs_cid_in_claim(&self, ipfs_cid: &String) -> (r: bool)
        requires
            self.wf(),
        ensures
            r == exists|k: int|
                0 <= k < self.claims@.len() && #[trigger] self.claims@[k].ipfs_cid@ == ipfs_cid@,
    {
        let mut i: usize = 0;
        while i < self.claims.len()
            invariant
                i <= self.claims@.len(),
                forall|k: int| 0 <= k < i ==> #[trigger] self.claims@[k].ipfs_cid@ != ipfs_cid@,
            decreases self.claims@.len() - i,
        {
            if self.claims[i].ipfs_cid == *ipfs_cid {
                return true;
            }
            i += 1;
        }
        false
    }

    /// The whole catalog, by increasing id.
    pub fn get_all_policies(&self) -> (r: Vec<Policy>)
        requires
            self.wf(),
        ensures
            r@ == self.policies@,
    {
        let mut r: Vec<Policy> = Vec::new();
        let mut i: usize = 0;
        while i < self.policies.len()
            invariant
                i <= self.policies@.len(),
                r@ == self.policies@.take(i as int),
            decreases self.policies@.len() - i,
        {
            r.push(self.policies[i].clone());
            i += 1;
            assert(r@ =~= self.policies@.take(i as int));
        }
        assert(self.policies@.take(i as int) =~= self.policies@);
        r
    }

    /// The purchases of registered account `user_address`, in order.
    pub fn get_my_policies(&self, user_address: &String) -> (r: Result<Vec<UserPolicy>, PortalError>)
        requires
            self.wf(),
        ensures
            r is Err <==> !self.is_registered(user_address@),
            r matches Err(e) ==> e == PortalError::NotRegistered,
            r matches Ok(v) ==> v@ == records_of(self.user_policies@, user_address@),
    {
        if !self.get_user_registered(user_address) {
            return Err(PortalError::NotRegistered);
        }
        let mut r: Vec<UserPolicy> = Vec::new();
        let mut i: usize = 0;
        while i < self.user_policies.len()
            invariant
                i <= self.user_policies@.len(),
                r@ == records_of(self.user_policies@.take(i as int), user_address@),
            decreases self.user_policies@.len() - i,
        {
            assert(self.user_policies@.take(i + 1).drop_last() =~= self.user_policies@.take(i as int));
            if self.user_policies[i].user_address == *user_address {
                r.push(self.user_policies[i].clone());
            }
            i += 1;
        }
        assert(self.user_policies@.take(i as int) =~= self.user_policies@);
        Ok(r)
    }

    /// Token ids of the purchases of `user_address`, in order.
    pub fn get_user_tokens(&self, user_address: &String) -> (r: Vec<String>)
        requires
            self.wf(),
        ensures
            r@ == tokens_of_user(self.user_policies@, user_address@),
    {
        let mut r: Vec<String> = Vec::new();
        let mut i: usize = 0;
        while i < self.user_policies.len()
            invariant
                i <= self.user_policies@.len(),
                r@ == tokens_of_user(self.user_policies@.take(i as int), user_address@),
            decreases self.user_policies@.len() - i,
        {
            assert(self.user_policies@.take(i + 1).drop_last() =~= self.user_policies@.take(i as int));
            if self.user_policies[i].user_address == *user_address {
                r.push(self.user_policies[i].token_id.clone());
            }
            i += 1;
        }
        assert(self.user_policies@.take(i as int) =~= self.user_policies@);
        r
    }

    /// Token ids of the purchases of policy `policy_id`, in order.
    pub fn get_policy_tokens(&self, policy_id: u64) -> (r: Vec<String>)
        requires
            self.wf(),
        ensures
            r@ == tokens_of_policy(self.user_policies@, policy_id),
    {
        let mut r: Vec<String> = Vec::new();
        let mut i: usize = 0;
        while i < self.user_policies.len()
            invariant
                i <= self.user_policies@.len(),
                r@ == tokens_of_policy(self.user_policies@.take(i as int), policy_id),
            decreases self.user_policies@.len() - i,
        {
            assert(self.user_policies@.take(i + 1).drop_last() =~= self.user_policies@.take(i as int));
            if self.user_policies[i].policy_id == policy_id {
                r.push(self.user_policies[i].token_id.clone());
            }
            i += 1;
        }
        assert(self.user_policies@.take(i as int) =~= self.user_policies@);
        r
    }

    /// Metadata of the token with id `token_id`, if one was minted. Token
    /// ids are unique, so at most one purchase carries it.
    pub fn get_nft_metadata(&self, token_id: &String) -> (r: Option<PolicyNFTMetadata>)
        requires
            self.wf(),
        ensures
            forall|k: int|
                0 <= k < self.user_policies@.len() && #[trigger] self.user_policies@[k].token_id@
                    == token_id@ ==> r == Some(self.nft_metadata@[k]),
            (forall|k: int|
                0 <= k < self.user_policies@.len() ==> #[trigger] self.user_policies@[k].token_id@
                    != token_id@) ==> r is None,
    {
        let mut i: usize = 0;
        while i < self.user_policies.len()
            invariant
                self.wf(),
                i <= self.user_policies@.len(),
                forall|k: int| 0 <= k < i ==> #[trigger] self.user_policies@[k].token_id@ != token_id@,
            decreases self.user_policies@.len() - i,
        {
            if self.user_policies[i].token_id == *token_id {
                proof {
                    crate::laws::token_ids_are_unique(*self);
                }
                return Some(self.nft_metadata[i].clone());
            }
            i += 1;
        }
        None
    }

    /// The account of `user_address`, if any.
    pub fn get_user_info(&self, user_address: &String) -> (r: Option<User>)
        requires
            self.wf(),
        ensures
            r == if self.is_registered(user_address@) {
                Some(self.user_of(user_address@))
            } else {
                None
            },
    {
        match self.find_user(user_address) {
            None => None,
            Some(i) => Some(self.users[i].clone()),
        }
    }

    /// Number of tokens minted so far.
    pub fn get_total_tokens(&self) -> (r: u64)
        ensures
            r == self.token_counter,
    {
        self.token_counter
    }

    /// Sum of all premiums collected.
    pub fn get_treasury(&self) -> (r: i128)
        ensures
            r == self.treasury,
    {
        self.treasury
    }
}

} // verus!
