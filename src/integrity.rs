//! Executable test of the ledger's invariant, for ledgers that come from
//! outside the library (read back from storage).
use vstd::prelude::*;
use crate::portal::{admin_in, record_linked, registered_in, InsurancePortal};
use crate::rules::{token_id_for, ROLE_ADMIN};
use crate::types::User;

verus! {

/// Whether some account in `users` has address `a`.
fn has_account(users: &Vec<User>, a: &String) -> (r: bool)
    ensures
        r == registered_in(users@, a@),
{
    let mut i: usize = 0;
    while i < users.len()
        invariant
            i <= users@.len(),
            forall|k: int| 0 <= k < i ==> #[trigger] users@[k].wallet@ != a@,
        decreases users@.len() - i,
    {
        if users[i].wallet == *a {
            return true;
        }
        i += 1;
    }
    false
}

/// Whether some administrator account in `users` has address `a`.
fn has_admin(users: &Vec<User>, a: &String) -> (r: bool)
    ensures
        r == admin_in(users@, a@),
{
    let mut i: usize = 0;
    while i < users.len()
        invariant
            i <= users@.len(),
            forall|k: int| 0 <= k < i ==> !(#[trigger] users@[k].wallet@ == a@ && users@[k].role == ROLE_ADMIN),
        decreases users@.len() - i,
    {
        if users[i].role == ROLE_ADMIN && users[i].wallet == *a {
            return true;
        }
        i += 1;
    }
    false
}

/// Whether the strings of `keys` are pairwise different.
fn distinct(keys: &Vec<String>) -> (r: bool)
    ensures
        r == forall|i: int, j: int| 0 <= i < j < keys@.len() ==> #[trigger] keys@[i]@ != #[trigger] keys@[j]@,
{
    let mut i: usize = 0;
    while i < keys.len()
        invariant
            i <= keys@.len(),
            forall|a: int, b: int| 0 <= a < i && a < b < keys@.len() ==> #[trigger] keys@[a]@ != #[trigger] keys@[b]@,
        decreases keys@.len() - i,
    {
        let mut j: usize = i + 1;
        while j < keys.len()
            invariant
                i < keys@.len(),
                i + 1 <= j <= keys@.len(),
                forall|a: int, b: int| 0 <= a < i && a < b < keys@.len() ==> #[trigger] keys@[a]@ != #[trigger] keys@[b]@,
                forall|b: int| i < b < j ==> keys@[i as int]@ != #[trigger] keys@[b]@,
            decreases keys@.len() - j,
        {
            if keys[i] == keys[j] {
                return false;
            }
            j += 1;
        }
        i += 1;
    }
    true
}

impl InsurancePortal {
    /// Whether the ledger satisfies its invariant.
    pub fn is_well_formed(&self) -> (r: bool)
        ensures
            r == self.wf(),
    {
        if self.policies.len() as u64 != self.policy_counter
            || self.escrows.len() as u64 != self.escrow_counter
            || self.claims.len() as u64 != self.claim_counter
            || self.user_policies.len() as u64 != self.token_counter
            || self.nft_metadata.len() != self.user_policies.len()
            || self.escrows.len() != self.user_policies.len() {
            return false;
        }
        let mut wallets: Vec<String> = Vec::new();
        let mut i: usize = 0;
        while i < self.users.len()
            invariant
                i <= self.users@.len(),
                wallets@.len() == i,
                forall|k: int| 0 <= k < i ==> #[trigger] wallets@[k] == self.users@[k].wallet,
            decreases self.users@.len() - i,
        {
            wallets.push(self.users[i].wallet.clone());
            i += 1;
        }
        if !distinct(&wallets) {
            assert(exists|a: int, b: int| 0 <= a < b < wallets@.len() && #[trigger] wallets@[a]@ == #[trigger] wallets@[b]@);
            return false;
        }
        assert forall|a: int, b: int| 0 <= a < b < self.users@.len() implies #[trigger] self.users@[a].wallet@
            != #[trigger] self.users@[b].wallet@ by {
            assert(wallets@[a] == self.users@[a].wallet && wallets@[b] == self.users@[b].wallet);
        }
        let mut ids: Vec<String> = Vec::new();
        let mut i: usize = 0;
        while i < self.oracle_requests.len()
            invariant
                i <= self.oracle_requests@.len(),
                ids@.len() == i,
                forall|k: int| 0 <= k < i ==> #[trigger] ids@[k] == self.oracle_requests@[k].request_id,
            decreases self.oracle_requests@.len() - i,
        {
            ids.push(self.oracle_requests[i].request_id.clone());
            i += 1;
        }
        if !distinct(&ids) {
            assert(exists|a: int, b: int| 0 <= a < b < ids@.len() && #[trigger] ids@[a]@ == #[trigger] ids@[b]@);
            return false;
        }
        assert forall|a: int, b: int| 0 <= a < b < self.oracle_requests@.len() implies #[trigger] self.oracle_requests@[a].request_id@
            != #[trigger] self.oracle_requests@[b].request_id@ by {
            assert(ids@[a] == self.oracle_requests@[a].request_id && ids@[b] == self.oracle_requests@[b].request_id);
        }
        if !distinct(&self.admins) {
            return false;
        }
        let mut i: usize = 0;
        while i < self.admins.len()
            invariant
                i <= self.admins@.len(),
                forall|k: int| 0 <= k < i ==> admin_in(self.users@, #[trigger] self.admins@[k]@),
            decreases self.admins@.len() - i,
        {
            if !has_admin(&self.users, &self.admins[i]) {
                return false;
            }
            i += 1;
        }
        let mut i: usize = 0;
        while i < self.policies.len()
            invariant
                i <= self.policies@.len(),
                forall|k: int| 0 <= k < i ==> #[trigger] self.policies@[k].policy_id == k + 1,
            decreases self.policies@.len() - i,
        {
            if self.policies[i].policy_id != i as u64 + 1 {
                return false;
            }
            i += 1;
        }
        let mut i: usize = 0;
        while i < self.claims.len()
            invariant
                self.claims@.len() == self.claim_counter,
                self.policies@.len() == self.policy_counter,
                i <= self.claims@.len(),
                forall|k: int| 0 <= k < i ==> #[trigger] self.claims@[k].claim_id == k + 1,
                forall|k: int|
                    0 <= k < i ==> registered_in(self.users@, #[trigger] self.claims@[k].user_address@)
                        && 1 <= self.claims@[k].policy_id <= self.policies@.len(),
            decreases self.claims@.len() - i,
        {
            let c = &self.claims[i];
            if c.claim_id != i as u64 + 1 {
                return false;
            }
            if !has_account(&self.users, &c.user_address) || c.policy_id < 1
                || c.policy_id > self.policy_counter {
                assert(!(registered_in(self.users@, self.claims@[i as int].user_address@)
                    && 1 <= self.claims@[i as int].policy_id <= self.policies@.len()));
                return false;
            }
            assert(registered_in(self.users@, self.claims@[i as int].user_address@));
            assert(1 <= self.claims@[i as int].policy_id <= self.policies@.len());
            assert forall|k: int| 0 <= k < i + 1 implies registered_in(self.users@, #[trigger] self.claims@[k].user_address@)
                && 1 <= self.claims@[k].policy_id <= self.policies@.len() by {
                if k < i {
                    assert(registered_in(self.users@, self.claims@[k].user_address@));
                }
            }
            i += 1;
        }
        let mut i: usize = 0;
        while i < self.user_policies.len()
            invariant
                self.user_policies@.len() == self.token_counter,
                self.escrows@.len() == self.user_policies@.len(),
                self.policies@.len() == self.policy_counter,
                i <= self.user_policies@.len(),
                forall|k: int|
                    0 <= k < i ==> #[trigger] record_linked(
                        self.users@,
                        self.policies@.len() as int,
                        self.escrows@,
                        self.user_policies@[k],
                        k,
                    ),
            decreases self.user_policies@.len() - i,
        {
            let p = &self.user_policies[i];
            let e = &self.escrows[i];
            let linked = has_account(&self.users, &p.user_address) && p.policy_id >= 1
                && p.policy_id <= self.policy_counter && p.escrow_id == i as u64 + 1
                && e.user_address == p.user_address && e.policy_id == p.policy_id
                && p.token_id == token_id_for(i as u64 + 1);
            assert(linked == record_linked(
                self.users@,
                self.policies@.len() as int,
                self.escrows@,
                self.user_policies@[i as int],
                i as int,
            ));
            if !linked {
                return false;
            }
            i += 1;
        }
        true
    }
}

} // verus!
