//! The ledger: every stored record of the marketplace and the operations
//! that create and change them.
//!
//! Records are held in the order of their creation. The per-account and
//! per-policy lists that a reader asks for (an account's purchases, tokens,
//! escrows and claims; a policy's tokens) are exactly the records of that
//! account or policy in creation order, so they are computed from these
//! sequences rather than stored twice.
use vstd::prelude::*;
use vstd::string::*;
use crate::rules::{
    covers_minimum, minimum_payment_spec, token_id_for, token_id_spec, total_payments_required,
    validity_end, validity_end_spec, DAYS_PER_PAYMENT, ESCROW_DURATION_SECONDS, ROLE_ADMIN,
    ROLE_POLICYHOLDER, ROLE_UNREGISTERED,
};
use crate::types::{
    OracleRequest, PaymentEscrow, Policy, PolicyClaim, PolicyNFTMetadata, PolicyParams, PortalError,
    PurchaseReceipt, Transfer, User, UserPolicy,
};

verus! {

/// The complete state of one deployment.
pub struct InsurancePortal {
    /// Address that bootstrapped the ledger; always an administrator.
    pub admin: String,
    /// Administrators in the order in which they were registered.
    pub admins: Vec<String>,
    /// Registered accounts, at most one per address.
    pub users: Vec<User>,
    /// The catalog: the policy with id `k` stands at index `k - 1`.
    pub policies: Vec<Policy>,
    /// Every purchase, in purchase order.
    pub user_policies: Vec<UserPolicy>,
    /// Token metadata of each purchase, at the purchase's index.
    pub nft_metadata: Vec<PolicyNFTMetadata>,
    /// The escrow with id `k` stands at index `k - 1`.
    pub escrows: Vec<PaymentEscrow>,
    /// The claim with id `k` stands at index `k - 1`.
    pub claims: Vec<PolicyClaim>,
    /// Verification requests, at most one per request id.
    pub oracle_requests: Vec<OracleRequest>,
    pub policy_counter: u64,
    pub token_counter: u64,
    pub escrow_counter: u64,
    pub claim_counter: u64,
    /// Sum of all premiums collected.
    pub treasury: i128,
}

/// Some account in `users` has address `a`.
pub open spec fn registered_in(users: Seq<User>, a: Seq<char>) -> bool {
    exists|i: int| 0 <= i < users.len() && #[trigger] users[i].wallet@ == a
}

/// Some account in `users` with address `a` is an administrator.
pub open spec fn admin_in(users: Seq<User>, a: Seq<char>) -> bool {
    exists|i: int| 0 <= i < users.len() && #[trigger] users[i].wallet@ == a && users[i].role == ROLE_ADMIN
}

/// The purchase `p` at index `k` names an account of `users` and one of
/// `n_policies` policies, is linked to the escrow at its own index, which
/// has the same owner and policy, and carries the identifier of token
/// number `k + 1`.
pub open spec fn record_linked(
    users: Seq<User>,
    n_policies: int,
    escrows: Seq<PaymentEscrow>,
    p: UserPolicy,
    k: int,
) -> bool {
    &&& registered_in(users, p.user_address@)
    &&& 1 <= p.policy_id <= n_policies
    &&& p.escrow_id == k + 1
    &&& escrows[k].user_address@ == p.user_address@
    &&& escrows[k].policy_id == p.policy_id
    &&& p.token_id@ == token_id_spec((k + 1) as nat)
}

/// Accounts are never lost when the list only grows.
pub proof fn lemma_users_grow(s: Seq<User>, t: Seq<User>)
    requires
        s.len() <= t.len(),
        forall|i: int| 0 <= i < s.len() ==> #[trigger] t[i] == s[i],
    ensures
        forall|a: Seq<char>| #[trigger] registered_in(s, a) ==> registered_in(t, a),
        forall|a: Seq<char>| #[trigger] admin_in(s, a) ==> admin_in(t, a),
{
    assert forall|a: Seq<char>| #[trigger] registered_in(s, a) implies registered_in(t, a) by {
        let k = choose|i: int| 0 <= i < s.len() && #[trigger] s[i].wallet@ == a;
        assert(t[k] == s[k]);
    }
    assert forall|a: Seq<char>| #[trigger] admin_in(s, a) implies admin_in(t, a) by {
        let k = choose|i: int| 0 <= i < s.len() && #[trigger] s[i].wallet@ == a && s[i].role == ROLE_ADMIN;
        assert(t[k] == s[k]);
    }
}

impl InsurancePortal {
    /// The invariant that every operation keeps.
    pub open spec fn wf(&self) -> bool {
        &&& forall|i: int, j: int|
            0 <= i < j < self.users@.len() ==> #[trigger] self.users@[i].wallet@
                != #[trigger] self.users@[j].wallet@
        &&& forall|i: int|
            0 <= i < self.policies@.len() ==> #[trigger] self.policies@[i].policy_id == i + 1
        &&& forall|i: int|
            0 <= i < self.claims@.len() ==> #[trigger] self.claims@[i].claim_id == i + 1
        &&& forall|i: int, j: int|
            0 <= i < j < self.oracle_requests@.len()
                ==> #[trigger] self.oracle_requests@[i].request_id@
                != #[trigger] self.oracle_requests@[j].request_id@
        &&& forall|k: int|
            0 <= k < self.user_policies@.len() ==> #[trigger] record_linked(
                self.users@,
                self.policies@.len() as int,
                self.escrows@,
                self.user_policies@[k],
                k,
            )
        &&& forall|k: int|
            0 <= k < self.claims@.len() ==> registered_in(
                self.users@,
                #[trigger] self.claims@[k].user_address@,
            ) && 1 <= self.claims@[k].policy_id <= self.policies@.len()
        &&& forall|i: int, j: int|
            0 <= i < j < self.admins@.len() ==> #[trigger] self.admins@[i]@ != #[trigger] self.admins@[j]@
        &&& forall|i: int|
            0 <= i < self.admins@.len() ==> admin_in(self.users@, #[trigger] self.admins@[i]@)
        &&& self.escrows@.len() == self.user_policies@.len()
        &&& self.policy_counter == self.policies@.len()
        &&& self.escrow_counter == self.escrows@.len()
        &&& self.claim_counter == self.claims@.len()
        &&& self.token_counter == self.user_policies@.len()
        &&& self.nft_metadata@.len() == self.user_policies@.len()
    }

    /// `a` has an account.
    pub open spec fn is_registered(&self, a: Seq<char>) -> bool {
        registered_in(self.users@, a)
    }

    /// The account of `a`, where there is one.
    pub open spec fn user_of(&self, a: Seq<char>) -> User {
        self.users@[choose|i: int| 0 <= i < self.users@.len() && #[trigger] self.users@[i].wallet@ == a]
    }

    /// Role of `a`: that of its account, or unregistered.
    pub open spec fn role_of(&self, a: Seq<char>) -> u32 {
        if self.is_registered(a) {
            self.user_of(a).role
        } else {
            ROLE_UNREGISTERED
        }
    }

    /// `a` is the bootstrap administrator or holds an administrator account.
    pub open spec fn is_admin_spec(&self, a: Seq<char>) -> bool {
        a == self.admin@ || self.role_of(a) == ROLE_ADMIN
    }

    /// There is a policy with id `id`.
    pub open spec fn has_policy(&self, id: u64) -> bool {
        1 <= id <= self.policies@.len()
    }

    /// The policy with id `id`, where there is one.
    pub open spec fn policy_spec(&self, id: u64) -> Policy {
        self.policies@[id - 1]
    }

    /// A new ledger bootstrapped by `admin` at time `now`: `admin` is the
    /// only account, an administrator, and nothing else exists yet.
    pub fn initialize(admin: String, now: u64) -> (r: Self)
        ensures
            r.wf(),
            r.admin == admin,
            r.admins@ == seq![admin],
            r.users@.len() == 1,
            r.users@[0].wallet == admin,
            r.users@[0].role == ROLE_ADMIN,
            r.users@[0].registered,
            r.users@[0].name@ == "Contract Admin"@,
            r.users@[0].location@.len() == 0,
            r.users@[0].contact@.len() == 0,
            r.users@[0].registered_at == now,
            r.policies@.len() == 0,
            r.user_policies@.len() == 0,
            r.escrows@.len() == 0,
            r.claims@.len() == 0,
            r.oracle_requests@.len() == 0,
            r.nft_metadata@.len() == 0,
            r.policy_counter == 0,
            r.token_counter == 0,
            r.escrow_counter == 0,
            r.claim_counter == 0,
            r.treasury == 0,
    {
        let mut admins: Vec<String> = Vec::new();
        admins.push(admin.clone());
        let mut users: Vec<User> = Vec::new();
        users.push(
            User {
                wallet: admin.clone(),
                role: ROLE_ADMIN,
                registered: true,
                name: String::from_str("Contract Admin"),
                location: String::new(),
                contact: String::new(),
                registered_at: now,
            },
        );
        assert(users@[0].wallet@ == admins@[0]@);
        assert(admin_in(users@, admins@[0]@));
        InsurancePortal {
            admin,
            admins,
            users,
            policies: Vec::new(),
            user_policies: Vec::new(),
            nft_metadata: Vec::new(),
            escrows: Vec::new(),
            claims: Vec::new(),
            oracle_requests: Vec::new(),
            policy_counter: 0,
            token_counter: 0,
            escrow_counter: 0,
            claim_counter: 0,
            treasury: 0,
        }
    }

    /// Under the invariant each account is the one found under its address.
    pub proof fn lemma_user_at(&self, i: int)
        requires
            self.wf(),
            0 <= i < self.users@.len(),
        ensures
            self.is_registered(self.users@[i].wallet@),
            self.user_of(self.users@[i].wallet@) == self.users@[i],
    {
        let a = self.users@[i].wallet@;
        assert(self.is_registered(a));
        let c = choose|j: int| 0 <= j < self.users@.len() && #[trigger] self.users@[j].wallet@ == a;
        if c < i {
            assert(self.users@[c].wallet@ != self.users@[i].wallet@);
        } else if c > i {
            assert(self.users@[i].wallet@ != self.users@[c].wallet@);
        }
    }

    /// Index of the account of `a`.
    pub(crate) fn find_user(&self, a: &String) -> (r: Option<usize>)
        requires
            self.wf(),
        ensures
            r is None <==> !self.is_registered(a@),
            r matches Some(i) ==> i < self.users@.len() && self.users@[i as int].wallet@ == a@
                && self.user_of(a@) == self.users@[i as int],
    {
        let mut i: usize = 0;
        while i < self.users.len()
            invariant
                self.wf(),
                i <= self.users@.len(),
                forall|k: int| 0 <= k < i ==> #[trigger] self.users@[k].wallet@ != a@,
            decreases self.users@.len() - i,
        {
            if self.users[i].wallet == *a {
                let ghost c = choose|j: int|
                    0 <= j < self.users@.len() && #[trigger] self.users@[j].wallet@ == a@;
                assert(self.users@[c].wallet@ == a@);
                assert(c == i) by {
                    if c < i as int {
                    } else if c > i as int {
                        assert(self.users@[i as int].wallet@ != self.users@[c].wallet@);
                    }
                }
                return Some(i);
            }
            i += 1;
        }
        None
    }

    /// Whether `user` has an account.
    pub fn get_user_registered(&self, user_address: &String) -> (r: bool)
        requires
            self.wf(),
        ensures
            r == self.is_registered(user_address@),
    {
        self.find_user(user_address).is_some()
    }

    /// Role of `user`; unregistered where it has no account.
    pub fn get_user_role(&self, user_address: &String) -> (r: u32)
        requires
            self.wf(),
        ensures
            r == self.role_of(user_address@),
    {
        match self.find_user(user_address) {
            Some(i) => self.users[i].role,
            None => ROLE_UNREGISTERED,
        }
    }

    /// Whether `user` is the bootstrap administrator or an administrator
    /// account.
    pub fn is_admin(&self, user: &String) -> (r: bool)
        requires
            self.wf(),
        ensures
            r == self.is_admin_spec(user@),
    {
        if *user == self.admin {
            return true;
        }
        self.get_user_role(user) == ROLE_ADMIN
    }

    /// Whether `user` is an administrator, without any authentication.
    pub fn check_admin_status(&self, user: &String) -> (r: bool)
        requires
            self.wf(),
        ensures
            r == self.is_admin_spec(user@),
    {
        self.is_admin(user)
    }

    /// Whether `admin` would pass the administrator check of
    /// `create_policy`; creates nothing.
    pub fn test_create_policy_no_auth(&self, admin: &String, params: &PolicyParams) -> (r: bool)
        requires
            self.wf(),
        ensures
            r == self.is_admin_spec(admin@),
    {
        self.is_admin(admin)
    }

    /// Outcome of `register_user`: which refusal comes, if any.
    pub open spec fn register_error(&self, user: Seq<char>, role: u32) -> Option<PortalError> {
        if role != ROLE_POLICYHOLDER && role != ROLE_ADMIN {
            Some(PortalError::InvalidRole)
        } else if self.is_registered(user) {
            Some(PortalError::AlreadyRegistered)
        } else {
            None
        }
    }

    /// What `register_user` guarantees of the ledger before (`s`) and
    /// after (`t`) the call.
    pub open spec fn register_post(
        s: Self,
        t: Self,
        user: Seq<char>,
        role: u32,
        now: u64,
        r: Result<(), PortalError>,
    ) -> bool {
        &&& t.wf()
        &&& r is Err <==> s.register_error(user, role) is Some
        &&& r matches Err(e) ==> s.register_error(user, role) == Some(e) && t == s
        &&& r is Ok ==> {
            &&& t.users@.len() == s.users@.len() + 1
            &&& t.users@.drop_last() == s.users@
            &&& t.users@.last().wallet@ == user
            &&& t.users@.last().role == role
            &&& t.users@.last().registered
            &&& t.users@.last().name@.len() == 0
            &&& t.users@.last().location@.len() == 0
            &&& t.users@.last().contact@.len() == 0
            &&& t.users@.last().registered_at == now
            &&& if role == ROLE_ADMIN {
                t.admins@.len() == s.admins@.len() + 1 && t.admins@.drop_last() == s.admins@
                    && t.admins@.last()@ == user
            } else {
                t.admins == s.admins
            }
            &&& t.admin == s.admin
            &&& t.policies == s.policies
            &&& t.user_policies == s.user_policies
            &&& t.nft_metadata == s.nft_metadata
            &&& t.escrows == s.escrows
            &&& t.claims == s.claims
            &&& t.oracle_requests == s.oracle_requests
            &&& t.policy_counter == s.policy_counter
            &&& t.token_counter == s.token_counter
            &&& t.escrow_counter == s.escrow_counter
            &&& t.claim_counter == s.claim_counter
            &&& t.treasury == s.treasury
        }
    }

    /// Registers `user` with `role` (policyholder or administrator) at time
    /// `now`, with empty profile fields. An administrator is also added to
    /// the list of administrators.
    pub fn register_user(&mut self, user: String, role: u32, now: u64) -> (r: Result<(), PortalError>)
        requires
            old(self).wf(),
        ensures
            Self::register_post(*old(self), *final(self), user@, role, now, r),
    {
        if role != ROLE_POLICYHOLDER && role != ROLE_ADMIN {
            return Err(PortalError::InvalidRole);
        }
        if self.find_user(&user).is_some() {
            return Err(PortalError::AlreadyRegistered);
        }
        if role == ROLE_ADMIN {
            self.admins.push(user.clone());
            assert(self.admins@.drop_last() =~= old(self).admins@);
        }
        let ghost before = self.users@;
        self.users.push(
            User {
                wallet: user,
                role,
                registered: true,
                name: String::new(),
                location: String::new(),
                contact: String::new(),
                registered_at: now,
            },
        );
        assert(self.users@.drop_last() =~= before);
        proof {
            lemma_users_grow(before, self.users@);
        }
        assert forall|k: int| 0 <= k < self.user_policies@.len() implies #[trigger] record_linked(
            self.users@,
            self.policies@.len() as int,
            self.escrows@,
            self.user_policies@[k],
            k,
        ) by {
            assert(record_linked(before, self.policies@.len() as int, self.escrows@, self.user_policies@[k], k));
        }
        assert forall|i: int| 0 <= i < self.admins@.len() implies admin_in(self.users@, #[trigger] self.admins@[i]@) by {
            if i < old(self).admins@.len() {
                assert(self.admins@[i] == old(self).admins@[i]);
                assert(admin_in(before, old(self).admins@[i]@));
            } else {
                assert(self.users@[before.len() as int].wallet@ == self.admins@[i]@);
            }
        }
        assert forall|i: int, j: int| 0 <= i < j < self.admins@.len() implies #[trigger] self.admins@[i]@ != #[trigger] self.admins@[j]@ by {
            if j >= old(self).admins@.len() {
                assert(self.admins@[i] == old(self).admins@[i]);
                assert(admin_in(before, old(self).admins@[i]@));
                assert(registered_in(before, old(self).admins@[i]@));
            } else {
                assert(self.admins@[i] == old(self).admins@[i]);
                assert(self.admins@[j] == old(self).admins@[j]);
            }
        }
        assert forall|i: int, j: int|
            0 <= i < j < self.users@.len() implies #[trigger] self.users@[i].wallet@
            != #[trigger] self.users@[j].wallet@ by {
            if j == before.len() {
                assert(self.users@[i] == before[i]);
            } else {
                assert(self.users@[i] == before[i] && self.users@[j] == before[j]);
            }
        }
        Ok(())
    }
}

impl InsurancePortal {
    /// Outcome of `create_policy`: which refusal comes, if any.
    pub open spec fn create_policy_error(&self, admin: Seq<char>) -> Option<PortalError> {
        if !self.is_admin_spec(admin) {
            Some(PortalError::NotAdmin)
        } else if self.policy_counter == u64::MAX {
            Some(PortalError::Overflow)
        } else {
            None
        }
    }

    /// What `create_policy` guarantees of the ledger before (`s`) and
    /// after (`t`) the call.
    pub open spec fn create_policy_post(
        s: Self,
        t: Self,
        admin: String,
        params: PolicyParams,
        now: u64,
        r: Result<u64, PortalError>,
    ) -> bool {
        &&& t.wf()
        &&& r is Err <==> s.create_policy_error(admin@) is Some
        &&& r matches Err(e) ==> s.create_policy_error(admin@) == Some(e) && t == s
        &&& r matches Ok(id) ==> {
            &&& id == s.policy_counter + 1
            &&& t.policy_counter == id
            &&& t.policies@ == s.policies@.push(
                Policy {
                    policy_id: id,
                    title: params.title,
                    description: params.description,
                    policy_type: params.policy_type,
                    monthly_premium: params.monthly_premium,
                    yearly_premium: params.yearly_premium,
                    coverage_amount: params.coverage_amount,
                    min_age: params.min_age,
                    max_age: params.max_age,
                    duration_days: params.duration_days,
                    waiting_period_days: params.waiting_period_days,
                    created_at: now,
                    created_by: admin,
                },
            )
            &&& t == InsurancePortal { policies: t.policies, policy_counter: t.policy_counter, ..s }
        }
    }

    /// Adds a policy to the catalog on behalf of administrator `admin`,
    /// copying `params` and stamping it with the next id, `now` and
    /// `admin`. Returns the new id.
    pub fn create_policy(&mut self, admin: String, params: PolicyParams, now: u64) -> (r: Result<
        u64,
        PortalError,
    >)
        requires
            old(self).wf(),
        ensures
            Self::create_policy_post(*old(self), *final(self), admin, params, now, r),
    {
        if !self.is_admin(&admin) {
            return Err(PortalError::NotAdmin);
        }
        if self.policy_counter == u64::MAX {
            return Err(PortalError::Overflow);
        }
        let id = self.policy_counter + 1;
        self.policy_counter = id;
        self.policies.push(
            Policy {
                policy_id: id,
                title: params.title,
                description: params.description,
                policy_type: params.policy_type,
                monthly_premium: params.monthly_premium,
                yearly_premium: params.yearly_premium,
                coverage_amount: params.coverage_amount,
                min_age: params.min_age,
                max_age: params.max_age,
                duration_days: params.duration_days,
                waiting_period_days: params.waiting_period_days,
                created_at: now,
                created_by: admin,
            },
        );
        assert forall|k: int| 0 <= k < self.user_policies@.len() implies #[trigger] record_linked(
            self.users@,
            self.policies@.len() as int,
            self.escrows@,
            self.user_policies@[k],
            k,
        ) by {
            assert(record_linked(self.users@, old(self).policies@.len() as int, self.escrows@, self.user_policies@[k], k));
        }
        Ok(id)
    }

    /// Everything that a purchase adds fits its integer type.
    pub open spec fn purchase_fits(&self, policy_id: u64, payment: i128, now: u64) -> bool {
        &&& i128::MIN <= self.treasury + payment <= i128::MAX
        &&& self.escrow_counter < u64::MAX
        &&& self.token_counter < u64::MAX
        &&& now + ESCROW_DURATION_SECONDS <= u64::MAX
        &&& validity_end_spec(now, self.policy_spec(policy_id).duration_days) <= u64::MAX
    }

    /// Outcome of `purchase_policy`: which refusal comes, if any.
    pub open spec fn purchase_error(&self, user: Seq<char>, policy_id: u64, payment: i128, now: u64) -> Option<
        PortalError,
    > {
        if !self.is_registered(user) {
            Some(PortalError::NotRegistered)
        } else if self.role_of(user) != ROLE_POLICYHOLDER {
            Some(PortalError::NotPolicyholder)
        } else if !self.has_policy(policy_id) {
            Some(PortalError::PolicyNotFound)
        } else if payment < minimum_payment_spec(self.policy_spec(policy_id).monthly_premium) {
            Some(PortalError::InsufficientPayment)
        } else if !self.purchase_fits(policy_id, payment, now) {
            Some(PortalError::Overflow)
        } else {
            None
        }
    }

    /// What `purchase_policy` guarantees of the ledger before (`s`) and
    /// after (`t`) the call.
    pub open spec fn purchase_post(
        s: Self,
        t: Self,
        user: String,
        policy_id: u64,
        metadata_uri: String,
        payment: i128,
        holder_name: String,
        holder_age: u64,
        holder_gender: String,
        holder_blood_group: String,
        now: u64,
        r: Result<PurchaseReceipt, PortalError>,
    ) -> bool {
        let policy = s.policy_spec(policy_id);
        let expiry = validity_end_spec(now, policy.duration_days) as u64;
        &&& t.wf()
        &&& r is Err <==> s.purchase_error(user@, policy_id, payment, now) is Some
        &&& r matches Err(e) ==> s.purchase_error(user@, policy_id, payment, now) == Some(e) && t == s
        &&& r matches Ok(receipt) ==> {
            &&& receipt.payment == Transfer { into_custody: true, account: user, amount: payment }
            &&& receipt.escrow_id == s.escrow_counter + 1
            &&& receipt.token_id@ == token_id_spec(t.token_counter as nat)
            &&& t.treasury == s.treasury + payment
            &&& t.escrow_counter == receipt.escrow_id
            &&& t.token_counter == s.token_counter + 1
            &&& t.escrows@ == s.escrows@.push(
                PaymentEscrow {
                    user_address: user,
                    policy_id,
                    monthly_premium_xlm: payment,
                    next_payment_due: (now + ESCROW_DURATION_SECONDS) as u64,
                    payments_made: 1,
                    total_payments_required: policy.duration_days / DAYS_PER_PAYMENT,
                    escrow_balance: 0,
                    active: true,
                },
            )
            &&& t.user_policies@ == s.user_policies@.push(
                UserPolicy {
                    policy_id,
                    user_address: user,
                    purchase_date: now,
                    expiry_date: expiry,
                    premium_paid_xlm: payment,
                    monthly_premium_xlm: payment,
                    active: true,
                    token_id: receipt.token_id,
                    metadata_uri,
                    escrow_id: receipt.escrow_id,
                    holder_name,
                    holder_age,
                    holder_gender,
                    holder_blood_group,
                },
            )
            &&& t.nft_metadata@.len() == s.nft_metadata@.len() + 1
            &&& t.nft_metadata@.drop_last() == s.nft_metadata@
            &&& t.nft_metadata@.last().name@ == "Policy NFT"@
            &&& t.nft_metadata@.last() == PolicyNFTMetadata {
                name: t.nft_metadata@.last().name,
                description: policy.description,
                image_uri: metadata_uri,
                coverage_amount: policy.coverage_amount,
                validity_start: now,
                validity_end: expiry,
                premium_amount: policy.yearly_premium,
                policy_type: policy.policy_type,
                holder_name,
                holder_age,
                holder_gender,
                holder_blood_group,
            }
            &&& t == InsurancePortal {
                treasury: t.treasury,
                escrow_counter: t.escrow_counter,
                token_counter: t.token_counter,
                escrows: t.escrows,
                user_policies: t.user_policies,
                nft_metadata: t.nft_metadata,
                ..s
            }
        }
    }

    /// Buys policy `policy_id` for policyholder `user` at time `now`,
    /// paying `payment_amount_xlm`, which must cover the policy's monthly
    /// premium converted into the payment asset. Credits the treasury,
    /// opens an escrow, mints the next token (`POLICY_` and its number) with its metadata and records the
    /// purchase. The receipt holds the payment that the host must move
    /// from `user` into custody; if that transfer fails, the purchase must
    /// be discarded whole.
    pub fn purchase_policy(
        &mut self,
        user: String,
        policy_id: u64,
        metadata_uri: String,
        payment_amount_xlm: i128,
        holder_name: String,
        holder_age: u64,
        holder_gender: String,
        holder_blood_group: String,
        now: u64,
    ) -> (r: Result<PurchaseReceipt, PortalError>)
        requires
            old(self).wf(),
        ensures
            Self::purchase_post(
                *old(self),
                *final(self),
                user,
                policy_id,
                metadata_uri,
                payment_amount_xlm,
                holder_name,
                holder_age,
                holder_gender,
                holder_blood_group,
                now,
                r,
            ),
    {
        match self.find_user(&user) {
            None => return Err(PortalError::NotRegistered),
            Some(i) => {
                if self.users[i].role != ROLE_POLICYHOLDER {
                    return Err(PortalError::NotPolicyholder);
                }
            },
        }
        if policy_id == 0 || policy_id > self.policy_counter {
            return Err(PortalError::PolicyNotFound);
        }
        assert(policy_id - 1 < self.policies.len());
        let pidx = (policy_id - 1) as usize;
        if !covers_minimum(self.policies[pidx].monthly_premium, payment_amount_xlm) {
            return Err(PortalError::InsufficientPayment);
        }
        let treasury = match self.treasury.checked_add(payment_amount_xlm) {
            None => return Err(PortalError::Overflow),
            Some(v) => v,
        };
        if self.escrow_counter == u64::MAX || self.token_counter == u64::MAX {
            return Err(PortalError::Overflow);
        }
        let next_payment_due = match now.checked_add(ESCROW_DURATION_SECONDS) {
            None => return Err(PortalError::Overflow),
            Some(v) => v,
        };
        let duration_days = self.policies[pidx].duration_days;
        let expiry_time = match validity_end(now, duration_days) {
            None => return Err(PortalError::Overflow),
            Some(v) => v,
        };
        let escrow_id = self.escrow_counter + 1;
        let token_id = token_id_for(self.token_counter + 1);
        let escrow = PaymentEscrow {
            user_address: user.clone(),
            policy_id,
            monthly_premium_xlm: payment_amount_xlm,
            next_payment_due,
            payments_made: 1,
            total_payments_required: total_payments_required(duration_days),
            escrow_balance: 0,
            active: true,
        };
        let metadata = PolicyNFTMetadata {
            name: String::from_str("Policy NFT"),
            description: self.policies[pidx].description.clone(),
            image_uri: metadata_uri.clone(),
            coverage_amount: self.policies[pidx].coverage_amount,
            validity_start: now,
            validity_end: expiry_time,
            premium_amount: self.policies[pidx].yearly_premium,
            policy_type: self.policies[pidx].policy_type,
            holder_name: holder_name.clone(),
            holder_age,
            holder_gender: holder_gender.clone(),
            holder_blood_group: holder_blood_group.clone(),
        };
        let record = UserPolicy {
            policy_id,
            user_address: user.clone(),
            purchase_date: now,
            expiry_date: expiry_time,
            premium_paid_xlm: payment_amount_xlm,
            monthly_premium_xlm: payment_amount_xlm,
            active: true,
            token_id: token_id.clone(),
            metadata_uri,
            escrow_id,
            holder_name,
            holder_age,
            holder_gender,
            holder_blood_group,
        };
        self.treasury = treasury;
        self.escrow_counter = escrow_id;
        self.escrows.push(escrow);
        self.token_counter = self.token_counter + 1;
        self.nft_metadata.push(metadata);
        self.user_policies.push(record);
        assert(self.nft_metadata@.drop_last() =~= old(self).nft_metadata@);
        assert forall|k: int| 0 <= k < self.user_policies@.len() implies #[trigger] record_linked(
            self.users@,
            self.policies@.len() as int,
            self.escrows@,
            self.user_policies@[k],
            k,
        ) by {
            if k < old(self).user_policies@.len() {
                assert(record_linked(self.users@, self.policies@.len() as int, old(self).escrows@, old(self).user_policies@[k], k));
                assert(self.user_policies@[k] == old(self).user_policies@[k]);
                assert(self.escrows@[k] == old(self).escrows@[k]);
            }
        }
        Ok(
            PurchaseReceipt {
                escrow_id,
                token_id,
                payment: Transfer { into_custody: true, account: user, amount: payment_amount_xlm },
            },
        )
    }
}

} // verus!
