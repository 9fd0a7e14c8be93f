//! Properties that hold across operations, proved from the operations'
//! own contracts.
use vstd::prelude::*;
use crate::portal::{registered_in, record_linked, InsurancePortal};
use crate::queries::{claims_of, records_of, tokens_of_policy, tokens_of_user};
use crate::rules::{
    lemma_token_id_injective,
    minimum_payment_spec, status_for_score, CLAIM_STATUS_APPROVED,
    CLAIM_STATUS_PENDING, CLAIM_STATUS_REJECTED, ROLE_POLICYHOLDER,
};
use crate::types::{
    ClaimReceipt, PolicyClaim, PolicyParams, PortalError, PurchaseReceipt, Transfer, UserPolicy,
};

verus! {

/// A registration, accepted or not, leaves no two accounts with one
/// address, leaves the role of every existing account as it was, and an
/// accepted one gives the new account exactly the role supplied.
pub proof fn registration_keeps_roles(
    s: InsurancePortal,
    t: InsurancePortal,
    user: Seq<char>,
    role: u32,
    now: u64,
    r: Result<(), PortalError>,
)
    requires
        s.wf(),
        InsurancePortal::register_post(s, t, user, role, now, r),
    ensures
        forall|i: int, j: int|
            0 <= i < j < t.users@.len() ==> #[trigger] t.users@[i].wallet@
                != #[trigger] t.users@[j].wallet@,
        forall|a: Seq<char>| #[trigger] s.is_registered(a) ==> t.role_of(a) == s.role_of(a),
        r is Ok ==> !s.is_registered(user) && t.role_of(user) == role,
{
    assert forall|a: Seq<char>| #[trigger] s.is_registered(a) implies t.role_of(a) == s.role_of(a) by {
        let k = choose|j: int| 0 <= j < s.users@.len() && #[trigger] s.users@[j].wallet@ == a;
        s.lemma_user_at(k);
        if r is Ok {
            assert(t.users@[k] == s.users@[k]);
            t.lemma_user_at(k);
        }
    }
    if r is Ok {
        t.lemma_user_at(t.users@.len() - 1);
    }
}

/// Across any run of operations. Every operation keeps the invariant, and
/// leaves the accounts as they were or appends one. So whenever a later
/// ledger `t` keeps the accounts of an earlier ledger `s` in their places,
/// every address registered in `s` has in `t` the role it had in `s`.
pub proof fn roles_survive_later_operations(s: InsurancePortal, t: InsurancePortal)
    requires
        s.wf(),
        t.wf(),
        s.users@.len() <= t.users@.len(),
        forall|i: int| 0 <= i < s.users@.len() ==> #[trigger] t.users@[i] == s.users@[i],
    ensures
        forall|a: Seq<char>| #[trigger] s.is_registered(a) ==> t.is_registered(a) && t.role_of(a) == s.role_of(a),
{
    assert forall|a: Seq<char>| #[trigger] s.is_registered(a) implies t.is_registered(a) && t.role_of(a)
        == s.role_of(a) by {
        let k = choose|j: int| 0 <= j < s.users@.len() && #[trigger] s.users@[j].wallet@ == a;
        s.lemma_user_at(k);
        assert(t.users@[k] == s.users@[k]);
        t.lemma_user_at(k);
    }
}

/// Every catalog holds the ids 1, 2, ... in order; an accepted creation
/// returns the next id and appends the policy under it; a caller that is
/// not an administrator is refused with `NotAdmin` and nothing changes.
pub proof fn policy_ids_are_sequential(
    s: InsurancePortal,
    t: InsurancePortal,
    admin: String,
    params: PolicyParams,
    now: u64,
    r: Result<u64, PortalError>,
)
    requires
        s.wf(),
        InsurancePortal::create_policy_post(s, t, admin, params, now, r),
    ensures
        forall|i: int| 0 <= i < t.policies@.len() ==> #[trigger] t.policies@[i].policy_id == i + 1,
        r matches Ok(id) ==> id == s.policies@.len() + 1 && t.policies@.len() == id
            && t.policies@.last().policy_id == id,
        !s.is_admin_spec(admin@) ==> r == Err::<u64, PortalError>(PortalError::NotAdmin) && t == s,
{
}

/// Two accepted creations in a row return consecutive ids.
pub proof fn consecutive_policies_get_consecutive_ids(
    s: InsurancePortal,
    t: InsurancePortal,
    u: InsurancePortal,
    admin1: String,
    params1: PolicyParams,
    now1: u64,
    r1: Result<u64, PortalError>,
    admin2: String,
    params2: PolicyParams,
    now2: u64,
    r2: Result<u64, PortalError>,
)
    requires
        s.wf(),
        InsurancePortal::create_policy_post(s, t, admin1, params1, now1, r1),
        InsurancePortal::create_policy_post(t, u, admin2, params2, now2, r2),
        r1 is Ok,
        r2 is Ok,
    ensures
        r2->Ok_0 == r1->Ok_0 + 1,
{
}

/// A policyholder's purchase of an existing policy that pays less than the
/// policy's minimum payment is refused with `InsufficientPayment` and
/// creates nothing: no escrow, no purchase record, no token.
pub proof fn underpayment_is_refused(
    s: InsurancePortal,
    t: InsurancePortal,
    user: String,
    policy_id: u64,
    metadata_uri: String,
    payment: i128,
    holder_name: String,
    holder_age: u64,
    holder_gender: String,
    holder_blood_group: String,
    now: u64,
    r: Result<PurchaseReceipt, PortalError>,
)
    requires
        s.wf(),
        InsurancePortal::purchase_post(
            s,
            t,
            user,
            policy_id,
            metadata_uri,
            payment,
            holder_name,
            holder_age,
            holder_gender,
            holder_blood_group,
            now,
            r,
        ),
        s.role_of(user@) == ROLE_POLICYHOLDER,
        s.has_policy(policy_id),
        payment < minimum_payment_spec(s.policy_spec(policy_id).monthly_premium),
    ensures
        r == Err::<PurchaseReceipt, PortalError>(PortalError::InsufficientPayment),
        t.escrows == s.escrows,
        t.user_policies == s.user_policies,
        t.nft_metadata == s.nft_metadata,
        t.token_counter == s.token_counter,
        t.treasury == s.treasury,
{
}

/// An accepted purchase credits the treasury with exactly the amount paid.
pub proof fn purchase_credits_treasury(
    s: InsurancePortal,
    t: InsurancePortal,
    user: String,
    policy_id: u64,
    metadata_uri: String,
    payment: i128,
    holder_name: String,
    holder_age: u64,
    holder_gender: String,
    holder_blood_group: String,
    now: u64,
    r: Result<PurchaseReceipt, PortalError>,
)
    requires
        s.wf(),
        InsurancePortal::purchase_post(
            s,
            t,
            user,
            policy_id,
            metadata_uri,
            payment,
            holder_name,
            holder_age,
            holder_gender,
            holder_blood_group,
            now,
            r,
        ),
        r is Ok,
    ensures
        t.treasury == s.treasury + payment,
        payment >= minimum_payment_spec(s.policy_spec(policy_id).monthly_premium),
{
}

/// Adjudication by bands of the risk score: 0 to 30 approved, 31 to 70
/// pending, above 70 rejected.
pub proof fn adjudication_bands(score: u32)
    ensures
        score <= 30 ==> status_for_score(score) == CLAIM_STATUS_APPROVED,
        31 <= score <= 70 ==> status_for_score(score) == CLAIM_STATUS_PENDING,
        71 <= score ==> status_for_score(score) == CLAIM_STATUS_REJECTED,
{
}

/// An accepted claim is stored with the status of its score's band: at
/// most 30 approved and paid out, 31 to 70 pending, above 70 rejected;
/// only an approved claim carries a payout.
pub proof fn accepted_claim_follows_bands(
    s: InsurancePortal,
    t: InsurancePortal,
    user: String,
    policy_id: u64,
    score: u32,
    abha: String,
    cid: String,
    request: String,
    description: String,
    hospital: String,
    now: u64,
    r: Result<ClaimReceipt, PortalError>,
)
    requires
        s.wf(),
        InsurancePortal::claim_post(
            s,
            t,
            user,
            policy_id,
            score,
            abha,
            cid,
            request,
            description,
            hospital,
            now,
            r,
        ),
        r is Ok,
    ensures
        score <= 30 ==> t.claims@.last().status == CLAIM_STATUS_APPROVED && r->Ok_0.payout is Some,
        31 <= score <= 70 ==> t.claims@.last().status == CLAIM_STATUS_PENDING && r->Ok_0.payout is None,
        71 <= score ==> t.claims@.last().status == CLAIM_STATUS_REJECTED && r->Ok_0.payout is None,
        t.claims@.last().claim_id == s.claim_counter + 1,
{
}

/// Two accepted claims with the same risk score get the same status,
/// whatever else differs between them; the stored claim carries it.
pub proof fn claim_status_depends_on_score_alone(
    s1: InsurancePortal,
    t1: InsurancePortal,
    user1: String,
    policy_id1: u64,
    abha1: String,
    cid1: String,
    request1: String,
    description1: String,
    hospital1: String,
    now1: u64,
    r1: Result<ClaimReceipt, PortalError>,
    s2: InsurancePortal,
    t2: InsurancePortal,
    user2: String,
    policy_id2: u64,
    abha2: String,
    cid2: String,
    request2: String,
    description2: String,
    hospital2: String,
    now2: u64,
    r2: Result<ClaimReceipt, PortalError>,
    score: u32,
)
    requires
        s1.wf(),
        s2.wf(),
        InsurancePortal::claim_post(
            s1,
            t1,
            user1,
            policy_id1,
            score,
            abha1,
            cid1,
            request1,
            description1,
            hospital1,
            now1,
            r1,
        ),
        InsurancePortal::claim_post(
            s2,
            t2,
            user2,
            policy_id2,
            score,
            abha2,
            cid2,
            request2,
            description2,
            hospital2,
            now2,
            r2,
        ),
        r1 is Ok,
        r2 is Ok,
    ensures
        r1->Ok_0.status == r2->Ok_0.status,
        r1->Ok_0.status == status_for_score(score),
        t1.claims@.last().status == t2.claims@.last().status,
{
}

/// Approving a claim that is already approved is refused, changes nothing
/// and pays nothing.
pub proof fn approved_claim_is_final(
    s: InsurancePortal,
    t: InsurancePortal,
    admin: Seq<char>,
    claim_id: u64,
    now: u64,
    r: Result<Transfer, PortalError>,
)
    requires
        s.wf(),
        s.claim_spec(claim_id) matches Some(c) && c.status == CLAIM_STATUS_APPROVED,
        InsurancePortal::approve_post(s, t, admin, claim_id, now, r),
    ensures
        r is Err,
        s.is_admin_spec(admin) ==> r == Err::<Transfer, PortalError>(PortalError::ClaimNotPending),
        t == s,
{
}

/// After a claim was approved, approving it again is refused with
/// `ClaimNotPending` (or `NotAdmin`), changes nothing and pays nothing.
pub proof fn approval_happens_once(
    s: InsurancePortal,
    t: InsurancePortal,
    u: InsurancePortal,
    admin1: Seq<char>,
    admin2: Seq<char>,
    claim_id: u64,
    now1: u64,
    now2: u64,
    r1: Result<Transfer, PortalError>,
    r2: Result<Transfer, PortalError>,
)
    requires
        s.wf(),
        InsurancePortal::approve_post(s, t, admin1, claim_id, now1, r1),
        r1 is Ok,
        InsurancePortal::approve_post(t, u, admin2, claim_id, now2, r2),
    ensures
        r2 is Err,
        t.is_admin_spec(admin2) ==> r2 == Err::<Transfer, PortalError>(PortalError::ClaimNotPending),
        u == t,
{
    assert(t.claims@[claim_id - 1].status == CLAIM_STATUS_APPROVED);
    approved_claim_is_final(t, u, admin2, claim_id, now2, r2);
}

/// No two purchases carry the same token id.
pub proof fn token_ids_are_unique(s: InsurancePortal)
    requires
        s.wf(),
    ensures
        forall|i: int, j: int|
            0 <= i < j < s.user_policies@.len() ==> #[trigger] s.user_policies@[i].token_id@
                != #[trigger] s.user_policies@[j].token_id@,
{
    assert forall|i: int, j: int|
        0 <= i < j < s.user_policies@.len() implies #[trigger] s.user_policies@[i].token_id@
        != #[trigger] s.user_policies@[j].token_id@ by {
        assert(record_linked(s.users@, s.policies@.len() as int, s.escrows@, s.user_policies@[i], i));
        assert(record_linked(s.users@, s.policies@.len() as int, s.escrows@, s.user_policies@[j], j));
        if s.user_policies@[i].token_id@ == s.user_policies@[j].token_id@ {
            lemma_token_id_injective((i + 1) as nat, (j + 1) as nat);
        }
    }
}

/// Where no purchase in `s` names `a`, its purchase and token lists are
/// empty.
pub proof fn lemma_no_records(s: Seq<UserPolicy>, a: Seq<char>)
    requires
        forall|k: int| 0 <= k < s.len() ==> #[trigger] s[k].user_address@ != a,
    ensures
        records_of(s, a) == Seq::<UserPolicy>::empty(),
        tokens_of_user(s, a) == Seq::<String>::empty(),
    decreases s.len(),
{
    if s.len() > 0 {
        lemma_no_records(s.drop_last(), a);
        assert(s.last() == s[s.len() - 1]);
    }
}

/// Where no purchase in `s` is of policy `id`, its token list is empty.
pub proof fn lemma_no_policy_tokens(s: Seq<UserPolicy>, id: u64)
    requires
        forall|k: int| 0 <= k < s.len() ==> #[trigger] s[k].policy_id != id,
    ensures
        tokens_of_policy(s, id) == Seq::<String>::empty(),
    decreases s.len(),
{
    if s.len() > 0 {
        lemma_no_policy_tokens(s.drop_last(), id);
        assert(s.last() == s[s.len() - 1]);
    }
}

/// Where no claim in `s` names `a`, its claim list is empty.
pub proof fn lemma_no_claims(s: Seq<PolicyClaim>, a: Seq<char>)
    requires
        forall|k: int| 0 <= k < s.len() ==> #[trigger] s[k].user_address@ != a,
    ensures
        claims_of(s, a) == Seq::<PolicyClaim>::empty(),
    decreases s.len(),
{
    if s.len() > 0 {
        lemma_no_claims(s.drop_last(), a);
        assert(s.last() == s[s.len() - 1]);
    }
}

/// A newly registered account starts with no purchases, tokens, escrows
/// or claims.
pub proof fn new_account_starts_empty(
    s: InsurancePortal,
    t: InsurancePortal,
    user: Seq<char>,
    role: u32,
    now: u64,
    r: Result<(), PortalError>,
)
    requires
        s.wf(),
        InsurancePortal::register_post(s, t, user, role, now, r),
        r is Ok,
    ensures
        records_of(t.user_policies@, user) == Seq::<UserPolicy>::empty(),
        tokens_of_user(t.user_policies@, user) == Seq::<String>::empty(),
        claims_of(t.claims@, user) == Seq::<PolicyClaim>::empty(),
        forall|k: int| 0 <= k < t.escrows@.len() ==> #[trigger] t.escrows@[k].user_address@ != user,
{
    assert forall|k: int| 0 <= k < s.user_policies@.len() implies #[trigger] s.user_policies@[k].user_address@
        != user by {
        assert(record_linked(s.users@, s.policies@.len() as int, s.escrows@, s.user_policies@[k], k));
    }
    assert forall|k: int| 0 <= k < s.claims@.len() implies #[trigger] s.claims@[k].user_address@
        != user by {
        assert(registered_in(s.users@, s.claims@[k].user_address@));
    }
    assert forall|k: int| 0 <= k < t.escrows@.len() implies #[trigger] t.escrows@[k].user_address@
        != user by {
        assert(record_linked(s.users@, s.policies@.len() as int, s.escrows@, s.user_policies@[k], k));
    }
    lemma_no_records(t.user_policies@, user);
    lemma_no_claims(t.claims@, user);
}

/// A newly created policy has no tokens.
pub proof fn new_policy_has_no_tokens(
    s: InsurancePortal,
    t: InsurancePortal,
    admin: String,
    params: PolicyParams,
    now: u64,
    r: Result<u64, PortalError>,
)
    requires
        s.wf(),
        InsurancePortal::create_policy_post(s, t, admin, params, now, r),
        r is Ok,
    ensures
        tokens_of_policy(t.user_policies@, r->Ok_0) == Seq::<String>::empty(),
{
    assert forall|k: int| 0 <= k < t.user_policies@.len() implies #[trigger] t.user_policies@[k].policy_id
        != r->Ok_0 by {
        assert(record_linked(s.users@, s.policies@.len() as int, s.escrows@, s.user_policies@[k], k));
    }
    lemma_no_policy_tokens(t.user_policies@, r->Ok_0);
}

} // verus!
