use insurance_portal::rules::{
    claim_status_for_score, covers_minimum, token_id_for, total_payments_required, validity_end,
    CLAIM_STATUS_APPROVED, CLAIM_STATUS_PENDING, CLAIM_STATUS_REJECTED, ROLE_ADMIN,
    ROLE_POLICYHOLDER, ROLE_UNREGISTERED,
};
use insurance_portal::{InsurancePortal, PolicyParams, PortalError, Transfer};

fn s(x: &str) -> String {
    x.to_string()
}

fn params(monthly: i128, coverage: i128, duration_days: u64) -> PolicyParams {
    PolicyParams {
        title: s("Health Basic"),
        description: s("Hospital cover"),
        policy_type: 1,
        monthly_premium: monthly,
        yearly_premium: monthly.saturating_mul(12),
        coverage_amount: coverage,
        min_age: 18,
        max_age: 65,
        duration_days,
        waiting_period_days: 30,
    }
}

fn buy(p: &mut InsurancePortal, user: &str, policy_id: u64, payment: i128, now: u64) -> Result<insurance_portal::PurchaseReceipt, PortalError> {
    p.purchase_policy(
        s(user),
        policy_id,
        s("ipfs://meta"),
        payment,
        s("Bob"),
        40,
        s("M"),
        s("O+"),
        now,
    )
}

fn claim(p: &mut InsurancePortal, user: &str, policy_id: u64, score: u32, now: u64) -> Result<insurance_portal::ClaimReceipt, PortalError> {
    p.claim_policy(
        s(user),
        policy_id,
        score,
        s("ABHA-1"),
        s("cid-1"),
        s("req-1"),
        s("fracture"),
        s("City Hospital"),
        now,
    )
}

/// Admin A, policy 1, policyholder B with one purchase.
fn setup() -> InsurancePortal {
    let mut p = InsurancePortal::initialize(s("A"), 1000);
    assert_eq!(p.create_policy(s("A"), params(100, 50_000, 365), 1001), Ok(1));
    assert_eq!(p.register_user(s("B"), ROLE_POLICYHOLDER, 1002), Ok(()));
    assert!(buy(&mut p, "B", 1, 1000, 1003).is_ok());
    p
}

#[test]
fn full_lifecycle_scenario() {
    let mut p = InsurancePortal::initialize(s("A"), 1000);
    assert_eq!(p.create_policy(s("A"), params(100, 50_000, 365), 1001), Ok(1));
    assert_eq!(p.register_user(s("B"), ROLE_POLICYHOLDER, 1002), Ok(()));
    let receipt = buy(&mut p, "B", 1, 1000, 1003).unwrap();
    assert_eq!(receipt.escrow_id, 1);
    assert_eq!(receipt.token_id, "POLICY_1");
    assert_eq!(receipt.payment, Transfer { into_custody: true, account: s("B"), amount: 1000 });
    let mine = p.get_my_policies(&s("B")).unwrap();
    assert_eq!(mine.len(), 1);
    assert_eq!(mine[0].policy_id, 1);
    assert!(mine[0].active);
    assert_eq!(mine[0].escrow_id, 1);
    assert_eq!(p.escrows[0].total_payments_required, 12);
    assert_eq!(p.escrows[0].payments_made, 1);

    let c1 = claim(&mut p, "B", 1, 20, 2000).unwrap();
    assert_eq!(c1.claim_id, 1);
    assert_eq!(c1.status, CLAIM_STATUS_APPROVED);
    assert_eq!(c1.payout, Some(Transfer { into_custody: false, account: s("B"), amount: 50_000 }));

    let c2 = claim(&mut p, "B", 1, 50, 2001).unwrap();
    assert_eq!(c2.claim_id, 2);
    assert_eq!(c2.status, CLAIM_STATUS_PENDING);
    assert_eq!(c2.payout, None);

    let payout = p.approve_claim(&s("A"), 2, 2002).unwrap();
    assert_eq!(payout, Transfer { into_custody: false, account: s("B"), amount: 50_000 });
    assert_eq!(p.get_claim_status(2), Ok((CLAIM_STATUS_APPROVED, 50_000, 50)));
    assert_eq!(p.get_claim_details(2).unwrap().processed_at, 2002);
}

#[test]
fn bootstrap_admin_is_registered() {
    let p = InsurancePortal::initialize(s("A"), 77);
    assert_eq!(p.get_user_role(&s("A")), ROLE_ADMIN);
    assert!(p.is_admin(&s("A")));
    assert!(p.check_admin_status(&s("A")));
    let info = p.get_user_info(&s("A")).unwrap();
    assert_eq!(info.name, "Contract Admin");
    assert_eq!(info.registered_at, 77);
    assert!(info.registered);
    assert_eq!(p.get_total_tokens(), 0);
    assert_eq!(p.get_treasury(), 0);
    assert_eq!(p.admins, vec![s("A")]);
}

#[test]
fn unregistered_role_is_zero() {
    let p = InsurancePortal::initialize(s("A"), 0);
    assert_eq!(p.get_user_role(&s("Z")), ROLE_UNREGISTERED);
    assert_eq!(p.get_user_info(&s("Z")), None);
    assert!(!p.is_admin(&s("Z")));
}

#[test]
fn registration_records_supplied_role() {
    let mut p = InsurancePortal::initialize(s("A"), 0);
    assert_eq!(p.register_user(s("B"), ROLE_POLICYHOLDER, 5), Ok(()));
    assert_eq!(p.register_user(s("C"), ROLE_ADMIN, 6), Ok(()));
    assert_eq!(p.get_user_role(&s("B")), ROLE_POLICYHOLDER);
    assert_eq!(p.get_user_role(&s("C")), ROLE_ADMIN);
    assert!(p.is_admin(&s("C")));
    assert!(!p.is_admin(&s("B")));
    assert_eq!(p.admins, vec![s("A"), s("C")]);
    let b = p.get_user_info(&s("B")).unwrap();
    assert_eq!(b.name, "");
    assert_eq!(b.registered_at, 5);
}

#[test]
fn duplicate_registration_is_refused() {
    let mut p = InsurancePortal::initialize(s("A"), 0);
    assert_eq!(p.register_user(s("B"), ROLE_POLICYHOLDER, 5), Ok(()));
    assert_eq!(p.register_user(s("B"), ROLE_ADMIN, 6), Err(PortalError::AlreadyRegistered));
    assert_eq!(p.register_user(s("A"), ROLE_POLICYHOLDER, 6), Err(PortalError::AlreadyRegistered));
    assert_eq!(p.get_user_role(&s("B")), ROLE_POLICYHOLDER);
    assert_eq!(p.users.len(), 2);
}

#[test]
fn invalid_role_is_refused() {
    let mut p = InsurancePortal::initialize(s("A"), 0);
    assert_eq!(p.register_user(s("B"), 0, 5), Err(PortalError::InvalidRole));
    assert_eq!(p.register_user(s("B"), 3, 5), Err(PortalError::InvalidRole));
    // the role is checked before the account
    assert_eq!(p.register_user(s("A"), 7, 5), Err(PortalError::InvalidRole));
    assert_eq!(p.get_user_role(&s("B")), ROLE_UNREGISTERED);
}

#[test]
fn policy_ids_start_at_one_without_gaps() {
    let mut p = InsurancePortal::initialize(s("A"), 0);
    p.register_user(s("C"), ROLE_ADMIN, 1).unwrap();
    assert_eq!(p.create_policy(s("A"), params(100, 10, 30), 2), Ok(1));
    assert_eq!(p.create_policy(s("C"), params(200, 20, 60), 3), Ok(2));
    assert_eq!(p.create_policy(s("A"), params(300, 30, 90), 4), Ok(3));
    let all = p.get_all_policies();
    assert_eq!(all.iter().map(|x| x.policy_id).collect::<Vec<u64>>(), vec![1, 2, 3]);
    assert_eq!(all[1].created_by, "C");
    assert_eq!(all[1].created_at, 3);
    assert_eq!(all[1].monthly_premium, 200);
    assert_eq!(all[1].title, "Health Basic");
}

#[test]
fn non_admin_cannot_create_policy() {
    let mut p = InsurancePortal::initialize(s("A"), 0);
    p.register_user(s("B"), ROLE_POLICYHOLDER, 1).unwrap();
    assert_eq!(p.create_policy(s("B"), params(100, 10, 30), 2), Err(PortalError::NotAdmin));
    assert_eq!(p.create_policy(s("Z"), params(100, 10, 30), 2), Err(PortalError::NotAdmin));
    assert!(p.get_all_policies().is_empty());
    assert!(!p.test_create_policy_no_auth(&s("B"), &params(1, 1, 1)));
    assert!(p.test_create_policy_no_auth(&s("A"), &params(1, 1, 1)));
    assert_eq!(p.create_policy(s("A"), params(100, 10, 30), 3), Ok(1));
}

#[test]
fn underpayment_is_refused_and_creates_nothing() {
    let mut p = InsurancePortal::initialize(s("A"), 0);
    p.create_policy(s("A"), params(100, 10, 365), 1).unwrap();
    p.register_user(s("B"), ROLE_POLICYHOLDER, 2).unwrap();
    assert_eq!(buy(&mut p, "B", 1, 999, 3), Err(PortalError::InsufficientPayment));
    assert!(p.escrows.is_empty());
    assert!(p.get_my_policies(&s("B")).unwrap().is_empty());
    assert!(p.get_user_tokens(&s("B")).is_empty());
    assert_eq!(p.get_total_tokens(), 0);
    assert_eq!(p.get_treasury(), 0);
}

#[test]
fn exact_minimum_and_overpayment_are_accepted() {
    let mut p = InsurancePortal::initialize(s("A"), 0);
    p.create_policy(s("A"), params(100, 10, 365), 1).unwrap();
    p.register_user(s("B"), ROLE_POLICYHOLDER, 2).unwrap();
    assert!(buy(&mut p, "B", 1, 1000, 3).is_ok());
    assert_eq!(p.get_treasury(), 1000);
    assert!(buy(&mut p, "B", 1, 2500, 4).is_ok());
    assert_eq!(p.get_treasury(), 3500);
    assert_eq!(p.get_total_tokens(), 2);
    assert_eq!(p.escrows.len(), 2);
    assert_eq!(p.get_my_policies(&s("B")).unwrap()[1].escrow_id, 2);
}

#[test]
fn purchase_records_escrow_token_and_metadata() {
    let mut p = InsurancePortal::initialize(s("A"), 0);
    p.create_policy(s("A"), params(100, 50_000, 365), 1).unwrap();
    p.register_user(s("B"), ROLE_POLICYHOLDER, 2).unwrap();
    buy(&mut p, "B", 1, 1300, 10_000).unwrap();
    let e = &p.escrows[0];
    assert_eq!(e.user_address, "B");
    assert_eq!(e.policy_id, 1);
    assert_eq!(e.monthly_premium_xlm, 1300);
    assert_eq!(e.next_payment_due, 10_000 + 2_592_000);
    assert_eq!(e.escrow_balance, 0);
    assert!(e.active);
    let rec = &p.get_my_policies(&s("B")).unwrap()[0];
    assert_eq!(rec.purchase_date, 10_000);
    assert_eq!(rec.expiry_date, 10_000 + 365 * 86_400);
    assert_eq!(rec.premium_paid_xlm, 1300);
    assert_eq!(rec.token_id, "POLICY_1");
    assert_eq!(rec.holder_name, "Bob");
    assert_eq!(rec.holder_blood_group, "O+");
    assert_eq!(p.get_user_tokens(&s("B")), vec![s("POLICY_1")]);
    assert_eq!(p.get_policy_tokens(1), vec![s("POLICY_1")]);
    assert!(p.get_policy_tokens(2).is_empty());
    let m = p.get_nft_metadata(&s("POLICY_1")).unwrap();
    assert_eq!(m.name, "Policy NFT");
    assert_eq!(m.description, "Hospital cover");
    assert_eq!(m.image_uri, "ipfs://meta");
    assert_eq!(m.coverage_amount, 50_000);
    // the yearly premium of the policy, not the payment
    assert_eq!(m.premium_amount, 1200);
    assert_eq!(m.validity_start, 10_000);
    assert_eq!(m.validity_end, 10_000 + 365 * 86_400);
    assert_eq!(p.get_nft_metadata(&s("POLICY_9")), None);
    assert_eq!(p.get_nft_metadata(&s("POLICY_")), None);
}

#[test]
fn each_purchase_gets_its_own_token() {
    let mut p = InsurancePortal::initialize(s("A"), 0);
    p.create_policy(s("A"), params(100, 50_000, 365), 1).unwrap();
    p.create_policy(s("A"), params(100, 70_000, 30), 1).unwrap();
    p.register_user(s("B"), ROLE_POLICYHOLDER, 2).unwrap();
    buy(&mut p, "B", 1, 1000, 3).unwrap();
    buy(&mut p, "B", 2, 1000, 4).unwrap();
    assert_eq!(p.get_nft_metadata(&s("POLICY_1")).unwrap().coverage_amount, 50_000);
    assert_eq!(p.get_nft_metadata(&s("POLICY_2")).unwrap().coverage_amount, 70_000);
    assert_eq!(p.get_user_tokens(&s("B")), vec![s("POLICY_1"), s("POLICY_2")]);
    assert_eq!(p.get_policy_tokens(2), vec![s("POLICY_2")]);
    assert_eq!(p.escrows[1].total_payments_required, 1);
}

#[test]
fn purchase_refusals() {
    let mut p = InsurancePortal::initialize(s("A"), 0);
    p.create_policy(s("A"), params(100, 10, 365), 1).unwrap();
    assert_eq!(buy(&mut p, "Z", 1, 1000, 3), Err(PortalError::NotRegistered));
    assert_eq!(buy(&mut p, "A", 1, 1000, 3), Err(PortalError::NotPolicyholder));
    p.register_user(s("B"), ROLE_POLICYHOLDER, 2).unwrap();
    assert_eq!(buy(&mut p, "B", 2, 1000, 3), Err(PortalError::PolicyNotFound));
    assert_eq!(buy(&mut p, "B", 0, 1000, 3), Err(PortalError::PolicyNotFound));
    assert_eq!(buy(&mut p, "B", 1, 1000, u64::MAX), Err(PortalError::Overflow));
    assert_eq!(p.get_treasury(), 0);
}

#[test]
fn oversized_premium_is_never_covered() {
    let mut p = InsurancePortal::initialize(s("A"), 0);
    p.create_policy(s("A"), params(i128::MAX / 5, 10, 365), 1).unwrap();
    p.register_user(s("B"), ROLE_POLICYHOLDER, 2).unwrap();
    assert_eq!(buy(&mut p, "B", 1, i128::MAX, 3), Err(PortalError::InsufficientPayment));
    assert!(p.escrows.is_empty());
}

#[test]
fn ledgers_built_by_operations_are_well_formed() {
    let mut p = setup();
    claim(&mut p, "B", 1, 50, 7).unwrap();
    p.store_oracle_request(s("req-1"), 1, s("ABHA-1"), s("cid-1"), 100);
    assert!(p.is_well_formed());
    let mut broken = setup();
    broken.user_policies[0].token_id = s("POLICY_7");
    assert!(!broken.is_well_formed());
    let mut broken = setup();
    broken.users.push(broken.users[0].clone());
    assert!(!broken.is_well_formed());
    let mut broken = setup();
    broken.claim_counter = 4;
    assert!(!broken.is_well_formed());
}

#[test]
fn adjudication_bands_by_score() {
    for score in [0u32, 1, 29, 30] {
        assert_eq!(claim_status_for_score(score), CLAIM_STATUS_APPROVED);
    }
    for score in [31u32, 50, 70] {
        assert_eq!(claim_status_for_score(score), CLAIM_STATUS_PENDING);
    }
    for score in [71u32, 99, 100, 1000] {
        assert_eq!(claim_status_for_score(score), CLAIM_STATUS_REJECTED);
    }
    assert_eq!(claim_status_for_score(45), claim_status_for_score(45));
}

#[test]
fn rejected_claim_is_stored_without_payout() {
    let mut p = setup();
    let c = claim(&mut p, "B", 1, 85, 50).unwrap();
    assert_eq!(c.status, CLAIM_STATUS_REJECTED);
    assert_eq!(c.payout, None);
    assert_eq!(p.get_claim_status(1), Ok((CLAIM_STATUS_REJECTED, 50_000, 85)));
    assert_eq!(p.approve_claim(&s("A"), 1, 60), Err(PortalError::ClaimNotPending));
}

#[test]
fn second_approval_is_refused() {
    let mut p = setup();
    claim(&mut p, "B", 1, 50, 50).unwrap();
    assert!(p.approve_claim(&s("A"), 1, 60).is_ok());
    let before = p.get_all_claims();
    assert_eq!(p.approve_claim(&s("A"), 1, 70), Err(PortalError::ClaimNotPending));
    assert_eq!(p.get_all_claims(), before);
    assert_eq!(p.get_claim_details(1).unwrap().processed_at, 60);
}

#[test]
fn auto_approved_claim_cannot_be_approved_again() {
    let mut p = setup();
    claim(&mut p, "B", 1, 10, 50).unwrap();
    assert_eq!(p.approve_claim(&s("A"), 1, 60), Err(PortalError::ClaimNotPending));
}

#[test]
fn approval_refusals() {
    let mut p = setup();
    claim(&mut p, "B", 1, 50, 50).unwrap();
    assert_eq!(p.approve_claim(&s("B"), 1, 60), Err(PortalError::NotAdmin));
    assert_eq!(p.approve_claim(&s("A"), 2, 60), Err(PortalError::ClaimNotFound));
    assert_eq!(p.approve_claim(&s("A"), 0, 60), Err(PortalError::ClaimNotFound));
    assert_eq!(p.get_claim_status(1).unwrap().0, CLAIM_STATUS_PENDING);
}

#[test]
fn claim_refusals() {
    let mut p = setup();
    p.register_user(s("D"), ROLE_POLICYHOLDER, 5).unwrap();
    assert_eq!(claim(&mut p, "Z", 1, 10, 9), Err(PortalError::NotRegistered));
    assert_eq!(claim(&mut p, "A", 1, 10, 9), Err(PortalError::NotPolicyholder));
    assert_eq!(claim(&mut p, "B", 5, 10, 9), Err(PortalError::PolicyNotFound));
    // an existing policy that the claimant never bought
    assert_eq!(claim(&mut p, "D", 1, 10, 9), Err(PortalError::PolicyNotFound));
    assert!(p.get_all_claims().is_empty());
    assert_eq!(p.get_claim_status(1), Err(PortalError::ClaimNotFound));
}

#[test]
fn claim_lists_by_owner_and_health_id() {
    let mut p = setup();
    p.register_user(s("D"), ROLE_POLICYHOLDER, 5).unwrap();
    buy(&mut p, "D", 1, 1000, 6).unwrap();
    claim(&mut p, "B", 1, 50, 7).unwrap();
    p.claim_policy(s("D"), 1, 50, s("ABHA-2"), s("cid-2"), s("req-2"), s("x"), s("y"), 8).unwrap();
    claim(&mut p, "B", 1, 90, 9).unwrap();
    let b: Vec<u64> = p.get_user_claims(&s("B")).iter().map(|c| c.claim_id).collect();
    assert_eq!(b, vec![1, 3]);
    let d: Vec<u64> = p.get_user_claims(&s("D")).iter().map(|c| c.claim_id).collect();
    assert_eq!(d, vec![2]);
    let h: Vec<u64> = p.get_claims_by_abha_id(&s("ABHA-1")).iter().map(|c| c.claim_id).collect();
    assert_eq!(h, vec![1, 3]);
    assert!(p.get_claims_by_abha_id(&s("ABHA-9")).is_empty());
    assert!(p.verify_ipfs_cid_in_claim(&s("cid-2")));
    assert!(!p.verify_ipfs_cid_in_claim(&s("cid-9")));
    assert_eq!(p.get_all_claims().len(), 3);
    assert_eq!(p.get_policy_tokens(1).len(), 2);
    assert_eq!(p.get_user_tokens(&s("D")).len(), 1);
}

#[test]
fn my_policies_needs_registration() {
    let p = setup();
    assert_eq!(p.get_my_policies(&s("Z")), Err(PortalError::NotRegistered));
    assert!(p.get_my_policies(&s("A")).unwrap().is_empty());
}

#[test]
fn oracle_request_tracking() {
    let mut p = setup();
    claim(&mut p, "B", 1, 50, 7).unwrap();
    assert_eq!(p.get_oracle_request(&s("req-1")), None);
    assert_eq!(p.get_claim_by_oracle_request(&s("req-1")), None);
    p.store_oracle_request(s("req-1"), 1, s("ABHA-1"), s("cid-1"), 100);
    let q = p.get_oracle_request(&s("req-1")).unwrap();
    assert_eq!(q.status, 0);
    assert_eq!(q.requested_at, 100);
    assert_eq!(q.claim_id, 1);
    assert_eq!(p.get_claim_by_oracle_request(&s("req-1")).unwrap().claim_id, 1);
    p.update_oracle_request_status(&s("req-1"), 1);
    assert_eq!(p.get_oracle_request(&s("req-1")).unwrap().status, 1);
    // an unknown request is ignored
    p.update_oracle_request_status(&s("req-9"), 2);
    assert_eq!(p.get_oracle_request(&s("req-9")), None);
    assert_eq!(p.oracle_requests.len(), 1);
    // storing again under the same id replaces the request
    p.store_oracle_request(s("req-1"), 7, s("ABHA-2"), s("cid-2"), 200);
    assert_eq!(p.oracle_requests.len(), 1);
    let q = p.get_oracle_request(&s("req-1")).unwrap();
    assert_eq!((q.claim_id, q.status, q.requested_at), (7, 0, 200));
    assert_eq!(p.get_claim_by_oracle_request(&s("req-1")), None);
    p.store_oracle_request(s("req-2"), 1, s("ABHA-1"), s("cid-1"), 300);
    assert_eq!(p.oracle_requests.len(), 2);
    assert_eq!(p.get_oracle_request(&s("req-1")).unwrap().claim_id, 7);
}

#[test]
fn payment_formulas() {
    assert!(covers_minimum(100, 1000));
    assert!(!covers_minimum(100, 999));
    assert!(covers_minimum(0, 0));
    assert!(!covers_minimum(0, -1));
    assert!(covers_minimum(-3, -30));
    assert!(!covers_minimum(-3, -31));
    // minimums beyond the i128 range: never reached, or always reached
    assert!(!covers_minimum(i128::MAX / 5, i128::MAX));
    assert!(covers_minimum(i128::MIN / 5, i128::MIN));
    assert_eq!(token_id_for(1), "POLICY_1");
    assert_eq!(token_id_for(0), "POLICY_0");
    assert_eq!(token_id_for(1234567890), "POLICY_1234567890");
    assert_eq!(token_id_for(u64::MAX), format!("POLICY_{}", u64::MAX));
    assert_eq!(total_payments_required(365), 12);
    assert_eq!(total_payments_required(29), 0);
    assert_eq!(total_payments_required(30), 1);
    assert_eq!(validity_end(5, 1), Some(86_405));
    assert_eq!(validity_end(u64::MAX, 1), None);
    assert_eq!(validity_end(0, u64::MAX), None);
}

#[test]
fn error_codes() {
    assert_eq!(PortalError::NotAdmin.code(), 1);
    assert_eq!(PortalError::NotPolicyholder.code(), 2);
    assert_eq!(PortalError::PolicyNotFound.code(), 3);
    assert_eq!(PortalError::AlreadyRegistered.code(), 4);
    assert_eq!(PortalError::InvalidRole.code(), 5);
    assert_eq!(PortalError::NotRegistered.code(), 6);
    assert_eq!(PortalError::InsufficientPayment.code(), 10);
    assert_eq!(PortalError::ClaimNotFound.code(), 11);
}
