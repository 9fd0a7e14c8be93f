//! Pure rules of the marketplace: constants, adjudication bands and
//! payment arithmetic.
use vstd::prelude::*;
use vstd::string::*;

verus! {

/// Role of an address with no account.
pub const ROLE_UNREGISTERED: u32 = 0;
/// Role of an ordinary buyer of policies.
pub const ROLE_POLICYHOLDER: u32 = 1;
/// Role of an administrator.
pub const ROLE_ADMIN: u32 = 2;

/// Claim paid out.
pub const CLAIM_STATUS_APPROVED: u32 = 1;
/// Claim waiting for an administrator's decision.
pub const CLAIM_STATUS_PENDING: u32 = 2;
/// Claim refused.
pub const CLAIM_STATUS_REJECTED: u32 = 3;

/// Status of a claim whose oracle risk score is `score`.
pub open spec fn status_for_score(score: u32) -> u32 {
    if score <= 30 {
        CLAIM_STATUS_APPROVED
    } else if score <= 70 {
        CLAIM_STATUS_PENDING
    } else {
        CLAIM_STATUS_REJECTED
    }
}

/// Adjudicates a claim from its risk score: at most 30 is approved,
/// 31 to 70 waits for an administrator, anything higher is rejected.
pub fn claim_status_for_score(score: u32) -> (r: u32)
    ensures
        r == status_for_score(score),
{
    if score <= 30 {
        CLAIM_STATUS_APPROVED
    } else if score <= 70 {
        CLAIM_STATUS_PENDING
    } else {
        CLAIM_STATUS_REJECTED
    }
}

/// Smallest units of the payment asset in one whole unit.
pub const XLM_DECIMALS: i128 = 10_000_000;
/// Divisor that turns a premium quoted in the catalog's currency, scaled
/// by `XLM_DECIMALS`, into smallest units of the payment asset.
pub const INR_TO_XLM_RATE: i128 = 1_000_000;
/// Length of one escrow period in seconds (thirty days).
pub const ESCROW_DURATION_SECONDS: u64 = 2592000;
/// Seconds in a day.
pub const SECONDS_PER_DAY: u64 = 86400;
/// Days in one escrow period.
pub const DAYS_PER_PAYMENT: u64 = 30;

/// Least payment accepted for a policy whose monthly premium is
/// `monthly_premium`, in smallest units of the payment asset.
pub open spec fn minimum_payment_spec(monthly_premium: i128) -> int {
    (monthly_premium * XLM_DECIMALS) / (INR_TO_XLM_RATE as int)
}

/// Whether `payment` reaches the least payment accepted for a policy whose
/// monthly premium is `monthly_premium`. Exact for every premium, including
/// those whose minimum lies outside the `i128` range.
pub fn covers_minimum(monthly_premium: i128, payment: i128) -> (r: bool)
    ensures
        r == (payment >= minimum_payment_spec(monthly_premium)),
{
    proof {
        let m = monthly_premium as int;
        assert(m * 10_000_000 == 1_000_000 * (m * 10)) by (nonlinear_arith);
        vstd::arithmetic::div_mod::lemma_div_multiples_vanish(m * 10, 1_000_000);
    }
    match monthly_premium.checked_mul(XLM_DECIMALS / INR_TO_XLM_RATE) {
        Some(minimum) => payment >= minimum,
        None => monthly_premium < 0,
    }
}

/// Number of monthly payments that a policy of `duration_days` days asks
/// for (a policy shorter than one period asks for none).
pub fn total_payments_required(duration_days: u64) -> (r: u64)
    ensures
        r == duration_days / DAYS_PER_PAYMENT,
{
    duration_days / DAYS_PER_PAYMENT
}

/// End of a validity window of `duration_days` days starting at `start`.
pub open spec fn validity_end_spec(start: u64, duration_days: u64) -> int {
    start + duration_days * SECONDS_PER_DAY
}

/// End of a validity window of `duration_days` days starting at `start`;
/// `None` where it leaves the `u64` range.
pub fn validity_end(start: u64, duration_days: u64) -> (r: Option<u64>)
    ensures
        r is Some <==> validity_end_spec(start, duration_days) <= u64::MAX,
        r matches Some(v) ==> v == validity_end_spec(start, duration_days),
{
    match duration_days.checked_mul(SECONDS_PER_DAY) {
        None => {
            assert(duration_days * SECONDS_PER_DAY > u64::MAX);
            None
        },
        Some(span) => start.checked_add(span),
    }
}

/// The decimal digit `d` (below ten) as a character.
pub open spec fn digit_char(d: nat) -> char {
    if d == 0 { '0' } else if d == 1 { '1' } else if d == 2 { '2' } else if d == 3 { '3' }
    else if d == 4 { '4' } else if d == 5 { '5' } else if d == 6 { '6' } else if d == 7 { '7' }
    else if d == 8 { '8' } else { '9' }
}

/// Decimal digits of `n`, most significant first, without leading zeros.
pub open spec fn decimal(n: nat) -> Seq<char>
    decreases n,
{
    if n < 10 {
        seq![digit_char(n)]
    } else {
        decimal(n / 10).push(digit_char(n % 10))
    }
}

/// `decimal(n)` has one digit below ten and at least two from ten on.
pub proof fn lemma_decimal_len(n: nat)
    ensures
        decimal(n).len() >= 1,
        n >= 10 ==> decimal(n).len() >= 2,
    decreases n,
{
    if n >= 10 {
        lemma_decimal_len(n / 10);
    }
}

/// Different numbers have different decimal forms.
pub proof fn lemma_decimal_injective(n: nat, m: nat)
    requires
        decimal(n) == decimal(m),
    ensures
        n == m,
    decreases n,
{
    lemma_decimal_len(n);
    lemma_decimal_len(m);
    if n >= 10 && m >= 10 {
        let a = decimal(n / 10);
        let b = decimal(m / 10);
        assert(decimal(n).drop_last() =~= a);
        assert(decimal(m).drop_last() =~= b);
        assert(decimal(n).last() == digit_char(n % 10));
        assert(decimal(m).last() == digit_char(m % 10));
        lemma_decimal_injective(n / 10, m / 10);
    } else if n < 10 && m < 10 {
        assert(decimal(n)[0] == digit_char(n));
        assert(decimal(m)[0] == digit_char(m));
    }
}

/// Different token numbers have different identifiers.
pub proof fn lemma_token_id_injective(n: nat, m: nat)
    requires
        token_id_spec(n) == token_id_spec(m),
    ensures
        n == m,
{
    let p = "POLICY_"@;
    assert(token_id_spec(n).subrange(p.len() as int, token_id_spec(n).len() as int) =~= decimal(n));
    assert(token_id_spec(m).subrange(p.len() as int, token_id_spec(m).len() as int) =~= decimal(m));
    lemma_decimal_injective(n, m);
}

/// Identifier of the token with number `n`.
pub open spec fn token_id_spec(n: nat) -> Seq<char> {
    "POLICY_"@ + decimal(n)
}

/// The digit `d` as a one-character string.
fn digit_str(d: u64) -> (r: &'static str)
    requires
        d < 10,
    ensures
        r@ == seq![digit_char(d as nat)],
{
    proof {
        reveal_strlit("0");
        reveal_strlit("1");
        reveal_strlit("2");
        reveal_strlit("3");
        reveal_strlit("4");
        reveal_strlit("5");
        reveal_strlit("6");
        reveal_strlit("7");
        reveal_strlit("8");
        reveal_strlit("9");
    }
    if d == 0 { "0" } else if d == 1 { "1" } else if d == 2 { "2" } else if d == 3 { "3" }
    else if d == 4 { "4" } else if d == 5 { "5" } else if d == 6 { "6" } else if d == 7 { "7" }
    else if d == 8 { "8" } else { "9" }
}

/// Appends the decimal digits of `n` to `s`.
fn append_decimal(s: &mut String, n: u64)
    ensures
        final(s)@ == old(s)@ + decimal(n as nat),
    decreases n,
{
    if n >= 10 {
        append_decimal(s, n / 10);
    }
    s.append(digit_str(n % 10));
    assert(s@ =~= old(s)@ + decimal(n as nat));
}

/// Identifier of the token with number `n`: `POLICY_` followed by the
/// decimal digits of `n`.
pub fn token_id_for(n: u64) -> (r: String)
    ensures
        r@ == token_id_spec(n as nat),
{
    let mut s = String::from_str("POLICY_");
    append_decimal(&mut s, n);
    s
}

} // verus!
