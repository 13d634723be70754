use vstd::prelude::*;

verus! {

/// The marketplace's fee on a deposit: `fee_percentage` percent of it, rounded
/// down to a whole unit.
pub open spec fn fee(deposit: nat, fee_percentage: nat) -> nat {
    deposit * fee_percentage / 100
}

/// What is left of a deposit for the seller once the fee is taken. Whatever the
/// rounding of the fee drops stays with the seller.
pub open spec fn seller_share(deposit: nat, fee_percentage: nat) -> nat {
    (deposit - fee(deposit, fee_percentage)) as nat
}

/// A fee of at most one hundred percent never exceeds the deposit.
pub proof fn lemma_fee_within_deposit(deposit: nat, fee_percentage: nat)
    requires
        fee_percentage <= 100,
    ensures
        fee(deposit, fee_percentage) <= deposit,
        fee(deposit, fee_percentage) + seller_share(deposit, fee_percentage) == deposit,
{
    assert(deposit * fee_percentage / 100 <= deposit) by (nonlinear_arith)
        requires
            fee_percentage <= 100,
    ;
}

/// Taking the percentage of the hundreds and of the rest apart gives the same
/// fee as taking it of the whole deposit.
proof fn lemma_fee_by_parts(deposit: nat, fee_percentage: nat)
    ensures
        fee(deposit, fee_percentage) == (deposit / 100) * fee_percentage + (deposit % 100)
            * fee_percentage / 100,
{
    let q = deposit / 100;
    let r = deposit % 100;
    let p = fee_percentage;
    assert(deposit * p == 100 * (q * p) + r * p) by (nonlinear_arith)
        requires
            deposit == 100 * q + r,
    ;
    assert((100 * (q * p) + r * p) / 100 == q * p + (r * p) / 100) by (nonlinear_arith)
        requires
            r * p >= 0,
    ;
}

/// Computes the marketplace's fee on `deposit`. No intermediate value leaves
/// the range of `u128`, however large the deposit.
pub fn marketplace_fee(deposit: u128, fee_percentage: u8) -> (amount: u128)
    requires
        fee_percentage <= 100,
    ensures
        amount == fee(deposit as nat, fee_percentage as nat),
        amount <= deposit,
{
    let hundreds: u128 = deposit / 100;
    let rest: u128 = deposit % 100;
    let rate: u128 = fee_percentage as u128;
    proof {
        lemma_fee_by_parts(deposit as nat, fee_percentage as nat);
        lemma_fee_within_deposit(deposit as nat, fee_percentage as nat);
        assert(hundreds * rate <= hundreds * 100) by (nonlinear_arith)
            requires
                rate <= 100,
        ;
        assert(rest * rate <= 99 * 100) by (nonlinear_arith)
            requires
                rest <= 99,
                rate <= 100,
        ;
    }
    hundreds * rate + rest * rate / 100
}

/// The character that stands for a single decimal digit.
pub open spec fn digit(d: nat) -> char {
    if d == 0 {
        '0'
    } else if d == 1 {
        '1'
    } else if d == 2 {
        '2'
    } else if d == 3 {
        '3'
    } else if d == 4 {
        '4'
    } else if d == 5 {
        '5'
    } else if d == 6 {
        '6'
    } else if d == 7 {
        '7'
    } else if d == 8 {
        '8'
    } else {
        '9'
    }
}

/// A number written in decimal: most significant digit first, no sign, no
/// leading zeros, and `0` for zero.
pub open spec fn decimal(n: nat) -> Seq<char>
    decreases n,
{
    if n < 10 {
        seq![digit(n)]
    } else {
        decimal(n / 10).push(digit(n % 10))
    }
}

/// Writes an amount as the host shows amounts, by the `Display` of
/// `cosmwasm_std::Uint128`. That impl hands the wrapped `u128` to the standard
/// formatter, which prints it in decimal; the contract says that the text is
/// exactly those digits.
#[verifier::external_body]
pub(crate) fn amount_text(amount: u128) -> (text: String)
    ensures
        text@ == decimal(amount as nat),
{
    cosmwasm_std::Uint128::new(amount).to_string()
}

} // verus!
