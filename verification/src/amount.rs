use crate::error::SubscribeError;
use vstd::prelude::*;

verus! {

/// The refund owed on a payment: what was paid over the required amount,
/// less a flat fee, and nothing where the overpayment does not exceed the fee.
pub open spec fn refund_due(available_balance: int, required_amount: int, refund_fee: int) -> int {
    let overpay = available_balance - required_amount;
    if overpay > refund_fee {
        overpay - refund_fee
    } else {
        0
    }
}

/// Accepts or rejects a payment and computes the refund.
///
/// A balance below the required amount is rejected; any other balance is
/// accepted with the refund of [`refund_due`].
pub fn validate(available_balance: u64, required_amount: u64, refund_fee: u64) -> (r: Result<
    u64,
    SubscribeError,
>)
    ensures
        available_balance < required_amount ==> r == Err::<u64, SubscribeError>(
            SubscribeError::InsufficientAmount,
        ),
        available_balance >= required_amount ==> r == Ok::<u64, SubscribeError>(
            refund_due(available_balance as int, required_amount as int, refund_fee as int) as u64,
        ),
{
    if available_balance < required_amount {
        return Err(SubscribeError::InsufficientAmount);
    }
    let overpay: u64 = available_balance - required_amount;
    let refund_amount: u64 = match overpay.checked_sub(refund_fee) {
        Some(rest) => rest,
        None => 0,
    };
    Ok(refund_amount)
}

/// An exact payment is accepted and owes no refund.
pub proof fn lemma_exact_payment_owes_nothing(amount: int, refund_fee: int)
    requires
        refund_fee >= 0,
    ensures
        refund_due(amount, amount, refund_fee) == 0,
{
}

/// An overpayment is refunded less the fee, never below zero, and not at
/// all where the overpayment is no more than the fee.
pub proof fn lemma_overpayment_refund(available_balance: int, required_amount: int, refund_fee: int)
    requires
        available_balance > required_amount,
    ensures
        refund_due(available_balance, required_amount, refund_fee) == if available_balance
            - required_amount - refund_fee > 0 {
            available_balance - required_amount - refund_fee
        } else {
            0
        },
        available_balance - required_amount <= refund_fee ==> refund_due(
            available_balance,
            required_amount,
            refund_fee,
        ) == 0,
        refund_due(available_balance, required_amount, refund_fee) >= 0,
{
}

} // verus!
