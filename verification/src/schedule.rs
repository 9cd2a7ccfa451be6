//! The amortization engine: the fixed monthly payment and the month-by-month
//! split of each payment between interest and principal.
//!
//! Nothing here corrects rounding drift: the balance after the last month is
//! whatever the evaluator's subtraction leaves, which may be close to zero
//! rather than zero.

use vstd::prelude::*;
use crate::arithmetic::{apply, is_function, table, Operation};
use crate::binary64::{is_zero, zero, ONE, TWELVE, ZERO};

verus! {

/// One month of a schedule.
#[derive(Clone, Copy, Debug, PartialEq, Eq, Structural)]
pub struct Payment {
    /// The month, counted from zero.
    pub month_index: usize,
    /// The balance owed at the start of the month.
    pub start_principal: u64,
    /// The interest that the balance bears this month.
    pub interests_part: u64,
    /// What the payment takes off the balance.
    pub principal_part: u64,
    /// The whole payment: principal part plus interest.
    pub amount: u64,
}

/// The rate per month: a twelfth of the annual rate.
pub open spec fn monthly_rate(eval: spec_fn(Operation, u64, u64) -> u64, annual_rate: u64) -> u64 {
    eval(Operation::Div, annual_rate, TWELVE)
}

/// The number of months as a binary64 number.
pub open spec fn term(eval: spec_fn(Operation, u64, u64) -> u64, months: usize) -> u64 {
    eval(Operation::FromCount, months as u64, ZERO)
}

/// The factor by which a balance left alone grows over the whole term:
/// one plus the monthly rate, raised to the number of months.
pub open spec fn growth(
    eval: spec_fn(Operation, u64, u64) -> u64,
    annual_rate: u64,
    months: usize,
) -> u64 {
    let base = eval(Operation::Add, ONE, monthly_rate(eval, annual_rate));
    eval(Operation::Pow, base, term(eval, months))
}

/// The constant monthly payment. With a monthly rate of zero it is the
/// principal spread evenly over the months; otherwise it is the annuity
/// formula `P * (i * g / (g - 1))`, with `i` the monthly rate and `g` the
/// growth factor.
pub open spec fn monthly_payment(
    eval: spec_fn(Operation, u64, u64) -> u64,
    principal: u64,
    annual_rate: u64,
    months: usize,
) -> u64 {
    let i = monthly_rate(eval, annual_rate);
    if is_zero(i) {
        eval(Operation::Div, principal, term(eval, months))
    } else {
        let g = growth(eval, annual_rate, months);
        let factor = eval(
            Operation::Div,
            eval(Operation::Mul, i, g),
            eval(Operation::Sub, g, ONE),
        );
        eval(Operation::Mul, principal, factor)
    }
}

/// The payment of month `month` on a balance of `start`, where `rate` is the
/// monthly rate and `installment` the constant monthly payment: the interest
/// is the rate times the balance, the principal part is the rest of the
/// installment, and the amount is the two added again.
pub open spec fn payment_on(
    eval: spec_fn(Operation, u64, u64) -> u64,
    rate: u64,
    installment: u64,
    month: usize,
    start: u64,
) -> Payment {
    let interest = eval(Operation::Mul, rate, start);
    let part = eval(Operation::Sub, installment, interest);
    Payment {
        month_index: month,
        start_principal: start,
        interests_part: interest,
        principal_part: part,
        amount: eval(Operation::Add, part, interest),
    }
}

/// The balance that a payment leaves: its starting balance less its
/// principal part.
pub open spec fn end_principal(eval: spec_fn(Operation, u64, u64) -> u64, payment: Payment) -> u64 {
    eval(Operation::Sub, payment.start_principal, payment.principal_part)
}

/// The balance at the start of month `month`: the principal for the first
/// month, and after that what the month before left.
pub open spec fn balance(
    eval: spec_fn(Operation, u64, u64) -> u64,
    principal: u64,
    rate: u64,
    installment: u64,
    month: nat,
) -> u64
    decreases month,
{
    if month == 0 {
        principal
    } else {
        let before = (month - 1) as nat;
        let owed = balance(eval, principal, rate, installment, before);
        end_principal(eval, payment_on(eval, rate, installment, before as usize, owed))
    }
}

/// The schedule of `months` payments on `principal`.
pub open spec fn schedule(
    eval: spec_fn(Operation, u64, u64) -> u64,
    principal: u64,
    rate: u64,
    installment: u64,
    months: usize,
) -> Seq<Payment> {
    Seq::new(
        months as nat,
        |k: int|
            payment_on(
                eval,
                rate,
                installment,
                k as usize,
                balance(eval, principal, rate, installment, k as nat),
            ),
    )
}

/// The interest of `payments` added up from zero, first payment first.
pub open spec fn interest_sum(
    eval: spec_fn(Operation, u64, u64) -> u64,
    payments: Seq<Payment>,
) -> u64
    decreases payments.len(),
{
    if payments.len() == 0 {
        ZERO
    } else {
        eval(
            Operation::Add,
            interest_sum(eval, payments.drop_last()),
            payments.last().interests_part,
        )
    }
}

/// Computes the monthly rate.
pub fn monthly_rate_of<F: Fn(Operation, u64, u64) -> u64>(eval: &F, annual_rate: u64) -> (r: u64)
    requires
        is_function(eval),
    ensures
        r == monthly_rate(table(eval), annual_rate),
{
    apply(eval, Operation::Div, annual_rate, TWELVE)
}

/// Computes the constant monthly payment.
pub fn monthly_payment_of<F: Fn(Operation, u64, u64) -> u64>(
    eval: &F,
    principal: u64,
    annual_rate: u64,
    months: usize,
) -> (r: u64)
    requires
        is_function(eval),
    ensures
        r == monthly_payment(table(eval), principal, annual_rate, months),
{
    let i = monthly_rate_of(eval, annual_rate);
    let n = apply(eval, Operation::FromCount, months as u64, ZERO);
    if zero(i) {
        apply(eval, Operation::Div, principal, n)
    } else {
        let base = apply(eval, Operation::Add, ONE, i);
        let grown = apply(eval, Operation::Pow, base, n);
        let interest = apply(eval, Operation::Mul, i, grown);
        let excess = apply(eval, Operation::Sub, grown, ONE);
        let factor = apply(eval, Operation::Div, interest, excess);
        apply(eval, Operation::Mul, principal, factor)
    }
}

/// Computes one month's payment on a balance of `start`.
pub fn pay<F: Fn(Operation, u64, u64) -> u64>(
    eval: &F,
    rate: u64,
    installment: u64,
    month: usize,
    start: u64,
) -> (r: Payment)
    requires
        is_function(eval),
    ensures
        r == payment_on(table(eval), rate, installment, month, start),
{
    let interests_part = apply(eval, Operation::Mul, rate, start);
    let principal_part = apply(eval, Operation::Sub, installment, interests_part);
    let amount = apply(eval, Operation::Add, principal_part, interests_part);
    Payment { month_index: month, start_principal: start, interests_part, principal_part, amount }
}

/// Computes the schedule: one payment per month, each starting on the
/// balance that the one before left.
pub fn amortize<F: Fn(Operation, u64, u64) -> u64>(
    eval: &F,
    principal: u64,
    rate: u64,
    installment: u64,
    months: usize,
) -> (r: Vec<Payment>)
    requires
        is_function(eval),
    ensures
        r@ == schedule(table(eval), principal, rate, installment, months),
{
    let mut payments: Vec<Payment> = Vec::new();
    let mut remaining = principal;
    let mut month: usize = 0;
    while month < months
        invariant
            is_function(eval),
            month <= months,
            payments@ == schedule(table(eval), principal, rate, installment, month),
            remaining == balance(table(eval), principal, rate, installment, month as nat),
        decreases months - month,
    {
        let payment = pay(eval, rate, installment, month, remaining);
        remaining = apply(eval, Operation::Sub, remaining, payment.principal_part);
        payments.push(payment);
        month = month + 1;
        assert(payments@ =~= schedule(table(eval), principal, rate, installment, month));
    }
    payments
}

/// Adds up the interest of `payments`, first payment first.
pub fn total_interests<F: Fn(Operation, u64, u64) -> u64>(eval: &F, payments: &Vec<Payment>) -> (r:
    u64)
    requires
        is_function(eval),
    ensures
        r == interest_sum(table(eval), payments@),
{
    let mut total = ZERO;
    let mut at: usize = 0;
    while at < payments.len()
        invariant
            is_function(eval),
            at <= payments.len(),
            total == interest_sum(table(eval), payments@.take(at as int)),
        decreases payments.len() - at,
    {
        assert(payments@.take(at + 1).drop_last() =~= payments@.take(at as int));
        total = apply(eval, Operation::Add, total, payments[at].interests_part);
        at = at + 1;
    }
    assert(payments@.take(at as int) =~= payments@);
    total
}

} // verus!
