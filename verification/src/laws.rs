//! What holds of every builder and every loan built from one.

use vstd::prelude::*;
use crate::arithmetic::Operation;
use crate::binary64::{is_below_zero, is_fraction};
use crate::loan::{Loan, LoanBuilder, LoanBuilderError};
use crate::schedule::{end_principal, interest_sum};

verus! {

/// The three setters applied in turn to the empty builder, stopping at the
/// first error.
pub open spec fn staged(principal: u64, annual_rate: u64, months: usize) -> Result<
    LoanBuilder,
    LoanBuilderError,
> {
    match LoanBuilder::empty().set_principal(principal) {
        Err(e) => Err(e),
        Ok(first) => match first.set_annual_rate(annual_rate) {
            Err(e) => Err(e),
            Ok(second) => second.set_duration_in_months(months),
        },
    }
}

/// A principal that is not below zero, a rate from zero to one and a
/// duration of at least one month pass all three setters, and the builder
/// they leave is valid and holds exactly these parameters.
pub proof fn valid_values_are_accepted(principal: u64, annual_rate: u64, months: usize)
    requires
        !is_below_zero(principal),
        is_fraction(annual_rate),
        months >= 1,
    ensures
        staged(principal, annual_rate, months) is Ok,
        staged(principal, annual_rate, months)->Ok_0.valid(),
        staged(principal, annual_rate, months)->Ok_0.parameters() == Ok::<
            (u64, u64, usize),
            LoanBuilderError,
        >((principal, annual_rate, months)),
{
}

/// Valid values always build: with a principal that is not below zero, a
/// rate from zero to one and at least one month, the builder that the three
/// setters leave builds a loan, of exactly `months` payments, numbered from
/// zero upwards in the order in which they stand.
pub proof fn valid_values_build(
    eval: spec_fn(Operation, u64, u64) -> u64,
    principal: u64,
    annual_rate: u64,
    months: usize,
    result: Result<Loan, LoanBuilderError>,
)
    requires
        !is_below_zero(principal),
        is_fraction(annual_rate),
        months >= 1,
        staged(principal, annual_rate, months) matches Ok(builder) ==> builder.builds(
            eval,
            result,
        ),
    ensures
        staged(principal, annual_rate, months) is Ok,
        result is Ok,
        result->Ok_0.well_formed(eval),
        result->Ok_0.payments@.len() == months,
        forall|k: int|
            0 <= k < months ==> (#[trigger] result->Ok_0.payments@[k]).month_index == k,
{
}

/// A builder with all three fields set builds a loan of exactly as many
/// payments as it has months, and the payments are numbered from zero
/// upwards in the order in which they stand.
pub proof fn built_schedule_is_ordered(
    eval: spec_fn(Operation, u64, u64) -> u64,
    builder: LoanBuilder,
    result: Result<Loan, LoanBuilderError>,
)
    requires
        builder.parameters() is Ok,
        builder.builds(eval, result),
    ensures
        result is Ok,
        result->Ok_0.payments@.len() == builder.duration_in_months->Some_0,
        forall|k: int|
            0 <= k < result->Ok_0.payments@.len() ==> (
            #[trigger] result->Ok_0.payments@[k]).month_index == k,
{
}

/// A principal below zero, a rate outside zero to one, or a duration under
/// one month is refused by its setter with the error that carries the value,
/// whatever the builder held; so no builder, and no loan, comes of it.
pub proof fn invalid_values_are_refused(
    builder: LoanBuilder,
    principal: u64,
    annual_rate: u64,
    months: usize,
)
    ensures
        is_below_zero(principal) ==> builder.set_principal(principal) == Err::<
            LoanBuilder,
            LoanBuilderError,
        >(LoanBuilderError::InvalidPrincipal(principal)),
        !is_fraction(annual_rate) ==> builder.set_annual_rate(annual_rate) == Err::<
            LoanBuilder,
            LoanBuilderError,
        >(LoanBuilderError::InvalidAnnualRate(annual_rate)),
        months < 1 ==> builder.set_duration_in_months(months) == Err::<
            LoanBuilder,
            LoanBuilderError,
        >(LoanBuilderError::InvalidDuration(months)),
        is_below_zero(principal) || !is_fraction(annual_rate) || months < 1 ==> staged(
            principal,
            annual_rate,
            months,
        ) is Err,
{
}

/// A valid builder never builds an invalid loan: what it builds has a
/// principal that is not below zero, a rate from zero to one and at least one
/// month.
pub proof fn valid_builder_builds_valid_loan(
    eval: spec_fn(Operation, u64, u64) -> u64,
    builder: LoanBuilder,
    result: Result<Loan, LoanBuilderError>,
)
    requires
        builder.valid(),
        builder.builds(eval, result),
        result is Ok,
    ensures
        result->Ok_0.well_formed(eval),
{
}

/// In a built loan the first payment starts on the principal, and every
/// later payment starts on the balance that the payment before it left: its
/// starting balance less its principal part, in the evaluator's subtraction.
pub proof fn balances_chain(
    eval: spec_fn(Operation, u64, u64) -> u64,
    loan: Loan,
    principal: u64,
    annual_rate: u64,
    months: usize,
)
    requires
        loan.is_loan_of(eval, principal, annual_rate, months),
    ensures
        months >= 1 ==> loan.payments@[0].start_principal == principal,
        forall|k: int|
            0 <= k && k + 1 < loan.payments@.len() ==> (#[trigger] loan.payments@[k
                + 1]).start_principal == end_principal(eval, loan.payments@[k]),
{
}

/// In a built loan every payment's amount is its principal part plus its
/// interest, in the evaluator's addition.
pub proof fn amount_is_principal_plus_interest(
    eval: spec_fn(Operation, u64, u64) -> u64,
    loan: Loan,
    principal: u64,
    annual_rate: u64,
    months: usize,
)
    requires
        loan.is_loan_of(eval, principal, annual_rate, months),
    ensures
        forall|k: int|
            0 <= k < loan.payments@.len() ==> (#[trigger] loan.payments@[k]).amount == eval(Operation::Add,
                loan.payments@[k].principal_part,
                loan.payments@[k].interests_part,
            ),
{
}

/// The total interest of a built loan is the interest of its payments added
/// up from zero, first payment first.
pub proof fn total_is_sum_of_interests(
    eval: spec_fn(Operation, u64, u64) -> u64,
    loan: Loan,
    principal: u64,
    annual_rate: u64,
    months: usize,
)
    requires
        loan.is_loan_of(eval, principal, annual_rate, months),
    ensures
        loan.total_paid_interests == interest_sum(eval, loan.payments@),
{
}

/// Building twice from the same builder under the same evaluator gives the
/// same outcome: the same error, or loans with the same parameters, the same
/// payments and the same total.
pub proof fn build_is_repeatable(
    eval: spec_fn(Operation, u64, u64) -> u64,
    builder: LoanBuilder,
    first: Result<Loan, LoanBuilderError>,
    second: Result<Loan, LoanBuilderError>,
)
    requires
        builder.builds(eval, first),
        builder.builds(eval, second),
    ensures
        first is Ok <==> second is Ok,
        first is Err ==> first->Err_0 == second->Err_0,
        first is Ok ==> {
            &&& first->Ok_0.principal == second->Ok_0.principal
            &&& first->Ok_0.annual_rate == second->Ok_0.annual_rate
            &&& first->Ok_0.duration_in_months == second->Ok_0.duration_in_months
            &&& first->Ok_0.payments@ == second->Ok_0.payments@
            &&& first->Ok_0.total_paid_interests == second->Ok_0.total_paid_interests
        },
{
}

} // verus!
