//! Loans and the builder that validates their parameters.
//!
//! A builder starts with no field set. Each setter checks its value at once
//! and hands back a new builder or the error; `build` asks for all three
//! fields and computes the schedule. A field that was never set is an error
//! at `build`: nothing is defaulted.

use vstd::prelude::*;
use crate::arithmetic::{is_function, table, Operation};
use crate::binary64::{below_zero, fraction, is_below_zero, is_fraction};
use crate::schedule::{
    amortize, interest_sum, monthly_payment, monthly_payment_of, monthly_rate, monthly_rate_of,
    schedule, total_interests, Payment,
};

verus! {

/// Why a builder refused a value, or could not build.
#[derive(Clone, Copy, Debug, PartialEq, Eq, Structural)]
pub enum LoanBuilderError {
    /// The principal is a number below zero.
    InvalidPrincipal(u64),
    /// The annual rate is not a number from zero to one.
    InvalidAnnualRate(u64),
    /// The duration is less than one month.
    InvalidDuration(usize),
    /// No principal was set.
    MissingPrincipal,
    /// No annual rate was set.
    MissingAnnualRate,
    /// No duration was set.
    MissingDuration,
}

/// The three parameters of a loan, each set or not yet set. A builder is
/// used up by each setter and by `build`.
#[derive(Debug, PartialEq, Eq, Structural)]
pub struct LoanBuilder {
    /// The amount lent, as a binary64 pattern.
    pub principal: Option<u64>,
    /// The yearly rate as a fraction (0.06 is six percent), as a binary64
    /// pattern.
    pub annual_rate: Option<u64>,
    /// The term in months.
    pub duration_in_months: Option<usize>,
}

/// A loan with its computed schedule.
#[derive(Clone, Debug, PartialEq, Eq)]
pub struct Loan {
    /// The amount lent.
    pub principal: u64,
    /// The yearly rate as a fraction.
    pub annual_rate: u64,
    /// The term in months.
    pub duration_in_months: usize,
    /// One payment per month, first month first.
    pub payments: Vec<Payment>,
    /// The interest of all payments together.
    pub total_paid_interests: u64,
}

impl LoanBuilder {
    /// The builder with no field set.
    pub open spec fn empty() -> LoanBuilder {
        LoanBuilder { principal: None, annual_rate: None, duration_in_months: None }
    }

    /// Whether every field that is set holds a value that its setter accepts.
    pub open spec fn valid(self) -> bool {
        &&& self.principal matches Some(p) ==> !is_below_zero(p)
        &&& self.annual_rate matches Some(r) ==> is_fraction(r)
        &&& self.duration_in_months matches Some(n) ==> n >= 1
    }

    /// What `with_principal` returns.
    pub open spec fn set_principal(self, principal: u64) -> Result<LoanBuilder, LoanBuilderError> {
        if is_below_zero(principal) {
            Err(LoanBuilderError::InvalidPrincipal(principal))
        } else {
            Ok(
                LoanBuilder {
                    principal: Some(principal),
                    annual_rate: self.annual_rate,
                    duration_in_months: self.duration_in_months,
                },
            )
        }
    }

    /// What `with_annual_rate` returns.
    pub open spec fn set_annual_rate(self, annual_rate: u64) -> Result<
        LoanBuilder,
        LoanBuilderError,
    > {
        if is_fraction(annual_rate) {
            Ok(
                LoanBuilder {
                    principal: self.principal,
                    annual_rate: Some(annual_rate),
                    duration_in_months: self.duration_in_months,
                },
            )
        } else {
            Err(LoanBuilderError::InvalidAnnualRate(annual_rate))
        }
    }

    /// What `with_duration_in_months` returns.
    pub open spec fn set_duration_in_months(self, duration_in_months: usize) -> Result<
        LoanBuilder,
        LoanBuilderError,
    > {
        if duration_in_months < 1 {
            Err(LoanBuilderError::InvalidDuration(duration_in_months))
        } else {
            Ok(
                LoanBuilder {
                    principal: self.principal,
                    annual_rate: self.annual_rate,
                    duration_in_months: Some(duration_in_months),
                },
            )
        }
    }

    /// The parameters that `build` computes on, or the error for the first
    /// field that is not set: principal, then annual rate, then duration.
    pub open spec fn parameters(self) -> Result<(u64, u64, usize), LoanBuilderError> {
        match (self.principal, self.annual_rate, self.duration_in_months) {
            (None, _, _) => Err(LoanBuilderError::MissingPrincipal),
            (Some(_), None, _) => Err(LoanBuilderError::MissingAnnualRate),
            (Some(_), Some(_), None) => Err(LoanBuilderError::MissingDuration),
            (Some(p), Some(r), Some(n)) => Ok((p, r, n)),
        }
    }

    /// Whether `result` is what `build` owes for this builder under `eval`.
    pub open spec fn builds(
        self,
        eval: spec_fn(Operation, u64, u64) -> u64,
        result: Result<Loan, LoanBuilderError>,
    ) -> bool {
        match self.parameters() {
            Ok((p, r, n)) => result is Ok && result->Ok_0.is_loan_of(eval, p, r, n),
            Err(e) => result == Err::<Loan, LoanBuilderError>(e),
        }
    }

    /// Sets the principal, unless it is a number below zero. Zero is
    /// accepted.
    pub fn with_principal(self, principal: u64) -> (r: Result<LoanBuilder, LoanBuilderError>)
        ensures
            r == self.set_principal(principal),
            self.valid() && r is Ok ==> r->Ok_0.valid(),
    {
        if below_zero(principal) {
            return Err(LoanBuilderError::InvalidPrincipal(principal));
        }
        Ok(
            LoanBuilder {
                principal: Some(principal),
                annual_rate: self.annual_rate,
                duration_in_months: self.duration_in_months,
            },
        )
    }

    /// Sets the annual rate, unless it is outside zero to one. Both bounds
    /// are accepted. The rate is a fraction, not a percentage.
    pub fn with_annual_rate(self, annual_rate: u64) -> (r: Result<LoanBuilder, LoanBuilderError>)
        ensures
            r == self.set_annual_rate(annual_rate),
            self.valid() && r is Ok ==> r->Ok_0.valid(),
    {
        if !fraction(annual_rate) {
            return Err(LoanBuilderError::InvalidAnnualRate(annual_rate));
        }
        Ok(
            LoanBuilder {
                principal: self.principal,
                annual_rate: Some(annual_rate),
                duration_in_months: self.duration_in_months,
            },
        )
    }

    /// Sets the duration, unless it is less than one month.
    pub fn with_duration_in_months(self, duration_in_months: usize) -> (r: Result<
        LoanBuilder,
        LoanBuilderError,
    >)
        ensures
            r == self.set_duration_in_months(duration_in_months),
            self.valid() && r is Ok ==> r->Ok_0.valid(),
    {
        if duration_in_months < 1 {
            return Err(LoanBuilderError::InvalidDuration(duration_in_months));
        }
        Ok(
            LoanBuilder {
                principal: self.principal,
                annual_rate: self.annual_rate,
                duration_in_months: Some(duration_in_months),
            },
        )
    }

    /// Computes the loan in the arithmetic of `eval`, or names the first
    /// field that was never set.
    pub fn build<F: Fn(Operation, u64, u64) -> u64>(self, eval: &F) -> (r: Result<
        Loan,
        LoanBuilderError,
    >)
        requires
            is_function(eval),
        ensures
            self.builds(table(eval), r),
            r is Ok <==> self.parameters() is Ok,
            self.valid() && r is Ok ==> r->Ok_0.well_formed(table(eval)),
    {
        let principal = match self.principal {
            Some(p) => p,
            None => {
                return Err(LoanBuilderError::MissingPrincipal);
            },
        };
        let annual_rate = match self.annual_rate {
            Some(r) => r,
            None => {
                return Err(LoanBuilderError::MissingAnnualRate);
            },
        };
        let duration_in_months = match self.duration_in_months {
            Some(n) => n,
            None => {
                return Err(LoanBuilderError::MissingDuration);
            },
        };
        let rate = monthly_rate_of(eval, annual_rate);
        let installment = monthly_payment_of(eval, principal, annual_rate, duration_in_months);
        let payments = amortize(eval, principal, rate, installment, duration_in_months);
        let total_paid_interests = total_interests(eval, &payments);
        Ok(Loan { principal, annual_rate, duration_in_months, payments, total_paid_interests })
    }
}

impl Default for LoanBuilder {
    fn default() -> (r: LoanBuilder)
        ensures
            r == LoanBuilder::empty(),
    {
        LoanBuilder { principal: None, annual_rate: None, duration_in_months: None }
    }
}

impl Loan {
    /// Whether this is the loan of `months` payments on `principal` at
    /// `annual_rate`, computed in the arithmetic of `eval`.
    pub open spec fn is_loan_of(
        self,
        eval: spec_fn(Operation, u64, u64) -> u64,
        principal: u64,
        annual_rate: u64,
        months: usize,
    ) -> bool {
        &&& self.principal == principal
        &&& self.annual_rate == annual_rate
        &&& self.duration_in_months == months
        &&& self.payments@ == schedule(
            eval,
            principal,
            monthly_rate(eval, annual_rate),
            monthly_payment(eval, principal, annual_rate, months),
            months,
        )
        &&& self.total_paid_interests == interest_sum(eval, self.payments@)
    }

    /// Whether the parameters are valid and the schedule and total are those
    /// of the parameters under `eval`.
    pub open spec fn well_formed(self, eval: spec_fn(Operation, u64, u64) -> u64) -> bool {
        &&& !is_below_zero(self.principal)
        &&& is_fraction(self.annual_rate)
        &&& self.duration_in_months >= 1
        &&& self.is_loan_of(eval, self.principal, self.annual_rate, self.duration_in_months)
    }

    /// A builder with no field set.
    pub fn builder() -> (r: LoanBuilder)
        ensures
            r == LoanBuilder::empty(),
            r.valid(),
    {
        LoanBuilder::default()
    }
}

} // verus!
