//! Fixed-rate, fixed-term loan amortization.
//!
//! Amounts and rates are IEEE-754 binary64 numbers, held by their bit
//! patterns (`u64`). The library decides on those patterns with integer
//! comparisons only; the rounding arithmetic itself is performed by an
//! evaluator that the caller hands in, and every contract is stated in the
//! arithmetic of that evaluator.
//!
//! - `binary64`: what the rules read of a bit pattern (sign, zero, range).
//! - `arithmetic`: the operations asked of an evaluator.
//! - `schedule`: the monthly payment and the month-by-month schedule.
//! - `loan`: the builder that validates the parameters, and the loan.
//! - `laws`: what holds of every builder and every built loan.

pub mod arithmetic;
pub mod binary64;
pub mod laws;
pub mod loan;
pub mod schedule;

pub use arithmetic::Operation;
pub use loan::{Loan, LoanBuilder, LoanBuilderError};
pub use schedule::Payment;
