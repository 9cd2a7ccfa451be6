//! The arithmetic that a schedule is computed in.
//!
//! An evaluator is any function from an operation and two operands to a
//! result, all of them binary64 bit patterns. The library never rounds by
//! itself: it asks the evaluator, and states what it returns in terms of the
//! evaluator's own results.

use vstd::prelude::*;

verus! {

/// One step of arithmetic asked of an evaluator.
#[derive(Clone, Copy, Debug, PartialEq, Eq, Structural)]
pub enum Operation {
    /// First operand plus second.
    Add,
    /// First operand minus second.
    Sub,
    /// First operand times second.
    Mul,
    /// First operand divided by second.
    Div,
    /// First operand raised to the power of the second.
    Pow,
    /// The number nearest to the first operand read as an unsigned integer;
    /// the second operand is not read.
    FromCount,
}

/// The result of `op` on `a` and `b` under `eval`.
pub open spec fn outcome<F: Fn(Operation, u64, u64) -> u64>(
    eval: &F,
    op: Operation,
    a: u64,
    b: u64,
) -> u64 {
    choose|r: u64| call_ensures(eval, (op, a, b), r)
}

/// The function that `eval` computes.
pub open spec fn table<F: Fn(Operation, u64, u64) -> u64>(eval: &F) -> spec_fn(
    Operation,
    u64,
    u64,
) -> u64 {
    |op: Operation, a: u64, b: u64| outcome(eval, op, a, b)
}

/// Whether `eval` accepts every input and gives one result for each.
pub open spec fn is_function<F: Fn(Operation, u64, u64) -> u64>(eval: &F) -> bool {
    &&& forall|op: Operation, a: u64, b: u64| #[trigger] call_requires(eval, (op, a, b))
    &&& forall|op: Operation, a: u64, b: u64, r: u64| #[trigger]
        call_ensures(eval, (op, a, b), r) ==> r == outcome(eval, op, a, b)
}

/// Asks `eval` for one result.
pub fn apply<F: Fn(Operation, u64, u64) -> u64>(eval: &F, op: Operation, a: u64, b: u64) -> (r:
    u64)
    requires
        is_function(eval),
    ensures
        r == table(eval)(op, a, b),
{
    eval(op, a, b)
}

} // verus!
