//! From a menu choice and two operands to the outcome of one calculation.

use crate::arith::{difference, divide, multiply, product, subtract, sum, Quotient};
use crate::error::CalcError;
use crate::text::{choice_of, operand_of, parse_choice, parse_operand};
use vstd::prelude::*;

verus! {

/// The operation that a menu choice selects.
#[derive(Debug, Clone, Copy, PartialEq, Eq)]
pub enum Operation {
    Add,
    Subtract,
    Multiply,
    Divide,
    /// The choice names none of the four operations.
    Unrecognized,
}

/// What one calculation yields.
#[derive(Debug, Clone, Copy, PartialEq, Eq)]
pub enum Outcome {
    /// The result of an addition, a subtraction or a multiplication.
    Integer(i32),
    /// The result of a division.
    Quotient(Quotient),
    /// Nothing was computed, the choice being unrecognized.
    InvalidChoice,
}

/// The operation selected by `code`: 1 adds, 2 subtracts, 3 multiplies and
/// 4 divides; every other code, negative ones included, selects none.
pub open spec fn operation_of(code: i128) -> Operation {
    if code == 1 {
        Operation::Add
    } else if code == 2 {
        Operation::Subtract
    } else if code == 3 {
        Operation::Multiply
    } else if code == 4 {
        Operation::Divide
    } else {
        Operation::Unrecognized
    }
}

/// Whether `r` is what applying `op` to `x` and `y` yields.
///
/// The kind of the result is determined by the operation alone, but for a
/// division by zero, which yields no number at all.
pub open spec fn yields(op: Operation, x: i32, y: i32, r: Result<Outcome, CalcError>) -> bool {
    match op {
        Operation::Add => r == Ok::<Outcome, CalcError>(Outcome::Integer(sum(x, y))),
        Operation::Subtract => r == Ok::<Outcome, CalcError>(Outcome::Integer(difference(x, y))),
        Operation::Multiply => r == Ok::<Outcome, CalcError>(Outcome::Integer(product(x, y))),
        Operation::Divide => if y == 0 {
            r == Err::<Outcome, CalcError>(CalcError::DivisionByZero)
        } else {
            r matches Ok(Outcome::Quotient(q)) && q@ == (x as int, y as int)
        },
        Operation::Unrecognized => r == Ok::<Outcome, CalcError>(Outcome::InvalidChoice),
    }
}

impl Operation {
    /// Selects the operation that the menu lists under `code`.
    pub fn from_code(code: i128) -> (op: Operation)
        ensures
            op == operation_of(code),
    {
        match code {
            1 => Operation::Add,
            2 => Operation::Subtract,
            3 => Operation::Multiply,
            4 => Operation::Divide,
            _ => Operation::Unrecognized,
        }
    }

    /// Applies this operation to the operands `x` and `y`.
    ///
    /// Only a division by zero fails; an unrecognized operation computes
    /// nothing and says so in its outcome.
    pub fn apply(self, x: i32, y: i32) -> (r: Result<Outcome, CalcError>)
        ensures
            yields(self, x, y, r),
    {
        match self {
            Operation::Add => Ok(Outcome::Integer(crate::arith::add(x, y))),
            Operation::Subtract => Ok(Outcome::Integer(subtract(x, y))),
            Operation::Multiply => Ok(Outcome::Integer(multiply(x, y))),
            Operation::Divide => match divide(x, y) {
                Ok(q) => Ok(Outcome::Quotient(q)),
                Err(e) => Err(e),
            },
            Operation::Unrecognized => Ok(Outcome::InvalidChoice),
        }
    }
}

/// What an operation yields is determined by the operation and its
/// operands.
pub proof fn outcome_is_determined(
    op: Operation,
    x: i32,
    y: i32,
    r1: Result<Outcome, CalcError>,
    r2: Result<Outcome, CalcError>,
)
    requires
        yields(op, x, y, r1),
        yields(op, x, y, r2),
    ensures
        r1 == r2,
{
    if op is Divide && y != 0 {
        r1->Ok_0->Quotient_0.determined_by_view(r2->Ok_0->Quotient_0);
    }
}

/// The kind of a result follows from the operation: an integer for an
/// addition, a subtraction or a multiplication, a quotient for a division
/// by a nonzero divisor, and no number at all for a division by zero or
/// for an unrecognized operation.
pub proof fn kind_follows_operation(op: Operation, x: i32, y: i32, r: Result<Outcome, CalcError>)
    requires
        yields(op, x, y, r),
    ensures
        r matches Ok(Outcome::Integer(_)) <==> op is Add || op is Subtract || op is Multiply,
        r matches Ok(Outcome::Quotient(_)) <==> op is Divide && y != 0,
        r == Err::<Outcome, CalcError>(CalcError::DivisionByZero) <==> op is Divide && y == 0,
        r == Ok::<Outcome, CalcError>(Outcome::InvalidChoice) <==> op is Unrecognized,
{
}

/// Carries out the operation chosen by `code` on the operands `x` and `y`.
pub fn evaluate(x: i32, y: i32, code: i128) -> (r: Result<Outcome, CalcError>)
    ensures
        yields(operation_of(code), x, y, r),
{
    Operation::from_code(code).apply(x, y)
}

/// Runs one calculation on three lines of input: the two operands and the
/// menu choice.
///
/// All three lines must hold valid integers, whatever the choice is:
/// otherwise the run fails with [`CalcError::Parse`] and nothing is
/// computed. Then the chosen operation is carried out as [`evaluate`] does:
/// a choice that is an integer but none of 1 to 4 is no failure.
pub fn run(first: &str, second: &str, choice: &str) -> (r: Result<Outcome, CalcError>)
    ensures
        match (operand_of(first@), operand_of(second@), choice_of(choice@)) {
            (Some(x), Some(y), Some(code)) => yields(operation_of(code), x, y, r),
            _ => r == Err::<Outcome, CalcError>(CalcError::Parse),
        },
{
    let x: i32 = match parse_operand(first) {
        Ok(x) => x,
        Err(e) => {
            return Err(e);
        },
    };
    let y: i32 = match parse_operand(second) {
        Ok(y) => y,
        Err(e) => {
            return Err(e);
        },
    };
    let code: i128 = match parse_choice(choice) {
        Ok(code) => code,
        Err(e) => {
            return Err(e);
        },
    };
    evaluate(x, y, code)
}

} // verus!
