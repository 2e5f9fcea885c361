use vstd::prelude::*;

verus! {

/// What can go wrong while tokens are fed to the engine.
#[derive(Clone, Copy, Debug, PartialEq, Eq, Structural)]
pub enum CalcError {
    /// An empty token or input unit.
    EmptyToken,
    /// A name that the function registry does not know.
    UnknownFunction,
    /// A token that looks like a number but is not a decimal literal.
    InvalidOperandLiteral,
    /// A division by zero, or the reciprocal of zero.
    DivideByZero,
    /// The square root of a negative number.
    NegativeSqrt,
    /// Operators without their operands, or values left over at the end.
    MalformedExpression,
    /// A bracket reached as if it were an operation.
    BracketMismatch,
}

/// The message shown for each error.
pub open spec fn error_text(e: CalcError) -> Seq<char> {
    match e {
        CalcError::EmptyToken => "Empty token"@,
        CalcError::UnknownFunction => "No functor found"@,
        CalcError::InvalidOperandLiteral => "Invalid token"@,
        CalcError::DivideByZero => "Divide to zero"@,
        CalcError::NegativeSqrt => "Square root of negative number is undefined"@,
        CalcError::MalformedExpression => "Malformed expression"@,
        CalcError::BracketMismatch => "Bracket mismatch"@,
    }
}

impl CalcError {
    /// The message shown for this error.
    pub fn message(&self) -> (r: String)
        ensures
            r@ == error_text(*self),
    {
        match self {
            CalcError::EmptyToken => String::from_str("Empty token"),
            CalcError::UnknownFunction => String::from_str("No functor found"),
            CalcError::InvalidOperandLiteral => String::from_str("Invalid token"),
            CalcError::DivideByZero => String::from_str("Divide to zero"),
            CalcError::NegativeSqrt => String::from_str(
                "Square root of negative number is undefined",
            ),
            CalcError::MalformedExpression => String::from_str("Malformed expression"),
            CalcError::BracketMismatch => String::from_str("Bracket mismatch"),
        }
    }
}

} // verus!
