use vstd::prelude::*;

use crate::error::CalcError;
use crate::number::Number;

verus! {

/// The identifier of a registered function.
pub type FunctionId = usize;

pub const ID_ADD: FunctionId = 0;

pub const ID_SUB: FunctionId = 1;

pub const ID_MUL: FunctionId = 2;

pub const ID_DIV: FunctionId = 3;

pub const ID_SQRT: FunctionId = 6;

pub const ID_SIN: FunctionId = 9;

pub const ID_COS: FunctionId = 10;

pub const ID_TAN: FunctionId = 11;

pub const ID_OPEN_BRACKET: FunctionId = 13;

pub const ID_CLOSE_BRACKET: FunctionId = 14;

pub const ID_SQR: FunctionId = 15;

pub const ID_INV: FunctionId = 16;

/// Precedence tiers: a lower number binds tighter. A new operator reduces the
/// one on top of the stack when its own tier is not lower.
pub const PRIORITY_OPEN_BRACKET: i32 = 0;

pub const PRIORITY_USER_FUNCTION: i32 = 2;

pub const PRIORITY_UNARY_OP: i32 = 3;

pub const PRIORITY_MULTIPLICATIVE: i32 = 5;

pub const PRIORITY_ADDITIVE: i32 = 6;

pub const PRIORITY_CLOSE_BRACKET: i32 = 999;

/// The operators and functions the engine knows.
#[derive(Clone, Copy, Debug, PartialEq, Eq, Structural)]
pub enum Functor {
    OpenBracket,
    CloseBracket,
    Add,
    Sub,
    Mul,
    Div,
    Sin,
    Cos,
    Tan,
    Sqrt,
    Sqr,
    Inv,
}

impl Functor {
    pub open spec fn spec_priority(self) -> i32 {
        match self {
            Functor::OpenBracket => PRIORITY_OPEN_BRACKET,
            Functor::CloseBracket => PRIORITY_CLOSE_BRACKET,
            Functor::Add | Functor::Sub => PRIORITY_ADDITIVE,
            Functor::Mul | Functor::Div => PRIORITY_MULTIPLICATIVE,
            _ => PRIORITY_UNARY_OP,
        }
    }

    /// How many values an application takes: none for brackets, which are
    /// never applied.
    pub open spec fn spec_arg_count(self) -> i32 {
        match self {
            Functor::OpenBracket | Functor::CloseBracket => 0,
            Functor::Add | Functor::Sub | Functor::Mul | Functor::Div => 2,
            _ => 1,
        }
    }

    pub open spec fn spec_id(self) -> FunctionId {
        match self {
            Functor::OpenBracket => ID_OPEN_BRACKET,
            Functor::CloseBracket => ID_CLOSE_BRACKET,
            Functor::Add => ID_ADD,
            Functor::Sub => ID_SUB,
            Functor::Mul => ID_MUL,
            Functor::Div => ID_DIV,
            Functor::Sin => ID_SIN,
            Functor::Cos => ID_COS,
            Functor::Tan => ID_TAN,
            Functor::Sqrt => ID_SQRT,
            Functor::Sqr => ID_SQR,
            Functor::Inv => ID_INV,
        }
    }

    pub fn priority(&self) -> (r: i32)
        ensures
            r == self.spec_priority(),
    {
        match self {
            Functor::OpenBracket => PRIORITY_OPEN_BRACKET,
            Functor::CloseBracket => PRIORITY_CLOSE_BRACKET,
            Functor::Add | Functor::Sub => PRIORITY_ADDITIVE,
            Functor::Mul | Functor::Div => PRIORITY_MULTIPLICATIVE,
            _ => PRIORITY_UNARY_OP,
        }
    }

    pub fn arg_count(&self) -> (r: i32)
        ensures
            r == self.spec_arg_count(),
    {
        match self {
            Functor::OpenBracket | Functor::CloseBracket => 0,
            Functor::Add | Functor::Sub | Functor::Mul | Functor::Div => 2,
            _ => 1,
        }
    }

    pub fn id(&self) -> (r: FunctionId)
        ensures
            r == self.spec_id(),
    {
        match self {
            Functor::OpenBracket => ID_OPEN_BRACKET,
            Functor::CloseBracket => ID_CLOSE_BRACKET,
            Functor::Add => ID_ADD,
            Functor::Sub => ID_SUB,
            Functor::Mul => ID_MUL,
            Functor::Div => ID_DIV,
            Functor::Sin => ID_SIN,
            Functor::Cos => ID_COS,
            Functor::Tan => ID_TAN,
            Functor::Sqrt => ID_SQRT,
            Functor::Sqr => ID_SQR,
            Functor::Inv => ID_INV,
        }
    }
}

/// The result of a two-argument functor on `a` (left) and `b` (right).
pub open spec fn binary_result<N: Number>(f: Functor, a: N, b: N) -> Result<N, CalcError> {
    match f {
        Functor::Add => Ok(N::spec_sum(a, b)),
        Functor::Sub => Ok(N::spec_difference(a, b)),
        Functor::Mul => Ok(N::spec_product(a, b)),
        Functor::Div => if N::spec_is_zero(b) {
            Err(CalcError::DivideByZero)
        } else {
            Ok(N::spec_quotient(a, b))
        },
        _ => Err(CalcError::BracketMismatch),
    }
}

/// The result of a one-argument functor on `a`.
pub open spec fn unary_result<N: Number>(f: Functor, a: N) -> Result<N, CalcError> {
    match f {
        Functor::Sin => Ok(N::spec_sine(a)),
        Functor::Cos => Ok(N::spec_cosine(a)),
        Functor::Tan => Ok(N::spec_tangent(a)),
        Functor::Sqrt => if N::spec_is_negative(a) {
            Err(CalcError::NegativeSqrt)
        } else {
            Ok(N::spec_square_root(a))
        },
        Functor::Sqr => Ok(N::spec_product(a, a)),
        Functor::Inv => if N::spec_is_zero(a) {
            Err(CalcError::DivideByZero)
        } else {
            Ok(N::spec_reciprocal(a))
        },
        _ => Err(CalcError::BracketMismatch),
    }
}

/// The opening bracket: a barrier on the operator stack, never applied.
pub struct OpenBracket;

impl OpenBracket {
    /// Applying a bracket is a structural misuse.
    pub fn execute(&self) -> (r: CalcError)
        ensures
            r == CalcError::BracketMismatch,
    {
        CalcError::BracketMismatch
    }
}

/// The closing bracket: reduces back to its opening bracket, never applied.
pub struct CloseBracket;

impl CloseBracket {
    /// Applying a bracket is a structural misuse.
    pub fn execute(&self) -> (r: CalcError)
        ensures
            r == CalcError::BracketMismatch,
    {
        CalcError::BracketMismatch
    }
}

/// Addition, `a + b`.
pub struct Add;

impl Add {
    pub fn compute<N: Number>(&self, a: N, b: N) -> (r: Result<N, CalcError>)
        ensures
            r == binary_result(Functor::Add, a, b),
    {
        Ok(N::sum(a, b))
    }
}

/// Subtraction, `a - b`.
pub struct Sub;

impl Sub {
    pub fn compute<N: Number>(&self, a: N, b: N) -> (r: Result<N, CalcError>)
        ensures
            r == binary_result(Functor::Sub, a, b),
    {
        Ok(N::difference(a, b))
    }
}

/// Multiplication, `a * b`.
pub struct Mul;

impl Mul {
    pub fn compute<N: Number>(&self, a: N, b: N) -> (r: Result<N, CalcError>)
        ensures
            r == binary_result(Functor::Mul, a, b),
    {
        Ok(N::product(a, b))
    }
}

/// Division, `a / b`; a zero divisor is an error.
pub struct Div;

impl Div {
    pub fn compute<N: Number>(&self, a: N, b: N) -> (r: Result<N, CalcError>)
        ensures
            r == binary_result(Functor::Div, a, b),
    {
        if N::is_zero(b) {
            Err(CalcError::DivideByZero)
        } else {
            Ok(N::quotient(a, b))
        }
    }
}

/// Sine, in radians.
pub struct Sin;

impl Sin {
    pub fn compute<N: Number>(&self, a: N) -> (r: Result<N, CalcError>)
        ensures
            r == unary_result(Functor::Sin, a),
    {
        Ok(N::sine(a))
    }
}

/// Cosine, in radians.
pub struct Cos;

impl Cos {
    pub fn compute<N: Number>(&self, a: N) -> (r: Result<N, CalcError>)
        ensures
            r == unary_result(Functor::Cos, a),
    {
        Ok(N::cosine(a))
    }
}

/// Tangent, in radians.
pub struct Tan;

impl Tan {
    pub fn compute<N: Number>(&self, a: N) -> (r: Result<N, CalcError>)
        ensures
            r == unary_result(Functor::Tan, a),
    {
        Ok(N::tangent(a))
    }
}

/// Square root; a negative argument is an error.
pub struct Sqrt;

impl Sqrt {
    pub fn compute<N: Number>(&self, a: N) -> (r: Result<N, CalcError>)
        ensures
            r == unary_result(Functor::Sqrt, a),
    {
        if N::is_negative(a) {
            Err(CalcError::NegativeSqrt)
        } else {
            Ok(N::square_root(a))
        }
    }
}

/// Square, `a * a`.
pub struct Sqr;

impl Sqr {
    pub fn compute<N: Number>(&self, a: N) -> (r: Result<N, CalcError>)
        ensures
            r == unary_result(Functor::Sqr, a),
    {
        Ok(N::product(a, a))
    }
}

/// Reciprocal, `1 / a`; zero is an error.
pub struct Inv;

impl Inv {
    pub fn compute<N: Number>(&self, a: N) -> (r: Result<N, CalcError>)
        ensures
            r == unary_result(Functor::Inv, a),
    {
        if N::is_zero(a) {
            Err(CalcError::DivideByZero)
        } else {
            Ok(N::reciprocal(a))
        }
    }
}

/// The registry: which name stands for which functor.
pub open spec fn functor_of(name: Seq<char>) -> Option<Functor> {
    if name == seq!['+'] {
        Some(Functor::Add)
    } else if name == seq!['-'] {
        Some(Functor::Sub)
    } else if name == seq!['*'] {
        Some(Functor::Mul)
    } else if name == seq!['/'] {
        Some(Functor::Div)
    } else if name == seq!['s', 'i', 'n'] {
        Some(Functor::Sin)
    } else if name == seq!['c', 'o', 's'] {
        Some(Functor::Cos)
    } else if name == seq!['t', 'a', 'n'] {
        Some(Functor::Tan)
    } else if name == seq!['√'] {
        Some(Functor::Sqrt)
    } else if name == seq!['²'] {
        Some(Functor::Sqr)
    } else if name == seq!['⅟'] {
        Some(Functor::Inv)
    } else if name == seq!['('] {
        Some(Functor::OpenBracket)
    } else if name == seq![')'] {
        Some(Functor::CloseBracket)
    } else {
        None
    }
}

/// The fixed, read-only table of functions, looked up by name.
pub struct FunctionLib {}

impl FunctionLib {
    pub fn new() -> (r: FunctionLib) {
        FunctionLib {  }
    }

    /// The functor registered under `name`, if any.
    pub fn get_functor(&self, name: &String) -> (r: Option<Functor>)
        ensures
            r == functor_of(name@),
    {
        let s = name.as_str();
        let n = s.unicode_len();
        if n == 1 {
            let c = s.get_char(0);
            proof {
                assert(name@ =~= seq![c]);
            }
            match c {
                '+' => Some(Functor::Add),
                '-' => Some(Functor::Sub),
                '*' => Some(Functor::Mul),
                '/' => Some(Functor::Div),
                '√' => Some(Functor::Sqrt),
                '²' => Some(Functor::Sqr),
                '⅟' => Some(Functor::Inv),
                '(' => Some(Functor::OpenBracket),
                ')' => Some(Functor::CloseBracket),
                _ => None,
            }
        } else if n == 3 {
            let c0 = s.get_char(0);
            let c1 = s.get_char(1);
            let c2 = s.get_char(2);
            proof {
                assert(name@ =~= seq![c0, c1, c2]);
            }
            if c0 == 's' && c1 == 'i' && c2 == 'n' {
                Some(Functor::Sin)
            } else if c0 == 'c' && c1 == 'o' && c2 == 's' {
                Some(Functor::Cos)
            } else if c0 == 't' && c1 == 'a' && c2 == 'n' {
                Some(Functor::Tan)
            } else {
                None
            }
        } else {
            None
        }
    }
}

} // verus!
