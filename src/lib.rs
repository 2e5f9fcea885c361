//! An incremental arithmetic evaluator for a pocket calculator: a function
//! registry, a shunting-yard engine over a caller-supplied number domain, and
//! the input state machine that drives it one key at a time.

pub mod calculator;
pub mod context;
pub mod decimal;
pub mod error;
pub mod evaluator;
pub mod functions;
pub mod laws;
pub mod number;

pub use calculator::{Calculator, Feature};
pub use context::{Context, Stack};
pub use decimal::is_decimal;
pub use error::CalcError;
pub use evaluator::Evaluator;
pub use functions::{
    Add, CloseBracket, Cos, Div, FunctionLib, Functor, Inv, Mul, OpenBracket, Sin, Sqr, Sqrt, Sub,
    Tan,
};
pub use number::Number;
