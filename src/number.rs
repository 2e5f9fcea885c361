use vstd::prelude::*;

verus! {

/// The number domain the engine computes in.
///
/// The engine decides which operation runs, on which operands and in which
/// order, and which outcomes are errors; an implementation supplies the
/// arithmetic (for a pocket calculator, double precision). Each operation is
/// named by a spec function, and its exec counterpart returns what that
/// function names. An implementation gives each spec function the same
/// definition as its exec counterpart: every operation is then a function of
/// its operands alone, which is what lets the engine rebuild an exact state by
/// replaying tokens.
pub trait Number: Sized + Copy {
    /// The value of a decimal literal, or `None` where it cannot be read.
    spec fn spec_parse(text: &String) -> Option<Self>;

    /// The text by which a value is displayed.
    spec fn spec_text(a: Self) -> String;

    spec fn spec_sum(a: Self, b: Self) -> Self;

    spec fn spec_difference(a: Self, b: Self) -> Self;

    spec fn spec_product(a: Self, b: Self) -> Self;

    spec fn spec_quotient(a: Self, b: Self) -> Self;

    spec fn spec_sine(a: Self) -> Self;

    spec fn spec_cosine(a: Self) -> Self;

    spec fn spec_tangent(a: Self) -> Self;

    spec fn spec_square_root(a: Self) -> Self;

    spec fn spec_reciprocal(a: Self) -> Self;

    spec fn spec_is_zero(a: Self) -> bool;

    spec fn spec_is_negative(a: Self) -> bool;

    fn parse(text: &String) -> (r: Option<Self>)
        ensures
            r == Self::spec_parse(text),
    ;

    fn to_text(&self) -> (r: String)
        ensures
            r == Self::spec_text(*self),
    ;

    fn sum(a: Self, b: Self) -> (r: Self)
        ensures
            r == Self::spec_sum(a, b),
    ;

    fn difference(a: Self, b: Self) -> (r: Self)
        ensures
            r == Self::spec_difference(a, b),
    ;

    fn product(a: Self, b: Self) -> (r: Self)
        ensures
            r == Self::spec_product(a, b),
    ;

    fn quotient(a: Self, b: Self) -> (r: Self)
        ensures
            r == Self::spec_quotient(a, b),
    ;

    /// Sine of an angle in radians.
    fn sine(a: Self) -> (r: Self)
        ensures
            r == Self::spec_sine(a),
    ;

    /// Cosine of an angle in radians.
    fn cosine(a: Self) -> (r: Self)
        ensures
            r == Self::spec_cosine(a),
    ;

    /// Tangent of an angle in radians.
    fn tangent(a: Self) -> (r: Self)
        ensures
            r == Self::spec_tangent(a),
    ;

    fn square_root(a: Self) -> (r: Self)
        ensures
            r == Self::spec_square_root(a),
    ;

    /// `1 / a`.
    fn reciprocal(a: Self) -> (r: Self)
        ensures
            r == Self::spec_reciprocal(a),
    ;

    fn is_zero(a: Self) -> (r: bool)
        ensures
            r == Self::spec_is_zero(a),
    ;

    fn is_negative(a: Self) -> (r: bool)
        ensures
            r == Self::spec_is_negative(a),
    ;
}

} // verus!
