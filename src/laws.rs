use vstd::prelude::*;

use crate::calculator::{
    CalcView, Feature, Shown, constant_lookup, delete_rel, evaluate_rel, exp_input_rel, feature_rel,
    is_operand_char, is_unary_name, no_change, replay_last_shown, shows,
};
use crate::context::apply;
use crate::decimal::is_decimal_text;
use crate::error::CalcError;
use crate::evaluator::{EvalView, drain, evaluation_result, put_functor_spec, put_spec, replay};
use crate::functions::{Functor, functor_of};
use crate::number::Number;

verus! {

/// Left to right: an operator of the same tier as the pending one applies the
/// pending one first, then takes its place and returns the value produced.
pub proof fn equal_tier_reduces_first<N: Number>(s: EvalView<N>, f: Functor)
    requires
        f != Functor::OpenBracket,
        f != Functor::CloseBracket,
        s.ops.len() > 0,
        s.ops.last() != Functor::OpenBracket,
        s.ops.last().spec_priority() == f.spec_priority(),
        s.error is None,
    ensures
        ({
            let (t, r) = put_functor_spec(s, f);
            let (vals, met) = apply(s.ops.last(), s.values);
            &&& t.values == vals
            &&& met is None ==> t.ops == s.ops.drop_last().push(f) && r == Ok::<
                Option<N>,
                CalcError,
            >(Some(vals.last()))
            &&& met matches Some(e) ==> t.ops == s.ops && r == Err::<Option<N>, CalcError>(e)
        }),
{
}

/// Precedence: an operator that binds tighter than the pending one waits on
/// top of it; nothing is applied yet.
pub proof fn tighter_tier_waits<N: Number>(s: EvalView<N>, f: Functor)
    requires
        f != Functor::CloseBracket,
        s.ops.len() > 0,
        f.spec_priority() < s.ops.last().spec_priority(),
    ensures
        put_functor_spec(s, f) == (EvalView { ops: s.ops.push(f), ..s }, Ok::<Option<N>, CalcError>(None)),
{
}

proof fn lemma_not_decimal(t: Seq<char>)
    requires
        t.len() == 1,
        !crate::decimal::is_digit(t[0]),
        t[0] != '.',
    ensures
        !is_decimal_text(t),
{
    assert(!crate::decimal::is_digits(t));
    assert(t.skip(1).len() == 0);
}

/// Left to right over values: `x - y + z` evaluates to `(x - y) + z`, for any
/// literals `x`, `y`, `z` that the number domain reads.
pub proof fn subtraction_then_addition<N: Number>(
    x: String,
    minus: String,
    y: String,
    plus: String,
    z: String,
)
    requires
        minus@ == seq!['-'],
        plus@ == seq!['+'],
        is_decimal_text(x@) && N::spec_parse(&x) is Some,
        is_decimal_text(y@) && N::spec_parse(&y) is Some,
        is_decimal_text(z@) && N::spec_parse(&z) is Some,
    ensures
        evaluation_result(drain(replay::<N>(seq![x, minus, y, plus, z]))) == Ok::<N, CalcError>(
            N::spec_sum(
                N::spec_difference(N::spec_parse(&x)->0, N::spec_parse(&y)->0),
                N::spec_parse(&z)->0,
            ),
        ),
{
    lemma_not_decimal(minus@);
    lemma_not_decimal(plus@);
    let ts = seq![x, minus, y, plus, z];
    assert(ts.take(1) =~= seq![x]);
    assert(seq![x].drop_last() =~= Seq::<String>::empty());
    assert(ts.take(2).drop_last() =~= ts.take(1));
    assert(ts.take(3).drop_last() =~= ts.take(2));
    assert(ts.take(4).drop_last() =~= ts.take(3));
    assert(ts.drop_last() =~= ts.take(4));
    assert(functor_of(minus@) == Some(Functor::Sub));
    assert(functor_of(plus@) == Some(Functor::Add));
    let s0 = replay::<N>(Seq::<String>::empty());
    let s1 = replay::<N>(ts.take(1));
    let s2 = replay::<N>(ts.take(2));
    let s3 = replay::<N>(ts.take(3));
    let s4 = replay::<N>(ts.take(4));
    let s5 = replay::<N>(ts);
    assert(s0 == crate::evaluator::empty_view::<N>());
    assert(s1 == put_spec(s0, x).0);
    assert(s1.values.len() == 1 && s1.ops.len() == 0);
    assert(s2 == put_spec(s1, minus).0);
    assert(s2.ops =~= seq![Functor::Sub]);
    assert(s3 == put_spec(s2, y).0);
    assert(s3.values.len() == 2);
    assert(s4 == put_spec(s3, plus).0);
    assert(s4.values.len() == 1);
    assert(s4.ops =~= seq![Functor::Add]);
    assert(s5 == put_spec(s4, z).0);
    assert(s5.values.len() == 2);
    let d = drain(s5);
    assert(drain(EvalView { ops: s5.ops.drop_last(), values: apply(Functor::Add, s5.values).0, error: None }) == d);
}

/// Precedence over values: `x + y * z` evaluates to `x + (y * z)`.
pub proof fn multiplication_before_addition<N: Number>(
    x: String,
    plus: String,
    y: String,
    times: String,
    z: String,
)
    requires
        plus@ == seq!['+'],
        times@ == seq!['*'],
        is_decimal_text(x@) && N::spec_parse(&x) is Some,
        is_decimal_text(y@) && N::spec_parse(&y) is Some,
        is_decimal_text(z@) && N::spec_parse(&z) is Some,
    ensures
        evaluation_result(drain(replay::<N>(seq![x, plus, y, times, z]))) == Ok::<N, CalcError>(
            N::spec_sum(
                N::spec_parse(&x)->0,
                N::spec_product(N::spec_parse(&y)->0, N::spec_parse(&z)->0),
            ),
        ),
{
    lemma_not_decimal(plus@);
    lemma_not_decimal(times@);
    let ts = seq![x, plus, y, times, z];
    assert(ts.take(1).drop_last() =~= Seq::<String>::empty());
    assert(ts.take(2).drop_last() =~= ts.take(1));
    assert(ts.take(3).drop_last() =~= ts.take(2));
    assert(ts.take(4).drop_last() =~= ts.take(3));
    assert(ts.drop_last() =~= ts.take(4));
    assert(functor_of(plus@) == Some(Functor::Add));
    assert(functor_of(times@) == Some(Functor::Mul));
    let s0 = replay::<N>(Seq::<String>::empty());
    let s1 = replay::<N>(ts.take(1));
    let s2 = replay::<N>(ts.take(2));
    let s3 = replay::<N>(ts.take(3));
    let s4 = replay::<N>(ts.take(4));
    let s5 = replay::<N>(ts);
    assert(s0 == crate::evaluator::empty_view::<N>());
    assert(s1 == put_spec(s0, x).0);
    assert(s2 == put_spec(s1, plus).0);
    assert(s2.ops =~= seq![Functor::Add]);
    assert(s3 == put_spec(s2, y).0);
    assert(s4 == put_spec(s3, times).0);
    assert(s4.ops =~= seq![Functor::Add, Functor::Mul]);
    assert(s5 == put_spec(s4, z).0);
    assert(s5.values.len() == 3);
    let m = EvalView { ops: s5.ops.drop_last(), values: apply(Functor::Mul, s5.values).0, error: None };
    assert(m.ops =~= seq![Functor::Add]);
    assert(drain(m) == drain(EvalView { ops: m.ops.drop_last(), values: apply(Functor::Add, m.values).0, error: None }));
}

/// Brackets over values: `( x + y ) * z` evaluates to `(x + y) * z`.
pub proof fn bracket_before_multiplication<N: Number>(
    open: String,
    x: String,
    plus: String,
    y: String,
    close: String,
    times: String,
    z: String,
)
    requires
        open@ == seq!['('],
        plus@ == seq!['+'],
        close@ == seq![')'],
        times@ == seq!['*'],
        is_decimal_text(x@) && N::spec_parse(&x) is Some,
        is_decimal_text(y@) && N::spec_parse(&y) is Some,
        is_decimal_text(z@) && N::spec_parse(&z) is Some,
    ensures
        evaluation_result(drain(replay::<N>(seq![open, x, plus, y, close, times, z]))) == Ok::<
            N,
            CalcError,
        >(
            N::spec_product(
                N::spec_sum(N::spec_parse(&x)->0, N::spec_parse(&y)->0),
                N::spec_parse(&z)->0,
            ),
        ),
{
    lemma_not_decimal(open@);
    lemma_not_decimal(plus@);
    lemma_not_decimal(close@);
    lemma_not_decimal(times@);
    let ts = seq![open, x, plus, y, close, times, z];
    assert(ts.take(1).drop_last() =~= Seq::<String>::empty());
    assert(ts.take(2).drop_last() =~= ts.take(1));
    assert(ts.take(3).drop_last() =~= ts.take(2));
    assert(ts.take(4).drop_last() =~= ts.take(3));
    assert(ts.take(5).drop_last() =~= ts.take(4));
    assert(ts.take(6).drop_last() =~= ts.take(5));
    assert(ts.drop_last() =~= ts.take(6));
    assert(functor_of(open@) == Some(Functor::OpenBracket));
    assert(functor_of(plus@) == Some(Functor::Add));
    assert(functor_of(close@) == Some(Functor::CloseBracket));
    assert(functor_of(times@) == Some(Functor::Mul));
    let s0 = replay::<N>(Seq::<String>::empty());
    let s1 = replay::<N>(ts.take(1));
    let s2 = replay::<N>(ts.take(2));
    let s3 = replay::<N>(ts.take(3));
    let s4 = replay::<N>(ts.take(4));
    let s5 = replay::<N>(ts.take(5));
    let s6 = replay::<N>(ts.take(6));
    let s7 = replay::<N>(ts);
    assert(s0 == crate::evaluator::empty_view::<N>());
    assert(s1 == put_spec(s0, open).0);
    assert(s1.ops =~= seq![Functor::OpenBracket]);
    assert(s2 == put_spec(s1, x).0);
    assert(s3 == put_spec(s2, plus).0);
    assert(s3.ops =~= seq![Functor::OpenBracket, Functor::Add]);
    assert(s4 == put_spec(s3, y).0);
    assert(s4.values.len() == 2);
    assert(s5 == put_spec(s4, close).0);
    let c = EvalView { ops: s4.ops.drop_last(), values: apply(Functor::Add, s4.values).0, error: None };
    assert(c.ops =~= seq![Functor::OpenBracket]);
    assert(crate::evaluator::close_spec(c) == (EvalView { ops: c.ops.drop_last(), ..c }, Ok::<Option<N>, CalcError>(crate::context::last_value(c.values))));
    assert(s5.ops.len() == 0);
    assert(s5.values.len() == 1);
    assert(s6 == put_spec(s5, times).0);
    assert(s6.ops =~= seq![Functor::Mul]);
    assert(s7 == put_spec(s6, z).0);
    assert(s7.values.len() == 2);
    assert(drain(s7) == drain(EvalView { ops: s7.ops.drop_last(), values: apply(Functor::Mul, s7.values).0, error: None }));
}

proof fn lemma_name_not_decimal(t: Seq<char>)
    requires
        t.len() > 0,
        !crate::decimal::is_digit(t[0]),
        !crate::decimal::is_sign(t[0]),
        forall|i: int| 0 <= i < t.len() ==> t[i] != '.',
    ensures
        !is_decimal_text(t),
{
    assert(!crate::decimal::is_digits(t));
}

/// Division by zero: `x / y` fails to evaluate when the number domain finds
/// `y` zero, and the error met is a division by zero.
pub proof fn division_by_zero_fails<N: Number>(x: String, slash: String, y: String)
    requires
        slash@ == seq!['/'],
        is_decimal_text(x@) && N::spec_parse(&x) is Some,
        is_decimal_text(y@) && N::spec_parse(&y) is Some,
        N::spec_is_zero(N::spec_parse(&y)->0),
    ensures
        evaluation_result(drain(replay::<N>(seq![x, slash, y]))) is Err,
        drain(replay::<N>(seq![x, slash, y])).error == Some(CalcError::DivideByZero),
{
    lemma_not_decimal(slash@);
    let ts = seq![x, slash, y];
    assert(ts.take(1).drop_last() =~= Seq::<String>::empty());
    assert(ts.take(2).drop_last() =~= ts.take(1));
    assert(ts.drop_last() =~= ts.take(2));
    assert(functor_of(slash@) == Some(Functor::Div));
    let s0 = replay::<N>(Seq::<String>::empty());
    let s1 = replay::<N>(ts.take(1));
    let s2 = replay::<N>(ts.take(2));
    let s3 = replay::<N>(ts);
    assert(s0 == crate::evaluator::empty_view::<N>());
    assert(s1 == put_spec(s0, x).0);
    assert(s2 == put_spec(s1, slash).0);
    assert(s2.ops =~= seq![Functor::Div]);
    assert(s3 == put_spec(s2, y).0);
    assert(s3.values.len() == 2);
    let d = EvalView { ops: s3.ops.drop_last(), values: apply(Functor::Div, s3.values).0, error: apply(Functor::Div, s3.values).1 };
    assert(drain(s3) == drain(d));
    assert(drain(d) == d);
}

/// After a successful `Evaluate`, a one-argument function starts a new
/// expression on its own: the result is not committed as its argument, and
/// the function waits for the operand typed next. (A constant registered under
/// the function's name would be entered instead.)
pub proof fn unary_after_result_waits_for_operand<N: Number>(
    s: CalcView<N>,
    t: CalcView<N>,
    u: CalcView<N>,
    name: String,
    x: Seq<char>,
    o: Shown,
)
    requires
        evaluate_rel(s, t, shows(x)),
        is_unary_name(name@),
        constant_lookup(s.constants, name@) is None,
        exp_input_rel(t, name, u, o),
    ensures
        u.tokens == seq![name],
        u.operand@.len() == 0,
        u.last_result@.len() == 0,
        o == no_change(),
{
    let n = name@;
    if n.len() == 1 {
        assert(n =~= seq![n[0]]);
    } else {
        assert(n.len() == 3);
        assert(n =~= seq![n[0], n[1], n[2]]);
    }
    assert(!is_operand_char(n));
    lemma_name_not_decimal(n);
    assert(t.tokens + seq![name] =~= seq![name]);
    assert(crate::evaluator::put_spec(t.eval, name).1 == Ok::<Option<N>, CalcError>(None));
}

/// Memory round trip: after `MemoryStore` of a decimal display, a `Clear`
/// and then `MemoryRecall` bring that display back as the operand, and show it.
pub proof fn memory_round_trip<N: Number>(
    s: CalcView<N>,
    t1: CalcView<N>,
    t2: CalcView<N>,
    t3: CalcView<N>,
    o1: Shown,
    o2: Shown,
    o3: Shown,
)
    requires
        is_decimal_text(s.last_immediate),
        feature_rel(s, Feature::MS, t1, o1),
        feature_rel(t1, Feature::C, t2, o2),
        feature_rel(t2, Feature::MR, t3, o3),
    ensures
        t3.operand@ == s.last_immediate,
        o3 == shows(s.last_immediate),
{
}

/// Rollback: an `Evaluate` that shows no change leaves the calculator exactly
/// as it was.
pub proof fn failed_evaluation_restores<N: Number>(s: CalcView<N>, t: CalcView<N>)
    requires
        evaluate_rel(s, t, no_change()),
    ensures
        t == s,
{
}

/// Backspace on a one-character operand after a one-character token: both
/// go, and the running value is derived again from the tokens before it.
pub proof fn backspace_drops_operand_and_operator<N: Number>(
    s: CalcView<N>,
    t: CalcView<N>,
    o: Shown,
)
    requires
        s.operand@.len() == 1,
        s.tokens.len() > 0,
        s.tokens.last()@.len() == 1,
        delete_rel(s, t, o),
    ensures
        t.tokens == s.tokens.drop_last(),
        t.operand@.len() == 0,
        o == replay_last_shown::<N>(s.tokens.drop_last()),
{
}

} // verus!
