use vstd::prelude::*;

use crate::error::CalcError;
use crate::functions::{
    Add, CloseBracket, Cos, Div, Functor, Inv, Mul, OpenBracket, Sin, Sqr, Sqrt, Sub, Tan,
    binary_result, unary_result,
};
use crate::number::Number;

verus! {

/// A stack of values; the top is the value pushed last.
pub struct Stack<N> {
    stack_buffer: Vec<N>,
}

impl<N> View for Stack<N> {
    type V = Seq<N>;

    closed spec fn view(&self) -> Seq<N> {
        self.stack_buffer@
    }
}

impl<N: Copy> Stack<N> {
    pub fn new() -> (r: Stack<N>)
        ensures
            r@ == Seq::<N>::empty(),
    {
        Stack { stack_buffer: Vec::new() }
    }

    pub fn push_val(&mut self, val: N)
        ensures
            final(self)@ == old(self)@.push(val),
    {
        self.stack_buffer.push(val);
    }

    /// Removes and returns the top value, if any.
    pub fn pop_val(&mut self) -> (r: Option<N>)
        ensures
            old(self)@.len() == 0 ==> r is None && final(self)@ == old(self)@,
            old(self)@.len() > 0 ==> r == Some(old(self)@.last()) && final(self)@
                == old(self)@.drop_last(),
    {
        self.stack_buffer.pop()
    }

    /// The top value, if any.
    pub fn top_val(&self) -> (r: Option<N>)
        ensures
            r == last_value(self@),
    {
        let n = self.stack_buffer.len();
        if n == 0 {
            None
        } else {
            Some(self.stack_buffer[n - 1])
        }
    }

    pub fn size(&self) -> (r: usize)
        ensures
            r == self@.len(),
    {
        self.stack_buffer.len()
    }
}

/// The top of a stack of values, if any.
pub open spec fn last_value<N>(vals: Seq<N>) -> Option<N> {
    if vals.len() > 0 {
        Some(vals.last())
    } else {
        None
    }
}

/// What one evaluation pass computes in: the value stack, and the first error
/// met, if any.
pub struct Context<N> {
    pub execution_stack: Stack<N>,
    pub error: Option<CalcError>,
}

impl<N: Copy> Context<N> {
    pub fn new() -> (r: Context<N>)
        ensures
            r.execution_stack@ == Seq::<N>::empty(),
            r.error is None,
    {
        Context { execution_stack: Stack::new(), error: None }
    }

    pub fn error_detected(&self) -> (r: bool)
        ensures
            r == self.error is Some,
    {
        self.error.is_some()
    }
}

/// Applying `f` to the value stack `vals` gives a new stack and the error
/// met, if any. A bracket is never applied: that is a mismatch. Too few
/// operands is a malformed expression, and nothing is popped. Otherwise the
/// operands are popped (the right one on top) and, on success, the result is
/// pushed; on an arithmetic error nothing is pushed.
pub open spec fn apply<N: Number>(f: Functor, vals: Seq<N>) -> (Seq<N>, Option<CalcError>) {
    let k = f.spec_arg_count() as int;
    if k == 0 {
        (vals, Some(CalcError::BracketMismatch))
    } else if vals.len() < k {
        (vals, Some(CalcError::MalformedExpression))
    } else {
        let rest = vals.subrange(0, vals.len() - k);
        let r = if k == 2 {
            binary_result(f, vals[vals.len() - 2], vals[vals.len() - 1])
        } else {
            unary_result(f, vals[vals.len() - 1])
        };
        match r {
            Ok(v) => (rest.push(v), None),
            Err(e) => (rest, Some(e)),
        }
    }
}

/// The error state after an application that met `met`: the first error
/// met stays.
pub open spec fn after_error(err: Option<CalcError>, met: Option<CalcError>) -> Option<CalcError> {
    if met is Some {
        met
    } else {
        err
    }
}

impl Functor {
    /// Applies a two-argument functor to `a` (left) and `b` (right).
    pub fn compute_binary<N: Number>(&self, a: N, b: N) -> (r: Result<N, CalcError>)
        requires
            self.spec_arg_count() == 2,
        ensures
            r == binary_result(*self, a, b),
    {
        match self {
            Functor::Add => Add.compute(a, b),
            Functor::Sub => Sub.compute(a, b),
            Functor::Mul => Mul.compute(a, b),
            _ => Div.compute(a, b),
        }
    }

    /// Applies a one-argument functor to `a`.
    pub fn compute_unary<N: Number>(&self, a: N) -> (r: Result<N, CalcError>)
        requires
            self.spec_arg_count() == 1,
        ensures
            r == unary_result(*self, a),
    {
        match self {
            Functor::Sin => Sin.compute(a),
            Functor::Cos => Cos.compute(a),
            Functor::Tan => Tan.compute(a),
            Functor::Sqrt => Sqrt.compute(a),
            Functor::Sqr => Sqr.compute(a),
            _ => Inv.compute(a),
        }
    }

    /// Applies this functor to the values on top of `ctx`'s stack.
    pub fn execute<N: Number>(&self, ctx: &mut Context<N>)
        ensures
            final(ctx).execution_stack@ == apply(*self, old(ctx).execution_stack@).0,
            final(ctx).error == after_error(old(ctx).error, apply(*self, old(ctx).execution_stack@).1),
    {
        match self {
            Functor::OpenBracket => {
                ctx.error = Some(OpenBracket.execute());
            },
            Functor::CloseBracket => {
                ctx.error = Some(CloseBracket.execute());
            },
            Functor::Add | Functor::Sub | Functor::Mul | Functor::Div => {
                execute_binary(*self, ctx);
            },
            _ => {
                execute_unary(*self, ctx);
            },
        }
    }
}

fn execute_unary<N: Number>(f: Functor, ctx: &mut Context<N>)
    requires
        f.spec_arg_count() == 1,
    ensures
        final(ctx).execution_stack@ == apply(f, old(ctx).execution_stack@).0,
        final(ctx).error == after_error(old(ctx).error, apply(f, old(ctx).execution_stack@).1),
{
    if ctx.execution_stack.size() < 1 {
        ctx.error = Some(CalcError::MalformedExpression);
        return ;
    }
    let ghost vals = ctx.execution_stack@;
    let a = ctx.execution_stack.pop_val().unwrap();
    proof {
        assert(vals.subrange(0, vals.len() - 1) =~= vals.drop_last());
    }
    match f.compute_unary(a) {
        Ok(v) => {
            ctx.execution_stack.push_val(v);
            assert(ctx.execution_stack@ =~= vals.subrange(0, vals.len() - 1).push(v));
        },
        Err(e) => {
            ctx.error = Some(e);
        },
    }
}

fn execute_binary<N: Number>(f: Functor, ctx: &mut Context<N>)
    requires
        f.spec_arg_count() == 2,
    ensures
        final(ctx).execution_stack@ == apply(f, old(ctx).execution_stack@).0,
        final(ctx).error == after_error(old(ctx).error, apply(f, old(ctx).execution_stack@).1),
{
    if ctx.execution_stack.size() < 2 {
        ctx.error = Some(CalcError::MalformedExpression);
        return ;
    }
    let ghost vals = ctx.execution_stack@;
    let b = ctx.execution_stack.pop_val().unwrap();
    let a = ctx.execution_stack.pop_val().unwrap();
    proof {
        assert(vals.subrange(0, vals.len() - 2) =~= vals.drop_last().drop_last());
    }
    match f.compute_binary(a, b) {
        Ok(v) => {
            ctx.execution_stack.push_val(v);
            assert(ctx.execution_stack@ =~= vals.subrange(0, vals.len() - 2).push(v));
        },
        Err(e) => {
            ctx.error = Some(e);
        },
    }
}

} // verus!
