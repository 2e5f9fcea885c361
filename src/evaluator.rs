use vstd::prelude::*;

use crate::context::{Context, after_error, apply, last_value};
use crate::decimal::{is_decimal, is_decimal_text, is_digit};
use crate::error::CalcError;
use crate::functions::{FunctionLib, Functor, functor_of};
use crate::number::Number;

verus! {

/// The state of an evaluator: pending operators (top last), the value stack
/// (top last), and the first error met in this pass.
pub struct EvalView<N> {
    pub ops: Seq<Functor>,
    pub values: Seq<N>,
    pub error: Option<CalcError>,
}

/// The state of a fresh evaluator.
pub open spec fn empty_view<N>() -> EvalView<N> {
    EvalView { ops: Seq::empty(), values: Seq::empty(), error: None }
}

/// A new functor goes on the stack without reducing anything: on an empty
/// stack, as an opening bracket, above an opening bracket (a barrier), or when
/// it binds tighter than the top.
pub open spec fn pushes_without_reduction(ops: Seq<Functor>, f: Functor) -> bool {
    ||| ops.len() == 0
    ||| f == Functor::OpenBracket
    ||| ops.last() == Functor::OpenBracket
    ||| f.spec_priority() < ops.last().spec_priority()
}

/// What feeding a token gives: a value, nothing new, or an error.
pub type PutResult<N> = Result<Option<N>, CalcError>;

/// A closing bracket reduces the operators above its opening bracket one at a
/// time, top first, then discards both brackets and returns the top value;
/// without an opening bracket it reduces everything and stays on the stack,
/// where evaluation finds it. The first failing reduction stops it, with the
/// failing operator left in place and the error recorded.
pub open spec fn close_spec<N: Number>(s: EvalView<N>) -> (EvalView<N>, PutResult<N>)
    decreases s.ops.len(),
{
    if s.ops.len() == 0 {
        (EvalView { ops: seq![Functor::CloseBracket], ..s }, Ok(last_value(s.values)))
    } else if s.ops.last() == Functor::OpenBracket {
        (EvalView { ops: s.ops.drop_last(), ..s }, Ok(last_value(s.values)))
    } else if s.error is Some {
        (s, Err(s.error->0))
    } else {
        let (vals, met) = apply(s.ops.last(), s.values);
        match met {
            Some(e) => (EvalView { values: vals, error: met, ..s }, Err(e)),
            None => close_spec(EvalView { ops: s.ops.drop_last(), values: vals, error: None }),
        }
    }
}

/// Feeding functor `f` to state `s`. A closing bracket on an empty stack, like
/// any functor there, is pushed. Apart from the closing bracket, at most one
/// reduction happens: when `f` does not bind tighter than the top, the top is
/// applied, then replaced by `f`, and the new top value is returned. Operators
/// of equal tier thus reduce left to right. A failing reduction leaves the
/// operators as they were and records the error.
pub open spec fn put_functor_spec<N: Number>(s: EvalView<N>, f: Functor) -> (EvalView<N>, PutResult<N>) {
    if pushes_without_reduction(s.ops, f) && (f != Functor::CloseBracket || s.ops.len() == 0) {
        (EvalView { ops: s.ops.push(f), ..s }, Ok(None))
    } else if f == Functor::CloseBracket {
        close_spec(s)
    } else if s.error is Some {
        (s, Err(s.error->0))
    } else {
        let (vals, met) = apply(s.ops.last(), s.values);
        match met {
            Some(e) => (EvalView { values: vals, error: met, ..s }, Err(e)),
            None => (
                EvalView { ops: s.ops.drop_last().push(f), values: vals, error: None },
                Ok(Some(vals.last())),
            ),
        }
    }
}

/// Feeding `token` to state `s`: a decimal literal pushes its value; a
/// registered name goes through the operator rules.
pub open spec fn put_spec<N: Number>(s: EvalView<N>, token: String) -> (EvalView<N>, PutResult<N>) {
    let t = token@;
    if t.len() == 0 {
        (s, Err(CalcError::EmptyToken))
    } else if is_decimal_text(t) {
        match N::spec_parse(&token) {
            Some(v) => (EvalView { values: s.values.push(v), ..s }, Ok(Some(v))),
            None => (s, Err(CalcError::InvalidOperandLiteral)),
        }
    } else if is_digit(t[0]) {
        (s, Err(CalcError::InvalidOperandLiteral))
    } else {
        match functor_of(t) {
            None => (s, Err(CalcError::UnknownFunction)),
            Some(f) => put_functor_spec(s, f),
        }
    }
}

/// Evaluation applies the pending operators top first until none is left or
/// one fails.
pub open spec fn drain<N: Number>(s: EvalView<N>) -> EvalView<N>
    decreases s.ops.len(),
{
    if s.ops.len() == 0 || s.error is Some {
        s
    } else {
        let (vals, met) = apply(s.ops.last(), s.values);
        drain(EvalView { ops: s.ops.drop_last(), values: vals, error: met })
    }
}

/// What evaluation returns from its final state: the sole value, when no error
/// was met and exactly one value is left.
pub open spec fn evaluation_result<N>(t: EvalView<N>) -> Result<N, CalcError> {
    if t.error is None && t.values.len() == 1 {
        Ok(t.values[0])
    } else {
        Err(CalcError::MalformedExpression)
    }
}

/// The state that feeding `ts` in order to a fresh evaluator gives.
pub open spec fn replay<N: Number>(ts: Seq<String>) -> EvalView<N>
    decreases ts.len(),
{
    if ts.len() == 0 {
        empty_view()
    } else {
        put_spec(replay::<N>(ts.drop_last()), ts.last()).0
    }
}

/// The last value that a token produced while `ts` was fed, if any did.
pub open spec fn replay_last<N: Number>(ts: Seq<String>) -> Option<N>
    decreases ts.len(),
{
    if ts.len() == 0 {
        None
    } else {
        match put_spec(replay::<N>(ts.drop_last()), ts.last()).1 {
            Ok(Some(v)) => Some(v),
            _ => replay_last::<N>(ts.drop_last()),
        }
    }
}

/// The shunting-yard engine: pending operators and an execution context.
pub struct Evaluator<N> {
    pub excution_context: Context<N>,
    op_stack: Vec<Functor>,
}

impl<N> View for Evaluator<N> {
    type V = EvalView<N>;

    closed spec fn view(&self) -> EvalView<N> {
        EvalView {
            ops: self.op_stack@,
            values: self.excution_context.execution_stack@,
            error: self.excution_context.error,
        }
    }
}

impl<N: Number> Evaluator<N> {
    pub fn new() -> (r: Evaluator<N>)
        ensures
            r@ == empty_view::<N>(),
    {
        Evaluator { excution_context: Context::new(), op_stack: Vec::new() }
    }

    /// The number of pending operators.
    pub fn op_size(&self) -> (r: usize)
        ensures
            r == self@.ops.len(),
    {
        self.op_stack.len()
    }

    /// The value on top of the value stack, if any.
    pub fn top_value(&self) -> (r: Option<N>)
        ensures
            r == last_value(self@.values),
    {
        self.excution_context.execution_stack.top_val()
    }

    /// Applies the pending operators, top first, and returns the sole value
    /// left; anything else is a malformed expression.
    pub fn evaluate(&mut self) -> (r: Result<N, CalcError>)
        ensures
            final(self)@ == drain(old(self)@),
            r == evaluation_result(final(self)@),
    {
        let ghost start = self@;
        while self.op_stack.len() > 0 && self.excution_context.error.is_none()
            invariant
                drain(self@) == drain(start),
            decreases self.op_stack@.len(),
        {
            let top = self.op_stack.pop().unwrap();
            top.execute(&mut self.excution_context);
        }
        let size = self.excution_context.execution_stack.size();
        if size != 1 || self.excution_context.error.is_some() {
            return Err(CalcError::MalformedExpression);
        }
        Ok(self.excution_context.execution_stack.top_val().unwrap())
    }

    /// Feeds one token: a decimal literal goes on the value stack; a
    /// registered name goes through the operator rules.
    pub fn put_token(&mut self, token: &String) -> (r: Result<Option<N>, CalcError>)
        ensures
            (final(self)@, r) == put_spec(old(self)@, *token),
    {
        let text = token.as_str();
        if text.unicode_len() == 0 {
            return Err(CalcError::EmptyToken);
        }
        if is_decimal(text) {
            return match N::parse(token) {
                None => Err(CalcError::InvalidOperandLiteral),
                Some(v) => {
                    self.excution_context.execution_stack.push_val(v);
                    Ok(Some(v))
                },
            };
        }
        let c = text.get_char(0);
        if '0' <= c && c <= '9' {
            // a function name never starts with a digit
            return Err(CalcError::InvalidOperandLiteral);
        }
        match FunctionLib::new().get_functor(token) {
            None => Err(CalcError::UnknownFunction),
            Some(f) => self.put_functor(f),
        }
    }

    fn put_functor(&mut self, f: Functor) -> (r: Result<Option<N>, CalcError>)
        ensures
            (final(self)@, r) == put_functor_spec(old(self)@, f),
    {
        let n = self.op_stack.len();
        if n == 0 {
            self.op_stack.push(f);
            return Ok(None);
        }
        if f == Functor::CloseBracket {
            return self.close_bracket();
        }
        let top = self.op_stack[n - 1];
        if f == Functor::OpenBracket || top == Functor::OpenBracket || f.priority()
            < top.priority() {
            self.op_stack.push(f);
            return Ok(None);
        }
        if let Some(e) = self.excution_context.error {
            return Err(e);
        }
        top.execute(&mut self.excution_context);
        if let Some(e) = self.excution_context.error {
            return Err(e);
        }
        self.op_stack.pop();
        self.op_stack.push(f);
        Ok(self.excution_context.execution_stack.top_val())
    }

    fn close_bracket(&mut self) -> (r: Result<Option<N>, CalcError>)
        ensures
            (final(self)@, r) == close_spec(old(self)@),
    {
        let ghost start = self@;
        loop
            invariant
                start == old(self)@,
                close_spec(self@) == close_spec(start),
            decreases self.op_stack@.len(),
        {
            let n = self.op_stack.len();
            if n == 0 {
                self.op_stack.push(Functor::CloseBracket);
                proof {
                    assert(self@.ops =~= seq![Functor::CloseBracket]);
                }
                return Ok(self.excution_context.execution_stack.top_val());
            }
            let top = self.op_stack[n - 1];
            if top == Functor::OpenBracket {
                self.op_stack.pop();
                return Ok(self.excution_context.execution_stack.top_val());
            }
            if let Some(e) = self.excution_context.error {
                return Err(e);
            }
            top.execute(&mut self.excution_context);
            if let Some(e) = self.excution_context.error {
                return Err(e);
            }
            self.op_stack.pop();
        }
    }
}

} // verus!
