use vstd::prelude::*;

use crate::decimal::{is_decimal, is_decimal_text, is_digit};
use crate::error::{CalcError, error_text};
use crate::evaluator::{
    EvalView, Evaluator, PutResult, drain, empty_view, evaluation_result, put_spec, replay,
    replay_last,
};
use crate::functions::{FunctionLib, Functor, functor_of};
use crate::number::Number;

verus! {

/// The commands of the calculator besides expression input.
#[derive(Clone, Copy, Debug, PartialEq, Eq, Structural)]
pub enum Feature {
    /// Clear the entry being typed.
    CE,
    /// Clear everything but the memory.
    C,
    /// Store the value on display in memory.
    MS,
    /// Recall the value in memory as the operand.
    MR,
    /// Delete one character.
    DEL,
    /// Evaluate the expression.
    Eval,
}

/// The texts of a sequence of strings.
pub open spec fn texts(v: Seq<String>) -> Seq<Seq<char>> {
    v.map_values(|t: String| t@)
}

/// Texts written one after another.
pub open spec fn joined(ts: Seq<Seq<char>>) -> Seq<char>
    decreases ts.len(),
{
    if ts.len() == 0 {
        Seq::empty()
    } else {
        joined(ts.drop_last()) + ts.last()
    }
}

/// Feeding `ts` in order to state `st`, stopping at the first error: the
/// state reached, and the error or else what the last token gave.
pub open spec fn feed<N: Number>(st: EvalView<N>, ts: Seq<String>) -> (EvalView<N>, PutResult<N>)
    decreases ts.len(),
{
    if ts.len() == 0 {
        (st, Ok(None))
    } else {
        let (m, r) = put_spec(st, ts[0]);
        if r is Err || ts.len() == 1 {
            (m, r)
        } else {
            feed(m, ts.skip(1))
        }
    }
}

/// The value of the constant `name`: a later definition hides an earlier one.
pub open spec fn constant_lookup(entries: Seq<(Seq<char>, Seq<char>)>, name: Seq<char>) -> Option<
    Seq<char>,
>
    decreases entries.len(),
{
    if entries.len() == 0 {
        None
    } else if entries.last().0 == name {
        Some(entries.last().1)
    } else {
        constant_lookup(entries.drop_last(), name)
    }
}

/// A unit that is typed into the operand: one digit or a dot.
pub open spec fn is_operand_char(input: Seq<char>) -> bool {
    input.len() == 1 && (is_digit(input[0]) || input[0] == '.')
}

/// A registered one-argument function.
pub open spec fn is_unary_name(input: Seq<char>) -> bool {
    functor_of(input) matches Some(f) && f.spec_arg_count() == 1
}

/// `ts` with `t` appended, unless `t` is empty.
pub open spec fn push_nonempty(ts: Seq<String>, t: String) -> Seq<String> {
    if t@.len() > 0 {
        ts.push(t)
    } else {
        ts
    }
}

/// The state of a calculator. The operand, the carried-over result and the
/// committed tokens are the strings themselves, since they are fed to the
/// evaluator; the rest is plain text.
pub struct CalcView<N> {
    pub eval: EvalView<N>,
    pub constants: Seq<(Seq<char>, Seq<char>)>,
    pub operand: String,
    pub last_result: String,
    pub last_immediate: Seq<char>,
    pub temp_history: Seq<char>,
    pub tokens: Seq<String>,
    pub memory: Option<Seq<char>>,
}

/// What a flush commits: a result carried over from the last evaluation, or
/// else the operand being typed.
pub open spec fn pending<N>(s: CalcView<N>) -> String {
    if s.last_result@.len() > 0 {
        s.last_result
    } else {
        s.operand
    }
}

/// What an operator or function name `input` commits, in order: a
/// one-argument function goes before the operand it applies to and drops a
/// carried-over result; an opening bracket drops the operand and the result;
/// anything else follows what was pending.
pub open spec fn op_feeds<N>(s: CalcView<N>, input: String) -> Seq<String> {
    if is_unary_name(input@) {
        push_nonempty(seq![input], s.operand)
    } else if functor_of(input@) == Some(Functor::OpenBracket) {
        seq![input]
    } else {
        push_nonempty(Seq::empty(), pending(s)).push(input)
    }
}

/// A history line: frozen text if there is any, else the committed tokens
/// followed by the operand.
pub open spec fn history_of(frozen: Seq<char>, tokens: Seq<String>, operand: Seq<char>) -> Seq<
    char,
> {
    if frozen.len() > 0 {
        frozen
    } else {
        joined(texts(tokens)) + operand
    }
}

/// The history line of a state.
pub open spec fn history<N>(s: CalcView<N>) -> Seq<char> {
    history_of(s.temp_history, s.tokens, s.operand@)
}

/// A display result as plain values: a new display text, no visible change,
/// or an error message.
pub type Shown = Result<Option<Seq<char>>, Seq<char>>;

/// The display shows `x`.
pub open spec fn shows(x: Seq<char>) -> Shown {
    Ok(Some(x))
}

/// The display does not change.
pub open spec fn no_change() -> Shown {
    Ok(None)
}

/// The display shows the message of `e`.
pub open spec fn fails_with(e: CalcError) -> Shown {
    Err(error_text(e))
}

/// The display for a value an operator produced, if it produced one.
pub open spec fn shown_value<N: Number>(x: Option<N>) -> Shown {
    match x {
        Some(v) => shows(N::spec_text(v)@),
        None => no_change(),
    }
}

/// A display result as plain values.
pub open spec fn shown(r: Result<Option<String>, String>) -> Shown {
    match r {
        Ok(Some(s)) => Ok(Some(s@)),
        Ok(None) => Ok(None),
        Err(m) => Err(m@),
    }
}

/// The fields that only evaluation, memory and constant commands change.
pub open spec fn keeps_settings<N>(s: CalcView<N>, t: CalcView<N>) -> bool {
    t.constants == s.constants && t.memory == s.memory
}

/// `t` is `s` after a full clear: a fresh evaluator, nothing typed or
/// committed, `0` carried over and displayed; memory and constants stay.
pub open spec fn is_cleared<N>(s: CalcView<N>, t: CalcView<N>) -> bool {
    &&& keeps_settings(s, t)
    &&& t.eval == empty_view::<N>()
    &&& t.operand@.len() == 0
    &&& t.last_result@ == seq!['0']
    &&& t.last_immediate == seq!['0']
    &&& t.temp_history.len() == 0
    &&& t.tokens.len() == 0
}

/// One unit of expression input `input` takes state `s` to `t` and shows `out`.
/// A digit or a dot extends the operand, and starts a new expression after an
/// evaluation; a constant's name replaces the operand with its literal; any
/// other unit is an operator or function name, and commits `op_feeds`. A
/// one-argument function shows the operand it committed; another operator
/// shows the value its reduction produced, if any. An error shows its message
/// and clears the calculator: one bad unit invalidates the expression.
pub open spec fn exp_input_rel<N: Number>(s: CalcView<N>, input: String, t: CalcView<N>, out: Shown) -> bool {
    if input@.len() == 0 {
        is_cleared(s, t) && out == fails_with(CalcError::EmptyToken)
    } else if is_operand_char(input@) || constant_lookup(s.constants, input@) is Some {
        let operand = if is_operand_char(input@) {
            s.operand@ + input@
        } else {
            constant_lookup(s.constants, input@)->0
        };
        &&& t == (CalcView {
            operand: t.operand,
            last_result: t.last_result,
            last_immediate: operand,
            temp_history: Seq::empty(),
            ..s
        })
        &&& t.operand@ == operand
        &&& t.last_result@.len() == 0
        &&& out == shows(operand)
    } else {
        let feeds = op_feeds(s, input);
        match feed(s.eval, feeds).1 {
            Err(e) => is_cleared(s, t) && out == fails_with(e),
            Ok(x) => {
                &&& out == (if is_unary_name(input@) {
                    if s.operand@.len() > 0 {
                        shows(s.operand@)
                    } else {
                        no_change()
                    }
                } else {
                    shown_value(x)
                })
                &&& t == (CalcView {
                    eval: t.eval,
                    operand: t.operand,
                    last_result: t.last_result,
                    last_immediate: match out {
                        Ok(Some(d)) => d,
                        _ => s.last_immediate,
                    },
                    temp_history: Seq::empty(),
                    tokens: s.tokens + feeds,
                    ..s
                })
                &&& t.operand@.len() == 0
                &&& t.last_result@.len() == 0
            },
        }
    }
}

/// `Evaluate` takes `s` to `t` and shows `out`. The operand is committed and
/// the committed tokens are evaluated. On success the value is shown and
/// carried over, the history line is frozen with ` =` after it, and the
/// expression is cleared. On failure nothing changes at all: the operand goes
/// back out of the tokens and the evaluator is rebuilt from them.
pub open spec fn evaluate_rel<N: Number>(s: CalcView<N>, t: CalcView<N>, out: Shown) -> bool {
    let committed = push_nonempty(s.tokens, s.operand);
    match evaluation_result(drain(replay::<N>(committed))) {
        Ok(v) => {
            &&& out == shows(N::spec_text(v)@)
            &&& t == (CalcView {
                eval: empty_view::<N>(),
                operand: t.operand,
                last_result: N::spec_text(v),
                last_immediate: N::spec_text(v)@,
                tokens: Seq::empty(),
                temp_history: history_of(s.temp_history, committed, Seq::empty()) + seq![' ', '='],
                ..s
            })
            &&& t.operand@.len() == 0
        },
        Err(_) => out == no_change() && t == s,
    }
}

/// `t` without its last character, if it has one.
pub open spec fn without_last(t: Seq<char>) -> Seq<char> {
    if t.len() > 0 {
        t.drop_last()
    } else {
        t
    }
}

/// `Backspace` takes `s` to `t` and shows `out`. It deletes the operand's last
/// character. When no operand is left, or there was none, the last committed
/// token becomes the operand, less its last character, and the running value
/// is derived again from the tokens still committed: the last value they
/// produce, or `0` if none does. With nothing typed and nothing committed,
/// nothing changes.
pub open spec fn delete_rel<N: Number>(s: CalcView<N>, t: CalcView<N>, out: Shown) -> bool {
    if s.operand@.len() > 1 {
        &&& t == (CalcView { operand: t.operand, ..s })
        &&& t.operand@ == s.operand@.drop_last()
        &&& out == shows(t.operand@)
    } else if s.operand@.len() == 0 && s.tokens.len() == 0 {
        t == s && out == no_change()
    } else {
        let tokens = if s.tokens.len() > 0 {
            s.tokens.drop_last()
        } else {
            s.tokens
        };
        let operand = if s.tokens.len() > 0 {
            without_last(s.tokens.last()@)
        } else {
            Seq::empty()
        };
        &&& t == (CalcView { eval: t.eval, tokens: tokens, operand: t.operand, ..s })
        &&& t.operand@ == operand
        &&& out == if operand.len() > 0 {
            shows(operand)
        } else {
            replay_last_shown::<N>(tokens)
        }
    }
}

/// What Backspace shows once the operand is gone: the last value that
/// replaying `ts` produces, or `0` if none does.
pub open spec fn replay_last_shown<N: Number>(ts: Seq<String>) -> Shown {
    match replay_last::<N>(ts) {
        Some(v) => shows(N::spec_text(v)@),
        None => shows(seq!['0']),
    }
}

/// Command `feature` takes state `s` to `t` and shows `out`.
pub open spec fn feature_rel<N: Number>(s: CalcView<N>, feature: Feature, t: CalcView<N>, out: Shown) -> bool {
    match feature {
        Feature::CE => {
            &&& t == (CalcView {
                operand: t.operand,
                last_result: t.last_result,
                last_immediate: t.last_immediate,
                ..s
            })
            &&& t.operand@.len() == 0
            &&& t.last_result@.len() == 0
            &&& if s.eval.values.len() > 0 {
                &&& t.last_immediate == N::spec_text(s.eval.values.last())@
                &&& out == shows(t.last_immediate)
            } else {
                t.last_immediate == s.last_immediate && out == shows(seq!['0'])
            }
        },
        Feature::C => is_cleared(s, t) && out == shows(seq!['0']),
        Feature::MS => {
            &&& t == (CalcView {
                memory: if is_decimal_text(s.last_immediate) {
                    Some(s.last_immediate)
                } else {
                    s.memory
                },
                ..s
            })
            &&& out == no_change()
        },
        Feature::MR => match s.memory {
            Some(m) => t == (CalcView { operand: t.operand, ..s }) && t.operand@ == m && out == shows(
                m,
            ),
            None => t == s && out == no_change(),
        },
        Feature::Eval => evaluate_rel(s, t, out),
        Feature::DEL => delete_rel(s, t, out),
    }
}

/// The display for an operand that a one-argument function committed, if any.
pub open spec fn shown_text(o: Option<String>) -> Shown {
    match o {
        Some(p) => shows(p@),
        None => no_change(),
    }
}

/// The calculator: the input state machine in front of an evaluator.
pub struct Calculator<N> {
    evaluator: Evaluator<N>,
    constants_map: Vec<(String, String)>,
    operand_token: String,
    last_result: String,
    last_immediate: String,
    temp_history: String,
    input_tokens: Vec<String>,
    memory: Option<String>,
}

impl<N> View for Calculator<N> {
    type V = CalcView<N>;

    closed spec fn view(&self) -> CalcView<N> {
        CalcView {
            eval: self.evaluator@,
            constants: self.constants_map@.map_values(|p: (String, String)| (p.0@, p.1@)),
            operand: self.operand_token,
            last_result: self.last_result,
            last_immediate: self.last_immediate@,
            temp_history: self.temp_history@,
            tokens: self.input_tokens@,
            memory: match self.memory {
                Some(m) => Some(m@),
                None => None,
            },
        }
    }
}

proof fn lemma_texts_push(v: Seq<String>, s: String)
    ensures
        texts(v.push(s)) == texts(v).push(s@),
{
    assert(texts(v.push(s)) =~= texts(v).push(s@));
}

proof fn lemma_replay_push<N: Number>(ts: Seq<String>, t: String)
    ensures
        replay::<N>(ts.push(t)) == put_spec(replay::<N>(ts), t).0,
{
    assert(ts.push(t).drop_last() =~= ts);
}

proof fn lemma_feed_one<N: Number>(st: EvalView<N>, a: String)
    ensures
        feed(st, seq![a]) == put_spec(st, a),
{
}

proof fn lemma_feed_two<N: Number>(st: EvalView<N>, a: String, b: String)
    ensures
        feed(st, seq![a, b]) == (if put_spec(st, a).1 is Err {
            put_spec(st, a)
        } else {
            put_spec(put_spec(st, a).0, b)
        }),
{
    assert(seq![a, b].skip(1) =~= seq![b]);
    lemma_feed_one(put_spec(st, a).0, b);
}

/// The text `0`.
fn zero_text() -> (r: String)
    ensures
        r@ == seq!['0'],
{
    let r = String::from_str("0");
    proof {
        reveal_strlit("0");
        assert(r@ =~= seq!['0']);
    }
    r
}

/// `s` without its last character, if it has one.
fn drop_last_char(s: &String) -> (r: String)
    ensures
        r@ == without_last(s@),
{
    let text = s.as_str();
    let n = text.unicode_len();
    if n == 0 {
        return s.clone();
    }
    let kept = text.substring_char(0, n - 1);
    proof {
        assert(s@.subrange(0, n - 1) =~= s@.drop_last());
    }
    String::from_str(kept)
}

/// Feeds `tokens` in order to a fresh evaluator; also returns the last value
/// that a token produced, if any did.
fn replay_tokens<N: Number>(tokens: &Vec<String>) -> (r: (Evaluator<N>, Option<N>))
    ensures
        r.0@ == replay::<N>(tokens@),
        r.1 == replay_last::<N>(tokens@),
{
    let mut evaluator = Evaluator::new();
    let mut last: Option<N> = None;
    let mut i: usize = 0;
    proof {
        assert(tokens@.take(0) =~= Seq::<String>::empty());
    }
    while i < tokens.len()
        invariant
            i <= tokens@.len(),
            evaluator@ == replay::<N>(tokens@.take(i as int)),
            last == replay_last::<N>(tokens@.take(i as int)),
        decreases tokens@.len() - i,
    {
        let res = evaluator.put_token(&tokens[i]);
        if let Ok(Some(v)) = res {
            last = Some(v);
        }
        proof {
            assert(tokens@.take(i + 1).drop_last() =~= tokens@.take(i as int));
            assert(tokens@.take(i + 1).last() == tokens@[i as int]);
        }
        i += 1;
    }
    proof {
        assert(tokens@.take(i as int) =~= tokens@);
    }
    (evaluator, last)
}

fn is_operand_char_exec(c: char) -> (r: bool)
    ensures
        r == (is_digit(c) || c == '.'),
{
    ('0' <= c && c <= '9') || c == '.'
}

impl<N: Number> Calculator<N> {
    /// The calculator's invariant: the evaluator is what replaying the
    /// committed tokens gives.
    pub open spec fn wf(&self) -> bool {
        self@.eval == replay::<N>(self@.tokens)
    }

    pub fn new() -> (r: Calculator<N>)
        ensures
            r.wf(),
            r@.eval == empty_view::<N>(),
            r@.constants.len() == 0,
            r@.operand@.len() == 0,
            r@.last_result@ == seq!['0'],
            r@.last_immediate.len() == 0,
            r@.temp_history.len() == 0,
            r@.tokens.len() == 0,
            r@.memory is None,
    {
        Calculator {
            evaluator: Evaluator::new(),
            constants_map: Vec::new(),
            operand_token: String::new(),
            input_tokens: Vec::new(),
            last_result: zero_text(),
            temp_history: String::new(),
            last_immediate: String::new(),
            memory: None,
        }
    }

    /// The history line: the frozen line after an evaluation, else the
    /// committed tokens followed by the operand being typed.
    pub fn build_history(&self) -> (r: String)
        ensures
            r@ == history(self@),
    {
        if self.temp_history.as_str().is_empty() {
            let mut h = String::new();
            let mut i: usize = 0;
            while i < self.input_tokens.len()
                invariant
                    i <= self.input_tokens@.len(),
                    h@ == joined(texts(self.input_tokens@.take(i as int))),
                decreases self.input_tokens@.len() - i,
            {
                h.append(self.input_tokens[i].as_str());
                proof {
                    let v = self.input_tokens@;
                    assert(v.take(i + 1) =~= v.take(i as int).push(v[i as int]));
                    lemma_texts_push(v.take(i as int), v[i as int]);
                    assert(texts(v.take(i + 1)).drop_last() =~= texts(v.take(i as int)));
                }
                i += 1;
            }
            proof {
                assert(self.input_tokens@.take(i as int) =~= self.input_tokens@);
            }
            h.append(self.operand_token.as_str());
            h
        } else {
            self.temp_history.clone()
        }
    }

    /// Registers a named constant; typing its name then enters its literal
    /// text as the operand.
    pub fn add_constant(&mut self, name: String, value: String)
        requires
            old(self).wf(),
        ensures
            final(self).wf(),
            final(self)@ == (CalcView { constants: old(self)@.constants.push((name@, value@)), ..old(self)@ }),
    {
        let ghost v = self.constants_map@;
        let ghost pair = (name, value);
        self.constants_map.push((name, value));
        proof {
            assert(self.constants_map@.map_values(|p: (String, String)| (p.0@, p.1@))
                =~= v.map_values(|p: (String, String)| (p.0@, p.1@)).push((pair.0@, pair.1@)));
        }
    }

    fn find_constant(&self, name: &String) -> (r: Option<String>)
        ensures
            match r {
                Some(v) => constant_lookup(self@.constants, name@) == Some(v@),
                None => constant_lookup(self@.constants, name@) is None,
            },
    {
        let mut i: usize = self.constants_map.len();
        proof {
            assert(self@.constants.take(i as int) =~= self@.constants);
        }
        while i > 0
            invariant
                i <= self.constants_map@.len(),
                constant_lookup(self@.constants, name@) == constant_lookup(
                    self@.constants.take(i as int),
                    name@,
                ),
            decreases i,
        {
            let entry = &self.constants_map[i - 1];
            proof {
                let c = self@.constants;
                assert(c.take(i as int).drop_last() =~= c.take(i - 1));
                assert(c.take(i as int).last() == c[i - 1]);
            }
            if entry.0 == *name {
                return Some(entry.1.clone());
            }
            i -= 1;
        }
        None
    }

    /// Feeds `token` to the evaluator and commits it.
    fn commit_token(&mut self, token: &String) -> (r: Result<Option<N>, CalcError>)
        requires
            old(self).wf(),
        ensures
            final(self).wf(),
            final(self)@ == (CalcView {
                eval: final(self)@.eval,
                tokens: old(self)@.tokens.push(*token),
                ..old(self)@
            }),
            (final(self)@.eval, r) == put_spec(old(self)@.eval, *token),
    {
        let res = self.evaluator.put_token(token);
        let committed = token.clone();
        let ghost before = self.input_tokens@;
        self.input_tokens.push(committed);
        proof {
            assert(self.input_tokens@.drop_last() =~= before);
        }
        res
    }

    /// Commits what is pending: a carried-over result, else the operand.
    fn push_temp_input(&mut self) -> (r: Result<Option<String>, CalcError>)
        requires
            old(self).wf(),
        ensures
            final(self).wf(),
            final(self)@ == (CalcView {
                eval: final(self)@.eval,
                operand: final(self)@.operand,
                last_result: final(self)@.last_result,
                tokens: old(self)@.tokens + push_nonempty(Seq::empty(), pending(old(self)@)),
                ..old(self)@
            }),
            final(self)@.operand@.len() == 0,
            final(self)@.last_result@.len() == 0,
            r == match feed(old(self)@.eval, push_nonempty(Seq::empty(), pending(old(self)@))).1 {
                Err(e) => Err(e),
                Ok(_) => Ok(
                    if pending(old(self)@)@.len() > 0 {
                        Some(pending(old(self)@))
                    } else {
                        None
                    },
                ),
            },
    {
        let ghost s = self@;
        if !self.last_result.as_str().is_empty() {
            self.operand_token = self.last_result.clone();
            self.last_result = String::new();
        }
        if self.operand_token.as_str().is_empty() {
            proof {
                assert(s.tokens + Seq::<String>::empty() =~= s.tokens);
            }
            return Ok(None);
        }
        let token = self.operand_token.clone();
        let res = self.commit_token(&token);
        self.operand_token = String::new();
        proof {
            assert(s.tokens + seq![token] =~= s.tokens.push(token));
            assert(Seq::<String>::empty().push(token) =~= seq![token]);
        }
        match res {
            Err(e) => Err(e),
            Ok(_) => Ok(Some(token)),
        }
    }

    fn expression_operand_input(&mut self, c: &String) -> (r: String)
        ensures
            final(self)@ == (CalcView {
                operand: final(self)@.operand,
                last_result: final(self)@.last_result,
                ..old(self)@
            }),
            final(self)@.operand@ == old(self)@.operand@ + c@,
            final(self)@.last_result@.len() == 0,
            r@ == final(self)@.operand@,
    {
        // a digit after an evaluation starts a new expression
        self.last_result = String::new();
        self.operand_token.append(c.as_str());
        self.operand_token.clone()
    }

    fn expression_constant_input(&mut self, value: String) -> (r: String)
        ensures
            final(self)@ == (CalcView {
                operand: final(self)@.operand,
                last_result: final(self)@.last_result,
                ..old(self)@
            }),
            final(self)@.operand@ == value@,
            final(self)@.last_result@.len() == 0,
            r@ == value@,
    {
        self.last_result = String::new();
        self.operand_token = value;
        self.operand_token.clone()
    }

    /// Commits an operator or function name, with what it carries along.
    fn expression_op_input(&mut self, op_name: &String) -> (r: Result<Option<String>, CalcError>)
        requires
            old(self).wf(),
        ensures
            final(self).wf(),
            keeps_settings(old(self)@, final(self)@),
            match feed(old(self)@.eval, op_feeds(old(self)@, *op_name)).1 {
                Err(e) => r == Err::<Option<String>, CalcError>(e),
                Ok(x) => {
                    &&& r is Ok
                    &&& shown_text(r->Ok_0) == if is_unary_name(op_name@) {
                        if old(self)@.operand@.len() > 0 {
                            shows(old(self)@.operand@)
                        } else {
                            no_change()
                        }
                    } else {
                        shown_value(x)
                    }
                    &&& final(self)@ == (CalcView {
                        eval: final(self)@.eval,
                        operand: final(self)@.operand,
                        last_result: final(self)@.last_result,
                        tokens: old(self)@.tokens + op_feeds(old(self)@, *op_name),
                        ..old(self)@
                    })
                    &&& final(self)@.operand@.len() == 0
                    &&& final(self)@.last_result@.len() == 0
                },
            },
    {
        let ghost s = self@;
        let ghost feeds = op_feeds(s, *op_name);
        let functor = FunctionLib::new().get_functor(op_name);
        let unary = match functor {
            Some(f) => f.arg_count() == 1,
            None => false,
        };
        if unary {
            // a one-argument function applies to what is typed next, not to
            // a result carried over
            self.last_result = String::new();
            let res = self.commit_token(op_name);
            proof {
                lemma_feed_one(s.eval, *op_name);
                if s.operand@.len() > 0 {
                    assert(feeds =~= seq![*op_name, s.operand]);
                    lemma_feed_two(s.eval, *op_name, s.operand);
                } else {
                    assert(feeds =~= seq![*op_name]);
                }
            }
            if let Err(e) = res {
                return Err(e);
            }
            let ghost mid = self@;
            proof {
                assert(pending(mid) == s.operand);
                lemma_feed_one(mid.eval, s.operand);
                assert(Seq::<String>::empty().push(s.operand) =~= seq![s.operand]);
            }
            let flushed = self.push_temp_input();
            proof {
                if s.operand@.len() > 0 {
                    assert(s.tokens.push(*op_name) + seq![s.operand] =~= s.tokens + feeds);
                } else {
                    assert(s.tokens.push(*op_name) + Seq::<String>::empty() =~= s.tokens + feeds);
                }
            }
            flushed
        } else {
            let ghost p = pending(s);
            if functor == Some(Functor::OpenBracket) {
                self.operand_token = String::new();
                self.last_result = String::new();
                proof {
                    assert(feeds =~= seq![*op_name]);
                }
            } else {
                proof {
                    assert(Seq::<String>::empty().push(p) =~= seq![p]);
                    lemma_feed_one(s.eval, p);
                    if p@.len() > 0 {
                        assert(feeds =~= seq![p, *op_name]);
                        lemma_feed_two(s.eval, p, *op_name);
                    } else {
                        assert(feeds =~= seq![*op_name]);
                    }
                }
                let flushed = self.push_temp_input();
                if let Err(e) = flushed {
                    return Err(e);
                }
                proof {
                    if p@.len() > 0 {
                        lemma_replay_push::<N>(s.tokens, p);
                        assert(s.tokens + seq![p] =~= s.tokens.push(p));
                    } else {
                        assert(s.tokens + Seq::<String>::empty() =~= s.tokens);
                    }
                }
            }
            let ghost mid = self@;
            let res = self.commit_token(op_name);
            proof {
                lemma_feed_one(s.eval, *op_name);
                assert(mid.tokens.push(*op_name) =~= s.tokens + feeds);
            }
            match res {
                Err(e) => Err(e),
                Ok(Some(v)) => Ok(Some(v.to_text())),
                Ok(None) => Ok(None),
            }
        }
    }

    /// Takes one unit of expression input: a digit or a dot, a constant's
    /// name, or an operator or function name. Returns the new display text,
    /// `None` for no visible change, or an error message; an error also
    /// clears the calculator.
    pub fn perform_exp_input(&mut self, input: String) -> (r: Result<Option<String>, String>)
        requires
            old(self).wf(),
        ensures
            final(self).wf(),
            exp_input_rel(old(self)@, input, final(self)@, shown(r)),
    {
        let ghost s = self@;
        if input.as_str().is_empty() {
            let _ = self.reset();
            return Err(CalcError::EmptyToken.message());
        }
        self.temp_history = String::new();
        let text = input.as_str();
        if text.unicode_len() == 1 && is_operand_char_exec(text.get_char(0)) {
            proof {
                assert(input@ =~= seq![text@[0]]);
            }
            let typed = self.expression_operand_input(&input);
            self.last_immediate = typed.clone();
            return Ok(Some(typed));
        }
        proof {
            if input@.len() == 1 {
                assert(input@[0] == text@[0]);
            }
            assert(!is_operand_char(input@));
        }
        match self.find_constant(&input) {
            Some(value) => {
                let typed = self.expression_constant_input(value);
                self.last_immediate = typed.clone();
                Ok(Some(typed))
            },
            None => {
                let ghost mid = self@;
                proof {
                    assert(op_feeds(mid, input) == op_feeds(s, input));
                }
                match self.expression_op_input(&input) {
                    Err(e) => {
                        let _ = self.reset();
                        let m = e.message();
                        Err(m)
                    },
                    Ok(shown_now) => {
                        if let Some(v) = &shown_now {
                            self.last_immediate = v.clone();
                        }
                        proof {
                            assert(self@.tokens == s.tokens + op_feeds(s, input));
                        }
                        Ok(shown_now)
                    },
                }
            },
        }
    }


    /// Carries out a command.
    pub fn perform_feature(&mut self, feature: &Feature) -> (r: Result<Option<String>, String>)
        requires
            old(self).wf(),
        ensures
            final(self).wf(),
            feature_rel(old(self)@, *feature, final(self)@, shown(r)),
    {
        match feature {
            Feature::CE => self.reset_temp(),
            Feature::C => self.reset(),
            Feature::MS => self.memory_store(),
            Feature::MR => self.memory_recover(),
            Feature::Eval => self.eval(),
            Feature::DEL => self.delete_one_char(),
        }
    }

    /// Clears everything but the memory and the constants.
    pub fn reset(&mut self) -> (r: Result<Option<String>, String>)
        requires
            old(self).wf(),
        ensures
            final(self).wf(),
            feature_rel(old(self)@, Feature::C, final(self)@, shown(r)),
    {
        self.last_result = zero_text();
        self.last_immediate = zero_text();
        self.operand_token = String::new();
        self.input_tokens = Vec::new();
        self.evaluator = Evaluator::new();
        self.temp_history = String::new();
        proof {
            assert(self@.tokens =~= Seq::<String>::empty());
        }
        Ok(Some(self.last_result.clone()))
    }

    fn reset_temp(&mut self) -> (r: Result<Option<String>, String>)
        requires
            old(self).wf(),
        ensures
            final(self).wf(),
            feature_rel(old(self)@, Feature::CE, final(self)@, shown(r)),
    {
        self.operand_token = String::new();
        self.last_result = String::new();
        match self.evaluator.top_value() {
            Some(v) => {
                self.last_immediate = v.to_text();
                Ok(Some(self.last_immediate.clone()))
            },
            None => Ok(Some(zero_text())),
        }
    }

    fn memory_store(&mut self) -> (r: Result<Option<String>, String>)
        requires
            old(self).wf(),
        ensures
            final(self).wf(),
            feature_rel(old(self)@, Feature::MS, final(self)@, shown(r)),
    {
        if is_decimal(self.last_immediate.as_str()) {
            self.memory = Some(self.last_immediate.clone());
        }
        Ok(None)
    }

    fn memory_recover(&mut self) -> (r: Result<Option<String>, String>)
        requires
            old(self).wf(),
        ensures
            final(self).wf(),
            feature_rel(old(self)@, Feature::MR, final(self)@, shown(r)),
    {
        match &self.memory {
            Some(v) => {
                let recalled = v.clone();
                self.operand_token = v.clone();
                Ok(Some(recalled))
            },
            None => Ok(None),
        }
    }

    fn eval(&mut self) -> (r: Result<Option<String>, String>)
        requires
            old(self).wf(),
        ensures
            final(self).wf(),
            feature_rel(old(self)@, Feature::Eval, final(self)@, shown(r)),
    {
        let ghost s = self@;
        let mut flushed = false;
        if !self.operand_token.as_str().is_empty() {
            let operand = self.operand_token.clone();
            let _ = self.commit_token(&operand);
            self.operand_token = String::new();
            flushed = true;
        }
        let ghost committed = self@;
        proof {
            assert(committed.tokens == push_nonempty(s.tokens, s.operand));
        }
        match self.evaluator.evaluate() {
            Ok(v) => {
                self.last_result = v.to_text();
                self.last_immediate = self.last_result.clone();
                self.evaluator = Evaluator::new();
                let mut line = self.build_history();
                line.append(" =");
                self.temp_history = line;
                self.input_tokens = Vec::new();
                proof {
                    reveal_strlit(" =");
                    assert(" ="@ =~= seq![' ', '=']);
                    assert(self@.tokens =~= Seq::<String>::empty());
                    assert(committed.operand@ =~= Seq::<char>::empty());
                }
                Ok(Some(self.last_result.clone()))
            },
            Err(_) => {
                if flushed {
                    self.operand_token = self.input_tokens.pop().unwrap();
                    proof {
                        assert(self.input_tokens@ =~= s.tokens);
                    }
                }
                let (evaluator, _) = replay_tokens(&self.input_tokens);
                self.evaluator = evaluator;
                proof {
                    if !flushed {
                        assert(committed.tokens == s.tokens);
                    }
                    assert(self@ == s);
                }
                Ok(None)
            },
        }
    }

    fn recaculate_after_delete(&mut self) -> (r: Result<Option<String>, String>)
        ensures
            final(self).wf(),
            final(self)@ == (CalcView { eval: final(self)@.eval, ..old(self)@ }),
            shown(r) == if old(self)@.operand@.len() > 0 {
                shows(old(self)@.operand@)
            } else {
                match replay_last::<N>(old(self)@.tokens) {
                    Some(v) => shows(N::spec_text(v)@),
                    None => shows(seq!['0']),
                }
            },
    {
        let (evaluator, last) = replay_tokens(&self.input_tokens);
        self.evaluator = evaluator;
        if self.operand_token.as_str().is_empty() {
            match last {
                Some(v) => Ok(Some(v.to_text())),
                None => Ok(Some(zero_text())),
            }
        } else {
            Ok(Some(self.operand_token.clone()))
        }
    }

    fn delete_one_char(&mut self) -> (r: Result<Option<String>, String>)
        requires
            old(self).wf(),
        ensures
            final(self).wf(),
            feature_rel(old(self)@, Feature::DEL, final(self)@, shown(r)),
    {
        let mut emptied = false;
        if !self.operand_token.as_str().is_empty() {
            self.operand_token = drop_last_char(&self.operand_token);
            if !self.operand_token.as_str().is_empty() {
                return Ok(Some(self.operand_token.clone()));
            }
            // the pending number vanished
            emptied = true;
        }
        proof {
            assert(self.operand_token@ =~= Seq::<char>::empty());
        }
        if self.input_tokens.len() > 0 {
            let last = self.input_tokens.pop().unwrap();
            self.operand_token = drop_last_char(&last);
        } else if !emptied {
            return Ok(None);
        }
        self.recaculate_after_delete()
    }
}

} // verus!
