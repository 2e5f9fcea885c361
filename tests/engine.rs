use calc::{
    is_decimal, Add, CalcError, Calculator, Div, Evaluator, Feature, FunctionLib, Functor, Inv,
    Number, Sqrt,
};

#[derive(Clone, Copy, Debug, PartialEq)]
struct F(f64);

impl Number for F {
    fn spec_parse(text: &String) -> Option<F> {
        text.parse::<f64>().ok().map(F)
    }
    fn spec_text(a: F) -> String {
        a.0.to_string()
    }
    fn spec_sum(a: F, b: F) -> F {
        F(a.0 + b.0)
    }
    fn spec_difference(a: F, b: F) -> F {
        F(a.0 - b.0)
    }
    fn spec_product(a: F, b: F) -> F {
        F(a.0 * b.0)
    }
    fn spec_quotient(a: F, b: F) -> F {
        F(a.0 / b.0)
    }
    fn spec_sine(a: F) -> F {
        F(a.0.sin())
    }
    fn spec_cosine(a: F) -> F {
        F(a.0.cos())
    }
    fn spec_tangent(a: F) -> F {
        F(a.0.tan())
    }
    fn spec_square_root(a: F) -> F {
        F(a.0.sqrt())
    }
    fn spec_reciprocal(a: F) -> F {
        F(1.0 / a.0)
    }
    fn spec_is_zero(a: F) -> bool {
        a.0 == 0.0
    }
    fn spec_is_negative(a: F) -> bool {
        a.0 < 0.0
    }
    fn parse(text: &String) -> Option<F> {
        Self::spec_parse(text)
    }
    fn to_text(&self) -> String {
        Self::spec_text(*self)
    }
    fn sum(a: F, b: F) -> F {
        Self::spec_sum(a, b)
    }
    fn difference(a: F, b: F) -> F {
        Self::spec_difference(a, b)
    }
    fn product(a: F, b: F) -> F {
        Self::spec_product(a, b)
    }
    fn quotient(a: F, b: F) -> F {
        Self::spec_quotient(a, b)
    }
    fn sine(a: F) -> F {
        Self::spec_sine(a)
    }
    fn cosine(a: F) -> F {
        Self::spec_cosine(a)
    }
    fn tangent(a: F) -> F {
        Self::spec_tangent(a)
    }
    fn square_root(a: F) -> F {
        Self::spec_square_root(a)
    }
    fn reciprocal(a: F) -> F {
        Self::spec_reciprocal(a)
    }
    fn is_zero(a: F) -> bool {
        Self::spec_is_zero(a)
    }
    fn is_negative(a: F) -> bool {
        Self::spec_is_negative(a)
    }
}

type Shown = Result<Option<String>, String>;

fn shows(s: &str) -> Shown {
    Ok(Some(s.to_string()))
}

fn type_units(c: &mut Calculator<F>, units: &[&str]) -> Shown {
    let mut last = Ok(None);
    for u in units {
        last = c.perform_exp_input(u.to_string());
    }
    last
}

fn put(e: &mut Evaluator<F>, token: &str) -> Result<Option<f64>, CalcError> {
    e.put_token(&token.to_string()).map(|v| v.map(|x| x.0))
}

#[test]
fn decimal_literals_accepted() {
    for s in ["0", "7", "12", "007", "+1", "-0", "3.25", "-1.5", "+10.01"] {
        assert!(is_decimal(s), "{}", s);
    }
}

#[test]
fn decimal_literals_rejected() {
    for s in ["", "+", "-", ".5", "+.5", "1..2", "1.2.3", "12.", "1a", "a1", "--1", "1-", "½", " 1"] {
        assert!(!is_decimal(s), "{}", s);
    }
}

#[test]
fn equal_precedence_reduces_left_to_right() {
    let mut c = Calculator::<F>::new();
    type_units(&mut c, &["2", "-", "3", "+", "4"]);
    assert_eq!(c.perform_feature(&Feature::Eval), shows("3"));
}

#[test]
fn multiplication_binds_tighter() {
    let mut c = Calculator::<F>::new();
    type_units(&mut c, &["2", "+", "3", "*", "4"]);
    assert_eq!(c.perform_feature(&Feature::Eval), shows("14"));
}

#[test]
fn brackets_group_first() {
    let mut c = Calculator::<F>::new();
    assert_eq!(type_units(&mut c, &["(", "2", "+", "3", ")"]), shows("5"));
    type_units(&mut c, &["*", "4"]);
    assert_eq!(c.perform_feature(&Feature::Eval), shows("20"));
    assert_eq!(c.build_history(), "(2+3)*4 =");
}

#[test]
fn unary_applies_to_next_operand_not_stale_result() {
    let mut c = Calculator::<F>::new();
    type_units(&mut c, &["2", "+", "2"]);
    assert_eq!(c.perform_feature(&Feature::Eval), shows("4"));
    assert_eq!(c.perform_exp_input("sin".to_string()), Ok(None));
    type_units(&mut c, &["0"]);
    assert_eq!(c.perform_feature(&Feature::Eval), shows("0"));
}

#[test]
fn unary_commits_typed_operand_after_it() {
    let mut c = Calculator::<F>::new();
    type_units(&mut c, &["9"]);
    assert_eq!(c.perform_exp_input("√".to_string()), shows("9"));
    assert_eq!(c.build_history(), "√9");
    assert_eq!(c.perform_feature(&Feature::Eval), shows("3"));
}

#[test]
fn divide_by_zero_rolls_back() {
    let mut c = Calculator::<F>::new();
    type_units(&mut c, &["5", "/", "0"]);
    assert_eq!(c.perform_feature(&Feature::Eval), Ok(None));
    assert_eq!(c.build_history(), "5/0");
    // the division is pending again, with its zero divisor
    assert_eq!(c.perform_exp_input("+".to_string()), Err("Divide to zero".to_string()));
}

#[test]
fn divide_by_zero_rollback_then_edit() {
    let mut c = Calculator::<F>::new();
    type_units(&mut c, &["5", "/", "0"]);
    assert_eq!(c.perform_feature(&Feature::Eval), Ok(None));
    assert_eq!(c.perform_exp_input("2".to_string()), shows("02"));
    assert_eq!(c.perform_feature(&Feature::Eval), shows("2.5"));
}

#[test]
fn backspace_rederives_running_value() {
    let mut c = Calculator::<F>::new();
    type_units(&mut c, &["1", "2", "+", "3"]);
    assert_eq!(c.perform_feature(&Feature::DEL), shows("12"));
    assert_eq!(c.build_history(), "12");
}

#[test]
fn backspace_within_operand() {
    let mut c = Calculator::<F>::new();
    type_units(&mut c, &["1", "2", "3"]);
    assert_eq!(c.perform_feature(&Feature::DEL), shows("12"));
    assert_eq!(c.build_history(), "12");
}

#[test]
fn backspace_on_nothing_changes_nothing() {
    let mut c = Calculator::<F>::new();
    assert_eq!(c.perform_feature(&Feature::DEL), Ok(None));
    type_units(&mut c, &["7"]);
    assert_eq!(c.perform_feature(&Feature::DEL), shows("0"));
    assert_eq!(c.build_history(), "");
}

#[test]
fn memory_survives_clear() {
    let mut c = Calculator::<F>::new();
    type_units(&mut c, &["2", "+", "2"]);
    assert_eq!(c.perform_feature(&Feature::Eval), shows("4"));
    assert_eq!(c.perform_feature(&Feature::MS), Ok(None));
    assert_eq!(c.perform_feature(&Feature::C), shows("0"));
    assert_eq!(c.perform_feature(&Feature::MR), shows("4"));
    assert_eq!(c.build_history(), "4");
}

#[test]
fn memory_recall_when_empty() {
    let mut c = Calculator::<F>::new();
    assert_eq!(c.perform_feature(&Feature::MR), Ok(None));
}

#[test]
fn memory_store_ignores_non_decimal_display() {
    let mut c = Calculator::<F>::new();
    assert_eq!(type_units(&mut c, &["1", "."]), shows("1."));
    assert_eq!(c.perform_feature(&Feature::MS), Ok(None));
    assert_eq!(c.perform_feature(&Feature::MR), Ok(None));
    type_units(&mut c, &["5"]);
    assert_eq!(c.perform_feature(&Feature::MS), Ok(None));
    assert_eq!(c.perform_feature(&Feature::MR), shows("1.5"));
}

#[test]
fn clear_entry_shows_top_value() {
    let mut c = Calculator::<F>::new();
    assert_eq!(c.perform_feature(&Feature::CE), shows("0"));
    type_units(&mut c, &["8", "+", "5"]);
    assert_eq!(c.perform_feature(&Feature::CE), shows("8"));
    assert_eq!(c.build_history(), "8+");
}

#[test]
fn constant_replaces_operand() {
    let mut c = Calculator::<F>::new();
    c.add_constant("π".to_string(), "3.5".to_string());
    type_units(&mut c, &["1"]);
    assert_eq!(c.perform_exp_input("π".to_string()), shows("3.5"));
    type_units(&mut c, &["*", "2"]);
    assert_eq!(c.perform_feature(&Feature::Eval), shows("7"));
    c.add_constant("π".to_string(), "3".to_string());
    assert_eq!(c.perform_exp_input("π".to_string()), shows("3"));
}

#[test]
fn result_chains_into_next_expression() {
    let mut c = Calculator::<F>::new();
    type_units(&mut c, &["6", "*", "7"]);
    assert_eq!(c.perform_feature(&Feature::Eval), shows("42"));
    assert_eq!(c.build_history(), "6*7 =");
    type_units(&mut c, &["-", "2"]);
    assert_eq!(c.perform_feature(&Feature::Eval), shows("40"));
}

#[test]
fn input_errors_are_reported() {
    let mut c = Calculator::<F>::new();
    assert_eq!(c.perform_exp_input(String::new()), Err("Empty token".to_string()));
    assert_eq!(c.perform_exp_input("foo".to_string()), Err("No functor found".to_string()));
    assert_eq!(c.perform_feature(&Feature::C), shows("0"));
    assert_eq!(c.build_history(), "");
}

#[test]
fn evaluate_without_input_changes_nothing() {
    let mut c = Calculator::<F>::new();
    assert_eq!(c.perform_feature(&Feature::Eval), Ok(None));
    type_units(&mut c, &["3", "+"]);
    assert_eq!(c.perform_feature(&Feature::Eval), Ok(None));
    assert_eq!(c.build_history(), "3+");
}

#[test]
fn evaluator_token_errors() {
    let mut e = Evaluator::<F>::new();
    assert_eq!(put(&mut e, ""), Err(CalcError::EmptyToken));
    assert_eq!(put(&mut e, "1a"), Err(CalcError::InvalidOperandLiteral));
    assert_eq!(put(&mut e, "12."), Err(CalcError::InvalidOperandLiteral));
    assert_eq!(put(&mut e, "x"), Err(CalcError::UnknownFunction));
    assert_eq!(e.op_size(), 0);
}

#[test]
fn evaluator_reduction_and_division_by_zero() {
    let mut e = Evaluator::<F>::new();
    assert_eq!(put(&mut e, "5"), Ok(Some(5.0)));
    assert_eq!(put(&mut e, "/"), Ok(None));
    assert_eq!(put(&mut e, "0"), Ok(Some(0.0)));
    assert_eq!(put(&mut e, "+"), Err(CalcError::DivideByZero));
    assert_eq!(e.op_size(), 1);
    assert!(e.evaluate().is_err());
}

#[test]
fn evaluator_negative_square_root() {
    let mut e = Evaluator::<F>::new();
    assert_eq!(put(&mut e, "√"), Ok(None));
    assert_eq!(put(&mut e, "-4"), Ok(Some(-4.0)));
    assert_eq!(e.evaluate(), Err(CalcError::MalformedExpression));
    assert_eq!(e.excution_context.error, Some(CalcError::NegativeSqrt));
}

#[test]
fn evaluator_unmatched_brackets() {
    let mut e = Evaluator::<F>::new();
    assert_eq!(put(&mut e, "2"), Ok(Some(2.0)));
    // a closing bracket on an empty operator stack is pushed like any functor
    assert_eq!(put(&mut e, ")"), Ok(None));
    assert_eq!(e.evaluate(), Err(CalcError::MalformedExpression));
    assert_eq!(e.excution_context.error, Some(CalcError::BracketMismatch));
    let mut e = Evaluator::<F>::new();
    assert_eq!(put(&mut e, "("), Ok(None));
    assert_eq!(put(&mut e, "1"), Ok(Some(1.0)));
    assert_eq!(e.evaluate(), Err(CalcError::MalformedExpression));
}

#[test]
fn evaluator_nested_brackets() {
    let mut e = Evaluator::<F>::new();
    for t in ["(", "(", "1", "+", "2", ")", "*", "3", ")"] {
        assert!(put(&mut e, t).is_ok());
    }
    assert_eq!(e.op_size(), 0);
    assert_eq!(e.evaluate().map(|v| v.0), Ok(9.0));
}

#[test]
fn evaluator_square_and_reciprocal() {
    let mut e = Evaluator::<F>::new();
    put(&mut e, "²").unwrap();
    put(&mut e, "3").unwrap();
    assert_eq!(e.evaluate().map(|v| v.0), Ok(9.0));
    let mut e = Evaluator::<F>::new();
    put(&mut e, "⅟").unwrap();
    put(&mut e, "4").unwrap();
    assert_eq!(e.evaluate().map(|v| v.0), Ok(0.25));
    let mut e = Evaluator::<F>::new();
    put(&mut e, "⅟").unwrap();
    put(&mut e, "0").unwrap();
    assert!(e.evaluate().is_err());
    assert_eq!(e.excution_context.error, Some(CalcError::DivideByZero));
}

#[test]
fn registry_lookup() {
    let lib = FunctionLib::new();
    let get = |s: &str| lib.get_functor(&s.to_string());
    assert_eq!(get("+"), Some(Functor::Add));
    assert_eq!(get("-"), Some(Functor::Sub));
    assert_eq!(get("*"), Some(Functor::Mul));
    assert_eq!(get("/"), Some(Functor::Div));
    assert_eq!(get("sin"), Some(Functor::Sin));
    assert_eq!(get("cos"), Some(Functor::Cos));
    assert_eq!(get("tan"), Some(Functor::Tan));
    assert_eq!(get("√"), Some(Functor::Sqrt));
    assert_eq!(get("²"), Some(Functor::Sqr));
    assert_eq!(get("⅟"), Some(Functor::Inv));
    assert_eq!(get("("), Some(Functor::OpenBracket));
    assert_eq!(get(")"), Some(Functor::CloseBracket));
    assert_eq!(get("sinh"), None);
    assert_eq!(get(""), None);
    assert_eq!(get("x"), None);
}

#[test]
fn functor_descriptors() {
    assert_eq!(Functor::OpenBracket.priority(), 0);
    assert_eq!(Functor::Sin.priority(), 3);
    assert_eq!(Functor::Mul.priority(), 5);
    assert_eq!(Functor::Add.priority(), 6);
    assert_eq!(Functor::CloseBracket.priority(), 999);
    assert_eq!(Functor::CloseBracket.arg_count(), 0);
    assert_eq!(Functor::Sqrt.arg_count(), 1);
    assert_eq!(Functor::Div.arg_count(), 2);
    assert_eq!(Functor::Add.id(), 0);
    assert_eq!(Functor::Inv.id(), 16);
}

#[test]
fn functor_computations() {
    assert_eq!(Add.compute(F(2.0), F(3.0)), Ok(F(5.0)));
    assert_eq!(Div.compute(F(1.0), F(4.0)), Ok(F(0.25)));
    assert_eq!(Div.compute(F(1.0), F(0.0)), Err(CalcError::DivideByZero));
    assert_eq!(Inv.compute(F(0.0)), Err(CalcError::DivideByZero));
    assert_eq!(Sqrt.compute(F(-1.0)), Err(CalcError::NegativeSqrt));
    assert_eq!(Sqrt.compute(F(16.0)), Ok(F(4.0)));
}

#[test]
fn error_messages() {
    assert_eq!(CalcError::EmptyToken.message(), "Empty token");
    assert_eq!(CalcError::UnknownFunction.message(), "No functor found");
    assert_eq!(CalcError::InvalidOperandLiteral.message(), "Invalid token");
    assert_eq!(CalcError::DivideByZero.message(), "Divide to zero");
    assert_eq!(
        CalcError::NegativeSqrt.message(),
        "Square root of negative number is undefined"
    );
    assert_eq!(CalcError::MalformedExpression.message(), "Malformed expression");
    assert_eq!(CalcError::BracketMismatch.message(), "Bracket mismatch");
}

#[test]
fn backspace_after_rollback_reaches_committed_operator() {
    let mut c = Calculator::<F>::new();
    type_units(&mut c, &["5", "/", "0"]);
    assert_eq!(c.perform_feature(&Feature::Eval), Ok(None));
    // the restored operand empties, so the operator goes too
    assert_eq!(c.perform_feature(&Feature::DEL), shows("5"));
    assert_eq!(c.build_history(), "5");
    assert_eq!(type_units(&mut c, &["/", "2"]), shows("2"));
    assert_eq!(c.perform_feature(&Feature::Eval), shows("2.5"));
}

#[test]
fn malformed_literal_input_is_reported() {
    let mut c = Calculator::<F>::new();
    assert_eq!(c.perform_exp_input("1a".to_string()), Err("Invalid token".to_string()));
}

#[test]
fn whole_number_unit_is_committed() {
    let mut c = Calculator::<F>::new();
    type_units(&mut c, &["1", "+"]);
    assert_eq!(c.perform_exp_input("42".to_string()), shows("42"));
    assert_eq!(c.build_history(), "1+42");
    assert_eq!(c.perform_feature(&Feature::Eval), shows("43"));
}

#[test]
fn opening_bracket_drops_typed_operand() {
    let mut c = Calculator::<F>::new();
    type_units(&mut c, &["7", "(", "1", "+", "1", ")", "²"]);
    assert_eq!(c.build_history(), "(1+1)²");
    assert_eq!(c.perform_feature(&Feature::Eval), shows("4"));
    let mut c = Calculator::<F>::new();
    type_units(&mut c, &["7", "(", "3", ")"]);
    assert_eq!(c.build_history(), "(3)");
    assert_eq!(c.perform_feature(&Feature::Eval), shows("3"));
}

#[test]
fn trigonometry_in_radians() {
    let mut c = Calculator::<F>::new();
    type_units(&mut c, &["cos", "0"]);
    assert_eq!(c.perform_feature(&Feature::Eval), shows("1"));
    type_units(&mut c, &["tan", "0"]);
    assert_eq!(c.perform_feature(&Feature::Eval), shows("0"));
}

#[test]
fn flush_error_surfaces_and_clears() {
    let mut c = Calculator::<F>::new();
    type_units(&mut c, &["1", ".", "."]);
    assert_eq!(c.perform_exp_input("+".to_string()), Err("Invalid token".to_string()));
    assert_eq!(c.build_history(), "");
    type_units(&mut c, &["2", "+", "2"]);
    assert_eq!(c.perform_feature(&Feature::Eval), shows("4"));
}

#[test]
fn closing_bracket_after_reduction_shows_value() {
    let mut e = Evaluator::<F>::new();
    for t in ["2", "+", "3"] {
        put(&mut e, t).unwrap();
    }
    assert_eq!(put(&mut e, ")"), Ok(Some(5.0)));
    assert_eq!(e.op_size(), 1);
}

#[test]
fn equal_precedence_reduces_in_evaluator() {
    let mut e = Evaluator::<F>::new();
    for t in ["2", "-", "3"] {
        put(&mut e, t).unwrap();
    }
    assert_eq!(put(&mut e, "+"), Ok(Some(-1.0)));
    assert_eq!(e.op_size(), 1);
    put(&mut e, "4").unwrap();
    assert_eq!(e.evaluate().map(|v| v.0), Ok(3.0));
}
