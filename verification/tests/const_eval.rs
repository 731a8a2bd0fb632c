use coil_typecheck::ast::{Expression, Output};
use coil_typecheck::const_eval::{
    eval_bool_const, eval_const, Arithmetic, Comparison, ConstVal, FloatAnswer, FloatQuery, Folded,
};
use coil_typecheck::maps::NameMap;
use coil_typecheck::report::Span;

fn out(expr: Expression) -> Output {
    Output { span: Span { start: 0, end: 0 }, expr: Box::new(expr) }
}

fn num(n: i64) -> Output {
    out(Expression::Integer(n))
}

fn float(f: f64) -> Output {
    out(Expression::Float(f.to_bits()))
}

fn name(n: &str) -> Output {
    out(Expression::Identifier(n.to_string()))
}

fn truth(e: &Output, consts: &NameMap<ConstVal>) -> Option<bool> {
    match eval_bool_const(e, consts, &vec![]) {
        Folded::Known(ConstVal::Bool(b)) => Some(b),
        Folded::Unknown => None,
        other => panic!("no truth value: {:?}", other),
    }
}

fn value(e: Expression) -> Folded {
    eval_const(&out(e), &NameMap::new(), &vec![])
}

fn known(n: i64) -> Folded {
    Folded::Known(ConstVal::Int(n))
}

fn flag(b: bool) -> Folded {
    Folded::Known(ConstVal::Bool(b))
}

#[test]
fn folds_true_literal() {
    let e = out(Expression::Bool(true));
    assert_eq!(truth(&e, &NameMap::new()), Some(true));
}

#[test]
fn folds_eq_ints() {
    let e = out(Expression::Eq(num(1), num(1)));
    assert_eq!(truth(&e, &NameMap::new()), Some(true));
}

#[test]
fn folds_const_binding() {
    let e = name("flag");
    let mut consts = NameMap::new();
    consts.insert("flag".to_string(), ConstVal::Bool(true));
    assert_eq!(truth(&e, &consts), Some(true));
}

#[test]
fn and_short_circuits_on_false_left() {
    let e = out(Expression::And(out(Expression::Bool(false)), name("unknown")));
    assert_eq!(truth(&e, &NameMap::new()), Some(false));
}

#[test]
fn or_short_circuits_on_true_left() {
    let e = out(Expression::Or(out(Expression::Bool(true)), name("unknown")));
    assert_eq!(truth(&e, &NameMap::new()), Some(true));
}

#[test]
fn int_nonzero_is_truthy_for_loop_conds() {
    assert_eq!(truth(&num(1), &NameMap::new()), Some(true));
    assert_eq!(truth(&num(0), &NameMap::new()), Some(false));
}

#[test]
fn unknown_names_do_not_fold() {
    assert_eq!(truth(&name("x"), &NameMap::new()), None);
    let e = out(Expression::And(out(Expression::Bool(true)), name("x")));
    assert_eq!(truth(&e, &NameMap::new()), None);
}

#[test]
fn integer_arithmetic_folds() {
    assert_eq!(value(Expression::Add(num(2), num(3))), known(5));
    assert_eq!(value(Expression::Sub(num(2), num(3))), known(-1));
    assert_eq!(value(Expression::Mul(num(-4), num(3))), known(-12));
    assert_eq!(value(Expression::Div(num(-7), num(2))), known(-3));
    assert_eq!(value(Expression::Mod(num(-7), num(2))), known(-1));
    assert_eq!(value(Expression::Negate(num(7))), known(-7));
    assert_eq!(value(Expression::Positive(num(7))), known(7));
    assert_eq!(value(Expression::Tuple(vec![])), known(0));
}

#[test]
fn overflow_and_division_by_zero_do_not_fold() {
    assert_eq!(value(Expression::Add(num(i64::MAX), num(1))), Folded::Unknown);
    assert_eq!(value(Expression::Mul(num(i64::MAX), num(2))), Folded::Unknown);
    assert_eq!(value(Expression::Div(num(1), num(0))), Folded::Unknown);
    assert_eq!(value(Expression::Mod(num(1), num(0))), Folded::Unknown);
    assert_eq!(value(Expression::Div(num(i64::MIN), num(-1))), Folded::Unknown);
    assert_eq!(value(Expression::Negate(num(i64::MIN))), Folded::Unknown);
}

#[test]
fn comparisons_fold() {
    assert_eq!(value(Expression::Neq(num(1), num(2))), flag(true));
    assert_eq!(value(Expression::Le(num(1), num(1))), flag(false));
    assert_eq!(value(Expression::Leq(num(1), num(1))), flag(true));
    assert_eq!(value(Expression::Gt(num(2), num(1))), flag(true));
    assert_eq!(value(Expression::Geq(num(0), num(1))), flag(false));
    let t = out(Expression::Bool(true));
    let f = out(Expression::Bool(false));
    assert_eq!(value(Expression::Le(f, t)), flag(true));
}

#[test]
fn negation_takes_the_truth_of_any_value() {
    assert_eq!(value(Expression::LogicalNot(num(3))), flag(false));
    assert_eq!(value(Expression::Not(num(0))), flag(true));
    assert_eq!(value(Expression::Negate(out(Expression::Bool(true)))), Folded::Unknown);
}

#[test]
fn whole_floats_count_as_integers() {
    let whole = |f: f64| ConstVal::Float(f.to_bits()).as_int();
    assert_eq!(whole(0.0), Some(0));
    assert_eq!(whole(-0.0), Some(0));
    assert_eq!(whole(1.0), Some(1));
    assert_eq!(whole(-12.0), Some(-12));
    assert_eq!(whole(1.5), None);
    assert_eq!(whole(5e-324), None);
    assert_eq!(whole(9007199254740993.0), Some(9007199254740992));
    assert_eq!(whole(1e300), Some(i64::MAX));
    assert_eq!(whole(-1e300), Some(i64::MIN));
    assert_eq!(whole(-9223372036854775808.0), Some(i64::MIN));
    assert_eq!(whole(9223372036854775808.0), Some(i64::MAX));
    assert_eq!(whole(f64::INFINITY), None);
    assert_eq!(whole(f64::NAN), None);
    for n in [1i64, 3, 1 << 20, (1 << 53) - 1, 1 << 62, -(1 << 40)] {
        assert_eq!(whole(n as f64), Some(n));
    }
}

#[test]
fn float_truth_is_being_nonzero() {
    let truth = |f: f64| ConstVal::Float(f.to_bits()).as_bool();
    assert_eq!(truth(0.0), Some(false));
    assert_eq!(truth(-0.0), Some(false));
    assert_eq!(truth(0.5), Some(true));
    assert_eq!(truth(f64::NAN), Some(true));
}

#[test]
fn float_negation_flips_the_sign() {
    assert_eq!(
        value(Expression::Negate(float(1.5))),
        Folded::Known(ConstVal::Float((-1.5f64).to_bits()))
    );
    assert_eq!(
        value(Expression::Negate(float(-0.25))),
        Folded::Known(ConstVal::Float(0.25f64.to_bits()))
    );
}

#[test]
fn float_questions_are_asked_and_answered() {
    let e = out(Expression::Gt(out(Expression::Add(float(1.5), num(1))), num(2)));
    let consts = NameMap::new();
    let first = FloatQuery::Combine(
        Arithmetic::Add,
        ConstVal::Float(1.5f64.to_bits()),
        ConstVal::Int(1),
    );
    assert_eq!(eval_const(&e, &consts, &vec![]), Folded::Ask(first));
    let mut table = vec![FloatAnswer {
        query: first,
        value: Some(ConstVal::Float(2.5f64.to_bits())),
    }];
    let second = FloatQuery::Compare(
        Comparison::Gt,
        ConstVal::Float(2.5f64.to_bits()),
        ConstVal::Int(2),
    );
    assert_eq!(eval_const(&e, &consts, &table), Folded::Ask(second));
    table.push(FloatAnswer { query: second, value: Some(ConstVal::Bool(true)) });
    assert_eq!(eval_const(&e, &consts, &table), flag(true));
    let nan = vec![FloatAnswer { query: first, value: None }];
    assert_eq!(eval_const(&e, &consts, &nan), Folded::Unknown);
}

#[test]
fn float_remainders_do_not_fold() {
    assert_eq!(value(Expression::Mod(float(1.5), num(1))), Folded::Unknown);
    assert_eq!(value(Expression::Add(float(1.5), out(Expression::Bool(true)))), Folded::Unknown);
}
