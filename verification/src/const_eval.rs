//! Constant evaluation of loop conditions.
//!
//! Integers and booleans are folded here. A float is carried by its bits: what
//! needs float arithmetic is asked for, and the answers come back in a table.
use crate::ast::{Expression, Output};
use crate::maps::NameMap;
use vstd::arithmetic::power2;
use vstd::prelude::*;

verus! {

/// A value known when the program is compiled. A float stands by its bits.
#[derive(Debug, Clone, Copy, PartialEq, Eq, Structural)]
pub enum ConstVal {
    Bool(bool),
    Int(i64),
    Float(u64),
}

impl DeepView for ConstVal {
    type V = ConstVal;

    open spec fn deep_view(&self) -> ConstVal {
        *self
    }
}

#[derive(Debug, Clone, Copy, PartialEq, Eq, Structural)]
pub enum Comparison {
    Eq,
    Ne,
    Lt,
    Gt,
    Le,
    Ge,
}

#[derive(Debug, Clone, Copy, PartialEq, Eq, Structural)]
pub enum Arithmetic {
    Add,
    Sub,
    Mul,
    Div,
    Mod,
}

/// A question on floats: at least one of the two values is a float, the other
/// may be an integer to be converted.
#[derive(Debug, Clone, Copy, PartialEq, Eq, Structural)]
pub enum FloatQuery {
    /// Does the comparison hold?
    Compare(Comparison, ConstVal, ConstVal),
    /// What is the result, if it is a number?
    Combine(Arithmetic, ConstVal, ConstVal),
}

/// An answered question. `None` stands for a result that is not a number.
#[derive(Debug, Clone, Copy, PartialEq, Eq, Structural)]
pub struct FloatAnswer {
    pub query: FloatQuery,
    pub value: Option<ConstVal>,
}

/// What became of an expression.
#[derive(Debug, Clone, Copy, PartialEq, Eq, Structural)]
pub enum Folded {
    /// It has this value.
    Known(ConstVal),
    /// It is no constant.
    Unknown,
    /// Its value depends on the answer to this question.
    Ask(FloatQuery),
}

/// The sign bit of a float.
pub open spec fn is_negative(bits: u64) -> bool {
    bits >= 0x8000_0000_0000_0000
}

/// The exponent field of a float.
pub open spec fn exponent(bits: u64) -> int {
    (bits as int / 0x10_0000_0000_0000) % 2048
}

/// The fraction field of a float.
pub open spec fn fraction(bits: u64) -> int {
    bits as int % 0x10_0000_0000_0000
}

/// The significand of a finite float: an integer, to be scaled by a power of two.
pub open spec fn significand(bits: u64) -> int {
    if exponent(bits) == 0 {
        fraction(bits)
    } else {
        0x10_0000_0000_0000 + fraction(bits)
    }
}

/// The power of two by which the significand is scaled.
pub open spec fn scale(bits: u64) -> int {
    if exponent(bits) == 0 {
        -1074
    } else {
        exponent(bits) - 1075
    }
}

/// The magnitude of a finite float that is an integer.
pub open spec fn whole_magnitude(bits: u64) -> Option<int> {
    let s = significand(bits);
    let x = scale(bits);
    if exponent(bits) == 2047 {
        None
    } else if x >= 0 {
        Some(s * power2::pow2(x as nat))
    } else if s % (power2::pow2((-x) as nat) as int) == 0 {
        Some(s / (power2::pow2((-x) as nat) as int))
    } else {
        None
    }
}

/// The integer nearest to `n` that an `i64` can hold.
pub open spec fn clamped(n: int) -> i64 {
    if n > i64::MAX {
        i64::MAX
    } else if n < i64::MIN {
        i64::MIN
    } else {
        n as i64
    }
}

/// The integer that a float is, within the bounds of an `i64`.
#[verifier::opaque]
pub open spec fn whole(bits: u64) -> Option<i64> {
    match whole_magnitude(bits) {
        Some(n) => Some(
            clamped(
                if is_negative(bits) {
                    -n
                } else {
                    n
                },
            ),
        ),
        None => None,
    }
}

/// Whether a value counts as true: everything but `false` and zero.
pub open spec fn truth(v: ConstVal) -> bool {
    match v {
        ConstVal::Bool(b) => b,
        ConstVal::Int(i) => i != 0,
        ConstVal::Float(bits) => bits != 0 && bits != 0x8000_0000_0000_0000,
    }
}

/// The integer that a value is.
pub open spec fn integer(v: ConstVal) -> Option<i64> {
    match v {
        ConstVal::Int(i) => Some(i),
        ConstVal::Bool(b) => Some(
            if b {
                1
            } else {
                0
            },
        ),
        ConstVal::Float(bits) => whole(bits),
    }
}

/// Whether a comparison holds between integers.
pub open spec fn int_holds(op: Comparison, a: i64, b: i64) -> bool {
    match op {
        Comparison::Eq => a == b,
        Comparison::Ne => a != b,
        Comparison::Lt => a < b,
        Comparison::Gt => a > b,
        Comparison::Le => a <= b,
        Comparison::Ge => a >= b,
    }
}

/// The result of an operation on integers, when it fits. Division truncates.
pub open spec fn int_result(op: Arithmetic, a: i64, b: i64) -> Option<i64> {
    match op {
        Arithmetic::Add => a.checked_add(b),
        Arithmetic::Sub => a.checked_sub(b),
        Arithmetic::Mul => a.checked_mul(b),
        Arithmetic::Div => a.checked_div(b),
        Arithmetic::Mod => a.checked_rem(b),
    }
}

/// What the table says to a question.
pub open spec fn answer(table: Seq<FloatAnswer>, query: FloatQuery) -> Option<Option<ConstVal>>
    decreases table.len(),
{
    if table.len() == 0 {
        None
    } else if table[0].query == query {
        Some(table[0].value)
    } else {
        answer(table.drop_first(), query)
    }
}

/// A question is answered from the table, or asked.
pub open spec fn asked(table: Seq<FloatAnswer>, query: FloatQuery) -> Folded {
    match answer(table, query) {
        Some(Some(v)) => Folded::Known(v),
        Some(None) => Folded::Unknown,
        None => Folded::Ask(query),
    }
}

/// A comparison of two values.
pub open spec fn compared(
    op: Comparison,
    a: ConstVal,
    b: ConstVal,
    table: Seq<FloatAnswer>,
) -> Folded {
    match (integer(a), integer(b)) {
        (Some(x), Some(y)) => Folded::Known(ConstVal::Bool(int_holds(op, x, y))),
        _ => if a is Bool || b is Bool {
            Folded::Unknown
        } else {
            asked(table, FloatQuery::Compare(op, a, b))
        },
    }
}

/// An operation on two values. The remainder of floats is not folded.
pub open spec fn combined(
    op: Arithmetic,
    a: ConstVal,
    b: ConstVal,
    table: Seq<FloatAnswer>,
) -> Folded {
    match (integer(a), integer(b)) {
        (Some(x), Some(y)) => match int_result(op, x, y) {
            Some(n) => Folded::Known(ConstVal::Int(n)),
            None => Folded::Unknown,
        },
        _ => if a is Bool || b is Bool || op is Mod {
            Folded::Unknown
        } else {
            asked(table, FloatQuery::Combine(op, a, b))
        },
    }
}

/// The negative of a value.
pub open spec fn negated(v: ConstVal) -> Folded {
    match v {
        ConstVal::Int(i) => if i == i64::MIN {
            Folded::Unknown
        } else {
            Folded::Known(ConstVal::Int((-i) as i64))
        },
        ConstVal::Float(bits) => Folded::Known(
            ConstVal::Float(
                if is_negative(bits) {
                    (bits - 0x8000_0000_0000_0000) as u64
                } else {
                    (bits + 0x8000_0000_0000_0000) as u64
                },
            ),
        ),
        ConstVal::Bool(_) => Folded::Unknown,
    }
}

/// The first of two results that is no value.
pub open spec fn first_failure(a: Folded, b: Folded) -> Folded {
    if a is Known {
        b
    } else {
        a
    }
}

/// The truth of a result, negated when `flip` is set.
pub open spec fn truth_of(r: Folded, flip: bool) -> Folded {
    match r {
        Folded::Known(v) => Folded::Known(ConstVal::Bool(truth(v) != flip)),
        _ => r,
    }
}

/// The value of an expression, under the constants in scope and the answers so
/// far.
pub open spec fn fold(
    e: Output,
    consts: Map<Seq<char>, ConstVal>,
    table: Seq<FloatAnswer>,
) -> Folded
    decreases e,
{
    match *e.expr {
        Expression::Statement(inner) => fold(inner, consts, table),
        Expression::Expr(inner) => fold(inner, consts, table),
        Expression::ExprStatement(inner) => fold(inner, consts, table),
        Expression::Group(inner) => fold(inner, consts, table),
        Expression::Positive(inner) => fold(inner, consts, table),
        Expression::Bool(b) => Folded::Known(ConstVal::Bool(b)),
        Expression::Integer(n) => Folded::Known(ConstVal::Int(n)),
        Expression::Float(bits) => Folded::Known(ConstVal::Float(bits)),
        Expression::Identifier(name) => if consts.contains_key(name@) {
            Folded::Known(consts[name@])
        } else {
            Folded::Unknown
        },
        Expression::Not(inner) => truth_of(fold(inner, consts, table), true),
        Expression::LogicalNot(inner) => truth_of(fold(inner, consts, table), true),
        Expression::Negate(inner) => match fold(inner, consts, table) {
            Folded::Known(v) => negated(v),
            other => other,
        },
        Expression::And(l, r) => match fold(l, consts, table) {
            Folded::Known(v) => if truth(v) {
                truth_of(fold(r, consts, table), false)
            } else {
                Folded::Known(ConstVal::Bool(false))
            },
            other => other,
        },
        Expression::Or(l, r) => match fold(l, consts, table) {
            Folded::Known(v) => if truth(v) {
                Folded::Known(ConstVal::Bool(true))
            } else {
                truth_of(fold(r, consts, table), false)
            },
            other => other,
        },
        Expression::Eq(l, r) => match (fold(l, consts, table), fold(r, consts, table)) {
            (Folded::Known(a), Folded::Known(b)) => compared(Comparison::Eq, a, b, table),
            (a, b) => first_failure(a, b),
        },
        Expression::Neq(l, r) => match (fold(l, consts, table), fold(r, consts, table)) {
            (Folded::Known(a), Folded::Known(b)) => compared(Comparison::Ne, a, b, table),
            (a, b) => first_failure(a, b),
        },
        Expression::Le(l, r) => match (fold(l, consts, table), fold(r, consts, table)) {
            (Folded::Known(a), Folded::Known(b)) => compared(Comparison::Lt, a, b, table),
            (a, b) => first_failure(a, b),
        },
        Expression::Gt(l, r) => match (fold(l, consts, table), fold(r, consts, table)) {
            (Folded::Known(a), Folded::Known(b)) => compared(Comparison::Gt, a, b, table),
            (a, b) => first_failure(a, b),
        },
        Expression::Leq(l, r) => match (fold(l, consts, table), fold(r, consts, table)) {
            (Folded::Known(a), Folded::Known(b)) => compared(Comparison::Le, a, b, table),
            (a, b) => first_failure(a, b),
        },
        Expression::Geq(l, r) => match (fold(l, consts, table), fold(r, consts, table)) {
            (Folded::Known(a), Folded::Known(b)) => compared(Comparison::Ge, a, b, table),
            (a, b) => first_failure(a, b),
        },
        Expression::Add(l, r) => match (fold(l, consts, table), fold(r, consts, table)) {
            (Folded::Known(a), Folded::Known(b)) => combined(Arithmetic::Add, a, b, table),
            (a, b) => first_failure(a, b),
        },
        Expression::Sub(l, r) => match (fold(l, consts, table), fold(r, consts, table)) {
            (Folded::Known(a), Folded::Known(b)) => combined(Arithmetic::Sub, a, b, table),
            (a, b) => first_failure(a, b),
        },
        Expression::Mul(l, r) => match (fold(l, consts, table), fold(r, consts, table)) {
            (Folded::Known(a), Folded::Known(b)) => combined(Arithmetic::Mul, a, b, table),
            (a, b) => first_failure(a, b),
        },
        Expression::Div(l, r) => match (fold(l, consts, table), fold(r, consts, table)) {
            (Folded::Known(a), Folded::Known(b)) => combined(Arithmetic::Div, a, b, table),
            (a, b) => first_failure(a, b),
        },
        Expression::Mod(l, r) => match (fold(l, consts, table), fold(r, consts, table)) {
            (Folded::Known(a), Folded::Known(b)) => combined(Arithmetic::Mod, a, b, table),
            (a, b) => first_failure(a, b),
        },
        Expression::Tuple(items) => if items@.len() == 0 {
            Folded::Known(ConstVal::Int(0))
        } else {
            Folded::Unknown
        },
        _ => Folded::Unknown,
    }
}

/// Every question that comes up is one the table does not answer, so that each
/// answer brings the evaluation further.
pub proof fn questions_are_new(e: Output, consts: Map<Seq<char>, ConstVal>, table: Seq<FloatAnswer>)
    ensures
        fold(e, consts, table) matches Folded::Ask(q) ==> answer(table, q) is None,
    decreases e,
{
    crate::ast::operands_shrink(e);
    match *e.expr {
        Expression::Statement(inner) => questions_are_new(inner, consts, table),
        Expression::Expr(inner) => questions_are_new(inner, consts, table),
        Expression::ExprStatement(inner) => questions_are_new(inner, consts, table),
        Expression::Group(inner) => questions_are_new(inner, consts, table),
        Expression::Positive(inner) => questions_are_new(inner, consts, table),
        Expression::Not(inner) => questions_are_new(inner, consts, table),
        Expression::LogicalNot(inner) => questions_are_new(inner, consts, table),
        Expression::Negate(inner) => questions_are_new(inner, consts, table),
        Expression::And(l, r) => {
            questions_are_new(l, consts, table);
            questions_are_new(r, consts, table);
        },
        Expression::Or(l, r) => {
            questions_are_new(l, consts, table);
            questions_are_new(r, consts, table);
        },
        Expression::Eq(l, r) => {
            questions_are_new(l, consts, table);
            questions_are_new(r, consts, table);
        },
        Expression::Neq(l, r) => {
            questions_are_new(l, consts, table);
            questions_are_new(r, consts, table);
        },
        Expression::Le(l, r) => {
            questions_are_new(l, consts, table);
            questions_are_new(r, consts, table);
        },
        Expression::Gt(l, r) => {
            questions_are_new(l, consts, table);
            questions_are_new(r, consts, table);
        },
        Expression::Leq(l, r) => {
            questions_are_new(l, consts, table);
            questions_are_new(r, consts, table);
        },
        Expression::Geq(l, r) => {
            questions_are_new(l, consts, table);
            questions_are_new(r, consts, table);
        },
        Expression::Add(l, r) => {
            questions_are_new(l, consts, table);
            questions_are_new(r, consts, table);
        },
        Expression::Sub(l, r) => {
            questions_are_new(l, consts, table);
            questions_are_new(r, consts, table);
        },
        Expression::Mul(l, r) => {
            questions_are_new(l, consts, table);
            questions_are_new(r, consts, table);
        },
        Expression::Div(l, r) => {
            questions_are_new(l, consts, table);
            questions_are_new(r, consts, table);
        },
        Expression::Mod(l, r) => {
            questions_are_new(l, consts, table);
            questions_are_new(r, consts, table);
        },
        _ => {},
    }
}

/// An answer at the end of the table leaves the earlier ones as they are.
proof fn answers_stay(table: Seq<FloatAnswer>, more: FloatAnswer, query: FloatQuery)
    ensures
        answer(table, query) is Some ==> answer(table.push(more), query) == answer(table, query),
    decreases table.len(),
{
    if table.len() > 0 {
        assert(table.push(more).drop_first() =~= table.drop_first().push(more));
        answers_stay(table.drop_first(), more, query);
    }
}

proof fn comparison_stays(
    op: Comparison,
    l: Folded,
    r: Folded,
    table: Seq<FloatAnswer>,
    more: FloatAnswer,
)
    ensures
        match (l, r) {
            (Folded::Known(a), Folded::Known(b)) => !(compared(op, a, b, table) is Ask) ==> compared(
                op,
                a,
                b,
                table.push(more),
            ) == compared(op, a, b, table),
            _ => true,
        },
{
    if let (Folded::Known(a), Folded::Known(b)) = (l, r) {
        answers_stay(table, more, FloatQuery::Compare(op, a, b));
    }
}

proof fn combination_stays(
    op: Arithmetic,
    l: Folded,
    r: Folded,
    table: Seq<FloatAnswer>,
    more: FloatAnswer,
)
    ensures
        match (l, r) {
            (Folded::Known(a), Folded::Known(b)) => !(combined(op, a, b, table) is Ask) ==> combined(
                op,
                a,
                b,
                table.push(more),
            ) == combined(op, a, b, table),
            _ => true,
        },
{
    if let (Folded::Known(a), Folded::Known(b)) = (l, r) {
        answers_stay(table, more, FloatQuery::Combine(op, a, b));
    }
}

/// One more answer never changes a result that was already reached.
pub proof fn answers_keep_results(
    e: Output,
    consts: Map<Seq<char>, ConstVal>,
    table: Seq<FloatAnswer>,
    more: FloatAnswer,
)
    ensures
        !(fold(e, consts, table) is Ask) ==> fold(e, consts, table.push(more)) == fold(
            e,
            consts,
            table,
        ),
    decreases e,
{
    crate::ast::operands_shrink(e);
    match *e.expr {
        Expression::Statement(inner) => answers_keep_results(inner, consts, table, more),
        Expression::Expr(inner) => answers_keep_results(inner, consts, table, more),
        Expression::ExprStatement(inner) => answers_keep_results(inner, consts, table, more),
        Expression::Group(inner) => answers_keep_results(inner, consts, table, more),
        Expression::Positive(inner) => answers_keep_results(inner, consts, table, more),
        Expression::Not(inner) => answers_keep_results(inner, consts, table, more),
        Expression::LogicalNot(inner) => answers_keep_results(inner, consts, table, more),
        Expression::Negate(inner) => answers_keep_results(inner, consts, table, more),
        Expression::And(l, r) => {
            answers_keep_results(l, consts, table, more);
            answers_keep_results(r, consts, table, more);
        },
        Expression::Or(l, r) => {
            answers_keep_results(l, consts, table, more);
            answers_keep_results(r, consts, table, more);
        },
        Expression::Eq(l, r) => {
            answers_keep_results(l, consts, table, more);
            answers_keep_results(r, consts, table, more);
            comparison_stays(Comparison::Eq, fold(l, consts, table), fold(r, consts, table), table, more);
        },
        Expression::Neq(l, r) => {
            answers_keep_results(l, consts, table, more);
            answers_keep_results(r, consts, table, more);
            comparison_stays(Comparison::Ne, fold(l, consts, table), fold(r, consts, table), table, more);
        },
        Expression::Le(l, r) => {
            answers_keep_results(l, consts, table, more);
            answers_keep_results(r, consts, table, more);
            comparison_stays(Comparison::Lt, fold(l, consts, table), fold(r, consts, table), table, more);
        },
        Expression::Gt(l, r) => {
            answers_keep_results(l, consts, table, more);
            answers_keep_results(r, consts, table, more);
            comparison_stays(Comparison::Gt, fold(l, consts, table), fold(r, consts, table), table, more);
        },
        Expression::Leq(l, r) => {
            answers_keep_results(l, consts, table, more);
            answers_keep_results(r, consts, table, more);
            comparison_stays(Comparison::Le, fold(l, consts, table), fold(r, consts, table), table, more);
        },
        Expression::Geq(l, r) => {
            answers_keep_results(l, consts, table, more);
            answers_keep_results(r, consts, table, more);
            comparison_stays(Comparison::Ge, fold(l, consts, table), fold(r, consts, table), table, more);
        },
        Expression::Add(l, r) => {
            answers_keep_results(l, consts, table, more);
            answers_keep_results(r, consts, table, more);
            combination_stays(Arithmetic::Add, fold(l, consts, table), fold(r, consts, table), table, more);
        },
        Expression::Sub(l, r) => {
            answers_keep_results(l, consts, table, more);
            answers_keep_results(r, consts, table, more);
            combination_stays(Arithmetic::Sub, fold(l, consts, table), fold(r, consts, table), table, more);
        },
        Expression::Mul(l, r) => {
            answers_keep_results(l, consts, table, more);
            answers_keep_results(r, consts, table, more);
            combination_stays(Arithmetic::Mul, fold(l, consts, table), fold(r, consts, table), table, more);
        },
        Expression::Div(l, r) => {
            answers_keep_results(l, consts, table, more);
            answers_keep_results(r, consts, table, more);
            combination_stays(Arithmetic::Div, fold(l, consts, table), fold(r, consts, table), table, more);
        },
        Expression::Mod(l, r) => {
            answers_keep_results(l, consts, table, more);
            answers_keep_results(r, consts, table, more);
            combination_stays(Arithmetic::Mod, fold(l, consts, table), fold(r, consts, table), table, more);
        },
        _ => {},
    }
}

/// Halving both sides keeps divisibility and the quotient.
proof fn halving(n: int, k: nat)
    requires
        n >= 0,
        k > 0,
    ensures
        n % 2 == 0 ==> (n % (power2::pow2(k) as int) == 0 <==> (n / 2) % (power2::pow2((k - 1) as nat) as int)
            == 0),
        n % 2 != 0 ==> n % (power2::pow2(k) as int) != 0,
        n / (power2::pow2(k) as int) == (n / 2) / (power2::pow2((k - 1) as nat) as int),
{
    let p = power2::pow2((k - 1) as nat) as int;
    power2::lemma_pow2_unfold(k);
    power2::lemma_pow2_pos((k - 1) as nat);
    vstd::arithmetic::div_mod::lemma_div_denominator(n, 2, p);
    vstd::arithmetic::div_mod::lemma_mod_breakdown(n, 2, p);
    let q = n / (2 * p);
    vstd::arithmetic::div_mod::lemma_fundamental_div_mod(n, 2 * p);
    assert((2 * p) * q == 2 * (p * q)) by (nonlinear_arith);
}

/// Halve `s` while it is even, `k` times at most: the quotient, when `s` is a
/// multiple of the power.
fn divide_by_power(s: u64, k: u32) -> (r: Option<u64>)
    ensures
        match r {
            Some(n) => s as int % (power2::pow2(k as nat) as int) == 0 && n == s as int / (power2::pow2(
                k as nat,
            ) as int),
            None => s as int % (power2::pow2(k as nat) as int) != 0,
        },
{
    let mut n: u64 = s;
    let mut left: u32 = k;
    while left > 0
        invariant
            left <= k,
            s as int % (power2::pow2(k as nat) as int) == 0 <==> n as int % (power2::pow2(left as nat) as int) == 0,
            s as int / (power2::pow2(k as nat) as int) == n as int / (power2::pow2(left as nat) as int),
        decreases left,
    {
        proof {
            halving(n as int, left as nat);
        }
        if n % 2 != 0 {
            return None;
        }
        n = n / 2;
        left = left - 1;
    }
    proof {
        power2::lemma2_to64();
        assert(n as int % 1 == 0);
        assert(n as int / 1 == n);
    }
    Some(n)
}

/// Double `s` `k` times; `None` when the result is beyond any `i64`.
fn multiply_by_power(s: u64, k: u32) -> (r: Option<u64>)
    requires
        s <= 0x4000_0000_0000_0000,
    ensures
        match r {
            Some(n) => n == s * power2::pow2(k as nat) && n <= 0x8000_0000_0000_0000,
            None => s * power2::pow2(k as nat) > 0x8000_0000_0000_0000,
        },
{
    let mut n: u64 = s;
    let mut left: u32 = k;
    while left > 0
        invariant
            left <= k,
            n <= 0x8000_0000_0000_0000,
            s * power2::pow2(k as nat) == n * power2::pow2(left as nat),
        decreases left,
    {
        proof {
            power2::lemma_pow2_unfold(left as nat);
            power2::lemma_pow2_pos((left - 1) as nat);
            let p = power2::pow2((left - 1) as nat) as int;
            assert(n * (2 * p) == (2 * n) * p) by (nonlinear_arith);
            if n > 0x4000_0000_0000_0000 {
                assert((2 * n) * p >= 2 * n) by (nonlinear_arith)
                    requires
                        p >= 1,
                        n >= 0,
                ;
            }
        }
        if n > 0x4000_0000_0000_0000 {
            return None;
        }
        n = 2 * n;
        left = left - 1;
    }
    proof {
        power2::lemma2_to64();
        assert(n * power2::pow2(0) == n) by (nonlinear_arith)
            requires
                power2::pow2(0) == 1,
        ;
    }
    Some(n)
}

fn float_magnitude(bits: u64) -> (r: Option<Option<u64>>)
    ensures
        match r {
            None => whole_magnitude(bits) is None,
            Some(Some(n)) => whole_magnitude(bits) == Some(n as int) && n
                <= 0x8000_0000_0000_0000,
            Some(None) => whole_magnitude(bits) is Some && whole_magnitude(bits)->0
                > 0x8000_0000_0000_0000,
        },
{
    let field: u64 = (bits / 0x10_0000_0000_0000) % 2048;
    let low: u64 = bits % 0x10_0000_0000_0000;
    if field == 2047 {
        return None;
    }
    let s: u64 = if field == 0 {
        low
    } else {
        0x10_0000_0000_0000 + low
    };
    if field >= 1075 {
        return Some(multiply_by_power(s, (field - 1075) as u32));
    }
    let k: u32 = if field == 0 {
        1074
    } else {
        (1075 - field) as u32
    };
    match divide_by_power(s, k) {
        Some(n) => {
            proof {
                power2::lemma_pow2_pos(k as nat);
                vstd::arithmetic::div_mod::lemma_div_is_ordered_by_denominator(
                    s as int,
                    1,
                    power2::pow2(k as nat) as int,
                );
                vstd::arithmetic::div_mod::lemma_div_basics(s as int);
            }
            Some(Some(n))
        },
        None => None,
    }
}

fn whole_float(bits: u64) -> (r: Option<i64>)
    ensures
        r == whole(bits),
{
    proof {
        reveal(whole);
    }
    let negative = bits >= 0x8000_0000_0000_0000;
    match float_magnitude(bits) {
        None => None,
        Some(None) => if negative {
            Some(i64::MIN)
        } else {
            Some(i64::MAX)
        },
        Some(Some(n)) => if negative {
            if n == 0x8000_0000_0000_0000 {
                Some(i64::MIN)
            } else {
                Some(-(n as i64))
            }
        } else if n == 0x8000_0000_0000_0000 {
            Some(i64::MAX)
        } else {
            Some(n as i64)
        },
    }
}

impl ConstVal {
    /// Whether the value counts as true.
    pub fn as_bool(self) -> (r: Option<bool>)
        ensures
            r == Some(truth(self)),
    {
        match self {
            ConstVal::Bool(b) => Some(b),
            ConstVal::Int(i) => Some(i != 0),
            ConstVal::Float(bits) => Some(bits != 0 && bits != 0x8000_0000_0000_0000),
        }
    }

    /// The integer that the value is. A whole float beyond the bounds of an `i64`
    /// gives the nearest bound.
    pub fn as_int(self) -> (r: Option<i64>)
        ensures
            r == integer(self),
    {
        match self {
            ConstVal::Int(i) => Some(i),
            ConstVal::Bool(b) => Some(
                if b {
                    1
                } else {
                    0
                },
            ),
            ConstVal::Float(bits) => whole_float(bits),
        }
    }
}

fn truth_value(v: ConstVal) -> (r: bool)
    ensures
        r == truth(v),
{
    match v.as_bool() {
        Some(b) => b,
        None => false,
    }
}

fn flip_truth(r: Folded, flip: bool) -> (s: Folded)
    ensures
        s == truth_of(r, flip),
{
    match r {
        Folded::Known(v) => Folded::Known(ConstVal::Bool(truth_value(v) != flip)),
        _ => r,
    }
}

fn ask(table: &Vec<FloatAnswer>, query: FloatQuery) -> (r: Folded)
    ensures
        r == asked(table@, query),
{
    let mut i: usize = 0;
    assert(table@.skip(0) =~= table@);
    while i < table.len()
        invariant
            i <= table.len(),
            answer(table@.skip(i as int), query) == answer(table@, query),
        decreases table.len() - i,
    {
        assert(table@.skip(i as int).drop_first() =~= table@.skip(i + 1));
        if table[i].query == query {
            return match table[i].value {
                Some(v) => Folded::Known(v),
                None => Folded::Unknown,
            };
        }
        i += 1;
    }
    Folded::Ask(query)
}

fn compare(op: Comparison, a: ConstVal, b: ConstVal, table: &Vec<FloatAnswer>) -> (r: Folded)
    ensures
        r == compared(op, a, b, table@),
{
    if let (Some(x), Some(y)) = (a.as_int(), b.as_int()) {
        let holds = match op {
            Comparison::Eq => x == y,
            Comparison::Ne => x != y,
            Comparison::Lt => x < y,
            Comparison::Gt => x > y,
            Comparison::Le => x <= y,
            Comparison::Ge => x >= y,
        };
        return Folded::Known(ConstVal::Bool(holds));
    }
    match (a, b) {
        (ConstVal::Bool(_), _) => Folded::Unknown,
        (_, ConstVal::Bool(_)) => Folded::Unknown,
        _ => ask(table, FloatQuery::Compare(op, a, b)),
    }
}

fn combine(op: Arithmetic, a: ConstVal, b: ConstVal, table: &Vec<FloatAnswer>) -> (r: Folded)
    ensures
        r == combined(op, a, b, table@),
{
    if let (Some(x), Some(y)) = (a.as_int(), b.as_int()) {
        let n = match op {
            Arithmetic::Add => x.checked_add(y),
            Arithmetic::Sub => x.checked_sub(y),
            Arithmetic::Mul => x.checked_mul(y),
            Arithmetic::Div => x.checked_div(y),
            Arithmetic::Mod => x.checked_rem(y),
        };
        return match n {
            Some(n) => Folded::Known(ConstVal::Int(n)),
            None => Folded::Unknown,
        };
    }
    match (op, a, b) {
        (Arithmetic::Mod, _, _) => Folded::Unknown,
        (_, ConstVal::Bool(_), _) => Folded::Unknown,
        (_, _, ConstVal::Bool(_)) => Folded::Unknown,
        _ => ask(table, FloatQuery::Combine(op, a, b)),
    }
}

fn negate(v: ConstVal) -> (r: Folded)
    ensures
        r == negated(v),
{
    match v {
        ConstVal::Int(i) => if i == i64::MIN {
            Folded::Unknown
        } else {
            Folded::Known(ConstVal::Int(-i))
        },
        ConstVal::Float(bits) => if bits >= 0x8000_0000_0000_0000 {
            Folded::Known(ConstVal::Float(bits - 0x8000_0000_0000_0000))
        } else {
            Folded::Known(ConstVal::Float(bits + 0x8000_0000_0000_0000))
        },
        ConstVal::Bool(_) => Folded::Unknown,
    }
}

/// Evaluate `expr` when it is a pure compile-time form.
///
/// `consts` holds the `const` bindings by name. Mutable `let` bindings are not
/// folded. `table` holds the answers to the questions asked so far.
pub fn eval_const(expr: &Output, consts: &NameMap<ConstVal>, table: &Vec<FloatAnswer>) -> (r: Folded)
    ensures
        r == fold(*expr, consts@, table@),
    decreases expr,
{
    proof {
        crate::ast::operands_shrink(*expr);
    }
    match &*expr.expr {
        Expression::Statement(inner) => eval_const(inner, consts, table),
        Expression::Expr(inner) => eval_const(inner, consts, table),
        Expression::ExprStatement(inner) => eval_const(inner, consts, table),
        Expression::Group(inner) => eval_const(inner, consts, table),
        Expression::Positive(inner) => eval_const(inner, consts, table),
        Expression::Bool(b) => Folded::Known(ConstVal::Bool(*b)),
        Expression::Integer(n) => Folded::Known(ConstVal::Int(*n)),
        Expression::Float(bits) => Folded::Known(ConstVal::Float(*bits)),
        Expression::Identifier(name) => match consts.get(name.as_str()) {
            Some(v) => Folded::Known(*v),
            None => Folded::Unknown,
        },
        Expression::Not(inner) => flip_truth(eval_const(inner, consts, table), true),
        Expression::LogicalNot(inner) => flip_truth(eval_const(inner, consts, table), true),
        Expression::Negate(inner) => match eval_const(inner, consts, table) {
            Folded::Known(v) => negate(v),
            other => other,
        },
        Expression::And(l, r) => match eval_const(l, consts, table) {
            Folded::Known(v) => if truth_value(v) {
                flip_truth(eval_const(r, consts, table), false)
            } else {
                Folded::Known(ConstVal::Bool(false))
            },
            other => other,
        },
        Expression::Or(l, r) => match eval_const(l, consts, table) {
            Folded::Known(v) => if truth_value(v) {
                Folded::Known(ConstVal::Bool(true))
            } else {
                flip_truth(eval_const(r, consts, table), false)
            },
            other => other,
        },
        Expression::Eq(l, r) => match eval_const(l, consts, table) {
            Folded::Known(a) => match eval_const(r, consts, table) {
                Folded::Known(b) => compare(Comparison::Eq, a, b, table),
                other => other,
            },
            other => other,
        },
        Expression::Neq(l, r) => match eval_const(l, consts, table) {
            Folded::Known(a) => match eval_const(r, consts, table) {
                Folded::Known(b) => compare(Comparison::Ne, a, b, table),
                other => other,
            },
            other => other,
        },
        Expression::Le(l, r) => match eval_const(l, consts, table) {
            Folded::Known(a) => match eval_const(r, consts, table) {
                Folded::Known(b) => compare(Comparison::Lt, a, b, table),
                other => other,
            },
            other => other,
        },
        Expression::Gt(l, r) => match eval_const(l, consts, table) {
            Folded::Known(a) => match eval_const(r, consts, table) {
                Folded::Known(b) => compare(Comparison::Gt, a, b, table),
                other => other,
            },
            other => other,
        },
        Expression::Leq(l, r) => match eval_const(l, consts, table) {
            Folded::Known(a) => match eval_const(r, consts, table) {
                Folded::Known(b) => compare(Comparison::Le, a, b, table),
                other => other,
            },
            other => other,
        },
        Expression::Geq(l, r) => match eval_const(l, consts, table) {
            Folded::Known(a) => match eval_const(r, consts, table) {
                Folded::Known(b) => compare(Comparison::Ge, a, b, table),
                other => other,
            },
            other => other,
        },
        Expression::Add(l, r) => match eval_const(l, consts, table) {
            Folded::Known(a) => match eval_const(r, consts, table) {
                Folded::Known(b) => combine(Arithmetic::Add, a, b, table),
                other => other,
            },
            other => other,
        },
        Expression::Sub(l, r) => match eval_const(l, consts, table) {
            Folded::Known(a) => match eval_const(r, consts, table) {
                Folded::Known(b) => combine(Arithmetic::Sub, a, b, table),
                other => other,
            },
            other => other,
        },
        Expression::Mul(l, r) => match eval_const(l, consts, table) {
            Folded::Known(a) => match eval_const(r, consts, table) {
                Folded::Known(b) => combine(Arithmetic::Mul, a, b, table),
                other => other,
            },
            other => other,
        },
        Expression::Div(l, r) => match eval_const(l, consts, table) {
            Folded::Known(a) => match eval_const(r, consts, table) {
                Folded::Known(b) => combine(Arithmetic::Div, a, b, table),
                other => other,
            },
            other => other,
        },
        Expression::Mod(l, r) => match eval_const(l, consts, table) {
            Folded::Known(a) => match eval_const(r, consts, table) {
                Folded::Known(b) => combine(Arithmetic::Mod, a, b, table),
                other => other,
            },
            other => other,
        },
        Expression::Tuple(items) => if items.len() == 0 {
            Folded::Known(ConstVal::Int(0))
        } else {
            Folded::Unknown
        },
        _ => Folded::Unknown,
    }
}

/// Evaluate a condition: its value is a `Bool`.
pub fn eval_bool_const(
    expr: &Output,
    consts: &NameMap<ConstVal>,
    table: &Vec<FloatAnswer>,
) -> (r: Folded)
    ensures
        r == truth_of(fold(*expr, consts@, table@), false),
{
    flip_truth(eval_const(expr, consts, table), false)
}

} // verus!
