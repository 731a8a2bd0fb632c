//! What constant expressions evaluate to.
use crate::ast::{Expression, Output};
use crate::const_eval::{self, ConstVal, FloatAnswer, Folded};
use vstd::prelude::*;

verus! {

/// Literals are their own value, and a name has the value that it stands for.
pub proof fn literals_are_constant(
    e: Output,
    consts: Map<Seq<char>, ConstVal>,
    table: Seq<FloatAnswer>,
)
    ensures
        *e.expr matches Expression::Integer(n) ==> const_eval::fold(e, consts, table) == Folded::Known(
            ConstVal::Int(n),
        ),
        *e.expr matches Expression::Bool(b) ==> const_eval::fold(e, consts, table) == Folded::Known(
            ConstVal::Bool(b),
        ),
        *e.expr matches Expression::Float(bits) ==> const_eval::fold(e, consts, table) == Folded::Known(
            ConstVal::Float(bits),
        ),
        *e.expr matches Expression::Identifier(name) ==> (consts.contains_key(name@) ==> const_eval::fold(
            e,
            consts,
            table,
        ) == Folded::Known(consts[name@])) && (!consts.contains_key(name@) ==> const_eval::fold(
            e,
            consts,
            table,
        ) is Unknown),
        *e.expr is String ==> const_eval::fold(e, consts, table) is Unknown,
        *e.expr is Call ==> const_eval::fold(e, consts, table) is Unknown,
{
}

/// `&&` and `||` are what they are for truth values, and a left side that decides
/// leaves the right one out.
pub proof fn logic_is_evaluated(
    e: Output,
    l: Output,
    r: Output,
    consts: Map<Seq<char>, ConstVal>,
    table: Seq<FloatAnswer>,
    a: bool,
    b: bool,
)
    requires
        const_eval::fold(l, consts, table) == Folded::Known(ConstVal::Bool(a)),
    ensures
        *e.expr == Expression::And(l, r) && !a ==> const_eval::fold(e, consts, table) == Folded::Known(
            ConstVal::Bool(false),
        ),
        *e.expr == Expression::Or(l, r) && a ==> const_eval::fold(e, consts, table) == Folded::Known(
            ConstVal::Bool(true),
        ),
        const_eval::fold(r, consts, table) == Folded::Known(ConstVal::Bool(b)) ==> {
            &&& *e.expr == Expression::And(l, r) ==> const_eval::fold(e, consts, table) == Folded::Known(
                ConstVal::Bool(a && b),
            )
            &&& *e.expr == Expression::Or(l, r) ==> const_eval::fold(e, consts, table) == Folded::Known(
                ConstVal::Bool(a || b),
            )
        },
        *e.expr == Expression::LogicalNot(l) ==> const_eval::fold(e, consts, table) == Folded::Known(
            ConstVal::Bool(!a),
        ),
{
}

/// Integers are compared as integers.
pub proof fn integers_are_compared(
    e: Output,
    l: Output,
    r: Output,
    consts: Map<Seq<char>, ConstVal>,
    table: Seq<FloatAnswer>,
    a: i64,
    b: i64,
)
    requires
        const_eval::fold(l, consts, table) == Folded::Known(ConstVal::Int(a)),
        const_eval::fold(r, consts, table) == Folded::Known(ConstVal::Int(b)),
    ensures
        *e.expr == Expression::Eq(l, r) ==> const_eval::fold(e, consts, table) == Folded::Known(
            ConstVal::Bool(a == b),
        ),
        *e.expr == Expression::Neq(l, r) ==> const_eval::fold(e, consts, table) == Folded::Known(
            ConstVal::Bool(a != b),
        ),
        *e.expr == Expression::Le(l, r) ==> const_eval::fold(e, consts, table) == Folded::Known(
            ConstVal::Bool(a < b),
        ),
        *e.expr == Expression::Gt(l, r) ==> const_eval::fold(e, consts, table) == Folded::Known(
            ConstVal::Bool(a > b),
        ),
        *e.expr == Expression::Leq(l, r) ==> const_eval::fold(e, consts, table) == Folded::Known(
            ConstVal::Bool(a <= b),
        ),
        *e.expr == Expression::Geq(l, r) ==> const_eval::fold(e, consts, table) == Folded::Known(
            ConstVal::Bool(a >= b),
        ),
{
}

/// Integers are added, taken away and multiplied as integers; a result that does
/// not fit is no constant.
pub proof fn integers_are_combined(
    e: Output,
    l: Output,
    r: Output,
    consts: Map<Seq<char>, ConstVal>,
    table: Seq<FloatAnswer>,
    a: i64,
    b: i64,
)
    requires
        const_eval::fold(l, consts, table) == Folded::Known(ConstVal::Int(a)),
        const_eval::fold(r, consts, table) == Folded::Known(ConstVal::Int(b)),
    ensures
        *e.expr == Expression::Add(l, r) ==> const_eval::fold(e, consts, table) == (if i64::MIN <= a + b
            <= i64::MAX {
            Folded::Known(ConstVal::Int((a + b) as i64))
        } else {
            Folded::Unknown
        }),
        *e.expr == Expression::Sub(l, r) ==> const_eval::fold(e, consts, table) == (if i64::MIN <= a - b
            <= i64::MAX {
            Folded::Known(ConstVal::Int((a - b) as i64))
        } else {
            Folded::Unknown
        }),
        *e.expr == Expression::Mul(l, r) ==> const_eval::fold(e, consts, table) == (if i64::MIN <= a * b
            <= i64::MAX {
            Folded::Known(ConstVal::Int((a * b) as i64))
        } else {
            Folded::Unknown
        }),
        *e.expr == Expression::Div(l, r) && b == 0 ==> const_eval::fold(e, consts, table) is Unknown,
        *e.expr == Expression::Mod(l, r) && b == 0 ==> const_eval::fold(e, consts, table) is Unknown,
        *e.expr == Expression::Negate(l) && a != i64::MIN ==> const_eval::fold(e, consts, table)
            == Folded::Known(ConstVal::Int((-a) as i64)),
        *e.expr == Expression::Negate(l) && a == i64::MIN ==> const_eval::fold(e, consts, table) is Unknown,
{
}

} // verus!
