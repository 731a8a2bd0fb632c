//! What operators, assignments and literals of bytes ask of their operands.
use crate::ast::{self, AssignOp, Expression, Output};
use crate::env::SchemeV;
use crate::id::NodeId;
use crate::infer::laws::calls;
use crate::infer::laws::typing;
use crate::infer::{CheckerV, PackV};
use crate::infer::calls as coercions;
use crate::report::{ErrorCode, Span};
use crate::tree::{ArrayLength, Head, Tree};
use crate::ty::TyVarId;
use crate::{soundness, unify};
use vstd::prelude::*;

verus! {

/// Neither a byte nor bytes are asked for where integers stand, nor a value of a
/// class: types that only stand for each other where they unify.
pub open spec fn plain(want: Tree, have: Tree) -> bool {
    let byte = typing::named("byte"@);
    let int_t = typing::named("int"@);
    &&& !(want == byte && have == int_t)
    &&& !(want matches Tree::Node(Head::Existential(_), _))
    &&& !match (want, have) {
        (Tree::Node(Head::Array(_), x), Tree::Node(Head::Array(_), y)) => x.len() == 1 && y.len()
            == 1 && x[0] == byte && y[0] == int_t,
        _ => false,
    }
}

/// A value stands where another type is wanted just where the two unify.
pub proof fn plain_values_unify(
    c: CheckerV,
    want: Tree,
    have: Tree,
    expr: Option<Output>,
    range: Span,
    what: Seq<char>,
)
    requires
        plain(want.subst(c.subst), have.subst(c.subst)),
    ensures
        typing::made_same(
            c,
            want.subst(c.subst),
            have.subst(c.subst),
            range,
            c.coerce_or_unify(want, have, expr, range, what).0,
        ),
{
}

/// An integer literal stands for a byte just where a byte can hold it; one that
/// is too large, or negative, is reported where it stands.
pub proof fn small_integers_are_bytes(
    c: CheckerV,
    want: Tree,
    have: Tree,
    e: Output,
    n: i64,
    range: Span,
    what: Seq<char>,
)
    requires
        want.subst(c.subst) == typing::named("byte"@),
        have.subst(c.subst) == typing::named("int"@),
        *ast::unwrapped(e).expr == Expression::Integer(n),
    ensures
        0 <= n <= 255 ==> c.coerce_or_unify(want, have, Some(e), range, what) == (
            c,
            typing::named("byte"@),
        ),
        !(0 <= n <= 255) ==> typing::complained(
            c,
            c.coerce_or_unify(want, have, Some(e), range, what).0,
            range,
        ) && c.coerce_or_unify(want, have, Some(e), range, what).0.messages.last().code
            == ErrorCode::TypeMismatch,
{
}

/// An integer that is no literal does not stand for a byte.
pub proof fn other_integers_are_no_bytes(
    c: CheckerV,
    want: Tree,
    have: Tree,
    expr: Option<Output>,
    range: Span,
    what: Seq<char>,
)
    requires
        want.subst(c.subst) == typing::named("byte"@),
        have.subst(c.subst) == typing::named("int"@),
        expr matches Some(e) ==> !(*ast::unwrapped(e).expr is Integer),
    ensures
        typing::complained(c, c.coerce_or_unify(want, have, expr, range, what).0, range),
        c.coerce_or_unify(want, have, expr, range, what).0.messages.last().code
            == ErrorCode::TypeMismatch,
{
    reveal_strlit("byte");
    reveal_strlit("int");
    let x = typing::named("byte"@);
    let y = typing::named("int"@);
    assert("byte"@.len() != "int"@.len());
    soundness::strangers_stay(x, c.subst);
    soundness::strangers_stay(y, c.subst);
    let l = seq![x];
    let r = seq![y];
    assert(unify::step(l.last(), r.last()) is Fail);
    assert(unify::unified(c.subst, x, y) is Err);
}

proof fn all_small(c: CheckerV, items: Seq<Output>, at: nat)
    requires
        forall|i: int| 0 <= i < items.len() ==> calls::small_literal(#[trigger] items[i]),
    ensures
        c.check_byte_items(items, at) == (c, true),
    decreases items.len() - at,
{
    if at < items.len() {
        assert(calls::small_literal(items[at as int]));
        all_small(c, items, at + 1);
    }
}

/// An array literal of integers that bytes can hold stands for an array of bytes
/// of the same or of an open length.
pub proof fn small_arrays_are_bytes(
    c: CheckerV,
    want: Tree,
    have: Tree,
    m: ArrayLength,
    n: ArrayLength,
    e: Output,
    items: Vec<Output>,
    range: Span,
    what: Seq<char>,
)
    requires
        want.subst(c.subst) == Tree::Node(Head::Array(m), seq![typing::named("byte"@)]),
        have.subst(c.subst) == Tree::Node(Head::Array(n), seq![typing::named("int"@)]),
        m == n || m is Dynamic || n is Dynamic,
        *ast::unwrapped(e).expr == Expression::Array(items),
        forall|i: int| 0 <= i < items@.len() ==> calls::small_literal(#[trigger] items@[i]),
    ensures
        c.coerce_or_unify(want, have, Some(e), range, what) == (
            c,
            Tree::Node(Head::Array(m), seq![typing::named("byte"@)]),
        ),
{
    all_small(c, items@, 0);
}

/// A value of a class stands where any value of that class is wanted.
pub proof fn packed_values_stay_packed(
    c: CheckerV,
    want: Tree,
    have: Tree,
    class: Seq<char>,
    expr: Option<Output>,
    range: Span,
    what: Seq<char>,
)
    requires
        want.subst(c.subst) == Tree::Node(Head::Existential(class), Seq::empty()),
        have.subst(c.subst) == Tree::Node(Head::Existential(class), Seq::empty()),
    ensures
        c.coerce_or_unify(want, have, expr, range, what) == (
            c,
            Tree::Node(Head::Existential(class), Seq::empty()),
        ),
{
}

/// A value that is no such value yet is packed where it is written, with its
/// class and its type, if its type has one instance; if it has none, or is still
/// open, it is reported.
pub proof fn values_are_packed_by_instances(
    c: CheckerV,
    want: Tree,
    have: Tree,
    class: Seq<char>,
    name: Seq<char>,
    e: Output,
    range: Span,
    what: Seq<char>,
)
    requires
        want.subst(c.subst) == Tree::Node(Head::Existential(class), Seq::empty()),
        have.subst(c.subst) == typing::named(name),
    ensures
        ({
            let t = typing::named(name);
            let d = c.coerce_or_unify(want, have, Some(e), range, what).0;
            match c.find_unique_instance(class, seq![t], range) {
                (b, Ok(Some(_))) => d.messages == b.messages && d.subst == b.subst
                    && d.out.packs_by_span.contains_key(e.span) && d.out.packs_by_span[e.span] == (
                PackV { class, value_ty: t }),
                (b, Ok(None)) => d.messages.len() == b.messages.len() + 1
                    && d.out.packs_by_span == b.out.packs_by_span,
                (b, Err(_)) => d == b,
            }
        }),
{
}

/// The class and the method of a comparison.
pub open spec fn compared_by(node: Output) -> (Seq<char>, Seq<char>) {
    match *node.expr {
        Expression::Eq(_, _) => ("Eq"@, "eq"@),
        Expression::Neq(_, _) => ("Eq"@, "ne"@),
        Expression::Le(_, _) => ("Lt"@, "lt"@),
        Expression::Gt(_, _) => ("Gt"@, "gt"@),
        Expression::Leq(_, _) => ("Le"@, "le"@),
        _ => ("Ge"@, "ge"@),
    }
}

proof fn comparison_steps(c: CheckerV, node: Output, l: Output, r: Output, id: Option<NodeId>)
    requires
        typing::comparison(node) == Some((l, r)),
    ensures
        c.infer_inner(node, id) == c.infer(l).0.infer(r).0.finish_comparison(
            c.infer(l).1,
            c.infer(l).0.infer(r).1,
            id,
            node.span,
            compared_by(node).0,
            compared_by(node).1,
        ),
{
}

proof fn compared_types(
    d: CheckerV,
    x: Tree,
    y: Tree,
    id: Option<NodeId>,
    range: Span,
    class: Seq<char>,
    method: Seq<char>,
)
    requires
        !(x is Node && (x.head() is Sum || x.head() is Constructor)),
        !(y is Node && (y.head() is Sum || y.head() is Constructor)),
    ensures
        ({
            let e = d.finish_comparison(x, y, id, range, class, method).0;
            &&& unify::unified(d.subst, x, y) is Err ==> e.messages.len() > d.messages.len()
                && e.messages[d.messages.len() as int].range == range
            &&& unify::unified(d.subst, x, y) matches Ok(s) ==> x.subst(s).subst(s) is Node ==> e
                == (CheckerV { subst: s, ..d })
        }),
{
    assert(coercions::packed_ty(x) == x);
    assert(coercions::packed_ty(y) == y);
    let (f, t) = d.unify(x, y, range, "comparison operands"@);
    typing::types_are_made_the_same(d, x, y, range, "comparison operands"@);
    if let Tree::Var(v) = f.resolve(t) {
        f.binding_keeps(Some(v), class, 0);
    }
}

/// Two types without constructor refinements are compared after they are made
/// the same; a comparison is a `bool` either way. Types that cannot be the same
/// are reported at the comparison.
pub proof fn comparisons_are_bool(
    c: CheckerV,
    node: Output,
    l: Output,
    r: Output,
    id: Option<NodeId>,
)
    requires
        typing::comparison(node) == Some((l, r)),
    ensures
        ({
            let (b, x) = c.infer(l);
            let (d, y) = b.infer(r);
            let (e, t) = c.infer_inner(node, id);
            &&& t == typing::named("bool"@)
            &&& !(x is Node && (x.head() is Sum || x.head() is Constructor)) && !(y is Node && (
            y.head() is Sum || y.head() is Constructor)) ==> {
                &&& unify::unified(d.subst, x, y) is Err ==> e.messages.len() > d.messages.len()
                    && e.messages[d.messages.len() as int].range == node.span
                &&& unify::unified(d.subst, x, y) matches Ok(s) ==> x.subst(s).subst(s) is Node
                    ==> e == (CheckerV { subst: s, ..d })
            }
        }),
{
    let (b, x) = c.infer(l);
    let (d, y) = b.infer(r);
    comparison_steps(c, node, l, r, id);
    if !(x is Node && (x.head() is Sum || x.head() is Constructor)) && !(y is Node && (y.head()
        is Sum || y.head() is Constructor)) {
        compared_types(d, x, y, id, node.span, compared_by(node).0, compared_by(node).1);
    }
}

/// Both sides of `&&` and `||` are held against `bool`, each where it stands,
/// and so is the whole.
pub proof fn logic_is_bool(c: CheckerV, node: Output, l: Output, r: Output, id: Option<NodeId>)
    requires
        *node.expr == Expression::And(l, r) || *node.expr == Expression::Or(l, r),
    ensures
        ({
            let (b, x) = c.infer(l);
            let (d, y) = b.infer(r);
            let (e, t) = c.infer_inner(node, id);
            &&& t == typing::named("bool"@)
            &&& exists|m: CheckerV|
                typing::made_same(d, x, typing::named("bool"@), l.span, m)
                    && #[trigger] typing::made_same(m, y, typing::named("bool"@), r.span, e)
        }),
{
    let (b, x) = c.infer(l);
    let (d, y) = b.infer(r);
    let bool_t = typing::named("bool"@);
    let m = d.unify(x, bool_t, l.span, "left of logical"@).0;
    typing::types_are_made_the_same(d, x, bool_t, l.span, "left of logical"@);
    typing::types_are_made_the_same(m, y, bool_t, r.span, "right of logical"@);
    assert(typing::made_same(m, y, bool_t, r.span, c.infer_inner(node, id).0));
}

/// `~` is for integers.
pub proof fn bitwise_not_is_int(c: CheckerV, node: Output, e: Output, id: Option<NodeId>)
    requires
        *node.expr == Expression::Not(e),
    ensures
        c.infer_inner(node, id).1 == typing::named("int"@),
        typing::made_same(
            c.infer(e).0,
            c.infer(e).1,
            typing::named("int"@),
            e.span,
            c.infer_inner(node, id).0,
        ),
{
}

/// `!` is for `bool` and `int`, and gives `bool`; any other operand is reported
/// where it stands.
pub proof fn logical_not_is_bool(c: CheckerV, node: Output, e: Output, id: Option<NodeId>)
    requires
        *node.expr == Expression::LogicalNot(e),
    ensures
        ({
            let (b, x) = c.infer(e);
            let t = x.subst(b.subst);
            let (d, r) = c.infer_inner(node, id);
            &&& r == typing::named("bool"@)
            &&& t == typing::named("bool"@) || t == typing::named("int"@) ==> d == b
            &&& t != typing::named("bool"@) && t != typing::named("int"@) ==> typing::complained(
                b,
                d,
                e.span,
            )
        }),
{
}

/// `++` and `--` are for `int` and `float`, and keep the type; anything else is
/// reported.
pub proof fn adjusted_values_are_numbers(c: CheckerV, t: Tree, range: Span)
    ensures
        c.finish_adjust(t, range).1 == t.subst(c.subst),
        t.subst(c.subst) == typing::named("int"@) || t.subst(c.subst) == typing::named("float"@)
            ==> c.finish_adjust(t, range).0 == c,
        t.subst(c.subst) != typing::named("int"@) && t.subst(c.subst) != typing::named("float"@)
            ==> typing::complained(c, c.finish_adjust(t, range).0, range),
{
}

/// The value of a compound assignment with an arithmetic operator is made the
/// same as its target, and the whole has the target's type. Bitwise ones ask
/// nothing of their value.
pub proof fn compound_values_fit_their_target(
    c: CheckerV,
    t: Tree,
    v: Tree,
    op: AssignOp,
    range: Span,
)
    ensures
        op is Add || op is Sub || op is Mul || op is Div || op is Mod || op is Pow
            ==> typing::made_same(c, t, v, range, c.finish_compound(t, v, op, range).0),
        op is Shl || op is Shr || op is BitAnd || op is BitOr || op is BitXor
            ==> c.finish_compound(t, v, op, range).0 == c,
        c.finish_compound(t, v, op, range).1 == t.subst(
            c.finish_compound(t, v, op, range).0.subst,
        ),
{
}

/// A constant cannot be assigned to, in whatever frame it was declared; any other
/// name that is bound to a type can.
pub proof fn constants_are_not_assigned(c: CheckerV, name: Seq<char>, t: Tree, range: Span)
    requires
        c.lookup(name) == Some(SchemeV::mono(t)),
    ensures
        c.lvalue_name(name, range).1 == t,
        (exists|i: int|
            0 <= i < c.scope.const_scopes.len() && (#[trigger] c.scope.const_scopes[i]).contains(
                name,
            )) ==> c.lvalue_name(name, range).0.messages.len() == c.messages.len() + 1
            && c.lvalue_name(name, range).0.messages.last().range == range,
        (forall|i: int|
            0 <= i < c.scope.const_scopes.len() ==> !(
            #[trigger] c.scope.const_scopes[i]).contains(name)) ==> c.lvalue_name(
            name,
            range,
        ).0.messages == c.messages,
{
    soundness::strangers_stay(t, Map::empty());
}

/// A name that is declared constant is constant from there on, and so are the
/// names that were.
pub proof fn declared_constants_are_constant(c: CheckerV, name: Seq<char>, other: Seq<char>)
    ensures
        exists|i: int|
            0 <= i < c.insert_const_binding(name).scope.const_scopes.len() && (
            #[trigger] c.insert_const_binding(name).scope.const_scopes[i]).contains(name),
        c.insert_const_binding(name).is_const(name),
        other != name ==> (c.insert_const_binding(name).is_const(other) <==> c.is_const(other)),
{
    let d = c.insert_const_binding(name);
    let n = d.scope.const_scopes.len() - 1;
    assert(d.scope.const_scopes[n].contains(name));
    if other != name {
        assert forall|i: int| 0 <= i < c.scope.const_scopes.len() implies ((
        #[trigger] c.scope.const_scopes[i]).contains(other) <==> d.scope.const_scopes[i].contains(
            other,
        )) by {}
        if d.is_const(other) {
            let i = choose|i: int|
                0 <= i < d.scope.const_scopes.len() && (
                #[trigger] d.scope.const_scopes[i]).contains(other);
            assert(c.scope.const_scopes[i].contains(other));
        }
        if c.is_const(other) {
            let i = choose|i: int|
                0 <= i < c.scope.const_scopes.len() && (
                #[trigger] c.scope.const_scopes[i]).contains(other);
            assert(d.scope.const_scopes[i].contains(other));
        }
    }
}

proof fn assignment_steps(
    c: CheckerV,
    node: Output,
    target: Output,
    value: Output,
    id: Option<NodeId>,
)
    requires
        *node.expr == Expression::Assignment(target, value),
        !(*value.expr is Resume),
    ensures
        ({
            let (d, v) = c.note_yield(value).infer(value);
            let (e, t) = d.infer_mutable_lvalue(target, node.span);
            let f = e.coerce_or_unify(t, v, Some(value), node.span, "assignment"@).0;
            c.infer_inner(node, id) == (f, f.resolve(v))
        }),
{
}

/// What is assigned is typed first, then its target; the value has to stand where
/// the target's type is wanted, and the whole has the value's type.
pub proof fn assigned_values_fit_their_target(
    c: CheckerV,
    node: Output,
    target: Output,
    value: Output,
    id: Option<NodeId>,
)
    requires
        *node.expr == Expression::Assignment(target, value),
        !(*value.expr is Resume),
    ensures
        ({
            let b = c.note_yield(value);
            let (d, v) = b.infer(value);
            let (e, t) = d.infer_mutable_lvalue(target, node.span);
            let (f, r) = c.infer_inner(node, id);
            &&& b.messages == c.messages && b.subst == c.subst && b.env == c.env
            &&& r == v.subst(f.subst)
            &&& plain(t.subst(e.subst), v.subst(e.subst)) ==> typing::made_same(
                e,
                t.subst(e.subst),
                v.subst(e.subst),
                node.span,
                f,
            )
        }),
{
    let b = c.note_yield(value);
    let (d, v) = b.infer(value);
    let (e, t) = d.infer_mutable_lvalue(target, node.span);
    assignment_steps(c, node, target, value, id);
    if plain(t.subst(e.subst), v.subst(e.subst)) {
        plain_values_unify(e, t, v, Some(value), node.span, "assignment"@);
    }
}

/// Only names, fields and elements can be assigned to.
pub proof fn other_targets_are_refused(c: CheckerV, target: Output, range: Span)
    requires
        !(*target.expr is Identifier),
        !(*target.expr is Access),
        !(*target.expr is Index),
    ensures
        typing::complained(c, c.infer_mutable_lvalue(target, range).0, range),
        c.infer_mutable_lvalue(target, range).0.messages.last().code
            == ErrorCode::InvalidAssignment,
{
}

/// A literal index into an array of fixed length, or into a tuple, has to be in
/// it; it is reported where it is not. What is read has the type of the element,
/// or of the tuple's part at that place.
pub proof fn indices_are_in_bounds(
    c: CheckerV,
    target: Tree,
    index: Option<i64>,
    range: Span,
    n: usize,
    element: Tree,
    kids: Seq<Tree>,
)
    ensures
        target.subst(c.subst) == Tree::Node(Head::Array(ArrayLength::Static(n)), seq![element])
            ==> {
            let (d, t) = c.finish_index(target, index, range);
            &&& t == element
            &&& index is None ==> d == c
            &&& index matches Some(i) ==> 0 <= i < n ==> d == c
            &&& index matches Some(i) ==> i < 0 ==> typing::complained(c, d, range)
                && d.messages.last().code == ErrorCode::IndexOutOfBounds
            &&& index matches Some(i) ==> n <= i && i <= usize::MAX ==> typing::complained(
                c,
                d,
                range,
            ) && d.messages.last().code == ErrorCode::IndexOutOfBounds
        },
        target.subst(c.subst) == Tree::Node(Head::Array(ArrayLength::Dynamic), seq![element])
            ==> c.finish_index(target, index, range) == (c, element),
        target.subst(c.subst) == Tree::Node(Head::Tuple, kids) && kids.len() <= usize::MAX ==> {
            let (d, t) = c.finish_index(target, index, range);
            &&& index matches Some(i) ==> 0 <= i < kids.len() ==> d == c && t == kids[i as int]
            &&& index matches Some(i) ==> i < 0 || kids.len() <= i <= usize::MAX
                ==> d.messages.len() == c.messages.len() + 1 && d.messages.last().code
                == ErrorCode::IndexOutOfBounds && d.messages.last().range == range
            &&& index is None ==> d.messages == c.messages && t == Tree::Var(TyVarId(c.counter))
        },
{
}

/// Nothing else can be indexed.
pub proof fn other_types_have_no_elements(
    c: CheckerV,
    target: Tree,
    index: Option<i64>,
    range: Span,
)
    requires
        match target.subst(c.subst) {
            Tree::Node(Head::Array(_), _) => false,
            Tree::Node(Head::Tuple, _) => false,
            _ => true,
        },
    ensures
        c.finish_index(target, index, range).0.messages.len() == c.messages.len() + 1,
        c.finish_index(target, index, range).0.messages.last().code == ErrorCode::CannotIndex,
        c.finish_index(target, index, range).0.messages.last().range == range,
{
}

/// An element of an array can be assigned to, inside of its bounds; a part of a
/// tuple cannot.
pub proof fn only_array_elements_are_assigned(
    c: CheckerV,
    index: Option<i64>,
    range: Span,
    n: usize,
    element: Tree,
    kids: Seq<Tree>,
)
    ensures
        ({
            let (d, t) = c.lvalue_element(
                Tree::Node(Head::Array(ArrayLength::Static(n)), seq![element]),
                index,
                range,
            );
            &&& t == element
            &&& index matches Some(i) ==> 0 <= i < n ==> d == c
            &&& index matches Some(i) ==> i < 0 || n <= i <= usize::MAX ==> typing::complained(
                c,
                d,
                range,
            ) && d.messages.last().code == ErrorCode::IndexOutOfBounds
            &&& index is None ==> d == c
        }),
        c.lvalue_element(
            Tree::Node(Head::Array(ArrayLength::Dynamic), seq![element]),
            index,
            range,
        ) == (c, element),
        typing::complained(
            c,
            c.lvalue_element(Tree::Node(Head::Tuple, kids), index, range).0,
            range,
        ),
{
}

} // verus!
