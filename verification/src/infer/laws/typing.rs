//! Which types expressions have, and what is asked of their parts.
use crate::ast::{Expression, Output};
use crate::env::{self, SchemeV};
use crate::id::NodeId;
use crate::infer::CheckerV;
use crate::infer::annotations;
use crate::infer::laws::members;
use crate::report::{ErrorCode, Span};
use crate::tree::{Head, Tree};
use crate::ty::TyVarId;
use crate::unify::{self, UnifyFault};
use crate::soundness;
use vstd::prelude::*;

verus! {

/// The type with that name.
pub open spec fn named(name: Seq<char>) -> Tree {
    Tree::Node(Head::Con(name), Seq::empty())
}

/// `d` is `c` with one message more, at `range`, and with no variable solved.
pub open spec fn complained(c: CheckerV, d: CheckerV, range: Span) -> bool {
    &&& d.messages =~= c.messages.push(d.messages.last())
    &&& d.messages.last().range == range
    &&& d.subst == c.subst
    &&& d.env == c.env
    &&& d.ctx == c.ctx
    &&& d.scope == c.scope
    &&& d.reg == c.reg
    &&& d.out == c.out
    &&& d.counter >= c.counter
}

/// `d` is `c` once `a` and `b` are made the same: with the variables solved that
/// this takes and nothing else changed, or, where it cannot be, with a complaint
/// at `range`.
pub open spec fn made_same(c: CheckerV, a: Tree, b: Tree, range: Span, d: CheckerV) -> bool {
    match unify::unified(c.subst, a, b) {
        Ok(s) => d == (CheckerV { subst: s, ..c }),
        Err(UnifyFault::Mismatch(_, _)) => complained(c, d, range) && d.messages.last().code
            == ErrorCode::TypeMismatch,
        Err(UnifyFault::Occurs(_, _)) => complained(c, d, range) && d.messages.last().code
            == ErrorCode::InfiniteType,
    }
}

/// Two types are made the same, or it is told why they cannot be. What comes
/// back is the first of them, as far as it is solved then.
pub proof fn types_are_made_the_same(
    c: CheckerV,
    a: Tree,
    b: Tree,
    range: Span,
    what: Seq<char>,
)
    ensures
        made_same(c, a, b, range, c.unify(a, b, range, what).0),
        unify::unified(c.subst, a, b) is Ok ==> c.unify(a, b, range, what).1 == a.subst(
            c.unify(a, b, range, what).0.subst,
        ),
        unify::unified(c.subst, a, b) is Err ==> c.unify(a, b, range, what).1 == Tree::Var(
            TyVarId(c.counter),
        ),
{
}

/// Literals have the types of their kind, and nothing is learnt from them.
pub proof fn literals_have_their_types(c: CheckerV, node: Output, id: Option<NodeId>)
    ensures
        *node.expr is Integer ==> c.infer_inner(node, id) == (c, named("int"@)),
        *node.expr is Float ==> c.infer_inner(node, id) == (c, named("float"@)),
        *node.expr is String ==> c.infer_inner(node, id) == (c, named("string"@)),
        *node.expr is Bool ==> c.infer_inner(node, id) == (c, named("bool"@)),
        *node.expr is Noop ==> c.infer_inner(node, id) == (c, named("unit"@)),
        *node.expr is Comment ==> c.infer_inner(node, id) == (c, named("unit"@)),
        *node.expr is Break ==> c.infer_inner(node, id) == (c, named("unit"@)),
        *node.expr is Continue ==> c.infer_inner(node, id) == (c, named("unit"@)),
        *node.expr is Module ==> c.infer_inner(node, id) == (c, named("unit"@)),
        *node.expr is Field ==> c.infer_inner(node, id) == (c, named("unit"@)),
{
}

/// Brackets, signs and statement marks leave a type as it is.
pub proof fn wrappings_keep_types(c: CheckerV, node: Output, e: Output, id: Option<NodeId>)
    requires
        *node.expr == Expression::Expr(e) || *node.expr == Expression::Group(e) || *node.expr
            == Expression::Statement(e) || *node.expr == Expression::ExprStatement(e) || *node.expr
            == Expression::Negate(e) || *node.expr == Expression::Positive(e),
    ensures
        c.infer_inner(node, id) == c.infer(e),
{
}

/// The type of a node is kept under its number and under its place.
pub proof fn types_are_kept(c: CheckerV, node: Output)
    requires
        c.out.next_id_idx < c.out.ids.len() <= usize::MAX,
    ensures
        c.infer(node).0.out.cache.contains_key(c.out.ids[c.out.next_id_idx as int]),
        c.infer(node).0.out.cache[c.out.ids[c.out.next_id_idx as int]] == c.infer(node).1,
        c.infer(node).0.messages == c.next_id().0.infer_inner(node, c.next_id().1).0.messages,
        c.infer(node).0.subst == c.next_id().0.infer_inner(node, c.next_id().1).0.subst,
        c.infer(node).0.env == c.next_id().0.infer_inner(node, c.next_id().1).0.env,
        c.infer(node).1 == c.next_id().0.infer_inner(node, c.next_id().1).1,
{
}

/// A name that is bound to a type has that type.
pub proof fn names_have_their_types(c: CheckerV, name: Seq<char>, t: Tree, range: Span)
    requires
        c.lookup(name) == Some(SchemeV::mono(t)),
    ensures
        c.named_value(name, range).1 == t,
        c.named_value(name, range).0.messages == c.messages,
        c.named_value(name, range).0.subst == c.subst,
        c.named_value(name, range).0.counter == c.counter,
{
    soundness::strangers_stay(t, Map::empty());
}

/// The fresh variables stand for the bound ones, each by its own place.
proof fn fresh_by_place(bounds: Seq<TyVarId>, next: u32, k: int)
    requires
        bounds.no_duplicates(),
        next + bounds.len() <= u32::MAX,
        0 <= k < bounds.len(),
    ensures
        env::fresh_map(bounds, next).contains_key(bounds[k]),
        env::fresh_map(bounds, next)[bounds[k]] == Tree::Var(TyVarId((next + k) as u32)),
    decreases bounds.len(),
{
    let n = (bounds.len() - 1) as nat;
    members::numbers_go_up(next, n);
    if k < n {
        let init = bounds.drop_last();
        assert forall|i: int, j: int| 0 <= i < j < init.len() implies init[i] != init[j] by {
            assert(bounds[i] != bounds[j]);
        }
        fresh_by_place(init, next, k);
        assert(bounds[k] != bounds[n as int]);
    }
}

proof fn only_bounds_are_fresh(bounds: Seq<TyVarId>, next: u32, v: TyVarId)
    requires
        env::fresh_map(bounds, next).contains_key(v),
    ensures
        bounds.contains(v),
    decreases bounds.len(),
{
    if bounds.len() > 0 {
        if v == bounds.last() {
            assert(bounds[bounds.len() - 1] == v);
        } else {
            only_bounds_are_fresh(bounds.drop_last(), next, v);
            let i = choose|i: int| 0 <= i < bounds.drop_last().len() && bounds.drop_last()[i] == v;
            assert(bounds[i] == v);
        }
    }
}

/// A name of a generic type has that type with a new variable for each of its
/// own, and no two of them get the same.
pub proof fn generic_names_are_opened(
    c: CheckerV,
    name: Seq<char>,
    scheme: SchemeV,
    range: Span,
    m: Map<TyVarId, Tree>,
)
    requires
        c.lookup(name) == Some(scheme),
        scheme.bounds.no_duplicates(),
        c.counter + scheme.bounds.len() <= u32::MAX,
        forall|v: TyVarId| #[trigger] m.contains_key(v) <==> scheme.bounds.contains(v),
        forall|k: int|
            0 <= k < scheme.bounds.len() ==> m[#[trigger] scheme.bounds[k]] == Tree::Var(
                TyVarId((c.counter + k) as u32),
            ),
    ensures
        c.named_value(name, range).1 == scheme.ty.subst(m),
        c.named_value(name, range).0.counter == c.counter + scheme.bounds.len(),
        c.named_value(name, range).0.messages == c.messages,
{
    let f = env::fresh_map(scheme.bounds, c.counter);
    assert forall|v: TyVarId| #[trigger] f.contains_key(v) <==> m.contains_key(v) by {
        if f.contains_key(v) {
            only_bounds_are_fresh(scheme.bounds, c.counter, v);
        }
        if m.contains_key(v) {
            let k = choose|k: int| 0 <= k < scheme.bounds.len() && scheme.bounds[k] == v;
            fresh_by_place(scheme.bounds, c.counter, k);
        }
    }
    assert forall|v: TyVarId| #[trigger] f.contains_key(v) implies f[v] == m[v] by {
        only_bounds_are_fresh(scheme.bounds, c.counter, v);
        let k = choose|k: int| 0 <= k < scheme.bounds.len() && scheme.bounds[k] == v;
        fresh_by_place(scheme.bounds, c.counter, k);
    }
    assert(f =~= m);
    members::numbers_go_up(c.counter, scheme.bounds.len());
}

/// A name that nothing binds is reported.
pub proof fn unknown_names_are_reported(c: CheckerV, name: Seq<char>, range: Span)
    requires
        forall|i: int| 0 <= i < c.env.len() ==> !(#[trigger] c.env[i]).contains_key(name),
    ensures
        complained(c, c.named_value(name, range).0, range),
        c.named_value(name, range).0.messages.last().code == ErrorCode::UnknownValue,
        c.named_value(name, range).1 == Tree::Var(TyVarId(c.counter)),
        c.lvalue_name(name, range).0.messages.len() == c.messages.len() + 1,
        c.lvalue_name(name, range).0.messages.last().code == ErrorCode::UndeclaredAssignment,
{
    nowhere_bound(c.env, name);
}

proof fn nowhere_bound(env: env::EnvV, name: Seq<char>)
    requires
        forall|i: int| 0 <= i < env.len() ==> !(#[trigger] env[i]).contains_key(name),
    ensures
        env::env_lookup(env, name) is None,
    decreases env.len(),
{
    if env.len() > 0 {
        assert(env[env.len() - 1] == env.last());
        nowhere_bound(env.drop_last(), name);
    }
}

/// A name is looked up in the innermost frame that binds it.
pub proof fn innermost_frames_come_first(c: CheckerV, name: Seq<char>, i: int)
    requires
        0 <= i < c.env.len(),
        c.env[i].contains_key(name),
        forall|j: int| i < j < c.env.len() ==> !(#[trigger] c.env[j]).contains_key(name),
    ensures
        c.lookup(name) == Some(c.env[i][name]),
{
    bound_at(c.env, name, i);
}

proof fn bound_at(env: env::EnvV, name: Seq<char>, i: int)
    requires
        0 <= i < env.len(),
        env[i].contains_key(name),
        forall|j: int| i < j < env.len() ==> !(#[trigger] env[j]).contains_key(name),
    ensures
        env::env_lookup(env, name) == Some(env[i][name]),
    decreases env.len(),
{
    if i < env.len() - 1 {
        assert(!env[env.len() - 1].contains_key(name));
        bound_at(env.drop_last(), name, i);
    }
}

/// Two strings are joined by `+` to a string, without a word.
pub proof fn strings_are_joined(
    c: CheckerV,
    a: Tree,
    b: Tree,
    id: Option<NodeId>,
    range: Span,
)
    requires
        a.subst(c.subst) == named("string"@),
        b.subst(c.subst) == named("string"@),
    ensures
        c.finish_arith(a, b, id, range, "+"@) == (c, named("string"@)),
{
}

/// The operands of an arithmetic operator are made the same, and their type is
/// that of the result; operands that cannot be the same are reported.
pub proof fn operands_are_made_the_same(
    c: CheckerV,
    a: Tree,
    b: Tree,
    id: Option<NodeId>,
    range: Span,
    op: Seq<char>,
)
    requires
        !(op == "+"@ && a.subst(c.subst) == named("string"@) && b.subst(c.subst) == named(
            "string"@,
        )),
    ensures
        unify::unified(c.subst, a, b) is Err ==> c.finish_arith(
            a,
            b,
            id,
            range,
            op,
        ).0.messages.len() > c.messages.len() && c.finish_arith(
            a,
            b,
            id,
            range,
            op,
        ).0.messages[c.messages.len() as int].range == range,
        unify::unified(c.subst, a, b) matches Ok(s) ==> {
            &&& c.finish_arith(a, b, id, range, op).1 == a.subst(s)
            &&& c.finish_arith(a, b, id, range, op).0.subst == s
            &&& a.subst(s).subst(s) is Node ==> c.finish_arith(a, b, id, range, op).0 == (
            CheckerV { subst: s, ..c })
        },
{
    let p = c.unify(a, b, range, "operands of `"@ + op + "`"@);
    types_are_made_the_same(c, a, b, range, "operands of `"@ + op + "`"@);
    c.arith_keeps(p, id, range, op);
    if unify::unified(c.subst, a, b) is Err {
        assert(p.0.messages[c.messages.len() as int].range == range);
        assert(p.0.arith_result(p.1, id, range, op).messages[c.messages.len() as int]
            == p.0.messages[c.messages.len() as int]);
    }
}

impl CheckerV {
    /// A bound that an operator asks for changes no variable and takes no message
    /// back.
    proof fn arith_keeps(self, p: (CheckerV, Tree), id: Option<NodeId>, range: Span, op: Seq<char>)
        ensures
            p.0.arith_result(p.1, id, range, op).subst == p.0.subst,
            p.0.messages.is_prefix_of(p.0.arith_result(p.1, id, range, op).messages),
    {
        let c = p.0;
        if let Tree::Var(v) = c.resolve(p.1) {
            c.binding_keeps(Some(v), "Add"@, 0);
            c.binding_keeps(Some(v), "Sub"@, 0);
            c.binding_keeps(Some(v), "Mul"@, 0);
            c.binding_keeps(Some(v), "Div"@, 0);
        }
    }

    /// Choosing classes for constraint parameters touches the scope only.
    pub(crate) proof fn binding_keeps(self, var: Option<TyVarId>, class: Seq<char>, at: nat)
        ensures
            self.bind_matching_abstract_constraints(var, class, at) == (CheckerV {
                scope: self.bind_matching_abstract_constraints(var, class, at).scope,
                ..self
            }),
        decreases self.scope.active.len() - at,
    {
        if at < self.scope.active.len() {
            let a = self.scope.active[at as int];
            let name = annotations::class_of(a);
            self.bind_abstract_constraint(name, class).binding_keeps(var, class, at + 1);
            self.binding_keeps(var, class, at + 1);
        }
    }
}

/// The node is an arithmetic operator on two operands, written so.
pub open spec fn arithmetic(node: Output) -> Option<(Output, Output, Seq<char>)> {
    match *node.expr {
        Expression::Add(l, r) => Some((l, r, "+"@)),
        Expression::Sub(l, r) => Some((l, r, "-"@)),
        Expression::Mul(l, r) => Some((l, r, "*"@)),
        Expression::Div(l, r) => Some((l, r, "/"@)),
        Expression::Mod(l, r) => Some((l, r, "%"@)),
        Expression::Pow(l, r) => Some((l, r, "**"@)),
        Expression::Shl(l, r) => Some((l, r, "<<"@)),
        Expression::Shr(l, r) => Some((l, r, ">>"@)),
        Expression::Xor(l, r) => Some((l, r, "^"@)),
        Expression::BitAnd(l, r) => Some((l, r, "&"@)),
        Expression::BitOr(l, r) => Some((l, r, "|"@)),
        _ => None,
    }
}

/// The node compares two operands.
pub open spec fn comparison(node: Output) -> Option<(Output, Output)> {
    match *node.expr {
        Expression::Eq(l, r) => Some((l, r)),
        Expression::Neq(l, r) => Some((l, r)),
        Expression::Le(l, r) => Some((l, r)),
        Expression::Gt(l, r) => Some((l, r)),
        Expression::Leq(l, r) => Some((l, r)),
        Expression::Geq(l, r) => Some((l, r)),
        _ => None,
    }
}

/// An arithmetic operator types its operands from left to right. Where both have
/// one and the same solved type, that is the type of the whole, and nothing is
/// said; where they cannot be the same, it is told at the operator, unless two
/// strings are joined.
pub proof fn arithmetic_has_the_operands_type(
    c: CheckerV,
    node: Output,
    l: Output,
    r: Output,
    op: Seq<char>,
    id: Option<NodeId>,
)
    requires
        arithmetic(node) == Some((l, r, op)),
    ensures
        ({
            let (b, x) = c.infer(l);
            let (d, y) = b.infer(r);
            let (e, t) = c.infer_inner(node, id);
            &&& e == d.finish_arith(x, y, id, node.span, op).0
            &&& unify::unified(d.subst, x, y) is Err ==> e.messages.len() > d.messages.len()
            &&& unify::unified(d.subst, x, y) matches Ok(s) ==> x.subst(s).subst(s) is Node
                ==> e.messages == d.messages && (t == x.subst(s) || t == named("string"@))
        }),
{
    let (b, x) = c.infer(l);
    let (d, y) = b.infer(r);
    if !(op == "+"@ && x.subst(d.subst) == named("string"@) && y.subst(d.subst) == named(
        "string"@,
    )) {
        operands_are_made_the_same(d, x, y, id, node.span, op);
    } else {
        soundness::equal_types_unify(d.subst, named("string"@));
        assert(unify::unified(d.subst, x, y) is Ok) by {
            let q = seq![named("string"@)];
            assert(unify::step(q.last(), q.last()) is Skip);
            assert(unify::solution(q, q) == unify::solution(q.drop_last(), q.drop_last()));
        }
    }
}

} // verus!
