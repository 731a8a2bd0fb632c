//! How expressions that stand in a row are typed: each in its turn, from left to
//! right, in what the ones before it leave behind.
use crate::ast::{Expression, FieldInit, MatchArm, Output};
use crate::id::NodeId;
use crate::infer::laws::typing;
use crate::infer::{ArmCoverage, CheckerV};
use crate::report::{ErrorCode, Span};
use crate::tree::{Head, Tree};
use crate::unify;
use vstd::prelude::*;

verus! {

proof fn last_from(c: CheckerV, items: Seq<Output>, e: Output, at: nat, last: Tree)
    requires
        at <= items.len(),
    ensures
        c.infer_last(items.push(e), at, last) == c.infer_last(items, at, last).0.infer(e),
    decreases items.len() - at,
{
    let more = items.push(e);
    if at < items.len() {
        assert(more[at as int] == items[at as int]);
        let (d, t) = c.infer(items[at as int]);
        last_from(d, items, e, at + 1, t);
    } else {
        let (d, t) = c.infer(e);
        assert(more[at as int] == e);
        assert(d.infer_last(more, at + 1, t) == (d, t));
    }
}

/// A row of expressions has the type of its last one, typed after all the
/// others; an empty row has the type that it is given.
pub proof fn rows_have_their_last_type(c: CheckerV, items: Seq<Output>, e: Output, none: Tree)
    ensures
        c.infer_last(Seq::empty(), 0, none) == (c, none),
        c.infer_last(items.push(e), 0, none) == c.infer_last(items, 0, none).0.infer(e),
{
    last_from(c, items, e, 0, none);
}

/// A block has the type of its last expression, in a frame of its own.
pub proof fn blocks_have_their_last_type(
    c: CheckerV,
    node: Output,
    items: Vec<Output>,
    id: Option<NodeId>,
)
    requires
        *node.expr == Expression::Block(items),
    ensures
        c.infer_inner(node, id).1 == c.push_scope().infer_last(
            items@,
            0,
            typing::named("unit"@),
        ).1,
        c.infer_inner(node, id).0.messages == c.push_scope().infer_last(
            items@,
            0,
            typing::named("unit"@),
        ).0.messages,
        c.infer_inner(node, id).0.subst == c.push_scope().infer_last(
            items@,
            0,
            typing::named("unit"@),
        ).0.subst,
{
}

proof fn all_from(c: CheckerV, items: Seq<Output>, e: Output, at: nat, acc: Seq<Tree>)
    requires
        at <= items.len(),
    ensures
        ({
            let (d, ts) = c.infer_all(items, at, acc);
            let (f, t) = d.infer(e);
            c.infer_all(items.push(e), at, acc) == (f, ts.push(t))
        }),
        c.infer_all(items, at, acc).1.len() == acc.len() + items.len() - at,
    decreases items.len() - at,
{
    let more = items.push(e);
    if at < items.len() {
        assert(more[at as int] == items[at as int]);
        let (d, t) = c.infer(items[at as int]);
        all_from(d, items, e, at + 1, acc.push(t));
    } else {
        let (d, t) = c.infer(e);
        assert(more[at as int] == e);
        assert(d.infer_all(more, at + 1, acc.push(t)) == (d, acc.push(t)));
    }
}

/// Arguments are typed from left to right, one type for each.
pub proof fn arguments_are_typed_in_turn(
    c: CheckerV,
    items: Seq<Output>,
    e: Output,
    acc: Seq<Tree>,
)
    ensures
        c.infer_all(Seq::empty(), 0, acc) == (c, acc),
        c.infer_all(items.push(e), 0, acc).0 == c.infer_all(items, 0, acc).0.infer(e).0,
        c.infer_all(items.push(e), 0, acc).1 == c.infer_all(items, 0, acc).1.push(
            c.infer_all(items, 0, acc).0.infer(e).1,
        ),
        c.infer_all(items, 0, acc).1.len() == acc.len() + items.len(),
{
    all_from(c, items, e, 0, acc);
}

proof fn each_from(c: CheckerV, items: Seq<Output>, e: Output, at: nat)
    requires
        at <= items.len(),
    ensures
        c.infer_each(items.push(e), at) == c.infer_each(items, at).infer(e).0,
    decreases items.len() - at,
{
    let more = items.push(e);
    if at < items.len() {
        assert(more[at as int] == items[at as int]);
        each_from(c.infer(items[at as int]).0, items, e, at + 1);
    } else {
        assert(more[at as int] == e);
        assert(c.infer(e).0.infer_each(more, at + 1) == c.infer(e).0);
    }
}

/// Every expression of a row is typed.
pub proof fn each_is_typed(c: CheckerV, items: Seq<Output>, e: Output)
    ensures
        c.infer_each(Seq::empty(), 0) == c,
        c.infer_each(items.push(e), 0) == c.infer_each(items, 0).infer(e).0,
{
    each_from(c, items, e, 0);
}

proof fn resolved_from(c: CheckerV, items: Seq<Output>, e: Output, at: nat, acc: Seq<Tree>)
    requires
        at <= items.len(),
    ensures
        ({
            let (d, ts) = c.infer_resolved(items, at, acc);
            let (f, t) = d.infer(e);
            c.infer_resolved(items.push(e), at, acc) == (f, ts.push(t.subst(f.subst)))
        }),
        c.infer_resolved(items, at, acc).1.len() == acc.len() + items.len() - at,
    decreases items.len() - at,
{
    let more = items.push(e);
    if at < items.len() {
        assert(more[at as int] == items[at as int]);
        let (d, t) = c.infer(items[at as int]);
        resolved_from(d, items, e, at + 1, acc.push(d.resolve(t)));
    } else {
        let (d, t) = c.infer(e);
        assert(more[at as int] == e);
        assert(d.infer_resolved(more, at + 1, acc.push(d.resolve(t))) == (
            d,
            acc.push(d.resolve(t)),
        ));
    }
}

proof fn tuple_rule(c: CheckerV, node: Output, items: Vec<Output>, id: Option<NodeId>)
    requires
        *node.expr == Expression::Tuple(items),
    ensures
        c.infer_value(node, id) == (
            c.infer_resolved(items@, 0, Seq::empty()).0,
            Tree::Node(Head::Tuple, c.infer_resolved(items@, 0, Seq::empty()).1),
        ),
{
}

/// A tuple has a part for each of its expressions, in order, of that expression's
/// type; an empty one has none.
pub proof fn tuples_have_their_parts_types(
    c: CheckerV,
    node: Output,
    items: Vec<Output>,
    id: Option<NodeId>,
)
    requires
        *node.expr == Expression::Tuple(items),
    ensures
        items@.len() == 0 ==> c.infer_value(node, id) == (
            c,
            Tree::Node(Head::Tuple, Seq::empty()),
        ),
        items@.len() > 0 ==> {
            let (d, ts) = c.infer_resolved(items@.drop_last(), 0, Seq::empty());
            let (f, t) = d.infer(items@.last());
            &&& c.infer_value(node, id) == (
                f,
                Tree::Node(Head::Tuple, ts.push(t.subst(f.subst))),
            )
            &&& ts.len() == items@.len() - 1
        },
{
    tuple_rule(c, node, items, id);
    if items@.len() > 0 {
        assert(items@.drop_last().push(items@.last()) =~= items@);
        resolved_from(c, items@.drop_last(), items@.last(), 0, Seq::empty());
    }
}

proof fn elements_from(
    c: CheckerV,
    items: Seq<Output>,
    e: Output,
    at: nat,
    sofar: Option<Tree>,
    range: Span,
)
    requires
        at <= items.len(),
    ensures
        ({
            let (d, p) = c.infer_elements(items, at, sofar, range);
            let (f, t) = d.infer(e);
            let (g, q) = f.finish_element(p, t, range);
            c.infer_elements(items.push(e), at, sofar, range) == (g, Some(q))
        }),
    decreases items.len() - at,
{
    let more = items.push(e);
    if at < items.len() {
        assert(more[at as int] == items[at as int]);
        let (d, t) = c.infer(items[at as int]);
        let (f, q) = d.finish_element(sofar, t, range);
        elements_from(f, items, e, at + 1, Some(q), range);
    } else {
        let (d, t) = c.infer(e);
        assert(more[at as int] == e);
        let (f, q) = d.finish_element(sofar, t, range);
        assert(f.infer_elements(more, at + 1, Some(q), range) == (f, Some(q)));
    }
}

/// The first element of an array literal gives the type of them all: each later
/// one is typed in its turn, and reported as a mismatch, at the array, where it
/// does not unify with the first.
pub proof fn elements_fit_the_first(
    c: CheckerV,
    items: Seq<Output>,
    e: Output,
    range: Span,
)
    ensures
        ({
            let (d, p) = c.infer_elements(items, 0, None, range);
            let (f, t) = d.infer(e);
            let (g, q) = c.infer_elements(items.push(e), 0, None, range);
            &&& items.len() == 0 ==> p is None && d == c
            &&& p is None ==> g == f && q == Some(t.subst(f.subst))
            &&& p matches Some(first) ==> {
                &&& q == p
                &&& unify::unified(f.subst, first.subst(f.subst), t.subst(f.subst)) is Ok ==> g == f
                &&& unify::unified(f.subst, first.subst(f.subst), t.subst(f.subst)) is Err
                    ==> typing::complained(f, g, range) && g.messages.last().code
                    == ErrorCode::TypeMismatch
            }
        }),
{
    elements_from(c, items, e, 0, None, range);
}

proof fn record_from(
    c: CheckerV,
    fields: Seq<FieldInit>,
    f: FieldInit,
    at: nat,
    acc: Seq<(Seq<char>, Tree)>,
)
    requires
        at <= fields.len(),
    ensures
        ({
            let (d, ps) = c.infer_record(fields, at, acc);
            let (g, t) = d.infer(f.value);
            c.infer_record(fields.push(f), at, acc) == (g, ps.push((f.name@, t.subst(g.subst))))
        }),
        c.infer_record(fields, at, acc).1.len() == acc.len() + fields.len() - at,
    decreases fields.len() - at,
{
    let more = fields.push(f);
    if at < fields.len() {
        assert(more[at as int] == fields[at as int]);
        let (d, t) = c.infer(fields[at as int].value);
        record_from(d, fields, f, at + 1, acc.push((fields[at as int].name@, d.resolve(t))));
    } else {
        let (d, t) = c.infer(f.value);
        assert(more[at as int] == f);
        let last = acc.push((f.name@, d.resolve(t)));
        assert(d.infer_record(more, at + 1, last) == (d, last));
    }
}

/// The fields of a record literal are typed in the order in which they are
/// written, each under its own name.
pub proof fn fields_are_typed_in_turn(c: CheckerV, fields: Seq<FieldInit>, f: FieldInit)
    ensures
        ({
            let (d, ps) = c.infer_record(fields, 0, Seq::empty());
            let (g, t) = d.infer(f.value);
            &&& c.infer_record(fields.push(f), 0, Seq::empty()) == (
                g,
                ps.push((f.name@, t.subst(g.subst))),
            )
            &&& ps.len() == fields.len()
        }),
        c.infer_record(Seq::empty(), 0, Seq::empty()) == (c, Seq::<(Seq<char>, Tree)>::empty()),
{
    record_from(c, fields, f, 0, Seq::empty());
}

proof fn list_from(c: CheckerV, items: Seq<Output>, e: Output, at: nat, first: Tree)
    requires
        at <= items.len(),
    ensures
        ({
            let d = c.infer_list_rest(items, at, first);
            let (f, t) = d.infer(e);
            typing::made_same(f, first, t, e.span, c.infer_list_rest(items.push(e), at, first))
        }),
    decreases items.len() - at,
{
    let more = items.push(e);
    if at < items.len() {
        assert(more[at as int] == items[at as int]);
        let (d, t) = c.infer(items[at as int]);
        let f = d.unify(first, t, items[at as int].span, "list element"@).0;
        list_from(f, items, e, at + 1, first);
    } else {
        let (d, t) = c.infer(e);
        assert(more[at as int] == e);
        let f = d.unify(first, t, e.span, "list element"@).0;
        typing::types_are_made_the_same(d, first, t, e.span, "list element"@);
        assert(f.infer_list_rest(more, at + 1, first) == f);
    }
}

/// Every element of a list is made the same as the first, whose type the list is
/// one of.
pub proof fn list_elements_are_made_the_same(c: CheckerV, items: Seq<Output>, e: Output)
    requires
        items.len() > 0,
    ensures
        c.infer_list(seq![e]) == (c.infer(e).0, Tree::Node(Head::List, seq![c.infer(e).1])),
        ({
            let (d, _) = c.infer_list(items);
            let (f, t) = d.infer(e);
            &&& typing::made_same(
                f,
                c.infer(items[0]).1,
                t,
                e.span,
                c.infer_list(items.push(e)).0,
            )
            &&& c.infer_list(items.push(e)).1 == Tree::Node(
                Head::List,
                seq![c.infer(items[0]).1],
            )
        }),
{
    let (d, first) = c.infer(items[0]);
    assert(items.push(e)[0] == items[0]);
    list_from(d, items, e, 1, first);
    assert(seq![e][0] == e);
    assert(c.infer(e).0.infer_list_rest(seq![e], 1, c.infer(e).1) == c.infer(e).0);
}

/// A condition, where there is one, is made a `bool`.
pub proof fn conditions_are_bool(c: CheckerV, k: Output, what: Seq<char>)
    ensures
        typing::made_same(
            c.infer(k).0,
            c.infer(k).1,
            typing::named("bool"@),
            k.span,
            c.infer_cond(Some(k), what),
        ),
        c.infer_cond(None, what) == c,
{
}

proof fn branch_is(
    c: CheckerV,
    branch: Output,
    cond: Option<Output>,
    body: Output,
)
    requires
        *branch.expr == Expression::Branch(cond, body),
    ensures
        ({
            let (f, t) = c.infer_cond(cond, "if condition"@).infer(body);
            c.infer_branch(branch) == (f, Some((t, body.span)))
        }),
{
}

#[verifier::rlimit(40)]
proof fn branches_from(
    c: CheckerV,
    items: Seq<Output>,
    branch: Output,
    cond: Option<Output>,
    body: Output,
    at: nat,
    sofar: Option<Tree>,
)
    requires
        at <= items.len(),
        *branch.expr == Expression::Branch(cond, body),
    ensures
        ({
            let (d, p) = c.infer_branches(items, at, sofar);
            let (f, t) = d.infer_cond(cond, "if condition"@).infer(body);
            let (g, q) = c.infer_branches(items.push(branch), at, sofar);
            match p {
                None => g == f && q == Some(t),
                Some(r) => typing::made_same(f, r, t, body.span, g) && q == p,
            }
        }),
    decreases items.len() - at,
{
    let more = items.push(branch);
    if at < items.len() {
        assert(more[at as int] == items[at as int]);
        match (c.infer_branch(items[at as int]), sofar) {
            ((d, None), _) => branches_from(d, items, branch, cond, body, at + 1, sofar),
            ((d, Some((t, _))), None) => branches_from(
                d,
                items,
                branch,
                cond,
                body,
                at + 1,
                Some(t),
            ),
            ((d, Some((t, place))), Some(r)) => branches_from(
                d.unify(r, t, place, "if branch"@).0,
                items,
                branch,
                cond,
                body,
                at + 1,
                sofar,
            ),
        }
    } else {
        assert(more[at as int] == branch);
        branch_is(c, branch, cond, body);
        let (f, t) = c.infer_cond(cond, "if condition"@).infer(body);
        match sofar {
            None => {
                assert(f.infer_branches(more, at + 1, Some(t)) == (f, Some(t)));
            },
            Some(r) => {
                typing::types_are_made_the_same(f, r, t, body.span, "if branch"@);
                let g = f.unify(r, t, body.span, "if branch"@).0;
                assert(g.infer_branches(more, at + 1, sofar) == (g, sofar));
            },
        }
    }
}

/// The condition of each branch of an `if` is looked at in its turn and then its
/// body; the first body gives the type, and every later one is made the same.
pub proof fn branches_are_made_the_same(
    c: CheckerV,
    items: Seq<Output>,
    branch: Output,
    cond: Option<Output>,
    body: Output,
)
    requires
        *branch.expr == Expression::Branch(cond, body),
    ensures
        ({
            let (d, p) = c.infer_branches(items, 0, None);
            let (f, t) = d.infer_cond(cond, "if condition"@).infer(body);
            let (g, q) = c.infer_branches(items.push(branch), 0, None);
            &&& items.len() == 0 ==> p is None && d == c
            &&& p is None ==> g == f && q == Some(t)
            &&& p matches Some(r) ==> typing::made_same(f, r, t, body.span, g) && q == p
        }),
{
    branches_from(c, items, branch, cond, body, 0, None);
}

proof fn arms_from(
    c: CheckerV,
    arms: Seq<MatchArm>,
    arm: MatchArm,
    at: nat,
    scrutinee: Tree,
    sofar: Option<Tree>,
    covered: Seq<ArmCoverage>,
)
    requires
        at <= arms.len(),
    ensures
        ({
            let (d, p, _) = c.infer_arms(arms, at, scrutinee, sofar, covered);
            let (e, t) = d.push_scope().infer_pattern(arm.pattern, scrutinee, arm.body.span);
            let f = e.unify(scrutinee, t, arm.body.span, "match pattern against scrutinee"@).0;
            let (g, u) = f.infer(arm.body);
            let (h, q, _) = c.infer_arms(arms.push(arm), at, scrutinee, sofar, covered);
            match p {
                None => h == g.pop_scope() && q == Some(u),
                Some(r) => h == g.unify(r, u, arm.body.span, "match arm body"@).0.pop_scope() && q
                    == p,
            }
        }),
    decreases arms.len() - at,
{
    let more = arms.push(arm);
    let here = more[at as int];
    let place = here.body.span;
    let (a, p) = c.push_scope().infer_pattern(here.pattern, scrutinee, place);
    let b = a.unify(scrutinee, p, place, "match pattern against scrutinee"@).0;
    let coverage = b.arm_coverage(here.pattern, place);
    let (d, t) = b.infer(here.body);
    let (e, r) = match sofar {
        None => (d, t),
        Some(r) => (d.unify(r, t, place, "match arm body"@).0, r),
    };
    if at < arms.len() {
        assert(here == arms[at as int]);
        arms_from(
            e.pop_scope(),
            arms,
            arm,
            at + 1,
            scrutinee,
            Some(r),
            covered.push(coverage),
        );
    } else {
        assert(here == arm);
        assert(e.pop_scope().infer_arms(
            more,
            at + 1,
            scrutinee,
            Some(r),
            covered.push(coverage),
        ) == (e.pop_scope(), Some(r), covered.push(coverage)));
    }
}

/// Each arm of a `match` has a frame of its own, in which its pattern is held
/// against the matched value; the first body gives the type, and every later one
/// is made the same.
pub proof fn arms_are_made_the_same(
    c: CheckerV,
    arms: Seq<MatchArm>,
    arm: MatchArm,
    scrutinee: Tree,
)
    ensures
        ({
            let (d, p, _) = c.infer_arms(arms, 0, scrutinee, None, Seq::empty());
            let (e, t) = d.push_scope().infer_pattern(arm.pattern, scrutinee, arm.body.span);
            let (h, q, _) = c.infer_arms(arms.push(arm), 0, scrutinee, None, Seq::empty());
            exists|f: CheckerV, k: CheckerV|
                {
                    &&& #[trigger] typing::made_same(e, scrutinee, t, arm.body.span, f)
                    &&& #[trigger] k.pop_scope() == h
                    &&& p is None ==> k == f.infer(arm.body).0 && q == Some(f.infer(arm.body).1)
                    &&& p matches Some(r) ==> q == p && typing::made_same(
                        f.infer(arm.body).0,
                        r,
                        f.infer(arm.body).1,
                        arm.body.span,
                        k,
                    )
                }
        }),
{
    let (d, p, _) = c.infer_arms(arms, 0, scrutinee, None, Seq::empty());
    let (e, t) = d.push_scope().infer_pattern(arm.pattern, scrutinee, arm.body.span);
    let f = e.unify(scrutinee, t, arm.body.span, "match pattern against scrutinee"@).0;
    typing::types_are_made_the_same(
        e,
        scrutinee,
        t,
        arm.body.span,
        "match pattern against scrutinee"@,
    );
    let (g, u) = f.infer(arm.body);
    arms_from(c, arms, arm, 0, scrutinee, None, Seq::empty());
    let k = match p {
        None => g,
        Some(r) => {
            typing::types_are_made_the_same(g, r, u, arm.body.span, "match arm body"@);
            g.unify(r, u, arm.body.span, "match arm body"@).0
        },
    };
    assert(typing::made_same(e, scrutinee, t, arm.body.span, f));
    assert(k.pop_scope() == c.infer_arms(arms.push(arm), 0, scrutinee, None, Seq::empty()).0);
}

proof fn fields_from(
    c: CheckerV,
    items: Seq<Output>,
    tys: Seq<Tree>,
    e: Output,
    want: Tree,
    at: nat,
)
    requires
        at <= items.len() == tys.len(),
    ensures
        ({
            let (f, t) = c.infer_fields(items, tys, at).infer(e);
            typing::made_same(
                f,
                t,
                want,
                e.span,
                c.infer_fields(items.push(e), tys.push(want), at),
            )
        }),
    decreases items.len() - at,
{
    let more = items.push(e);
    let wanted = tys.push(want);
    if at < items.len() {
        assert(more[at as int] == items[at as int]);
        assert(wanted[at as int] == tys[at as int]);
        let (d, t) = c.infer(items[at as int]);
        let f = d.unify(t, tys[at as int], items[at as int].span, "constructor argument"@).0;
        fields_from(f, items, tys, e, want, at + 1);
    } else {
        assert(more[at as int] == e);
        assert(wanted[at as int] == want);
        let (d, t) = c.infer(e);
        let f = d.unify(t, want, e.span, "constructor argument"@).0;
        typing::types_are_made_the_same(d, t, want, e.span, "constructor argument"@);
        assert(f.infer_fields(more, wanted, at + 1) == f);
    }
}

/// The arguments of `new` are held against the fields in the order of their
/// declaration, every one of them.
pub proof fn new_arguments_fit_their_fields(
    c: CheckerV,
    items: Seq<Output>,
    tys: Seq<Tree>,
    e: Output,
    want: Tree,
)
    requires
        items.len() == tys.len(),
    ensures
        c.infer_fields(Seq::empty(), Seq::empty(), 0) == c,
        typing::made_same(
            c.infer_fields(items, tys, 0).infer(e).0,
            c.infer_fields(items, tys, 0).infer(e).1,
            want,
            e.span,
            c.infer_fields(items.push(e), tys.push(want), 0),
        ),
{
    fields_from(c, items, tys, e, want, 0);
}

proof fn payload_from(
    c: CheckerV,
    items: Seq<Output>,
    tys: Seq<Tree>,
    e: Output,
    want: Tree,
    at: nat,
    what: Seq<char>,
)
    requires
        at <= items.len() == tys.len(),
    ensures
        ({
            let (f, t) = c.infer_tuple_payload(items, tys, at, what).infer(e);
            typing::made_same(
                f,
                want,
                t,
                e.span,
                c.infer_tuple_payload(items.push(e), tys.push(want), at, what),
            )
        }),
    decreases items.len() - at,
{
    let more = items.push(e);
    let wanted = tys.push(want);
    if at < items.len() {
        assert(more[at as int] == items[at as int]);
        assert(wanted[at as int] == tys[at as int]);
        let (d, t) = c.infer(items[at as int]);
        let f = d.unify(tys[at as int], t, items[at as int].span, what).0;
        payload_from(f, items, tys, e, want, at + 1, what);
    } else {
        assert(more[at as int] == e);
        assert(wanted[at as int] == want);
        let (d, t) = c.infer(e);
        let f = d.unify(want, t, e.span, what).0;
        typing::types_are_made_the_same(d, want, t, e.span, what);
        assert(f.infer_tuple_payload(more, wanted, at + 1, what) == f);
    }
}

/// The values of a tuple variant are held against the parts of its payload,
/// every one against the part at its own place.
pub proof fn variant_values_fit_their_payload(
    c: CheckerV,
    items: Seq<Output>,
    tys: Seq<Tree>,
    e: Output,
    want: Tree,
    what: Seq<char>,
)
    requires
        items.len() == tys.len(),
    ensures
        c.infer_tuple_payload(Seq::empty(), Seq::empty(), 0, what) == c,
        typing::made_same(
            c.infer_tuple_payload(items, tys, 0, what).infer(e).0,
            want,
            c.infer_tuple_payload(items, tys, 0, what).infer(e).1,
            e.span,
            c.infer_tuple_payload(items.push(e), tys.push(want), 0, what),
        ),
{
    payload_from(c, items, tys, e, want, 0, what);
}

} // verus!
