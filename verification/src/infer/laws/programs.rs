//! What a whole program starts from and ends with.
use crate::ast::{Expression, Output, TypeParam, WhereConstraint};
use crate::generics::{self, InstV};
use crate::id::NodeId;
use crate::infer::laws::{control, typing};
use crate::infer::{enums, properties};
use crate::infer::{ArmCoverage, CheckerV, PendingV, TablesV};
use crate::report::{ErrorCode, Span};
use crate::tree::{Head, Tree};
use crate::ty::TyVarId;
use vstd::prelude::*;

verus! {

proof fn checks_from(c: CheckerV, pending: Seq<PendingV>, p: PendingV, at: nat)
    requires
        at <= pending.len(),
    ensures
        c.check_all(pending.push(p), at) == c.check_all(pending, at).check_exhaustiveness(p),
    decreases pending.len() - at,
{
    let more = pending.push(p);
    if at < pending.len() {
        assert(more[at as int] == pending[at as int]);
        checks_from(c.check_exhaustiveness(pending[at as int]), pending, p, at + 1);
    } else {
        assert(more[at as int] == p);
        let d = c.check_exhaustiveness(p);
        assert(d.check_all(more, at + 1) == d);
    }
}

/// Every match that was kept for later is checked, in turn, and none is left.
pub proof fn kept_matches_are_checked(c: CheckerV, pending: Seq<PendingV>, p: PendingV)
    requires
        c.out.pending == pending.push(p),
    ensures
        c.run_pending_exhaustiveness() == (CheckerV {
            out: TablesV { pending: Seq::empty(), ..c.out },
            ..c
        }).check_all(pending, 0).check_exhaustiveness(p),
        (CheckerV { out: TablesV { pending: Seq::empty(), ..c.out }, ..c }).check_all(
            Seq::empty(),
            0,
        ) == (CheckerV { out: TablesV { pending: Seq::empty(), ..c.out }, ..c }),
{
    checks_from(
        CheckerV { out: TablesV { pending: Seq::empty(), ..c.out }, ..c },
        pending,
        p,
        0,
    );
}

/// A match on an `Option` needs an arm for `None` and one for `Some`, a match on a
/// `Result` one for `Ok` and one for `Err`, unless an arm takes every value.
pub proof fn built_in_enums_need_both_arms(
    c: CheckerV,
    p: PendingV,
    t: Tree,
    e: Tree,
    tag: u32,
)
    requires
        c.resolve(p.scrutinee_ty) == control::option_of(t) || c.resolve(p.scrutinee_ty)
            == control::result_of(t, e),
        tag < 2,
        forall|k: int|
            0 <= k < p.arms.len() ==> !(#[trigger] p.arms[k]).is_catchall && p.arms[k].tag != Some(
                tag,
            ),
    ensures
        c.check_exhaustiveness(p).messages.len() > c.messages.len(),
        c.check_exhaustiveness(p).messages.last().code == ErrorCode::NonExhaustiveMatch,
        c.check_exhaustiveness(p).messages.last().range == p.match_range,
{
    built_in_variants(c, t, e);
    let variants = c.variants_to_cover(c.resolve(p.scrutinee_ty)).unwrap();
    properties::missing_variants_are_reported(c, p, variants, tag as int);
}

proof fn built_in_variants(c: CheckerV, t: Tree, e: Tree)
    ensures
        c.variants_to_cover(control::option_of(t)) == Some(
            seq![
                ("None"@, Tree::Node(Head::UnitPayload, Seq::empty())),
                ("Some"@, Tree::Node(Head::TuplePayload, seq![t])),
            ],
        ),
        c.variants_to_cover(control::result_of(t, e)) == Some(
            seq![
                ("Ok"@, Tree::Node(Head::TuplePayload, seq![t])),
                ("Err"@, Tree::Node(Head::TuplePayload, seq![e])),
            ],
        ),
{
    reveal_strlit("Option");
    reveal_strlit("Result");
    assert("Option"@[0] != "Result"@[0]);
    assert(control::option_of(t).kids().drop_first() =~= seq![t]);
    assert(control::result_of(t, e).kids().drop_first() =~= seq![t, e]);
}

/// A match on an `Option` or a `Result` with one arm for each variant is accepted.
pub proof fn both_arms_are_enough(
    c: CheckerV,
    p: PendingV,
    t: Tree,
    e: Tree,
    first: ArmCoverage,
    second: ArmCoverage,
)
    requires
        c.resolve(p.scrutinee_ty) == control::option_of(t) || c.resolve(p.scrutinee_ty)
            == control::result_of(t, e),
        p.arms == seq![first, second],
        !first.is_catchall && !second.is_catchall,
        first.tag == Some(0u32) && second.tag == Some(1u32) || first.tag == Some(1u32)
            && second.tag == Some(0u32),
    ensures
        c.check_exhaustiveness(p) == c,
{
    built_in_variants(c, t, e);
    let variants = c.variants_to_cover(c.resolve(p.scrutinee_ty)).unwrap();
    assert(p.arms[0] == first && p.arms[1] == second);
    assert forall|i: int| 0 <= i < variants.len() implies #[trigger] enums::tests_tag(
        p.arms,
        i as u32,
    ) by {
        assert(i == 0 || i == 1);
        assert(p.arms[0].tag == Some(i as u32) || p.arms[1].tag == Some(i as u32));
    }
    properties::covering_matches_are_accepted(c, p, variants);
}

proof fn constraints_from(
    c: CheckerV,
    call: Option<NodeId>,
    ks: Seq<Tree>,
    k: Tree,
    range: Span,
    at: nat,
)
    requires
        at <= ks.len(),
    ensures
        c.discharge_constraints(call, ks.push(k), range, at) == c.discharge_constraints(
            call,
            ks,
            range,
            at,
        ).discharge_constraint(call, k, range),
    decreases ks.len() - at,
{
    let more = ks.push(k);
    if at < ks.len() {
        assert(more[at as int] == ks[at as int]);
        constraints_from(
            c.discharge_constraint(call, ks[at as int], range),
            call,
            ks,
            k,
            range,
            at + 1,
        );
    } else {
        assert(more[at as int] == k);
        let d = c.discharge_constraint(call, k, range);
        assert(d.discharge_constraints(call, more, range, at + 1) == d);
    }
}

/// Every constraint of a call is discharged, in order, so that the dictionaries of
/// the call come in the order of its constraints.
pub proof fn every_constraint_is_discharged(
    c: CheckerV,
    call: Option<NodeId>,
    ks: Seq<Tree>,
    k: Tree,
    range: Span,
)
    ensures
        c.discharge_constraints(call, Seq::empty(), range, 0) == c,
        c.discharge_constraints(call, ks.push(k), range, 0) == c.discharge_constraints(
            call,
            ks,
            range,
            0,
        ).discharge_constraint(call, k, range),
{
    constraints_from(c, call, ks, k, range, 0);
}

proof fn pins_from(
    c: CheckerV,
    pins: Seq<(Seq<char>, Tree, Tree)>,
    pin: (Seq<char>, Tree, Tree),
    range: Span,
    at: nat,
)
    requires
        at <= pins.len(),
    ensures
        typing::made_same(
            c.unify_pins(pins, range, at),
            pin.1,
            pin.2,
            range,
            c.unify_pins(pins.push(pin), range, at),
        ),
    decreases pins.len() - at,
{
    let more = pins.push(pin);
    if at < pins.len() {
        assert(more[at as int] == pins[at as int]);
        let (name, fresh, concrete) = pins[at as int];
        pins_from(
            c.unify(fresh, concrete, range, "associated type `"@ + name + "`"@).0,
            pins,
            pin,
            range,
            at + 1,
        );
    } else {
        assert(more[at as int] == pin);
        let d = c.unify(pin.1, pin.2, range, "associated type `"@ + pin.0 + "`"@).0;
        typing::types_are_made_the_same(
            c,
            pin.1,
            pin.2,
            range,
            "associated type `"@ + pin.0 + "`"@,
        );
        assert(d.unify_pins(more, range, at + 1) == d);
    }
}

/// Every associated type of an instance is made the same as what the instance has
/// for it.
pub proof fn associated_types_are_pinned(
    c: CheckerV,
    pins: Seq<(Seq<char>, Tree, Tree)>,
    pin: (Seq<char>, Tree, Tree),
    range: Span,
)
    ensures
        c.unify_pins(Seq::empty(), range, 0) == c,
        typing::made_same(
            c.unify_pins(pins, range, 0),
            pin.1,
            pin.2,
            range,
            c.unify_pins(pins.push(pin), range, 0),
        ),
{
    pins_from(c, pins, pin, range, 0);
}

proof fn fresh_keeps(
    c: CheckerV,
    params: Seq<TypeParam>,
    at: nat,
    frame: Map<Seq<char>, TyVarId>,
    vars: Seq<TyVarId>,
    name: Seq<char>,
    k: int,
)
    requires
        at <= params.len(),
        forall|j: int| at <= j < params.len() ==> (#[trigger] params[j]).name@ != name,
        frame.contains_key(name),
        0 <= k < vars.len(),
    ensures
        c.fresh_params(params, at, frame, vars).1.contains_key(name),
        c.fresh_params(params, at, frame, vars).1[name] == frame[name],
        c.fresh_params(params, at, frame, vars).2.len() == vars.len() + params.len() - at,
        c.fresh_params(params, at, frame, vars).2[k] == vars[k],
        c.fresh_params(params, at, frame, vars).0.messages == c.messages,
    decreases params.len() - at,
{
    if at < params.len() {
        let tp = params[at as int];
        let (b, v) = c.fresh_var();
        let e = b.set_var_kind(v, b.resolve_type_param_kind(tp));
        assert(tp.name@ != name);
        fresh_keeps(e, params, at + 1, frame.insert(tp.name@, v), vars.push(v), name, k);
    }
}

proof fn fresh_from(
    c: CheckerV,
    params: Seq<TypeParam>,
    at: nat,
    frame: Map<Seq<char>, TyVarId>,
    vars: Seq<TyVarId>,
    i: int,
)
    requires
        at <= i < params.len(),
        c.counter + params.len() - at <= u32::MAX,
        forall|j: int| i < j < params.len() ==> (#[trigger] params[j]).name@ != params[i].name@,
    ensures
        ({
            let (d, f, vs) = c.fresh_params(params, at, frame, vars);
            let v = TyVarId((c.counter + i - at) as u32);
            &&& vs.len() == vars.len() + params.len() - at
            &&& vs[vars.len() + i - at] == v
            &&& f.contains_key(params[i].name@)
            &&& f[params[i].name@] == v
            &&& d.messages == c.messages
        }),
    decreases params.len() - at,
{
    let tp = params[at as int];
    let (b, v) = c.fresh_var();
    let e = b.set_var_kind(v, b.resolve_type_param_kind(tp));
    let inner = frame.insert(tp.name@, v);
    let next = vars.push(v);
    if at < i {
        fresh_from(e, params, at + 1, inner, next, i);
    } else {
        fresh_keeps(e, params, at + 1, inner, next, tp.name@, vars.len() as int);
    }
}

/// Each type parameter of a function gets a new variable of its own, in order,
/// and its name stands for that variable.
pub proof fn type_parameters_get_new_variables(c: CheckerV, params: Seq<TypeParam>, i: int)
    requires
        c.counter + params.len() <= u32::MAX,
        0 <= i < params.len(),
        forall|j: int| i < j < params.len() ==> (#[trigger] params[j]).name@ != params[i].name@,
    ensures
        ({
            let (d, f, vs) = c.fresh_params(params, 0, Map::empty(), Seq::empty());
            &&& vs.len() == params.len()
            &&& vs[i] == TyVarId((c.counter + i) as u32)
            &&& f.contains_key(params[i].name@)
            &&& f[params[i].name@] == vs[i]
            &&& d.messages == c.messages
        }),
{
    fresh_from(c, params, 0, Map::empty(), Seq::empty(), i);
}

/// A built-in operator of a class takes two values of one type with an instance,
/// and gives a value of that type, or a `bool` where it tests.
pub proof fn built_in_operators_take_two_of_a_type(
    c: CheckerV,
    class: Seq<char>,
    method: Seq<char>,
    tests: bool,
)
    ensures
        ({
            let d = c.add_operator(class, method, tests);
            let v = TyVarId(c.counter);
            let t = Tree::Var(v);
            &&& d.reg.method_schemes.contains_key((class, method))
            &&& d.reg.method_schemes[(class, method)].bounds == seq![v]
            &&& d.reg.method_schemes[(class, method)].constraints == seq![
                Tree::Node(Head::Pred(class), seq![t]),
            ]
            &&& d.reg.method_schemes[(class, method)].ty == Tree::Node(
                Head::Fun,
                seq![
                    t,
                    Tree::Node(
                        Head::Fun,
                        seq![
                            t,
                            if tests {
                                typing::named("bool"@)
                            } else {
                                t
                            },
                        ],
                    ),
                ],
            )
        }),
{
}

proof fn arguments_from(
    c: CheckerV,
    items: Seq<Output>,
    item: Output,
    ty: Output,
    name: String,
    at: nat,
    acc: Seq<(Seq<char>, Tree)>,
)
    requires
        at <= items.len(),
        *item.expr == Expression::Argument(ty, name),
    ensures
        ({
            let (d, known) = c.parse_args(items, at, acc);
            let (e, t) = d.parse_type_name(ty);
            c.parse_args(items.push(item), at, acc) == (e, known.push((name@, t)))
        }),
    decreases items.len() - at,
{
    let more = items.push(item);
    if at < items.len() {
        assert(more[at as int] == items[at as int]);
        match *items[at as int].expr {
            Expression::Argument(u, n) => {
                let (d, t) = c.parse_type_name(u);
                arguments_from(d, items, item, ty, name, at + 1, acc.push((n@, t)));
            },
            _ => {
                arguments_from(c, items, item, ty, name, at + 1, acc);
            },
        }
    } else {
        assert(more[at as int] == item);
        let (d, t) = c.parse_type_name(ty);
        assert(d.parse_args(more, at + 1, acc.push((name@, t))) == (d, acc.push((name@, t))));
    }
}

/// The parameters of a function are read in the order of their declaration, each
/// with its own name and type.
pub proof fn parameters_are_read_in_order(
    c: CheckerV,
    items: Seq<Output>,
    item: Output,
    ty: Output,
    name: String,
)
    requires
        *item.expr == Expression::Argument(ty, name),
    ensures
        ({
            let (d, known) = c.parse_args(items, 0, Seq::empty());
            let (e, t) = d.parse_type_name(ty);
            c.parse_args(items.push(item), 0, Seq::empty()) == (e, known.push((name@, t)))
        }),
{
    arguments_from(c, items, item, ty, name, 0, Seq::empty());
}

proof fn wheres_from(
    c: CheckerV,
    clauses: Seq<WhereConstraint>,
    w: WhereConstraint,
    at: nat,
    acc: Seq<Tree>,
)
    requires
        at <= clauses.len(),
    ensures
        ({
            let (d, known) = c.parse_wheres(clauses, at, acc);
            let (e, ts) = d.parse_type_names(w.args@, 0, Seq::empty());
            c.parse_wheres(clauses.push(w), at, acc) == (
                e,
                known.push(Tree::Node(Head::Pred(w.class@), ts)),
            )
        }),
    decreases clauses.len() - at,
{
    let more = clauses.push(w);
    let here = more[at as int];
    let (d, ts) = c.parse_type_names(here.args@, 0, Seq::empty());
    if at < clauses.len() {
        assert(here == clauses[at as int]);
        wheres_from(d, clauses, w, at + 1, acc.push(Tree::pred(here.class@, ts)));
    } else {
        assert(here == w);
        let last = acc.push(Tree::pred(w.class@, ts));
        assert(d.parse_wheres(more, at + 1, last) == (d, last));
    }
}

/// Every `where` clause asks for an instance of its class on its types, in the
/// order in which they are written.
pub proof fn where_clauses_ask_for_instances(
    c: CheckerV,
    clauses: Seq<WhereConstraint>,
    w: WhereConstraint,
    acc: Seq<Tree>,
)
    ensures
        ({
            let (d, known) = c.parse_wheres(clauses, 0, acc);
            let (e, ts) = d.parse_type_names(w.args@, 0, Seq::empty());
            c.parse_wheres(clauses.push(w), 0, acc) == (
                e,
                known.push(Tree::Node(Head::Pred(w.class@), ts)),
            )
        }),
        c.parse_wheres(Seq::empty(), 0, acc) == (c, acc),
{
    wheres_from(c, clauses, w, 0, acc);
}

proof fn exact_from(
    instances: Seq<InstV>,
    class: Seq<char>,
    args: Seq<Tree>,
    i: int,
)
    requires
        0 <= i < instances.len(),
        instances[i].class == class,
        instances[i].args == args,
        forall|j: int|
            0 <= j < i ==> !((#[trigger] instances[j]).class == class && instances[j].args == args),
    ensures
        generics::exact_instance(instances, class, args) == Some(instances[i]),
    decreases instances.len(),
{
    let p = |inst: InstV| generics::implements(inst, class, args);
    if i > 0 {
        assert(!p(instances[0]));
        let rest = instances.drop_first();
        assert forall|j: int| 0 <= j < i - 1 implies !((#[trigger] rest[j]).class == class
            && rest[j].args == args) by {
            assert(rest[j] == instances[j + 1]);
        }
        assert(rest[i - 1] == instances[i]);
        exact_from(rest, class, args, i - 1);
    } else {
        assert(p(instances[0]));
    }
}

/// The code of an instance's method is the one that the first instance of the
/// class for these very types names for it.
pub proof fn instance_methods_are_found(
    c: CheckerV,
    class: Seq<char>,
    args: Seq<Tree>,
    method: Seq<char>,
    i: int,
)
    requires
        0 <= i < c.reg.generics.instances.len(),
        c.reg.generics.instances[i].class == class,
        c.reg.generics.instances[i].args == args,
        forall|j: int|
            0 <= j < i ==> !((#[trigger] c.reg.generics.instances[j]).class == class
                && c.reg.generics.instances[j].args == args),
    ensures
        c.reg.generics.instances[i].method_fqns.contains_key(method) ==> c.instance_method_fqn(
            class,
            args,
            method,
        ) == Some(c.reg.generics.instances[i].method_fqns[method]),
        !c.reg.generics.instances[i].method_fqns.contains_key(method) ==> c.instance_method_fqn(
            class,
            args,
            method,
        ) is None,
{
    exact_from(c.reg.generics.instances, class, args, i);
}

} // verus!
