//! What is recorded of method calls for the code that runs them.
use crate::ast::Output;
use crate::env::{self, SchemeV};
use crate::generics::InstV;
use crate::id::NodeId;
use crate::infer::annotations;
use crate::infer::calls as application;
use crate::infer::instances::BoundMethodV;
use crate::infer::laws::{calls, dictionaries};
use crate::infer::methods::{OpenSchemeV, PlanV};
use crate::infer::{BoundMethodCall, CheckerV, ExistentialMethodCall, TablesV};
use crate::report::{ErrorCode, Span};
use crate::tree::{Head, Tree};
use crate::ty::TyVarId;
use crate::{subst, unify};
use vstd::prelude::*;

verus! {

/// The recipes for method calls are the same.
pub open spec fn same_recipes(a: TablesV, b: TablesV) -> bool {
    &&& a.method_calls == b.method_calls
    &&& a.method_calls_by_span == b.method_calls_by_span
    &&& a.existential_calls == b.existential_calls
    &&& a.existential_calls_by_span == b.existential_calls_by_span
}

proof fn peeling_keeps(c: CheckerV, t: Tree, acc: Seq<Tree>)
    ensures
        c.peel_foralls(t, acc).0.out == c.out,
    decreases application::lead(t),
{
    if let Tree::Node(Head::Forall(bounds), kids) = t {
        if kids.len() > 0 {
            let (d, body, constraints) = c.instantiate_forall_ty(t);
            application::fresh_map_renames(bounds, c.counter);
            application::lead_renamed(kids.last(), env::fresh_map(bounds, c.counter));
            peeling_keeps(d, body, acc + constraints);
        }
    }
}

proof fn constraints_keep(
    c: CheckerV,
    local: Map<TyVarId, Tree>,
    granted: Seq<Tree>,
    constraints: Seq<Tree>,
    range: Span,
    at: nat,
)
    ensures
        c.check_rank_n_constraints(local, granted, constraints, range, at).out == c.out,
    decreases constraints.len() - at,
{
    if at < constraints.len() {
        let k = constraints[at as int];
        let class = annotations::class_of(k);
        let args = subst::subst_all(k.kids(), local);
        constraints_keep(c, local, granted, constraints, range, at + 1);
        constraints_keep(
            c.say(
                ErrorCode::GenericTypeError,
                "Cannot pass constrained polymorphic value where unconstrained `forall` is expected"@,
                range,
            ),
            local,
            granted,
            constraints,
            range,
            at + 1,
        );
        constraints_keep(
            c.say(
                ErrorCode::GenericTypeError,
                "Cannot satisfy constraint `"@ + class + "`"@,
                range,
            ),
            local,
            granted,
            constraints,
            range,
            at + 1,
        );
        constraints_keep(
            c.say(
                ErrorCode::GenericTypeError,
                "No instance for `"@ + class + "<"@ + Tree::join_text(args) + ">`"@,
                range,
            ),
            local,
            granted,
            constraints,
            range,
            at + 1,
        );
    }
}

proof fn rank_argument_keeps(
    c: CheckerV,
    expected: Tree,
    inferred: Tree,
    arg: Option<Output>,
    range: Span,
)
    ensures
        c.check_rank_n_argument(expected, inferred, arg, range).out == c.out,
{
    let (b, body, granted) = c.skolemize_forall_ty(expected);
    let (d, t, constraints) = b.rank_n_candidate(inferred, arg);
    let place = match arg {
        Some(e) => e.span,
        None => range,
    };
    if let Ok(local) = unify::unified(Map::empty(), d.resolve(t), body) {
        constraints_keep(d, local, granted, constraints, place, 0);
    }
}

proof fn coercion_keeps(
    c: CheckerV,
    want: Tree,
    have: Tree,
    expr: Option<Output>,
    range: Span,
    what: Seq<char>,
)
    ensures
        same_recipes(c.coerce_or_unify(want, have, expr, range, what).0.out, c.out),
{
    if let Some(items) = application::array_items(expr) {
        calls::byte_items(c, items, 0);
    }
}

proof fn discharging_keeps(c: CheckerV, call: Option<NodeId>, k: Tree, range: Span)
    ensures
        same_recipes(c.discharge_constraint(call, k, range).out, c.out),
{
    let class = annotations::class_of(k);
    let args = c.resolve_all(k.kids());
    match c.find_unique_instance(class, args, range) {
        (d, Ok(Some(inst))) => {
            let e = d.record_call_site_dict(call, range, inst);
            if e.reg.generics.typeclasses.contains_key(class) {
                dictionaries::pinning_keeps_tables(
                    e,
                    e.reg.generics.typeclasses[class],
                    inst,
                    range,
                    0,
                );
            }
        },
        _ => {},
    }
}

proof fn all_discharging_keeps(
    c: CheckerV,
    call: Option<NodeId>,
    ks: Seq<Tree>,
    range: Span,
    at: nat,
)
    ensures
        same_recipes(c.discharge_constraints(call, ks, range, at).out, c.out),
    decreases ks.len() - at,
{
    if at < ks.len() {
        discharging_keeps(c, call, ks[at as int], range);
        all_discharging_keeps(
            c.discharge_constraint(call, ks[at as int], range),
            call,
            ks,
            range,
            at + 1,
        );
    }
}

proof fn applying_keeps(
    c: CheckerV,
    name: Option<Seq<char>>,
    fun_ty: Tree,
    args: Seq<Tree>,
    exprs: Option<Seq<Output>>,
    call: Option<NodeId>,
    range: Span,
    at: nat,
)
    ensures
        same_recipes(
            c.apply_function(name, fun_ty, args, exprs, call, range, at).0.out,
            c.out,
        ),
    decreases args.len() - at,
{
    if at < args.len() {
        let arg = args[at as int];
        let expr = application::nth_expr(exprs, at as int);
        let (b, t, pending) = c.peel_foralls(c.resolve(fun_ty), Seq::empty());
        peeling_keeps(c, c.resolve(fun_ty), Seq::empty());
        match t {
            Tree::Var(v) => {
                let (d, ret) = b.fresh();
                let e = d.unify(Tree::Var(v), Tree::fun(arg, ret), range, "function type"@).0;
                applying_keeps(e, name, ret, args, exprs, call, range, at + 1);
            },
            Tree::Node(Head::Fun, kids) => {
                let param = kids[0];
                let d = if param is Node && param.head() is Forall {
                    rank_argument_keeps(b, param, arg, expr, range);
                    b.check_rank_n_argument(param, arg, expr, range)
                } else {
                    coercion_keeps(b, param, arg, expr, range, "function argument"@);
                    b.coerce_or_unify(param, arg, expr, range, "function argument"@).0
                };
                all_discharging_keeps(d, call, pending, range, 0);
                applying_keeps(
                    d.discharge_constraints(call, pending, range, 0),
                    name,
                    kids[1],
                    args,
                    exprs,
                    call,
                    range,
                    at + 1,
                );
            },
            _ => {},
        }
    }
}

proof fn pins_keep(c: CheckerV, pins: Seq<(Seq<char>, Tree, Tree)>, range: Span, at: nat)
    ensures
        c.unify_pins(pins, range, at).out == c.out,
    decreases pins.len() - at,
{
    if at < pins.len() {
        let (name, fresh, concrete) = pins[at as int];
        pins_keep(
            c.unify(fresh, concrete, range, "associated type `"@ + name + "`"@).0,
            pins,
            range,
            at + 1,
        );
    }
}

proof fn instance_pins_keep(c: CheckerV, class: Seq<char>, inst: InstV, range: Span)
    ensures
        c.pin_assoc_types_for_instance(class, inst, range).out == c.out,
{
    if c.reg.generics.typeclasses.contains_key(class) {
        dictionaries::pinning_keeps_tables(
            c,
            c.reg.generics.typeclasses[class],
            inst,
            range,
            0,
        );
    }
}

proof fn pinning_keeps(
    c: CheckerV,
    class: Seq<char>,
    ks: Seq<Tree>,
    scheme: SchemeV,
    mapping: Map<TyVarId, Tree>,
    range: Span,
    at: nat,
)
    ensures
        c.pin_assoc_after_discharge(class, ks, Some(scheme), mapping, range, at).out == c.out,
    decreases ks.len() - at,
{
    if at < ks.len() {
        let k = ks[at as int];
        let own = annotations::class_of(k);
        let args = c.resolve_all(k.kids());
        pinning_keeps(c, class, ks, scheme, mapping, range, at + 1);
        let found = c.find_unique_instance(own, args, range);
        pinning_keeps(found.0, class, ks, scheme, mapping, range, at + 1);
        if let (b, Ok(Some(inst))) = found {
            pins_keep(
                b,
                b.scheme_pins(inst, scheme.projections, mapping, 0, Seq::empty()),
                range,
                0,
            );
            let d = b.pin_assoc_vars_from_mapping(own, inst, scheme, mapping, range);
            instance_pins_keep(d, own, inst, range);
            let e = d.pin_assoc_types_for_instance(own, inst, range);
            pinning_keeps(e, class, ks, scheme, mapping, range, at + 1);
        }
    }
}

proof fn settling_keeps(
    c: CheckerV,
    class: Seq<char>,
    scheme: SchemeV,
    open: OpenSchemeV,
    id: Option<NodeId>,
    range: Span,
)
    ensures
        same_recipes(c.settle(class, scheme, open, id, range).out, c.out),
{
    all_discharging_keeps(c, id, open.constraints, range, 0);
    pinning_keeps(
        c.discharge_constraints(id, open.constraints, range, 0),
        class,
        open.constraints,
        scheme,
        open.mapping,
        range,
        0,
    );
}

/// A call of a method on a packed value is recorded, under its node and its
/// place, with the slot of the method, the number of arguments and whether the
/// first of them is its receiver.
pub proof fn packed_calls_are_recorded(
    c: CheckerV,
    owner: Seq<char>,
    slot: usize,
    scheme: SchemeV,
    method: Seq<char>,
    args: Seq<Tree>,
    exprs: Option<Seq<Output>>,
    id: NodeId,
    range: Span,
)
    requires
        args.len() <= usize::MAX,
    ensures
        ({
            let d = c.finish_method(
                PlanV::Existential(owner, slot, scheme),
                method,
                args,
                exprs,
                Some(id),
                range,
            ).0;
            let h = ExistentialMethodCall {
                method_slot: slot,
                arity: args.len() as usize,
                has_receiver: true,
            };
            &&& d.out.existential_calls == c.out.existential_calls.insert(id, h)
            &&& d.out.existential_calls_by_span == c.out.existential_calls_by_span.insert(range, h)
        }),
{
    let h = ExistentialMethodCall {
        method_slot: slot,
        arity: args.len() as usize,
        has_receiver: true,
    };
    let b = c.record_existential_call(Some(id), range, h);
    let (d, fun_ty, constraints) = b.instantiate_scheme(scheme);
    applying_keeps(
        d,
        Some(owner + "::"@ + method),
        fun_ty,
        args,
        exprs,
        Some(id),
        range,
        0,
    );
    let e = d.apply_function(
        Some(owner + "::"@ + method),
        fun_ty,
        args,
        exprs,
        Some(id),
        range,
        0,
    ).0;
    all_discharging_keeps(
        e,
        Some(id),
        CheckerV::of_other_classes(constraints, owner, 0, Seq::empty()),
        range,
        0,
    );
}

/// A call of a method through a bound is recorded, under its node and its place,
/// with the dictionary of the bound, the slot of the method in it, the number of
/// arguments, and that the first of them is its receiver.
pub proof fn bound_calls_are_recorded(
    c: CheckerV,
    b: BoundMethodV,
    open: OpenSchemeV,
    method: Seq<char>,
    args: Seq<Tree>,
    exprs: Option<Seq<Output>>,
    id: NodeId,
    range: Span,
)
    requires
        args.len() <= usize::MAX,
    ensures
        ({
            let d = c.finish_method(
                PlanV::Bound(b, open),
                method,
                args,
                exprs,
                Some(id),
                range,
            ).0;
            let h = BoundMethodCall {
                dict_index: b.dict_index,
                method_slot: b.method_slot,
                arity: args.len() as usize,
                has_receiver: true,
            };
            &&& d.out.method_calls == c.out.method_calls.insert(id, h)
            &&& d.out.method_calls_by_span == c.out.method_calls_by_span.insert(range, h)
        }),
{
    let h = BoundMethodCall {
        dict_index: b.dict_index,
        method_slot: b.method_slot,
        arity: args.len() as usize,
        has_receiver: true,
    };
    let a = c.record_method_call(Some(id), range, h);
    applying_keeps(
        a,
        Some(b.owner + "::"@ + method),
        open.ty,
        args,
        None,
        Some(id),
        range,
        0,
    );
    let e = a.apply_function(
        Some(b.owner + "::"@ + method),
        open.ty,
        args,
        None,
        Some(id),
        range,
        0,
    ).0;
    settling_keeps(e, b.owner, b.scheme, open, Some(id), range);
}

/// A function call that is one of a method through a bound is recorded in the
/// same way, without a receiver.
pub proof fn bound_function_calls_are_recorded(
    c: CheckerV,
    name: Seq<char>,
    args: Seq<Tree>,
    exprs: Option<Seq<Output>>,
    id: NodeId,
    range: Span,
    v: TyVarId,
    b: BoundMethodV,
)
    requires
        0 < args.len() <= usize::MAX,
        args[0].subst(c.subst) == Tree::Var(v),
        c.bound_method_candidates(name, Some(v), 0, Seq::empty()) == seq![b],
        c.bound_method_candidates(name, None, 0, Seq::empty()).len() > 0,
    ensures
        ({
            let d = c.finish_call(name, args, exprs, Some(id), range).0;
            let h = BoundMethodCall {
                dict_index: b.dict_index,
                method_slot: b.method_slot,
                arity: args.len() as usize,
                has_receiver: false,
            };
            &&& d.out.method_calls == c.out.method_calls.insert(id, h)
            &&& d.out.method_calls_by_span == c.out.method_calls_by_span.insert(range, h)
        }),
{
    let h = BoundMethodCall {
        dict_index: b.dict_index,
        method_slot: b.method_slot,
        arity: args.len() as usize,
        has_receiver: false,
    };
    c.binding_keeps(Some(v), b.dict_class, 0);
    let (a, open) = c.bind_matching_abstract_constraints(
        Some(v),
        b.dict_class,
        0,
    ).open_scheme(b.scheme);
    let d = a.record_method_call(Some(id), range, h);
    let full = Some(b.owner + "::"@ + name);
    applying_keeps(d, full, open.ty, args, exprs, Some(id), range, 0);
    let e = d.apply_function(full, open.ty, args, exprs, Some(id), range, 0).0;
    settling_keeps(e, b.owner, b.scheme, open, Some(id), range);
}

} // verus!
