//! Which instance, and which method of a dictionary, is used.
use crate::generics::{self, InstV};
use crate::id::NodeId;
use crate::infer::instances::{self, BoundMethodV};
use crate::infer::laws::dictionaries;
use crate::infer::laws::typing;
use crate::infer::annotations;
use crate::infer::{BoundDisplayCall, BoundOperatorCall, CheckerV};
use crate::report::Span;
use crate::tree::{Head, Tree};
use crate::ty::TyVarId;
use vstd::prelude::*;

verus! {

/// The types that instances are looked up by: a constructor class looks at the
/// constructor of an applied type, any other at the type itself.
pub open spec fn looked_up(
    c: CheckerV,
    class: Seq<char>,
    args: Seq<Tree>,
    looked: Seq<Tree>,
) -> bool {
    let classes = c.reg.generics.typeclasses;
    &&& looked.len() == args.len()
    &&& forall|k: int|
        #![trigger looked[k]]
        0 <= k < args.len() ==> match args[k] {
            Tree::Node(Head::App, kids) => if classes.contains_key(class) && k
                < classes[class].param_kinds.len() && classes[class].param_kinds[k] is Arrow {
                looked[k] == kids[0]
            } else {
                looked[k] == args[k]
            },
            _ => looked[k] == args[k],
        }
}

/// The instance at place `i` is one of the class, and its types unify with those
/// that are looked up, one after the other.
pub open spec fn answering(c: CheckerV, i: int, class: Seq<char>, looked: Seq<Tree>) -> bool {
    let all = c.reg.generics.instances;
    &&& 0 <= i < all.len()
    &&& all[i].class == class
    &&& all[i].args.len() == looked.len()
    &&& generics::unify_lists(c.subst, looked, all[i].args) is Some
}

proof fn lookup_is(c: CheckerV, class: Seq<char>, args: Seq<Tree>, looked: Seq<Tree>)
    requires
        looked_up(c, class, args, looked),
    ensures
        c.instance_lookup_args(class, args) == looked,
{
    let r = c.instance_lookup_args(class, args);
    assert forall|k: int| 0 <= k < args.len() implies r[k] == #[trigger] looked[k] by {}
    assert(r =~= looked);
}

proof fn matching_places(c: CheckerV, class: Seq<char>, looked: Seq<Tree>, n: nat)
    requires
        n <= c.reg.generics.instances.len(),
    ensures
        ({
            let m = c.matching(class, looked, n);
            &&& forall|k: int|
                0 <= k < m.len() ==> #[trigger] m[k] < n && answering(
                    c,
                    m[k] as int,
                    class,
                    looked,
                )
            &&& forall|j: int, k: int| 0 <= j < k < m.len() ==> m[j] < m[k]
            &&& forall|i: int|
                0 <= i < n && #[trigger] answering(c, i, class, looked) ==> exists|k: int|
                    0 <= k < m.len() && #[trigger] m[k] == i
        }),
    decreases n,
{
    if n > 0 {
        matching_places(c, class, looked, (n - 1) as nat);
        let before = c.matching(class, looked, (n - 1) as nat);
        let m = c.matching(class, looked, n);
        assert(c.answers(n - 1, class, looked) is Some <==> answering(c, n - 1, class, looked));
        assert forall|i: int| 0 <= i < n && #[trigger] answering(c, i, class, looked) implies exists|
            k: int,
        |
            0 <= k < m.len() && #[trigger] m[k] == i by {
            if i < n - 1 {
                let k = choose|k: int| 0 <= k < before.len() && #[trigger] before[k] == i;
                assert(m[k] == i);
            } else {
                assert(m[m.len() - 1] == i);
            }
        }
    }
}

/// The instance that is found is the only one that answers: it is one of the
/// class, its types unify with the ones that are asked for, and what that solves
/// is kept. Where none answers none is found, and where several do it is told,
/// where the instance is needed.
pub proof fn the_only_instance_is_found(
    c: CheckerV,
    class: Seq<char>,
    args: Seq<Tree>,
    looked: Seq<Tree>,
    range: Span,
    i: int,
    j: int,
)
    requires
        looked_up(c, class, args, looked),
    ensures
        answering(c, i, class, looked) && (forall|k: int| #[trigger]
            answering(c, k, class, looked) ==> k == i) ==> c.find_unique_instance(
            class,
            args,
            range,
        ) == (
            CheckerV {
                subst: generics::unify_lists(
                    c.subst,
                    looked,
                    c.reg.generics.instances[i].args,
                ).unwrap(),
                ..c
            },
            Ok::<Option<InstV>, ()>(Some(c.reg.generics.instances[i])),
        ),
        (forall|k: int| !#[trigger] answering(c, k, class, looked)) ==> c.find_unique_instance(
            class,
            args,
            range,
        ) == (c, Ok::<Option<InstV>, ()>(None)),
        i != j && answering(c, i, class, looked) && answering(c, j, class, looked)
            ==> c.find_unique_instance(class, args, range).1 is Err && typing::complained(
            c,
            c.find_unique_instance(class, args, range).0,
            range,
        ),
{
    lookup_is(c, class, args, looked);
    let n = c.reg.generics.instances.len();
    let m = c.matching(class, looked, n);
    matching_places(c, class, looked, n);
    if m.len() > 0 {
        assert(answering(c, m[0] as int, class, looked));
    }
    if m.len() > 1 {
        assert(m[0] < m[1]);
        assert(answering(c, m[1] as int, class, looked));
    }
    if answering(c, i, class, looked) {
        let k = choose|k: int| 0 <= k < m.len() && #[trigger] m[k] == i;
        assert(m[k] == i);
        if answering(c, j, class, looked) {
            let l = choose|l: int| 0 <= l < m.len() && #[trigger] m[l] == j;
            assert(m[l] == j);
        }
    }
}

/// A constraint that is not covered by an active one is answered by the only
/// instance for it, which the call gets as one more dictionary; without an
/// instance, or with several, it is reported and no dictionary is passed.
pub proof fn constraints_are_answered_by_instances(
    c: CheckerV,
    call: NodeId,
    class: Seq<char>,
    args: Seq<Tree>,
    looked: Seq<Tree>,
    range: Span,
    i: int,
)
    requires
        looked_up(c, class, c.resolve_all(args), looked),
        !dictionaries::still_open(c, args),
        !c.reg.generics.typeclasses.contains_key(class)
            || c.reg.generics.typeclasses[class].assoc_types.len() == 0,
    ensures
        ({
            let d = c.discharge_constraint(
                Some(call),
                Tree::Node(Head::Pred(class), args),
                range,
            );
            &&& answering(c, i, class, looked) && (forall|k: int| #[trigger]
                answering(c, k, class, looked) ==> k == i) ==> {
                &&& d.messages == c.messages
                &&& dictionaries::one_more(
                    c.out.call_dicts,
                    d.out.call_dicts,
                    call,
                    c.reg.generics.instances[i],
                )
                &&& dictionaries::one_more(
                    c.out.call_dicts_by_span,
                    d.out.call_dicts_by_span,
                    range,
                    c.reg.generics.instances[i],
                )
            }
            &&& (forall|k: int| !#[trigger] answering(c, k, class, looked)) ==> typing::complained(
                c,
                d,
                range,
            )
        }),
{
    let resolved = c.resolve_all(args);
    assert(!instances::any_open(resolved)) by {
        if instances::any_open(resolved) {
            let k = choose|k: int| 0 <= k < resolved.len() && (#[trigger] resolved[k]) is Var;
            assert(args[k].subst(c.subst) is Var);
        }
    }
    the_only_instance_is_found(c, class, resolved, looked, range, i, i);
}

/// The constraint at place `i` is one on that variable, of a class that serves
/// for `class`; `own` is the class that it stands for.
pub open spec fn bound_at(
    c: CheckerV,
    i: int,
    var: TyVarId,
    class: Seq<char>,
    own: Seq<char>,
) -> bool {
    &&& 0 <= i < c.scope.active.len()
    &&& c.scope.active[i] matches Tree::Node(Head::Pred(name), args) && args.len() > 0 && args[0]
        == Tree::Var(var) && dictionaries::stands_for(c.scope.abstract_bindings, name, own)
        && dictionaries::serves(c.reg.generics.typeclasses, own, class)
}

proof fn bound_from(c: CheckerV, var: TyVarId, class: Seq<char>, at: nat)
    requires
        dictionaries::predicates(c.scope.active),
        c.scope.active.len() <= usize::MAX,
    ensures
        match c.user_dict(var, class, at) {
            Some((i, own)) => at <= i && bound_at(c, i as int, var, class, own) && forall|
                j: int,
                other: Seq<char>,
            |
                at <= j < i ==> !#[trigger] bound_at(c, j, var, class, other),
            None => forall|j: int, other: Seq<char>|
                at <= j ==> !#[trigger] bound_at(c, j, var, class, other),
        },
    decreases c.scope.active.len() - at,
{
    if at < c.scope.active.len() {
        let a = c.scope.active[at as int];
        let name = annotations::class_of(a);
        dictionaries::innermost_stands(c.scope.abstract_bindings, name, c.concrete_class(name));
        assert forall|other: Seq<char>|
            bound_at(c, at as int, var, class, other) implies other == c.concrete_class(name) by {
            dictionaries::innermost_stands(c.scope.abstract_bindings, name, other);
        }
        bound_from(c, var, class, at + 1);
    }
}

/// The method at place `slot` of a dictionary of `class` is the first one of that
/// name.
pub open spec fn slot_of(c: CheckerV, class: Seq<char>, method: Seq<char>, slot: int) -> bool {
    let classes = c.reg.generics.typeclasses;
    &&& classes.contains_key(class)
    &&& {
        let layout = generics::dict_layout(classes, classes[class]);
        &&& 0 <= slot < layout.len()
        &&& layout[slot].1.name == method
        &&& forall|j: int| 0 <= j < slot ==> (#[trigger] layout[j]).1.name != method
    }
}

proof fn slot_from(
    layout: Seq<(Seq<char>, generics::MethodV)>,
    name: Seq<char>,
    at: nat,
)
    requires
        layout.len() <= usize::MAX,
        at <= layout.len(),
    ensures
        match instances::layout_slot(layout, name, at) {
            Some((i, owner)) => at <= i < layout.len() && layout[i as int].1.name == name
                && layout[i as int].0 == owner && forall|j: int|
                at <= j < i ==> (#[trigger] layout[j]).1.name != name,
            None => forall|j: int|
                at <= j < layout.len() ==> (#[trigger] layout[j]).1.name != name,
        },
    decreases layout.len() - at,
{
    if at < layout.len() {
        slot_from(layout, name, at + 1);
    }
}

/// The dictionaries are not too long to count.
pub open spec fn short_dictionaries(c: CheckerV) -> bool {
    let classes = c.reg.generics.typeclasses;
    forall|k: Seq<char>| #[trigger]
        classes.contains_key(k) ==> generics::dict_layout(classes, classes[k]).len() <= usize::MAX
}

/// The operator that is recorded for a variable names a dictionary of the first
/// active constraint on it that serves for the operator's class, and in it the
/// slot of the operator's method.
pub proof fn operators_use_the_bound_dictionary(
    c: CheckerV,
    id: NodeId,
    range: Span,
    var: TyVarId,
    class: Seq<char>,
    method: Seq<char>,
)
    requires
        dictionaries::predicates(c.scope.active),
        c.scope.active.len() <= usize::MAX,
        short_dictionaries(c),
    ensures
        ({
            let d = c.record_bound_operator(Some(id), range, var, class, method);
            &&& d.messages == c.messages
            &&& d == c || exists|h: BoundOperatorCall, own: Seq<char>|
                {
                    &&& d.out.operator_calls == c.out.operator_calls.insert(id, h)
                    &&& d.out.operator_calls_by_span == c.out.operator_calls_by_span.insert(
                        range,
                        h,
                    )
                    &&& #[trigger] bound_at(c, h.dict_index as int, var, class, own)
                    &&& slot_of(c, own, method, h.method_slot as int)
                    &&& forall|j: int, other: Seq<char>|
                        0 <= j < h.dict_index ==> !#[trigger] bound_at(c, j, var, class, other)
                }
        }),
{
    bound_from(c, var, class, 0);
    let d = c.record_bound_operator(Some(id), range, var, class, method);
    if let Some((i, own)) = c.user_dict(var, class, 0) {
        let classes = c.reg.generics.typeclasses;
        if classes.contains_key(own) {
            slot_from(generics::dict_layout(classes, classes[own]), method, 0);
        }
        if let Some((index, slot)) = c.operator_slot(var, class, method) {
            let h = BoundOperatorCall { dict_index: index, method_slot: slot };
            assert(bound_at(c, h.dict_index as int, var, class, own));
            assert(slot_of(c, own, method, h.method_slot as int));
            assert(d.out.operator_calls == c.out.operator_calls.insert(id, h));
            assert(d.out.operator_calls_by_span == c.out.operator_calls_by_span.insert(range, h));
        }
    }
}

/// Where a constraint on the variable serves for the operator's class, and its
/// dictionary has the method, that very slot is recorded, under the node and its
/// place; without such a constraint nothing is.
pub proof fn bound_operators_are_recorded(
    c: CheckerV,
    id: NodeId,
    range: Span,
    var: TyVarId,
    class: Seq<char>,
    method: Seq<char>,
    i: int,
    own: Seq<char>,
    slot: int,
)
    requires
        dictionaries::predicates(c.scope.active),
        c.scope.active.len() <= usize::MAX,
        short_dictionaries(c),
    ensures
        ({
            let d = c.record_bound_operator(Some(id), range, var, class, method);
            let h = BoundOperatorCall { dict_index: i as usize, method_slot: slot as usize };
            &&& bound_at(c, i, var, class, own) && slot_of(c, own, method, slot) && (forall|
                j: int,
                other: Seq<char>,
            |
                0 <= j < i ==> !#[trigger] bound_at(c, j, var, class, other))
                ==> d.out.operator_calls == c.out.operator_calls.insert(id, h)
                && d.out.operator_calls_by_span == c.out.operator_calls_by_span.insert(range, h)
            &&& (forall|j: int, other: Seq<char>| !#[trigger] bound_at(c, j, var, class, other))
                ==> d == c
        }),
{
    bound_from(c, var, class, 0);
    match c.user_dict(var, class, 0) {
        Some((k, found)) => {
            let classes = c.reg.generics.typeclasses;
            if classes.contains_key(found) {
                slot_from(generics::dict_layout(classes, classes[found]), method, 0);
            }
            if bound_at(c, i, var, class, own) && (forall|j: int, other: Seq<char>|
                0 <= j < i ==> !#[trigger] bound_at(c, j, var, class, other)) {
                assert(bound_at(c, k as int, var, class, found));
                assert(k == i);
                let name = annotations::class_of(c.scope.active[i]);
                dictionaries::innermost_stands(c.scope.abstract_bindings, name, own);
                dictionaries::innermost_stands(c.scope.abstract_bindings, name, found);
            }
        },
        None => {
            if bound_at(c, i, var, class, own) {
                assert(0 <= i);
            }
        },
    }
}

/// A value that is printed through its `Show` bound uses the slot of `show` in
/// the dictionary of that bound.
pub proof fn printed_values_use_their_show_bound(c: CheckerV, range: Span, var: TyVarId)
    requires
        dictionaries::predicates(c.scope.active),
        c.scope.active.len() <= usize::MAX,
        short_dictionaries(c),
    ensures
        ({
            let d = c.record_bound_display(range, var);
            &&& d.messages == c.messages
            &&& d == c || exists|h: BoundDisplayCall, own: Seq<char>|
                {
                    &&& d.out.display_calls_by_span == c.out.display_calls_by_span.insert(range, h)
                    &&& #[trigger] bound_at(c, h.dict_index as int, var, "Show"@, own)
                    &&& slot_of(c, own, "show"@, h.method_slot as int)
                }
        }),
{
    bound_from(c, var, "Show"@, 0);
    let d = c.record_bound_display(range, var);
    if let Some((i, own)) = c.user_dict(var, "Show"@, 0) {
        let classes = c.reg.generics.typeclasses;
        if classes.contains_key(own) {
            slot_from(generics::dict_layout(classes, classes[own]), "show"@, 0);
        }
        if let Some((index, slot)) = c.operator_slot(var, "Show"@, "show"@) {
            let h = BoundDisplayCall { dict_index: index, method_slot: slot };
            assert(bound_at(c, h.dict_index as int, var, "Show"@, own));
            assert(slot_of(c, own, "show"@, h.method_slot as int));
            assert(d.out.display_calls_by_span == c.out.display_calls_by_span.insert(range, h));
        }
    }
}

/// A method that a bound offers: it is the one in its slot of its dictionary,
/// which belongs to an active constraint that touches the variable, with the
/// type that its class declares for it.
pub open spec fn offered(
    c: CheckerV,
    method: Seq<char>,
    var: Option<TyVarId>,
    b: BoundMethodV,
) -> bool {
    let classes = c.reg.generics.typeclasses;
    let i = b.dict_index as int;
    &&& i < c.scope.active.len()
    &&& var matches Some(v) ==> c.scope.active[i].kids().contains(Tree::Var(v))
    &&& slot_of(c, b.dict_class, method, b.method_slot as int)
    &&& generics::dict_layout(classes, classes[b.dict_class])[b.method_slot as int].0 == b.owner
    &&& c.reg.method_schemes.contains_key((b.owner, method))
    &&& b.scheme == c.reg.method_schemes[(b.owner, method)]
}

/// All of them are.
pub open spec fn all_offered(
    c: CheckerV,
    method: Seq<char>,
    var: Option<TyVarId>,
    bs: Seq<BoundMethodV>,
) -> bool {
    forall|k: int| 0 <= k < bs.len() ==> offered(c, method, var, #[trigger] bs[k])
}

proof fn class_offers(
    c: CheckerV,
    index: usize,
    classes: Seq<Seq<char>>,
    method: Seq<char>,
    var: Option<TyVarId>,
    at: nat,
    acc: Seq<BoundMethodV>,
)
    requires
        short_dictionaries(c),
        index < c.scope.active.len(),
        var matches Some(v) ==> c.scope.active[index as int].kids().contains(Tree::Var(v)),
        all_offered(c, method, var, acc),
    ensures
        all_offered(c, method, var, c.class_candidates(index, classes, method, at, acc)),
    decreases classes.len() - at,
{
    if at < classes.len() {
        let class = classes[at as int];
        let known = c.reg.generics.typeclasses;
        if known.contains_key(class) {
            slot_from(generics::dict_layout(known, known[class]), method, 0);
        }
        let next = match instances::dict_slot(c.reg.generics, class, method) {
            Some((slot, owner)) => if c.reg.method_schemes.contains_key((owner, method)) {
                acc.push(
                    BoundMethodV {
                        dict_index: index,
                        dict_class: class,
                        owner,
                        method_slot: slot,
                        scheme: c.reg.method_schemes[(owner, method)],
                    },
                )
            } else {
                acc
            },
            None => acc,
        };
        assert(all_offered(c, method, var, next));
        class_offers(c, index, classes, method, var, at + 1, next);
    }
}

proof fn bounds_offer(
    c: CheckerV,
    method: Seq<char>,
    var: Option<TyVarId>,
    at: nat,
    acc: Seq<BoundMethodV>,
)
    requires
        short_dictionaries(c),
        c.scope.active.len() <= usize::MAX,
        all_offered(c, method, var, acc),
    ensures
        all_offered(c, method, var, c.bound_method_candidates(method, var, at, acc)),
    decreases c.scope.active.len() - at,
{
    if at < c.scope.active.len() {
        let a = c.scope.active[at as int];
        if CheckerV::touches(a, var) {
            class_offers(
                c,
                at as usize,
                c.possible_classes_for_constraint_method(a, method),
                method,
                var,
                0,
                acc,
            );
            bounds_offer(
                c,
                method,
                var,
                at + 1,
                c.class_candidates(
                    at as usize,
                    c.possible_classes_for_constraint_method(a, method),
                    method,
                    0,
                    acc,
                ),
            );
        } else {
            bounds_offer(c, method, var, at + 1, acc);
        }
    }
}

/// Every method that is found through the bounds of a variable is offered by one
/// of them.
pub proof fn bound_methods_are_offered(c: CheckerV, method: Seq<char>, var: Option<TyVarId>)
    requires
        short_dictionaries(c),
        c.scope.active.len() <= usize::MAX,
    ensures
        all_offered(c, method, var, c.bound_method_candidates(method, var, 0, Seq::empty())),
{
    bounds_offer(c, method, var, 0, Seq::empty());
}

/// One offer is taken; none is no method; several are ambiguous, and told.
pub proof fn only_single_offers_are_taken(
    c: CheckerV,
    offers: Seq<BoundMethodV>,
    method: Seq<char>,
    range: Span,
)
    ensures
        offers.len() == 0 ==> c.select_bound_method(offers, method, range) == (
            c,
            None::<BoundMethodV>,
        ),
        offers.len() == 1 ==> c.select_bound_method(offers, method, range) == (
            c,
            Some(offers[0]),
        ),
        offers.len() > 1 ==> typing::complained(
            c,
            c.select_bound_method(offers, method, range).0,
            range,
        ) && c.select_bound_method(offers, method, range).1 is None,
{
}

/// A method of a packed value is the one of that name in the dictionary of its
/// class, with the type that the class which declares it has for it.
pub proof fn packed_methods_are_those_of_the_class(
    c: CheckerV,
    class: Seq<char>,
    method: Seq<char>,
)
    requires
        short_dictionaries(c),
    ensures
        match c.existential_method_candidate(class, method) {
            Some((owner, slot, scheme)) => {
                &&& slot_of(c, class, method, slot as int)
                &&& generics::dict_layout(
                    c.reg.generics.typeclasses,
                    c.reg.generics.typeclasses[class],
                )[slot as int].0 == owner
                &&& c.reg.method_schemes.contains_key((owner, method))
                &&& scheme == c.reg.method_schemes[(owner, method)]
            },
            None => forall|slot: int|
                #[trigger] slot_of(c, class, method, slot) ==> !c.reg.method_schemes.contains_key(
                    (
                        generics::dict_layout(
                            c.reg.generics.typeclasses,
                            c.reg.generics.typeclasses[class],
                        )[slot].0,
                        method,
                    ),
                ),
        },
{
    let classes = c.reg.generics.typeclasses;
    if classes.contains_key(class) {
        let layout = generics::dict_layout(classes, classes[class]);
        slot_from(layout, method, 0);
        if let Some((k, owner)) = instances::layout_slot(layout, method, 0) {
            assert forall|slot: int| #[trigger] slot_of(c, class, method, slot) implies slot
                == k by {
                if slot < k {
                    assert(layout[slot].1.name != method);
                } else if k < slot {
                    assert(layout[k as int].1.name == method);
                }
            }
        }
    }
}

} // verus!
