//! Which dictionary answers for a constraint.
use crate::generics::{self, ClassV, InstV};
use crate::id::NodeId;
use crate::infer::{annotations, instances, kinds};
use crate::infer::CheckerV;
use crate::report::Span;
use crate::tree::{Head, Tree};
use crate::soundness;
use vstd::prelude::*;

verus! {

/// The class that a constraint name stands for: the one that the innermost frame
/// which speaks of the name has for it, and the name itself where none does.
pub open spec fn stands_for(
    frames: Seq<Map<Seq<char>, Seq<char>>>,
    name: Seq<char>,
    class: Seq<char>,
) -> bool {
    ||| class == name && forall|j: int|
        0 <= j < frames.len() ==> !(#[trigger] frames[j]).contains_key(name)
    ||| exists|i: int|
        #![trigger frames[i]]
        0 <= i < frames.len() && frames[i].contains_key(name) && frames[i][name] == class
            && forall|j: int| i < j < frames.len() ==> !(#[trigger] frames[j]).contains_key(name)
}

/// A dictionary of `class` serves for `wanted`: it is the class itself, or has it
/// among its superclasses, at any distance.
pub open spec fn serves(
    classes: Map<Seq<char>, ClassV>,
    class: Seq<char>,
    wanted: Seq<char>,
) -> bool {
    class == wanted || (classes.contains_key(class) && generics::is_above(
        classes,
        classes[class].superclasses,
        wanted,
    ))
}

/// Two lists of types are the same, as far as the checker has solved them.
pub open spec fn same_types(c: CheckerV, a: Seq<Tree>, b: Seq<Tree>) -> bool {
    &&& a.len() == b.len()
    &&& forall|k: int|
        #![trigger a[k]]
        #![trigger b[k]]
        0 <= k < a.len() ==> a[k].subst(c.subst) == b[k].subst(c.subst)
}

/// The active constraint at place `i` is one of `class` on `args`.
pub open spec fn exactly_at(c: CheckerV, i: int, class: Seq<char>, args: Seq<Tree>) -> bool {
    &&& 0 <= i < c.scope.active.len()
    &&& c.scope.active[i] matches Tree::Node(Head::Pred(name), own) && same_types(c, own, args)
        && stands_for(c.scope.abstract_bindings, name, class)
}

/// The active constraint at place `i` covers one of `class` on `args`: the same
/// types, and a class that serves for it.
pub open spec fn covered_at(c: CheckerV, i: int, class: Seq<char>, args: Seq<Tree>) -> bool {
    &&& 0 <= i < c.scope.active.len()
    &&& c.scope.active[i] matches Tree::Node(Head::Pred(name), own) && same_types(c, own, args)
        && exists|own_class: Seq<char>| #[trigger]
        stands_for(c.scope.abstract_bindings, name, own_class) && serves(
            c.reg.generics.typeclasses,
            own_class,
            class,
        )
}

/// The active constraints are predicates.
pub open spec fn predicates(active: Seq<Tree>) -> bool {
    forall|i: int|
        0 <= i < active.len() ==> (#[trigger] active[i]) is Node && active[i].head() is Pred
}

/// One more entry in the list under `key`, and nothing else.
pub open spec fn one_more<K, T>(
    before: Map<K, Seq<T>>,
    after: Map<K, Seq<T>>,
    key: K,
    x: T,
) -> bool {
    &&& after.contains_key(key)
    &&& before.contains_key(key) ==> after[key] == before[key].push(x)
    &&& !before.contains_key(key) ==> after[key] == seq![x]
    &&& forall|k: K|
        k != key ==> (#[trigger] after.contains_key(k) <==> before.contains_key(k)) && (
        before.contains_key(k) ==> after[k] == before[k])
}

pub(crate) proof fn innermost_stands(
    frames: Seq<Map<Seq<char>, Seq<char>>>,
    name: Seq<char>,
    class: Seq<char>,
)
    ensures
        stands_for(frames, name, class) <==> class == (match kinds::innermost(frames, name) {
            Some(bound) => bound,
            None => name,
        }),
        kinds::innermost(frames, name) is None <==> forall|j: int|
            0 <= j < frames.len() ==> !(#[trigger] frames[j]).contains_key(name),
    decreases frames.len(),
{
    if frames.len() > 0 {
        let outer = frames.drop_last();
        innermost_stands(outer, name, class);
        let n = frames.len() - 1;
        assert(frames[n] == frames.last());
        if !frames.last().contains_key(name) {
            assert forall|j: int| 0 <= j < n implies #[trigger] frames[j] == outer[j] by {}
            if stands_for(outer, name, class) {
                if exists|i: int|
                    #![trigger outer[i]]
                    0 <= i < outer.len() && outer[i].contains_key(name) && outer[i][name] == class
                        && forall|j: int|
                        i < j < outer.len() ==> !(#[trigger] outer[j]).contains_key(name) {
                    let i = choose|i: int|
                        #![trigger outer[i]]
                        0 <= i < outer.len() && outer[i].contains_key(name) && outer[i][name]
                            == class && forall|j: int|
                            i < j < outer.len() ==> !(#[trigger] outer[j]).contains_key(name);
                    assert(frames[i] == outer[i]);
                    assert(forall|j: int|
                        i < j < frames.len() ==> !(#[trigger] frames[j]).contains_key(name)) by {
                        assert forall|j: int| i < j < frames.len() implies !(
                        #[trigger] frames[j]).contains_key(name) by {
                            if j < n {
                                assert(frames[j] == outer[j]);
                            }
                        }
                    }
                    assert(stands_for(frames, name, class));
                } else {
                    assert forall|j: int| 0 <= j < frames.len() implies !(
                    #[trigger] frames[j]).contains_key(name) by {
                        if j < n {
                            assert(frames[j] == outer[j]);
                        }
                    }
                }
            }
            if stands_for(frames, name, class) {
                assert forall|j: int| 0 <= j < outer.len() implies #[trigger] outer[j]
                    == frames[j] by {}
                assert(stands_for(outer, name, class));
            }
            if forall|j: int| 0 <= j < outer.len() ==> !(#[trigger] outer[j]).contains_key(name) {
                assert forall|j: int| 0 <= j < frames.len() implies !(
                #[trigger] frames[j]).contains_key(name) by {
                    if j < n {
                        assert(frames[j] == outer[j]);
                    }
                }
            }
            if forall|j: int| 0 <= j < frames.len() ==> !(#[trigger] frames[j]).contains_key(name) {
                assert forall|j: int| 0 <= j < outer.len() implies !(
                #[trigger] outer[j]).contains_key(name) by {
                    assert(frames[j] == outer[j]);
                }
            }
        } else {
            if stands_for(frames, name, class) {
                assert(class == frames[n][name]);
            }
        }
    }
}

/// Resolving what is resolved.
proof fn resolved_once(c: CheckerV, own: Seq<Tree>, args: Seq<Tree>)
    requires
        soundness::settled(c.subst),
    ensures
        c.resolve_all(own) == c.resolve_all(c.resolve_all(args)) <==> same_types(c, own, args),
{
    let x = c.resolve_all(own);
    let once = c.resolve_all(args);
    let twice = c.resolve_all(once);
    assert forall|k: int| 0 <= k < args.len() implies #[trigger] twice[k] == args[k].subst(
        c.subst,
    ) by {
        soundness::resolving_is_final(args[k], c.subst);
        assert(once[k] == args[k].subst(c.subst));
    }
    assert forall|k: int| 0 <= k < own.len() implies #[trigger] x[k] == own[k].subst(c.subst) by {}
    assert(x.len() == own.len());
    assert(twice.len() == args.len());
    if x == twice {
        assert forall|k: int| 0 <= k < own.len() implies #[trigger] own[k].subst(c.subst)
            == args[k].subst(c.subst) by {
            assert(x[k] == twice[k]);
        }
        assert(same_types(c, own, args));
    }
    if same_types(c, own, args) {
        assert forall|k: int| 0 <= k < own.len() implies x[k] == twice[k] by {
            assert(own[k].subst(c.subst) == args[k].subst(c.subst));
        }
        assert(x =~= twice);
    }
}

/// What covers, and what is meant exactly, at one place.
proof fn covering_place(c: CheckerV, i: int, class: Seq<char>, args: Seq<Tree>)
    requires
        soundness::settled(c.subst),
        predicates(c.scope.active),
        0 <= i < c.scope.active.len(),
    ensures
        ({
            let needed = Tree::pred(class, c.resolve_all(args));
            let a = c.scope.active[i];
            &&& c.covers(a, needed) <==> covered_at(c, i, class, args)
            &&& (c.same_args(a, needed) && c.concrete_class(
                annotations::class_of(a),
            ) == class) <==> exactly_at(c, i, class, args)
        }),
{
    let a = c.scope.active[i];
    let name = annotations::class_of(a);
    resolved_once(c, a.kids(), args);
    innermost_stands(c.scope.abstract_bindings, name, c.concrete_class(name));
    innermost_stands(c.scope.abstract_bindings, name, class);
    assert forall|own: Seq<char>| #[trigger]
        stands_for(c.scope.abstract_bindings, name, own) implies own == c.concrete_class(name) by {
        innermost_stands(c.scope.abstract_bindings, name, own);
    }
}

proof fn first_exact(c: CheckerV, class: Seq<char>, args: Seq<Tree>, at: nat)
    requires
        soundness::settled(c.subst),
        predicates(c.scope.active),
        c.scope.active.len() <= usize::MAX,
    ensures
        match c.exact_dict(Tree::pred(class, c.resolve_all(args)), at) {
            Some(i) => at <= i && exactly_at(c, i as int, class, args),
            None => forall|i: int| at <= i ==> !#[trigger] exactly_at(c, i, class, args),
        },
    decreases c.scope.active.len() - at,
{
    if at < c.scope.active.len() {
        covering_place(c, at as int, class, args);
        first_exact(c, class, args, at + 1);
    }
}

proof fn first_covering(c: CheckerV, class: Seq<char>, args: Seq<Tree>, at: nat)
    requires
        soundness::settled(c.subst),
        predicates(c.scope.active),
        c.scope.active.len() <= usize::MAX,
    ensures
        match c.covering_dict(Tree::pred(class, c.resolve_all(args)), at) {
            Some(i) => at <= i && covered_at(c, i as int, class, args),
            None => forall|i: int| at <= i ==> !#[trigger] covered_at(c, i, class, args),
        },
    decreases c.scope.active.len() - at,
{
    if at < c.scope.active.len() {
        covering_place(c, at as int, class, args);
        first_covering(c, class, args, at + 1);
    }
}

/// Pinning associated types fills no table.
pub(crate) proof fn pinning_keeps_tables(
    c: CheckerV,
    def: ClassV,
    inst: InstV,
    range: Span,
    at: nat,
)
    ensures
        c.pin_open(def, inst, range, at).out == c.out,
    decreases c.scope.open_projections.len() - at,
{
    if at < c.scope.open_projections.len() {
        let p = c.scope.open_projections[at as int];
        let d = c.unify(
            Tree::Var(p.var),
            c.instantiate_assoc_value(inst.assoc_tys[p.name], p.args),
            range,
            "associated type `"@ + p.name + "`"@,
        ).0;
        assert(d.scope == c.scope && d.out == c.out);
        pinning_keeps_tables(d, def, inst, range, at + 1);
        pinning_keeps_tables(c, def, inst, range, at + 1);
    }
}

/// One of the arguments is a type that is still open.
pub open spec fn still_open(c: CheckerV, args: Seq<Tree>) -> bool {
    exists|k: int| 0 <= k < args.len() && (#[trigger] args[k].subst(c.subst)) is Var
}

/// A dictionary that is handed on covers what is needed: where a constraint on a
/// type that is still open is discharged by an active one, the entry that the
/// call gets is the place of an active constraint on the same types, of the
/// needed class or of one below it. One of the very class comes first. No message
/// is added. Where no active constraint covers it, or no type is open, no
/// dictionary is handed on.
pub proof fn handed_on_dictionaries_cover(
    c: CheckerV,
    call: NodeId,
    class: Seq<char>,
    args: Seq<Tree>,
    range: Span,
)
    requires
        soundness::settled(c.subst),
        predicates(c.scope.active),
        c.scope.active.len() <= usize::MAX,
    ensures
        ({
            let d = c.discharge_constraint(Some(call), Tree::Node(Head::Pred(class), args), range);
            let covered = exists|i: int| #[trigger] covered_at(c, i, class, args);
            &&& still_open(c, args) && covered ==> d.messages == c.messages && exists|i: usize|
                {
                    &&& #[trigger] covered_at(c, i as int, class, args)
                    &&& (exists|j: int| #[trigger] exactly_at(c, j, class, args)) ==> exactly_at(
                        c,
                        i as int,
                        class,
                        args,
                    )
                    &&& one_more(c.out.forward_dicts, d.out.forward_dicts, call, i)
                    &&& one_more(
                        c.out.forward_dicts_by_span,
                        d.out.forward_dicts_by_span,
                        range,
                        i,
                    )
                    &&& d.out.call_dicts == c.out.call_dicts
                }
            &&& !(still_open(c, args) && covered) ==> d.out.forward_dicts == c.out.forward_dicts
                && d.out.forward_dicts_by_span == c.out.forward_dicts_by_span
        }),
{
    let k = Tree::Node(Head::Pred(class), args);
    let d = c.discharge_constraint(Some(call), k, range);
    let resolved = c.resolve_all(args);
    let needed = Tree::pred(class, resolved);
    assert(instances::any_open(resolved) <==> still_open(c, args)) by {
        assert forall|i: int| 0 <= i < args.len() implies #[trigger] resolved[i] == args[i].subst(
            c.subst,
        ) by {}
        if still_open(c, args) {
            let i = choose|i: int| 0 <= i < args.len() && (#[trigger] args[i].subst(c.subst)) is Var;
            assert(resolved[i] is Var);
        }
    }
    assert(c.constraint_is_covered(needed) <==> exists|i: int| #[trigger]
        covered_at(c, i, class, args)) by {
        assert forall|i: int| 0 <= i < c.scope.active.len() implies (c.covers(
            #[trigger] c.scope.active[i],
            needed,
        ) <==> covered_at(c, i, class, args)) by {
            covering_place(c, i, class, args);
        }
        if exists|i: int| #[trigger] covered_at(c, i, class, args) {
            let i = choose|i: int| #[trigger] covered_at(c, i, class, args);
            assert(c.covers(c.scope.active[i], needed));
        }
        if c.constraint_is_covered(needed) {
            let i = choose|i: int|
                0 <= i < c.scope.active.len() && c.covers(#[trigger] c.scope.active[i], needed);
            assert(covered_at(c, i, class, args));
        }
    }
    first_exact(c, class, args, 0);
    first_covering(c, class, args, 0);
    if instances::any_open(resolved) && c.constraint_is_covered(needed) {
        let i = c.dict_index_for(needed).unwrap();
        if c.exact_dict(needed, 0) is Some {
            covering_place(c, i as int, class, args);
            assert(covered_at(c, i as int, class, args));
        } else {
            assert forall|j: int| !#[trigger] exactly_at(c, j, class, args) by {
                if exactly_at(c, j, class, args) {
                    assert(0 <= j);
                }
            }
            let j = choose|j: int| #[trigger] covered_at(c, j, class, args);
            assert(0 <= j && covered_at(c, j, class, args));
        }
        assert(one_more(c.out.forward_dicts, d.out.forward_dicts, call, i));
        assert(one_more(c.out.forward_dicts_by_span, d.out.forward_dicts_by_span, range, i));
    } else {
        match c.find_unique_instance(class, resolved, range) {
            (e, Ok(Some(inst))) => {
                let f = e.record_call_site_dict(Some(call), range, inst);
                if f.reg.generics.typeclasses.contains_key(class) {
                    pinning_keeps_tables(
                        f,
                        f.reg.generics.typeclasses[class],
                        inst,
                        range,
                        0,
                    );
                }
            },
            _ => {},
        }
    }
}

} // verus!
