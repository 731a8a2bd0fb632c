//! What unification promises: the types that it solves for agree under the
//! substitution that it gives.
use crate::tree::{self, ArrayLength, Head, Tree};
use crate::ty::{Constraint, EnumVariantPayloadTy, Ty, TyVarId};
use crate::{subst, unify};
use vstd::prelude::*;

verus! {

/// The form of a type up to which unification works: a constructor refinement
/// stands for the enum that owns it, an enum for its nominal form, and an array
/// for the array of open length.
pub open spec fn canon(t: Tree) -> Tree
    decreases t,
{
    match t {
        Tree::Var(_) => t,
        Tree::Node(head, kids) => match head {
            Head::Sum(name, _) => if name == "Option"@ && kids.len() == 2 && kids[1].kids().len()
                == 1 {
                Tree::app(Tree::con(name), seq![canon(kids[1].kids()[0])])
            } else if name == "Result"@ && kids.len() == 2 && kids[0].kids().len() == 1
                && kids[1].kids().len() == 1 {
                Tree::app(
                    Tree::con(name),
                    seq![canon(kids[0].kids()[0]), canon(kids[1].kids()[0])],
                )
            } else {
                Tree::con(name)
            },
            Head::Constructor(_, _) => if kids.len() == 1 {
                canon(kids[0])
            } else {
                Tree::Node(head, canon_list(kids))
            },
            Head::Array(_) => Tree::Node(Head::Array(ArrayLength::Dynamic), canon_list(kids)),
            _ => Tree::Node(head, canon_list(kids)),
        },
    }
}

/// The forms of a list of types.
pub open spec fn canon_list(trees: Seq<Tree>) -> Seq<Tree>
    decreases trees,
{
    Seq::new(
        trees.len(),
        |i: int|
            if 0 <= i < trees.len() {
                canon(trees[i])
            } else {
                arbitrary()
            },
    )
}

/// A type as the checker builds it: what stands directly under an enum are
/// payloads, no variables.
pub open spec fn formed(t: Tree) -> bool
    decreases t,
{
    match t {
        Tree::Var(_) => true,
        Tree::Node(head, kids) => {
            &&& head is Sum ==> forall|i: int| 0 <= i < kids.len() ==> (#[trigger] kids[i]) is Node
            &&& forall|i: int| 0 <= i < kids.len() ==> formed(#[trigger] kids[i])
        },
    }
}

/// A list of such types.
pub open spec fn all_formed(trees: Seq<Tree>) -> bool {
    forall|i: int| 0 <= i < trees.len() ==> formed(#[trigger] trees[i])
}

/// A substitution by such types.
pub open spec fn formed_range(s: Map<TyVarId, Tree>) -> bool {
    forall|v: TyVarId| #[trigger] s.contains_key(v) ==> formed(s[v])
}

/// Two types agree under a substitution.
pub open spec fn agree(a: Tree, b: Tree, s: Map<TyVarId, Tree>) -> bool {
    canon(a.subst(s)) == canon(b.subst(s))
}

/// Two lists of types agree pairwise under a substitution.
pub open spec fn all_agree(ls: Seq<Tree>, rs: Seq<Tree>, s: Map<TyVarId, Tree>) -> bool {
    &&& ls.len() == rs.len()
    &&& forall|i: int| 0 <= i < ls.len() ==> agree(#[trigger] ls[i], rs[i], s)
}

/// The parts of a node under a substitution.
proof fn subst_node(head: Head, kids: Seq<Tree>, s: Map<TyVarId, Tree>)
    ensures
        Tree::Node(head, kids).subst(s) == Tree::Node(head, subst::subst_all(kids, s)),
        subst::subst_all(kids, s).len() == kids.len(),
        forall|i: int|
            0 <= i < kids.len() ==> (#[trigger] subst::subst_all(kids, s)[i]) == kids[i].subst(s),
{
    tree::rewrite_node(head, kids, s, Map::empty());
}

/// One substitution after another is their composition.
pub proof fn substitutions_compose(t: Tree, second: Map<TyVarId, Tree>, first: Map<TyVarId, Tree>)
    ensures
        t.subst(subst::composed(second, first)) == t.subst(first).subst(second),
    decreases t,
{
    let both = subst::composed(second, first);
    match t {
        Tree::Var(v) => {},
        Tree::Node(head, kids) => {
            subst_node(head, kids, both);
            subst_node(head, kids, first);
            let inner = subst::subst_all(kids, first);
            subst_node(head, inner, second);
            assert forall|i: int| 0 <= i < kids.len() implies (#[trigger] subst::subst_all(
                kids,
                both,
            )[i]) == subst::subst_all(inner, second)[i] by {
                substitutions_compose(kids[i], second, first);
            }
            assert(subst::subst_all(kids, both) =~= subst::subst_all(inner, second));
        },
    }
}

/// A substitution leaves a type without its variables as it is.
pub proof fn strangers_stay(t: Tree, s: Map<TyVarId, Tree>)
    requires
        forall|v: TyVarId| #[trigger] t.vars().contains(v) ==> !s.contains_key(v),
    ensures
        t.subst(s) == t,
    decreases t,
{
    match t {
        Tree::Var(v) => {
            assert(t.vars()[0] == v);
            assert(t.vars().contains(v));
        },
        Tree::Node(head, kids) => {
            subst_node(head, kids, s);
            assert forall|i: int| 0 <= i < kids.len() implies (#[trigger] subst::subst_all(
                kids,
                s,
            )[i]) == kids[i] by {
                assert forall|v: TyVarId| #[trigger]
                    kids[i].vars().contains(v) implies !s.contains_key(v) by {
                    unify::vars_of_member(kids, v);
                    assert(t.vars().contains(v));
                }
                strangers_stay(kids[i], s);
            }
            assert(subst::subst_all(kids, s) =~= kids);
        },
    }
}

/// A substitution by well formed types keeps a type well formed.
proof fn formed_subst(t: Tree, s: Map<TyVarId, Tree>)
    requires
        formed(t),
        formed_range(s),
    ensures
        formed(t.subst(s)),
    decreases t,
{
    match t {
        Tree::Var(_) => {},
        Tree::Node(head, kids) => {
            subst_node(head, kids, s);
            let all = subst::subst_all(kids, s);
            assert forall|i: int| 0 <= i < all.len() implies formed(#[trigger] all[i]) && (head is Sum
                ==> all[i] is Node) by {
                assert(formed(kids[i]));
                formed_subst(kids[i], s);
                if head is Sum {
                    assert(kids[i] is Node);
                    payload_kids(kids[i], s);
                }
            }
        },
    }
}

/// The lists under a substitution.
proof fn formed_lists(trees: Seq<Tree>, s: Map<TyVarId, Tree>)
    requires
        all_formed(trees),
        formed_range(s),
    ensures
        all_formed(subst::subst_all(trees, s)),
{
    subst_node(Head::Tuple, trees, s);
    assert forall|i: int| 0 <= i < trees.len() implies formed(
        #[trigger] subst::subst_all(trees, s)[i],
    ) by {
        assert(formed(trees[i]));
        formed_subst(trees[i], s);
    }
}

/// The types in the payloads of a list.
proof fn formed_flat(trees: Seq<Tree>)
    requires
        all_formed(trees),
    ensures
        all_formed(unify::flat(trees)),
    decreases trees.len(),
{
    if trees.len() > 0 {
        let init = trees.drop_last();
        assert forall|i: int| 0 <= i < init.len() implies formed(#[trigger] init[i]) by {
            assert(formed(trees[i]));
        }
        formed_flat(init);
        assert(formed(trees[trees.len() - 1]));
    }
}

/// The form of a substituted node, for the heads whose form is built part by
/// part.
proof fn plain_agree(h: Head, g: Head, x: Seq<Tree>, y: Seq<Tree>, s: Map<TyVarId, Tree>)
    requires
        unify::heads_agree(h, g),
        !(h is Sum),
        all_agree(x, y, s),
    ensures
        agree(Tree::Node(h, x), Tree::Node(g, y), s),
{
    subst_node(h, x, s);
    subst_node(g, y, s);
    let xs = subst::subst_all(x, s);
    let ys = subst::subst_all(y, s);
    assert forall|i: int| 0 <= i < x.len() implies canon(#[trigger] xs[i]) == canon(ys[i]) by {
        assert(agree(x[i], y[i], s));
    }
    assert(canon_list(xs) =~= canon_list(ys));
}

/// The payloads of two enums agree when the lists of all their types do.
proof fn flat_agree(a: Seq<Tree>, b: Seq<Tree>, s: Map<TyVarId, Tree>)
    requires
        unify::payloads_match(a, b),
    ensures
        unify::flat(a).len() == unify::flat(b).len(),
        all_agree(unify::flat(a), unify::flat(b), s) ==> forall|i: int|
            0 <= i < a.len() ==> all_agree((#[trigger] a[i]).kids(), b[i].kids(), s),
    decreases a.len(),
{
    if a.len() > 0 {
        let x = a.drop_last();
        let y = b.drop_last();
        assert forall|i: int| 0 <= i < x.len() implies (#[trigger] x[i]).head() == y[i].head()
            && x[i].kids().len() == y[i].kids().len() by {
            assert(a[i].head() == b[i].head());
        }
        flat_agree(x, y, s);
        let n = unify::flat(x).len() as int;
        let fa = unify::flat(a);
        let fb = unify::flat(b);
        assert(a[a.len() - 1].kids().len() == b[a.len() - 1].kids().len());
        if all_agree(fa, fb, s) {
            assert forall|i: int| 0 <= i < n implies agree(
                #[trigger] unify::flat(x)[i],
                unify::flat(y)[i],
                s,
            ) by {
                assert(agree(fa[i], fb[i], s));
            }
            assert forall|i: int| 0 <= i < a.len() implies all_agree(
                (#[trigger] a[i]).kids(),
                b[i].kids(),
                s,
            ) by {
                if i < a.len() - 1 {
                    assert(x[i] == a[i]);
                } else {
                    assert forall|j: int| 0 <= j < a[i].kids().len() implies agree(
                        #[trigger] a[i].kids()[j],
                        b[i].kids()[j],
                        s,
                    ) by {
                        assert(agree(fa[n + j], fb[n + j], s));
                    }
                }
            }
        }
    }
}

/// The types of a substituted payload.
proof fn payload_kids(t: Tree, s: Map<TyVarId, Tree>)
    requires
        t is Node,
    ensures
        t.subst(s) is Node,
        t.subst(s).head() == t.head(),
        t.subst(s).kids() == subst::subst_all(t.kids(), s),
{
    subst_node(t.head(), t.kids(), s);
}

/// Types of one shape agree when their parts do.
proof fn shapes_agree(a: Tree, b: Tree, s: Map<TyVarId, Tree>)
    requires
        unify::same_shape(a, b),
        all_agree(unify::parts(a), unify::parts(b), s),
        formed(a),
        formed(b),
    ensures
        agree(a, b, s),
{
    let x = a.kids();
    let y = b.kids();
    match a.head() {
        Head::Sum(name, _) => {
            flat_agree(x, y, s);
            subst_node(a.head(), x, s);
            subst_node(b.head(), y, s);
            if x.len() == 2 {
                assert(all_agree(x[0].kids(), y[0].kids(), s));
                assert(all_agree(x[1].kids(), y[1].kids(), s));
                payload_kids(x[0], s);
                payload_kids(x[1], s);
                payload_kids(y[0], s);
                payload_kids(y[1], s);
                if x[1].kids().len() == 1 {
                    assert(agree(x[1].kids()[0], y[1].kids()[0], s));
                }
                if x[0].kids().len() == 1 {
                    assert(agree(x[0].kids()[0], y[0].kids()[0], s));
                }
            }
        },
        Head::Forall(_) => {
            assert forall|i: int| 0 <= i < x.len() implies agree(#[trigger] x[i], y[i], s) by {
                if i < x.len() - 1 {
                    assert(x.drop_last()[i] == y.drop_last()[i]);
                } else {
                    assert(agree(unify::parts(a)[0], unify::parts(b)[0], s));
                }
            }
            plain_agree(a.head(), b.head(), x, y, s);
        },
        _ => {
            plain_agree(a.head(), b.head(), x, y, s);
        },
    }
}

/// A type agrees with what agrees with its nominal form.
proof fn nominal_form(t: Tree, s: Map<TyVarId, Tree>)
    requires
        t is Node,
        formed(t),
    ensures
        canon(unify::nominal(t).subst(s)) == canon(t.subst(s)),
{
    if t.head() is Sum {
        let name = t.head()->Sum_0;
        let k = t.kids();
        subst_node(t.head(), k, s);
        let n = unify::nominal(t);
        subst_node(n.head(), n.kids(), s);
        subst_node(Head::Con(name), Seq::empty(), s);
        let c = Tree::con(name);
        assert(subst::subst_all(Seq::<Tree>::empty(), s) =~= Seq::<Tree>::empty());
        assert(c.subst(s) == c);
        assert(canon_list(Seq::<Tree>::empty()) =~= Seq::<Tree>::empty());
        assert(canon(c) == c);
        if k.len() == 2 {
            payload_kids(k[0], s);
            payload_kids(k[1], s);
        }
        if n.head() is App {
            let all = subst::subst_all(n.kids(), s);
            assert(canon(n.subst(s)).kids() =~= canon_list(all));
            assert(n.kids()[0] == c);
            assert(canon(all[0]) == c);
            if name == "Option"@ {
                assert(n.kids()[1] == k[1].kids()[0]);
                assert(canon_list(all) =~= seq![c, canon(k[1].kids()[0].subst(s))]);
                assert(canon(t.subst(s)).kids() =~= seq![c, canon(k[1].kids()[0].subst(s))]);
            } else {
                assert(n.kids()[1] == k[0].kids()[0]);
                assert(n.kids()[2] == k[1].kids()[0]);
                assert(canon_list(all) =~= canon(t.subst(s)).kids());
            }
        } else {
            assert(n == c);
        }
    }
}

/// The lists that a step leaves pair up, and are well formed.
proof fn split_lists(a: Tree, b: Tree)
    requires
        formed(a),
        formed(b),
    ensures
        unify::step(a, b) matches unify::Step::Split(x, y) ==> x.len() == y.len() && all_formed(x)
            && all_formed(y),
        unify::step(a, b) matches unify::Step::Bind(_, t) ==> formed(t),
{
    if unify::same_shape(a, b) {
        if a.head() is Sum {
            flat_agree(a.kids(), b.kids(), Map::empty());
            formed_flat(a.kids());
            formed_flat(b.kids());
        } else if a.head() is Forall {
            assert(formed(a.kids()[a.kids().len() - 1]));
            assert(formed(b.kids()[b.kids().len() - 1]));
        }
    }
    formed_nominal(a);
    formed_nominal(b);
}

proof fn formed_nominal(t: Tree)
    requires
        formed(t),
    ensures
        formed(unify::nominal(t)),
{
    if t is Node && t.head() is Sum {
        let name = t.head()->Sum_0;
        let k = t.kids();
        assert(formed(Tree::con(name)));
        if k.len() == 2 {
            assert(formed(k[0]));
            assert(formed(k[1]));
            if k[1].kids().len() == 1 {
                assert(formed(k[1].kids()[0]));
            }
            if k[0].kids().len() == 1 {
                assert(formed(k[0].kids()[0]));
            }
        }
    }
}

/// A pair agrees when what its step splits it into does.
proof fn split_agrees(a: Tree, b: Tree, s: Map<TyVarId, Tree>)
    requires
        formed(a),
        formed(b),
        unify::step(a, b) matches unify::Step::Split(x, y) && all_agree(x, y, s),
    ensures
        agree(a, b, s),
{
    if unify::same_shape(a, b) {
        shapes_agree(a, b, s);
    } else if a.head() is Constructor && a.kids().len() == 1 {
        subst_node(a.head(), a.kids(), s);
        assert(agree(a.kids()[0], b, s));
    } else if b.head() is Constructor && b.kids().len() == 1 {
        subst_node(b.head(), b.kids(), s);
        assert(agree(seq![a][0], b.kids()[0], s));
    } else {
        let x = unify::nominal(a);
        let y = unify::nominal(b);
        nominal_form(a, s);
        nominal_form(b, s);
        formed_nominal(a);
        formed_nominal(b);
        shapes_agree(x, y, s);
    }
}

/// What is solved pair by pair agrees pair by pair.
proof fn solved_lists_agree(ls: Seq<Tree>, rs: Seq<Tree>)
    requires
        ls.len() == rs.len(),
        all_formed(ls),
        all_formed(rs),
        unify::solution(ls, rs) is Ok,
    ensures
        all_agree(ls, rs, unify::solution(ls, rs)->Ok_0),
        formed_range(unify::solution(ls, rs)->Ok_0),
    decreases unify::open_vars(ls, rs).len(), Tree::size_of(ls) + Tree::size_of(rs),
{
    if ls.len() > 0 {
        let s = unify::solution(ls, rs)->Ok_0;
        let l = ls.drop_last();
        let r = rs.drop_last();
        let a = ls.last();
        let b = rs.last();
        let n = ls.len() - 1;
        assert(formed(ls[n]) && formed(rs[n]));
        assert forall|i: int| 0 <= i < n implies formed(#[trigger] l[i]) && formed(r[i]) by {
            assert(formed(ls[i]) && formed(rs[i]));
        }
        unify::step_shrinks(ls, rs);
        split_lists(a, b);
        match unify::step(a, b) {
            unify::Step::Skip => {
                solved_lists_agree(l, r);
                pairs_extend(ls, rs, s);
            },
            unify::Step::Bind(v, t) => {
                let d = unify::binding(v, t);
                formed_lists(l, d);
                formed_lists(r, d);
                let x = subst::subst_all(l, d);
                let y = subst::subst_all(r, d);
                solved_lists_agree(x, y);
                let e = unify::solution(x, y)->Ok_0;
                assert(s == subst::composed(e, d));
                bound_pair_agrees(a, b, e);
                assert forall|i: int| 0 <= i < n implies agree(#[trigger] l[i], r[i], s) by {
                    substitutions_compose(l[i], e, d);
                    substitutions_compose(r[i], e, d);
                    assert(agree(x[i], y[i], e));
                }
                formed_subst(t, e);
                pairs_extend(ls, rs, s);
            },
            unify::Step::Split(x, y) => {
                let ll = l + x.reverse();
                let rr = r + y.reverse();
                assert forall|i: int| 0 <= i < ll.len() implies formed(#[trigger] ll[i]) && formed(
                    rr[i],
                ) by {
                    if i >= n {
                        assert(formed(x[x.len() - 1 - (i - n)]));
                        assert(formed(y[y.len() - 1 - (i - n)]));
                    }
                }
                solved_lists_agree(ll, rr);
                assert forall|i: int| 0 <= i < n implies agree(#[trigger] l[i], r[i], s) by {
                    assert(agree(ll[i], rr[i], s));
                }
                assert forall|j: int| 0 <= j < x.len() implies agree(#[trigger] x[j], y[j], s) by {
                    let i = n + (x.len() - 1 - j);
                    assert(agree(ll[i], rr[i], s));
                }
                split_agrees(a, b, s);
                pairs_extend(ls, rs, s);
            },
            unify::Step::Fail(_) => {},
        }
    }
}

/// One more pair.
proof fn pairs_extend(ls: Seq<Tree>, rs: Seq<Tree>, s: Map<TyVarId, Tree>)
    requires
        ls.len() == rs.len(),
        ls.len() > 0,
        all_agree(ls.drop_last(), rs.drop_last(), s),
        agree(ls.last(), rs.last(), s),
    ensures
        all_agree(ls, rs, s),
{
    assert forall|i: int| 0 <= i < ls.len() implies agree(#[trigger] ls[i], rs[i], s) by {
        if i < ls.len() - 1 {
            assert(agree(ls.drop_last()[i], rs.drop_last()[i], s));
        }
    }
}

/// A variable and what it is bound to agree, whatever follows.
proof fn bound_pair_agrees(a: Tree, b: Tree, e: Map<TyVarId, Tree>)
    requires
        unify::step(a, b) is Bind,
    ensures
        ({
            let d = unify::binding(unify::step(a, b)->Bind_0, unify::step(a, b)->Bind_1);
            agree(a, b, subst::composed(e, d))
        }),
{
    let v = unify::step(a, b)->Bind_0;
    let t = unify::step(a, b)->Bind_1;
    let d = unify::binding(v, t);
    strangers_stay(t, d);
    substitutions_compose(t, e, d);
    substitutions_compose(Tree::Var(v), e, d);
    assert(d.contains_key(v) && d[v] == t);
}

/// Unification is sound: under the substitution that it gives, the two types
/// have one form. Constructor refinements, written-out enums and array lengths
/// are what the forms leave out.
pub proof fn unified_types_agree(s: Map<TyVarId, Tree>, a: Tree, b: Tree)
    requires
        formed(a),
        formed(b),
        formed_range(s),
        unify::unified(s, a, b) is Ok,
    ensures
        agree(a, b, unify::unified(s, a, b)->Ok_0),
{
    let x = a.subst(s);
    let y = b.subst(s);
    formed_subst(a, s);
    formed_subst(b, s);
    solved_lists_agree(seq![x], seq![y]);
    let d = unify::solution(seq![x], seq![y])->Ok_0;
    assert(agree(seq![x][0], seq![y][0], d));
    substitutions_compose(a, d, s);
    substitutions_compose(b, d, s);
}

/// What unification binds is again well formed.
pub proof fn unified_stays_formed(s: Map<TyVarId, Tree>, a: Tree, b: Tree)
    requires
        formed(a),
        formed(b),
        formed_range(s),
        unify::unified(s, a, b) is Ok,
    ensures
        formed_range(unify::unified(s, a, b)->Ok_0),
{
    let x = a.subst(s);
    let y = b.subst(s);
    formed_subst(a, s);
    formed_subst(b, s);
    solved_lists_agree(seq![x], seq![y]);
    let d = unify::solution(seq![x], seq![y])->Ok_0;
    let u = subst::composed(d, s);
    assert forall|v: TyVarId| #[trigger] u.contains_key(v) implies formed(u[v]) by {
        if s.contains_key(v) {
            formed_subst(s[v], d);
        }
    }
}

/// No bound type holds a bound variable.
pub open spec fn settled(s: Map<TyVarId, Tree>) -> bool {
    forall|v: TyVarId, w: TyVarId|
        s.contains_key(v) && #[trigger] s[v].vars().contains(w) ==> !s.contains_key(w)
}

/// The variables of a type under a substitution are its own that are not bound,
/// and those of the types that are bound to its others.
proof fn vars_after(t: Tree, s: Map<TyVarId, Tree>, w: TyVarId)
    requires
        t.subst(s).vars().contains(w),
    ensures
        (t.vars().contains(w) && !s.contains_key(w)) || exists|v: TyVarId|
            t.vars().contains(v) && s.contains_key(v) && #[trigger] s[v].vars().contains(w),
    decreases t,
{
    match t {
        Tree::Var(u) => {
            assert(t.vars()[0] == u);
        },
        Tree::Node(head, kids) => {
            subst_node(head, kids, s);
            let after = subst::subst_all(kids, s);
            unify::vars_of_member(after, w);
            let i = choose|i: int| 0 <= i < after.len() && (#[trigger] after[i]).vars().contains(w);
            vars_after(kids[i], s, w);
            assert forall|v: TyVarId| kids[i].vars().contains(v) implies #[trigger] t.vars().contains(
                v,
            ) by {
                unify::vars_of_member(kids, v);
            }
        },
    }
}

/// Under a settled substitution a type is resolved in one go: resolving it again
/// changes nothing.
pub proof fn resolving_is_final(t: Tree, s: Map<TyVarId, Tree>)
    requires
        settled(s),
    ensures
        t.subst(s).subst(s) == t.subst(s),
{
    assert forall|w: TyVarId| #[trigger] t.subst(s).vars().contains(w) implies !s.contains_key(
        w,
    ) by {
        vars_after(t, s, w);
    }
    strangers_stay(t.subst(s), s);
}

/// The solution of a problem is settled, and speaks of the variables of the
/// problem only.
proof fn solutions_are_settled(ls: Seq<Tree>, rs: Seq<Tree>)
    requires
        unify::solution(ls, rs) is Ok,
    ensures
        settled(unify::solution(ls, rs)->Ok_0),
        unify::solution(ls, rs)->Ok_0.dom().subset_of(unify::open_vars(ls, rs)),
        forall|v: TyVarId, w: TyVarId|
            unify::solution(ls, rs)->Ok_0.contains_key(v) && #[trigger] unify::solution(
                ls,
                rs,
            )->Ok_0[v].vars().contains(w) ==> unify::open_vars(ls, rs).contains(w),
    decreases unify::open_vars(ls, rs).len(), Tree::size_of(ls) + Tree::size_of(rs),
{
    if ls.len() > 0 && rs.len() > 0 {
        let l = ls.drop_last();
        let r = rs.drop_last();
        unify::step_shrinks(ls, rs);
        match unify::step(ls.last(), rs.last()) {
            unify::Step::Skip => solutions_are_settled(l, r),
            unify::Step::Bind(v, t) => {
                let d = unify::binding(v, t);
                let x = subst::subst_all(l, d);
                let y = subst::subst_all(r, d);
                solutions_are_settled(x, y);
                let e = unify::solution(x, y)->Ok_0;
                let f = subst::composed(e, d);
                assert forall|u: TyVarId, w: TyVarId|
                    f.contains_key(u) && #[trigger] f[u].vars().contains(w) implies !f.contains_key(
                    w,
                ) && unify::open_vars(ls, rs).contains(w) by {
                    if u == v {
                        vars_after(t, e, w);
                    } else {
                        assert(e[u].vars().contains(w));
                    }
                }
            },
            unify::Step::Split(x, y) => solutions_are_settled(l + x.reverse(), r + y.reverse()),
            unify::Step::Fail(_) => {},
        }
    }
}

/// What a settled substitution leaves open it does not bind.
proof fn settled_leaves(t: Tree, s: Map<TyVarId, Tree>, w: TyVarId)
    requires
        settled(s),
        t.subst(s).vars().contains(w),
    ensures
        !s.contains_key(w),
{
    vars_after(t, s, w);
}

/// Unification keeps a settled substitution settled.
pub proof fn unified_stays_settled(s: Map<TyVarId, Tree>, a: Tree, b: Tree)
    requires
        settled(s),
        unify::unified(s, a, b) is Ok,
    ensures
        settled(unify::unified(s, a, b)->Ok_0),
{
    let x = a.subst(s);
    let y = b.subst(s);
    solutions_are_settled(seq![x], seq![y]);
    let d = unify::solution(seq![x], seq![y])->Ok_0;
    let u = subst::composed(d, s);
    assert forall|w: TyVarId| #[trigger]
        unify::open_vars(seq![x], seq![y]).contains(w) implies !s.contains_key(w) by {
        unify::vars_of_member(seq![x], w);
        unify::vars_of_member(seq![y], w);
        if Tree::vars_of(seq![x]).contains(w) {
            settled_leaves(a, s, w);
        } else {
            assert(Tree::vars_of(seq![y]).contains(w));
            settled_leaves(b, s, w);
        }
    }
    assert forall|v: TyVarId, w: TyVarId|
        u.contains_key(v) && #[trigger] u[v].vars().contains(w) implies !u.contains_key(w) by {
        if s.contains_key(v) {
            vars_after(s[v], d, w);
            if s[v].vars().contains(w) && !d.contains_key(w) {
            } else {
                let z = choose|z: TyVarId|
                    s[v].vars().contains(z) && d.contains_key(z) && #[trigger] d[z].vars().contains(
                        w,
                    );
                assert(unify::open_vars(seq![x], seq![y]).contains(w));
            }
        } else {
            assert(d[v].vars().contains(w));
        }
    }
}

/// A settled substitution that binds no less, put after another, is settled.
pub proof fn composed_stays_settled(second: Map<TyVarId, Tree>, first: Map<TyVarId, Tree>)
    requires
        settled(second),
        first.dom().subset_of(second.dom()),
    ensures
        settled(subst::composed(second, first)),
{
    let u = subst::composed(second, first);
    assert forall|v: TyVarId, w: TyVarId|
        u.contains_key(v) && #[trigger] u[v].vars().contains(w) implies !u.contains_key(w) by {
        if first.contains_key(v) {
            settled_leaves(first[v], second, w);
        } else {
            assert(second[v].vars().contains(w));
        }
        assert(u.contains_key(w) ==> second.contains_key(w)) by {
            if first.contains_key(w) {
                assert(first.dom().contains(w));
                assert(second.dom().contains(w));
            }
        }
    }
}

/// A type unifies with itself, and nothing is bound for it.
pub proof fn equal_types_unify(s: Map<TyVarId, Tree>, t: Tree)
    ensures
        unify::unified(s, t, t) == Ok::<Map<TyVarId, Tree>, unify::UnifyFault>(s),
{
    let x = t.subst(s);
    let one = seq![x];
    assert(one.drop_last() =~= Seq::<Tree>::empty());
    assert(unify::solution(Seq::<Tree>::empty(), Seq::<Tree>::empty()) == Ok::<
        Map<TyVarId, Tree>,
        unify::UnifyFault,
    >(Map::empty()));
    assert(unify::solution(one, one) == Ok::<Map<TyVarId, Tree>, unify::UnifyFault>(Map::empty()));
    let u = subst::composed(Map::empty(), s);
    assert forall|v: TyVarId| s.contains_key(v) implies u[v] == s[v] by {
        strangers_stay(s[v], Map::empty());
    }
    assert(u =~= s);
}

/// No type is made of itself and more: a variable does not unify with a type
/// around it.
pub proof fn infinite_types_are_refused(v: TyVarId, t: Tree)
    requires
        t is Node,
        t.vars().contains(v),
    ensures
        unify::unified(Map::empty(), Tree::Var(v), t) == Err::<
            Map<TyVarId, Tree>,
            unify::UnifyFault,
        >(unify::UnifyFault::Occurs(v, t)),
{
    strangers_stay(t, Map::empty());
    strangers_stay(Tree::Var(v), Map::empty());
}

/// A type without quantified types in it.
pub open spec fn unquantified(t: Tree) -> bool
    decreases t,
{
    match t {
        Tree::Var(_) => true,
        Tree::Node(head, kids) => {
            &&& !(head is Forall)
            &&& forall|i: int| 0 <= i < kids.len() ==> unquantified(#[trigger] kids[i])
        },
    }
}

/// Types that can be told apart part by part: well formed, and unquantified.
pub open spec fn simple(t: Tree) -> bool {
    formed(t) && unquantified(t)
}

pub open spec fn all_simple(trees: Seq<Tree>) -> bool {
    forall|i: int| 0 <= i < trees.len() ==> simple(#[trigger] trees[i])
}

/// A substitution that makes two lists equal.
pub open spec fn equates(s: Map<TyVarId, Tree>, ls: Seq<Tree>, rs: Seq<Tree>) -> bool {
    &&& ls.len() == rs.len()
    &&& forall|i: int| 0 <= i < ls.len() ==> (#[trigger] ls[i]).subst(s) == rs[i].subst(s)
}

/// `s` says no less than `d`: after `d` it makes of every type what it makes of
/// it alone.
pub open spec fn refines(s: Map<TyVarId, Tree>, d: Map<TyVarId, Tree>) -> bool {
    forall|t: Tree| (#[trigger] t.subst(d)).subst(s) == t.subst(s)
}

proof fn unquantified_subst(t: Tree, s: Map<TyVarId, Tree>)
    requires
        unquantified(t),
        forall|v: TyVarId| #[trigger] s.contains_key(v) ==> unquantified(s[v]),
    ensures
        unquantified(t.subst(s)),
    decreases t,
{
    match t {
        Tree::Var(_) => {},
        Tree::Node(head, kids) => {
            subst_node(head, kids, s);
            let all = subst::subst_all(kids, s);
            assert forall|i: int| 0 <= i < all.len() implies unquantified(#[trigger] all[i]) by {
                assert(unquantified(kids[i]));
                unquantified_subst(kids[i], s);
            }
        },
    }
}

proof fn simple_lists(trees: Seq<Tree>, v: TyVarId, t: Tree)
    requires
        all_simple(trees),
        simple(t),
    ensures
        all_simple(subst::subst_all(trees, unify::binding(v, t))),
{
    let d = unify::binding(v, t);
    subst_node(Head::Tuple, trees, d);
    assert forall|i: int| 0 <= i < trees.len() implies simple(
        #[trigger] subst::subst_all(trees, d)[i],
    ) by {
        assert(simple(trees[i]));
        formed_subst(trees[i], d);
        unquantified_subst(trees[i], d);
    }
}

proof fn simple_flat(trees: Seq<Tree>)
    requires
        all_simple(trees),
    ensures
        all_simple(unify::flat(trees)),
    decreases trees.len(),
{
    if trees.len() > 0 {
        let init = trees.drop_last();
        assert forall|i: int| 0 <= i < init.len() implies simple(#[trigger] init[i]) by {
            assert(simple(trees[i]));
        }
        simple_flat(init);
        assert(simple(trees[trees.len() - 1]));
    }
}

/// What takes a variable to the type it is bound to does not see the binding.
proof fn binding_is_invisible(u: Tree, v: TyVarId, t: Tree, s: Map<TyVarId, Tree>)
    requires
        Tree::Var(v).subst(s) == t.subst(s),
    ensures
        u.subst(unify::binding(v, t)).subst(s) == u.subst(s),
    decreases u,
{
    let d = unify::binding(v, t);
    match u {
        Tree::Var(w) => {},
        Tree::Node(head, kids) => {
            subst_node(head, kids, d);
            let inner = subst::subst_all(kids, d);
            subst_node(head, inner, s);
            subst_node(head, kids, s);
            assert forall|i: int| 0 <= i < kids.len() implies (#[trigger] subst::subst_all(
                inner,
                s,
            )[i]) == subst::subst_all(kids, s)[i] by {
                binding_is_invisible(kids[i], v, t, s);
            }
            assert(subst::subst_all(inner, s) =~= subst::subst_all(kids, s));
        },
    }
}

/// A list is larger than each of its trees.
proof fn list_size(trees: Seq<Tree>, i: int)
    requires
        0 <= i < trees.len(),
    ensures
        Tree::size_of(trees) >= trees[i].size(),
    decreases trees.len(),
{
    if i < trees.len() - 1 {
        list_size(trees.drop_last(), i);
    }
}

/// What stands for a variable is no larger than what stands for a type around it.
proof fn occurrence_size(t: Tree, v: TyVarId, s: Map<TyVarId, Tree>)
    requires
        t.vars().contains(v),
    ensures
        t.subst(s).size() >= Tree::Var(v).subst(s).size(),
        t is Node ==> t.subst(s).size() > Tree::Var(v).subst(s).size(),
    decreases t,
{
    match t {
        Tree::Var(w) => {
            assert(t.vars()[0] == w);
        },
        Tree::Node(head, kids) => {
            subst_node(head, kids, s);
            unify::vars_of_member(kids, v);
            let i = choose|i: int| 0 <= i < kids.len() && (#[trigger] kids[i]).vars().contains(v);
            occurrence_size(kids[i], v, s);
            list_size(subst::subst_all(kids, s), i);
        },
    }
}

/// The lists of all types in equal payloads are equal.
proof fn flat_equates(s: Map<TyVarId, Tree>, a: Seq<Tree>, b: Seq<Tree>)
    requires
        a.len() == b.len(),
        forall|i: int|
            0 <= i < a.len() ==> (#[trigger] a[i]).kids().len() == b[i].kids().len() && equates(
                s,
                a[i].kids(),
                b[i].kids(),
            ),
    ensures
        equates(s, unify::flat(a), unify::flat(b)),
    decreases a.len(),
{
    if a.len() > 0 {
        let x = a.drop_last();
        let y = b.drop_last();
        assert forall|i: int| 0 <= i < x.len() implies (#[trigger] x[i]).kids().len()
            == y[i].kids().len() && equates(s, x[i].kids(), y[i].kids()) by {
            assert(a[i].kids().len() == b[i].kids().len());
        }
        flat_equates(s, x, y);
        let n = unify::flat(x).len() as int;
        let last = a.len() - 1;
        assert(equates(s, a[last].kids(), b[last].kids()));
        assert forall|i: int| 0 <= i < unify::flat(a).len() implies (#[trigger] unify::flat(
            a,
        )[i]).subst(s) == unify::flat(b)[i].subst(s) by {
            if i < n {
                assert(unify::flat(x)[i].subst(s) == unify::flat(y)[i].subst(s));
            } else {
                assert(a[last].kids()[i - n].subst(s) == b[last].kids()[i - n].subst(s));
            }
        }
    }
}

/// Equal nodes have equal parts.
proof fn kids_equate(s: Map<TyVarId, Tree>, a: Tree, b: Tree)
    requires
        a is Node,
        b is Node,
        a.subst(s) == b.subst(s),
    ensures
        a.head() == b.head(),
        equates(s, a.kids(), b.kids()),
{
    subst_node(a.head(), a.kids(), s);
    subst_node(b.head(), b.kids(), s);
    let x = subst::subst_all(a.kids(), s);
    let y = subst::subst_all(b.kids(), s);
    assert forall|i: int| 0 <= i < a.kids().len() implies (#[trigger] a.kids()[i]).subst(s)
        == b.kids()[i].subst(s) by {
        assert(x[i] == y[i]);
    }
}

/// A pair that some substitution makes equal is never refused, and what it is
/// split into is made equal too.
proof fn solvable_step(s: Map<TyVarId, Tree>, a: Tree, b: Tree)
    requires
        simple(a),
        simple(b),
        a.subst(s) == b.subst(s),
    ensures
        match unify::step(a, b) {
            unify::Step::Skip => true,
            unify::Step::Bind(v, t) => Tree::Var(v).subst(s) == t.subst(s) && simple(t),
            unify::Step::Split(x, y) => equates(s, x, y) && all_simple(x) && all_simple(y),
            unify::Step::Fail(_) => false,
        },
{
    if a == b {
    } else if a is Var {
        if b.vars().contains(a->Var_0) {
            occurrence_size(b, a->Var_0, s);
            if b is Var {
                assert(b.vars()[0] == b->Var_0);
            }
        }
    } else if b is Var {
        if a.vars().contains(b->Var_0) {
            occurrence_size(a, b->Var_0, s);
        }
    } else {
        kids_equate(s, a, b);
        let x = a.kids();
        let y = b.kids();
        if a.head() is Sum {
            assert forall|i: int| 0 <= i < x.len() implies (#[trigger] x[i]).head() == y[i].head()
                && x[i].kids().len() == y[i].kids().len() && equates(s, x[i].kids(), y[i].kids()) by {
                assert(x[i].subst(s) == y[i].subst(s));
                assert(x[i] is Node && y[i] is Node);
                kids_equate(s, x[i], y[i]);
            }
            flat_equates(s, x, y);
            simple_flat(x);
            simple_flat(y);
        }
        assert(unify::same_shape(a, b));
    }
}

proof fn solvable_lists(ls: Seq<Tree>, rs: Seq<Tree>, s: Map<TyVarId, Tree>)
    requires
        all_simple(ls),
        all_simple(rs),
        equates(s, ls, rs),
    ensures
        unify::solution(ls, rs) is Ok,
        refines(s, unify::solution(ls, rs)->Ok_0),
    decreases unify::open_vars(ls, rs).len(), Tree::size_of(ls) + Tree::size_of(rs),
{
    if ls.len() == 0 {
        assert forall|t: Tree| (#[trigger] t.subst(Map::empty())).subst(s) == t.subst(s) by {
            strangers_stay(t, Map::empty());
        }
    } else {
        let l = ls.drop_last();
        let r = rs.drop_last();
        let n = ls.len() - 1;
        let a = ls.last();
        let b = rs.last();
        assert(simple(ls[n]) && simple(rs[n]) && ls[n].subst(s) == rs[n].subst(s));
        assert forall|i: int| 0 <= i < n implies simple(#[trigger] l[i]) && simple(r[i])
            && l[i].subst(s) == r[i].subst(s) by {
            assert(simple(ls[i]) && simple(rs[i]) && ls[i].subst(s) == rs[i].subst(s));
        }
        assert(all_simple(r)) by {
            assert forall|i: int| 0 <= i < n implies simple(#[trigger] r[i]) by {
                assert(simple(rs[i]));
            }
        }
        unify::step_shrinks(ls, rs);
        solvable_step(s, a, b);
        match unify::step(a, b) {
            unify::Step::Skip => solvable_lists(l, r, s),
            unify::Step::Bind(v, t) => {
                let d = unify::binding(v, t);
                let x = subst::subst_all(l, d);
                let y = subst::subst_all(r, d);
                simple_lists(l, v, t);
                simple_lists(r, v, t);
                assert forall|i: int| 0 <= i < n implies (#[trigger] x[i]).subst(s)
                    == y[i].subst(s) by {
                    binding_is_invisible(l[i], v, t, s);
                    binding_is_invisible(r[i], v, t, s);
                    assert(l[i].subst(s) == r[i].subst(s));
                }
                solvable_lists(x, y, s);
                let e = unify::solution(x, y)->Ok_0;
                assert forall|u: Tree| (#[trigger] u.subst(subst::composed(e, d))).subst(s)
                    == u.subst(s) by {
                    substitutions_compose(u, e, d);
                    binding_is_invisible(u, v, t, s);
                    assert(u.subst(d).subst(e).subst(s) == u.subst(d).subst(s));
                }
            },
            unify::Step::Split(x, y) => {
                let ll = l + x.reverse();
                let rr = r + y.reverse();
                assert forall|i: int| 0 <= i < ll.len() implies simple(#[trigger] ll[i])
                    && ll[i].subst(s) == rr[i].subst(s) by {
                    if i >= n {
                        let j = x.len() - 1 - (i - n);
                        assert(simple(x[j]) && x[j].subst(s) == y[j].subst(s));
                    } else {
                        assert(simple(l[i]));
                    }
                }
                assert forall|i: int| 0 <= i < rr.len() implies simple(#[trigger] rr[i]) by {
                    if i >= n {
                        assert(simple(y[y.len() - 1 - (i - n)]));
                    } else {
                        assert(simple(r[i]));
                    }
                }
                solvable_lists(ll, rr, s);
            },
            unify::Step::Fail(_) => {},
        }
    }
}

/// Unification is complete, and most general: types that some substitution makes
/// equal are unified, and that substitution says no less than the one that is
/// found. Quantified types are left out: two of them unify only when their
/// constraints are the same as they stand.
pub proof fn solvable_types_unify(a: Tree, b: Tree, s: Map<TyVarId, Tree>)
    requires
        simple(a),
        simple(b),
        a.subst(s) == b.subst(s),
    ensures
        unify::unified(Map::empty(), a, b) is Ok,
        refines(s, unify::unified(Map::empty(), a, b)->Ok_0),
{
    let none = Map::<TyVarId, Tree>::empty();
    strangers_stay(a, none);
    strangers_stay(b, none);
    let ls = seq![a];
    let rs = seq![b];
    assert(simple(ls[0]) && simple(rs[0]) && ls[0].subst(s) == rs[0].subst(s));
    assert(all_simple(ls));
    assert(all_simple(rs));
    assert(equates(s, ls, rs));
    solvable_lists(ls, rs, s);
    let d = unify::solution(ls, rs)->Ok_0;
    let u = subst::composed(d, none);
    assert(u =~= d);
}

/// Every list of types of the library is well formed.
proof fn lists_are_formed(items: Vec<Ty>)
    ensures
        all_formed(items.deep_view()),
    decreases items,
{
    assert forall|i: int| 0 <= i < items@.len() implies formed(
        #[trigger] items.deep_view()[i],
    ) by {
        assert(decreases_to!(items => items@[i]));
        types_are_formed(items@[i]);
    }
}

proof fn constraints_are_formed(c: Constraint)
    ensures
        formed(c@),
    decreases c,
{
    broadcast use tree::group_shapes;

    lists_are_formed(c.args);
}

proof fn payloads_are_formed(p: EnumVariantPayloadTy)
    ensures
        formed(p@),
        p@ is Node,
    decreases p,
{
    broadcast use tree::group_shapes;

    let kids = p@.kids();
    assert(!(p@.head() is Sum));
    match p {
        EnumVariantPayloadTy::Unit => {
            assert(kids.len() == 0);
        },
        EnumVariantPayloadTy::Tuple(items) => {
            lists_are_formed(items);
            assert(kids == items.deep_view());
        },
        EnumVariantPayloadTy::Record(fields) => {
            assert(kids.len() == fields@.len());
            assert forall|i: int| 0 <= i < kids.len() implies formed(#[trigger] kids[i]) by {
                assert(decreases_to!(p => fields@[i].1));
                types_are_formed(fields@[i].1);
                assert(kids[i] == fields@[i].1@);
            }
        },
    }
    assert(all_formed(kids));
}

/// Every type of the library is well formed.
pub proof fn types_are_formed(t: Ty)
    ensures
        formed(t@),
    decreases t,
{
    broadcast use tree::group_shapes;

    match t {
        Ty::Var(_) => {},
        Ty::Con(_) => {},
        Ty::App(head, args) => {
            tree::app_shape(head, args);
            types_are_formed(*head);
            lists_are_formed(args);
            assert forall|i: int| 0 <= i < t@.kids().len() implies formed(#[trigger] t@.kids()[i]) by {
                if i > 0 {
                    assert(formed(args.deep_view()[i - 1]));
                }
            }
        },
        Ty::Fun(param, result) => {
            types_are_formed(*param);
            types_are_formed(*result);
        },
        Ty::List(element) => types_are_formed(*element),
        Ty::Sum { name, variants } => {
            assert forall|i: int| 0 <= i < variants@.len() implies formed(
                #[trigger] t@.kids()[i],
            ) && t@.kids()[i] is Node by {
                assert(decreases_to!(t => variants@[i].1));
                payloads_are_formed(variants@[i].1);
            }
        },
        Ty::Constructor { owner, .. } => types_are_formed(*owner),
        Ty::Tuple(items) => lists_are_formed(items),
        Ty::Array { element, .. } => types_are_formed(*element),
        Ty::Record { fields } => {
            assert forall|i: int| 0 <= i < fields@.len() implies formed(#[trigger] t@.kids()[i]) by {
                assert(decreases_to!(t => fields@[i].1));
                types_are_formed(fields@[i].1);
            }
        },
        Ty::Existential { .. } => {},
        Ty::Forall { bounds, constraints, body } => {
            tree::forall_shape(bounds, constraints, body);
            types_are_formed(*body);
            assert forall|i: int| 0 <= i < t@.kids().len() implies formed(#[trigger] t@.kids()[i]) by {
                if i < constraints@.len() {
                    assert(decreases_to!(t => constraints@[i]));
                    constraints_are_formed(constraints@[i]);
                }
            }
        },
    }
}

} // verus!
