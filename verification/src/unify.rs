//! First-order unification of types.
//!
//! A problem is two lists of types that have to become equal pairwise. The last
//! pair is taken first: it is dropped, split into the pairs of its parts, or
//! solved for a variable that then leaves the rest of the problem.
use crate::subst::{self, Subst, apply_ty, apply_tys, compose};
use crate::text::same_text;
use crate::tree::{self, ArrayLength, Head, Tree};
use crate::ty::{
    Constraint, EnumVariantPayloadTy, Ty, TyVarId, copy_tys, same_ty, same_vars,
};
use vstd::prelude::*;

verus! {

broadcast use crate::tree::group_shapes;

/// Why two types do not unify.
#[derive(Debug)]
pub enum UnifyError {
    /// The heads of the two types differ.
    Mismatch { left: Ty, right: Ty },
    /// The variable would have to hold a type that contains it.
    Occurs { var: TyVarId, ty: Ty },
}

/// The model of a [`UnifyError`].
#[verifier::ext_equal]
pub enum UnifyFault {
    Mismatch(Tree, Tree),
    Occurs(TyVarId, Tree),
}

impl View for UnifyError {
    type V = UnifyFault;

    open spec fn view(&self) -> UnifyFault {
        match self {
            UnifyError::Mismatch { left, right } => UnifyFault::Mismatch(left@, right@),
            UnifyError::Occurs { var, ty } => UnifyFault::Occurs(*var, ty@),
        }
    }
}

/// The parts of all trees of a list, in order.
pub open spec fn flat(trees: Seq<Tree>) -> Seq<Tree>
    decreases trees.len(),
{
    if trees.len() == 0 {
        Seq::empty()
    } else {
        flat(trees.drop_last()) + trees.last().kids()
    }
}

/// The types that make up a type: those in its payloads for an enum, the body
/// for a quantified type, and its parts for any other.
pub open spec fn parts(t: Tree) -> Seq<Tree> {
    match t.head() {
        Head::Sum(_, _) => flat(t.kids()),
        Head::Forall(_) => seq![t.kids().last()],
        _ => t.kids(),
    }
}

/// The payloads of two enums have the same shapes.
pub open spec fn payloads_match(a: Seq<Tree>, b: Seq<Tree>) -> bool {
    &&& a.len() == b.len()
    &&& forall|i: int|
        0 <= i < a.len() ==> (#[trigger] a[i]).head() == b[i].head() && a[i].kids().len()
            == b[i].kids().len()
}

/// Two heads go together: they are the same, or both are of arrays and one of
/// the lengths is open.
pub open spec fn heads_agree(a: Head, b: Head) -> bool {
    a == b || match (a, b) {
        (Head::Array(m), Head::Array(n)) => m is Dynamic || n is Dynamic,
        _ => false,
    }
}

/// Both types are built alike, up to their parts.
pub open spec fn same_shape(a: Tree, b: Tree) -> bool {
    &&& a is Node
    &&& b is Node
    &&& heads_agree(a.head(), b.head())
    &&& a.kids().len() == b.kids().len()
    &&& a.head() is Sum ==> payloads_match(a.kids(), b.kids())
    &&& a.head() is Forall ==> a.kids().len() > 0 && a.kids().drop_last() == b.kids().drop_last()
}

/// An enum written by its name: `Option` and `Result` applied to the types in
/// their payloads, another enum as its bare name.
pub open spec fn nominal(t: Tree) -> Tree {
    if t is Node && t.head() is Sum {
        let name = t.head()->Sum_0;
        let k = t.kids();
        if name == "Option"@ && k.len() == 2 && k[1].kids().len() == 1 {
            Tree::app(Tree::con(name), seq![k[1].kids()[0]])
        } else if name == "Result"@ && k.len() == 2 && k[0].kids().len() == 1
            && k[1].kids().len() == 1 {
            Tree::app(Tree::con(name), seq![k[0].kids()[0], k[1].kids()[0]])
        } else {
            Tree::con(name)
        }
    } else {
        t
    }
}

/// What to do with one pair.
pub enum Step {
    Skip,
    Bind(TyVarId, Tree),
    Split(Seq<Tree>, Seq<Tree>),
    Fail(UnifyFault),
}

/// How one pair is solved. A constructor refinement stands for the enum that
/// owns it, unless both sides are refinements of one constructor.
pub open spec fn step(a: Tree, b: Tree) -> Step {
    if a == b {
        Step::Skip
    } else if a is Var {
        if b.vars().contains(a->Var_0) {
            Step::Fail(UnifyFault::Occurs(a->Var_0, b))
        } else {
            Step::Bind(a->Var_0, b)
        }
    } else if b is Var {
        if a.vars().contains(b->Var_0) {
            Step::Fail(UnifyFault::Occurs(b->Var_0, a))
        } else {
            Step::Bind(b->Var_0, a)
        }
    } else if same_shape(a, b) {
        Step::Split(parts(a), parts(b))
    } else if a.head() is Constructor && b.head() is Constructor {
        Step::Fail(UnifyFault::Mismatch(a, b))
    } else if a.head() is Constructor && a.kids().len() == 1 {
        Step::Split(a.kids(), seq![b])
    } else if b.head() is Constructor && b.kids().len() == 1 {
        Step::Split(seq![a], b.kids())
    } else if same_shape(nominal(a), nominal(b)) {
        Step::Split(nominal(a).kids(), nominal(b).kids())
    } else {
        Step::Fail(UnifyFault::Mismatch(a, b))
    }
}

/// The variables of a problem.
pub open spec fn open_vars(ls: Seq<Tree>, rs: Seq<Tree>) -> Set<TyVarId> {
    (Tree::vars_of(ls) + Tree::vars_of(rs)).to_set()
}

/// `v` alone, bound to `t`.
pub open spec fn binding(v: TyVarId, t: Tree) -> Map<TyVarId, Tree> {
    Map::empty().insert(v, t)
}

/// The most general substitution that makes the lists equal pairwise, up to
/// the nominal forms of enums and the open lengths of arrays.
pub open spec fn solution(ls: Seq<Tree>, rs: Seq<Tree>) -> Result<Map<TyVarId, Tree>, UnifyFault>
    decreases open_vars(ls, rs).len(), Tree::size_of(ls) + Tree::size_of(rs),
{
    if ls.len() == 0 || rs.len() == 0 {
        Ok(Map::empty())
    } else {
        let l = ls.drop_last();
        let r = rs.drop_last();
        proof {
            step_shrinks(ls, rs);
        }
        match step(ls.last(), rs.last()) {
            Step::Skip => solution(l, r),
            Step::Bind(v, t) => {
                let d = binding(v, t);
                match solution(subst::subst_all(l, d), subst::subst_all(r, d)) {
                    Ok(e) => Ok(subst::composed(e, d)),
                    Err(f) => Err(f),
                }
            },
            Step::Split(x, y) => solution(l + x.reverse(), r + y.reverse()),
            Step::Fail(f) => Err(f),
        }
    }
}

/// The result of unifying `a` and `b` under `s`: `s` followed by the most
/// general solution of what `s` leaves open.
pub open spec fn unified(s: Map<TyVarId, Tree>, a: Tree, b: Tree) -> Result<
    Map<TyVarId, Tree>,
    UnifyFault,
> {
    match solution(seq![a.subst(s)], seq![b.subst(s)]) {
        Ok(d) => Ok(subst::composed(d, s)),
        Err(f) => Err(f),
    }
}

proof fn vars_of_concat(x: Seq<Tree>, y: Seq<Tree>)
    ensures
        Tree::vars_of(x + y) == Tree::vars_of(x) + Tree::vars_of(y),
        Tree::size_of(x + y) == Tree::size_of(x) + Tree::size_of(y),
    decreases y.len(),
{
    if y.len() == 0 {
        assert(x + y =~= x);
        assert(Tree::vars_of(x) + Tree::vars_of(y) =~= Tree::vars_of(x));
    } else {
        vars_of_concat(x, y.drop_last());
        assert((x + y).drop_last() =~= x + y.drop_last());
        assert((x + y).last() == y.last());
        assert(Tree::vars_of(x + y) =~= Tree::vars_of(x) + Tree::vars_of(y));
    }
}

/// The variables of a list are those of its trees.
pub proof fn vars_of_member(x: Seq<Tree>, v: TyVarId)
    ensures
        Tree::vars_of(x).contains(v) <==> exists|i: int|
            0 <= i < x.len() && (#[trigger] x[i]).vars().contains(v),
    decreases x.len(),
{
    if x.len() > 0 {
        let init = x.drop_last();
        vars_of_member(init, v);
        contains_concat(Tree::vars_of(init), x.last().vars(), v);
        if exists|i: int| 0 <= i < init.len() && (#[trigger] init[i]).vars().contains(v) {
            let i = choose|i: int| 0 <= i < init.len() && (#[trigger] init[i]).vars().contains(v);
            assert(x[i].vars().contains(v));
        }
        if x.last().vars().contains(v) {
            assert(x[x.len() - 1].vars().contains(v));
        }
        if exists|i: int| 0 <= i < x.len() && (#[trigger] x[i]).vars().contains(v) {
            let i = choose|i: int| 0 <= i < x.len() && (#[trigger] x[i]).vars().contains(v);
            if i < x.len() - 1 {
                assert(init[i].vars().contains(v));
            }
        }
    }
}

proof fn contains_concat<A>(x: Seq<A>, y: Seq<A>, a: A)
    ensures
        (x + y).contains(a) <==> x.contains(a) || y.contains(a),
{
    if x.contains(a) {
        let i = choose|i: int| 0 <= i < x.len() && x[i] == a;
        assert((x + y)[i] == a);
    }
    if y.contains(a) {
        let i = choose|i: int| 0 <= i < y.len() && y[i] == a;
        assert((x + y)[x.len() + i] == a);
    }
}

proof fn size_of_member(x: Seq<Tree>, i: int)
    requires
        0 <= i < x.len(),
    ensures
        x[i].size() <= Tree::size_of(x),
    decreases x.len(),
{
    if i < x.len() - 1 {
        size_of_member(x.drop_last(), i);
    }
}

proof fn reversed_list(x: Seq<Tree>)
    ensures
        Tree::size_of(x.reverse()) == Tree::size_of(x),
        forall|v: TyVarId| #[trigger]
            Tree::vars_of(x.reverse()).contains(v) <==> Tree::vars_of(x).contains(v),
    decreases x.len(),
{
    if x.len() > 0 {
        let init = x.drop_last();
        reversed_list(init);
        assert(x.reverse() =~= seq![x.last()] + init.reverse());
        vars_of_concat(seq![x.last()], init.reverse());
        one_tree(x.last());
        assert forall|v: TyVarId| #[trigger]
            Tree::vars_of(x.reverse()).contains(v) <==> Tree::vars_of(x).contains(v) by {
            contains_concat(x.last().vars(), Tree::vars_of(init.reverse()), v);
            contains_concat(Tree::vars_of(init), x.last().vars(), v);
        }
    } else {
        assert(x.reverse() =~= x);
    }
}

proof fn flat_list(x: Seq<Tree>)
    ensures
        Tree::size_of(flat(x)) <= Tree::size_of(x),
        forall|v: TyVarId| #[trigger]
            Tree::vars_of(flat(x)).contains(v) ==> Tree::vars_of(x).contains(v),
    decreases x.len(),
{
    if x.len() > 0 {
        let init = x.drop_last();
        flat_list(init);
        vars_of_concat(flat(init), x.last().kids());
        assert(Tree::size_of(x.last().kids()) <= x.last().size());
        assert forall|v: TyVarId| #[trigger] Tree::vars_of(flat(x)).contains(v) implies Tree::vars_of(
            x,
        ).contains(v) by {
            contains_concat(Tree::vars_of(flat(init)), Tree::vars_of(x.last().kids()), v);
            contains_concat(Tree::vars_of(init), x.last().vars(), v);
        }
    }
}

/// What replacing `v` by `t` leaves open: the other variables, and those of `t`.
proof fn bound_var_leaves(x: Tree, v: TyVarId, t: Tree, w: TyVarId)
    ensures
        x.subst(binding(v, t)).vars().contains(w) ==> (x.vars().contains(w) && w != v)
            || t.vars().contains(w),
    decreases x,
{
    let d = binding(v, t);
    match x {
        Tree::Var(u) => {
            if u != v {
                assert(x.vars() == seq![u]);
                if x.vars().contains(w) {
                    assert(w == u);
                }
            }
        },
        Tree::Node(head, kids) => {
            tree::rewrite_node(head, kids, d, Map::empty());
            let after = tree::rewrite_all(kids, d, Map::empty());
            vars_of_member(after, w);
            vars_of_member(kids, w);
            if x.subst(d).vars().contains(w) {
                let i = choose|i: int| 0 <= i < after.len() && (#[trigger] after[i]).vars().contains(w);
                bound_var_leaves(kids[i], v, t, w);
                if kids[i].vars().contains(w) {
                    assert(x.vars().contains(w));
                }
            }
        },
    }
}

proof fn bound_var_leaves_list(x: Seq<Tree>, v: TyVarId, t: Tree, w: TyVarId)
    ensures
        Tree::vars_of(subst::subst_all(x, binding(v, t))).contains(w) ==> (Tree::vars_of(
            x,
        ).contains(w) && w != v) || t.vars().contains(w),
{
    let after = subst::subst_all(x, binding(v, t));
    vars_of_member(after, w);
    vars_of_member(x, w);
    if Tree::vars_of(after).contains(w) {
        let i = choose|i: int| 0 <= i < after.len() && (#[trigger] after[i]).vars().contains(w);
        bound_var_leaves(x[i], v, t, w);
    }
}

proof fn nominal_smaller(t: Tree)
    ensures
        Tree::size_of(nominal(t).kids()) < t.size() || !(t is Node),
        forall|v: TyVarId| #[trigger]
            Tree::vars_of(nominal(t).kids()).contains(v) ==> t.vars().contains(v),
{
    if t is Node && t.head() is Sum {
        let name = t.head()->Sum_0;
        let k = t.kids();
        let n = nominal(t).kids();
        flat_list(k);
        if name == "Option"@ && k.len() == 2 && k[1].kids().len() == 1 {
            assert(n =~= seq![Tree::con(name), k[1].kids()[0]]);
            two_trees(Tree::con(name), k[1].kids()[0]);
            two_trees(k[0], k[1]);
            assert(k =~= seq![k[0], k[1]]);
            one_tree(k[1].kids()[0]);
            assert(k[1].kids() =~= seq![k[1].kids()[0]]);
            no_trees(Tree::con(name));
            assert(k[1].vars() =~= k[1].kids()[0].vars());
        } else if name == "Result"@ && k.len() == 2 && k[0].kids().len() == 1
            && k[1].kids().len() == 1 {
            assert(n.drop_last() =~= seq![Tree::con(name), k[0].kids()[0]]);
            two_trees(Tree::con(name), k[0].kids()[0]);
            two_trees(k[0], k[1]);
            assert(k =~= seq![k[0], k[1]]);
            one_tree(k[0].kids()[0]);
            one_tree(k[1].kids()[0]);
            assert(k[0].kids() =~= seq![k[0].kids()[0]]);
            assert(k[1].kids() =~= seq![k[1].kids()[0]]);
            no_trees(Tree::con(name));
            assert forall|v: TyVarId| #[trigger]
                Tree::vars_of(n).contains(v) implies t.vars().contains(v) by {
                contains_concat(Tree::vars_of(n.drop_last()), n.last().vars(), v);
                contains_concat(Tree::con(name).vars(), k[0].kids()[0].vars(), v);
                contains_concat(k[0].vars(), k[1].vars(), v);
            }
        } else {
            no_trees(Tree::con(name));
        }
        if name == "Option"@ && k.len() == 2 && k[1].kids().len() == 1 {
            assert forall|v: TyVarId| #[trigger]
                Tree::vars_of(n).contains(v) implies t.vars().contains(v) by {
                contains_concat(Tree::con(name).vars(), k[1].kids()[0].vars(), v);
                contains_concat(k[0].vars(), k[1].vars(), v);
            }
        }
    }
}

proof fn no_trees(t: Tree)
    requires
        t is Node,
        t.kids().len() == 0,
    ensures
        t.vars() == Seq::<TyVarId>::empty(),
        t.size() == 1,
        Tree::vars_of(t.kids()) == Seq::<TyVarId>::empty(),
        Tree::size_of(t.kids()) == 0,
{
}

proof fn one_tree(a: Tree)
    ensures
        Tree::vars_of(seq![a]) == a.vars(),
        Tree::size_of(seq![a]) == a.size(),
{
    assert(seq![a].drop_last() =~= Seq::<Tree>::empty());
    assert(Tree::size_of(Seq::<Tree>::empty()) == 0);
    assert(Tree::vars_of(Seq::<Tree>::empty()) == Seq::<TyVarId>::empty());
    assert(Tree::vars_of(seq![a]) =~= a.vars());
}

proof fn two_trees(a: Tree, b: Tree)
    ensures
        Tree::vars_of(seq![a, b]) == a.vars() + b.vars(),
        Tree::size_of(seq![a, b]) == a.size() + b.size(),
{
    one_tree(a);
    assert(seq![a, b].drop_last() =~= seq![a]);
}

/// The sides of a split are smaller than the pair, and open no new variable.
proof fn split_smaller(a: Tree, b: Tree)
    requires
        step(a, b) is Split,
    ensures
        Tree::size_of(step(a, b)->Split_0) + Tree::size_of(step(a, b)->Split_1) < a.size()
            + b.size(),
        forall|v: TyVarId| #[trigger]
            Tree::vars_of(step(a, b)->Split_0).contains(v) ==> a.vars().contains(v),
        forall|v: TyVarId| #[trigger]
            Tree::vars_of(step(a, b)->Split_1).contains(v) ==> b.vars().contains(v),
{
    one_tree(a);
    one_tree(b);
    nominal_smaller(a);
    nominal_smaller(b);
    if same_shape(a, b) {
        flat_list(a.kids());
        flat_list(b.kids());
        if a.head() is Forall {
            let x = a.kids().last();
            let y = b.kids().last();
            one_tree(x);
            one_tree(y);
            size_of_member(a.kids(), a.kids().len() - 1);
            size_of_member(b.kids(), b.kids().len() - 1);
            assert forall|v: TyVarId| #[trigger]
                Tree::vars_of(seq![x]).contains(v) implies a.vars().contains(v) by {
                vars_of_member(a.kids(), v);
                assert(a.kids()[a.kids().len() - 1].vars().contains(v));
            }
            assert forall|v: TyVarId| #[trigger]
                Tree::vars_of(seq![y]).contains(v) implies b.vars().contains(v) by {
                vars_of_member(b.kids(), v);
                assert(b.kids()[b.kids().len() - 1].vars().contains(v));
            }
        }
    }
}

/// Each step leaves a problem with fewer open variables, or with as many and
/// fewer nodes. No step opens a variable, and one that is bound is gone.
pub proof fn step_shrinks(ls: Seq<Tree>, rs: Seq<Tree>)
    requires
        ls.len() > 0,
        rs.len() > 0,
    ensures
        match step(ls.last(), rs.last()) {
            Step::Skip => open_vars(ls.drop_last(), rs.drop_last()).subset_of(open_vars(ls, rs)),
            Step::Bind(v, t) => {
                &&& open_vars(ls, rs).contains(v)
                &&& !t.vars().contains(v)
                &&& forall|w: TyVarId| #[trigger]
                    t.vars().contains(w) ==> open_vars(ls, rs).contains(w)
                &&& open_vars(
                    subst::subst_all(ls.drop_last(), binding(v, t)),
                    subst::subst_all(rs.drop_last(), binding(v, t)),
                ).subset_of(open_vars(ls, rs).remove(v))
            },
            Step::Split(x, y) => open_vars(
                ls.drop_last() + x.reverse(),
                rs.drop_last() + y.reverse(),
            ).subset_of(open_vars(ls, rs)),
            Step::Fail(_) => true,
        },
        match step(ls.last(), rs.last()) {
            Step::Skip => smaller(ls, rs, ls.drop_last(), rs.drop_last()),
            Step::Bind(v, t) => smaller(
                ls,
                rs,
                subst::subst_all(ls.drop_last(), binding(v, t)),
                subst::subst_all(rs.drop_last(), binding(v, t)),
            ),
            Step::Split(x, y) => smaller(
                ls,
                rs,
                ls.drop_last() + x.reverse(),
                rs.drop_last() + y.reverse(),
            ),
            Step::Fail(_) => true,
        },
{
    let a = ls.last();
    let b = rs.last();
    let l = ls.drop_last();
    let r = rs.drop_last();
    let before = open_vars(ls, rs);
    let all = Tree::vars_of(ls) + Tree::vars_of(rs);
    vstd::seq_lib::seq_to_set_is_finite(all);
    a_size(a);
    assert forall|v: TyVarId|
        Tree::vars_of(l).contains(v) || Tree::vars_of(r).contains(v) || a.vars().contains(v)
            || b.vars().contains(v) implies #[trigger] before.contains(v) by {
        contains_concat(Tree::vars_of(ls), Tree::vars_of(rs), v);
        contains_concat(Tree::vars_of(l), a.vars(), v);
        contains_concat(Tree::vars_of(r), b.vars(), v);
    }
    match step(a, b) {
        Step::Skip => {
            let after = open_vars(l, r);
            assert forall|v: TyVarId| #[trigger] after.contains(v) implies before.contains(v) by {
                contains_concat(Tree::vars_of(l), Tree::vars_of(r), v);
            }
            vstd::set_lib::lemma_len_subset(after, before);
        },
        Step::Bind(v, t) => {
            let d = binding(v, t);
            let after = open_vars(subst::subst_all(l, d), subst::subst_all(r, d));
            assert(before.contains(v)) by {
                assert(a.vars().contains(v) || b.vars().contains(v)) by {
                    if a is Var {
                        assert(a.vars()[0] == v);
                    } else {
                        assert(b.vars()[0] == v);
                    }
                }
            }
            assert forall|w: TyVarId| #[trigger] after.contains(w) implies before.remove(v).contains(w) by {
                contains_concat(
                    Tree::vars_of(subst::subst_all(l, d)),
                    Tree::vars_of(subst::subst_all(r, d)),
                    w,
                );
                bound_var_leaves_list(l, v, t, w);
                bound_var_leaves_list(r, v, t, w);
                if t.vars().contains(w) {
                    assert(w != v);
                }
                assert(before.contains(w));
            }
            vstd::set_lib::lemma_len_subset(after, before.remove(v));
        },
        Step::Split(x, y) => {
            split_smaller(a, b);
            reversed_list(x);
            reversed_list(y);
            vars_of_concat(l, x.reverse());
            vars_of_concat(r, y.reverse());
            let after = open_vars(l + x.reverse(), r + y.reverse());
            assert forall|v: TyVarId| #[trigger] after.contains(v) implies before.contains(v) by {
                contains_concat(
                    Tree::vars_of(l + x.reverse()),
                    Tree::vars_of(r + y.reverse()),
                    v,
                );
                contains_concat(Tree::vars_of(l), Tree::vars_of(x.reverse()), v);
                contains_concat(Tree::vars_of(r), Tree::vars_of(y.reverse()), v);
            }
            vstd::set_lib::lemma_len_subset(after, before);
        },
        Step::Fail(_) => {},
    }
}

proof fn a_size(a: Tree)
    ensures
        a.size() > 0,
{
}

/// The measure by which a problem shrinks.
pub open spec fn smaller(ls: Seq<Tree>, rs: Seq<Tree>, l: Seq<Tree>, r: Seq<Tree>) -> bool {
    ||| open_vars(l, r).len() < open_vars(ls, rs).len()
    ||| open_vars(l, r).len() == open_vars(ls, rs).len() && Tree::size_of(l) + Tree::size_of(r)
        < Tree::size_of(ls) + Tree::size_of(rs)
}

/// True when `v` occurs in `t`.
pub fn has_var(t: &Ty, v: TyVarId) -> (r: bool)
    ensures
        r == t@.vars().contains(v),
    decreases t,
{
    proof {
        vars_of_member(t@.kids(), v);
    }
    match t {
        Ty::Var(w) => {
            assert(t@.vars()[0] == *w);
            assert(t@.vars().contains(v) ==> t@.vars()[0] == v);
            *w == v
        },
        Ty::Con(_) => false,
        Ty::App(head, args) => {
            proof {
                tree::app_shape(*head, *args);
                vars_of_member(args.deep_view(), v);
                assert(t@.kids()[0] == head@);
                assert(forall|i: int|
                    0 <= i < args.len() ==> #[trigger] args.deep_view()[i] == t@.kids()[i + 1]);
                assert(forall|i: int|
                    0 < i < t@.kids().len() ==> #[trigger] t@.kids()[i] == args.deep_view()[i - 1]);
            }
            has_var(head, v) || any_has_var(args, v)
        },
        Ty::Fun(param, result) => {
            assert(t@.kids()[0] == param@ && t@.kids()[1] == result@);
            has_var(param, v) || has_var(result, v)
        },
        Ty::List(element) => {
            assert(t@.kids()[0] == element@);
            has_var(element, v)
        },
        Ty::Sum { variants, .. } => {
            let ghost trees = tree::trees_of(variants.deep_view());
            let mut i: usize = 0;
            while i < variants.len()
                invariant
                    i <= variants.len(),
                    trees == tree::trees_of(variants.deep_view()),
                    forall|j: int| 0 <= j < i ==> !(#[trigger] trees[j]).vars().contains(v),
                    *t matches Ty::Sum { variants: vs, .. } && vs == *variants,
                    trees == t@.kids(),
                    t@.vars() == Tree::vars_of(t@.kids()),
                    Tree::vars_of(t@.kids()).contains(v) <==> exists|i: int|
                        0 <= i < t@.kids().len() && (#[trigger] t@.kids()[i]).vars().contains(v),
                decreases variants.len() - i,
            {
                assert(trees[i as int] == variants@[i as int].1@);
                if payload_has_var(&variants[i].1, v) {
                    return true;
                }
                i += 1;
            }
            false
        },
        Ty::Constructor { owner, .. } => {
            assert(t@.kids()[0] == owner@);
            has_var(owner, v)
        },
        Ty::Tuple(items) => any_has_var(items, v),
        Ty::Array { element, .. } => {
            assert(t@.kids()[0] == element@);
            has_var(element, v)
        },
        Ty::Record { fields } => any_field_has_var(fields, v),
        Ty::Existential { .. } => false,
        Ty::Forall { bounds, constraints, body } => {
            proof {
                tree::forall_shape(*bounds, *constraints, *body);
                vars_of_concat(constraints.deep_view(), seq![body@]);
                one_tree(body@);
                assert(t@.kids() =~= constraints.deep_view() + seq![body@]);
                contains_concat(Tree::vars_of(constraints.deep_view()), body@.vars(), v);
            }
            any_constraint_has_var(constraints, v) || has_var(body, v)
        },
    }
}

fn any_has_var(x: &Vec<Ty>, v: TyVarId) -> (r: bool)
    ensures
        r == Tree::vars_of(x.deep_view()).contains(v),
    decreases x,
{
    proof {
        vars_of_member(x.deep_view(), v);
    }
    let mut i: usize = 0;
    while i < x.len()
        invariant
            i <= x.len(),
            forall|j: int| 0 <= j < i ==> !(#[trigger] x.deep_view()[j]).vars().contains(v),
            Tree::vars_of(x.deep_view()).contains(v) <==> exists|i: int|
                0 <= i < x.deep_view().len() && (#[trigger] x.deep_view()[i]).vars().contains(v),
        decreases x.len() - i,
    {
        assert(x.deep_view()[i as int] == x@[i as int]@);
        if has_var(&x[i], v) {
            return true;
        }
        i += 1;
    }
    false
}

fn any_field_has_var(x: &Vec<(String, Ty)>, v: TyVarId) -> (r: bool)
    ensures
        r == Tree::vars_of(tree::trees_of(x.deep_view())).contains(v),
    decreases x,
{
    let ghost trees = tree::trees_of(x.deep_view());
    proof {
        vars_of_member(trees, v);
    }
    let mut i: usize = 0;
    while i < x.len()
        invariant
            i <= x.len(),
            trees == tree::trees_of(x.deep_view()),
            forall|j: int| 0 <= j < i ==> !(#[trigger] trees[j]).vars().contains(v),
            Tree::vars_of(trees).contains(v) <==> exists|i: int|
                0 <= i < trees.len() && (#[trigger] trees[i]).vars().contains(v),
        decreases x.len() - i,
    {
        assert(trees[i as int] == x@[i as int].1@);
        if has_var(&x[i].1, v) {
            return true;
        }
        i += 1;
    }
    false
}

fn any_constraint_has_var(x: &Vec<Constraint>, v: TyVarId) -> (r: bool)
    ensures
        r == Tree::vars_of(x.deep_view()).contains(v),
    decreases x,
{
    proof {
        vars_of_member(x.deep_view(), v);
    }
    let mut i: usize = 0;
    while i < x.len()
        invariant
            i <= x.len(),
            forall|j: int| 0 <= j < i ==> !(#[trigger] x.deep_view()[j]).vars().contains(v),
            Tree::vars_of(x.deep_view()).contains(v) <==> exists|i: int|
                0 <= i < x.deep_view().len() && (#[trigger] x.deep_view()[i]).vars().contains(v),
        decreases x.len() - i,
    {
        assert(x.deep_view()[i as int] == x@[i as int]@);
        if any_has_var(&x[i].args, v) {
            return true;
        }
        i += 1;
    }
    false
}

fn payload_has_var(p: &EnumVariantPayloadTy, v: TyVarId) -> (r: bool)
    ensures
        r == p@.vars().contains(v),
    decreases p,
{
    match p {
        EnumVariantPayloadTy::Unit => false,
        EnumVariantPayloadTy::Tuple(items) => any_has_var(items, v),
        EnumVariantPayloadTy::Record(fields) => any_field_has_var(fields, v),
    }
}

/// The types of a list of named types, in order.
pub fn field_types(fields: &Vec<(String, Ty)>) -> (r: Vec<Ty>)
    ensures
        r.deep_view() == tree::trees_of(fields.deep_view()),
{
    let mut r: Vec<Ty> = Vec::new();
    let mut i: usize = 0;
    while i < fields.len()
        invariant
            i <= fields.len(),
            r.deep_view() == tree::trees_of(fields.deep_view()).take(i as int),
        decreases fields.len() - i,
    {
        let ghost before = r.deep_view();
        let x = fields[i].1.clone();
        r.push(x);
        i += 1;
        assert(r.deep_view() =~= before.push(x@));
        assert(r.deep_view() =~= tree::trees_of(fields.deep_view()).take(i as int));
    }
    assert(r.deep_view() =~= tree::trees_of(fields.deep_view()));
    r
}

/// The types that a payload carries, in order.
pub fn payload_types(p: &EnumVariantPayloadTy) -> (r: Vec<Ty>)
    ensures
        r.deep_view() == p@.kids(),
{
    match p {
        EnumVariantPayloadTy::Unit => {
            let r: Vec<Ty> = Vec::new();
            assert(r.deep_view() =~= p@.kids());
            r
        },
        EnumVariantPayloadTy::Tuple(items) => copy_tys(items),
        EnumVariantPayloadTy::Record(fields) => field_types(fields),
    }
}

fn one_ty(t: Ty) -> (r: Vec<Ty>)
    ensures
        r.deep_view() == seq![t@],
{
    let mut r: Vec<Ty> = Vec::new();
    r.push(t);
    assert(r.deep_view() =~= seq![t@]);
    r
}

fn two_tys(t: Ty, u: Ty) -> (r: Vec<Ty>)
    ensures
        r.deep_view() == seq![t@, u@],
{
    let mut r: Vec<Ty> = Vec::new();
    r.push(t);
    r.push(u);
    assert(r.deep_view() =~= seq![t@, u@]);
    r
}

fn ty_parts(t: &Ty) -> (r: Vec<Ty>)
    requires
        t@ is Node,
    ensures
        r.deep_view() == parts(t@),
{
    match t {
        Ty::App(head, args) => {
            let mut r = one_ty((**head).clone());
            let mut rest = copy_tys(args);
            let ghost first = r.deep_view();
            let ghost second = rest.deep_view();
            r.append(&mut rest);
            proof {
                tree::app_shape(*head, *args);
                assert(r.deep_view() =~= first + second);
            }
            r
        },
        Ty::Fun(param, result) => two_tys((**param).clone(), (**result).clone()),
        Ty::List(element) => one_ty((**element).clone()),
        Ty::Sum { variants, .. } => {
            let ghost trees = tree::trees_of(variants.deep_view());
            let mut r: Vec<Ty> = Vec::new();
            let mut i: usize = 0;
            assert(r.deep_view() =~= flat(trees.take(0)));
            while i < variants.len()
                invariant
                    i <= variants.len(),
                    trees == tree::trees_of(variants.deep_view()),
                    r.deep_view() == flat(trees.take(i as int)),
                decreases variants.len() - i,
            {
                let ghost before = r.deep_view();
                let mut more = payload_types(&variants[i].1);
                let ghost added = more.deep_view();
                r.append(&mut more);
                proof {
                    assert(r.deep_view() =~= before + added);
                    let next = trees.take(i + 1);
                    assert(next.drop_last() =~= trees.take(i as int));
                    assert(next.last() == variants@[i as int].1@);
                }
                i += 1;
            }
            assert(trees.take(trees.len() as int) =~= trees);
            r
        },
        Ty::Constructor { owner, .. } => one_ty((**owner).clone()),
        Ty::Tuple(items) => copy_tys(items),
        Ty::Array { element, .. } => one_ty((**element).clone()),
        Ty::Record { fields } => field_types(fields),
        Ty::Forall { bounds, constraints, body } => {
            assert(t@.kids().last() == body@);
            one_ty((**body).clone())
        },
        _ => {
            let r: Vec<Ty> = Vec::new();
            assert(r.deep_view() =~= t@.kids());
            r
        },
    }
}

fn same_names(a: &Vec<(String, Ty)>, b: &Vec<(String, Ty)>) -> (r: bool)
    ensures
        r == (tree::names_of(a.deep_view()) == tree::names_of(b.deep_view())),
{
    let ghost x = tree::names_of(a.deep_view());
    let ghost y = tree::names_of(b.deep_view());
    if a.len() != b.len() {
        assert(x.len() != y.len());
        return false;
    }
    let mut i: usize = 0;
    while i < a.len()
        invariant
            i <= a.len(),
            a.len() == b.len(),
            x == tree::names_of(a.deep_view()),
            y == tree::names_of(b.deep_view()),
            forall|j: int| 0 <= j < i ==> x[j] == y[j],
        decreases a.len() - i,
    {
        assert(x[i as int] == a@[i as int].0@ && y[i as int] == b@[i as int].0@);
        if !same_text(a[i].0.as_str(), b[i].0.as_str()) {
            return false;
        }
        i += 1;
    }
    assert(x =~= y);
    true
}

fn same_variant_names(
    a: &Vec<(String, EnumVariantPayloadTy)>,
    b: &Vec<(String, EnumVariantPayloadTy)>,
) -> (r: bool)
    ensures
        r == (tree::names_of(a.deep_view()) == tree::names_of(b.deep_view())),
{
    let ghost x = tree::names_of(a.deep_view());
    let ghost y = tree::names_of(b.deep_view());
    if a.len() != b.len() {
        assert(x.len() != y.len());
        return false;
    }
    let mut i: usize = 0;
    while i < a.len()
        invariant
            i <= a.len(),
            a.len() == b.len(),
            x == tree::names_of(a.deep_view()),
            y == tree::names_of(b.deep_view()),
            forall|j: int| 0 <= j < i ==> x[j] == y[j],
        decreases a.len() - i,
    {
        assert(x[i as int] == a@[i as int].0@ && y[i as int] == b@[i as int].0@);
        if !same_text(a[i].0.as_str(), b[i].0.as_str()) {
            return false;
        }
        i += 1;
    }
    assert(x =~= y);
    true
}

fn payload_shapes_match(a: &EnumVariantPayloadTy, b: &EnumVariantPayloadTy) -> (r: bool)
    ensures
        r == (a@.head() == b@.head() && a@.kids().len() == b@.kids().len()),
{
    match (a, b) {
        (EnumVariantPayloadTy::Unit, EnumVariantPayloadTy::Unit) => true,
        (EnumVariantPayloadTy::Tuple(x), EnumVariantPayloadTy::Tuple(y)) => x.len() == y.len(),
        (EnumVariantPayloadTy::Record(x), EnumVariantPayloadTy::Record(y)) => same_names(x, y)
            && x.len() == y.len(),
        _ => false,
    }
}

fn variant_shapes_match(
    a: &Vec<(String, EnumVariantPayloadTy)>,
    b: &Vec<(String, EnumVariantPayloadTy)>,
) -> (r: bool)
    ensures
        r == payloads_match(tree::trees_of(a.deep_view()), tree::trees_of(b.deep_view())),
{
    let ghost x = tree::trees_of(a.deep_view());
    let ghost y = tree::trees_of(b.deep_view());
    if a.len() != b.len() {
        return false;
    }
    let mut i: usize = 0;
    while i < a.len()
        invariant
            i <= a.len(),
            a.len() == b.len(),
            x == tree::trees_of(a.deep_view()),
            y == tree::trees_of(b.deep_view()),
            forall|j: int|
                0 <= j < i ==> (#[trigger] x[j]).head() == y[j].head() && x[j].kids().len()
                    == y[j].kids().len(),
        decreases a.len() - i,
    {
        assert(x[i as int] == a@[i as int].1@ && y[i as int] == b@[i as int].1@);
        if !payload_shapes_match(&a[i].1, &b[i].1) {
            return false;
        }
        i += 1;
    }
    true
}

fn same_preds(a: &Vec<Constraint>, b: &Vec<Constraint>) -> (r: bool)
    ensures
        r == (a.deep_view() == b.deep_view()),
{
    if a.len() != b.len() {
        assert(a.deep_view().len() != b.deep_view().len());
        return false;
    }
    let mut i: usize = 0;
    while i < a.len()
        invariant
            i <= a.len(),
            a.len() == b.len(),
            forall|j: int| 0 <= j < i ==> a.deep_view()[j] == b.deep_view()[j],
        decreases a.len() - i,
    {
        if !crate::ty::same_constraint(&a[i], &b[i]) {
            assert(a.deep_view()[i as int] != b.deep_view()[i as int]);
            return false;
        }
        i += 1;
    }
    assert(a.deep_view() =~= b.deep_view());
    true
}

fn shapes_match(a: &Ty, b: &Ty) -> (r: bool)
    ensures
        r == same_shape(a@, b@),
{
    match (a, b) {
        (Ty::Con(x), Ty::Con(y)) => same_text(x.as_str(), y.as_str()),
        (Ty::App(_, x), Ty::App(_, y)) => x.len() == y.len(),
        (Ty::Fun(_, _), Ty::Fun(_, _)) => true,
        (Ty::List(_), Ty::List(_)) => true,
        (Ty::Sum { name: n, variants: x }, Ty::Sum { name: m, variants: y }) => {
            same_text(n.as_str(), m.as_str()) && same_variant_names(x, y) && variant_shapes_match(
                x,
                y,
            )
        },
        (
            Ty::Constructor { tag: s, arity: x, .. },
            Ty::Constructor { tag: t, arity: y, .. },
        ) => *s == *t && *x == *y,
        (Ty::Tuple(x), Ty::Tuple(y)) => x.len() == y.len(),
        (Ty::Array { length: m, .. }, Ty::Array { length: n, .. }) => {
            *m == *n || *m == ArrayLength::Dynamic || *n == ArrayLength::Dynamic
        },
        (Ty::Record { fields: x }, Ty::Record { fields: y }) => same_names(x, y) && x.len()
            == y.len(),
        (Ty::Existential { class: x }, Ty::Existential { class: y }) => same_text(
            x.as_str(),
            y.as_str(),
        ),
        (
            Ty::Forall { bounds: v, constraints: x, .. },
            Ty::Forall { bounds: w, constraints: y, .. },
        ) => {
            proof {
                assert(a@.kids().drop_last() == x.deep_view());
                assert(b@.kids().drop_last() == y.deep_view());
            }
            same_vars(v, w) && same_preds(x, y)
        },
        _ => false,
    }
}

/// An enum written by its name.
pub fn to_nominal(t: &Ty) -> (r: Ty)
    ensures
        r@ == nominal(t@),
{
    match t {
        Ty::Sum { name, variants } => {
            let n = name.as_str();
            if same_text(n, "Option") && variants.len() == 2 {
                assert(t@.kids()[1] == variants@[1].1@);
                let some = payload_types(&variants[1].1);
                if some.len() == 1 {
                    let head = Box::new(Ty::Con(name.clone()));
                    proof {
                        assert(some.deep_view() =~= seq![t@.kids()[1].kids()[0]]);
                        tree::app_shape(head, some);
                    }
                    return Ty::App(head, some);
                }
                return Ty::Con(name.clone());
            }
            if same_text(n, "Result") && variants.len() == 2 {
                assert(t@.kids()[0] == variants@[0].1@);
                assert(t@.kids()[1] == variants@[1].1@);
                let mut ok = payload_types(&variants[0].1);
                let mut err = payload_types(&variants[1].1);
                if ok.len() == 1 && err.len() == 1 {
                    let head = Box::new(Ty::Con(name.clone()));
                    let ghost x = ok.deep_view();
                    let ghost y = err.deep_view();
                    ok.append(&mut err);
                    proof {
                        assert(ok.deep_view() =~= seq![x[0], y[0]]);
                        tree::app_shape(head, ok);
                    }
                    return Ty::App(head, ok);
                }
                return Ty::Con(name.clone());
            }
            Ty::Con(name.clone())
        },
        _ => t.clone(),
    }
}

/// Append `more` to `out`, last type first.
fn push_reversed(out: &mut Vec<Ty>, more: &Vec<Ty>)
    ensures
        final(out).deep_view() == old(out).deep_view() + more.deep_view().reverse(),
{
    let ghost start = out.deep_view();
    let ghost back = more.deep_view().reverse();
    let mut i: usize = more.len();
    assert(start + back.take(0) =~= start);
    while i > 0
        invariant
            i <= more.len(),
            back == more.deep_view().reverse(),
            out.deep_view() == start + back.take(more.len() - i),
        decreases i,
    {
        i -= 1;
        let ghost before = out.deep_view();
        let x = more[i].clone();
        out.push(x);
        proof {
            assert(out.deep_view() =~= before.push(x@));
            let k = more.len() - i;
            assert(back[k - 1] == more.deep_view()[i as int]);
            assert(start + back.take(k) =~= (start + back.take(k - 1)).push(back[k - 1]));
        }
    }
    assert(back.take(more.len() as int) =~= back);
}

/// Solve a problem, last pair first.
fn solve(ls: Vec<Ty>, rs: Vec<Ty>) -> (r: Result<Subst, UnifyError>)
    ensures
        match r {
            Ok(s) => solution(ls.deep_view(), rs.deep_view()) == Ok::<
                Map<TyVarId, Tree>,
                UnifyFault,
            >(s@),
            Err(e) => solution(ls.deep_view(), rs.deep_view()) == Err::<
                Map<TyVarId, Tree>,
                UnifyFault,
            >(e@),
        },
    decreases
        open_vars(ls.deep_view(), rs.deep_view()).len(),
        Tree::size_of(ls.deep_view()) + Tree::size_of(rs.deep_view()),
        1int,
{
    if ls.len() == 0 || rs.len() == 0 {
        return Ok(Subst::empty());
    }
    let mut l = ls;
    let mut r = rs;
    let ghost lv = l.deep_view();
    let ghost rv = r.deep_view();
    proof {
        step_shrinks(lv, rv);
    }
    let a = match l.pop() {
        Some(t) => t,
        None => {
            return Ok(Subst::empty());
        },
    };
    let b = match r.pop() {
        Some(t) => t,
        None => {
            return Ok(Subst::empty());
        },
    };
    assert(l.deep_view() =~= lv.drop_last());
    assert(r.deep_view() =~= rv.drop_last());
    assert(lv.last() == a@ && rv.last() == b@);
    if same_ty(&a, &b) {
        return solve(l, r);
    }
    if let Ty::Var(v) = a {
        if has_var(&b, v) {
            return Err(UnifyError::Occurs { var: v, ty: b });
        }
        return solve_bound(l, r, v, b, Ghost(lv), Ghost(rv));
    }
    if let Ty::Var(v) = b {
        if has_var(&a, v) {
            return Err(UnifyError::Occurs { var: v, ty: a });
        }
        return solve_bound(l, r, v, a, Ghost(lv), Ghost(rv));
    }
    if shapes_match(&a, &b) {
        let x = ty_parts(&a);
        let y = ty_parts(&b);
        push_reversed(&mut l, &x);
        push_reversed(&mut r, &y);
        return solve(l, r);
    }
    if let Ty::Constructor { owner: p, .. } = &a {
        if let Ty::Constructor { .. } = &b {
            return Err(UnifyError::Mismatch { left: a, right: b });
        }
        let x = one_ty((**p).clone());
        let y = one_ty(b);
        push_reversed(&mut l, &x);
        push_reversed(&mut r, &y);
        return solve(l, r);
    }
    if let Ty::Constructor { owner: q, .. } = &b {
        let y = one_ty((**q).clone());
        let x = one_ty(a);
        push_reversed(&mut l, &x);
        push_reversed(&mut r, &y);
        return solve(l, r);
    }
    let n = to_nominal(&a);
    let m = to_nominal(&b);
    if shapes_match(&n, &m) {
        proof {
            if !(a@.head() is Sum) && !(b@.head() is Sum) {
                assert(false);
            }
            assert(!(n@.head() is Sum) && !(n@.head() is Forall));
        }
        let x = ty_parts(&n);
        let y = ty_parts(&m);
        push_reversed(&mut l, &x);
        push_reversed(&mut r, &y);
        return solve(l, r);
    }
    Err(UnifyError::Mismatch { left: a, right: b })
}

/// Solve the rest of a problem after `v` was bound to `t`.
fn solve_bound(
    l: Vec<Ty>,
    r: Vec<Ty>,
    v: TyVarId,
    t: Ty,
    Ghost(lv): Ghost<Seq<Tree>>,
    Ghost(rv): Ghost<Seq<Tree>>,
) -> (res: Result<Subst, UnifyError>)
    requires
        lv.len() > 0,
        rv.len() > 0,
        l.deep_view() == lv.drop_last(),
        r.deep_view() == rv.drop_last(),
        step(lv.last(), rv.last()) == Step::Bind(v, t@),
    ensures
        match res {
            Ok(s) => solution(lv, rv) == Ok::<Map<TyVarId, Tree>, UnifyFault>(s@),
            Err(e) => solution(lv, rv) == Err::<Map<TyVarId, Tree>, UnifyFault>(e@),
        },
    decreases open_vars(lv, rv).len(), Tree::size_of(lv) + Tree::size_of(rv), 0int,
{
    let mut d = Subst::empty();
    d.insert(v, t);
    let l2 = apply_tys(&d, &l);
    let r2 = apply_tys(&d, &r);
    proof {
        step_shrinks(lv, rv);
    }
    match solve(l2, r2) {
        Ok(e) => Ok(compose(&e, &d)),
        Err(e) => Err(e),
    }
}

/// Unify `a` and `b` under `s`. The result extends `s`.
pub fn unify_with(s: &Subst, a: &Ty, b: &Ty) -> (r: Result<Subst, UnifyError>)
    ensures
        match r {
            Ok(u) => unified(s@, a@, b@) == Ok::<Map<TyVarId, Tree>, UnifyFault>(u@),
            Err(e) => unified(s@, a@, b@) == Err::<Map<TyVarId, Tree>, UnifyFault>(e@),
        },
{
    let x = one_ty(apply_ty(s, a));
    let y = one_ty(apply_ty(s, b));
    match solve(x, y) {
        Ok(d) => Ok(compose(&d, s)),
        Err(e) => Err(e),
    }
}

} // verus!
