//! Which types unify.
use crate::{soundness, subst};
use crate::tree::{self, ArrayLength, Head, Tree};
use crate::ty::TyVarId;
use crate::unify::{self, UnifyFault};
use vstd::prelude::*;

verus! {

/// The two heads are for one form: equal, or arrays of which one has an open
/// length.
pub open spec fn one_form(g: Head, h: Head) -> bool {
    ||| g == h
    ||| match (g, h) {
        (Head::Array(m), Head::Array(n)) => m is Dynamic || n is Dynamic,
        _ => false,
    }
}

/// The two types do not match.
pub open spec fn mismatched(s: Map<TyVarId, Tree>, a: Tree, b: Tree) -> bool {
    unify::unified(s, a, b) matches Err(UnifyFault::Mismatch(_, _))
}

/// Types of different forms do not unify, whatever is known of their variables:
/// different names, different numbers of parts, different field names, fixed
/// lengths that differ, a function and no function. Enums and their variants are
/// looked at apart.
pub proof fn different_forms_do_not_unify(
    s: Map<TyVarId, Tree>,
    g: Head,
    x: Seq<Tree>,
    h: Head,
    y: Seq<Tree>,
)
    requires
        !(g is Sum || g is Constructor || h is Sum || h is Constructor),
        !one_form(g, h) || x.len() != y.len(),
    ensures
        mismatched(s, Tree::Node(g, x), Tree::Node(h, y)),
{
    let a = Tree::Node(g, x);
    let b = Tree::Node(h, y);
    tree::rewrite_node(g, x, s, Map::empty());
    tree::rewrite_node(h, y, s, Map::empty());
    let p = a.subst(s);
    let q = b.subst(s);
    assert(p is Node && p.head() == g && p.kids().len() == x.len());
    assert(q is Node && q.head() == h && q.kids().len() == y.len());
    let l = seq![p];
    let r = seq![q];
    assert(unify::step(l.last(), r.last()) is Fail);
}

/// Two arrays of different fixed lengths do not unify.
pub proof fn different_lengths_do_not_unify(
    s: Map<TyVarId, Tree>,
    m: usize,
    n: usize,
    t: Tree,
    u: Tree,
)
    requires
        m != n,
    ensures
        mismatched(
            s,
            Tree::Node(Head::Array(ArrayLength::Static(m)), seq![t]),
            Tree::Node(Head::Array(ArrayLength::Static(n)), seq![u]),
        ),
{
    different_forms_do_not_unify(
        s,
        Head::Array(ArrayLength::Static(m)),
        seq![t],
        Head::Array(ArrayLength::Static(n)),
        seq![u],
    );
}

/// Values that are known to be of different variants do not unify.
pub proof fn different_variants_do_not_unify(
    s: Map<TyVarId, Tree>,
    tag: u32,
    arity: usize,
    other: u32,
    other_arity: usize,
    owner: Tree,
    second: Tree,
)
    requires
        tag != other || arity != other_arity,
    ensures
        mismatched(
            s,
            Tree::Node(Head::Constructor(tag, arity), seq![owner]),
            Tree::Node(Head::Constructor(other, other_arity), seq![second]),
        ),
{
    tree::rewrite_node(Head::Constructor(tag, arity), seq![owner], s, Map::empty());
    tree::rewrite_node(Head::Constructor(other, other_arity), seq![second], s, Map::empty());
    let p = Tree::Node(Head::Constructor(tag, arity), seq![owner]).subst(s);
    let q = Tree::Node(Head::Constructor(other, other_arity), seq![second]).subst(s);
    let l = seq![p];
    let r = seq![q];
    assert(unify::step(l.last(), r.last()) is Fail);
}

/// A value of a known variant is a value of its enum, on either side.
pub proof fn variants_unify_with_their_enum(
    s: Map<TyVarId, Tree>,
    tag: u32,
    arity: usize,
    h: Head,
    kids: Seq<Tree>,
)
    requires
        !(h is Constructor),
    ensures
        unify::unified(
            s,
            Tree::Node(Head::Constructor(tag, arity), seq![Tree::Node(h, kids)]),
            Tree::Node(h, kids),
        ) is Ok,
        unify::unified(
            s,
            Tree::Node(h, kids),
            Tree::Node(Head::Constructor(tag, arity), seq![Tree::Node(h, kids)]),
        ) is Ok,
{
    let owner = Tree::Node(h, kids);
    let k = Tree::Node(Head::Constructor(tag, arity), seq![owner]);
    tree::rewrite_node(Head::Constructor(tag, arity), seq![owner], s, Map::empty());
    tree::rewrite_node(h, kids, s, Map::empty());
    let o = owner.subst(s);
    let p = k.subst(s);
    assert(p.kids() =~= seq![o]);
    assert(o is Node && o.head() == h);
    let one = seq![o];
    assert(one.reverse() =~= one);
    assert(seq![p].drop_last() =~= Seq::empty());
    assert(one.drop_last() =~= Seq::empty());
    assert(Seq::<Tree>::empty() + one =~= one);
    assert(unify::solution(one, one) is Ok) by {
        assert(unify::step(one.last(), one.last()) is Skip);
        assert(unify::solution(one, one) == unify::solution(one.drop_last(), one.drop_last()));
    }
    assert(unify::step(p, o) == unify::Step::Split(one, one));
    assert(unify::step(o, p) == unify::Step::Split(one, one));
    assert(unify::solution(seq![p], one) == unify::solution(one, one));
    assert(unify::solution(one, seq![p]) == unify::solution(one, one));
}

/// Types of one form with one part unify just as their parts do.
pub proof fn one_part_types_unify_as_their_parts(
    s: Map<TyVarId, Tree>,
    g: Head,
    h: Head,
    t: Tree,
    u: Tree,
)
    requires
        !(g is Sum || g is Constructor || g is Forall || h is Sum || h is Constructor || h
            is Forall),
        one_form(g, h),
    ensures
        unify::unified(s, Tree::Node(g, seq![t]), Tree::Node(h, seq![u])) is Ok
            <==> unify::unified(s, t, u) is Ok,
{
    tree::rewrite_node(g, seq![t], s, Map::empty());
    tree::rewrite_node(h, seq![u], s, Map::empty());
    let p = Tree::Node(g, seq![t]).subst(s);
    let q = Tree::Node(h, seq![u]).subst(s);
    let a = t.subst(s);
    let b = u.subst(s);
    assert(p.kids() =~= seq![a]);
    assert(q.kids() =~= seq![b]);
    assert(p == Tree::Node(g, seq![a]) && q == Tree::Node(h, seq![b]));
    assert(seq![p].drop_last() =~= Seq::empty());
    assert(seq![q].drop_last() =~= Seq::empty());
    assert(seq![a].reverse() =~= seq![a]);
    assert(seq![b].reverse() =~= seq![b]);
    assert(Seq::<Tree>::empty() + seq![a] =~= seq![a]);
    assert(Seq::<Tree>::empty() + seq![b] =~= seq![b]);
    if p == q {
        assert(a == seq![a][0]);
        assert(b == seq![b][0]);
        assert(seq![a] == p.kids() && seq![b] == q.kids());
        assert(unify::step(a, b) is Skip);
        assert(seq![a].drop_last() =~= Seq::empty());
        assert(unify::solution(seq![a], seq![b]) == unify::solution(
            seq![a].drop_last(),
            seq![b].drop_last(),
        ));
        assert(unify::solution(seq![p], seq![q]) == unify::solution(
            seq![p].drop_last(),
            seq![q].drop_last(),
        ));
    } else {
        assert(unify::step(p, q) == unify::Step::Split(seq![a], seq![b]));
        assert(unify::solution(seq![p], seq![q]) == unify::solution(seq![a], seq![b]));
    }
}

/// An open variable takes any type that does not hold it.
pub proof fn open_variables_take_any_type(s: Map<TyVarId, Tree>, v: TyVarId, t: Tree)
    requires
        !s.contains_key(v),
        !t.subst(s).vars().contains(v),
    ensures
        unify::unified(s, Tree::Var(v), t) matches Ok(u) && u.contains_key(v) && u[v] == t.subst(
            s,
        ),
{
    let x = Tree::Var(v).subst(s);
    let y = t.subst(s);
    assert(x == Tree::Var(v));
    assert(y != x) by {
        if y == x {
            assert(y.vars()[0] == v);
        }
    }
    let l = seq![x];
    let r = seq![y];
    let d = unify::binding(v, y);
    assert(unify::step(l.last(), r.last()) == unify::Step::Bind(v, y));
    assert(subst::subst_all(l.drop_last(), d) =~= Seq::empty());
    assert(subst::subst_all(r.drop_last(), d) =~= Seq::empty());
    let e = Map::<TyVarId, Tree>::empty();
    let none = Seq::<Tree>::empty();
    assert(unify::solution(none, none) == Ok::<Map<TyVarId, Tree>, UnifyFault>(e));
    soundness::strangers_stay(y, e);
    assert(unify::solution(l, r) == Ok::<Map<TyVarId, Tree>, UnifyFault>(subst::composed(e, d)));
    let u = subst::composed(subst::composed(e, d), s);
    assert(d.contains_key(v) && d[v] == y);
    assert(subst::composed(e, d)[v] == y);
    assert(u[v] == y);
}

} // verus!
