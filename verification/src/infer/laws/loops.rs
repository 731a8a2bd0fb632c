//! What a `for .. in` loop runs over.
use crate::generics::InstV;
use crate::id::NodeId;
use crate::infer::forin;
use crate::infer::{CheckerV, ForInV};
use crate::report::{ErrorCode, Span};
use crate::tree::{ArrayLength, Head, Tree};
use crate::ty::TyVarId;
use crate::{soundness, subst, unify};
use vstd::prelude::*;

verus! {

/// Adding nothing to a substitution.
proof fn nothing_added(s: Map<TyVarId, Tree>)
    ensures
        subst::composed(Map::empty(), s) == s,
{
    assert forall|v: TyVarId| s.contains_key(v) implies #[trigger] s[v].subst(Map::empty())
        == s[v] by {
        soundness::strangers_stay(s[v], Map::empty());
    }
    assert(subst::composed(Map::empty(), s) =~= s);
}

/// A settled substitution, done twice.
proof fn settled_twice(s: Map<TyVarId, Tree>)
    requires
        soundness::settled(s),
    ensures
        subst::composed(s, s) == s,
{
    assert forall|v: TyVarId| s.contains_key(v) implies #[trigger] s[v].subst(s) == s[v] by {
        soundness::resolving_is_final(Tree::Var(v), s);
    }
    assert(subst::composed(s, s) =~= s);
}

/// A type unifies with itself, and nothing is learnt.
proof fn itself(s: Map<TyVarId, Tree>, a: Tree, b: Tree)
    requires
        a.subst(s) == b.subst(s),
    ensures
        unify::unified(s, a, b) == Ok::<Map<TyVarId, Tree>, unify::UnifyFault>(s),
{
    let l = seq![a.subst(s)];
    assert(unify::step(l.last(), l.last()) is Skip);
    assert(l.drop_last() =~= Seq::empty());
    assert(unify::solution(l, l) == unify::solution(l.drop_last(), l.drop_last()));
    nothing_added(s);
}

proof fn no_odd_one(s: Map<TyVarId, Tree>, t: Tree, ts: Seq<Tree>, at: nat)
    requires
        soundness::settled(s),
        forall|i: int| 0 <= i < ts.len() ==> #[trigger] ts[i] == t,
    ensures
        forin::odd_one(s, t.subst(s), ts, at) is None,
        forin::gathered(s, t.subst(s), ts, at) == s,
    decreases ts.len() - at,
{
    if at < ts.len() {
        soundness::resolving_is_final(t, s);
        itself(s, t.subst(s), ts[at as int].subst(s));
        itself(s, t.subst(s), ts[at as int]);
        no_odd_one(s, t, ts, at + 1);
    }
}

proof fn an_odd_one(s: Map<TyVarId, Tree>, first: Tree, ts: Seq<Tree>, at: nat, i: int)
    requires
        at <= i < ts.len(),
        unify::unified(s, first, ts[i].subst(s)) is Err,
    ensures
        forin::odd_one(s, first, ts, at) is Some,
    decreases ts.len() - at,
{
    if at < i {
        an_odd_one(s, first, ts, at + 1, i);
    }
}

/// The items of a record whose fields all have type `t` are pairs: first the
/// name, a string, then the value, of type `t`.
pub proof fn records_give_names_and_values(
    c: CheckerV,
    names: Seq<Seq<char>>,
    kids: Seq<Tree>,
    t: Tree,
    range: Span,
)
    requires
        soundness::settled(c.subst),
        kids.len() > 0,
        forall|i: int| 0 <= i < kids.len() ==> #[trigger] kids[i] == t,
    ensures
        c.builtin_for_in_kind(Tree::Node(Head::Record(names), kids), range) == (
            c,
            Some(
                (
                    Tree::Node(
                        Head::Tuple,
                        seq![
                            Tree::Node(Head::Con("string"@), Seq::empty()),
                            t.subst(c.subst),
                        ],
                    ),
                    ForInV::Dict,
                ),
            ),
        ),
{
    no_odd_one(c.subst, t, kids, 1);
    settled_twice(c.subst);
    soundness::resolving_is_final(t, c.subst);
}

/// The items of an empty record are pairs of a string and a new variable.
pub proof fn empty_records_give_open_values(c: CheckerV, names: Seq<Seq<char>>, range: Span)
    ensures
        c.builtin_for_in_kind(Tree::Node(Head::Record(names), Seq::empty()), range).1 == Some(
            (
                Tree::Node(
                    Head::Tuple,
                    seq![
                        Tree::Node(Head::Con("string"@), Seq::empty()),
                        Tree::Var(TyVarId(c.counter)),
                    ],
                ),
                ForInV::Dict,
            ),
        ),
        c.builtin_for_in_kind(Tree::Node(Head::Record(names), Seq::empty()), range).0.messages
            == c.messages,
{
}

/// The items of a tuple whose parts all have type `t` have type `t`, and there
/// are as many as there are parts.
pub proof fn tuples_give_their_parts(c: CheckerV, kids: Seq<Tree>, t: Tree, range: Span)
    requires
        soundness::settled(c.subst),
        0 < kids.len() <= usize::MAX,
        forall|i: int| 0 <= i < kids.len() ==> #[trigger] kids[i] == t,
    ensures
        c.builtin_for_in_kind(Tree::Node(Head::Tuple, kids), range) == (
            c,
            Some((t.subst(c.subst), ForInV::Tuple(kids.len() as usize))),
        ),
{
    no_odd_one(c.subst, t, kids, 1);
    settled_twice(c.subst);
    soundness::resolving_is_final(t, c.subst);
}

/// A tuple or record one of whose parts does not fit the first is not run over:
/// it is reported, where the loop names it.
pub proof fn mixed_parts_are_refused(
    c: CheckerV,
    head: Head,
    kids: Seq<Tree>,
    range: Span,
    i: int,
)
    requires
        head is Tuple || head is Record,
        0 < i < kids.len(),
        unify::unified(c.subst, kids[0].subst(c.subst), kids[i].subst(c.subst)) is Err,
    ensures
        c.builtin_for_in_kind(Tree::Node(head, kids), range).1 is None,
        c.builtin_for_in_kind(Tree::Node(head, kids), range).0.messages.len() == c.messages.len()
            + 1,
        c.builtin_for_in_kind(Tree::Node(head, kids), range).0.messages.last().code
            == ErrorCode::GenericTypeError,
        c.builtin_for_in_kind(Tree::Node(head, kids), range).0.messages.last().range == range,
{
    an_odd_one(c.subst, c.resolve(kids[0]), kids, 1, i);
}

/// The items of an array have the type of its elements, whatever its length; a
/// coroutine gives what it yields. Nothing else is learnt or said.
pub proof fn arrays_and_coroutines_give_their_items(
    c: CheckerV,
    length: ArrayLength,
    item: Tree,
    sent: Tree,
    range: Span,
)
    ensures
        c.builtin_for_in_kind(Tree::Node(Head::Array(length), seq![item]), range) == (
            c,
            Some((item, ForInV::Array)),
        ),
        c.builtin_for_in_kind(
            Tree::Node(
                Head::App,
                seq![Tree::Node(Head::Con("coroutine"@), Seq::empty()), item, sent],
            ),
            range,
        ) == (c, Some((item, ForInV::Coroutine))),
{
}

/// No other type can be run over without an instance of the iterator classes.
pub proof fn other_types_have_no_items(c: CheckerV, t: Tree, range: Span)
    requires
        match t {
            Tree::Var(_) => true,
            Tree::Node(Head::Array(_), _) => false,
            Tree::Node(Head::Tuple, _) => false,
            Tree::Node(Head::Record(_), _) => false,
            Tree::Node(Head::App, kids) => kids.len() != 3 || kids[0] != Tree::Node(
                Head::Con("coroutine"@),
                Seq::empty(),
            ),
            Tree::Node(_, _) => true,
        },
    ensures
        c.builtin_for_in_kind(t, range) == (c, None::<(Tree, ForInV)>),
{
}

/// What a loop runs over is recorded under its node and its place, and its items
/// are those of the type.
pub proof fn loops_are_recorded(
    c: CheckerV,
    t: Tree,
    id: NodeId,
    range: Span,
    loop_range: Span,
)
    requires
        c.builtin_for_in_kind(t, range).1 is Some,
    ensures
        c.resolve_for_in_iterable(t, Some(id), range, loop_range).1 == Some(
            c.builtin_for_in_kind(t, range).1.unwrap().0,
        ),
        c.resolve_for_in_iterable(t, Some(id), range, loop_range).0.messages
            == c.builtin_for_in_kind(t, range).0.messages,
        c.resolve_for_in_iterable(t, Some(id), range, loop_range).0.out.for_in.contains_key(id),
        c.resolve_for_in_iterable(t, Some(id), range, loop_range).0.out.for_in[id]
            == c.builtin_for_in_kind(t, range).1.unwrap().1,
        c.resolve_for_in_iterable(t, Some(id), range, loop_range).0.out.for_in_by_span.contains_key(
            loop_range,
        ),
        c.resolve_for_in_iterable(t, Some(id), range, loop_range).0.out.for_in_by_span[loop_range]
            == c.builtin_for_in_kind(t, range).1.unwrap().1,
{
}

/// A type that says itself how it is run over gives the items that its instance
/// names, which have to be those of its iterator, and the loop is recorded with
/// the code of both instances.
pub proof fn own_iterators_give_their_items(
    c: CheckerV,
    t: Tree,
    into: InstV,
    iter: InstV,
    b: CheckerV,
    id: NodeId,
    range: Span,
    loop_range: Span,
)
    requires
        into.assoc_tys.contains_key("Item"@),
        into.assoc_tys.contains_key("IntoIter"@),
        into.method_fqns.contains_key("into_iter"@),
        iter.assoc_tys.contains_key("Item"@),
        iter.method_fqns.contains_key("next"@),
        c.find_unique_instance("Iterator"@, seq![into.assoc_tys["IntoIter"@].ty], range) == (
            b,
            Ok::<Option<InstV>, ()>(Some(iter)),
        ),
    ensures
        ({
            let (d, r) = c.custom_for_in(t, into, Some(id), range, loop_range);
            let item = into.assoc_tys["Item"@].ty;
            let code = ForInV::Custom(
                into.method_fqns["into_iter"@],
                iter.method_fqns["next"@],
            );
            &&& r == Some(item.subst(d.subst))
            &&& d.out.for_in.contains_key(id) && d.out.for_in[id] == code
            &&& d.out.for_in_by_span.contains_key(loop_range) && d.out.for_in_by_span[loop_range]
                == code
            &&& unify::unified(b.subst, item, iter.assoc_tys["Item"@].ty) matches Ok(s)
                ==> d.subst == s && d.messages == b.messages
            &&& unify::unified(b.subst, item, iter.assoc_tys["Item"@].ty) is Err
                ==> d.messages.len() == b.messages.len() + 1
        }),
{
}

} // verus!
