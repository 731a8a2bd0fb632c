//! What branches, loops, returns and early exits ask of their parts.
use crate::ast::{Expression, MatchArm, Output};
use crate::env::SchemeV;
use crate::id::NodeId;
use crate::infer::laws::{operators, typing};
use crate::infer::ops::Payload;
use crate::infer::{CheckerV, ForInV, PendingV};
use crate::infer::{enums, properties};
use crate::report::{ErrorCode, Span};
use crate::tree::{ArrayLength, Head, Tree};
use crate::ty::TyVarId;
use crate::unify;
use vstd::prelude::*;

verus! {

/// `Option` of a type, by name.
pub open spec fn option_of(t: Tree) -> Tree {
    Tree::Node(Head::App, seq![typing::named("Option"@), t])
}

/// `Result` of two types, by name.
pub open spec fn result_of(t: Tree, e: Tree) -> Tree {
    Tree::Node(Head::App, seq![typing::named("Result"@), t, e])
}

/// `Option` of a type, written out by its variants.
pub open spec fn option_variants(t: Tree) -> Tree {
    Tree::Node(
        Head::Sum("Option"@, seq!["None"@, "Some"@]),
        seq![
            Tree::Node(Head::UnitPayload, Seq::empty()),
            Tree::Node(Head::TuplePayload, seq![t]),
        ],
    )
}

/// `Result` of two types, written out by its variants.
pub open spec fn result_variants(t: Tree, e: Tree) -> Tree {
    Tree::Node(
        Head::Sum("Result"@, seq!["Ok"@, "Err"@]),
        seq![
            Tree::Node(Head::TuplePayload, seq![t]),
            Tree::Node(Head::TuplePayload, seq![e]),
        ],
    )
}

/// What may be left out is typed where it is there.
pub proof fn optional_parts_are_typed(c: CheckerV, e: Output)
    ensures
        c.infer_opt(Some(e)) == c.infer(e).0,
        c.infer_opt(None) == c,
{
}

/// The loop variable has the type of the items, in a frame of its own.
pub proof fn loop_variables_have_the_items_type(
    c: CheckerV,
    binding: Output,
    name: String,
    iterable: Tree,
    length: ArrayLength,
    item: Tree,
    id: Option<NodeId>,
    place: Span,
    range: Span,
)
    requires
        *binding.expr == Expression::Identifier(name),
        iterable.subst(c.subst) == Tree::Node(Head::Array(length), seq![item]),
    ensures
        ({
            let d = c.open_loop(Some(binding), iterable, id, place, range);
            &&& d.messages == c.messages
            &&& d.subst == c.subst
            &&& d.lookup(name@) == Some(SchemeV::mono(item))
            &&& d.env.len() == c.env.len() + 1
            &&& d.env.drop_last() == c.env
            &&& d.out.var_types.contains_key(name@) && d.out.var_types[name@] == item
            &&& d.out.for_in_by_span.contains_key(range) && d.out.for_in_by_span[range]
                == ForInV::Array
        }),
{
    let (b, i) = c.resolve_for_in_iterable(c.resolve(iterable), id, place, range);
    let e = b.or_fresh(i).0.push_names();
    properties::latest_binding_wins(e, name@, SchemeV::mono(item), name@);
    let d = c.open_loop(Some(binding), iterable, id, place, range);
    assert(d.env.drop_last() =~= c.env);
}

/// What is returned has to stand where the function's result is wanted, and the
/// expectation of what is around the `return` comes back.
pub proof fn returned_values_fit_the_result(
    c: CheckerV,
    outer: Option<Tree>,
    t: Tree,
    e: Output,
    ret: Tree,
)
    requires
        c.ctx.return_ty == Some(ret),
        operators::plain(ret.subst(c.subst), t.subst(c.subst)),
    ensures
        c.finish_return(outer, t, e).ctx.expected == outer,
        unify::unified(c.subst, ret.subst(c.subst), t.subst(c.subst)) matches Ok(s)
            ==> c.finish_return(outer, t, e).subst == s && c.finish_return(outer, t, e).messages
            == c.messages,
        unify::unified(c.subst, ret.subst(c.subst), t.subst(c.subst)) is Err ==> c.finish_return(
            outer,
            t,
            e,
        ).messages.len() == c.messages.len() + 1 && c.finish_return(
            outer,
            t,
            e,
        ).messages.last().range == e.span && c.finish_return(outer, t, e).subst == c.subst,
{
    let d = c.with_expected(outer);
    operators::plain_values_unify(d, ret, t, Some(e), e.span, "return value"@);
}

/// Outside of functions a `return` asks nothing.
pub proof fn returns_outside_of_functions(c: CheckerV, outer: Option<Tree>, t: Tree, e: Output)
    requires
        c.ctx.return_ty is None,
    ensures
        c.finish_return(outer, t, e).messages == c.messages,
        c.finish_return(outer, t, e).subst == c.subst,
{
}

/// A match without arms is reported; one with arms is kept for the check of its
/// arms, with the type of what it matches and where it stands.
pub proof fn matches_are_kept_for_later(
    c: CheckerV,
    node: Output,
    scrutinee: Output,
    arms: Vec<MatchArm>,
    id: Option<NodeId>,
)
    requires
        *node.expr == (Expression::Match { scrutinee, arms }),
    ensures
        ({
            let (b, st) = c.infer(scrutinee);
            let t = st.subst(b.subst);
            let (d, r) = c.infer_control(node, id);
            &&& d.ctx.match_lhs == b.ctx.match_lhs
            &&& arms@.len() == 0 ==> d.messages.len() == b.messages.len() + 1
                && d.messages.last().range == node.span
            &&& arms@.len() > 0 ==> exists|a: CheckerV|
                {
                    let q = #[trigger] a.infer_arms(arms@, 0, t, None, Seq::empty());
                    &&& a.messages == b.messages && a.subst == b.subst && a.env == b.env
                        && a.ctx.match_lhs == Some(st)
                    &&& d.messages == q.0.messages && d.subst == q.0.subst && d.env == q.0.env
                    &&& q.1 matches Some(u) ==> r == u
                    &&& d.out.pending == q.0.out.pending.push(
                        (PendingV { scrutinee_ty: t, arms: q.2, match_range: node.span }),
                    )
                }
        }),
{
    let (b, st) = c.infer(scrutinee);
    let t = st.subst(b.subst);
    let (a, v) = b.with_match_lhs(Some(st)).fresh();
    let q = a.infer_arms(arms@, 0, t, None, Seq::empty());
    assert(a.infer_arms(arms@, 0, t, None, Seq::empty()) == q);
}

/// A `?` on an `Option` or a `Result`, by name, has the type of what it holds;
/// on anything else that is known it is reported.
pub proof fn tries_give_what_is_held(c: CheckerV, t: Tree, ok: Tree, err: Tree, range: Span)
    ensures
        t.subst(c.subst) == result_of(ok, err) ==> c.finish_try(t, range) == (
            c.ensure_result_mode(err, range).0,
            ok,
        ),
        t.subst(c.subst) == option_of(ok) ==> c.finish_try(t, range) == (
            c.ensure_option_mode(ok, range),
            ok,
        ),
        t.subst(c.subst) == result_variants(ok, err) ==> c.finish_try(t, range) == (
            c.ensure_result_mode(err, range).0,
            ok,
        ),
        t.subst(c.subst) == option_variants(ok) ==> c.finish_try(t, range) == (
            c.ensure_option_mode(ok, range),
            ok,
        ),
{
    reveal_strlit("Option");
    reveal_strlit("Result");
    by_name(ok, err);
}

/// The two built-in enums by name.
pub(crate) proof fn by_name(ok: Tree, err: Tree)
    ensures
        enums::enum_args(result_of(ok, err), "Result"@) == Some(seq![ok, err]),
        enums::enum_args(option_of(ok), "Result"@) is None,
        enums::enum_args(option_of(ok), "Option"@) == Some(seq![ok]),
        enums::enum_args(result_of(ok, err), "Option"@) is None,
        enums::enum_args(result_variants(ok, err), "Result"@) == Some(seq![ok, err]),
        enums::enum_args(option_variants(ok), "Result"@) is None,
        enums::enum_args(option_variants(ok), "Option"@) == Some(seq![ok]),
        enums::enum_args(result_variants(ok, err), "Option"@) is None,
{
    reveal_strlit("Option");
    reveal_strlit("Result");
    assert("Option"@[0] != "Result"@[0]);
    let r = result_of(ok, err);
    let o = option_of(ok);
    assert(enums::peeled(r) == r);
    assert(enums::peeled(o) == o);
    let rv = result_variants(ok, err);
    let ov = option_variants(ok);
    assert(enums::peeled(rv) == rv);
    assert(enums::peeled(ov) == ov);
    assert(Tree::app(typing::named("Result"@), seq![ok, err]).kids() =~= r.kids());
    assert(Tree::app(typing::named("Option"@), seq![ok]).kids() =~= o.kids());
    assert(rv.kids()[0].kids().len() == 1 && rv.kids()[1].kids().len() == 1);
    assert(ov.kids()[1].kids().len() == 1);
    assert(unify::nominal(rv) == r);
    assert(unify::nominal(ov) == o);
    assert(r.kids().drop_first() =~= seq![ok, err]);
    assert(o.kids().drop_first() =~= seq![ok]);
}

/// `?` and `??` are for `Option` and `Result` only, `?.` for `Option` only.
pub proof fn other_types_hold_nothing(
    c: CheckerV,
    t: Tree,
    name: Seq<char>,
    field: Seq<char>,
    place: Span,
    range: Span,
)
    requires
        t.subst(c.subst) == typing::named(name),
        name != "Option"@,
        name != "Result"@,
    ensures
        typing::complained(c, c.finish_try(t, range).0, range),
        c.finish_try(t, range).0.messages.last().code == ErrorCode::InvalidTry,
        typing::complained(c, c.coalesce_payload(t, place, range).0, range),
        c.coalesce_payload(t, place, range).0.messages.last().code == ErrorCode::InvalidCoalesce,
        c.coalesce_payload(t, place, range).1 is Fails,
        typing::complained(c, c.finish_optional_access(t, field, place, range).0, range),
        c.finish_optional_access(t, field, place, range).0.messages.last().code
            == ErrorCode::InvalidOptionalAccess,
{
    assert(enums::peeled(typing::named(name)) == typing::named(name));
}

/// `??` gives what is held, and an alternative of another type is refused: it is
/// made the same.
pub proof fn alternatives_have_the_type_that_is_held(
    c: CheckerV,
    t: Tree,
    ok: Tree,
    err: Tree,
    place: Span,
    range: Span,
)
    ensures
        t.subst(c.subst) == result_of(ok, err) ==> c.coalesce_payload(t, place, range) == (
            c,
            Payload::Holds(ok),
        ),
        t.subst(c.subst) == option_of(ok) ==> c.coalesce_payload(t, place, range) == (
            c,
            Payload::Holds(ok),
        ),
        t.subst(c.subst) == result_variants(ok, err) ==> c.coalesce_payload(t, place, range) == (
            c,
            Payload::Holds(ok),
        ),
        t.subst(c.subst) == option_variants(ok) ==> c.coalesce_payload(t, place, range) == (
            c,
            Payload::Holds(ok),
        ),
{
    by_name(ok, err);
}

/// The right side of `??` is typed after the left one, and made the same as what
/// the left one holds, which is the type of the whole.
pub proof fn alternatives_are_made_the_same(
    c: CheckerV,
    node: Output,
    l: Output,
    r: Output,
    id: Option<NodeId>,
    held: Tree,
)
    requires
        *node.expr == Expression::Coalesce(l, r),
        c.infer(l).0.coalesce_payload(c.infer(l).1, l.span, node.span).1 == Payload::Holds(held),
    ensures
        ({
            let d = c.infer(l).0.coalesce_payload(c.infer(l).1, l.span, node.span).0;
            &&& typing::made_same(
                d.infer(r).0,
                held,
                d.infer(r).1,
                r.span,
                c.infer_effect(node, id).0,
            )
            &&& c.infer_effect(node, id).1 == held
        }),
{
}

/// A field that is read through `?.` is an `Option` of the field's type.
pub proof fn optional_fields_are_options(
    c: CheckerV,
    t: Tree,
    item: Tree,
    field: Seq<char>,
    place: Span,
    range: Span,
)
    requires
        t.subst(c.subst) == option_of(item),
    ensures
        c.finish_optional_access(t, field, place, range) == (
            c.field_type_from_ty(item, field, range).0,
            option_variants(c.field_type_from_ty(item, field, range).1),
        ),
{
    by_name(item, item);
}

/// A `panic` takes a string, and stands for any type.
pub proof fn panics_take_a_string(c: CheckerV, node: Output, e: Output, id: Option<NodeId>)
    requires
        *node.expr == Expression::Panic(e),
    ensures
        exists|d: CheckerV|
            #[trigger] typing::made_same(
                c.infer(e).0,
                c.infer(e).1,
                typing::named("string"@),
                e.span,
                d,
            ) && c.infer_effect(node, id).1 == Tree::Var(TyVarId(d.counter)) && c.infer_effect(
                node,
                id,
            ).0.messages == d.messages && c.infer_effect(node, id).0.subst == d.subst,
{
    let (b, t) = c.infer(e);
    let d = b.unify(t, typing::named("string"@), e.span, "panic message"@).0;
    typing::types_are_made_the_same(b, t, typing::named("string"@), e.span, "panic message"@);
    assert(typing::made_same(b, t, typing::named("string"@), e.span, d));
}

/// An error is raised only inside of a function, of the function's own error
/// type, and not where the function gives an `Option`.
pub proof fn raised_errors_have_one_type(
    c: CheckerV,
    err: Tree,
    range: Span,
    ok: Tree,
    known: Tree,
    ret: Tree,
)
    ensures
        c.ctx.option_mode is Some ==> typing::complained(
            c,
            c.ensure_result_mode(err, range).0,
            range,
        ) && c.ensure_result_mode(err, range).0.messages.last().code
            == ErrorCode::ConflictingErrorType,
        c.ctx.option_mode is None && c.ctx.result_mode is None && c.ctx.return_ty is None
            ==> typing::complained(c, c.ensure_result_mode(err, range).0, range)
            && c.ensure_result_mode(err, range).0.messages.last().code == ErrorCode::InvalidTry,
        c.ctx.option_mode is None && c.ctx.result_mode == Some((ok, known)) ==> typing::made_same(
            c,
            known,
            err,
            range,
            c.ensure_result_mode(err, range).0,
        ) && c.ensure_result_mode(err, range).1 == ok.subst(
            c.ensure_result_mode(err, range).0.subst,
        ),
        c.ctx.option_mode is None && c.ctx.result_mode is None && c.ctx.return_ty == Some(ret)
            && ret.subst(c.subst) == option_of(ok) ==> typing::complained(
            c,
            c.ensure_result_mode(err, range).0,
            range,
        ) && c.ensure_result_mode(err, range).0.messages.last().code
            == ErrorCode::ConflictingErrorType,
{
    by_name(ok, known);
}

/// A function that declares a `Result` raises errors of the declared type, and
/// from the first one on returns what the `Result` holds.
pub proof fn declared_errors_are_raised(
    c: CheckerV,
    err: Tree,
    range: Span,
    ok: Tree,
    known: Tree,
    ret: Tree,
)
    requires
        c.ctx.option_mode is None,
        c.ctx.result_mode is None,
        c.ctx.return_ty == Some(ret),
        ret.subst(c.subst) == result_of(ok, known),
    ensures
        ({
            let (d, t) = c.ensure_result_mode(err, range);
            &&& t == ok
            &&& d.ctx.result_mode == Some((ok, known))
            &&& d.ctx.return_ty == Some(ok)
            &&& unify::unified(c.subst, known, err) matches Ok(s) ==> d.subst == s && d.messages
                == c.messages
            &&& unify::unified(c.subst, known, err) is Err ==> d.messages.len() == c.messages.len()
                + 1 && d.messages.last().range == range
        }),
{
    by_name(ok, known);
}

/// A function whose result is not known yet, and which raises an error, gives a
/// `Result` with that error; from then on it returns what the `Result` holds.
pub proof fn raising_functions_give_results(
    c: CheckerV,
    err: Tree,
    range: Span,
    v: TyVarId,
    ret: Tree,
)
    requires
        c.ctx.option_mode is None,
        c.ctx.result_mode is None,
        c.ctx.return_ty == Some(ret),
        ret.subst(c.subst) == Tree::Var(v),
    ensures
        ({
            let (d, t) = c.ensure_result_mode(err, range);
            let ok = Tree::Var(TyVarId(c.counter));
            &&& t == ok
            &&& d.ctx.result_mode == Some((ok, err))
            &&& d.ctx.return_ty == Some(ok)
            &&& unify::unified(c.subst, ret, result_variants(ok, err)) matches Ok(s) ==> d.subst
                == s && d.messages == c.messages
        }),
{
    assert(enums::peeled(Tree::Var(v)) == Tree::Var(v));
    assert(unify::nominal(Tree::Var(v)) == Tree::Var(v));
}

/// `?` on an `Option` is used only inside of a function, and not where the
/// function gives a `Result`; all of them hold one type.
pub proof fn tried_options_have_one_type(
    c: CheckerV,
    item: Tree,
    range: Span,
    known: Tree,
    err: Tree,
    ret: Tree,
)
    ensures
        c.ctx.result_mode is Some ==> typing::complained(c, c.ensure_option_mode(item, range), range)
            && c.ensure_option_mode(item, range).messages.last().code
            == ErrorCode::ConflictingErrorType,
        c.ctx.result_mode is None && c.ctx.option_mode is None && c.ctx.return_ty is None
            ==> typing::complained(c, c.ensure_option_mode(item, range), range)
            && c.ensure_option_mode(item, range).messages.last().code == ErrorCode::InvalidTry,
        c.ctx.result_mode is None && c.ctx.option_mode == Some(known) ==> typing::made_same(
            c,
            known,
            item,
            range,
            c.ensure_option_mode(item, range),
        ),
        c.ctx.result_mode is None && c.ctx.option_mode is None && c.ctx.return_ty == Some(ret)
            && ret.subst(c.subst) == result_of(known, err) ==> typing::complained(
            c,
            c.ensure_option_mode(item, range),
            range,
        ) && c.ensure_option_mode(item, range).messages.last().code
            == ErrorCode::ConflictingErrorType,
        c.ctx.result_mode is None && c.ctx.option_mode is None && c.ctx.return_ty == Some(ret)
            && ret.subst(c.subst) == option_of(known) ==> {
            let d = c.ensure_option_mode(item, range);
            &&& d.ctx.option_mode == Some(item)
            &&& unify::unified(c.subst, known, item) matches Ok(s) ==> d.subst == s && d.messages
                == c.messages
            &&& unify::unified(c.subst, known, item) is Err ==> d.messages.len()
                == c.messages.len() + 1
        },
{
    by_name(known, err);
}

/// A `yield` stands only inside of an async function; there it gives what is
/// sent, and what it hands out is made the same as what the function yields.
pub proof fn yields_hand_out_one_type(
    c: CheckerV,
    node: Output,
    e: Output,
    id: Option<NodeId>,
    y: Tree,
)
    requires
        *node.expr == Expression::Yield(e),
    ensures
        c.ctx.async_depth == 0 ==> typing::complained(c, c.infer_effect(node, id).0, node.span)
            && c.infer_effect(node, id).0.messages.last().code == ErrorCode::YieldOutsideAsync,
        c.ctx.async_depth > 0 && c.infer(e).0.ctx.yield_ty == Some(y) ==> typing::made_same(
            c.infer(e).0,
            y,
            c.infer(e).1,
            e.span,
            c.infer_effect(node, id).0,
        ) && match c.infer_effect(node, id).0.ctx.send_ty {
            Some(s) => c.infer_effect(node, id).1 == s.subst(c.infer_effect(node, id).0.subst),
            None => c.infer_effect(node, id).1 == typing::named("unit"@),
        },
{
}

/// What is resumed, or asked whether it is done, is a coroutine: its type is made
/// one of what it yields and what it takes.
pub proof fn only_coroutines_are_resumed(c: CheckerV, t: Tree, range: Span, what: Seq<char>)
    requires
        c.counter < u32::MAX,
    ensures
        ({
            let (d, y, s) = c.expect_coroutine(t, range, what);
            &&& y == Tree::Var(TyVarId(c.counter))
            &&& s == Tree::Var(TyVarId((c.counter + 1) as u32))
            &&& unify::unified(
                c.subst,
                t,
                Tree::Node(Head::App, seq![typing::named("coroutine"@), y, s]),
            ) matches Ok(u) ==> d.subst == u && d.messages == c.messages
            &&& unify::unified(
                c.subst,
                t,
                Tree::Node(Head::App, seq![typing::named("coroutine"@), y, s]),
            ) is Err ==> d.messages.len() == c.messages.len() + 1 && d.messages.last().range
                == range
        }),
{
    assert(Tree::app(typing::named("coroutine"@), seq![
        Tree::Var(TyVarId(c.counter)),
        Tree::Var(TyVarId((c.counter + 1) as u32)),
    ]).kids() =~= seq![
        typing::named("coroutine"@),
        Tree::Var(TyVarId(c.counter)),
        Tree::Var(TyVarId((c.counter + 1) as u32)),
    ]);
}

/// A `resume` gives what the coroutine yields, and what it sends is made the same
/// as what the coroutine takes; `done` is a `bool`.
pub proof fn resumed_coroutines_yield(
    c: CheckerV,
    node: Output,
    target: Output,
    arg: Output,
    id: Option<NodeId>,
)
    ensures
        *node.expr == Expression::Resume(target, Some(arg)) ==> {
            let (b, t) = c.infer(target);
            let (d, y, s) = b.expect_coroutine(t, node.span, "resume target"@);
            let (e, r) = c.infer_effect(node, id);
            &&& typing::made_same(d.infer(arg).0, d.infer(arg).1, s, arg.span, e)
            &&& r == y.subst(e.subst)
        },
        *node.expr == Expression::Done(target) ==> c.infer_effect(node, id).1 == typing::named(
            "bool"@,
        ) && c.infer_effect(node, id).0 == c.infer(target).0.expect_coroutine(
            c.infer(target).1,
            node.span,
            "done argument"@,
        ).0,
        *node.expr == Expression::Defer(target) ==> c.infer_effect(node, id) == (
            c.infer(target).0,
            typing::named("unit"@),
        ),
{
}

} // verus!
