//! What a call asks of its arguments.
use crate::ast::{self, Expression, Output};
use crate::id::NodeId;
use crate::infer::CheckerV;
use crate::infer::calls::{self, ByteLiteral};
use crate::infer::growth;
use crate::report::{ErrorCode, Span};
use crate::soundness;
use crate::tree::{Head, Tree};
use crate::ty::TyVarId;
use crate::unify::{self, UnifyFault};
use vstd::prelude::*;

verus! {

/// The type of the functions that take `params`, one after the other, and give
/// `result`.
pub open spec fn taking(params: Seq<Tree>, result: Tree) -> Tree
    decreases params.len(),
{
    if params.len() == 0 {
        result
    } else {
        Tree::Node(Head::Fun, seq![params[0], taking(params.drop_first(), result)])
    }
}

/// A type without variables.
pub open spec fn ground(t: Tree) -> bool {
    t.vars().len() == 0
}

/// Types without variables.
pub open spec fn all_ground(ts: Seq<Tree>) -> bool {
    forall|i: int| 0 <= i < ts.len() ==> ground(#[trigger] ts[i])
}

/// An integer literal that a byte can hold.
pub open spec fn small_literal(e: Output) -> bool {
    match *ast::unwrapped(e).expr {
        Expression::Integer(n) => 0 <= n && n <= 255,
        _ => false,
    }
}

/// A literal that may stand for bytes though it is typed by `int`: an integer
/// for a byte, or an array of integers for an array of bytes.
pub open spec fn literal_bytes(param: Tree, arg: Tree, e: Output) -> bool {
    let byte = Tree::Node(Head::Con("byte"@), Seq::empty());
    let int_t = Tree::Node(Head::Con("int"@), Seq::empty());
    ||| param == byte && arg == int_t && small_literal(e)
    ||| {
        &&& match (param, arg) {
            (Tree::Node(Head::Array(m), pk), Tree::Node(Head::Array(n), ak)) => pk.len() == 1
                && ak.len() == 1 && pk[0] == byte && ak[0] == int_t,
            _ => false,
        }
        &&& match *ast::unwrapped(e).expr {
            Expression::Array(items) => forall|i: int|
                0 <= i < items@.len() ==> small_literal(#[trigger] items@[i]),
            _ => false,
        }
    }
}

/// An argument of type `arg`, written as `expr`, may stand where `param` is
/// asked for: the types unify, or the argument is a literal of bytes, or `param`
/// is any value of a class that the argument's type could have an instance of.
#[verifier::opaque]
pub open spec fn may_stand(c: CheckerV, param: Tree, arg: Tree, expr: Option<Output>) -> bool {
    ||| unify::unified(Map::empty(), param, arg) is Ok
    ||| expr is Some && literal_bytes(param, arg, expr.unwrap())
    ||| match param {
        Tree::Node(Head::Existential(class), _) => {
            ||| arg is Node && arg.head() == Head::Existential(class)
            ||| exists|i: int|
                0 <= i < c.reg.generics.instances.len() && (
                #[trigger] c.reg.generics.instances[i]).class == class
        },
        _ => false,
    }
}

/// A message of that kind is among those that were added.
pub open spec fn told(before: CheckerV, after: CheckerV, code: ErrorCode) -> bool {
    exists|k: int|
        before.messages.len() <= k < after.messages.len() && (
        #[trigger] after.messages[k]).code == code
}

/// A type without variables is its own resolution.
pub proof fn ground_stays(t: Tree, s: Map<TyVarId, Tree>)
    requires
        ground(t),
    ensures
        t.subst(s) == t,
{
    soundness::strangers_stay(t, s);
}

proof fn taking_is_ground(params: Seq<Tree>, result: Tree)
    requires
        all_ground(params),
        ground(result),
    ensures
        ground(taking(params, result)),
    decreases params.len(),
{
    if params.len() > 0 {
        let rest = taking(params.drop_first(), result);
        assert forall|i: int| 0 <= i < params.drop_first().len() implies ground(
            #[trigger] params.drop_first()[i],
        ) by {
            assert(params.drop_first()[i] == params[i + 1]);
        }
        taking_is_ground(params.drop_first(), result);
        let kids = seq![params[0], rest];
        assert(kids.drop_last() =~= seq![params[0]]);
        assert(seq![params[0]].drop_last() =~= Seq::empty());
        assert(ground(params[0]));
        assert(Tree::vars_of(seq![params[0]]) == Tree::vars_of(seq![params[0]].drop_last())
            + params[0].vars());
        assert(Tree::vars_of(kids) == Tree::vars_of(kids.drop_last()) + kids.last().vars());
        assert(Tree::Node(Head::Fun, kids).vars() == Tree::vars_of(kids));
    }
}

/// Types without variables are never said to be infinite.
proof fn no_infinite_ground(ls: Seq<Tree>, rs: Seq<Tree>)
    requires
        forall|v: TyVarId| !#[trigger] unify::open_vars(ls, rs).contains(v),
    ensures
        !(unify::solution(ls, rs) matches Err(UnifyFault::Occurs(_, _))),
    decreases Tree::size_of(ls) + Tree::size_of(rs),
{
    if ls.len() > 0 && rs.len() > 0 {
        unify::step_shrinks(ls, rs);
        assert(unify::open_vars(ls, rs) =~= Set::empty());
        let a = ls.last();
        let b = rs.last();
        let all = Tree::vars_of(ls) + Tree::vars_of(rs);
        if let Tree::Var(v) = a {
            assert(a.vars() == seq![v]);
            assert(Tree::vars_of(ls) == Tree::vars_of(ls.drop_last()) + a.vars());
            assert(Tree::vars_of(ls).last() == v);
            assert(all[Tree::vars_of(ls).len() - 1] == v);
            assert(unify::open_vars(ls, rs).contains(v));
        }
        if let Tree::Var(v) = b {
            assert(b.vars() == seq![v]);
            assert(Tree::vars_of(rs) == Tree::vars_of(rs.drop_last()) + b.vars());
            assert(Tree::vars_of(rs).last() == v);
            assert(all[all.len() - 1] == v);
            assert(unify::open_vars(ls, rs).contains(v));
        }
        match unify::step(a, b) {
            unify::Step::Skip => {
                no_infinite_ground(ls.drop_last(), rs.drop_last());
            },
            unify::Step::Split(x, y) => {
                no_infinite_ground(ls.drop_last() + x.reverse(), rs.drop_last() + y.reverse());
            },
            _ => {},
        }
    }
}

/// Whether types without variables unify does not depend on what is known of
/// variables; where they do not, they do not match.
pub proof fn ground_types_unify_alike(s: Map<TyVarId, Tree>, a: Tree, b: Tree)
    requires
        ground(a),
        ground(b),
    ensures
        unify::unified(s, a, b) is Ok <==> unify::unified(Map::empty(), a, b) is Ok,
        !(unify::unified(s, a, b) matches Err(UnifyFault::Occurs(_, _))),
        soundness::formed(a) && soundness::formed(b) && unify::unified(s, a, b) is Ok
            ==> soundness::canon(a) == soundness::canon(b),
{
    ground_stays(a, s);
    ground_stays(b, s);
    ground_stays(a, Map::empty());
    ground_stays(b, Map::empty());
    assert(seq![a].drop_last() =~= Seq::empty());
    assert(seq![b].drop_last() =~= Seq::empty());
    reveal_with_fuel(Tree::vars_of, 2);
    assert(Tree::vars_of(seq![a]).len() == 0);
    assert(Tree::vars_of(seq![b]).len() == 0);
    no_infinite_ground(seq![a], seq![b]);
    if soundness::formed(a) && soundness::formed(b) && unify::unified(s, a, b) is Ok {
        soundness::unified_types_agree(Map::empty(), a, b);
        let u = unify::unified(Map::empty(), a, b)->Ok_0;
        ground_stays(a, u);
        ground_stays(b, u);
    }
}

/// Byte items are looked at one by one.
pub(crate) proof fn byte_items(c: CheckerV, items: Seq<Output>, at: nat)
    ensures
        ({
            let (d, ok) = c.check_byte_items(items, at);
            &&& d == (CheckerV { messages: d.messages, counter: d.counter, ..c })
            &&& c.messages.is_prefix_of(d.messages)
            &&& ok ==> d == c && forall|i: int|
                at <= i < items.len() ==> small_literal(#[trigger] items[i])
        }),
    decreases items.len() - at,
{
    if at < items.len() {
        match calls::byte_literal(items[at as int]) {
            ByteLiteral::Fits => byte_items(c, items, at + 1),
            ByteLiteral::OutOfRange(n) => {
                let (d, _) = c.byte_out_of_range(n, items[at as int].span);
                assert(c.messages.is_prefix_of(d.messages));
                byte_items(d, items, at + 1);
            },
            ByteLiteral::Other => {},
        }
    }
}

/// What is found to match does.
proof fn found_matches(c: CheckerV, class: Seq<char>, wanted: Seq<Tree>, n: nat, i: int)
    requires
        0 <= i < c.matching(class, wanted, n).len(),
    ensures
        c.matching(class, wanted, n)[i] < n,
        c.reg.generics.instances[c.matching(class, wanted, n)[i] as int].class == class,
    decreases n,
{
    if n > 0 {
        let before = c.matching(class, wanted, (n - 1) as nat);
        if i < before.len() {
            found_matches(c, class, wanted, (n - 1) as nat, i);
        }
    }
}

/// One argument is held against its parameter.
proof fn argument_is_held(
    c: CheckerV,
    param: Tree,
    arg: Tree,
    expr: Option<Output>,
    range: Span,
    what: Seq<char>,
)
    requires
        ground(param),
        ground(arg),
    ensures
        ({
            let d = c.coerce_or_unify(param, arg, expr, range, what).0;
            &&& d.reg == c.reg
            &&& c.messages.is_prefix_of(d.messages)
            &&& d.messages == c.messages ==> may_stand(c, param, arg, expr)
            &&& !may_stand(c, param, arg, expr) && !(param is Node && param.head() is Existential)
                ==> d.messages.len() > c.messages.len() && d.messages.last().code
                == ErrorCode::TypeMismatch
        }),
{
    c.coerce_or_unify_grows(param, arg, expr, range, what);
    reveal(growth::steps);
    reveal(may_stand);
    ground_stays(param, c.subst);
    ground_stays(arg, c.subst);
    ground_types_unify_alike(c.subst, param, arg);
    if let Some(items) = calls::array_items(expr) {
        byte_items(c, items, 0);
    }
    if let Tree::Node(Head::Existential(class), _) = param {
        let value_ty = calls::packed_ty(arg);
        let lookup = c.instance_lookup_args(class, seq![value_ty]);
        let n = c.reg.generics.instances.len();
        if c.matching(class, lookup, n).len() == 1 {
            found_matches(c, class, lookup, n, 0);
        }
    }
}

/// What may stand in a place is read off the registry.
proof fn stands_alike(c: CheckerV, d: CheckerV, param: Tree, arg: Tree, expr: Option<Output>)
    requires
        c.reg == d.reg,
    ensures
        may_stand(c, param, arg, expr) <==> may_stand(d, param, arg, expr),
{
    reveal(may_stand);
}

/// A call takes one argument, and goes on with the rest.
proof fn one_argument(
    c: CheckerV,
    name: Option<Seq<char>>,
    param: Tree,
    rest: Tree,
    args: Seq<Tree>,
    exprs: Option<Seq<Output>>,
    call: Option<NodeId>,
    range: Span,
    at: nat,
)
    requires
        ground(Tree::Node(Head::Fun, seq![param, rest])),
        !(param is Node && param.head() is Forall),
        at < args.len(),
    ensures
        c.apply_function(
            name,
            Tree::Node(Head::Fun, seq![param, rest]),
            args,
            exprs,
            call,
            range,
            at,
        ) == c.coerce_or_unify(
            param,
            args[at as int],
            calls::nth_expr(exprs, at as int),
            range,
            "function argument"@,
        ).0.apply_function(name, rest, args, exprs, call, range, at + 1),
{
    let f = Tree::Node(Head::Fun, seq![param, rest]);
    ground_stays(f, c.subst);
    assert(c.peel_foralls(f, Seq::empty()) == (c, f, Seq::<Tree>::empty()));
    let b = c.coerce_or_unify(
        param,
        args[at as int],
        calls::nth_expr(exprs, at as int),
        range,
        "function argument"@,
    ).0;
    assert(b.discharge_constraints(call, Seq::empty(), range, 0) == b);
}

#[verifier::spinoff_prover]
#[verifier::rlimit(80)]
proof fn arguments_are_held_in_turn(
    c: CheckerV,
    name: Option<Seq<char>>,
    params: Seq<Tree>,
    result: Tree,
    args: Seq<Tree>,
    exprs: Option<Seq<Output>>,
    call: Option<NodeId>,
    range: Span,
    at: nat,
)
    requires
        all_ground(params),
        ground(result),
        all_ground(args),
        forall|i: int|
            0 <= i < params.len() ==> !((#[trigger] params[i]) is Node && params[i].head()
                is Forall),
        at <= args.len() <= params.len(),
    ensures
        ({
            let (d, t) = c.apply_function(
                name,
                taking(params.skip(at as int), result),
                args,
                exprs,
                call,
                range,
                at,
            );
            &&& t == taking(params.skip(args.len() as int), result)
            &&& d.reg == c.reg
            &&& c.messages.is_prefix_of(d.messages)
            &&& d.messages == c.messages ==> forall|i: int|
                at <= i < args.len() ==> may_stand(
                    c,
                    #[trigger] params[i],
                    args[i],
                    calls::nth_expr(exprs, i),
                )
            &&& forall|i: int|
                at <= i < args.len() && !may_stand(
                    c,
                    #[trigger] params[i],
                    args[i],
                    calls::nth_expr(exprs, i),
                ) && !(params[i] is Node && params[i].head() is Existential) ==> told(
                    c,
                    d,
                    ErrorCode::TypeMismatch,
                )
        }),
    decreases args.len() - at,
{
    if at < args.len() {
        let here = params.skip(at as int);
        let f = taking(here, result);
        let param = params[at as int];
        let arg = args[at as int];
        let expr = calls::nth_expr(exprs, at as int);
        assert(here.drop_first() =~= params.skip(at as int + 1));
        assert(here[0] == param);
        assert forall|i: int| 0 <= i < here.len() implies ground(#[trigger] here[i]) by {
            assert(here[i] == params[i + at]);
        }
        taking_is_ground(here, result);
        assert(ground(param) && ground(arg));
        argument_is_held(c, param, arg, expr, range, "function argument"@);
        let b = c.coerce_or_unify(param, arg, expr, range, "function argument"@).0;
        arguments_are_held_in_turn(b, name, params, result, args, exprs, call, range, at + 1);
        let (d, t) = c.apply_function(name, f, args, exprs, call, range, at);
        one_argument(
            c,
            name,
            param,
            taking(params.skip(at as int + 1), result),
            args,
            exprs,
            call,
            range,
            at,
        );
        assert forall|i: int| at <= i < args.len() implies (may_stand(
            c,
            #[trigger] params[i],
            args[i],
            calls::nth_expr(exprs, i),
        ) <==> may_stand(b, params[i], args[i], calls::nth_expr(exprs, i))) by {
            stands_alike(c, b, params[i], args[i], calls::nth_expr(exprs, i));
        }
        if d.messages == c.messages {
            assert(b.messages.len() == c.messages.len());
            assert(b.messages =~= c.messages);
        }
        assert forall|i: int|
            at <= i < args.len() && !may_stand(
                c,
                #[trigger] params[i],
                args[i],
                calls::nth_expr(exprs, i),
            ) && !(params[i] is Node && params[i].head() is Existential) implies told(
            c,
            d,
            ErrorCode::TypeMismatch,
        ) by {
            if i == at {
                let k = b.messages.len() - 1;
                assert(d.messages[k] == b.messages[k]);
            } else {
                assert(told(b, d, ErrorCode::TypeMismatch));
                let k = choose|k: int|
                    b.messages.len() <= k < d.messages.len() && (#[trigger] d.messages[k]).code
                        == ErrorCode::TypeMismatch;
                assert(d.messages[k].code == ErrorCode::TypeMismatch);
            }
        }
    }
}

/// The expression of the argument at place `i`, where the call has them.
pub open spec fn written_at(exprs: Option<Seq<Output>>, i: int) -> Option<Output> {
    match exprs {
        Some(s) => if 0 <= i < s.len() {
            Some(s[i])
        } else {
            None
        },
        None => None,
    }
}

/// A call holds every argument against the parameter at its own place. Where it
/// adds no message, each of them may stand there, and types without variables
/// that unify have one form; where one does not match, a type mismatch is told.
/// What the call gives is what is left of the function's type.
pub proof fn calls_hold_every_argument(
    c: CheckerV,
    name: Option<Seq<char>>,
    params: Seq<Tree>,
    result: Tree,
    args: Seq<Tree>,
    exprs: Option<Seq<Output>>,
    call: Option<NodeId>,
    range: Span,
)
    requires
        all_ground(params),
        ground(result),
        all_ground(args),
        forall|i: int|
            0 <= i < params.len() ==> !((#[trigger] params[i]) is Node && params[i].head()
                is Forall),
        args.len() <= params.len(),
    ensures
        ({
            let (d, t) = c.apply_function(
                name,
                taking(params, result),
                args,
                exprs,
                call,
                range,
                0,
            );
            &&& t == taking(params.skip(args.len() as int), result)
            &&& d.messages == c.messages ==> forall|i: int|
                0 <= i < args.len() ==> may_stand(
                    c,
                    #[trigger] params[i],
                    args[i],
                    written_at(exprs, i),
                )
            &&& forall|i: int|
                0 <= i < args.len() && unify::unified(
                    Map::empty(),
                    #[trigger] params[i],
                    args[i],
                ) is Ok && soundness::formed(params[i]) && soundness::formed(args[i])
                    ==> soundness::agree(params[i], args[i], d.subst)
            &&& forall|i: int|
                0 <= i < args.len() && !may_stand(
                    c,
                    #[trigger] params[i],
                    args[i],
                    written_at(exprs, i),
                ) && !(params[i] is Node && params[i].head() is Existential) ==> told(
                    c,
                    d,
                    ErrorCode::TypeMismatch,
                )
        }),
{
    assert(params.skip(0) =~= params);
    arguments_are_held_in_turn(c, name, params, result, args, exprs, call, range, 0);
    let d = c.apply_function(name, taking(params, result), args, exprs, call, range, 0).0;
    assert forall|i: int| 0 <= i < args.len() implies calls::nth_expr(exprs, i) == #[trigger]
        written_at(exprs, i) by {}
    assert forall|i: int|
        0 <= i < args.len() && unify::unified(Map::empty(), #[trigger] params[i], args[i]) is Ok
            && soundness::formed(params[i]) && soundness::formed(args[i]) implies soundness::agree(
        params[i],
        args[i],
        d.subst,
    ) by {
        assert(ground(params[i]) && ground(args[i]));
        ground_types_unify_alike(Map::empty(), params[i], args[i]);
        ground_stays(params[i], d.subst);
        ground_stays(args[i], d.subst);
    }
}

proof fn arguments_run_out(
    c: CheckerV,
    name: Option<Seq<char>>,
    params: Seq<Tree>,
    result: Seq<char>,
    args: Seq<Tree>,
    exprs: Option<Seq<Output>>,
    call: Option<NodeId>,
    range: Span,
    at: nat,
)
    requires
        all_ground(params),
        forall|i: int|
            0 <= i < params.len() ==> !((#[trigger] params[i]) is Node && params[i].head()
                is Forall),
        at <= params.len() < args.len(),
    ensures
        c.apply_function(
            name,
            taking(params.skip(at as int), Tree::Node(Head::Con(result), Seq::empty())),
            args,
            exprs,
            call,
            range,
            at,
        ).0.messages.len() > c.messages.len(),
    decreases params.len() - at,
{
    let last = Tree::Node(Head::Con(result), Seq::<Tree>::empty());
    let here = params.skip(at as int);
    assert(last.vars() == Tree::vars_of(Seq::<Tree>::empty()));
    assert(ground(last));
    if at < params.len() {
        let param = params[at as int];
        assert(here.drop_first() =~= params.skip(at as int + 1));
        assert(here[0] == param);
        assert forall|i: int| 0 <= i < here.len() implies ground(#[trigger] here[i]) by {
            assert(here[i] == params[i + at]);
        }
        taking_is_ground(here, last);
        let rest = taking(params.skip(at as int + 1), last);
        one_argument(c, name, param, rest, args, exprs, call, range, at);
        let expr = calls::nth_expr(exprs, at as int);
        let b = c.coerce_or_unify(param, args[at as int], expr, range, "function argument"@).0;
        c.coerce_or_unify_grows(param, args[at as int], expr, range, "function argument"@);
        assert(b.messages.len() >= c.messages.len()) by {
            reveal(growth::steps);
        }
        arguments_run_out(b, name, params, result, args, exprs, call, range, at + 1);
    } else {
        assert(here =~= Seq::empty());
        assert(taking(here, last) == last);
        ground_stays(last, c.subst);
        assert(c.peel_foralls(last, Seq::empty()) == (c, last, Seq::<Tree>::empty()));
    }
}

/// A call with more arguments than the function takes is reported.
pub proof fn surplus_arguments_are_reported(
    c: CheckerV,
    name: Option<Seq<char>>,
    params: Seq<Tree>,
    result: Seq<char>,
    args: Seq<Tree>,
    exprs: Option<Seq<Output>>,
    call: Option<NodeId>,
    range: Span,
)
    requires
        all_ground(params),
        forall|i: int|
            0 <= i < params.len() ==> !((#[trigger] params[i]) is Node && params[i].head()
                is Forall),
        params.len() < args.len(),
    ensures
        c.apply_function(
            name,
            taking(params, Tree::Node(Head::Con(result), Seq::empty())),
            args,
            exprs,
            call,
            range,
            0,
        ).0.messages.len() > c.messages.len(),
{
    assert(params.skip(0) =~= params);
    arguments_run_out(c, name, params, result, args, exprs, call, range, 0);
}

/// A value that is called, and of which nothing is known yet, becomes a function
/// from the argument to a new result, which the call gives.
pub proof fn called_values_become_functions(
    c: CheckerV,
    name: Option<Seq<char>>,
    fun_ty: Tree,
    v: TyVarId,
    arg: Tree,
    exprs: Option<Seq<Output>>,
    call: Option<NodeId>,
    range: Span,
)
    requires
        fun_ty.subst(c.subst) == Tree::Var(v),
    ensures
        ({
            let (d, t) = c.apply_function(name, fun_ty, seq![arg], exprs, call, range, 0);
            let ret = Tree::Var(TyVarId(c.counter));
            let made = Tree::Node(Head::Fun, seq![arg, ret]);
            &&& t == ret
            &&& unify::unified(c.subst, Tree::Var(v), made) matches Ok(s) ==> d.subst == s
                && d.messages == c.messages
            &&& unify::unified(c.subst, Tree::Var(v), made) is Err ==> d.messages.len()
                == c.messages.len() + 1 && d.messages.last().range == range
        }),
{
    let (b, ret) = c.fresh();
    let e = b.unify(Tree::Var(v), Tree::fun(arg, ret), range, "function type"@).0;
    assert(c.peel_foralls(Tree::Var(v), Seq::empty()) == (c, Tree::Var(v), Seq::<Tree>::empty()));
    assert(e.apply_function(name, ret, seq![arg], exprs, call, range, 1) == (e, ret));
}

} // verus!
