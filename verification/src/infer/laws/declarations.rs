//! What declarations leave behind.
use crate::ast::{Expression, Output, Visibility};
use crate::env::SchemeV;
use crate::infer::decls::{self, FnFrameV};
use crate::infer::laws::{calls, control, operators, typing};
use crate::infer::{annotations, builtins, enums, instances, ops, properties};
use crate::infer::{CheckerV, ClassFieldV};
use crate::report::{ErrorCode, Span};
use crate::tree::{self, Head, Tree};
use crate::ty::TyVarId;
use crate::unify;
use vstd::prelude::*;

verus! {

proof fn taking_one_more(params: Seq<Tree>, p: Tree, result: Tree)
    ensures
        calls::taking(params.push(p), result) == calls::taking(
            params,
            Tree::Node(Head::Fun, seq![p, result]),
        ),
    decreases params.len(),
{
    let more = params.push(p);
    if params.len() == 0 {
        assert(more.drop_first() =~= Seq::empty());
        assert(calls::taking(more.drop_first(), result) == result);
        assert(calls::taking(params, Tree::Node(Head::Fun, seq![p, result])) == Tree::Node(
            Head::Fun,
            seq![p, result],
        ));
    } else {
        assert(more[0] == params[0]);
        assert(more.drop_first() =~= params.drop_first().push(p));
        taking_one_more(params.drop_first(), p, result);
    }
}

pub(crate) proof fn curried_is_taking(params: Seq<Tree>, result: Tree)
    ensures
        builtins::curried(params, result) == calls::taking(params, result),
    decreases params.len(),
{
    if params.len() > 0 {
        let last = params.last();
        curried_is_taking(params.drop_last(), Tree::fun(last, result));
        taking_one_more(params.drop_last(), last, result);
        assert(params.drop_last().push(last) =~= params);
    }
}

/// A function takes its parameters in the order in which they are declared, after
/// the receiver where it has one, and then gives its result.
pub proof fn functions_take_their_parameters_in_order(
    args: Seq<(Seq<char>, Tree)>,
    receiver: Tree,
    result: Tree,
    types: Seq<Tree>,
)
    requires
        types.len() == args.len(),
        forall|i: int| 0 <= i < args.len() ==> #[trigger] types[i] == args[i].1,
    ensures
        decls::fn_type(args, None, result) == calls::taking(types, result),
        decls::fn_type(args, Some(receiver), result) == Tree::Node(
            Head::Fun,
            seq![receiver, calls::taking(types, result)],
        ),
{
    assert(tree::trees_of(args) =~= types);
    curried_is_taking(types, result);
}

proof fn later_names_hide_nothing(c: CheckerV, args: Seq<(Seq<char>, Tree)>, at: nat, name: Seq<char>)
    requires
        forall|j: int| at <= j < args.len() ==> (#[trigger] args[j]).0 != name,
    ensures
        c.bind_args(args, at).lookup(name) == c.lookup(name),
        c.bind_args(args, at).messages == c.messages,
        c.bind_args(args, at).subst == c.subst,
    decreases args.len() - at,
{
    if at < args.len() {
        let (n, t) = args[at as int];
        assert(args[at as int].0 != name);
        properties::latest_binding_wins(c, n, SchemeV::mono(t), name);
        later_names_hide_nothing(
            c.bind(n, SchemeV::mono(t)).note_var(n, t),
            args,
            at + 1,
            name,
        );
    }
}

proof fn bound_from(c: CheckerV, args: Seq<(Seq<char>, Tree)>, at: nat, i: int)
    requires
        at <= i < args.len(),
        forall|j: int| i < j < args.len() ==> (#[trigger] args[j]).0 != args[i].0,
    ensures
        c.bind_args(args, at).lookup(args[i].0) == Some(SchemeV::mono(args[i].1)),
    decreases args.len() - at,
{
    let (n, t) = args[at as int];
    let d = c.bind(n, SchemeV::mono(t)).note_var(n, t);
    if at < i {
        bound_from(d, args, at + 1, i);
    } else {
        properties::latest_binding_wins(c, n, SchemeV::mono(t), n);
        later_names_hide_nothing(d, args, at + 1, n);
    }
}

/// Inside of a function each parameter has its declared type.
pub proof fn parameters_have_their_types(c: CheckerV, args: Seq<(Seq<char>, Tree)>, i: int)
    requires
        0 <= i < args.len(),
        forall|j: int| i < j < args.len() ==> (#[trigger] args[j]).0 != args[i].0,
    ensures
        c.bind_args(args, 0).lookup(args[i].0) == Some(SchemeV::mono(args[i].1)),
{
    bound_from(c, args, 0, i);
}

/// The body of a function returns what the function gives; where that is a
/// `Result` it returns what the `Result` holds and may raise its error, and where
/// it is an `Option` it may use `?` on options of what it holds. The body of an
/// async function returns what it yields, one level deeper.
pub proof fn bodies_return_what_the_function_gives(
    c: CheckerV,
    ret: Tree,
    ok: Tree,
    err: Tree,
    y: Tree,
    s: Tree,
    name: Seq<char>,
)
    ensures
        name != "Option"@ && name != "Result"@ ==> c.body_context(
            typing::named(name),
            None,
            None,
            false,
        ).return_ty == Some(typing::named(name)) && c.body_context(
            typing::named(name),
            None,
            None,
            false,
        ).result_mode is None && c.body_context(
            typing::named(name),
            None,
            None,
            false,
        ).option_mode is None,
        c.body_context(control::result_of(ok, err), None, None, false).return_ty == Some(ok),
        c.body_context(control::result_of(ok, err), None, None, false).result_mode == Some(
            (ok, err),
        ),
        c.body_context(control::option_of(ok), None, None, false).return_ty == Some(
            control::option_of(ok),
        ),
        c.body_context(control::option_of(ok), None, None, false).option_mode == Some(ok),
        c.body_context(control::option_of(ok), None, None, false).result_mode is None,
        c.body_context(ret, Some(y), Some(s), true).return_ty == Some(y),
        c.body_context(ret, Some(y), Some(s), true).yield_ty == Some(y),
        c.body_context(ret, Some(y), Some(s), true).send_ty == Some(s),
        c.ctx.async_depth < usize::MAX ==> c.body_context(
            ret,
            Some(y),
            Some(s),
            true,
        ).async_depth == c.ctx.async_depth + 1,
        c.body_context(ret, None, None, false).async_depth == c.ctx.async_depth,
        !c.body_context(ret, None, None, false).yield_receives_used,
{
    control::by_name(ok, err);
    assert(enums::peeled(typing::named(name)) == typing::named(name));
}

/// Constraints that a function activates are active in its body and no longer
/// after it.
pub proof fn constraints_are_active_in_the_body(c: CheckerV, ks: Seq<Tree>, i: int)
    requires
        c.scope.active.len() <= usize::MAX,
        c.scope.type_params.len() > 0,
    ensures
        c.activate(ks).scope.active.len() == c.scope.active.len() + ks.len(),
        0 <= i < ks.len() ==> c.activate(ks).scope.active[c.scope.active.len() + i] == ks[i],
        0 <= i < c.scope.active.len() ==> c.activate(ks).scope.active[i] == c.scope.active[i],
        c.activate(ks).deactivate(c.scope.active.len() as usize).scope.active == c.scope.active,
        c.activate(ks).deactivate(c.scope.active.len() as usize).scope.type_params
            == c.scope.type_params.drop_last(),
{
    assert((c.scope.active + ks).take(c.scope.active.len() as int) =~= c.scope.active);
}

/// What a function gives is what it declares, or what its body makes of it: a
/// `Result` where it raises errors, an `Option` where it gives up on one.
pub proof fn closed_functions_give_what_their_body_makes(
    c: CheckerV,
    f: FnFrameV,
    name: Seq<char>,
    range: Span,
    ok: Tree,
    err: Tree,
)
    ensures
        c.ctx.result_mode == Some((ok, err)) ==> {
            let (d, t) = c.close_type(f, name, range, None, false);
            &&& t == decls::fn_type(
                f.args,
                None,
                control::result_variants(ok.subst(c.subst), err.subst(c.subst)),
            )
            &&& d.reg.result_mode_fns.contains(name)
            &&& d.messages == c.messages && d.subst == c.subst
        },
        c.ctx.result_mode is None && c.ctx.option_mode is None ==> {
            let (d, t) = c.close_type(f, name, range, None, false);
            &&& t == f.fun_ty
            &&& d.messages == c.messages && d.subst == c.subst
            &&& d.reg.result_mode_fns == c.reg.result_mode_fns
        },
        c.ctx.result_mode is None && c.ctx.option_mode == Some(ok) ==> {
            let (d, t) = c.close_type(f, name, range, None, false);
            &&& d.reg.option_mode_fns.contains(name)
            &&& f.ret_ty.subst(c.subst) is Var ==> t == decls::fn_type(
                f.args,
                None,
                control::option_variants(ok.subst(c.subst)),
            )
        },
{
    if let Tree::Var(v) = f.ret_ty.subst(c.subst) {
        assert(enums::peeled(Tree::Var(v)) == Tree::Var(v));
    }
}

/// A function leaves the surroundings that it was opened in: what they return,
/// yield, take and raise.
pub proof fn surroundings_come_back(c: CheckerV, f: FnFrameV)
    ensures
        c.restore_context(f.saved).ctx.return_ty == f.saved.return_ty,
        c.restore_context(f.saved).ctx.yield_ty == f.saved.yield_ty,
        c.restore_context(f.saved).ctx.send_ty == f.saved.send_ty,
        c.restore_context(f.saved).ctx.result_mode == f.saved.result_mode,
        c.restore_context(f.saved).ctx.option_mode == f.saved.option_mode,
        c.restore_context(f.saved).messages == c.messages,
        c.restore_context(f.saved).subst == c.subst,
{
}

proof fn settling_keeps(
    c: CheckerV,
    ks: Seq<Tree>,
    chosen: Map<Seq<char>, Seq<char>>,
    range: Span,
    at: nat,
    acc: Seq<Tree>,
)
    ensures
        ({
            let d = c.settle_constraints(ks, chosen, range, at, acc).0;
            &&& d == (CheckerV { messages: d.messages, ..c })
        }),
    decreases ks.len() - at,
{
    if at < ks.len() {
        let k = ks[at as int];
        let class = annotations::class_of(k);
        settling_keeps(c, ks, chosen, range, at + 1, acc.push(k));
        settling_keeps(
            c,
            ks,
            chosen,
            range,
            at + 1,
            acc.push(Tree::pred(chosen[class], k.kids())),
        );
        settling_keeps(
            c.say(
                ErrorCode::GenericTypeError,
                "Cannot satisfy abstract constraint `"@ + instances::signature(
                    class,
                    k.kids(),
                ) + "`; no concrete trait was selected"@,
                range,
            ),
            ks,
            chosen,
            range,
            at + 1,
            acc,
        );
    }
}

/// After a function is closed its surroundings are back, and the constraints that
/// were active before it are those that are active after it.
pub proof fn closed_functions_leave_no_trace(
    c: CheckerV,
    f: FnFrameV,
    name: Seq<char>,
    range: Span,
    self_ty: Option<Tree>,
    is_coro: bool,
)
    requires
        f.active_len <= c.scope.active.len(),
    ensures
        ({
            let d = c.close_function(f, name, range, self_ty, is_coro).0;
            &&& d.ctx.return_ty == f.saved.return_ty
            &&& d.ctx.yield_ty == f.saved.yield_ty
            &&& d.ctx.send_ty == f.saved.send_ty
            &&& d.ctx.result_mode == f.saved.result_mode
            &&& d.ctx.option_mode == f.saved.option_mode
            &&& d.scope.active == c.scope.active.take(f.active_len as int)
        }),
{
    let (a, t) = c.pop_scope().close_type(f, name, range, self_ty, is_coro);
    let b = a.restore_context(f.saved).unify(
        Tree::Var(f.alpha),
        t,
        range,
        "function type"@,
    ).0;
    let (e, chosen) = b.pop_abstract();
    settling_keeps(e, f.constraints, chosen, range, 0, Seq::empty());
    assert(a.scope.active == c.scope.active);
}

/// A generic function is found with all of its type variables, bounds and the
/// type that it was closed with, and a dictionary for each bound of a class of
/// the program.
pub proof fn generic_functions_are_found(
    c: CheckerV,
    f: FnFrameV,
    name: Seq<char>,
    constraints: Seq<Tree>,
    t: Tree,
    k: int,
)
    ensures
        ({
            let d = c.bind_generic(f, name, constraints, t);
            &&& d.lookup(name) matches Some(s) && s.ty == t && s.constraints == constraints
                && s.projections == f.projections && s.bounds.len() == f.param_vars.len()
                + f.projections.len() && (0 <= k < f.param_vars.len() ==> s.bounds[k]
                == f.param_vars[k]) && (0 <= k < f.projections.len() ==> s.bounds[f.param_vars.len()
                + k] == f.projections[k].var)
            &&& d.generic_fns.contains(name)
            &&& d.fn_dict_arity.contains_key(name)
            &&& d.messages == c.messages
        }),
{
    properties::latest_binding_wins(
        c,
        name,
        decls::projected_scheme(f.param_vars, f.param_kinds, constraints, f.projections, t),
        name,
    );
}

/// A method is kept with its class, its visibility and its type, and no other
/// method changes.
pub proof fn methods_are_kept_with_their_class(
    c: CheckerV,
    owner: Seq<char>,
    name: Seq<char>,
    vis: Visibility,
    vars: Seq<TyVarId>,
    t: Tree,
    other: Seq<char>,
)
    ensures
        ({
            let d = c.add_method(owner, name, vis, vars, t);
            &&& d.reg.methods.contains_key(owner)
            &&& d.reg.methods[owner].contains_key(name)
            &&& d.reg.methods[owner][name].vis == vis
            &&& d.reg.methods[owner][name].scheme.ty == t
            &&& d.reg.methods[owner][name].scheme.bounds == vars
            &&& c.reg.methods.contains_key(owner) && other != name ==> (
            d.reg.methods[owner].contains_key(other) <==> c.reg.methods[owner].contains_key(other))
                && (c.reg.methods[owner].contains_key(other) ==> d.reg.methods[owner][other]
                == c.reg.methods[owner][other])
            &&& d.messages == c.messages
        }),
{
    assert(SchemeV::mono(t).bounds =~= Seq::empty());
    if vars.len() == 0 {
        assert(vars =~= Seq::empty());
    }
}

proof fn fields_from(
    c: CheckerV,
    fields: Seq<Output>,
    field: Output,
    vis: Visibility,
    fname: Output,
    name: String,
    fty: Output,
    at: nat,
    acc: Seq<ClassFieldV>,
)
    requires
        at <= fields.len(),
        *field.expr == Expression::Field(vis, fname, fty),
        *fname.expr == Expression::Identifier(name),
    ensures
        ({
            let (d, known) = c.parse_class_fields(fields, at, acc);
            let (e, t) = d.parse_type_name(fty);
            c.parse_class_fields(fields.push(field), at, acc) == (
                e,
                known.push((ClassFieldV { vis, name: name@, ty: t })),
            )
        }),
    decreases fields.len() - at,
{
    let more = fields.push(field);
    let here = more[at as int];
    if at < fields.len() {
        assert(here == fields[at as int]);
        match *here.expr {
            Expression::Field(v, n, ty) => match ops::bare_name(n) {
                Some(m) => {
                    let (d, t) = c.parse_type_name(ty);
                    fields_from(
                        d,
                        fields,
                        field,
                        vis,
                        fname,
                        name,
                        fty,
                        at + 1,
                        acc.push(ClassFieldV { vis: v, name: m, ty: t }),
                    );
                },
                None => {
                    fields_from(
                        c.say(
                            ErrorCode::GenericTypeError,
                            "Invalid field name"@,
                            here.span,
                        ),
                        fields,
                        field,
                        vis,
                        fname,
                        name,
                        fty,
                        at + 1,
                        acc,
                    );
                },
            },
            _ => {
                fields_from(
                    c.say(
                        ErrorCode::GenericTypeError,
                        "Expected a field declaration"@,
                        here.span,
                    ),
                    fields,
                    field,
                    vis,
                    fname,
                    name,
                    fty,
                    at + 1,
                    acc,
                );
            },
        }
    } else {
        assert(here == field);
        let (d, t) = c.parse_type_name(fty);
        let last = acc.push(ClassFieldV { vis, name: name@, ty: t });
        assert(d.parse_class_fields(more, at + 1, last) == (d, last));
    }
}

/// The fields of a class are read in the order of their declaration, each with
/// its visibility, name and type.
pub proof fn class_fields_are_read_in_order(
    c: CheckerV,
    fields: Seq<Output>,
    field: Output,
    vis: Visibility,
    fname: Output,
    name: String,
    fty: Output,
)
    requires
        *field.expr == Expression::Field(vis, fname, fty),
        *fname.expr == Expression::Identifier(name),
    ensures
        ({
            let (d, known) = c.parse_class_fields(fields, 0, Seq::empty());
            let (e, t) = d.parse_type_name(fty);
            c.parse_class_fields(fields.push(field), 0, Seq::empty()) == (
                e,
                known.push((ClassFieldV { vis, name: name@, ty: t })),
            )
        }),
        c.parse_class_fields(Seq::empty(), 0, Seq::empty()) == (c, Seq::<ClassFieldV>::empty()),
{
    fields_from(c, fields, field, vis, fname, name, fty, 0, Seq::empty());
}

/// A class is kept under its name with the fields that were read for it, and its
/// name stands for it.
pub proof fn classes_are_kept_with_their_fields(
    c: CheckerV,
    name: Seq<char>,
    fields: Seq<Output>,
    i: int,
)
    requires
        c.scope.type_params.len() == 0,
        c.parse_class_fields(fields, 0, Seq::empty()).0.scope.type_params.len() == 0,
    ensures
        ({
            let (b, known) = c.parse_class_fields(fields, 0, Seq::empty());
            let d = c.register_class(name, fields);
            &&& d.reg.classes.contains_key(name)
            &&& d.reg.classes[name] == known
            &&& d.lookup(name) == Some(SchemeV::mono(typing::named(name)))
            &&& d.messages == b.messages
            &&& d.reg.generics.nominal_type_modules.contains_key(name)
            &&& d.reg.generics.nominal_type_modules[name] == b.scope.module
        }),
{
    let (b, known) = c.parse_class_fields(fields, 0, Seq::empty());
    let e = b.enter_class(name, known).register_nominal(name);
    properties::latest_binding_wins(e, name, SchemeV::mono(Tree::con(name)), name);
}

proof fn parameters_by_name(
    order: Seq<Seq<char>>,
    frame: Map<Seq<char>, TyVarId>,
    n: nat,
    k: int,
)
    requires
        0 <= k < n <= order.len(),
        forall|i: int, j: int|
            0 <= i < j < n ==> frame[#[trigger] order[i]] != frame[#[trigger] order[j]],
    ensures
        decls::schema_map(order, frame, n).contains_key(frame[order[k]]),
        decls::schema_map(order, frame, n)[frame[order[k]]] == typing::named(order[k]),
    decreases n,
{
    if k < n - 1 {
        parameters_by_name(order, frame, (n - 1) as nat, k);
        assert(frame[order[k]] != frame[order[n - 1]]);
    }
}

/// In what is kept of a generic class, a type parameter stands by its name.
pub proof fn generic_fields_are_kept_by_name(
    c: CheckerV,
    fields: Seq<ClassFieldV>,
    i: int,
    k: int,
)
    requires
        c.scope.type_params.len() > 0,
        c.scope.param_order.len() > 0,
        0 <= k < c.scope.param_order.last().len(),
        forall|p: int, q: int|
            0 <= p < q < c.scope.param_order.last().len() ==> c.scope.type_params.last()[
                #[trigger] c.scope.param_order.last()[p]
            ] != c.scope.type_params.last()[#[trigger] c.scope.param_order.last()[q]],
        0 <= i < fields.len(),
        fields[i].ty == Tree::Var(c.scope.type_params.last()[c.scope.param_order.last()[k]]),
    ensures
        c.schemaized(fields).len() == fields.len(),
        c.schemaized(fields)[i].name == fields[i].name,
        c.schemaized(fields)[i].vis == fields[i].vis,
        c.schemaized(fields)[i].ty == typing::named(c.scope.param_order.last()[k]),
{
    let order = c.scope.param_order.last();
    parameters_by_name(order, c.scope.type_params.last(), order.len(), k);
}

/// A declared result is the one that is annotated; without an annotation it is
/// left open.
pub proof fn results_are_as_annotated(c: CheckerV, r: Output)
    ensures
        c.open_return(Some(r), false).0 == c.parse_type_name(r).0,
        c.open_return(Some(r), false).1 == c.parse_type_name(r).1,
        c.open_return(None, false).1 == Tree::Var(TyVarId(c.counter)),
        c.open_return(None, false).0.messages == c.messages,
        c.annotated(Some(r)) == c.parse_type_name(r),
        c.annotated(None).1 == Tree::Var(TyVarId(c.counter)),
{
}

/// A variable is bound to its annotated type, or to an open one, and so is a
/// constant, which cannot be assigned to from there on.
pub proof fn variables_are_bound_to_their_annotation(
    c: CheckerV,
    name: Seq<char>,
    ann: Option<Output>,
    cname: Output,
    n: String,
    range: Span,
)
    requires
        *cname.expr == Expression::Identifier(n),
    ensures
        c.declare_var(name, ann).0.lookup(name) == Some(SchemeV::mono(c.annotated(ann).1)),
        c.declare_var(name, ann).0.messages == c.annotated(ann).0.messages,
        c.open_let(name, ann).0.lookup(name) == Some(SchemeV::mono(c.annotated(ann).1)),
        c.open_let(name, ann).1 == c.annotated(ann).1,
        c.declare_const(cname, ann, range).0.lookup(n@) == Some(
            SchemeV::mono(c.annotated(ann).1),
        ),
        c.declare_const(cname, ann, range).0.is_const(n@),
        c.declare_const(cname, ann, range).0.messages == c.annotated(ann).0.messages,
{
    let (b, t) = c.annotated(ann);
    properties::latest_binding_wins(b, name, SchemeV::mono(t), name);
    properties::latest_binding_wins(b, n@, SchemeV::mono(t), n@);
    operators::declared_constants_are_constant(
        b.bind(n@, SchemeV::mono(t)),
        n@,
        n@,
    );
}

/// What a variable is initialized by has to stand where its type is wanted, and
/// the variable is noted with its type as far as it is known then.
pub proof fn initial_values_fit_their_variable(
    c: CheckerV,
    name: Seq<char>,
    want: Tree,
    have: Tree,
    next: Output,
    range: Span,
    what: Seq<char>,
)
    requires
        operators::plain(want.subst(c.subst), have.subst(c.subst)),
    ensures
        ({
            let d = c.initialize(name, want, have, next, range, what);
            &&& d.out.var_types.contains_key(name)
            &&& d.out.var_types[name] == want.subst(d.subst)
            &&& unify::unified(c.subst, want.subst(c.subst), have.subst(c.subst)) matches Ok(s)
                ==> d.subst == s && d.messages == c.messages
            &&& unify::unified(c.subst, want.subst(c.subst), have.subst(c.subst)) is Err
                ==> d.messages.len() == c.messages.len() + 1 && d.messages.last().range == range
        }),
{
    operators::plain_values_unify(
        c,
        want,
        have,
        Some(next),
        range,
        what,
    );
}

/// An alias stands for its type in the frame that declares it; a second one of
/// that name in the same frame is reported and changes nothing that stands.
pub proof fn aliases_stand_for_their_types(
    c: CheckerV,
    name: Seq<char>,
    t: Tree,
    range: Span,
)
    requires
        c.scope.type_aliases.len() > 0,
    ensures
        ({
            let d = c.register_type_alias(name, t, range);
            let taken = c.scope.generic_aliases.contains_key(name)
                || c.scope.type_aliases.last().contains_key(name);
            &&& taken ==> typing::complained(c, d, range)
            &&& !taken ==> d.messages == c.messages && d.scope.type_aliases.last().contains_key(
                name,
            ) && d.scope.type_aliases.last()[name] == t && d.scope.type_aliases.len()
                == c.scope.type_aliases.len()
        }),
{
}

} // verus!
