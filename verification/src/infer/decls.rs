//! Declarations of classes and functions, around the bodies that they hold.
use crate::ast::{Expression, Output, TypeParam, WhereConstraint};
use crate::env::{self, AssocProjection, ProjectionV, Scheme, SchemeV, copy_kinds, copy_projections};
use crate::generics::GenericsV;
use crate::infer::annotations;
use crate::infer::builtins::{self, curry};
use crate::infer::enums::{self, is_option_ty, option_inner, result_ok_err};
use crate::infer::instances::{self, instance_signature};
use crate::infer::ops::{self, coroutine_type, name_of};
use crate::infer::traits;
use crate::infer::{Checker, CheckerV, ClassField, ClassFieldV, CtxV, FnContext, RegistryV, ScopesV};
use crate::kind::Kind;
use crate::maps::{Dup, NameMap};
use crate::report::{ErrorCode, Span};
use crate::subst::{Subst, apply_ty};
use crate::text::cat3;
use crate::tree::{self, Head, Tree};
use crate::ty::{self, Constraint, Ty, TyVarId, con, copy_constraints, copy_vars, fun, option_ty, result_ty, unit};
use crate::unify::field_types;
use vstd::prelude::*;

verus! {

broadcast use crate::tree::group_shapes;

/// A constraint by a class that a program declares, not the compiler.
pub open spec fn user_bound(constraint: Tree) -> bool {
    match constraint {
        Tree::Node(Head::Pred(class), _) => !traits::builtin_class(class),
        _ => false,
    }
}

/// How many constraints are by classes that programs declare.
pub open spec fn user_slots(constraints: Seq<Tree>) -> nat {
    constraints.filter(|c: Tree| user_bound(c)).len()
}

/// How many constraints are by classes that programs declare.
pub fn count_user_slots(constraints: &Vec<Constraint>) -> (r: usize)
    ensures
        r == user_slots(constraints.deep_view()),
{
    let ghost all = constraints.deep_view();
    let ghost by_user = |c: Tree| user_bound(c);
    let mut n: usize = 0;
    let mut i: usize = 0;
    assert(all.take(0).filter(by_user) =~= Seq::<Tree>::empty()) by {
        reveal(Seq::filter);
    }
    while i < constraints.len()
        invariant
            n <= i <= constraints.len(),
            all == constraints.deep_view(),
            by_user == (|c: Tree| user_bound(c)),
            n == all.take(i as int).filter(by_user).len(),
        decreases constraints.len() - i,
    {
        proof {
            assert(all[i as int] == constraints@[i as int]@);
            assert(all.take(i + 1).drop_last() =~= all.take(i as int));
            reveal(Seq::filter);
        }
        if !Checker::is_builtin_class(constraints[i].class.as_str()) {
            n += 1;
        }
        i += 1;
    }
    assert(all.take(i as int) =~= all);
    n
}

/// The names of type parameters.
pub open spec fn param_names(params: Seq<TypeParam>) -> Seq<Seq<char>> {
    Seq::new(params.len(), |i: int| params[i].name@)
}

/// The names of type parameters.
pub fn names_of_params(params: &Vec<TypeParam>) -> (r: Vec<String>)
    ensures
        r.deep_view() == param_names(params@),
{
    let ghost all = param_names(params@);
    let mut r: Vec<String> = Vec::new();
    let mut i: usize = 0;
    while i < params.len()
        invariant
            i <= params.len(),
            all == param_names(params@),
            r.deep_view() == all.take(i as int),
        decreases params.len() - i,
    {
        let ghost before = r.deep_view();
        let x = params[i].name.clone();
        r.push(x);
        assert(r.deep_view() =~= before.push(x@));
        i += 1;
        assert(r.deep_view() =~= all.take(i as int));
    }
    assert(r.deep_view() =~= all);
    r
}

/// The first `n` type parameters with variables from `next` on.
pub open spec fn plain_frame(params: Seq<TypeParam>, next: u32, n: nat) -> Map<Seq<char>, TyVarId>
    decreases n,
{
    if n == 0 {
        Map::empty()
    } else {
        plain_frame(params, next, (n - 1) as nat).insert(
            params[n - 1].name@,
            TyVarId(env::bump_by(next, (n - 1) as nat)),
        )
    }
}

/// Each type parameter of the list is in the frame.
pub proof fn plain_frame_has(params: Seq<TypeParam>, next: u32, n: nat, i: int)
    requires
        0 <= i < n <= params.len(),
    ensures
        plain_frame(params, next, n).contains_key(params[i].name@),
    decreases n,
{
    if i < n - 1 {
        plain_frame_has(params, next, (n - 1) as nat, i);
    }
}

/// The variables of type parameters in a frame.
pub open spec fn vars_in_frame(frame: Map<Seq<char>, TyVarId>, params: Seq<TypeParam>) -> Seq<TyVarId> {
    Seq::new(params.len(), |i: int| frame[params[i].name@])
}

/// The variables of a frame, each mapped to the name of its type parameter.
pub open spec fn schema_map(
    order: Seq<Seq<char>>,
    frame: Map<Seq<char>, TyVarId>,
    n: nat,
) -> Map<TyVarId, Tree>
    decreases n,
{
    if n == 0 {
        Map::empty()
    } else {
        schema_map(order, frame, (n - 1) as nat).insert(
            frame[order[n - 1]],
            Tree::con(order[n - 1]),
        )
    }
}

/// The variables of a frame, each mapped to the name of its type parameter.
pub fn schema_subst(frame: &NameMap<TyVarId>) -> (r: Subst)
    ensures
        r@ == schema_map(frame.order(), frame@, frame.order().len()),
{
    let mut s = Subst::empty();
    let n = frame.len();
    let mut i: usize = 0;
    while i < n
        invariant
            i <= n,
            n == frame.order().len(),
            s@ == schema_map(frame.order(), frame@, i as nat),
        decreases n - i,
    {
        let k = frame.key_at(i);
        if let Some(v) = frame.get(k.as_str()) {
            s.insert(*v, con(k.as_str()));
        }
        i += 1;
    }
    s
}

/// Class fields with the type parameters by their names.
pub open spec fn schema_fields(fields: Seq<ClassFieldV>, m: Map<TyVarId, Tree>) -> Seq<ClassFieldV> {
    Seq::new(
        fields.len(),
        |i: int| ClassFieldV { ty: fields[i].ty.subst(m), ..fields[i] },
    )
}

fn schemaize_fields(fields: &Vec<ClassField>, s: &Subst) -> (r: Vec<ClassField>)
    ensures
        r.deep_view() == schema_fields(fields.deep_view(), s@),
{
    let ghost all = schema_fields(fields.deep_view(), s@);
    let mut out: Vec<ClassField> = Vec::new();
    let mut i: usize = 0;
    while i < fields.len()
        invariant
            i <= fields.len(),
            all == schema_fields(fields.deep_view(), s@),
            out.deep_view() == all.take(i as int),
        decreases fields.len() - i,
    {
        let ghost before = out.deep_view();
        assert(fields.deep_view()[i as int] == fields@[i as int]@);
        let f = ClassField {
            vis: fields[i].vis,
            name: fields[i].name.clone(),
            ty: apply_ty(s, &fields[i].ty),
        };
        out.push(f);
        assert(out.deep_view() =~= before.push(f@));
        i += 1;
        assert(out.deep_view() =~= all.take(i as int));
    }
    assert(out.deep_view() =~= all);
    out
}

/// A function of these arguments, after the receiver if there is one.
pub open spec fn fn_type(args: Seq<(Seq<char>, Tree)>, self_ty: Option<Tree>, ret: Tree) -> Tree {
    let t = builtins::curried(tree::trees_of(args), ret);
    match self_ty {
        Some(s) => Tree::fun(s, t),
        None => t,
    }
}

/// A function of these arguments, after the receiver if there is one.
pub fn function_type(args: &Vec<(String, Ty)>, self_ty: Option<&Ty>, ret: Ty) -> (r: Ty)
    ensures
        r@ == fn_type(args.deep_view(), opt_tree(self_ty), ret@),
{
    let params = field_types(args);
    let t = curry(&params, ret);
    match self_ty {
        Some(s) => fun(s.clone(), t),
        None => t,
    }
}

/// The model of an optional type.
pub open spec fn opt_tree(t: Option<&Ty>) -> Option<Tree> {
    match t {
        Some(t) => Some(t@),
        None => None,
    }
}

/// The model of an optional node.
pub open spec fn opt_output(e: Option<&Output>) -> Option<Output> {
    match e {
        Some(e) => Some(*e),
        None => None,
    }
}

/// One level deeper.
pub open spec fn deeper(n: usize) -> usize {
    if n < usize::MAX {
        (n + 1) as usize
    } else {
        n
    }
}

/// The variables of projections.
pub open spec fn projection_vars(ps: Seq<ProjectionV>) -> Seq<TyVarId> {
    Seq::new(ps.len(), |i: int| ps[i].var)
}

/// `n` times the kind of proper types.
pub open spec fn type_kinds(n: nat) -> Seq<Kind> {
    Seq::new(n, |i: int| Kind::Type)
}

/// A scheme that also quantifies the variables of its projections.
pub open spec fn projected_scheme(
    vars: Seq<TyVarId>,
    kinds: Seq<Kind>,
    constraints: Seq<Tree>,
    projections: Seq<ProjectionV>,
    ty: Tree,
) -> SchemeV {
    SchemeV {
        bounds: vars + projection_vars(projections),
        kinds: kinds + type_kinds(projections.len()),
        constraints,
        projections,
        ty,
    }
}

/// A scheme that also quantifies the variables of its projections.
pub fn scheme_with_projections(
    vars: &Vec<TyVarId>,
    kinds: &Vec<Kind>,
    constraints: Vec<Constraint>,
    projections: &Vec<AssocProjection>,
    ty: Ty,
) -> (r: Scheme)
    ensures
        r@ == projected_scheme(
            vars@,
            kinds@,
            constraints.deep_view(),
            projections.deep_view(),
            ty@,
        ),
{
    let ghost ps = projections.deep_view();
    let mut bounds = copy_vars(vars);
    let mut all_kinds = copy_kinds(kinds);
    let mut i: usize = 0;
    assert(vars@ + projection_vars(ps).take(0) =~= vars@);
    assert(kinds@ + type_kinds(ps.len()).take(0) =~= kinds@);
    while i < projections.len()
        invariant
            i <= projections.len(),
            ps == projections.deep_view(),
            bounds@ == vars@ + projection_vars(ps).take(i as int),
            all_kinds@ == kinds@ + type_kinds(ps.len()).take(i as int),
        decreases projections.len() - i,
    {
        assert(ps[i as int] == projections@[i as int]@);
        bounds.push(projections[i].var);
        all_kinds.push(Kind::Type);
        i += 1;
        assert(bounds@ =~= vars@ + projection_vars(ps).take(i as int));
        assert(all_kinds@ =~= kinds@ + type_kinds(ps.len()).take(i as int));
    }
    assert(projection_vars(ps).take(ps.len() as int) =~= projection_vars(ps));
    assert(type_kinds(ps.len()).take(ps.len() as int) =~= type_kinds(ps.len()));
    Scheme {
        bounds,
        kinds: all_kinds,
        constraints,
        assoc_projections: copy_projections(projections),
        ty,
    }
}

/// What is kept of a function while its body is typed.
#[derive(Debug)]
pub struct FnFrame {
    pub param_vars: Vec<TyVarId>,
    pub param_kinds: Vec<Kind>,
    pub constraints: Vec<Constraint>,
    pub active_len: usize,
    pub projections: Vec<AssocProjection>,
    pub args: Vec<(String, Ty)>,
    pub ret_ty: Ty,
    pub fun_ty: Ty,
    pub alpha: TyVarId,
    pub saved: FnContext,
}

/// The model of a [`FnFrame`].
#[verifier::ext_equal]
pub struct FnFrameV {
    pub param_vars: Seq<TyVarId>,
    pub param_kinds: Seq<Kind>,
    pub constraints: Seq<Tree>,
    pub active_len: usize,
    pub projections: Seq<ProjectionV>,
    pub args: Seq<(Seq<char>, Tree)>,
    pub ret_ty: Tree,
    pub fun_ty: Tree,
    pub alpha: TyVarId,
    pub saved: CtxV,
}

impl View for FnFrame {
    type V = FnFrameV;

    open spec fn view(&self) -> FnFrameV {
        FnFrameV {
            param_vars: self.param_vars@,
            param_kinds: self.param_kinds@,
            constraints: self.constraints.deep_view(),
            active_len: self.active_len,
            projections: self.projections.deep_view(),
            args: self.args.deep_view(),
            ret_ty: self.ret_ty@,
            fun_ty: self.fun_ty@,
            alpha: self.alpha,
            saved: self.saved@,
        }
    }
}

impl CheckerV {
    /// A generic type constructor is entered; what was entered before under its
    /// name is returned.
    pub open spec fn register_generic_type_ctor(self, name: Seq<char>, params: Seq<TypeParam>) -> (
        CheckerV,
        Option<Seq<Seq<char>>>,
    ) {
        let ctors = self.reg.generics.generic_type_ctors;
        let previous = if ctors.contains_key(name) {
            Some(ctors[name])
        } else {
            None
        };
        if params.len() == 0 {
            (self, previous)
        } else {
            (self.with_ctors(ctors.insert(name, param_names(params))), previous)
        }
    }

    /// Other generic type constructors.
    pub open spec fn with_ctors(self, ctors: Map<Seq<char>, Seq<Seq<char>>>) -> CheckerV {
        CheckerV {
            reg: RegistryV {
                generics: GenericsV { generic_type_ctors: ctors, ..self.reg.generics },
                ..self.reg
            },
            ..self
        }
    }

    /// What was entered before is entered again.
    pub open spec fn restore_generic_type_ctor(
        self,
        name: Seq<char>,
        previous: Option<Seq<Seq<char>>>,
    ) -> CheckerV {
        let ctors = self.reg.generics.generic_type_ctors;
        match previous {
            Some(params) => self.with_ctors(ctors.insert(name, params)),
            None => self.with_ctors(ctors.remove(name)),
        }
    }

    /// A frame of type parameters is opened, when there are any.
    pub open spec fn push_type_params(self, params: Seq<TypeParam>) -> CheckerV {
        if params.len() == 0 {
            self
        } else {
            CheckerV {
                counter: env::bump_by(self.counter, params.len()),
                ..self
            }.push_params(
                plain_frame(params, self.counter, params.len()),
                annotations::frame_order(params, params.len()),
            )
        }
    }

    /// The variables of the type parameters that `push_type_params` opens.
    pub open spec fn pushed_vars(self, params: Seq<TypeParam>) -> Seq<TyVarId> {
        vars_in_frame(plain_frame(params, self.counter, params.len()), params)
    }

    /// The frame of type parameters is closed, when it was opened.
    pub open spec fn pop_type_params(self, pushed: bool) -> CheckerV {
        if pushed {
            self.pop_params()
        } else {
            self
        }
    }

    /// The fields of a class, from place `at` on.
    pub open spec fn parse_class_fields(self, fields: Seq<Output>, at: nat, acc: Seq<ClassFieldV>) -> (
        CheckerV,
        Seq<ClassFieldV>,
    )
        decreases fields.len() - at,
    {
        if at >= fields.len() {
            (self, acc)
        } else {
            let field = fields[at as int];
            match *field.expr {
                Expression::Field(vis, fname, fty) => match ops::bare_name(fname) {
                    Some(name) => {
                        let (c, t) = self.parse_type_name(fty);
                        c.parse_class_fields(
                            fields,
                            at + 1,
                            acc.push(ClassFieldV { vis, name, ty: t }),
                        )
                    },
                    None => self.say(
                        ErrorCode::GenericTypeError,
                        "Invalid field name"@,
                        field.span,
                    ).parse_class_fields(fields, at + 1, acc),
                },
                _ => self.say(
                    ErrorCode::GenericTypeError,
                    "Expected a field declaration"@,
                    field.span,
                ).parse_class_fields(fields, at + 1, acc),
            }
        }
    }

    /// A class is entered with these fields, and its name is bound.
    pub open spec fn enter_class(self, name: Seq<char>, fields: Seq<ClassFieldV>) -> CheckerV {
        CheckerV {
            reg: RegistryV { classes: self.reg.classes.insert(name, fields), ..self.reg },
            ..self
        }
    }

    /// The fields with the type parameters in scope by their names.
    pub open spec fn schemaized(self, fields: Seq<ClassFieldV>) -> Seq<ClassFieldV> {
        if self.scope.type_params.len() > 0 && self.scope.param_order.last().len() > 0 {
            let order = self.scope.param_order.last();
            schema_fields(
                fields,
                schema_map(order, self.scope.type_params.last(), order.len()),
            )
        } else {
            fields
        }
    }

    /// A class is declared.
    pub open spec fn register_class(self, name: Seq<char>, fields: Seq<Output>) -> CheckerV {
        let (c, info) = self.parse_class_fields(fields, 0, Seq::empty());
        c.enter_class(name, c.schemaized(info)).register_nominal(name).bind(
            name,
            SchemeV::mono(Tree::con(name)),
        )
    }

    /// The named arguments of a function, from place `at` on.
    pub open spec fn parse_args(self, items: Seq<Output>, at: nat, acc: Seq<(Seq<char>, Tree)>) -> (
        CheckerV,
        Seq<(Seq<char>, Tree)>,
    )
        decreases items.len() - at,
    {
        if at >= items.len() {
            (self, acc)
        } else {
            match *items[at as int].expr {
                Expression::Argument(ty, name) => {
                    let (c, t) = self.parse_type_name(ty);
                    c.parse_args(items, at + 1, acc.push((name@, t)))
                },
                _ => self.parse_args(items, at + 1, acc),
            }
        }
    }

    /// The named arguments of a function.
    pub open spec fn parse_arg_list(self, args: Output) -> (CheckerV, Seq<(Seq<char>, Tree)>) {
        match *args.expr {
            Expression::Fragment(items) => self.parse_args(items@, 0, Seq::empty()),
            _ => (self, Seq::empty()),
        }
    }

    /// The constraints of `where` clauses, from place `at` on.
    pub open spec fn parse_wheres(self, clauses: Seq<WhereConstraint>, at: nat, acc: Seq<Tree>) -> (
        CheckerV,
        Seq<Tree>,
    )
        decreases clauses.len() - at,
    {
        if at >= clauses.len() {
            (self, acc)
        } else {
            let w = clauses[at as int];
            let (c, args) = self.parse_type_names(w.args@, 0, Seq::empty());
            c.parse_wheres(clauses, at + 1, acc.push(Tree::pred(w.class@, args)))
        }
    }

    /// The type that a function returns; a coroutine has types that it yields
    /// and receives.
    pub open spec fn open_return(self, declared_ret: Option<Output>, is_coro: bool) -> (
        CheckerV,
        Tree,
        Option<Tree>,
        Option<Tree>,
    ) {
        if is_coro {
            let (c, y) = self.fresh();
            let (c, s) = c.fresh();
            let c = match declared_ret {
                Some(r) => {
                    let (c, declared) = c.parse_type_name(r);
                    c.unify(y, declared, r.span, "async fn return type"@).0
                },
                None => c,
            };
            (c, ops::coroutine(y, s), Some(y), Some(s))
        } else {
            let (c, t) = match declared_ret {
                Some(r) => self.parse_type_name(r),
                None => self.fresh(),
            };
            (c, t, None, None)
        }
    }

    /// Projections are collected from here on, or not.
    pub open spec fn with_projections(self, ps: Option<Seq<ProjectionV>>) -> CheckerV {
        CheckerV { ctx: CtxV { projections: ps, ..self.ctx }, ..self }
    }

    /// The constraints of a function are active, and its abstract constraint
    /// parameters are free.
    pub open spec fn activate(self, constraints: Seq<Tree>) -> CheckerV {
        CheckerV {
            scope: ScopesV {
                active: self.scope.active + constraints,
                abstract_bindings: self.scope.abstract_bindings.push(Map::empty()),
                ..self.scope
            },
            ..self
        }
    }

    /// What the body of a function that returns `ret` finds around it.
    pub open spec fn body_context(
        self,
        ret: Tree,
        yield_ty: Option<Tree>,
        send_ty: Option<Tree>,
        is_coro: bool,
    ) -> CtxV {
        let result = if is_coro {
            None
        } else {
            enums::result_items(ret)
        };
        let option = if !is_coro && result is None && enums::is_option(ret) {
            enums::option_item(ret)
        } else {
            None
        };
        CtxV {
            result_mode: result,
            option_mode: option,
            return_ty: Some(
                if is_coro {
                    match yield_ty {
                        Some(y) => y,
                        None => Tree::con("unit"@),
                    }
                } else {
                    match result {
                        Some((ok, _)) => ok,
                        None => ret,
                    }
                },
            ),
            yield_ty,
            send_ty,
            yield_receives_used: false,
            async_depth: if is_coro {
                deeper(self.ctx.async_depth)
            } else {
                self.ctx.async_depth
            },
            ..self.ctx
        }
    }

    /// Arguments are bound, from place `at` on.
    pub open spec fn bind_args(self, args: Seq<(Seq<char>, Tree)>, at: nat) -> CheckerV
        decreases args.len() - at,
    {
        if at >= args.len() {
            self
        } else {
            let (name, t) = args[at as int];
            self.bind(name, SchemeV::mono(t)).note_var(name, t).bind_args(args, at + 1)
        }
    }

    /// The signature of a function: its arguments, what it returns, what a
    /// coroutine yields and receives, and its projections.
    pub open spec fn open_signature(
        self,
        collect: bool,
        args: Output,
        declared_ret: Option<Output>,
        is_coro: bool,
    ) -> (
        CheckerV,
        Seq<(Seq<char>, Tree)>,
        (Tree, Option<Tree>, Option<Tree>),
        Seq<ProjectionV>,
    ) {
        let c = if collect {
            self.with_projections(Some(Seq::empty()))
        } else {
            self
        };
        let (c, arg_tys) = c.parse_arg_list(args);
        let (c, ret, y, s) = c.open_return(declared_ret, is_coro);
        if collect {
            (
                c.with_projections(None),
                arg_tys,
                (ret, y, s),
                match c.ctx.projections {
                    Some(ps) => ps,
                    None => Seq::empty(),
                },
            )
        } else {
            (c, arg_tys, (ret, y, s), Seq::empty())
        }
    }

    /// A coroutine is recorded.
    pub open spec fn note_async(self, name: Seq<char>, is_coro: bool) -> CheckerV {
        if is_coro {
            CheckerV {
                reg: RegistryV {
                    async_functions: self.reg.async_functions.insert(name),
                    ..self.reg
                },
                ..self
            }
        } else {
            self
        }
    }

    /// Everything of a function before its body.
    pub open spec fn open_function(
        self,
        name: Seq<char>,
        params: Seq<TypeParam>,
        args: Output,
        declared_ret: Option<Output>,
        clauses: Seq<WhereConstraint>,
        range: Span,
        self_ty: Option<Tree>,
        is_coro: bool,
    ) -> (CheckerV, FnFrameV) {
        let kinds = Seq::new(params.len(), |i: int| self.resolve_type_param_kind(params[i]));
        let (c, frame, vars) = self.fresh_params(params, 0, Map::empty(), Seq::empty());
        let c = c.push_params(frame, annotations::frame_order(params, params.len()));
        let (c, constraints) = c.constraints_from_params(params, vars, range, 0, Seq::empty());
        let (c, constraints) = c.parse_wheres(clauses, 0, constraints);
        let active_len = c.scope.active.len() as usize;
        let c = c.activate(constraints);
        let collect = params.len() > 0 && c.ctx.projections is None;
        let (c, arg_tys, (ret, y, s), projections) = c.open_signature(
            collect,
            args,
            declared_ret,
            is_coro,
        );
        let (c, alpha) = c.fresh_var();
        let f = FnFrameV {
            param_vars: vars,
            param_kinds: kinds,
            constraints,
            active_len,
            projections,
            args: arg_tys,
            ret_ty: ret,
            fun_ty: fn_type(arg_tys, self_ty, ret),
            alpha,
            saved: c.ctx,
        };
        let c = CheckerV { ctx: c.body_context(ret, y, s, is_coro), ..c };
        let c = c.note_async(name, is_coro).bind(
            name,
            SchemeV::mono(Tree::Var(alpha)),
        ).push_scope();
        let c = match self_ty {
            Some(t) => c.note_var("self"@, t),
            None => c,
        };
        (c.bind_args(arg_tys, 0), f)
    }

    /// The type of a function, now that its body is typed.
    pub open spec fn close_type(
        self,
        f: FnFrameV,
        name: Seq<char>,
        range: Span,
        self_ty: Option<Tree>,
        is_coro: bool,
    ) -> (CheckerV, Tree) {
        if is_coro {
            let c = CheckerV {
                ctx: CtxV { async_depth: f.saved.async_depth, ..self.ctx },
                ..self
            };
            let (c, t) = match (c.ctx.yield_ty, c.ctx.send_ty) {
                (Some(y), Some(s)) => {
                    let ry = c.resolve(y);
                    let rs = c.resolve(s);
                    if c.ctx.yield_receives_used {
                        (c, fn_type(f.args, self_ty, ops::coroutine(ry, rs)))
                    } else {
                        let unit_t = Tree::con("unit"@);
                        (
                            c.unify(rs, unit_t, range, "coroutine send type"@).0,
                            fn_type(f.args, self_ty, ops::coroutine(ry, unit_t)),
                        )
                    }
                },
                _ => (c, f.fun_ty),
            };
            (
                CheckerV {
                    ctx: CtxV { yield_receives_used: f.saved.yield_receives_used, ..c.ctx },
                    ..c
                },
                t,
            )
        } else {
            match (self.ctx.result_mode, self.ctx.option_mode) {
                (Some((ok, err)), _) => (
                    CheckerV {
                        reg: RegistryV {
                            result_mode_fns: self.reg.result_mode_fns.insert(name),
                            ..self.reg
                        },
                        ..self
                    },
                    fn_type(
                        f.args,
                        self_ty,
                        Tree::result_sum(self.resolve(ok), self.resolve(err)),
                    ),
                ),
                (None, Some(item)) => (
                    CheckerV {
                        reg: RegistryV {
                            option_mode_fns: self.reg.option_mode_fns.insert(name),
                            ..self.reg
                        },
                        ..self
                    },
                    if enums::is_option(self.resolve(f.ret_ty)) {
                        f.fun_ty
                    } else {
                        fn_type(f.args, self_ty, Tree::option_sum(self.resolve(item)))
                    },
                ),
                (None, None) => (
                    if enums::is_option(self.resolve(f.ret_ty)) {
                        CheckerV {
                            reg: RegistryV {
                                option_mode_fns: self.reg.option_mode_fns.insert(name),
                                ..self.reg
                            },
                            ..self
                        }
                    } else {
                        self
                    },
                    f.fun_ty,
                ),
            }
        }
    }

    /// What was around a function is there again.
    pub open spec fn restore_context(self, saved: CtxV) -> CheckerV {
        CheckerV {
            ctx: CtxV {
                yield_ty: saved.yield_ty,
                send_ty: saved.send_ty,
                return_ty: saved.return_ty,
                result_mode: saved.result_mode,
                option_mode: saved.option_mode,
                ..self.ctx
            },
            ..self
        }
    }

    /// Abstract constraints become those of the classes chosen in the body, from
    /// place `at` on; one without a choice is reported.
    pub open spec fn settle_constraints(
        self,
        constraints: Seq<Tree>,
        chosen: Map<Seq<char>, Seq<char>>,
        range: Span,
        at: nat,
        acc: Seq<Tree>,
    ) -> (CheckerV, Seq<Tree>)
        decreases constraints.len() - at,
    {
        if at >= constraints.len() {
            (self, acc)
        } else {
            let k = constraints[at as int];
            let class = annotations::class_of(k);
            if self.constraint_param_kind(class) is None {
                self.settle_constraints(constraints, chosen, range, at + 1, acc.push(k))
            } else if chosen.contains_key(class) {
                self.settle_constraints(
                    constraints,
                    chosen,
                    range,
                    at + 1,
                    acc.push(Tree::pred(chosen[class], k.kids())),
                )
            } else {
                self.say(
                    ErrorCode::GenericTypeError,
                    "Cannot satisfy abstract constraint `"@ + instances::signature(class, k.kids())
                        + "`; no concrete trait was selected"@,
                    range,
                ).settle_constraints(constraints, chosen, range, at + 1, acc)
            }
        }
    }

    /// The constraints and type parameters of a function are gone.
    pub open spec fn deactivate(self, active_len: usize) -> CheckerV {
        CheckerV {
            scope: ScopesV {
                active: if active_len <= self.scope.active.len() {
                    self.scope.active.take(active_len as int)
                } else {
                    self.scope.active
                },
                ..self.scope
            },
            ..self
        }.pop_params()
    }

    /// The choices for abstract constraint parameters are taken out.
    pub open spec fn pop_abstract(self) -> (CheckerV, Map<Seq<char>, Seq<char>>) {
        let frames = self.scope.abstract_bindings;
        if frames.len() == 0 {
            (self, Map::empty())
        } else {
            (
                CheckerV {
                    scope: ScopesV { abstract_bindings: frames.drop_last(), ..self.scope },
                    ..self
                },
                frames.last(),
            )
        }
    }

    /// A generic function is bound with its scheme, and the dictionaries of the
    /// classes that programs declare are counted.
    pub open spec fn bind_generic(self, f: FnFrameV, name: Seq<char>, constraints: Seq<Tree>, t: Tree) -> CheckerV {
        let c = CheckerV {
            generic_fns: self.generic_fns.insert(name),
            reg: RegistryV {
                generics: GenericsV {
                    generic_fns: self.reg.generics.generic_fns.insert(name),
                    ..self.reg.generics
                },
                ..self.reg
            },
            fn_dict_arity: self.fn_dict_arity.insert(name, user_slots(constraints) as usize),
            ..self
        };
        c.bind(
            name,
            projected_scheme(f.param_vars, f.param_kinds, constraints, f.projections, t),
        )
    }

    /// Everything of a function after its body: its type.
    pub open spec fn close_function(
        self,
        f: FnFrameV,
        name: Seq<char>,
        range: Span,
        self_ty: Option<Tree>,
        is_coro: bool,
    ) -> (CheckerV, Tree) {
        let (c, t) = self.pop_scope().close_type(f, name, range, self_ty, is_coro);
        let c = c.restore_context(f.saved).unify(
            Tree::Var(f.alpha),
            t,
            range,
            "function type"@,
        ).0;
        let (c, chosen) = c.pop_abstract();
        let (c, constraints) = c.settle_constraints(f.constraints, chosen, range, 0, Seq::empty());
        let c = c.deactivate(f.active_len);
        if f.param_vars.len() > 0 {
            (c.bind_generic(f, name, constraints, t), t)
        } else {
            (c, t)
        }
    }
}

impl Dup for FnContext {
    fn dup(&self) -> (r: Self) {
        FnContext {
            return_ty: self.return_ty.dup(),
            match_lhs: self.match_lhs.dup(),
            expected: self.expected.dup(),
            async_depth: self.async_depth,
            yield_ty: self.yield_ty.dup(),
            send_ty: self.send_ty.dup(),
            yield_receives_used: self.yield_receives_used,
            result_mode: self.result_mode.dup(),
            option_mode: self.option_mode.dup(),
            typeclass: self.typeclass.dup(),
            projections: self.projections.dup(),
        }
    }
}

impl DeepView for FnContext {
    type V = CtxV;

    open spec fn deep_view(&self) -> CtxV {
        self@
    }
}

impl Checker {
    /// Enter a generic type constructor; returns what was entered before under
    /// its name.
    pub fn register_generic_type_ctor(&mut self, name: &str, params: &Vec<TypeParam>) -> (r: Option<
        Vec<String>,
    >)
        ensures
            (final(self)@, r.deep_view()) == old(self)@.register_generic_type_ctor(
                name@,
                params@,
            ),
    {
        let previous = match self.reg.generics.generic_type_ctors.get(name) {
            Some(p) => Some(p.dup()),
            None => None,
        };
        if params.len() > 0 {
            let names = names_of_params(params);
            self.reg.generics.generic_type_ctors.insert(name.to_owned(), names);
        }
        previous
    }

    /// Enter again what was entered before.
    pub fn restore_generic_type_ctor(&mut self, name: &str, previous: Option<Vec<String>>)
        ensures
            final(self)@ == old(self)@.restore_generic_type_ctor(name@, previous.deep_view()),
    {
        match previous {
            Some(params) => {
                self.reg.generics.generic_type_ctors.insert(name.to_owned(), params);
            },
            None => {
                self.reg.generics.generic_type_ctors.remove(name);
            },
        }
    }

    fn plain_params(&mut self, params: &Vec<TypeParam>) -> (r: (NameMap<TyVarId>, Vec<TyVarId>))
        ensures
            final(self)@ == (CheckerV {
                counter: env::bump_by(old(self)@.counter, params@.len()),
                ..old(self)@
            }),
            r.0@ == plain_frame(params@, old(self)@.counter, params@.len()),
            r.0.order() == annotations::frame_order(params@, params@.len()),
            r.1@ == old(self)@.pushed_vars(params@),
    {
        let mut frame: NameMap<TyVarId> = NameMap::new();
        let ghost before = self@;
        let mut i: usize = 0;
        while i < params.len()
            invariant
                i <= params.len(),
                self@ == (CheckerV {
                    counter: env::bump_by(before.counter, i as nat),
                    ..before
                }),
                frame@ == plain_frame(params@, before.counter, i as nat),
                frame.order() == annotations::frame_order(params@, i as nat),
            decreases params.len() - i,
        {
            proof {
                frame.order_holds_keys();
            }
            let v = self.fresh_var();
            frame.insert(params[i].name.clone(), v);
            i += 1;
        }
        let mut vars: Vec<TyVarId> = Vec::new();
        let ghost all = before.pushed_vars(params@);
        i = 0;
        while i < params.len()
            invariant
                i <= params.len(),
                all == vars_in_frame(frame@, params@),
                frame@ == plain_frame(params@, before.counter, params@.len()),
                vars@ == all.take(i as int),
            decreases params.len() - i,
        {
            proof {
                plain_frame_has(params@, before.counter, params@.len(), i as int);
            }
            if let Some(v) = frame.get(params[i].name.as_str()) {
                vars.push(*v);
            }
            i += 1;
            assert(vars@ =~= all.take(i as int));
        }
        assert(vars@ =~= all);
        (frame, vars)
    }

    /// Open a frame of type parameters, when there are any; returns their
    /// variables.
    pub fn push_type_params(&mut self, params: &Vec<TypeParam>) -> (r: Vec<TyVarId>)
        ensures
            final(self)@ == old(self)@.push_type_params(params@),
            r@ == old(self)@.pushed_vars(params@),
    {
        if params.len() == 0 {
            let r: Vec<TyVarId> = Vec::new();
            assert(r@ =~= old(self)@.pushed_vars(params@));
            return r;
        }
        let (frame, vars) = self.plain_params(params);
        self.push_params(frame);
        vars
    }

    /// Close the frame of type parameters, when it was opened.
    pub fn pop_type_params(&mut self, pushed: bool)
        ensures
            final(self)@ == old(self)@.pop_type_params(pushed),
    {
        if pushed {
            self.pop_params();
        }
    }

    fn parse_class_fields(&mut self, fields: &Vec<Output>) -> (r: Vec<ClassField>)
        ensures
            (final(self)@, r.deep_view()) == old(self)@.parse_class_fields(fields@, 0, Seq::empty()),
    {
        let mut acc: Vec<ClassField> = Vec::new();
        assert(acc.deep_view() =~= Seq::<ClassFieldV>::empty());
        let ghost whole = self@.parse_class_fields(fields@, 0, Seq::empty());
        let mut i: usize = 0;
        while i < fields.len()
            invariant
                i <= fields.len(),
                whole == self@.parse_class_fields(fields@, i as nat, acc.deep_view()),
            decreases fields.len() - i,
        {
            let field = &fields[i];
            match &*field.expr {
                Expression::Field(vis, fname, fty) => match name_of(fname) {
                    Some(name) => {
                        let ghost before = acc.deep_view();
                        let t = self.parse_type_name(fty);
                        let f = ClassField { vis: *vis, name: name.clone(), ty: t };
                        acc.push(f);
                        assert(acc.deep_view() =~= before.push(f@));
                    },
                    None => {
                        self.say(
                            ErrorCode::GenericTypeError,
                            "Invalid field name".to_owned(),
                            field.span,
                        );
                    },
                },
                _ => {
                    self.say(
                        ErrorCode::GenericTypeError,
                        "Expected a field declaration".to_owned(),
                        field.span,
                    );
                },
            }
            i += 1;
        }
        acc
    }

    fn schemaized(&self, fields: Vec<ClassField>) -> (r: Vec<ClassField>)
        ensures
            r.deep_view() == self@.schemaized(fields.deep_view()),
    {
        let n = self.scope.type_params.len();
        if n > 0 {
            let frame = &self.scope.type_params[n - 1];
            assert(frame.order() == self@.scope.param_order.last());
            assert(frame@ == self@.scope.type_params.last());
            if frame.len() > 0 {
                let s = schema_subst(frame);
                return schemaize_fields(&fields, &s);
            }
        }
        fields
    }

    /// Enter a class with these fields.
    pub fn enter_class(&mut self, name: &str, fields: Vec<ClassField>)
        ensures
            final(self)@ == old(self)@.enter_class(name@, fields.deep_view()),
    {
        self.reg.classes.insert(name.to_owned(), fields);
    }

    /// Declare a class. The fields of a generic class name its type parameters,
    /// so that each instance can have its own.
    pub fn register_class(&mut self, name: &str, fields: &Vec<Output>)
        ensures
            final(self)@ == old(self)@.register_class(name@, fields@),
    {
        let info = self.parse_class_fields(fields);
        let info = self.schemaized(info);
        self.enter_class(name, info);
        self.register_nominal(name);
        self.bind(name, Scheme::mono(con(name)));
    }

    /// The named arguments of a function.
    pub fn parse_arg_list(&mut self, args: &Output) -> (r: Vec<(String, Ty)>)
        ensures
            (final(self)@, r.deep_view()) == old(self)@.parse_arg_list(*args),
    {
        let mut acc: Vec<(String, Ty)> = Vec::new();
        assert(acc.deep_view() =~= Seq::<(Seq<char>, Tree)>::empty());
        if let Expression::Fragment(items) = &*args.expr {
            let ghost whole = self@.parse_args(items@, 0, Seq::empty());
            let mut i: usize = 0;
            while i < items.len()
                invariant
                    i <= items.len(),
                    whole == self@.parse_args(items@, i as nat, acc.deep_view()),
                decreases items.len() - i,
            {
                if let Expression::Argument(ty, name) = &*items[i].expr {
                    let ghost before = acc.deep_view();
                    let t = self.parse_type_name(ty);
                    let x = (name.clone(), t);
                    acc.push(x);
                    assert(acc.deep_view() =~= before.push((x.0@, x.1@)));
                }
                i += 1;
            }
        }
        acc
    }

    fn parse_wheres(&mut self, clauses: &Vec<WhereConstraint>, acc: &mut Vec<Constraint>)
        ensures
            (final(self)@, final(acc).deep_view()) == old(self)@.parse_wheres(
                clauses@,
                0,
                old(acc).deep_view(),
            ),
    {
        let ghost whole = self@.parse_wheres(clauses@, 0, acc.deep_view());
        let mut i: usize = 0;
        while i < clauses.len()
            invariant
                i <= clauses.len(),
                whole == self@.parse_wheres(clauses@, i as nat, acc.deep_view()),
            decreases clauses.len() - i,
        {
            let ghost before = acc.deep_view();
            let args = self.parse_type_names(&clauses[i].args);
            let k = Constraint { class: clauses[i].class.clone(), args };
            acc.push(k);
            assert(acc.deep_view() =~= before.push(k@));
            i += 1;
        }
    }

    fn open_return(&mut self, declared_ret: Option<&Output>, is_coro: bool) -> (r: (
        Ty,
        Option<Ty>,
        Option<Ty>,
    ))
        ensures
            (final(self)@, r.0@, r.1.deep_view(), r.2.deep_view()) == old(self)@.open_return(
                opt_output(declared_ret),
                is_coro,
            ),
    {
        if is_coro {
            let y = self.fresh();
            let s = self.fresh();
            if let Some(r) = declared_ret {
                let declared = self.parse_type_name(r);
                let _ = self.unify(&y, &declared, r.span, "async fn return type");
            }
            (coroutine_type(y.clone(), s.clone()), Some(y), Some(s))
        } else {
            let t = match declared_ret {
                Some(r) => self.parse_type_name(r),
                None => self.fresh(),
            };
            (t, None, None)
        }
    }

    fn open_signature(
        &mut self,
        collect: bool,
        args: &Output,
        declared_ret: Option<&Output>,
        is_coro: bool,
    ) -> (r: (Vec<(String, Ty)>, (Ty, Option<Ty>, Option<Ty>), Vec<AssocProjection>))
        ensures
            (
                final(self)@,
                r.0.deep_view(),
                (r.1.0@, r.1.1.deep_view(), r.1.2.deep_view()),
                r.2.deep_view(),
            ) == old(self)@.open_signature(collect, *args, opt_output(declared_ret), is_coro),
    {
        if collect {
            let none: Vec<AssocProjection> = Vec::new();
            assert(none.deep_view() =~= Seq::<ProjectionV>::empty());
            self.ctx.projections = Some(none);
        }
        let arg_tys = self.parse_arg_list(args);
        let ret = self.open_return(declared_ret, is_coro);
        let empty: Vec<AssocProjection> = Vec::new();
        assert(empty.deep_view() =~= Seq::<ProjectionV>::empty());
        let projections = if collect {
            match self.ctx.projections.take() {
                Some(ps) => ps,
                None => empty,
            }
        } else {
            empty
        };
        (arg_tys, ret, projections)
    }

    fn activate(&mut self, constraints: &Vec<Constraint>)
        ensures
            final(self)@ == old(self)@.activate(constraints.deep_view()),
    {
        let mut more = copy_constraints(constraints);
        self.scope.active.append(&mut more);
        self.scope.abstract_bindings.push(NameMap::new());
        proof {
            let want = old(self)@.activate(constraints.deep_view()).scope;
            assert(self@.scope.active =~= want.active);
            assert(self@.scope.abstract_bindings =~= want.abstract_bindings);
        }
    }

    fn enter_body(&mut self, ret: &Ty, yield_ty: Option<Ty>, send_ty: Option<Ty>, is_coro: bool)
        ensures
            final(self)@ == (CheckerV {
                ctx: old(self)@.body_context(
                    ret@,
                    yield_ty.deep_view(),
                    send_ty.deep_view(),
                    is_coro,
                ),
                ..old(self)@
            }),
    {
        let result = if is_coro {
            None
        } else {
            result_ok_err(ret)
        };
        let option = if !is_coro && result.is_none() && is_option_ty(ret) {
            option_inner(ret)
        } else {
            None
        };
        let slot = if is_coro {
            match &yield_ty {
                Some(y) => y.clone(),
                None => unit(),
            }
        } else {
            match &result {
                Some((ok, _)) => ok.clone(),
                None => ret.clone(),
            }
        };
        self.ctx.result_mode = result;
        self.ctx.option_mode = option;
        self.ctx.return_ty = Some(slot);
        self.ctx.yield_ty = yield_ty;
        self.ctx.send_ty = send_ty;
        self.ctx.yield_receives_used = false;
        if is_coro && self.ctx.async_depth < usize::MAX {
            self.ctx.async_depth = self.ctx.async_depth + 1;
        }
    }

    fn bind_args(&mut self, args: &Vec<(String, Ty)>)
        ensures
            final(self)@ == old(self)@.bind_args(args.deep_view(), 0),
    {
        let ghost all = args.deep_view();
        let ghost whole = self@.bind_args(all, 0);
        let mut i: usize = 0;
        while i < args.len()
            invariant
                i <= args.len(),
                all == args.deep_view(),
                whole == self@.bind_args(all, i as nat),
            decreases args.len() - i,
        {
            assert(all[i as int] == (args@[i as int].0@, args@[i as int].1@));
            self.bind(args[i].0.as_str(), Scheme::mono(args[i].1.clone()));
            self.note_var(args[i].0.as_str(), &args[i].1);
            i += 1;
        }
    }

    fn note_async(&mut self, name: &str, is_coro: bool)
        ensures
            final(self)@ == old(self)@.note_async(name@, is_coro),
    {
        if is_coro {
            let _ = self.reg.async_functions.insert(name.to_owned());
        }
    }

    /// The kinds of type parameters.
    pub fn param_kinds(&self, params: &Vec<TypeParam>) -> (r: Vec<Kind>)
        ensures
            r@ == Seq::new(params@.len(), |i: int| self@.resolve_type_param_kind(params@[i])),
    {
        let ghost all = Seq::new(
            params@.len(),
            |i: int| self@.resolve_type_param_kind(params@[i]),
        );
        let mut kinds: Vec<Kind> = Vec::new();
        let mut i: usize = 0;
        while i < params.len()
            invariant
                i <= params.len(),
                all == Seq::new(
                    params@.len(),
                    |i: int| self@.resolve_type_param_kind(params@[i]),
                ),
                kinds@ == all.take(i as int),
            decreases params.len() - i,
        {
            let k = self.resolve_type_param_kind(&params[i]);
            kinds.push(k);
            i += 1;
            assert(kinds@ =~= all.take(i as int));
        }
        assert(kinds@ =~= all);
        kinds
    }

    /// Do everything of a function before its body.
    pub fn open_function(
        &mut self,
        name: &str,
        params: &Vec<TypeParam>,
        args: &Output,
        declared_ret: Option<&Output>,
        clauses: &Vec<WhereConstraint>,
        range: Span,
        self_ty: Option<&Ty>,
        is_coro: bool,
    ) -> (r: FnFrame)
        ensures
            (final(self)@, r@) == old(self)@.open_function(
                name@,
                params@,
                *args,
                opt_output(declared_ret),
                clauses@,
                range,
                opt_tree(self_ty),
                is_coro,
            ),
    {
        let param_kinds = self.param_kinds(params);
        let (frame, param_vars) = self.fresh_params(params);
        self.push_params(frame);
        let mut constraints = self.constraints_from_params(params, &param_vars, range);
        self.parse_wheres(clauses, &mut constraints);
        let active_len = self.scope.active.len();
        self.activate(&constraints);
        let collect = params.len() > 0 && self.ctx.projections.is_none();
        let (arg_tys, (ret, y, s), projections) = self.open_signature(
            collect,
            args,
            declared_ret,
            is_coro,
        );
        let alpha = self.fresh_var();
        let f = FnFrame {
            param_vars,
            param_kinds,
            constraints,
            active_len,
            projections,
            fun_ty: function_type(&arg_tys, self_ty, ret.clone()),
            args: arg_tys,
            ret_ty: ret,
            alpha,
            saved: self.ctx.dup(),
        };
        self.enter_body(&f.ret_ty, y, s, is_coro);
        self.note_async(name, is_coro);
        self.bind(name, Scheme::mono(Ty::Var(alpha)));
        self.push_scope();
        if let Some(t) = self_ty {
            self.note_var("self", t);
        }
        self.bind_args(&f.args);
        f
    }

    fn close_type(
        &mut self,
        f: &FnFrame,
        name: &str,
        range: Span,
        self_ty: Option<&Ty>,
        is_coro: bool,
    ) -> (r: Ty)
        ensures
            (final(self)@, r@) == old(self)@.close_type(
                f@,
                name@,
                range,
                opt_tree(self_ty),
                is_coro,
            ),
    {
        if is_coro {
            self.ctx.async_depth = f.saved.async_depth;
            let y = self.ctx.yield_ty.dup();
            let s = self.ctx.send_ty.dup();
            let t = match (y, s) {
                (Some(y), Some(s)) => {
                    let ry = self.resolve(&y);
                    let rs = self.resolve(&s);
                    if self.ctx.yield_receives_used {
                        function_type(&f.args, self_ty, coroutine_type(ry, rs))
                    } else {
                        let _ = self.unify(&rs, &unit(), range, "coroutine send type");
                        function_type(&f.args, self_ty, coroutine_type(ry, unit()))
                    }
                },
                _ => f.fun_ty.clone(),
            };
            self.ctx.yield_receives_used = f.saved.yield_receives_used;
            return t;
        }
        let result = self.ctx.result_mode.dup();
        let option = self.ctx.option_mode.dup();
        match (result, option) {
            (Some((ok, err)), _) => {
                let t = function_type(
                    &f.args,
                    self_ty,
                    result_ty(self.resolve(&ok), self.resolve(&err)),
                );
                let _ = self.reg.result_mode_fns.insert(name.to_owned());
                t
            },
            (None, Some(item)) => {
                let t = if is_option_ty(&self.resolve(&f.ret_ty)) {
                    f.fun_ty.clone()
                } else {
                    function_type(&f.args, self_ty, option_ty(self.resolve(&item)))
                };
                let _ = self.reg.option_mode_fns.insert(name.to_owned());
                t
            },
            (None, None) => {
                if is_option_ty(&self.resolve(&f.ret_ty)) {
                    let _ = self.reg.option_mode_fns.insert(name.to_owned());
                }
                f.fun_ty.clone()
            },
        }
    }

    fn restore_context(&mut self, saved: &FnContext)
        ensures
            final(self)@ == old(self)@.restore_context(saved@),
    {
        self.ctx.yield_ty = saved.yield_ty.dup();
        self.ctx.send_ty = saved.send_ty.dup();
        self.ctx.return_ty = saved.return_ty.dup();
        self.ctx.result_mode = saved.result_mode.dup();
        self.ctx.option_mode = saved.option_mode.dup();
    }

    fn settle_constraints(
        &mut self,
        constraints: &Vec<Constraint>,
        chosen: &NameMap<String>,
        range: Span,
    ) -> (r: Vec<Constraint>)
        ensures
            (final(self)@, r.deep_view()) == old(self)@.settle_constraints(
                constraints.deep_view(),
                chosen@,
                range,
                0,
                Seq::empty(),
            ),
    {
        let mut acc: Vec<Constraint> = Vec::new();
        assert(acc.deep_view() =~= Seq::<Tree>::empty());
        let ghost all = constraints.deep_view();
        let ghost whole = self@.settle_constraints(all, chosen@, range, 0, Seq::empty());
        let mut i: usize = 0;
        while i < constraints.len()
            invariant
                i <= constraints.len(),
                all == constraints.deep_view(),
                whole == self@.settle_constraints(
                    all,
                    chosen@,
                    range,
                    i as nat,
                    acc.deep_view(),
                ),
            decreases constraints.len() - i,
        {
            assert(all[i as int] == constraints@[i as int]@);
            let ghost before = acc.deep_view();
            let k = &constraints[i];
            if self.constraint_param_kind(k.class.as_str()).is_none() {
                let x = k.clone();
                acc.push(x);
                assert(acc.deep_view() =~= before.push(x@));
            } else {
                match chosen.get(k.class.as_str()) {
                    Some(class) => {
                        let x = Constraint { class: class.clone(), args: k.args.dup() };
                        acc.push(x);
                        assert(acc.deep_view() =~= before.push(x@));
                    },
                    None => {
                        let s = instance_signature(k.class.as_str(), &k.args);
                        self.say(
                            ErrorCode::GenericTypeError,
                            cat3(
                                "Cannot satisfy abstract constraint `",
                                s.as_str(),
                                "`; no concrete trait was selected",
                            ),
                            range,
                        );
                    },
                }
            }
            i += 1;
        }
        acc
    }

    /// Drop the constraints and the type parameters of a declaration.
    pub fn deactivate(&mut self, active_len: usize)
        ensures
            final(self)@ == old(self)@.deactivate(active_len),
    {
        self.scope.active.truncate(active_len);
        proof {
            let want = old(self)@.deactivate(active_len).scope;
            assert(self@.scope.active =~= want.active);
        }
        self.pop_params();
    }

    fn pop_abstract(&mut self) -> (r: NameMap<String>)
        ensures
            (final(self)@, r@) == old(self)@.pop_abstract(),
    {
        let r = match self.scope.abstract_bindings.pop() {
            Some(m) => m,
            None => NameMap::new(),
        };
        assert(self@.scope.abstract_bindings =~= old(self)@.pop_abstract().0.scope.abstract_bindings);
        r
    }

    fn bind_generic(&mut self, f: &FnFrame, name: &str, constraints: Vec<Constraint>, t: &Ty)
        ensures
            final(self)@ == old(self)@.bind_generic(f@, name@, constraints.deep_view(), t@),
    {
        let _ = self.generic_fns.insert(name.to_owned());
        let _ = self.reg.generics.generic_fns.insert(name.to_owned());
        let slots = count_user_slots(&constraints);
        self.fn_dict_arity.insert(name.to_owned(), slots);
        let scheme = scheme_with_projections(
            &f.param_vars,
            &f.param_kinds,
            constraints,
            &f.projections,
            t.clone(),
        );
        self.bind(name, scheme);
    }

    /// Do everything of a function after its body; returns its type.
    pub fn close_function(
        &mut self,
        f: &FnFrame,
        name: &str,
        range: Span,
        self_ty: Option<&Ty>,
        is_coro: bool,
    ) -> (r: Ty)
        ensures
            (final(self)@, r@) == old(self)@.close_function(
                f@,
                name@,
                range,
                opt_tree(self_ty),
                is_coro,
            ),
    {
        self.pop_scope();
        let t = self.close_type(f, name, range, self_ty, is_coro);
        self.restore_context(&f.saved);
        let _ = self.unify(&Ty::Var(f.alpha), &t, range, "function type");
        let chosen = self.pop_abstract();
        let constraints = self.settle_constraints(&f.constraints, &chosen, range);
        self.deactivate(f.active_len);
        if f.param_vars.len() > 0 {
            self.bind_generic(f, name, constraints, &t);
        }
        t
    }
}

} // verus!
