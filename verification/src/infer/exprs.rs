//! Expressions: the traversal that types a program, node by node.
//!
//! Every node is typed by [`Checker::infer`], which consumes the id that the
//! walk over the program minted for it.
use crate::ast::{self, EnumConstructPayload, EnumVariantPayload, Expression, FieldInit, MatchArm, Output, TypeParam};
use crate::env::{self, Scheme, SchemeV};
use crate::id::NodeId;
use crate::infer::construct::{self, Construct, ConstructV, NewPlan, NewV, find_part};
use crate::infer::methods::{MethodPlan, PlanV};
use crate::infer::ops::{self, CoalescePayload, Payload, literal_of, name_of, sort_fields};
use crate::infer::stmts;
use crate::infer::traits::{self, InstFrame, InstFrameV, method_fqn_for};
use crate::infer::{ArmCoverage, Checker, CheckerV, CtxV, PendingExhaustive, PendingV, TablesV};
use crate::maps::Dup;
use crate::report::{ErrorCode, Span};
use crate::text::{cat2, cat3, same_text};
use crate::tree::{self, ArrayLength, Head, Tree};
use crate::ty::{EnumVariantPayloadTy, Ty, TyVarId, array, array_fixed, boolean, float, fun, int_ty, list, result_app_ty, string, tuple, tys1, unit};
use crate::unify::payload_types;
use crate::virtual_modules::FfiBuiltin;
use vstd::prelude::*;

verus! {

broadcast use crate::tree::group_shapes;

/// The variable of an assignment `x = resume x`.
pub open spec fn resumes_itself(name: Output, value: Output) -> Option<Seq<char>> {
    match (*name.expr, *value.expr) {
        (Expression::Identifier(n), Expression::Resume(target, None)) => match *target.expr {
            Expression::Identifier(m) => if n@ == m@ {
                Some(n@)
            } else {
                None
            },
            _ => None,
        },
        _ => None,
    }
}

fn resumed_variable<'a>(name: &'a Output, value: &Output) -> (r: Option<&'a String>)
    ensures
        match r {
            Some(n) => resumes_itself(*name, *value) == Some(n@),
            None => resumes_itself(*name, *value) is None,
        },
{
    match (&*name.expr, &*value.expr) {
        (Expression::Identifier(n), Expression::Resume(target, None)) => match &*target.expr {
            Expression::Identifier(m) => if same_text(n.as_str(), m.as_str()) {
                Some(n)
            } else {
                None
            },
            _ => None,
        },
        _ => None,
    }
}

/// The text of a string literal.
pub open spec fn string_literal(e: Output) -> Option<Seq<char>> {
    match *e.expr {
        Expression::String(s) => Some(s@),
        _ => None,
    }
}

/// The nodes of optional arguments.
pub open spec fn nodes(args: Option<Vec<Output>>) -> Option<Seq<Output>> {
    match args {
        Some(a) => Some(a@),
        None => None,
    }
}

/// How many optional arguments there are.
pub open spec fn count(args: Option<Vec<Output>>) -> nat {
    match args {
        Some(a) => a@.len(),
        None => 0,
    }
}

/// Whether a name is one of the foreign function interface.
pub open spec fn is_ffi_name(name: Seq<char>) -> bool {
    name == "dload"@ || name == "declare"@ || name == "invoke"@
}

/// What a foreign call yields: a value, or a message.
pub open spec fn or_message(t: Tree) -> Tree {
    Tree::result_app(t, Tree::con("string"@))
}

impl InstFrameV {
    /// Another method of the instance.
    pub open spec fn with_method(self, class: Seq<char>, name: Seq<char>) -> InstFrameV {
        InstFrameV {
            names: self.names.push(name),
            fqns: self.fqns.insert(name, traits::instance_fqn(class, self.args, name)),
            ..self
        }
    }
}

impl InstFrame {
    fn note_method(&mut self, class: &str, name: &str)
        ensures
            final(self)@ == old(self)@.with_method(class@, name@),
    {
        let ghost before = self@.names;
        let fqn = method_fqn_for(class, &self.args, name);
        self.names.push(name.to_owned());
        self.fqns.insert(name.to_owned(), fqn);
        assert(self@.names =~= before.push(name@));
    }
}

impl CheckerV {
    /// The type of a name.
    pub open spec fn named_value(self, name: Seq<char>, range: Span) -> (CheckerV, Tree) {
        match self.lookup(name) {
            Some(s) => self.instantiate_ty(s),
            None => self.error(
                ErrorCode::UnknownValue,
                "Cannot find value `"@ + name + "` in this scope"@,
                range,
            ),
        }
    }

    /// The type of the enclosing scrutinee.
    pub open spec fn default_value(self) -> (CheckerV, Tree) {
        self.or_fresh(self.ctx.match_lhs)
    }

    /// The enclosing scrutinee.
    pub open spec fn with_match_lhs(self, t: Option<Tree>) -> CheckerV {
        CheckerV { ctx: CtxV { match_lhs: t, ..self.ctx }, ..self }
    }

    /// A match is to be checked for exhaustiveness.
    pub open spec fn add_pending(self, p: PendingV) -> CheckerV {
        CheckerV { out: TablesV { pending: self.out.pending.push(p), ..self.out }, ..self }
    }

    /// A frame of names is opened.
    pub open spec fn push_names(self) -> CheckerV {
        CheckerV { env: self.env.push(Map::empty()), ..self }
    }

    /// A frame of names is closed.
    pub open spec fn pop_names(self) -> CheckerV {
        CheckerV { env: env::env_pop(self.env), ..self }
    }

    /// The variable of a `for x in` loop is bound, in a frame of its own.
    pub open spec fn open_loop(
        self,
        binding: Option<Output>,
        iterable: Tree,
        id: Option<NodeId>,
        place: Span,
        range: Span,
    ) -> CheckerV {
        let (c, item) = self.resolve_for_in_iterable(self.resolve(iterable), id, place, range);
        let (c, item) = c.or_fresh(item);
        let c = c.push_names();
        match binding {
            Some(b) => match ops::bare_name(b) {
                Some(n) => c.bind(n, SchemeV::mono(item)).note_var(n, item),
                None => c,
            },
            None => c,
        }
    }

    /// The type of a `yield`, whose value has type `t`.
    pub open spec fn finish_yield(self, t: Tree, place: Span) -> (CheckerV, Tree) {
        let c = match self.ctx.yield_ty {
            Some(y) => self.unify(y, t, place, "yield value"@).0,
            None => self,
        };
        (
            c,
            match c.ctx.send_ty {
                Some(s) => c.resolve(s),
                None => Tree::con("unit"@),
            },
        )
    }

    /// A coroutine of type `t` is yielded from.
    pub open spec fn finish_yield_from(self, t: Tree, range: Span) -> CheckerV {
        let (c, y, s) = self.expect_coroutine(t, range, "yield from target"@);
        let c = match c.ctx.yield_ty {
            Some(mine) => c.unify(mine, y, range, "yield from yield type"@).0,
            None => c,
        };
        match c.ctx.send_ty {
            Some(mine) => c.unify(mine, s, range, "yield from send type"@).0,
            None => c,
        }
    }

    /// The complaint about a `yield` outside of a coroutine.
    pub open spec fn stray_yield(self, what: Seq<char>, range: Span) -> (CheckerV, Tree) {
        self.error_with_help(
            ErrorCode::YieldOutsideAsync,
            what + " outside async function"@,
            range,
            what + " may only appear inside an async fn body"@,
        )
    }

    /// The value of `x = resume x` takes the place of the handle.
    pub open spec fn rebind_resumed(self, name: Seq<char>, t: Tree) -> CheckerV {
        if self.lookup(name) is Some {
            self.bind(name, SchemeV::mono(t)).note_var(name, t)
        } else {
            self
        }
    }

    /// The type of a node, which is recorded by its id and its span.
    pub open spec fn infer(self, node: Output) -> (CheckerV, Tree)
        decreases node, 10nat,
    {
        let (c, id) = self.next_id();
        let (c, t) = c.infer_inner(node, id);
        (c.cache_at(id, t).note_span(node.span, t), t)
    }

    /// The type of a node: literals, names, wrappers, blocks and annotations
    /// here, the rest below.
    pub open spec fn infer_inner(self, node: Output, id: Option<NodeId>) -> (CheckerV, Tree)
        decreases node, 9nat,
    {
        let unit_t = Tree::con("unit"@);
        match *node.expr {
            Expression::Integer(_) => (self, Tree::con("int"@)),
            Expression::Float(_) => (self, Tree::con("float"@)),
            Expression::String(_) => (self, Tree::con("string"@)),
            Expression::Bool(_) => (self, Tree::con("bool"@)),
            Expression::Identifier(name) => self.named_value(name@, node.span),
            Expression::Type(name) => self.parse_type_name_str(name@, Span { start: 0, end: 0 }),
            Expression::TypeFun(arg, ret) => {
                let (c, a) = self.infer(arg);
                let (c, r) = c.infer(ret);
                (c, Tree::fun(a, r))
            },
            Expression::Noop(_) => (self, unit_t),
            Expression::Comment(_) => (self, unit_t),
            Expression::Break => (self, unit_t),
            Expression::Continue => (self, unit_t),
            Expression::Module(_, _) => (self, unit_t),
            Expression::Member(_) => (self, unit_t),
            Expression::Field(_, _, _) => (self, unit_t),
            Expression::AssocTypeDecl { .. } => (self, unit_t),
            Expression::AssocTypeDef { ty, .. } => (self.parse_type_name(ty).0, unit_t),
            Expression::Use { path, name, alias } => (
                self.apply_use(path.deep_view(), name@, alias.deep_view()),
                unit_t,
            ),
            Expression::ForeignBlock { declarations, .. } => (
                self.declare_foreign(declarations@, 0),
                unit_t,
            ),
            Expression::Expr(e) => self.infer(e),
            Expression::Group(e) => self.infer(e),
            Expression::Statement(e) => self.infer(e),
            Expression::ExprStatement(e) => self.infer(e),
            Expression::Method(_, e) => self.infer(e),
            Expression::Negate(e) => self.infer(e),
            Expression::Positive(e) => self.infer(e),
            Expression::Block(items) => {
                let (c, t) = self.push_scope().infer_last(items@, 0, unit_t);
                (c.pop_scope(), t)
            },
            Expression::Program(items) => self.infer_last(items@, 0, unit_t),
            Expression::Fragment(items) => self.infer_fragment(items@, 0, unit_t),
            Expression::Variable(name, ann) => self.declare_var(name@, ann),
            Expression::Constant(name, ann) => self.declare_const(name, ann, node.span),
            Expression::Argument(ty, _) => self.parse_type_name(ty),
            Expression::TypeApp { name, args } => self.parse_type_app(name@, args@, node.span),
            Expression::TypeProjection { owner, name, args } => {
                let (c, ts) = self.parse_type_names(args@, 0, Seq::empty());
                c.resolve_type_projection(owner@, name@, ts, node.span)
            },
            Expression::Default(_) => self.default_value(),
            Expression::Forall { params, ty } => {
                let (c, vars, constraints) = self.open_forall(params@);
                let (c, body) = c.infer(ty);
                (c.pop_params(), Tree::Node(Head::Forall(vars), constraints.push(body)))
            },
            _ => self.infer_operator(node, id),
        }
    }

    /// The type of an operator or an assignment.
    pub open spec fn infer_operator(self, node: Output, id: Option<NodeId>) -> (CheckerV, Tree)
        decreases node, 8nat,
    {
        let bool_t = Tree::con("bool"@);
        match *node.expr {
            Expression::Add(l, r) => {
                let (c, a) = self.infer(l);
                let (c, b) = c.infer(r);
                c.finish_arith(a, b, id, node.span, "+"@)
            },
            Expression::Sub(l, r) => {
                let (c, a) = self.infer(l);
                let (c, b) = c.infer(r);
                c.finish_arith(a, b, id, node.span, "-"@)
            },
            Expression::Mul(l, r) => {
                let (c, a) = self.infer(l);
                let (c, b) = c.infer(r);
                c.finish_arith(a, b, id, node.span, "*"@)
            },
            Expression::Div(l, r) => {
                let (c, a) = self.infer(l);
                let (c, b) = c.infer(r);
                c.finish_arith(a, b, id, node.span, "/"@)
            },
            Expression::Mod(l, r) => {
                let (c, a) = self.infer(l);
                let (c, b) = c.infer(r);
                c.finish_arith(a, b, id, node.span, "%"@)
            },
            Expression::Pow(l, r) => {
                let (c, a) = self.infer(l);
                let (c, b) = c.infer(r);
                c.finish_arith(a, b, id, node.span, "**"@)
            },
            Expression::Shl(l, r) => {
                let (c, a) = self.infer(l);
                let (c, b) = c.infer(r);
                c.finish_arith(a, b, id, node.span, "<<"@)
            },
            Expression::Shr(l, r) => {
                let (c, a) = self.infer(l);
                let (c, b) = c.infer(r);
                c.finish_arith(a, b, id, node.span, ">>"@)
            },
            Expression::Xor(l, r) => {
                let (c, a) = self.infer(l);
                let (c, b) = c.infer(r);
                c.finish_arith(a, b, id, node.span, "^"@)
            },
            Expression::BitAnd(l, r) => {
                let (c, a) = self.infer(l);
                let (c, b) = c.infer(r);
                c.finish_arith(a, b, id, node.span, "&"@)
            },
            Expression::BitOr(l, r) => {
                let (c, a) = self.infer(l);
                let (c, b) = c.infer(r);
                c.finish_arith(a, b, id, node.span, "|"@)
            },
            Expression::Eq(l, r) => {
                let (c, a) = self.infer(l);
                let (c, b) = c.infer(r);
                c.finish_comparison(a, b, id, node.span, "Eq"@, "eq"@)
            },
            Expression::Neq(l, r) => {
                let (c, a) = self.infer(l);
                let (c, b) = c.infer(r);
                c.finish_comparison(a, b, id, node.span, "Eq"@, "ne"@)
            },
            Expression::Le(l, r) => {
                let (c, a) = self.infer(l);
                let (c, b) = c.infer(r);
                c.finish_comparison(a, b, id, node.span, "Lt"@, "lt"@)
            },
            Expression::Gt(l, r) => {
                let (c, a) = self.infer(l);
                let (c, b) = c.infer(r);
                c.finish_comparison(a, b, id, node.span, "Gt"@, "gt"@)
            },
            Expression::Leq(l, r) => {
                let (c, a) = self.infer(l);
                let (c, b) = c.infer(r);
                c.finish_comparison(a, b, id, node.span, "Le"@, "le"@)
            },
            Expression::Geq(l, r) => {
                let (c, a) = self.infer(l);
                let (c, b) = c.infer(r);
                c.finish_comparison(a, b, id, node.span, "Ge"@, "ge"@)
            },
            Expression::And(l, r) => {
                let (c, a) = self.infer(l);
                let (c, b) = c.infer(r);
                let c = c.unify(a, bool_t, l.span, "left of logical"@).0;
                (c.unify(b, bool_t, r.span, "right of logical"@).0, bool_t)
            },
            Expression::Or(l, r) => {
                let (c, a) = self.infer(l);
                let (c, b) = c.infer(r);
                let c = c.unify(a, bool_t, l.span, "left of logical"@).0;
                (c.unify(b, bool_t, r.span, "right of logical"@).0, bool_t)
            },
            Expression::Not(e) => {
                let (c, t) = self.infer(e);
                let int_t = Tree::con("int"@);
                (c.unify(t, int_t, e.span, "operand of `~`"@).0, int_t)
            },
            Expression::LogicalNot(e) => {
                let (c, t) = self.infer(e);
                c.finish_logical_not(t, e.span)
            },
            Expression::Adjust { target, .. } => {
                let (c, t) = self.infer_mutable_lvalue(target, node.span);
                c.finish_adjust(t, node.span)
            },
            Expression::CompoundAssign(target, op, value) => {
                let (c, t) = self.infer_mutable_lvalue(target, node.span);
                let (c, v) = c.infer(value);
                c.finish_compound(t, v, op, node.span)
            },
            Expression::Assignment(name, value) => match resumes_itself(name, value) {
                Some(n) => {
                    let (c, v) = self.infer(value);
                    (c.rebind_resumed(n, v), v)
                },
                None => {
                    let (c, v) = self.note_yield(value).infer(value);
                    let (c, t) = c.infer_mutable_lvalue(name, node.span);
                    let c = c.coerce_or_unify(t, v, Some(value), node.span, "assignment"@).0;
                    (c, c.resolve(v))
                },
            },
            _ => self.infer_control(node, id),
        }
    }

    /// The type of what an assignment changes.
    pub open spec fn infer_mutable_lvalue(self, target: Output, range: Span) -> (CheckerV, Tree)
        decreases target, 8nat,
    {
        match *target.expr {
            Expression::Identifier(n) => self.lvalue_name(n@, range),
            Expression::Access(receiver, field) => {
                let (c, t) = self.infer(receiver);
                c.lvalue_field(t, field@, range)
            },
            Expression::Index(arr, idx) => {
                let (c, t) = self.infer(arr);
                let t = c.resolve(t);
                c.infer(idx).0.lvalue_element(t, ops::int_literal(idx), range)
            },
            _ => self.bad_target(
                range,
                "the left-hand side must be a variable, dict field, or array index"@,
            ),
        }
    }

    /// The type of a branch, a loop or a return.
    pub open spec fn infer_control(self, node: Output, id: Option<NodeId>) -> (CheckerV, Tree)
        decreases node, 7nat,
    {
        let unit_t = Tree::con("unit"@);
        let bool_t = Tree::con("bool"@);
        match *node.expr {
            Expression::If(branches) => {
                let (c, v) = self.fresh();
                let (c, t) = c.infer_branches(branches@, 0, None);
                (
                    c,
                    match t {
                        Some(t) => t,
                        None => v,
                    },
                )
            },
            Expression::Branch(cond, body) => self.infer_cond(cond, "branch condition"@).infer(body),
            Expression::Match { scrutinee, arms } => {
                let (c, st) = self.infer(scrutinee);
                let resolved = c.resolve(st);
                let outer = c.ctx.match_lhs;
                let (c, v) = c.with_match_lhs(Some(st)).fresh();
                if arms@.len() == 0 {
                    c.with_match_lhs(outer).error(
                        ErrorCode::GenericTypeError,
                        "match has no arms"@,
                        node.span,
                    )
                } else {
                    let (c, t, covered) = c.infer_arms(arms@, 0, resolved, None, Seq::empty());
                    (
                        c.with_match_lhs(outer).add_pending(
                            PendingV {
                                scrutinee_ty: resolved,
                                arms: covered,
                                match_range: node.span,
                            },
                        ),
                        match t {
                            Some(t) => t,
                            None => v,
                        },
                    )
                }
            },
            Expression::Loop { identifier, iterable, body } => {
                let (c, t) = self.infer(iterable);
                if identifier is Some {
                    let c = c.open_loop(identifier, t, id, iterable.span, node.span);
                    (c.infer_opt(identifier).infer(body).0.pop_names(), unit_t)
                } else {
                    let c = c.unify(t, bool_t, iterable.span, "while condition"@).0;
                    (c.infer(body).0, unit_t)
                }
            },
            Expression::For { init, cond, step, body } => {
                let (c, t) = self.infer_opt(init).infer(cond);
                let c = c.unify(t, bool_t, cond.span, "for condition"@).0;
                (c.infer(body).0.infer_opt(step), unit_t)
            },
            Expression::Return(e) => {
                let (c, t) = self.with_expected(self.ctx.return_ty).infer(e);
                (c.finish_return(self.ctx.expected, t, e), t)
            },
            Expression::ImplicitReturn(e) => {
                let (c, t) = self.with_expected(self.ctx.return_ty).infer(e);
                (c.finish_return(self.ctx.expected, t, e), t)
            },
            _ => self.infer_effect(node, id),
        }
    }

    /// The type of an error, an option or a coroutine operation.
    pub open spec fn infer_effect(self, node: Output, id: Option<NodeId>) -> (CheckerV, Tree)
        decreases node, 6nat,
    {
        let unit_t = Tree::con("unit"@);
        match *node.expr {
            Expression::Raise(e) => {
                let (c, t) = self.infer(e);
                c.ensure_result_mode(t, e.span)
            },
            Expression::Panic(e) => {
                let (c, t) = self.infer(e);
                c.unify(t, Tree::con("string"@), e.span, "panic message"@).0.fresh()
            },
            Expression::Try(e) => {
                let (c, t) = self.infer(e);
                c.finish_try(t, node.span)
            },
            Expression::Coalesce(l, r) => {
                let (c, t) = self.infer(l);
                match c.coalesce_payload(t, l.span, node.span) {
                    (c, Payload::Holds(p)) => {
                        let (c, b) = c.infer(r);
                        (c.unify(p, b, r.span, "coalesce rhs"@).0, p)
                    },
                    (c, Payload::Fails(e)) => (c, e),
                }
            },
            Expression::OptionalAccess(receiver, field) => {
                let (c, t) = self.infer(receiver);
                c.finish_optional_access(t, field@, receiver.span, node.span)
            },
            Expression::Defer(e) => (self.infer(e).0, unit_t),
            Expression::Yield(e) => if self.ctx.async_depth == 0 {
                self.stray_yield("yield"@, node.span)
            } else {
                let (c, t) = self.infer(e);
                c.finish_yield(t, e.span)
            },
            Expression::YieldFrom(e) => if self.ctx.async_depth == 0 {
                self.stray_yield("yield from"@, node.span)
            } else {
                let (c, t) = self.infer(e);
                (c.finish_yield_from(t, node.span), unit_t)
            },
            Expression::Resume(target, arg) => {
                let (c, t) = self.infer(target);
                let (c, y, s) = c.expect_coroutine(t, node.span, "resume target"@);
                let c = c.infer_sent(arg, s);
                (c, c.resolve(y))
            },
            Expression::Done(handle) => {
                let (c, t) = self.infer(handle);
                (c.expect_coroutine(t, node.span, "done argument"@).0, Tree::con("bool"@))
            },
            _ => self.infer_value(node, id),
        }
    }

    /// A returned value is held against the type of the function.
    pub open spec fn finish_return(self, outer: Option<Tree>, t: Tree, e: Output) -> CheckerV {
        let c = self.with_expected(outer);
        match c.ctx.return_ty {
            Some(ret) => c.coerce_or_unify(ret, t, Some(e), e.span, "return value"@).0,
            None => c,
        }
    }

    /// The type of a literal, an access, a constructor application or a call.
    pub open spec fn infer_value(self, node: Output, id: Option<NodeId>) -> (CheckerV, Tree)
        decreases node, 5nat,
    {
        match *node.expr {
            Expression::Print(fmt, params) => {
                let (c, t) = self.infer(fmt);
                let c = c.unify(t, Tree::con("string"@), fmt.span, "print format"@).0;
                (
                    c.infer_print(params, string_literal(fmt), node.span, "print"@),
                    Tree::con("unit"@),
                )
            },
            Expression::Format(fmt, params) => {
                let (c, t) = self.infer(fmt);
                let c = c.unify(t, Tree::con("string"@), fmt.span, "print format"@).0;
                (
                    c.infer_print(params, string_literal(fmt), node.span, "format"@),
                    Tree::con("string"@),
                )
            },
            Expression::Dload(path) => (
                self.require_ffi("dload"@, node.span).infer(path).0,
                or_message(Tree::con("int"@)),
            ),
            Expression::Declare(args) => self.infer_ffi_declare(args@, node.span),
            Expression::Invoke(args) => self.infer_ffi_invoke(args@, node.span),
            Expression::Tuple(items) => {
                let (c, ts) = self.infer_resolved(items@, 0, Seq::empty());
                (c, Tree::tuple(ts))
            },
            Expression::Array(items) => {
                let (c, t) = self.infer_elements(items@, 0, None, node.span);
                let (c, element) = c.or_fresh(t);
                (
                    c,
                    Tree::array(
                        element,
                        if items@.len() > 0 {
                            ArrayLength::Static(items@.len() as usize)
                        } else {
                            ArrayLength::Dynamic
                        },
                    ),
                )
            },
            Expression::Index(target, index) => {
                let (c, t) = self.infer(target);
                let t = c.resolve(t);
                c.infer(index).0.finish_index(t, ops::int_literal(index), node.span)
            },
            Expression::Dict(fields) => {
                let c = self.report_repeated(fields@, node.span, 0, Set::empty());
                let (c, pairs) = c.infer_record(fields@, 0, Seq::empty());
                let sorted = ops::sorted_fields(pairs);
                (c, Tree::Node(Head::Record(tree::names_of(sorted)), tree::trees_of(sorted)))
            },
            Expression::List(items) => self.infer_list(items@),
            Expression::Access(receiver, field) => {
                let (c, t) = self.infer(receiver);
                c.finish_access(t, field@, node.span)
            },
            Expression::Instantiate(class, args) => {
                let (c, t) = self.infer(class);
                match c.open_new(t, count(args), node.span) {
                    (c, NewV::Done(t)) => (c, t),
                    (c, NewV::Miscounted(t)) => (c, c.resolve(t)),
                    (c, NewV::Fields(tys, t)) => {
                        let c = c.infer_new_args(args, tys);
                        (c, c.resolve(t))
                    },
                }
            },
            Expression::Construct { enum_name, variant_name, fields } => match self.open_construct(
                enum_name@,
                variant_name@,
                fields,
                node.span,
            ) {
                (c, Ok(k)) => c.infer_construct(fields, k, node.span),
                (c, Err(t)) => (c, t),
            },
            Expression::Call { name, args } => self.infer_call(node, id),
            _ => self.infer_decl(node),
        }
    }

    /// The type of a call.
    pub open spec fn infer_call(self, node: Output, id: Option<NodeId>) -> (CheckerV, Tree)
        decreases node, 4nat,
    {
        match *node.expr {
            Expression::Call { name, args } => match *name.expr {
                Expression::Access(_, method) => {
                    let (c, recv) = self.infer_receiver(name);
                    match c.plan_method(method@, recv, node.span) {
                        (c, PlanV::Unknown(owner)) => c.finish_method(
                            PlanV::Unknown(owner),
                            method@,
                            seq![recv],
                            nodes(args),
                            id,
                            node.span,
                        ),
                        (c, plan) => {
                            let (c, ts) = c.infer_args(args, seq![recv]);
                            c.finish_method(plan, method@, ts, nodes(args), id, node.span)
                        },
                    }
                },
                Expression::Identifier(n) => self.infer_named_call(n@, args, id, node.span),
                _ => self.error(ErrorCode::UnknownFunction, "Invalid call target"@, node.span),
            },
            _ => (self, Tree::con("unit"@)),
        }
    }

    /// The type of the receiver of a method call.
    pub open spec fn infer_receiver(self, callee: Output) -> (CheckerV, Tree)
        decreases callee, 0nat,
    {
        match *callee.expr {
            Expression::Access(receiver, _) => self.infer(receiver),
            _ => (self, Tree::con("unit"@)),
        }
    }

    /// The type of a call `name(..)`: one of the language itself, or else of
    /// what the name means.
    pub open spec fn infer_named_call(
        self,
        name: Seq<char>,
        args: Option<Vec<Output>>,
        id: Option<NodeId>,
        range: Span,
    ) -> (CheckerV, Tree)
        decreases args, 1nat,
    {
        if name == "push"@ {
            self.infer_array_push(args, range)
        } else if name == "len"@ {
            self.infer_array_len(args, range)
        } else if self.prelude_fn_in_scope(name) is Some {
            self.infer_assert(args, range)
        } else {
            match self.ffi_fn_in_scope(name) {
                Some(kind) => self.infer_ffi_call(kind, args, range),
                None => if is_ffi_name(name) {
                    self.not_imported(name, range)
                } else {
                    let (c, ts) = self.infer_args(args, Seq::empty());
                    c.finish_call(name, ts, nodes(args), id, range)
                },
            }
        }
    }

    /// The types of optional arguments, after those in `acc`.
    pub open spec fn infer_args(self, args: Option<Vec<Output>>, acc: Seq<Tree>) -> (
        CheckerV,
        Seq<Tree>,
    )
        decreases args, 0nat,
    {
        match args {
            Some(a) => self.infer_all(a@, 0, acc),
            None => (self, acc),
        }
    }

    /// The type of `push(array, value)`.
    pub open spec fn infer_array_push(self, args: Option<Vec<Output>>, range: Span) -> (
        CheckerV,
        Tree,
    )
        decreases args, 0nat,
    {
        match args {
            Some(a) => self.infer_push_args(a@, range),
            None => self.wrong_arity(
                "push expects 2 arguments"@,
                0,
                range,
                "use `push(array, value)`"@,
            ),
        }
    }

    /// The type of a `push` with these arguments.
    pub open spec fn infer_push_args(self, items: Seq<Output>, range: Span) -> (CheckerV, Tree)
        decreases items, items.len() + 1,
    {
        if items.len() == 2 {
            let (c, a) = self.infer(items[0]);
            let (c, v) = c.infer(items[1]);
            c.finish_push(items[0], items[1], a, v)
        } else {
            self.infer_each(items, 0).wrong_arity(
                "push expects 2 arguments"@,
                items.len(),
                range,
                "use `push(array, value)`"@,
            )
        }
    }

    /// The type of `len(array)`.
    pub open spec fn infer_array_len(self, args: Option<Vec<Output>>, range: Span) -> (
        CheckerV,
        Tree,
    )
        decreases args, 0nat,
    {
        match args {
            Some(a) => self.infer_len_args(a@, range),
            None => self.wrong_arity("len expects 1 argument"@, 0, range, "use `len(array)`"@),
        }
    }

    /// The type of a `len` with these arguments.
    pub open spec fn infer_len_args(self, items: Seq<Output>, range: Span) -> (CheckerV, Tree)
        decreases items, items.len() + 1,
    {
        if items.len() == 1 {
            let (c, t) = self.infer(items[0]);
            c.finish_len(t, items[0].span)
        } else {
            self.infer_each(items, 0).wrong_arity(
                "len expects 1 argument"@,
                items.len(),
                range,
                "use `len(array)`"@,
            )
        }
    }

    /// The type of `assert(cond)` or `assert(cond, message)`.
    pub open spec fn infer_assert(self, args: Option<Vec<Output>>, range: Span) -> (CheckerV, Tree)
        decreases args, 0nat,
    {
        match args {
            Some(a) => self.infer_assert_args(a@, range),
            None => self.wrong_arity(
                "assert expects 1 or 2 arguments"@,
                0,
                range,
                "use `assert(cond)` or `assert(cond, message)`"@,
            ),
        }
    }

    /// The type of an `assert` with these arguments.
    pub open spec fn infer_assert_args(self, items: Seq<Output>, range: Span) -> (CheckerV, Tree)
        decreases items, items.len() + 1,
    {
        if 1 <= items.len() <= 2 {
            let (c, t) = self.infer(items[0]);
            let c = c.unify(t, Tree::con("bool"@), items[0].span, "assert condition"@).0;
            let c = if items.len() == 2 {
                let (c, m) = c.infer(items[1]);
                c.unify(m, Tree::con("string"@), items[1].span, "assert message"@).0
            } else {
                c
            };
            (c, or_message(Tree::con("unit"@)))
        } else {
            self.infer_each(items, 0).wrong_arity(
                "assert expects 1 or 2 arguments"@,
                items.len(),
                range,
                "use `assert(cond)` or `assert(cond, message)`"@,
            )
        }
    }

    /// The type of a call of the foreign function interface.
    pub open spec fn infer_ffi_call(self, kind: FfiBuiltin, args: Option<Vec<Output>>, range: Span) -> (
        CheckerV,
        Tree,
    )
        decreases args, 0nat,
    {
        let int_t = Tree::con("int"@);
        match (kind, args) {
            (FfiBuiltin::Dload, Some(a)) => self.infer_ffi_dload(a@, range),
            (FfiBuiltin::Dload, None) => (
                self.require_ffi("dload"@, range).error(
                    ErrorCode::DeclareArity,
                    "dload requires 1 argument (path)"@,
                    range,
                ).0,
                or_message(int_t),
            ),
            (FfiBuiltin::Declare, Some(a)) => self.infer_ffi_declare(a@, range),
            (FfiBuiltin::Declare, None) => (
                self.require_ffi("declare"@, range).wrong_count(
                    ErrorCode::DeclareArity,
                    "declare requires 4 arguments (lib, name, args_tuple, ret_type)"@,
                    0,
                    range,
                ),
                or_message(int_t),
            ),
            (FfiBuiltin::Invoke, Some(a)) => self.infer_ffi_invoke(a@, range),
            (FfiBuiltin::Invoke, None) => (
                self.require_ffi("invoke"@, range).wrong_count(
                    ErrorCode::InvokeArity,
                    "invoke requires 3 arguments (lib, fn_id, args_tuple)"@,
                    0,
                    range,
                ),
                or_message(int_t),
            ),
        }
    }

    /// The type of `dload(path)`.
    pub open spec fn infer_ffi_dload(self, items: Seq<Output>, range: Span) -> (CheckerV, Tree)
        decreases items, items.len() + 1,
    {
        let c = self.require_ffi("dload"@, range);
        (
            if items.len() > 0 {
                c.infer(items[0]).0
            } else {
                c.error(
                    ErrorCode::DeclareArity,
                    "dload requires 1 argument (path)"@,
                    range,
                ).0
            },
            or_message(Tree::con("int"@)),
        )
    }

    /// The type of `declare(lib, name, args_tuple, ret_type)`.
    pub open spec fn infer_ffi_declare(self, items: Seq<Output>, range: Span) -> (CheckerV, Tree)
        decreases items, items.len() + 1,
    {
        let c = self.require_ffi("declare"@, range);
        (
            if items.len() == 4 {
                let c = c.infer(items[0]).0.infer(items[1]).0;
                let c = if *items[2].expr is Tuple {
                    c.infer_ffi_type_expr(items[2])
                } else {
                    c.say_labelled(
                        ErrorCode::DeclareArity,
                        "declare(...) third argument must be an arguments tuple (T1, T2, ...)"@,
                        "wrap the arg types in parentheses — (Int, Float) after `use ffi::types::*;`"@,
                        items[2].span,
                    )
                };
                c.infer_ffi_type_expr(items[3])
            } else {
                c.infer_each(items, 0).wrong_count(
                    ErrorCode::DeclareArity,
                    "declare requires 4 arguments (lib, name, args_tuple, ret_type)"@,
                    items.len(),
                    range,
                )
            },
            or_message(Tree::con("int"@)),
        )
    }

    /// The type of `invoke(lib, fn_id, args_tuple)`.
    pub open spec fn infer_ffi_invoke(self, items: Seq<Output>, range: Span) -> (CheckerV, Tree)
        decreases items, items.len() + 1,
    {
        let c = self.require_ffi("invoke"@, range);
        if items.len() == 3 {
            let c = c.infer(items[0]).0.infer(items[1]).0;
            let ret = c.invoked_ty(items[1]);
            (
                if *items[2].expr is Tuple {
                    c.infer_tuple_items(items[2])
                } else {
                    c.say_labelled(
                        ErrorCode::InvokeArity,
                        "invoke(...) third argument must be an arguments tuple (v1, v2, ...)"@,
                        "wrap the arg values in parentheses — (40, 2)"@,
                        items[2].span,
                    )
                },
                or_message(ret),
            )
        } else {
            (
                c.infer_each(items, 0).wrong_count(
                    ErrorCode::InvokeArity,
                    "invoke requires 3 arguments (lib, fn_id, args_tuple)"@,
                    items.len(),
                    range,
                ),
                or_message(Tree::con("int"@)),
            )
        }
    }

    /// The items of a tuple are typed.
    pub open spec fn infer_tuple_items(self, e: Output) -> CheckerV
        decreases e, 0nat,
    {
        match *e.expr {
            Expression::Tuple(items) => self.infer_each(items@, 0),
            _ => self,
        }
    }

    /// A foreign type expression is read: its nodes have types of their own.
    pub open spec fn infer_ffi_type_expr(self, node: Output) -> CheckerV
        decreases node, 11nat,
    {
        let c = self.require_ffi_type_expr(node);
        match *node.expr {
            Expression::Identifier(_) => c.fix_node(c.ty_from_ffi_type_expr(node)),
            Expression::Type(_) => c.fix_node(c.ty_from_ffi_type_expr(node)),
            Expression::Tuple(items) => c.fix_node(Tree::con("unit"@)).infer_ffi_types(items@, 0),
            Expression::Array(items) => c.fix_node(Tree::con("unit"@)).infer_ffi_types(items@, 0),
            _ => c.infer(node).0,
        }
    }

    /// Foreign type expressions are read, from place `at` on.
    pub open spec fn infer_ffi_types(self, items: Seq<Output>, at: nat) -> CheckerV
        decreases items, items.len() - at,
    {
        if at >= items.len() {
            self
        } else {
            self.infer_ffi_type_expr(items[at as int]).infer_ffi_types(items, at + 1)
        }
    }

    /// The type of a list.
    pub open spec fn infer_list(self, items: Seq<Output>) -> (CheckerV, Tree)
        decreases items, items.len() + 1,
    {
        if items.len() == 0 {
            let (c, v) = self.fresh();
            (c, Tree::list(v))
        } else {
            let (c, first) = self.infer(items[0]);
            (c.infer_list_rest(items, 1, first), Tree::list(first))
        }
    }

    /// The elements of a list are typed, from place `at` on.
    pub open spec fn infer_list_rest(self, items: Seq<Output>, at: nat, first: Tree) -> CheckerV
        decreases items, items.len() - at,
    {
        if at >= items.len() {
            self
        } else {
            let (c, t) = self.infer(items[at as int]);
            c.unify(first, t, items[at as int].span, "list element"@).0.infer_list_rest(
                items,
                at + 1,
                first,
            )
        }
    }

    /// The arguments of a format string are checked.
    pub open spec fn infer_print(
        self,
        params: Option<Vec<Output>>,
        fmt: Option<Seq<char>>,
        range: Span,
        ctx: Seq<char>,
    ) -> CheckerV
        decreases params, 0nat,
    {
        match (fmt, params) {
            (Some(s), Some(p)) => self.infer_format_args(p@, s, 0, 0, range, ctx),
            (None, Some(p)) => self.infer_each(p@, 0),
            _ => self,
        }
    }

    /// The arguments of a format string are checked, from place `at` of the
    /// string on; argument `n` comes next. A `%` before another `%` asks for
    /// nothing.
    pub open spec fn infer_format_args(
        self,
        items: Seq<Output>,
        s: Seq<char>,
        at: nat,
        n: nat,
        range: Span,
        ctx: Seq<char>,
    ) -> CheckerV
        decreases items, s.len() - at,
    {
        if at >= s.len() {
            self
        } else if s[at as int] != '%' {
            self.infer_format_args(items, s, at + 1, n, range, ctx)
        } else if at + 1 >= s.len() {
            self
        } else if s[at as int + 1] == '%' {
            self.infer_format_args(items, s, at + 1, n, range, ctx)
        } else if n < items.len() {
            let (c, t) = self.infer(items[n as int]);
            c.check_format_arg(
                s[at as int + 1],
                c.resolve(t),
                items[n as int].span,
                ctx,
                n as usize,
            ).infer_format_args(items, s, at + 1, n + 1, range, ctx)
        } else {
            self.missing_argument(s[at as int + 1], n as usize, range)
        }
    }

    /// A condition, if there is one, is a `bool`.
    pub open spec fn infer_cond(self, cond: Option<Output>, what: Seq<char>) -> CheckerV
        decreases cond, 0nat,
    {
        match cond {
            Some(k) => {
                let (c, t) = self.infer(k);
                c.unify(t, Tree::con("bool"@), k.span, what).0
            },
            None => self,
        }
    }

    /// An optional node is typed.
    pub open spec fn infer_opt(self, item: Option<Output>) -> CheckerV
        decreases item, 0nat,
    {
        match item {
            Some(e) => self.infer(e).0,
            None => self,
        }
    }

    /// An optional value is sent to a coroutine.
    pub open spec fn infer_sent(self, arg: Option<Output>, send: Tree) -> CheckerV
        decreases arg, 0nat,
    {
        match arg {
            Some(a) => {
                let (c, t) = self.infer(a);
                c.unify(t, send, a.span, "resume send value"@).0
            },
            None => self,
        }
    }

    /// Nodes are typed, from place `at` on.
    pub open spec fn infer_each(self, items: Seq<Output>, at: nat) -> CheckerV
        decreases items, items.len() - at,
    {
        if at >= items.len() {
            self
        } else {
            self.infer(items[at as int]).0.infer_each(items, at + 1)
        }
    }

    /// The types of nodes, from place `at` on.
    pub open spec fn infer_all(self, items: Seq<Output>, at: nat, acc: Seq<Tree>) -> (
        CheckerV,
        Seq<Tree>,
    )
        decreases items, items.len() - at,
    {
        if at >= items.len() {
            (self, acc)
        } else {
            let (c, t) = self.infer(items[at as int]);
            c.infer_all(items, at + 1, acc.push(t))
        }
    }

    /// The types of nodes under the substitution, from place `at` on.
    pub open spec fn infer_resolved(self, items: Seq<Output>, at: nat, acc: Seq<Tree>) -> (
        CheckerV,
        Seq<Tree>,
    )
        decreases items, items.len() - at,
    {
        if at >= items.len() {
            (self, acc)
        } else {
            let (c, t) = self.infer(items[at as int]);
            c.infer_resolved(items, at + 1, acc.push(c.resolve(t)))
        }
    }

    /// The type of the last node, from place `at` on.
    pub open spec fn infer_last(self, items: Seq<Output>, at: nat, last: Tree) -> (CheckerV, Tree)
        decreases items, items.len() - at,
    {
        if at >= items.len() {
            (self, last)
        } else {
            let (c, t) = self.infer(items[at as int]);
            c.infer_last(items, at + 1, t)
        }
    }

    /// The type of array elements, from place `at` on.
    pub open spec fn infer_elements(
        self,
        items: Seq<Output>,
        at: nat,
        sofar: Option<Tree>,
        range: Span,
    ) -> (CheckerV, Option<Tree>)
        decreases items, items.len() - at,
    {
        if at >= items.len() {
            (self, sofar)
        } else {
            let (c, t) = self.infer(items[at as int]);
            let (c, e) = c.finish_element(sofar, t, range);
            c.infer_elements(items, at + 1, Some(e), range)
        }
    }

    /// Named values are typed, from place `at` on.
    pub open spec fn infer_values(self, fields: Seq<FieldInit>, at: nat) -> CheckerV
        decreases fields, fields.len() - at,
    {
        if at >= fields.len() {
            self
        } else {
            self.infer(fields[at as int].value).0.infer_values(fields, at + 1)
        }
    }

    /// The types of named values, from place `at` on.
    pub open spec fn infer_record(
        self,
        fields: Seq<FieldInit>,
        at: nat,
        acc: Seq<(Seq<char>, Tree)>,
    ) -> (CheckerV, Seq<(Seq<char>, Tree)>)
        decreases fields, fields.len() - at,
    {
        if at >= fields.len() {
            (self, acc)
        } else {
            let (c, t) = self.infer(fields[at as int].value);
            c.infer_record(fields, at + 1, acc.push((fields[at as int].name@, c.resolve(t))))
        }
    }

    /// The arguments of `new` are held against the fields.
    pub open spec fn infer_new_args(self, args: Option<Vec<Output>>, tys: Seq<Tree>) -> CheckerV
        decreases args, 0nat,
    {
        match args {
            Some(a) => self.infer_fields(a@, tys, 0),
            None => self,
        }
    }

    /// Arguments are held against fields, from place `at` on.
    pub open spec fn infer_fields(self, items: Seq<Output>, tys: Seq<Tree>, at: nat) -> CheckerV
        decreases items, items.len() - at,
    {
        if at >= items.len() || at >= tys.len() {
            self
        } else {
            let (c, t) = self.infer(items[at as int]);
            c.unify(
                t,
                tys[at as int],
                items[at as int].span,
                "constructor argument"@,
            ).0.infer_fields(items, tys, at + 1)
        }
    }

    /// Arguments are held against a tuple payload, from place `at` on.
    pub open spec fn infer_tuple_payload(
        self,
        items: Seq<Output>,
        tys: Seq<Tree>,
        at: nat,
        what: Seq<char>,
    ) -> CheckerV
        decreases items, items.len() - at,
    {
        if at >= items.len() || at >= tys.len() {
            self
        } else {
            let (c, t) = self.infer(items[at as int]);
            c.unify(tys[at as int], t, items[at as int].span, what).0.infer_tuple_payload(
                items,
                tys,
                at + 1,
                what,
            )
        }
    }

    /// The type of a constructor application whose shape fits.
    pub open spec fn infer_construct(self, fields: EnumConstructPayload, k: ConstructV, range: Span) -> (
        CheckerV,
        Tree,
    )
        decreases fields, 0nat,
    {
        match fields {
            EnumConstructPayload::Unit => (self, self.construct_ty(k)),
            EnumConstructPayload::Tuple(args) => {
                let c = self.infer_tuple_payload(args@, k.payload.kids(), 0, k.argument());
                (c, c.construct_ty(k))
            },
            EnumConstructPayload::Record(parts) => self.infer_record_payload(parts@, k, range),
        }
    }

    /// The type of a constructor application with named arguments.
    pub open spec fn infer_record_payload(self, parts: Seq<FieldInit>, k: ConstructV, range: Span) -> (
        CheckerV,
        Tree,
    )
        decreases parts, k.payload.kids().len() + 1,
    {
        match construct::first_repeat(parts, 0, Set::empty()) {
            Some(n) => self.repeated_part(k, n, range),
            None => match self.infer_parts(parts, k, 0) {
                (c, Some(n)) => c.missing_part(k, n, range),
                (c, None) => match construct::first_unknown(
                    parts,
                    k.payload.head()->RecordPayload_0,
                    0,
                ) {
                    Some(n) => c.unknown_part(k, n, range),
                    None => (c, c.construct_ty(k)),
                },
            },
        }
    }

    /// Named arguments are held against the declared fields, from place `at` on,
    /// in the order of the declaration; the first that is missing, if any.
    pub open spec fn infer_parts(self, parts: Seq<FieldInit>, k: ConstructV, at: nat) -> (
        CheckerV,
        Option<Seq<char>>,
    )
        decreases parts, k.payload.kids().len() - at,
    {
        let names = k.payload.head()->RecordPayload_0;
        if at >= names.len() || at >= k.payload.kids().len() {
            (self, None)
        } else {
            let name = names[at as int];
            proof {
                construct::part_place_in(parts, name, 0);
            }
            match construct::part_place(parts, name, 0) {
                None => (self, Some(name)),
                Some(i) => {
                    let value = parts[i as int].value;
                    let (c, t) = self.infer(parts[i as int].value);
                    c.unify(
                        k.payload.kids()[at as int],
                        t,
                        value.span,
                        k.named_argument(name),
                    ).0.infer_parts(parts, k, at + 1)
                },
            }
        }
    }

    /// A branch of an `if`: its type and the place of its body.
    pub open spec fn infer_branch(self, branch: Output) -> (CheckerV, Option<(Tree, Span)>)
        decreases branch, 2nat,
    {
        match *branch.expr {
            Expression::Branch(cond, body) => {
                let (c, t) = self.infer_cond(cond, "if condition"@).infer(body);
                (c, Some((t, body.span)))
            },
            _ => (self, None),
        }
    }

    /// The common type of the branches of an `if`, from place `at` on.
    pub open spec fn infer_branches(self, items: Seq<Output>, at: nat, sofar: Option<Tree>) -> (
        CheckerV,
        Option<Tree>,
    )
        decreases items, items.len() - at,
    {
        if at >= items.len() {
            (self, sofar)
        } else {
            match (self.infer_branch(items[at as int]), sofar) {
                ((c, None), _) => c.infer_branches(items, at + 1, sofar),
                ((c, Some((t, _))), None) => c.infer_branches(items, at + 1, Some(t)),
                ((c, Some((t, place))), Some(r)) => c.unify(
                    r,
                    t,
                    place,
                    "if branch"@,
                ).0.infer_branches(items, at + 1, sofar),
            }
        }
    }

    /// The common type of match arms and what they cover, from place `at` on.
    pub open spec fn infer_arms(
        self,
        arms: Seq<MatchArm>,
        at: nat,
        scrutinee: Tree,
        sofar: Option<Tree>,
        covered: Seq<ArmCoverage>,
    ) -> (CheckerV, Option<Tree>, Seq<ArmCoverage>)
        decreases arms, arms.len() - at,
    {
        if at >= arms.len() {
            (self, sofar, covered)
        } else {
            let arm = arms[at as int];
            let place = arm.body.span;
            let (c, p) = self.push_scope().infer_pattern(arm.pattern, scrutinee, place);
            let c = c.unify(scrutinee, p, place, "match pattern against scrutinee"@).0;
            let coverage = c.arm_coverage(arm.pattern, place);
            let (c, t) = c.infer(arms[at as int].body);
            let (c, r) = match sofar {
                None => (c, t),
                Some(r) => (c.unify(r, t, place, "match arm body"@).0, r),
            };
            c.pop_scope().infer_arms(arms, at + 1, scrutinee, Some(r), covered.push(coverage))
        }
    }

    /// The type of the last of a list of statements, from place `at` on. A node
    /// after a declaration, unless it is a declaration itself, initializes it.
    pub open spec fn infer_fragment(self, items: Seq<Output>, at: nat, last: Tree) -> (
        CheckerV,
        Tree,
    )
        decreases items, items.len() - at,
    {
        let unit_t = Tree::con("unit"@);
        if at >= items.len() {
            (self, last)
        } else {
            let child = items[at as int];
            let has_value = at + 1 < items.len() && !ast::declares(items[at as int + 1]);
            match *child.expr {
                Expression::Variable(name, ann) => {
                    let (c, var_ty) = self.open_let(name@, ann);
                    if !has_value {
                        c.infer_fragment(items, at + 1, unit_t)
                    } else {
                        let (c, t) = c.infer_let(
                            name@,
                            ann is Some,
                            var_ty,
                            items[at as int + 1],
                            child.span,
                        );
                        c.infer_fragment(items, at + 2, t)
                    }
                },
                Expression::Constant(name, ann) => {
                    let (c, var_ty) = self.annotated(ann);
                    match ops::bare_name(name) {
                        None => c.infer_fragment(items, at + 1, unit_t),
                        Some(n) => {
                            let c = c.open_const(n, var_ty);
                            if !has_value {
                                c.infer_fragment(items, at + 1, unit_t)
                            } else {
                                c.infer_const(
                                    n,
                                    ann is Some,
                                    var_ty,
                                    items[at as int + 1],
                                    child.span,
                                ).infer_fragment(items, at + 2, unit_t)
                            }
                        },
                    }
                },
                _ => {
                    let (c, t) = self.infer(items[at as int]);
                    c.infer_fragment(items, at + 1, t)
                },
            }
        }
    }

    /// A variable is bound to its annotated type.
    pub open spec fn open_let(self, name: Seq<char>, ann: Option<Output>) -> (CheckerV, Tree) {
        let (c, t) = self.annotated(ann);
        (c.bind(name, SchemeV::mono(t)).note_var(name, t), t)
    }

    /// A constant is bound to its annotated type.
    pub open spec fn open_const(self, name: Seq<char>, t: Tree) -> CheckerV {
        self.bind(name, SchemeV::mono(t)).note_var(name, t).insert_const_binding(name)
    }

    /// A node is typed while a type is expected of it.
    pub open spec fn infer_wanted(self, node: Output, want: Option<Tree>) -> (CheckerV, Tree)
        decreases node, 11nat,
    {
        let (c, t) = self.with_expected(want).infer(node);
        (c.with_expected(self.ctx.expected), t)
    }

    /// A variable is initialized. What names a generic function takes its scheme.
    pub open spec fn infer_let(
        self,
        name: Seq<char>,
        annotated: bool,
        var_ty: Tree,
        next: Output,
        range: Span,
    ) -> (CheckerV, Tree)
        decreases next, 12nat,
    {
        let c = self.note_yield(next);
        match c.generic_source(next) {
            Some(s) => (c.infer(next).0.bind(name, s).note_var(name, s.ty), s.ty),
            None => {
                let (c, v) = c.infer_wanted(
                    next,
                    if annotated {
                        Some(var_ty)
                    } else {
                        None
                    },
                );
                (
                    c.initialize(name, var_ty, v, next, range, "let binding"@).note_declare(
                        name,
                        next,
                    ),
                    Tree::con("unit"@),
                )
            },
        }
    }

    /// A constant is initialized.
    pub open spec fn infer_const(
        self,
        name: Seq<char>,
        annotated: bool,
        var_ty: Tree,
        next: Output,
        range: Span,
    ) -> CheckerV
        decreases next, 12nat,
    {
        let (c, v) = self.infer_wanted(
            next,
            if annotated {
                Some(var_ty)
            } else {
                None
            },
        );
        c.initialize(name, var_ty, v, next, range, "const binding"@)
    }

    /// Declarations are typed; their own type is the unit type.
    pub open spec fn infer_decl(self, node: Output) -> (CheckerV, Tree)
        decreases node, 3nat,
    {
        let unit_t = Tree::con("unit"@);
        match *node.expr {
            Expression::Function { .. } => (
                self.infer_function(node, true, node.span, None).0,
                unit_t,
            ),
            Expression::Implementation { owner, type_params, methods } => {
                let (c, t, vars) = self.open_impl(owner@, type_params@);
                let c = c.infer_methods(methods@, 0, owner@, t, vars);
                (c.close_impl(type_params@.len() > 0), unit_t)
            },
            Expression::Class { name, type_params, fields } => (
                self.declare_class(name@, type_params@, fields@),
                unit_t,
            ),
            Expression::EnumDecl { name, type_params, variants } => {
                let c = self.register_generic_type_ctor(name@, type_params@).0;
                (c.infer_enum_decl(name@, variants@), unit_t)
            },
            Expression::TypeAlias { name, type_params, ty } => {
                let c = self.declare_alias(name@, type_params@, ty, node.span);
                (c.infer(ty).0, unit_t)
            },
            Expression::ForeignStruct(decl) => if self.c_struct_id(decl.name@) is Some {
                (
                    self.say(
                        ErrorCode::GenericTypeError,
                        "Duplicate extern struct `"@ + decl.name@ + "`"@,
                        node.span,
                    ),
                    unit_t,
                )
            } else {
                let (c, fields) = self.infer_c_fields(decl.fields@, 0, Seq::empty());
                (c.add_c_struct(decl.name@, fields), unit_t)
            },
            Expression::EnumVariant { payload, .. } => (self.infer_payload(payload), unit_t),
            Expression::TypeClass { name, type_params, methods } => match self.open_class(
                name@,
                type_params@,
                methods@,
                node.span,
            ) {
                (c, Some(f)) => (c.infer_each(methods@, 0).close_class(f), unit_t),
                (c, None) => (c.infer_each(methods@, 0), unit_t),
            },
            Expression::TypeClassImpl { class, args, methods } => {
                let (c, tys) = self.parse_heads(args@, 0, Seq::empty());
                let c = c.infer_heads(args@, tys, 0);
                let (c, f) = c.open_instance(class@, args@, tys, methods@, node.span);
                let (c, f) = c.infer_members(methods@, 0, class@, f);
                (c.close_instance(f, class@, node.span), unit_t)
            },
            _ => (self, unit_t),
        }
    }

    /// The type of a function; a method shares the type parameters of its
    /// `impl`, and has none of its own.
    pub open spec fn infer_function(
        self,
        f: Output,
        generic: bool,
        range: Span,
        self_ty: Option<Tree>,
    ) -> (CheckerV, Tree)
        decreases f, 2nat,
    {
        match *f.expr {
            Expression::Function {
                name,
                is_coro,
                type_params,
                args,
                returns: declared_ret,
                where_constraints,
                body,
            } => {
                let (c, frame) = self.open_function(
                    name@,
                    if generic {
                        type_params@
                    } else {
                        Seq::empty()
                    },
                    args,
                    declared_ret,
                    where_constraints@,
                    range,
                    self_ty,
                    is_coro,
                );
                c.infer(body).0.close_function(frame, name@, range, self_ty, is_coro)
            },
            _ => (self, Tree::con("unit"@)),
        }
    }

    /// A method of an `impl` is typed and entered.
    pub open spec fn infer_method(
        self,
        m: Output,
        owner: Seq<char>,
        t: Tree,
        vars: Seq<TyVarId>,
    ) -> CheckerV
        decreases m, 3nat,
    {
        match *m.expr {
            Expression::Method(vis, body) => match *body.expr {
                Expression::Function { name, .. } => {
                    let (c, fun_ty) = self.infer_function(body, false, m.span, Some(t));
                    c.add_method(owner, name@, vis, vars, fun_ty)
                },
                _ => self.say(
                    ErrorCode::GenericTypeError,
                    "Method body must be a function"@,
                    m.span,
                ),
            },
            _ => self,
        }
    }

    /// The methods of an `impl` are typed, from place `at` on.
    pub open spec fn infer_methods(
        self,
        items: Seq<Output>,
        at: nat,
        owner: Seq<char>,
        t: Tree,
        vars: Seq<TyVarId>,
    ) -> CheckerV
        decreases items, items.len() - at,
    {
        if at >= items.len() {
            self
        } else {
            self.infer_method(items[at as int], owner, t, vars).infer_methods(
                items,
                at + 1,
                owner,
                t,
                vars,
            )
        }
    }

    /// The variants of an enum are typed, and its constructors bound, if it was
    /// entered.
    pub open spec fn infer_enum_decl(self, name: Seq<char>, items: Seq<Output>) -> CheckerV
        decreases items, items.len() + 1,
    {
        let c = self.infer_each(items, 0);
        if self.reg.enums.contains_key(name) && self.reg.enum_payloads.contains_key(name) {
            c.bind_enum(
                name,
                stmts::built_variants(
                    items,
                    self.reg.enums[name],
                    self.reg.enum_payloads[name],
                    0,
                    Seq::empty(),
                ),
            )
        } else {
            c
        }
    }

    /// The fields of a foreign struct, from place `at` on.
    pub open spec fn infer_c_fields(
        self,
        fields: Seq<FieldInit>,
        at: nat,
        acc: Seq<(Seq<char>, u32)>,
    ) -> (CheckerV, Seq<(Seq<char>, u32)>)
        decreases fields, fields.len() - at,
    {
        if at >= fields.len() {
            (self, acc)
        } else {
            let (c, f) = self.c_field(fields[at as int].name@, fields[at as int].value);
            c.infer(fields[at as int].value).0.infer_c_fields(fields, at + 1, acc.push(f))
        }
    }

    /// The parts of a declared payload are typed.
    pub open spec fn infer_payload(self, payload: EnumVariantPayload) -> CheckerV
        decreases payload, 0nat,
    {
        match payload {
            EnumVariantPayload::Unit => self,
            EnumVariantPayload::Tuple(parts) => self.infer_each(parts@, 0),
            EnumVariantPayload::Record(fields) => self.infer_values(fields@, 0),
        }
    }

    /// The type of a node is fixed; the arguments of an applied type are typed.
    pub open spec fn cache_forced_ty(self, e: Output, t: Tree) -> CheckerV
        decreases e, 3nat,
    {
        let c = self.fix_node(t);
        match *e.expr {
            Expression::TypeApp { args, .. } => c.infer_each(args@, 0),
            _ => c,
        }
    }

    /// The types of instance heads are fixed, from place `at` on.
    pub open spec fn infer_heads(self, items: Seq<Output>, tys: Seq<Tree>, at: nat) -> CheckerV
        decreases items, items.len() - at,
    {
        if at >= items.len() || at >= tys.len() {
            self
        } else {
            self.cache_forced_ty(items[at as int], tys[at as int]).infer_heads(items, tys, at + 1)
        }
    }

    /// A member of an instance is typed.
    pub open spec fn infer_member(self, m: Output, class: Seq<char>, f: InstFrameV) -> (
        CheckerV,
        InstFrameV,
    )
        decreases m, 11nat,
    {
        match *m.expr {
            Expression::AssocTypeDef { name, type_params, ty } => {
                let (c, a) = self.open_assoc(type_params@, ty);
                c.cache_forced_ty(ty, a.ty).close_assoc(
                    f,
                    class,
                    name@,
                    type_params@,
                    a,
                    m.span,
                    ty.span,
                )
            },
            Expression::Function { name, .. } => (
                self.infer_function(m, true, m.span, None).0,
                f.with_method(class, name@),
            ),
            Expression::Method(_, body) => match *body.expr {
                Expression::Function { name, .. } => (
                    self.infer_function(body, true, m.span, None).0,
                    f.with_method(class, name@),
                ),
                _ => (self.infer(m).0, f),
            },
            _ => (self.infer(m).0, f),
        }
    }

    /// The members of an instance are typed, from place `at` on.
    pub open spec fn infer_members(
        self,
        items: Seq<Output>,
        at: nat,
        class: Seq<char>,
        f: InstFrameV,
    ) -> (CheckerV, InstFrameV)
        decreases items, items.len() - at,
    {
        if at >= items.len() {
            (self, f)
        } else {
            let (c, f) = self.infer_member(items[at as int], class, f);
            c.infer_members(items, at + 1, class, f)
        }
    }
}

/// The parts of a statement, a list or a type are smaller than the node.
pub proof fn parts_shrink(node: Output)
    ensures
        match *node.expr {
            Expression::TypeFun(arg, ret) => {
                &&& decreases_to!(node => arg)
                &&& decreases_to!(node => ret)
            },
            Expression::Expr(e) => decreases_to!(node => e),
            Expression::Group(e) => decreases_to!(node => e),
            Expression::Statement(e) => decreases_to!(node => e),
            Expression::ExprStatement(e) => decreases_to!(node => e),
            Expression::Negate(e) => decreases_to!(node => e),
            Expression::Positive(e) => decreases_to!(node => e),
            Expression::Method(_, e) => decreases_to!(node => e),
            Expression::Block(items) => decreases_to!(node => items@),
            Expression::Program(items) => decreases_to!(node => items@),
            Expression::Fragment(items) => decreases_to!(node => items@),
            Expression::Tuple(items) => decreases_to!(node => items@),
            Expression::Array(items) => decreases_to!(node => items@),
            Expression::Forall { ty, .. } => decreases_to!(node => ty),
            Expression::AssocTypeDef { ty, .. } => decreases_to!(node => ty),
            Expression::Function { body, .. } => decreases_to!(node => body),
            Expression::Access(e, _) => decreases_to!(node => e),
            Expression::Index(e, at) => {
                &&& decreases_to!(node => e)
                &&& decreases_to!(node => at)
            },
            Expression::Branch(cond, body) => {
                &&& decreases_to!(node => cond)
                &&& decreases_to!(node => body)
            },
            Expression::TypeApp { args, .. } => decreases_to!(node => args@),
            _ => true,
        },
{
}

/// The parts of a branch, a loop or a return are smaller than the node.
pub proof fn branches_shrink(node: Output)
    ensures
        match *node.expr {
            Expression::If(branches) => decreases_to!(node => branches@),
            Expression::Branch(cond, body) => {
                &&& decreases_to!(node => cond)
                &&& decreases_to!(node => body)
            },
            Expression::Match { scrutinee, arms } => {
                &&& decreases_to!(node => scrutinee)
                &&& decreases_to!(node => arms@)
            },
            Expression::Loop { identifier, iterable, body } => {
                &&& decreases_to!(node => identifier)
                &&& decreases_to!(node => iterable)
                &&& decreases_to!(node => body)
            },
            Expression::For { init, cond, step, body } => {
                &&& decreases_to!(node => init)
                &&& decreases_to!(node => cond)
                &&& decreases_to!(node => step)
                &&& decreases_to!(node => body)
            },
            Expression::Return(e) => decreases_to!(node => e),
            Expression::ImplicitReturn(e) => decreases_to!(node => e),
            _ => true,
        },
{
}

/// The parts of an effect are smaller than the node.
pub proof fn effects_shrink(node: Output)
    ensures
        match *node.expr {
            Expression::Raise(e) => decreases_to!(node => e),
            Expression::Panic(e) => decreases_to!(node => e),
            Expression::Try(e) => decreases_to!(node => e),
            Expression::Defer(e) => decreases_to!(node => e),
            Expression::Yield(e) => decreases_to!(node => e),
            Expression::YieldFrom(e) => decreases_to!(node => e),
            Expression::Done(e) => decreases_to!(node => e),
            Expression::Coalesce(l, r) => {
                &&& decreases_to!(node => l)
                &&& decreases_to!(node => r)
            },
            Expression::OptionalAccess(e, _) => decreases_to!(node => e),
            Expression::Resume(target, arg) => {
                &&& decreases_to!(node => target)
                &&& decreases_to!(node => arg)
            },
            _ => true,
        },
{
}

/// The parts of a value are smaller than the node.
pub proof fn values_shrink(node: Output)
    ensures
        match *node.expr {
            Expression::Print(fmt, params) => {
                &&& decreases_to!(node => fmt)
                &&& decreases_to!(node => params)
            },
            Expression::Format(fmt, params) => {
                &&& decreases_to!(node => fmt)
                &&& decreases_to!(node => params)
            },
            Expression::Dload(path) => decreases_to!(node => path),
            Expression::Declare(args) => decreases_to!(node => args@),
            Expression::Invoke(args) => decreases_to!(node => args@),
            Expression::Tuple(items) => decreases_to!(node => items@),
            Expression::Array(items) => decreases_to!(node => items@),
            Expression::List(items) => decreases_to!(node => items@),
            Expression::Index(target, index) => {
                &&& decreases_to!(node => target)
                &&& decreases_to!(node => index)
            },
            Expression::Dict(fields) => decreases_to!(node => fields@),
            Expression::Access(receiver, _) => decreases_to!(node => receiver),
            Expression::Instantiate(class, args) => {
                &&& decreases_to!(node => class)
                &&& decreases_to!(node => args)
            },
            Expression::Construct { fields, .. } => decreases_to!(node => fields),
            Expression::Call { name, args } => {
                &&& decreases_to!(node => name)
                &&& decreases_to!(node => args)
            },
            _ => true,
        },
{
}

/// The parts of a declaration are smaller than the node.
pub proof fn members_shrink(node: Output)
    ensures
        match *node.expr {
            Expression::Implementation { methods, .. } => decreases_to!(node => methods@),
            Expression::EnumDecl { variants, .. } => decreases_to!(node => variants@),
            Expression::TypeAlias { ty, .. } => decreases_to!(node => ty),
            Expression::ForeignStruct(decl) => decreases_to!(node => decl.fields@),
            Expression::EnumVariant { payload, .. } => decreases_to!(node => payload),
            Expression::TypeClass { methods, .. } => decreases_to!(node => methods@),
            Expression::TypeClassImpl { args, methods, .. } => {
                &&& decreases_to!(node => args@)
                &&& decreases_to!(node => methods@)
            },
            _ => true,
        },
{
}

/// The arguments of a call are smaller than their option.
pub proof fn arguments_shrink(args: Option<Vec<Output>>)
    ensures
        args matches Some(a) ==> decreases_to!(args => a@),
{
}

/// The parts of a payload are smaller than the payload.
pub proof fn payload_parts_shrink(payload: EnumVariantPayload)
    ensures
        match payload {
            EnumVariantPayload::Unit => true,
            EnumVariantPayload::Tuple(parts) => decreases_to!(payload => parts@),
            EnumVariantPayload::Record(fields) => decreases_to!(payload => fields@),
        },
{
}

/// How many optional arguments there are.
fn count_args(args: &Option<Vec<Output>>) -> (r: usize)
    ensures
        r == count(*args),
{
    match args {
        Some(a) => a.len(),
        None => 0,
    }
}

fn text_of(e: &Output) -> (r: Option<&String>)
    ensures
        match r {
            Some(s) => string_literal(*e) == Some(s@),
            None => string_literal(*e) is None,
        },
{
    match &*e.expr {
        Expression::String(s) => Some(s),
        _ => None,
    }
}

fn failing(t: Ty) -> (r: Ty)
    ensures
        r@ == or_message(t@),
{
    result_app_ty(t, string())
}

impl Checker {
    fn named_value(&mut self, name: &str, range: Span) -> (r: Ty)
        ensures
            (final(self)@, r@) == old(self)@.named_value(name@, range),
    {
        match self.lookup(name) {
            Some(s) => self.instantiate_ty(&s),
            None => self.error(
                ErrorCode::UnknownValue,
                cat3("Cannot find value `", name, "` in this scope"),
                range,
            ),
        }
    }

    fn default_value(&mut self) -> (r: Ty)
        ensures
            (final(self)@, r@) == old(self)@.default_value(),
    {
        let t = self.ctx.match_lhs.dup();
        self.or_fresh(t)
    }

    fn swap_match_lhs(&mut self, t: Option<Ty>) -> (r: Option<Ty>)
        ensures
            final(self)@ == old(self)@.with_match_lhs(t.deep_view()),
            r.deep_view() == old(self)@.ctx.match_lhs,
    {
        let before = self.ctx.match_lhs.take();
        self.ctx.match_lhs = t;
        before
    }

    fn add_pending(&mut self, p: PendingExhaustive)
        ensures
            final(self)@ == old(self)@.add_pending(p@),
    {
        let ghost before = self@.out.pending;
        self.out.pending.push(p);
        assert(self@.out.pending =~= before.push(p@));
    }

    fn push_names(&mut self)
        ensures
            final(self)@ == old(self)@.push_names(),
    {
        self.env.push();
    }

    fn pop_names(&mut self)
        ensures
            final(self)@ == old(self)@.pop_names(),
    {
        self.env.pop();
    }

    fn open_loop(
        &mut self,
        binding: &Option<Output>,
        iterable: &Ty,
        id: Option<NodeId>,
        place: Span,
        range: Span,
    )
        ensures
            final(self)@ == old(self)@.open_loop(*binding, iterable@, id, place, range),
    {
        let resolved = self.resolve(iterable);
        let item = self.resolve_for_in_iterable(&resolved, id, place, range);
        let item = self.or_fresh(item);
        self.push_names();
        if let Some(b) = binding {
            if let Some(n) = name_of(b) {
                self.bind(n.as_str(), Scheme::mono(item.clone()));
                self.note_var(n.as_str(), &item);
            }
        }
    }

    fn finish_yield(&mut self, t: &Ty, place: Span) -> (r: Ty)
        ensures
            (final(self)@, r@) == old(self)@.finish_yield(t@, place),
    {
        let y = self.ctx.yield_ty.dup();
        if let Some(y) = y {
            let _ = self.unify(&y, t, place, "yield value");
        }
        match &self.ctx.send_ty {
            Some(s) => self.resolve(s),
            None => unit(),
        }
    }

    fn finish_yield_from(&mut self, t: &Ty, range: Span)
        ensures
            final(self)@ == old(self)@.finish_yield_from(t@, range),
    {
        let (y, s) = self.expect_coroutine(t, range, "yield from target");
        let mine = self.ctx.yield_ty.dup();
        if let Some(mine) = mine {
            let _ = self.unify(&mine, &y, range, "yield from yield type");
        }
        let mine = self.ctx.send_ty.dup();
        if let Some(mine) = mine {
            let _ = self.unify(&mine, &s, range, "yield from send type");
        }
    }

    fn stray_yield(&mut self, what: &str, range: Span) -> (r: Ty)
        ensures
            (final(self)@, r@) == old(self)@.stray_yield(what@, range),
    {
        self.error_with_help(
            ErrorCode::YieldOutsideAsync,
            cat2(what, " outside async function"),
            range,
            cat2(what, " may only appear inside an async fn body"),
        )
    }

    fn rebind_resumed(&mut self, name: &str, t: &Ty)
        ensures
            final(self)@ == old(self)@.rebind_resumed(name@, t@),
    {
        if self.lookup(name).is_some() {
            self.bind(name, Scheme::mono(t.clone()));
            self.note_var(name, t);
        }
    }

    fn finish_return(&mut self, outer: Option<Ty>, t: &Ty, e: &Output)
        ensures
            final(self)@ == old(self)@.finish_return(outer.deep_view(), t@, *e),
    {
        let _ = self.swap_expected(outer);
        let ret = self.ctx.return_ty.dup();
        if let Some(ret) = ret {
            let _ = self.coerce_or_unify(&ret, t, Some(e), e.span, "return value");
        }
    }

    /// Infer the type of a node, and record it by its id and its span.
    pub fn infer(&mut self, node: &Output) -> (r: Ty)
        ensures
            (final(self)@, r@) == old(self)@.infer(*node),
        decreases node, 10nat,
    {
        let id = self.next_id();
        let t = self.infer_inner(node, id);
        self.cache_at(id, &t);
        self.note_span(node.span, &t);
        t
    }

    pub(crate) fn infer_inner(&mut self, node: &Output, id: Option<NodeId>) -> (r: Ty)
        ensures
            (final(self)@, r@) == old(self)@.infer_inner(*node, id),
        decreases node, 9nat,
    {
        proof {
            parts_shrink(*node);
        }
        match &*node.expr {
            Expression::Integer(_) => int_ty(),
            Expression::Float(_) => float(),
            Expression::String(_) => string(),
            Expression::Bool(_) => boolean(),
            Expression::Identifier(name) => self.named_value(name.as_str(), node.span),
            Expression::Type(name) => self.parse_type_name_str(
                name.as_str(),
                Span { start: 0, end: 0 },
            ),
            Expression::TypeFun(arg, ret) => {
                let a = self.infer(arg);
                let r = self.infer(ret);
                fun(a, r)
            },
            Expression::Noop(_) => unit(),
            Expression::Comment(_) => unit(),
            Expression::Break => unit(),
            Expression::Continue => unit(),
            Expression::Module(_, _) => unit(),
            Expression::Member(_) => unit(),
            Expression::Field(_, _, _) => unit(),
            Expression::AssocTypeDecl { .. } => unit(),
            Expression::AssocTypeDef { ty, .. } => {
                let _ = self.parse_type_name(ty);
                unit()
            },
            Expression::Use { path, name, alias } => {
                let a = match alias {
                    Some(a) => Some(a.as_str()),
                    None => None,
                };
                self.apply_use(path, name.as_str(), a);
                unit()
            },
            Expression::ForeignBlock { declarations, .. } => {
                self.declare_foreign(declarations);
                unit()
            },
            Expression::Expr(e) => self.infer(e),
            Expression::Group(e) => self.infer(e),
            Expression::Statement(e) => self.infer(e),
            Expression::ExprStatement(e) => self.infer(e),
            Expression::Method(_, e) => self.infer(e),
            Expression::Negate(e) => self.infer(e),
            Expression::Positive(e) => self.infer(e),
            Expression::Block(items) => {
                self.push_scope();
                let t = self.infer_last(items);
                self.pop_scope();
                t
            },
            Expression::Program(items) => self.infer_last(items),
            Expression::Fragment(items) => self.infer_fragment(items),
            Expression::Variable(name, ann) => self.declare_var(name.as_str(), ann),
            Expression::Constant(name, ann) => self.declare_const(name, ann, node.span),
            Expression::Argument(ty, _) => self.parse_type_name(ty),
            Expression::TypeApp { name, args } => {
                self.parse_type_app(name.as_str(), args, node.span)
            },
            Expression::TypeProjection { owner, name, args } => {
                let ts = self.parse_type_names(args);
                self.resolve_type_projection(owner.as_str(), name.as_str(), &ts, node.span)
            },
            Expression::Default(_) => self.default_value(),
            Expression::Forall { params, ty } => {
                let (bounds, constraints) = self.open_forall(params);
                let body = self.infer(ty);
                self.pop_params();
                proof {
                    crate::tree::forall_shape(bounds, constraints, Box::new(body));
                }
                Ty::Forall { bounds, constraints, body: Box::new(body) }
            },
            _ => self.infer_operator(node, id),
        }
    }

    fn infer_operator(&mut self, node: &Output, id: Option<NodeId>) -> (r: Ty)
        ensures
            (final(self)@, r@) == old(self)@.infer_operator(*node, id),
        decreases node, 8nat,
    {
        proof {
            ast::operands_shrink(*node);
        }
        match &*node.expr {
            Expression::Add(l, r) => {
                let a = self.infer(l);
                let b = self.infer(r);
                self.finish_arith(&a, &b, id, node.span, "+")
            },
            Expression::Sub(l, r) => {
                let a = self.infer(l);
                let b = self.infer(r);
                self.finish_arith(&a, &b, id, node.span, "-")
            },
            Expression::Mul(l, r) => {
                let a = self.infer(l);
                let b = self.infer(r);
                self.finish_arith(&a, &b, id, node.span, "*")
            },
            Expression::Div(l, r) => {
                let a = self.infer(l);
                let b = self.infer(r);
                self.finish_arith(&a, &b, id, node.span, "/")
            },
            Expression::Mod(l, r) => {
                let a = self.infer(l);
                let b = self.infer(r);
                self.finish_arith(&a, &b, id, node.span, "%")
            },
            Expression::Pow(l, r) => {
                let a = self.infer(l);
                let b = self.infer(r);
                self.finish_arith(&a, &b, id, node.span, "**")
            },
            Expression::Shl(l, r) => {
                let a = self.infer(l);
                let b = self.infer(r);
                self.finish_arith(&a, &b, id, node.span, "<<")
            },
            Expression::Shr(l, r) => {
                let a = self.infer(l);
                let b = self.infer(r);
                self.finish_arith(&a, &b, id, node.span, ">>")
            },
            Expression::Xor(l, r) => {
                let a = self.infer(l);
                let b = self.infer(r);
                self.finish_arith(&a, &b, id, node.span, "^")
            },
            Expression::BitAnd(l, r) => {
                let a = self.infer(l);
                let b = self.infer(r);
                self.finish_arith(&a, &b, id, node.span, "&")
            },
            Expression::BitOr(l, r) => {
                let a = self.infer(l);
                let b = self.infer(r);
                self.finish_arith(&a, &b, id, node.span, "|")
            },
            Expression::Eq(l, r) => {
                let a = self.infer(l);
                let b = self.infer(r);
                self.finish_comparison(&a, &b, id, node.span, "Eq", "eq")
            },
            Expression::Neq(l, r) => {
                let a = self.infer(l);
                let b = self.infer(r);
                self.finish_comparison(&a, &b, id, node.span, "Eq", "ne")
            },
            Expression::Le(l, r) => {
                let a = self.infer(l);
                let b = self.infer(r);
                self.finish_comparison(&a, &b, id, node.span, "Lt", "lt")
            },
            Expression::Gt(l, r) => {
                let a = self.infer(l);
                let b = self.infer(r);
                self.finish_comparison(&a, &b, id, node.span, "Gt", "gt")
            },
            Expression::Leq(l, r) => {
                let a = self.infer(l);
                let b = self.infer(r);
                self.finish_comparison(&a, &b, id, node.span, "Le", "le")
            },
            Expression::Geq(l, r) => {
                let a = self.infer(l);
                let b = self.infer(r);
                self.finish_comparison(&a, &b, id, node.span, "Ge", "ge")
            },
            Expression::And(l, r) => {
                let a = self.infer(l);
                let b = self.infer(r);
                let _ = self.unify(&a, &boolean(), l.span, "left of logical");
                let _ = self.unify(&b, &boolean(), r.span, "right of logical");
                boolean()
            },
            Expression::Or(l, r) => {
                let a = self.infer(l);
                let b = self.infer(r);
                let _ = self.unify(&a, &boolean(), l.span, "left of logical");
                let _ = self.unify(&b, &boolean(), r.span, "right of logical");
                boolean()
            },
            Expression::Not(e) => {
                let t = self.infer(e);
                let _ = self.unify(&t, &int_ty(), e.span, "operand of `~`");
                int_ty()
            },
            Expression::LogicalNot(e) => {
                let t = self.infer(e);
                self.finish_logical_not(&t, e.span)
            },
            Expression::Adjust { target, .. } => {
                let t = self.infer_mutable_lvalue(target, node.span);
                self.finish_adjust(&t, node.span)
            },
            Expression::CompoundAssign(target, op, value) => {
                let t = self.infer_mutable_lvalue(target, node.span);
                let v = self.infer(value);
                self.finish_compound(&t, &v, *op, node.span)
            },
            Expression::Assignment(name, value) => match resumed_variable(name, value) {
                Some(n) => {
                    let v = self.infer(value);
                    self.rebind_resumed(n.as_str(), &v);
                    v
                },
                None => {
                    self.note_yield(value);
                    let v = self.infer(value);
                    let t = self.infer_mutable_lvalue(name, node.span);
                    let _ = self.coerce_or_unify(&t, &v, Some(value), node.span, "assignment");
                    self.resolve(&v)
                },
            },
            _ => self.infer_control(node, id),
        }
    }

    fn infer_mutable_lvalue(&mut self, target: &Output, range: Span) -> (r: Ty)
        ensures
            (final(self)@, r@) == old(self)@.infer_mutable_lvalue(*target, range),
        decreases target, 8nat,
    {
        proof {
            parts_shrink(*target);
        }
        match &*target.expr {
            Expression::Identifier(n) => self.lvalue_name(n.as_str(), range),
            Expression::Access(receiver, field) => {
                let t = self.infer(receiver);
                self.lvalue_field(&t, field.as_str(), range)
            },
            Expression::Index(arr, idx) => {
                let t = self.infer(arr);
                let t = self.resolve(&t);
                let _ = self.infer(idx);
                self.lvalue_element(&t, literal_of(idx), range)
            },
            _ => self.bad_target(
                range,
                "the left-hand side must be a variable, dict field, or array index",
            ),
        }
    }

    fn infer_control(&mut self, node: &Output, id: Option<NodeId>) -> (r: Ty)
        ensures
            (final(self)@, r@) == old(self)@.infer_control(*node, id),
        decreases node, 7nat,
    {
        proof {
            branches_shrink(*node);
        }
        match &*node.expr {
            Expression::If(branches) => {
                let v = self.fresh();
                match self.infer_branches(branches) {
                    Some(t) => t,
                    None => v,
                }
            },
            Expression::Branch(cond, body) => {
                self.infer_cond(cond, "branch condition");
                self.infer(body)
            },
            Expression::Match { scrutinee, arms } => {
                let st = self.infer(scrutinee);
                let resolved = self.resolve(&st);
                let outer = self.swap_match_lhs(Some(st));
                let v = self.fresh();
                if arms.len() == 0 {
                    let _ = self.swap_match_lhs(outer);
                    return self.error(
                        ErrorCode::GenericTypeError,
                        "match has no arms".to_owned(),
                        node.span,
                    );
                }
                let (t, covered) = self.infer_arms(arms, &resolved);
                let _ = self.swap_match_lhs(outer);
                self.add_pending(
                    PendingExhaustive {
                        scrutinee_ty: resolved,
                        arms: covered,
                        match_range: node.span,
                    },
                );
                match t {
                    Some(t) => t,
                    None => v,
                }
            },
            Expression::Loop { identifier, iterable, body } => {
                let t = self.infer(iterable);
                if identifier.is_some() {
                    self.open_loop(identifier, &t, id, iterable.span, node.span);
                    self.infer_opt(identifier);
                    let _ = self.infer(body);
                    self.pop_names();
                } else {
                    let _ = self.unify(&t, &boolean(), iterable.span, "while condition");
                    let _ = self.infer(body);
                }
                unit()
            },
            Expression::For { init, cond, step, body } => {
                self.infer_opt(init);
                let t = self.infer(cond);
                let _ = self.unify(&t, &boolean(), cond.span, "for condition");
                let _ = self.infer(body);
                self.infer_opt(step);
                unit()
            },
            Expression::Return(e) => {
                let want = self.ctx.return_ty.dup();
                let outer = self.swap_expected(want);
                let t = self.infer(e);
                self.finish_return(outer, &t, e);
                t
            },
            Expression::ImplicitReturn(e) => {
                let want = self.ctx.return_ty.dup();
                let outer = self.swap_expected(want);
                let t = self.infer(e);
                self.finish_return(outer, &t, e);
                t
            },
            _ => self.infer_effect(node, id),
        }
    }

    fn infer_effect(&mut self, node: &Output, id: Option<NodeId>) -> (r: Ty)
        ensures
            (final(self)@, r@) == old(self)@.infer_effect(*node, id),
        decreases node, 6nat,
    {
        proof {
            effects_shrink(*node);
        }
        match &*node.expr {
            Expression::Raise(e) => {
                let t = self.infer(e);
                self.ensure_result_mode(&t, e.span)
            },
            Expression::Panic(e) => {
                let t = self.infer(e);
                let _ = self.unify(&t, &string(), e.span, "panic message");
                self.fresh()
            },
            Expression::Try(e) => {
                let t = self.infer(e);
                self.finish_try(&t, node.span)
            },
            Expression::Coalesce(l, r) => {
                let t = self.infer(l);
                match self.coalesce_payload(&t, l.span, node.span) {
                    CoalescePayload::Holds(p) => {
                        let b = self.infer(r);
                        let _ = self.unify(&p, &b, r.span, "coalesce rhs");
                        p
                    },
                    CoalescePayload::Fails(e) => e,
                }
            },
            Expression::OptionalAccess(receiver, field) => {
                let t = self.infer(receiver);
                self.finish_optional_access(&t, field.as_str(), receiver.span, node.span)
            },
            Expression::Defer(e) => {
                let _ = self.infer(e);
                unit()
            },
            Expression::Yield(e) => {
                if self.ctx.async_depth == 0 {
                    return self.stray_yield("yield", node.span);
                }
                let t = self.infer(e);
                self.finish_yield(&t, e.span)
            },
            Expression::YieldFrom(e) => {
                if self.ctx.async_depth == 0 {
                    return self.stray_yield("yield from", node.span);
                }
                let t = self.infer(e);
                self.finish_yield_from(&t, node.span);
                unit()
            },
            Expression::Resume(target, arg) => {
                let t = self.infer(target);
                let (y, s) = self.expect_coroutine(&t, node.span, "resume target");
                self.infer_sent(arg, &s);
                self.resolve(&y)
            },
            Expression::Done(handle) => {
                let t = self.infer(handle);
                let _ = self.expect_coroutine(&t, node.span, "done argument");
                boolean()
            },
            _ => self.infer_value(node, id),
        }
    }

    fn infer_value(&mut self, node: &Output, id: Option<NodeId>) -> (r: Ty)
        ensures
            (final(self)@, r@) == old(self)@.infer_value(*node, id),
        decreases node, 5nat,
    {
        proof {
            values_shrink(*node);
        }
        match &*node.expr {
            Expression::Print(fmt, params) => {
                let t = self.infer(fmt);
                let _ = self.unify(&t, &string(), fmt.span, "print format");
                self.infer_print(params, text_of(fmt), node.span, "print");
                unit()
            },
            Expression::Format(fmt, params) => {
                let t = self.infer(fmt);
                let _ = self.unify(&t, &string(), fmt.span, "print format");
                self.infer_print(params, text_of(fmt), node.span, "format");
                string()
            },
            Expression::Dload(path) => {
                self.require_ffi("dload", node.span);
                let _ = self.infer(path);
                failing(int_ty())
            },
            Expression::Declare(args) => self.infer_ffi_declare(args, node.span),
            Expression::Invoke(args) => self.infer_ffi_invoke(args, node.span),
            Expression::Tuple(items) => tuple(self.infer_resolved(items)),
            Expression::Array(items) => {
                let t = self.infer_elements(items, node.span);
                let element = self.or_fresh(t);
                if items.len() > 0 {
                    array_fixed(element, items.len())
                } else {
                    array(element)
                }
            },
            Expression::Index(target, index) => {
                let t = self.infer(target);
                let t = self.resolve(&t);
                let _ = self.infer(index);
                self.finish_index(&t, literal_of(index), node.span)
            },
            Expression::Dict(fields) => {
                self.report_repeated(fields, node.span);
                let pairs = self.infer_record(fields);
                Ty::Record { fields: sort_fields(pairs) }
            },
            Expression::List(items) => self.infer_list(items),
            Expression::Access(receiver, field) => {
                let t = self.infer(receiver);
                self.finish_access(&t, field.as_str(), node.span)
            },
            Expression::Instantiate(class, args) => {
                let t = self.infer(class);
                match self.open_new(&t, count_args(args), node.span) {
                    NewPlan::Done(t) => t,
                    NewPlan::Miscounted(t) => self.resolve(&t),
                    NewPlan::Fields(tys, t) => {
                        self.infer_new_args(args, &tys);
                        self.resolve(&t)
                    },
                }
            },
            Expression::Construct { enum_name, variant_name, fields } => match self.open_construct(
                enum_name.as_str(),
                variant_name.as_str(),
                fields,
                node.span,
            ) {
                Ok(k) => self.infer_construct(fields, &k, node.span),
                Err(t) => t,
            },
            Expression::Call { .. } => self.infer_call(node, id),
            _ => self.infer_decl(node),
        }
    }

    fn infer_call(&mut self, node: &Output, id: Option<NodeId>) -> (r: Ty)
        ensures
            (final(self)@, r@) == old(self)@.infer_call(*node, id),
        decreases node, 4nat,
    {
        proof {
            values_shrink(*node);
        }
        match &*node.expr {
            Expression::Call { name, args } => match &*name.expr {
                Expression::Access(_, method) => {
                    let recv = self.infer_receiver(name);
                    let plan = self.plan_method(method.as_str(), &recv, node.span);
                    let first = tys1(recv);
                    let ts = match &plan {
                        MethodPlan::Unknown { .. } => first,
                        _ => self.infer_args(args, first),
                    };
                    self.finish_method(
                        &plan,
                        method.as_str(),
                        &ts,
                        args.as_ref(),
                        id,
                        node.span,
                    )
                },
                Expression::Identifier(n) => {
                    self.infer_named_call(n.as_str(), args, id, node.span)
                },
                _ => self.error(
                    ErrorCode::UnknownFunction,
                    "Invalid call target".to_owned(),
                    node.span,
                ),
            },
            _ => unit(),
        }
    }

    fn infer_receiver(&mut self, callee: &Output) -> (r: Ty)
        ensures
            (final(self)@, r@) == old(self)@.infer_receiver(*callee),
        decreases callee, 0nat,
    {
        proof {
            parts_shrink(*callee);
        }
        match &*callee.expr {
            Expression::Access(receiver, _) => self.infer(receiver),
            _ => unit(),
        }
    }

    fn infer_named_call(
        &mut self,
        name: &str,
        args: &Option<Vec<Output>>,
        id: Option<NodeId>,
        range: Span,
    ) -> (r: Ty)
        ensures
            (final(self)@, r@) == old(self)@.infer_named_call(name@, *args, id, range),
        decreases *args, 1nat,
    {
        if same_text(name, "push") {
            return self.infer_array_push(args, range);
        }
        if same_text(name, "len") {
            return self.infer_array_len(args, range);
        }
        if self.prelude_fn_in_scope(name).is_some() {
            return self.infer_assert(args, range);
        }
        if let Some(kind) = self.ffi_fn_in_scope(name) {
            return self.infer_ffi_call(kind, args, range);
        }
        if same_text(name, "dload") || same_text(name, "declare") || same_text(name, "invoke") {
            return self.not_imported(name, range);
        }
        let none: Vec<Ty> = Vec::new();
        assert(none.deep_view() =~= Seq::<Tree>::empty());
        let ts = self.infer_args(args, none);
        self.finish_call(name, &ts, args.as_ref(), id, range)
    }

    fn infer_args(&mut self, args: &Option<Vec<Output>>, acc: Vec<Ty>) -> (r: Vec<Ty>)
        ensures
            (final(self)@, r.deep_view()) == old(self)@.infer_args(*args, acc.deep_view()),
        decreases *args, 0nat,
    {
        match args {
            Some(a) => self.infer_all(a, acc),
            None => acc,
        }
    }

    fn infer_array_push(&mut self, args: &Option<Vec<Output>>, range: Span) -> (r: Ty)
        ensures
            (final(self)@, r@) == old(self)@.infer_array_push(*args, range),
        decreases *args, 0nat,
    {
        match args {
            Some(a) => self.infer_push_args(a, range),
            None => self.wrong_arity(
                "push expects 2 arguments",
                0,
                range,
                "use `push(array, value)`",
            ),
        }
    }

    fn infer_push_args(&mut self, items: &Vec<Output>, range: Span) -> (r: Ty)
        ensures
            (final(self)@, r@) == old(self)@.infer_push_args(items@, range),
        decreases items@, items@.len() + 1,
    {
        if items.len() == 2 {
            assert(decreases_to!(items@ => items@[0]));
            assert(decreases_to!(items@ => items@[1]));
            let a = self.infer(&items[0]);
            let v = self.infer(&items[1]);
            return self.finish_push(&items[0], &items[1], &a, &v);
        }
        self.infer_each(items);
        self.wrong_arity(
            "push expects 2 arguments",
            items.len(),
            range,
            "use `push(array, value)`",
        )
    }

    fn infer_array_len(&mut self, args: &Option<Vec<Output>>, range: Span) -> (r: Ty)
        ensures
            (final(self)@, r@) == old(self)@.infer_array_len(*args, range),
        decreases *args, 0nat,
    {
        match args {
            Some(a) => self.infer_len_args(a, range),
            None => self.wrong_arity("len expects 1 argument", 0, range, "use `len(array)`"),
        }
    }

    fn infer_len_args(&mut self, items: &Vec<Output>, range: Span) -> (r: Ty)
        ensures
            (final(self)@, r@) == old(self)@.infer_len_args(items@, range),
        decreases items@, items@.len() + 1,
    {
        if items.len() == 1 {
            assert(decreases_to!(items@ => items@[0]));
            let t = self.infer(&items[0]);
            return self.finish_len(&t, items[0].span);
        }
        self.infer_each(items);
        self.wrong_arity("len expects 1 argument", items.len(), range, "use `len(array)`")
    }

    fn infer_assert(&mut self, args: &Option<Vec<Output>>, range: Span) -> (r: Ty)
        ensures
            (final(self)@, r@) == old(self)@.infer_assert(*args, range),
        decreases *args, 0nat,
    {
        match args {
            Some(a) => self.infer_assert_args(a, range),
            None => self.wrong_arity(
                "assert expects 1 or 2 arguments",
                0,
                range,
                "use `assert(cond)` or `assert(cond, message)`",
            ),
        }
    }

    fn infer_assert_args(&mut self, items: &Vec<Output>, range: Span) -> (r: Ty)
        ensures
            (final(self)@, r@) == old(self)@.infer_assert_args(items@, range),
        decreases items@, items@.len() + 1,
    {
        if items.len() == 1 || items.len() == 2 {
            assert(decreases_to!(items@ => items@[0]));
            let t = self.infer(&items[0]);
            let _ = self.unify(&t, &boolean(), items[0].span, "assert condition");
            if items.len() == 2 {
                assert(decreases_to!(items@ => items@[1]));
                let m = self.infer(&items[1]);
                let _ = self.unify(&m, &string(), items[1].span, "assert message");
            }
            return failing(unit());
        }
        self.infer_each(items);
        self.wrong_arity(
            "assert expects 1 or 2 arguments",
            items.len(),
            range,
            "use `assert(cond)` or `assert(cond, message)`",
        )
    }

    fn infer_ffi_call(&mut self, kind: FfiBuiltin, args: &Option<Vec<Output>>, range: Span) -> (r: Ty)
        ensures
            (final(self)@, r@) == old(self)@.infer_ffi_call(kind, *args, range),
        decreases *args, 0nat,
    {
        proof {
            arguments_shrink(*args);
        }
        match (kind, args) {
            (FfiBuiltin::Dload, Some(a)) => self.infer_ffi_dload(a, range),
            (FfiBuiltin::Dload, None) => {
                self.require_ffi("dload", range);
                let _ = self.error(
                    ErrorCode::DeclareArity,
                    "dload requires 1 argument (path)".to_owned(),
                    range,
                );
                failing(int_ty())
            },
            (FfiBuiltin::Declare, Some(a)) => self.infer_ffi_declare(a, range),
            (FfiBuiltin::Declare, None) => {
                self.require_ffi("declare", range);
                self.wrong_count(
                    ErrorCode::DeclareArity,
                    "declare requires 4 arguments (lib, name, args_tuple, ret_type)",
                    0,
                    range,
                );
                failing(int_ty())
            },
            (FfiBuiltin::Invoke, Some(a)) => self.infer_ffi_invoke(a, range),
            (FfiBuiltin::Invoke, None) => {
                self.require_ffi("invoke", range);
                self.wrong_count(
                    ErrorCode::InvokeArity,
                    "invoke requires 3 arguments (lib, fn_id, args_tuple)",
                    0,
                    range,
                );
                failing(int_ty())
            },
        }
    }

    fn infer_ffi_dload(&mut self, items: &Vec<Output>, range: Span) -> (r: Ty)
        ensures
            (final(self)@, r@) == old(self)@.infer_ffi_dload(items@, range),
        decreases items@, items@.len() + 1,
    {
        self.require_ffi("dload", range);
        if items.len() > 0 {
            assert(decreases_to!(items@ => items@[0]));
            let _ = self.infer(&items[0]);
        } else {
            let _ = self.error(
                ErrorCode::DeclareArity,
                "dload requires 1 argument (path)".to_owned(),
                range,
            );
        }
        failing(int_ty())
    }

    fn infer_ffi_declare(&mut self, items: &Vec<Output>, range: Span) -> (r: Ty)
        ensures
            (final(self)@, r@) == old(self)@.infer_ffi_declare(items@, range),
        decreases items@, items@.len() + 1,
    {
        self.require_ffi("declare", range);
        if items.len() == 4 {
            assert(decreases_to!(items@ => items@[0]));
            assert(decreases_to!(items@ => items@[1]));
            assert(decreases_to!(items@ => items@[2]));
            assert(decreases_to!(items@ => items@[3]));
            let _ = self.infer(&items[0]);
            let _ = self.infer(&items[1]);
            if let Expression::Tuple(_) = &*items[2].expr {
                self.infer_ffi_type_expr(&items[2]);
            } else {
                self.say_labelled(
                    ErrorCode::DeclareArity,
                    "declare(...) third argument must be an arguments tuple (T1, T2, ...)",
                    "wrap the arg types in parentheses — (Int, Float) after `use ffi::types::*;`".to_owned(),
                    items[2].span,
                );
            }
            self.infer_ffi_type_expr(&items[3]);
        } else {
            self.infer_each(items);
            self.wrong_count(
                ErrorCode::DeclareArity,
                "declare requires 4 arguments (lib, name, args_tuple, ret_type)",
                items.len(),
                range,
            );
        }
        failing(int_ty())
    }

    fn infer_ffi_invoke(&mut self, items: &Vec<Output>, range: Span) -> (r: Ty)
        ensures
            (final(self)@, r@) == old(self)@.infer_ffi_invoke(items@, range),
        decreases items@, items@.len() + 1,
    {
        self.require_ffi("invoke", range);
        if items.len() == 3 {
            assert(decreases_to!(items@ => items@[0]));
            assert(decreases_to!(items@ => items@[1]));
            assert(decreases_to!(items@ => items@[2]));
            let _ = self.infer(&items[0]);
            let _ = self.infer(&items[1]);
            let ret = self.invoked_ty(&items[1]);
            if let Expression::Tuple(_) = &*items[2].expr {
                self.infer_tuple_items(&items[2]);
            } else {
                self.say_labelled(
                    ErrorCode::InvokeArity,
                    "invoke(...) third argument must be an arguments tuple (v1, v2, ...)",
                    "wrap the arg values in parentheses — (40, 2)".to_owned(),
                    items[2].span,
                );
            }
            return failing(ret);
        }
        self.infer_each(items);
        self.wrong_count(
            ErrorCode::InvokeArity,
            "invoke requires 3 arguments (lib, fn_id, args_tuple)",
            items.len(),
            range,
        );
        failing(int_ty())
    }

    fn infer_tuple_items(&mut self, e: &Output)
        ensures
            final(self)@ == old(self)@.infer_tuple_items(*e),
        decreases e, 0nat,
    {
        proof {
            parts_shrink(*e);
        }
        if let Expression::Tuple(items) = &*e.expr {
            self.infer_each(items);
        }
    }

    fn infer_ffi_type_expr(&mut self, node: &Output)
        ensures
            final(self)@ == old(self)@.infer_ffi_type_expr(*node),
        decreases node, 11nat,
    {
        proof {
            parts_shrink(*node);
        }
        self.require_ffi_type_expr(node);
        match &*node.expr {
            Expression::Identifier(_) => {
                let t = self.ty_from_ffi_type_expr(node);
                self.fix_node(&t);
            },
            Expression::Type(_) => {
                let t = self.ty_from_ffi_type_expr(node);
                self.fix_node(&t);
            },
            Expression::Tuple(items) => {
                self.fix_node(&unit());
                self.infer_ffi_types(items);
            },
            Expression::Array(items) => {
                self.fix_node(&unit());
                self.infer_ffi_types(items);
            },
            _ => {
                let _ = self.infer(node);
            },
        }
    }

    fn infer_ffi_types(&mut self, items: &Vec<Output>)
        ensures
            final(self)@ == old(self)@.infer_ffi_types(items@, 0),
        decreases items@, items@.len(),
    {
        let ghost whole = self@.infer_ffi_types(items@, 0);
        let mut i: usize = 0;
        while i < items.len()
            invariant
                i <= items.len(),
                whole == self@.infer_ffi_types(items@, i as nat),
            decreases items.len() - i,
        {
            assert(decreases_to!(items@ => items@[i as int]));
            self.infer_ffi_type_expr(&items[i]);
            i += 1;
        }
    }

    fn infer_list(&mut self, items: &Vec<Output>) -> (r: Ty)
        ensures
            (final(self)@, r@) == old(self)@.infer_list(items@),
        decreases items@, items@.len() + 1,
    {
        if items.len() == 0 {
            let v = self.fresh();
            return list(v);
        }
        assert(decreases_to!(items@ => items@[0]));
        let first = self.infer(&items[0]);
        self.infer_list_rest(items, &first);
        list(first)
    }

    fn infer_list_rest(&mut self, items: &Vec<Output>, first: &Ty)
        ensures
            final(self)@ == old(self)@.infer_list_rest(items@, 1, first@),
        decreases items@, items@.len(),
    {
        let ghost whole = self@.infer_list_rest(items@, 1, first@);
        let mut i: usize = 1;
        while i < items.len()
            invariant
                whole == self@.infer_list_rest(items@, i as nat, first@),
            decreases items.len() - i,
        {
            assert(decreases_to!(items@ => items@[i as int]));
            let t = self.infer(&items[i]);
            let _ = self.unify(first, &t, items[i].span, "list element");
            i += 1;
        }
    }

    fn infer_print(
        &mut self,
        params: &Option<Vec<Output>>,
        fmt: Option<&String>,
        range: Span,
        ctx: &str,
    )
        ensures
            final(self)@ == old(self)@.infer_print(
                *params,
                match fmt {
                    Some(s) => Some(s@),
                    None => None,
                },
                range,
                ctx@,
            ),
        decreases *params, 0nat,
    {
        proof {
            arguments_shrink(*params);
        }
        match (fmt, params) {
            (Some(s), Some(p)) => self.infer_format_args(p, s.as_str(), range, ctx),
            (None, Some(p)) => self.infer_each(p),
            _ => {},
        }
    }

    fn infer_format_args(&mut self, items: &Vec<Output>, s: &str, range: Span, ctx: &str)
        ensures
            final(self)@ == old(self)@.infer_format_args(items@, s@, 0, 0, range, ctx@),
        decreases items@, s@.len(),
    {
        let ghost whole = self@.infer_format_args(items@, s@, 0, 0, range, ctx@);
        let len = s.unicode_len();
        let mut at: usize = 0;
        let mut n: usize = 0;
        while at < len
            invariant
                at <= len,
                len == s@.len(),
                n <= items.len(),
                whole == old(self)@.infer_format_args(items@, s@, 0, 0, range, ctx@),
                whole == self@.infer_format_args(items@, s@, at as nat, n as nat, range, ctx@),
            decreases len - at,
        {
            if s.get_char(at) == '%' {
                if at + 1 >= len {
                    return;
                }
                let spec = s.get_char(at + 1);
                if spec != '%' {
                    let shown = s.substring_char(at + 1, at + 2);
                    assert(shown@ =~= seq![spec]);
                    if n >= items.len() {
                        self.missing_argument(spec, shown, n, range);
                        return;
                    }
                    assert(decreases_to!(items@ => items@[n as int]));
                    let t = self.infer(&items[n]);
                    let t = self.resolve(&t);
                    self.check_format_arg(spec, shown, &t, items[n].span, ctx, n);
                    n += 1;
                }
            }
            at += 1;
        }
    }

    fn infer_cond(&mut self, cond: &Option<Output>, what: &str)
        ensures
            final(self)@ == old(self)@.infer_cond(*cond, what@),
        decreases *cond, 0nat,
    {
        if let Some(k) = cond {
            let t = self.infer(k);
            let _ = self.unify(&t, &boolean(), k.span, what);
        }
    }

    fn infer_opt(&mut self, item: &Option<Output>)
        ensures
            final(self)@ == old(self)@.infer_opt(*item),
        decreases *item, 0nat,
    {
        if let Some(e) = item {
            let _ = self.infer(e);
        }
    }

    fn infer_sent(&mut self, arg: &Option<Output>, send: &Ty)
        ensures
            final(self)@ == old(self)@.infer_sent(*arg, send@),
        decreases *arg, 0nat,
    {
        if let Some(a) = arg {
            let t = self.infer(a);
            let _ = self.unify(&t, send, a.span, "resume send value");
        }
    }

    fn infer_each(&mut self, items: &Vec<Output>)
        ensures
            final(self)@ == old(self)@.infer_each(items@, 0),
        decreases items@, items@.len(),
    {
        let ghost whole = self@.infer_each(items@, 0);
        let mut i: usize = 0;
        while i < items.len()
            invariant
                i <= items.len(),
                whole == self@.infer_each(items@, i as nat),
            decreases items.len() - i,
        {
            assert(decreases_to!(items@ => items@[i as int]));
            let _ = self.infer(&items[i]);
            i += 1;
        }
    }

    fn infer_all(&mut self, items: &Vec<Output>, acc: Vec<Ty>) -> (r: Vec<Ty>)
        ensures
            (final(self)@, r.deep_view()) == old(self)@.infer_all(items@, 0, acc.deep_view()),
        decreases items@, items@.len(),
    {
        let ghost whole = self@.infer_all(items@, 0, acc.deep_view());
        let mut acc = acc;
        let mut i: usize = 0;
        while i < items.len()
            invariant
                i <= items.len(),
                whole == self@.infer_all(items@, i as nat, acc.deep_view()),
            decreases items.len() - i,
        {
            assert(decreases_to!(items@ => items@[i as int]));
            let ghost before = acc.deep_view();
            let t = self.infer(&items[i]);
            acc.push(t);
            assert(acc.deep_view() =~= before.push(t@));
            i += 1;
        }
        acc
    }

    fn infer_resolved(&mut self, items: &Vec<Output>) -> (r: Vec<Ty>)
        ensures
            (final(self)@, r.deep_view()) == old(self)@.infer_resolved(items@, 0, Seq::empty()),
        decreases items@, items@.len(),
    {
        let mut acc: Vec<Ty> = Vec::new();
        assert(acc.deep_view() =~= Seq::<Tree>::empty());
        let ghost whole = self@.infer_resolved(items@, 0, Seq::empty());
        let mut i: usize = 0;
        while i < items.len()
            invariant
                i <= items.len(),
                whole == self@.infer_resolved(items@, i as nat, acc.deep_view()),
            decreases items.len() - i,
        {
            assert(decreases_to!(items@ => items@[i as int]));
            let ghost before = acc.deep_view();
            let t = self.infer(&items[i]);
            let t = self.resolve(&t);
            acc.push(t);
            assert(acc.deep_view() =~= before.push(t@));
            i += 1;
        }
        acc
    }

    fn infer_last(&mut self, items: &Vec<Output>) -> (r: Ty)
        ensures
            (final(self)@, r@) == old(self)@.infer_last(items@, 0, Tree::con("unit"@)),
        decreases items@, items@.len(),
    {
        let mut last = unit();
        let ghost whole = self@.infer_last(items@, 0, last@);
        let mut i: usize = 0;
        while i < items.len()
            invariant
                i <= items.len(),
                whole == self@.infer_last(items@, i as nat, last@),
            decreases items.len() - i,
        {
            assert(decreases_to!(items@ => items@[i as int]));
            last = self.infer(&items[i]);
            i += 1;
        }
        last
    }

    fn infer_elements(&mut self, items: &Vec<Output>, range: Span) -> (r: Option<Ty>)
        ensures
            (final(self)@, r.deep_view()) == old(self)@.infer_elements(items@, 0, None, range),
        decreases items@, items@.len(),
    {
        let mut sofar: Option<Ty> = None;
        let ghost whole = self@.infer_elements(items@, 0, None, range);
        let mut i: usize = 0;
        while i < items.len()
            invariant
                i <= items.len(),
                whole == self@.infer_elements(items@, i as nat, sofar.deep_view(), range),
            decreases items.len() - i,
        {
            assert(decreases_to!(items@ => items@[i as int]));
            let t = self.infer(&items[i]);
            let e = self.finish_element(sofar, &t, range);
            sofar = Some(e);
            i += 1;
        }
        sofar
    }

    fn infer_values(&mut self, fields: &Vec<FieldInit>)
        ensures
            final(self)@ == old(self)@.infer_values(fields@, 0),
        decreases fields@, fields@.len(),
    {
        let ghost whole = self@.infer_values(fields@, 0);
        let mut i: usize = 0;
        while i < fields.len()
            invariant
                i <= fields.len(),
                whole == self@.infer_values(fields@, i as nat),
            decreases fields.len() - i,
        {
            assert(decreases_to!(fields@ => fields@[i as int]));
            let _ = self.infer(&fields[i].value);
            i += 1;
        }
    }

    fn infer_record(&mut self, fields: &Vec<FieldInit>) -> (r: Vec<(String, Ty)>)
        ensures
            (final(self)@, r.deep_view()) == old(self)@.infer_record(fields@, 0, Seq::empty()),
        decreases fields@, fields@.len(),
    {
        let mut acc: Vec<(String, Ty)> = Vec::new();
        assert(acc.deep_view() =~= Seq::<(Seq<char>, Tree)>::empty());
        let ghost whole = self@.infer_record(fields@, 0, Seq::empty());
        let mut i: usize = 0;
        while i < fields.len()
            invariant
                i <= fields.len(),
                whole == self@.infer_record(fields@, i as nat, acc.deep_view()),
            decreases fields.len() - i,
        {
            assert(decreases_to!(fields@ => fields@[i as int]));
            let ghost before = acc.deep_view();
            let t = self.infer(&fields[i].value);
            let x = (fields[i].name.clone(), self.resolve(&t));
            acc.push(x);
            assert(acc.deep_view() =~= before.push((x.0@, x.1@)));
            i += 1;
        }
        acc
    }

    fn infer_new_args(&mut self, args: &Option<Vec<Output>>, tys: &Vec<Ty>)
        ensures
            final(self)@ == old(self)@.infer_new_args(*args, tys.deep_view()),
        decreases *args, 0nat,
    {
        if let Some(a) = args {
            self.infer_fields(a, tys);
        }
    }

    fn infer_fields(&mut self, items: &Vec<Output>, tys: &Vec<Ty>)
        ensures
            final(self)@ == old(self)@.infer_fields(items@, tys.deep_view(), 0),
        decreases items@, items@.len(),
    {
        let ghost all = tys.deep_view();
        let ghost whole = self@.infer_fields(items@, all, 0);
        let mut i: usize = 0;
        while i < items.len() && i < tys.len()
            invariant
                i <= items.len(),
                i <= tys.len(),
                all == tys.deep_view(),
                whole == self@.infer_fields(items@, all, i as nat),
            decreases items.len() - i,
        {
            assert(decreases_to!(items@ => items@[i as int]));
            assert(all[i as int] == tys@[i as int]@);
            let t = self.infer(&items[i]);
            let _ = self.unify(&t, &tys[i], items[i].span, "constructor argument");
            i += 1;
        }
    }

    fn infer_tuple_payload(&mut self, items: &Vec<Output>, tys: &Vec<Ty>, what: &str)
        ensures
            final(self)@ == old(self)@.infer_tuple_payload(items@, tys.deep_view(), 0, what@),
        decreases items@, items@.len(),
    {
        let ghost all = tys.deep_view();
        let ghost whole = self@.infer_tuple_payload(items@, all, 0, what@);
        let mut i: usize = 0;
        while i < items.len() && i < tys.len()
            invariant
                i <= items.len(),
                i <= tys.len(),
                all == tys.deep_view(),
                whole == self@.infer_tuple_payload(items@, all, i as nat, what@),
            decreases items.len() - i,
        {
            assert(decreases_to!(items@ => items@[i as int]));
            assert(all[i as int] == tys@[i as int]@);
            let t = self.infer(&items[i]);
            let _ = self.unify(&tys[i], &t, items[i].span, what);
            i += 1;
        }
    }

    fn infer_construct(&mut self, fields: &EnumConstructPayload, k: &Construct, range: Span) -> (r: Ty)
        requires
            fields is Record ==> k.payload is Record,
        ensures
            (final(self)@, r@) == old(self)@.infer_construct(*fields, k@, range),
        decreases *fields, 0nat,
    {
        match fields {
            EnumConstructPayload::Unit => self.construct_ty(k),
            EnumConstructPayload::Tuple(args) => {
                let tys = payload_types(&k.payload);
                let what = k.argument();
                self.infer_tuple_payload(args, &tys, what.as_str());
                self.construct_ty(k)
            },
            EnumConstructPayload::Record(parts) => match &k.payload {
                EnumVariantPayloadTy::Record(decls) => {
                    self.infer_record_payload(parts, k, decls, range)
                },
                _ => unit(),
            },
        }
    }

    fn infer_record_payload(
        &mut self,
        parts: &Vec<FieldInit>,
        k: &Construct,
        decls: &Vec<(String, Ty)>,
        range: Span,
    ) -> (r: Ty)
        requires
            k@.payload == Tree::Node(
                Head::RecordPayload(tree::names_of(decls.deep_view())),
                tree::trees_of(decls.deep_view()),
            ),
        ensures
            (final(self)@, r@) == old(self)@.infer_record_payload(parts@, k@, range),
        decreases parts@, k@.payload.kids().len() + 1,
    {
        if let Some(t) = self.check_repeated(k, parts, range) {
            return t;
        }
        if let Some(i) = self.infer_parts(parts, k, decls) {
            return self.missing_part(k, decls[i].0.as_str(), range);
        }
        if let Some(t) = self.check_unknown(k, decls, parts, range) {
            return t;
        }
        self.construct_ty(k)
    }

    fn infer_parts(&mut self, parts: &Vec<FieldInit>, k: &Construct, decls: &Vec<(String, Ty)>) -> (r:
        Option<usize>)
        requires
            k@.payload == Tree::Node(
                Head::RecordPayload(tree::names_of(decls.deep_view())),
                tree::trees_of(decls.deep_view()),
            ),
        ensures
            final(self)@ == old(self)@.infer_parts(parts@, k@, 0).0,
            match r {
                Some(i) => i < decls.len() && old(self)@.infer_parts(parts@, k@, 0).1 == Some(
                    decls@[i as int].0@,
                ),
                None => old(self)@.infer_parts(parts@, k@, 0).1 is None,
            },
        decreases parts@, k@.payload.kids().len(),
    {
        let ghost names = tree::names_of(decls.deep_view());
        let ghost trees = tree::trees_of(decls.deep_view());
        let ghost whole = self@.infer_parts(parts@, k@, 0);
        let mut i: usize = 0;
        while i < decls.len()
            invariant
                i <= decls.len(),
                k@.payload == Tree::Node(Head::RecordPayload(names), trees),
                names == tree::names_of(decls.deep_view()),
                trees == tree::trees_of(decls.deep_view()),
                whole == old(self)@.infer_parts(parts@, k@, 0),
                whole == self@.infer_parts(parts@, k@, i as nat),
            decreases decls.len() - i,
        {
            assert(names[i as int] == decls@[i as int].0@);
            assert(trees[i as int] == decls@[i as int].1@);
            match find_part(parts, decls[i].0.as_str()) {
                None => {
                    return Some(i);
                },
                Some(j) => {
                    assert(decreases_to!(parts@ => parts@[j as int]));
                    let t = self.infer(&parts[j].value);
                    let what = k.named_argument(decls[i].0.as_str());
                    let _ = self.unify(&decls[i].1, &t, parts[j].value.span, what.as_str());
                },
            }
            i += 1;
        }
        None
    }

    fn infer_branch(&mut self, branch: &Output) -> (r: Option<(Ty, Span)>)
        ensures
            final(self)@ == old(self)@.infer_branch(*branch).0,
            match r {
                Some((t, place)) => old(self)@.infer_branch(*branch).1 == Some((t@, place)),
                None => old(self)@.infer_branch(*branch).1 is None,
            },
        decreases branch, 2nat,
    {
        proof {
            parts_shrink(*branch);
        }
        match &*branch.expr {
            Expression::Branch(cond, body) => {
                self.infer_cond(cond, "if condition");
                let t = self.infer(body);
                Some((t, body.span))
            },
            _ => None,
        }
    }

    fn infer_branches(&mut self, items: &Vec<Output>) -> (r: Option<Ty>)
        ensures
            (final(self)@, r.deep_view()) == old(self)@.infer_branches(items@, 0, None),
        decreases items@, items@.len(),
    {
        let mut sofar: Option<Ty> = None;
        let ghost whole = self@.infer_branches(items@, 0, None);
        let mut i: usize = 0;
        while i < items.len()
            invariant
                i <= items.len(),
                whole == self@.infer_branches(items@, i as nat, sofar.deep_view()),
            decreases items.len() - i,
        {
            assert(decreases_to!(items@ => items@[i as int]));
            if let Some((t, place)) = self.infer_branch(&items[i]) {
                match &sofar {
                    None => {
                        sofar = Some(t);
                    },
                    Some(r) => {
                        let _ = self.unify(r, &t, place, "if branch");
                    },
                }
            }
            i += 1;
        }
        sofar
    }

    fn infer_arms(&mut self, arms: &Vec<MatchArm>, scrutinee: &Ty) -> (r: (
        Option<Ty>,
        Vec<ArmCoverage>,
    ))
        ensures
            (final(self)@, r.0.deep_view(), r.1@) == old(self)@.infer_arms(
                arms@,
                0,
                scrutinee@,
                None,
                Seq::empty(),
            ),
        decreases arms@, arms@.len(),
    {
        let mut sofar: Option<Ty> = None;
        let mut covered: Vec<ArmCoverage> = Vec::new();
        let ghost whole = self@.infer_arms(arms@, 0, scrutinee@, None, Seq::empty());
        let mut i: usize = 0;
        while i < arms.len()
            invariant
                i <= arms.len(),
                whole == self@.infer_arms(
                    arms@,
                    i as nat,
                    scrutinee@,
                    sofar.deep_view(),
                    covered@,
                ),
            decreases arms.len() - i,
        {
            assert(decreases_to!(arms@ => arms@[i as int]));
            let arm = &arms[i];
            let place = arm.body.span;
            self.push_scope();
            let p = self.infer_pattern(&arm.pattern, scrutinee, place);
            let _ = self.unify(scrutinee, &p, place, "match pattern against scrutinee");
            let coverage = self.arm_coverage(&arm.pattern, place);
            covered.push(coverage);
            let t = self.infer(&arm.body);
            match &sofar {
                None => {
                    sofar = Some(t);
                },
                Some(r) => {
                    let _ = self.unify(r, &t, place, "match arm body");
                },
            }
            self.pop_scope();
            i += 1;
        }
        (sofar, covered)
    }

    fn infer_fragment(&mut self, items: &Vec<Output>) -> (r: Ty)
        ensures
            (final(self)@, r@) == old(self)@.infer_fragment(items@, 0, Tree::con("unit"@)),
        decreases items@, items@.len(),
    {
        let mut last = unit();
        let ghost whole = self@.infer_fragment(items@, 0, last@);
        let mut i: usize = 0;
        while i < items.len()
            invariant
                i <= items.len(),
                whole == self@.infer_fragment(items@, i as nat, last@),
            decreases items.len() - i,
        {
            let child = &items[i];
            assert(decreases_to!(items@ => items@[i as int]));
            let has_value = i + 1 < items.len() && !ast::is_declaration_like(&items[i + 1]);
            match &*child.expr {
                Expression::Variable(name, ann) => {
                    let var_ty = self.open_let(name.as_str(), ann);
                    last = unit();
                    if has_value {
                        assert(decreases_to!(items@ => items@[i + 1]));
                        last = self.infer_let(
                            name.as_str(),
                            ann.is_some(),
                            &var_ty,
                            &items[i + 1],
                            child.span,
                        );
                        i += 1;
                    }
                },
                Expression::Constant(name, ann) => {
                    let var_ty = self.annotated(ann);
                    last = unit();
                    if let Some(n) = name_of(name) {
                        self.open_const(n.as_str(), &var_ty);
                        if has_value {
                            assert(decreases_to!(items@ => items@[i + 1]));
                            self.infer_const(
                                n.as_str(),
                                ann.is_some(),
                                &var_ty,
                                &items[i + 1],
                                child.span,
                            );
                            i += 1;
                        }
                    }
                },
                _ => {
                    last = self.infer(child);
                },
            }
            i += 1;
        }
        last
    }

    fn open_let(&mut self, name: &str, ann: &Option<Output>) -> (r: Ty)
        ensures
            (final(self)@, r@) == old(self)@.open_let(name@, *ann),
    {
        let t = self.annotated(ann);
        self.bind(name, Scheme::mono(t.clone()));
        self.note_var(name, &t);
        t
    }

    fn open_const(&mut self, name: &str, t: &Ty)
        ensures
            final(self)@ == old(self)@.open_const(name@, t@),
    {
        self.bind(name, Scheme::mono(t.clone()));
        self.note_var(name, t);
        self.insert_const_binding(name);
    }

    fn infer_wanted(&mut self, node: &Output, want: Option<Ty>) -> (r: Ty)
        ensures
            (final(self)@, r@) == old(self)@.infer_wanted(*node, want.deep_view()),
        decreases node, 11nat,
    {
        let outer = self.swap_expected(want);
        let t = self.infer(node);
        let _ = self.swap_expected(outer);
        t
    }

    fn infer_let(
        &mut self,
        name: &str,
        annotated: bool,
        var_ty: &Ty,
        next: &Output,
        range: Span,
    ) -> (r: Ty)
        ensures
            (final(self)@, r@) == old(self)@.infer_let(name@, annotated, var_ty@, *next, range),
        decreases next, 12nat,
    {
        self.note_yield(next);
        match self.generic_source(next) {
            Some(s) => {
                let _ = self.infer(next);
                let t = s.ty.clone();
                self.bind(name, s);
                self.note_var(name, &t);
                t
            },
            None => {
                let want = if annotated {
                    Some(var_ty.clone())
                } else {
                    None
                };
                let v = self.infer_wanted(next, want);
                self.initialize(name, var_ty, &v, next, range, "let binding");
                self.note_declare(name, next);
                unit()
            },
        }
    }

    fn infer_const(
        &mut self,
        name: &str,
        annotated: bool,
        var_ty: &Ty,
        next: &Output,
        range: Span,
    )
        ensures
            final(self)@ == old(self)@.infer_const(name@, annotated, var_ty@, *next, range),
        decreases next, 12nat,
    {
        let want = if annotated {
            Some(var_ty.clone())
        } else {
            None
        };
        let v = self.infer_wanted(next, want);
        self.initialize(name, var_ty, &v, next, range, "const binding");
    }

    fn infer_decl(&mut self, node: &Output) -> (r: Ty)
        ensures
            (final(self)@, r@) == old(self)@.infer_decl(*node),
        decreases node, 3nat,
    {
        proof {
            members_shrink(*node);
        }
        match &*node.expr {
            Expression::Function { .. } => {
                let _ = self.infer_function(node, true, node.span, None);
            },
            Expression::Implementation { owner, type_params, methods } => {
                let (t, vars) = self.open_impl(owner.as_str(), type_params);
                self.infer_methods(methods, owner.as_str(), &t, &vars);
                self.close_impl(type_params.len() > 0);
            },
            Expression::Class { name, type_params, fields } => {
                self.declare_class(name.as_str(), type_params, fields);
            },
            Expression::EnumDecl { name, type_params, variants } => {
                let _ = self.register_generic_type_ctor(name.as_str(), type_params);
                self.infer_enum_decl(name.as_str(), variants);
            },
            Expression::TypeAlias { name, type_params, ty } => {
                self.declare_alias(name.as_str(), type_params, ty, node.span);
                let _ = self.infer(ty);
            },
            Expression::ForeignStruct(decl) => {
                if self.c_struct_id(decl.name.as_str()).is_some() {
                    self.say(
                        ErrorCode::GenericTypeError,
                        cat3("Duplicate extern struct `", decl.name.as_str(), "`"),
                        node.span,
                    );
                } else {
                    let fields = self.infer_c_fields(&decl.fields);
                    self.add_c_struct(decl.name.as_str(), fields);
                }
            },
            Expression::EnumVariant { payload, .. } => {
                self.infer_payload(payload);
            },
            Expression::TypeClass { name, type_params, methods } => {
                let f = self.open_class(name.as_str(), type_params, methods, node.span);
                self.infer_each(methods);
                if let Some(f) = f {
                    self.close_class(&f);
                }
            },
            Expression::TypeClassImpl { class, args, methods } => {
                let tys = self.parse_heads(args);
                self.infer_heads(args, &tys);
                let mut f = self.open_instance(class.as_str(), args, tys, methods, node.span);
                self.infer_members(methods, class.as_str(), &mut f);
                self.close_instance(&f, class.as_str(), node.span);
            },
            _ => {},
        }
        unit()
    }

    fn infer_function(&mut self, f: &Output, generic: bool, range: Span, self_ty: Option<&Ty>) -> (r: Ty)
        ensures
            (final(self)@, r@) == old(self)@.infer_function(
                *f,
                generic,
                range,
                crate::infer::decls::opt_tree(self_ty),
            ),
        decreases f, 2nat,
    {
        proof {
            parts_shrink(*f);
        }
        match &*f.expr {
            Expression::Function {
                name,
                is_coro,
                type_params,
                args,
                returns: declared_ret,
                where_constraints,
                body,
            } => {
                let none: Vec<TypeParam> = Vec::new();
                let params = if generic {
                    type_params
                } else {
                    &none
                };
                let frame = self.open_function(
                    name.as_str(),
                    params,
                    args,
                    declared_ret.as_ref(),
                    where_constraints,
                    range,
                    self_ty,
                    *is_coro,
                );
                let _ = self.infer(body);
                self.close_function(&frame, name.as_str(), range, self_ty, *is_coro)
            },
            _ => unit(),
        }
    }

    fn infer_method(&mut self, m: &Output, owner: &str, t: &Ty, vars: &Vec<TyVarId>)
        ensures
            final(self)@ == old(self)@.infer_method(*m, owner@, t@, vars@),
        decreases m, 3nat,
    {
        proof {
            parts_shrink(*m);
        }
        if let Expression::Method(vis, body) = &*m.expr {
            if let Expression::Function { name, .. } = &*body.expr {
                let fun_ty = self.infer_function(body, false, m.span, Some(t));
                self.add_method(owner, name.as_str(), *vis, vars, fun_ty);
            } else {
                self.say(
                    ErrorCode::GenericTypeError,
                    "Method body must be a function".to_owned(),
                    m.span,
                );
            }
        }
    }

    fn infer_methods(&mut self, items: &Vec<Output>, owner: &str, t: &Ty, vars: &Vec<TyVarId>)
        ensures
            final(self)@ == old(self)@.infer_methods(items@, 0, owner@, t@, vars@),
        decreases items@, items@.len(),
    {
        let ghost whole = self@.infer_methods(items@, 0, owner@, t@, vars@);
        let mut i: usize = 0;
        while i < items.len()
            invariant
                i <= items.len(),
                whole == self@.infer_methods(items@, i as nat, owner@, t@, vars@),
            decreases items.len() - i,
        {
            assert(decreases_to!(items@ => items@[i as int]));
            self.infer_method(&items[i], owner, t, vars);
            i += 1;
        }
    }

    fn infer_enum_decl(&mut self, name: &str, items: &Vec<Output>)
        ensures
            final(self)@ == old(self)@.infer_enum_decl(name@, items@),
        decreases items@, items@.len() + 1,
    {
        let names = match self.reg.enums.get(name) {
            Some(n) => Some(n.dup()),
            None => None,
        };
        let payloads = match self.reg.enum_payloads.get(name) {
            Some(p) => Some(p.dup()),
            None => None,
        };
        self.infer_each(items);
        if let (Some(names), Some(payloads)) = (names, payloads) {
            self.bind_enum(name, items, &names, &payloads);
        }
    }

    fn infer_c_fields(&mut self, fields: &Vec<FieldInit>) -> (r: Vec<(String, u32)>)
        ensures
            (final(self)@, r.deep_view()) == old(self)@.infer_c_fields(fields@, 0, Seq::empty()),
        decreases fields@, fields@.len(),
    {
        let mut acc: Vec<(String, u32)> = Vec::new();
        assert(acc.deep_view() =~= Seq::<(Seq<char>, u32)>::empty());
        let ghost whole = self@.infer_c_fields(fields@, 0, Seq::empty());
        let mut i: usize = 0;
        while i < fields.len()
            invariant
                i <= fields.len(),
                whole == self@.infer_c_fields(fields@, i as nat, acc.deep_view()),
            decreases fields.len() - i,
        {
            assert(decreases_to!(fields@ => fields@[i as int]));
            let ghost before = acc.deep_view();
            let x = self.c_field(fields[i].name.as_str(), &fields[i].value);
            acc.push(x);
            assert(acc.deep_view() =~= before.push((x.0@, x.1)));
            let _ = self.infer(&fields[i].value);
            i += 1;
        }
        acc
    }

    fn infer_payload(&mut self, payload: &EnumVariantPayload)
        ensures
            final(self)@ == old(self)@.infer_payload(*payload),
        decreases *payload, 0nat,
    {
        proof {
            payload_parts_shrink(*payload);
        }
        match payload {
            EnumVariantPayload::Unit => {},
            EnumVariantPayload::Tuple(parts) => self.infer_each(parts),
            EnumVariantPayload::Record(fields) => self.infer_values(fields),
        }
    }

    fn cache_forced_ty(&mut self, e: &Output, t: &Ty)
        ensures
            final(self)@ == old(self)@.cache_forced_ty(*e, t@),
        decreases e, 3nat,
    {
        proof {
            parts_shrink(*e);
        }
        self.fix_node(t);
        if let Expression::TypeApp { args, .. } = &*e.expr {
            self.infer_each(args);
        }
    }

    fn infer_heads(&mut self, items: &Vec<Output>, tys: &Vec<Ty>)
        ensures
            final(self)@ == old(self)@.infer_heads(items@, tys.deep_view(), 0),
        decreases items@, items@.len(),
    {
        let ghost all = tys.deep_view();
        let ghost whole = self@.infer_heads(items@, all, 0);
        let mut i: usize = 0;
        while i < items.len() && i < tys.len()
            invariant
                i <= items.len(),
                i <= tys.len(),
                all == tys.deep_view(),
                whole == self@.infer_heads(items@, all, i as nat),
            decreases items.len() - i,
        {
            assert(decreases_to!(items@ => items@[i as int]));
            assert(all[i as int] == tys@[i as int]@);
            self.cache_forced_ty(&items[i], &tys[i]);
            i += 1;
        }
    }

    fn infer_member(&mut self, m: &Output, class: &str, f: &mut InstFrame)
        ensures
            (final(self)@, final(f)@) == old(self)@.infer_member(*m, class@, old(f)@),
        decreases m, 11nat,
    {
        proof {
            parts_shrink(*m);
        }
        match &*m.expr {
            Expression::AssocTypeDef { name, type_params, ty } => {
                let a = self.open_assoc(type_params, ty);
                self.cache_forced_ty(ty, &a.ty);
                self.close_assoc(f, class, name.as_str(), type_params, a, m.span, ty.span);
            },
            Expression::Function { name, .. } => {
                let _ = self.infer_function(m, true, m.span, None);
                f.note_method(class, name.as_str());
            },
            Expression::Method(_, body) => match &*body.expr {
                Expression::Function { name, .. } => {
                    let _ = self.infer_function(body, true, m.span, None);
                    f.note_method(class, name.as_str());
                },
                _ => {
                    let _ = self.infer(m);
                },
            },
            _ => {
                let _ = self.infer(m);
            },
        }
    }

    fn infer_members(&mut self, items: &Vec<Output>, class: &str, f: &mut InstFrame)
        ensures
            (final(self)@, final(f)@) == old(self)@.infer_members(items@, 0, class@, old(f)@),
        decreases items@, items@.len(),
    {
        let ghost whole = self@.infer_members(items@, 0, class@, f@);
        let mut i: usize = 0;
        while i < items.len()
            invariant
                i <= items.len(),
                whole == self@.infer_members(items@, i as nat, class@, f@),
            decreases items.len() - i,
        {
            assert(decreases_to!(items@ => items@[i as int]));
            self.infer_member(&items[i], class, f);
            i += 1;
        }
    }
}

} // verus!
