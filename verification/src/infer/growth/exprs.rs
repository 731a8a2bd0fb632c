//! The steps of [`exprs`](crate::infer::exprs) only add.
use crate::ast::{
    self, EnumConstructPayload, EnumVariantPayload, Expression, FieldInit, MatchArm, Output,
};
use crate::id::NodeId;
use crate::infer::{ArmCoverage, CheckerV};
use crate::infer::construct::{self, ConstructV, NewV};
use crate::infer::exprs;
use crate::infer::growth::{self, steps};
use crate::infer::methods::PlanV;
use crate::infer::ops::{self, Payload};
use crate::infer::traits::InstFrameV;
use crate::report::{ErrorCode, Span};
use crate::tree::{Tree, TyVarId};
use crate::virtual_modules::FfiBuiltin;
use vstd::prelude::*;

verus! {

/// What is inside the payload of a construction is smaller than the payload.
proof fn construct_parts_shrink(payload: EnumConstructPayload)
    ensures
        match payload {
            EnumConstructPayload::Unit => true,
            EnumConstructPayload::Tuple(parts) => decreases_to!(payload => parts@),
            EnumConstructPayload::Record(fields) => decreases_to!(payload => fields@),
        },
{
}

impl CheckerV {
    pub broadcast proof fn named_value_grows(self, name: Seq<char>, range: Span)
        ensures
            steps(self.ledger(), (#[trigger] self.named_value(name, range)).0.ledger()),
    {
        broadcast use {
            growth::chained,
            CheckerV::instantiate_scheme_mapped_grows,
            CheckerV::report_grows,
            CheckerV::fresh_grows,
        };

        growth::starts(self.ledger());
        growth::arrives(self.ledger(), self.named_value(name, range).0.ledger());
    }

    pub broadcast proof fn default_value_grows(self)
        ensures
            steps(self.ledger(), (#[trigger] self.default_value()).0.ledger()),
    {
        broadcast use {growth::chained, CheckerV::fresh_grows};

        growth::starts(self.ledger());
        growth::arrives(self.ledger(), self.default_value().0.ledger());
    }

    pub broadcast proof fn push_names_opens(self)
        ensures
            (#[trigger] self.push_names()).ledger().closed() == self.ledger(),
    {
        assert(self.push_names().ledger().closed().env =~= self.env);
    }

    pub broadcast proof fn open_loop_opens(
        self,
        binding: Option<Output>,
        iterable: Tree,
        id: Option<NodeId>,
        place: Span,
        range: Span,
    )
        ensures
            steps(
                self.ledger(),
                (#[trigger] self.open_loop(binding, iterable, id, place, range)).ledger().closed(),
            ),
    {
        broadcast use {
            growth::chained,
            growth::within,
            CheckerV::resolve_for_in_iterable_grows,
            CheckerV::fresh_grows,
            CheckerV::push_names_opens,
            CheckerV::bind_grows,
        };

        growth::starts(self.ledger());
        growth::arrives(
            self.ledger(),
            self.open_loop(binding, iterable, id, place, range).ledger().closed(),
        );
    }

    pub broadcast proof fn finish_yield_grows(self, t: Tree, place: Span)
        ensures
            steps(self.ledger(), (#[trigger] self.finish_yield(t, place)).0.ledger()),
    {
        broadcast use {growth::chained, CheckerV::unify_grows};

        growth::starts(self.ledger());
        growth::arrives(self.ledger(), self.finish_yield(t, place).0.ledger());
    }

    pub broadcast proof fn finish_yield_from_grows(self, t: Tree, range: Span)
        ensures
            steps(self.ledger(), (#[trigger] self.finish_yield_from(t, range)).ledger()),
    {
        broadcast use {growth::chained, CheckerV::expect_coroutine_grows, CheckerV::unify_grows};

        growth::starts(self.ledger());
        growth::arrives(self.ledger(), self.finish_yield_from(t, range).ledger());
    }

    pub broadcast proof fn stray_yield_grows(self, what: Seq<char>, range: Span)
        ensures
            steps(self.ledger(), (#[trigger] self.stray_yield(what, range)).0.ledger()),
    {
        broadcast use {growth::chained, CheckerV::report_grows, CheckerV::fresh_grows};

        growth::starts(self.ledger());
        growth::arrives(self.ledger(), self.stray_yield(what, range).0.ledger());
    }

    pub broadcast proof fn rebind_resumed_grows(self, name: Seq<char>, t: Tree)
        ensures
            steps(self.ledger(), (#[trigger] self.rebind_resumed(name, t)).ledger()),
    {
        broadcast use {growth::chained, CheckerV::bind_grows};

        growth::starts(self.ledger());
        growth::arrives(self.ledger(), self.rebind_resumed(name, t).ledger());
    }

    pub broadcast proof fn infer_grows(self, node: Output)
        ensures
            steps(self.ledger(), (#[trigger] self.infer(node)).0.ledger()),
        decreases node, 10nat,
    {
        broadcast use {growth::chained, CheckerV::next_id_grows};

        let (c, id) = self.next_id();
        c.infer_inner_grows(node, id);
        growth::starts(self.ledger());
        growth::arrives(self.ledger(), self.infer(node).0.ledger());
    }

    pub broadcast proof fn infer_inner_grows(self, node: Output, id: Option<NodeId>)
        ensures
            steps(self.ledger(), (#[trigger] self.infer_inner(node, id)).0.ledger()),
        decreases node, 9nat,
    {
        broadcast use {
            growth::chained,
            growth::within,
            CheckerV::named_value_grows,
            CheckerV::parse_type_name_str_grows,
            CheckerV::parse_type_name_grows,
            CheckerV::apply_use_grows,
            CheckerV::declare_foreign_grows,
            CheckerV::push_scope_opens,
            CheckerV::declare_var_grows,
            CheckerV::declare_const_grows,
            CheckerV::parse_type_app_grows,
            CheckerV::parse_type_names_grows,
            CheckerV::resolve_type_projection_grows,
            CheckerV::default_value_grows,
            CheckerV::open_forall_grows,
        };

        exprs::parts_shrink(node);
        let unit_t = Tree::con("unit"@);
        match *node.expr {
            Expression::Integer(_) => {},
            Expression::Float(_) => {},
            Expression::String(_) => {},
            Expression::Bool(_) => {},
            Expression::Identifier(name) => {},
            Expression::Type(name) => {},
            Expression::TypeFun(arg, ret) => {
                self.infer_grows(arg);
                let (c, a) = self.infer(arg);
                c.infer_grows(ret);
            },
            Expression::Noop(_) => {},
            Expression::Comment(_) => {},
            Expression::Break => {},
            Expression::Continue => {},
            Expression::Module(_, _) => {},
            Expression::Member(_) => {},
            Expression::Field(_, _, _) => {},
            Expression::AssocTypeDecl { .. } => {},
            Expression::AssocTypeDef { ty, .. } => {},
            Expression::Use { path, name, alias } => {},
            Expression::ForeignBlock { declarations, .. } => {},
            Expression::Expr(e) => {
                self.infer_grows(e);
            },
            Expression::Group(e) => {
                self.infer_grows(e);
            },
            Expression::Statement(e) => {
                self.infer_grows(e);
            },
            Expression::ExprStatement(e) => {
                self.infer_grows(e);
            },
            Expression::Method(_, e) => {
                self.infer_grows(e);
            },
            Expression::Negate(e) => {
                self.infer_grows(e);
            },
            Expression::Positive(e) => {
                self.infer_grows(e);
            },
            Expression::Block(items) => {
                self.push_scope().infer_last_grows(items@, 0, unit_t);
            },
            Expression::Program(items) => {
                self.infer_last_grows(items@, 0, unit_t);
            },
            Expression::Fragment(items) => {
                self.infer_fragment_grows(items@, 0, unit_t);
            },
            Expression::Variable(name, ann) => {},
            Expression::Constant(name, ann) => {},
            Expression::Argument(ty, _) => {},
            Expression::TypeApp { name, args } => {},
            Expression::TypeProjection { owner, name, args } => {},
            Expression::Default(_) => {},
            Expression::Forall { params, ty } => {
                let (c, vars, constraints) = self.open_forall(params@);
                c.infer_grows(ty);
            },
            _ => {
                self.infer_operator_grows(node, id);
            },
        }
        growth::starts(self.ledger());
        growth::arrives(self.ledger(), self.infer_inner(node, id).0.ledger());
    }

    pub broadcast proof fn infer_operator_grows(self, node: Output, id: Option<NodeId>)
        ensures
            steps(self.ledger(), (#[trigger] self.infer_operator(node, id)).0.ledger()),
        decreases node, 8nat,
    {
        broadcast use {
            growth::chained,
            CheckerV::finish_arith_grows,
            CheckerV::finish_comparison_grows,
            CheckerV::unify_grows,
            CheckerV::finish_logical_not_grows,
            CheckerV::finish_adjust_grows,
            CheckerV::finish_compound_grows,
            CheckerV::rebind_resumed_grows,
            CheckerV::coerce_or_unify_grows,
        };

        ast::operands_shrink(node);
        match *node.expr {
            Expression::Add(l, r) => {
                self.infer_grows(l);
                let (c, a) = self.infer(l);
                c.infer_grows(r);
            },
            Expression::Sub(l, r) => {
                self.infer_grows(l);
                let (c, a) = self.infer(l);
                c.infer_grows(r);
            },
            Expression::Mul(l, r) => {
                self.infer_grows(l);
                let (c, a) = self.infer(l);
                c.infer_grows(r);
            },
            Expression::Div(l, r) => {
                self.infer_grows(l);
                let (c, a) = self.infer(l);
                c.infer_grows(r);
            },
            Expression::Mod(l, r) => {
                self.infer_grows(l);
                let (c, a) = self.infer(l);
                c.infer_grows(r);
            },
            Expression::Pow(l, r) => {
                self.infer_grows(l);
                let (c, a) = self.infer(l);
                c.infer_grows(r);
            },
            Expression::Shl(l, r) => {
                self.infer_grows(l);
                let (c, a) = self.infer(l);
                c.infer_grows(r);
            },
            Expression::Shr(l, r) => {
                self.infer_grows(l);
                let (c, a) = self.infer(l);
                c.infer_grows(r);
            },
            Expression::Xor(l, r) => {
                self.infer_grows(l);
                let (c, a) = self.infer(l);
                c.infer_grows(r);
            },
            Expression::BitAnd(l, r) => {
                self.infer_grows(l);
                let (c, a) = self.infer(l);
                c.infer_grows(r);
            },
            Expression::BitOr(l, r) => {
                self.infer_grows(l);
                let (c, a) = self.infer(l);
                c.infer_grows(r);
            },
            Expression::Eq(l, r) => {
                self.infer_grows(l);
                let (c, a) = self.infer(l);
                c.infer_grows(r);
            },
            Expression::Neq(l, r) => {
                self.infer_grows(l);
                let (c, a) = self.infer(l);
                c.infer_grows(r);
            },
            Expression::Le(l, r) => {
                self.infer_grows(l);
                let (c, a) = self.infer(l);
                c.infer_grows(r);
            },
            Expression::Gt(l, r) => {
                self.infer_grows(l);
                let (c, a) = self.infer(l);
                c.infer_grows(r);
            },
            Expression::Leq(l, r) => {
                self.infer_grows(l);
                let (c, a) = self.infer(l);
                c.infer_grows(r);
            },
            Expression::Geq(l, r) => {
                self.infer_grows(l);
                let (c, a) = self.infer(l);
                c.infer_grows(r);
            },
            Expression::And(l, r) => {
                self.infer_grows(l);
                let (c, a) = self.infer(l);
                c.infer_grows(r);
            },
            Expression::Or(l, r) => {
                self.infer_grows(l);
                let (c, a) = self.infer(l);
                c.infer_grows(r);
            },
            Expression::Not(e) => {
                self.infer_grows(e);
            },
            Expression::LogicalNot(e) => {
                self.infer_grows(e);
            },
            Expression::Adjust { target, .. } => {
                self.infer_mutable_lvalue_grows(target, node.span);
            },
            Expression::CompoundAssign(target, op, value) => {
                self.infer_mutable_lvalue_grows(target, node.span);
                let (c, t) = self.infer_mutable_lvalue(target, node.span);
                c.infer_grows(value);
            },
            Expression::Assignment(name, value) => {
                match exprs::resumes_itself(name, value) {
                    Some(n) => {
                        self.infer_grows(value);
                    },
                    None => {
                        self.note_yield(value).infer_grows(value);
                        let (c, v) = self.note_yield(value).infer(value);
                        c.infer_mutable_lvalue_grows(name, node.span);
                    },
                }
            },
            _ => {
                self.infer_control_grows(node, id);
            },
        }
        growth::starts(self.ledger());
        growth::arrives(self.ledger(), self.infer_operator(node, id).0.ledger());
    }

    pub broadcast proof fn infer_mutable_lvalue_grows(self, target: Output, range: Span)
        ensures
            steps(self.ledger(), (#[trigger] self.infer_mutable_lvalue(target, range)).0.ledger()),
        decreases target, 8nat,
    {
        broadcast use {
            growth::chained,
            CheckerV::lvalue_name_grows,
            CheckerV::lvalue_field_grows,
            CheckerV::lvalue_element_grows,
            CheckerV::bad_target_grows,
        };

        exprs::parts_shrink(target);
        match *target.expr {
            Expression::Access(receiver, field) => {
                self.infer_grows(receiver);
            },
            Expression::Index(arr, idx) => {
                self.infer_grows(arr);
                let (c, t) = self.infer(arr);
                c.infer_grows(idx);
            },
            _ => {},
        }
        growth::starts(self.ledger());
        growth::arrives(self.ledger(), self.infer_mutable_lvalue(target, range).0.ledger());
    }

    pub broadcast proof fn infer_control_grows(self, node: Output, id: Option<NodeId>)
        ensures
            steps(self.ledger(), (#[trigger] self.infer_control(node, id)).0.ledger()),
        decreases node, 7nat,
    {
        broadcast use {
            growth::chained,
            growth::within,
            CheckerV::fresh_grows,
            CheckerV::report_grows,
            CheckerV::open_loop_opens,
            CheckerV::unify_grows,
            CheckerV::finish_return_grows,
        };

        exprs::branches_shrink(node);
        let bool_t = Tree::con("bool"@);
        match *node.expr {
            Expression::If(branches) => {
                let (c, v) = self.fresh();
                c.infer_branches_grows(branches@, 0, None);
            },
            Expression::Branch(cond, body) => {
                self.infer_cond_grows(cond, "branch condition"@);
                self.infer_cond(cond, "branch condition"@).infer_grows(body);
            },
            Expression::Match { scrutinee, arms } => {
                self.infer_grows(scrutinee);
                let (c, st) = self.infer(scrutinee);
                let resolved = c.resolve(st);
                let (c, v) = c.with_match_lhs(Some(st)).fresh();
                if arms@.len() != 0 {
                    c.infer_arms_grows(arms@, 0, resolved, None, Seq::empty());
                }
            },
            Expression::Loop { identifier, iterable, body } => {
                self.infer_grows(iterable);
                let (c, t) = self.infer(iterable);
                if identifier is Some {
                    let c = c.open_loop(identifier, t, id, iterable.span, node.span);
                    c.infer_opt_grows(identifier);
                    c.infer_opt(identifier).infer_grows(body);
                } else {
                    let c = c.unify(t, bool_t, iterable.span, "while condition"@).0;
                    c.infer_grows(body);
                }
            },
            Expression::For { init, cond, step, body } => {
                self.infer_opt_grows(init);
                self.infer_opt(init).infer_grows(cond);
                let (c, t) = self.infer_opt(init).infer(cond);
                let c = c.unify(t, bool_t, cond.span, "for condition"@).0;
                c.infer_grows(body);
                c.infer(body).0.infer_opt_grows(step);
            },
            Expression::Return(e) => {
                self.with_expected(self.ctx.return_ty).infer_grows(e);
            },
            Expression::ImplicitReturn(e) => {
                self.with_expected(self.ctx.return_ty).infer_grows(e);
            },
            _ => {
                self.infer_effect_grows(node, id);
            },
        }
        growth::starts(self.ledger());
        growth::arrives(self.ledger(), self.infer_control(node, id).0.ledger());
    }

    pub broadcast proof fn infer_effect_grows(self, node: Output, id: Option<NodeId>)
        ensures
            steps(self.ledger(), (#[trigger] self.infer_effect(node, id)).0.ledger()),
        decreases node, 6nat,
    {
        broadcast use {
            growth::chained,
            CheckerV::ensure_result_mode_grows,
            CheckerV::unify_grows,
            CheckerV::fresh_grows,
            CheckerV::finish_try_grows,
            CheckerV::coalesce_payload_grows,
            CheckerV::finish_optional_access_grows,
            CheckerV::stray_yield_grows,
            CheckerV::finish_yield_grows,
            CheckerV::finish_yield_from_grows,
            CheckerV::expect_coroutine_grows,
        };

        exprs::effects_shrink(node);
        match *node.expr {
            Expression::Raise(e) => {
                self.infer_grows(e);
            },
            Expression::Panic(e) => {
                self.infer_grows(e);
            },
            Expression::Try(e) => {
                self.infer_grows(e);
            },
            Expression::Coalesce(l, r) => {
                self.infer_grows(l);
                let (c, t) = self.infer(l);
                match c.coalesce_payload(t, l.span, node.span) {
                    (c, Payload::Holds(p)) => {
                        c.infer_grows(r);
                    },
                    _ => {},
                }
            },
            Expression::OptionalAccess(receiver, field) => {
                self.infer_grows(receiver);
            },
            Expression::Defer(e) => {
                self.infer_grows(e);
            },
            Expression::Yield(e) => {
                if self.ctx.async_depth != 0 {
                    self.infer_grows(e);
                }
            },
            Expression::YieldFrom(e) => {
                if self.ctx.async_depth != 0 {
                    self.infer_grows(e);
                }
            },
            Expression::Resume(target, arg) => {
                self.infer_grows(target);
                let (c, t) = self.infer(target);
                let (c, y, s) = c.expect_coroutine(t, node.span, "resume target"@);
                c.infer_sent_grows(arg, s);
            },
            Expression::Done(handle) => {
                self.infer_grows(handle);
            },
            _ => {
                self.infer_value_grows(node, id);
            },
        }
        growth::starts(self.ledger());
        growth::arrives(self.ledger(), self.infer_effect(node, id).0.ledger());
    }

    pub broadcast proof fn finish_return_grows(self, outer: Option<Tree>, t: Tree, e: Output)
        ensures
            steps(self.ledger(), (#[trigger] self.finish_return(outer, t, e)).ledger()),
    {
        broadcast use {growth::chained, CheckerV::coerce_or_unify_grows};

        growth::starts(self.ledger());
        growth::arrives(self.ledger(), self.finish_return(outer, t, e).ledger());
    }

    pub broadcast proof fn infer_value_grows(self, node: Output, id: Option<NodeId>)
        ensures
            steps(self.ledger(), (#[trigger] self.infer_value(node, id)).0.ledger()),
        decreases node, 5nat,
    {
        broadcast use {
            growth::chained,
            CheckerV::unify_grows,
            CheckerV::require_ffi_grows,
            CheckerV::fresh_grows,
            CheckerV::finish_index_grows,
            CheckerV::report_repeated_grows,
            CheckerV::finish_access_grows,
            CheckerV::open_new_grows,
            CheckerV::open_construct_grows,
        };

        exprs::values_shrink(node);
        match *node.expr {
            Expression::Print(fmt, params) => {
                self.infer_grows(fmt);
                let (c, t) = self.infer(fmt);
                let c = c.unify(t, Tree::con("string"@), fmt.span, "print format"@).0;
                c.infer_print_grows(params, exprs::string_literal(fmt), node.span, "print"@);
            },
            Expression::Format(fmt, params) => {
                self.infer_grows(fmt);
                let (c, t) = self.infer(fmt);
                let c = c.unify(t, Tree::con("string"@), fmt.span, "print format"@).0;
                c.infer_print_grows(params, exprs::string_literal(fmt), node.span, "format"@);
            },
            Expression::Dload(path) => {
                self.require_ffi("dload"@, node.span).infer_grows(path);
            },
            Expression::Declare(args) => {
                self.infer_ffi_declare_grows(args@, node.span);
            },
            Expression::Invoke(args) => {
                self.infer_ffi_invoke_grows(args@, node.span);
            },
            Expression::Tuple(items) => {
                self.infer_resolved_grows(items@, 0, Seq::empty());
            },
            Expression::Array(items) => {
                self.infer_elements_grows(items@, 0, None, node.span);
            },
            Expression::Index(target, index) => {
                self.infer_grows(target);
                let (c, t) = self.infer(target);
                c.infer_grows(index);
            },
            Expression::Dict(fields) => {
                let c = self.report_repeated(fields@, node.span, 0, Set::empty());
                c.infer_record_grows(fields@, 0, Seq::empty());
            },
            Expression::List(items) => {
                self.infer_list_grows(items@);
            },
            Expression::Access(receiver, field) => {
                self.infer_grows(receiver);
            },
            Expression::Instantiate(class, args) => {
                self.infer_grows(class);
                let (c, t) = self.infer(class);
                match c.open_new(t, exprs::count(args), node.span) {
                    (c, NewV::Done(t)) => {},
                    (c, NewV::Miscounted(t)) => {},
                    (c, NewV::Fields(tys, t)) => {
                        c.infer_new_args_grows(args, tys);
                    },
                }
            },
            Expression::Construct { enum_name, variant_name, fields } => {
                match self.open_construct(
                    enum_name@,
                    variant_name@,
                    fields,
                    node.span,
                ) {
                    (c, Ok(k)) => {
                        c.infer_construct_grows(fields, k, node.span);
                    },
                    _ => {},
                }
            },
            Expression::Call { name, args } => {
                self.infer_call_grows(node, id);
            },
            _ => {
                self.infer_decl_grows(node);
            },
        }
        growth::starts(self.ledger());
        growth::arrives(self.ledger(), self.infer_value(node, id).0.ledger());
    }

    pub broadcast proof fn infer_call_grows(self, node: Output, id: Option<NodeId>)
        ensures
            steps(self.ledger(), (#[trigger] self.infer_call(node, id)).0.ledger()),
        decreases node, 4nat,
    {
        broadcast use {
            growth::chained,
            CheckerV::plan_method_grows,
            CheckerV::finish_method_grows,
            CheckerV::report_grows,
            CheckerV::fresh_grows,
        };

        exprs::values_shrink(node);
        match *node.expr {
            Expression::Call { name, args } => {
                match *name.expr {
                    Expression::Access(_, method) => {
                        self.infer_receiver_grows(name);
                        let (c, recv) = self.infer_receiver(name);
                        match c.plan_method(method@, recv, node.span) {
                            (c, PlanV::Unknown(owner)) => {},
                            (c, plan) => {
                                c.infer_args_grows(args, seq![recv]);
                            },
                        }
                    },
                    Expression::Identifier(n) => {
                        self.infer_named_call_grows(n@, args, id, node.span);
                    },
                    _ => {},
                }
            },
            _ => {},
        }
        growth::starts(self.ledger());
        growth::arrives(self.ledger(), self.infer_call(node, id).0.ledger());
    }

    pub broadcast proof fn infer_receiver_grows(self, callee: Output)
        ensures
            steps(self.ledger(), (#[trigger] self.infer_receiver(callee)).0.ledger()),
        decreases callee, 0nat,
    {
        broadcast use {growth::chained};

        exprs::parts_shrink(callee);
        match *callee.expr {
            Expression::Access(receiver, _) => {
                self.infer_grows(receiver);
            },
            _ => {},
        }
        growth::starts(self.ledger());
        growth::arrives(self.ledger(), self.infer_receiver(callee).0.ledger());
    }

    pub broadcast proof fn infer_named_call_grows(
        self,
        name: Seq<char>,
        args: Option<Vec<Output>>,
        id: Option<NodeId>,
        range: Span,
    )
        ensures
            steps(
                self.ledger(),
                (#[trigger] self.infer_named_call(name, args, id, range)).0.ledger(),
            ),
        decreases args, 1nat,
    {
        broadcast use {growth::chained, CheckerV::not_imported_grows, CheckerV::finish_call_grows};

        if name == "push"@ {
            self.infer_array_push_grows(args, range);
        } else if name == "len"@ {
            self.infer_array_len_grows(args, range);
        } else if self.prelude_fn_in_scope(name) is Some {
            self.infer_assert_grows(args, range);
        } else {
            match self.ffi_fn_in_scope(name) {
                Some(kind) => {
                    self.infer_ffi_call_grows(kind, args, range);
                },
                None => {
                    if !exprs::is_ffi_name(name) {
                        self.infer_args_grows(args, Seq::empty());
                    }
                },
            }
        }
        growth::starts(self.ledger());
        growth::arrives(self.ledger(), self.infer_named_call(name, args, id, range).0.ledger());
    }

    pub broadcast proof fn infer_args_grows(self, args: Option<Vec<Output>>, acc: Seq<Tree>)
        ensures
            steps(self.ledger(), (#[trigger] self.infer_args(args, acc)).0.ledger()),
        decreases args, 0nat,
    {
        broadcast use {growth::chained};

        exprs::arguments_shrink(args);
        match args {
            Some(a) => {
                self.infer_all_grows(a@, 0, acc);
            },
            _ => {},
        }
        growth::starts(self.ledger());
        growth::arrives(self.ledger(), self.infer_args(args, acc).0.ledger());
    }

    pub broadcast proof fn infer_array_push_grows(self, args: Option<Vec<Output>>, range: Span)
        ensures
            steps(self.ledger(), (#[trigger] self.infer_array_push(args, range)).0.ledger()),
        decreases args, 0nat,
    {
        broadcast use {growth::chained, CheckerV::wrong_arity_grows};

        exprs::arguments_shrink(args);
        match args {
            Some(a) => {
                self.infer_push_args_grows(a@, range);
            },
            _ => {},
        }
        growth::starts(self.ledger());
        growth::arrives(self.ledger(), self.infer_array_push(args, range).0.ledger());
    }

    pub broadcast proof fn infer_push_args_grows(self, items: Seq<Output>, range: Span)
        ensures
            steps(self.ledger(), (#[trigger] self.infer_push_args(items, range)).0.ledger()),
        decreases items, items.len() + 1,
    {
        broadcast use {growth::chained, CheckerV::finish_push_grows, CheckerV::wrong_arity_grows};

        if items.len() == 2 {
            self.infer_grows(items[0]);
            let (c, a) = self.infer(items[0]);
            c.infer_grows(items[1]);
        } else {
            self.infer_each_grows(items, 0);
        }
        growth::starts(self.ledger());
        growth::arrives(self.ledger(), self.infer_push_args(items, range).0.ledger());
    }

    pub broadcast proof fn infer_array_len_grows(self, args: Option<Vec<Output>>, range: Span)
        ensures
            steps(self.ledger(), (#[trigger] self.infer_array_len(args, range)).0.ledger()),
        decreases args, 0nat,
    {
        broadcast use {growth::chained, CheckerV::wrong_arity_grows};

        exprs::arguments_shrink(args);
        match args {
            Some(a) => {
                self.infer_len_args_grows(a@, range);
            },
            _ => {},
        }
        growth::starts(self.ledger());
        growth::arrives(self.ledger(), self.infer_array_len(args, range).0.ledger());
    }

    pub broadcast proof fn infer_len_args_grows(self, items: Seq<Output>, range: Span)
        ensures
            steps(self.ledger(), (#[trigger] self.infer_len_args(items, range)).0.ledger()),
        decreases items, items.len() + 1,
    {
        broadcast use {growth::chained, CheckerV::finish_len_grows, CheckerV::wrong_arity_grows};

        if items.len() == 1 {
            self.infer_grows(items[0]);
        } else {
            self.infer_each_grows(items, 0);
        }
        growth::starts(self.ledger());
        growth::arrives(self.ledger(), self.infer_len_args(items, range).0.ledger());
    }

    pub broadcast proof fn infer_assert_grows(self, args: Option<Vec<Output>>, range: Span)
        ensures
            steps(self.ledger(), (#[trigger] self.infer_assert(args, range)).0.ledger()),
        decreases args, 0nat,
    {
        broadcast use {growth::chained, CheckerV::wrong_arity_grows};

        exprs::arguments_shrink(args);
        match args {
            Some(a) => {
                self.infer_assert_args_grows(a@, range);
            },
            _ => {},
        }
        growth::starts(self.ledger());
        growth::arrives(self.ledger(), self.infer_assert(args, range).0.ledger());
    }

    pub broadcast proof fn infer_assert_args_grows(self, items: Seq<Output>, range: Span)
        ensures
            steps(self.ledger(), (#[trigger] self.infer_assert_args(items, range)).0.ledger()),
        decreases items, items.len() + 1,
    {
        broadcast use {growth::chained, CheckerV::unify_grows, CheckerV::wrong_arity_grows};

        if 1 <= items.len() <= 2 {
            self.infer_grows(items[0]);
            let (c, t) = self.infer(items[0]);
            let c = c.unify(t, Tree::con("bool"@), items[0].span, "assert condition"@).0;
            if items.len() == 2 {
                c.infer_grows(items[1]);
            }
        } else {
            self.infer_each_grows(items, 0);
        }
        growth::starts(self.ledger());
        growth::arrives(self.ledger(), self.infer_assert_args(items, range).0.ledger());
    }

    pub broadcast proof fn infer_ffi_call_grows(
        self,
        kind: FfiBuiltin,
        args: Option<Vec<Output>>,
        range: Span,
    )
        ensures
            steps(self.ledger(), (#[trigger] self.infer_ffi_call(kind, args, range)).0.ledger()),
        decreases args, 0nat,
    {
        broadcast use {
            growth::chained,
            CheckerV::require_ffi_grows,
            CheckerV::report_grows,
            CheckerV::fresh_grows,
            CheckerV::wrong_count_grows,
        };

        exprs::arguments_shrink(args);
        match (kind, args) {
            (FfiBuiltin::Dload, Some(a)) => {
                self.infer_ffi_dload_grows(a@, range);
            },
            (FfiBuiltin::Dload, None) => {},
            (FfiBuiltin::Declare, Some(a)) => {
                self.infer_ffi_declare_grows(a@, range);
            },
            (FfiBuiltin::Declare, None) => {},
            (FfiBuiltin::Invoke, Some(a)) => {
                self.infer_ffi_invoke_grows(a@, range);
            },
            _ => {},
        }
        growth::starts(self.ledger());
        growth::arrives(self.ledger(), self.infer_ffi_call(kind, args, range).0.ledger());
    }

    pub broadcast proof fn infer_ffi_dload_grows(self, items: Seq<Output>, range: Span)
        ensures
            steps(self.ledger(), (#[trigger] self.infer_ffi_dload(items, range)).0.ledger()),
        decreases items, items.len() + 1,
    {
        broadcast use {
            growth::chained,
            CheckerV::require_ffi_grows,
            CheckerV::report_grows,
            CheckerV::fresh_grows,
        };

        let c = self.require_ffi("dload"@, range);
        if items.len() > 0 {
            c.infer_grows(items[0]);
        }
        growth::starts(self.ledger());
        growth::arrives(self.ledger(), self.infer_ffi_dload(items, range).0.ledger());
    }

    pub broadcast proof fn infer_ffi_declare_grows(self, items: Seq<Output>, range: Span)
        ensures
            steps(self.ledger(), (#[trigger] self.infer_ffi_declare(items, range)).0.ledger()),
        decreases items, items.len() + 1,
    {
        broadcast use {
            growth::chained,
            CheckerV::require_ffi_grows,
            CheckerV::report_grows,
            CheckerV::wrong_count_grows,
        };

        let c = self.require_ffi("declare"@, range);
        if items.len() == 4 {
            c.infer_grows(items[0]);
            c.infer(items[0]).0.infer_grows(items[1]);
            let c = c.infer(items[0]).0.infer(items[1]).0;
            if *items[2].expr is Tuple {
                c.infer_ffi_type_expr_grows(items[2]);
            }
            let c = if *items[2].expr is Tuple {
                    c.infer_ffi_type_expr(items[2])
                } else {
                    c.say_labelled(
                        ErrorCode::DeclareArity,
                        "declare(...) third argument must be an arguments tuple (T1, T2, ...)"@,
                        "wrap the arg types in parentheses — (Int, Float) after `use ffi::types::*;`"@,
                        items[2].span,
                    )
                };
            c.infer_ffi_type_expr_grows(items[3]);
        } else {
            c.infer_each_grows(items, 0);
        }
        growth::starts(self.ledger());
        growth::arrives(self.ledger(), self.infer_ffi_declare(items, range).0.ledger());
    }

    pub broadcast proof fn infer_ffi_invoke_grows(self, items: Seq<Output>, range: Span)
        ensures
            steps(self.ledger(), (#[trigger] self.infer_ffi_invoke(items, range)).0.ledger()),
        decreases items, items.len() + 1,
    {
        broadcast use {
            growth::chained,
            CheckerV::require_ffi_grows,
            CheckerV::report_grows,
            CheckerV::wrong_count_grows,
        };

        let c = self.require_ffi("invoke"@, range);
        if items.len() == 3 {
            c.infer_grows(items[0]);
            c.infer(items[0]).0.infer_grows(items[1]);
            let c = c.infer(items[0]).0.infer(items[1]).0;
            if *items[2].expr is Tuple {
                c.infer_tuple_items_grows(items[2]);
            }
        } else {
            c.infer_each_grows(items, 0);
        }
        growth::starts(self.ledger());
        growth::arrives(self.ledger(), self.infer_ffi_invoke(items, range).0.ledger());
    }

    pub broadcast proof fn infer_tuple_items_grows(self, e: Output)
        ensures
            steps(self.ledger(), (#[trigger] self.infer_tuple_items(e)).ledger()),
        decreases e, 0nat,
    {
        broadcast use {growth::chained};

        exprs::parts_shrink(e);
        match *e.expr {
            Expression::Tuple(items) => {
                self.infer_each_grows(items@, 0);
            },
            _ => {},
        }
        growth::starts(self.ledger());
        growth::arrives(self.ledger(), self.infer_tuple_items(e).ledger());
    }

    pub broadcast proof fn infer_ffi_type_expr_grows(self, node: Output)
        ensures
            steps(self.ledger(), (#[trigger] self.infer_ffi_type_expr(node)).ledger()),
        decreases node, 11nat,
    {
        broadcast use {
            growth::chained,
            CheckerV::require_ffi_type_expr_grows,
            CheckerV::next_id_grows,
        };

        exprs::parts_shrink(node);
        let c = self.require_ffi_type_expr(node);
        match *node.expr {
            Expression::Identifier(_) => {},
            Expression::Type(_) => {},
            Expression::Tuple(items) => {
                c.fix_node(Tree::con("unit"@)).infer_ffi_types_grows(items@, 0);
            },
            Expression::Array(items) => {
                c.fix_node(Tree::con("unit"@)).infer_ffi_types_grows(items@, 0);
            },
            _ => {
                c.infer_grows(node);
            },
        }
        growth::starts(self.ledger());
        growth::arrives(self.ledger(), self.infer_ffi_type_expr(node).ledger());
    }

    pub broadcast proof fn infer_ffi_types_grows(self, items: Seq<Output>, at: nat)
        ensures
            steps(self.ledger(), (#[trigger] self.infer_ffi_types(items, at)).ledger()),
        decreases items, items.len() - at,
    {
        broadcast use {growth::chained};

        if at < items.len() {
            self.infer_ffi_type_expr_grows(items[at as int]);
            self.infer_ffi_type_expr(items[at as int]).infer_ffi_types_grows(items, at + 1);
        }
        growth::starts(self.ledger());
        growth::arrives(self.ledger(), self.infer_ffi_types(items, at).ledger());
    }

    pub broadcast proof fn infer_list_grows(self, items: Seq<Output>)
        ensures
            steps(self.ledger(), (#[trigger] self.infer_list(items)).0.ledger()),
        decreases items, items.len() + 1,
    {
        broadcast use {growth::chained, CheckerV::fresh_grows};

        if items.len() != 0 {
            self.infer_grows(items[0]);
            let (c, first) = self.infer(items[0]);
            c.infer_list_rest_grows(items, 1, first);
        }
        growth::starts(self.ledger());
        growth::arrives(self.ledger(), self.infer_list(items).0.ledger());
    }

    pub broadcast proof fn infer_list_rest_grows(self, items: Seq<Output>, at: nat, first: Tree)
        ensures
            steps(self.ledger(), (#[trigger] self.infer_list_rest(items, at, first)).ledger()),
        decreases items, items.len() - at,
    {
        broadcast use {growth::chained, CheckerV::unify_grows};

        if at < items.len() {
            self.infer_grows(items[at as int]);
            let (c, t) = self.infer(items[at as int]);
            c.unify(first, t, items[at as int].span, "list element"@).0.infer_list_rest_grows(
                items,
                at + 1,
                first,
            );
        }
        growth::starts(self.ledger());
        growth::arrives(self.ledger(), self.infer_list_rest(items, at, first).ledger());
    }

    pub broadcast proof fn infer_print_grows(
        self,
        params: Option<Vec<Output>>,
        fmt: Option<Seq<char>>,
        range: Span,
        ctx: Seq<char>,
    )
        ensures
            steps(self.ledger(), (#[trigger] self.infer_print(params, fmt, range, ctx)).ledger()),
        decreases params, 0nat,
    {
        broadcast use {growth::chained};

        exprs::arguments_shrink(params);
        match (fmt, params) {
            (Some(s), Some(p)) => {
                self.infer_format_args_grows(p@, s, 0, 0, range, ctx);
            },
            (None, Some(p)) => {
                self.infer_each_grows(p@, 0);
            },
            _ => {},
        }
        growth::starts(self.ledger());
        growth::arrives(self.ledger(), self.infer_print(params, fmt, range, ctx).ledger());
    }

    pub broadcast proof fn infer_format_args_grows(
        self,
        items: Seq<Output>,
        s: Seq<char>,
        at: nat,
        n: nat,
        range: Span,
        ctx: Seq<char>,
    )
        ensures
            steps(
                self.ledger(),
                (#[trigger] self.infer_format_args(items, s, at, n, range, ctx)).ledger(),
            ),
        decreases items, s.len() - at,
    {
        broadcast use {
            growth::chained,
            CheckerV::check_format_arg_grows,
            CheckerV::missing_argument_grows,
        };

        if at < s.len() {
            if s[at as int] != '%' {
                self.infer_format_args_grows(items, s, at + 1, n, range, ctx);
            } else {
                if at + 1 < s.len() {
                    if s[at as int + 1] == '%' {
                        self.infer_format_args_grows(items, s, at + 1, n, range, ctx);
                    } else if n < items.len() {
                        self.infer_grows(items[n as int]);
                        let (c, t) = self.infer(items[n as int]);
                        c.check_format_arg(
                            s[at as int + 1],
                            c.resolve(t),
                            items[n as int].span,
                            ctx,
                            n as usize,
                        ).infer_format_args_grows(items, s, at + 1, n + 1, range, ctx);
                    }
                }
            }
        }
        growth::starts(self.ledger());
        growth::arrives(
            self.ledger(),
            self.infer_format_args(items, s, at, n, range, ctx).ledger(),
        );
    }

    pub broadcast proof fn infer_cond_grows(self, cond: Option<Output>, what: Seq<char>)
        ensures
            steps(self.ledger(), (#[trigger] self.infer_cond(cond, what)).ledger()),
        decreases cond, 0nat,
    {
        broadcast use {growth::chained, CheckerV::unify_grows};

        match cond {
            Some(k) => {
                self.infer_grows(k);
            },
            _ => {},
        }
        growth::starts(self.ledger());
        growth::arrives(self.ledger(), self.infer_cond(cond, what).ledger());
    }

    pub broadcast proof fn infer_opt_grows(self, item: Option<Output>)
        ensures
            steps(self.ledger(), (#[trigger] self.infer_opt(item)).ledger()),
        decreases item, 0nat,
    {
        broadcast use {growth::chained};

        match item {
            Some(e) => {
                self.infer_grows(e);
            },
            _ => {},
        }
        growth::starts(self.ledger());
        growth::arrives(self.ledger(), self.infer_opt(item).ledger());
    }

    pub broadcast proof fn infer_sent_grows(self, arg: Option<Output>, send: Tree)
        ensures
            steps(self.ledger(), (#[trigger] self.infer_sent(arg, send)).ledger()),
        decreases arg, 0nat,
    {
        broadcast use {growth::chained, CheckerV::unify_grows};

        match arg {
            Some(a) => {
                self.infer_grows(a);
            },
            _ => {},
        }
        growth::starts(self.ledger());
        growth::arrives(self.ledger(), self.infer_sent(arg, send).ledger());
    }

    pub broadcast proof fn infer_each_grows(self, items: Seq<Output>, at: nat)
        ensures
            steps(self.ledger(), (#[trigger] self.infer_each(items, at)).ledger()),
        decreases items, items.len() - at,
    {
        broadcast use {growth::chained};

        if at < items.len() {
            self.infer_grows(items[at as int]);
            self.infer(items[at as int]).0.infer_each_grows(items, at + 1);
        }
        growth::starts(self.ledger());
        growth::arrives(self.ledger(), self.infer_each(items, at).ledger());
    }

    pub broadcast proof fn infer_all_grows(self, items: Seq<Output>, at: nat, acc: Seq<Tree>)
        ensures
            steps(self.ledger(), (#[trigger] self.infer_all(items, at, acc)).0.ledger()),
        decreases items, items.len() - at,
    {
        broadcast use {growth::chained};

        if at < items.len() {
            self.infer_grows(items[at as int]);
            let (c, t) = self.infer(items[at as int]);
            c.infer_all_grows(items, at + 1, acc.push(t));
        }
        growth::starts(self.ledger());
        growth::arrives(self.ledger(), self.infer_all(items, at, acc).0.ledger());
    }

    pub broadcast proof fn infer_resolved_grows(self, items: Seq<Output>, at: nat, acc: Seq<Tree>)
        ensures
            steps(self.ledger(), (#[trigger] self.infer_resolved(items, at, acc)).0.ledger()),
        decreases items, items.len() - at,
    {
        broadcast use {growth::chained};

        if at < items.len() {
            self.infer_grows(items[at as int]);
            let (c, t) = self.infer(items[at as int]);
            c.infer_resolved_grows(items, at + 1, acc.push(c.resolve(t)));
        }
        growth::starts(self.ledger());
        growth::arrives(self.ledger(), self.infer_resolved(items, at, acc).0.ledger());
    }

    pub broadcast proof fn infer_last_grows(self, items: Seq<Output>, at: nat, last: Tree)
        ensures
            steps(self.ledger(), (#[trigger] self.infer_last(items, at, last)).0.ledger()),
        decreases items, items.len() - at,
    {
        broadcast use {growth::chained};

        if at < items.len() {
            self.infer_grows(items[at as int]);
            let (c, t) = self.infer(items[at as int]);
            c.infer_last_grows(items, at + 1, t);
        }
        growth::starts(self.ledger());
        growth::arrives(self.ledger(), self.infer_last(items, at, last).0.ledger());
    }

    pub broadcast proof fn infer_elements_grows(
        self,
        items: Seq<Output>,
        at: nat,
        sofar: Option<Tree>,
        range: Span,
    )
        ensures
            steps(
                self.ledger(),
                (#[trigger] self.infer_elements(items, at, sofar, range)).0.ledger(),
            ),
        decreases items, items.len() - at,
    {
        broadcast use {growth::chained, CheckerV::finish_element_grows};

        if at < items.len() {
            self.infer_grows(items[at as int]);
            let (c, t) = self.infer(items[at as int]);
            let (c, e) = c.finish_element(sofar, t, range);
            c.infer_elements_grows(items, at + 1, Some(e), range);
        }
        growth::starts(self.ledger());
        growth::arrives(self.ledger(), self.infer_elements(items, at, sofar, range).0.ledger());
    }

    pub broadcast proof fn infer_values_grows(self, fields: Seq<FieldInit>, at: nat)
        ensures
            steps(self.ledger(), (#[trigger] self.infer_values(fields, at)).ledger()),
        decreases fields, fields.len() - at,
    {
        broadcast use {growth::chained};

        if at < fields.len() {
            self.infer_grows(fields[at as int].value);
            self.infer(fields[at as int].value).0.infer_values_grows(fields, at + 1);
        }
        growth::starts(self.ledger());
        growth::arrives(self.ledger(), self.infer_values(fields, at).ledger());
    }

    pub broadcast proof fn infer_record_grows(
        self,
        fields: Seq<FieldInit>,
        at: nat,
        acc: Seq<(Seq<char>, Tree)>,
    )
        ensures
            steps(self.ledger(), (#[trigger] self.infer_record(fields, at, acc)).0.ledger()),
        decreases fields, fields.len() - at,
    {
        broadcast use {growth::chained};

        if at < fields.len() {
            self.infer_grows(fields[at as int].value);
            let (c, t) = self.infer(fields[at as int].value);
            c.infer_record_grows(fields, at + 1, acc.push((fields[at as int].name@, c.resolve(t))));
        }
        growth::starts(self.ledger());
        growth::arrives(self.ledger(), self.infer_record(fields, at, acc).0.ledger());
    }

    pub broadcast proof fn infer_new_args_grows(self, args: Option<Vec<Output>>, tys: Seq<Tree>)
        ensures
            steps(self.ledger(), (#[trigger] self.infer_new_args(args, tys)).ledger()),
        decreases args, 0nat,
    {
        broadcast use {growth::chained};

        exprs::arguments_shrink(args);
        match args {
            Some(a) => {
                self.infer_fields_grows(a@, tys, 0);
            },
            _ => {},
        }
        growth::starts(self.ledger());
        growth::arrives(self.ledger(), self.infer_new_args(args, tys).ledger());
    }

    pub broadcast proof fn infer_fields_grows(self, items: Seq<Output>, tys: Seq<Tree>, at: nat)
        ensures
            steps(self.ledger(), (#[trigger] self.infer_fields(items, tys, at)).ledger()),
        decreases items, items.len() - at,
    {
        broadcast use {growth::chained, CheckerV::unify_grows};

        if at < items.len() && at < tys.len() {
            self.infer_grows(items[at as int]);
            let (c, t) = self.infer(items[at as int]);
            c.unify(
                t,
                tys[at as int],
                items[at as int].span,
                "constructor argument"@,
            ).0.infer_fields_grows(items, tys, at + 1);
        }
        growth::starts(self.ledger());
        growth::arrives(self.ledger(), self.infer_fields(items, tys, at).ledger());
    }

    pub broadcast proof fn infer_tuple_payload_grows(
        self,
        items: Seq<Output>,
        tys: Seq<Tree>,
        at: nat,
        what: Seq<char>,
    )
        ensures
            steps(
                self.ledger(),
                (#[trigger] self.infer_tuple_payload(items, tys, at, what)).ledger(),
            ),
        decreases items, items.len() - at,
    {
        broadcast use {growth::chained, CheckerV::unify_grows};

        if at < items.len() && at < tys.len() {
            self.infer_grows(items[at as int]);
            let (c, t) = self.infer(items[at as int]);
            c.unify(tys[at as int], t, items[at as int].span, what).0.infer_tuple_payload_grows(
                items,
                tys,
                at + 1,
                what,
            );
        }
        growth::starts(self.ledger());
        growth::arrives(self.ledger(), self.infer_tuple_payload(items, tys, at, what).ledger());
    }

    pub broadcast proof fn infer_construct_grows(
        self,
        fields: EnumConstructPayload,
        k: ConstructV,
        range: Span,
    )
        ensures
            steps(self.ledger(), (#[trigger] self.infer_construct(fields, k, range)).0.ledger()),
        decreases fields, 0nat,
    {
        broadcast use {growth::chained};

        construct_parts_shrink(fields);
        match fields {
            EnumConstructPayload::Tuple(args) => {
                self.infer_tuple_payload_grows(args@, k.payload.kids(), 0, k.argument());
            },
            EnumConstructPayload::Record(parts) => {
                self.infer_record_payload_grows(parts@, k, range);
            },
            _ => {},
        }
        growth::starts(self.ledger());
        growth::arrives(self.ledger(), self.infer_construct(fields, k, range).0.ledger());
    }

    pub broadcast proof fn infer_record_payload_grows(
        self,
        parts: Seq<FieldInit>,
        k: ConstructV,
        range: Span,
    )
        ensures
            steps(
                self.ledger(),
                (#[trigger] self.infer_record_payload(parts, k, range)).0.ledger(),
            ),
        decreases parts, k.payload.kids().len() + 1,
    {
        broadcast use {
            growth::chained,
            CheckerV::repeated_part_grows,
            CheckerV::missing_part_grows,
            CheckerV::unknown_part_grows,
        };

        match construct::first_repeat(parts, 0, Set::empty()) {
            None => {
                self.infer_parts_grows(parts, k, 0);
            },
            _ => {},
        }
        growth::starts(self.ledger());
        growth::arrives(self.ledger(), self.infer_record_payload(parts, k, range).0.ledger());
    }

    pub broadcast proof fn infer_parts_grows(self, parts: Seq<FieldInit>, k: ConstructV, at: nat)
        ensures
            steps(self.ledger(), (#[trigger] self.infer_parts(parts, k, at)).0.ledger()),
        decreases parts, k.payload.kids().len() - at,
    {
        broadcast use {growth::chained, CheckerV::unify_grows};

        let names = k.payload.head()->RecordPayload_0;
        if at < names.len() && at < k.payload.kids().len() {
            let name = names[at as int];
            construct::part_place_in(parts, name, 0);
            match construct::part_place(parts, name, 0) {
                Some(i) => {
                    let value = parts[i as int].value;
                    self.infer_grows(parts[i as int].value);
                    let (c, t) = self.infer(parts[i as int].value);
                    c.unify(
                        k.payload.kids()[at as int],
                        t,
                        value.span,
                        k.named_argument(name),
                    ).0.infer_parts_grows(parts, k, at + 1);
                },
                _ => {},
            }
        }
        growth::starts(self.ledger());
        growth::arrives(self.ledger(), self.infer_parts(parts, k, at).0.ledger());
    }

    pub broadcast proof fn infer_branch_grows(self, branch: Output)
        ensures
            steps(self.ledger(), (#[trigger] self.infer_branch(branch)).0.ledger()),
        decreases branch, 2nat,
    {
        broadcast use {growth::chained};

        exprs::parts_shrink(branch);
        match *branch.expr {
            Expression::Branch(cond, body) => {
                self.infer_cond_grows(cond, "if condition"@);
                self.infer_cond(cond, "if condition"@).infer_grows(body);
            },
            _ => {},
        }
        growth::starts(self.ledger());
        growth::arrives(self.ledger(), self.infer_branch(branch).0.ledger());
    }

    pub broadcast proof fn infer_branches_grows(
        self,
        items: Seq<Output>,
        at: nat,
        sofar: Option<Tree>,
    )
        ensures
            steps(self.ledger(), (#[trigger] self.infer_branches(items, at, sofar)).0.ledger()),
        decreases items, items.len() - at,
    {
        broadcast use {growth::chained, CheckerV::unify_grows};

        if at < items.len() {
            self.infer_branch_grows(items[at as int]);
            match (self.infer_branch(items[at as int]), sofar) {
                ((c, None), _) => {
                    c.infer_branches_grows(items, at + 1, sofar);
                },
                ((c, Some((t, _))), None) => {
                    c.infer_branches_grows(items, at + 1, Some(t));
                },
                ((c, Some((t, place))), Some(r)) => {
                    c.unify(
                        r,
                        t,
                        place,
                        "if branch"@,
                    ).0.infer_branches_grows(items, at + 1, sofar);
                },
            }
        }
        growth::starts(self.ledger());
        growth::arrives(self.ledger(), self.infer_branches(items, at, sofar).0.ledger());
    }

    pub broadcast proof fn infer_arms_grows(
        self,
        arms: Seq<MatchArm>,
        at: nat,
        scrutinee: Tree,
        sofar: Option<Tree>,
        covered: Seq<ArmCoverage>,
    )
        ensures
            steps(
                self.ledger(),
                (#[trigger] self.infer_arms(arms, at, scrutinee, sofar, covered)).0.ledger(),
            ),
        decreases arms, arms.len() - at,
    {
        broadcast use {
            growth::chained,
            growth::within,
            CheckerV::push_scope_opens,
            CheckerV::infer_pattern_grows,
            CheckerV::unify_grows,
        };

        if at < arms.len() {
            let arm = arms[at as int];
            let place = arm.body.span;
            let (c, p) = self.push_scope().infer_pattern(arm.pattern, scrutinee, place);
            let c = c.unify(scrutinee, p, place, "match pattern against scrutinee"@).0;
            let coverage = c.arm_coverage(arm.pattern, place);
            c.infer_grows(arms[at as int].body);
            let (c, t) = c.infer(arms[at as int].body);
            let (c, r) = match sofar {
                None => (c, t),
                Some(r) => (c.unify(r, t, place, "match arm body"@).0, r),
            };
            c.pop_scope().infer_arms_grows(
                arms,
                at + 1,
                scrutinee,
                Some(r),
                covered.push(coverage),
            );
        }
        growth::starts(self.ledger());
        growth::arrives(
            self.ledger(),
            self.infer_arms(arms, at, scrutinee, sofar, covered).0.ledger(),
        );
    }

    pub broadcast proof fn infer_fragment_grows(self, items: Seq<Output>, at: nat, last: Tree)
        ensures
            steps(self.ledger(), (#[trigger] self.infer_fragment(items, at, last)).0.ledger()),
        decreases items, items.len() - at,
    {
        broadcast use {
            growth::chained,
            CheckerV::open_let_grows,
            CheckerV::annotated_grows,
            CheckerV::bind_grows,
        };

        let unit_t = Tree::con("unit"@);
        if at < items.len() {
            let child = items[at as int];
            let has_value = at + 1 < items.len() && !ast::declares(items[at as int + 1]);
            match *child.expr {
                Expression::Variable(name, ann) => {
                    let (c, var_ty) = self.open_let(name@, ann);
                    if !has_value {
                        c.infer_fragment_grows(items, at + 1, unit_t);
                    } else {
                        c.infer_let_grows(
                            name@,
                            ann is Some,
                            var_ty,
                            items[at as int + 1],
                            child.span,
                        );
                        let (c, t) = c.infer_let(
                            name@,
                            ann is Some,
                            var_ty,
                            items[at as int + 1],
                            child.span,
                        );
                        c.infer_fragment_grows(items, at + 2, t);
                    }
                },
                Expression::Constant(name, ann) => {
                    let (c, var_ty) = self.annotated(ann);
                    match ops::bare_name(name) {
                        None => {
                            c.infer_fragment_grows(items, at + 1, unit_t);
                        },
                        Some(n) => {
                            let c = c.open_const(n, var_ty);
                            if !has_value {
                                c.infer_fragment_grows(items, at + 1, unit_t);
                            } else {
                                c.infer_const_grows(
                                    n,
                                    ann is Some,
                                    var_ty,
                                    items[at as int + 1],
                                    child.span,
                                );
                                c.infer_const(
                                    n,
                                    ann is Some,
                                    var_ty,
                                    items[at as int + 1],
                                    child.span,
                                ).infer_fragment_grows(items, at + 2, unit_t);
                            }
                        },
                    }
                },
                _ => {
                    self.infer_grows(items[at as int]);
                    let (c, t) = self.infer(items[at as int]);
                    c.infer_fragment_grows(items, at + 1, t);
                },
            }
        }
        growth::starts(self.ledger());
        growth::arrives(self.ledger(), self.infer_fragment(items, at, last).0.ledger());
    }

    pub broadcast proof fn open_let_grows(self, name: Seq<char>, ann: Option<Output>)
        ensures
            steps(self.ledger(), (#[trigger] self.open_let(name, ann)).0.ledger()),
    {
        broadcast use {growth::chained, CheckerV::annotated_grows, CheckerV::bind_grows};

        growth::starts(self.ledger());
        growth::arrives(self.ledger(), self.open_let(name, ann).0.ledger());
    }

    pub broadcast proof fn infer_wanted_grows(self, node: Output, want: Option<Tree>)
        ensures
            steps(self.ledger(), (#[trigger] self.infer_wanted(node, want)).0.ledger()),
        decreases node, 11nat,
    {
        broadcast use {growth::chained};

        self.with_expected(want).infer_grows(node);
        growth::starts(self.ledger());
        growth::arrives(self.ledger(), self.infer_wanted(node, want).0.ledger());
    }

    pub broadcast proof fn infer_let_grows(
        self,
        name: Seq<char>,
        annotated: bool,
        var_ty: Tree,
        next: Output,
        range: Span,
    )
        ensures
            steps(
                self.ledger(),
                (#[trigger] self.infer_let(name, annotated, var_ty, next, range)).0.ledger(),
            ),
        decreases next, 12nat,
    {
        broadcast use {growth::chained, CheckerV::bind_grows, CheckerV::initialize_grows};

        let c = self.note_yield(next);
        match c.generic_source(next) {
            Some(s) => {
                c.infer_grows(next);
            },
            None => {
                c.infer_wanted_grows(next, if annotated { Some(var_ty) } else { None });
            },
        }
        growth::starts(self.ledger());
        growth::arrives(
            self.ledger(),
            self.infer_let(name, annotated, var_ty, next, range).0.ledger(),
        );
    }

    pub broadcast proof fn infer_const_grows(
        self,
        name: Seq<char>,
        annotated: bool,
        var_ty: Tree,
        next: Output,
        range: Span,
    )
        ensures
            steps(
                self.ledger(),
                (#[trigger] self.infer_const(name, annotated, var_ty, next, range)).ledger(),
            ),
        decreases next, 12nat,
    {
        broadcast use {growth::chained, CheckerV::initialize_grows};

        self.infer_wanted_grows(next, if annotated { Some(var_ty) } else { None });
        growth::starts(self.ledger());
        growth::arrives(
            self.ledger(),
            self.infer_const(name, annotated, var_ty, next, range).ledger(),
        );
    }

    pub broadcast proof fn infer_decl_grows(self, node: Output)
        ensures
            steps(self.ledger(), (#[trigger] self.infer_decl(node)).0.ledger()),
        decreases node, 3nat,
    {
        broadcast use {
            growth::chained,
            growth::within,
            CheckerV::open_impl_opens,
            CheckerV::close_impl_closes,
            CheckerV::declare_class_grows,
            CheckerV::register_generic_type_ctor_grows,
            CheckerV::declare_alias_grows,
            CheckerV::report_grows,
            CheckerV::open_class_grows,
            CheckerV::close_class_grows,
            CheckerV::parse_heads_grows,
            CheckerV::open_instance_grows,
            CheckerV::close_instance_grows,
        };

        exprs::members_shrink(node);
        match *node.expr {
            Expression::Function { .. } => {
                self.infer_function_grows(node, true, node.span, None);
            },
            Expression::Implementation { owner, type_params, methods } => {
                let (c, t, vars) = self.open_impl(owner@, type_params@);
                c.infer_methods_grows(methods@, 0, owner@, t, vars);
            },
            Expression::EnumDecl { name, type_params, variants } => {
                let c = self.register_generic_type_ctor(name@, type_params@).0;
                c.infer_enum_decl_grows(name@, variants@);
            },
            Expression::TypeAlias { name, type_params, ty } => {
                let c = self.declare_alias(name@, type_params@, ty, node.span);
                c.infer_grows(ty);
            },
            Expression::ForeignStruct(decl) => {
                if self.c_struct_id(decl.name@) is None {
                    self.infer_c_fields_grows(decl.fields@, 0, Seq::empty());
                }
            },
            Expression::EnumVariant { payload, .. } => {
                self.infer_payload_grows(payload);
            },
            Expression::TypeClass { name, type_params, methods } => {
                match self.open_class(
                    name@,
                    type_params@,
                    methods@,
                    node.span,
                ) {
                    (c, Some(f)) => {
                        c.infer_each_grows(methods@, 0);
                    },
                    (c, None) => {
                        c.infer_each_grows(methods@, 0);
                    },
                }
            },
            Expression::TypeClassImpl { class, args, methods } => {
                let (c, tys) = self.parse_heads(args@, 0, Seq::empty());
                c.infer_heads_grows(args@, tys, 0);
                let c = c.infer_heads(args@, tys, 0);
                let (c, f) = c.open_instance(class@, args@, tys, methods@, node.span);
                c.infer_members_grows(methods@, 0, class@, f);
            },
            _ => {},
        }
        growth::starts(self.ledger());
        growth::arrives(self.ledger(), self.infer_decl(node).0.ledger());
    }

    pub broadcast proof fn infer_function_grows(
        self,
        f: Output,
        generic: bool,
        range: Span,
        self_ty: Option<Tree>,
    )
        ensures
            steps(
                self.ledger(),
                (#[trigger] self.infer_function(f, generic, range, self_ty)).0.ledger(),
            ),
        decreases f, 2nat,
    {
        broadcast use {
            growth::chained,
            growth::within,
            CheckerV::open_function_opens,
            CheckerV::close_function_closes,
        };

        exprs::parts_shrink(f);
        match *f.expr {
            Expression::Function {
                name,
                is_coro,
                type_params,
                args,
                returns: declared_ret,
                where_constraints,
                body,
            } => {
                let (c, frame) = self.open_function(
                    name@,
                    if generic {
                        type_params@
                    } else {
                        Seq::empty()
                    },
                    args,
                    declared_ret,
                    where_constraints@,
                    range,
                    self_ty,
                    is_coro,
                );
                c.infer_grows(body);
            },
            _ => {},
        }
        growth::starts(self.ledger());
        growth::arrives(self.ledger(), self.infer_function(f, generic, range, self_ty).0.ledger());
    }

    pub broadcast proof fn infer_method_grows(
        self,
        m: Output,
        owner: Seq<char>,
        t: Tree,
        vars: Seq<TyVarId>,
    )
        ensures
            steps(self.ledger(), (#[trigger] self.infer_method(m, owner, t, vars)).ledger()),
        decreases m, 3nat,
    {
        broadcast use {growth::chained, CheckerV::report_grows};

        exprs::parts_shrink(m);
        match *m.expr {
            Expression::Method(vis, body) => {
                match *body.expr {
                    Expression::Function { name, .. } => {
                        self.infer_function_grows(body, false, m.span, Some(t));
                    },
                    _ => {},
                }
            },
            _ => {},
        }
        growth::starts(self.ledger());
        growth::arrives(self.ledger(), self.infer_method(m, owner, t, vars).ledger());
    }

    pub broadcast proof fn infer_methods_grows(
        self,
        items: Seq<Output>,
        at: nat,
        owner: Seq<char>,
        t: Tree,
        vars: Seq<TyVarId>,
    )
        ensures
            steps(
                self.ledger(),
                (#[trigger] self.infer_methods(items, at, owner, t, vars)).ledger(),
            ),
        decreases items, items.len() - at,
    {
        broadcast use {growth::chained};

        if at < items.len() {
            self.infer_method_grows(items[at as int], owner, t, vars);
            self.infer_method(items[at as int], owner, t, vars).infer_methods_grows(
                items,
                at + 1,
                owner,
                t,
                vars,
            );
        }
        growth::starts(self.ledger());
        growth::arrives(self.ledger(), self.infer_methods(items, at, owner, t, vars).ledger());
    }

    pub broadcast proof fn infer_enum_decl_grows(self, name: Seq<char>, items: Seq<Output>)
        ensures
            steps(self.ledger(), (#[trigger] self.infer_enum_decl(name, items)).ledger()),
        decreases items, items.len() + 1,
    {
        broadcast use {growth::chained, CheckerV::bind_enum_grows};

        self.infer_each_grows(items, 0);
        growth::starts(self.ledger());
        growth::arrives(self.ledger(), self.infer_enum_decl(name, items).ledger());
    }

    pub broadcast proof fn infer_c_fields_grows(
        self,
        fields: Seq<FieldInit>,
        at: nat,
        acc: Seq<(Seq<char>, u32)>,
    )
        ensures
            steps(self.ledger(), (#[trigger] self.infer_c_fields(fields, at, acc)).0.ledger()),
        decreases fields, fields.len() - at,
    {
        broadcast use {growth::chained, CheckerV::c_field_grows};

        if at < fields.len() {
            let (c, f) = self.c_field(fields[at as int].name@, fields[at as int].value);
            c.infer_grows(fields[at as int].value);
            c.infer(fields[at as int].value).0.infer_c_fields_grows(fields, at + 1, acc.push(f));
        }
        growth::starts(self.ledger());
        growth::arrives(self.ledger(), self.infer_c_fields(fields, at, acc).0.ledger());
    }

    pub broadcast proof fn infer_payload_grows(self, payload: EnumVariantPayload)
        ensures
            steps(self.ledger(), (#[trigger] self.infer_payload(payload)).ledger()),
        decreases payload, 0nat,
    {
        broadcast use {growth::chained};

        exprs::payload_parts_shrink(payload);
        match payload {
            EnumVariantPayload::Tuple(parts) => {
                self.infer_each_grows(parts@, 0);
            },
            EnumVariantPayload::Record(fields) => {
                self.infer_values_grows(fields@, 0);
            },
            _ => {},
        }
        growth::starts(self.ledger());
        growth::arrives(self.ledger(), self.infer_payload(payload).ledger());
    }

    pub broadcast proof fn cache_forced_ty_grows(self, e: Output, t: Tree)
        ensures
            steps(self.ledger(), (#[trigger] self.cache_forced_ty(e, t)).ledger()),
        decreases e, 3nat,
    {
        broadcast use {growth::chained, CheckerV::next_id_grows};

        exprs::parts_shrink(e);
        let c = self.fix_node(t);
        match *e.expr {
            Expression::TypeApp { args, .. } => {
                c.infer_each_grows(args@, 0);
            },
            _ => {},
        }
        growth::starts(self.ledger());
        growth::arrives(self.ledger(), self.cache_forced_ty(e, t).ledger());
    }

    pub broadcast proof fn infer_heads_grows(self, items: Seq<Output>, tys: Seq<Tree>, at: nat)
        ensures
            steps(self.ledger(), (#[trigger] self.infer_heads(items, tys, at)).ledger()),
        decreases items, items.len() - at,
    {
        broadcast use {growth::chained};

        if at < items.len() && at < tys.len() {
            self.cache_forced_ty_grows(items[at as int], tys[at as int]);
            self.cache_forced_ty(
                items[at as int],
                tys[at as int],
            ).infer_heads_grows(items, tys, at + 1);
        }
        growth::starts(self.ledger());
        growth::arrives(self.ledger(), self.infer_heads(items, tys, at).ledger());
    }

    pub broadcast proof fn infer_member_grows(self, m: Output, class: Seq<char>, f: InstFrameV)
        ensures
            steps(self.ledger(), (#[trigger] self.infer_member(m, class, f)).0.ledger()),
        decreases m, 11nat,
    {
        broadcast use {growth::chained, CheckerV::open_assoc_grows, CheckerV::close_assoc_grows};

        exprs::parts_shrink(m);
        match *m.expr {
            Expression::AssocTypeDef { name, type_params, ty } => {
                let (c, a) = self.open_assoc(type_params@, ty);
                c.cache_forced_ty_grows(ty, a.ty);
            },
            Expression::Function { name, .. } => {
                self.infer_function_grows(m, true, m.span, None);
            },
            Expression::Method(_, body) => {
                match *body.expr {
                    Expression::Function { name, .. } => {
                        self.infer_function_grows(body, true, m.span, None);
                    },
                    _ => {
                        self.infer_grows(m);
                    },
                }
            },
            _ => {
                self.infer_grows(m);
            },
        }
        growth::starts(self.ledger());
        growth::arrives(self.ledger(), self.infer_member(m, class, f).0.ledger());
    }

    pub broadcast proof fn infer_members_grows(
        self,
        items: Seq<Output>,
        at: nat,
        class: Seq<char>,
        f: InstFrameV,
    )
        ensures
            steps(self.ledger(), (#[trigger] self.infer_members(items, at, class, f)).0.ledger()),
        decreases items, items.len() - at,
    {
        broadcast use {growth::chained};

        if at < items.len() {
            self.infer_member_grows(items[at as int], class, f);
            let (c, f) = self.infer_member(items[at as int], class, f);
            c.infer_members_grows(items, at + 1, class, f);
        }
        growth::starts(self.ledger());
        growth::arrives(self.ledger(), self.infer_members(items, at, class, f).0.ledger());
    }
}

} // verus!
