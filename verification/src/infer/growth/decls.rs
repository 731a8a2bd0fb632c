//! The steps of [`decls`](crate::infer::decls) only add.
use crate::ast::{Expression, Output, TypeParam, WhereConstraint};
use crate::env::SchemeV;
use crate::infer::{CheckerV, ClassFieldV};
use crate::infer::annotations;
use crate::infer::decls::FnFrameV;
use crate::infer::growth::{self, steps};
use crate::infer::instances;
use crate::infer::ops;
use crate::report::{ErrorCode, Span};
use crate::tree::Tree;
use vstd::prelude::*;

verus! {

impl CheckerV {
    pub broadcast proof fn register_generic_type_ctor_grows(
        self,
        name: Seq<char>,
        params: Seq<TypeParam>,
    )
        ensures
            steps(
                self.ledger(),
                (#[trigger] self.register_generic_type_ctor(name, params)).0.ledger(),
            ),
    {
        broadcast use {growth::chained};

        growth::starts(self.ledger());
        growth::arrives(self.ledger(), self.register_generic_type_ctor(name, params).0.ledger());
    }

    pub broadcast proof fn restore_generic_type_ctor_grows(
        self,
        name: Seq<char>,
        previous: Option<Seq<Seq<char>>>,
    )
        ensures
            steps(
                self.ledger(),
                (#[trigger] self.restore_generic_type_ctor(name, previous)).ledger(),
            ),
    {
        broadcast use {growth::chained};

        growth::starts(self.ledger());
        growth::arrives(self.ledger(), self.restore_generic_type_ctor(name, previous).ledger());
    }

    pub broadcast proof fn push_type_params_grows(self, params: Seq<TypeParam>)
        ensures
            steps(self.ledger(), (#[trigger] self.push_type_params(params)).ledger()),
    {
        growth::counts_up(self.counter, params.len());
        reveal(steps);
    }

    pub broadcast proof fn pop_type_params_grows(self, pushed: bool)
        ensures
            steps(self.ledger(), (#[trigger] self.pop_type_params(pushed)).ledger()),
    {
        broadcast use {growth::chained};

        growth::starts(self.ledger());
        growth::arrives(self.ledger(), self.pop_type_params(pushed).ledger());
    }

    pub broadcast proof fn parse_class_fields_grows(
        self,
        fields: Seq<Output>,
        at: nat,
        acc: Seq<ClassFieldV>,
    )
        ensures
            steps(self.ledger(), (#[trigger] self.parse_class_fields(fields, at, acc)).0.ledger()),
        decreases fields.len() - at,
    {
        broadcast use {growth::chained, CheckerV::parse_type_name_grows, CheckerV::report_grows};

        if at < fields.len() {
            let field = fields[at as int];
            match *field.expr {
                Expression::Field(vis, fname, fty) => {
                    match ops::bare_name(fname) {
                        Some(name) => {
                            let (c, t) = self.parse_type_name(fty);
                            c.parse_class_fields_grows(
                                fields,
                                at + 1,
                                acc.push(ClassFieldV { vis, name, ty: t }),
                            );
                        },
                        None => {
                            self.say(
                                ErrorCode::GenericTypeError,
                                "Invalid field name"@,
                                field.span,
                            ).parse_class_fields_grows(fields, at + 1, acc);
                        },
                    }
                },
                _ => {
                    self.say(
                        ErrorCode::GenericTypeError,
                        "Expected a field declaration"@,
                        field.span,
                    ).parse_class_fields_grows(fields, at + 1, acc);
                },
            }
        }
        growth::starts(self.ledger());
        growth::arrives(self.ledger(), self.parse_class_fields(fields, at, acc).0.ledger());
    }

    pub broadcast proof fn register_class_grows(self, name: Seq<char>, fields: Seq<Output>)
        ensures
            steps(self.ledger(), (#[trigger] self.register_class(name, fields)).ledger()),
    {
        broadcast use {growth::chained, CheckerV::parse_class_fields_grows, CheckerV::bind_grows};

        growth::starts(self.ledger());
        growth::arrives(self.ledger(), self.register_class(name, fields).ledger());
    }

    pub broadcast proof fn parse_args_grows(
        self,
        items: Seq<Output>,
        at: nat,
        acc: Seq<(Seq<char>, Tree)>,
    )
        ensures
            steps(self.ledger(), (#[trigger] self.parse_args(items, at, acc)).0.ledger()),
        decreases items.len() - at,
    {
        broadcast use {growth::chained, CheckerV::parse_type_name_grows};

        if at < items.len() {
            match *items[at as int].expr {
                Expression::Argument(ty, name) => {
                    let (c, t) = self.parse_type_name(ty);
                    c.parse_args_grows(items, at + 1, acc.push((name@, t)));
                },
                _ => {
                    self.parse_args_grows(items, at + 1, acc);
                },
            }
        }
        growth::starts(self.ledger());
        growth::arrives(self.ledger(), self.parse_args(items, at, acc).0.ledger());
    }

    pub broadcast proof fn parse_arg_list_grows(self, args: Output)
        ensures
            steps(self.ledger(), (#[trigger] self.parse_arg_list(args)).0.ledger()),
    {
        broadcast use {growth::chained, CheckerV::parse_args_grows};

        growth::starts(self.ledger());
        growth::arrives(self.ledger(), self.parse_arg_list(args).0.ledger());
    }

    pub broadcast proof fn parse_wheres_grows(
        self,
        clauses: Seq<WhereConstraint>,
        at: nat,
        acc: Seq<Tree>,
    )
        ensures
            steps(self.ledger(), (#[trigger] self.parse_wheres(clauses, at, acc)).0.ledger()),
        decreases clauses.len() - at,
    {
        broadcast use {growth::chained, CheckerV::parse_type_names_grows};

        if at < clauses.len() {
            let w = clauses[at as int];
            let (c, args) = self.parse_type_names(w.args@, 0, Seq::empty());
            c.parse_wheres_grows(clauses, at + 1, acc.push(Tree::pred(w.class@, args)));
        }
        growth::starts(self.ledger());
        growth::arrives(self.ledger(), self.parse_wheres(clauses, at, acc).0.ledger());
    }

    pub broadcast proof fn open_return_grows(self, declared_ret: Option<Output>, is_coro: bool)
        ensures
            steps(self.ledger(), (#[trigger] self.open_return(declared_ret, is_coro)).0.ledger()),
    {
        broadcast use {
            growth::chained,
            CheckerV::fresh_grows,
            CheckerV::parse_type_name_grows,
            CheckerV::unify_grows,
        };

        growth::starts(self.ledger());
        growth::arrives(self.ledger(), self.open_return(declared_ret, is_coro).0.ledger());
    }

    pub broadcast proof fn bind_args_grows(self, args: Seq<(Seq<char>, Tree)>, at: nat)
        ensures
            steps(self.ledger(), (#[trigger] self.bind_args(args, at)).ledger()),
        decreases args.len() - at,
    {
        broadcast use {growth::chained, CheckerV::bind_grows};

        if at < args.len() {
            let (name, t) = args[at as int];
            self.bind(name, SchemeV::mono(t)).note_var(name, t).bind_args_grows(args, at + 1);
        }
        growth::starts(self.ledger());
        growth::arrives(self.ledger(), self.bind_args(args, at).ledger());
    }

    pub broadcast proof fn open_signature_grows(
        self,
        collect: bool,
        args: Output,
        declared_ret: Option<Output>,
        is_coro: bool,
    )
        ensures
            steps(
                self.ledger(),
                (#[trigger] self.open_signature(collect, args, declared_ret, is_coro)).0.ledger(),
            ),
    {
        broadcast use {
            growth::chained,
            CheckerV::parse_arg_list_grows,
            CheckerV::open_return_grows,
        };

        growth::starts(self.ledger());
        growth::arrives(
            self.ledger(),
            self.open_signature(collect, args, declared_ret, is_coro).0.ledger(),
        );
    }

    pub broadcast proof fn open_function_opens(
        self,
        name: Seq<char>,
        params: Seq<TypeParam>,
        args: Output,
        declared_ret: Option<Output>,
        clauses: Seq<WhereConstraint>,
        range: Span,
        self_ty: Option<Tree>,
        is_coro: bool,
    )
        ensures
            steps(
                self.ledger(),
                (
                    #[trigger] self.open_function(
                        name,
                        params,
                        args,
                        declared_ret,
                        clauses,
                        range,
                        self_ty,
                        is_coro,
                    )
                ).0.ledger().closed(),
            ),
    {
        broadcast use {
            growth::chained,
            growth::within,
            CheckerV::fresh_params_grows,
            CheckerV::constraints_from_params_grows,
            CheckerV::parse_wheres_grows,
            CheckerV::open_signature_grows,
            CheckerV::fresh_grows,
            CheckerV::bind_grows,
            CheckerV::push_scope_opens,
            CheckerV::bind_args_grows,
        };

        growth::starts(self.ledger());
        growth::arrives(
            self.ledger(),
            self.open_function(
                name,
                params,
                args,
                declared_ret,
                clauses,
                range,
                self_ty,
                is_coro,
            ).0.ledger().closed(),
        );
    }

    pub broadcast proof fn close_type_grows(
        self,
        f: FnFrameV,
        name: Seq<char>,
        range: Span,
        self_ty: Option<Tree>,
        is_coro: bool,
    )
        ensures
            steps(
                self.ledger(),
                (#[trigger] self.close_type(f, name, range, self_ty, is_coro)).0.ledger(),
            ),
    {
        broadcast use {growth::chained, CheckerV::unify_grows};

        growth::starts(self.ledger());
        growth::arrives(
            self.ledger(),
            self.close_type(f, name, range, self_ty, is_coro).0.ledger(),
        );
    }

    pub broadcast proof fn settle_constraints_grows(
        self,
        constraints: Seq<Tree>,
        chosen: Map<Seq<char>,
        Seq<char>>,
        range: Span,
        at: nat,
        acc: Seq<Tree>,
    )
        ensures
            steps(
                self.ledger(),
                (
                    #[trigger] self.settle_constraints(constraints, chosen, range, at, acc)
                ).0.ledger(),
            ),
        decreases constraints.len() - at,
    {
        broadcast use {growth::chained, CheckerV::report_grows};

        if at < constraints.len() {
            let k = constraints[at as int];
            let class = annotations::class_of(k);
            if self.constraint_param_kind(class) is None {
                self.settle_constraints_grows(constraints, chosen, range, at + 1, acc.push(k));
            } else if chosen.contains_key(class) {
                self.settle_constraints_grows(
                    constraints,
                    chosen,
                    range,
                    at + 1,
                    acc.push(Tree::pred(chosen[class], k.kids())),
                );
            } else {
                self.say(
                    ErrorCode::GenericTypeError,
                    "Cannot satisfy abstract constraint `"@ + instances::signature(class, k.kids())
                        + "`; no concrete trait was selected"@,
                    range,
                ).settle_constraints_grows(constraints, chosen, range, at + 1, acc);
            }
        }
        growth::starts(self.ledger());
        growth::arrives(
            self.ledger(),
            self.settle_constraints(constraints, chosen, range, at, acc).0.ledger(),
        );
    }

    pub broadcast proof fn deactivate_grows(self, active_len: usize)
        ensures
            steps(self.ledger(), (#[trigger] self.deactivate(active_len)).ledger()),
    {
        broadcast use {growth::chained};

        growth::starts(self.ledger());
        growth::arrives(self.ledger(), self.deactivate(active_len).ledger());
    }

    pub broadcast proof fn bind_generic_grows(
        self,
        f: FnFrameV,
        name: Seq<char>,
        constraints: Seq<Tree>,
        t: Tree,
    )
        ensures
            steps(self.ledger(), (#[trigger] self.bind_generic(f, name, constraints, t)).ledger()),
    {
        broadcast use {growth::chained, CheckerV::bind_grows};

        growth::starts(self.ledger());
        growth::arrives(self.ledger(), self.bind_generic(f, name, constraints, t).ledger());
    }

    pub broadcast proof fn close_function_closes(
        self,
        f: FnFrameV,
        name: Seq<char>,
        range: Span,
        self_ty: Option<Tree>,
        is_coro: bool,
    )
        ensures
            steps(
                self.ledger().closed(),
                (#[trigger] self.close_function(f, name, range, self_ty, is_coro)).0.ledger(),
            ),
    {
        broadcast use {
            growth::chained,
            growth::within,
            CheckerV::close_type_grows,
            CheckerV::unify_grows,
            CheckerV::settle_constraints_grows,
            CheckerV::deactivate_grows,
            CheckerV::bind_generic_grows,
        };

        growth::starts(self.ledger().closed());
        growth::arrives(
            self.ledger().closed(),
            self.close_function(f, name, range, self_ty, is_coro).0.ledger(),
        );
    }
}

} // verus!
