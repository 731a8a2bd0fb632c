//! The steps of [`annotations`](crate::infer::annotations) only add.
use crate::ast::{Expression, Output, TypeParam};
use crate::generics::AssocDeclV;
use crate::infer::{AliasV, CheckerV};
use crate::infer::annotations;
use crate::infer::growth::{self, steps};
use crate::report::{ErrorCode, Span};
use crate::text;
use crate::tree::{Tree, TyVarId};
use vstd::prelude::*;

verus! {

impl CheckerV {
    pub broadcast proof fn duplicate_alias_grows(self, name: Seq<char>, range: Span)
        ensures
            steps(self.ledger(), (#[trigger] self.duplicate_alias(name, range)).ledger()),
    {
        broadcast use {growth::chained, CheckerV::report_grows};

        growth::starts(self.ledger());
        growth::arrives(self.ledger(), self.duplicate_alias(name, range).ledger());
    }

    pub broadcast proof fn register_type_alias_grows(self, name: Seq<char>, t: Tree, range: Span)
        ensures
            steps(self.ledger(), (#[trigger] self.register_type_alias(name, t, range)).ledger()),
    {
        broadcast use {growth::chained, CheckerV::duplicate_alias_grows};

        growth::starts(self.ledger());
        growth::arrives(self.ledger(), self.register_type_alias(name, t, range).ledger());
    }

    pub broadcast proof fn register_generic_alias_grows(
        self,
        name: Seq<char>,
        def: AliasV,
        range: Span,
    )
        ensures
            steps(
                self.ledger(),
                (#[trigger] self.register_generic_alias(name, def, range)).ledger(),
            ),
    {
        broadcast use {growth::chained, CheckerV::duplicate_alias_grows};

        growth::starts(self.ledger());
        growth::arrives(self.ledger(), self.register_generic_alias(name, def, range).ledger());
    }

    pub broadcast proof fn check_assoc_kinds_grows(
        self,
        class: Seq<char>,
        decl: AssocDeclV,
        args: Seq<Tree>,
        range: Span,
        at: nat,
    )
        ensures
            steps(
                self.ledger(),
                (#[trigger] self.check_assoc_kinds(class, decl, args, range, at)).ledger(),
            ),
        decreases args.len() - at,
    {
        broadcast use {growth::chained, CheckerV::report_grows};

        if at < args.len() && at < decl.param_kinds.len() {
            let actual = self.kind_of_type_argument(args[at as int]);
            let want = decl.param_kinds[at as int];
            let c = if actual != want {
                self.say(
                    ErrorCode::GenericTypeError,
                    "Type argument "@ + text::decimal(at + 1) + " to associated type `"@ + class
                        + "::"@ + decl.name + "` has kind `"@ + actual.text_spec()
                        + "`, expected `"@ + want.text_spec() + "`"@,
                    range,
                )
            } else {
                self
            };
            c.check_assoc_kinds_grows(class, decl, args, range, at + 1);
        }
        growth::starts(self.ledger());
        growth::arrives(
            self.ledger(),
            self.check_assoc_kinds(class, decl, args, range, at).ledger(),
        );
    }

    pub broadcast proof fn validate_assoc_projection_args_grows(
        self,
        class: Seq<char>,
        decl: AssocDeclV,
        args: Seq<Tree>,
        range: Span,
    )
        ensures
            steps(
                self.ledger(),
                (#[trigger] self.validate_assoc_projection_args(class, decl, args, range)).ledger(),
            ),
    {
        broadcast use {growth::chained, CheckerV::report_grows, CheckerV::check_assoc_kinds_grows};

        growth::starts(self.ledger());
        growth::arrives(
            self.ledger(),
            self.validate_assoc_projection_args(class, decl, args, range).ledger(),
        );
    }

    pub broadcast proof fn project_current_grows(
        self,
        owner: Seq<char>,
        name: Seq<char>,
        args: Seq<Tree>,
        range: Span,
    )
        ensures
            steps(
                self.ledger(),
                (#[trigger] self.project_current(owner, name, args, range)).0.ledger(),
            ),
    {
        broadcast use {
            growth::chained,
            CheckerV::validate_assoc_projection_args_grows,
            CheckerV::fresh_grows,
            CheckerV::report_grows,
        };

        growth::starts(self.ledger());
        growth::arrives(self.ledger(), self.project_current(owner, name, args, range).0.ledger());
    }

    pub broadcast proof fn project_param_grows(
        self,
        owner: Seq<char>,
        owner_var: TyVarId,
        name: Seq<char>,
        args: Seq<Tree>,
        range: Span,
    )
        ensures
            steps(
                self.ledger(),
                (#[trigger] self.project_param(owner, owner_var, name, args, range)).0.ledger(),
            ),
    {
        broadcast use {
            growth::chained,
            CheckerV::validate_assoc_projection_args_grows,
            CheckerV::fresh_grows,
            CheckerV::report_grows,
        };

        growth::starts(self.ledger());
        growth::arrives(
            self.ledger(),
            self.project_param(owner, owner_var, name, args, range).0.ledger(),
        );
    }

    pub broadcast proof fn project_class_grows(
        self,
        owner: Seq<char>,
        name: Seq<char>,
        args: Seq<Tree>,
        range: Span,
    )
        ensures
            steps(
                self.ledger(),
                (#[trigger] self.project_class(owner, name, args, range)).0.ledger(),
            ),
    {
        broadcast use {
            growth::chained,
            CheckerV::validate_assoc_projection_args_grows,
            CheckerV::fresh_grows,
            CheckerV::report_grows,
        };

        growth::starts(self.ledger());
        growth::arrives(self.ledger(), self.project_class(owner, name, args, range).0.ledger());
    }

    pub broadcast proof fn resolve_type_projection_grows(
        self,
        owner: Seq<char>,
        name: Seq<char>,
        args: Seq<Tree>,
        range: Span,
    )
        ensures
            steps(
                self.ledger(),
                (#[trigger] self.resolve_type_projection(owner, name, args, range)).0.ledger(),
            ),
    {
        broadcast use {
            growth::chained,
            CheckerV::project_current_grows,
            CheckerV::project_param_grows,
            CheckerV::project_class_grows,
            CheckerV::report_grows,
            CheckerV::fresh_grows,
        };

        growth::starts(self.ledger());
        growth::arrives(
            self.ledger(),
            self.resolve_type_projection(owner, name, args, range).0.ledger(),
        );
    }

    pub broadcast proof fn declared_type_grows(self, name: Seq<char>, range: Span)
        ensures
            steps(self.ledger(), (#[trigger] self.declared_type(name, range)).0.ledger()),
    {
        broadcast use {growth::chained, CheckerV::report_grows};

        growth::starts(self.ledger());
        growth::arrives(self.ledger(), self.declared_type(name, range).0.ledger());
    }

    pub broadcast proof fn parse_type_name_str_grows(self, name: Seq<char>, range: Span)
        ensures
            steps(self.ledger(), (#[trigger] self.parse_type_name_str(name, range)).0.ledger()),
    {
        broadcast use {growth::chained, CheckerV::fresh_grows, CheckerV::declared_type_grows};

        growth::starts(self.ledger());
        growth::arrives(self.ledger(), self.parse_type_name_str(name, range).0.ledger());
    }

    pub broadcast proof fn fresh_params_grows(
        self,
        params: Seq<TypeParam>,
        at: nat,
        frame: Map<Seq<char>,
        TyVarId>,
        vars: Seq<TyVarId>,
    )
        ensures
            steps(
                self.ledger(),
                (#[trigger] self.fresh_params(params, at, frame, vars)).0.ledger(),
            ),
        decreases params.len() - at,
    {
        broadcast use {growth::chained, CheckerV::fresh_grows};

        if at < params.len() {
            let tp = params[at as int];
            let (c, v) = self.fresh_var();
            c.set_var_kind(v, c.resolve_type_param_kind(tp)).fresh_params_grows(
                params,
                at + 1,
                frame.insert(tp.name@, v),
                vars.push(v),
            );
        }
        growth::starts(self.ledger());
        growth::arrives(self.ledger(), self.fresh_params(params, at, frame, vars).0.ledger());
    }

    pub broadcast proof fn constraints_from_bounds_grows(
        self,
        bounds: Seq<Seq<char>>,
        arg: Tree,
        range: Span,
        at: nat,
        acc: Seq<Tree>,
    )
        ensures
            steps(
                self.ledger(),
                (#[trigger] self.constraints_from_bounds(bounds, arg, range, at, acc)).0.ledger(),
            ),
        decreases bounds.len() - at,
    {
        broadcast use {growth::chained, CheckerV::constraint_from_bound_grows};

        if at < bounds.len() {
            let (c, found) = self.constraint_from_bound(bounds[at as int], arg, range);
            c.constraints_from_bounds_grows(
                bounds,
                arg,
                range,
                at + 1,
                match found { Some(t) => acc.push(t), None => acc, },
            );
        }
        growth::starts(self.ledger());
        growth::arrives(
            self.ledger(),
            self.constraints_from_bounds(bounds, arg, range, at, acc).0.ledger(),
        );
    }

    pub broadcast proof fn constraints_from_params_grows(
        self,
        params: Seq<TypeParam>,
        vars: Seq<TyVarId>,
        range: Span,
        at: nat,
        acc: Seq<Tree>,
    )
        ensures
            steps(
                self.ledger(),
                (#[trigger] self.constraints_from_params(params, vars, range, at, acc)).0.ledger(),
            ),
        decreases params.len() - at,
    {
        broadcast use {growth::chained, CheckerV::constraints_from_bounds_grows};

        if at < params.len() && at < vars.len() {
            let (c, acc) = self.constraints_from_bounds(
                params[at as int].bounds.deep_view(),
                Tree::Var(vars[at as int]),
                range,
                0,
                acc,
            );
            c.constraints_from_params_grows(params, vars, range, at + 1, acc);
        }
        growth::starts(self.ledger());
        growth::arrives(
            self.ledger(),
            self.constraints_from_params(params, vars, range, at, acc).0.ledger(),
        );
    }

    pub broadcast proof fn open_forall_grows(self, params: Seq<TypeParam>)
        ensures
            steps(self.ledger(), (#[trigger] self.open_forall(params)).0.ledger()),
    {
        broadcast use {
            growth::chained,
            CheckerV::fresh_params_grows,
            CheckerV::constraints_from_params_grows,
        };

        growth::starts(self.ledger());
        growth::arrives(self.ledger(), self.open_forall(params).0.ledger());
    }

    pub broadcast proof fn parse_type_name_grows(self, ann: Output)
        ensures
            steps(self.ledger(), (#[trigger] self.parse_type_name(ann)).0.ledger()),
        decreases ann, 0nat,
    {
        broadcast use {
            growth::chained,
            CheckerV::parse_bare_name_grows,
            CheckerV::resolve_type_projection_grows,
            CheckerV::open_forall_grows,
            CheckerV::parse_type_name_str_grows,
            CheckerV::fresh_grows,
        };

        match *ann.expr {
            Expression::TypeApp { name, args } => {
                self.parse_type_app_grows(name@, args@, ann.span);
            },
            Expression::TypeProjection { owner, name, args } => {
                self.parse_type_names_grows(args@, 0, Seq::empty());
            },
            Expression::TypeFun(arg, ret) => {
                self.parse_type_name_grows(arg);
                let (c, t) = self.parse_type_name(arg);
                c.parse_type_name_grows(ret);
            },
            Expression::Forall { params, ty } => {
                let (c, vars, constraints) = self.open_forall(params@);
                c.parse_type_name_grows(ty);
            },
            Expression::Array(items) => {
                match annotations::annotated_length(items@) {
                    Some(n) => {
                        if items@.len() == 2 {
                            self.parse_type_name_grows(items@[0]);
                        }
                    },
                    None => {
                        if items@.len() > 0 {
                            self.parse_type_name_grows(items@[0]);
                        }
                    },
                }
            },
            Expression::Tuple(items) => {
                self.parse_type_names_grows(items@, 0, Seq::empty());
            },
            _ => {},
        }
        growth::starts(self.ledger());
        growth::arrives(self.ledger(), self.parse_type_name(ann).0.ledger());
    }

    pub broadcast proof fn parse_type_names_grows(self, items: Seq<Output>, at: nat, acc: Seq<Tree>)
        ensures
            steps(self.ledger(), (#[trigger] self.parse_type_names(items, at, acc)).0.ledger()),
        decreases items, items.len() - at,
    {
        broadcast use {growth::chained};

        if at < items.len() {
            self.parse_type_name_grows(items[at as int]);
            let (c, t) = self.parse_type_name(items[at as int]);
            c.parse_type_names_grows(items, at + 1, acc.push(t));
        }
        growth::starts(self.ledger());
        growth::arrives(self.ledger(), self.parse_type_names(items, at, acc).0.ledger());
    }

    pub broadcast proof fn parse_type_app_grows(
        self,
        name: Seq<char>,
        args: Seq<Output>,
        range: Span,
    )
        ensures
            steps(self.ledger(), (#[trigger] self.parse_type_app(name, args, range)).0.ledger()),
        decreases args, args.len() + 1,
    {
        broadcast use {growth::chained, CheckerV::apply_type_ctor_grows};

        self.parse_type_names_grows(args, 0, Seq::empty());
        growth::starts(self.ledger());
        growth::arrives(self.ledger(), self.parse_type_app(name, args, range).0.ledger());
    }

    pub broadcast proof fn parse_bare_name_grows(self, name: Seq<char>, range: Span)
        ensures
            steps(self.ledger(), (#[trigger] self.parse_bare_name(name, range)).0.ledger()),
    {
        broadcast use {
            growth::chained,
            CheckerV::resolve_type_projection_grows,
            CheckerV::parse_type_name_str_grows,
        };

        growth::starts(self.ledger());
        growth::arrives(self.ledger(), self.parse_bare_name(name, range).0.ledger());
    }

    pub broadcast proof fn expect_type_args_grows(
        self,
        name: Seq<char>,
        want: nat,
        got: nat,
        range: Span,
    )
        ensures
            steps(
                self.ledger(),
                (#[trigger] self.expect_type_args(name, want, got, range)).ledger(),
            ),
    {
        broadcast use {growth::chained, CheckerV::report_grows};

        growth::starts(self.ledger());
        growth::arrives(self.ledger(), self.expect_type_args(name, want, got, range).ledger());
    }

    pub broadcast proof fn apply_type_ctor_grows(
        self,
        name: Seq<char>,
        args: Seq<Tree>,
        range: Span,
    )
        ensures
            steps(self.ledger(), (#[trigger] self.apply_type_ctor(name, args, range)).0.ledger()),
    {
        broadcast use {
            growth::chained,
            CheckerV::resolve_type_projection_grows,
            CheckerV::check_type_app_kind_grows,
            CheckerV::expect_type_args_grows,
            CheckerV::report_grows,
        };

        growth::starts(self.ledger());
        growth::arrives(self.ledger(), self.apply_type_ctor(name, args, range).0.ledger());
    }

    pub broadcast proof fn parse_instance_head_grows(self, arg: Output)
        ensures
            steps(self.ledger(), (#[trigger] self.parse_instance_head(arg)).0.ledger()),
    {
        broadcast use {
            growth::chained,
            CheckerV::head_from_name_grows,
            CheckerV::parse_type_app_grows,
            CheckerV::parse_type_name_grows,
        };

        growth::starts(self.ledger());
        growth::arrives(self.ledger(), self.parse_instance_head(arg).0.ledger());
    }

    pub broadcast proof fn head_from_name_grows(self, name: Seq<char>, range: Span)
        ensures
            steps(self.ledger(), (#[trigger] self.head_from_name(name, range)).0.ledger()),
    {
        broadcast use {growth::chained, CheckerV::parse_type_name_str_grows};

        growth::starts(self.ledger());
        growth::arrives(self.ledger(), self.head_from_name(name, range).0.ledger());
    }
}

} // verus!
