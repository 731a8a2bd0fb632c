//! The steps of [`calls`](crate::infer::calls) only add.
use crate::ast::Output;
use crate::env::{self, SchemeV};
use crate::generics;
use crate::id::NodeId;
use crate::infer::CheckerV;
use crate::infer::annotations;
use crate::infer::calls::{self, ByteLiteral};
use crate::infer::growth::{self, steps};
use crate::infer::instances;
use crate::report::{ErrorCode, Span};
use crate::subst;
use crate::tree::{Head, Tree, TyVarId};
use vstd::prelude::*;

verus! {

impl CheckerV {
    pub broadcast proof fn instantiate_forall_ty_grows(self, t: Tree)
        ensures
            steps(self.ledger(), (#[trigger] self.instantiate_forall_ty(t)).0.ledger()),
    {
        if let Tree::Node(Head::Forall(bounds), _) = t {
            growth::counts_up(self.counter, bounds.len());
        }
        reveal(steps);
    }

    pub broadcast proof fn skolemize_forall_ty_grows(self, t: Tree)
        ensures
            steps(self.ledger(), (#[trigger] self.skolemize_forall_ty(t)).0.ledger()),
    {
        if let Tree::Node(Head::Forall(bounds), _) = t {
            growth::counts_up(self.counter, bounds.len());
        }
        reveal(steps);
    }

    pub broadcast proof fn peel_foralls_grows(self, t: Tree, acc: Seq<Tree>)
        ensures
            steps(self.ledger(), (#[trigger] self.peel_foralls(t, acc)).0.ledger()),
        decreases calls::lead(t),
    {
        broadcast use {growth::chained, CheckerV::instantiate_forall_ty_grows};

        match t {
            Tree::Node(Head::Forall(bounds), kids) => {
                if kids.len() > 0 {
                    let (c, body, constraints) = self.instantiate_forall_ty(t);
                    calls::fresh_map_renames(bounds, self.counter);
                    calls::lead_renamed(kids.last(), env::fresh_map(bounds, self.counter));
                    c.peel_foralls_grows(body, acc + constraints);
                }
            },
            _ => {},
        }
        growth::starts(self.ledger());
        growth::arrives(self.ledger(), self.peel_foralls(t, acc).0.ledger());
    }

    pub broadcast proof fn rank_n_candidate_grows(self, inferred: Tree, arg: Option<Output>)
        ensures
            steps(self.ledger(), (#[trigger] self.rank_n_candidate(inferred, arg)).0.ledger()),
    {
        broadcast use {growth::chained, CheckerV::instantiate_scheme_mapped_grows};

        growth::starts(self.ledger());
        growth::arrives(self.ledger(), self.rank_n_candidate(inferred, arg).0.ledger());
    }

    pub broadcast proof fn check_rank_n_constraints_grows(
        self,
        local: Map<TyVarId,
        Tree>,
        granted: Seq<Tree>,
        constraints: Seq<Tree>,
        range: Span,
        at: nat,
    )
        ensures
            steps(
                self.ledger(),
                (
                    #[trigger] self.check_rank_n_constraints(local, granted, constraints, range, at)
                ).ledger(),
            ),
        decreases constraints.len() - at,
    {
        broadcast use {growth::chained, CheckerV::report_grows};

        if at < constraints.len() {
            let k = constraints[at as int];
            let class = annotations::class_of(k);
            let args = subst::subst_all(k.kids(), local);
            let c = if calls::all_rigid(args) {
                if granted.contains(Tree::pred(class, args)) {
                    self
                } else {
                    self.say(
                        ErrorCode::GenericTypeError,
                        "Cannot pass constrained polymorphic value where unconstrained `forall` is expected"@,
                        range,
                    )
                }
            } else if instances::any_open(args) {
                if self.constraint_is_covered(Tree::pred(class, args)) {
                    self
                } else {
                    self.say(
                        ErrorCode::GenericTypeError,
                        "Cannot satisfy constraint `"@ + class + "`"@,
                        range,
                    )
                }
            } else if generics::exact_instance(
                self.reg.generics.instances,
                class,
                self.instance_lookup_args(class, args),
            ) is None {
                self.say(
                    ErrorCode::GenericTypeError,
                    "No instance for `"@ + class + "<"@ + Tree::join_text(args) + ">`"@,
                    range,
                )
            } else {
                self
            };
            c.check_rank_n_constraints_grows(local, granted, constraints, range, at + 1);
        }
        growth::starts(self.ledger());
        growth::arrives(
            self.ledger(),
            self.check_rank_n_constraints(local, granted, constraints, range, at).ledger(),
        );
    }

    pub broadcast proof fn check_rank_n_argument_grows(
        self,
        expected: Tree,
        inferred: Tree,
        arg: Option<Output>,
        range: Span,
    )
        ensures
            steps(
                self.ledger(),
                (#[trigger] self.check_rank_n_argument(expected, inferred, arg, range)).ledger(),
            ),
    {
        broadcast use {
            growth::chained,
            CheckerV::skolemize_forall_ty_grows,
            CheckerV::rank_n_candidate_grows,
            CheckerV::check_rank_n_constraints_grows,
            CheckerV::report_grows,
        };

        growth::starts(self.ledger());
        growth::arrives(
            self.ledger(),
            self.check_rank_n_argument(expected, inferred, arg, range).ledger(),
        );
    }

    pub broadcast proof fn byte_out_of_range_grows(self, n: i64, range: Span)
        ensures
            steps(self.ledger(), (#[trigger] self.byte_out_of_range(n, range)).0.ledger()),
    {
        broadcast use {growth::chained, CheckerV::report_grows, CheckerV::fresh_grows};

        growth::starts(self.ledger());
        growth::arrives(self.ledger(), self.byte_out_of_range(n, range).0.ledger());
    }

    pub broadcast proof fn check_byte_items_grows(self, items: Seq<Output>, at: nat)
        ensures
            steps(self.ledger(), (#[trigger] self.check_byte_items(items, at)).0.ledger()),
        decreases items.len() - at,
    {
        broadcast use {growth::chained, CheckerV::byte_out_of_range_grows};

        if at < items.len() {
            match calls::byte_literal(items[at as int]) {
                ByteLiteral::Fits => {
                    self.check_byte_items_grows(items, at + 1);
                },
                ByteLiteral::OutOfRange(n) => {
                    let (c, _) = self.byte_out_of_range(n, items[at as int].span);
                    c.check_byte_items_grows(items, at + 1);
                },
                _ => {},
            }
        }
        growth::starts(self.ledger());
        growth::arrives(self.ledger(), self.check_byte_items(items, at).0.ledger());
    }

    pub broadcast proof fn pack_grows(
        self,
        class: Seq<char>,
        expected: Tree,
        actual: Tree,
        expr: Option<Output>,
        range: Span,
    )
        ensures
            steps(
                self.ledger(),
                (#[trigger] self.pack(class, expected, actual, expr, range)).0.ledger(),
            ),
    {
        broadcast use {
            growth::chained,
            CheckerV::report_grows,
            CheckerV::fresh_grows,
            CheckerV::find_unique_instance_grows,
        };

        growth::starts(self.ledger());
        growth::arrives(self.ledger(), self.pack(class, expected, actual, expr, range).0.ledger());
    }

    pub broadcast proof fn pack_or_unify_grows(
        self,
        expected: Tree,
        actual: Tree,
        expr: Option<Output>,
        range: Span,
        what: Seq<char>,
    )
        ensures
            steps(
                self.ledger(),
                (#[trigger] self.pack_or_unify(expected, actual, expr, range, what)).0.ledger(),
            ),
    {
        broadcast use {growth::chained, CheckerV::pack_grows, CheckerV::unify_grows};

        growth::starts(self.ledger());
        growth::arrives(
            self.ledger(),
            self.pack_or_unify(expected, actual, expr, range, what).0.ledger(),
        );
    }

    pub broadcast proof fn coerce_or_unify_grows(
        self,
        expected: Tree,
        actual: Tree,
        expr: Option<Output>,
        range: Span,
        what: Seq<char>,
    )
        ensures
            steps(
                self.ledger(),
                (#[trigger] self.coerce_or_unify(expected, actual, expr, range, what)).0.ledger(),
            ),
    {
        broadcast use {
            growth::chained,
            CheckerV::byte_out_of_range_grows,
            CheckerV::check_byte_items_grows,
            CheckerV::pack_or_unify_grows,
        };

        growth::starts(self.ledger());
        growth::arrives(
            self.ledger(),
            self.coerce_or_unify(expected, actual, expr, range, what).0.ledger(),
        );
    }

    pub broadcast proof fn too_many_arguments_grows(
        self,
        name: Option<Seq<char>>,
        t: Tree,
        at: nat,
        range: Span,
    )
        ensures
            steps(
                self.ledger(),
                (#[trigger] self.too_many_arguments(name, t, at, range)).0.ledger(),
            ),
    {
        broadcast use {growth::chained, CheckerV::report_grows, CheckerV::fresh_grows};

        growth::starts(self.ledger());
        growth::arrives(self.ledger(), self.too_many_arguments(name, t, at, range).0.ledger());
    }

    pub broadcast proof fn apply_function_grows(
        self,
        name: Option<Seq<char>>,
        fun_ty: Tree,
        args: Seq<Tree>,
        exprs: Option<Seq<Output>>,
        call: Option<NodeId>,
        range: Span,
        at: nat,
    )
        ensures
            steps(
                self.ledger(),
                (
                    #[trigger] self.apply_function(name, fun_ty, args, exprs, call, range, at)
                ).0.ledger(),
            ),
        decreases args.len() - at,
    {
        broadcast use {
            growth::chained,
            CheckerV::peel_foralls_grows,
            CheckerV::fresh_grows,
            CheckerV::unify_grows,
            CheckerV::check_rank_n_argument_grows,
            CheckerV::coerce_or_unify_grows,
            CheckerV::discharge_constraints_grows,
            CheckerV::too_many_arguments_grows,
        };

        if at < args.len() {
            let arg = args[at as int];
            let expr = calls::nth_expr(exprs, at as int);
            let (c, t, pending) = self.peel_foralls(self.resolve(fun_ty), Seq::empty());
            match t {
                Tree::Var(v) => {
                    let (c, ret) = c.fresh();
                    let c = c.unify(Tree::Var(v), Tree::fun(arg, ret), range, "function type"@).0;
                    c.apply_function_grows(name, ret, args, exprs, call, range, at + 1);
                },
                Tree::Node(Head::Fun, kids) => {
                    let param = kids[0];
                    let c = if param is Node && param.head() is Forall {
                        c.check_rank_n_argument(param, arg, expr, range)
                    } else {
                        c.coerce_or_unify(param, arg, expr, range, "function argument"@).0
                    };
                    c.discharge_constraints(call, pending, range, 0).apply_function_grows(
                        name,
                        kids[1],
                        args,
                        exprs,
                        call,
                        range,
                        at + 1,
                    );
                },
                _ => {},
            }
        }
        growth::starts(self.ledger());
        growth::arrives(
            self.ledger(),
            self.apply_function(name, fun_ty, args, exprs, call, range, at).0.ledger(),
        );
    }

    pub broadcast proof fn apply_existential_method_grows(
        self,
        class: Seq<char>,
        method: Seq<char>,
        scheme: SchemeV,
        args: Seq<Tree>,
        exprs: Option<Seq<Output>>,
        call: Option<NodeId>,
        range: Span,
    )
        ensures
            steps(
                self.ledger(),
                (
                    #[trigger] self.apply_existential_method(
                        class,
                        method,
                        scheme,
                        args,
                        exprs,
                        call,
                        range,
                    )
                ).0.ledger(),
            ),
    {
        broadcast use {
            growth::chained,
            CheckerV::instantiate_scheme_mapped_grows,
            CheckerV::apply_function_grows,
            CheckerV::discharge_constraints_grows,
        };

        growth::starts(self.ledger());
        growth::arrives(
            self.ledger(),
            self.apply_existential_method(
                class,
                method,
                scheme,
                args,
                exprs,
                call,
                range,
            ).0.ledger(),
        );
    }
}

} // verus!
