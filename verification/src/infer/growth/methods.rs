//! The steps of [`methods`](crate::infer::methods) only add.
use crate::ast::Output;
use crate::env::SchemeV;
use crate::id::NodeId;
use crate::infer::CheckerV;
use crate::infer::growth::{self, steps};
use crate::infer::methods::{OpenSchemeV, PlanV};
use crate::report::Span;
use crate::tree::Tree;
use vstd::prelude::*;

verus! {

impl CheckerV {
    pub broadcast proof fn settle_grows(
        self,
        class: Seq<char>,
        scheme: SchemeV,
        open: OpenSchemeV,
        id: Option<NodeId>,
        range: Span,
    )
        ensures
            steps(self.ledger(), (#[trigger] self.settle(class, scheme, open, id, range)).ledger()),
    {
        broadcast use {
            growth::chained,
            CheckerV::discharge_constraints_grows,
            CheckerV::pin_assoc_after_discharge_grows,
        };

        growth::starts(self.ledger());
        growth::arrives(self.ledger(), self.settle(class, scheme, open, id, range).ledger());
    }

    pub broadcast proof fn plan_plain_grows(self, method: Seq<char>, recv: Tree)
        ensures
            steps(self.ledger(), (#[trigger] self.plan_plain(method, recv)).0.ledger()),
    {
        broadcast use {
            growth::chained,
            CheckerV::instantiate_scheme_mapped_grows,
            CheckerV::ground_trait_method_for_receiver_grows,
        };

        growth::starts(self.ledger());
        growth::arrives(self.ledger(), self.plan_plain(method, recv).0.ledger());
    }

    pub broadcast proof fn plan_method_grows(self, method: Seq<char>, recv: Tree, range: Span)
        ensures
            steps(self.ledger(), (#[trigger] self.plan_method(method, recv, range)).0.ledger()),
    {
        broadcast use {
            growth::chained,
            CheckerV::select_bound_method_grows,
            CheckerV::bind_matching_abstract_constraints_grows,
            CheckerV::instantiate_scheme_mapped_grows,
            CheckerV::plan_plain_grows,
        };

        growth::starts(self.ledger());
        growth::arrives(self.ledger(), self.plan_method(method, recv, range).0.ledger());
    }

    pub broadcast proof fn finish_method_grows(
        self,
        plan: PlanV,
        method: Seq<char>,
        args: Seq<Tree>,
        exprs: Option<Seq<Output>>,
        id: Option<NodeId>,
        range: Span,
    )
        ensures
            steps(
                self.ledger(),
                (#[trigger] self.finish_method(plan, method, args, exprs, id, range)).0.ledger(),
            ),
    {
        broadcast use {
            growth::chained,
            CheckerV::apply_existential_method_grows,
            CheckerV::apply_function_grows,
            CheckerV::settle_grows,
            CheckerV::unify_grows,
            CheckerV::report_grows,
            CheckerV::fresh_grows,
        };

        growth::starts(self.ledger());
        growth::arrives(
            self.ledger(),
            self.finish_method(plan, method, args, exprs, id, range).0.ledger(),
        );
    }

    pub broadcast proof fn call_value_grows(
        self,
        name: Seq<char>,
        args: Seq<Tree>,
        exprs: Option<Seq<Output>>,
        id: Option<NodeId>,
        range: Span,
    )
        ensures
            steps(
                self.ledger(),
                (#[trigger] self.call_value(name, args, exprs, id, range)).0.ledger(),
            ),
    {
        broadcast use {
            growth::chained,
            CheckerV::instantiate_scheme_mapped_grows,
            CheckerV::apply_function_grows,
            CheckerV::settle_grows,
            CheckerV::report_grows,
            CheckerV::fresh_grows,
        };

        growth::starts(self.ledger());
        growth::arrives(self.ledger(), self.call_value(name, args, exprs, id, range).0.ledger());
    }

    pub broadcast proof fn finish_call_grows(
        self,
        name: Seq<char>,
        args: Seq<Tree>,
        exprs: Option<Seq<Output>>,
        id: Option<NodeId>,
        range: Span,
    )
        ensures
            steps(
                self.ledger(),
                (#[trigger] self.finish_call(name, args, exprs, id, range)).0.ledger(),
            ),
    {
        broadcast use {
            growth::chained,
            CheckerV::apply_existential_method_grows,
            CheckerV::select_bound_method_grows,
            CheckerV::bind_matching_abstract_constraints_grows,
            CheckerV::instantiate_scheme_mapped_grows,
            CheckerV::apply_function_grows,
            CheckerV::settle_grows,
            CheckerV::call_value_grows,
        };

        growth::starts(self.ledger());
        growth::arrives(self.ledger(), self.finish_call(name, args, exprs, id, range).0.ledger());
    }
}

} // verus!
