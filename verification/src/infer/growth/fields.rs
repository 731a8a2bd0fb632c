//! The steps of [`fields`](crate::infer::fields) only add.
use crate::infer::CheckerV;
use crate::infer::growth::{self, steps};
use crate::report::Span;
use crate::tree::Tree;
use vstd::prelude::*;

verus! {

impl CheckerV {
    pub broadcast proof fn no_such_field_grows(
        self,
        enum_name: Seq<char>,
        variants: Seq<(Seq<char>, Tree)>,
        field: Seq<char>,
        range: Span,
    )
        ensures
            steps(
                self.ledger(),
                (#[trigger] self.no_such_field(enum_name, variants, field, range)).0.ledger(),
            ),
    {
        broadcast use {growth::chained, CheckerV::report_grows, CheckerV::fresh_grows};

        growth::starts(self.ledger());
        growth::arrives(
            self.ledger(),
            self.no_such_field(enum_name, variants, field, range).0.ledger(),
        );
    }

    pub broadcast proof fn access_field_in_variant_grows(
        self,
        enum_name: Seq<char>,
        variants: Seq<(Seq<char>, Tree)>,
        tag: u32,
        field: Seq<char>,
        range: Span,
    )
        ensures
            steps(
                self.ledger(),
                (
                    #[trigger] self.access_field_in_variant(enum_name, variants, tag, field, range)
                ).0.ledger(),
            ),
    {
        broadcast use {
            growth::chained,
            CheckerV::report_grows,
            CheckerV::fresh_grows,
            CheckerV::no_such_field_grows,
        };

        growth::starts(self.ledger());
        growth::arrives(
            self.ledger(),
            self.access_field_in_variant(enum_name, variants, tag, field, range).0.ledger(),
        );
    }

    pub broadcast proof fn access_field_in_sum_grows(
        self,
        enum_name: Seq<char>,
        variants: Seq<(Seq<char>, Tree)>,
        tag: Option<u32>,
        field: Seq<char>,
        range: Span,
    )
        ensures
            steps(
                self.ledger(),
                (
                    #[trigger] self.access_field_in_sum(enum_name, variants, tag, field, range)
                ).0.ledger(),
            ),
    {
        broadcast use {
            growth::chained,
            CheckerV::access_field_in_variant_grows,
            CheckerV::no_such_field_grows,
            CheckerV::report_grows,
            CheckerV::fresh_grows,
        };

        growth::starts(self.ledger());
        growth::arrives(
            self.ledger(),
            self.access_field_in_sum(enum_name, variants, tag, field, range).0.ledger(),
        );
    }

    pub broadcast proof fn access_class_field_grows(
        self,
        class: Seq<char>,
        field: Seq<char>,
        args: Seq<Tree>,
        range: Span,
    )
        ensures
            steps(
                self.ledger(),
                (#[trigger] self.access_class_field(class, field, args, range)).0.ledger(),
            ),
    {
        broadcast use {
            growth::chained,
            CheckerV::report_grows,
            CheckerV::fresh_grows,
            CheckerV::fresh_args_grows,
        };

        growth::starts(self.ledger());
        growth::arrives(
            self.ledger(),
            self.access_class_field(class, field, args, range).0.ledger(),
        );
    }

    pub broadcast proof fn field_type_from_ty_grows(self, t: Tree, field: Seq<char>, range: Span)
        ensures
            steps(self.ledger(), (#[trigger] self.field_type_from_ty(t, field, range)).0.ledger()),
    {
        broadcast use {
            growth::chained,
            CheckerV::access_field_in_sum_grows,
            CheckerV::report_grows,
            CheckerV::fresh_grows,
            CheckerV::unify_grows,
        };

        growth::starts(self.ledger());
        growth::arrives(self.ledger(), self.field_type_from_ty(t, field, range).0.ledger());
    }

    pub broadcast proof fn ensure_result_mode_grows(self, err: Tree, range: Span)
        ensures
            steps(self.ledger(), (#[trigger] self.ensure_result_mode(err, range)).0.ledger()),
    {
        broadcast use {
            growth::chained,
            CheckerV::report_grows,
            CheckerV::fresh_grows,
            CheckerV::unify_grows,
        };

        growth::starts(self.ledger());
        growth::arrives(self.ledger(), self.ensure_result_mode(err, range).0.ledger());
    }

    pub broadcast proof fn ensure_option_mode_grows(self, item: Tree, range: Span)
        ensures
            steps(self.ledger(), (#[trigger] self.ensure_option_mode(item, range)).ledger()),
    {
        broadcast use {
            growth::chained,
            CheckerV::report_grows,
            CheckerV::fresh_grows,
            CheckerV::unify_grows,
        };

        growth::starts(self.ledger());
        growth::arrives(self.ledger(), self.ensure_option_mode(item, range).ledger());
    }
}

} // verus!
