//! The steps of [`construct`](crate::infer::construct) only add.
use crate::ast::EnumConstructPayload;
use crate::infer::CheckerV;
use crate::infer::construct::ConstructV;
use crate::infer::growth::{self, steps};
use crate::report::Span;
use crate::tree::Tree;
use vstd::prelude::*;

verus! {

impl CheckerV {
    pub broadcast proof fn expected_payload_grows(
        self,
        name: Seq<char>,
        variant: Seq<char>,
        tag: u32,
    )
        ensures
            steps(self.ledger(), (#[trigger] self.expected_payload(name, variant, tag)).0.ledger()),
    {
        broadcast use {growth::chained, CheckerV::fresh_poly_construct_payload_grows};

        growth::starts(self.ledger());
        growth::arrives(self.ledger(), self.expected_payload(name, variant, tag).0.ledger());
    }

    pub broadcast proof fn wrong_shape_grows(
        self,
        k: ConstructV,
        fields: EnumConstructPayload,
        range: Span,
    )
        ensures
            steps(self.ledger(), (#[trigger] self.wrong_shape(k, fields, range)).0.ledger()),
    {
        broadcast use {growth::chained, CheckerV::report_grows, CheckerV::fresh_grows};

        growth::starts(self.ledger());
        growth::arrives(self.ledger(), self.wrong_shape(k, fields, range).0.ledger());
    }

    pub broadcast proof fn check_shape_grows(
        self,
        k: ConstructV,
        fields: EnumConstructPayload,
        range: Span,
    )
        ensures
            steps(self.ledger(), (#[trigger] self.check_shape(k, fields, range)).0.ledger()),
    {
        broadcast use {
            growth::chained,
            CheckerV::report_grows,
            CheckerV::fresh_grows,
            CheckerV::wrong_shape_grows,
        };

        growth::starts(self.ledger());
        growth::arrives(self.ledger(), self.check_shape(k, fields, range).0.ledger());
    }

    pub broadcast proof fn open_construct_grows(
        self,
        enum_name: Seq<char>,
        variant: Seq<char>,
        fields: EnumConstructPayload,
        range: Span,
    )
        ensures
            steps(
                self.ledger(),
                (#[trigger] self.open_construct(enum_name, variant, fields, range)).0.ledger(),
            ),
    {
        broadcast use {
            growth::chained,
            CheckerV::report_grows,
            CheckerV::fresh_grows,
            CheckerV::expected_payload_grows,
            CheckerV::check_shape_grows,
        };

        growth::starts(self.ledger());
        growth::arrives(
            self.ledger(),
            self.open_construct(enum_name, variant, fields, range).0.ledger(),
        );
    }

    pub broadcast proof fn repeated_part_grows(self, k: ConstructV, field: Seq<char>, range: Span)
        ensures
            steps(self.ledger(), (#[trigger] self.repeated_part(k, field, range)).0.ledger()),
    {
        broadcast use {growth::chained, CheckerV::report_grows, CheckerV::fresh_grows};

        growth::starts(self.ledger());
        growth::arrives(self.ledger(), self.repeated_part(k, field, range).0.ledger());
    }

    pub broadcast proof fn missing_part_grows(self, k: ConstructV, field: Seq<char>, range: Span)
        ensures
            steps(self.ledger(), (#[trigger] self.missing_part(k, field, range)).0.ledger()),
    {
        broadcast use {growth::chained, CheckerV::report_grows, CheckerV::fresh_grows};

        growth::starts(self.ledger());
        growth::arrives(self.ledger(), self.missing_part(k, field, range).0.ledger());
    }

    pub broadcast proof fn unknown_part_grows(self, k: ConstructV, field: Seq<char>, range: Span)
        ensures
            steps(self.ledger(), (#[trigger] self.unknown_part(k, field, range)).0.ledger()),
    {
        broadcast use {growth::chained, CheckerV::report_grows, CheckerV::fresh_grows};

        growth::starts(self.ledger());
        growth::arrives(self.ledger(), self.unknown_part(k, field, range).0.ledger());
    }

    pub broadcast proof fn open_new_grows(self, class_ty: Tree, got: nat, range: Span)
        ensures
            steps(self.ledger(), (#[trigger] self.open_new(class_ty, got, range)).0.ledger()),
    {
        broadcast use {
            growth::chained,
            CheckerV::fresh_args_grows,
            CheckerV::report_grows,
            CheckerV::fresh_grows,
        };

        growth::starts(self.ledger());
        growth::arrives(self.ledger(), self.open_new(class_ty, got, range).0.ledger());
    }
}

} // verus!
