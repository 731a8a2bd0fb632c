//! The steps of [`formats`](crate::infer::formats) only add.
use crate::infer::CheckerV;
use crate::infer::growth::{self, steps};
use crate::report::Span;
use crate::tree::Tree;
use vstd::prelude::*;

verus! {

impl CheckerV {
    pub broadcast proof fn check_shown_grows(self, t: Tree, range: Span, ctx: Seq<char>, at: usize)
        ensures
            steps(self.ledger(), (#[trigger] self.check_shown(t, range, ctx, at)).ledger()),
    {
        broadcast use {
            growth::chained,
            CheckerV::bind_matching_abstract_constraints_grows,
            CheckerV::report_grows,
        };

        growth::starts(self.ledger());
        growth::arrives(self.ledger(), self.check_shown(t, range, ctx, at).ledger());
    }

    pub broadcast proof fn check_open_grows(
        self,
        spec: char,
        t: Tree,
        range: Span,
        ctx: Seq<char>,
        at: usize,
    )
        ensures
            steps(self.ledger(), (#[trigger] self.check_open(spec, t, range, ctx, at)).ledger()),
    {
        broadcast use {growth::chained, CheckerV::report_grows, CheckerV::unify_grows};

        growth::starts(self.ledger());
        growth::arrives(self.ledger(), self.check_open(spec, t, range, ctx, at).ledger());
    }

    pub broadcast proof fn check_format_arg_grows(
        self,
        spec: char,
        t: Tree,
        range: Span,
        ctx: Seq<char>,
        at: usize,
    )
        ensures
            steps(
                self.ledger(),
                (#[trigger] self.check_format_arg(spec, t, range, ctx, at)).ledger(),
            ),
    {
        broadcast use {
            growth::chained,
            CheckerV::check_shown_grows,
            CheckerV::check_open_grows,
            CheckerV::report_grows,
        };

        growth::starts(self.ledger());
        growth::arrives(self.ledger(), self.check_format_arg(spec, t, range, ctx, at).ledger());
    }

    pub broadcast proof fn missing_argument_grows(self, spec: char, at: usize, range: Span)
        ensures
            steps(self.ledger(), (#[trigger] self.missing_argument(spec, at, range)).ledger()),
    {
        broadcast use {growth::chained, CheckerV::report_grows};

        growth::starts(self.ledger());
        growth::arrives(self.ledger(), self.missing_argument(spec, at, range).ledger());
    }
}

} // verus!
