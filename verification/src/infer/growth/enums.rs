//! The steps of [`enums`](crate::infer::enums) only add.
use crate::ast::{Pattern, PatternField, PatternPayload};
use crate::infer::{ArmCoverage, CheckerV, PendingV};
use crate::infer::enums;
use crate::infer::growth::{self, steps};
use crate::report::{ErrorCode, Span};
use crate::tree::{Head, Tree};
use vstd::prelude::*;

verus! {

impl CheckerV {
    pub broadcast proof fn fresh_args_grows(self, n: nat)
        ensures
            steps(self.ledger(), (#[trigger] self.fresh_args(n)).0.ledger()),
    {
        growth::counts_up(self.counter, n);
        reveal(steps);
    }

    pub broadcast proof fn fresh_poly_construct_payload_grows(
        self,
        enum_name: Seq<char>,
        variant: Seq<char>,
    )
        ensures
            steps(
                self.ledger(),
                (#[trigger] self.fresh_poly_construct_payload(enum_name, variant)).0.ledger(),
            ),
    {
        broadcast use {growth::chained, CheckerV::fresh_grows, CheckerV::fresh_args_grows};

        growth::starts(self.ledger());
        growth::arrives(
            self.ledger(),
            self.fresh_poly_construct_payload(enum_name, variant).0.ledger(),
        );
    }

    pub broadcast proof fn fresh_poly_app_ty_grows(self, enum_name: Seq<char>)
        ensures
            steps(self.ledger(), (#[trigger] self.fresh_poly_app_ty(enum_name)).0.ledger()),
    {
        broadcast use {growth::chained, CheckerV::fresh_grows, CheckerV::fresh_args_grows};

        growth::starts(self.ledger());
        growth::arrives(self.ledger(), self.fresh_poly_app_ty(enum_name).0.ledger());
    }

    pub broadcast proof fn poly_or_registry_payload_grows(
        self,
        enum_name: Seq<char>,
        tag: u32,
        expected: Tree,
        range: Span,
    )
        ensures
            steps(
                self.ledger(),
                (
                    #[trigger] self.poly_or_registry_payload(enum_name, tag, expected, range)
                ).0.ledger(),
            ),
    {
        broadcast use {growth::chained, CheckerV::fresh_poly_app_ty_grows, CheckerV::unify_grows};

        growth::starts(self.ledger());
        growth::arrives(
            self.ledger(),
            self.poly_or_registry_payload(enum_name, tag, expected, range).0.ledger(),
        );
    }

    pub broadcast proof fn infer_pattern_grows(self, pattern: Pattern, expected: Tree, range: Span)
        ensures
            steps(
                self.ledger(),
                (#[trigger] self.infer_pattern(pattern, expected, range)).0.ledger(),
            ),
        decreases pattern, 0nat,
    {
        broadcast use {
            growth::chained,
            CheckerV::bind_grows,
            CheckerV::report_grows,
            CheckerV::poly_or_registry_payload_grows,
        };

        match pattern {
            Pattern::Constructor { enum_name, variant_name, payload } => {
                match self.variant_tag(
                    enum_name@,
                    variant_name@,
                ) {
                    Some(tag) => {
                        let (c, found) = self.poly_or_registry_payload(
                            enum_name@,
                            tag,
                            expected,
                            range,
                        );
                        let declared = match found {
                            Some(p) => p,
                            None => Tree::unit_payload(),
                        };
                        c.infer_payload_pattern_grows(
                            enum_name@,
                            variant_name@,
                            declared,
                            payload,
                            range,
                        );
                    },
                    _ => {},
                }
            },
            _ => {},
        }
        growth::starts(self.ledger());
        growth::arrives(self.ledger(), self.infer_pattern(pattern, expected, range).0.ledger());
    }

    pub broadcast proof fn infer_payload_pattern_grows(
        self,
        enum_name: Seq<char>,
        variant: Seq<char>,
        declared: Tree,
        payload: PatternPayload,
        range: Span,
    )
        ensures
            steps(
                self.ledger(),
                (
                    #[trigger] self.infer_payload_pattern(
                        enum_name,
                        variant,
                        declared,
                        payload,
                        range,
                    )
                ).0.ledger(),
            ),
        decreases payload, 1nat,
    {
        broadcast use {growth::chained, CheckerV::report_grows, CheckerV::fresh_grows};

        let full = enum_name + "::"@ + variant;
        match (declared, payload) {
            (Tree::Node(Head::UnitPayload, _), PatternPayload::Unit) => {},
            (Tree::Node(Head::TuplePayload, kids), PatternPayload::Tuple(parts)) => {
                if parts@.len() == kids.len() {
                    self.infer_sub_patterns_grows(parts@, kids, range, 0);
                }
            },
            (
                Tree::Node(Head::RecordPayload(names), kids),
                PatternPayload::Record(fields),
            ) => {
                match enums::repeated_field(fields@, 0) {
                    None => {
                        self.infer_record_pattern_grows(full, fields@, names, kids, range, 0);
                    },
                    _ => {},
                }
            },
            _ => {},
        }
        growth::starts(self.ledger());
        growth::arrives(
            self.ledger(),
            self.infer_payload_pattern(enum_name, variant, declared, payload, range).0.ledger(),
        );
    }

    pub broadcast proof fn infer_sub_patterns_grows(
        self,
        parts: Seq<Pattern>,
        tys: Seq<Tree>,
        range: Span,
        at: nat,
    )
        ensures
            steps(
                self.ledger(),
                (#[trigger] self.infer_sub_patterns(parts, tys, range, at)).ledger(),
            ),
        decreases parts, parts.len() - at,
    {
        broadcast use {growth::chained};

        if at < parts.len() && at < tys.len() {
            self.infer_pattern_grows(parts[at as int], tys[at as int], range);
            self.infer_pattern(parts[at as int], tys[at as int], range).0.infer_sub_patterns_grows(
                parts,
                tys,
                range,
                at + 1,
            );
        }
        growth::starts(self.ledger());
        growth::arrives(self.ledger(), self.infer_sub_patterns(parts, tys, range, at).ledger());
    }

    pub broadcast proof fn infer_record_pattern_grows(
        self,
        full: Seq<char>,
        fields: Seq<PatternField>,
        names: Seq<Seq<char>>,
        tys: Seq<Tree>,
        range: Span,
        at: nat,
    )
        ensures
            steps(
                self.ledger(),
                (
                    #[trigger] self.infer_record_pattern(full, fields, names, tys, range, at)
                ).0.ledger(),
            ),
        decreases fields, names.len() - at,
    {
        broadcast use {growth::chained, CheckerV::report_grows, CheckerV::fresh_grows};

        if at < names.len() && at < tys.len() {
            let name = names[at as int];
            match enums::pattern_place(fields, name, 0) {
                Some(k) => {
                    if k < fields.len() {
                        self.infer_pattern_grows(fields[k as int].pattern, tys[at as int], range);
                        self.infer_pattern(
                            fields[k as int].pattern,
                            tys[at as int],
                            range,
                        ).0.infer_record_pattern_grows(full, fields, names, tys, range, at + 1);
                    }
                },
                _ => {},
            }
        }
        growth::starts(self.ledger());
        growth::arrives(
            self.ledger(),
            self.infer_record_pattern(full, fields, names, tys, range, at).0.ledger(),
        );
    }

    pub broadcast proof fn report_unreachable_grows(self, arms: Seq<ArmCoverage>, at: nat)
        ensures
            steps(self.ledger(), (#[trigger] self.report_unreachable(arms, at)).ledger()),
        decreases arms.len() - at,
    {
        broadcast use {growth::chained, CheckerV::report_grows};

        if at < arms.len() {
            let c = if enums::repeats(arms, at as int) {
                self.say(
                    ErrorCode::UnreachableArm,
                    "Unreachable arm: this pattern is matched by an earlier arm"@,
                    arms[at as int].range,
                )
            } else {
                self
            };
            c.report_unreachable_grows(arms, at + 1);
        }
        growth::starts(self.ledger());
        growth::arrives(self.ledger(), self.report_unreachable(arms, at).ledger());
    }

    pub broadcast proof fn check_exhaustiveness_grows(self, p: PendingV)
        ensures
            steps(self.ledger(), (#[trigger] self.check_exhaustiveness(p)).ledger()),
    {
        broadcast use {growth::chained, CheckerV::report_unreachable_grows, CheckerV::report_grows};

        growth::starts(self.ledger());
        growth::arrives(self.ledger(), self.check_exhaustiveness(p).ledger());
    }

    pub broadcast proof fn check_all_grows(self, pending: Seq<PendingV>, at: nat)
        ensures
            steps(self.ledger(), (#[trigger] self.check_all(pending, at)).ledger()),
        decreases pending.len() - at,
    {
        broadcast use {growth::chained, CheckerV::check_exhaustiveness_grows};

        if at < pending.len() {
            self.check_exhaustiveness(pending[at as int]).check_all_grows(pending, at + 1);
        }
        growth::starts(self.ledger());
        growth::arrives(self.ledger(), self.check_all(pending, at).ledger());
    }

    pub broadcast proof fn run_pending_exhaustiveness_grows(self)
        ensures
            steps(self.ledger(), (#[trigger] self.run_pending_exhaustiveness()).ledger()),
    {
        broadcast use {growth::chained, CheckerV::check_all_grows};

        growth::starts(self.ledger());
        growth::arrives(self.ledger(), self.run_pending_exhaustiveness().ledger());
    }
}

} // verus!
