//! The steps of [`ops`](crate::infer::ops) only add.
use crate::ast::{AssignOp, FieldInit, Output};
use crate::id::NodeId;
use crate::infer::CheckerV;
use crate::infer::growth::{self, steps};
use crate::report::{ErrorCode, Span};
use crate::tree::{Tree, TyVarId};
use vstd::prelude::*;

verus! {

impl CheckerV {
    pub broadcast proof fn bound_operator_grows(
        self,
        var: TyVarId,
        id: Option<NodeId>,
        range: Span,
        class: Seq<char>,
        method: Seq<char>,
        complaint: Seq<char>,
    )
        ensures
            steps(
                self.ledger(),
                (#[trigger] self.bound_operator(var, id, range, class, method, complaint)).ledger(),
            ),
    {
        broadcast use {
            growth::chained,
            CheckerV::bind_matching_abstract_constraints_grows,
            CheckerV::report_grows,
        };

        growth::starts(self.ledger());
        growth::arrives(
            self.ledger(),
            self.bound_operator(var, id, range, class, method, complaint).ledger(),
        );
    }

    pub broadcast proof fn finish_comparison_grows(
        self,
        left: Tree,
        right: Tree,
        id: Option<NodeId>,
        range: Span,
        class: Seq<char>,
        method: Seq<char>,
    )
        ensures
            steps(
                self.ledger(),
                (
                    #[trigger] self.finish_comparison(left, right, id, range, class, method)
                ).0.ledger(),
            ),
    {
        broadcast use {growth::chained, CheckerV::unify_grows, CheckerV::bound_operator_grows};

        growth::starts(self.ledger());
        growth::arrives(
            self.ledger(),
            self.finish_comparison(left, right, id, range, class, method).0.ledger(),
        );
    }

    pub broadcast proof fn arith_result_grows(
        self,
        result: Tree,
        id: Option<NodeId>,
        range: Span,
        op: Seq<char>,
    )
        ensures
            steps(self.ledger(), (#[trigger] self.arith_result(result, id, range, op)).ledger()),
    {
        broadcast use {growth::chained, CheckerV::bound_operator_grows, CheckerV::report_grows};

        growth::starts(self.ledger());
        growth::arrives(self.ledger(), self.arith_result(result, id, range, op).ledger());
    }

    pub broadcast proof fn finish_arith_grows(
        self,
        left: Tree,
        right: Tree,
        id: Option<NodeId>,
        range: Span,
        op: Seq<char>,
    )
        ensures
            steps(
                self.ledger(),
                (#[trigger] self.finish_arith(left, right, id, range, op)).0.ledger(),
            ),
    {
        broadcast use {growth::chained, CheckerV::unify_grows, CheckerV::arith_result_grows};

        growth::starts(self.ledger());
        growth::arrives(self.ledger(), self.finish_arith(left, right, id, range, op).0.ledger());
    }

    pub broadcast proof fn finish_compound_grows(
        self,
        target: Tree,
        value: Tree,
        op: AssignOp,
        range: Span,
    )
        ensures
            steps(
                self.ledger(),
                (#[trigger] self.finish_compound(target, value, op, range)).0.ledger(),
            ),
    {
        broadcast use {growth::chained, CheckerV::unify_grows};

        growth::starts(self.ledger());
        growth::arrives(self.ledger(), self.finish_compound(target, value, op, range).0.ledger());
    }

    pub broadcast proof fn lvalue_name_grows(self, name: Seq<char>, range: Span)
        ensures
            steps(self.ledger(), (#[trigger] self.lvalue_name(name, range)).0.ledger()),
    {
        broadcast use {
            growth::chained,
            CheckerV::instantiate_scheme_mapped_grows,
            CheckerV::report_grows,
            CheckerV::fresh_grows,
        };

        growth::starts(self.ledger());
        growth::arrives(self.ledger(), self.lvalue_name(name, range).0.ledger());
    }

    pub broadcast proof fn bad_target_grows(self, range: Span, help: Seq<char>)
        ensures
            steps(self.ledger(), (#[trigger] self.bad_target(range, help)).0.ledger()),
    {
        broadcast use {growth::chained, CheckerV::report_grows, CheckerV::fresh_grows};

        growth::starts(self.ledger());
        growth::arrives(self.ledger(), self.bad_target(range, help).0.ledger());
    }

    pub broadcast proof fn lvalue_field_grows(self, receiver: Tree, field: Seq<char>, range: Span)
        ensures
            steps(self.ledger(), (#[trigger] self.lvalue_field(receiver, field, range)).0.ledger()),
    {
        broadcast use {
            growth::chained,
            CheckerV::access_class_field_grows,
            CheckerV::report_grows,
            CheckerV::fresh_grows,
            CheckerV::bad_target_grows,
        };

        growth::starts(self.ledger());
        growth::arrives(self.ledger(), self.lvalue_field(receiver, field, range).0.ledger());
    }

    pub broadcast proof fn lvalue_element_grows(self, target: Tree, index: Option<i64>, range: Span)
        ensures
            steps(self.ledger(), (#[trigger] self.lvalue_element(target, index, range)).0.ledger()),
    {
        broadcast use {
            growth::chained,
            CheckerV::report_grows,
            CheckerV::fresh_grows,
            CheckerV::bad_target_grows,
        };

        growth::starts(self.ledger());
        growth::arrives(self.ledger(), self.lvalue_element(target, index, range).0.ledger());
    }

    pub broadcast proof fn finish_index_grows(self, target: Tree, index: Option<i64>, range: Span)
        ensures
            steps(self.ledger(), (#[trigger] self.finish_index(target, index, range)).0.ledger()),
    {
        broadcast use {growth::chained, CheckerV::report_grows, CheckerV::fresh_grows};

        growth::starts(self.ledger());
        growth::arrives(self.ledger(), self.finish_index(target, index, range).0.ledger());
    }

    pub broadcast proof fn not_a_record_grows(self, field: Seq<char>, range: Span, help: Seq<char>)
        ensures
            steps(self.ledger(), (#[trigger] self.not_a_record(field, range, help)).0.ledger()),
    {
        broadcast use {growth::chained, CheckerV::report_grows, CheckerV::fresh_grows};

        growth::starts(self.ledger());
        growth::arrives(self.ledger(), self.not_a_record(field, range, help).0.ledger());
    }

    pub broadcast proof fn finish_access_grows(self, receiver: Tree, field: Seq<char>, range: Span)
        ensures
            steps(
                self.ledger(),
                (#[trigger] self.finish_access(receiver, field, range)).0.ledger(),
            ),
    {
        broadcast use {
            growth::chained,
            CheckerV::access_class_field_grows,
            CheckerV::access_field_in_sum_grows,
            CheckerV::not_a_record_grows,
            CheckerV::report_grows,
            CheckerV::fresh_grows,
        };

        growth::starts(self.ledger());
        growth::arrives(self.ledger(), self.finish_access(receiver, field, range).0.ledger());
    }

    pub broadcast proof fn finish_logical_not_grows(self, t: Tree, range: Span)
        ensures
            steps(self.ledger(), (#[trigger] self.finish_logical_not(t, range)).0.ledger()),
    {
        broadcast use {growth::chained, CheckerV::report_grows, CheckerV::fresh_grows};

        growth::starts(self.ledger());
        growth::arrives(self.ledger(), self.finish_logical_not(t, range).0.ledger());
    }

    pub broadcast proof fn finish_adjust_grows(self, t: Tree, range: Span)
        ensures
            steps(self.ledger(), (#[trigger] self.finish_adjust(t, range)).0.ledger()),
    {
        broadcast use {growth::chained, CheckerV::report_grows, CheckerV::fresh_grows};

        growth::starts(self.ledger());
        growth::arrives(self.ledger(), self.finish_adjust(t, range).0.ledger());
    }

    pub broadcast proof fn finish_try_grows(self, t: Tree, range: Span)
        ensures
            steps(self.ledger(), (#[trigger] self.finish_try(t, range)).0.ledger()),
    {
        broadcast use {
            growth::chained,
            CheckerV::ensure_result_mode_grows,
            CheckerV::fresh_grows,
            CheckerV::ensure_option_mode_grows,
            CheckerV::unify_grows,
            CheckerV::report_grows,
        };

        growth::starts(self.ledger());
        growth::arrives(self.ledger(), self.finish_try(t, range).0.ledger());
    }

    pub broadcast proof fn coalesce_payload_grows(self, t: Tree, place: Span, range: Span)
        ensures
            steps(self.ledger(), (#[trigger] self.coalesce_payload(t, place, range)).0.ledger()),
    {
        broadcast use {
            growth::chained,
            CheckerV::fresh_grows,
            CheckerV::unify_grows,
            CheckerV::report_grows,
        };

        growth::starts(self.ledger());
        growth::arrives(self.ledger(), self.coalesce_payload(t, place, range).0.ledger());
    }

    pub broadcast proof fn finish_optional_access_grows(
        self,
        t: Tree,
        field: Seq<char>,
        place: Span,
        range: Span,
    )
        ensures
            steps(
                self.ledger(),
                (#[trigger] self.finish_optional_access(t, field, place, range)).0.ledger(),
            ),
    {
        broadcast use {
            growth::chained,
            CheckerV::fresh_grows,
            CheckerV::unify_grows,
            CheckerV::field_type_from_ty_grows,
            CheckerV::report_grows,
        };

        growth::starts(self.ledger());
        growth::arrives(
            self.ledger(),
            self.finish_optional_access(t, field, place, range).0.ledger(),
        );
    }

    pub broadcast proof fn finish_element_grows(self, sofar: Option<Tree>, t: Tree, range: Span)
        ensures
            steps(self.ledger(), (#[trigger] self.finish_element(sofar, t, range)).0.ledger()),
    {
        broadcast use {growth::chained, CheckerV::report_grows, CheckerV::fresh_grows};

        growth::starts(self.ledger());
        growth::arrives(self.ledger(), self.finish_element(sofar, t, range).0.ledger());
    }

    pub broadcast proof fn report_repeated_grows(
        self,
        fields: Seq<FieldInit>,
        range: Span,
        at: nat,
        seen: Set<Seq<char>>,
    )
        ensures
            steps(
                self.ledger(),
                (#[trigger] self.report_repeated(fields, range, at, seen)).ledger(),
            ),
        decreases fields.len() - at,
    {
        broadcast use {growth::chained, CheckerV::report_grows, CheckerV::fresh_grows};

        if at < fields.len() {
            let name = fields[at as int].name@;
            let c = if seen.contains(name) {
                self.error_with_help(
                    ErrorCode::DuplicateField,
                    "Duplicate field `"@ + name + "` in record literal"@,
                    range,
                    "record literals must have unique field names"@,
                ).0
            } else {
                self
            };
            c.report_repeated_grows(fields, range, at + 1, seen.insert(name));
        }
        growth::starts(self.ledger());
        growth::arrives(self.ledger(), self.report_repeated(fields, range, at, seen).ledger());
    }

    pub broadcast proof fn finish_push_grows(
        self,
        target: Output,
        value: Output,
        array_ty: Tree,
        value_ty: Tree,
    )
        ensures
            steps(
                self.ledger(),
                (#[trigger] self.finish_push(target, value, array_ty, value_ty)).0.ledger(),
            ),
    {
        broadcast use {
            growth::chained,
            CheckerV::coerce_or_unify_grows,
            CheckerV::bind_grows,
            CheckerV::fresh_grows,
            CheckerV::unify_grows,
            CheckerV::report_grows,
        };

        growth::starts(self.ledger());
        growth::arrives(
            self.ledger(),
            self.finish_push(target, value, array_ty, value_ty).0.ledger(),
        );
    }

    pub broadcast proof fn finish_len_grows(self, t: Tree, place: Span)
        ensures
            steps(self.ledger(), (#[trigger] self.finish_len(t, place)).0.ledger()),
    {
        broadcast use {
            growth::chained,
            CheckerV::fresh_grows,
            CheckerV::unify_grows,
            CheckerV::report_grows,
        };

        growth::starts(self.ledger());
        growth::arrives(self.ledger(), self.finish_len(t, place).0.ledger());
    }

    pub broadcast proof fn wrong_arity_grows(
        self,
        what: Seq<char>,
        got: nat,
        range: Span,
        help: Seq<char>,
    )
        ensures
            steps(self.ledger(), (#[trigger] self.wrong_arity(what, got, range, help)).0.ledger()),
    {
        broadcast use {growth::chained, CheckerV::report_grows, CheckerV::fresh_grows};

        growth::starts(self.ledger());
        growth::arrives(self.ledger(), self.wrong_arity(what, got, range, help).0.ledger());
    }

    pub broadcast proof fn expect_coroutine_grows(self, t: Tree, range: Span, what: Seq<char>)
        ensures
            steps(self.ledger(), (#[trigger] self.expect_coroutine(t, range, what)).0.ledger()),
    {
        broadcast use {growth::chained, CheckerV::fresh_grows, CheckerV::unify_grows};

        growth::starts(self.ledger());
        growth::arrives(self.ledger(), self.expect_coroutine(t, range, what).0.ledger());
    }
}

} // verus!
