//! What a record literal is made of.
use crate::ast::FieldInit;
use crate::infer::CheckerV;
use crate::infer::ops;
use crate::report::{ErrorCode, Span};
use crate::tree::Tree;
use vstd::prelude::*;

verus! {

proof fn place_in_bounds(fields: Seq<(Seq<char>, Tree)>, name: Seq<char>, at: nat)
    requires
        at <= fields.len(),
    ensures
        at <= ops::sorted_place(fields, name, at) <= fields.len(),
    decreases fields.len() - at,
{
    if at < fields.len() {
        place_in_bounds(fields, name, at + 1);
    }
}

/// Sorting the fields of a record loses none of them and makes none up.
pub proof fn sorted_records_have_the_same_fields(
    fields: Seq<(Seq<char>, Tree)>,
    f: (Seq<char>, Tree),
)
    ensures
        ops::sorted_fields(fields).len() == fields.len(),
        ops::sorted_fields(fields).contains(f) <==> fields.contains(f),
    decreases fields.len(),
{
    if fields.len() > 0 {
        let init = fields.drop_last();
        let last = fields.last();
        sorted_records_have_the_same_fields(init, f);
        let s = ops::sorted_fields(init);
        place_in_bounds(s, last.0, 0);
        let k = ops::sorted_place(s, last.0, 0) as int;
        let r = s.insert(k, last);
        assert(r == ops::sorted_fields(fields));
        if fields.contains(f) {
            let i = choose|i: int| 0 <= i < fields.len() && fields[i] == f;
            if i == fields.len() - 1 {
                assert(r[k] == f);
            } else {
                assert(init[i] == f);
                assert(init.contains(f));
                let j = choose|j: int| 0 <= j < s.len() && s[j] == f;
                if j < k {
                    assert(r[j] == f);
                } else {
                    assert(r[j + 1] == f);
                }
            }
        }
        if r.contains(f) {
            let j = choose|j: int| 0 <= j < r.len() && r[j] == f;
            if j == k {
                assert(fields[fields.len() - 1] == f);
            } else {
                if j < k {
                    assert(s[j] == f);
                } else {
                    assert(s[j - 1] == f);
                }
                assert(init.contains(f));
                let i = choose|i: int| 0 <= i < init.len() && init[i] == f;
                assert(fields[i] == f);
            }
        }
    }
}

proof fn repeats_from(
    c: CheckerV,
    fields: Seq<FieldInit>,
    range: Span,
    at: nat,
    seen: Set<Seq<char>>,
)
    requires
        at <= fields.len(),
        forall|n: Seq<char>| #[trigger]
            seen.contains(n) <==> exists|i: int|
                0 <= i < at && (#[trigger] fields[i]).name@ == n,
    ensures
        ({
            let d = c.report_repeated(fields, range, at, seen);
            &&& d.messages.len() >= c.messages.len()
            &&& d.messages.len() == c.messages.len() <==> forall|i: int, j: int|
                0 <= i < j < fields.len() && at <= j ==> (#[trigger] fields[i]).name@ != (
                #[trigger] fields[j]).name@
            &&& d.subst == c.subst && d.env == c.env
        }),
    decreases fields.len() - at,
{
    if at < fields.len() {
        let n = fields[at as int].name@;
        let more = seen.insert(n);
        assert forall|m: Seq<char>| #[trigger] more.contains(m) <==> exists|i: int|
            0 <= i < at + 1 && (#[trigger] fields[i]).name@ == m by {
            if m == n {
                assert(fields[at as int].name@ == m);
            } else if seen.contains(m) {
                let i = choose|i: int| 0 <= i < at && (#[trigger] fields[i]).name@ == m;
                assert(fields[i].name@ == m);
            }
        }
        let d = if seen.contains(n) {
            c.error_with_help(
                ErrorCode::DuplicateField,
                "Duplicate field `"@ + n + "` in record literal"@,
                range,
                "record literals must have unique field names"@,
            ).0
        } else {
            c
        };
        repeats_from(d, fields, range, at + 1, more);
        if seen.contains(n) {
            let i = choose|i: int| 0 <= i < at && (#[trigger] fields[i]).name@ == n;
            assert(fields[i].name@ == fields[at as int].name@);
        }
    }
}

/// A record literal that names a field twice is reported, and no other one is.
pub proof fn repeated_fields_are_reported(c: CheckerV, fields: Seq<FieldInit>, range: Span)
    ensures
        c.report_repeated(fields, range, 0, Set::empty()).messages.len() == c.messages.len()
            <==> forall|i: int, j: int|
            0 <= i < j < fields.len() ==> (#[trigger] fields[i]).name@ != (
            #[trigger] fields[j]).name@,
{
    repeats_from(c, fields, range, 0, Set::empty());
}

} // verus!
