//! What patterns bind, and what they ask of the value that they are held against.
use crate::ast::{Pattern, PatternField, PatternPayload};
use crate::env::SchemeV;
use crate::infer::laws::{control, typing};
use crate::infer::{enums, properties};
use crate::infer::CheckerV;
use crate::report::{ErrorCode, Span};
use crate::tree::{Head, Tree};
use vstd::prelude::*;

verus! {

/// A bare name is bound to the type of the value, and `_` binds nothing; neither
/// asks for anything.
pub proof fn bare_patterns_take_the_value(
    c: CheckerV,
    name: String,
    expected: Tree,
    range: Span,
    other: Seq<char>,
)
    ensures
        c.infer_pattern(Pattern::Wildcard, expected, range) == (c, expected),
        ({
            let (d, t) = c.infer_pattern((Pattern::Binding { name }), expected, range);
            &&& t == expected
            &&& d.lookup(name@) == Some(SchemeV::mono(expected))
            &&& other != name@ ==> d.lookup(other) == c.lookup(other)
            &&& d == (CheckerV { env: d.env, ..c })
        }),
{
    properties::latest_binding_wins(c, name@, SchemeV::mono(expected), other);
}

/// A constructor that no enum declares is reported.
pub proof fn unknown_constructors_are_reported(
    c: CheckerV,
    enum_name: String,
    variant_name: String,
    payload: PatternPayload,
    expected: Tree,
    range: Span,
)
    requires
        !(c.reg.enum_tags.contains_key(enum_name@) && c.reg.enum_tags[enum_name@].contains_key(
            variant_name@,
        )),
    ensures
        ({
            let (d, t) = c.infer_pattern(
                (Pattern::Constructor { enum_name, variant_name, payload }),
                expected,
                range,
            );
            &&& t == expected
            &&& typing::complained(c, d, range)
            &&& d.messages.last().code == ErrorCode::UnknownConstructorPattern
        }),
{
}

/// The payload of a variant is the one of the matched type: by its tag in an enum
/// that is written out, and by the type arguments of `Option` and `Result`.
pub proof fn payloads_are_those_of_the_value(
    c: CheckerV,
    name: Seq<char>,
    tags: Seq<Seq<char>>,
    kids: Seq<Tree>,
    tag: u32,
    expected: Tree,
    range: Span,
    t: Tree,
    e: Tree,
)
    ensures
        expected.subst(c.subst) == Tree::Node(Head::Sum(name, tags), kids) && tag < kids.len()
            ==> c.poly_or_registry_payload(name, tag, expected, range) == (
            c,
            Some(kids[tag as int]),
        ),
        expected.subst(c.subst) == control::option_of(t) ==> c.poly_or_registry_payload(
            "Option"@,
            0,
            expected,
            range,
        ) == (c, Some(Tree::Node(Head::UnitPayload, Seq::empty())))
            && c.poly_or_registry_payload("Option"@, 1, expected, range) == (
            c,
            Some(Tree::Node(Head::TuplePayload, seq![t])),
        ),
        expected.subst(c.subst) == control::result_of(t, e) ==> c.poly_or_registry_payload(
            "Result"@,
            0,
            expected,
            range,
        ) == (c, Some(Tree::Node(Head::TuplePayload, seq![t])))
            && c.poly_or_registry_payload("Result"@, 1, expected, range) == (
            c,
            Some(Tree::Node(Head::TuplePayload, seq![e])),
        ),
{
    reveal_strlit("Option");
    reveal_strlit("Result");
    assert("Option"@[0] != "Result"@[0]);
    let o = control::option_of(t);
    let r = control::result_of(t, e);
    assert(o.kids().drop_first() =~= seq![t]);
    assert(r.kids().drop_first() =~= seq![t, e]);
    assert(o.kids()[0] == Tree::con("Option"@));
    assert(r.kids()[0] == Tree::con("Result"@));
}

/// An enum that is not generic and not written out in the value has the payloads
/// that it declares.
pub proof fn other_payloads_are_declared(
    c: CheckerV,
    name: Seq<char>,
    tag: u32,
    expected: Tree,
    range: Span,
)
    requires
        expected.subst(c.subst) == typing::named(name),
        name != "Option"@,
        name != "Result"@,
        !c.reg.generics.generic_type_ctors.contains_key(name),
        c.reg.enum_payloads.contains_key(name),
        tag < c.reg.enum_payloads[name].len(),
    ensures
        c.poly_or_registry_payload(name, tag, expected, range) == (
            c,
            Some(c.reg.enum_payloads[name][tag as int]),
        ),
{
}

/// A payload pattern has to be of the declared form: an empty one for an empty
/// payload, as many parts as are declared, or fields for fields.
pub proof fn payload_patterns_have_the_declared_form(
    c: CheckerV,
    enum_name: Seq<char>,
    variant: Seq<char>,
    declared: Tree,
    payload: PatternPayload,
    range: Span,
)
    requires
        declared is Node,
    ensures
        declared.head() is UnitPayload && payload is Unit ==> c.infer_payload_pattern(
            enum_name,
            variant,
            declared,
            payload,
            range,
        ) == (c, None::<Tree>),
        declared.head() is UnitPayload && !(payload is Unit) ==> typing::complained(
            c,
            c.infer_payload_pattern(enum_name, variant, declared, payload, range).0,
            range,
        ) && c.infer_payload_pattern(
            enum_name,
            variant,
            declared,
            payload,
            range,
        ).0.messages.last().code == ErrorCode::PayloadShapeMismatch,
        declared.head() is TuplePayload && !(payload is Tuple) ==> typing::complained(
            c,
            c.infer_payload_pattern(enum_name, variant, declared, payload, range).0,
            range,
        ) && c.infer_payload_pattern(
            enum_name,
            variant,
            declared,
            payload,
            range,
        ).0.messages.last().code == ErrorCode::PayloadShapeMismatch,
        declared.head() is RecordPayload && !(payload is Record) ==> typing::complained(
            c,
            c.infer_payload_pattern(enum_name, variant, declared, payload, range).0,
            range,
        ) && c.infer_payload_pattern(
            enum_name,
            variant,
            declared,
            payload,
            range,
        ).0.messages.last().code == ErrorCode::PayloadShapeMismatch,
        declared.head() is TuplePayload ==> (payload matches PatternPayload::Tuple(parts)
            ==> parts@.len() != declared.kids().len() ==> typing::complained(
            c,
            c.infer_payload_pattern(enum_name, variant, declared, payload, range).0,
            range,
        )),
        declared.head() is TuplePayload ==> (payload matches PatternPayload::Tuple(parts)
            ==> parts@.len() == declared.kids().len() ==> c.infer_payload_pattern(
            enum_name,
            variant,
            declared,
            payload,
            range,
        ) == (c.infer_sub_patterns(parts@, declared.kids(), range, 0), None::<Tree>)),
{
}

proof fn sub_patterns_from(
    c: CheckerV,
    parts: Seq<Pattern>,
    tys: Seq<Tree>,
    p: Pattern,
    t: Tree,
    range: Span,
    at: nat,
)
    requires
        at <= parts.len() == tys.len(),
    ensures
        c.infer_sub_patterns(parts.push(p), tys.push(t), range, at) == c.infer_sub_patterns(
            parts,
            tys,
            range,
            at,
        ).infer_pattern(p, t, range).0,
    decreases parts.len() - at,
{
    let more = parts.push(p);
    let wanted = tys.push(t);
    if at < parts.len() {
        assert(more[at as int] == parts[at as int]);
        assert(wanted[at as int] == tys[at as int]);
        sub_patterns_from(
            c.infer_pattern(parts[at as int], tys[at as int], range).0,
            parts,
            tys,
            p,
            t,
            range,
            at + 1,
        );
    } else {
        assert(more[at as int] == p);
        assert(wanted[at as int] == t);
        let d = c.infer_pattern(p, t, range).0;
        assert(d.infer_sub_patterns(more, wanted, range, at + 1) == d);
    }
}

/// Every part of a tuple payload is held against the pattern at its own place, in
/// turn.
pub proof fn parts_are_matched_in_turn(
    c: CheckerV,
    parts: Seq<Pattern>,
    tys: Seq<Tree>,
    p: Pattern,
    t: Tree,
    range: Span,
)
    requires
        parts.len() == tys.len(),
    ensures
        c.infer_sub_patterns(Seq::empty(), Seq::empty(), range, 0) == c,
        c.infer_sub_patterns(parts.push(p), tys.push(t), range, 0) == c.infer_sub_patterns(
            parts,
            tys,
            range,
            0,
        ).infer_pattern(p, t, range).0,
{
    sub_patterns_from(c, parts, tys, p, t, range, 0);
}

proof fn place_of_pattern(fields: Seq<PatternField>, name: Seq<char>, at: nat)
    requires
        at <= fields.len() <= usize::MAX,
    ensures
        enums::pattern_place(fields, name, at) is None <==> forall|i: int|
            at <= i < fields.len() ==> (#[trigger] fields[i]).name@ != name,
        enums::pattern_place(fields, name, at) matches Some(i) ==> at <= i < fields.len()
            && fields[i as int].name@ == name && forall|j: int|
            at <= j < i ==> (#[trigger] fields[j]).name@ != name,
    decreases fields.len() - at,
{
    if at < fields.len() {
        place_of_pattern(fields, name, at + 1);
    }
}

proof fn repeats_of_patterns(fields: Seq<PatternField>, at: nat)
    requires
        at <= fields.len() <= usize::MAX,
    ensures
        enums::repeated_field(fields, at) is None <==> forall|i: int, j: int|
            0 <= i < j < fields.len() && at <= j ==> (#[trigger] fields[i]).name@ != (
            #[trigger] fields[j]).name@,
    decreases fields.len() - at,
{
    if at < fields.len() {
        let before = fields.take(at as int);
        place_of_pattern(before, fields[at as int].name@, 0);
        repeats_of_patterns(fields, at + 1);
        assert forall|i: int| 0 <= i < at implies #[trigger] before[i] == fields[i] by {}
        if enums::pattern_place(before, fields[at as int].name@, 0) is Some {
            let i = enums::pattern_place(before, fields[at as int].name@, 0).unwrap();
            assert(fields[i as int].name@ == fields[at as int].name@);
        } else {
            assert forall|i: int, j: int|
                0 <= i < j < fields.len() && at <= j && enums::repeated_field(
                    fields,
                    at + 1,
                ) is None implies (#[trigger] fields[i]).name@ != (
            #[trigger] fields[j]).name@ by {
                if j == at {
                    assert(before[i] == fields[i]);
                }
            }
        }
    }
}

proof fn undeclared_patterns(fields: Seq<PatternField>, names: Seq<Seq<char>>, at: nat)
    requires
        at <= fields.len(),
    ensures
        enums::undeclared_field(fields, names, at) is None <==> forall|i: int|
            at <= i < fields.len() ==> names.contains((#[trigger] fields[i]).name@),
    decreases fields.len() - at,
{
    if at < fields.len() {
        undeclared_patterns(fields, names, at + 1);
    }
}

/// A field pattern is found by its name; no field may be matched twice, left out
/// or made up.
pub proof fn field_patterns_are_complete(
    fields: Seq<PatternField>,
    names: Seq<Seq<char>>,
    name: Seq<char>,
)
    requires
        fields.len() <= usize::MAX,
    ensures
        enums::pattern_place(fields, name, 0) is None <==> forall|i: int|
            0 <= i < fields.len() ==> (#[trigger] fields[i]).name@ != name,
        enums::pattern_place(fields, name, 0) matches Some(i) ==> i < fields.len()
            && fields[i as int].name@ == name,
        enums::repeated_field(fields, 0) is None <==> forall|i: int, j: int|
            0 <= i < j < fields.len() ==> (#[trigger] fields[i]).name@ != (
            #[trigger] fields[j]).name@,
        enums::undeclared_field(fields, names, 0) is None <==> forall|i: int|
            0 <= i < fields.len() ==> names.contains((#[trigger] fields[i]).name@),
{
    place_of_pattern(fields, name, 0);
    repeats_of_patterns(fields, 0);
    undeclared_patterns(fields, names, 0);
}

/// A record pattern that matches a field twice is reported, and looks at no
/// field.
pub proof fn repeated_field_patterns_are_reported(
    c: CheckerV,
    enum_name: Seq<char>,
    variant: Seq<char>,
    names: Seq<Seq<char>>,
    kids: Seq<Tree>,
    fields: Vec<PatternField>,
    range: Span,
    i: int,
    j: int,
)
    requires
        fields@.len() <= usize::MAX,
        0 <= i < j < fields@.len(),
        fields@[i].name@ == fields@[j].name@,
    ensures
        ({
            let (d, t) = c.infer_payload_pattern(
                enum_name,
                variant,
                Tree::Node(Head::RecordPayload(names), kids),
                PatternPayload::Record(fields),
                range,
            );
            &&& typing::complained(c, d, range)
            &&& d.messages.last().code == ErrorCode::DuplicateField
            &&& t is Some
        }),
{
    repeats_of_patterns(fields@, 0);
}

/// The first declared field is held against the pattern of its name; without one
/// it is reported as missing.
pub proof fn declared_fields_are_matched_by_name(
    c: CheckerV,
    full: Seq<char>,
    fields: Seq<PatternField>,
    names: Seq<Seq<char>>,
    tys: Seq<Tree>,
    range: Span,
    at: nat,
    i: int,
)
    requires
        fields.len() <= usize::MAX,
        at < names.len() == tys.len(),
    ensures
        0 <= i < fields.len() && fields[i].name@ == names[at as int] && (forall|j: int|
            0 <= j < i ==> (#[trigger] fields[j]).name@ != names[at as int])
            ==> c.infer_record_pattern(full, fields, names, tys, range, at) == c.infer_pattern(
            fields[i].pattern,
            tys[at as int],
            range,
        ).0.infer_record_pattern(full, fields, names, tys, range, at + 1),
        (forall|j: int| 0 <= j < fields.len() ==> (#[trigger] fields[j]).name@ != names[at as int])
            ==> typing::complained(
            c,
            c.infer_record_pattern(full, fields, names, tys, range, at).0,
            range,
        ) && c.infer_record_pattern(full, fields, names, tys, range, at).0.messages.last().code
            == ErrorCode::MissingField && c.infer_record_pattern(
            full,
            fields,
            names,
            tys,
            range,
            at,
        ).1 is Some,
{
    place_of_pattern(fields, names[at as int], 0);
}

} // verus!
