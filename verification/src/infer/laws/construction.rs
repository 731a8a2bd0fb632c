//! What building values asks for, and which types the built values have.
use crate::ast::{EnumConstructPayload, FieldInit, Output};
use crate::env::SchemeV;
use crate::id::NodeId;
use crate::infer::construct::{self, ConstructV, NewV};
use crate::infer::laws::{control, members, operators, typing};
use crate::infer::methods::PlanV;
use crate::infer::ops;
use crate::infer::CheckerV;
use crate::report::{ErrorCode, Span};
use crate::tree::{self, ArrayLength, Head, Tree};
use crate::ty::TyVarId;
use crate::{soundness, unify};
use vstd::prelude::*;

verus! {

/// An enum of this program: neither a built-in one nor a generic one.
pub open spec fn own_enum(c: CheckerV, name: Seq<char>) -> bool {
    &&& name != "Option"@
    &&& name != "Result"@
    &&& name != "FFIType"@
    &&& name != "ffi::types"@
    &&& !c.reg.generics.generic_type_ctors.contains_key(name)
}

/// The payload of a variant, as written, fits the declared one: both are empty,
/// or both list as many parts, or both name fields.
pub open spec fn same_form(declared: Tree, written: EnumConstructPayload) -> bool {
    match declared {
        Tree::Node(Head::UnitPayload, _) => written is Unit,
        Tree::Node(Head::TuplePayload, kids) => written matches EnumConstructPayload::Tuple(args)
            && args@.len() == kids.len(),
        Tree::Node(Head::RecordPayload(_), _) => written is Record,
        _ => false,
    }
}

/// A variant is built with the tag and the payload that its enum declares for it,
/// where the payload is written in the declared form; it is reported where it is
/// not.
pub proof fn variants_are_built_as_declared(
    c: CheckerV,
    name: Seq<char>,
    variant: Seq<char>,
    fields: EnumConstructPayload,
    range: Span,
    tag: u32,
)
    requires
        own_enum(c, name),
        c.reg.enum_tags.contains_key(name),
        c.reg.enum_tags[name].contains_key(variant),
        c.reg.enum_tags[name][variant] == tag,
        c.reg.enum_payloads.contains_key(name),
        tag < c.reg.enum_payloads[name].len(),
        c.reg.enum_payloads[name][tag as int] is Node,
    ensures
        ({
            let declared = c.reg.enum_payloads[name][tag as int];
            let (d, r) = c.open_construct(name, variant, fields, range);
            &&& same_form(declared, fields) ==> d == c && (r matches Ok(k) && k.tag == tag
                && k.payload == declared && k.name == name && k.variant == variant && k.owner
                is None)
            &&& !same_form(declared, fields) ==> typing::complained(c, d, range) && r is Err
            &&& !same_form(declared, fields) && declared.head() is TuplePayload && fields is Tuple
                ==> d.messages.last().code == ErrorCode::ConstructorArity
        }),
{
}

/// An enum or a variant that is not there is reported.
pub proof fn unknown_variants_are_reported(
    c: CheckerV,
    name: Seq<char>,
    variant: Seq<char>,
    fields: EnumConstructPayload,
    range: Span,
)
    requires
        name != "FFIType"@,
        name != "ffi::types"@,
    ensures
        !c.reg.enum_tags.contains_key(name) ==> typing::complained(
            c,
            c.open_construct(name, variant, fields, range).0,
            range,
        ) && c.open_construct(name, variant, fields, range).0.messages.last().code
            == ErrorCode::UnknownEnum && c.open_construct(name, variant, fields, range).1 is Err,
        c.reg.enum_tags.contains_key(name) && !c.reg.enum_tags[name].contains_key(variant)
            ==> typing::complained(c, c.open_construct(name, variant, fields, range).0, range)
            && c.open_construct(name, variant, fields, range).0.messages.last().code
            == ErrorCode::UnknownVariant && c.open_construct(name, variant, fields, range).1
            is Err,
{
}

/// `Some`, `None`, `Ok` and `Err` are built of new types: what a variant holds is
/// the type that its enum has for it.
pub proof fn built_in_variants_hold_their_types(c: CheckerV)
    requires
        c.counter < u32::MAX,
    ensures
        ({
            let t = Tree::Var(TyVarId(c.counter));
            let e = Tree::Var(TyVarId((c.counter + 1) as u32));
            &&& c.fresh_poly_construct_payload("Option"@, "Some"@).1 == Tree::Node(
                Head::TuplePayload,
                seq![t],
            )
            &&& c.fresh_poly_construct_payload("Option"@, "Some"@).2 == control::option_variants(t)
            &&& c.fresh_poly_construct_payload("Option"@, "None"@).1 == Tree::Node(
                Head::UnitPayload,
                Seq::empty(),
            )
            &&& c.fresh_poly_construct_payload("Option"@, "None"@).2 == control::option_variants(t)
            &&& c.fresh_poly_construct_payload("Result"@, "Ok"@).1 == Tree::Node(
                Head::TuplePayload,
                seq![t],
            )
            &&& c.fresh_poly_construct_payload("Result"@, "Err"@).1 == Tree::Node(
                Head::TuplePayload,
                seq![e],
            )
            &&& c.fresh_poly_construct_payload("Result"@, "Ok"@).2 == control::result_variants(t, e)
            &&& c.fresh_poly_construct_payload("Result"@, "Err"@).2 == control::result_variants(
                t,
                e,
            )
        }),
{
    reveal_strlit("Some");
    reveal_strlit("None");
    reveal_strlit("Ok");
    reveal_strlit("Err");
    reveal_strlit("Option");
    reveal_strlit("Result");
    assert("Option"@[0] != "Result"@[0]);
    assert("Some"@[0] != "None"@[0]);
    assert("Ok"@[0] != "Err"@[0]);
}

/// A built value is of its enum, with all of its variants, and known to be of the
/// one variant that it was built by.
pub proof fn built_values_are_of_their_variant(c: CheckerV, k: ConstructV)
    requires
        k.owner is None,
        c.reg.enums.contains_key(k.name),
        c.reg.enum_payloads.contains_key(k.name),
        c.reg.enums[k.name].len() == c.reg.enum_payloads[k.name].len(),
    ensures
        c.construct_ty(k) == Tree::Node(
            Head::Constructor(k.tag, k.arity),
            seq![
                Tree::Node(
                    Head::Sum(k.name, c.reg.enums[k.name]),
                    c.reg.enum_payloads[k.name],
                ),
            ],
        ),
{
    let v = ops::declared_variants(c.reg.enums[k.name], c.reg.enum_payloads[k.name]);
    assert(tree::names_of(v) =~= c.reg.enums[k.name]);
    assert(tree::trees_of(v) =~= c.reg.enum_payloads[k.name]);
}

/// A built value of a generic enum is of the type that it was opened with.
pub proof fn built_values_are_of_their_owner(c: CheckerV, k: ConstructV, owner: Tree)
    requires
        k.owner == Some(owner),
    ensures
        c.construct_ty(k) == Tree::Node(
            Head::Constructor(k.tag, k.arity),
            seq![owner.subst(c.subst)],
        ),
{
}

/// `new` takes an argument for every field, of the field's type, in the order of
/// their declaration, and gives a value of the class; any other number of
/// arguments is reported.
pub proof fn new_takes_every_field(
    c: CheckerV,
    class_ty: Tree,
    name: Seq<char>,
    got: nat,
    range: Span,
)
    requires
        class_ty.subst(c.subst) == typing::named(name),
        c.reg.classes.contains_key(name),
        !c.reg.generics.generic_type_ctors.contains_key(name),
    ensures
        ({
            let fields = c.reg.classes[name];
            let (d, r) = c.open_new(class_ty, got, range);
            &&& got == fields.len() ==> d == c && (r matches NewV::Fields(tys, t) && t
                == typing::named(name) && tys.len() == fields.len() && forall|i: int|
                0 <= i < fields.len() ==> #[trigger] tys[i] == fields[i].ty)
            &&& got != fields.len() ==> typing::complained(c, d, range) && d.messages.last().code
                == ErrorCode::ConstructorArity && r == NewV::Miscounted(typing::named(name))
        }),
{
}

/// What is no class cannot be made by `new`.
pub proof fn only_classes_are_made(c: CheckerV, class_ty: Tree, got: nat, range: Span)
    requires
        !(class_ty.subst(c.subst) matches Tree::Node(Head::Con(_), _)),
    ensures
        typing::complained(c, c.open_new(class_ty, got, range).0, range),
        c.open_new(class_ty, got, range).0.messages.last().code == ErrorCode::NotAFunction,
        c.open_new(class_ty, got, range).1 is Done,
{
}

/// A part of a record variant that is left out, given twice or not declared is
/// told by that name.
pub proof fn named_parts_are_complete(
    parts: Seq<FieldInit>,
    names: Seq<Seq<char>>,
    name: Seq<char>,
)
    ensures
        construct::part_place(parts, name, 0) is None <==> forall|i: int|
            0 <= i < parts.len() ==> (#[trigger] parts[i]).name@ != name,
        construct::part_place(parts, name, 0) matches Some(i) ==> i < parts.len()
            && parts[i as int].name@ == name,
        construct::first_unknown(parts, names, 0) is None <==> forall|i: int|
            0 <= i < parts.len() ==> names.contains((#[trigger] parts[i]).name@),
        construct::first_repeat(parts, 0, Set::empty()) is None <==> forall|i: int, j: int|
            0 <= i < j < parts.len() ==> (#[trigger] parts[i]).name@ != (#[trigger] parts[j]).name@,
{
    places_of_parts(parts, name, 0);
    unknown_parts(parts, names, 0);
    repeats_of_parts(parts, 0, Set::empty());
}

proof fn places_of_parts(parts: Seq<FieldInit>, name: Seq<char>, at: nat)
    requires
        at <= parts.len(),
    ensures
        construct::part_place(parts, name, at) is None <==> forall|i: int|
            at <= i < parts.len() ==> (#[trigger] parts[i]).name@ != name,
        construct::part_place(parts, name, at) matches Some(i) ==> at <= i < parts.len()
            && parts[i as int].name@ == name,
    decreases parts.len() - at,
{
    if at < parts.len() {
        places_of_parts(parts, name, at + 1);
    }
}

proof fn unknown_parts(parts: Seq<FieldInit>, names: Seq<Seq<char>>, at: nat)
    requires
        at <= parts.len(),
    ensures
        construct::first_unknown(parts, names, at) is None <==> forall|i: int|
            at <= i < parts.len() ==> names.contains((#[trigger] parts[i]).name@),
    decreases parts.len() - at,
{
    if at < parts.len() {
        unknown_parts(parts, names, at + 1);
    }
}

proof fn repeats_of_parts(parts: Seq<FieldInit>, at: nat, seen: Set<Seq<char>>)
    requires
        at <= parts.len(),
        forall|n: Seq<char>| #[trigger]
            seen.contains(n) <==> exists|i: int|
                0 <= i < at && (#[trigger] parts[i]).name@ == n,
    ensures
        construct::first_repeat(parts, at, seen) is None <==> forall|i: int, j: int|
            0 <= i < j < parts.len() && at <= j ==> (#[trigger] parts[i]).name@ != (
            #[trigger] parts[j]).name@,
    decreases parts.len() - at,
{
    if at < parts.len() {
        let n = parts[at as int].name@;
        let more = seen.insert(n);
        assert forall|m: Seq<char>| #[trigger] more.contains(m) <==> exists|i: int|
            0 <= i < at + 1 && (#[trigger] parts[i]).name@ == m by {
            if m == n {
                assert(parts[at as int].name@ == m);
            } else if seen.contains(m) {
                let i = choose|i: int| 0 <= i < at && (#[trigger] parts[i]).name@ == m;
                assert(parts[i].name@ == m);
            }
        }
        repeats_of_parts(parts, at + 1, more);
        if seen.contains(n) {
            let i = choose|i: int| 0 <= i < at && (#[trigger] parts[i]).name@ == n;
            assert(parts[i].name@ == parts[at as int].name@);
        }
    }
}

/// `push` holds the value against the elements of the array, which is of open
/// length from then on; what is no array is reported.
pub proof fn pushed_values_fit_the_array(
    c: CheckerV,
    target: Output,
    value: Output,
    array_ty: Tree,
    value_ty: Tree,
    length: ArrayLength,
    element: Tree,
)
    requires
        array_ty.subst(c.subst) == Tree::Node(Head::Array(length), seq![element]),
        operators::plain(element.subst(c.subst), value_ty.subst(c.subst)),
    ensures
        ({
            let (d, t) = c.finish_push(target, value, array_ty, value_ty);
            &&& t == Tree::Node(
                Head::Array(ArrayLength::Dynamic),
                seq![element.subst(d.subst)],
            )
            &&& unify::unified(
                c.subst,
                element.subst(c.subst),
                value_ty.subst(c.subst),
            ) matches Ok(s) ==> d.subst == s && d.messages == c.messages
            &&& unify::unified(c.subst, element.subst(c.subst), value_ty.subst(c.subst)) is Err
                ==> d.messages.len() == c.messages.len() + 1 && d.messages.last().range
                == value.span
        }),
{
    operators::plain_values_unify(
        c,
        element,
        value_ty,
        Some(value),
        value.span,
        "push element"@,
    );
}

/// `len` is an `int`, of arrays only.
pub proof fn lengths_are_int(c: CheckerV, t: Tree, place: Span, length: ArrayLength, element: Tree)
    ensures
        t.subst(c.subst) == Tree::Node(Head::Array(length), seq![element]) ==> c.finish_len(
            t,
            place,
        ) == (c, typing::named("int"@)),
        match t.subst(c.subst) {
            Tree::Var(_) => false,
            Tree::Node(Head::Array(_), _) => false,
            _ => true,
        } ==> typing::complained(c, c.finish_len(t, place).0, place),
{
}

/// A call of a name that nothing binds is reported.
pub proof fn unknown_functions_are_reported(
    c: CheckerV,
    name: Seq<char>,
    args: Seq<Tree>,
    exprs: Option<Seq<Output>>,
    id: Option<NodeId>,
    range: Span,
)
    requires
        c.lookup(name) is None,
    ensures
        typing::complained(c, c.call_value(name, args, exprs, id, range).0, range),
        c.call_value(name, args, exprs, id, range).0.messages.last().code
            == ErrorCode::UnknownFunction,
{
}

/// A function that is bound to one type is applied as that type says.
pub proof fn functions_are_applied_by_their_type(
    c: CheckerV,
    name: Seq<char>,
    t: Tree,
    args: Seq<Tree>,
    exprs: Option<Seq<Output>>,
    id: Option<NodeId>,
    range: Span,
)
    requires
        c.lookup(name) == Some(SchemeV::mono(t)),
    ensures
        c.call_value(name, args, exprs, id, range) == c.apply_function(
            Some(name),
            t,
            args,
            exprs,
            id,
            range,
            0,
        ),
{
    soundness::strangers_stay(t, Map::empty());
    let scheme = SchemeV::mono(t);
    let (d, open) = c.open_scheme(scheme);
    assert(open.constraints.len() == 0);
    assert(d == c) by {
        assert(d.scope =~= c.scope);
    }
}

/// A method of a class is the one that is declared for it under that name.
pub proof fn methods_are_those_of_the_class(
    c: CheckerV,
    method: Seq<char>,
    recv: Tree,
    name: Seq<char>,
    t: Tree,
    range: Span,
)
    requires
        recv.subst(c.subst) == typing::named(name),
        c.reg.classes.contains_key(name),
        c.reg.methods.contains_key(name),
        c.reg.methods[name].contains_key(method),
        c.reg.methods[name][method].scheme == SchemeV::mono(t),
    ensures
        c.plan_method(method, recv, range) == (c, PlanV::Inherent(name, t)),
{
    soundness::strangers_stay(t, Map::empty());
    let d = c.instantiate_ty(SchemeV::mono(t)).0;
    assert(d == c) by {
        assert(d.scope =~= c.scope);
    }
}

/// A method that its class does not have is reported, as is a method of what is
/// no class.
pub proof fn unknown_methods_are_reported(
    c: CheckerV,
    owner: Option<Seq<char>>,
    method: Seq<char>,
    args: Seq<Tree>,
    exprs: Option<Seq<Output>>,
    id: Option<NodeId>,
    range: Span,
)
    ensures
        typing::complained(
            c,
            c.finish_method(PlanV::Unknown(owner), method, args, exprs, id, range).0,
            range,
        ),
        owner is Some ==> c.finish_method(
            PlanV::Unknown(owner),
            method,
            args,
            exprs,
            id,
            range,
        ).0.messages.last().code == ErrorCode::UnknownFunction,
        owner is None ==> c.finish_method(
            PlanV::Unknown(owner),
            method,
            args,
            exprs,
            id,
            range,
        ).0.messages.last().code == ErrorCode::NotAFunction,
{
}

/// A field is read, and assigned to, as the class of the receiver declares it.
pub proof fn receivers_have_their_class_fields(
    c: CheckerV,
    receiver: Tree,
    class: Seq<char>,
    field: Seq<char>,
    range: Span,
    i: int,
)
    requires
        receiver.subst(c.subst) == typing::named(class),
        c.reg.classes.contains_key(class),
        c.reg.classes[class].len() <= usize::MAX,
        members::declared_at(c.reg.classes[class], field, i),
        !c.reg.generics.generic_type_ctors.contains_key(class),
    ensures
        c.finish_access(receiver, field, range) == (c, c.reg.classes[class][i].ty),
        c.lvalue_field(receiver, field, range) == (c, c.reg.classes[class][i].ty),
{
    members::fields_have_their_declared_types(c, class, field, Seq::empty(), range, i);
}

} // verus!
