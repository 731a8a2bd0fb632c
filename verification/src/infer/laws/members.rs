//! Which type a member has.
use crate::env;
use crate::infer::{enums, fields};
use crate::infer::{CheckerV, ClassFieldV};
use crate::report::{ErrorCode, Span};
use crate::tree::{Head, Tree};
use crate::ty::TyVarId;
use vstd::prelude::*;

verus! {

/// `name` is declared at place `i`, and nowhere before it.
pub open spec fn declared_at(fields: Seq<ClassFieldV>, name: Seq<char>, i: int) -> bool {
    &&& 0 <= i < fields.len()
    &&& fields[i].name == name
    &&& forall|j: int| 0 <= j < i ==> (#[trigger] fields[j]).name != name
}

/// `name` stands at place `i`, and nowhere before it.
pub open spec fn first_at(names: Seq<Seq<char>>, name: Seq<char>, i: int) -> bool {
    &&& 0 <= i < names.len()
    &&& names[i] == name
    &&& forall|j: int| 0 <= j < i ==> #[trigger] names[j] != name
}

proof fn place_of_field(fields: Seq<ClassFieldV>, name: Seq<char>, at: nat, i: int)
    requires
        declared_at(fields, name, i),
        at <= i,
        fields.len() <= usize::MAX,
    ensures
        fields::class_field_place(fields, name, at) == Some(i as usize),
    decreases fields.len() - at,
{
    if at < i {
        place_of_field(fields, name, at + 1, i);
    }
}

proof fn no_place_of_field(fields: Seq<ClassFieldV>, name: Seq<char>, at: nat)
    requires
        forall|j: int| 0 <= j < fields.len() ==> (#[trigger] fields[j]).name != name,
    ensures
        fields::class_field_place(fields, name, at) is None,
    decreases fields.len() - at,
{
    if at < fields.len() {
        no_place_of_field(fields, name, at + 1);
    }
}

proof fn place_of_name(names: Seq<Seq<char>>, name: Seq<char>, at: nat, i: int)
    requires
        first_at(names, name, i),
        at <= i,
        names.len() <= usize::MAX,
    ensures
        fields::name_place(names, name, at) == Some(i as usize),
    decreases names.len() - at,
{
    if at < i {
        place_of_name(names, name, at + 1, i);
    }
}

proof fn no_place_of_name(names: Seq<Seq<char>>, name: Seq<char>, at: nat)
    requires
        forall|j: int| 0 <= j < names.len() ==> #[trigger] names[j] != name,
    ensures
        fields::name_place(names, name, at) is None,
    decreases names.len() - at,
{
    if at < names.len() {
        no_place_of_name(names, name, at + 1);
    }
}

/// A field of a class without type parameters has the type that it was declared
/// with, at its own place, and reading it is no fault.
pub proof fn fields_have_their_declared_types(
    c: CheckerV,
    class: Seq<char>,
    field: Seq<char>,
    args: Seq<Tree>,
    range: Span,
    i: int,
)
    requires
        c.reg.classes.contains_key(class),
        c.reg.classes[class].len() <= usize::MAX,
        declared_at(c.reg.classes[class], field, i),
        c.reg.generics.generic_type_ctors.contains_key(class)
            ==> c.reg.generics.generic_type_ctors[class].len() == 0,
    ensures
        c.access_class_field(class, field, args, range) == (c, c.reg.classes[class][i].ty),
        c.class_field_ty(class, field) == Some(c.reg.classes[class][i].ty),
{
    place_of_field(c.reg.classes[class], field, 0, i);
}

/// The values of a list of names, each by its own place.
proof fn named_values(names: Seq<Seq<char>>, trees: Seq<Tree>, n: nat, k: int)
    requires
        names.no_duplicates(),
        0 <= k < n <= names.len(),
        n <= trees.len(),
    ensures
        enums::name_map(names, trees, n).contains_key(names[k]),
        enums::name_map(names, trees, n)[names[k]] == trees[k],
    decreases n,
{
    if k < n - 1 {
        named_values(names, trees, (n - 1) as nat, k);
        assert(names[k] != names[n - 1]);
    }
}

/// A field of a generic class whose declared type is a type parameter has the
/// type argument at the parameter's place.
pub proof fn generic_fields_have_the_arguments_types(
    c: CheckerV,
    class: Seq<char>,
    field: Seq<char>,
    args: Seq<Tree>,
    range: Span,
    i: int,
    k: int,
)
    requires
        c.reg.classes.contains_key(class),
        c.reg.classes[class].len() <= usize::MAX,
        declared_at(c.reg.classes[class], field, i),
        c.reg.generics.generic_type_ctors.contains_key(class),
        c.reg.generics.generic_type_ctors[class].no_duplicates(),
        c.reg.generics.generic_type_ctors[class].len() == args.len(),
        0 <= k < args.len(),
        c.reg.classes[class][i].ty == Tree::Node(
            Head::Con(c.reg.generics.generic_type_ctors[class][k]),
            Seq::empty(),
        ),
    ensures
        c.access_class_field(class, field, args, range) == (c, args[k]),
{
    place_of_field(c.reg.classes[class], field, 0, i);
    named_values(c.reg.generics.generic_type_ctors[class], args, args.len(), k);
}

/// A field of a generic class that is read without type arguments has, where its
/// declared type is a type parameter, a new variable of its own for that
/// parameter.
pub proof fn generic_fields_are_opened(
    c: CheckerV,
    class: Seq<char>,
    field: Seq<char>,
    range: Span,
    i: int,
    k: int,
)
    requires
        c.reg.classes.contains_key(class),
        c.reg.classes[class].len() <= usize::MAX,
        declared_at(c.reg.classes[class], field, i),
        c.reg.generics.generic_type_ctors.contains_key(class),
        c.reg.generics.generic_type_ctors[class].no_duplicates(),
        c.counter + c.reg.generics.generic_type_ctors[class].len() <= u32::MAX,
        0 <= k < c.reg.generics.generic_type_ctors[class].len(),
        c.reg.classes[class][i].ty == Tree::Node(
            Head::Con(c.reg.generics.generic_type_ctors[class][k]),
            Seq::empty(),
        ),
    ensures
        c.access_class_field(class, field, Seq::empty(), range).0 == (CheckerV {
            counter: (c.counter + c.reg.generics.generic_type_ctors[class].len()) as u32,
            ..c
        }),
        c.access_class_field(class, field, Seq::empty(), range).1 == Tree::Var(
            TyVarId((c.counter + k) as u32),
        ),
{
    let params = c.reg.generics.generic_type_ctors[class];
    place_of_field(c.reg.classes[class], field, 0, i);
    named_values(params, c.fresh_args(params.len()).1, params.len(), k);
    numbers_go_up(c.counter, k as nat);
    numbers_go_up(c.counter, params.len());
}

/// The number after `k` more.
pub proof fn numbers_go_up(n: u32, k: nat)
    requires
        n + k <= u32::MAX,
    ensures
        env::bump_by(n, k) == n + k,
    decreases k,
{
    if k > 0 {
        numbers_go_up(n, (k - 1) as nat);
    }
}

/// A field that a class does not have is reported as unknown, where it stands.
pub proof fn missing_fields_are_reported(
    c: CheckerV,
    class: Seq<char>,
    field: Seq<char>,
    args: Seq<Tree>,
    range: Span,
)
    requires
        c.reg.classes.contains_key(class) ==> forall|j: int|
            0 <= j < c.reg.classes[class].len() ==> (
            #[trigger] c.reg.classes[class][j]).name != field,
    ensures
        c.access_class_field(class, field, args, range).0.messages.len() == c.messages.len() + 1,
        c.access_class_field(class, field, args, range).0.messages.drop_last() == c.messages,
        c.access_class_field(class, field, args, range).0.messages.last().code
            == ErrorCode::UnknownField,
        c.access_class_field(class, field, args, range).0.messages.last().range == range,
        c.class_field_ty(class, field) is None,
{
    if c.reg.classes.contains_key(class) {
        no_place_of_field(c.reg.classes[class], field, 0);
    }
}

/// A record has each of its fields, with the type at the field's own place.
pub proof fn records_have_their_fields(
    c: CheckerV,
    t: Tree,
    names: Seq<Seq<char>>,
    kids: Seq<Tree>,
    field: Seq<char>,
    range: Span,
    i: int,
)
    requires
        t.subst(c.subst) == Tree::Node(Head::Record(names), kids),
        first_at(names, field, i),
        names.len() <= usize::MAX,
    ensures
        c.field_type_from_ty(t, field, range) == (c, kids[i]),
{
    place_of_name(names, field, 0, i);
}

/// A record does not have any other field.
pub proof fn records_have_no_other_fields(
    c: CheckerV,
    t: Tree,
    names: Seq<Seq<char>>,
    kids: Seq<Tree>,
    field: Seq<char>,
    range: Span,
)
    requires
        t.subst(c.subst) == Tree::Node(Head::Record(names), kids),
        forall|j: int| 0 <= j < names.len() ==> #[trigger] names[j] != field,
    ensures
        c.field_type_from_ty(t, field, range).0.messages.len() == c.messages.len() + 1,
        c.field_type_from_ty(t, field, range).0.messages.last().code == ErrorCode::UnknownField,
        c.field_type_from_ty(t, field, range).0.messages.last().range == range,
{
    no_place_of_name(names, field, 0);
}

/// A value that is known to be of one variant has the fields of that variant's
/// record payload, each with the type at its own place.
pub proof fn variants_have_their_fields(
    c: CheckerV,
    enum_name: Seq<char>,
    variants: Seq<(Seq<char>, Tree)>,
    tag: u32,
    names: Seq<Seq<char>>,
    kids: Seq<Tree>,
    field: Seq<char>,
    range: Span,
    i: int,
)
    requires
        tag < variants.len(),
        variants[tag as int].1 == Tree::Node(Head::RecordPayload(names), kids),
        first_at(names, field, i),
        names.len() <= usize::MAX,
    ensures
        c.access_field_in_sum(enum_name, variants, Some(tag), field, range) == (c, kids[i]),
{
    place_of_name(names, field, 0, i);
}

/// A field that the variant's record payload does not have is reported.
pub proof fn variants_have_no_other_fields(
    c: CheckerV,
    enum_name: Seq<char>,
    variants: Seq<(Seq<char>, Tree)>,
    tag: u32,
    field: Seq<char>,
    range: Span,
)
    requires
        tag < variants.len() ==> match variants[tag as int].1 {
            Tree::Node(Head::RecordPayload(names), _) => forall|j: int|
                0 <= j < names.len() ==> #[trigger] names[j] != field,
            Tree::Node(Head::TuplePayload, _) => false,
            _ => true,
        },
    ensures
        c.access_field_in_sum(enum_name, variants, Some(tag), field, range).0.messages.len()
            == c.messages.len() + 1,
{
    if tag < variants.len() {
        if let Tree::Node(Head::RecordPayload(names), _) = variants[tag as int].1 {
            no_place_of_name(names, field, 0);
        }
    }
}

/// A payload without a field of that name: an empty one, or a record of others.
pub open spec fn lacks(p: Tree, field: Seq<char>) -> bool {
    match p {
        Tree::Node(Head::UnitPayload, _) => true,
        Tree::Node(Head::RecordPayload(names), kids) => names.len() == kids.len() && forall|j: int|
            0 <= j < names.len() ==> #[trigger] names[j] != field,
        _ => false,
    }
}

proof fn none_named(
    names: Seq<Seq<char>>,
    kids: Seq<Tree>,
    name: Seq<char>,
    at: nat,
    acc: Seq<Tree>,
)
    requires
        names.len() == kids.len(),
        forall|j: int| at <= j < names.len() ==> #[trigger] names[j] != name,
    ensures
        fields::all_named(names, kids, name, at, acc) == acc,
    decreases kids.len() - at,
{
    if at < kids.len() {
        none_named(names, kids, name, at + 1, acc);
    }
}

proof fn one_named(
    names: Seq<Seq<char>>,
    kids: Seq<Tree>,
    name: Seq<char>,
    at: nat,
    acc: Seq<Tree>,
    i: int,
)
    requires
        names.len() == kids.len(),
        at <= i < names.len(),
        names[i] == name,
        forall|j: int| 0 <= j < names.len() && j != i ==> #[trigger] names[j] != name,
    ensures
        fields::all_named(names, kids, name, at, acc) == acc.push(kids[i]),
    decreases kids.len() - at,
{
    if at < i {
        assert(names[at as int] != name);
        one_named(names, kids, name, at + 1, acc, i);
    } else {
        none_named(names, kids, name, at + 1, acc.push(kids[i]));
    }
}

proof fn no_candidates(
    variants: Seq<(Seq<char>, Tree)>,
    field: Seq<char>,
    at: nat,
    acc: Seq<Tree>,
)
    requires
        forall|k: int| at <= k < variants.len() ==> lacks((#[trigger] variants[k]).1, field),
    ensures
        fields::field_candidates(variants, field, at, acc) == acc,
    decreases variants.len() - at,
{
    if at < variants.len() {
        assert(lacks(variants[at as int].1, field));
        if let Tree::Node(Head::RecordPayload(names), kids) = variants[at as int].1 {
            none_named(names, kids, field, 0, acc);
        }
        no_candidates(variants, field, at + 1, acc);
    }
}

proof fn one_candidate(
    variants: Seq<(Seq<char>, Tree)>,
    field: Seq<char>,
    at: nat,
    acc: Seq<Tree>,
    k: int,
    names: Seq<Seq<char>>,
    kids: Seq<Tree>,
    i: int,
)
    requires
        at <= k < variants.len(),
        variants[k].1 == Tree::Node(Head::RecordPayload(names), kids),
        names.len() == kids.len(),
        0 <= i < names.len(),
        names[i] == field,
        forall|j: int| 0 <= j < names.len() && j != i ==> #[trigger] names[j] != field,
        forall|j: int|
            0 <= j < variants.len() && j != k ==> lacks((#[trigger] variants[j]).1, field),
    ensures
        fields::field_candidates(variants, field, at, acc) == acc.push(kids[i]),
    decreases variants.len() - at,
{
    if at < k {
        assert(lacks(variants[at as int].1, field));
        if let Tree::Node(Head::RecordPayload(n), q) = variants[at as int].1 {
            none_named(n, q, field, 0, acc);
        }
        one_candidate(variants, field, at + 1, acc, k, names, kids, i);
    } else {
        one_named(names, kids, field, 0, acc, i);
        no_candidates(variants, field, at + 1, acc.push(kids[i]));
    }
}

/// A field that only one variant of an enum has can be read from any value of the
/// enum, with the type that the variant gives it; a field that none has is
/// reported.
pub proof fn fields_of_one_variant_can_be_read(
    c: CheckerV,
    enum_name: Seq<char>,
    variants: Seq<(Seq<char>, Tree)>,
    field: Seq<char>,
    range: Span,
    k: int,
    names: Seq<Seq<char>>,
    kids: Seq<Tree>,
    i: int,
)
    ensures
        0 <= k < variants.len() && variants[k].1 == Tree::Node(Head::RecordPayload(names), kids)
            && names.len() == kids.len() && 0 <= i < names.len() && names[i] == field && (forall|
            j: int,
        |
            0 <= j < names.len() && j != i ==> #[trigger] names[j] != field) && (forall|j: int|
            0 <= j < variants.len() && j != k ==> lacks((#[trigger] variants[j]).1, field))
            ==> c.access_field_in_sum(enum_name, variants, None, field, range) == (c, kids[i]),
        (forall|j: int| 0 <= j < variants.len() ==> lacks((#[trigger] variants[j]).1, field))
            ==> c.access_field_in_sum(
            enum_name,
            variants,
            None,
            field,
            range,
        ).0.messages.len() == c.messages.len() + 1,
{
    if 0 <= k < variants.len() && variants[k].1 == Tree::Node(Head::RecordPayload(names), kids)
        && names.len() == kids.len() && 0 <= i < names.len() && names[i] == field && (forall|
        j: int,
    |
        0 <= j < names.len() && j != i ==> #[trigger] names[j] != field) && (forall|j: int|
        0 <= j < variants.len() && j != k ==> lacks((#[trigger] variants[j]).1, field)) {
        one_candidate(variants, field, 0, Seq::empty(), k, names, kids, i);
    }
    if forall|j: int| 0 <= j < variants.len() ==> lacks((#[trigger] variants[j]).1, field) {
        no_candidates(variants, field, 0, Seq::empty());
    }
}

} // verus!
