//! What the registry answers: enums, classes, imports and foreign types.
use crate::ast::{EnumVariantPayload, Expression, Output};
use crate::env::SchemeV;
use crate::infer::laws::{calls, declarations, typing};
use crate::infer::{builtins, properties, stmts};
use crate::infer::CheckerV;
use crate::report::{ErrorCode, MessageV, Span};
use crate::text;
use crate::tree::{self, Head, Tree};
use crate::virtual_modules::{self, BuiltinExport};
use vstd::prelude::*;

verus! {

/// An enum that is registered answers for each of its variants by its place: its
/// tag, its arity, its name and the types of its parts.
pub proof fn registered_enums_answer(
    c: CheckerV,
    name: Seq<char>,
    variants: Seq<Seq<char>>,
    payloads: Seq<Tree>,
    arities: Seq<usize>,
    i: int,
)
    requires
        name != "FFIType"@,
        name != "ffi::types"@,
        variants.no_duplicates(),
        variants.len() == payloads.len() == arities.len(),
        variants.len() <= u32::MAX,
        0 <= i < variants.len(),
    ensures
        ({
            let d = c.register_enum(name, variants, payloads, arities);
            &&& d.tag_for(name, variants[i]) == Some(i as u32)
            &&& d.arity_for(name, variants[i]) == Some(arities[i])
            &&& d.enum_variants(name) matches Some(vs) && vs.len() == variants.len() && vs[i] == (
            variants[i], i as u32, payloads[i].kids())
            &&& d.payload_tys_for(name, variants[i]).len() == payloads[i].kids().len()
            &&& d.messages == c.messages
        }),
{
    properties::tags_follow_declaration_order(c, name, variants, payloads, arities, i);
}

/// The parts of a payload go by their field names, or by their places in a tuple.
pub proof fn payload_parts_go_by_name(
    c: CheckerV,
    name: Seq<char>,
    variant: Seq<char>,
    tag: u32,
    names: Seq<Seq<char>>,
    kids: Seq<Tree>,
    j: int,
)
    requires
        name != "FFIType"@,
        name != "ffi::types"@,
        c.reg.enum_tags.contains_key(name),
        c.reg.enum_tags[name].contains_key(variant),
        c.reg.enum_tags[name][variant] == tag,
        c.reg.enum_payloads.contains_key(name),
        tag < c.reg.enum_payloads[name].len(),
        0 <= j < kids.len(),
    ensures
        c.reg.enum_payloads[name][tag as int] == Tree::Node(Head::RecordPayload(names), kids)
            ==> c.payload_tys_for(name, variant).len() == kids.len() && c.payload_tys_for(
            name,
            variant,
        )[j] == (names[j], kids[j]),
        c.reg.enum_payloads[name][tag as int] == Tree::Node(Head::TuplePayload, kids)
            ==> c.payload_tys_for(name, variant).len() == kids.len() && c.payload_tys_for(
            name,
            variant,
        )[j] == (text::decimal(j as nat), kids[j]),
{
}

/// The fields of a class are listed in the order of their declaration.
pub proof fn class_fields_are_listed_in_order(c: CheckerV, class: Seq<char>, i: int)
    ensures
        c.reg.classes.contains_key(class) ==> (c.class_fields(class) matches Some(fs) && fs.len()
            == c.reg.classes[class].len() && (0 <= i < fs.len() ==> fs[i] == (
        c.reg.classes[class][i].name, c.reg.classes[class][i].ty))),
        !c.reg.classes.contains_key(class) ==> c.class_fields(class) is None,
{
}

/// A name that is imported stands for what was imported under it; the short name
/// of the same thing is freed, and every other name stays.
pub proof fn imports_bind_their_local_name(
    c: CheckerV,
    local: Seq<char>,
    export: BuiltinExport,
    other: Seq<char>,
)
    ensures
        ({
            let d = c.bind_virtual_export(local, export);
            &&& d.scope_binding(local) == Some(export)
            &&& local != export.spelled() && c.scope_binding(export.spelled()) == Some(export)
                ==> d.scope_binding(export.spelled()) is None
            &&& other != local && other != export.spelled() ==> d.scope_binding(other)
                == c.scope_binding(other)
            &&& d.messages == c.messages
            &&& d.env == c.env
        }),
{
}

proof fn export_from(exports: Seq<BuiltinExport>, name: Seq<char>, i: int)
    requires
        0 <= i < exports.len(),
        exports[i].spelled() == name,
        forall|j: int| 0 <= j < i ==> (#[trigger] exports[j]).spelled() != name,
    ensures
        virtual_modules::named_export(exports, name) == Some(exports[i]),
    decreases exports.len(),
{
    if i > 0 {
        assert(exports[0].spelled() != name);
        let rest = exports.drop_first();
        assert forall|j: int| 0 <= j < i - 1 implies (#[trigger] rest[j]).spelled() != name by {
            assert(rest[j] == exports[j + 1]);
        }
        assert(rest[i - 1] == exports[i]);
        export_from(rest, name, i - 1);
    }
}

/// A `use` of something that a built-in module exports binds it, under the alias
/// where there is one; a path that is no built-in module binds nothing.
pub proof fn uses_bind_what_is_exported(
    c: CheckerV,
    path: Seq<Seq<char>>,
    exports: Seq<BuiltinExport>,
    name: Seq<char>,
    alias: Option<Seq<char>>,
    i: int,
)
    ensures
        virtual_modules::exports_of(path) is None ==> c.apply_virtual_use(path, name, alias) == (
            c,
            false,
        ),
        virtual_modules::exports_of(path) == Some(exports) && name != "*"@ && 0 <= i
            < exports.len() && exports[i].spelled() == name && (forall|j: int|
            0 <= j < i ==> (#[trigger] exports[j]).spelled() != name) ==> {
            let (d, done) = c.apply_virtual_use(path, name, alias);
            &&& done
            &&& alias is None ==> d.scope_binding(name) == Some(exports[i])
            &&& alias matches Some(a) ==> d.scope_binding(a) == Some(exports[i])
        },
{
    if virtual_modules::exports_of(path) == Some(exports) && 0 <= i < exports.len()
        && exports[i].spelled() == name && (forall|j: int|
        0 <= j < i ==> (#[trigger] exports[j]).spelled() != name) {
        export_from(exports, name, i);
        imports_bind_their_local_name(c, name, exports[i], name);
        if let Some(a) = alias {
            imports_bind_their_local_name(c, a, exports[i], a);
        }
    }
}

/// The tag of a foreign type can be read back from what it is packed into.
pub proof fn packed_tags_are_read_back(tag: u32, aux: u32)
    requires
        tag <= 11,
        aux < 0x10000,
    ensures
        builtins::operand_tag(builtins::packed_tag(tag, aux)) == tag,
        aux == 0 ==> builtins::packed_tag(tag, aux) == tag,
        (builtins::packed_tag(tag, aux) >> 16u32) == aux,
{
    assert(tag <= 11 && aux < 0x10000 ==> ((tag | (aux << 16u32)) & 0xFFFFu32) == tag)
        by (bit_vector);
    assert(tag <= 11 && aux < 0x10000 ==> ((tag | (aux << 16u32)) >> 16u32) == aux)
        by (bit_vector);
    assert(tag <= 11 && aux < 0x10000 && aux != 0 ==> (tag | (aux << 16u32)) > 11)
        by (bit_vector);
    assert(tag <= 11 && aux == 0 ==> (tag | (aux << 16u32)) == tag) by (bit_vector);
}

/// Foreign types are typed by what they hold: nothing, a float, a string, a truth
/// value, and an integer for everything else.
pub proof fn foreign_types_have_their_types(tag: u32)
    ensures
        tag == 0 ==> builtins::scalar_ty(tag) == typing::named("unit"@),
        tag == 2 ==> builtins::scalar_ty(tag) == typing::named("float"@),
        tag == 3 ==> builtins::scalar_ty(tag) == typing::named("string"@),
        tag == 4 ==> builtins::scalar_ty(tag) == typing::named("bool"@),
        tag == 1 || tag >= 5 ==> builtins::scalar_ty(tag) == typing::named("int"@),
{
}

proof fn taken_from(c: CheckerV, variants: Seq<Seq<char>>, at: nat)
    requires
        at <= variants.len(),
    ensures
        match c.first_taken(variants, at) {
            Some(v) => variants.contains(v) && c.variant_taken(v),
            None => forall|i: int|
                at <= i < variants.len() ==> !c.variant_taken(#[trigger] variants[i]),
        },
    decreases variants.len() - at,
{
    if at < variants.len() {
        taken_from(c, variants, at + 1);
        assert(variants.contains(variants[at as int]));
    }
}

/// An enum cannot be declared twice, and no variant can be named as one of
/// another enum; anything else is no fault.
pub proof fn repeated_enums_are_faults(
    c: CheckerV,
    name: Seq<char>,
    variants: Seq<Seq<char>>,
    range: Span,
    i: int,
    owner: Seq<char>,
)
    ensures
        c.reg.enums.contains_key(name) ==> (c.enum_fault(name, variants, range) matches Some(m)
            && m.code == ErrorCode::DuplicateEnum && m.range == range),
        !c.reg.enums.contains_key(name) && 0 <= i < variants.len()
            && c.reg.enum_tags.contains_key(owner) && c.reg.enum_tags[owner].contains_key(
            variants[i],
        ) ==> (c.enum_fault(name, variants, range) matches Some(m) && m.code
            == ErrorCode::DuplicateConstructor && m.range == range),
        !c.reg.enums.contains_key(name) && (forall|j: int, o: Seq<char>|
            0 <= j < variants.len() && #[trigger] c.reg.enum_tags.contains_key(o)
                ==> !c.reg.enum_tags[o].contains_key(#[trigger] variants[j])) ==> c.enum_fault(
            name,
            variants,
            range,
        ) is None,
{
    taken_from(c, variants, 0);
    if 0 <= i < variants.len() && c.reg.enum_tags.contains_key(owner)
        && c.reg.enum_tags[owner].contains_key(variants[i]) {
        assert(c.variant_taken(variants[i]));
    }
    if let Some(v) = c.first_taken(variants, 0) {
        let j = choose|j: int| 0 <= j < variants.len() && variants[j] == v;
        let o = choose|o: Seq<char>|
            c.reg.enum_tags.contains_key(o) && (#[trigger] c.reg.enum_tags[o]).contains_key(v);
        assert(c.reg.enum_tags.contains_key(o) && c.reg.enum_tags[o].contains_key(variants[j]));
    }
}

/// An enum without type parameters is registered with the variants and payloads
/// that are read for it, and nothing is said; one with a fault is not, and its
/// fault is added.
pub proof fn enums_are_declared_once(
    c: CheckerV,
    name: Seq<char>,
    variants: Seq<Output>,
    range: Span,
    errs: Seq<MessageV>,
)
    requires
        name != "Option"@,
        name != "Result"@,
        name != "FFIType"@,
        name != "ffi::types"@,
        !c.reg.generics.generic_type_ctors.contains_key(name),
    ensures
        ({
            let (b, names, payloads) = c.read_variants(variants, 0, Seq::empty(), Seq::empty());
            let (d, all) = c.declare_enum(name, Seq::empty(), variants, range, errs);
            &&& b.enum_fault(name, names, range) is None ==> {
                &&& all == errs
                &&& d.reg.enums.contains_key(name) && d.reg.enums[name] == names
                &&& d.reg.enum_payloads.contains_key(name) && d.reg.enum_payloads[name] == payloads
                &&& d.reg.generics.nominal_type_modules.contains_key(name)
            }
            &&& b.enum_fault(name, names, range) matches Some(m) ==> all == errs.push(m)
                && d.reg.enums == b.reg.enums && d.reg.enum_tags == b.reg.enum_tags
                && d.reg.enum_payloads == b.reg.enum_payloads
        }),
{
}

proof fn variants_from(
    c: CheckerV,
    variants: Seq<Output>,
    v: Output,
    name: String,
    payload: EnumVariantPayload,
    at: nat,
    names: Seq<Seq<char>>,
    payloads: Seq<Tree>,
)
    requires
        at <= variants.len(),
        *v.expr == (Expression::EnumVariant { name, payload }),
    ensures
        ({
            let (b, ns, ps) = c.read_variants(variants, at, names, payloads);
            let (d, p) = b.read_payload(payload);
            c.read_variants(variants.push(v), at, names, payloads) == (
                d,
                ns.push(name@),
                ps.push(p),
            )
        }),
    decreases variants.len() - at,
{
    let more = variants.push(v);
    if at < variants.len() {
        assert(more[at as int] == variants[at as int]);
        match *variants[at as int].expr {
            Expression::EnumVariant { name: n, payload: q } => {
                let (b, p) = c.read_payload(q);
                variants_from(
                    b,
                    variants,
                    v,
                    name,
                    payload,
                    at + 1,
                    names.push(n@),
                    payloads.push(p),
                );
            },
            _ => {
                variants_from(c, variants, v, name, payload, at + 1, names, payloads);
            },
        }
    } else {
        assert(more[at as int] == v);
        let (b, p) = c.read_payload(payload);
        assert(b.read_variants(more, at + 1, names.push(name@), payloads.push(p)) == (
            b,
            names.push(name@),
            payloads.push(p),
        ));
    }
}

/// The variants of an enum are read in the order of their declaration, each with
/// its own payload.
pub proof fn variants_are_read_in_order(
    c: CheckerV,
    variants: Seq<Output>,
    v: Output,
    name: String,
    payload: EnumVariantPayload,
)
    requires
        *v.expr == (Expression::EnumVariant { name, payload }),
    ensures
        ({
            let (b, ns, ps) = c.read_variants(variants, 0, Seq::empty(), Seq::empty());
            let (d, p) = b.read_payload(payload);
            c.read_variants(variants.push(v), 0, Seq::empty(), Seq::empty()) == (
                d,
                ns.push(name@),
                ps.push(p),
            )
        }),
{
    variants_from(c, variants, v, name, payload, 0, Seq::empty(), Seq::empty());
}

/// Two names in one place are joined to two different names.
proof fn joined_names_differ(name: Seq<char>, a: Seq<char>, b: Seq<char>)
    requires
        a != b,
    ensures
        name + "::"@ + a != name + "::"@ + b,
{
    let x = name + "::"@ + a;
    let y = name + "::"@ + b;
    let n = (name + "::"@).len() as int;
    if x == y {
        assert(a =~= x.subrange(n, x.len() as int));
        assert(b =~= y.subrange(n, y.len() as int));
    }
}

proof fn later_constructors(
    c: CheckerV,
    name: Seq<char>,
    variants: Seq<(Seq<char>, Tree)>,
    at: nat,
    i: int,
)
    requires
        0 <= i < at,
        at <= variants.len(),
        forall|j: int| at <= j < variants.len() ==> (#[trigger] variants[j]).0 != variants[i].0,
    ensures
        c.bind_ctors(name, variants, at).lookup(name + "::"@ + variants[i].0) == c.lookup(
            name + "::"@ + variants[i].0,
        ),
    decreases variants.len() - at,
{
    if at < variants.len() {
        let (v, p) = variants[at as int];
        let t = builtins::curried(
            p.kids(),
            stmts::constructor_tree(
                stmts::sum_tree(name, variants),
                at as u32,
                p.kids().len() as usize,
            ),
        );
        assert(variants[at as int].0 != variants[i].0);
        joined_names_differ(name, v, variants[i].0);
        properties::latest_binding_wins(
            c,
            name + "::"@ + v,
            SchemeV::mono(t),
            name + "::"@ + variants[i].0,
        );
        later_constructors(
            c.bind(name + "::"@ + v, SchemeV::mono(t)),
            name,
            variants,
            at + 1,
            i,
        );
    }
}

proof fn constructors_from(
    c: CheckerV,
    name: Seq<char>,
    variants: Seq<(Seq<char>, Tree)>,
    at: nat,
    i: int,
)
    requires
        at <= i < variants.len(),
        forall|j: int| i < j < variants.len() ==> (#[trigger] variants[j]).0 != variants[i].0,
    ensures
        c.bind_ctors(name, variants, at).lookup(name + "::"@ + variants[i].0) == Some(
            SchemeV::mono(
                builtins::curried(
                    variants[i].1.kids(),
                    stmts::constructor_tree(
                        stmts::sum_tree(name, variants),
                        i as u32,
                        variants[i].1.kids().len() as usize,
                    ),
                ),
            ),
        ),
    decreases variants.len() - at,
{
    let (v, p) = variants[at as int];
    let t = builtins::curried(
        p.kids(),
        stmts::constructor_tree(
            stmts::sum_tree(name, variants),
            at as u32,
            p.kids().len() as usize,
        ),
    );
    let d = c.bind(name + "::"@ + v, SchemeV::mono(t));
    if at < i {
        constructors_from(d, name, variants, at + 1, i);
    } else {
        properties::latest_binding_wins(
            c,
            name + "::"@ + v,
            SchemeV::mono(t),
            name + "::"@ + v,
        );
        later_constructors(d, name, variants, at + 1, i);
    }
}

/// A variant of an enum is a function: it takes the parts of its payload and
/// gives a value of the enum that is known to be of this variant.
pub proof fn constructors_take_their_payload(
    c: CheckerV,
    name: Seq<char>,
    variants: Seq<(Seq<char>, Tree)>,
    names: Seq<Seq<char>>,
    payloads: Seq<Tree>,
    i: int,
)
    requires
        0 <= i < variants.len(),
        names.len() == variants.len(),
        payloads.len() == variants.len(),
        forall|j: int| 0 <= j < variants.len() ==> #[trigger] names[j] == variants[j].0,
        forall|j: int| 0 <= j < variants.len() ==> #[trigger] payloads[j] == variants[j].1,
        forall|j: int| i < j < variants.len() ==> (#[trigger] variants[j]).0 != variants[i].0,
    ensures
        c.bind_enum(name, variants).lookup(name + "::"@ + variants[i].0) == Some(
            SchemeV::mono(
                calls::taking(
                    payloads[i].kids(),
                    Tree::Node(
                        Head::Constructor(i as u32, payloads[i].kids().len() as usize),
                        seq![Tree::Node(Head::Sum(name, names), payloads)],
                    ),
                ),
            ),
        ),
        c.bind_enum(name, variants).messages == c.messages,
{
    let d = c.bind(name, SchemeV::mono(Tree::con(name)));
    constructors_from(d, name, variants, 0, i);
    constructors_only_bind(d, name, variants, 0);
    assert(tree::names_of(variants) =~= names);
    assert(tree::trees_of(variants) =~= payloads);
    declarations::curried_is_taking(
        payloads[i].kids(),
        Tree::Node(
            Head::Constructor(i as u32, payloads[i].kids().len() as usize),
            seq![Tree::Node(Head::Sum(name, names), payloads)],
        ),
    );
}

proof fn constructors_only_bind(
    c: CheckerV,
    name: Seq<char>,
    variants: Seq<(Seq<char>, Tree)>,
    at: nat,
)
    ensures
        c.bind_ctors(name, variants, at).messages == c.messages,
    decreases variants.len() - at,
{
    if at < variants.len() {
        let (v, p) = variants[at as int];
        let t = builtins::curried(
            p.kids(),
            stmts::constructor_tree(
                stmts::sum_tree(name, variants),
                at as u32,
                p.kids().len() as usize,
            ),
        );
        constructors_only_bind(
            c.bind(name + "::"@ + v, SchemeV::mono(t)),
            name,
            variants,
            at + 1,
        );
    }
}

} // verus!
