//! Fields of enums, classes and records; the error modes of functions.
use crate::infer::enums::{self, build_record_field_hint, is_option_ty, is_result_ty, option_inner, payload_kind_name, result_ok_err, subst_ty_params};
use crate::infer::{Checker, CheckerV, ClassField, ClassFieldV, CtxV};
use crate::maps::Dup;
use crate::report::{ErrorCode, Span};
use crate::text::{self, cat2, cat3, cat5, cat7, join_with, number, parse_index, same_text};
use crate::tree::{self, Head, Tree};
use crate::ty::{EnumVariantPayloadTy, Ty, option_ty, result_ty};
use vstd::prelude::*;

verus! {

broadcast use crate::tree::group_shapes;

/// The place of `name` in a list of names, from place `at` on.
pub open spec fn name_place(names: Seq<Seq<char>>, name: Seq<char>, at: nat) -> Option<usize>
    decreases names.len() - at,
{
    if at >= names.len() {
        None
    } else if names[at as int] == name {
        Some(at as usize)
    } else {
        name_place(names, name, at + 1)
    }
}

/// The place of the field `name`.
pub fn find_field(fields: &Vec<(String, Ty)>, name: &str) -> (r: Option<usize>)
    ensures
        r == name_place(tree::names_of(fields.deep_view()), name@, 0),
        match r {
            Some(i) => i < fields@.len(),
            None => true,
        },
{
    let ghost all = tree::names_of(fields.deep_view());
    let mut i: usize = 0;
    while i < fields.len()
        invariant
            i <= fields.len(),
            all == tree::names_of(fields.deep_view()),
            name_place(all, name@, 0) == name_place(all, name@, i as nat),
        decreases fields.len() - i,
    {
        assert(all[i as int] == fields@[i as int].0@);
        if same_text(fields[i].0.as_str(), name) {
            return Some(i);
        }
        i += 1;
    }
    None
}

/// The place of the field in a payload: by name in a record, by number in a tuple.
pub open spec fn payload_place(p: Tree, field: Seq<char>) -> Option<usize> {
    match p {
        Tree::Node(Head::RecordPayload(names), _) => name_place(names, field, 0),
        Tree::Node(Head::TuplePayload, kids) => match text::parsed_index(field) {
            Some(i) => if i < kids.len() {
                Some(i)
            } else {
                None
            },
            None => None,
        },
        _ => None,
    }
}

/// The place and the type of the field in a payload.
pub fn find_in_payload<'a>(p: &'a EnumVariantPayloadTy, field: &str) -> (r: Option<(usize, &'a Ty)>)
    ensures
        match r {
            Some((i, t)) => payload_place(p@, field@) == Some(i) && i < p@.kids().len()
                && p@.kids()[i as int] == t@,
            None => payload_place(p@, field@) is None,
        },
{
    match p {
        EnumVariantPayloadTy::Unit => None,
        EnumVariantPayloadTy::Tuple(items) => match parse_index(field) {
            Some(i) => if i < items.len() {
                assert(p@.kids()[i as int] == items@[i as int]@);
                Some((i, &items[i]))
            } else {
                None
            },
            None => None,
        },
        EnumVariantPayloadTy::Record(fields) => match find_field(fields, field) {
            Some(i) => {
                assert(p@.kids()[i as int] == fields@[i as int].1@);
                Some((i, &fields[i].1))
            },
            None => None,
        },
    }
}

/// The first record variant that declares the field, and the field's place in it.
pub open spec fn record_slot(payloads: Seq<Tree>, field: Seq<char>, at: nat) -> Option<(usize, usize)>
    decreases payloads.len() - at,
{
    if at >= payloads.len() {
        None
    } else {
        let p = payloads[at as int];
        match (p is Node && p.head() is RecordPayload, payload_place(p, field)) {
            (true, Some(j)) => Some((at as usize, j)),
            _ => record_slot(payloads, field, at + 1),
        }
    }
}

/// The tuple variants that have the place `idx`.
pub open spec fn tuple_slots(payloads: Seq<Tree>, idx: usize, at: nat, acc: Seq<usize>) -> Seq<usize>
    decreases payloads.len() - at,
{
    if at >= payloads.len() {
        acc
    } else {
        let p = payloads[at as int];
        tuple_slots(
            payloads,
            idx,
            at + 1,
            if p is Node && p.head() is TuplePayload && idx < p.kids().len() {
                acc.push(at as usize)
            } else {
                acc
            },
        )
    }
}

/// The variant that has the field, and the field's place in it: the first record
/// variant that declares it, else the only tuple variant with that place.
pub open spec fn field_slot(payloads: Seq<Tree>, field: Seq<char>) -> Option<(usize, usize)> {
    match record_slot(payloads, field, 0) {
        Some(s) => Some(s),
        None => match text::parsed_index(field) {
            Some(idx) => {
                let s = tuple_slots(payloads, idx, 0, Seq::empty());
                if s.len() == 1 {
                    Some((s[0], idx))
                } else {
                    None
                }
            },
            None => None,
        },
    }
}

fn find_record_slot(payloads: &Vec<EnumVariantPayloadTy>, field: &str) -> (r: Option<(usize, usize)>)
    ensures
        r == record_slot(payloads.deep_view(), field@, 0),
        match r {
            Some((i, j)) => i < payloads@.len() && j < payloads@[i as int]@.kids().len(),
            None => true,
        },
{
    let ghost all = payloads.deep_view();
    let mut i: usize = 0;
    while i < payloads.len()
        invariant
            i <= payloads.len(),
            all == payloads.deep_view(),
            record_slot(all, field@, 0) == record_slot(all, field@, i as nat),
        decreases payloads.len() - i,
    {
        assert(all[i as int] == payloads@[i as int]@);
        if matches!(&payloads[i], EnumVariantPayloadTy::Record(_)) {
            if let Some((j, _)) = find_in_payload(&payloads[i], field) {
                return Some((i, j));
            }
        }
        i += 1;
    }
    None
}

fn find_tuple_slot(payloads: &Vec<EnumVariantPayloadTy>, idx: usize) -> (r: Option<usize>)
    ensures
        r == (if tuple_slots(payloads.deep_view(), idx, 0, Seq::empty()).len() == 1 {
            Some(tuple_slots(payloads.deep_view(), idx, 0, Seq::empty())[0])
        } else {
            None
        }),
        match r {
            Some(i) => i < payloads@.len() && idx < payloads@[i as int]@.kids().len(),
            None => true,
        },
{
    let ghost all = payloads.deep_view();
    let mut found: Vec<usize> = Vec::new();
    assert(found@ =~= Seq::<usize>::empty());
    let ghost whole = tuple_slots(all, idx, 0, Seq::empty());
    let mut i: usize = 0;
    while i < payloads.len()
        invariant
            i <= payloads.len(),
            all == payloads.deep_view(),
            whole == tuple_slots(all, idx, i as nat, found@),
            forall|k: int|
                0 <= k < found@.len() ==> (#[trigger] found@[k]) < payloads@.len() && idx
                    < payloads@[found@[k] as int]@.kids().len(),
        decreases payloads.len() - i,
    {
        assert(all[i as int] == payloads@[i as int]@);
        if let EnumVariantPayloadTy::Tuple(items) = &payloads[i] {
            if idx < items.len() {
                found.push(i);
            }
        }
        i += 1;
    }
    if found.len() == 1 {
        Some(found[0])
    } else {
        None
    }
}

/// The variant that has the field, and the field's place in it.
pub fn find_field_slot(payloads: &Vec<EnumVariantPayloadTy>, field: &str) -> (r: Option<
    (usize, usize),
>)
    ensures
        r == field_slot(payloads.deep_view(), field@),
        match r {
            Some((i, j)) => i < payloads@.len() && j < payloads@[i as int]@.kids().len(),
            None => true,
        },
{
    match find_record_slot(payloads, field) {
        Some(s) => Some(s),
        None => match parse_index(field) {
            Some(idx) => match find_tuple_slot(payloads, idx) {
                Some(i) => Some((i, idx)),
                None => None,
            },
            None => None,
        },
    }
}

/// The types of the fields called `name`, from place `at` on.
pub open spec fn all_named(
    names: Seq<Seq<char>>,
    kids: Seq<Tree>,
    name: Seq<char>,
    at: nat,
    acc: Seq<Tree>,
) -> Seq<Tree>
    decreases kids.len() - at,
{
    if at >= kids.len() {
        acc
    } else {
        all_named(
            names,
            kids,
            name,
            at + 1,
            if names[at as int] == name {
                acc.push(kids[at as int])
            } else {
                acc
            },
        )
    }
}

/// The types that the field may have, over the variants from place `at` on.
pub open spec fn field_candidates(
    variants: Seq<(Seq<char>, Tree)>,
    field: Seq<char>,
    at: nat,
    acc: Seq<Tree>,
) -> Seq<Tree>
    decreases variants.len() - at,
{
    if at >= variants.len() {
        acc
    } else {
        let p = variants[at as int].1;
        let next = match p {
            Tree::Node(Head::RecordPayload(names), kids) => all_named(names, kids, field, 0, acc),
            _ => match payload_place(p, field) {
                Some(i) => acc.push(p.kids()[i as int]),
                None => acc,
            },
        };
        field_candidates(variants, field, at + 1, next)
    }
}

fn push_named(fields: &Vec<(String, Ty)>, name: &str, acc: &mut Vec<Ty>)
    ensures
        final(acc).deep_view() == all_named(
            tree::names_of(fields.deep_view()),
            tree::trees_of(fields.deep_view()),
            name@,
            0,
            old(acc).deep_view(),
        ),
{
    let ghost names = tree::names_of(fields.deep_view());
    let ghost kids = tree::trees_of(fields.deep_view());
    let ghost whole = all_named(names, kids, name@, 0, acc.deep_view());
    let mut i: usize = 0;
    while i < fields.len()
        invariant
            i <= fields.len(),
            names == tree::names_of(fields.deep_view()),
            kids == tree::trees_of(fields.deep_view()),
            whole == all_named(names, kids, name@, i as nat, acc.deep_view()),
        decreases fields.len() - i,
    {
        assert(names[i as int] == fields@[i as int].0@);
        assert(kids[i as int] == fields@[i as int].1@);
        let ghost before = acc.deep_view();
        if same_text(fields[i].0.as_str(), name) {
            let t = fields[i].1.clone();
            acc.push(t);
            assert(acc.deep_view() =~= before.push(t@));
        }
        i += 1;
    }
}

fn candidates_of_field(variants: &Vec<(String, EnumVariantPayloadTy)>, field: &str) -> (r: Vec<Ty>)
    ensures
        r.deep_view() == field_candidates(variants.deep_view(), field@, 0, Seq::empty()),
{
    let ghost all = variants.deep_view();
    let mut acc: Vec<Ty> = Vec::new();
    assert(acc.deep_view() =~= Seq::<Tree>::empty());
    let ghost whole = field_candidates(all, field@, 0, Seq::empty());
    let mut i: usize = 0;
    while i < variants.len()
        invariant
            i <= variants.len(),
            all == variants.deep_view(),
            whole == field_candidates(all, field@, i as nat, acc.deep_view()),
        decreases variants.len() - i,
    {
        assert(all[i as int] == (variants@[i as int].0@, variants@[i as int].1@));
        let ghost before = acc.deep_view();
        match &variants[i].1 {
            EnumVariantPayloadTy::Record(fields) => {
                push_named(fields, field, &mut acc);
            },
            other => {
                if let Some((_, t)) = find_in_payload(other, field) {
                    let u = t.clone();
                    acc.push(u);
                    assert(acc.deep_view() =~= before.push(u@));
                }
            },
        }
        i += 1;
    }
    acc
}

/// The place of a class field, from place `at` on.
pub open spec fn class_field_place(fields: Seq<ClassFieldV>, name: Seq<char>, at: nat) -> Option<usize>
    decreases fields.len() - at,
{
    if at >= fields.len() {
        None
    } else if fields[at as int].name == name {
        Some(at as usize)
    } else {
        class_field_place(fields, name, at + 1)
    }
}

/// The place of a class field.
pub fn find_class_field(fields: &Vec<ClassField>, name: &str) -> (r: Option<usize>)
    ensures
        r == class_field_place(fields.deep_view(), name@, 0),
        match r {
            Some(i) => i < fields@.len(),
            None => true,
        },
{
    let ghost all = fields.deep_view();
    let mut i: usize = 0;
    while i < fields.len()
        invariant
            i <= fields.len(),
            all == fields.deep_view(),
            class_field_place(all, name@, 0) == class_field_place(all, name@, i as nat),
        decreases fields.len() - i,
    {
        assert(all[i as int] == fields@[i as int]@);
        if same_text(fields[i].name.as_str(), name) {
            return Some(i);
        }
        i += 1;
    }
    None
}

/// The names of class fields.
pub open spec fn class_field_names(fields: Seq<ClassFieldV>) -> Seq<Seq<char>> {
    Seq::new(fields.len(), |i: int| fields[i].name)
}

fn names_of_class_fields(fields: &Vec<ClassField>) -> (r: Vec<String>)
    ensures
        r.deep_view() == class_field_names(fields.deep_view()),
{
    let ghost all = class_field_names(fields.deep_view());
    let mut r: Vec<String> = Vec::new();
    let mut i: usize = 0;
    while i < fields.len()
        invariant
            i <= fields.len(),
            all == class_field_names(fields.deep_view()),
            r.deep_view() == all.take(i as int),
        decreases fields.len() - i,
    {
        let ghost before = r.deep_view();
        let x = fields[i].name.clone();
        r.push(x);
        assert(fields.deep_view()[i as int] == fields@[i as int]@);
        assert(r.deep_view() =~= before.push(x@));
        i += 1;
        assert(r.deep_view() =~= all.take(i as int));
    }
    assert(r.deep_view() =~= all);
    r
}

/// One less, but not below zero.
pub open spec fn one_less(n: nat) -> nat {
    if n == 0 {
        0
    } else {
        (n - 1) as nat
    }
}

impl CheckerV {
    /// The declared type of a class field.
    pub open spec fn class_field_ty(self, class: Seq<char>, field: Seq<char>) -> Option<Tree> {
        if self.reg.classes.contains_key(class) {
            match class_field_place(self.reg.classes[class], field, 0) {
                Some(i) => Some(self.reg.classes[class][i as int].ty),
                None => None,
            }
        } else {
            None
        }
    }

    /// The type of a field of an enum.
    pub open spec fn field_type_for(self, enum_name: Seq<char>, field: Seq<char>) -> Option<Tree> {
        if self.reg.enum_payloads.contains_key(enum_name) {
            let payloads = self.reg.enum_payloads[enum_name];
            match field_slot(payloads, field) {
                Some((i, j)) => Some(payloads[i as int].kids()[j as int]),
                None => None,
            }
        } else {
            None
        }
    }

    /// The variant and the place of a field of an enum.
    pub open spec fn field_index_for(self, enum_name: Seq<char>, field: Seq<char>) -> Option<
        (Seq<char>, u16),
    > {
        if self.reg.enum_payloads.contains_key(enum_name) && self.reg.enums.contains_key(
            enum_name,
        ) {
            match field_slot(self.reg.enum_payloads[enum_name], field) {
                Some((i, j)) => {
                    let names = self.reg.enums[enum_name];
                    Some(
                        (
                            if i < names.len() {
                                names[i as int]
                            } else {
                                "variant_"@ + text::decimal(i as nat)
                            },
                            j as u16,
                        ),
                    )
                },
                None => None,
            }
        } else {
            None
        }
    }

    /// A field that an enum does not have is reported.
    pub open spec fn no_such_field(
        self,
        enum_name: Seq<char>,
        variants: Seq<(Seq<char>, Tree)>,
        field: Seq<char>,
        range: Span,
    ) -> (CheckerV, Tree) {
        self.error_with_help(
            ErrorCode::GenericTypeError,
            "Type `"@ + enum_name + "` has no field `"@ + field + "`"@,
            range,
            enums::record_field_hint(enum_name, variants),
        )
    }

    /// A field of the variant with a known tag.
    pub open spec fn access_field_in_variant(
        self,
        enum_name: Seq<char>,
        variants: Seq<(Seq<char>, Tree)>,
        tag: u32,
        field: Seq<char>,
        range: Span,
    ) -> (CheckerV, Tree) {
        if tag >= variants.len() {
            self.error_with_help(
                ErrorCode::GenericTypeError,
                "Cannot access field `"@ + field + "` on non-record type"@,
                range,
                "only values of record-shaped enum types expose fields"@,
            )
        } else {
            let (name, p) = variants[tag as int];
            match (payload_place(p, field), p) {
                (Some(i), _) => (self, p.kids()[i as int]),
                (None, Tree::Node(Head::RecordPayload(_), _)) => self.no_such_field(
                    enum_name,
                    variants,
                    field,
                    range,
                ),
                (None, Tree::Node(Head::TuplePayload, kids)) => self.error_with_help(
                    ErrorCode::GenericTypeError,
                    "Cannot access field `"@ + field + "` on tuple variant"@,
                    range,
                    "variant `"@ + enum_name + "::"@ + name + "` is a "@ + text::decimal(kids.len())
                        + "-tuple; use a match binding or index 0.."@ + text::decimal(
                        one_less(kids.len()),
                    ),
                ),
                (None, _) => self.error_with_help(
                    ErrorCode::GenericTypeError,
                    "Cannot access field `"@ + field + "` on non-record variant"@,
                    range,
                    "variant `"@ + enum_name + "::"@ + name + "` is "@ + enums::payload_kind(p)
                        + "; only record-shaped variants expose named fields"@,
                ),
            }
        }
    }

    /// A field of an enum value; the tag is known where the value was built in
    /// sight.
    pub open spec fn access_field_in_sum(
        self,
        enum_name: Seq<char>,
        variants: Seq<(Seq<char>, Tree)>,
        tag: Option<u32>,
        field: Seq<char>,
        range: Span,
    ) -> (CheckerV, Tree) {
        match tag {
            Some(tag) => self.access_field_in_variant(enum_name, variants, tag, field, range),
            None => {
                let found = field_candidates(variants, field, 0, Seq::empty());
                if found.len() == 0 {
                    self.no_such_field(enum_name, variants, field, range)
                } else if found.len() == 1 {
                    (self, found[0])
                } else {
                    let (c, _) = self.error_with_help(
                        ErrorCode::GenericTypeError,
                        "Field `"@ + field + "` exists in multiple variants of `"@ + enum_name
                            + "`; narrow with match first"@,
                        range,
                        "field access requires a unique field type; use a `match` to determine the active variant before reading the field"@,
                    );
                    (c, found[0])
                }
            },
        }
    }

    /// A field of a class instance.
    pub open spec fn access_class_field(
        self,
        class: Seq<char>,
        field: Seq<char>,
        args: Seq<Tree>,
        range: Span,
    ) -> (CheckerV, Tree) {
        let message = "Cannot find field `"@ + field + "` on class `"@ + class + "`"@;
        if !self.reg.classes.contains_key(class) {
            self.error(ErrorCode::UnknownField, message, range)
        } else {
            let fields = self.reg.classes[class];
            match class_field_place(fields, field, 0) {
                None => self.error_with_help(
                    ErrorCode::UnknownField,
                    message,
                    range,
                    "the class has fields: "@ + text::joined(class_field_names(fields), ", "@),
                ),
                Some(i) => {
                    let params = self.ctor_params(class);
                    let t = fields[i as int].ty;
                    if params.len() == 0 {
                        (self, t)
                    } else if args.len() == 0 {
                        let (c, fresh) = self.fresh_args(params.len());
                        (c, enums::with_params(t, params, fresh))
                    } else {
                        (self, enums::with_params(t, params, args))
                    }
                },
            }
        }
    }

    /// The type of `t.field`.
    pub open spec fn field_type_from_ty(self, t: Tree, field: Seq<char>, range: Span) -> (
        CheckerV,
        Tree,
    ) {
        let r = self.resolve(t);
        match r {
            Tree::Node(Head::Sum(name, tags), kids) => self.access_field_in_sum(
                name,
                enums::sum_variants(tags, kids),
                None,
                field,
                range,
            ),
            Tree::Node(Head::Constructor(tag, _), owner) => match owner[0] {
                Tree::Node(Head::Sum(name, tags), kids) => self.access_field_in_sum(
                    name,
                    enums::sum_variants(tags, kids),
                    Some(tag),
                    field,
                    range,
                ),
                _ => self.error(
                    ErrorCode::UnknownField,
                    "Cannot access field `"@ + field + "`"@,
                    range,
                ),
            },
            Tree::Node(Head::Record(names), kids) => match name_place(names, field, 0) {
                Some(i) => (self, kids[i as int]),
                None => self.error(
                    ErrorCode::UnknownField,
                    "Cannot find field `"@ + field + "` on record"@,
                    range,
                ),
            },
            Tree::Node(Head::Con(name), _) => match (
                self.class_field_ty(name, field),
                self.field_type_for(name, field),
            ) {
                (Some(f), _) => (self, f),
                (None, Some(f)) => (self, f),
                (None, None) => self.error(
                    ErrorCode::UnknownField,
                    "Cannot find field `"@ + field + "` on `"@ + name + "`"@,
                    range,
                ),
            },
            Tree::Var(_) => {
                let (c, f) = self.fresh();
                let c = c.unify(
                    r,
                    Tree::Node(Head::Record(seq![field]), seq![f]),
                    range,
                    "optional access field on unpinned Option payload"@,
                ).0;
                (c, f)
            },
            _ => self.error(
                ErrorCode::UnknownField,
                "Cannot access field `"@ + field + "` on non-record type"@,
                range,
            ),
        }
    }

    /// The function that is being checked fails with `err`: its success type.
    pub open spec fn ensure_result_mode(self, err: Tree, range: Span) -> (CheckerV, Tree) {
        if self.ctx.option_mode is Some {
            self.error(
                ErrorCode::ConflictingErrorType,
                "cannot mix Option `?` and Result `raise`/`?` in the same function"@,
                range,
            )
        } else {
            match (self.ctx.result_mode, self.ctx.return_ty) {
                (Some((ok, known)), _) => {
                    let c = self.unify(known, err, range, "error type"@).0;
                    (c, c.resolve(ok))
                },
                (None, Some(ret)) => {
                    let r = self.resolve(ret);
                    match enums::result_items(r) {
                        Some((ok, known)) => {
                            let c = CheckerV {
                                ctx: CtxV { result_mode: Some((ok, known)), ..self.ctx },
                                ..self
                            };
                            let c = c.unify(known, err, range, "error type"@).0;
                            (
                                CheckerV { ctx: CtxV { return_ty: Some(ok), ..c.ctx }, ..c },
                                ok,
                            )
                        },
                        None => if enums::is_option(r) {
                            self.error(
                                ErrorCode::ConflictingErrorType,
                                "function returns Option; cannot use Result `raise`/`?`"@,
                                range,
                            )
                        } else {
                            let (c, ok) = self.fresh();
                            let c = c.unify(
                                ret,
                                Tree::result_sum(ok, err),
                                range,
                                "result return type"@,
                            ).0;
                            (
                                CheckerV {
                                    ctx: CtxV {
                                        result_mode: Some((ok, err)),
                                        return_ty: Some(ok),
                                        ..c.ctx
                                    },
                                    ..c
                                },
                                ok,
                            )
                        },
                    }
                },
                (None, None) => self.error(
                    ErrorCode::InvalidTry,
                    "`raise` / `?` outside of a function"@,
                    range,
                ),
            }
        }
    }

    /// The function that is being checked may return nothing, else `item`.
    pub open spec fn ensure_option_mode(self, item: Tree, range: Span) -> CheckerV {
        if self.ctx.result_mode is Some {
            self.error(
                ErrorCode::ConflictingErrorType,
                "cannot mix Result `raise`/`?` and Option `?` in the same function"@,
                range,
            ).0
        } else {
            match (self.ctx.option_mode, self.ctx.return_ty) {
                (Some(known), _) => self.unify(known, item, range, "option payload"@).0,
                (None, Some(ret)) => {
                    let r = self.resolve(ret);
                    if enums::is_option(r) {
                        let c = match enums::option_item(r) {
                            Some(known) => self.unify(known, item, range, "option payload"@).0,
                            None => self,
                        };
                        CheckerV { ctx: CtxV { option_mode: Some(item), ..c.ctx }, ..c }
                    } else if enums::is_result(r) {
                        self.error(
                            ErrorCode::ConflictingErrorType,
                            "function returns Result; cannot use Option `?`"@,
                            range,
                        ).0
                    } else {
                        let c = self.unify(
                            ret,
                            Tree::option_sum(item),
                            range,
                            "option return type"@,
                        ).0;
                        CheckerV { ctx: CtxV { option_mode: Some(item), ..c.ctx }, ..c }
                    }
                },
                (None, None) => self.error(
                    ErrorCode::InvalidTry,
                    "`?` outside of a function"@,
                    range,
                ).0,
            }
        }
    }
}

/// A record type with one field.
pub fn record1(name: &str, t: Ty) -> (r: Ty)
    ensures
        r@ == Tree::Node(Head::Record(seq![name@]), seq![t@]),
{
    let mut fields: Vec<(String, Ty)> = Vec::new();
    fields.push((name.to_owned(), t));
    let r = Ty::Record { fields };
    assert(tree::names_of(fields.deep_view()) =~= seq![name@]);
    assert(tree::trees_of(fields.deep_view()) =~= seq![t@]);
    r
}

impl Checker {
    /// Declared type of a class field.
    pub fn class_field_ty(&self, class: &str, field: &str) -> (r: Option<&Ty>)
        ensures
            match r {
                Some(t) => self@.class_field_ty(class@, field@) == Some(t@),
                None => self@.class_field_ty(class@, field@) is None,
            },
    {
        match self.reg.classes.get(class) {
            Some(fields) => match find_class_field(fields, field) {
                Some(i) => {
                    assert(fields.deep_view()[i as int] == fields@[i as int]@);
                    Some(&fields[i].ty)
                },
                None => None,
            },
            None => None,
        }
    }

    /// Record or tuple-payload field type by enum and field name.
    pub fn field_type_for(&self, enum_name: &str, field: &str) -> (r: Option<Ty>)
        ensures
            r.deep_view() == self@.field_type_for(enum_name@, field@),
    {
        match self.reg.enum_payloads.get(enum_name) {
            Some(payloads) => match find_field_slot(payloads, field) {
                Some((i, j)) => {
                    assert(payloads.deep_view()[i as int] == payloads@[i as int]@);
                    Some(nth_payload_ty(&payloads[i], j))
                },
                None => None,
            },
            None => None,
        }
    }

    /// Field index in a record-shaped variant, or in the only tuple variant that
    /// has a place of that number.
    pub fn field_index_for(&self, enum_name: &str, field: &str) -> (r: Option<(String, u16)>)
        ensures
            match r {
                Some((name, i)) => self@.field_index_for(enum_name@, field@) == Some((name@, i)),
                None => self@.field_index_for(enum_name@, field@) is None,
            },
    {
        match (self.reg.enum_payloads.get(enum_name), self.reg.enums.get(enum_name)) {
            (Some(payloads), Some(names)) => match find_field_slot(payloads, field) {
                Some((i, j)) => {
                    let name = if i < names.len() {
                        assert(names.deep_view()[i as int] == names@[i as int]@);
                        names[i].clone()
                    } else {
                        let n = number(i);
                        cat2("variant_", n.as_str())
                    };
                    Some((name, j as u16))
                },
                None => None,
            },
            _ => None,
        }
    }

    fn no_such_field(
        &mut self,
        enum_name: &str,
        variants: &Vec<(String, EnumVariantPayloadTy)>,
        field: &str,
        range: Span,
    ) -> (r: Ty)
        ensures
            (final(self)@, r@) == old(self)@.no_such_field(
                enum_name@,
                variants.deep_view(),
                field@,
                range,
            ),
    {
        let hint = match build_record_field_hint(enum_name, variants) {
            Some(h) => h,
            None => String::new(),
        };
        self.error_with_help(
            ErrorCode::GenericTypeError,
            cat5("Type `", enum_name, "` has no field `", field, "`"),
            range,
            hint,
        )
    }

    fn access_field_in_variant(
        &mut self,
        enum_name: &str,
        variants: &Vec<(String, EnumVariantPayloadTy)>,
        tag: u32,
        field: &str,
        range: Span,
    ) -> (r: Ty)
        ensures
            (final(self)@, r@) == old(self)@.access_field_in_variant(
                enum_name@,
                variants.deep_view(),
                tag,
                field@,
                range,
            ),
    {
        if tag as usize >= variants.len() {
            return self.error_with_help(
                ErrorCode::GenericTypeError,
                cat3("Cannot access field `", field, "` on non-record type"),
                range,
                "only values of record-shaped enum types expose fields".to_owned(),
            );
        }
        let name = variants[tag as usize].0.as_str();
        let p = &variants[tag as usize].1;
        assert(variants.deep_view()[tag as int] == (name@, p@));
        if let Some((_, t)) = find_in_payload(p, field) {
            return t.clone();
        }
        match p {
            EnumVariantPayloadTy::Record(_) => self.no_such_field(
                enum_name,
                variants,
                field,
                range,
            ),
            EnumVariantPayloadTy::Tuple(items) => {
                let n = number(items.len());
                let last: usize = if items.len() == 0 {
                    0
                } else {
                    items.len() - 1
                };
                let m = number(last);
                let start = cat7(
                    "variant `",
                    enum_name,
                    "::",
                    name,
                    "` is a ",
                    n.as_str(),
                    "-tuple; use a match binding or index 0..",
                );
                self.error_with_help(
                    ErrorCode::GenericTypeError,
                    cat3("Cannot access field `", field, "` on tuple variant"),
                    range,
                    cat2(start.as_str(), m.as_str()),
                )
            },
            EnumVariantPayloadTy::Unit => self.error_with_help(
                ErrorCode::GenericTypeError,
                cat3("Cannot access field `", field, "` on non-record variant"),
                range,
                cat7(
                    "variant `",
                    enum_name,
                    "::",
                    name,
                    "` is ",
                    payload_kind_name(p),
                    "; only record-shaped variants expose named fields",
                ),
            ),
        }
    }

    /// Field access on enum record payloads (a known tag narrows the variant).
    pub fn access_field_in_sum(
        &mut self,
        enum_name: &str,
        variants: &Vec<(String, EnumVariantPayloadTy)>,
        specific_tag: Option<u32>,
        field: &str,
        range: Span,
    ) -> (r: Ty)
        ensures
            (final(self)@, r@) == old(self)@.access_field_in_sum(
                enum_name@,
                variants.deep_view(),
                specific_tag,
                field@,
                range,
            ),
    {
        if let Some(tag) = specific_tag {
            return self.access_field_in_variant(enum_name, variants, tag, field, range);
        }
        let found = candidates_of_field(variants, field);
        if found.len() == 0 {
            return self.no_such_field(enum_name, variants, field, range);
        }
        if found.len() > 1 {
            let _ = self.error_with_help(
                ErrorCode::GenericTypeError,
                cat5(
                    "Field `",
                    field,
                    "` exists in multiple variants of `",
                    enum_name,
                    "`; narrow with match first",
                ),
                range,
                "field access requires a unique field type; use a `match` to determine the active variant before reading the field".to_owned(),
            );
        }
        assert(found.deep_view()[0] == found@[0]@);
        found[0].clone()
    }

    /// The type of a field of a class instance.
    pub fn access_class_field(&mut self, class: &str, field: &str, args: &Vec<Ty>, range: Span) -> (r:
        Ty)
        ensures
            (final(self)@, r@) == old(self)@.access_class_field(
                class@,
                field@,
                args.deep_view(),
                range,
            ),
    {
        let message = cat5("Cannot find field `", field, "` on class `", class, "`");
        let fields = match self.reg.classes.get(class) {
            Some(fields) => fields,
            None => {
                return self.error(ErrorCode::UnknownField, message, range);
            },
        };
        let i = match find_class_field(fields, field) {
            Some(i) => i,
            None => {
                let names = names_of_class_fields(fields);
                let list = join_with(&names, ", ");
                return self.error_with_help(
                    ErrorCode::UnknownField,
                    message,
                    range,
                    cat2("the class has fields: ", list.as_str()),
                );
            },
        };
        assert(fields.deep_view()[i as int] == fields@[i as int]@);
        let t = fields[i].ty.clone();
        let params = self.ctor_params(class);
        if params.len() == 0 {
            return t;
        }
        if args.len() == 0 {
            let fresh = self.fresh_args(params.len());
            return subst_ty_params(&t, &params, &fresh);
        }
        subst_ty_params(&t, &params, args)
    }

    /// Resolve `ty.field` for optional chaining (the payload of an `Option`).
    pub fn field_type_from_ty(&mut self, ty: &Ty, field: &str, range: Span) -> (r: Ty)
        ensures
            (final(self)@, r@) == old(self)@.field_type_from_ty(ty@, field@, range),
    {
        let resolved = self.resolve(ty);
        match &resolved {
            Ty::Sum { name, variants } => {
                assert(variants.deep_view() =~= enums::sum_variants(
                    resolved@.head()->Sum_1,
                    resolved@.kids(),
                ));
                self.access_field_in_sum(name.as_str(), variants, None, field, range)
            },
            Ty::Constructor { tag, owner, .. } => {
                assert(resolved@.kids()[0] == owner@);
                match &**owner {
                    Ty::Sum { name, variants } => {
                        assert(variants.deep_view() =~= enums::sum_variants(
                            owner@.head()->Sum_1,
                            owner@.kids(),
                        ));
                        self.access_field_in_sum(name.as_str(), variants, Some(*tag), field, range)
                    },
                    _ => self.error(
                        ErrorCode::UnknownField,
                        cat3("Cannot access field `", field, "`"),
                        range,
                    ),
                }
            },
            Ty::Record { fields } => match find_field(fields, field) {
                Some(i) => {
                    assert(resolved@.kids()[i as int] == fields@[i as int].1@);
                    fields[i].1.clone()
                },
                None => self.error(
                    ErrorCode::UnknownField,
                    cat3("Cannot find field `", field, "` on record"),
                    range,
                ),
            },
            Ty::Con(name) => {
                if let Some(t) = self.class_field_ty(name.as_str(), field) {
                    return t.clone();
                }
                if let Some(t) = self.field_type_for(name.as_str(), field) {
                    return t;
                }
                self.error(
                    ErrorCode::UnknownField,
                    cat5("Cannot find field `", field, "` on `", name.as_str(), "`"),
                    range,
                )
            },
            Ty::Var(_) => {
                let f = self.fresh();
                let record = record1(field, f.clone());
                let _ = self.unify(
                    &resolved,
                    &record,
                    range,
                    "optional access field on unpinned Option payload",
                );
                f
            },
            _ => self.error(
                ErrorCode::UnknownField,
                cat3("Cannot access field `", field, "` on non-record type"),
                range,
            ),
        }
    }

    /// Enter or refine Result mode for the enclosing function. Returns the `Ok`
    /// payload type.
    pub fn ensure_result_mode(&mut self, err_ty: &Ty, range: Span) -> (r: Ty)
        ensures
            (final(self)@, r@) == old(self)@.ensure_result_mode(err_ty@, range),
    {
        if self.ctx.option_mode.is_some() {
            return self.error(
                ErrorCode::ConflictingErrorType,
                "cannot mix Option `?` and Result `raise`/`?` in the same function".to_owned(),
                range,
            );
        }
        let mode = self.ctx.result_mode.dup();
        if let Some((ok, known)) = mode {
            let _ = self.unify(&known, err_ty, range, "error type");
            return self.resolve(&ok);
        }
        let ret = match &self.ctx.return_ty {
            Some(t) => t.clone(),
            None => {
                return self.error(
                    ErrorCode::InvalidTry,
                    "`raise` / `?` outside of a function".to_owned(),
                    range,
                );
            },
        };
        let resolved = self.resolve(&ret);
        if let Some((ok, known)) = result_ok_err(&resolved) {
            self.ctx.result_mode = Some((ok.clone(), known.clone()));
            let _ = self.unify(&known, err_ty, range, "error type");
            self.ctx.return_ty = Some(ok.clone());
            return ok;
        }
        if is_option_ty(&resolved) {
            return self.error(
                ErrorCode::ConflictingErrorType,
                "function returns Option; cannot use Result `raise`/`?`".to_owned(),
                range,
            );
        }
        let ok = self.fresh();
        let result = result_ty(ok.clone(), err_ty.clone());
        let _ = self.unify(&ret, &result, range, "result return type");
        self.ctx.result_mode = Some((ok.clone(), err_ty.clone()));
        self.ctx.return_ty = Some(ok.clone());
        ok
    }

    /// Enter or refine Option mode for the enclosing function.
    pub fn ensure_option_mode(&mut self, inner_ty: &Ty, range: Span)
        ensures
            final(self)@ == old(self)@.ensure_option_mode(inner_ty@, range),
    {
        if self.ctx.result_mode.is_some() {
            let _ = self.error(
                ErrorCode::ConflictingErrorType,
                "cannot mix Result `raise`/`?` and Option `?` in the same function".to_owned(),
                range,
            );
            return;
        }
        let mode = self.ctx.option_mode.dup();
        if let Some(known) = mode {
            let _ = self.unify(&known, inner_ty, range, "option payload");
            return;
        }
        let ret = match &self.ctx.return_ty {
            Some(t) => t.clone(),
            None => {
                let _ = self.error(
                    ErrorCode::InvalidTry,
                    "`?` outside of a function".to_owned(),
                    range,
                );
                return;
            },
        };
        let resolved = self.resolve(&ret);
        if is_option_ty(&resolved) {
            if let Some(known) = option_inner(&resolved) {
                let _ = self.unify(&known, inner_ty, range, "option payload");
            }
            self.ctx.option_mode = Some(inner_ty.clone());
            return;
        }
        if is_result_ty(&resolved) {
            let _ = self.error(
                ErrorCode::ConflictingErrorType,
                "function returns Result; cannot use Option `?`".to_owned(),
                range,
            );
            return;
        }
        let opt = option_ty(inner_ty.clone());
        let _ = self.unify(&ret, &opt, range, "option return type");
        self.ctx.option_mode = Some(inner_ty.clone());
    }
}

/// The type at place `j` of a payload.
pub fn nth_payload_ty(p: &EnumVariantPayloadTy, j: usize) -> (r: Ty)
    requires
        j < p@.kids().len(),
    ensures
        r@ == p@.kids()[j as int],
{
    match p {
        EnumVariantPayloadTy::Tuple(items) => {
            assert(p@.kids()[j as int] == items@[j as int]@);
            items[j].clone()
        },
        EnumVariantPayloadTy::Record(fields) => {
            assert(p@.kids()[j as int] == fields@[j as int].1@);
            fields[j].1.clone()
        },
        EnumVariantPayloadTy::Unit => Ty::Tuple(Vec::new()),
    }
}

} // verus!
