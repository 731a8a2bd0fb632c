//! Constructor applications and class instances, around their arguments.
use crate::ast::{EnumConstructPayload, FieldInit};
use crate::infer::builtins::{self, is_builtin_ffi_enum};
use crate::infer::enums::{self, field_names, names_field, payload_kind_name, subst_ty_params};
use crate::infer::ops::{self, pair_variants};
use crate::infer::stmts;
use crate::infer::{Checker, CheckerV, ClassField, ClassFieldV};
use crate::maps::{Dup, NameSet};
use crate::report::{ErrorCode, Span};
use crate::text::{self, cat2, cat3, cat5, cat7, join_ticked, number, same_text};
use crate::tree::{self, Head, Tree};
use crate::ty::{EnumVariantPayloadTy, Ty, app, con, constructor};
use vstd::prelude::*;

verus! {

broadcast use crate::tree::group_shapes;

/// The shape of a constructor application, in words.
pub open spec fn construct_kind(p: EnumConstructPayload) -> Seq<char> {
    match p {
        EnumConstructPayload::Unit => "unit"@,
        EnumConstructPayload::Tuple(_) => "tuple"@,
        EnumConstructPayload::Record(_) => "record"@,
    }
}

fn construct_kind_name(p: &EnumConstructPayload) -> (r: &'static str)
    ensures
        r@ == construct_kind(*p),
{
    match p {
        EnumConstructPayload::Unit => "unit",
        EnumConstructPayload::Tuple(_) => "tuple",
        EnumConstructPayload::Record(_) => "record",
    }
}

/// The first name, from place `at` on, that was given before.
pub open spec fn first_repeat(parts: Seq<FieldInit>, at: nat, seen: Set<Seq<char>>) -> Option<Seq<char>>
    decreases parts.len() - at,
{
    if at >= parts.len() {
        None
    } else if seen.contains(parts[at as int].name@) {
        Some(parts[at as int].name@)
    } else {
        first_repeat(parts, at + 1, seen.insert(parts[at as int].name@))
    }
}

fn find_repeat(parts: &Vec<FieldInit>) -> (r: Option<&String>)
    ensures
        match r {
            Some(n) => first_repeat(parts@, 0, Set::empty()) == Some(n@),
            None => first_repeat(parts@, 0, Set::empty()) is None,
        },
{
    let mut seen = NameSet::new();
    let mut i: usize = 0;
    while i < parts.len()
        invariant
            i <= parts.len(),
            first_repeat(parts@, 0, Set::empty()) == first_repeat(parts@, i as nat, seen@),
        decreases parts.len() - i,
    {
        if !seen.insert(parts[i].name.clone()) {
            return Some(&parts[i].name);
        }
        i += 1;
    }
    None
}

/// The place of a named value, from `at` on.
pub open spec fn part_place(parts: Seq<FieldInit>, name: Seq<char>, at: nat) -> Option<nat>
    decreases parts.len() - at,
{
    if at >= parts.len() {
        None
    } else if parts[at as int].name@ == name {
        Some(at)
    } else {
        part_place(parts, name, at + 1)
    }
}

/// The place of a value is one of the list.
pub proof fn part_place_in(parts: Seq<FieldInit>, name: Seq<char>, at: nat)
    ensures
        match part_place(parts, name, at) {
            Some(i) => at <= i < parts.len() && parts[i as int].name@ == name,
            None => true,
        },
    decreases parts.len() - at,
{
    if at < parts.len() && parts[at as int].name@ != name {
        part_place_in(parts, name, at + 1);
    }
}

/// The place of a named value.
pub fn find_part(parts: &Vec<FieldInit>, name: &str) -> (r: Option<usize>)
    ensures
        match r {
            Some(i) => i < parts.len() && part_place(parts@, name@, 0) == Some(i as nat),
            None => part_place(parts@, name@, 0) is None,
        },
{
    let mut i: usize = 0;
    while i < parts.len()
        invariant
            i <= parts.len(),
            part_place(parts@, name@, 0) == part_place(parts@, name@, i as nat),
        decreases parts.len() - i,
    {
        if same_text(parts[i].name.as_str(), name) {
            return Some(i);
        }
        i += 1;
    }
    None
}

/// The first name, from place `at` on, that is not declared.
pub open spec fn first_unknown(parts: Seq<FieldInit>, names: Seq<Seq<char>>, at: nat) -> Option<
    Seq<char>,
>
    decreases parts.len() - at,
{
    if at >= parts.len() {
        None
    } else if !names.contains(parts[at as int].name@) {
        Some(parts[at as int].name@)
    } else {
        first_unknown(parts, names, at + 1)
    }
}

fn find_unknown<'a>(parts: &'a Vec<FieldInit>, decls: &Vec<(String, Ty)>) -> (r: Option<&'a String>)
    ensures
        match r {
            Some(n) => first_unknown(parts@, tree::names_of(decls.deep_view()), 0) == Some(n@),
            None => first_unknown(parts@, tree::names_of(decls.deep_view()), 0) is None,
        },
{
    let ghost names = tree::names_of(decls.deep_view());
    let mut i: usize = 0;
    while i < parts.len()
        invariant
            i <= parts.len(),
            names == tree::names_of(decls.deep_view()),
            first_unknown(parts@, names, 0) == first_unknown(parts@, names, i as nat),
        decreases parts.len() - i,
    {
        if !names_field(decls, parts[i].name.as_str()) {
            return Some(&parts[i].name);
        }
        i += 1;
    }
    None
}

/// A constructor application whose shape fits its variant.
#[derive(Debug)]
pub struct Construct {
    pub name: String,
    pub variant: String,
    pub tag: u32,
    pub arity: usize,
    pub payload: EnumVariantPayloadTy,
    /// The applied enum, when it has type parameters.
    pub owner: Option<Ty>,
}

/// The model of a [`Construct`].
#[verifier::ext_equal]
pub struct ConstructV {
    pub name: Seq<char>,
    pub variant: Seq<char>,
    pub tag: u32,
    pub arity: usize,
    pub payload: Tree,
    pub owner: Option<Tree>,
}

impl View for Construct {
    type V = ConstructV;

    open spec fn view(&self) -> ConstructV {
        ConstructV {
            name: self.name@,
            variant: self.variant@,
            tag: self.tag,
            arity: self.arity,
            payload: self.payload@,
            owner: self.owner.deep_view(),
        }
    }
}

impl ConstructV {
    /// The constructor with the name of its enum.
    pub open spec fn full(self) -> Seq<char> {
        self.name + "::"@ + self.variant
    }

    /// What an argument of the constructor is checked as.
    pub open spec fn argument(self) -> Seq<char> {
        "constructor `"@ + self.full() + "` argument"@
    }

    /// What a named argument of the constructor is checked as.
    pub open spec fn named_argument(self, field: Seq<char>) -> Seq<char> {
        "constructor `"@ + self.full() + "."@ + field + "` argument"@
    }
}

impl Construct {
    fn full(&self) -> (r: String)
        ensures
            r@ == self@.full(),
    {
        cat3(self.name.as_str(), "::", self.variant.as_str())
    }

    /// What an argument of the constructor is checked as.
    pub fn argument(&self) -> (r: String)
        ensures
            r@ == self@.argument(),
    {
        let full = self.full();
        cat3("constructor `", full.as_str(), "` argument")
    }

    /// What a named argument of the constructor is checked as.
    pub fn named_argument(&self, field: &str) -> (r: String)
        ensures
            r@ == self@.named_argument(field@),
    {
        let full = self.full();
        cat5("constructor `", full.as_str(), ".", field, "` argument")
    }
}

/// What a constructor application comes to before its arguments are typed: the
/// variant, or the type that stands for a faulty one.
pub open spec fn construct_outcome(r: Result<Construct, Ty>) -> Result<ConstructV, Tree> {
    match r {
        Ok(k) => Ok(k@),
        Err(t) => Err(t@),
    }
}

/// What `new` comes to before its arguments are typed.
#[derive(Debug)]
pub enum NewPlan {
    /// Nothing more is to be done.
    Done(Ty),
    /// The number of arguments is wrong.
    Miscounted(Ty),
    /// The types of the fields, and the type of the instance.
    Fields(Vec<Ty>, Ty),
}

/// The model of a [`NewPlan`].
#[verifier::ext_equal]
pub enum NewV {
    Done(Tree),
    Miscounted(Tree),
    Fields(Seq<Tree>, Tree),
}

impl View for NewPlan {
    type V = NewV;

    open spec fn view(&self) -> NewV {
        match self {
            NewPlan::Done(t) => NewV::Done(t@),
            NewPlan::Miscounted(t) => NewV::Miscounted(t@),
            NewPlan::Fields(ts, t) => NewV::Fields(ts.deep_view(), t@),
        }
    }
}

/// The types of class fields, with types for the type parameters.
pub open spec fn field_tys(
    fields: Seq<ClassFieldV>,
    params: Seq<Seq<char>>,
    args: Seq<Tree>,
) -> Seq<Tree> {
    Seq::new(
        fields.len(),
        |i: int|
            if params.len() == 0 {
                fields[i].ty
            } else {
                enums::with_params(fields[i].ty, params, args)
            },
    )
}

fn tys_of_fields(fields: &Vec<ClassField>, params: &Vec<String>, args: &Vec<Ty>) -> (r: Vec<Ty>)
    ensures
        r.deep_view() == field_tys(fields.deep_view(), params.deep_view(), args.deep_view()),
{
    let ghost all = field_tys(fields.deep_view(), params.deep_view(), args.deep_view());
    let mut out: Vec<Ty> = Vec::new();
    let mut i: usize = 0;
    while i < fields.len()
        invariant
            i <= fields.len(),
            all == field_tys(fields.deep_view(), params.deep_view(), args.deep_view()),
            out.deep_view() == all.take(i as int),
        decreases fields.len() - i,
    {
        let ghost before = out.deep_view();
        assert(fields.deep_view()[i as int] == fields@[i as int]@);
        let t = if params.len() == 0 {
            fields[i].ty.clone()
        } else {
            subst_ty_params(&fields[i].ty, params, args)
        };
        out.push(t);
        assert(out.deep_view() =~= before.push(t@));
        i += 1;
        assert(out.deep_view() =~= all.take(i as int));
    }
    assert(out.deep_view() =~= all);
    out
}

impl CheckerV {
    /// The arity of a variant, as it was entered.
    pub open spec fn variant_arity(self, name: Seq<char>, tag: u32) -> usize {
        if self.reg.enum_arities.contains_key(name) && tag < self.reg.enum_arities[name].len() {
            self.reg.enum_arities[name][tag as int]
        } else {
            0
        }
    }

    /// The payload that a constructor expects; an enum with type parameters is
    /// applied to fresh ones.
    pub open spec fn expected_payload(self, name: Seq<char>, variant: Seq<char>, tag: u32) -> (
        CheckerV,
        Tree,
        Option<Tree>,
    ) {
        if self.is_poly_enum(name) {
            let (c, payload, owner) = self.fresh_poly_construct_payload(name, variant);
            (c, payload, Some(owner))
        } else {
            (
                self,
                match self.registry_payload(name, tag) {
                    Some(p) => p,
                    None => Tree::unit_payload(),
                },
                None,
            )
        }
    }

    /// The complaint about a constructor of another shape.
    pub open spec fn wrong_shape(self, k: ConstructV, fields: EnumConstructPayload, range: Span) -> (
        CheckerV,
        Tree,
    ) {
        self.error_with_help(
            ErrorCode::PayloadShapeMismatch,
            "Constructor `"@ + k.full() + "` payload shape mismatch (declared as "@
                + enums::payload_kind(k.payload) + ", called as "@ + construct_kind(fields) + ")"@,
            range,
            "use "@ + (if k.payload.head() is RecordPayload {
                "record"@
            } else {
                "tuple / unit"@
            }) + " syntax for `"@ + k.full() + "`"@,
        )
    }

    /// The shape of a constructor application is held against its variant.
    pub open spec fn check_shape(self, k: ConstructV, fields: EnumConstructPayload, range: Span) -> (
        CheckerV,
        Result<ConstructV, Tree>,
    ) {
        match (k.payload.head(), fields) {
            (Head::UnitPayload, EnumConstructPayload::Unit) => (self, Ok(k)),
            (Head::RecordPayload(_), EnumConstructPayload::Record(_)) => (self, Ok(k)),
            (Head::TuplePayload, EnumConstructPayload::Tuple(args)) => if args@.len()
                == k.payload.kids().len() {
                (self, Ok(k))
            } else {
                let (c, t) = self.error(
                    ErrorCode::ConstructorArity,
                    "Constructor `"@ + k.full() + "` expects "@ + text::decimal(
                        k.payload.kids().len(),
                    ) + " arguments, got "@ + text::decimal(args@.len()),
                    range,
                );
                (c, Err(t))
            },
            _ => {
                let (c, t) = self.wrong_shape(k, fields, range);
                (c, Err(t))
            },
        }
    }

    /// Everything of a constructor application before its arguments.
    pub open spec fn open_construct(
        self,
        enum_name: Seq<char>,
        variant: Seq<char>,
        fields: EnumConstructPayload,
        range: Span,
    ) -> (CheckerV, Result<ConstructV, Tree>) {
        let name = if builtins::is_ffi_enum(enum_name) {
            "FFIType"@
        } else {
            enum_name
        };
        if enum_name == "FFIType"@ && !self.scope.bindings.contains_key("FFIType"@)
            && !self.ffi_tag_in_scope(variant) {
            let (c, t) = self.error_with_help(
                ErrorCode::UnknownEnum,
                "Cannot find enum `"@ + enum_name + "` in this scope"@,
                range,
                "import tags with `use ffi::types::*;` (or write `ffi::types::Int`)"@,
            );
            (c, Err(t))
        } else if !self.reg.enum_tags.contains_key(name) {
            let (c, t) = self.error(
                ErrorCode::UnknownEnum,
                "Cannot find enum `"@ + enum_name + "` in this scope"@,
                range,
            );
            (c, Err(t))
        } else {
            match self.variant_tag(name, variant) {
                None => {
                    let (c, t) = self.error(
                        ErrorCode::UnknownVariant,
                        "Cannot find variant `"@ + variant + "` on enum `"@ + name + "`"@,
                        range,
                    );
                    (c, Err(t))
                },
                Some(tag) => {
                    let arity = self.variant_arity(name, tag);
                    let (c, payload, owner) = self.expected_payload(name, variant, tag);
                    c.check_shape(
                        ConstructV { name, variant, tag, arity, payload, owner },
                        fields,
                        range,
                    )
                },
            }
        }
    }

    /// The complaint about a field that is given twice.
    pub open spec fn repeated_part(self, k: ConstructV, field: Seq<char>, range: Span) -> (
        CheckerV,
        Tree,
    ) {
        self.error_with_help(
            ErrorCode::DuplicateField,
            "Duplicate field `"@ + field + "` in record constructor `"@ + k.full() + "`"@,
            range,
            "each field must be supplied exactly once"@,
        )
    }

    /// The complaint about a field that is not given.
    pub open spec fn missing_part(self, k: ConstructV, field: Seq<char>, range: Span) -> (
        CheckerV,
        Tree,
    ) {
        self.error_with_help(
            ErrorCode::MissingField,
            "Missing field `"@ + field + "` in record constructor `"@ + k.full() + "`"@,
            range,
            "add `"@ + field + ": <expr>` to the call site"@,
        )
    }

    /// The complaint about a field that is not declared.
    pub open spec fn unknown_part(self, k: ConstructV, field: Seq<char>, range: Span) -> (
        CheckerV,
        Tree,
    ) {
        self.error_with_help(
            ErrorCode::UnknownField,
            "Unknown field `"@ + field + "` in record constructor `"@ + k.full() + "`"@,
            range,
            "the declared fields are: "@ + text::ticked(k.payload.head()->RecordPayload_0),
        )
    }

    /// The type of a constructor application, once its arguments are typed.
    pub open spec fn construct_ty(self, k: ConstructV) -> Tree {
        let owner = match k.owner {
            Some(o) => self.resolve(o),
            None => stmts::sum_tree(
                k.name,
                ops::declared_variants(
                    if self.reg.enums.contains_key(k.name) {
                        self.reg.enums[k.name]
                    } else {
                        Seq::empty()
                    },
                    if self.reg.enum_payloads.contains_key(k.name) {
                        self.reg.enum_payloads[k.name]
                    } else {
                        Seq::empty()
                    },
                ),
            ),
        };
        stmts::constructor_tree(owner, k.tag, k.arity)
    }

    /// Everything of `new` before its `got` arguments.
    pub open spec fn open_new(self, class_ty: Tree, got: nat, range: Span) -> (CheckerV, NewV) {
        match self.resolve(class_ty) {
            Tree::Node(Head::Con(name), _) => if self.reg.classes.contains_key(name) {
                let fields = self.reg.classes[name];
                let params = self.ctor_params(name);
                let (c, args) = self.fresh_args(params.len());
                let result = if params.len() == 0 {
                    Tree::con(name)
                } else {
                    Tree::app(Tree::con(name), args)
                };
                if got != fields.len() {
                    (
                        c.error_with_help(
                            ErrorCode::ConstructorArity,
                            "Constructor `"@ + name + "` expects "@ + text::decimal(fields.len())
                                + " arguments, got "@ + text::decimal(got),
                            range,
                            "pass one argument per class field, in declaration order"@,
                        ).0,
                        NewV::Miscounted(result),
                    )
                } else {
                    (c, NewV::Fields(field_tys(fields, params, args), result))
                }
            } else {
                (self, NewV::Done(Tree::con(name)))
            },
            _ => {
                let (c, t) = self.error(
                    ErrorCode::NotAFunction,
                    "Cannot instantiate non-class type"@,
                    range,
                );
                (c, NewV::Done(t))
            },
        }
    }
}

impl Checker {
    fn variant_arity(&self, name: &str, tag: u32) -> (r: usize)
        ensures
            r == self@.variant_arity(name@, tag),
    {
        match self.reg.enum_arities.get(name) {
            Some(a) => if (tag as usize) < a.len() {
                assert(a.deep_view()[tag as int] == a@[tag as int]);
                a[tag as usize]
            } else {
                0
            },
            None => 0,
        }
    }

    fn expected_payload(&mut self, name: &str, variant: &str, tag: u32) -> (r: (
        EnumVariantPayloadTy,
        Option<Ty>,
    ))
        ensures
            (final(self)@, r.0@, r.1.deep_view()) == old(self)@.expected_payload(
                name@,
                variant@,
                tag,
            ),
    {
        if self.is_poly_enum(name) {
            let (payload, owner) = self.fresh_poly_construct_payload(name, variant);
            (payload, Some(owner))
        } else {
            let payload = match self.registry_payload(name, tag) {
                Some(p) => p,
                None => EnumVariantPayloadTy::Unit,
            };
            (payload, None)
        }
    }

    fn wrong_shape(&mut self, k: &Construct, fields: &EnumConstructPayload, range: Span) -> (r: Ty)
        ensures
            (final(self)@, r@) == old(self)@.wrong_shape(k@, *fields, range),
    {
        let full = k.full();
        let syntax = match &k.payload {
            EnumVariantPayloadTy::Record(_) => "record",
            _ => "tuple / unit",
        };
        self.error_with_help(
            ErrorCode::PayloadShapeMismatch,
            cat7(
                "Constructor `",
                full.as_str(),
                "` payload shape mismatch (declared as ",
                payload_kind_name(&k.payload),
                ", called as ",
                construct_kind_name(fields),
                ")",
            ),
            range,
            cat5("use ", syntax, " syntax for `", full.as_str(), "`"),
        )
    }

    fn check_shape(&mut self, k: Construct, fields: &EnumConstructPayload, range: Span) -> (r: Result<
        Construct,
        Ty,
    >)
        ensures
            (final(self)@, construct_outcome(r)) == old(self)@.check_shape(k@, *fields, range),
    {
        match (&k.payload, fields) {
            (EnumVariantPayloadTy::Unit, EnumConstructPayload::Unit) => Ok(k),
            (EnumVariantPayloadTy::Record(_), EnumConstructPayload::Record(_)) => Ok(k),
            (EnumVariantPayloadTy::Tuple(tys), EnumConstructPayload::Tuple(args)) => {
                if args.len() == tys.len() {
                    return Ok(k);
                }
                let full = k.full();
                let want = number(tys.len());
                let got = number(args.len());
                Err(
                    self.error(
                        ErrorCode::ConstructorArity,
                        text::cat2(
                            cat5(
                                "Constructor `",
                                full.as_str(),
                                "` expects ",
                                want.as_str(),
                                " arguments, got ",
                            ).as_str(),
                            got.as_str(),
                        ),
                        range,
                    ),
                )
            },
            _ => Err(self.wrong_shape(&k, fields, range)),
        }
    }

    /// Do everything of a constructor application before its arguments.
    pub fn open_construct(
        &mut self,
        enum_name: &str,
        variant: &str,
        fields: &EnumConstructPayload,
        range: Span,
    ) -> (r: Result<Construct, Ty>)
        ensures
            (final(self)@, construct_outcome(r)) == old(self)@.open_construct(
                enum_name@,
                variant@,
                *fields,
                range,
            ),
    {
        if same_text(enum_name, "FFIType") && !self.builtin_name_in_scope("FFIType")
            && !self.ffi_tag_in_scope(variant) {
            return Err(
                self.error_with_help(
                    ErrorCode::UnknownEnum,
                    cat3("Cannot find enum `", enum_name, "` in this scope"),
                    range,
                    "import tags with `use ffi::types::*;` (or write `ffi::types::Int`)".to_owned(),
                ),
            );
        }
        let name = if is_builtin_ffi_enum(enum_name) {
            "FFIType"
        } else {
            enum_name
        };
        if !self.reg.enum_tags.contains_key(name) {
            return Err(
                self.error(
                    ErrorCode::UnknownEnum,
                    cat3("Cannot find enum `", enum_name, "` in this scope"),
                    range,
                ),
            );
        }
        match self.variant_tag(name, variant) {
            None => Err(
                self.error(
                    ErrorCode::UnknownVariant,
                    cat5("Cannot find variant `", variant, "` on enum `", name, "`"),
                    range,
                ),
            ),
            Some(tag) => {
                let arity = self.variant_arity(name, tag);
                let (payload, owner) = self.expected_payload(name, variant, tag);
                let k = Construct {
                    name: name.to_owned(),
                    variant: variant.to_owned(),
                    tag,
                    arity,
                    payload,
                    owner,
                };
                self.check_shape(k, fields, range)
            },
        }
    }

    /// Complain about a field that is given twice; `None` when none is.
    pub fn check_repeated(&mut self, k: &Construct, parts: &Vec<FieldInit>, range: Span) -> (r: Option<
        Ty,
    >)
        ensures
            match first_repeat(parts@, 0, Set::empty()) {
                Some(n) => match r {
                    Some(t) => (final(self)@, t@) == old(self)@.repeated_part(k@, n, range),
                    None => false,
                },
                None => r is None && final(self)@ == old(self)@,
            },
    {
        match find_repeat(parts) {
            Some(n) => {
                let full = k.full();
                Some(
                    self.error_with_help(
                        ErrorCode::DuplicateField,
                        cat5(
                            "Duplicate field `",
                            n.as_str(),
                            "` in record constructor `",
                            full.as_str(),
                            "`",
                        ),
                        range,
                        "each field must be supplied exactly once".to_owned(),
                    ),
                )
            },
            None => None,
        }
    }

    /// Complain about a field that is not given.
    pub fn missing_part(&mut self, k: &Construct, field: &str, range: Span) -> (r: Ty)
        ensures
            (final(self)@, r@) == old(self)@.missing_part(k@, field@, range),
    {
        let full = k.full();
        self.error_with_help(
            ErrorCode::MissingField,
            cat5(
                "Missing field `",
                field,
                "` in record constructor `",
                full.as_str(),
                "`",
            ),
            range,
            cat3("add `", field, ": <expr>` to the call site"),
        )
    }

    /// Complain about a field that is not declared; `None` when all are.
    pub fn check_unknown(
        &mut self,
        k: &Construct,
        decls: &Vec<(String, Ty)>,
        parts: &Vec<FieldInit>,
        range: Span,
    ) -> (r: Option<Ty>)
        requires
            k@.payload.head() == Head::RecordPayload(tree::names_of(decls.deep_view())),
        ensures
            match first_unknown(parts@, tree::names_of(decls.deep_view()), 0) {
                Some(n) => match r {
                    Some(t) => (final(self)@, t@) == old(self)@.unknown_part(k@, n, range),
                    None => false,
                },
                None => r is None && final(self)@ == old(self)@,
            },
    {
        match find_unknown(parts, decls) {
            Some(n) => {
                let full = k.full();
                let names = field_names(decls);
                let list = join_ticked(&names);
                Some(
                    self.error_with_help(
                        ErrorCode::UnknownField,
                        cat5(
                            "Unknown field `",
                            n.as_str(),
                            "` in record constructor `",
                            full.as_str(),
                            "`",
                        ),
                        range,
                        cat2("the declared fields are: ", list.as_str()),
                    ),
                )
            },
            None => None,
        }
    }

    /// The type of a constructor application, once its arguments are typed.
    pub fn construct_ty(&self, k: &Construct) -> (r: Ty)
        ensures
            r@ == self@.construct_ty(k@),
    {
        let owner = match &k.owner {
            Some(o) => self.resolve(o),
            None => {
                let none: Vec<String> = Vec::new();
                assert(none.deep_view() =~= Seq::<Seq<char>>::empty());
                let no_payloads: Vec<EnumVariantPayloadTy> = Vec::new();
                assert(no_payloads.deep_view() =~= Seq::<Tree>::empty());
                let names = match self.reg.enums.get(k.name.as_str()) {
                    Some(n) => n,
                    None => &none,
                };
                let payloads = match self.reg.enum_payloads.get(k.name.as_str()) {
                    Some(p) => p,
                    None => &no_payloads,
                };
                Ty::Sum { name: k.name.clone(), variants: pair_variants(names, payloads) }
            },
        };
        let t = constructor(owner, k.tag, k.arity);
        assert(t@ =~= stmts::constructor_tree(owner@, k.tag, k.arity));
        t
    }

    /// Do everything of `new` before its `got` arguments. Each instance has type
    /// parameters of its own.
    pub fn open_new(&mut self, class_ty: &Ty, got: usize, range: Span) -> (r: NewPlan)
        ensures
            (final(self)@, r@) == old(self)@.open_new(class_ty@, got as nat, range),
    {
        match self.resolve(class_ty) {
            Ty::Con(name) => {
                let fields = match self.reg.classes.get(name.as_str()) {
                    Some(f) => f.dup(),
                    None => {
                        return NewPlan::Done(con(name.as_str()));
                    },
                };
                let params = self.ctor_params(name.as_str());
                let args = self.fresh_args(params.len());
                let tys = tys_of_fields(&fields, &params, &args);
                let result = if params.len() == 0 {
                    con(name.as_str())
                } else {
                    app(con(name.as_str()), args)
                };
                if got != fields.len() {
                    let want = number(fields.len());
                    let n = number(got);
                    let head = cat5(
                        "Constructor `",
                        name.as_str(),
                        "` expects ",
                        want.as_str(),
                        " arguments, got ",
                    );
                    let _ = self.error_with_help(
                        ErrorCode::ConstructorArity,
                        cat2(head.as_str(), n.as_str()),
                        range,
                        "pass one argument per class field, in declaration order".to_owned(),
                    );
                    NewPlan::Miscounted(result)
                } else {
                    NewPlan::Fields(tys, result)
                }
            },
            _ => NewPlan::Done(
                self.error(
                    ErrorCode::NotAFunction,
                    "Cannot instantiate non-class type".to_owned(),
                    range,
                ),
            ),
        }
    }
}

} // verus!
