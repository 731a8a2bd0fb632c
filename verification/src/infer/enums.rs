//! Enums: payloads, patterns and exhaustiveness.
use crate::ast::{Pattern, PatternField, PatternPayload};
use crate::env::{self, Scheme, SchemeV};
use crate::infer::calls::is_con;
use crate::infer::{ArmCoverage, Checker, CheckerV, InnerCoverage, PendingExhaustive, PendingV, TablesV};
use crate::maps::{Dup, KeyMap, NameMap};
use crate::report::{ErrorCode, Message, MessageV, Span};
use crate::text::{self, cat2, cat3, cat4, cat5, cat7, join_ticked, join_with, number, same_text};
use crate::tree::{self, Head, Tree};
use crate::ty::{self, EnumVariantPayloadTy, Ty, TyVarId, app, con, option_app_ty, option_ty, payload1, result_app_ty, result_ty, rewrite_payload, rewrite_ty};
use crate::unify::{self, to_nominal};
use vstd::prelude::*;

verus! {

broadcast use crate::tree::group_shapes;

/// Human-readable name of a payload shape.
pub open spec fn payload_kind(p: Tree) -> Seq<char> {
    match p {
        Tree::Node(Head::TuplePayload, _) => "tuple"@,
        Tree::Node(Head::RecordPayload(_), _) => "record"@,
        _ => "unit"@,
    }
}

/// Human-readable name of a payload shape, used in diagnostics.
pub fn payload_kind_name(payload: &EnumVariantPayloadTy) -> (r: &'static str)
    ensures
        r@ == payload_kind(payload@),
{
    match payload {
        EnumVariantPayloadTy::Unit => "unit",
        EnumVariantPayloadTy::Tuple(_) => "tuple",
        EnumVariantPayloadTy::Record(_) => "record",
    }
}

/// The names of a list of named types.
pub fn field_names(fields: &Vec<(String, Ty)>) -> (r: Vec<String>)
    ensures
        r.deep_view() == tree::names_of(fields.deep_view()),
{
    let ghost all = tree::names_of(fields.deep_view());
    let mut r: Vec<String> = Vec::new();
    let mut i: usize = 0;
    while i < fields.len()
        invariant
            i <= fields.len(),
            all == tree::names_of(fields.deep_view()),
            r.deep_view() == all.take(i as int),
        decreases fields.len() - i,
    {
        let ghost before = r.deep_view();
        let x = fields[i].0.clone();
        r.push(x);
        assert(r.deep_view() =~= before.push(x@));
        i += 1;
        assert(r.deep_view() =~= all.take(i as int));
    }
    assert(r.deep_view() =~= all);
    r
}

/// The lines of the hint on record fields, from variant `at` on.
pub open spec fn hint_lines(
    enum_name: Seq<char>,
    variants: Seq<(Seq<char>, Tree)>,
    at: nat,
    acc: Seq<Seq<char>>,
) -> Seq<Seq<char>>
    decreases variants.len() - at,
{
    if at >= variants.len() {
        acc
    } else {
        let (name, payload) = variants[at as int];
        let next = match payload {
            Tree::Node(Head::RecordPayload(names), _) => if names.len() == 0 {
                acc.push("  - `"@ + enum_name + "::"@ + name + "` has no fields"@)
            } else {
                acc.push(
                    "  - `"@ + enum_name + "::"@ + name + "` exposes: "@ + text::ticked(names),
                )
            },
            _ => acc,
        };
        hint_lines(enum_name, variants, at + 1, next)
    }
}

/// Help hint for missing field diagnostics on record-shaped enums.
pub open spec fn record_field_hint(enum_name: Seq<char>, variants: Seq<(Seq<char>, Tree)>) -> Seq<char> {
    let lines = hint_lines(enum_name, variants, 0, Seq::empty());
    if lines.len() == 0 {
        "`"@ + enum_name
            + "` has no record-shaped variants; only record-shaped variants expose fields"@
    } else {
        "the available record fields on `"@ + enum_name + "` are:\n"@ + text::joined(lines, "\n"@)
    }
}

/// Help hint for missing field diagnostics on record-shaped enums.
pub fn build_record_field_hint(
    enum_name: &str,
    variants: &Vec<(String, EnumVariantPayloadTy)>,
) -> (r: Option<String>)
    ensures
        r is Some,
        r->Some_0@ == record_field_hint(enum_name@, variants.deep_view()),
{
    let ghost all = variants.deep_view();
    let mut lines: Vec<String> = Vec::new();
    assert(lines.deep_view() =~= Seq::<Seq<char>>::empty());
    let ghost whole = hint_lines(enum_name@, all, 0, Seq::empty());
    let mut i: usize = 0;
    while i < variants.len()
        invariant
            i <= variants.len(),
            all == variants.deep_view(),
            whole == hint_lines(enum_name@, all, i as nat, lines.deep_view()),
        decreases variants.len() - i,
    {
        assert(all[i as int] == (variants@[i as int].0@, variants@[i as int].1@));
        let ghost before = lines.deep_view();
        if let EnumVariantPayloadTy::Record(fields) = &variants[i].1 {
            let line = if fields.len() == 0 {
                cat5("  - `", enum_name, "::", variants[i].0.as_str(), "` has no fields")
            } else {
                let names = field_names(fields);
                let list = join_ticked(&names);
                let start = cat5("  - `", enum_name, "::", variants[i].0.as_str(), "` exposes: ");
                cat2(start.as_str(), list.as_str())
            };
            lines.push(line);
            assert(lines.deep_view() =~= before.push(line@));
        }
        i += 1;
    }
    if lines.len() == 0 {
        Some(
            cat3(
                "`",
                enum_name,
                "` has no record-shaped variants; only record-shaped variants expose fields",
            ),
        )
    } else {
        let list = join_with(&lines, "\n");
        Some(
            cat4(
                "the available record fields on `",
                enum_name,
                "` are:\n",
                list.as_str(),
            ),
        )
    }
}

/// The enum under a constructor refinement.
pub open spec fn peeled(t: Tree) -> Tree
    decreases t,
{
    match t {
        Tree::Node(Head::Constructor(_, _), kids) => if kids.len() > 0 {
            peeled(kids[0])
        } else {
            t
        },
        _ => t,
    }
}

/// The enum under a constructor refinement.
pub fn peel(t: &Ty) -> (r: &Ty)
    ensures
        r@ == peeled(t@),
    decreases t,
{
    match t {
        Ty::Constructor { owner, .. } => {
            assert(t@.kids()[0] == owner@);
            peel(owner)
        },
        _ => t,
    }
}

/// The arguments of the enum `name`, when a type is that enum.
pub open spec fn enum_args(t: Tree, name: Seq<char>) -> Option<Seq<Tree>> {
    let n = unify::nominal(peeled(t));
    if n == Tree::con(name) {
        Some(Seq::empty())
    } else if n is Node && n.head() is App && n.kids().len() > 0 && n.kids()[0] == Tree::con(name) {
        Some(n.kids().drop_first())
    } else {
        None
    }
}

/// The arguments of the enum `name`, when a type is that enum.
pub fn args_of_enum(t: &Ty, name: &str) -> (r: Option<Vec<Ty>>)
    ensures
        r.deep_view() == enum_args(t@, name@),
{
    let n = to_nominal(peel(t));
    match &n {
        Ty::Con(_) => {
            if is_con(&n, name) {
                let none: Vec<Ty> = Vec::new();
                assert(none.deep_view() =~= Seq::<Tree>::empty());
                Some(none)
            } else {
                None
            }
        },
        Ty::App(head, args) => {
            assert(n@.kids()[0] == head@);
            if is_con(head, name) {
                Some(ty::copy_tys(args))
            } else {
                None
            }
        },
        _ => None,
    }
}

/// Whether a type is an `Option`.
pub open spec fn is_option(t: Tree) -> bool {
    enum_args(t, "Option"@) is Some
}

/// What an `Option` may hold.
pub open spec fn option_item(t: Tree) -> Option<Tree> {
    match enum_args(t, "Option"@) {
        Some(args) => if args.len() == 1 {
            Some(args[0])
        } else {
            None
        },
        None => None,
    }
}

/// Whether a type is a `Result`.
pub open spec fn is_result(t: Tree) -> bool {
    enum_args(t, "Result"@) is Some
}

/// The types of success and failure of a `Result`.
pub open spec fn result_items(t: Tree) -> Option<(Tree, Tree)> {
    match enum_args(t, "Result"@) {
        Some(args) => if args.len() == 2 {
            Some((args[0], args[1]))
        } else {
            None
        },
        None => None,
    }
}

pub fn is_option_ty(t: &Ty) -> (r: bool)
    ensures
        r == is_option(t@),
{
    args_of_enum(t, "Option").is_some()
}

pub fn is_result_ty(t: &Ty) -> (r: bool)
    ensures
        r == is_result(t@),
{
    args_of_enum(t, "Result").is_some()
}

pub fn option_inner(t: &Ty) -> (r: Option<Ty>)
    ensures
        r.deep_view() == option_item(t@),
{
    match args_of_enum(t, "Option") {
        Some(args) => if args.len() == 1 {
            Some(args[0].clone())
        } else {
            None
        },
        None => None,
    }
}

pub fn result_ok_err(t: &Ty) -> (r: Option<(Ty, Ty)>)
    ensures
        r.deep_view() == result_items(t@),
{
    match args_of_enum(t, "Result") {
        Some(args) => if args.len() == 2 {
            Some((args[0].clone(), args[1].clone()))
        } else {
            None
        },
        None => None,
    }
}

/// The first `n` names, each mapped to the type at its place.
pub open spec fn name_map(names: Seq<Seq<char>>, trees: Seq<Tree>, n: nat) -> Map<Seq<char>, Tree>
    decreases n,
{
    if n == 0 {
        Map::empty()
    } else {
        name_map(names, trees, (n - 1) as nat).insert(names[n - 1], trees[n - 1])
    }
}

/// How many names have a type at their place.
pub open spec fn paired(names: Seq<Seq<char>>, trees: Seq<Tree>) -> nat {
    if names.len() < trees.len() {
        names.len()
    } else {
        trees.len()
    }
}

/// A tree with type parameters replaced by the types at their places.
pub open spec fn with_params(t: Tree, params: Seq<Seq<char>>, args: Seq<Tree>) -> Tree {
    t.rewrite(Map::empty(), name_map(params, args, paired(params, args)))
}

/// Type parameters mapped to the types at their places.
pub fn params_to_tys(params: &Vec<String>, args: &Vec<Ty>) -> (r: NameMap<Ty>)
    ensures
        r@ == name_map(
            params.deep_view(),
            args.deep_view(),
            paired(params.deep_view(), args.deep_view()),
        ),
{
    let ghost names = params.deep_view();
    let ghost trees = args.deep_view();
    let mut m: NameMap<Ty> = NameMap::new();
    let mut i: usize = 0;
    while i < params.len() && i < args.len()
        invariant
            i <= params.len(),
            i <= args.len(),
            names == params.deep_view(),
            trees == args.deep_view(),
            m@ == name_map(names, trees, i as nat),
        decreases params.len() - i,
    {
        m.insert(params[i].clone(), args[i].clone());
        assert(names[i as int] == params@[i as int]@);
        assert(trees[i as int] == args@[i as int]@);
        i += 1;
    }
    m
}

/// A type with type parameters replaced by the types at their places.
pub fn subst_ty_params(t: &Ty, params: &Vec<String>, args: &Vec<Ty>) -> (r: Ty)
    ensures
        r@ == with_params(t@, params.deep_view(), args.deep_view()),
{
    let vars: KeyMap<TyVarId, Ty> = KeyMap::new();
    let cons = params_to_tys(params, args);
    rewrite_ty(t, &vars, &cons)
}

/// A payload with type parameters replaced by the types at their places.
pub fn subst_payload_params(
    p: &EnumVariantPayloadTy,
    params: &Vec<String>,
    args: &Vec<Ty>,
) -> (r: EnumVariantPayloadTy)
    ensures
        r@ == with_params(p@, params.deep_view(), args.deep_view()),
{
    let vars: KeyMap<TyVarId, Ty> = KeyMap::new();
    let cons = params_to_tys(params, args);
    rewrite_payload(p, &vars, &cons)
}

/// The variants of a structural enum: their names and payloads.
pub open spec fn sum_variants(tags: Seq<Seq<char>>, kids: Seq<Tree>) -> Seq<(Seq<char>, Tree)> {
    Seq::new(kids.len(), |i: int| (tags[i], kids[i]))
}

/// Variants with type parameters replaced.
pub open spec fn variants_with(
    names: Seq<Seq<char>>,
    payloads: Seq<Tree>,
    params: Seq<Seq<char>>,
    args: Seq<Tree>,
) -> Seq<(Seq<char>, Tree)> {
    Seq::new(names.len(), |i: int| (names[i], with_params(payloads[i], params, args)))
}

/// The shape of a pattern's payload.
pub open spec fn pattern_kind(p: PatternPayload) -> Seq<char> {
    match p {
        PatternPayload::Unit => "unit"@,
        PatternPayload::Tuple(_) => "tuple"@,
        PatternPayload::Record(_) => "record"@,
    }
}

/// The first name of a record pattern that occurred before, from place `at` on.
pub open spec fn repeated_field(fields: Seq<PatternField>, at: nat) -> Option<Seq<char>>
    decreases fields.len() - at,
{
    if at >= fields.len() {
        None
    } else if pattern_place(fields.take(at as int), fields[at as int].name@, 0) is Some {
        Some(fields[at as int].name@)
    } else {
        repeated_field(fields, at + 1)
    }
}

/// The place of the field `name` in a record pattern, from place `at` on.
pub open spec fn pattern_place(fields: Seq<PatternField>, name: Seq<char>, at: nat) -> Option<usize>
    decreases fields.len() - at,
{
    if at >= fields.len() {
        None
    } else if fields[at as int].name@ == name {
        Some(at as usize)
    } else {
        pattern_place(fields, name, at + 1)
    }
}

/// The first field of a record pattern that is not declared, from place `at` on.
pub open spec fn undeclared_field(fields: Seq<PatternField>, names: Seq<Seq<char>>, at: nat) -> Option<
    Seq<char>,
>
    decreases fields.len() - at,
{
    if at >= fields.len() {
        None
    } else if !names.contains(fields[at as int].name@) {
        Some(fields[at as int].name@)
    } else {
        undeclared_field(fields, names, at + 1)
    }
}

/// Whether an arm tests what an earlier arm already tests.
pub open spec fn repeats(arms: Seq<ArmCoverage>, i: int) -> bool {
    let arm = arms[i];
    !arm.is_catchall && arm.tag is Some && exists|j: int|
        0 <= j < i && !(#[trigger] arms[j]).is_catchall && arms[j].tag == arm.tag && arms[j].inner
            == arm.inner
}

/// Whether some arm matches everything.
pub open spec fn catches_all(arms: Seq<ArmCoverage>) -> bool {
    exists|i: int| 0 <= i < arms.len() && (#[trigger] arms[i]).is_catchall
}

/// Whether some arm tests the variant with this tag.
pub open spec fn tests_tag(arms: Seq<ArmCoverage>, tag: u32) -> bool {
    exists|i: int|
        0 <= i < arms.len() && !(#[trigger] arms[i]).is_catchall && arms[i].tag == Some(tag)
}

/// The names of the variants that no arm tests, from place `at` on.
pub open spec fn untested(
    variants: Seq<(Seq<char>, Tree)>,
    arms: Seq<ArmCoverage>,
    at: nat,
    acc: Seq<Seq<char>>,
) -> Seq<Seq<char>>
    decreases variants.len() - at,
{
    if at >= variants.len() {
        acc
    } else {
        untested(
            variants,
            arms,
            at + 1,
            if tests_tag(arms, at as u32) {
                acc
            } else {
                acc.push(variants[at as int].0)
            },
        )
    }
}

impl CheckerV {
    /// The tag of a variant in the registry.
    pub open spec fn variant_tag(self, enum_name: Seq<char>, variant: Seq<char>) -> Option<u32> {
        if self.reg.enum_tags.contains_key(enum_name) && self.reg.enum_tags[enum_name].contains_key(
            variant,
        ) {
            Some(self.reg.enum_tags[enum_name][variant])
        } else {
            None
        }
    }

    /// The declared payload of the variant with this tag.
    pub open spec fn registry_payload(self, enum_name: Seq<char>, tag: u32) -> Option<Tree> {
        if self.reg.enum_payloads.contains_key(enum_name) && tag
            < self.reg.enum_payloads[enum_name].len() {
            Some(self.reg.enum_payloads[enum_name][tag as int])
        } else {
            None
        }
    }

    /// The type parameters of a type constructor.
    pub open spec fn ctor_params(self, name: Seq<char>) -> Seq<Seq<char>> {
        if self.reg.generics.generic_type_ctors.contains_key(name) {
            self.reg.generics.generic_type_ctors[name]
        } else {
            Seq::empty()
        }
    }

    /// Whether an enum has type parameters.
    pub open spec fn is_poly_enum(self, name: Seq<char>) -> bool {
        name == "Option"@ || name == "Result"@
            || self.reg.generics.generic_type_ctors.contains_key(name)
    }

    /// `n` fresh variables.
    pub open spec fn fresh_args(self, n: nat) -> (CheckerV, Seq<Tree>) {
        (
            CheckerV { counter: env::bump_by(self.counter, n), ..self },
            Seq::new(n, |i: int| Tree::Var(TyVarId(env::bump_by(self.counter, i as nat)))),
        )
    }

    /// The payload and the owning type of a constructor of a polymorphic enum,
    /// with fresh variables.
    pub open spec fn fresh_poly_construct_payload(self, enum_name: Seq<char>, variant: Seq<char>) -> (
        CheckerV,
        Tree,
        Tree,
    ) {
        if enum_name == "Option"@ {
            let (c, t) = self.fresh();
            (
                c,
                if variant == "Some"@ {
                    Tree::payload(seq![t])
                } else {
                    Tree::unit_payload()
                },
                Tree::option_sum(t),
            )
        } else if enum_name == "Result"@ {
            let (c, t) = self.fresh();
            let (c, e) = c.fresh();
            (
                c,
                if variant == "Ok"@ {
                    Tree::payload(seq![t])
                } else {
                    Tree::payload(seq![e])
                },
                Tree::result_sum(t, e),
            )
        } else {
            let params = self.ctor_params(enum_name);
            let (c, args) = self.fresh_args(params.len());
            let tag = match self.variant_tag(enum_name, variant) {
                Some(t) => t,
                None => 0,
            };
            let schema = match self.registry_payload(enum_name, tag) {
                Some(p) => p,
                None => Tree::unit_payload(),
            };
            (c, with_params(schema, params, args), Tree::app(Tree::con(enum_name), args))
        }
    }

    /// An enum applied to fresh variables.
    pub open spec fn fresh_poly_app_ty(self, enum_name: Seq<char>) -> (CheckerV, Tree) {
        if enum_name == "Option"@ {
            let (c, t) = self.fresh();
            (c, Tree::option_app(t))
        } else if enum_name == "Result"@ {
            let (c, t) = self.fresh();
            let (c, e) = c.fresh();
            (c, Tree::result_app(t, e))
        } else {
            let (c, args) = self.fresh_args(self.ctor_params(enum_name).len());
            (c, Tree::app(Tree::con(enum_name), args))
        }
    }

    /// The payload of a variant of an applied enum.
    pub open spec fn poly_payload_from_app(self, enum_name: Seq<char>, tag: u32, t: Tree) -> Option<Tree>
        decreases t,
    {
        match t {
            Tree::Node(Head::App, kids) => if kids.len() == 0 || kids[0] != Tree::con(enum_name) {
                None
            } else {
                let args = kids.drop_first();
                if enum_name == "Option"@ {
                    if tag == 0 {
                        Some(Tree::unit_payload())
                    } else if tag == 1 && args.len() > 0 {
                        Some(Tree::payload(seq![args[0]]))
                    } else {
                        None
                    }
                } else if enum_name == "Result"@ {
                    if tag < 2 && tag < args.len() {
                        Some(Tree::payload(seq![args[tag as int]]))
                    } else {
                        None
                    }
                } else if self.reg.generics.generic_type_ctors.contains_key(enum_name)
                    && self.ctor_params(enum_name).len() == args.len() {
                    match self.registry_payload(enum_name, tag) {
                        Some(p) => Some(with_params(p, self.ctor_params(enum_name), args)),
                        None => None,
                    }
                } else {
                    None
                }
            },
            Tree::Node(Head::Constructor(_, _), kids) => if kids.len() > 0 {
                self.poly_payload_from_app(enum_name, tag, kids[0])
            } else {
                None
            },
            _ => None,
        }
    }

    /// The payload of a variant of a structural enum.
    pub open spec fn sum_payload(t: Tree, enum_name: Seq<char>, tag: u32) -> Option<Tree> {
        let s = match t {
            Tree::Node(Head::Constructor(_, _), kids) => if kids.len() > 0 {
                kids[0]
            } else {
                t
            },
            _ => t,
        };
        match s {
            Tree::Node(Head::Sum(name, _), kids) => if name == enum_name && tag < kids.len() {
                Some(kids[tag as int])
            } else {
                None
            },
            _ => None,
        }
    }

    /// The payload that a constructor pattern is matched against.
    pub open spec fn poly_or_registry_payload(
        self,
        enum_name: Seq<char>,
        tag: u32,
        expected: Tree,
        range: Span,
    ) -> (CheckerV, Option<Tree>) {
        let t = self.resolve(expected);
        match CheckerV::sum_payload(t, enum_name, tag) {
            Some(p) => (self, Some(p)),
            None => match self.poly_payload_from_app(enum_name, tag, t) {
                Some(p) => (self, Some(p)),
                None => if self.is_poly_enum(enum_name) {
                    let (c, owner) = self.fresh_poly_app_ty(enum_name);
                    let c = c.unify(expected, owner, range, "poly enum pattern scrutinee"@).0;
                    match c.poly_payload_from_app(enum_name, tag, c.resolve(owner)) {
                        Some(p) => (c, Some(p)),
                        None => (c, c.registry_payload(enum_name, tag)),
                    }
                } else {
                    (self, self.registry_payload(enum_name, tag))
                },
            },
        }
    }

    /// A pattern is typed against an expected type; its names are bound.
    pub open spec fn infer_pattern(self, pattern: Pattern, expected: Tree, range: Span) -> (
        CheckerV,
        Tree,
    )
        decreases pattern, 0nat,
    {
        match pattern {
            Pattern::Wildcard => (self, expected),
            Pattern::Binding { name } => (self.bind(name@, SchemeV::mono(expected)), expected),
            Pattern::Constructor { enum_name, variant_name, payload } => match self.variant_tag(
                enum_name@,
                variant_name@,
            ) {
                None => (
                    self.say(
                        ErrorCode::UnknownConstructorPattern,
                        "Pattern references unknown constructor `"@ + enum_name@ + "::"@
                            + variant_name@ + "`"@,
                        range,
                    ),
                    expected,
                ),
                Some(tag) => {
                    let (c, found) = self.poly_or_registry_payload(
                        enum_name@,
                        tag,
                        expected,
                        range,
                    );
                    let declared = match found {
                        Some(p) => p,
                        None => Tree::unit_payload(),
                    };
                    let (c, early) = c.infer_payload_pattern(
                        enum_name@,
                        variant_name@,
                        declared,
                        payload,
                        range,
                    );
                    match early {
                        Some(t) => (c, t),
                        None => (c, expected),
                    }
                },
            },
        }
    }

    /// The sub-patterns of a constructor pattern are typed against the declared
    /// payload. Where they do not fit, the error stands for the pattern.
    pub open spec fn infer_payload_pattern(
        self,
        enum_name: Seq<char>,
        variant: Seq<char>,
        declared: Tree,
        payload: PatternPayload,
        range: Span,
    ) -> (CheckerV, Option<Tree>)
        decreases payload, 1nat,
    {
        let full = enum_name + "::"@ + variant;
        match (declared, payload) {
            (Tree::Node(Head::UnitPayload, _), PatternPayload::Unit) => (self, None),
            (Tree::Node(Head::TuplePayload, kids), PatternPayload::Tuple(parts)) => if parts@.len()
                != kids.len() {
                let (c, t) = self.error_with_help(
                    ErrorCode::GenericTypeError,
                    "Constructor pattern `"@ + full + "` expects "@ + text::decimal(kids.len())
                        + " sub-patterns, got "@ + text::decimal(parts@.len()),
                    range,
                    "check the variant's declared payload arity"@,
                );
                (c, Some(t))
            } else {
                (self.infer_sub_patterns(parts@, kids, range, 0), None)
            },
            (
                Tree::Node(Head::RecordPayload(names), kids),
                PatternPayload::Record(fields),
            ) => match repeated_field(fields@, 0) {
                Some(name) => {
                    let (c, t) = self.error_with_help(
                        ErrorCode::DuplicateField,
                        "Duplicate field `"@ + name + "` in record pattern `"@ + full + "`"@,
                        range,
                        "each field must appear exactly once"@,
                    );
                    (c, Some(t))
                },
                None => {
                    let (c, early) = self.infer_record_pattern(full, fields@, names, kids, range, 0);
                    match (early, undeclared_field(fields@, names, 0)) {
                        (Some(t), _) => (c, Some(t)),
                        (None, Some(name)) => {
                            let (c, t) = c.error_with_help(
                                ErrorCode::UnknownField,
                                "Unknown field `"@ + name + "` in record pattern `"@ + full + "`"@,
                                range,
                                "the declared fields are: "@ + text::ticked(names),
                            );
                            (c, Some(t))
                        },
                        (None, None) => (c, None),
                    }
                },
            },
            _ => {
                let (c, t) = self.error_with_help(
                    ErrorCode::PayloadShapeMismatch,
                    "Constructor pattern `"@ + full + "` payload shape mismatch (declared as "@
                        + payload_kind(declared) + ", pattern uses "@ + pattern_kind(payload)
                        + ")"@,
                    range,
                    "check the variant's declared payload shape"@,
                );
                (c, Some(t))
            },
        }
    }

    /// Positional sub-patterns are typed, from place `at` on.
    pub open spec fn infer_sub_patterns(
        self,
        parts: Seq<Pattern>,
        tys: Seq<Tree>,
        range: Span,
        at: nat,
    ) -> CheckerV
        decreases parts, parts.len() - at,
    {
        if at >= parts.len() || at >= tys.len() {
            self
        } else {
            self.infer_pattern(parts[at as int], tys[at as int], range).0.infer_sub_patterns(
                parts,
                tys,
                range,
                at + 1,
            )
        }
    }

    /// Named sub-patterns are typed in the order of declaration, from place `at`
    /// on; a missing one ends it.
    pub open spec fn infer_record_pattern(
        self,
        full: Seq<char>,
        fields: Seq<PatternField>,
        names: Seq<Seq<char>>,
        tys: Seq<Tree>,
        range: Span,
        at: nat,
    ) -> (CheckerV, Option<Tree>)
        decreases fields, names.len() - at,
    {
        if at >= names.len() || at >= tys.len() {
            (self, None)
        } else {
            let name = names[at as int];
            match pattern_place(fields, name, 0) {
                Some(k) => if k < fields.len() {
                    self.infer_pattern(
                        fields[k as int].pattern,
                        tys[at as int],
                        range,
                    ).0.infer_record_pattern(full, fields, names, tys, range, at + 1)
                } else {
                    (self, None)
                },
                None => {
                    let (c, t) = self.error_with_help(
                        ErrorCode::MissingField,
                        "Missing field `"@ + name + "` in record pattern `"@ + full + "`"@,
                        range,
                        "add `"@ + name + ": _` (or `"@ + name + ": binding`) to the pattern"@,
                    );
                    (c, Some(t))
                },
            }
        }
    }

    /// What the first sub-pattern tests that does not always match.
    pub open spec fn inner_coverage(self, payload: PatternPayload) -> InnerCoverage {
        match payload {
            PatternPayload::Unit => InnerCoverage::Any,
            PatternPayload::Tuple(parts) => self.first_tested(parts@, 0),
            PatternPayload::Record(fields) => self.first_tested(
                Seq::new(fields@.len(), |i: int| fields@[i].pattern),
                0,
            ),
        }
    }

    /// What the first of these patterns from place `at` on tests that does not
    /// always match.
    pub open spec fn first_tested(self, patterns: Seq<Pattern>, at: nat) -> InnerCoverage
        decreases patterns.len() - at,
    {
        if at >= patterns.len() {
            InnerCoverage::Any
        } else if patterns[at as int] is Constructor {
            self.tested_by(patterns[at as int])
        } else {
            self.first_tested(patterns, at + 1)
        }
    }

    /// The tag that a pattern tests, if any.
    pub open spec fn tested_by(self, pattern: Pattern) -> InnerCoverage {
        match pattern {
            Pattern::Constructor { enum_name, variant_name, payload: _ } => match self.variant_tag(
                enum_name@,
                variant_name@,
            ) {
                Some(t) => InnerCoverage::Tag(t),
                None => InnerCoverage::Any,
            },
            _ => InnerCoverage::Any,
        }
    }

    /// What an arm covers.
    pub open spec fn arm_coverage(self, pattern: Pattern, range: Span) -> ArmCoverage {
        match pattern {
            Pattern::Constructor { enum_name, variant_name, payload } => ArmCoverage {
                tag: self.variant_tag(enum_name@, variant_name@),
                inner: self.inner_coverage(payload),
                is_catchall: false,
                range,
            },
            _ => ArmCoverage { tag: None, inner: InnerCoverage::Any, is_catchall: true, range },
        }
    }

    /// The variants of an applied enum: their names and payloads.
    pub open spec fn poly_variants_from_app(self, t: Tree) -> Option<Seq<(Seq<char>, Tree)>>
        decreases t,
    {
        match t {
            Tree::Node(Head::App, kids) => if kids.len() == 0 {
                None
            } else {
                let args = kids.drop_first();
                match kids[0] {
                    Tree::Node(Head::Con(name), _) => if name == "Option"@ {
                        if args.len() > 0 {
                            Some(
                                seq![
                                    ("None"@, Tree::unit_payload()),
                                    ("Some"@, Tree::payload(seq![args[0]])),
                                ],
                            )
                        } else {
                            None
                        }
                    } else if name == "Result"@ {
                        if args.len() > 1 {
                            Some(
                                seq![
                                    ("Ok"@, Tree::payload(seq![args[0]])),
                                    ("Err"@, Tree::payload(seq![args[1]])),
                                ],
                            )
                        } else {
                            None
                        }
                    } else if self.reg.generics.generic_type_ctors.contains_key(name)
                        && self.ctor_params(name).len() == args.len()
                        && self.reg.enums.contains_key(name)
                        && self.reg.enum_payloads.contains_key(name)
                        && self.reg.enums[name].len() == self.reg.enum_payloads[name].len() {
                        Some(
                            variants_with(
                                self.reg.enums[name],
                                self.reg.enum_payloads[name],
                                self.ctor_params(name),
                                args,
                            ),
                        )
                    } else {
                        None
                    },
                    _ => None,
                }
            },
            Tree::Node(Head::Constructor(_, _), kids) => if kids.len() > 0 {
                self.poly_variants_from_app(kids[0])
            } else {
                None
            },
            _ => None,
        }
    }

    /// The variants that a match on this type must cover.
    pub open spec fn variants_to_cover(self, t: Tree) -> Option<Seq<(Seq<char>, Tree)>> {
        let s = match t {
            Tree::Node(Head::Constructor(_, _), kids) => if kids.len() > 0 {
                kids[0]
            } else {
                t
            },
            _ => t,
        };
        match s {
            Tree::Node(Head::Sum(_, tags), kids) => Some(sum_variants(tags, kids)),
            _ => self.poly_variants_from_app(s),
        }
    }

    /// Arms that no value reaches are reported, from place `at` on.
    pub open spec fn report_unreachable(self, arms: Seq<ArmCoverage>, at: nat) -> CheckerV
        decreases arms.len() - at,
    {
        if at >= arms.len() {
            self
        } else {
            let c = if repeats(arms, at as int) {
                self.say(
                    ErrorCode::UnreachableArm,
                    "Unreachable arm: this pattern is matched by an earlier arm"@,
                    arms[at as int].range,
                )
            } else {
                self
            };
            c.report_unreachable(arms, at + 1)
        }
    }

    /// A match is checked: unreachable arms, and variants that no arm covers.
    pub open spec fn check_exhaustiveness(self, p: PendingV) -> CheckerV {
        let c = self.report_unreachable(p.arms, 0);
        if catches_all(p.arms) {
            c
        } else {
            match c.variants_to_cover(self.resolve(p.scrutinee_ty)) {
                Some(variants) => {
                    let missing = untested(variants, p.arms, 0, Seq::empty());
                    if missing.len() == 0 {
                        c
                    } else {
                        c.report(
                            MessageV::error(
                                ErrorCode::NonExhaustiveMatch,
                                "Non-exhaustive match: variants not covered: "@ + text::ticked(
                                    missing,
                                ),
                                p.match_range,
                            ).helped("add a wildcard arm `_ => ...` to cover the remaining cases"@),
                        )
                    }
                },
                None => c,
            }
        }
    }

    /// Matches are checked, from place `at` on.
    pub open spec fn check_all(self, pending: Seq<PendingV>, at: nat) -> CheckerV
        decreases pending.len() - at,
    {
        if at >= pending.len() {
            self
        } else {
            self.check_exhaustiveness(pending[at as int]).check_all(pending, at + 1)
        }
    }

    /// The matches put off are checked, and none is put off any more.
    pub open spec fn run_pending_exhaustiveness(self) -> CheckerV {
        CheckerV {
            out: TablesV { pending: Seq::empty(), ..self.out },
            ..self
        }.check_all(self.out.pending, 0)
    }
}

/// True when one of the fields has the name.
pub fn names_field(fields: &Vec<(String, Ty)>, name: &str) -> (r: bool)
    ensures
        r == tree::names_of(fields.deep_view()).contains(name@),
{
    let ghost all = tree::names_of(fields.deep_view());
    let mut i: usize = 0;
    while i < fields.len()
        invariant
            i <= fields.len(),
            all == tree::names_of(fields.deep_view()),
            forall|j: int| 0 <= j < i ==> all[j] != name@,
        decreases fields.len() - i,
    {
        assert(all[i as int] == fields@[i as int].0@);
        if same_text(fields[i].0.as_str(), name) {
            return true;
        }
        i += 1;
    }
    false
}

/// The place of the field `name` among the first `n` of a record pattern.
pub fn find_pattern_field(fields: &Vec<PatternField>, name: &str, n: usize) -> (r: Option<usize>)
    requires
        n <= fields@.len(),
    ensures
        r == pattern_place(fields@.take(n as int), name@, 0),
        match r {
            Some(k) => k < n,
            None => true,
        },
{
    let ghost all = fields@.take(n as int);
    let mut i: usize = 0;
    while i < n
        invariant
            i <= n,
            n <= fields@.len(),
            all == fields@.take(n as int),
            pattern_place(all, name@, 0) == pattern_place(all, name@, i as nat),
        decreases n - i,
    {
        assert(all[i as int] == fields@[i as int]);
        if same_text(fields[i].name.as_str(), name) {
            return Some(i);
        }
        i += 1;
    }
    None
}

fn find_repeated_field(fields: &Vec<PatternField>) -> (r: Option<String>)
    ensures
        r.deep_view() == repeated_field(fields@, 0),
{
    let mut i: usize = 0;
    while i < fields.len()
        invariant
            i <= fields.len(),
            repeated_field(fields@, 0) == repeated_field(fields@, i as nat),
        decreases fields.len() - i,
    {
        if find_pattern_field(fields, fields[i].name.as_str(), i).is_some() {
            return Some(fields[i].name.clone());
        }
        i += 1;
    }
    None
}

fn find_undeclared_field(fields: &Vec<PatternField>, decls: &Vec<(String, Ty)>) -> (r: Option<String>)
    ensures
        r.deep_view() == undeclared_field(fields@, tree::names_of(decls.deep_view()), 0),
{
    let ghost names = tree::names_of(decls.deep_view());
    let mut i: usize = 0;
    while i < fields.len()
        invariant
            i <= fields.len(),
            names == tree::names_of(decls.deep_view()),
            undeclared_field(fields@, names, 0) == undeclared_field(fields@, names, i as nat),
        decreases fields.len() - i,
    {
        if !names_field(decls, fields[i].name.as_str()) {
            return Some(fields[i].name.clone());
        }
        i += 1;
    }
    None
}

fn arm_repeats(arms: &Vec<ArmCoverage>, i: usize) -> (r: bool)
    requires
        i < arms@.len(),
    ensures
        r == repeats(arms@, i as int),
{
    if arms[i].is_catchall || arms[i].tag.is_none() {
        return false;
    }
    let mut j: usize = 0;
    while j < i
        invariant
            j <= i < arms@.len(),
            !arms@[i as int].is_catchall,
            arms@[i as int].tag is Some,
            forall|k: int|
                0 <= k < j ==> !(!(#[trigger] arms@[k]).is_catchall && arms@[k].tag
                    == arms@[i as int].tag && arms@[k].inner == arms@[i as int].inner),
        decreases i - j,
    {
        if !arms[j].is_catchall && arms[j].tag == arms[i].tag && arms[j].inner == arms[i].inner {
            return true;
        }
        j += 1;
    }
    false
}

fn has_catchall(arms: &Vec<ArmCoverage>) -> (r: bool)
    ensures
        r == catches_all(arms@),
{
    let mut i: usize = 0;
    while i < arms.len()
        invariant
            i <= arms.len(),
            forall|j: int| 0 <= j < i ==> !(#[trigger] arms@[j]).is_catchall,
        decreases arms.len() - i,
    {
        if arms[i].is_catchall {
            return true;
        }
        i += 1;
    }
    false
}

fn has_tag(arms: &Vec<ArmCoverage>, tag: u32) -> (r: bool)
    ensures
        r == tests_tag(arms@, tag),
{
    let mut i: usize = 0;
    while i < arms.len()
        invariant
            i <= arms.len(),
            forall|j: int|
                0 <= j < i ==> !(!(#[trigger] arms@[j]).is_catchall && arms@[j].tag == Some(tag)),
        decreases arms.len() - i,
    {
        if !arms[i].is_catchall && arms[i].tag == Some(tag) {
            return true;
        }
        i += 1;
    }
    false
}

fn untested_variants(variants: &Vec<(String, EnumVariantPayloadTy)>, arms: &Vec<ArmCoverage>) -> (r:
    Vec<String>)
    ensures
        r.deep_view() == untested(variants.deep_view(), arms@, 0, Seq::empty()),
{
    let ghost all = variants.deep_view();
    let mut acc: Vec<String> = Vec::new();
    assert(acc.deep_view() =~= Seq::<Seq<char>>::empty());
    let ghost whole = untested(all, arms@, 0, Seq::empty());
    let mut i: usize = 0;
    while i < variants.len()
        invariant
            i <= variants.len(),
            all == variants.deep_view(),
            whole == untested(all, arms@, i as nat, acc.deep_view()),
        decreases variants.len() - i,
    {
        assert(all[i as int] == (variants@[i as int].0@, variants@[i as int].1@));
        let ghost before = acc.deep_view();
        if !has_tag(arms, i as u32) {
            let name = variants[i].0.clone();
            acc.push(name);
            assert(acc.deep_view() =~= before.push(name@));
        }
        i += 1;
    }
    acc
}

fn two_variants(a: &str, p: EnumVariantPayloadTy, b: &str, q: EnumVariantPayloadTy) -> (r: Vec<
    (String, EnumVariantPayloadTy),
>)
    ensures
        r.deep_view() == seq![(a@, p@), (b@, q@)],
{
    let mut r: Vec<(String, EnumVariantPayloadTy)> = Vec::new();
    r.push((a.to_owned(), p));
    r.push((b.to_owned(), q));
    assert(r.deep_view() =~= seq![(a@, p@), (b@, q@)]);
    r
}

impl Checker {
    /// The tag of a variant in the registry.
    pub fn variant_tag(&self, enum_name: &str, variant: &str) -> (r: Option<u32>)
        ensures
            r == self@.variant_tag(enum_name@, variant@),
    {
        match self.reg.enum_tags.get(enum_name) {
            Some(tags) => match tags.get(variant) {
                Some(t) => Some(*t),
                None => None,
            },
            None => None,
        }
    }

    /// The declared payload of the variant with this tag.
    pub fn registry_payload(&self, enum_name: &str, tag: u32) -> (r: Option<EnumVariantPayloadTy>)
        ensures
            r.deep_view() == self@.registry_payload(enum_name@, tag),
    {
        match self.reg.enum_payloads.get(enum_name) {
            Some(payloads) => if (tag as usize) < payloads.len() {
                assert(payloads.deep_view()[tag as int] == payloads@[tag as int]@);
                Some(payloads[tag as usize].clone())
            } else {
                None
            },
            None => None,
        }
    }

    /// The type parameters of a type constructor.
    pub fn ctor_params(&self, name: &str) -> (r: Vec<String>)
        ensures
            r.deep_view() == self@.ctor_params(name@),
    {
        match self.reg.generics.generic_type_ctors.get(name) {
            Some(params) => params.dup(),
            None => {
                let none: Vec<String> = Vec::new();
                assert(none.deep_view() =~= Seq::<Seq<char>>::empty());
                none
            },
        }
    }

    /// True when an enum has type parameters.
    pub fn is_poly_enum(&self, name: &str) -> (r: bool)
        ensures
            r == self@.is_poly_enum(name@),
    {
        same_text(name, "Option") || same_text(name, "Result")
            || self.reg.generics.generic_type_ctors.contains_key(name)
    }

    /// `n` fresh variables.
    pub fn fresh_args(&mut self, n: usize) -> (r: Vec<Ty>)
        ensures
            (final(self)@, r.deep_view()) == old(self)@.fresh_args(n as nat),
    {
        let ghost start = self@;
        let mut out: Vec<Ty> = Vec::new();
        let mut i: usize = 0;
        assert(out.deep_view() =~= start.fresh_args(0).1);
        while i < n
            invariant
                i <= n,
                self@ == start.fresh_args(i as nat).0,
                out.deep_view() == start.fresh_args(i as nat).1,
            decreases n - i,
        {
            let ghost before = out.deep_view();
            let t = self.fresh();
            out.push(t);
            assert(out.deep_view() =~= before.push(t@));
            i += 1;
            assert(out.deep_view() =~= start.fresh_args(i as nat).1);
        }
        out
    }

    /// Fresh payload and owning type for a polymorphic construct site. The
    /// builtin enums keep structural owners; user generic enums are applied
    /// constructors, so they unify directly with annotations like `Box<int>`.
    pub fn fresh_poly_construct_payload(&mut self, enum_name: &str, variant: &str) -> (r: (
        EnumVariantPayloadTy,
        Ty,
    ))
        ensures
            (final(self)@, r.0@, r.1@) == old(self)@.fresh_poly_construct_payload(
                enum_name@,
                variant@,
            ),
    {
        if same_text(enum_name, "Option") {
            let t = self.fresh();
            let payload = if same_text(variant, "Some") {
                payload1(t.clone())
            } else {
                EnumVariantPayloadTy::Unit
            };
            return (payload, option_ty(t));
        }
        if same_text(enum_name, "Result") {
            let t = self.fresh();
            let e = self.fresh();
            let payload = if same_text(variant, "Ok") {
                payload1(t.clone())
            } else {
                payload1(e.clone())
            };
            return (payload, result_ty(t, e));
        }
        let params = self.ctor_params(enum_name);
        let tag: u32 = match self.variant_tag(enum_name, variant) {
            Some(t) => t,
            None => 0,
        };
        let schema = match self.registry_payload(enum_name, tag) {
            Some(p) => p,
            None => EnumVariantPayloadTy::Unit,
        };
        let args = self.fresh_args(params.len());
        let payload = subst_payload_params(&schema, &params, &args);
        (payload, app(con(enum_name), args))
    }

    /// Build `Enum<a, ..>` with a fresh type variable per type parameter.
    pub fn fresh_poly_app_ty(&mut self, enum_name: &str) -> (r: Ty)
        ensures
            (final(self)@, r@) == old(self)@.fresh_poly_app_ty(enum_name@),
    {
        if same_text(enum_name, "Option") {
            let t = self.fresh();
            return option_app_ty(t);
        }
        if same_text(enum_name, "Result") {
            let t = self.fresh();
            let e = self.fresh();
            return result_app_ty(t, e);
        }
        let params = self.ctor_params(enum_name);
        let args = self.fresh_args(params.len());
        app(con(enum_name), args)
    }

    /// Extract a variant payload from an applied enum type (`Option<int>`, ..).
    pub fn poly_payload_from_app(&self, enum_name: &str, tag: u32, ty: &Ty) -> (r: Option<
        EnumVariantPayloadTy,
    >)
        ensures
            r.deep_view() == self@.poly_payload_from_app(enum_name@, tag, ty@),
        decreases ty,
    {
        match ty {
            Ty::App(head, args) => {
                assert(ty@.kids()[0] == head@);
                let ghost trees = ty@.kids().drop_first();
                assert(trees == args.deep_view());
                if !is_con(head, enum_name) {
                    return None;
                }
                if same_text(enum_name, "Option") {
                    if tag == 0 {
                        return Some(EnumVariantPayloadTy::Unit);
                    }
                    if tag == 1 && args.len() > 0 {
                        assert(trees[0] == args@[0]@);
                        return Some(payload1(args[0].clone()));
                    }
                    return None;
                }
                if same_text(enum_name, "Result") {
                    if tag < 2 && (tag as usize) < args.len() {
                        assert(trees[tag as int] == args@[tag as int]@);
                        return Some(payload1(args[tag as usize].clone()));
                    }
                    return None;
                }
                if !self.reg.generics.generic_type_ctors.contains_key(enum_name) {
                    return None;
                }
                let params = self.ctor_params(enum_name);
                if params.len() != args.len() {
                    return None;
                }
                match self.registry_payload(enum_name, tag) {
                    Some(p) => Some(subst_payload_params(&p, &params, args)),
                    None => None,
                }
            },
            Ty::Constructor { owner, .. } => {
                assert(ty@.kids()[0] == owner@);
                self.poly_payload_from_app(enum_name, tag, owner)
            },
            _ => None,
        }
    }

    fn sum_payload(ty: &Ty, enum_name: &str, tag: u32) -> (r: Option<EnumVariantPayloadTy>)
        ensures
            r.deep_view() == CheckerV::sum_payload(ty@, enum_name@, tag),
    {
        let s = match ty {
            Ty::Constructor { owner, .. } => {
                assert(ty@.kids()[0] == owner@);
                &**owner
            },
            _ => ty,
        };
        match s {
            Ty::Sum { name, variants } => if same_text(name.as_str(), enum_name) && (tag as usize)
                < variants.len() {
                assert(s@.kids()[tag as int] == variants@[tag as int].1@);
                Some(variants[tag as usize].1.clone())
            } else {
                None
            },
            _ => None,
        }
    }

    /// Payload type for a pattern arm: prefer the scrutinee's concrete
    /// payloads, else applied arguments, else the registry schema.
    pub fn poly_or_registry_payload(
        &mut self,
        enum_name: &str,
        tag: u32,
        expected: &Ty,
        range: Span,
    ) -> (r: Option<EnumVariantPayloadTy>)
        ensures
            (final(self)@, r.deep_view()) == old(self)@.poly_or_registry_payload(
                enum_name@,
                tag,
                expected@,
                range,
            ),
    {
        let t = self.resolve(expected);
        if let Some(p) = Self::sum_payload(&t, enum_name, tag) {
            return Some(p);
        }
        if let Some(p) = self.poly_payload_from_app(enum_name, tag, &t) {
            return Some(p);
        }
        if self.is_poly_enum(enum_name) {
            let owner = self.fresh_poly_app_ty(enum_name);
            let _ = self.unify(expected, &owner, range, "poly enum pattern scrutinee");
            let pinned = self.resolve(&owner);
            if let Some(p) = self.poly_payload_from_app(enum_name, tag, &pinned) {
                return Some(p);
            }
        }
        self.registry_payload(enum_name, tag)
    }

    /// Type-check a pattern against an expected type, binding variables into
    /// the current frame. The pattern's type is the expected type: patterns
    /// take the scrutinee apart, so which variant an arm matches is captured
    /// separately, in its coverage.
    pub fn infer_pattern(&mut self, pattern: &Pattern, expected: &Ty, range: Span) -> (r: Ty)
        ensures
            (final(self)@, r@) == old(self)@.infer_pattern(*pattern, expected@, range),
        decreases pattern, 0nat,
    {
        match pattern {
            Pattern::Wildcard => expected.clone(),
            Pattern::Binding { name } => {
                self.bind(name.as_str(), Scheme::mono(expected.clone()));
                expected.clone()
            },
            Pattern::Constructor { enum_name, variant_name, payload } => {
                let tag = match self.variant_tag(enum_name.as_str(), variant_name.as_str()) {
                    Some(t) => t,
                    None => {
                        self.say(
                            ErrorCode::UnknownConstructorPattern,
                            cat5(
                                "Pattern references unknown constructor `",
                                enum_name.as_str(),
                                "::",
                                variant_name.as_str(),
                                "`",
                            ),
                            range,
                        );
                        return expected.clone();
                    },
                };
                let found = self.poly_or_registry_payload(enum_name.as_str(), tag, expected, range);
                let declared = match found {
                    Some(p) => p,
                    None => EnumVariantPayloadTy::Unit,
                };
                let early = self.infer_payload_pattern(
                    enum_name.as_str(),
                    variant_name.as_str(),
                    &declared,
                    payload,
                    range,
                );
                match early {
                    Some(t) => t,
                    None => expected.clone(),
                }
            },
        }
    }

    fn infer_payload_pattern(
        &mut self,
        enum_name: &str,
        variant: &str,
        declared: &EnumVariantPayloadTy,
        payload: &PatternPayload,
        range: Span,
    ) -> (r: Option<Ty>)
        ensures
            (final(self)@, r.deep_view()) == old(self)@.infer_payload_pattern(
                enum_name@,
                variant@,
                declared@,
                *payload,
                range,
            ),
        decreases payload, 1nat,
    {
        let full = cat3(enum_name, "::", variant);
        match (declared, payload) {
            (EnumVariantPayloadTy::Unit, PatternPayload::Unit) => None,
            (EnumVariantPayloadTy::Tuple(tys), PatternPayload::Tuple(parts)) => {
                if parts.len() != tys.len() {
                    let want = number(tys.len());
                    let got = number(parts.len());
                    let start = cat5(
                        "Constructor pattern `",
                        full.as_str(),
                        "` expects ",
                        want.as_str(),
                        " sub-patterns, got ",
                    );
                    let t = self.error_with_help(
                        ErrorCode::GenericTypeError,
                        cat2(start.as_str(), got.as_str()),
                        range,
                        "check the variant's declared payload arity".to_owned(),
                    );
                    return Some(t);
                }
                self.infer_sub_patterns(parts, tys, range);
                None
            },
            (EnumVariantPayloadTy::Record(decls), PatternPayload::Record(fields)) => {
                if let Some(name) = find_repeated_field(fields) {
                    let t = self.error_with_help(
                        ErrorCode::DuplicateField,
                        cat5(
                            "Duplicate field `",
                            name.as_str(),
                            "` in record pattern `",
                            full.as_str(),
                            "`",
                        ),
                        range,
                        "each field must appear exactly once".to_owned(),
                    );
                    return Some(t);
                }
                let early = self.infer_record_pattern(full.as_str(), fields, decls, range, 0);
                if early.is_some() {
                    return early;
                }
                if let Some(name) = find_undeclared_field(fields, decls) {
                    let names = field_names(decls);
                    let list = join_ticked(&names);
                    let t = self.error_with_help(
                        ErrorCode::UnknownField,
                        cat5(
                            "Unknown field `",
                            name.as_str(),
                            "` in record pattern `",
                            full.as_str(),
                            "`",
                        ),
                        range,
                        cat2("the declared fields are: ", list.as_str()),
                    );
                    return Some(t);
                }
                None
            },
            _ => {
                let uses = match payload {
                    PatternPayload::Unit => "unit",
                    PatternPayload::Tuple(_) => "tuple",
                    PatternPayload::Record(_) => "record",
                };
                let t = self.error_with_help(
                    ErrorCode::PayloadShapeMismatch,
                    cat7(
                        "Constructor pattern `",
                        full.as_str(),
                        "` payload shape mismatch (declared as ",
                        payload_kind_name(declared),
                        ", pattern uses ",
                        uses,
                        ")",
                    ),
                    range,
                    "check the variant's declared payload shape".to_owned(),
                );
                Some(t)
            },
        }
    }

    fn infer_sub_patterns(&mut self, parts: &Vec<Pattern>, tys: &Vec<Ty>, range: Span)
        ensures
            final(self)@ == old(self)@.infer_sub_patterns(parts@, tys.deep_view(), range, 0),
        decreases parts@, parts@.len(),
    {
        let ghost trees = tys.deep_view();
        let ghost whole = self@.infer_sub_patterns(parts@, trees, range, 0);
        let mut i: usize = 0;
        while i < parts.len() && i < tys.len()
            invariant
                i <= parts.len(),
                i <= tys.len(),
                trees == tys.deep_view(),
                whole == self@.infer_sub_patterns(parts@, trees, range, i as nat),
            decreases parts.len() - i,
        {
            assert(trees[i as int] == tys@[i as int]@);
            let _ = self.infer_pattern(&parts[i], &tys[i], range);
            i += 1;
        }
    }

    fn infer_record_pattern(
        &mut self,
        full: &str,
        fields: &Vec<PatternField>,
        decls: &Vec<(String, Ty)>,
        range: Span,
        at: usize,
    ) -> (r: Option<Ty>)
        ensures
            (final(self)@, r.deep_view()) == old(self)@.infer_record_pattern(
                full@,
                fields@,
                tree::names_of(decls.deep_view()),
                tree::trees_of(decls.deep_view()),
                range,
                at as nat,
            ),
        decreases fields@, decls@.len() - at,
    {
        if at >= decls.len() {
            return None;
        }
        let name = decls[at].0.as_str();
        proof {
            assert(tree::names_of(decls.deep_view())[at as int] == decls@[at as int].0@);
            assert(tree::trees_of(decls.deep_view())[at as int] == decls@[at as int].1@);
            assert(fields@.take(fields.len() as int) =~= fields@);
        }
        match find_pattern_field(fields, name, fields.len()) {
            Some(k) => {
                let _ = self.infer_pattern(&fields[k].pattern, &decls[at].1, range);
                self.infer_record_pattern(full, fields, decls, range, at + 1)
            },
            None => {
                let t = self.error_with_help(
                    ErrorCode::MissingField,
                    cat5("Missing field `", name, "` in record pattern `", full, "`"),
                    range,
                    cat5("add `", name, ": _` (or `", name, ": binding`) to the pattern"),
                );
                Some(t)
            },
        }
    }

    fn tested_by(&self, pattern: &Pattern) -> (r: InnerCoverage)
        ensures
            r == self@.tested_by(*pattern),
    {
        match pattern {
            Pattern::Constructor { enum_name, variant_name, payload: _ } => match self.variant_tag(
                enum_name.as_str(),
                variant_name.as_str(),
            ) {
                Some(t) => InnerCoverage::Tag(t),
                None => InnerCoverage::Any,
            },
            _ => InnerCoverage::Any,
        }
    }

    /// Which tag the first sub-pattern of a payload tests that is not trivial, if
    /// any: wildcards and bindings always match. Two arms of the same outer tag
    /// are both reachable as long as this differs, as in
    /// `Result::Ok(Option::Some(v))` and `Result::Ok(Option::None)`.
    pub fn inner_coverage(&self, payload: &PatternPayload) -> (r: InnerCoverage)
        ensures
            r == self@.inner_coverage(*payload),
    {
        match payload {
            PatternPayload::Unit => InnerCoverage::Any,
            PatternPayload::Tuple(parts) => {
                let ghost all = parts@;
                let mut i: usize = 0;
                while i < parts.len()
                    invariant
                        i <= parts.len(),
                        all == parts@,
                        self@.inner_coverage(*payload) == self@.first_tested(all, i as nat),
                    decreases parts.len() - i,
                {
                    if let Pattern::Constructor { .. } = &parts[i] {
                        return self.tested_by(&parts[i]);
                    }
                    i += 1;
                }
                InnerCoverage::Any
            },
            PatternPayload::Record(fields) => {
                let ghost all = Seq::new(fields@.len(), |i: int| fields@[i].pattern);
                let mut i: usize = 0;
                while i < fields.len()
                    invariant
                        i <= fields.len(),
                        all == Seq::new(fields@.len(), |i: int| fields@[i].pattern),
                        self@.inner_coverage(*payload) == self@.first_tested(all, i as nat),
                    decreases fields.len() - i,
                {
                    if let Pattern::Constructor { .. } = &fields[i].pattern {
                        return self.tested_by(&fields[i].pattern);
                    }
                    i += 1;
                }
                InnerCoverage::Any
            },
        }
    }

    /// Capture what an arm covers for the deferred exhaustiveness check.
    pub fn arm_coverage(&self, pattern: &Pattern, range: Span) -> (r: ArmCoverage)
        ensures
            r == self@.arm_coverage(*pattern, range),
    {
        match pattern {
            Pattern::Constructor { enum_name, variant_name, payload } => ArmCoverage {
                tag: self.variant_tag(enum_name.as_str(), variant_name.as_str()),
                inner: self.inner_coverage(payload),
                is_catchall: false,
                range,
            },
            _ => ArmCoverage { tag: None, inner: InnerCoverage::Any, is_catchall: true, range },
        }
    }

    fn variants_with(
        names: &Vec<String>,
        payloads: &Vec<EnumVariantPayloadTy>,
        params: &Vec<String>,
        args: &Vec<Ty>,
    ) -> (r: Vec<(String, EnumVariantPayloadTy)>)
        requires
            names@.len() == payloads@.len(),
        ensures
            r.deep_view() == variants_with(
                names.deep_view(),
                payloads.deep_view(),
                params.deep_view(),
                args.deep_view(),
            ),
    {
        let ghost all = variants_with(
            names.deep_view(),
            payloads.deep_view(),
            params.deep_view(),
            args.deep_view(),
        );
        let mut out: Vec<(String, EnumVariantPayloadTy)> = Vec::new();
        let mut i: usize = 0;
        while i < names.len()
            invariant
                i <= names.len(),
                names@.len() == payloads@.len(),
                all == variants_with(
                    names.deep_view(),
                    payloads.deep_view(),
                    params.deep_view(),
                    args.deep_view(),
                ),
                out.deep_view() == all.take(i as int),
            decreases names.len() - i,
        {
            let ghost before = out.deep_view();
            let pair = (names[i].clone(), subst_payload_params(&payloads[i], params, args));
            assert(names.deep_view()[i as int] == names@[i as int]@);
            assert(payloads.deep_view()[i as int] == payloads@[i as int]@);
            out.push(pair);
            assert(out.deep_view() =~= before.push((pair.0@, pair.1@)));
            i += 1;
            assert(out.deep_view() =~= all.take(i as int));
        }
        assert(out.deep_view() =~= all);
        out
    }

    /// Variant list for exhaustiveness from an applied enum type.
    pub fn poly_variants_from_app(&self, ty: &Ty) -> (r: Option<Vec<(String, EnumVariantPayloadTy)>>)
        ensures
            r.deep_view() == self@.poly_variants_from_app(ty@),
        decreases ty,
    {
        match ty {
            Ty::App(head, args) => {
                assert(ty@.kids()[0] == head@);
                let ghost trees = ty@.kids().drop_first();
                assert(trees == args.deep_view());
                let name = match &**head {
                    Ty::Con(n) => n.as_str(),
                    _ => {
                        return None;
                    },
                };
                if same_text(name, "Option") {
                    if args.len() == 0 {
                        return None;
                    }
                    assert(trees[0] == args@[0]@);
                    return Some(
                        two_variants(
                            "None",
                            EnumVariantPayloadTy::Unit,
                            "Some",
                            payload1(args[0].clone()),
                        ),
                    );
                }
                if same_text(name, "Result") {
                    if args.len() < 2 {
                        return None;
                    }
                    assert(trees[0] == args@[0]@ && trees[1] == args@[1]@);
                    return Some(
                        two_variants(
                            "Ok",
                            payload1(args[0].clone()),
                            "Err",
                            payload1(args[1].clone()),
                        ),
                    );
                }
                if !self.reg.generics.generic_type_ctors.contains_key(name) {
                    return None;
                }
                let params = self.ctor_params(name);
                if params.len() != args.len() {
                    return None;
                }
                match (self.reg.enums.get(name), self.reg.enum_payloads.get(name)) {
                    (Some(names), Some(payloads)) => if names.len() == payloads.len() {
                        Some(Self::variants_with(names, payloads, &params, args))
                    } else {
                        None
                    },
                    _ => None,
                }
            },
            Ty::Constructor { owner, .. } => {
                assert(ty@.kids()[0] == owner@);
                self.poly_variants_from_app(owner)
            },
            _ => None,
        }
    }

    /// The variants that a match on this type must cover.
    pub fn variants_to_cover(&self, ty: &Ty) -> (r: Option<Vec<(String, EnumVariantPayloadTy)>>)
        ensures
            r.deep_view() == self@.variants_to_cover(ty@),
    {
        let s = match ty {
            Ty::Constructor { owner, .. } => {
                assert(ty@.kids()[0] == owner@);
                &**owner
            },
            _ => ty,
        };
        match s {
            Ty::Sum { name: _, variants } => {
                let r = ty::copy_variants(variants);
                assert(r.deep_view() =~= sum_variants(s@.head()->Sum_1, s@.kids()));
                Some(r)
            },
            _ => self.poly_variants_from_app(s),
        }
    }

    fn report_unreachable(&mut self, arms: &Vec<ArmCoverage>)
        ensures
            final(self)@ == old(self)@.report_unreachable(arms@, 0),
    {
        let ghost whole = self@.report_unreachable(arms@, 0);
        let mut i: usize = 0;
        while i < arms.len()
            invariant
                i <= arms.len(),
                whole == self@.report_unreachable(arms@, i as nat),
            decreases arms.len() - i,
        {
            if arm_repeats(arms, i) {
                self.say(
                    ErrorCode::UnreachableArm,
                    "Unreachable arm: this pattern is matched by an earlier arm".to_owned(),
                    arms[i].range,
                );
            }
            i += 1;
        }
    }

    /// Verify a single match site. Two arms with the same outer tag but
    /// different inner coverage are both reachable; an arm is unreachable only
    /// when both are those of an earlier arm. Without a catch-all arm each
    /// variant of the scrutinee must be tested.
    pub fn check_exhaustiveness(&mut self, pending: &PendingExhaustive)
        ensures
            final(self)@ == old(self)@.check_exhaustiveness(pending@),
    {
        let t = self.resolve(&pending.scrutinee_ty);
        self.report_unreachable(&pending.arms);
        if has_catchall(&pending.arms) {
            return;
        }
        if let Some(variants) = self.variants_to_cover(&t) {
            let missing = untested_variants(&variants, &pending.arms);
            if missing.len() > 0 {
                let names = join_ticked(&missing);
                let mut msg = Message::error(
                    ErrorCode::NonExhaustiveMatch,
                    cat2("Non-exhaustive match: variants not covered: ", names.as_str()),
                    pending.match_range,
                );
                msg.with_help(
                    "add a wildcard arm `_ => ...` to cover the remaining cases".to_owned(),
                );
                self.report(msg);
            }
        }
    }

    /// Run every deferred exhaustiveness check. By this point the substitution
    /// is closed, so scrutinee types are fully resolved.
    pub fn run_pending_exhaustiveness(&mut self)
        ensures
            final(self)@ == old(self)@.run_pending_exhaustiveness(),
    {
        let mut pending: Vec<PendingExhaustive> = Vec::new();
        assert(pending.deep_view() =~= Seq::<PendingV>::empty());
        std::mem::swap(&mut pending, &mut self.out.pending);
        let ghost all = pending.deep_view();
        let ghost whole = self@.check_all(all, 0);
        let mut i: usize = 0;
        while i < pending.len()
            invariant
                i <= pending.len(),
                all == pending.deep_view(),
                whole == self@.check_all(all, i as nat),
            decreases pending.len() - i,
        {
            assert(all[i as int] == pending@[i as int]@);
            self.check_exhaustiveness(&pending[i]);
            i += 1;
        }
    }
}

} // verus!
