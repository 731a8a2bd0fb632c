//! The pass that enters every enum of a program before anything is typed, so
//! that an enum can be used ahead of its declaration.
use crate::ast::{EnumVariantPayload, Expression, FieldInit, MatchArm, Output, TypeParam};
use crate::infer::builtins::{self, is_builtin_ffi_enum};
use crate::infer::decls::{self, schema_subst};
use crate::infer::{Checker, CheckerV, RegistryV};
use crate::generics::GenericsV;
use crate::maps::NameMap;
use crate::report::{ErrorCode, Message, MessageV, Span};
use crate::subst::Subst;
use crate::text::{cat3, cat5, same_text};
use crate::tree::{self, Head, Tree};
use crate::ty::{EnumVariantPayloadTy, Ty, TyVarId, rewrite_payload};
use vstd::prelude::*;

verus! {

broadcast use crate::tree::group_shapes;

/// An enum of the prelude with type parameters.
pub open spec fn is_poly_builtin(name: Seq<char>) -> bool {
    name == "Option"@ || name == "Result"@
}

/// An enum that the compiler knows by itself.
pub open spec fn is_builtin(name: Seq<char>) -> bool {
    is_poly_builtin(name) || builtins::is_ffi_enum(name)
}

/// True for the enums of the prelude with type parameters.
pub fn is_poly_builtin_enum(name: &str) -> (r: bool)
    ensures
        r == is_poly_builtin(name@),
{
    same_text(name, "Option") || same_text(name, "Result")
}

/// True for the enums that the compiler knows by itself.
pub fn is_builtin_enum(name: &str) -> (r: bool)
    ensures
        r == is_builtin(name@),
{
    is_poly_builtin_enum(name) || is_builtin_ffi_enum(name)
}

/// How many fields each payload has.
pub open spec fn arities_of(payloads: Seq<Tree>) -> Seq<usize> {
    Seq::new(payloads.len(), |i: int| payloads[i].kids().len() as usize)
}

fn count_fields(payloads: &Vec<EnumVariantPayloadTy>) -> (r: Vec<usize>)
    ensures
        r@ == arities_of(payloads.deep_view()),
{
    let ghost all = arities_of(payloads.deep_view());
    let mut out: Vec<usize> = Vec::new();
    let mut i: usize = 0;
    while i < payloads.len()
        invariant
            i <= payloads.len(),
            all == arities_of(payloads.deep_view()),
            out@ == all.take(i as int),
        decreases payloads.len() - i,
    {
        assert(payloads.deep_view()[i as int] == payloads@[i as int]@);
        out.push(payloads[i].field_count());
        i += 1;
        assert(out@ =~= all.take(i as int));
    }
    assert(out@ =~= all);
    out
}

/// Payloads with the type parameters by their names.
pub open spec fn schema_payloads(payloads: Seq<Tree>, m: Map<TyVarId, Tree>) -> Seq<Tree> {
    Seq::new(payloads.len(), |i: int| payloads[i].subst(m))
}

fn schemaize_payloads(payloads: &Vec<EnumVariantPayloadTy>, s: &Subst) -> (r: Vec<
    EnumVariantPayloadTy,
>)
    ensures
        r.deep_view() == schema_payloads(payloads.deep_view(), s@),
{
    let ghost all = schema_payloads(payloads.deep_view(), s@);
    let none: NameMap<Ty> = NameMap::new();
    let mut out: Vec<EnumVariantPayloadTy> = Vec::new();
    let mut i: usize = 0;
    while i < payloads.len()
        invariant
            i <= payloads.len(),
            none@ == Map::<Seq<char>, Tree>::empty(),
            all == schema_payloads(payloads.deep_view(), s@),
            out.deep_view() == all.take(i as int),
        decreases payloads.len() - i,
    {
        let ghost before = out.deep_view();
        assert(payloads.deep_view()[i as int] == payloads@[i as int]@);
        let p = rewrite_payload(&payloads[i], &s.map, &none);
        out.push(p);
        assert(out.deep_view() =~= before.push(p@));
        i += 1;
        assert(out.deep_view() =~= all.take(i as int));
    }
    assert(out.deep_view() =~= all);
    out
}

/// The complaint about a declaration of a built-in enum.
pub open spec fn redeclared(name: Seq<char>, range: Span) -> MessageV {
    MessageV::error(
        ErrorCode::DuplicateEnum,
        "Cannot redeclare built-in enum `"@ + name + "`"@,
        range,
    ).helped(
        if is_poly_builtin(name) {
            "`"@ + name + "` is in the prelude; free the short name with `use prelude::"@ + name
                + " as OtherName;` before redefining, or pick a different name"@
        } else {
            "`"@ + name + "` is a compiler FFI type; use `ffi::types::{…}` instead of redeclaring it"@
        },
    )
}

/// The complaint about a declaration of a built-in enum.
pub fn redeclared_message(name: &str, range: Span) -> (r: Message)
    ensures
        r@ == redeclared(name@, range),
{
    let mut m = Message::error(
        ErrorCode::DuplicateEnum,
        cat3("Cannot redeclare built-in enum `", name, "`"),
        range,
    );
    if is_poly_builtin_enum(name) {
        m.with_help(
            cat5(
                "`",
                name,
                "` is in the prelude; free the short name with `use prelude::",
                name,
                " as OtherName;` before redefining, or pick a different name",
            ),
        );
    } else {
        m.with_help(
            cat3(
                "`",
                name,
                "` is a compiler FFI type; use `ffi::types::{…}` instead of redeclaring it",
            ),
        );
    }
    m
}

/// The complaint about a second enum of one name.
pub open spec fn second_enum(name: Seq<char>, range: Span) -> MessageV {
    MessageV::error(
        ErrorCode::DuplicateEnum,
        "Duplicate enum `"@ + name + "`"@,
        range,
    ).helped(
        "an enum named `"@ + name
            + "` was already declared; remove or rename this declaration"@,
    )
}

/// The complaint about a variant that another enum has too.
pub open spec fn second_variant(variant: Seq<char>, range: Span) -> MessageV {
    MessageV::error(
        ErrorCode::DuplicateConstructor,
        "Duplicate constructor `"@ + variant + "` (also declared by another enum)"@,
        range,
    ).helped("constructor names must be unique across all enums"@)
}

impl CheckerV {
    /// The payload of a declared variant.
    pub open spec fn read_payload(self, p: EnumVariantPayload) -> (CheckerV, Tree) {
        match p {
            EnumVariantPayload::Unit => (self, Tree::unit_payload()),
            EnumVariantPayload::Tuple(parts) => {
                let (c, ts) = self.parse_type_names(parts@, 0, Seq::empty());
                (c, Tree::payload(ts))
            },
            EnumVariantPayload::Record(fields) => {
                let (c, pairs) = self.read_fields(fields@, 0, Seq::empty());
                (
                    c,
                    Tree::Node(Head::RecordPayload(tree::names_of(pairs)), tree::trees_of(pairs)),
                )
            },
        }
    }

    /// Named types, from place `at` on.
    pub open spec fn read_fields(
        self,
        fields: Seq<FieldInit>,
        at: nat,
        acc: Seq<(Seq<char>, Tree)>,
    ) -> (CheckerV, Seq<(Seq<char>, Tree)>)
        decreases fields.len() - at,
    {
        if at >= fields.len() {
            (self, acc)
        } else {
            let (c, t) = self.parse_type_name(fields[at as int].value);
            c.read_fields(fields, at + 1, acc.push((fields[at as int].name@, t)))
        }
    }

    /// The names and the payloads of declared variants, from place `at` on.
    pub open spec fn read_variants(
        self,
        variants: Seq<Output>,
        at: nat,
        names: Seq<Seq<char>>,
        payloads: Seq<Tree>,
    ) -> (CheckerV, Seq<Seq<char>>, Seq<Tree>)
        decreases variants.len() - at,
    {
        if at >= variants.len() {
            (self, names, payloads)
        } else {
            match *variants[at as int].expr {
                Expression::EnumVariant { name, payload } => {
                    let (c, p) = self.read_payload(payload);
                    c.read_variants(variants, at + 1, names.push(name@), payloads.push(p))
                },
                _ => self.read_variants(variants, at + 1, names, payloads),
            }
        }
    }

    /// Nothing is entered under the name of an enum.
    pub open spec fn forget_enum(self, name: Seq<char>) -> CheckerV {
        CheckerV {
            reg: RegistryV {
                enums: self.reg.enums.remove(name),
                enum_tags: self.reg.enum_tags.remove(name),
                enum_payloads: self.reg.enum_payloads.remove(name),
                enum_arities: self.reg.enum_arities.remove(name),
                generics: GenericsV {
                    generic_type_ctors: self.reg.generics.generic_type_ctors.remove(name),
                    nominal_type_modules: self.reg.generics.nominal_type_modules.remove(name),
                    ..self.reg.generics
                },
                ..self.reg
            },
            ..self
        }
    }

    /// Some enum has a variant of this name.
    pub open spec fn variant_taken(self, variant: Seq<char>) -> bool {
        exists|e: Seq<char>|
            self.reg.enum_tags.contains_key(e) && (
            #[trigger] self.reg.enum_tags[e]).contains_key(variant)
    }

    /// The first of the variants, from place `at` on, that some enum has.
    pub open spec fn first_taken(self, variants: Seq<Seq<char>>, at: nat) -> Option<Seq<char>>
        decreases variants.len() - at,
    {
        if at >= variants.len() {
            None
        } else if self.variant_taken(variants[at as int]) {
            Some(variants[at as int])
        } else {
            self.first_taken(variants, at + 1)
        }
    }

    /// Why an enum cannot be entered.
    pub open spec fn enum_fault(self, name: Seq<char>, variants: Seq<Seq<char>>, range: Span) -> Option<
        MessageV,
    > {
        if self.reg.enums.contains_key(name) {
            Some(second_enum(name, range))
        } else {
            match self.first_taken(variants, 0) {
                Some(v) => Some(second_variant(v, range)),
                None => None,
            }
        }
    }

    /// The declaration of an enum is given up.
    pub open spec fn abandon_enum(
        self,
        name: Seq<char>,
        previous: Option<Seq<Seq<char>>>,
        pushed: bool,
    ) -> CheckerV {
        self.restore_generic_type_ctor(name, previous).pop_type_params(pushed)
    }

    /// An enum is entered; its payloads name its type parameters.
    pub open spec fn enter_enum(
        self,
        name: Seq<char>,
        variants: Seq<Seq<char>>,
        payloads: Seq<Tree>,
        pushed: bool,
    ) -> CheckerV {
        let order = self.scope.param_order.last();
        self.register_enum(
            name,
            variants,
            if pushed && self.scope.type_params.len() > 0 {
                schema_payloads(
                    payloads,
                    decls::schema_map(order, self.scope.type_params.last(), order.len()),
                )
            } else {
                payloads
            },
            arities_of(payloads),
        ).register_nominal(name).pop_type_params(pushed)
    }

    /// An enum is entered, or the complaint about it goes to `errs`.
    pub open spec fn declare_enum(
        self,
        name: Seq<char>,
        params: Seq<TypeParam>,
        variants: Seq<Output>,
        range: Span,
        errs: Seq<MessageV>,
    ) -> (CheckerV, Seq<MessageV>) {
        let (c, previous) = self.register_generic_type_ctor(name, params);
        let pushed = params.len() > 0;
        let (c, names, payloads) = c.push_type_params(params).read_variants(
            variants,
            0,
            Seq::empty(),
            Seq::empty(),
        );
        if is_builtin(name) && (c.scope.bindings.contains_key(name) || builtins::is_ffi_enum(name)) {
            (c.abandon_enum(name, previous, pushed), errs.push(redeclared(name, range)))
        } else {
            let c = if is_builtin(name) {
                c.forget_enum(name)
            } else {
                c
            };
            match c.enum_fault(name, names, range) {
                Some(m) => (c.abandon_enum(name, previous, pushed), errs.push(m)),
                None => (c.enter_enum(name, names, payloads, pushed), errs),
            }
        }
    }

    /// The enums of a subtree are entered; complaints go to `errs`.
    pub open spec fn forward(self, node: Output, errs: Seq<MessageV>) -> (CheckerV, Seq<MessageV>)
        decreases node, 0nat,
    {
        match *node.expr {
            Expression::EnumDecl { name, type_params, variants } => self.declare_enum(
                name@,
                type_params@,
                variants@,
                node.span,
                errs,
            ),
            Expression::Noop(_) => (self, errs),
            Expression::Comment(_) => (self, errs),
            Expression::Integer(_) => (self, errs),
            Expression::Float(_) => (self, errs),
            Expression::String(_) => (self, errs),
            Expression::Bool(_) => (self, errs),
            Expression::Identifier(_) => (self, errs),
            Expression::Type(_) => (self, errs),
            Expression::Default(_) => (self, errs),
            Expression::Break => (self, errs),
            Expression::Continue => (self, errs),
            Expression::Use { .. } => (self, errs),
            Expression::Module(_, _) => (self, errs),
            Expression::Variable(_, _) => (self, errs),
            Expression::Constant(_, _) => (self, errs),
            Expression::Argument(_, _) => (self, errs),
            Expression::Field(_, _, _) => (self, errs),
            Expression::ForeignBlock { .. } => (self, errs),
            Expression::ForeignStruct(_) => (self, errs),
            Expression::EnumVariant { .. } => (self, errs),
            Expression::Construct { .. } => (self, errs),
            Expression::AssocTypeDecl { .. } => (self, errs),
            Expression::Expr(e) => self.forward(e, errs),
            Expression::Group(e) => self.forward(e, errs),
            Expression::Statement(e) => self.forward(e, errs),
            Expression::ExprStatement(e) => self.forward(e, errs),
            Expression::Return(e) => self.forward(e, errs),
            Expression::ImplicitReturn(e) => self.forward(e, errs),
            Expression::Raise(e) => self.forward(e, errs),
            Expression::Panic(e) => self.forward(e, errs),
            Expression::Try(e) => self.forward(e, errs),
            Expression::Yield(e) => self.forward(e, errs),
            Expression::YieldFrom(e) => self.forward(e, errs),
            Expression::Negate(e) => self.forward(e, errs),
            Expression::Not(e) => self.forward(e, errs),
            Expression::LogicalNot(e) => self.forward(e, errs),
            Expression::Positive(e) => self.forward(e, errs),
            Expression::Adjust { target: e, .. } => self.forward(e, errs),
            Expression::Defer(e) => self.forward(e, errs),
            Expression::Member(e) => self.forward(e, errs),
            Expression::Dload(e) => self.forward(e, errs),
            Expression::Done(e) => self.forward(e, errs),
            Expression::TypeAlias { ty: e, .. } => self.forward(e, errs),
            Expression::AssocTypeDef { ty: e, .. } => self.forward(e, errs),
            Expression::Forall { ty: e, .. } => self.forward(e, errs),
            Expression::Method(_, e) => self.forward(e, errs),
            Expression::Access(e, _) => self.forward(e, errs),
            Expression::OptionalAccess(e, _) => self.forward(e, errs),
            Expression::Assignment(l, r) => {
                let (c, errs) = self.forward(l, errs);
                c.forward(r, errs)
            },
            Expression::CompoundAssign(l, _, r) => {
                let (c, errs) = self.forward(l, errs);
                c.forward(r, errs)
            },
            Expression::TypeFun(l, r) => {
                let (c, errs) = self.forward(l, errs);
                c.forward(r, errs)
            },
            Expression::Add(l, r) => {
                let (c, errs) = self.forward(l, errs);
                c.forward(r, errs)
            },
            Expression::Sub(l, r) => {
                let (c, errs) = self.forward(l, errs);
                c.forward(r, errs)
            },
            Expression::Mul(l, r) => {
                let (c, errs) = self.forward(l, errs);
                c.forward(r, errs)
            },
            Expression::Div(l, r) => {
                let (c, errs) = self.forward(l, errs);
                c.forward(r, errs)
            },
            Expression::Mod(l, r) => {
                let (c, errs) = self.forward(l, errs);
                c.forward(r, errs)
            },
            Expression::Pow(l, r) => {
                let (c, errs) = self.forward(l, errs);
                c.forward(r, errs)
            },
            Expression::Shl(l, r) => {
                let (c, errs) = self.forward(l, errs);
                c.forward(r, errs)
            },
            Expression::Shr(l, r) => {
                let (c, errs) = self.forward(l, errs);
                c.forward(r, errs)
            },
            Expression::Xor(l, r) => {
                let (c, errs) = self.forward(l, errs);
                c.forward(r, errs)
            },
            Expression::And(l, r) => {
                let (c, errs) = self.forward(l, errs);
                c.forward(r, errs)
            },
            Expression::Or(l, r) => {
                let (c, errs) = self.forward(l, errs);
                c.forward(r, errs)
            },
            Expression::BitAnd(l, r) => {
                let (c, errs) = self.forward(l, errs);
                c.forward(r, errs)
            },
            Expression::BitOr(l, r) => {
                let (c, errs) = self.forward(l, errs);
                c.forward(r, errs)
            },
            Expression::Eq(l, r) => {
                let (c, errs) = self.forward(l, errs);
                c.forward(r, errs)
            },
            Expression::Neq(l, r) => {
                let (c, errs) = self.forward(l, errs);
                c.forward(r, errs)
            },
            Expression::Le(l, r) => {
                let (c, errs) = self.forward(l, errs);
                c.forward(r, errs)
            },
            Expression::Gt(l, r) => {
                let (c, errs) = self.forward(l, errs);
                c.forward(r, errs)
            },
            Expression::Leq(l, r) => {
                let (c, errs) = self.forward(l, errs);
                c.forward(r, errs)
            },
            Expression::Geq(l, r) => {
                let (c, errs) = self.forward(l, errs);
                c.forward(r, errs)
            },
            Expression::Coalesce(l, r) => {
                let (c, errs) = self.forward(l, errs);
                c.forward(r, errs)
            },
            Expression::Index(l, r) => {
                let (c, errs) = self.forward(l, errs);
                c.forward(r, errs)
            },
            Expression::Function { args: l, body: r, .. } => {
                let (c, errs) = self.forward(l, errs);
                c.forward(r, errs)
            },
            Expression::Block(cs) => self.forward_all(cs@, 0, errs),
            Expression::Program(cs) => self.forward_all(cs@, 0, errs),
            Expression::Fragment(cs) => self.forward_all(cs@, 0, errs),
            Expression::List(cs) => self.forward_all(cs@, 0, errs),
            Expression::Declare(cs) => self.forward_all(cs@, 0, errs),
            Expression::Invoke(cs) => self.forward_all(cs@, 0, errs),
            Expression::Tuple(cs) => self.forward_all(cs@, 0, errs),
            Expression::Array(cs) => self.forward_all(cs@, 0, errs),
            Expression::If(cs) => self.forward_all(cs@, 0, errs),
            Expression::Implementation { methods: cs, .. } => self.forward_all(cs@, 0, errs),
            Expression::Class { fields: cs, .. } => self.forward_all(cs@, 0, errs),
            Expression::TypeApp { args: cs, .. } => self.forward_all(cs@, 0, errs),
            Expression::TypeProjection { args: cs, .. } => self.forward_all(cs@, 0, errs),
            Expression::TypeClass { methods: cs, .. } => self.forward_all(cs@, 0, errs),
            Expression::Print(e, a) => {
                let (c, errs) = self.forward(e, errs);
                c.forward_args(a, errs)
            },
            Expression::Format(e, a) => {
                let (c, errs) = self.forward(e, errs);
                c.forward_args(a, errs)
            },
            Expression::Call { name: e, args: a } => {
                let (c, errs) = self.forward(e, errs);
                c.forward_args(a, errs)
            },
            Expression::Instantiate(e, a) => {
                let (c, errs) = self.forward(e, errs);
                c.forward_args(a, errs)
            },
            Expression::Resume(target, arg) => {
                let (c, errs) = self.forward(target, errs);
                c.forward_opt(arg, errs)
            },
            Expression::Dict(fields) => self.forward_fields(fields@, 0, errs),
            Expression::Branch(cond, body) => {
                let (c, errs) = self.forward_opt(cond, errs);
                c.forward(body, errs)
            },
            Expression::Loop { iterable, body, identifier } => {
                let (c, errs) = self.forward(iterable, errs);
                let (c, errs) = c.forward_opt(identifier, errs);
                c.forward(body, errs)
            },
            Expression::For { init, cond, step, body } => {
                let (c, errs) = self.forward_opt(init, errs);
                let (c, errs) = c.forward(cond, errs);
                let (c, errs) = c.forward(body, errs);
                c.forward_opt(step, errs)
            },
            Expression::Match { scrutinee, arms } => {
                let (c, errs) = self.forward(scrutinee, errs);
                c.forward_arms(arms@, 0, errs)
            },
            Expression::TypeClassImpl { args, methods, .. } => {
                let (c, errs) = self.forward_all(args@, 0, errs);
                c.forward_all(methods@, 0, errs)
            },
        }
    }

    /// The enums of a list of subtrees are entered, from place `at` on.
    pub open spec fn forward_all(self, items: Seq<Output>, at: nat, errs: Seq<MessageV>) -> (
        CheckerV,
        Seq<MessageV>,
    )
        decreases items, items.len() - at,
    {
        if at >= items.len() {
            (self, errs)
        } else {
            let (c, errs) = self.forward(items[at as int], errs);
            c.forward_all(items, at + 1, errs)
        }
    }

    /// The enums of named values are entered, from place `at` on.
    pub open spec fn forward_fields(self, items: Seq<FieldInit>, at: nat, errs: Seq<MessageV>) -> (
        CheckerV,
        Seq<MessageV>,
    )
        decreases items, items.len() - at,
    {
        if at >= items.len() {
            (self, errs)
        } else {
            let (c, errs) = self.forward(items[at as int].value, errs);
            c.forward_fields(items, at + 1, errs)
        }
    }

    /// The enums of match arms are entered, from place `at` on.
    pub open spec fn forward_arms(self, items: Seq<MatchArm>, at: nat, errs: Seq<MessageV>) -> (
        CheckerV,
        Seq<MessageV>,
    )
        decreases items, items.len() - at,
    {
        if at >= items.len() {
            (self, errs)
        } else {
            let (c, errs) = self.forward(items[at as int].body, errs);
            c.forward_arms(items, at + 1, errs)
        }
    }

    /// The enums of an optional subtree are entered.
    pub open spec fn forward_opt(self, item: Option<Output>, errs: Seq<MessageV>) -> (
        CheckerV,
        Seq<MessageV>,
    )
        decreases item, 0nat,
    {
        match item {
            Some(e) => self.forward(e, errs),
            None => (self, errs),
        }
    }

    /// The enums of optional arguments are entered.
    pub open spec fn forward_args(self, args: Option<Vec<Output>>, errs: Seq<MessageV>) -> (
        CheckerV,
        Seq<MessageV>,
    )
        decreases args, 0nat,
    {
        match args {
            Some(a) => self.forward_all(a@, 0, errs),
            None => (self, errs),
        }
    }
}

impl Checker {
    fn read_payload(&mut self, p: &EnumVariantPayload) -> (r: EnumVariantPayloadTy)
        ensures
            (final(self)@, r@) == old(self)@.read_payload(*p),
    {
        match p {
            EnumVariantPayload::Unit => EnumVariantPayloadTy::Unit,
            EnumVariantPayload::Tuple(parts) => {
                EnumVariantPayloadTy::Tuple(self.parse_type_names(parts))
            },
            EnumVariantPayload::Record(fields) => {
                EnumVariantPayloadTy::Record(self.read_fields(fields))
            },
        }
    }

    fn read_fields(&mut self, fields: &Vec<FieldInit>) -> (r: Vec<(String, Ty)>)
        ensures
            (final(self)@, r.deep_view()) == old(self)@.read_fields(fields@, 0, Seq::empty()),
    {
        let mut acc: Vec<(String, Ty)> = Vec::new();
        assert(acc.deep_view() =~= Seq::<(Seq<char>, Tree)>::empty());
        let ghost whole = self@.read_fields(fields@, 0, Seq::empty());
        let mut i: usize = 0;
        while i < fields.len()
            invariant
                i <= fields.len(),
                whole == self@.read_fields(fields@, i as nat, acc.deep_view()),
            decreases fields.len() - i,
        {
            let ghost before = acc.deep_view();
            let t = self.parse_type_name(&fields[i].value);
            let x = (fields[i].name.clone(), t);
            acc.push(x);
            assert(acc.deep_view() =~= before.push((x.0@, x.1@)));
            i += 1;
        }
        acc
    }

    fn read_variants(&mut self, variants: &Vec<Output>) -> (r: (
        Vec<String>,
        Vec<EnumVariantPayloadTy>,
    ))
        ensures
            (final(self)@, r.0.deep_view(), r.1.deep_view()) == old(self)@.read_variants(
                variants@,
                0,
                Seq::empty(),
                Seq::empty(),
            ),
    {
        let mut names: Vec<String> = Vec::new();
        let mut payloads: Vec<EnumVariantPayloadTy> = Vec::new();
        assert(names.deep_view() =~= Seq::<Seq<char>>::empty());
        assert(payloads.deep_view() =~= Seq::<Tree>::empty());
        let ghost whole = self@.read_variants(variants@, 0, Seq::empty(), Seq::empty());
        let mut i: usize = 0;
        while i < variants.len()
            invariant
                i <= variants.len(),
                whole == self@.read_variants(
                    variants@,
                    i as nat,
                    names.deep_view(),
                    payloads.deep_view(),
                ),
            decreases variants.len() - i,
        {
            if let Expression::EnumVariant { name, payload } = &*variants[i].expr {
                let ghost old_names = names.deep_view();
                let ghost old_payloads = payloads.deep_view();
                let p = self.read_payload(payload);
                let n = name.clone();
                names.push(n);
                payloads.push(p);
                assert(names.deep_view() =~= old_names.push(n@));
                assert(payloads.deep_view() =~= old_payloads.push(p@));
            }
            i += 1;
        }
        (names, payloads)
    }

    fn forget_enum(&mut self, name: &str)
        ensures
            final(self)@ == old(self)@.forget_enum(name@),
    {
        self.reg.enums.remove(name);
        self.reg.enum_tags.remove(name);
        self.reg.enum_payloads.remove(name);
        self.reg.enum_arities.remove(name);
        self.reg.generics.generic_type_ctors.remove(name);
        self.reg.generics.nominal_type_modules.remove(name);
    }

    fn variant_taken(&self, variant: &str) -> (r: bool)
        ensures
            r == self@.variant_taken(variant@),
    {
        let tags = &self.reg.enum_tags;
        let n = tags.len();
        let mut i: usize = 0;
        while i < n
            invariant
                i <= n,
                n == tags.order().len(),
                tags == &self.reg.enum_tags,
                forall|j: int|
                    0 <= j < i ==> !(tags@.contains_key(tags.order()[j])
                        && #[trigger] tags@[tags.order()[j]].contains_key(variant@)),
            decreases n - i,
        {
            if let Some(m) = tags.get(tags.key_at(i).as_str()) {
                if m.contains_key(variant) {
                    assert(self@.reg.enum_tags[tags.order()[i as int]].contains_key(variant@));
                    return true;
                }
            }
            i += 1;
        }
        proof {
            tags.order_holds_keys();
            if self@.variant_taken(variant@) {
                let e = choose|e: Seq<char>|
                    self@.reg.enum_tags.contains_key(e) && (
                    #[trigger] self@.reg.enum_tags[e]).contains_key(variant@);
                assert(tags.order().contains(e));
                let j = choose|j: int| 0 <= j < tags.order().len() && tags.order()[j] == e;
                assert(!tags@[tags.order()[j]].contains_key(variant@));
            }
        }
        false
    }

    fn first_taken(&self, variants: &Vec<String>) -> (r: Option<usize>)
        ensures
            match r {
                Some(i) => i < variants.len() && self@.first_taken(variants.deep_view(), 0) == Some(
                    variants@[i as int]@,
                ),
                None => self@.first_taken(variants.deep_view(), 0) is None,
            },
    {
        let ghost all = variants.deep_view();
        let mut i: usize = 0;
        while i < variants.len()
            invariant
                i <= variants.len(),
                all == variants.deep_view(),
                self@.first_taken(all, 0) == self@.first_taken(all, i as nat),
            decreases variants.len() - i,
        {
            assert(all[i as int] == variants@[i as int]@);
            if self.variant_taken(variants[i].as_str()) {
                return Some(i);
            }
            i += 1;
        }
        None
    }

    fn enum_fault(&self, name: &str, variants: &Vec<String>, range: Span) -> (r: Option<Message>)
        ensures
            r.deep_view() == self@.enum_fault(name@, variants.deep_view(), range),
    {
        if self.reg.enums.contains_key(name) {
            let mut m = Message::error(
                ErrorCode::DuplicateEnum,
                cat3("Duplicate enum `", name, "`"),
                range,
            );
            m.with_help(
                cat3(
                    "an enum named `",
                    name,
                    "` was already declared; remove or rename this declaration",
                ),
            );
            return Some(m);
        }
        match self.first_taken(variants) {
            Some(i) => {
                let mut m = Message::error(
                    ErrorCode::DuplicateConstructor,
                    cat3(
                        "Duplicate constructor `",
                        variants[i].as_str(),
                        "` (also declared by another enum)",
                    ),
                    range,
                );
                m.with_help("constructor names must be unique across all enums".to_owned());
                Some(m)
            },
            None => None,
        }
    }

    fn abandon_enum(&mut self, name: &str, previous: Option<Vec<String>>, pushed: bool)
        ensures
            final(self)@ == old(self)@.abandon_enum(name@, previous.deep_view(), pushed),
    {
        self.restore_generic_type_ctor(name, previous);
        self.pop_type_params(pushed);
    }

    fn enter_enum(
        &mut self,
        name: &str,
        variants: Vec<String>,
        payloads: Vec<EnumVariantPayloadTy>,
        pushed: bool,
    )
        ensures
            final(self)@ == old(self)@.enter_enum(
                name@,
                variants.deep_view(),
                payloads.deep_view(),
                pushed,
            ),
    {
        let arities = count_fields(&payloads);
        let n = self.scope.type_params.len();
        let stored = if pushed && n > 0 {
            let frame = &self.scope.type_params[n - 1];
            assert(frame.order() == self@.scope.param_order.last());
            assert(frame@ == self@.scope.type_params.last());
            let s = schema_subst(frame);
            schemaize_payloads(&payloads, &s)
        } else {
            payloads
        };
        self.register_enum(name, variants, stored, arities);
        self.register_nominal(name);
        self.pop_type_params(pushed);
    }

    fn declare_enum(
        &mut self,
        name: &str,
        params: &Vec<TypeParam>,
        variants: &Vec<Output>,
        range: Span,
        errs: &mut Vec<Message>,
    )
        ensures
            (final(self)@, final(errs).deep_view()) == old(self)@.declare_enum(
                name@,
                params@,
                variants@,
                range,
                old(errs).deep_view(),
            ),
    {
        let previous = self.register_generic_type_ctor(name, params);
        let pushed = params.len() > 0;
        let _ = self.push_type_params(params);
        let (names, payloads) = self.read_variants(variants);
        let builtin = is_builtin_enum(name);
        if builtin && (self.builtin_name_in_scope(name) || is_builtin_ffi_enum(name)) {
            let m = redeclared_message(name, range);
            errs.push(m);
            assert(errs.deep_view() =~= old(errs).deep_view().push(m@));
            self.abandon_enum(name, previous, pushed);
            return;
        }
        if builtin {
            self.forget_enum(name);
        }
        match self.enum_fault(name, &names, range) {
            Some(m) => {
                errs.push(m);
                assert(errs.deep_view() =~= old(errs).deep_view().push(m@));
                self.abandon_enum(name, previous, pushed);
            },
            None => {
                self.enter_enum(name, names, payloads, pushed);
            },
        }
    }

    /// Enter the enums of a program, so that they can be used ahead of their
    /// declarations; the complaints are returned.
    pub fn pre_register_enums(&mut self, ast: &Output) -> (r: Vec<Message>)
        ensures
            (final(self)@, r.deep_view()) == old(self)@.forward(*ast, Seq::empty()),
    {
        let mut errs: Vec<Message> = Vec::new();
        assert(errs.deep_view() =~= Seq::<MessageV>::empty());
        self.forward(ast, &mut errs);
        errs
    }

    fn forward(&mut self, node: &Output, errs: &mut Vec<Message>)
        ensures
            (final(self)@, final(errs).deep_view()) == old(self)@.forward(
                *node,
                old(errs).deep_view(),
            ),
        decreases node, 0nat,
    {
        match &*node.expr {
            Expression::EnumDecl { name, type_params, variants } => self.declare_enum(
                name.as_str(),
                type_params,
                variants,
                node.span,
                errs,
            ),
            Expression::Noop(_) => {},
            Expression::Comment(_) => {},
            Expression::Integer(_) => {},
            Expression::Float(_) => {},
            Expression::String(_) => {},
            Expression::Bool(_) => {},
            Expression::Identifier(_) => {},
            Expression::Type(_) => {},
            Expression::Default(_) => {},
            Expression::Break => {},
            Expression::Continue => {},
            Expression::Use { .. } => {},
            Expression::Module(_, _) => {},
            Expression::Variable(_, _) => {},
            Expression::Constant(_, _) => {},
            Expression::Argument(_, _) => {},
            Expression::Field(_, _, _) => {},
            Expression::ForeignBlock { .. } => {},
            Expression::ForeignStruct(_) => {},
            Expression::EnumVariant { .. } => {},
            Expression::Construct { .. } => {},
            Expression::AssocTypeDecl { .. } => {},
            Expression::Expr(e) => self.forward(e, errs),
            Expression::Group(e) => self.forward(e, errs),
            Expression::Statement(e) => self.forward(e, errs),
            Expression::ExprStatement(e) => self.forward(e, errs),
            Expression::Return(e) => self.forward(e, errs),
            Expression::ImplicitReturn(e) => self.forward(e, errs),
            Expression::Raise(e) => self.forward(e, errs),
            Expression::Panic(e) => self.forward(e, errs),
            Expression::Try(e) => self.forward(e, errs),
            Expression::Yield(e) => self.forward(e, errs),
            Expression::YieldFrom(e) => self.forward(e, errs),
            Expression::Negate(e) => self.forward(e, errs),
            Expression::Not(e) => self.forward(e, errs),
            Expression::LogicalNot(e) => self.forward(e, errs),
            Expression::Positive(e) => self.forward(e, errs),
            Expression::Adjust { target: e, .. } => self.forward(e, errs),
            Expression::Defer(e) => self.forward(e, errs),
            Expression::Member(e) => self.forward(e, errs),
            Expression::Dload(e) => self.forward(e, errs),
            Expression::Done(e) => self.forward(e, errs),
            Expression::TypeAlias { ty: e, .. } => self.forward(e, errs),
            Expression::AssocTypeDef { ty: e, .. } => self.forward(e, errs),
            Expression::Forall { ty: e, .. } => self.forward(e, errs),
            Expression::Method(_, e) => self.forward(e, errs),
            Expression::Access(e, _) => self.forward(e, errs),
            Expression::OptionalAccess(e, _) => self.forward(e, errs),
            Expression::Assignment(l, r) => {
                self.forward(l, errs);
                self.forward(r, errs);
            },
            Expression::CompoundAssign(l, _, r) => {
                self.forward(l, errs);
                self.forward(r, errs);
            },
            Expression::TypeFun(l, r) => {
                self.forward(l, errs);
                self.forward(r, errs);
            },
            Expression::Add(l, r) => {
                self.forward(l, errs);
                self.forward(r, errs);
            },
            Expression::Sub(l, r) => {
                self.forward(l, errs);
                self.forward(r, errs);
            },
            Expression::Mul(l, r) => {
                self.forward(l, errs);
                self.forward(r, errs);
            },
            Expression::Div(l, r) => {
                self.forward(l, errs);
                self.forward(r, errs);
            },
            Expression::Mod(l, r) => {
                self.forward(l, errs);
                self.forward(r, errs);
            },
            Expression::Pow(l, r) => {
                self.forward(l, errs);
                self.forward(r, errs);
            },
            Expression::Shl(l, r) => {
                self.forward(l, errs);
                self.forward(r, errs);
            },
            Expression::Shr(l, r) => {
                self.forward(l, errs);
                self.forward(r, errs);
            },
            Expression::Xor(l, r) => {
                self.forward(l, errs);
                self.forward(r, errs);
            },
            Expression::And(l, r) => {
                self.forward(l, errs);
                self.forward(r, errs);
            },
            Expression::Or(l, r) => {
                self.forward(l, errs);
                self.forward(r, errs);
            },
            Expression::BitAnd(l, r) => {
                self.forward(l, errs);
                self.forward(r, errs);
            },
            Expression::BitOr(l, r) => {
                self.forward(l, errs);
                self.forward(r, errs);
            },
            Expression::Eq(l, r) => {
                self.forward(l, errs);
                self.forward(r, errs);
            },
            Expression::Neq(l, r) => {
                self.forward(l, errs);
                self.forward(r, errs);
            },
            Expression::Le(l, r) => {
                self.forward(l, errs);
                self.forward(r, errs);
            },
            Expression::Gt(l, r) => {
                self.forward(l, errs);
                self.forward(r, errs);
            },
            Expression::Leq(l, r) => {
                self.forward(l, errs);
                self.forward(r, errs);
            },
            Expression::Geq(l, r) => {
                self.forward(l, errs);
                self.forward(r, errs);
            },
            Expression::Coalesce(l, r) => {
                self.forward(l, errs);
                self.forward(r, errs);
            },
            Expression::Index(l, r) => {
                self.forward(l, errs);
                self.forward(r, errs);
            },
            Expression::Function { args: l, body: r, .. } => {
                self.forward(l, errs);
                self.forward(r, errs);
            },
            Expression::Block(cs) => self.forward_all(cs, errs),
            Expression::Program(cs) => self.forward_all(cs, errs),
            Expression::Fragment(cs) => self.forward_all(cs, errs),
            Expression::List(cs) => self.forward_all(cs, errs),
            Expression::Declare(cs) => self.forward_all(cs, errs),
            Expression::Invoke(cs) => self.forward_all(cs, errs),
            Expression::Tuple(cs) => self.forward_all(cs, errs),
            Expression::Array(cs) => self.forward_all(cs, errs),
            Expression::If(cs) => self.forward_all(cs, errs),
            Expression::Implementation { methods: cs, .. } => self.forward_all(cs, errs),
            Expression::Class { fields: cs, .. } => self.forward_all(cs, errs),
            Expression::TypeApp { args: cs, .. } => self.forward_all(cs, errs),
            Expression::TypeProjection { args: cs, .. } => self.forward_all(cs, errs),
            Expression::TypeClass { methods: cs, .. } => self.forward_all(cs, errs),
            Expression::Print(e, a) => {
                self.forward(e, errs);
                self.forward_args(a, errs);
            },
            Expression::Format(e, a) => {
                self.forward(e, errs);
                self.forward_args(a, errs);
            },
            Expression::Call { name: e, args: a } => {
                self.forward(e, errs);
                self.forward_args(a, errs);
            },
            Expression::Instantiate(e, a) => {
                self.forward(e, errs);
                self.forward_args(a, errs);
            },
            Expression::Resume(target, arg) => {
                self.forward(target, errs);
                self.forward_opt(arg, errs);
            },
            Expression::Dict(fields) => self.forward_fields(fields, errs),
            Expression::Branch(cond, body) => {
                self.forward_opt(cond, errs);
                self.forward(body, errs);
            },
            Expression::Loop { iterable, body, identifier } => {
                self.forward(iterable, errs);
                self.forward_opt(identifier, errs);
                self.forward(body, errs);
            },
            Expression::For { init, cond, step, body } => {
                self.forward_opt(init, errs);
                self.forward(cond, errs);
                self.forward(body, errs);
                self.forward_opt(step, errs);
            },
            Expression::Match { scrutinee, arms } => {
                self.forward(scrutinee, errs);
                self.forward_arms(arms, errs);
            },
            Expression::TypeClassImpl { args, methods, .. } => {
                self.forward_all(args, errs);
                self.forward_all(methods, errs);
            },
        }
    }

    fn forward_all(&mut self, items: &Vec<Output>, errs: &mut Vec<Message>)
        ensures
            (final(self)@, final(errs).deep_view()) == old(self)@.forward_all(
                items@,
                0,
                old(errs).deep_view(),
            ),
        decreases items@, items@.len(),
    {
        let ghost whole = self@.forward_all(items@, 0, errs.deep_view());
        let mut i: usize = 0;
        while i < items.len()
            invariant
                i <= items.len(),
                whole == self@.forward_all(items@, i as nat, errs.deep_view()),
            decreases items.len() - i,
        {
            assert(decreases_to!(items@ => items@[i as int]));
            self.forward(&items[i], errs);
            i += 1;
        }
    }

    fn forward_fields(&mut self, items: &Vec<FieldInit>, errs: &mut Vec<Message>)
        ensures
            (final(self)@, final(errs).deep_view()) == old(self)@.forward_fields(
                items@,
                0,
                old(errs).deep_view(),
            ),
        decreases items@, items@.len(),
    {
        let ghost whole = self@.forward_fields(items@, 0, errs.deep_view());
        let mut i: usize = 0;
        while i < items.len()
            invariant
                i <= items.len(),
                whole == self@.forward_fields(items@, i as nat, errs.deep_view()),
            decreases items.len() - i,
        {
            assert(decreases_to!(items@ => items@[i as int]));
            self.forward(&items[i].value, errs);
            i += 1;
        }
    }

    fn forward_arms(&mut self, items: &Vec<MatchArm>, errs: &mut Vec<Message>)
        ensures
            (final(self)@, final(errs).deep_view()) == old(self)@.forward_arms(
                items@,
                0,
                old(errs).deep_view(),
            ),
        decreases items@, items@.len(),
    {
        let ghost whole = self@.forward_arms(items@, 0, errs.deep_view());
        let mut i: usize = 0;
        while i < items.len()
            invariant
                i <= items.len(),
                whole == self@.forward_arms(items@, i as nat, errs.deep_view()),
            decreases items.len() - i,
        {
            assert(decreases_to!(items@ => items@[i as int]));
            self.forward(&items[i].body, errs);
            i += 1;
        }
    }

    fn forward_opt(&mut self, item: &Option<Output>, errs: &mut Vec<Message>)
        ensures
            (final(self)@, final(errs).deep_view()) == old(self)@.forward_opt(
                *item,
                old(errs).deep_view(),
            ),
        decreases *item, 0nat,
    {
        if let Some(e) = item {
            self.forward(e, errs);
        }
    }

    fn forward_args(&mut self, args: &Option<Vec<Output>>, errs: &mut Vec<Message>)
        ensures
            (final(self)@, final(errs).deep_view()) == old(self)@.forward_args(
                *args,
                old(errs).deep_view(),
            ),
        decreases *args, 0nat,
    {
        if let Some(a) = args {
            self.forward_all(a, errs);
        }
    }
}

} // verus!
