//! The steps of [`forward`](crate::infer::forward) only add.
use crate::ast::{EnumVariantPayload, Expression, FieldInit, MatchArm, Output, TypeParam};
use crate::infer::CheckerV;
use crate::infer::growth::{self, steps};
use crate::report::{MessageV, Span};
use crate::tree::Tree;
use vstd::prelude::*;

verus! {

impl CheckerV {
    pub broadcast proof fn read_payload_grows(self, p: EnumVariantPayload)
        ensures
            steps(self.ledger(), (#[trigger] self.read_payload(p)).0.ledger()),
    {
        broadcast use {
            growth::chained,
            CheckerV::parse_type_names_grows,
            CheckerV::read_fields_grows,
        };

        growth::starts(self.ledger());
        growth::arrives(self.ledger(), self.read_payload(p).0.ledger());
    }

    pub broadcast proof fn read_fields_grows(
        self,
        fields: Seq<FieldInit>,
        at: nat,
        acc: Seq<(Seq<char>, Tree)>,
    )
        ensures
            steps(self.ledger(), (#[trigger] self.read_fields(fields, at, acc)).0.ledger()),
        decreases fields.len() - at,
    {
        broadcast use {growth::chained, CheckerV::parse_type_name_grows};

        if at < fields.len() {
            let (c, t) = self.parse_type_name(fields[at as int].value);
            c.read_fields_grows(fields, at + 1, acc.push((fields[at as int].name@, t)));
        }
        growth::starts(self.ledger());
        growth::arrives(self.ledger(), self.read_fields(fields, at, acc).0.ledger());
    }

    pub broadcast proof fn read_variants_grows(
        self,
        variants: Seq<Output>,
        at: nat,
        names: Seq<Seq<char>>,
        payloads: Seq<Tree>,
    )
        ensures
            steps(
                self.ledger(),
                (#[trigger] self.read_variants(variants, at, names, payloads)).0.ledger(),
            ),
        decreases variants.len() - at,
    {
        broadcast use {growth::chained, CheckerV::read_payload_grows};

        if at < variants.len() {
            match *variants[at as int].expr {
                Expression::EnumVariant { name, payload } => {
                    let (c, p) = self.read_payload(payload);
                    c.read_variants_grows(variants, at + 1, names.push(name@), payloads.push(p));
                },
                _ => {
                    self.read_variants_grows(variants, at + 1, names, payloads);
                },
            }
        }
        growth::starts(self.ledger());
        growth::arrives(
            self.ledger(),
            self.read_variants(variants, at, names, payloads).0.ledger(),
        );
    }

    pub broadcast proof fn abandon_enum_grows(
        self,
        name: Seq<char>,
        previous: Option<Seq<Seq<char>>>,
        pushed: bool,
    )
        ensures
            steps(self.ledger(), (#[trigger] self.abandon_enum(name, previous, pushed)).ledger()),
    {
        broadcast use {
            growth::chained,
            CheckerV::restore_generic_type_ctor_grows,
            CheckerV::pop_type_params_grows,
        };

        growth::starts(self.ledger());
        growth::arrives(self.ledger(), self.abandon_enum(name, previous, pushed).ledger());
    }

    pub broadcast proof fn enter_enum_grows(
        self,
        name: Seq<char>,
        variants: Seq<Seq<char>>,
        payloads: Seq<Tree>,
        pushed: bool,
    )
        ensures
            steps(
                self.ledger(),
                (#[trigger] self.enter_enum(name, variants, payloads, pushed)).ledger(),
            ),
    {
        broadcast use {growth::chained, CheckerV::pop_type_params_grows};

        growth::starts(self.ledger());
        growth::arrives(self.ledger(), self.enter_enum(name, variants, payloads, pushed).ledger());
    }

    pub broadcast proof fn declare_enum_grows(
        self,
        name: Seq<char>,
        params: Seq<TypeParam>,
        variants: Seq<Output>,
        range: Span,
        errs: Seq<MessageV>,
    )
        ensures
            steps(
                self.ledger(),
                (#[trigger] self.declare_enum(name, params, variants, range, errs)).0.ledger(),
            ),
    {
        broadcast use {
            growth::chained,
            CheckerV::register_generic_type_ctor_grows,
            CheckerV::push_type_params_grows,
            CheckerV::read_variants_grows,
            CheckerV::abandon_enum_grows,
            CheckerV::enter_enum_grows,
        };

        growth::starts(self.ledger());
        growth::arrives(
            self.ledger(),
            self.declare_enum(name, params, variants, range, errs).0.ledger(),
        );
    }

    pub broadcast proof fn forward_grows(self, node: Output, errs: Seq<MessageV>)
        ensures
            steps(self.ledger(), (#[trigger] self.forward(node, errs)).0.ledger()),
        decreases node, 0nat,
    {
        broadcast use {growth::chained, CheckerV::declare_enum_grows};

        match *node.expr {
            Expression::Expr(e) => {
                self.forward_grows(e, errs);
            },
            Expression::Group(e) => {
                self.forward_grows(e, errs);
            },
            Expression::Statement(e) => {
                self.forward_grows(e, errs);
            },
            Expression::ExprStatement(e) => {
                self.forward_grows(e, errs);
            },
            Expression::Return(e) => {
                self.forward_grows(e, errs);
            },
            Expression::ImplicitReturn(e) => {
                self.forward_grows(e, errs);
            },
            Expression::Raise(e) => {
                self.forward_grows(e, errs);
            },
            Expression::Panic(e) => {
                self.forward_grows(e, errs);
            },
            Expression::Try(e) => {
                self.forward_grows(e, errs);
            },
            Expression::Yield(e) => {
                self.forward_grows(e, errs);
            },
            Expression::YieldFrom(e) => {
                self.forward_grows(e, errs);
            },
            Expression::Negate(e) => {
                self.forward_grows(e, errs);
            },
            Expression::Not(e) => {
                self.forward_grows(e, errs);
            },
            Expression::LogicalNot(e) => {
                self.forward_grows(e, errs);
            },
            Expression::Positive(e) => {
                self.forward_grows(e, errs);
            },
            Expression::Adjust { target: e, .. } => {
                self.forward_grows(e, errs);
            },
            Expression::Defer(e) => {
                self.forward_grows(e, errs);
            },
            Expression::Member(e) => {
                self.forward_grows(e, errs);
            },
            Expression::Dload(e) => {
                self.forward_grows(e, errs);
            },
            Expression::Done(e) => {
                self.forward_grows(e, errs);
            },
            Expression::TypeAlias { ty: e, .. } => {
                self.forward_grows(e, errs);
            },
            Expression::AssocTypeDef { ty: e, .. } => {
                self.forward_grows(e, errs);
            },
            Expression::Forall { ty: e, .. } => {
                self.forward_grows(e, errs);
            },
            Expression::Method(_, e) => {
                self.forward_grows(e, errs);
            },
            Expression::Access(e, _) => {
                self.forward_grows(e, errs);
            },
            Expression::OptionalAccess(e, _) => {
                self.forward_grows(e, errs);
            },
            Expression::Assignment(l, r) => {
                self.forward_grows(l, errs);
                let (c, errs) = self.forward(l, errs);
                c.forward_grows(r, errs);
            },
            Expression::CompoundAssign(l, _, r) => {
                self.forward_grows(l, errs);
                let (c, errs) = self.forward(l, errs);
                c.forward_grows(r, errs);
            },
            Expression::TypeFun(l, r) => {
                self.forward_grows(l, errs);
                let (c, errs) = self.forward(l, errs);
                c.forward_grows(r, errs);
            },
            Expression::Add(l, r) => {
                self.forward_grows(l, errs);
                let (c, errs) = self.forward(l, errs);
                c.forward_grows(r, errs);
            },
            Expression::Sub(l, r) => {
                self.forward_grows(l, errs);
                let (c, errs) = self.forward(l, errs);
                c.forward_grows(r, errs);
            },
            Expression::Mul(l, r) => {
                self.forward_grows(l, errs);
                let (c, errs) = self.forward(l, errs);
                c.forward_grows(r, errs);
            },
            Expression::Div(l, r) => {
                self.forward_grows(l, errs);
                let (c, errs) = self.forward(l, errs);
                c.forward_grows(r, errs);
            },
            Expression::Mod(l, r) => {
                self.forward_grows(l, errs);
                let (c, errs) = self.forward(l, errs);
                c.forward_grows(r, errs);
            },
            Expression::Pow(l, r) => {
                self.forward_grows(l, errs);
                let (c, errs) = self.forward(l, errs);
                c.forward_grows(r, errs);
            },
            Expression::Shl(l, r) => {
                self.forward_grows(l, errs);
                let (c, errs) = self.forward(l, errs);
                c.forward_grows(r, errs);
            },
            Expression::Shr(l, r) => {
                self.forward_grows(l, errs);
                let (c, errs) = self.forward(l, errs);
                c.forward_grows(r, errs);
            },
            Expression::Xor(l, r) => {
                self.forward_grows(l, errs);
                let (c, errs) = self.forward(l, errs);
                c.forward_grows(r, errs);
            },
            Expression::And(l, r) => {
                self.forward_grows(l, errs);
                let (c, errs) = self.forward(l, errs);
                c.forward_grows(r, errs);
            },
            Expression::Or(l, r) => {
                self.forward_grows(l, errs);
                let (c, errs) = self.forward(l, errs);
                c.forward_grows(r, errs);
            },
            Expression::BitAnd(l, r) => {
                self.forward_grows(l, errs);
                let (c, errs) = self.forward(l, errs);
                c.forward_grows(r, errs);
            },
            Expression::BitOr(l, r) => {
                self.forward_grows(l, errs);
                let (c, errs) = self.forward(l, errs);
                c.forward_grows(r, errs);
            },
            Expression::Eq(l, r) => {
                self.forward_grows(l, errs);
                let (c, errs) = self.forward(l, errs);
                c.forward_grows(r, errs);
            },
            Expression::Neq(l, r) => {
                self.forward_grows(l, errs);
                let (c, errs) = self.forward(l, errs);
                c.forward_grows(r, errs);
            },
            Expression::Le(l, r) => {
                self.forward_grows(l, errs);
                let (c, errs) = self.forward(l, errs);
                c.forward_grows(r, errs);
            },
            Expression::Gt(l, r) => {
                self.forward_grows(l, errs);
                let (c, errs) = self.forward(l, errs);
                c.forward_grows(r, errs);
            },
            Expression::Leq(l, r) => {
                self.forward_grows(l, errs);
                let (c, errs) = self.forward(l, errs);
                c.forward_grows(r, errs);
            },
            Expression::Geq(l, r) => {
                self.forward_grows(l, errs);
                let (c, errs) = self.forward(l, errs);
                c.forward_grows(r, errs);
            },
            Expression::Coalesce(l, r) => {
                self.forward_grows(l, errs);
                let (c, errs) = self.forward(l, errs);
                c.forward_grows(r, errs);
            },
            Expression::Index(l, r) => {
                self.forward_grows(l, errs);
                let (c, errs) = self.forward(l, errs);
                c.forward_grows(r, errs);
            },
            Expression::Function { args: l, body: r, .. } => {
                self.forward_grows(l, errs);
                let (c, errs) = self.forward(l, errs);
                c.forward_grows(r, errs);
            },
            Expression::Block(cs) => {
                self.forward_all_grows(cs@, 0, errs);
            },
            Expression::Program(cs) => {
                self.forward_all_grows(cs@, 0, errs);
            },
            Expression::Fragment(cs) => {
                self.forward_all_grows(cs@, 0, errs);
            },
            Expression::List(cs) => {
                self.forward_all_grows(cs@, 0, errs);
            },
            Expression::Declare(cs) => {
                self.forward_all_grows(cs@, 0, errs);
            },
            Expression::Invoke(cs) => {
                self.forward_all_grows(cs@, 0, errs);
            },
            Expression::Tuple(cs) => {
                self.forward_all_grows(cs@, 0, errs);
            },
            Expression::Array(cs) => {
                self.forward_all_grows(cs@, 0, errs);
            },
            Expression::If(cs) => {
                self.forward_all_grows(cs@, 0, errs);
            },
            Expression::Implementation { methods: cs, .. } => {
                self.forward_all_grows(cs@, 0, errs);
            },
            Expression::Class { fields: cs, .. } => {
                self.forward_all_grows(cs@, 0, errs);
            },
            Expression::TypeApp { args: cs, .. } => {
                self.forward_all_grows(cs@, 0, errs);
            },
            Expression::TypeProjection { args: cs, .. } => {
                self.forward_all_grows(cs@, 0, errs);
            },
            Expression::TypeClass { methods: cs, .. } => {
                self.forward_all_grows(cs@, 0, errs);
            },
            Expression::Print(e, a) => {
                self.forward_grows(e, errs);
                let (c, errs) = self.forward(e, errs);
                c.forward_args_grows(a, errs);
            },
            Expression::Format(e, a) => {
                self.forward_grows(e, errs);
                let (c, errs) = self.forward(e, errs);
                c.forward_args_grows(a, errs);
            },
            Expression::Call { name: e, args: a } => {
                self.forward_grows(e, errs);
                let (c, errs) = self.forward(e, errs);
                c.forward_args_grows(a, errs);
            },
            Expression::Instantiate(e, a) => {
                self.forward_grows(e, errs);
                let (c, errs) = self.forward(e, errs);
                c.forward_args_grows(a, errs);
            },
            Expression::Resume(target, arg) => {
                self.forward_grows(target, errs);
                let (c, errs) = self.forward(target, errs);
                c.forward_opt_grows(arg, errs);
            },
            Expression::Dict(fields) => {
                self.forward_fields_grows(fields@, 0, errs);
            },
            Expression::Branch(cond, body) => {
                self.forward_opt_grows(cond, errs);
                let (c, errs) = self.forward_opt(cond, errs);
                c.forward_grows(body, errs);
            },
            Expression::Loop { iterable, body, identifier } => {
                self.forward_grows(iterable, errs);
                let (c, errs) = self.forward(iterable, errs);
                c.forward_opt_grows(identifier, errs);
                let (c, errs) = c.forward_opt(identifier, errs);
                c.forward_grows(body, errs);
            },
            Expression::For { init, cond, step, body } => {
                self.forward_opt_grows(init, errs);
                let (c, errs) = self.forward_opt(init, errs);
                c.forward_grows(cond, errs);
                let (c, errs) = c.forward(cond, errs);
                c.forward_grows(body, errs);
                let (c, errs) = c.forward(body, errs);
                c.forward_opt_grows(step, errs);
            },
            Expression::Match { scrutinee, arms } => {
                self.forward_grows(scrutinee, errs);
                let (c, errs) = self.forward(scrutinee, errs);
                c.forward_arms_grows(arms@, 0, errs);
            },
            Expression::TypeClassImpl { args, methods, .. } => {
                self.forward_all_grows(args@, 0, errs);
                let (c, errs) = self.forward_all(args@, 0, errs);
                c.forward_all_grows(methods@, 0, errs);
            },
            _ => {},
        }
        growth::starts(self.ledger());
        growth::arrives(self.ledger(), self.forward(node, errs).0.ledger());
    }

    pub broadcast proof fn forward_all_grows(self, items: Seq<Output>, at: nat, errs: Seq<MessageV>)
        ensures
            steps(self.ledger(), (#[trigger] self.forward_all(items, at, errs)).0.ledger()),
        decreases items, items.len() - at,
    {
        broadcast use {growth::chained};

        if at < items.len() {
            self.forward_grows(items[at as int], errs);
            let (c, errs) = self.forward(items[at as int], errs);
            c.forward_all_grows(items, at + 1, errs);
        }
        growth::starts(self.ledger());
        growth::arrives(self.ledger(), self.forward_all(items, at, errs).0.ledger());
    }

    pub broadcast proof fn forward_fields_grows(
        self,
        items: Seq<FieldInit>,
        at: nat,
        errs: Seq<MessageV>,
    )
        ensures
            steps(self.ledger(), (#[trigger] self.forward_fields(items, at, errs)).0.ledger()),
        decreases items, items.len() - at,
    {
        broadcast use {growth::chained};

        if at < items.len() {
            self.forward_grows(items[at as int].value, errs);
            let (c, errs) = self.forward(items[at as int].value, errs);
            c.forward_fields_grows(items, at + 1, errs);
        }
        growth::starts(self.ledger());
        growth::arrives(self.ledger(), self.forward_fields(items, at, errs).0.ledger());
    }

    pub broadcast proof fn forward_arms_grows(
        self,
        items: Seq<MatchArm>,
        at: nat,
        errs: Seq<MessageV>,
    )
        ensures
            steps(self.ledger(), (#[trigger] self.forward_arms(items, at, errs)).0.ledger()),
        decreases items, items.len() - at,
    {
        broadcast use {growth::chained};

        if at < items.len() {
            self.forward_grows(items[at as int].body, errs);
            let (c, errs) = self.forward(items[at as int].body, errs);
            c.forward_arms_grows(items, at + 1, errs);
        }
        growth::starts(self.ledger());
        growth::arrives(self.ledger(), self.forward_arms(items, at, errs).0.ledger());
    }

    pub broadcast proof fn forward_opt_grows(self, item: Option<Output>, errs: Seq<MessageV>)
        ensures
            steps(self.ledger(), (#[trigger] self.forward_opt(item, errs)).0.ledger()),
        decreases item, 0nat,
    {
        broadcast use {growth::chained};

        match item {
            Some(e) => {
                self.forward_grows(e, errs);
            },
            _ => {},
        }
        growth::starts(self.ledger());
        growth::arrives(self.ledger(), self.forward_opt(item, errs).0.ledger());
    }

    pub broadcast proof fn forward_args_grows(self, args: Option<Vec<Output>>, errs: Seq<MessageV>)
        ensures
            steps(self.ledger(), (#[trigger] self.forward_args(args, errs)).0.ledger()),
        decreases args, 0nat,
    {
        broadcast use {growth::chained};

        match args {
            Some(a) => {
                self.forward_all_grows(a@, 0, errs);
            },
            _ => {},
        }
        growth::starts(self.ledger());
        growth::arrives(self.ledger(), self.forward_args(args, errs).0.ledger());
    }
}

} // verus!
