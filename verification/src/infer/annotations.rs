//! Type annotations, type aliases and associated-type projections.
use crate::ast::{Expression, Output, TypeParam};
use crate::env::{AssocProjection, ProjectionV};
use crate::generics::{AssocDeclV, AssocTypeDecl, AssocTypeValue, AssocValueV, GenericsV, InstV, TypeClassDef};
use crate::infer::kinds::{self, canonical_ctor_name, find_innermost};
use crate::infer::{AliasV, Checker, CheckerV, CtxV, GenericAliasDef, OpenProjection, OpenV, RegistryV, ScopesV};
use crate::kind::Kind;
use crate::maps::{Dup, NameMap};
use crate::report::{ErrorCode, Message, MessageV, Span};
use crate::subst::{Subst, apply_ty};
use crate::text::{self, cat11, cat2, cat3, cat5, cat7, is_lowered, number, same_text};
use crate::tree::{ArrayLength, Head, Tree};
use crate::ty::{self, Constraint, Ty, TyVarId, array, array_fixed, boolean, byte, con, copy_tys, float, int_ty, option_app_ty, result_app_ty, same_tys, stream_ty, string, ty_text, unit};
use vstd::prelude::*;

verus! {

broadcast use crate::tree::group_shapes;

/// The first `n` variables, each mapped to the type at its place.
pub open spec fn zip_map(vars: Seq<TyVarId>, trees: Seq<Tree>, n: nat) -> Map<TyVarId, Tree>
    decreases n,
{
    if n == 0 {
        Map::empty()
    } else {
        zip_map(vars, trees, (n - 1) as nat).insert(vars[n - 1], trees[n - 1])
    }
}

/// How many places both lists have.
pub open spec fn shorter(a: nat, b: nat) -> nat {
    if a < b {
        a
    } else {
        b
    }
}

/// A tree with the variables replaced by the types at their places.
pub open spec fn filled(body: Tree, vars: Seq<TyVarId>, trees: Seq<Tree>) -> Tree {
    body.subst(zip_map(vars, trees, shorter(vars.len(), trees.len())))
}

/// A type with the variables replaced by the types at their places.
pub fn fill(body: &Ty, vars: &Vec<TyVarId>, tys: &Vec<Ty>) -> (r: Ty)
    ensures
        r@ == filled(body@, vars@, tys.deep_view()),
{
    let ghost trees = tys.deep_view();
    let mut s = Subst::empty();
    let mut i: usize = 0;
    while i < vars.len() && i < tys.len()
        invariant
            i <= vars.len(),
            i <= tys.len(),
            trees == tys.deep_view(),
            s@ == zip_map(vars@, trees, i as nat),
        decreases vars.len() - i,
    {
        s.insert(vars[i], tys[i].clone());
        assert(trees[i as int] == tys@[i as int]@);
        i += 1;
    }
    apply_ty(&s, body)
}

/// True when two lists hold the same names.
pub fn same_names(a: &Vec<String>, b: &Vec<String>) -> (r: bool)
    ensures
        r == (a.deep_view() == b.deep_view()),
{
    if a.len() != b.len() {
        assert(a.deep_view().len() != b.deep_view().len());
        return false;
    }
    let mut i: usize = 0;
    while i < a.len()
        invariant
            i <= a.len(),
            a.len() == b.len(),
            forall|j: int| 0 <= j < i ==> a.deep_view()[j] == b.deep_view()[j],
        decreases a.len() - i,
    {
        if !same_text(a[i].as_str(), b[i].as_str()) {
            assert(a.deep_view()[i as int] != b.deep_view()[i as int]);
            return false;
        }
        i += 1;
    }
    assert(a.deep_view() =~= b.deep_view());
    true
}

/// The class of a constraint.
pub open spec fn class_of(c: Tree) -> Seq<char> {
    match c {
        Tree::Node(Head::Pred(class), _) => class,
        _ => Seq::empty(),
    }
}

/// The declaration of the associated type `name`, from place `at` on.
pub open spec fn decl_from(decls: Seq<AssocDeclV>, name: Seq<char>, at: nat) -> Option<AssocDeclV>
    decreases decls.len() - at,
{
    if at >= decls.len() {
        None
    } else if decls[at as int].name == name {
        Some(decls[at as int])
    } else {
        decl_from(decls, name, at + 1)
    }
}

/// The declaration of the associated type `name` in the class `class`.
pub open spec fn class_decl(g: GenericsV, class: Seq<char>, name: Seq<char>) -> Option<AssocDeclV> {
    if g.typeclasses.contains_key(class) {
        decl_from(g.typeclasses[class].assoc_types, name, 0)
    } else {
        None
    }
}

/// The first of the named classes that declares the associated type `name`.
pub open spec fn decl_among(
    g: GenericsV,
    classes: Seq<Seq<char>>,
    name: Seq<char>,
    at: nat,
) -> Option<(Seq<char>, AssocDeclV)>
    decreases classes.len() - at,
{
    if at >= classes.len() {
        None
    } else {
        match class_decl(g, classes[at as int], name) {
            Some(d) => Some((classes[at as int], d)),
            None => decl_among(g, classes, name, at + 1),
        }
    }
}

/// What the instances of `class` say `name` is, in order.
pub open spec fn assoc_values(instances: Seq<InstV>, class: Seq<char>, name: Seq<char>) -> Seq<
    AssocValueV,
>
    decreases instances.len(),
{
    if instances.len() == 0 {
        Seq::empty()
    } else {
        let rest = assoc_values(instances.drop_last(), class, name);
        let last = instances.last();
        if last.class == class && last.assoc_tys.contains_key(name) {
            rest.push(last.assoc_tys[name])
        } else {
            rest
        }
    }
}

/// The variable of a projection of `name` with exactly these arguments.
pub open spec fn projected_var(
    projections: Seq<ProjectionV>,
    name: Seq<char>,
    args: Seq<Tree>,
    at: nat,
) -> Option<TyVarId>
    decreases projections.len() - at,
{
    if at >= projections.len() {
        None
    } else if projections[at as int].name == name && projections[at as int].args == args {
        Some(projections[at as int].var)
    } else {
        projected_var(projections, name, args, at + 1)
    }
}

/// The variable of the open projection with this key.
pub open spec fn open_var(
    open: Seq<OpenV>,
    owner: TyVarId,
    name: Seq<char>,
    key: Seq<Seq<char>>,
    at: nat,
) -> Option<TyVarId>
    decreases open.len() - at,
{
    if at >= open.len() {
        None
    } else {
        let p = open[at as int];
        if p.owner == owner && p.name == name && p.key == key {
            Some(p.var)
        } else {
            open_var(open, owner, name, key, at + 1)
        }
    }
}

/// The names of the first `n` type parameters, without repetition.
pub open spec fn frame_order(params: Seq<TypeParam>, n: nat) -> Seq<Seq<char>>
    decreases n,
{
    if n == 0 {
        Seq::empty()
    } else {
        let before = frame_order(params, (n - 1) as nat);
        if before.contains(params[n - 1].name@) {
            before
        } else {
            before.push(params[n - 1].name@)
        }
    }
}

/// `s` when there is not exactly one of something.
pub open spec fn plural(n: nat) -> Seq<char> {
    if n == 1 {
        ""@
    } else {
        "s"@
    }
}

/// `s` when there is not exactly one of something.
pub fn plural_end(n: usize) -> (r: &'static str)
    ensures
        r@ == plural(n as nat),
{
    if n == 1 {
        ""
    } else {
        "s"
    }
}

/// True when one of the projections stands on `var`.
pub fn has_projection(ps: &Vec<AssocProjection>, var: TyVarId) -> (r: bool)
    ensures
        r == exists|i: int| 0 <= i < ps.deep_view().len() && (#[trigger] ps.deep_view()[i]).var == var,
{
    let ghost all = ps.deep_view();
    let mut i: usize = 0;
    while i < ps.len()
        invariant
            i <= ps.len(),
            all == ps.deep_view(),
            forall|j: int| 0 <= j < i ==> (#[trigger] all[j]).var != var,
        decreases ps.len() - i,
    {
        assert(all[i as int] == ps@[i as int]@);
        if ps[i].var == var {
            return true;
        }
        i += 1;
    }
    false
}

/// The variable of a projection of `name` with exactly these arguments.
pub fn find_projected(ps: &Vec<AssocProjection>, name: &str, args: &Vec<Ty>) -> (r: Option<TyVarId>)
    ensures
        r == projected_var(ps.deep_view(), name@, args.deep_view(), 0),
{
    let ghost all = ps.deep_view();
    let ghost trees = args.deep_view();
    let mut i: usize = 0;
    while i < ps.len()
        invariant
            i <= ps.len(),
            all == ps.deep_view(),
            trees == args.deep_view(),
            projected_var(all, name@, trees, 0) == projected_var(all, name@, trees, i as nat),
        decreases ps.len() - i,
    {
        assert(all[i as int] == ps@[i as int]@);
        if same_text(ps[i].name.as_str(), name) && same_tys(&ps[i].args, args) {
            return Some(ps[i].var);
        }
        i += 1;
    }
    None
}

impl AssocTypeDecl {
    /// The kind of the associated type: it takes its parameters and gives a type.
    pub fn kind(&self) -> (r: Kind)
        ensures
            r == Kind::curried(self@.param_kinds, Kind::Type),
    {
        let mut r = Kind::Type;
        let mut i: usize = self.param_kinds.len();
        assert(self.param_kinds@.skip(i as int) =~= Seq::<Kind>::empty());
        while i > 0
            invariant
                i <= self.param_kinds.len(),
                r == Kind::curried(self.param_kinds@.skip(i as int), Kind::Type),
            decreases i,
        {
            i -= 1;
            assert(self.param_kinds@.skip(i as int).drop_first() =~= self.param_kinds@.skip(i + 1));
            r = Kind::arrow(self.param_kinds[i].clone(), r);
        }
        assert(self.param_kinds@.skip(0) =~= self.param_kinds@);
        r
    }
}

impl TypeClassDef {
    /// The declaration of the associated type `name`.
    pub fn assoc_type(&self, name: &str) -> (r: Option<&AssocTypeDecl>)
        ensures
            match r {
                Some(d) => decl_from(self@.assoc_types, name@, 0) == Some(d@),
                None => decl_from(self@.assoc_types, name@, 0) is None,
            },
    {
        let ghost decls = self@.assoc_types;
        let mut i: usize = 0;
        while i < self.assoc_types.len()
            invariant
                i <= self.assoc_types.len(),
                decls == self.assoc_types.deep_view(),
                decl_from(decls, name@, 0) == decl_from(decls, name@, i as nat),
            decreases self.assoc_types.len() - i,
        {
            assert(decls[i as int] == self.assoc_types@[i as int]@);
            if same_text(self.assoc_types[i].name.as_str(), name) {
                return Some(&self.assoc_types[i]);
            }
            i += 1;
        }
        None
    }
}

impl CheckerV {
    /// The variable of an annotation parameter.
    pub open spec fn fresh_var(self) -> (CheckerV, TyVarId) {
        (self.fresh().0, TyVarId(self.counter))
    }

    /// Whether `name` is an alias of the innermost frame or a generic alias.
    pub open spec fn alias_taken(self, name: Seq<char>) -> bool {
        let frames = self.scope.type_aliases;
        self.scope.generic_aliases.contains_key(name) || (frames.len() > 0
            && frames.last().contains_key(name))
    }

    /// A second alias of the same name is reported.
    pub open spec fn duplicate_alias(self, name: Seq<char>, range: Span) -> CheckerV {
        self.report(
            MessageV::error(
                ErrorCode::GenericTypeError,
                "Duplicate type alias `"@ + name + "`"@,
                range,
            ).helped("type aliases may shadow names only from an outer scope"@),
        )
    }

    /// The type `name` belongs to the current module.
    pub open spec fn register_nominal(self, name: Seq<char>) -> CheckerV {
        CheckerV {
            reg: RegistryV {
                generics: GenericsV {
                    nominal_type_modules: self.reg.generics.nominal_type_modules.insert(
                        name,
                        self.scope.module,
                    ),
                    ..self.reg.generics
                },
                ..self.reg
            },
            ..self
        }
    }

    /// An alias is declared in the innermost frame.
    pub open spec fn register_type_alias(self, name: Seq<char>, t: Tree, range: Span) -> CheckerV {
        let frames = if self.scope.type_aliases.len() == 0 {
            seq![Map::<Seq<char>, Tree>::empty()]
        } else {
            self.scope.type_aliases
        };
        if self.alias_taken(name) {
            CheckerV {
                scope: ScopesV { type_aliases: frames, ..self.scope },
                ..self
            }.duplicate_alias(name, range)
        } else {
            CheckerV {
                scope: ScopesV {
                    type_aliases: frames.drop_last().push(frames.last().insert(name, t)),
                    ..self.scope
                },
                ..self
            }.register_nominal(name)
        }
    }

    /// A generic alias is declared.
    pub open spec fn register_generic_alias(self, name: Seq<char>, def: AliasV, range: Span) -> CheckerV {
        if self.alias_taken(name) {
            self.duplicate_alias(name, range)
        } else {
            CheckerV {
                scope: ScopesV {
                    generic_aliases: self.scope.generic_aliases.insert(name, def),
                    ..self.scope
                },
                ..self
            }.register_nominal(name)
        }
    }

    /// The notations of types under the substitution.
    pub open spec fn projection_arg_key(self, args: Seq<Tree>) -> Seq<Seq<char>> {
        Seq::new(args.len(), |i: int| self.resolve(args[i]).text())
    }

    /// A projection is recorded for the scheme that is being built.
    pub open spec fn record_current_assoc_projection(
        self,
        var: TyVarId,
        name: Seq<char>,
        args: Seq<Tree>,
    ) -> CheckerV {
        match self.ctx.projections {
            Some(ps) => if exists|i: int| 0 <= i < ps.len() && (#[trigger] ps[i]).var == var {
                self
            } else {
                CheckerV {
                    ctx: CtxV {
                        projections: Some(ps.push(ProjectionV { var, name, args })),
                        ..self.ctx
                    },
                    ..self
                }
            },
            None => self,
        }
    }

    /// What an associated type is for these arguments.
    pub open spec fn instantiate_assoc_value(self, value: AssocValueV, args: Seq<Tree>) -> Tree {
        filled(value.ty, value.param_vars, self.resolve_all(args))
    }

    /// The arguments from place `at` on are checked against a declaration.
    pub open spec fn check_assoc_kinds(
        self,
        class: Seq<char>,
        decl: AssocDeclV,
        args: Seq<Tree>,
        range: Span,
        at: nat,
    ) -> CheckerV
        decreases args.len() - at,
    {
        if at >= args.len() || at >= decl.param_kinds.len() {
            self
        } else {
            let actual = self.kind_of_type_argument(args[at as int]);
            let want = decl.param_kinds[at as int];
            let c = if actual != want {
                self.say(
                    ErrorCode::GenericTypeError,
                    "Type argument "@ + text::decimal(at + 1) + " to associated type `"@ + class
                        + "::"@ + decl.name + "` has kind `"@ + actual.text_spec()
                        + "`, expected `"@ + want.text_spec() + "`"@,
                    range,
                )
            } else {
                self
            };
            c.check_assoc_kinds(class, decl, args, range, at + 1)
        }
    }

    /// The arguments of a projection are checked against the declaration.
    pub open spec fn validate_assoc_projection_args(
        self,
        class: Seq<char>,
        decl: AssocDeclV,
        args: Seq<Tree>,
        range: Span,
    ) -> CheckerV {
        if decl.params.len() != args.len() {
            self.say(
                ErrorCode::GenericTypeError,
                "Associated type `"@ + class + "::"@ + decl.name + "` expects "@ + text::decimal(
                    decl.params.len(),
                ) + " type argument"@ + plural(decl.params.len()) + ", got "@ + text::decimal(
                    args.len(),
                ),
                range,
            )
        } else {
            self.check_assoc_kinds(class, decl, args, range, 0)
        }
    }

    /// Whether some of the types is the variable `v` under the substitution.
    pub open spec fn mentions_var(self, args: Seq<Tree>, v: TyVarId) -> bool {
        exists|i: int| 0 <= i < args.len() && self.resolve(#[trigger] args[i]) == Tree::Var(v)
    }

    /// The class of an active constraint on `owner`, or one of its direct
    /// superclasses, that declares the associated type `name`.
    pub open spec fn bound_decl(self, owner: TyVarId, name: Seq<char>, at: nat) -> Option<
        (Seq<char>, AssocDeclV),
    >
        decreases self.scope.active.len() - at,
    {
        let g = self.reg.generics;
        if at >= self.scope.active.len() {
            None
        } else {
            let c = self.scope.active[at as int];
            let class = class_of(c);
            let found = if !self.mentions_var(c.kids(), owner) || !g.typeclasses.contains_key(
                class,
            ) {
                None
            } else {
                match class_decl(g, class, name) {
                    Some(d) => Some((class, d)),
                    None => decl_among(g, g.typeclasses[class].superclasses, name, 0),
                }
            };
            match found {
                Some(f) => Some(f),
                None => self.bound_decl(owner, name, at + 1),
            }
        }
    }

    /// `owner::name<args>` inside the declaration of the class `owner`.
    pub open spec fn project_current(
        self,
        owner: Seq<char>,
        name: Seq<char>,
        args: Seq<Tree>,
        range: Span,
    ) -> (CheckerV, Tree) {
        match class_decl(self.reg.generics, owner, name) {
            Some(decl) => {
                let c = self.validate_assoc_projection_args(owner, decl, args, range);
                let known = match c.ctx.projections {
                    Some(ps) => projected_var(ps, name, args, 0),
                    None => None,
                };
                match known {
                    Some(v) => (c, Tree::Var(v)),
                    None => {
                        let (c, v) = c.fresh_var();
                        (
                            c.set_var_kind(v, Kind::Type).record_current_assoc_projection(
                                v,
                                name,
                                args,
                            ),
                            Tree::Var(v),
                        )
                    },
                }
            },
            None => self.say(
                ErrorCode::GenericTypeError,
                "Cannot find associated type `"@ + name + "` on trait `"@ + owner + "`"@,
                range,
            ).fresh(),
        }
    }

    /// `owner::name<args>` for the type parameter `owner`.
    pub open spec fn project_param(
        self,
        owner: Seq<char>,
        owner_var: TyVarId,
        name: Seq<char>,
        args: Seq<Tree>,
        range: Span,
    ) -> (CheckerV, Tree) {
        match self.bound_decl(owner_var, name, 0) {
            Some((class, decl)) => {
                let c = self.validate_assoc_projection_args(class, decl, args, range);
                let key = c.projection_arg_key(args);
                match open_var(c.scope.open_projections, owner_var, name, key, 0) {
                    Some(v) => (
                        c.record_current_assoc_projection(v, name, args),
                        Tree::Var(v),
                    ),
                    None => {
                        let (c, v) = c.fresh_var();
                        let c = c.set_var_kind(v, Kind::Type);
                        let c = CheckerV {
                            scope: ScopesV {
                                open_projections: c.scope.open_projections.push(
                                    OpenV { owner: owner_var, name, key, var: v, args },
                                ),
                                ..c.scope
                            },
                            ..c
                        };
                        (c.record_current_assoc_projection(v, name, args), Tree::Var(v))
                    },
                }
            },
            None => self.say(
                ErrorCode::GenericTypeError,
                "Cannot project associated type `"@ + name + "` from `"@ + owner
                    + "` (no in-scope trait bound declares it)"@,
                range,
            ).fresh(),
        }
    }

    /// `owner::name<args>` for the class `owner`: what its only instance says.
    pub open spec fn project_class(
        self,
        owner: Seq<char>,
        name: Seq<char>,
        args: Seq<Tree>,
        range: Span,
    ) -> (CheckerV, Tree) {
        match class_decl(self.reg.generics, owner, name) {
            Some(decl) => {
                let c = self.validate_assoc_projection_args(owner, decl, args, range);
                let values = assoc_values(c.reg.generics.instances, owner, name);
                if values.len() == 1 {
                    (c, c.instantiate_assoc_value(values[0], args))
                } else {
                    c.fresh()
                }
            },
            None => self.say(
                ErrorCode::GenericTypeError,
                "Cannot find associated type `"@ + name + "` on trait `"@ + owner + "`"@,
                range,
            ).fresh(),
        }
    }

    /// What `owner::name<args>` stands for.
    pub open spec fn resolve_type_projection(
        self,
        owner: Seq<char>,
        name: Seq<char>,
        args: Seq<Tree>,
        range: Span,
    ) -> (CheckerV, Tree) {
        if self.ctx.typeclass == Some(owner) {
            self.project_current(owner, name, args, range)
        } else {
            match self.type_param(owner) {
                Some(v) => self.project_param(owner, v, name, args, range),
                None => if self.reg.generics.typeclasses.contains_key(owner) {
                    self.project_class(owner, name, args, range)
                } else {
                    self.say(
                        ErrorCode::GenericTypeError,
                        "Cannot resolve type projection `"@ + owner + "::"@ + name + "`"@,
                        range,
                    ).fresh()
                },
            }
        }
    }

    /// Whether the class that is being declared declares the associated type `name`.
    pub open spec fn declares_assoc(self, name: Seq<char>) -> bool {
        match self.ctx.typeclass {
            Some(class) => class_decl(self.reg.generics, class, name) is Some,
            None => false,
        }
    }

    /// The type that a name other than a parameter, an alias or a builtin type
    /// stands for.
    pub open spec fn declared_type(self, name: Seq<char>, range: Span) -> (CheckerV, Tree) {
        let g = self.reg.generics;
        if self.reg.enums.contains_key(name) || self.reg.classes.contains_key(name)
            || g.generic_type_ctors.contains_key(name) || g.nominal_type_modules.contains_key(
            name,
        ) || !g.typeclasses.contains_key(name) {
            (self, Tree::con(name))
        } else {
            let def = g.typeclasses[name];
            if def.type_params.len() == 1 && def.kind_at(0) is Type {
                (self, Tree::Node(Head::Existential(name), Seq::empty()))
            } else {
                (
                    self.say(
                        ErrorCode::GenericTypeError,
                        "Typeclass `"@ + name + "` cannot be used as a bare value type"@,
                        range,
                    ),
                    Tree::con(name),
                )
            }
        }
    }

    /// The type that a name stands for in an annotation.
    pub open spec fn parse_type_name_str(self, name: Seq<char>, range: Span) -> (CheckerV, Tree) {
        match self.type_param(name) {
            Some(v) => (self, Tree::Var(v)),
            None => match kinds::innermost(self.scope.type_aliases, name) {
                Some(t) => (self, t),
                None => {
                    let low = text::lowered(name);
                    if low == "int"@ || low == "float"@ || low == "bool"@ || low == "byte"@ || low
                        == "string"@ {
                        (self, Tree::con(low))
                    } else if low == "void"@ {
                        (self, Tree::con("unit"@))
                    } else if low == "stream"@ {
                        (self, Tree::con("Stream"@))
                    } else if low == "option"@ {
                        let (c, t) = self.fresh();
                        (c, Tree::option_app(t))
                    } else if low == "result"@ {
                        let (c, t) = self.fresh();
                        let (c, u) = c.fresh();
                        (c, Tree::result_app(t, u))
                    } else if low == "ioerror"@ {
                        (self, Tree::con("IoError"@))
                    } else {
                        self.declared_type(name, range)
                    }
                },
            },
        }
    }

    /// A frame of type parameters from place `at` on: fresh variables with
    /// their kinds.
    pub open spec fn fresh_params(
        self,
        params: Seq<TypeParam>,
        at: nat,
        frame: Map<Seq<char>, TyVarId>,
        vars: Seq<TyVarId>,
    ) -> (CheckerV, Map<Seq<char>, TyVarId>, Seq<TyVarId>)
        decreases params.len() - at,
    {
        if at >= params.len() {
            (self, frame, vars)
        } else {
            let tp = params[at as int];
            let (c, v) = self.fresh_var();
            c.set_var_kind(v, c.resolve_type_param_kind(tp)).fresh_params(
                params,
                at + 1,
                frame.insert(tp.name@, v),
                vars.push(v),
            )
        }
    }

    /// The constraints that `bounds` put on `arg`, from place `at` on.
    pub open spec fn constraints_from_bounds(
        self,
        bounds: Seq<Seq<char>>,
        arg: Tree,
        range: Span,
        at: nat,
        acc: Seq<Tree>,
    ) -> (CheckerV, Seq<Tree>)
        decreases bounds.len() - at,
    {
        if at >= bounds.len() {
            (self, acc)
        } else {
            let (c, found) = self.constraint_from_bound(bounds[at as int], arg, range);
            c.constraints_from_bounds(
                bounds,
                arg,
                range,
                at + 1,
                match found {
                    Some(t) => acc.push(t),
                    None => acc,
                },
            )
        }
    }

    /// The constraints of type parameters on their variables, from place `at` on.
    pub open spec fn constraints_from_params(
        self,
        params: Seq<TypeParam>,
        vars: Seq<TyVarId>,
        range: Span,
        at: nat,
        acc: Seq<Tree>,
    ) -> (CheckerV, Seq<Tree>)
        decreases params.len() - at,
    {
        if at >= params.len() || at >= vars.len() {
            (self, acc)
        } else {
            let (c, acc) = self.constraints_from_bounds(
                params[at as int].bounds.deep_view(),
                Tree::Var(vars[at as int]),
                range,
                0,
                acc,
            );
            c.constraints_from_params(params, vars, range, at + 1, acc)
        }
    }

    /// A frame of type parameters is opened; `order` lists its names.
    pub open spec fn push_params(self, frame: Map<Seq<char>, TyVarId>, order: Seq<Seq<char>>) -> CheckerV {
        CheckerV {
            scope: ScopesV {
                type_params: self.scope.type_params.push(frame),
                param_order: self.scope.param_order.push(order),
                ..self.scope
            },
            ..self
        }
    }

    /// The innermost frame of type parameters is closed.
    pub open spec fn pop_params(self) -> CheckerV {
        if self.scope.type_params.len() == 0 {
            self
        } else {
            CheckerV {
                scope: ScopesV {
                    type_params: self.scope.type_params.drop_last(),
                    param_order: self.scope.param_order.drop_last(),
                    ..self.scope
                },
                ..self
            }
        }
    }

    /// The quantified variables of a `forall` and the constraints on them; the
    /// frame of its parameters is open afterwards.
    pub open spec fn open_forall(self, params: Seq<TypeParam>) -> (
        CheckerV,
        Seq<TyVarId>,
        Seq<Tree>,
    ) {
        let (c, frame, vars) = self.fresh_params(params, 0, Map::empty(), Seq::empty());
        let (c, constraints) = c.push_params(
            frame,
            frame_order(params, params.len()),
        ).constraints_from_params(
            params,
            vars,
            (Span { start: 0, end: 0 }),
            0,
            Seq::empty(),
        );
        (c, vars, constraints)
    }

    /// The type that an annotation stands for.
    pub open spec fn parse_type_name(self, ann: Output) -> (CheckerV, Tree)
        decreases ann, 0nat,
    {
        match *ann.expr {
            Expression::Identifier(name) => self.parse_bare_name(name@, ann.span),
            Expression::Type(name) => self.parse_bare_name(name@, ann.span),
            Expression::TypeApp { name, args } => self.parse_type_app(name@, args@, ann.span),
            Expression::TypeProjection { owner, name, args } => {
                let (c, trees) = self.parse_type_names(args@, 0, Seq::empty());
                c.resolve_type_projection(owner@, name@, trees, ann.span)
            },
            Expression::TypeFun(arg, ret) => {
                let (c, t) = self.parse_type_name(arg);
                let (c, u) = c.parse_type_name(ret);
                (c, Tree::fun(t, u))
            },
            Expression::Forall { params, ty } => {
                let (c, vars, constraints) = self.open_forall(params@);
                let (c, body) = c.parse_type_name(ty);
                (c.pop_params(), Tree::Node(Head::Forall(vars), constraints.push(body)))
            },
            Expression::Array(items) => match annotated_length(items@) {
                Some(n) => if items@.len() == 2 {
                    let (c, t) = self.parse_type_name(items@[0]);
                    (c, Tree::array(t, ArrayLength::Static(n)))
                } else {
                    let (c, t) = self.parse_type_name_str("int"@, Span { start: 0, end: 0 });
                    (c, Tree::array(t, ArrayLength::Static(n)))
                },
                None => if items@.len() > 0 {
                    let (c, t) = self.parse_type_name(items@[0]);
                    (c, Tree::array(t, ArrayLength::Dynamic))
                } else {
                    let (c, t) = self.parse_type_name_str("int"@, Span { start: 0, end: 0 });
                    (c, Tree::array(t, ArrayLength::Dynamic))
                },
            },
            Expression::Tuple(items) => {
                let (c, trees) = self.parse_type_names(items@, 0, Seq::empty());
                (c, Tree::tuple(trees))
            },
            _ => self.fresh(),
        }
    }

    /// The types that annotations stand for, from place `at` on.
    pub open spec fn parse_type_names(self, items: Seq<Output>, at: nat, acc: Seq<Tree>) -> (
        CheckerV,
        Seq<Tree>,
    )
        decreases items, items.len() - at,
    {
        if at >= items.len() {
            (self, acc)
        } else {
            let (c, t) = self.parse_type_name(items[at as int]);
            c.parse_type_names(items, at + 1, acc.push(t))
        }
    }

    /// The type that `name<args>` stands for.
    pub open spec fn parse_type_app(self, name: Seq<char>, args: Seq<Output>, range: Span) -> (
        CheckerV,
        Tree,
    )
        decreases args, args.len() + 1,
    {
        let (c, trees) = self.parse_type_names(args, 0, Seq::empty());
        c.apply_type_ctor(name, trees, range)
    }

    /// The type that a bare name stands for in an annotation.
    pub open spec fn parse_bare_name(self, name: Seq<char>, range: Span) -> (CheckerV, Tree) {
        if self.declares_assoc(name) {
            self.resolve_type_projection(self.ctx.typeclass.unwrap(), name, Seq::empty(), range)
        } else {
            self.parse_type_name_str(name, Span { start: 0, end: 0 })
        }
    }

    /// A wrong number of type arguments is reported.
    pub open spec fn expect_type_args(self, name: Seq<char>, want: nat, got: nat, range: Span) -> CheckerV {
        if want == got {
            self
        } else {
            self.say(
                ErrorCode::GenericTypeError,
                "Type constructor `"@ + name + "` expects "@ + text::decimal(want)
                    + " type arguments, got "@ + text::decimal(got),
                range,
            )
        }
    }

    /// The type constructor `name` applied to types.
    pub open spec fn apply_type_ctor(self, name: Seq<char>, args: Seq<Tree>, range: Span) -> (
        CheckerV,
        Tree,
    ) {
        let ctors = self.reg.generics.generic_type_ctors;
        if self.declares_assoc(name) {
            self.resolve_type_projection(self.ctx.typeclass.unwrap(), name, args, range)
        } else {
            match self.type_param(name) {
                Some(v) => (
                    self.check_type_app_kind(name, self.kind_of_var(v), args, range),
                    Tree::app(Tree::Var(v), args),
                ),
                None => if self.scope.generic_aliases.contains_key(name) {
                    let def = self.scope.generic_aliases[name];
                    (
                        self.expect_type_args(name, def.params.len(), args.len(), range),
                        filled(def.body, def.param_vars, args),
                    )
                } else if ctors.contains_key(name) {
                    (
                        self.expect_type_args(name, ctors[name].len(), args.len(), range),
                        Tree::app(Tree::con(name), args),
                    )
                } else {
                    (
                        self.say(
                            ErrorCode::GenericTypeError,
                            "Cannot find type constructor `"@ + name + "`"@,
                            range,
                        ),
                        Tree::app(Tree::con(name), args),
                    )
                },
            }
        }
    }

    /// The type of an instance head.
    pub open spec fn parse_instance_head(self, arg: Output) -> (CheckerV, Tree) {
        match *arg.expr {
            Expression::Type(name) => self.head_from_name(name@, arg.span),
            Expression::Identifier(name) => self.head_from_name(name@, arg.span),
            Expression::TypeApp { name, args } => self.parse_type_app(name@, args@, arg.span),
            _ => self.parse_type_name(arg),
        }
    }

    /// The type of an instance head that is a bare name.
    pub open spec fn head_from_name(self, name: Seq<char>, range: Span) -> (CheckerV, Tree) {
        let canon = kinds::ctor_name(name);
        let low = text::lowered(name);
        if self.reg.generics.generic_type_ctors.contains_key(canon) || low == "option"@ || low
            == "result"@ {
            (self, Tree::con(canon))
        } else {
            self.parse_type_name_str(name, range)
        }
    }
}

/// The length in an array annotation (`[T; N]`, or `[N]` for `[int; N]`).
pub open spec fn annotated_length(items: Seq<Output>) -> Option<usize> {
    if 1 <= items.len() <= 2 {
        match *items.last().expr {
            Expression::Integer(n) => if n >= 0 {
                Some(n as usize)
            } else {
                None
            },
            _ => None,
        }
    } else {
        None
    }
}

/// The length in an array annotation.
pub fn array_length(items: &Vec<Output>) -> (r: Option<usize>)
    ensures
        r == annotated_length(items@),
{
    if items.len() == 1 || items.len() == 2 {
        match &*items[items.len() - 1].expr {
            Expression::Integer(n) => if *n >= 0 {
                Some(*n as usize)
            } else {
                None
            },
            _ => None,
        }
    } else {
        None
    }
}

impl Checker {
    /// A fresh type variable.
    pub fn fresh_var(&mut self) -> (r: TyVarId)
        ensures
            (final(self)@, r) == old(self)@.fresh_var(),
    {
        self.counter.fresh()
    }

    fn alias_taken(&self, name: &str) -> (r: bool)
        ensures
            r == self@.alias_taken(name@),
    {
        if self.scope.generic_aliases.contains_key(name) {
            return true;
        }
        let n = self.scope.type_aliases.len();
        if n > 0 {
            assert(self@.scope.type_aliases.last() == self.scope.type_aliases@[n - 1]@);
            self.scope.type_aliases[n - 1].contains_key(name)
        } else {
            false
        }
    }

    fn duplicate_alias(&mut self, name: &str, range: Span)
        ensures
            final(self)@ == old(self)@.duplicate_alias(name@, range),
    {
        let mut msg = Message::error(
            ErrorCode::GenericTypeError,
            cat3("Duplicate type alias `", name, "`"),
            range,
        );
        msg.with_help("type aliases may shadow names only from an outer scope".to_owned());
        self.report(msg);
    }

    /// Record that the current module declares the type `name`.
    pub fn register_nominal(&mut self, name: &str)
        ensures
            final(self)@ == old(self)@.register_nominal(name@),
    {
        self.reg.generics.register_nominal_type(name, self.scope.module.as_str());
    }

    /// Declare an alias in the innermost frame.
    pub fn register_type_alias(&mut self, name: &str, alias_ty: Ty, range: Span)
        ensures
            final(self)@ == old(self)@.register_type_alias(name@, alias_ty@, range),
    {
        let ghost start = self@;
        let taken = self.alias_taken(name);
        if self.scope.type_aliases.len() == 0 {
            self.scope.type_aliases.push(NameMap::new());
            assert(self@.scope.type_aliases =~= seq![Map::<Seq<char>, Tree>::empty()]);
        }
        if taken {
            self.duplicate_alias(name, range);
            return;
        }
        let ghost frames = self@.scope.type_aliases;
        if let Some(mut frame) = self.scope.type_aliases.pop() {
            assert(frame@ == frames.last());
            frame.insert(name.to_owned(), alias_ty);
            self.scope.type_aliases.push(frame);
            assert(self@.scope.type_aliases =~= frames.drop_last().push(
                frames.last().insert(name@, alias_ty@),
            ));
        }
        self.register_nominal(name);
    }

    /// Declare a generic alias.
    pub fn register_generic_alias(&mut self, name: &str, def: GenericAliasDef, range: Span)
        ensures
            final(self)@ == old(self)@.register_generic_alias(name@, def@, range),
    {
        if self.alias_taken(name) {
            self.duplicate_alias(name, range);
            return;
        }
        self.scope.generic_aliases.insert(name.to_owned(), def);
        self.register_nominal(name);
    }

    fn projection_arg_key(&self, args: &Vec<Ty>) -> (r: Vec<String>)
        ensures
            r.deep_view() == self@.projection_arg_key(args.deep_view()),
    {
        let ghost all = self@.projection_arg_key(args.deep_view());
        let mut key: Vec<String> = Vec::new();
        let mut i: usize = 0;
        while i < args.len()
            invariant
                i <= args.len(),
                all == self@.projection_arg_key(args.deep_view()),
                key.deep_view() == all.take(i as int),
            decreases args.len() - i,
        {
            let ghost before = key.deep_view();
            let t = self.resolve(&args[i]);
            let s = ty_text(&t);
            key.push(s);
            assert(args.deep_view()[i as int] == args@[i as int]@);
            assert(key.deep_view() =~= before.push(s@));
            i += 1;
            assert(key.deep_view() =~= all.take(i as int));
        }
        assert(key.deep_view() =~= all);
        key
    }

    fn record_current_assoc_projection(&mut self, var: TyVarId, name: &str, args: &Vec<Ty>)
        ensures
            final(self)@ == old(self)@.record_current_assoc_projection(
                var,
                name@,
                args.deep_view(),
            ),
    {
        let known = match &self.ctx.projections {
            Some(ps) => has_projection(ps, var),
            None => true,
        };
        if known {
            return;
        }
        if let Some(mut ps) = self.ctx.projections.take() {
            let ghost before = ps.deep_view();
            let p = AssocProjection { var, name: name.to_owned(), args: copy_tys(args) };
            ps.push(p);
            assert(ps.deep_view() =~= before.push(p@));
            self.ctx.projections = Some(ps);
        }
    }

    /// What an associated type is for these arguments.
    pub fn instantiate_assoc_value(&self, value: &AssocTypeValue, args: &Vec<Ty>) -> (r: Ty)
        ensures
            r@ == self@.instantiate_assoc_value(value@, args.deep_view()),
    {
        fill(&value.ty, &value.param_vars, &self.resolve_all(args))
    }

    fn validate_assoc_projection_args(
        &mut self,
        class: &str,
        decl: &AssocTypeDecl,
        args: &Vec<Ty>,
        range: Span,
    )
        ensures
            final(self)@ == old(self)@.validate_assoc_projection_args(
                class@,
                decl@,
                args.deep_view(),
                range,
            ),
    {
        if decl.params.len() != args.len() {
            let want = number(decl.params.len());
            let got = number(args.len());
            let start = cat7(
                "Associated type `",
                class,
                "::",
                decl.name.as_str(),
                "` expects ",
                want.as_str(),
                " type argument",
            );
            let text = text::cat4(
                start.as_str(),
                plural_end(decl.params.len()),
                ", got ",
                got.as_str(),
            );
            self.say(ErrorCode::GenericTypeError, text, range);
            return;
        }
        let ghost trees = args.deep_view();
        let ghost whole = self@.check_assoc_kinds(class@, decl@, trees, range, 0);
        let mut i: usize = 0;
        while i < args.len() && i < decl.param_kinds.len()
            invariant
                i <= args.len(),
                i <= decl.param_kinds.len(),
                trees == args.deep_view(),
                whole == self@.check_assoc_kinds(class@, decl@, trees, range, i as nat),
            decreases args.len() - i,
        {
            assert(trees[i as int] == args@[i as int]@);
            let actual = self.kind_of_type_argument(&args[i]);
            if actual != decl.param_kinds[i] {
                let n = number(i + 1);
                let a = actual.to_string();
                let e = decl.param_kinds[i].to_string();
                self.say(
                    ErrorCode::GenericTypeError,
                    cat11(
                        "Type argument ",
                        n.as_str(),
                        " to associated type `",
                        class,
                        "::",
                        decl.name.as_str(),
                        "` has kind `",
                        a.as_str(),
                        "`, expected `",
                        e.as_str(),
                        "`",
                    ),
                    range,
                );
            }
            i += 1;
        }
    }

    fn mentions_var(&self, args: &Vec<Ty>, v: TyVarId) -> (r: bool)
        ensures
            r == self@.mentions_var(args.deep_view(), v),
    {
        let ghost trees = args.deep_view();
        let mut i: usize = 0;
        while i < args.len()
            invariant
                i <= args.len(),
                trees == args.deep_view(),
                forall|j: int|
                    0 <= j < i ==> self@.resolve(#[trigger] trees[j]) != Tree::Var(v),
            decreases args.len() - i,
        {
            assert(trees[i as int] == args@[i as int]@);
            match self.resolve(&args[i]) {
                Ty::Var(w) => if w == v {
                    return true;
                },
                _ => {},
            }
            i += 1;
        }
        false
    }

    fn class_decl(&self, class: &str, name: &str) -> (r: Option<AssocTypeDecl>)
        ensures
            match r {
                Some(d) => class_decl(self@.reg.generics, class@, name@) == Some(d@),
                None => class_decl(self@.reg.generics, class@, name@) is None,
            },
    {
        match self.reg.generics.typeclass(class) {
            Some(def) => match def.assoc_type(name) {
                Some(d) => Some(d.dup()),
                None => None,
            },
            None => None,
        }
    }

    fn decl_among(&self, classes: &Vec<String>, name: &str) -> (r: Option<(String, AssocTypeDecl)>)
        ensures
            r.deep_view() == decl_among(self@.reg.generics, classes.deep_view(), name@, 0),
    {
        let ghost names = classes.deep_view();
        let ghost g = self@.reg.generics;
        let mut i: usize = 0;
        while i < classes.len()
            invariant
                i <= classes.len(),
                names == classes.deep_view(),
                g == self@.reg.generics,
                decl_among(g, names, name@, 0) == decl_among(g, names, name@, i as nat),
            decreases classes.len() - i,
        {
            assert(names[i as int] == classes@[i as int]@);
            if let Some(d) = self.class_decl(classes[i].as_str(), name) {
                return Some((classes[i].clone(), d));
            }
            i += 1;
        }
        None
    }

    fn bound_decl(&self, owner: TyVarId, name: &str) -> (r: Option<(String, AssocTypeDecl)>)
        ensures
            r.deep_view() == self@.bound_decl(owner, name@, 0),
    {
        let ghost active = self@.scope.active;
        let mut i: usize = 0;
        while i < self.scope.active.len()
            invariant
                i <= self.scope.active.len(),
                active == self@.scope.active,
                active == self.scope.active.deep_view(),
                self@.bound_decl(owner, name@, 0) == self@.bound_decl(owner, name@, i as nat),
            decreases self.scope.active.len() - i,
        {
            let c = &self.scope.active[i];
            assert(active[i as int] == c@);
            if self.mentions_var(&c.args, owner) {
                if let Some(def) = self.reg.generics.typeclass(c.class.as_str()) {
                    if let Some(d) = self.class_decl(c.class.as_str(), name) {
                        return Some((c.class.clone(), d));
                    }
                    let found = self.decl_among(&def.superclasses, name);
                    if found.is_some() {
                        return found;
                    }
                }
            }
            i += 1;
        }
        None
    }

    fn project_current(&mut self, owner: &str, name: &str, args: &Vec<Ty>, range: Span) -> (r: Ty)
        ensures
            (final(self)@, r@) == old(self)@.project_current(
                owner@,
                name@,
                args.deep_view(),
                range,
            ),
    {
        if let Some(decl) = self.class_decl(owner, name) {
            self.validate_assoc_projection_args(owner, &decl, args, range);
            let known = match &self.ctx.projections {
                Some(ps) => find_projected(ps, name, args),
                None => None,
            };
            if let Some(v) = known {
                return Ty::Var(v);
            }
            let v = self.fresh_var();
            self.set_var_kind(v, Kind::Type);
            self.record_current_assoc_projection(v, name, args);
            return Ty::Var(v);
        }
        self.say(
            ErrorCode::GenericTypeError,
            cat5("Cannot find associated type `", name, "` on trait `", owner, "`"),
            range,
        );
        self.fresh()
    }

    fn open_var(&self, owner: TyVarId, name: &str, key: &Vec<String>) -> (r: Option<TyVarId>)
        ensures
            r == open_var(self@.scope.open_projections, owner, name@, key.deep_view(), 0),
    {
        let ghost all = self@.scope.open_projections;
        let ghost k = key.deep_view();
        let mut i: usize = 0;
        while i < self.scope.open_projections.len()
            invariant
                i <= self.scope.open_projections.len(),
                all == self.scope.open_projections.deep_view(),
                k == key.deep_view(),
                open_var(all, owner, name@, k, 0) == open_var(all, owner, name@, k, i as nat),
            decreases self.scope.open_projections.len() - i,
        {
            let p = &self.scope.open_projections[i];
            assert(all[i as int] == p@);
            if p.owner == owner && same_text(p.name.as_str(), name) && same_names(&p.key, key) {
                return Some(p.var);
            }
            i += 1;
        }
        None
    }

    fn project_param(
        &mut self,
        owner: &str,
        owner_var: TyVarId,
        name: &str,
        args: &Vec<Ty>,
        range: Span,
    ) -> (r: Ty)
        ensures
            (final(self)@, r@) == old(self)@.project_param(
                owner@,
                owner_var,
                name@,
                args.deep_view(),
                range,
            ),
    {
        if let Some((class, decl)) = self.bound_decl(owner_var, name) {
            self.validate_assoc_projection_args(class.as_str(), &decl, args, range);
            let key = self.projection_arg_key(args);
            if let Some(v) = self.open_var(owner_var, name, &key) {
                self.record_current_assoc_projection(v, name, args);
                return Ty::Var(v);
            }
            let v = self.fresh_var();
            self.set_var_kind(v, Kind::Type);
            let ghost before = self@.scope.open_projections;
            let p = OpenProjection {
                owner: owner_var,
                name: name.to_owned(),
                key,
                var: v,
                args: copy_tys(args),
            };
            self.scope.open_projections.push(p);
            assert(self@.scope.open_projections =~= before.push(p@));
            self.record_current_assoc_projection(v, name, args);
            return Ty::Var(v);
        }
        self.say(
            ErrorCode::GenericTypeError,
            cat5(
                "Cannot project associated type `",
                name,
                "` from `",
                owner,
                "` (no in-scope trait bound declares it)",
            ),
            range,
        );
        self.fresh()
    }

    fn project_class(&mut self, owner: &str, name: &str, args: &Vec<Ty>, range: Span) -> (r: Ty)
        ensures
            (final(self)@, r@) == old(self)@.project_class(owner@, name@, args.deep_view(), range),
    {
        if let Some(decl) = self.class_decl(owner, name) {
            self.validate_assoc_projection_args(owner, &decl, args, range);
            let ghost all = self@.reg.generics.instances;
            let mut found: Option<&AssocTypeValue> = None;
            let mut several = false;
            let mut i: usize = 0;
            assert(all.take(0) =~= Seq::<InstV>::empty());
            while i < self.reg.generics.instances.len()
                invariant
                    i <= self.reg.generics.instances.len(),
                    all == self.reg.generics.instances.deep_view(),
                    several == (assoc_values(all.take(i as int), owner@, name@).len() > 1),
                    !several ==> match found {
                        Some(v) => assoc_values(all.take(i as int), owner@, name@) == seq![v@],
                        None => assoc_values(all.take(i as int), owner@, name@).len() == 0,
                    },
                decreases self.reg.generics.instances.len() - i,
            {
                let inst = &self.reg.generics.instances[i];
                assert(all.take(i + 1).drop_last() =~= all.take(i as int));
                assert(all.take(i + 1).last() == inst@);
                if same_text(inst.class.as_str(), owner) {
                    if let Some(v) = inst.assoc_tys.get(name) {
                        if found.is_some() {
                            several = true;
                        }
                        assert(assoc_values(all.take(i as int), owner@, name@).len() == 0
                            ==> assoc_values(all.take(i + 1), owner@, name@) =~= seq![v@]);
                        found = Some(v);
                    }
                }
                i += 1;
            }
            assert(all.take(i as int) =~= all);
            if !several {
                if let Some(v) = found {
                    return self.instantiate_assoc_value(v, args);
                }
            }
            return self.fresh();
        }
        self.say(
            ErrorCode::GenericTypeError,
            cat5("Cannot find associated type `", name, "` on trait `", owner, "`"),
            range,
        );
        self.fresh()
    }

    /// Resolve `Owner::Assoc` in a type annotation.
    ///
    /// - Inside `trait Owner { .. }` it is the quantified associated variable.
    /// - `T::Elem`, when `T` is a type parameter with an active class constraint
    ///   that declares `Elem`, is a fresh (or known) open projection variable,
    ///   pinned when a ground instance is later discharged.
    /// - If `Owner` names a class and exactly one registered instance defines
    ///   the associated type, that concrete type.
    pub fn resolve_type_projection(
        &mut self,
        owner: &str,
        assoc: &str,
        args: &Vec<Ty>,
        range: Span,
    ) -> (r: Ty)
        ensures
            (final(self)@, r@) == old(self)@.resolve_type_projection(
                owner@,
                assoc@,
                args.deep_view(),
                range,
            ),
    {
        let current = match &self.ctx.typeclass {
            Some(class) => same_text(class.as_str(), owner),
            None => false,
        };
        if current {
            return self.project_current(owner, assoc, args, range);
        }
        if let Some(v) = self.type_param(owner) {
            return self.project_param(owner, v, assoc, args, range);
        }
        if self.reg.generics.typeclass(owner).is_some() {
            return self.project_class(owner, assoc, args, range);
        }
        self.say(
            ErrorCode::GenericTypeError,
            cat5("Cannot resolve type projection `", owner, "::", assoc, "`"),
            range,
        );
        self.fresh()
    }

    fn declares_assoc(&self, name: &str) -> (r: Option<String>)
        ensures
            match r {
                Some(class) => self@.declares_assoc(name@) && self@.ctx.typeclass == Some(class@),
                None => !self@.declares_assoc(name@),
            },
    {
        if let Some(class) = &self.ctx.typeclass {
            if self.class_decl(class.as_str(), name).is_some() {
                return Some(class.clone());
            }
        }
        None
    }

    fn declared_type(&mut self, name: &str, range: Span) -> (r: Ty)
        ensures
            (final(self)@, r@) == old(self)@.declared_type(name@, range),
    {
        if self.reg.enums.contains_key(name) || self.reg.classes.contains_key(name)
            || self.reg.generics.generic_type_ctors.contains_key(name)
            || self.reg.generics.nominal_type_module(name).is_some() {
            return con(name);
        }
        let mut bare = true;
        if let Some(def) = self.reg.generics.typeclass(name) {
            if def.type_params.len() == 1 && def.kind_at(0).is_type() {
                return Ty::Existential { class: name.to_owned() };
            }
            bare = false;
        }
        if !bare {
            self.say(
                ErrorCode::GenericTypeError,
                cat3("Typeclass `", name, "` cannot be used as a bare value type"),
                range,
            );
        }
        con(name)
    }

    /// The type that a name stands for in an annotation. Type parameters in
    /// scope take highest priority, then aliases. Built-in type names are
    /// matched case-insensitively so that users can write `String`, `STRING`,
    /// etc. Concrete type constructors win over bare-class existentials when a
    /// name collision exists.
    pub fn parse_type_name_str(&mut self, name: &str, range: Span) -> (r: Ty)
        ensures
            (final(self)@, r@) == old(self)@.parse_type_name_str(name@, range),
    {
        if let Some(v) = self.type_param(name) {
            return Ty::Var(v);
        }
        if let Some(t) = find_innermost(&self.scope.type_aliases, name) {
            return t.clone();
        }
        if is_lowered(name, "int") {
            int_ty()
        } else if is_lowered(name, "float") {
            float()
        } else if is_lowered(name, "bool") {
            boolean()
        } else if is_lowered(name, "byte") {
            byte()
        } else if is_lowered(name, "string") {
            string()
        } else if is_lowered(name, "void") {
            unit()
        } else if is_lowered(name, "stream") {
            stream_ty()
        } else if is_lowered(name, "option") {
            let t = self.fresh();
            option_app_ty(t)
        } else if is_lowered(name, "result") {
            let t = self.fresh();
            let u = self.fresh();
            result_app_ty(t, u)
        } else if is_lowered(name, "ioerror") {
            con("IoError")
        } else {
            self.declared_type(name, range)
        }
    }

    /// Fresh variables with their kinds for type parameters: the frame that
    /// names them, and the variables in order.
    pub fn fresh_params(&mut self, params: &Vec<TypeParam>) -> (r: (NameMap<TyVarId>, Vec<TyVarId>))
        ensures
            (final(self)@, r.0@, r.1@) == old(self)@.fresh_params(
                params@,
                0,
                Map::empty(),
                Seq::empty(),
            ),
            r.0.order() == frame_order(params@, params@.len()),
    {
        let mut frame: NameMap<TyVarId> = NameMap::new();
        let mut vars: Vec<TyVarId> = Vec::new();
        let ghost whole = self@.fresh_params(params@, 0, frame@, vars@);
        let mut i: usize = 0;
        while i < params.len()
            invariant
                i <= params.len(),
                whole == self@.fresh_params(params@, i as nat, frame@, vars@),
                frame.order() == frame_order(params@, i as nat),
            decreases params.len() - i,
        {
            proof {
                frame.order_holds_keys();
            }
            let v = self.fresh_var();
            let kind = self.resolve_type_param_kind(&params[i]);
            self.set_var_kind(v, kind);
            frame.insert(params[i].name.clone(), v);
            vars.push(v);
            i += 1;
        }
        (frame, vars)
    }

    /// The constraints that bounds put on `arg`, after those in `acc`.
    pub fn constraints_from_bounds(
        &mut self,
        bounds: &Vec<String>,
        arg: &Ty,
        range: Span,
        acc: &mut Vec<Constraint>,
    )
        ensures
            (final(self)@, final(acc).deep_view()) == old(self)@.constraints_from_bounds(
                bounds.deep_view(),
                arg@,
                range,
                0,
                old(acc).deep_view(),
            ),
    {
        let ghost names = bounds.deep_view();
        let ghost whole = self@.constraints_from_bounds(names, arg@, range, 0, acc.deep_view());
        let mut i: usize = 0;
        while i < bounds.len()
            invariant
                i <= bounds.len(),
                names == bounds.deep_view(),
                whole == self@.constraints_from_bounds(
                    names,
                    arg@,
                    range,
                    i as nat,
                    acc.deep_view(),
                ),
            decreases bounds.len() - i,
        {
            assert(names[i as int] == bounds@[i as int]@);
            let ghost before = acc.deep_view();
            if let Some(c) = self.constraint_from_bound(bounds[i].as_str(), arg.clone(), range) {
                acc.push(c);
                assert(acc.deep_view() =~= before.push(c@));
            }
            i += 1;
        }
    }

    /// The constraints of type parameters on their variables.
    pub fn constraints_from_params(
        &mut self,
        params: &Vec<TypeParam>,
        vars: &Vec<TyVarId>,
        range: Span,
    ) -> (r: Vec<Constraint>)
        ensures
            (final(self)@, r.deep_view()) == old(self)@.constraints_from_params(
                params@,
                vars@,
                range,
                0,
                Seq::empty(),
            ),
    {
        let mut acc: Vec<Constraint> = Vec::new();
        assert(acc.deep_view() =~= Seq::<Tree>::empty());
        let ghost whole = self@.constraints_from_params(params@, vars@, range, 0, Seq::empty());
        let mut i: usize = 0;
        while i < params.len() && i < vars.len()
            invariant
                i <= params.len(),
                i <= vars.len(),
                whole == self@.constraints_from_params(
                    params@,
                    vars@,
                    range,
                    i as nat,
                    acc.deep_view(),
                ),
            decreases params.len() - i,
        {
            let arg = Ty::Var(vars[i]);
            self.constraints_from_bounds(&params[i].bounds, &arg, range, &mut acc);
            i += 1;
        }
        acc
    }

    /// Open a frame of type parameters.
    pub fn push_params(&mut self, frame: NameMap<TyVarId>)
        ensures
            final(self)@ == old(self)@.push_params(frame@, frame.order()),
    {
        let ghost before = self@.scope;
        self.scope.type_params.push(frame);
        assert(self@.scope.type_params =~= before.type_params.push(frame@));
        assert(self@.scope.param_order =~= before.param_order.push(frame.order()));
    }

    /// Close the innermost frame of type parameters.
    pub fn pop_params(&mut self)
        ensures
            final(self)@ == old(self)@.pop_params(),
    {
        let _ = self.scope.type_params.pop();
        proof {
            let want = old(self)@.pop_params().scope;
            assert(self@.scope.type_params =~= want.type_params);
            assert(self@.scope.param_order =~= want.param_order);
        }
    }

    /// Open the frame of a `forall`: its variables and the constraints on them.
    pub fn open_forall(&mut self, params: &Vec<TypeParam>) -> (r: (Vec<TyVarId>, Vec<Constraint>))
        ensures
            (final(self)@, r.0@, r.1.deep_view()) == old(self)@.open_forall(params@),
    {
        let (frame, vars) = self.fresh_params(params);
        self.push_params(frame);
        let constraints = self.constraints_from_params(params, &vars, Span { start: 0, end: 0 });
        (vars, constraints)
    }

    /// The type that an annotation stands for.
    pub fn parse_type_name(&mut self, ann: &Output) -> (r: Ty)
        ensures
            (final(self)@, r@) == old(self)@.parse_type_name(*ann),
        decreases ann, 0nat,
    {
        match &*ann.expr {
            Expression::Identifier(name) => self.parse_bare_name(name.as_str(), ann.span),
            Expression::Type(name) => self.parse_bare_name(name.as_str(), ann.span),
            Expression::TypeApp { name, args } => {
                self.parse_type_app(name.as_str(), args, ann.span)
            },
            Expression::TypeProjection { owner, name, args } => {
                let tys = self.parse_type_names(args);
                self.resolve_type_projection(owner.as_str(), name.as_str(), &tys, ann.span)
            },
            Expression::TypeFun(arg, ret) => {
                let t = self.parse_type_name(arg);
                let u = self.parse_type_name(ret);
                ty::fun(t, u)
            },
            Expression::Forall { params, ty } => {
                let (bounds, constraints) = self.open_forall(params);
                let body = self.parse_type_name(ty);
                self.pop_params();
                let r = Ty::Forall { bounds, constraints, body: Box::new(body) };
                proof {
                    crate::tree::forall_shape(bounds, constraints, Box::new(body));
                }
                r
            },
            Expression::Array(items) => match array_length(items) {
                Some(n) => if items.len() == 2 {
                    let t = self.parse_type_name(&items[0]);
                    array_fixed(t, n)
                } else {
                    let t = self.parse_type_name_str("int", Span { start: 0, end: 0 });
                    array_fixed(t, n)
                },
                None => if items.len() > 0 {
                    let t = self.parse_type_name(&items[0]);
                    array(t)
                } else {
                    let t = self.parse_type_name_str("int", Span { start: 0, end: 0 });
                    array(t)
                },
            },
            Expression::Tuple(items) => {
                let tys = self.parse_type_names(items);
                ty::tuple(tys)
            },
            _ => self.fresh(),
        }
    }

    /// The types that annotations stand for.
    pub fn parse_type_names(&mut self, items: &Vec<Output>) -> (r: Vec<Ty>)
        ensures
            (final(self)@, r.deep_view()) == old(self)@.parse_type_names(items@, 0, Seq::empty()),
        decreases items@, items@.len(),
    {
        let mut acc: Vec<Ty> = Vec::new();
        assert(acc.deep_view() =~= Seq::<Tree>::empty());
        let ghost whole = self@.parse_type_names(items@, 0, Seq::empty());
        let mut i: usize = 0;
        while i < items.len()
            invariant
                i <= items.len(),
                whole == self@.parse_type_names(items@, i as nat, acc.deep_view()),
            decreases items.len() - i,
        {
            let ghost before = acc.deep_view();
            let t = self.parse_type_name(&items[i]);
            acc.push(t);
            assert(acc.deep_view() =~= before.push(t@));
            i += 1;
        }
        acc
    }

    /// The type that `name<args>` stands for.
    pub fn parse_type_app(&mut self, name: &str, args: &Vec<Output>, range: Span) -> (r: Ty)
        ensures
            (final(self)@, r@) == old(self)@.parse_type_app(name@, args@, range),
        decreases args@, args@.len() + 1,
    {
        let tys = self.parse_type_names(args);
        self.apply_type_ctor(name, tys, range)
    }

    /// The type that a bare name stands for in an annotation.
    pub fn parse_bare_name(&mut self, name: &str, range: Span) -> (r: Ty)
        ensures
            (final(self)@, r@) == old(self)@.parse_bare_name(name@, range),
    {
        if let Some(class) = self.declares_assoc(name) {
            let none: Vec<Ty> = Vec::new();
            assert(none.deep_view() =~= Seq::<Tree>::empty());
            return self.resolve_type_projection(class.as_str(), name, &none, range);
        }
        self.parse_type_name_str(name, Span { start: 0, end: 0 })
    }

    fn expect_type_args(&mut self, name: &str, want: usize, got: usize, range: Span)
        ensures
            final(self)@ == old(self)@.expect_type_args(name@, want as nat, got as nat, range),
    {
        if want != got {
            let w = number(want);
            let g = number(got);
            let start = cat5(
                "Type constructor `",
                name,
                "` expects ",
                w.as_str(),
                " type arguments, got ",
            );
            self.say(ErrorCode::GenericTypeError, cat2(start.as_str(), g.as_str()), range);
        }
    }

    /// The type constructor `name` applied to types: an associated type of the
    /// class being declared, a constructor-kinded type parameter (`F<A>`), a
    /// generic alias (which expands), or a registered constructor.
    pub fn apply_type_ctor(&mut self, name: &str, arg_tys: Vec<Ty>, range: Span) -> (r: Ty)
        ensures
            (final(self)@, r@) == old(self)@.apply_type_ctor(name@, arg_tys.deep_view(), range),
    {
        if let Some(class) = self.declares_assoc(name) {
            return self.resolve_type_projection(class.as_str(), name, &arg_tys, range);
        }
        if let Some(v) = self.type_param(name) {
            let kind = self.kind_of_var(v);
            self.check_type_app_kind(name, &kind, &arg_tys, range);
            return ty::app(Ty::Var(v), arg_tys);
        }
        if let Some(def) = self.scope.generic_aliases.get(name) {
            let want = def.params.len();
            let r = fill(&def.body, &def.param_vars, &arg_tys);
            self.expect_type_args(name, want, arg_tys.len(), range);
            return r;
        }
        if let Some(params) = self.reg.generics.generic_type_ctors.get(name) {
            let want = params.len();
            self.expect_type_args(name, want, arg_tys.len(), range);
            return ty::app(con(name), arg_tys);
        }
        self.say(
            ErrorCode::GenericTypeError,
            cat3("Cannot find type constructor `", name, "`"),
            range,
        );
        ty::app(con(name), arg_tys)
    }

    /// Parse a trait instance argument. Bare registered constructors (`Option`,
    /// `Result`, user generics) become constructor heads rather than applied
    /// placeholders. Applied heads are first-order.
    pub fn parse_instance_head(&mut self, arg: &Output) -> (r: Ty)
        ensures
            (final(self)@, r@) == old(self)@.parse_instance_head(*arg),
    {
        match &*arg.expr {
            Expression::Type(name) => self.head_from_name(name.as_str(), arg.span),
            Expression::Identifier(name) => self.head_from_name(name.as_str(), arg.span),
            Expression::TypeApp { name, args } => {
                self.parse_type_app(name.as_str(), args, arg.span)
            },
            _ => self.parse_type_name(arg),
        }
    }

    fn head_from_name(&mut self, name: &str, range: Span) -> (r: Ty)
        ensures
            (final(self)@, r@) == old(self)@.head_from_name(name@, range),
    {
        let canon = canonical_ctor_name(name);
        if self.reg.generics.generic_type_ctors.contains_key(canon.as_str()) || is_lowered(
            name,
            "option",
        ) || is_lowered(name, "result") {
            return con(canon.as_str());
        }
        self.parse_type_name_str(name, range)
    }
}

} // verus!
