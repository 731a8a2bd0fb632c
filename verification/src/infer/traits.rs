//! Declarations of traits and of their instances, around the bodies they hold.
use crate::ast::{Expression, Output, TypeParam};
use crate::env::{self, AssocProjection, ProjectionV, Scheme, SchemeV};
use crate::generics::{self, AssocDeclV, AssocTypeDecl, AssocTypeValue, AssocValueV, ClassV, Generics, GenericsV, InstV, InstanceDef, InstanceId, InstanceOrigin, MethodV, OriginV, TypeClassDef, TypeClassMethodDef};
use crate::infer::annotations::{self, plural_end};
use crate::infer::decls::{self, function_type, names_of_params, scheme_with_projections};
use crate::infer::instances::{self, instance_signature};
use crate::infer::{Checker, CheckerV, CtxV, MethodKey, RegistryV, ScopesV};
use crate::kind::Kind;
use crate::maps::{self, Dup, NameMap, NameSet};
use crate::report::{ErrorCode, Label, Message, MessageV, Span};
use crate::text::{self, cat3, cat4, cat5, cat7, cat9, join_ticked, join_with, number, same_text};
use crate::tree::Tree;
use crate::ty::{Constraint, Ty, TyVarId, join_text, ty_text, unit};
use vstd::prelude::*;

verus! {

broadcast use crate::tree::group_shapes;

/// A class that the compiler declares.
pub open spec fn builtin_class(class: Seq<char>) -> bool {
    ||| class == "Add"@
    ||| class == "Sub"@
    ||| class == "Mul"@
    ||| class == "Div"@
    ||| class == "Num"@
    ||| class == "Lt"@
    ||| class == "Le"@
    ||| class == "Gt"@
    ||| class == "Ge"@
    ||| class == "Ord"@
    ||| class == "Eq"@
    ||| class == "Show"@
}

/// A member that has a body: any but an empty block.
pub open spec fn has_body(body: Output) -> bool {
    match *body.expr {
        Expression::Block(v) => v@.len() > 0,
        _ => true,
    }
}

/// The notations of types.
pub open spec fn texts(ts: Seq<Tree>) -> Seq<Seq<char>> {
    Seq::new(ts.len(), |i: int| ts[i].text())
}

fn texts_of(tys: &Vec<Ty>) -> (r: Vec<String>)
    ensures
        r.deep_view() == texts(tys.deep_view()),
{
    let ghost all = texts(tys.deep_view());
    let mut out: Vec<String> = Vec::new();
    let mut i: usize = 0;
    while i < tys.len()
        invariant
            i <= tys.len(),
            all == texts(tys.deep_view()),
            out.deep_view() == all.take(i as int),
        decreases tys.len() - i,
    {
        let ghost before = out.deep_view();
        assert(tys.deep_view()[i as int] == tys@[i as int]@);
        let s = ty_text(&tys[i]);
        out.push(s);
        assert(out.deep_view() =~= before.push(s@));
        i += 1;
        assert(out.deep_view() =~= all.take(i as int));
    }
    assert(out.deep_view() =~= all);
    out
}

/// The code-generation name of a method of an instance.
pub open spec fn instance_fqn(class: Seq<char>, args: Seq<Tree>, method: Seq<char>) -> Seq<char> {
    class + "__"@ + text::joined(texts(args), "_"@) + "__"@ + method
}

/// The code-generation name of a method of an instance.
pub fn method_fqn_for(class: &str, args: &Vec<Ty>, method: &str) -> (r: String)
    ensures
        r@ == instance_fqn(class@, args.deep_view(), method@),
{
    let pieces = texts_of(args);
    let pretty = join_with(&pieces, "_");
    cat5(class, "__", pretty.as_str(), "__", method)
}

/// The name of a method in an `impl`, bare or with a visibility.
pub open spec fn impl_method_name(m: Output) -> Option<Seq<char>> {
    match *m.expr {
        Expression::Function { name, .. } => Some(name@),
        Expression::Method(_, body) => match *body.expr {
            Expression::Function { name, .. } => Some(name@),
            _ => None,
        },
        _ => None,
    }
}

fn name_of_impl_method(m: &Output) -> (r: Option<&String>)
    ensures
        match r {
            Some(n) => impl_method_name(*m) == Some(n@),
            None => impl_method_name(*m) is None,
        },
{
    match &*m.expr {
        Expression::Function { name, .. } => Some(name),
        Expression::Method(_, body) => match &*body.expr {
            Expression::Function { name, .. } => Some(name),
            _ => None,
        },
        _ => None,
    }
}

/// The code-generation names of the first `n` members that are methods.
pub open spec fn stub_fqns(class: Seq<char>, args: Seq<Tree>, methods: Seq<Output>, n: nat) -> Map<
    Seq<char>,
    Seq<char>,
>
    decreases n,
{
    if n == 0 {
        Map::empty()
    } else {
        let rest = stub_fqns(class, args, methods, (n - 1) as nat);
        match impl_method_name(methods[n - 1]) {
            Some(m) => rest.insert(m, instance_fqn(class, args, m)),
            None => rest,
        }
    }
}

fn stub_names(class: &str, args: &Vec<Ty>, methods: &Vec<Output>) -> (r: NameMap<String>)
    ensures
        r@ == stub_fqns(class@, args.deep_view(), methods@, methods@.len()),
{
    let mut r: NameMap<String> = NameMap::new();
    let mut i: usize = 0;
    while i < methods.len()
        invariant
            i <= methods.len(),
            r@ == stub_fqns(class@, args.deep_view(), methods@, i as nat),
        decreases methods.len() - i,
    {
        if let Some(m) = name_of_impl_method(&methods[i]) {
            r.insert(m.clone(), method_fqn_for(class, args, m.as_str()));
        }
        i += 1;
    }
    r
}

/// The classes that were not looked at yet.
pub open spec fn unseen(classes: Map<Seq<char>, ClassV>, seen: Set<Seq<char>>) -> Set<Seq<char>> {
    classes.dom().filter(|k: Seq<char>| !seen.contains(k))
}

/// Looking at a class leaves fewer to look at.
pub proof fn seeing_shrinks(classes: Map<Seq<char>, ClassV>, seen: Set<Seq<char>>, name: Seq<char>)
    requires
        classes.dom().finite(),
        !seen.contains(name),
    ensures
        unseen(classes, seen).finite(),
        classes.contains_key(name) ==> unseen(classes, seen.insert(name)).len() < unseen(
            classes,
            seen,
        ).len(),
        !classes.contains_key(name) ==> unseen(classes, seen.insert(name)) == unseen(classes, seen),
{
    let a = unseen(classes, seen);
    let b = unseen(classes, seen.insert(name));
    vstd::set_lib::lemma_len_subset(a, classes.dom());
    if classes.contains_key(name) {
        assert(a.contains(name));
        assert(b =~= a.remove(name));
    } else {
        assert(b =~= a);
    }
}

/// The superclasses of a list, at any distance, that have no instance for
/// `args`; the last of the list is taken first.
pub open spec fn missing_supers(
    g: GenericsV,
    args: Seq<Tree>,
    stack: Seq<Seq<char>>,
    seen: Set<Seq<char>>,
    acc: Seq<Seq<char>>,
) -> Seq<Seq<char>>
    decreases unseen(g.typeclasses, seen).len(), stack.len(),
    when g.typeclasses.dom().finite()
{
    if stack.len() == 0 {
        acc
    } else {
        let name = stack.last();
        let rest = stack.drop_last();
        if seen.contains(name) {
            missing_supers(g, args, rest, seen, acc)
        } else {
            proof {
                seeing_shrinks(g.typeclasses, seen, name);
            }
            let found = generics::exact_instance(g.instances, name, args) is Some;
            missing_supers(
                g,
                args,
                if g.typeclasses.contains_key(name) {
                    rest + g.typeclasses[name].superclasses
                } else {
                    rest
                },
                seen.insert(name),
                if found {
                    acc
                } else {
                    acc.push(name)
                },
            )
        }
    }
}

fn find_missing_supers(g: &Generics, args: &Vec<Ty>, supers: &Vec<String>) -> (r: Vec<String>)
    ensures
        r.deep_view() == missing_supers(
            g@,
            args.deep_view(),
            supers.deep_view(),
            Set::empty(),
            Seq::empty(),
        ),
{
    let mut stack: Vec<String> = supers.dup();
    let mut seen = NameSet::new();
    let mut acc: Vec<String> = Vec::new();
    assert(acc.deep_view() =~= Seq::<Seq<char>>::empty());
    let ghost whole = missing_supers(
        g@,
        args.deep_view(),
        supers.deep_view(),
        Set::empty(),
        Seq::empty(),
    );
    proof {
        g.typeclasses.finite_keys();
    }
    while stack.len() > 0
        invariant
            g@.typeclasses.dom().finite(),
            whole == missing_supers(
                g@,
                args.deep_view(),
                stack.deep_view(),
                seen@,
                acc.deep_view(),
            ),
        decreases unseen(g@.typeclasses, seen@).len(), stack.len(),
    {
        let ghost before = stack.deep_view();
        let ghost old_acc = acc.deep_view();
        let ghost old_seen = seen@;
        if let Some(name) = stack.pop() {
            assert(before.last() == name@);
            assert(stack.deep_view() =~= before.drop_last());
            if !seen.contains(name.as_str()) {
                proof {
                    seeing_shrinks(g@.typeclasses, old_seen, name@);
                }
                let _ = seen.insert(name.clone());
                let slice = args.as_slice();
                assert(slice.deep_view() =~= args.deep_view());
                let known = g.find_instance(name.as_str(), slice).is_some();
                if let Some(def) = g.typeclass(name.as_str()) {
                    let mut more = def.superclasses.dup();
                    let ghost rest = stack.deep_view();
                    let ghost added = more.deep_view();
                    stack.append(&mut more);
                    assert(stack.deep_view() =~= rest + added);
                }
                if !known {
                    let ghost n = name@;
                    acc.push(name);
                    assert(acc.deep_view() =~= old_acc.push(n));
                }
            }
        }
    }
    acc
}

/// Borrowed texts of names.
fn borrow_names(names: &Vec<String>) -> (r: Vec<&str>)
    ensures
        generics::str_views(r@) == names.deep_view(),
{
    let mut out: Vec<&str> = Vec::new();
    let mut i: usize = 0;
    while i < names.len()
        invariant
            i <= names.len(),
            out@.len() == i,
            forall|j: int| 0 <= j < i ==> (#[trigger] out@[j])@ == names@[j]@,
        decreases names.len() - i,
    {
        out.push(names[i].as_str());
        i += 1;
    }
    assert(generics::str_views(out@) =~= names.deep_view());
    out
}

/// Variables as types.
pub open spec fn var_trees(vars: Seq<TyVarId>) -> Seq<Tree> {
    Seq::new(vars.len(), |i: int| Tree::Var(vars[i]))
}

/// Variables as types.
pub fn vars_as_tys(vars: &Vec<TyVarId>) -> (r: Vec<Ty>)
    ensures
        r.deep_view() == var_trees(vars@),
{
    let ghost all = var_trees(vars@);
    let mut out: Vec<Ty> = Vec::new();
    let mut i: usize = 0;
    while i < vars.len()
        invariant
            i <= vars.len(),
            all == var_trees(vars@),
            out.deep_view() == all.take(i as int),
        decreases vars.len() - i,
    {
        let ghost before = out.deep_view();
        let t = Ty::Var(vars[i]);
        out.push(t);
        assert(out.deep_view() =~= before.push(t@));
        i += 1;
        assert(out.deep_view() =~= all.take(i as int));
    }
    assert(out.deep_view() =~= all);
    out
}

/// The annotated kinds of type parameters.
pub open spec fn annotated_kinds(params: Seq<TypeParam>) -> Seq<Kind> {
    Seq::new(params.len(), |i: int| params[i].kind)
}

fn kinds_of_params(params: &Vec<TypeParam>) -> (r: Vec<Kind>)
    ensures
        r@ == annotated_kinds(params@),
{
    let ghost all = annotated_kinds(params@);
    let mut out: Vec<Kind> = Vec::new();
    let mut i: usize = 0;
    while i < params.len()
        invariant
            i <= params.len(),
            all == annotated_kinds(params@),
            out@ == all.take(i as int),
        decreases params.len() - i,
    {
        out.push(params[i].kind.clone());
        i += 1;
        assert(out@ =~= all.take(i as int));
    }
    assert(out@ =~= all);
    out
}

/// The direct superclasses of a trait: the bounds of its only parameter.
pub open spec fn super_names(params: Seq<TypeParam>) -> Seq<Seq<char>> {
    if params.len() == 1 {
        params[0].bounds.deep_view()
    } else {
        Seq::empty()
    }
}

/// One of the declarations has this name.
pub open spec fn declares_assoc_type(decls: Seq<AssocDeclV>, name: Seq<char>) -> bool {
    annotations::decl_from(decls, name, 0) is Some
}

fn lists_assoc_type(decls: &Vec<AssocTypeDecl>, name: &str) -> (r: bool)
    ensures
        r == declares_assoc_type(decls.deep_view(), name@),
{
    let ghost all = decls.deep_view();
    let mut i: usize = 0;
    while i < decls.len()
        invariant
            i <= decls.len(),
            all == decls.deep_view(),
            annotations::decl_from(all, name@, 0) == annotations::decl_from(all, name@, i as nat),
        decreases decls.len() - i,
    {
        assert(all[i as int] == decls@[i as int]@);
        if same_text(decls[i].name.as_str(), name) {
            return true;
        }
        i += 1;
    }
    false
}

/// What is kept of a trait while its members are typed.
#[derive(Debug)]
pub struct ClassFrame {
    pub vars: Vec<TyVarId>,
    pub kinds: Vec<Kind>,
    pub active_len: usize,
}

/// The model of a [`ClassFrame`].
#[verifier::ext_equal]
pub struct ClassFrameV {
    pub vars: Seq<TyVarId>,
    pub kinds: Seq<Kind>,
    pub active_len: usize,
}

impl View for ClassFrame {
    type V = ClassFrameV;

    open spec fn view(&self) -> ClassFrameV {
        ClassFrameV { vars: self.vars@, kinds: self.kinds@, active_len: self.active_len }
    }
}

/// What is kept of an instance while its members are typed.
#[derive(Debug)]
pub struct InstFrame {
    /// The trait, when there is one of that name.
    pub def: Option<TypeClassDef>,
    pub args: Vec<Ty>,
    /// The place of the instance in the registry, when it is accepted so far.
    pub stub: Option<usize>,
    pub names: Vec<String>,
    pub fqns: NameMap<String>,
    pub assoc_names: Vec<String>,
    pub assocs: NameMap<AssocTypeValue>,
    /// Some associated type does not fit its declaration.
    pub faulty: bool,
}

/// The model of an [`InstFrame`].
#[verifier::ext_equal]
pub struct InstFrameV {
    pub def: Option<ClassV>,
    pub args: Seq<Tree>,
    pub stub: Option<usize>,
    pub names: Seq<Seq<char>>,
    pub fqns: Map<Seq<char>, Seq<char>>,
    pub assoc_names: Seq<Seq<char>>,
    pub assocs: Map<Seq<char>, AssocValueV>,
    pub faulty: bool,
}

impl View for InstFrame {
    type V = InstFrameV;

    open spec fn view(&self) -> InstFrameV {
        InstFrameV {
            def: self.def.deep_view(),
            args: self.args.deep_view(),
            stub: self.stub,
            names: self.names.deep_view(),
            fqns: self.fqns@,
            assoc_names: self.assoc_names.deep_view(),
            assocs: self.assocs@,
            faulty: self.faulty,
        }
    }
}

/// An associated type of an instance, as it is read.
#[derive(Debug)]
pub struct AssocFrame {
    pub vars: Vec<TyVarId>,
    pub kinds: Vec<Kind>,
    pub ty: Ty,
}

/// The model of an [`AssocFrame`].
#[verifier::ext_equal]
pub struct AssocFrameV {
    pub vars: Seq<TyVarId>,
    pub kinds: Seq<Kind>,
    pub ty: Tree,
}

impl View for AssocFrame {
    type V = AssocFrameV;

    open spec fn view(&self) -> AssocFrameV {
        AssocFrameV { vars: self.vars@, kinds: self.kinds@, ty: self.ty@ }
    }
}

impl CheckerV {
    /// The members of a trait, from place `at` on: associated types and methods.
    pub open spec fn class_members(
        self,
        class: Seq<char>,
        methods: Seq<Output>,
        at: nat,
        assocs: Seq<AssocDeclV>,
        defs: Seq<MethodV>,
    ) -> (CheckerV, Seq<AssocDeclV>, Seq<MethodV>)
        decreases methods.len() - at,
    {
        if at >= methods.len() {
            (self, assocs, defs)
        } else {
            let m = methods[at as int];
            match *m.expr {
                Expression::AssocTypeDecl { name, type_params } => if declares_assoc_type(
                    assocs,
                    name@,
                ) {
                    self.say(
                        ErrorCode::GenericTypeError,
                        "Duplicate associated type `"@ + name@ + "` in trait `"@ + class + "`"@,
                        m.span,
                    ).class_members(class, methods, at + 1, assocs, defs)
                } else {
                    let decl = AssocDeclV {
                        name: name@,
                        params: decls::param_names(type_params@),
                        param_kinds: Seq::new(
                            type_params@.len(),
                            |i: int| self.resolve_type_param_kind(type_params@[i]),
                        ),
                    };
                    self.class_members(class, methods, at + 1, assocs.push(decl), defs)
                },
                Expression::Function { name, body, .. } => self.class_members(
                    class,
                    methods,
                    at + 1,
                    assocs,
                    defs.push(MethodV { name: name@, has_default: has_body(body) }),
                ),
                _ => self.class_members(class, methods, at + 1, assocs, defs),
            }
        }
    }

    /// The module that declares a trait; the traits of the compiler are in
    /// `prelude::ops`.
    pub open spec fn class_module(self, name: Seq<char>) -> Seq<char> {
        if self.reg.generics.class_modules.contains_key(name) {
            self.reg.generics.class_modules[name]
        } else {
            "prelude::ops"@
        }
    }

    /// The name of a trait is taken, and not free to be declared anew.
    pub open spec fn class_taken(self, name: Seq<char>) -> bool {
        self.reg.generics.typeclasses.contains_key(name) && !(builtin_class(name)
            && !self.scope.bindings.contains_key(name))
    }

    /// The complaint about a second trait of one name.
    pub open spec fn second_class(self, name: Seq<char>, range: Span) -> MessageV {
        MessageV::error(
            ErrorCode::GenericTypeError,
            "Duplicate trait `"@ + name + "`"@,
            range,
        ).helped(
            if builtin_class(name) && self.scope.bindings.contains_key(name) {
                "`"@ + name + "` is in the prelude; free the short name with `use "@
                    + self.class_module(name) + "::"@ + name
                    + " as OtherName;` before redefining, or pick a different name"@
            } else {
                "trait `"@ + name + "` was already declared in module `"@ + self.class_module(name)
                    + "`"@
            },
        )
    }

    /// A trait is entered, declared in the current module.
    pub open spec fn add_class(self, name: Seq<char>, def: ClassV) -> CheckerV {
        let g = generics::with_class(self.reg.generics, name, def);
        CheckerV {
            reg: RegistryV {
                generics: GenericsV {
                    class_modules: g.class_modules.insert(name, self.scope.module),
                    ..g
                },
                ..self.reg
            },
            ..self
        }
    }

    /// Fresh variables with the annotated kinds for the parameters of a trait.
    pub open spec fn class_params(
        self,
        params: Seq<TypeParam>,
        at: nat,
        frame: Map<Seq<char>, TyVarId>,
        vars: Seq<TyVarId>,
    ) -> (CheckerV, Map<Seq<char>, TyVarId>, Seq<TyVarId>)
        decreases params.len() - at,
    {
        if at >= params.len() {
            (self, frame, vars)
        } else {
            let (c, v) = self.fresh_var();
            c.set_var_kind(v, params[at as int].kind).class_params(
                params,
                at + 1,
                frame.insert(params[at as int].name@, v),
                vars.push(v),
            )
        }
    }

    /// The trait that is being declared.
    pub open spec fn with_typeclass(self, class: Option<Seq<char>>) -> CheckerV {
        CheckerV { ctx: CtxV { typeclass: class, ..self.ctx }, ..self }
    }

    /// A frame of type parameters is opened, unless it is empty.
    pub open spec fn push_some_params(
        self,
        frame: Map<Seq<char>, TyVarId>,
        order: Seq<Seq<char>>,
    ) -> CheckerV {
        if order.len() > 0 {
            self.push_params(frame, order)
        } else {
            self
        }
    }

    /// The signature of a trait method, with the parameters of the trait in
    /// scope.
    pub open spec fn method_signature(
        self,
        class: Seq<char>,
        vars: Seq<TyVarId>,
        kinds: Seq<Kind>,
        params: Seq<TypeParam>,
        args: Output,
        declared_ret: Option<Output>,
    ) -> (CheckerV, SchemeV) {
        let method_kinds = Seq::new(
            params.len(),
            |i: int| self.resolve_type_param_kind(params[i]),
        );
        let (c, frame, method_vars) = self.fresh_params(params, 0, Map::empty(), Seq::empty());
        let order = annotations::frame_order(params, params.len());
        let outer = c.ctx.projections;
        let (c, arg_tys) = c.push_some_params(frame, order).with_projections(
            Some(Seq::empty()),
        ).parse_arg_list(args);
        let (c, ret) = match declared_ret {
            Some(r) => c.parse_type_name(r),
            None => (c, Tree::con("unit"@)),
        };
        let projections = match c.ctx.projections {
            Some(ps) => ps,
            None => Seq::empty(),
        };
        let c = c.with_projections(outer);
        (
            if order.len() > 0 {
                c.pop_params()
            } else {
                c
            },
            decls::projected_scheme(
                vars + method_vars,
                kinds + method_kinds,
                seq![Tree::pred(class, var_trees(vars))],
                projections,
                decls::fn_type(arg_tys, None, ret),
            ),
        )
    }

    /// The signature of a trait method is entered.
    pub open spec fn add_method_scheme(
        self,
        class: Seq<char>,
        method: Seq<char>,
        scheme: SchemeV,
    ) -> CheckerV {
        CheckerV {
            reg: RegistryV {
                method_schemes: self.reg.method_schemes.insert((class, method), scheme),
                method_order: maps::order_with(
                    self.reg.method_schemes,
                    self.reg.method_order,
                    (class, method),
                ),
                ..self.reg
            },
            ..self
        }
    }

    /// The signatures of the methods of a trait are entered, from place `at` on.
    pub open spec fn method_signatures(
        self,
        class: Seq<char>,
        vars: Seq<TyVarId>,
        kinds: Seq<Kind>,
        methods: Seq<Output>,
        at: nat,
    ) -> CheckerV
        decreases methods.len() - at,
    {
        if at >= methods.len() {
            self
        } else {
            match *methods[at as int].expr {
                Expression::Function { name, type_params, args, returns: declared_ret, .. } => {
                    let (c, scheme) = self.method_signature(
                        class,
                        vars,
                        kinds,
                        type_params@,
                        args,
                        declared_ret,
                    );
                    c.add_method_scheme(class, name@, scheme).method_signatures(
                        class,
                        vars,
                        kinds,
                        methods,
                        at + 1,
                    )
                },
                _ => self.method_signatures(class, vars, kinds, methods, at + 1),
            }
        }
    }

    /// Everything of a trait before its members are typed; nothing when its name
    /// is taken, which is reported.
    pub open spec fn open_class(
        self,
        name: Seq<char>,
        params: Seq<TypeParam>,
        methods: Seq<Output>,
        range: Span,
    ) -> (CheckerV, Option<ClassFrameV>) {
        let (c, assocs, defs) = self.class_members(name, methods, 0, Seq::empty(), Seq::empty());
        if c.class_taken(name) {
            (c.report(c.second_class(name, range)), None)
        } else {
            let kinds = annotated_kinds(params);
            let c = c.add_class(
                name,
                ClassV {
                    name,
                    type_params: decls::param_names(params),
                    param_kinds: kinds,
                    superclasses: super_names(params),
                    assoc_types: assocs,
                    methods: defs,
                },
            );
            let (c, frame, vars) = c.class_params(params, 0, Map::empty(), Seq::empty());
            let c = c.push_params(
                frame,
                annotations::frame_order(params, params.len()),
            ).with_typeclass(Some(name)).method_signatures(name, vars, kinds, methods, 0);
            let active_len = c.scope.active.len() as usize;
            (
                CheckerV {
                    scope: ScopesV {
                        active: c.scope.active.push(Tree::pred(name, var_trees(vars))),
                        ..c.scope
                    },
                    ..c
                },
                Some(ClassFrameV { vars, kinds, active_len }),
            )
        }
    }

    /// Everything of a trait after its members.
    pub open spec fn close_class(self, f: ClassFrameV) -> CheckerV {
        self.deactivate(f.active_len).with_typeclass(None)
    }

    /// Instance heads, from place `at` on.
    pub open spec fn parse_heads(self, items: Seq<Output>, at: nat, acc: Seq<Tree>) -> (
        CheckerV,
        Seq<Tree>,
    )
        decreases items.len() - at,
    {
        if at >= items.len() {
            (self, acc)
        } else {
            let (c, t) = self.parse_instance_head(items[at as int]);
            c.parse_heads(items, at + 1, acc.push(t))
        }
    }

    /// The place of the instance, from `at` on, that is already there for
    /// `args`.
    pub open spec fn overlapping(self, class: Seq<char>, args: Seq<Tree>, at: nat) -> Option<nat>
        decreases self.reg.generics.instances.len() - at,
    {
        if at >= self.reg.generics.instances.len() {
            None
        } else if generics::implements(self.reg.generics.instances[at as int], class, args) {
            Some(at)
        } else {
            self.overlapping(class, args, at + 1)
        }
    }

    /// The complaint about an instance that neither its trait nor its types
    /// belong to this module.
    pub open spec fn orphan(self, class: Seq<char>, args: Seq<Tree>, range: Span) -> MessageV {
        MessageV::error(
            ErrorCode::GenericTypeError,
            "Orphan instance `"@ + instances::signature(class, args)
                + "` is not allowed in module `"@ + self.scope.module + "`"@,
            range,
        ).helped(
            "define the trait in this module, or define the nominal head of every non-variable instance argument here"@,
        )
    }

    /// The complaint about an instance that is already there, at place `i`.
    pub open spec fn overlap(self, class: Seq<char>, args: Seq<Tree>, i: nat, range: Span) -> MessageV {
        let there = self.reg.generics.instances[i as int];
        self.pointing_at(
            MessageV::error(
                ErrorCode::GenericTypeError,
                "Overlapping instance `"@ + instances::signature(class, args)
                    + "` conflicts with existing `"@ + instances::signature(there.class, there.args)
                    + "`"@,
                range,
            ).helped(
                "existing instance was declared in module `"@ + self.origin_module(i) + "`"@,
            ).labelled("new instance declared here"@, range),
            i,
            "existing overlapping instance declared here"@,
        )
    }

    /// An instance is entered, declared here.
    pub open spec fn add_stub(self, inst: InstV, range: Span) -> CheckerV {
        let g = self.reg.generics;
        CheckerV {
            reg: RegistryV {
                generics: GenericsV {
                    instances: g.instances.push(inst),
                    instance_origins: g.instance_origins.insert(
                        InstanceId(g.instances.len() as usize),
                        OriginV { module: self.scope.module, range },
                    ),
                    ..g
                },
                ..self.reg
            },
            ..self
        }
    }

    /// Everything of an instance before its members are typed.
    pub open spec fn open_instance(
        self,
        class: Seq<char>,
        exprs: Seq<Output>,
        args: Seq<Tree>,
        methods: Seq<Output>,
        range: Span,
    ) -> (CheckerV, InstFrameV) {
        let classes = self.reg.generics.typeclasses;
        let def = if classes.contains_key(class) {
            Some(classes[class])
        } else {
            None
        };
        let c = match def {
            Some(d) => self.validate_instance_head_kinds(d, args, range, 0),
            None => self.say(
                ErrorCode::GenericTypeError,
                "Unknown trait `"@ + class + "`"@,
                range,
            ),
        };
        let orphaned = def is Some && !c.instance_satisfies_orphan_rule(class, exprs, args);
        let c = if orphaned {
            c.report(c.orphan(class, args, range))
        } else {
            c
        };
        let there = c.overlapping(class, args, 0);
        let c = match there {
            Some(i) => c.report(c.overlap(class, args, i, range)),
            None => c,
        };
        let accepted = def is Some && !orphaned && there is None;
        let stub = c.reg.generics.instances.len() as usize;
        (
            if accepted {
                c.add_stub(
                    InstV {
                        class,
                        args,
                        method_fqns: stub_fqns(class, args, methods, methods.len()),
                        assoc_tys: Map::empty(),
                    },
                    range,
                )
            } else {
                c
            },
            InstFrameV {
                def,
                args,
                stub: if accepted {
                    Some(stub)
                } else {
                    None
                },
                names: Seq::empty(),
                fqns: Map::empty(),
                assoc_names: Seq::empty(),
                assocs: Map::empty(),
                faulty: false,
            },
        )
    }

    /// An associated type of an instance is read; its node has an id.
    pub open spec fn open_assoc(self, params: Seq<TypeParam>, ty: Output) -> (CheckerV, AssocFrameV) {
        let (c, id) = self.next_id();
        let c = c.cache_at(id, Tree::con("unit"@));
        let kinds = Seq::new(params.len(), |i: int| c.resolve_type_param_kind(params[i]));
        let (c, frame, vars) = c.fresh_params(params, 0, Map::empty(), Seq::empty());
        let order = annotations::frame_order(params, params.len());
        let (c, t) = c.push_some_params(frame, order).parse_type_name(ty);
        (
            if order.len() > 0 {
                c.pop_params()
            } else {
                c
            },
            AssocFrameV { vars, kinds, ty: t },
        )
    }

    /// The kinds of the parameters of an associated type are held against its
    /// declaration, from place `at` on; whether one differs.
    pub open spec fn compare_kinds(
        self,
        name: Seq<char>,
        want: Seq<Kind>,
        have: Seq<Kind>,
        range: Span,
        at: nat,
        faulty: bool,
    ) -> (CheckerV, bool)
        decreases want.len() - at,
    {
        if at >= want.len() || at >= have.len() {
            (self, faulty)
        } else if want[at as int] != have[at as int] {
            self.say(
                ErrorCode::GenericTypeError,
                "Type parameter "@ + text::decimal(at + 1) + " of associated type `"@ + name
                    + "` has kind `"@ + have[at as int].text_spec() + "`, expected `"@
                    + want[at as int].text_spec() + "`"@,
                range,
            ).compare_kinds(name, want, have, range, at + 1, true)
        } else {
            self.compare_kinds(name, want, have, range, at + 1, faulty)
        }
    }

    /// An associated type of an instance is held against its declaration;
    /// whether it differs.
    pub open spec fn compare_assoc(
        self,
        class: Seq<char>,
        decl: AssocDeclV,
        name: Seq<char>,
        a: AssocFrameV,
        params: nat,
        range: Span,
        ty_range: Span,
    ) -> (CheckerV, bool) {
        let wrong_count = decl.params.len() != params;
        let c = if wrong_count {
            self.say(
                ErrorCode::GenericTypeError,
                "Associated type `"@ + name + "` in instance of `"@ + class + "` expects "@
                    + text::decimal(decl.params.len()) + " type parameter"@ + annotations::plural(
                    decl.params.len(),
                ) + ", got "@ + text::decimal(params),
                range,
            )
        } else {
            self
        };
        let (c, faulty) = c.compare_kinds(name, decl.param_kinds, a.kinds, range, 0, wrong_count);
        let kind = c.kind_of_type_argument(a.ty);
        if kind is Type {
            (c, faulty)
        } else {
            (
                c.say(
                    ErrorCode::GenericTypeError,
                    "Associated type `"@ + name + "` in instance of `"@ + class
                        + "` must resolve to kind `*`, found `"@ + kind.text_spec() + "`"@,
                    ty_range,
                ),
                true,
            )
        }
    }

    /// Another associated type of the instance that is being declared.
    pub open spec fn patch_stub(self, stub: Option<usize>, name: Seq<char>, value: AssocValueV) -> CheckerV {
        let g = self.reg.generics;
        match stub {
            Some(i) => if i < g.instances.len() {
                let inst = g.instances[i as int];
                self.with_instance(
                    i,
                    InstV { assoc_tys: inst.assoc_tys.insert(name, value), ..inst },
                )
            } else {
                self
            },
            None => self,
        }
    }

    /// Another instance at a place.
    pub open spec fn with_instance(self, i: usize, inst: InstV) -> CheckerV {
        CheckerV {
            reg: RegistryV {
                generics: GenericsV {
                    instances: self.reg.generics.instances.update(i as int, inst),
                    ..self.reg.generics
                },
                ..self.reg
            },
            ..self
        }
    }

    /// An associated type of an instance is entered.
    pub open spec fn close_assoc(
        self,
        f: InstFrameV,
        class: Seq<char>,
        name: Seq<char>,
        params: Seq<TypeParam>,
        a: AssocFrameV,
        range: Span,
        ty_range: Span,
    ) -> (CheckerV, InstFrameV) {
        let decl = match f.def {
            Some(d) => annotations::decl_from(d.assoc_types, name, 0),
            None => None,
        };
        let (c, differs) = match decl {
            Some(d) => self.compare_assoc(class, d, name, a, params.len(), range, ty_range),
            None => (self, false),
        };
        let f = InstFrameV { faulty: f.faulty || differs, ..f };
        if f.assocs.contains_key(name) {
            (
                c.say(
                    ErrorCode::GenericTypeError,
                    "Duplicate associated type `"@ + name + "` in instance of `"@ + class + "`"@,
                    range,
                ),
                f,
            )
        } else {
            let value = AssocValueV {
                params: decls::param_names(params),
                param_vars: a.vars,
                param_kinds: a.kinds,
                ty: a.ty,
            };
            (
                c.patch_stub(f.stub, name, value),
                InstFrameV {
                    assoc_names: f.assoc_names.push(name),
                    assocs: f.assocs.insert(name, value),
                    ..f
                },
            )
        }
    }

    /// A complaint for each name of a list, from place `at` on.
    pub open spec fn say_each(
        self,
        names: Seq<Seq<char>>,
        before: Seq<char>,
        after: Seq<char>,
        range: Span,
        at: nat,
    ) -> CheckerV
        decreases names.len() - at,
    {
        if at >= names.len() {
            self
        } else {
            self.say(
                ErrorCode::GenericTypeError,
                before + names[at as int] + after,
                range,
            ).say_each(names, before, after, range, at + 1)
        }
    }

    /// The complaint about missing members, if any are.
    pub open spec fn say_missing(
        self,
        names: Seq<Seq<char>>,
        class: Seq<char>,
        args: Seq<Tree>,
        noun: Seq<char>,
        range: Span,
    ) -> CheckerV {
        if names.len() == 0 {
            self
        } else {
            self.say(
                ErrorCode::GenericTypeError,
                "Instance of `"@ + class + "` for `"@ + Tree::join_text(args) + "` is missing "@
                    + noun + annotations::plural(names.len()) + " "@ + text::ticked(names),
                range,
            )
        }
    }

    /// An instance is held against its trait: the code-generation names of all
    /// its methods, and whether it is complete.
    pub open spec fn check_instance(self, f: InstFrameV, class: Seq<char>, def: ClassV, range: Span) -> (
        CheckerV,
        Map<Seq<char>, Seq<char>>,
        bool,
    ) {
        let pretty = Tree::join_text(f.args);
        let supers = missing_supers(
            self.reg.generics,
            f.args,
            def.superclasses,
            Set::empty(),
            Seq::empty(),
        );
        let unknown = generics::unknown_names(f.names, generics::method_names(def.methods));
        let unknown_assocs = generics::unknown_names(
            f.assoc_names,
            generics::assoc_names(def.assoc_types),
        );
        let missing_assocs = generics::unmapped(
            generics::assoc_names(def.assoc_types),
            f.assocs,
        );
        let fqns = generics::with_defaults(def.name, def.methods, f.fqns);
        let missing = generics::missing_methods(def.methods, fqns);
        let c = self.say_each(
            supers,
            "Instance of `"@ + class + "` for `"@ + pretty + "` requires superclass instance `"@,
            "<"@ + pretty + ">`"@,
            range,
            0,
        ).say_each(
            unknown,
            "Unknown method `"@,
            "` in instance of `"@ + class + "`"@,
            range,
            0,
        ).say_each(
            unknown_assocs,
            "Unknown associated type `"@,
            "` in instance of `"@ + class + "`"@,
            range,
            0,
        ).say_missing(missing_assocs, class, f.args, "associated type"@, range).say_missing(
            missing,
            class,
            f.args,
            "method"@,
            range,
        );
        (
            c,
            fqns,
            unknown.len() == 0 && missing.len() == 0 && supers.len() == 0 && unknown_assocs.len()
                == 0 && missing_assocs.len() == 0 && !f.faulty,
        )
    }

    /// Everything of an instance after its members: one that is not complete is
    /// emptied in its place, so that the places of others stay.
    pub open spec fn close_instance(self, f: InstFrameV, class: Seq<char>, range: Span) -> CheckerV {
        let (c, fqns, complete) = match f.def {
            Some(def) => self.check_instance(f, class, def, range),
            None => (self, f.fqns, false),
        };
        match f.stub {
            Some(i) => if i < c.reg.generics.instances.len() {
                c.with_instance(
                    i,
                    if complete {
                        InstV {
                            method_fqns: fqns,
                            assoc_tys: f.assocs,
                            ..c.reg.generics.instances[i as int]
                        }
                    } else {
                        InstV {
                            class: Seq::empty(),
                            args: Seq::empty(),
                            method_fqns: Map::empty(),
                            assoc_tys: Map::empty(),
                        }
                    },
                )
            } else {
                c
            },
            None => c,
        }
    }
}

impl Checker {
    /// True for the classes that the compiler declares.
    pub fn is_builtin_class(class: &str) -> (r: bool)
        ensures
            r == builtin_class(class@),
    {
        same_text(class, "Add") || same_text(class, "Sub") || same_text(class, "Mul") || same_text(
            class,
            "Div",
        ) || same_text(class, "Num") || same_text(class, "Lt") || same_text(class, "Le")
            || same_text(class, "Gt") || same_text(class, "Ge") || same_text(class, "Ord")
            || same_text(class, "Eq") || same_text(class, "Show")
    }

    fn class_members(&mut self, class: &str, methods: &Vec<Output>) -> (r: (
        Vec<AssocTypeDecl>,
        Vec<TypeClassMethodDef>,
    ))
        ensures
            (final(self)@, r.0.deep_view(), r.1.deep_view()) == old(self)@.class_members(
                class@,
                methods@,
                0,
                Seq::empty(),
                Seq::empty(),
            ),
    {
        let mut assocs: Vec<AssocTypeDecl> = Vec::new();
        let mut defs: Vec<TypeClassMethodDef> = Vec::new();
        assert(assocs.deep_view() =~= Seq::<AssocDeclV>::empty());
        assert(defs.deep_view() =~= Seq::<MethodV>::empty());
        let ghost whole = self@.class_members(class@, methods@, 0, Seq::empty(), Seq::empty());
        let mut i: usize = 0;
        while i < methods.len()
            invariant
                i <= methods.len(),
                whole == self@.class_members(
                    class@,
                    methods@,
                    i as nat,
                    assocs.deep_view(),
                    defs.deep_view(),
                ),
            decreases methods.len() - i,
        {
            let m = &methods[i];
            let ghost old_assocs = assocs.deep_view();
            let ghost old_defs = defs.deep_view();
            match &*m.expr {
                Expression::AssocTypeDecl { name, type_params } => {
                    if lists_assoc_type(&assocs, name.as_str()) {
                        self.say(
                            ErrorCode::GenericTypeError,
                            cat5(
                                "Duplicate associated type `",
                                name.as_str(),
                                "` in trait `",
                                class,
                                "`",
                            ),
                            m.span,
                        );
                    } else {
                        let d = AssocTypeDecl {
                            name: name.clone(),
                            params: names_of_params(type_params),
                            param_kinds: self.param_kinds(type_params),
                        };
                        assocs.push(d);
                        assert(assocs.deep_view() =~= old_assocs.push(d@));
                    }
                },
                Expression::Function { name, body, .. } => {
                    let has_default = match &*body.expr {
                        Expression::Block(v) => v.len() > 0,
                        _ => true,
                    };
                    let d = TypeClassMethodDef { name: name.clone(), has_default };
                    defs.push(d);
                    assert(defs.deep_view() =~= old_defs.push(d@));
                },
                _ => {},
            }
            i += 1;
        }
        (assocs, defs)
    }

    fn class_module(&self, name: &str) -> (r: String)
        ensures
            r@ == self@.class_module(name@),
    {
        match self.reg.generics.class_modules.get(name) {
            Some(m) => m.clone(),
            None => "prelude::ops".to_owned(),
        }
    }

    fn class_taken(&self, name: &str) -> (r: bool)
        ensures
            r == self@.class_taken(name@),
    {
        self.reg.generics.typeclasses.contains_key(name) && !(Self::is_builtin_class(name)
            && !self.builtin_name_in_scope(name))
    }

    fn second_class(&self, name: &str, range: Span) -> (r: Message)
        ensures
            r@ == self@.second_class(name@, range),
    {
        let mut m = Message::error(
            ErrorCode::GenericTypeError,
            cat3("Duplicate trait `", name, "`"),
            range,
        );
        let module = self.class_module(name);
        if Self::is_builtin_class(name) && self.builtin_name_in_scope(name) {
            m.with_help(
                cat7(
                    "`",
                    name,
                    "` is in the prelude; free the short name with `use ",
                    module.as_str(),
                    "::",
                    name,
                    " as OtherName;` before redefining, or pick a different name",
                ),
            );
        } else {
            m.with_help(
                cat5(
                    "trait `",
                    name,
                    "` was already declared in module `",
                    module.as_str(),
                    "`",
                ),
            );
        }
        m
    }

    fn add_class(&mut self, name: &str, def: TypeClassDef)
        ensures
            final(self)@ == old(self)@.add_class(name@, def@),
    {
        self.reg.generics.typeclasses.insert(name.to_owned(), def);
        self.reg.generics.class_modules.insert(name.to_owned(), self.scope.module.clone());
    }

    fn class_params(&mut self, params: &Vec<TypeParam>) -> (r: (NameMap<TyVarId>, Vec<TyVarId>))
        ensures
            (final(self)@, r.0@, r.1@) == old(self)@.class_params(
                params@,
                0,
                Map::empty(),
                Seq::empty(),
            ),
            r.0.order() == annotations::frame_order(params@, params@.len()),
    {
        let mut frame: NameMap<TyVarId> = NameMap::new();
        let mut vars: Vec<TyVarId> = Vec::new();
        let ghost whole = self@.class_params(params@, 0, frame@, vars@);
        let mut i: usize = 0;
        while i < params.len()
            invariant
                i <= params.len(),
                whole == self@.class_params(params@, i as nat, frame@, vars@),
                frame.order() == annotations::frame_order(params@, i as nat),
            decreases params.len() - i,
        {
            proof {
                frame.order_holds_keys();
            }
            let v = self.fresh_var();
            self.set_var_kind(v, params[i].kind.clone());
            frame.insert(params[i].name.clone(), v);
            vars.push(v);
            i += 1;
        }
        (frame, vars)
    }

    fn push_some_params(&mut self, frame: NameMap<TyVarId>) -> (r: bool)
        ensures
            final(self)@ == old(self)@.push_some_params(frame@, frame.order()),
            r == (frame.order().len() > 0),
    {
        if frame.len() > 0 {
            self.push_params(frame);
            true
        } else {
            false
        }
    }

    fn method_signature(
        &mut self,
        class: &str,
        vars: &Vec<TyVarId>,
        kinds: &Vec<Kind>,
        params: &Vec<TypeParam>,
        args: &Output,
        declared_ret: Option<&Output>,
    ) -> (r: Scheme)
        ensures
            (final(self)@, r@) == old(self)@.method_signature(
                class@,
                vars@,
                kinds@,
                params@,
                *args,
                decls::opt_output(declared_ret),
            ),
    {
        let mut method_kinds = self.param_kinds(params);
        let (frame, mut method_vars) = self.fresh_params(params);
        let pushed = self.push_some_params(frame);
        let outer = self.ctx.projections.take();
        let none: Vec<AssocProjection> = Vec::new();
        assert(none.deep_view() =~= Seq::<ProjectionV>::empty());
        self.ctx.projections = Some(none);
        let arg_tys = self.parse_arg_list(args);
        let ret = match declared_ret {
            Some(r) => self.parse_type_name(r),
            None => unit(),
        };
        let empty: Vec<AssocProjection> = Vec::new();
        assert(empty.deep_view() =~= Seq::<ProjectionV>::empty());
        let projections = match self.ctx.projections.take() {
            Some(ps) => ps,
            None => empty,
        };
        self.ctx.projections = outer;
        if pushed {
            self.pop_params();
        }
        let mut all_vars = crate::ty::copy_vars(vars);
        let mut all_kinds = env::copy_kinds(kinds);
        all_vars.append(&mut method_vars);
        all_kinds.append(&mut method_kinds);
        let k = Constraint { class: class.to_owned(), args: vars_as_tys(vars) };
        let mut constraints: Vec<Constraint> = Vec::new();
        constraints.push(k);
        assert(constraints.deep_view() =~= seq![k@]);
        scheme_with_projections(
            &all_vars,
            &all_kinds,
            constraints,
            &projections,
            function_type(&arg_tys, None, ret),
        )
    }

    /// Enter the signature of a trait method.
    pub fn add_method_scheme(&mut self, class: &str, method: &str, scheme: Scheme)
        ensures
            final(self)@ == old(self)@.add_method_scheme(class@, method@, scheme@),
    {
        let key = MethodKey { class: class.to_owned(), method: method.to_owned() };
        self.reg.method_schemes.insert(key, scheme);
    }

    fn method_signatures(
        &mut self,
        class: &str,
        vars: &Vec<TyVarId>,
        kinds: &Vec<Kind>,
        methods: &Vec<Output>,
    )
        ensures
            final(self)@ == old(self)@.method_signatures(class@, vars@, kinds@, methods@, 0),
    {
        let ghost whole = self@.method_signatures(class@, vars@, kinds@, methods@, 0);
        let mut i: usize = 0;
        while i < methods.len()
            invariant
                i <= methods.len(),
                whole == self@.method_signatures(class@, vars@, kinds@, methods@, i as nat),
            decreases methods.len() - i,
        {
            if let Expression::Function { name, type_params, args, returns: declared_ret, .. } =
                &*methods[i].expr {
                let scheme = self.method_signature(
                    class,
                    vars,
                    kinds,
                    type_params,
                    args,
                    declared_ret.as_ref(),
                );
                self.add_method_scheme(class, name.as_str(), scheme);
            }
            i += 1;
        }
    }

    /// Do everything of a trait before its members are typed; `None` when its
    /// name is taken, which is reported.
    pub fn open_class(
        &mut self,
        name: &str,
        params: &Vec<TypeParam>,
        methods: &Vec<Output>,
        range: Span,
    ) -> (r: Option<ClassFrame>)
        ensures
            final(self)@ == old(self)@.open_class(name@, params@, methods@, range).0,
            match r {
                Some(f) => old(self)@.open_class(name@, params@, methods@, range).1 == Some(f@),
                None => old(self)@.open_class(name@, params@, methods@, range).1 is None,
            },
    {
        let (assocs, defs) = self.class_members(name, methods);
        if self.class_taken(name) {
            let m = self.second_class(name, range);
            self.report(m);
            return None;
        }
        let kinds = kinds_of_params(params);
        let empty: Vec<String> = Vec::new();
        assert(empty.deep_view() =~= Seq::<Seq<char>>::empty());
        let superclasses = if params.len() == 1 {
            params[0].bounds.dup()
        } else {
            empty
        };
        let def = TypeClassDef {
            name: name.to_owned(),
            type_params: names_of_params(params),
            param_kinds: env::copy_kinds(&kinds),
            superclasses,
            assoc_types: assocs,
            methods: defs,
        };
        self.add_class(name, def);
        let (frame, vars) = self.class_params(params);
        self.push_params(frame);
        self.ctx.typeclass = Some(name.to_owned());
        self.method_signatures(name, &vars, &kinds, methods);
        let active_len = self.scope.active.len();
        let ghost before = self@.scope.active;
        let k = Constraint { class: name.to_owned(), args: vars_as_tys(&vars) };
        self.scope.active.push(k);
        assert(self@.scope.active =~= before.push(k@));
        Some(ClassFrame { vars, kinds, active_len })
    }

    /// Do everything of a trait after its members.
    pub fn close_class(&mut self, f: &ClassFrame)
        ensures
            final(self)@ == old(self)@.close_class(f@),
    {
        self.deactivate(f.active_len);
        self.ctx.typeclass = None;
    }

    /// Instance heads.
    pub fn parse_heads(&mut self, items: &Vec<Output>) -> (r: Vec<Ty>)
        ensures
            (final(self)@, r.deep_view()) == old(self)@.parse_heads(items@, 0, Seq::empty()),
    {
        let mut acc: Vec<Ty> = Vec::new();
        assert(acc.deep_view() =~= Seq::<Tree>::empty());
        let ghost whole = self@.parse_heads(items@, 0, Seq::empty());
        let mut i: usize = 0;
        while i < items.len()
            invariant
                i <= items.len(),
                whole == self@.parse_heads(items@, i as nat, acc.deep_view()),
            decreases items.len() - i,
        {
            let ghost before = acc.deep_view();
            let t = self.parse_instance_head(&items[i]);
            acc.push(t);
            assert(acc.deep_view() =~= before.push(t@));
            i += 1;
        }
        acc
    }

    fn overlapping(&self, class: &str, args: &Vec<Ty>) -> (r: Option<usize>)
        ensures
            match r {
                Some(i) => self@.overlapping(class@, args.deep_view(), 0) == Some(i as nat) && i
                    < self@.reg.generics.instances.len(),
                None => self@.overlapping(class@, args.deep_view(), 0) is None,
            },
    {
        let ghost trees = args.deep_view();
        let mut i: usize = 0;
        while i < self.reg.generics.instances.len()
            invariant
                i <= self.reg.generics.instances.len(),
                trees == args.deep_view(),
                self@.overlapping(class@, trees, 0) == self@.overlapping(class@, trees, i as nat),
            decreases self.reg.generics.instances.len() - i,
        {
            let inst = &self.reg.generics.instances[i];
            assert(self@.reg.generics.instances[i as int] == inst@);
            if same_text(inst.class.as_str(), class) && crate::ty::same_tys(&inst.args, args) {
                return Some(i);
            }
            i += 1;
        }
        None
    }

    fn orphan(&self, class: &str, args: &Vec<Ty>, range: Span) -> (r: Message)
        ensures
            r@ == self@.orphan(class@, args.deep_view(), range),
    {
        let s = instance_signature(class, args);
        let mut m = Message::error(
            ErrorCode::GenericTypeError,
            cat5(
                "Orphan instance `",
                s.as_str(),
                "` is not allowed in module `",
                self.scope.module.as_str(),
                "`",
            ),
            range,
        );
        m.with_help(
            "define the trait in this module, or define the nominal head of every non-variable instance argument here".to_owned(),
        );
        m
    }

    fn overlap(&self, class: &str, args: &Vec<Ty>, i: usize, range: Span) -> (r: Message)
        requires
            i < self@.reg.generics.instances.len(),
        ensures
            r@ == self@.overlap(class@, args.deep_view(), i as nat, range),
    {
        let s = instance_signature(class, args);
        let there = &self.reg.generics.instances[i];
        assert(self@.reg.generics.instances[i as int] == there@);
        let t = instance_signature(there.class.as_str(), &there.args);
        let mut m = Message::error(
            ErrorCode::GenericTypeError,
            cat5(
                "Overlapping instance `",
                s.as_str(),
                "` conflicts with existing `",
                t.as_str(),
                "`",
            ),
            range,
        );
        let module = self.origin_module(i);
        m.with_help(cat3("existing instance was declared in module `", module.as_str(), "`"));
        m.push(Label::new("new instance declared here".to_owned(), range));
        self.point_at(&mut m, i, "existing overlapping instance declared here");
        m
    }

    fn add_stub(&mut self, inst: InstanceDef, range: Span)
        ensures
            final(self)@ == old(self)@.add_stub(inst@, range),
    {
        let ghost before = self@.reg.generics.instances;
        let id = InstanceId(self.reg.generics.instances.len());
        let origin = InstanceOrigin { module: self.scope.module.clone(), range };
        self.reg.generics.instance_origins.insert(id, origin);
        self.reg.generics.instances.push(inst);
        assert(self@.reg.generics.instances =~= before.push(inst@));
    }

    /// Do everything of an instance before its members are typed. An accepted
    /// instance is entered at once, so that its own methods can use it.
    pub fn open_instance(
        &mut self,
        class: &str,
        exprs: &Vec<Output>,
        args: Vec<Ty>,
        methods: &Vec<Output>,
        range: Span,
    ) -> (r: InstFrame)
        ensures
            (final(self)@, r@) == old(self)@.open_instance(
                class@,
                exprs@,
                args.deep_view(),
                methods@,
                range,
            ),
    {
        let def = match self.reg.generics.typeclass(class) {
            Some(d) => Some(d.clone()),
            None => None,
        };
        match &def {
            Some(d) => self.validate_instance_head_kinds(d, &args, range),
            None => self.say(
                ErrorCode::GenericTypeError,
                cat3("Unknown trait `", class, "`"),
                range,
            ),
        }
        let orphaned = def.is_some() && !self.instance_satisfies_orphan_rule(class, exprs, &args);
        if orphaned {
            let m = self.orphan(class, &args, range);
            self.report(m);
        }
        let there = self.overlapping(class, &args);
        if let Some(i) = there {
            let m = self.overlap(class, &args, i, range);
            self.report(m);
        }
        let accepted = def.is_some() && !orphaned && there.is_none();
        let stub = self.reg.generics.instances.len();
        if accepted {
            let inst = InstanceDef {
                class: class.to_owned(),
                args: args.dup(),
                method_fqns: stub_names(class, &args, methods),
                assoc_tys: NameMap::new(),
            };
            self.add_stub(inst, range);
        }
        let f = InstFrame {
            def,
            args,
            stub: if accepted {
                Some(stub)
            } else {
                None
            },
            names: Vec::new(),
            fqns: NameMap::new(),
            assoc_names: Vec::new(),
            assocs: NameMap::new(),
            faulty: false,
        };
        assert(f@.names =~= Seq::<Seq<char>>::empty());
        assert(f@.assoc_names =~= Seq::<Seq<char>>::empty());
        f
    }

    /// Read an associated type of an instance.
    pub fn open_assoc(&mut self, params: &Vec<TypeParam>, ty: &Output) -> (r: AssocFrame)
        ensures
            (final(self)@, r@) == old(self)@.open_assoc(params@, *ty),
    {
        let id = self.next_id();
        self.cache_at(id, &unit());
        let kinds = self.param_kinds(params);
        let (frame, vars) = self.fresh_params(params);
        let pushed = self.push_some_params(frame);
        let t = self.parse_type_name(ty);
        if pushed {
            self.pop_params();
        }
        AssocFrame { vars, kinds, ty: t }
    }

    fn compare_kinds(
        &mut self,
        name: &str,
        want: &Vec<Kind>,
        have: &Vec<Kind>,
        range: Span,
        faulty: bool,
    ) -> (r: bool)
        ensures
            (final(self)@, r) == old(self)@.compare_kinds(name@, want@, have@, range, 0, faulty),
    {
        let ghost whole = self@.compare_kinds(name@, want@, have@, range, 0, faulty);
        let mut differs = faulty;
        let mut i: usize = 0;
        while i < want.len() && i < have.len()
            invariant
                i <= want.len(),
                i <= have.len(),
                whole == self@.compare_kinds(name@, want@, have@, range, i as nat, differs),
            decreases want.len() - i,
        {
            if want[i] != have[i] {
                let n = number(i + 1);
                let h = have[i].to_string();
                let w = want[i].to_string();
                self.say(
                    ErrorCode::GenericTypeError,
                    cat9(
                        "Type parameter ",
                        n.as_str(),
                        " of associated type `",
                        name,
                        "` has kind `",
                        h.as_str(),
                        "`, expected `",
                        w.as_str(),
                        "`",
                    ),
                    range,
                );
                differs = true;
            }
            i += 1;
        }
        differs
    }

    fn compare_assoc(
        &mut self,
        class: &str,
        decl: &AssocTypeDecl,
        name: &str,
        a: &AssocFrame,
        params: usize,
        range: Span,
        ty_range: Span,
    ) -> (r: bool)
        ensures
            (final(self)@, r) == old(self)@.compare_assoc(
                class@,
                decl@,
                name@,
                a@,
                params as nat,
                range,
                ty_range,
            ),
    {
        let wrong_count = decl.params.len() != params;
        if wrong_count {
            let want = number(decl.params.len());
            let got = number(params);
            let head = cat7(
                "Associated type `",
                name,
                "` in instance of `",
                class,
                "` expects ",
                want.as_str(),
                " type parameter",
            );
            self.say(
                ErrorCode::GenericTypeError,
                cat4(head.as_str(), plural_end(decl.params.len()), ", got ", got.as_str()),
                range,
            );
        }
        let faulty = self.compare_kinds(name, &decl.param_kinds, &a.kinds, range, wrong_count);
        let kind = self.kind_of_type_argument(&a.ty);
        if kind.is_type() {
            return faulty;
        }
        let k = kind.to_string();
        self.say(
            ErrorCode::GenericTypeError,
            cat7(
                "Associated type `",
                name,
                "` in instance of `",
                class,
                "` must resolve to kind `*`, found `",
                k.as_str(),
                "`",
            ),
            ty_range,
        );
        true
    }

    fn with_instance(&mut self, i: usize, inst: InstanceDef)
        requires
            i < old(self)@.reg.generics.instances.len(),
        ensures
            final(self)@ == old(self)@.with_instance(i, inst@),
    {
        let ghost before = self@.reg.generics.instances;
        self.reg.generics.instances.set(i, inst);
        assert(self@.reg.generics.instances =~= before.update(i as int, inst@));
    }

    fn patch_stub(&mut self, stub: Option<usize>, name: &str, value: AssocTypeValue)
        ensures
            final(self)@ == old(self)@.patch_stub(stub, name@, value@),
    {
        if let Some(i) = stub {
            if i < self.reg.generics.instances.len() {
                assert(self@.reg.generics.instances[i as int]
                    == self.reg.generics.instances@[i as int]@);
                let mut inst = self.reg.generics.instances[i].clone();
                inst.assoc_tys.insert(name.to_owned(), value);
                self.with_instance(i, inst);
            }
        }
    }

    /// Enter an associated type of an instance.
    pub fn close_assoc(
        &mut self,
        f: &mut InstFrame,
        class: &str,
        name: &str,
        params: &Vec<TypeParam>,
        a: AssocFrame,
        range: Span,
        ty_range: Span,
    )
        ensures
            (final(self)@, final(f)@) == old(self)@.close_assoc(
                old(f)@,
                class@,
                name@,
                params@,
                a@,
                range,
                ty_range,
            ),
    {
        let decl = match &f.def {
            Some(d) => match d.assoc_type(name) {
                Some(x) => Some(x.dup()),
                None => None,
            },
            None => None,
        };
        let differs = match &decl {
            Some(d) => self.compare_assoc(class, d, name, &a, params.len(), range, ty_range),
            None => false,
        };
        if differs {
            f.faulty = true;
        }
        if f.assocs.contains_key(name) {
            self.say(
                ErrorCode::GenericTypeError,
                cat5(
                    "Duplicate associated type `",
                    name,
                    "` in instance of `",
                    class,
                    "`",
                ),
                range,
            );
            return;
        }
        let value = AssocTypeValue {
            params: names_of_params(params),
            param_vars: a.vars,
            param_kinds: a.kinds,
            ty: a.ty,
        };
        let ghost before = f@.assoc_names;
        self.patch_stub(f.stub, name, value.dup());
        f.assoc_names.push(name.to_owned());
        f.assocs.insert(name.to_owned(), value);
        assert(f@.assoc_names =~= before.push(name@));
    }

    fn say_each(&mut self, names: &Vec<String>, before: &str, after: &str, range: Span)
        ensures
            final(self)@ == old(self)@.say_each(names.deep_view(), before@, after@, range, 0),
    {
        let ghost all = names.deep_view();
        let ghost whole = self@.say_each(all, before@, after@, range, 0);
        let mut i: usize = 0;
        while i < names.len()
            invariant
                i <= names.len(),
                all == names.deep_view(),
                whole == self@.say_each(all, before@, after@, range, i as nat),
            decreases names.len() - i,
        {
            assert(all[i as int] == names@[i as int]@);
            self.say(
                ErrorCode::GenericTypeError,
                cat3(before, names[i].as_str(), after),
                range,
            );
            i += 1;
        }
    }

    fn say_missing(
        &mut self,
        names: &Vec<String>,
        class: &str,
        args: &Vec<Ty>,
        noun: &str,
        range: Span,
    )
        ensures
            final(self)@ == old(self)@.say_missing(
                names.deep_view(),
                class@,
                args.deep_view(),
                noun@,
                range,
            ),
    {
        if names.len() > 0 {
            let pretty = join_text(args);
            let list = join_ticked(names);
            self.say(
                ErrorCode::GenericTypeError,
                cat9(
                    "Instance of `",
                    class,
                    "` for `",
                    pretty.as_str(),
                    "` is missing ",
                    noun,
                    plural_end(names.len()),
                    " ",
                    list.as_str(),
                ),
                range,
            );
        }
    }

    fn check_instance(&mut self, f: &InstFrame, class: &str, def: &TypeClassDef, range: Span) -> (r: (
        NameMap<String>,
        bool,
    ))
        ensures
            (final(self)@, r.0@, r.1) == old(self)@.check_instance(f@, class@, def@, range),
    {
        let pretty = join_text(&f.args);
        let supers = find_missing_supers(&self.reg.generics, &f.args, &def.superclasses);
        let names = borrow_names(&f.names);
        let unknown = Generics::unknown_instance_methods(def, names.as_slice());
        let assoc_names = borrow_names(&f.assoc_names);
        let unknown_assocs = Generics::unknown_assoc_types(def, assoc_names.as_slice());
        let missing_assocs = Generics::missing_assoc_types(def, &f.assocs);
        let mut fqns = f.fqns.dup();
        Generics::fill_default_method_fqns(def, &mut fqns);
        let missing = Generics::missing_required_methods(def, &fqns);
        let before = cat5(
            "Instance of `",
            class,
            "` for `",
            pretty.as_str(),
            "` requires superclass instance `",
        );
        let after = cat3("<", pretty.as_str(), ">`");
        self.say_each(&supers, before.as_str(), after.as_str(), range);
        let of_class = cat3("` in instance of `", class, "`");
        self.say_each(&unknown, "Unknown method `", of_class.as_str(), range);
        self.say_each(&unknown_assocs, "Unknown associated type `", of_class.as_str(), range);
        self.say_missing(&missing_assocs, class, &f.args, "associated type", range);
        self.say_missing(&missing, class, &f.args, "method", range);
        let complete = unknown.len() == 0 && missing.len() == 0 && supers.len() == 0
            && unknown_assocs.len() == 0 && missing_assocs.len() == 0 && !f.faulty;
        (fqns, complete)
    }

    /// Do everything of an instance after its members. An instance that is not
    /// complete is emptied in its place, so that the places of others stay.
    pub fn close_instance(&mut self, f: &InstFrame, class: &str, range: Span)
        ensures
            final(self)@ == old(self)@.close_instance(f@, class@, range),
    {
        let (fqns, complete) = match &f.def {
            Some(def) => self.check_instance(f, class, def, range),
            None => (f.fqns.dup(), false),
        };
        if let Some(i) = f.stub {
            if i < self.reg.generics.instances.len() {
                assert(self@.reg.generics.instances[i as int]
                    == self.reg.generics.instances@[i as int]@);
                let inst = if complete {
                    InstanceDef {
                        class: self.reg.generics.instances[i].class.clone(),
                        args: self.reg.generics.instances[i].args.dup(),
                        method_fqns: fqns,
                        assoc_tys: f.assocs.dup(),
                    }
                } else {
                    let gone = InstanceDef {
                        class: String::new(),
                        args: Vec::new(),
                        method_fqns: NameMap::new(),
                        assoc_tys: NameMap::new(),
                    };
                    assert(gone@.class =~= Seq::<char>::empty());
                    assert(gone@.args =~= Seq::<Tree>::empty());
                    gone
                };
                self.with_instance(i, inst);
            }
        }
    }
}

} // verus!
