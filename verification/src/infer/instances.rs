//! Choosing trait instances and dictionaries.
use crate::ast::{Expression, Output};
use crate::env::{self, ProjectionV, Scheme, SchemeV, instantiate_with_kinds};
use crate::generics::{self, ClassV, GenericsV, InstV, InstanceDef, InstanceId, MethodV, TypeClassDef, TypeClassMethodDef, unify_from};
use crate::id::NodeId;
use crate::infer::annotations;
use crate::infer::kinds::{self, canonical_ctor_name, find_innermost};
use crate::infer::{BoundDisplayCall, BoundOperatorCall, Checker, CheckerV, MethodKey, ScopesV, TablesV};
use crate::kind::Kind;
use crate::maps::{self, Dup, push_at};
use crate::report::{ErrorCode, Label, Message, MessageV, Span};
use crate::subst::{self, Subst, apply_tys};
use crate::text::{cat3, cat4, cat9, same_text};
use crate::tree::{Head, Tree};
use crate::ty::{Constraint, Ty, TyVarId, join_text, same_tys};
use crate::unify::{self, unify_with};
use vstd::prelude::*;

verus! {

broadcast use crate::tree::group_shapes;

/// A class applied to types, in diagnostics.
pub open spec fn signature(class: Seq<char>, args: Seq<Tree>) -> Seq<char> {
    if args.len() == 0 {
        class
    } else {
        class + "<"@ + Tree::join_text(args) + ">"@
    }
}

/// A class applied to types, in diagnostics.
pub fn instance_signature(class: &str, args: &Vec<Ty>) -> (r: String)
    ensures
        r@ == signature(class@, args.deep_view()),
{
    if args.len() == 0 {
        class.to_owned()
    } else {
        let list = join_text(args);
        cat4(class, "<", list.as_str(), ">")
    }
}

/// The name of the type constructor at the head of a type.
pub open spec fn head_name(t: Tree) -> Option<Seq<char>>
    decreases t,
{
    match t {
        Tree::Node(Head::Con(name), _) => Some(kinds::ctor_name(name)),
        Tree::Node(Head::Sum(name, _), _) => Some(name),
        Tree::Node(Head::App, kids) => if kids.len() > 0 {
            head_name(kids[0])
        } else {
            None
        },
        Tree::Node(Head::Constructor(_, _), kids) => if kids.len() > 0 {
            head_name(kids[0])
        } else {
            None
        },
        _ => None,
    }
}

/// The name of the type constructor at the head of a type.
pub fn nominal_head(ty: &Ty) -> (r: Option<String>)
    ensures
        r.deep_view() == head_name(ty@),
    decreases ty,
{
    match ty {
        Ty::Con(name) => Some(canonical_ctor_name(name.as_str())),
        Ty::Sum { name, .. } => Some(name.clone()),
        Ty::App(head, _) => {
            assert(ty@.kids()[0] == head@);
            nominal_head(head)
        },
        Ty::Constructor { owner, .. } => {
            assert(ty@.kids()[0] == owner@);
            nominal_head(owner)
        },
        _ => None,
    }
}

/// The name of the type constructor at the head of an annotation.
pub open spec fn annotated_head(arg: Output) -> Option<Seq<char>> {
    match *arg.expr {
        Expression::Type(name) => Some(kinds::ctor_name(name@)),
        Expression::Identifier(name) => Some(kinds::ctor_name(name@)),
        Expression::TypeApp { name, args: _ } => Some(kinds::ctor_name(name@)),
        _ => None,
    }
}

/// The name of the type constructor at the head of an annotation.
pub fn nominal_head_from_instance_arg(arg: &Output) -> (r: Option<String>)
    ensures
        r.deep_view() == annotated_head(*arg),
{
    match &*arg.expr {
        Expression::Type(name) => Some(canonical_ctor_name(name.as_str())),
        Expression::Identifier(name) => Some(canonical_ctor_name(name.as_str())),
        Expression::TypeApp { name, args: _ } => Some(canonical_ctor_name(name.as_str())),
        _ => None,
    }
}

/// The type variable that a bound method dispatches on: a bare variable, or the
/// constructor head of an applied one.
pub open spec fn dispatch_var(t: Tree) -> Option<TyVarId> {
    match t {
        Tree::Var(v) => Some(v),
        Tree::Node(Head::App, kids) => Tree::first_var(kids),
        _ => None,
    }
}

/// Extract the type variable that a bound method should dispatch on.
/// First-order: bare `T`. Otherwise the constructor head of `F<A>`.
pub fn constraint_var_of_ty(ty: &Ty) -> (r: Option<TyVarId>)
    ensures
        r == dispatch_var(ty@),
{
    match ty {
        Ty::Var(v) => Some(*v),
        Ty::App(head, _) => {
            assert(ty@.kids()[0] == head@);
            match &**head {
                Ty::Var(v) => Some(*v),
                _ => None,
            }
        },
        _ => None,
    }
}

/// Whether one of the types is a variable.
pub open spec fn any_open(args: Seq<Tree>) -> bool {
    exists|i: int| 0 <= i < args.len() && (#[trigger] args[i]) is Var
}

/// True when one of the types is a variable.
pub fn has_open(args: &Vec<Ty>) -> (r: bool)
    ensures
        r == any_open(args.deep_view()),
{
    let ghost trees = args.deep_view();
    let mut i: usize = 0;
    while i < args.len()
        invariant
            i <= args.len(),
            trees == args.deep_view(),
            forall|j: int| 0 <= j < i ==> !((#[trigger] trees[j]) is Var),
        decreases args.len() - i,
    {
        assert(trees[i as int] == args@[i as int]@);
        if matches!(&args[i], Ty::Var(_)) {
            return true;
        }
        i += 1;
    }
    false
}

/// The place of the method `name`, from place `at` on.
pub open spec fn method_place(methods: Seq<MethodV>, name: Seq<char>, at: nat) -> Option<usize>
    decreases methods.len() - at,
{
    if at >= methods.len() {
        None
    } else if methods[at as int].name == name {
        Some(at as usize)
    } else {
        method_place(methods, name, at + 1)
    }
}

/// The slot of the method `name` in a dictionary and the class that owns it.
pub open spec fn layout_slot(
    layout: Seq<(Seq<char>, MethodV)>,
    name: Seq<char>,
    at: nat,
) -> Option<(usize, Seq<char>)>
    decreases layout.len() - at,
{
    if at >= layout.len() {
        None
    } else if layout[at as int].1.name == name {
        Some((at as usize, layout[at as int].0))
    } else {
        layout_slot(layout, name, at + 1)
    }
}

/// The slot of the method `name` in the dictionary of the class `class`, and
/// the class that owns it.
pub open spec fn dict_slot(g: GenericsV, class: Seq<char>, name: Seq<char>) -> Option<
    (usize, Seq<char>),
> {
    if g.typeclasses.contains_key(class) {
        layout_slot(generics::dict_layout(g.typeclasses, g.typeclasses[class]), name, 0)
    } else {
        None
    }
}

/// The kinds of fresh variables added to those known.
pub open spec fn with_kinds(m: Map<TyVarId, Kind>, kinds: Seq<(TyVarId, Kind)>, at: nat) -> Map<
    TyVarId,
    Kind,
>
    decreases kinds.len() - at,
{
    if at >= kinds.len() {
        m
    } else {
        with_kinds(m.insert(kinds[at as int].0, kinds[at as int].1), kinds, at + 1)
    }
}

/// A copy of a substitution.
pub fn copy_subst(s: &Subst) -> (r: Subst)
    ensures
        r@ == s@,
{
    Subst { map: s.map.dup() }
}

/// A trait method that an active constraint offers.
#[derive(Debug)]
pub struct BoundMethod {
    pub dict_index: usize,
    pub dict_class: String,
    pub owner: String,
    pub method_slot: usize,
    pub scheme: Scheme,
}

/// The model of a [`BoundMethod`].
#[verifier::ext_equal]
pub struct BoundMethodV {
    pub dict_index: usize,
    pub dict_class: Seq<char>,
    pub owner: Seq<char>,
    pub method_slot: usize,
    pub scheme: SchemeV,
}

impl View for BoundMethod {
    type V = BoundMethodV;

    open spec fn view(&self) -> BoundMethodV {
        BoundMethodV {
            dict_index: self.dict_index,
            dict_class: self.dict_class@,
            owner: self.owner@,
            method_slot: self.method_slot,
            scheme: self.scheme@,
        }
    }
}

impl DeepView for BoundMethod {
    type V = BoundMethodV;

    open spec fn deep_view(&self) -> BoundMethodV {
        self@
    }
}

/// What looking for an instance comes to: the instance, none, or several (which
/// was reported).
pub open spec fn outcome(r: Result<Option<InstanceDef>, ()>) -> Result<Option<InstV>, ()> {
    match r {
        Ok(Some(inst)) => Ok(Some(inst@)),
        Ok(None) => Ok(None),
        Err(()) => Err(()),
    }
}

impl CheckerV {
    /// The types by which an instance of `class` is looked up: for a
    /// constructor-kinded parameter the constructor head (`Option`), not the
    /// applied type (`Option<int>`).
    pub open spec fn instance_lookup_args(self, class: Seq<char>, args: Seq<Tree>) -> Seq<Tree> {
        let classes = self.reg.generics.typeclasses;
        Seq::new(
            args.len(),
            |i: int|
                if classes.contains_key(class) && classes[class].kind_at(i) is Arrow
                    && args[i] is Node && args[i].head() is App {
                    args[i].kids()[0]
                } else {
                    args[i]
                },
        )
    }

    /// Whether the type constructor `name` belongs to the current module.
    pub open spec fn owns_type(self, name: Option<Seq<char>>) -> bool {
        match name {
            Some(n) => self.reg.generics.nominal_type_modules.contains_key(n)
                && self.reg.generics.nominal_type_modules[n] == self.scope.module,
            None => false,
        }
    }

    /// An instance belongs to the module of its class or to the module of each
    /// of its types.
    pub open spec fn instance_satisfies_orphan_rule(
        self,
        class: Seq<char>,
        exprs: Seq<Output>,
        tys: Seq<Tree>,
    ) -> bool {
        let modules = self.reg.generics.class_modules;
        (modules.contains_key(class) && modules[class] == self.scope.module) || forall|i: int|
            0 <= i < exprs.len() && i < tys.len() ==> self.resolve(#[trigger] tys[i]) is Var
                || self.owns_type(
                match annotated_head(exprs[i]) {
                    Some(n) => Some(n),
                    None => head_name(self.resolve(tys[i])),
                },
            )
    }

    /// The substitution under which instance `i` is an instance of `class` for
    /// `wanted`.
    pub open spec fn answers(self, i: int, class: Seq<char>, wanted: Seq<Tree>) -> Option<
        Map<TyVarId, Tree>,
    > {
        let inst = self.reg.generics.instances[i];
        if inst.class == class && inst.args.len() == wanted.len() {
            generics::unify_lists(self.subst, wanted, inst.args)
        } else {
            None
        }
    }

    /// The places of the first `n` instances that answer.
    pub open spec fn matching(self, class: Seq<char>, wanted: Seq<Tree>, n: nat) -> Seq<nat>
        decreases n,
    {
        if n == 0 {
            Seq::empty()
        } else {
            let before = self.matching(class, wanted, (n - 1) as nat);
            if self.answers(n - 1, class, wanted) is Some {
                before.push((n - 1) as nat)
            } else {
                before
            }
        }
    }

    /// The module that declared instance `i`.
    pub open spec fn origin_module(self, i: nat) -> Seq<char> {
        let origins = self.reg.generics.instance_origins;
        if origins.contains_key(InstanceId(i as usize)) {
            origins[InstanceId(i as usize)].module
        } else {
            Seq::empty()
        }
    }

    /// A message points at instance `i`, when it was declared in this module.
    pub open spec fn pointing_at(self, m: MessageV, i: nat, text: Seq<char>) -> MessageV {
        let origins = self.reg.generics.instance_origins;
        let id = InstanceId(i as usize);
        if origins.contains_key(id) && origins[id].module == self.scope.module {
            m.labelled(text, origins[id].range)
        } else {
            m
        }
    }

    /// Two instances that both answer are reported.
    pub open spec fn report_ambiguous_instance(
        self,
        class: Seq<char>,
        wanted: Seq<Tree>,
        first: nat,
        second: nat,
        range: Span,
    ) -> CheckerV {
        let a = self.reg.generics.instances[first as int];
        let b = self.reg.generics.instances[second as int];
        let m = MessageV::error(
            ErrorCode::GenericTypeError,
            "Ambiguous instance for `"@ + signature(class, wanted) + "`"@,
            range,
        ).helped(
            "both `"@ + signature(a.class, a.args) + "` from module `"@ + self.origin_module(first)
                + "` and `"@ + signature(b.class, b.args) + "` from module `"@
                + self.origin_module(second) + "` match"@,
        );
        let m = self.pointing_at(m, first, "matching instance declared here"@);
        self.report(self.pointing_at(m, second, "another matching instance declared here"@))
    }

    /// The only instance of `class` that answers; its match binds open types.
    pub open spec fn find_unique_instance(
        self,
        class: Seq<char>,
        wanted: Seq<Tree>,
        range: Span,
    ) -> (CheckerV, Result<Option<InstV>, ()>) {
        let lookup = self.instance_lookup_args(class, wanted);
        let instances = self.reg.generics.instances;
        let found = self.matching(class, lookup, instances.len());
        if found.len() == 0 {
            (self, Ok(None))
        } else if found.len() == 1 {
            (
                CheckerV {
                    subst: self.answers(found[0] as int, class, lookup).unwrap(),
                    ..self
                },
                Ok(Some(instances[found[0] as int])),
            )
        } else {
            (self.report_ambiguous_instance(class, wanted, found[0], found[1], range), Err(()))
        }
    }

    /// The class that an abstract constraint parameter stands for, or the class
    /// itself.
    pub open spec fn concrete_class(self, name: Seq<char>) -> Seq<char> {
        match kinds::innermost(self.scope.abstract_bindings, name) {
            Some(class) => class,
            None => name,
        }
    }

    /// Whether `class` is `wanted` or has it as a superclass.
    pub open spec fn implies_class(self, class: Seq<char>, wanted: Seq<char>) -> bool {
        let classes = self.reg.generics.typeclasses;
        class == wanted || (classes.contains_key(class) && generics::is_above(
            classes,
            classes[class].superclasses,
            wanted,
        ))
    }

    /// Whether two constraints speak of the same types.
    pub open spec fn same_args(self, a: Tree, b: Tree) -> bool {
        self.resolve_all(a.kids()) == self.resolve_all(b.kids())
    }

    /// Whether an active constraint is `needed` or implies it through a superclass.
    pub open spec fn covers(self, active: Tree, needed: Tree) -> bool {
        self.same_args(active, needed) && self.implies_class(
            self.concrete_class(annotations::class_of(active)),
            annotations::class_of(needed),
        )
    }

    /// Whether some active constraint covers `needed`.
    pub open spec fn constraint_is_covered(self, needed: Tree) -> bool {
        exists|i: int|
            0 <= i < self.scope.active.len() && self.covers(
                #[trigger] self.scope.active[i],
                needed,
            )
    }

    /// The first active constraint of exactly the needed class, from place `at` on.
    pub open spec fn exact_dict(self, needed: Tree, at: nat) -> Option<usize>
        decreases self.scope.active.len() - at,
    {
        if at >= self.scope.active.len() {
            None
        } else {
            let a = self.scope.active[at as int];
            if self.same_args(a, needed) && self.concrete_class(annotations::class_of(a))
                == annotations::class_of(needed) {
                Some(at as usize)
            } else {
                self.exact_dict(needed, at + 1)
            }
        }
    }

    /// The first active constraint that covers `needed`, from place `at` on.
    pub open spec fn covering_dict(self, needed: Tree, at: nat) -> Option<usize>
        decreases self.scope.active.len() - at,
    {
        if at >= self.scope.active.len() {
            None
        } else if self.covers(self.scope.active[at as int], needed) {
            Some(at as usize)
        } else {
            self.covering_dict(needed, at + 1)
        }
    }

    /// The dictionary for `needed`: of exactly its class, else of a subclass.
    pub open spec fn dict_index_for(self, needed: Tree) -> Option<usize> {
        match self.exact_dict(needed, 0) {
            Some(i) => Some(i),
            None => self.covering_dict(needed, 0),
        }
    }

    /// The first dictionary on `var` that gives `class`, and its class.
    pub open spec fn user_dict(self, var: TyVarId, class: Seq<char>, at: nat) -> Option<
        (usize, Seq<char>),
    >
        decreases self.scope.active.len() - at,
    {
        if at >= self.scope.active.len() {
            None
        } else {
            let a = self.scope.active[at as int];
            let concrete = self.concrete_class(annotations::class_of(a));
            if self.implies_class(concrete, class) && Tree::first_var(a.kids()) == Some(var) {
                Some((at as usize, concrete))
            } else {
                self.user_dict(var, class, at + 1)
            }
        }
    }

    /// An abstract constraint parameter is bound to a class, the first time.
    pub open spec fn bind_abstract_constraint(self, name: Seq<char>, class: Seq<char>) -> CheckerV {
        let frames = self.scope.abstract_bindings;
        if self.constraint_param_kind(name) is None || frames.len() == 0
            || frames.last().contains_key(name) {
            self
        } else {
            CheckerV {
                scope: ScopesV {
                    abstract_bindings: frames.drop_last().push(frames.last().insert(name, class)),
                    ..self.scope
                },
                ..self
            }
        }
    }

    /// Whether a constraint speaks of `var`; any constraint when there is none.
    pub open spec fn touches(c: Tree, var: Option<TyVarId>) -> bool {
        match var {
            Some(v) => c.kids().contains(Tree::Var(v)),
            None => true,
        }
    }

    /// The abstract constraints on `var` are bound to `class`, from place `at` on.
    pub open spec fn bind_matching_abstract_constraints(
        self,
        var: Option<TyVarId>,
        class: Seq<char>,
        at: nat,
    ) -> CheckerV
        decreases self.scope.active.len() - at,
    {
        if at >= self.scope.active.len() {
            self
        } else {
            let a = self.scope.active[at as int];
            let c = if CheckerV::touches(a, var) {
                self.bind_abstract_constraint(annotations::class_of(a), class)
            } else {
                self
            };
            c.bind_matching_abstract_constraints(var, class, at + 1)
        }
    }

    /// Whether the class `name` declares `method` for arguments of these kinds.
    pub open spec fn offers_method(self, name: Seq<char>, args: Seq<Tree>, method: Seq<char>) -> bool {
        let classes = self.reg.generics.typeclasses;
        &&& classes.contains_key(name)
        &&& classes[name].type_params.len() == args.len()
        &&& method_place(classes[name].methods, method, 0) is Some
        &&& forall|i: int|
            0 <= i < args.len() ==> classes[name].kind_at(i) == self.kind_of_type_argument(
                #[trigger] args[i],
            )
    }

    /// The classes among `names` that offer `method`.
    pub open spec fn offering(
        self,
        names: Seq<Seq<char>>,
        args: Seq<Tree>,
        method: Seq<char>,
        at: nat,
        acc: Seq<Seq<char>>,
    ) -> Seq<Seq<char>>
        decreases names.len() - at,
    {
        if at >= names.len() {
            acc
        } else {
            self.offering(
                names,
                args,
                method,
                at + 1,
                if self.offers_method(names[at as int], args, method) {
                    acc.push(names[at as int])
                } else {
                    acc
                },
            )
        }
    }

    /// The classes whose `method` a call under the constraint `c` may mean.
    pub open spec fn possible_classes_for_constraint_method(self, c: Tree, method: Seq<char>) -> Seq<
        Seq<char>,
    > {
        let class = annotations::class_of(c);
        match kinds::innermost(self.scope.abstract_bindings, class) {
            Some(bound) => seq![bound],
            None => if self.constraint_param_kind(class) is None {
                seq![class]
            } else {
                self.offering(self.reg.generics.class_order, c.kids(), method, 0, Seq::empty())
            },
        }
    }

    /// The methods named `method` that these classes offer, from place `at` on.
    pub open spec fn class_candidates(
        self,
        dict_index: usize,
        classes: Seq<Seq<char>>,
        method: Seq<char>,
        at: nat,
        acc: Seq<BoundMethodV>,
    ) -> Seq<BoundMethodV>
        decreases classes.len() - at,
    {
        if at >= classes.len() {
            acc
        } else {
            let class = classes[at as int];
            let next = match dict_slot(self.reg.generics, class, method) {
                Some((slot, owner)) => if self.reg.method_schemes.contains_key((owner, method)) {
                    acc.push(
                        BoundMethodV {
                            dict_index,
                            dict_class: class,
                            owner,
                            method_slot: slot,
                            scheme: self.reg.method_schemes[(owner, method)],
                        },
                    )
                } else {
                    acc
                },
                None => acc,
            };
            self.class_candidates(dict_index, classes, method, at + 1, next)
        }
    }

    /// The methods named `method` that the active constraints on `var` offer,
    /// from place `at` on.
    pub open spec fn bound_method_candidates(
        self,
        method: Seq<char>,
        var: Option<TyVarId>,
        at: nat,
        acc: Seq<BoundMethodV>,
    ) -> Seq<BoundMethodV>
        decreases self.scope.active.len() - at,
    {
        if at >= self.scope.active.len() {
            acc
        } else {
            let a = self.scope.active[at as int];
            let next = if CheckerV::touches(a, var) {
                self.class_candidates(
                    at as usize,
                    self.possible_classes_for_constraint_method(a, method),
                    method,
                    0,
                    acc,
                )
            } else {
                acc
            };
            self.bound_method_candidates(method, var, at + 1, next)
        }
    }

    /// The method `method` of an existential of the class `class`.
    pub open spec fn existential_method_candidate(self, class: Seq<char>, method: Seq<char>) -> Option<
        (Seq<char>, usize, SchemeV),
    > {
        match dict_slot(self.reg.generics, class, method) {
            Some((slot, owner)) => if self.reg.method_schemes.contains_key((owner, method)) {
                Some((owner, slot, self.reg.method_schemes[(owner, method)]))
            } else {
                None
            },
            None => None,
        }
    }

    /// The only candidate; several are reported.
    pub open spec fn select_bound_method(
        self,
        candidates: Seq<BoundMethodV>,
        method: Seq<char>,
        range: Span,
    ) -> (CheckerV, Option<BoundMethodV>) {
        if candidates.len() > 1 {
            (
                self.say(
                    ErrorCode::GenericTypeError,
                    "Ambiguous trait method `"@ + method + "`"@,
                    range,
                ),
                None,
            )
        } else if candidates.len() == 1 {
            (self, Some(candidates[0]))
        } else {
            (self, None)
        }
    }

    /// The method schemes named `method` whose first parameter fits the
    /// receiver, from place `at` on. Each scheme is tried with fresh variables.
    pub open spec fn fitting_methods(
        self,
        method: Seq<char>,
        recv: Tree,
        at: nat,
        acc: Seq<(Seq<char>, SchemeV)>,
    ) -> (CheckerV, Seq<(Seq<char>, SchemeV)>)
        decreases self.reg.method_order.len() - at,
    {
        if at >= self.reg.method_order.len() {
            (self, acc)
        } else {
            let key = self.reg.method_order[at as int];
            if key.1 != method {
                self.fitting_methods(method, recv, at + 1, acc)
            } else {
                let scheme = self.reg.method_schemes[key];
                let t = env::instance_of(scheme, self.counter).ty;
                let c = CheckerV {
                    counter: env::bump_by(self.counter, scheme.bounds.len()),
                    ..self
                };
                c.fitting_methods(
                    method,
                    recv,
                    at + 1,
                    if t is Node && t.head() is Fun && unify::unified(
                        self.subst,
                        t.kids()[0],
                        recv,
                    ) is Ok {
                        acc.push((key.0, scheme))
                    } else {
                        acc
                    },
                )
            }
        }
    }

    /// The only method named `method` whose first parameter fits the receiver.
    pub open spec fn ground_trait_method_for_receiver(self, method: Seq<char>, recv: Tree) -> (
        CheckerV,
        Option<(Seq<char>, SchemeV)>,
    ) {
        let (c, fitting) = self.fitting_methods(method, self.resolve(recv), 0, Seq::empty());
        if fitting.len() == 1 {
            (c, Some(fitting[0]))
        } else {
            (c, None)
        }
    }

    /// A scheme with fresh variables, whose kinds are recorded: its type, its
    /// constraints and what its quantified variables became.
    pub open spec fn instantiate_scheme_mapped(self, scheme: SchemeV) -> (
        CheckerV,
        Tree,
        Seq<Tree>,
        Map<TyVarId, Tree>,
    ) {
        let i = env::instance_of(scheme, self.counter);
        (
            CheckerV {
                counter: env::bump_by(self.counter, scheme.bounds.len()),
                scope: ScopesV {
                    var_kinds: with_kinds(self.scope.var_kinds, i.kinds, 0),
                    ..self.scope
                },
                ..self
            },
            i.ty,
            i.constraints,
            env::fresh_map(scheme.bounds, self.counter),
        )
    }

    /// A scheme with fresh variables: its type and its constraints.
    pub open spec fn instantiate_scheme(self, scheme: SchemeV) -> (CheckerV, Tree, Seq<Tree>) {
        let (c, t, constraints, _) = self.instantiate_scheme_mapped(scheme);
        (c, t, constraints)
    }

    /// The type of a scheme with fresh variables.
    pub open spec fn instantiate_ty(self, scheme: SchemeV) -> (CheckerV, Tree) {
        let (c, t, _, _) = self.instantiate_scheme_mapped(scheme);
        (c, t)
    }

    /// Whether `owner` can be one of the types of the instance.
    pub open spec fn owner_fits(self, owner: TyVarId, inst: InstV) -> bool {
        exists|i: int|
            0 <= i < inst.args.len() && unify::unified(
                self.subst,
                self.resolve(Tree::Var(owner)),
                #[trigger] inst.args[i],
            ) is Ok
    }

    /// The open projections that an instance decides are pinned, from place
    /// `at` on.
    pub open spec fn pin_open(self, def: ClassV, inst: InstV, range: Span, at: nat) -> CheckerV
        decreases self.scope.open_projections.len() - at,
    {
        if at >= self.scope.open_projections.len() {
            self
        } else {
            let p = self.scope.open_projections[at as int];
            let c = if annotations::decl_from(def.assoc_types, p.name, 0) is Some && self.owner_fits(
                p.owner,
                inst,
            ) && inst.assoc_tys.contains_key(p.name) {
                self.unify(
                    Tree::Var(p.var),
                    self.instantiate_assoc_value(inst.assoc_tys[p.name], p.args),
                    range,
                    "associated type `"@ + p.name + "`"@,
                ).0
            } else {
                self
            };
            c.pin_open(def, inst, range, at + 1)
        }
    }

    /// The associated types that an instance of `class` decides are pinned.
    pub open spec fn pin_assoc_types_for_instance(
        self,
        class: Seq<char>,
        inst: InstV,
        range: Span,
    ) -> CheckerV {
        let classes = self.reg.generics.typeclasses;
        if classes.contains_key(class) && classes[class].assoc_types.len() > 0 {
            self.pin_open(classes[class], inst, range, 0)
        } else {
            self
        }
    }

    /// What an instance says the projections of a scheme are, from place `at` on:
    /// the name, the fresh variable and the type of each.
    pub open spec fn scheme_pins(
        self,
        inst: InstV,
        projections: Seq<ProjectionV>,
        mapping: Map<TyVarId, Tree>,
        at: nat,
        acc: Seq<(Seq<char>, Tree, Tree)>,
    ) -> Seq<(Seq<char>, Tree, Tree)>
        decreases projections.len() - at,
    {
        if at >= projections.len() {
            acc
        } else {
            let p = projections[at as int];
            let next = if mapping.contains_key(p.var) && inst.assoc_tys.contains_key(p.name) {
                acc.push(
                    (
                        p.name,
                        mapping[p.var],
                        self.instantiate_assoc_value(
                            inst.assoc_tys[p.name],
                            subst::subst_all(p.args, mapping),
                        ),
                    ),
                )
            } else {
                acc
            };
            self.scheme_pins(inst, projections, mapping, at + 1, next)
        }
    }

    /// Pins are carried out, from place `at` on.
    pub open spec fn unify_pins(self, pins: Seq<(Seq<char>, Tree, Tree)>, range: Span, at: nat) -> CheckerV
        decreases pins.len() - at,
    {
        if at >= pins.len() {
            self
        } else {
            let (name, fresh, concrete) = pins[at as int];
            self.unify(fresh, concrete, range, "associated type `"@ + name + "`"@).0.unify_pins(
                pins,
                range,
                at + 1,
            )
        }
    }

    /// The fresh variables of a scheme's projections are pinned by an instance.
    pub open spec fn pin_assoc_vars_from_mapping(
        self,
        class: Seq<char>,
        inst: InstV,
        scheme: SchemeV,
        mapping: Map<TyVarId, Tree>,
        range: Span,
    ) -> CheckerV {
        if self.reg.generics.typeclasses.contains_key(class) {
            self.unify_pins(
                self.scheme_pins(inst, scheme.projections, mapping, 0, Seq::empty()),
                range,
                0,
            )
        } else {
            self
        }
    }

    /// The instance chosen for a call is recorded.
    pub open spec fn record_call_site_dict(self, call: Option<NodeId>, range: Span, inst: InstV) -> CheckerV {
        CheckerV {
            out: TablesV {
                call_dicts: match call {
                    Some(id) => maps::pushed(self.out.call_dicts, id, inst),
                    None => self.out.call_dicts,
                },
                call_dicts_by_span: maps::pushed(self.out.call_dicts_by_span, range, inst),
                ..self.out
            },
            ..self
        }
    }

    /// The dictionary forwarded to a call is recorded.
    pub open spec fn record_forward_dict(self, call: Option<NodeId>, range: Span, index: usize) -> CheckerV {
        match call {
            Some(id) => CheckerV {
                out: TablesV {
                    forward_dicts: maps::pushed(self.out.forward_dicts, id, index),
                    forward_dicts_by_span: maps::pushed(
                        self.out.forward_dicts_by_span,
                        range,
                        index,
                    ),
                    ..self.out
                },
                ..self
            },
            None => self,
        }
    }

    /// One constraint of a call is discharged: by a dictionary in scope, or by
    /// the only instance that answers.
    pub open spec fn discharge_constraint(self, call: Option<NodeId>, c: Tree, range: Span) -> CheckerV {
        let class = annotations::class_of(c);
        let args = self.resolve_all(c.kids());
        let needed = Tree::pred(class, args);
        if any_open(args) && self.constraint_is_covered(needed) {
            match self.dict_index_for(needed) {
                Some(i) => self.record_forward_dict(call, range, i),
                None => self,
            }
        } else {
            match self.find_unique_instance(class, args, range) {
                (c, Ok(Some(inst))) => c.record_call_site_dict(
                    call,
                    range,
                    inst,
                ).pin_assoc_types_for_instance(class, inst, range),
                (c, Ok(None)) => c.say(
                    ErrorCode::GenericTypeError,
                    (if any_open(args) {
                        "Cannot satisfy constraint `"@
                    } else {
                        "No instance for `"@
                    }) + signature(class, args) + "`"@,
                    range,
                ),
                (c, Err(())) => c,
            }
        }
    }

    /// The constraints of a call are discharged, from place `at` on.
    pub open spec fn discharge_constraints(
        self,
        call: Option<NodeId>,
        constraints: Seq<Tree>,
        range: Span,
        at: nat,
    ) -> CheckerV
        decreases constraints.len() - at,
    {
        if at >= constraints.len() {
            self
        } else {
            self.discharge_constraint(call, constraints[at as int], range).discharge_constraints(
                call,
                constraints,
                range,
                at + 1,
            )
        }
    }

    /// After the constraints of a method call were discharged, the associated
    /// types of the method's scheme are pinned, from place `at` on.
    pub open spec fn pin_assoc_after_discharge(
        self,
        class: Seq<char>,
        constraints: Seq<Tree>,
        scheme: Option<SchemeV>,
        mapping: Map<TyVarId, Tree>,
        range: Span,
        at: nat,
    ) -> CheckerV
        decreases constraints.len() - at,
    {
        if at >= constraints.len() {
            self
        } else {
            let k = constraints[at as int];
            let own = annotations::class_of(k);
            let args = self.resolve_all(k.kids());
            let c = if (class.len() > 0 && own != class) || any_open(args) {
                self
            } else {
                match self.find_unique_instance(own, args, range) {
                    (c, Ok(Some(inst))) => {
                        let c = match scheme {
                            Some(s) => c.pin_assoc_vars_from_mapping(own, inst, s, mapping, range),
                            None => c,
                        };
                        c.pin_assoc_types_for_instance(own, inst, range)
                    },
                    (c, _) => c,
                }
            };
            c.pin_assoc_after_discharge(class, constraints, scheme, mapping, range, at + 1)
        }
    }

    /// The dictionary and the slot of an operator on `var`.
    pub open spec fn operator_slot(self, var: TyVarId, class: Seq<char>, method: Seq<char>) -> Option<
        (usize, usize),
    > {
        match self.user_dict(var, class, 0) {
            Some((index, dict_class)) => match dict_slot(
                self.reg.generics,
                dict_class,
                method,
            ) {
                Some((slot, _)) => Some((index, slot)),
                None => None,
            },
            None => None,
        }
    }

    /// An operator that goes through a dictionary is recorded.
    pub open spec fn record_bound_operator(
        self,
        id: Option<NodeId>,
        range: Span,
        var: TyVarId,
        class: Seq<char>,
        method: Seq<char>,
    ) -> CheckerV {
        match self.operator_slot(var, class, method) {
            Some((dict_index, method_slot)) => {
                let hint = BoundOperatorCall { dict_index, method_slot };
                CheckerV {
                    out: TablesV {
                        operator_calls: match id {
                            Some(id) => self.out.operator_calls.insert(id, hint),
                            None => self.out.operator_calls,
                        },
                        operator_calls_by_span: self.out.operator_calls_by_span.insert(
                            range,
                            hint,
                        ),
                        ..self.out
                    },
                    ..self
                }
            },
            None => self,
        }
    }

    /// A displayed value that goes through a dictionary is recorded.
    pub open spec fn record_bound_display(self, range: Span, var: TyVarId) -> CheckerV {
        match self.operator_slot(var, "Show"@, "show"@) {
            Some((dict_index, method_slot)) => CheckerV {
                out: TablesV {
                    display_calls_by_span: self.out.display_calls_by_span.insert(
                        range,
                        BoundDisplayCall { dict_index, method_slot },
                    ),
                    ..self.out
                },
                ..self
            },
            None => self,
        }
    }
}

/// The place of the method `name`.
pub fn find_method(methods: &Vec<TypeClassMethodDef>, name: &str) -> (r: Option<usize>)
    ensures
        r == method_place(methods.deep_view(), name@, 0),
{
    let ghost all = methods.deep_view();
    let mut i: usize = 0;
    while i < methods.len()
        invariant
            i <= methods.len(),
            all == methods.deep_view(),
            method_place(all, name@, 0) == method_place(all, name@, i as nat),
        decreases methods.len() - i,
    {
        assert(all[i as int] == methods@[i as int]@);
        if same_text(methods[i].name.as_str(), name) {
            return Some(i);
        }
        i += 1;
    }
    None
}

/// The slot of the method `name` in the dictionary of the class `class`, and
/// the class that owns it.
pub fn find_dict_slot(g: &crate::generics::Generics, class: &str, name: &str) -> (r: Option<
    (usize, String),
>)
    ensures
        match r {
            Some((slot, owner)) => dict_slot(g@, class@, name@) == Some((slot, owner@)),
            None => dict_slot(g@, class@, name@) is None,
        },
{
    if let Some(def) = g.typeclass(class) {
        let flat = def.flattened_methods(g);
        slot_in(&flat, name)
    } else {
        None
    }
}

fn slot_in(flat: &Vec<(&str, &TypeClassMethodDef)>, name: &str) -> (r: Option<(usize, String)>)
    ensures
        match r {
            Some((slot, owner)) => layout_slot(generics::slot_views(flat@), name@, 0) == Some(
                (slot, owner@),
            ),
            None => layout_slot(generics::slot_views(flat@), name@, 0) is None,
        },
{
    let ghost all = generics::slot_views(flat@);
    let mut i: usize = 0;
    while i < flat.len()
        invariant
            i <= flat.len(),
            all == generics::slot_views(flat@),
            layout_slot(all, name@, 0) == layout_slot(all, name@, i as nat),
        decreases flat.len() - i,
    {
        assert(all[i as int] == (flat@[i as int].0@, flat@[i as int].1@));
        if same_text(flat[i].1.name.as_str(), name) {
            return Some((i, flat[i].0.to_owned()));
        }
        i += 1;
    }
    None
}

/// True when the constraint speaks of `var`, or there is no `var`.
pub fn constraint_touches(c: &Constraint, var: Option<TyVarId>) -> (r: bool)
    ensures
        r == CheckerV::touches(c@, var),
{
    match var {
        Some(v) => {
            let ghost trees = c.args.deep_view();
            let mut i: usize = 0;
            while i < c.args.len()
                invariant
                    i <= c.args.len(),
                    trees == c.args.deep_view(),
                    trees == c@.kids(),
                    var == Some(v),
                    forall|j: int| 0 <= j < i ==> trees[j] != Tree::Var(v),
                decreases c.args.len() - i,
            {
                assert(trees[i as int] == c.args@[i as int]@);
                match &c.args[i] {
                    Ty::Var(w) => if *w == v {
                        return true;
                    },
                    _ => {},
                }
                i += 1;
            }
            false
        },
        None => true,
    }
}

impl Checker {
    /// For constructor-kinded class parameters, look up instances by
    /// constructor head (`Option`, `Result`), not by applied types.
    pub fn instance_lookup_args(&self, class: &str, args: &Vec<Ty>) -> (r: Vec<Ty>)
        ensures
            r.deep_view() == self@.instance_lookup_args(class@, args.deep_view()),
    {
        let ghost all = self@.instance_lookup_args(class@, args.deep_view());
        let def = self.reg.generics.typeclass(class);
        let mut out: Vec<Ty> = Vec::new();
        let mut i: usize = 0;
        while i < args.len()
            invariant
                i <= args.len(),
                all == self@.instance_lookup_args(class@, args.deep_view()),
                match def {
                    Some(d) => self@.reg.generics.typeclasses.contains_key(class@)
                        && self@.reg.generics.typeclasses[class@] == d@,
                    None => !self@.reg.generics.typeclasses.contains_key(class@),
                },
                out.deep_view() == all.take(i as int),
            decreases args.len() - i,
        {
            let ghost before = out.deep_view();
            assert(args.deep_view()[i as int] == args@[i as int]@);
            let by_head = match def {
                Some(d) => d.is_constructor_kind_at(i),
                None => false,
            };
            let t = match &args[i] {
                Ty::App(head, _) => if by_head {
                    assert(args@[i as int]@.kids()[0] == head@);
                    (**head).clone()
                } else {
                    args[i].clone()
                },
                _ => args[i].clone(),
            };
            out.push(t);
            assert(out.deep_view() =~= before.push(t@));
            i += 1;
            assert(out.deep_view() =~= all.take(i as int));
        }
        assert(out.deep_view() =~= all);
        out
    }

    fn owns_type(&self, name: &Option<String>) -> (r: bool)
        ensures
            r == self@.owns_type(name.deep_view()),
    {
        match name {
            Some(n) => match self.reg.generics.nominal_type_module(n.as_str()) {
                Some(m) => same_text(m.as_str(), self.scope.module.as_str()),
                None => false,
            },
            None => false,
        }
    }

    /// An instance must belong to the module of its class or to the modules of
    /// its types.
    pub fn instance_satisfies_orphan_rule(
        &self,
        class: &str,
        arg_exprs: &Vec<Output>,
        arg_tys: &Vec<Ty>,
    ) -> (r: bool)
        ensures
            r == self@.instance_satisfies_orphan_rule(class@, arg_exprs@, arg_tys.deep_view()),
    {
        if let Some(m) = self.reg.generics.class_modules.get(class) {
            if same_text(m.as_str(), self.scope.module.as_str()) {
                return true;
            }
        }
        self.owns_types(arg_exprs, arg_tys)
    }

    fn owns_types(&self, arg_exprs: &Vec<Output>, arg_tys: &Vec<Ty>) -> (r: bool)
        ensures
            r == forall|i: int|
                0 <= i < arg_exprs@.len() && i < arg_tys.deep_view().len() ==> self@.resolve(
                    #[trigger] arg_tys.deep_view()[i],
                ) is Var || self@.owns_type(
                    match annotated_head(arg_exprs@[i]) {
                        Some(n) => Some(n),
                        None => head_name(self@.resolve(arg_tys.deep_view()[i])),
                    },
                ),
    {
        let ghost tys = arg_tys.deep_view();
        let mut i: usize = 0;
        while i < arg_exprs.len() && i < arg_tys.len()
            invariant
                i <= arg_exprs.len(),
                i <= arg_tys.len(),
                tys == arg_tys.deep_view(),
                forall|j: int|
                    0 <= j < i ==> self@.resolve(#[trigger] tys[j]) is Var || self@.owns_type(
                        match annotated_head(arg_exprs@[j]) {
                            Some(n) => Some(n),
                            None => head_name(self@.resolve(tys[j])),
                        },
                    ),
            decreases arg_exprs.len() - i,
        {
            assert(tys[i as int] == arg_tys@[i as int]@);
            let t = self.resolve(&arg_tys[i]);
            if !matches!(t, Ty::Var(_)) {
                let head = match nominal_head_from_instance_arg(&arg_exprs[i]) {
                    Some(n) => Some(n),
                    None => nominal_head(&t),
                };
                if !self.owns_type(&head) {
                    return false;
                }
            }
            i += 1;
        }
        true
    }

    fn answers(&self, i: usize, class: &str, wanted: &Vec<Ty>) -> (r: Option<Subst>)
        requires
            i < self@.reg.generics.instances.len(),
        ensures
            match r {
                Some(s) => self@.answers(i as int, class@, wanted.deep_view()) == Some(s@),
                None => self@.answers(i as int, class@, wanted.deep_view()) is None,
            },
    {
        let inst = &self.reg.generics.instances[i];
        assert(self@.reg.generics.instances[i as int] == inst@);
        if same_text(inst.class.as_str(), class) && inst.args.len() == wanted.len() {
            proof {
                assert(wanted.deep_view().skip(0) =~= wanted.deep_view());
                assert(inst.args.deep_view().skip(0) =~= inst.args.deep_view());
            }
            let s = copy_subst(&self.subst);
            let need = wanted.as_slice();
            let have = inst.args.as_slice();
            assert(need.deep_view() =~= wanted.deep_view());
            assert(have.deep_view() =~= inst.args.deep_view());
            unify_from(s, need, have, 0)
        } else {
            None
        }
    }

    /// The module that declared instance `i`.
    pub fn origin_module(&self, i: usize) -> (r: String)
        ensures
            r@ == self@.origin_module(i as nat),
    {
        match self.reg.generics.instance_origins.get(&InstanceId(i)) {
            Some(o) => o.module.clone(),
            None => {
                let s = String::new();
                assert(s@ =~= Seq::<char>::empty());
                s
            },
        }
    }

    /// Point a message at instance `i`, when it was declared in this module.
    pub fn point_at(&self, m: &mut Message, i: usize, text: &str)
        ensures
            final(m)@ == self@.pointing_at(old(m)@, i as nat, text@),
    {
        if let Some(o) = self.reg.generics.instance_origins.get(&InstanceId(i)) {
            if same_text(o.module.as_str(), self.scope.module.as_str()) {
                m.push(Label::new(text.to_owned(), o.range));
            }
        }
    }

    fn report_ambiguous_instance(
        &mut self,
        class: &str,
        wanted: &Vec<Ty>,
        first: usize,
        second: usize,
        range: Span,
    )
        requires
            first < old(self)@.reg.generics.instances.len(),
            second < old(self)@.reg.generics.instances.len(),
        ensures
            final(self)@ == old(self)@.report_ambiguous_instance(
                class@,
                wanted.deep_view(),
                first as nat,
                second as nat,
                range,
            ),
    {
        let pretty = instance_signature(class, wanted);
        let mut msg = Message::error(
            ErrorCode::GenericTypeError,
            cat3("Ambiguous instance for `", pretty.as_str(), "`"),
            range,
        );
        let a = &self.reg.generics.instances[first];
        let b = &self.reg.generics.instances[second];
        assert(self@.reg.generics.instances[first as int] == a@);
        assert(self@.reg.generics.instances[second as int] == b@);
        let sa = instance_signature(a.class.as_str(), &a.args);
        let sb = instance_signature(b.class.as_str(), &b.args);
        let ma = self.origin_module(first);
        let mb = self.origin_module(second);
        msg.with_help(
            cat9(
                "both `",
                sa.as_str(),
                "` from module `",
                ma.as_str(),
                "` and `",
                sb.as_str(),
                "` from module `",
                mb.as_str(),
                "` match",
            ),
        );
        self.point_at(&mut msg, first, "matching instance declared here");
        self.point_at(&mut msg, second, "another matching instance declared here");
        self.report(msg);
    }

    /// Find exactly one instance of `class` whose args unify with `wanted`
    /// (open vars in `wanted` may be bound by the match). Ambiguous matches are
    /// diagnosed instead of silently selecting declaration order.
    pub fn find_unique_instance(&mut self, class: &str, wanted: &Vec<Ty>, range: Span) -> (r: Result<
        Option<InstanceDef>,
        (),
    >)
        ensures
            (final(self)@, outcome(r)) == old(self)@.find_unique_instance(
                class@,
                wanted.deep_view(),
                range,
            ),
    {
        let lookup = self.instance_lookup_args(class, wanted);
        let ghost look = lookup.deep_view();
        let mut found: Vec<usize> = Vec::new();
        let mut chosen: Option<Subst> = None;
        let n = self.reg.generics.instances.len();
        let mut i: usize = 0;
        while i < n
            invariant
                i <= n,
                n == self@.reg.generics.instances.len(),
                look == lookup.deep_view(),
                found@.len() == self@.matching(class@, look, i as nat).len(),
                forall|j: int|
                    0 <= j < found@.len() ==> (#[trigger] found@[j]) as nat == self@.matching(
                        class@,
                        look,
                        i as nat,
                    )[j] && found@[j] < n,
                found@.len() > 0 ==> match chosen {
                    Some(s) => self@.answers(found@[0] as int, class@, look) == Some(s@),
                    None => false,
                },
                found@.len() == 0 ==> chosen is None,
            decreases n - i,
        {
            if let Some(s) = self.answers(i, class, &lookup) {
                found.push(i);
                if chosen.is_none() {
                    chosen = Some(s);
                }
            }
            i += 1;
        }
        if found.len() > 1 {
            self.report_ambiguous_instance(class, wanted, found[0], found[1], range);
            return Err(());
        }
        match chosen {
            Some(s) => {
                let inst = self.reg.generics.instances[found[0]].dup();
                assert(self@.reg.generics.instances[found@[0] as int] == inst@);
                self.subst = s;
                Ok(Some(inst))
            },
            None => Ok(None),
        }
    }

    /// The class that an abstract constraint parameter is bound to, or the class
    /// itself.
    pub fn concrete_class(&self, name: &str) -> (r: String)
        ensures
            r@ == self@.concrete_class(name@),
    {
        match find_innermost(&self.scope.abstract_bindings, name) {
            Some(class) => class.clone(),
            None => name.to_owned(),
        }
    }

    fn implies_class(&self, class: &str, wanted: &str) -> (r: bool)
        ensures
            r == self@.implies_class(class@, wanted@),
    {
        if same_text(class, wanted) {
            return true;
        }
        match self.reg.generics.typeclass(class) {
            Some(def) => def.has_superclass(wanted, &self.reg.generics),
            None => false,
        }
    }

    fn same_args(&self, a: &Constraint, b: &Constraint) -> (r: bool)
        ensures
            r == self@.same_args(a@, b@),
    {
        same_tys(&self.resolve_all(&a.args), &self.resolve_all(&b.args))
    }

    fn covers(&self, active: &Constraint, needed: &Constraint) -> (r: bool)
        ensures
            r == self@.covers(active@, needed@),
    {
        if !self.same_args(active, needed) {
            return false;
        }
        let class = self.concrete_class(active.class.as_str());
        self.implies_class(class.as_str(), needed.class.as_str())
    }

    /// True when some active constraint matches `needed` under the current
    /// substitution, or implies it via a superclass (`Ordered<T>` covers
    /// `Equal<T>`).
    pub fn constraint_is_covered(&self, needed: &Constraint) -> (r: bool)
        ensures
            r == self@.constraint_is_covered(needed@),
    {
        let ghost active = self@.scope.active;
        let mut i: usize = 0;
        while i < self.scope.active.len()
            invariant
                i <= self.scope.active.len(),
                active == self.scope.active.deep_view(),
                active == self@.scope.active,
                forall|j: int| 0 <= j < i ==> !self@.covers(#[trigger] active[j], needed@),
            decreases self.scope.active.len() - i,
        {
            assert(active[i as int] == self.scope.active@[i as int]@);
            if self.covers(&self.scope.active[i], needed) {
                return true;
            }
            i += 1;
        }
        false
    }

    fn exact_dict(&self, needed: &Constraint) -> (r: Option<usize>)
        ensures
            r == self@.exact_dict(needed@, 0),
    {
        let ghost active = self@.scope.active;
        let mut i: usize = 0;
        while i < self.scope.active.len()
            invariant
                i <= self.scope.active.len(),
                active == self.scope.active.deep_view(),
                active == self@.scope.active,
                self@.exact_dict(needed@, 0) == self@.exact_dict(needed@, i as nat),
            decreases self.scope.active.len() - i,
        {
            let a = &self.scope.active[i];
            assert(active[i as int] == a@);
            let class = self.concrete_class(a.class.as_str());
            if self.same_args(a, needed) && same_text(class.as_str(), needed.class.as_str()) {
                return Some(i);
            }
            i += 1;
        }
        None
    }

    fn covering_dict(&self, needed: &Constraint) -> (r: Option<usize>)
        ensures
            r == self@.covering_dict(needed@, 0),
    {
        let ghost active = self@.scope.active;
        let mut i: usize = 0;
        while i < self.scope.active.len()
            invariant
                i <= self.scope.active.len(),
                active == self.scope.active.deep_view(),
                active == self@.scope.active,
                self@.covering_dict(needed@, 0) == self@.covering_dict(needed@, i as nat),
            decreases self.scope.active.len() - i,
        {
            assert(active[i as int] == self.scope.active@[i as int]@);
            if self.covers(&self.scope.active[i], needed) {
                return Some(i);
            }
            i += 1;
        }
        None
    }

    /// The dictionary for `needed`: an exact class match is preferred to a
    /// covering subclass dictionary, whose flattened layout holds superclass
    /// methods at trailing slots.
    pub fn dict_index_for(&self, needed: &Constraint) -> (r: Option<usize>)
        ensures
            r == self@.dict_index_for(needed@),
    {
        match self.exact_dict(needed) {
            Some(i) => Some(i),
            None => self.covering_dict(needed),
        }
    }

    /// The first dictionary on `var` that gives `class`, and its class.
    pub fn user_dict_index_and_class(&self, var: TyVarId, class: &str) -> (r: Option<(usize, String)>)
        ensures
            match r {
                Some((i, c)) => self@.user_dict(var, class@, 0) == Some((i, c@)),
                None => self@.user_dict(var, class@, 0) is None,
            },
    {
        let ghost active = self@.scope.active;
        let mut i: usize = 0;
        while i < self.scope.active.len()
            invariant
                i <= self.scope.active.len(),
                active == self.scope.active.deep_view(),
                active == self@.scope.active,
                self@.user_dict(var, class@, 0) == self@.user_dict(var, class@, i as nat),
            decreases self.scope.active.len() - i,
        {
            let a = &self.scope.active[i];
            assert(active[i as int] == a@);
            let concrete = self.concrete_class(a.class.as_str());
            if self.implies_class(concrete.as_str(), class) && a.primary_var() == Some(var) {
                return Some((i, concrete));
            }
            i += 1;
        }
        None
    }

    /// Bind an abstract constraint parameter to a class, the first time.
    pub fn bind_abstract_constraint(&mut self, name: &str, class: &str)
        ensures
            final(self)@ == old(self)@.bind_abstract_constraint(name@, class@),
    {
        if self.constraint_param_kind(name).is_none() {
            return;
        }
        let ghost frames = self@.scope.abstract_bindings;
        if let Some(mut frame) = self.scope.abstract_bindings.pop() {
            assert(frame@ == frames.last());
            if !frame.contains_key(name) {
                frame.insert(name.to_owned(), class.to_owned());
            }
            self.scope.abstract_bindings.push(frame);
            assert(self@.scope.abstract_bindings =~= old(self)@.bind_abstract_constraint(
                name@,
                class@,
            ).scope.abstract_bindings);
        }
    }

    /// Bind the abstract constraints on `var` to `class`.
    pub fn bind_matching_abstract_constraints(&mut self, var: Option<TyVarId>, class: &str)
        ensures
            final(self)@ == old(self)@.bind_matching_abstract_constraints(var, class@, 0),
    {
        let ghost whole = self@.bind_matching_abstract_constraints(var, class@, 0);
        let n = self.scope.active.len();
        let mut i: usize = 0;
        while i < n
            invariant
                i <= n,
                n == self.scope.active.len(),
                whole == self@.bind_matching_abstract_constraints(var, class@, i as nat),
            decreases n - i,
        {
            assert(self@.scope.active[i as int] == self.scope.active@[i as int]@);
            if constraint_touches(&self.scope.active[i], var) {
                let name = self.scope.active[i].class.clone();
                let ghost before = self@;
                self.bind_abstract_constraint(name.as_str(), class);
                assert(self@.scope.active == before.scope.active);
                assert(self@.scope.active.len() == self.scope.active.len());
            }
            i += 1;
        }
    }

    fn kinds_match(&self, def: &TypeClassDef, args: &Vec<Ty>) -> (r: bool)
        ensures
            r == forall|i: int|
                0 <= i < args.deep_view().len() ==> def@.kind_at(i) == self@.kind_of_type_argument(
                    #[trigger] args.deep_view()[i],
                ),
    {
        let ghost trees = args.deep_view();
        let mut i: usize = 0;
        while i < args.len()
            invariant
                i <= args.len(),
                trees == args.deep_view(),
                forall|j: int|
                    0 <= j < i ==> def@.kind_at(j) == self@.kind_of_type_argument(
                        #[trigger] trees[j],
                    ),
            decreases args.len() - i,
        {
            assert(trees[i as int] == args@[i as int]@);
            if def.kind_at(i) != self.kind_of_type_argument(&args[i]) {
                return false;
            }
            i += 1;
        }
        true
    }

    fn offers_method(&self, name: &str, args: &Vec<Ty>, method: &str) -> (r: bool)
        ensures
            r == self@.offers_method(name@, args.deep_view(), method@),
    {
        match self.reg.generics.typeclass(name) {
            Some(def) => def.type_params.len() == args.len() && find_method(
                &def.methods,
                method,
            ).is_some() && self.kinds_match(def, args),
            None => false,
        }
    }

    fn possible_classes_for_constraint_method(&self, c: &Constraint, method: &str) -> (r: Vec<
        String,
    >)
        ensures
            r.deep_view() == self@.possible_classes_for_constraint_method(c@, method@),
    {
        let mut out: Vec<String> = Vec::new();
        assert(out.deep_view() =~= Seq::<Seq<char>>::empty());
        if let Some(bound) = find_innermost(&self.scope.abstract_bindings, c.class.as_str()) {
            out.push(bound.clone());
            assert(out.deep_view() =~= seq![bound@]);
            return out;
        }
        if self.constraint_param_kind(c.class.as_str()).is_none() {
            out.push(c.class.clone());
            assert(out.deep_view() =~= seq![c.class@]);
            return out;
        }
        self.offering(&c.args, method)
    }

    fn offering(&self, args: &Vec<Ty>, method: &str) -> (r: Vec<String>)
        ensures
            r.deep_view() == self@.offering(
                self@.reg.generics.class_order,
                args.deep_view(),
                method@,
                0,
                Seq::empty(),
            ),
    {
        let mut out: Vec<String> = Vec::new();
        let ghost names = self@.reg.generics.class_order;
        let ghost trees = args.deep_view();
        assert(out.deep_view() =~= Seq::<Seq<char>>::empty());
        let ghost whole = self@.offering(names, trees, method@, 0, Seq::empty());
        let n = self.reg.generics.typeclasses.len();
        let mut i: usize = 0;
        while i < n
            invariant
                i <= n,
                n == names.len(),
                names == self.reg.generics.typeclasses.order(),
                trees == args.deep_view(),
                whole == self@.offering(names, trees, method@, i as nat, out.deep_view()),
            decreases n - i,
        {
            let name = self.reg.generics.typeclasses.key_at(i);
            let ghost before = out.deep_view();
            if self.offers_method(name.as_str(), args, method) {
                let s = name.clone();
                out.push(s);
                assert(out.deep_view() =~= before.push(s@));
            }
            i += 1;
        }
        out
    }

    fn method_scheme(&self, owner: &str, method: &str) -> (r: Option<&Scheme>)
        ensures
            match r {
                Some(s) => self@.reg.method_schemes.contains_key((owner@, method@))
                    && self@.reg.method_schemes[(owner@, method@)] == s@,
                None => !self@.reg.method_schemes.contains_key((owner@, method@)),
            },
    {
        let key = MethodKey { class: owner.to_owned(), method: method.to_owned() };
        assert(key.deep_view() == (owner@, method@));
        self.reg.method_schemes.get(&key)
    }

    fn class_candidates(
        &self,
        dict_index: usize,
        classes: &Vec<String>,
        method: &str,
        acc: &mut Vec<BoundMethod>,
    )
        ensures
            final(acc).deep_view() == self@.class_candidates(
                dict_index,
                classes.deep_view(),
                method@,
                0,
                old(acc).deep_view(),
            ),
    {
        let ghost names = classes.deep_view();
        let ghost whole = self@.class_candidates(dict_index, names, method@, 0, acc.deep_view());
        let mut i: usize = 0;
        while i < classes.len()
            invariant
                i <= classes.len(),
                names == classes.deep_view(),
                whole == self@.class_candidates(
                    dict_index,
                    names,
                    method@,
                    i as nat,
                    acc.deep_view(),
                ),
            decreases classes.len() - i,
        {
            assert(names[i as int] == classes@[i as int]@);
            let ghost before = acc.deep_view();
            if let Some((slot, owner)) = find_dict_slot(
                &self.reg.generics,
                classes[i].as_str(),
                method,
            ) {
                if let Some(scheme) = self.method_scheme(owner.as_str(), method) {
                    let m = BoundMethod {
                        dict_index,
                        dict_class: classes[i].clone(),
                        owner,
                        method_slot: slot,
                        scheme: scheme.clone(),
                    };
                    acc.push(m);
                    assert(acc.deep_view() =~= before.push(m@));
                }
            }
            i += 1;
        }
    }

    /// The methods named `method` that the active constraints on the receiver
    /// offer. A superclass method is found at its trailing slot of the
    /// flattened dictionary.
    pub fn bound_method_candidates(&self, method: &str, var: Option<TyVarId>) -> (r: Vec<
        BoundMethod,
    >)
        ensures
            r.deep_view() == self@.bound_method_candidates(method@, var, 0, Seq::empty()),
    {
        let mut acc: Vec<BoundMethod> = Vec::new();
        assert(acc.deep_view() =~= Seq::<BoundMethodV>::empty());
        let ghost whole = self@.bound_method_candidates(method@, var, 0, Seq::empty());
        let ghost active = self@.scope.active;
        let mut i: usize = 0;
        while i < self.scope.active.len()
            invariant
                i <= self.scope.active.len(),
                active == self@.scope.active,
                active == self.scope.active.deep_view(),
                whole == self@.bound_method_candidates(method@, var, i as nat, acc.deep_view()),
            decreases self.scope.active.len() - i,
        {
            assert(active[i as int] == self.scope.active@[i as int]@);
            if constraint_touches(&self.scope.active[i], var) {
                let classes = self.possible_classes_for_constraint_method(
                    &self.scope.active[i],
                    method,
                );
                self.class_candidates(i, &classes, method, &mut acc);
            }
            i += 1;
        }
        acc
    }

    /// The owner, the slot and the scheme of a method of an existential.
    pub fn existential_method_candidate(&self, class: &str, method: &str) -> (r: Option<
        (String, usize, Scheme),
    >)
        ensures
            match r {
                Some((owner, slot, scheme)) => self@.existential_method_candidate(class@, method@)
                    == Some((owner@, slot, scheme@)),
                None => self@.existential_method_candidate(class@, method@) is None,
            },
    {
        match find_dict_slot(&self.reg.generics, class, method) {
            Some((slot, owner)) => match self.method_scheme(owner.as_str(), method) {
                Some(scheme) => {
                    let s = scheme.clone();
                    Some((owner, slot, s))
                },
                None => None,
            },
            None => None,
        }
    }

    /// The only candidate. Several candidates are reported.
    pub fn select_bound_method(
        &mut self,
        candidates: Vec<BoundMethod>,
        method: &str,
        range: Span,
    ) -> (r: Option<BoundMethod>)
        ensures
            (final(self)@, r.deep_view()) == old(self)@.select_bound_method(
                candidates.deep_view(),
                method@,
                range,
            ),
    {
        let mut candidates = candidates;
        if candidates.len() > 1 {
            self.say(
                ErrorCode::GenericTypeError,
                cat3("Ambiguous trait method `", method, "`"),
                range,
            );
            return None;
        }
        candidates.pop()
    }

    fn fitting_methods(&mut self, method: &str, recv: &Ty) -> (r: Vec<(String, Scheme)>)
        ensures
            (final(self)@, r.deep_view()) == old(self)@.fitting_methods(
                method@,
                recv@,
                0,
                Seq::empty(),
            ),
    {
        let mut acc: Vec<(String, Scheme)> = Vec::new();
        assert(acc.deep_view() =~= Seq::<(Seq<char>, SchemeV)>::empty());
        let ghost whole = self@.fitting_methods(method@, recv@, 0, Seq::empty());
        let n = self.reg.method_schemes.len();
        let mut i: usize = 0;
        while i < n
            invariant
                i <= n,
                n == self.reg.method_schemes.order().len(),
                whole == self@.fitting_methods(method@, recv@, i as nat, acc.deep_view()),
            decreases n - i,
        {
            let ghost before = acc.deep_view();
            let key = self.reg.method_schemes.key_at(i);
            if same_text(key.method.as_str(), method) {
                if let Some(scheme) = self.reg.method_schemes.get(key) {
                    let (t, _, _) = instantiate_with_kinds(scheme, &mut self.counter);
                    if let Ty::Fun(param, _) = &t {
                        assert(t@.kids()[0] == param@);
                        if unify_with(&self.subst, param, recv).is_ok() {
                            let pair = (key.class.clone(), scheme.clone());
                            acc.push(pair);
                            assert(acc.deep_view() =~= before.push((pair.0@, pair.1@)));
                        }
                    }
                }
            }
            i += 1;
        }
        acc
    }

    /// Resolve a ground trait method call on a concrete receiver (`recv.into()`,
    /// `recv.show()`, ..) when no open bound is active: the class and the scheme
    /// when exactly one registered method named `method` has a first parameter
    /// that unifies with the receiver.
    pub fn ground_trait_method_for_receiver(&mut self, method: &str, recv_ty: &Ty) -> (r: Option<
        (String, Scheme),
    >)
        ensures
            (final(self)@, r.deep_view()) == old(self)@.ground_trait_method_for_receiver(
                method@,
                recv_ty@,
            ),
    {
        let recv = self.resolve(recv_ty);
        let mut fitting = self.fitting_methods(method, &recv);
        if fitting.len() == 1 {
            fitting.pop()
        } else {
            None
        }
    }

    /// Instantiate a scheme and record the kinds of the fresh variables: the
    /// type, the constraints and what the quantified variables became.
    pub fn instantiate_scheme_mapped(&mut self, scheme: &Scheme) -> (r: (Ty, Vec<Constraint>, Subst))
        ensures
            (final(self)@, r.0@, r.1.deep_view(), r.2@) == old(
                self,
            )@.instantiate_scheme_mapped(scheme@),
    {
        let ghost start = self@;
        let next = self.counter.next;
        let mut again = crate::env::TyVarCounter { next };
        let (mapping, _) = crate::env::freshen(&scheme.bounds, &mut again);
        let (ty, constraints, kinds) = instantiate_with_kinds(scheme, &mut self.counter);
        let ghost whole = with_kinds(self@.scope.var_kinds, kinds@, 0);
        let mut i: usize = 0;
        while i < kinds.len()
            invariant
                i <= kinds.len(),
                whole == with_kinds(self@.scope.var_kinds, kinds@, i as nat),
                self@ == (CheckerV {
                    counter: self@.counter,
                    scope: ScopesV { var_kinds: self@.scope.var_kinds, ..start.scope },
                    ..start
                }),
                self@.counter == env::bump_by(start.counter, scheme@.bounds.len()),
            decreases kinds.len() - i,
        {
            self.set_var_kind(kinds[i].0, kinds[i].1.clone());
            i += 1;
        }
        (ty, constraints, mapping)
    }

    /// Instantiate a scheme with its constraints.
    pub fn instantiate_scheme(&mut self, scheme: &Scheme) -> (r: (Ty, Vec<Constraint>))
        ensures
            (final(self)@, r.0@, r.1.deep_view()) == old(self)@.instantiate_scheme(scheme@),
    {
        let (ty, constraints, _) = self.instantiate_scheme_mapped(scheme);
        (ty, constraints)
    }

    /// Instantiate the type of a scheme.
    pub fn instantiate_ty(&mut self, scheme: &Scheme) -> (r: Ty)
        ensures
            (final(self)@, r@) == old(self)@.instantiate_ty(scheme@),
    {
        let (ty, _, _) = self.instantiate_scheme_mapped(scheme);
        ty
    }

    fn owner_fits(&self, owner: TyVarId, inst: &InstanceDef) -> (r: bool)
        ensures
            r == self@.owner_fits(owner, inst@),
    {
        let owner_ty = self.resolve(&Ty::Var(owner));
        let ghost args = inst@.args;
        let mut i: usize = 0;
        while i < inst.args.len()
            invariant
                i <= inst.args.len(),
                args == inst.args.deep_view(),
                args == inst@.args,
                owner_ty@ == self@.resolve(Tree::Var(owner)),
                forall|j: int|
                    0 <= j < i ==> !(unify::unified(
                        self@.subst,
                        owner_ty@,
                        #[trigger] args[j],
                    ) is Ok),
            decreases inst.args.len() - i,
        {
            assert(args[i as int] == inst.args@[i as int]@);
            if unify_with(&self.subst, &owner_ty, &inst.args[i]).is_ok() {
                return true;
            }
            i += 1;
        }
        false
    }

    /// After an instance was discharged, pin the open associated-type
    /// projections whose owner matches the instance.
    pub fn pin_assoc_types_for_instance(&mut self, class: &str, instance: &InstanceDef, range: Span)
        ensures
            final(self)@ == old(self)@.pin_assoc_types_for_instance(class@, instance@, range),
    {
        let def = match self.reg.generics.typeclass(class) {
            Some(d) => d.dup(),
            None => {
                return;
            },
        };
        if def.assoc_types.len() == 0 {
            return;
        }
        let ghost whole = self@.pin_open(def@, instance@, range, 0);
        let n = self.scope.open_projections.len();
        let mut i: usize = 0;
        while i < n
            invariant
                i <= n,
                n == self@.scope.open_projections.len(),
                whole == self@.pin_open(def@, instance@, range, i as nat),
            decreases n - i,
        {
            let p = self.scope.open_projections[i].dup();
            assert(self@.scope.open_projections[i as int] == p@);
            if def.assoc_type(p.name.as_str()).is_some() && self.owner_fits(p.owner, instance) {
                if let Some(value) = instance.assoc_tys.get(p.name.as_str()) {
                    let concrete = self.instantiate_assoc_value(value, &p.args);
                    let what = cat3("associated type `", p.name.as_str(), "`");
                    let _ = self.unify(&Ty::Var(p.var), &concrete, range, what.as_str());
                }
            }
            i += 1;
        }
    }

    fn scheme_pins(&self, instance: &InstanceDef, scheme: &Scheme, mapping: &Subst) -> (r: Vec<
        (String, Ty, Ty),
    >)
        ensures
            r.deep_view() == self@.scheme_pins(
                instance@,
                scheme@.projections,
                mapping@,
                0,
                Seq::empty(),
            ),
    {
        let mut acc: Vec<(String, Ty, Ty)> = Vec::new();
        assert(acc.deep_view() =~= Seq::<(Seq<char>, Tree, Tree)>::empty());
        let ghost ps = scheme@.projections;
        let ghost whole = self@.scheme_pins(instance@, ps, mapping@, 0, Seq::empty());
        let mut i: usize = 0;
        while i < scheme.assoc_projections.len()
            invariant
                i <= scheme.assoc_projections.len(),
                ps == scheme.assoc_projections.deep_view(),
                whole == self@.scheme_pins(instance@, ps, mapping@, i as nat, acc.deep_view()),
            decreases scheme.assoc_projections.len() - i,
        {
            let p = &scheme.assoc_projections[i];
            assert(ps[i as int] == p@);
            let ghost before = acc.deep_view();
            if let Some(fresh) = mapping.get(p.var) {
                if let Some(value) = instance.assoc_tys.get(p.name.as_str()) {
                    let args = apply_tys(mapping, &p.args);
                    let concrete = self.instantiate_assoc_value(value, &args);
                    let pin = (p.name.clone(), fresh.clone(), concrete);
                    acc.push(pin);
                    assert(acc.deep_view() =~= before.push((pin.0@, pin.1@, pin.2@)));
                }
            }
            i += 1;
        }
        acc
    }

    /// Pin the fresh associated-type variables of a trait method scheme against
    /// a concrete instance.
    pub fn pin_assoc_vars_from_mapping(
        &mut self,
        class: &str,
        instance: &InstanceDef,
        scheme: &Scheme,
        mapping: &Subst,
        range: Span,
    )
        ensures
            final(self)@ == old(self)@.pin_assoc_vars_from_mapping(
                class@,
                instance@,
                scheme@,
                mapping@,
                range,
            ),
    {
        if self.reg.generics.typeclass(class).is_none() {
            return;
        }
        let pins = self.scheme_pins(instance, scheme, mapping);
        let ghost all = pins.deep_view();
        let ghost whole = self@.unify_pins(all, range, 0);
        let mut i: usize = 0;
        while i < pins.len()
            invariant
                i <= pins.len(),
                all == pins.deep_view(),
                whole == self@.unify_pins(all, range, i as nat),
            decreases pins.len() - i,
        {
            assert(all[i as int] == (
                pins@[i as int].0@,
                pins@[i as int].1@,
                pins@[i as int].2@,
            ));
            let what = cat3("associated type `", pins[i].0.as_str(), "`");
            let _ = self.unify(&pins[i].1, &pins[i].2, range, what.as_str());
            i += 1;
        }
    }

    fn record_call_site_dict(&mut self, call: Option<NodeId>, range: Span, instance: InstanceDef)
        ensures
            final(self)@ == old(self)@.record_call_site_dict(call, range, instance@),
    {
        if let Some(id) = call {
            push_at(&mut self.out.call_dicts, id, instance.dup());
        }
        push_at(&mut self.out.call_dicts_by_span, range, instance);
    }

    fn record_forward_dict(&mut self, call: Option<NodeId>, range: Span, index: usize)
        ensures
            final(self)@ == old(self)@.record_forward_dict(call, range, index),
    {
        if let Some(id) = call {
            push_at(&mut self.out.forward_dicts, id, index);
            push_at(&mut self.out.forward_dicts_by_span, range, index);
        }
    }

    fn discharge_constraint(&mut self, call: Option<NodeId>, c: &Constraint, range: Span)
        ensures
            final(self)@ == old(self)@.discharge_constraint(call, c@, range),
    {
        let args = self.resolve_all(&c.args);
        let open = has_open(&args);
        let needed = Constraint { class: c.class.clone(), args };
        if open && self.constraint_is_covered(&needed) {
            if let Some(i) = self.dict_index_for(&needed) {
                self.record_forward_dict(call, range, i);
            }
            return;
        }
        match self.find_unique_instance(c.class.as_str(), &needed.args, range) {
            Ok(Some(inst)) => {
                self.record_call_site_dict(call, range, inst.dup());
                self.pin_assoc_types_for_instance(c.class.as_str(), &inst, range);
            },
            Ok(None) => {
                let pretty = instance_signature(c.class.as_str(), &needed.args);
                let start = if open {
                    "Cannot satisfy constraint `"
                } else {
                    "No instance for `"
                };
                self.say(
                    ErrorCode::GenericTypeError,
                    cat3(start, pretty.as_str(), "`"),
                    range,
                );
            },
            Err(()) => {},
        }
    }

    /// Discharge freshened trait constraints from a generic call site.
    ///
    /// Every argument is resolved under the current substitution. If one is
    /// still open and an active constraint covers the whole predicate, the
    /// dictionary in scope is forwarded; otherwise the unique instance is
    /// looked up, which may bind what is open. Chosen instances are stored by
    /// call site for code generation.
    pub fn discharge_constraints(
        &mut self,
        call: Option<NodeId>,
        constraints: &Vec<Constraint>,
        range: Span,
    )
        ensures
            final(self)@ == old(self)@.discharge_constraints(
                call,
                constraints.deep_view(),
                range,
                0,
            ),
    {
        let ghost all = constraints.deep_view();
        let ghost whole = self@.discharge_constraints(call, all, range, 0);
        let mut i: usize = 0;
        while i < constraints.len()
            invariant
                i <= constraints.len(),
                all == constraints.deep_view(),
                whole == self@.discharge_constraints(call, all, range, i as nat),
            decreases constraints.len() - i,
        {
            assert(all[i as int] == constraints@[i as int]@);
            self.discharge_constraint(call, &constraints[i], range);
            i += 1;
        }
    }

    /// After discharging constraints for a trait method call, pin freshened
    /// associated-type variables from the scheme mapping.
    pub fn pin_assoc_after_discharge(
        &mut self,
        class: &str,
        constraints: &Vec<Constraint>,
        scheme: Option<&Scheme>,
        mapping: &Subst,
        range: Span,
    )
        ensures
            final(self)@ == old(self)@.pin_assoc_after_discharge(
                class@,
                constraints.deep_view(),
                match scheme {
                    Some(s) => Some(s@),
                    None => None,
                },
                mapping@,
                range,
                0,
            ),
    {
        let ghost all = constraints.deep_view();
        let ghost sv = match scheme {
            Some(s) => Some(s@),
            None => None,
        };
        let ghost whole = self@.pin_assoc_after_discharge(class@, all, sv, mapping@, range, 0);
        let any_class = class.unicode_len() == 0;
        let mut i: usize = 0;
        while i < constraints.len()
            invariant
                i <= constraints.len(),
                all == constraints.deep_view(),
                any_class == (class@.len() == 0),
                sv == (match scheme {
                    Some(s) => Some(s@),
                    None => None,
                }),
                whole == self@.pin_assoc_after_discharge(
                    class@,
                    all,
                    sv,
                    mapping@,
                    range,
                    i as nat,
                ),
            decreases constraints.len() - i,
        {
            let c = &constraints[i];
            assert(all[i as int] == c@);
            let args = self.resolve_all(&c.args);
            if (any_class || same_text(c.class.as_str(), class)) && !has_open(&args) {
                if let Ok(Some(inst)) = self.find_unique_instance(
                    c.class.as_str(),
                    &args,
                    range,
                ) {
                    if let Some(s) = scheme {
                        self.pin_assoc_vars_from_mapping(
                            c.class.as_str(),
                            &inst,
                            s,
                            mapping,
                            range,
                        );
                    }
                    self.pin_assoc_types_for_instance(c.class.as_str(), &inst, range);
                }
            }
            i += 1;
        }
    }

    fn operator_slot(&self, var: TyVarId, class: &str, method: &str) -> (r: Option<(usize, usize)>)
        ensures
            r == self@.operator_slot(var, class@, method@),
    {
        match self.user_dict_index_and_class(var, class) {
            Some((index, dict_class)) => match find_dict_slot(
                &self.reg.generics,
                dict_class.as_str(),
                method,
            ) {
                Some((slot, _)) => Some((index, slot)),
                None => None,
            },
            None => None,
        }
    }

    /// Record that an operator goes through a dictionary in scope.
    pub fn record_bound_operator(
        &mut self,
        id: Option<NodeId>,
        range: Span,
        var: TyVarId,
        class: &str,
        method: &str,
    )
        ensures
            final(self)@ == old(self)@.record_bound_operator(id, range, var, class@, method@),
    {
        if let Some((dict_index, method_slot)) = self.operator_slot(var, class, method) {
            let hint = BoundOperatorCall { dict_index, method_slot };
            if let Some(id) = id {
                self.out.operator_calls.insert(id, hint);
            }
            self.out.operator_calls_by_span.insert(range, hint);
        }
    }

    /// Record that a displayed value goes through a dictionary in scope.
    pub fn record_bound_display(&mut self, range: Span, var: TyVarId)
        ensures
            final(self)@ == old(self)@.record_bound_display(range, var),
    {
        if let Some((dict_index, method_slot)) = self.operator_slot(var, "Show", "show") {
            let hint = BoundDisplayCall { dict_index, method_slot };
            self.out.display_calls_by_span.insert(range, hint);
        }
    }
}

} // verus!
