//! Typeclass and instance registry for userland generics.
//!
//! Stores the shapes of typeclasses (`Num<T>`, `Eq<T>`, ...) and registered
//! implementations (`impl Num<int>`, `impl Num<float>`, ...). The checker owns
//! one [`Generics`] value and delegates type-class resolution to it.
use crate::env::copy_kinds;
use crate::kind::{self, Kind};
use crate::maps::{self, Dup, KeyMap, MapKey, NameMap, NameSet, lists_name};
use crate::report::Span;
use crate::subst::{self, Subst};
use crate::text::{cat3, cat5, same_text};
use crate::tree::Tree;
use crate::ty::{Ty, TyVarId, boolean, byte, copy_tys, copy_vars, float, int_ty, same_ty_slices, string, tys1, unit};
use crate::unify::{self, unify_with};
use vstd::prelude::*;

verus! {

/// One method slot in a typeclass declaration.
#[derive(Debug)]
pub struct TypeClassMethodDef {
    /// Short method name (e.g. `"add"`).
    pub name: String,
    /// `true` when the class body contains a default implementation
    /// (a `Function` with a non-empty body).
    pub has_default: bool,
}

/// The model of a [`TypeClassMethodDef`].
#[verifier::ext_equal]
pub struct MethodV {
    pub name: Seq<char>,
    pub has_default: bool,
}

impl View for TypeClassMethodDef {
    type V = MethodV;

    open spec fn view(&self) -> MethodV {
        MethodV { name: self.name@, has_default: self.has_default }
    }
}

impl DeepView for TypeClassMethodDef {
    type V = MethodV;

    open spec fn deep_view(&self) -> MethodV {
        self@
    }
}

/// An associated type that a class declares, with its own parameters.
#[derive(Debug)]
pub struct AssocTypeDecl {
    pub name: String,
    pub params: Vec<String>,
    pub param_kinds: Vec<Kind>,
}

/// The model of an [`AssocTypeDecl`].
#[verifier::ext_equal]
pub struct AssocDeclV {
    pub name: Seq<char>,
    pub params: Seq<Seq<char>>,
    pub param_kinds: Seq<Kind>,
}

impl View for AssocTypeDecl {
    type V = AssocDeclV;

    open spec fn view(&self) -> AssocDeclV {
        AssocDeclV {
            name: self.name@,
            params: self.params.deep_view(),
            param_kinds: self.param_kinds@,
        }
    }
}

impl DeepView for AssocTypeDecl {
    type V = AssocDeclV;

    open spec fn deep_view(&self) -> AssocDeclV {
        self@
    }
}

/// What an instance says an associated type is: `ty` over `param_vars`.
#[derive(Debug)]
pub struct AssocTypeValue {
    pub params: Vec<String>,
    pub param_vars: Vec<TyVarId>,
    pub param_kinds: Vec<Kind>,
    pub ty: Ty,
}

/// The model of an [`AssocTypeValue`].
#[verifier::ext_equal]
pub struct AssocValueV {
    pub params: Seq<Seq<char>>,
    pub param_vars: Seq<TyVarId>,
    pub param_kinds: Seq<Kind>,
    pub ty: Tree,
}

impl View for AssocTypeValue {
    type V = AssocValueV;

    open spec fn view(&self) -> AssocValueV {
        AssocValueV {
            params: self.params.deep_view(),
            param_vars: self.param_vars@,
            param_kinds: self.param_kinds@,
            ty: self.ty@,
        }
    }
}

impl DeepView for AssocTypeValue {
    type V = AssocValueV;

    open spec fn deep_view(&self) -> AssocValueV {
        self@
    }
}

/// The shape of a typeclass: its name, type parameters, and methods.
///
/// E.g. `typeclass Num<T> { fn add(T a, T b) -> T; fn sub(..) -> T; }`
/// is stored with `name: "Num"`, `type_params: ["T"]` and one method slot for
/// each of `add` and `sub`.
///
/// Superclasses: `typeclass Ordered<T: Equal>` stores `superclasses:
/// ["Equal"]`. Dictionary layout is flattened: subclass methods first, then
/// each superclass's methods in declaration order (transitively).
///
/// Associated types: `typeclass Collect<C> { type Elem; .. }` stores the
/// declaration of `Elem`. Method schemes quantify class params first, then
/// associated types in this order.
#[derive(Debug)]
pub struct TypeClassDef {
    pub name: String,
    /// Type-parameter names in declaration order, e.g. `["T"]`.
    pub type_params: Vec<String>,
    /// Kinds of each type parameter (parallel to `type_params`).
    /// Empty means every parameter has kind `*`.
    pub param_kinds: Vec<Kind>,
    /// Direct superclass class names from single-parameter bounds
    /// (`typeclass Ord<T: Eq>` gives `["Eq"]`). Empty for multi-param classes
    /// and classes without bounds.
    pub superclasses: Vec<String>,
    /// Associated types in declaration order.
    pub assoc_types: Vec<AssocTypeDecl>,
    pub methods: Vec<TypeClassMethodDef>,
}

/// The model of a [`TypeClassDef`].
#[verifier::ext_equal]
pub struct ClassV {
    pub name: Seq<char>,
    pub type_params: Seq<Seq<char>>,
    pub param_kinds: Seq<Kind>,
    pub superclasses: Seq<Seq<char>>,
    pub assoc_types: Seq<AssocDeclV>,
    pub methods: Seq<MethodV>,
}

impl View for TypeClassDef {
    type V = ClassV;

    open spec fn view(&self) -> ClassV {
        ClassV {
            name: self.name@,
            type_params: self.type_params.deep_view(),
            param_kinds: self.param_kinds@,
            superclasses: self.superclasses.deep_view(),
            assoc_types: self.assoc_types.deep_view(),
            methods: self.methods.deep_view(),
        }
    }
}

impl DeepView for TypeClassDef {
    type V = ClassV;

    open spec fn deep_view(&self) -> ClassV {
        self@
    }
}

/// One registered typeclass instance (concrete type to implementation mapping).
///
/// E.g. `impl Num<int> { fn add(..) { .. } }` is stored with `class: "Num"`,
/// `args: [int]` and `method_fqns` that maps `"add"` to `"Num__int__add"`.
///
/// Associated types: `impl Collect<Option<int>> { type Elem = int; .. }`
/// stores what `Elem` is in `assoc_tys`.
#[derive(Debug)]
pub struct InstanceDef {
    /// Class name this instance implements (e.g. `"Num"`).
    pub class: String,
    /// Concrete type arguments (e.g. `[int]` for `impl Num<int>`).
    pub args: Vec<Ty>,
    /// Method name to fully-qualified codegen name.
    pub method_fqns: NameMap<String>,
    /// Associated type name to what it is.
    pub assoc_tys: NameMap<AssocTypeValue>,
}

/// The model of an [`InstanceDef`].
#[verifier::ext_equal]
pub struct InstV {
    pub class: Seq<char>,
    pub args: Seq<Tree>,
    pub method_fqns: Map<Seq<char>, Seq<char>>,
    pub assoc_tys: Map<Seq<char>, AssocValueV>,
}

impl View for InstanceDef {
    type V = InstV;

    open spec fn view(&self) -> InstV {
        InstV {
            class: self.class@,
            args: self.args.deep_view(),
            method_fqns: self.method_fqns@,
            assoc_tys: self.assoc_tys@,
        }
    }
}

impl DeepView for InstanceDef {
    type V = InstV;

    open spec fn deep_view(&self) -> InstV {
        self@
    }
}

/// Where an instance was declared.
#[derive(Debug)]
pub struct InstanceOrigin {
    pub module: String,
    pub range: Span,
}

/// The model of an [`InstanceOrigin`].
#[verifier::ext_equal]
pub struct OriginV {
    pub module: Seq<char>,
    pub range: Span,
}

impl View for InstanceOrigin {
    type V = OriginV;

    open spec fn view(&self) -> OriginV {
        OriginV { module: self.module@, range: self.range }
    }
}

impl DeepView for InstanceOrigin {
    type V = OriginV;

    open spec fn deep_view(&self) -> OriginV {
        self@
    }
}

/// The place of an instance in the registry.
#[derive(Debug, Clone, Copy, PartialEq, Eq, Structural)]
pub struct InstanceId(pub usize);

impl DeepView for InstanceId {
    type V = InstanceId;

    open spec fn deep_view(&self) -> InstanceId {
        *self
    }
}

impl MapKey for InstanceId {
    type Probe = InstanceId;

    open spec fn probe(p: &InstanceId) -> InstanceId {
        *p
    }

    fn matches(&self, p: &InstanceId) -> (r: bool) {
        self.0 == p.0
    }

    fn as_probe(&self) -> (p: &InstanceId) {
        self
    }
}

/// Registry of typeclasses and their instances.
#[derive(Debug)]
pub struct Generics {
    /// All declared typeclasses.
    pub typeclasses: NameMap<TypeClassDef>,
    /// All registered instances (in declaration order).
    pub instances: Vec<InstanceDef>,
    /// Generic type constructors: enum/class/alias name to type param names.
    pub generic_type_ctors: NameMap<Vec<String>>,
    /// Generic function names (have at least one type param).
    pub generic_fns: NameSet,
    /// The module that declared each user type.
    pub nominal_type_modules: NameMap<String>,
    /// The module that declared each class.
    pub class_modules: NameMap<String>,
    /// Where the instances of the program were declared.
    pub instance_origins: KeyMap<InstanceId, InstanceOrigin>,
}

/// The model of a [`Generics`] registry.
#[verifier::ext_equal]
pub struct GenericsV {
    pub typeclasses: Map<Seq<char>, ClassV>,
    /// The class names, in the order of their first declaration.
    pub class_order: Seq<Seq<char>>,
    pub instances: Seq<InstV>,
    pub generic_type_ctors: Map<Seq<char>, Seq<Seq<char>>>,
    pub generic_fns: Set<Seq<char>>,
    pub nominal_type_modules: Map<Seq<char>, Seq<char>>,
    pub class_modules: Map<Seq<char>, Seq<char>>,
    pub instance_origins: Map<InstanceId, OriginV>,
}

impl View for Generics {
    type V = GenericsV;

    open spec fn view(&self) -> GenericsV {
        GenericsV {
            typeclasses: self.typeclasses@,
            class_order: self.typeclasses.order(),
            instances: self.instances.deep_view(),
            generic_type_ctors: self.generic_type_ctors@,
            generic_fns: self.generic_fns@,
            nominal_type_modules: self.nominal_type_modules@,
            class_modules: self.class_modules@,
            instance_origins: self.instance_origins@,
        }
    }
}

impl Dup for TypeClassMethodDef {
    fn dup(&self) -> (r: Self) {
        TypeClassMethodDef { name: self.name.clone(), has_default: self.has_default }
    }
}

impl Dup for AssocTypeDecl {
    fn dup(&self) -> (r: Self) {
        AssocTypeDecl {
            name: self.name.clone(),
            params: self.params.dup(),
            param_kinds: copy_kinds(&self.param_kinds),
        }
    }
}

impl Dup for AssocTypeValue {
    fn dup(&self) -> (r: Self) {
        AssocTypeValue {
            params: self.params.dup(),
            param_vars: copy_vars(&self.param_vars),
            param_kinds: copy_kinds(&self.param_kinds),
            ty: self.ty.clone(),
        }
    }
}

impl Dup for TypeClassDef {
    fn dup(&self) -> (r: Self) {
        TypeClassDef {
            name: self.name.clone(),
            type_params: self.type_params.dup(),
            param_kinds: copy_kinds(&self.param_kinds),
            superclasses: self.superclasses.dup(),
            assoc_types: self.assoc_types.dup(),
            methods: self.methods.dup(),
        }
    }
}

impl Dup for InstanceDef {
    fn dup(&self) -> (r: Self) {
        InstanceDef {
            class: self.class.clone(),
            args: copy_tys(&self.args),
            method_fqns: self.method_fqns.dup(),
            assoc_tys: self.assoc_tys.dup(),
        }
    }
}

impl Clone for TypeClassMethodDef {
    fn clone(&self) -> (r: Self)
        ensures
            r@ == self@,
    {
        self.dup()
    }
}

impl Clone for TypeClassDef {
    fn clone(&self) -> (r: Self)
        ensures
            r@ == self@,
    {
        self.dup()
    }
}

impl Clone for InstanceDef {
    fn clone(&self) -> (r: Self)
        ensures
            r@ == self@,
    {
        self.dup()
    }
}

impl ClassV {
    /// The kind of parameter `i`.
    pub open spec fn kind_at(self, i: int) -> Kind {
        if 0 <= i < self.param_kinds.len() {
            self.param_kinds[i]
        } else {
            Kind::Type
        }
    }
}

impl TypeClassDef {
    /// Kind of parameter `i`, defaulting to `*`.
    pub fn kind_at(&self, i: usize) -> (r: Kind)
        ensures
            r == self@.kind_at(i as int),
    {
        if i < self.param_kinds.len() {
            self.param_kinds[i].clone()
        } else {
            Kind::Type
        }
    }

    /// True when parameter `i` is constructor-kinded.
    pub fn is_constructor_kind_at(&self, i: usize) -> (r: bool)
        ensures
            r == (self@.kind_at(i as int) is Arrow),
    {
        self.kind_at(i).is_constructor_kind()
    }

    /// Constructor arity of parameter `i`, if it is constructor-kinded.
    pub fn constructor_arity_at(&self, i: usize) -> (r: Option<usize>)
        ensures
            r == (if self@.kind_at(i as int) is Arrow {
                Some(kind::capped(self@.kind_at(i as int).args_spec().len()))
            } else {
                None
            }),
    {
        let kind = self.kind_at(i);
        if kind.is_constructor_kind() {
            Some(kind.arity())
        } else {
            None
        }
    }
}

/// `path` climbs from one of `from` along superclasses that are registered.
pub open spec fn climbs(
    classes: Map<Seq<char>, ClassV>,
    from: Seq<Seq<char>>,
    path: Seq<Seq<char>>,
) -> bool {
    &&& path.len() > 0
    &&& from.contains(path[0])
    &&& forall|i: int|
        0 <= i < path.len() - 1 ==> classes.contains_key(#[trigger] path[i])
            && classes[path[i]].superclasses.contains(path[i + 1])
}

/// `name` is one of `from`, or a superclass of one of them, at any distance.
pub open spec fn is_above(
    classes: Map<Seq<char>, ClassV>,
    from: Seq<Seq<char>>,
    name: Seq<char>,
) -> bool {
    exists|path: Seq<Seq<char>>| #[trigger] climbs(classes, from, path) && path.last() == name
}

/// The superclasses of all classes in `keys`.
spec fn all_supers(classes: Map<Seq<char>, ClassV>, keys: Seq<Seq<char>>) -> Seq<Seq<char>>
    decreases keys.len(),
{
    if keys.len() == 0 {
        Seq::empty()
    } else {
        all_supers(classes, keys.drop_last()) + classes[keys.last()].superclasses
    }
}

proof fn all_supers_holds(
    classes: Map<Seq<char>, ClassV>,
    keys: Seq<Seq<char>>,
    k: Seq<char>,
    s: Seq<char>,
)
    requires
        keys.contains(k),
        classes[k].superclasses.contains(s),
    ensures
        all_supers(classes, keys).contains(s),
    decreases keys.len(),
{
    let init = keys.drop_last();
    let x = all_supers(classes, init);
    let y = classes[keys.last()].superclasses;
    if keys.last() == k {
        let i = choose|i: int| 0 <= i < y.len() && y[i] == s;
        assert((x + y)[x.len() + i] == s);
    } else {
        let j = choose|j: int| 0 <= j < keys.len() && keys[j] == k;
        assert(init[j] == k);
        all_supers_holds(classes, init, k, s);
        let i = choose|i: int| 0 <= i < x.len() && x[i] == s;
        assert((x + y)[i] == s);
    }
}

/// One more step up a climb.
proof fn climb_on(
    classes: Map<Seq<char>, ClassV>,
    from: Seq<Seq<char>>,
    name: Seq<char>,
    next: Seq<char>,
)
    requires
        is_above(classes, from, name),
        classes.contains_key(name),
        classes[name].superclasses.contains(next),
    ensures
        is_above(classes, from, next),
{
    let path = choose|path: Seq<Seq<char>>|
        #[trigger] climbs(classes, from, path) && path.last() == name;
    let longer = path.push(next);
    assert forall|i: int| 0 <= i < longer.len() - 1 implies classes.contains_key(
        #[trigger] longer[i],
    ) && classes[longer[i]].superclasses.contains(longer[i + 1]) by {
        if i < path.len() - 1 {
            assert(path[i] == longer[i] && path[i + 1] == longer[i + 1]);
        }
    }
    assert(climbs(classes, from, longer));
    assert(longer.last() == next);
}

/// A set that holds `from` and every superclass of its members holds all that
/// is above `from`.
proof fn closed_set_holds_path(
    classes: Map<Seq<char>, ClassV>,
    from: Seq<Seq<char>>,
    seen: Set<Seq<char>>,
    path: Seq<Seq<char>>,
    i: int,
)
    requires
        climbs(classes, from, path),
        0 <= i < path.len(),
        forall|s: Seq<char>| #[trigger] from.contains(s) ==> seen.contains(s),
        forall|s: Seq<char>, t: Seq<char>|
            seen.contains(s) && classes.contains_key(s) && #[trigger] classes[s].superclasses.contains(
                t,
            ) ==> seen.contains(t),
    ensures
        seen.contains(path[i]),
    decreases i,
{
    if i > 0 {
        closed_set_holds_path(classes, from, seen, path, i - 1);
        assert(classes.contains_key(path[i - 1]));
        assert(classes[path[i - 1]].superclasses.contains(path[i - 1 + 1]));
    }
}

impl TypeClassDef {
    /// True when `name` is a transitive superclass of this class.
    pub fn has_superclass(&self, name: &str, generics: &Generics) -> (r: bool)
        ensures
            r == is_above(generics@.typeclasses, self@.superclasses, name@),
    {
        let ghost classes = generics@.typeclasses;
        let ghost from = self@.superclasses;
        let mut seen = NameSet::new();
        let mut stack: Vec<String> = self.superclasses.dup();
        let ghost keys = generics.typeclasses.order();
        let ghost reach = from + all_supers(classes, keys);
        let ghost universe = reach.to_set();
        proof {
            generics.typeclasses.order_holds_keys();
            vstd::seq_lib::seq_to_set_is_finite(reach);
            assert forall|i: int| 0 <= i < stack.len() implies universe.contains(
                #[trigger] stack.deep_view()[i],
            ) && is_above(classes, from, stack.deep_view()[i]) by {
                let s = stack.deep_view()[i];
                assert(reach[i] == s);
                assert(from.contains(s));
                let path = seq![s];
                assert(climbs(classes, from, path));
                assert(path.last() == s);
            }
            assert forall|s: Seq<char>| #[trigger] from.contains(s) implies seen@.contains(s)
                || stack.deep_view().contains(s) by {}
        }
        while stack.len() > 0
            invariant
                classes == generics@.typeclasses,
                from == self@.superclasses,
                keys == generics.typeclasses.order(),
                reach == from + all_supers(classes, keys),
                universe == reach.to_set(),
                universe.finite(),
                forall|k: Seq<char>| classes.contains_key(k) <==> keys.contains(k),
                forall|i: int|
                    0 <= i < stack.len() ==> universe.contains(#[trigger] stack.deep_view()[i])
                        && is_above(classes, from, stack.deep_view()[i]),
                !seen@.contains(name@),
                forall|s: Seq<char>| #[trigger]
                    from.contains(s) ==> seen@.contains(s) || stack.deep_view().contains(s),
                forall|s: Seq<char>, t: Seq<char>|
                    seen@.contains(s) && classes.contains_key(s)
                        && #[trigger] classes[s].superclasses.contains(t) ==> seen@.contains(t)
                        || stack.deep_view().contains(t),
            decreases universe.difference(seen@).len(), stack.len(),
        {
            let ghost before = stack.deep_view();
            let ghost seen_before = seen@;
            let top = match stack.pop() {
                Some(s) => s,
                None => {
                    return false;
                },
            };
            proof {
                assert(stack.deep_view() =~= before.drop_last());
                assert(before.last() == top@);
                assert forall|t: Seq<char>| before.contains(t) implies t == top@
                    || #[trigger] stack.deep_view().contains(t) by {
                    let j = choose|j: int| 0 <= j < before.len() && before[j] == t;
                    if j < before.len() - 1 {
                        assert(stack.deep_view()[j] == t);
                    }
                }
            }
            let fresh = seen.insert(top.clone());
            if !fresh {
                assert(seen@ =~= seen_before);
                continue ;
            }
            if same_text(top.as_str(), name) {
                return true;
            }
            proof {
                let gap = universe.difference(seen@);
                assert(gap =~= universe.difference(seen_before).remove(top@));
            }
            if let Some(def) = generics.typeclasses.get(top.as_str()) {
                let mut more: Vec<String> = def.superclasses.dup();
                let ghost mid = stack.deep_view();
                let ghost added = more.deep_view();
                stack.append(&mut more);
                proof {
                    assert(stack.deep_view() =~= mid + added);
                    assert forall|i: int| 0 <= i < stack.len() implies universe.contains(
                        #[trigger] stack.deep_view()[i],
                    ) && is_above(classes, from, stack.deep_view()[i]) by {
                        if i >= mid.len() {
                            let s = added[i - mid.len()];
                            assert(classes[top@].superclasses.contains(s));
                            climb_on(classes, from, top@, s);
                            all_supers_holds(classes, keys, top@, s);
                            let x = all_supers(classes, keys);
                            let j = choose|j: int| 0 <= j < x.len() && x[j] == s;
                            assert(reach[from.len() + j] == s);
                        } else {
                            assert(before[i] == stack.deep_view()[i]);
                        }
                    }
                    assert forall|t: Seq<char>| mid.contains(t) || added.contains(
                        t,
                    ) implies #[trigger] stack.deep_view().contains(t) by {
                        if mid.contains(t) {
                            let j = choose|j: int| 0 <= j < mid.len() && mid[j] == t;
                            assert(stack.deep_view()[j] == t);
                        } else {
                            let j = choose|j: int| 0 <= j < added.len() && added[j] == t;
                            assert(stack.deep_view()[mid.len() + j] == t);
                        }
                    }
                }
            }
        }
        proof {
            assert forall|s: Seq<char>| !stack.deep_view().contains(s) by {}
            if is_above(classes, from, name@) {
                let path = choose|path: Seq<Seq<char>>|
                    #[trigger] climbs(classes, from, path) && path.last() == name@;
                closed_set_holds_path(classes, from, seen@, path, path.len() - 1);
            }
        }
        false
    }
}

/// The classes whose methods were not listed yet.
pub open spec fn unvisited(classes: Map<Seq<char>, ClassV>, visited: Set<Seq<char>>) -> Set<
    Seq<char>,
> {
    classes.dom().filter(|k: Seq<char>| !visited.contains(classes[k].name))
}

/// The methods of one class, each with the name of the class.
pub open spec fn own_slots(def: ClassV) -> Seq<(Seq<char>, MethodV)> {
    Seq::new(def.methods.len(), |i: int| (def.name, def.methods[i]))
}

/// The slots of the class `key` and of what is above it, and the classes listed
/// so far. A class that was listed before adds nothing.
pub open spec fn class_slots(
    classes: Map<Seq<char>, ClassV>,
    key: Seq<char>,
    visited: Set<Seq<char>>,
) -> (Seq<(Seq<char>, MethodV)>, Set<Seq<char>>)
    decreases unvisited(classes, visited).len(), 0nat,
    when classes.dom().finite()
{
    if !classes.contains_key(key) || visited.contains(classes[key].name) {
        (Seq::empty(), visited)
    } else {
        let def = classes[key];
        proof {
            visit_shrinks(classes, key, visited);
        }
        let rest = super_slots(classes, def.superclasses, visited.insert(def.name));
        (own_slots(def) + rest.0, rest.1)
    }
}

/// The slots of each class of a list in turn, and the classes listed so far.
pub open spec fn super_slots(
    classes: Map<Seq<char>, ClassV>,
    supers: Seq<Seq<char>>,
    visited: Set<Seq<char>>,
) -> (Seq<(Seq<char>, MethodV)>, Set<Seq<char>>)
    decreases unvisited(classes, visited).len(), supers.len(),
    when classes.dom().finite()
{
    if supers.len() == 0 {
        (Seq::empty(), visited)
    } else {
        let first = class_slots(classes, supers[0], visited);
        proof {
            visiting_more(classes, visited, visited.union(first.1));
        }
        let rest = super_slots(classes, supers.drop_first(), visited.union(first.1));
        (first.0 + rest.0, rest.1)
    }
}

/// The slots of a class and of what is above it, registered or not, and the
/// classes listed so far. A class that was listed before adds nothing.
pub open spec fn def_slots(
    classes: Map<Seq<char>, ClassV>,
    def: ClassV,
    visited: Set<Seq<char>>,
) -> (Seq<(Seq<char>, MethodV)>, Set<Seq<char>>) {
    if visited.contains(def.name) {
        (Seq::empty(), visited)
    } else {
        let rest = super_slots(classes, def.superclasses, visited.insert(def.name));
        (own_slots(def) + rest.0, rest.1)
    }
}

/// How much there is to do for a class itself: nothing when it was listed before.
spec fn steps_left(def: ClassV, visited: Set<Seq<char>>) -> nat {
    if visited.contains(def.name) {
        0
    } else {
        def.superclasses.len() + 1
    }
}

/// The dictionary layout of a class: its own methods, then those of each
/// superclass in declaration order.
pub open spec fn dict_layout(classes: Map<Seq<char>, ClassV>, def: ClassV) -> Seq<
    (Seq<char>, MethodV),
> {
    own_slots(def) + super_slots(
        classes,
        def.superclasses,
        Set::<Seq<char>>::empty().insert(def.name),
    ).0
}

/// With more classes listed, no more are left.
pub proof fn visiting_more(
    classes: Map<Seq<char>, ClassV>,
    visited: Set<Seq<char>>,
    more: Set<Seq<char>>,
)
    requires
        classes.dom().finite(),
        visited.subset_of(more),
    ensures
        unvisited(classes, more).finite(),
        unvisited(classes, visited).finite(),
        unvisited(classes, more).len() <= unvisited(classes, visited).len(),
{
    let a = unvisited(classes, more);
    let b = unvisited(classes, visited);
    vstd::set_lib::lemma_len_subset(b, classes.dom());
    vstd::set_lib::lemma_len_subset(a, b);
}

/// Listing a class leaves fewer to list.
pub proof fn visit_shrinks(
    classes: Map<Seq<char>, ClassV>,
    key: Seq<char>,
    visited: Set<Seq<char>>,
)
    requires
        classes.dom().finite(),
        classes.contains_key(key),
        !visited.contains(classes[key].name),
    ensures
        unvisited(classes, visited.insert(classes[key].name)).len() < unvisited(
            classes,
            visited,
        ).len(),
{
    let b = unvisited(classes, visited);
    let a = unvisited(classes, visited.insert(classes[key].name));
    visiting_more(classes, visited, visited.insert(classes[key].name));
    assert(b.contains(key));
    assert(a.subset_of(b.remove(key)));
    vstd::set_lib::lemma_len_subset(a, b.remove(key));
}

/// Listing a class keeps what was listed before.
proof fn slots_keep_visited(
    classes: Map<Seq<char>, ClassV>,
    key: Seq<char>,
    visited: Set<Seq<char>>,
)
    requires
        classes.dom().finite(),
    ensures
        visited.subset_of(class_slots(classes, key, visited).1),
    decreases unvisited(classes, visited).len(), 0nat,
{
    if classes.contains_key(key) && !visited.contains(classes[key].name) {
        let def = classes[key];
        visit_shrinks(classes, key, visited);
        supers_keep_visited(classes, def.superclasses, visited.insert(def.name));
    }
}

proof fn supers_keep_visited(
    classes: Map<Seq<char>, ClassV>,
    supers: Seq<Seq<char>>,
    visited: Set<Seq<char>>,
)
    requires
        classes.dom().finite(),
    ensures
        visited.subset_of(super_slots(classes, supers, visited).1),
    decreases unvisited(classes, visited).len(), supers.len(),
{
    if supers.len() > 0 {
        let first = class_slots(classes, supers[0], visited);
        slots_keep_visited(classes, supers[0], visited);
        visiting_more(classes, visited, visited.union(first.1));
        supers_keep_visited(classes, supers.drop_first(), visited.union(first.1));
    }
}

/// The model of a list of slots.
pub open spec fn slot_views(out: Seq<(&str, &TypeClassMethodDef)>) -> Seq<(Seq<char>, MethodV)> {
    Seq::new(out.len(), |i: int| (out[i].0@, out[i].1@))
}

impl TypeClassDef {
    /// Flattened dictionary method list: this class's methods, then each
    /// superclass's methods in declaration order (depth first, cycle-safe).
    ///
    /// Returns `(owning_class_name, method_def)` pairs. Slot index in the
    /// runtime dict is the position in this list.
    pub fn flattened_methods<'a>(&'a self, generics: &'a Generics) -> (r: Vec<
        (&'a str, &'a TypeClassMethodDef),
    >)
        ensures
            slot_views(r@) == dict_layout(generics@.typeclasses, self@),
    {
        let mut out: Vec<(&'a str, &'a TypeClassMethodDef)> = Vec::new();
        let mut visited = NameSet::new();
        Self::collect_flattened_methods(self, generics, &mut out, &mut visited);
        assert(slot_views(out@) =~= def_slots(
            generics@.typeclasses,
            self@,
            Set::<Seq<char>>::empty(),
        ).0);
        out
    }

    fn push_own_slots<'a>(&'a self, out: &mut Vec<(&'a str, &'a TypeClassMethodDef)>)
        ensures
            slot_views(final(out)@) == slot_views(old(out)@) + own_slots(self@),
            old(out)@.is_prefix_of(final(out)@),
    {
        let ghost start = slot_views(out@);
        let ghost first = out@;
        let mut i: usize = 0;
        assert(start + own_slots(self@).take(0) =~= start);
        while i < self.methods.len()
            invariant
                i <= self.methods.len(),
                slot_views(out@) == start + own_slots(self@).take(i as int),
                first.is_prefix_of(out@),
            decreases self.methods.len() - i,
        {
            let ghost before = out@;
            out.push((self.name.as_str(), &self.methods[i]));
            assert(slot_views(out@) =~= slot_views(before).push(own_slots(self@)[i as int]));
            i += 1;
            assert(slot_views(out@) =~= start + own_slots(self@).take(i as int));
        }
        assert(own_slots(self@).take(self.methods.len() as int) =~= own_slots(self@));
    }

    /// Collect the methods of a class and of what is above it, unless the class
    /// was visited before.
    fn collect_flattened_methods<'a>(
        class: &'a TypeClassDef,
        generics: &'a Generics,
        out: &mut Vec<(&'a str, &'a TypeClassMethodDef)>,
        visited: &mut NameSet,
    )
        ensures
            slot_views(final(out)@) == slot_views(old(out)@) + def_slots(
                generics@.typeclasses,
                class@,
                old(visited)@,
            ).0,
            final(visited)@ == def_slots(generics@.typeclasses, class@, old(visited)@).1,
            old(out)@.is_prefix_of(final(out)@),
            old(visited)@.insert(class.name@).subset_of(final(visited)@),
        decreases
            unvisited(generics@.typeclasses, old(visited)@.insert(class.name@)).len(),
            steps_left(class@, old(visited)@),
    {
        let ghost classes = generics@.typeclasses;
        let ghost start = slot_views(out@);
        let ghost seen = visited@;
        if !visited.insert(class.name.clone()) {
            assert(visited@ =~= seen);
            assert(slot_views(out@) + Seq::<(Seq<char>, MethodV)>::empty() =~= start);
            return;
        }
        proof {
            generics.typeclasses.finite_keys();
            supers_keep_visited(classes, class@.superclasses, visited@);
        }
        class.push_own_slots(out);
        Self::collect_super_methods(&class.superclasses, 0, generics, out, visited);
        proof {
            assert(class.superclasses.deep_view().skip(0) =~= class.superclasses.deep_view());
            let rest = super_slots(classes, class@.superclasses, seen.insert(class.name@)).0;
            assert(start + own_slots(class@) + rest =~= start + (own_slots(class@) + rest));
        }
    }

    /// Collect the methods of `supers` from place `at` on.
    fn collect_super_methods<'a>(
        supers: &'a Vec<String>,
        at: usize,
        generics: &'a Generics,
        out: &mut Vec<(&'a str, &'a TypeClassMethodDef)>,
        visited: &mut NameSet,
    )
        requires
            at <= supers.len(),
        ensures
            slot_views(final(out)@) == slot_views(old(out)@) + super_slots(
                generics@.typeclasses,
                supers.deep_view().skip(at as int),
                old(visited)@,
            ).0,
            final(visited)@ == super_slots(
                generics@.typeclasses,
                supers.deep_view().skip(at as int),
                old(visited)@,
            ).1,
            old(out)@.is_prefix_of(final(out)@),
        decreases unvisited(generics@.typeclasses, old(visited)@).len(), supers.len() - at,
    {
        let ghost classes = generics@.typeclasses;
        let ghost start = slot_views(out@);
        let ghost seen = visited@;
        let ghost rest = supers.deep_view().skip(at as int);
        proof {
            generics.typeclasses.finite_keys();
        }
        if at >= supers.len() {
            assert(rest.len() == 0);
            assert(start + Seq::<(Seq<char>, MethodV)>::empty() =~= start);
            return;
        }
        proof {
            assert(rest[0] == supers@[at as int]@);
            assert(rest.drop_first() =~= supers.deep_view().skip(at + 1));
            slots_keep_visited(classes, rest[0], seen);
        }
        let ghost first = class_slots(classes, rest[0], seen);
        if let Some(def) = generics.typeclass(supers[at].as_str()) {
            proof {
                if seen.contains(def.name@) {
                    assert(seen.insert(def.name@) =~= seen);
                } else {
                    visit_shrinks(classes, rest[0], seen);
                }
            }
            Self::collect_flattened_methods(def, generics, out, visited);
        } else {
            assert(start + first.0 =~= start);
        }
        proof {
            visiting_more(classes, seen, visited@);
            assert(seen.union(first.1) =~= first.1);
        }
        Self::collect_super_methods(supers, at + 1, generics, out, visited);
        proof {
            let more = super_slots(classes, rest.drop_first(), first.1).0;
            assert(start + first.0 + more =~= start + (first.0 + more));
        }
    }
}

impl Generics {
    /// Look up a typeclass by name.
    pub fn typeclass(&self, name: &str) -> (r: Option<&TypeClassDef>)
        ensures
            match r {
                Some(def) => self@.typeclasses.contains_key(name@)
                    && self@.typeclasses[name@] == def@,
                None => !self@.typeclasses.contains_key(name@),
            },
    {
        self.typeclasses.get(name)
    }
}

/// The methods of a class come first in its dictionary, in declaration order.
pub proof fn own_methods_come_first(classes: Map<Seq<char>, ClassV>, def: ClassV, i: int)
    requires
        0 <= i < def.methods.len(),
    ensures
        i < dict_layout(classes, def).len(),
        dict_layout(classes, def)[i] == (def.name, def.methods[i]),
{
}

/// A registry of classes: each is held under its own name.
pub open spec fn well_named(classes: Map<Seq<char>, ClassV>) -> bool {
    &&& classes.dom().finite()
    &&& forall|k: Seq<char>| #[trigger] classes.contains_key(k) ==> classes[k].name == k
}

/// Every class that is listed from `before` to `after` has its methods in `out`,
/// and its registered superclasses are listed too.
spec fn listed(
    classes: Map<Seq<char>, ClassV>,
    before: Set<Seq<char>>,
    after: Set<Seq<char>>,
    out: Seq<(Seq<char>, MethodV)>,
) -> bool {
    &&& before.subset_of(after)
    &&& forall|k: Seq<char>| #[trigger]
        after.contains(k) && !before.contains(k) ==> classes.contains_key(k) && has_slots(
            classes[k],
            out,
        ) && lists_all(classes, classes[k].superclasses, after)
}

/// The methods of a class are all in `out`.
spec fn has_slots(def: ClassV, out: Seq<(Seq<char>, MethodV)>) -> bool {
    forall|i: int|
        0 <= i < def.methods.len() ==> out.contains((def.name, #[trigger] def.methods[i]))
}

/// The registered classes of a list are all in `after`.
spec fn lists_all(
    classes: Map<Seq<char>, ClassV>,
    names: Seq<Seq<char>>,
    after: Set<Seq<char>>,
) -> bool {
    forall|i: int|
        0 <= i < names.len() && classes.contains_key(#[trigger] names[i]) ==> after.contains(
            names[i],
        )
}

proof fn slots_extend(def: ClassV, a: Seq<(Seq<char>, MethodV)>, b: Seq<(Seq<char>, MethodV)>)
    ensures
        has_slots(def, a) || has_slots(def, b) ==> has_slots(def, a + b),
{
    if has_slots(def, a) || has_slots(def, b) {
        assert forall|i: int| 0 <= i < def.methods.len() implies (a + b).contains(
            (def.name, #[trigger] def.methods[i]),
        ) by {
            let x = (def.name, def.methods[i]);
            if has_slots(def, a) {
                let j = choose|j: int| 0 <= j < a.len() && a[j] == x;
                assert((a + b)[j] == x);
            } else {
                let j = choose|j: int| 0 <= j < b.len() && b[j] == x;
                assert((a + b)[a.len() + j] == x);
            }
        }
    }
}

proof fn class_is_listed(classes: Map<Seq<char>, ClassV>, key: Seq<char>, visited: Set<Seq<char>>)
    requires
        well_named(classes),
    ensures
        ({
            let r = class_slots(classes, key, visited);
            &&& listed(classes, visited, r.1, r.0)
            &&& classes.contains_key(key) ==> r.1.contains(key)
        }),
    decreases unvisited(classes, visited).len(), 0nat,
{
    if classes.contains_key(key) && !visited.contains(classes[key].name) {
        let def = classes[key];
        let inner = visited.insert(def.name);
        visit_shrinks(classes, key, visited);
        supers_are_listed(classes, def.superclasses, inner);
        let rest = super_slots(classes, def.superclasses, inner);
        let own = own_slots(def);
        let out = own + rest.0;
        assert(has_slots(def, own)) by {
            assert forall|i: int| 0 <= i < def.methods.len() implies own.contains(
                (def.name, #[trigger] def.methods[i]),
            ) by {
                assert(own[i] == (def.name, def.methods[i]));
            }
        }
        assert forall|k: Seq<char>| #[trigger]
            rest.1.contains(k) && !visited.contains(k) implies classes.contains_key(k) && has_slots(
            classes[k],
            out,
        ) && lists_all(classes, classes[k].superclasses, rest.1) by {
            slots_extend(classes[k], own, rest.0);
        }
    }
}

proof fn supers_are_listed(
    classes: Map<Seq<char>, ClassV>,
    supers: Seq<Seq<char>>,
    visited: Set<Seq<char>>,
)
    requires
        well_named(classes),
    ensures
        ({
            let r = super_slots(classes, supers, visited);
            &&& listed(classes, visited, r.1, r.0)
            &&& lists_all(classes, supers, r.1)
        }),
    decreases unvisited(classes, visited).len(), supers.len(),
{
    if supers.len() > 0 {
        let first = class_slots(classes, supers[0], visited);
        class_is_listed(classes, supers[0], visited);
        let mid = visited.union(first.1);
        assert(mid =~= first.1);
        visiting_more(classes, visited, mid);
        let tail = supers.drop_first();
        supers_are_listed(classes, tail, mid);
        let rest = super_slots(classes, tail, mid);
        let out = first.0 + rest.0;
        assert forall|k: Seq<char>| #[trigger]
            rest.1.contains(k) && !visited.contains(k) implies classes.contains_key(k) && has_slots(
            classes[k],
            out,
        ) && lists_all(classes, classes[k].superclasses, rest.1) by {
            slots_extend(classes[k], first.0, rest.0);
            if mid.contains(k) {
                assert(first.1.contains(k));
            }
        }
        assert forall|i: int|
            0 <= i < supers.len() && classes.contains_key(
                #[trigger] supers[i],
            ) implies rest.1.contains(supers[i]) by {
            if i > 0 {
                assert(tail[i - 1] == supers[i]);
            }
        }
    }
}

proof fn path_is_listed(
    classes: Map<Seq<char>, ClassV>,
    def: ClassV,
    path: Seq<Seq<char>>,
    n: int,
)
    requires
        well_named(classes),
        classes.contains_key(def.name) ==> classes[def.name] == def,
        climbs(classes, def.superclasses, path),
        0 <= n < path.len(),
        classes.contains_key(path[n]),
    ensures
        super_slots(
            classes,
            def.superclasses,
            Set::<Seq<char>>::empty().insert(def.name),
        ).1.contains(path[n]),
    decreases n,
{
    let start = Set::<Seq<char>>::empty().insert(def.name);
    supers_are_listed(classes, def.superclasses, start);
    let after = super_slots(classes, def.superclasses, start).1;
    if n == 0 {
        let i = choose|i: int|
            0 <= i < def.superclasses.len() && def.superclasses[i] == path[0];
        assert(after.contains(def.superclasses[i]));
    } else {
        let k = path[n - 1];
        assert(classes.contains_key(k) && classes[k].superclasses.contains(path[n - 1 + 1]));
        path_is_listed(classes, def, path, n - 1);
        let supers = classes[k].superclasses;
        let i = choose|i: int| 0 <= i < supers.len() && supers[i] == path[n];
        assert(lists_all(classes, supers, after));
        assert(classes.contains_key(supers[i]));
    }
}

/// The dictionary of a class has a slot for every method of every class above it.
pub proof fn superclass_methods_have_slots(
    classes: Map<Seq<char>, ClassV>,
    def: ClassV,
    name: Seq<char>,
    i: int,
)
    requires
        well_named(classes),
        classes.contains_key(def.name) ==> classes[def.name] == def,
        is_above(classes, def.superclasses, name),
        classes.contains_key(name),
        0 <= i < classes[name].methods.len(),
    ensures
        dict_layout(classes, def).contains((name, classes[name].methods[i])),
{
    let path = choose|path: Seq<Seq<char>>| #[trigger]
        climbs(classes, def.superclasses, path) && path.last() == name;
    path_is_listed(classes, def, path, path.len() - 1);
    let start = Set::<Seq<char>>::empty().insert(def.name);
    supers_are_listed(classes, def.superclasses, start);
    let r = super_slots(classes, def.superclasses, start);
    let own = own_slots(def);
    if name == def.name {
        assert(own[i] == (name, classes[name].methods[i]));
        assert(dict_layout(classes, def)[i] == own[i]);
    } else {
        assert(has_slots(classes[name], r.0));
        slots_extend(classes[name], own, r.0);
        assert(has_slots(classes[name], own + r.0));
    }
}

/// The methods of each class of a list in turn.
pub open spec fn blocks(classes: Map<Seq<char>, ClassV>, order: Seq<Seq<char>>) -> Seq<
    (Seq<char>, MethodV),
>
    decreases order.len(),
{
    if order.len() == 0 {
        Seq::empty()
    } else {
        blocks(classes, order.drop_last()) + own_slots(classes[order.last()])
    }
}

/// The dictionary of `def` is made of one block of slots per class, in this order
/// of classes: first `def`, then every registered class above it once, and no
/// other class.
pub open spec fn lays_out(
    classes: Map<Seq<char>, ClassV>,
    def: ClassV,
    order: Seq<Seq<char>>,
) -> bool {
    &&& order.len() > 0
    &&& order[0] == def.name
    &&& order.no_duplicates()
    &&& forall|k: Seq<char>| #[trigger]
        order.contains(k) <==> k == def.name || (classes.contains_key(k) && is_above(
            classes,
            def.superclasses,
            k,
        ))
    &&& dict_layout(classes, def) == own_slots(def) + blocks(classes, order.drop_first())
}

/// What listing adds is one block per class that was not listed before, and these
/// are the classes listed now.
spec fn in_blocks(
    classes: Map<Seq<char>, ClassV>,
    visited: Set<Seq<char>>,
    r: (Seq<(Seq<char>, MethodV)>, Set<Seq<char>>),
    order: Seq<Seq<char>>,
) -> bool {
    &&& order.no_duplicates()
    &&& forall|k: Seq<char>| #[trigger]
        order.contains(k) ==> classes.contains_key(k) && !visited.contains(k)
    &&& forall|k: Seq<char>| #[trigger]
        r.1.contains(k) <==> visited.contains(k) || order.contains(k)
    &&& r.0 == blocks(classes, order)
}

/// The blocks of two lists, one after the other.
proof fn blocks_concat(classes: Map<Seq<char>, ClassV>, x: Seq<Seq<char>>, y: Seq<Seq<char>>)
    ensures
        blocks(classes, x + y) == blocks(classes, x) + blocks(classes, y),
    decreases y.len(),
{
    if y.len() == 0 {
        assert(x + y =~= x);
        assert(blocks(classes, x) + blocks(classes, y) =~= blocks(classes, x));
    } else {
        blocks_concat(classes, x, y.drop_last());
        assert((x + y).drop_last() =~= x + y.drop_last());
        assert(blocks(classes, x + y) =~= blocks(classes, x) + blocks(classes, y));
    }
}

/// The members of two lists, one after the other.
proof fn members_concat(x: Seq<Seq<char>>, y: Seq<Seq<char>>, k: Seq<char>)
    ensures
        (x + y).contains(k) <==> x.contains(k) || y.contains(k),
{
    if x.contains(k) {
        let i = choose|i: int| 0 <= i < x.len() && x[i] == k;
        assert((x + y)[i] == k);
    }
    if y.contains(k) {
        let i = choose|i: int| 0 <= i < y.len() && y[i] == k;
        assert((x + y)[x.len() + i] == k);
    }
}

/// Two parts of a listing, one after the other.
proof fn blocks_follow(
    classes: Map<Seq<char>, ClassV>,
    visited: Set<Seq<char>>,
    a: (Seq<(Seq<char>, MethodV)>, Set<Seq<char>>),
    x: Seq<Seq<char>>,
    b: (Seq<(Seq<char>, MethodV)>, Set<Seq<char>>),
    y: Seq<Seq<char>>,
)
    requires
        in_blocks(classes, visited, a, x),
        in_blocks(classes, a.1, b, y),
    ensures
        in_blocks(classes, visited, (a.0 + b.0, b.1), x + y),
{
    blocks_concat(classes, x, y);
    assert forall|k: Seq<char>| true implies (#[trigger] (x + y).contains(k) <==> x.contains(k)
        || y.contains(k)) by {
        members_concat(x, y, k);
    }
    assert forall|k: Seq<char>| #[trigger] (x + y).contains(k) implies classes.contains_key(k)
        && !visited.contains(k) by {
        if y.contains(k) {
            assert(!a.1.contains(k));
        }
    }
    assert forall|k: Seq<char>| #[trigger] b.1.contains(k) <==> visited.contains(k) || (x
        + y).contains(k) by {
        assert(a.1.contains(k) <==> visited.contains(k) || x.contains(k));
        assert((x + y).contains(k) <==> x.contains(k) || y.contains(k));
    }
    let z = x + y;
    assert forall|i: int, j: int| 0 <= i < j < z.len() implies z[i] != z[j] by {
        if i < x.len() && j >= x.len() {
            assert(x.contains(x[i]));
            assert(a.1.contains(x[i]));
            assert(y.contains(y[j - x.len()]));
        }
    }
}

/// A class above a superclass of `key` is above `key`.
proof fn climb_from(
    classes: Map<Seq<char>, ClassV>,
    from: Seq<Seq<char>>,
    key: Seq<char>,
    name: Seq<char>,
)
    requires
        from.contains(key),
        classes.contains_key(key),
        is_above(classes, classes[key].superclasses, name),
    ensures
        is_above(classes, from, name),
{
    let path = choose|path: Seq<Seq<char>>| #[trigger]
        climbs(classes, classes[key].superclasses, path) && path.last() == name;
    let longer = seq![key] + path;
    assert forall|i: int| 0 <= i < longer.len() - 1 implies classes.contains_key(
        #[trigger] longer[i],
    ) && classes[longer[i]].superclasses.contains(longer[i + 1]) by {
        if i > 0 {
            assert(classes.contains_key(path[i - 1]));
            assert(longer[i + 1] == path[i - 1 + 1]);
        }
    }
    assert(climbs(classes, from, longer));
}

/// The slots of a class come in blocks, of the class and of classes above it.
proof fn class_in_blocks(
    classes: Map<Seq<char>, ClassV>,
    from: Seq<Seq<char>>,
    key: Seq<char>,
    visited: Set<Seq<char>>,
) -> (order: Seq<Seq<char>>)
    requires
        well_named(classes),
        from.contains(key),
    ensures
        in_blocks(classes, visited, class_slots(classes, key, visited), order),
        forall|k: Seq<char>| #[trigger] order.contains(k) ==> is_above(classes, from, k),
    decreases unvisited(classes, visited).len(), 0nat,
{
    if classes.contains_key(key) && !visited.contains(classes[key].name) {
        let def = classes[key];
        let inner = visited.insert(key);
        visit_shrinks(classes, key, visited);
        let rest = supers_in_blocks(classes, def.superclasses, inner);
        let one = seq![key];
        assert(one.drop_last() =~= Seq::<Seq<char>>::empty());
        assert(blocks(classes, one) =~= own_slots(def)) by {
            reveal_with_fuel(blocks, 2);
        }
        assert forall|k: Seq<char>| #[trigger] one.contains(k) <==> k == key by {
            assert(one[0] == key);
        }
        assert(in_blocks(classes, visited, (own_slots(def), inner), one));
        blocks_follow(
            classes,
            visited,
            (own_slots(def), inner),
            one,
            super_slots(classes, def.superclasses, inner),
            rest,
        );
        assert forall|k: Seq<char>| #[trigger] (one + rest).contains(k) implies is_above(
            classes,
            from,
            k,
        ) by {
            members_concat(one, rest, k);
            if rest.contains(k) {
                climb_from(classes, from, key, k);
            } else {
                assert(climbs(classes, from, seq![key]));
                assert(seq![key].last() == k);
            }
        }
        one + rest
    } else {
        Seq::empty()
    }
}

/// The slots of a list of classes come in blocks, of classes that are in the list
/// or above it.
proof fn supers_in_blocks(
    classes: Map<Seq<char>, ClassV>,
    supers: Seq<Seq<char>>,
    visited: Set<Seq<char>>,
) -> (order: Seq<Seq<char>>)
    requires
        well_named(classes),
    ensures
        in_blocks(classes, visited, super_slots(classes, supers, visited), order),
        forall|k: Seq<char>| #[trigger] order.contains(k) ==> is_above(classes, supers, k),
    decreases unvisited(classes, visited).len(), supers.len(),
{
    if supers.len() > 0 {
        let first = class_slots(classes, supers[0], visited);
        let tail = supers.drop_first();
        assert(supers.contains(supers[0]));
        slots_keep_visited(classes, supers[0], visited);
        let mid = visited.union(first.1);
        assert(mid =~= first.1);
        visiting_more(classes, visited, mid);
        let x = class_in_blocks(classes, supers, supers[0], visited);
        let y = supers_in_blocks(classes, tail, mid);
        blocks_follow(classes, visited, first, x, super_slots(classes, tail, mid), y);
        assert forall|k: Seq<char>| #[trigger] (x + y).contains(k) implies is_above(
            classes,
            supers,
            k,
        ) by {
            members_concat(x, y, k);
            if y.contains(k) {
                let path = choose|path: Seq<Seq<char>>| #[trigger]
                    climbs(classes, tail, path) && path.last() == k;
                let i = choose|i: int| 0 <= i < tail.len() && tail[i] == path[0];
                assert(supers[i + 1] == path[0]);
                assert(climbs(classes, supers, path));
            }
        }
        x + y
    } else {
        Seq::empty()
    }
}

/// The dictionary of a class is laid out in blocks: its own methods, then those of
/// every registered class above it, each class once and in one piece, and of no
/// other class.
pub proof fn dictionaries_are_blocks(classes: Map<Seq<char>, ClassV>, def: ClassV)
    requires
        well_named(classes),
        classes.contains_key(def.name) ==> classes[def.name] == def,
    ensures
        exists|order: Seq<Seq<char>>| #[trigger] lays_out(classes, def, order),
{
    let start = Set::<Seq<char>>::empty().insert(def.name);
    let rest = supers_in_blocks(classes, def.superclasses, start);
    let order = seq![def.name] + rest;
    assert(order.drop_first() =~= rest);
    assert forall|k: Seq<char>| #[trigger]
        order.contains(k) <==> k == def.name || (classes.contains_key(k) && is_above(
            classes,
            def.superclasses,
            k,
        )) by {
        members_concat(seq![def.name], rest, k);
        assert(seq![def.name][0] == def.name);
        if classes.contains_key(k) && is_above(classes, def.superclasses, k) {
            let path = choose|path: Seq<Seq<char>>| #[trigger]
                climbs(classes, def.superclasses, path) && path.last() == k;
            path_is_listed(classes, def, path, path.len() - 1);
        }
    }
    assert forall|i: int, j: int| 0 <= i < j < order.len() implies order[i] != order[j] by {
        assert(rest.contains(rest[j - 1]));
    }
    assert(lays_out(classes, def, order));
}

/// The first instance that `p` accepts.
pub open spec fn first_instance(instances: Seq<InstV>, p: spec_fn(InstV) -> bool) -> Option<InstV>
    decreases instances.len(),
{
    if instances.len() == 0 {
        None
    } else if p(instances[0]) {
        Some(instances[0])
    } else {
        first_instance(instances.drop_first(), p)
    }
}

/// `inst` implements `class` for exactly `args`.
pub open spec fn implements(inst: InstV, class: Seq<char>, args: Seq<Tree>) -> bool {
    inst.class == class && inst.args == args
}

/// Unify two lists pairwise, from left to right, under `s`.
pub open spec fn unify_lists(
    s: Map<TyVarId, Tree>,
    need: Seq<Tree>,
    have: Seq<Tree>,
) -> Option<Map<TyVarId, Tree>>
    decreases need.len(),
{
    if need.len() == 0 || have.len() == 0 {
        Some(s)
    } else {
        match unify::unified(s, need[0], have[0]) {
            Ok(t) => unify_lists(t, need.drop_first(), have.drop_first()),
            Err(_) => None,
        }
    }
}

/// The arguments of `inst` unify with `args`, as an instance of `class`.
pub open spec fn implements_up_to(inst: InstV, class: Seq<char>, args: Seq<Tree>) -> bool {
    &&& inst.class == class
    &&& inst.args.len() == args.len()
    &&& unify_lists(Map::empty(), args, inst.args) is Some
}

/// The exact instance of `class` for `args`.
pub open spec fn exact_instance(
    instances: Seq<InstV>,
    class: Seq<char>,
    args: Seq<Tree>,
) -> Option<InstV> {
    first_instance(instances, |inst: InstV| implements(inst, class, args))
}

/// The first instance of `class` that unifies with `args`.
pub open spec fn unifying_instance(
    instances: Seq<InstV>,
    class: Seq<char>,
    args: Seq<Tree>,
) -> Option<InstV> {
    first_instance(instances, |inst: InstV| implements_up_to(inst, class, args))
}

/// The model of an optional instance.
pub open spec fn found(r: Option<&InstanceDef>) -> Option<InstV> {
    match r {
        Some(inst) => Some(inst@),
        None => None,
    }
}

/// Unify `need` with `have` pairwise from place `at` on, under `s`.
pub fn unify_from(s: Subst, need: &[Ty], have: &[Ty], at: usize) -> (r: Option<Subst>)
    requires
        at <= need.len(),
        at <= have.len(),
    ensures
        match r {
            Some(u) => unify_lists(
                s@,
                need.deep_view().skip(at as int),
                have.deep_view().skip(at as int),
            ) == Some(u@),
            None => unify_lists(
                s@,
                need.deep_view().skip(at as int),
                have.deep_view().skip(at as int),
            ) is None,
        },
    decreases need.len() - at,
{
    let ghost x = need.deep_view().skip(at as int);
    let ghost y = have.deep_view().skip(at as int);
    if at >= need.len() || at >= have.len() {
        return Some(s);
    }
    proof {
        assert(x[0] == need@[at as int]@ && y[0] == have@[at as int]@);
        assert(x.drop_first() =~= need.deep_view().skip(at + 1));
        assert(y.drop_first() =~= have.deep_view().skip(at + 1));
    }
    match unify_with(&s, &need[at], &have[at]) {
        Ok(t) => unify_from(t, need, have, at + 1),
        Err(_) => None,
    }
}

impl Generics {
    /// Find an instance for `class` applied to `args` (exact type match).
    pub fn find_instance(&self, class: &str, args: &[Ty]) -> (r: Option<&InstanceDef>)
        ensures
            found(r) == exact_instance(self@.instances, class@, args.deep_view()),
    {
        let ghost p = |inst: InstV| implements(inst, class@, args.deep_view());
        let mut i: usize = 0;
        assert(self@.instances.skip(0) =~= self@.instances);
        while i < self.instances.len()
            invariant
                i <= self.instances.len(),
                p == (|inst: InstV| implements(inst, class@, args.deep_view())),
                first_instance(self@.instances, p) == first_instance(
                    self@.instances.skip(i as int),
                    p,
                ),
            decreases self.instances.len() - i,
        {
            let inst = &self.instances[i];
            let ghost rest = self@.instances.skip(i as int);
            assert(rest[0] == inst@);
            assert(rest.drop_first() =~= self@.instances.skip(i + 1));
            if same_text(inst.class.as_str(), class) && same_ty_slices(inst.args.as_slice(), args) {
                return Some(inst);
            }
            i += 1;
        }
        None
    }

    /// Find an instance whose args unify with `args` (e.g. `Option::Some(42)`'s
    /// constructor type against `impl Collect<Option<int>>`). Does not mutate
    /// any global substitution.
    pub fn find_unifying_instance(&self, class: &str, args: &[Ty]) -> (r: Option<&InstanceDef>)
        ensures
            found(r) == unifying_instance(self@.instances, class@, args.deep_view()),
    {
        let ghost p = |inst: InstV| implements_up_to(inst, class@, args.deep_view());
        let mut i: usize = 0;
        assert(self@.instances.skip(0) =~= self@.instances);
        while i < self.instances.len()
            invariant
                i <= self.instances.len(),
                p == (|inst: InstV| implements_up_to(inst, class@, args.deep_view())),
                first_instance(self@.instances, p) == first_instance(
                    self@.instances.skip(i as int),
                    p,
                ),
            decreases self.instances.len() - i,
        {
            let inst = &self.instances[i];
            let ghost rest = self@.instances.skip(i as int);
            assert(rest[0] == inst@);
            assert(rest.drop_first() =~= self@.instances.skip(i + 1));
            if same_text(inst.class.as_str(), class) && inst.args.len() == args.len() {
                proof {
                    assert(args.deep_view().skip(0) =~= args.deep_view());
                    assert(inst.args.deep_view().skip(0) =~= inst.args.deep_view());
                }
                if unify_from(Subst::empty(), args, inst.args.as_slice(), 0).is_some() {
                    return Some(inst);
                }
            }
            i += 1;
        }
        None
    }

    /// Exact match, then unifying match (constructor against applied name or sum).
    pub fn find_instance_relaxed(&self, class: &str, args: &[Ty]) -> (r: Option<&InstanceDef>)
        ensures
            found(r) == (match exact_instance(self@.instances, class@, args.deep_view()) {
                Some(inst) => Some(inst),
                None => unifying_instance(self@.instances, class@, args.deep_view()),
            }),
    {
        match self.find_instance(class, args) {
            Some(inst) => Some(inst),
            None => self.find_unifying_instance(class, args),
        }
    }

    /// True when an identical class + concrete-argument instance already exists.
    pub fn has_overlapping_instance(&self, class: &str, args: &[Ty]) -> (r: bool)
        ensures
            r == exists|i: int|
                0 <= i < self@.instances.len() && implements(
                    #[trigger] self@.instances[i],
                    class@,
                    args.deep_view(),
                ),
    {
        proof {
            first_instance_exists(
                self@.instances,
                |inst: InstV| implements(inst, class@, args.deep_view()),
            );
        }
        self.find_instance(class, args).is_some()
    }

    /// Whether `class` is satisfied for `ty` (builtin or registered instance).
    pub fn has_instance(&self, class: &str, ty: &Ty) -> (r: bool)
        ensures
            r == exists|i: int|
                0 <= i < self@.instances.len() && implements(
                    #[trigger] self@.instances[i],
                    class@,
                    seq![ty@],
                ),
    {
        let args = tys1(ty.clone());
        self.has_overlapping_instance(class, args.as_slice())
    }
}

/// A first instance is found exactly when some instance is accepted.
pub proof fn first_instance_exists(instances: Seq<InstV>, p: spec_fn(InstV) -> bool)
    ensures
        first_instance(instances, p) is Some <==> exists|i: int|
            0 <= i < instances.len() && p(#[trigger] instances[i]),
        first_instance(instances, p) is Some ==> p(first_instance(instances, p).unwrap()),
    decreases instances.len(),
{
    if instances.len() > 0 {
        let rest = instances.drop_first();
        first_instance_exists(rest, p);
        if exists|i: int| 0 <= i < instances.len() && p(#[trigger] instances[i]) {
            let i = choose|i: int| 0 <= i < instances.len() && p(#[trigger] instances[i]);
            if i > 0 {
                assert(p(rest[i - 1]));
            }
        }
        if exists|i: int| 0 <= i < rest.len() && p(#[trigger] rest[i]) {
            let i = choose|i: int| 0 <= i < rest.len() && p(#[trigger] rest[i]);
            assert(p(instances[i + 1]));
        }
    }
}

/// The relaxed lookup finds what the exact lookup finds.
pub proof fn relaxed_extends_exact(instances: Seq<InstV>, class: Seq<char>, args: Seq<Tree>)
    requires
        exact_instance(instances, class, args) is Some,
    ensures
        exact_instance(instances, class, args).unwrap().class == class,
        exact_instance(instances, class, args).unwrap().args == args,
        unifying_instance(instances, class, args) is Some,
{
    let p = |inst: InstV| implements(inst, class, args);
    let q = |inst: InstV| implements_up_to(inst, class, args);
    first_instance_exists(instances, p);
    first_instance_exists(instances, q);
    let i = choose|i: int| 0 <= i < instances.len() && p(#[trigger] instances[i]);
    unify_lists_same(Map::empty(), args);
    assert(q(instances[i]));
}

proof fn unify_lists_same(s: Map<TyVarId, Tree>, args: Seq<Tree>)
    ensures
        unify_lists(s, args, args) is Some,
    decreases args.len(),
{
    if args.len() > 0 {
        let a = args[0].subst(s);
        assert(seq![a].last() == a);
        assert(unify::step(a, a) is Skip);
        assert(seq![a].drop_last() =~= Seq::<Tree>::empty());
        assert(unify::solution(Seq::<Tree>::empty(), Seq::<Tree>::empty()) is Ok);
        assert(unify::unified(s, args[0], args[0]) is Ok);
        unify_lists_same(unify::unified(s, args[0], args[0])->Ok_0, args.drop_first());
    }
}

/// The names of the methods without a default that `fqns` does not hold, in
/// declaration order.
pub open spec fn missing_methods(methods: Seq<MethodV>, fqns: Map<Seq<char>, Seq<char>>) -> Seq<
    Seq<char>,
>
    decreases methods.len(),
{
    if methods.len() == 0 {
        Seq::empty()
    } else {
        let init = missing_methods(methods.drop_last(), fqns);
        let m = methods.last();
        if !m.has_default && !fqns.contains_key(m.name) {
            init.push(m.name)
        } else {
            init
        }
    }
}

/// The names of a list that are not among `known`, in order.
pub open spec fn unknown_names(names: Seq<Seq<char>>, known: Seq<Seq<char>>) -> Seq<Seq<char>>
    decreases names.len(),
{
    if names.len() == 0 {
        Seq::empty()
    } else {
        let init = unknown_names(names.drop_last(), known);
        if known.contains(names.last()) {
            init
        } else {
            init.push(names.last())
        }
    }
}

/// The names of the associated types of a class.
pub open spec fn assoc_names(decls: Seq<AssocDeclV>) -> Seq<Seq<char>> {
    Seq::new(decls.len(), |i: int| decls[i].name)
}

/// The names of the methods of a class.
pub open spec fn method_names(methods: Seq<MethodV>) -> Seq<Seq<char>> {
    Seq::new(methods.len(), |i: int| methods[i].name)
}

/// The names that `have` does not map, in order.
pub open spec fn unmapped<V>(names: Seq<Seq<char>>, have: Map<Seq<char>, V>) -> Seq<Seq<char>>
    decreases names.len(),
{
    if names.len() == 0 {
        Seq::empty()
    } else {
        let init = unmapped(names.drop_last(), have);
        if have.contains_key(names.last()) {
            init
        } else {
            init.push(names.last())
        }
    }
}

/// The codegen name of a default method.
pub open spec fn default_fqn(class: Seq<char>, method: Seq<char>) -> Seq<char> {
    class + "__default__"@ + method
}

/// `fqns` with an entry for each defaulted method that it lacks.
pub open spec fn with_defaults(
    class: Seq<char>,
    methods: Seq<MethodV>,
    fqns: Map<Seq<char>, Seq<char>>,
) -> Map<Seq<char>, Seq<char>>
    decreases methods.len(),
{
    if methods.len() == 0 {
        fqns
    } else {
        let init = with_defaults(class, methods.drop_last(), fqns);
        let m = methods.last();
        if m.has_default && !init.contains_key(m.name) {
            init.insert(m.name, default_fqn(class, m.name))
        } else {
            init
        }
    }
}

/// The codegen name of a builtin instance method.
pub open spec fn builtin_fqn(class: Seq<char>, ty: Seq<char>, method: Seq<char>) -> Seq<char> {
    class + "__"@ + ty + "__"@ + method
}

/// The views of a list of string slices.
pub open spec fn str_views(names: Seq<&str>) -> Seq<Seq<char>> {
    Seq::new(names.len(), |i: int| names[i]@)
}

fn names_of_methods(class_def: &TypeClassDef) -> (r: Vec<String>)
    ensures
        r.deep_view() == method_names(class_def@.methods),
{
    let ghost all = method_names(class_def@.methods);
    let mut r: Vec<String> = Vec::new();
    let mut i: usize = 0;
    while i < class_def.methods.len()
        invariant
            i <= class_def.methods.len(),
            all == method_names(class_def@.methods),
            r.deep_view() == all.take(i as int),
        decreases class_def.methods.len() - i,
    {
        let ghost before = r.deep_view();
        let x = class_def.methods[i].name.clone();
        r.push(x);
        i += 1;
        assert(r.deep_view() =~= before.push(x@));
        assert(r.deep_view() =~= all.take(i as int));
    }
    assert(r.deep_view() =~= all);
    r
}

fn names_of_assoc_types(class_def: &TypeClassDef) -> (r: Vec<String>)
    ensures
        r.deep_view() == assoc_names(class_def@.assoc_types),
{
    let ghost all = assoc_names(class_def@.assoc_types);
    let mut r: Vec<String> = Vec::new();
    let mut i: usize = 0;
    while i < class_def.assoc_types.len()
        invariant
            i <= class_def.assoc_types.len(),
            all == assoc_names(class_def@.assoc_types),
            r.deep_view() == all.take(i as int),
        decreases class_def.assoc_types.len() - i,
    {
        let ghost before = r.deep_view();
        let x = class_def.assoc_types[i].name.clone();
        r.push(x);
        i += 1;
        assert(r.deep_view() =~= before.push(x@));
        assert(r.deep_view() =~= all.take(i as int));
    }
    assert(r.deep_view() =~= all);
    r
}

fn names_outside(names: &[&str], known: &Vec<String>) -> (r: Vec<String>)
    ensures
        r.deep_view() == unknown_names(str_views(names@), known.deep_view()),
{
    let ghost all = str_views(names@);
    let mut r: Vec<String> = Vec::new();
    let mut i: usize = 0;
    assert(r.deep_view() =~= unknown_names(all.take(0), known.deep_view()));
    while i < names.len()
        invariant
            i <= names.len(),
            all == str_views(names@),
            r.deep_view() == unknown_names(all.take(i as int), known.deep_view()),
        decreases names.len() - i,
    {
        let ghost before = r.deep_view();
        let name = names[i];
        proof {
            let next = all.take(i + 1);
            assert(next.drop_last() =~= all.take(i as int));
            assert(next.last() == name@);
        }
        if !lists_name(known, name) {
            let x = name.to_owned();
            r.push(x);
            assert(r.deep_view() =~= before.push(x@));
        }
        i += 1;
    }
    assert(all.take(all.len() as int) =~= all);
    r
}

impl Generics {
    /// Required class methods omitted by an instance.
    pub fn missing_required_methods(class_def: &TypeClassDef, method_fqns: &NameMap<String>) -> (r:
        Vec<String>)
        ensures
            r.deep_view() == missing_methods(class_def@.methods, method_fqns@),
    {
        let ghost all = class_def@.methods;
        let mut r: Vec<String> = Vec::new();
        let mut i: usize = 0;
        assert(r.deep_view() =~= missing_methods(all.take(0), method_fqns@));
        while i < class_def.methods.len()
            invariant
                i <= class_def.methods.len(),
                all == class_def@.methods,
                r.deep_view() == missing_methods(all.take(i as int), method_fqns@),
            decreases class_def.methods.len() - i,
        {
            let ghost before = r.deep_view();
            let m = &class_def.methods[i];
            proof {
                let next = all.take(i + 1);
                assert(next.drop_last() =~= all.take(i as int));
                assert(next.last() == m@);
            }
            if !m.has_default && !method_fqns.contains_key(m.name.as_str()) {
                let x = m.name.clone();
                r.push(x);
                assert(r.deep_view() =~= before.push(x@));
            }
            i += 1;
        }
        assert(all.take(all.len() as int) =~= all);
        r
    }

    /// Methods provided by an instance that are not declared by its class.
    pub fn unknown_instance_methods(class_def: &TypeClassDef, method_names: &[&str]) -> (r: Vec<
        String,
    >)
        ensures
            r.deep_view() == unknown_names(
                str_views(method_names@),
                self::method_names(class_def@.methods),
            ),
    {
        names_outside(method_names, &names_of_methods(class_def))
    }

    /// Associated types required by the class but missing from the instance.
    pub fn missing_assoc_types(
        class_def: &TypeClassDef,
        assoc_tys: &NameMap<AssocTypeValue>,
    ) -> (r: Vec<String>)
        ensures
            r.deep_view() == unmapped(assoc_names(class_def@.assoc_types), assoc_tys@),
    {
        let names = names_of_assoc_types(class_def);
        let ghost all = names.deep_view();
        let mut r: Vec<String> = Vec::new();
        let mut i: usize = 0;
        assert(r.deep_view() =~= unmapped(all.take(0), assoc_tys@));
        while i < names.len()
            invariant
                i <= names.len(),
                all == names.deep_view(),
                r.deep_view() == unmapped(all.take(i as int), assoc_tys@),
            decreases names.len() - i,
        {
            let ghost before = r.deep_view();
            proof {
                let next = all.take(i + 1);
                assert(next.drop_last() =~= all.take(i as int));
                assert(next.last() == names@[i as int]@);
            }
            if !assoc_tys.contains_key(names[i].as_str()) {
                let x = names[i].clone();
                r.push(x);
                assert(r.deep_view() =~= before.push(x@));
            }
            i += 1;
        }
        assert(all.take(all.len() as int) =~= all);
        r
    }

    /// Associated types provided by an instance that the class does not declare.
    pub fn unknown_assoc_types(class_def: &TypeClassDef, assoc_names: &[&str]) -> (r: Vec<String>)
        ensures
            r.deep_view() == unknown_names(
                str_views(assoc_names@),
                self::assoc_names(class_def@.assoc_types),
            ),
    {
        names_outside(assoc_names, &names_of_assoc_types(class_def))
    }

    /// Codegen name of a default typeclass method. The class default lives
    /// outside any concrete instance, so its slot is keyed as
    /// `{Class}__default__{method}`.
    pub fn default_method_fqn(class: &str, method: &str) -> (r: String)
        ensures
            r@ == default_fqn(class@, method@),
    {
        cat3(class, "__default__", method)
    }

    /// Populate omitted defaulted methods so every satisfiable class method has
    /// a dict slot name after instance checking.
    pub fn fill_default_method_fqns(class_def: &TypeClassDef, method_fqns: &mut NameMap<String>)
        ensures
            final(method_fqns)@ == with_defaults(
                class_def@.name,
                class_def@.methods,
                old(method_fqns)@,
            ),
    {
        let ghost start = method_fqns@;
        let ghost all = class_def@.methods;
        let mut i: usize = 0;
        while i < class_def.methods.len()
            invariant
                i <= class_def.methods.len(),
                all == class_def@.methods,
                method_fqns@ == with_defaults(class_def@.name, all.take(i as int), start),
            decreases class_def.methods.len() - i,
        {
            let m = &class_def.methods[i];
            proof {
                let next = all.take(i + 1);
                assert(next.drop_last() =~= all.take(i as int));
                assert(next.last() == m@);
            }
            if m.has_default && !method_fqns.contains_key(m.name.as_str()) {
                method_fqns.insert(
                    m.name.clone(),
                    Self::default_method_fqn(class_def.name.as_str(), m.name.as_str()),
                );
            }
            i += 1;
        }
        assert(all.take(all.len() as int) =~= all);
    }

    /// Build the compiler-generated name for a builtin instance method.
    ///
    /// Convention: `{Class}__{concrete_type_str}__{method}`
    /// e.g. `Num__int__add`, `Ord__float__lt`, `Eq__string__eq`.
    pub fn builtin_instance_fqn(class: &str, ty_str: &str, method: &str) -> (r: String)
        ensures
            r@ == builtin_fqn(class@, ty_str@, method@),
    {
        cat5(class, "__", ty_str, "__", method)
    }
}

/// After the defaults were filled in, no method is missing that has one, and
/// what was there before stays.
pub proof fn defaults_fill_the_gaps(
    class: Seq<char>,
    methods: Seq<MethodV>,
    fqns: Map<Seq<char>, Seq<char>>,
)
    ensures
        forall|k: Seq<char>| #[trigger]
            fqns.contains_key(k) ==> with_defaults(class, methods, fqns).contains_key(k)
                && with_defaults(class, methods, fqns)[k] == fqns[k],
        forall|i: int|
            0 <= i < methods.len() && (#[trigger] methods[i]).has_default ==> with_defaults(
                class,
                methods,
                fqns,
            ).contains_key(methods[i].name),
    decreases methods.len(),
{
    if methods.len() > 0 {
        let init = methods.drop_last();
        defaults_fill_the_gaps(class, init, fqns);
        assert forall|i: int|
            0 <= i < methods.len() && (#[trigger] methods[i]).has_default implies with_defaults(
            class,
            methods,
            fqns,
        ).contains_key(methods[i].name) by {
            if i < init.len() {
                assert(init[i] == methods[i]);
            }
        }
    }
}

/// Filling in the defaults does not change which required methods are missing,
/// unless a required method shares its name with a defaulted one.
pub proof fn defaults_keep_missing(
    class: Seq<char>,
    all: Seq<MethodV>,
    methods: Seq<MethodV>,
    fqns: Map<Seq<char>, Seq<char>>,
)
    requires
        forall|i: int, j: int|
            0 <= i < methods.len() && 0 <= j < all.len() && !(#[trigger] methods[i]).has_default && (
            #[trigger] all[j]).has_default ==> methods[i].name != all[j].name,
    ensures
        missing_methods(methods, with_defaults(class, all, fqns)) == missing_methods(methods, fqns),
    decreases methods.len(),
{
    if methods.len() > 0 {
        let init = methods.drop_last();
        let m = methods.last();
        assert forall|i: int, j: int|
            0 <= i < init.len() && 0 <= j < all.len() && !(#[trigger] init[i]).has_default && (
            #[trigger] all[j]).has_default implies init[i].name != all[j].name by {
            assert(init[i] == methods[i]);
        }
        defaults_keep_missing(class, all, init, fqns);
        if !m.has_default {
            assert(methods[methods.len() - 1] == m);
            only_defaults_added(class, all, fqns, m.name);
        }
    }
}

proof fn only_defaults_added(
    class: Seq<char>,
    all: Seq<MethodV>,
    fqns: Map<Seq<char>, Seq<char>>,
    name: Seq<char>,
)
    requires
        forall|j: int|
            0 <= j < all.len() && (#[trigger] all[j]).has_default ==> name != all[j].name,
    ensures
        with_defaults(class, all, fqns).contains_key(name) == fqns.contains_key(name),
    decreases all.len(),
{
    if all.len() > 0 {
        let init = all.drop_last();
        assert forall|j: int|
            0 <= j < init.len() && (#[trigger] init[j]).has_default implies name
            != init[j].name by {
            assert(init[j] == all[j]);
        }
        only_defaults_added(class, init, fqns, name);
        assert(all[all.len() - 1] == all.last());
    }
}

/// A list of one name.
pub fn names1(a: &str) -> (r: Vec<String>)
    ensures
        r.deep_view() == seq![a@],
{
    let mut r: Vec<String> = Vec::new();
    r.push(a.to_owned());
    assert(r.deep_view() =~= seq![a@]);
    r
}

/// A list of two names.
pub fn names2(a: &str, b: &str) -> (r: Vec<String>)
    ensures
        r.deep_view() == seq![a@, b@],
{
    let mut r: Vec<String> = Vec::new();
    r.push(a.to_owned());
    r.push(b.to_owned());
    assert(r.deep_view() =~= seq![a@, b@]);
    r
}

/// A list of four names.
pub fn names4(a: &str, b: &str, c: &str, d: &str) -> (r: Vec<String>)
    ensures
        r.deep_view() == seq![a@, b@, c@, d@],
{
    let mut r: Vec<String> = Vec::new();
    r.push(a.to_owned());
    r.push(b.to_owned());
    r.push(c.to_owned());
    r.push(d.to_owned());
    assert(r.deep_view() =~= seq![a@, b@, c@, d@]);
    r
}

/// A class over parameters of kind `*`, without superclasses, associated types
/// and defaults.
pub open spec fn plain_class(
    name: Seq<char>,
    params: Seq<Seq<char>>,
    methods: Seq<Seq<char>>,
) -> ClassV {
    ClassV {
        name,
        type_params: params,
        param_kinds: Seq::new(params.len(), |i: int| Kind::Type),
        superclasses: Seq::empty(),
        assoc_types: Seq::empty(),
        methods: Seq::new(
            methods.len(),
            |i: int| MethodV { name: methods[i], has_default: false },
        ),
    }
}

/// Each method of a builtin instance with its codegen name.
pub open spec fn builtin_fqns(
    class: Seq<char>,
    ty: Seq<char>,
    methods: Seq<Seq<char>>,
) -> Map<Seq<char>, Seq<char>>
    decreases methods.len(),
{
    if methods.len() == 0 {
        Map::empty()
    } else {
        builtin_fqns(class, ty, methods.drop_last()).insert(
            methods.last(),
            builtin_fqn(class, ty, methods.last()),
        )
    }
}

/// The builtin instance of `class` for the type named `ty`.
pub open spec fn builtin_instance(
    class: Seq<char>,
    ty: Seq<char>,
    methods: Seq<Seq<char>>,
) -> InstV {
    InstV {
        class,
        args: seq![Tree::con(ty)],
        method_fqns: builtin_fqns(class, ty, methods),
        assoc_tys: Map::empty(),
    }
}

/// The methods of `Num`.
pub open spec fn num_methods() -> Seq<Seq<char>> {
    seq!["add"@, "sub"@, "mul"@, "div"@]
}

/// The methods of `Ord`.
pub open spec fn ord_methods() -> Seq<Seq<char>> {
    seq!["lt"@, "le"@, "gt"@, "ge"@]
}

/// The methods of `Eq`.
pub open spec fn eq_methods() -> Seq<Seq<char>> {
    seq!["eq"@, "ne"@]
}

/// The methods of `Show`.
pub open spec fn show_methods() -> Seq<Seq<char>> {
    seq!["show"@]
}

/// The registry with the class `def` under `name`.
pub open spec fn with_class(g: GenericsV, name: Seq<char>, def: ClassV) -> GenericsV {
    GenericsV {
        typeclasses: g.typeclasses.insert(name, def),
        class_order: maps::order_with(g.typeclasses, g.class_order, name),
        ..g
    }
}

/// The registry with the builtin classes added.
pub open spec fn with_builtin_classes(g: GenericsV) -> GenericsV {
    let g = with_class(
        g,
        "Num"@,
        below(
            plain_class("Num"@, seq!["T"@], num_methods()),
            seq!["Add"@, "Sub"@, "Mul"@, "Div"@],
        ),
    );
    let g = with_class(
        g,
        "Ord"@,
        below(
            plain_class("Ord"@, seq!["T"@], ord_methods()),
            seq!["Lt"@, "Le"@, "Gt"@, "Ge"@],
        ),
    );
    let g = with_class(g, "Eq"@, plain_class("Eq"@, seq!["T"@], eq_methods()));
    let g = with_class(g, "Show"@, plain_class("Show"@, seq!["T"@], show_methods()));
    let g = with_class(g, "Into"@, plain_class("Into"@, seq!["Self"@, "T"@], seq!["into"@]));
    let g = with_class(g, "Add"@, plain_class("Add"@, seq!["T"@], seq!["add"@]));
    let g = with_class(g, "Sub"@, plain_class("Sub"@, seq!["T"@], seq!["sub"@]));
    let g = with_class(g, "Mul"@, plain_class("Mul"@, seq!["T"@], seq!["mul"@]));
    let g = with_class(g, "Div"@, plain_class("Div"@, seq!["T"@], seq!["div"@]));
    let g = with_class(g, "Lt"@, plain_class("Lt"@, seq!["T"@], seq!["lt"@]));
    let g = with_class(g, "Le"@, plain_class("Le"@, seq!["T"@], seq!["le"@]));
    let g = with_class(g, "Gt"@, plain_class("Gt"@, seq!["T"@], seq!["gt"@]));
    let g = with_class(g, "Ge"@, plain_class("Ge"@, seq!["T"@], seq!["ge"@]));
    let g = with_class(
        g,
        "Iterator"@,
        declaring(plain_class("Iterator"@, seq!["I"@], seq!["next"@]), seq!["Item"@]),
    );
    with_class(
        g,
        "IntoIterator"@,
        declaring(
            plain_class("IntoIterator"@, seq!["T"@], seq!["into_iter"@]),
            seq!["Item"@, "IntoIter"@],
        ),
    )
}

/// A class with superclasses.
pub open spec fn below(class: ClassV, supers: Seq<Seq<char>>) -> ClassV {
    ClassV { superclasses: supers, ..class }
}

/// A class with associated types without parameters.
pub open spec fn declaring(class: ClassV, names: Seq<Seq<char>>) -> ClassV {
    ClassV {
        assoc_types: Seq::new(
            names.len(),
            |i: int| AssocDeclV { name: names[i], params: Seq::empty(), param_kinds: Seq::empty() },
        ),
        ..class
    }
}

/// The instances of the operator classes for a number type, in order.
pub open spec fn operator_instances(ty: Seq<char>) -> Seq<InstV> {
    seq![
        builtin_instance("Add"@, ty, seq!["add"@]),
        builtin_instance("Sub"@, ty, seq!["sub"@]),
        builtin_instance("Mul"@, ty, seq!["mul"@]),
        builtin_instance("Div"@, ty, seq!["div"@]),
        builtin_instance("Lt"@, ty, seq!["lt"@]),
        builtin_instance("Le"@, ty, seq!["le"@]),
        builtin_instance("Gt"@, ty, seq!["gt"@]),
        builtin_instance("Ge"@, ty, seq!["ge"@]),
    ]
}

/// The builtin instances, in order.
pub open spec fn builtin_instances() -> Seq<InstV> {
    seq![
        builtin_instance("Num"@, "int"@, num_methods()),
        builtin_instance("Ord"@, "int"@, ord_methods()),
        builtin_instance("Eq"@, "int"@, eq_methods()),
        builtin_instance("Show"@, "int"@, show_methods()),
        builtin_instance("Num"@, "float"@, num_methods()),
        builtin_instance("Ord"@, "float"@, ord_methods()),
        builtin_instance("Eq"@, "float"@, eq_methods()),
        builtin_instance("Show"@, "float"@, show_methods()),
        builtin_instance("Eq"@, "string"@, eq_methods()),
        builtin_instance("Show"@, "string"@, show_methods()),
        builtin_instance("Eq"@, "bool"@, eq_methods()),
        builtin_instance("Show"@, "bool"@, show_methods()),
        builtin_instance("Show"@, "unit"@, show_methods()),
    ]
}

/// The builtin type constructors, added to `ctors`.
pub open spec fn with_builtin_ctors(ctors: Map<Seq<char>, Seq<Seq<char>>>) -> Map<
    Seq<char>,
    Seq<Seq<char>>,
> {
    ctors.insert("Option"@, seq!["T"@]).insert("Result"@, seq!["T"@, "E"@])
}

/// The registry with the builtins added.
pub open spec fn with_builtins(g: GenericsV) -> GenericsV {
    GenericsV {
        instances: g.instances + builtin_instances() + operator_instances("int"@)
            + operator_instances("float"@) + seq![
            builtin_instance("Show"@, "byte"@, show_methods()),
        ],
        generic_type_ctors: with_builtin_ctors(g.generic_type_ctors),
        ..with_builtin_classes(g)
    }
}

/// The registry that holds nothing.
pub open spec fn no_generics() -> GenericsV {
    GenericsV {
        typeclasses: Map::empty(),
        class_order: Seq::empty(),
        instances: Seq::empty(),
        generic_type_ctors: Map::empty(),
        generic_fns: Set::empty(),
        nominal_type_modules: Map::empty(),
        class_modules: Map::empty(),
        instance_origins: Map::empty(),
    }
}

fn make_class(name: &str, params: Vec<String>, methods: Vec<String>) -> (r: TypeClassDef)
    ensures
        r@ == plain_class(name@, params.deep_view(), methods.deep_view()),
{
    let ghost want = plain_class(name@, params.deep_view(), methods.deep_view());
    let mut kinds: Vec<Kind> = Vec::new();
    let mut i: usize = 0;
    while i < params.len()
        invariant
            i <= params.len(),
            want == plain_class(name@, params.deep_view(), methods.deep_view()),
            kinds@ == want.param_kinds.take(i as int),
        decreases params.len() - i,
    {
        kinds.push(Kind::Type);
        i += 1;
        assert(kinds@ =~= want.param_kinds.take(i as int));
    }
    let mut defs: Vec<TypeClassMethodDef> = Vec::new();
    let mut k: usize = 0;
    assert(defs.deep_view() =~= want.methods.take(0));
    while k < methods.len()
        invariant
            k <= methods.len(),
            want == plain_class(name@, params.deep_view(), methods.deep_view()),
            defs.deep_view() == want.methods.take(k as int),
        decreases methods.len() - k,
    {
        let ghost before = defs.deep_view();
        let d = TypeClassMethodDef { name: methods[k].clone(), has_default: false };
        defs.push(d);
        k += 1;
        assert(defs.deep_view() =~= before.push(d@));
        assert(defs.deep_view() =~= want.methods.take(k as int));
    }
    let r = TypeClassDef {
        name: name.to_owned(),
        type_params: params,
        param_kinds: kinds,
        superclasses: Vec::new(),
        assoc_types: Vec::new(),
        methods: defs,
    };
    assert(r@ =~= want);
    r
}

fn make_instance(class: &str, ty: Ty, ty_str: &str, methods: Vec<String>) -> (r: InstanceDef)
    requires
        ty@ == Tree::con(ty_str@),
    ensures
        r@ == builtin_instance(class@, ty_str@, methods.deep_view()),
{
    let ghost all = methods.deep_view();
    let mut fqns: NameMap<String> = NameMap::new();
    let mut i: usize = 0;
    while i < methods.len()
        invariant
            i <= methods.len(),
            all == methods.deep_view(),
            fqns@ == builtin_fqns(class@, ty_str@, all.take(i as int)),
        decreases methods.len() - i,
    {
        let m = methods[i].as_str();
        fqns.insert(methods[i].clone(), Generics::builtin_instance_fqn(class, ty_str, m));
        proof {
            let next = all.take(i + 1);
            assert(next.drop_last() =~= all.take(i as int));
            assert(next.last() == methods@[i as int]@);
        }
        i += 1;
    }
    assert(all.take(all.len() as int) =~= all);
    InstanceDef {
        class: class.to_owned(),
        args: tys1(ty),
        method_fqns: fqns,
        assoc_tys: NameMap::new(),
    }
}

fn with_supers(class: TypeClassDef, supers: Vec<String>) -> (r: TypeClassDef)
    ensures
        r@ == below(class@, supers.deep_view()),
{
    let mut class = class;
    class.superclasses = supers;
    class
}

fn with_assoc_types(class: TypeClassDef, names: Vec<String>) -> (r: TypeClassDef)
    ensures
        r@ == declaring(class@, names.deep_view()),
{
    let ghost want = declaring(class@, names.deep_view());
    let mut decls: Vec<AssocTypeDecl> = Vec::new();
    let mut i: usize = 0;
    assert(decls.deep_view() =~= want.assoc_types.take(0));
    while i < names.len()
        invariant
            i <= names.len(),
            want == declaring(class@, names.deep_view()),
            decls.deep_view() == want.assoc_types.take(i as int),
        decreases names.len() - i,
    {
        let ghost before = decls.deep_view();
        let d = AssocTypeDecl {
            name: names[i].clone(),
            params: Vec::new(),
            param_kinds: Vec::new(),
        };
        decls.push(d);
        i += 1;
        assert(d@.params =~= Seq::<Seq<char>>::empty());
        assert(decls.deep_view() =~= before.push(d@));
        assert(decls.deep_view() =~= want.assoc_types.take(i as int));
    }
    let mut class = class;
    class.assoc_types = decls;
    assert(class@ =~= want);
    class
}

fn num_names() -> (r: Vec<String>)
    ensures
        r.deep_view() == num_methods(),
{
    names4("add", "sub", "mul", "div")
}

fn ord_names() -> (r: Vec<String>)
    ensures
        r.deep_view() == ord_methods(),
{
    names4("lt", "le", "gt", "ge")
}

fn eq_names() -> (r: Vec<String>)
    ensures
        r.deep_view() == eq_methods(),
{
    names2("eq", "ne")
}

fn show_names() -> (r: Vec<String>)
    ensures
        r.deep_view() == show_methods(),
{
    names1("show")
}

impl Default for Generics {
    fn default() -> (r: Self)
        ensures
            r@ == no_generics(),
    {
        let r = Generics {
            typeclasses: NameMap::new(),
            instances: Vec::new(),
            generic_type_ctors: NameMap::new(),
            generic_fns: NameSet::new(),
            nominal_type_modules: NameMap::new(),
            class_modules: NameMap::new(),
            instance_origins: KeyMap::new(),
        };
        assert(r@ =~= no_generics());
        r
    }
}

impl Generics {
    /// The registry with the builtin classes, instances and type constructors.
    pub fn new() -> (r: Self)
        ensures
            r@ == with_builtins(no_generics()),
    {
        let mut g = Self::default();
        g.register_builtins();
        g
    }

    /// Register compiler-provided generic type constructors that are
    /// always in scope.
    pub fn register_builtin_type_ctors(&mut self)
        ensures
            final(self)@ == (GenericsV {
                generic_type_ctors: with_builtin_ctors(old(self)@.generic_type_ctors),
                ..old(self)@
            }),
    {
        self.generic_type_ctors.insert("Option".to_owned(), names1("T"));
        self.generic_type_ctors.insert("Result".to_owned(), names2("T", "E"));
    }

    /// Register `def` under its name.
    pub fn add_class(&mut self, def: TypeClassDef)
        ensures
            final(self)@ == with_class(old(self)@, def@.name, def@),
    {
        self.typeclasses.insert(def.name.clone(), def);
    }

    /// Register an instance after the others.
    pub fn add_instance(&mut self, inst: InstanceDef)
        ensures
            final(self)@ == (GenericsV {
                instances: old(self)@.instances.push(inst@),
                ..old(self)@
            }),
    {
        self.instances.push(inst);
        assert(self.instances.deep_view() =~= old(self)@.instances.push(inst@));
    }

    /// Register the built-in typeclasses and their builtin instances.
    fn register_builtins(&mut self)
        ensures
            final(self)@ == with_builtins(old(self)@),
    {
        let ghost start = self@;
        self.register_builtin_type_ctors();
        self.add_class(
            with_supers(
                make_class("Num", names1("T"), num_names()),
                names4("Add", "Sub", "Mul", "Div"),
            ),
        );
        // `Ord` does not declare `Eq` as a superclass: the dictionaries of the
        // two stay apart. A declared class uses `typeclass Ordered<T: Equal>`.
        self.add_class(
            with_supers(
                make_class("Ord", names1("T"), ord_names()),
                names4("Lt", "Le", "Gt", "Ge"),
            ),
        );
        self.add_class(make_class("Eq", names1("T"), eq_names()));
        self.add_class(make_class("Show", names1("T"), show_names()));
        self.add_class(make_class("Into", names2("Self", "T"), names1("into")));
        self.add_class(make_class("Add", names1("T"), names1("add")));
        self.add_class(make_class("Sub", names1("T"), names1("sub")));
        self.add_class(make_class("Mul", names1("T"), names1("mul")));
        self.add_class(make_class("Div", names1("T"), names1("div")));
        self.add_class(make_class("Lt", names1("T"), names1("lt")));
        self.add_class(make_class("Le", names1("T"), names1("le")));
        self.add_class(make_class("Gt", names1("T"), names1("gt")));
        self.add_class(make_class("Ge", names1("T"), names1("ge")));
        self.add_class(
            with_assoc_types(make_class("Iterator", names1("I"), names1("next")), names1("Item")),
        );
        self.add_class(
            with_assoc_types(
                make_class("IntoIterator", names1("T"), names1("into_iter")),
                names2("Item", "IntoIter"),
            ),
        );
        self.add_instance(make_instance("Num", int_ty(), "int", num_names()));
        self.add_instance(make_instance("Ord", int_ty(), "int", ord_names()));
        self.add_instance(make_instance("Eq", int_ty(), "int", eq_names()));
        self.add_instance(make_instance("Show", int_ty(), "int", show_names()));
        self.add_instance(make_instance("Num", float(), "float", num_names()));
        self.add_instance(make_instance("Ord", float(), "float", ord_names()));
        self.add_instance(make_instance("Eq", float(), "float", eq_names()));
        self.add_instance(make_instance("Show", float(), "float", show_names()));
        self.add_instance(make_instance("Eq", string(), "string", eq_names()));
        self.add_instance(make_instance("Show", string(), "string", show_names()));
        self.add_instance(make_instance("Eq", boolean(), "bool", eq_names()));
        self.add_instance(make_instance("Show", boolean(), "bool", show_names()));
        self.add_instance(make_instance("Show", unit(), "unit", show_names()));
        assert(self@.instances =~= start.instances + builtin_instances());
        self.add_operator_instances(int_ty(), "int");
        self.add_operator_instances(float(), "float");
        self.add_instance(make_instance("Show", byte(), "byte", show_names()));
        assert(self@.instances =~= with_builtins(start).instances);
    }

    fn add_operator_instances(&mut self, ty: Ty, ty_str: &str)
        requires
            ty@ == Tree::con(ty_str@),
        ensures
            final(self)@ == (GenericsV {
                instances: old(self)@.instances + operator_instances(ty_str@),
                ..old(self)@
            }),
    {
        let ghost start = self@.instances;
        self.add_instance(make_instance("Add", ty.clone(), ty_str, names1("add")));
        self.add_instance(make_instance("Sub", ty.clone(), ty_str, names1("sub")));
        self.add_instance(make_instance("Mul", ty.clone(), ty_str, names1("mul")));
        self.add_instance(make_instance("Div", ty.clone(), ty_str, names1("div")));
        self.add_instance(make_instance("Lt", ty.clone(), ty_str, names1("lt")));
        self.add_instance(make_instance("Le", ty.clone(), ty_str, names1("le")));
        self.add_instance(make_instance("Gt", ty.clone(), ty_str, names1("gt")));
        self.add_instance(make_instance("Ge", ty.clone(), ty_str, names1("ge")));
        assert(self@.instances =~= start + operator_instances(ty_str@));
    }

    /// Record that `module` declares the type `name`.
    pub fn register_nominal_type(&mut self, name: &str, module: &str)
        ensures
            final(self)@ == (GenericsV {
                nominal_type_modules: old(self)@.nominal_type_modules.insert(name@, module@),
                ..old(self)@
            }),
    {
        self.nominal_type_modules.insert(name.to_owned(), module.to_owned());
    }

    /// The module that declares the type `name`.
    pub fn nominal_type_module(&self, name: &str) -> (r: Option<&String>)
        ensures
            match r {
                Some(m) => self@.nominal_type_modules.contains_key(name@)
                    && self@.nominal_type_modules[name@] == m@,
                None => !self@.nominal_type_modules.contains_key(name@),
            },
    {
        self.nominal_type_modules.get(name)
    }
}

} // verus!
