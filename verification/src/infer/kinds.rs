//! Kinds of type variables, type parameters and type constructors.
use crate::ast::TypeParam;
use crate::generics::{ClassV, TypeClassDef};
use crate::infer::{Checker, CheckerV, ScopesV};
use crate::kind::Kind;
use crate::maps::NameMap;
use crate::report::{ErrorCode, Message, MessageV, Span};
use crate::text::{self, cat3, cat5, cat7, cat9, is_lowered, number};
use crate::tree::{Head, Tree};
use crate::ty::{Constraint, Ty, TyVarId, tys1, ty_text};
use vstd::prelude::*;

verus! {

broadcast use crate::tree::group_shapes;

/// What `name` stands for in the innermost frame that has it.
pub open spec fn innermost<V>(frames: Seq<Map<Seq<char>, V>>, name: Seq<char>) -> Option<V>
    decreases frames.len(),
{
    if frames.len() == 0 {
        None
    } else if frames.last().contains_key(name) {
        Some(frames.last()[name])
    } else {
        innermost(frames.drop_last(), name)
    }
}

/// What `name` stands for in the innermost frame that has it.
pub fn find_innermost<'a, V: DeepView>(frames: &'a Vec<NameMap<V>>, name: &str) -> (r: Option<&'a V>)
    ensures
        match r {
            Some(v) => innermost(frames.deep_view(), name@) == Some(v.deep_view()),
            None => innermost(frames.deep_view(), name@) is None,
        },
{
    let ghost all = frames.deep_view();
    let mut i: usize = frames.len();
    assert(all.take(i as int) =~= all);
    while i > 0
        invariant
            i <= frames.len(),
            all == frames.deep_view(),
            innermost(all, name@) == innermost(all.take(i as int), name@),
        decreases i,
    {
        assert(all.take(i as int).drop_last() =~= all.take(i - 1));
        assert(all.take(i as int).last() == frames@[i - 1]@);
        i -= 1;
        if let Some(v) = frames[i].get(name) {
            return Some(v);
        }
    }
    None
}

/// The name of a type constructor, whatever the case it is written in.
pub open spec fn ctor_name(name: Seq<char>) -> Seq<char> {
    let low = text::lowered(name);
    if low == "int"@ || low == "float"@ || low == "string"@ || low == "bool"@ || low == "unit"@ {
        low
    } else if low == "void"@ {
        "unit"@
    } else if low == "option"@ {
        "Option"@
    } else if low == "result"@ {
        "Result"@
    } else {
        name
    }
}

/// Canonical name for a bare type constructor used as an instance head.
pub fn canonical_ctor_name(name: &str) -> (r: String)
    ensures
        r@ == ctor_name(name@),
{
    if is_lowered(name, "int") {
        "int".to_owned()
    } else if is_lowered(name, "float") {
        "float".to_owned()
    } else if is_lowered(name, "string") {
        "string".to_owned()
    } else if is_lowered(name, "bool") {
        "bool".to_owned()
    } else if is_lowered(name, "void") || is_lowered(name, "unit") {
        "unit".to_owned()
    } else if is_lowered(name, "option") {
        "Option".to_owned()
    } else if is_lowered(name, "result") {
        "Result".to_owned()
    } else {
        name.to_owned()
    }
}

/// Whether some type parameter of a frame is the variable `v`.
pub open spec fn names_var(frame: Map<Seq<char>, TyVarId>, v: TyVarId) -> bool {
    exists|k: Seq<char>| #[trigger] frame.contains_key(k) && frame[k] == v
}

/// True when some type parameter of a frame is the variable `v`.
pub fn frame_names_var(m: &NameMap<TyVarId>, v: TyVarId) -> (r: bool)
    ensures
        r == names_var(m@, v),
{
    let n = m.len();
    let mut i: usize = 0;
    while i < n
        invariant
            i <= n,
            n == m.order().len(),
            forall|j: int| 0 <= j < i ==> m@[#[trigger] m.order()[j]] != v,
        decreases n - i,
    {
        let k = m.key_at(i);
        if let Some(x) = m.get(k.as_str()) {
            if *x == v {
                assert(m@.contains_key(k@));
                return true;
            }
        }
        i += 1;
    }
    proof {
        m.order_holds_keys();
        assert forall|k: Seq<char>| #[trigger] m@.contains_key(k) implies m@[k] != v by {
            assert(m.order().contains(k));
            let j = choose|j: int| 0 <= j < m.order().len() && m.order()[j] == k;
            assert(m.order()[j] == k);
        }
    }
    false
}

impl CheckerV {
    /// Whether `v` is a type parameter in scope.
    pub open spec fn var_in_scope(self, v: TyVarId) -> bool {
        exists|i: int|
            0 <= i < self.scope.type_params.len() && names_var(
                #[trigger] self.scope.type_params[i],
                v,
            )
    }

    /// A plain error is recorded.
    pub open spec fn say(self, code: ErrorCode, text: Seq<char>, range: Span) -> CheckerV {
        self.report(MessageV::error(code, text, range))
    }

    /// The kind of a type variable; `*` when nothing else is known.
    pub open spec fn kind_of_var(self, v: TyVarId) -> Kind {
        if self.scope.var_kinds.contains_key(v) {
            self.scope.var_kinds[v]
        } else {
            Kind::Type
        }
    }

    /// The kind of a type variable is recorded.
    pub open spec fn set_var_kind(self, v: TyVarId, kind: Kind) -> CheckerV {
        CheckerV {
            scope: ScopesV { var_kinds: self.scope.var_kinds.insert(v, kind), ..self.scope },
            ..self
        }
    }

    /// The variable of the type parameter `name`.
    pub open spec fn type_param(self, name: Seq<char>) -> Option<TyVarId> {
        innermost(self.scope.type_params, name)
    }

    /// The kind of the type parameter `name`.
    pub open spec fn type_param_kind(self, name: Seq<char>) -> Option<Kind> {
        match self.type_param(name) {
            Some(v) => Some(self.kind_of_var(v)),
            None => None,
        }
    }

    /// The kind of the type parameter `name`, when it ranges over constraints.
    pub open spec fn constraint_param_kind(self, name: Seq<char>) -> Option<Kind> {
        match self.type_param_kind(name) {
            Some(k) => if k is Arrow && k.result_spec() is Constraint {
                Some(k)
            } else {
                None
            },
            None => None,
        }
    }

    /// The kind of the type constructor `name`, when it takes arguments.
    pub open spec fn bare_constructor_kind(self, name: Seq<char>) -> Option<Kind> {
        let canon = ctor_name(name);
        let ctors = self.reg.generics.generic_type_ctors;
        if ctors.contains_key(canon) {
            Some(Kind::first_order(ctors[canon].len(), Kind::Type))
        } else if canon == "Option"@ {
            Some(Kind::first_order(1, Kind::Type))
        } else if canon == "Result"@ {
            Some(Kind::first_order(2, Kind::Type))
        } else {
            None
        }
    }

    /// The kind of a type in argument position.
    pub open spec fn kind_of_type_argument(self, t: Tree) -> Kind {
        match t {
            Tree::Var(v) => self.kind_of_var(v),
            Tree::Node(Head::Con(name), _) => match self.bare_constructor_kind(name) {
                Some(k) => k,
                None => Kind::Type,
            },
            _ => Kind::Type,
        }
    }

    /// The kind that a constraint on `t` has.
    pub open spec fn expected_constraint_kind_for_arg(self, t: Tree) -> Kind {
        Kind::Arrow(Box::new(self.kind_of_type_argument(t)), Box::new(Kind::Constraint))
    }

    /// The kind that the first constructor class among the bounds gives.
    pub open spec fn kind_from_bounds(self, bounds: Seq<Seq<char>>, at: nat) -> Option<Kind>
        decreases bounds.len() - at,
    {
        if at >= bounds.len() {
            None
        } else {
            let classes = self.reg.generics.typeclasses;
            let class = bounds[at as int];
            if classes.contains_key(class) && classes[class].type_params.len() == 1
                && classes[class].kind_at(0) is Arrow {
                Some(classes[class].kind_at(0))
            } else {
                self.kind_from_bounds(bounds, at + 1)
            }
        }
    }

    /// The kind of a declared type parameter: as annotated, or as its bounds say.
    pub open spec fn resolve_type_param_kind(self, tp: TypeParam) -> Kind {
        if !(tp.kind is Type) {
            tp.kind
        } else {
            match self.kind_from_bounds(tp.bounds.deep_view(), 0) {
                Some(k) => k,
                None => Kind::Type,
            }
        }
    }

    /// The constraint that `bound` puts on `arg`, or the reason why there is none.
    pub open spec fn constraint_from_bound(self, bound: Seq<char>, arg: Tree, range: Span) -> (
        CheckerV,
        Option<Tree>,
    ) {
        let expected = self.expected_constraint_kind_for_arg(arg);
        match self.type_param_kind(bound) {
            Some(kind) => if self.constraint_param_kind(bound) is Some && kind == expected {
                (self, Some(Tree::pred(bound, seq![arg])))
            } else {
                (
                    self.say(
                        ErrorCode::GenericTypeError,
                        "Constraint parameter `"@ + bound + "` has kind `"@ + kind.text_spec()
                            + "`, expected `"@ + expected.text_spec() + "`"@,
                        range,
                    ),
                    None,
                )
            },
            None => if self.reg.generics.typeclasses.contains_key(bound) {
                (self, Some(Tree::pred(bound, seq![arg])))
            } else {
                (
                    self.say(
                        ErrorCode::GenericTypeError,
                        "Cannot find trait or constraint parameter `"@ + bound + "`"@,
                        range,
                    ),
                    None,
                )
            },
        }
    }

    /// The arguments from place `at` on are checked against the expected kinds.
    pub open spec fn check_arg_kinds(
        self,
        name: Seq<char>,
        expected: Seq<Kind>,
        args: Seq<Tree>,
        range: Span,
        at: nat,
    ) -> CheckerV
        decreases args.len() - at,
    {
        if at >= args.len() {
            self
        } else {
            let actual = self.kind_of_type_argument(args[at as int]);
            let want = expected[at as int];
            let c = if actual != want {
                self.say(
                    ErrorCode::GenericTypeError,
                    "Type argument "@ + text::decimal(at + 1) + " to `"@ + name + "` has kind `"@
                        + actual.text_spec() + "`, expected `"@ + want.text_spec() + "`"@,
                    range,
                )
            } else {
                self
            };
            c.check_arg_kinds(name, expected, args, range, at + 1)
        }
    }

    /// The application of a type constructor of kind `head` is checked.
    pub open spec fn check_type_app_kind(
        self,
        name: Seq<char>,
        head: Kind,
        args: Seq<Tree>,
        range: Span,
    ) -> CheckerV {
        let expected = head.args_spec();
        if !(head is Arrow) {
            self.say(
                ErrorCode::GenericTypeError,
                "Type parameter `"@ + name + "` has kind `"@ + head.text_spec()
                    + "`, but is applied as a type constructor"@,
                range,
            )
        } else if expected.len() != args.len() {
            self.say(
                ErrorCode::GenericTypeError,
                "Type constructor `"@ + name + "` expects "@ + text::decimal(expected.len())
                    + " type arguments, got "@ + text::decimal(args.len()),
                range,
            )
        } else {
            let c = self.check_arg_kinds(name, expected, args, range, 0);
            if head.result_spec() is Type {
                c
            } else {
                c.say(
                    ErrorCode::GenericTypeError,
                    "Type application `"@ + name + "` has kind `"@ + head.result_spec().text_spec()
                        + "`, expected `*`"@,
                    range,
                )
            }
        }
    }

    /// The heads of an instance from place `at` on are checked against the kinds
    /// of the class parameters.
    pub open spec fn validate_instance_head_kinds(
        self,
        def: ClassV,
        args: Seq<Tree>,
        range: Span,
        at: nat,
    ) -> CheckerV
        decreases args.len() - at,
    {
        if at >= args.len() {
            self
        } else {
            let want = def.kind_at(at as int);
            let t = args[at as int];
            let actual = self.kind_of_type_argument(t);
            let c = if !(want is Arrow) {
                self
            } else if t is Node && t.head() is App {
                self.say(
                    ErrorCode::GenericTypeError,
                    "Instance of constructor-kinded class `"@ + def.name
                        + "` expects a type constructor (kind `"@ + want.text_spec()
                        + "`) as argument "@ + text::decimal(at + 1) + ", found applied type `"@
                        + t.text() + "`"@,
                    range,
                )
            } else if actual != want {
                self.say(
                    ErrorCode::GenericTypeError,
                    "Instance of constructor-kinded class `"@ + def.name + "` expects argument "@
                        + text::decimal(at + 1) + " to have kind `"@ + want.text_spec()
                        + "`, found kind `"@ + actual.text_spec() + "`"@,
                    range,
                )
            } else {
                self
            };
            c.validate_instance_head_kinds(def, args, range, at + 1)
        }
    }
}

impl Checker {
    /// Record a plain error.
    pub fn say(&mut self, code: ErrorCode, message: String, range: Span)
        ensures
            final(self)@ == old(self)@.say(code, message@, range),
    {
        self.report(Message::error(code, message, range));
    }

    /// True when `v` is a type parameter in scope.
    pub fn var_in_scope(&self, v: TyVarId) -> (r: bool)
        ensures
            r == self@.var_in_scope(v),
    {
        let ghost frames = self@.scope.type_params;
        let mut i: usize = 0;
        while i < self.scope.type_params.len()
            invariant
                i <= self.scope.type_params.len(),
                frames == self.scope.type_params.deep_view(),
                frames == self@.scope.type_params,
                forall|j: int| 0 <= j < i ==> !names_var(#[trigger] frames[j], v),
            decreases self.scope.type_params.len() - i,
        {
            assert(frames[i as int] == self.scope.type_params@[i as int]@);
            if frame_names_var(&self.scope.type_params[i], v) {
                return true;
            }
            i += 1;
        }
        false
    }

    /// Kind of a type variable, defaulting to `*`.
    pub fn kind_of_var(&self, var: TyVarId) -> (r: Kind)
        ensures
            r == self@.kind_of_var(var),
    {
        match self.scope.var_kinds.get(&var) {
            Some(k) => k.clone(),
            None => Kind::Type,
        }
    }

    /// Record a type variable's kind (overwrites).
    pub fn set_var_kind(&mut self, var: TyVarId, kind: Kind)
        ensures
            final(self)@ == old(self)@.set_var_kind(var, kind),
    {
        self.scope.var_kinds.insert(var, kind);
    }

    /// The variable of the type parameter `name`, innermost frame first.
    pub fn type_param(&self, name: &str) -> (r: Option<TyVarId>)
        ensures
            r == self@.type_param(name@),
    {
        match find_innermost(&self.scope.type_params, name) {
            Some(v) => Some(*v),
            None => None,
        }
    }

    pub fn type_param_kind(&self, name: &str) -> (r: Option<Kind>)
        ensures
            r == self@.type_param_kind(name@),
    {
        match self.type_param(name) {
            Some(v) => Some(self.kind_of_var(v)),
            None => None,
        }
    }

    pub fn constraint_param_kind(&self, name: &str) -> (r: Option<Kind>)
        ensures
            r == self@.constraint_param_kind(name@),
    {
        match self.type_param_kind(name) {
            Some(k) => if k.is_constraint_constructor_kind() {
                Some(k)
            } else {
                None
            },
            None => None,
        }
    }

    pub fn bare_constructor_kind(&self, name: &str) -> (r: Option<Kind>)
        ensures
            r == self@.bare_constructor_kind(name@),
    {
        let canon = canonical_ctor_name(name);
        match self.reg.generics.generic_type_ctors.get(canon.as_str()) {
            Some(params) => Some(Kind::constructor(params.len())),
            None => if text::same_text(canon.as_str(), "Option") {
                Some(Kind::constructor(1))
            } else if text::same_text(canon.as_str(), "Result") {
                Some(Kind::constructor(2))
            } else {
                None
            },
        }
    }

    pub fn kind_of_type_argument(&self, ty: &Ty) -> (r: Kind)
        ensures
            r == self@.kind_of_type_argument(ty@),
    {
        match ty {
            Ty::Var(v) => self.kind_of_var(*v),
            Ty::Con(name) => match self.bare_constructor_kind(name.as_str()) {
                Some(k) => k,
                None => Kind::Type,
            },
            _ => Kind::Type,
        }
    }

    pub fn expected_constraint_kind_for_arg(&self, arg: &Ty) -> (r: Kind)
        ensures
            r == self@.expected_constraint_kind_for_arg(arg@),
    {
        Kind::arrow(self.kind_of_type_argument(arg), Kind::Constraint)
    }

    /// Resolve the kind of a type parameter from its annotation and/or class
    /// bounds. Explicit annotations win; otherwise a single-parameter bound
    /// whose class parameter is constructor-kinded upgrades the variable to
    /// that constructor kind.
    pub fn resolve_type_param_kind(&self, tp: &TypeParam) -> (r: Kind)
        ensures
            r == self@.resolve_type_param_kind(*tp),
    {
        if !tp.kind.is_type() {
            return tp.kind.clone();
        }
        let ghost bounds = tp.bounds.deep_view();
        let mut i: usize = 0;
        while i < tp.bounds.len()
            invariant
                i <= tp.bounds.len(),
                bounds == tp.bounds.deep_view(),
                tp.kind is Type,
                self@.kind_from_bounds(bounds, 0) == self@.kind_from_bounds(bounds, i as nat),
            decreases tp.bounds.len() - i,
        {
            assert(bounds[i as int] == tp.bounds@[i as int]@);
            if let Some(def) = self.reg.generics.typeclass(tp.bounds[i].as_str()) {
                if def.type_params.len() == 1 && def.is_constructor_kind_at(0) {
                    return def.kind_at(0);
                }
            }
            i += 1;
        }
        Kind::Type
    }

    /// The constraint that `bound` puts on `arg`. A bound that names neither a
    /// class nor a fitting constraint parameter is reported.
    pub fn constraint_from_bound(&mut self, bound: &str, arg: Ty, range: Span) -> (r: Option<
        Constraint,
    >)
        ensures
            (final(self)@, r.deep_view()) == old(self)@.constraint_from_bound(bound@, arg@, range),
    {
        let expected = self.expected_constraint_kind_for_arg(&arg);
        if let Some(kind) = self.type_param_kind(bound) {
            if self.constraint_param_kind(bound).is_some() && kind == expected {
                return Some(Constraint::on(bound, tys1(arg)));
            }
            let k = kind.to_string();
            let e = expected.to_string();
            self.say(
                ErrorCode::GenericTypeError,
                cat7(
                    "Constraint parameter `",
                    bound,
                    "` has kind `",
                    k.as_str(),
                    "`, expected `",
                    e.as_str(),
                    "`",
                ),
                range,
            );
            return None;
        }
        if self.reg.generics.typeclass(bound).is_none() {
            self.say(
                ErrorCode::GenericTypeError,
                cat3("Cannot find trait or constraint parameter `", bound, "`"),
                range,
            );
            return None;
        }
        Some(Constraint::on(bound, tys1(arg)))
    }

    /// Check the application of the type constructor `name` of kind `head_kind`.
    pub fn check_type_app_kind(
        &mut self,
        name: &str,
        head_kind: &Kind,
        arg_tys: &Vec<Ty>,
        range: Span,
    )
        ensures
            final(self)@ == old(self)@.check_type_app_kind(
                name@,
                *head_kind,
                arg_tys.deep_view(),
                range,
            ),
    {
        if !head_kind.is_arrow() {
            let k = head_kind.to_string();
            self.say(
                ErrorCode::GenericTypeError,
                cat5(
                    "Type parameter `",
                    name,
                    "` has kind `",
                    k.as_str(),
                    "`, but is applied as a type constructor",
                ),
                range,
            );
            return;
        }
        let expected = head_kind.argument_kinds();
        if expected.len() != arg_tys.len() {
            let want = number(expected.len());
            let got = number(arg_tys.len());
            let start = cat5(
                "Type constructor `",
                name,
                "` expects ",
                want.as_str(),
                " type arguments, got ",
            );
            self.say(
                ErrorCode::GenericTypeError,
                text::cat2(start.as_str(), got.as_str()),
                range,
            );
            return;
        }
        let ghost args = arg_tys.deep_view();
        let ghost whole = self@.check_arg_kinds(name@, expected@, args, range, 0);
        let mut i: usize = 0;
        while i < arg_tys.len()
            invariant
                i <= arg_tys.len(),
                expected.len() == arg_tys.len(),
                args == arg_tys.deep_view(),
                whole == self@.check_arg_kinds(name@, expected@, args, range, i as nat),
            decreases arg_tys.len() - i,
        {
            assert(args[i as int] == arg_tys@[i as int]@);
            let actual = self.kind_of_type_argument(&arg_tys[i]);
            if actual != expected[i] {
                let n = number(i + 1);
                let a = actual.to_string();
                let e = expected[i].to_string();
                self.say(
                    ErrorCode::GenericTypeError,
                    cat9(
                        "Type argument ",
                        n.as_str(),
                        " to `",
                        name,
                        "` has kind `",
                        a.as_str(),
                        "`, expected `",
                        e.as_str(),
                        "`",
                    ),
                    range,
                );
            }
            i += 1;
        }
        if !head_kind.result_kind().is_type() {
            let k = head_kind.result_kind().to_string();
            self.say(
                ErrorCode::GenericTypeError,
                cat5(
                    "Type application `",
                    name,
                    "` has kind `",
                    k.as_str(),
                    "`, expected `*`",
                ),
                range,
            );
        }
    }

    /// Check the heads of an instance against the kinds of the class parameters.
    pub fn validate_instance_head_kinds(
        &mut self,
        class_def: &TypeClassDef,
        arg_tys: &Vec<Ty>,
        range: Span,
    )
        ensures
            final(self)@ == old(self)@.validate_instance_head_kinds(
                class_def@,
                arg_tys.deep_view(),
                range,
                0,
            ),
    {
        let ghost args = arg_tys.deep_view();
        let ghost whole = self@.validate_instance_head_kinds(class_def@, args, range, 0);
        let mut i: usize = 0;
        while i < arg_tys.len()
            invariant
                i <= arg_tys.len(),
                args == arg_tys.deep_view(),
                whole == self@.validate_instance_head_kinds(class_def@, args, range, i as nat),
            decreases arg_tys.len() - i,
        {
            assert(args[i as int] == arg_tys@[i as int]@);
            let ty = &arg_tys[i];
            let expected = class_def.kind_at(i);
            if expected.is_constructor_kind() {
                let n = number(i + 1);
                let e = expected.to_string();
                if matches!(ty, Ty::App(_, _)) {
                    let t = ty_text(ty);
                    self.say(
                        ErrorCode::GenericTypeError,
                        cat9(
                            "Instance of constructor-kinded class `",
                            class_def.name.as_str(),
                            "` expects a type constructor (kind `",
                            e.as_str(),
                            "`) as argument ",
                            n.as_str(),
                            ", found applied type `",
                            t.as_str(),
                            "`",
                        ),
                        range,
                    );
                } else {
                    let actual = self.kind_of_type_argument(ty);
                    if actual != expected {
                        let a = actual.to_string();
                        self.say(
                            ErrorCode::GenericTypeError,
                            cat9(
                                "Instance of constructor-kinded class `",
                                class_def.name.as_str(),
                                "` expects argument ",
                                n.as_str(),
                                " to have kind `",
                                e.as_str(),
                                "`, found kind `",
                                a.as_str(),
                                "`",
                            ),
                            range,
                        );
                    }
                }
            }
            i += 1;
        }
    }
}

} // verus!
