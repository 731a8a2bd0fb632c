//! Applying functions: coercions, quantified types and rank-n arguments.
use crate::ast::{self, Expression, Output, identifier_name, unwrap_expr_wrappers};
use crate::env::{self, Scheme, SchemeV, freshen};
use crate::generics;
use crate::id::NodeId;
use crate::infer::annotations::{self, plural_end};
use crate::infer::instances::{self, has_open, instance_signature};
use crate::infer::{Checker, CheckerV, ExistentialPack, PackV, TablesV};
use crate::report::{ErrorCode, Span};
use crate::subst::{self, Subst, apply_constraints, apply_ty, apply_tys};
use crate::text::{self, cat2, cat3, cat5, cat7, has_prefix, number, same_text, signed_number};
use crate::tree::{ArrayLength, Head, Tree};
use crate::ty::{self, Constraint, Ty, TyVarId, con, join_text, ty_text, tys1};
use crate::unify::{self, unify_with};
use vstd::prelude::*;

verus! {

broadcast use crate::tree::group_shapes;

/// Number of quantifiers at the front of a type.
pub open spec fn lead(t: Tree) -> nat
    decreases t,
{
    match t {
        Tree::Node(Head::Forall(_), kids) => if kids.len() > 0 {
            1 + lead(kids.last())
        } else {
            0
        },
        _ => 0,
    }
}

/// Renaming variables keeps the number of leading quantifiers.
pub proof fn lead_renamed(t: Tree, m: Map<TyVarId, Tree>)
    requires
        forall|v: TyVarId| #[trigger] m.contains_key(v) ==> m[v] is Var,
    ensures
        lead(t.subst(m)) == lead(t),
    decreases t,
{
    match t {
        Tree::Node(Head::Forall(_), kids) => if kids.len() > 0 {
            lead_renamed(kids.last(), m);
        },
        _ => {},
    }
}

/// Fresh variables are variables.
pub proof fn fresh_map_renames(bounds: Seq<TyVarId>, next: u32)
    ensures
        forall|v: TyVarId| #[trigger]
            env::fresh_map(bounds, next).contains_key(v) ==> env::fresh_map(bounds, next)[v] is Var,
    decreases bounds.len(),
{
    if bounds.len() > 0 {
        fresh_map_renames(bounds.drop_last(), next);
    }
}

/// The name of the rigid type that stands for a quantified variable.
pub open spec fn rigid_name(n: u32) -> Seq<char> {
    "$forall"@ + text::decimal(n as nat)
}

/// The quantified variables, each mapped to a rigid type of its own.
pub open spec fn rigid_map(bounds: Seq<TyVarId>, next: u32, n: nat) -> Map<TyVarId, Tree>
    decreases n,
{
    if n == 0 {
        Map::empty()
    } else {
        rigid_map(bounds, next, (n - 1) as nat).insert(
            bounds[n - 1],
            Tree::con(rigid_name(env::bump_by(next, (n - 1) as nat))),
        )
    }
}

/// Whether each of the types is rigid.
pub open spec fn all_rigid(args: Seq<Tree>) -> bool {
    forall|i: int| 0 <= i < args.len() ==> is_rigid(#[trigger] args[i])
}

/// Whether a type is rigid.
pub open spec fn is_rigid(t: Tree) -> bool {
    match t {
        Tree::Node(Head::Con(name), _) => text::begins_with(name, "$forall"@),
        _ => false,
    }
}

/// True when each of the types is rigid.
pub fn every_rigid(args: &Vec<Ty>) -> (r: bool)
    ensures
        r == all_rigid(args.deep_view()),
{
    let ghost trees = args.deep_view();
    let mut i: usize = 0;
    while i < args.len()
        invariant
            i <= args.len(),
            trees == args.deep_view(),
            forall|j: int| 0 <= j < i ==> is_rigid(#[trigger] trees[j]),
        decreases args.len() - i,
    {
        assert(trees[i as int] == args@[i as int]@);
        let rigid = match &args[i] {
            Ty::Con(name) => has_prefix(name.as_str(), "$forall"),
            _ => false,
        };
        if !rigid {
            return false;
        }
        i += 1;
    }
    true
}

/// Whether a constraint is among those that a quantified type grants.
pub fn grants(constraints: &Vec<Constraint>, c: &Constraint) -> (r: bool)
    ensures
        r == constraints.deep_view().contains(c@),
{
    let ghost trees = constraints.deep_view();
    let mut i: usize = 0;
    while i < constraints.len()
        invariant
            i <= constraints.len(),
            trees == constraints.deep_view(),
            forall|j: int| 0 <= j < i ==> trees[j] != c@,
        decreases constraints.len() - i,
    {
        assert(trees[i as int] == constraints@[i as int]@);
        if ty::same_constraint(&constraints[i], c) {
            return true;
        }
        i += 1;
    }
    false
}

/// An integer literal as a byte.
#[derive(Debug, Clone, Copy, PartialEq, Eq, Structural)]
pub enum ByteLiteral {
    /// A literal in `0..=255`.
    Fits,
    /// A literal outside of that range.
    OutOfRange(i64),
    /// Not a literal.
    Other,
}

/// What an expression is as a byte literal.
pub open spec fn byte_literal(e: Output) -> ByteLiteral {
    match *ast::unwrapped(e).expr {
        Expression::Integer(n) => if 0 <= n <= 255 {
            ByteLiteral::Fits
        } else {
            ByteLiteral::OutOfRange(n)
        },
        _ => ByteLiteral::Other,
    }
}

/// What an expression is as a byte literal.
pub fn byte_literal_coercion(e: &Output) -> (r: ByteLiteral)
    ensures
        r == byte_literal(*e),
{
    match &*unwrap_expr_wrappers(e).expr {
        Expression::Integer(n) => if 0 <= *n && *n <= 255 {
            ByteLiteral::Fits
        } else {
            ByteLiteral::OutOfRange(*n)
        },
        _ => ByteLiteral::Other,
    }
}

/// The type under which the instance of a packed value is looked up.
pub open spec fn packed_ty(t: Tree) -> Tree
    decreases t,
{
    match t {
        Tree::Node(Head::Sum(name, _), _) => Tree::con(name),
        Tree::Node(Head::Constructor(_, _), kids) => if kids.len() > 0 {
            packed_ty(kids[0])
        } else {
            t
        },
        _ => t,
    }
}

/// The type under which the instance of a packed value is looked up.
pub fn existential_lookup_ty(ty: &Ty) -> (r: Ty)
    ensures
        r@ == packed_ty(ty@),
    decreases ty,
{
    match ty {
        Ty::Sum { name, .. } => con(name.as_str()),
        Ty::Constructor { owner, .. } => {
            assert(ty@.kids()[0] == owner@);
            existential_lookup_ty(owner)
        },
        _ => ty.clone(),
    }
}

/// The items of an array literal.
pub open spec fn array_items(e: Option<Output>) -> Option<Seq<Output>> {
    match e {
        Some(e) => match *ast::unwrapped(e).expr {
            Expression::Array(items) => Some(items@),
            _ => None,
        },
        None => None,
    }
}

/// Whether an array of integers may be taken as an array of bytes.
pub open spec fn bytes_expected(expected: Tree, actual: Tree) -> bool {
    match (expected, actual) {
        (Tree::Node(Head::Array(m), ek), Tree::Node(Head::Array(n), ak)) => ek.len() == 1
            && ak.len() == 1 && ek[0] == Tree::con("byte"@) && ak[0] == Tree::con("int"@) && (m == n
            || m is Dynamic || n is Dynamic),
        _ => false,
    }
}

/// True when a type is the constructor `name` without arguments.
pub fn is_con(ty: &Ty, name: &str) -> (r: bool)
    ensures
        r == (ty@ == Tree::con(name@)),
{
    match ty {
        Ty::Con(n) => same_text(n.as_str(), name),
        _ => false,
    }
}

/// True when an array of integers may be taken as an array of bytes.
pub fn expects_bytes(expected: &Ty, actual: &Ty) -> (r: bool)
    ensures
        r == bytes_expected(expected@, actual@),
{
    match (expected, actual) {
        (Ty::Array { element: ee, length: m }, Ty::Array { element: ae, length: n }) => {
            assert(expected@.kids()[0] == ee@);
            assert(actual@.kids()[0] == ae@);
            let fits = match (m, n) {
                (ArrayLength::Static(a), ArrayLength::Static(b)) => *a == *b,
                _ => true,
            };
            fits && is_con(ee, "byte") && is_con(ae, "int")
        },
        _ => false,
    }
}

/// The node behind an optional reference.
pub open spec fn opt_node(e: Option<&Output>) -> Option<Output> {
    match e {
        Some(e) => Some(*e),
        None => None,
    }
}

/// The arguments behind an optional reference.
pub open spec fn opt_nodes(e: Option<&Vec<Output>>) -> Option<Seq<Output>> {
    match e {
        Some(v) => Some(v@),
        None => None,
    }
}

/// The expression of argument `i`, when there is one.
pub open spec fn nth_expr(exprs: Option<Seq<Output>>, i: int) -> Option<Output> {
    match exprs {
        Some(s) => if 0 <= i < s.len() {
            Some(s[i])
        } else {
            None
        },
        None => None,
    }
}

/// The name behind an optional reference.
pub open spec fn opt_name(name: Option<&str>) -> Option<Seq<char>> {
    match name {
        Some(s) => Some(s@),
        None => None,
    }
}

impl CheckerV {
    /// A quantified type with fresh variables: its body and its constraints.
    pub open spec fn instantiate_forall_ty(self, t: Tree) -> (CheckerV, Tree, Seq<Tree>) {
        match t {
            Tree::Node(Head::Forall(bounds), kids) => if kids.len() > 0 {
                let m = env::fresh_map(bounds, self.counter);
                (
                    CheckerV { counter: env::bump_by(self.counter, bounds.len()), ..self },
                    kids.last().subst(m),
                    subst::subst_all(kids.drop_last(), m),
                )
            } else {
                (self, t, Seq::empty())
            },
            _ => (self, t, Seq::empty()),
        }
    }

    /// A quantified type with rigid types: its body and its constraints.
    pub open spec fn skolemize_forall_ty(self, t: Tree) -> (CheckerV, Tree, Seq<Tree>) {
        match t {
            Tree::Node(Head::Forall(bounds), kids) => if kids.len() > 0 {
                let m = rigid_map(bounds, self.counter, bounds.len());
                (
                    CheckerV { counter: env::bump_by(self.counter, bounds.len()), ..self },
                    kids.last().subst(m),
                    subst::subst_all(kids.drop_last(), m),
                )
            } else {
                (self, t, Seq::empty())
            },
            _ => (self, t, Seq::empty()),
        }
    }

    /// All quantifiers at the front of a type are instantiated.
    pub open spec fn peel_foralls(self, t: Tree, acc: Seq<Tree>) -> (CheckerV, Tree, Seq<Tree>)
        decreases lead(t),
    {
        match t {
            Tree::Node(Head::Forall(bounds), kids) => if kids.len() > 0 {
                let (c, body, constraints) = self.instantiate_forall_ty(t);
                proof {
                    fresh_map_renames(bounds, self.counter);
                    lead_renamed(kids.last(), env::fresh_map(bounds, self.counter));
                }
                c.peel_foralls(body, acc + constraints)
            } else {
                (self, t, acc)
            },
            _ => (self, t, acc),
        }
    }

    /// The type of an argument for a rank-n parameter and the constraints on it:
    /// a name is instantiated anew.
    pub open spec fn rank_n_candidate(self, inferred: Tree, arg: Option<Output>) -> (
        CheckerV,
        Tree,
        Seq<Tree>,
    ) {
        match arg {
            Some(e) => match ast::named_by(e) {
                Some(name) => match self.lookup(name) {
                    Some(scheme) => self.instantiate_scheme(scheme),
                    None => (self, inferred, Seq::empty()),
                },
                None => (self, inferred, Seq::empty()),
            },
            None => (self, inferred, Seq::empty()),
        }
    }

    /// The constraints of a rank-n argument are checked, from place `at` on.
    pub open spec fn check_rank_n_constraints(
        self,
        local: Map<TyVarId, Tree>,
        granted: Seq<Tree>,
        constraints: Seq<Tree>,
        range: Span,
        at: nat,
    ) -> CheckerV
        decreases constraints.len() - at,
    {
        if at >= constraints.len() {
            self
        } else {
            let k = constraints[at as int];
            let class = annotations::class_of(k);
            let args = subst::subst_all(k.kids(), local);
            let c = if all_rigid(args) {
                if granted.contains(Tree::pred(class, args)) {
                    self
                } else {
                    self.say(
                        ErrorCode::GenericTypeError,
                        "Cannot pass constrained polymorphic value where unconstrained `forall` is expected"@,
                        range,
                    )
                }
            } else if instances::any_open(args) {
                if self.constraint_is_covered(Tree::pred(class, args)) {
                    self
                } else {
                    self.say(
                        ErrorCode::GenericTypeError,
                        "Cannot satisfy constraint `"@ + class + "`"@,
                        range,
                    )
                }
            } else if generics::exact_instance(
                self.reg.generics.instances,
                class,
                self.instance_lookup_args(class, args),
            ) is None {
                self.say(
                    ErrorCode::GenericTypeError,
                    "No instance for `"@ + class + "<"@ + Tree::join_text(args) + ">`"@,
                    range,
                )
            } else {
                self
            };
            c.check_rank_n_constraints(local, granted, constraints, range, at + 1)
        }
    }

    /// An argument for a quantified parameter is checked: it must fit with
    /// rigid types in place of the quantified variables.
    pub open spec fn check_rank_n_argument(
        self,
        expected: Tree,
        inferred: Tree,
        arg: Option<Output>,
        range: Span,
    ) -> CheckerV {
        let (c, body, granted) = self.skolemize_forall_ty(expected);
        let (c, t, constraints) = c.rank_n_candidate(inferred, arg);
        let candidate = c.resolve(t);
        let place = match arg {
            Some(e) => e.span,
            None => range,
        };
        match unify::unified(Map::empty(), candidate, body) {
            Ok(local) => c.check_rank_n_constraints(local, granted, constraints, place, 0),
            Err(_) => c.say(
                ErrorCode::TypeMismatch,
                "Type mismatch: expected `"@ + c.resolve(expected).text() + "`, found `"@
                    + candidate.text() + "`"@,
                place,
            ),
        }
    }

    /// A byte literal out of range is reported.
    pub open spec fn byte_out_of_range(self, n: i64, range: Span) -> (CheckerV, Tree) {
        self.error_with_help(
            ErrorCode::TypeMismatch,
            "byte literal out of range: `"@ + text::signed(n as int) + "` is not in 0..=255"@,
            range,
            "a `byte` must be an integer between 0 and 255"@,
        )
    }

    /// Whether the items from place `at` on are byte literals; those out of
    /// range are reported, up to the first that is no literal.
    pub open spec fn check_byte_items(self, items: Seq<Output>, at: nat) -> (CheckerV, bool)
        decreases items.len() - at,
    {
        if at >= items.len() {
            (self, true)
        } else {
            match byte_literal(items[at as int]) {
                ByteLiteral::Fits => self.check_byte_items(items, at + 1),
                ByteLiteral::OutOfRange(n) => {
                    let (c, _) = self.byte_out_of_range(n, items[at as int].span);
                    (c.check_byte_items(items, at + 1).0, false)
                },
                ByteLiteral::Other => (self, false),
            }
        }
    }

    /// A value is packed as an existential of `class`.
    pub open spec fn pack(
        self,
        class: Seq<char>,
        expected: Tree,
        actual: Tree,
        expr: Option<Output>,
        range: Span,
    ) -> (CheckerV, Tree) {
        if actual is Var {
            self.error_with_help(
                ErrorCode::GenericTypeError,
                "Cannot pack open generic value as `"@ + class + "`"@,
                range,
                "bare-class existentials require a concrete value type at the pack site"@,
            )
        } else {
            let value_ty = packed_ty(actual);
            match self.find_unique_instance(class, seq![value_ty], range) {
                (c, Ok(Some(_))) => match expr {
                    Some(e) => (
                        CheckerV {
                            out: TablesV {
                                packs_by_span: c.out.packs_by_span.insert(
                                    e.span,
                                    PackV { class, value_ty },
                                ),
                                ..c.out
                            },
                            ..c
                        },
                        expected,
                    ),
                    None => (c, expected),
                },
                (c, Ok(None)) => (
                    c.say(
                        ErrorCode::GenericTypeError,
                        "No instance for `"@ + instances::signature(class, seq![value_ty]) + "`"@,
                        range,
                    ),
                    expected,
                ),
                (c, Err(())) => (c, expected),
            }
        }
    }

    /// Two types are unified, unless one is an existential that the other is
    /// packed as.
    pub open spec fn pack_or_unify(
        self,
        expected: Tree,
        actual: Tree,
        expr: Option<Output>,
        range: Span,
        what: Seq<char>,
    ) -> (CheckerV, Tree) {
        match expected {
            Tree::Node(Head::Existential(class), _) => if actual is Node && actual.head()
                == Head::Existential(class) {
                (self, expected)
            } else {
                self.pack(class, expected, actual, expr, range)
            },
            _ => self.unify(expected, actual, range, what),
        }
    }

    /// A value of type `actual` is taken as `expected`: integer literals as
    /// bytes, concrete values as existentials, else by unification.
    pub open spec fn coerce_or_unify(
        self,
        expected: Tree,
        actual: Tree,
        expr: Option<Output>,
        range: Span,
        what: Seq<char>,
    ) -> (CheckerV, Tree) {
        let e = self.resolve(expected);
        let a = self.resolve(actual);
        let literal = if e == Tree::con("byte"@) && a == Tree::con("int"@) && expr is Some {
            byte_literal(expr.unwrap())
        } else {
            ByteLiteral::Other
        };
        match literal {
            ByteLiteral::Fits => (self, e),
            ByteLiteral::OutOfRange(n) => self.byte_out_of_range(n, range),
            ByteLiteral::Other => if bytes_expected(e, a) && array_items(expr) is Some {
                let (c, ok) = self.check_byte_items(array_items(expr).unwrap(), 0);
                if ok {
                    (c, e)
                } else {
                    c.pack_or_unify(e, a, expr, range, what)
                }
            } else {
                self.pack_or_unify(e, a, expr, range, what)
            },
        }
    }

    /// One argument more than the function takes is reported.
    pub open spec fn too_many_arguments(self, name: Option<Seq<char>>, t: Tree, at: nat, range: Span) -> (
        CheckerV,
        Tree,
    ) {
        self.error_with_help(
            ErrorCode::GenericTypeError,
            match name {
                Some(n) => "Function `"@ + n + "` was called with too many arguments (it accepts "@
                    + text::decimal(at) + ", but argument #"@ + text::decimal(at + 1)
                    + " was given)"@,
                None => "Cannot call value of type `"@ + t.text() + "` as a function (it accepts "@
                    + text::decimal(at) + " argument"@ + annotations::plural(at) + ")"@,
            },
            range,
            "check the function signature or the number of arguments"@,
        )
    }

    /// A curried function is applied to the arguments from place `at` on.
    pub open spec fn apply_function(
        self,
        name: Option<Seq<char>>,
        fun_ty: Tree,
        args: Seq<Tree>,
        exprs: Option<Seq<Output>>,
        call: Option<NodeId>,
        range: Span,
        at: nat,
    ) -> (CheckerV, Tree)
        decreases args.len() - at,
    {
        if at >= args.len() {
            (self, fun_ty)
        } else {
            let arg = args[at as int];
            let expr = nth_expr(exprs, at as int);
            let (c, t, pending) = self.peel_foralls(self.resolve(fun_ty), Seq::empty());
            match t {
                Tree::Var(v) => {
                    let (c, ret) = c.fresh();
                    let c = c.unify(Tree::Var(v), Tree::fun(arg, ret), range, "function type"@).0;
                    c.apply_function(name, ret, args, exprs, call, range, at + 1)
                },
                Tree::Node(Head::Fun, kids) => {
                    let param = kids[0];
                    let c = if param is Node && param.head() is Forall {
                        c.check_rank_n_argument(param, arg, expr, range)
                    } else {
                        c.coerce_or_unify(param, arg, expr, range, "function argument"@).0
                    };
                    c.discharge_constraints(call, pending, range, 0).apply_function(
                        name,
                        kids[1],
                        args,
                        exprs,
                        call,
                        range,
                        at + 1,
                    )
                },
                _ => c.too_many_arguments(name, t, at, range),
            }
        }
    }

    /// The constraints of other classes than `class`.
    pub open spec fn of_other_classes(constraints: Seq<Tree>, class: Seq<char>, at: nat, acc: Seq<Tree>) -> Seq<
        Tree,
    >
        decreases constraints.len() - at,
    {
        if at >= constraints.len() {
            acc
        } else {
            let c = constraints[at as int];
            CheckerV::of_other_classes(
                constraints,
                class,
                at + 1,
                if annotations::class_of(c) == class {
                    acc
                } else {
                    acc.push(c)
                },
            )
        }
    }

    /// The method of an existential of `class` is applied; the pack itself
    /// answers for that class.
    pub open spec fn apply_existential_method(
        self,
        class: Seq<char>,
        method: Seq<char>,
        scheme: SchemeV,
        args: Seq<Tree>,
        exprs: Option<Seq<Output>>,
        call: Option<NodeId>,
        range: Span,
    ) -> (CheckerV, Tree) {
        let (c, fun_ty, constraints) = self.instantiate_scheme(scheme);
        let (c, t) = c.apply_function(
            Some(class + "::"@ + method),
            fun_ty,
            args,
            exprs,
            call,
            range,
            0,
        );
        (
            c.discharge_constraints(
                call,
                CheckerV::of_other_classes(constraints, class, 0, Seq::empty()),
                range,
                0,
            ),
            t,
        )
    }
}

impl Checker {
    /// A quantified type with fresh variables: its body and its constraints.
    pub fn instantiate_forall_ty(&mut self, ty: &Ty) -> (r: (Ty, Vec<Constraint>))
        ensures
            (final(self)@, r.0@, r.1.deep_view()) == old(self)@.instantiate_forall_ty(ty@),
    {
        match ty {
            Ty::Forall { bounds, constraints, body } => {
                proof {
                    crate::tree::forall_shape(*bounds, *constraints, *body);
                    assert(ty@.kids().drop_last() =~= constraints.deep_view());
                }
                let (s, _) = freshen(bounds, &mut self.counter);
                (apply_ty(&s, body), apply_constraints(&s, constraints))
            },
            _ => {
                let none: Vec<Constraint> = Vec::new();
                assert(none.deep_view() =~= Seq::<Tree>::empty());
                (ty.clone(), none)
            },
        }
    }

    /// A quantified type with rigid types in place of its variables: its body
    /// and its constraints.
    pub fn skolemize_forall_ty(&mut self, ty: &Ty) -> (r: (Ty, Vec<Constraint>))
        ensures
            (final(self)@, r.0@, r.1.deep_view()) == old(self)@.skolemize_forall_ty(ty@),
    {
        match ty {
            Ty::Forall { bounds, constraints, body } => {
                proof {
                    crate::tree::forall_shape(*bounds, *constraints, *body);
                    assert(ty@.kids().drop_last() =~= constraints.deep_view());
                }
                let s = self.rigid_subst(bounds);
                (apply_ty(&s, body), apply_constraints(&s, constraints))
            },
            _ => {
                let none: Vec<Constraint> = Vec::new();
                assert(none.deep_view() =~= Seq::<Tree>::empty());
                (ty.clone(), none)
            },
        }
    }

    fn rigid_subst(&mut self, bounds: &Vec<TyVarId>) -> (r: Subst)
        ensures
            r@ == rigid_map(bounds@, old(self)@.counter, bounds@.len()),
            final(self)@ == (CheckerV {
                counter: env::bump_by(old(self)@.counter, bounds@.len()),
                ..old(self)@
            }),
    {
        let ghost start = self@;
        let mut s = Subst::empty();
        let mut i: usize = 0;
        while i < bounds.len()
            invariant
                i <= bounds.len(),
                s@ == rigid_map(bounds@, start.counter, i as nat),
                self@ == (CheckerV {
                    counter: env::bump_by(start.counter, i as nat),
                    ..start
                }),
            decreases bounds.len() - i,
        {
            let v = self.fresh_var();
            let n = number(v.0 as usize);
            let name = cat2("$forall", n.as_str());
            s.insert(bounds[i], con(name.as_str()));
            i += 1;
        }
        s
    }

    fn peel_foralls(&mut self, ty: Ty) -> (r: (Ty, Vec<Constraint>))
        ensures
            (final(self)@, r.0@, r.1.deep_view()) == old(self)@.peel_foralls(ty@, Seq::empty()),
    {
        let mut current = ty;
        let mut pending: Vec<Constraint> = Vec::new();
        assert(pending.deep_view() =~= Seq::<Tree>::empty());
        let ghost whole = self@.peel_foralls(ty@, Seq::empty());
        while matches!(&current, Ty::Forall { .. })
            invariant
                whole == self@.peel_foralls(current@, pending.deep_view()),
            decreases lead(current@),
        {
            let ghost before = pending.deep_view();
            proof {
                if let Ty::Forall { bounds, constraints, body } = &current {
                    crate::tree::forall_shape(*bounds, *constraints, *body);
                    fresh_map_renames(bounds@, self@.counter);
                    lead_renamed(body@, env::fresh_map(bounds@, self@.counter));
                }
            }
            let (body, constraints) = self.instantiate_forall_ty(&current);
            let mut more = constraints;
            let ghost added = more.deep_view();
            pending.append(&mut more);
            assert(pending.deep_view() =~= before + added);
            current = body;
        }
        (current, pending)
    }

    fn rank_n_candidate(&mut self, inferred: &Ty, arg: Option<&Output>) -> (r: (Ty, Vec<Constraint>))
        ensures
            (final(self)@, r.0@, r.1.deep_view()) == old(self)@.rank_n_candidate(
                inferred@,
                opt_node(arg),
            ),
    {
        if let Some(e) = arg {
            if let Some(name) = identifier_name(e) {
                if let Some(scheme) = self.lookup(name.as_str()) {
                    return self.instantiate_scheme(&scheme);
                }
            }
        }
        let none: Vec<Constraint> = Vec::new();
        assert(none.deep_view() =~= Seq::<Tree>::empty());
        (inferred.clone(), none)
    }

    fn check_rank_n_constraints(
        &mut self,
        local: &Subst,
        granted: &Vec<Constraint>,
        constraints: &Vec<Constraint>,
        range: Span,
    )
        ensures
            final(self)@ == old(self)@.check_rank_n_constraints(
                local@,
                granted.deep_view(),
                constraints.deep_view(),
                range,
                0,
            ),
    {
        let ghost all = constraints.deep_view();
        let ghost gr = granted.deep_view();
        let ghost whole = self@.check_rank_n_constraints(local@, gr, all, range, 0);
        let mut i: usize = 0;
        while i < constraints.len()
            invariant
                i <= constraints.len(),
                all == constraints.deep_view(),
                gr == granted.deep_view(),
                whole == self@.check_rank_n_constraints(local@, gr, all, range, i as nat),
            decreases constraints.len() - i,
        {
            let c = &constraints[i];
            assert(all[i as int] == c@);
            let args = apply_tys(local, &c.args);
            let needed = Constraint { class: c.class.clone(), args };
            if every_rigid(&needed.args) {
                if !grants(granted, &needed) {
                    self.say(
                        ErrorCode::GenericTypeError,
                        "Cannot pass constrained polymorphic value where unconstrained `forall` is expected".to_owned(),
                        range,
                    );
                }
            } else if has_open(&needed.args) {
                if !self.constraint_is_covered(&needed) {
                    self.say(
                        ErrorCode::GenericTypeError,
                        cat3("Cannot satisfy constraint `", c.class.as_str(), "`"),
                        range,
                    );
                }
            } else {
                let lookup = self.instance_lookup_args(c.class.as_str(), &needed.args);
                let slice = lookup.as_slice();
                assert(slice.deep_view() =~= lookup.deep_view());
                if self.reg.generics.find_instance(c.class.as_str(), slice).is_none() {
                    let list = join_text(&needed.args);
                    self.say(
                        ErrorCode::GenericTypeError,
                        cat5("No instance for `", c.class.as_str(), "<", list.as_str(), ">`"),
                        range,
                    );
                }
            }
            i += 1;
        }
    }

    /// Check an argument for a quantified parameter: it must fit with rigid
    /// types in place of the quantified variables, and need no constraint that
    /// the parameter does not grant.
    pub fn check_rank_n_argument(
        &mut self,
        expected: &Ty,
        inferred: &Ty,
        arg: Option<&Output>,
        range: Span,
    )
        ensures
            final(self)@ == old(self)@.check_rank_n_argument(
                expected@,
                inferred@,
                opt_node(arg),
                range,
            ),
    {
        let (body, granted) = self.skolemize_forall_ty(expected);
        let (t, constraints) = self.rank_n_candidate(inferred, arg);
        let candidate = self.resolve(&t);
        let place = match arg {
            Some(e) => e.span,
            None => range,
        };
        match unify_with(&Subst::empty(), &candidate, &body) {
            Ok(local) => {
                self.check_rank_n_constraints(&local, &granted, &constraints, place);
            },
            Err(_) => {
                let e = ty_text(&self.resolve(expected));
                let f = ty_text(&candidate);
                self.say(
                    ErrorCode::TypeMismatch,
                    cat5("Type mismatch: expected `", e.as_str(), "`, found `", f.as_str(), "`"),
                    place,
                );
            },
        }
    }

    fn byte_out_of_range(&mut self, n: i64, range: Span) -> (r: Ty)
        ensures
            (final(self)@, r@) == old(self)@.byte_out_of_range(n, range),
    {
        let digits = signed_number(n);
        self.error_with_help(
            ErrorCode::TypeMismatch,
            cat3("byte literal out of range: `", digits.as_str(), "` is not in 0..=255"),
            range,
            "a `byte` must be an integer between 0 and 255".to_owned(),
        )
    }

    fn check_byte_items(&mut self, items: &Vec<Output>) -> (r: bool)
        ensures
            (final(self)@, r) == old(self)@.check_byte_items(items@, 0),
    {
        let ghost whole = self@.check_byte_items(items@, 0);
        let mut ok = true;
        let mut i: usize = 0;
        let mut more = true;
        while more && i < items.len()
            invariant
                i <= items.len(),
                more ==> whole.0 == self@.check_byte_items(items@, i as nat).0,
                more ==> whole.1 == (ok && self@.check_byte_items(items@, i as nat).1),
                !more ==> whole == (self@, false) && !ok,
            decreases items.len() - i,
        {
            match byte_literal_coercion(&items[i]) {
                ByteLiteral::Fits => {
                    i += 1;
                },
                ByteLiteral::OutOfRange(n) => {
                    let _ = self.byte_out_of_range(n, items[i].span);
                    ok = false;
                    i += 1;
                },
                ByteLiteral::Other => {
                    ok = false;
                    more = false;
                    i = items.len();
                },
            }
        }
        ok
    }

    fn pack(
        &mut self,
        class: &str,
        expected: Ty,
        actual: &Ty,
        expr: Option<&Output>,
        range: Span,
    ) -> (r: Ty)
        ensures
            (final(self)@, r@) == old(self)@.pack(
                class@,
                expected@,
                actual@,
                opt_node(expr),
                range,
            ),
    {
        if matches!(actual, Ty::Var(_)) {
            return self.error_with_help(
                ErrorCode::GenericTypeError,
                cat3("Cannot pack open generic value as `", class, "`"),
                range,
                "bare-class existentials require a concrete value type at the pack site".to_owned(),
            );
        }
        let value_ty = existential_lookup_ty(actual);
        let wanted = tys1(value_ty.clone());
        match self.find_unique_instance(class, &wanted, range) {
            Ok(Some(_)) => {
                if let Some(e) = expr {
                    let p = ExistentialPack { class: class.to_owned(), value_ty };
                    self.out.packs_by_span.insert(e.span, p);
                }
            },
            Ok(None) => {
                let pretty = instance_signature(class, &wanted);
                self.say(
                    ErrorCode::GenericTypeError,
                    cat3("No instance for `", pretty.as_str(), "`"),
                    range,
                );
            },
            Err(()) => {},
        }
        expected
    }

    fn pack_or_unify(
        &mut self,
        expected: Ty,
        actual: &Ty,
        expr: Option<&Output>,
        range: Span,
        what: &str,
    ) -> (r: Ty)
        ensures
            (final(self)@, r@) == old(self)@.pack_or_unify(
                expected@,
                actual@,
                opt_node(expr),
                range,
                what@,
            ),
    {
        let class = match &expected {
            Ty::Existential { class } => class.clone(),
            _ => {
                return self.unify(&expected, actual, range, what);
            },
        };
        let same = match actual {
            Ty::Existential { class: other } => same_text(other.as_str(), class.as_str()),
            _ => false,
        };
        if same {
            return expected;
        }
        self.pack(class.as_str(), expected, actual, expr, range)
    }

    /// Take a value of type `actual` as `expected`. Integer literals (and array
    /// literals of them) may coerce to bytes when in range 0..=255; a concrete
    /// value may be packed as a bare-class existential; anything else unifies.
    pub fn coerce_or_unify(
        &mut self,
        expected: &Ty,
        actual: &Ty,
        expr: Option<&Output>,
        range: Span,
        what: &str,
    ) -> (r: Ty)
        ensures
            (final(self)@, r@) == old(self)@.coerce_or_unify(
                expected@,
                actual@,
                opt_node(expr),
                range,
                what@,
            ),
    {
        let e = self.resolve(expected);
        let a = self.resolve(actual);
        if let Some(x) = expr {
            if is_con(&e, "byte") && is_con(&a, "int") {
                match byte_literal_coercion(x) {
                    ByteLiteral::Fits => {
                        return e;
                    },
                    ByteLiteral::OutOfRange(n) => {
                        return self.byte_out_of_range(n, range);
                    },
                    ByteLiteral::Other => {},
                }
            }
            if expects_bytes(&e, &a) {
                if let Expression::Array(items) = &*unwrap_expr_wrappers(x).expr {
                    if self.check_byte_items(items) {
                        return e;
                    }
                }
            }
        }
        self.pack_or_unify(e, &a, expr, range, what)
    }

    fn too_many_arguments(&mut self, name: Option<&str>, ty: &Ty, at: usize, range: Span) -> (r: Ty)
        requires
            at < usize::MAX,
        ensures
            (final(self)@, r@) == old(self)@.too_many_arguments(
                opt_name(name),
                ty@,
                at as nat,
                range,
            ),
    {
        let n = number(at);
        let text = match name {
            Some(f) => {
                let m = number(at + 1);
                cat7(
                    "Function `",
                    f,
                    "` was called with too many arguments (it accepts ",
                    n.as_str(),
                    ", but argument #",
                    m.as_str(),
                    " was given)",
                )
            },
            None => {
                let t = ty_text(ty);
                cat7(
                    "Cannot call value of type `",
                    t.as_str(),
                    "` as a function (it accepts ",
                    n.as_str(),
                    " argument",
                    plural_end(at),
                    ")",
                )
            },
        };
        self.error_with_help(
            ErrorCode::GenericTypeError,
            text,
            range,
            "check the function signature or the number of arguments".to_owned(),
        )
    }

    /// Thread a curried function type through a list of argument types. If at
    /// any point the type doesn't look like a function and isn't a variable,
    /// the call is rejected.
    pub fn apply_function(
        &mut self,
        name: Option<&str>,
        fun_ty: &Ty,
        arg_tys: &Vec<Ty>,
        arg_exprs: Option<&Vec<Output>>,
        call: Option<NodeId>,
        range: Span,
    ) -> (r: Ty)
        ensures
            (final(self)@, r@) == old(self)@.apply_function(
                opt_name(name),
                fun_ty@,
                arg_tys.deep_view(),
                opt_nodes(arg_exprs),
                call,
                range,
                0,
            ),
    {
        self.apply_from(name, fun_ty.clone(), arg_tys, arg_exprs, call, range, 0)
    }

    fn apply_from(
        &mut self,
        name: Option<&str>,
        fun_ty: Ty,
        arg_tys: &Vec<Ty>,
        arg_exprs: Option<&Vec<Output>>,
        call: Option<NodeId>,
        range: Span,
        at: usize,
    ) -> (r: Ty)
        ensures
            (final(self)@, r@) == old(self)@.apply_function(
                opt_name(name),
                fun_ty@,
                arg_tys.deep_view(),
                opt_nodes(arg_exprs),
                call,
                range,
                at as nat,
            ),
        decreases arg_tys@.len() - at,
    {
        if at >= arg_tys.len() {
            return fun_ty;
        }
        let arg = &arg_tys[at];
        assert(arg_tys.deep_view()[at as int] == arg@);
        let expr = match arg_exprs {
            Some(v) => if at < v.len() {
                Some(&v[at])
            } else {
                None
            },
            None => None,
        };
        let pruned = self.resolve(&fun_ty);
        let (t, pending) = self.peel_foralls(pruned);
        match t {
            Ty::Var(v) => {
                let ret = self.fresh();
                let wanted = ty::fun(arg.clone(), ret.clone());
                let _ = self.unify(&Ty::Var(v), &wanted, range, "function type");
                self.apply_from(name, ret, arg_tys, arg_exprs, call, range, at + 1)
            },
            Ty::Fun(param, ret) => {
                assert(t@.kids()[0] == param@ && t@.kids()[1] == ret@);
                if matches!(&*param, Ty::Forall { .. }) {
                    self.check_rank_n_argument(&param, arg, expr, range);
                } else {
                    let _ = self.coerce_or_unify(&param, arg, expr, range, "function argument");
                }
                self.discharge_constraints(call, &pending, range);
                self.apply_from(name, *ret, arg_tys, arg_exprs, call, range, at + 1)
            },
            _ => self.too_many_arguments(name, &t, at, range),
        }
    }

    /// Apply the method of an existential; the pack itself answers for its class.
    pub fn apply_existential_method(
        &mut self,
        class: &str,
        method: &str,
        scheme: &Scheme,
        arg_tys: &Vec<Ty>,
        arg_exprs: Option<&Vec<Output>>,
        call: Option<NodeId>,
        range: Span,
    ) -> (r: Ty)
        ensures
            (final(self)@, r@) == old(self)@.apply_existential_method(
                class@,
                method@,
                scheme@,
                arg_tys.deep_view(),
                opt_nodes(arg_exprs),
                call,
                range,
            ),
    {
        let (fun_ty, constraints) = self.instantiate_scheme(scheme);
        let name = cat3(class, "::", method);
        let t = self.apply_function(Some(name.as_str()), &fun_ty, arg_tys, arg_exprs, call, range);
        let remaining = other_classes(&constraints, class);
        self.discharge_constraints(call, &remaining, range);
        t
    }
}

/// The constraints of other classes than `class`.
pub fn other_classes(constraints: &Vec<Constraint>, class: &str) -> (r: Vec<Constraint>)
    ensures
        r.deep_view() == CheckerV::of_other_classes(
            constraints.deep_view(),
            class@,
            0,
            Seq::empty(),
        ),
{
    let mut acc: Vec<Constraint> = Vec::new();
    assert(acc.deep_view() =~= Seq::<Tree>::empty());
    let ghost all = constraints.deep_view();
    let ghost whole = CheckerV::of_other_classes(all, class@, 0, Seq::empty());
    let mut i: usize = 0;
    while i < constraints.len()
        invariant
            i <= constraints.len(),
            all == constraints.deep_view(),
            whole == CheckerV::of_other_classes(all, class@, i as nat, acc.deep_view()),
        decreases constraints.len() - i,
    {
        assert(all[i as int] == constraints@[i as int]@);
        let ghost before = acc.deep_view();
        if !same_text(constraints[i].class.as_str(), class) {
            let c = constraints[i].clone();
            acc.push(c);
            assert(acc.deep_view() =~= before.push(c@));
        }
        i += 1;
    }
    acc
}

} // verus!
