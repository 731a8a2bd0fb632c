//! Types of the coil language: copies, equality, substitution and the builtin
//! constructors.
use crate::maps::{Dup, KeyMap, MapKey, NameMap};
use crate::text::{cat2, cat3, cat5, number, same_text};
pub use crate::tree::{ArrayLength, Constraint, EnumVariantPayloadTy, Ty, TyVarId};
use crate::tree::{self, Head, Tree};
use vstd::prelude::*;

verus! {

broadcast use crate::tree::group_shapes;

fn copy_ty(t: &Ty) -> (r: Ty)
    ensures
        r@ == t@,
    decreases t,
{
    match t {
        Ty::Var(v) => Ty::Var(*v),
        Ty::Con(name) => Ty::Con(name.clone()),
        Ty::App(head, args) => {
            let h = Box::new(copy_ty(head));
            let a = copy_tys(args);
            proof {
                tree::app_shape(*head, *args);
                tree::app_shape(h, a);
            }
            Ty::App(h, a)
        },
        Ty::Fun(param, result) => Ty::Fun(Box::new(copy_ty(param)), Box::new(copy_ty(result))),
        Ty::List(element) => Ty::List(Box::new(copy_ty(element))),
        Ty::Sum { name, variants } => {
            let copied = copy_variants(variants);
            let r = Ty::Sum { name: name.clone(), variants: copied };
            assert(r@.head()->Sum_1 =~= t@.head()->Sum_1);
            r
        },
        Ty::Constructor { owner, tag, arity } => Ty::Constructor {
            owner: Box::new(copy_ty(owner)),
            tag: *tag,
            arity: *arity,
        },
        Ty::Tuple(items) => Ty::Tuple(copy_tys(items)),
        Ty::Array { element, length } => Ty::Array {
            element: Box::new(copy_ty(element)),
            length: *length,
        },
        Ty::Record { fields } => {
            let copied = copy_fields(fields);
            let r = Ty::Record { fields: copied };
            assert(r@.head()->Record_0 =~= t@.head()->Record_0);
            r
        },
        Ty::Existential { class } => Ty::Existential { class: class.clone() },
        Ty::Forall { bounds, constraints, body } => {
            let b = copy_vars(bounds);
            let c = copy_constraints(constraints);
            let t = Box::new(copy_ty(body));
            proof {
                tree::forall_shape(*bounds, *constraints, *body);
                tree::forall_shape(b, c, t);
            }
            Ty::Forall { bounds: b, constraints: c, body: t }
        },
    }
}

/// A copy of a list of type variables.
pub fn copy_vars(v: &Vec<TyVarId>) -> (r: Vec<TyVarId>)
    ensures
        r@ == v@,
{
    let mut r: Vec<TyVarId> = Vec::new();
    let mut i: usize = 0;
    while i < v.len()
        invariant
            i <= v.len(),
            r@ == v@.take(i as int),
        decreases v.len() - i,
    {
        r.push(v[i]);
        i += 1;
        assert(r@ =~= v@.take(i as int));
    }
    assert(r@ =~= v@);
    r
}

/// A copy of a list of types.
pub fn copy_tys(v: &Vec<Ty>) -> (r: Vec<Ty>)
    ensures
        r.deep_view() == v.deep_view(),
    decreases v,
{
    let mut r: Vec<Ty> = Vec::new();
    let mut i: usize = 0;
    while i < v.len()
        invariant
            i <= v.len(),
            r.len() == i,
            forall|j: int| 0 <= j < i ==> r.deep_view()[j] == v.deep_view()[j],
        decreases v.len() - i,
    {
        r.push(copy_ty(&v[i]));
        i += 1;
    }
    assert(r.deep_view() =~= v.deep_view());
    r
}

/// A copy of a list of named types.
pub fn copy_fields(v: &Vec<(String, Ty)>) -> (r: Vec<(String, Ty)>)
    ensures
        r.deep_view() == v.deep_view(),
        r.len() == v.len(),
        forall|i: int| 0 <= i < v.len() ==> (#[trigger] r@[i]).0@ == v@[i].0@,
    decreases v,
{
    let mut r: Vec<(String, Ty)> = Vec::new();
    let mut i: usize = 0;
    while i < v.len()
        invariant
            i <= v.len(),
            r.len() == i,
            forall|j: int| 0 <= j < i ==> r.deep_view()[j] == v.deep_view()[j],
            forall|j: int| 0 <= j < i ==> (#[trigger] r@[j]).0@ == v@[j].0@,
        decreases v.len() - i,
    {
        r.push((v[i].0.clone(), copy_ty(&v[i].1)));
        i += 1;
    }
    assert(r.deep_view() =~= v.deep_view());
    r
}

/// A copy of a list of variants.
pub fn copy_variants(v: &Vec<(String, EnumVariantPayloadTy)>) -> (r: Vec<
    (String, EnumVariantPayloadTy),
>)
    ensures
        r.deep_view() == v.deep_view(),
        r.len() == v.len(),
        forall|i: int| 0 <= i < v.len() ==> (#[trigger] r@[i]).0@ == v@[i].0@,
    decreases v,
{
    let mut r: Vec<(String, EnumVariantPayloadTy)> = Vec::new();
    let mut i: usize = 0;
    while i < v.len()
        invariant
            i <= v.len(),
            r.len() == i,
            forall|j: int| 0 <= j < i ==> r.deep_view()[j] == v.deep_view()[j],
            forall|j: int| 0 <= j < i ==> (#[trigger] r@[j]).0@ == v@[j].0@,
        decreases v.len() - i,
    {
        r.push((v[i].0.clone(), copy_payload(&v[i].1)));
        i += 1;
    }
    assert(r.deep_view() =~= v.deep_view());
    r
}

/// A copy of a list of constraints.
pub fn copy_constraints(v: &Vec<Constraint>) -> (r: Vec<Constraint>)
    ensures
        r.deep_view() == v.deep_view(),
    decreases v,
{
    let mut r: Vec<Constraint> = Vec::new();
    let mut i: usize = 0;
    while i < v.len()
        invariant
            i <= v.len(),
            r.len() == i,
            forall|j: int| 0 <= j < i ==> r.deep_view()[j] == v.deep_view()[j],
        decreases v.len() - i,
    {
        r.push(copy_constraint(&v[i]));
        i += 1;
    }
    assert(r.deep_view() =~= v.deep_view());
    r
}

fn copy_payload(p: &EnumVariantPayloadTy) -> (r: EnumVariantPayloadTy)
    ensures
        r@ == p@,
    decreases p,
{
    match p {
        EnumVariantPayloadTy::Unit => EnumVariantPayloadTy::Unit,
        EnumVariantPayloadTy::Tuple(items) => EnumVariantPayloadTy::Tuple(copy_tys(items)),
        EnumVariantPayloadTy::Record(fields) => {
            let r = EnumVariantPayloadTy::Record(copy_fields(fields));
            assert(r@.head()->RecordPayload_0 =~= p@.head()->RecordPayload_0);
            r
        },
    }
}

fn copy_constraint(c: &Constraint) -> (r: Constraint)
    ensures
        r@ == c@,
    decreases c,
{
    Constraint { class: c.class.clone(), args: copy_tys(&c.args) }
}

impl Clone for Ty {
    fn clone(&self) -> (r: Self)
        ensures
            r@ == self@,
    {
        copy_ty(self)
    }
}

impl Clone for EnumVariantPayloadTy {
    fn clone(&self) -> (r: Self)
        ensures
            r@ == self@,
    {
        copy_payload(self)
    }
}

impl Clone for Constraint {
    fn clone(&self) -> (r: Self)
        ensures
            r@ == self@,
    {
        copy_constraint(self)
    }
}

/// True when both lists hold the same variables in the same order.
pub fn same_vars(a: &Vec<TyVarId>, b: &Vec<TyVarId>) -> (r: bool)
    ensures
        r == (a@ == b@),
{
    if a.len() != b.len() {
        return false;
    }
    let mut i: usize = 0;
    while i < a.len()
        invariant
            i <= a.len(),
            a.len() == b.len(),
            forall|j: int| 0 <= j < i ==> a@[j] == b@[j],
        decreases a.len() - i,
    {
        if a[i] != b[i] {
            return false;
        }
        i += 1;
    }
    assert(a@ =~= b@);
    true
}

/// True when both types have the same model.
pub fn same_ty(a: &Ty, b: &Ty) -> (r: bool)
    ensures
        r == (a@ == b@),
    decreases a,
{
    match (a, b) {
        (Ty::Var(v), Ty::Var(w)) => *v == *w,
        (Ty::Con(n), Ty::Con(m)) => same_text(n.as_str(), m.as_str()),
        (Ty::App(h, x), Ty::App(g, y)) => {
            proof {
                tree::app_shape(*h, *x);
                tree::app_shape(*g, *y);
                assert(a@.kids()[0] == h@);
                assert(b@.kids()[0] == g@);
            }
            same_ty(h, g) && same_tys(x, y)
        },
        (Ty::Fun(p, q), Ty::Fun(s, t)) => {
            proof {
                assert(a@.kids()[0] == p@ && a@.kids()[1] == q@);
                assert(b@.kids()[0] == s@ && b@.kids()[1] == t@);
            }
            same_ty(p, s) && same_ty(q, t)
        },
        (Ty::List(e), Ty::List(f)) => {
            proof {
                assert(a@.kids()[0] == e@);
                assert(b@.kids()[0] == f@);
            }
            same_ty(e, f)
        },
        (Ty::Sum { name: n, variants: x }, Ty::Sum { name: m, variants: y }) => {
            proof {
                tree::pairs_split(x.deep_view(), y.deep_view());
            }
            same_text(n.as_str(), m.as_str()) && same_variants(x, y)
        },
        (
            Ty::Constructor { owner: o, tag: s, arity: x },
            Ty::Constructor { owner: p, tag: t, arity: y },
        ) => {
            proof {
                assert(a@.kids()[0] == o@);
                assert(b@.kids()[0] == p@);
            }
            *s == *t && *x == *y && same_ty(o, p)
        },
        (Ty::Tuple(x), Ty::Tuple(y)) => same_tys(x, y),
        (Ty::Array { element: e, length: m }, Ty::Array { element: f, length: n }) => {
            proof {
                assert(a@.kids()[0] == e@);
                assert(b@.kids()[0] == f@);
            }
            *m == *n && same_ty(e, f)
        },
        (Ty::Record { fields: x }, Ty::Record { fields: y }) => {
            proof {
                tree::pairs_split(x.deep_view(), y.deep_view());
            }
            same_fields(x, y)
        },
        (Ty::Existential { class: c }, Ty::Existential { class: d }) => same_text(
            c.as_str(),
            d.as_str(),
        ),
        (
            Ty::Forall { bounds: v, constraints: x, body: s },
            Ty::Forall { bounds: w, constraints: y, body: t },
        ) => {
            proof {
                tree::forall_shape(*v, *x, *s);
                tree::forall_shape(*w, *y, *t);
                assert(a@.kids().last() == s@);
                assert(b@.kids().last() == t@);
                assert(a@.kids().drop_last() =~= x.deep_view());
                assert(b@.kids().drop_last() =~= y.deep_view());
            }
            same_vars(v, w) && same_constraints(x, y) && same_ty(s, t)
        },
        _ => false,
    }
}

/// True when both slices hold types with the same models.
pub fn same_ty_slices(a: &[Ty], b: &[Ty]) -> (r: bool)
    ensures
        r == (a.deep_view() == b.deep_view()),
{
    if a.len() != b.len() {
        assert(a.deep_view().len() != b.deep_view().len());
        return false;
    }
    let mut i: usize = 0;
    while i < a.len()
        invariant
            i <= a.len(),
            a.len() == b.len(),
            forall|j: int| 0 <= j < i ==> a.deep_view()[j] == b.deep_view()[j],
        decreases a.len() - i,
    {
        if !same_ty(&a[i], &b[i]) {
            assert(a.deep_view()[i as int] != b.deep_view()[i as int]);
            return false;
        }
        i += 1;
    }
    assert(a.deep_view() =~= b.deep_view());
    true
}

/// True when both lists hold types with the same models.
pub fn same_tys(a: &Vec<Ty>, b: &Vec<Ty>) -> (r: bool)
    ensures
        r == (a.deep_view() == b.deep_view()),
    decreases a,
{
    if a.len() != b.len() {
        assert(a.deep_view().len() != b.deep_view().len());
        return false;
    }
    let mut i: usize = 0;
    while i < a.len()
        invariant
            i <= a.len(),
            a.len() == b.len(),
            forall|j: int| 0 <= j < i ==> a.deep_view()[j] == b.deep_view()[j],
        decreases a.len() - i,
    {
        if !same_ty(&a[i], &b[i]) {
            assert(a.deep_view()[i as int] != b.deep_view()[i as int]);
            return false;
        }
        i += 1;
    }
    assert(a.deep_view() =~= b.deep_view());
    true
}

fn same_fields(a: &Vec<(String, Ty)>, b: &Vec<(String, Ty)>) -> (r: bool)
    ensures
        r == (a.deep_view() == b.deep_view()),
    decreases a,
{
    if a.len() != b.len() {
        assert(a.deep_view().len() != b.deep_view().len());
        return false;
    }
    let mut i: usize = 0;
    while i < a.len()
        invariant
            i <= a.len(),
            a.len() == b.len(),
            forall|j: int| 0 <= j < i ==> a.deep_view()[j] == b.deep_view()[j],
        decreases a.len() - i,
    {
        if !same_text(a[i].0.as_str(), b[i].0.as_str()) || !same_ty(&a[i].1, &b[i].1) {
            assert(a.deep_view()[i as int] != b.deep_view()[i as int]);
            return false;
        }
        i += 1;
    }
    assert(a.deep_view() =~= b.deep_view());
    true
}

fn same_variants(
    a: &Vec<(String, EnumVariantPayloadTy)>,
    b: &Vec<(String, EnumVariantPayloadTy)>,
) -> (r: bool)
    ensures
        r == (a.deep_view() == b.deep_view()),
    decreases a,
{
    if a.len() != b.len() {
        assert(a.deep_view().len() != b.deep_view().len());
        return false;
    }
    let mut i: usize = 0;
    while i < a.len()
        invariant
            i <= a.len(),
            a.len() == b.len(),
            forall|j: int| 0 <= j < i ==> a.deep_view()[j] == b.deep_view()[j],
        decreases a.len() - i,
    {
        if !same_text(a[i].0.as_str(), b[i].0.as_str()) || !same_payload(&a[i].1, &b[i].1) {
            assert(a.deep_view()[i as int] != b.deep_view()[i as int]);
            return false;
        }
        i += 1;
    }
    assert(a.deep_view() =~= b.deep_view());
    true
}

fn same_constraints(a: &Vec<Constraint>, b: &Vec<Constraint>) -> (r: bool)
    ensures
        r == (a.deep_view() == b.deep_view()),
    decreases a,
{
    if a.len() != b.len() {
        assert(a.deep_view().len() != b.deep_view().len());
        return false;
    }
    let mut i: usize = 0;
    while i < a.len()
        invariant
            i <= a.len(),
            a.len() == b.len(),
            forall|j: int| 0 <= j < i ==> a.deep_view()[j] == b.deep_view()[j],
        decreases a.len() - i,
    {
        if !same_constraint(&a[i], &b[i]) {
            assert(a.deep_view()[i as int] != b.deep_view()[i as int]);
            return false;
        }
        i += 1;
    }
    assert(a.deep_view() =~= b.deep_view());
    true
}

/// True when both payloads have the same model.
pub fn same_payload(a: &EnumVariantPayloadTy, b: &EnumVariantPayloadTy) -> (r: bool)
    ensures
        r == (a@ == b@),
    decreases a,
{
    match (a, b) {
        (EnumVariantPayloadTy::Unit, EnumVariantPayloadTy::Unit) => true,
        (EnumVariantPayloadTy::Tuple(x), EnumVariantPayloadTy::Tuple(y)) => same_tys(x, y),
        (EnumVariantPayloadTy::Record(x), EnumVariantPayloadTy::Record(y)) => {
            proof {
                tree::pairs_split(x.deep_view(), y.deep_view());
            }
            same_fields(x, y)
        },
        _ => false,
    }
}

/// True when both constraints have the same model.
pub fn same_constraint(a: &Constraint, b: &Constraint) -> (r: bool)
    ensures
        r == (a@ == b@),
    decreases a,
{
    same_text(a.class.as_str(), b.class.as_str()) && same_tys(&a.args, &b.args)
}

impl PartialEq for Ty {
    fn eq(&self, other: &Ty) -> (r: bool) {
        same_ty(self, other)
    }
}

impl vstd::std_specs::cmp::PartialEqSpecImpl for Ty {
    open spec fn obeys_eq_spec() -> bool {
        true
    }

    open spec fn eq_spec(&self, other: &Ty) -> bool {
        self@ == other@
    }
}

impl Eq for Ty {

}

impl PartialEq for EnumVariantPayloadTy {
    fn eq(&self, other: &EnumVariantPayloadTy) -> (r: bool) {
        same_payload(self, other)
    }
}

impl vstd::std_specs::cmp::PartialEqSpecImpl for EnumVariantPayloadTy {
    open spec fn obeys_eq_spec() -> bool {
        true
    }

    open spec fn eq_spec(&self, other: &EnumVariantPayloadTy) -> bool {
        self@ == other@
    }
}

impl Eq for EnumVariantPayloadTy {

}

impl PartialEq for Constraint {
    fn eq(&self, other: &Constraint) -> (r: bool) {
        same_constraint(self, other)
    }
}

impl vstd::std_specs::cmp::PartialEqSpecImpl for Constraint {
    open spec fn obeys_eq_spec() -> bool {
        true
    }

    open spec fn eq_spec(&self, other: &Constraint) -> bool {
        self@ == other@
    }
}

impl Eq for Constraint {

}

/// The type with each variable of `vars` and each name of `cons` replaced.
pub fn rewrite_ty(t: &Ty, vars: &KeyMap<TyVarId, Ty>, cons: &NameMap<Ty>) -> (r: Ty)
    ensures
        r@ == t@.rewrite(vars@, cons@),
    decreases t,
{
    proof {
        if t@ is Node && !(t@.head() is Con && cons@.contains_key(t@.head()->Con_0)) {
            tree::rewrite_node(t@.head(), t@.kids(), vars@, cons@);
        }
    }
    match t {
        Ty::Var(v) => match vars.get(v) {
            Some(u) => u.clone(),
            None => Ty::Var(*v),
        },
        Ty::Con(name) => match cons.get(name.as_str()) {
            Some(u) => u.clone(),
            None => {
                assert(tree::rewrite_all(t@.kids(), vars@, cons@) =~= t@.kids());
                Ty::Con(name.clone())
            },
        },
        Ty::App(head, args) => {
            let h = Box::new(rewrite_ty(head, vars, cons));
            let a = rewrite_tys(args, vars, cons);
            proof {
                tree::app_shape(*head, *args);
                tree::app_shape(h, a);
                assert(tree::rewrite_all(t@.kids(), vars@, cons@) =~= seq![h@] + a.deep_view());
            }
            Ty::App(h, a)
        },
        Ty::Fun(param, result) => {
            let p = Box::new(rewrite_ty(param, vars, cons));
            let q = Box::new(rewrite_ty(result, vars, cons));
            assert(tree::rewrite_all(t@.kids(), vars@, cons@) =~= seq![p@, q@]);
            Ty::Fun(p, q)
        },
        Ty::List(element) => {
            let e = Box::new(rewrite_ty(element, vars, cons));
            assert(tree::rewrite_all(t@.kids(), vars@, cons@) =~= seq![e@]);
            Ty::List(e)
        },
        Ty::Sum { name, variants } => {
            let v = rewrite_variants(variants, vars, cons);
            Ty::Sum { name: name.clone(), variants: v }
        },
        Ty::Constructor { owner, tag, arity } => {
            let o = Box::new(rewrite_ty(owner, vars, cons));
            assert(tree::rewrite_all(t@.kids(), vars@, cons@) =~= seq![o@]);
            Ty::Constructor { owner: o, tag: *tag, arity: *arity }
        },
        Ty::Tuple(items) => Ty::Tuple(rewrite_tys(items, vars, cons)),
        Ty::Array { element, length } => {
            let e = Box::new(rewrite_ty(element, vars, cons));
            assert(tree::rewrite_all(t@.kids(), vars@, cons@) =~= seq![e@]);
            Ty::Array { element: e, length: *length }
        },
        Ty::Record { fields } => Ty::Record { fields: rewrite_fields(fields, vars, cons) },
        Ty::Existential { class } => {
            assert(tree::rewrite_all(t@.kids(), vars@, cons@) =~= t@.kids());
            Ty::Existential { class: class.clone() }
        },
        Ty::Forall { bounds, constraints, body } => {
            let b = copy_vars(bounds);
            let c = rewrite_constraints(constraints, vars, cons);
            let u = Box::new(rewrite_ty(body, vars, cons));
            proof {
                tree::forall_shape(*bounds, *constraints, *body);
                tree::forall_shape(b, c, u);
                assert(tree::rewrite_all(t@.kids(), vars@, cons@) =~= c.deep_view().push(u@));
            }
            Ty::Forall { bounds: b, constraints: c, body: u }
        },
    }
}

/// Each type of a list, rewritten.
pub fn rewrite_tys(v: &Vec<Ty>, vars: &KeyMap<TyVarId, Ty>, cons: &NameMap<Ty>) -> (r: Vec<Ty>)
    ensures
        r.deep_view() == tree::rewrite_all(v.deep_view(), vars@, cons@),
    decreases v,
{
    let mut r: Vec<Ty> = Vec::new();
    let mut i: usize = 0;
    while i < v.len()
        invariant
            i <= v.len(),
            r.len() == i,
            forall|j: int|
                0 <= j < i ==> r.deep_view()[j] == v.deep_view()[j].rewrite(vars@, cons@),
        decreases v.len() - i,
    {
        let ghost before = r.deep_view();
        let x = rewrite_ty(&v[i], vars, cons);
        r.push(x);
        assert(r.deep_view() =~= before.push(x.deep_view()));
        i += 1;
    }
    assert(r.deep_view() =~= tree::rewrite_all(v.deep_view(), vars@, cons@));
    r
}

fn rewrite_fields(
    v: &Vec<(String, Ty)>,
    vars: &KeyMap<TyVarId, Ty>,
    cons: &NameMap<Ty>,
) -> (r: Vec<(String, Ty)>)
    ensures
        tree::names_of(r.deep_view()) == tree::names_of(v.deep_view()),
        tree::trees_of(r.deep_view()) == tree::rewrite_all(
            tree::trees_of(v.deep_view()),
            vars@,
            cons@,
        ),
    decreases v,
{
    let mut r: Vec<(String, Ty)> = Vec::new();
    let mut i: usize = 0;
    while i < v.len()
        invariant
            i <= v.len(),
            r.len() == i,
            forall|j: int|
                0 <= j < i ==> (#[trigger] r.deep_view()[j]).0 == v.deep_view()[j].0
                    && r.deep_view()[j].1 == v.deep_view()[j].1.rewrite(vars@, cons@),
        decreases v.len() - i,
    {
        let ghost before = r.deep_view();
        let x = (v[i].0.clone(), rewrite_ty(&v[i].1, vars, cons));
        r.push(x);
        assert(r.deep_view() =~= before.push(x.deep_view()));
        i += 1;
    }
    assert(tree::names_of(r.deep_view()) =~= tree::names_of(v.deep_view()));
    assert(tree::trees_of(r.deep_view()) =~= tree::rewrite_all(
        tree::trees_of(v.deep_view()),
        vars@,
        cons@,
    ));
    r
}

fn rewrite_variants(
    v: &Vec<(String, EnumVariantPayloadTy)>,
    vars: &KeyMap<TyVarId, Ty>,
    cons: &NameMap<Ty>,
) -> (r: Vec<(String, EnumVariantPayloadTy)>)
    ensures
        tree::names_of(r.deep_view()) == tree::names_of(v.deep_view()),
        tree::trees_of(r.deep_view()) == tree::rewrite_all(
            tree::trees_of(v.deep_view()),
            vars@,
            cons@,
        ),
    decreases v,
{
    let mut r: Vec<(String, EnumVariantPayloadTy)> = Vec::new();
    let mut i: usize = 0;
    while i < v.len()
        invariant
            i <= v.len(),
            r.len() == i,
            forall|j: int|
                0 <= j < i ==> (#[trigger] r.deep_view()[j]).0 == v.deep_view()[j].0
                    && r.deep_view()[j].1 == v.deep_view()[j].1.rewrite(vars@, cons@),
        decreases v.len() - i,
    {
        let ghost before = r.deep_view();
        let x = (v[i].0.clone(), rewrite_payload(&v[i].1, vars, cons));
        r.push(x);
        assert(r.deep_view() =~= before.push(x.deep_view()));
        i += 1;
    }
    assert(tree::names_of(r.deep_view()) =~= tree::names_of(v.deep_view()));
    assert(tree::trees_of(r.deep_view()) =~= tree::rewrite_all(
        tree::trees_of(v.deep_view()),
        vars@,
        cons@,
    ));
    r
}

/// Each constraint of a list, rewritten.
pub fn rewrite_constraints(
    v: &Vec<Constraint>,
    vars: &KeyMap<TyVarId, Ty>,
    cons: &NameMap<Ty>,
) -> (r: Vec<Constraint>)
    ensures
        r.deep_view() == tree::rewrite_all(v.deep_view(), vars@, cons@),
    decreases v,
{
    let mut r: Vec<Constraint> = Vec::new();
    let mut i: usize = 0;
    while i < v.len()
        invariant
            i <= v.len(),
            r.len() == i,
            forall|j: int|
                0 <= j < i ==> r.deep_view()[j] == v.deep_view()[j].rewrite(vars@, cons@),
        decreases v.len() - i,
    {
        let ghost before = r.deep_view();
        let x = rewrite_constraint(&v[i], vars, cons);
        r.push(x);
        assert(r.deep_view() =~= before.push(x.deep_view()));
        i += 1;
    }
    assert(r.deep_view() =~= tree::rewrite_all(v.deep_view(), vars@, cons@));
    r
}

/// The payload with each variable of `vars` and each name of `cons` replaced.
pub fn rewrite_payload(
    p: &EnumVariantPayloadTy,
    vars: &KeyMap<TyVarId, Ty>,
    cons: &NameMap<Ty>,
) -> (r: EnumVariantPayloadTy)
    ensures
        r@ == p@.rewrite(vars@, cons@),
    decreases p,
{
    proof {
        tree::rewrite_node(p@.head(), p@.kids(), vars@, cons@);
    }
    match p {
        EnumVariantPayloadTy::Unit => {
            assert(tree::rewrite_all(p@.kids(), vars@, cons@) =~= p@.kids());
            EnumVariantPayloadTy::Unit
        },
        EnumVariantPayloadTy::Tuple(items) => EnumVariantPayloadTy::Tuple(
            rewrite_tys(items, vars, cons),
        ),
        EnumVariantPayloadTy::Record(fields) => EnumVariantPayloadTy::Record(
            rewrite_fields(fields, vars, cons),
        ),
    }
}

/// The constraint with each variable of `vars` and each name of `cons` replaced.
pub fn rewrite_constraint(
    c: &Constraint,
    vars: &KeyMap<TyVarId, Ty>,
    cons: &NameMap<Ty>,
) -> (r: Constraint)
    ensures
        r@ == c@.rewrite(vars@, cons@),
    decreases c,
{
    proof {
        tree::rewrite_node(c@.head(), c@.kids(), vars@, cons@);
    }
    Constraint { class: c.class.clone(), args: rewrite_tys(&c.args, vars, cons) }
}

/// The notation of a type in diagnostics, e.g. `Option<int>` or `int -> [byte]`.
pub fn ty_text(t: &Ty) -> (r: String)
    ensures
        r@ == t@.text(),
    decreases t,
{
    match t {
        Ty::Var(v) => {
            let n = number(v.0 as usize);
            cat2("t", n.as_str())
        },
        Ty::Con(name) => name.clone(),
        Ty::App(head, args) => {
            let h = ty_text(head);
            let a = join_text(args);
            assert(t@.kids()[0] == head@);
            let mut s = h;
            s.append("<");
            s.append(a.as_str());
            s.append(">");
            s
        },
        Ty::Fun(param, result) => {
            let p = ty_text(param);
            let q = ty_text(result);
            assert(t@.kids()[0] == param@ && t@.kids()[1] == result@);
            let left = if let Ty::Fun(_, _) = **param {
                cat3("(", p.as_str(), ")")
            } else {
                p
            };
            cat3(left.as_str(), " -> ", q.as_str())
        },
        Ty::List(element) => {
            let e = ty_text(element);
            assert(t@.kids()[0] == element@);
            cat3("List<", e.as_str(), ">")
        },
        Ty::Sum { name, .. } => name.clone(),
        Ty::Constructor { owner, .. } => {
            assert(t@.kids()[0] == owner@);
            ty_text(owner)
        },
        Ty::Tuple(items) => {
            let s = join_text(items);
            cat3("(", s.as_str(), ")")
        },
        Ty::Array { element, length } => {
            let e = ty_text(element);
            assert(t@.kids()[0] == element@);
            match length {
                ArrayLength::Static(n) => {
                    let m = number(*n);
                    cat5("[", e.as_str(), "; ", m.as_str(), "]")
                },
                ArrayLength::Dynamic => cat3("[", e.as_str(), "]"),
            }
        },
        Ty::Record { fields } => {
            let s = join_named(fields);
            cat3("{ ", s.as_str(), " }")
        },
        Ty::Existential { class } => class.clone(),
        Ty::Forall { bounds, constraints, body } => {
            let vars = join_vars(bounds);
            let b = ty_text(body);
            assert(t@.kids().last() == body@);
            let mut s = "forall ".to_owned();
            s.append(vars.as_str());
            s.append(". ");
            s.append(b.as_str());
            s
        },
    }
}

/// The notations of a list of types, separated by commas.
pub fn join_text(v: &Vec<Ty>) -> (r: String)
    ensures
        r@ == Tree::join_text(v.deep_view()),
    decreases v,
{
    let mut s = String::new();
    let mut i: usize = 0;
    assert(v.deep_view().take(0) =~= Seq::<Tree>::empty());
    while i < v.len()
        invariant
            i <= v.len(),
            s@ == Tree::join_text(v.deep_view().take(i as int)),
        decreases v.len() - i,
    {
        if i > 0 {
            s.append(", ");
        }
        let x = ty_text(&v[i]);
        s.append(x.as_str());
        let ghost next = v.deep_view().take(i + 1);
        assert(next.drop_last() =~= v.deep_view().take(i as int));
        assert(next.last() == v@[i as int]@);
        assert(s@ =~= Tree::join_text(next));
        i += 1;
    }
    assert(v.deep_view().take(v.len() as int) =~= v.deep_view());
    s
}

fn join_named(v: &Vec<(String, Ty)>) -> (r: String)
    ensures
        r@ == Tree::join_named(tree::names_of(v.deep_view()), tree::trees_of(v.deep_view())),
    decreases v,
{
    let ghost names = tree::names_of(v.deep_view());
    let ghost trees = tree::trees_of(v.deep_view());
    let mut s = String::new();
    let mut i: usize = 0;
    while i < v.len()
        invariant
            i <= v.len(),
            names == tree::names_of(v.deep_view()),
            trees == tree::trees_of(v.deep_view()),
            s@ == Tree::join_named(names.take(i as int), trees.take(i as int)),
        decreases v.len() - i,
    {
        if i > 0 {
            s.append(", ");
        }
        let x = ty_text(&v[i].1);
        let named = cat3(v[i].0.as_str(), ": ", x.as_str());
        s.append(named.as_str());
        let ghost next = trees.take(i + 1);
        let ghost next_names = names.take(i + 1);
        assert(next.drop_last() =~= trees.take(i as int));
        assert(next_names.drop_last() =~= names.take(i as int));
        assert(next.last() == v@[i as int].1@);
        assert(next_names.last() == v@[i as int].0@);
        assert(s@ =~= Tree::join_named(next_names, next));
        i += 1;
    }
    assert(trees.take(v.len() as int) =~= trees);
    assert(names.take(v.len() as int) =~= names);
    s
}

fn join_vars(v: &Vec<TyVarId>) -> (r: String)
    ensures
        r@ == Tree::join_vars(v@),
{
    let mut s = String::new();
    let mut i: usize = 0;
    while i < v.len()
        invariant
            i <= v.len(),
            s@ == Tree::join_vars(v@.take(i as int)),
        decreases v.len() - i,
    {
        if i > 0 {
            s.append(" ");
        }
        let n = number(v[i].0 as usize);
        let x = cat2("t", n.as_str());
        s.append(x.as_str());
        let ghost next = v@.take(i + 1);
        assert(next.drop_last() =~= v@.take(i as int));
        assert(s@ =~= Tree::join_vars(next));
        i += 1;
    }
    assert(v@.take(v.len() as int) =~= v@);
    s
}

/// The type `int`.
pub fn int_ty() -> (r: Ty)
    ensures
        r@ == Tree::con("int"@),
{
    Ty::Con("int".to_owned())
}

/// The type `float`.
pub fn float() -> (r: Ty)
    ensures
        r@ == Tree::con("float"@),
{
    Ty::Con("float".to_owned())
}

/// The type `bool`.
pub fn boolean() -> (r: Ty)
    ensures
        r@ == Tree::con("bool"@),
{
    Ty::Con("bool".to_owned())
}

/// The type `string`.
pub fn string() -> (r: Ty)
    ensures
        r@ == Tree::con("string"@),
{
    Ty::Con("string".to_owned())
}

/// The type `byte`.
pub fn byte() -> (r: Ty)
    ensures
        r@ == Tree::con("byte"@),
{
    Ty::Con("byte".to_owned())
}

/// The type `unit`.
pub fn unit() -> (r: Ty)
    ensures
        r@ == Tree::con("unit"@),
{
    Ty::Con("unit".to_owned())
}

/// The type `Stream`.
pub fn stream_ty() -> (r: Ty)
    ensures
        r@ == Tree::con("Stream"@),
{
    Ty::Con("Stream".to_owned())
}

/// The type named `name`.
pub fn con(name: &str) -> (r: Ty)
    ensures
        r@ == Tree::con(name@),
{
    Ty::Con(name.to_owned())
}

/// `head` applied to `args`.
pub fn app(head: Ty, args: Vec<Ty>) -> (r: Ty)
    ensures
        r@ == Tree::app(head@, args.deep_view()),
{
    let h = Box::new(head);
    proof {
        tree::app_shape(h, args);
    }
    Ty::App(h, args)
}

/// The function type `param -> result`.
pub fn fun(param: Ty, result: Ty) -> (r: Ty)
    ensures
        r@ == Tree::fun(param@, result@),
{
    Ty::Fun(Box::new(param), Box::new(result))
}

/// The list type of `element`.
pub fn list(element: Ty) -> (r: Ty)
    ensures
        r@ == Tree::list(element@),
{
    Ty::List(Box::new(element))
}

/// The dynamic array type of `element`.
pub fn array(element: Ty) -> (r: Ty)
    ensures
        r@ == Tree::array(element@, ArrayLength::Dynamic),
{
    Ty::Array { element: Box::new(element), length: ArrayLength::Dynamic }
}

/// The array type of `length` times `element`.
pub fn array_fixed(element: Ty, length: usize) -> (r: Ty)
    ensures
        r@ == Tree::array(element@, ArrayLength::Static(length)),
{
    Ty::Array { element: Box::new(element), length: ArrayLength::Static(length) }
}

/// The tuple type of `items`.
pub fn tuple(items: Vec<Ty>) -> (r: Ty)
    ensures
        r@ == Tree::tuple(items.deep_view()),
{
    Ty::Tuple(items)
}

/// The constructor refinement of `owner`.
pub fn constructor(owner: Ty, tag: u32, arity: usize) -> (r: Ty)
    ensures
        r@ == Tree::Node(Head::Constructor(tag, arity), seq![owner@]),
{
    Ty::Constructor { owner: Box::new(owner), tag, arity }
}

/// A list of one type.
pub fn tys1(a: Ty) -> (r: Vec<Ty>)
    ensures
        r.deep_view() == seq![a@],
{
    let mut r: Vec<Ty> = Vec::new();
    r.push(a);
    assert(r.deep_view() =~= seq![a@]);
    r
}

/// A list of two types.
pub fn tys2(a: Ty, b: Ty) -> (r: Vec<Ty>)
    ensures
        r.deep_view() == seq![a@, b@],
{
    let mut r: Vec<Ty> = Vec::new();
    r.push(a);
    r.push(b);
    assert(r.deep_view() =~= seq![a@, b@]);
    r
}

/// `Option<t>` by name.
pub fn option_app_ty(t: Ty) -> (r: Ty)
    ensures
        r@ == Tree::option_app(t@),
{
    app(con("Option"), tys1(t))
}

/// `Result<ok, err>` by name.
pub fn result_app_ty(ok: Ty, err: Ty) -> (r: Ty)
    ensures
        r@ == Tree::result_app(ok@, err@),
{
    app(con("Result"), tys2(ok, err))
}

/// A payload of one type.
pub fn payload1(t: Ty) -> (r: EnumVariantPayloadTy)
    ensures
        r@ == Tree::payload(seq![t@]),
{
    EnumVariantPayloadTy::Tuple(tys1(t))
}

/// `Option` with its variants, carrying `t`.
pub fn option_ty(t: Ty) -> (r: Ty)
    ensures
        r@ == Tree::option_sum(t@),
{
    let mut variants: Vec<(String, EnumVariantPayloadTy)> = Vec::new();
    variants.push(("None".to_owned(), EnumVariantPayloadTy::Unit));
    variants.push(("Some".to_owned(), payload1(t)));
    let r = Ty::Sum { name: "Option".to_owned(), variants };
    assert(tree::names_of(variants.deep_view()) =~= seq!["None"@, "Some"@]);
    assert(tree::trees_of(variants.deep_view()) =~= seq![
        Tree::unit_payload(),
        Tree::payload(seq![t@]),
    ]);
    r
}

/// `Result` with its variants, carrying `ok` and `err`.
pub fn result_ty(ok: Ty, err: Ty) -> (r: Ty)
    ensures
        r@ == Tree::result_sum(ok@, err@),
{
    let mut variants: Vec<(String, EnumVariantPayloadTy)> = Vec::new();
    variants.push(("Ok".to_owned(), payload1(ok)));
    variants.push(("Err".to_owned(), payload1(err)));
    let r = Ty::Sum { name: "Result".to_owned(), variants };
    assert(tree::names_of(variants.deep_view()) =~= seq!["Ok"@, "Err"@]);
    assert(tree::trees_of(variants.deep_view()) =~= seq![
        Tree::payload(seq![ok@]),
        Tree::payload(seq![err@]),
    ]);
    r
}

impl EnumVariantPayloadTy {
    /// Number of types that the payload carries.
    pub fn field_count(&self) -> (r: usize)
        ensures
            r == self@.kids().len(),
    {
        match self {
            EnumVariantPayloadTy::Unit => 0,
            EnumVariantPayloadTy::Tuple(items) => items.len(),
            EnumVariantPayloadTy::Record(fields) => fields.len(),
        }
    }
}

impl Constraint {
    /// `class` on one type variable.
    pub fn unary(class: &str, var: TyVarId) -> (r: Self)
        ensures
            r@ == Tree::pred(class@, seq![Tree::Var(var)]),
    {
        Constraint { class: class.to_owned(), args: tys1(Ty::Var(var)) }
    }

    /// The class on any list of types.
    pub fn on(class: &str, args: Vec<Ty>) -> (r: Self)
        ensures
            r@ == Tree::pred(class@, args.deep_view()),
    {
        Constraint { class: class.to_owned(), args }
    }

    /// True when the constraint has `var` as its only argument.
    pub fn is_unary_on(&self, var: TyVarId) -> (r: bool)
        ensures
            r == (self@.kids() == seq![Tree::Var(var)]),
    {
        let ghost k = self@.kids();
        assert(k == seq![Tree::Var(var)] ==> k.len() == 1 && k[0] == Tree::Var(var));
        if self.args.len() == 1 {
            assert(k[0] == self.args@[0]@);
            if let Ty::Var(v) = self.args[0] {
                assert(v == var ==> k =~= seq![Tree::Var(var)]);
                return v == var;
            }
        }
        false
    }

    /// The first argument, when it is a type variable.
    pub fn primary_var(&self) -> (r: Option<TyVarId>)
        ensures
            r == Tree::first_var(self@.kids()),
    {
        if self.args.len() > 0 {
            assert(self@.kids()[0] == self.args@[0]@);
            if let Ty::Var(v) = self.args[0] {
                return Some(v);
            }
        }
        None
    }
}

impl Dup for Ty {
    fn dup(&self) -> (r: Self) {
        self.clone()
    }
}

impl Dup for EnumVariantPayloadTy {
    fn dup(&self) -> (r: Self) {
        self.clone()
    }
}

impl Dup for Constraint {
    fn dup(&self) -> (r: Self) {
        self.clone()
    }
}

impl Dup for TyVarId {
    fn dup(&self) -> (r: Self) {
        *self
    }
}

} // verus!
