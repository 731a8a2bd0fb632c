//! Substitutions of types for type variables.
use crate::maps::{self, KeyMap, MapKey, NameMap};
use crate::tree::{self, Tree};
use crate::ty::{Constraint, Ty, TyVarId, rewrite_constraints, rewrite_ty, rewrite_tys};
use vstd::prelude::*;

verus! {

/// A finite map from type variables to types.
#[derive(Debug)]
pub struct Subst {
    pub map: KeyMap<TyVarId, Ty>,
}

impl View for Subst {
    type V = Map<TyVarId, Tree>;

    open spec fn view(&self) -> Map<TyVarId, Tree> {
        self.map@
    }
}

impl DeepView for Subst {
    type V = Map<TyVarId, Tree>;

    open spec fn deep_view(&self) -> Map<TyVarId, Tree> {
        self.map@
    }
}

/// `first` and then `second`: a variable that `first` binds goes to its type
/// under `second`, another to what `second` binds it to.
pub open spec fn composed(second: Map<TyVarId, Tree>, first: Map<TyVarId, Tree>) -> Map<
    TyVarId,
    Tree,
> {
    Map::new(
        |v: TyVarId| first.contains_key(v) || second.contains_key(v),
        |v: TyVarId|
            if first.contains_key(v) {
                first[v].subst(second)
            } else {
                second[v]
            },
    )
}

impl Subst {
    pub fn empty() -> (r: Self)
        ensures
            r@ == Map::<TyVarId, Tree>::empty(),
    {
        Subst { map: KeyMap::new() }
    }

    pub fn insert(&mut self, var: TyVarId, ty: Ty)
        ensures
            final(self)@ == old(self)@.insert(var, ty@),
    {
        self.map.insert(var, ty);
    }

    pub fn get(&self, var: TyVarId) -> (r: Option<&Ty>)
        ensures
            match r {
                Some(t) => self@.contains_key(var) && self@[var] == t@,
                None => !self@.contains_key(var),
            },
    {
        self.map.get(&var)
    }
}

/// `ty` with the bound variables replaced.
pub fn apply_ty(s: &Subst, ty: &Ty) -> (r: Ty)
    ensures
        r@ == ty@.subst(s@),
{
    let none: NameMap<Ty> = NameMap::new();
    rewrite_ty(ty, &s.map, &none)
}

/// Each of `tys` with the bound variables replaced.
pub fn apply_tys(s: &Subst, tys: &Vec<Ty>) -> (r: Vec<Ty>)
    ensures
        r.deep_view() == subst_all(tys.deep_view(), s@),
{
    let none: NameMap<Ty> = NameMap::new();
    rewrite_tys(tys, &s.map, &none)
}

/// Each of `constraints` with the bound variables replaced.
pub fn apply_constraints(s: &Subst, constraints: &Vec<Constraint>) -> (r: Vec<Constraint>)
    ensures
        r.deep_view() == subst_all(constraints.deep_view(), s@),
{
    let none: NameMap<Ty> = NameMap::new();
    rewrite_constraints(constraints, &s.map, &none)
}

/// Each tree of a list under a substitution.
pub open spec fn subst_all(trees: Seq<Tree>, s: Map<TyVarId, Tree>) -> Seq<Tree> {
    tree::rewrite_all(trees, s, Map::empty())
}

/// `first` followed by `second`.
pub fn compose(second: &Subst, first: &Subst) -> (r: Subst)
    ensures
        r@ == composed(second@, first@),
{
    let mut out = Subst::empty();
    let mut i: usize = 0;
    proof {
        second.map.order_holds_keys();
        first.map.order_holds_keys();
    }
    let ghost order = second.map.order();
    while i < second.map.len()
        invariant
            i <= order.len(),
            order == second.map.order(),
            forall|v: TyVarId| second@.contains_key(v) <==> order.contains(v),
            forall|v: TyVarId| #[trigger]
                out@.contains_key(v) <==> order.take(i as int).contains(v),
            forall|v: TyVarId| #[trigger] out@.contains_key(v) ==> out@[v] == second@[v],
        decreases order.len() - i,
    {
        let v = *second.map.key_at(i);
        if let Some(t) = second.get(v) {
            out.insert(v, t.clone());
        }
        proof {
            maps::take_next(order, i as int);
        }
        i += 1;
    }
    assert(order.take(order.len() as int) =~= order);
    let ghost base = out@;
    let ghost forder = first.map.order();
    let mut k: usize = 0;
    while k < first.map.len()
        invariant
            k <= forder.len(),
            forder == first.map.order(),
            forall|v: TyVarId| first@.contains_key(v) <==> forder.contains(v),
            forall|v: TyVarId| #[trigger]
                out@.contains_key(v) <==> base.contains_key(v) || forder.take(
                    k as int,
                ).contains(v),
            forall|v: TyVarId|
                forder.take(k as int).contains(v) ==> #[trigger] out@[v] == first@[v].subst(
                    second@,
                ),
            forall|v: TyVarId|
                base.contains_key(v) && !forder.take(k as int).contains(v)
                    ==> #[trigger] out@[v] == base[v],
        decreases forder.len() - k,
    {
        let v = *first.map.key_at(k);
        if let Some(t) = first.get(v) {
            out.insert(v, apply_ty(second, t));
        }
        proof {
            maps::take_next(forder, k as int);
        }
        k += 1;
    }
    assert(forder.take(forder.len() as int) =~= forder);
    assert(out@ =~= composed(second@, first@));
    out
}

} // verus!
