//! Type schemes, fresh variables and the typing environment.
use crate::kind::Kind;
use crate::maps::{Dup, NameMap};
use crate::subst::{self, Subst, apply_constraints, apply_ty};
use crate::tree::Tree;
use crate::ty::{Constraint, Ty, TyVarId, copy_constraints, copy_tys, copy_vars};
use vstd::prelude::*;

verus! {

/// An associated type that a scheme leaves open: `var` stands for the type
/// `name` of the first argument.
#[derive(Debug)]
pub struct AssocProjection {
    pub var: TyVarId,
    pub name: String,
    pub args: Vec<Ty>,
}

/// The model of an [`AssocProjection`].
#[verifier::ext_equal]
pub struct ProjectionV {
    pub var: TyVarId,
    pub name: Seq<char>,
    pub args: Seq<Tree>,
}

impl View for AssocProjection {
    type V = ProjectionV;

    open spec fn view(&self) -> ProjectionV {
        ProjectionV { var: self.var, name: self.name@, args: self.args.deep_view() }
    }
}

impl DeepView for AssocProjection {
    type V = ProjectionV;

    open spec fn deep_view(&self) -> ProjectionV {
        self@
    }
}

impl Clone for AssocProjection {
    fn clone(&self) -> (r: Self)
        ensures
            r@ == self@,
    {
        AssocProjection { var: self.var, name: self.name.clone(), args: copy_tys(&self.args) }
    }
}

/// A type with its quantified variables and the constraints on them.
#[derive(Debug)]
pub struct Scheme {
    pub bounds: Vec<TyVarId>,
    pub kinds: Vec<Kind>,
    pub constraints: Vec<Constraint>,
    pub assoc_projections: Vec<AssocProjection>,
    pub ty: Ty,
}

/// The model of a [`Scheme`].
#[verifier::ext_equal]
pub struct SchemeV {
    pub bounds: Seq<TyVarId>,
    pub kinds: Seq<Kind>,
    pub constraints: Seq<Tree>,
    pub projections: Seq<ProjectionV>,
    pub ty: Tree,
}

impl View for Scheme {
    type V = SchemeV;

    open spec fn view(&self) -> SchemeV {
        SchemeV {
            bounds: self.bounds@,
            kinds: self.kinds@,
            constraints: self.constraints.deep_view(),
            projections: self.assoc_projections.deep_view(),
            ty: self.ty@,
        }
    }
}

impl DeepView for Scheme {
    type V = SchemeV;

    open spec fn deep_view(&self) -> SchemeV {
        self@
    }
}

/// A copy of a list of kinds.
pub fn copy_kinds(v: &Vec<Kind>) -> (r: Vec<Kind>)
    ensures
        r@ == v@,
{
    let mut r: Vec<Kind> = Vec::new();
    let mut i: usize = 0;
    while i < v.len()
        invariant
            i <= v.len(),
            r@ == v@.take(i as int),
        decreases v.len() - i,
    {
        r.push(v[i].clone());
        i += 1;
        assert(r@ =~= v@.take(i as int));
    }
    assert(r@ =~= v@);
    r
}

/// A copy of a list of projections.
pub fn copy_projections(v: &Vec<AssocProjection>) -> (r: Vec<AssocProjection>)
    ensures
        r.deep_view() == v.deep_view(),
{
    let mut r: Vec<AssocProjection> = Vec::new();
    let mut i: usize = 0;
    while i < v.len()
        invariant
            i <= v.len(),
            r.len() == i,
            forall|j: int| 0 <= j < i ==> r.deep_view()[j] == v.deep_view()[j],
        decreases v.len() - i,
    {
        let ghost before = r.deep_view();
        let x = v[i].clone();
        r.push(x);
        assert(r.deep_view() =~= before.push(x@));
        i += 1;
    }
    assert(r.deep_view() =~= v.deep_view());
    r
}

impl Clone for Scheme {
    fn clone(&self) -> (r: Self)
        ensures
            r@ == self@,
    {
        Scheme {
            bounds: copy_vars(&self.bounds),
            kinds: copy_kinds(&self.kinds),
            constraints: copy_constraints(&self.constraints),
            assoc_projections: copy_projections(&self.assoc_projections),
            ty: self.ty.clone(),
        }
    }
}

impl SchemeV {
    /// A type with nothing quantified.
    pub open spec fn mono(ty: Tree) -> SchemeV {
        SchemeV {
            bounds: Seq::empty(),
            kinds: Seq::empty(),
            constraints: Seq::empty(),
            projections: Seq::empty(),
            ty,
        }
    }

    /// A type with `bounds` of kind `*` quantified.
    pub open spec fn poly(bounds: Seq<TyVarId>, constraints: Seq<Tree>, ty: Tree) -> SchemeV {
        SchemeV {
            bounds,
            kinds: Seq::new(bounds.len(), |i: int| Kind::Type),
            constraints,
            projections: Seq::empty(),
            ty,
        }
    }

    /// The kind of the quantified variable at place `i`.
    pub open spec fn kind_at(self, i: int) -> Kind {
        if 0 <= i < self.kinds.len() {
            self.kinds[i]
        } else {
            Kind::Type
        }
    }
}

impl Scheme {
    pub fn mono(ty: Ty) -> (r: Self)
        ensures
            r@ == SchemeV::mono(ty@),
    {
        let r = Scheme {
            bounds: Vec::new(),
            kinds: Vec::new(),
            constraints: Vec::new(),
            assoc_projections: Vec::new(),
            ty,
        };
        assert(r@ =~= SchemeV::mono(ty@));
        r
    }

    pub fn poly(bounds: Vec<TyVarId>, constraints: Vec<Constraint>, ty: Ty) -> (r: Self)
        ensures
            r@ == SchemeV::poly(bounds@, constraints.deep_view(), ty@),
    {
        let mut kinds: Vec<Kind> = Vec::new();
        let mut i: usize = 0;
        while i < bounds.len()
            invariant
                i <= bounds.len(),
                kinds@ == Seq::new(i as nat, |j: int| Kind::Type),
            decreases bounds.len() - i,
        {
            kinds.push(Kind::Type);
            i += 1;
            assert(kinds@ =~= Seq::new(i as nat, |j: int| Kind::Type));
        }
        let r = Scheme { bounds, kinds, constraints, assoc_projections: Vec::new(), ty };
        assert(r@ =~= SchemeV::poly(bounds@, constraints.deep_view(), ty@));
        r
    }

    pub fn poly_with_kinds_and_assoc(
        bounds: Vec<TyVarId>,
        kinds: Vec<Kind>,
        constraints: Vec<Constraint>,
        assoc_projections: Vec<AssocProjection>,
        ty: Ty,
    ) -> (r: Self)
        ensures
            r@ == (SchemeV {
                bounds: bounds@,
                kinds: kinds@,
                constraints: constraints.deep_view(),
                projections: assoc_projections.deep_view(),
                ty: ty@,
            }),
    {
        Scheme { bounds, kinds, constraints, assoc_projections, ty }
    }

    /// The kind of the quantified variable at place `i`, `*` when none is recorded.
    pub fn kind_at(&self, i: usize) -> (r: Kind)
        ensures
            r == self@.kind_at(i as int),
    {
        if i < self.kinds.len() {
            self.kinds[i].clone()
        } else {
            Kind::Type
        }
    }
}

/// The variable after `n`; the last one stays.
pub open spec fn bump(n: u32) -> u32 {
    if n < u32::MAX {
        (n + 1) as u32
    } else {
        n
    }
}

/// The variable `k` steps after `n`.
pub open spec fn bump_by(n: u32, k: nat) -> u32
    decreases k,
{
    if k == 0 {
        n
    } else {
        bump(bump_by(n, (k - 1) as nat))
    }
}

/// Source of fresh type variables.
#[derive(Debug)]
pub struct TyVarCounter {
    pub next: u32,
}

impl View for TyVarCounter {
    type V = u32;

    open spec fn view(&self) -> u32 {
        self.next
    }
}

impl TyVarCounter {
    pub fn new() -> (r: Self)
        ensures
            r@ == 0,
    {
        TyVarCounter { next: 0 }
    }

    pub fn fresh(&mut self) -> (r: TyVarId)
        ensures
            r == TyVarId(old(self)@),
            final(self)@ == bump(old(self)@),
    {
        let v = TyVarId(self.next);
        if self.next < u32::MAX {
            self.next = self.next + 1;
        }
        v
    }
}

/// `bounds`, each mapped to a fresh variable from `next` on.
pub open spec fn fresh_map(bounds: Seq<TyVarId>, next: u32) -> Map<TyVarId, Tree>
    decreases bounds.len(),
{
    if bounds.len() == 0 {
        Map::empty()
    } else {
        let k = (bounds.len() - 1) as nat;
        fresh_map(bounds.drop_last(), next).insert(
            bounds.last(),
            Tree::Var(TyVarId(bump_by(next, k))),
        )
    }
}

/// The fresh variables for `bounds`, in order.
pub open spec fn fresh_vars(n: nat, next: u32) -> Seq<TyVarId> {
    Seq::new(n, |i: int| TyVarId(bump_by(next, i as nat)))
}

/// Map each of `bounds` to a fresh variable.
pub fn freshen(bounds: &Vec<TyVarId>, counter: &mut TyVarCounter) -> (r: (Subst, Vec<TyVarId>))
    ensures
        r.0@ == fresh_map(bounds@, old(counter)@),
        r.1@ == fresh_vars(bounds@.len(), old(counter)@),
        final(counter)@ == bump_by(old(counter)@, bounds@.len()),
{
    let ghost start = counter@;
    let mut s = Subst::empty();
    let mut fresh: Vec<TyVarId> = Vec::new();
    let mut i: usize = 0;
    while i < bounds.len()
        invariant
            i <= bounds.len(),
            s@ == fresh_map(bounds@.take(i as int), start),
            fresh@ == fresh_vars(i as nat, start),
            counter@ == bump_by(start, i as nat),
        decreases bounds.len() - i,
    {
        let v = counter.fresh();
        s.insert(bounds[i], Ty::Var(v));
        fresh.push(v);
        proof {
            let next = bounds@.take(i + 1);
            assert(next.drop_last() =~= bounds@.take(i as int));
            assert(fresh@ =~= fresh_vars((i + 1) as nat, start));
        }
        i += 1;
    }
    assert(bounds@.take(bounds.len() as int) =~= bounds@);
    (s, fresh)
}

/// A type, its constraints and the kinds of its fresh variables.
#[verifier::ext_equal]
pub struct InstanceV {
    pub ty: Tree,
    pub constraints: Seq<Tree>,
    pub kinds: Seq<(TyVarId, Kind)>,
}

/// `scheme` with fresh variables in place of the quantified ones.
pub open spec fn instance_of(scheme: SchemeV, next: u32) -> InstanceV {
    let m = fresh_map(scheme.bounds, next);
    InstanceV {
        ty: scheme.ty.subst(m),
        constraints: subst::subst_all(scheme.constraints, m),
        kinds: Seq::new(
            scheme.bounds.len(),
            |i: int| (TyVarId(bump_by(next, i as nat)), scheme.kind_at(i)),
        ),
    }
}

/// Instantiate a scheme: fresh variables for the quantified ones, with their kinds.
pub fn instantiate_with_kinds(scheme: &Scheme, counter: &mut TyVarCounter) -> (r: (
    Ty,
    Vec<Constraint>,
    Vec<(TyVarId, Kind)>,
))
    ensures
        (InstanceV { ty: r.0@, constraints: r.1.deep_view(), kinds: r.2@ }) == instance_of(
            scheme@,
            old(counter)@,
        ),
        final(counter)@ == bump_by(old(counter)@, scheme@.bounds.len()),
{
    let ghost start = counter@;
    let (s, fresh) = freshen(&scheme.bounds, counter);
    let mut kinds: Vec<(TyVarId, Kind)> = Vec::new();
    let ghost all = instance_of(scheme@, start).kinds;
    let mut i: usize = 0;
    while i < fresh.len()
        invariant
            i <= fresh.len(),
            fresh@ == fresh_vars(scheme@.bounds.len(), start),
            all == instance_of(scheme@, start).kinds,
            kinds@ == all.take(i as int),
        decreases fresh.len() - i,
    {
        kinds.push((fresh[i], scheme.kind_at(i)));
        i += 1;
        assert(kinds@ =~= all.take(i as int));
    }
    assert(kinds@ =~= all);
    (apply_ty(&s, &scheme.ty), apply_constraints(&s, &scheme.constraints), kinds)
}

/// The typing environment: a stack of frames.
#[derive(Debug)]
pub struct Env {
    pub frames: Vec<NameMap<Scheme>>,
}

/// The model of an environment, innermost frame last.
pub type EnvV = Seq<Map<Seq<char>, SchemeV>>;

impl View for Env {
    type V = Seq<Map<Seq<char>, SchemeV>>;

    open spec fn view(&self) -> Seq<Map<Seq<char>, SchemeV>> {
        self.frames.deep_view()
    }
}

/// What `name` is bound to, innermost frame first.
pub open spec fn env_lookup(env: EnvV, name: Seq<char>) -> Option<SchemeV>
    decreases env.len(),
{
    if env.len() == 0 {
        None
    } else if env.last().contains_key(name) {
        Some(env.last()[name])
    } else {
        env_lookup(env.drop_last(), name)
    }
}

/// `name` bound in the innermost frame; an empty stack gets its first frame.
pub open spec fn env_insert(env: EnvV, name: Seq<char>, scheme: SchemeV) -> EnvV {
    if env.len() == 0 {
        seq![Map::empty().insert(name, scheme)]
    } else {
        env.drop_last().push(env.last().insert(name, scheme))
    }
}

/// The stack without its innermost frame.
pub open spec fn env_pop(env: EnvV) -> EnvV {
    if env.len() == 0 {
        env
    } else {
        env.drop_last()
    }
}

impl Env {
    pub fn new() -> (r: Self)
        ensures
            r@ == Seq::<Map<Seq<char>, SchemeV>>::empty(),
    {
        let r = Env { frames: Vec::new() };
        assert(r@ =~= Seq::<Map<Seq<char>, SchemeV>>::empty());
        r
    }

    /// Open a frame.
    pub fn push(&mut self)
        ensures
            final(self)@ == old(self)@.push(Map::<Seq<char>, SchemeV>::empty()),
    {
        self.frames.push(NameMap::new());
        assert(self@ =~= old(self)@.push(Map::<Seq<char>, SchemeV>::empty()));
    }

    /// Close the innermost frame.
    pub fn pop(&mut self)
        ensures
            final(self)@ == env_pop(old(self)@),
    {
        let _ = self.frames.pop();
        assert(self@ =~= env_pop(old(self)@));
    }

    /// Bind `name` in the innermost frame.
    pub fn insert_top(&mut self, name: String, scheme: Scheme)
        ensures
            final(self)@ == env_insert(old(self)@, name@, scheme@),
    {
        let ghost before = self@;
        let mut frame = match self.frames.pop() {
            Some(f) => f,
            None => NameMap::new(),
        };
        frame.insert(name, scheme);
        self.frames.push(frame);
        assert(self@ =~= env_insert(before, name@, scheme@));
    }

    /// What `name` is bound to, innermost frame first.
    pub fn lookup(&self, name: &str) -> (r: Option<&Scheme>)
        ensures
            match r {
                Some(s) => env_lookup(self@, name@) == Some(s@),
                None => env_lookup(self@, name@) is None,
            },
    {
        let mut i: usize = self.frames.len();
        assert(self@.take(i as int) =~= self@);
        while i > 0
            invariant
                i <= self.frames.len(),
                env_lookup(self@, name@) == env_lookup(self@.take(i as int), name@),
            decreases i,
        {
            i -= 1;
            let ghost upto = self@.take(i + 1);
            assert(upto.last() == self.frames@[i as int]@);
            assert(upto.drop_last() =~= self@.take(i as int));
            if let Some(s) = self.frames[i].get(name) {
                return Some(s);
            }
        }
        None
    }
}

impl Dup for Scheme {
    fn dup(&self) -> (r: Self) {
        self.clone()
    }
}

impl Dup for AssocProjection {
    fn dup(&self) -> (r: Self) {
        self.clone()
    }
}

} // verus!
