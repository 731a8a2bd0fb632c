//! `for x in` loops: what the iterable yields, and how the loop is lowered.
use crate::generics::{InstV, InstanceDef};
use crate::id::NodeId;
use crate::infer::instances::{self, copy_subst};
use crate::infer::{Checker, CheckerV, ForInInfo, ForInKind, ForInV, TablesV};
use crate::maps::Dup;
use crate::report::{ErrorCode, Span};
use crate::subst::{self, Subst, compose};
use crate::text::{cat2, cat3, cat7, same_text};
use crate::tree::{self, Head, Tree};
use crate::ty::{Ty, TyVarId, string, tuple, ty_text, tys1, tys2};
use crate::unify::{self, field_types, unify_with};
use vstd::prelude::*;

verus! {

broadcast use crate::tree::group_shapes;

/// The first type from place `at` on that cannot be made equal to `first`.
pub open spec fn odd_one(s: Map<TyVarId, Tree>, first: Tree, ts: Seq<Tree>, at: nat) -> Option<Tree>
    decreases ts.len() - at,
{
    if at >= ts.len() {
        None
    } else {
        let other = ts[at as int].subst(s);
        if unify::unified(s, first, other) is Err {
            Some(other)
        } else {
            odd_one(s, first, ts, at + 1)
        }
    }
}

/// A substitution extended by making `first` equal to each of the types from
/// place `at` on, as far as that goes.
pub open spec fn gathered(s: Map<TyVarId, Tree>, first: Tree, ts: Seq<Tree>, at: nat) -> Map<
    TyVarId,
    Tree,
>
    decreases ts.len() - at,
{
    if at >= ts.len() {
        s
    } else {
        gathered(
            match unify::unified(s, first, ts[at as int]) {
                Ok(u) => u,
                Err(_) => s,
            },
            first,
            ts,
            at + 1,
        )
    }
}

fn find_odd_one(s: &Subst, first: &Ty, tys: &Vec<Ty>) -> (r: Option<Ty>)
    ensures
        r.deep_view() == odd_one(s@, first@, tys.deep_view(), 1),
{
    let ghost all = tys.deep_view();
    let mut i: usize = 1;
    while i < tys.len()
        invariant
            all == tys.deep_view(),
            odd_one(s@, first@, all, 1) == odd_one(s@, first@, all, i as nat),
        decreases tys.len() - i,
    {
        assert(all[i as int] == tys@[i as int]@);
        let other = crate::subst::apply_ty(s, &tys[i]);
        if unify_with(s, first, &other).is_err() {
            return Some(other);
        }
        i += 1;
    }
    None
}

fn gather(s: &Subst, first: &Ty, tys: &Vec<Ty>) -> (r: Subst)
    ensures
        r@ == gathered(s@, first@, tys.deep_view(), 1),
{
    let ghost all = tys.deep_view();
    let mut local = copy_subst(s);
    let mut i: usize = 1;
    while i < tys.len()
        invariant
            all == tys.deep_view(),
            gathered(s@, first@, all, 1) == gathered(local@, first@, all, i as nat),
        decreases tys.len() - i,
    {
        assert(all[i as int] == tys@[i as int]@);
        if let Ok(u) = unify_with(&local, first, &tys[i]) {
            local = u;
        }
        i += 1;
    }
    local
}

/// An associated type of an instance, taken as it is written.
pub open spec fn assoc_ty(inst: InstV, name: Seq<char>) -> Option<Tree> {
    if inst.assoc_tys.contains_key(name) {
        Some(inst.assoc_tys[name].ty)
    } else {
        None
    }
}

fn find_assoc_ty(inst: &InstanceDef, name: &str) -> (r: Option<Ty>)
    ensures
        r.deep_view() == assoc_ty(inst@, name@),
{
    match inst.assoc_tys.get(name) {
        Some(v) => Some(v.ty.clone()),
        None => None,
    }
}

/// The implementation of a method in an instance.
pub open spec fn method_fqn(inst: InstV, name: Seq<char>) -> Option<Seq<char>> {
    if inst.method_fqns.contains_key(name) {
        Some(inst.method_fqns[name])
    } else {
        None
    }
}

fn find_method_fqn(inst: &InstanceDef, name: &str) -> (r: Option<String>)
    ensures
        r.deep_view() == method_fqn(inst@, name@),
{
    match inst.method_fqns.get(name) {
        Some(f) => Some(f.clone()),
        None => None,
    }
}

/// The name and the value that a record yields.
pub open spec fn entry_ty(value: Tree) -> Tree {
    Tree::tuple(seq![Tree::con("string"@), value])
}

fn entry(value: Ty) -> (r: Ty)
    ensures
        r@ == entry_ty(value@),
{
    let items = tys2(string(), value);
    tuple(items)
}

/// An item and how it is iterated.
pub open spec fn item_and_kind(r: Option<(Ty, ForInKind)>) -> Option<(Tree, ForInV)> {
    match r {
        Some((t, k)) => Some((t@, k@)),
        None => None,
    }
}

impl CheckerV {
    /// The type that types have in common, or the complaint that they have none.
    pub open spec fn homogeneous_types(self, ts: Seq<Tree>, range: Span, kind: Seq<char>) -> (
        CheckerV,
        Option<Tree>,
    ) {
        let first = self.resolve(ts[0]);
        match odd_one(self.subst, first, ts, 1) {
            Some(other) => (
                self.error_with_help(
                    ErrorCode::GenericTypeError,
                    "heterogeneous "@ + kind + " is not iterable (element types `"@ + first.text()
                        + "` and `"@ + other.text() + "`)"@,
                    range,
                    kind + " for-in requires all elements to share one type"@,
                ).0,
                None,
            ),
            None => {
                let s = gathered(self.subst, first, ts, 1);
                let c = CheckerV { subst: subst::composed(s, self.subst), ..self };
                (c, Some(c.resolve(first)))
            },
        }
    }

    /// What a built-in iterable yields, and how it is iterated.
    pub open spec fn builtin_for_in_kind(self, t: Tree, range: Span) -> (
        CheckerV,
        Option<(Tree, ForInV)>,
    ) {
        match t {
            Tree::Node(Head::Array(_), kids) => (self, Some((kids[0], ForInV::Array))),
            Tree::Node(Head::Tuple, kids) => if kids.len() == 0 {
                (
                    self.error_with_help(
                        ErrorCode::GenericTypeError,
                        "empty tuple is not iterable"@,
                        range,
                        "tuple for-in requires at least one element"@,
                    ).0,
                    None,
                )
            } else {
                match self.homogeneous_types(kids, range, "tuple"@) {
                    (c, Some(item)) => (c, Some((item, ForInV::Tuple(kids.len() as usize)))),
                    (c, None) => (c, None),
                }
            },
            Tree::Node(Head::Record(_), kids) => if kids.len() == 0 {
                let (c, v) = self.fresh();
                (c, Some((entry_ty(v), ForInV::Dict)))
            } else {
                match self.homogeneous_types(kids, range, "dict"@) {
                    (c, Some(v)) => (c, Some((entry_ty(v), ForInV::Dict))),
                    (c, None) => (c, None),
                }
            },
            Tree::Node(Head::App, kids) => if kids.len() == 3 && kids[0] == Tree::con(
                "coroutine"@,
            ) {
                (self, Some((kids[1], ForInV::Coroutine)))
            } else {
                (self, None)
            },
            _ => (self, None),
        }
    }

    /// How a loop is lowered is recorded.
    pub open spec fn record_for_in_info(self, id: Option<NodeId>, range: Span, info: ForInV) -> CheckerV {
        CheckerV {
            out: TablesV {
                for_in: match id {
                    Some(id) => self.out.for_in.insert(id, info),
                    None => self.out.for_in,
                },
                for_in_by_span: self.out.for_in_by_span.insert(range, info),
                ..self.out
            },
            ..self
        }
    }

    /// A type, or a fresh variable where there is none.
    pub open spec fn or_fresh(self, t: Option<Tree>) -> (CheckerV, Tree) {
        match t {
            Some(t) => (self, t),
            None => self.fresh(),
        }
    }

    /// The item of a loop over an `IntoIterator`, whose iterator is looked up.
    pub open spec fn custom_for_in(
        self,
        t: Tree,
        into: InstV,
        id: Option<NodeId>,
        range: Span,
        loop_range: Span,
    ) -> (CheckerV, Option<Tree>) {
        let (c, item) = self.or_fresh(assoc_ty(into, "Item"@));
        let (c, iter_ty) = c.or_fresh(assoc_ty(into, "IntoIter"@));
        match c.find_unique_instance("Iterator"@, seq![iter_ty], range) {
            (c, Ok(Some(iter))) => {
                let c = match assoc_ty(iter, "Item"@) {
                    Some(iter_item) => c.unify(
                        item,
                        iter_item,
                        range,
                        "IntoIterator/Iterator Item"@,
                    ).0,
                    None => c,
                };
                match (method_fqn(into, "into_iter"@), method_fqn(iter, "next"@)) {
                    (Some(into_iter_fqn), Some(next_fqn)) => {
                        let c = c.record_for_in_info(
                            id,
                            loop_range,
                            ForInV::Custom(into_iter_fqn, next_fqn),
                        );
                        (c, Some(c.resolve(item)))
                    },
                    _ => (
                        c.error_with_help(
                            ErrorCode::GenericTypeError,
                            "IntoIterator/Iterator instance is missing method implementations"@,
                            range,
                            "implement `into_iter` and `next` for the iterable type"@,
                        ).0,
                        None,
                    ),
                }
            },
            (c, Ok(None)) => (
                c.error_with_help(
                    ErrorCode::GenericTypeError,
                    "type `"@ + t.text() + "` is IntoIterator but its IntoIter is not Iterator"@,
                    range,
                    "add `impl Iterator<"@ + iter_ty.text() + ">` with matching `type Item`"@,
                ).0,
                None,
            ),
            (c, Err(_)) => (c, None),
        }
    }

    /// The item of a `for x in` loop; how it is lowered is recorded.
    pub open spec fn resolve_for_in_iterable(
        self,
        t: Tree,
        id: Option<NodeId>,
        range: Span,
        loop_range: Span,
    ) -> (CheckerV, Option<Tree>) {
        match self.builtin_for_in_kind(t, range) {
            (c, Some((item, kind))) => (c.record_for_in_info(id, loop_range, kind), Some(item)),
            (c, None) => match c.find_unique_instance("IntoIterator"@, seq![t], range) {
                (c, Ok(Some(into))) => c.custom_for_in(t, into, id, range, loop_range),
                (c, Ok(None)) => (
                    c.error_with_help(
                        ErrorCode::GenericTypeError,
                        "type `"@ + t.text() + "` is not iterable"@,
                        range,
                        "implement `IntoIterator` / `Iterator`, or use an array, homogeneous tuple/dict, or coroutine"@,
                    ).0,
                    None,
                ),
                (c, Err(_)) => (c, None),
            },
        }
    }
}

impl Checker {
    /// The type that types have in common, or the complaint that they have none.
    pub fn homogeneous_types(&mut self, tys: &Vec<Ty>, range: Span, kind: &str) -> (r: Option<Ty>)
        requires
            tys@.len() > 0,
        ensures
            (final(self)@, r.deep_view()) == old(self)@.homogeneous_types(
                tys.deep_view(),
                range,
                kind@,
            ),
    {
        assert(tys.deep_view()[0] == tys@[0]@);
        let first = self.resolve(&tys[0]);
        if let Some(other) = find_odd_one(&self.subst, &first, tys) {
            let a = ty_text(&first);
            let b = ty_text(&other);
            let _ = self.error_with_help(
                ErrorCode::GenericTypeError,
                cat7(
                    "heterogeneous ",
                    kind,
                    " is not iterable (element types `",
                    a.as_str(),
                    "` and `",
                    b.as_str(),
                    "`)",
                ),
                range,
                cat2(kind, " for-in requires all elements to share one type"),
            );
            return None;
        }
        let local = gather(&self.subst, &first, tys);
        self.subst = compose(&local, &self.subst);
        Some(self.resolve(&first))
    }

    /// What a built-in iterable yields, and how it is iterated. Returns `None`
    /// when the type is no built-in iterable; one with several element types is
    /// reported.
    pub fn builtin_for_in_kind(&mut self, te: &Ty, range: Span) -> (r: Option<(Ty, ForInKind)>)
        ensures
            (final(self)@, item_and_kind(r)) == old(self)@.builtin_for_in_kind(te@, range),
    {
        match te {
            Ty::Array { element, .. } => {
                assert(te@.kids()[0] == element@);
                Some(((**element).clone(), ForInKind::Array))
            },
            Ty::Tuple(elems) => {
                if elems.len() == 0 {
                    let _ = self.error_with_help(
                        ErrorCode::GenericTypeError,
                        "empty tuple is not iterable".to_owned(),
                        range,
                        "tuple for-in requires at least one element".to_owned(),
                    );
                    return None;
                }
                match self.homogeneous_types(elems, range, "tuple") {
                    Some(item) => Some((item, ForInKind::Tuple { arity: elems.len() })),
                    None => None,
                }
            },
            Ty::Record { fields } => {
                let tys = field_types(fields);
                if tys.len() == 0 {
                    let v = self.fresh();
                    return Some((entry(v), ForInKind::Dict));
                }
                match self.homogeneous_types(&tys, range, "dict") {
                    Some(v) => Some((entry(v), ForInKind::Dict)),
                    None => None,
                }
            },
            Ty::App(head, args) => {
                proof {
                    crate::tree::app_shape(*head, *args);
                    assert(te@.kids()[0] == head@);
                    assert(te@.kids().drop_first() =~= args.deep_view());
                }
                let is_coroutine = match &**head {
                    Ty::Con(n) => {
                        assert(head@ == Tree::con("coroutine"@) ==> head@.head() == Head::Con(
                            "coroutine"@,
                        ));
                        same_text(n.as_str(), "coroutine")
                    },
                    _ => false,
                };
                if is_coroutine && args.len() == 2 {
                    assert(args.deep_view()[0] == args@[0]@);
                    assert(te@.kids()[1] == te@.kids().drop_first()[0]);
                    return Some((args[0].clone(), ForInKind::Coroutine));
                }
                None
            },
            _ => None,
        }
    }

    fn record_for_in_info(&mut self, id: Option<NodeId>, range: Span, info: ForInInfo)
        ensures
            final(self)@ == old(self)@.record_for_in_info(id, range, info@),
    {
        if let Some(id) = id {
            self.out.for_in.insert(id, info.dup());
        }
        self.out.for_in_by_span.insert(range, info);
    }

    /// A type, or a fresh variable where there is none.
    pub fn or_fresh(&mut self, t: Option<Ty>) -> (r: Ty)
        ensures
            (final(self)@, r@) == old(self)@.or_fresh(t.deep_view()),
    {
        match t {
            Some(t) => t,
            None => self.fresh(),
        }
    }

    fn custom_for_in(
        &mut self,
        te: &Ty,
        into: &InstanceDef,
        id: Option<NodeId>,
        range: Span,
        loop_range: Span,
    ) -> (r: Option<Ty>)
        ensures
            (final(self)@, r.deep_view()) == old(self)@.custom_for_in(
                te@,
                into@,
                id,
                range,
                loop_range,
            ),
    {
        let item = self.or_fresh(find_assoc_ty(into, "Item"));
        let iter_ty = self.or_fresh(find_assoc_ty(into, "IntoIter"));
        let wanted = tys1(iter_ty.clone());
        match self.find_unique_instance("Iterator", &wanted, range) {
            Ok(Some(iter)) => {
                if let Some(iter_item) = find_assoc_ty(&iter, "Item") {
                    let _ = self.unify(&item, &iter_item, range, "IntoIterator/Iterator Item");
                }
                match (find_method_fqn(into, "into_iter"), find_method_fqn(&iter, "next")) {
                    (Some(into_iter_fqn), Some(next_fqn)) => {
                        let info = ForInInfo {
                            kind: ForInKind::Custom { into_iter_fqn, next_fqn },
                        };
                        self.record_for_in_info(id, loop_range, info);
                        Some(self.resolve(&item))
                    },
                    _ => {
                        let _ = self.error_with_help(
                            ErrorCode::GenericTypeError,
                            "IntoIterator/Iterator instance is missing method implementations".to_owned(),
                            range,
                            "implement `into_iter` and `next` for the iterable type".to_owned(),
                        );
                        None
                    },
                }
            },
            Ok(None) => {
                let t = ty_text(te);
                let i = ty_text(&iter_ty);
                let _ = self.error_with_help(
                    ErrorCode::GenericTypeError,
                    cat3(
                        "type `",
                        t.as_str(),
                        "` is IntoIterator but its IntoIter is not Iterator",
                    ),
                    range,
                    cat3("add `impl Iterator<", i.as_str(), ">` with matching `type Item`"),
                );
                None
            },
            Err(()) => None,
        }
    }

    /// Resolve the iterable of a `for x in` loop to its item, and record how the
    /// loop is lowered. Arrays, tuples and records of one element type, and
    /// coroutines are built in; for others there must be `IntoIterator` and
    /// `Iterator` instances.
    pub fn resolve_for_in_iterable(
        &mut self,
        te: &Ty,
        id: Option<NodeId>,
        range: Span,
        loop_range: Span,
    ) -> (r: Option<Ty>)
        ensures
            (final(self)@, r.deep_view()) == old(self)@.resolve_for_in_iterable(
                te@,
                id,
                range,
                loop_range,
            ),
    {
        if let Some((item, kind)) = self.builtin_for_in_kind(te, range) {
            self.record_for_in_info(id, loop_range, ForInInfo { kind });
            return Some(item);
        }
        let wanted = tys1(te.clone());
        match self.find_unique_instance("IntoIterator", &wanted, range) {
            Ok(Some(into)) => self.custom_for_in(te, &into, id, range, loop_range),
            Ok(None) => {
                let t = ty_text(te);
                let _ = self.error_with_help(
                    ErrorCode::GenericTypeError,
                    cat3("type `", t.as_str(), "` is not iterable"),
                    range,
                    "implement `IntoIterator` / `Iterator`, or use an array, homogeneous tuple/dict, or coroutine".to_owned(),
                );
                None
            },
            Err(()) => None,
        }
    }
}

} // verus!
