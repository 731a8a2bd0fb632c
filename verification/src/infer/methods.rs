//! Calls: which method or function is meant, and what the call comes to once
//! the arguments are typed.
use crate::ast::Output;
use crate::env::{Scheme, SchemeV};
use crate::id::NodeId;
use crate::infer::calls;
use crate::infer::instances::{self, BoundMethod, BoundMethodV, constraint_var_of_ty};
use crate::infer::{BoundMethodCall, Checker, CheckerV, ExistentialMethodCall, TablesV};
use crate::maps::Dup;
use crate::report::{ErrorCode, Span};
use crate::subst::Subst;
use crate::text::{cat3, cat5};
use crate::tree::{Head, Tree};
use crate::ty::{Constraint, Ty, TyVarId};
use vstd::prelude::*;

verus! {

broadcast use crate::tree::group_shapes;

/// A scheme with fresh variables for the quantified ones.
#[derive(Debug)]
pub struct OpenScheme {
    pub ty: Ty,
    pub constraints: Vec<Constraint>,
    pub mapping: Subst,
}

/// The model of an [`OpenScheme`].
#[verifier::ext_equal]
pub struct OpenSchemeV {
    pub ty: Tree,
    pub constraints: Seq<Tree>,
    pub mapping: Map<TyVarId, Tree>,
}

impl View for OpenScheme {
    type V = OpenSchemeV;

    open spec fn view(&self) -> OpenSchemeV {
        OpenSchemeV {
            ty: self.ty@,
            constraints: self.constraints.deep_view(),
            mapping: self.mapping@,
        }
    }
}

/// Which method a call `recv.method(..)` means.
#[derive(Debug)]
pub enum MethodPlan {
    /// A method of the trait that a packed value carries.
    Existential { owner: String, slot: usize, scheme: Scheme },
    /// A method of an active trait bound.
    Bound { bound: BoundMethod, open: OpenScheme },
    /// A method of the class of the receiver.
    Inherent { owner: String, ty: Ty },
    /// A method of a trait that the type of the receiver has.
    Ground { class: String, scheme: Scheme, open: OpenScheme },
    /// None; the class of the receiver, if it has one.
    Unknown { owner: Option<String> },
}

/// The model of a [`MethodPlan`].
#[verifier::ext_equal]
pub enum PlanV {
    Existential(Seq<char>, usize, SchemeV),
    Bound(BoundMethodV, OpenSchemeV),
    Inherent(Seq<char>, Tree),
    Ground(Seq<char>, SchemeV, OpenSchemeV),
    Unknown(Option<Seq<char>>),
}

impl View for MethodPlan {
    type V = PlanV;

    open spec fn view(&self) -> PlanV {
        match self {
            MethodPlan::Existential { owner, slot, scheme } => PlanV::Existential(
                owner@,
                *slot,
                scheme@,
            ),
            MethodPlan::Bound { bound, open } => PlanV::Bound(bound@, open@),
            MethodPlan::Inherent { owner, ty } => PlanV::Inherent(owner@, ty@),
            MethodPlan::Ground { class, scheme, open } => PlanV::Ground(class@, scheme@, open@),
            MethodPlan::Unknown { owner } => PlanV::Unknown(owner.deep_view()),
        }
    }
}

/// The trait of a packed value.
pub open spec fn packed_class(t: Tree) -> Option<Seq<char>> {
    match t {
        Tree::Node(Head::Existential(class), _) => Some(class),
        _ => None,
    }
}

fn class_of_pack(t: &Ty) -> (r: Option<String>)
    ensures
        r.deep_view() == packed_class(t@),
{
    match t {
        Ty::Existential { class } => Some(class.clone()),
        _ => None,
    }
}

impl CheckerV {
    /// How a call through a trait bound is lowered is recorded.
    pub open spec fn record_method_call(self, id: Option<NodeId>, range: Span, hint: BoundMethodCall) -> CheckerV {
        CheckerV {
            out: TablesV {
                method_calls: match id {
                    Some(id) => self.out.method_calls.insert(id, hint),
                    None => self.out.method_calls,
                },
                method_calls_by_span: self.out.method_calls_by_span.insert(range, hint),
                ..self.out
            },
            ..self
        }
    }

    /// How a call on a packed value is lowered is recorded.
    pub open spec fn record_existential_call(
        self,
        id: Option<NodeId>,
        range: Span,
        hint: ExistentialMethodCall,
    ) -> CheckerV {
        CheckerV {
            out: TablesV {
                existential_calls: match id {
                    Some(id) => self.out.existential_calls.insert(id, hint),
                    None => self.out.existential_calls,
                },
                existential_calls_by_span: self.out.existential_calls_by_span.insert(range, hint),
                ..self.out
            },
            ..self
        }
    }

    /// A scheme is opened.
    pub open spec fn open_scheme(self, scheme: SchemeV) -> (CheckerV, OpenSchemeV) {
        let (c, ty, constraints, mapping) = self.instantiate_scheme_mapped(scheme);
        (c, OpenSchemeV { ty, constraints, mapping })
    }

    /// The constraints of an opened scheme are discharged, if there are any.
    pub open spec fn settle(
        self,
        class: Seq<char>,
        scheme: SchemeV,
        open: OpenSchemeV,
        id: Option<NodeId>,
        range: Span,
    ) -> CheckerV {
        if open.constraints.len() == 0 {
            self
        } else {
            self.discharge_constraints(id, open.constraints, range, 0).pin_assoc_after_discharge(
                class,
                open.constraints,
                Some(scheme),
                open.mapping,
                range,
                0,
            )
        }
    }

    /// The declared method of a class.
    pub open spec fn inherent_method(self, owner: Seq<char>, method: Seq<char>) -> Option<SchemeV> {
        if self.reg.methods.contains_key(owner) && self.reg.methods[owner].contains_key(method) {
            Some(self.reg.methods[owner][method].scheme)
        } else {
            None
        }
    }

    /// The method of a call, when no trait bound offers it: one of the class of
    /// the receiver, or else one of a trait that its type has.
    pub open spec fn plan_plain(self, method: Seq<char>, recv: Tree) -> (CheckerV, PlanV) {
        let owner = match self.class_instance(self.resolve(recv)) {
            Some((name, _)) => Some(name),
            None => None,
        };
        let declared = match owner {
            Some(name) => self.inherent_method(name, method),
            None => None,
        };
        match declared {
            Some(scheme) => {
                let (c, t) = self.instantiate_ty(scheme);
                (c, PlanV::Inherent(owner.unwrap(), t))
            },
            None => match self.ground_trait_method_for_receiver(method, recv) {
                (c, Some((class, scheme))) => {
                    let (c, open) = c.open_scheme(scheme);
                    (c, PlanV::Ground(class, scheme, open))
                },
                (c, None) => (c, PlanV::Unknown(owner)),
            },
        }
    }

    /// Which method a call on a receiver means. A packed value offers the
    /// methods of its trait; then come active bounds, the class of the receiver
    /// and the traits of its type.
    pub open spec fn plan_method(self, method: Seq<char>, recv: Tree, range: Span) -> (
        CheckerV,
        PlanV,
    ) {
        let resolved = self.resolve(recv);
        let packed = match packed_class(resolved) {
            Some(class) => self.existential_method_candidate(class, method),
            None => None,
        };
        match packed {
            Some((owner, slot, scheme)) => (self, PlanV::Existential(owner, slot, scheme)),
            None => {
                let var = instances::dispatch_var(resolved);
                let (c, bound) = match var {
                    Some(_) => self.select_bound_method(
                        self.bound_method_candidates(method, var, 0, Seq::empty()),
                        method,
                        range,
                    ),
                    None => (self, None),
                };
                match bound {
                    Some(b) => {
                        let (c, open) = c.bind_matching_abstract_constraints(
                            var,
                            b.dict_class,
                            0,
                        ).open_scheme(b.scheme);
                        (c, PlanV::Bound(b, open))
                    },
                    None => c.plan_plain(method, recv),
                }
            },
        }
    }

    /// The type of a method call; the receiver is the first of `args`.
    pub open spec fn finish_method(
        self,
        plan: PlanV,
        method: Seq<char>,
        args: Seq<Tree>,
        exprs: Option<Seq<Output>>,
        id: Option<NodeId>,
        range: Span,
    ) -> (CheckerV, Tree) {
        match plan {
            PlanV::Existential(owner, method_slot, scheme) => self.record_existential_call(
                id,
                range,
                ExistentialMethodCall {
                    method_slot,
                    arity: args.len() as usize,
                    has_receiver: true,
                },
            ).apply_existential_method(owner, method, scheme, args, exprs, id, range),
            PlanV::Bound(b, open) => {
                let (c, t) = self.record_method_call(
                    id,
                    range,
                    BoundMethodCall {
                        dict_index: b.dict_index,
                        method_slot: b.method_slot,
                        arity: args.len() as usize,
                        has_receiver: true,
                    },
                ).apply_function(
                    Some(b.owner + "::"@ + method),
                    open.ty,
                    args,
                    None,
                    id,
                    range,
                    0,
                );
                (c.settle(b.owner, b.scheme, open, id, range), t)
            },
            PlanV::Inherent(owner, ty) => self.apply_function(
                Some(owner + "::"@ + method),
                ty,
                args,
                None,
                id,
                range,
                0,
            ),
            PlanV::Ground(class, scheme, open) => {
                let (c, t) = self.apply_function(
                    Some(class + "::"@ + method),
                    open.ty,
                    args,
                    None,
                    id,
                    range,
                    0,
                );
                let c = match c.ctx.expected {
                    Some(expected) => c.unify(t, expected, range, "expected type"@).0,
                    None => c,
                };
                let c = c.settle(class, scheme, open, id, range);
                (c, c.resolve(t))
            },
            PlanV::Unknown(Some(owner)) => self.error(
                ErrorCode::UnknownFunction,
                "Cannot find method `"@ + method + "` on class `"@ + owner + "`"@,
                range,
            ),
            PlanV::Unknown(None) => self.error_with_help(
                ErrorCode::NotAFunction,
                "Cannot call method `"@ + method + "` on non-class type"@,
                range,
                "method calls require a class instance receiver"@,
            ),
        }
    }

    /// The type of a call of a bound name.
    pub open spec fn call_value(
        self,
        name: Seq<char>,
        args: Seq<Tree>,
        exprs: Option<Seq<Output>>,
        id: Option<NodeId>,
        range: Span,
    ) -> (CheckerV, Tree) {
        match self.lookup(name) {
            Some(scheme) => {
                let (c, open) = self.open_scheme(scheme);
                let (c, t) = c.apply_function(Some(name), open.ty, args, exprs, id, range, 0);
                (c.settle(""@, scheme, open, id, range), t)
            },
            None => self.error(
                ErrorCode::UnknownFunction,
                "Cannot find function `"@ + name + "`"@,
                range,
            ),
        }
    }

    /// The variable by which a call is dispatched: that of its first argument.
    pub open spec fn first_var_of(self, args: Seq<Tree>) -> Option<TyVarId> {
        if args.len() == 0 {
            None
        } else {
            instances::dispatch_var(self.resolve(args[0]))
        }
    }

    /// The type of a call `name(..)`. A method of a packed first argument comes
    /// first, then one of an active bound, then what the name is bound to.
    pub open spec fn finish_call(
        self,
        name: Seq<char>,
        args: Seq<Tree>,
        exprs: Option<Seq<Output>>,
        id: Option<NodeId>,
        range: Span,
    ) -> (CheckerV, Tree) {
        let packed = if args.len() > 0 {
            match packed_class(self.resolve(args[0])) {
                Some(class) => self.existential_method_candidate(class, name),
                None => None,
            }
        } else {
            None
        };
        match packed {
            Some((owner, method_slot, scheme)) => self.record_existential_call(
                id,
                range,
                ExistentialMethodCall {
                    method_slot,
                    arity: args.len() as usize,
                    has_receiver: false,
                },
            ).apply_existential_method(owner, name, scheme, args, exprs, id, range),
            None => {
                let var = self.first_var_of(args);
                let offered = self.bound_method_candidates(name, None, 0, Seq::empty());
                let (c, bound) = if offered.len() == 0 {
                    (self, None)
                } else {
                    self.select_bound_method(
                        self.bound_method_candidates(name, var, 0, Seq::empty()),
                        name,
                        range,
                    )
                };
                match bound {
                    Some(b) => {
                        let (c, open) = c.bind_matching_abstract_constraints(
                            var,
                            b.dict_class,
                            0,
                        ).open_scheme(b.scheme);
                        let (c, t) = c.record_method_call(
                            id,
                            range,
                            BoundMethodCall {
                                dict_index: b.dict_index,
                                method_slot: b.method_slot,
                                arity: args.len() as usize,
                                has_receiver: false,
                            },
                        ).apply_function(
                            Some(b.owner + "::"@ + name),
                            open.ty,
                            args,
                            exprs,
                            id,
                            range,
                            0,
                        );
                        (c.settle(b.owner, b.scheme, open, id, range), t)
                    },
                    None => c.call_value(name, args, exprs, id, range),
                }
            },
        }
    }
}

impl Checker {
    fn record_method_call(&mut self, id: Option<NodeId>, range: Span, hint: BoundMethodCall)
        ensures
            final(self)@ == old(self)@.record_method_call(id, range, hint),
    {
        if let Some(id) = id {
            self.out.method_calls.insert(id, hint);
        }
        self.out.method_calls_by_span.insert(range, hint);
    }

    fn record_existential_call(&mut self, id: Option<NodeId>, range: Span, hint: ExistentialMethodCall)
        ensures
            final(self)@ == old(self)@.record_existential_call(id, range, hint),
    {
        if let Some(id) = id {
            self.out.existential_calls.insert(id, hint);
        }
        self.out.existential_calls_by_span.insert(range, hint);
    }

    fn open_scheme(&mut self, scheme: &Scheme) -> (r: OpenScheme)
        ensures
            (final(self)@, r@) == old(self)@.open_scheme(scheme@),
    {
        let (ty, constraints, mapping) = self.instantiate_scheme_mapped(scheme);
        OpenScheme { ty, constraints, mapping }
    }

    fn settle(
        &mut self,
        class: &str,
        scheme: &Scheme,
        open: &OpenScheme,
        id: Option<NodeId>,
        range: Span,
    )
        ensures
            final(self)@ == old(self)@.settle(class@, scheme@, open@, id, range),
    {
        if open.constraints.len() > 0 {
            self.discharge_constraints(id, &open.constraints, range);
            self.pin_assoc_after_discharge(
                class,
                &open.constraints,
                Some(scheme),
                &open.mapping,
                range,
            );
        }
    }

    fn inherent_method(&self, owner: &str, method: &str) -> (r: Option<Scheme>)
        ensures
            r.deep_view() == self@.inherent_method(owner@, method@),
    {
        match self.reg.methods.get(owner) {
            Some(ms) => match ms.get(method) {
                Some(m) => Some(m.scheme.clone()),
                None => None,
            },
            None => None,
        }
    }

    fn plan_plain(&mut self, method: &str, recv: &Ty) -> (r: MethodPlan)
        ensures
            (final(self)@, r@) == old(self)@.plan_plain(method@, recv@),
    {
        let resolved = self.resolve(recv);
        let owner = match self.class_instance(&resolved) {
            Some((name, _)) => Some(name),
            None => None,
        };
        if let Some(name) = &owner {
            if let Some(scheme) = self.inherent_method(name.as_str(), method) {
                let ty = self.instantiate_ty(&scheme);
                return MethodPlan::Inherent { owner: name.clone(), ty };
            }
        }
        match self.ground_trait_method_for_receiver(method, recv) {
            Some((class, scheme)) => {
                let open = self.open_scheme(&scheme);
                MethodPlan::Ground { class, scheme, open }
            },
            None => MethodPlan::Unknown { owner },
        }
    }

    /// Find which method a call on a receiver means.
    pub fn plan_method(&mut self, method: &str, recv: &Ty, range: Span) -> (r: MethodPlan)
        ensures
            (final(self)@, r@) == old(self)@.plan_method(method@, recv@, range),
    {
        let resolved = self.resolve(recv);
        if let Some(class) = class_of_pack(&resolved) {
            if let Some((owner, slot, scheme)) = self.existential_method_candidate(
                class.as_str(),
                method,
            ) {
                return MethodPlan::Existential { owner, slot, scheme };
            }
        }
        let var = constraint_var_of_ty(&resolved);
        if var.is_some() {
            let candidates = self.bound_method_candidates(method, var);
            if let Some(bound) = self.select_bound_method(candidates, method, range) {
                self.bind_matching_abstract_constraints(var, bound.dict_class.as_str());
                let open = self.open_scheme(&bound.scheme);
                return MethodPlan::Bound { bound, open };
            }
        }
        self.plan_plain(method, recv)
    }

    /// The type of a method call; the receiver is the first of `args`.
    pub fn finish_method(
        &mut self,
        plan: &MethodPlan,
        method: &str,
        args: &Vec<Ty>,
        exprs: Option<&Vec<Output>>,
        id: Option<NodeId>,
        range: Span,
    ) -> (r: Ty)
        ensures
            (final(self)@, r@) == old(self)@.finish_method(
                plan@,
                method@,
                args.deep_view(),
                calls::opt_nodes(exprs),
                id,
                range,
            ),
    {
        match plan {
            MethodPlan::Existential { owner, slot, scheme } => {
                let hint = ExistentialMethodCall {
                    method_slot: *slot,
                    arity: args.len(),
                    has_receiver: true,
                };
                self.record_existential_call(id, range, hint);
                self.apply_existential_method(
                    owner.as_str(),
                    method,
                    scheme,
                    args,
                    exprs,
                    id,
                    range,
                )
            },
            MethodPlan::Bound { bound, open } => {
                let hint = BoundMethodCall {
                    dict_index: bound.dict_index,
                    method_slot: bound.method_slot,
                    arity: args.len(),
                    has_receiver: true,
                };
                self.record_method_call(id, range, hint);
                let name = cat3(bound.owner.as_str(), "::", method);
                let t = self.apply_function(
                    Some(name.as_str()),
                    &open.ty,
                    args,
                    None,
                    id,
                    range,
                );
                self.settle(bound.owner.as_str(), &bound.scheme, open, id, range);
                t
            },
            MethodPlan::Inherent { owner, ty } => {
                let name = cat3(owner.as_str(), "::", method);
                self.apply_function(Some(name.as_str()), ty, args, None, id, range)
            },
            MethodPlan::Ground { class, scheme, open } => {
                let name = cat3(class.as_str(), "::", method);
                let t = self.apply_function(
                    Some(name.as_str()),
                    &open.ty,
                    args,
                    None,
                    id,
                    range,
                );
                let expected = self.ctx.expected.dup();
                if let Some(expected) = expected {
                    let _ = self.unify(&t, &expected, range, "expected type");
                }
                self.settle(class.as_str(), scheme, open, id, range);
                self.resolve(&t)
            },
            MethodPlan::Unknown { owner } => match owner {
                Some(owner) => self.error(
                    ErrorCode::UnknownFunction,
                    cat5(
                        "Cannot find method `",
                        method,
                        "` on class `",
                        owner.as_str(),
                        "`",
                    ),
                    range,
                ),
                None => self.error_with_help(
                    ErrorCode::NotAFunction,
                    cat3("Cannot call method `", method, "` on non-class type"),
                    range,
                    "method calls require a class instance receiver".to_owned(),
                ),
            },
        }
    }

    fn call_value(
        &mut self,
        name: &str,
        args: &Vec<Ty>,
        exprs: Option<&Vec<Output>>,
        id: Option<NodeId>,
        range: Span,
    ) -> (r: Ty)
        ensures
            (final(self)@, r@) == old(self)@.call_value(
                name@,
                args.deep_view(),
                calls::opt_nodes(exprs),
                id,
                range,
            ),
    {
        match self.lookup(name) {
            Some(scheme) => {
                let open = self.open_scheme(&scheme);
                let t = self.apply_function(Some(name), &open.ty, args, exprs, id, range);
                self.settle("", &scheme, &open, id, range);
                t
            },
            None => self.error(
                ErrorCode::UnknownFunction,
                cat3("Cannot find function `", name, "`"),
                range,
            ),
        }
    }

    fn first_var_of(&self, args: &Vec<Ty>) -> (r: Option<TyVarId>)
        ensures
            r == self@.first_var_of(args.deep_view()),
    {
        if args.len() == 0 {
            None
        } else {
            assert(args.deep_view()[0] == args@[0]@);
            let first = self.resolve(&args[0]);
            constraint_var_of_ty(&first)
        }
    }

    fn packed_method(&self, name: &str, args: &Vec<Ty>) -> (r: Option<(String, usize, Scheme)>)
        ensures
            match r {
                Some((owner, slot, scheme)) => args@.len() > 0 && packed_class(
                    self@.resolve(args.deep_view()[0]),
                ) is Some && self@.existential_method_candidate(
                    packed_class(self@.resolve(args.deep_view()[0])).unwrap(),
                    name@,
                ) == Some((owner@, slot, scheme@)),
                None => args@.len() == 0 || packed_class(self@.resolve(args.deep_view()[0])) is None
                    || self@.existential_method_candidate(
                    packed_class(self@.resolve(args.deep_view()[0])).unwrap(),
                    name@,
                ) is None,
            },
    {
        if args.len() == 0 {
            return None;
        }
        assert(args.deep_view()[0] == args@[0]@);
        let first = self.resolve(&args[0]);
        match class_of_pack(&first) {
            Some(class) => self.existential_method_candidate(class.as_str(), name),
            None => None,
        }
    }

    /// The type of a call `name(..)`.
    pub fn finish_call(
        &mut self,
        name: &str,
        args: &Vec<Ty>,
        exprs: Option<&Vec<Output>>,
        id: Option<NodeId>,
        range: Span,
    ) -> (r: Ty)
        ensures
            (final(self)@, r@) == old(self)@.finish_call(
                name@,
                args.deep_view(),
                calls::opt_nodes(exprs),
                id,
                range,
            ),
    {
        if let Some((owner, method_slot, scheme)) = self.packed_method(name, args) {
            let hint = ExistentialMethodCall {
                method_slot,
                arity: args.len(),
                has_receiver: false,
            };
            self.record_existential_call(id, range, hint);
            return self.apply_existential_method(
                owner.as_str(),
                name,
                &scheme,
                args,
                exprs,
                id,
                range,
            );
        }
        let var = self.first_var_of(args);
        let offered = self.bound_method_candidates(name, None);
        if offered.len() > 0 {
            let candidates = self.bound_method_candidates(name, var);
            if let Some(b) = self.select_bound_method(candidates, name, range) {
                self.bind_matching_abstract_constraints(var, b.dict_class.as_str());
                let open = self.open_scheme(&b.scheme);
                let hint = BoundMethodCall {
                    dict_index: b.dict_index,
                    method_slot: b.method_slot,
                    arity: args.len(),
                    has_receiver: false,
                };
                self.record_method_call(id, range, hint);
                let full = cat3(b.owner.as_str(), "::", name);
                let t = self.apply_function(
                    Some(full.as_str()),
                    &open.ty,
                    args,
                    exprs,
                    id,
                    range,
                );
                self.settle(b.owner.as_str(), &b.scheme, &open, id, range);
                return t;
            }
        }
        self.call_value(name, args, exprs, id, range)
    }
}

} // verus!
