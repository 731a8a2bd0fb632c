//! The steps of [`instances`](crate::infer::instances) only add.
use crate::env::{self, SchemeV};
use crate::generics::{self, ClassV, InstV};
use crate::id::NodeId;
use crate::infer::CheckerV;
use crate::infer::annotations;
use crate::infer::growth::{self, steps};
use crate::infer::instances::{self, BoundMethodV};
use crate::report::Span;
use crate::soundness;
use crate::tree::{Tree, TyVarId};
use crate::unify;
use vstd::prelude::*;

verus! {

/// Making lists of types equal keeps every solved variable solved, and a settled
/// substitution settled.
proof fn lists_keep_solved(s: Map<TyVarId, Tree>, need: Seq<Tree>, have: Seq<Tree>)
    ensures
        match generics::unify_lists(s, need, have) {
            Some(t) => s.dom().subset_of(t.dom()) && (soundness::settled(s) ==> soundness::settled(
                t,
            )),
            None => true,
        },
    decreases need.len(),
{
    if need.len() > 0 && have.len() > 0 {
        match unify::unified(s, need[0], have[0]) {
            Ok(t) => {
                assert(s.dom().subset_of(t.dom()));
                if soundness::settled(s) {
                    soundness::unified_stays_settled(s, need[0], have[0]);
                }
                lists_keep_solved(t, need.drop_first(), have.drop_first());
            },
            Err(_) => {},
        }
    }
}

impl CheckerV {
    /// What is said to match does.
    proof fn matching_answers(self, class: Seq<char>, wanted: Seq<Tree>, n: nat, i: int)
        requires
            0 <= i < self.matching(class, wanted, n).len(),
        ensures
            self.answers(self.matching(class, wanted, n)[i] as int, class, wanted) is Some,
        decreases n,
    {
        if n > 0 {
            let before = self.matching(class, wanted, (n - 1) as nat);
            if i < before.len() {
                self.matching_answers(class, wanted, (n - 1) as nat, i);
            }
        }
    }
}

impl CheckerV {
    pub broadcast proof fn report_ambiguous_instance_grows(
        self,
        class: Seq<char>,
        wanted: Seq<Tree>,
        first: nat,
        second: nat,
        range: Span,
    )
        ensures
            steps(
                self.ledger(),
                (
                    #[trigger] self.report_ambiguous_instance(class, wanted, first, second, range)
                ).ledger(),
            ),
    {
        broadcast use {growth::chained, CheckerV::report_grows};

        growth::starts(self.ledger());
        growth::arrives(
            self.ledger(),
            self.report_ambiguous_instance(class, wanted, first, second, range).ledger(),
        );
    }

    pub broadcast proof fn find_unique_instance_grows(
        self,
        class: Seq<char>,
        wanted: Seq<Tree>,
        range: Span,
    )
        ensures
            steps(
                self.ledger(),
                (#[trigger] self.find_unique_instance(class, wanted, range)).0.ledger(),
            ),
    {
        broadcast use {CheckerV::report_ambiguous_instance_grows};

        let lookup = self.instance_lookup_args(class, wanted);
        let found = self.matching(class, lookup, self.reg.generics.instances.len());
        if found.len() == 1 {
            self.matching_answers(class, lookup, self.reg.generics.instances.len(), 0);
            let inst = self.reg.generics.instances[found[0] as int];
            lists_keep_solved(self.subst, lookup, inst.args);
        }
        reveal(steps);
    }

    pub broadcast proof fn bind_matching_abstract_constraints_grows(
        self,
        var: Option<TyVarId>,
        class: Seq<char>,
        at: nat,
    )
        ensures
            steps(
                self.ledger(),
                (#[trigger] self.bind_matching_abstract_constraints(var, class, at)).ledger(),
            ),
        decreases self.scope.active.len() - at,
    {
        broadcast use {growth::chained};

        if at < self.scope.active.len() {
            let a = self.scope.active[at as int];
            let c = if CheckerV::touches(a, var) {
                self.bind_abstract_constraint(annotations::class_of(a), class)
            } else {
                self
            };
            c.bind_matching_abstract_constraints_grows(var, class, at + 1);
        }
        growth::starts(self.ledger());
        growth::arrives(
            self.ledger(),
            self.bind_matching_abstract_constraints(var, class, at).ledger(),
        );
    }

    pub broadcast proof fn select_bound_method_grows(
        self,
        candidates: Seq<BoundMethodV>,
        method: Seq<char>,
        range: Span,
    )
        ensures
            steps(
                self.ledger(),
                (#[trigger] self.select_bound_method(candidates, method, range)).0.ledger(),
            ),
    {
        broadcast use {growth::chained, CheckerV::report_grows};

        growth::starts(self.ledger());
        growth::arrives(
            self.ledger(),
            self.select_bound_method(candidates, method, range).0.ledger(),
        );
    }

    pub broadcast proof fn fitting_methods_grows(
        self,
        method: Seq<char>,
        recv: Tree,
        at: nat,
        acc: Seq<(Seq<char>, SchemeV)>,
    )
        ensures
            steps(
                self.ledger(),
                (#[trigger] self.fitting_methods(method, recv, at, acc)).0.ledger(),
            ),
        decreases self.reg.method_order.len() - at,
    {
        broadcast use growth::chained;

        if at < self.reg.method_order.len() {
            let key = self.reg.method_order[at as int];
            if key.1 != method {
                self.fitting_methods_grows(method, recv, at + 1, acc);
            } else {
                let scheme = self.reg.method_schemes[key];
                let t = env::instance_of(scheme, self.counter).ty;
                let fits = t is Node && t.head() is Fun && unify::unified(
                    self.subst,
                    t.kids()[0],
                    recv,
                ) is Ok;
                let c = CheckerV {
                    counter: env::bump_by(self.counter, scheme.bounds.len()),
                    ..self
                };
                growth::counts_up(self.counter, scheme.bounds.len());
                assert(steps(self.ledger(), c.ledger())) by {
                    reveal(steps);
                }
                c.fitting_methods_grows(
                    method,
                    recv,
                    at + 1,
                    if fits {
                        acc.push((key.0, scheme))
                    } else {
                        acc
                    },
                );
            }
        }
        growth::starts(self.ledger());
        growth::arrives(self.ledger(), self.fitting_methods(method, recv, at, acc).0.ledger());
    }

    pub broadcast proof fn ground_trait_method_for_receiver_grows(
        self,
        method: Seq<char>,
        recv: Tree,
    )
        ensures
            steps(
                self.ledger(),
                (#[trigger] self.ground_trait_method_for_receiver(method, recv)).0.ledger(),
            ),
    {
        broadcast use {growth::chained, CheckerV::fitting_methods_grows};

        growth::starts(self.ledger());
        growth::arrives(
            self.ledger(),
            self.ground_trait_method_for_receiver(method, recv).0.ledger(),
        );
    }

    pub broadcast proof fn instantiate_scheme_mapped_grows(self, scheme: SchemeV)
        ensures
            steps(self.ledger(), (#[trigger] self.instantiate_scheme_mapped(scheme)).0.ledger()),
    {
        growth::counts_up(self.counter, scheme.bounds.len());
        reveal(steps);
    }

    pub broadcast proof fn pin_open_grows(self, def: ClassV, inst: InstV, range: Span, at: nat)
        ensures
            steps(self.ledger(), (#[trigger] self.pin_open(def, inst, range, at)).ledger()),
        decreases self.scope.open_projections.len() - at,
    {
        broadcast use {growth::chained, CheckerV::unify_grows};

        if at < self.scope.open_projections.len() {
            let p = self.scope.open_projections[at as int];
            let c = if annotations::decl_from(def.assoc_types, p.name, 0) is Some && self.owner_fits(
                p.owner,
                inst,
            ) && inst.assoc_tys.contains_key(p.name) {
                self.unify(
                    Tree::Var(p.var),
                    self.instantiate_assoc_value(inst.assoc_tys[p.name], p.args),
                    range,
                    "associated type `"@ + p.name + "`"@,
                ).0
            } else {
                self
            };
            c.pin_open_grows(def, inst, range, at + 1);
        }
        growth::starts(self.ledger());
        growth::arrives(self.ledger(), self.pin_open(def, inst, range, at).ledger());
    }

    pub broadcast proof fn pin_assoc_types_for_instance_grows(
        self,
        class: Seq<char>,
        inst: InstV,
        range: Span,
    )
        ensures
            steps(
                self.ledger(),
                (#[trigger] self.pin_assoc_types_for_instance(class, inst, range)).ledger(),
            ),
    {
        broadcast use {growth::chained, CheckerV::pin_open_grows};

        growth::starts(self.ledger());
        growth::arrives(
            self.ledger(),
            self.pin_assoc_types_for_instance(class, inst, range).ledger(),
        );
    }

    pub broadcast proof fn unify_pins_grows(
        self,
        pins: Seq<(Seq<char>, Tree, Tree)>,
        range: Span,
        at: nat,
    )
        ensures
            steps(self.ledger(), (#[trigger] self.unify_pins(pins, range, at)).ledger()),
        decreases pins.len() - at,
    {
        broadcast use {growth::chained, CheckerV::unify_grows};

        if at < pins.len() {
            let (name, fresh, concrete) = pins[at as int];
            self.unify(
                fresh,
                concrete,
                range,
                "associated type `"@ + name + "`"@,
            ).0.unify_pins_grows(pins, range, at + 1);
        }
        growth::starts(self.ledger());
        growth::arrives(self.ledger(), self.unify_pins(pins, range, at).ledger());
    }

    pub broadcast proof fn pin_assoc_vars_from_mapping_grows(
        self,
        class: Seq<char>,
        inst: InstV,
        scheme: SchemeV,
        mapping: Map<TyVarId,
        Tree>,
        range: Span,
    )
        ensures
            steps(
                self.ledger(),
                (
                    #[trigger] self.pin_assoc_vars_from_mapping(class, inst, scheme, mapping, range)
                ).ledger(),
            ),
    {
        broadcast use {growth::chained, CheckerV::unify_pins_grows};

        growth::starts(self.ledger());
        growth::arrives(
            self.ledger(),
            self.pin_assoc_vars_from_mapping(class, inst, scheme, mapping, range).ledger(),
        );
    }

    pub broadcast proof fn discharge_constraint_grows(
        self,
        call: Option<NodeId>,
        c: Tree,
        range: Span,
    )
        ensures
            steps(self.ledger(), (#[trigger] self.discharge_constraint(call, c, range)).ledger()),
    {
        broadcast use {
            growth::chained,
            CheckerV::find_unique_instance_grows,
            CheckerV::pin_assoc_types_for_instance_grows,
            CheckerV::report_grows,
        };

        growth::starts(self.ledger());
        growth::arrives(self.ledger(), self.discharge_constraint(call, c, range).ledger());
    }

    pub broadcast proof fn discharge_constraints_grows(
        self,
        call: Option<NodeId>,
        constraints: Seq<Tree>,
        range: Span,
        at: nat,
    )
        ensures
            steps(
                self.ledger(),
                (#[trigger] self.discharge_constraints(call, constraints, range, at)).ledger(),
            ),
        decreases constraints.len() - at,
    {
        broadcast use {growth::chained, CheckerV::discharge_constraint_grows};

        if at < constraints.len() {
            self.discharge_constraint(call, constraints[at as int], range).discharge_constraints_grows(
                call,
                constraints,
                range,
                at + 1,
            );
        }
        growth::starts(self.ledger());
        growth::arrives(
            self.ledger(),
            self.discharge_constraints(call, constraints, range, at).ledger(),
        );
    }

    pub broadcast proof fn pin_assoc_after_discharge_grows(
        self,
        class: Seq<char>,
        constraints: Seq<Tree>,
        scheme: Option<SchemeV>,
        mapping: Map<TyVarId,
        Tree>,
        range: Span,
        at: nat,
    )
        ensures
            steps(
                self.ledger(),
                (
                    #[trigger] self.pin_assoc_after_discharge(
                        class,
                        constraints,
                        scheme,
                        mapping,
                        range,
                        at,
                    )
                ).ledger(),
            ),
        decreases constraints.len() - at,
    {
        broadcast use {
            growth::chained,
            CheckerV::find_unique_instance_grows,
            CheckerV::pin_assoc_vars_from_mapping_grows,
            CheckerV::pin_assoc_types_for_instance_grows,
        };

        if at < constraints.len() {
            let k = constraints[at as int];
            let own = annotations::class_of(k);
            let args = self.resolve_all(k.kids());
            let c = if (class.len() > 0 && own != class) || instances::any_open(args) {
                self
            } else {
                match self.find_unique_instance(own, args, range) {
                    (c, Ok(Some(inst))) => {
                        let c = match scheme {
                            Some(s) => c.pin_assoc_vars_from_mapping(own, inst, s, mapping, range),
                            None => c,
                        };
                        c.pin_assoc_types_for_instance(own, inst, range)
                    },
                    (c, _) => c,
                }
            };
            c.pin_assoc_after_discharge_grows(class, constraints, scheme, mapping, range, at + 1);
        }
        growth::starts(self.ledger());
        growth::arrives(
            self.ledger(),
            self.pin_assoc_after_discharge(class, constraints, scheme, mapping, range, at).ledger(),
        );
    }
}

} // verus!
