//! The steps of [`forin`](crate::infer::forin) only add.
use crate::generics::InstV;
use crate::id::NodeId;
use crate::infer::CheckerV;
use crate::infer::forin;
use crate::infer::growth::{self, steps};
use crate::report::Span;
use crate::soundness;
use crate::tree::Tree;
use crate::ty::TyVarId;
use crate::unify;
use vstd::prelude::*;

verus! {

/// Gathering keeps every solved variable solved, and a settled substitution
/// settled.
proof fn gathering_keeps_solved(s: Map<TyVarId, Tree>, first: Tree, ts: Seq<Tree>, at: nat)
    ensures
        s.dom().subset_of(forin::gathered(s, first, ts, at).dom()),
        soundness::settled(s) ==> soundness::settled(forin::gathered(s, first, ts, at)),
    decreases ts.len() - at,
{
    if at < ts.len() {
        match unify::unified(s, first, ts[at as int]) {
            Ok(u) => {
                assert(s.dom().subset_of(u.dom()));
                if soundness::settled(s) {
                    soundness::unified_stays_settled(s, first, ts[at as int]);
                }
                gathering_keeps_solved(u, first, ts, at + 1);
            },
            Err(_) => gathering_keeps_solved(s, first, ts, at + 1),
        }
    }
}

impl CheckerV {
    pub broadcast proof fn homogeneous_types_grows(
        self,
        ts: Seq<Tree>,
        range: Span,
        kind: Seq<char>,
    )
        ensures
            steps(self.ledger(), (#[trigger] self.homogeneous_types(ts, range, kind)).0.ledger()),
    {
        assert(self.subst.dom().subset_of(self.homogeneous_types(ts, range, kind).0.subst.dom()));
        let first = self.resolve(ts[0]);
        gathering_keeps_solved(self.subst, first, ts, 1);
        if soundness::settled(self.subst) {
            soundness::composed_stays_settled(
                forin::gathered(self.subst, first, ts, 1),
                self.subst,
            );
        }
        reveal(steps);
    }

    pub broadcast proof fn builtin_for_in_kind_grows(self, t: Tree, range: Span)
        ensures
            steps(self.ledger(), (#[trigger] self.builtin_for_in_kind(t, range)).0.ledger()),
    {
        broadcast use {
            growth::chained,
            CheckerV::report_grows,
            CheckerV::fresh_grows,
            CheckerV::homogeneous_types_grows,
        };

        growth::starts(self.ledger());
        growth::arrives(self.ledger(), self.builtin_for_in_kind(t, range).0.ledger());
    }

    pub broadcast proof fn custom_for_in_grows(
        self,
        t: Tree,
        into: InstV,
        id: Option<NodeId>,
        range: Span,
        loop_range: Span,
    )
        ensures
            steps(
                self.ledger(),
                (#[trigger] self.custom_for_in(t, into, id, range, loop_range)).0.ledger(),
            ),
    {
        broadcast use {
            growth::chained,
            CheckerV::fresh_grows,
            CheckerV::find_unique_instance_grows,
            CheckerV::unify_grows,
            CheckerV::report_grows,
        };

        growth::starts(self.ledger());
        growth::arrives(
            self.ledger(),
            self.custom_for_in(t, into, id, range, loop_range).0.ledger(),
        );
    }

    pub broadcast proof fn resolve_for_in_iterable_grows(
        self,
        t: Tree,
        id: Option<NodeId>,
        range: Span,
        loop_range: Span,
    )
        ensures
            steps(
                self.ledger(),
                (#[trigger] self.resolve_for_in_iterable(t, id, range, loop_range)).0.ledger(),
            ),
    {
        broadcast use {
            growth::chained,
            CheckerV::builtin_for_in_kind_grows,
            CheckerV::find_unique_instance_grows,
            CheckerV::custom_for_in_grows,
            CheckerV::report_grows,
            CheckerV::fresh_grows,
        };

        growth::starts(self.ledger());
        growth::arrives(
            self.ledger(),
            self.resolve_for_in_iterable(t, id, range, loop_range).0.ledger(),
        );
    }
}

} // verus!
