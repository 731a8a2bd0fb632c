//! The steps of [`basics`](crate::infer::basics) only add.
use crate::env::SchemeV;
use crate::infer::CheckerV;
use crate::infer::growth::steps;
use crate::report::{MessageV, Span};
use crate::soundness;
use crate::tree::Tree;
use crate::unify;
use vstd::prelude::*;

verus! {

impl CheckerV {
    pub broadcast proof fn report_grows(self, m: MessageV)
        ensures
            steps(self.ledger(), (#[trigger] self.report(m)).ledger()),
    {
        reveal(steps);
    }

    pub broadcast proof fn fresh_grows(self)
        ensures
            steps(self.ledger(), (#[trigger] self.fresh()).0.ledger()),
    {
        reveal(steps);
    }

    pub broadcast proof fn unify_grows(self, a: Tree, b: Tree, range: Span, what: Seq<char>)
        ensures
            steps(self.ledger(), (#[trigger] self.unify(a, b, range, what)).0.ledger()),
    {
        assert(self.subst.dom().subset_of(self.unify(a, b, range, what).0.subst.dom()));
        if unify::unified(self.subst, a, b) is Ok && soundness::settled(self.subst) {
            soundness::unified_stays_settled(self.subst, a, b);
        }
        reveal(steps);
    }

    pub broadcast proof fn push_scope_opens(self)
        ensures
            (#[trigger] self.push_scope()).ledger().closed() == self.ledger(),
    {
        assert(self.push_scope().ledger().closed().env =~= self.env);
    }

    pub broadcast proof fn bind_grows(self, name: Seq<char>, scheme: SchemeV)
        ensures
            steps(self.ledger(), (#[trigger] self.bind(name, scheme)).ledger()),
    {
        if self.env.len() > 0 {
            assert(self.bind(name, scheme).env.drop_last() =~= self.env.drop_last());
        }
        reveal(steps);
    }

    pub broadcast proof fn next_id_grows(self)
        ensures
            steps(self.ledger(), (#[trigger] self.next_id()).0.ledger()),
    {
        reveal(steps);
    }
}

} // verus!
