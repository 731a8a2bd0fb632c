//! What the checker never takes back.
//!
//! The modules below say of each step of the checker that it only adds to what
//! is there: `f_grows` speaks of the step `f`. A step that opens a frame of names
//! adds to what is there once the frame is closed again (`f_opens`), and one that
//! closes a frame adds to what is outside of it (`f_closes`).
use crate::env::{self, EnvV};
use crate::id::NodeId;
use crate::infer::CheckerV;
use crate::report::MessageV;
use crate::soundness;
use crate::tree::Tree;
use crate::ty::TyVarId;
use vstd::prelude::*;

pub mod annotations;
pub mod basics;
pub mod builtins;
pub mod calls;
pub mod construct;
pub mod decls;
pub mod enums;
pub mod exprs;
pub mod fields;
pub mod forin;
pub mod formats;
pub mod forward;
pub mod instances;
pub mod kinds;
pub mod methods;
pub mod ops;
pub mod stmts;
pub mod traits;

verus! {

/// What is only ever added to while a program is checked.
pub struct Ledger {
    pub env: EnvV,
    pub messages: Seq<MessageV>,
    pub counter: u32,
    pub subst: Map<TyVarId, Tree>,
    pub ids: Seq<NodeId>,
    pub next_id_idx: usize,
}

impl CheckerV {
    /// The part of a checker that is only ever added to.
    pub open spec fn ledger(self) -> Ledger {
        Ledger {
            env: self.env,
            messages: self.messages,
            counter: self.counter,
            subst: self.subst,
            ids: self.out.ids,
            next_id_idx: self.out.next_id_idx,
        }
    }
}

impl Ledger {
    /// The same with the innermost frame of names closed.
    pub open spec fn closed(self) -> Ledger {
        Ledger { env: env::env_pop(self.env), ..self }
    }
}

/// Only the innermost frame of names changes.
pub open spec fn same_outside(a: EnvV, b: EnvV) -> bool {
    a.len() > 0 ==> b.len() == a.len() && b.drop_last() == a.drop_last()
}

/// Names are bound in the innermost frame only, every message is kept, the
/// numbers of fresh variables do not go down, every solved variable stays
/// solved, a settled substitution stays settled, and the node identifiers are
/// taken in order.
pub open spec fn extends(a: Ledger, b: Ledger) -> bool {
    &&& same_outside(a.env, b.env)
    &&& a.messages.is_prefix_of(b.messages)
    &&& a.counter <= b.counter
    &&& a.subst.dom().subset_of(b.subst.dom())
    &&& soundness::settled(a.subst) ==> soundness::settled(b.subst)
    &&& a.ids == b.ids
    &&& a.ids.len() <= usize::MAX ==> a.next_id_idx <= b.next_id_idx
}

/// [`extends`], of one step of the checker.
#[verifier::opaque]
pub open spec fn steps(a: Ledger, b: Ledger) -> bool {
    extends(a, b)
}

/// [`extends`], of all steps since a proof began.
#[verifier::opaque]
pub open spec fn reaches(a: Ledger, b: Ledger) -> bool {
    extends(a, b)
}

/// Later variables have no smaller numbers.
pub proof fn counts_up(n: u32, k: nat)
    ensures
        n <= env::bump_by(n, k),
    decreases k,
{
    if k > 0 {
        counts_up(n, (k - 1) as nat);
    }
}

/// A step leads on.
pub broadcast proof fn chained(o: Ledger, a: Ledger, b: Ledger)
    requires
        #[trigger] reaches(o, a),
        #[trigger] steps(a, b),
    ensures
        reaches(o, b),
{
    reveal(steps);
    reveal(reaches);
}

/// A step inside a frame leaves what the frame closes to.
pub broadcast proof fn within(o: Ledger, a: Ledger, b: Ledger)
    requires
        #[trigger] reaches(o, a.closed()),
        #[trigger] steps(a, b),
    ensures
        reaches(o, b.closed()),
{
    reveal(steps);
    reveal(reaches);
}

/// A proof begins where the checker is.
pub proof fn starts(a: Ledger)
    ensures
        reaches(a, a),
{
    reveal(reaches);
}

/// What several steps reach is one larger step away.
pub proof fn arrives(a: Ledger, b: Ledger)
    requires
        reaches(a, b),
    ensures
        steps(a, b),
{
    reveal(steps);
    reveal(reaches);
}

} // verus!
