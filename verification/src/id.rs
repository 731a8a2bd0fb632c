//! Pre-walk [`NodeId`] minting for span-indexed type lookup.
//!
//! The pre-walk and inference both visit the tree in pre-order, so the n-th
//! inference step consumes the n-th ID.
use crate::ast::{EnumConstructPayload, EnumVariantPayload, Expression, FieldInit, ForeignFn, MatchArm, Output, Pattern, PatternPayload};
use crate::maps::{Dup, MapKey};
use vstd::prelude::*;

verus! {

/// Stable identifier for a tree node (minted in pre-walk visit order).
#[derive(Debug, Clone, Copy, PartialEq, Eq, Structural, Hash, PartialOrd, Ord)]
pub struct NodeId(pub u32);

impl NodeId {
    pub fn raw(self) -> (r: u32)
        ensures
            r == self.0,
    {
        self.0
    }
}

impl DeepView for NodeId {
    type V = NodeId;

    open spec fn deep_view(&self) -> NodeId {
        *self
    }
}

impl MapKey for NodeId {
    type Probe = NodeId;

    open spec fn probe(p: &NodeId) -> NodeId {
        *p
    }

    fn matches(&self, p: &NodeId) -> (r: bool) {
        self.0 == p.0
    }

    fn as_probe(&self) -> (p: &NodeId) {
        self
    }
}

impl Dup for NodeId {
    fn dup(&self) -> (r: Self) {
        *self
    }
}

/// IDs minted in pre-walk order; consumed in lockstep by inference.
#[derive(Debug, Clone)]
pub struct IdTable {
    ids: Vec<NodeId>,
}

impl View for IdTable {
    type V = Seq<NodeId>;

    closed spec fn view(&self) -> Seq<NodeId> {
        self.ids@
    }
}

/// The ID that is minted after `n` others: their number, cut to 32 bits.
pub open spec fn nth_id(n: nat) -> NodeId {
    NodeId(#[verifier::truncate] (n as u32))
}

/// A list of IDs with `n` more minted.
pub open spec fn minted(ids: Seq<NodeId>, n: nat) -> Seq<NodeId> {
    ids + Seq::new(n, |i: int| nth_id((ids.len() + i) as nat))
}

proof fn minted_one(ids: Seq<NodeId>)
    ensures
        minted(ids, 1) == ids.push(nth_id(ids.len())),
{
    assert(minted(ids, 1) =~= ids.push(nth_id(ids.len())));
}

/// Minting `a` and then `b` IDs is minting `a + b` of them.
pub proof fn minted_more(ids: Seq<NodeId>, a: nat, b: nat)
    ensures
        minted(minted(ids, a), b) == minted(ids, a + b),
{
    assert(minted(minted(ids, a), b) =~= minted(ids, a + b));
}

/// On a fresh table the walk mints pairwise different IDs, in order from 0, as
/// long as they fit in 32 bits.
pub proof fn fresh_ids_count_up(n: nat, i: int, j: int)
    requires
        n <= 0x1_0000_0000,
        0 <= i < n,
        0 <= j < n,
    ensures
        minted(Seq::empty(), n)[i] == NodeId(i as u32),
        i != j ==> minted(Seq::empty(), n)[i] != minted(Seq::empty(), n)[j],
{
}

impl Default for IdTable {
    fn default() -> (r: Self)
        ensures
            r@ == Seq::<NodeId>::empty(),
    {
        IdTable::new()
    }
}

impl IdTable {
    pub fn new() -> (r: Self)
        ensures
            r@ == Seq::<NodeId>::empty(),
    {
        IdTable { ids: Vec::new() }
    }

    pub fn push(&mut self) -> (r: NodeId)
        ensures
            r == nth_id(old(self)@.len()),
            final(self)@ == old(self)@.push(r),
    {
        let id = NodeId(#[verifier::truncate] (self.ids.len() as u32));
        self.ids.push(id);
        id
    }

    pub fn len(&self) -> (r: usize)
        ensures
            r == self@.len(),
    {
        self.ids.len()
    }

    pub fn is_empty(&self) -> (r: bool)
        ensures
            r == (self@.len() == 0),
    {
        self.ids.len() == 0
    }

    pub fn ids(&self) -> (r: &[NodeId])
        ensures
            r@ == self@,
    {
        self.ids.as_slice()
    }
}

/// How many nodes the walk visits in a subtree, the node itself included.
pub open spec fn visits(node: Output) -> nat
    decreases node, 1nat,
{
    1 + visits_below(node)
}

/// How many nodes the walk visits below a node.
pub open spec fn visits_below(node: Output) -> nat
    decreases node, 0nat,
{
    match *node.expr {
        Expression::Noop(_) => 0,
        Expression::Comment(_) => 0,
        Expression::Integer(_) => 0,
        Expression::Float(_) => 0,
        Expression::String(_) => 0,
        Expression::Bool(_) => 0,
        Expression::Identifier(_) => 0,
        Expression::Type(_) => 0,
        Expression::Default(_) => 0,
        Expression::Break => 0,
        Expression::Continue => 0,
        Expression::Use { .. } => 0,
        Expression::Module(_, _) => 0,
        Expression::Variable(_, _) => 0,
        Expression::Constant(_, _) => 0,
        Expression::Argument(_, _) => 0,
        Expression::Field(_, _, _) => 0,
        Expression::AssocTypeDecl { .. } => 0,
        Expression::Expr(e) => visits(e),
        Expression::Group(e) => visits(e),
        Expression::Statement(e) => visits(e),
        Expression::ExprStatement(e) => visits(e),
        Expression::Return(e) => visits(e),
        Expression::ImplicitReturn(e) => visits(e),
        Expression::Raise(e) => visits(e),
        Expression::Panic(e) => visits(e),
        Expression::Try(e) => visits(e),
        Expression::Yield(e) => visits(e),
        Expression::YieldFrom(e) => visits(e),
        Expression::Negate(e) => visits(e),
        Expression::Not(e) => visits(e),
        Expression::LogicalNot(e) => visits(e),
        Expression::Positive(e) => visits(e),
        Expression::Adjust { target: e, .. } => visits(e),
        Expression::Defer(e) => visits(e),
        Expression::Member(e) => visits(e),
        Expression::Dload(e) => visits(e),
        Expression::Done(e) => visits(e),
        Expression::TypeAlias { ty: e, .. } => visits(e),
        Expression::AssocTypeDef { ty: e, .. } => visits(e),
        Expression::Forall { ty: e, .. } => visits(e),
        Expression::Method(_, e) => visits(e),
        Expression::Access(e, _) => visits(e),
        Expression::OptionalAccess(e, _) => visits(e),
        Expression::Assignment(l, r) => visits(l) + visits(r),
        Expression::CompoundAssign(l, _, r) => visits(l) + visits(r),
        Expression::TypeFun(l, r) => visits(l) + visits(r),
        Expression::Add(l, r) => visits(l) + visits(r),
        Expression::Sub(l, r) => visits(l) + visits(r),
        Expression::Mul(l, r) => visits(l) + visits(r),
        Expression::Div(l, r) => visits(l) + visits(r),
        Expression::Mod(l, r) => visits(l) + visits(r),
        Expression::Pow(l, r) => visits(l) + visits(r),
        Expression::Shl(l, r) => visits(l) + visits(r),
        Expression::Shr(l, r) => visits(l) + visits(r),
        Expression::Xor(l, r) => visits(l) + visits(r),
        Expression::And(l, r) => visits(l) + visits(r),
        Expression::Or(l, r) => visits(l) + visits(r),
        Expression::BitAnd(l, r) => visits(l) + visits(r),
        Expression::BitOr(l, r) => visits(l) + visits(r),
        Expression::Eq(l, r) => visits(l) + visits(r),
        Expression::Neq(l, r) => visits(l) + visits(r),
        Expression::Le(l, r) => visits(l) + visits(r),
        Expression::Gt(l, r) => visits(l) + visits(r),
        Expression::Leq(l, r) => visits(l) + visits(r),
        Expression::Geq(l, r) => visits(l) + visits(r),
        Expression::Coalesce(l, r) => visits(l) + visits(r),
        Expression::Index(l, r) => visits(l) + visits(r),
        Expression::Function { args: l, body: r, .. } => visits(l) + visits(r),
        Expression::Block(cs) => visits_all(cs@),
        Expression::Program(cs) => visits_all(cs@),
        Expression::Fragment(cs) => visits_all(cs@),
        Expression::List(cs) => visits_all(cs@),
        Expression::Declare(cs) => visits_all(cs@),
        Expression::Invoke(cs) => visits_all(cs@),
        Expression::Tuple(cs) => visits_all(cs@),
        Expression::Array(cs) => visits_all(cs@),
        Expression::If(cs) => visits_all(cs@),
        Expression::Implementation { methods: cs, .. } => visits_all(cs@),
        Expression::Class { fields: cs, .. } => visits_all(cs@),
        Expression::EnumDecl { variants: cs, .. } => visits_all(cs@),
        Expression::TypeApp { args: cs, .. } => visits_all(cs@),
        Expression::TypeProjection { args: cs, .. } => visits_all(cs@),
        Expression::TypeClass { methods: cs, .. } => visits_all(cs@),
        Expression::Print(e, a) => visits(e) + visits_args(a),
        Expression::Format(e, a) => visits(e) + visits_args(a),
        Expression::Call { name: e, args: a } => visits(e) + visits_args(a),
        Expression::Instantiate(e, a) => visits(e) + visits_args(a),
        Expression::Resume(target, arg) => visits(target) + visits_opt(arg),
        Expression::Dict(fields) => visits_fields(fields@),
        Expression::Branch(cond, body) => visits_opt(cond) + visits(body),
        Expression::Loop { iterable, body, identifier } => visits(iterable) + visits(body)
            + visits_opt(identifier),
        Expression::For { init, cond, step, body } => visits_opt(init) + visits(cond) + visits(body)
            + visits_opt(step),
        Expression::Match { scrutinee, arms } => visits(scrutinee) + visits_arms(arms@),
        Expression::ForeignBlock { declarations, .. } => visits_fns(declarations@),
        Expression::ForeignStruct(decl) => visits_fields(decl.fields@),
        Expression::EnumVariant { payload, .. } => match payload {
            EnumVariantPayload::Unit => 0,
            EnumVariantPayload::Tuple(parts) => visits_all(parts@),
            EnumVariantPayload::Record(fields) => visits_fields(fields@),
        },
        Expression::Construct { fields, .. } => match fields {
            EnumConstructPayload::Unit => 0,
            EnumConstructPayload::Tuple(args) => visits_all(args@),
            EnumConstructPayload::Record(parts) => visits_fields(parts@),
        },
        Expression::TypeClassImpl { args, methods, .. } => visits_all(args@) + visits_all(
            methods@,
        ),
    }
}

/// Nodes visited in a list of subtrees.
pub open spec fn visits_all(items: Seq<Output>) -> nat
    decreases items, 0nat,
{
    if items.len() == 0 {
        0
    } else {
        visits_all(items.drop_last()) + visits(items.last())
    }
}

/// Nodes visited in a list of named values.
pub open spec fn visits_fields(items: Seq<FieldInit>) -> nat
    decreases items, 0nat,
{
    if items.len() == 0 {
        0
    } else {
        visits_fields(items.drop_last()) + visits(items.last().value)
    }
}

/// Nodes visited in a list of match arms: patterns have none.
pub open spec fn visits_arms(items: Seq<MatchArm>) -> nat
    decreases items, 0nat,
{
    if items.len() == 0 {
        0
    } else {
        visits_arms(items.drop_last()) + visits(items.last().body)
    }
}

/// Nodes visited in a list of foreign functions.
pub open spec fn visits_fns(items: Seq<ForeignFn>) -> nat
    decreases items, 0nat,
{
    if items.len() == 0 {
        0
    } else {
        visits_fns(items.drop_last()) + visits(items.last().args)
    }
}

/// Nodes visited in an optional subtree.
pub open spec fn visits_opt(item: Option<Output>) -> nat
    decreases item, 0nat,
{
    match item {
        Some(e) => visits(e),
        None => 0,
    }
}

/// Nodes visited in an optional list of arguments.
pub open spec fn visits_args(args: Option<Vec<Output>>) -> nat
    decreases args, 0nat,
{
    match args {
        Some(a) => visits_all(a@),
        None => 0,
    }
}

/// Pre-order walk: mint one ID per node, then recurse into children.
pub fn pre_walk(node: &Output, table: &mut IdTable)
    ensures
        final(table)@ == minted(old(table)@, visits(*node)),
    decreases node, 1nat,
{
    let ghost start = table@;
    let _ = table.push();
    pre_walk_children(node, table);
    proof {
        minted_one(start);
        minted_more(start, 1, visits_below(*node));
    }
}

fn pre_walk_children(node: &Output, table: &mut IdTable)
    ensures
        final(table)@ == minted(old(table)@, visits_below(*node)),
    decreases node, 0nat,
{
    let ghost start = table@;
    match &*node.expr {
        Expression::Noop(_) => {},
        Expression::Comment(_) => {},
        Expression::Integer(_) => {},
        Expression::Float(_) => {},
        Expression::String(_) => {},
        Expression::Bool(_) => {},
        Expression::Identifier(_) => {},
        Expression::Type(_) => {},
        Expression::Default(_) => {},
        Expression::Break => {},
        Expression::Continue => {},
        Expression::Use { .. } => {},
        Expression::Module(_, _) => {},
        Expression::Variable(_, _) => {},
        Expression::Constant(_, _) => {},
        Expression::Argument(_, _) => {},
        Expression::Field(_, _, _) => {},
        Expression::AssocTypeDecl { .. } => {},
        Expression::Expr(e) => pre_walk(e, table),
        Expression::Group(e) => pre_walk(e, table),
        Expression::Statement(e) => pre_walk(e, table),
        Expression::ExprStatement(e) => pre_walk(e, table),
        Expression::Return(e) => pre_walk(e, table),
        Expression::ImplicitReturn(e) => pre_walk(e, table),
        Expression::Raise(e) => pre_walk(e, table),
        Expression::Panic(e) => pre_walk(e, table),
        Expression::Try(e) => pre_walk(e, table),
        Expression::Yield(e) => pre_walk(e, table),
        Expression::YieldFrom(e) => pre_walk(e, table),
        Expression::Negate(e) => pre_walk(e, table),
        Expression::Not(e) => pre_walk(e, table),
        Expression::LogicalNot(e) => pre_walk(e, table),
        Expression::Positive(e) => pre_walk(e, table),
        Expression::Adjust { target: e, .. } => pre_walk(e, table),
        Expression::Defer(e) => pre_walk(e, table),
        Expression::Member(e) => pre_walk(e, table),
        Expression::Dload(e) => pre_walk(e, table),
        Expression::Done(e) => pre_walk(e, table),
        Expression::TypeAlias { ty: e, .. } => pre_walk(e, table),
        Expression::AssocTypeDef { ty: e, .. } => pre_walk(e, table),
        Expression::Forall { ty: e, .. } => pre_walk(e, table),
        Expression::Method(_, e) => pre_walk(e, table),
        Expression::Access(e, _) => pre_walk(e, table),
        Expression::OptionalAccess(e, _) => pre_walk(e, table),
        Expression::Assignment(l, r) => {
            pre_walk(l, table);
            pre_walk(r, table);
            proof {
                minted_more(start, visits(*l), visits(*r));
            }
        },
        Expression::CompoundAssign(l, _, r) => {
            pre_walk(l, table);
            pre_walk(r, table);
            proof {
                minted_more(start, visits(*l), visits(*r));
            }
        },
        Expression::TypeFun(l, r) => {
            pre_walk(l, table);
            pre_walk(r, table);
            proof {
                minted_more(start, visits(*l), visits(*r));
            }
        },
        Expression::Add(l, r) => {
            pre_walk(l, table);
            pre_walk(r, table);
            proof {
                minted_more(start, visits(*l), visits(*r));
            }
        },
        Expression::Sub(l, r) => {
            pre_walk(l, table);
            pre_walk(r, table);
            proof {
                minted_more(start, visits(*l), visits(*r));
            }
        },
        Expression::Mul(l, r) => {
            pre_walk(l, table);
            pre_walk(r, table);
            proof {
                minted_more(start, visits(*l), visits(*r));
            }
        },
        Expression::Div(l, r) => {
            pre_walk(l, table);
            pre_walk(r, table);
            proof {
                minted_more(start, visits(*l), visits(*r));
            }
        },
        Expression::Mod(l, r) => {
            pre_walk(l, table);
            pre_walk(r, table);
            proof {
                minted_more(start, visits(*l), visits(*r));
            }
        },
        Expression::Pow(l, r) => {
            pre_walk(l, table);
            pre_walk(r, table);
            proof {
                minted_more(start, visits(*l), visits(*r));
            }
        },
        Expression::Shl(l, r) => {
            pre_walk(l, table);
            pre_walk(r, table);
            proof {
                minted_more(start, visits(*l), visits(*r));
            }
        },
        Expression::Shr(l, r) => {
            pre_walk(l, table);
            pre_walk(r, table);
            proof {
                minted_more(start, visits(*l), visits(*r));
            }
        },
        Expression::Xor(l, r) => {
            pre_walk(l, table);
            pre_walk(r, table);
            proof {
                minted_more(start, visits(*l), visits(*r));
            }
        },
        Expression::And(l, r) => {
            pre_walk(l, table);
            pre_walk(r, table);
            proof {
                minted_more(start, visits(*l), visits(*r));
            }
        },
        Expression::Or(l, r) => {
            pre_walk(l, table);
            pre_walk(r, table);
            proof {
                minted_more(start, visits(*l), visits(*r));
            }
        },
        Expression::BitAnd(l, r) => {
            pre_walk(l, table);
            pre_walk(r, table);
            proof {
                minted_more(start, visits(*l), visits(*r));
            }
        },
        Expression::BitOr(l, r) => {
            pre_walk(l, table);
            pre_walk(r, table);
            proof {
                minted_more(start, visits(*l), visits(*r));
            }
        },
        Expression::Eq(l, r) => {
            pre_walk(l, table);
            pre_walk(r, table);
            proof {
                minted_more(start, visits(*l), visits(*r));
            }
        },
        Expression::Neq(l, r) => {
            pre_walk(l, table);
            pre_walk(r, table);
            proof {
                minted_more(start, visits(*l), visits(*r));
            }
        },
        Expression::Le(l, r) => {
            pre_walk(l, table);
            pre_walk(r, table);
            proof {
                minted_more(start, visits(*l), visits(*r));
            }
        },
        Expression::Gt(l, r) => {
            pre_walk(l, table);
            pre_walk(r, table);
            proof {
                minted_more(start, visits(*l), visits(*r));
            }
        },
        Expression::Leq(l, r) => {
            pre_walk(l, table);
            pre_walk(r, table);
            proof {
                minted_more(start, visits(*l), visits(*r));
            }
        },
        Expression::Geq(l, r) => {
            pre_walk(l, table);
            pre_walk(r, table);
            proof {
                minted_more(start, visits(*l), visits(*r));
            }
        },
        Expression::Coalesce(l, r) => {
            pre_walk(l, table);
            pre_walk(r, table);
            proof {
                minted_more(start, visits(*l), visits(*r));
            }
        },
        Expression::Index(l, r) => {
            pre_walk(l, table);
            pre_walk(r, table);
            proof {
                minted_more(start, visits(*l), visits(*r));
            }
        },
        Expression::Function { args: l, body: r, .. } => {
            pre_walk(l, table);
            pre_walk(r, table);
            proof {
                minted_more(start, visits(*l), visits(*r));
            }
        },
        Expression::Block(cs) => walk_all(cs, table),
        Expression::Program(cs) => walk_all(cs, table),
        Expression::Fragment(cs) => walk_all(cs, table),
        Expression::List(cs) => walk_all(cs, table),
        Expression::Declare(cs) => walk_all(cs, table),
        Expression::Invoke(cs) => walk_all(cs, table),
        Expression::Tuple(cs) => walk_all(cs, table),
        Expression::Array(cs) => walk_all(cs, table),
        Expression::If(cs) => walk_all(cs, table),
        Expression::Implementation { methods: cs, .. } => walk_all(cs, table),
        Expression::Class { fields: cs, .. } => walk_all(cs, table),
        Expression::EnumDecl { variants: cs, .. } => walk_all(cs, table),
        Expression::TypeApp { args: cs, .. } => walk_all(cs, table),
        Expression::TypeProjection { args: cs, .. } => walk_all(cs, table),
        Expression::TypeClass { methods: cs, .. } => walk_all(cs, table),
        Expression::Print(e, a) => {
            pre_walk(e, table);
            walk_args(a, table);
            proof {
                minted_more(start, visits(*e), visits_args(*a));
            }
        },
        Expression::Format(e, a) => {
            pre_walk(e, table);
            walk_args(a, table);
            proof {
                minted_more(start, visits(*e), visits_args(*a));
            }
        },
        Expression::Call { name: e, args: a } => {
            pre_walk(e, table);
            walk_args(a, table);
            proof {
                minted_more(start, visits(*e), visits_args(*a));
            }
        },
        Expression::Instantiate(e, a) => {
            pre_walk(e, table);
            walk_args(a, table);
            proof {
                minted_more(start, visits(*e), visits_args(*a));
            }
        },
        Expression::Resume(target, arg) => {
            pre_walk(target, table);
            walk_opt(arg, table);
            proof {
                minted_more(start, visits(*target), visits_opt(*arg));
            }
        },
        Expression::Dict(fields) => walk_fields(fields, table),
        Expression::Branch(cond, body) => {
            walk_opt(cond, table);
            pre_walk(body, table);
            proof {
                minted_more(start, visits_opt(*cond), visits(*body));
            }
        },
        Expression::Loop { iterable, body, identifier } => {
            pre_walk(iterable, table);
            pre_walk(body, table);
            walk_opt(identifier, table);
            proof {
                minted_more(start, visits(*iterable), visits(*body));
                minted_more(start, visits(*iterable) + visits(*body), visits_opt(*identifier));
            }
        },
        Expression::For { init, cond, step, body } => {
            walk_opt(init, table);
            pre_walk(cond, table);
            pre_walk(body, table);
            walk_opt(step, table);
            proof {
                let a = visits_opt(*init);
                let b = visits(*cond);
                let c = visits(*body);
                minted_more(start, a, b);
                minted_more(start, a + b, c);
                minted_more(start, a + b + c, visits_opt(*step));
            }
        },
        // Patterns have no NodeId; walk bodies only (lockstep with infer).
        Expression::Match { scrutinee, arms } => {
            pre_walk(scrutinee, table);
            walk_arms(arms, table);
            proof {
                minted_more(start, visits(*scrutinee), visits_arms(arms@));
            }
        },
        Expression::ForeignBlock { declarations, .. } => walk_fns(declarations, table),
        Expression::ForeignStruct(decl) => walk_fields(&decl.fields, table),
        Expression::EnumVariant { payload, .. } => match payload {
            EnumVariantPayload::Unit => {},
            EnumVariantPayload::Tuple(parts) => walk_all(parts, table),
            EnumVariantPayload::Record(fields) => walk_fields(fields, table),
        },
        Expression::Construct { fields, .. } => match fields {
            EnumConstructPayload::Unit => {},
            EnumConstructPayload::Tuple(args) => walk_all(args, table),
            EnumConstructPayload::Record(parts) => walk_fields(parts, table),
        },
        Expression::TypeClassImpl { args, methods, .. } => {
            walk_all(args, table);
            walk_all(methods, table);
            proof {
                minted_more(start, visits_all(args@), visits_all(methods@));
            }
        },
    }
}

fn walk_all(items: &Vec<Output>, table: &mut IdTable)
    ensures
        final(table)@ == minted(old(table)@, visits_all(items@)),
    decreases items, 0nat,
{
    let ghost start = table@;
    let mut i: usize = 0;
    while i < items.len()
        invariant
            i <= items.len(),
            table@ == minted(start, visits_all(items@.take(i as int))),
        decreases items.len() - i,
    {
        pre_walk(&items[i], table);
        proof {
            let next = items@.take(i + 1);
            assert(next.drop_last() =~= items@.take(i as int));
            assert(next.last() == items@[i as int]);
            minted_more(start, visits_all(items@.take(i as int)), visits(items@[i as int]));
        }
        i += 1;
    }
    assert(items@.take(items.len() as int) =~= items@);
}

fn walk_fields(items: &Vec<FieldInit>, table: &mut IdTable)
    ensures
        final(table)@ == minted(old(table)@, visits_fields(items@)),
    decreases items, 0nat,
{
    let ghost start = table@;
    let mut i: usize = 0;
    while i < items.len()
        invariant
            i <= items.len(),
            table@ == minted(start, visits_fields(items@.take(i as int))),
        decreases items.len() - i,
    {
        pre_walk(&items[i].value, table);
        proof {
            let next = items@.take(i + 1);
            assert(next.drop_last() =~= items@.take(i as int));
            assert(next.last() == items@[i as int]);
            minted_more(start, visits_fields(items@.take(i as int)), visits(items@[i as int].value));
        }
        i += 1;
    }
    assert(items@.take(items.len() as int) =~= items@);
}

fn walk_arms(items: &Vec<MatchArm>, table: &mut IdTable)
    ensures
        final(table)@ == minted(old(table)@, visits_arms(items@)),
    decreases items, 0nat,
{
    let ghost start = table@;
    let mut i: usize = 0;
    while i < items.len()
        invariant
            i <= items.len(),
            table@ == minted(start, visits_arms(items@.take(i as int))),
        decreases items.len() - i,
    {
        pre_walk_pattern(&items[i].pattern, table);
        pre_walk(&items[i].body, table);
        proof {
            let next = items@.take(i + 1);
            assert(next.drop_last() =~= items@.take(i as int));
            assert(next.last() == items@[i as int]);
            minted_more(start, visits_arms(items@.take(i as int)), visits(items@[i as int].body));
        }
        i += 1;
    }
    assert(items@.take(items.len() as int) =~= items@);
}

fn walk_fns(items: &Vec<ForeignFn>, table: &mut IdTable)
    ensures
        final(table)@ == minted(old(table)@, visits_fns(items@)),
    decreases items, 0nat,
{
    let ghost start = table@;
    let mut i: usize = 0;
    while i < items.len()
        invariant
            i <= items.len(),
            table@ == minted(start, visits_fns(items@.take(i as int))),
        decreases items.len() - i,
    {
        pre_walk(&items[i].args, table);
        proof {
            let next = items@.take(i + 1);
            assert(next.drop_last() =~= items@.take(i as int));
            assert(next.last() == items@[i as int]);
            minted_more(start, visits_fns(items@.take(i as int)), visits(items@[i as int].args));
        }
        i += 1;
    }
    assert(items@.take(items.len() as int) =~= items@);
}

fn walk_opt(item: &Option<Output>, table: &mut IdTable)
    ensures
        final(table)@ == minted(old(table)@, visits_opt(*item)),
    decreases item, 0nat,
{
    match item {
        Some(e) => pre_walk(e, table),
        None => {},
    }
}

fn walk_args(args: &Option<Vec<Output>>, table: &mut IdTable)
    ensures
        final(table)@ == minted(old(table)@, visits_args(*args)),
    decreases args, 0nat,
{
    match args {
        Some(a) => walk_all(a, table),
        None => {},
    }
}

/// Structural walk over patterns (no NodeIds).
pub fn pre_walk_pattern(pattern: &Pattern, table: &mut IdTable)
    ensures
        final(table)@ == old(table)@,
    decreases pattern,
{
    match pattern {
        Pattern::Wildcard => {},
        Pattern::Binding { .. } => {},
        Pattern::Constructor { payload, .. } => match payload {
            PatternPayload::Unit => {},
            PatternPayload::Tuple(parts) => {
                let ghost start = table@;
                let mut i: usize = 0;
                while i < parts.len()
                    invariant
                        i <= parts.len(),
                        table@ == start,
                        decreases_to!(*pattern => parts@),
                    decreases parts.len() - i,
                {
                    pre_walk_pattern(&parts[i], table);
                    i += 1;
                }
            },
            PatternPayload::Record(fields) => {
                let ghost start = table@;
                let mut i: usize = 0;
                while i < fields.len()
                    invariant
                        i <= fields.len(),
                        table@ == start,
                        decreases_to!(*pattern => fields@),
                    decreases fields.len() - i,
                {
                    pre_walk_pattern(&fields[i].pattern, table);
                    i += 1;
                }
            },
        },
    }
}

} // verus!
