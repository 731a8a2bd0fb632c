//! The representation of types and their model.
//!
//! The model of a type is a labelled tree ([`Tree`]): a variable, or a head
//! with the trees of its parts. Payloads and constraints are trees too, so one
//! definition of substitution, of occurrence and of size covers them all.
use crate::maps::MapKey;
use crate::text;
use vstd::prelude::*;

verus! {

/// A type variable.
#[derive(Debug, Clone, Copy, PartialEq, Eq, Structural, Hash)]
pub struct TyVarId(pub u32);

impl TyVarId {
    pub fn raw(self) -> (r: u32)
        ensures
            r == self.0,
    {
        self.0
    }
}

impl DeepView for TyVarId {
    type V = TyVarId;

    open spec fn deep_view(&self) -> TyVarId {
        *self
    }
}

impl MapKey for TyVarId {
    type Probe = TyVarId;

    open spec fn probe(p: &TyVarId) -> TyVarId {
        *p
    }

    fn matches(&self, p: &TyVarId) -> (r: bool) {
        self.0 == p.0
    }

    fn as_probe(&self) -> (p: &TyVarId) {
        self
    }
}

/// Length of an array type.
#[derive(Debug, Clone, Copy, PartialEq, Eq, Structural)]
pub enum ArrayLength {
    Static(usize),
    Dynamic,
}

/// A monomorphic type, or a rank-n quantified one ([`Ty::Forall`]).
#[derive(Debug)]
pub enum Ty {
    Var(TyVarId),
    Con(String),
    App(Box<Ty>, Vec<Ty>),
    Fun(Box<Ty>, Box<Ty>),
    List(Box<Ty>),
    Sum { name: String, variants: Vec<(String, EnumVariantPayloadTy)> },
    Constructor { owner: Box<Ty>, tag: u32, arity: usize },
    Tuple(Vec<Ty>),
    Array { element: Box<Ty>, length: ArrayLength },
    Record { fields: Vec<(String, Ty)> },
    Existential { class: String },
    Forall { bounds: Vec<TyVarId>, constraints: Vec<Constraint>, body: Box<Ty> },
}

/// What a variant of an enum carries.
#[derive(Debug)]
pub enum EnumVariantPayloadTy {
    Unit,
    Tuple(Vec<Ty>),
    Record(Vec<(String, Ty)>),
}

/// A typeclass predicate on types.
#[derive(Debug)]
pub struct Constraint {
    pub class: String,
    pub args: Vec<Ty>,
}

/// The label of a node in the model of a type.
#[verifier::ext_equal]
pub enum Head {
    Con(Seq<char>),
    App,
    Fun,
    List,
    Sum(Seq<char>, Seq<Seq<char>>),
    Constructor(u32, usize),
    Tuple,
    Array(ArrayLength),
    Record(Seq<Seq<char>>),
    Existential(Seq<char>),
    Forall(Seq<TyVarId>),
    UnitPayload,
    TuplePayload,
    RecordPayload(Seq<Seq<char>>),
    Pred(Seq<char>),
}

/// The model of a type, of a payload or of a constraint.
#[verifier::ext_equal]
pub enum Tree {
    Var(TyVarId),
    Node(Head, Seq<Tree>),
}

impl Tree {
    pub open spec fn head(self) -> Head {
        self->Node_0
    }

    pub open spec fn kids(self) -> Seq<Tree> {
        match self {
            Tree::Var(_) => Seq::empty(),
            Tree::Node(_, kids) => kids,
        }
    }

    pub open spec fn con(name: Seq<char>) -> Tree {
        Tree::Node(Head::Con(name), Seq::empty())
    }

    pub open spec fn app(head: Tree, args: Seq<Tree>) -> Tree {
        Tree::Node(Head::App, seq![head] + args)
    }

    pub open spec fn fun(param: Tree, result: Tree) -> Tree {
        Tree::Node(Head::Fun, seq![param, result])
    }

    pub open spec fn list(element: Tree) -> Tree {
        Tree::Node(Head::List, seq![element])
    }

    pub open spec fn tuple(items: Seq<Tree>) -> Tree {
        Tree::Node(Head::Tuple, items)
    }

    pub open spec fn array(element: Tree, length: ArrayLength) -> Tree {
        Tree::Node(Head::Array(length), seq![element])
    }

    pub open spec fn is_con(self, name: Seq<char>) -> bool {
        self == Tree::con(name)
    }

    pub open spec fn pred(class: Seq<char>, args: Seq<Tree>) -> Tree {
        Tree::Node(Head::Pred(class), args)
    }

    pub open spec fn unit_payload() -> Tree {
        Tree::Node(Head::UnitPayload, Seq::empty())
    }

    pub open spec fn payload(items: Seq<Tree>) -> Tree {
        Tree::Node(Head::TuplePayload, items)
    }

    pub open spec fn option_app(t: Tree) -> Tree {
        Tree::app(Tree::con("Option"@), seq![t])
    }

    pub open spec fn result_app(ok: Tree, err: Tree) -> Tree {
        Tree::app(Tree::con("Result"@), seq![ok, err])
    }

    pub open spec fn option_sum(t: Tree) -> Tree {
        Tree::Node(
            Head::Sum("Option"@, seq!["None"@, "Some"@]),
            seq![Tree::unit_payload(), Tree::payload(seq![t])],
        )
    }

    pub open spec fn result_sum(ok: Tree, err: Tree) -> Tree {
        Tree::Node(
            Head::Sum("Result"@, seq!["Ok"@, "Err"@]),
            seq![Tree::payload(seq![ok]), Tree::payload(seq![err])],
        )
    }

    /// The variable at the front of a list of trees, if there is one.
    pub open spec fn first_var(trees: Seq<Tree>) -> Option<TyVarId> {
        if trees.len() > 0 && trees[0] is Var {
            Some(trees[0]->Var_0)
        } else {
            None
        }
    }

    /// The tree with each variable of `vars` and each named leaf of `cons`
    /// replaced by what it is mapped to.
    pub open spec fn rewrite(self, vars: Map<TyVarId, Tree>, cons: Map<Seq<char>, Tree>) -> Tree
        decreases self,
    {
        match self {
            Tree::Var(v) => if vars.contains_key(v) {
                vars[v]
            } else {
                self
            },
            Tree::Node(head, kids) => if head is Con && cons.contains_key(head->Con_0) {
                cons[head->Con_0]
            } else {
                Tree::Node(
                    head,
                    Seq::new(
                        kids.len(),
                        |i: int|
                            if 0 <= i < kids.len() {
                                kids[i].rewrite(vars, cons)
                            } else {
                                arbitrary()
                            },
                    ),
                )
            },
        }
    }

    /// The tree with each variable of `s` replaced by what it is mapped to.
    pub open spec fn subst(self, s: Map<TyVarId, Tree>) -> Tree {
        self.rewrite(s, Map::empty())
    }

    /// The variables of the tree, from left to right.
    pub open spec fn vars(self) -> Seq<TyVarId>
        decreases self,
    {
        match self {
            Tree::Var(v) => seq![v],
            Tree::Node(_, kids) => Tree::vars_of(kids),
        }
    }

    /// The variables of a list of trees, from left to right.
    pub open spec fn vars_of(trees: Seq<Tree>) -> Seq<TyVarId>
        decreases trees,
    {
        if trees.len() == 0 {
            Seq::empty()
        } else {
            Tree::vars_of(trees.drop_last()) + trees.last().vars()
        }
    }

    /// Number of nodes.
    pub open spec fn size(self) -> nat
        decreases self,
    {
        match self {
            Tree::Var(_) => 1,
            Tree::Node(_, kids) => 1 + Tree::size_of(kids),
        }
    }

    /// Number of nodes in a list of trees.
    pub open spec fn size_of(trees: Seq<Tree>) -> nat
        decreases trees,
    {
        if trees.len() == 0 {
            0
        } else {
            Tree::size_of(trees.drop_last()) + trees.last().size()
        }
    }
}

impl Tree {
    /// The notation of a variable in diagnostics.
    pub open spec fn var_text(v: TyVarId) -> Seq<char> {
        "t"@ + text::decimal(v.0 as nat)
    }

    /// The notation of a type in diagnostics.
    pub open spec fn text(self) -> Seq<char>
        decreases self,
    {
        match self {
            Tree::Var(v) => Tree::var_text(v),
            Tree::Node(head, kids) => match head {
                Head::Con(name) => name,
                Head::App => if kids.len() > 0 {
                    kids[0].text() + "<"@ + Tree::join_text(kids.drop_first()) + ">"@
                } else {
                    Seq::empty()
                },
                Head::Fun => if kids.len() == 2 {
                    (if kids[0] is Node && kids[0].head() is Fun {
                        "("@ + kids[0].text() + ")"@
                    } else {
                        kids[0].text()
                    }) + " -> "@ + kids[1].text()
                } else {
                    Seq::empty()
                },
                Head::List => if kids.len() == 1 {
                    "List<"@ + kids[0].text() + ">"@
                } else {
                    Seq::empty()
                },
                Head::Sum(name, _) => name,
                Head::Constructor(_, _) => if kids.len() == 1 {
                    kids[0].text()
                } else {
                    Seq::empty()
                },
                Head::Tuple => "("@ + Tree::join_text(kids) + ")"@,
                Head::Array(length) => if kids.len() == 1 {
                    match length {
                        ArrayLength::Static(n) => "["@ + kids[0].text() + "; "@ + text::decimal(
                            n as nat,
                        ) + "]"@,
                        ArrayLength::Dynamic => "["@ + kids[0].text() + "]"@,
                    }
                } else {
                    Seq::empty()
                },
                Head::Record(names) => "{ "@ + Tree::join_named(names, kids) + " }"@,
                Head::Existential(class) => class,
                Head::Forall(bounds) => if kids.len() > 0 {
                    "forall "@ + Tree::join_vars(bounds) + ". "@ + kids.last().text()
                } else {
                    Seq::empty()
                },
                _ => Seq::empty(),
            },
        }
    }

    /// The notations of a list of types, separated by commas.
    pub open spec fn join_text(trees: Seq<Tree>) -> Seq<char>
        decreases trees,
    {
        if trees.len() == 0 {
            Seq::empty()
        } else if trees.len() == 1 {
            trees[0].text()
        } else {
            Tree::join_text(trees.drop_last()) + ", "@ + trees.last().text()
        }
    }

    /// The notations of a list of named types, separated by commas.
    pub open spec fn join_named(names: Seq<Seq<char>>, trees: Seq<Tree>) -> Seq<char>
        decreases trees,
    {
        if trees.len() == 0 {
            Seq::empty()
        } else if trees.len() == 1 {
            names.last() + ": "@ + trees[0].text()
        } else {
            Tree::join_named(names.drop_last(), trees.drop_last()) + ", "@ + (names.last() + ": "@
                + trees.last().text())
        }
    }

    /// Quantified variables, separated by spaces.
    pub open spec fn join_vars(bounds: Seq<TyVarId>) -> Seq<char>
        decreases bounds.len(),
    {
        if bounds.len() == 0 {
            Seq::empty()
        } else if bounds.len() == 1 {
            Tree::var_text(bounds[0])
        } else {
            Tree::join_vars(bounds.drop_last()) + " "@ + Tree::var_text(bounds.last())
        }
    }
}

/// Each tree of a list, rewritten.
pub open spec fn rewrite_all(
    trees: Seq<Tree>,
    vars: Map<TyVarId, Tree>,
    cons: Map<Seq<char>, Tree>,
) -> Seq<Tree> {
    Seq::new(trees.len(), |i: int| trees[i].rewrite(vars, cons))
}

/// A node is rewritten part by part, unless it is a named leaf that is replaced.
pub proof fn rewrite_node(
    head: Head,
    kids: Seq<Tree>,
    vars: Map<TyVarId, Tree>,
    cons: Map<Seq<char>, Tree>,
)
    requires
        !(head is Con && cons.contains_key(head->Con_0)),
    ensures
        Tree::Node(head, kids).rewrite(vars, cons) == Tree::Node(
            head,
            rewrite_all(kids, vars, cons),
        ),
{
    assert(Tree::Node(head, kids).rewrite(vars, cons).kids() =~= rewrite_all(kids, vars, cons));
}

/// The model of a type.
pub open spec fn ty_tree(t: Ty) -> Tree
    decreases t,
{
    match t {
        Ty::Var(v) => Tree::Var(v),
        Ty::Con(name) => Tree::con(name@),
        Ty::App(head, args) => Tree::app(ty_tree(*head), ty_trees(args@)),
        Ty::Fun(param, result) => Tree::fun(ty_tree(*param), ty_tree(*result)),
        Ty::List(element) => Tree::list(ty_tree(*element)),
        Ty::Sum { name, variants } => Tree::Node(
            Head::Sum(name@, Seq::new(variants@.len(), |i: int| variants@[i].0@)),
            variant_trees(variants@),
        ),
        Ty::Constructor { owner, tag, arity } => Tree::Node(
            Head::Constructor(tag, arity),
            seq![ty_tree(*owner)],
        ),
        Ty::Tuple(items) => Tree::tuple(ty_trees(items@)),
        Ty::Array { element, length } => Tree::array(ty_tree(*element), length),
        Ty::Record { fields } => Tree::Node(
            Head::Record(Seq::new(fields@.len(), |i: int| fields@[i].0@)),
            field_trees(fields@),
        ),
        Ty::Existential { class } => Tree::Node(Head::Existential(class@), Seq::empty()),
        Ty::Forall { bounds, constraints, body } => Tree::Node(
            Head::Forall(bounds@),
            constraint_trees(constraints@).push(ty_tree(*body)),
        ),
    }
}

/// The models of a list of types.
pub open spec fn ty_trees(s: Seq<Ty>) -> Seq<Tree>
    decreases s,
{
    Seq::new(
        s.len(),
        |i: int|
            if 0 <= i < s.len() {
                ty_tree(s[i])
            } else {
                arbitrary()
            },
    )
}

/// The models of a list of named types.
pub open spec fn field_trees(s: Seq<(String, Ty)>) -> Seq<Tree>
    decreases s,
{
    Seq::new(
        s.len(),
        |i: int|
            if 0 <= i < s.len() {
                ty_tree(s[i].1)
            } else {
                arbitrary()
            },
    )
}

/// The models of the payloads of a list of variants.
pub open spec fn variant_trees(s: Seq<(String, EnumVariantPayloadTy)>) -> Seq<Tree>
    decreases s,
{
    Seq::new(
        s.len(),
        |i: int|
            if 0 <= i < s.len() {
                payload_tree(s[i].1)
            } else {
                arbitrary()
            },
    )
}

/// The models of a list of constraints.
pub open spec fn constraint_trees(s: Seq<Constraint>) -> Seq<Tree>
    decreases s,
{
    Seq::new(
        s.len(),
        |i: int|
            if 0 <= i < s.len() {
                constraint_tree(s[i])
            } else {
                arbitrary()
            },
    )
}

/// The model of a payload.
pub open spec fn payload_tree(p: EnumVariantPayloadTy) -> Tree
    decreases p,
{
    match p {
        EnumVariantPayloadTy::Unit => Tree::Node(Head::UnitPayload, Seq::empty()),
        EnumVariantPayloadTy::Tuple(items) => Tree::Node(Head::TuplePayload, ty_trees(items@)),
        EnumVariantPayloadTy::Record(fields) => Tree::Node(
            Head::RecordPayload(Seq::new(fields@.len(), |i: int| fields@[i].0@)),
            field_trees(fields@),
        ),
    }
}

/// The model of a constraint.
pub open spec fn constraint_tree(c: Constraint) -> Tree
    decreases c,
{
    Tree::Node(Head::Pred(c.class@), ty_trees(c.args@))
}

impl View for Ty {
    type V = Tree;

    open spec fn view(&self) -> Tree {
        ty_tree(*self)
    }
}

impl DeepView for Ty {
    type V = Tree;

    open spec fn deep_view(&self) -> Tree {
        ty_tree(*self)
    }
}

impl View for EnumVariantPayloadTy {
    type V = Tree;

    open spec fn view(&self) -> Tree {
        payload_tree(*self)
    }
}

impl DeepView for EnumVariantPayloadTy {
    type V = Tree;

    open spec fn deep_view(&self) -> Tree {
        payload_tree(*self)
    }
}

impl View for Constraint {
    type V = Tree;

    open spec fn view(&self) -> Tree {
        constraint_tree(*self)
    }
}

impl DeepView for Constraint {
    type V = Tree;

    open spec fn deep_view(&self) -> Tree {
        constraint_tree(*self)
    }
}

/// The names of a list of named trees.
pub open spec fn names_of(pairs: Seq<(Seq<char>, Tree)>) -> Seq<Seq<char>> {
    Seq::new(pairs.len(), |i: int| pairs[i].0)
}

/// The trees of a list of named trees.
pub open spec fn trees_of(pairs: Seq<(Seq<char>, Tree)>) -> Seq<Tree> {
    Seq::new(pairs.len(), |i: int| pairs[i].1)
}

/// A list of named trees is its names and its trees.
pub proof fn pairs_split(a: Seq<(Seq<char>, Tree)>, b: Seq<(Seq<char>, Tree)>)
    ensures
        a == b <==> names_of(a) == names_of(b) && trees_of(a) == trees_of(b),
{
    if names_of(a) == names_of(b) && trees_of(a) == trees_of(b) {
        assert(a.len() == names_of(a).len());
        assert(b.len() == names_of(b).len());
        assert forall|i: int| 0 <= i < a.len() implies a[i] == b[i] by {
            assert(names_of(a)[i] == names_of(b)[i]);
            assert(trees_of(a)[i] == trees_of(b)[i]);
        }
        assert(a =~= b);
    }
}

/// The parts of a type that are kept in lists, over their deep views.
pub broadcast proof fn ty_lists(t: Ty)
    ensures
        #![trigger ty_tree(t)]
        match t {
            Ty::App(_, args) => {
                &&& ty_tree(t).kids().len() == 1 + args.len()
                &&& ty_tree(t).kids().drop_first() == args.deep_view()
            },
            Ty::Sum { name, variants } => ty_tree(t) == Tree::Node(
                Head::Sum(name@, names_of(variants.deep_view())),
                trees_of(variants.deep_view()),
            ),
            Ty::Tuple(items) => ty_tree(t) == Tree::tuple(items.deep_view()),
            Ty::Record { fields } => ty_tree(t) == Tree::Node(
                Head::Record(names_of(fields.deep_view())),
                trees_of(fields.deep_view()),
            ),
            Ty::Forall { bounds, constraints, .. } => {
                &&& ty_tree(t).kids().len() == 1 + constraints.len()
                &&& ty_tree(t).kids().drop_last() == constraints.deep_view()
            },
            _ => true,
        },
{
    reveal_with_fuel(ty_tree, 2);
    reveal_with_fuel(ty_trees, 2);
    reveal_with_fuel(field_trees, 2);
    reveal_with_fuel(variant_trees, 2);
    reveal_with_fuel(constraint_trees, 2);
    match t {
        Ty::App(head, args) => {
            assert(ty_trees(args@) =~= args.deep_view());
            assert(ty_tree(t).kids().drop_first() =~= args.deep_view());
        },
        Ty::Sum { name, variants } => {
            assert(variant_trees(variants@) =~= trees_of(variants.deep_view()));
            assert(ty_tree(t).head()->Sum_1 =~= names_of(variants.deep_view()));
        },
        Ty::Tuple(items) => {
            assert(ty_trees(items@) =~= items.deep_view());
        },
        Ty::Record { fields } => {
            assert(field_trees(fields@) =~= trees_of(fields.deep_view()));
            assert(ty_tree(t).head()->Record_0 =~= names_of(fields.deep_view()));
        },
        Ty::Forall { bounds, constraints, body } => {
            assert(constraint_trees(constraints@) =~= constraints.deep_view());
            assert(ty_tree(t).kids().drop_last() =~= constraints.deep_view());
        },
        _ => {},
    }
}

/// The model of a payload, over the deep views of its parts.
pub broadcast proof fn payload_lists(p: EnumVariantPayloadTy)
    ensures
        #[trigger] payload_tree(p) == (match p {
            EnumVariantPayloadTy::Unit => Tree::Node(Head::UnitPayload, Seq::empty()),
            EnumVariantPayloadTy::Tuple(items) => Tree::Node(
                Head::TuplePayload,
                items.deep_view(),
            ),
            EnumVariantPayloadTy::Record(fields) => Tree::Node(
                Head::RecordPayload(names_of(fields.deep_view())),
                trees_of(fields.deep_view()),
            ),
        }),
{
    match p {
        EnumVariantPayloadTy::Tuple(items) => {
            assert(ty_trees(items@) =~= items.deep_view());
        },
        EnumVariantPayloadTy::Record(fields) => {
            assert(field_trees(fields@) =~= trees_of(fields.deep_view()));
            assert(payload_tree(p).head()->RecordPayload_0 =~= names_of(fields.deep_view()));
        },
        _ => {},
    }
}

/// The model of a constraint, over the deep view of its arguments.
pub broadcast proof fn constraint_lists(c: Constraint)
    ensures
        #[trigger] constraint_tree(c) == Tree::Node(Head::Pred(c.class@), c.args.deep_view()),
{
    assert(ty_trees(c.args@) =~= c.args.deep_view());
}

/// The model of an applied constructor.
pub proof fn app_shape(head: Box<Ty>, args: Vec<Ty>)
    ensures
        ty_tree(Ty::App(head, args)) == Tree::app(head@, args.deep_view()),
{
    broadcast use ty_lists;

    let t = Ty::App(head, args);
    assert(t@.kids() =~= seq![t@.kids()[0]] + t@.kids().drop_first());
}

/// The model of a quantified type.
pub proof fn forall_shape(bounds: Vec<TyVarId>, constraints: Vec<Constraint>, body: Box<Ty>)
    ensures
        ty_tree(Ty::Forall { bounds, constraints, body }) == Tree::Node(
            Head::Forall(bounds@),
            constraints.deep_view().push(body@),
        ),
{
    broadcast use ty_lists;

    let t = Ty::Forall { bounds, constraints, body };
    assert(t@.kids() =~= t@.kids().drop_last().push(t@.kids().last()));
}

pub broadcast group group_shapes {
    ty_lists,
    payload_lists,
    constraint_lists,
}

} // verus!
