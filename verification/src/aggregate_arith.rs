//! Aggregate (tuple / array) arithmetic shapes for the numeric tower.
//!
//! Homogeneous numeric tuples and fixed-length arrays support element-wise
//! and scalar-broadcast ops. Dynamic `[T]` with dynamic `[T]` is a hard type
//! error.
use crate::text::same_text;
use crate::tree::Tree;
use crate::ty::{ArrayLength, Ty, array, array_fixed, same_ty, tuple};
use vstd::prelude::*;

verus! {

broadcast use crate::tree::group_shapes;

/// Which side of a broadcast is the scalar.
#[derive(Clone, Copy, Debug, PartialEq, Eq, Structural)]
pub enum ScalarSide {
    Left,
    Right,
}

/// Arithmetic operator lowered element-wise on aggregates.
#[derive(Clone, Copy, Debug, PartialEq, Eq, Structural)]
pub enum AggregateOp {
    Add,
    Sub,
    Mul,
    Div,
    Mod,
    Pow,
    Neg,
}

impl AggregateOp {
    /// The operator that a piece of source text names.
    pub open spec fn named(op: Seq<char>) -> Option<AggregateOp> {
        if op == "+"@ {
            Some(AggregateOp::Add)
        } else if op == "-"@ {
            Some(AggregateOp::Sub)
        } else if op == "*"@ {
            Some(AggregateOp::Mul)
        } else if op == "/"@ {
            Some(AggregateOp::Div)
        } else if op == "%"@ {
            Some(AggregateOp::Mod)
        } else if op == "**"@ {
            Some(AggregateOp::Pow)
        } else if op == "neg"@ {
            Some(AggregateOp::Neg)
        } else {
            None
        }
    }

    /// The sign of an operator.
    pub open spec fn sign(self) -> Seq<char> {
        match self {
            AggregateOp::Add => "+"@,
            AggregateOp::Sub => "-"@,
            AggregateOp::Mul => "*"@,
            AggregateOp::Div => "/"@,
            AggregateOp::Mod => "%"@,
            AggregateOp::Pow => "**"@,
            AggregateOp::Neg => "-"@,
        }
    }

    pub fn from_str(op: &str) -> (r: Option<Self>)
        ensures
            r == AggregateOp::named(op@),
    {
        if same_text(op, "+") {
            Some(AggregateOp::Add)
        } else if same_text(op, "-") {
            Some(AggregateOp::Sub)
        } else if same_text(op, "*") {
            Some(AggregateOp::Mul)
        } else if same_text(op, "/") {
            Some(AggregateOp::Div)
        } else if same_text(op, "%") {
            Some(AggregateOp::Mod)
        } else if same_text(op, "**") {
            Some(AggregateOp::Pow)
        } else if same_text(op, "neg") {
            Some(AggregateOp::Neg)
        } else {
            None
        }
    }

    pub fn as_str(self) -> (r: &'static str)
        ensures
            r@ == self.sign(),
    {
        match self {
            AggregateOp::Add => "+",
            AggregateOp::Sub => "-",
            AggregateOp::Mul => "*",
            AggregateOp::Div => "/",
            AggregateOp::Mod => "%",
            AggregateOp::Pow => "**",
            AggregateOp::Neg => "-",
        }
    }
}

/// Codegen recipe for aggregate arithmetic at a node.
#[allow(inconsistent_fields)]
#[derive(Clone, Copy, Debug, PartialEq, Eq, Structural)]
pub enum AggregateArithKind {
    ZipTuple { arity: usize, elem_is_float: bool },
    ZipArray { length: usize, elem_is_float: bool },
    BroadcastTuple { arity: usize, scalar_on: ScalarSide, elem_is_float: bool },
    /// `length: None` means dynamic `[T]` (broadcast only, never zip).
    BroadcastArray { length: Option<usize>, scalar_on: ScalarSide, elem_is_float: bool },
    NegTuple { arity: usize, elem_is_float: bool },
    NegArray { length: Option<usize>, elem_is_float: bool },
}

#[derive(Clone, Copy, Debug, PartialEq, Eq, Structural)]
pub struct AggregateArithInfo {
    pub kind: AggregateArithKind,
    pub op: AggregateOp,
}

/// Classification of one operand for arithmetic.
#[derive(Debug, PartialEq, Eq)]
pub enum ArithShape {
    Scalar(Ty),
    Tuple { elem: Ty, arity: usize },
    Array { elem: Ty, length: ArrayLength },
}

/// The model of an [`ArithShape`].
pub enum ShapeV {
    Scalar(Tree),
    Tuple(Tree, usize),
    Array(Tree, ArrayLength),
}

impl View for ArithShape {
    type V = ShapeV;

    open spec fn view(&self) -> ShapeV {
        match self {
            ArithShape::Scalar(t) => ShapeV::Scalar(t@),
            ArithShape::Tuple { elem, arity } => ShapeV::Tuple(elem@, *arity),
            ArithShape::Array { elem, length } => ShapeV::Array(elem@, *length),
        }
    }
}

impl Clone for ArithShape {
    fn clone(&self) -> (r: Self)
        ensures
            r@ == self@,
    {
        match self {
            ArithShape::Scalar(t) => ArithShape::Scalar(t.clone()),
            ArithShape::Tuple { elem, arity } => ArithShape::Tuple {
                elem: elem.clone(),
                arity: *arity,
            },
            ArithShape::Array { elem, length } => ArithShape::Array {
                elem: elem.clone(),
                length: *length,
            },
        }
    }
}

/// How two shapes combine.
#[derive(Clone, Copy, Debug, PartialEq, Eq, Structural)]
pub enum ZipMode {
    Zip,
    BroadcastLeft,
    BroadcastRight,
}

/// A type whose values are numbers, or that is still open.
pub open spec fn numeric(t: Tree) -> bool {
    t is Var || t == Tree::con("int"@) || t == Tree::con("float"@) || t == Tree::con("byte"@)
}

pub fn is_numeric_elem(ty: &Ty) -> (r: bool)
    ensures
        r == numeric(ty@),
{
    match ty {
        Ty::Con(n) => same_text(n.as_str(), "int") || same_text(n.as_str(), "float") || same_text(
            n.as_str(),
            "byte",
        ),
        Ty::Var(_) => true,
        _ => false,
    }
}

pub fn elem_is_float(ty: &Ty) -> (r: bool)
    ensures
        r == (ty@ == Tree::con("float"@)),
{
    match ty {
        Ty::Con(n) => same_text(n.as_str(), "float"),
        _ => false,
    }
}

/// A non-empty tuple type.
pub open spec fn is_tuple(t: Tree) -> bool {
    t is Node && t.head() is Tuple && t.kids().len() > 0
}

/// An array type.
pub open spec fn is_array(t: Tree) -> bool {
    t is Node && t.head() is Array && t.kids().len() == 1
}

/// The shape of an operand: a tuple goes by its first element.
pub open spec fn shape_of(t: Tree) -> ShapeV {
    if is_tuple(t) {
        ShapeV::Tuple(t.kids()[0], t.kids().len() as usize)
    } else if is_array(t) {
        ShapeV::Array(t.kids()[0], t.head()->Array_0)
    } else {
        ShapeV::Scalar(t)
    }
}

/// Classify a resolved type as an arithmetic shape.
///
/// A tuple is classified by its first element; whether its elements agree is
/// what [`homogeneous_aggregate_elem`] answers.
pub fn classify_arith(ty: &Ty) -> (r: ArithShape)
    ensures
        r@ == shape_of(ty@),
{
    match ty {
        Ty::Tuple(elems) => if elems.len() > 0 {
            ArithShape::Tuple { elem: elems[0].clone(), arity: elems.len() }
        } else {
            ArithShape::Scalar(ty.clone())
        },
        Ty::Array { element, length } => ArithShape::Array {
            elem: (**element).clone(),
            length: *length,
        },
        _ => ArithShape::Scalar(ty.clone()),
    }
}

pub fn is_aggregate_shape(shape: &ArithShape) -> (r: bool)
    ensures
        r == !(shape@ is Scalar),
{
    !matches!(shape, ArithShape::Scalar(_))
}

/// Traits that the numeric tower lifts from element to homogeneous aggregate.
pub open spec fn liftable(class: Seq<char>) -> bool {
    class == "Add"@ || class == "Sub"@ || class == "Mul"@ || class == "Div"@ || class == "Num"@
}

/// Traits that the numeric tower lifts from element to homogeneous aggregate.
pub fn is_liftable_arith_trait(class: &str) -> (r: bool)
    ensures
        r == liftable(class@),
{
    same_text(class, "Add") || same_text(class, "Sub") || same_text(class, "Mul") || same_text(
        class,
        "Div",
    ) || same_text(class, "Num")
}

/// All trees of a list are the same.
pub open spec fn uniform(trees: Seq<Tree>) -> bool {
    forall|i: int| 0 <= i < trees.len() ==> #[trigger] trees[i] == trees[0]
}

/// The element type of an aggregate whose elements all have one type.
pub open spec fn uniform_elem(t: Tree) -> Option<Tree> {
    if is_tuple(t) {
        if uniform(t.kids()) {
            Some(t.kids()[0])
        } else {
            None
        }
    } else if is_array(t) {
        Some(t.kids()[0])
    } else {
        None
    }
}

fn all_same(elems: &Vec<Ty>) -> (r: bool)
    requires
        elems.len() > 0,
    ensures
        r == uniform(elems.deep_view()),
{
    let mut i: usize = 0;
    while i < elems.len()
        invariant
            i <= elems.len(),
            elems.len() > 0,
            forall|j: int|
                0 <= j < i ==> #[trigger] elems.deep_view()[j] == elems.deep_view()[0],
        decreases elems.len() - i,
    {
        if !same_ty(&elems[i], &elems[0]) {
            assert(elems.deep_view()[i as int] != elems.deep_view()[0]);
            return false;
        }
        i += 1;
    }
    true
}

/// If `ty` is a homogeneous tuple or array of a single element type, return
/// that element type. Heterogeneous tuples yield `None`.
pub fn homogeneous_aggregate_elem(ty: &Ty) -> (r: Option<Ty>)
    ensures
        match r {
            Some(e) => uniform_elem(ty@) == Some(e@),
            None => uniform_elem(ty@) is None,
        },
{
    match ty {
        Ty::Tuple(elems) => if elems.len() > 0 && all_same(elems) {
            Some(elems[0].clone())
        } else {
            None
        },
        Ty::Array { element, .. } => Some((**element).clone()),
        _ => None,
    }
}

/// The type of a shape.
pub open spec fn type_of_shape(s: ShapeV) -> Tree {
    match s {
        ShapeV::Scalar(t) => t,
        ShapeV::Tuple(elem, arity) => Tree::tuple(Seq::new(arity as nat, |i: int| elem)),
        ShapeV::Array(elem, length) => Tree::array(elem, length),
    }
}

/// Result type for a successful shape resolution.
pub fn result_ty_for(shape: &ArithShape) -> (r: Ty)
    ensures
        r@ == type_of_shape(shape@),
{
    match shape {
        ArithShape::Scalar(t) => t.clone(),
        ArithShape::Tuple { elem, arity } => {
            let mut items: Vec<Ty> = Vec::new();
            let mut i: usize = 0;
            while i < *arity
                invariant
                    i <= *arity,
                    items.deep_view() == Seq::new(i as nat, |j: int| elem@),
                decreases *arity - i,
            {
                let ghost before = items.deep_view();
                let x = elem.clone();
                items.push(x);
                i += 1;
                assert(items.deep_view() =~= before.push(x@));
                assert(items.deep_view() =~= Seq::new(i as nat, |j: int| elem@));
            }
            tuple(items)
        },
        ArithShape::Array { elem, length } => match length {
            ArrayLength::Static(n) => array_fixed(elem.clone(), *n),
            ArrayLength::Dynamic => array(elem.clone()),
        },
    }
}

/// Codegen recipe for named linear-algebra helpers (`dot` / `matmul` / `cross`).
#[derive(Clone, Copy, Debug, PartialEq, Eq, Structural)]
pub enum LinearAlgebraKind {
    /// Equal-length vectors to a scalar.
    Dot { length: usize, left_is_tuple: bool, elem_is_float: bool },
    /// Length-3 vectors to a length-3 vector (same container kind as left).
    Cross { left_is_tuple: bool, elem_is_float: bool },
    /// Nested static matrices (row-major): `(m*k)` by `(k*n)` to `(m*n)`.
    MatMul {
        m: usize,
        k: usize,
        n: usize,
        /// Outer container is a tuple-of-rows (vs array-of-rows).
        outer_is_tuple: bool,
        /// Each row is a tuple (vs array).
        row_is_tuple: bool,
        elem_is_float: bool,
    },
}

#[derive(Clone, Copy, Debug, PartialEq, Eq, Structural)]
pub struct LinearAlgebraInfo {
    pub kind: LinearAlgebraKind,
}

/// The length of an array type with a positive static length.
pub open spec fn static_len(t: Tree) -> Option<usize> {
    if is_array(t) && t.head()->Array_0 is Static && t.head()->Array_0->Static_0 > 0 {
        Some(t.head()->Array_0->Static_0)
    } else {
        None
    }
}

/// A vector: its element type, its length, and whether it is a tuple.
pub open spec fn vector_of(t: Tree) -> Option<(Tree, usize, bool)> {
    if is_tuple(t) {
        match uniform_elem(t) {
            Some(e) => Some((e, t.kids().len() as usize, true)),
            None => None,
        }
    } else {
        match static_len(t) {
            Some(n) => Some((t.kids()[0], n, false)),
            None => None,
        }
    }
}

/// Classify a homogeneous numeric vector for `dot` / `cross`: element type,
/// length, and whether it is a tuple.
pub fn classify_vector(ty: &Ty) -> (r: Option<(Ty, usize, bool)>)
    ensures
        match r {
            Some((e, n, tup)) => vector_of(ty@) == Some((e@, n, tup)),
            None => vector_of(ty@) is None,
        },
{
    match ty {
        Ty::Tuple(elems) => match homogeneous_aggregate_elem(ty) {
            Some(e) => Some((e, elems.len(), true)),
            None => None,
        },
        Ty::Array { element, length } => match length {
            ArrayLength::Static(n) => if *n > 0 {
                Some(((**element).clone(), *n, false))
            } else {
                None
            },
            ArrayLength::Dynamic => None,
        },
        _ => None,
    }
}

/// A matrix: its element type, its rows and columns, whether the rows are in a
/// tuple, and whether each row is one.
pub open spec fn matrix_of(t: Tree) -> Option<(Tree, usize, usize, bool, bool)> {
    if is_tuple(t) {
        if uniform(t.kids()) {
            match vector_of(t.kids()[0]) {
                Some((e, n, row_tuple)) => Some((e, t.kids().len() as usize, n, true, row_tuple)),
                None => None,
            }
        } else {
            None
        }
    } else {
        match static_len(t) {
            Some(m) => match vector_of(t.kids()[0]) {
                Some((e, n, row_tuple)) => Some((e, m, n, false, row_tuple)),
                None => None,
            },
            None => None,
        }
    }
}

/// Classify a nested static matrix (rows by columns) for `matmul`: element
/// type, rows, columns, whether the outer container and whether a row is a
/// tuple.
///
/// Accepts `[[T; N]; M]` or a homogeneous tuple of equal-arity row tuples/arrays.
pub fn classify_matrix(ty: &Ty) -> (r: Option<(Ty, usize, usize, bool, bool)>)
    ensures
        match r {
            Some((e, m, n, outer, row)) => matrix_of(ty@) == Some((e@, m, n, outer, row)),
            None => matrix_of(ty@) is None,
        },
{
    match ty {
        Ty::Array { element, length } => match length {
            ArrayLength::Static(m) => if *m > 0 {
                match classify_vector(element) {
                    Some((e, n, row_tuple)) => Some((e, *m, n, false, row_tuple)),
                    None => None,
                }
            } else {
                None
            },
            ArrayLength::Dynamic => None,
        },
        Ty::Tuple(rows) => if rows.len() > 0 && all_same(rows) {
            assert(ty@.kids()[0] == rows@[0]@);
            match classify_vector(&rows[0]) {
                Some((e, n, row_tuple)) => Some((e, rows.len(), n, true, row_tuple)),
                None => None,
            }
        } else {
            None
        },
        _ => None,
    }
}

/// The sign of an operator names it again; the sign of a negation names the
/// subtraction.
pub proof fn op_text_round_trip(op: AggregateOp)
    ensures
        AggregateOp::named(op.sign()) == Some(
            if op is Neg {
                AggregateOp::Sub
            } else {
                op
            },
        ),
{
    reveal_strlit("+");
    reveal_strlit("-");
    reveal_strlit("*");
    reveal_strlit("/");
    reveal_strlit("%");
    reveal_strlit("**");
    assert("+"@[0] == '+');
    assert("-"@[0] == '-');
    assert("*"@[0] == '*');
    assert("/"@[0] == '/');
    assert("%"@[0] == '%');
    assert("**"@.len() == 2);
    assert("*"@.len() == 1);
}

/// Classifying a type and going back gives the type, unless it is a tuple of
/// different element types.
pub proof fn shape_round_trip(t: Tree)
    requires
        is_tuple(t) ==> uniform(t.kids()) && t.kids().len() <= usize::MAX,
    ensures
        type_of_shape(shape_of(t)) == t,
{
    if is_tuple(t) {
        assert(type_of_shape(shape_of(t)).kids() =~= t.kids());
    } else if is_array(t) {
        assert(type_of_shape(shape_of(t)).kids() =~= t.kids());
    }
}

/// The rows of a matrix are vectors of one length and one element type.
pub proof fn matrix_rows_are_vectors(t: Tree, i: int)
    requires
        matrix_of(t) is Some,
        0 <= i < t.kids().len(),
    ensures
        vector_of(t.kids()[i]) == Some(
            (matrix_of(t).unwrap().0, matrix_of(t).unwrap().2, matrix_of(t).unwrap().4),
        ),
{
    assert(t.kids()[i] == t.kids()[0]);
}

} // verus!
