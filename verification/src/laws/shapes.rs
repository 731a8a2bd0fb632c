//! Which types are vectors and matrices.
use crate::aggregate_arith;
use crate::tree::{ArrayLength, Head, Tree};
use vstd::prelude::*;

verus! {

/// A tuple is a vector just where its parts all have one type: of that type, and
/// as long as it has parts.
pub proof fn tuples_of_one_type_are_vectors(kids: Seq<Tree>, t: Tree)
    requires
        0 < kids.len() <= usize::MAX,
    ensures
        (forall|i: int| 0 <= i < kids.len() ==> #[trigger] kids[i] == t) ==> aggregate_arith::vector_of(
            Tree::Node(Head::Tuple, kids),
        ) == Some((t, kids.len() as usize, true)) && aggregate_arith::uniform_elem(Tree::Node(Head::Tuple, kids))
            == Some(t),
        (exists|i: int| 0 <= i < kids.len() && #[trigger] kids[i] != kids[0]) ==> aggregate_arith::vector_of(
            Tree::Node(Head::Tuple, kids),
        ) is None && aggregate_arith::uniform_elem(Tree::Node(Head::Tuple, kids)) is None,
{
}

/// An array is a vector just where its length is fixed, and not zero.
pub proof fn fixed_arrays_are_vectors(t: Tree, n: usize)
    ensures
        n > 0 ==> aggregate_arith::vector_of(Tree::Node(Head::Array(ArrayLength::Static(n)), seq![t])) == Some(
            (t, n, false),
        ),
        aggregate_arith::vector_of(Tree::Node(Head::Array(ArrayLength::Static(0)), seq![t])) is None,
        aggregate_arith::vector_of(Tree::Node(Head::Array(ArrayLength::Dynamic), seq![t])) is None,
        aggregate_arith::uniform_elem(Tree::Node(Head::Array(ArrayLength::Dynamic), seq![t])) == Some(t),
{
}

/// A vector of vectors of one length is a matrix, with as many rows as the outer
/// one has parts and as many columns as the inner one.
pub proof fn vectors_of_vectors_are_matrices(t: Tree, m: usize, n: usize, rows: Seq<Tree>)
    requires
        m > 0,
        n > 0,
    ensures
        aggregate_arith::matrix_of(
            Tree::Node(
                Head::Array(ArrayLength::Static(m)),
                seq![Tree::Node(Head::Array(ArrayLength::Static(n)), seq![t])],
            ),
        ) == Some((t, m, n, false, false)),
        0 < rows.len() <= usize::MAX && (forall|i: int|
            0 <= i < rows.len() ==> #[trigger] rows[i] == Tree::Node(
                Head::Array(ArrayLength::Static(n)),
                seq![t],
            )) ==> aggregate_arith::matrix_of(Tree::Node(Head::Tuple, rows)) == Some(
            (t, rows.len() as usize, n, true, false),
        ),
{
}

/// Numbers are `int`, `float` and `byte`, and what is still open.
pub proof fn numbers_are_int_float_and_byte(name: Seq<char>)
    ensures
        aggregate_arith::numeric(Tree::Node(Head::Con(name), Seq::empty())) <==> name == "int"@ || name == "float"@
            || name == "byte"@,
{
    let t = Tree::Node(Head::Con(name), Seq::<Tree>::empty());
    assert(t == Tree::con(name));
    assert(t == Tree::con("int"@) <==> name == "int"@);
    assert(t == Tree::con("float"@) <==> name == "float"@);
    assert(t == Tree::con("byte"@) <==> name == "byte"@);
}

} // verus!
