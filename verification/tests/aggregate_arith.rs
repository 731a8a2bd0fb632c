use coil_typecheck::aggregate_arith::{classify_arith, homogeneous_aggregate_elem, ArithShape};
use coil_typecheck::tree::ArrayLength;
use coil_typecheck::ty::{array_fixed, int_ty, Ty};

#[test]
fn classify_tuple_and_array() {
    let t = classify_arith(&Ty::Tuple(vec![int_ty(), int_ty()]));
    assert!(matches!(t, ArithShape::Tuple { arity: 2, .. }));
    let a = classify_arith(&array_fixed(int_ty(), 3));
    assert!(matches!(a, ArithShape::Array { length: ArrayLength::Static(3), .. }));
}

#[test]
fn homogeneous_aggregate_elem_requires_uniform_tuple() {
    assert_eq!(
        homogeneous_aggregate_elem(&Ty::Tuple(vec![int_ty(), int_ty()])),
        Some(int_ty())
    );
    assert!(
        homogeneous_aggregate_elem(&Ty::Tuple(vec![int_ty(), Ty::Con("float".to_string())]))
            .is_none()
    );
}
